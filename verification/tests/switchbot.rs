use wallclock::switchbot::auth_headers;
use wallclock::switchbot::device_status_path;
use wallclock::switchbot::device_status_url;
use wallclock::switchbot::SWITCHBOT_BASE_URL;
use wallclock::switchbot::sensor_from_response;
use wallclock::switchbot::sign;
use wallclock::switchbot::SwitchBotError;

#[test]
fn signature_matches_reference() {
    assert_eq!(
        sign("token", "secret", "1700000000000", "nonce-1"),
        "5Z4rSU2ZX0xJU6pn+C+vXd3lDzQkXX8iwCP4OLgST4I="
    );
}

#[test]
fn headers_in_order() {
    let h = auth_headers("token", "secret", "1700000000000", "nonce-1");
    assert_eq!(h.len(), 4);
    assert_eq!(h[0], ("Authorization", "token".to_string()));
    assert_eq!(h[1], ("t", "1700000000000".to_string()));
    assert_eq!(h[2], ("nonce", "nonce-1".to_string()));
    assert_eq!(h[3], ("sign", "5Z4rSU2ZX0xJU6pn+C+vXd3lDzQkXX8iwCP4OLgST4I=".to_string()));
}

#[test]
fn status_path() {
    assert_eq!(device_status_path("C0FFEE"), "devices/C0FFEE/status");
}

#[test]
fn status_url() {
    assert_eq!(
        device_status_url(SWITCHBOT_BASE_URL, "C0FFEE").unwrap(),
        "https://api.switch-bot.com/v1.1/devices/C0FFEE/status"
    );
    assert_eq!(device_status_url("not a url", "C0FFEE"), None);
}

#[test]
fn responses() {
    assert_eq!(sensor_from_response(100, "success".to_string(), Some(7)).unwrap(), 7);
    match sensor_from_response::<i32>(190, "device offline".to_string(), Some(7)) {
        Err(SwitchBotError::Api { status_code, message }) => {
            assert_eq!(status_code, 190);
            assert_eq!(message, "device offline");
        }
        _ => panic!("expected an API error"),
    }
    assert!(matches!(
        sensor_from_response::<i32>(100, "success".to_string(), None),
        Err(SwitchBotError::NoSensorData)
    ));
}

#[test]
fn switchbot_error_texts() {
    let e = SwitchBotError::Api { status_code: 190, message: "device offline".to_string() };
    assert_eq!(e.message("C0FFEE"), "SwitchBot API error for device C0FFEE: 190 device offline");
    assert_eq!(
        SwitchBotError::NoSensorData.message("C0FFEE"),
        "SwitchBot API did not return WoIOSensor data for device C0FFEE"
    );
}
