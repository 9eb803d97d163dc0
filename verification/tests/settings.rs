use wallclock::screen_dimensions;
use wallclock::settings::balbird;
use wallclock::settings::drm;
use wallclock::settings::switchbot;
use wallclock::settings::Balbird;
use wallclock::settings::Drm;
use wallclock::settings::Settings;
use wallclock::settings::SwitchBot;
use wallclock::settings::SwitchBotDevice;
use wallclock::settings::SwitchBotDevices;

fn device(id: &str, label: &str) -> SwitchBotDevice {
    SwitchBotDevice { id: id.to_string(), label: label.to_string() }
}

#[test]
fn getters_return_sections() {
    let s = Settings {
        switchbot: SwitchBot {
            token: "t".to_string(),
            secret: "s".to_string(),
            devices: SwitchBotDevices {
                indoor: device("1", "Living"),
                outdoor: device("2", "Garden"),
                tank: device("3", "Tank"),
            },
        },
        balbird: Balbird { api_key: "k".to_string() },
        drm: Drm { device: "/dev/dri/card0".to_string() },
    };
    assert_eq!(switchbot(&s).devices.outdoor.label, "Garden");
    assert_eq!(balbird(&s).api_key, "k");
    assert_eq!(drm(&s).device, "/dev/dri/card0");
}

#[test]
fn dimensions_convert() {
    let d = screen_dimensions();
    let a: (u32, u32) = d.into();
    let b: (i32, i32) = d.into();
    let c: (u16, u16) = d.into();
    assert_eq!(a, (2560, 1600));
    assert_eq!(b, (2560, 1600));
    assert_eq!(c, (2560, 1600));
}
