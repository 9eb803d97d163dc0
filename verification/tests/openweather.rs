use wallclock::openweather::day_icons;
use wallclock::openweather::night_icons;
use wallclock::openweather::is_daytime;
use wallclock::openweather::weather_report;
use wallclock::openweather::Icons;
use wallclock::openweather::Weather;
use wallclock::openweather::WeatherError;

#[test]
fn icon_tables_are_sorted() {
    for table in [day_icons(), night_icons()] {
        assert!(table.windows(2).all(|w| w[0].0 < w[1].0));
    }
}

#[test]
fn maps_known_weather_ids() {
    assert!(matches!(
        Icons::from_openweather_id(800, true).unwrap(),
        Icons::DaySunny
    ));
    assert!(matches!(
        Icons::from_openweather_id(800, false).unwrap(),
        Icons::NightClear
    ));
}

#[test]
fn maps_first_and_last_ids() {
    assert_eq!(Icons::from_openweather_id(200, true).unwrap(), Icons::DayThunderstorm);
    assert_eq!(Icons::from_openweather_id(957, false).unwrap(), Icons::StrongWind);
    assert_eq!(Icons::from_openweather_id(721, false).unwrap(), Icons::DayHaze);
    assert_eq!(Icons::from_openweather_id(804, false).unwrap(), Icons::NightAltCloudy);
}

#[test]
fn rejects_unknown_ids() {
    for id in [0, 199, 203, 800 - 1, 958, -5, i32::MAX] {
        let e = Icons::from_openweather_id(id, true).unwrap_err();
        assert_eq!(e.id, id);
        assert!(e.is_day);
    }
    let e = Icons::from_openweather_id(905, false).unwrap_err();
    assert_eq!(e.id, 905);
    assert!(!e.is_day);
}

#[test]
fn every_table_entry_is_found() {
    for (is_day, table) in [(true, day_icons()), (false, night_icons())] {
        for (id, icon) in table {
            assert_eq!(Icons::from_openweather_id(id, is_day).unwrap(), icon);
        }
    }
}

#[test]
fn icon_file_names() {
    assert_eq!(Icons::DaySunny.file_name(), "wi-day-sunny.webp");
    assert_eq!(Icons::NightAltRainMix.file_name(), "wi-night-alt-rain-mix.webp");
    assert_eq!(Icons::Tornado.file_name(), "wi-tornado.webp");
}

#[test]
fn daytime_is_half_open() {
    assert!(is_daytime(100, 200, 100));
    assert!(is_daytime(100, 200, 199));
    assert!(!is_daytime(100, 200, 200));
    assert!(!is_daytime(100, 200, 99));
}

#[test]
fn weather_report_uses_first_condition() {
    let weather = vec![
        Weather { id: 500, description: "light rain".to_string() },
        Weather { id: 800, description: "clear sky".to_string() },
    ];
    let r = weather_report(weather, 1013, 150, 100, 200).unwrap();
    assert_eq!(r.icon, Icons::DaySprinkle);
    assert_eq!(r.description, "light rain");
    assert_eq!(r.pressure, 1013);

    let weather = vec![Weather { id: 500, description: "light rain".to_string() }];
    let r = weather_report(weather, 990, 250, 100, 200).unwrap();
    assert_eq!(r.icon, Icons::NightAltSprinkle);
}

#[test]
fn weather_report_errors() {
    assert!(matches!(weather_report(vec![], 1000, 0, 0, 1), Err(WeatherError::EmptyWeatherList)));
    let weather = vec![Weather { id: 123, description: "odd".to_string() }];
    match weather_report(weather, 1000, 0, 0, 1) {
        Err(WeatherError::UnknownCondition(e)) => {
            assert_eq!(e.id, 123);
            assert!(e.is_day);
        }
        _ => panic!("expected an unknown condition"),
    }
}

#[test]
fn weather_error_texts() {
    let e = Icons::from_openweather_id(901, true).unwrap_err();
    assert_eq!(e.message(), "Bad OpenWeather condition ID: 901, is_day: true");
    let e = Icons::from_openweather_id(-42, false).unwrap_err();
    assert_eq!(e.message(), "Bad OpenWeather condition ID: -42, is_day: false");
    assert_eq!(
        WeatherError::EmptyWeatherList.message(),
        "OpenWeather API returned an empty weather list"
    );
    match weather_report(vec![Weather { id: 1, description: "x".to_string() }], 1000, 5, 0, 10) {
        Err(e) => assert_eq!(e.message(), "Bad OpenWeather condition ID: 1, is_day: true"),
        Ok(_) => panic!("expected an error"),
    }
}
