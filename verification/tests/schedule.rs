use wallclock::schedule::balbird_schedule;
use wallclock::schedule::openweather_schedule;
use wallclock::schedule::switchbot_schedule;
use wallclock::schedule::tick_schedule;
use wallclock::schedule::wallpaper_schedule;

#[test]
fn slots() {
    let s = balbird_schedule();
    assert_eq!(s.slot(30), 0);
    assert_eq!(s.slot(209), 0);
    assert_eq!(s.slot(210), 1);
    assert_eq!(s.slot(0), 0);
    assert_eq!(s.slot(-200), -1);
    assert_eq!(switchbot_schedule().slot(190), 1);
    assert_eq!(openweather_schedule().slot(619), 0);
    assert_eq!(openweather_schedule().slot(620), 1);
    assert_eq!(wallpaper_schedule().slot(289), 0);
    assert_eq!(wallpaper_schedule().slot(290), 1);
    assert_eq!(tick_schedule().slot(1_700_000_000), 1_700_000_000);
}

#[test]
fn poll_runs_once_per_slot() {
    let s = switchbot_schedule();
    let last = -1;
    let run = s.poll(last, 1_000).unwrap();
    assert_eq!(run, (1_000 - 10) / 180);
    assert_eq!(s.poll(run, 1_001), None);
    assert_eq!(s.poll(run, (10 + 180 * (run + 1)) as i64), Some(run + 1));
    let t = tick_schedule();
    assert_eq!(t.poll(5, 5), None);
    assert_eq!(t.slot(i64::MIN), i64::MIN as i128);
    assert_eq!(wallpaper_schedule().slot(i64::MAX), (i64::MAX as i128 + 10) / 300);
    assert_eq!(t.poll(5, 6), Some(6));
}
