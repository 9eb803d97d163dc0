use wallclock::output::choose_crtc;
use wallclock::output::find_mode;
use wallclock::output::first_connected;

#[test]
fn picks_first_connected_connector() {
    assert_eq!(first_connected(&vec![false, true, true]), Some(1));
    assert_eq!(first_connected(&vec![false, false]), None);
    assert_eq!(first_connected(&vec![]), None);
}

#[test]
fn picks_mode_of_screen_size() {
    let modes = vec![(1920, 1080), (2560, 1600), (2560, 1600)];
    assert_eq!(find_mode(&modes, (2560, 1600)), Some(1));
    assert_eq!(find_mode(&modes, (1280, 720)), None);
}

#[test]
fn picks_crtc_showing_screen_size_or_first() {
    let crtcs = vec![None, Some((1920, 1080)), Some((2560, 1600))];
    assert_eq!(choose_crtc(&crtcs, (2560, 1600)), Some(2));
    assert_eq!(choose_crtc(&crtcs, (800, 600)), Some(0));
    assert_eq!(choose_crtc(&vec![], (2560, 1600)), None);
}
