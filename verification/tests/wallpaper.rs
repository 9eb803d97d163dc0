use std::collections::VecDeque;
use wallclock::schedule::wallpaper_schedule;
use wallclock::wallpaper::image_urls;
use wallclock::wallpaper::wallpaper_action;
use wallclock::wallpaper::UrlQueue;
use wallclock::wallpaper::WallpaperAction;
use wallclock::wallpaper::WallpaperQueue;
use wallclock::wallpaper::BING_BASE_URL;
use wallclock::wallpaper::MAX_QUEUE_SIZE;

#[test]
fn queue_keeps_at_most_two_and_never_empties() {
    let mut q = WallpaperQueue::new();
    assert_eq!(q.get_current(), None);
    assert!(!q.move_next());
    assert!(q.push(1));
    assert!(!q.move_next());
    assert_eq!(q.get_current(), Some(&1));
    assert!(q.push(2));
    assert!(q.is_full());
    assert!(!q.push(3));
    assert_eq!(q.len(), MAX_QUEUE_SIZE);
    assert_eq!(q.get_current(), Some(&1));
    assert!(q.move_next());
    assert_eq!(q.get_current(), Some(&2));
    assert!(!q.move_next());
    assert_eq!(q.get_current(), Some(&2));
}

#[test]
fn url_queue_rotates_before_refreshing() {
    let mut q = UrlQueue::new();
    let fresh: VecDeque<String> = ["a", "b"].iter().map(|s| s.to_string()).collect();
    assert_eq!(q.next_url(fresh), Some("a".to_string()));
    let newer: VecDeque<String> = ["x", "y"].iter().map(|s| s.to_string()).collect();
    assert_eq!(q.next_url(newer.clone()), Some("b".to_string()));
    assert_eq!(q.next_url(newer), Some("x".to_string()));
    assert_eq!(q.next_url(VecDeque::new()), Some("y".to_string()));
    assert_eq!(q.next_url(VecDeque::new()), None);
}

#[test]
fn image_urls_join_onto_base() {
    let bases = vec!["/th?id=OHR.Example_JA-JP123".to_string(), "/th?id=OHR.Other".to_string()];
    let urls = image_urls(BING_BASE_URL, &bases).unwrap();
    assert_eq!(urls.len(), 2);
    assert_eq!(urls[0], "https://bing.com/th?id=OHR.Example_JA-JP123_UHD.jpg");
    assert_eq!(urls[1], "https://bing.com/th?id=OHR.Other_UHD.jpg");
    assert_eq!(image_urls(BING_BASE_URL, &vec![]).unwrap().len(), 0);
    assert!(image_urls("not a url", &bases).is_none());
}

#[test]
fn wallpaper_actions() {
    let s = wallpaper_schedule();
    assert_eq!(wallpaper_action(&s, -1, 1000, 0), WallpaperAction::Fetch(3));
    assert_eq!(wallpaper_action(&s, -1, 1000, 2), WallpaperAction::Skip(3));
    assert_eq!(wallpaper_action(&s, 3, 1000, 0), WallpaperAction::Idle);
}
