use dark_light::watcher::Watcher;
use dark_light::Mode;

#[test]
fn watch_returns_dark_once_light_changes_to_dark() {
    let setting = [Mode::Light, Mode::Light, Mode::Light, Mode::Dark, Mode::Light];
    let watcher = Watcher::new(setting[0]);
    let mut result = None;
    let mut polls = 0;
    for current in setting[1..].iter() {
        polls += 1;
        result = watcher.observe(*current);
        if result.is_some() {
            break;
        }
    }
    assert_eq!(result, Some(Mode::Dark));
    assert_eq!(polls, 3);
}

#[test]
fn watch_keeps_waiting_while_mode_is_unchanged() {
    let watcher = Watcher::new(Mode::Light);
    assert_eq!(watcher.baseline(), Mode::Light);
    for _ in 0..10 {
        assert_eq!(watcher.observe(Mode::Light), None);
    }
    assert_eq!(watcher.observe(Mode::Dark), Some(Mode::Dark));
}

#[test]
fn watch_from_dark_reports_light() {
    let watcher = Watcher::new(Mode::Dark);
    assert_eq!(watcher.observe(Mode::Dark), None);
    assert_eq!(watcher.observe(Mode::Light), Some(Mode::Light));
}

#[test]
fn mode_values_compare_and_copy() {
    let a = Mode::Dark;
    let b = Mode::Dark;
    assert_eq!(a, b);
    assert_ne!(Mode::Dark, Mode::Light);
    let mut c = a;
    assert_eq!(c, a);
    c = Mode::Light;
    assert_eq!(a, Mode::Dark);
    assert_eq!(c, Mode::Light);
    let d = a.clone();
    assert_eq!(d, a);
    assert_eq!(format!("{:?}", a), "Dark");
}
