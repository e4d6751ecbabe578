use biorhythm::cache::ChartCache;
use biorhythm::calendar::{is_sunday, weekday};
use biorhythm::chart::plan_chart;
use biorhythm::navigation::{MAX_OFFSET, MIN_OFFSET};
use biorhythm::viewer::{contains_profile, Message, Profile, Viewer};
use chrono::{Datelike, NaiveDate};

fn day(y: i32, m: u32, d: u32) -> i32 {
    NaiveDate::from_ymd_opt(y, m, d).unwrap().num_days_from_ce()
}

fn viewer_on(date: &str) -> Viewer {
    let mut v = Viewer::new(Vec::new(), day(2024, 5, 1));
    v.update(Message::DateChanged(date.to_string()));
    v
}

fn parsed(date: &str) -> Option<i32> {
    Profile::from_text("n".to_string(), date).map(|p| p.day)
}

fn text_of(day: i32) -> Option<String> {
    Profile { name: String::new(), day }.date_text()
}

#[test]
fn parse_and_format_days() {
    assert_eq!(parsed("2000-01-01"), Some(730120));
    assert_eq!(parsed("1999-09-03"), Some(730000));
    assert_eq!(parsed("0001-01-01"), Some(1));
    assert_eq!(parsed("2015-09-31"), None);
    assert_eq!(parsed("hello"), None);
    assert_eq!(parsed(""), None);
    let p = Profile::from_text("Dee".to_string(), "1984-02-29").unwrap();
    assert_eq!(p.name, "Dee");
    assert_eq!(p.day, day(1984, 2, 29));
    assert_eq!(text_of(730120), Some("2000-01-01".to_string()));
    assert_eq!(text_of(1), Some("0001-01-01".to_string()));
    assert_eq!(text_of(100_000_000), None);
}

#[test]
fn weekdays_agree_with_chrono() {
    for d in day(1999, 12, 1)..day(2000, 3, 1) {
        let nd = NaiveDate::from_num_days_from_ce_opt(d).unwrap();
        assert_eq!(weekday(d as i64), nd.weekday().num_days_from_monday());
    }
    assert!(is_sunday(day(2000, 1, 2) as i64));
    assert!(!is_sunday(day(2000, 1, 3) as i64));
    assert_eq!(weekday(1), 0);
    assert_eq!(weekday(0), 6);
}

#[test]
fn new_viewer_shows_today() {
    let v = Viewer::new(Vec::new(), day(2024, 5, 1));
    assert_eq!(v.date_input, "2024-05-01");
    assert_eq!(v.name_input, "");
    assert_eq!(v.nav.offset, 0);
    assert!(!v.wants_frames());
    assert!(v.cached_chart().is_none());
}

#[test]
fn duplicate_save_leaves_list_unchanged() {
    let mut v = viewer_on("1985-07-20");
    v.update(Message::NameChanged("Ann".to_string()));
    assert!(v.update(Message::SaveEntry));
    assert_eq!(v.saved.len(), 1);
    assert!(!v.update(Message::SaveEntry));
    assert_eq!(v.saved.len(), 1);
    assert_eq!(v.saved[0], Profile { name: "Ann".to_string(), day: day(1985, 7, 20) });
    v.update(Message::NameChanged("Bob".to_string()));
    assert!(v.update(Message::SaveEntry));
    assert_eq!(v.saved.len(), 2);
    v.update(Message::DateChanged("not a date".to_string()));
    assert!(!v.update(Message::SaveEntry));
    assert_eq!(v.saved.len(), 2);
    assert!(contains_profile(&v.saved, &"Bob".to_string(), day(1985, 7, 20)));
    assert!(!contains_profile(&v.saved, &"Bob".to_string(), day(1985, 7, 21)));
}

#[test]
fn selecting_a_profile_loads_fields() {
    let mut v = viewer_on("2001-01-01");
    v.refresh_chart(day(2024, 5, 1));
    assert!(v.cached_chart().is_some());
    let p = Profile { name: "Cy".to_string(), day: day(1970, 12, 24) };
    v.update(Message::EntrySelected(p.clone()));
    assert_eq!(v.date_input, "1970-12-24");
    assert_eq!(v.name_input, "Cy");
    assert_eq!(v.selected, Some(p));
    assert!(v.cached_chart().is_none());
}

#[test]
fn offset_messages_invalidate_chart() {
    let today = day(2024, 5, 1);
    let mut v = viewer_on("2001-01-01");
    let msgs = vec![
        Message::OffsetChanged(40),
        Message::ShiftOffset(-7),
        Message::ResetOffset,
        Message::WheelScrolled(1),
        Message::GoToDate(12),
        Message::DateChanged("2001-01-02".to_string()),
    ];
    for m in msgs {
        v.refresh_chart(today);
        assert!(v.cached_chart().is_some());
        v.update(m);
        assert!(v.cached_chart().is_none());
    }
    assert_eq!(v.nav.offset, 12);
    v.refresh_chart(today);
    v.update(Message::NameChanged("x".to_string()));
    v.update(Message::StartRolling(1, 0));
    assert!(v.wants_frames());
    v.update(Message::FrameTick(1_000_000));
    assert!(v.cached_chart().is_some());
    v.update(Message::FrameTick(60_000_000));
    assert!(v.cached_chart().is_none());
    assert_eq!(v.nav.offset, 13);
    v.update(Message::PointerReleased);
    assert!(!v.wants_frames());
}

#[test]
fn wheel_message_clamps_at_boundary() {
    let mut v = viewer_on("2001-01-01");
    v.update(Message::OffsetChanged(MIN_OFFSET));
    v.update(Message::WheelScrolled(1));
    assert_eq!(v.nav.offset, MIN_OFFSET);
    v.update(Message::OffsetChanged(MAX_OFFSET + 5));
    assert_eq!(v.nav.offset, MAX_OFFSET);
    v.update(Message::WheelScrolled(-3));
    assert_eq!(v.nav.offset, MAX_OFFSET);
    v.update(Message::WheelScrolled(3));
    assert_eq!(v.nav.offset, MAX_OFFSET - 1);
}

#[test]
fn invalidating_twice_draws_the_same() {
    let mut a: ChartCache<u32> = ChartCache::new();
    a.fill(1);
    a.invalidate();
    a.invalidate();
    a.fill(2);
    let mut b: ChartCache<u32> = ChartCache::new();
    b.fill(1);
    b.invalidate();
    b.fill(2);
    assert_eq!(a.get(), b.get());
    assert_eq!(a.get(), Some(&2));
    a.fill(3);
    assert_eq!(a.get(), Some(&2));
    assert!(a.is_cached());
}

#[test]
fn chart_plan_layout() {
    let reference = day(2000, 1, 1);
    let today = day(2000, 2, 10);
    let p = plan_chart(reference, today, 0);
    assert_eq!(p.target_day, today as i64);
    assert_eq!(p.start_day, today as i64 - 15);
    assert_eq!(p.start_elapsed, 25);
    assert_eq!(p.columns.len(), 31);
    let labeled: Vec<usize> = (0..31).filter(|&i| p.columns[i].labeled).collect();
    assert_eq!(labeled, vec![0, 5, 10, 15, 20, 25, 30]);
    let targets: Vec<usize> = (0..31).filter(|&i| p.columns[i].is_target).collect();
    assert_eq!(targets, vec![15]);
    // 2000-01-30 (column 4) is a Sunday
    let sundays: Vec<usize> = (0..31).filter(|&i| p.columns[i].is_sunday).collect();
    assert_eq!(sundays, vec![4, 11, 18, 25]);
    assert_eq!(p.columns[4].weekday, 6);
}

#[test]
fn chart_absent_for_bad_date() {
    let mut v = viewer_on("2001-13-01");
    v.refresh_chart(day(2024, 5, 1));
    assert!(matches!(v.cached_chart(), Some(None)));
    assert!(v.critical_days(day(2024, 5, 1)).is_none());
    v.update(Message::DateChanged("2001-12-01".to_string()));
    assert!(v.critical_days(day(2024, 5, 1)).is_some());
}
