use biorhythm::cycle::Cycle;
use biorhythm::sidebar::{critical_days, Emphasis};
use chrono::{Datelike, NaiveDate};

fn day(y: i32, m: u32, d: u32) -> i32 {
    NaiveDate::from_ymd_opt(y, m, d).unwrap().num_days_from_ce()
}

fn float_sign(v: f64) -> i32 {
    if v.abs() < 1e-9 {
        0
    } else if v > 0.0 {
        1
    } else {
        -1
    }
}

#[test]
fn sidebar_window_around_reference() {
    let reference = day(2000, 1, 1);
    let today = day(2000, 2, 10);
    let list = critical_days(reference, today, 0);
    let got: Vec<(i64, Vec<Cycle>)> = list.iter().map(|c| (c.offset, c.cycles.clone())).collect();
    assert_eq!(
        got,
        vec![
            (-5, vec![Cycle::Physical]),
            (2, vec![Cycle::Emotional]),
            (6, vec![Cycle::Physical]),
            (10, vec![Cycle::Intellectual]),
            (16, vec![Cycle::Emotional]),
            (18, vec![Cycle::Physical]),
        ]
    );
    for c in &list {
        assert_eq!(c.day, today as i64 + c.offset);
    }

    // the same list from the sine values themselves
    let mut expect = Vec::new();
    for o in -5i64..25 {
        let e = (today as i64 + o - reference as i64) as f64;
        let mut cs = Vec::new();
        for (p, c) in [(23.0, Cycle::Physical), (28.0, Cycle::Emotional), (33.0, Cycle::Intellectual)] {
            let now = float_sign((2.0 * std::f64::consts::PI * e / p).sin());
            let prev = float_sign((2.0 * std::f64::consts::PI * (e - 1.0) / p).sin());
            if (now >= 0 && prev < 0) || (now <= 0 && prev > 0) {
                cs.push(c);
            }
        }
        if !cs.is_empty() {
            expect.push((o, cs));
        }
    }
    assert_eq!(got, expect);
    assert!(got.windows(2).all(|w| w[0].0 < w[1].0));
}

#[test]
fn sidebar_triple_crossing_on_reference_day() {
    let reference = day(1990, 6, 15);
    let list = critical_days(reference, reference, 0);
    let zero = list.iter().find(|c| c.offset == 0).unwrap();
    assert_eq!(zero.cycles, vec![Cycle::Physical, Cycle::Emotional, Cycle::Intellectual]);
    assert_eq!(zero.emphasis(), Emphasis::Strong);
    assert!(list.iter().filter(|c| c.offset != 0).all(|c| c.emphasis() == Emphasis::Neutral));
    assert!(list.iter().all(|c| -5 <= c.offset && c.offset < 25 && !c.cycles.is_empty()));
}

#[test]
fn sidebar_window_at_range_ends() {
    let r = day(1950, 3, 3);
    let t = day(2020, 1, 1);
    let lo = critical_days(r, t, -45830);
    assert!(lo.iter().all(|c| -45835 <= c.offset && c.offset < -45805));
    let hi = critical_days(r, t, 36525);
    assert!(hi.iter().all(|c| 36520 <= c.offset && c.offset < 36550));
    assert!(!hi.is_empty());
}

#[test]
fn two_cycles_get_medium_emphasis() {
    // day 14 * 23 = 322: Physical starts a period, Emotional (322 = 11.5 * 28) reaches its middle
    let list = critical_days(0, 322, 0);
    let d = list.iter().find(|c| c.offset == 0).unwrap();
    assert_eq!(d.cycles, vec![Cycle::Physical, Cycle::Emotional]);
    assert_eq!(d.emphasis(), Emphasis::Medium);
}
