use biorhythm::cycle::{crosses, crossing_cycles, cycle_phase, cycle_sign, is_crossing, Cycle, Sign};

const ALL: [Cycle; 3] = [Cycle::Physical, Cycle::Emotional, Cycle::Intellectual];

fn float_sign(elapsed: i64, period: i64) -> Sign {
    let v = (2.0 * std::f64::consts::PI * elapsed as f64 / period as f64).sin();
    if v.abs() < 1e-9 {
        Sign::Zero
    } else if v > 0.0 {
        Sign::Positive
    } else {
        Sign::Negative
    }
}

#[test]
fn periods_and_letters() {
    assert_eq!(Cycle::Physical.period(), 23);
    assert_eq!(Cycle::Emotional.period(), 28);
    assert_eq!(Cycle::Intellectual.period(), 33);
    assert_eq!(Cycle::Physical.letter(), 'P');
    assert_eq!(Cycle::Emotional.letter(), 'E');
    assert_eq!(Cycle::Intellectual.letter(), 'I');
}

#[test]
fn phase_of_negative_days() {
    assert_eq!(cycle_phase(-1, 23), 22);
    assert_eq!(cycle_phase(-23, 23), 0);
    assert_eq!(cycle_phase(47, 23), 1);
}

#[test]
fn sign_matches_sine() {
    for c in ALL {
        let p = c.period();
        for d in -200i64..200 {
            assert_eq!(cycle_sign(d, p), float_sign(d, p), "day {} period {}", d, p);
        }
    }
}

#[test]
fn sign_is_periodic() {
    for c in ALL {
        let p = c.period();
        for d in -100i64..100 {
            assert_eq!(cycle_sign(d, p), cycle_sign(d + p, p));
            assert_eq!(crosses(c, d), crosses(c, d + p));
            let v = (2.0 * std::f64::consts::PI * d as f64 / p as f64).sin();
            let w = (2.0 * std::f64::consts::PI * (d + p) as f64 / p as f64).sin();
            assert!((v - w).abs() < 1e-9);
        }
    }
}

#[test]
fn crossing_rule_touching_zero() {
    assert!(is_crossing(Sign::Zero, Sign::Negative));
    assert!(is_crossing(Sign::Zero, Sign::Positive));
    assert!(is_crossing(Sign::Positive, Sign::Negative));
    assert!(is_crossing(Sign::Negative, Sign::Positive));
    assert!(!is_crossing(Sign::Positive, Sign::Zero));
    assert!(!is_crossing(Sign::Negative, Sign::Zero));
    assert!(!is_crossing(Sign::Zero, Sign::Zero));
    assert!(!is_crossing(Sign::Positive, Sign::Positive));
}

#[test]
fn crossing_days_of_each_cycle() {
    // start of a period and the day the value reaches or passes the middle
    let expect = [(Cycle::Physical, [0i64, 12]), (Cycle::Emotional, [0, 14]), (Cycle::Intellectual, [0, 17])];
    for (c, days) in expect {
        let p = c.period();
        let got: Vec<i64> = (0..p).filter(|&d| crosses(c, d)).collect();
        assert_eq!(got, days.to_vec());
    }
}

#[test]
fn crossing_cycles_lists_in_order() {
    assert_eq!(crossing_cycles(0), vec![Cycle::Physical, Cycle::Emotional, Cycle::Intellectual]);
    assert_eq!(crossing_cycles(12), vec![Cycle::Physical]);
    assert_eq!(crossing_cycles(14), vec![Cycle::Emotional]);
    assert_eq!(crossing_cycles(1), Vec::<Cycle>::new());
    assert_eq!(crossing_cycles(23 * 28 * 33), vec![Cycle::Physical, Cycle::Emotional, Cycle::Intellectual]);
}
