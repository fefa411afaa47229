use embroidery::session::sample_session;
use embroidery::stitch::{
    CircularStitch, CircularStyle, LinearStitch, LinearStyle, Stitch, AREA_DEN, PI_NUM,
};
use embroidery::thread::{thread_needle, ActiveThread, Constraint, EmbroideryError};

fn thread(length: u32, strands: u32) -> ActiveThread {
    thread_needle(length, strands).expect("a valid strand count")
}

fn snapshot(t: &ActiveThread) -> (bool, u32, u32, u32) {
    (t.started(), t.total(), t.remaining(), t.strands())
}

#[test]
fn fresh_thread_is_full() {
    for &(length, strands) in &[(40_000u32, 4u32), (0, 0), (1, 6), (u32::MAX, 1)] {
        let t = thread(length, strands);
        assert_eq!(snapshot(&t), (true, length, length, strands));
    }
}

#[test]
fn seven_strands_are_refused() {
    assert!(matches!(thread_needle(40_000, 7), Err(EmbroideryError::InvalidStrandCount)));
    assert!(matches!(thread_needle(0, 8), Err(EmbroideryError::InvalidStrandCount)));
    assert!(matches!(thread_needle(5, u32::MAX), Err(EmbroideryError::InvalidStrandCount)));
    assert!(thread_needle(40_000, 6).is_ok());
}

#[test]
fn reversed_linear_stitch_is_refused() {
    let mut t = thread(40_000, 4);
    let s = LinearStitch::new(7_000, 1_000, 0, LinearStyle::Chain);
    assert!(!s.check_possible(&t));
    assert_eq!(s.violation(&t), Some(Constraint::MalformedSpan));
    assert_eq!(
        s.make_stitch(&mut t),
        Err(EmbroideryError::ImpossibleStitch(Constraint::MalformedSpan))
    );
    assert_eq!(t.remaining(), 40_000);
}

#[test]
fn short_linear_stitch_is_refused_with_ample_thread() {
    let mut t = thread(1_000_000, 2);
    let s = LinearStitch::new(0, 1_500, 2_000, LinearStyle::Running);
    assert!(!s.check_possible(&t));
    assert_eq!(
        s.make_stitch(&mut t),
        Err(EmbroideryError::ImpossibleStitch(Constraint::GranularityViolation))
    );
    assert_eq!(t.remaining(), 1_000_000);
}

#[test]
fn linear_stitch_longer_than_thread_is_refused() {
    let mut t = thread(5_000, 3);
    let s = LinearStitch::new(-3_000, 3_000, 1_000, LinearStyle::Stem);
    assert!(!s.check_possible(&t));
    assert_eq!(
        s.make_stitch(&mut t),
        Err(EmbroideryError::ImpossibleStitch(Constraint::InsufficientThread))
    );
    assert_eq!(t.remaining(), 5_000);
}

#[test]
fn linear_stitch_uses_its_span_not_its_stitch_length() {
    let mut t = thread(40_000, 4);
    let s = LinearStitch::new(1_000, 7_000, 2_000, LinearStyle::Running);
    assert!(s.check_possible(&t));
    assert_eq!(s.make_stitch(&mut t), Ok(()));
    assert_eq!(t.remaining(), 34_000);
    assert_eq!(t.total(), 40_000);
}

#[test]
fn linear_stitch_may_use_the_whole_thread() {
    let mut t = thread(6_000, 1);
    let s = LinearStitch::new(-1_000, 5_000, 6_000, LinearStyle::Chain);
    assert_eq!(s.make_stitch(&mut t), Ok(()));
    assert_eq!(t.remaining(), 0);
}

#[test]
fn circular_stitch_needs_strictly_more_than_its_area() {
    // A radius of 11300 units has an area of exactly 401150 units.
    let r: u32 = 11_300;
    assert_eq!((r as u128) * (r as u128) * PI_NUM, 401_150 * AREA_DEN);
    let c = CircularStitch::new(0, 0, r, CircularStyle::French);

    let mut exact = thread(401_150, 2);
    assert!(!c.check_possible(&exact));
    assert_eq!(
        c.make_stitch(&mut exact),
        Err(EmbroideryError::ImpossibleStitch(Constraint::InsufficientArea))
    );
    assert_eq!(exact.remaining(), 401_150);

    let mut more = thread(401_151, 2);
    assert!(c.check_possible(&more));
    assert_eq!(c.make_stitch(&mut more), Ok(()));
    assert_eq!(more.remaining(), 1);
}

#[test]
fn circular_stitch_uses_its_area_rounded_up() {
    // 5 cm radius: 25 pi cm, about 78.5398 cm, that is 78540 units once rounded up.
    let mut t = thread(100_000, 6);
    let c = CircularStitch::new(1_000, 10_000, 5_000, CircularStyle::Wheel);
    assert_eq!(c.violation(&t), None);
    assert_eq!(c.make_stitch(&mut t), Ok(()));
    assert_eq!(t.remaining(), 21_460);
}

#[test]
fn zero_radius_needs_some_thread() {
    let c = CircularStitch::new(0, 0, 0, CircularStyle::French);
    let mut empty = thread(0, 1);
    assert_eq!(
        c.make_stitch(&mut empty),
        Err(EmbroideryError::ImpossibleStitch(Constraint::InsufficientArea))
    );
    let mut some = thread(1, 1);
    assert_eq!(c.make_stitch(&mut some), Ok(()));
    assert_eq!(some.remaining(), 1);
}

#[test]
fn sample_session_step_by_step() {
    let mut t = thread(40_000, 4);
    assert_eq!(t.remaining(), 40_000);
    let stitch_1 = LinearStitch::new(1_000, 7_000, 2_000, LinearStyle::Running);
    let stitch_2 = LinearStitch::new(8_000, 23_000, 2_000, LinearStyle::Stem);
    let stitch_3 = CircularStitch::new(1_000, 10_000, 5_000, CircularStyle::Wheel);
    assert_eq!(stitch_1.make_stitch(&mut t), Ok(()));
    assert_eq!(t.remaining(), 34_000);
    assert_eq!(stitch_2.make_stitch(&mut t), Ok(()));
    assert_eq!(t.remaining(), 19_000);
    assert_eq!(
        stitch_3.make_stitch(&mut t),
        Err(EmbroideryError::ImpossibleStitch(Constraint::InsufficientArea))
    );
    assert_eq!(t.remaining(), 19_000);
}

#[test]
fn sample_session_report() {
    let report = sample_session();
    assert_eq!(report.remaining_after, vec![40_000, 34_000, 19_000, 19_000]);
    assert_eq!(
        report.outcomes,
        vec![
            Ok(()),
            Ok(()),
            Err(EmbroideryError::ImpossibleStitch(Constraint::InsufficientArea)),
        ]
    );
}

#[test]
fn display_style_labels_and_leaves_thread_alone() {
    let t = thread(40_000, 4);
    let before = snapshot(&t);
    let labels = [
        (LinearStitch::new(0, 1, 1, LinearStyle::Running).display_style(), "Running Stitch!"),
        (LinearStitch::new(0, 1, 1, LinearStyle::Stem).display_style(), "Stem Stitch!"),
        (LinearStitch::new(0, 1, 1, LinearStyle::Chain).display_style(), "Chain Stitch!"),
        (CircularStitch::new(0, 0, 1, CircularStyle::French).display_style(), "French Knot!"),
        (CircularStitch::new(0, 0, 1, CircularStyle::Wheel).display_style(), "Woven Wheel!"),
    ];
    for (got, want) in labels {
        assert_eq!(got, want);
    }
    let s = LinearStitch::new(1_000, 7_000, 2_000, LinearStyle::Stem);
    for _ in 0..5 {
        assert_eq!(s.display_style(), "Stem Stitch!");
        assert!(s.check_possible(&t));
    }
    assert_eq!(snapshot(&t), before);
}
