use sitwatch::model::{MAX_SITTING_NANOS, MAX_STANDING_NANOS, TICK_INTERVAL_MILLIS};
use sitwatch::posture::{Posture, PostureState};
use sitwatch::readout::{title, warning_minutes, ClockFace, Readout, NANOS_PER_CENTI};
use sitwatch::time::{Moment, Span};
use sitwatch::timer::Timer;

fn face(hours: u128, minutes: u8, seconds: u8, centis: u8) -> ClockFace {
    ClockFace { hours, minutes, seconds, centis }
}

#[test]
fn thresholds_are_one_and_thirty_minutes() {
    assert_eq!(MAX_SITTING_NANOS, 60_000_000_000);
    assert_eq!(MAX_STANDING_NANOS, 1_800_000_000_000);
    assert_eq!(warning_minutes(), 1);
    assert_eq!(TICK_INTERVAL_MILLIS, 10);
}

#[test]
fn the_window_has_its_title() {
    assert_eq!(title(), "Don't sit");
}

#[test]
fn the_face_of_nothing_is_all_zero() {
    assert_eq!(Span::zero().clock_face(), face(0, 0, 0, 0));
}

#[test]
fn a_face_cuts_down_to_hundredths() {
    assert_eq!(NANOS_PER_CENTI, 10_000_000);
    assert_eq!(Span::from_nanos(9_999_999).clock_face(), face(0, 0, 0, 0));
    assert_eq!(Span::from_nanos(10_000_000).clock_face(), face(0, 0, 0, 1));
    assert_eq!(Span::from_nanos(999_999_999).clock_face(), face(0, 0, 0, 99));
    assert_eq!(Span::from_nanos(1_000_000_000).clock_face(), face(0, 0, 1, 0));
    assert_eq!(Span::from_nanos(5_070_000_000).clock_face(), face(0, 0, 5, 7));
}

#[test]
fn a_face_carries_at_sixty() {
    assert_eq!(Span::from_secs(59).clock_face(), face(0, 0, 59, 0));
    assert_eq!(Span::from_secs(60).clock_face(), face(0, 1, 0, 0));
    assert_eq!(Span::from_secs(3599).clock_face(), face(0, 59, 59, 0));
    assert_eq!(Span::from_secs(3600).clock_face(), face(1, 0, 0, 0));
    assert_eq!(Span::from_secs(3725).clock_face(), face(1, 2, 5, 0));
    assert_eq!(
        Span::from_nanos(86_399_990_000_000).clock_face(),
        face(23, 59, 59, 99)
    );
}

#[test]
fn the_hours_of_a_face_are_not_capped() {
    assert_eq!(Span::from_secs(100 * 3600 + 61).clock_face(), face(100, 1, 1, 0));
    assert_eq!(
        Span::from_nanos(u128::MAX).clock_face(),
        face(94_522_879_700_260_684_295_381_835, 23, 51, 76)
    );
}

#[test]
fn postures_have_names_and_controls() {
    assert_eq!(Posture::Sitting.name(), "SITTING");
    assert_eq!(Posture::Standing.name(), "STANDING");
    assert_eq!(Posture::Sitting.sitting_control(), "Stop sitting");
    assert_eq!(Posture::Standing.sitting_control(), "Start sitting");
    assert_eq!(Posture::Sitting.standing_control(), "Start standing");
    assert_eq!(Posture::Standing.standing_control(), "Stop standing");
}

#[test]
fn a_posture_state_gives_its_posture_and_its_last_tick() {
    let sitting = PostureState::Sitting { last_tick: Moment::from_nanos(3) };
    let standing = PostureState::Standing { last_tick: Moment::from_nanos(4) };
    assert_eq!(sitting.posture(), Posture::Sitting);
    assert_eq!(sitting.last_tick(), Moment::from_nanos(3));
    assert_eq!(standing.posture(), Posture::Standing);
    assert_eq!(standing.last_tick(), Moment::from_nanos(4));
}

#[test]
fn the_readout_of_a_fresh_timer() {
    let timer = Timer::new();
    assert_eq!(
        timer.readout(),
        Readout {
            posture: Posture::Sitting,
            sitting: face(0, 0, 0, 0),
            standing: face(0, 0, 0, 0),
            warning: false,
        }
    );
}

#[test]
fn the_readout_of_a_long_sit() {
    let mut timer = Timer::new();
    timer.tick(Moment::from_nanos(3_725_340_000_000));
    assert_eq!(
        timer.readout(),
        Readout {
            posture: Posture::Sitting,
            sitting: face(1, 2, 5, 34),
            standing: face(0, 0, 0, 0),
            warning: true,
        }
    );
}

#[test]
fn the_readout_while_standing() {
    let mut timer = Timer::new();
    timer.tick(Moment::from_nanos(90_000_000_000));
    timer.toggle_at(Moment::from_nanos(90_000_000_000));
    timer.tick(Moment::from_nanos(90_000_000_000 + 45_670_000_000));
    assert_eq!(
        timer.readout(),
        Readout {
            posture: Posture::Standing,
            sitting: face(0, 0, 0, 0),
            standing: face(0, 0, 45, 67),
            warning: false,
        }
    );
}

#[test]
fn a_face_in_writing_has_two_digits_in_each_place() {
    assert_eq!(face(0, 0, 0, 0).to_text(), "00:00:00.00");
    assert_eq!(face(1, 2, 5, 34).to_text(), "01:02:05.34");
    assert_eq!(face(0, 0, 5, 7).to_text(), "00:00:05.07");
    assert_eq!(face(9, 9, 9, 9).to_text(), "09:09:09.09");
    assert_eq!(face(10, 10, 10, 10).to_text(), "10:10:10.10");
    assert_eq!(face(23, 59, 59, 99).to_text(), "23:59:59.99");
}

#[test]
fn a_face_in_writing_gives_long_hours_in_full() {
    assert_eq!(face(99, 0, 0, 0).to_text(), "99:00:00.00");
    assert_eq!(face(100, 0, 59, 7).to_text(), "100:00:59.07");
    assert_eq!(face(12_345, 6, 7, 8).to_text(), "12345:06:07.08");
    assert_eq!(
        Span::from_nanos(u128::MAX).clock_face().to_text(),
        "94522879700260684295381835:23:51.76"
    );
}

#[test]
fn a_face_in_writing_reads_as_the_padded_fields() {
    for nanos in [0u128, 9_999_999, 61_230_000_000, 3_725_340_000_000, 360_000_000_000_000] {
        let shown = Span::from_nanos(nanos).clock_face();
        assert_eq!(
            shown.to_text(),
            format!(
                "{:0>2}:{:0>2}:{:0>2}.{:0>2}",
                shown.hours, shown.minutes, shown.seconds, shown.centis
            )
        );
    }
}
