use metter::dispatch::{dispatch, trigger_pulse, PinAction, TRIGGER_PULSE_MICROS};
use metter::message::{classify, distance_text, DisplayMessage, TextStyle, MAX_DISTANCE_CM};
use metter::presentation::{display_center, frame_for, title_frame};
use metter::ranging::{measure, EchoPhase, Ranger};
use metter::registry::PinSlot;
use metter::timing::{distance_cm, elapsed_ticks, TIMER_MAX};

fn text_of(bytes: Vec<u8>) -> String {
    String::from_utf8(bytes).unwrap()
}

#[test]
fn elapsed_without_wrap_is_plain_difference() {
    assert_eq!(elapsed_ticks(100, 1028), 928);
    assert_eq!(elapsed_ticks(5, 5), 0);
}

#[test]
fn elapsed_across_wrap_is_modular_difference() {
    assert_eq!(elapsed_ticks(TIMER_MAX - 9, 20), 30);
    assert_eq!(elapsed_ticks(TIMER_MAX, 0), 1);
    assert_eq!(elapsed_ticks(1, 0), TIMER_MAX);
    assert_eq!(TIMER_MAX, (1u64 << 52) - 1);
}

#[test]
fn distance_conversion_exact_values() {
    assert_eq!(distance_cm(0), 0);
    assert_eq!(distance_cm(927), 0);
    assert_eq!(distance_cm(928), 1);
    assert_eq!(distance_cm(928 * 1500), 1500);
    assert_eq!(distance_cm(u64::MAX), u64::MAX / 16 / 58);
}

#[test]
fn distance_conversion_is_deterministic_and_monotonic() {
    let mut previous = 0;
    for e in (0u64..200_000).step_by(97) {
        let d = distance_cm(e);
        assert_eq!(d, distance_cm(e));
        assert!(d >= previous);
        previous = d;
    }
}

#[test]
fn classification_boundary() {
    let at = classify(1000);
    assert_eq!(at, DisplayMessage::Distance(1000));
    assert_eq!(at.style(), TextStyle::Heading);
    let above = classify(1001);
    assert_eq!(above, DisplayMessage::OutOfRange);
    assert_eq!(above.style(), TextStyle::Body);
    assert_eq!(classify(0), DisplayMessage::Distance(0));
    assert_eq!(MAX_DISTANCE_CM, 1000);
}

#[test]
fn message_texts() {
    assert_eq!(text_of(DisplayMessage::Distance(1).text()), "1 cm");
    assert_eq!(text_of(DisplayMessage::Distance(0).text()), "0 cm");
    assert_eq!(text_of(DisplayMessage::Distance(1000).text()), "1000 cm");
    assert_eq!(text_of(DisplayMessage::OutOfRange.text()), "I think the\nwave is lost");
    assert_eq!(text_of(distance_text(u64::MAX)), format!("{} cm", u64::MAX));
    assert_eq!(text_of(distance_text(907)), "907 cm");
}

#[test]
fn echo_of_928_ticks_renders_one_cm_in_heading_style() {
    let mut ranger = Ranger::new();
    assert_eq!(ranger.poll(false, 0), None);
    assert_eq!(ranger.poll(true, 0), None);
    assert_eq!(ranger.phase(), EchoPhase::AwaitingFall { start: 0 });
    assert_eq!(ranger.poll(true, 500), None);
    let m = ranger.poll(false, 928).unwrap();
    assert_eq!(m.elapsed, 928);
    assert_eq!(m.distance_cm, 1);
    assert_eq!(m.message, DisplayMessage::Distance(1));
    let frame = frame_for(&m.message);
    assert_eq!(text_of(frame.text), "1 cm");
    assert_eq!(frame.style, TextStyle::Heading);
    assert_eq!((frame.x, frame.y), (64, 32));
    assert_eq!(ranger.phase(), EchoPhase::AwaitingRise);
}

#[test]
fn distance_of_1500_cm_renders_out_of_range_in_body_style() {
    let m = measure(0, 1500 * 16 * 58);
    assert_eq!(m.distance_cm, 1500);
    assert_eq!(m.message, DisplayMessage::OutOfRange);
    let frame = frame_for(&m.message);
    assert_eq!(text_of(frame.text), "I think the\nwave is lost");
    assert_eq!(frame.style, TextStyle::Body);
}

#[test]
fn timer_wrap_during_measurement_gives_small_elapsed() {
    let mut ranger = Ranger::new();
    assert_eq!(ranger.poll(true, TIMER_MAX - 463), None);
    let m = ranger.poll(false, 464).unwrap();
    assert_eq!(m.elapsed, 928);
    assert_eq!(m.distance_cm, 1);
    assert_eq!(m.message, DisplayMessage::Distance(1));
    let frame = frame_for(&m.message);
    assert_eq!(text_of(frame.text), "1 cm");
    assert_eq!(frame.style, TextStyle::Heading);
}

#[test]
fn boundary_reading_renders_in_heading_style() {
    let m = measure(0, 928_000);
    assert_eq!(m.distance_cm, 1000);
    let frame = frame_for(&m.message);
    assert_eq!(text_of(frame.text), "1000 cm");
    assert_eq!(frame.style, TextStyle::Heading);
}

#[test]
fn title_frame_is_centred_heading() {
    let frame = title_frame();
    assert_eq!(text_of(frame.text), "Metter");
    assert_eq!(frame.style, TextStyle::Heading);
    assert_eq!(display_center(), (64, 32));
}

#[test]
fn dispatcher_fires_and_clears_for_button() {
    assert_eq!(
        dispatch(true),
        vec![
            PinAction::TriggerHigh,
            PinAction::DelayMicros(TRIGGER_PULSE_MICROS),
            PinAction::TriggerLow,
            PinAction::ClearButtonInterrupt,
        ]
    );
    assert_eq!(trigger_pulse().len(), 3);
    assert_eq!(TRIGGER_PULSE_MICROS, 10);
}

#[test]
fn dispatcher_ignores_foreign_interrupt() {
    assert_eq!(dispatch(false), vec![PinAction::ClearButtonInterrupt]);
}

#[test]
fn registry_reports_installed_slot() {
    let mut slot: PinSlot<u32> = PinSlot::new();
    assert!(!slot.is_installed());
    slot.install(7);
    assert!(slot.is_installed());
    assert_eq!(*slot.handle_mut(), 7);
}

#[test]
fn registry_access_writes_through() {
    let mut slot: PinSlot<u32> = PinSlot::new();
    slot.install(1);
    *slot.handle_mut() = 42;
    assert_eq!(*slot.handle_mut(), 42);
}
