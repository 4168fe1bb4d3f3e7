use show_details::{
    fmt_details_from_display, Context, DisplayText, Features, FizzBuzzer, FormatError, Resolution,
    ShowDetails, ShowDetailsFromDisplay, Sink, HOSTILE, INNOCUOUS, LONGEST_LINE, NORMAL,
};

fn overriding(with_specialization: bool) -> FizzBuzzer {
    let selected =
        Features { with_override: true, with_alternative: false, with_specialization };
    FizzBuzzer::with_features(selected).unwrap()
}

#[test]
fn the_three_texts_are_spelled_out() {
    assert_eq!(INNOCUOUS, "Innocuous delegation from derived display impl");
    assert_eq!(HOSTILE, "Hostile takeover from new ShowDetails impl");
    assert_eq!(NORMAL, "Normal takeover from new ShowDetails impl");
    assert_eq!(INNOCUOUS.chars().count(), 46);
    assert_eq!(HOSTILE.chars().count(), 42);
    assert_eq!(NORMAL.chars().count(), 41);
    assert_eq!(LONGEST_LINE, 46);
}

#[test]
fn new_value_is_served_by_the_blanket_provider() {
    let value = FizzBuzzer::new();
    assert_eq!(value.resolution(), Resolution::BlanketViaDisplay);
    assert!(!value.specialized());
    let mut sink = Sink::new();
    assert_eq!(value.fmt_details(&mut sink), Ok(()));
    assert_eq!(sink.as_str(), "Innocuous delegation from derived display impl");
}

#[test]
fn new_value_is_the_value_built_with_no_feature() {
    let none =
        Features { with_override: false, with_alternative: false, with_specialization: false };
    assert_eq!(FizzBuzzer::with_features(none), Ok(FizzBuzzer::new()));
}

#[test]
fn with_features_keeps_the_selection() {
    let value = overriding(true);
    assert_eq!(value.resolution(), Resolution::DirectOverride);
    assert!(value.specialized());
    let value = overriding(false);
    assert_eq!(value.resolution(), Resolution::DirectOverride);
    assert!(!value.specialized());
}

#[test]
fn the_value_displays_the_same_whatever_serves_it() {
    for value in [FizzBuzzer::new(), overriding(true), overriding(false)] {
        let mut sink = Sink::new();
        assert_eq!(value.fmt(&mut sink), Ok(()));
        assert_eq!(sink.as_str(), "Innocuous delegation from derived display impl");
    }
}

#[test]
fn the_override_wins_over_the_display_text() {
    let mut sink = Sink::new();
    assert_eq!(overriding(true).fmt_details(&mut sink), Ok(()));
    assert_eq!(sink.as_str(), "Hostile takeover from new ShowDetails impl");

    let mut sink = Sink::new();
    assert_eq!(overriding(false).fmt_details(&mut sink), Ok(()));
    assert_eq!(sink.as_str(), "Normal takeover from new ShowDetails impl");
}

#[test]
fn the_blanket_provider_repeats_the_display_text() {
    // Also for a value with an override of its own: the provider knows only the display.
    let value = overriding(true);
    let mut sink = Sink::new();
    assert_eq!(fmt_details_from_display(&value, &mut sink), Ok(()));
    assert_eq!(sink.as_str(), "Innocuous delegation from derived display impl");
}

#[test]
fn the_adapter_forwards_to_the_display_text() {
    let value = overriding(true);
    let wrapped = ShowDetailsFromDisplay::ref_cast(&value);
    let mut sink = Sink::new();
    assert_eq!(wrapped.fmt_details(&mut sink), Ok(()));
    assert_eq!(sink.as_str(), "Innocuous delegation from derived display impl");
    // The value was borrowed, not moved.
    assert_eq!(value.resolution(), Resolution::DirectOverride);
}

#[test]
fn the_adapter_refuses_what_the_sink_refuses() {
    let value = FizzBuzzer::new();
    let wrapped = ShowDetailsFromDisplay::ref_cast(&value);
    let mut sink = Sink::with_capacity(10);
    assert_eq!(wrapped.fmt_details(&mut sink), Err(FormatError));
    assert_eq!(sink.as_str(), "");
    assert_eq!(sink.remaining(), 10);
}

#[test]
fn a_borrowed_value_displays_as_the_value() {
    let value = FizzBuzzer::new();
    let borrowed = &value;
    let mut sink = Sink::new();
    assert_eq!(<&FizzBuzzer as DisplayText>::fmt(&borrowed, &mut sink), Ok(()));
    assert_eq!(sink.as_str(), "Innocuous delegation from derived display impl");
}

#[test]
fn the_container_renders_as_the_details_of_what_it_holds() {
    let mut sink = Sink::new();
    assert_eq!(Context { s: overriding(false) }.fmt(&mut sink), Ok(()));
    assert_eq!(sink.as_str(), "Normal takeover from new ShowDetails impl");

    let mut sink = Sink::new();
    assert_eq!(Context { s: FizzBuzzer::new() }.fmt(&mut sink), Ok(()));
    assert_eq!(sink.as_str(), "Innocuous delegation from derived display impl");

    let mut sink = Sink::with_capacity(40);
    assert_eq!(Context { s: overriding(false) }.fmt(&mut sink), Err(FormatError));
    assert_eq!(sink.as_str(), "");
}
