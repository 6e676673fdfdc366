use service_kit::masked::{MaskedValue, Sensitivity, Timestamp, MASK_CHAR};

const AT: Timestamp = Timestamp { secs: 1_700_000_000, nanos: 123_456_789 };

fn secured(raw: &str) -> MaskedValue {
    MaskedValue::construct_at(raw.to_string(), Sensitivity::Secured, AT)
}

fn unsecured(raw: &str) -> MaskedValue {
    MaskedValue::construct_at(raw.to_string(), Sensitivity::Unsecured, AT)
}

#[test]
fn password_scenario() {
    let value = MaskedValue::construct("p@ss1234".to_string(), Sensitivity::Secured);
    assert!(value.is_secured());
    let shown = value.display();
    assert_eq!(shown, "********");
    assert_eq!(shown.chars().count(), 8);
    assert_eq!(value.reveal_secret(), "p@ss1234");
}

#[test]
fn mask_character_is_an_asterisk() {
    assert_eq!(MASK_CHAR, '*');
}

#[test]
fn secured_display_is_all_mask_and_as_long_as_the_secret() {
    for raw in ["", "a", "hunter2", "correct horse battery staple", "***", "line\nbreak\ttab"] {
        let value = secured(raw);
        let shown = value.display();
        assert_eq!(shown.chars().count(), raw.chars().count());
        assert!(shown.chars().all(|c| c == MASK_CHAR));
        assert_eq!(value.reveal_secret(), raw);
    }
}

#[test]
fn mask_counts_characters_not_bytes() {
    let value = secured("pässwörd");
    assert_eq!(value.display(), "********");
    let value = secured("秘密の言葉");
    assert_eq!(value.display(), "*****");
    assert_eq!(value.reveal_secret(), "秘密の言葉");
}

#[test]
fn empty_secret_round_trips() {
    let value = MaskedValue::construct(String::new(), Sensitivity::Secured);
    assert_eq!(value.reveal_secret(), "");
    assert_eq!(value.display(), "");
}

#[test]
fn reveal_gives_back_what_was_constructed() {
    for raw in ["", "p@ss1234", "pässwörd", " leading and trailing "] {
        assert_eq!(MaskedValue::construct(raw.to_string(), Sensitivity::Secured).reveal_secret(), raw);
        assert_eq!(MaskedValue::construct(raw.to_string(), Sensitivity::Unsecured).reveal_secret(), raw);
    }
}

#[test]
fn unsecured_display_shows_the_text() {
    let value = unsecured("guest");
    assert!(!value.is_secured());
    assert_eq!(value.display(), "guest");
    assert_eq!(value.reveal_secret(), "guest");
}

#[test]
fn display_leaves_the_value_as_it_is() {
    let value = secured("p@ss1234");
    let first = value.display();
    let second = value.display();
    assert_eq!(first, second);
    assert_eq!(value.reveal_secret(), "p@ss1234");
    assert!(value.is_secured());
    assert_eq!(value.created_at(), AT);
}

#[test]
fn construct_at_records_the_given_time() {
    let value = secured("p@ss1234");
    assert_eq!(value.created_at(), Timestamp { secs: 1_700_000_000, nanos: 123_456_789 });
    let early = MaskedValue::construct_at("x".to_string(), Sensitivity::Unsecured, Timestamp { secs: -1, nanos: 0 });
    assert_eq!(early.created_at().secs, -1);
    assert_eq!(early.created_at().nanos, 0);
}

#[test]
fn construct_stamps_the_current_time() {
    let before = chrono::Utc::now();
    let value = MaskedValue::construct("p@ss1234".to_string(), Sensitivity::Secured);
    let after = chrono::Utc::now();
    let at = value.created_at();
    assert!(at.nanos < 1_000_000_000);
    assert!(before.timestamp() <= at.secs);
    assert!(at.secs <= after.timestamp());
    let stamped = chrono::DateTime::from_timestamp(at.secs, at.nanos);
    assert!(stamped.is_some());
}

#[test]
fn clone_keeps_text_flag_and_time() {
    let value = secured("p@ss1234");
    let copy = value.clone();
    assert_eq!(copy.reveal_secret(), "p@ss1234");
    assert_eq!(copy.display(), "********");
    assert!(copy.is_secured());
    assert_eq!(copy.created_at(), AT);
}
