use winrt_notification::{LoopableSound, Sound};

fn all_loopable() -> Vec<LoopableSound> {
    vec![
        LoopableSound::Alarm,
        LoopableSound::Alarm2,
        LoopableSound::Alarm3,
        LoopableSound::Alarm4,
        LoopableSound::Alarm5,
        LoopableSound::Alarm6,
        LoopableSound::Alarm7,
        LoopableSound::Alarm8,
        LoopableSound::Alarm9,
        LoopableSound::Alarm10,
        LoopableSound::Call,
        LoopableSound::Call2,
        LoopableSound::Call3,
        LoopableSound::Call4,
        LoopableSound::Call5,
        LoopableSound::Call6,
        LoopableSound::Call7,
        LoopableSound::Call8,
        LoopableSound::Call9,
        LoopableSound::Call10,
    ]
}

#[test]
fn loopable_sound_round_trips() {
    for s in all_loopable() {
        let name = s.name();
        let parsed = LoopableSound::parse(&name).expect("catalog name must parse");
        assert_eq!(parsed, s);
    }
}

#[test]
fn loopable_sound_names_are_exact() {
    assert_eq!(LoopableSound::Alarm.name(), "Alarm");
    assert_eq!(LoopableSound::Alarm10.name(), "Alarm10");
    assert_eq!(LoopableSound::Call.name(), "Call");
    assert_eq!(LoopableSound::Call10.name(), "Call10");
}

#[test]
fn fixed_sound_round_trips() {
    for s in [
        Sound::Default,
        Sound::IM,
        Sound::Mail,
        Sound::Reminder,
        Sound::SMS,
    ] {
        let name = s.name();
        let parsed = Sound::parse(&name).expect("catalog name must parse");
        assert_eq!(parsed, s);
    }
}

#[test]
fn single_sound_round_trips() {
    for l in all_loopable() {
        let s = Sound::Single(l);
        let parsed = Sound::parse(&s.name()).expect("catalog name must parse");
        assert_eq!(parsed, s);
    }
}

#[test]
fn loop_sound_name_round_trips_as_single() {
    // A looped sound shares its name with the same sound played once, so the
    // name survives a parse/format round trip even though the variant does not.
    for l in all_loopable() {
        let s = Sound::Loop(l);
        let parsed = Sound::parse(&s.name()).expect("catalog name must parse");
        assert_eq!(parsed, Sound::Single(l));
        assert_eq!(parsed.name(), s.name());
    }
}

#[test]
fn unrecognized_sound_fails_to_parse() {
    for bad in ["", "alarm", "ALARM", "Alarm11", "Call11", "default", "Mail ", " Mail", "Ding"] {
        assert!(Sound::parse(bad).is_err(), "{bad:?} must not parse");
        assert!(LoopableSound::parse(bad).is_err(), "{bad:?} must not parse");
    }
    // Fixed system sounds are not loopable.
    assert!(LoopableSound::parse("Default").is_err());
    assert!(LoopableSound::parse("SMS").is_err());
}

#[test]
fn sound_parsing_error_message() {
    let err = Sound::parse("Ding").unwrap_err();
    assert_eq!(err.message(), "couldn't parse string as a valid sound");
}
