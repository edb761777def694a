//! The toast sound catalog.
//!
//! A [`Sound`] either names one of the fixed system sounds or wraps a
//! [`LoopableSound`], played once or looped for the toast's duration.  Every
//! variant has a canonical name; parsing is a case-sensitive exact match
//! against that catalog and fails with [`SoundParsingError`] on anything else.

use vstd::prelude::*;

use crate::strutil::str_eq;

verus! {

/// A sound a toast can play: one of the fixed system sounds, or a loopable
/// sound played once (`Single`) or repeated for the toast's whole duration
/// (`Loop`).
#[derive(Debug, Clone, Copy, PartialEq, Eq, Structural)]
pub enum Sound {
    Default,
    IM,
    Mail,
    Reminder,
    SMS,
    /// Play the loopable sound only once
    Single(LoopableSound),
    /// Loop the loopable sound for the entire duration of the toast
    Loop(LoopableSound),
}

/// Sounds suitable for looping.
#[derive(Debug, Clone, Copy, PartialEq, Eq, Structural)]
pub enum LoopableSound {
    Alarm,
    Alarm2,
    Alarm3,
    Alarm4,
    Alarm5,
    Alarm6,
    Alarm7,
    Alarm8,
    Alarm9,
    Alarm10,
    Call,
    Call2,
    Call3,
    Call4,
    Call5,
    Call6,
    Call7,
    Call8,
    Call9,
    Call10,
}

/// The error returned when a string names no sound of the catalog.
#[derive(Debug, Clone, Copy, PartialEq, Eq, Structural)]
pub struct SoundParsingError;

/// The canonical name of a loopable sound.
pub open spec fn loopable_sound_name(s: LoopableSound) -> Seq<char> {
    match s {
        LoopableSound::Alarm => "Alarm"@,
        LoopableSound::Alarm2 => "Alarm2"@,
        LoopableSound::Alarm3 => "Alarm3"@,
        LoopableSound::Alarm4 => "Alarm4"@,
        LoopableSound::Alarm5 => "Alarm5"@,
        LoopableSound::Alarm6 => "Alarm6"@,
        LoopableSound::Alarm7 => "Alarm7"@,
        LoopableSound::Alarm8 => "Alarm8"@,
        LoopableSound::Alarm9 => "Alarm9"@,
        LoopableSound::Alarm10 => "Alarm10"@,
        LoopableSound::Call => "Call"@,
        LoopableSound::Call2 => "Call2"@,
        LoopableSound::Call3 => "Call3"@,
        LoopableSound::Call4 => "Call4"@,
        LoopableSound::Call5 => "Call5"@,
        LoopableSound::Call6 => "Call6"@,
        LoopableSound::Call7 => "Call7"@,
        LoopableSound::Call8 => "Call8"@,
        LoopableSound::Call9 => "Call9"@,
        LoopableSound::Call10 => "Call10"@,
    }
}

/// The canonical name of a sound.  A wrapped loopable sound, played once or
/// looped, goes by the loopable sound's own name.
pub open spec fn sound_name(s: Sound) -> Seq<char> {
    match s {
        Sound::Default => "Default"@,
        Sound::IM => "IM"@,
        Sound::Mail => "Mail"@,
        Sound::Reminder => "Reminder"@,
        Sound::SMS => "SMS"@,
        Sound::Single(l) => loopable_sound_name(l),
        Sound::Loop(l) => loopable_sound_name(l),
    }
}

/// Which loopable sound a string names: the case-sensitive exact match
/// against the catalog, or nothing.
pub open spec fn parse_loopable_sound(s: Seq<char>) -> Option<LoopableSound> {
    if s == "Alarm"@ {
        Some(LoopableSound::Alarm)
    } else if s == "Alarm2"@ {
        Some(LoopableSound::Alarm2)
    } else if s == "Alarm3"@ {
        Some(LoopableSound::Alarm3)
    } else if s == "Alarm4"@ {
        Some(LoopableSound::Alarm4)
    } else if s == "Alarm5"@ {
        Some(LoopableSound::Alarm5)
    } else if s == "Alarm6"@ {
        Some(LoopableSound::Alarm6)
    } else if s == "Alarm7"@ {
        Some(LoopableSound::Alarm7)
    } else if s == "Alarm8"@ {
        Some(LoopableSound::Alarm8)
    } else if s == "Alarm9"@ {
        Some(LoopableSound::Alarm9)
    } else if s == "Alarm10"@ {
        Some(LoopableSound::Alarm10)
    } else if s == "Call"@ {
        Some(LoopableSound::Call)
    } else if s == "Call2"@ {
        Some(LoopableSound::Call2)
    } else if s == "Call3"@ {
        Some(LoopableSound::Call3)
    } else if s == "Call4"@ {
        Some(LoopableSound::Call4)
    } else if s == "Call5"@ {
        Some(LoopableSound::Call5)
    } else if s == "Call6"@ {
        Some(LoopableSound::Call6)
    } else if s == "Call7"@ {
        Some(LoopableSound::Call7)
    } else if s == "Call8"@ {
        Some(LoopableSound::Call8)
    } else if s == "Call9"@ {
        Some(LoopableSound::Call9)
    } else if s == "Call10"@ {
        Some(LoopableSound::Call10)
    } else {
        None
    }
}

/// Which sound a string names: one of the five fixed system sounds, else a
/// loopable sound played once, else nothing.
pub open spec fn parse_sound(s: Seq<char>) -> Option<Sound> {
    if s == "Default"@ {
        Some(Sound::Default)
    } else if s == "IM"@ {
        Some(Sound::IM)
    } else if s == "Mail"@ {
        Some(Sound::Mail)
    } else if s == "Reminder"@ {
        Some(Sound::Reminder)
    } else if s == "SMS"@ {
        Some(Sound::SMS)
    } else {
        match parse_loopable_sound(s) {
            Some(l) => Some(Sound::Single(l)),
            None => None,
        }
    }
}

impl LoopableSound {
    /// The canonical name of this sound.
    pub fn name(&self) -> (r: String)
        ensures
            r@ == loopable_sound_name(*self),
    {
        match self {
            LoopableSound::Alarm => String::from_str("Alarm"),
            LoopableSound::Alarm2 => String::from_str("Alarm2"),
            LoopableSound::Alarm3 => String::from_str("Alarm3"),
            LoopableSound::Alarm4 => String::from_str("Alarm4"),
            LoopableSound::Alarm5 => String::from_str("Alarm5"),
            LoopableSound::Alarm6 => String::from_str("Alarm6"),
            LoopableSound::Alarm7 => String::from_str("Alarm7"),
            LoopableSound::Alarm8 => String::from_str("Alarm8"),
            LoopableSound::Alarm9 => String::from_str("Alarm9"),
            LoopableSound::Alarm10 => String::from_str("Alarm10"),
            LoopableSound::Call => String::from_str("Call"),
            LoopableSound::Call2 => String::from_str("Call2"),
            LoopableSound::Call3 => String::from_str("Call3"),
            LoopableSound::Call4 => String::from_str("Call4"),
            LoopableSound::Call5 => String::from_str("Call5"),
            LoopableSound::Call6 => String::from_str("Call6"),
            LoopableSound::Call7 => String::from_str("Call7"),
            LoopableSound::Call8 => String::from_str("Call8"),
            LoopableSound::Call9 => String::from_str("Call9"),
            LoopableSound::Call10 => String::from_str("Call10"),
        }
    }

    /// Parses the case-sensitive name of a loopable sound.
    pub fn parse(s: &str) -> (r: Result<LoopableSound, SoundParsingError>)
        ensures
            match r {
                Ok(v) => parse_loopable_sound(s@) == Some(v),
                Err(_) => parse_loopable_sound(s@) is None,
            },
    {
        if str_eq(s, "Alarm") {
            Ok(LoopableSound::Alarm)
        } else if str_eq(s, "Alarm2") {
            Ok(LoopableSound::Alarm2)
        } else if str_eq(s, "Alarm3") {
            Ok(LoopableSound::Alarm3)
        } else if str_eq(s, "Alarm4") {
            Ok(LoopableSound::Alarm4)
        } else if str_eq(s, "Alarm5") {
            Ok(LoopableSound::Alarm5)
        } else if str_eq(s, "Alarm6") {
            Ok(LoopableSound::Alarm6)
        } else if str_eq(s, "Alarm7") {
            Ok(LoopableSound::Alarm7)
        } else if str_eq(s, "Alarm8") {
            Ok(LoopableSound::Alarm8)
        } else if str_eq(s, "Alarm9") {
            Ok(LoopableSound::Alarm9)
        } else if str_eq(s, "Alarm10") {
            Ok(LoopableSound::Alarm10)
        } else if str_eq(s, "Call") {
            Ok(LoopableSound::Call)
        } else if str_eq(s, "Call2") {
            Ok(LoopableSound::Call2)
        } else if str_eq(s, "Call3") {
            Ok(LoopableSound::Call3)
        } else if str_eq(s, "Call4") {
            Ok(LoopableSound::Call4)
        } else if str_eq(s, "Call5") {
            Ok(LoopableSound::Call5)
        } else if str_eq(s, "Call6") {
            Ok(LoopableSound::Call6)
        } else if str_eq(s, "Call7") {
            Ok(LoopableSound::Call7)
        } else if str_eq(s, "Call8") {
            Ok(LoopableSound::Call8)
        } else if str_eq(s, "Call9") {
            Ok(LoopableSound::Call9)
        } else if str_eq(s, "Call10") {
            Ok(LoopableSound::Call10)
        } else {
            Err(SoundParsingError)
        }
    }
}

impl Sound {
    /// The canonical name of this sound.
    pub fn name(&self) -> (r: String)
        ensures
            r@ == sound_name(*self),
    {
        match self {
            Sound::Default => String::from_str("Default"),
            Sound::IM => String::from_str("IM"),
            Sound::Mail => String::from_str("Mail"),
            Sound::Reminder => String::from_str("Reminder"),
            Sound::SMS => String::from_str("SMS"),
            Sound::Single(l) => l.name(),
            Sound::Loop(l) => l.name(),
        }
    }

    /// Parses the case-sensitive name of a sound.  A name that is none of the
    /// five fixed system sounds is looked up in the loopable catalog and, when
    /// found there, comes back played once.
    pub fn parse(s: &str) -> (r: Result<Sound, SoundParsingError>)
        ensures
            match r {
                Ok(v) => parse_sound(s@) == Some(v),
                Err(_) => parse_sound(s@) is None,
            },
    {
        if str_eq(s, "Default") {
            Ok(Sound::Default)
        } else if str_eq(s, "IM") {
            Ok(Sound::IM)
        } else if str_eq(s, "Mail") {
            Ok(Sound::Mail)
        } else if str_eq(s, "Reminder") {
            Ok(Sound::Reminder)
        } else if str_eq(s, "SMS") {
            Ok(Sound::SMS)
        } else {
            match LoopableSound::parse(s) {
                Ok(l) => Ok(Sound::Single(l)),
                Err(e) => Err(e),
            }
        }
    }
}

impl SoundParsingError {
    /// A human-readable description of the error.
    pub fn message(&self) -> (r: String)
        ensures
            r@ == "couldn't parse string as a valid sound"@,
    {
        String::from_str("couldn't parse string as a valid sound")
    }
}

/// The length, first and last character of a text: enough to tell all the
/// catalog's names apart.
spec fn name_key(s: Seq<char>) -> (int, char, char) {
    (s.len() as int, s[0], s[s.len() - 1])
}

/// The key of each loopable sound's name, computed out.
proof fn lemma_loopable_sound_name_key(l: LoopableSound)
    ensures
        name_key(loopable_sound_name(l)) == (match l {
            LoopableSound::Alarm => (5int, 'A', 'm'),
            LoopableSound::Alarm2 => (6int, 'A', '2'),
            LoopableSound::Alarm3 => (6int, 'A', '3'),
            LoopableSound::Alarm4 => (6int, 'A', '4'),
            LoopableSound::Alarm5 => (6int, 'A', '5'),
            LoopableSound::Alarm6 => (6int, 'A', '6'),
            LoopableSound::Alarm7 => (6int, 'A', '7'),
            LoopableSound::Alarm8 => (6int, 'A', '8'),
            LoopableSound::Alarm9 => (6int, 'A', '9'),
            LoopableSound::Alarm10 => (7int, 'A', '0'),
            LoopableSound::Call => (4int, 'C', 'l'),
            LoopableSound::Call2 => (5int, 'C', '2'),
            LoopableSound::Call3 => (5int, 'C', '3'),
            LoopableSound::Call4 => (5int, 'C', '4'),
            LoopableSound::Call5 => (5int, 'C', '5'),
            LoopableSound::Call6 => (5int, 'C', '6'),
            LoopableSound::Call7 => (5int, 'C', '7'),
            LoopableSound::Call8 => (5int, 'C', '8'),
            LoopableSound::Call9 => (5int, 'C', '9'),
            LoopableSound::Call10 => (6int, 'C', '0'),
        }),
{
    reveal_strlit("Alarm");
    reveal_strlit("Alarm2");
    reveal_strlit("Alarm3");
    reveal_strlit("Alarm4");
    reveal_strlit("Alarm5");
    reveal_strlit("Alarm6");
    reveal_strlit("Alarm7");
    reveal_strlit("Alarm8");
    reveal_strlit("Alarm9");
    reveal_strlit("Alarm10");
    reveal_strlit("Call");
    reveal_strlit("Call2");
    reveal_strlit("Call3");
    reveal_strlit("Call4");
    reveal_strlit("Call5");
    reveal_strlit("Call6");
    reveal_strlit("Call7");
    reveal_strlit("Call8");
    reveal_strlit("Call9");
    reveal_strlit("Call10");
}

/// Two different loopable sounds never share a name.
proof fn lemma_loopable_sound_names_injective(x: LoopableSound, y: LoopableSound)
    requires
        x != y,
    ensures
        loopable_sound_name(x) != loopable_sound_name(y),
{
    lemma_loopable_sound_name_key(x);
    lemma_loopable_sound_name_key(y);
    assert(name_key(loopable_sound_name(x)) != name_key(loopable_sound_name(y)));
}

/// Parsing the canonical name of a loopable sound gives that sound back:
/// the parse/format pair round-trips on every variant.
pub proof fn lemma_loopable_sound_round_trip(v: LoopableSound)
    ensures
        parse_loopable_sound(loopable_sound_name(v)) == Some(v),
{
    assert forall|w: LoopableSound| w != v implies loopable_sound_name(w) != loopable_sound_name(
        v,
    ) by {
        lemma_loopable_sound_names_injective(w, v);
    }
    assert(loopable_sound_name(LoopableSound::Alarm) == "Alarm"@);
    assert(loopable_sound_name(LoopableSound::Alarm2) == "Alarm2"@);
    assert(loopable_sound_name(LoopableSound::Alarm3) == "Alarm3"@);
    assert(loopable_sound_name(LoopableSound::Alarm4) == "Alarm4"@);
    assert(loopable_sound_name(LoopableSound::Alarm5) == "Alarm5"@);
    assert(loopable_sound_name(LoopableSound::Alarm6) == "Alarm6"@);
    assert(loopable_sound_name(LoopableSound::Alarm7) == "Alarm7"@);
    assert(loopable_sound_name(LoopableSound::Alarm8) == "Alarm8"@);
    assert(loopable_sound_name(LoopableSound::Alarm9) == "Alarm9"@);
    assert(loopable_sound_name(LoopableSound::Alarm10) == "Alarm10"@);
    assert(loopable_sound_name(LoopableSound::Call) == "Call"@);
    assert(loopable_sound_name(LoopableSound::Call2) == "Call2"@);
    assert(loopable_sound_name(LoopableSound::Call3) == "Call3"@);
    assert(loopable_sound_name(LoopableSound::Call4) == "Call4"@);
    assert(loopable_sound_name(LoopableSound::Call5) == "Call5"@);
    assert(loopable_sound_name(LoopableSound::Call6) == "Call6"@);
    assert(loopable_sound_name(LoopableSound::Call7) == "Call7"@);
    assert(loopable_sound_name(LoopableSound::Call8) == "Call8"@);
    assert(loopable_sound_name(LoopableSound::Call9) == "Call9"@);
    assert(loopable_sound_name(LoopableSound::Call10) == "Call10"@);
}

/// Parsing the canonical name of a sound gives that sound back, for every
/// variant that is not `Loop`.  A looped sound shares its name with the same
/// sound played once, so parsing its name yields the `Single` form: on `Loop`
/// only the weaker [`lemma_sound_name_round_trip`] holds.
pub proof fn lemma_sound_round_trip(v: Sound)
    requires
        !(v is Loop),
    ensures
        parse_sound(sound_name(v)) == Some(v),
{
    reveal_strlit("Default");
    reveal_strlit("IM");
    reveal_strlit("Mail");
    reveal_strlit("Reminder");
    reveal_strlit("SMS");
    assert(name_key("Default"@) == (7int, 'D', 't'));
    assert(name_key("IM"@) == (2int, 'I', 'M'));
    assert(name_key("Mail"@) == (4int, 'M', 'l'));
    assert(name_key("Reminder"@) == (8int, 'R', 'r'));
    assert(name_key("SMS"@) == (3int, 'S', 'S'));
    match v {
        Sound::Single(l) => {
            lemma_loopable_sound_round_trip(l);
            lemma_loopable_sound_name_not_fixed(l);
        },
        _ => {},
    }
}

/// Formatting, parsing and formatting again gives the first format back:
/// `name(parse(name(v)))` equals `name(v)` for every sound, the looped ones
/// included.
pub proof fn lemma_sound_name_round_trip(v: Sound)
    ensures
        parse_sound(sound_name(v)) is Some,
        match parse_sound(sound_name(v)) {
            Some(w) => sound_name(w) == sound_name(v),
            None => false,
        },
{
    match v {
        Sound::Loop(l) => {
            lemma_sound_round_trip(Sound::Single(l));
        },
        _ => {
            lemma_sound_round_trip(v);
        },
    }
}

/// The name of a loopable sound never collides with one of the five fixed
/// system sound names: those start with `D`, `I`, `M`, `R` or `S`, while a
/// loopable sound's name starts with `A` or `C`.
proof fn lemma_loopable_sound_name_not_fixed(l: LoopableSound)
    ensures
        loopable_sound_name(l) != "Default"@,
        loopable_sound_name(l) != "IM"@,
        loopable_sound_name(l) != "Mail"@,
        loopable_sound_name(l) != "Reminder"@,
        loopable_sound_name(l) != "SMS"@,
{
    reveal_strlit("Default");
    reveal_strlit("IM");
    reveal_strlit("Mail");
    reveal_strlit("Reminder");
    reveal_strlit("SMS");
    lemma_loopable_sound_name_key(l);
    assert(name_key("Default"@) == (7int, 'D', 't'));
    assert(name_key("IM"@) == (2int, 'I', 'M'));
    assert(name_key("Mail"@) == (4int, 'M', 'l'));
    assert(name_key("Reminder"@) == (8int, 'R', 'r'));
    assert(name_key("SMS"@) == (3int, 'S', 'S'));
    assert(name_key(loopable_sound_name(l)).1 == 'A' || name_key(loopable_sound_name(l)).1
        == 'C');
}

} // verus!
