//! A tokenization discipline for the assembled document.
//!
//! The scanner below walks a document character by character and tracks
//! whether it stands in text, inside a tag, or inside a quoted attribute
//! value.  It faults on a `<` anywhere inside a tag or an attribute value and
//! on a stray `>` in text, and it only leaves an attribute value at its own
//! quote.  A document that scans cleanly therefore splits into properly
//! delimited tags with properly quoted attribute values and markup-free text
//! between them: caller-supplied content can never break out of the position
//! the template puts it in.  This is the machine-checked part of the claim
//! that the builder emits well-formed documents; that the fixed skeleton's
//! tag names nest correctly is plain from the template itself.

use vstd::prelude::*;

use crate::escape::escaped;
use crate::escape::lemma_escaped_free_of_markup;
use crate::progress::ProgressView;
use crate::sound::loopable_sound_name;
use crate::sound::sound_name;
use crate::sound::LoopableSound;
use crate::sound::Sound;
use crate::toast::actions_fragment;
use crate::toast::audio_fragment;
use crate::toast::binding_template;
use crate::toast::button_fragment;
use crate::toast::buttons_body;
use crate::toast::duration_fragment;
use crate::toast::hero_piece;
use crate::toast::icon_crop_attr;
use crate::toast::icon_piece;
use crate::toast::image_piece;
use crate::toast::line1_fragment;
use crate::toast::line2_fragment;
use crate::toast::new_toast_view;
use crate::toast::progress_fragment;
use crate::toast::scenario_fragment;
use crate::toast::title_fragment;
use crate::toast::toast_xml;
use crate::toast::with_hero;
use crate::toast::with_icon;
use crate::toast::with_image;
use crate::toast::ButtonView;
use crate::toast::Duration;
use crate::toast::IconCrop;
use crate::toast::Scenario;
use crate::toast::ToastView;

verus! {

/// Where the scanner stands: in text between tags, inside a tag, or inside
/// an attribute value opened by the given quote character.
#[verifier::ext_equal]
pub ghost enum ScanState {
    Text,
    InTag,
    InAttr(char),
}

/// One scanner step; `None` is a fault.
pub open spec fn scan_char(st: ScanState, c: char) -> Option<ScanState> {
    match st {
        ScanState::Text => {
            if c == '<' {
                Some(ScanState::InTag)
            } else if c == '>' {
                None
            } else {
                Some(ScanState::Text)
            }
        },
        ScanState::InTag => {
            if c == '"' {
                Some(ScanState::InAttr('"'))
            } else if c == '\'' {
                Some(ScanState::InAttr('\''))
            } else if c == '>' {
                Some(ScanState::Text)
            } else if c == '<' {
                None
            } else {
                Some(ScanState::InTag)
            }
        },
        ScanState::InAttr(q) => {
            if c == q {
                Some(ScanState::InTag)
            } else if c == '<' {
                None
            } else {
                Some(ScanState::InAttr(q))
            }
        },
    }
}

/// The scanner from position `i` of a text onward.
pub open spec fn scan_from(s: Seq<char>, i: int, st: ScanState) -> Option<ScanState>
    decreases s.len() - i,
{
    if i < 0 || i >= s.len() {
        Some(st)
    } else {
        match scan_char(st, s[i]) {
            None => None,
            Some(m) => scan_from(s, i + 1, m),
        }
    }
}

/// The scanner over a whole text, from the given state.
pub open spec fn scan(s: Seq<char>, st: ScanState) -> Option<ScanState> {
    scan_from(s, 0, st)
}

/// A document tokenizes cleanly when the scan of the whole text starts and
/// ends in plain text without a fault: every tag is delimited, every
/// attribute value closed by its own quote, and no markup opens in between.
pub open spec fn scans_clean(doc: Seq<char>) -> bool {
    scan(doc, ScanState::Text) == Some(ScanState::Text)
}

/// Scanning the second part of a concatenation from an offset past the first
/// part is scanning the second part alone.
proof fn lemma_scan_from_shift(a: Seq<char>, b: Seq<char>, j: int, st: ScanState)
    requires
        0 <= j <= b.len(),
    ensures
        scan_from(a + b, a.len() + j, st) == scan_from(b, j, st),
    decreases b.len() - j,
{
    if j < b.len() {
        assert((a + b)[a.len() + j] == b[j]);
        match scan_char(st, b[j]) {
            None => {},
            Some(m) => {
                lemma_scan_from_shift(a, b, j + 1, m);
            },
        }
    }
}

/// Scanning a concatenation from a position within the first part is
/// scanning the rest of the first part, then the second.
proof fn lemma_scan_from_append(a: Seq<char>, b: Seq<char>, i: int, st: ScanState)
    requires
        0 <= i <= a.len(),
    ensures
        scan_from(a + b, i, st) == (match scan_from(a, i, st) {
            None => None::<ScanState>,
            Some(m) => scan_from(b, 0, m),
        }),
    decreases a.len() - i,
{
    if i == a.len() {
        lemma_scan_from_shift(a, b, 0, st);
    } else {
        assert((a + b)[i] == a[i]);
        match scan_char(st, a[i]) {
            None => {},
            Some(m) => {
                lemma_scan_from_append(a, b, i + 1, m);
            },
        }
    }
}

/// Scanning a concatenation is scanning the parts in turn.
pub proof fn lemma_scan_append(a: Seq<char>, b: Seq<char>, st: ScanState)
    ensures
        scan(a + b, st) == (match scan(a, st) {
            None => None::<ScanState>,
            Some(m) => scan(b, m),
        }),
{
    lemma_scan_from_append(a, b, 0, st);
}

/// Text free of the four markup characters.
pub open spec fn markup_free(s: Seq<char>) -> bool {
    forall|i: int|
        0 <= i < s.len() ==> s[i] != '<' && s[i] != '>' && s[i] != '"' && s[i] != '\''
}

/// A state that markup-free text can never change: text, or an attribute
/// value opened by one of the two quotes.
proof fn lemma_scan_from_markup_free(s: Seq<char>, i: int, st: ScanState)
    requires
        markup_free(s),
        0 <= i <= s.len(),
        st == ScanState::Text || st == ScanState::InAttr('"') || st == ScanState::InAttr('\''),
    ensures
        scan_from(s, i, st) == Some(st),
    decreases s.len() - i,
{
    if i < s.len() {
        lemma_scan_from_markup_free(s, i + 1, st);
    }
}

/// Markup-free text scans through a text region without changing anything.
pub proof fn lemma_scan_markup_free_text(s: Seq<char>)
    requires
        markup_free(s),
    ensures
        scan(s, ScanState::Text) == Some(ScanState::Text),
{
    lemma_scan_from_markup_free(s, 0, ScanState::Text);
}

/// Markup-free text scans through a quoted attribute value without closing
/// it, whichever of the two quotes opened the value.
pub proof fn lemma_scan_markup_free_attr(s: Seq<char>, q: char)
    requires
        markup_free(s),
        q == '"' || q == '\'',
    ensures
        scan(s, ScanState::InAttr(q)) == Some(ScanState::InAttr(q)),
{
    lemma_scan_from_markup_free(s, 0, ScanState::InAttr(q));
}

/// Text that may stand in a single-quoted attribute value: free of the
/// single quote that would close the value and of `<`.
pub open spec fn attr_text_safe(s: Seq<char>) -> bool {
    forall|i: int| 0 <= i < s.len() ==> s[i] != '\'' && s[i] != '<'
}

/// Every button's texts are safe for their single-quoted attribute values.
pub open spec fn buttons_attr_safe(bs: Seq<ButtonView>) -> bool {
    forall|i: int|
        0 <= i < bs.len() ==> attr_text_safe(#[trigger] bs[i].content) && attr_text_safe(
            bs[i].action,
        )
}

/// Safe text scans through a single-quoted attribute value without closing
/// it.
pub proof fn lemma_scan_safe_single_quoted(s: Seq<char>)
    requires
        attr_text_safe(s),
    ensures
        scan(s, ScanState::InAttr('\'')) == Some(ScanState::InAttr('\'')),
{
    lemma_scan_from_safe_single_quoted(s, 0);
}

/// The index-by-index form of [`lemma_scan_safe_single_quoted`].
proof fn lemma_scan_from_safe_single_quoted(s: Seq<char>, i: int)
    requires
        attr_text_safe(s),
        0 <= i <= s.len(),
    ensures
        scan_from(s, i, ScanState::InAttr('\'')) == Some(ScanState::InAttr('\'')),
    decreases s.len() - i,
{
    if i < s.len() {
        lemma_scan_from_safe_single_quoted(s, i + 1);
    }
}

/// Escaped caller text is markup-free.
pub proof fn lemma_escaped_markup_free(c: Seq<char>)
    ensures
        markup_free(escaped(c)),
{
    lemma_escaped_free_of_markup(c);
}

/// A tag, markup-free text, and a closing tag scan as a clean text region.
proof fn lemma_scan_wrapped_text(open: Seq<char>, mid: Seq<char>, close: Seq<char>)
    requires
        scan(open, ScanState::Text) == Some(ScanState::Text),
        markup_free(mid),
        scan(close, ScanState::Text) == Some(ScanState::Text),
    ensures
        scan(open + mid + close, ScanState::Text) == Some(ScanState::Text),
{
    lemma_scan_markup_free_text(mid);
    lemma_scan_append(open, mid, ScanState::Text);
    lemma_scan_append(open + mid, close, ScanState::Text);
}

/// Every text element of the template scans cleanly, whatever the caller
/// wrote: the fixed markup opens and closes, the escaped text stays text.
pub proof fn lemma_scan_text_fragments(c: Seq<char>)
    ensures
        scan(title_fragment(c), ScanState::Text) == Some(ScanState::Text),
        scan(line1_fragment(c), ScanState::Text) == Some(ScanState::Text),
        scan(line2_fragment(c), ScanState::Text) == Some(ScanState::Text),
{
    reveal_strlit("<text id=\"1\">");
    reveal_strlit("<text id=\"2\">");
    reveal_strlit("<text id=\"3\">");
    reveal_strlit("</text>");
    reveal_with_fuel(scan_from, 16);
    assert(scan("<text id=\"1\">"@, ScanState::Text) == Some(ScanState::Text));
    assert(scan("<text id=\"2\">"@, ScanState::Text) == Some(ScanState::Text));
    assert(scan("<text id=\"3\">"@, ScanState::Text) == Some(ScanState::Text));
    assert(scan("</text>"@, ScanState::Text) == Some(ScanState::Text));
    lemma_escaped_markup_free(c);
    lemma_scan_wrapped_text("<text id=\"1\">"@, escaped(c), "</text>"@);
    lemma_scan_wrapped_text("<text id=\"2\">"@, escaped(c), "</text>"@);
    lemma_scan_wrapped_text("<text id=\"3\">"@, escaped(c), "</text>"@);
}

/// The closing `" alt="` and `" />` pieces shared by all image elements, and
/// the escaped source and alt text, scan from inside the quoted source
/// attribute to clean text.
proof fn lemma_scan_image_tail(prefix: Seq<char>, source: Seq<char>, alt_text: Seq<char>)
    requires
        scan(prefix, ScanState::Text) == Some(ScanState::InAttr('"')),
    ensures
        scan(
            prefix + escaped(source) + "\" alt=\""@ + escaped(alt_text) + "\" />"@,
            ScanState::Text,
        ) == Some(ScanState::Text),
{
    reveal_strlit("\" alt=\"");
    reveal_strlit("\" />");
    reveal_with_fuel(scan_from, 10);
    assert(scan("\" alt=\""@, ScanState::InAttr('"')) == Some(ScanState::InAttr('"')));
    assert(scan("\" />"@, ScanState::InAttr('"')) == Some(ScanState::Text));
    lemma_escaped_markup_free(source);
    lemma_escaped_markup_free(alt_text);
    lemma_scan_markup_free_attr(escaped(source), '"');
    lemma_scan_markup_free_attr(escaped(alt_text), '"');
    let p1 = prefix + escaped(source);
    lemma_scan_append(prefix, escaped(source), ScanState::Text);
    let p2 = p1 + "\" alt=\""@;
    lemma_scan_append(p1, "\" alt=\""@, ScanState::Text);
    let p3 = p2 + escaped(alt_text);
    lemma_scan_append(p2, escaped(alt_text), ScanState::Text);
    lemma_scan_append(p3, "\" />"@, ScanState::Text);
}

/// The plain image element scans cleanly for any source and alt text.
pub proof fn lemma_scan_image_piece(source: Seq<char>, alt_text: Seq<char>)
    ensures
        scan(image_piece(source, alt_text), ScanState::Text) == Some(ScanState::Text),
{
    reveal_strlit("<image id=\"1\" src=\"file:///");
    reveal_with_fuel(scan_from, 32);
    assert(scan("<image id=\"1\" src=\"file:///"@, ScanState::Text) == Some(
        ScanState::InAttr('"'),
    ));
    lemma_scan_image_tail("<image id=\"1\" src=\"file:///"@, source, alt_text);
}

/// The hero image element scans cleanly for any source and alt text.
pub proof fn lemma_scan_hero_piece(source: Seq<char>, alt_text: Seq<char>)
    ensures
        scan(hero_piece(source, alt_text), ScanState::Text) == Some(ScanState::Text),
{
    reveal_strlit("<image placement=\"Hero\" src=\"file:///");
    reveal_with_fuel(scan_from, 42);
    assert(scan("<image placement=\"Hero\" src=\"file:///"@, ScanState::Text) == Some(
        ScanState::InAttr('"'),
    ));
    lemma_scan_image_tail("<image placement=\"Hero\" src=\"file:///"@, source, alt_text);
}

/// The icon image element scans cleanly for any crop, source and alt text.
pub proof fn lemma_scan_icon_piece(crop: IconCrop, source: Seq<char>, alt_text: Seq<char>)
    ensures
        scan(icon_piece(crop, source, alt_text), ScanState::Text) == Some(ScanState::Text),
{
    reveal_strlit("<image placement=\"appLogoOverride\" ");
    reveal_strlit("hint-crop=\"circle\"");
    reveal_strlit(" src=\"file:///");
    reveal_with_fuel(scan_from, 40);
    assert(scan("<image placement=\"appLogoOverride\" "@, ScanState::Text) == Some(
        ScanState::InTag,
    ));
    assert(scan("hint-crop=\"circle\""@, ScanState::InTag) == Some(ScanState::InTag));
    assert(scan(icon_crop_attr(crop), ScanState::InTag) == Some(ScanState::InTag));
    assert(scan(" src=\"file:///"@, ScanState::InTag) == Some(ScanState::InAttr('"')));
    let p1 = "<image placement=\"appLogoOverride\" "@ + icon_crop_attr(crop);
    lemma_scan_append("<image placement=\"appLogoOverride\" "@, icon_crop_attr(crop), ScanState::Text);
    let p2 = p1 + " src=\"file:///"@;
    lemma_scan_append(p1, " src=\"file:///"@, ScanState::Text);
    lemma_scan_image_tail(p2, source, alt_text);
}

/// Every name of the sound catalog is markup-free.
proof fn lemma_loopable_sound_name_markup_free(l: LoopableSound)
    ensures
        markup_free(loopable_sound_name(l)),
{
    reveal_strlit("Alarm");
    reveal_strlit("Alarm2");
    reveal_strlit("Alarm3");
    reveal_strlit("Alarm4");
    reveal_strlit("Alarm5");
    reveal_strlit("Alarm6");
    reveal_strlit("Alarm7");
    reveal_strlit("Alarm8");
    reveal_strlit("Alarm9");
    reveal_strlit("Alarm10");
    reveal_strlit("Call");
    reveal_strlit("Call2");
    reveal_strlit("Call3");
    reveal_strlit("Call4");
    reveal_strlit("Call5");
    reveal_strlit("Call6");
    reveal_strlit("Call7");
    reveal_strlit("Call8");
    reveal_strlit("Call9");
    reveal_strlit("Call10");
}

/// The full name of any sound is markup-free.
proof fn lemma_sound_name_markup_free(s: Sound)
    ensures
        markup_free(sound_name(s)),
{
    reveal_strlit("Default");
    reveal_strlit("IM");
    reveal_strlit("Mail");
    reveal_strlit("Reminder");
    reveal_strlit("SMS");
    match s {
        Sound::Single(l) => lemma_loopable_sound_name_markup_free(l),
        Sound::Loop(l) => lemma_loopable_sound_name_markup_free(l),
        _ => {},
    }
}

/// An audio element whose opening piece has led into the quoted source
/// attribute, followed by a markup-free sound name and the closing piece,
/// scans back to clean text.
proof fn lemma_scan_audio_tail(open: Seq<char>, name: Seq<char>)
    requires
        scan(open, ScanState::Text) == Some(ScanState::InAttr('"')),
        markup_free(name),
    ensures
        scan(open + name + "\" />"@, ScanState::Text) == Some(ScanState::Text),
{
    reveal_strlit("\" />");
    reveal_with_fuel(scan_from, 6);
    assert(scan("\" />"@, ScanState::InAttr('"')) == Some(ScanState::Text));
    lemma_scan_markup_free_attr(name, '"');
    lemma_scan_append(open, name, ScanState::Text);
    lemma_scan_append(open + name, "\" />"@, ScanState::Text);
}

/// The audio fragment scans cleanly, whatever sound was chosen.
#[verifier::rlimit(100)]
pub proof fn lemma_scan_audio_fragment(src: Option<Sound>)
    ensures
        scan(audio_fragment(src), ScanState::Text) == Some(ScanState::Text),
{
    match src {
        None => {
            reveal_strlit("<audio silent=\"true\" />");
            reveal_with_fuel(scan_from, 26);
            assert(scan("<audio silent=\"true\" />"@, ScanState::Text) == Some(ScanState::Text));
        },
        Some(Sound::Default) => {},
        Some(Sound::Loop(l)) => {
            reveal_strlit("<audio loop=\"true\" src=\"ms-winsoundevent:Notification.Looping.");
            reveal_with_fuel(scan_from, 66);
            let open = "<audio loop=\"true\" src=\"ms-winsoundevent:Notification.Looping."@;
            assert(scan(open, ScanState::Text) == Some(ScanState::InAttr('"')));
            lemma_loopable_sound_name_markup_free(l);
            lemma_scan_audio_tail(open, loopable_sound_name(l));
        },
        Some(Sound::Single(l)) => {
            reveal_strlit("<audio src=\"ms-winsoundevent:Notification.Looping.");
            reveal_with_fuel(scan_from, 55);
            let open = "<audio src=\"ms-winsoundevent:Notification.Looping."@;
            assert(scan(open, ScanState::Text) == Some(ScanState::InAttr('"')));
            lemma_loopable_sound_name_markup_free(l);
            lemma_scan_audio_tail(open, loopable_sound_name(l));
        },
        Some(s) => {
            reveal_strlit("<audio src=\"ms-winsoundevent:Notification.");
            reveal_with_fuel(scan_from, 46);
            let open = "<audio src=\"ms-winsoundevent:Notification."@;
            assert(scan(open, ScanState::Text) == Some(ScanState::InAttr('"')));
            lemma_sound_name_markup_free(s);
            lemma_scan_audio_tail(open, sound_name(s));
        },
    }
}

/// The duration attribute scans inside the toast tag without leaving it.
pub proof fn lemma_scan_duration_fragment(d: Duration)
    ensures
        scan(duration_fragment(d), ScanState::InTag) == Some(ScanState::InTag),
{
    reveal_strlit("duration=\"long\"");
    reveal_strlit("duration=\"short\"");
    reveal_with_fuel(scan_from, 20);
    assert(scan("duration=\"long\""@, ScanState::InTag) == Some(ScanState::InTag));
    assert(scan("duration=\"short\""@, ScanState::InTag) == Some(ScanState::InTag));
}

/// The scenario attribute scans inside the toast tag without leaving it.
pub proof fn lemma_scan_scenario_fragment(s: Scenario)
    ensures
        scan(scenario_fragment(s), ScanState::InTag) == Some(ScanState::InTag),
{
    reveal_strlit("scenario=\"alarm\"");
    reveal_strlit("scenario=\"reminder\"");
    reveal_strlit("scenario=\"incomingCall\"");
    reveal_with_fuel(scan_from, 26);
    assert(scan("scenario=\"alarm\""@, ScanState::InTag) == Some(ScanState::InTag));
    assert(scan("scenario=\"reminder\""@, ScanState::InTag) == Some(ScanState::InTag));
    assert(scan("scenario=\"incomingCall\""@, ScanState::InTag) == Some(ScanState::InTag));
}

/// The selected binding name stays inside its quoted attribute value.
proof fn lemma_scan_binding_template(v: ToastView)
    ensures
        scan(binding_template(v), ScanState::InAttr('"')) == Some(ScanState::InAttr('"')),
{
    reveal_strlit("ToastGeneric");
    reveal_strlit("ToastText04");
    reveal_strlit("ToastImageAndText04");
    assert(markup_free("ToastGeneric"@));
    assert(markup_free("ToastText04"@));
    assert(markup_free("ToastImageAndText04"@));
    lemma_scan_markup_free_attr(binding_template(v), '"');
}

/// The progress element, when present, scans cleanly; its placeholders are
/// ordinary attribute text.
#[verifier::rlimit(100)]
pub proof fn lemma_scan_progress_fragment(p: Option<ProgressView>)
    ensures
        scan(progress_fragment(p), ScanState::Text) == Some(ScanState::Text),
{
    if p is Some {
        reveal_strlit("<progress\n                title=\"{progressTitle}\"");
        reveal_strlit("\n                value=\"{progressValue}\"");
        reveal_strlit("\n                valueStringOverride=\"{progressValueString}\"");
        reveal_strlit("\n                status=\"{progressStatus}\"/>");
        reveal_with_fuel(scan_from, 65);
        let c1 = "<progress\n                title=\"{progressTitle}\""@;
        let c2 = "\n                value=\"{progressValue}\""@;
        let c3 = "\n                valueStringOverride=\"{progressValueString}\""@;
        let c4 = "\n                status=\"{progressStatus}\"/>"@;
        assert(scan(c1, ScanState::Text) == Some(ScanState::InTag));
        assert(scan(c2, ScanState::InTag) == Some(ScanState::InTag));
        assert(scan(c3, ScanState::InTag) == Some(ScanState::InTag));
        assert(scan(c4, ScanState::InTag) == Some(ScanState::Text));
        lemma_scan_append(c1, c2, ScanState::Text);
        lemma_scan_append(c1 + c2, c3, ScanState::Text);
        lemma_scan_append(c1 + c2 + c3, c4, ScanState::Text);
    }
}

/// One button's action element scans cleanly when its texts are safe for a
/// single-quoted attribute value.
#[verifier::rlimit(100)]
pub proof fn lemma_scan_button_fragment(b: ButtonView)
    requires
        attr_text_safe(b.content),
        attr_text_safe(b.action),
    ensures
        scan(button_fragment(b), ScanState::Text) == Some(ScanState::Text),
{
    reveal_strlit("<action content='");
    reveal_strlit("' arguments='");
    reveal_strlit("'/>");
    reveal_with_fuel(scan_from, 20);
    assert(scan("<action content='"@, ScanState::Text) == Some(ScanState::InAttr('\'')));
    assert(scan("' arguments='"@, ScanState::InAttr('\'')) == Some(ScanState::InAttr('\'')));
    assert(scan("'/>"@, ScanState::InAttr('\'')) == Some(ScanState::Text));
    lemma_scan_safe_single_quoted(b.content);
    lemma_scan_safe_single_quoted(b.action);
    let p1 = "<action content='"@ + b.content;
    lemma_scan_append("<action content='"@, b.content, ScanState::Text);
    let p2 = p1 + "' arguments='"@;
    lemma_scan_append(p1, "' arguments='"@, ScanState::Text);
    let p3 = p2 + b.action;
    lemma_scan_append(p2, b.action, ScanState::Text);
    lemma_scan_append(p3, "'/>"@, ScanState::Text);
}

/// The concatenated action elements scan cleanly when every button's texts
/// are safe.
proof fn lemma_scan_buttons_body(bs: Seq<ButtonView>)
    requires
        buttons_attr_safe(bs),
    ensures
        scan(buttons_body(bs), ScanState::Text) == Some(ScanState::Text),
    decreases bs.len(),
{
    if bs.len() > 0 {
        assert(buttons_attr_safe(bs.drop_last()));
        lemma_scan_buttons_body(bs.drop_last());
        lemma_scan_button_fragment(bs.last());
        lemma_scan_append(buttons_body(bs.drop_last()), button_fragment(bs.last()), ScanState::Text);
    }
}

/// The actions block scans cleanly when every button's texts are safe.
pub proof fn lemma_scan_actions_fragment(bs: Seq<ButtonView>)
    requires
        buttons_attr_safe(bs),
    ensures
        scan(actions_fragment(bs), ScanState::Text) == Some(ScanState::Text),
{
    if bs.len() > 0 {
        reveal_strlit("<actions>");
        reveal_strlit("</actions>");
        reveal_with_fuel(scan_from, 12);
        assert(scan("<actions>"@, ScanState::Text) == Some(ScanState::Text));
        assert(scan("</actions>"@, ScanState::Text) == Some(ScanState::Text));
        lemma_scan_buttons_body(bs);
        lemma_scan_append("<actions>"@, buttons_body(bs), ScanState::Text);
        lemma_scan_append("<actions>"@ + buttons_body(bs), "</actions>"@, ScanState::Text);
    }
}

/// The well-formedness invariant of a builder value: every stored fragment
/// scans cleanly in the position the template gives it, and every button's
/// texts are safe for their single-quoted attribute values.  [`crate::Toast::new`]
/// establishes it and every configuration method preserves it — buttons under
/// the stated proviso, since button texts are embedded unescaped.
pub open spec fn view_scans_clean(v: ToastView) -> bool {
    &&& scan(v.duration, ScanState::InTag) == Some(ScanState::InTag)
    &&& scan(v.scenario, ScanState::InTag) == Some(ScanState::InTag)
    &&& scan(v.images, ScanState::Text) == Some(ScanState::Text)
    &&& scan(v.title, ScanState::Text) == Some(ScanState::Text)
    &&& scan(v.line1, ScanState::Text) == Some(ScanState::Text)
    &&& scan(v.line2, ScanState::Text) == Some(ScanState::Text)
    &&& scan(v.audio, ScanState::Text) == Some(ScanState::Text)
    &&& buttons_attr_safe(v.buttons)
}

/// A fresh builder is well-formed: all its fragments are empty.
pub proof fn lemma_new_toast_view_scans_clean(app_id: Seq<char>)
    ensures
        view_scans_clean(new_toast_view(app_id)),
{
}

/// The title, first-line and second-line methods preserve well-formedness
/// for arbitrary caller text.
pub proof fn lemma_text_methods_preserve_scans_clean(v: ToastView, c: Seq<char>)
    requires
        view_scans_clean(v),
    ensures
        view_scans_clean((ToastView { title: title_fragment(c), ..v })),
        view_scans_clean((ToastView { line1: line1_fragment(c), ..v })),
        view_scans_clean((ToastView { line2: line2_fragment(c), ..v })),
{
    lemma_scan_text_fragments(c);
}

/// The duration and scenario methods preserve well-formedness.
pub proof fn lemma_attr_methods_preserve_scans_clean(v: ToastView, d: Duration, sc: Scenario)
    requires
        view_scans_clean(v),
    ensures
        view_scans_clean((ToastView { duration: duration_fragment(d), ..v })),
        view_scans_clean((ToastView { scenario: scenario_fragment(sc), ..v })),
{
    lemma_scan_duration_fragment(d);
    lemma_scan_scenario_fragment(sc);
}

/// The icon, hero and image methods preserve well-formedness on either
/// platform branch, for arbitrary paths and alt texts.
pub proof fn lemma_image_methods_preserve_scans_clean(
    v: ToastView,
    source: Seq<char>,
    crop: IconCrop,
    alt_text: Seq<char>,
)
    requires
        view_scans_clean(v),
    ensures
        view_scans_clean(with_icon(v, source, crop, alt_text)),
        view_scans_clean(with_hero(v, source, alt_text)),
        view_scans_clean(with_image(v, source, alt_text)),
{
    lemma_scan_icon_piece(crop, source, alt_text);
    lemma_scan_hero_piece(source, alt_text);
    lemma_scan_image_piece(source, alt_text);
    lemma_scan_append(v.images, icon_piece(crop, source, alt_text), ScanState::Text);
    lemma_scan_append(v.images, hero_piece(source, alt_text), ScanState::Text);
    lemma_scan_append(v.images, image_piece(source, alt_text), ScanState::Text);
}

/// The sound method preserves well-formedness for every sound choice.
pub proof fn lemma_sound_method_preserves_scans_clean(v: ToastView, src: Option<Sound>)
    requires
        view_scans_clean(v),
    ensures
        view_scans_clean((ToastView { audio: audio_fragment(src), ..v })),
{
    lemma_scan_audio_fragment(src);
}

/// Adding a button preserves well-formedness when the new button's texts are
/// safe for a single-quoted attribute value; a text holding a single quote,
/// which the builder embeds unescaped, is the one configuration this
/// development does not cover.
pub proof fn lemma_add_button_preserves_scans_clean(v: ToastView, b: ButtonView)
    requires
        view_scans_clean(v),
        attr_text_safe(b.content),
        attr_text_safe(b.action),
    ensures
        view_scans_clean((ToastView { buttons: v.buttons.push(b), ..v })),
{
    let bs = v.buttons.push(b);
    assert forall|i: int|
        0 <= i < bs.len() implies attr_text_safe(#[trigger] bs[i].content) && attr_text_safe(
        bs[i].action,
    ) by {
        if i < v.buttons.len() {
            assert(bs[i] == v.buttons[i]);
            assert(attr_text_safe(v.buttons[i].content) && attr_text_safe(v.buttons[i].action));
        } else {
            assert(bs[i] == b);
        }
    }
    assert(buttons_attr_safe(bs));
}

/// Attaching a progress snapshot or selecting the platform branch preserves
/// well-formedness: neither touches a stored fragment.
pub proof fn lemma_state_methods_preserve_scans_clean(
    v: ToastView,
    p: ProgressView,
    modern: bool,
)
    requires
        view_scans_clean(v),
    ensures
        view_scans_clean((ToastView { progress: Some(p), ..v })),
        view_scans_clean((ToastView { modern, ..v })),
{
}

/// The assembled document of any well-formed builder tokenizes cleanly:
/// every tag the template opens is closed, every attribute value ends at its
/// own quote, and no caller-supplied text can open markup of its own —
/// whatever metacharacters or Unicode the caller wrote.
#[verifier::rlimit(100)]
pub proof fn lemma_toast_xml_scans_clean(v: ToastView)
    requires
        view_scans_clean(v),
    ensures
        scans_clean(toast_xml(v)),
{
    reveal_strlit("<toast ");
    reveal_strlit(" ");
    reveal_strlit(">\n                <visual>\n                    <binding template=\"");
    reveal_strlit("\">\n                        ");
    reveal_strlit("\n                        ");
    reveal_strlit("\n                    </binding>\n                </visual>\n                ");
    reveal_strlit("\n                ");
    reveal_strlit("\n            </toast>");
    reveal_with_fuel(scan_from, 80);
    let s0 = "<toast "@;
    let sp = " "@;
    let s2 = ">\n                <visual>\n                    <binding template=\""@;
    let s3 = "\">\n                        "@;
    let s4 = "\n                        "@;
    let s6 = "\n                    </binding>\n                </visual>\n                "@;
    let s7 = "\n                "@;
    let s8 = "\n            </toast>"@;
    assert(scan(s0, ScanState::Text) == Some(ScanState::InTag));
    assert(scan(sp, ScanState::InTag) == Some(ScanState::InTag));
    assert(scan(s2, ScanState::InTag) == Some(ScanState::InAttr('"')));
    assert(scan(s3, ScanState::InAttr('"')) == Some(ScanState::Text));
    assert(scan(s4, ScanState::Text) == Some(ScanState::Text));
    assert(scan(s6, ScanState::Text) == Some(ScanState::Text));
    assert(scan(s7, ScanState::Text) == Some(ScanState::Text));
    assert(scan(s8, ScanState::Text) == Some(ScanState::Text));
    lemma_scan_binding_template(v);
    lemma_scan_progress_fragment(v.progress);
    lemma_scan_actions_fragment(v.buttons);
    let p1 = s0 + v.duration;
    lemma_scan_append(s0, v.duration, ScanState::Text);
    let p2 = p1 + sp;
    lemma_scan_append(p1, sp, ScanState::Text);
    let p3 = p2 + v.scenario;
    lemma_scan_append(p2, v.scenario, ScanState::Text);
    let p4 = p3 + s2;
    lemma_scan_append(p3, s2, ScanState::Text);
    let p5 = p4 + binding_template(v);
    lemma_scan_append(p4, binding_template(v), ScanState::Text);
    let p6 = p5 + s3;
    lemma_scan_append(p5, s3, ScanState::Text);
    let p7 = p6 + v.images;
    lemma_scan_append(p6, v.images, ScanState::Text);
    let p8 = p7 + s4;
    lemma_scan_append(p7, s4, ScanState::Text);
    let p9 = p8 + v.title;
    lemma_scan_append(p8, v.title, ScanState::Text);
    let p10 = p9 + v.line1;
    lemma_scan_append(p9, v.line1, ScanState::Text);
    let p11 = p10 + v.line2;
    lemma_scan_append(p10, v.line2, ScanState::Text);
    let p12 = p11 + s4;
    lemma_scan_append(p11, s4, ScanState::Text);
    let p13 = p12 + progress_fragment(v.progress);
    lemma_scan_append(p12, progress_fragment(v.progress), ScanState::Text);
    let p14 = p13 + s6;
    lemma_scan_append(p13, s6, ScanState::Text);
    let p15 = p14 + v.audio;
    lemma_scan_append(p14, v.audio, ScanState::Text);
    let p16 = p15 + s7;
    lemma_scan_append(p15, s7, ScanState::Text);
    let p17 = p16 + actions_fragment(v.buttons);
    lemma_scan_append(p16, actions_fragment(v.buttons), ScanState::Text);
    lemma_scan_append(p17, s8, ScanState::Text);
    assert(toast_xml(v) == p17 + s8);
}

} // verus!
