//! The toast builder and its template assembly.
//!
//! A [`Toast`] accumulates XML fragments across chained configuration calls;
//! [`Toast::template_xml`] combines them into the one document that the
//! platform's notification manager loads.  Each configuration method states
//! exactly which fragment it stores, over the abstract value [`ToastView`],
//! and the assembly states the exact document text.
//!
//! The document grammar differs between platform generations: the modern
//! branch uses the generic binding and keeps every image, the legacy branch
//! knows only a single image and simpler bindings.  The branch is a plain
//! field of the builder, set once from the platform's version query.

use vstd::prelude::*;

use crate::escape::escaped;
use crate::escape::xml_escape;
use crate::progress::Progress;
use crate::progress::ProgressView;
use crate::sound::loopable_sound_name;
use crate::sound::sound_name;
use crate::sound::Sound;

verus! {

/// How long the platform keeps the toast on screen: roughly seven seconds
/// for `Short`, roughly twenty-five for `Long` (enforced by the platform,
/// not measured here).
#[derive(Debug, Clone, Copy, PartialEq, Eq, Structural)]
pub enum Duration {
    /// 7 seconds
    Short,
    /// 25 seconds
    Long,
}

/// How the icon image is cropped.
#[derive(Debug, Clone, Copy, PartialEq, Eq, Structural)]
pub enum IconCrop {
    Square,
    Circular,
}

/// The scenario of the toast.  Alarm, reminder and incoming-call toasts stay
/// on screen until the user acts, and the platform picks matching audio.
#[derive(Debug, Clone, Copy, PartialEq, Eq, Structural)]
pub enum Scenario {
    /// The normal toast behavior.
    Default,
    /// Displayed pre-expanded, stays until dismissed, alarm audio.
    Alarm,
    /// Displayed pre-expanded, stays until dismissed.
    Reminder,
    /// Displayed pre-expanded in call format, ringtone audio.
    IncomingCall,
}

/// A button on the toast: its label and the argument string handed to the
/// activation callback when it is clicked.
pub struct Button {
    pub content: String,
    pub action: String,
}

/// The abstract value of a [`Button`].
#[verifier::ext_equal]
pub ghost struct ButtonView {
    pub content: Seq<char>,
    pub action: Seq<char>,
}

impl View for Button {
    type V = ButtonView;

    open spec fn view(&self) -> ButtonView {
        ButtonView { content: self.content@, action: self.action@ }
    }
}

/// The toast builder.  Every field defaults to absent (an empty fragment or
/// `None`), and absent fields leave no trace in the assembled document.
pub struct Toast {
    duration: String,
    title: String,
    line1: String,
    line2: String,
    images: String,
    audio: String,
    app_id: String,
    progress: Option<Progress>,
    scenario: String,
    buttons: Vec<Button>,
    modern: bool,
}

/// The abstract value of a [`Toast`]: the stored fragments as character
/// sequences, the progress snapshot, the buttons in declaration order, and
/// the platform branch.
#[verifier::ext_equal]
pub ghost struct ToastView {
    pub duration: Seq<char>,
    pub title: Seq<char>,
    pub line1: Seq<char>,
    pub line2: Seq<char>,
    pub images: Seq<char>,
    pub audio: Seq<char>,
    pub app_id: Seq<char>,
    pub progress: Option<ProgressView>,
    pub scenario: Seq<char>,
    pub buttons: Seq<ButtonView>,
    pub modern: bool,
}

impl View for Toast {
    type V = ToastView;

    closed spec fn view(&self) -> ToastView {
        ToastView {
            duration: self.duration@,
            title: self.title@,
            line1: self.line1@,
            line2: self.line2@,
            images: self.images@,
            audio: self.audio@,
            app_id: self.app_id@,
            progress: match self.progress {
                Some(p) => Some(p@),
                None => None,
            },
            scenario: self.scenario@,
            buttons: self.buttons@.map_values(|b: Button| b@),
            modern: self.modern,
        }
    }
}

/// A fresh builder: every field absent, the modern platform branch assumed.
pub open spec fn new_toast_view(app_id: Seq<char>) -> ToastView {
    ToastView {
        duration: Seq::empty(),
        title: Seq::empty(),
        line1: Seq::empty(),
        line2: Seq::empty(),
        images: Seq::empty(),
        audio: Seq::empty(),
        app_id: app_id,
        progress: None,
        scenario: Seq::empty(),
        buttons: Seq::empty(),
        modern: true,
    }
}

/// The title fragment: the escaped text wrapped in the text element with id 1.
pub open spec fn title_fragment(content: Seq<char>) -> Seq<char> {
    "<text id=\"1\">"@ + escaped(content) + "</text>"@
}

/// The first body line: the escaped text in the text element with id 2.
pub open spec fn line1_fragment(content: Seq<char>) -> Seq<char> {
    "<text id=\"2\">"@ + escaped(content) + "</text>"@
}

/// The second body line: the escaped text in the text element with id 3.
pub open spec fn line2_fragment(content: Seq<char>) -> Seq<char> {
    "<text id=\"3\">"@ + escaped(content) + "</text>"@
}

/// The duration attribute of the toast element.
pub open spec fn duration_fragment(duration: Duration) -> Seq<char> {
    match duration {
        Duration::Long => "duration=\"long\""@,
        Duration::Short => "duration=\"short\""@,
    }
}

/// The scenario attribute of the toast element; the default scenario leaves
/// no attribute.
pub open spec fn scenario_fragment(scenario: Scenario) -> Seq<char> {
    match scenario {
        Scenario::Default => Seq::empty(),
        Scenario::Alarm => "scenario=\"alarm\""@,
        Scenario::Reminder => "scenario=\"reminder\""@,
        Scenario::IncomingCall => "scenario=\"incomingCall\""@,
    }
}

/// The crop hint of the icon image: an attribute for the circular crop,
/// nothing for the square one.
pub open spec fn icon_crop_attr(crop: IconCrop) -> Seq<char> {
    match crop {
        IconCrop::Square => Seq::empty(),
        IconCrop::Circular => "hint-crop=\"circle\""@,
    }
}

/// The image element an icon call emits on the modern branch: placed over
/// the app logo, source and alt text escaped.
pub open spec fn icon_piece(crop: IconCrop, source: Seq<char>, alt_text: Seq<char>) -> Seq<char> {
    "<image placement=\"appLogoOverride\" "@ + icon_crop_attr(crop) + " src=\"file:///"@ + escaped(
        source,
    ) + "\" alt=\""@ + escaped(alt_text) + "\" />"@
}

/// The image element a hero call emits on the modern branch.
pub open spec fn hero_piece(source: Seq<char>, alt_text: Seq<char>) -> Seq<char> {
    "<image placement=\"Hero\" src=\"file:///"@ + escaped(source) + "\" alt=\""@ + escaped(
        alt_text,
    ) + "\" />"@
}

/// The plain image element.
pub open spec fn image_piece(source: Seq<char>, alt_text: Seq<char>) -> Seq<char> {
    "<image id=\"1\" src=\"file:///"@ + escaped(source) + "\" alt=\""@ + escaped(alt_text)
        + "\" />"@
}

/// What an image call stores: on the modern branch the new element joins the
/// accumulated ones; the legacy binding shows nothing when it is handed more
/// than one image, so there the new element replaces them.
pub open spec fn with_image(v: ToastView, source: Seq<char>, alt_text: Seq<char>) -> ToastView {
    ToastView {
        images: if v.modern {
            v.images + image_piece(source, alt_text)
        } else {
            image_piece(source, alt_text)
        },
        ..v
    }
}

/// What an icon call stores: the app-logo image element on the modern
/// branch; the legacy binding rejects that element, so there the call falls
/// back to the plain image path.
pub open spec fn with_icon(
    v: ToastView,
    source: Seq<char>,
    crop: IconCrop,
    alt_text: Seq<char>,
) -> ToastView {
    if v.modern {
        ToastView { images: v.images + icon_piece(crop, source, alt_text), ..v }
    } else {
        with_image(v, source, alt_text)
    }
}

/// What a hero call stores: the hero image element on the modern branch; the
/// legacy binding rejects it, so there the call falls back to the plain
/// image path.
pub open spec fn with_hero(v: ToastView, source: Seq<char>, alt_text: Seq<char>) -> ToastView {
    if v.modern {
        ToastView { images: v.images + hero_piece(source, alt_text), ..v }
    } else {
        with_image(v, source, alt_text)
    }
}

/// The audio fragment: silence when no sound is wanted, nothing for the
/// system default, otherwise an audio element naming the chosen sound, with
/// the loop attribute when it repeats.
pub open spec fn audio_fragment(src: Option<Sound>) -> Seq<char> {
    match src {
        None => "<audio silent=\"true\" />"@,
        Some(Sound::Default) => Seq::empty(),
        Some(Sound::Loop(l)) => "<audio loop=\"true\" src=\"ms-winsoundevent:Notification.Looping."@
            + loopable_sound_name(l) + "\" />"@,
        Some(Sound::Single(l)) => "<audio src=\"ms-winsoundevent:Notification.Looping."@
            + loopable_sound_name(l) + "\" />"@,
        Some(s) => "<audio src=\"ms-winsoundevent:Notification."@ + sound_name(s) + "\" />"@,
    }
}

/// The action element of one button.  Button texts are embedded as given;
/// only the text and image methods escape their input.
pub open spec fn button_fragment(b: ButtonView) -> Seq<char> {
    "<action content='"@ + b.content + "' arguments='"@ + b.action + "'/>"@
}

/// The concatenated action elements of the buttons, in declaration order.
pub open spec fn buttons_body(bs: Seq<ButtonView>) -> Seq<char>
    decreases bs.len(),
{
    if bs.len() == 0 {
        Seq::empty()
    } else {
        buttons_body(bs.drop_last()) + button_fragment(bs.last())
    }
}

/// The actions block: the buttons' action elements inside an actions
/// wrapper, present only when at least one button exists.
pub open spec fn actions_fragment(bs: Seq<ButtonView>) -> Seq<char> {
    if bs.len() == 0 {
        Seq::empty()
    } else {
        "<actions>"@ + buttons_body(bs) + "</actions>"@
    }
}

/// The binding template the document selects: the generic one on the modern
/// branch; the legacy branch picks between its text-only and its image
/// binding, since an image binding without an image shows an empty
/// placeholder.
pub open spec fn binding_template(v: ToastView) -> Seq<char> {
    if v.modern {
        "ToastGeneric"@
    } else if v.images.len() == 0 {
        "ToastText04"@
    } else {
        "ToastImageAndText04"@
    }
}

/// The progress element: a fixed fragment whose placeholders the platform
/// binds to the progress data map, present only when a progress snapshot was
/// set.  It is written as one line per attribute.
pub open spec fn progress_fragment(progress: Option<ProgressView>) -> Seq<char> {
    if progress is Some {
        "<progress\n                title=\"{progressTitle}\""@
            + "\n                value=\"{progressValue}\""@
            + "\n                valueStringOverride=\"{progressValueString}\""@
            + "\n                status=\"{progressStatus}\"/>"@
    } else {
        Seq::empty()
    }
}

/// The assembled toast document: the stored fragments in their fixed order —
/// images, title, first line, second line, progress, audio, actions — nested
/// in the selected binding inside a visual element inside the toast root.
pub open spec fn toast_xml(v: ToastView) -> Seq<char> {
    "<toast "@ + v.duration + " "@ + v.scenario
        + ">\n                <visual>\n                    <binding template=\""@
        + binding_template(v) + "\">\n                        "@ + v.images
        + "\n                        "@ + v.title + v.line1 + v.line2 + "\n                        "@
        + progress_fragment(v.progress)
        + "\n                    </binding>\n                </visual>\n                "@ + v.audio
        + "\n                "@ + actions_fragment(v.buttons) + "\n            </toast>"@
}

impl Toast {
    /// This app id can be used if you do not have an AppUserModelID; the
    /// toast then erroneously reports its origin as powershell.
    pub const POWERSHELL_APP_ID: &'static str =
        "{1AC14E77-02E7-4E5D-B744-2EB1AE5198B7}\\WindowsPowerShell\\v1.0\\powershell.exe";

    /// A fresh builder for the application with the given AppUserModelID.
    /// Every field starts absent and the modern platform branch is assumed;
    /// [`Toast::modern_platform`] selects the branch explicitly.
    pub fn new(app_id: &str) -> (t: Toast)
        ensures
            t@ == new_toast_view(app_id@),
    {
        let t = Toast {
            duration: String::new(),
            title: String::new(),
            line1: String::new(),
            line2: String::new(),
            images: String::new(),
            audio: String::new(),
            app_id: String::from_str(app_id),
            progress: None,
            scenario: String::new(),
            buttons: Vec::new(),
            modern: true,
        };
        proof {
            assert(t@.buttons =~= Seq::<ButtonView>::empty());
            assert(t@ =~= new_toast_view(app_id@));
        }
        t
    }

    /// Selects the platform branch: the modern document grammar when the
    /// platform is newer than the legacy generation, the legacy grammar
    /// otherwise.
    pub fn modern_platform(self, modern: bool) -> (t: Toast)
        ensures
            t@ == (ToastView { modern, ..self@ }),
    {
        let t = Toast { modern, ..self };
        proof {
            assert(t@ =~= (ToastView { modern, ..self@ }));
        }
        t
    }

    /// Sets the title of the toast.  The text is escaped; Unicode passes
    /// through untouched.
    pub fn title(self, content: &str) -> (t: Toast)
        ensures
            t@ == (ToastView { title: title_fragment(content@), ..self@ }),
    {
        let mut s = String::from_str("<text id=\"1\">");
        s.append(xml_escape(content).as_str());
        s.append("</text>");
        let t = Toast { title: s, ..self };
        proof {
            assert(t@ =~= (ToastView { title: title_fragment(content@), ..self@ }));
        }
        t
    }

    /// Sets the first line of text below the title.  The text is escaped;
    /// Unicode passes through untouched.
    pub fn text1(self, content: &str) -> (t: Toast)
        ensures
            t@ == (ToastView { line1: line1_fragment(content@), ..self@ }),
    {
        let mut s = String::from_str("<text id=\"2\">");
        s.append(xml_escape(content).as_str());
        s.append("</text>");
        let t = Toast { line1: s, ..self };
        proof {
            assert(t@ =~= (ToastView { line1: line1_fragment(content@), ..self@ }));
        }
        t
    }

    /// Sets the second line of text below the title.  The text is escaped;
    /// Unicode passes through untouched.
    pub fn text2(self, content: &str) -> (t: Toast)
        ensures
            t@ == (ToastView { line2: line2_fragment(content@), ..self@ }),
    {
        let mut s = String::from_str("<text id=\"3\">");
        s.append(xml_escape(content).as_str());
        s.append("</text>");
        let t = Toast { line2: s, ..self };
        proof {
            assert(t@ =~= (ToastView { line2: line2_fragment(content@), ..self@ }));
        }
        t
    }

    /// Sets the length of time to show the toast.
    pub fn duration(self, duration: Duration) -> (t: Toast)
        ensures
            t@ == (ToastView { duration: duration_fragment(duration), ..self@ }),
    {
        let s = match duration {
            Duration::Long => String::from_str("duration=\"long\""),
            Duration::Short => String::from_str("duration=\"short\""),
        };
        let t = Toast { duration: s, ..self };
        proof {
            assert(t@ =~= (ToastView { duration: duration_fragment(duration), ..self@ }));
        }
        t
    }

    /// Sets the scenario of the toast.
    pub fn scenario(self, scenario: Scenario) -> (t: Toast)
        ensures
            t@ == (ToastView { scenario: scenario_fragment(scenario), ..self@ }),
    {
        let s = match scenario {
            Scenario::Default => String::new(),
            Scenario::Alarm => String::from_str("scenario=\"alarm\""),
            Scenario::Reminder => String::from_str("scenario=\"reminder\""),
            Scenario::IncomingCall => String::from_str("scenario=\"incomingCall\""),
        };
        let t = Toast { scenario: s, ..self };
        proof {
            assert(t@ =~= (ToastView { scenario: scenario_fragment(scenario), ..self@ }));
        }
        t
    }

    /// Sets the icon shown in the upper left of the toast.  On the legacy
    /// branch the icon element is rejected by the platform, so the call
    /// falls back to the plain image path.
    pub fn icon(self, source: &str, crop: IconCrop, alt_text: &str) -> (t: Toast)
        ensures
            t@ == with_icon(self@, source@, crop, alt_text@),
    {
        if self.modern {
            let mut s = String::new();
            s.append(self.images.as_str());
            s.append("<image placement=\"appLogoOverride\" ");
            match crop {
                IconCrop::Square => {},
                IconCrop::Circular => {
                    s.append("hint-crop=\"circle\"");
                },
            }
            s.append(" src=\"file:///");
            s.append(xml_escape(source).as_str());
            s.append("\" alt=\"");
            s.append(xml_escape(alt_text).as_str());
            s.append("\" />");
            let ghost pre = self@;
            let t = Toast { images: s, ..self };
            proof {
                assert(t@ =~= with_icon(pre, source@, crop, alt_text@));
            }
            t
        } else {
            self.image(source, alt_text)
        }
    }

    /// Adds a hero image, shown above the toast text and the icon.  On the
    /// legacy branch the hero element is rejected by the platform, so the
    /// call falls back to the plain image path.
    pub fn hero(self, source: &str, alt_text: &str) -> (t: Toast)
        ensures
            t@ == with_hero(self@, source@, alt_text@),
    {
        if self.modern {
            let mut s = String::new();
            s.append(self.images.as_str());
            s.append("<image placement=\"Hero\" src=\"file:///");
            s.append(xml_escape(source).as_str());
            s.append("\" alt=\"");
            s.append(xml_escape(alt_text).as_str());
            s.append("\" />");
            let ghost pre = self@;
            let t = Toast { images: s, ..self };
            proof {
                assert(t@ =~= with_hero(pre, source@, alt_text@));
            }
            t
        } else {
            self.image(source, alt_text)
        }
    }

    /// Adds an image, shown below the text.  On the modern branch this may
    /// be done many times; the legacy binding shows nothing when handed more
    /// than one image, so there the new image replaces any earlier one.
    pub fn image(self, source: &str, alt_text: &str) -> (t: Toast)
        ensures
            t@ == with_image(self@, source@, alt_text@),
    {
        let mut s = String::new();
        if self.modern {
            s.append(self.images.as_str());
        }
        s.append("<image id=\"1\" src=\"file:///");
        s.append(xml_escape(source).as_str());
        s.append("\" alt=\"");
        s.append(xml_escape(alt_text).as_str());
        s.append("\" />");
        let ghost pre = self@;
        let t = Toast { images: s, ..self };
        proof {
            assert(t@ =~= with_image(pre, source@, alt_text@));
        }
        t
    }

    /// Sets the sound for the toast, or silences it.
    pub fn sound(self, src: Option<Sound>) -> (t: Toast)
        ensures
            t@ == (ToastView { audio: audio_fragment(src), ..self@ }),
    {
        let s = match src {
            None => String::from_str("<audio silent=\"true\" />"),
            Some(Sound::Default) => String::new(),
            Some(Sound::Loop(l)) => {
                let mut s = String::from_str(
                    "<audio loop=\"true\" src=\"ms-winsoundevent:Notification.Looping.",
                );
                s.append(l.name().as_str());
                s.append("\" />");
                s
            },
            Some(Sound::Single(l)) => {
                let mut s = String::from_str(
                    "<audio src=\"ms-winsoundevent:Notification.Looping.",
                );
                s.append(l.name().as_str());
                s.append("\" />");
                s
            },
            Some(sound) => {
                let mut s = String::from_str("<audio src=\"ms-winsoundevent:Notification.");
                s.append(sound.name().as_str());
                s.append("\" />");
                s
            },
        };
        let t = Toast { audio: s, ..self };
        proof {
            assert(t@ =~= (ToastView { audio: audio_fragment(src), ..self@ }));
        }
        t
    }

    /// Appends a button.  `content` is the button's text; `action` is handed
    /// to the activation callback when the button is clicked.
    pub fn add_button(self, content: &str, action: &str) -> (t: Toast)
        ensures
            t@ == (ToastView {
                buttons: self@.buttons.push(
                    ButtonView { content: content@, action: action@ },
                ),
                ..self@
            }),
    {
        let ghost pre = self@;
        let mut t = self;
        t.buttons.push(
            Button { content: String::from_str(content), action: String::from_str(action) },
        );
        proof {
            assert(t@ =~= (ToastView {
                buttons: pre.buttons.push(ButtonView { content: content@, action: action@ }),
                ..pre
            }));
        }
        t
    }

    /// Snapshots the given progress record for inclusion at display time.
    pub fn progress(self, progress: &Progress) -> (t: Toast)
        ensures
            t@ == (ToastView { progress: Some(progress@), ..self@ }),
    {
        let t = Toast { progress: Some(progress.clone()), ..self };
        proof {
            assert(t@ =~= (ToastView { progress: Some(progress@), ..self@ }));
        }
        t
    }

    /// The app id the builder was made with.
    pub fn app_id(&self) -> (r: &str)
        ensures
            r@ == self@.app_id,
    {
        self.app_id.as_str()
    }

    /// The progress record snapshotted for display, if one was set.
    pub fn progress_snapshot(&self) -> (r: Option<&Progress>)
        ensures
            match r {
                Some(p) => self@.progress == Some(p@),
                None => self@.progress is None,
            },
    {
        match &self.progress {
            Some(p) => Some(p),
            None => None,
        }
    }

    /// Assembles the toast document from the stored fragments: the exact
    /// text of [`toast_xml`].  The assembly is deterministic and may be run
    /// any number of times.
    pub fn template_xml(&self) -> (xml: String)
        ensures
            xml@ == toast_xml(self@),
    {
        let binding: &str = if self.modern {
            "ToastGeneric"
        } else if self.images.as_str().is_empty() {
            "ToastText04"
        } else {
            "ToastImageAndText04"
        };

        let mut progress_frag = String::new();
        match &self.progress {
            Some(_) => {
                progress_frag.append("<progress\n                title=\"{progressTitle}\"");
                progress_frag.append("\n                value=\"{progressValue}\"");
                progress_frag.append("\n                valueStringOverride=\"{progressValueString}\"");
                progress_frag.append("\n                status=\"{progressStatus}\"/>");
            },
            None => {},
        }
        proof {
            assert(progress_frag@ =~= progress_fragment(self@.progress));
        }

        let actions = self.actions_block();

        let mut xml = String::from_str("<toast ");
        xml.append(self.duration.as_str());
        xml.append(" ");
        xml.append(self.scenario.as_str());
        xml.append(">\n                <visual>\n                    <binding template=\"");
        xml.append(binding);
        xml.append("\">\n                        ");
        xml.append(self.images.as_str());
        xml.append("\n                        ");
        xml.append(self.title.as_str());
        xml.append(self.line1.as_str());
        xml.append(self.line2.as_str());
        xml.append("\n                        ");
        xml.append(progress_frag.as_str());
        xml.append("\n                    </binding>\n                </visual>\n                ");
        xml.append(self.audio.as_str());
        xml.append("\n                ");
        xml.append(actions.as_str());
        xml.append("\n            </toast>");
        xml
    }

    /// The actions block of the document: empty without buttons, otherwise
    /// the action elements in declaration order inside the actions wrapper.
    fn actions_block(&self) -> (actions: String)
        ensures
            actions@ == actions_fragment(self@.buttons),
    {
        let mut actions = String::new();
        if self.buttons.len() > 0 {
            actions.append("<actions>");
            proof {
                assert(self@.buttons.take(0) =~= Seq::<ButtonView>::empty());
                assert(actions@ =~= "<actions>"@ + buttons_body(self@.buttons.take(0)));
            }
            let n = self.buttons.len();
            let mut i: usize = 0;
            while i < n
                invariant
                    n == self.buttons@.len(),
                    self@.buttons.len() == n,
                    0 <= i <= n,
                    actions@ == "<actions>"@ + buttons_body(self@.buttons.take(i as int)),
                decreases n - i,
            {
                let b = &self.buttons[i];
                let mut frag = String::from_str("<action content='");
                frag.append(b.content.as_str());
                frag.append("' arguments='");
                frag.append(b.action.as_str());
                frag.append("'/>");
                proof {
                    assert(frag@ == button_fragment(self@.buttons[i as int]));
                }
                actions.append(frag.as_str());
                proof {
                    let bs = self@.buttons;
                    assert(bs.take(i as int + 1).drop_last() =~= bs.take(i as int));
                    assert(bs.take(i as int + 1).last() == bs[i as int]);
                    assert(actions@ =~= "<actions>"@ + buttons_body(bs.take(i as int + 1)));
                }
                i += 1;
            }
            proof {
                assert(self@.buttons.take(n as int) =~= self@.buttons);
            }
            actions.append("</actions>");
        }
        actions
    }
}

/// The legacy branch keeps a single image: a second image call replaces what
/// the first stored, so exactly the second call's element stands in the
/// document.  This mirrors a platform limitation, not a defect: the legacy
/// binding renders nothing when handed more than one image.
pub proof fn lemma_legacy_image_last_wins(
    v: ToastView,
    source1: Seq<char>,
    alt1: Seq<char>,
    source2: Seq<char>,
    alt2: Seq<char>,
)
    requires
        !v.modern,
    ensures
        with_image(with_image(v, source1, alt1), source2, alt2) == with_image(v, source2, alt2),
        with_image(with_image(v, source1, alt1), source2, alt2).images == image_piece(
            source2,
            alt2,
        ),
{
    assert(with_image(with_image(v, source1, alt1), source2, alt2) =~= with_image(
        v,
        source2,
        alt2,
    ));
}

/// On the legacy branch an icon call stores exactly what the equivalent
/// image call would: the crop hint plays no part there.
pub proof fn lemma_legacy_icon_is_image(
    v: ToastView,
    source: Seq<char>,
    crop: IconCrop,
    alt_text: Seq<char>,
)
    requires
        !v.modern,
    ensures
        with_icon(v, source, crop, alt_text) == with_image(v, source, alt_text),
{
}

/// On the legacy branch a hero call stores exactly what the equivalent image
/// call would.
pub proof fn lemma_legacy_hero_is_image(v: ToastView, source: Seq<char>, alt_text: Seq<char>)
    requires
        !v.modern,
    ensures
        with_hero(v, source, alt_text) == with_image(v, source, alt_text),
{
}

/// On the modern branch an icon, a hero and an image call accumulate their
/// three image elements in call order: the icon element placed over the app
/// logo (with the circle crop hint when asked for), then the hero element,
/// then the plain image element.
pub proof fn lemma_modern_images_accumulate(
    v: ToastView,
    source1: Seq<char>,
    crop: IconCrop,
    alt1: Seq<char>,
    source2: Seq<char>,
    alt2: Seq<char>,
    source3: Seq<char>,
    alt3: Seq<char>,
)
    requires
        v.modern,
    ensures
        with_image(with_hero(with_icon(v, source1, crop, alt1), source2, alt2), source3, alt3).images
            == v.images + icon_piece(crop, source1, alt1) + hero_piece(source2, alt2)
            + image_piece(source3, alt3),
{
}

/// Two buttons render as an actions block holding exactly their two action
/// elements, in the order the buttons were added.
pub proof fn lemma_actions_two_buttons(b1: ButtonView, b2: ButtonView)
    ensures
        actions_fragment(seq![b1, b2]) == "<actions>"@ + button_fragment(b1) + button_fragment(b2)
            + "</actions>"@,
{
    let bs = seq![b1, b2];
    assert(bs.drop_last() =~= seq![b1]);
    assert(seq![b1].drop_last() =~= Seq::<ButtonView>::empty());
    assert(seq![b1].last() == b1);
    assert(bs.last() == b2);
    assert(buttons_body(Seq::<ButtonView>::empty()) == Seq::<char>::empty());
    assert(buttons_body(seq![b1]) == buttons_body(Seq::<ButtonView>::empty()) + button_fragment(
        b1,
    ));
    assert(buttons_body(seq![b1]) =~= button_fragment(b1));
    assert(buttons_body(bs) =~= button_fragment(b1) + button_fragment(b2));
    assert(actions_fragment(bs) =~= "<actions>"@ + button_fragment(b1) + button_fragment(b2)
        + "</actions>"@);
}

} // verus!

