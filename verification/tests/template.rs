use quick_xml::events::Event;
use quick_xml::Reader;
use winrt_notification::{Duration, IconCrop, Progress, Scenario, Sound, Toast};

/// Reads the whole document and panics on the first syntax error.
fn assert_well_formed(xml: &str) {
    let mut reader = Reader::from_str(xml);
    loop {
        match reader.read_event() {
            Ok(Event::Eof) => break,
            Ok(_) => {}
            Err(e) => panic!("malformed document: {e}\n{xml}"),
        }
    }
}

fn count_occurrences(haystack: &str, needle: &str) -> usize {
    haystack.matches(needle).count()
}

#[test]
fn assembled_document_is_well_formed_xml() {
    let progress = Progress {
        tag: "a&b".to_string(),
        title: "t".to_string(),
        status: "s".to_string(),
        value: "0.5".to_string(),
        value_string: "v".to_string(),
    };
    let xml = Toast::new(Toast::POWERSHELL_APP_ID)
        .title("metacharacters & <tags> \"quoted\" 'apostrophes'")
        .text1("unicode ✓ überschrift 日本語")
        .text2("1 < 2 && 3 > 2")
        .icon("C:\\pictures\\a&b.png", IconCrop::Circular, "<icon>")
        .hero("C:\\pictures\\'hero'.png", "\"hero\"")
        .image("C:\\pictures\\c<d>.png", "x & y")
        .duration(Duration::Long)
        .scenario(Scenario::Reminder)
        .sound(Some(Sound::Loop(winrt_notification::LoopableSound::Call2)))
        .progress(&progress)
        .add_button("Yes", "yes")
        .add_button("No", "no")
        .template_xml();
    assert_well_formed(&xml);
}

#[test]
fn legacy_document_is_well_formed_xml() {
    let xml = Toast::new("app")
        .modern_platform(false)
        .title("a & b")
        .image("C:\\img\\<x>.png", "alt \"text\"")
        .sound(None)
        .template_xml();
    assert_well_formed(&xml);
}

#[test]
fn text_is_escaped() {
    let xml = Toast::new("app").title("<&>\"'").template_xml();
    assert!(xml.contains("<text id=\"1\">&lt;&amp;&gt;&quot;&apos;</text>"));
    assert!(!xml.contains("<&>"));
}

#[test]
fn unicode_passes_through_unescaped() {
    let xml = Toast::new("app").text1("✓ 日本語 ü").template_xml();
    assert!(xml.contains("<text id=\"2\">✓ 日本語 ü</text>"));
}

#[test]
fn legacy_image_last_wins() {
    let xml = Toast::new("app")
        .modern_platform(false)
        .image("C:\\first.png", "first")
        .image("C:\\second.png", "second")
        .template_xml();
    assert_eq!(count_occurrences(&xml, "<image"), 1);
    assert!(!xml.contains("first"));
    assert!(xml.contains("src=\"file:///C:\\second.png\" alt=\"second\""));
}

#[test]
fn legacy_icon_and_hero_fall_back_to_image() {
    let legacy_icon = Toast::new("app")
        .modern_platform(false)
        .icon("C:\\p.png", IconCrop::Circular, "alt")
        .template_xml();
    let legacy_hero = Toast::new("app")
        .modern_platform(false)
        .hero("C:\\p.png", "alt")
        .template_xml();
    let legacy_image = Toast::new("app")
        .modern_platform(false)
        .image("C:\\p.png", "alt")
        .template_xml();
    assert_eq!(legacy_icon, legacy_image);
    assert_eq!(legacy_hero, legacy_image);
}

#[test]
fn modern_images_accumulate_in_call_order() {
    let xml = Toast::new("app")
        .icon("C:\\icon.png", IconCrop::Circular, "icon alt")
        .hero("C:\\hero.png", "hero alt")
        .image("C:\\plain.png", "plain alt")
        .template_xml();
    assert_eq!(count_occurrences(&xml, "<image"), 3);
    let icon_at = xml.find("placement=\"appLogoOverride\"").expect("icon element");
    let hero_at = xml.find("placement=\"Hero\"").expect("hero element");
    let plain_at = xml.find("<image id=\"1\"").expect("plain image element");
    assert!(icon_at < hero_at && hero_at < plain_at);
    assert!(xml.contains("hint-crop=\"circle\""));
}

#[test]
fn square_icon_has_no_crop_hint() {
    let xml = Toast::new("app")
        .icon("C:\\icon.png", IconCrop::Square, "alt")
        .template_xml();
    assert!(xml.contains("placement=\"appLogoOverride\""));
    assert!(!xml.contains("hint-crop"));
}

#[test]
fn sound_none_is_silent() {
    let xml = Toast::new("app").sound(None).template_xml();
    assert!(xml.contains("<audio silent=\"true\" />"));
}

#[test]
fn sound_default_emits_nothing() {
    let xml = Toast::new("app").sound(Some(Sound::Default)).template_xml();
    assert!(!xml.contains("<audio"));
}

#[test]
fn sound_loop_alarm2_loops() {
    let xml = Toast::new("app")
        .sound(Some(Sound::Loop(winrt_notification::LoopableSound::Alarm2)))
        .template_xml();
    assert!(xml.contains("loop=\"true\""));
    assert!(xml.contains("Alarm2"));
    assert!(xml.contains(
        "<audio loop=\"true\" src=\"ms-winsoundevent:Notification.Looping.Alarm2\" />"
    ));
}

#[test]
fn sound_single_and_fixed_sounds() {
    let xml = Toast::new("app")
        .sound(Some(Sound::Single(winrt_notification::LoopableSound::Call)))
        .template_xml();
    assert!(xml.contains("<audio src=\"ms-winsoundevent:Notification.Looping.Call\" />"));
    assert!(!xml.contains("loop=\"true\""));

    let xml = Toast::new("app").sound(Some(Sound::SMS)).template_xml();
    assert!(xml.contains("<audio src=\"ms-winsoundevent:Notification.SMS\" />"));
}

#[test]
fn buttons_render_in_order() {
    let xml = Toast::new("app")
        .add_button("Yes", "yes")
        .add_button("No", "no")
        .template_xml();
    assert!(xml.contains(
        "<actions><action content='Yes' arguments='yes'/><action content='No' arguments='no'/></actions>"
    ));
}

#[test]
fn no_buttons_no_actions_block() {
    let xml = Toast::new("app").title("t").template_xml();
    assert!(!xml.contains("<actions>"));
}

#[test]
fn binding_selection() {
    let modern = Toast::new("app").template_xml();
    assert!(modern.contains("template=\"ToastGeneric\""));

    let legacy_plain = Toast::new("app").modern_platform(false).template_xml();
    assert!(legacy_plain.contains("template=\"ToastText04\""));

    let legacy_image = Toast::new("app")
        .modern_platform(false)
        .image("C:\\p.png", "alt")
        .template_xml();
    assert!(legacy_image.contains("template=\"ToastImageAndText04\""));
}

#[test]
fn progress_fragment_only_when_set() {
    let without = Toast::new("app").template_xml();
    assert!(!without.contains("<progress"));

    let progress = Progress {
        tag: "tag".to_string(),
        title: "title".to_string(),
        status: "status".to_string(),
        value: "0".to_string(),
        value_string: "0/10".to_string(),
    };
    let with = Toast::new("app").progress(&progress).template_xml();
    assert!(with.contains("title=\"{progressTitle}\""));
    assert!(with.contains("value=\"{progressValue}\""));
    assert!(with.contains("valueStringOverride=\"{progressValueString}\""));
    assert!(with.contains("status=\"{progressStatus}\""));
}

#[test]
fn exact_document_for_one_configuration() {
    let xml = Toast::new("app")
        .title("Hi")
        .duration(Duration::Short)
        .template_xml();
    let expected = format!(
        r#"<toast {} {}>
                <visual>
                    <binding template="{}">
                        {}
                        {}{}{}
                        {}
                    </binding>
                </visual>
                {}
                {}
            </toast>"#,
        "duration=\"short\"",
        "",
        "ToastGeneric",
        "",
        "<text id=\"1\">Hi</text>",
        "",
        "",
        "",
        "",
        ""
    );
    assert_eq!(xml, expected);
}

#[test]
fn simple_toast() {
    // The original exercise: hero, icon, texts, duration and silence, built
    // and checked as a document instead of being handed to the platform.
    let xml = Toast::new(Toast::POWERSHELL_APP_ID)
        .hero("resources/test/flower.jpeg", "flower")
        .icon("resources/test/chick.jpeg", IconCrop::Circular, "chicken")
        .title("title")
        .text1("line1")
        .text2("line2")
        .duration(Duration::Short)
        .sound(None)
        .template_xml();
    assert_well_formed(&xml);
    assert!(xml.contains("flower"));
    assert!(xml.contains("chicken"));
}
