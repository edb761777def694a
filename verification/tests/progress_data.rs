use winrt_notification::{
    activated_action, dismissal_reason_from_code, update_result_from_code, Duration,
    NotificationUpdateResult, Progress, Toast, ToastDismissalReason, INITIAL_SEQUENCE_NUMBER,
    UPDATE_SEQUENCE_NUMBER,
};

#[test]
fn data_entries_hold_the_four_keys_in_order() {
    let progress = Progress {
        tag: "my_tag".to_string(),
        title: "video.mp4".to_string(),
        status: "Transferring files...".to_string(),
        value: 0.5_f32.to_string(),
        value_string: "500/1000 MB".to_string(),
    };
    let entries = progress.data_entries();
    assert_eq!(entries.len(), 4);
    assert_eq!(entries[0].0, "progressTitle");
    assert_eq!(entries[0].1, "video.mp4");
    assert_eq!(entries[1].0, "progressStatus");
    assert_eq!(entries[1].1, "Transferring files...");
    assert_eq!(entries[2].0, "progressValue");
    assert_eq!(entries[2].1, "0.5");
    assert_eq!(entries[3].0, "progressValueString");
    assert_eq!(entries[3].1, "500/1000 MB");
}

#[test]
fn sequence_numbers() {
    // The first submission carries sequence number 1, a later update 2; the
    // platform takes the higher number as the newer state.
    assert_eq!(INITIAL_SEQUENCE_NUMBER, 1);
    assert_eq!(UPDATE_SEQUENCE_NUMBER, 2);
    assert!(UPDATE_SEQUENCE_NUMBER > INITIAL_SEQUENCE_NUMBER);
}

#[test]
fn update_result_codes() {
    assert_eq!(update_result_from_code(0), NotificationUpdateResult::Succeeded);
    assert_eq!(update_result_from_code(1), NotificationUpdateResult::Failed);
    assert_eq!(
        update_result_from_code(2),
        NotificationUpdateResult::NotificationNotFound
    );
    assert_eq!(update_result_from_code(3), NotificationUpdateResult::Unknown);
    assert_eq!(update_result_from_code(-1), NotificationUpdateResult::Unknown);
}

#[test]
fn dismissal_reason_codes() {
    assert_eq!(
        dismissal_reason_from_code(0),
        Some(ToastDismissalReason::UserCanceled)
    );
    assert_eq!(
        dismissal_reason_from_code(1),
        Some(ToastDismissalReason::ApplicationHidden)
    );
    assert_eq!(
        dismissal_reason_from_code(2),
        Some(ToastDismissalReason::TimedOut)
    );
    assert_eq!(dismissal_reason_from_code(7), None);
}

#[test]
fn activation_argument_absent_when_empty() {
    assert_eq!(activated_action(String::new()), None);
    assert_eq!(activated_action("yes".to_string()), Some("yes".to_string()));
}

#[test]
fn file_transfer_scenario() {
    // The display-and-update exchange, down to what leaves the library: the
    // document shown first with sequence number 1, then the updated data map
    // sent with sequence number 2.
    let mut progress = Progress {
        tag: "t1".to_string(),
        title: String::new(),
        status: "Transferring…".to_string(),
        value: 0.0_f32.to_string(),
        value_string: String::new(),
    };
    let toast = Toast::new(Toast::POWERSHELL_APP_ID)
        .title("File Transfer")
        .text1("Transferring…")
        .duration(Duration::Short)
        .progress(&progress);
    let xml = toast.template_xml();
    assert!(xml.contains("<text id=\"1\">File Transfer</text>"));
    assert!(xml.contains("duration=\"short\""));
    assert!(xml.contains("<progress"));
    assert_eq!(INITIAL_SEQUENCE_NUMBER, 1);

    progress.value = 1.0_f32.to_string();
    progress.status = "Completed".to_string();
    let entries = progress.data_entries();
    assert_eq!(entries[1].1, "Completed");
    assert_eq!(entries[2].1, "1");
    assert_eq!(UPDATE_SEQUENCE_NUMBER, 2);
    assert_eq!(toast.app_id(), Toast::POWERSHELL_APP_ID);
}
