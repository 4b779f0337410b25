use aircard::panel::{
    apply_task_message, is_pdf_artwork, is_theme_package, status_tone, theme_flash_needs,
    wallet_can_flash, wallet_can_revert, wallet_flash_needs, SavedCardName, StatusTone,
    TaskMessage, TaskView,
};

fn idle_view() -> TaskView {
    TaskView {
        is_busy: true,
        scanning_syslog: true,
        progress_step: 0,
        progress_total: 3,
        progress_msg: String::new(),
        status_msg: "Writing card skin to iPhone...".to_string(),
        card_hash: "old".to_string(),
        card_name_edit: "Old name".to_string(),
    }
}

fn cards() -> Vec<SavedCardName> {
    vec![
        SavedCardName { hash: "abc".into(), name: "Suica".into() },
        SavedCardName { hash: "abc".into(), name: "Second".into() },
        SavedCardName { hash: "xyz".into(), name: "Visa".into() },
    ]
}

#[test]
fn progress_message_updates_progress_and_status() {
    let mut v = idle_view();
    let line = apply_task_message(
        &mut v,
        TaskMessage::Progress { step: 2, total: 12, message: "Syncing".into() },
        &cards(),
    );
    assert_eq!(line, "[2/12] Syncing");
    assert_eq!(v.status_msg, "[2/12] Syncing");
    assert_eq!(v.progress_msg, "Syncing");
    assert_eq!((v.progress_step, v.progress_total), (2, 12));
    assert!(v.is_busy);
}

#[test]
fn log_message_changes_nothing_shown() {
    let mut v = idle_view();
    let line = apply_task_message(&mut v, TaskMessage::Log("hello".into()), &cards());
    assert_eq!(line, "hello");
    assert_eq!(v.status_msg, "Writing card skin to iPhone...");
    assert_eq!(v.card_hash, "old");
}

#[test]
fn found_card_takes_first_saved_name() {
    let mut v = idle_view();
    let line = apply_task_message(
        &mut v,
        TaskMessage::CardFound { hash: "abc".into(), name: "Pass".into() },
        &cards(),
    );
    assert_eq!(line, "Card captured: Pass (abc)");
    assert_eq!(v.status_msg, "Card captured: Pass (abc)");
    assert_eq!(v.card_hash, "abc");
    assert_eq!(v.card_name_edit, "Suica");
}

#[test]
fn found_unknown_card_keeps_name_edit() {
    let mut v = idle_view();
    apply_task_message(
        &mut v,
        TaskMessage::CardFound { hash: "new".into(), name: "Pass".into() },
        &cards(),
    );
    assert_eq!(v.card_hash, "new");
    assert_eq!(v.card_name_edit, "Old name");
}

#[test]
fn done_ok_and_err_end_the_task() {
    let mut v = idle_view();
    let line = apply_task_message(&mut v, TaskMessage::Done(Ok("All good".into())), &cards());
    assert_eq!(line, "Operation completed: All good");
    assert_eq!(v.status_msg, "All good");
    assert!(!v.is_busy && !v.scanning_syslog);
    assert_eq!(status_tone(v.is_busy, v.scanning_syslog, &v.status_msg), StatusTone::Settled);

    let mut v = idle_view();
    let line = apply_task_message(&mut v, TaskMessage::Done(Err("no device".into())), &cards());
    assert_eq!(line, "Operation failed: no device");
    assert_eq!(v.status_msg, "Error: no device");
    assert_eq!(status_tone(v.is_busy, v.scanning_syslog, &v.status_msg), StatusTone::Failed);
}

#[test]
fn status_tone_cases() {
    assert_eq!(status_tone(true, false, "Error: x"), StatusTone::Working);
    assert_eq!(status_tone(false, true, "Ready"), StatusTone::Working);
    assert_eq!(status_tone(false, false, "Failed to parse theme"), StatusTone::Failed);
    assert_eq!(status_tone(false, false, "error lowercase"), StatusTone::Settled);
    assert_eq!(status_tone(false, false, "Ready."), StatusTone::Settled);
}

#[test]
fn wallet_gates_and_needs() {
    assert_eq!(
        wallet_flash_needs(false, "  ", false),
        vec!["connect iPhone", "enter card hash", "choose image"]
    );
    assert_eq!(wallet_flash_needs(true, " abc ", false), vec!["choose image"]);
    assert!(wallet_flash_needs(true, "abc", true).is_empty());
    assert!(wallet_can_flash(false, true, " abc ", true));
    assert!(!wallet_can_flash(true, true, "abc", true));
    assert!(!wallet_can_flash(false, true, "\t\n", true));
    assert!(wallet_can_revert(false, true, "abc"));
    assert!(!wallet_can_revert(false, false, "abc"));
    assert!(!wallet_can_revert(false, true, " "));
}

#[test]
fn theme_needs_in_order() {
    assert_eq!(theme_flash_needs(false, false), vec!["connect iPhone", "select theme"]);
    assert_eq!(theme_flash_needs(true, false), vec!["select theme"]);
    assert!(theme_flash_needs(true, true).is_empty());
}

#[test]
fn artwork_and_package_extensions() {
    assert!(is_pdf_artwork("PDF"));
    assert!(is_pdf_artwork("pdf"));
    assert!(!is_pdf_artwork("png"));
    assert!(!is_pdf_artwork(""));
    assert!(is_theme_package("PassThm"));
    assert!(is_theme_package("ZIP"));
    assert!(!is_theme_package("jpg"));
}
