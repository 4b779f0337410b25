use aircard::airtraffic::{
    asset_completions, handshake_failure_text, host_info, missing_asset_text, sync_request,
    HandshakeStage, PlistScalar, HOST_GRAPPA,
};
use aircard::batch::{batch_begin, batch_next, write_begin, write_next, BatchAction, BatchEnd, BatchPhase};
use aircard::sync_plist::{
    error_code_from_plist, host_info_bytes, manifest_downloads, metadata_sync_bytes,
    ready_failure_text, sync_request_bytes, ManifestError,
};
use aircard::flash_run::{
    flash_begin, flash_next, passcode_intro_line, wallet_intro_lines, FlashAction, FlashKind,
    FlashPhase,
};
use aircard::flasher::{
    finish_export, invalidation_step, remove_system_files, write_system_files_batch, ExportOutcome,
    FlashError, WalletArt,
};
use aircard::image_skin::png_2x_from_3x;
use aircard::keypad::slice_poster;
use aircard::image_skin::RgbaBuffer;
use aircard::panel::theme_can_flash;
use aircard::wallet_backup::BackupError;

fn items(n: usize) -> Vec<(String, String, Vec<u8>)> {
    (0..n).map(|i| ("/d".to_string(), format!("f{i}"), vec![1])).collect()
}

#[test]
fn flash_error_messages() {
    assert_eq!(FlashError::NotPlainFileName.message("x", 0), "leaf must be a plain file name");
    assert_eq!(FlashError::NotPlainCacheNames.message("x", 0), "cache leaves must be plain file names");
    assert_eq!(
        FlashError::InvalidExportSize.message("a.png", 0),
        "a.png export size 0 is invalid; leaving Media copy"
    );
    assert_eq!(FlashError::EmptyExport.message("a.png", 9), "exported a.png was empty; leaving Media copy");
    assert_eq!(
        FlashError::NothingCaptured.message("", 0),
        "Could not export any original artwork. Save before the first skin, keep the phone unlocked."
    );
}

#[test]
fn backup_error_messages() {
    assert_eq!(BackupError::UnsupportedAsset.message("x.png"), "unsupported original asset x.png");
    assert_eq!(
        BackupError::NoBackup.message("x.png"),
        "No original artwork backup for this card. Save original before flashing."
    );
}

#[test]
fn export_ends_by_what_the_device_answered() {
    let r = finish_export("a.png", false, 0, None);
    assert_eq!(r.result, Ok(None));
    assert_eq!(r.outcome, ExportOutcome::NotPresent);
    assert_eq!(r.note.as_deref(), Some("a.png not present on device"));
    assert!(r.cleanup.remove_recovered && !r.cleanup.write_back);

    let r = finish_export("a.png", true, 33554433, None);
    assert_eq!(r.result, Err("a.png export size 33554433 is invalid; leaving Media copy".to_string()));
    assert_eq!(r.outcome, ExportOutcome::FailedKeepingCopy);
    assert!(!r.cleanup.remove_recovered && !r.cleanup.remove_source);

    let r = finish_export("a.png", true, 3, Some(Ok(vec![1, 2, 3])));
    assert_eq!(r.result, Ok(Some(vec![1, 2, 3])));
    assert_eq!(r.outcome, ExportOutcome::Read);
    assert!(r.cleanup.write_back && r.note.is_none());

    let r = finish_export("a.png", true, 3, Some(Ok(vec![])));
    assert_eq!(r.result, Err("exported a.png was empty; leaving Media copy".to_string()));
    assert_eq!(r.outcome, ExportOutcome::FailedKeepingCopy);

    let r = finish_export("a.png", true, 3, Some(Err(())));
    assert_eq!(r.result, Err("AFC read of exported original art failed".to_string()));
    assert_eq!(r.outcome, ExportOutcome::Failed);
}

#[test]
fn batch_steps_stage_sync_and_clean_up() {
    let all = items(10);
    let plans = write_system_files_batch(&all);
    let plan = &plans[1];
    let leaves: Vec<String> = all[plan.start..plan.start + plan.len].iter().map(|i| i.1.clone()).collect();
    let (run, action) = batch_begin(plan, &leaves);
    match action {
        BatchAction::Stage { index, step, total, message } => {
            assert_eq!((index, step, total), (0, 9, 12));
            assert_eq!(message, "Staging f8 (group 2/2)...");
        }
        _ => panic!("expected staging"),
    }
    let (run, action) = batch_next(plan, &leaves, run, true);
    assert!(matches!(action, BatchAction::Stage { index: 1, step: 10, .. }));
    let (run, action) = batch_next(plan, &leaves, run, true);
    assert!(matches!(action, BatchAction::WritePlist));
    let (run, action) = batch_next(plan, &leaves, run, true);
    match action {
        BatchAction::Sync { step, total, message } => {
            assert_eq!((step, total), (11, 12));
            assert_eq!(message, "Synchronizing 2 file(s) (group 2/2)...");
        }
        _ => panic!("expected sync"),
    }
    let (run, action) = batch_next(plan, &leaves, run, true);
    assert!(matches!(action, BatchAction::CleanUp { staged: 2 }));
    let (run, action) = batch_next(plan, &leaves, run, true);
    match action {
        BatchAction::Finish(BatchEnd::Written(lines)) => {
            assert_eq!(lines, vec!["Successfully written: f8", "Successfully written: f9"]);
        }
        _ => panic!("expected success"),
    }
    assert_eq!(run.phase, BatchPhase::Done);
    assert!(matches!(batch_next(plan, &leaves, run, true).1, BatchAction::Stop));
}

#[test]
fn failed_staging_cleans_up_only_staged_files() {
    let all = items(3);
    let plan = &write_system_files_batch(&all)[0];
    let leaves: Vec<String> = all.iter().map(|i| i.1.clone()).collect();
    let (run, _) = batch_begin(plan, &leaves);
    let (run, _) = batch_next(plan, &leaves, run, true);
    let (run, action) = batch_next(plan, &leaves, run, false);
    assert!(matches!(action, BatchAction::CleanUp { staged: 1 }));
    let (_, action) = batch_next(plan, &leaves, run, true);
    assert!(matches!(action, BatchAction::Finish(BatchEnd::WriteFailed)));

    let (run, _) = batch_begin(plan, &leaves);
    let (run, _) = batch_next(plan, &leaves, run, true);
    let (run, _) = batch_next(plan, &leaves, run, true);
    let (run, _) = batch_next(plan, &leaves, run, true);
    let (run, _) = batch_next(plan, &leaves, run, true);
    let (run, action) = batch_next(plan, &leaves, run, true);
    assert!(matches!(action, BatchAction::CleanUp { staged: 3 }));
    let (_, action) = batch_next(plan, &leaves, run, false);
    assert!(matches!(action, BatchAction::Finish(BatchEnd::RestoreFailed)));
}

#[test]
fn wallet_flash_order() {
    let kind = FlashKind::WalletSkin { png: true };
    let (phase, action) = flash_begin(kind, 2, 9);
    assert!(matches!(action, FlashAction::WriteBatch(0)));
    let (phase, action) = flash_next(kind, 2, 9, phase, true);
    assert!(matches!(action, FlashAction::WriteBatch(1)));
    let (phase, action) = flash_next(kind, 2, 9, phase, true);
    assert!(matches!(action, FlashAction::InvalidateCache));
    let (phase, action) = flash_next(kind, 2, 9, phase, true);
    match action {
        FlashAction::Finish { remember_png, progress, log } => {
            assert!(remember_png);
            assert_eq!(progress, Some((10, 10, "Card skin updated successfully!".to_string())));
            assert_eq!(log, "Card skin write finished! Close and reopen Wallet on iPhone to view.");
        }
        _ => panic!("expected finish"),
    }
    assert_eq!(phase, FlashPhase::Done);
}

#[test]
fn failed_batch_stops_the_flash() {
    let kind = FlashKind::WalletSkin { png: true };
    let (phase, _) = flash_begin(kind, 2, 9);
    let (phase, action) = flash_next(kind, 2, 9, phase, false);
    match action {
        FlashAction::Fail { context } => assert_eq!(context.as_deref(), Some("Failed to write card skin batch")),
        _ => panic!("expected failure"),
    }
    assert!(matches!(flash_next(kind, 2, 9, phase, true).1, FlashAction::Stop));

    let kind = FlashKind::PasscodeTheme;
    let (phase, _) = flash_begin(kind, 1, 3);
    let (_, action) = flash_next(kind, 1, 3, phase, true);
    match action {
        FlashAction::Finish { remember_png, progress, log } => {
            assert!(!remember_png && progress.is_none());
            assert_eq!(log, "Passcode theme successfully written! Lock iPhone to see new keypad.");
        }
        _ => panic!("expected finish"),
    }
    let (phase, _) = flash_begin(kind, 1, 3);
    match flash_next(kind, 1, 3, phase, false).1 {
        FlashAction::Fail { context } => assert_eq!(context.as_deref(), Some("Failed to write passcode theme batch")),
        _ => panic!("expected failure"),
    }
}

#[test]
fn flash_opening_lines() {
    let art = WalletArt::Png { png_3x: vec![0; 5], png_2x: vec![0; 3] };
    assert_eq!(
        wallet_intro_lines("abc", &art),
        vec!["Target Card Hash: abc", "Skin payload @3x=5 bytes PNG, @2x=3 bytes PNG (1024x646)"]
    );
    let art = WalletArt::Pdf(vec![0; 7]);
    assert_eq!(wallet_intro_lines("h", &art)[1], "Skin payload size: 7 bytes PDF (Suica / transit artwork)");
    assert_eq!(passcode_intro_line(24), "Flashing passcode theme (24 button assets, batched AirTraffic)...");
}

#[test]
fn handshake_failure_reports() {
    let code = PlistScalar::Integer(4);
    assert_eq!(
        handshake_failure_text(HandshakeStage::ReadyForSync, Some("SyncFailed"), Some(&code)),
        "AirTraffic returned SyncFailed instead of ReadyForSync. ErrorCode=4"
    );
    let secret = PlistScalar::String("private token".into());
    assert_eq!(
        handshake_failure_text(HandshakeStage::ReadyForSync, Some("SyncFinished"), Some(&secret)),
        "AirTraffic returned SyncFinished instead of ReadyForSync. ErrorCode unavailable"
    );
    assert_eq!(
        handshake_failure_text(HandshakeStage::ReadyForSync, Some("SyncFailed"), None),
        "AirTraffic returned SyncFailed instead of ReadyForSync. ErrorCode unavailable"
    );
    assert_eq!(
        handshake_failure_text(HandshakeStage::ReadyForSync, None, None),
        "AirTraffic: ReadyForSync message not received from device"
    );
    assert_eq!(
        handshake_failure_text(HandshakeStage::SyncAllowed, None, None),
        "AirTraffic: SyncAllowed message not received. Ensure iPhone screen is unlocked and Books app is opened."
    );
    assert_eq!(
        handshake_failure_text(HandshakeStage::AssetManifest, Some("SyncFailed"), None),
        "AirTraffic returned unexpected terminating message: SyncFailed"
    );
    assert_eq!(
        handshake_failure_text(HandshakeStage::AssetManifest, None, None),
        "AirTraffic: AssetManifest was not received or failed to parse"
    );
}

#[test]
fn asset_completions_follow_the_manifest() {
    let assets = vec![("a".to_string(), "x".to_string()), ("b".to_string(), "y".to_string())];
    let offered = vec!["b".to_string(), "a".to_string()];
    assert_eq!(
        asset_completions(&assets, &offered),
        Ok(vec![
            ("a".to_string(), "Book".to_string(), "x".to_string()),
            ("b".to_string(), "Book".to_string(), "y".to_string()),
        ])
    );
    assert_eq!(asset_completions(&assets, &vec!["a".to_string()]), Err(1));
    assert_eq!(
        missing_asset_text("b", "[\"a\"]"),
        "Asset 'b' missing from device download manifest (available: [\"a\"])"
    );
}

#[test]
fn sync_request_parameters() {
    let info = host_info();
    assert_eq!(info.library_id, "12.6.0.100");
    assert_eq!(info.sync_host_name, "airlift");
    assert_eq!(info.version, "12.6.0.100");
    assert_eq!(info.synced_dataclasses, vec!["Book"]);
    let request = sync_request();
    assert_eq!(request.dataclasses, vec!["Book"]);
    assert_eq!(request.anchors, vec![("Book".to_string(), "0".to_string())]);
    assert_eq!(request.grappa, HOST_GRAPPA.to_vec());
}

#[test]
fn sync_plists_encode_the_parameters() {
    let bytes = host_info_bytes();
    let value = plist::Value::from_reader(std::io::Cursor::new(bytes)).unwrap();
    let dict = value.as_dictionary().unwrap();
    let keys: Vec<&str> = dict.keys().map(|k| k.as_str()).collect();
    assert_eq!(keys, vec!["LibraryID", "SyncHostName", "Version", "SyncedDataclasses"]);
    assert_eq!(dict.get("SyncHostName").unwrap().as_string(), Some("airlift"));

    let bytes = sync_request_bytes();
    let value = plist::Value::from_reader(std::io::Cursor::new(bytes)).unwrap();
    let dict = value.as_dictionary().unwrap();
    let keys: Vec<&str> = dict.keys().map(|k| k.as_str()).collect();
    assert_eq!(keys, vec!["Dataclasses", "DataclassAnchors", "HostInfo"]);
    let hi = dict.get("HostInfo").unwrap().as_dictionary().unwrap();
    assert_eq!(hi.get("Grappa").unwrap().as_data(), Some(&HOST_GRAPPA[..]));
    assert_eq!(
        dict.get("DataclassAnchors").unwrap().as_dictionary().unwrap().get("Book").unwrap().as_string(),
        Some("0")
    );

    let (power, types, anchors) = metadata_sync_bytes();
    assert_eq!(plist::Value::from_reader(std::io::Cursor::new(power)).unwrap().as_boolean(), Some(true));
    let types = plist::Value::from_reader(std::io::Cursor::new(types)).unwrap();
    assert_eq!(types.as_dictionary().unwrap().get("Book").unwrap().as_signed_integer(), Some(1));
    let anchors = plist::Value::from_reader(std::io::Cursor::new(anchors)).unwrap();
    assert_eq!(anchors.as_dictionary().unwrap().get("Book").unwrap().as_string(), Some("0"));
}

fn binary(value: plist::Value) -> Vec<u8> {
    let mut bytes = Vec::new();
    value.to_writer_binary(&mut bytes).unwrap();
    bytes
}

#[test]
fn error_codes_read_from_plist_bytes() {
    assert_eq!(error_code_from_plist(&binary(plist::Value::Integer(4.into()))), Some("4".into()));
    assert_eq!(error_code_from_plist(&binary(plist::Value::Integer((-7i64).into()))), Some("-7".into()));
    assert_eq!(
        error_code_from_plist(&binary(plist::Value::Integer(u64::MAX.into()))),
        Some("18446744073709551615".into())
    );
    assert_eq!(error_code_from_plist(&binary(plist::Value::String(" 12 ".into()))), Some("12".into()));
    assert_eq!(error_code_from_plist(&binary(plist::Value::String("private token".into()))), None);
    assert_eq!(error_code_from_plist(&binary(plist::Value::Data(vec![1, 2, 3]))), None);
    assert_eq!(error_code_from_plist(b"not a plist"), None);
    assert_eq!(
        ready_failure_text("SyncFailed", Some(binary(plist::Value::Integer(4.into())).as_slice())),
        "AirTraffic returned SyncFailed instead of ReadyForSync. ErrorCode=4"
    );
    assert_eq!(
        ready_failure_text("SyncFinished", None),
        "AirTraffic returned SyncFinished instead of ReadyForSync. ErrorCode unavailable"
    );
}

#[test]
fn manifest_downloads_from_bytes() {
    let mut entry_a = plist::Dictionary::new();
    entry_a.insert("IsDownload".into(), true.into());
    entry_a.insert("AssetID".into(), "a".into());
    let mut entry_b = plist::Dictionary::new();
    entry_b.insert("IsDownload".into(), false.into());
    entry_b.insert("AssetID".into(), "b".into());
    let mut entry_c = plist::Dictionary::new();
    entry_c.insert("IsDownload".into(), true.into());
    entry_c.insert("AssetID".into(), "c".into());
    let mut root = plist::Dictionary::new();
    root.insert(
        "Book".into(),
        plist::Value::Array(vec![entry_a.into(), entry_b.into(), plist::Value::Boolean(true), entry_c.into()]),
    );
    let bytes = binary(root.into());
    assert_eq!(manifest_downloads(Some(bytes.as_slice())), Ok(vec!["a".to_string(), "c".to_string()]));
    let no_book = binary(plist::Dictionary::new().into());
    assert_eq!(manifest_downloads(Some(no_book.as_slice())), Err(ManifestError::NoBookList));
    assert_eq!(manifest_downloads(Some(&b"junk"[..])), Err(ManifestError::NotReceived));
    assert_eq!(manifest_downloads(None), Err(ManifestError::NotReceived));
    assert_eq!(ManifestError::NoBookList.message(), "AssetManifest does not contain Book list");
    assert_eq!(
        ManifestError::NotReceived.message(),
        "AirTraffic: AssetManifest was not received or failed to parse"
    );
}

#[test]
fn cache_invalidation_steps() {
    let (f, lines) = invalidation_step(0, 0, None);
    assert_eq!((f, lines.len()), (0, 0));
    let (f, lines) = invalidation_step(1, f, None);
    assert_eq!(f, 0);
    assert_eq!(lines, vec!["Wallet cache faces removed so iOS 27 rebuilds from the pass."]);
    let (f, lines) = invalidation_step(0, 0, Some("boom"));
    assert_eq!(lines, vec!["Cache .cache relocation: boom (empty cache is OK)"]);
    let (_, lines) = invalidation_step(1, f, None);
    assert!(lines.is_empty());
    let (_, lines) = invalidation_step(1, 0, Some("x"));
    assert_eq!(lines, vec!["Cache .pkcache relocation: x (empty cache is OK)"]);
}

#[test]
fn batched_write_stops_at_a_failed_handshake() {
    assert_eq!(write_begin(0), None);
    assert_eq!(write_begin(3), Some(0));
    assert_eq!(write_next(3, 0, true), Ok(Some(1)));
    assert_eq!(write_next(3, 1, false), Err(()));
    assert_eq!(write_next(3, 2, true), Ok(None));
}

#[test]
fn cache_removal_is_planned_for_plain_names() {
    let plan = remove_system_files(&["FrontFace", "PlaceHolder", "Preview"], "t").unwrap();
    assert!(plan.is_some());
}

#[test]
fn theme_flash_gate() {
    assert!(theme_can_flash(false, true, true));
    assert!(!theme_can_flash(true, true, true));
    assert!(!theme_can_flash(false, false, true));
    assert!(!theme_can_flash(false, true, false));
}

#[test]
fn poster_keys_are_default_png_buttons() {
    let grid = RgbaBuffer::from_raw(900, 1200, vec![120; 900 * 1200 * 4]).unwrap();
    let keys = slice_poster(&grid).unwrap();
    assert_eq!(keys.len(), 10);
    for (_, png) in &keys {
        let img = image::load_from_memory(png).unwrap();
        assert_eq!((img.width(), img.height()), (300, 300));
    }
}

#[test]
fn png_2x_of_a_small_png() {
    let mut png = Vec::new();
    let img = image::RgbaImage::from_pixel(3, 2, image::Rgba([1, 2, 3, 255]));
    image::DynamicImage::ImageRgba8(img)
        .write_to(&mut std::io::Cursor::new(&mut png), image::ImageFormat::Png)
        .unwrap();
    let out = png_2x_from_3x(&png).unwrap();
    let back = image::load_from_memory(&out).unwrap();
    assert_eq!((back.width(), back.height()), (1024, 646));
}
