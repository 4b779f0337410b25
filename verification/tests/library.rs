use aircard::airtraffic::{
    after_ready_for_sync, available_downloads, check_manifest_assets, handshake_step,
    numeric_error_code, AfterReady, HandshakeStage, HandshakeStep, ManifestEntry, PlistScalar,
};
use aircard::cli::{
    add_log, check_flash_request, cli_telephony, current_timestamp, parse_command,
    pick_probe_device, telephony_target, ArtChoice, Command, FlashBlocker, ProbeDeviceError,
};
use aircard::flasher::{
    capture_original_artwork, check_export_size, check_exported_data, export_cleanup,
    flash_passcode_theme, flash_wallet_skin, invalidate_wallet_cache, is_staging_leftover,
    load_previous_png, original_backup_exists, pkpass_dir, read_protected_file,
    remember_applied_png, remove_system_files, restore_original_artwork, skin_backup_dir,
    stage_batch, staged_asset, token_from_bytes, write_system_file, write_system_files_batch,
    ExportOutcome, FlashError, SkinHistory, WalletArt,
};
use aircard::host_guard::blocking_sync_apps;
use aircard::i18n::{t, Lang, Settings};
use aircard::image_skin::{encode_wallet_pngs, png_2x_from_3x, ImageFailure, RgbaBuffer};
use aircard::keypad::{
    cut_key_button, export_sliced_passthm, load_individual_keys, sliced_to_passthm_items,
};
use aircard::wallet_backup::{
    backup_dir, backup_exists, load_original_assets, original_assets, safe_component,
    save_original_asset, BackupDir, BackupError, OriginalAsset,
};

fn strings(v: &[&str]) -> Vec<String> {
    v.iter().map(|s| s.to_string()).collect()
}

fn write_items(n: usize) -> Vec<(String, String, Vec<u8>)> {
    (0..n)
        .map(|i| ("/dir".to_string(), format!("f{i}"), vec![i as u8]))
        .collect()
}

#[test]
fn error_code_spells_integers_in_decimal() {
    assert_eq!(numeric_error_code(&PlistScalar::Integer(-42)), Some("-42".into()));
    assert_eq!(numeric_error_code(&PlistScalar::Integer(0)), Some("0".into()));
    assert_eq!(
        numeric_error_code(&PlistScalar::Integer(u64::MAX as i128)),
        Some("18446744073709551615".into())
    );
    assert_eq!(
        numeric_error_code(&PlistScalar::Integer(i64::MIN as i128)),
        Some("-9223372036854775808".into())
    );
    assert_eq!(numeric_error_code(&PlistScalar::Integer(u64::MAX as i128 + 1)), None);
}

#[test]
fn error_code_strings_are_trimmed_and_checked() {
    assert_eq!(numeric_error_code(&PlistScalar::String("  -12 \n".into())), Some("-12".into()));
    assert_eq!(numeric_error_code(&PlistScalar::String("-".into())), None);
    assert_eq!(numeric_error_code(&PlistScalar::String(" - ".into())), None);
    assert_eq!(numeric_error_code(&PlistScalar::String("--1".into())), None);
    assert_eq!(numeric_error_code(&PlistScalar::String("   ".into())), None);
    assert_eq!(numeric_error_code(&PlistScalar::String("1-2".into())), None);
    assert_eq!(numeric_error_code(&PlistScalar::String("\u{3000}7\u{a0}".into())), Some("7".into()));
}

#[test]
fn token_is_lower_hex() {
    assert_eq!(token_from_bytes(&[0x00, 0xab, 0x10, 0xff]), "00ab10ff");
    assert_eq!(token_from_bytes(&[]), "");
}

#[test]
fn staged_names_follow_token() {
    let st = staged_asset("t0k", "leaf.png");
    assert_eq!(st.names.source, "airlift-src-t0k");
    assert_eq!(st.names.link_dest, "airlift-link-t0k");
    assert_eq!(st.names.recovered, "airlift-recovered-t0k");
    assert_eq!(st.names.link_ident, "../../airlift-src-t0k/p0/p1/p2/link");
    assert_eq!(st.names.payload_ident, "../../airlift-src-t0k/payload");
    assert_eq!(st.target_dest, "airlift-link-t0k/leaf.png");
    assert_eq!(st.leaf, "leaf.png");
    assert!(is_staging_leftover(&st.names.source));
    assert!(is_staging_leftover(&st.names.recovered));
    assert!(!is_staging_leftover("Books"));
}

#[test]
fn batches_hold_at_most_eight_files() {
    assert!(write_system_files_batch(&write_items(0)).is_empty());
    let one = write_system_files_batch(&write_items(8));
    assert_eq!(one.len(), 1);
    assert_eq!((one[0].start, one[0].len, one[0].progress_total, one[0].sync_step), (0, 8, 9, 9));
    assert_eq!(one[0].label, "");
    let three = write_system_files_batch(&write_items(17));
    assert_eq!(three.len(), 3);
    assert_eq!(three[0].label, " (group 1/3)");
    assert_eq!(three[2].label, " (group 3/3)");
    assert_eq!((three[1].start, three[1].len), (8, 8));
    assert_eq!((three[2].start, three[2].len), (16, 1));
    assert_eq!(three[2].progress_total, 20);
    assert_eq!(three[2].sync_step, 18);
    let covered: usize = three.iter().map(|b| b.len).sum();
    assert_eq!(covered, 17);
    assert_eq!(flash_passcode_theme(&write_items(9)).len(), 2);
}

#[test]
fn stage_batch_lists_link_then_payload() {
    let items = write_items(2);
    let tokens = strings(&["aa", "bb"]);
    let b = stage_batch(&items, &tokens);
    assert_eq!(b.staged.len(), 2);
    assert_eq!(
        b.books_identifiers,
        strings(&[
            "../../airlift-src-aa/p0/p1/p2/link",
            "../../airlift-src-aa/payload",
            "../../airlift-src-bb/p0/p1/p2/link",
            "../../airlift-src-bb/payload",
        ])
    );
    assert_eq!(b.assets[1], ("../../airlift-src-aa/payload".into(), "airlift-link-aa/f0".into()));
    assert_eq!(b.assets[2], ("../../airlift-src-bb/p0/p1/p2/link".into(), "airlift-link-bb".into()));
}

#[test]
fn cache_removal_plans_and_refusals() {
    assert!(matches!(remove_system_files(&[], "t"), Ok(None)));
    assert!(matches!(remove_system_files(&["FrontFace", "."], "t"), Err(FlashError::NotPlainCacheNames)));
    assert!(matches!(remove_system_files(&["a/b"], "t"), Err(FlashError::NotPlainCacheNames)));
    assert!(matches!(remove_system_files(&[""], "t"), Err(FlashError::NotPlainCacheNames)));
    let plan = remove_system_files(&["FrontFace", "Preview"], "t").unwrap().unwrap();
    assert_eq!(
        plan.identifiers,
        strings(&[
            "../../airlift-src-t/p0/p1/p2/link",
            "../../airlift-link-t/FrontFace",
            "../../airlift-link-t/Preview",
        ])
    );
    assert_eq!(
        plan.dests,
        strings(&["airlift-link-t", "airlift-src-t/removed-0", "airlift-src-t/removed-1"])
    );
}

#[test]
fn export_plan_resolves_the_protected_path() {
    let plan = read_protected_file("/var/mobile/Library/Passes/Cards/h.pkpass//", "a.png", "t").unwrap();
    assert_eq!(
        plan.identifiers,
        strings(&["../../airlift-src-t/p0/p1/p2/link", "../../../Library/Passes/Cards/h.pkpass/a.png"])
    );
    assert_eq!(plan.dests, strings(&["airlift-link-t", "airlift-recovered-t"]));
    assert!(matches!(read_protected_file("/x", "..", "t"), Err(FlashError::NotPlainFileName)));
}

#[test]
fn export_size_and_content_checks() {
    assert_eq!(check_export_size(false, 5), Ok(false));
    assert_eq!(check_export_size(true, 0), Err(FlashError::InvalidExportSize));
    assert_eq!(check_export_size(true, 32 * 1024 * 1024), Ok(true));
    assert_eq!(check_export_size(true, 32 * 1024 * 1024 + 1), Err(FlashError::InvalidExportSize));
    assert_eq!(check_exported_data(vec![]), Err(FlashError::EmptyExport));
    assert_eq!(check_exported_data(vec![1]), Ok(vec![1]));
}

#[test]
fn export_cleanup_keeps_the_only_copy() {
    let keep = export_cleanup(ExportOutcome::FailedKeepingCopy);
    assert!(!keep.remove_recovered && !keep.remove_link_dest && !keep.remove_source);
    let read = export_cleanup(ExportOutcome::Read);
    assert!(read.write_back && read.remove_recovered);
    let failed = export_cleanup(ExportOutcome::Failed);
    assert!(!failed.remove_recovered && failed.remove_source);
    let absent = export_cleanup(ExportOutcome::NotPresent);
    assert!(absent.remove_recovered && !absent.write_back);
}

#[test]
fn wallet_skin_targets_the_pass() {
    assert_eq!(pkpass_dir("abc"), "/var/mobile/Library/Passes/Cards/abc.pkpass");
    assert_eq!(
        invalidate_wallet_cache("abc"),
        strings(&[
            "/var/mobile/Library/Passes/Cards/abc.cache",
            "/var/mobile/Library/Passes/Cards/abc.pkcache",
        ])
    );
    let png = flash_wallet_skin("abc", &WalletArt::Png { png_3x: vec![3], png_2x: vec![2] });
    assert_eq!(png.len(), 2);
    assert_eq!(png[0].1, "cardBackgroundCombined@3x.png");
    assert_eq!(png[1], ("/var/mobile/Library/Passes/Cards/abc.pkpass".into(), "cardBackgroundCombined@2x.png".into(), vec![2]));
    let pdf = flash_wallet_skin("abc", &WalletArt::Pdf(vec![9, 9]));
    let leaves: Vec<&str> = pdf.iter().map(|i| i.1.as_str()).collect();
    assert_eq!(leaves, ["cardBackgroundCombined.pdf", "cardBackgroundCombined@2x.pdf", "cardBackgroundCombined@3x.pdf"]);
    assert!(pdf.iter().all(|i| i.2 == vec![9, 9]));
    let single = write_system_file("/d", "x", b"payload");
    assert_eq!(single, vec![("/d".into(), "x".into(), b"payload".to_vec())]);
}

#[test]
fn backups_store_load_and_refuse() {
    let mut dir = BackupDir::new();
    assert!(!backup_exists(&dir));
    assert_eq!(load_original_assets(&dir).unwrap_err(), BackupError::NoBackup);
    assert_eq!(save_original_asset(&mut dir, "other.png", b"x"), Err(BackupError::UnsupportedAsset));
    assert_eq!(save_original_asset(&mut dir, "cardBackgroundCombined.pdf", b""), Ok(true));
    assert!(backup_exists(&dir));
    assert!(original_backup_exists(&dir));
    assert_eq!(load_original_assets(&dir).unwrap_err(), BackupError::NoBackup);
    assert_eq!(save_original_asset(&mut dir, "cardBackgroundCombined@2x.png", b"2x"), Ok(true));
    let loaded = load_original_assets(&dir).unwrap();
    assert_eq!(loaded, vec![("cardBackgroundCombined@2x.png".to_string(), b"2x".to_vec())]);
    assert_eq!(original_assets(), ["cardBackgroundCombined@3x.png", "cardBackgroundCombined@2x.png", "cardBackgroundCombined.pdf"]);
    assert_eq!(OriginalAsset::from_leaf("cardBackgroundCombined@3x.png"), Some(OriginalAsset::Combined3x));
    let restore = restore_original_artwork(&dir, "h").unwrap();
    assert_eq!(restore, vec![("/var/mobile/Library/Passes/Cards/h.pkpass".into(), "cardBackgroundCombined@2x.png".into(), b"2x".to_vec())]);
    assert_eq!(restore_original_artwork(&BackupDir::new(), "h").unwrap_err(), BackupError::NoBackup);
}

#[test]
fn capture_saves_exports_once() {
    let mut dir = BackupDir::new();
    let exported = vec![Some(b"3x".to_vec()), None, Some(b"pdf".to_vec())];
    assert_eq!(capture_original_artwork(&mut dir, &exported), Ok(2));
    let loaded = load_original_assets(&dir).unwrap();
    assert_eq!(loaded.len(), 2);
    assert_eq!(loaded[1].0, "cardBackgroundCombined.pdf");
    assert_eq!(capture_original_artwork(&mut dir, &vec![Some(b"new".to_vec()), None, None]), Ok(0));
    assert_eq!(load_original_assets(&dir).unwrap()[0].1, b"3x");
    let mut empty = BackupDir::new();
    assert_eq!(capture_original_artwork(&mut empty, &vec![None, None, None]), Err(FlashError::NothingCaptured));
}

#[test]
fn directory_names_are_safe() {
    assert_eq!(safe_component(""), "unknown");
    assert_eq!(safe_component("a b/é-_.Z9"), "a_b__-_.Z9");
    assert_eq!(backup_dir("C:/L", "U1", "h+/"), "C:/L/AirCard/wallet-originals/U1-h__");
    assert_eq!(backup_dir("C:/L/", "", ""), "C:/L/AirCard/wallet-originals/unknown-unknown");
    assert_eq!(skin_backup_dir("C:/L", "ab+/=-"), "C:/L/AirCard/skins/ab____");
}

#[test]
fn revert_needs_two_applies() {
    let mut h = SkinHistory { current: None, previous: None };
    remember_applied_png(&mut h, b"one");
    assert_eq!(load_previous_png(&h), None);
    remember_applied_png(&mut h, b"two");
    assert_eq!(load_previous_png(&h), Some(b"one".to_vec()));
    assert_eq!(h.current, Some(b"two".to_vec()));
}

#[test]
fn blocking_apps_are_reported_once() {
    let names = strings(&["iTunes.exe", "explorer.exe", "ITUNES.EXE", "AppleMusic.exe", "ampdevicesagent.exe"]);
    assert_eq!(blocking_sync_apps(&names), strings(&["iTunes.exe", "AppleMusic.exe", "ampdevicesagent.exe"]));
    assert!(blocking_sync_apps(&strings(&["svchost.exe"])).is_empty());
}

#[test]
fn languages_and_texts() {
    assert_eq!(Lang::En.cycle(), Lang::Id);
    assert_eq!(Lang::Id.cycle().cycle(), Lang::Id);
    assert_eq!(Lang::En.code(), "EN");
    assert_eq!(Lang::Id.code(), "ID");
    assert_eq!(Lang::default(), Lang::En);
    assert_eq!(Settings::default(), Settings { lang: Lang::En });
    assert_eq!(t(Lang::En).wallet, "Wallet");
    assert_eq!(t(Lang::Id).wallet, "Dompet");
    assert_eq!(t(Lang::Id).ready, "Siap");
}

#[test]
fn commands_from_arguments() {
    let args = strings(&["aircard.exe", "--flash", "HASH", "D:\\art.png"]);
    match parse_command(&args, false) {
        Command::Flash { card_hash, image_path } => {
            assert_eq!(card_hash, "HASH");
            assert_eq!(image_path, "D:\\art.png");
        }
        _ => panic!("expected flash"),
    }
    assert!(matches!(parse_command(&args, true), Command::Probe { valid: true }));
    let passcode = strings(&["aircard.exe", "--passcode", "t.passthm", "9"]);
    match parse_command(&passcode, false) {
        Command::Passcode { theme_path, telephony, language } => {
            assert_eq!(theme_path, "t.passthm");
            assert_eq!(telephony.as_deref(), Some("9"));
            assert_eq!(language, None);
        }
        _ => panic!("expected passcode"),
    }
    assert!(matches!(parse_command(&strings(&["aircard.exe"]), false), Command::Gui));
    assert!(matches!(parse_command(&strings(&["aircard.exe", "--flash", "h"]), false), Command::Gui));
    assert_eq!(cli_telephony(Some("8")), "TelephonyUI-8");
    assert_eq!(cli_telephony(Some("TelephonyUI-9")), "TelephonyUI-9");
    assert_eq!(cli_telephony(Some("7")), "TelephonyUI-10");
    assert_eq!(cli_telephony(None), "TelephonyUI-10");
    assert_eq!(telephony_target("TelephonyUI-8"), "TelephonyUI-8");
    assert_eq!(telephony_target("Auto (TelephonyUI-10)"), "TelephonyUI-10");
}

#[test]
fn timestamps_and_log() {
    assert_eq!(current_timestamp(5, 7, 9, 42), "05:07:09.042");
    assert_eq!(current_timestamp(23, 59, 59, 999), "23:59:59.999");
    assert_eq!(current_timestamp(0, 0, 0, 0), "00:00:00.000");
    let mut logs = Vec::new();
    for i in 0..1001 {
        add_log(&mut logs, "00:00:00.000", &format!("line {i}"));
    }
    assert_eq!(logs.len(), 1000);
    assert_eq!(logs[0], "[00:00:00.000] line 1");
    assert_eq!(logs[999], "[00:00:00.000] line 1000");
}

#[test]
fn flash_requests_need_device_hash_and_art() {
    assert_eq!(check_flash_request(false, "h", true, false), Err(FlashBlocker::NoDevice));
    assert_eq!(check_flash_request(true, "  ", true, false), Err(FlashBlocker::NoCardHash));
    assert_eq!(check_flash_request(true, "h", false, false), Err(FlashBlocker::NoArtwork));
    assert_eq!(check_flash_request(true, " h ", true, true), Ok(("h".to_string(), ArtChoice::Png)));
    assert_eq!(check_flash_request(true, "h", false, true), Ok(("h".to_string(), ArtChoice::Pdf)));
}

#[test]
fn probe_needs_exactly_one_usb_device() {
    assert_eq!(pick_probe_device(&strings(&["Network", "usb"])), Ok(1));
    assert_eq!(pick_probe_device(&strings(&["Network"])), Err(ProbeDeviceError::NoUsbDevice));
    assert_eq!(pick_probe_device(&strings(&["USB", "Usb"])), Err(ProbeDeviceError::MultipleUsbDevices));
}

#[test]
fn handshake_steps() {
    assert_eq!(handshake_step(HandshakeStage::SyncAllowed, 1, Some("SyncAllowed")), HandshakeStep::Advance);
    assert_eq!(handshake_step(HandshakeStage::SyncAllowed, 1, Some("SyncFailed")), HandshakeStep::Skip);
    assert_eq!(handshake_step(HandshakeStage::SyncAllowed, 20, None), HandshakeStep::GiveUp);
    assert_eq!(handshake_step(HandshakeStage::SyncAllowed, 20, Some("SyncAllowed")), HandshakeStep::Advance);
    assert_eq!(handshake_step(HandshakeStage::ReadyForSync, 500, None), HandshakeStep::Wait);
    assert_eq!(handshake_step(HandshakeStage::ReadyForSync, 3, Some("SyncFinished")), HandshakeStep::Terminated);
    assert_eq!(handshake_step(HandshakeStage::AssetManifest, 29, Some("Other")), HandshakeStep::Skip);
    assert_eq!(handshake_step(HandshakeStage::AssetManifest, 30, Some("Other")), HandshakeStep::GiveUp);
    assert_eq!(handshake_step(HandshakeStage::AssetManifest, 30, Some("SyncFailed")), HandshakeStep::Terminated);
    assert_eq!(after_ready_for_sync(0), AfterReady::Finish);
    assert_eq!(after_ready_for_sync(2), AfterReady::SendMetadata);
}

#[test]
fn manifest_must_offer_every_asset() {
    let entries = vec![
        ManifestEntry { is_download: Some(true), asset_id: Some("a".into()) },
        ManifestEntry { is_download: Some(false), asset_id: Some("b".into()) },
        ManifestEntry { is_download: None, asset_id: Some("c".into()) },
        ManifestEntry { is_download: Some(true), asset_id: None },
        ManifestEntry { is_download: Some(true), asset_id: Some("d".into()) },
    ];
    let available = available_downloads(&entries);
    assert_eq!(available, strings(&["a", "d"]));
    let ok = vec![("a".to_string(), "x".to_string()), ("d".to_string(), "y".to_string())];
    assert_eq!(check_manifest_assets(&ok, &available), Ok(()));
    let missing = vec![("a".to_string(), "x".to_string()), ("b".to_string(), "y".to_string())];
    assert_eq!(check_manifest_assets(&missing, &available), Err(1));
}

#[test]
fn keypad_file_names() {
    let keys = vec![("1".to_string(), vec![1u8]), ("7".to_string(), vec![7u8])];
    let items = sliced_to_passthm_items(&keys, "TelephonyUI-9");
    let leaves: Vec<&str> = items.iter().map(|i| i.1.as_str()).collect();
    assert_eq!(
        leaves,
        [
            "en-1---white.png",
            "en-1---white-bold.png",
            "other-1---white.png",
            "other-1---white-bold.png",
            "en-7-PQRS--white.png",
            "en-7-PQRS--white-bold.png",
            "other-7-PQRS--white.png",
            "other-7-PQRS--white-bold.png",
            "en-7---white.png",
            "other-7---white.png",
        ]
    );
    assert!(items.iter().all(|i| i.0 == "/var/mobile/Library/Caches/TelephonyUI-9"));
    assert_eq!(items[4].2, vec![7u8]);
    let files = export_sliced_passthm(&keys);
    assert_eq!(files.len(), 10);
    assert_eq!(files[0].0, "TelephonyUI-10/en-1---white.png");
}

#[test]
fn folder_keys_need_all_ten() {
    let mut found: Vec<Option<Vec<u8>>> = (0..10).map(|d| Some(vec![d as u8])).collect();
    let keys = load_individual_keys(&found).unwrap();
    assert_eq!(keys[0], ("0".to_string(), vec![0]));
    assert_eq!(keys[9], ("9".to_string(), vec![9]));
    found[4] = None;
    assert_eq!(load_individual_keys(&found).unwrap_err(), 9);
}

#[test]
fn key_buttons_are_round() {
    let (w, h) = (900u32, 1200u32);
    let pixels: Vec<u8> = vec![200; (w * h * 4) as usize];
    let grid = RgbaBuffer::from_raw(w, h, pixels).unwrap();
    let button = cut_key_button(&grid, 1, 3);
    assert_eq!(button.len(), 300 * 300 * 4);
    assert_eq!(&button[0..4], &[0, 0, 0, 0]);
    let centre = (150 * 300 + 150) * 4;
    assert_eq!(&button[centre..centre + 4], &[200, 200, 200, 200]);
    assert!(RgbaBuffer::from_raw(2, 2, vec![0; 15]).is_none());
}

#[test]
fn wallet_pngs_are_encoded_at_both_sizes() {
    let pixels: Vec<u8> = (0..1536u32 * 969 * 4).map(|i| (i % 251) as u8).collect();
    let rgba = RgbaBuffer::from_raw(1536, 969, pixels.clone()).unwrap();
    let (png, png_2x) = encode_wallet_pngs(&rgba).unwrap();
    assert!(png.starts_with(b"\x89PNG"));
    assert!(png_2x.starts_with(b"\x89PNG"));
    let big = image::load_from_memory(&png).unwrap().to_rgba8();
    assert_eq!((big.width(), big.height()), (1536, 969));
    assert_eq!(big.into_raw(), pixels);
    let small = image::load_from_memory(&png_2x).unwrap();
    assert_eq!((small.width(), small.height()), (1024, 646));
    let again = png_2x_from_3x(&png).unwrap();
    let again = image::load_from_memory(&again).unwrap();
    assert_eq!((again.width(), again.height()), (1024, 646));
    assert_eq!(png_2x_from_3x(b"not an image"), Err(ImageFailure::Decode));
    let empty = RgbaBuffer::from_raw(0, 5, vec![]).unwrap();
    assert_eq!(encode_wallet_pngs(&empty), Err(ImageFailure::Encode));
}

