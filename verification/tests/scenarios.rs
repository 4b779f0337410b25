use aircard::airtraffic::{numeric_error_code, PlistScalar};
use aircard::cli::probe_command;
use aircard::flasher::{airlock_relpath, CACHE_FILES, TARGET_WALLET_ASSETS};
use aircard::image_skin::RgbaBuffer;
use aircard::keypad::{slice_poster, sliced_to_passthm_items};
use aircard::wallet_backup::{
    backup_dir, load_original_assets, save_original_asset, BackupDir,
};

#[test]
fn failure_log_accepts_only_numeric_error_code() {
    assert_eq!(numeric_error_code(&PlistScalar::Integer(4)), Some("4".into()));
    assert_eq!(
        numeric_error_code(&PlistScalar::String("4".into())),
        Some("4".into())
    );
    assert_eq!(
        numeric_error_code(&PlistScalar::String("private token".into())),
        None
    );
    assert_eq!(numeric_error_code(&PlistScalar::Other), None);
}

#[test]
fn airlock_relpath_strips_var_mobile() {
    assert_eq!(
        airlock_relpath("/var/mobile/Library/Passes/Cards/abc.pkpass/cardBackgroundCombined@3x.png"),
        "../../../Library/Passes/Cards/abc.pkpass/cardBackgroundCombined@3x.png"
    );
    assert_eq!(
        airlock_relpath("var/mobile/Media/Books/foo"),
        "../../../Media/Books/foo"
    );
}

#[test]
fn wallet_png_assets_are_distinct_3x_and_2x() {
    assert_eq!(
        TARGET_WALLET_ASSETS,
        ["cardBackgroundCombined@3x.png", "cardBackgroundCombined@2x.png"]
    );
    assert_eq!(CACHE_FILES, ["FrontFace", "PlaceHolder", "Preview"]);
}

fn poster_grid() -> RgbaBuffer {
    let (w, h) = (900u32, 1200u32);
    let mut pixels = Vec::with_capacity((w * h * 4) as usize);
    for y in 0..h {
        for x in 0..w {
            pixels.extend_from_slice(&[(x % 255) as u8, (y % 255) as u8, 80, 255]);
        }
    }
    RgbaBuffer::from_raw(w, h, pixels).unwrap()
}

#[test]
fn poster_slice_makes_ten_circular_keys() {
    let keys = slice_poster(&poster_grid()).unwrap();
    assert_eq!(keys.len(), 10);
    for d in ["0", "1", "2", "3", "4", "5", "6", "7", "8", "9"] {
        let png = &keys.iter().find(|(digit, _)| digit == d).unwrap().1;
        assert!(png.starts_with(b"\x89PNG"));
    }
    let items = sliced_to_passthm_items(&keys, "TelephonyUI-10");
    assert!(items.iter().any(|(_, leaf, _)| leaf.contains("white-bold")));
}

#[test]
fn probe_requires_exact_cli_arguments() {
    let args = |values: &[&str]| {
        values
            .iter()
            .map(|value| (*value).to_owned())
            .collect::<Vec<_>>()
    };
    assert_eq!(
        probe_command(&args(&["aircard.exe", "--probe"])),
        Some(true)
    );
    assert_eq!(
        probe_command(&args(&["aircard.exe", "--probe", "extra"])),
        Some(false)
    );
    assert_eq!(
        probe_command(&args(&["aircard.exe", "--flash", "hash", "art.png"])),
        None
    );
}

#[test]
fn never_overwrites_existing_original() {
    let mut dir = BackupDir::new();
    let leaf = "cardBackgroundCombined@3x.png";
    assert!(save_original_asset(&mut dir, leaf, b"ORIGINAL").unwrap());
    assert!(!save_original_asset(&mut dir, leaf, b"OVERWRITE").unwrap());
    let loaded = load_original_assets(&dir).unwrap();
    assert_eq!(loaded.len(), 1);
    assert_eq!(loaded[0].1, b"ORIGINAL");
}

#[test]
fn backup_dir_is_per_device() {
    let root = r"C:\Users\Default\AppData\Local";
    let a = backup_dir(root, "UDID-A", "hash+=/");
    let b = backup_dir(root, "UDID-B", "hash+=/");
    assert_ne!(a, b);
    assert!(a.contains("UDID-A"));
}
