//! Interface languages and the interface texts of each.

use vstd::prelude::*;

verus! {

/// An interface language.
#[derive(Clone, Copy, PartialEq, Eq, Structural, Debug)]
pub enum Lang {
    /// English, the default.
    En,
    /// Indonesian.
    Id,
}

impl Lang {
    /// The next language in the selector: English and Indonesian alternate.
    pub fn cycle(self) -> (r: Lang)
        ensures
            r == (match self {
                Lang::En => Lang::Id,
                Lang::Id => Lang::En,
            }),
    {
        match self {
            Lang::En => Lang::Id,
            Lang::Id => Lang::En,
        }
    }

    /// The two-letter code shown on the language button.
    pub fn code(self) -> (r: &'static str)
        ensures
            r@ == (match self {
                Lang::En => "EN"@,
                Lang::Id => "ID"@,
            }),
    {
        match self {
            Lang::En => "EN",
            Lang::Id => "ID",
        }
    }
}

impl Default for Lang {
    fn default() -> (r: Lang)
        ensures
            r == Lang::En,
    {
        Lang::En
    }
}

/// Cycling twice gives back the language one started from.
pub proof fn lemma_cycle_twice(lang: Lang)
    ensures
        (match (match lang {
            Lang::En => Lang::Id,
            Lang::Id => Lang::En,
        }) {
            Lang::En => Lang::Id,
            Lang::Id => Lang::En,
        }) == lang,
{
}

/// The interface texts of one language.
#[derive(Clone, Copy)]
pub struct T {
    pub wallet: &'static str,
    pub passcode: &'static str,
    pub help: &'static str,
    pub no_device: &'static str,
    pub logs: &'static str,
    pub scan: &'static str,
    pub stop: &'static str,
    pub scanning: &'static str,
    pub scanning_hint: &'static str,
    pub card_config: &'static str,
    pub card_config_sub: &'static str,
    pub target_hash: &'static str,
    pub saved_cards: &'static str,
    pub select: &'static str,
    pub rename: &'static str,
    pub reapply: &'static str,
    pub revert: &'static str,
    pub artwork: &'static str,
    pub artwork_sub: &'static str,
    pub choose_image: &'static str,
    pub export_png: &'static str,
    pub crop: &'static str,
    pub zoom: &'static str,
    pub pan_x: &'static str,
    pub pan_y: &'static str,
    pub write_iphone: &'static str,
    pub apply_skin: &'static str,
    pub preview: &'static str,
    pub force_close: &'static str,
    pub itunes_warn: &'static str,
    pub theme_title: &'static str,
    pub theme_sub: &'static str,
    pub choose_passthm: &'static str,
    pub creator: &'static str,
    pub poster: &'static str,
    pub slice_wallpaper: &'static str,
    pub flash_sliced: &'static str,
    pub ios_cache: &'static str,
    pub keypad_lang: &'static str,
    pub apply_passcode: &'static str,
    pub bold_note: &'static str,
    pub ready: &'static str,
}

/// The texts of `t`, field by field in declaration order.
pub open spec fn texts_of(t: T) -> Seq<Seq<char>> {
    seq![
        t.wallet@,
        t.passcode@,
        t.help@,
        t.no_device@,
        t.logs@,
        t.scan@,
        t.stop@,
        t.scanning@,
        t.scanning_hint@,
        t.card_config@,
        t.card_config_sub@,
        t.target_hash@,
        t.saved_cards@,
        t.select@,
        t.rename@,
        t.reapply@,
        t.revert@,
        t.artwork@,
        t.artwork_sub@,
        t.choose_image@,
        t.export_png@,
        t.crop@,
        t.zoom@,
        t.pan_x@,
        t.pan_y@,
        t.write_iphone@,
        t.apply_skin@,
        t.preview@,
        t.force_close@,
        t.itunes_warn@,
        t.theme_title@,
        t.theme_sub@,
        t.choose_passthm@,
        t.creator@,
        t.poster@,
        t.slice_wallpaper@,
        t.flash_sliced@,
        t.ios_cache@,
        t.keypad_lang@,
        t.apply_passcode@,
        t.bold_note@,
        t.ready@,
    ]
}

/// The English texts, field by field in declaration order.
pub open spec fn english_texts() -> Seq<Seq<char>> {
    seq![
        "Wallet"@,
        "Passcode"@,
        "Help"@,
        "No device"@,
        "Logs"@,
        "Scan"@,
        "Stop"@,
        "Scanning syslog..."@,
        "Open Wallet on iPhone and tap your card"@,
        "Card Configuration"@,
        "Target your card and choose replacement artwork"@,
        "Target Card Hash"@,
        "Saved cards"@,
        "Select..."@,
        "Rename"@,
        "Apply last image"@,
        "Revert last AirCard skin"@,
        "Card Skin Artwork"@,
        "PNG, JPG, WebP, PDF — pan/zoom then flash"@,
        "Choose Image..."@,
        "Export PNG"@,
        "Frame"@,
        "Zoom"@,
        "Pan X"@,
        "Pan Y"@,
        "Write to iPhone"@,
        "Apply Card Skin"@,
        "Wallet Preview"@,
        "After applying, force close Apple Wallet and reopen it."@,
        "Quit iTunes / Apple Devices first — they block AirTraffic."@,
        "Passcode Theme"@,
        "Cowabunga/Nugget .passthm, or slice a wallpaper (Mac-style)"@,
        "Choose .passthm..."@,
        "Theme Creator"@,
        "Poster Slice"@,
        "Choose wallpaper..."@,
        "Flash sliced keypad"@,
        "Target iOS Cache"@,
        "Keypad Language"@,
        "Apply Passcode Theme"@,
        "Bold Text caches are flashed too (--white-bold). Lock the phone to view."@,
        "Ready"@,
    ]
}

/// The Indonesian texts, field by field in declaration order.
pub open spec fn indonesian_texts() -> Seq<Seq<char>> {
    seq![
        "Dompet"@,
        "Kode sandi"@,
        "Bantuan"@,
        "Tidak ada perangkat"@,
        "Log"@,
        "Pindai"@,
        "Stop"@,
        "Memindai syslog..."@,
        "Buka Wallet di iPhone lalu ketuk kartunya"@,
        "Pengaturan kartu"@,
        "Pilih kartu dan gambar pengganti"@,
        "Hash kartu"@,
        "Kartu tersimpan"@,
        "Pilih..."@,
        "Ganti nama"@,
        "Pasang gambar terakhir"@,
        "Kembalikan kulit AirCard terakhir"@,
        "Gambar kartu"@,
        "PNG, JPG, WebP, PDF — geser/zoom lalu pasang"@,
        "Pilih gambar..."@,
        "Ekspor PNG"@,
        "Bingkai"@,
        "Zoom"@,
        "Geser X"@,
        "Geser Y"@,
        "Tulis ke iPhone"@,
        "Pasang kulit kartu"@,
        "Pratinjau Wallet"@,
        "Setelah selesai, paksa tutup Wallet lalu buka lagi."@,
        "Tutup iTunes / Apple Devices dulu — mereka memblokir AirTraffic."@,
        "Tema kode sandi"@,
        ".passthm Cowabunga/Nugget, atau potong wallpaper (gaya Mac)"@,
        "Pilih .passthm..."@,
        "Pembuat tema"@,
        "Potong poster"@,
        "Pilih wallpaper..."@,
        "Pasang keypad hasil potong"@,
        "Cache iOS"@,
        "Bahasa keypad"@,
        "Pasang tema kode sandi"@,
        "Cache Teks Tebal ikut dipasang (--white-bold). Kunci layar untuk melihat."@,
        "Siap"@,
    ]
}

/// The texts of `lang`, field by field in declaration order.
pub open spec fn texts_for(lang: Lang) -> Seq<Seq<char>> {
    match lang {
        Lang::En => english_texts(),
        Lang::Id => indonesian_texts(),
    }
}

/// The interface texts of `lang`.
pub fn t(lang: Lang) -> (r: T)
    ensures
        texts_of(r) == texts_for(lang),
{
    let r = match lang {
        Lang::En => T {
            wallet: "Wallet",
            passcode: "Passcode",
            help: "Help",
            no_device: "No device",
            logs: "Logs",
            scan: "Scan",
            stop: "Stop",
            scanning: "Scanning syslog...",
            scanning_hint: "Open Wallet on iPhone and tap your card",
            card_config: "Card Configuration",
            card_config_sub: "Target your card and choose replacement artwork",
            target_hash: "Target Card Hash",
            saved_cards: "Saved cards",
            select: "Select...",
            rename: "Rename",
            reapply: "Apply last image",
            revert: "Revert last AirCard skin",
            artwork: "Card Skin Artwork",
            artwork_sub: "PNG, JPG, WebP, PDF — pan/zoom then flash",
            choose_image: "Choose Image...",
            export_png: "Export PNG",
            crop: "Frame",
            zoom: "Zoom",
            pan_x: "Pan X",
            pan_y: "Pan Y",
            write_iphone: "Write to iPhone",
            apply_skin: "Apply Card Skin",
            preview: "Wallet Preview",
            force_close: "After applying, force close Apple Wallet and reopen it.",
            itunes_warn: "Quit iTunes / Apple Devices first — they block AirTraffic.",
            theme_title: "Passcode Theme",
            theme_sub: "Cowabunga/Nugget .passthm, or slice a wallpaper (Mac-style)",
            choose_passthm: "Choose .passthm...",
            creator: "Theme Creator",
            poster: "Poster Slice",
            slice_wallpaper: "Choose wallpaper...",
            flash_sliced: "Flash sliced keypad",
            ios_cache: "Target iOS Cache",
            keypad_lang: "Keypad Language",
            apply_passcode: "Apply Passcode Theme",
            bold_note: "Bold Text caches are flashed too (--white-bold). Lock the phone to view.",
            ready: "Ready",
        },
        Lang::Id => T {
            wallet: "Dompet",
            passcode: "Kode sandi",
            help: "Bantuan",
            no_device: "Tidak ada perangkat",
            logs: "Log",
            scan: "Pindai",
            stop: "Stop",
            scanning: "Memindai syslog...",
            scanning_hint: "Buka Wallet di iPhone lalu ketuk kartunya",
            card_config: "Pengaturan kartu",
            card_config_sub: "Pilih kartu dan gambar pengganti",
            target_hash: "Hash kartu",
            saved_cards: "Kartu tersimpan",
            select: "Pilih...",
            rename: "Ganti nama",
            reapply: "Pasang gambar terakhir",
            revert: "Kembalikan kulit AirCard terakhir",
            artwork: "Gambar kartu",
            artwork_sub: "PNG, JPG, WebP, PDF — geser/zoom lalu pasang",
            choose_image: "Pilih gambar...",
            export_png: "Ekspor PNG",
            crop: "Bingkai",
            zoom: "Zoom",
            pan_x: "Geser X",
            pan_y: "Geser Y",
            write_iphone: "Tulis ke iPhone",
            apply_skin: "Pasang kulit kartu",
            preview: "Pratinjau Wallet",
            force_close: "Setelah selesai, paksa tutup Wallet lalu buka lagi.",
            itunes_warn: "Tutup iTunes / Apple Devices dulu — mereka memblokir AirTraffic.",
            theme_title: "Tema kode sandi",
            theme_sub: ".passthm Cowabunga/Nugget, atau potong wallpaper (gaya Mac)",
            choose_passthm: "Pilih .passthm...",
            creator: "Pembuat tema",
            poster: "Potong poster",
            slice_wallpaper: "Pilih wallpaper...",
            flash_sliced: "Pasang keypad hasil potong",
            ios_cache: "Cache iOS",
            keypad_lang: "Bahasa keypad",
            apply_passcode: "Pasang tema kode sandi",
            bold_note: "Cache Teks Tebal ikut dipasang (--white-bold). Kunci layar untuk melihat.",
            ready: "Siap",
        },
    };
    assert(texts_of(r) =~= texts_for(lang));
    r
}

/// Saved user settings.
#[derive(Clone, Copy, PartialEq, Eq, Structural, Debug)]
pub struct Settings {
    /// The interface language.
    pub lang: Lang,
}

impl Default for Settings {
    fn default() -> (r: Settings)
        ensures
            r == (Settings { lang: Lang::En }),
    {
        Settings { lang: Lang::En }
    }
}

} // verus!
