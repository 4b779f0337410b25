//! Poster-sliced passcode keypads: one framed wallpaper becomes ten round
//! key buttons, written under the file names of a passcode theme.

use vstd::prelude::*;
use crate::image_skin::{ImageFailure, RgbaBuffer, default_png_encoding, png_signature};
use crate::text::{digit_char, push_str, str_eq, string_of};
use crate::flasher::{items_view, strings_view};

verus! {

/// Side of one key button, in pixels.
pub const KEY_PX: u32 = 300;

/// Width of the framed keypad grid: three buttons.
pub const GRID_WIDTH: u32 = 900;

/// Height of the framed keypad grid: four buttons.
pub const GRID_HEIGHT: u32 = 1200;

/// The digit of key `k` of the keypad, read row by row: 1 to 9, then 0.
pub open spec fn key_digit(k: int) -> Seq<char> {
    if k == 0 {
        "1"@
    } else if k == 1 {
        "2"@
    } else if k == 2 {
        "3"@
    } else if k == 3 {
        "4"@
    } else if k == 4 {
        "5"@
    } else if k == 5 {
        "6"@
    } else if k == 6 {
        "7"@
    } else if k == 7 {
        "8"@
    } else if k == 8 {
        "9"@
    } else {
        "0"@
    }
}

/// The grid column of key `k`: three keys a row, 0 in the middle of the last.
pub open spec fn key_col(k: int) -> int {
    if k == 9 {
        1
    } else {
        k % 3
    }
}

/// The grid row of key `k`.
pub open spec fn key_row(k: int) -> int {
    if k == 9 {
        3
    } else {
        k / 3
    }
}

/// The ten keys tile the iOS keypad, 3 keys a row: key `k` of 1 to 9 is
/// digit `k + 1` in column `k % 3` of row `k / 3`, and 0 is the middle key
/// of the last row, right under 8. No two keys share a cell or a digit.
pub proof fn lemma_keypad_layout()
    ensures
        forall|k: int| 0 <= k < 9 ==> #[trigger] key_col(k) == k % 3 && key_row(k) == k / 3
            && key_digit(k) == seq![digit_char(k + 1)],
        key_col(9) == 1 && key_row(9) == 3 && key_digit(9) == seq!['0'],
        key_col(9) == key_col(7) && key_row(9) == key_row(7) + 1,
        forall|a: int, b: int|
            #![trigger key_col(a), key_col(b)]
            0 <= a < b < 10 ==> (key_col(a), key_row(a)) != (key_col(b), key_row(b)) && key_digit(a)
                != key_digit(b),
{
    reveal_strlit("1");
    reveal_strlit("2");
    reveal_strlit("3");
    reveal_strlit("4");
    reveal_strlit("5");
    reveal_strlit("6");
    reveal_strlit("7");
    reveal_strlit("8");
    reveal_strlit("9");
    reveal_strlit("0");
    assert forall|k: int| 0 <= k < 9 implies #[trigger] key_col(k) == k % 3 && key_row(k) == k / 3
        && key_digit(k) == seq![digit_char(k + 1)] by {
        assert(key_digit(k) =~= seq![digit_char(k + 1)]);
    }
    assert(key_digit(9) =~= seq!['0']);
    assert forall|a: int, b: int|
        #![trigger key_col(a), key_col(b)]
        0 <= a < b < 10 implies (key_col(a), key_row(a)) != (key_col(b), key_row(b)) && key_digit(a)
            != key_digit(b) by {
        assert(key_digit(a)[0] != key_digit(b)[0]);
    }
}

/// The digit, column and row of key `k` of the 3 by 4 keypad.
pub fn key_at(k: usize) -> (r: (&'static str, u32, u32))
    requires
        k < 10,
    ensures
        r.0@ == key_digit(k as int),
        r.1 == key_col(k as int),
        r.2 == key_row(k as int),
        k < 9 ==> r.1 == k % 3 && r.2 == k / 3 && r.0@ == seq![digit_char(k + 1)],
        k == 9 ==> r.1 == 1 && r.2 == 3 && r.0@ == seq!['0'],
{
    proof {
        lemma_keypad_layout();
    }
    if k == 0 {
        ("1", 0, 0)
    } else if k == 1 {
        ("2", 1, 0)
    } else if k == 2 {
        ("3", 2, 0)
    } else if k == 3 {
        ("4", 0, 1)
    } else if k == 4 {
        ("5", 1, 1)
    } else if k == 5 {
        ("6", 2, 1)
    } else if k == 6 {
        ("7", 0, 2)
    } else if k == 7 {
        ("8", 1, 2)
    } else if k == 8 {
        ("9", 2, 2)
    } else {
        ("0", 1, 3)
    }
}

/// Pixel `(x, y)` of a button lies inside its circle of radius 150.
pub open spec fn in_circle(x: int, y: int) -> bool {
    (x - 150) * (x - 150) + (y - 150) * (y - 150) <= 22500
}

/// Byte `i` of the button cut from grid cell `(col, row)`: pixels inside the
/// circle are copied from the cell, the others are transparent black.
pub open spec fn button_byte(grid: Seq<u8>, col: int, row: int, i: int) -> u8 {
    let p = i / 4;
    let x = p % 300;
    let y = p / 300;
    if in_circle(x, y) {
        grid[((row * 300 + y) * 900 + col * 300 + x) * 4 + i % 4]
    } else {
        0
    }
}

/// The RGBA pixels of the 300 by 300 button cut from grid cell `(col, row)`.
pub open spec fn button_pixels(grid: Seq<u8>, col: int, row: int) -> Seq<u8> {
    Seq::new(360000, |i: int| button_byte(grid, col, row, i))
}

/// Cuts the round button of grid cell `(col, row)` out of the framed
/// 900 by 1200 keypad grid.
pub fn cut_key_button(grid: &RgbaBuffer, col: u32, row: u32) -> (r: Vec<u8>)
    requires
        grid.spec_width() == GRID_WIDTH,
        grid.spec_height() == GRID_HEIGHT,
        col < 3,
        row < 4,
    ensures
        r@ == button_pixels(grid.spec_pixels(), col as int, row as int),
{
    let pixels = grid.pixels();
    assert(pixels@.len() == 4320000);
    let mut out: Vec<u8> = Vec::new();
    let mut i: usize = 0;
    while i < 360000
        invariant
            pixels@ == grid.spec_pixels(),
            pixels@.len() == 4320000,
            col < 3,
            row < 4,
            i <= 360000,
            out@.len() == i,
            forall|j: int| 0 <= j < i ==> out@[j] == button_byte(pixels@, col as int, row as int, j),
        decreases 360000 - i,
    {
        let p = i / 4;
        let ch = i % 4;
        let x = p % 300;
        let y = p / 300;
        assert(y < 300);
        let dx: i64 = x as i64 - 150;
        let dy: i64 = y as i64 - 150;
        assert(0 <= dx * dx <= 22500 && 0 <= dy * dy <= 22500) by (nonlinear_arith)
            requires
                -150 <= dx <= 150,
                -150 <= dy <= 150,
        ;
        let inside = dx * dx + dy * dy <= 22500;
        let b: u8 = if inside {
            let idx = ((row as usize * 300 + y) * 900 + col as usize * 300 + x) * 4 + ch;
            pixels[idx]
        } else {
            0
        };
        out.push(b);
        i = i + 1;
    }
    assert(out@ =~= button_pixels(grid.spec_pixels(), col as int, row as int));
    out
}

/// Named files as plain values.
pub open spec fn named_files_view(v: Seq<(String, Vec<u8>)>) -> Seq<(Seq<char>, Seq<u8>)> {
    v.map_values(|f: (String, Vec<u8>)| (f.0@, f.1@))
}

/// The ten key buttons of a framed keypad grid as PNG files, in keypad order
/// (1 to 9, then 0), each named by its digit.
pub open spec fn poster_keys_ok(keys: Seq<(Seq<char>, Seq<u8>)>, grid: Seq<u8>) -> bool {
    &&& keys.len() == 10
    &&& forall|k: int|
        #![trigger keys[k]]
        0 <= k < 10 ==> {
            &&& keys[k].0 == key_digit(k)
            &&& keys[k].1 == default_png_encoding(300, 300, button_pixels(grid, key_col(k), key_row(k)))
            &&& keys[k].1.len() >= 8
            &&& keys[k].1.subrange(0, 8) == png_signature()
        }
}

/// Slices a wallpaper, already framed and resized to the 900 by 1200 keypad
/// grid, into ten round key buttons, each encoded as PNG.
pub fn slice_poster(grid: &RgbaBuffer) -> (r: Result<Vec<(String, Vec<u8>)>, ImageFailure>)
    requires
        grid.spec_width() == GRID_WIDTH,
        grid.spec_height() == GRID_HEIGHT,
    ensures
        r matches Ok(keys) && poster_keys_ok(named_files_view(keys@), grid.spec_pixels()),
{
    let mut out: Vec<(String, Vec<u8>)> = Vec::new();
    let mut k: usize = 0;
    while k < 10
        invariant
            grid.spec_width() == GRID_WIDTH,
            grid.spec_height() == GRID_HEIGHT,
            k <= 10,
            out@.len() == k,
            forall|j: int|
                #![trigger out@[j]]
                0 <= j < k ==> {
                    &&& out@[j].0@ == key_digit(j)
                    &&& out@[j].1@ == default_png_encoding(
                        300,
                        300,
                        button_pixels(grid.spec_pixels(), key_col(j), key_row(j)),
                    )
                    &&& out@[j].1@.len() >= 8
                    &&& out@[j].1@.subrange(0, 8) == png_signature()
                },
        decreases 10 - k,
    {
        let (digit, col, row) = key_at(k);
        let button = cut_key_button(grid, col, row);
        let png = match crate::image_skin::encode_button_png(&button) {
            Ok(p) => p,
            Err(e) => return Err(e),
        };
        out.push((string_of(digit), png));
        k = k + 1;
    }
    assert(named_files_view(out@).len() == 10);
    Ok(out)
}

/// The English letters printed under each digit key; none under 0 and 1.
pub open spec fn subtext_en(digit: Seq<char>) -> Seq<char> {
    if digit == "2"@ {
        "ABC"@
    } else if digit == "3"@ {
        "DEF"@
    } else if digit == "4"@ {
        "GHI"@
    } else if digit == "5"@ {
        "JKL"@
    } else if digit == "6"@ {
        "MNO"@
    } else if digit == "7"@ {
        "PQRS"@
    } else if digit == "8"@ {
        "TUV"@
    } else if digit == "9"@ {
        "WXYZ"@
    } else {
        ""@
    }
}

/// The letters printed under a digit key.
pub fn keypad_subtext(digit: &str) -> (r: &'static str)
    ensures
        r@ == subtext_en(digit@),
{
    if str_eq(digit, "2") {
        "ABC"
    } else if str_eq(digit, "3") {
        "DEF"
    } else if str_eq(digit, "4") {
        "GHI"
    } else if str_eq(digit, "5") {
        "JKL"
    } else if str_eq(digit, "6") {
        "MNO"
    } else if str_eq(digit, "7") {
        "PQRS"
    } else if str_eq(digit, "8") {
        "TUV"
    } else if str_eq(digit, "9") {
        "WXYZ"
    } else {
        ""
    }
}

/// The cache file names one key button is written under: regular and Bold
/// Text variants for English and other languages, with the letters in the
/// name where the key has letters (plus the letter-less regular names).
pub open spec fn key_file_names(digit: Seq<char>, sub: Seq<char>) -> Seq<Seq<char>> {
    if sub.len() == 0 {
        seq![
            "en-"@ + digit + "---white.png"@,
            "en-"@ + digit + "---white-bold.png"@,
            "other-"@ + digit + "---white.png"@,
            "other-"@ + digit + "---white-bold.png"@,
        ]
    } else {
        seq![
            "en-"@ + digit + "-"@ + sub + "--white.png"@,
            "en-"@ + digit + "-"@ + sub + "--white-bold.png"@,
            "other-"@ + digit + "-"@ + sub + "--white.png"@,
            "other-"@ + digit + "-"@ + sub + "--white-bold.png"@,
            "en-"@ + digit + "---white.png"@,
            "other-"@ + digit + "---white.png"@,
        ]
    }
}

/// The cache writes of a set of key buttons, key by key in the given order.
pub open spec fn passthm_items(digits: Seq<(Seq<char>, Seq<u8>)>, tdir: Seq<char>) -> Seq<(Seq<char>, Seq<char>, Seq<u8>)>
    decreases digits.len(),
{
    if digits.len() == 0 {
        seq![]
    } else {
        let last = digits.last();
        passthm_items(digits.drop_last(), tdir) + key_file_names(last.0, subtext_en(last.0)).map_values(
            |name: Seq<char>| (tdir, name, last.1),
        )
    }
}

/// The telephony cache directory of an iOS generation, e.g. `TelephonyUI-10`.
pub open spec fn telephony_dir(telephony: Seq<char>) -> Seq<char> {
    "/var/mobile/Library/Caches/"@ + telephony
}

fn concat3(a: &str, b: &str, c: &str) -> (r: String)
    ensures
        r@ == a@ + b@ + c@,
{
    let mut out = string_of(a);
    push_str(&mut out, b);
    push_str(&mut out, c);
    out
}

fn concat5(a: &str, b: &str, c: &str, d: &str, e: &str) -> (r: String)
    ensures
        r@ == a@ + b@ + c@ + d@ + e@,
{
    let mut out = string_of(a);
    push_str(&mut out, b);
    push_str(&mut out, c);
    push_str(&mut out, d);
    push_str(&mut out, e);
    out
}

/// The cache file names of the button for `digit`.
fn key_names(digit: &str, sub: &str) -> (r: Vec<String>)
    ensures
        strings_view(r@) == key_file_names(digit@, sub@),
{
    let mut v: Vec<String> = Vec::new();
    if sub.unicode_len() == 0 {
        v.push(concat3("en-", digit, "---white.png"));
        v.push(concat3("en-", digit, "---white-bold.png"));
        v.push(concat3("other-", digit, "---white.png"));
        v.push(concat3("other-", digit, "---white-bold.png"));
    } else {
        v.push(concat5("en-", digit, "-", sub, "--white.png"));
        v.push(concat5("en-", digit, "-", sub, "--white-bold.png"));
        v.push(concat5("other-", digit, "-", sub, "--white.png"));
        v.push(concat5("other-", digit, "-", sub, "--white-bold.png"));
        v.push(concat3("en-", digit, "---white.png"));
        v.push(concat3("other-", digit, "---white.png"));
    }
    assert(strings_view(v@) =~= key_file_names(digit@, sub@));
    v
}

/// The passcode-theme cache writes of key buttons named by digit, into the
/// cache directory of `telephony`: each button under each of its file names.
pub fn sliced_to_passthm_items(digits: &Vec<(String, Vec<u8>)>, telephony: &str) -> (r: Vec<(String, String, Vec<u8>)>)
    ensures
        items_view(r@) == passthm_items(named_files_view(digits@), telephony_dir(telephony@)),
{
    let mut tdir = string_of("/var/mobile/Library/Caches/");
    push_str(&mut tdir, telephony);
    assert(tdir@ =~= telephony_dir(telephony@));
    let ghost dv = named_files_view(digits@);
    let mut items: Vec<(String, String, Vec<u8>)> = Vec::new();
    let mut i: usize = 0;
    while i < digits.len()
        invariant
            dv == named_files_view(digits@),
            tdir@ == telephony_dir(telephony@),
            i <= digits@.len(),
            items_view(items@) == passthm_items(dv.subrange(0, i as int), tdir@),
        decreases digits@.len() - i,
    {
        let digit = digits[i].0.as_str();
        let sub = keypad_subtext(digit);
        let names = key_names(digit, sub);
        let ghost before = items_view(items@);
        let ghost want = key_file_names(digit@, sub@).map_values(
            |name: Seq<char>| (tdir@, name, digits@[i as int].1@),
        );
        let mut j: usize = 0;
        while j < names.len()
            invariant
                j <= names@.len(),
                strings_view(names@) == key_file_names(digit@, sub@),
                want == key_file_names(digit@, sub@).map_values(
                    |name: Seq<char>| (tdir@, name, digits@[i as int].1@),
                ),
                items_view(items@) == before + want.subrange(0, j as int),
                i < digits@.len(),
            decreases names@.len() - j,
        {
            let png = digits[i].1.clone();
            let name = names[j].clone();
            let dir = tdir.clone();
            let ghost old_items = items@;
            items.push((dir, name, png));
            assert(want[j as int] == (tdir@, names@[j as int]@, digits@[i as int].1@));
            assert(items_view(items@) =~= items_view(old_items).push(want[j as int]));
            assert(want.subrange(0, j + 1) =~= want.subrange(0, j as int).push(want[j as int]));
            j = j + 1;
        }
        assert(want.subrange(0, names@.len() as int) =~= want);
        let ghost pre = dv.subrange(0, i + 1);
        assert(pre.drop_last() =~= dv.subrange(0, i as int));
        assert(pre.last() == (digit@, digits@[i as int].1@));
        i = i + 1;
    }
    assert(dv.subrange(0, digits@.len() as int) =~= dv);
    items
}

/// The archive entries of a sliced keypad as a passcode theme: each cache
/// write for `TelephonyUI-10`, named `TelephonyUI-10/<file name>`.
pub fn export_sliced_passthm(digits: &Vec<(String, Vec<u8>)>) -> (r: Vec<(String, Vec<u8>)>)
    ensures
        named_files_view(r@) == passthm_items(
            named_files_view(digits@),
            telephony_dir("TelephonyUI-10"@),
        ).map_values(|it: (Seq<char>, Seq<char>, Seq<u8>)| ("TelephonyUI-10/"@ + it.1, it.2)),
{
    let items = sliced_to_passthm_items(digits, "TelephonyUI-10");
    let ghost iv = items_view(items@);
    let mut files: Vec<(String, Vec<u8>)> = Vec::new();
    let mut i: usize = 0;
    while i < items.len()
        invariant
            iv == items_view(items@),
            i <= items@.len(),
            named_files_view(files@) == iv.subrange(0, i as int).map_values(
                |it: (Seq<char>, Seq<char>, Seq<u8>)| ("TelephonyUI-10/"@ + it.1, it.2),
            ),
        decreases items@.len() - i,
    {
        let mut name = string_of("TelephonyUI-10/");
        push_str(&mut name, items[i].1.as_str());
        let data = items[i].2.clone();
        let ghost old_files = files@;
        files.push((name, data));
        assert(iv[i as int] == (items@[i as int].0@, items@[i as int].1@, items@[i as int].2@));
        assert(named_files_view(files@) =~= named_files_view(old_files).push(
            ("TelephonyUI-10/"@ + iv[i as int].1, iv[i as int].2),
        ));
        assert(iv.subrange(0, i + 1) =~= iv.subrange(0, i as int).push(iv[i as int]));
        i = i + 1;
    }
    assert(iv.subrange(0, items@.len() as int) =~= iv);
    files
}


/// `name` ends with `suffix`.
pub open spec fn ends_with(name: Seq<char>, suffix: Seq<char>) -> bool {
    suffix.len() <= name.len() && name.subrange(name.len() - suffix.len(), name.len() as int) == suffix
}

/// Every key button is written for the regular and for the Bold Text
/// setting: among its cache names are a `--white.png` and a
/// `--white-bold.png` name, for English and for other languages.
pub proof fn lemma_bold_text_written(digit: Seq<char>, sub: Seq<char>)
    ensures
        ({
            let names = key_file_names(digit, sub);
            &&& ends_with(names[0], "--white.png"@)
            &&& ends_with(names[1], "--white-bold.png"@)
            &&& ends_with(names[2], "--white.png"@)
            &&& ends_with(names[3], "--white-bold.png"@)
            &&& has_prefix_seq(names[0], "en-"@) && has_prefix_seq(names[1], "en-"@)
            &&& has_prefix_seq(names[2], "other-"@) && has_prefix_seq(names[3], "other-"@)
        }),
{
    reveal_strlit("---white.png");
    reveal_strlit("---white-bold.png");
    reveal_strlit("--white.png");
    reveal_strlit("--white-bold.png");
    reveal_strlit("en-");
    reveal_strlit("other-");
    let names = key_file_names(digit, sub);
    if sub.len() == 0 {
        assert(names[0].subrange(names[0].len() - 11, names[0].len() as int) =~= "--white.png"@);
        assert(names[1].subrange(names[1].len() - 16, names[1].len() as int) =~= "--white-bold.png"@);
        assert(names[2].subrange(names[2].len() - 11, names[2].len() as int) =~= "--white.png"@);
        assert(names[3].subrange(names[3].len() - 16, names[3].len() as int) =~= "--white-bold.png"@);
    } else {
        assert(names[0].subrange(names[0].len() - 11, names[0].len() as int) =~= "--white.png"@);
        assert(names[1].subrange(names[1].len() - 16, names[1].len() as int) =~= "--white-bold.png"@);
        assert(names[2].subrange(names[2].len() - 11, names[2].len() as int) =~= "--white.png"@);
        assert(names[3].subrange(names[3].len() - 16, names[3].len() as int) =~= "--white-bold.png"@);
    }
    assert(names[0].subrange(0, 3) =~= "en-"@);
    assert(names[1].subrange(0, 3) =~= "en-"@);
    assert(names[2].subrange(0, 6) =~= "other-"@);
    assert(names[3].subrange(0, 6) =~= "other-"@);
}

/// `s` begins with `p`.
pub open spec fn has_prefix_seq(s: Seq<char>, p: Seq<char>) -> bool {
    p.len() <= s.len() && s.subrange(0, p.len() as int) == p
}


/// The file extensions tried, in order, for each key image of a folder.
pub const KEY_IMAGE_EXTENSIONS: [&'static str; 4] = ["png", "jpg", "jpeg", "webp"];

/// The digit `d` as a one-character string.
pub open spec fn digit_name(d: int) -> Seq<char> {
    seq![(48 + d) as char]
}

fn digit_string(d: usize) -> (r: String)
    requires
        d < 10,
    ensures
        r@ == digit_name(d as int),
{
    let mut s = String::new();
    let b: u8 = d as u8;
    crate::text::push_char(&mut s, (b + 48) as char);
    assert(s@ =~= digit_name(d as int));
    s
}

/// The key images found in a folder, digit by digit from 0 to 9.
pub open spec fn found_keys(found: Seq<Option<Seq<u8>>>, k: int) -> Seq<(Seq<char>, Seq<u8>)>
    decreases k,
{
    if k <= 0 {
        seq![]
    } else {
        let before = found_keys(found, k - 1);
        if k - 1 < found.len() && found[k - 1] is Some {
            before.push((digit_name(k - 1), found[k - 1].unwrap()))
        } else {
            before
        }
    }
}

/// The key images of a folder holding `0.png` to `9.png` (or another
/// extension of `KEY_IMAGE_EXTENSIONS`): `found[d]` is the image found for
/// digit `d`, if any. All ten are needed; otherwise the answer is how many
/// were found.
pub fn load_individual_keys(found: &Vec<Option<Vec<u8>>>) -> (r: Result<Vec<(String, Vec<u8>)>, usize>)
    ensures
        ({
            let keys = found_keys(crate::flasher::exports_view(found@), 10);
            match r {
                Ok(v) => keys.len() == 10 && named_files_view(v@) == keys,
                Err(n) => keys.len() < 10 && n == keys.len(),
            }
        }),
{
    let ghost fv = crate::flasher::exports_view(found@);
    let mut out: Vec<(String, Vec<u8>)> = Vec::new();
    let mut d: usize = 0;
    while d < 10
        invariant
            fv == crate::flasher::exports_view(found@),
            d <= 10,
            named_files_view(out@) == found_keys(fv, d as int),
            out@.len() <= d,
        decreases 10 - d,
    {
        if d < found.len() {
            match &found[d] {
                Some(bytes) => {
                    let name = digit_string(d);
                    let ghost old_out = out@;
                    out.push((name, bytes.clone()));
                    assert(fv[d as int] == Some(bytes@));
                    assert(named_files_view(out@) =~= named_files_view(old_out).push(
                        (digit_name(d as int), bytes@),
                    ));
                },
                None => {},
            }
        }
        d = d + 1;
    }
    if out.len() < 10 {
        Err(out.len())
    } else {
        Ok(out)
    }
}

} // verus!
