//! Per-device backups of a card's original Wallet artwork. A saved original
//! is never overwritten.

use vstd::prelude::*;
use crate::text::{push_char, push_str, str_eq, string_of};
use crate::paths::{join_path, joined};

verus! {

/// The artwork files of a Wallet pass that are backed up, in backup order.
#[derive(Clone, Copy, PartialEq, Eq, Structural, Debug)]
pub enum OriginalAsset {
    Combined3x,
    Combined2x,
    CombinedPdf,
}

/// The file name of each backed-up asset.
pub open spec fn asset_name(a: OriginalAsset) -> Seq<char> {
    match a {
        OriginalAsset::Combined3x => "cardBackgroundCombined@3x.png"@,
        OriginalAsset::Combined2x => "cardBackgroundCombined@2x.png"@,
        OriginalAsset::CombinedPdf => "cardBackgroundCombined.pdf"@,
    }
}

/// The position of each asset in the backup order.
pub open spec fn asset_index(a: OriginalAsset) -> int {
    match a {
        OriginalAsset::Combined3x => 0,
        OriginalAsset::Combined2x => 1,
        OriginalAsset::CombinedPdf => 2,
    }
}

/// The asset at position `i` of the backup order.
pub open spec fn asset_at(i: int) -> OriginalAsset {
    if i == 0 {
        OriginalAsset::Combined3x
    } else if i == 1 {
        OriginalAsset::Combined2x
    } else {
        OriginalAsset::CombinedPdf
    }
}

/// The asset whose file name is `leaf`, if any.
pub open spec fn asset_named(leaf: Seq<char>) -> Option<OriginalAsset> {
    if leaf == asset_name(OriginalAsset::Combined3x) {
        Some(OriginalAsset::Combined3x)
    } else if leaf == asset_name(OriginalAsset::Combined2x) {
        Some(OriginalAsset::Combined2x)
    } else if leaf == asset_name(OriginalAsset::CombinedPdf) {
        Some(OriginalAsset::CombinedPdf)
    } else {
        None
    }
}

impl OriginalAsset {
    /// The asset's file name.
    pub fn file_name(self) -> (r: &'static str)
        ensures
            r@ == asset_name(self),
    {
        match self {
            OriginalAsset::Combined3x => "cardBackgroundCombined@3x.png",
            OriginalAsset::Combined2x => "cardBackgroundCombined@2x.png",
            OriginalAsset::CombinedPdf => "cardBackgroundCombined.pdf",
        }
    }

    /// The asset named `leaf`, or `None` for any other file name.
    pub fn from_leaf(leaf: &str) -> (r: Option<OriginalAsset>)
        ensures
            r == asset_named(leaf@),
    {
        if str_eq(leaf, "cardBackgroundCombined@3x.png") {
            Some(OriginalAsset::Combined3x)
        } else if str_eq(leaf, "cardBackgroundCombined@2x.png") {
            Some(OriginalAsset::Combined2x)
        } else if str_eq(leaf, "cardBackgroundCombined.pdf") {
            Some(OriginalAsset::CombinedPdf)
        } else {
            None
        }
    }
}

/// The backed-up file names, in backup order.
pub fn original_assets() -> (r: Vec<&'static str>)
    ensures
        r@.len() == 3,
        forall|i: int| 0 <= i < 3 ==> (#[trigger] r@[i])@ == asset_name(asset_at(i)),
{
    let mut v: Vec<&'static str> = Vec::new();
    v.push(OriginalAsset::Combined3x.file_name());
    v.push(OriginalAsset::Combined2x.file_name());
    v.push(OriginalAsset::CombinedPdf.file_name());
    v
}

/// Characters kept as they are in a directory name.
pub open spec fn is_safe_char(c: char) -> bool {
    ||| ('a' <= c && c <= 'z')
    ||| ('A' <= c && c <= 'Z')
    ||| ('0' <= c && c <= '9')
    ||| c == '-'
    ||| c == '_'
    ||| c == '.'
}

/// `c`, or `_` where it is not safe in a directory name.
pub open spec fn safe_char(c: char) -> char {
    if is_safe_char(c) {
        c
    } else {
        '_'
    }
}

/// `value` with every unsafe character replaced by `_`, or `unknown` when
/// `value` is empty.
pub open spec fn safe_component_spec(value: Seq<char>) -> Seq<char> {
    if value.len() == 0 {
        "unknown"@
    } else {
        value.map_values(|c: char| safe_char(c))
    }
}

/// A directory-name-safe spelling of `value`.
pub fn safe_component(value: &str) -> (r: String)
    ensures
        r@ == safe_component_spec(value@),
{
    let n = value.unicode_len();
    if n == 0 {
        return string_of("unknown");
    }
    let mut out = String::new();
    let mut i: usize = 0;
    while i < n
        invariant
            n == value@.len(),
            i <= n,
            out@ == value@.subrange(0, i as int).map_values(|c: char| safe_char(c)),
        decreases n - i,
    {
        let c = value.get_char(i);
        let kept = ('a' <= c && c <= 'z') || ('A' <= c && c <= 'Z') || ('0' <= c && c <= '9')
            || c == '-' || c == '_' || c == '.';
        if kept {
            push_char(&mut out, c);
        } else {
            push_char(&mut out, '_');
        }
        assert(value@.subrange(0, i + 1) =~= value@.subrange(0, i as int).push(c));
        i = i + 1;
        assert(out@ =~= value@.subrange(0, i as int).map_values(|c: char| safe_char(c)));
    }
    assert(value@.subrange(0, n as int) =~= value@);
    out
}

/// The name of the backup directory of one card on one device.
pub open spec fn backup_dir_name(udid: Seq<char>, card_hash: Seq<char>) -> Seq<char> {
    safe_component_spec(udid) + seq!['-'] + safe_component_spec(card_hash)
}

/// The backup directory of one card on one device, below the local
/// application data directory `local_app_data`.
pub open spec fn backup_dir_spec(local_app_data: Seq<char>, udid: Seq<char>, card_hash: Seq<char>) -> Seq<char> {
    joined(
        joined(joined(local_app_data, "AirCard"@), "wallet-originals"@),
        backup_dir_name(udid, card_hash),
    )
}

/// The backup directory of one card on one device:
/// `<local_app_data>/AirCard/wallet-originals/<udid>-<card_hash>`, each of
/// the two names made directory-safe.
pub fn backup_dir(local_app_data: &str, udid: &str, card_hash: &str) -> (r: String)
    ensures
        r@ == backup_dir_spec(local_app_data@, udid@, card_hash@),
{
    let app = join_path(local_app_data, "AirCard");
    let root = join_path(app.as_str(), "wallet-originals");
    let mut name = safe_component(udid);
    push_char(&mut name, '-');
    let h = safe_component(card_hash);
    push_str(&mut name, h.as_str());
    join_path(root.as_str(), name.as_str())
}


/// Why a backup operation was refused.
#[derive(Clone, Copy, PartialEq, Eq, Structural, Debug)]
pub enum BackupError {
    /// The file name is not one of the backed-up assets.
    UnsupportedAsset,
    /// No non-empty original is stored for the card.
    NoBackup,
}

/// The text of a backup refusal; `leaf` is the file that was to be saved.
pub open spec fn backup_error_text(e: BackupError, leaf: Seq<char>) -> Seq<char> {
    match e {
        BackupError::UnsupportedAsset => "unsupported original asset "@ + leaf,
        BackupError::NoBackup => "No original artwork backup for this card. Save original before flashing."@,
    }
}

impl BackupError {
    /// The message reported for this refusal; `leaf` is the file that was to
    /// be saved.
    pub fn message(&self, leaf: &str) -> (r: String)
        ensures
            r@ == backup_error_text(*self, leaf@),
    {
        match self {
            BackupError::UnsupportedAsset => {
                let mut m = string_of("unsupported original asset ");
                push_str(&mut m, leaf);
                m
            },
            BackupError::NoBackup => string_of(
                "No original artwork backup for this card. Save original before flashing.",
            ),
        }
    }
}

/// The backup directory of one card: for each asset, the stored file, if
/// there is one.
pub struct BackupDir {
    combined_3x: Option<Vec<u8>>,
    combined_2x: Option<Vec<u8>>,
    combined_pdf: Option<Vec<u8>>,
}

/// A stored file as a plain value.
pub open spec fn slot_view(o: Option<Vec<u8>>) -> Option<Seq<u8>> {
    match o {
        Some(v) => Some(v@),
        None => None,
    }
}

impl View for BackupDir {
    type V = Seq<Option<Seq<u8>>>;

    /// The stored files in backup order.
    closed spec fn view(&self) -> Seq<Option<Seq<u8>>> {
        seq![slot_view(self.combined_3x), slot_view(self.combined_2x), slot_view(self.combined_pdf)]
    }
}

/// What a save request does to a backup directory and what it answers:
/// an unknown file name is refused; a stored original stays as it is and the
/// answer is `false`; otherwise the data is stored and the answer is `true`.
pub open spec fn save_outcome(dir: Seq<Option<Seq<u8>>>, leaf: Seq<char>, data: Seq<u8>) -> (
    Seq<Option<Seq<u8>>>,
    Result<bool, BackupError>,
) {
    match asset_named(leaf) {
        None => (dir, Err(BackupError::UnsupportedAsset)),
        Some(a) => if dir[asset_index(a)] is Some {
            (dir, Ok(false))
        } else {
            (dir.update(asset_index(a), Some(data)), Ok(true))
        },
    }
}

/// The stored non-empty originals among the first `k` assets, in backup order.
pub open spec fn stored_originals(dir: Seq<Option<Seq<u8>>>, k: int) -> Seq<(Seq<char>, Seq<u8>)>
    decreases k,
{
    if k <= 0 {
        seq![]
    } else {
        let before = stored_originals(dir, k - 1);
        match dir[k - 1] {
            Some(d) => if d.len() > 0 {
                before.push((asset_name(asset_at(k - 1)), d))
            } else {
                before
            },
            None => before,
        }
    }
}

/// What loading a backup directory gives: its stored non-empty originals in
/// backup order, or `NoBackup` when there is none.
pub open spec fn load_outcome(dir: Seq<Option<Seq<u8>>>) -> Result<Seq<(Seq<char>, Seq<u8>)>, BackupError> {
    let found = stored_originals(dir, 3);
    if found.len() == 0 {
        Err(BackupError::NoBackup)
    } else {
        Ok(found)
    }
}

/// A list of named files as plain values.
pub open spec fn files_view(files: Seq<(String, Vec<u8>)>) -> Seq<(Seq<char>, Seq<u8>)> {
    files.map_values(|f: (String, Vec<u8>)| (f.0@, f.1@))
}

impl BackupDir {
    /// An empty backup directory.
    pub fn new() -> (r: BackupDir)
        ensures
            r@ == seq![None::<Seq<u8>>, None, None],
    {
        BackupDir { combined_3x: None, combined_2x: None, combined_pdf: None }
    }

    /// The directory as it stands on disk: `asset` holds `data`.
    pub fn record_existing(&mut self, asset: OriginalAsset, data: Vec<u8>)
        ensures
            final(self)@ == old(self)@.update(asset_index(asset), Some(data@)),
    {
        match asset {
            OriginalAsset::Combined3x => self.combined_3x = Some(data),
            OriginalAsset::Combined2x => self.combined_2x = Some(data),
            OriginalAsset::CombinedPdf => self.combined_pdf = Some(data),
        }
        assert(self@ =~= old(self)@.update(asset_index(asset), Some(data@)));
    }

    fn slot(&self, asset: OriginalAsset) -> (r: &Option<Vec<u8>>)
        ensures
            slot_view(*r) == self@[asset_index(asset)],
    {
        match asset {
            OriginalAsset::Combined3x => &self.combined_3x,
            OriginalAsset::Combined2x => &self.combined_2x,
            OriginalAsset::CombinedPdf => &self.combined_pdf,
        }
    }
}

/// A backup directory has one slot per asset.
pub proof fn lemma_backup_dir_len(dir: BackupDir)
    ensures
        dir@.len() == 3,
{
}

/// Each asset is found again by its file name.
pub proof fn lemma_asset_named(a: OriginalAsset)
    ensures
        asset_named(asset_name(a)) == Some(a),
{
    reveal_strlit("cardBackgroundCombined@3x.png");
    reveal_strlit("cardBackgroundCombined@2x.png");
    reveal_strlit("cardBackgroundCombined.pdf");
    assert("cardBackgroundCombined@3x.png"@[23] != "cardBackgroundCombined@2x.png"@[23]);
    assert("cardBackgroundCombined@3x.png"@.len() != "cardBackgroundCombined.pdf"@.len());
    assert("cardBackgroundCombined@2x.png"@.len() != "cardBackgroundCombined.pdf"@.len());
}

/// Stores `data` as the original `leaf` of the card unless an original is
/// already stored there. Answers whether it was stored.
pub fn save_original_asset(dir: &mut BackupDir, leaf: &str, data: &[u8]) -> (r: Result<bool, BackupError>)
    ensures
        (final(dir)@, r) == save_outcome(old(dir)@, leaf@, data@),
{
    match OriginalAsset::from_leaf(leaf) {
        None => Err(BackupError::UnsupportedAsset),
        Some(a) => {
            if dir.slot(a).is_some() {
                Ok(false)
            } else {
                let mut copy: Vec<u8> = Vec::new();
                let mut k: usize = 0;
                while k < data.len()
                    invariant
                        k <= data@.len(),
                        copy@ == data@.subrange(0, k as int),
                    decreases data@.len() - k,
                {
                    copy.push(data[k]);
                    k = k + 1;
                    assert(copy@ =~= data@.subrange(0, k as int));
                }
                assert(copy@ =~= data@);
                dir.record_existing(a, copy);
                Ok(true)
            }
        },
    }
}

/// The stored non-empty originals of the card in backup order, each with its
/// file name; `NoBackup` when there is none.
pub fn load_original_assets(dir: &BackupDir) -> (r: Result<Vec<(String, Vec<u8>)>, BackupError>)
    ensures
        match (r, load_outcome(dir@)) {
            (Ok(files), Ok(expected)) => files_view(files@) == expected,
            (Err(e), Err(expected)) => e == expected,
            _ => false,
        },
{
    let mut out: Vec<(String, Vec<u8>)> = Vec::new();
    let mut i: usize = 0;
    while i < 3
        invariant
            i <= 3,
            files_view(out@) == stored_originals(dir@, i as int),
        decreases 3 - i,
    {
        let asset = if i == 0 {
            OriginalAsset::Combined3x
        } else if i == 1 {
            OriginalAsset::Combined2x
        } else {
            OriginalAsset::CombinedPdf
        };
        assert(asset == asset_at(i as int));
        match dir.slot(asset) {
            Some(d) => {
                if d.len() > 0 {
                    let name = string_of(asset.file_name());
                    out.push((name, d.clone()));
                    assert(files_view(out@) =~= stored_originals(dir@, i as int).push(
                        (asset_name(asset), d@),
                    ));
                }
            },
            None => {},
        }
        i = i + 1;
    }
    if out.len() == 0 {
        Err(BackupError::NoBackup)
    } else {
        Ok(out)
    }
}

/// Whether any original of the card is stored (empty files count).
pub fn backup_exists(dir: &BackupDir) -> (r: bool)
    ensures
        r == exists|i: int| 0 <= i < 3 && (#[trigger] dir@[i]) is Some,
{
    dir.combined_3x.is_some() || dir.combined_2x.is_some() || dir.combined_pdf.is_some()
}

/// A saved original is never overwritten: whatever a later save brings, the
/// stored file stays as it was, and the later save answers `false`.
pub proof fn lemma_saved_original_is_never_overwritten(
    dir: Seq<Option<Seq<u8>>>,
    leaf: Seq<char>,
    first: Seq<u8>,
    second: Seq<u8>,
)
    requires
        dir.len() == 3,
        asset_named(leaf) is Some,
        save_outcome(dir, leaf, first).1 == Ok::<bool, BackupError>(true),
    ensures
        ({
            let after_first = save_outcome(dir, leaf, first).0;
            let (after_second, answer) = save_outcome(after_first, leaf, second);
            &&& answer == Ok::<bool, BackupError>(false)
            &&& after_second == after_first
            &&& after_second[asset_index(asset_named(leaf).unwrap())] == Some(first)
        }),
{
}

/// A stored slot is left alone by every save.
pub proof fn lemma_save_keeps_stored(
    dir: Seq<Option<Seq<u8>>>,
    leaf: Seq<char>,
    data: Seq<u8>,
    i: int,
)
    requires
        dir.len() == 3,
        0 <= i < 3,
        dir[i] is Some,
    ensures
        save_outcome(dir, leaf, data).0[i] == dir[i],
{
}

/// What is loaded after saving a non-empty original into an empty backup
/// directory is exactly that original.
pub proof fn lemma_load_gives_back_first_save(leaf: Seq<char>, first: Seq<u8>, second: Seq<u8>)
    requires
        asset_named(leaf) is Some,
        first.len() > 0,
    ensures
        ({
            let empty = seq![None::<Seq<u8>>, None, None];
            let after_first = save_outcome(empty, leaf, first).0;
            let after_second = save_outcome(after_first, leaf, second).0;
            load_outcome(after_second) == Ok::<Seq<(Seq<char>, Seq<u8>)>, BackupError>(seq![(leaf, first)])
        }),
{
    let empty = seq![None::<Seq<u8>>, None, None];
    let a = asset_named(leaf).unwrap();
    let after_first = save_outcome(empty, leaf, first).0;
    assert(after_first == empty.update(asset_index(a), Some(first)));
    let after_second = save_outcome(after_first, leaf, second).0;
    assert(after_second == after_first);
    reveal_with_fuel(stored_originals, 4);
    assert(asset_name(asset_at(asset_index(a))) == leaf);
    assert(stored_originals(after_second, 3) =~= seq![(leaf, first)]);
}


proof fn lemma_split_at_last_dash(a1: Seq<char>, b1: Seq<char>, a2: Seq<char>, b2: Seq<char>)
    requires
        !b1.contains('-'),
        !b2.contains('-'),
        a1 + seq!['-'] + b1 == a2 + seq!['-'] + b2,
    ensures
        a1 == a2,
        b1 == b2,
{
    let t1 = a1 + seq!['-'];
    let t2 = a2 + seq!['-'];
    let s1 = t1 + b1;
    let s2 = t2 + b2;
    assert(s1 == s2);
    assert(s1.len() == a1.len() + 1 + b1.len());
    assert(s2.len() == a2.len() + 1 + b2.len());
    if a1.len() < a2.len() {
        let i = a2.len() as int;
        assert(t2[i] == '-');
        assert(s2[i] == '-');
        assert(i >= t1.len());
        assert(s1[i] == b1[i - t1.len()]);
        assert(b1[i - t1.len()] == '-');
        assert(b1.contains('-'));
    } else if a2.len() < a1.len() {
        let i = a1.len() as int;
        assert(t1[i] == '-');
        assert(s1[i] == '-');
        assert(i >= t2.len());
        assert(s2[i] == b2[i - t2.len()]);
        assert(b2[i - t2.len()] == '-');
        assert(b2.contains('-'));
    }
    assert(a1 =~= s1.subrange(0, a1.len() as int));
    assert(a2 =~= s2.subrange(0, a2.len() as int));
    assert(b1 =~= s1.subrange(a1.len() as int + 1, s1.len() as int));
    assert(b2 =~= s2.subrange(a2.len() as int + 1, s2.len() as int));
}

proof fn lemma_joined_cancel(base: Seq<char>, x: Seq<char>, y: Seq<char>)
    requires
        joined(base, x) == joined(base, y),
    ensures
        x == y,
{
    let j1 = joined(base, x);
    let j2 = joined(base, y);
    if base.len() == 0 || crate::paths::is_separator(base.last()) {
        assert(x =~= j1.subrange(base.len() as int, j1.len() as int));
        assert(y =~= j2.subrange(base.len() as int, j2.len() as int));
    } else {
        assert(x =~= j1.subrange(base.len() as int + 1, j1.len() as int));
        assert(y =~= j2.subrange(base.len() as int + 1, j2.len() as int));
    }
}

proof fn lemma_safe_has_no_dash(value: Seq<char>)
    requires
        !value.contains('-'),
    ensures
        !safe_component_spec(value).contains('-'),
{
    reveal_strlit("unknown");
    let s = safe_component_spec(value);
    if s.contains('-') {
        let i = choose|i: int| 0 <= i < s.len() && s[i] == '-';
        if value.len() > 0 {
            assert(s[i] == safe_char(value[i]));
            assert(value[i] == '-');
            assert(value.contains('-'));
        }
    }
}

/// Backups are kept per device: for card hashes without `-` (such as
/// base64 hashes), two backups share a directory only when the device
/// identifiers and the card hashes have the same directory-safe spelling.
pub proof fn lemma_backup_dir_per_device(
    root: Seq<char>,
    udid1: Seq<char>,
    hash1: Seq<char>,
    udid2: Seq<char>,
    hash2: Seq<char>,
)
    requires
        !hash1.contains('-'),
        !hash2.contains('-'),
        backup_dir_spec(root, udid1, hash1) == backup_dir_spec(root, udid2, hash2),
    ensures
        safe_component_spec(udid1) == safe_component_spec(udid2),
        safe_component_spec(hash1) == safe_component_spec(hash2),
{
    let base = joined(joined(root, "AirCard"@), "wallet-originals"@);
    lemma_joined_cancel(base, backup_dir_name(udid1, hash1), backup_dir_name(udid2, hash2));
    lemma_safe_has_no_dash(hash1);
    lemma_safe_has_no_dash(hash2);
    lemma_split_at_last_dash(
        safe_component_spec(udid1),
        safe_component_spec(hash1),
        safe_component_spec(udid2),
        safe_component_spec(hash2),
    );
}

/// A non-empty name made only of directory-safe characters is spelled as it is.
pub proof fn lemma_safe_component_keeps_safe_names(value: Seq<char>)
    requires
        value.len() > 0,
        forall|i: int| 0 <= i < value.len() ==> is_safe_char(#[trigger] value[i]),
    ensures
        safe_component_spec(value) == value,
{
    assert(safe_component_spec(value) =~= value);
}

} // verus!
