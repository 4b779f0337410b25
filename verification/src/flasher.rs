//! What a card-skin or passcode-theme flash writes, and how it is staged:
//! target paths, staging names, batching, and the checks on file names and
//! exported sizes. The device transfer itself is done by the caller.

use vstd::prelude::*;
use crate::text::{decimal, has_prefix, hex_lower, push_char, push_decimal, push_str, starts_with, string_of, suffix_from, to_hex_lower};
use crate::paths::{join_path, joined};
use crate::wallet_backup::{
    BackupDir, BackupError, OriginalAsset, asset_index, asset_name, asset_named, files_view,
    load_original_assets, load_outcome, save_original_asset, save_outcome, backup_exists,
    lemma_asset_named, lemma_backup_dir_len, slot_view, asset_at, stored_originals,
};

verus! {

/// The PNG artwork files of a Wallet pass, largest first.
pub const TARGET_WALLET_ASSETS: [&'static str; 2] = ["cardBackgroundCombined@3x.png", "cardBackgroundCombined@2x.png"];

/// The PDF artwork files of a Wallet pass.
pub const TARGET_WALLET_PDF: [&'static str; 3] = [
    "cardBackgroundCombined.pdf",
    "cardBackgroundCombined@2x.pdf",
    "cardBackgroundCombined@3x.pdf",
];

/// The rendered faces Wallet caches for a pass.
pub const CACHE_FILES: [&'static str; 3] = ["FrontFace", "PlaceHolder", "Preview"];

/// Files per device handshake. Each file is staged as two Books assets.
pub const AIRTRAFFIC_BATCH_SIZE: usize = 8;

/// Largest exported file accepted, in bytes.
pub const MAX_EXPORT_BYTES: u64 = 33554432;


/// `s` with every leading `/` removed.
pub open spec fn without_leading_slashes(s: Seq<char>) -> Seq<char>
    decreases s.len(),
{
    if s.len() > 0 && s[0] == '/' {
        without_leading_slashes(s.drop_first())
    } else {
        s
    }
}

/// The path of `absolute` relative to the Books staging directory: leading
/// slashes dropped, a leading `var/mobile/` dropped, and `../../../` put in
/// front.
pub open spec fn airlock_relpath_spec(absolute: Seq<char>) -> Seq<char> {
    let trimmed = without_leading_slashes(absolute);
    let tail = if has_prefix(trimmed, "var/mobile/"@) {
        trimmed.subrange("var/mobile/"@.len() as int, trimmed.len() as int)
    } else {
        trimmed
    };
    "../../../"@ + tail
}

proof fn lemma_without_leading_slashes(s: Seq<char>, i: int)
    requires
        0 <= i <= s.len(),
        forall|j: int| 0 <= j < i ==> #[trigger] s[j] == '/',
        i == s.len() || s[i] != '/',
    ensures
        without_leading_slashes(s) == s.subrange(i, s.len() as int),
    decreases i,
{
    if i == 0 {
        assert(s.subrange(0, s.len() as int) =~= s);
    } else {
        let t = s.drop_first();
        assert forall|j: int| 0 <= j < i - 1 implies #[trigger] t[j] == '/' by {
            assert(t[j] == s[j + 1]);
        }
        lemma_without_leading_slashes(t, i - 1);
        assert(t.subrange(i - 1, t.len() as int) =~= s.subrange(i, s.len() as int));
    }
}

/// The path of `absolute` as the Books sync service resolves it from its
/// staging directory.
pub fn airlock_relpath(absolute: &str) -> (r: String)
    ensures
        r@ == airlock_relpath_spec(absolute@),
{
    let n = absolute.unicode_len();
    let mut i: usize = 0;
    while i < n && absolute.get_char(i) == '/'
        invariant
            n == absolute@.len(),
            i <= n,
            forall|j: int| 0 <= j < i ==> #[trigger] absolute@[j] == '/',
        decreases n - i,
    {
        i = i + 1;
    }
    proof {
        lemma_without_leading_slashes(absolute@, i as int);
    }
    let trimmed = suffix_from(absolute, i);
    let mut out = string_of("../../../");
    if starts_with(trimmed.as_str(), "var/mobile/") {
        let prefix_len = "var/mobile/".unicode_len();
        let tail = suffix_from(trimmed.as_str(), prefix_len);
        push_str(&mut out, tail.as_str());
    } else {
        push_str(&mut out, trimmed.as_str());
    }
    out
}

/// The staging token spelled from random bytes: two lower-case hexadecimal
/// digits per byte.
pub fn token_from_bytes(bytes: &[u8]) -> (r: String)
    ensures
        r@ == hex_lower(bytes@),
{
    to_hex_lower(bytes)
}

/// Prefix of the staged source tree of one file.
pub open spec fn source_prefix() -> Seq<char> {
    "airlift-src-"@
}

/// Prefix of the link destination of one file.
pub open spec fn link_prefix() -> Seq<char> {
    "airlift-link-"@
}

/// Prefix of the Media copy of an exported file.
pub open spec fn recovered_prefix() -> Seq<char> {
    "airlift-recovered-"@
}

/// The device-side names that one staging token gives.
pub struct StagingNames {
    /// The staged source tree, `airlift-src-<token>`.
    pub source: String,
    /// The link destination, `airlift-link-<token>`.
    pub link_dest: String,
    /// The Media copy name, `airlift-recovered-<token>`.
    pub recovered: String,
    /// The Books identifier of the link, `../../<source>/p0/p1/p2/link`.
    pub link_ident: String,
    /// The Books identifier of the payload, `../../<source>/payload`.
    pub payload_ident: String,
}

/// One file staged for writing.
pub struct StagedAsset {
    /// The names of its staging token.
    pub names: StagingNames,
    /// Where the payload lands, `<link_dest>/<leaf>`.
    pub target_dest: String,
    /// The file name written.
    pub leaf: String,
}

/// The staged source tree for `token`.
pub open spec fn source_name(token: Seq<char>) -> Seq<char> {
    source_prefix() + token
}

/// The link destination for `token`.
pub open spec fn link_dest_name(token: Seq<char>) -> Seq<char> {
    link_prefix() + token
}

/// The Media copy for `token`.
pub open spec fn recovered_name(token: Seq<char>) -> Seq<char> {
    recovered_prefix() + token
}

/// The Books identifier of the link for `token`.
pub open spec fn link_ident_name(token: Seq<char>) -> Seq<char> {
    "../../"@ + source_name(token) + "/p0/p1/p2/link"@
}

/// The Books identifier of the payload for `token`.
pub open spec fn payload_ident_name(token: Seq<char>) -> Seq<char> {
    "../../"@ + source_name(token) + "/payload"@
}

/// `a/b`.
pub open spec fn slash_join(a: Seq<char>, b: Seq<char>) -> Seq<char> {
    a + seq!['/'] + b
}

/// The names that `token` gives, as plain values.
pub open spec fn staging_names_ok(n: StagingNames, token: Seq<char>) -> bool {
    &&& n.source@ == source_name(token)
    &&& n.link_dest@ == link_dest_name(token)
    &&& n.recovered@ == recovered_name(token)
    &&& n.link_ident@ == link_ident_name(token)
    &&& n.payload_ident@ == payload_ident_name(token)
}

/// The names of a staged file, as plain values.
pub open spec fn staged_asset_ok(st: StagedAsset, token: Seq<char>, leaf: Seq<char>) -> bool {
    &&& staging_names_ok(st.names, token)
    &&& st.target_dest@ == slash_join(link_dest_name(token), leaf)
    &&& st.leaf@ == leaf
}

fn concat2(a: &str, b: &str) -> (r: String)
    ensures
        r@ == a@ + b@,
{
    let mut out = string_of(a);
    push_str(&mut out, b);
    out
}

fn concat3(a: &str, b: &str, c: &str) -> (r: String)
    ensures
        r@ == a@ + b@ + c@,
{
    let mut out = string_of(a);
    push_str(&mut out, b);
    push_str(&mut out, c);
    out
}

/// `a/b` as a new string.
pub fn slash_concat(a: &str, b: &str) -> (r: String)
    ensures
        r@ == slash_join(a@, b@),
{
    let mut out = string_of(a);
    push_char(&mut out, '/');
    push_str(&mut out, b);
    out
}

/// The device-side names of a staging token.
pub fn staging_names(token: &str) -> (r: StagingNames)
    ensures
        staging_names_ok(r, token@),
{
    let source = concat2("airlift-src-", token);
    let link_dest = concat2("airlift-link-", token);
    let recovered = concat2("airlift-recovered-", token);
    let link_ident = concat3("../../", source.as_str(), "/p0/p1/p2/link");
    let payload_ident = concat3("../../", source.as_str(), "/payload");
    StagingNames { source, link_dest, recovered, link_ident, payload_ident }
}

/// The names under which `leaf` is staged with `token`.
pub fn staged_asset(token: &str, leaf: &str) -> (r: StagedAsset)
    ensures
        staged_asset_ok(r, token@, leaf@),
{
    let names = staging_names(token);
    let target_dest = slash_concat(names.link_dest.as_str(), leaf);
    StagedAsset { names, target_dest, leaf: string_of(leaf) }
}


/// Number of handshakes that `n` files take.
pub open spec fn chunk_count(n: nat) -> nat {
    (n + 7) / 8
}

/// The progress label of handshake `k` (counting from 0) out of `total`:
/// ` (group k+1/total)`, or nothing when there is only one.
pub open spec fn group_label(k: nat, total: nat) -> Seq<char> {
    if total > 1 {
        " (group "@ + decimal(k + 1) + "/"@ + decimal(total) + ")"@
    } else {
        seq![]
    }
}

/// One handshake of a batched write: the files `start..start + len`.
pub struct BatchPlan {
    /// Index of its first file; also the number of files staged before it.
    pub start: usize,
    /// Number of its files.
    pub len: usize,
    /// Label appended to its progress messages.
    pub label: String,
    /// The progress total of the whole write.
    pub progress_total: usize,
    /// The progress step reported while it synchronizes.
    pub sync_step: usize,
}

/// Handshake `k` of a write of `n` files.
pub open spec fn batch_plan_ok(b: BatchPlan, k: nat, n: nat) -> bool {
    &&& b.start == 8 * k
    &&& b.len == (if n - 8 * k < 8 {
        n - 8 * k
    } else {
        8
    })
    &&& b.label@ == group_label(k, chunk_count(n))
    &&& b.progress_total == n + chunk_count(n)
    &&& b.sync_step == b.start + b.len + 1
}

/// Splits a write of `items` into handshakes of at most
/// `AIRTRAFFIC_BATCH_SIZE` files each, in order; no handshake for no files.
pub fn write_system_files_batch(items: &Vec<(String, String, Vec<u8>)>) -> (r: Vec<BatchPlan>)
    requires
        items@.len() + chunk_count(items@.len()) + 1 <= usize::MAX,
    ensures
        r@.len() == chunk_count(items@.len()),
        forall|k: int| 0 <= k < r@.len() ==> batch_plan_ok(#[trigger] r@[k], k as nat, items@.len()),
{
    let n = items.len();
    let total: usize = if n % 8 == 0 {
        n / 8
    } else {
        n / 8 + 1
    };
    assert(total == chunk_count(n as nat));
    let progress_total = n + total;
    let mut out: Vec<BatchPlan> = Vec::new();
    let mut k: usize = 0;
    while k < total
        invariant
            n == items@.len(),
            total == chunk_count(n as nat),
            progress_total == n + total,
            n + total + 1 <= usize::MAX,
            k <= total,
            out@.len() == k,
            forall|j: int| 0 <= j < k ==> batch_plan_ok(#[trigger] out@[j], j as nat, n as nat),
        decreases total - k,
    {
        let start = k * 8;
        let remaining = n - start;
        let len = if remaining < 8 {
            remaining
        } else {
            8
        };
        let mut label = String::new();
        if total > 1 {
            push_str(&mut label, " (group ");
            push_decimal(&mut label, (k + 1) as u64);
            push_str(&mut label, "/");
            push_decimal(&mut label, total as u64);
            push_str(&mut label, ")");
        }
        assert(label@ =~= group_label(k as nat, total as nat));
        let plan = BatchPlan { start, len, label, progress_total, sync_step: start + len + 1 };
        out.push(plan);
        k = k + 1;
    }
    out
}

/// The staged names of one handshake's files.
pub struct StagedBatch {
    /// Per file, its staging names.
    pub staged: Vec<StagedAsset>,
    /// The Books identifiers listed in `Books.plist`: per file, link then payload.
    pub books_identifiers: Vec<String>,
    /// The assets synchronized: per file, (link identifier, link
    /// destination) then (payload identifier, target destination).
    pub assets: Vec<(String, String)>,
}

/// File `j` of `leaves` is staged with `tokens[j]` under these names.
pub open spec fn batch_names_ok(
    staged: Seq<StagedAsset>,
    books_identifiers: Seq<String>,
    assets: Seq<(String, String)>,
    leaves: Seq<Seq<char>>,
    tokens: Seq<Seq<char>>,
) -> bool {
    &&& staged.len() == leaves.len()
    &&& books_identifiers.len() == 2 * leaves.len()
    &&& assets.len() == 2 * leaves.len()
    &&& forall|j: int|
        #![trigger staged[j]]
        0 <= j < leaves.len() ==> {
            &&& staged_asset_ok(staged[j], tokens[j], leaves[j])
            &&& books_identifiers[2 * j]@ == link_ident_name(tokens[j])
            &&& books_identifiers[2 * j + 1]@ == payload_ident_name(tokens[j])
            &&& assets[2 * j].0@ == link_ident_name(tokens[j])
            &&& assets[2 * j].1@ == link_dest_name(tokens[j])
            &&& assets[2 * j + 1].0@ == payload_ident_name(tokens[j])
            &&& assets[2 * j + 1].1@ == slash_join(link_dest_name(tokens[j]), leaves[j])
        }
}

/// The staged names of files `leaves`, file `j` staged with `tokens[j]`.
pub open spec fn staged_batch_ok(b: StagedBatch, leaves: Seq<Seq<char>>, tokens: Seq<Seq<char>>) -> bool {
    batch_names_ok(b.staged@, b.books_identifiers@, b.assets@, leaves, tokens)
}

/// The file names of a list of writes.
pub open spec fn item_leaves(items: Seq<(String, String, Vec<u8>)>) -> Seq<Seq<char>> {
    items.map_values(|it: (String, String, Vec<u8>)| it.1@)
}

/// A list of strings as plain values.
pub open spec fn strings_view(v: Seq<String>) -> Seq<Seq<char>> {
    v.map_values(|s: String| s@)
}

/// The names under which one handshake's files are staged, file `j` with
/// the random token `tokens[j]`.
pub fn stage_batch(items: &[(String, String, Vec<u8>)], tokens: &Vec<String>) -> (r: StagedBatch)
    requires
        tokens@.len() == items@.len(),
    ensures
        staged_batch_ok(r, item_leaves(items@), strings_view(tokens@)),
{
    let n = items.len();
    let mut staged: Vec<StagedAsset> = Vec::new();
    let mut books_identifiers: Vec<String> = Vec::new();
    let mut assets: Vec<(String, String)> = Vec::new();
    let ghost leaves = item_leaves(items@);
    let ghost toks = strings_view(tokens@);
    let mut j: usize = 0;
    while j < n
        invariant
            n == items@.len(),
            tokens@.len() == n,
            leaves == item_leaves(items@),
            toks == strings_view(tokens@),
            j <= n,
            batch_names_ok(staged@, books_identifiers@, assets@, leaves.subrange(0, j as int), toks),
        decreases n - j,
    {
        let ghost old_staged = staged@;
        let ghost old_ids = books_identifiers@;
        let ghost old_assets = assets@;
        let st = staged_asset(tokens[j].as_str(), items[j].1.as_str());
        books_identifiers.push(st.names.link_ident.clone());
        books_identifiers.push(st.names.payload_ident.clone());
        assets.push((st.names.link_ident.clone(), st.names.link_dest.clone()));
        assets.push((st.names.payload_ident.clone(), st.target_dest.clone()));
        staged.push(st);
        proof {
            let ls = leaves.subrange(0, j + 1);
            let prev = leaves.subrange(0, j as int);
            assert(ls[j as int] == leaves[j as int]);
            assert(leaves[j as int] == items@[j as int].1@);
            assert(toks[j as int] == tokens@[j as int]@);
            assert forall|i: int|
                #![trigger staged@[i]]
                0 <= i < ls.len() implies {
                &&& staged_asset_ok(staged@[i], toks[i], ls[i])
                &&& books_identifiers@[2 * i]@ == link_ident_name(toks[i])
                &&& books_identifiers@[2 * i + 1]@ == payload_ident_name(toks[i])
                &&& assets@[2 * i].0@ == link_ident_name(toks[i])
                &&& assets@[2 * i].1@ == link_dest_name(toks[i])
                &&& assets@[2 * i + 1].0@ == payload_ident_name(toks[i])
                &&& assets@[2 * i + 1].1@ == slash_join(link_dest_name(toks[i]), ls[i])
            } by {
                if i < j {
                    assert(prev[i] == ls[i]);
                    assert(old_staged[i] == staged@[i]);
                    assert(old_ids[2 * i] == books_identifiers@[2 * i]);
                    assert(old_ids[2 * i + 1] == books_identifiers@[2 * i + 1]);
                    assert(old_assets[2 * i] == assets@[2 * i]);
                    assert(old_assets[2 * i + 1] == assets@[2 * i + 1]);
                }
            }
        }
        j = j + 1;
    }
    assert(leaves.subrange(0, n as int) =~= leaves);
    StagedBatch { staged, books_identifiers, assets }
}


/// Why a flash step was refused.
#[derive(Clone, Copy, PartialEq, Eq, Structural, Debug)]
pub enum FlashError {
    /// The file to export is empty, `.`, `..`, or holds a `/`.
    NotPlainFileName,
    /// One of the cache files to remove is not a plain file name.
    NotPlainCacheNames,
    /// An exported file is empty or larger than `MAX_EXPORT_BYTES`.
    InvalidExportSize,
    /// An exported file read back empty.
    EmptyExport,
    /// No original artwork could be exported.
    NothingCaptured,
}

/// The text of a refusal. `leaf` is the exported file and `size` its size
/// in bytes; only the export refusals name them.
pub open spec fn flash_error_text(e: FlashError, leaf: Seq<char>, size: nat) -> Seq<char> {
    match e {
        FlashError::NotPlainFileName => "leaf must be a plain file name"@,
        FlashError::NotPlainCacheNames => "cache leaves must be plain file names"@,
        FlashError::InvalidExportSize => leaf + " export size "@ + decimal(size)
            + " is invalid; leaving Media copy"@,
        FlashError::EmptyExport => "exported "@ + leaf + " was empty; leaving Media copy"@,
        FlashError::NothingCaptured => "Could not export any original artwork. Save before the first skin, keep the phone unlocked."@,
    }
}

impl FlashError {
    /// The message reported for this refusal of the export of `leaf`, whose
    /// size is `size`.
    pub fn message(&self, leaf: &str, size: u64) -> (r: String)
        ensures
            r@ == flash_error_text(*self, leaf@, size as nat),
    {
        match self {
            FlashError::NotPlainFileName => string_of("leaf must be a plain file name"),
            FlashError::NotPlainCacheNames => string_of("cache leaves must be plain file names"),
            FlashError::InvalidExportSize => {
                let mut m = string_of(leaf);
                push_str(&mut m, " export size ");
                push_decimal(&mut m, size);
                push_str(&mut m, " is invalid; leaving Media copy");
                m
            },
            FlashError::EmptyExport => {
                let mut m = string_of("exported ");
                push_str(&mut m, leaf);
                push_str(&mut m, " was empty; leaving Media copy");
                m
            },
            FlashError::NothingCaptured => string_of(
                "Could not export any original artwork. Save before the first skin, keep the phone unlocked.",
            ),
        }
    }
}

/// `leaf` names a single file: not empty, not `.` or `..`, no `/`.
pub open spec fn is_plain_file_name(leaf: Seq<char>) -> bool {
    &&& leaf.len() > 0
    &&& leaf != "."@
    &&& leaf != ".."@
    &&& !leaf.contains('/')
}

/// Whether `leaf` names a single file.
pub fn plain_file_name(leaf: &str) -> (r: bool)
    ensures
        r == is_plain_file_name(leaf@),
{
    let n = leaf.unicode_len();
    if n == 0 || crate::text::str_eq(leaf, ".") || crate::text::str_eq(leaf, "..") {
        return false;
    }
    let mut i: usize = 0;
    while i < n
        invariant
            n == leaf@.len(),
            i <= n,
            forall|j: int| 0 <= j < i ==> leaf@[j] != '/',
        decreases n - i,
    {
        if leaf.get_char(i) == '/' {
            assert(leaf@.contains('/'));
            return false;
        }
        i = i + 1;
    }
    true
}

/// The directory of a Wallet pass on the device.
pub open spec fn pkpass_dir_spec(card_hash: Seq<char>) -> Seq<char> {
    "/var/mobile/Library/Passes/Cards/"@ + card_hash + ".pkpass"@
}

/// `/var/mobile/Library/Passes/Cards/<card_hash>.pkpass`.
pub fn pkpass_dir(card_hash: &str) -> (r: String)
    ensures
        r@ == pkpass_dir_spec(card_hash@),
{
    concat3("/var/mobile/Library/Passes/Cards/", card_hash, ".pkpass")
}

/// The two rendered-face caches of a Wallet pass.
pub open spec fn cache_dirs_spec(card_hash: Seq<char>) -> Seq<Seq<char>> {
    seq![
        "/var/mobile/Library/Passes/Cards/"@ + card_hash + ".cache"@,
        "/var/mobile/Library/Passes/Cards/"@ + card_hash + ".pkcache"@,
    ]
}

/// The cache directories whose `CACHE_FILES` are moved out so that Wallet
/// renders the card again: `<card_hash>.cache`, then `<card_hash>.pkcache`.
pub fn invalidate_wallet_cache(card_hash: &str) -> (r: Vec<String>)
    ensures
        strings_view(r@) == cache_dirs_spec(card_hash@),
{
    let mut v: Vec<String> = Vec::new();
    v.push(concat3("/var/mobile/Library/Passes/Cards/", card_hash, ".cache"));
    v.push(concat3("/var/mobile/Library/Passes/Cards/", card_hash, ".pkcache"));
    assert(strings_view(v@) =~= cache_dirs_spec(card_hash@));
    v
}

/// The extension of cache directory `k` (0 or 1).
pub open spec fn cache_ext(k: int) -> Seq<char> {
    if k == 0 {
        ".cache"@
    } else {
        ".pkcache"@
    }
}

/// The log line of a failed relocation of cache directory `k`.
pub open spec fn cache_failure_line(k: int, err: Seq<char>) -> Seq<char> {
    "Cache "@ + cache_ext(k) + " relocation: "@ + err + " (empty cache is OK)"@
}

/// The line logged when both cache directories were relocated.
pub open spec fn cache_success_line() -> Seq<char> {
    "Wallet cache faces removed so iOS 27 rebuilds from the pass."@
}

/// After the relocation of cache directory `k` (0 then 1), which failed
/// with `err` or succeeded: the failures so far and the lines to log now.
/// A failure is only logged; after the last directory the success line is
/// logged when neither failed. Invalidation never fails.
pub open spec fn invalidation_step_spec(k: int, failures: nat, err: Option<Seq<char>>) -> (nat, Seq<Seq<char>>) {
    let (f, lines) = match err {
        Some(e) => (failures + 1, seq![cache_failure_line(k, e)]),
        None => (failures, Seq::<Seq<char>>::empty()),
    };
    if k == 1 && f == 0 {
        (f, lines.push(cache_success_line()))
    } else {
        (f, lines)
    }
}

/// One step of the cache invalidation, after relocating directory `k`.
pub fn invalidation_step(k: usize, failures: usize, err: Option<&str>) -> (r: (usize, Vec<String>))
    requires
        k < 2,
        failures < 2,
    ensures
        (r.0 as nat, r.1@.map_values(|l: String| l@)) == invalidation_step_spec(
            k as int,
            failures as nat,
            match err {
                Some(e) => Some(e@),
                None => None,
            },
        ),
{
    let mut lines: Vec<String> = Vec::new();
    let f = match err {
        Some(e) => {
            let mut m = string_of("Cache ");
            push_str(&mut m, if k == 0 { ".cache" } else { ".pkcache" });
            push_str(&mut m, " relocation: ");
            push_str(&mut m, e);
            push_str(&mut m, " (empty cache is OK)");
            lines.push(m);
            failures + 1
        },
        None => failures,
    };
    if k == 1 && f == 0 {
        lines.push(string_of("Wallet cache faces removed so iOS 27 rebuilds from the pass."));
    }
    proof {
        let ev = match err {
            Some(e) => Some(e@),
            None => None,
        };
        assert(lines@.map_values(|l: String| l@) =~= invalidation_step_spec(k as int, failures as nat, ev).1);
    }
    (f, lines)
}

/// The cached faces removed from each cache directory.
pub fn cache_files() -> (r: Vec<&'static str>)
    ensures
        r@.len() == 3,
        r@[0]@ == "FrontFace"@,
        r@[1]@ == "PlaceHolder"@,
        r@[2]@ == "Preview"@,
{
    let mut v: Vec<&'static str> = Vec::new();
    v.push("FrontFace");
    v.push("PlaceHolder");
    v.push("Preview");
    v
}

/// Artwork for a card skin.
#[derive(Clone)]
pub enum WalletArt {
    /// PNG artwork at the two pass resolutions.
    Png { png_3x: Vec<u8>, png_2x: Vec<u8> },
    /// PDF artwork, written at every resolution.
    Pdf(Vec<u8>),
}

/// A list of writes as plain values: (directory, file name, contents).
pub open spec fn items_view(items: Seq<(String, String, Vec<u8>)>) -> Seq<(Seq<char>, Seq<char>, Seq<u8>)> {
    items.map_values(|it: (String, String, Vec<u8>)| (it.0@, it.1@, it.2@))
}

/// The files a card skin writes into the pass directory.
pub open spec fn wallet_skin_items(card_hash: Seq<char>, art: WalletArt) -> Seq<(Seq<char>, Seq<char>, Seq<u8>)> {
    let dir = pkpass_dir_spec(card_hash);
    match art {
        WalletArt::Png { png_3x, png_2x } => seq![
            (dir, "cardBackgroundCombined@3x.png"@, png_3x@),
            (dir, "cardBackgroundCombined@2x.png"@, png_2x@),
        ],
        WalletArt::Pdf(pdf) => seq![
            (dir, "cardBackgroundCombined.pdf"@, pdf@),
            (dir, "cardBackgroundCombined@2x.pdf"@, pdf@),
            (dir, "cardBackgroundCombined@3x.pdf"@, pdf@),
        ],
    }
}

fn copy_bytes(data: &Vec<u8>) -> (r: Vec<u8>)
    ensures
        r@ == data@,
{
    let mut out: Vec<u8> = Vec::new();
    let mut k: usize = 0;
    while k < data.len()
        invariant
            k <= data@.len(),
            out@ == data@.subrange(0, k as int),
        decreases data@.len() - k,
    {
        out.push(data[k]);
        k = k + 1;
        assert(out@ =~= data@.subrange(0, k as int));
    }
    assert(out@ =~= data@);
    out
}

/// The writes of a card skin: PNG art as the `@3x` and `@2x` pass images,
/// PDF art as each of the three pass PDFs, all in the pass directory. The
/// order of the flash itself (batches, cache invalidation, skin history,
/// closing report) is `crate::flash_run`.
pub fn flash_wallet_skin(card_hash: &str, art: &WalletArt) -> (r: Vec<(String, String, Vec<u8>)>)
    ensures
        items_view(r@) == wallet_skin_items(card_hash@, *art),
{
    let mut items: Vec<(String, String, Vec<u8>)> = Vec::new();
    match art {
        WalletArt::Png { png_3x, png_2x } => {
            items.push((pkpass_dir(card_hash), string_of("cardBackgroundCombined@3x.png"), copy_bytes(png_3x)));
            items.push((pkpass_dir(card_hash), string_of("cardBackgroundCombined@2x.png"), copy_bytes(png_2x)));
        },
        WalletArt::Pdf(pdf) => {
            items.push((pkpass_dir(card_hash), string_of("cardBackgroundCombined.pdf"), copy_bytes(pdf)));
            items.push((pkpass_dir(card_hash), string_of("cardBackgroundCombined@2x.pdf"), copy_bytes(pdf)));
            items.push((pkpass_dir(card_hash), string_of("cardBackgroundCombined@3x.pdf"), copy_bytes(pdf)));
        },
    }
    assert(items_view(items@) =~= wallet_skin_items(card_hash@, *art));
    items
}

/// The write of one system file, as a batch of one.
pub fn write_system_file(target_dir: &str, leaf_name: &str, payload: &[u8]) -> (r: Vec<(String, String, Vec<u8>)>)
    ensures
        items_view(r@) == seq![(target_dir@, leaf_name@, payload@)],
{
    let mut data: Vec<u8> = Vec::new();
    let mut k: usize = 0;
    while k < payload.len()
        invariant
            k <= payload@.len(),
            data@ == payload@.subrange(0, k as int),
        decreases payload@.len() - k,
    {
        data.push(payload[k]);
        k = k + 1;
        assert(data@ =~= payload@.subrange(0, k as int));
    }
    assert(data@ =~= payload@);
    let mut items: Vec<(String, String, Vec<u8>)> = Vec::new();
    items.push((string_of(target_dir), string_of(leaf_name), data));
    assert(items_view(items@) =~= seq![(target_dir@, leaf_name@, payload@)]);
    items
}

/// The handshakes of a passcode-theme write; the order of the flash is
/// `crate::flash_run`.
pub fn flash_passcode_theme(items: &Vec<(String, String, Vec<u8>)>) -> (r: Vec<BatchPlan>)
    requires
        items@.len() + chunk_count(items@.len()) + 1 <= usize::MAX,
    ensures
        r@.len() == chunk_count(items@.len()),
        forall|k: int| 0 <= k < r@.len() ==> batch_plan_ok(#[trigger] r@[k], k as nat, items@.len()),
{
    write_system_files_batch(items)
}

/// How the cached faces in one directory are moved out of it.
pub struct CacheRemoval {
    /// The names of the staging token.
    pub names: StagingNames,
    /// The Books identifiers: the link, then `../../<link_dest>/<leaf>` per file.
    pub identifiers: Vec<String>,
    /// Where each identified asset goes: the link destination, then
    /// `<source>/removed-<i>` for file `i`.
    pub dests: Vec<String>,
}

/// The removal identifiers and destinations of `leaves` with `token`.
pub open spec fn cache_removal_ok(r: CacheRemoval, leaves: Seq<Seq<char>>, token: Seq<char>) -> bool {
    &&& staging_names_ok(r.names, token)
    &&& r.identifiers@.len() == leaves.len() + 1
    &&& r.dests@.len() == leaves.len() + 1
    &&& r.identifiers@[0]@ == link_ident_name(token)
    &&& r.dests@[0]@ == link_dest_name(token)
    &&& forall|i: int|
        #![trigger leaves[i]]
        0 <= i < leaves.len() ==> {
            &&& r.identifiers@[i + 1]@ == "../../"@ + slash_join(link_dest_name(token), leaves[i])
            &&& r.dests@[i + 1]@ == source_name(token) + "/removed-"@ + decimal(i as nat)
        }
}

/// A list of string slices as plain values.
pub open spec fn strs_view(v: Seq<&str>) -> Seq<Seq<char>> {
    v.map_values(|s: &str| s@)
}

/// Plans moving the cached files `leaves` out of their directory with the
/// staging token `token`: nothing to do for no files; refused when one of
/// them is not a plain file name.
pub fn remove_system_files(leaves: &[&str], token: &str) -> (r: Result<Option<CacheRemoval>, FlashError>)
    requires
        leaves@.len() < usize::MAX,
    ensures
        leaves@.len() == 0 ==> r == Ok::<Option<CacheRemoval>, FlashError>(None),
        leaves@.len() > 0 ==> (r is Err <==> exists|i: int|
            0 <= i < leaves@.len() && !is_plain_file_name(#[trigger] leaves@[i]@)),
        r is Err ==> r == Err::<Option<CacheRemoval>, FlashError>(FlashError::NotPlainCacheNames),
        leaves@.len() > 0 && (forall|i: int|
            0 <= i < leaves@.len() ==> is_plain_file_name(#[trigger] leaves@[i]@)) ==> (r matches Ok(
            Some(plan),
        ) && cache_removal_ok(plan, strs_view(leaves@), token@)),
        r matches Ok(Some(plan)) ==> cache_removal_ok(plan, strs_view(leaves@), token@),
{
    let n = leaves.len();
    if n == 0 {
        return Ok(None);
    }
    let mut i: usize = 0;
    while i < n
        invariant
            n == leaves@.len(),
            i <= n,
            forall|j: int| 0 <= j < i ==> is_plain_file_name(#[trigger] leaves@[j]@),
        decreases n - i,
    {
        if !plain_file_name(leaves[i]) {
            return Err(FlashError::NotPlainCacheNames);
        }
        i = i + 1;
    }
    let names = staging_names(token);
    let mut identifiers: Vec<String> = Vec::new();
    let mut dests: Vec<String> = Vec::new();
    identifiers.push(names.link_ident.clone());
    dests.push(names.link_dest.clone());
    let ghost ls = strs_view(leaves@);
    let mut k: usize = 0;
    while k < n
        invariant
            n == leaves@.len(),
            ls == strs_view(leaves@),
            staging_names_ok(names, token@),
            k <= n,
            n < usize::MAX,
            identifiers@.len() == k + 1,
            dests@.len() == k + 1,
            identifiers@[0]@ == link_ident_name(token@),
            dests@[0]@ == link_dest_name(token@),
            forall|i: int|
                #![trigger ls[i]]
                0 <= i < k ==> {
                    &&& identifiers@[i + 1]@ == "../../"@ + slash_join(link_dest_name(token@), ls[i])
                    &&& dests@[i + 1]@ == source_name(token@) + "/removed-"@ + decimal(i as nat)
                },
        decreases n - k,
    {
        let mut ident = string_of("../../");
        let tail = slash_concat(names.link_dest.as_str(), leaves[k]);
        push_str(&mut ident, tail.as_str());
        let mut dest = string_of(names.source.as_str());
        push_str(&mut dest, "/removed-");
        push_decimal(&mut dest, k as u64);
        identifiers.push(ident);
        dests.push(dest);
        assert(ls[k as int] == leaves@[k as int]@);
        k = k + 1;
    }
    Ok(Some(CacheRemoval { names, identifiers, dests }))
}

/// `s` with every trailing `/` removed.
pub open spec fn without_trailing_slashes(s: Seq<char>) -> Seq<char>
    decreases s.len(),
{
    if s.len() > 0 && s.last() == '/' {
        without_trailing_slashes(s.drop_last())
    } else {
        s
    }
}

proof fn lemma_without_trailing_slashes(s: Seq<char>, k: int)
    requires
        0 <= k <= s.len(),
        forall|j: int| k <= j < s.len() ==> #[trigger] s[j] == '/',
        k == 0 || s[k - 1] != '/',
    ensures
        without_trailing_slashes(s) == s.subrange(0, k),
    decreases s.len() - k,
{
    if k == s.len() {
        assert(s.subrange(0, k) =~= s);
    } else {
        let t = s.drop_last();
        assert forall|j: int| k <= j < t.len() implies #[trigger] t[j] == '/' by {
            assert(t[j] == s[j]);
        }
        lemma_without_trailing_slashes(t, k);
        assert(t.subrange(0, k) =~= s.subrange(0, k));
    }
}

/// How one protected file is exported through the Media directory.
pub struct ExportPlan {
    /// The names of the staging token.
    pub names: StagingNames,
    /// The Books identifiers: the link, then the file's path relative to
    /// the staging directory.
    pub identifiers: Vec<String>,
    /// Where each goes: the link destination, then the Media copy.
    pub dests: Vec<String>,
}

/// The export of `<target_dir>/<leaf>` with `token`.
pub open spec fn export_plan_ok(p: ExportPlan, target_dir: Seq<char>, leaf: Seq<char>, token: Seq<char>) -> bool {
    &&& staging_names_ok(p.names, token)
    &&& strings_view(p.identifiers@) == seq![
        link_ident_name(token),
        airlock_relpath_spec(slash_join(without_trailing_slashes(target_dir), leaf)),
    ]
    &&& strings_view(p.dests@) == seq![link_dest_name(token), recovered_name(token)]
}

/// Plans exporting the protected file `leaf` of `target_dir` with the
/// staging token `token`; refused when `leaf` is not a plain file name.
pub fn read_protected_file(target_dir: &str, leaf: &str, token: &str) -> (r: Result<ExportPlan, FlashError>)
    ensures
        r is Err <==> !is_plain_file_name(leaf@),
        r is Err ==> r == Err::<ExportPlan, FlashError>(FlashError::NotPlainFileName),
        r matches Ok(p) ==> export_plan_ok(p, target_dir@, leaf@, token@),
{
    if !plain_file_name(leaf) {
        return Err(FlashError::NotPlainFileName);
    }
    let n = target_dir.unicode_len();
    let mut k: usize = n;
    while k > 0 && target_dir.get_char(k - 1) == '/'
        invariant
            n == target_dir@.len(),
            k <= n,
            forall|j: int| k <= j < n ==> #[trigger] target_dir@[j] == '/',
        decreases k,
    {
        k = k - 1;
    }
    proof {
        lemma_without_trailing_slashes(target_dir@, k as int);
    }
    let dir = string_of(target_dir.substring_char(0, k));
    let full = slash_concat(dir.as_str(), leaf);
    let file_ident = airlock_relpath(full.as_str());
    let names = staging_names(token);
    let mut identifiers: Vec<String> = Vec::new();
    identifiers.push(names.link_ident.clone());
    identifiers.push(file_ident);
    let mut dests: Vec<String> = Vec::new();
    dests.push(names.link_dest.clone());
    dests.push(names.recovered.clone());
    let p = ExportPlan { names, identifiers, dests };
    assert(strings_view(p.identifiers@) =~= seq![
        link_ident_name(token@),
        airlock_relpath_spec(slash_join(without_trailing_slashes(target_dir@), leaf@)),
    ]);
    assert(strings_view(p.dests@) =~= seq![link_dest_name(token@), recovered_name(token@)]);
    Ok(p)
}

/// Whether an exported Media copy is read: `Ok(false)` when it is not there,
/// refused when its size is 0 or above `MAX_EXPORT_BYTES`, else `Ok(true)`.
pub fn check_export_size(present: bool, size: u64) -> (r: Result<bool, FlashError>)
    ensures
        !present ==> r == Ok::<bool, FlashError>(false),
        present && (size == 0 || size > MAX_EXPORT_BYTES) ==> r == Err::<bool, FlashError>(
            FlashError::InvalidExportSize,
        ),
        present && 0 < size <= MAX_EXPORT_BYTES ==> r == Ok::<bool, FlashError>(true),
{
    if !present {
        Ok(false)
    } else if size == 0 || size > MAX_EXPORT_BYTES {
        Err(FlashError::InvalidExportSize)
    } else {
        Ok(true)
    }
}

/// The exported contents, refused when they are empty.
pub fn check_exported_data(data: Vec<u8>) -> (r: Result<Vec<u8>, FlashError>)
    ensures
        data@.len() == 0 ==> r == Err::<Vec<u8>, FlashError>(FlashError::EmptyExport),
        data@.len() > 0 ==> r == Ok::<Vec<u8>, FlashError>(data),
{
    if data.len() == 0 {
        Err(FlashError::EmptyExport)
    } else {
        Ok(data)
    }
}

/// How an export ended.
#[derive(Clone, Copy, PartialEq, Eq, Structural, Debug)]
pub enum ExportOutcome {
    /// The file was read; it is written back.
    Read,
    /// The file is not on the device.
    NotPresent,
    /// The export failed and its Media copy is the only one left.
    FailedKeepingCopy,
    /// The export failed otherwise.
    Failed,
}

/// What is cleaned up after an export. The Books state is restored in every case.
#[derive(Clone, Copy, PartialEq, Eq, Structural, Debug)]
pub struct ExportCleanup {
    /// Remove the link destination.
    pub remove_link_dest: bool,
    /// Remove the staged source tree.
    pub remove_source: bool,
    /// Write the read file back to where it came from.
    pub write_back: bool,
    /// Remove the Media copy (after the write-back, when there is one).
    pub remove_recovered: bool,
}

/// The cleanup after each export outcome: a Media copy that is the only
/// copy of the file is never removed.
pub open spec fn export_cleanup_spec(outcome: ExportOutcome) -> ExportCleanup {
    match outcome {
        ExportOutcome::Read => ExportCleanup {
            remove_link_dest: true,
            remove_source: true,
            write_back: true,
            remove_recovered: true,
        },
        ExportOutcome::NotPresent => ExportCleanup {
            remove_link_dest: true,
            remove_source: true,
            write_back: false,
            remove_recovered: true,
        },
        ExportOutcome::FailedKeepingCopy => ExportCleanup {
            remove_link_dest: false,
            remove_source: false,
            write_back: false,
            remove_recovered: false,
        },
        ExportOutcome::Failed => ExportCleanup {
            remove_link_dest: true,
            remove_source: true,
            write_back: false,
            remove_recovered: false,
        },
    }
}

/// The cleanup after an export.
pub fn export_cleanup(outcome: ExportOutcome) -> (r: ExportCleanup)
    ensures
        r == export_cleanup_spec(outcome),
{
    match outcome {
        ExportOutcome::Read => ExportCleanup {
            remove_link_dest: true,
            remove_source: true,
            write_back: true,
            remove_recovered: true,
        },
        ExportOutcome::NotPresent => ExportCleanup {
            remove_link_dest: true,
            remove_source: true,
            write_back: false,
            remove_recovered: true,
        },
        ExportOutcome::FailedKeepingCopy => ExportCleanup {
            remove_link_dest: false,
            remove_source: false,
            write_back: false,
            remove_recovered: false,
        },
        ExportOutcome::Failed => ExportCleanup {
            remove_link_dest: true,
            remove_source: true,
            write_back: false,
            remove_recovered: false,
        },
    }
}

/// A Media copy is removed only when the file was written back or was
/// never on the device.
pub proof fn lemma_export_copy_removed_only_when_safe(outcome: ExportOutcome)
    ensures
        export_cleanup_spec(outcome).remove_recovered ==> (export_cleanup_spec(outcome).write_back
            || outcome == ExportOutcome::NotPresent),
{
}

/// How an export ends once the sync is done.
pub struct ExportReport {
    /// What the export returns: the file's contents, `None` when the file is
    /// not on the device, or the error text.
    pub result: Result<Option<Vec<u8>>, String>,
    /// How it ended.
    pub outcome: ExportOutcome,
    /// What is cleaned up.
    pub cleanup: ExportCleanup,
    /// The line logged about it, if any.
    pub note: Option<String>,
}

/// The export's result, outcome and note, as plain values: `present` and
/// `size` describe the Media copy, `read` what reading it gave (`None`
/// when it was not read, `Err` when the read failed).
pub open spec fn export_report_spec(
    leaf: Seq<char>,
    present: bool,
    size: nat,
    read: Option<Result<Seq<u8>, ()>>,
) -> (Result<Option<Seq<u8>>, Seq<char>>, ExportOutcome, Option<Seq<char>>) {
    if !present {
        (Ok(None), ExportOutcome::NotPresent, Some(leaf + " not present on device"@))
    } else if size == 0 || size > MAX_EXPORT_BYTES {
        (
            Err(flash_error_text(FlashError::InvalidExportSize, leaf, size)),
            ExportOutcome::FailedKeepingCopy,
            Some(keep_copy_note()),
        )
    } else {
        match read {
            Some(Ok(d)) => if d.len() > 0 {
                (Ok(Some(d)), ExportOutcome::Read, None)
            } else {
                (
                    Err(flash_error_text(FlashError::EmptyExport, leaf, size)),
                    ExportOutcome::FailedKeepingCopy,
                    Some(keep_copy_note()),
                )
            },
            _ => (Err("AFC read of exported original art failed"@), ExportOutcome::Failed, None),
        }
    }
}

/// The line logged when the Media copy is kept.
pub open spec fn keep_copy_note() -> Seq<char> {
    "Leaving exported original in Media for manual recovery; Books restored."@
}

/// The report as plain values.
pub open spec fn export_report_view(r: ExportReport) -> (Result<Option<Seq<u8>>, Seq<char>>, ExportOutcome, Option<Seq<char>>) {
    (
        match r.result {
            Ok(Some(d)) => Ok(Some(d@)),
            Ok(None) => Ok(None),
            Err(e) => Err(e@),
        },
        r.outcome,
        match r.note {
            Some(n) => Some(n@),
            None => None,
        },
    )
}

/// Ends the export of `leaf` from what the device answered after the sync:
/// whether the Media copy is there and its size, and, when the size is
/// valid, what reading it gave. The copy is read only when it is present
/// with a size in `1..=MAX_EXPORT_BYTES` (`check_export_size` says so).
pub fn finish_export(leaf: &str, present: bool, size: u64, read: Option<Result<Vec<u8>, ()>>) -> (r: ExportReport)
    ensures
        export_report_view(r) == export_report_spec(
            leaf@,
            present,
            size as nat,
            match read {
                Some(Ok(d)) => Some(Ok(d@)),
                Some(Err(())) => Some(Err(())),
                None => None,
            },
        ),
        r.cleanup == export_cleanup_spec(r.outcome),
{
    let (result, outcome, note): (Result<Option<Vec<u8>>, String>, ExportOutcome, Option<String>) =
        if !present {
        let mut n = string_of(leaf);
        push_str(&mut n, " not present on device");
        (Ok(None), ExportOutcome::NotPresent, Some(n))
    } else if size == 0 || size > MAX_EXPORT_BYTES {
        (
            Err(FlashError::InvalidExportSize.message(leaf, size)),
            ExportOutcome::FailedKeepingCopy,
            Some(string_of("Leaving exported original in Media for manual recovery; Books restored.")),
        )
    } else {
        match read {
            Some(Ok(d)) => if d.len() > 0 {
                (Ok(Some(d)), ExportOutcome::Read, None)
            } else {
                (
                    Err(FlashError::EmptyExport.message(leaf, size)),
                    ExportOutcome::FailedKeepingCopy,
                    Some(string_of("Leaving exported original in Media for manual recovery; Books restored.")),
                )
            },
            _ => (Err(string_of("AFC read of exported original art failed")), ExportOutcome::Failed, None),
        }
    };
    let cleanup = export_cleanup(outcome);
    ExportReport { result, outcome, cleanup, note }
}

/// The directory where the applied and previous skin PNGs of a card are
/// kept: `<local_app_data>/AirCard/skins/<card_hash>`, each character of
/// the hash that is not an ASCII letter or digit replaced by `_`.
pub open spec fn skin_backup_dir_spec(local_app_data: Seq<char>, card_hash: Seq<char>) -> Seq<char> {
    joined(
        joined(joined(local_app_data, "AirCard"@), "skins"@),
        card_hash.map_values(|c: char| alnum_or_underscore(c)),
    )
}

/// `c` when it is an ASCII letter or digit, else `_`.
pub open spec fn alnum_or_underscore(c: char) -> char {
    if ('a' <= c && c <= 'z') || ('A' <= c && c <= 'Z') || ('0' <= c && c <= '9') {
        c
    } else {
        '_'
    }
}

/// The directory of a card's applied and previous skin PNGs.
pub fn skin_backup_dir(local_app_data: &str, card_hash: &str) -> (r: String)
    ensures
        r@ == skin_backup_dir_spec(local_app_data@, card_hash@),
{
    let n = card_hash.unicode_len();
    let mut safe = String::new();
    let mut i: usize = 0;
    while i < n
        invariant
            n == card_hash@.len(),
            i <= n,
            safe@ == card_hash@.subrange(0, i as int).map_values(|c: char| alnum_or_underscore(c)),
        decreases n - i,
    {
        let c = card_hash.get_char(i);
        if ('a' <= c && c <= 'z') || ('A' <= c && c <= 'Z') || ('0' <= c && c <= '9') {
            push_char(&mut safe, c);
        } else {
            push_char(&mut safe, '_');
        }
        assert(card_hash@.subrange(0, i + 1) =~= card_hash@.subrange(0, i as int).push(c));
        i = i + 1;
        assert(safe@ =~= card_hash@.subrange(0, i as int).map_values(|c: char| alnum_or_underscore(c)));
    }
    assert(card_hash@.subrange(0, n as int) =~= card_hash@);
    let a = join_path(local_app_data, "AirCard");
    let b = join_path(a.as_str(), "skins");
    join_path(b.as_str(), safe.as_str())
}


/// Whether an original of the card is backed up.
pub fn original_backup_exists(dir: &BackupDir) -> (r: bool)
    ensures
        r == exists|i: int| 0 <= i < 3 && (#[trigger] dir@[i]) is Some,
{
    backup_exists(dir)
}

/// The writes that put a card's backed-up originals back into its pass
/// directory, in backup order; `NoBackup` when none is stored.
pub fn restore_original_artwork(dir: &BackupDir, card_hash: &str) -> (r: Result<Vec<(String, String, Vec<u8>)>, BackupError>)
    ensures
        match (r, load_outcome(dir@)) {
            (Ok(items), Ok(files)) => items_view(items@) == files.map_values(
                |f: (Seq<char>, Seq<u8>)| (pkpass_dir_spec(card_hash@), f.0, f.1),
            ),
            (Err(e), Err(expected)) => e == expected,
            _ => false,
        },
{
    let assets = load_original_assets(dir);
    match assets {
        Err(e) => Err(e),
        Ok(files) => {
            let ghost fv = files_view(files@);
            let mut items: Vec<(String, String, Vec<u8>)> = Vec::new();
            let mut i: usize = 0;
            while i < files.len()
                invariant
                    fv == files_view(files@),
                    i <= files@.len(),
                    items@.len() == i,
                    items_view(items@) == fv.subrange(0, i as int).map_values(
                        |f: (Seq<char>, Seq<u8>)| (pkpass_dir_spec(card_hash@), f.0, f.1),
                    ),
                decreases files@.len() - i,
            {
                let leaf = string_of(files[i].0.as_str());
                let data = copy_bytes(&files[i].1);
                let dir_name = pkpass_dir(card_hash);
                let ghost old_items = items@;
                let ghost prev = fv.subrange(0, i as int).map_values(
                    |f: (Seq<char>, Seq<u8>)| (pkpass_dir_spec(card_hash@), f.0, f.1),
                );
                assert(fv[i as int] == (files@[i as int].0@, files@[i as int].1@));
                let ghost want = (pkpass_dir_spec(card_hash@), fv[i as int].0, fv[i as int].1);
                assert((dir_name@, leaf@, data@) == want);
                items.push((dir_name, leaf, data));
                let ghost next = fv.subrange(0, i + 1).map_values(
                    |f: (Seq<char>, Seq<u8>)| (pkpass_dir_spec(card_hash@), f.0, f.1),
                );
                assert forall|k: int| 0 <= k <= i implies items_view(items@)[k] == next[k] by {
                    if k < i {
                        assert(items@[k] == old_items[k]);
                        assert(items_view(old_items)[k] == prev[k]);
                    }
                }
                assert(items_view(items@) =~= next);
                i = i + 1;
            }
            assert(fv.subrange(0, files@.len() as int) =~= fv);
            Ok(items)
        },
    }
}

/// The export outcome of asset `i`: what `exported[i]` holds, none past its end.
pub open spec fn exported_at(exported: Seq<Option<Seq<u8>>>, i: int) -> Option<Seq<u8>> {
    if 0 <= i < exported.len() {
        exported[i]
    } else {
        None
    }
}

/// How many of the first `k` assets were exported.
pub open spec fn exported_count(exported: Seq<Option<Seq<u8>>>, k: int) -> nat
    decreases k,
{
    if k <= 0 {
        0
    } else {
        exported_count(exported, k - 1) + if exported_at(exported, k - 1) is Some {
            1nat
        } else {
            0nat
        }
    }
}

/// Export outcomes as plain values.
pub open spec fn exports_view(v: Seq<Option<Vec<u8>>>) -> Seq<Option<Seq<u8>>> {
    v.map_values(|o: Option<Vec<u8>>| slot_view(o))
}

/// The exported file of asset `i` under its name, or nothing.
pub open spec fn captured_entry(exported: Seq<Option<Seq<u8>>>, i: int) -> Seq<(Seq<char>, Seq<u8>)> {
    match exported_at(exported, i) {
        Some(d) => seq![(asset_name(asset_at(i)), d)],
        None => seq![],
    }
}

/// What a restore writes back after a capture into an empty backup, the
/// read of each asset being `exported` (files that were read are never
/// empty): every exported file, under its asset's name, in backup order,
/// into the card's pass directory; and when nothing was exported the
/// capture is refused and a restore finds no backup.
pub proof fn lemma_restore_gives_back_captured(exported: Seq<Option<Seq<u8>>>)
    requires
        exported.len() == 3,
        forall|i: int| 0 <= i < 3 ==> (#[trigger] exported[i] matches Some(d) ==> d.len() > 0),
    ensures
        ({
            let dir = seq![exported_at(exported, 0), exported_at(exported, 1), exported_at(exported, 2)];
            let files = captured_entry(exported, 0) + captured_entry(exported, 1) + captured_entry(exported, 2);
            &&& exported_count(exported, 3) > 0 ==> load_outcome(dir) == Ok::<
                Seq<(Seq<char>, Seq<u8>)>,
                BackupError,
            >(files)
            &&& exported_count(exported, 3) == 0 ==> load_outcome(dir) == Err::<
                Seq<(Seq<char>, Seq<u8>)>,
                BackupError,
            >(BackupError::NoBackup)
        }),
{
    let dir = seq![exported_at(exported, 0), exported_at(exported, 1), exported_at(exported, 2)];
    let files = captured_entry(exported, 0) + captured_entry(exported, 1) + captured_entry(exported, 2);
    reveal_with_fuel(stored_originals, 4);
    reveal_with_fuel(exported_count, 4);
    assert(exported[0] matches Some(d) ==> d.len() > 0);
    assert(exported[1] matches Some(d) ==> d.len() > 0);
    assert(exported[2] matches Some(d) ==> d.len() > 0);
    assert(stored_originals(dir, 1) =~= captured_entry(exported, 0));
    assert(stored_originals(dir, 2) =~= captured_entry(exported, 0) + captured_entry(exported, 1));
    assert(stored_originals(dir, 3) =~= files);
}

/// Backs up the card's original artwork from the exported files: `exported[i]`
/// is what exporting asset `i` (in backup order) gave, `None` where it was
/// missing or failed. A card that already has a backup is left alone and
/// the answer is 0; otherwise every exported file is saved and the answer is
/// how many, refused when there are none.
pub fn capture_original_artwork(dir: &mut BackupDir, exported: &Vec<Option<Vec<u8>>>) -> (r: Result<usize, FlashError>)
    ensures
        (exists|i: int| 0 <= i < 3 && (#[trigger] old(dir)@[i]) is Some) ==> {
            &&& r == Ok::<usize, FlashError>(0)
            &&& final(dir)@ == old(dir)@
        },
        !(exists|i: int| 0 <= i < 3 && (#[trigger] old(dir)@[i]) is Some) ==> {
            let ev = exports_view(exported@);
            &&& final(dir)@ == seq![exported_at(ev, 0), exported_at(ev, 1), exported_at(ev, 2)]
            &&& exported_count(ev, 3) == 0 ==> r == Err::<usize, FlashError>(FlashError::NothingCaptured)
            &&& exported_count(ev, 3) > 0 ==> r == Ok::<usize, FlashError>(exported_count(ev, 3) as usize)
        },
{
    proof {
        lemma_backup_dir_len(*dir);
    }
    if backup_exists(dir) {
        return Ok(0);
    }
    let ghost ev = exports_view(exported@);
    let ghost start = dir@;
    assert(start =~= seq![None::<Seq<u8>>, None, None]) by {
        assert(!(start[0] is Some));
        assert(!(start[1] is Some));
        assert(!(start[2] is Some));
    }
    let mut saved: usize = 0;
    let mut i: usize = 0;
    while i < 3
        invariant
            i <= 3,
            ev == exports_view(exported@),
            saved == exported_count(ev, i as int),
            saved <= i,
            dir@.len() == 3,
            forall|j: int| 0 <= j < i ==> #[trigger] dir@[j] == exported_at(ev, j),
            forall|j: int| i <= j < 3 ==> #[trigger] dir@[j] is None,
        decreases 3 - i,
    {
        let asset = if i == 0 {
            OriginalAsset::Combined3x
        } else if i == 1 {
            OriginalAsset::Combined2x
        } else {
            OriginalAsset::CombinedPdf
        };
        assert(asset_index(asset) == i);
        proof {
            lemma_asset_named(asset);
        }
        if i < exported.len() {
            match &exported[i] {
                Some(data) => {
                    let ghost before = dir@;
                    let answer = save_original_asset(dir, asset.file_name(), data.as_slice());
                    assert(dir@ == before.update(i as int, Some(data@)));
                    assert(answer == Ok::<bool, BackupError>(true));
                    saved = saved + 1;
                },
                None => {},
            }
        }
        i = i + 1;
    }
    assert(dir@ =~= seq![exported_at(ev, 0), exported_at(ev, 1), exported_at(ev, 2)]);
    if saved == 0 {
        Err(FlashError::NothingCaptured)
    } else {
        Ok(saved)
    }
}


/// A top-level name left behind by an earlier staging: it begins with the
/// source, link or Media-copy prefix.
pub open spec fn is_staging_leftover_spec(name: Seq<char>) -> bool {
    has_prefix(name, source_prefix()) || has_prefix(name, link_prefix()) || has_prefix(
        name,
        recovered_prefix(),
    )
}

/// Whether `name` was left behind by an earlier staging and is cleared
/// before a new one.
pub fn is_staging_leftover(name: &str) -> (r: bool)
    ensures
        r == is_staging_leftover_spec(name@),
{
    starts_with(name, "airlift-src-") || starts_with(name, "airlift-link-") || starts_with(
        name,
        "airlift-recovered-",
    )
}

/// Every name this library stages under is cleared as a leftover.
pub proof fn lemma_staged_names_are_leftovers(token: Seq<char>)
    ensures
        is_staging_leftover_spec(source_name(token)),
        is_staging_leftover_spec(link_dest_name(token)),
        is_staging_leftover_spec(recovered_name(token)),
{
    assert(source_name(token).subrange(0, source_prefix().len() as int) =~= source_prefix());
    assert(link_dest_name(token).subrange(0, link_prefix().len() as int) =~= link_prefix());
    assert(recovered_name(token).subrange(0, recovered_prefix().len() as int) =~= recovered_prefix());
}


/// Batching covers every file once, in order: the handshakes of a write of
/// `n` files take consecutive runs of one to `AIRTRAFFIC_BATCH_SIZE` files,
/// the first starting at file 0 and the last ending at file `n`.
pub proof fn lemma_batches_cover_all_files(plans: Seq<BatchPlan>, n: nat)
    requires
        plans.len() == chunk_count(n),
        forall|k: int| 0 <= k < plans.len() ==> batch_plan_ok(#[trigger] plans[k], k as nat, n),
    ensures
        n == 0 <==> plans.len() == 0,
        n > 0 ==> plans[0].start == 0,
        forall|k: int| 0 <= k < plans.len() ==> 1 <= #[trigger] plans[k].len <= 8,
        forall|k: int| 0 <= k < plans.len() - 1 ==> #[trigger] plans[k].start + plans[k].len == plans[k + 1].start,
        n > 0 ==> plans[plans.len() - 1].start + plans[plans.len() - 1].len == n,
{
    assert forall|k: int| 0 <= k < plans.len() implies 1 <= #[trigger] plans[k].len <= 8 by {
        assert(batch_plan_ok(plans[k], k as nat, n));
        assert(8 * k < n);
    }
    assert forall|k: int| 0 <= k < plans.len() - 1 implies #[trigger] plans[k].start + plans[k].len
        == plans[k + 1].start by {
        assert(batch_plan_ok(plans[k], k as nat, n));
        assert(batch_plan_ok(plans[k + 1], (k + 1) as nat, n));
        assert(8 * (k + 1) < n);
    }
    if n > 0 {
        let last = plans.len() - 1;
        assert(batch_plan_ok(plans[last], last as nat, n));
        assert(batch_plan_ok(plans[0], 0, n));
    }
}

/// The applied and previous skin PNG of one card.
pub struct SkinHistory {
    /// The PNG applied last.
    pub current: Option<Vec<u8>>,
    /// The PNG applied before it.
    pub previous: Option<Vec<u8>>,
}

/// The applied and previous skin of a card as plain values.
pub open spec fn history_view(h: SkinHistory) -> (Option<Seq<u8>>, Option<Seq<u8>>) {
    (slot_view(h.current), slot_view(h.previous))
}

/// The skins after `png` is applied: it becomes the applied one, and the
/// skin applied before becomes the previous one (when there is none, the
/// previous one stays).
pub open spec fn remember_spec(h: (Option<Seq<u8>>, Option<Seq<u8>>), png: Seq<u8>) -> (Option<Seq<u8>>, Option<Seq<u8>>) {
    (Some(png), if h.0 is Some {
        h.0
    } else {
        h.1
    })
}

/// Records that `png` was applied.
pub fn remember_applied_png(history: &mut SkinHistory, png: &[u8])
    ensures
        history_view(*final(history)) == remember_spec(history_view(*old(history)), png@),
{
    let mut data: Vec<u8> = Vec::new();
    let mut k: usize = 0;
    while k < png.len()
        invariant
            k <= png@.len(),
            data@ == png@.subrange(0, k as int),
        decreases png@.len() - k,
    {
        data.push(png[k]);
        k = k + 1;
        assert(data@ =~= png@.subrange(0, k as int));
    }
    assert(data@ =~= png@);
    let old_current = history.current.take();
    match old_current {
        Some(c) => history.previous = Some(c),
        None => {},
    }
    history.current = Some(data);
}

/// The PNG to revert to: the one applied before the last.
pub fn load_previous_png(history: &SkinHistory) -> (r: Option<Vec<u8>>)
    ensures
        slot_view(r) == history_view(*history).1,
{
    match &history.previous {
        Some(p) => Some(copy_bytes(p)),
        None => None,
    }
}


/// Revert needs two applies: after `first` and then `second` are applied,
/// the skin to revert to is `first`, whatever came before.
pub proof fn lemma_revert_gives_skin_before_last(
    h: (Option<Seq<u8>>, Option<Seq<u8>>),
    first: Seq<u8>,
    second: Seq<u8>,
)
    ensures
        remember_spec(remember_spec(h, first), second) == (Some(second), Some(first)),
{
}

} // verus!
