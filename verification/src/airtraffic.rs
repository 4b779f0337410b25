//! The decisions of the device sync handshake: which message ends which
//! wait, when a wait gives up, what a failure reports, and whether the
//! device offers every staged asset.

use vstd::prelude::*;
use crate::text::{
    is_unicode_whitespace, push_decimal, push_signed_decimal, push_str, str_eq, string_of, trim,
    trimmed, decimal, signed_decimal,
};

verus! {

/// The library identifier the host presents.
pub const LIBRARY_ID: &'static str = "12.6.0.100";

/// The host version the host presents.
pub const HOST_VERSION: &'static str = "12.6.0.100";

/// The replayable host Grappa blob sent with the sync request.
pub const HOST_GRAPPA: [u8; 84] = [
    0x01, 0x01, 0x11, 0x11, 0x11, 0x11, 0x11, 0x11, 0x11, 0x11, 0x11, 0x11, 0x11, 0x11, 0x11, 0x11,
    0x11, 0x11, 0x04, 0x40, 0xbc, 0x27, 0x85, 0xe0, 0xdb, 0xf1, 0x66, 0x36, 0x1e, 0x07, 0x98, 0x0a,
    0x5e, 0xa4, 0x8d, 0xba, 0x95, 0xb3, 0xb8, 0xea, 0x26, 0x5d, 0x62, 0xae, 0xfe, 0xa5, 0x1b, 0xb7,
    0xb1, 0x90, 0xe0, 0xb7, 0x71, 0x26, 0x29, 0x0a, 0xd3, 0x9b, 0xb1, 0x3f, 0xec, 0xc0, 0x8c, 0x25,
    0xa9, 0x56, 0x1c, 0x51, 0x7a, 0xc1, 0x1e, 0x64, 0x90, 0x5d, 0xa0, 0x29, 0xe6, 0x1b, 0xdf, 0xd0,
    0xba, 0x22, 0xc3, 0x13,
];

/// Seconds a whole sync may take.
pub const SYNC_TIMEOUT_SECS: u64 = 120;

/// Seconds the wait for `ReadyForSync` may take.
pub const READY_TIMEOUT_SECS: u64 = 90;

/// What a background sync reports to the caller.
pub enum SyncEvent {
    /// A progress line.
    Log(String),
    /// The sync ended, with the failure message when it failed.
    Done(Result<(), String>),
}

/// The plist value of a failure message's `ErrorCode` parameter, as far as
/// the report reads it.
pub enum PlistScalar {
    /// An integer.
    Integer(i128),
    /// A string.
    String(String),
    /// Any other kind of value.
    Other,
}

/// One or more ASCII digits, with at most a `-` in front.
pub open spec fn is_numeric_text(t: Seq<char>) -> bool {
    &&& t.len() > 0
    &&& !(t.len() == 1 && t[0] == '-')
    &&& forall|i: int|
        0 <= i < t.len() ==> ('0' <= #[trigger] t[i] && t[i] <= '9') || (i == 0 && t[i] == '-')
}

/// The error code a failure report shows: an integer that fits `i64` or
/// `u64` in decimal, a string that is numeric once trimmed, and nothing else.
pub open spec fn numeric_error_code_spec(value: PlistScalar) -> Option<Seq<char>> {
    match value {
        PlistScalar::Integer(v) => if i64::MIN <= v && v <= i64::MAX {
            Some(signed_decimal(v as int))
        } else if 0 <= v && v <= u64::MAX {
            Some(decimal(v as nat))
        } else {
            None
        },
        PlistScalar::String(s) => if is_numeric_text(trimmed(s@)) {
            Some(trimmed(s@))
        } else {
            None
        },
        PlistScalar::Other => None,
    }
}

/// The numeric error code of a failure message's `ErrorCode` parameter;
/// any other text is never reported.
pub fn numeric_error_code(value: &PlistScalar) -> (r: Option<String>)
    ensures
        match (r, numeric_error_code_spec(*value)) {
            (Some(s), Some(t)) => s@ == t,
            (None, None) => true,
            _ => false,
        },
{
    match value {
        PlistScalar::Integer(v) => {
            let v = *v;
            if -9223372036854775808i128 <= v && v <= 9223372036854775807i128 {
                let mut out = String::new();
                push_signed_decimal(&mut out, v as i64);
                Some(out)
            } else if 0 <= v && v <= 18446744073709551615i128 {
                let mut out = String::new();
                push_decimal(&mut out, v as u64);
                Some(out)
            } else {
                None
            }
        },
        PlistScalar::String(s) => {
            let t = trim(s.as_str());
            let n = t.as_str().unicode_len();
            if n == 0 {
                return None;
            }
            let mut i: usize = 0;
            while i < n
                invariant
                    n == t@.len(),
                    t@ == trimmed(s@),
                    *value == PlistScalar::String(*s),
                    i <= n,
                    forall|j: int|
                        0 <= j < i ==> ('0' <= #[trigger] t@[j] && t@[j] <= '9') || (j == 0 && t@[j]
                            == '-'),
                decreases n - i,
            {
                let c = t.as_str().get_char(i);
                if !(('0' <= c && c <= '9') || (i == 0 && c == '-')) {
                    assert(t@[i as int] == c);
                    assert(!is_numeric_text(t@));
                    return None;
                }
                i = i + 1;
            }
            if n == 1 && t.as_str().get_char(0) == '-' {
                return None;
            }
            Some(t)
        },
        PlistScalar::Other => None,
    }
}

/// A report never shows text that is not numeric: whatever the value, what
/// is reported is one or more ASCII digits, with at most a leading `-`.
pub proof fn lemma_error_code_is_numeric(value: PlistScalar)
    ensures
        numeric_error_code_spec(value) matches Some(t) ==> is_numeric_text(t),
{
    match value {
        PlistScalar::Integer(v) => {
            if i64::MIN <= v && v <= i64::MAX {
                if v >= 0 {
                    lemma_decimal_digits(v as nat);
                } else {
                    let d = decimal((-v) as nat);
                    lemma_decimal_digits((-v) as nat);
                    let t = seq!['-'] + d;
                    assert forall|i: int| 0 <= i < t.len() implies ('0' <= #[trigger] t[i] && t[i] <= '9') || (i == 0 && t[i] == '-') by {
                        if i > 0 {
                            assert(t[i] == d[i - 1]);
                        }
                    }
                }
            } else if 0 <= v && v <= u64::MAX {
                lemma_decimal_digits(v as nat);
            }
        },
        _ => {},
    }
}

/// The decimal spelling of a number is non-empty and made of digits.
pub proof fn lemma_decimal_digits(n: nat)
    ensures
        decimal(n).len() > 0,
        forall|i: int| 0 <= i < decimal(n).len() ==> '0' <= #[trigger] decimal(n)[i] && decimal(n)[i] <= '9',
    decreases n,
{
    if n >= 10 {
        lemma_decimal_digits(n / 10);
        let d = decimal(n / 10);
        assert(decimal(n) == d.push(crate::text::digit_char((n % 10) as int)));
    }
}

/// One entry of the device's asset manifest, as far as the check reads it.
pub struct ManifestEntry {
    /// Its `IsDownload` flag, when it is a boolean.
    pub is_download: Option<bool>,
    /// Its `AssetID`, when it is a string.
    pub asset_id: Option<String>,
}

/// The asset identifiers the device offers for download, in manifest order.
pub open spec fn downloads_spec(entries: Seq<ManifestEntry>) -> Seq<Seq<char>>
    decreases entries.len(),
{
    if entries.len() == 0 {
        seq![]
    } else {
        let prev = downloads_spec(entries.drop_last());
        let e = entries.last();
        if e.is_download == Some(true) && e.asset_id is Some {
            prev.push(e.asset_id.unwrap()@)
        } else {
            prev
        }
    }
}

/// The identifiers of the manifest entries marked as downloads.
pub fn available_downloads(entries: &Vec<ManifestEntry>) -> (r: Vec<String>)
    ensures
        r@.map_values(|s: String| s@) == downloads_spec(entries@),
{
    let mut out: Vec<String> = Vec::new();
    let mut i: usize = 0;
    while i < entries.len()
        invariant
            i <= entries@.len(),
            out@.map_values(|s: String| s@) == downloads_spec(entries@.subrange(0, i as int)),
        decreases entries@.len() - i,
    {
        let ghost pre = entries@.subrange(0, i + 1);
        assert(pre.drop_last() =~= entries@.subrange(0, i as int));
        let is_dl = match entries[i].is_download {
            Some(b) => b,
            None => false,
        };
        if is_dl {
            match &entries[i].asset_id {
                Some(id) => {
                    out.push(id.clone());
                    assert(out@.map_values(|s: String| s@) =~= downloads_spec(pre));
                },
                None => {},
            }
        }
        i = i + 1;
    }
    assert(entries@.subrange(0, entries@.len() as int) =~= entries@);
    out
}

/// Checks that the device offers every staged asset (by its identifier, the
/// first of each pair); refused with the index of the first one it does not.
pub fn check_manifest_assets(assets: &Vec<(String, String)>, available: &Vec<String>) -> (r: Result<(), usize>)
    ensures
        match r {
            Ok(()) => forall|i: int|
                0 <= i < assets@.len() ==> available@.map_values(|s: String| s@).contains(
                    #[trigger] assets@[i].0@,
                ),
            Err(k) => k < assets@.len() && !available@.map_values(|s: String| s@).contains(
                assets@[k as int].0@,
            ) && forall|j: int|
                0 <= j < k ==> available@.map_values(|s: String| s@).contains(
                    #[trigger] assets@[j].0@,
                ),
        },
{
    let ghost av = available@.map_values(|s: String| s@);
    let mut i: usize = 0;
    while i < assets.len()
        invariant
            av == available@.map_values(|s: String| s@),
            i <= assets@.len(),
            forall|j: int| 0 <= j < i ==> av.contains(#[trigger] assets@[j].0@),
        decreases assets@.len() - i,
    {
        let ident = assets[i].0.as_str();
        let mut found = false;
        let mut k: usize = 0;
        while k < available.len()
            invariant
                av == available@.map_values(|s: String| s@),
                k <= available@.len(),
                found == exists|j: int| 0 <= j < k && av[j] == ident@,
            decreases available@.len() - k,
        {
            assert(av[k as int] == available@[k as int]@);
            if str_eq(available[k].as_str(), ident) {
                found = true;
            }
            k = k + 1;
        }
        if !found {
            assert(!av.contains(ident@));
            return Err(i);
        }
        assert(av.contains(ident@));
        i = i + 1;
    }
    Ok(())
}

/// The waits of the handshake, in order.
#[derive(Clone, Copy, PartialEq, Eq, Structural, Debug)]
pub enum HandshakeStage {
    /// Waiting for the device to allow syncing (20 reads at most).
    SyncAllowed,
    /// Waiting for the device to accept the sync request (bounded by time).
    ReadyForSync,
    /// Waiting for the device's asset manifest (30 reads at most).
    AssetManifest,
}

/// What to do after one read during a wait.
#[derive(Clone, Copy, PartialEq, Eq, Structural, Debug)]
pub enum HandshakeStep {
    /// No message was waiting: pause, then read again.
    Wait,
    /// Another message arrived: log its name, then read again.
    Skip,
    /// The awaited message arrived: go on.
    Advance,
    /// The device ended the sync: fail, reporting the message.
    Terminated,
    /// The read budget is spent without the awaited message: a message
    /// that came with this last read is logged as a skipped one would be,
    /// then the wait fails.
    GiveUp,
}

/// The message each wait is for.
pub open spec fn awaited(stage: HandshakeStage) -> Seq<char> {
    match stage {
        HandshakeStage::SyncAllowed => "SyncAllowed"@,
        HandshakeStage::ReadyForSync => "ReadyForSync"@,
        HandshakeStage::AssetManifest => "AssetManifest"@,
    }
}

/// The read budget of each wait; the `ReadyForSync` wait is bounded by time.
pub open spec fn read_budget(stage: HandshakeStage) -> Option<nat> {
    match stage {
        HandshakeStage::SyncAllowed => Some(20),
        HandshakeStage::ReadyForSync => None,
        HandshakeStage::AssetManifest => Some(30),
    }
}

/// A message that ends the sync from the device side.
pub open spec fn is_terminating(name: Seq<char>) -> bool {
    name == "SyncFailed"@ || name == "SyncFinished"@
}

/// The step after read number `reads` (counting from 1) of a wait, which
/// gave the message `name` or none. Terminating messages end only the
/// `ReadyForSync` and `AssetManifest` waits.
pub open spec fn handshake_step_spec(stage: HandshakeStage, reads: nat, name: Option<Seq<char>>) -> HandshakeStep {
    let outcome = match name {
        None => HandshakeStep::Wait,
        Some(n) => if n == awaited(stage) {
            HandshakeStep::Advance
        } else if stage != HandshakeStage::SyncAllowed && is_terminating(n) {
            HandshakeStep::Terminated
        } else {
            HandshakeStep::Skip
        },
    };
    match (outcome, read_budget(stage)) {
        (HandshakeStep::Wait, Some(b)) => if reads >= b {
            HandshakeStep::GiveUp
        } else {
            HandshakeStep::Wait
        },
        (HandshakeStep::Skip, Some(b)) => if reads >= b {
            HandshakeStep::GiveUp
        } else {
            HandshakeStep::Skip
        },
        _ => outcome,
    }
}

/// No terminating message is one that a wait is for.
proof fn lemma_terminating_not_awaited()
    ensures
        "SyncFailed"@ != "ReadyForSync"@,
        "SyncFailed"@ != "AssetManifest"@,
        "SyncFinished"@ != "ReadyForSync"@,
        "SyncFinished"@ != "AssetManifest"@,
{
    reveal_strlit("SyncFailed");
    reveal_strlit("SyncFinished");
    reveal_strlit("ReadyForSync");
    reveal_strlit("AssetManifest");
    assert("SyncFailed"@.len() != "ReadyForSync"@.len());
    assert("SyncFailed"@.len() != "AssetManifest"@.len());
    assert("SyncFinished"@[4] != "ReadyForSync"@[4]);
    assert("SyncFinished"@.len() != "AssetManifest"@.len());
}

/// While the host waits for `ReadyForSync` or for the asset manifest, a
/// `SyncFailed` or `SyncFinished` from the device ends the wait at once as
/// a failure, at any read; the awaited message always lets it go on.
pub proof fn lemma_terminating_message_ends_wait(stage: HandshakeStage, reads: nat)
    requires
        stage != HandshakeStage::SyncAllowed,
    ensures
        handshake_step_spec(stage, reads, Some("SyncFailed"@)) == HandshakeStep::Terminated,
        handshake_step_spec(stage, reads, Some("SyncFinished"@)) == HandshakeStep::Terminated,
        handshake_step_spec(stage, reads, Some(awaited(stage))) == HandshakeStep::Advance,
{
    lemma_terminating_not_awaited();
}

/// The step after one read of a handshake wait.
pub fn handshake_step(stage: HandshakeStage, reads: u32, name: Option<&str>) -> (r: HandshakeStep)
    ensures
        r == handshake_step_spec(
            stage,
            reads as nat,
            match name {
                Some(n) => Some(n@),
                None => None,
            },
        ),
        stage != HandshakeStage::SyncAllowed && (name matches Some(n) && (n@ == "SyncFailed"@ || n@
            == "SyncFinished"@)) ==> r == HandshakeStep::Terminated,
        name matches Some(n) && n@ == awaited(stage) ==> r == HandshakeStep::Advance,
        name is None && read_budget(stage) is None ==> r == HandshakeStep::Wait,
        stage == HandshakeStage::SyncAllowed ==> r != HandshakeStep::Terminated,
        r == HandshakeStep::Advance ==> name is Some && name.unwrap()@ == awaited(stage),
        r == HandshakeStep::GiveUp ==> read_budget(stage) is Some && reads >= read_budget(stage).unwrap(),
        name is None && read_budget(stage) is Some && reads < read_budget(stage).unwrap() ==> r
            == HandshakeStep::Wait,
        name is None && read_budget(stage) is Some && reads >= read_budget(stage).unwrap() ==> r
            == HandshakeStep::GiveUp,
{
    proof {
        lemma_terminating_not_awaited();
    }
    let expected = match stage {
        HandshakeStage::SyncAllowed => "SyncAllowed",
        HandshakeStage::ReadyForSync => "ReadyForSync",
        HandshakeStage::AssetManifest => "AssetManifest",
    };
    let outcome = match name {
        None => HandshakeStep::Wait,
        Some(n) => if str_eq(n, expected) {
            HandshakeStep::Advance
        } else if stage != HandshakeStage::SyncAllowed && (str_eq(n, "SyncFailed") || str_eq(
            n,
            "SyncFinished",
        )) {
            HandshakeStep::Terminated
        } else {
            HandshakeStep::Skip
        },
    };
    let budget: Option<u32> = match stage {
        HandshakeStage::SyncAllowed => Some(20),
        HandshakeStage::ReadyForSync => None,
        HandshakeStage::AssetManifest => Some(30),
    };
    match budget {
        Some(b) => if (outcome == HandshakeStep::Wait || outcome == HandshakeStep::Skip) && reads >= b {
            HandshakeStep::GiveUp
        } else {
            outcome
        },
        None => outcome,
    }
}

/// A wait with a read budget never asks for a read past it, and only the
/// awaited message lets the handshake go on.
pub proof fn lemma_handshake_bounded(stage: HandshakeStage, reads: nat, name: Option<Seq<char>>)
    ensures
        read_budget(stage) matches Some(b) && reads >= b ==> handshake_step_spec(stage, reads, name)
            != HandshakeStep::Wait && handshake_step_spec(stage, reads, name) != HandshakeStep::Skip,
        handshake_step_spec(stage, reads, name) == HandshakeStep::Advance ==> name == Some(
            awaited(stage),
        ),
{
}


/// What follows `ReadyForSync`.
#[derive(Clone, Copy, PartialEq, Eq, Structural, Debug)]
pub enum AfterReady {
    /// Nothing is synchronized (the probe): release the connection.
    Finish,
    /// Finish the Books metadata sync and hand over the staged assets.
    SendMetadata,
}

/// A handshake with no assets (the probe) ends at `ReadyForSync` and writes
/// nothing; any other goes on to the metadata sync.
pub fn after_ready_for_sync(asset_count: usize) -> (r: AfterReady)
    ensures
        r == (if asset_count == 0 {
            AfterReady::Finish
        } else {
            AfterReady::SendMetadata
        }),
{
    if asset_count == 0 {
        AfterReady::Finish
    } else {
        AfterReady::SendMetadata
    }
}

/// Why a wait of the handshake failed, as reported: `name` is the
/// terminating message when one ended the wait (`None` when the wait gave
/// up or ran out of time), `code` what its `ErrorCode` parameter reads as.
pub open spec fn handshake_failure_spec(stage: HandshakeStage, name: Option<Seq<char>>, code: Option<PlistScalar>) -> Seq<char> {
    match (stage, name) {
        (HandshakeStage::SyncAllowed, _) => "AirTraffic: SyncAllowed message not received. Ensure iPhone screen is unlocked and Books app is opened."@,
        (HandshakeStage::ReadyForSync, Some(n)) => "AirTraffic returned "@ + n + " instead of ReadyForSync. "@
            + match code {
            Some(v) => match numeric_error_code_spec(v) {
                Some(c) => "ErrorCode="@ + c,
                None => "ErrorCode unavailable"@,
            },
            None => "ErrorCode unavailable"@,
        },
        (HandshakeStage::ReadyForSync, None) => "AirTraffic: ReadyForSync message not received from device"@,
        (HandshakeStage::AssetManifest, Some(n)) => "AirTraffic returned unexpected terminating message: "@ + n,
        (HandshakeStage::AssetManifest, None) => "AirTraffic: AssetManifest was not received or failed to parse"@,
    }
}

/// The report of a failed handshake wait. Of the terminating message only
/// its name and a numeric error code are ever shown.
pub fn handshake_failure_text(stage: HandshakeStage, name: Option<&str>, code: Option<&PlistScalar>) -> (r: String)
    ensures
        r@ == handshake_failure_spec(
            stage,
            match name {
                Some(n) => Some(n@),
                None => None,
            },
            match code {
                Some(v) => Some(*v),
                None => None,
            },
        ),
{
    match (stage, name) {
        (HandshakeStage::SyncAllowed, _) => string_of(
            "AirTraffic: SyncAllowed message not received. Ensure iPhone screen is unlocked and Books app is opened.",
        ),
        (HandshakeStage::ReadyForSync, Some(n)) => {
            let mut m = string_of("AirTraffic returned ");
            push_str(&mut m, n);
            push_str(&mut m, " instead of ReadyForSync. ");
            let shown = match code {
                Some(v) => numeric_error_code(v),
                None => None,
            };
            match shown {
                Some(c) => {
                    push_str(&mut m, "ErrorCode=");
                    push_str(&mut m, c.as_str());
                },
                None => push_str(&mut m, "ErrorCode unavailable"),
            }
            m
        },
        (HandshakeStage::ReadyForSync, None) => string_of("AirTraffic: ReadyForSync message not received from device"),
        (HandshakeStage::AssetManifest, Some(n)) => {
            let mut m = string_of("AirTraffic returned unexpected terminating message: ");
            push_str(&mut m, n);
            m
        },
        (HandshakeStage::AssetManifest, None) => string_of("AirTraffic: AssetManifest was not received or failed to parse"),
    }
}

/// The `AssetCompleted` messages for the staged assets, in order: each
/// asset's identifier, the `Book` data class and its destination.
pub open spec fn completions_spec(assets: Seq<(String, String)>) -> Seq<(Seq<char>, Seq<char>, Seq<char>)> {
    assets.map_values(|a: (String, String)| (a.0@, "Book"@, a.1@))
}

/// The `AssetCompleted` messages to send once the manifest is read:
/// refused with the index of the first staged asset that the device does
/// not offer, in which case nothing is sent.
pub fn asset_completions(assets: &Vec<(String, String)>, available: &Vec<String>) -> (r: Result<Vec<(String, String, String)>, usize>)
    ensures
        match r {
            Ok(sends) => sends@.map_values(|t: (String, String, String)| (t.0@, t.1@, t.2@))
                == completions_spec(assets@) && forall|i: int|
                0 <= i < assets@.len() ==> available@.map_values(|s: String| s@).contains(
                    #[trigger] assets@[i].0@,
                ),
            Err(k) => k < assets@.len() && !available@.map_values(|s: String| s@).contains(
                assets@[k as int].0@,
            ) && forall|j: int|
                0 <= j < k ==> available@.map_values(|s: String| s@).contains(
                    #[trigger] assets@[j].0@,
                ),
        },
{
    match check_manifest_assets(assets, available) {
        Err(k) => Err(k),
        Ok(()) => {
            let mut sends: Vec<(String, String, String)> = Vec::new();
            let mut i: usize = 0;
            while i < assets.len()
                invariant
                    i <= assets@.len(),
                    sends@.map_values(|t: (String, String, String)| (t.0@, t.1@, t.2@))
                        == completions_spec(assets@.take(i as int)),
                decreases assets@.len() - i,
            {
                let ghost before = sends@.map_values(|t: (String, String, String)| (t.0@, t.1@, t.2@));
                sends.push((string_of(assets[i].0.as_str()), string_of("Book"), string_of(assets[i].1.as_str())));
                proof {
                    assert(assets@.take(i + 1) =~= assets@.take(i as int).push(assets@[i as int]));
                    assert(completions_spec(assets@.take(i + 1)) =~= completions_spec(assets@.take(i as int)).push(
                        (assets@[i as int].0@, "Book"@, assets@[i as int].1@),
                    ));
                    assert(sends@.map_values(|t: (String, String, String)| (t.0@, t.1@, t.2@)) =~= before.push(
                        (assets@[i as int].0@, "Book"@, assets@[i as int].1@),
                    ));
                }
                i = i + 1;
            }
            assert(assets@.take(assets@.len() as int) =~= assets@);
            Ok(sends)
        },
    }
}

/// The report of a staged asset the device does not offer; `available` is
/// the list of offered identifiers as printed.
pub fn missing_asset_text(ident: &str, available: &str) -> (r: String)
    ensures
        r@ == "Asset '"@ + ident@ + "' missing from device download manifest (available: "@ + available@ + ")"@,
{
    let mut m = string_of("Asset '");
    push_str(&mut m, ident);
    push_str(&mut m, "' missing from device download manifest (available: ");
    push_str(&mut m, available);
    push_str(&mut m, ")");
    m
}

/// The host's description of itself, sent with `HostInfo` and inside the
/// sync request.
pub struct HostInfo {
    pub library_id: String,
    pub sync_host_name: String,
    pub version: String,
    pub synced_dataclasses: Vec<String>,
}

/// The parameters of the `RequestingSync` message.
pub struct SyncRequest {
    pub dataclasses: Vec<String>,
    /// The anchor of each data class.
    pub anchors: Vec<(String, String)>,
    pub host_info: HostInfo,
    /// The Grappa blob sent with the host description.
    pub grappa: Vec<u8>,
}

/// The host description: library `LIBRARY_ID`, host name `airlift`, version
/// `HOST_VERSION`, and the `Book` data class.
pub open spec fn host_info_ok(h: HostInfo) -> bool {
    &&& h.library_id@ == LIBRARY_ID@
    &&& h.sync_host_name@ == "airlift"@
    &&& h.version@ == HOST_VERSION@
    &&& h.synced_dataclasses@.map_values(|s: String| s@) == seq!["Book"@]
}

/// The host description.
pub fn host_info() -> (r: HostInfo)
    ensures
        host_info_ok(r),
{
    let mut classes: Vec<String> = Vec::new();
    classes.push(string_of("Book"));
    assert(classes@.map_values(|s: String| s@) =~= seq!["Book"@]);
    HostInfo {
        library_id: string_of(LIBRARY_ID),
        sync_host_name: string_of("airlift"),
        version: string_of(HOST_VERSION),
        synced_dataclasses: classes,
    }
}

/// The sync request: the `Book` data class at anchor `0`, the host
/// description and the Grappa blob.
pub fn sync_request() -> (r: SyncRequest)
    ensures
        r.dataclasses@.map_values(|s: String| s@) == seq!["Book"@],
        r.anchors@.map_values(|a: (String, String)| (a.0@, a.1@)) == seq![("Book"@, "0"@)],
        host_info_ok(r.host_info),
        r.grappa@ == HOST_GRAPPA@,
{
    let mut dataclasses: Vec<String> = Vec::new();
    dataclasses.push(string_of("Book"));
    let mut anchors: Vec<(String, String)> = Vec::new();
    anchors.push((string_of("Book"), string_of("0")));
    assert(dataclasses@.map_values(|s: String| s@) =~= seq!["Book"@]);
    assert(anchors@.map_values(|a: (String, String)| (a.0@, a.1@)) =~= seq![("Book"@, "0"@)]);
    let mut g: Vec<u8> = Vec::new();
    let mut i: usize = 0;
    while i < 84
        invariant
            i <= 84,
            g@ == HOST_GRAPPA@.take(i as int),
        decreases 84 - i,
    {
        g.push(HOST_GRAPPA[i]);
        assert(HOST_GRAPPA@.take(i + 1) =~= HOST_GRAPPA@.take(i as int).push(HOST_GRAPPA@[i as int]));
        i = i + 1;
    }
    assert(HOST_GRAPPA@.take(84) =~= HOST_GRAPPA@);
    SyncRequest { dataclasses, anchors, host_info: host_info(), grappa: g }
}

} // verus!
