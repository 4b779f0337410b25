//! The property lists of the device sync: what the host sends (its
//! description, the sync request, the metadata-sync parameters) encoded
//! as binary plists with the `plist` crate, and what it reads back (an
//! `ErrorCode` parameter and the asset manifest), parsed with it.

use vstd::prelude::*;
use crate::airtraffic::{
    HOST_GRAPPA, HOST_VERSION, LIBRARY_ID, ManifestEntry, PlistScalar,
    available_downloads, downloads_spec, host_info, is_numeric_text,
    numeric_error_code, sync_request,
};
use crate::text::{decimal, signed_decimal, string_of, trimmed};
use plist::Value;
use PlistField::{Dict, Leaf};
use PlistLeaf::{Bytes, Text, Texts};

verus! {

/// A single plist value as read, before the library chooses how to take it.
pub enum RawScalar {
    /// An integer, as `i64` and as `u64` where it fits each.
    Integer { signed: Option<i64>, unsigned: Option<u64> },
    /// A string.
    String(String),
    /// Any other kind of value.
    Other,
}

/// A `RawScalar` as plain values.
pub enum ScalarModel {
    Integer(Option<i64>, Option<u64>),
    String(Seq<char>),
    Other,
}

/// The plain values of a `RawScalar`.
pub open spec fn scalar_model(s: RawScalar) -> ScalarModel {
    match s {
        RawScalar::Integer { signed, unsigned } => ScalarModel::Integer(signed, unsigned),
        RawScalar::String(t) => ScalarModel::String(t@),
        RawScalar::Other => ScalarModel::Other,
    }
}

/// What `plist::Value::from_reader` reads from `bytes`, as a scalar:
/// `None` when the bytes are not a plist.
pub uninterp spec fn parsed_scalar(bytes: Seq<u8>) -> Option<ScalarModel>;

/// An entry of a manifest's `Book` list as plain values: its `IsDownload`
/// boolean and its `AssetID` string, where present with that type.
pub open spec fn entry_model(e: ManifestEntry) -> (Option<bool>, Option<Seq<char>>) {
    (
        e.is_download,
        match e.asset_id {
            Some(a) => Some(a@),
            None => None,
        },
    )
}

/// What `plist::Value::from_reader` reads from an asset manifest's bytes,
/// as far as the sync reads it: `None` when the bytes are not a plist;
/// `Some(None)` when the plist is not a dictionary with a `Book` array;
/// otherwise each entry of that array, in order.
pub uninterp spec fn manifest_book_entries(bytes: Seq<u8>) -> Option<Option<Seq<(Option<bool>, Option<Seq<char>>)>>>;

/// A value of a dictionary the host sends: a string, an array of
/// strings, or data.
pub enum PlistLeaf {
    Text(String),
    Texts(Vec<String>),
    Bytes(Vec<u8>),
}

/// A field of a dictionary the host sends: a value, or a dictionary of values.
pub enum PlistField {
    Leaf(PlistLeaf),
    Dict(Vec<(String, PlistLeaf)>),
}

/// A `PlistLeaf` as plain values.
pub enum LeafModel {
    Text(Seq<char>),
    Texts(Seq<Seq<char>>),
    Bytes(Seq<u8>),
}

/// A `PlistField` as plain values.
pub enum FieldModel {
    Leaf(LeafModel),
    Dict(Seq<(Seq<char>, LeafModel)>),
}

/// The plain values of a leaf.
pub open spec fn leaf_model(l: PlistLeaf) -> LeafModel {
    match l {
        PlistLeaf::Text(t) => LeafModel::Text(t@),
        PlistLeaf::Texts(ts) => LeafModel::Texts(ts@.map_values(|t: String| t@)),
        PlistLeaf::Bytes(b) => LeafModel::Bytes(b@),
    }
}

/// The plain values of a field.
pub open spec fn field_model(f: PlistField) -> FieldModel {
    match f {
        PlistField::Leaf(l) => FieldModel::Leaf(leaf_model(l)),
        PlistField::Dict(es) => FieldModel::Dict(es@.map_values(|e: (String, PlistLeaf)| (e.0@, leaf_model(e.1)))),
    }
}

/// The plain values of a dictionary's fields, in order.
pub open spec fn fields_model(fields: Seq<(String, PlistField)>) -> Seq<(Seq<char>, FieldModel)> {
    fields.map_values(|f: (String, PlistField)| (f.0@, field_model(f.1)))
}

/// The binary plist (`plist::Value::to_writer_binary`) of a dictionary
/// with these fields, in this order.
pub uninterp spec fn dict_plist(fields: Seq<(Seq<char>, FieldModel)>) -> Seq<u8>;

/// The binary plist of a dictionary of integers, in the given order.
pub uninterp spec fn integer_dict_plist(pairs: Seq<(Seq<char>, i64)>) -> Seq<u8>;


/// The binary plist of a boolean.
pub uninterp spec fn bool_plist(b: bool) -> Seq<u8>;

/// Reads a plist with `plist::Value::from_reader` and takes it as a
/// scalar. Trusted: the answer is the named reading of the bytes.
#[verifier::external_body]
fn parse_scalar(bytes: &[u8]) -> (r: Option<RawScalar>)
    ensures
        match r {
            Some(s) => parsed_scalar(bytes@) == Some(scalar_model(s)),
            None => parsed_scalar(bytes@) is None,
        },
{
    match plist::Value::from_reader(std::io::Cursor::new(bytes)) {
        Ok(plist::Value::Integer(i)) => Some(RawScalar::Integer { signed: i.as_signed(), unsigned: i.as_unsigned() }),
        Ok(plist::Value::String(s)) => Some(RawScalar::String(s)),
        Ok(_) => Some(RawScalar::Other),
        Err(_) => None,
    }
}

/// Reads an asset manifest with `plist::Value::from_reader` and picks the
/// `IsDownload` and `AssetID` fields of the entries of its `Book` array.
/// Trusted: the answer is the named reading of the bytes.
#[verifier::external_body]
fn parse_manifest(bytes: &[u8]) -> (r: Option<Option<Vec<ManifestEntry>>>)
    ensures
        manifest_book_entries(bytes@) == match r {
            Some(Some(es)) => Some(Some(es@.map_values(|e: ManifestEntry| entry_model(e)))),
            Some(None) => Some(None),
            None => None,
        },
{
    let value = plist::Value::from_reader(std::io::Cursor::new(bytes)).ok()?;
    let book = value.as_dictionary().and_then(|d| d.get("Book")).and_then(|v| v.as_array());
    Some(book.map(|entries| entries.iter().map(|entry| ManifestEntry {
        is_download: entry.as_dictionary().and_then(|d| d.get("IsDownload")).and_then(|b| b.as_boolean()),
        asset_id: entry.as_dictionary().and_then(|d| d.get("AssetID")).and_then(|s| s.as_string()).map(|s| s.to_string()),
    }).collect()))
}

/// Encodes a dictionary with `plist::Value::to_writer_binary`. Trusted:
/// the bytes are the named encoding of its fields; writing a plist value
/// into a `Vec` does not fail.
#[verifier::external_body]
fn encode_dict(fields: &Vec<(String, PlistField)>) -> (r: Vec<u8>)
    ensures
        r@ == dict_plist(fields_model(fields@)),
{
    let leaf = |l: &PlistLeaf| match l {
        Text(t) => Value::from(t.clone()),
        Texts(ts) => Value::Array(ts.iter().map(|t| t.clone().into()).collect()),
        Bytes(b) => Value::Data(b.clone()),
    };
    let mut bytes = Vec::new();
    let _ = Value::Dictionary(fields.iter().map(|(k, f)| (k.clone(), match f {
        Leaf(l) => leaf(l),
        Dict(es) => Value::Dictionary(es.iter().map(|(k, l)| (k.clone(), leaf(l))).collect()),
    })).collect()).to_writer_binary(&mut bytes);
    bytes
}

/// Encodes a dictionary of integers with `plist::Value::to_writer_binary`.
/// Trusted as `encode_host_info` is.
#[verifier::external_body]
fn encode_integer_dict(pairs: &Vec<(String, i64)>) -> (r: Vec<u8>)
    ensures
        r@ == integer_dict_plist(pairs@.map_values(|p: (String, i64)| (p.0@, p.1))),
{
    let d: plist::Dictionary = pairs.iter().map(|(k, v)| (k.clone(), plist::Value::from(*v))).collect();
    let mut bytes = Vec::new();
    let _ = plist::Value::Dictionary(d).to_writer_binary(&mut bytes);
    bytes
}

/// Encodes a boolean with `plist::Value::to_writer_binary`. Trusted as
/// `encode_host_info` is.
#[verifier::external_body]
fn encode_bool(b: bool) -> (r: Vec<u8>)
    ensures
        r@ == bool_plist(b),
{
    let mut bytes = Vec::new();
    let _ = plist::Value::Boolean(b).to_writer_binary(&mut bytes);
    bytes
}

/// The fields of a host description: `LibraryID`, `SyncHostName`,
/// `Version`, `SyncedDataclasses`.
pub open spec fn host_fields(classes: Seq<Seq<char>>) -> Seq<(Seq<char>, LeafModel)> {
    seq![
        ("LibraryID"@, LeafModel::Text(LIBRARY_ID@)),
        ("SyncHostName"@, LeafModel::Text("airlift"@)),
        ("Version"@, LeafModel::Text(HOST_VERSION@)),
        ("SyncedDataclasses"@, LeafModel::Texts(classes)),
    ]
}

/// The fields of the host description sent with `HostInfo`.
pub open spec fn host_info_fields() -> Seq<(Seq<char>, FieldModel)> {
    host_fields(seq!["Book"@]).map_values(|e: (Seq<char>, LeafModel)| (e.0, FieldModel::Leaf(e.1)))
}

/// The host description sent with `HostInfo`, as a binary plist.
pub fn host_info_bytes() -> (r: Vec<u8>)
    ensures
        r@ == dict_plist(host_info_fields()),
{
    let info = host_info();
    let mut fields: Vec<(String, PlistField)> = Vec::new();
    fields.push((string_of("LibraryID"), PlistField::Leaf(PlistLeaf::Text(info.library_id))));
    fields.push((string_of("SyncHostName"), PlistField::Leaf(PlistLeaf::Text(info.sync_host_name))));
    fields.push((string_of("Version"), PlistField::Leaf(PlistLeaf::Text(info.version))));
    fields.push((string_of("SyncedDataclasses"), PlistField::Leaf(PlistLeaf::Texts(info.synced_dataclasses))));
    assert(fields_model(fields@) =~= host_info_fields());
    encode_dict(&fields)
}

/// The fields of the `RequestingSync` parameters: `Dataclasses` (`Book`),
/// `DataclassAnchors` (`Book` at `0`), and `HostInfo`: the Grappa blob,
/// then the host description.
pub open spec fn sync_request_fields() -> Seq<(Seq<char>, FieldModel)> {
    seq![
        ("Dataclasses"@, FieldModel::Leaf(LeafModel::Texts(seq!["Book"@]))),
        ("DataclassAnchors"@, FieldModel::Dict(seq![("Book"@, LeafModel::Text("0"@))])),
        ("HostInfo"@, FieldModel::Dict(seq![("Grappa"@, LeafModel::Bytes(HOST_GRAPPA@))] + host_fields(seq!["Book"@]))),
    ]
}

/// The parameters of `RequestingSync`, as a binary plist.
pub fn sync_request_bytes() -> (r: Vec<u8>)
    ensures
        r@ == dict_plist(sync_request_fields()),
{
    let req = sync_request();
    let info = req.host_info;
    let mut hi: Vec<(String, PlistLeaf)> = Vec::new();
    hi.push((string_of("Grappa"), PlistLeaf::Bytes(req.grappa)));
    hi.push((string_of("LibraryID"), PlistLeaf::Text(info.library_id)));
    hi.push((string_of("SyncHostName"), PlistLeaf::Text(info.sync_host_name)));
    hi.push((string_of("Version"), PlistLeaf::Text(info.version)));
    hi.push((string_of("SyncedDataclasses"), PlistLeaf::Texts(info.synced_dataclasses)));
    let mut anchors: Vec<(String, PlistLeaf)> = Vec::new();
    anchors.push((string_of("Book"), PlistLeaf::Text(string_of("0"))));
    let mut fields: Vec<(String, PlistField)> = Vec::new();
    fields.push((string_of("Dataclasses"), PlistField::Leaf(PlistLeaf::Texts(req.dataclasses))));
    fields.push((string_of("DataclassAnchors"), PlistField::Dict(anchors)));
    fields.push((string_of("HostInfo"), PlistField::Dict(hi)));
    proof {
        let f = fields_model(fields@);
        assert(field_model(fields@[1].1) == FieldModel::Dict(seq![("Book"@, LeafModel::Text("0"@))])) by {
            assert(anchors@.map_values(|e: (String, PlistLeaf)| (e.0@, leaf_model(e.1))) =~= seq![("Book"@, LeafModel::Text("0"@))]);
        }
        assert(hi@.map_values(|e: (String, PlistLeaf)| (e.0@, leaf_model(e.1))) =~= seq![("Grappa"@, LeafModel::Bytes(HOST_GRAPPA@))] + host_fields(seq!["Book"@]));
        assert(f =~= sync_request_fields());
    }
    encode_dict(&fields)
}

/// The parameters of the metadata sync, as binary plists: the power
/// assertion `true`, the synced types (`Book` at 1) and the anchors
/// (`Book` at `0`).
pub fn metadata_sync_bytes() -> (r: (Vec<u8>, Vec<u8>, Vec<u8>))
    ensures
        r.0@ == bool_plist(true),
        r.1@ == integer_dict_plist(seq![("Book"@, 1i64)]),
        r.2@ == dict_plist(seq![("Book"@, FieldModel::Leaf(LeafModel::Text("0"@)))]),
{
    let mut types: Vec<(String, i64)> = Vec::new();
    types.push((string_of("Book"), 1));
    let mut anchors: Vec<(String, PlistField)> = Vec::new();
    anchors.push((string_of("Book"), PlistField::Leaf(PlistLeaf::Text(string_of("0")))));
    assert(types@.map_values(|p: (String, i64)| (p.0@, p.1)) =~= seq![("Book"@, 1i64)]);
    assert(fields_model(anchors@) =~= seq![("Book"@, FieldModel::Leaf(LeafModel::Text("0"@)))]);
    (encode_bool(true), encode_integer_dict(&types), encode_dict(&anchors))
}

/// The error code a report shows for a scalar read from a plist: an
/// integer in decimal (as `i64` where it fits, else as `u64`), a string
/// that is numeric once trimmed, and nothing else.
pub open spec fn error_code_of(m: ScalarModel) -> Option<Seq<char>> {
    match m {
        ScalarModel::Integer(Some(v), _) => Some(signed_decimal(v as int)),
        ScalarModel::Integer(None, Some(u)) => Some(decimal(u as nat)),
        ScalarModel::Integer(None, None) => None,
        ScalarModel::String(t) => if is_numeric_text(trimmed(t)) {
            Some(trimmed(t))
        } else {
            None
        },
        ScalarModel::Other => None,
    }
}

/// The numeric error code in an `ErrorCode` parameter's plist bytes;
/// `None` when they do not parse or hold nothing numeric.
pub fn error_code_from_plist(bytes: &[u8]) -> (r: Option<String>)
    ensures
        match (r, parsed_scalar(bytes@)) {
            (Some(c), Some(m)) => error_code_of(m) == Some(c@),
            (None, Some(m)) => error_code_of(m) is None,
            (None, None) => true,
            (Some(_), None) => false,
        },
{
    let raw = match parse_scalar(bytes) {
        Some(raw) => raw,
        None => return None,
    };
    let scalar = match raw {
        RawScalar::Integer { signed: Some(v), .. } => PlistScalar::Integer(v as i128),
        RawScalar::Integer { signed: None, unsigned: Some(u) } => PlistScalar::Integer(u as i128),
        RawScalar::Integer { signed: None, unsigned: None } => PlistScalar::Other,
        RawScalar::String(t) => PlistScalar::String(t),
        RawScalar::Other => PlistScalar::Other,
    };
    numeric_error_code(&scalar)
}

/// Why the asset manifest cannot be checked.
#[derive(Clone, Copy, PartialEq, Eq, Structural, Debug)]
pub enum ManifestError {
    /// No manifest arrived, or its bytes are not a plist.
    NotReceived,
    /// The manifest has no `Book` list.
    NoBookList,
}

/// The text of a manifest refusal.
pub open spec fn manifest_error_text(e: ManifestError) -> Seq<char> {
    match e {
        ManifestError::NotReceived => "AirTraffic: AssetManifest was not received or failed to parse"@,
        ManifestError::NoBookList => "AssetManifest does not contain Book list"@,
    }
}

impl ManifestError {
    /// The message reported for this refusal.
    pub fn message(&self) -> (r: String)
        ensures
            r@ == manifest_error_text(*self),
    {
        match self {
            ManifestError::NotReceived => string_of("AirTraffic: AssetManifest was not received or failed to parse"),
            ManifestError::NoBookList => string_of("AssetManifest does not contain Book list"),
        }
    }
}

/// The identifiers offered for download by entries given as plain values.
pub open spec fn model_downloads(entries: Seq<(Option<bool>, Option<Seq<char>>)>) -> Seq<Seq<char>>
    decreases entries.len(),
{
    if entries.len() == 0 {
        seq![]
    } else {
        let prev = model_downloads(entries.drop_last());
        let e = entries.last();
        if e.0 == Some(true) && e.1 is Some {
            prev.push(e.1.unwrap())
        } else {
            prev
        }
    }
}

proof fn lemma_downloads_of_model(entries: Seq<ManifestEntry>)
    ensures
        downloads_spec(entries) == model_downloads(entries.map_values(|e: ManifestEntry| entry_model(e))),
    decreases entries.len(),
{
    let m = entries.map_values(|e: ManifestEntry| entry_model(e));
    if entries.len() > 0 {
        lemma_downloads_of_model(entries.drop_last());
        assert(m.drop_last() =~= entries.drop_last().map_values(|e: ManifestEntry| entry_model(e)));
        assert(m.last() == entry_model(entries.last()));
    }
}

/// The asset identifiers a manifest offers for download, from the
/// manifest's bytes (`None` when none arrived): refused when there is no
/// manifest or it does not parse, and when it has no `Book` list.
pub fn manifest_downloads(bytes: Option<&[u8]>) -> (r: Result<Vec<String>, ManifestError>)
    ensures
        match bytes {
            None => r == Err::<Vec<String>, ManifestError>(ManifestError::NotReceived),
            Some(b) => match manifest_book_entries(b@) {
                None => r == Err::<Vec<String>, ManifestError>(ManifestError::NotReceived),
                Some(None) => r == Err::<Vec<String>, ManifestError>(ManifestError::NoBookList),
                Some(Some(es)) => r matches Ok(v) && v@.map_values(|s: String| s@) == model_downloads(es),
            },
        },
{
    let b = match bytes {
        Some(b) => b,
        None => return Err(ManifestError::NotReceived),
    };
    match parse_manifest(b) {
        None => Err(ManifestError::NotReceived),
        Some(None) => Err(ManifestError::NoBookList),
        Some(Some(entries)) => {
            proof {
                lemma_downloads_of_model(entries@);
            }
            Ok(available_downloads(&entries))
        },
    }
}

/// The error code shown for an `ErrorCode` parameter's plist bytes, if any.
pub open spec fn shown_code(bytes: Option<Seq<u8>>) -> Option<Seq<char>> {
    match bytes {
        Some(b) => match parsed_scalar(b) {
            Some(m) => error_code_of(m),
            None => None,
        },
        None => None,
    }
}

/// The report of a terminating message `name` received instead of
/// `ReadyForSync`, from its `ErrorCode` parameter's plist bytes (`None`
/// when it has none): only the name and a numeric code are ever shown.
pub fn ready_failure_text(name: &str, code_bytes: Option<&[u8]>) -> (r: String)
    ensures
        r@ == "AirTraffic returned "@ + name@ + " instead of ReadyForSync. "@ + match shown_code(
            match code_bytes {
                Some(b) => Some(b@),
                None => None,
            },
        ) {
            Some(c) => "ErrorCode="@ + c,
            None => "ErrorCode unavailable"@,
        },
{
    let code = match code_bytes {
        Some(b) => error_code_from_plist(b),
        None => None,
    };
    let mut m = string_of("AirTraffic returned ");
    crate::text::push_str(&mut m, name);
    crate::text::push_str(&mut m, " instead of ReadyForSync. ");
    match code {
        Some(c) => {
            crate::text::push_str(&mut m, "ErrorCode=");
            crate::text::push_str(&mut m, c.as_str());
        },
        None => crate::text::push_str(&mut m, "ErrorCode unavailable"),
    }
    m
}

} // verus!
