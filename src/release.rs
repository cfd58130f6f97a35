use vstd::prelude::*;
use crate::update::{opt_view, AssetEntry, ReleaseInfo, UpdateError};

verus! {

#[verifier::external_type_specification]
#[verifier::external_body]
pub struct ExValue(serde_json::Value);

/// The JSON document that serde_json reads from `body`, if it is one.
pub uninterp spec fn json_of(body: Seq<u8>) -> Option<serde_json::Value>;

/// The member named `key` of a JSON value, as serde_json's `Value::get` finds it.
pub uninterp spec fn member_of(v: serde_json::Value, key: Seq<char>) -> Option<serde_json::Value>;

/// The text of a JSON string value.
pub uninterp spec fn text_of(v: serde_json::Value) -> Option<Seq<char>>;

/// The elements of a JSON array value.
pub uninterp spec fn elements_of(v: serde_json::Value) -> Option<Seq<serde_json::Value>>;

/// Relies on `serde_json::from_slice` into a `Value`: the document, or the
/// parser's error message; a function of the bytes alone.
#[verifier::external_body]
fn parse_json(body: &[u8]) -> (r: Result<serde_json::Value, String>)
    ensures
        match r {
            Ok(v) => json_of(body@) == Some(v),
            Err(_) => json_of(body@) is None,
        },
{
    match serde_json::from_slice::<serde_json::Value>(body) {
        Ok(v) => Ok(v),
        Err(e) => Err(e.to_string()),
    }
}

/// Relies on `Value::get` with a string key: the member of an object.
#[verifier::external_body]
fn json_member<'a>(v: &'a serde_json::Value, key: &str) -> (r: Option<&'a serde_json::Value>)
    ensures
        match r {
            Some(m) => member_of(*v, key@) == Some(*m),
            None => member_of(*v, key@) is None,
        },
{
    v.get(key)
}

/// Relies on `Value::as_str`: the text of a string value.
#[verifier::external_body]
fn json_text(v: &serde_json::Value) -> (r: Option<String>)
    ensures
        opt_view(r) == text_of(*v),
{
    match v.as_str() {
        Some(s) => Some(s.to_string()),
        None => None,
    }
}

/// Relies on `Value::as_array`: the elements of an array value.
#[verifier::external_body]
fn json_elements(v: &serde_json::Value) -> (r: Option<&Vec<serde_json::Value>>)
    ensures
        match r {
            Some(a) => elements_of(*v) == Some(a@),
            None => elements_of(*v) is None,
        },
{
    v.as_array()
}

/// The text of the string member `key` of `v`.
pub open spec fn member_text(v: serde_json::Value, key: Seq<char>) -> Option<Seq<char>> {
    match member_of(v, key) {
        Some(m) => text_of(m),
        None => None,
    }
}

/// An asset as its name and download URL.
pub open spec fn asset_of(item: serde_json::Value) -> (Option<Seq<char>>, Option<Seq<char>>) {
    (member_text(item, "name"@), member_text(item, "browser_download_url"@))
}

/// The assets of a release document, when its `assets` member is an array.
pub open spec fn assets_of(doc: serde_json::Value) -> Option<Seq<(Option<Seq<char>>, Option<Seq<char>>)>> {
    match member_of(doc, "assets"@) {
        Some(a) => match elements_of(a) {
            Some(items) => Some(items.map_values(|it: serde_json::Value| asset_of(it))),
            None => None,
        },
        None => None,
    }
}

pub open spec fn entry_view(a: AssetEntry) -> (Option<Seq<char>>, Option<Seq<char>>) {
    (opt_view(a.name), opt_view(a.url))
}

pub open spec fn entries_view(assets: Option<Vec<AssetEntry>>) -> Option<Seq<(Option<Seq<char>>, Option<Seq<char>>)>> {
    match assets {
        Some(v) => Some(v@.map_values(|a: AssetEntry| entry_view(a))),
        None => None,
    }
}

fn member_text_of(v: &serde_json::Value, key: &str) -> (r: Option<String>)
    ensures
        opt_view(r) == member_text(*v, key@),
{
    match json_member(v, key) {
        Some(m) => json_text(m),
        None => None,
    }
}

/// Reads the release metadata document: its publish timestamp and its
/// assets' names and download URLs. A body that is not JSON, or that has no
/// publish timestamp, is an error.
pub fn parse_release(body: &[u8]) -> (r: Result<ReleaseInfo, UpdateError>)
    ensures
        (r matches Err(UpdateError::BadMetadata(_))) == (json_of(body@) is None),
        (r matches Err(UpdateError::MissingPublishedAt)) == (json_of(body@) matches Some(d)
            && member_of(d, "published_at"@) is None),
        r is Ok || r matches Err(UpdateError::BadMetadata(_)) || r matches Err(UpdateError::MissingPublishedAt),
        r matches Ok(info) ==> json_of(body@) is Some
            && opt_view(info.published_at) == member_text(json_of(body@)->0, "published_at"@)
            && entries_view(info.assets) == assets_of(json_of(body@)->0),
{
    let doc = match parse_json(body) {
        Ok(d) => d,
        Err(msg) => return Err(UpdateError::BadMetadata(msg)),
    };
    let published_at = match json_member(&doc, "published_at") {
        Some(p) => json_text(p),
        None => return Err(UpdateError::MissingPublishedAt),
    };
    let list = match json_member(&doc, "assets") {
        Some(a) => json_elements(a),
        None => None,
    };
    let assets = match list {
        Some(items) => {
            let mut out: Vec<AssetEntry> = Vec::new();
            let mut i: usize = 0;
            while i < items.len()
                invariant
                    i <= items.len(),
                    out@.len() == i,
                    forall|k: int| 0 <= k < i ==> entry_view(#[trigger] out@[k]) == asset_of(items@[k]),
                decreases items.len() - i,
            {
                let item = &items[i];
                let entry = AssetEntry {
                    name: member_text_of(item, "name"),
                    url: member_text_of(item, "browser_download_url"),
                };
                assert(entry_view(entry) == asset_of(items@[i as int]));
                let ghost before = out@;
                out.push(entry);
                assert(out@ == before.push(entry));
                i = i + 1;
            }
            assert(out@.map_values(|a: AssetEntry| entry_view(a))
                =~= items@.map_values(|it: serde_json::Value| asset_of(it)));
            Some(out)
        },
        None => None,
    };
    Ok(ReleaseInfo { published_at, assets })
}

} // verus!
