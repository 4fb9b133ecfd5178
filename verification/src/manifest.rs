//! Reading Mojang's version manifest and a version's JSON.
//!
//! The manifest is an object whose `versions` member lists one object per
//! version, with string members `id`, `type`, `releaseTime` and `url`. A
//! version JSON names its client JAR at `downloads.client.url`.

use vstd::prelude::*;
use crate::json::{Json, json_array, json_get, json_get_str, json_str, json_text_parse, parse_json_text};
use crate::models::{MinecraftVersion, VersionRecord};
use crate::text::{concat_str, text_equal};

verus! {

/// Where Mojang publishes the version manifest.
pub const VERSION_MANIFEST_URL: &'static str = "https://piston-meta.mojang.com/mc/game/version_manifest_v2.json";

/// The record of one manifest entry, when `id`, `type` and `releaseTime`
/// are all strings.
pub open spec fn version_entry(v: Json) -> Option<VersionRecord> {
    match (json_get_str(v, "id"@), json_get_str(v, "type"@), json_get_str(v, "releaseTime"@)) {
        (Some(id), Some(t), Some(rt)) => Some(VersionRecord { id: id, version_type: t, release_time: rt }),
        _ => None,
    }
}

/// The records of all well-formed entries, in manifest order.
pub open spec fn manifest_versions(items: Seq<Json>) -> Seq<VersionRecord> {
    items.filter_map(|v: Json| version_entry(v))
}

/// Message when the manifest has no `versions` member.
pub open spec fn missing_versions_message() -> Seq<char> {
    "Missing 'versions' in manifest"@
}

/// Message when `versions` is not an array.
pub open spec fn versions_not_array_message() -> Seq<char> {
    "'versions' is not an array"@
}

/// The views of a list of versions.
pub open spec fn version_records(vs: Seq<MinecraftVersion>) -> Seq<VersionRecord> {
    vs.map_values(|m: MinecraftVersion| m@)
}

/// The record built from one manifest entry.
fn read_version_entry(v: &Json) -> (r: Option<MinecraftVersion>)
    ensures
        match r {
            Some(m) => version_entry(*v) == Some(m@),
            None => version_entry(*v).is_none(),
        },
{
    let id = match v.get_str("id") {
        Some(s) => s,
        None => return None,
    };
    let version_type = match v.get_str("type") {
        Some(s) => s,
        None => return None,
    };
    let release_time = match v.get_str("releaseTime") {
        Some(s) => s,
        None => return None,
    };
    let m = MinecraftVersion {
        id: id.clone(),
        version_type: version_type.clone(),
        release_time: release_time.clone(),
    };
    assert(version_entry(*v) =~= Some(m@));
    Some(m)
}

/// The versions listed in a manifest.
///
/// Fails with "Missing 'versions' in manifest" when there is no `versions`
/// member and with "'versions' is not an array" when it is not an array;
/// otherwise lists, in order, every entry whose `id`, `type` and
/// `releaseTime` are strings, skipping the others.
pub fn parse_version_manifest(manifest: &Json) -> (r: Result<Vec<MinecraftVersion>, String>)
    ensures
        match json_get(*manifest, "versions"@) {
            None => r is Err && r->Err_0@ == missing_versions_message(),
            Some(v) => match json_array(v) {
                None => r is Err && r->Err_0@ == versions_not_array_message(),
                Some(items) => r is Ok && version_records(r->Ok_0@) == manifest_versions(items),
            },
        },
{
    let versions = match manifest.get("versions") {
        Some(v) => v,
        None => return Err(String::from_str("Missing 'versions' in manifest")),
    };
    let items = match versions.as_array() {
        Some(items) => items,
        None => return Err(String::from_str("'versions' is not an array")),
    };
    let ghost f = |v: Json| version_entry(v);
    let mut out: Vec<MinecraftVersion> = Vec::new();
    let mut i: usize = 0;
    while i < items.len()
        invariant
            i <= items.len(),
            f == (|v: Json| version_entry(v)),
            version_records(out@) == items@.take(i as int).filter_map(f),
        decreases items.len() - i,
    {
        proof {
            items@.lemma_filter_map_take_succ(f, i as int);
        }
        let ghost before = out@;
        match read_version_entry(&items[i]) {
            Some(m) => {
                out.push(m);
                assert(version_records(out@) =~= version_records(before).push(m@));
            },
            None => {},
        }
        assert(version_records(out@) =~= items@.take(i + 1).filter_map(f));
        i = i + 1;
    }
    assert(items@.take(items.len() as int) =~= items@);
    Ok(out)
}

/// The first entry whose `id` is the string `id`.
pub open spec fn first_with_id(items: Seq<Json>, id: Seq<char>) -> Option<Json>
    decreases items.len(),
{
    if items.len() == 0 {
        None
    } else if json_get_str(items[0], "id"@) == Some(id) {
        Some(items[0])
    } else {
        first_with_id(items.drop_first(), id)
    }
}

/// Why the download URL of a version could not be read from the manifest.
pub enum VersionUrlError {
    /// `versions` is missing or not an array.
    InvalidManifest,
    /// No entry has the requested `id`.
    VersionNotFound,
    /// The entry has no `url`.
    MissingUrl,
    /// The entry's `url` is not a string.
    InvalidUrl,
}

/// The download URL of version `id`, or why there is none.
pub open spec fn version_url(manifest: Json, id: Seq<char>) -> Result<Seq<char>, VersionUrlError> {
    match json_get(manifest, "versions"@) {
        Some(v) if json_array(v).is_some() => match first_with_id(json_array(v).unwrap(), id) {
            None => Err(VersionUrlError::VersionNotFound),
            Some(entry) => match json_get(entry, "url"@) {
                None => Err(VersionUrlError::MissingUrl),
                Some(u) => match json_str(u) {
                    None => Err(VersionUrlError::InvalidUrl),
                    Some(s) => Ok(s),
                },
            },
        },
        _ => Err(VersionUrlError::InvalidManifest),
    }
}

/// Finds the download URL of version `version_id` in the manifest: the `url`
/// of the first entry whose `id` is `version_id`.
pub fn locate_version_url(manifest: &Json, version_id: &str) -> (r: Result<String, VersionUrlError>)
    ensures
        match r {
            Ok(s) => version_url(*manifest, version_id@) == Ok::<Seq<char>, VersionUrlError>(s@),
            Err(e) => version_url(*manifest, version_id@) == Err::<Seq<char>, VersionUrlError>(e),
        },
{
    let items = match manifest.get("versions") {
        Some(v) => match v.as_array() {
            Some(items) => items,
            None => return Err(VersionUrlError::InvalidManifest),
        },
        None => return Err(VersionUrlError::InvalidManifest),
    };
    let mut i: usize = 0;
    assert(items@.skip(0) =~= items@);
    while i < items.len()
        invariant
            i <= items.len(),
            first_with_id(items@, version_id@) == first_with_id(items@.skip(i as int), version_id@),
            json_get(*manifest, "versions"@).is_some(),
            json_array(json_get(*manifest, "versions"@).unwrap()) == Some(items@),
        decreases items.len() - i,
    {
        assert(items@.skip(i as int).drop_first() =~= items@.skip(i + 1));
        assert(items@.skip(i as int)[0] == items@[i as int]);
        let matches = match items[i].get_str("id") {
            Some(s) => text_equal(s.as_str(), version_id),
            None => false,
        };
        if matches {
            let entry = &items[i];
            return match entry.get("url") {
                None => Err(VersionUrlError::MissingUrl),
                Some(u) => match u.as_str() {
                    None => Err(VersionUrlError::InvalidUrl),
                    Some(s) => Ok(s.clone()),
                },
            };
        }
        i = i + 1;
    }
    Err(VersionUrlError::VersionNotFound)
}

/// "Version <id> not found in manifest".
pub open spec fn version_not_found_text(id: Seq<char>) -> Seq<char> {
    "Version "@ + id + " not found in manifest"@
}

/// The message for a version absent from the manifest.
pub fn version_not_found_message(version_id: &str) -> (r: String)
    ensures
        r@ == version_not_found_text(version_id@),
{
    let mut r = concat_str("Version ", version_id);
    r.append(" not found in manifest");
    r
}

/// The text reported for each [`VersionUrlError`].
pub open spec fn version_url_error_text(e: VersionUrlError, id: Seq<char>) -> Seq<char> {
    match e {
        VersionUrlError::InvalidManifest => "Invalid manifest format"@,
        VersionUrlError::VersionNotFound => version_not_found_text(id),
        VersionUrlError::MissingUrl => "Missing version URL"@,
        VersionUrlError::InvalidUrl => "Invalid version URL"@,
    }
}

impl VersionUrlError {
    /// The message reported for this error when looking up `version_id`.
    pub fn message(&self, version_id: &str) -> (r: String)
        ensures
            r@ == version_url_error_text(*self, version_id@),
    {
        match self {
            VersionUrlError::InvalidManifest => String::from_str("Invalid manifest format"),
            VersionUrlError::VersionNotFound => version_not_found_message(version_id),
            VersionUrlError::MissingUrl => String::from_str("Missing version URL"),
            VersionUrlError::InvalidUrl => String::from_str("Invalid version URL"),
        }
    }
}

/// Why the client JAR URL could not be read from a version JSON.
pub enum ClientJarUrlError {
    /// No `downloads` member.
    MissingDownloads,
    /// No `downloads.client` member.
    MissingClient,
    /// No `downloads.client.url` member.
    MissingUrl,
    /// `downloads.client.url` is not a string.
    InvalidUrl,
}

/// The client JAR URL of a version JSON, or why there is none.
pub open spec fn client_jar_url_of(v: Json) -> Result<Seq<char>, ClientJarUrlError> {
    match json_get(v, "downloads"@) {
        None => Err(ClientJarUrlError::MissingDownloads),
        Some(d) => match json_get(d, "client"@) {
            None => Err(ClientJarUrlError::MissingClient),
            Some(c) => match json_get(c, "url"@) {
                None => Err(ClientJarUrlError::MissingUrl),
                Some(u) => match json_str(u) {
                    None => Err(ClientJarUrlError::InvalidUrl),
                    Some(s) => Ok(s),
                },
            },
        },
    }
}

/// Reads `downloads.client.url` from a version JSON.
pub fn client_jar_url(version_json: &Json) -> (r: Result<String, ClientJarUrlError>)
    ensures
        match r {
            Ok(s) => client_jar_url_of(*version_json) == Ok::<Seq<char>, ClientJarUrlError>(s@),
            Err(e) => client_jar_url_of(*version_json) == Err::<Seq<char>, ClientJarUrlError>(e),
        },
{
    let downloads = match version_json.get("downloads") {
        Some(d) => d,
        None => return Err(ClientJarUrlError::MissingDownloads),
    };
    let client = match downloads.get("client") {
        Some(c) => c,
        None => return Err(ClientJarUrlError::MissingClient),
    };
    let url = match client.get("url") {
        Some(u) => u,
        None => return Err(ClientJarUrlError::MissingUrl),
    };
    match url.as_str() {
        Some(s) => Ok(s.clone()),
        None => Err(ClientJarUrlError::InvalidUrl),
    }
}

/// The text reported for each [`ClientJarUrlError`].
pub open spec fn client_jar_url_error_text(e: ClientJarUrlError) -> Seq<char> {
    match e {
        ClientJarUrlError::MissingDownloads => "Missing downloads in version JSON"@,
        ClientJarUrlError::MissingClient => "Missing client download info"@,
        ClientJarUrlError::MissingUrl => "Missing client JAR URL"@,
        ClientJarUrlError::InvalidUrl => "Invalid client JAR URL"@,
    }
}

impl ClientJarUrlError {
    /// The message reported for this error.
    pub fn message(&self) -> (r: String)
        ensures
            r@ == client_jar_url_error_text(*self),
    {
        match self {
            ClientJarUrlError::MissingDownloads => String::from_str("Missing downloads in version JSON"),
            ClientJarUrlError::MissingClient => String::from_str("Missing client download info"),
            ClientJarUrlError::MissingUrl => String::from_str("Missing client JAR URL"),
            ClientJarUrlError::InvalidUrl => String::from_str("Invalid client JAR URL"),
        }
    }
}

/// The client JAR URL named in the text of a version JSON: the parser's
/// message when the text does not parse, the lookup's message when the URL
/// is missing.
pub open spec fn client_jar_url_in_text(content: Seq<char>) -> Result<Seq<char>, Seq<char>> {
    match json_text_parse(content) {
        Err(e) => Err(e),
        Ok(j) => match client_jar_url_of(j) {
            Ok(u) => Ok(u),
            Err(k) => Err(client_jar_url_error_text(k)),
        },
    }
}

/// Reads the client JAR URL from the text of a version JSON already on
/// disk.
pub fn client_jar_url_from_text(content: &str) -> (r: Result<String, String>)
    ensures
        match r {
            Ok(u) => client_jar_url_in_text(content@) == Ok::<Seq<char>, Seq<char>>(u@),
            Err(e) => client_jar_url_in_text(content@) == Err::<Seq<char>, Seq<char>>(e@),
        },
{
    match parse_json_text(content) {
        Err(e) => Err(e),
        Ok(j) => match client_jar_url(&j) {
            Ok(u) => Ok(u),
            Err(k) => Err(k.message()),
        },
    }
}

/// The single message the C interface reports for any [`ClientJarUrlError`].
pub open spec fn missing_jar_url_text() -> Seq<char> {
    "Missing client JAR URL in version JSON"@
}

/// "Missing client JAR URL in version JSON".
pub fn missing_jar_url_message() -> (r: String)
    ensures
        r@ == missing_jar_url_text(),
{
    String::from_str("Missing client JAR URL in version JSON")
}

proof fn lemma_filter_map_add(a: Seq<Json>, b: Seq<Json>)
    ensures
        manifest_versions(a + b) == manifest_versions(a) + manifest_versions(b),
    decreases b.len(),
{
    let f = |v: Json| version_entry(v);
    if b.len() == 0 {
        assert(a + b =~= a);
        assert(manifest_versions(a) + manifest_versions(b) =~= manifest_versions(a));
    } else {
        lemma_filter_map_add(a, b.drop_last());
        assert((a + b).drop_last() =~= a + b.drop_last());
        assert((a + b).last() == b.last());
        match f(b.last()) {
            Some(x) => {
                assert(manifest_versions(a) + manifest_versions(b) =~= manifest_versions(a)
                    + manifest_versions(b.drop_last()) + seq![x]);
            },
            None => {},
        }
    }
}

/// The versions listed for a manifest are exactly its complete entries, in
/// manifest order, whatever their type: listing two runs of entries one
/// after the other gives the two listings one after the other, no entries
/// list nothing, and a single entry lists its `id`, `type` and
/// `releaseTime` when all three are strings, and nothing otherwise.
pub proof fn law_manifest_lists_complete_entries(a: Seq<Json>, b: Seq<Json>, v: Json)
    ensures
        manifest_versions(a + b) == manifest_versions(a) + manifest_versions(b),
        manifest_versions(Seq::empty()) == Seq::<VersionRecord>::empty(),
        manifest_versions(seq![v]) == match (
            json_get_str(v, "id"@),
            json_get_str(v, "type"@),
            json_get_str(v, "releaseTime"@),
        ) {
            (Some(id), Some(t), Some(rt)) => seq![VersionRecord { id: id, version_type: t, release_time: rt }],
            _ => Seq::<VersionRecord>::empty(),
        },
{
    lemma_filter_map_add(a, b);
    let one = seq![v];
    assert(one.drop_last() =~= Seq::<Json>::empty());
    assert(one.last() == v);
}

proof fn lemma_first_with_id(items: Seq<Json>, id: Seq<char>)
    ensures
        (forall|k: int| 0 <= k < items.len() ==> json_get_str(#[trigger] items[k], "id"@) != Some(id))
            ==> first_with_id(items, id).is_none(),
        forall|k: int|
            0 <= k < items.len() && json_get_str(#[trigger] items[k], "id"@) == Some(id) && (forall|j: int|
                0 <= j < k ==> json_get_str(items[j], "id"@) != Some(id)) ==> first_with_id(items, id) == Some(
                items[k],
            ),
    decreases items.len(),
{
    if items.len() > 0 {
        let rest = items.drop_first();
        lemma_first_with_id(rest, id);
        assert forall|k: int| 0 <= k < rest.len() implies rest[k] == items[k + 1] by {}
        if json_get_str(items[0], "id"@) != Some(id) {
            assert forall|k: int|
                0 <= k < items.len() && json_get_str(#[trigger] items[k], "id"@) == Some(id) && (forall|j: int|
                    0 <= j < k ==> json_get_str(items[j], "id"@) != Some(id)) implies first_with_id(items, id)
                == Some(items[k]) by {
                assert(k > 0);
                assert(rest[k - 1] == items[k]);
                assert forall|j: int| 0 <= j < k - 1 implies json_get_str(rest[j], "id"@) != Some(id) by {
                    assert(rest[j] == items[j + 1]);
                }
            }
            if forall|k: int| 0 <= k < items.len() ==> json_get_str(#[trigger] items[k], "id"@) != Some(id) {
                assert forall|k: int| 0 <= k < rest.len() implies json_get_str(#[trigger] rest[k], "id"@) != Some(id) by {
                    assert(rest[k] == items[k + 1]);
                }
            }
        }
    }
}

/// The download URL found for version `id` is the `url` of the first
/// manifest entry whose `id` is exactly `id`: a missing or non-array
/// `versions` gives `InvalidManifest`; no entry with that exact `id` gives
/// `VersionNotFound`; otherwise the first such entry decides, giving its
/// `url` text, `MissingUrl` when it has none, or `InvalidUrl` when it is
/// not a string.
pub proof fn law_version_url_first_exact_match(m: Json, id: Seq<char>)
    ensures
        match json_get(m, "versions"@) {
            Some(vs) if json_array(vs).is_some() => {
                let items = json_array(vs).unwrap();
                &&& (forall|k: int| 0 <= k < items.len() ==> json_get_str(#[trigger] items[k], "id"@) != Some(id))
                    ==> version_url(m, id) == Err::<Seq<char>, VersionUrlError>(VersionUrlError::VersionNotFound)
                &&& forall|k: int|
                    0 <= k < items.len() && json_get_str(#[trigger] items[k], "id"@) == Some(id) && (forall|j: int|
                        0 <= j < k ==> json_get_str(items[j], "id"@) != Some(id)) ==> version_url(m, id) == match json_get(
                        items[k],
                        "url"@,
                    ) {
                        None => Err(VersionUrlError::MissingUrl),
                        Some(u) => match json_str(u) {
                            None => Err(VersionUrlError::InvalidUrl),
                            Some(t) => Ok(t),
                        },
                    }
            },
            _ => version_url(m, id) == Err::<Seq<char>, VersionUrlError>(VersionUrlError::InvalidManifest),
        },
{
    match json_get(m, "versions"@) {
        Some(vs) => {
            if json_array(vs).is_some() {
                lemma_first_with_id(json_array(vs).unwrap(), id);
            }
        },
        None => {},
    }
}

/// The client JAR URL is the text found at `downloads.client.url`: the
/// result is that text exactly when the three members exist and the last is
/// a string, and otherwise the error names the first link that is missing
/// (or the URL that is not a string).
pub proof fn law_client_jar_url_path(v: Json)
    ensures
        ({
            let d = json_get(v, "downloads"@);
            let c = json_get(d.unwrap(), "client"@);
            let x = json_get(c.unwrap(), "url"@);
            &&& d.is_none() ==> client_jar_url_of(v) == Err::<Seq<char>, ClientJarUrlError>(
                ClientJarUrlError::MissingDownloads,
            )
            &&& d.is_some() && c.is_none() ==> client_jar_url_of(v) == Err::<Seq<char>, ClientJarUrlError>(
                ClientJarUrlError::MissingClient,
            )
            &&& d.is_some() && c.is_some() && x.is_none() ==> client_jar_url_of(v) == Err::<
                Seq<char>,
                ClientJarUrlError,
            >(ClientJarUrlError::MissingUrl)
            &&& d.is_some() && c.is_some() && x.is_some() && json_str(x.unwrap()).is_none() ==> client_jar_url_of(v)
                == Err::<Seq<char>, ClientJarUrlError>(ClientJarUrlError::InvalidUrl)
            &&& d.is_some() && c.is_some() && x.is_some() && json_str(x.unwrap()).is_some() ==> client_jar_url_of(v)
                == Ok::<Seq<char>, ClientJarUrlError>(json_str(x.unwrap()).unwrap())
            &&& client_jar_url_of(v) is Ok ==> d.is_some() && c.is_some() && x.is_some() && json_str(x.unwrap())
                == Some(client_jar_url_of(v)->Ok_0)
        }),
{
}

} // verus!
