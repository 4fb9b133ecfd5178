//! The on-disk layout of a game directory:
//! `<game>/versions/<id>/<id>.jar` and `<game>/versions/<id>/<id>.json`.
//! Paths are joined as `std::path::Path::join` does on Unix: an absolute
//! component replaces what came before, and a `/` separator is inserted
//! unless the base is empty or already ends with one. The same text is
//! produced on every platform; Windows accepts `/` as a separator, though
//! its own `Path::join` would insert `\`.

use vstd::prelude::*;
use crate::text::concat_str;

verus! {

/// `base` joined with `part`.
pub open spec fn path_join(base: Seq<char>, part: Seq<char>) -> Seq<char> {
    if part.len() > 0 && part[0] == '/' {
        part
    } else if base.len() == 0 {
        part
    } else if base.last() == '/' {
        base + part
    } else {
        base + seq!['/'] + part
    }
}

/// `<game>/versions`.
pub open spec fn versions_dir_path(game: Seq<char>) -> Seq<char> {
    path_join(game, "versions"@)
}

/// `<game>/versions/<id>`.
pub open spec fn version_dir_path(game: Seq<char>, id: Seq<char>) -> Seq<char> {
    path_join(versions_dir_path(game), id)
}

/// `<game>/versions/<id>/<id>.jar`.
pub open spec fn version_jar_path_of(game: Seq<char>, id: Seq<char>) -> Seq<char> {
    path_join(version_dir_path(game, id), id + ".jar"@)
}

/// `<game>/versions/<id>/<id>.json`.
pub open spec fn version_json_path_of(game: Seq<char>, id: Seq<char>) -> Seq<char> {
    path_join(version_dir_path(game, id), id + ".json"@)
}

/// Joins `part` onto `base`.
pub fn join_path(base: &str, part: &str) -> (r: String)
    ensures
        r@ == path_join(base@, part@),
{
    let part_len = part.unicode_len();
    if part_len > 0 && part.get_char(0) == '/' {
        return String::from_str(part);
    }
    let base_len = base.unicode_len();
    if base_len == 0 {
        return String::from_str(part);
    }
    if base.get_char(base_len - 1) == '/' {
        concat_str(base, part)
    } else {
        let mut r = concat_str(base, "/");
        r.append(part);
        proof {
            reveal_strlit("/");
        }
        assert(r@ =~= base@ + seq!['/'] + part@);
        r
    }
}

/// The directory that holds one subdirectory per installed version.
pub fn versions_directory(game_directory: &str) -> (r: String)
    ensures
        r@ == versions_dir_path(game_directory@),
{
    join_path(game_directory, "versions")
}

/// The directory of version `version_id`.
pub fn version_directory(game_directory: &str, version_id: &str) -> (r: String)
    ensures
        r@ == version_dir_path(game_directory@, version_id@),
{
    let root = versions_directory(game_directory);
    join_path(root.as_str(), version_id)
}

/// The client JAR of version `version_id`.
pub fn version_jar_path(game_directory: &str, version_id: &str) -> (r: String)
    ensures
        r@ == version_jar_path_of(game_directory@, version_id@),
{
    let dir = version_directory(game_directory, version_id);
    let name = concat_str(version_id, ".jar");
    join_path(dir.as_str(), name.as_str())
}

/// The version JSON of version `version_id`.
pub fn version_json_path(game_directory: &str, version_id: &str) -> (r: String)
    ensures
        r@ == version_json_path_of(game_directory@, version_id@),
{
    let dir = version_directory(game_directory, version_id);
    let name = concat_str(version_id, ".json");
    join_path(dir.as_str(), name.as_str())
}

/// What the caller found for one entry of the versions directory.
pub struct VersionDirEntry {
    /// The entry's file name.
    pub name: String,
    /// The entry is a directory.
    pub is_directory: bool,
    /// `<entry>/<name>.jar` exists.
    pub has_jar: bool,
    /// `<entry>/<name>.json` exists.
    pub has_json: bool,
}

/// An entry counts as an installed version when it is a directory holding
/// both its JAR and its JSON.
pub open spec fn entry_installed(e: VersionDirEntry) -> bool {
    e.is_directory && e.has_jar && e.has_json
}

/// The name of an installed entry, nothing for any other.
pub open spec fn installed_name(e: VersionDirEntry) -> Option<Seq<char>> {
    if entry_installed(e) {
        Some(e.name@)
    } else {
        None
    }
}

/// Names of the installed versions among `entries`, in the order given.
pub fn installed_version_names(entries: &Vec<VersionDirEntry>) -> (r: Vec<String>)
    ensures
        r@.map_values(|s: String| s@) == entries@.filter_map(|e: VersionDirEntry| installed_name(e)),
{
    let ghost f = |e: VersionDirEntry| installed_name(e);
    let mut r: Vec<String> = Vec::new();
    let mut i: usize = 0;
    while i < entries.len()
        invariant
            i <= entries.len(),
            f == (|e: VersionDirEntry| installed_name(e)),
            r@.map_values(|s: String| s@) == entries@.take(i as int).filter_map(f),
        decreases entries.len() - i,
    {
        let e = &entries[i];
        proof {
            entries@.lemma_filter_map_take_succ(f, i as int);
        }
        let ghost before = r@;
        if e.is_directory && e.has_jar && e.has_json {
            let name = e.name.clone();
            r.push(name);
            assert(f(entries@[i as int]) == Some(e.name@));
            assert(r@.map_values(|s: String| s@) =~= before.map_values(|s: String| s@).push(
                e.name@,
            ));
        } else {
            assert(f(entries@[i as int]).is_none());
        }
        assert(r@.map_values(|s: String| s@) =~= entries@.take(i + 1).filter_map(f));
        i = i + 1;
    }
    assert(entries@.take(entries.len() as int) =~= entries@);
    r
}

/// The check of a single version: its JAR and its JSON both exist, where
/// `present` tells which paths exist.
pub open spec fn version_installed(game: Seq<char>, id: Seq<char>, present: spec_fn(Seq<char>) -> bool) -> bool {
    present(version_jar_path_of(game, id)) && present(version_json_path_of(game, id))
}

/// The scanned entries report the files of each version directory as
/// `present` has them: an entry has its JAR (its JSON) when it is a
/// directory and that file exists.
pub open spec fn scan_reports(game: Seq<char>, entries: Seq<VersionDirEntry>, present: spec_fn(Seq<char>) -> bool) -> bool {
    forall|k: int|
        0 <= k < entries.len() ==> {
            &&& (#[trigger] entries[k]).has_jar == (entries[k].is_directory && present(
                version_jar_path_of(game, entries[k].name@),
            ))
            &&& entries[k].has_json == (entries[k].is_directory && present(
                version_json_path_of(game, entries[k].name@),
            ))
        }
}

proof fn lemma_installed_entry_listed(entries: Seq<VersionDirEntry>, k: int)
    requires
        0 <= k < entries.len(),
        entry_installed(entries[k]),
    ensures
        entries.filter_map(|e: VersionDirEntry| installed_name(e)).contains(entries[k].name@),
    decreases entries.len(),
{
    let f = |e: VersionDirEntry| installed_name(e);
    let rest = entries.drop_last();
    if k == entries.len() - 1 {
        assert(entries.filter_map(f) == rest.filter_map(f) + seq![entries[k].name@]);
        assert(entries.filter_map(f)[rest.filter_map(f).len() as int] == entries[k].name@);
    } else {
        assert(rest[k] == entries[k]);
        lemma_installed_entry_listed(rest, k);
        let i = choose|i: int| 0 <= i < rest.filter_map(f).len() && rest.filter_map(f)[i] == entries[k].name@;
        match f(entries.last()) {
            Some(x) => {
                assert(entries.filter_map(f) == rest.filter_map(f) + seq![x]);
                assert(entries.filter_map(f)[i] == entries[k].name@);
            },
            None => {
                assert(entries.filter_map(f) == rest.filter_map(f));
            },
        }
    }
}

/// The installed-versions listing agrees with the single-version check:
/// when the entries are a complete scan of the versions directory (every
/// version whose files exist has an entry, and a file inside an entry
/// exists only when that entry is a directory), a name is listed exactly
/// when its JAR and JSON both exist.
pub proof fn law_listing_matches_check(
    game: Seq<char>,
    entries: Seq<VersionDirEntry>,
    present: spec_fn(Seq<char>) -> bool,
    id: Seq<char>,
)
    requires
        scan_reports(game, entries, present),
        forall|k: int|
            0 <= k < entries.len() && present(version_jar_path_of(game, entries[k].name@))
                ==> #[trigger] entries[k].is_directory,
        version_installed(game, id, present) ==> exists|k: int| 0 <= k < entries.len() && #[trigger] entries[k].name@ == id,
    ensures
        entries.filter_map(|e: VersionDirEntry| installed_name(e)).contains(id) <==> version_installed(game, id, present),
{
    let f = |e: VersionDirEntry| installed_name(e);
    if entries.filter_map(f).contains(id) {
        entries.lemma_filter_map_contains(f, id);
        let t = choose|t: VersionDirEntry| entries.contains(t) && f(t) == Some(id);
        let k = choose|k: int| 0 <= k < entries.len() && entries[k] == t;
        assert(entries[k].has_jar);
    }
    if version_installed(game, id, present) {
        let k = choose|k: int| 0 <= k < entries.len() && #[trigger] entries[k].name@ == id;
        assert(entries[k].is_directory);
        assert(entry_installed(entries[k]));
        lemma_installed_entry_listed(entries, k);
    }
}

} // verus!
