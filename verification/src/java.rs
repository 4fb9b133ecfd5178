//! Locating the Java executable and reading its version from the output of
//! `java -version`.

use vstd::prelude::*;
use crate::auth::Platform;
use crate::text::concat_str;

verus! {

/// The file under `JAVA_HOME` that runs Java: `bin/java.exe` on Windows,
/// `bin/java` elsewhere.
pub open spec fn java_under_home(home: Seq<char>, platform: Platform) -> Seq<char> {
    if platform is Windows {
        home + "/bin/java.exe"@
    } else {
        home + "/bin/java"@
    }
}

/// The executable to run: the given path, else the Java under
/// `JAVA_HOME`, else `java` (looked up on the search path).
pub open spec fn java_executable_of(java_path: Option<Seq<char>>, java_home: Option<Seq<char>>, platform: Platform) -> Seq<char> {
    match java_path {
        Some(p) => p,
        None => match java_home {
            Some(h) => java_under_home(h, platform),
            None => "java"@,
        },
    }
}

fn home_java(home: &str, platform: &Platform) -> (r: String)
    ensures
        r@ == java_under_home(home@, *platform),
{
    match platform {
        Platform::Windows => concat_str(home, "/bin/java.exe"),
        _ => concat_str(home, "/bin/java"),
    }
}

/// Chooses the Java executable for a version check.
pub fn java_executable(java_path: Option<String>, java_home: Option<String>, platform: &Platform) -> (r: String)
    ensures
        r@ == java_executable_of(
            match java_path { Some(p) => Some(p@), None => None },
            match java_home { Some(h) => Some(h@), None => None },
            *platform,
        ),
{
    match java_path {
        Some(p) => p,
        None => match java_home {
            Some(h) => home_java(h.as_str(), platform),
            None => String::from_str("java"),
        },
    }
}

/// The C interface's choice: an empty path means "not given", and the file
/// under `JAVA_HOME` is `bin/java.exe` on Windows and `bin/java` elsewhere.
pub open spec fn c_java_executable_of(java_path: Seq<char>, java_home: Option<Seq<char>>, platform: Platform) -> Seq<char> {
    if java_path.len() == 0 {
        match java_home {
            Some(h) => java_under_home(h, platform),
            None => "java"@,
        }
    } else {
        java_path
    }
}

/// Chooses the Java executable the way the C interface does.
pub fn c_java_executable(java_path: String, java_home: Option<String>, platform: &Platform) -> (r: String)
    ensures
        r@ == c_java_executable_of(java_path@, match java_home { Some(h) => Some(h@), None => None }, *platform),
{
    if java_path.as_str().is_empty() {
        match java_home {
            Some(h) => home_java(h.as_str(), platform),
            None => String::from_str("java"),
        }
    } else {
        java_path
    }
}

/// The position of the first `c` in `s` at or after `from`.
pub open spec fn find_char(s: Seq<char>, c: char, from: int) -> Option<int>
    decreases s.len() - from,
{
    if from < 0 || from >= s.len() {
        None
    } else if s[from] == c {
        Some(from)
    } else {
        find_char(s, c, from + 1)
    }
}

/// The text between the first two double quotes of `s`, as in
/// `java version "21.0.1"`.
pub open spec fn quoted_version(s: Seq<char>) -> Option<Seq<char>> {
    match find_char(s, '"', 0) {
        None => None,
        Some(i) => match find_char(s, '"', i + 1) {
            None => None,
            Some(j) => Some(s.subrange(i + 1, j)),
        },
    }
}

/// What a version check reports for the error output of `java -version`.
pub open spec fn version_from_output(stderr: Seq<char>) -> Seq<char> {
    match quoted_version(stderr) {
        Some(v) => v,
        None => "Unknown"@,
    }
}

proof fn lemma_find_char(s: Seq<char>, c: char, from: int)
    requires
        0 <= from,
    ensures
        match find_char(s, c, from) {
            Some(i) => from <= i < s.len() && s[i] == c && forall|k: int| from <= k < i ==> s[k] != c,
            None => forall|k: int| from <= k < s.len() ==> s[k] != c,
        },
    decreases s.len() - from,
{
    if from < s.len() && s[from] != c {
        lemma_find_char(s, c, from + 1);
    }
}

/// The version read from `java -version` is the text right after the first
/// double quote of the output, up to the next one: it holds no double
/// quote itself, it is found whenever the output holds two of them, and it
/// is then the output with the text up to and including the first quote
/// taken off, cut at the next quote.
pub proof fn law_quoted_version(s: Seq<char>)
    ensures
        quoted_version(s) matches Some(v) ==> !v.contains('"'),
        quoted_version(s) matches Some(v) ==> exists|i: int|
            0 <= i && i + v.len() + 1 < s.len() && s[i] == '"' && !s.subrange(0, i).contains('"')
                && #[trigger] s.subrange(i + 1, i + 1 + v.len()) == v && s[i + 1 + v.len()] == '"',
        quoted_version(s).is_none() <==> !(exists|i: int, j: int|
            0 <= i < j < s.len() && s[i] == '"' && s[j] == '"'),
{
    lemma_find_char(s, '"', 0);
    match find_char(s, '"', 0) {
        None => {},
        Some(i) => {
            lemma_find_char(s, '"', i + 1);
            match find_char(s, '"', i + 1) {
                None => {
                    assert forall|a: int, b: int| 0 <= a < b < s.len() && s[a] == '"' implies s[b] != '"' by {
                        assert(a >= i);
                    }
                },
                Some(j) => {
                    let v = s.subrange(i + 1, j);
                    assert forall|k: int| 0 <= k < v.len() implies v[k] != '"' by {
                        assert(v[k] == s[i + 1 + k]);
                    }
                    assert(!s.subrange(0, i).contains('"')) by {
                        assert forall|k: int| 0 <= k < i implies s.subrange(0, i)[k] != '"' by {
                            assert(s.subrange(0, i)[k] == s[k]);
                        }
                    }
                    let q = quoted_version(s)->Some_0;
                    assert(q == v);
                    assert(i + q.len() + 1 == j);
                    assert(s.subrange(i + 1, i + 1 + q.len()) == q);
                    assert(0 <= i && i + q.len() + 1 < s.len() && s[i] == '"' && !s.subrange(0, i).contains('"')
                        && s.subrange(i + 1, i + 1 + q.len()) == q && s[i + 1 + q.len()] == '"');
                },
            }
        },
    }
}

/// The position of the first `c` in `s` at or after `from`.
fn find_char_from(s: &str, c: char, from: usize) -> (r: Option<usize>)
    requires
        from <= s@.len(),
    ensures
        match r {
            Some(i) => find_char(s@, c, from as int) == Some(i as int),
            None => find_char(s@, c, from as int).is_none(),
        },
        r matches Some(i) ==> from <= i < s@.len(),
        s@.len() <= usize::MAX,
{
    let n = s.unicode_len();
    let mut i = from;
    while i < n
        invariant
            n == s@.len(),
            from <= i <= n,
            find_char(s@, c, from as int) == find_char(s@, c, i as int),
        decreases n - i,
    {
        if s.get_char(i) == c {
            return Some(i);
        }
        i = i + 1;
    }
    None
}

/// The Java version named in the error output of `java -version`: the text
/// between its first two double quotes, or "Unknown".
pub fn parse_java_version(stderr: &str) -> (r: String)
    ensures
        r@ == version_from_output(stderr@),
{
    match find_char_from(stderr, '"', 0) {
        None => String::from_str("Unknown"),
        Some(i) => match find_char_from(stderr, '"', i + 1) {
            None => String::from_str("Unknown"),
            Some(j) => stderr.substring_char(i + 1, j).to_owned(),
        },
    }
}

/// What a version check reports: the parsed version when `java -version`
/// ran (its error output given), "Java not found" when it could not start.
pub open spec fn java_check_report(stderr: Option<Seq<char>>) -> Seq<char> {
    match stderr {
        Some(s) => version_from_output(s),
        None => "Java not found"@,
    }
}

/// The report of a Java version check.
pub fn java_version_report(stderr: Option<String>) -> (r: String)
    ensures
        r@ == java_check_report(match stderr { Some(s) => Some(s@), None => None }),
{
    match stderr {
        Some(s) => parse_java_version(s.as_str()),
        None => String::from_str("Java not found"),
    }
}

/// Which Java a version check runs: a given path is used as it is; with no
/// path and `JAVA_HOME` = `home`, it is `home/bin/java.exe` on Windows and
/// `home/bin/java` on every other platform; with neither, `java` from the
/// search path. The C interface's choice is the same, an empty path
/// standing for "no path".
pub proof fn law_java_executable_by_platform(path: Seq<char>, home: Seq<char>, platform: Platform)
    ensures
        java_executable_of(Some(path), Some(home), platform) == path,
        java_executable_of(Some(path), None, platform) == path,
        java_executable_of(None, None, platform) == "java"@,
        platform is Windows ==> java_executable_of(None, Some(home), platform) == home + "/bin/java.exe"@,
        !(platform is Windows) ==> java_executable_of(None, Some(home), platform) == home + "/bin/java"@,
        path.len() > 0 ==> c_java_executable_of(path, Some(home), platform) == path,
        path.len() > 0 ==> c_java_executable_of(path, None, platform) == path,
        c_java_executable_of(Seq::empty(), None, platform) == "java"@,
        platform is Windows ==> c_java_executable_of(Seq::empty(), Some(home), platform) == home
            + "/bin/java.exe"@,
        !(platform is Windows) ==> c_java_executable_of(Seq::empty(), Some(home), platform) == home
            + "/bin/java"@,
{
}

} // verus!
