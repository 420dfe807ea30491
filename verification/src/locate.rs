//! Finding the tools the program runs (`adb`, `ffmpeg`, `xcrun`): where to
//! look, in which order, and which place wins.
//!
//! A tool is looked for in each directory on `PATH`, in order, and then in
//! a few common system directories that a desktop application may miss from
//! its `PATH`. On Windows the fallback directories are searched for the
//! tool's `.exe` file. The first place that holds a regular file wins.
//! Whether a place holds a file is found out by the caller; this module
//! only decides.

use vstd::prelude::*;

verus! {

/// What `Path::join` gives for a directory and a name, as text. How paths
/// are joined (separator, absolute names, prefixes) depends on the platform
/// the program is built for, so the result is only named here.
pub uninterp spec fn path_join(dir: Seq<char>, name: Seq<char>) -> Seq<char>;

/// `dir` joined with `name`.
///
/// Trusted: calls `Path::join` and turns the result into text. The
/// contract names the result `path_join` of the two texts; the platform's
/// joining rules are not stated.
#[verifier::external_body]
pub(crate) fn join(dir: &str, name: &str) -> (r: String)
    ensures
        r@ == path_join(dir@, name@),
{
    std::path::Path::new(dir).join(name).to_string_lossy().into_owned()
}

/// The directories searched after those on `PATH`.
pub open spec fn fallback_dirs() -> Seq<Seq<char>> {
    seq!["/opt/homebrew/bin"@, "/usr/local/bin"@, "/usr/bin"@, "/bin"@]
}

/// The file a tool is looked for under in the fallback directories: its
/// `.exe` file on Windows, its bare name elsewhere.
pub open spec fn fallback_file(cmd: Seq<char>, windows: bool) -> Seq<char> {
    if windows {
        cmd + ".exe"@
    } else {
        cmd
    }
}

/// The views of a sequence of strings.
pub open spec fn string_views(v: Seq<String>) -> Seq<Seq<char>> {
    v.map_values(|s: String| s@)
}

/// The places where `cmd` is looked for, in order: each directory on `PATH`
/// (when it is set) joined with `cmd`, then each fallback directory joined
/// with [`fallback_file`].
pub open spec fn candidates(cmd: Seq<char>, path_dirs: Option<Seq<Seq<char>>>, windows: bool) -> Seq<
    Seq<char>,
> {
    let on_path = match path_dirs {
        Some(ds) => ds,
        None => Seq::empty(),
    };
    on_path.map_values(|d: Seq<char>| path_join(d, cmd)) + fallback_dirs().map_values(
        |d: Seq<char>| path_join(d, fallback_file(cmd, windows)),
    )
}

/// The view of an optional list of directories.
pub open spec fn dirs_view(path_dirs: Option<&Vec<String>>) -> Option<Seq<Seq<char>>> {
    match path_dirs {
        Some(ds) => Some(string_views(ds@)),
        None => None,
    }
}

/// Place `i` was found to hold a regular file (places not probed do not).
pub open spec fn probed_file(is_file: Seq<bool>, i: int) -> bool {
    0 <= i < is_file.len() && is_file[i]
}

/// The first of `cands`, from index `i` on, found to hold a file.
pub open spec fn first_found_from(cands: Seq<Seq<char>>, is_file: Seq<bool>, i: int) -> Option<
    Seq<char>,
>
    decreases cands.len() - i,
{
    if i < 0 || i >= cands.len() {
        None
    } else if probed_file(is_file, i) {
        Some(cands[i])
    } else {
        first_found_from(cands, is_file, i + 1)
    }
}

/// The first of `cands` found to hold a file.
pub open spec fn first_found(cands: Seq<Seq<char>>, is_file: Seq<bool>) -> Option<Seq<char>> {
    first_found_from(cands, is_file, 0)
}

/// The view of an optional string.
pub open spec fn found_view(r: Option<String>) -> Option<Seq<char>> {
    match r {
        Some(s) => Some(s@),
        None => None,
    }
}

/// Appends `dir` joined with `name` to `out`.
fn push_joined(out: &mut Vec<String>, dir: &str, name: &str)
    ensures
        string_views(final(out)@) == string_views(old(out)@).push(path_join(dir@, name@)),
{
    let ghost before = out@;
    out.push(join(dir, name));
    assert(string_views(out@) =~= string_views(before).push(path_join(dir@, name@)));
}

/// The places where `cmd` is looked for, in order: each directory of
/// `path_dirs` (the entries of `PATH`, when it is set) joined with `cmd`,
/// then the fallback directories joined with `cmd`, or with `cmd.exe` when
/// `windows`.
pub fn candidate_paths(cmd: &str, path_dirs: Option<&Vec<String>>, windows: bool) -> (r: Vec<String>)
    ensures
        string_views(r@) == candidates(cmd@, dirs_view(path_dirs), windows),
{
    let mut r: Vec<String> = Vec::new();
    let ghost on_path = match dirs_view(path_dirs) {
        Some(ds) => ds,
        None => Seq::<Seq<char>>::empty(),
    };
    let ghost joined = on_path.map_values(|d: Seq<char>| path_join(d, cmd@));
    match path_dirs {
        Some(ds) => {
            let mut i: usize = 0;
            while i < ds.len()
                invariant
                    i <= ds@.len(),
                    on_path == string_views(ds@),
                    joined == on_path.map_values(|d: Seq<char>| path_join(d, cmd@)),
                    string_views(r@) == joined.take(i as int),
                decreases ds@.len() - i,
            {
                push_joined(&mut r, ds[i].as_str(), cmd);
                i = i + 1;
                assert(joined.take(i as int) =~= joined.take(i - 1).push(
                    path_join(ds@[i - 1]@, cmd@),
                ));
            }
            assert(joined.take(ds@.len() as int) =~= joined);
        },
        None => {
            assert(joined =~= Seq::<Seq<char>>::empty());
            assert(string_views(r@) =~= joined);
        },
    }
    let mut file = String::from_str(cmd);
    if windows {
        file.append(".exe");
    }
    let ghost f = file@;
    push_joined(&mut r, "/opt/homebrew/bin", file.as_str());
    push_joined(&mut r, "/usr/local/bin", file.as_str());
    push_joined(&mut r, "/usr/bin", file.as_str());
    push_joined(&mut r, "/bin", file.as_str());
    assert(string_views(r@) =~= candidates(cmd@, dirs_view(path_dirs), windows));
    r
}

/// Where `cmd` is found: the first of its places, in the order of
/// [`candidate_paths`], that `is_file` marks as holding a regular file
/// (`is_file[i]` answers for the `i`th place; places beyond its end count
/// as holding none).
pub fn find_in_path(
    cmd: &str,
    path_dirs: Option<&Vec<String>>,
    windows: bool,
    is_file: &Vec<bool>,
) -> (r: Option<String>)
    ensures
        found_view(r) == first_found(candidates(cmd@, dirs_view(path_dirs), windows), is_file@),
{
    let cands = candidate_paths(cmd, path_dirs, windows);
    let ghost cs = candidates(cmd@, dirs_view(path_dirs), windows);
    let mut i: usize = 0;
    while i < cands.len()
        invariant
            i <= cands@.len(),
            string_views(cands@) == cs,
            cs == candidates(cmd@, dirs_view(path_dirs), windows),
            first_found(cs, is_file@) == first_found_from(cs, is_file@, i as int),
        decreases cands@.len() - i,
    {
        if i < is_file.len() && is_file[i] {
            assert(cs[i as int] == cands@[i as int]@);
            assert(probed_file(is_file@, i as int));
            assert(first_found_from(cs, is_file@, i as int) == Some(cs[i as int]));
            let found = cands[i].clone();
            assert(found@ == cands@[i as int]@);
            return Some(found);
        }
        i = i + 1;
    }
    None
}

/// Where `ffmpeg` is found.
pub fn find_ffmpeg(path_dirs: Option<&Vec<String>>, windows: bool, is_file: &Vec<bool>) -> (r:
    Option<String>)
    ensures
        found_view(r) == first_found(
            candidates("ffmpeg"@, dirs_view(path_dirs), windows),
            is_file@,
        ),
{
    find_in_path("ffmpeg", path_dirs, windows, is_file)
}

/// Where the Android SDK installs `adb` under the home directory `home`.
pub open spec fn sdk_adb(home: Seq<char>) -> Seq<char> {
    path_join(home, "Library/Android/sdk/platform-tools/adb"@)
}

/// Where the Android SDK installs `adb` under the home directory `home`.
pub fn adb_sdk_path(home: &str) -> (r: String)
    ensures
        r@ == sdk_adb(home@),
{
    join(home, "Library/Android/sdk/platform-tools/adb")
}

/// Where `adb` is found: as [`find_in_path`] finds it, or else, when the
/// home directory is known and its SDK copy exists (`sdk_exists`), there.
pub fn find_adb(
    path_dirs: Option<&Vec<String>>,
    windows: bool,
    is_file: &Vec<bool>,
    home: Option<&str>,
    sdk_exists: bool,
) -> (r: Option<String>)
    ensures
        found_view(r) == match first_found(
            candidates("adb"@, dirs_view(path_dirs), windows),
            is_file@,
        ) {
            Some(p) => Some(p),
            None => match home {
                Some(h) => if sdk_exists {
                    Some(sdk_adb(h@))
                } else {
                    None
                },
                None => None,
            },
        },
{
    match find_in_path("adb", path_dirs, windows, is_file) {
        Some(p) => Some(p),
        None => match home {
            Some(h) => if sdk_exists {
                Some(adb_sdk_path(h))
            } else {
                None
            },
            None => None,
        },
    }
}

// ---------------------------------------------------------------------
// Laws
// ---------------------------------------------------------------------

proof fn lemma_first_found_from(cands: Seq<Seq<char>>, is_file: Seq<bool>, i: int)
    requires
        0 <= i,
    ensures
        match first_found_from(cands, is_file, i) {
            Some(p) => exists|k: int|
                i <= k < cands.len() && #[trigger] probed_file(is_file, k) && cands[k] == p
                    && forall|j: int| i <= j < k ==> !probed_file(is_file, j),
            None => forall|k: int| i <= k < cands.len() ==> !probed_file(is_file, k),
        },
    decreases cands.len() - i,
{
    if i < cands.len() {
        lemma_first_found_from(cands, is_file, i + 1);
    }
}

/// The place found is the first of the candidates that holds a file: it
/// holds one, and no earlier candidate does; when none is found, no
/// candidate holds one.
pub proof fn lemma_first_found(cands: Seq<Seq<char>>, is_file: Seq<bool>)
    ensures
        match first_found(cands, is_file) {
            Some(p) => exists|k: int|
                0 <= k < cands.len() && #[trigger] probed_file(is_file, k) && cands[k] == p
                    && forall|j: int| 0 <= j < k ==> !probed_file(is_file, j),
            None => forall|k: int| 0 <= k < cands.len() ==> !probed_file(is_file, k),
        },
{
    lemma_first_found_from(cands, is_file, 0);
}

/// A directory on `PATH` that holds the tool wins over every fallback
/// directory: the place found is then one on `PATH`, on every platform.
pub proof fn lemma_path_before_fallbacks(
    cmd: Seq<char>,
    dirs: Seq<Seq<char>>,
    windows: bool,
    is_file: Seq<bool>,
    i: int,
)
    requires
        0 <= i < dirs.len(),
        probed_file(is_file, i),
    ensures
        exists|k: int|
            0 <= k <= i && first_found(candidates(cmd, Some(dirs), windows), is_file) == Some(
                path_join(#[trigger] dirs[k], cmd),
            ),
{
    let cs = candidates(cmd, Some(dirs), windows);
    lemma_first_found(cs, is_file);
    let p = first_found(cs, is_file)->Some_0;
    let k = choose|k: int|
        0 <= k < cs.len() && #[trigger] probed_file(is_file, k) && cs[k] == p && forall|j: int|
            0 <= j < k ==> !probed_file(is_file, j);
    assert(k <= i);
    assert(cs[k] == path_join(dirs[k], cmd));
}

/// The fallback directories are searched for the `.exe` file on Windows
/// and for the bare name elsewhere.
pub proof fn lemma_fallback_names(cmd: Seq<char>, path_dirs: Option<Seq<Seq<char>>>, windows: bool)
    ensures
        ({
            let cs = candidates(cmd, path_dirs, windows);
            let n = cs.len() - 4;
            &&& n >= 0
            &&& forall|k: int|
                0 <= k < 4 ==> #[trigger] cs[n + k] == path_join(
                    fallback_dirs()[k],
                    if windows {
                        cmd + ".exe"@
                    } else {
                        cmd
                    },
                )
        }),
{
}

} // verus!
