//! Locating the Python shared library: the candidate paths and the choice
//! among them. Running `python3` and asking the file system which paths
//! exist is left to the caller, which hands the answers in.
use vstd::prelude::*;
use crate::text::{chars_of, decimal, push_char, push_decimal, push_str, str_eq, trim, trim_spec};

verus! {

/// The operating system the library is looked for on.
#[derive(Clone, Copy, Debug, PartialEq, Eq, Structural)]
pub enum TargetOs {
    MacOs,
    Linux,
    Windows,
    Other,
}

/// `s` with every `'.'` removed.
pub open spec fn without_dots(s: Seq<char>) -> Seq<char>
    decreases s.len(),
{
    if s.len() == 0 {
        seq![]
    } else if s.last() == '.' {
        without_dots(s.drop_last())
    } else {
        without_dots(s.drop_last()).push(s.last())
    }
}

/// The file name of the Python library for a `major.minor` version string:
/// `libpython<v>.dylib` on macOS, `python<v without dots>.dll` on Windows,
/// `libpython<v>.so` elsewhere.
pub open spec fn library_file_name_spec(os: TargetOs, version: Seq<char>) -> Seq<char> {
    match os {
        TargetOs::MacOs => "libpython"@ + version + ".dylib"@,
        TargetOs::Windows => "python"@ + without_dots(version) + ".dll"@,
        _ => "libpython"@ + version + ".so"@,
    }
}

/// Whether `c` separates path components on `os`.
pub open spec fn is_separator(os: TargetOs, c: char) -> bool {
    c == '/' || (os == TargetOs::Windows && c == '\\')
}

/// The separator that joining inserts on `os`.
pub open spec fn separator(os: TargetOs) -> char {
    if os == TargetOs::Windows {
        '\\'
    } else {
        '/'
    }
}

/// Whether `dir` is a Windows drive and nothing more, such as `C:`.
pub open spec fn is_bare_drive(os: TargetOs, dir: Seq<char>) -> bool {
    &&& os == TargetOs::Windows
    &&& dir.len() == 2
    &&& (('a' <= dir[0] <= 'z') || ('A' <= dir[0] <= 'Z'))
    &&& dir[1] == ':'
}

/// `dir` joined with the relative path `name`, as `Path::join` does: a
/// separator goes between them unless `dir` is empty, already ends with
/// one, or is a bare Windows drive (`C:` joined with `x` is `C:x`).
pub open spec fn join_path_spec(os: TargetOs, dir: Seq<char>, name: Seq<char>) -> Seq<char> {
    if dir.len() == 0 || is_separator(os, dir.last()) || is_bare_drive(os, dir) {
        dir + name
    } else {
        dir.push(separator(os)) + name
    }
}

/// The directory that `python3` printed as `LIBDIR`, trimmed; none when
/// it is empty or `None`, in which case the version is not asked for.
pub open spec fn usable_libdir_spec(libdir_out: Seq<char>) -> Option<Seq<char>> {
    let libdir = trim_spec(libdir_out);
    if libdir.len() == 0 || libdir == "None"@ {
        None
    } else {
        Some(libdir)
    }
}

/// The library path in directory `libdir` for the version that `python3`
/// printed (trimmed).
pub open spec fn library_path_in_spec(os: TargetOs, libdir: Seq<char>, version_out: Seq<char>) -> Seq<char> {
    join_path_spec(os, libdir, library_file_name_spec(os, trim_spec(version_out)))
}

/// The library path that `python3`'s reported `LIBDIR` and version point
/// at, from the two outputs as printed: none when the directory is empty
/// or `None` (after trimming whitespace).
pub open spec fn config_library_path_spec(
    os: TargetOs,
    libdir_out: Seq<char>,
    version_out: Seq<char>,
) -> Option<Seq<char>> {
    match usable_libdir_spec(libdir_out) {
        None => None,
        Some(libdir) => Some(library_path_in_spec(os, libdir, version_out)),
    }
}

/// One of the well-known install locations for Python `3.minor`; `second`
/// picks the second of the two locations listed for that version.
pub open spec fn common_path(os: TargetOs, minor: nat, second: bool) -> Seq<char> {
    let m = decimal(minor);
    if os == TargetOs::MacOs {
        if !second {
            "/opt/homebrew/opt/python@3."@ + m + "/Frameworks/Python.framework/Versions/3."@ + m
                + "/lib/libpython3."@ + m + ".dylib"@
        } else {
            "/opt/homebrew/opt/python@3."@ + m + "/Frameworks/Python.framework/Versions/3."@ + m
                + "/Python"@
        }
    } else {
        if !second {
            "/usr/lib/x86_64-linux-gnu/libpython3."@ + m + ".so"@
        } else {
            "/usr/lib/libpython3."@ + m + ".so"@
        }
    }
}

/// The well-known locations, newest Python first (3.15 down to 3.8), two
/// per version on macOS and on Linux, none elsewhere.
pub open spec fn common_paths_spec(os: TargetOs) -> Seq<Seq<char>> {
    if os == TargetOs::MacOs || os == TargetOs::Linux {
        Seq::new(16, |i: int| common_path(os, (15 - i / 2) as nat, i % 2 == 1))
    } else {
        seq![]
    }
}

/// The first candidate that occurs in `existing`, if any.
pub open spec fn first_existing(candidates: Seq<Seq<char>>, existing: Seq<Seq<char>>) -> Option<
    Seq<char>,
>
    decreases candidates.len(),
{
    if candidates.len() == 0 {
        None
    } else if existing.contains(candidates[0]) {
        Some(candidates[0])
    } else {
        first_existing(candidates.drop_first(), existing)
    }
}

/// The places to look, in order: the path that `python3` reported, when
/// there is one, then the well-known locations.
pub open spec fn library_candidates_spec(os: TargetOs, config_path: Option<Seq<char>>) -> Seq<
    Seq<char>,
> {
    match config_path {
        Some(p) => seq![p] + common_paths_spec(os),
        None => common_paths_spec(os),
    }
}

/// The character views of optional strings.
pub open spec fn opt_view(o: Option<String>) -> Option<Seq<char>> {
    match o {
        Some(s) => Some(s@),
        None => None,
    }
}

/// `s` with every `'.'` removed.
pub fn remove_dots(s: &str) -> (out: String)
    ensures
        out@ == without_dots(s@),
{
    let v = chars_of(s);
    let mut out = String::new();
    let mut i: usize = 0;
    while i < v.len()
        invariant
            v@ == s@,
            i <= v.len(),
            out@ == without_dots(v@.take(i as int)),
        decreases v.len() - i,
    {
        assert(v@.take(i + 1).drop_last() =~= v@.take(i as int));
        if v[i] != '.' {
            push_char(&mut out, v[i]);
        }
        i += 1;
    }
    assert(v@.take(v.len() as int) =~= v@);
    out
}

/// The file name of the Python library for version `version`.
pub fn library_file_name(os: TargetOs, version: &str) -> (name: String)
    ensures
        name@ == library_file_name_spec(os, version@),
{
    let mut out = String::new();
    match os {
        TargetOs::MacOs => {
            push_str(&mut out, "libpython");
            push_str(&mut out, version);
            push_str(&mut out, ".dylib");
        },
        TargetOs::Windows => {
            push_str(&mut out, "python");
            let v = remove_dots(version);
            push_str(&mut out, v.as_str());
            push_str(&mut out, ".dll");
        },
        _ => {
            push_str(&mut out, "libpython");
            push_str(&mut out, version);
            push_str(&mut out, ".so");
        },
    }
    assert(out@ =~= library_file_name_spec(os, version@));
    out
}

/// `dir` joined with the relative path `name`.
pub fn join_path(os: TargetOs, dir: &str, name: &str) -> (out: String)
    ensures
        out@ == join_path_spec(os, dir@, name@),
{
    let v = chars_of(dir);
    let mut out = String::from_str(dir);
    let sep = if os == TargetOs::Windows {
        '\\'
    } else {
        '/'
    };
    let bare_drive = os == TargetOs::Windows && v.len() == 2 && (('a' <= v[0] && v[0] <= 'z') || (
    'A' <= v[0] && v[0] <= 'Z')) && v[1] == ':';
    if v.len() > 0 && !bare_drive {
        let last = v[v.len() - 1];
        let ends_with_sep = last == '/' || (os == TargetOs::Windows && last == '\\');
        if !ends_with_sep {
            push_char(&mut out, sep);
        }
    }
    push_str(&mut out, name);
    out
}

/// The `LIBDIR` that `python3` printed, trimmed, when it names a
/// directory; none when it is empty or `None`.
pub fn usable_libdir(libdir_out: &str) -> (r: Option<String>)
    ensures
        opt_view(r) == usable_libdir_spec(libdir_out@),
{
    let libdir = trim(libdir_out);
    if libdir.unicode_len() == 0 || str_eq(libdir.as_str(), "None") {
        return None;
    }
    Some(libdir)
}

/// The library path in `libdir` for the version that `python3` printed.
pub fn library_path_in(os: TargetOs, libdir: &str, version_out: &str) -> (r: String)
    ensures
        r@ == library_path_in_spec(os, libdir@, version_out@),
{
    let version = trim(version_out);
    let name = library_file_name(os, version.as_str());
    join_path(os, libdir, name.as_str())
}

/// The library path named by `python3`'s printed `LIBDIR` and version, or
/// none when the printed directory is empty or `None`.
pub fn config_library_path(os: TargetOs, libdir_out: &str, version_out: &str) -> (r: Option<
    String,
>)
    ensures
        opt_view(r) == config_library_path_spec(os, libdir_out@, version_out@),
{
    match usable_libdir(libdir_out) {
        None => None,
        Some(libdir) => Some(library_path_in(os, libdir.as_str(), version_out)),
    }
}

/// The path that the `python3` query settles on: the computed path when it
/// exists; otherwise, on macOS, the framework library found beside the
/// interpreter, if one was found; otherwise the computed path all the same.
pub fn resolve_config_path(os: TargetOs, path: String, path_exists: bool, framework: Option<
    String,
>) -> (r: String)
    ensures
        r@ == (if path_exists {
            path@
        } else if os == TargetOs::MacOs && framework is Some {
            framework->0@
        } else {
            path@
        }),
{
    if path_exists {
        return path;
    }
    if os == TargetOs::MacOs {
        if let Some(p) = framework {
            return p;
        }
    }
    path
}

/// Where a macOS framework build keeps its library, under the interpreter
/// prefix that `python3` printed: `<prefix>/lib/libpython<v>.dylib`, then
/// `<prefix>/Python`.
pub fn macos_framework_candidates(prefix_out: &str, version: &str) -> (out: Vec<String>)
    ensures
        out.len() == 2,
        out@[0]@ == join_path_spec(
            TargetOs::MacOs,
            join_path_spec(TargetOs::MacOs, trim_spec(prefix_out@), "lib"@),
            "libpython"@ + version@ + ".dylib"@,
        ),
        out@[1]@ == join_path_spec(TargetOs::MacOs, trim_spec(prefix_out@), "Python"@),
{
    let prefix = trim(prefix_out);
    let lib_dir = join_path(TargetOs::MacOs, prefix.as_str(), "lib");
    let name = library_file_name(TargetOs::MacOs, version);
    let first = join_path(TargetOs::MacOs, lib_dir.as_str(), name.as_str());
    let second = join_path(TargetOs::MacOs, prefix.as_str(), "Python");
    let mut out = Vec::new();
    out.push(first);
    out.push(second);
    out
}

/// One well-known location for Python `3.minor`.
fn common_path_for(os: TargetOs, minor: u64, second: bool) -> (p: String)
    requires
        os == TargetOs::MacOs || os == TargetOs::Linux,
    ensures
        p@ == common_path(os, minor as nat, second),
{
    let mut out = String::new();
    if os == TargetOs::MacOs {
        push_str(&mut out, "/opt/homebrew/opt/python@3.");
        push_decimal(&mut out, minor);
        push_str(&mut out, "/Frameworks/Python.framework/Versions/3.");
        push_decimal(&mut out, minor);
        if !second {
            push_str(&mut out, "/lib/libpython3.");
            push_decimal(&mut out, minor);
            push_str(&mut out, ".dylib");
        } else {
            push_str(&mut out, "/Python");
        }
    } else {
        if !second {
            push_str(&mut out, "/usr/lib/x86_64-linux-gnu/libpython3.");
        } else {
            push_str(&mut out, "/usr/lib/libpython3.");
        }
        push_decimal(&mut out, minor);
        push_str(&mut out, ".so");
    }
    assert(out@ =~= common_path(os, minor as nat, second));
    out
}

/// The well-known install locations of the Python library on `os`.
pub fn common_paths(os: TargetOs) -> (paths: Vec<String>)
    ensures
        crate::text::views(paths@) == common_paths_spec(os),
{
    let mut paths: Vec<String> = Vec::new();
    if os != TargetOs::MacOs && os != TargetOs::Linux {
        assert(crate::text::views(paths@) =~= common_paths_spec(os));
        return paths;
    }
    let mut minor: u64 = 15;
    while minor >= 8
        invariant
            os == TargetOs::MacOs || os == TargetOs::Linux,
            7 <= minor <= 15,
            paths.len() == 2 * (15 - minor),
            forall|i: int|
                0 <= i < paths.len() ==> #[trigger] paths@[i]@ == common_path(
                    os,
                    (15 - i / 2) as nat,
                    i % 2 == 1,
                ),
        decreases minor,
    {
        let a = common_path_for(os, minor, false);
        let b = common_path_for(os, minor, true);
        paths.push(a);
        paths.push(b);
        minor -= 1;
    }
    assert(crate::text::views(paths@) =~= common_paths_spec(os));
    paths
}

/// Whether `existing` holds a string equal to `p`.
fn occurs_in(existing: &Vec<String>, p: &str) -> (r: bool)
    ensures
        r == crate::text::views(existing@).contains(p@),
{
    let mut i: usize = 0;
    while i < existing.len()
        invariant
            i <= existing.len(),
            forall|j: int| 0 <= j < i ==> existing@[j]@ != p@,
        decreases existing.len() - i,
    {
        if str_eq(existing[i].as_str(), p) {
            assert(crate::text::views(existing@)[i as int] == p@);
            return true;
        }
        i += 1;
    }
    assert(!crate::text::views(existing@).contains(p@)) by {
        if crate::text::views(existing@).contains(p@) {
            let j = choose|j: int|
                0 <= j < existing.len() && crate::text::views(existing@)[j] == p@;
            assert(existing@[j]@ == p@);
        }
    }
    false
}

proof fn lemma_first_existing_skip(c: Seq<Seq<char>>, e: Seq<Seq<char>>, i: int)
    requires
        0 <= i < c.len(),
        !e.contains(c[i]),
    ensures
        first_existing(c.skip(i), e) == first_existing(c.skip(i + 1), e),
{
    assert(c.skip(i).drop_first() =~= c.skip(i + 1));
}

/// The first of `candidates` that occurs in `existing`.
pub fn select_first_existing(candidates: &Vec<String>, existing: &Vec<String>) -> (r: Option<
    String,
>)
    ensures
        opt_view(r) == first_existing(
            crate::text::views(candidates@),
            crate::text::views(existing@),
        ),
{
    let ghost c = crate::text::views(candidates@);
    let ghost e = crate::text::views(existing@);
    let mut i: usize = 0;
    assert(c.skip(0) =~= c);
    while i < candidates.len()
        invariant
            c == crate::text::views(candidates@),
            e == crate::text::views(existing@),
            i <= candidates.len(),
            first_existing(c, e) == first_existing(c.skip(i as int), e),
        decreases candidates.len() - i,
    {
        if occurs_in(existing, candidates[i].as_str()) {
            assert(c.skip(i as int)[0] == c[i as int]);
            return Some(candidates[i].clone());
        }
        proof {
            lemma_first_existing_skip(c, e, i as int);
        }
        i += 1;
    }
    assert(c.skip(i as int) =~= Seq::<Seq<char>>::empty());
    None
}

/// What is found is a candidate that exists, and nothing is found only
/// when no candidate exists.
pub proof fn lemma_first_existing_sound(candidates: Seq<Seq<char>>, existing: Seq<Seq<char>>)
    ensures
        first_existing(candidates, existing) matches Some(p) ==> candidates.contains(p)
            && existing.contains(p),
        first_existing(candidates, existing) is None ==> forall|i: int|
            0 <= i < candidates.len() ==> !existing.contains(#[trigger] candidates[i]),
    decreases candidates.len(),
{
    if candidates.len() > 0 {
        let rest = candidates.drop_first();
        lemma_first_existing_sound(rest, existing);
        if first_existing(candidates, existing) is Some {
            if !existing.contains(candidates[0]) {
                let p = first_existing(rest, existing)->0;
                let j = choose|j: int| 0 <= j < rest.len() && rest[j] == p;
                assert(candidates[j + 1] == p);
            } else {
                assert(candidates[0] == candidates[0]);
            }
        } else {
            assert forall|i: int| 0 <= i < candidates.len() implies !existing.contains(
                #[trigger] candidates[i],
            ) by {
                if i > 0 {
                    assert(candidates[i] == rest[i - 1]);
                }
            }
        }
    }
}

/// The path that `python3` reported is preferred: when it exists, it is
/// the library found, whatever else exists.
pub proof fn lemma_config_path_preferred(os: TargetOs, p: Seq<char>, existing: Seq<Seq<char>>)
    requires
        existing.contains(p),
    ensures
        first_existing(library_candidates_spec(os, Some(p)), existing) == Some(p),
{
    assert((seq![p] + common_paths_spec(os))[0] == p);
}

/// The places to look for the library, in order.
pub fn library_candidates(os: TargetOs, config_path: Option<String>) -> (out: Vec<String>)
    ensures
        crate::text::views(out@) == library_candidates_spec(os, opt_view(config_path)),
{
    let common = common_paths(os);
    let mut out: Vec<String> = Vec::new();
    if let Some(p) = config_path {
        out.push(p);
    }
    let ghost head = crate::text::views(out@);
    let mut i: usize = 0;
    while i < common.len()
        invariant
            i <= common.len(),
            crate::text::views(common@) == common_paths_spec(os),
            crate::text::views(out@) == head + crate::text::views(common@).take(i as int),
        decreases common.len() - i,
    {
        let ghost prev = crate::text::views(out@);
        let item = common[i].clone();
        out.push(item);
        assert(crate::text::views(out@) =~= prev.push(common@[i as int]@));
        assert(crate::text::views(common@).take(i + 1) =~= crate::text::views(common@).take(
            i as int,
        ).push(common@[i as int]@));
        assert(crate::text::views(out@) =~= head + crate::text::views(common@).take(i + 1));
        i += 1;
    }
    assert(crate::text::views(common@).take(i as int) =~= crate::text::views(common@));
    assert(crate::text::views(out@) =~= library_candidates_spec(os, opt_view(config_path)));
    out
}

/// The Python library to load: the first of the candidates (the path that
/// `python3` reported, then the well-known locations) that exists, where
/// `existing` holds the candidate paths found on disk.
pub fn find_libpython(os: TargetOs, config_path: Option<String>, existing: &Vec<String>) -> (r:
    Option<String>)
    ensures
        opt_view(r) == first_existing(
            library_candidates_spec(os, opt_view(config_path)),
            crate::text::views(existing@),
        ),
{
    let candidates = library_candidates(os, config_path);
    select_first_existing(&candidates, existing)
}

} // verus!
