//! Where things live: the layout of the data directory and of the extracted
//! runtime, for the two families of target systems.

use vstd::prelude::*;
use vstd::string::*;

use crate::text::push_char;

verus! {

/// The family of operating systems the launcher was built for. It decides
/// the path separator and the layout of the bundled interpreter.
#[derive(Clone, Copy, Debug, PartialEq, Eq, Structural)]
pub enum TargetOs {
    /// macOS and Linux.
    Unix,
    /// Windows.
    Windows,
}

/// The separator that joining puts between two components.
pub open spec fn separator(os: TargetOs) -> char {
    match os {
        TargetOs::Unix => '/',
        TargetOs::Windows => '\\',
    }
}

/// The characters that end a component: `/` everywhere, `\` on Windows too.
pub open spec fn is_separator(os: TargetOs, c: char) -> bool {
    c == '/' || (os == TargetOs::Windows && c == '\\')
}

/// True when `base` is exactly a Windows drive prefix such as `C:`.
pub open spec fn is_drive_only(base: Seq<char>) -> bool {
    base.len() == 2 && base[1] == ':' && (('A' <= base[0] <= 'Z') || ('a' <= base[0] <= 'z'))
}

/// True when `base` starts with the Windows verbatim prefix `\\?\`.
pub open spec fn is_verbatim(base: Seq<char>) -> bool {
    base.len() >= 4 && base[0] == '\\' && base[1] == '\\' && base[2] == '?' && base[3] == '\\'
}

/// The end of the component of `s` that starts at `i`: the index of the
/// next `\` at or after `i`, or the length of `s`.
pub open spec fn component_end(s: Seq<char>, i: int) -> int
    decreases s.len() - i,
{
    if i >= s.len() || i < 0 || s[i] == '\\' {
        if i < 0 { 0 } else { i }
    } else {
        component_end(s, i + 1)
    }
}

/// The length of the prefix of a verbatim path: `\\?\UNC\server\share`
/// (without the share when it is empty) or `\\?\` and the first component.
pub open spec fn verbatim_prefix_len(base: Seq<char>) -> int {
    if base.len() >= 8 && base[4] == 'U' && base[5] == 'N' && base[6] == 'C' && base[7] == '\\' {
        let server_end = component_end(base, 8);
        if server_end < base.len() && component_end(base, server_end + 1) > server_end + 1 {
            component_end(base, server_end + 1)
        } else {
            server_end
        }
    } else {
        component_end(base, 4)
    }
}

/// The components of `s` (which are separated by runs of `\`), each written
/// after a single `\`: empty components are dropped.
pub open spec fn collapse(s: Seq<char>) -> Seq<char>
    decreases s.len(),
{
    if s.len() == 0 {
        Seq::empty()
    } else if s.last() == '\\' {
        collapse(s.drop_last())
    } else if s.len() == 1 || s[s.len() - 2] == '\\' {
        collapse(s.drop_last()) + seq!['\\', s.last()]
    } else {
        collapse(s.drop_last()).push(s.last())
    }
}

/// What `Path::join` puts in front of a plain name appended to `base`:
/// `base` itself when it is empty, ends with a separator or (on Windows) is a
/// bare drive such as `C:`; `base` and a separator otherwise. A Windows
/// verbatim path (`\\?\...`), where only `\` separates, is rebuilt from its
/// prefix and its non-empty components, each after one `\`.
pub open spec fn join_stem(os: TargetOs, base: Seq<char>) -> Seq<char> {
    if os == TargetOs::Windows && is_verbatim(base) {
        let n = verbatim_prefix_len(base);
        base.subrange(0, n) + collapse(base.subrange(n, base.len() as int)) + seq!['\\']
    } else if base.len() == 0 || is_separator(os, base.last()) || (os == TargetOs::Windows
        && is_drive_only(base)) {
        base
    } else {
        base.push(separator(os))
    }
}

/// `base` extended by `part`. For a `part` that is a plain file name (not
/// empty, not `.` or `..`, without separators or a drive's `:`), as all the
/// names of this layout are, this is what `Path::join` gives.
pub open spec fn join(os: TargetOs, base: Seq<char>, part: Seq<char>) -> Seq<char> {
    join_stem(os, base) + part
}

fn component_end_of(s: &str, n: usize, start: usize) -> (e: usize)
    requires
        n == s@.len(),
        start <= n,
    ensures
        e == component_end(s@, start as int),
        start <= e <= n,
{
    let mut i = start;
    while i < n && s.get_char(i) != '\\'
        invariant
            n == s@.len(),
            start <= i <= n,
            component_end(s@, start as int) == component_end(s@, i as int),
        decreases n - i,
    {
        i = i + 1;
    }
    i
}

fn verbatim_prefix_end(s: &str, n: usize) -> (e: usize)
    requires
        n == s@.len(),
        is_verbatim(s@),
    ensures
        e == verbatim_prefix_len(s@),
        4 <= e <= n,
{
    if n >= 8 && s.get_char(4) == 'U' && s.get_char(5) == 'N' && s.get_char(6) == 'C' && s.get_char(7)
        == '\\' {
        let server_end = component_end_of(s, n, 8);
        if server_end < n {
            let share_end = component_end_of(s, n, server_end + 1);
            if share_end > server_end + 1 {
                return share_end;
            }
        }
        server_end
    } else {
        component_end_of(s, n, 4)
    }
}

fn push_collapsed(out: &mut String, s: &str, n: usize, start: usize)
    requires
        n == s@.len(),
        start <= n,
    ensures
        final(out)@ == old(out)@ + collapse(s@.subrange(start as int, n as int)),
{
    let ghost before = out@;
    assert(s@.subrange(start as int, start as int) =~= Seq::<char>::empty());
    let mut i = start;
    while i < n
        invariant
            n == s@.len(),
            start <= i <= n,
            out@ == before + collapse(s@.subrange(start as int, i as int)),
        decreases n - i,
    {
        let c = s.get_char(i);
        let ghost seg = s@.subrange(start as int, i as int + 1);
        proof {
            assert(seg.drop_last() =~= s@.subrange(start as int, i as int));
            assert(seg.last() == c);
            if i > start {
                assert(seg[seg.len() - 2] == s@[i - 1]);
            }
        }
        if c != '\\' {
            if i == start || s.get_char(i - 1) == '\\' {
                push_char(out, '\\');
            }
            push_char(out, c);
        }
        i = i + 1;
        assert(out@ =~= before + collapse(seg));
    }
}

/// Extends `base` by `part`, which is meant to be a plain file name; for
/// such names this is `Path::join` on `os`.
pub fn join_path(os: TargetOs, base: &str, part: &str) -> (p: String)
    ensures
        p@ == join(os, base@, part@),
{
    let n = base.unicode_len();
    let windows = match os {
        TargetOs::Unix => false,
        TargetOs::Windows => true,
    };
    let verbatim = n >= 4 && base.get_char(0) == '\\' && base.get_char(1) == '\\' && base.get_char(2)
        == '?' && base.get_char(3) == '\\';
    if windows && verbatim {
        let e = verbatim_prefix_end(base, n);
        let mut p = String::from_str(base.substring_char(0, e));
        push_collapsed(&mut p, base, n, e);
        push_char(&mut p, '\\');
        p.append(part);
        return p;
    }
    let mut p = String::from_str(base);
    let needs_separator = if n == 0 {
        false
    } else {
        let c = base.get_char(n - 1);
        if windows {
            let drive_only = n == 2 && base.get_char(1) == ':' && {
                let d = base.get_char(0);
                ('A' <= d && d <= 'Z') || ('a' <= d && d <= 'z')
            };
            c != '/' && c != '\\' && !drive_only
        } else {
            c != '/'
        }
    };
    if needs_separator {
        if windows {
            push_char(&mut p, '\\');
        } else {
            push_char(&mut p, '/');
        }
    }
    p.append(part);
    p
}

/// The directory that holds the extracted runtime: `<data_dir>/runtime`.
pub open spec fn runtime_root_of(os: TargetOs, data_dir: Seq<char>) -> Seq<char> {
    join(os, data_dir, "runtime"@)
}

/// The extracted runtime's directory inside the data directory.
pub fn runtime_root(os: TargetOs, data_dir: &str) -> (p: String)
    ensures
        p@ == runtime_root_of(os, data_dir@),
{
    join_path(os, data_dir, "runtime")
}

/// The stamp that records which bundle version was extracted:
/// `<runtime_root>/.bundle-version`.
pub open spec fn bundle_stamp_of(os: TargetOs, runtime_root: Seq<char>) -> Seq<char> {
    join(os, runtime_root, ".bundle-version"@)
}

/// The bundle version stamp inside the runtime directory.
pub fn bundle_stamp(os: TargetOs, runtime_root: &str) -> (p: String)
    ensures
        p@ == bundle_stamp_of(os, runtime_root@),
{
    join_path(os, runtime_root, ".bundle-version")
}

/// The per-installation session secret: `<data_dir>/secret_key`.
pub open spec fn secret_key_file_of(os: TargetOs, data_dir: Seq<char>) -> Seq<char> {
    join(os, data_dir, "secret_key"@)
}

/// The session secret's file inside the data directory.
pub fn secret_key_file(os: TargetOs, data_dir: &str) -> (p: String)
    ensures
        p@ == secret_key_file_of(os, data_dir@),
{
    join_path(os, data_dir, "secret_key")
}

/// The data side of the bundled package (rules, plugins, migrations):
/// `<runtime_root>/marlinspike`.
pub open spec fn marlinspike_root_of(os: TargetOs, runtime_root: Seq<char>) -> Seq<char> {
    join(os, runtime_root, "marlinspike"@)
}

/// The bundled package's data side inside the runtime directory.
pub fn marlinspike_root(os: TargetOs, runtime_root: &str) -> (p: String)
    ensures
        p@ == marlinspike_root_of(os, runtime_root@),
{
    join_path(os, runtime_root, "marlinspike")
}

/// The user's uploads, reports and exports: `<data_dir>/marlinspike-data`.
pub open spec fn user_data_dir_of(os: TargetOs, data_dir: Seq<char>) -> Seq<char> {
    join(os, data_dir, "marlinspike-data"@)
}

/// The directory of the user's captures and reports inside the data directory.
pub fn user_data_dir(os: TargetOs, data_dir: &str) -> (p: String)
    ensures
        p@ == user_data_dir_of(os, data_dir@),
{
    join_path(os, data_dir, "marlinspike-data")
}

/// The bundled DPI engine: `<runtime_root>/marlinspike/dpi/marlinspike-dpi`.
pub open spec fn dpi_binary_of(os: TargetOs, runtime_root: Seq<char>) -> Seq<char> {
    join(os, join(os, marlinspike_root_of(os, runtime_root), "dpi"@), "marlinspike-dpi"@)
}

/// The bundled DPI engine's executable inside the runtime directory.
pub fn dpi_binary(os: TargetOs, runtime_root: &str) -> (p: String)
    ensures
        p@ == dpi_binary_of(os, runtime_root@),
{
    let root = marlinspike_root(os, runtime_root);
    let dpi = join_path(os, root.as_str(), "dpi");
    join_path(os, dpi.as_str(), "marlinspike-dpi")
}

/// The bundled interpreter: `<runtime_root>/python/python.exe` on Windows,
/// `<runtime_root>/python/bin/python3` elsewhere.
pub open spec fn python_executable_of(os: TargetOs, runtime_root: Seq<char>) -> Seq<char> {
    let python = join(os, runtime_root, "python"@);
    match os {
        TargetOs::Windows => join(os, python, "python.exe"@),
        TargetOs::Unix => join(os, join(os, python, "bin"@), "python3"@),
    }
}

/// The path of the bundled interpreter inside the runtime directory. Whether
/// a file stands there is for the caller to find out.
pub fn python_executable(runtime_root: &str, os: TargetOs) -> (p: String)
    ensures
        p@ == python_executable_of(os, runtime_root@),
{
    let python = join_path(os, runtime_root, "python");
    match os {
        TargetOs::Windows => join_path(os, python.as_str(), "python.exe"),
        TargetOs::Unix => {
            let bin = join_path(os, python.as_str(), "bin");
            join_path(os, bin.as_str(), "python3")
        },
    }
}

/// The bundled interpreter's package directory:
/// `<runtime_root>/python/Lib/site-packages` on Windows,
/// `<runtime_root>/python/lib/python3.12/site-packages` elsewhere.
pub open spec fn site_packages_of(os: TargetOs, runtime_root: Seq<char>) -> Seq<char> {
    let python = join(os, runtime_root, "python"@);
    match os {
        TargetOs::Windows => join(os, join(os, python, "Lib"@), "site-packages"@),
        TargetOs::Unix => join(
            os,
            join(os, join(os, python, "lib"@), "python3.12"@),
            "site-packages"@,
        ),
    }
}

/// The path of the bundled interpreter's `site-packages` directory.
pub fn bundled_site_packages(runtime_root: &str, os: TargetOs) -> (p: String)
    ensures
        p@ == site_packages_of(os, runtime_root@),
{
    let python = join_path(os, runtime_root, "python");
    match os {
        TargetOs::Windows => {
            let lib = join_path(os, python.as_str(), "Lib");
            join_path(os, lib.as_str(), "site-packages")
        },
        TargetOs::Unix => {
            let lib = join_path(os, python.as_str(), "lib");
            let version = join_path(os, lib.as_str(), "python3.12");
            join_path(os, version.as_str(), "site-packages")
        },
    }
}

/// True when `p` names `dir` itself or something inside it.
pub open spec fn is_within(os: TargetOs, p: Seq<char>, dir: Seq<char>) -> bool {
    p == dir || (p.len() > dir.len() && p.subrange(0, dir.len() as int) == dir && is_separator(
        os,
        p[dir.len() as int],
    ))
}

/// The database file: `<data_dir>/marlinspike.db`, written with `/` on every
/// system, as the database address names it.
pub open spec fn database_file_of(data_dir: Seq<char>) -> Seq<char> {
    data_dir + "/marlinspike.db"@
}

/// The administrator credential that the application creates on first
/// launch: `<data_dir>/admin_password`.
pub open spec fn admin_password_file_of(os: TargetOs, data_dir: Seq<char>) -> Seq<char> {
    join(os, data_dir, "admin_password"@)
}

proof fn lemma_apart_at(os: TargetOs, p: Seq<char>, dir: Seq<char>, k: int)
    requires
        0 <= k < dir.len(),
        k < p.len(),
        p[k] != dir[k],
    ensures
        !is_within(os, p, dir),
{
    if p.len() > dir.len() && p.subrange(0, dir.len() as int) == dir {
        assert(p.subrange(0, dir.len() as int)[k] == p[k]);
    }
}

proof fn lemma_siblings_apart(os: TargetOs, base: Seq<char>, a: Seq<char>, b: Seq<char>)
    requires
        a.len() > 0,
        b.len() > 0,
        a[0] != b[0],
    ensures
        !is_within(os, join(os, base, b), join(os, base, a)),
{
    let stem = join_stem(os, base);
    let pa = join(os, base, a);
    let pb = join(os, base, b);
    let k = stem.len() as int;
    assert(pa[k] == a[0]);
    assert(pb[k] == b[0]);
    lemma_apart_at(os, pb, pa, k);
}

/// Replacing the extracted runtime leaves the user's files alone: neither
/// the session secret, the directory of captures and reports nor the
/// administrator credential lies inside the runtime directory that a new
/// bundle version deletes.
pub proof fn lemma_runtime_apart_from_user_files(os: TargetOs, data_dir: Seq<char>)
    ensures
        !is_within(os, secret_key_file_of(os, data_dir), runtime_root_of(os, data_dir)),
        !is_within(os, user_data_dir_of(os, data_dir), runtime_root_of(os, data_dir)),
        !is_within(os, admin_password_file_of(os, data_dir), runtime_root_of(os, data_dir)),
{
    reveal_strlit("runtime");
    reveal_strlit("secret_key");
    reveal_strlit("marlinspike-data");
    reveal_strlit("admin_password");
    lemma_siblings_apart(os, data_dir, "runtime"@, "secret_key"@);
    lemma_siblings_apart(os, data_dir, "runtime"@, "marlinspike-data"@);
    lemma_siblings_apart(os, data_dir, "runtime"@, "admin_password"@);
}

/// The database file also lies outside the runtime directory, for every
/// data directory that is not a Windows verbatim (`\\?\`) path. (In a
/// verbatim path `/` separates nothing, so `<data_dir>/marlinspike.db` does
/// not name a file inside the data directory there.)
pub proof fn lemma_runtime_apart_from_database(os: TargetOs, data_dir: Seq<char>)
    requires
        !(os == TargetOs::Windows && is_verbatim(data_dir)),
    ensures
        !is_within(os, database_file_of(data_dir), runtime_root_of(os, data_dir)),
{
    reveal_strlit("runtime");
    reveal_strlit("/marlinspike.db");
    let rt = runtime_root_of(os, data_dir);
    let db = database_file_of(data_dir);
    let n = data_dir.len() as int;
    assert(db[n] == '/');
    if data_dir.len() == 0 || is_separator(os, data_dir.last()) || (os == TargetOs::Windows
        && is_drive_only(data_dir)) {
        assert(rt[n] == 'r');
        lemma_apart_at(os, db, rt, n);
    } else if os == TargetOs::Windows {
        assert(rt[n] == '\\');
        lemma_apart_at(os, db, rt, n);
    } else {
        assert(rt[n + 1] == 'r');
        assert(db[n + 1] == 'm');
        lemma_apart_at(os, db, rt, n + 1);
    }
}

/// A bare Windows drive is extended without a separator (`C:` and `python`
/// give `C:python`), and an ordinary base that does not end with a
/// separator gets exactly one separator before the name.
pub proof fn lemma_join_separator(os: TargetOs, base: Seq<char>, part: Seq<char>)
    ensures
        os == TargetOs::Windows && is_drive_only(base) ==> join(os, base, part) == base + part,
        base.len() > 0 && is_separator(os, base.last()) && !(os == TargetOs::Windows && is_verbatim(base))
            ==> join(os, base, part) == base + part,
        base.len() > 0 && !is_separator(os, base.last()) && !(os == TargetOs::Windows && (
        is_verbatim(base) || is_drive_only(base))) ==> join(os, base, part) == base + seq![
            separator(os),
        ] + part,
{
    if os == TargetOs::Windows && is_drive_only(base) {
        assert(!is_verbatim(base));
    }
    assert(base.push(separator(os)) + part =~= base + seq![separator(os)] + part);
}

proof fn lemma_extend_plain(os: TargetOs, base: Seq<char>, part: Seq<char>)
    requires
        base.len() >= 4,
        !(os == TargetOs::Windows && is_verbatim(base)),
        !is_separator(os, base.last()),
        part.len() > 0,
        !is_separator(os, part.last()),
    ensures
        join(os, base, part) == base + seq![separator(os)] + part,
        join(os, base, part).len() >= 4,
        !(os == TargetOs::Windows && is_verbatim(join(os, base, part))),
        !is_separator(os, join(os, base, part).last()),
{
    lemma_join_separator(os, base, part);
    let j = join(os, base, part);
    assert(j[0] == base[0] && j[1] == base[1] && j[2] == base[2] && j[3] == base[3]);
    assert(j.last() == part.last());
}

/// Under an ordinary root (at least four characters, not ending with a
/// separator, not a Windows verbatim path), the layout is the root followed
/// by its components, one separator of the system before each: the runtime,
/// stamp, secret and user data directly under the data directory; the
/// project root, DPI engine, interpreter and packages under the runtime.
pub proof fn lemma_layout_under_ordinary_root(os: TargetOs, root: Seq<char>)
    requires
        root.len() >= 4,
        !is_separator(os, root.last()),
        !(os == TargetOs::Windows && is_verbatim(root)),
    ensures
        ({
            let sep = seq![separator(os)];
            &&& runtime_root_of(os, root) == root + sep + "runtime"@
            &&& bundle_stamp_of(os, root) == root + sep + ".bundle-version"@
            &&& secret_key_file_of(os, root) == root + sep + "secret_key"@
            &&& user_data_dir_of(os, root) == root + sep + "marlinspike-data"@
            &&& marlinspike_root_of(os, root) == root + sep + "marlinspike"@
            &&& dpi_binary_of(os, root) == root + sep + "marlinspike"@ + sep + "dpi"@ + sep
                + "marlinspike-dpi"@
            &&& python_executable_of(os, root) == (if os == TargetOs::Windows {
                root + sep + "python"@ + sep + "python.exe"@
            } else {
                root + sep + "python"@ + sep + "bin"@ + sep + "python3"@
            })
            &&& site_packages_of(os, root) == (if os == TargetOs::Windows {
                root + sep + "python"@ + sep + "Lib"@ + sep + "site-packages"@
            } else {
                root + sep + "python"@ + sep + "lib"@ + sep + "python3.12"@ + sep
                    + "site-packages"@
            })
        }),
{
    reveal_strlit("runtime");
    reveal_strlit(".bundle-version");
    reveal_strlit("secret_key");
    reveal_strlit("marlinspike-data");
    reveal_strlit("marlinspike");
    reveal_strlit("dpi");
    reveal_strlit("marlinspike-dpi");
    reveal_strlit("python");
    reveal_strlit("python.exe");
    reveal_strlit("bin");
    reveal_strlit("python3");
    reveal_strlit("Lib");
    reveal_strlit("lib");
    reveal_strlit("python3.12");
    reveal_strlit("site-packages");
    let sep = seq![separator(os)];
    lemma_join_separator(os, root, "runtime"@);
    lemma_join_separator(os, root, ".bundle-version"@);
    lemma_join_separator(os, root, "secret_key"@);
    lemma_join_separator(os, root, "marlinspike-data"@);
    lemma_extend_plain(os, root, "marlinspike"@);
    let ms = root + sep + "marlinspike"@;
    lemma_extend_plain(os, ms, "dpi"@);
    let dpi = ms + sep + "dpi"@;
    lemma_join_separator(os, dpi, "marlinspike-dpi"@);
    lemma_extend_plain(os, root, "python"@);
    let py = root + sep + "python"@;
    lemma_join_separator(os, py, "python.exe"@);
    lemma_extend_plain(os, py, "bin"@);
    lemma_join_separator(os, py + sep + "bin"@, "python3"@);
    lemma_extend_plain(os, py, "Lib"@);
    lemma_join_separator(os, py + sep + "Lib"@, "site-packages"@);
    lemma_extend_plain(os, py, "lib"@);
    lemma_extend_plain(os, py + sep + "lib"@, "python3.12"@);
    lemma_join_separator(os, py + sep + "lib"@ + sep + "python3.12"@, "site-packages"@);
}

} // verus!
