//! Preparing the Tally ODBC driver for Wine: Wine loads only drivers whose
//! path ends in `.dll`, while Tally registers `TallyWin.Dat`. The fix copies
//! the `.dat` to a sibling `.dll` when needed and points the driver and the
//! DSN at it. The registry and the file system are reached through a state
//! machine: it says which read, check, copy or write to make next and is
//! told what came of it.

use vstd::prelude::*;
use crate::text::{ascii_fold, eq_ignore_ascii_case, eq_ignore_ascii_case_str};

verus! {

/// Why the driver could not be prepared.
#[derive(Debug)]
pub enum DriverFixError {
    Message(String),
}

impl DriverFixError {
    /// An error with this message.
    pub fn from_msg(msg: String) -> (r: Self)
        ensures
            r == DriverFixError::Message(msg),
    {
        DriverFixError::Message(msg)
    }

    /// The error's message.
    pub fn message(&self) -> (r: String)
        ensures
            r@ == self.message_view(),
    {
        match self {
            DriverFixError::Message(m) => m.clone(),
        }
    }

    /// The view of the error's message.
    pub open spec fn message_view(&self) -> Seq<char> {
        match self {
            DriverFixError::Message(m) => m@,
        }
    }
}

// ---------------------------------------------------------------------------
// Paths, through `std::path`.

/// What holds of `Path::extension`'s answer on every platform: the extension
/// holds no `.`, and it stands in the path right after a `.`.
pub open spec fn extension_facts(path: Seq<char>, ext: Option<Seq<char>>) -> bool {
    ext matches Some(e) ==> {
        &&& !e.contains('.')
        &&& exists|i: int|
            0 <= i && i + 1 + e.len() <= path.len() && #[trigger] path[i] == '.' && path.subrange(
                i + 1,
                i + 1 + e.len(),
            ) == e
    }
}

/// What holds of `Path::with_extension(ext)` (for a non-empty `ext`) on
/// every platform: the result ends in `.` and `ext`; or, when no file stem
/// is found, it is the path or the part of it up to its extension's `.`, and
/// then (having no file name) it has no [`portable_name`].
pub open spec fn sibling_facts(path: Seq<char>, ext: Seq<char>, sibling: Seq<char>) -> bool {
    ||| ends_with_extension(sibling, ext)
    ||| !portable_name(sibling) && sibling.len() <= path.len() && sibling == path.subrange(
        0,
        sibling.len() as int,
    )
}

/// Whether a path is a bare file name on every platform: it is not empty,
/// not `.` or `..`, and holds no separator (`/`, and `\` on Windows) and no
/// `:` (which could start a Windows prefix). Such a path has one component,
/// its file name, which is the whole path.
pub open spec fn plain_file_name(path: Seq<char>) -> bool {
    &&& path.len() > 0
    &&& !path.contains('/')
    &&& !path.contains('\\')
    &&& !path.contains(':')
    &&& path != "."@
    &&& path != ".."@
}

/// The index of the last `c` in `s`, or -1 when there is none.
pub open spec fn last_index(s: Seq<char>, c: char) -> int
    decreases s.len(),
{
    if s.len() == 0 {
        -1
    } else if s.last() == c {
        s.len() - 1
    } else {
        last_index(s.drop_last(), c)
    }
}

/// The extension of a file name, as `Path::extension` documents it: none
/// when the name has no `.`, or when its only `.` is its first character;
/// otherwise the part after the final `.`.
pub open spec fn file_name_extension(name: Seq<char>) -> Option<Seq<char>> {
    let i = last_index(name, '.');
    if i <= 0 {
        None
    } else {
        Some(name.subrange(i + 1, name.len() as int))
    }
}

/// Whether a character separates path components on some platform: `/`
/// everywhere, `\` on Windows.
pub open spec fn is_separator(c: char) -> bool {
    c == '/' || c == '\\'
}

/// The index of the last separator in `s`, or -1 when there is none.
pub open spec fn last_separator(s: Seq<char>) -> int
    decreases s.len(),
{
    if s.len() == 0 {
        -1
    } else if is_separator(s.last()) {
        s.len() - 1
    } else {
        last_separator(s.drop_last())
    }
}

/// The number of separators in `s`.
pub open spec fn separator_count(s: Seq<char>) -> nat
    decreases s.len(),
{
    if s.len() == 0 {
        0
    } else {
        separator_count(s.drop_last()) + if is_separator(s.last()) {
            1nat
        } else {
            0nat
        }
    }
}

/// Whether `s` has no separator and its second character is `:`: on Windows
/// its first two characters may form a drive prefix (as in `C:TallyWin.Dat`).
pub open spec fn drive_relative(s: Seq<char>) -> bool {
    last_separator(s) < 0 && s.len() >= 2 && s[1] == ':'
}

/// Where the file name of `s` starts: after its last separator, or after a
/// drive prefix.
pub open spec fn name_start(s: Seq<char>) -> int {
    if drive_relative(s) {
        2
    } else {
        last_separator(s) + 1
    }
}

/// The part of `s` that every platform takes as its file name, when it has
/// one.
pub open spec fn file_part(s: Seq<char>) -> Seq<char> {
    s.subrange(name_start(s), s.len() as int)
}

/// Whether a path that starts with two separators goes on past what Windows
/// may read as a prefix: it is no `\\?\` (verbatim) or `\\.\` (device) path,
/// and it has at least four separators, so that its last part lies beyond
/// the server and share of a UNC prefix.
pub open spec fn past_unc_prefix(s: Seq<char>) -> bool {
    &&& s.len() >= 3
    &&& s[2] != '?'
    &&& s[2] != '.'
    &&& separator_count(s) >= 4
}

/// Whether every platform reads the same file name and extension in `s`: a
/// path starting with two separators goes [`past_unc_prefix`]; its
/// [`file_part`] does not start with `..`, and has a `.` after its first
/// character. Then on every platform the file name is the [`file_part`], the
/// extension is what follows its final `.`, and the file stem what comes
/// before it.
pub open spec fn portable_name(s: Seq<char>) -> bool {
    let f = file_part(s);
    &&& (s.len() >= 2 && is_separator(s[0]) && is_separator(s[1])) ==> past_unc_prefix(s)
    &&& !(f.len() >= 2 && f[0] == '.' && f[1] == '.')
    &&& last_index(f, '.') > 0
}

/// The index in `s` of the `.` that starts the extension of its file name.
pub open spec fn extension_dot(s: Seq<char>) -> int {
    name_start(s) + last_index(file_part(s), '.')
}

/// The extension of a path with a [`portable_name`].
pub open spec fn portable_extension(s: Seq<char>) -> Seq<char> {
    s.subrange(extension_dot(s) + 1, s.len() as int)
}

/// A path with a [`portable_name`] with its extension replaced by `ext`.
pub open spec fn replace_extension(s: Seq<char>, ext: Seq<char>) -> Seq<char> {
    s.subrange(0, extension_dot(s)) + seq!['.'] + ext
}

/// Whether a path is relative on every platform: it does not start with a
/// separator and holds no `:`, so no platform reads a root or a prefix in it.
pub open spec fn relative_everywhere(s: Seq<char>) -> bool {
    &&& !(s.len() > 0 && is_separator(s[0]))
    &&& !s.contains(':')
}

/// Whether `s` ends with `.` followed by `ext`.
pub open spec fn ends_with_extension(s: Seq<char>, ext: Seq<char>) -> bool {
    &&& s.len() > ext.len()
    &&& s[s.len() - ext.len() - 1] == '.'
    &&& s.subrange(s.len() - ext.len(), s.len() as int) == ext
}

proof fn lemma_last_index_bounds(s: Seq<char>, c: char)
    ensures
        -1 <= last_index(s, c) < s.len(),
        last_index(s, c) >= 0 ==> s[last_index(s, c)] == c,
        forall|j: int| last_index(s, c) < j < s.len() ==> s[j] != c,
    decreases s.len(),
{
    if s.len() > 0 && s.last() != c {
        lemma_last_index_bounds(s.drop_last(), c);
        assert forall|j: int| last_index(s, c) < j < s.len() implies s[j] != c by {
            if j < s.len() - 1 {
                assert(s.drop_last()[j] == s[j]);
            }
        }
    }
}

proof fn lemma_last_separator_bounds(s: Seq<char>)
    ensures
        -1 <= last_separator(s) < s.len(),
        forall|j: int| last_separator(s) < j < s.len() ==> !is_separator(s[j]),
    decreases s.len(),
{
    if s.len() > 0 && !is_separator(s.last()) {
        lemma_last_separator_bounds(s.drop_last());
        assert forall|j: int| last_separator(s) < j < s.len() implies !is_separator(s[j]) by {
            if j < s.len() - 1 {
                assert(s.drop_last()[j] == s[j]);
            }
        }
    }
}

proof fn lemma_last_index_at(s: Seq<char>, c: char, k: int)
    requires
        0 <= k < s.len(),
        s[k] == c,
        forall|j: int| k < j < s.len() ==> s[j] != c,
    ensures
        last_index(s, c) == k,
    decreases s.len(),
{
    if s.last() != c {
        lemma_last_index_at(s.drop_last(), c, k);
    }
}

proof fn lemma_last_separator_before(s: Seq<char>, d: int)
    requires
        0 <= d <= s.len(),
        forall|j: int| d <= j < s.len() ==> !is_separator(s[j]),
    ensures
        last_separator(s) < d,
    decreases s.len(),
{
    if s.len() > 0 && !is_separator(s.last()) {
        lemma_last_separator_before(s.drop_last(), if d < s.len() { d } else { d - 1 });
    }
}

/// A path that ends with `.` and an extension free of `.` and separators
/// has that extension, and replacing it keeps everything before the `.`.
proof fn lemma_ends_with_extension(s: Seq<char>, ext: Seq<char>)
    requires
        ends_with_extension(s, ext),
        !ext.contains('.'),
        !ext.contains('/'),
        !ext.contains('\\'),
        !ext.contains(':'),
    ensures
        extension_dot(s) == s.len() - ext.len() - 1,
        portable_extension(s) == ext,
{
    let d = s.len() - ext.len() - 1;
    assert forall|j: int| d <= j < s.len() implies !is_separator(s[j]) by {
        if j > d {
            assert(ext[j - d - 1] == s[j]);
        }
    }
    lemma_last_separator_before(s, d);
    lemma_last_separator_bounds(s);
    let n = name_start(s);
    assert(n <= d) by {
        if drive_relative(s) && d == 0 {
            assert(s[1] == ext[0]);
        }
    }
    let f = file_part(s);
    assert forall|j: int| d - n < j < f.len() implies f[j] != '.' by {
        assert(f[j] == s[n + j]);
        assert(ext[n + j - d - 1] == s[n + j]);
    }
    lemma_last_index_at(f, '.', d - n);
    assert(portable_extension(s) =~= ext);
}

/// Replacing the extension of a path gives a path that ends with `.` and
/// the new extension.
proof fn lemma_replace_extension_ends(s: Seq<char>, ext: Seq<char>)
    requires
        0 <= extension_dot(s) <= s.len(),
    ensures
        ends_with_extension(replace_extension(s, ext), ext),
{
    let r = replace_extension(s, ext);
    assert(r.subrange(r.len() - ext.len(), r.len() as int) =~= ext);
}

/// In a path with a [`portable_name`], the `.` before the extension lies
/// within the path.
proof fn lemma_extension_dot_bounds(s: Seq<char>)
    requires
        portable_name(s),
    ensures
        0 < extension_dot(s) < s.len(),
{
    lemma_last_separator_bounds(s);
    lemma_last_index_bounds(file_part(s), '.');
}

/// Whether two extensions agree up to ASCII case: `dll` and `dat` do not.
proof fn lemma_dll_is_not_dat()
    ensures
        !eq_ignore_ascii_case("dll"@, "dat"@),
{
    reveal_strlit("dll");
    reveal_strlit("dat");
    assert(ascii_fold("dll"@[1]) != ascii_fold("dat"@[1]));
}

/// The extension of a path, by `Path::extension`, as a string. Which part of
/// the path is its file name depends on the platform (`\` separates only on
/// Windows, where prefixes such as `\\server\share` also count), so the
/// contract gives the extension itself for a bare file name and for a path
/// with a [`portable_name`], and for other paths only what holds on every
/// platform.
#[verifier::external_body]
fn path_extension(path: &str) -> (r: Option<String>)
    ensures
        extension_facts(
            path@,
            match r {
                Some(e) => Some(e@),
                None => None,
            },
        ),
        plain_file_name(path@) ==> match r {
            Some(e) => Some(e@),
            None => None,
        } == file_name_extension(path@),
        portable_name(path@) ==> match r {
            Some(e) => Some(e@),
            None => None,
        } == Some(portable_extension(path@)),
{
    match std::path::Path::new(path).extension() {
        Some(e) => Some(e.to_string_lossy().into_owned()),
        None => None,
    }
}

/// The path with its extension replaced, by `Path::with_extension`, as a
/// string. For a path with a [`portable_name`] the result is the part before
/// the final `.` of its last part, then `.` and `ext`; for a bare file name
/// without an extension it is the name, then `.` and `ext`. Otherwise the
/// contract states what holds on every platform.
#[verifier::external_body]
fn path_with_extension(path: &str, ext: &str) -> (r: String)
    requires
        ext@.len() > 0,
        !ext@.contains('/'),
        !ext@.contains('\\'),
    ensures
        sibling_facts(path@, ext@, r@),
        portable_name(path@) ==> r@ == replace_extension(path@, ext@),
        plain_file_name(path@) && last_index(path@, '.') <= 0 ==> r@ == path@ + seq!['.'] + ext@,
{
    std::path::Path::new(path).with_extension(ext).to_string_lossy().into_owned()
}

/// Whether a path is absolute, by `Path::is_absolute`. What makes a path
/// absolute depends on the platform (a leading `/` on Unix, a prefix and a
/// root on Windows); the contract states what holds everywhere: a path that
/// does not start with a separator and holds no `:` is not absolute.
#[verifier::external_body]
fn path_is_absolute(path: &str) -> (r: bool)
    ensures
        r ==> path@.len() > 0,
        relative_everywhere(path@) ==> !r,
{
    std::path::Path::new(path).is_absolute()
}

/// Whether an extension is `wanted`, up to ASCII case.
pub open spec fn extension_is(ext: Option<Seq<char>>, wanted: Seq<char>) -> bool {
    ext matches Some(e) && eq_ignore_ascii_case(e, wanted)
}

/// Whether an extension is `wanted`, up to ASCII case.
pub fn extension_matches(ext: Option<&str>, wanted: &str) -> (r: bool)
    ensures
        r == extension_is(
            match ext {
                Some(e) => Some(e@),
                None => None,
            },
            wanted@,
        ),
{
    match ext {
        Some(e) => eq_ignore_ascii_case_str(e, wanted),
        None => false,
    }
}

/// What a path's ending says when its extension is `wanted` (of three
/// characters): the path has `.` followed by `wanted`, up to ASCII case.
pub open spec fn has_dot_extension(path: Seq<char>, wanted: Seq<char>) -> bool {
    exists|i: int|
        0 <= i && i + 1 + wanted.len() <= path.len() && #[trigger] path[i] == '.'
            && eq_ignore_ascii_case(path.subrange(i + 1, i + 1 + wanted.len()), wanted)
}

proof fn lemma_extension_in_path(path: Seq<char>, e: Seq<char>, wanted: Seq<char>)
    requires
        extension_facts(path, Some(e)),
        eq_ignore_ascii_case(e, wanted),
    ensures
        has_dot_extension(path, wanted),
{
    let i = choose|i: int|
        0 <= i && i + 1 + e.len() <= path.len() && #[trigger] path[i] == '.' && path.subrange(
            i + 1,
            i + 1 + e.len(),
        ) == e;
    assert(path[i] == '.');
}

/// Whether the path's extension is `dll`, up to ASCII case.
pub fn is_dll_path(value: &str) -> (r: bool)
    ensures
        r ==> has_dot_extension(value@, "dll"@),
        plain_file_name(value@) ==> r == extension_is(file_name_extension(value@), "dll"@),
        portable_name(value@) ==> r == extension_is(Some(portable_extension(value@)), "dll"@),
{
    let ext = path_extension(value);
    let r = match &ext {
        Some(e) => extension_matches(Some(e.as_str()), "dll"),
        None => extension_matches(None, "dll"),
    };
    proof {
        if r {
            lemma_extension_in_path(value@, ext.unwrap()@, "dll"@);
        }
    }
    r
}

/// Whether the path's extension is `dat`, up to ASCII case.
pub fn is_dat_path(value: &str) -> (r: bool)
    ensures
        r ==> has_dot_extension(value@, "dat"@),
        plain_file_name(value@) ==> r == extension_is(file_name_extension(value@), "dat"@),
        portable_name(value@) ==> r == extension_is(Some(portable_extension(value@)), "dat"@),
{
    let ext = path_extension(value);
    let r = match &ext {
        Some(e) => extension_matches(Some(e.as_str()), "dat"),
        None => extension_matches(None, "dat"),
    };
    proof {
        if r {
            lemma_extension_in_path(value@, ext.unwrap()@, "dat"@);
        }
    }
    r
}

/// The `.dll` that sits beside a `.dat` driver file: the path with its
/// extension replaced by `dll`.
pub fn dll_path_for_dat(dat: &str) -> (r: String)
    ensures
        sibling_facts(dat@, "dll"@, r@),
        portable_name(dat@) ==> r@ == replace_extension(dat@, "dll"@),
        plain_file_name(dat@) && last_index(dat@, '.') <= 0 ==> r@ == dat@ + ".dll"@,
{
    proof {
        reveal_strlit("dll");
        reveal_strlit(".dll");
        assert(dat@ + seq!['.'] + "dll"@ =~= dat@ + ".dll"@);
    }
    path_with_extension(dat, "dll")
}

/// Whether the `.dat` must be copied over an existing `.dll`, given the two
/// files' sizes as far as they could be read: when either size is unknown,
/// or the sizes differ.
pub open spec fn spec_dat_is_newer(dat_len: Option<u64>, dll_len: Option<u64>) -> bool {
    match (dat_len, dll_len) {
        (Some(a), Some(b)) => a != b,
        _ => true,
    }
}

/// Whether the `.dat` must be copied over an existing `.dll`.
pub fn dat_is_newer(dat_len: Option<u64>, dll_len: Option<u64>) -> (r: bool)
    ensures
        r == spec_dat_is_newer(dat_len, dll_len),
        dat_len is None || dll_len is None ==> r,
        (dat_len, dll_len) matches (Some(a), Some(b)) ==> (r <==> a != b),
{
    match (dat_len, dll_len) {
        (Some(a), Some(b)) => a != b,
        _ => true,
    }
}

// ---------------------------------------------------------------------------
// Registry names and file locations.

/// The registry key of the Tally ODBC driver's installation.
pub open spec fn install_key() -> Seq<char> {
    "Software\\ODBC\\ODBCINST.INI\\Tally ODBC Driver64"@
}

/// The registry key that lists the installed ODBC drivers.
pub open spec fn drivers_key() -> Seq<char> {
    "Software\\ODBC\\ODBCINST.INI\\ODBC Drivers"@
}

/// The name under which the Tally driver is installed.
pub open spec fn driver_name() -> Seq<char> {
    "Tally ODBC Driver64"@
}

/// The registry key of a DSN.
pub open spec fn dsn_key(dsn: Seq<char>) -> Seq<char> {
    "Software\\ODBC\\ODBC.INI\\"@ + dsn
}

/// Where Tally installs `TallyWin.Dat`, in the order they are searched.
pub open spec fn search_dat_paths() -> Seq<Seq<char>> {
    seq![
        "C:\\Program Files\\TallyPrime\\TallyWin.Dat"@,
        "C:\\Program Files\\TallyPrimeEL\\TallyWin.Dat"@,
        "C:\\Program Files (x86)\\TallyPrime\\TallyWin.Dat"@,
        "C:\\Program Files (x86)\\TallyPrimeEL\\TallyWin.Dat"@,
    ]
}

fn install_key_string() -> (r: String)
    ensures
        r@ == install_key(),
{
    String::from_str("Software\\ODBC\\ODBCINST.INI\\Tally ODBC Driver64")
}

fn dsn_key_string(dsn: &String) -> (r: String)
    ensures
        r@ == dsn_key(dsn@),
{
    String::from_str("Software\\ODBC\\ODBC.INI\\").concat(dsn.as_str())
}

fn search_dat_path(i: usize) -> (r: String)
    requires
        i < 4,
    ensures
        r@ == search_dat_paths()[i as int],
{
    if i == 0 {
        String::from_str("C:\\Program Files\\TallyPrime\\TallyWin.Dat")
    } else if i == 1 {
        String::from_str("C:\\Program Files\\TallyPrimeEL\\TallyWin.Dat")
    } else if i == 2 {
        String::from_str("C:\\Program Files (x86)\\TallyPrime\\TallyWin.Dat")
    } else {
        String::from_str("C:\\Program Files (x86)\\TallyPrimeEL\\TallyWin.Dat")
    }
}

// ---------------------------------------------------------------------------
// Messages.

/// How a registry write failed: opening (or creating) the key, or setting
/// the value; each with the system's message.
#[derive(Debug)]
pub enum RegistryFailure {
    OpenKey(String),
    SetValue(String),
}

/// The model of a [`RegistryFailure`].
pub enum FailureModel {
    OpenKey(Seq<char>),
    SetValue(Seq<char>),
}

impl View for RegistryFailure {
    type V = FailureModel;

    open spec fn view(&self) -> FailureModel {
        match self {
            RegistryFailure::OpenKey(t) => FailureModel::OpenKey(t@),
            RegistryFailure::SetValue(t) => FailureModel::SetValue(t@),
        }
    }
}

/// The message of a failed registry write of `name` under `key`.
pub open spec fn registry_failure_text(key: Seq<char>, name: Seq<char>, f: FailureModel) -> Seq<char> {
    match f {
        FailureModel::OpenKey(t) => "registry "@ + key + ": "@ + t,
        FailureModel::SetValue(t) => "registry "@ + key + "\\"@ + name + ": "@ + t,
    }
}

/// The message of a failed copy.
pub open spec fn copy_failure_text(dat: Seq<char>, dll: Seq<char>, t: Seq<char>) -> Seq<char> {
    "failed to copy "@ + dat + " to "@ + dll + ": "@ + t
}

/// The message when no `TallyWin.Dat` is found.
pub open spec fn not_found_text() -> Seq<char> {
    "could not find TallyWin.Dat next to the ODBC driver or in Program Files"@
}

/// The note when only the DSN had to be pointed at the registered `.dll`.
pub open spec fn pointed_text(dsn: Seq<char>, dll: Seq<char>) -> Seq<char> {
    "pointed DSN "@ + dsn + " at "@ + dll
}

/// The note when the `.dll` was prepared and registered.
pub open spec fn prepared_text(dll: Seq<char>) -> Seq<char> {
    "prepared Wine-compatible ODBC driver at "@ + dll
}

fn registry_failure_message(key: &str, name: &str, f: RegistryFailure) -> (r: DriverFixError)
    ensures
        r.message_view() == registry_failure_text(key@, name@, f@),
{
    match f {
        RegistryFailure::OpenKey(t) => DriverFixError::from_msg(
            String::from_str("registry ").concat(key).concat(": ").concat(t.as_str()),
        ),
        RegistryFailure::SetValue(t) => DriverFixError::from_msg(
            String::from_str("registry ").concat(key).concat("\\").concat(name).concat(": ").concat(
                t.as_str(),
            ),
        ),
    }
}

// ---------------------------------------------------------------------------
// The state machine.

/// What came of the last request.
#[derive(Debug)]
pub enum DriverEvent {
    /// The registry value, or `None` when it could not be read.
    Value(Option<String>),
    /// Whether the path is an existing file.
    IsFile(bool),
    /// The sizes of the `.dat` and the `.dll`, each `None` when it could not
    /// be read.
    Lengths { dat: Option<u64>, dll: Option<u64> },
    /// The copy succeeded, or failed with this message.
    Copied(Result<(), String>),
    /// The registry write succeeded, or failed.
    Written(Result<(), RegistryFailure>),
    /// The driver's name was registered (whatever came of it).
    Registered,
}

/// The model of a [`DriverEvent`].
pub enum DriverEventModel {
    Value(Option<Seq<char>>),
    IsFile(bool),
    Lengths(Option<u64>, Option<u64>),
    Copied(Result<(), Seq<char>>),
    Written(Result<(), FailureModel>),
    Registered,
}

impl View for DriverEvent {
    type V = DriverEventModel;

    open spec fn view(&self) -> DriverEventModel {
        match self {
            DriverEvent::Value(v) => DriverEventModel::Value(
                match v {
                    Some(s) => Some(s@),
                    None => None,
                },
            ),
            DriverEvent::IsFile(b) => DriverEventModel::IsFile(*b),
            DriverEvent::Lengths { dat, dll } => DriverEventModel::Lengths(*dat, *dll),
            DriverEvent::Copied(r) => DriverEventModel::Copied(
                match r {
                    Ok(()) => Ok(()),
                    Err(t) => Err(t@),
                },
            ),
            DriverEvent::Written(r) => DriverEventModel::Written(
                match r {
                    Ok(()) => Ok(()),
                    Err(f) => Err(f@),
                },
            ),
            DriverEvent::Registered => DriverEventModel::Registered,
        }
    }
}

/// What the fix asks for next, or its outcome.
#[derive(Debug)]
pub enum DriverAction {
    /// Read the string value `name` under the machine-wide registry key `key`.
    ReadValue { key: String, name: String },
    /// Tell whether the path is an existing file.
    CheckFile { path: String },
    /// Read the sizes of the two files.
    ReadLengths { dat: String, dll: String },
    /// Copy the file `from` over `to`.
    Copy { from: String, to: String },
    /// Write the string `value` as `name` under `key`, creating the key.
    WriteValue { key: String, name: String, value: String },
    /// Create `key` and set `name` to `value` in it; failures are ignored.
    RegisterDriver { key: String, name: String, value: String },
    /// The outcome: a note to show, no note, or an error.
    Finish(Result<Option<String>, DriverFixError>),
}

/// The model of a [`DriverAction`].
pub enum DriverActionModel {
    ReadValue(Seq<char>, Seq<char>),
    CheckFile(Seq<char>),
    ReadLengths(Seq<char>, Seq<char>),
    Copy(Seq<char>, Seq<char>),
    WriteValue(Seq<char>, Seq<char>, Seq<char>),
    RegisterDriver(Seq<char>, Seq<char>, Seq<char>),
    Finish(Result<Option<Seq<char>>, Seq<char>>),
}

impl View for DriverAction {
    type V = DriverActionModel;

    open spec fn view(&self) -> DriverActionModel {
        match self {
            DriverAction::ReadValue { key, name } => DriverActionModel::ReadValue(key@, name@),
            DriverAction::CheckFile { path } => DriverActionModel::CheckFile(path@),
            DriverAction::ReadLengths { dat, dll } => DriverActionModel::ReadLengths(dat@, dll@),
            DriverAction::Copy { from, to } => DriverActionModel::Copy(from@, to@),
            DriverAction::WriteValue { key, name, value } => DriverActionModel::WriteValue(
                key@,
                name@,
                value@,
            ),
            DriverAction::RegisterDriver { key, name, value } => DriverActionModel::RegisterDriver(
                key@,
                name@,
                value@,
            ),
            DriverAction::Finish(r) => DriverActionModel::Finish(
                match r {
                    Ok(Some(note)) => Ok(Some(note@)),
                    Ok(None) => Ok(None),
                    Err(e) => Err(e.message_view()),
                },
            ),
        }
    }
}

/// Where the fix stands.
#[derive(Debug, Clone, Copy, PartialEq, Eq, Structural)]
pub enum FixStage {
    /// Reading the installed driver's path.
    ReadInstall,
    /// Reading the DSN's `driver` value.
    ReadDsnLower,
    /// Reading the DSN's `Driver` value, `driver` being absent.
    ReadDsnUpper,
    /// Checking that the registered `.dll` exists.
    CheckRegistered,
    /// Pointing the DSN at the registered `.dll`.
    PointDsn,
    /// Checking a registered path for a `.dat` that exists.
    FirstCheck,
    /// Checking a registered path for a `.dll` that exists.
    SecondCheck,
    /// Checking the `.dat` beside a registered `.dll`.
    SiblingCheck,
    /// Searching the install locations for a relative `.dat` value.
    CandidateSearch,
    /// Searching the install locations, no registered path having led to a `.dat`.
    FallbackSearch,
    /// Checking whether the `.dll` exists.
    CheckDll,
    /// Comparing the sizes of the `.dat` and the `.dll`.
    ReadLengths,
    /// Copying the `.dat` to the `.dll`.
    Copying,
    /// Pointing the installed driver at the `.dll`.
    WriteInstall,
    /// Pointing the DSN at the `.dll`.
    WriteDsn,
    /// Listing the driver as installed.
    Registering,
    /// Finished.
    Done,
}

/// A registered driver path with what `std::path` says of it: its
/// extension, whether it is absolute, and the path with extension `dat`.
pub struct PathModel {
    pub path: Seq<char>,
    pub extension: Option<Seq<char>>,
    pub absolute: bool,
    pub dat_sibling: Seq<char>,
}

/// What holds of every [`PathModel`] that the fix records.
pub open spec fn path_facts(p: PathModel) -> bool {
    &&& extension_facts(p.path, p.extension)
    &&& plain_file_name(p.path) ==> p.extension == file_name_extension(p.path)
    &&& portable_name(p.path) ==> p.extension == Some(portable_extension(p.path))
    &&& p.absolute ==> p.path.len() > 0
    &&& relative_everywhere(p.path) ==> !p.absolute
    &&& sibling_facts(p.path, "dat"@, p.dat_sibling)
    &&& portable_name(p.path) ==> p.dat_sibling == replace_extension(p.path, "dat"@)
}

/// What holds of the `.dat` that the fix chooses: when every platform reads
/// its extension, the extension is `dat` (up to ASCII case).
pub open spec fn dat_facts(dat: Seq<char>) -> bool {
    portable_name(dat) ==> extension_is(Some(portable_extension(dat)), "dat"@)
}

/// What holds of the `.dll` beside the chosen `.dat`: what
/// `Path::with_extension` gives on every platform, and, when every platform
/// reads the `.dat`'s extension, the `.dat` with its extension replaced by
/// `dll`.
pub open spec fn dll_facts(dat: Seq<char>, dll: Seq<char>) -> bool {
    &&& sibling_facts(dat, "dll"@, dll)
    &&& portable_name(dat) ==> dll == replace_extension(dat, "dll"@)
}

/// Whether the path's extension is `dll`, up to ASCII case.
pub open spec fn names_dll(p: PathModel) -> bool {
    extension_is(p.extension, "dll"@)
}

/// Whether the path's extension is `dat`, up to ASCII case.
pub open spec fn names_dat(p: PathModel) -> bool {
    extension_is(p.extension, "dat"@)
}

/// The model of the fix. `inst` and `dsn_driver` are the registered driver
/// paths of the installation and of the DSN; `candidate` says which of them
/// is being followed to a `.dat` (0 or 1); `search` is the position in
/// [`search_dat_paths`]; `dat` and `dll` are the files once chosen.
pub struct FixModel {
    pub dsn: Seq<char>,
    pub stage: FixStage,
    pub inst: Option<PathModel>,
    pub dsn_driver: Option<PathModel>,
    pub candidate: int,
    pub search: int,
    pub dat: Seq<char>,
    pub dll: Seq<char>,
}

/// The registered path that candidate `k` stands for.
pub open spec fn candidate_value(m: FixModel, k: int) -> Option<PathModel> {
    if k == 0 {
        m.inst
    } else {
        m.dsn_driver
    }
}

/// Whether the stage is one of following a registered path to a `.dat`.
pub open spec fn resolving(stage: FixStage) -> bool {
    ||| stage == FixStage::FirstCheck
    ||| stage == FixStage::SecondCheck
    ||| stage == FixStage::SiblingCheck
    ||| stage == FixStage::CandidateSearch
}

/// Whether the stage comes after the `.dat` and the `.dll` are chosen.
pub open spec fn preparing(stage: FixStage) -> bool {
    ||| stage == FixStage::CheckDll
    ||| stage == FixStage::ReadLengths
    ||| stage == FixStage::Copying
    ||| stage == FixStage::WriteInstall
    ||| stage == FixStage::WriteDsn
    ||| stage == FixStage::Registering
}

/// What every state of the fix keeps.
pub open spec fn fix_wf(m: FixModel) -> bool {
    &&& m.inst matches Some(p) ==> path_facts(p)
    &&& m.dsn_driver matches Some(p) ==> path_facts(p)
    &&& 0 <= m.search < 4
    &&& resolving(m.stage) ==> (m.candidate == 0 || m.candidate == 1) && candidate_value(
        m,
        m.candidate,
    ) is Some
    &&& m.stage == FixStage::CheckRegistered ==> (m.inst matches Some(p) && names_dll(p))
    &&& preparing(m.stage) ==> dat_facts(m.dat) && dll_facts(m.dat, m.dll)
}

/// Whether the fix in this state can take this event: the event must answer
/// the request that the fix made.
pub open spec fn fix_accepts(m: FixModel, e: DriverEventModel) -> bool {
    match e {
        DriverEventModel::Value(_) => m.stage == FixStage::ReadInstall || m.stage
            == FixStage::ReadDsnLower || m.stage == FixStage::ReadDsnUpper,
        DriverEventModel::IsFile(_) => m.stage == FixStage::CheckRegistered || resolving(m.stage)
            || m.stage == FixStage::FallbackSearch || m.stage == FixStage::CheckDll,
        DriverEventModel::Lengths(_, _) => m.stage == FixStage::ReadLengths,
        DriverEventModel::Copied(_) => m.stage == FixStage::Copying,
        DriverEventModel::Written(_) => m.stage == FixStage::PointDsn || m.stage
            == FixStage::WriteInstall || m.stage == FixStage::WriteDsn,
        DriverEventModel::Registered => m.stage == FixStage::Registering,
    }
}

/// A registry value as recorded: its path, with what `std::path` answered of
/// it.
pub open spec fn recorded(v: Option<Seq<char>>, a: PathAnswers) -> Option<PathModel> {
    match v {
        Some(path) => Some(PathModel { path, ..a.value }),
        None => None,
    }
}

/// The fix's outcome.
pub open spec fn finish(m: FixModel, r: Result<Option<Seq<char>>, Seq<char>>) -> (
    FixModel,
    DriverActionModel,
) {
    (FixModel { stage: FixStage::Done, ..m }, DriverActionModel::Finish(r))
}

/// Following the registered paths to a `.dat`, from candidate `k` on: the
/// installation's path, then the DSN's, skipping absent ones; then the
/// install locations.
pub open spec fn start_candidates(m: FixModel, k: int) -> (FixModel, DriverActionModel) {
    if k <= 0 && m.inst is Some {
        (
            FixModel { stage: FixStage::FirstCheck, candidate: 0, ..m },
            DriverActionModel::CheckFile(m.inst.unwrap().path),
        )
    } else if k <= 1 && m.dsn_driver is Some {
        (
            FixModel { stage: FixStage::FirstCheck, candidate: 1, ..m },
            DriverActionModel::CheckFile(m.dsn_driver.unwrap().path),
        )
    } else {
        (
            FixModel { stage: FixStage::FallbackSearch, search: 0, ..m },
            DriverActionModel::CheckFile(search_dat_paths()[0]),
        )
    }
}

/// Once both registry values are read: a registered `.dll` is checked
/// first; otherwise a `.dat` is looked for.
pub open spec fn decide(m: FixModel) -> (FixModel, DriverActionModel) {
    if m.inst is Some && names_dll(m.inst.unwrap()) {
        (
            FixModel { stage: FixStage::CheckRegistered, ..m },
            DriverActionModel::CheckFile(m.inst.unwrap().path),
        )
    } else {
        start_candidates(m, 0)
    }
}

/// The `.dat` is `dat`; the `.dll` beside it, as `std::path` gave it, is
/// checked next.
pub open spec fn found(m: FixModel, dat: Seq<char>, a: PathAnswers) -> (FixModel, DriverActionModel) {
    (
        FixModel { stage: FixStage::CheckDll, dat, dll: a.dll, ..m },
        DriverActionModel::CheckFile(a.dll),
    )
}

/// A registered path that is not an existing `.dat` or an existing `.dll`
/// with an existing `.dat` beside it: a relative `.dat` value is looked for
/// in the install locations; otherwise the next candidate is followed.
pub open spec fn after_second(m: FixModel) -> (FixModel, DriverActionModel) {
    let p = candidate_value(m, m.candidate).unwrap();
    if !p.absolute && names_dat(p) {
        (
            FixModel { stage: FixStage::CandidateSearch, search: 0, ..m },
            DriverActionModel::CheckFile(search_dat_paths()[0]),
        )
    } else {
        start_candidates(m, m.candidate + 1)
    }
}

/// What `std::path` answered in one step of the fix: `value` for the
/// registry value read in the step (its extension, whether it is absolute,
/// and the path with extension `dat`), `dll` for the `.dll` beside the `.dat`
/// taken in the step. A step that reads no value or takes no `.dat` does not
/// use the corresponding field.
pub struct PathAnswers {
    pub value: PathModel,
    pub dll: Seq<char>,
}

/// Whether a step takes a `.dat`: the file it checked exists and is the
/// `.dat` it looked for.
pub open spec fn takes_dat(m: FixModel, e: DriverEventModel) -> bool {
    &&& e == DriverEventModel::IsFile(true)
    &&& (m.stage == FixStage::FirstCheck && names_dat(candidate_value(m, m.candidate).unwrap())
        || m.stage == FixStage::SiblingCheck || m.stage == FixStage::CandidateSearch || m.stage
        == FixStage::FallbackSearch)
}

/// The file that a step in this state takes as the `.dat`, if it takes one.
pub open spec fn checked_dat(m: FixModel) -> Seq<char> {
    if m.stage == FixStage::FirstCheck {
        candidate_value(m, m.candidate).unwrap().path
    } else if m.stage == FixStage::SiblingCheck {
        candidate_value(m, m.candidate).unwrap().dat_sibling
    } else {
        search_dat_paths()[m.search]
    }
}

/// What is known of `std::path`'s answers in one step: [`path_facts`] of
/// the registry value read, and [`dll_facts`] of the `.dll` beside the
/// `.dat` taken.
pub open spec fn answers_fit(m: FixModel, e: DriverEventModel, a: PathAnswers) -> bool {
    &&& e matches DriverEventModel::Value(Some(path)) ==> path_facts(PathModel { path, ..a.value })
    &&& takes_dat(m, e) ==> dll_facts(checked_dat(m), a.dll)
}

/// The state in which a fix for `dsn` starts.
pub open spec fn fix_start(dsn: Seq<char>) -> FixModel {
    FixModel {
        dsn,
        stage: FixStage::ReadInstall,
        inst: None,
        dsn_driver: None,
        candidate: 0,
        search: 0,
        dat: seq![],
        dll: seq![],
    }
}

/// One step of the fix: the next state and what it asks for next, given the
/// event and what `std::path` answered in the step (see [`answers_fit`]).
pub open spec fn fix_next(m: FixModel, e: DriverEventModel, a: PathAnswers) -> (
    FixModel,
    DriverActionModel,
) {
    match e {
        DriverEventModel::Value(v) => if m.stage == FixStage::ReadInstall {
            (
                FixModel { stage: FixStage::ReadDsnLower, inst: recorded(v, a), ..m },
                DriverActionModel::ReadValue(dsn_key(m.dsn), "driver"@),
            )
        } else if m.stage == FixStage::ReadDsnLower && v is None {
            (
                FixModel { stage: FixStage::ReadDsnUpper, ..m },
                DriverActionModel::ReadValue(dsn_key(m.dsn), "Driver"@),
            )
        } else {
            decide(FixModel { dsn_driver: recorded(v, a), ..m })
        },
        DriverEventModel::IsFile(b) => {
            let p = candidate_value(m, m.candidate).unwrap();
            if m.stage == FixStage::CheckRegistered {
                if b {
                    let dll = m.inst.unwrap().path;
                    if m.dsn_driver matches Some(d) && d.path == dll {
                        finish(m, Ok(None))
                    } else {
                        (
                            FixModel { stage: FixStage::PointDsn, dll, ..m },
                            DriverActionModel::WriteValue(dsn_key(m.dsn), "driver"@, dll),
                        )
                    }
                } else {
                    start_candidates(m, 0)
                }
            } else if m.stage == FixStage::FirstCheck {
                if b && names_dat(p) {
                    found(m, p.path, a)
                } else {
                    (FixModel { stage: FixStage::SecondCheck, ..m }, DriverActionModel::CheckFile(p.path))
                }
            } else if m.stage == FixStage::SecondCheck {
                if b && names_dll(p) {
                    (
                        FixModel { stage: FixStage::SiblingCheck, ..m },
                        DriverActionModel::CheckFile(p.dat_sibling),
                    )
                } else {
                    after_second(m)
                }
            } else if m.stage == FixStage::SiblingCheck {
                if b {
                    found(m, p.dat_sibling, a)
                } else {
                    after_second(m)
                }
            } else if m.stage == FixStage::CandidateSearch || m.stage == FixStage::FallbackSearch {
                if b {
                    found(m, search_dat_paths()[m.search], a)
                } else if m.search + 1 < 4 {
                    (
                        FixModel { search: m.search + 1, ..m },
                        DriverActionModel::CheckFile(search_dat_paths()[m.search + 1]),
                    )
                } else if m.stage == FixStage::CandidateSearch {
                    start_candidates(m, m.candidate + 1)
                } else {
                    finish(m, Err(not_found_text()))
                }
            } else {
                if b {
                    (
                        FixModel { stage: FixStage::ReadLengths, ..m },
                        DriverActionModel::ReadLengths(m.dat, m.dll),
                    )
                } else {
                    (
                        FixModel { stage: FixStage::Copying, ..m },
                        DriverActionModel::Copy(m.dat, m.dll),
                    )
                }
            }
        },
        DriverEventModel::Lengths(dat_len, dll_len) => if spec_dat_is_newer(dat_len, dll_len) {
            (FixModel { stage: FixStage::Copying, ..m }, DriverActionModel::Copy(m.dat, m.dll))
        } else {
            (
                FixModel { stage: FixStage::WriteInstall, ..m },
                DriverActionModel::WriteValue(install_key(), "Driver"@, m.dll),
            )
        },
        DriverEventModel::Copied(r) => match r {
            Ok(()) => (
                FixModel { stage: FixStage::WriteInstall, ..m },
                DriverActionModel::WriteValue(install_key(), "Driver"@, m.dll),
            ),
            Err(t) => finish(m, Err(copy_failure_text(m.dat, m.dll, t))),
        },
        DriverEventModel::Written(r) => if m.stage == FixStage::PointDsn {
            match r {
                Ok(()) => finish(m, Ok(Some(pointed_text(m.dsn, m.dll)))),
                Err(f) => finish(m, Err(registry_failure_text(dsn_key(m.dsn), "driver"@, f))),
            }
        } else if m.stage == FixStage::WriteInstall {
            match r {
                Ok(()) => (
                    FixModel { stage: FixStage::WriteDsn, ..m },
                    DriverActionModel::WriteValue(dsn_key(m.dsn), "driver"@, m.dll),
                ),
                Err(f) => finish(m, Err(registry_failure_text(install_key(), "Driver"@, f))),
            }
        } else {
            match r {
                Ok(()) => (
                    FixModel { stage: FixStage::Registering, ..m },
                    DriverActionModel::RegisterDriver(drivers_key(), driver_name(), "Installed"@),
                ),
                Err(f) => finish(m, Err(registry_failure_text(dsn_key(m.dsn), "driver"@, f))),
            }
        },
        DriverEventModel::Registered => finish(m, Ok(Some(prepared_text(m.dll)))),
    }
}

/// A registered driver path with what `std::path` says of it.
struct DriverPath {
    path: String,
    extension: Option<String>,
    absolute: bool,
    dat_sibling: String,
}

impl View for DriverPath {
    type V = PathModel;

    closed spec fn view(&self) -> PathModel {
        PathModel {
            path: self.path@,
            extension: match self.extension {
                Some(e) => Some(e@),
                None => None,
            },
            absolute: self.absolute,
            dat_sibling: self.dat_sibling@,
        }
    }
}

/// Asks `std::path` about a registered path.
fn classify(path: String) -> (r: DriverPath)
    ensures
        r@.path == path@,
        path_facts(r@),
{
    let extension = path_extension(path.as_str());
    let absolute = path_is_absolute(path.as_str());
    proof {
        reveal_strlit("dat");
    }
    let dat_sibling = path_with_extension(path.as_str(), "dat");
    DriverPath { path, extension, absolute, dat_sibling }
}

fn names_extension(p: &DriverPath, wanted: &str) -> (r: bool)
    ensures
        r == extension_is(p@.extension, wanted@),
{
    match &p.extension {
        Some(e) => extension_matches(Some(e.as_str()), wanted),
        None => extension_matches(None, wanted),
    }
}

/// The model of an optional registered path.
spec fn path_model(p: Option<DriverPath>) -> Option<PathModel> {
    match p {
        Some(d) => Some(d@),
        None => None,
    }
}

/// The fix of the driver registration for one DSN.
pub struct DriverFix {
    dsn: String,
    stage: FixStage,
    inst: Option<DriverPath>,
    dsn_driver: Option<DriverPath>,
    candidate: usize,
    search: usize,
    dat: String,
    dll: String,
}

impl View for DriverFix {
    type V = FixModel;

    closed spec fn view(&self) -> FixModel {
        FixModel {
            dsn: self.dsn@,
            stage: self.stage,
            inst: path_model(self.inst),
            dsn_driver: path_model(self.dsn_driver),
            candidate: self.candidate as int,
            search: self.search as int,
            dat: self.dat@,
            dll: self.dll@,
        }
    }
}

/// Starts preparing the driver for `dsn`: the first request reads the
/// installed driver's path.
pub fn ensure_dll_driver(dsn: &str) -> (r: (DriverFix, DriverAction))
    ensures
        r.0@ == fix_start(dsn@),
        r.1@ == DriverActionModel::ReadValue(install_key(), "Driver"@),
        fix_wf(r.0@),
{
    let fix = DriverFix {
        dsn: String::from_str(dsn),
        stage: FixStage::ReadInstall,
        inst: None,
        dsn_driver: None,
        candidate: 0,
        search: 0,
        dat: String::new(),
        dll: String::new(),
    };
    (fix, DriverAction::ReadValue { key: install_key_string(), name: String::from_str("Driver") })
}

impl DriverFix {
    /// Where the fix stands.
    pub fn stage(&self) -> (r: FixStage)
        ensures
            r == self@.stage,
    {
        self.stage
    }

    /// Whether the fix can take this event (see [`fix_accepts`]).
    pub fn accepts(&self, event: &DriverEvent) -> (r: bool)
        ensures
            r == fix_accepts(self@, event@),
    {
        match event {
            DriverEvent::Value(_) => self.stage == FixStage::ReadInstall || self.stage
                == FixStage::ReadDsnLower || self.stage == FixStage::ReadDsnUpper,
            DriverEvent::IsFile(_) => self.stage == FixStage::CheckRegistered || self.stage
                == FixStage::FirstCheck || self.stage == FixStage::SecondCheck || self.stage
                == FixStage::SiblingCheck || self.stage == FixStage::CandidateSearch || self.stage
                == FixStage::FallbackSearch || self.stage == FixStage::CheckDll,
            DriverEvent::Lengths { .. } => self.stage == FixStage::ReadLengths,
            DriverEvent::Copied(_) => self.stage == FixStage::Copying,
            DriverEvent::Written(_) => self.stage == FixStage::PointDsn || self.stage
                == FixStage::WriteInstall || self.stage == FixStage::WriteDsn,
            DriverEvent::Registered => self.stage == FixStage::Registering,
        }
    }

    fn finish_with(&mut self, r: Result<Option<String>, DriverFixError>) -> (a: DriverAction)
        ensures
            (final(self)@, a@) == finish(
                old(self)@,
                match r {
                    Ok(Some(note)) => Ok(Some(note@)),
                    Ok(None) => Ok(None),
                    Err(e) => Err(e.message_view()),
                },
            ),
    {
        self.stage = FixStage::Done;
        DriverAction::Finish(r)
    }

    fn start_candidates(&mut self, k: usize) -> (a: DriverAction)
        requires
            fix_wf(old(self)@),
        ensures
            (final(self)@, a@) == start_candidates(old(self)@, k as int),
    {
        if k == 0 && self.inst.is_some() {
            self.stage = FixStage::FirstCheck;
            self.candidate = 0;
            let path = match &self.inst {
                Some(p) => p.path.clone(),
                None => String::new(),
            };
            DriverAction::CheckFile { path }
        } else if k <= 1 && self.dsn_driver.is_some() {
            self.stage = FixStage::FirstCheck;
            self.candidate = 1;
            let path = match &self.dsn_driver {
                Some(p) => p.path.clone(),
                None => String::new(),
            };
            DriverAction::CheckFile { path }
        } else {
            self.stage = FixStage::FallbackSearch;
            self.search = 0;
            DriverAction::CheckFile { path: search_dat_path(0) }
        }
    }

    fn decide(&mut self) -> (a: DriverAction)
        requires
            fix_wf(old(self)@),
        ensures
            (final(self)@, a@) == decide(old(self)@),
    {
        let registered_dll = match &self.inst {
            Some(p) => if names_extension(p, "dll") {
                Some(p.path.clone())
            } else {
                None
            },
            None => None,
        };
        match registered_dll {
            Some(path) => {
                self.stage = FixStage::CheckRegistered;
                DriverAction::CheckFile { path }
            },
            None => self.start_candidates(0),
        }
    }

    /// The registered path being followed.
    fn candidate_path(&self) -> (r: &DriverPath)
        requires
            fix_wf(self@),
            resolving(self@.stage),
        ensures
            candidate_value(self@, self@.candidate) == Some(r@),
    {
        let value = if self.candidate == 0 {
            &self.inst
        } else {
            &self.dsn_driver
        };
        match value {
            Some(p) => p,
            None => vstd::pervasive::unreached(),
        }
    }

    fn found(&mut self, dat: String) -> (a: DriverAction)
        requires
            dat_facts(dat@),
        ensures
            final(self)@ == (FixModel {
                stage: FixStage::CheckDll,
                dat: dat@,
                dll: final(self)@.dll,
                ..old(self)@
            }),
            a@ == DriverActionModel::CheckFile(final(self)@.dll),
            dll_facts(dat@, final(self)@.dll),
    {
        let dll = dll_path_for_dat(dat.as_str());
        self.dat = dat;
        self.dll = dll.clone();
        self.stage = FixStage::CheckDll;
        DriverAction::CheckFile { path: dll }
    }

    fn after_second(&mut self) -> (a: DriverAction)
        requires
            fix_wf(old(self)@),
            resolving(old(self)@.stage),
        ensures
            (final(self)@, a@) == after_second(old(self)@),
    {
        let p = self.candidate_path();
        if !p.absolute && names_extension(p, "dat") {
            self.stage = FixStage::CandidateSearch;
            self.search = 0;
            DriverAction::CheckFile { path: search_dat_path(0) }
        } else {
            let next = self.candidate + 1;
            self.start_candidates(next)
        }
    }

    /// Takes what came of the last request and says what to do next, or
    /// gives the outcome (see [`fix_next`]).
    pub fn step(&mut self, event: DriverEvent) -> (action: DriverAction)
        requires
            fix_wf(old(self)@),
            fix_accepts(old(self)@, event@),
        ensures
            exists|a: PathAnswers|
                #[trigger] answers_fit(old(self)@, event@, a) && (final(self)@, action@) == fix_next(
                    old(self)@,
                    event@,
                    a,
                ),
            fix_wf(final(self)@),
    {
        let ghost e = event@;
        let action = match event {
            DriverEvent::Value(v) => {
                let rec = match v {
                    Some(path) => Some(classify(path)),
                    None => None,
                };
                if self.stage == FixStage::ReadInstall {
                    self.inst = rec;
                    self.stage = FixStage::ReadDsnLower;
                    DriverAction::ReadValue {
                        key: dsn_key_string(&self.dsn),
                        name: String::from_str("driver"),
                    }
                } else if self.stage == FixStage::ReadDsnLower && rec.is_none() {
                    self.stage = FixStage::ReadDsnUpper;
                    DriverAction::ReadValue {
                        key: dsn_key_string(&self.dsn),
                        name: String::from_str("Driver"),
                    }
                } else {
                    self.dsn_driver = rec;
                    self.decide()
                }
            },
            DriverEvent::IsFile(b) => {
                if self.stage == FixStage::CheckRegistered {
                    if b {
                        let dll = match &self.inst {
                            Some(p) => p.path.clone(),
                            None => String::new(),
                        };
                        let same = match &self.dsn_driver {
                            Some(d) => d.path == dll,
                            None => false,
                        };
                        if same {
                            self.finish_with(Ok(None))
                        } else {
                            self.dll = dll.clone();
                            self.stage = FixStage::PointDsn;
                            DriverAction::WriteValue {
                                key: dsn_key_string(&self.dsn),
                                name: String::from_str("driver"),
                                value: dll,
                            }
                        }
                    } else {
                        self.start_candidates(0)
                    }
                } else if self.stage == FixStage::FirstCheck {
                    let p = self.candidate_path();
                    if b && names_extension(p, "dat") {
                        let dat = p.path.clone();
                        self.found(dat)
                    } else {
                        let path = p.path.clone();
                        self.stage = FixStage::SecondCheck;
                        DriverAction::CheckFile { path }
                    }
                } else if self.stage == FixStage::SecondCheck {
                    let p = self.candidate_path();
                    if b && names_extension(p, "dll") {
                        let path = p.dat_sibling.clone();
                        self.stage = FixStage::SiblingCheck;
                        DriverAction::CheckFile { path }
                    } else {
                        self.after_second()
                    }
                } else if self.stage == FixStage::SiblingCheck {
                    if b {
                        let p = self.candidate_path();
                        proof {
                            lemma_dat_sibling_facts(p@.path, p@.dat_sibling);
                        }
                        let dat = p.dat_sibling.clone();
                        self.found(dat)
                    } else {
                        self.after_second()
                    }
                } else if self.stage == FixStage::CandidateSearch || self.stage
                    == FixStage::FallbackSearch {
                    if b {
                        let dat = search_dat_path(self.search);
                        proof {
                            lemma_search_path_facts(self.search as int);
                        }
                        self.found(dat)
                    } else if self.search + 1 < 4 {
                        self.search = self.search + 1;
                        DriverAction::CheckFile { path: search_dat_path(self.search) }
                    } else if self.stage == FixStage::CandidateSearch {
                        let next = self.candidate + 1;
                        self.start_candidates(next)
                    } else {
                        self.finish_with(
                            Err(
                                DriverFixError::from_msg(
                                    String::from_str(
                                        "could not find TallyWin.Dat next to the ODBC driver or in Program Files",
                                    ),
                                ),
                            ),
                        )
                    }
                } else {
                    if b {
                        self.stage = FixStage::ReadLengths;
                        DriverAction::ReadLengths { dat: self.dat.clone(), dll: self.dll.clone() }
                    } else {
                        self.stage = FixStage::Copying;
                        DriverAction::Copy { from: self.dat.clone(), to: self.dll.clone() }
                    }
                }
            },
            DriverEvent::Lengths { dat, dll } => {
                if dat_is_newer(dat, dll) {
                    self.stage = FixStage::Copying;
                    DriverAction::Copy { from: self.dat.clone(), to: self.dll.clone() }
                } else {
                    self.stage = FixStage::WriteInstall;
                    DriverAction::WriteValue {
                        key: install_key_string(),
                        name: String::from_str("Driver"),
                        value: self.dll.clone(),
                    }
                }
            },
            DriverEvent::Copied(r) => match r {
                Ok(()) => {
                    self.stage = FixStage::WriteInstall;
                    DriverAction::WriteValue {
                        key: install_key_string(),
                        name: String::from_str("Driver"),
                        value: self.dll.clone(),
                    }
                },
                Err(t) => {
                    let msg = String::from_str("failed to copy ").concat(self.dat.as_str()).concat(
                        " to ",
                    ).concat(self.dll.as_str()).concat(": ").concat(t.as_str());
                    self.finish_with(Err(DriverFixError::from_msg(msg)))
                },
            },
            DriverEvent::Written(r) => {
                if self.stage == FixStage::PointDsn {
                    match r {
                        Ok(()) => {
                            let note = String::from_str("pointed DSN ").concat(
                                self.dsn.as_str(),
                            ).concat(" at ").concat(self.dll.as_str());
                            self.finish_with(Ok(Some(note)))
                        },
                        Err(f) => {
                            let key = dsn_key_string(&self.dsn);
                            let e = registry_failure_message(key.as_str(), "driver", f);
                            self.finish_with(Err(e))
                        },
                    }
                } else if self.stage == FixStage::WriteInstall {
                    match r {
                        Ok(()) => {
                            self.stage = FixStage::WriteDsn;
                            DriverAction::WriteValue {
                                key: dsn_key_string(&self.dsn),
                                name: String::from_str("driver"),
                                value: self.dll.clone(),
                            }
                        },
                        Err(f) => {
                            let key = install_key_string();
                            let e = registry_failure_message(key.as_str(), "Driver", f);
                            self.finish_with(Err(e))
                        },
                    }
                } else {
                    match r {
                        Ok(()) => {
                            self.stage = FixStage::Registering;
                            DriverAction::RegisterDriver {
                                key: String::from_str("Software\\ODBC\\ODBCINST.INI\\ODBC Drivers"),
                                name: String::from_str("Tally ODBC Driver64"),
                                value: String::from_str("Installed"),
                            }
                        },
                        Err(f) => {
                            let key = dsn_key_string(&self.dsn);
                            let e = registry_failure_message(key.as_str(), "driver", f);
                            self.finish_with(Err(e))
                        },
                    }
                }
            },
            DriverEvent::Registered => {
                let note = String::from_str("prepared Wine-compatible ODBC driver at ").concat(
                    self.dll.as_str(),
                );
                self.finish_with(Ok(Some(note)))
            },
        };
        proof {
            let read = if old(self)@.stage == FixStage::ReadInstall {
                self@.inst
            } else {
                self@.dsn_driver
            };
            let answers = PathAnswers {
                value: match read {
                    Some(p) => p,
                    None => PathModel {
                        path: seq![],
                        extension: None,
                        absolute: false,
                        dat_sibling: seq![],
                    },
                },
                dll: self@.dll,
            };
            assert(answers_fit(old(self)@, e, answers));
            assert((self@, action@) == fix_next(old(self)@, e, answers));
        }
        action
    }
}

/// The path with extension `dat` beside a registered path is a `.dat` in
/// the sense of [`dat_facts`].
proof fn lemma_dat_sibling_facts(path: Seq<char>, sibling: Seq<char>)
    requires
        sibling_facts(path, "dat"@, sibling),
    ensures
        dat_facts(sibling),
{
    reveal_strlit("dat");
    if ends_with_extension(sibling, "dat"@) {
        lemma_ends_with_extension(sibling, "dat"@);
    }
}

/// A path in [`search_dat_paths`] is a `.dat` in the sense of [`dat_facts`].
proof fn lemma_search_path_facts(i: int)
    requires
        0 <= i < 4,
    ensures
        dat_facts(search_dat_paths()[i]),
{
    reveal_strlit("C:\\Program Files\\TallyPrime\\TallyWin.Dat");
    reveal_strlit("C:\\Program Files\\TallyPrimeEL\\TallyWin.Dat");
    reveal_strlit("C:\\Program Files (x86)\\TallyPrime\\TallyWin.Dat");
    reveal_strlit("C:\\Program Files (x86)\\TallyPrimeEL\\TallyWin.Dat");
    reveal_strlit("dat");
    let s = search_dat_paths()[i];
    let ext = seq!['D', 'a', 't'];
    assert(s.subrange(s.len() - 3, s.len() as int) =~= ext);
    lemma_ends_with_extension(s, ext);
    assert(eq_ignore_ascii_case(seq!['D', 'a', 't'], "dat"@));
}

/// The `.dll` beside a chosen `.dat` that every platform reads alike ends
/// with `.dll`, and it is another file than the `.dat`.
proof fn lemma_dll_beside_dat(dat: Seq<char>, dll: Seq<char>)
    requires
        dat_facts(dat),
        dll_facts(dat, dll),
        portable_name(dat),
    ensures
        ends_with_extension(dll, "dll"@),
        dll != dat,
{
    reveal_strlit("dll");
    lemma_extension_dot_bounds(dat);
    lemma_replace_extension_ends(dat, "dll"@);
    if dll == dat {
        lemma_ends_with_extension(dat, "dll"@);
        lemma_dll_is_not_dat();
    }
}

/// A bound on the steps that a fix has left: every stage of following
/// candidate `k` ranks above those of candidate `k + 1`, which rank above the
/// search of the install locations, which ranks above the copy and the
/// registry writes.
pub open spec fn fix_rank(m: FixModel) -> int {
    let base = 20 + (1 - m.candidate) * 20;
    match m.stage {
        FixStage::ReadInstall => 90,
        FixStage::ReadDsnLower => 80,
        FixStage::ReadDsnUpper => 70,
        FixStage::CheckRegistered => 60,
        FixStage::FirstCheck => base + 8,
        FixStage::SecondCheck => base + 7,
        FixStage::SiblingCheck => base + 6,
        FixStage::CandidateSearch => base + 4 - m.search,
        FixStage::FallbackSearch => 14 - m.search,
        FixStage::CheckDll => 6,
        FixStage::ReadLengths => 5,
        FixStage::Copying => 4,
        FixStage::WriteInstall => 3,
        FixStage::WriteDsn => 2,
        FixStage::Registering => 1,
        FixStage::PointDsn => 1,
        FixStage::Done => 0,
    }
}

/// The fix always finishes: each step lowers [`fix_rank`], which is never
/// negative, and a finished fix takes no more events; so a fix makes at most
/// 90 requests before its outcome.
pub proof fn law_fix_always_finishes(m: FixModel, e: DriverEventModel, a: PathAnswers)
    requires
        fix_wf(m),
        fix_accepts(m, e),
    ensures
        0 <= fix_rank(fix_next(m, e, a).0) < fix_rank(m),
        fix_rank(m) <= 90,
{
}

/// A fix ends with its outcome: once finished it takes no more events.
pub proof fn law_finished_fix_takes_nothing(m: FixModel, e: DriverEventModel)
    requires
        m.stage == FixStage::Done,
    ensures
        !fix_accepts(m, e),
{
}

/// When the installed driver already is an existing `.dll` that the DSN
/// points at, the fix ends with nothing written and no note to show.
pub proof fn law_registered_dll_is_kept(m: FixModel, a: PathAnswers)
    requires
        fix_wf(m),
        m.stage == FixStage::CheckRegistered,
        m.dsn_driver matches Some(d) && d.path == m.inst.unwrap().path,
    ensures
        fix_next(m, DriverEventModel::IsFile(true), a) == finish(m, Ok(None)),
{
}

/// Run again after it succeeded, when both registry values name one file
/// that `std::path` reads as a `.dll` and that exists, the fix reads the two
/// values, checks the `.dll`, and ends with nothing written and no note to
/// show.
pub proof fn law_second_run_does_nothing(
    dsn: Seq<char>,
    dll: Seq<char>,
    a1: PathAnswers,
    a2: PathAnswers,
    a3: PathAnswers,
)
    requires
        extension_is(a1.value.extension, "dll"@),
        answers_fit(fix_start(dsn), DriverEventModel::Value(Some(dll)), a1),
        answers_fit(
            fix_next(fix_start(dsn), DriverEventModel::Value(Some(dll)), a1).0,
            DriverEventModel::Value(Some(dll)),
            a2,
        ),
    ensures
        fix_next(fix_start(dsn), DriverEventModel::Value(Some(dll)), a1).1
            == DriverActionModel::ReadValue(dsn_key(dsn), "driver"@),
        fix_next(
            fix_next(fix_start(dsn), DriverEventModel::Value(Some(dll)), a1).0,
            DriverEventModel::Value(Some(dll)),
            a2,
        ).1 == DriverActionModel::CheckFile(dll),
        fix_next(
            fix_next(
                fix_next(fix_start(dsn), DriverEventModel::Value(Some(dll)), a1).0,
                DriverEventModel::Value(Some(dll)),
                a2,
            ).0,
            DriverEventModel::IsFile(true),
            a3,
        ).1 == DriverActionModel::Finish(Ok(None)),
{
}

/// No extension is both `dll` and `dat`, whatever the case of its letters.
pub proof fn law_dll_and_dat_exclusive(ext: Option<Seq<char>>)
    ensures
        !(extension_is(ext, "dll"@) && extension_is(ext, "dat"@)),
{
    reveal_strlit("dll");
    reveal_strlit("dat");
    match ext {
        Some(x) => {
            if eq_ignore_ascii_case(x, "dll"@) && eq_ignore_ascii_case(x, "dat"@) {
                assert(ascii_fold(x[1]) == ascii_fold("dll"@[1]));
                assert(ascii_fold(x[1]) == ascii_fold("dat"@[1]));
            }
        },
        None => {},
    }
}

/// The fix points the registry only at a `.dll`: a write's value is either
/// the registered installation path, whose extension is `dll`, or the `.dll`
/// beside the chosen `.dat`, which (when every platform reads the `.dat`'s
/// extension) ends with `.dll` and is not the `.dat` itself.
pub proof fn law_registry_points_at_dll(m: FixModel, e: DriverEventModel, a: PathAnswers)
    requires
        fix_wf(m),
        fix_accepts(m, e),
    ensures
        fix_next(m, e, a).1 matches DriverActionModel::WriteValue(_, _, v) ==> {
            ||| m.stage == FixStage::CheckRegistered && v == m.inst.unwrap().path
                && has_dot_extension(v, "dll"@) && (portable_name(v) ==> extension_is(
                Some(portable_extension(v)),
                "dll"@,
            ))
            ||| v == m.dll && dll_facts(m.dat, v) && (portable_name(m.dat) ==> ends_with_extension(
                v,
                "dll"@,
            ) && v != m.dat)
        },
{
    if fix_next(m, e, a).1 matches DriverActionModel::WriteValue(_, _, v) {
        if m.stage == FixStage::CheckRegistered {
            let p = m.inst.unwrap();
            lemma_extension_in_path(p.path, p.extension.unwrap(), "dll"@);
        } else if portable_name(m.dat) {
            lemma_dll_beside_dat(m.dat, m.dll);
        }
    }
}

/// The `.dat` is copied only to the `.dll` beside it, which (when every
/// platform reads the `.dat`'s extension) ends with `.dll` and is not the
/// `.dat`; and only when the `.dll` is missing, or when the two files' sizes
/// differ or cannot both be read.
pub proof fn law_copy_only_when_needed(m: FixModel, e: DriverEventModel, a: PathAnswers)
    requires
        fix_wf(m),
        fix_accepts(m, e),
    ensures
        fix_next(m, e, a).1 matches DriverActionModel::Copy(from, to) ==> {
            &&& from == m.dat
            &&& to == m.dll
            &&& dll_facts(from, to)
            &&& portable_name(from) ==> ends_with_extension(to, "dll"@) && to != from
            &&& (m.stage == FixStage::CheckDll && e == DriverEventModel::IsFile(false)) || (
            m.stage == FixStage::ReadLengths && (e matches DriverEventModel::Lengths(x, y)
                && spec_dat_is_newer(x, y)))
        },
{
    if fix_next(m, e, a).1 matches DriverActionModel::Copy(from, to) {
        if portable_name(m.dat) {
            lemma_dll_beside_dat(m.dat, m.dll);
        }
    }
}

/// Once the two sizes are read, the `.dat` is copied over the `.dll`
/// exactly when a size is unknown or the sizes differ, whichever is larger;
/// when both are known and equal, the `.dll` is registered as it is.
pub proof fn law_copy_exactly_when_sizes_differ(
    m: FixModel,
    dat_len: Option<u64>,
    dll_len: Option<u64>,
    a: PathAnswers,
)
    requires
        fix_wf(m),
        m.stage == FixStage::ReadLengths,
    ensures
        ({
            let act = fix_next(m, DriverEventModel::Lengths(dat_len, dll_len), a).1;
            let differ = match (dat_len, dll_len) {
                (Some(x), Some(y)) => x != y,
                _ => true,
            };
            &&& differ ==> act == DriverActionModel::Copy(m.dat, m.dll)
            &&& !differ ==> act == DriverActionModel::WriteValue(
                "Software\\ODBC\\ODBCINST.INI\\Tally ODBC Driver64"@,
                "Driver"@,
                m.dll,
            )
        }),
{
}

/// When the registered `.dll` exists, the fix ends at once with nothing
/// written exactly when the DSN's driver value is present and names that
/// `.dll`. Otherwise (the value is absent or names another file) its next
/// request writes the `.dll` as the DSN's `driver`, and once that succeeds it
/// reports that the DSN was pointed at the `.dll`.
pub proof fn law_dsn_is_pointed_at_registered_dll(m: FixModel, a: PathAnswers, b: PathAnswers)
    requires
        fix_wf(m),
        m.stage == FixStage::CheckRegistered,
    ensures
        ({
            let dll = m.inst.unwrap().path;
            let (m1, act) = fix_next(m, DriverEventModel::IsFile(true), a);
            let same = m.dsn_driver matches Some(d) && d.path == dll;
            &&& same <==> act == DriverActionModel::Finish(Ok(None))
            &&& !same ==> act == DriverActionModel::WriteValue(
                "Software\\ODBC\\ODBC.INI\\"@ + m.dsn,
                "driver"@,
                dll,
            )
            &&& !same ==> fix_next(m1, DriverEventModel::Written(Ok(())), b).1
                == DriverActionModel::Finish(Ok(Some("pointed DSN "@ + m.dsn + " at "@ + dll)))
        }),
{
}

} // verus!
