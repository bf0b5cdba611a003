//! Turning a user-supplied location string into a container and a path.

use crate::env::DxEnvironment;
use crate::error::DxError;
use vstd::prelude::*;

verus! {

/// Number of alphanumeric characters that follow the tag of an identifier.
pub const ID_BODY_LEN: usize = 24;

/// ASCII letter or digit.
pub open spec fn is_alnum(c: char) -> bool {
    ('a' <= c && c <= 'z') || ('A' <= c && c <= 'Z') || ('0' <= c && c <= '9')
}

/// Tag that starts every container identifier.
pub open spec fn container_tag() -> Seq<char> {
    seq!['p', 'r', 'o', 'j', 'e', 'c', 't', '-']
}

/// Tag that starts every file identifier.
pub open spec fn file_tag() -> Seq<char> {
    seq!['f', 'i', 'l', 'e', '-']
}

/// `s` begins with `tag` followed by `ID_BODY_LEN` alphanumeric characters.
pub open spec fn starts_with_id(s: Seq<char>, tag: Seq<char>) -> bool {
    &&& s.len() >= tag.len() + ID_BODY_LEN
    &&& s.take(tag.len() as int) == tag
    &&& forall|i: int| tag.len() <= i < tag.len() + ID_BODY_LEN ==> is_alnum(#[trigger] s[i])
}

/// `s` is exactly one identifier with the given tag.
pub open spec fn is_id(s: Seq<char>, tag: Seq<char>) -> bool {
    starts_with_id(s, tag) && s.len() == tag.len() + ID_BODY_LEN
}

/// Whether `c` is an ASCII letter or digit.
fn is_alnum_char(c: char) -> (r: bool)
    ensures
        r == is_alnum(c),
{
    ('a' <= c && c <= 'z') || ('A' <= c && c <= 'Z') || ('0' <= c && c <= '9')
}

/// Whether `s` begins with an identifier carrying the given tag.
pub(crate) fn has_id_prefix(s: &str, tag: &str) -> (r: bool)
    ensures
        r == starts_with_id(s@, tag@),
{
    let n = s.unicode_len();
    let t = tag.unicode_len();
    if n < t || n - t < ID_BODY_LEN {
        return false;
    }
    let mut i: usize = 0;
    while i < t
        invariant
            n == s@.len(),
            t == tag@.len(),
            t + ID_BODY_LEN <= n,
            i <= t,
            forall|j: int| 0 <= j < i ==> s@[j] == tag@[j],
        decreases t - i,
    {
        if s.get_char(i) != tag.get_char(i) {
            assert(s@.take(t as int)[i as int] != tag@[i as int]);
            return false;
        }
        i = i + 1;
    }
    assert(s@.take(t as int) =~= tag@);
    while i < t + ID_BODY_LEN
        invariant
            n == s@.len(),
            t == tag@.len(),
            t + ID_BODY_LEN <= n,
            t <= i <= t + ID_BODY_LEN,
            s@.take(t as int) == tag@,
            forall|j: int| t <= j < i ==> is_alnum(#[trigger] s@[j]),
        decreases t + ID_BODY_LEN - i,
    {
        if !is_alnum_char(s.get_char(i)) {
            return false;
        }
        i = i + 1;
    }
    true
}


/// Drops one leading `:` if there is one.
pub open spec fn strip_colon(s: Seq<char>) -> Seq<char> {
    if s.len() > 0 && s[0] == ':' {
        s.skip(1)
    } else {
        s
    }
}

/// Length of a container identifier.
pub open spec fn container_id_len() -> int {
    container_tag().len() + ID_BODY_LEN
}

/// The container that `input` names: its leading container identifier, else `default`.
pub open spec fn container_of(default: Seq<char>, input: Seq<char>) -> Seq<char> {
    if starts_with_id(input, container_tag()) {
        input.take(container_id_len())
    } else {
        default
    }
}

/// What follows the leading container identifier and its optional `:`.
pub open spec fn after_container(input: Seq<char>) -> Seq<char> {
    if starts_with_id(input, container_tag()) {
        strip_colon(input.skip(container_id_len()))
    } else {
        input
    }
}

/// The path as written: one separating `:` dropped, nothing at all meaning `working`.
pub open spec fn raw_path(working: Seq<char>, input: Seq<char>) -> Seq<char> {
    let r = strip_colon(after_container(input));
    if r.len() == 0 {
        working
    } else {
        r
    }
}

/// A path rooted at `/`.
pub open spec fn is_absolute(p: Seq<char>) -> bool {
    p.len() > 0 && p[0] == '/'
}

/// `p` placed under `dir`, with one `/` between them unless `dir` is empty or ends in one.
pub open spec fn join(dir: Seq<char>, p: Seq<char>) -> Seq<char> {
    if dir.len() == 0 || dir.last() == '/' {
        dir + p
    } else {
        dir + seq!['/'] + p
    }
}

/// The path that `input` resolves to under the working path `working`:
/// identifiers and absolute paths stand as written, anything else is joined under `working`.
pub open spec fn resolved_path(working: Seq<char>, input: Seq<char>) -> Seq<char> {
    let r = raw_path(working, input);
    if is_id(r, file_tag()) || is_absolute(r) {
        r
    } else {
        join(working, r)
    }
}

/// A remote location: the container and, inside it, a path or an object identifier.
#[derive(Debug, Clone, PartialEq, Eq)]
pub struct DxPath {
    pub path: String,
    pub project_id: String,
}

/// `s` with one leading `:` dropped, if it has one.
fn drop_colon(s: &str) -> (r: &str)
    ensures
        r@ == strip_colon(s@),
{
    let n = s.unicode_len();
    if n > 0 && s.get_char(0) == ':' {
        s.substring_char(1, n)
    } else {
        s
    }
}

/// `p` joined under the folder `dir`.
pub fn join_path(dir: &str, p: &str) -> (r: String)
    ensures
        r@ == join(dir@, p@),
{
    let mut out = String::from_str(dir);
    let n = dir.unicode_len();
    if n > 0 && dir.get_char(n - 1) != '/' {
        proof {
            reveal_strlit("/");
        }
        out.append("/");
    }
    out.append(p);
    out
}

/// Splits `input` into the container it names (or `default_container`) and the rest,
/// with the `:` that follows a container identifier dropped.
fn split_container<'a>(default_container: &str, input: &'a str) -> (r: (String, &'a str, bool))
    ensures
        r.2 == starts_with_id(input@, container_tag()),
        r.0@ == container_of(default_container@, input@),
        r.1@ == after_container(input@),
{
    let tag = "project-";
    proof {
        reveal_strlit("project-");
        assert(tag@ =~= container_tag());
    }
    if has_id_prefix(input, tag) {
        let k = tag.unicode_len() + ID_BODY_LEN;
        let n = input.unicode_len();
        let id = input.substring_char(0, k);
        let rest = input.substring_char(k, n);
        assert(id@ =~= input@.take(container_id_len()));
        assert(rest@ =~= input@.skip(container_id_len()));
        (String::from_str(id), drop_colon(rest), true)
    } else {
        (String::from_str(default_container), input, false)
    }
}

/// Whether `s` is exactly one file identifier.
pub fn is_file_id(s: &str) -> (r: bool)
    ensures
        r == is_id(s@, file_tag()),
{
    let tag = "file-";
    proof {
        reveal_strlit("file-");
        assert(tag@ =~= file_tag());
    }
    has_id_prefix(s, tag) && s.unicode_len() == tag.unicode_len() + ID_BODY_LEN
}

/// Resolves a location string against a default container and a working path.
/// Never fails: what the input leaves out comes from the defaults.
pub fn resolve(default_container: &str, working_path: &str, input: &str) -> (r: DxPath)
    ensures
        r.project_id@ == container_of(default_container@, input@),
        r.path@ == resolved_path(working_path@, input@),
{
    let (project_id, rest, _) = split_container(default_container, input);
    let rest = drop_colon(rest);
    let raw = if rest.unicode_len() == 0 {
        working_path
    } else {
        rest
    };
    let n = raw.unicode_len();
    let path = if is_file_id(raw) || (n > 0 && raw.get_char(0) == '/') {
        String::from_str(raw)
    } else {
        join_path(working_path, raw)
    };
    DxPath { path, project_id }
}


/// Resolves `path` against the environment's current container and working folder.
/// Resolution never fails.
pub fn resolve_path(dx_env: &DxEnvironment, path: &str) -> (r: Result<DxPath, DxError>)
    ensures
        r is Ok,
        r->Ok_0.project_id@ == container_of(dx_env.project_context_id@, path@),
        r->Ok_0.path@ == resolved_path(dx_env.cli_wd@, path@),
{
    Ok(resolve(dx_env.project_context_id.as_str(), dx_env.cli_wd.as_str(), path))
}

/// A location classified without asking the platform: an object identifier or a path.
#[derive(Debug, Clone, PartialEq, Eq)]
pub enum FileOrPath {
    File { file_id: String, project_id: String },
    Path { path: String, project_id: String },
}

/// Resolves `path` as `resolve_path` does, and tells whether it names a file
/// by identifier or a path in the folder tree.
pub fn is_file_or_path(dx_env: &DxEnvironment, path: &str) -> (r: Result<FileOrPath, DxError>)
    ensures
        r is Ok,
        ({
            let container = container_of(dx_env.project_context_id@, path@);
            let resolved = resolved_path(dx_env.cli_wd@, path@);
            match r->Ok_0 {
                FileOrPath::File { file_id, project_id } => {
                    &&& is_id(raw_path(dx_env.cli_wd@, path@), file_tag())
                    &&& file_id@ == resolved
                    &&& project_id@ == container
                },
                FileOrPath::Path { path: p, project_id } => {
                    &&& !is_id(raw_path(dx_env.cli_wd@, path@), file_tag())
                    &&& p@ == resolved
                    &&& project_id@ == container
                },
            }
        }),
{
    let (project_id, rest, _) = split_container(dx_env.project_context_id.as_str(), path);
    let rest = drop_colon(rest);
    let raw = if rest.unicode_len() == 0 {
        dx_env.cli_wd.as_str()
    } else {
        rest
    };
    if is_file_id(raw) {
        return Ok(FileOrPath::File { file_id: String::from_str(raw), project_id });
    }
    let n = raw.unicode_len();
    let p = if n > 0 && raw.get_char(0) == '/' {
        String::from_str(raw)
    } else {
        join_path(dx_env.cli_wd.as_str(), raw)
    };
    Ok(FileOrPath::Path { path: p, project_id })
}

/// An upload destination: a container and a folder inside it.
#[derive(Debug, Clone, PartialEq, Eq)]
pub struct ProjectPath {
    pub project_id: String,
    pub path: String,
}

/// The folder that a destination string names: what follows the container identifier
/// (or the whole string), one leading `:` dropped, and rooted at `/`.
/// An empty folder is the root.
pub open spec fn destination_folder(dest: Seq<char>) -> Seq<char> {
    let r = if starts_with_id(dest, container_tag()) {
        after_container(dest)
    } else {
        strip_colon(dest)
    };
    if is_absolute(r) {
        r
    } else {
        seq!['/'] + r
    }
}

/// Reads an upload destination; with none given, the working folder is the destination.
/// Unlike `resolve_path`, a container identifier followed by nothing names the
/// container's root, not the working folder.
pub fn parse_project_path(dx_env: &DxEnvironment, destination: &Option<String>) -> (r: ProjectPath)
    ensures
        ({
            let dest = match destination {
                Some(d) => d@,
                None => dx_env.cli_wd@,
            };
            &&& r.project_id@ == container_of(dx_env.project_context_id@, dest)
            &&& r.path@ == destination_folder(dest)
        }),
{
    let dest: &str = match destination {
        Some(d) => d.as_str(),
        None => dx_env.cli_wd.as_str(),
    };
    let (project_id, rest, named) = split_container(dx_env.project_context_id.as_str(), dest);
    let folder = if named {
        rest
    } else {
        drop_colon(rest)
    };
    let n = folder.unicode_len();
    let path = if n > 0 && folder.get_char(0) == '/' {
        String::from_str(folder)
    } else {
        proof {
            reveal_strlit("/");
        }
        let mut out = String::from_str("/");
        out.append(folder);
        out
    };
    ProjectPath { project_id, path }
}


/// A location that names no container resolves in the default container,
/// whatever the working folder.
pub proof fn lemma_default_container(default: Seq<char>, input: Seq<char>)
    requires
        !starts_with_id(input, container_tag()),
    ensures
        container_of(default, input) == default,
{
}

/// A bare file identifier resolves to itself in the default container:
/// it is never joined under the working folder.
pub proof fn lemma_identifier_stands(default: Seq<char>, working: Seq<char>, input: Seq<char>)
    requires
        is_id(input, file_tag()),
    ensures
        resolved_path(working, input) == input,
        container_of(default, input) == default,
{
    assert(input.take(5)[0] == 'f');
    if starts_with_id(input, container_tag()) {
        assert(input.take(8)[0] == 'p');
    }
}

/// A relative path that is neither an identifier nor led by a container or a `:`
/// is joined under the working folder.
pub proof fn lemma_relative_joined(working: Seq<char>, input: Seq<char>)
    requires
        input.len() > 0,
        input[0] != ':',
        !is_absolute(input),
        !is_id(input, file_tag()),
        !starts_with_id(input, container_tag()),
    ensures
        resolved_path(working, input) == join(working, input),
{
}

/// An empty location, or a lone `:`, resolves to an absolute working folder itself.
pub proof fn lemma_empty_is_working(working: Seq<char>)
    requires
        is_absolute(working),
    ensures
        resolved_path(working, Seq::<char>::empty()) == working,
        resolved_path(working, seq![':']) == working,
{
    let e = Seq::<char>::empty();
    let c = seq![':'];
    assert(!starts_with_id(e, container_tag()));
    assert(!starts_with_id(c, container_tag()));
    assert(strip_colon(c) =~= e);
}


/// `s` without the `/` characters at its end.
pub open spec fn trim_end_slashes(s: Seq<char>) -> Seq<char>
    decreases s.len(),
{
    if s.len() > 0 && s.last() == '/' {
        trim_end_slashes(s.drop_last())
    } else {
        s
    }
}

/// The folder and the name to look a file up by, read as a path is read into
/// its parent and its last component. A file identifier is looked up by itself
/// in the root folder. Otherwise, with the `/` characters at the end dropped,
/// the path splits at its last `/`: the folder is what comes before it, again
/// without `/` at its end (the root when that leaves nothing), and the name is
/// what follows it. Without a `/` the folder is empty. A path that is nothing
/// but `/` characters, or whose last component is `..`, has no name of its own
/// and is looked up by itself (in the root for the former).
pub open spec fn lookup_key(path: Seq<char>) -> (Seq<char>, Seq<char>) {
    let t = trim_end_slashes(path);
    if is_id(path, file_tag()) {
        (seq!['/'], path)
    } else if t.len() == 0 {
        (seq!['/'], path)
    } else if exists|k: int| 0 <= k < t.len() && t[k] == '/' {
        let k = choose|k: int|
            0 <= k < t.len() && t[k] == '/' && forall|j: int| k < j < t.len() ==> t[j] != '/';
        let folder = trim_end_slashes(t.take(k));
        let last = t.skip(k + 1);
        (
            if folder.len() == 0 {
                seq!['/']
            } else {
                folder
            },
            if last == seq!['.', '.'] {
                path
            } else {
                last
            },
        )
    } else {
        (Seq::empty(), if t == seq!['.', '.'] {
            path
        } else {
            t
        })
    }
}

/// How many characters of `s`, among its first `end`, remain once the `/`
/// characters at the end of those are dropped.
fn trimmed_len(s: &str, end: usize) -> (r: usize)
    requires
        end <= s@.len(),
    ensures
        r <= end,
        trim_end_slashes(s@.take(end as int)) == s@.take(r as int),
{
    let mut e = end;
    while e > 0 && s.get_char(e - 1) == '/'
        invariant
            e <= end,
            end <= s@.len(),
            trim_end_slashes(s@.take(end as int)) == trim_end_slashes(s@.take(e as int)),
        decreases e,
    {
        proof {
            assert(s@.take(e as int).drop_last() =~= s@.take(e - 1));
        }
        e = e - 1;
    }
    proof {
        if e > 0 {
            assert(s@.take(e as int).last() == s@[e - 1]);
        }
    }
    e
}

/// Whether `s` is `..`.
fn is_parent_ref(s: &str) -> (r: bool)
    ensures
        r == (s@ == seq!['.', '.']),
{
    let r = s.unicode_len() == 2 && s.get_char(0) == '.' && s.get_char(1) == '.';
    proof {
        if s@.len() == 2 && s@[0] == '.' && s@[1] == '.' {
            assert(s@ =~= seq!['.', '.']);
        }
    }
    r
}

/// The folder and the name to look a file up by.
pub fn lookup_folder_and_name(path: &str) -> (r: (String, String))
    ensures
        r.0@ == lookup_key(path@).0,
        r.1@ == lookup_key(path@).1,
{
    proof {
        reveal_strlit("/");
    }
    if is_file_id(path) {
        return (String::from_str("/"), String::from_str(path));
    }
    let n = path.unicode_len();
    let e = trimmed_len(path, n);
    proof {
        assert(path@.take(n as int) =~= path@);
    }
    let ghost t = path@.take(e as int);
    if e == 0 {
        return (String::from_str("/"), String::from_str(path));
    }
    let mut k: usize = e;
    while k > 0 && path.get_char(k - 1) != '/'
        invariant
            n == path@.len(),
            e <= n,
            k <= e,
            t == path@.take(e as int),
            forall|j: int| k <= j < e ==> t[j] != '/',
        decreases k,
    {
        k = k - 1;
    }
    let trimmed = path.substring_char(0, e);
    assert(trimmed@ =~= t);
    if k == 0 {
        proof {
            assert(!exists|i: int| 0 <= i < t.len() && t[i] == '/');
        }
        let name = if is_parent_ref(trimmed) {
            String::from_str(path)
        } else {
            String::from_str(trimmed)
        };
        return (String::new(), name);
    }
    let slash = k - 1;
    proof {
        assert(t[slash as int] == '/');
        let c = choose|c: int|
            0 <= c < t.len() && t[c] == '/' && forall|j: int| c < j < t.len() ==> t[j] != '/';
        if c < slash {
            assert(t[slash as int] != '/');
        }
        assert(c == slash);
    }
    let f = trimmed_len(path, slash);
    proof {
        assert(t.take(slash as int) =~= path@.take(slash as int));
    }
    let folder = if f == 0 {
        String::from_str("/")
    } else {
        String::from_str(path.substring_char(0, f))
    };
    let last = path.substring_char(slash + 1, e);
    proof {
        assert(path@.subrange(0, f as int) =~= path@.take(f as int));
        assert(last@ =~= t.skip(slash + 1));
    }
    let name = if is_parent_ref(last) {
        String::from_str(path)
    } else {
        String::from_str(last)
    };
    (folder, name)
}

} // verus!
