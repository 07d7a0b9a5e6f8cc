//! How the path of a file to embed is resolved: an absolute path stands as it
//! is, a relative one is taken from the directory of the source file that
//! holds the call site, as the standard `include_bytes!` does.
//!
//! The file system and the environment are read by the caller; the facts it
//! read come in as plain values, and the decisions are taken here.

use vstd::prelude::*;

verus! {

/// What `Path::is_absolute` says of the path `p`, on the platform the crate
/// is built for.
pub uninterp spec fn path_absolute(p: Seq<char>) -> bool;

/// What `Path::parent` gives for the path `p`, as text, on the platform the
/// crate is built for.
pub uninterp spec fn path_parent(p: Seq<char>) -> Option<Seq<char>>;

/// What `Path::join` makes of `base` and `p`, as text, on the platform the
/// crate is built for.
pub uninterp spec fn path_join(base: Seq<char>, p: Seq<char>) -> Seq<char>;

/// What `Path::extension` gives for the path `p`, as text, on the platform
/// the crate is built for.
pub uninterp spec fn path_extension(p: Seq<char>) -> Option<Seq<char>>;

/// Calls `Path::is_absolute` on `p`.
#[verifier::external_body]
fn is_absolute(p: &str) -> (res: bool)
    ensures
        res == path_absolute(p@),
{
    std::path::Path::new(p).is_absolute()
}

/// Calls `Path::parent` on `p`; the parent of a path given as text is a
/// prefix of that text, so it converts back to text without loss.
#[verifier::external_body]
fn parent(p: &str) -> (res: Option<String>)
    ensures
        res matches Some(q) ==> path_parent(p@) == Some(q@),
        res is None ==> path_parent(p@) is None,
{
    match std::path::Path::new(p).parent() {
        Some(q) => Some(q.to_string_lossy().into_owned()),
        None => None,
    }
}

/// Calls `Path::join` on `base` and `p`.
///
/// Claimed beside the name, from the documentation of `join`: where `p` is
/// absolute, it replaces `base`.
#[verifier::external_body]
fn join(base: &str, p: &str) -> (res: String)
    ensures
        res@ == path_join(base@, p@),
        path_absolute(p@) ==> res@ == p@,
{
    std::path::Path::new(base).join(p).to_string_lossy().into_owned()
}

/// Calls `Path::extension` on `p`; an extension of a path given as text is
/// a part of that text, so it converts back to text without loss.
#[verifier::external_body]
fn extension(p: &str) -> (res: Option<String>)
    ensures
        res matches Some(e) ==> path_extension(p@) == Some(e@),
        res is None ==> path_extension(p@) is None,
{
    match std::path::Path::new(p).extension() {
        Some(e) => Some(e.to_string_lossy().into_owned()),
        None => None,
    }
}

/// An optional borrowed string as optional text.
pub open spec fn opt_str_view(o: Option<&str>) -> Option<Seq<char>> {
    match o {
        Some(s) => Some(s@),
        None => None,
    }
}

/// An optional owned string as optional text.
pub open spec fn opt_string_view(o: Option<String>) -> Option<Seq<char>> {
    match o {
        Some(s) => Some(s@),
        None => None,
    }
}

/// The source file that holds a call site, and whether it can be trusted to
/// be the real file on disk.
pub struct InvocationSourceFile {
    pub path: String,
    pub reliable: bool,
}

/// What the file system says of a path built from a directory and the
/// call site's file name.
#[derive(Clone, Copy)]
pub struct CandidateFacts {
    /// The path names a file.
    pub is_file: bool,
    /// The path has a parent directory, and that directory exists.
    pub parent_exists: bool,
}

/// What the compiler, the environment and the file system say about the call
/// site's source file.
pub struct SourceFacts {
    /// The absolute on-disk path of the call site's file, where the compiler
    /// knows one.
    pub local_file: Option<String>,
    /// That path names a file.
    pub local_file_is_file: bool,
    /// The call site's file name as the compiler reports it, often relative
    /// to the crate root.
    pub file: String,
    /// `file` names a file.
    pub file_is_file: bool,
    /// The crate root, where the environment gives one.
    pub manifest_dir: Option<String>,
    /// Facts about `file` joined onto the crate root.
    pub manifest_candidate: CandidateFacts,
    /// The working directory, where it can be read.
    pub cwd: Option<String>,
    /// Facts about `file` joined onto the working directory.
    pub cwd_candidate: CandidateFacts,
}

/// The file name put in a directory when nothing better is known of the
/// call site's source file.
pub open spec fn unknown_file_name() -> Seq<char> {
    "__include_zstd_unknown.rs"@
}

/// Where the call site's source file is taken to be, and whether that is
/// reliable: the compiler's own path where it names a file or has an
/// extension; then an absolute reported name; then the reported name taken
/// from the crate root and from the working directory, reliable where it names
/// a file and kept unreliable where only its directory exists; then an unknown
/// file in the crate root or the working directory; and where neither is
/// known, the reported name as it is, unreliable.
pub open spec fn located_source_file(f: SourceFacts) -> (Seq<char>, bool) {
    let file = f.file@;
    if f.local_file is Some && (path_extension(f.local_file->0@) is Some || f.local_file_is_file) {
        (f.local_file->0@, true)
    } else if path_absolute(file) {
        (file, f.file_is_file)
    } else if file.len() != 0 && f.manifest_dir is Some && f.manifest_candidate.is_file {
        (path_join(f.manifest_dir->0@, file), true)
    } else if file.len() != 0 && f.manifest_dir is Some && f.manifest_candidate.parent_exists {
        (path_join(f.manifest_dir->0@, file), false)
    } else if file.len() != 0 && f.cwd is Some && f.cwd_candidate.is_file {
        (path_join(f.cwd->0@, file), true)
    } else if file.len() != 0 && f.cwd is Some && f.cwd_candidate.parent_exists {
        (path_join(f.cwd->0@, file), false)
    } else if f.manifest_dir is Some {
        (path_join(f.manifest_dir->0@, unknown_file_name()), false)
    } else if f.cwd is Some {
        (path_join(f.cwd->0@, unknown_file_name()), false)
    } else {
        (file, false)
    }
}

/// Decides where the call site's source file is, from what was read about it.
pub fn invocation_source_file_abs(f: &SourceFacts) -> (res: InvocationSourceFile)
    ensures
        (res.path@, res.reliable) == located_source_file(*f),
{
    if let Some(local) = &f.local_file {
        let ext = extension(local.as_str());
        if ext.is_some() || f.local_file_is_file {
            return InvocationSourceFile { path: local.clone(), reliable: true };
        }
    }
    let file = f.file.as_str();
    if is_absolute(file) {
        return InvocationSourceFile { path: f.file.clone(), reliable: f.file_is_file };
    }
    if !file.is_empty() {
        if let Some(manifest) = &f.manifest_dir {
            let candidate = join(manifest.as_str(), file);
            if f.manifest_candidate.is_file {
                return InvocationSourceFile { path: candidate, reliable: true };
            }
            if f.manifest_candidate.parent_exists {
                return InvocationSourceFile { path: candidate, reliable: false };
            }
        }
        if let Some(cwd) = &f.cwd {
            let candidate = join(cwd.as_str(), file);
            if f.cwd_candidate.is_file {
                return InvocationSourceFile { path: candidate, reliable: true };
            }
            if f.cwd_candidate.parent_exists {
                return InvocationSourceFile { path: candidate, reliable: false };
            }
        }
    }
    if let Some(manifest) = &f.manifest_dir {
        return InvocationSourceFile {
            path: join(manifest.as_str(), "__include_zstd_unknown.rs"),
            reliable: false,
        };
    }
    if let Some(cwd) = &f.cwd {
        return InvocationSourceFile {
            path: join(cwd.as_str(), "__include_zstd_unknown.rs"),
            reliable: false,
        };
    }
    InvocationSourceFile { path: f.file.clone(), reliable: false }
}

/// Takes a source file named relative to the crate root from that root.
pub open spec fn absolutized(source_file: Seq<char>, manifest_dir: Option<Seq<char>>) -> Seq<char> {
    if path_absolute(source_file) {
        source_file
    } else if manifest_dir is Some {
        path_join(manifest_dir->0, source_file)
    } else {
        source_file
    }
}

/// Makes a given source file absolute: an absolute path stays, a relative one
/// is taken from the crate root where one is known.
pub fn absolutize_source_file(source_file: &str, manifest_dir: Option<&str>) -> (res: String)
    ensures
        res@ == absolutized(source_file@, opt_str_view(manifest_dir)),
{
    if is_absolute(source_file) {
        return source_file.to_owned();
    }
    match manifest_dir {
        Some(dir) => join(dir, source_file),
        None => source_file.to_owned(),
    }
}

/// Why a path could not be resolved.
pub enum ResolveError {
    /// The source file the path is relative to has no parent directory.
    NoParentDirectory { source_path: String, source_file: String },
}

/// What the caller read for one resolution: the crate root, where the
/// source file of the call site is taken to be, and the single file that the
/// scan of the crate's sources for the path found, where it found one.
pub struct ResolveEnv {
    pub manifest_dir: Option<String>,
    pub invocation: InvocationSourceFile,
    pub literal_match: Option<String>,
}

/// The source file a relative path is taken from, and whether it is
/// reliable: a given source file, made absolute, is; otherwise the call
/// site's file as it was located.
pub open spec fn base_file(source_file: Option<Seq<char>>, env: ResolveEnv) -> (Seq<char>, bool) {
    match source_file {
        Some(sf) => (absolutized(sf, opt_string_view(env.manifest_dir)), true),
        None => (env.invocation.path@, env.invocation.reliable),
    }
}

/// The resolution of `source_path`: itself where it is absolute; the scan's
/// single match where the base file is unreliable and the scan found one; the
/// path joined onto the base file's directory where that file has a parent;
/// and no path (`None`) where it has none.
pub open spec fn resolved(source_file: Option<Seq<char>>, source_path: Seq<char>, env: ResolveEnv) -> Option<Seq<char>> {
    let (file, reliable) = base_file(source_file, env);
    if path_absolute(source_path) {
        Some(source_path)
    } else if !reliable && env.literal_match is Some {
        Some(env.literal_match->0@)
    } else if path_parent(file) is Some {
        Some(path_join(path_parent(file)->0, source_path))
    } else {
        None
    }
}

/// Whether resolving `source_path` reads the scan of the crate's sources:
/// only for a relative path, with no source file given, where the call
/// site's file was not located reliably. Elsewhere the caller need not scan.
pub fn scans_sources(source_file: Option<&str>, source_path: &str, invocation: &InvocationSourceFile) -> (res: bool)
    ensures
        res == (!path_absolute(source_path@) && source_file is None && !invocation.reliable),
{
    !is_absolute(source_path) && source_file.is_none() && !invocation.reliable
}

/// Resolves the path of a file to embed, as `include_bytes!` would.
///
/// Fails only where the source file the path is relative to has no parent
/// directory; the error names the path and that file.
pub fn resolve_path(source_file: Option<&str>, source_path: &str, env: &ResolveEnv) -> (res: Result<String, ResolveError>)
    ensures
        res matches Ok(p) ==> resolved(opt_str_view(source_file), source_path@, *env) == Some(p@),
        res is Err <==> resolved(opt_str_view(source_file), source_path@, *env) is None,
        res matches Err(ResolveError::NoParentDirectory { source_path: sp, source_file: sf }) ==> sp@ == source_path@
            && sf@ == base_file(opt_str_view(source_file), *env).0,
{
    if is_absolute(source_path) {
        return Ok(source_path.to_owned());
    }
    let (file, reliable) = match source_file {
        Some(sf) => {
            let manifest = match &env.manifest_dir {
                Some(m) => Some(m.as_str()),
                None => None,
            };
            (absolutize_source_file(sf, manifest), true)
        },
        None => (env.invocation.path.clone(), env.invocation.reliable),
    };
    if !reliable {
        if let Some(found) = &env.literal_match {
            return Ok(found.clone());
        }
    }
    match parent(file.as_str()) {
        Some(dir) => Ok(join(dir.as_str(), source_path)),
        None => Err(ResolveError::NoParentDirectory { source_path: source_path.to_owned(), source_file: file }),
    }
}

/// An absolute path resolves to itself, whatever the source file.
pub proof fn lemma_absolute_path_stands(source_file: Option<Seq<char>>, source_path: Seq<char>, env: ResolveEnv)
    requires
        path_absolute(source_path),
    ensures
        resolved(source_file, source_path, env) == Some(source_path),
{
}

/// A relative path is taken from the directory of the source file that holds
/// the call site, wherever that file is known reliably and has a directory;
/// the scan of the crate's sources is then not consulted.
pub proof fn lemma_relative_path_from_source_directory(
    source_file: Option<Seq<char>>,
    source_path: Seq<char>,
    env: ResolveEnv,
)
    requires
        !path_absolute(source_path),
        base_file(source_file, env).1,
        path_parent(base_file(source_file, env).0) is Some,
    ensures
        resolved(source_file, source_path, env) == Some(
            path_join(path_parent(base_file(source_file, env).0)->0, source_path),
        ),
{
}

/// With no source file given, a relative path is taken from the directory of
/// the located call-site file, whatever the crate root: the crate root only
/// makes a given source file absolute.
pub proof fn lemma_call_site_directory_is_the_base(source_path: Seq<char>, env: ResolveEnv)
    requires
        !path_absolute(source_path),
        env.invocation.reliable,
        path_parent(env.invocation.path@) is Some,
    ensures
        resolved(None, source_path, env) == Some(path_join(path_parent(env.invocation.path@)->0, source_path)),
{
}

/// Where the call-site file is not located reliably, the file found by the
/// scan of the crate's sources is the resolution of a relative path, whatever
/// the crate root and the located file.
pub proof fn lemma_scan_match_is_taken_when_unreliable(source_path: Seq<char>, env: ResolveEnv)
    requires
        !path_absolute(source_path),
        !env.invocation.reliable,
        env.literal_match is Some,
    ensures
        resolved(None, source_path, env) == Some(env.literal_match->0@),
{
}

/// Where the call-site file is not located reliably and the scan found
/// nothing, a relative path is still taken from the located file's directory.
pub proof fn lemma_unreliable_without_match_uses_located_directory(source_path: Seq<char>, env: ResolveEnv)
    requires
        !path_absolute(source_path),
        !env.invocation.reliable,
        env.literal_match is None,
        path_parent(env.invocation.path@) is Some,
    ensures
        resolved(None, source_path, env) == Some(path_join(path_parent(env.invocation.path@)->0, source_path)),
{
}

/// A given source file is trusted: the scan is never consulted, and a
/// relative path is taken from that file's directory, the file being taken
/// from the crate root where it is relative and a root is known.
pub proof fn lemma_given_source_file_is_the_base(sf: Seq<char>, source_path: Seq<char>, env: ResolveEnv)
    requires
        !path_absolute(source_path),
        !path_absolute(sf),
        env.manifest_dir is Some,
        path_parent(path_join(env.manifest_dir->0@, sf)) is Some,
    ensures
        resolved(Some(sf), source_path, env) == Some(
            path_join(path_parent(path_join(env.manifest_dir->0@, sf))->0, source_path),
        ),
{
}

/// An absolute given source file is the base as it is, whatever the crate
/// root; without a crate root a relative one is left as it is too.
pub proof fn lemma_given_source_file_kept(sf: Seq<char>, source_path: Seq<char>, env: ResolveEnv)
    requires
        !path_absolute(source_path),
        path_absolute(sf) || env.manifest_dir is None,
        path_parent(sf) is Some,
    ensures
        resolved(Some(sf), source_path, env) == Some(path_join(path_parent(sf)->0, source_path)),
{
}

/// Where the base file has no directory, resolution of a relative path
/// fails, unless the scan stands in for an unreliable call-site file.
pub proof fn lemma_no_directory_no_resolution(source_path: Seq<char>, env: ResolveEnv)
    requires
        !path_absolute(source_path),
        env.invocation.reliable || env.literal_match is None,
        path_parent(env.invocation.path@) is None,
    ensures
        resolved(None, source_path, env) is None,
{
}

/// A relative source file with a known crate root is that root joined with
/// the source file; an absolute one, or one with no root known, stays.
pub proof fn lemma_absolutized_from_crate_root(sf: Seq<char>, m: Option<Seq<char>>)
    ensures
        !path_absolute(sf) && m is Some ==> absolutized(sf, m) == path_join(m->0, sf),
        path_absolute(sf) ==> absolutized(sf, m) == sf,
        m is None ==> absolutized(sf, m) == sf,
{
}

/// The compiler's own path of the call-site file, where it has an extension
/// or names a file, is the located file and is reliable, whatever the crate
/// root, the working directory and the reported name say.
pub proof fn lemma_compiler_path_comes_first(f: SourceFacts)
    requires
        f.local_file is Some,
        path_extension(f.local_file->0@) is Some || f.local_file_is_file,
    ensures
        located_source_file(f) == (f.local_file->0@, true),
{
}

/// Without a usable compiler path, an absolute reported name is the located
/// file, reliable exactly where it names a file.
pub proof fn lemma_absolute_reported_name(f: SourceFacts)
    requires
        f.local_file is None || (path_extension(f.local_file->0@) is None && !f.local_file_is_file),
        path_absolute(f.file@),
    ensures
        located_source_file(f) == (f.file@, f.file_is_file),
{
}

/// Without a usable compiler path, a relative reported name that names a
/// file under the crate root is located there, reliably, before the working
/// directory is consulted.
pub proof fn lemma_crate_root_before_working_directory(f: SourceFacts)
    requires
        f.local_file is None || (path_extension(f.local_file->0@) is None && !f.local_file_is_file),
        !path_absolute(f.file@),
        f.file@.len() != 0,
        f.manifest_dir is Some,
        f.manifest_candidate.is_file,
    ensures
        located_source_file(f) == (path_join(f.manifest_dir->0@, f.file@), true),
{
}

/// A located file is marked reliable only where something read says it is
/// the real file: the compiler's path, or a path that names a file.
pub proof fn lemma_reliable_only_on_evidence(f: SourceFacts)
    ensures
        located_source_file(f).1 ==> (f.local_file is Some && (path_extension(f.local_file->0@) is Some
            || f.local_file_is_file)) || f.file_is_file || f.manifest_candidate.is_file
            || f.cwd_candidate.is_file,
{
}

/// The single distinct path among the matches, where there is exactly one.
pub open spec fn single_path(matches: Seq<Seq<char>>) -> Option<Seq<char>> {
    if matches.len() > 0 && (forall|i: int| 0 <= i < matches.len() ==> #[trigger] matches[i] == matches[0]) {
        Some(matches[0])
    } else {
        None
    }
}

/// Picks the file found by the scan of the crate's sources: the one path
/// found, where all matches name the same path, and nothing where there are
/// none or they disagree.
pub fn unique_match(matches: &Vec<String>) -> (res: Option<String>)
    ensures
        opt_string_view(res) == single_path(matches@.map_values(|m: String| m@)),
{
    let ghost views = matches@.map_values(|m: String| m@);
    if matches.len() == 0 {
        return None;
    }
    let first = &matches[0];
    let mut i: usize = 1;
    while i < matches.len()
        invariant
            1 <= i <= matches.len(),
            views == matches@.map_values(|m: String| m@),
            *first == matches@[0],
            forall|j: int| 0 <= j < i ==> #[trigger] views[j] == views[0],
        decreases matches.len() - i,
    {
        if matches[i] != *first {
            assert(views[i as int] != views[0]);
            return None;
        }
        i = i + 1;
    }
    Some(first.clone())
}

/// `pattern` occurs in `text` as a contiguous run of characters.
pub open spec fn occurs_in(pattern: Seq<char>, text: Seq<char>) -> bool {
    exists|i: int| 0 <= i <= text.len() - pattern.len() && #[trigger] text.subrange(i, i + pattern.len()) == pattern
}

/// Calls `str::contains` with a `&str` pattern: whether `pattern` occurs in
/// `text` as a contiguous run of characters, as its documentation says.
#[verifier::external_body]
fn str_contains(text: &str, pattern: &str) -> (res: bool)
    ensures
        res == occurs_in(pattern@, text@),
{
    text.contains(pattern)
}

/// Whether a source file's text mentions the path, so that the file may be
/// the one that holds the call site.
pub fn mentions_path(source: &str, source_path: &str) -> (res: bool)
    ensures
        res == occurs_in(source_path@, source@),
{
    str_contains(source, source_path)
}

/// Whether a path names a Rust source file by its extension.
pub fn is_rust_source(path: &str) -> (res: bool)
    ensures
        res == (path_extension(path@) == Some("rs"@)),
{
    match extension(path) {
        Some(ext) => ext == "rs".to_owned(),
        None => false,
    }
}

/// Whether the scan of the crate's sources leaves out a directory of this
/// name: the build directory `target` and hidden directories.
pub fn is_skipped_dir_name(name: &str) -> (res: bool)
    ensures
        res == (name@ == "target"@ || (name@.len() > 0 && name@[0] == '.')),
{
    let owned = name.to_owned();
    if owned == "target".to_owned() {
        return true;
    }
    let mut chars = name.chars();
    match chars.next() {
        Some(c) => c == '.',
        None => false,
    }
}

} // verus!
