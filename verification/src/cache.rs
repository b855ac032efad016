//! The on-disk shader cache: where it lives, what its files are called, the
//! content hash that decides whether a compiled shader can be reused, and the
//! decisions of one compilation as a state machine whose disk and process work
//! the caller performs.
use vstd::prelude::*;
use std::collections::hash_map::DefaultHasher;
use std::hash::Hasher;
use vstd::std_specs::hash::DefaultHasherAdditionalSpecFns;
use crate::text::{spec_hex_lower, hex_lower, str_eq, alnum_ends};

verus! {

/// The result of trimming leading and trailing Unicode white space from `s`.
pub uninterp spec fn spec_trim(s: Seq<char>) -> Seq<char>;

/// `str::trim`: the text without leading and trailing white space. What the
/// contract states: the result is the trim of the argument, a function of the
/// argument alone; a text that is empty, or begins and ends with an ASCII letter
/// or digit (none of which is white space), is returned unchanged. Which
/// characters count as white space otherwise is left to the name.
#[verifier::external_body]
fn trim_text(s: &str) -> (r: String)
    ensures
        r@ == spec_trim(s@),
        alnum_ends(s@) ==> r@ == s@,
{
    s.trim().to_string()
}

/// Whether `c` is a path separator on some platform.
pub open spec fn is_separator(c: char) -> bool {
    c == '/' || c == '\\'
}

/// Whether the component of `p` that starts at `j` is `.` or `..`.
pub open spec fn dot_component(p: Seq<char>, j: int) -> bool {
    ||| (j < p.len() && p[j] == '.' && (j + 1 == p.len() || p[j + 1] == '/'))
    ||| (j + 1 < p.len() && p[j] == '.' && p[j + 1] == '.' && (j + 2 == p.len() || p[j + 2] == '/'))
}

/// Whether `p` is a plain absolute path, read alike on every platform: it
/// starts with `/`, has more than that and no trailing `/`, no `\\`, `:` or
/// `?`, no empty component (`//`) and no `.` or `..` component.
pub open spec fn plain_absolute(p: Seq<char>) -> bool {
    &&& p.len() > 1
    &&& p[0] == '/'
    &&& p[p.len() - 1] != '/'
    &&& !p.contains('\\')
    &&& !p.contains(':')
    &&& !p.contains('?')
    &&& forall|i: int| 0 <= i < p.len() - 1 && #[trigger] p[i] == '/' ==> p[i + 1] != '/'
    &&& forall|i: int| 0 <= i < p.len() && #[trigger] p[i] == '/' ==> !dot_component(p, i + 1)
}

/// The index of the last `/` among the first `k` characters of `p`, or -1.
pub open spec fn spec_last_slash(p: Seq<char>, k: int) -> int
    decreases k,
{
    if k <= 0 {
        -1
    } else if p[k - 1] == '/' {
        k - 1
    } else {
        spec_last_slash(p, k - 1)
    }
}

/// The parent of a plain absolute path: the text before its last `/`, or `/`
/// when that `/` is the first character.
pub open spec fn spec_plain_parent(p: Seq<char>) -> Seq<char> {
    let k = spec_last_slash(p, p.len() as int);
    if k <= 0 { seq!['/'] } else { p.subrange(0, k) }
}

proof fn lemma_last_slash(p: Seq<char>, k: int)
    requires
        0 <= k <= p.len(),
    ensures
        -1 <= spec_last_slash(p, k) < k,
        spec_last_slash(p, k) >= 0 ==> p[spec_last_slash(p, k)] == '/',
        k > 0 && p[0] == '/' ==> spec_last_slash(p, k) >= 0,
    decreases k,
{
    if k > 0 {
        lemma_last_slash(p, k - 1);
    }
}

/// `Path::parent` of `p`, as text. What the contract states, from the
/// documentation of `Path::parent` on inputs that every platform reads alike:
/// a parent, when there is one, is a leading part of `p`; a plain absolute path
/// has the parent `spec_plain_parent`; and a path without `:` or `\\` that
/// does not start with `//` and holds a character other than `/` and `.` has a
/// parent (so of such paths only those made of `/` and `.` alone, the empty
/// path and `/` among them, have none). Which leading part other paths
/// get depends on the platform's path syntax and is left open.
#[verifier::external_body]
fn path_parent(p: &str) -> (r: Option<String>)
    ensures
        r matches Some(q) ==> q@.len() <= p@.len() && q@ == p@.subrange(0, q@.len() as int),
        plain_absolute(p@) ==> r is Some && r->0@ == spec_plain_parent(p@),
        (!p@.contains(':') && !p@.contains('\\') && !(p@.len() >= 2 && p@[0] == '/' && p@[1] == '/')
            && exists|i: int| 0 <= i < p@.len() && #[trigger] p@[i] != '/' && p@[i] != '.') ==> r is Some,
{
    std::path::Path::new(p).parent().map(|q| q.to_string_lossy().into_owned())
}

/// Whether `r` is `base` followed by `segment`, with nothing, `/` or `\\`
/// between them.
pub open spec fn joined(base: Seq<char>, segment: Seq<char>, r: Seq<char>) -> bool {
    ||| r == base + segment
    ||| r == base + seq!['/'] + segment
    ||| r == base + seq!['\\'] + segment
}

/// `Path::join` of a base path and a relative segment, as text. What the
/// contract states, from the source of `PathBuf::push`: a segment that is not
/// absolute and has no prefix is appended to the base, after the platform's
/// separator unless the base is empty or already ends with a separator. Which
/// separator the platform uses (`/` or `\\`) is left open. A base with a `?`
/// may be a Windows verbatim path, which `push` renders anew from its
/// components; of such a base nothing is stated.
#[verifier::external_body]
fn path_join(base: &str, segment: &str) -> (r: String)
    requires
        segment@.len() > 0,
        segment@[0] != '/',
        segment@[0] != '\\',
        !segment@.contains(':'),
    ensures
        !base@.contains('?') ==> joined(base@, segment@, r@),
        (!base@.contains('?') && !base@.contains(':')) ==> {
            &&& (base@.len() == 0 || base@[base@.len() - 1] == '/') ==> r@ == base@ + segment@
            &&& (base@.len() > 0 && !is_separator(base@[base@.len() - 1])) ==> r@ == base@ + seq!['/'] + segment@
                || r@ == base@ + seq!['\\'] + segment@
        },
{
    std::path::Path::new(base).join(segment).to_string_lossy().into_owned()
}

/// The writes that hashing the text `s` makes into a `DefaultHasher`.
pub uninterp spec fn spec_str_hash_writes(s: Seq<char>) -> Seq<Seq<u8>>;

/// `Hash::hash` of a `str` into a `DefaultHasher`. What the contract states:
/// the hasher's record of writes grows by writes that depend on the text alone
/// (the bytes of the text and a terminator, in the standard library's source);
/// which writes they are is left to the name.
#[verifier::external_body]
fn hash_str(s: &str, hasher: &mut DefaultHasher)
    ensures
        final(hasher)@ == old(hasher)@ + spec_str_hash_writes(s@),
{
    std::hash::Hash::hash(s, hasher)
}

/// The value that a fresh `DefaultHasher` gives after hashing the text `s`.
pub open spec fn spec_default_hash(s: Seq<char>) -> u64 {
    DefaultHasher::spec_finish(spec_str_hash_writes(s))
}

/// Whether `t` starts with `p`.
pub open spec fn starts_with(t: Seq<char>, p: Seq<char>) -> bool {
    t.len() >= p.len() && t.subrange(0, p.len() as int) == p
}

/// The directory that holds cached struct layouts and shaders: `target/enki_cache`
/// under the parent of the macro crate's manifest directory (under the manifest
/// directory itself when it has no parent). Which leading part of the manifest
/// directory is its parent depends on the platform's path syntax.
pub open spec fn is_cache_dir_of(manifest_dir: Seq<char>, r: Seq<char>) -> bool {
    exists|root: Seq<char>, target: Seq<char>|
        #![trigger joined(root, "target"@, target), joined(target, "enki_cache"@, r)]
        starts_with(manifest_dir, root) && joined(root, "target"@, target) && joined(target, "enki_cache"@, r)
}

/// The cache directory of a plain absolute manifest directory: `target` and
/// then `enki_cache` under its parent, each after the separator `s1`, `s2`
/// (no separator after a parent that is `/`).
pub open spec fn spec_plain_cache_dir(manifest_dir: Seq<char>, s1: char, s2: char) -> Seq<char> {
    let root = spec_plain_parent(manifest_dir);
    (if root == seq!['/'] { root } else { root.push(s1) }) + "target"@ + seq![s2] + "enki_cache"@
}

/// The directory that holds cached struct layouts and shaders: `target/enki_cache`
/// under the parent of the manifest directory. For a plain absolute manifest
/// directory it is exactly that, up to the platform's separator; of a manifest
/// directory with a `?` in it (a possible Windows verbatim path) nothing is stated.
pub fn get_cache_dir(manifest_dir: &str) -> (r: String)
    ensures
        !manifest_dir@.contains('?') ==> is_cache_dir_of(manifest_dir@, r@),
        plain_absolute(manifest_dir@) ==> exists|s1: char, s2: char|
            is_separator(s1) && is_separator(s2) && #[trigger] spec_plain_cache_dir(manifest_dir@, s1, s2) == r@,
{
    proof {
        reveal_strlit("target");
        reveal_strlit("enki_cache");
    }
    let root = match path_parent(manifest_dir) {
        Some(p) => p,
        None => String::from_str(manifest_dir),
    };
    assert(manifest_dir@.subrange(0, manifest_dir@.len() as int) =~= manifest_dir@);
    assert(starts_with(manifest_dir@, root@));
    assert(!"target"@.contains(':'));
    let target = path_join(root.as_str(), "target");
    assert(!"enki_cache"@.contains(':'));
    let dir = path_join(target.as_str(), "enki_cache");
    proof {
        if !manifest_dir@.contains('?') {
            assert(!root@.contains('?')) by {
                if root@.contains('?') {
                    let i = choose|i: int| 0 <= i < root@.len() && root@[i] == '?';
                    assert(manifest_dir@[i] == root@[i]);
                }
            }
            assert(!target@.contains('?')) by {
                if target@.contains('?') {
                    let i = choose|i: int| 0 <= i < target@.len() && target@[i] == '?';
                    if i < root@.len() {
                        assert(root@[i] == '?');
                    } else {
                        assert(target@[i] != '?');
                    }
                }
            }
            assert(joined(root@, "target"@, target@) && joined(target@, "enki_cache"@, dir@));
        }
        if plain_absolute(manifest_dir@) {
            lemma_plain_cache_dir(manifest_dir@, root@, target@, dir@);
        }
    }
    dir
}

proof fn lemma_plain_cache_dir(m: Seq<char>, root: Seq<char>, target: Seq<char>, dir: Seq<char>)
    requires
        plain_absolute(m),
        root == spec_plain_parent(m),
        !root.contains('?') && !root.contains(':') ==> {
            &&& (root.len() == 0 || root[root.len() - 1] == '/') ==> target == root + "target"@
            &&& (root.len() > 0 && !is_separator(root[root.len() - 1])) ==> target == root + seq!['/'] + "target"@
                || target == root + seq!['\\'] + "target"@
        },
        !target.contains('?') && !target.contains(':') ==> {
            &&& (target.len() == 0 || target[target.len() - 1] == '/') ==> dir == target + "enki_cache"@
            &&& (target.len() > 0 && !is_separator(target[target.len() - 1])) ==> dir == target + seq!['/'] + "enki_cache"@
                || dir == target + seq!['\\'] + "enki_cache"@
        },
    ensures
        exists|s1: char, s2: char|
            is_separator(s1) && is_separator(s2) && #[trigger] spec_plain_cache_dir(m, s1, s2) == dir,
{
    reveal_strlit("target");
    reveal_strlit("enki_cache");
    let k = spec_last_slash(m, m.len() as int);
    lemma_last_slash(m, m.len() as int);
    assert(0 <= k < m.len());
    assert(m[k] == '/');
    let t = "target"@;
    // The parent is free of `?`, `:` and `\\`, and ends with `/` only when it is `/`.
    assert(!root.contains('?') && !root.contains(':') && !root.contains('\\')) by {
        if k > 0 {
            assert forall|i: int| 0 <= i < root.len() implies root[i] == m[i] by {}
            if root.contains('?') {
                let i = choose|i: int| 0 <= i < root.len() && root[i] == '?';
                assert(m[i] == '?');
            }
            if root.contains(':') {
                let i = choose|i: int| 0 <= i < root.len() && root[i] == ':';
                assert(m[i] == ':');
            }
            if root.contains('\\') {
                let i = choose|i: int| 0 <= i < root.len() && root[i] == '\\';
                assert(m[i] == '\\');
            }
        }
    }
    if k > 0 {
        assert(root[root.len() - 1] == m[k - 1]);
        assert(m[k - 1] != '/') by {
            if m[k - 1] == '/' {
                assert(m[(k - 1) + 1] != '/');
            }
        }
        assert(m[k - 1] != '\\');
    }
    let s1: char = if k <= 0 || target == root + seq!['/'] + t { '/' } else { '\\' };
    assert(target == (if root == seq!['/'] { root } else { root.push(s1) }) + t) by {
        if k <= 0 {
            assert(root == seq!['/']);
            assert(target == root + t);
        } else {
            assert(root.len() == k);
            assert(root != seq!['/']) by {
                if root == seq!['/'] {
                    assert(root[0] == m[0]);
                    assert(root.len() == 1);
                    assert(m[0] == '/' && m[k - 1] != '/');
                }
            }
            assert(root + seq![s1] + t =~= root.push(s1) + t);
        }
    }
    assert(target.len() > 0 && target[target.len() - 1] == 't');
    assert(!target.contains('?') && !target.contains(':')) by {
        assert forall|i: int| 0 <= i < target.len() implies target[i] != '?' && target[i] != ':' by {
            let pre = if root == seq!['/'] { root } else { root.push(s1) };
            if i < root.len() {
                assert(target[i] == root[i]);
            } else if i < pre.len() {
                assert(target[i] == s1);
            } else {
                assert(target[i] == t[i - pre.len()]);
            }
        }
    }
    let s2: char = if dir == target + seq!['/'] + "enki_cache"@ { '/' } else { '\\' };
    assert(spec_plain_cache_dir(m, s1, s2) =~= dir);
}

/// The name of the cache file that holds the layout of struct `name`.
pub fn struct_cache_file_name(name: &str) -> (r: String)
    ensures
        r@ == name@ + ".json"@,
{
    crate::error::cat(name, ".json")
}

/// The content hash of a shader source, in lower-case hexadecimal.
pub fn calculate_hash(source: &str) -> (r: String)
    ensures
        r@ == spec_hex_lower(spec_default_hash(source@) as nat),
{
    let mut hasher = DefaultHasher::new();
    hash_str(source, &mut hasher);
    assert(hasher@ =~= spec_str_hash_writes(source@));
    let h = hasher.finish();
    hex_lower(h)
}

/// The three cache files of a shader: its source, its SPIR-V, its source hash.
pub struct ShaderCacheFiles {
    pub source: String,
    pub spirv: String,
    pub hash: String,
}

/// The cache file names of the shader of function `name`.
pub fn shader_cache_files(name: &str) -> (r: ShaderCacheFiles)
    ensures
        r.source@ == name@ + ".slang"@,
        r.spirv@ == name@ + ".spv"@,
        r.hash@ == name@ + ".hash"@,
{
    ShaderCacheFiles {
        source: crate::error::cat(name, ".slang"),
        spirv: crate::error::cat(name, ".spv"),
        hash: crate::error::cat(name, ".hash"),
    }
}

/// Whether a cached hash file's text matches the hash of the current source:
/// white space around the cached text is ignored.
pub fn cached_hash_matches(cached: &str, current_hash: &str) -> (r: bool)
    ensures
        r == (spec_trim(cached@) == current_hash@),
        alnum_ends(cached@) ==> r == (cached@ == current_hash@),
{
    let t = trim_text(cached);
    str_eq(t.as_str(), current_hash)
}

/// Where a compilation stands.
pub enum CompileStage {
    /// The cache directory is being made sure of.
    EnsureDir,
    /// The cached hash is being read.
    ProbeCache,
    /// The cached SPIR-V is being read after a hash match.
    ReadCached,
    /// The source is being written into the cache.
    WriteSource,
    /// The compiler is running.
    Compile,
    /// The compiled SPIR-V is being read.
    ReadOutput,
    /// The hash of the compiled source is being recorded; the SPIR-V waits here.
    WriteHash(Vec<u8>),
    /// The compilation has ended.
    Done,
}

/// What the caller does next.
pub enum CompileAction {
    /// Create the cache directory unless it exists.
    EnsureCacheDir,
    /// Read the hash file, if both it and the SPIR-V file exist.
    ReadCachedHash,
    /// Read the cached SPIR-V file.
    ReadCachedSpirv,
    /// Write the source file atomically.
    WriteSource,
    /// Run `slangc` on the source file.
    RunCompiler,
    /// Read the compiled SPIR-V file.
    ReadCompiledSpirv,
    /// Write the hash file atomically.
    WriteHash,
    /// Stop, with the SPIR-V or the message that explains the failure.
    Finish(Result<Vec<u8>, String>),
}

/// What the caller reports after performing an action.
pub enum CompileEvent {
    /// The cache directory exists now, or the text of the error.
    DirReady(Result<(), String>),
    /// The text of the hash file; `None` when it or the SPIR-V file is missing or
    /// unreadable.
    CachedHash(Option<String>),
    /// The cached SPIR-V; `None` when unreadable.
    CachedSpirv(Option<Vec<u8>>),
    /// The source file was written, or the text of the error.
    SourceWritten(Result<(), String>),
    /// The compiler exited (whether it succeeded, and its error output), or the
    /// text of the error that kept it from starting.
    CompilerRan(Result<(bool, String), String>),
    /// The compiled SPIR-V, or the text of the error.
    CompiledSpirv(Result<Vec<u8>, String>),
    /// The hash file was written, or the text of the error.
    HashWritten(Result<(), String>),
}

/// One compilation of one shader source.
pub struct CompileJob {
    /// The kernel's name.
    pub function_name: String,
    /// The hash of the source being compiled.
    pub source_hash: String,
    /// The path of the source file as `{:?}` writes it, for diagnostics.
    pub source_path_debug: String,
    pub stage: CompileStage,
}

/// The message for a compiler that exited with failure.
pub open spec fn spec_compile_failure(name: Seq<char>, stderr: Seq<char>, path: Seq<char>) -> Seq<char> {
    "[Compiler] Slang compilation failed for function '"@ + name + "'.\nSlangc Output Compiler Error:\n"@
        + stderr + "\nHelp: You can inspect and debug the generated shader code at: "@ + path
}

/// The message for a compiler that could not be started.
pub open spec fn spec_spawn_failure(e: Seq<char>) -> Seq<char> {
    "[Compiler] Failed to execute 'slangc' binary. Ensure Vulkan SDK is installed and 'slangc' is in your system PATH.\nSystem Error Details: "@
        + e
}

/// Whether an action finishes with exactly the given bytes.
pub open spec fn finishes_with_bytes(a: CompileAction, bytes: Seq<u8>) -> bool {
    a matches CompileAction::Finish(Ok(b)) && b@ == bytes
}

/// Whether an action finishes with exactly the given message.
pub open spec fn finishes_with_message(a: CompileAction, m: Seq<char>) -> bool {
    a matches CompileAction::Finish(Err(e)) && e@ == m
}

/// The transition of a compilation on one event: the stage after it, and what
/// the caller does next. An event that does not belong to the stage leaves
/// the job as it is and asks for the stage's action again.
pub open spec fn spec_step(job: CompileJob, event: CompileEvent, next_stage: CompileStage, action: CompileAction) -> bool {
    match (job.stage, event) {
        (CompileStage::EnsureDir, CompileEvent::DirReady(Ok(_))) =>
            next_stage is ProbeCache && action is ReadCachedHash,
        (CompileStage::EnsureDir, CompileEvent::DirReady(Err(e))) =>
            next_stage is Done && finishes_with_message(action, "[Compiler] Failed to create cache directory: "@ + e@),
        (CompileStage::ProbeCache, CompileEvent::CachedHash(Some(h))) =>
            if spec_trim(h@) == job.source_hash@ {
                next_stage is ReadCached && action is ReadCachedSpirv
            } else {
                next_stage is WriteSource && action is WriteSource
            },
        (CompileStage::ProbeCache, CompileEvent::CachedHash(None)) =>
            next_stage is WriteSource && action is WriteSource,
        (CompileStage::ReadCached, CompileEvent::CachedSpirv(Some(b))) =>
            next_stage is Done && finishes_with_bytes(action, b@),
        (CompileStage::ReadCached, CompileEvent::CachedSpirv(None)) =>
            next_stage is WriteSource && action is WriteSource,
        (CompileStage::WriteSource, CompileEvent::SourceWritten(Ok(_))) =>
            next_stage is Compile && action is RunCompiler,
        (CompileStage::WriteSource, CompileEvent::SourceWritten(Err(e))) =>
            next_stage is Done && finishes_with_message(action, "[Compiler] Failed to write Slang file atomically: "@ + e@),
        (CompileStage::Compile, CompileEvent::CompilerRan(Ok((true, _)))) =>
            next_stage is ReadOutput && action is ReadCompiledSpirv,
        (CompileStage::Compile, CompileEvent::CompilerRan(Ok((false, stderr)))) =>
            next_stage is Done && finishes_with_message(
                action,
                spec_compile_failure(job.function_name@, stderr@, job.source_path_debug@),
            ),
        (CompileStage::Compile, CompileEvent::CompilerRan(Err(e))) =>
            next_stage is Done && finishes_with_message(action, spec_spawn_failure(e@)),
        (CompileStage::ReadOutput, CompileEvent::CompiledSpirv(Ok(b))) =>
            next_stage matches CompileStage::WriteHash(kept) && kept@ == b@ && action is WriteHash,
        (CompileStage::ReadOutput, CompileEvent::CompiledSpirv(Err(e))) =>
            next_stage is Done && finishes_with_message(
                action,
                "[Compiler] Failed to read compiled SPIR-V binary from disk: "@ + e@,
            ),
        (CompileStage::WriteHash(kept), CompileEvent::HashWritten(Ok(_))) =>
            next_stage is Done && finishes_with_bytes(action, kept@),
        (CompileStage::WriteHash(_), CompileEvent::HashWritten(Err(e))) =>
            next_stage is Done && finishes_with_message(
                action,
                "[Compiler] Failed to write shader hash file atomically: "@ + e@,
            ),
        (stage, _) => next_stage == stage && spec_stage_action(stage, action),
    }
}

/// The action that a stage asks for.
pub open spec fn spec_stage_action(stage: CompileStage, action: CompileAction) -> bool {
    match stage {
        CompileStage::EnsureDir => action is EnsureCacheDir,
        CompileStage::ProbeCache => action is ReadCachedHash,
        CompileStage::ReadCached => action is ReadCachedSpirv,
        CompileStage::WriteSource => action is WriteSource,
        CompileStage::Compile => action is RunCompiler,
        CompileStage::ReadOutput => action is ReadCompiledSpirv,
        CompileStage::WriteHash(_) => action is WriteHash,
        CompileStage::Done => action matches CompileAction::Finish(Err(e)) && e@ == "[Compiler] Compilation already finished"@,
    }
}

fn finish_err(prefix: &str, e: &String) -> (a: CompileAction)
    ensures
        finishes_with_message(a, prefix@ + e@),
{
    CompileAction::Finish(Err(crate::error::cat(prefix, e.as_str())))
}

impl CompileJob {
    /// Starts the compilation of the source whose hash is `source_hash`; the
    /// first action makes sure of the cache directory.
    pub fn new(function_name: String, source_hash: String, source_path_debug: String) -> (r: (CompileJob, CompileAction))
        ensures
            r.0.function_name == function_name,
            r.0.source_hash == source_hash,
            r.0.source_path_debug == source_path_debug,
            r.0.stage is EnsureDir,
            r.1 is EnsureCacheDir,
    {
        (CompileJob { function_name, source_hash, source_path_debug, stage: CompileStage::EnsureDir }, CompileAction::EnsureCacheDir)
    }

    /// Advances the compilation on the outcome of the last action.
    pub fn step(&mut self, event: CompileEvent) -> (action: CompileAction)
        ensures
            final(self).function_name == old(self).function_name,
            final(self).source_hash == old(self).source_hash,
            final(self).source_path_debug == old(self).source_path_debug,
            spec_step(*old(self), event, final(self).stage, action),
            (old(self).stage is ProbeCache && (event matches CompileEvent::CachedHash(Some(h))
                && h@ == old(self).source_hash@ && alnum_ends(h@)))
                ==> final(self).stage is ReadCached && action is ReadCachedSpirv,
    {
        let mut stage = CompileStage::Done;
        std::mem::swap(&mut stage, &mut self.stage);
        match (stage, event) {
            (CompileStage::EnsureDir, CompileEvent::DirReady(Ok(_))) => {
                self.stage = CompileStage::ProbeCache;
                CompileAction::ReadCachedHash
            }
            (CompileStage::EnsureDir, CompileEvent::DirReady(Err(e))) => {
                finish_err("[Compiler] Failed to create cache directory: ", &e)
            }
            (CompileStage::ProbeCache, CompileEvent::CachedHash(Some(h))) => {
                if cached_hash_matches(h.as_str(), self.source_hash.as_str()) {
                    self.stage = CompileStage::ReadCached;
                    CompileAction::ReadCachedSpirv
                } else {
                    self.stage = CompileStage::WriteSource;
                    CompileAction::WriteSource
                }
            }
            (CompileStage::ProbeCache, CompileEvent::CachedHash(None)) => {
                self.stage = CompileStage::WriteSource;
                CompileAction::WriteSource
            }
            (CompileStage::ReadCached, CompileEvent::CachedSpirv(Some(b))) => {
                CompileAction::Finish(Ok(b))
            }
            (CompileStage::ReadCached, CompileEvent::CachedSpirv(None)) => {
                self.stage = CompileStage::WriteSource;
                CompileAction::WriteSource
            }
            (CompileStage::WriteSource, CompileEvent::SourceWritten(Ok(_))) => {
                self.stage = CompileStage::Compile;
                CompileAction::RunCompiler
            }
            (CompileStage::WriteSource, CompileEvent::SourceWritten(Err(e))) => {
                finish_err("[Compiler] Failed to write Slang file atomically: ", &e)
            }
            (CompileStage::Compile, CompileEvent::CompilerRan(Ok((success, stderr)))) => {
                if success {
                    self.stage = CompileStage::ReadOutput;
                    CompileAction::ReadCompiledSpirv
                } else {
                    let mut m = String::from_str("[Compiler] Slang compilation failed for function '");
                    m.append(self.function_name.as_str());
                    m.append("'.\nSlangc Output Compiler Error:\n");
                    m.append(stderr.as_str());
                    m.append("\nHelp: You can inspect and debug the generated shader code at: ");
                    m.append(self.source_path_debug.as_str());
                    CompileAction::Finish(Err(m))
                }
            }
            (CompileStage::Compile, CompileEvent::CompilerRan(Err(e))) => {
                finish_err(
                    "[Compiler] Failed to execute 'slangc' binary. Ensure Vulkan SDK is installed and 'slangc' is in your system PATH.\nSystem Error Details: ",
                    &e,
                )
            }
            (CompileStage::ReadOutput, CompileEvent::CompiledSpirv(Ok(b))) => {
                self.stage = CompileStage::WriteHash(b);
                CompileAction::WriteHash
            }
            (CompileStage::ReadOutput, CompileEvent::CompiledSpirv(Err(e))) => {
                finish_err("[Compiler] Failed to read compiled SPIR-V binary from disk: ", &e)
            }
            (CompileStage::WriteHash(kept), CompileEvent::HashWritten(Ok(_))) => {
                CompileAction::Finish(Ok(kept))
            }
            (CompileStage::WriteHash(_), CompileEvent::HashWritten(Err(e))) => {
                finish_err("[Compiler] Failed to write shader hash file atomically: ", &e)
            }
            (stage, _) => {
                let action = match &stage {
                    CompileStage::EnsureDir => CompileAction::EnsureCacheDir,
                    CompileStage::ProbeCache => CompileAction::ReadCachedHash,
                    CompileStage::ReadCached => CompileAction::ReadCachedSpirv,
                    CompileStage::WriteSource => CompileAction::WriteSource,
                    CompileStage::Compile => CompileAction::RunCompiler,
                    CompileStage::ReadOutput => CompileAction::ReadCompiledSpirv,
                    CompileStage::WriteHash(_) => CompileAction::WriteHash,
                    CompileStage::Done => CompileAction::Finish(Err(String::from_str("[Compiler] Compilation already finished"))),
                };
                self.stage = stage;
                action
            }
        }
    }
}

/// The compiler runs only right after the source was written to the cache
/// (or when asked again from the compiling stage itself).
pub proof fn lemma_compiler_runs_after_source_written(job: CompileJob, event: CompileEvent, next: CompileStage, action: CompileAction)
    requires
        spec_step(job, event, next, action),
        action is RunCompiler,
    ensures
        (job.stage is WriteSource && event matches CompileEvent::SourceWritten(Ok(_))) || job.stage is Compile,
{
}

/// A cache hit hands back the cached SPIR-V without running the compiler:
/// after a hash that matches, the cached bytes finish the job.
pub proof fn lemma_cache_hit_returns_cached_spirv(
    job: CompileJob,
    hash_text: String,
    mid: CompileStage,
    a1: CompileAction,
    cached: Vec<u8>,
    last: CompileStage,
    a2: CompileAction,
)
    requires
        job.stage is ProbeCache,
        spec_trim(hash_text@) == job.source_hash@,
        spec_step(job, CompileEvent::CachedHash(Some(hash_text)), mid, a1),
        spec_step(CompileJob { stage: mid, ..job }, CompileEvent::CachedSpirv(Some(cached)), last, a2),
    ensures
        a1 is ReadCachedSpirv,
        last is Done,
        finishes_with_bytes(a2, cached@),
{
}

/// The SPIR-V a fresh compilation finishes with is the SPIR-V read from the
/// compiler's output, after the hash file was written.
pub proof fn lemma_compiled_spirv_is_returned(
    job: CompileJob,
    out: Vec<u8>,
    mid: CompileStage,
    a1: CompileAction,
    last: CompileStage,
    a2: CompileAction,
)
    requires
        job.stage is ReadOutput,
        spec_step(job, CompileEvent::CompiledSpirv(Ok(out)), mid, a1),
        spec_step(CompileJob { stage: mid, ..job }, CompileEvent::HashWritten(Ok(())), last, a2),
    ensures
        a1 is WriteHash,
        last is Done,
        finishes_with_bytes(a2, out@),
{
}

/// A finished job stays finished: whatever is reported, it asks for nothing
/// more than to stop.
pub proof fn lemma_done_is_final(job: CompileJob, event: CompileEvent, next: CompileStage, action: CompileAction)
    requires
        job.stage is Done,
        spec_step(job, event, next, action),
    ensures
        next is Done,
        action is Finish,
{
}

} // verus!
