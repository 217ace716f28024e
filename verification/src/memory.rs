//! Product memory in builds without the memory feature: storage paths stay
//! stable, operations do nothing or fail with a clear "not compiled" error,
//! and the text helpers keep their behaviour.

use vstd::prelude::*;
use crate::paths::{join_path, join_path_chars, split_on, views};
use crate::text::{chars_of, is_alnum, is_alnum_exec, lower, owned, starts_with, string_of, to_lower, trim_start, trim_start_chars};

verus! {

/// Message of every operation that needs the memory feature.
pub open spec fn not_compiled_message() -> Seq<char> {
    "product memory is not compiled into this build (missing feature `memory`)"@
}

/// The "not compiled" message.
pub fn not_compiled() -> (r: String)
    ensures
        r@ == not_compiled_message(),
{
    owned("product memory is not compiled into this build (missing feature `memory`)")
}

/// An operation the build cannot perform.
pub struct Unsupported {
    pub message: String,
}

/// The unsupported-operation error.
fn unsupported() -> (r: Unsupported)
    ensures
        r.message@ == not_compiled_message(),
{
    Unsupported { message: not_compiled() }
}

#[derive(Clone, Copy, PartialEq, Eq, Structural, Debug)]
pub enum MemorySearchSource {
    Tool,
    Injection,
    CompactionRecovery,
}

#[derive(Clone, Copy, PartialEq, Eq, Structural, Debug)]
pub enum MemoryRetrievalMode {
    FtsOnly,
    Hybrid,
    EmbeddingFallback,
}

#[derive(Clone, Copy, PartialEq, Eq, Structural, Debug)]
pub enum MemorySearchOutcome {
    Results,
    Empty,
    Error,
}

#[derive(Clone, Copy, PartialEq, Eq, Structural, Debug)]
pub enum MemorySearchErrorClass {
    IndexOpen,
    Fts,
    Vector,
}

/// One file-watcher sync, as observed.
#[derive(Clone, Copy, PartialEq, Eq, Structural, Debug)]
pub struct MemoryWatcherSyncObservation {
    pub dirty_file_count: usize,
    pub is_claimed: bool,
    pub reindexed_count: usize,
    pub embedded_count: usize,
    pub duration_ms: u64,
}

#[derive(Clone, Copy, PartialEq, Eq, Structural, Debug)]
pub enum MemoryScope {
    Global,
    Workspace,
}

/// Memory storage locations; always ephemeral in this build.
pub struct MemoryStorage {
    global_dir: String,
    workspace_dir: String,
    workspace_path: String,
    ephemeral: bool,
}

/// Root used when no override is given.
pub open spec fn disabled_root() -> Seq<char> {
    "/dev/null/memory-disabled"@
}

impl MemoryStorage {
    pub closed spec fn global_dir_view(&self) -> Seq<char> {
        self.global_dir@
    }

    pub closed spec fn workspace_dir_view(&self) -> Seq<char> {
        self.workspace_dir@
    }

    pub closed spec fn workspace_path_view(&self) -> Seq<char> {
        self.workspace_path@
    }

    pub closed spec fn ephemeral_view(&self) -> bool {
        self.ephemeral
    }

    /// Storage rooted at `root_override`, or at a path that cannot exist.
    pub fn new(cwd: &str, root_override: Option<&str>) -> (r: Self)
        ensures
            r.global_dir_view() == (match root_override {
                Some(p) => p@,
                None => disabled_root(),
            }),
            r.workspace_dir_view() == r.global_dir_view(),
            r.workspace_path_view() == cwd@,
            r.ephemeral_view(),
    {
        let root = match root_override {
            Some(p) => owned(p),
            None => owned("/dev/null/memory-disabled"),
        };
        MemoryStorage {
            global_dir: root.clone(),
            workspace_dir: root,
            workspace_path: owned(cwd),
            ephemeral: true,
        }
    }

    /// Storage with both scopes in `root`.
    pub fn new_flat(cwd: &str, root: &str) -> (r: Self)
        ensures
            r.global_dir_view() == root@,
            r.workspace_dir_view() == root@,
            r.workspace_path_view() == cwd@,
            r.ephemeral_view(),
    {
        MemoryStorage {
            global_dir: owned(root),
            workspace_dir: owned(root),
            workspace_path: owned(cwd),
            ephemeral: true,
        }
    }

    /// Storage with explicit scope directories, for tests.
    pub fn with_paths(global_dir: String, workspace_dir: String) -> (r: Self)
        ensures
            r.global_dir_view() == global_dir@,
            r.workspace_dir_view() == workspace_dir@,
            r.workspace_path_view() == "/test/workspace"@,
            r.ephemeral_view(),
    {
        MemoryStorage {
            global_dir,
            workspace_dir,
            workspace_path: owned("/test/workspace"),
            ephemeral: true,
        }
    }

    pub fn global_dir(&self) -> (r: &String)
        ensures
            r@ == self.global_dir_view(),
    {
        &self.global_dir
    }

    pub fn workspace_dir(&self) -> (r: &String)
        ensures
            r@ == self.workspace_dir_view(),
    {
        &self.workspace_dir
    }

    pub fn workspace_path(&self) -> (r: &String)
        ensures
            r@ == self.workspace_path_view(),
    {
        &self.workspace_path
    }

    pub fn is_ephemeral(&self) -> (r: bool)
        ensures
            r == self.ephemeral_view(),
    {
        self.ephemeral
    }

    /// No chunks are ever indexed.
    pub fn total_chunk_count(&self) -> (r: usize)
        ensures
            r == 0,
    {
        0
    }

    /// `MEMORY.md` of the global scope.
    pub fn global_memory_file(&self) -> (r: String)
        ensures
            r@ == join_path(self.global_dir_view(), "MEMORY.md"@),
    {
        let b = chars_of(self.global_dir.as_str());
        let f = chars_of("MEMORY.md");
        string_of(join_path_chars(b.as_slice(), f.as_slice()).as_slice())
    }

    /// `MEMORY.md` of the workspace scope.
    pub fn workspace_memory_file(&self) -> (r: String)
        ensures
            r@ == join_path(self.workspace_dir_view(), "MEMORY.md"@),
    {
        let b = chars_of(self.workspace_dir.as_str());
        let f = chars_of("MEMORY.md");
        string_of(join_path_chars(b.as_slice(), f.as_slice()).as_slice())
    }

    /// Every file counts as workspace memory.
    pub fn classify_source(&self, path: &str) -> (r: &'static str)
        ensures
            r@ == "workspace"@,
    {
        "workspace"
    }

    /// `sessions` under the workspace scope.
    pub fn sessions_dir(&self) -> (r: String)
        ensures
            r@ == join_path(self.workspace_dir_view(), "sessions"@),
    {
        let b = chars_of(self.workspace_dir.as_str());
        let f = chars_of("sessions");
        string_of(join_path_chars(b.as_slice(), f.as_slice()).as_slice())
    }

    /// Unsupported in this build.
    pub fn write_daily_log(
        &self,
        date: &str,
        slug: &str,
        session_id: &str,
        content: &str,
        overwrite: bool,
    ) -> (r: Result<String, Unsupported>)
        ensures
            r is Err && r->Err_0.message@ == not_compiled_message(),
    {
        Err(unsupported())
    }

    /// Unsupported in this build.
    pub fn write_long_term(&self, scope: MemoryScope, content: &str) -> (r: Result<(), Unsupported>)
        ensures
            r is Err && r->Err_0.message@ == not_compiled_message(),
    {
        Err(unsupported())
    }

    /// Unsupported in this build.
    pub fn append_to_memory(&self, scope: MemoryScope, content: &str) -> (r: Result<
        (),
        Unsupported,
    >)
        ensures
            r is Err && r->Err_0.message@ == not_compiled_message(),
    {
        Err(unsupported())
    }

    /// Unsupported in this build.
    pub fn read_file(&self, path: &str, from: Option<usize>, lines: Option<usize>) -> (r: Result<
        String,
        Unsupported,
    >)
        ensures
            r is Err && r->Err_0.message@ == not_compiled_message(),
    {
        Err(unsupported())
    }

    /// There are no memory files.
    pub fn list_memory_files(&self) -> (r: Result<Vec<String>, Unsupported>)
        ensures
            r is Ok && r->Ok_0@.len() == 0,
    {
        Ok(Vec::new())
    }

    /// Nothing to initialize.
    pub fn ensure_initialized(&self) -> (r: Result<(), Unsupported>)
        ensures
            r is Ok,
    {
        Ok(())
    }

    /// Nothing is cleared.
    pub fn clear_workspace(&self) -> (r: Result<bool, Unsupported>)
        ensures
            r == Ok::<bool, Unsupported>(false),
    {
        Ok(false)
    }

    /// Nothing is cleared.
    pub fn clear_global(&self) -> (r: Result<bool, Unsupported>)
        ensures
            r == Ok::<bool, Unsupported>(false),
    {
        Ok(false)
    }

    /// Nothing is collected.
    pub fn gc(&self, max_age_days: u64) -> (r: Result<usize, Unsupported>)
        ensures
            r == Ok::<usize, Unsupported>(0),
    {
        Ok(0)
    }
}

/// A character of a slug: ASCII letters and digits lower-cased, anything
/// else a dash.
pub open spec fn slug_char(c: char) -> char {
    if is_alnum(c) {
        lower(c)
    } else {
        '-'
    }
}

/// `input` as a slug of at most `max_len` characters.
pub open spec fn slugify_spec(input: Seq<char>, max_len: nat) -> Seq<char> {
    let s = input.map_values(|c: char| slug_char(c));
    if s.len() <= max_len {
        s
    } else {
        s.subrange(0, max_len as int)
    }
}

/// Slug of `input`, at most `max_len` characters.
pub fn slugify(input: &str, max_len: usize) -> (r: String)
    ensures
        r@ == slugify_spec(input@, max_len as nat),
{
    let c = chars_of(input);
    let mut out: Vec<char> = Vec::new();
    let mut i: usize = 0;
    while i < c.len() && i < max_len
        invariant
            i <= c@.len(),
            i <= max_len,
            out@ == c@.subrange(0, i as int).map_values(|x: char| slug_char(x)),
        decreases c@.len() - i,
    {
        let x = c[i];
        let y = if is_alnum_exec(x) {
            to_lower(x)
        } else {
            '-'
        };
        out.push(y);
        i += 1;
        assert(out@ =~= c@.subrange(0, i as int).map_values(|x: char| slug_char(x)));
    }
    assert(out@ =~= slugify_spec(input@, max_len as nat));
    string_of(out.as_slice())
}

/// File watcher; never started in this build.
pub struct MemoryFileWatcher;

impl MemoryFileWatcher {
    pub fn start(memory_dir: &str) -> (r: Option<Self>)
        ensures
            r is None,
    {
        None
    }

    pub fn is_dirty(&self) -> (r: bool)
        ensures
            !r,
    {
        false
    }

    pub fn take_dirty(&self) -> (r: Vec<String>)
        ensures
            r@.len() == 0,
    {
        Vec::new()
    }
}

/// Credentials for an embedding endpoint; always empty in this build.
pub struct EndpointScopedCredentials;

impl EndpointScopedCredentials {
    pub fn none() -> (r: Self) {
        EndpointScopedCredentials
    }

    pub fn is_empty(&self) -> (r: bool)
        ensures
            r,
    {
        true
    }
}

/// Memory backend; every search is empty.
pub struct MemoryBackendImpl {
    pub search_counter: u64,
}

impl MemoryBackendImpl {
    pub fn new(db_path: &str, storage: MemoryStorage) -> (r: Self)
        ensures
            r.search_counter == 0,
    {
        MemoryBackendImpl { search_counter: 0 }
    }
}

/// Index configuration (no settings in this build).
pub struct MemoryIndexConfig;

/// Counts of a reindex.
#[derive(Clone, Copy, PartialEq, Eq, Structural, Debug)]
pub struct ReindexResult {
    pub added: usize,
    pub updated: usize,
    pub removed: usize,
}

/// The search index; holds nothing.
pub struct MemoryIndex;

impl MemoryIndex {
    pub fn vec_available(&self) -> (r: bool)
        ensures
            !r,
    {
        false
    }

    pub fn reindex_file(&mut self, path: &str, source: &str) -> (r: Result<ReindexResult, String>)
        ensures
            r == Ok::<ReindexResult, String>(ReindexResult { added: 0, updated: 0, removed: 0 }),
    {
        Ok(ReindexResult { added: 0, updated: 0, removed: 0 })
    }

    pub fn delete_path(&mut self, path: &str) -> (r: Result<usize, String>)
        ensures
            r == Ok::<usize, String>(0),
    {
        Ok(0)
    }

    pub fn chunks_without_embeddings(&self) -> (r: Result<Vec<(String, String)>, String>)
        ensures
            r is Ok && r->Ok_0@.len() == 0,
    {
        Ok(Vec::new())
    }
}

/// Nothing to load in this build.
pub fn init_sqlite_vec() {
}

/// Embedding provider; never configured in this build.
pub struct ApiEmbeddingProvider;

/// Embedding provider of fixed dimensions, for tests.
pub struct MockEmbeddingProvider {
    pub dimensions: usize,
}

/// Consolidation lock; never held in this build.
pub struct DreamLock;

impl DreamLock {
    pub fn new(workspace_dir: &str) -> (r: Self) {
        DreamLock
    }

    /// Never consolidated.
    pub fn last_consolidated_at(&self) -> (r: Result<Option<u64>, Unsupported>)
        ensures
            r is Ok && r->Ok_0 is None,
    {
        Ok(None)
    }

    /// Never acquired.
    pub fn try_acquire(&self, stale_secs: u64) -> (r: Result<Option<Option<u64>>, Unsupported>)
        ensures
            r is Ok && r->Ok_0 is None,
    {
        Ok(None)
    }

    pub fn rollback(&self, prior: Option<u64>) -> (r: Result<(), Unsupported>)
        ensures
            r is Ok,
    {
        Ok(())
    }

    pub fn record_consolidation(&self) -> (r: Result<(), Unsupported>)
        ensures
            r is Ok,
    {
        Ok(())
    }
}

/// No sessions are found.
pub fn sessions_since(sessions_dir: &str, since: u64, exclude_sid8: Option<&str>) -> (r: Result<
    Vec<String>,
    Unsupported,
>)
    ensures
        r is Ok && r->Ok_0@.len() == 0,
{
    Ok(Vec::new())
}

/// Whether a consolidation may run.
pub enum DreamGate {
    Open { sessions: Vec<String> },
    Disabled,
    TooSoon { hours_since: u64 },
    TooFewSessions { count: usize, required: u64 },
    Error(String),
}

/// Result of a consolidation run.
pub struct DreamResult {
    pub status: DreamStatus,
    pub sessions_eligible: usize,
    pub cleaned_stems: Vec<String>,
}

/// Status of a consolidation run.
pub enum DreamStatus {
    Skipped(String),
    Completed { chars_written: usize },
    NothingToConsolidate,
    Failed(String),
}

/// The consolidation prompt and the sessions it covers.
pub struct DreamMessage {
    pub content: String,
    pub processed_stems: Vec<String>,
}

/// No consolidation prompt in this build.
pub fn build_dream_user_message(
    sessions_dir: &str,
    stems: &Vec<String>,
    existing_memory: Option<&str>,
) -> (r: Option<DreamMessage>)
    ensures
        r is None,
{
    None
}

/// No consolidation response is used.
pub fn process_dream_response(response: &str) -> (r: Option<String>)
    ensures
        r is None,
{
    None
}

/// Consolidation is skipped with the "not compiled" message.
pub fn execute_dream(
    lock: &DreamLock,
    storage: &MemoryStorage,
    response: &str,
    sessions_eligible: usize,
    stale_lock_secs: u64,
    sessions_dir: &str,
    processed_stems: &Vec<String>,
) -> (r: DreamResult)
    ensures
        r.status matches DreamStatus::Skipped(m) && m@ == not_compiled_message(),
        r.sessions_eligible == sessions_eligible,
        r.cleaned_stems@.len() == 0,
{
    DreamResult {
        status: DreamStatus::Skipped(not_compiled()),
        sessions_eligible,
        cleaned_stems: Vec::new(),
    }
}

/// The memory archive cannot be built.
pub fn build_memory_archive(storage: &MemoryStorage) -> (r: Result<Vec<u8>, Unsupported>)
    ensures
        r is Err && r->Err_0.message@ == not_compiled_message(),
{
    Err(unsupported())
}

/// Some line of `text`, its leading whitespace dropped, starts with `#`.
pub open spec fn has_headers_spec(text: Seq<char>) -> bool {
    exists|k: int|
        0 <= k < split_on(text, '\n').len() && #[trigger] starts_with(
            trim_start(split_on(text, '\n')[k]),
            seq!['#'],
        )
}

/// Whether some line is a markdown header.
pub fn has_markdown_headers(text: &str) -> (r: bool)
    ensures
        r == has_headers_spec(text@),
{
    let c = chars_of(text);
    let lines = crate::paths::split_chars(c.as_slice(), '\n');
    let ghost v = views(lines@);
    let mut k: usize = 0;
    while k < lines.len()
        invariant
            k <= lines@.len(),
            v == views(lines@),
            v == split_on(text@, '\n'),
            forall|q: int| 0 <= q < k ==> !starts_with(trim_start(v[q]), seq!['#']),
        decreases lines@.len() - k,
    {
        let t = trim_start_chars(lines[k].as_slice());
        if t.len() > 0 && t[0] == '#' {
            assert(t@.subrange(0, 1) =~= seq!['#']);
            assert(starts_with(trim_start(v[k as int]), seq!['#']));
            return true;
        }
        proof {
            if starts_with(t@, seq!['#']) {
                assert(t@.subrange(0, 1)[0] == '#');
            }
        }
        k += 1;
    }
    false
}

/// `text` reduced to its lower-cased ASCII letters and digits.
pub open spec fn alnum_lower(text: Seq<char>) -> Seq<char>
    decreases text.len(),
{
    if text.len() == 0 {
        text
    } else if is_alnum(text.last()) {
        alnum_lower(text.drop_last()).push(lower(text.last()))
    } else {
        alnum_lower(text.drop_last())
    }
}

/// Whether a reply means "no reply".
pub fn is_no_reply(text: &str) -> (r: bool)
    ensures
        r == (alnum_lower(text@) == "noreply"@),
{
    let c = chars_of(text);
    let mut n: Vec<char> = Vec::new();
    let mut i: usize = 0;
    while i < c.len()
        invariant
            i <= c@.len(),
            c@ == text@,
            n@ == alnum_lower(c@.subrange(0, i as int)),
        decreases c@.len() - i,
    {
        assert(c@.subrange(0, i + 1).drop_last() =~= c@.subrange(0, i as int));
        if is_alnum_exec(c[i]) {
            n.push(to_lower(c[i]));
        }
        i += 1;
    }
    assert(c@.subrange(0, c@.len() as int) =~= c@);
    let want = chars_of("noreply");
    crate::text::chars_eq(n.as_slice(), want.as_slice())
}

/// Outcome of a memory flush.
pub enum FlushResult {
    NothingToStore,
    Accepted(String),
    Rejected(String),
}

} // verus!
