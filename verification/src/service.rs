//! The lookup service: two tables, the loading state, and the operations
//! that clients call.

use vstd::prelude::*;
use vstd::string::StringExecFns;
use crate::hashing::{compute, spec_compute, spec_parse_table, HashtableType};
use crate::error::LoadError;
use crate::ingest::{
    all_lines_parse, classify_file, ingest_lines, lemma_last_line_wins, lines_view,
    spec_apply_lines,
    spec_classify_file, spec_parse_line, spec_token, FileError, HexError, IngestError,
};
use crate::lifecycle::{ensure_answer, ensure_next, finish_next, LoadingState, Readiness};
use crate::text::{decimal, spec_decimal};
use crate::table::TableStore;

verus! {

/// The answer to a lookup.
#[derive(Clone, Debug)]
pub struct GetStringResponse {
    pub found: bool,
    pub value: String,
}

/// The answer to an insertion.
#[derive(Clone, Debug)]
pub struct AddHashResponse {
    pub success: bool,
    pub message: String,
}

/// The answer to an unload.
#[derive(Clone, Debug)]
pub struct UnloadHashesResponse {
    pub success: bool,
    pub message: String,
}

/// The answer to a load.
#[derive(Clone, Debug)]
pub struct LoadHashesResponse {
    pub success: bool,
    pub message: String,
    pub count: i32,
}

/// A directory entry of the cache with the lines read from it.
#[derive(Clone, Debug)]
pub struct SourceFile {
    /// The file name, without the directory.
    pub name: String,
    /// Whether the entry is a regular file.
    pub is_file: bool,
    /// The lines of the file, without their line ends.
    pub lines: Vec<String>,
}

impl SourceFile {
    /// The table that the file is loaded into, if any.
    pub open spec fn spec_table(self) -> Option<HashtableType> {
        spec_classify_file(self.name@, self.is_file)
    }

    /// The lines of the file as character sequences.
    pub open spec fn spec_lines(self) -> Seq<Seq<char>> {
        lines_view(self.lines@)
    }

    /// Whether loading the file cannot fail: it belongs to no table, or
    /// every line of it parses.
    pub open spec fn is_clean(self) -> bool {
        self.spec_table() is Some ==> all_lines_parse(self.spec_lines())
    }
}

/// Whether `e` names the first line among those of `files` that is loaded
/// into a table and does not parse.
pub open spec fn is_first_failure(files: Seq<SourceFile>, e: FileError) -> bool {
    &&& e.file < files.len()
    &&& forall|i: int| 0 <= i < e.file ==> (#[trigger] files[i]).is_clean()
    &&& files[e.file as int].spec_table() is Some
    &&& e.error.line < files[e.file as int].lines@.len()
    &&& all_lines_parse(files[e.file as int].spec_lines().take(e.error.line as int))
    &&& spec_parse_line(files[e.file as int].spec_lines()[e.error.line as int]) == Err::<
        (u64, Seq<char>),
        HexError,
    >(e.error.kind)
    &&& e.error.token@ == spec_token(files[e.file as int].spec_lines()[e.error.line as int])
}

/// How far an operation that needs loaded tables has come.
#[derive(Clone, Debug)]
pub enum Step<T> {
    /// The operation is done; this is its answer.
    Done(T),
    /// A load is under way; the operation did nothing and reports an error.
    Busy,
    /// Nothing was loaded. The caller has been made the loader: it must run
    /// the load and hand its outcome to the function that finishes the
    /// operation.
    MustLoad,
}

/// How far an operation that always answers has come: it is done, or the
/// caller has to load first.
#[derive(Clone, Debug)]
pub enum Answer<T> {
    /// The operation is done; this is its answer.
    Done(T),
    /// The caller has been made the loader: it must run the load and hand
    /// its outcome to the function that finishes the operation.
    MustLoad,
}

/// What the service holds, as mathematics.
pub struct ServiceModel {
    pub state: LoadingState,
    pub game: Map<u64, Seq<char>>,
    pub bin: Map<u64, Seq<char>>,
}

impl ServiceModel {
    /// The contents of one table.
    pub open spec fn table(self, t: HashtableType) -> Map<u64, Seq<char>> {
        match t {
            HashtableType::Game => self.game,
            HashtableType::Bin => self.bin,
        }
    }

    /// The service with one table replaced.
    pub open spec fn with_table(self, t: HashtableType, entries: Map<u64, Seq<char>>) -> Self {
        match t {
            HashtableType::Game => ServiceModel { game: entries, ..self },
            HashtableType::Bin => ServiceModel { bin: entries, ..self },
        }
    }

    /// The service with another loading state.
    pub open spec fn with_state(self, state: LoadingState) -> Self {
        ServiceModel { state, ..self }
    }

    /// The service after a caller has asked for loaded tables.
    pub open spec fn ensure(self) -> Self {
        self.with_state(ensure_next(self.state))
    }

    /// The string that a lookup finds: the one stored under `hash` in the
    /// table that `table_name` selects. A name that selects no table finds
    /// nothing.
    pub open spec fn lookup(self, table_name: Seq<char>, hash: u64) -> Option<Seq<char>> {
        match spec_parse_table(table_name) {
            Some(t) => if self.table(t).contains_key(hash) {
                Some(self.table(t)[hash])
            } else {
                None
            },
            None => None,
        }
    }

    /// The service after `string` has been added to the table that
    /// `table_name` selects, under the hash that the table computes for it.
    /// A name that selects no table changes nothing.
    pub open spec fn insert(self, table_name: Seq<char>, string: Seq<char>) -> Self {
        match spec_parse_table(table_name) {
            Some(t) => self.with_table(t, self.table(t).insert(spec_compute(t, string), string)),
            None => self,
        }
    }

    /// The service after the first `upto` lines of a file have been loaded
    /// into the table that the file belongs to. A file that belongs to no
    /// table changes nothing.
    pub open spec fn load_file(self, file: SourceFile, upto: int) -> Self {
        match file.spec_table() {
            Some(t) => self.with_table(
                t,
                spec_apply_lines(self.table(t), file.spec_lines().take(upto)),
            ),
            None => self,
        }
    }

    /// The service after all of `files` have been loaded, in order.
    pub open spec fn load_files(self, files: Seq<SourceFile>) -> Self
        decreases files.len(),
    {
        if files.len() == 0 {
            self
        } else {
            self.load_files(files.drop_last()).load_file(
                files.last(),
                files.last().lines@.len() as int,
            )
        }
    }

    /// The service after `files` have been loaded up to, and without, the
    /// line that `e` names.
    pub open spec fn load_until(self, files: Seq<SourceFile>, e: FileError) -> Self {
        self.load_files(files.take(e.file as int)).load_file(
            files[e.file as int],
            e.error.line as int,
        )
    }

    /// The service after an unload: both tables empty, nothing loaded.
    pub open spec fn unload(self) -> Self {
        ServiceModel { state: LoadingState::Unloaded, game: Map::empty(), bin: Map::empty() }
    }
}

/// The service: the two tables and the loading state.
pub struct ServiceHashLoader {
    game_hashes: TableStore,
    bin_hashes: TableStore,
    loading_state: LoadingState,
}

impl View for ServiceHashLoader {
    type V = ServiceModel;

    closed spec fn view(&self) -> ServiceModel {
        ServiceModel {
            state: self.loading_state,
            game: self.game_hashes@,
            bin: self.bin_hashes@,
        }
    }
}

impl ServiceHashLoader {
    /// A service with two empty tables and nothing loaded.
    pub fn new() -> (s: Self)
        ensures
            s@.state == LoadingState::Unloaded,
            s@.game == Map::<u64, Seq<char>>::empty(),
            s@.bin == Map::<u64, Seq<char>>::empty(),
    {
        ServiceHashLoader {
            game_hashes: TableStore::new(),
            bin_hashes: TableStore::new(),
            loading_state: LoadingState::Unloaded,
        }
    }

    /// The loading state.
    pub fn loading_state(&self) -> (r: LoadingState)
        ensures
            r == self@.state,
    {
        self.loading_state
    }

    /// The table of the given kind.
    pub fn get_hashtable(&self, hashtable_type: &HashtableType) -> (t: &TableStore)
        ensures
            t@ == self@.table(*hashtable_type),
    {
        match hashtable_type {
            HashtableType::Game => &self.game_hashes,
            HashtableType::Bin => &self.bin_hashes,
        }
    }

    /// The number of entries of the game table and of the bin table.
    pub fn get_counts(&self) -> (r: (usize, usize))
        ensures
            r.0 == self@.game.len(),
            r.1 == self@.bin.len(),
    {
        (self.game_hashes.len(), self.bin_hashes.len())
    }

    /// Asks for loaded tables. See [`LoadingState::ensure_loaded`]; the
    /// tables are not touched.
    pub fn ensure_loaded(&mut self) -> (r: Readiness)
        ensures
            r == ensure_answer(old(self)@.state),
            final(self)@ == old(self)@.ensure(),
    {
        self.loading_state.ensure_loaded()
    }

    /// Looks `hash` up in the table that `table_name` selects, whatever the
    /// loading state. Where nothing is found the value is empty.
    pub fn lookup(&self, table_name: &str, hash: u64) -> (r: GetStringResponse)
        ensures
            r.found == self@.lookup(table_name@, hash).is_some(),
            r.found ==> r.value@ == self@.lookup(table_name@, hash).unwrap(),
            !r.found ==> r.value@ == Seq::<char>::empty(),
    {
        let found = match HashtableType::parse(table_name) {
            Some(t) => self.get_hashtable(&t).get(hash),
            None => None,
        };
        match found {
            Some(value) => GetStringResponse { found: true, value },
            None => GetStringResponse { found: false, value: String::new() },
        }
    }

    /// A lookup on behalf of a client. Asks for loaded tables first; only
    /// where they are loaded is the lookup made.
    pub fn get_string(&mut self, table_name: &str, hash: u64) -> (r: Step<GetStringResponse>)
        ensures
            final(self)@ == old(self)@.ensure(),
            match ensure_answer(old(self)@.state) {
                Readiness::Ready => {
                    &&& r matches Step::Done(resp)
                    &&& resp.found == old(self)@.lookup(table_name@, hash).is_some()
                    &&& resp.found ==> resp.value@ == old(self)@.lookup(table_name@, hash).unwrap()
                    &&& !resp.found ==> resp.value@ == Seq::<char>::empty()
                },
                Readiness::Busy => r is Busy,
                Readiness::MustLoad => r is MustLoad,
            },
    {
        match self.ensure_loaded() {
            Readiness::Ready => Step::Done(self.lookup(table_name, hash)),
            Readiness::Busy => Step::Busy,
            Readiness::MustLoad => Step::MustLoad,
        }
    }

    /// Adds `string` to the table that `table_name` selects, under the hash
    /// that the table computes for it, whatever the loading state. What was
    /// stored under that hash is replaced. A name that selects no table is
    /// reported in the answer, and nothing changes.
    pub fn insert_hash(&mut self, table_name: &str, string: String) -> (r: AddHashResponse)
        ensures
            final(self)@ == old(self)@.insert(table_name@, string@),
            r.success == spec_parse_table(table_name@).is_some(),
            r.success ==> r.message@ == "Added hash successfully"@,
            !r.success ==> r.message@ == "Invalid hashtable type"@,
    {
        match HashtableType::parse(table_name) {
            Some(t) => {
                let hash = compute(t, string.as_str());
                match t {
                    HashtableType::Game => self.game_hashes.insert(hash, string),
                    HashtableType::Bin => self.bin_hashes.insert(hash, string),
                }
                AddHashResponse {
                    success: true,
                    message: String::from_str("Added hash successfully"),
                }
            },
            None => AddHashResponse {
                success: false,
                message: String::from_str("Invalid hashtable type"),
            },
        }
    }

    /// An insertion on behalf of a client. Asks for loaded tables first.
    /// Where they are loaded the string is added. While a load is under
    /// way nothing is added, and the answer reports the failure.
    pub fn add_hash(&mut self, table_name: &str, string: String) -> (r: Answer<AddHashResponse>)
        ensures
            match ensure_answer(old(self)@.state) {
                Readiness::Ready => {
                    &&& final(self)@ == old(self)@.insert(table_name@, string@)
                    &&& r matches Answer::Done(resp)
                    &&& resp.success == spec_parse_table(table_name@).is_some()
                    &&& resp.success ==> resp.message@ == "Added hash successfully"@
                    &&& !resp.success ==> resp.message@ == "Invalid hashtable type"@
                },
                Readiness::Busy => {
                    &&& final(self)@ == old(self)@
                    &&& r matches Answer::Done(resp)
                    &&& !resp.success
                    &&& resp.message@ == spec_load_failure_message(LoadError::Busy)
                },
                Readiness::MustLoad => r is MustLoad && final(self)@ == old(self)@.ensure(),
            },
    {
        match self.ensure_loaded() {
            Readiness::Ready => Answer::Done(self.insert_hash(table_name, string)),
            Readiness::Busy => Answer::Done(
                AddHashResponse { success: false, message: load_failure_message(&LoadError::Busy) },
            ),
            Readiness::MustLoad => Answer::MustLoad,
        }
    }

    /// Records how the load that an insertion asked for has ended, and
    /// answers the insertion: after a success the string is added as
    /// [`ServiceHashLoader::insert_hash`] adds it; after a failure nothing
    /// is added, and the answer reports the failure.
    pub fn finish_add_hash(
        &mut self,
        outcome: Result<(), LoadError>,
        table_name: &str,
        string: String,
    ) -> (r: AddHashResponse)
        ensures
            final(self)@.state == finish_next(outcome is Ok),
            match outcome {
                Ok(()) => {
                    &&& final(self)@ == old(self)@.with_state(LoadingState::Loaded).insert(
                        table_name@,
                        string@,
                    )
                    &&& r.success == spec_parse_table(table_name@).is_some()
                    &&& r.success ==> r.message@ == "Added hash successfully"@
                    &&& !r.success ==> r.message@ == "Invalid hashtable type"@
                },
                Err(e) => {
                    &&& final(self)@ == old(self)@.with_state(LoadingState::Unloaded)
                    &&& !r.success
                    &&& r.message@ == spec_load_failure_message(e)
                },
            },
    {
        self.loading_state.finish_load(outcome.is_ok());
        match outcome {
            Ok(()) => self.insert_hash(table_name, string),
            Err(e) => AddHashResponse { success: false, message: load_failure_message(&e) },
        }
    }

    /// Records how the load that a lookup asked for has ended, and makes
    /// the lookup: after a success the answer is as
    /// [`ServiceHashLoader::lookup`] gives it; after a failure the error is
    /// handed back.
    pub fn finish_get_string(
        &mut self,
        outcome: Result<(), LoadError>,
        table_name: &str,
        hash: u64,
    ) -> (r: Result<GetStringResponse, LoadError>)
        ensures
            final(self)@ == old(self)@.with_state(finish_next(outcome is Ok)),
            match outcome {
                Ok(()) => {
                    &&& r matches Ok(resp)
                    &&& resp.found == old(self)@.lookup(table_name@, hash).is_some()
                    &&& resp.found ==> resp.value@ == old(self)@.lookup(table_name@, hash).unwrap()
                    &&& !resp.found ==> resp.value@ == Seq::<char>::empty()
                },
                Err(e) => r == Err::<GetStringResponse, LoadError>(e),
            },
    {
        self.loading_state.finish_load(outcome.is_ok());
        match outcome {
            Ok(()) => Ok(self.lookup(table_name, hash)),
            Err(e) => Err(e),
        }
    }

    /// Empties both tables, releases their storage and marks the service
    /// as unloaded, whatever the state was.
    pub fn unload_hashes(&mut self) -> (r: UnloadHashesResponse)
        ensures
            final(self)@ == old(self)@.unload(),
            r.success,
            r.message@ == "Hashtables unloaded successfully"@,
    {
        self.game_hashes.clear();
        self.bin_hashes.clear();
        self.loading_state.unload();
        UnloadHashesResponse {
            success: true,
            message: String::from_str("Hashtables unloaded successfully"),
        }
    }
}

/// Where the cache directory is.
#[derive(Clone, Copy, Debug, PartialEq, Eq, Structural)]
pub enum CacheDirChoice {
    /// The cache directory of the application, as the platform lays it out.
    ProjectCache,
    /// The directory of the application below the user's documents.
    Documents,
}

/// The cache directory to use, or `None` where the platform gives the
/// application no directories at all. On Linux it is the application's
/// cache directory; elsewhere the directory below the user's documents,
/// and the application's cache directory where the user has no documents
/// directory.
pub open spec fn spec_choose_cache_dir(
    is_linux: bool,
    has_project_dirs: bool,
    has_document_dir: bool,
) -> Option<CacheDirChoice> {
    if !has_project_dirs {
        None
    } else if is_linux || !has_document_dir {
        Some(CacheDirChoice::ProjectCache)
    } else {
        Some(CacheDirChoice::Documents)
    }
}

/// Decides where the cache directory is.
pub fn choose_cache_dir(is_linux: bool, has_project_dirs: bool, has_document_dir: bool) -> (r:
    Result<CacheDirChoice, LoadError>)
    ensures
        match spec_choose_cache_dir(is_linux, has_project_dirs, has_document_dir) {
            Some(choice) => r == Ok::<CacheDirChoice, LoadError>(choice),
            None => {
                &&& r matches Err(LoadError::Environment(report))
                &&& report@ == "Failed to get project directories"@
            },
        },
{
    if !has_project_dirs {
        Err(LoadError::Environment(String::from_str("Failed to get project directories")))
    } else if is_linux || !has_document_dir {
        Ok(CacheDirChoice::ProjectCache)
    } else {
        Ok(CacheDirChoice::Documents)
    }
}

/// The number of entries of both tables together as a signed 32-bit number;
/// a total beyond its range wraps around.
pub open spec fn spec_total_count(game: nat, bin: nat) -> i32 {
    let low = (game + bin) % 0x1_0000_0000;
    if low < 0x8000_0000 {
        low as i32
    } else {
        (low - 0x1_0000_0000) as i32
    }
}

/// The number of entries of both tables together, as the load reports it.
pub fn total_count(game: usize, bin: usize) -> (r: i32)
    ensures
        r == spec_total_count(game as nat, bin as nat),
        game + bin <= i32::MAX ==> r == game + bin,
{
    let low: u128 = (game as u128 + bin as u128) % 0x1_0000_0000;
    if low < 0x8000_0000 {
        low as i32
    } else {
        (low as i64 - 0x1_0000_0000) as i32
    }
}

/// The text that reports a successful load.
pub open spec fn spec_loaded_message(game: nat, bin: nat) -> Seq<char> {
    "Hashtables loaded: "@ + spec_decimal(game) + " game, "@ + spec_decimal(bin)
        + " bin hashes!"@
}

/// The text that reports a failed load.
pub open spec fn spec_load_failure_message(e: LoadError) -> Seq<char> {
    "Failed to load hashtables: "@ + e.spec_message()
}

/// The text that reports a failed load.
pub fn load_failure_message(e: &LoadError) -> (r: String)
    ensures
        r@ == spec_load_failure_message(*e),
{
    String::from_str("Failed to load hashtables: ").concat(e.message().as_str())
}

impl ServiceHashLoader {
    /// Parses `lines` and inserts the entries into the game table if
    /// `to_game` holds, else into the bin table. See [`ingest_lines`].
    pub fn add_from_file(&mut self, lines: &Vec<String>, to_game: bool) -> (r: Result<
        usize,
        IngestError,
    >)
        ensures
            match r {
                Ok(count) => {
                    &&& all_lines_parse(lines_view(lines@))
                    &&& count == lines.len()
                    &&& final(self)@ == old(self)@.with_table(
                        table_of(to_game),
                        spec_apply_lines(old(self)@.table(table_of(to_game)), lines_view(lines@)),
                    )
                },
                Err(e) => {
                    &&& e.line < lines.len()
                    &&& all_lines_parse(lines_view(lines@).take(e.line as int))
                    &&& spec_parse_line(lines@[e.line as int]@) == Err::<
                        (u64, Seq<char>),
                        HexError,
                    >(e.kind)
                    &&& e.token@ == spec_token(lines@[e.line as int]@)
                    &&& final(self)@ == old(self)@.with_table(
                        table_of(to_game),
                        spec_apply_lines(
                            old(self)@.table(table_of(to_game)),
                            lines_view(lines@).take(e.line as int),
                        ),
                    )
                },
            },
    {
        if to_game {
            ingest_lines(&mut self.game_hashes, lines)
        } else {
            ingest_lines(&mut self.bin_hashes, lines)
        }
    }

    /// Loads the files of the cache directory, in the order given. A file
    /// that belongs to no table is passed over. The first line that does
    /// not parse ends the work with an error that names the file and the
    /// line; what was inserted before it stays.
    pub fn add_from_dir(&mut self, files: &Vec<SourceFile>) -> (r: Result<(), FileError>)
        ensures
            match r {
                Ok(()) => {
                    &&& forall|i: int| 0 <= i < files.len() ==> (#[trigger] files@[i]).is_clean()
                    &&& final(self)@ == old(self)@.load_files(files@)
                },
                Err(e) => {
                    &&& is_first_failure(files@, e)
                    &&& final(self)@ == old(self)@.load_until(files@, e)
                },
            },
    {
        let mut i: usize = 0;
        while i < files.len()
            invariant
                i <= files.len(),
                forall|k: int| 0 <= k < i ==> (#[trigger] files@[k]).is_clean(),
                self@ == old(self)@.load_files(files@.take(i as int)),
            decreases files.len() - i,
        {
            let file = &files[i];
            let ghost before = self@;
            assert(files@.take(i + 1).drop_last() =~= files@.take(i as int));
            assert(files@.take(i + 1).last() == files@[i as int]);
            match classify_file(file.name.as_str(), file.is_file) {
                Some(t) => {
                    let to_game = match t {
                        HashtableType::Game => true,
                        HashtableType::Bin => false,
                    };
                    match self.add_from_file(&file.lines, to_game) {
                        Ok(_) => {
                            assert(file.spec_lines().take(file.lines@.len() as int)
                                =~= file.spec_lines());
                        },
                        Err(error) => {
                            return Err(FileError { file: i, error });
                        },
                    }
                },
                None => {},
            }
            i = i + 1;
        }
        assert(files@.take(i as int) =~= files@);
        Ok(())
    }

    /// The second half of a load: the files of the cache directory are
    /// loaded, unless the sync before it failed, in which case nothing is
    /// touched and its error is handed on.
    pub fn load_hashes_impl(&mut self, synced: Result<(), LoadError>, files: &Vec<SourceFile>) -> (r:
        Result<(), LoadError>)
        ensures
            synced is Err ==> r == synced && final(self)@ == old(self)@,
            synced is Ok ==> match r {
                Ok(()) => {
                    &&& forall|i: int| 0 <= i < files.len() ==> (#[trigger] files@[i]).is_clean()
                    &&& final(self)@ == old(self)@.load_files(files@)
                },
                Err(e) => {
                    &&& e matches LoadError::Parse(error)
                    &&& is_first_failure(files@, error)
                    &&& final(self)@ == old(self)@.load_until(files@, error)
                },
            },
    {
        match synced {
            Err(e) => Err(e),
            Ok(()) => match self.add_from_dir(files) {
                Ok(()) => Ok(()),
                Err(e) => Err(LoadError::Parse(e)),
            },
        }
    }

    /// Records how the load that an earlier answer asked for has ended, and
    /// hands the outcome back: the service is loaded after a success and
    /// unloaded after a failure.
    pub fn finish_ensure_loaded(&mut self, outcome: Result<(), LoadError>) -> (r: Result<
        (),
        LoadError,
    >)
        ensures
            r == outcome,
            final(self)@ == old(self)@.with_state(finish_next(outcome is Ok)),
    {
        self.loading_state.finish_load(outcome.is_ok());
        outcome
    }

    /// An explicit request to load, whatever is loaded now. Unless a load
    /// is under way the caller is made the loader; else the answer reports
    /// the failure.
    pub fn load_hashes(&mut self) -> (r: Answer<LoadHashesResponse>)
        ensures
            old(self)@.state == LoadingState::Loading ==> {
                &&& final(self)@ == old(self)@
                &&& r matches Answer::Done(resp)
                &&& !resp.success
                &&& resp.message@ == spec_load_failure_message(LoadError::Busy)
                &&& resp.count == 0
            },
            old(self)@.state != LoadingState::Loading ==> {
                &&& final(self)@ == old(self)@.with_state(LoadingState::Loading)
                &&& r is MustLoad
            },
    {
        match self.loading_state.force_load() {
            Readiness::MustLoad => Answer::MustLoad,
            _ => Answer::Done(
                LoadHashesResponse {
                    success: false,
                    message: load_failure_message(&LoadError::Busy),
                    count: 0,
                },
            ),
        }
    }

    /// Records how an explicitly requested load has ended and answers the
    /// request: after a success with the number of entries of both tables,
    /// after a failure with its report.
    pub fn finish_load_hashes(&mut self, outcome: Result<(), LoadError>) -> (r: LoadHashesResponse)
        ensures
            final(self)@ == old(self)@.with_state(finish_next(outcome is Ok)),
            r.success == (outcome is Ok),
            match outcome {
                Ok(()) => {
                    &&& r.message@ == spec_loaded_message(
                        old(self)@.game.len(),
                        old(self)@.bin.len(),
                    )
                    &&& r.count == spec_total_count(old(self)@.game.len(), old(self)@.bin.len())
                },
                Err(e) => {
                    &&& r.message@ == spec_load_failure_message(e)
                    &&& r.count == 0
                },
            },
    {
        self.loading_state.finish_load(outcome.is_ok());
        match outcome {
            Ok(()) => {
                let (game_count, bin_count) = self.get_counts();
                let message = String::from_str("Hashtables loaded: ").concat(
                    decimal(game_count as u64).as_str(),
                ).concat(" game, ").concat(decimal(bin_count as u64).as_str()).concat(
                    " bin hashes!",
                );
                LoadHashesResponse {
                    success: true,
                    message,
                    count: total_count(game_count, bin_count),
                }
            },
            Err(e) => LoadHashesResponse {
                success: false,
                message: load_failure_message(&e),
                count: 0,
            },
        }
    }
}

/// A service whose tables are loaded is not changed by a caller that asks
/// for loaded tables.
pub proof fn lemma_loaded_service_is_kept(m: ServiceModel)
    requires
        m.state == LoadingState::Loaded,
    ensures
        ensure_answer(m.state) == Readiness::Ready,
        m.ensure() == m,
{
}

/// After an unload no lookup finds anything, whatever was stored before,
/// and the next caller that asks for loaded tables is made the loader of a
/// fresh load, which leaves the service loaded when it succeeds.
pub proof fn lemma_unload_forgets(m: ServiceModel, table_name: Seq<char>, hash: u64)
    ensures
        m.unload().lookup(table_name, hash) is None,
        ensure_answer(m.unload().state) == Readiness::MustLoad,
        m.unload().ensure().state == LoadingState::Loading,
        m.unload().ensure().with_state(finish_next(true)).state == LoadingState::Loaded,
{
}

/// A string that has been added to a table is found there under the hash
/// that the table computes for it, and the other table is as it was.
pub proof fn lemma_added_string_is_found(
    m: ServiceModel,
    t: HashtableType,
    table_name: Seq<char>,
    string: Seq<char>,
)
    requires
        spec_parse_table(table_name) == Some(t),
    ensures
        m.insert(table_name, string).lookup(table_name, spec_compute(t, string)) == Some(string),
        forall|other: HashtableType|
            other != t ==> m.insert(table_name, string).table(other) == m.table(other),
        m.insert(table_name, string).state == m.state,
{
}

/// What a file stores is found afterwards: if a line of a table file parses
/// to `hash` and `value`, and no later line of the file parses to the same
/// hash, then after the file has been loaded a lookup under the name of its
/// table finds `value` under `hash`.
pub proof fn lemma_loaded_line_is_found(
    m: ServiceModel,
    file: SourceFile,
    t: HashtableType,
    k: int,
    hash: u64,
    value: Seq<char>,
)
    requires
        file.spec_table() == Some(t),
        0 <= k < file.spec_lines().len(),
        spec_parse_line(file.spec_lines()[k]) == Ok::<(u64, Seq<char>), HexError>((hash, value)),
        forall|j: int|
            k < j < file.spec_lines().len() ==> (spec_parse_line(
                #[trigger] file.spec_lines()[j],
            ) matches Ok(entry) ==> entry.0 != hash),
    ensures
        m.load_file(file, file.lines@.len() as int).lookup(t.spec_name(), hash) == Some(value),
{
    let lines = file.spec_lines();
    assert(lines.take(file.lines@.len() as int) =~= lines);
    lemma_last_line_wins(m.table(t), lines, k, hash, value);
    t.lemma_name_selects();
}

/// A lookup under a name that selects no table finds nothing, and on a
/// loaded service it changes nothing, the loading state included.
pub proof fn lemma_unknown_table_finds_nothing(m: ServiceModel, table_name: Seq<char>, hash: u64)
    requires
        spec_parse_table(table_name) is None,
        m.state == LoadingState::Loaded,
    ensures
        m.lookup(table_name, hash) is None,
        ensure_answer(m.state) == Readiness::Ready,
        m.ensure() == m,
{
}

/// The table that a file is loaded into.
pub open spec fn table_of(to_game: bool) -> HashtableType {
    if to_game {
        HashtableType::Game
    } else {
        HashtableType::Bin
    }
}

} // verus!
