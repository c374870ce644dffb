//! The order of the steps of a sync, as a machine that is told what
//! happened and answers what to do next. The caller performs each action
//! and reports its outcome as the next event.

use vstd::prelude::*;
use crate::error::SyncError;
use crate::sync::{
    digest_file_name, needs_download, source_url, spec_digest_file_name, spec_is_current,
    spec_source_url, LocalCopy, MetaView, RemoteMeta, SOURCE_COUNT,
};

verus! {

/// What the machine waits for.
#[derive(Clone, Copy, Debug, PartialEq, Eq, Structural)]
pub enum SyncPhase {
    /// The sync has not begun.
    Idle,
    /// The metadata of the current source has been asked for.
    AwaitMeta,
    /// The cache has been asked what it holds of the current source.
    AwaitProbe,
    /// The body of the current source has been asked for.
    AwaitBody,
    /// The body is being written to the cache.
    AwaitFileWrite,
    /// The digest is being written to the cache.
    AwaitDigestWrite,
    /// The sync has ended, in success or in failure.
    Ended,
}

/// What happened.
#[derive(Debug)]
pub enum SyncEvent {
    /// The caller asks the sync to begin.
    Started,
    /// The metadata of the current source, or why it could not be had.
    Fetched(Result<RemoteMeta, SyncError>),
    /// What the cache holds of the current source.
    Probed(LocalCopy),
    /// The body of the current source, or why it could not be had.
    Downloaded(Result<Vec<u8>, String>),
    /// The body has been written, or why it could not be.
    FileWritten(Result<(), String>),
    /// The digest has been written, or why it could not be.
    DigestWritten(Result<(), String>),
}

/// What to do next.
#[derive(Clone, Debug)]
pub enum SyncAction {
    /// Ask the remote host for the metadata at this address.
    Fetch { url: String },
    /// Look in the cache for the file and for the digest file beside it.
    Probe { file_name: String, digest_file_name: String },
    /// Ask the remote host for the file body at this address.
    Download { url: String },
    /// Write the body to the file of this name in the cache.
    WriteFile { file_name: String, data: Vec<u8> },
    /// Write the digest to the digest file of this name in the cache.
    WriteDigest { digest_file_name: String, digest: String },
    /// Every source is in the cache: the sync has succeeded.
    Finished,
    /// The sync is given up. What earlier steps stored stays.
    Failed(SyncError),
}

/// An event as mathematics.
pub enum EventView {
    Started,
    Fetched(Result<MetaView, SyncError>),
    Probed { file_exists: bool, stored_digest: Option<Seq<char>> },
    Downloaded(Result<Seq<u8>, String>),
    FileWritten(Result<(), String>),
    DigestWritten(Result<(), String>),
}

impl View for SyncEvent {
    type V = EventView;

    open spec fn view(&self) -> EventView {
        match *self {
            SyncEvent::Started => EventView::Started,
            SyncEvent::Fetched(Ok(meta)) => EventView::Fetched(Ok(meta@)),
            SyncEvent::Fetched(Err(e)) => EventView::Fetched(Err(e)),
            SyncEvent::Probed(local) => EventView::Probed {
                file_exists: local.file_exists,
                stored_digest: local.spec_stored(),
            },
            SyncEvent::Downloaded(Ok(data)) => EventView::Downloaded(Ok(data@)),
            SyncEvent::Downloaded(Err(report)) => EventView::Downloaded(Err(report)),
            SyncEvent::FileWritten(r) => EventView::FileWritten(r),
            SyncEvent::DigestWritten(r) => EventView::DigestWritten(r),
        }
    }
}

/// An action as mathematics.
pub enum ActionView {
    Fetch { url: Seq<char> },
    Probe { file_name: Seq<char>, digest_file_name: Seq<char> },
    Download { url: Seq<char> },
    WriteFile { file_name: Seq<char>, data: Seq<u8> },
    WriteDigest { digest_file_name: Seq<char>, digest: Seq<char> },
    Finished,
    Failed(SyncError),
}

impl View for SyncAction {
    type V = ActionView;

    open spec fn view(&self) -> ActionView {
        match *self {
            SyncAction::Fetch { url } => ActionView::Fetch { url: url@ },
            SyncAction::Probe { file_name, digest_file_name } => ActionView::Probe {
                file_name: file_name@,
                digest_file_name: digest_file_name@,
            },
            SyncAction::Download { url } => ActionView::Download { url: url@ },
            SyncAction::WriteFile { file_name, data } => ActionView::WriteFile {
                file_name: file_name@,
                data: data@,
            },
            SyncAction::WriteDigest { digest_file_name, digest } => ActionView::WriteDigest {
                digest_file_name: digest_file_name@,
                digest: digest@,
            },
            SyncAction::Finished => ActionView::Finished,
            SyncAction::Failed(e) => ActionView::Failed(e),
        }
    }
}

/// The view of an optional action.
pub open spec fn action_view(action: Option<SyncAction>) -> Option<ActionView> {
    match action {
        Some(a) => Some(a@),
        None => None,
    }
}

/// The machine as mathematics: the phase, the index of the current source,
/// and the metadata of the current source once it is known.
pub struct SyncModel {
    pub phase: SyncPhase,
    pub source: int,
    pub meta: MetaView,
}

impl SyncModel {
    /// The sync of the source with the given index begins: its metadata is
    /// asked for; past the last source the sync has succeeded.
    pub open spec fn open_source(self, index: int) -> (SyncModel, Option<ActionView>) {
        if index < SOURCE_COUNT {
            (
                SyncModel { phase: SyncPhase::AwaitMeta, source: index, ..self },
                Some(ActionView::Fetch { url: spec_source_url(index) }),
            )
        } else {
            (
                SyncModel { phase: SyncPhase::Ended, source: index, ..self },
                Some(ActionView::Finished),
            )
        }
    }

    /// The sync is given up.
    pub open spec fn fail(self, e: SyncError) -> (SyncModel, Option<ActionView>) {
        (SyncModel { phase: SyncPhase::Ended, ..self }, Some(ActionView::Failed(e)))
    }

    /// The machine moves to another phase and asks for an action.
    pub open spec fn go(self, phase: SyncPhase, action: ActionView) -> (
        SyncModel,
        Option<ActionView>,
    ) {
        (SyncModel { phase, ..self }, Some(action))
    }

    /// One step: the state after the event, and the action to perform. An
    /// event that does not answer the action that is pending changes
    /// nothing and asks for nothing.
    pub open spec fn step(self, event: EventView) -> (SyncModel, Option<ActionView>) {
        match (self.phase, event) {
            (SyncPhase::Idle, EventView::Started) => self.open_source(0),
            (SyncPhase::AwaitMeta, EventView::Fetched(Ok(meta))) => SyncModel {
                meta,
                ..self
            }.go(
                SyncPhase::AwaitProbe,
                ActionView::Probe {
                    file_name: meta.name,
                    digest_file_name: spec_digest_file_name(meta.name),
                },
            ),
            (SyncPhase::AwaitMeta, EventView::Fetched(Err(e))) => self.fail(e),
            (SyncPhase::AwaitProbe, EventView::Probed { file_exists, stored_digest }) => {
                if spec_is_current(file_exists, stored_digest, self.meta.digest) {
                    self.open_source(self.source + 1)
                } else {
                    self.go(
                        SyncPhase::AwaitBody,
                        ActionView::Download { url: self.meta.download_url },
                    )
                }
            },
            (SyncPhase::AwaitBody, EventView::Downloaded(Ok(data))) => self.go(
                SyncPhase::AwaitFileWrite,
                ActionView::WriteFile { file_name: self.meta.name, data },
            ),
            (SyncPhase::AwaitBody, EventView::Downloaded(Err(report))) => self.fail(
                SyncError::Download(report),
            ),
            (SyncPhase::AwaitFileWrite, EventView::FileWritten(Ok(()))) => self.go(
                SyncPhase::AwaitDigestWrite,
                ActionView::WriteDigest {
                    digest_file_name: spec_digest_file_name(self.meta.name),
                    digest: self.meta.digest,
                },
            ),
            (SyncPhase::AwaitFileWrite, EventView::FileWritten(Err(report))) => self.fail(
                SyncError::WriteFile(report),
            ),
            (SyncPhase::AwaitDigestWrite, EventView::DigestWritten(Ok(()))) => self.open_source(
                self.source + 1,
            ),
            (SyncPhase::AwaitDigestWrite, EventView::DigestWritten(Err(report))) => self.fail(
                SyncError::WriteDigest(report),
            ),
            _ => (self, None),
        }
    }
}

/// The state of the machine after a run of events.
pub open spec fn state_after(m: SyncModel, events: Seq<EventView>) -> SyncModel
    decreases events.len(),
{
    if events.len() == 0 {
        m
    } else {
        state_after(m, events.drop_last()).step(events.last()).0
    }
}

/// The action with which the machine answers the event with index `k` of a
/// run.
pub open spec fn action_at(m: SyncModel, events: Seq<EventView>, k: int) -> Option<ActionView> {
    state_after(m, events.take(k)).step(events[k]).1
}

/// Whether every probe of a run finds the current revision of the source
/// that it is made for.
pub open spec fn probes_find_current(m: SyncModel, events: Seq<EventView>) -> bool {
    forall|i: int|
        0 <= i < events.len() ==> (#[trigger] events[i] matches EventView::Probed {
            file_exists,
            stored_digest,
        } ==> spec_is_current(
            file_exists,
            stored_digest,
            state_after(m, events.take(i)).meta.digest,
        ))
}

/// Whether an action leaves the remote file bodies and the cache alone: it
/// is no download and no write.
pub open spec fn leaves_cache_alone(action: Option<ActionView>) -> bool {
    match action {
        Some(ActionView::Download { .. }) => false,
        Some(ActionView::WriteFile { .. }) => false,
        Some(ActionView::WriteDigest { .. }) => false,
        _ => true,
    }
}

/// Whether the machine is in a phase in which no body is under way.
pub open spec fn is_quiet(phase: SyncPhase) -> bool {
    phase == SyncPhase::Idle || phase == SyncPhase::AwaitMeta || phase == SyncPhase::AwaitProbe
        || phase == SyncPhase::Ended
}

/// As long as every probe finds a current copy, the machine never waits for
/// a body or a write.
pub proof fn lemma_current_cache_keeps_quiet(m: SyncModel, events: Seq<EventView>, n: int)
    requires
        m.phase == SyncPhase::Idle,
        probes_find_current(m, events),
        0 <= n <= events.len(),
    ensures
        is_quiet(state_after(m, events.take(n)).phase),
    decreases n,
{
    if n == 0 {
        assert(events.take(0) =~= Seq::<EventView>::empty());
    } else {
        lemma_current_cache_keeps_quiet(m, events, n - 1);
        assert(events.take(n).drop_last() =~= events.take(n - 1));
        assert(events.take(n).last() == events[n - 1]);
    }
}

/// A sync over a cache that holds the current revision of every source
/// downloads nothing and writes nothing: whatever the events of the run, if
/// each probe finds a current copy, no answer of the machine is a download
/// or a write.
pub proof fn lemma_current_cache_is_left_alone(m: SyncModel, events: Seq<EventView>, k: int)
    requires
        m.phase == SyncPhase::Idle,
        probes_find_current(m, events),
        0 <= k < events.len(),
    ensures
        leaves_cache_alone(action_at(m, events, k)),
{
    lemma_current_cache_keeps_quiet(m, events, k);
}

/// What a sync has stored is current for the next sync: a probe that finds
/// the file, and beside it the digest as it was written, finds a current
/// copy as long as the remote host reports the same digest.
pub proof fn lemma_stored_digest_is_current(digest: Seq<char>)
    ensures
        spec_is_current(true, Some(digest), digest),
{
}

/// A source is downloaded exactly if the cache does not hold its file
/// together with the digest that the remote host reports: a probe in its
/// turn is answered with a download in that case, and in no other.
pub proof fn lemma_download_iff_not_current(
    m: SyncModel,
    file_exists: bool,
    stored_digest: Option<Seq<char>>,
)
    requires
        m.phase == SyncPhase::AwaitProbe,
    ensures
        m.step(EventView::Probed { file_exists, stored_digest }).1 is Some,
        m.step(EventView::Probed { file_exists, stored_digest }).1.unwrap() is Download <==> !(
        file_exists && stored_digest == Some(m.meta.digest)),
{
}

/// The machine that orders the steps of a sync.
pub struct SyncMachine {
    phase: SyncPhase,
    source: usize,
    meta: RemoteMeta,
}

impl View for SyncMachine {
    type V = SyncModel;

    closed spec fn view(&self) -> SyncModel {
        SyncModel { phase: self.phase, source: self.source as int, meta: self.meta@ }
    }
}

impl SyncMachine {
    #[verifier::type_invariant]
    spec fn source_in_range(self) -> bool {
        if self.phase == SyncPhase::Idle || self.phase == SyncPhase::Ended {
            self.source <= SOURCE_COUNT
        } else {
            self.source < SOURCE_COUNT
        }
    }

    /// A machine whose sync has not begun: it waits to be started, stands
    /// before the first source, and knows no metadata yet.
    pub fn new() -> (m: SyncMachine)
        ensures
            m@.phase == SyncPhase::Idle,
            m@.source == 0,
            m@.meta.digest == Seq::<char>::empty(),
            m@.meta.download_url == Seq::<char>::empty(),
            m@.meta.name == Seq::<char>::empty(),
    {
        SyncMachine {
            phase: SyncPhase::Idle,
            source: 0,
            meta: RemoteMeta {
                digest: String::new(),
                download_url: String::new(),
                name: String::new(),
            },
        }
    }

    /// The phase of the machine.
    pub fn phase(&self) -> (p: SyncPhase)
        ensures
            p == self@.phase,
    {
        self.phase
    }

    /// Takes an event and answers with the action to perform next, or with
    /// `None` where the event does not answer the action that is pending.
    pub fn step(&mut self, event: SyncEvent) -> (r: Option<SyncAction>)
        ensures
            (final(self)@, action_view(r)) == old(self)@.step(event@),
    {
        proof {
            use_type_invariant(&*self);
        }
        match (self.phase, event) {
            (SyncPhase::Idle, SyncEvent::Started) => Some(self.open_source(0)),
            (SyncPhase::AwaitMeta, SyncEvent::Fetched(Ok(meta))) => {
                let action = SyncAction::Probe {
                    file_name: meta.name.clone(),
                    digest_file_name: digest_file_name(meta.name.as_str()),
                };
                self.phase = SyncPhase::AwaitProbe;
                self.meta = meta;
                Some(action)
            },
            (SyncPhase::AwaitMeta, SyncEvent::Fetched(Err(e))) => Some(self.fail(e)),
            (SyncPhase::AwaitProbe, SyncEvent::Probed(local)) => {
                if needs_download(&local, self.meta.digest.as_str()) {
                    self.phase = SyncPhase::AwaitBody;
                    Some(SyncAction::Download { url: self.meta.download_url.clone() })
                } else {
                    let next = self.next_source();
                    Some(self.open_source(next))
                }
            },
            (SyncPhase::AwaitBody, SyncEvent::Downloaded(Ok(data))) => {
                self.phase = SyncPhase::AwaitFileWrite;
                Some(SyncAction::WriteFile { file_name: self.meta.name.clone(), data })
            },
            (SyncPhase::AwaitBody, SyncEvent::Downloaded(Err(report))) => Some(
                self.fail(SyncError::Download(report)),
            ),
            (SyncPhase::AwaitFileWrite, SyncEvent::FileWritten(Ok(()))) => {
                self.phase = SyncPhase::AwaitDigestWrite;
                Some(
                    SyncAction::WriteDigest {
                        digest_file_name: digest_file_name(self.meta.name.as_str()),
                        digest: self.meta.digest.clone(),
                    },
                )
            },
            (SyncPhase::AwaitFileWrite, SyncEvent::FileWritten(Err(report))) => Some(
                self.fail(SyncError::WriteFile(report)),
            ),
            (SyncPhase::AwaitDigestWrite, SyncEvent::DigestWritten(Ok(()))) => {
                let next = self.next_source();
                Some(self.open_source(next))
            },
            (SyncPhase::AwaitDigestWrite, SyncEvent::DigestWritten(Err(report))) => Some(
                self.fail(SyncError::WriteDigest(report)),
            ),
            _ => None,
        }
    }

    /// The index after that of the current source.
    fn next_source(&self) -> (next: usize)
        ensures
            next == self@.source + 1,
    {
        proof {
            use_type_invariant(self);
        }
        self.source + 1
    }

    /// Begins the sync of the source with the given index.
    fn open_source(&mut self, index: usize) -> (action: SyncAction)
        requires
            index <= SOURCE_COUNT,
        ensures
            (final(self)@, Some(action@)) == old(self)@.open_source(index as int),
    {
        proof {
            use_type_invariant(&*self);
        }
        match source_url(index) {
            Some(url) => {
                self.source = index;
                self.phase = SyncPhase::AwaitMeta;
                SyncAction::Fetch { url: url.to_owned() }
            },
            None => {
                self.phase = SyncPhase::Ended;
                self.source = index;
                SyncAction::Finished
            },
        }
    }

    /// Gives the sync up.
    fn fail(&mut self, e: SyncError) -> (action: SyncAction)
        ensures
            (final(self)@, Some(action@)) == old(self)@.fail(e),
    {
        proof {
            use_type_invariant(&*self);
        }
        self.phase = SyncPhase::Ended;
        SyncAction::Failed(e)
    }
}

} // verus!
