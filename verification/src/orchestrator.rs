//! The cache orchestration as a state machine: the caller performs each
//! action, reports what came of it as an event, and is told what to do next.
//! A failure of the cache never stops a run; a failure of the build always
//! does.

use crate::archive::decode;
use crate::archive::encode;
use crate::archive::gzip_decoded;
use crate::archive::gzip_encoded;
use crate::archive::ArchiveError;
use crate::hash::fingerprint;
use crate::hash::hex;
use crate::hash::FilesystemError;
use crate::hash::Node;
use vstd::prelude::*;

verus! {

/// How a run that was not aborted ended.
#[derive(Clone, Copy, PartialEq, Eq, Structural, Debug)]
pub enum CacheOutcome {
    /// The artifact was restored from the store.
    Hit,
    /// The build ran and its artifact was published.
    MissBuilt,
    /// The build ran; its artifact was not published.
    MissBuiltUnpublished,
}

/// The errors that abort a run.
#[derive(Clone, Copy, PartialEq, Eq, Structural, Debug)]
pub enum Fatal {
    /// No watch list, archive directory or build command could be resolved.
    Config,
    /// A watched path could not be read.
    Filesystem,
    /// The build command could not be launched or exited with a failure.
    Build,
}

/// Where a run stands. The first six phases each wait for the event that
/// answers one action; the last four are final.
#[derive(Clone, Copy, PartialEq, Eq, Structural, Debug)]
pub enum Phase {
    /// Waits for the watched paths.
    Start,
    /// The key is known; waits for the store's answer on its existence.
    FingerprintComputed,
    /// The store was asked. With `hit` it waits for the download, without
    /// for the build.
    CacheChecked { hit: bool },
    /// The artifact was downloaded and decoded; waits for the unpacking.
    Fetched,
    /// The build succeeded; waits for the packed archive directory.
    BuildRun,
    /// The artifact was packed and encoded; waits for the upload.
    Packaged,
    Restored,
    Published,
    PublishSkippedOrFailed,
    Aborted { kind: Fatal },
}

/// A run: its phase and, from `FingerprintComputed` on, its cache key.
#[derive(Clone, PartialEq, Eq, Debug)]
pub struct State {
    pub phase: Phase,
    pub key: String,
}

pub struct StateView {
    pub phase: Phase,
    pub key: Seq<char>,
}

impl View for State {
    type V = StateView;

    open spec fn view(&self) -> StateView {
        StateView { phase: self.phase, key: self.key@ }
    }
}

/// What the caller is asked to do next.
#[derive(Clone, PartialEq, Eq, Debug)]
pub enum Action {
    /// Read the watched paths.
    ReadWatched,
    /// Ask the store whether an object exists under `key`.
    CheckExists { key: String },
    /// Get the object under `key`.
    Download { key: String },
    /// Unpack the container `bytes` into the working directory.
    Unpack { bytes: Vec<u8> },
    /// Run the build command.
    RunBuild,
    /// Pack the archive directory.
    Pack,
    /// Put `bytes` under `key`.
    Upload { key: String, bytes: Vec<u8> },
    /// Leave, with success or failure.
    Exit { success: bool },
}

pub enum ActionView {
    ReadWatched,
    CheckExists { key: Seq<char> },
    Download { key: Seq<char> },
    Unpack { bytes: Seq<u8> },
    RunBuild,
    Pack,
    Upload { key: Seq<char>, bytes: Seq<u8> },
    Exit { success: bool },
}

impl View for Action {
    type V = ActionView;

    open spec fn view(&self) -> ActionView {
        match *self {
            Action::ReadWatched => ActionView::ReadWatched,
            Action::CheckExists { key } => ActionView::CheckExists { key: key@ },
            Action::Download { key } => ActionView::Download { key: key@ },
            Action::Unpack { bytes } => ActionView::Unpack { bytes: bytes@ },
            Action::RunBuild => ActionView::RunBuild,
            Action::Pack => ActionView::Pack,
            Action::Upload { key, bytes } => ActionView::Upload { key: key@, bytes: bytes@ },
            Action::Exit { success } => ActionView::Exit { success },
        }
    }
}

/// What came of the last action.
#[derive(Debug)]
pub enum Event {
    /// The inputs could not be resolved.
    ConfigMissing,
    /// The watched paths, as they were found.
    Watched { nodes: Vec<Node> },
    /// The store answered whether the key exists.
    Exists { present: bool },
    /// The store returned the object.
    Downloaded { bytes: Vec<u8> },
    /// The container was unpacked.
    Unpacked,
    /// The build command exited with success.
    BuildSucceeded,
    /// The build command could not be launched, or exited with a failure.
    BuildFailed,
    /// The archive directory was packed into a container.
    Packed { bytes: Vec<u8> },
    /// The store took the object.
    Uploaded,
    /// The cache operation that was asked for failed.
    CacheFailed,
}

/// Whether the run is over.
pub open spec fn is_done(phase: Phase) -> bool {
    phase is Restored || phase is Published || phase is PublishSkippedOrFailed || phase is Aborted
}

/// The outcome of a run that is over and was not aborted.
pub open spec fn spec_outcome(phase: Phase) -> Option<CacheOutcome> {
    match phase {
        Phase::Restored => Some(CacheOutcome::Hit),
        Phase::Published => Some(CacheOutcome::MissBuilt),
        Phase::PublishSkippedOrFailed => Some(CacheOutcome::MissBuiltUnpublished),
        _ => None,
    }
}

/// The run enters `phase` under `key`, and `action` is asked for.
pub open spec fn enter(phase: Phase, key: Seq<char>, action: ActionView) -> (StateView, ActionView) {
    (StateView { phase, key }, action)
}

/// The cache is given up for this run: the build is to run.
pub open spec fn spec_miss(s: StateView) -> (StateView, ActionView) {
    enter(Phase::CacheChecked { hit: false }, s.key, ActionView::RunBuild)
}

/// The run ends in `phase`, which decides the exit.
pub open spec fn spec_finish(s: StateView, phase: Phase) -> (StateView, ActionView) {
    enter(phase, s.key, ActionView::Exit { success: !(phase is Aborted) })
}

/// The step from `Start`, given the fingerprint of the watched paths.
pub open spec fn spec_after_fingerprint(s: StateView, key: Result<Seq<char>, Seq<char>>) -> (
    StateView,
    ActionView,
) {
    match key {
        Ok(k) => enter(Phase::FingerprintComputed, k, ActionView::CheckExists { key: k }),
        Err(_) => spec_finish(s, Phase::Aborted { kind: Fatal::Filesystem }),
    }
}

/// The step after a download, given what decoding made of it.
pub open spec fn spec_after_download(s: StateView, decoded: Option<Seq<u8>>) -> (
    StateView,
    ActionView,
) {
    match decoded {
        Some(bytes) => enter(Phase::Fetched, s.key, ActionView::Unpack { bytes }),
        None => spec_miss(s),
    }
}

/// The step after packing, given what encoding made of the container.
pub open spec fn spec_after_pack(s: StateView, encoded: Option<Seq<u8>>) -> (
    StateView,
    ActionView,
) {
    match encoded {
        Some(bytes) => enter(Phase::Packaged, s.key, ActionView::Upload { key: s.key, bytes }),
        None => spec_finish(s, Phase::PublishSkippedOrFailed),
    }
}

/// The transition function. In each waiting phase one event means success
/// of the pending action; every other event counts as its failure.
pub open spec fn spec_step(s: StateView, e: Event) -> (StateView, ActionView) {
    match s.phase {
        Phase::Start => match e {
            Event::Watched { nodes } => spec_after_fingerprint(s, fingerprint(nodes@)),
            _ => spec_finish(s, Phase::Aborted { kind: Fatal::Config }),
        },
        Phase::FingerprintComputed => match e {
            Event::Exists { present: true } => enter(
                Phase::CacheChecked { hit: true },
                s.key,
                ActionView::Download { key: s.key },
            ),
            _ => spec_miss(s),
        },
        Phase::CacheChecked { hit: true } => match e {
            Event::Downloaded { bytes } => spec_after_download(s, gzip_decoded(bytes@)),
            _ => spec_miss(s),
        },
        Phase::Fetched => match e {
            Event::Unpacked => spec_finish(s, Phase::Restored),
            _ => spec_miss(s),
        },
        Phase::CacheChecked { hit: false } => match e {
            Event::BuildSucceeded => enter(Phase::BuildRun, s.key, ActionView::Pack),
            _ => spec_finish(s, Phase::Aborted { kind: Fatal::Build }),
        },
        Phase::BuildRun => match e {
            Event::Packed { bytes } => spec_after_pack(s, gzip_encoded(bytes@)),
            _ => spec_finish(s, Phase::PublishSkippedOrFailed),
        },
        Phase::Packaged => match e {
            Event::Uploaded => spec_finish(s, Phase::Published),
            _ => spec_finish(s, Phase::PublishSkippedOrFailed),
        },
        _ => spec_finish(s, s.phase),
    }
}

/// The state after a sequence of events.
pub open spec fn spec_run(s: StateView, events: Seq<Event>) -> StateView
    decreases events.len(),
{
    if events.len() == 0 {
        s
    } else {
        spec_step(spec_run(s, events.drop_last()), events.last()).0
    }
}

impl Phase {
    /// Whether the run is over.
    pub fn done(&self) -> (r: bool)
        ensures
            r == is_done(*self),
    {
        match self {
            Phase::Restored | Phase::Published | Phase::PublishSkippedOrFailed => true,
            Phase::Aborted { kind: _ } => true,
            _ => false,
        }
    }

    /// The outcome of a run that is over and was not aborted.
    pub fn outcome(&self) -> (r: Option<CacheOutcome>)
        ensures
            r == spec_outcome(*self),
    {
        match self {
            Phase::Restored => Some(CacheOutcome::Hit),
            Phase::Published => Some(CacheOutcome::MissBuilt),
            Phase::PublishSkippedOrFailed => Some(CacheOutcome::MissBuiltUnpublished),
            _ => None,
        }
    }
}

/// A new run and its first action.
pub fn start() -> (r: (State, Action))
    ensures
        r.0@ == (StateView { phase: Phase::Start, key: Seq::<char>::empty() }),
        r.1@ == ActionView::ReadWatched,
{
    (State { phase: Phase::Start, key: String::new() }, Action::ReadWatched)
}

/// The cache is given up for this run: the build is to run.
fn miss(state: State) -> (r: (State, Action))
    ensures
        (r.0@, r.1@) == spec_miss(state@),
{
    (State { phase: Phase::CacheChecked { hit: false }, key: state.key }, Action::RunBuild)
}

/// The run ends in `phase`, which decides the exit.
fn finish(state: State, phase: Phase) -> (r: (State, Action))
    ensures
        (r.0@, r.1@) == spec_finish(state@, phase),
{
    let success = match phase {
        Phase::Aborted { kind: _ } => false,
        _ => true,
    };
    (State { phase, key: state.key }, Action::Exit { success })
}

/// The step from `Start` once the fingerprint was attempted: with a key the
/// store is asked for it; without one the run is aborted.
pub fn after_fingerprint(state: State, key: Result<String, FilesystemError>) -> (r: (State, Action))
    ensures
        (r.0@, r.1@) == spec_after_fingerprint(
            state@,
            match key {
                Ok(k) => Ok(k@),
                Err(e) => Err(e.path@),
            },
        ),
{
    match key {
        Ok(k) => {
            let asked = k.clone();
            (State { phase: Phase::FingerprintComputed, key: k }, Action::CheckExists { key: asked })
        },
        Err(_) => finish(state, Phase::Aborted { kind: Fatal::Filesystem }),
    }
}

/// The step after a download once decoding was attempted: a decoded
/// container is to be unpacked; a corrupt one means a miss.
pub fn after_download(state: State, decoded: Result<Vec<u8>, ArchiveError>) -> (r: (State, Action))
    ensures
        (r.0@, r.1@) == spec_after_download(
            state@,
            match decoded {
                Ok(bytes) => Some(bytes@),
                Err(_) => None,
            },
        ),
{
    match decoded {
        Ok(bytes) => (State { phase: Phase::Fetched, key: state.key }, Action::Unpack { bytes }),
        Err(_) => miss(state),
    }
}

/// The step after packing once encoding was attempted: an encoded artifact
/// is to be uploaded under the run's key; without one publishing is skipped.
pub fn after_pack(state: State, encoded: Result<Vec<u8>, ArchiveError>) -> (r: (State, Action))
    ensures
        (r.0@, r.1@) == spec_after_pack(
            state@,
            match encoded {
                Ok(bytes) => Some(bytes@),
                Err(_) => None,
            },
        ),
{
    match encoded {
        Ok(bytes) => {
            let key = state.key.clone();
            (State { phase: Phase::Packaged, key: state.key }, Action::Upload { key, bytes })
        },
        Err(_) => finish(state, Phase::PublishSkippedOrFailed),
    }
}

/// Takes the event that answers the pending action and returns the next
/// state with the action to perform.
pub fn step(state: State, event: Event) -> (r: (State, Action))
    ensures
        (r.0@, r.1@) == spec_step(state@, event),
{
    match state.phase {
        Phase::Start => match event {
            Event::Watched { nodes } => {
                let key = hex(&nodes);
                after_fingerprint(state, key)
            },
            _ => finish(state, Phase::Aborted { kind: Fatal::Config }),
        },
        Phase::FingerprintComputed => match event {
            Event::Exists { present: true } => {
                let key = state.key.clone();
                (
                    State { phase: Phase::CacheChecked { hit: true }, key: state.key },
                    Action::Download { key },
                )
            },
            _ => miss(state),
        },
        Phase::CacheChecked { hit: true } => match event {
            Event::Downloaded { bytes } => {
                let decoded = decode(bytes.as_slice());
                after_download(state, decoded)
            },
            _ => miss(state),
        },
        Phase::Fetched => match event {
            Event::Unpacked => finish(state, Phase::Restored),
            _ => miss(state),
        },
        Phase::CacheChecked { hit: false } => match event {
            Event::BuildSucceeded => (
                State { phase: Phase::BuildRun, key: state.key },
                Action::Pack,
            ),
            _ => finish(state, Phase::Aborted { kind: Fatal::Build }),
        },
        Phase::BuildRun => match event {
            Event::Packed { bytes } => {
                let encoded = encode(bytes.as_slice());
                after_pack(state, encoded)
            },
            _ => finish(state, Phase::PublishSkippedOrFailed),
        },
        Phase::Packaged => match event {
            Event::Uploaded => finish(state, Phase::Published),
            _ => finish(state, Phase::PublishSkippedOrFailed),
        },
        phase => finish(state, phase),
    }
}

/// How far a run has come: each step of an unfinished run raises it.
pub open spec fn rank(phase: Phase) -> nat {
    match phase {
        Phase::Start => 0,
        Phase::FingerprintComputed => 1,
        Phase::CacheChecked { hit: true } => 2,
        Phase::Fetched => 3,
        Phase::CacheChecked { hit: false } => 4,
        Phase::BuildRun => 5,
        Phase::Packaged => 6,
        _ => 7,
    }
}

/// Whether event `i` reports a build that did not succeed: the run waits
/// for the build when the event arrives, and the event is not its success.
pub open spec fn build_failed_at(s: StateView, events: Seq<Event>, i: int) -> bool {
    spec_run(s, events.take(i)).phase == (Phase::CacheChecked { hit: false })
        && !(events[i] is BuildSucceeded)
}

/// No phase is entered twice: a step of an unfinished run leads to a phase
/// of higher rank, and a finished run stays where it is. The build is asked
/// for exactly on entering the phase that waits for it, and the upload
/// exactly on entering the phase that waits for it, under the run's key: so
/// each is asked for at most once in a run.
pub proof fn lemma_step_advances(s: StateView, e: Event)
    ensures
        !is_done(s.phase) ==> rank(spec_step(s, e).0.phase) > rank(s.phase),
        is_done(s.phase) ==> spec_step(s, e).0 == s,
        !is_done(s.phase) ==> (spec_step(s, e).1 is RunBuild <==> spec_step(s, e).0.phase == (
            Phase::CacheChecked { hit: false }
        )),
        !is_done(s.phase) ==> (spec_step(s, e).1 is Upload <==> spec_step(s, e).0.phase
            is Packaged),
        spec_step(s, e).1 is Upload ==> spec_step(s, e).1->Upload_key == s.key,
        is_done(spec_step(s, e).0.phase) <==> spec_step(s, e).1 is Exit,
        spec_step(s, e).1 is Exit ==> spec_step(s, e).1->success == !(spec_step(s, e).0.phase
            is Aborted),
{
}

/// Once the key is known, no failure of the cache stops a run or changes
/// how it exits. Whatever the store and the archive pipeline report, six
/// events end the run; it ends aborted exactly when a build was reported
/// as not succeeded, and then with the build's error; the key never changes.
pub proof fn lemma_fail_soft(s: StateView, events: Seq<Event>)
    requires
        !(s.phase is Start),
        !is_done(s.phase),
    ensures
        events.len() >= 6 ==> is_done(spec_run(s, events).phase),
        is_done(spec_run(s, events).phase) || rank(spec_run(s, events).phase) >= rank(s.phase)
            + events.len(),
        spec_run(s, events).phase is Aborted <==> exists|i: int|
            0 <= i < events.len() && #[trigger] build_failed_at(s, events, i),
        spec_run(s, events).phase is Aborted ==> spec_run(s, events).phase == (Phase::Aborted {
            kind: Fatal::Build,
        }),
        spec_run(s, events).key == s.key,
    decreases events.len(),
{
    if events.len() > 0 {
        let init = events.drop_last();
        let last = events.last();
        let mid = spec_run(s, init);
        lemma_fail_soft(s, init);
        lemma_step_advances(mid, last);
        assert forall|i: int| 0 <= i < init.len() implies init.take(i) == events.take(i) by {
            assert(init.take(i) =~= events.take(i));
        }
        assert(events.take(init.len() as int) =~= init);
        if spec_run(s, events).phase is Aborted {
            if mid.phase is Aborted {
                let i = choose|i: int| 0 <= i < init.len() && #[trigger] build_failed_at(s, init, i);
                assert(build_failed_at(s, events, i));
            } else {
                assert(build_failed_at(s, events, init.len() as int));
            }
        }
        if exists|i: int| 0 <= i < events.len() && #[trigger] build_failed_at(s, events, i) {
            let i = choose|i: int| 0 <= i < events.len() && #[trigger] build_failed_at(s, events, i);
            if i < init.len() {
                assert(build_failed_at(s, init, i));
            }
        }
    }
}

/// A hit that can be materialized is restored without a build: from the
/// phase that knows the key, a positive answer asks for the object under
/// that key, its decoded bytes are unpacked, and the run ends as a hit.
/// No step on the way asks for the build.
pub proof fn lemma_hit_restores(s: StateView, blob: Vec<u8>)
    requires
        s.phase is FingerprintComputed,
        gzip_decoded(blob@) is Some,
    ensures
        ({
            let a = spec_step(s, Event::Exists { present: true });
            let b = spec_step(a.0, Event::Downloaded { bytes: blob });
            let c = spec_step(b.0, Event::Unpacked);
            &&& a.1 == (ActionView::Download { key: s.key })
            &&& b.1 == (ActionView::Unpack { bytes: gzip_decoded(blob@)->0 })
            &&& c.1 == (ActionView::Exit { success: true })
            &&& spec_outcome(c.0.phase) == Some(CacheOutcome::Hit)
        }),
{
}

/// A hit that cannot be materialized falls through to the build: a failed
/// download, a corrupt artifact or a failed unpacking each ask for the build,
/// as a miss does.
pub proof fn lemma_failed_restore_builds(s: StateView, blob: Vec<u8>, e: Event)
    requires
        s.phase is FingerprintComputed,
    ensures
        ({
            let a = spec_step(s, Event::Exists { present: true });
            let b = spec_step(a.0, Event::Downloaded { bytes: blob });
            &&& !(e is Downloaded) ==> spec_step(a.0, e).1 is RunBuild
            &&& gzip_decoded(blob@) is None ==> b.1 is RunBuild
            &&& gzip_decoded(blob@) is Some && !(e is Unpacked) ==> spec_step(b.0, e).1 is RunBuild
        }),
{
}

/// A miss builds and publishes: where the key is absent, or the store
/// cannot say, the build is asked for; after its success the archive
/// directory is packed, the encoded container is put under the run's key,
/// and the run ends as built and published.
pub proof fn lemma_miss_builds_and_publishes(s: StateView, e: Event, packed: Vec<u8>)
    requires
        s.phase is FingerprintComputed,
        !(e matches Event::Exists { present: true }),
        gzip_encoded(packed@) is Some,
    ensures
        ({
            let a = spec_step(s, e);
            let b = spec_step(a.0, Event::BuildSucceeded);
            let c = spec_step(b.0, Event::Packed { bytes: packed });
            let d = spec_step(c.0, Event::Uploaded);
            &&& a.1 is RunBuild
            &&& b.1 is Pack
            &&& c.1 == (ActionView::Upload { key: s.key, bytes: gzip_encoded(packed@)->0 })
            &&& d.1 == (ActionView::Exit { success: true })
            &&& spec_outcome(d.0.phase) == Some(CacheOutcome::MissBuilt)
        }),
{
}

} // verus!
