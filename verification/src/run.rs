use vstd::prelude::*;

verus! {

/// Why a backup run stopped.  Every failure aborts the whole run; nothing is
/// retried and nothing already written is rolled back.
#[derive(Clone, Copy, Debug, PartialEq, Eq, Structural)]
pub enum BackupError {
    /// The server could not be reached at all.
    Transport,
    /// The server answered with the carried non-success HTTP status.
    HttpStatus(u16),
    /// A response body did not have the expected shape.
    Decode,
    /// The output directory or a snapshot file could not be written.
    Filesystem,
}

/// One piece of outside work the run asks its driver to perform next.
pub enum Action {
    /// List the collections on the server.
    FetchCollections,
    /// Create a server-side snapshot of `collection`.
    CreateSnapshot { collection: Vec<u8> },
    /// Download snapshot `snapshot` of `collection`.
    DownloadSnapshot { collection: Vec<u8>, snapshot: Vec<u8> },
    /// Write `contents` to the file `file_name` inside the output directory.
    WriteFile { file_name: Vec<u8>, contents: Vec<u8> },
}

/// What the driver reports back about the action it performed.
pub enum Event {
    /// Listing succeeded, with these collection names in the server's order.
    CollectionsListed { names: Vec<Vec<u8>> },
    /// Snapshot creation succeeded; the server assigned this snapshot name.
    SnapshotCreated { snapshot: Vec<u8> },
    /// The download succeeded with this body.
    SnapshotDownloaded { contents: Vec<u8> },
    /// The file write succeeded.
    FileWritten,
    /// The action failed; the run is to abort with this error.
    StepFailed { error: BackupError },
}

/// What a `step` call decides: more work, orderly completion, or abort.
pub enum Outcome {
    /// Perform this action and report back.
    Do { action: Action },
    /// Every requested backup is on disk; the run is complete.
    Finished,
    /// The run aborts with this error; nothing further is attempted.
    Failed { error: BackupError },
}

/// What the run is waiting to hear about.
pub enum Phase {
    /// A collection listing is in flight.
    AwaitList,
    /// A snapshot of `collection` is being created.
    AwaitSnapshot { collection: Vec<u8> },
    /// Snapshot `snapshot` of `collection` is being downloaded.
    AwaitDownload { collection: Vec<u8>, snapshot: Vec<u8> },
    /// The downloaded bytes are being written out.
    AwaitWrite,
    /// The run has ended; no further event is acceptable.
    Complete,
}

/// The state of one backup run: what is in flight, and which collections
/// still wait their turn, in order.
pub struct Run {
    /// Collections not yet started, first to be backed up first.
    pub pending: Vec<Vec<u8>>,
    /// What the run is waiting for.
    pub phase: Phase,
}

/// The set of collections one run is to back up.
pub enum Target {
    /// Every collection the server lists.
    All,
    /// Exactly the named collection.
    One { collection: Vec<u8> },
}

/// Mathematical mirror of `Action`.
pub enum ActionModel {
    FetchCollections,
    CreateSnapshot { collection: Seq<u8> },
    DownloadSnapshot { collection: Seq<u8>, snapshot: Seq<u8> },
    WriteFile { file_name: Seq<u8>, contents: Seq<u8> },
}

/// Mathematical mirror of `Event`.
pub enum EventModel {
    CollectionsListed { names: Seq<Seq<u8>> },
    SnapshotCreated { snapshot: Seq<u8> },
    SnapshotDownloaded { contents: Seq<u8> },
    FileWritten,
    StepFailed { error: BackupError },
}

/// Mathematical mirror of `Outcome`.
pub enum OutcomeModel {
    Do { action: ActionModel },
    Finished,
    Failed { error: BackupError },
}

/// Mathematical mirror of `Phase`.
pub enum PhaseModel {
    AwaitList,
    AwaitSnapshot { collection: Seq<u8> },
    AwaitDownload { collection: Seq<u8>, snapshot: Seq<u8> },
    AwaitWrite,
    Complete,
}

/// Mathematical mirror of `Run`.
pub struct RunModel {
    pub pending: Seq<Seq<u8>>,
    pub phase: PhaseModel,
}

impl View for Action {
    type V = ActionModel;

    open spec fn view(&self) -> ActionModel {
        match self {
            Action::FetchCollections => ActionModel::FetchCollections,
            Action::CreateSnapshot { collection } => (ActionModel::CreateSnapshot {
                collection: collection@,
            }),
            Action::DownloadSnapshot { collection, snapshot } => (ActionModel::DownloadSnapshot {
                collection: collection@,
                snapshot: snapshot@,
            }),
            Action::WriteFile { file_name, contents } => (ActionModel::WriteFile {
                file_name: file_name@,
                contents: contents@,
            }),
        }
    }
}

impl View for Event {
    type V = EventModel;

    open spec fn view(&self) -> EventModel {
        match self {
            Event::CollectionsListed { names } => (EventModel::CollectionsListed {
                names: names.deep_view(),
            }),
            Event::SnapshotCreated { snapshot } => (EventModel::SnapshotCreated {
                snapshot: snapshot@,
            }),
            Event::SnapshotDownloaded { contents } => (EventModel::SnapshotDownloaded {
                contents: contents@,
            }),
            Event::FileWritten => EventModel::FileWritten,
            Event::StepFailed { error } => (EventModel::StepFailed { error: *error }),
        }
    }
}

impl View for Outcome {
    type V = OutcomeModel;

    open spec fn view(&self) -> OutcomeModel {
        match self {
            Outcome::Do { action } => (OutcomeModel::Do { action: action@ }),
            Outcome::Finished => OutcomeModel::Finished,
            Outcome::Failed { error } => (OutcomeModel::Failed { error: *error }),
        }
    }
}

impl View for Phase {
    type V = PhaseModel;

    open spec fn view(&self) -> PhaseModel {
        match self {
            Phase::AwaitList => PhaseModel::AwaitList,
            Phase::AwaitSnapshot { collection } => (PhaseModel::AwaitSnapshot {
                collection: collection@,
            }),
            Phase::AwaitDownload { collection, snapshot } => (PhaseModel::AwaitDownload {
                collection: collection@,
                snapshot: snapshot@,
            }),
            Phase::AwaitWrite => PhaseModel::AwaitWrite,
            Phase::Complete => PhaseModel::Complete,
        }
    }
}

impl View for Run {
    type V = RunModel;

    open spec fn view(&self) -> RunModel {
        RunModel { pending: self.pending.deep_view(), phase: self.phase@ }
    }
}

/// The name of the file one backed-up collection is saved under:
/// `{collection}_{snapshot}` (95 is `_`).
pub open spec fn spec_file_name(collection: Seq<u8>, snapshot: Seq<u8>) -> Seq<u8> {
    collection + seq![95u8] + snapshot
}

/// Builds the `{collection}_{snapshot}` file name.
pub fn snapshot_file_name(collection: &[u8], snapshot: &[u8]) -> (r: Vec<u8>)
    ensures
        r@ == spec_file_name(collection@, snapshot@),
{
    let mut r = crate::client::copy_bytes(collection);
    r.push(95);
    crate::client::append_bytes(&mut r, snapshot);
    proof {
        assert(r@ =~= spec_file_name(collection@, snapshot@));
    }
    r
}

/// The starting state of an "all collections" run.
pub open spec fn spec_start_all() -> RunModel {
    RunModel { pending: Seq::empty(), phase: PhaseModel::AwaitList }
}

/// The starting state of a single-collection run.
pub open spec fn spec_start_one(collection: Seq<u8>) -> RunModel {
    RunModel { pending: Seq::empty(), phase: PhaseModel::AwaitSnapshot { collection } }
}

/// Whether the run can take `ev` in its present phase: each phase accepts
/// exactly the report on the action it asked for, and any phase but
/// `Complete` accepts a failure report.
pub open spec fn accepts(m: RunModel, ev: EventModel) -> bool {
    match (m.phase, ev) {
        (PhaseModel::AwaitList, EventModel::CollectionsListed { .. }) => true,
        (PhaseModel::AwaitSnapshot { .. }, EventModel::SnapshotCreated { .. }) => true,
        (PhaseModel::AwaitDownload { .. }, EventModel::SnapshotDownloaded { .. }) => true,
        (PhaseModel::AwaitWrite, EventModel::FileWritten) => true,
        (phase, EventModel::StepFailed { .. }) => !(phase is Complete),
        _ => false,
    }
}

/// The transition rule of a backup run.
///
/// A failure report aborts the run at once, whatever was in flight.  A
/// collection listing starts the first listed collection, or finishes the
/// run when the server has none.  A created snapshot is downloaded; a
/// downloaded snapshot is written to `{collection}_{snapshot}`; after a
/// write the next pending collection starts, or the run finishes.  The
/// arms for an event the phase does not accept are never reached by a
/// driver that obeys `accepts`; they abort the run.
pub open spec fn spec_step(m: RunModel, ev: EventModel) -> (RunModel, OutcomeModel) {
    match ev {
        EventModel::StepFailed { error } => (
            RunModel { pending: m.pending, phase: PhaseModel::Complete },
            OutcomeModel::Failed { error },
        ),
        EventModel::CollectionsListed { names } => {
            if m.phase is AwaitList {
                if names.len() == 0 {
                    (
                        RunModel { pending: Seq::empty(), phase: PhaseModel::Complete },
                        OutcomeModel::Finished,
                    )
                } else {
                    (
                        RunModel {
                            pending: names.skip(1),
                            phase: PhaseModel::AwaitSnapshot { collection: names[0] },
                        },
                        OutcomeModel::Do {
                            action: ActionModel::CreateSnapshot { collection: names[0] },
                        },
                    )
                }
            } else {
                (
                    RunModel { pending: m.pending, phase: PhaseModel::Complete },
                    OutcomeModel::Failed { error: BackupError::Decode },
                )
            }
        },
        EventModel::SnapshotCreated { snapshot } => match m.phase {
            PhaseModel::AwaitSnapshot { collection } => (
                RunModel {
                    pending: m.pending,
                    phase: PhaseModel::AwaitDownload { collection, snapshot },
                },
                OutcomeModel::Do {
                    action: ActionModel::DownloadSnapshot { collection, snapshot },
                },
            ),
            _ => (
                RunModel { pending: m.pending, phase: PhaseModel::Complete },
                OutcomeModel::Failed { error: BackupError::Decode },
            ),
        },
        EventModel::SnapshotDownloaded { contents } => match m.phase {
            PhaseModel::AwaitDownload { collection, snapshot } => (
                RunModel { pending: m.pending, phase: PhaseModel::AwaitWrite },
                OutcomeModel::Do {
                    action: ActionModel::WriteFile {
                        file_name: spec_file_name(collection, snapshot),
                        contents,
                    },
                },
            ),
            _ => (
                RunModel { pending: m.pending, phase: PhaseModel::Complete },
                OutcomeModel::Failed { error: BackupError::Decode },
            ),
        },
        EventModel::FileWritten => {
            if m.phase is AwaitWrite {
                if m.pending.len() == 0 {
                    (
                        RunModel { pending: Seq::empty(), phase: PhaseModel::Complete },
                        OutcomeModel::Finished,
                    )
                } else {
                    (
                        RunModel {
                            pending: m.pending.skip(1),
                            phase: PhaseModel::AwaitSnapshot { collection: m.pending[0] },
                        },
                        OutcomeModel::Do {
                            action: ActionModel::CreateSnapshot { collection: m.pending[0] },
                        },
                    )
                }
            } else {
                (
                    RunModel { pending: m.pending, phase: PhaseModel::Complete },
                    OutcomeModel::Failed { error: BackupError::Decode },
                )
            }
        },
    }
}

impl Run {
    /// Whether this run can take `ev` next; a driver consults this before
    /// calling `step`.
    pub fn accepts_event(&self, ev: &Event) -> (r: bool)
        ensures
            r == accepts(self@, ev@),
    {
        match (&self.phase, ev) {
            (_, Event::StepFailed { .. }) => !matches!(&self.phase, Phase::Complete),
            (Phase::AwaitList, Event::CollectionsListed { .. }) => true,
            (Phase::AwaitSnapshot { .. }, Event::SnapshotCreated { .. }) => true,
            (Phase::AwaitDownload { .. }, Event::SnapshotDownloaded { .. }) => true,
            (Phase::AwaitWrite, Event::FileWritten) => true,
            _ => false,
        }
    }

    /// Takes one transition of the run: consumes the driver's report on the
    /// last action and decides what happens next, exactly as `spec_step`
    /// says.
    pub fn step(self, ev: Event) -> (r: (Run, Outcome))
        requires
            accepts(self@, ev@),
        ensures
            r.0@ == spec_step(self@, ev@).0,
            r.1@ == spec_step(self@, ev@).1,
    {
        let Run { mut pending, phase } = self;
        match ev {
            Event::StepFailed { error } => (
                Run { pending, phase: Phase::Complete },
                Outcome::Failed { error },
            ),
            // `accepts` admits a listing only in the AwaitList phase.
            Event::CollectionsListed { mut names } => {
                let ghost names0 = names.deep_view();
                if names.len() == 0 {
                    let r = (Run { pending: Vec::new(), phase: Phase::Complete }, Outcome::Finished);
                    proof {
                        assert(names0 =~= Seq::<Seq<u8>>::empty());
                        assert(r.0@.pending =~= Seq::<Seq<u8>>::empty());
                    }
                    r
                } else {
                    let first = names.remove(0);
                    let action_name = crate::client::copy_bytes(first.as_slice());
                    let r = (
                        Run { pending: names, phase: Phase::AwaitSnapshot { collection: first } },
                        Outcome::Do {
                            action: Action::CreateSnapshot { collection: action_name },
                        },
                    );
                    proof {
                        assert(r.0@.pending =~= names0.skip(1));
                        assert(first@ == names0[0]);
                    }
                    r
                }
            },
            Event::SnapshotCreated { snapshot } => {
                match phase {
                    Phase::AwaitSnapshot { collection } => {
                        let c2 = crate::client::copy_bytes(collection.as_slice());
                        let s2 = crate::client::copy_bytes(snapshot.as_slice());
                        (
                            Run {
                                pending,
                                phase: Phase::AwaitDownload { collection, snapshot },
                            },
                            Outcome::Do {
                                action: Action::DownloadSnapshot { collection: c2, snapshot: s2 },
                            },
                        )
                    },
                    _ => (
                        Run { pending, phase: Phase::Complete },
                        Outcome::Failed { error: BackupError::Decode },
                    ),
                }
            },
            Event::SnapshotDownloaded { contents } => {
                match phase {
                    Phase::AwaitDownload { collection, snapshot } => {
                        let file_name = snapshot_file_name(
                            collection.as_slice(),
                            snapshot.as_slice(),
                        );
                        (
                            Run { pending, phase: Phase::AwaitWrite },
                            Outcome::Do { action: Action::WriteFile { file_name, contents } },
                        )
                    },
                    _ => (
                        Run { pending, phase: Phase::Complete },
                        Outcome::Failed { error: BackupError::Decode },
                    ),
                }
            },
            // `accepts` admits a write report only in the AwaitWrite phase.
            Event::FileWritten => {
                let ghost pending0 = pending.deep_view();
                if pending.len() == 0 {
                    let r = (Run { pending: Vec::new(), phase: Phase::Complete }, Outcome::Finished);
                    proof {
                        assert(pending0 =~= Seq::<Seq<u8>>::empty());
                        assert(r.0@.pending =~= Seq::<Seq<u8>>::empty());
                    }
                    r
                } else {
                    let first = pending.remove(0);
                    let action_name = crate::client::copy_bytes(first.as_slice());
                    let r = (
                        Run { pending, phase: Phase::AwaitSnapshot { collection: first } },
                        Outcome::Do {
                            action: Action::CreateSnapshot { collection: action_name },
                        },
                    );
                    proof {
                        assert(r.0@.pending =~= pending0.skip(1));
                        assert(first@ == pending0[0]);
                    }
                    r
                }
            },
        }
    }
}

/// Begins a run: in "all" mode the first action is to list the collections;
/// for a single collection it is to create that collection's snapshot.
pub fn start(target: Target) -> (r: (Run, Outcome))
    ensures
        target is All ==> r.0@ == spec_start_all() && r.1@ == (OutcomeModel::Do {
            action: ActionModel::FetchCollections,
        }),
        target matches Target::One { collection } ==> r.0@ == spec_start_one(collection@)
            && r.1@ == (OutcomeModel::Do {
            action: ActionModel::CreateSnapshot { collection: collection@ },
        }),
{
    match target {
        Target::All => {
            let r = (
                Run { pending: Vec::new(), phase: Phase::AwaitList },
                Outcome::Do { action: Action::FetchCollections },
            );
            proof {
                assert(r.0@.pending =~= spec_start_all().pending);
            }
            r
        },
        Target::One { collection } => {
            let action_name = crate::client::copy_bytes(collection.as_slice());
            let r = (
                Run { pending: Vec::new(), phase: Phase::AwaitSnapshot { collection } },
                Outcome::Do { action: Action::CreateSnapshot { collection: action_name } },
            );
            proof {
                assert(r.0@.pending =~= Seq::<Seq<u8>>::empty());
            }
            r
        },
    }
}

/// The bytes of `"all"`, the sentinel that selects every collection.
pub open spec fn all_sentinel() -> Seq<u8> {
    seq![97u8, 108, 108]
}

/// Resolves the collection argument: the sentinel `"all"` selects every
/// collection on the server, any other value exactly the named one.
pub fn resolve_target(collection: Vec<u8>) -> (t: Target)
    ensures
        collection@ == all_sentinel() ==> t is All,
        collection@ != all_sentinel() ==> (t matches Target::One { collection: c } && c@
            == collection@),
{
    let is_all: bool = if collection.len() == 3 {
        collection[0] == 97 && collection[1] == 108 && collection[2] == 108
    } else {
        false
    };
    proof {
        if is_all {
            assert(collection@ =~= all_sentinel());
        } else {
            assert(collection@ != all_sentinel());
        }
    }
    if is_all {
        Target::All
    } else {
        Target::One { collection }
    }
}


/// How a run stands after consuming a sequence of events.
pub enum RunStatus {
    /// The events ran out with the run still in progress.
    Ongoing { run: RunModel },
    /// The run completed every requested backup.
    Finished,
    /// The run aborted with this error.
    Failed { error: BackupError },
}

/// The actions a run asks for while consuming `evs` one by one, paired with
/// how it stands afterwards.  Events past an orderly finish or an abort are
/// not consumed.
pub open spec fn run_trace(m: RunModel, evs: Seq<EventModel>) -> (Seq<ActionModel>, RunStatus)
    decreases evs.len(),
{
    if evs.len() == 0 {
        (Seq::empty(), RunStatus::Ongoing { run: m })
    } else {
        let next = spec_step(m, evs[0]);
        match next.1 {
            OutcomeModel::Do { action } => {
                let rest = run_trace(next.0, evs.skip(1));
                (seq![action] + rest.0, rest.1)
            },
            OutcomeModel::Finished => (Seq::empty(), RunStatus::Finished),
            OutcomeModel::Failed { error } => (Seq::empty(), RunStatus::Failed { error }),
        }
    }
}

/// The events a driver reports when every step of every backup succeeds:
/// for each collection in turn, its snapshot is created under the matching
/// name in `snaps`, downloaded as the matching body in `blobs`, and written.
pub open spec fn success_events(names: Seq<Seq<u8>>, snaps: Seq<Seq<u8>>, blobs: Seq<Seq<u8>>) -> Seq<EventModel>
    decreases names.len(),
{
    if names.len() == 0 {
        Seq::empty()
    } else {
        seq![
            EventModel::SnapshotCreated { snapshot: snaps[0] },
            EventModel::SnapshotDownloaded { contents: blobs[0] },
            EventModel::FileWritten,
        ] + success_events(names.skip(1), snaps.skip(1), blobs.skip(1))
    }
}

/// The work of a fully successful run: for each collection in the listed
/// order, exactly one snapshot creation, one download of the snapshot the
/// server named, and one write of the downloaded bytes to
/// `{collection}_{snapshot}`.
pub open spec fn backup_actions(names: Seq<Seq<u8>>, snaps: Seq<Seq<u8>>, blobs: Seq<Seq<u8>>) -> Seq<ActionModel>
    decreases names.len(),
{
    if names.len() == 0 {
        Seq::empty()
    } else {
        seq![
            ActionModel::CreateSnapshot { collection: names[0] },
            ActionModel::DownloadSnapshot { collection: names[0], snapshot: snaps[0] },
            ActionModel::WriteFile {
                file_name: spec_file_name(names[0], snaps[0]),
                contents: blobs[0],
            },
        ] + backup_actions(names.skip(1), snaps.skip(1), blobs.skip(1))
    }
}

/// From a state where the snapshot of `names[0]` is in flight and the rest
/// of `names` is pending, success events drive the run through the rest of
/// `backup_actions` (all of it but the creation already issued) and finish it.
proof fn lemma_collection_loop(names: Seq<Seq<u8>>, snaps: Seq<Seq<u8>>, blobs: Seq<Seq<u8>>)
    requires
        names.len() > 0,
        snaps.len() == names.len(),
        blobs.len() == names.len(),
    ensures
        ({
            let m0 = RunModel {
                pending: names.skip(1),
                phase: PhaseModel::AwaitSnapshot { collection: names[0] },
            };
            let t = run_trace(m0, success_events(names, snaps, blobs));
            t.0 == backup_actions(names, snaps, blobs).skip(1) && t.1 == RunStatus::Finished
        }),
    decreases names.len(),
{
    let m0 = RunModel {
        pending: names.skip(1),
        phase: PhaseModel::AwaitSnapshot { collection: names[0] },
    };
    let e0 = EventModel::SnapshotCreated { snapshot: snaps[0] };
    let e1 = EventModel::SnapshotDownloaded { contents: blobs[0] };
    let e2 = EventModel::FileWritten;
    let tail = success_events(names.skip(1), snaps.skip(1), blobs.skip(1));
    let evs = success_events(names, snaps, blobs);
    assert(evs == seq![e0, e1, e2] + tail);
    assert(evs[0] == e0);
    assert(evs.skip(1) =~= seq![e1, e2] + tail);
    assert(evs.skip(1)[0] == e1);
    assert(evs.skip(1).skip(1) =~= seq![e2] + tail);
    assert(evs.skip(1).skip(1)[0] == e2);

    let a_dl = ActionModel::DownloadSnapshot { collection: names[0], snapshot: snaps[0] };
    let a_wr = ActionModel::WriteFile {
        file_name: spec_file_name(names[0], snaps[0]),
        contents: blobs[0],
    };

    let m1 = spec_step(m0, e0).0;
    assert(spec_step(m0, e0).1 == (OutcomeModel::Do { action: a_dl }));
    let m2 = spec_step(m1, e1).0;
    assert(spec_step(m1, e1).1 == (OutcomeModel::Do { action: a_wr }));
    assert(m2.pending == names.skip(1));

    if names.len() == 1 {
        assert(names.skip(1).len() == 0);
        assert(spec_step(m2, e2).1 == OutcomeModel::Finished);
        assert(tail =~= Seq::<EventModel>::empty());
        let t2 = run_trace(m2, evs.skip(1).skip(1));
        assert(t2.0 =~= Seq::<ActionModel>::empty() && t2.1 == RunStatus::Finished);
        let t1 = run_trace(m1, evs.skip(1));
        assert(t1.0 =~= seq![a_wr] && t1.1 == RunStatus::Finished);
        let t = run_trace(m0, evs);
        assert(t.0 =~= seq![a_dl, a_wr] && t.1 == RunStatus::Finished);
        assert(backup_actions(names.skip(1), snaps.skip(1), blobs.skip(1))
            =~= Seq::<ActionModel>::empty());
        assert(backup_actions(names, snaps, blobs).skip(1) =~= seq![a_dl, a_wr]);
    } else {
        let names1 = names.skip(1);
        let snaps1 = snaps.skip(1);
        let blobs1 = blobs.skip(1);
        assert(names1.len() > 0);
        let a_cr = ActionModel::CreateSnapshot { collection: names1[0] };
        let m3 = spec_step(m2, e2).0;
        assert(spec_step(m2, e2).1 == (OutcomeModel::Do { action: a_cr }));
        lemma_collection_loop(names1, snaps1, blobs1);
        let m0n = RunModel {
            pending: names1.skip(1),
            phase: PhaseModel::AwaitSnapshot { collection: names1[0] },
        };
        assert(m3 == m0n);
        assert(evs.skip(1).skip(1).skip(1) =~= tail);
        let tn = run_trace(m0n, tail);
        assert(tn.0 == backup_actions(names1, snaps1, blobs1).skip(1));
        assert(tn.1 == RunStatus::Finished);
        let t2 = run_trace(m2, evs.skip(1).skip(1));
        assert(t2.0 == seq![a_cr] + tn.0 && t2.1 == RunStatus::Finished);
        let t1 = run_trace(m1, evs.skip(1));
        assert(t1.0 == seq![a_wr] + t2.0 && t1.1 == RunStatus::Finished);
        let t = run_trace(m0, evs);
        assert(t.0 == seq![a_dl] + t1.0 && t.1 == RunStatus::Finished);
        assert(seq![a_cr] + tn.0 =~= backup_actions(names1, snaps1, blobs1));
        assert(t.0 =~= backup_actions(names, snaps, blobs).skip(1));
    }
}

/// In "all collections" mode, a listing of N collections followed by
/// success at every step makes the run create one snapshot, download it and
/// write it for each listed collection, exactly once each and in the listed
/// order, and then finish.
pub proof fn lemma_all_mode_trace(names: Seq<Seq<u8>>, snaps: Seq<Seq<u8>>, blobs: Seq<Seq<u8>>)
    requires
        snaps.len() == names.len(),
        blobs.len() == names.len(),
    ensures
        ({
            let evs = seq![EventModel::CollectionsListed { names }] + success_events(
                names,
                snaps,
                blobs,
            );
            let t = run_trace(spec_start_all(), evs);
            t.0 == backup_actions(names, snaps, blobs) && t.1 == RunStatus::Finished
        }),
{
    let e0 = EventModel::CollectionsListed { names };
    let evs = seq![e0] + success_events(names, snaps, blobs);
    assert(evs[0] == e0);
    assert(evs.skip(1) =~= success_events(names, snaps, blobs));
    if names.len() == 0 {
        assert(spec_step(spec_start_all(), e0).1 == OutcomeModel::Finished);
        let t = run_trace(spec_start_all(), evs);
        assert(t.0 =~= backup_actions(names, snaps, blobs));
    } else {
        let a_cr = ActionModel::CreateSnapshot { collection: names[0] };
        let m0 = spec_step(spec_start_all(), e0).0;
        assert(spec_step(spec_start_all(), e0).1 == (OutcomeModel::Do { action: a_cr }));
        assert(m0 == (RunModel {
            pending: names.skip(1),
            phase: PhaseModel::AwaitSnapshot { collection: names[0] },
        }));
        lemma_collection_loop(names, snaps, blobs);
        let t = run_trace(spec_start_all(), evs);
        assert(t.0 == seq![a_cr] + run_trace(m0, evs.skip(1)).0);
        assert(t.0 =~= backup_actions(names, snaps, blobs));
    }
}

/// A failed listing aborts an "all collections" run at once: the run
/// performs no snapshot creation and no download, and ends failed with the
/// listing's error.
pub proof fn lemma_list_failure_aborts(error: BackupError)
    ensures
        ({
            let t = run_trace(spec_start_all(), seq![EventModel::StepFailed { error }]);
            t.0 == Seq::<ActionModel>::empty() && t.1 == (RunStatus::Failed { error })
        }),
{
    let evs = seq![EventModel::StepFailed { error }];
    assert(evs[0] == (EventModel::StepFailed { error }));
}

/// When a collection's snapshot is created and downloaded but the write
/// fails, the run ends failed with that error and never reports success:
/// the only actions were the download and the attempted write.
pub proof fn lemma_write_failure_aborts(
    collection: Seq<u8>,
    snapshot: Seq<u8>,
    contents: Seq<u8>,
    error: BackupError,
)
    ensures
        ({
            let evs = seq![
                EventModel::SnapshotCreated { snapshot },
                EventModel::SnapshotDownloaded { contents },
                EventModel::StepFailed { error },
            ];
            let t = run_trace(spec_start_one(collection), evs);
            t.0 == seq![
                ActionModel::DownloadSnapshot { collection, snapshot },
                ActionModel::WriteFile {
                    file_name: spec_file_name(collection, snapshot),
                    contents,
                },
            ] && t.1 == (RunStatus::Failed { error })
        }),
{
    let e0 = EventModel::SnapshotCreated { snapshot };
    let e1 = EventModel::SnapshotDownloaded { contents };
    let e2 = EventModel::StepFailed { error };
    let evs = seq![e0, e1, e2];
    let a_dl = ActionModel::DownloadSnapshot { collection, snapshot };
    let a_wr = ActionModel::WriteFile {
        file_name: spec_file_name(collection, snapshot),
        contents,
    };
    let m0 = spec_start_one(collection);
    assert(evs[0] == e0);
    assert(evs.skip(1) =~= seq![e1, e2]);
    assert(evs.skip(1)[0] == e1);
    assert(evs.skip(1).skip(1) =~= seq![e2]);
    assert(evs.skip(1).skip(1)[0] == e2);
    let m1 = spec_step(m0, e0).0;
    assert(spec_step(m0, e0).1 == (OutcomeModel::Do { action: a_dl }));
    let m2 = spec_step(m1, e1).0;
    assert(spec_step(m1, e1).1 == (OutcomeModel::Do { action: a_wr }));
    let t2 = run_trace(m2, evs.skip(1).skip(1));
    assert(t2.0 == Seq::<ActionModel>::empty() && t2.1 == (RunStatus::Failed { error }));
    let t1 = run_trace(m1, evs.skip(1));
    assert(t1.0 == seq![a_wr] + t2.0 && t1.1 == (RunStatus::Failed { error }));
    let t = run_trace(m0, evs);
    assert(t.0 == seq![a_dl] + t1.0 && t.1 == (RunStatus::Failed { error }));
    assert(t.0 =~= seq![a_dl, a_wr]);
}

} // verus!
