//! The bootstrap run as a state machine.
//!
//! One run resolves the remote version, evaluates the local installation,
//! then processes each client year in order (download, then extraction) and
//! finally writes the version marker and stages the launcher binary. The
//! machine holds every decision of that pipeline; the caller performs the
//! network and filesystem work an `Action` asks for and reports the outcome
//! back as the next `Event`. Any fatal outcome moves the machine to a failed
//! terminal phase, which aborts the remaining years and skips finalizing, so
//! the marker is never written after a fatal error.

use vstd::prelude::*;
use vstd::pervasive::unreached;
use crate::config::YEAR_COUNT;
use crate::version::{ResolveError, InstallationState, evaluate, marker_current, spec_evaluate,
    opt_bytes_view};

verus! {

/// Where a failed run stopped.
#[derive(Clone, Copy, Debug, PartialEq, Eq, Structural)]
pub enum FailureReason {
    /// Version resolution failed: unreachable endpoint or empty token.
    Resolve,
    /// A year's download exhausted its retry budget.
    Download { year_index: usize },
    /// A year's archive container could not be parsed, or its destination
    /// could not be prepared.
    Extract { year_index: usize },
    /// Writing the marker or staging the launcher binary failed.
    Finalize,
}

/// The phases of one bootstrap run. `UpToDate`, `Done` and `Failed` are
/// terminal.
#[derive(Clone, Copy, Debug, PartialEq, Eq, Structural)]
pub enum Phase {
    Idle,
    ResolvingVersion,
    EvaluatingState,
    Downloading { year_index: usize },
    Extracting { year_index: usize },
    Finalizing,
    UpToDate,
    Done,
    Failed { reason: FailureReason },
}

/// What the caller must do next.
#[derive(Clone, Copy, Debug, PartialEq, Eq, Structural)]
pub enum Action {
    /// Issue the single request to the version endpoint.
    FetchVersion,
    /// Report whether the installation directory exists and what its marker
    /// file holds.
    ReadLocalState,
    /// Terminal: the installation is current; open the games page.
    OpenGamesPage,
    /// Download the archive of the given year, with retries.
    StartDownload { year_index: usize },
    /// Extract the downloaded archive of the given year.
    StartExtract { year_index: usize },
    /// Write the version marker and stage the launcher binary.
    Finalize,
    /// Terminal: a fresh install finished; open the post-install page.
    OpenPostInstallPage,
    /// Terminal: nothing more to do.
    Stop,
}

/// What the caller reports back after performing an action.
pub enum Event {
    /// The run begins.
    Start,
    /// The version endpoint answered: the parsed token, or why not.
    VersionResolved { result: Result<Vec<u8>, ResolveError> },
    /// The local installation was inspected: whether the directory exists
    /// and the marker content, if one could be read.
    LocalStateRead { dir_exists: bool, marker: Option<Vec<u8>> },
    /// The year's download succeeded, or exhausted its retries.
    DownloadFinished { ok: bool },
    /// The year's archive was opened and its entries processed, or the
    /// container could not be parsed.
    ExtractFinished { ok: bool },
    /// The marker write and launcher copy succeeded, or not.
    FinalizeFinished { ok: bool },
}

/// Mathematical value of an `Event`.
pub enum EventModel {
    Start,
    VersionResolved { result: Result<Seq<u8>, ResolveError> },
    LocalStateRead { dir_exists: bool, marker: Option<Seq<u8>> },
    DownloadFinished { ok: bool },
    ExtractFinished { ok: bool },
    FinalizeFinished { ok: bool },
}

impl View for Event {
    type V = EventModel;

    open spec fn view(&self) -> EventModel {
        match *self {
            Event::Start => EventModel::Start,
            Event::VersionResolved { result } => (EventModel::VersionResolved {
                result: match result {
                    Ok(v) => Ok(v@),
                    Err(e) => Err(e),
                },
            }),
            Event::LocalStateRead { dir_exists, marker } => (EventModel::LocalStateRead {
                dir_exists,
                marker: opt_bytes_view(marker),
            }),
            Event::DownloadFinished { ok } => EventModel::DownloadFinished { ok },
            Event::ExtractFinished { ok } => EventModel::ExtractFinished { ok },
            Event::FinalizeFinished { ok } => EventModel::FinalizeFinished { ok },
        }
    }
}

/// The machine: current phase, the resolved version once known, and whether
/// the run updates an existing installation.
pub struct Machine {
    pub phase: Phase,
    pub remote_version: Option<Vec<u8>>,
    pub is_update: bool,
}

/// Mathematical value of a `Machine`.
pub struct MachineModel {
    pub phase: Phase,
    pub remote: Option<Seq<u8>>,
    pub is_update: bool,
}

impl View for Machine {
    type V = MachineModel;

    open spec fn view(&self) -> MachineModel {
        MachineModel {
            phase: self.phase,
            remote: opt_bytes_view(self.remote_version),
            is_update: self.is_update,
        }
    }
}

impl MachineModel {
    /// Internal consistency: a year index never passes the enumerated set,
    /// and the remote version is known in every phase that needs it.
    pub open spec fn wf(self) -> bool {
        match self.phase {
            Phase::EvaluatingState => self.remote is Some,
            Phase::Downloading { year_index } => year_index < YEAR_COUNT && self.remote is Some,
            Phase::Extracting { year_index } => year_index < YEAR_COUNT && self.remote is Some,
            Phase::Finalizing => self.remote is Some,
            _ => true,
        }
    }
}

/// The machine before its first event.
pub open spec fn init_model() -> MachineModel {
    MachineModel { phase: Phase::Idle, remote: None, is_update: false }
}

/// Which event a phase can take. Terminal phases take none.
pub open spec fn event_expected(phase: Phase, ev: EventModel) -> bool {
    match (phase, ev) {
        (Phase::Idle, EventModel::Start) => true,
        (Phase::ResolvingVersion, EventModel::VersionResolved { .. }) => true,
        (Phase::EvaluatingState, EventModel::LocalStateRead { .. }) => true,
        (Phase::Downloading { .. }, EventModel::DownloadFinished { .. }) => true,
        (Phase::Extracting { .. }, EventModel::ExtractFinished { .. }) => true,
        (Phase::Finalizing, EventModel::FinalizeFinished { .. }) => true,
        _ => false,
    }
}

/// The transition relation of the bootstrap run: what one event does to the
/// machine and which action it asks of the caller.
pub open spec fn spec_step(m: MachineModel, ev: EventModel) -> (MachineModel, Action) {
    match (m.phase, ev) {
        (Phase::Idle, EventModel::Start) => (
            (MachineModel { phase: Phase::ResolvingVersion, ..m }),
            Action::FetchVersion,
        ),
        (Phase::ResolvingVersion, EventModel::VersionResolved { result }) => match result {
            Ok(v) => (
                (MachineModel { phase: Phase::EvaluatingState, remote: Some(v), ..m }),
                Action::ReadLocalState,
            ),
            Err(_) => (
                (MachineModel { phase: Phase::Failed { reason: FailureReason::Resolve }, ..m }),
                Action::Stop,
            ),
        },
        (Phase::EvaluatingState, EventModel::LocalStateRead { dir_exists, marker }) => {
            if spec_evaluate(dir_exists, marker, m.remote->Some_0)
                == InstallationState::UpToDate {
                ((MachineModel { phase: Phase::UpToDate, ..m }), Action::OpenGamesPage)
            } else {
                (
                    (MachineModel {
                        phase: Phase::Downloading { year_index: 0 },
                        is_update: dir_exists,
                        ..m
                    }),
                    Action::StartDownload { year_index: 0 },
                )
            }
        },
        (Phase::Downloading { year_index }, EventModel::DownloadFinished { ok }) => {
            if ok {
                (
                    (MachineModel { phase: Phase::Extracting { year_index }, ..m }),
                    Action::StartExtract { year_index },
                )
            } else {
                (
                    (MachineModel {
                        phase: Phase::Failed { reason: FailureReason::Download { year_index } },
                        ..m
                    }),
                    Action::Stop,
                )
            }
        },
        (Phase::Extracting { year_index }, EventModel::ExtractFinished { ok }) => {
            if !ok {
                (
                    (MachineModel {
                        phase: Phase::Failed { reason: FailureReason::Extract { year_index } },
                        ..m
                    }),
                    Action::Stop,
                )
            } else if year_index + 1 == YEAR_COUNT {
                ((MachineModel { phase: Phase::Finalizing, ..m }), Action::Finalize)
            } else {
                (
                    (MachineModel {
                        phase: Phase::Downloading { year_index: (year_index + 1) as usize },
                        ..m
                    }),
                    Action::StartDownload { year_index: (year_index + 1) as usize },
                )
            }
        },
        (Phase::Finalizing, EventModel::FinalizeFinished { ok }) => {
            if ok {
                (
                    (MachineModel { phase: Phase::Done, ..m }),
                    if m.is_update {
                        Action::Stop
                    } else {
                        Action::OpenPostInstallPage
                    },
                )
            } else {
                (
                    (MachineModel { phase: Phase::Failed { reason: FailureReason::Finalize }, ..m }),
                    Action::Stop,
                )
            }
        },
        _ => (m, Action::Stop),
    }
}

impl Machine {
    /// A machine ready for its first event.
    pub fn new() -> (r: Machine)
        ensures
            r@ == init_model(),
    {
        Machine { phase: Phase::Idle, remote_version: None, is_update: false }
    }

    /// Take one event and answer with the next action, exactly as the
    /// transition relation says.
    pub fn step(&mut self, ev: Event) -> (a: Action)
        requires
            old(self)@.wf(),
            event_expected(old(self)@.phase, ev@),
        ensures
            final(self)@ == spec_step(old(self)@, ev@).0,
            a == spec_step(old(self)@, ev@).1,
            final(self)@.wf(),
    {
        match (self.phase, ev) {
            (Phase::Idle, Event::Start) => {
                self.phase = Phase::ResolvingVersion;
                Action::FetchVersion
            },
            (Phase::ResolvingVersion, Event::VersionResolved { result }) => match result {
                Ok(v) => {
                    self.remote_version = Some(v);
                    self.phase = Phase::EvaluatingState;
                    Action::ReadLocalState
                },
                Err(_) => {
                    self.phase = Phase::Failed { reason: FailureReason::Resolve };
                    Action::Stop
                },
            },
            (Phase::EvaluatingState, Event::LocalStateRead { dir_exists, marker }) => {
                let st = match &self.remote_version {
                    Some(rv) => evaluate(dir_exists, &marker, rv),
                    None => unreached(),
                };
                if st == InstallationState::UpToDate {
                    self.phase = Phase::UpToDate;
                    Action::OpenGamesPage
                } else {
                    self.is_update = dir_exists;
                    self.phase = Phase::Downloading { year_index: 0 };
                    Action::StartDownload { year_index: 0 }
                }
            },
            (Phase::Downloading { year_index }, Event::DownloadFinished { ok }) => {
                if ok {
                    self.phase = Phase::Extracting { year_index };
                    Action::StartExtract { year_index }
                } else {
                    self.phase = Phase::Failed {
                        reason: FailureReason::Download { year_index },
                    };
                    Action::Stop
                }
            },
            (Phase::Extracting { year_index }, Event::ExtractFinished { ok }) => {
                if !ok {
                    self.phase = Phase::Failed {
                        reason: FailureReason::Extract { year_index },
                    };
                    Action::Stop
                } else if year_index + 1 == YEAR_COUNT {
                    self.phase = Phase::Finalizing;
                    Action::Finalize
                } else {
                    self.phase = Phase::Downloading { year_index: year_index + 1 };
                    Action::StartDownload { year_index: year_index + 1 }
                }
            },
            (Phase::Finalizing, Event::FinalizeFinished { ok }) => {
                if ok {
                    self.phase = Phase::Done;
                    if self.is_update {
                        Action::Stop
                    } else {
                        Action::OpenPostInstallPage
                    }
                } else {
                    self.phase = Phase::Failed { reason: FailureReason::Finalize };
                    Action::Stop
                }
            },
            _ => unreached(),
        }
    }
}

/// Views of an event list.
pub open spec fn seq_views(evs: Seq<Event>) -> Seq<EventModel> {
    evs.map_values(|e: Event| e@)
}

/// Whether a machine accepts an event list: each event in turn is expected
/// in the phase reached by the events before it.
pub open spec fn events_ok(m: MachineModel, evs: Seq<EventModel>) -> bool
    decreases evs.len(),
{
    evs.len() == 0 || (event_expected(m.phase, evs[0]) && events_ok(
        spec_step(m, evs[0]).0,
        evs.drop_first(),
    ))
}

/// The machine and the action trace that a run of events produces.
pub open spec fn run_spec(m: MachineModel, evs: Seq<EventModel>) -> (MachineModel, Seq<Action>)
    decreases evs.len(),
{
    if evs.len() == 0 {
        (m, Seq::empty())
    } else {
        let first = spec_step(m, evs[0]);
        let rest = run_spec(first.0, evs.drop_first());
        (rest.0, seq![first.1] + rest.1)
    }
}

/// Drive a fresh machine through a whole run: fold `step` over the events
/// in order and collect the action trace.
pub fn run_events(events: Vec<Event>) -> (r: (Machine, Vec<Action>))
    requires
        events_ok(init_model(), seq_views(events@)),
    ensures
        r.0@ == run_spec(init_model(), seq_views(events@)).0,
        r.1@ == run_spec(init_model(), seq_views(events@)).1,
{
    let ghost allv = seq_views(events@);
    let mut m = Machine::new();
    let mut acts: Vec<Action> = Vec::new();
    let mut rest = events;
    while rest.len() > 0
        invariant
            m@.wf(),
            events_ok(m@, seq_views(rest@)),
            run_spec(init_model(), allv).0 == run_spec(m@, seq_views(rest@)).0,
            run_spec(init_model(), allv).1 =~= acts@ + run_spec(m@, seq_views(rest@)).1,
            allv == seq_views(events@),
        decreases rest.len(),
    {
        let ghost prev = rest@;
        let ev = rest.remove(0);
        proof {
            assert(prev.remove(0) =~= prev.drop_first());
            assert(seq_views(prev)[0] == ev@);
            assert(seq_views(rest@) =~= seq_views(prev).drop_first());
        }
        let ghost m_before = m@;
        let a = m.step(ev);
        acts.push(a);
        proof {
            let tail = run_spec(m@, seq_views(rest@)).1;
            assert(run_spec(m_before, seq_views(prev)).1 == seq![a] + tail);
            assert((acts@.drop_last() + seq![a]) + tail =~= acts@.drop_last() + (seq![a] + tail));
            assert(acts@ =~= acts@.drop_last() + seq![a]);
        }
    }
    proof {
        assert(seq_views(rest@) =~= Seq::<EventModel>::empty());
        assert(run_spec(init_model(), allv).1 =~= acts@);
    }
    (m, acts)
}

/// Terminal phases accept no event: after success, failure, or an
/// up-to-date verdict, a valid run has nothing left to do, so no further
/// action — in particular no marker write — can occur.
pub proof fn lemma_terminal_takes_no_event(m: MachineModel, evs: Seq<EventModel>)
    requires
        m.phase == Phase::UpToDate || m.phase == Phase::Done || m.phase matches Phase::Failed {
            ..
        },
        events_ok(m, evs),
    ensures
        evs.len() == 0,
        run_spec(m, evs).1.len() == 0,
{
}

/// Marker-write gating, necessity: one step asks for the marker write (the
/// finalize action) exactly when the last enumerated year has just finished
/// its extraction pass cleanly — never after a fatal error, never before
/// every year was processed.
pub proof fn lemma_finalize_gating(m: MachineModel, ev: EventModel)
    requires
        m.wf(),
    ensures
        spec_step(m, ev).1 == Action::Finalize <==> (m.phase == (Phase::Extracting {
            year_index: (YEAR_COUNT - 1) as usize,
        }) && ev == (EventModel::ExtractFinished { ok: true })),
{
}

/// How often an action occurs in a trace.
pub open spec fn count_action(tr: Seq<Action>, a: Action) -> nat
    decreases tr.len(),
{
    if tr.len() == 0 {
        0
    } else {
        (if tr[0] == a {
            1nat
        } else {
            0nat
        }) + count_action(tr.drop_first(), a)
    }
}

/// Every year after `i` is downloaded and extracted somewhere in the trace.
pub open spec fn years_after_covered(tr: Seq<Action>, i: int) -> bool {
    forall|j: usize|
        i < j < YEAR_COUNT ==> #[trigger] count_action(tr, (Action::StartDownload { year_index: j }))
            >= 1 && count_action(tr, (Action::StartExtract { year_index: j })) >= 1
}

/// What the rest of a run can still emit, by phase: the marker write comes
/// at most once, and only in a trace that also processes every outstanding
/// year.
pub open spec fn gating_claim(m: MachineModel, tr: Seq<Action>) -> bool {
    &&& count_action(tr, Action::Finalize) <= 1
    &&& match m.phase {
        Phase::UpToDate | Phase::Done | Phase::Failed { .. } => tr.len() == 0,
        Phase::Finalizing => count_action(tr, Action::Finalize) == 0,
        Phase::Downloading { year_index } => count_action(tr, Action::Finalize) >= 1 ==> (
        count_action(tr, (Action::StartExtract { year_index })) >= 1 && years_after_covered(
            tr,
            year_index as int,
        )),
        Phase::Extracting { year_index } => count_action(tr, Action::Finalize) >= 1
            ==> years_after_covered(tr, year_index as int),
        _ => count_action(tr, Action::Finalize) >= 1 ==> years_after_covered(tr, -1),
    }
}

proof fn lemma_count_cons(a: Action, tail: Seq<Action>, x: Action)
    ensures
        count_action(seq![a] + tail, x) == (if a == x {
            1nat
        } else {
            0nat
        }) + count_action(tail, x),
{
    assert((seq![a] + tail)[0] == a);
    assert((seq![a] + tail).drop_first() =~= tail);
}

proof fn lemma_trace_from(m: MachineModel, evs: Seq<EventModel>)
    requires
        m.wf(),
        events_ok(m, evs),
    ensures
        gating_claim(m, run_spec(m, evs).1),
    decreases evs.len(),
{
    if evs.len() > 0 {
        let step = spec_step(m, evs[0]);
        let tail = run_spec(step.0, evs.drop_first()).1;
        lemma_trace_from(step.0, evs.drop_first());
        let tr = run_spec(m, evs).1;
        assert(tr == seq![step.1] + tail);
        assert forall|x: Action| #[trigger] count_action(tr, x) == (if step.1 == x {
            1nat
        } else {
            0nat
        }) + count_action(tail, x) by {
            lemma_count_cons(step.1, tail, x);
        }
    }
}

/// Marker-write gating over every valid run from the start: the marker
/// write (the finalize action) appears in the trace at most once, and when
/// it appears, the trace also downloaded and extracted every enumerated
/// year beforehand — a run with a fatal failure on any year never asks for
/// the marker.
pub proof fn lemma_marker_gating(evs: Seq<EventModel>)
    requires
        events_ok(init_model(), evs),
    ensures
        count_action(run_spec(init_model(), evs).1, Action::Finalize) <= 1,
        count_action(run_spec(init_model(), evs).1, Action::Finalize) == 1 ==> forall|j: usize|
            j < YEAR_COUNT ==> #[trigger] count_action(
                run_spec(init_model(), evs).1,
                (Action::StartDownload { year_index: j }),
            ) >= 1 && count_action(
                run_spec(init_model(), evs).1,
                (Action::StartExtract { year_index: j }),
            ) >= 1,
{
    lemma_trace_from(init_model(), evs);
}

/// The events of a run in which the version resolves, every year downloads
/// and extracts cleanly, and finalizing succeeds.
pub open spec fn clean_run_events(
    v: Seq<u8>,
    dir_exists: bool,
    marker: Option<Seq<u8>>,
) -> Seq<EventModel> {
    seq![
        EventModel::Start,
        EventModel::VersionResolved { result: Ok(v) },
        EventModel::LocalStateRead { dir_exists, marker },
        EventModel::DownloadFinished { ok: true },
        EventModel::ExtractFinished { ok: true },
        EventModel::DownloadFinished { ok: true },
        EventModel::ExtractFinished { ok: true },
        EventModel::DownloadFinished { ok: true },
        EventModel::ExtractFinished { ok: true },
        EventModel::DownloadFinished { ok: true },
        EventModel::ExtractFinished { ok: true },
        EventModel::FinalizeFinished { ok: true },
    ]
}

/// Marker-write gating, sufficiency: when the installation is not already
/// current and every enumerated year completes its download and extraction
/// pass without a fatal error, the run asks for the marker write exactly
/// once, after the last year, and ends in the terminal success phase.
pub proof fn lemma_clean_run_finalizes(v: Seq<u8>, dir_exists: bool, marker: Option<Seq<u8>>)
    requires
        spec_evaluate(dir_exists, marker, v) != InstallationState::UpToDate,
    ensures
        events_ok(init_model(), clean_run_events(v, dir_exists, marker)),
        run_spec(init_model(), clean_run_events(v, dir_exists, marker)).0.phase == Phase::Done,
        run_spec(init_model(), clean_run_events(v, dir_exists, marker)).1 =~= seq![
            Action::FetchVersion,
            Action::ReadLocalState,
            Action::StartDownload { year_index: 0 },
            Action::StartExtract { year_index: 0 },
            Action::StartDownload { year_index: 1 },
            Action::StartExtract { year_index: 1 },
            Action::StartDownload { year_index: 2 },
            Action::StartExtract { year_index: 2 },
            Action::StartDownload { year_index: 3 },
            Action::StartExtract { year_index: 3 },
            Action::Finalize,
            (if dir_exists {
                Action::Stop
            } else {
                Action::OpenPostInstallPage
            }),
        ],
{
    reveal_with_fuel(events_ok, 13);
    reveal_with_fuel(run_spec, 13);
    let evs = clean_run_events(v, dir_exists, marker);
    assert(evs.drop_first() =~= evs.subrange(1, 12));
}

/// Idempotence on up-to-date: when the local marker already names the
/// resolved remote version, a valid run is exactly the version fetch, the
/// local read, and the terminal open-games-page answer — no download, no
/// extraction, no marker write occurs.
pub proof fn lemma_up_to_date_idempotent(
    v: Seq<u8>,
    dir_exists: bool,
    marker: Option<Seq<u8>>,
    evs: Seq<EventModel>,
)
    requires
        dir_exists,
        marker_current(marker, v),
        events_ok(init_model(), evs),
        evs.len() >= 3,
        evs[0] == EventModel::Start,
        evs[1] == (EventModel::VersionResolved { result: Ok(v) }),
        evs[2] == (EventModel::LocalStateRead { dir_exists, marker }),
    ensures
        evs.len() == 3,
        run_spec(init_model(), evs).0.phase == Phase::UpToDate,
        run_spec(init_model(), evs).1 =~= seq![
            Action::FetchVersion,
            Action::ReadLocalState,
            Action::OpenGamesPage,
        ],
{
    reveal_with_fuel(events_ok, 4);
    reveal_with_fuel(run_spec, 4);
    let m1 = spec_step(init_model(), evs[0]).0;
    let m2 = spec_step(m1, evs[1]).0;
    let m3 = spec_step(m2, evs[2]).0;
    let rest = evs.drop_first().drop_first().drop_first();
    assert(evs.drop_first()[0] == evs[1]);
    assert(evs.drop_first().drop_first()[0] == evs[2]);
    assert(m3.phase == Phase::UpToDate);
    assert(events_ok(m3, rest));
    lemma_terminal_takes_no_event(m3, rest);
    assert(run_spec(m3, rest).1 =~= Seq::<Action>::empty());
}

} // verus!
