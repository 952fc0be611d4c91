use vstd::prelude::*;

use crate::error::{SpawnError, TerminateError};
use crate::slot::RuntimeSlot;

verus! {

/// Where the application's session stands with respect to its worker.
#[derive(Clone, Copy, Debug, PartialEq, Eq, Structural)]
pub enum Phase {
    NotStarted,
    Starting,
    Running,
    ShuttingDown,
    Stopped,
}

/// The signals that each ask for the worker to go away; none takes precedence.
#[derive(Clone, Copy, Debug, PartialEq, Eq, Structural)]
pub enum ShutdownTrigger {
    ExitRequested,
    QuitClicked,
    Exit,
}

/// What the host reports to the router.
#[derive(Debug)]
pub enum LifecycleEvent<H> {
    /// The application is ready.
    Ready,
    /// The requested spawn produced this handle.
    Spawned(H),
    /// The requested spawn failed.
    SpawnFailed(SpawnError),
    Shutdown(ShutdownTrigger),
    /// The kill asked for earlier has completed, well or not.
    KillCompleted(Result<(), TerminateError>),
}

/// What the host is to do next.
#[derive(Debug)]
pub enum Action<H> {
    Nothing,
    /// Start the worker and report the outcome.
    Spawn,
    /// Kill the worker behind this handle and report completion.
    Kill(H),
    /// Let the application exit.
    Exit,
}

/// An event with its payload left out.
#[derive(Clone, Copy, Debug, PartialEq, Eq, Structural)]
pub enum EventKind {
    Ready,
    Spawned,
    SpawnFailed,
    Shutdown,
    KillCompleted,
}

/// An action with its handle left out.
#[derive(Clone, Copy, Debug, PartialEq, Eq, Structural)]
pub enum ActionKind {
    Nothing,
    Spawn,
    Kill,
    Exit,
}

impl<H> LifecycleEvent<H> {
    pub open spec fn kind(&self) -> EventKind {
        match self {
            LifecycleEvent::Ready => EventKind::Ready,
            LifecycleEvent::Spawned(_) => EventKind::Spawned,
            LifecycleEvent::SpawnFailed(_) => EventKind::SpawnFailed,
            LifecycleEvent::Shutdown(_) => EventKind::Shutdown,
            LifecycleEvent::KillCompleted(_) => EventKind::KillCompleted,
        }
    }
}

impl<H> Action<H> {
    pub open spec fn kind(&self) -> ActionKind {
        match self {
            Action::Nothing => ActionKind::Nothing,
            Action::Spawn => ActionKind::Spawn,
            Action::Kill(_) => ActionKind::Kill,
            Action::Exit => ActionKind::Exit,
        }
    }
}

/// The router's state as the laws see it: its phase, whether a worker handle
/// is held, and whether a spawn was asked for whose outcome has not come.
pub struct RouterView {
    pub phase: Phase,
    pub occupied: bool,
    pub spawn_pending: bool,
}

/// A handle is held only while running, and a spawn is outstanding exactly
/// while starting or while shutting down before its outcome came.
pub open spec fn consistent(v: RouterView) -> bool {
    &&& v.occupied ==> v.phase == Phase::Running && !v.spawn_pending
    &&& v.spawn_pending ==> (v.phase == Phase::Starting || v.phase == Phase::ShuttingDown)
    &&& v.phase == Phase::Starting ==> v.spawn_pending
}

pub open spec fn initial() -> RouterView {
    RouterView { phase: Phase::NotStarted, occupied: false, spawn_pending: false }
}

/// The state after one event.
pub open spec fn next(v: RouterView, e: EventKind) -> RouterView {
    match e {
        EventKind::Ready => if v.phase == Phase::NotStarted {
            RouterView { phase: Phase::Starting, spawn_pending: true, ..v }
        } else {
            v
        },
        EventKind::Spawned => if v.spawn_pending && v.phase == Phase::Starting {
            RouterView { phase: Phase::Running, occupied: true, spawn_pending: false }
        } else if v.spawn_pending {
            RouterView { spawn_pending: false, ..v }
        } else {
            v
        },
        EventKind::SpawnFailed => if v.spawn_pending && v.phase == Phase::Starting {
            RouterView { phase: Phase::Running, spawn_pending: false, ..v }
        } else if v.spawn_pending {
            RouterView { phase: Phase::Stopped, spawn_pending: false, ..v }
        } else {
            v
        },
        EventKind::Shutdown => match v.phase {
            Phase::NotStarted => RouterView { phase: Phase::Stopped, ..v },
            Phase::Starting => RouterView { phase: Phase::ShuttingDown, ..v },
            Phase::Running => if v.occupied {
                RouterView { phase: Phase::ShuttingDown, occupied: false, ..v }
            } else {
                RouterView { phase: Phase::Stopped, ..v }
            },
            _ => v,
        },
        EventKind::KillCompleted => if v.phase == Phase::ShuttingDown && !v.spawn_pending {
            RouterView { phase: Phase::Stopped, ..v }
        } else {
            v
        },
    }
}

/// The action that answers one event.
pub open spec fn answer(v: RouterView, e: EventKind) -> ActionKind {
    match e {
        EventKind::Ready => if v.phase == Phase::NotStarted {
            ActionKind::Spawn
        } else {
            ActionKind::Nothing
        },
        EventKind::Spawned => if v.spawn_pending && v.phase == Phase::Starting {
            ActionKind::Nothing
        } else {
            ActionKind::Kill
        },
        EventKind::SpawnFailed => if v.spawn_pending && v.phase == Phase::ShuttingDown {
            ActionKind::Exit
        } else {
            ActionKind::Nothing
        },
        EventKind::Shutdown => match v.phase {
            Phase::NotStarted => ActionKind::Exit,
            Phase::Starting => ActionKind::Nothing,
            Phase::Running => if v.occupied {
                ActionKind::Kill
            } else {
                ActionKind::Exit
            },
            Phase::ShuttingDown => ActionKind::Nothing,
            Phase::Stopped => ActionKind::Exit,
        },
        EventKind::KillCompleted => if v.phase == Phase::ShuttingDown && !v.spawn_pending {
            ActionKind::Exit
        } else {
            ActionKind::Nothing
        },
    }
}

/// Maps the host's lifecycle signals onto spawning and killing the worker,
/// so that whichever shutdown signal comes first takes the handle and the
/// others find the slot empty.
pub struct LifecycleRouter<H> {
    phase: Phase,
    spawn_pending: bool,
    slot: RuntimeSlot<H>,
}

impl<H> View for LifecycleRouter<H> {
    type V = RouterView;

    closed spec fn view(&self) -> RouterView {
        RouterView {
            phase: self.phase,
            occupied: self.slot@ is Some,
            spawn_pending: self.spawn_pending,
        }
    }
}

impl<H> LifecycleRouter<H> {
    /// The handle held, if any.
    pub closed spec fn held(&self) -> Option<H> {
        self.slot@
    }

    /// The state is consistent and the view's slot flag matches the slot.
    pub open spec fn wf(&self) -> bool {
        consistent(self@) && self@.occupied == (self.held() is Some)
    }

    pub fn new() -> (r: LifecycleRouter<H>)
        ensures
            r.wf(),
            r@ == initial(),
            r.held() is None,
    {
        LifecycleRouter { phase: Phase::NotStarted, spawn_pending: false, slot: RuntimeSlot::new() }
    }

    pub fn phase(&self) -> (r: Phase)
        ensures
            r == self@.phase,
    {
        self.phase
    }

    /// Whether a worker handle is held.
    pub fn has_worker(&self) -> (r: bool)
        ensures
            r == self@.occupied,
    {
        self.slot.peek()
    }

    /// Takes one event and says what to do. A handle handed back in `Kill`
    /// is the one held until now when a shutdown signal took it, and the
    /// one just reported otherwise: a handle that arrives once shutdown has
    /// begun, or that nobody asked for, is killed rather than kept.
    pub fn handle(&mut self, event: LifecycleEvent<H>) -> (r: Action<H>)
        requires
            old(self).wf(),
        ensures
            final(self).wf(),
            final(self)@ == next(old(self)@, event.kind()),
            r.kind() == answer(old(self)@, event.kind()),
            event is Shutdown && r is Kill ==> old(self).held() == Some(r->Kill_0),
            event is Spawned && r is Kill ==> r->Kill_0 == event->Spawned_0,
            event is Spawned && r is Nothing ==> final(self).held() == Some(event->Spawned_0),
            !(event is Spawned && r is Nothing) && final(self)@.occupied ==> final(self).held()
                == old(self).held(),
    {
        match event {
            LifecycleEvent::Ready => {
                if self.phase == Phase::NotStarted {
                    self.phase = Phase::Starting;
                    self.spawn_pending = true;
                    Action::Spawn
                } else {
                    Action::Nothing
                }
            },
            LifecycleEvent::Spawned(h) => {
                if self.spawn_pending && self.phase == Phase::Starting {
                    self.phase = Phase::Running;
                    self.spawn_pending = false;
                    self.slot.store(h);
                    Action::Nothing
                } else {
                    self.spawn_pending = false;
                    Action::Kill(h)
                }
            },
            LifecycleEvent::SpawnFailed(_) => {
                if self.spawn_pending && self.phase == Phase::Starting {
                    self.phase = Phase::Running;
                    self.spawn_pending = false;
                    Action::Nothing
                } else if self.spawn_pending {
                    self.phase = Phase::Stopped;
                    self.spawn_pending = false;
                    Action::Exit
                } else {
                    Action::Nothing
                }
            },
            LifecycleEvent::Shutdown(_) => {
                match self.phase {
                    Phase::NotStarted => {
                        self.phase = Phase::Stopped;
                        Action::Exit
                    },
                    Phase::Starting => {
                        self.phase = Phase::ShuttingDown;
                        Action::Nothing
                    },
                    Phase::Running => {
                        match self.slot.take() {
                            Some(h) => {
                                self.phase = Phase::ShuttingDown;
                                Action::Kill(h)
                            },
                            None => {
                                self.phase = Phase::Stopped;
                                Action::Exit
                            },
                        }
                    },
                    Phase::ShuttingDown => Action::Nothing,
                    Phase::Stopped => Action::Exit,
                }
            },
            LifecycleEvent::KillCompleted(_) => {
                if self.phase == Phase::ShuttingDown && !self.spawn_pending {
                    self.phase = Phase::Stopped;
                    Action::Exit
                } else {
                    Action::Nothing
                }
            },
        }
    }
}

} // verus!

verus! {

/// How many actions `Kill` the router answers to `events`, starting at `v`.
pub open spec fn kills(v: RouterView, events: Seq<EventKind>) -> nat
    decreases events.len(),
{
    if events.len() == 0 {
        0
    } else {
        let here: nat = if answer(v, events[0]) == ActionKind::Kill {
            1
        } else {
            0
        };
        here + kills(next(v, events[0]), events.drop_first())
    }
}

/// How many of `events`, starting at `v`, turn an empty slot into a held one.
pub open spec fn fills(v: RouterView, events: Seq<EventKind>) -> nat
    decreases events.len(),
{
    if events.len() == 0 {
        0
    } else {
        let here: nat = if !v.occupied && next(v, events[0]).occupied {
            1
        } else {
            0
        };
        here + fills(next(v, events[0]), events.drop_first())
    }
}

/// How many of `events` report a spawned handle.
pub open spec fn spawned_count(events: Seq<EventKind>) -> nat
    decreases events.len(),
{
    if events.len() == 0 {
        0
    } else {
        let here: nat = if events[0] == EventKind::Spawned {
            1
        } else {
            0
        };
        here + spawned_count(events.drop_first())
    }
}

pub open spec fn only_shutdowns(events: Seq<EventKind>) -> bool {
    forall|i: int| 0 <= i < events.len() ==> #[trigger] events[i] == EventKind::Shutdown
}

/// Every event keeps the router's state consistent.
pub proof fn lemma_next_keeps_consistent(v: RouterView, e: EventKind)
    requires
        consistent(v),
    ensures
        consistent(next(v, e)),
{
}

/// Whatever mix of exit requests, quit clicks and exit events arrives, in
/// whatever order, the worker is killed at most once: exactly once when a
/// handle was held and at least one signal came, never otherwise.
pub proof fn lemma_shutdown_signals_kill_at_most_once(v: RouterView, events: Seq<EventKind>)
    requires
        consistent(v),
        only_shutdowns(events),
    ensures
        kills(v, events) <= 1,
        kills(v, events) == 1 <==> (events.len() > 0 && v.occupied),
    decreases events.len(),
{
    if events.len() > 0 {
        let rest = events.drop_first();
        assert(events[0] == EventKind::Shutdown);
        assert forall|i: int| 0 <= i < rest.len() implies #[trigger] rest[i]
            == EventKind::Shutdown by {
            assert(rest[i] == events[i + 1]);
        }
        lemma_shutdown_signals_kill_at_most_once(next(v, events[0]), rest);
    }
}

/// Over any sequence of events, the router asks for no more kills than the
/// handles it was given (counting one already held): a session in which the
/// worker is spawned once kills it at most once.
pub proof fn lemma_kills_bounded_by_handles(v: RouterView, events: Seq<EventKind>)
    requires
        consistent(v),
    ensures
        kills(v, events) <= spawned_count(events) + (if v.occupied {
            1nat
        } else {
            0nat
        }),
        v == initial() && spawned_count(events) <= 1 ==> kills(v, events) <= 1,
    decreases events.len(),
{
    if events.len() > 0 {
        lemma_kills_bounded_by_handles(next(v, events[0]), events.drop_first());
    }
}

pub open spec fn rank(p: Phase) -> nat {
    match p {
        Phase::NotStarted => 0,
        Phase::Starting => 1,
        Phase::Running => 2,
        Phase::ShuttingDown => 3,
        Phase::Stopped => 4,
    }
}

proof fn lemma_no_fill_after_start(v: RouterView, events: Seq<EventKind>)
    requires
        consistent(v),
        rank(v.phase) >= 2,
    ensures
        fills(v, events) == 0,
    decreases events.len(),
{
    if events.len() > 0 {
        lemma_no_fill_after_start(next(v, events[0]), events.drop_first());
    }
}

proof fn lemma_fills_at_most_once_from(v: RouterView, events: Seq<EventKind>)
    requires
        consistent(v),
    ensures
        fills(v, events) <= 1,
    decreases events.len(),
{
    if events.len() > 0 {
        let w = next(v, events[0]);
        if !v.occupied && w.occupied {
            lemma_no_fill_after_start(w, events.drop_first());
        } else {
            lemma_fills_at_most_once_from(w, events.drop_first());
        }
    }
}

/// In a session the slot goes from empty to held at most once, and never
/// once a shutdown signal has been processed; on the ordinary path (ready,
/// then the spawned handle) it does so exactly once.
pub proof fn lemma_slot_filled_once(events: Seq<EventKind>, v: RouterView)
    requires
        consistent(v),
    ensures
        fills(initial(), events) <= 1,
        fills(next(v, EventKind::Shutdown), events) == 0,
        fills(initial(), seq![EventKind::Ready, EventKind::Spawned] + events) == 1,
{
    lemma_fills_at_most_once_from(initial(), events);
    lemma_no_fill_after_start(next(v, EventKind::Shutdown), events);
    let path = seq![EventKind::Ready, EventKind::Spawned] + events;
    let s1 = next(initial(), EventKind::Ready);
    let s2 = next(s1, EventKind::Spawned);
    assert(path[0] == EventKind::Ready);
    assert(path.drop_first()[0] == EventKind::Spawned);
    assert(path.drop_first().drop_first() =~= events);
    lemma_no_fill_after_start(s2, events);
    assert(fills(s1, path.drop_first()) == 1 + fills(s2, events));
    assert(fills(initial(), path) == fills(s1, path.drop_first()));
}

/// Once a shutdown signal has been processed the slot is empty, and a further
/// signal changes nothing and kills nothing; the same holds after the kill
/// has completed, when the router lets the application exit.
pub proof fn lemma_second_signal_is_noop(v: RouterView)
    requires
        consistent(v),
    ensures
        !next(v, EventKind::Shutdown).occupied,
        answer(next(v, EventKind::Shutdown), EventKind::Shutdown) != ActionKind::Kill,
        next(next(v, EventKind::Shutdown), EventKind::Shutdown) == next(v, EventKind::Shutdown),
        ({
            let done = next(next(v, EventKind::Shutdown), EventKind::KillCompleted);
            v.occupied ==> done.phase == Phase::Stopped && !done.occupied && answer(
                done,
                EventKind::Shutdown,
            ) == ActionKind::Exit && next(done, EventKind::Shutdown) == done
        }),
{
}

/// A spawn that fails leaves the slot empty and kills nothing; the session
/// carries on without a worker, or exits if a shutdown signal was waiting.
pub proof fn lemma_failed_spawn_leaves_slot_empty(v: RouterView)
    requires
        consistent(v),
        v.spawn_pending,
    ensures
        !next(v, EventKind::SpawnFailed).occupied,
        answer(v, EventKind::SpawnFailed) != ActionKind::Kill,
        v.phase == Phase::Starting ==> next(v, EventKind::SpawnFailed).phase == Phase::Running,
        v.phase == Phase::ShuttingDown ==> next(v, EventKind::SpawnFailed).phase
            == Phase::Stopped,
{
}

} // verus!
