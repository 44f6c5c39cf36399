//! The listener set: how independent listeners start, drain and stop.
//!
//! Each configured address has one listener with a shutdown signal of its
//! own. The set decides what each event means for the listener it reaches
//! and keeps every outcome; accepting connections and waiting are left to
//! the caller, which reports what happened as events.
use vstd::prelude::*;

verus! {

/// Where a listener is in its life. A listener only ever moves forward:
/// `Starting`, `Serving`, `Draining`, `Stopped`.
#[derive(Clone, Copy, Debug, PartialEq, Eq, Structural)]
pub enum ListenerState {
    /// Bound, not yet accepting.
    Starting,
    /// Accepting connections and answering scrapes.
    Serving,
    /// No longer accepting; responses in flight are completing.
    Draining,
    /// The task has ended.
    Stopped,
}

/// What happened to a listener.
#[derive(Clone, Copy, Debug, PartialEq, Eq, Structural)]
pub enum ListenerEvent {
    /// The server task was started.
    Started,
    /// The listener's shutdown signal was received.
    ShutdownSignal,
    /// The server task ended after its last response.
    Finished,
    /// The server task ended abnormally.
    Failed,
}

/// What the caller is to do about an event.
#[derive(Clone, Copy, Debug, PartialEq, Eq, Structural)]
pub enum ListenerAction {
    /// Nothing: the event does not apply to the listener as it is.
    Ignore,
    /// Accept connections.
    Serve,
    /// Stop accepting and let the responses in flight complete.
    Drain,
    /// The listener has stopped in good order.
    Release,
    /// The listener has stopped on a failure: report it, and leave the
    /// other listeners alone.
    ReportFailure,
}

/// One listener as the set sees it.
pub struct ListenerView {
    pub address: Seq<char>,
    pub state: ListenerState,
    pub failed: bool,
}

/// How far a state is along a listener's life.
pub open spec fn rank(state: ListenerState) -> nat {
    match state {
        ListenerState::Starting => 0,
        ListenerState::Serving => 1,
        ListenerState::Draining => 2,
        ListenerState::Stopped => 3,
    }
}

/// The state that an event brings a listener to. An event that does not
/// apply leaves the state as it is.
pub open spec fn next_state(state: ListenerState, event: ListenerEvent) -> ListenerState {
    match (state, event) {
        (ListenerState::Stopped, _) => ListenerState::Stopped,
        (_, ListenerEvent::Finished) => ListenerState::Stopped,
        (_, ListenerEvent::Failed) => ListenerState::Stopped,
        (ListenerState::Starting, ListenerEvent::Started) => ListenerState::Serving,
        (ListenerState::Starting, ListenerEvent::ShutdownSignal) => ListenerState::Draining,
        (ListenerState::Serving, ListenerEvent::ShutdownSignal) => ListenerState::Draining,
        _ => state,
    }
}

/// What the caller is to do when an event reaches a listener in a state.
pub open spec fn action_for(state: ListenerState, event: ListenerEvent) -> ListenerAction {
    match (state, event) {
        (ListenerState::Stopped, _) => ListenerAction::Ignore,
        (_, ListenerEvent::Finished) => ListenerAction::Release,
        (_, ListenerEvent::Failed) => ListenerAction::ReportFailure,
        (ListenerState::Starting, ListenerEvent::Started) => ListenerAction::Serve,
        (ListenerState::Starting, ListenerEvent::ShutdownSignal) => ListenerAction::Drain,
        (ListenerState::Serving, ListenerEvent::ShutdownSignal) => ListenerAction::Drain,
        _ => ListenerAction::Ignore,
    }
}

/// A listener after an event: its state moves on, and a failure, once
/// recorded, stays recorded.
pub open spec fn after_event(listener: ListenerView, event: ListenerEvent) -> ListenerView {
    ListenerView {
        address: listener.address,
        state: next_state(listener.state, event),
        failed: listener.failed || action_for(listener.state, event) == ListenerAction::ReportFailure,
    }
}

/// The state and the action that an event gives a listener.
pub fn step(state: ListenerState, event: ListenerEvent) -> (next: (ListenerState, ListenerAction))
    ensures
        next.0 == next_state(state, event),
        next.1 == action_for(state, event),
{
    match state {
        ListenerState::Stopped => (ListenerState::Stopped, ListenerAction::Ignore),
        _ => match event {
            ListenerEvent::Finished => (ListenerState::Stopped, ListenerAction::Release),
            ListenerEvent::Failed => (ListenerState::Stopped, ListenerAction::ReportFailure),
            ListenerEvent::Started => match state {
                ListenerState::Starting => (ListenerState::Serving, ListenerAction::Serve),
                _ => (state, ListenerAction::Ignore),
            },
            ListenerEvent::ShutdownSignal => match state {
                ListenerState::Starting => (ListenerState::Draining, ListenerAction::Drain),
                ListenerState::Serving => (ListenerState::Draining, ListenerAction::Drain),
                _ => (state, ListenerAction::Ignore),
            },
        },
    }
}

/// One listener: its address, its state, and whether its task failed.
#[derive(Debug)]
struct Listener {
    address: String,
    state: ListenerState,
    failed: bool,
}

impl View for Listener {
    type V = ListenerView;

    closed spec fn view(&self) -> ListenerView {
        ListenerView { address: self.address@, state: self.state, failed: self.failed }
    }
}

/// The listeners of all configured addresses, in the order configured.
#[derive(Debug)]
pub struct ListenerSet {
    listeners: Vec<Listener>,
}

impl View for ListenerSet {
    type V = Seq<ListenerView>;

    closed spec fn view(&self) -> Seq<ListenerView> {
        Seq::new(self.listeners@.len(), |i: int| self.listeners@[i]@)
    }
}

/// Whether every listener of a set has stopped.
pub open spec fn all_stopped(set: Seq<ListenerView>) -> bool {
    forall|i: int| 0 <= i < set.len() ==> (#[trigger] set[i]).state == ListenerState::Stopped
}

/// A set after the shutdown signal of every listener was received.
pub open spec fn after_interrupt(set: Seq<ListenerView>) -> Seq<ListenerView> {
    Seq::new(set.len(), |i: int| after_event(set[i], ListenerEvent::ShutdownSignal))
}

/// The indices of the listeners that `chosen` holds of, in order.
pub open spec fn indices_where(
    set: Seq<ListenerView>,
    chosen: spec_fn(ListenerView) -> bool,
) -> Seq<usize>
    decreases set.len(),
{
    if set.len() == 0 {
        Seq::empty()
    } else {
        let front = indices_where(set.drop_last(), chosen);
        if chosen(set.last()) {
            front.push((set.len() - 1) as usize)
        } else {
            front
        }
    }
}

/// Whether a listener begins to drain when its shutdown signal arrives.
pub open spec fn drains_on_signal(listener: ListenerView) -> bool {
    action_for(listener.state, ListenerEvent::ShutdownSignal) == ListenerAction::Drain
}

impl ListenerSet {
    /// One listener for each address, each `Starting` and none failed.
    pub fn new(addresses: Vec<String>) -> (set: ListenerSet)
        ensures
            set@.len() == addresses@.len(),
            forall|i: int|
                0 <= i < set@.len() ==> (#[trigger] set@[i]) == (ListenerView {
                    address: addresses@[i]@,
                    state: ListenerState::Starting,
                    failed: false,
                }),
    {
        let mut listeners: Vec<Listener> = Vec::new();
        let mut i: usize = 0;
        while i < addresses.len()
            invariant
                i <= addresses@.len(),
                listeners@.len() == i,
                forall|j: int|
                    0 <= j < i ==> (#[trigger] listeners@[j])@ == (ListenerView {
                        address: addresses@[j]@,
                        state: ListenerState::Starting,
                        failed: false,
                    }),
            decreases addresses@.len() - i,
        {
            listeners.push(
                Listener {
                    address: addresses[i].clone(),
                    state: ListenerState::Starting,
                    failed: false,
                },
            );
            i += 1;
        }
        ListenerSet { listeners }
    }

    /// The number of listeners.
    pub fn len(&self) -> (n: usize)
        ensures
            n == self@.len(),
    {
        self.listeners.len()
    }

    /// The address of a listener, or `None` where there is none at `index`.
    pub fn address(&self, index: usize) -> (address: Option<&String>)
        ensures
            index < self@.len() ==> address is Some && address->0@ == self@[index as int].address,
            index >= self@.len() ==> address is None,
    {
        if index < self.listeners.len() {
            Some(&self.listeners[index].address)
        } else {
            None
        }
    }

    /// The state of a listener, or `None` where there is none at `index`.
    pub fn state(&self, index: usize) -> (state: Option<ListenerState>)
        ensures
            state == (if index < self@.len() {
                Some(self@[index as int].state)
            } else {
                None
            }),
    {
        if index < self.listeners.len() {
            Some(self.listeners[index].state)
        } else {
            None
        }
    }

    /// Takes an event for one listener and says what to do about it.
    ///
    /// Only the listener at `index` changes, as `after_event` says; every
    /// other listener is as it was. Where there is no listener at `index`
    /// nothing changes and the answer is `Ignore`.
    pub fn handle(&mut self, index: usize, event: ListenerEvent) -> (action: ListenerAction)
        ensures
            index < old(self)@.len() ==> final(self)@ == old(self)@.update(
                index as int,
                after_event(old(self)@[index as int], event),
            ) && action == action_for(old(self)@[index as int].state, event),
            index >= old(self)@.len() ==> final(self)@ == old(self)@ && action
                == ListenerAction::Ignore,
    {
        if index >= self.listeners.len() {
            return ListenerAction::Ignore;
        }
        let ghost before = self@;
        let current = &self.listeners[index];
        let (state, action) = step(current.state, event);
        let failed = current.failed || action == ListenerAction::ReportFailure;
        let address = current.address.clone();
        self.listeners.set(index, Listener { address, state, failed });
        assert(self@ =~= before.update(index as int, after_event(before[index as int], event)));
        action
    }

    /// Takes the one upstream trigger: the shutdown signal of every
    /// listener is received at once. Returns the indices of the listeners
    /// that begin to drain, in order.
    pub fn interrupt(&mut self) -> (draining: Vec<usize>)
        ensures
            final(self)@ == after_interrupt(old(self)@),
            draining@ == indices_where(old(self)@, |l: ListenerView| drains_on_signal(l)),
    {
        let ghost before = self@;
        let ghost chosen = |l: ListenerView| drains_on_signal(l);
        let mut draining: Vec<usize> = Vec::new();
        let mut i: usize = 0;
        while i < self.listeners.len()
            invariant
                i <= self@.len(),
                self@.len() == before.len(),
                chosen == (|l: ListenerView| drains_on_signal(l)),
                forall|j: int|
                    0 <= j < i ==> (#[trigger] self@[j]) == after_event(
                        before[j],
                        ListenerEvent::ShutdownSignal,
                    ),
                forall|j: int| i <= j < before.len() ==> (#[trigger] self@[j]) == before[j],
                draining@ == indices_where(before.take(i as int), chosen),
            decreases before.len() - i,
        {
            proof {
                assert(before.take(i + 1).drop_last() =~= before.take(i as int));
            }
            let action = self.handle(i, ListenerEvent::ShutdownSignal);
            if action == ListenerAction::Drain {
                draining.push(i);
            }
            i += 1;
        }
        proof {
            assert(before.take(i as int) =~= before);
            assert(self@ =~= after_interrupt(before));
        }
        draining
    }

    /// Whether every listener has stopped: the wait for the set is over
    /// and the process may exit in good order, whatever failed.
    pub fn all_stopped(&self) -> (done: bool)
        ensures
            done == all_stopped(self@),
    {
        let mut i: usize = 0;
        while i < self.listeners.len()
            invariant
                i <= self@.len(),
                forall|j: int| 0 <= j < i ==> (#[trigger] self@[j]).state == ListenerState::Stopped,
            decreases self@.len() - i,
        {
            if self.listeners[i].state != ListenerState::Stopped {
                assert(self@[i as int].state != ListenerState::Stopped);
                return false;
            }
            i += 1;
        }
        true
    }

    /// The indices of the listeners whose task failed, in order.
    pub fn failures(&self) -> (failed: Vec<usize>)
        ensures
            failed@ == indices_where(self@, |l: ListenerView| l.failed),
    {
        let ghost chosen = |l: ListenerView| l.failed;
        let mut failed: Vec<usize> = Vec::new();
        let mut i: usize = 0;
        while i < self.listeners.len()
            invariant
                i <= self@.len(),
                chosen == (|l: ListenerView| l.failed),
                failed@ == indices_where(self@.take(i as int), chosen),
            decreases self@.len() - i,
        {
            proof {
                assert(self@.take(i + 1).drop_last() =~= self@.take(i as int));
            }
            if self.listeners[i].failed {
                failed.push(i);
            }
            i += 1;
        }
        proof {
            assert(self@.take(i as int) =~= self@);
        }
        failed
    }
}

/// An index is among `indices_where` exactly where the listener at it is
/// chosen.
pub proof fn lemma_indices_where(
    set: Seq<ListenerView>,
    chosen: spec_fn(ListenerView) -> bool,
    i: int,
)
    requires
        0 <= i < set.len(),
        set.len() <= usize::MAX,
    ensures
        indices_where(set, chosen).contains(i as usize) <==> chosen(set[i]),
        forall|k: int|
            0 <= k < indices_where(set, chosen).len() ==> (#[trigger] indices_where(set, chosen)[k])
                < set.len(),
    decreases set.len(),
{
    let front = indices_where(set.drop_last(), chosen);
    let last = (set.len() - 1) as usize;
    if set.len() > 1 {
        if i < set.len() - 1 {
            lemma_indices_where(set.drop_last(), chosen, i);
        } else {
            lemma_indices_where(set.drop_last(), chosen, 0);
        }
    }
    if chosen(set.last()) {
        assert(front.push(last)[front.len() as int] == last);
        if front.contains(i as usize) {
            let w: int = choose|w: int| 0 <= w < front.len() && front[w] == i as usize;
            assert(front.push(last)[w] == i as usize);
        }
    }
}

/// No event takes a listener back: its state stays or moves forward.
pub proof fn lemma_state_moves_forward(state: ListenerState, event: ListenerEvent)
    ensures
        rank(next_state(state, event)) >= rank(state),
        state == ListenerState::Stopped ==> next_state(state, event) == ListenerState::Stopped,
        next_state(state, event) == ListenerState::Serving ==> state == ListenerState::Starting
            || state == ListenerState::Serving,
{
}

/// A listener begins to drain on its shutdown signal and on nothing else.
pub proof fn lemma_drain_only_on_signal(state: ListenerState, event: ListenerEvent)
    requires
        state != ListenerState::Draining,
        next_state(state, event) == ListenerState::Draining,
    ensures
        event == ListenerEvent::ShutdownSignal,
{
}

/// Whatever happens to one listener, the failure of its task included,
/// every other listener is as it was: a listener that serves goes on
/// serving.
pub proof fn lemma_other_listeners_untouched(
    set: Seq<ListenerView>,
    index: int,
    event: ListenerEvent,
    other: int,
)
    requires
        0 <= index < set.len(),
        0 <= other < set.len(),
        other != index,
    ensures
        set.update(index, after_event(set[index], event))[other] == set[other],
{
}

/// One trigger reaches every listener: after it no listener is starting
/// or serving, and a failure recorded before stays recorded.
pub proof fn lemma_interrupt_reaches_all(set: Seq<ListenerView>, i: int)
    requires
        0 <= i < set.len(),
    ensures
        after_interrupt(set)[i].state == ListenerState::Draining || after_interrupt(set)[i].state
            == ListenerState::Stopped,
        after_interrupt(set)[i].failed == set[i].failed,
{
}

/// Once the task of every listener has ended, in good order or not, the
/// whole set has stopped.
pub proof fn lemma_stopped_when_all_tasks_ended(before: Seq<ListenerView>, after: Seq<ListenerView>)
    requires
        after.len() == before.len(),
        forall|i: int|
            0 <= i < before.len() ==> #[trigger] after[i] == after_event(
                before[i],
                ListenerEvent::Finished,
            ) || after[i] == after_event(before[i], ListenerEvent::Failed),
    ensures
        all_stopped(after),
{
}

} // verus!
