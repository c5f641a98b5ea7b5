//! The sequence monitor: what the order of packet identifiers tells about
//! the stream.
//!
//! Datagrams may be lost, repeated or overtaken. The monitor remembers the
//! newest identifier and a bounded window of recently seen ones, and names
//! what each arrival means. It never refuses an identifier.

use vstd::prelude::*;

verus! {

/// How far an identifier has to fall behind the newest one to count as a
/// restart of the sender, where nothing else is configured.
pub const DEFAULT_RESET_THRESHOLD: u64 = 5;

/// How many recent identifiers are remembered, where nothing else is
/// configured.
pub const DEFAULT_WINDOW: usize = 64;

/// What an arriving identifier means.
#[derive(Clone, Copy, Debug, PartialEq, Eq, Structural)]
pub enum SequenceEvent {
    /// The first identifier, or the one that follows the newest.
    InOrder,
    /// The identifier is ahead of the newest by this many, more than one.
    Gap(u64),
    /// The identifier is the newest one or is still in the window.
    Duplicate,
    /// The identifier is behind the newest by less than the threshold.
    Reordered,
    /// The identifier is behind the newest by the threshold or more.
    Reset,
}

/// What a monitor knows.
pub ghost struct MonitorState {
    /// The newest identifier, if any was observed.
    pub last: Option<u64>,
    /// The remembered identifiers, oldest first.
    pub recent: Seq<u64>,
    /// How many identifiers are remembered at most.
    pub window: nat,
    /// The distance behind the newest from which an arrival is a restart.
    pub reset_threshold: u64,
}

impl MonitorState {
    /// The state before anything was observed.
    pub open spec fn initial(window: nat, reset_threshold: u64) -> MonitorState {
        MonitorState { last: None, recent: Seq::empty(), window, reset_threshold }
    }

    /// The window respects its bound, and is empty while nothing was observed.
    pub open spec fn wf(self) -> bool {
        &&& self.recent.len() <= self.window
        &&& self.last is None ==> self.recent.len() == 0
    }

    /// What the arrival of `id` means in this state.
    pub open spec fn classify(self, id: u64) -> SequenceEvent {
        match self.last {
            None => SequenceEvent::InOrder,
            Some(last) => if id == last || self.recent.contains(id) {
                SequenceEvent::Duplicate
            } else if id > last {
                if id - last == 1 {
                    SequenceEvent::InOrder
                } else {
                    SequenceEvent::Gap((id - last) as u64)
                }
            } else if last - id >= self.reset_threshold {
                SequenceEvent::Reset
            } else {
                SequenceEvent::Reordered
            },
        }
    }

    /// The window after `id` was put into `recent`: the oldest entry leaves
    /// a full window, and a window of size zero stays empty.
    pub open spec fn remember(recent: Seq<u64>, id: u64, window: nat) -> Seq<u64> {
        if window == 0 {
            Seq::empty()
        } else if recent.len() >= window {
            recent.remove(0).push(id)
        } else {
            recent.push(id)
        }
    }

    /// The state after the arrival of `id`. A duplicate changes nothing; an
    /// overtaken identifier is remembered but does not become the newest; a
    /// restart forgets the window.
    pub open spec fn step(self, id: u64) -> MonitorState {
        match self.classify(id) {
            SequenceEvent::Duplicate => self,
            SequenceEvent::Reordered => MonitorState {
                recent: Self::remember(self.recent, id, self.window),
                ..self
            },
            SequenceEvent::Reset => MonitorState {
                last: Some(id),
                recent: Self::remember(Seq::empty(), id, self.window),
                ..self
            },
            _ => MonitorState {
                last: Some(id),
                recent: Self::remember(self.recent, id, self.window),
                ..self
            },
        }
    }
}

/// The tracking state of one stream.
pub struct SequenceMonitor {
    last: Option<u64>,
    recent: Vec<u64>,
    window: usize,
    reset_threshold: u64,
}

impl View for SequenceMonitor {
    type V = MonitorState;

    closed spec fn view(&self) -> MonitorState {
        MonitorState {
            last: self.last,
            recent: self.recent@,
            window: self.window as nat,
            reset_threshold: self.reset_threshold,
        }
    }
}

impl SequenceMonitor {
    /// A monitor with the default window and threshold.
    pub fn new() -> (m: SequenceMonitor)
        ensures
            m@ == MonitorState::initial(DEFAULT_WINDOW as nat, DEFAULT_RESET_THRESHOLD),
            m@.wf(),
    {
        SequenceMonitor {
            last: None,
            recent: Vec::new(),
            window: DEFAULT_WINDOW,
            reset_threshold: DEFAULT_RESET_THRESHOLD,
        }
    }

    /// A monitor that remembers `window` identifiers and takes a fall of
    /// `reset_threshold` or more behind the newest for a restart.
    pub fn with_config(window: usize, reset_threshold: u64) -> (m: SequenceMonitor)
        ensures
            m@ == MonitorState::initial(window as nat, reset_threshold),
            m@.wf(),
    {
        SequenceMonitor { last: None, recent: Vec::new(), window, reset_threshold }
    }

    /// The newest identifier, if any was observed.
    pub fn last_seen(&self) -> (r: Option<u64>)
        ensures
            r == self@.last,
    {
        self.last
    }

    fn seen(&self, id: u64) -> (r: bool)
        ensures
            r == self@.recent.contains(id),
    {
        let mut i: usize = 0;
        while i < self.recent.len()
            invariant
                i <= self.recent.len(),
                forall|j: int| 0 <= j < i ==> self.recent@[j] != id,
            decreases self.recent.len() - i,
        {
            if self.recent[i] == id {
                return true;
            }
            i = i + 1;
        }
        false
    }

    fn remember(&mut self, id: u64)
        requires
            old(self)@.wf(),
        ensures
            final(self)@ == (MonitorState {
                recent: MonitorState::remember(old(self)@.recent, id, old(self)@.window),
                ..old(self)@
            }),
            final(self).recent@.len() <= final(self).window,
    {
        if self.window == 0 {
            assert(self.recent@ =~= Seq::empty());
            return ;
        }
        if self.recent.len() >= self.window {
            self.recent.remove(0);
        }
        self.recent.push(id);
    }

    /// Classifies the arrival of `id` and takes note of it.
    pub fn observe(&mut self, id: u64) -> (event: SequenceEvent)
        requires
            old(self)@.wf(),
        ensures
            event == old(self)@.classify(id),
            final(self)@ == old(self)@.step(id),
            final(self)@.wf(),
    {
        match self.last {
            None => {
                self.last = Some(id);
                self.remember(id);
                SequenceEvent::InOrder
            },
            Some(last) => {
                if id == last || self.seen(id) {
                    SequenceEvent::Duplicate
                } else if id > last {
                    self.last = Some(id);
                    self.remember(id);
                    if id - last == 1 {
                        SequenceEvent::InOrder
                    } else {
                        SequenceEvent::Gap(id - last)
                    }
                } else if last - id >= self.reset_threshold {
                    self.last = Some(id);
                    self.recent.clear();
                    self.remember(id);
                    SequenceEvent::Reset
                } else {
                    self.remember(id);
                    SequenceEvent::Reordered
                }
            },
        }
    }
}

/// Taking note of an arrival keeps a state well formed.
pub proof fn law_step_keeps_wf(state: MonitorState, id: u64)
    requires
        state.wf(),
    ensures
        state.step(id).wf(),
{
}

/// An identifier that arrives twice in a row is a duplicate the second
/// time, as long as the window remembers at least one identifier.
pub proof fn law_repeat_is_duplicate(state: MonitorState, id: u64)
    requires
        state.wf(),
        state.window > 0,
    ensures
        state.step(id).classify(id) == SequenceEvent::Duplicate,
{
    let next = state.step(id);
    if state.classify(id) == SequenceEvent::Reordered {
        let r = MonitorState::remember(state.recent, id, state.window);
        assert(r[r.len() - 1] == id);
        assert(r.contains(id));
    }
}

/// A duplicate leaves the state as it was.
pub proof fn law_duplicate_changes_nothing(state: MonitorState, id: u64)
    requires
        state.classify(id) == SequenceEvent::Duplicate,
    ensures
        state.step(id) == state,
{
}

/// The newest identifier never moves back but at a restart.
pub proof fn law_newest_moves_forward(state: MonitorState, id: u64)
    requires
        state.last is Some,
        state.classify(id) != SequenceEvent::Reset,
    ensures
        state.step(id).last is Some,
        state.step(id).last->0 >= state.last->0,
{
}

} // verus!
