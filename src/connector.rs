use vstd::prelude::*;

use crate::selection::{index_of_line, parse_index};
use crate::slot::SharedSlot;
use crate::text::{listing_line, listing_text};

verus! {

/// Why start-up could not connect to an input device.
#[derive(Clone, Copy, Debug, PartialEq, Eq, Structural)]
pub enum SetupError {
    /// The MIDI input subsystem could not be opened.
    SubsystemUnavailable,
    /// No input port was found.
    NoDevicesFound,
    /// The line typed at the prompt is not the index of a listed port.
    InvalidSelection,
    /// A port's name could not be read.
    NameUnavailable,
    /// The connection to the chosen port could not be opened.
    ConnectFailed,
}

/// Where a start-up run stands.
#[derive(Clone, Copy, Debug, PartialEq, Eq, Structural)]
pub enum Phase {
    /// Nothing done yet; the input subsystem is to be opened.
    Uninitialized,
    /// The subsystem is open; the ports are to be listed.
    Enumerating,
    /// `count` ports were listed to the user; one line of input is awaited.
    AwaitingChoice { count: usize },
    /// The port at `index` was chosen; its connection is being opened.
    Connecting { index: usize },
    /// The connection to the port at `index` is held in the slot.
    Registered { index: usize },
    /// Start-up failed for good.
    Failed { error: SetupError },
}

/// What the surrounding application reports back after doing an action.
pub enum Event<C> {
    /// The input subsystem was opened, with no message category filtered out.
    InputOpened,
    /// The input subsystem could not be opened.
    InputFailed,
    /// The ports, in the order of enumeration, each with its name if it
    /// could be read.
    PortsListed { names: Vec<Option<String>> },
    /// One line read from the console.
    LineRead { line: String },
    /// The connection to the chosen port is open.
    Connected { connection: C },
    /// The connection to the chosen port could not be opened.
    ConnectFailed,
}

/// What the surrounding application is to do next.
#[derive(Debug)]
pub enum Action {
    /// List the input ports and their names.
    ListPorts,
    /// Print these lines, prompt, and read exactly one line of input.
    Prompt { lines: Vec<String> },
    /// Open the connection to the port at `index`.
    Connect { index: usize },
    /// The connection is registered; start-up may go on.
    Finish,
    /// Start-up failed; stop it.
    Abort { error: SetupError },
    /// The event did not fit the phase; nothing changed.
    Ignore,
}

/// Whether every port's name could be read.
pub open spec fn all_named(names: Seq<Option<String>>) -> bool {
    forall|i: int| 0 <= i < names.len() ==> (#[trigger] names[i]) is Some
}

/// The phase that a listing of ports leads to.
pub open spec fn phase_after_listing(names: Seq<Option<String>>) -> Phase {
    if names.len() == 0 {
        Phase::Failed { error: SetupError::NoDevicesFound }
    } else if !all_named(names) {
        Phase::Failed { error: SetupError::NameUnavailable }
    } else if names.len() == 1 {
        Phase::Connecting { index: 0 }
    } else {
        Phase::AwaitingChoice { count: names.len() as usize }
    }
}

/// The phase that a line typed at the prompt leads to, with `count` ports
/// listed.
pub open spec fn phase_after_line(count: usize, line: Seq<char>) -> Phase {
    match index_of_line(line) {
        Some(i) => if i < count {
            Phase::Connecting { index: i as usize }
        } else {
            Phase::Failed { error: SetupError::InvalidSelection }
        },
        None => Phase::Failed { error: SetupError::InvalidSelection },
    }
}

/// Whether `e` is the event that phase `p` waits for.
pub open spec fn accepts<C>(p: Phase, e: Event<C>) -> bool {
    match p {
        Phase::Uninitialized => e is InputOpened || e is InputFailed,
        Phase::Enumerating => e is PortsListed,
        Phase::AwaitingChoice { .. } => e is LineRead,
        Phase::Connecting { .. } => e is Connected || e is ConnectFailed,
        _ => false,
    }
}

/// The phase after event `e` in phase `p`.
pub open spec fn next_phase<C>(p: Phase, e: Event<C>) -> Phase {
    if !accepts(p, e) {
        p
    } else {
        match e {
            Event::InputOpened => Phase::Enumerating,
            Event::InputFailed => Phase::Failed { error: SetupError::SubsystemUnavailable },
            Event::PortsListed { names } => phase_after_listing(names@),
            Event::LineRead { line } => match p {
                Phase::AwaitingChoice { count } => phase_after_line(count, line@),
                _ => p,
            },
            Event::Connected { .. } => match p {
                Phase::Connecting { index } => Phase::Registered { index },
                _ => p,
            },
            Event::ConnectFailed => Phase::Failed { error: SetupError::ConnectFailed },
        }
    }
}

/// What the slot holds after event `e` in phase `p`: the connection, once it
/// is open, and nothing new otherwise.
pub open spec fn next_held<C>(p: Phase, held: Option<C>, e: Event<C>) -> Option<C> {
    if accepts(p, e) && e is Connected {
        Some(e->connection)
    } else {
        held
    }
}

/// Whether `lines` lists the ports `names`, one line each, in order.
pub open spec fn lists(names: Seq<Option<String>>, lines: Seq<String>) -> bool {
    &&& lines.len() == names.len()
    &&& forall|i: int|
        0 <= i < lines.len() ==> (#[trigger] lines[i])@ == listing_text(i as nat, names[i]->0@)
}

/// Whether `a` is the action that goes with event `e` in phase `p`.
pub open spec fn action_for<C>(p: Phase, e: Event<C>, a: Action) -> bool {
    if !accepts(p, e) {
        a is Ignore
    } else {
        match next_phase(p, e) {
            Phase::Uninitialized => false,
            Phase::Enumerating => a is ListPorts,
            Phase::AwaitingChoice { .. } => a is Prompt && lists(e->names@, a->lines@),
            Phase::Connecting { index } => a == (Action::Connect { index }),
            Phase::Registered { .. } => a is Finish,
            Phase::Failed { error } => a == (Action::Abort { error }),
        }
    }
}

/// With no port listed, start-up fails with `NoDevicesFound`, the slot is
/// left empty, and the only action is to abort.
pub proof fn zero_ports_fail<C>(names: Vec<Option<String>>, a: Action)
    requires
        names@.len() == 0,
        action_for(Phase::Enumerating, Event::<C>::PortsListed { names }, a),
    ensures
        next_phase(Phase::Enumerating, Event::<C>::PortsListed { names }) == (Phase::Failed {
            error: SetupError::NoDevicesFound,
        }),
        next_held(Phase::Enumerating, None, Event::<C>::PortsListed { names }) is None,
        a == (Action::Abort { error: SetupError::NoDevicesFound }),
{
}

/// With exactly one named port, that port is chosen and its connection opened
/// at once: no prompt is shown and no input is read.
pub proof fn single_port_chosen<C>(names: Vec<Option<String>>, a: Action)
    requires
        names@.len() == 1,
        all_named(names@),
        action_for(Phase::Enumerating, Event::<C>::PortsListed { names }, a),
    ensures
        next_phase(Phase::Enumerating, Event::<C>::PortsListed { names }) == (Phase::Connecting {
            index: 0,
        }),
        a == (Action::Connect { index: 0 }),
        !(a is Prompt),
{
}

/// With two or more named ports, the prompt lists each of them on a line of
/// its own, index and name, in order; then exactly one line of input is taken,
/// and no other line is read after it.
pub proof fn many_ports_prompted<C>(
    names: Vec<Option<String>>,
    a: Action,
    line: String,
    later: Event<C>,
)
    requires
        names@.len() >= 2,
        all_named(names@),
        action_for(Phase::Enumerating, Event::<C>::PortsListed { names }, a),
        later is LineRead,
    ensures
        next_phase(Phase::Enumerating, Event::<C>::PortsListed { names }) == (
        Phase::AwaitingChoice { count: names@.len() as usize }),
        a is Prompt,
        a->lines@.len() == names@.len(),
        forall|i: int|
            0 <= i < names@.len() ==> (#[trigger] a->lines@[i])@ == listing_text(
                i as nat,
                names@[i]->0@,
            ),
        ({
            let after = next_phase(
                Phase::AwaitingChoice { count: names@.len() as usize },
                Event::<C>::LineRead { line },
            );
            !(after is AwaitingChoice) && !accepts(after, later)
        }),
{
}

/// A line that names a listed port leads to its connection; once that is
/// open the slot holds exactly that connection, and no later event replaces
/// or removes it.
pub proof fn valid_choice_registers_once<C>(
    count: usize,
    line: String,
    c: C,
    later: Event<C>,
    p: Phase,
)
    requires
        index_of_line(line@) matches Some(i) && i < count,
        p is Registered,
    ensures
        next_phase(Phase::AwaitingChoice { count }, Event::<C>::LineRead { line }) == (
        Phase::Connecting { index: index_of_line(line@)->0 as usize }),
        next_phase(
            Phase::Connecting { index: index_of_line(line@)->0 as usize },
            Event::Connected { connection: c },
        ) == (Phase::Registered { index: index_of_line(line@)->0 as usize }),
        next_held(
            Phase::Connecting { index: index_of_line(line@)->0 as usize },
            None,
            Event::Connected { connection: c },
        ) == Some(c),
        next_phase(p, later) == p,
        next_held(p, Some(c), later) == Some(c),
{
}

/// A line that is not a number, or names no listed port, fails start-up with
/// `InvalidSelection`; nothing is put in the slot, then or afterwards.
pub proof fn invalid_choice_fails<C>(count: usize, line: String, a: Action, later: Event<C>)
    requires
        !(index_of_line(line@) matches Some(i) && i < count),
        action_for(Phase::AwaitingChoice { count }, Event::<C>::LineRead { line }, a),
    ensures
        next_phase(Phase::AwaitingChoice { count }, Event::<C>::LineRead { line }) == (
        Phase::Failed { error: SetupError::InvalidSelection }),
        next_held(Phase::AwaitingChoice { count }, None, Event::<C>::LineRead { line }) is None,
        a == (Action::Abort { error: SetupError::InvalidSelection }),
        next_phase(Phase::Failed { error: SetupError::InvalidSelection }, later) == (
        Phase::Failed { error: SetupError::InvalidSelection }),
        next_held(Phase::Failed { error: SetupError::InvalidSelection }, None, later) is None,
{
}

/// One start-up run: its phase, and the slot that receives the connection.
pub struct Setup<C> {
    phase: Phase,
    slot: SharedSlot<C>,
}

impl<C> Setup<C> {
    /// The phase of the run.
    pub closed spec fn current(&self) -> Phase {
        self.phase
    }

    /// What the run's slot holds.
    pub closed spec fn held(&self) -> Option<C> {
        self.slot@
    }

    /// The slot is filled exactly when the run has registered a connection.
    pub open spec fn wf(&self) -> bool {
        self.held() is Some <==> self.current() is Registered
    }

    /// A run that has done nothing yet: the input subsystem is to be opened.
    pub fn new() -> (r: Self)
        ensures
            r.current() == Phase::Uninitialized,
            r.held() is None,
            r.wf(),
    {
        Setup { phase: Phase::Uninitialized, slot: SharedSlot::new() }
    }

    /// The phase of the run.
    pub fn phase(&self) -> (r: Phase)
        ensures
            r == self.current(),
    {
        self.phase
    }

    /// The slot of the run.
    pub fn slot(&self) -> (r: &SharedSlot<C>)
        ensures
            r@ == self.held(),
    {
        &self.slot
    }

    /// Gives up the run and keeps its slot, for the application to share.
    pub fn into_slot(self) -> (r: SharedSlot<C>)
        ensures
            r@ == self.held(),
    {
        self.slot
    }

    /// Takes in what the application reports and says what it is to do next.
    pub fn step(&mut self, event: Event<C>) -> (r: Action)
        requires
            old(self).wf(),
        ensures
            final(self).wf(),
            final(self).current() == next_phase(old(self).current(), event),
            final(self).held() == next_held(old(self).current(), old(self).held(), event),
            action_for(old(self).current(), event, r),
    {
        match self.phase {
            Phase::Uninitialized => match event {
                Event::InputOpened => {
                    self.phase = Phase::Enumerating;
                    Action::ListPorts
                },
                Event::InputFailed => self.fail(SetupError::SubsystemUnavailable),
                _ => Action::Ignore,
            },
            Phase::Enumerating => match event {
                Event::PortsListed { names } => self.take_listing(&names),
                _ => Action::Ignore,
            },
            Phase::AwaitingChoice { count } => match event {
                Event::LineRead { line } => match parse_index(line.as_str()) {
                    Some(i) => if i < count {
                        self.phase = Phase::Connecting { index: i };
                        Action::Connect { index: i }
                    } else {
                        self.fail(SetupError::InvalidSelection)
                    },
                    None => self.fail(SetupError::InvalidSelection),
                },
                _ => Action::Ignore,
            },
            Phase::Connecting { index } => match event {
                Event::Connected { connection } => {
                    let filled = self.slot.fill(connection);
                    assert(filled is Ok);
                    self.phase = Phase::Registered { index };
                    Action::Finish
                },
                Event::ConnectFailed => self.fail(SetupError::ConnectFailed),
                _ => Action::Ignore,
            },
            _ => Action::Ignore,
        }
    }

    fn fail(&mut self, error: SetupError) -> (r: Action)
        requires
            old(self).held() is None,
        ensures
            final(self).current() == (Phase::Failed { error }),
            final(self).held() == old(self).held(),
            r == (Action::Abort { error }),
    {
        self.phase = Phase::Failed { error };
        Action::Abort { error }
    }

    fn take_listing(&mut self, names: &Vec<Option<String>>) -> (r: Action)
        requires
            old(self).held() is None,
        ensures
            final(self).current() == phase_after_listing(names@),
            final(self).held() == old(self).held(),
            phase_after_listing(names@) is AwaitingChoice ==> r is Prompt && lists(
                names@,
                r->lines@,
            ),
            phase_after_listing(names@) matches Phase::Connecting { index } ==> r == (
            Action::Connect { index }),
            phase_after_listing(names@) matches Phase::Failed { error } ==> r == (Action::Abort {
                error,
            }),
    {
        let n = names.len();
        if n == 0 {
            return self.fail(SetupError::NoDevicesFound);
        }
        let mut i: usize = 0;
        while i < n
            invariant
                n == names@.len(),
                i <= n,
                self.held() == old(self).held(),
                old(self).held() is None,
                forall|j: int| 0 <= j < i ==> (#[trigger] names@[j]) is Some,
            decreases n - i,
        {
            if names[i].is_none() {
                return self.fail(SetupError::NameUnavailable);
            }
            i = i + 1;
        }
        if n == 1 {
            self.phase = Phase::Connecting { index: 0 };
            return Action::Connect { index: 0 };
        }
        let mut lines: Vec<String> = Vec::new();
        let mut k: usize = 0;
        while k < n
            invariant
                n == names@.len(),
                k <= n,
                self.held() == old(self).held(),
                all_named(names@),
                lines@.len() == k,
                forall|j: int|
                    0 <= j < k ==> (#[trigger] lines@[j])@ == listing_text(
                        j as nat,
                        names@[j]->0@,
                    ),
            decreases n - k,
        {
            let line = match &names[k] {
                Some(name) => listing_line(k, name.as_str()),
                None => String::new(),
            };
            lines.push(line);
            k = k + 1;
        }
        self.phase = Phase::AwaitingChoice { count: n };
        Action::Prompt { lines }
    }
}

} // verus!
