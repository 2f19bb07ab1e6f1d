//! The state machine: states, events, the payload they carry, and the
//! two-phase transition protocol (decide with `consume`, commit with
//! `transit`).
//!
//! The transition relation is captured by the spec function [`step`]; every
//! executable operation is proved against it. Three designed rules move the
//! machine (`New` + `Start`, `Reg` + `Name`, `Reg` + `Stop`); every other
//! (state, event) pair is a self-loop that leaves the payload untouched.

use vstd::prelude::*;

verus! {

/// An external trigger offered to the machine: a parameterless stop signal,
/// a parameterless start signal, or a "set name" signal carrying a string.
#[derive(Debug)]
pub enum Event {
    Stop,
    Start,
    Name(String),
}

/// Mathematical view of an [`Event`], with the carried string seen as a
/// sequence of characters.
#[verifier::ext_equal]
pub ghost enum EventView {
    Stop,
    Start,
    Name(Seq<char>),
}

impl View for Event {
    type V = EventView;

    open spec fn view(&self) -> EventView {
        match self {
            Event::Stop => EventView::Stop,
            Event::Start => EventView::Start,
            Event::Name(s) => EventView::Name(s@),
        }
    }
}

/// The record carried through every state: a name and an activity flag.
#[derive(Debug)]
pub struct Data {
    pub name: String,
    pub active: bool,
}

/// Mathematical view of a [`Data`] record.
#[verifier::ext_equal]
pub ghost struct DataView {
    pub name: Seq<char>,
    pub active: bool,
}

impl View for Data {
    type V = DataView;

    open spec fn view(&self) -> DataView {
        DataView { name: self.name@, active: self.active }
    }
}

/// A named configuration of the machine. Each variant owns exactly one
/// [`Data`] payload; a state value is never mutated in place, only consumed
/// and replaced wholesale by a transition.
#[derive(Debug)]
pub enum State {
    New(Data),
    Idle(Data),
    Reg(Data),
    Surv(Data),
}

/// Mathematical view of a [`State`].
#[verifier::ext_equal]
pub ghost enum StateView {
    New(DataView),
    Idle(DataView),
    Reg(DataView),
    Surv(DataView),
}

impl View for State {
    type V = StateView;

    open spec fn view(&self) -> StateView {
        match self {
            State::New(d) => StateView::New(d@),
            State::Idle(d) => StateView::Idle(d@),
            State::Reg(d) => StateView::Reg(d@),
            State::Surv(d) => StateView::Surv(d@),
        }
    }
}

/// Selects the state variant a valid transition wraps its payload into.
#[derive(Debug, Clone, Copy, PartialEq, Eq, Structural)]
pub enum Wrapper {
    New,
    Idle,
    Reg,
    Surv,
}

/// Selects the payload handler a valid transition applies before wrapping.
#[derive(Debug, Clone, Copy, PartialEq, Eq, Structural)]
pub enum Handler {
    Start,
    Stop,
    Name,
}

/// The payload that results from applying one handler to `d` under the
/// triggering event `e`. `Start` and `Stop` ignore the event's content; the
/// `Name` handler defensively leaves the payload unchanged unless the event
/// actually carries a name.
pub open spec fn apply_handler(h: Handler, d: DataView, e: EventView) -> DataView {
    match h {
        Handler::Start => DataView { name: d.name, active: true },
        Handler::Stop => DataView { name: d.name, active: false },
        Handler::Name => match e {
            EventView::Name(n) => DataView { name: n, active: d.active },
            _ => d,
        },
    }
}

/// Like [`apply_handler`], for a transition that may omit its handler: with
/// none present the payload passes through unchanged.
pub open spec fn apply_opt_handler(f: Option<Handler>, d: DataView, e: EventView) -> DataView {
    match f {
        Some(h) => apply_handler(h, d, e),
        None => d,
    }
}

/// The state produced by wrapping payload `d` into the variant `w` selects.
pub open spec fn wrap_into(w: Wrapper, d: DataView) -> StateView {
    match w {
        Wrapper::New => StateView::New(d),
        Wrapper::Idle => StateView::Idle(d),
        Wrapper::Reg => StateView::Reg(d),
        Wrapper::Surv => StateView::Surv(d),
    }
}

/// The payload owned by a state, whatever its variant.
pub open spec fn payload_of(s: StateView) -> DataView {
    match s {
        StateView::New(d) => d,
        StateView::Idle(d) => d,
        StateView::Reg(d) => d,
        StateView::Surv(d) => d,
    }
}

/// Holds exactly on the three designed (state, event) rules; every other
/// pair is policy-defined to self-loop.
pub open spec fn designed(s: StateView, e: EventView) -> bool {
    ||| (s is New && e is Start)
    ||| (s is Reg && e is Name)
    ||| (s is Reg && e is Stop)
}

/// The complete transition relation of the machine: `New` starts into `Reg`
/// activating the payload, `Reg` renames in place, `Reg` stops into `Idle`
/// deactivating, and every unmatched pair is an identity no-op.
pub open spec fn step(s: StateView, e: EventView) -> StateView {
    match (s, e) {
        (StateView::New(d), EventView::Start) => StateView::Reg(
            DataView { name: d.name, active: true },
        ),
        (StateView::Reg(d), EventView::Name(n)) => StateView::Reg(
            DataView { name: n, active: d.active },
        ),
        (StateView::Reg(d), EventView::Stop) => StateView::Idle(
            DataView { name: d.name, active: false },
        ),
        (other, _) => other,
    }
}

impl Data {
    /// A fresh payload: empty name, inactive.
    pub fn new() -> (d: Self)
        ensures
            d@ == (DataView { name: Seq::<char>::empty(), active: false }),
    {
        Self { name: String::new(), active: false }
    }

    /// Wraps this payload into the destination state that `state` selects;
    /// the single point where a payload becomes part of a new state.
    pub fn wrap(self, state: Wrapper) -> (s: State)
        ensures
            s@ == wrap_into(state, self@),
    {
        match state {
            Wrapper::New => State::New(self),
            Wrapper::Idle => State::Idle(self),
            Wrapper::Reg => State::Reg(self),
            Wrapper::Surv => State::Surv(self),
        }
    }

    /// Marks the payload active; the event's content is ignored.
    pub fn start(&mut self, _e: Event)
        ensures
            final(self)@ == apply_handler(Handler::Start, old(self)@, _e@),
    {
        self.active = true;
    }

    /// Marks the payload inactive; the event's content is ignored.
    pub fn stop(&mut self, _e: Event)
        ensures
            final(self)@ == apply_handler(Handler::Stop, old(self)@, _e@),
    {
        self.active = false;
    }

    /// Takes the name the event carries; with any other event the payload is
    /// defensively left unchanged.
    pub fn name(&mut self, e: Event)
        ensures
            final(self)@ == apply_handler(Handler::Name, old(self)@, e@),
    {
        if let Event::Name(name) = e {
            self.name = name;
        }
    }
}

/// A pending state change: the short-lived descriptor that `consume`
/// produces and `transit` commits. Either a *valid* form, which owns the
/// payload together with the destination selector and an optional mutation
/// handler, or a *shallow* form, which only carries the already-decided
/// destination state. Exactly one form holds by construction.
pub enum Transition {
    Valid { wrap: Wrapper, data: Data, event: Event, func: Option<Handler> },
    Shallow { next: State, event: Event },
}

impl Transition {
    /// The state that committing this transition produces.
    pub open spec fn commit_view(self) -> StateView {
        match self {
            Transition::Valid { wrap, data, event, func } => wrap_into(
                wrap,
                apply_opt_handler(func, data@, event@),
            ),
            Transition::Shallow { next, .. } => next@,
        }
    }

    /// The event that triggered this transition.
    pub open spec fn event_view(self) -> EventView {
        match self {
            Transition::Valid { event, .. } => event@,
            Transition::Shallow { event, .. } => event@,
        }
    }

    /// A transition that applies `func` to `data` under `event` and wraps
    /// the result into the variant `wrap` selects.
    pub fn make_valid(wrap: Wrapper, data: Data, event: Event, func: Handler) -> (t: Self)
        ensures
            t == (Transition::Valid { wrap, data, event, func: Some(func) }),
    {
        Self::Valid { wrap, data, event, func: Some(func) }
    }

    /// A transition that performs no mutation and commits into the
    /// already-decided state `next`.
    pub fn make_shallow(next: State, event: Event) -> (t: Self)
        ensures
            t == (Transition::Shallow { next, event }),
    {
        Self::Shallow { next, event }
    }

    /// Commits the pending transition: applies the handler, if one is
    /// present, to the owned payload and wraps it into the destination
    /// state; a shallow transition returns its pre-decided state untouched.
    /// Consumes the descriptor, so a transition commits at most once.
    pub fn transit(self) -> (s: State)
        ensures
            s@ == self.commit_view(),
    {
        match self {
            Transition::Valid { wrap, data, event, func } => {
                let mut data = data;
                match func {
                    Some(Handler::Start) => data.start(event),
                    Some(Handler::Stop) => data.stop(event),
                    Some(Handler::Name) => data.name(event),
                    None => {},
                }
                data.wrap(wrap)
            },
            Transition::Shallow { next, .. } => next,
        }
    }
}

impl State {
    /// Decides, from the current state variant and the event, the pending
    /// transition: one of the three designed rules yields a valid
    /// transition, every other pair a shallow one that keeps this state.
    /// The decision is total and mutates nothing until the transition is
    /// committed.
    pub fn consume(self, e: Event) -> (t: Transition)
        ensures
            t.commit_view() == step(self@, e@),
            t.event_view() == e@,
            t is Valid <==> designed(self@, e@),
            t matches Transition::Shallow { next, .. } ==> next@ == self@,
            t matches Transition::Valid { data, .. } ==> data@ == payload_of(self@),
    {
        match (self, e) {
            (State::New(data), Event::Start) => Transition::make_valid(
                Wrapper::Reg,
                data,
                Event::Start,
                Handler::Start,
            ),
            (State::Reg(data), Event::Name(n)) => Transition::make_valid(
                Wrapper::Reg,
                data,
                Event::Name(n),
                Handler::Name,
            ),
            (State::Reg(data), Event::Stop) => Transition::make_valid(
                Wrapper::Idle,
                data,
                Event::Stop,
                Handler::Stop,
            ),
            (s, e) => Transition::make_shallow(s, e),
        }
    }

    /// Exposes the owned payload for inspection without giving it up.
    pub fn data(&self) -> (d: &Data)
        ensures
            d@ == payload_of(self@),
    {
        match self {
            State::New(data) => data,
            State::Idle(data) => data,
            State::Reg(data) => data,
            State::Surv(data) => data,
        }
    }
}

/// Identity on unmatched pairs: any (state, event) pair outside the three
/// designed rules steps to the very same state, variant tag and payload
/// contents included.
pub proof fn lemma_identity_on_unmatched(s: StateView, e: EventView)
    requires
        !designed(s, e),
    ensures
        step(s, e) == s,
{
}

} // verus!
