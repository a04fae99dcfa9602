//! The order of a role's operations as a state machine. The caller reads
//! lines and talks to the transport; after each such operation it reports
//! the event and is told the next state, the frames to send and the text
//! to print.

use vstd::prelude::*;
use crate::codec::{decode, encode, frames_view, spec_decode, spec_encode, FramingMode};

verus! {

/// The four roles that work on lines of text.
#[derive(Debug, Clone, Copy, PartialEq, Eq, Structural)]
pub enum Role {
    Publish,
    Subscribe,
    Request,
    Reply,
}

/// Where a role stands in its loop.
#[derive(Debug, Clone, Copy, PartialEq, Eq, Structural)]
pub enum State {
    /// The next operation reads a line of input.
    AwaitingInput,
    /// The next operation sends the frames of the line just read.
    Sending,
    /// The next operation receives a message.
    Receiving,
    /// The input is exhausted; nothing more is done.
    Done,
}

/// What the caller does in a state.
#[derive(Debug, Clone, Copy, PartialEq, Eq, Structural)]
pub enum Operation {
    ReadLine,
    Send,
    Receive,
    Stop,
}

/// The kind of outcome of an operation.
#[derive(Debug, Clone, Copy, PartialEq, Eq, Structural)]
pub enum EventKind {
    Line,
    EndOfInput,
    Sent,
    Received,
}

/// The outcome of an operation.
#[derive(Debug)]
pub enum Event {
    /// A line was read.
    Line(String),
    /// The input has no more lines.
    EndOfInput,
    /// The frames were sent.
    Sent,
    /// A message with these frames was received.
    Received(Vec<Vec<u8>>),
}

impl Event {
    /// The kind of this event.
    pub open spec fn spec_kind(&self) -> EventKind {
        match self {
            Event::Line(_) => EventKind::Line,
            Event::EndOfInput => EventKind::EndOfInput,
            Event::Sent => EventKind::Sent,
            Event::Received(_) => EventKind::Received,
        }
    }

    /// The kind of this event.
    #[verifier::when_used_as_spec(spec_kind)]
    pub fn kind(&self) -> (k: EventKind)
        ensures
            k == self.spec_kind(),
    {
        match self {
            Event::Line(_) => EventKind::Line,
            Event::EndOfInput => EventKind::EndOfInput,
            Event::Sent => EventKind::Sent,
            Event::Received(_) => EventKind::Received,
        }
    }
}

/// What follows an event: the next state, the frames to send in it, and
/// the text to print before going on.
#[derive(Debug)]
pub struct Step {
    pub next: State,
    pub send: Option<Vec<Vec<u8>>>,
    pub print: Option<String>,
}

/// The state in which a role starts: a replier and a subscriber receive
/// first, a publisher and a requester read input first.
pub open spec fn spec_initial(role: Role) -> State {
    match role {
        Role::Publish | Role::Request => State::AwaitingInput,
        Role::Subscribe | Role::Reply => State::Receiving,
    }
}

/// The operation that a state calls for.
pub open spec fn spec_operation(state: State) -> Operation {
    match state {
        State::AwaitingInput => Operation::ReadLine,
        State::Sending => Operation::Send,
        State::Receiving => Operation::Receive,
        State::Done => Operation::Stop,
    }
}

/// An event of this kind is an outcome of the operation.
pub open spec fn outcome_of(operation: Operation, kind: EventKind) -> bool {
    match operation {
        Operation::ReadLine => kind == EventKind::Line || kind == EventKind::EndOfInput,
        Operation::Send => kind == EventKind::Sent,
        Operation::Receive => kind == EventKind::Received,
        Operation::Stop => false,
    }
}

/// The states that a role passes through.
pub open spec fn reachable(role: Role, state: State) -> bool {
    match role {
        Role::Publish => state != State::Receiving,
        Role::Subscribe => state == State::Receiving,
        Role::Request | Role::Reply => true,
    }
}

/// The state after an event, or `None` where the event is no outcome of
/// the state's operation or the role never is in the state.
pub open spec fn spec_next(role: Role, state: State, kind: EventKind) -> Option<State> {
    if !reachable(role, state) || !outcome_of(spec_operation(state), kind) {
        None
    } else {
        match kind {
            EventKind::Line => Some(State::Sending),
            EventKind::EndOfInput => Some(State::Done),
            EventKind::Sent => if role == Role::Publish {
                Some(State::AwaitingInput)
            } else {
                Some(State::Receiving)
            },
            EventKind::Received => if role == Role::Subscribe {
                Some(State::Receiving)
            } else {
                Some(State::AwaitingInput)
            },
        }
    }
}

/// How far a state is from the next reading of input.
pub open spec fn rank(state: State) -> nat {
    match state {
        State::Sending => 3,
        State::Receiving => 2,
        State::AwaitingInput => 1,
        State::Done => 0,
    }
}

/// The outcome of the operation of `state` when every send and receive
/// succeeds and `lines` lines of input are left. A role that is done meets
/// nothing but the end of the input.
pub open spec fn spec_outcome(state: State, lines: nat) -> EventKind {
    match state {
        State::AwaitingInput => if lines > 0 {
            EventKind::Line
        } else {
            EventKind::EndOfInput
        },
        State::Sending => EventKind::Sent,
        State::Receiving => EventKind::Received,
        State::Done => EventKind::EndOfInput,
    }
}

/// The sends and receives that a role performs from `state` on, in order,
/// when `lines` lines of input are left and every send and receive
/// succeeds. A subscriber never ends and has no such list.
pub open spec fn spec_transport_ops(role: Role, state: State, lines: nat) -> Seq<Operation>
    decreases lines, rank(state),
{
    if role == Role::Subscribe || !reachable(role, state) || state == State::Done {
        Seq::empty()
    } else {
        let next = spec_next(role, state, spec_outcome(state, lines))->0;
        if state == State::AwaitingInput {
            if lines > 0 {
                spec_transport_ops(role, next, (lines - 1) as nat)
            } else {
                Seq::empty()
            }
        } else {
            seq![spec_operation(state)] + spec_transport_ops(role, next, lines)
        }
    }
}

/// A send followed by a receive, `n` times.
pub open spec fn exchanges(n: nat) -> Seq<Operation>
    decreases n,
{
    if n == 0 {
        Seq::empty()
    } else {
        seq![Operation::Send, Operation::Receive] + exchanges((n - 1) as nat)
    }
}

/// The state in which `role` starts.
pub fn initial_state(role: Role) -> (state: State)
    ensures
        state == spec_initial(role),
{
    match role {
        Role::Publish | Role::Request => State::AwaitingInput,
        Role::Subscribe | Role::Reply => State::Receiving,
    }
}

/// The operation to perform in `state`.
pub fn operation(state: State) -> (op: Operation)
    ensures
        op == spec_operation(state),
{
    match state {
        State::AwaitingInput => Operation::ReadLine,
        State::Sending => Operation::Send,
        State::Receiving => Operation::Receive,
        State::Done => Operation::Stop,
    }
}

/// The state that follows `state` on an event of kind `kind`.
pub fn next_state(role: Role, state: State, kind: EventKind) -> (next: Option<State>)
    ensures
        next == spec_next(role, state, kind),
{
    match (state, kind) {
        (State::AwaitingInput, EventKind::Line) => match role {
            Role::Subscribe => None,
            _ => Some(State::Sending),
        },
        (State::AwaitingInput, EventKind::EndOfInput) => match role {
            Role::Subscribe => None,
            _ => Some(State::Done),
        },
        (State::Sending, EventKind::Sent) => match role {
            Role::Subscribe => None,
            Role::Publish => Some(State::AwaitingInput),
            _ => Some(State::Receiving),
        },
        (State::Receiving, EventKind::Received) => match role {
            Role::Publish => None,
            Role::Subscribe => Some(State::Receiving),
            _ => Some(State::AwaitingInput),
        },
        _ => None,
    }
}

/// One turn of a role's loop: given the outcome of the operation of
/// `state`, the next state, with the frames of a line that was read and the
/// display of a message that was received.
pub fn step(role: Role, mode: &FramingMode, state: State, event: Event) -> (r: Option<Step>)
    requires
        mode.wf(),
    ensures
        r is Some <==> spec_next(role, state, event.kind()) is Some,
        r matches Some(s) ==> {
            &&& Some(s.next) == spec_next(role, state, event.kind())
            &&& match event {
                Event::Line(line) => s.print is None && (s.send matches Some(frames)
                    && frames_view(frames@) == spec_encode(line@, mode.separator())),
                Event::Received(frames) => s.send is None && (s.print matches Some(text) && text@
                    == spec_decode(frames_view(frames@), mode.separator())),
                _ => s.send is None && s.print is None,
            }
        },
{
    match next_state(role, state, event.kind()) {
        None => None,
        Some(next) => match event {
            Event::Line(line) => Some(
                Step { next, send: Some(encode(line.as_str(), mode)), print: None },
            ),
            Event::Received(frames) => Some(
                Step { next, send: None, print: Some(decode(&frames, mode)) },
            ),
            _ => Some(Step { next, send: None, print: None }),
        },
    }
}

/// A role starts in a state that it passes through.
pub proof fn lemma_initial_reachable(role: Role)
    ensures
        reachable(role, spec_initial(role)),
{
}

/// Every transition leads to a state that the role passes through.
pub proof fn lemma_next_reachable(role: Role, state: State, kind: EventKind)
    requires
        spec_next(role, state, kind) is Some,
    ensures
        reachable(role, spec_next(role, state, kind)->0),
{
}

/// In a state that the role passes through, every outcome of the state's
/// operation is accepted, and nothing else is.
pub proof fn lemma_accepts_outcomes(role: Role, state: State, kind: EventKind)
    requires
        reachable(role, state),
    ensures
        spec_next(role, state, kind) is Some <==> outcome_of(spec_operation(state), kind),
{
}

/// A requester and a replier take turns: a line read leads to a send, a
/// send to a receive, a receive to the next line.
pub proof fn lemma_lock_step(role: Role)
    requires
        role == Role::Request || role == Role::Reply,
    ensures
        spec_next(role, State::AwaitingInput, EventKind::Line) == Some(State::Sending),
        spec_next(role, State::Sending, EventKind::Sent) == Some(State::Receiving),
        spec_next(role, State::Receiving, EventKind::Received) == Some(State::AwaitingInput),
{
}

/// The end of the input, met while a line is awaited, ends the role.
pub proof fn lemma_end_of_input(role: Role)
    requires
        role != Role::Subscribe,
    ensures
        spec_next(role, State::AwaitingInput, EventKind::EndOfInput) == Some(State::Done),
{
}

/// A publisher never receives and a subscriber never sends or stops.
pub proof fn lemma_one_way_roles(state: State)
    ensures
        reachable(Role::Publish, state) ==> spec_operation(state) != Operation::Receive,
        reachable(Role::Subscribe, state) ==> spec_operation(state) == Operation::Receive,
{
}

/// A requester or replier that awaits input with `n` lines left sends and
/// receives in turn, once for each line.
pub proof fn lemma_exchanges(role: Role, n: nat)
    requires
        role == Role::Request || role == Role::Reply,
    ensures
        spec_transport_ops(role, State::AwaitingInput, n) == exchanges(n),
    decreases n,
{
    if n > 0 {
        let m = (n - 1) as nat;
        lemma_exchanges(role, m);
        assert(spec_transport_ops(role, State::Receiving, m) == seq![Operation::Receive]
            + spec_transport_ops(role, State::AwaitingInput, m));
        assert(spec_transport_ops(role, State::Sending, m) == seq![Operation::Send]
            + spec_transport_ops(role, State::Receiving, m));
        assert(spec_transport_ops(role, State::AwaitingInput, n) == spec_transport_ops(
            role,
            State::Sending,
            m,
        ));
        assert(seq![Operation::Send] + (seq![Operation::Receive] + exchanges(m)) =~= seq![
            Operation::Send,
            Operation::Receive,
        ] + exchanges(m));
    }
}

/// A requester fed `n` lines sends and receives in turn, `n` times,
/// starting with a send.
pub proof fn lemma_request_order(n: nat)
    ensures
        spec_transport_ops(Role::Request, spec_initial(Role::Request), n) == exchanges(n),
{
    lemma_exchanges(Role::Request, n);
}

/// A replier fed `n` lines receives once, then sends and receives in turn,
/// `n` times.
pub proof fn lemma_reply_order(n: nat)
    ensures
        spec_transport_ops(Role::Reply, spec_initial(Role::Reply), n) == seq![Operation::Receive]
            + exchanges(n),
{
    lemma_exchanges(Role::Reply, n);
}

/// A publisher fed `n` lines sends `n` times and never receives.
pub proof fn lemma_publish_order(n: nat)
    ensures
        spec_transport_ops(Role::Publish, spec_initial(Role::Publish), n) == Seq::new(
            n,
            |i: int| Operation::Send,
        ),
    decreases n,
{
    if n > 0 {
        let m = (n - 1) as nat;
        lemma_publish_order(m);
        assert(spec_transport_ops(Role::Publish, State::Sending, m) == seq![Operation::Send]
            + spec_transport_ops(Role::Publish, State::AwaitingInput, m));
        assert(spec_transport_ops(Role::Publish, State::AwaitingInput, n) == spec_transport_ops(
            Role::Publish,
            State::Sending,
            m,
        ));
        assert(seq![Operation::Send] + Seq::new(m, |i: int| Operation::Send) =~= Seq::new(
            n,
            |i: int| Operation::Send,
        ));
    }
}

/// A publisher whose input is empty sends nothing and is done after the
/// first attempt to read.
pub proof fn lemma_publish_empty_input()
    ensures
        spec_transport_ops(Role::Publish, spec_initial(Role::Publish), 0) == Seq::<
            Operation,
        >::empty(),
        spec_next(Role::Publish, spec_initial(Role::Publish), EventKind::EndOfInput) == Some(
            State::Done,
        ),
{
}

} // verus!
