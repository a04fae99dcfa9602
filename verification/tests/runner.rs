use zmq_lines::codec::FramingMode;
use zmq_lines::runner::{initial_state, next_state, operation, step, Event, EventKind, Operation, Role, State};

fn message(parts: &[&str]) -> Vec<Vec<u8>> {
    parts.iter().map(|p| p.as_bytes().to_vec()).collect()
}

/// Runs a role over the given input lines with a transport that answers
/// every receive with `incoming`, for at most `limit` operations.
fn run(role: Role, mode: &FramingMode, lines: &[&str], incoming: &[&str], limit: usize) -> (Vec<Operation>, Vec<Vec<Vec<u8>>>, Vec<String>, State) {
    let mut state = initial_state(role);
    let mut input = lines.iter();
    let mut ops = Vec::new();
    let mut sent = Vec::new();
    let mut printed = Vec::new();
    let mut pending: Option<Vec<Vec<u8>>> = None;
    while ops.len() < limit {
        let op = operation(state);
        ops.push(op);
        let event = match op {
            Operation::ReadLine => match input.next() {
                Some(line) => Event::Line(line.to_string()),
                None => Event::EndOfInput,
            },
            Operation::Send => {
                sent.push(pending.take().unwrap());
                Event::Sent
            }
            Operation::Receive => Event::Received(message(incoming)),
            Operation::Stop => break,
        };
        let next = step(role, mode, state, event).unwrap();
        if let Some(text) = next.print {
            printed.push(text);
        }
        pending = next.send;
        state = next.next;
    }
    (ops, sent, printed, state)
}

fn transport(ops: &[Operation]) -> Vec<Operation> {
    ops.iter().copied().filter(|op| *op == Operation::Send || *op == Operation::Receive).collect()
}

#[test]
fn reply_ordering() {
    let (ops, sent, printed, state) = run(Role::Reply, &FramingMode::single(), &["one", "two"], &["ask"], 100);
    assert_eq!(
        transport(&ops),
        vec![Operation::Receive, Operation::Send, Operation::Receive, Operation::Send, Operation::Receive]
    );
    assert_eq!(sent, vec![message(&["one"]), message(&["two"])]);
    assert_eq!(printed, vec!["ask", "ask", "ask"]);
    assert_eq!(state, State::Done);
}

#[test]
fn request_alternates_send_and_receive() {
    let mode = FramingMode::multi(",".to_string()).unwrap();
    let (ops, sent, printed, state) = run(Role::Request, &mode, &["a,b", "c"], &["x", "y"], 100);
    assert_eq!(
        ops,
        vec![
            Operation::ReadLine, Operation::Send, Operation::Receive,
            Operation::ReadLine, Operation::Send, Operation::Receive,
            Operation::ReadLine, Operation::Stop,
        ]
    );
    assert_eq!(sent, vec![message(&["a", "b"]), message(&["c"])]);
    assert_eq!(printed, vec!["x,y", "x,y"]);
    assert_eq!(state, State::Done);
}

#[test]
fn publish_termination() {
    let (ops, sent, printed, state) = run(Role::Publish, &FramingMode::single(), &[], &[], 100);
    assert_eq!(transport(&ops), Vec::<Operation>::new());
    assert_eq!(ops, vec![Operation::ReadLine, Operation::Stop]);
    assert!(sent.is_empty());
    assert!(printed.is_empty());
    assert_eq!(state, State::Done);
}

#[test]
fn publish_sends_each_line_and_never_receives() {
    let (ops, sent, printed, state) = run(Role::Publish, &FramingMode::single(), &["a", "b", "c"], &[], 100);
    assert_eq!(transport(&ops), vec![Operation::Send, Operation::Send, Operation::Send]);
    assert_eq!(sent, vec![message(&["a"]), message(&["b"]), message(&["c"])]);
    assert!(printed.is_empty());
    assert_eq!(state, State::Done);
}

#[test]
fn subscribe_receives_forever() {
    let (ops, sent, printed, state) = run(Role::Subscribe, &FramingMode::single(), &["ignored"], &["a", "b"], 5);
    assert_eq!(ops, vec![Operation::Receive; 5]);
    assert!(sent.is_empty());
    assert_eq!(printed, vec!["BEGIN MULTIPART MESSAGE\na\nb\nEND MULTIPART MESSAGE"; 5]);
    assert_eq!(state, State::Receiving);
}

#[test]
fn initial_states() {
    assert_eq!(initial_state(Role::Publish), State::AwaitingInput);
    assert_eq!(initial_state(Role::Request), State::AwaitingInput);
    assert_eq!(initial_state(Role::Reply), State::Receiving);
    assert_eq!(initial_state(Role::Subscribe), State::Receiving);
}

#[test]
fn transitions() {
    assert_eq!(next_state(Role::Request, State::AwaitingInput, EventKind::Line), Some(State::Sending));
    assert_eq!(next_state(Role::Request, State::Sending, EventKind::Sent), Some(State::Receiving));
    assert_eq!(next_state(Role::Request, State::Receiving, EventKind::Received), Some(State::AwaitingInput));
    assert_eq!(next_state(Role::Reply, State::AwaitingInput, EventKind::EndOfInput), Some(State::Done));
    assert_eq!(next_state(Role::Publish, State::Sending, EventKind::Sent), Some(State::AwaitingInput));
    assert_eq!(next_state(Role::Subscribe, State::Receiving, EventKind::Received), Some(State::Receiving));
}

#[test]
fn events_that_do_not_fit_are_refused() {
    assert_eq!(next_state(Role::Request, State::AwaitingInput, EventKind::Sent), None);
    assert_eq!(next_state(Role::Request, State::AwaitingInput, EventKind::Received), None);
    assert_eq!(next_state(Role::Request, State::Sending, EventKind::Line), None);
    assert_eq!(next_state(Role::Request, State::Receiving, EventKind::EndOfInput), None);
    assert_eq!(next_state(Role::Request, State::Done, EventKind::Line), None);
    assert_eq!(next_state(Role::Publish, State::Receiving, EventKind::Received), None);
    assert_eq!(next_state(Role::Subscribe, State::AwaitingInput, EventKind::Line), None);
    assert_eq!(next_state(Role::Subscribe, State::Sending, EventKind::Sent), None);
    assert!(step(Role::Reply, &FramingMode::single(), State::Receiving, Event::Sent).is_none());
    assert!(step(Role::Reply, &FramingMode::single(), State::Done, Event::EndOfInput).is_none());
}

#[test]
fn step_gives_frames_and_text() {
    let mode = FramingMode::multi("/".to_string()).unwrap();
    let s = step(Role::Request, &mode, State::AwaitingInput, Event::Line("a/b".to_string())).unwrap();
    assert_eq!(s.next, State::Sending);
    assert_eq!(s.send, Some(message(&["a", "b"])));
    assert_eq!(s.print, None);
    let s = step(Role::Request, &mode, State::Sending, Event::Sent).unwrap();
    assert_eq!(s.next, State::Receiving);
    assert_eq!(s.send, None);
    assert_eq!(s.print, None);
    let s = step(Role::Request, &mode, State::Receiving, Event::Received(message(&["x", "y"]))).unwrap();
    assert_eq!(s.next, State::AwaitingInput);
    assert_eq!(s.send, None);
    assert_eq!(s.print, Some("x/y".to_string()));
    assert_eq!(Event::Line(String::new()).kind(), EventKind::Line);
    assert_eq!(Event::Received(Vec::new()).kind(), EventKind::Received);
}
