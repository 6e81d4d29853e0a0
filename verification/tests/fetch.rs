use client::error::Error;
use client::fetch::{start, step, Action, Event, Fetch};
use client::networking::ResolvedAddress;
use client::request::{get, LocalUrl};

fn address(ip: &str, port: u16) -> ResolvedAddress {
    ResolvedAddress { ip: ip.to_string(), port }
}

fn three() -> Vec<ResolvedAddress> {
    vec![address("10.0.0.1", 70), address("10.0.0.2", 70), address("10.0.0.3", 70)]
}

fn run(address: &str, events: Vec<Event>) -> (Fetch, Vec<Action>) {
    let (mut state, action) = get(address.to_string());
    let mut actions = vec![action];
    for event in events {
        let (next, action) = step(state, event);
        state = next;
        actions.push(action);
    }
    (state, actions)
}

#[test]
fn first_candidate_that_connects_is_served() {
    let (state, actions) = run(
        "example.org/1/dir",
        vec![
            Event::Resolved(Some(three())),
            Event::Connected(true),
            Event::Written(Some(8)),
            Event::Read(Some(b"hello".to_vec())),
        ],
    );
    assert_eq!(state, Fetch::Finished);
    assert_eq!(
        actions,
        vec![
            Action::Resolve("example.org:70".to_string()),
            Action::Connect(0),
            Action::Send(b"/1/dir\r\n".to_vec()),
            Action::Receive,
            Action::Finish(Ok(b"hello".to_vec())),
        ]
    );
}

#[test]
fn refused_candidates_hand_over_to_the_next() {
    let (state, actions) = run(
        "example.org",
        vec![
            Event::Resolved(Some(three())),
            Event::Connected(false),
            Event::Connected(false),
            Event::Connected(true),
            Event::Written(Some(2)),
            Event::Read(Some(vec![1, 2, 3])),
        ],
    );
    assert_eq!(state, Fetch::Finished);
    assert_eq!(
        actions,
        vec![
            Action::Resolve("example.org:70".to_string()),
            Action::Connect(0),
            Action::Connect(1),
            Action::Connect(2),
            Action::Send(b"\r\n".to_vec()),
            Action::Receive,
            Action::Finish(Ok(vec![1, 2, 3])),
        ]
    );
}

#[test]
fn last_refusal_is_the_error_of_the_fetch() {
    let (state, actions) = run(
        "example.org",
        vec![
            Event::Resolved(Some(three())),
            Event::Connected(false),
            Event::Connected(false),
            Event::Connected(false),
        ],
    );
    assert_eq!(state, Fetch::Finished);
    assert_eq!(
        actions.last(),
        Some(&Action::Finish(Err(Error::ConnectToServer(("10.0.0.3".to_string(), 70)))))
    );
}

#[test]
fn single_refusing_candidate_ends_the_fetch() {
    let (_, actions) = run(
        "example.org:7",
        vec![Event::Resolved(Some(vec![address("::1", 7)])), Event::Connected(false)],
    );
    assert_eq!(
        actions,
        vec![
            Action::Resolve("example.org:7".to_string()),
            Action::Connect(0),
            Action::Finish(Err(Error::ConnectToServer(("::1".to_string(), 7)))),
        ]
    );
}

#[test]
fn failed_resolution_ends_the_fetch() {
    let (state, actions) = run("gopher.claub:60", vec![Event::Resolved(None)]);
    assert_eq!(state, Fetch::Finished);
    assert_eq!(
        actions.last(),
        Some(&Action::Finish(Err(Error::GetIpFromAddrs(("gopher.claub".to_string(), 60)))))
    );
}

#[test]
fn resolution_without_addresses_ends_the_fetch() {
    let (_, actions) = run("example.org", vec![Event::Resolved(Some(Vec::new()))]);
    assert_eq!(
        actions.last(),
        Some(&Action::Finish(Err(Error::GetIpFromAddrs(("example.org".to_string(), 70)))))
    );
}

#[test]
fn short_write_ends_the_fetch_without_a_second_write() {
    let (state, actions) = run(
        "example.org/sel",
        vec![Event::Resolved(Some(three())), Event::Connected(true), Event::Written(Some(5))],
    );
    assert_eq!(state, Fetch::Finished);
    assert_eq!(actions.last(), Some(&Action::Finish(Err(Error::PartialBufferWriten))));
}

#[test]
fn failed_write_ends_the_fetch() {
    let (_, actions) = run(
        "example.org/sel",
        vec![Event::Resolved(Some(three())), Event::Connected(true), Event::Written(None)],
    );
    assert_eq!(actions.last(), Some(&Action::Finish(Err(Error::WriteError))));
}

#[test]
fn failed_read_ends_the_fetch() {
    let (_, actions) = run(
        "example.org/sel",
        vec![
            Event::Resolved(Some(three())),
            Event::Connected(true),
            Event::Written(Some(6)),
            Event::Read(None),
        ],
    );
    assert_eq!(actions.last(), Some(&Action::Finish(Err(Error::ReadError))));
}

#[test]
fn write_error_on_a_candidate_does_not_try_the_next() {
    let (state, actions) = run(
        "example.org",
        vec![
            Event::Resolved(Some(three())),
            Event::Connected(false),
            Event::Connected(true),
            Event::Written(None),
        ],
    );
    assert_eq!(state, Fetch::Finished);
    assert_eq!(actions.len(), 5);
    assert_eq!(actions[4], Action::Finish(Err(Error::WriteError)));
}

#[test]
fn empty_response_is_a_response() {
    let (_, actions) = run(
        "example.org",
        vec![
            Event::Resolved(Some(three())),
            Event::Connected(true),
            Event::Written(Some(2)),
            Event::Read(Some(Vec::new())),
        ],
    );
    assert_eq!(actions.last(), Some(&Action::Finish(Ok(Vec::new()))));
}

#[test]
fn same_events_give_the_same_response() {
    let events = || {
        vec![
            Event::Resolved(Some(three())),
            Event::Connected(false),
            Event::Connected(true),
            Event::Written(Some(4)),
            Event::Read(Some(b"i\t\t\t\r\n.\r\n".to_vec())),
        ]
    };
    let first = run("example.org/1", events());
    let second = run("example.org/1", events());
    assert_eq!(first, second);
    assert_eq!(first.1.last(), Some(&Action::Finish(Ok(b"i\t\t\t\r\n.\r\n".to_vec()))));
}

#[test]
fn unexpected_event_ends_the_fetch_as_undefined() {
    let (state, actions) = run("example.org", vec![Event::Connected(true)]);
    assert_eq!(state, Fetch::Finished);
    assert_eq!(actions.last(), Some(&Action::Finish(Err(Error::UndefinedError))));
    let (_, actions) = run(
        "example.org",
        vec![Event::Resolved(Some(three())), Event::Written(Some(2))],
    );
    assert_eq!(actions.last(), Some(&Action::Finish(Err(Error::UndefinedError))));
    let (_, actions) = run(
        "example.org",
        vec![Event::Resolved(Some(three())), Event::Connected(true), Event::Read(Some(vec![1]))],
    );
    assert_eq!(actions.last(), Some(&Action::Finish(Err(Error::UndefinedError))));
}

#[test]
fn finished_fetch_expects_nothing() {
    assert_eq!(
        step(Fetch::Finished, Event::Read(Some(vec![1]))),
        (Fetch::Finished, Action::Finish(Err(Error::UndefinedError)))
    );
    assert_eq!(
        step(Fetch::Receiving, Event::Resolved(None)),
        (Fetch::Finished, Action::Finish(Err(Error::UndefinedError)))
    );
}

#[test]
fn candidate_index_out_of_range_is_undefined() {
    let state = Fetch::Connecting { selector: String::new(), candidates: three(), current: 3 };
    assert_eq!(
        step(state, Event::Connected(true)),
        (Fetch::Finished, Action::Finish(Err(Error::UndefinedError)))
    );
}

#[test]
fn start_with_a_target_asks_to_resolve() {
    let target = LocalUrl {
        schema: "gopher://".to_string(),
        domain: "h".to_string(),
        port: 7070,
        path: "/x".to_string(),
    };
    let (state, action) = start(Ok(target.clone()));
    assert_eq!(state, Fetch::Resolving { target });
    assert_eq!(action, Action::Resolve("h:7070".to_string()));
}

#[test]
fn start_with_an_error_finishes() {
    let (state, action) = start(Err(Error::ParseUrl("x".to_string())));
    assert_eq!(state, Fetch::Finished);
    assert_eq!(action, Action::Finish(Err(Error::ParseUrl("x".to_string()))));
}

#[test]
fn selector_with_non_ascii_text_is_sent_as_utf8() {
    let state = Fetch::Connecting {
        selector: "/caf\u{e9}".to_string(),
        candidates: three(),
        current: 1,
    };
    let (next, action) = step(state, Event::Connected(true));
    assert_eq!(action, Action::Send(vec![47, 99, 97, 102, 0xc3, 0xa9, 13, 10]));
    assert_eq!(next, Fetch::Sending { request: vec![47, 99, 97, 102, 0xc3, 0xa9, 13, 10] });
}
