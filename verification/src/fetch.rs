use vstd::prelude::*;
use crate::error::{Error, ErrorView};
use crate::networking::{
    get_ip_address, open_connection, read_from_stream, resolution_query, socket_query,
    write_to_stream, ResolvedAddress, ResolvedAddressView,
};
use crate::request::{create_msg, request_line, result_view, LocalUrl, LocalUrlView};

verus! {

/// What the caller has to do next on behalf of a fetch.
#[derive(Debug, PartialEq)]
pub enum Action {
    /// Resolve this `host:port` text to socket addresses.
    Resolve(String),
    /// Open a connection to the candidate with this index, within the
    /// connect timeout, releasing any earlier connection first.
    Connect(usize),
    /// Write these bytes to the connection, once.
    Send(Vec<u8>),
    /// Read from the connection until the peer closes it.
    Receive,
    /// Release the connection; the fetch has ended with this result.
    Finish(Result<Vec<u8>, Error>),
}

/// An [`Action`] with its strings and buffers as sequences.
pub enum ActionView {
    Resolve(Seq<char>),
    Connect(usize),
    Send(Seq<u8>),
    Receive,
    Finish(Result<Seq<u8>, ErrorView>),
}

/// The result of a fetch with its strings and buffers as sequences.
pub open spec fn response_view(result: Result<Vec<u8>, Error>) -> Result<Seq<u8>, ErrorView> {
    match result {
        Ok(bytes) => Ok(bytes@),
        Err(error) => Err(error@),
    }
}

impl View for Action {
    type V = ActionView;

    open spec fn view(&self) -> ActionView {
        match *self {
            Action::Resolve(query) => ActionView::Resolve(query@),
            Action::Connect(index) => ActionView::Connect(index),
            Action::Send(bytes) => ActionView::Send(bytes@),
            Action::Receive => ActionView::Receive,
            Action::Finish(result) => ActionView::Finish(response_view(result)),
        }
    }
}

/// What the caller reports back after an [`Action`].
#[derive(Debug, PartialEq)]
pub enum Event {
    /// Name resolution gave these addresses, in this order; `None` where it failed.
    Resolved(Option<Vec<ResolvedAddress>>),
    /// Whether the connection attempt succeeded.
    Connected(bool),
    /// How many bytes the transport took; `None` where the write failed.
    Written(Option<usize>),
    /// All that was read until the peer closed; `None` where a read failed.
    Read(Option<Vec<u8>>),
}

/// An [`Event`] with its strings and buffers as sequences.
pub enum EventView {
    Resolved(Option<Seq<ResolvedAddressView>>),
    Connected(bool),
    Written(Option<usize>),
    Read(Option<Seq<u8>>),
}

/// Candidate addresses with their strings as character sequences.
pub open spec fn candidates_view(candidates: Seq<ResolvedAddress>) -> Seq<ResolvedAddressView> {
    candidates.map_values(|address: ResolvedAddress| address@)
}

impl View for Event {
    type V = EventView;

    open spec fn view(&self) -> EventView {
        match *self {
            Event::Resolved(Some(addresses)) => EventView::Resolved(
                Some(candidates_view(addresses@)),
            ),
            Event::Resolved(None) => EventView::Resolved(None),
            Event::Connected(connected) => EventView::Connected(connected),
            Event::Written(written) => EventView::Written(written),
            Event::Read(Some(bytes)) => EventView::Read(Some(bytes@)),
            Event::Read(None) => EventView::Read(None),
        }
    }
}

/// How far a fetch has come.
#[derive(Debug, PartialEq)]
pub enum Fetch {
    /// Waiting for the addresses of the target's host.
    Resolving { target: LocalUrl },
    /// Waiting for the connection attempt to candidate `current`.
    Connecting { selector: String, candidates: Vec<ResolvedAddress>, current: usize },
    /// Connected; waiting for the write of the request line.
    Sending { request: Vec<u8> },
    /// The request line is out; waiting for the response.
    Receiving,
    /// Over. Nothing more is expected.
    Finished,
}

/// A [`Fetch`] with its strings and buffers as sequences.
pub enum FetchView {
    Resolving { target: LocalUrlView },
    Connecting { selector: Seq<char>, candidates: Seq<ResolvedAddressView>, current: usize },
    Sending { request: Seq<u8> },
    Receiving,
    Finished,
}

impl View for Fetch {
    type V = FetchView;

    open spec fn view(&self) -> FetchView {
        match *self {
            Fetch::Resolving { target } => FetchView::Resolving { target: target@ },
            Fetch::Connecting { selector, candidates, current } => FetchView::Connecting {
                selector: selector@,
                candidates: candidates_view(candidates@),
                current,
            },
            Fetch::Sending { request } => FetchView::Sending { request: request@ },
            Fetch::Receiving => FetchView::Receiving,
            Fetch::Finished => FetchView::Finished,
        }
    }
}

/// The end of a fetch with `result`.
pub open spec fn finish(result: Result<Seq<u8>, ErrorView>) -> (FetchView, ActionView) {
    (FetchView::Finished, ActionView::Finish(result))
}

/// How a fetch begins once the address is normalised: by resolving the
/// target's host and port, or not at all where normalisation failed.
pub open spec fn start_spec(normalised: Result<LocalUrlView, ErrorView>) -> (
    FetchView,
    ActionView,
) {
    match normalised {
        Ok(target) => (
            FetchView::Resolving { target },
            ActionView::Resolve(resolution_query(target.domain, target.port)),
        ),
        Err(error) => finish(Err(error)),
    }
}

/// The state and action that follow `state` on `event`.
///
/// Candidates are tried in the order given. The first that connects gets the
/// one request; its outcome ends the fetch. A candidate that does not connect
/// hands over to the next; when the last one fails, its error ends the fetch.
/// An event that the state does not wait for ends the fetch as undefined.
pub open spec fn step_spec(state: FetchView, event: EventView) -> (FetchView, ActionView) {
    match (state, event) {
        (FetchView::Resolving { target }, EventView::Resolved(found)) => {
            if found is Some && found->0.len() > 0 {
                (
                    FetchView::Connecting {
                        selector: target.path,
                        candidates: found->0,
                        current: 0,
                    },
                    ActionView::Connect(0),
                )
            } else {
                finish(Err(ErrorView::GetIpFromAddrs(target.domain, target.port)))
            }
        },
        (
            FetchView::Connecting { selector, candidates, current },
            EventView::Connected(connected),
        ) => {
            if current >= candidates.len() {
                finish(Err(ErrorView::UndefinedError))
            } else if connected {
                (
                    FetchView::Sending { request: request_line(selector) },
                    ActionView::Send(request_line(selector)),
                )
            } else if current + 1 < candidates.len() {
                (
                    FetchView::Connecting {
                        selector,
                        candidates,
                        current: (current + 1) as usize,
                    },
                    ActionView::Connect((current + 1) as usize),
                )
            } else {
                finish(
                    Err(
                        ErrorView::ConnectToServer(
                            candidates[current as int].ip,
                            candidates[current as int].port,
                        ),
                    ),
                )
            }
        },
        (FetchView::Sending { request }, EventView::Written(written)) => {
            if written is None {
                finish(Err(ErrorView::WriteError))
            } else if written->0 != request.len() {
                finish(Err(ErrorView::PartialBufferWriten))
            } else {
                (FetchView::Receiving, ActionView::Receive)
            }
        },
        (FetchView::Receiving, EventView::Read(read)) => {
            match read {
                Some(bytes) => finish(Ok(bytes)),
                None => finish(Err(ErrorView::ReadError)),
            }
        },
        _ => finish(Err(ErrorView::UndefinedError)),
    }
}

/// Begins a fetch with the outcome of normalising its address.
pub fn start(normalised: Result<LocalUrl, Error>) -> (begun: (Fetch, Action))
    ensures
        (begun.0@, begun.1@) == start_spec(result_view(normalised)),
{
    match normalised {
        Ok(target) => {
            let query = socket_query(&target.domain, target.port);
            (Fetch::Resolving { target }, Action::Resolve(query))
        },
        Err(error) => (Fetch::Finished, Action::Finish(Err(error))),
    }
}

/// Ends a fetch with `error`.
fn fail(error: Error) -> (ended: (Fetch, Action))
    ensures
        (ended.0@, ended.1@) == finish(Err(error@)),
{
    (Fetch::Finished, Action::Finish(Err(error)))
}

/// Takes a fetch one step further: from the state it is in and what the
/// caller reports, to the next state and what the caller has to do next.
pub fn step(state: Fetch, event: Event) -> (next: (Fetch, Action))
    ensures
        (next.0@, next.1@) == step_spec(state@, event@),
{
    match (state, event) {
        (Fetch::Resolving { target }, Event::Resolved(found)) => {
            let LocalUrl { schema: _, domain, port, path } = target;
            match get_ip_address(domain, port, found) {
                Ok(candidates) => (
                    Fetch::Connecting { selector: path, candidates, current: 0 },
                    Action::Connect(0),
                ),
                Err(error) => fail(error),
            }
        },
        (Fetch::Connecting { selector, candidates, current }, Event::Connected(connected)) => {
            if current >= candidates.len() {
                return fail(Error::UndefinedError);
            }
            let attempt = if connected {
                Some(())
            } else {
                None
            };
            match open_connection(&candidates[current], attempt) {
                Ok(_) => {
                    let request = create_msg(&selector);
                    let copy = request.clone();
                    assert(copy@ =~= request@);
                    (Fetch::Sending { request }, Action::Send(copy))
                },
                Err(error) => {
                    if current + 1 < candidates.len() {
                        (
                            Fetch::Connecting { selector, candidates, current: current + 1 },
                            Action::Connect(current + 1),
                        )
                    } else {
                        fail(error)
                    }
                },
            }
        },
        (Fetch::Sending { request }, Event::Written(written)) => {
            match write_to_stream(request, written) {
                Ok(_) => (Fetch::Receiving, Action::Receive),
                Err(error) => fail(error),
            }
        },
        (Fetch::Receiving, Event::Read(read)) => {
            match read_from_stream(read) {
                Ok(bytes) => (Fetch::Finished, Action::Finish(Ok(bytes))),
                Err(error) => fail(error),
            }
        },
        _ => fail(Error::UndefinedError),
    }
}

/// Where a fetch stands, and what it asks for, after `events` have been
/// reported one by one, starting from `state` and `action`.
pub open spec fn run_spec(state: FetchView, action: ActionView, events: Seq<EventView>) -> (
    FetchView,
    ActionView,
)
    decreases events.len(),
{
    if events.len() == 0 {
        (state, action)
    } else {
        let next = step_spec(state, events[0]);
        run_spec(next.0, next.1, events.drop_first())
    }
}

/// Whether every event in `events` reports a failed connection attempt.
pub open spec fn all_refused(events: Seq<EventView>) -> bool {
    forall|i: int| 0 <= i < events.len() ==> #[trigger] events[i] == EventView::Connected(false)
}

/// The error that names `address` as the one that could not be connected to.
pub open spec fn connect_error(address: ResolvedAddressView) -> ErrorView {
    ErrorView::ConnectToServer(address.ip, address.port)
}

/// From any candidate on, if it and all that follow it refuse the connection,
/// the fetch ends with the error of the last candidate.
pub proof fn lemma_refusals_end_with_last(
    selector: Seq<char>,
    candidates: Seq<ResolvedAddressView>,
    current: usize,
    refusals: Seq<EventView>,
)
    requires
        current < candidates.len() <= usize::MAX,
        refusals.len() == candidates.len() - current,
        all_refused(refusals),
    ensures
        run_spec(
            FetchView::Connecting { selector, candidates, current },
            ActionView::Connect(current),
            refusals,
        ) == finish(Err(connect_error(candidates.last()))),
    decreases refusals.len(),
{
    let state = FetchView::Connecting { selector, candidates, current };
    let next = step_spec(state, refusals[0]);
    let rest = refusals.drop_first();
    assert(refusals[0] == EventView::Connected(false));
    if current + 1 < candidates.len() {
        assert forall|i: int| 0 <= i < rest.len() implies #[trigger] rest[i]
            == EventView::Connected(false) by {
            assert(rest[i] == refusals[i + 1]);
        }
        lemma_refusals_end_with_last(selector, candidates, (current + 1) as usize, rest);
    } else {
        assert(rest.len() == 0);
        assert(run_spec(next.0, next.1, rest) == next);
    }
}

/// If every resolved candidate refuses the connection, the fetch ends with
/// the error of the last candidate tried, not of the first.
pub proof fn lemma_last_refusal_is_reported(
    target: LocalUrlView,
    candidates: Seq<ResolvedAddressView>,
    refusals: Seq<EventView>,
)
    requires
        0 < candidates.len() <= usize::MAX,
        refusals.len() == candidates.len(),
        all_refused(refusals),
    ensures
        run_spec(
            FetchView::Resolving { target },
            ActionView::Resolve(resolution_query(target.domain, target.port)),
            seq![EventView::Resolved(Some(candidates))] + refusals,
        ) == finish(Err(connect_error(candidates.last()))),
{
    let events = seq![EventView::Resolved(Some(candidates))] + refusals;
    assert(events.drop_first() =~= refusals);
    lemma_refusals_end_with_last(target.path, candidates, 0, refusals);
}

/// Refusals by the candidates before `current` lead to the attempt on `current`.
pub proof fn lemma_refusals_reach_candidate(
    selector: Seq<char>,
    candidates: Seq<ResolvedAddressView>,
    from: usize,
    current: usize,
    refusals: Seq<EventView>,
)
    requires
        from <= current < candidates.len() <= usize::MAX,
        refusals.len() == current - from,
        all_refused(refusals),
    ensures
        run_spec(
            FetchView::Connecting { selector, candidates, current: from },
            ActionView::Connect(from),
            refusals,
        ) == (FetchView::Connecting { selector, candidates, current }, ActionView::Connect(current)),
    decreases refusals.len(),
{
    if from < current {
        let rest = refusals.drop_first();
        assert(refusals[0] == EventView::Connected(false));
        assert forall|i: int| 0 <= i < rest.len() implies #[trigger] rest[i]
            == EventView::Connected(false) by {
            assert(rest[i] == refusals[i + 1]);
        }
        lemma_refusals_reach_candidate(selector, candidates, (from + 1) as usize, current, rest);
    }
}

/// Running over two runs of events in turn is running over both at once.
pub proof fn lemma_run_in_two(
    state: FetchView,
    action: ActionView,
    first: Seq<EventView>,
    second: Seq<EventView>,
)
    ensures
        run_spec(state, action, first + second) == ({
            let between = run_spec(state, action, first);
            run_spec(between.0, between.1, second)
        }),
    decreases first.len(),
{
    if first.len() == 0 {
        assert(first + second =~= second);
    } else {
        let next = step_spec(state, first[0]);
        assert((first + second).drop_first() =~= first.drop_first() + second);
        lemma_run_in_two(next.0, next.1, first.drop_first(), second);
    }
}

/// The response of a fetch is what was read from the first candidate that
/// connected, byte for byte, however many candidates refused before it; and
/// what that candidate was sent is the request line of the selector.
pub proof fn lemma_response_is_what_was_read(
    selector: Seq<char>,
    candidates: Seq<ResolvedAddressView>,
    current: usize,
    refusals: Seq<EventView>,
    response: Seq<u8>,
)
    requires
        current < candidates.len() <= usize::MAX,
        refusals.len() == current,
        all_refused(refusals),
        request_line(selector).len() <= usize::MAX,
    ensures
        run_spec(
            FetchView::Connecting { selector, candidates, current: 0 },
            ActionView::Connect(0),
            refusals + seq![EventView::Connected(true)],
        ).1 == ActionView::Send(request_line(selector)),
        run_spec(
            FetchView::Connecting { selector, candidates, current: 0 },
            ActionView::Connect(0),
            refusals + seq![
                EventView::Connected(true),
                EventView::Written(Some(request_line(selector).len() as usize)),
                EventView::Read(Some(response)),
            ],
        ) == finish(Ok(response)),
{
    let begin = FetchView::Connecting { selector, candidates, current: 0 };
    let reached = FetchView::Connecting { selector, candidates, current };
    let line = request_line(selector);
    lemma_refusals_reach_candidate(selector, candidates, 0, current, refusals);
    let connect = seq![EventView::Connected(true)];
    let exchange = seq![
        EventView::Connected(true),
        EventView::Written(Some(line.len() as usize)),
        EventView::Read(Some(response)),
    ];
    lemma_run_in_two(begin, ActionView::Connect(0), refusals, connect);
    lemma_run_in_two(begin, ActionView::Connect(0), refusals, exchange);
    let sending = step_spec(reached, EventView::Connected(true));
    assert(connect.drop_first() =~= Seq::<EventView>::empty());
    assert(run_spec(sending.0, sending.1, connect.drop_first()) == sending);
    assert(run_spec(reached, ActionView::Connect(current), connect) == sending);
    let receiving = step_spec(sending.0, exchange[1]);
    let ended = step_spec(receiving.0, exchange[2]);
    let tail = exchange.drop_first();
    let tail2 = tail.drop_first();
    assert(tail[0] == exchange[1]);
    assert(tail2[0] == exchange[2]);
    assert(tail2.drop_first() =~= Seq::<EventView>::empty());
    assert(run_spec(ended.0, ended.1, tail2.drop_first()) == ended);
    assert(run_spec(receiving.0, receiving.1, tail2) == ended);
    assert(run_spec(sending.0, sending.1, tail) == ended);
    assert(run_spec(reached, ActionView::Connect(current), exchange) == ended);
}

} // verus!
