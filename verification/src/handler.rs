//! The registry of methods and the decisions of the connection handler.
//!
//! The handler performs no input or output. It is told what happened on the
//! connection, one event at a time, and says what is to be done about it.

use crate::json::{
    encoded_view, json_decode, json_encode, optional_view, values_view, Json, JsonValue,
};
use crate::method::outcome_view;
use crate::request::{parse_outcome, parsed_view, request_shape, Request, RequestView};
use crate::response::{
    failure, optional_response_view, response_json, success, Error, ErrorView, Response,
    ResponseView, METHOD_NOT_FOUND,
};
use vstd::hash_map::StringHashMap;
use vstd::prelude::*;

verus! {

/// The kind of a message on the connection.
#[derive(Clone, Copy, Debug, PartialEq, Eq, Structural)]
pub enum Opcode {
    Text,
    Binary,
    Ping,
    Pong,
    Close,
}

/// Where a connection stands. `Closed` and `Failed` are final.
#[derive(Clone, Copy, Debug, PartialEq, Eq, Structural)]
pub enum State {
    /// Messages are read and answered.
    Open,
    /// A close was received and acknowledged; calls that are still running
    /// may yet be answered.
    Closing,
    /// The connection has ended in order.
    Closed,
    /// The transport failed.
    Failed,
}

/// Something that happened on a connection.
#[derive(Debug, PartialEq)]
pub enum Event {
    /// A message arrived.
    Message { opcode: Opcode, payload: Vec<u8> },
    /// A response is next in the outbound queue.
    Outbound(Response),
    /// The peer has ended the stream.
    End,
    /// Reading from or writing to the transport failed.
    Failure,
}

/// The mathematical value of an [`Event`].
pub enum EventView {
    Message { opcode: Opcode, payload: Seq<u8> },
    Outbound(ResponseView),
    End,
    Failure,
}

impl View for Event {
    type V = EventView;

    open spec fn view(&self) -> EventView {
        match self {
            Event::Message { opcode, payload } => EventView::Message {
                opcode: *opcode,
                payload: payload@,
            },
            Event::Outbound(response) => EventView::Outbound(response@),
            Event::End => EventView::End,
            Event::Failure => EventView::Failure,
        }
    }
}

/// What is to be done on a connection.
#[derive(Debug)]
pub enum Action<'a, M> {
    /// Nothing.
    Idle,
    /// Run the method on the arguments, and give the outcome together with
    /// the id to [`respond`].
    Invoke { method: &'a M, args: Vec<Json>, id: Option<Json> },
    /// Put the response at the end of the outbound queue.
    Enqueue(Response),
    /// Write a message to the transport.
    Send { opcode: Opcode, payload: Vec<u8> },
}

/// The mathematical value of an [`Action`].
pub enum ActionView<M> {
    Idle,
    Invoke { method: M, args: Seq<JsonValue>, id: Option<JsonValue> },
    Enqueue(ResponseView),
    Send { opcode: Opcode, payload: Seq<u8> },
}

impl<'a, M> View for Action<'a, M> {
    type V = ActionView<M>;

    open spec fn view(&self) -> ActionView<M> {
        match self {
            Action::Idle => ActionView::Idle,
            Action::Invoke { method, args, id } => ActionView::Invoke {
                method: **method,
                args: values_view(args@),
                id: optional_view(*id),
            },
            Action::Enqueue(response) => ActionView::Enqueue(response@),
            Action::Send { opcode, payload } => ActionView::Send {
                opcode: *opcode,
                payload: payload@,
            },
        }
    }
}

/// The answer to a call of a method that is not registered: a
/// method-not-found error that carries the name, under the call's id.
pub open spec fn unknown_method(method: Seq<char>, id: JsonValue) -> ResponseView {
    failure(
        ErrorView {
            code: METHOD_NOT_FOUND as int,
            message: "Method not found"@,
            data: Some(JsonValue::String(method)),
        },
        Some(id),
    )
}

/// The answer to a request whose method has run: the result or the error
/// under the request's id, and no answer at all for a notification.
pub open spec fn answer(id: Option<JsonValue>, outcome: Result<JsonValue, ErrorView>) -> Option<
    ResponseView,
> {
    match id {
        None => None,
        Some(id) => Some(
            match outcome {
                Ok(result) => success(result, id),
                Err(error) => failure(error, Some(id)),
            },
        ),
    }
}

/// What is done with a request. A registered method is run on the
/// arguments given, or on none. An unregistered one is answered with
/// [`unknown_method`] where the request has an id, and passed over where it
/// has none.
pub open spec fn dispatched<M>(registry: Map<Seq<char>, M>, request: RequestView) -> ActionView<M> {
    if registry.contains_key(request.method) {
        ActionView::Invoke {
            method: registry[request.method],
            args: request.args(),
            id: request.id,
        }
    } else {
        match request.id {
            Some(id) => ActionView::Enqueue(unknown_method(request.method, id)),
            None => ActionView::Idle,
        }
    }
}

/// What is done with a parsed text: a request is dispatched, an answer is
/// queued, and a text that calls for neither is passed over.
pub open spec fn routed<M>(
    registry: Map<Seq<char>, M>,
    parsed: Result<RequestView, Option<ResponseView>>,
) -> ActionView<M> {
    match parsed {
        Ok(request) => dispatched(registry, request),
        Err(Some(response)) => ActionView::Enqueue(response),
        Err(None) => ActionView::Idle,
    }
}

/// What is done with an encoded response: it is sent as a text message, or
/// passed over where there is no text.
pub open spec fn transmitted<M>(encoded: Option<Seq<u8>>) -> ActionView<M> {
    match encoded {
        Some(text) => ActionView::Send { opcode: Opcode::Text, payload: text },
        None => ActionView::Idle,
    }
}

/// Where a connection stands after an event. A closed or failed connection
/// stays as it is. Otherwise the first close leads from open to closing and
/// the second from closing to closed; the end of the stream closes the
/// connection and a failure of the transport fails it; nothing else changes
/// where it stands.
pub open spec fn next_state(state: State, event: EventView) -> State {
    match state {
        State::Closed | State::Failed => state,
        _ => match event {
            EventView::Message { opcode: Opcode::Close, .. } => if state == State::Open {
                State::Closing
            } else {
                State::Closed
            },
            EventView::Message { .. } => state,
            EventView::Outbound(_) => state,
            EventView::End => State::Closed,
            EventView::Failure => State::Failed,
        },
    }
}

/// What is done about an event. Once the connection is closed or has failed,
/// nothing is. Until then a text or binary message is parsed and routed; a
/// ping is answered by a pong with the same payload; a pong is passed over;
/// the first close is acknowledged by an empty close and the second ends
/// the connection; a response from the outbound queue is encoded and sent.
pub open spec fn next_action<M>(
    registry: Map<Seq<char>, M>,
    state: State,
    event: EventView,
) -> ActionView<M> {
    match state {
        State::Closed | State::Failed => ActionView::Idle,
        _ => match event {
            EventView::Message { opcode, payload } => match opcode {
                Opcode::Text | Opcode::Binary => routed(
                    registry,
                    parse_outcome(json_decode(payload)),
                ),
                Opcode::Ping => ActionView::Send { opcode: Opcode::Pong, payload },
                Opcode::Pong => ActionView::Idle,
                Opcode::Close => if state == State::Open {
                    ActionView::Send { opcode: Opcode::Close, payload: Seq::empty() }
                } else {
                    ActionView::Idle
                },
            },
            EventView::Outbound(response) => transmitted(json_encode(response_json(response))),
            EventView::End => ActionView::Idle,
            EventView::Failure => ActionView::Idle,
        },
    }
}

/// Whether `response` can be what comes of running `method` on arguments
/// with the given values for a request with `id`: `invoke` was called once,
/// on the method and such arguments, and its outcome was answered.
pub open spec fn invoked<M, F: FnOnce(&M, Vec<Json>) -> Result<Json, Error>>(
    invoke: F,
    method: M,
    args: Seq<JsonValue>,
    id: Option<JsonValue>,
    response: Option<ResponseView>,
) -> bool {
    exists|given: Vec<Json>, outcome: Result<Json, Error>|
        {
            &&& values_view(given@) == args
            &&& #[trigger] call_ensures(invoke, (&method, given), outcome)
            &&& response == answer(id, outcome_view(outcome))
        }
}

/// The registry after a batch of methods was registered, one after the
/// other: each takes its name, also from a method that had it before.
pub open spec fn registered<M>(before: Map<Seq<char>, M>, batch: Seq<(&'static str, M)>) -> Map<
    Seq<char>,
    M,
>
    decreases batch.len(),
{
    if batch.len() == 0 {
        before
    } else {
        registered(before, batch.drop_last()).insert(batch.last().0@, batch.last().1)
    }
}

/// Builds the answer to a request whose method has run.
pub fn respond(id: Option<Json>, outcome: Result<Json, Error>) -> (response: Option<Response>)
    ensures
        optional_response_view(response) == answer(optional_view(id), outcome_view(outcome)),
{
    match id {
        None => None,
        Some(id) => Some(
            match outcome {
                Ok(result) => Response::ok(result, id),
                Err(error) => Response::error(error, Some(id)),
            },
        ),
    }
}

/// Decides what is done with an encoded response.
pub fn transmit<'a, M>(encoded: Option<Vec<u8>>) -> (action: Action<'a, M>)
    ensures
        action@ == transmitted::<M>(encoded_view(encoded)),
{
    match encoded {
        Some(text) => Action::Send { opcode: Opcode::Text, payload: text },
        None => Action::Idle,
    }
}

/// The methods of a server by name. It is filled before the first
/// connection is served and only read after that.
#[verifier::reject_recursive_types(M)]
pub struct Handler<M> {
    methods: StringHashMap<M>,
}

impl<M> View for Handler<M> {
    type V = Map<Seq<char>, M>;

    closed spec fn view(&self) -> Map<Seq<char>, M> {
        self.methods@
    }
}

impl<M> Handler<M> {
    /// A registry without methods.
    pub fn new() -> (handler: Handler<M>)
        ensures
            handler@ == Map::<Seq<char>, M>::empty(),
    {
        Handler { methods: StringHashMap::new() }
    }

    /// Registers a batch of methods under their names. A name that is
    /// already taken goes to the new method.
    pub fn register(&mut self, methods: Vec<(&'static str, M)>)
        ensures
            final(self)@ == registered(old(self)@, methods@),
    {
        let ghost before = self@;
        let ghost batch = methods@;
        for entry in iter: methods
            invariant
                iter.seq() == batch,
                self@ == registered(before, batch.take(iter.index())),
        {
            let (name, method) = entry;
            proof {
                let done = batch.take(iter.index() + 1);
                assert(done.drop_last() =~= batch.take(iter.index()));
                assert(done.last() == (name, method));
            }
            self.methods.insert(name.to_owned(), method);
        }
        proof {
            assert(batch.take(batch.len() as int) =~= batch);
        }
    }

    /// The method registered under `name`, if there is one.
    pub fn lookup(&self, name: &str) -> (found: Option<&M>)
        ensures
            match found {
                Some(method) => self@.contains_key(name@) && self@[name@] == *method,
                None => !self@.contains_key(name@),
            },
    {
        self.methods.get(name)
    }

    /// Decides what is done with a request.
    pub fn dispatch(&self, request: Request) -> (action: Action<'_, M>)
        ensures
            action@ == dispatched(self@, request@),
    {
        let (method, args, id) = request.into_parts();
        match self.lookup(method.as_str()) {
            Some(found) => Action::Invoke { method: found, args, id },
            None => match id {
                Some(id) => {
                    let error = Error::method_not_found(Some(Json::String(method)));
                    Action::Enqueue(Response::error(error, Some(id)))
                },
                None => Action::Idle,
            },
        }
    }

    /// Handles one request from lookup to answer, with `invoke` to run the
    /// method that was found.
    pub fn call<F>(&self, request: Request, invoke: F) -> (response: Option<Response>) where
        F: FnOnce(&M, Vec<Json>) -> Result<Json, Error>,

        requires
            forall|given: Vec<Json>|
                self@.contains_key(request@.method) && values_view(given@) == request@.args()
                    ==> call_requires(invoke, (&self@[request@.method], given)),
        ensures
            match dispatched(self@, request@) {
                ActionView::Invoke { method, args, id } => invoked(
                    invoke,
                    method,
                    args,
                    id,
                    optional_response_view(response),
                ),
                ActionView::Enqueue(answer) => optional_response_view(response) == Some(answer),
                _ => response is None,
            },
    {
        match self.dispatch(request) {
            Action::Invoke { method, args, id } => {
                let ghost given = args;
                let ghost wanted = optional_view(id);
                let outcome = invoke(method, args);
                let ghost returned = outcome;
                let response = respond(id, outcome);
                proof {
                    assert(call_ensures(invoke, (method, given), returned));
                    assert(invoked(
                        invoke,
                        *method,
                        values_view(given@),
                        wanted,
                        optional_response_view(response),
                    ));
                }
                response
            },
            Action::Enqueue(response) => Some(response),
            _ => None,
        }
    }

    /// Decides what is done with a parsed text.
    pub fn route(&self, parsed: Result<Request, Option<Response>>) -> (action: Action<'_, M>)
        ensures
            action@ == routed(self@, parsed_view(parsed)),
    {
        match parsed {
            Ok(request) => self.dispatch(request),
            Err(Some(response)) => Action::Enqueue(response),
            Err(None) => Action::Idle,
        }
    }

    /// Decides what is done with the text of a message.
    pub fn handle_request(&self, payload: &[u8]) -> (action: Action<'_, M>)
        ensures
            action@ == routed(self@, parse_outcome(json_decode(payload@))),
    {
        self.route(Request::parse(payload))
    }

    /// Takes a connection one step further: from where it stands and what
    /// happened to where it stands next and what is to be done.
    pub fn handle(&self, state: State, event: Event) -> (next: (State, Action<'_, M>))
        ensures
            next.0 == next_state(state, event@),
            next.1@ == next_action(self@, state, event@),
    {
        match state {
            State::Closed => (State::Closed, Action::Idle),
            State::Failed => (State::Failed, Action::Idle),
            _ => match event {
                Event::Message { opcode, payload } => match opcode {
                    Opcode::Text => (state, self.handle_request(payload.as_slice())),
                    Opcode::Binary => (state, self.handle_request(payload.as_slice())),
                    Opcode::Ping => (state, Action::Send { opcode: Opcode::Pong, payload }),
                    Opcode::Pong => (state, Action::Idle),
                    Opcode::Close => match state {
                        State::Open => (
                            State::Closing,
                            Action::Send { opcode: Opcode::Close, payload: Vec::new() },
                        ),
                        _ => (State::Closed, Action::Idle),
                    },
                },
                Event::Outbound(response) => (state, transmit(response.into_bytes())),
                Event::End => (State::Closed, Action::Idle),
                Event::Failure => (State::Failed, Action::Idle),
            },
        }
    }
}

impl<M> Default for Handler<M> {
    fn default() -> (handler: Handler<M>)
        ensures
            handler@ == Map::<Seq<char>, M>::empty(),
    {
        Handler::new()
    }
}

/// A call with an id to a registered method is handed to that method with
/// the call's arguments, and once the method has returned a result, the one
/// answer carries that result under the call's id.
pub proof fn lemma_call_is_answered<M>(
    registry: Map<Seq<char>, M>,
    request: RequestView,
    result: JsonValue,
)
    requires
        request.id is Some,
        registry.contains_key(request.method),
    ensures
        dispatched(registry, request) == (ActionView::Invoke {
            method: registry[request.method],
            args: request.args(),
            id: request.id,
        }),
        answer(request.id, Ok(result)) == Some(success(result, request.id->0)),
        success(result, request.id->0).result == Some(result),
        success(result, request.id->0).error is None,
        success(result, request.id->0).id == request.id,
{
}

/// When a method that returns a result has been run for a call with an id,
/// there is an answer, and it is a well-formed response with that result's
/// place taken, no error, and the call's id.
pub proof fn lemma_successful_call_has_result<M, F: FnOnce(&M, Vec<Json>) -> Result<Json, Error>>(
    invoke: F,
    method: M,
    args: Seq<JsonValue>,
    id: JsonValue,
    response: Option<ResponseView>,
)
    requires
        invoked(invoke, method, args, Some(id), response),
        forall|given: Vec<Json>, outcome: Result<Json, Error>| #[trigger]
            call_ensures(invoke, (&method, given), outcome) ==> outcome is Ok,
    ensures
        response is Some,
        response->0.wf(),
        response->0.result is Some,
        response->0.error is None,
        response->0.id == Some(id),
{
}

/// When a method has been run for a request without an id, there is no
/// answer, whatever the method returned.
pub proof fn lemma_notified_call_is_silent<M, F: FnOnce(&M, Vec<Json>) -> Result<Json, Error>>(
    invoke: F,
    method: M,
    args: Seq<JsonValue>,
    response: Option<ResponseView>,
)
    requires
        invoked(invoke, method, args, None, response),
    ensures
        response is None,
{
}

/// A request without an id is never answered: not when its method is
/// unknown, not when its method returns a result, and not when it fails.
pub proof fn lemma_notification_is_silent<M>(
    registry: Map<Seq<char>, M>,
    request: RequestView,
    outcome: Result<JsonValue, ErrorView>,
)
    requires
        request.id is None,
    ensures
        match dispatched(registry, request) {
            ActionView::Idle => !registry.contains_key(request.method),
            ActionView::Invoke { method, args, id } => id is None,
            _ => false,
        },
        answer(request.id, outcome) is None,
{
}

/// A text that reads as a request without an id never leads to an answer,
/// whatever version it names.
pub proof fn lemma_notification_is_never_refused<M>(
    registry: Map<Seq<char>, M>,
    decoded: JsonValue,
    request: RequestView,
)
    requires
        request_shape(decoded) == Ok::<RequestView, Seq<char>>(request),
        request.id is None,
    ensures
        !(routed(registry, parse_outcome(Ok(decoded))) is Enqueue),
{
}

/// On a connection that is open or closing, a ping is answered by one pong
/// with the same payload, and the connection stays where it stands.
pub proof fn lemma_ping_is_echoed<M>(registry: Map<Seq<char>, M>, state: State, payload: Seq<u8>)
    requires
        state == State::Open || state == State::Closing,
    ensures
        next_action(registry, state, EventView::Message { opcode: Opcode::Ping, payload })
            == (ActionView::<M>::Send { opcode: Opcode::Pong, payload }),
        next_state(state, EventView::Message { opcode: Opcode::Ping, payload }) == state,
{
}

/// The first close on an open connection is acknowledged by an empty close
/// and leaves the connection closing. While it is closing, a response from
/// the outbound queue is still encoded and sent. The second close ends the
/// connection with nothing more to do.
pub proof fn lemma_close_handshake<M>(
    registry: Map<Seq<char>, M>,
    first: Seq<u8>,
    pending: ResponseView,
    second: Seq<u8>,
)
    ensures
        next_state(State::Open, EventView::Message { opcode: Opcode::Close, payload: first })
            == State::Closing,
        next_action(
            registry,
            State::Open,
            EventView::Message { opcode: Opcode::Close, payload: first },
        ) == (ActionView::<M>::Send { opcode: Opcode::Close, payload: Seq::empty() }),
        next_state(State::Closing, EventView::Outbound(pending)) == State::Closing,
        next_action(registry, State::Closing, EventView::Outbound(pending)) == transmitted::<M>(
            json_encode(response_json(pending)),
        ),
        next_state(State::Closing, EventView::Message { opcode: Opcode::Close, payload: second })
            == State::Closed,
        next_action(
            registry,
            State::Closing,
            EventView::Message { opcode: Opcode::Close, payload: second },
        ) == ActionView::<M>::Idle,
{
}

/// Once a connection is closed or has failed, no event changes that and
/// none leads to anything being done.
pub proof fn lemma_final_states_are_final<M>(
    registry: Map<Seq<char>, M>,
    state: State,
    event: EventView,
)
    requires
        state == State::Closed || state == State::Failed,
    ensures
        next_state(state, event) == state,
        next_action(registry, state, event) == ActionView::<M>::Idle,
{
}

/// How far a connection has come: open, then closing, then over.
pub open spec fn progress(state: State) -> nat {
    match state {
        State::Open => 0,
        State::Closing => 1,
        State::Closed => 2,
        State::Failed => 2,
    }
}

/// A connection never goes back: no event reopens it, and none takes it
/// from closing to open.
pub proof fn lemma_states_only_advance(state: State, event: EventView)
    ensures
        progress(state) <= progress(next_state(state, event)),
{
}

} // verus!
