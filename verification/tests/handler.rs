use ws_jsonrpc::handler::{respond, transmit, Action, Event, Handler, Opcode, State};
use ws_jsonrpc::json::{Json, JsonNumber};
use ws_jsonrpc::method::{decode_params, rpc};
use ws_jsonrpc::request::Request;
use ws_jsonrpc::response::{Error, Response};

type Method = fn(Vec<Json>) -> Result<Json, Error>;

fn number(n: u64) -> Json {
    Json::Number(JsonNumber::Unsigned(n))
}

fn text(s: &str) -> Json {
    Json::String(s.to_string())
}

fn as_u64(_position: usize, arg: &Json) -> Result<u64, String> {
    match arg {
        Json::Number(JsonNumber::Unsigned(n)) => Ok(*n),
        other => Err(format!("expected an unsigned integer, got {:?}", other)),
    }
}

fn add(args: Vec<Json>) -> Result<Json, Error> {
    rpc(2, as_u64, |v: Vec<u64>| Ok::<u64, Error>(v[0] + v[1]), number).invoke(&args)
}

fn fail(args: Vec<Json>) -> Result<Json, Error> {
    decode_params(0, &args, &as_u64)?;
    Err(Error::server_error(Some(-32050), "refused", None))
}

fn one(_args: Vec<Json>) -> Result<Json, Error> {
    Ok(number(1))
}

fn two(_args: Vec<Json>) -> Result<Json, Error> {
    Ok(number(2))
}

fn handler() -> Handler<Method> {
    let mut handler: Handler<Method> = Handler::new();
    handler.register(vec![("add", add as Method), ("fail", fail as Method)]);
    handler
}

fn run(method: &Method, args: Vec<Json>) -> Result<Json, Error> {
    method(args)
}

fn message(opcode: Opcode, payload: &[u8]) -> Event {
    Event::Message { opcode, payload: payload.to_vec() }
}

#[test]
fn lookup_finds_what_was_registered() {
    let handler = handler();
    assert!(handler.lookup("add").is_some());
    assert!(handler.lookup("fail").is_some());
    assert!(handler.lookup("ad").is_none());
    assert!(handler.lookup("").is_none());
    let empty: Handler<Method> = Handler::default();
    assert!(empty.lookup("add").is_none());
}

#[test]
fn later_registration_overwrites() {
    let mut handler: Handler<Method> = Handler::new();
    handler.register(vec![("n", one as Method), ("m", one as Method), ("n", two as Method)]);
    assert_eq!(handler.lookup("n").unwrap()(vec![]), Ok(number(2)));
    assert_eq!(handler.lookup("m").unwrap()(vec![]), Ok(number(1)));
    handler.register(vec![("m", two as Method)]);
    assert_eq!(handler.lookup("m").unwrap()(vec![]), Ok(number(2)));
    assert_eq!(handler.lookup("n").unwrap()(vec![]), Ok(number(2)));
    handler.register(vec![]);
    assert_eq!(handler.lookup("n").unwrap()(vec![]), Ok(number(2)));
}

#[test]
fn call_with_id_gets_its_result() {
    let handler = handler();
    let request =
        Request::parse(br#"{"jsonrpc":"2.0","method":"add","params":[40,2],"id":1}"#).unwrap();
    let response = handler.call(request, run).unwrap();
    assert_eq!(response, Response::ok(number(42), number(1)));
    assert_eq!(response.result(), &Some(number(42)));
    assert_eq!(response.failure(), &None);
    assert_eq!(response.id(), &Some(number(1)));
}

#[test]
fn notification_is_run_and_not_answered() {
    let handler = handler();
    let ran = std::cell::Cell::new(0);
    let count = |method: &Method, args: Vec<Json>| {
        ran.set(ran.get() + 1);
        method(args)
    };
    let succeed = Request::parse(br#"{"jsonrpc":"2.0","method":"add","params":[1,2]}"#).unwrap();
    assert_eq!(handler.call(succeed, &count), None);
    let fail = Request::parse(br#"{"jsonrpc":"2.0","method":"fail"}"#).unwrap();
    assert_eq!(handler.call(fail, &count), None);
    assert_eq!(ran.get(), 2);
    let unknown = Request::parse(br#"{"jsonrpc":"2.0","method":"nope"}"#).unwrap();
    assert_eq!(handler.call(unknown, &count), None);
    assert_eq!(ran.get(), 2);
}

#[test]
fn unknown_method_with_id_is_refused() {
    let handler = handler();
    let request = Request::parse(br#"{"jsonrpc":"2.0","method":"nope","id":7}"#).unwrap();
    let response = handler.call(request, run).unwrap();
    let error = response.failure().as_ref().unwrap();
    assert_eq!(error.code(), -32601);
    assert_eq!(error.message(), "Method not found");
    assert_eq!(error.data(), &Some(text("nope")));
    assert_eq!(response.id(), &Some(number(7)));
    assert_eq!(response.result(), &None);
}

#[test]
fn too_few_arguments_are_refused() {
    let handler = handler();
    let request =
        Request::parse(br#"{"jsonrpc":"2.0","method":"add","params":[1],"id":"x"}"#).unwrap();
    let response = handler.call(request, run).unwrap();
    let error = response.failure().as_ref().unwrap();
    assert_eq!(error.code(), -32602);
    assert_eq!(error.message(), "expected 2 parameters, 1 given");
    assert_eq!(response.id(), &Some(text("x")));
}

#[test]
fn missing_params_count_as_none() {
    let handler = handler();
    let request = Request::parse(br#"{"jsonrpc":"2.0","method":"add","id":4}"#).unwrap();
    let response = handler.call(request, run).unwrap();
    let error = response.failure().as_ref().unwrap();
    assert_eq!(error.message(), "expected 2 parameters, 0 given");
}

#[test]
fn failure_of_the_method_is_answered_under_the_id() {
    let handler = handler();
    let request = Request::parse(br#"{"jsonrpc":"2.0","method":"fail","id":"seven"}"#).unwrap();
    let response = handler.call(request, run).unwrap();
    let error = response.failure().as_ref().unwrap();
    assert_eq!(error.code(), -32050);
    assert_eq!(error.message(), "refused");
    assert_eq!(response.id(), &Some(text("seven")));
}

#[test]
fn dispatch_hands_out_method_arguments_and_id() {
    let handler = handler();
    let request =
        Request::parse(br#"{"jsonrpc":"2.0","method":"add","params":[1,2],"id":"a"}"#).unwrap();
    match handler.dispatch(request) {
        Action::Invoke { method, args, id } => {
            assert_eq!(args, vec![number(1), number(2)]);
            assert_eq!(id, Some(text("a")));
            assert_eq!(method(args), Ok(number(3)));
        },
        other => panic!("expected a method to run, got {:?}", other),
    }
}

#[test]
fn respond_answers_calls_only() {
    assert_eq!(
        respond(Some(number(1)), Ok(text("r"))),
        Some(Response::ok(text("r"), number(1)))
    );
    assert_eq!(
        respond(Some(number(1)), Err(Error::internal_error(None))),
        Some(Response::error(Error::internal_error(None), Some(number(1))))
    );
    assert_eq!(respond(None, Ok(text("r"))), None);
    assert_eq!(respond(None, Err(Error::internal_error(None))), None);
}

#[test]
fn answers_follow_the_order_of_completion() {
    let handler = handler();
    let slow =
        Request::parse(br#"{"jsonrpc":"2.0","method":"add","params":[1,0],"id":1}"#).unwrap();
    let fast =
        Request::parse(br#"{"jsonrpc":"2.0","method":"add","params":[2,0],"id":2}"#).unwrap();
    let mut running = Vec::new();
    for request in vec![slow, fast] {
        match handler.dispatch(request) {
            Action::Invoke { method, args, id } => running.push((method, args, id)),
            other => panic!("expected a method to run, got {:?}", other),
        }
    }
    let mut state = State::Open;
    let mut sent = Vec::new();
    while let Some((method, args, id)) = running.pop() {
        let response = respond(id, method(args)).unwrap();
        let (next, action) = handler.handle(state, Event::Outbound(response));
        state = next;
        match action {
            Action::Send { opcode: Opcode::Text, payload } => sent.push(payload),
            other => panic!("expected a text to send, got {:?}", other),
        }
    }
    assert_eq!(state, State::Open);
    assert_eq!(
        sent,
        vec![
            br#"{"jsonrpc":"2.0","result":2,"id":2}"#.to_vec(),
            br#"{"jsonrpc":"2.0","result":1,"id":1}"#.to_vec(),
        ]
    );
}

#[test]
fn route_queues_an_answer_and_drops_the_rest() {
    let handler = handler();
    let answer = Response::error(Error::parse_error(None), None);
    match handler.route(Err(Some(answer))) {
        Action::Enqueue(response) => {
            assert_eq!(response, Response::error(Error::parse_error(None), None))
        },
        other => panic!("expected an answer to queue, got {:?}", other),
    }
    assert!(matches!(handler.route(Err(None)), Action::Idle));
}

#[test]
fn handle_request_queues_a_parse_error() {
    let handler = handler();
    match handler.handle_request(b"{not json") {
        Action::Enqueue(response) => {
            assert_eq!(response.failure().as_ref().unwrap().code(), -32700);
            assert_eq!(response.id(), &None);
        },
        other => panic!("expected an answer to queue, got {:?}", other),
    }
}

#[test]
fn handle_request_passes_over_a_misversioned_notification() {
    let handler = handler();
    assert!(matches!(
        handler.handle_request(br#"{"jsonrpc":"1.0","method":"add","params":[1,2]}"#),
        Action::Idle
    ));
    match handler.handle_request(br#"{"jsonrpc":"1.0","method":"add","params":[1,2],"id":3}"#) {
        Action::Enqueue(response) => {
            assert_eq!(response.failure().as_ref().unwrap().code(), -32600);
            assert_eq!(response.id(), &Some(number(3)));
        },
        other => panic!("expected an answer to queue, got {:?}", other),
    }
}

#[test]
fn transmit_sends_text_or_nothing() {
    match transmit::<Method>(Some(b"{}".to_vec())) {
        Action::Send { opcode, payload } => {
            assert_eq!(opcode, Opcode::Text);
            assert_eq!(payload, b"{}".to_vec());
        },
        other => panic!("expected a text to send, got {:?}", other),
    }
    assert!(matches!(transmit::<Method>(None), Action::Idle));
}

#[test]
fn ping_is_answered_by_a_pong_with_the_same_payload() {
    let handler = handler();
    for state in [State::Open, State::Closing] {
        let (next, action) = handler.handle(state, message(Opcode::Ping, b"abc"));
        assert_eq!(next, state);
        match action {
            Action::Send { opcode, payload } => {
                assert_eq!(opcode, Opcode::Pong);
                assert_eq!(payload, b"abc".to_vec());
            },
            other => panic!("expected a pong, got {:?}", other),
        }
    }
}

#[test]
fn pong_is_passed_over() {
    let handler = handler();
    for state in [State::Open, State::Closing] {
        let (next, action) = handler.handle(state, message(Opcode::Pong, b"abc"));
        assert_eq!(next, state);
        assert!(matches!(action, Action::Idle));
    }
}

#[test]
fn close_is_acknowledged_once_and_then_ends_the_connection() {
    let handler = handler();
    let (state, action) = handler.handle(State::Open, message(Opcode::Close, b"\x03\xe8bye"));
    assert_eq!(state, State::Closing);
    match action {
        Action::Send { opcode, payload } => {
            assert_eq!(opcode, Opcode::Close);
            assert!(payload.is_empty());
        },
        other => panic!("expected a close, got {:?}", other),
    }
    let pending = Response::ok(number(5), number(9));
    let (state, action) = handler.handle(state, Event::Outbound(pending));
    assert_eq!(state, State::Closing);
    match action {
        Action::Send { opcode, payload } => {
            assert_eq!(opcode, Opcode::Text);
            assert_eq!(payload, br#"{"jsonrpc":"2.0","result":5,"id":9}"#.to_vec());
        },
        other => panic!("expected a text to send, got {:?}", other),
    }
    let (state, action) = handler.handle(state, message(Opcode::Close, b""));
    assert_eq!(state, State::Closed);
    assert!(matches!(action, Action::Idle));
}

#[test]
fn text_and_binary_messages_are_dispatched() {
    let handler = handler();
    let wire = br#"{"jsonrpc":"2.0","method":"add","params":[20,22],"id":"q"}"#;
    for opcode in [Opcode::Text, Opcode::Binary] {
        for state in [State::Open, State::Closing] {
            let (next, action) = handler.handle(state, message(opcode, wire));
            assert_eq!(next, state);
            match action {
                Action::Invoke { method, args, id } => {
                    assert_eq!(id, Some(text("q")));
                    assert_eq!(method(args), Ok(number(42)));
                },
                other => panic!("expected a method to run, got {:?}", other),
            }
        }
    }
}

#[test]
fn end_of_stream_closes_and_failure_fails() {
    let handler = handler();
    for state in [State::Open, State::Closing] {
        let (next, action) = handler.handle(state, Event::End);
        assert_eq!(next, State::Closed);
        assert!(matches!(action, Action::Idle));
        let (next, action) = handler.handle(state, Event::Failure);
        assert_eq!(next, State::Failed);
        assert!(matches!(action, Action::Idle));
    }
}

#[test]
fn nothing_is_done_once_the_connection_is_over() {
    let handler = handler();
    for state in [State::Closed, State::Failed] {
        let events = vec![
            message(Opcode::Text, br#"{"jsonrpc":"2.0","method":"add","params":[1,2],"id":1}"#),
            message(Opcode::Ping, b"abc"),
            message(Opcode::Close, b""),
            Event::Outbound(Response::ok(number(1), number(1))),
            Event::End,
            Event::Failure,
        ];
        for event in events {
            let (next, action) = handler.handle(state, event);
            assert_eq!(next, state);
            assert!(matches!(action, Action::Idle));
        }
    }
}

#[test]
fn ping_without_payload_gets_a_pong_without_payload() {
    let handler = handler();
    let (next, action) = handler.handle(State::Open, message(Opcode::Ping, b""));
    assert_eq!(next, State::Open);
    match action {
        Action::Send { opcode, payload } => {
            assert_eq!(opcode, Opcode::Pong);
            assert!(payload.is_empty());
        },
        other => panic!("expected a pong, got {:?}", other),
    }
}

#[test]
fn ping_is_answered_while_calls_are_running() {
    let handler = handler();
    let wire = br#"{"jsonrpc":"2.0","method":"add","params":[1,2],"id":1}"#;
    let (state, running) = handler.handle(State::Open, message(Opcode::Text, wire));
    let (state, action) = handler.handle(state, message(Opcode::Ping, b"abc"));
    match action {
        Action::Send { opcode, payload } => {
            assert_eq!(opcode, Opcode::Pong);
            assert_eq!(payload, b"abc".to_vec());
        },
        other => panic!("expected a pong, got {:?}", other),
    }
    match running {
        Action::Invoke { method, args, id } => {
            let response = respond(id, method(args)).unwrap();
            let (state, action) = handler.handle(state, Event::Outbound(response));
            assert_eq!(state, State::Open);
            assert!(matches!(action, Action::Send { opcode: Opcode::Text, .. }));
        },
        other => panic!("expected a method to run, got {:?}", other),
    }
}

#[test]
fn messages_on_an_open_connection_leave_it_open() {
    let handler = handler();
    let wires: Vec<&[u8]> = vec![
        b"{not json",
        br#"{"jsonrpc":"1.0","method":"add"}"#,
        br#"{"jsonrpc":"2.0","method":"nope","id":1}"#,
        br#"{"jsonrpc":"2.0","method":"add","params":[1,2]}"#,
    ];
    for wire in wires {
        let (next, _) = handler.handle(State::Open, message(Opcode::Text, wire));
        assert_eq!(next, State::Open);
    }
}

#[test]
fn call_with_a_null_id_is_answered_under_null() {
    let handler = handler();
    let request =
        Request::parse(br#"{"jsonrpc":"2.0","method":"add","params":[1,2],"id":null}"#).unwrap();
    let response = handler.call(request, run).unwrap();
    assert_eq!(response, Response::ok(number(3), Json::Null));
    assert_eq!(
        response.into_bytes().unwrap(),
        br#"{"jsonrpc":"2.0","result":3,"id":null}"#.to_vec()
    );
    let unknown = Request::parse(br#"{"jsonrpc":"2.0","method":"nope","id":null}"#).unwrap();
    let response = handler.call(unknown, run).unwrap();
    assert_eq!(response.failure().as_ref().unwrap().code(), -32601);
    assert_eq!(response.id(), &Some(Json::Null));
}

#[test]
fn register_under_many_names() {
    let mut handler: Handler<Method> = Handler::new();
    let names = ["a", "b", "c", "d", "e", "f", "g", "h"];
    for name in names {
        handler.register(vec![(name, one as Method)]);
    }
    handler.register(vec![("d", two as Method)]);
    for name in names {
        let expected = if name == "d" { number(2) } else { number(1) };
        assert_eq!(handler.lookup(name).unwrap()(vec![]), Ok(expected));
    }
    assert!(handler.lookup("i").is_none());
}
