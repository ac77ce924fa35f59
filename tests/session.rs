use sonic_channel::protocol::{EventKind, Protocol, Request, Response, StartedPayload};
use sonic_channel::{
    ChannelMode, ChannelState, LangCode, CountCommand, CountRequest, Dest, Error, FlushCommand,
    FlushRequest, ListCommand, ListRequest, ObjDest, PingCommand, PopCommand, PopRequest,
    PushCommand, PushRequest, QueryCommand, QueryRequest, QuitCommand, ResponseReader,
    StartCommand, StartCommandResponse, StreamCommand, SuggestCommand, SuggestRequest,
    TriggerCommand, TriggerRequest, Version, UNINITIALIZED_MODE_MAX_BUFFER_SIZE,
};

fn encode<C: StreamCommand>(cmd: &C) -> String {
    Protocol::default().format_request(&cmd.request())
}

/// Feeds lines to a fresh reader until it yields a response.
fn read(lines: &[&str]) -> Option<Result<Response, Error>> {
    let protocol = Protocol::default();
    let mut reader = ResponseReader::new();
    for l in lines {
        if let Some(r) = reader.feed(&protocol, l) {
            return Some(r);
        }
    }
    None
}

#[test]
fn destinations_keep_their_parts() {
    let dest = Dest::col_buc("wiki", "user:1");
    assert_eq!(dest.collection(), "wiki");
    assert_eq!(dest.bucket_opt(), Some(&String::from("user:1")));
    let dest = Dest::col("wiki");
    assert_eq!(dest.bucket_opt(), None);
    let dest = Dest::col("wiki").buc("user:1").obj("article:1");
    assert_eq!(dest.collection(), "wiki");
    assert_eq!(dest.bucket_opt(), Some(&String::from("user:1")));
    assert_eq!(dest.object(), "article:1");
    let dest = ObjDest::new(Dest::col("wiki"), "article:1");
    assert_eq!(dest.bucket_opt(), None);
    assert_eq!(dest.bucket(), "default");
}

#[test]
fn query_scenario_line() {
    let req = QueryRequest::new(Dest::col_buc("Search", "default"), "Beef").limit(10);
    assert_eq!(encode(&QueryCommand { req }), "QUERY Search default \"Beef\" LIMIT(10)\r\n");
}

#[test]
fn query_defaults_bucket_and_pages() {
    let req = QueryRequest::new(Dest::col("Search"), "Beef").pag(2, 10).lang(LangCode::new("eng").unwrap());
    assert_eq!(
        encode(&QueryCommand { req }),
        "QUERY Search default \"Beef\" LIMIT(10) OFFSET(20) LANG(eng)\r\n"
    );
    let req = QueryRequest::new(Dest::col("c"), "a\nb").offset(3);
    assert_eq!(encode(&QueryCommand { req }), "QUERY c default \"a b\" OFFSET(3)\r\n");
}

#[test]
fn detected_language_only_fills_a_gap() {
    let code = |l: &Option<LangCode>| l.as_ref().map(|c| c.as_str().to_string());
    let req = QueryRequest::new(Dest::col("c"), "t").or_detected(LangCode::new("fra"));
    assert_eq!(code(&req.lang), Some(String::from("fra")));
    let req = QueryRequest::new(Dest::col("c"), "t")
        .lang(LangCode::new("eng").unwrap())
        .or_detected(LangCode::new("fra"));
    assert_eq!(code(&req.lang), Some(String::from("eng")));
    let dest = Dest::col_buc("c", "b").obj("o");
    let req = PushRequest::new(dest, "t").or_detected(None);
    assert!(req.lang.is_none());
}

#[test]
fn language_codes_are_lowercase_letters() {
    assert_eq!(LangCode::new("rus").unwrap().as_str(), "rus");
    assert!(LangCode::new("").is_none());
    assert!(LangCode::new("en g").is_none());
    assert!(LangCode::new("eng\n").is_none());
    assert!(LangCode::new("Eng").is_none());
    assert!(LangCode::new("e\"g").is_none());
    let a = LangCode::new("deu").unwrap();
    assert_eq!(a.clone(), a);
}

#[test]
fn push_round_trips_its_parts() {
    let dest = Dest::col_buc("Search", "recipes").obj("recipe:1");
    let req = PushRequest::new(dest, "Sweet\nTeriyaki\n\nBeef\r\nSkewers");
    let out = encode(&PushCommand { req });
    assert_eq!(out, "PUSH Search recipes recipe:1 \"Sweet Teriyaki Beef Skewers\"\r\n");
    let words: Vec<&str> = out.split_whitespace().collect();
    assert_eq!(&words[..4], &["PUSH", "Search", "recipes", "recipe:1"]);
    let first = out.find('"').unwrap();
    let last = out.rfind('"').unwrap();
    assert_eq!(&out[first + 1..last], "Sweet Teriyaki Beef Skewers");
    assert!(!out[..out.len() - 2].contains('\n'));
}

#[test]
fn push_with_language_and_default_bucket() {
    let dest = Dest::col("Search").obj("2");
    let req = PushRequest::new(dest, "Открытый пирог").lang(LangCode::new("rus").unwrap());
    assert_eq!(
        encode(&PushCommand { req }),
        "PUSH Search default 2 \"Открытый пирог\" LANG(rus)\r\n"
    );
}

#[test]
fn ingest_requests_encode() {
    let dest = Dest::col_buc("c", "b").obj("o");
    let req = PopRequest::new(dest, "beef");
    assert_eq!(encode(&PopCommand { req }), "POP c b o \"beef\"\r\n");
    assert_eq!(encode(&CountCommand { req: CountRequest::buckets("c") }), "COUNT c\r\n");
    assert_eq!(encode(&CountCommand { req: CountRequest::objects("c", "b") }), "COUNT c b\r\n");
    assert_eq!(
        encode(&CountCommand { req: CountRequest::words("c", "b", "o") }),
        "COUNT c b o\r\n"
    );
    assert_eq!(
        encode(&CountCommand { req: CountRequest::from_obj_dest(Dest::col("c").obj("o")) }),
        "COUNT c default o\r\n"
    );
    assert_eq!(
        encode(&CountCommand { req: CountRequest::from_dest(Dest::col_buc("c", "b")) }),
        "COUNT c b\r\n"
    );
    assert_eq!(encode(&FlushCommand { req: FlushRequest::collection("c") }), "FLUSHC c\r\n");
    assert_eq!(encode(&FlushCommand { req: FlushRequest::bucket("c", "b") }), "FLUSHB c b\r\n");
    assert_eq!(
        encode(&FlushCommand { req: FlushRequest::object("c", "b", "o") }),
        "FLUSHO c b o\r\n"
    );
    assert_eq!(
        encode(&FlushCommand { req: FlushRequest::from_dest(Dest::col("c")) }),
        "FLUSHC c\r\n"
    );
    assert_eq!(
        encode(&FlushCommand { req: FlushRequest::from_obj_dest(Dest::col_buc("c", "b").obj("o")) }),
        "FLUSHO c b o\r\n"
    );
}

#[test]
fn search_and_control_requests_encode() {
    let req = SuggestRequest::new(Dest::col_buc("c", "b"), "Beff").limit(3);
    assert_eq!(encode(&SuggestCommand { req }), "SUGGEST c b \"Beff\" LIMIT(3)\r\n");
    let req = ListRequest::new(Dest::col("c")).limit(2).offset(1);
    assert_eq!(encode(&ListCommand { req }), "LIST c default LIMIT(2) OFFSET(1)\r\n");
    assert_eq!(encode(&PingCommand), "PING\r\n");
    assert_eq!(encode(&QuitCommand), "QUIT\r\n");
    let cmd = TriggerCommand { req: TriggerRequest::Consolidate };
    assert_eq!(encode(&cmd), "TRIGGER consolidate\r\n");
    let cmd = TriggerCommand { req: TriggerRequest::Backup("/data/b") };
    assert_eq!(encode(&cmd), "TRIGGER backup /data/b\r\n");
    let cmd = TriggerCommand { req: TriggerRequest::Restore("/data/b") };
    assert_eq!(encode(&cmd), "TRIGGER restore /data/b\r\n");
    let cmd = StartCommand { mode: ChannelMode::Search, password: String::from("secret") };
    assert_eq!(encode(&cmd), "START search secret\r\n");
}

#[test]
fn pending_then_event_gives_items() {
    match read(&["PENDING abcd\r\n", "EVENT QUERY abcd obj1 obj2\r\n"]) {
        Some(Ok(res)) => {
            let cmd = QueryCommand { req: QueryRequest::new(Dest::col("c"), "t") };
            assert_eq!(cmd.receive(res).unwrap(), vec!["obj1", "obj2"]);
        }
        _ => unreachable!(),
    }
}

#[test]
fn suggest_and_list_read_their_events() {
    let res = read(&["PENDING x\r\n", "EVENT SUGGEST x beef beet\r\n"]).unwrap().unwrap();
    let cmd = SuggestCommand { req: SuggestRequest::new(Dest::col("c"), "bee") };
    assert_eq!(cmd.receive(res).unwrap(), vec!["beef", "beet"]);
    let res = read(&["PENDING y\r\n", "EVENT LIST y a b c\r\n"]).unwrap().unwrap();
    let cmd = ListCommand { req: ListRequest::new(Dest::col("c")) };
    assert_eq!(cmd.receive(res).unwrap(), vec!["a", "b", "c"]);
    let res = read(&["PENDING y\r\n", "EVENT LIST y a\r\n"]).unwrap().unwrap();
    let cmd = QueryCommand { req: QueryRequest::new(Dest::col("c"), "t") };
    assert!(matches!(cmd.receive(res), Err(Error::WrongResponse)));
}

#[test]
fn mismatched_event_id_fails() {
    assert!(matches!(
        read(&["PENDING abcd\r\n", "EVENT QUERY wxyz obj1 obj2\r\n"]),
        Some(Err(Error::CorrelationMismatch))
    ));
}

#[test]
fn reader_waits_after_pending() {
    let protocol = Protocol::default();
    let mut reader = ResponseReader::new();
    assert!(reader.feed(&protocol, "PENDING abcd\r\n").is_none());
    assert!(reader.feed(&protocol, "PENDING other\r\n").is_none());
    match reader.feed(&protocol, "EVENT QUERY abcd 1\r\n") {
        Some(Ok(Response::Event(EventKind::Query, id, items))) => {
            assert_eq!(id, "abcd");
            assert_eq!(items, vec!["1"]);
        }
        _ => unreachable!(),
    }
    assert!(matches!(read(&["PENDING a\r\n", "OK\r\n"]), Some(Err(Error::WrongResponse))));
    assert!(read(&["PENDING a\r\n"]).is_none());
}

#[test]
fn server_error_at_any_point() {
    match read(&["ERR unknown_command\r\n"]) {
        Some(Err(Error::SonicServer(m))) => assert_eq!(m, "unknown_command"),
        _ => unreachable!(),
    }
    match read(&["PENDING abcd\r\n", "ERR unknown_command\r\n"]) {
        Some(Err(Error::SonicServer(m))) => assert_eq!(m, "unknown_command"),
        _ => unreachable!(),
    }
}

#[test]
fn simple_commands_read_their_markers() {
    assert!(PingCommand.receive(Response::Pong).is_ok());
    assert!(matches!(PingCommand.receive(Response::Okay), Err(Error::WrongResponse)));
    assert!(QuitCommand.receive(Response::Ended).is_ok());
    assert!(matches!(QuitCommand.receive(Response::Pong), Err(Error::WrongResponse)));
    let push = PushCommand { req: PushRequest::new(Dest::col("c").obj("o"), "t") };
    assert!(push.receive(Response::Okay).is_ok());
    assert!(matches!(push.receive(Response::Result(1)), Err(Error::WrongResponse)));
    let pop = PopCommand { req: PopRequest::new(Dest::col("c").obj("o"), "t") };
    assert_eq!(pop.receive(Response::Result(3)).unwrap(), 3);
    assert!(matches!(pop.receive(Response::Okay), Err(Error::WrongResponse)));
    let count = CountCommand { req: CountRequest::buckets("c") };
    assert_eq!(count.receive(Response::Result(7)).unwrap(), 7);
    let flush = FlushCommand { req: FlushRequest::collection("c") };
    assert_eq!(flush.receive(Response::Result(0)).unwrap(), 0);
    let trigger = TriggerCommand { req: TriggerRequest::Consolidate };
    assert!(trigger.receive(Response::Okay).is_ok());
}

#[test]
fn start_reads_started_payload() {
    let res = read(&["STARTED search protocol(1) buffer(20000)\r\n"]).unwrap().unwrap();
    let cmd = StartCommand { mode: ChannelMode::Search, password: String::from("pw") };
    let started = cmd.receive(res).unwrap();
    assert_eq!(
        started,
        StartCommandResponse {
            protocol_version: Version::V1,
            max_buffer_size: 20000,
            mode: ChannelMode::Search
        }
    );
    let bad = Response::Started(StartedPayload { protocol_version: 2, max_buffer_size: 1 });
    assert!(matches!(cmd.receive(bad), Err(Error::SwitchMode)));
    assert!(matches!(cmd.receive(Response::Okay), Err(Error::SwitchMode)));
}

#[test]
fn connect_needs_greeting() {
    let protocol = Protocol::default();
    let state = ChannelState::connect(&protocol, "CONNECTED <sonic-server v1.4.0>\r\n").unwrap();
    assert_eq!(state, ChannelState::Uninitialized);
    assert_eq!(state.max_buffer_size(), UNINITIALIZED_MODE_MAX_BUFFER_SIZE);
    assert_eq!(state.max_buffer_size(), 200);
    assert_eq!(state.mode(), None);
    for l in ["STARTED search protocol(1) buffer(1)\r\n", "ERR busy\r\n", "garbage\r\n", ""] {
        assert!(matches!(ChannelState::connect(&protocol, l), Err(Error::ConnectToServer)));
    }
}

#[test]
fn start_happens_once() {
    let mut state = ChannelState::Uninitialized;
    let cmd = state.start_command(ChannelMode::Ingest, "pw").unwrap();
    assert_eq!(cmd.mode, ChannelMode::Ingest);
    assert_eq!(cmd.password, "pw");
    let started = StartCommandResponse {
        protocol_version: Version::V1,
        max_buffer_size: 20000,
        mode: ChannelMode::Ingest,
    };
    assert!(state.start(Ok(started)).is_ok());
    assert_eq!(state.max_buffer_size(), 20000);
    assert_eq!(state.mode(), Some(ChannelMode::Ingest));
    assert_eq!(state.protocol().version, Version::V1);
    let before = state;
    assert!(matches!(state.start_command(ChannelMode::Search, "pw"), Err(Error::SwitchMode)));
    let again = StartCommandResponse {
        protocol_version: Version::V1,
        max_buffer_size: 5,
        mode: ChannelMode::Search,
    };
    assert!(matches!(state.start(Ok(again)), Err(Error::SwitchMode)));
    assert_eq!(state, before);
}

#[test]
fn failed_start_can_be_retried() {
    let mut state = ChannelState::Uninitialized;
    assert!(matches!(
        state.start(Err(Error::SonicServer(String::from("bad_password")))),
        Err(Error::SwitchMode)
    ));
    assert_eq!(state, ChannelState::Uninitialized);
    assert!(matches!(state.start(Err(Error::ReadStream)), Err(Error::ReadStream)));
    assert!(matches!(state.start(Err(Error::WrongResponse)), Err(Error::SwitchMode)));
    assert!(state.start_command(ChannelMode::Search, "pw").is_ok());
}

#[test]
fn versions_and_codecs() {
    assert_eq!(Version::try_from(1u8), Ok(Version::V1));
    assert!(Version::try_from(0u8).is_err());
    assert_eq!(Protocol::from(Version::V1).version, Version::V1);
    assert_eq!(Protocol::default().version, Version::default());
    let r = Request::Ping;
    assert!(matches!(r, Request::Ping));
}

#[test]
fn error_messages() {
    assert_eq!(Error::ConnectToServer.message(), "Cannot connect to server");
    assert_eq!(
        Error::SonicServer(String::from("x")).message(),
        "Sonic Server-side error: x"
    );
    assert_eq!(
        Error::UnsupportedCommand(("push", Some(ChannelMode::Search))).message(),
        "You cannot use `push` command in search sonic channel mode"
    );
    assert_eq!(
        Error::UnsupportedCommand(("push", None)).message(),
        "You need to connect to sonic channel before use push command"
    );
    assert_eq!(Error::QueryResponse("bad").message(), "Error in query response: bad");
    assert_eq!(
        Error::WrongResponse.message(),
        "Client cannot parse response from sonic server. Please write an issue to github (https://github.com/pleshevskiy/sonic-channel)."
    );
    assert_eq!(
        sonic_channel::SonicError::QueryResponseError("bad").message(),
        "Error in query response: bad"
    );
    assert_eq!(sonic_channel::SonicError::SwitchMode.message(), "Cannot switch channel mode");
}
