use sonic_channel::protocol::{EventKind, Protocol, Request, Response, TriggerRequest};
use sonic_channel::{parse_server_config, remove_multiline, ChannelMode, Error, LangCode};

#[test]
fn format_channel_enums() {
    assert_eq!(String::from(ChannelMode::Search.as_str()), String::from("search"));
    assert_eq!(String::from(ChannelMode::Ingest.as_str()), String::from("ingest"));
    assert_eq!(String::from(ChannelMode::Control.as_str()), String::from("control"));
}

#[test]
fn mode_to_str_matches_as_str() {
    assert_eq!(ChannelMode::Search.to_str(), "search");
    assert_eq!(ChannelMode::Control.to_str(), "control");
}

#[test]
fn should_parse_protocol() {
    match parse_server_config("protocol(1)") {
        Ok(protocol) => assert_eq!(protocol, 1),
        _ => unreachable!(),
    }
}

#[test]
fn should_parse_buffer_size() {
    match parse_server_config("buffer_size(20000)") {
        Ok(buffer_size) => assert_eq!(buffer_size, 20000),
        _ => unreachable!(),
    }
}

#[test]
fn server_config_rejects_bad_payloads() {
    assert!(matches!(parse_server_config("buffer(abc)"), Err(Error::WrongResponse)));
    assert!(matches!(parse_server_config("buffer()"), Err(Error::WrongResponse)));
    assert!(matches!(parse_server_config("buffer"), Err(Error::WrongResponse)));
    assert!(matches!(parse_server_config("buffer(+5)"), Err(Error::WrongResponse)));
    assert!(matches!(
        parse_server_config("buffer(99999999999999999999999)"),
        Err(Error::WrongResponse)
    ));
    assert_eq!(parse_server_config("(7)").unwrap(), 7);
    assert_eq!(parse_server_config("a(12").unwrap(), 12);
}

#[test]
fn should_make_single_line() {
    let text = "
Hello
World
";

    let expected_text = "Hello World";
    assert_eq!(remove_multiline(text), expected_text);
}

#[test]
fn single_line_edge_cases() {
    assert_eq!(remove_multiline(""), "");
    assert_eq!(remove_multiline("one"), "one");
    assert_eq!(remove_multiline("a\r\nb\r\n"), "a b");
    assert_eq!(remove_multiline("a \nb"), "a b");
    assert_eq!(remove_multiline("a\n\n\nb"), "a b");
    assert_eq!(remove_multiline("\nSweet\nTeriyaki\nBeef\nSkewers\n"), "Sweet Teriyaki Beef Skewers");
    assert_eq!(remove_multiline("x\ry"), "x\ry");
}

fn line(req: &Request) -> String {
    Protocol::default().format_request(req)
}

#[test]
fn encodes_query_with_limit() {
    let req = Request::Query {
        collection: String::from("Search"),
        bucket: String::from("default"),
        terms: String::from("Beef"),
        offset: None,
        limit: Some(10),
        lang: None,
    };
    assert_eq!(line(&req), "QUERY Search default \"Beef\" LIMIT(10)\r\n");
}

#[test]
fn encodes_modifiers_in_fixed_order() {
    let req = Request::Query {
        collection: String::from("c"),
        bucket: String::from("b"),
        terms: String::from("t"),
        offset: Some(20),
        limit: Some(0),
        lang: LangCode::new("eng"),
    };
    assert_eq!(line(&req), "QUERY c b \"t\" LIMIT(0) OFFSET(20) LANG(eng)\r\n");
}

#[test]
fn encodes_every_verb() {
    assert_eq!(line(&Request::Quit), "QUIT\r\n");
    assert_eq!(line(&Request::Ping), "PING\r\n");
    assert_eq!(
        line(&Request::Start { mode: ChannelMode::Ingest, password: String::from("pw") }),
        "START ingest pw\r\n"
    );
    assert_eq!(
        line(&Request::Push {
            collection: String::from("c"),
            bucket: String::from("b"),
            object: String::from("o"),
            terms: String::from("one\ntwo"),
            lang: LangCode::new("rus"),
        }),
        "PUSH c b o \"one two\" LANG(rus)\r\n"
    );
    assert_eq!(
        line(&Request::Pop {
            collection: String::from("c"),
            bucket: String::from("b"),
            object: String::from("o"),
            terms: String::from("beef"),
        }),
        "POP c b o \"beef\"\r\n"
    );
    assert_eq!(
        line(&Request::Suggest {
            collection: String::from("c"),
            bucket: String::from("b"),
            word: String::from("Bee"),
            limit: Some(5),
        }),
        "SUGGEST c b \"Bee\" LIMIT(5)\r\n"
    );
    assert_eq!(
        line(&Request::List {
            collection: String::from("c"),
            bucket: String::from("b"),
            limit: Some(100),
            offset: Some(12345678901),
        }),
        "LIST c b LIMIT(100) OFFSET(12345678901)\r\n"
    );
    assert_eq!(
        line(&Request::Trigger(TriggerRequest::Consolidate)),
        "TRIGGER consolidate\r\n"
    );
    assert_eq!(
        line(&Request::Trigger(TriggerRequest::Backup(String::from("/tmp/b")))),
        "TRIGGER backup /tmp/b\r\n"
    );
    assert_eq!(
        line(&Request::Trigger(TriggerRequest::Restore(String::from("/tmp/b")))),
        "TRIGGER restore /tmp/b\r\n"
    );
}

#[test]
fn encodes_count_and_flush_levels() {
    let s = |x: &str| Some(String::from(x));
    let c = || String::from("c");
    assert_eq!(line(&Request::Count { collection: c(), bucket: None, object: None }), "COUNT c\r\n");
    assert_eq!(line(&Request::Count { collection: c(), bucket: s("b"), object: None }), "COUNT c b\r\n");
    assert_eq!(
        line(&Request::Count { collection: c(), bucket: s("b"), object: s("o") }),
        "COUNT c b o\r\n"
    );
    assert_eq!(line(&Request::Flush { collection: c(), bucket: None, object: None }), "FLUSHC c\r\n");
    assert_eq!(line(&Request::Flush { collection: c(), bucket: s("b"), object: None }), "FLUSHB c b\r\n");
    assert_eq!(
        line(&Request::Flush { collection: c(), bucket: s("b"), object: s("o") }),
        "FLUSHO c b o\r\n"
    );
}

#[test]
fn multiline_push_is_one_line() {
    let req = Request::Push {
        collection: String::from("Search"),
        bucket: String::from("push_multiline"),
        object: String::from("1"),
        terms: String::from("\nSweet\nTeriyaki\nBeef\nSkewers\n"),
        lang: None,
    };
    let out = line(&req);
    assert_eq!(out, "PUSH Search push_multiline 1 \"Sweet Teriyaki Beef Skewers\"\r\n");
    assert!(!out[..out.len() - 2].contains('\n'));
}

fn parse(l: &str) -> Result<Response, Error> {
    Protocol::default().parse_response(l)
}

#[test]
fn decodes_started() {
    match parse("STARTED search protocol(1) buffer(20000)\r\n") {
        Ok(Response::Started(p)) => {
            assert_eq!(p.protocol_version, 1);
            assert_eq!(p.max_buffer_size, 20000);
        }
        _ => unreachable!(),
    }
    assert!(matches!(parse("STARTED search protocol(1)\r\n"), Err(Error::WrongResponse)));
    assert!(matches!(
        parse("STARTED search protocol(300) buffer(1)\r\n"),
        Err(Error::WrongResponse)
    ));
    assert!(matches!(
        parse("STARTED search protocol(x) buffer(1)\r\n"),
        Err(Error::WrongResponse)
    ));
}

#[test]
fn decodes_simple_tokens() {
    assert!(matches!(parse("CONNECTED <sonic-server v1.4.0>\r\n"), Ok(Response::Connected)));
    assert!(matches!(parse("OK\r\n"), Ok(Response::Okay)));
    assert!(matches!(parse("ENDED quit\r\n"), Ok(Response::Ended)));
    assert!(matches!(parse("PONG\r\n"), Ok(Response::Pong)));
    assert!(matches!(parse("RESULT 42\r\n"), Ok(Response::Result(42))));
    assert!(matches!(parse("RESULT +5\r\n"), Ok(Response::Result(5))));
    assert!(matches!(parse("RESULT +\r\n"), Err(Error::WrongResponse)));
    assert!(matches!(parse("RESULT ++5\r\n"), Err(Error::WrongResponse)));
    assert!(matches!(parse("RESULT -5\r\n"), Err(Error::WrongResponse)));
    assert!(matches!(parse("RESULT forty\r\n"), Err(Error::WrongResponse)));
    assert!(matches!(parse("RESULT\r\n"), Err(Error::WrongResponse)));
    match parse("PENDING Bt2m2gYa\r\n") {
        Ok(Response::Pending(id)) => assert_eq!(id, "Bt2m2gYa"),
        _ => unreachable!(),
    }
    assert!(matches!(parse("PENDING\r\n"), Err(Error::WrongResponse)));
}

#[test]
fn decodes_events() {
    match parse("EVENT QUERY abcd obj1 obj2\r\n") {
        Ok(Response::Event(EventKind::Query, id, items)) => {
            assert_eq!(id, "abcd");
            assert_eq!(items, vec!["obj1", "obj2"]);
        }
        _ => unreachable!(),
    }
    match parse("EVENT SUGGEST id1\r\n") {
        Ok(Response::Event(EventKind::Suggest, id, items)) => {
            assert_eq!(id, "id1");
            assert!(items.is_empty());
        }
        _ => unreachable!(),
    }
    assert!(matches!(parse("EVENT LIST x w\r\n"), Ok(Response::Event(EventKind::List, _, _))));
    assert!(matches!(parse("EVENT OTHER x w\r\n"), Err(Error::WrongResponse)));
    assert!(matches!(parse("EVENT QUERY\r\n"), Err(Error::WrongResponse)));
}

#[test]
fn decodes_server_errors() {
    match parse("ERR unknown_command\r\n") {
        Err(Error::SonicServer(m)) => assert_eq!(m, "unknown_command"),
        _ => unreachable!(),
    }
    match parse("ERR invalid_format(PUSH  <collection>)\r\n") {
        Err(Error::SonicServer(m)) => assert_eq!(m, "invalid_format(PUSH <collection>)"),
        _ => unreachable!(),
    }
    assert!(matches!(parse("ERR\r\n"), Err(Error::WrongResponse)));
}

#[test]
fn rejects_unknown_and_empty_lines() {
    assert!(matches!(parse(""), Err(Error::WrongResponse)));
    assert!(matches!(parse("\r\n"), Err(Error::WrongResponse)));
    assert!(matches!(parse("HELLO\r\n"), Err(Error::WrongResponse)));
    assert!(matches!(parse("ok\r\n"), Err(Error::WrongResponse)));
}
