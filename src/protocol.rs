use crate::channel::{mode_name, ChannelMode};
use crate::result::{result_view, Error, ErrorView};
use crate::commands::{PushCommand, PushRequest, StreamCommand};
use crate::misc::{is_lang_code, lang_valid, LangCode, ObjDest};
use crate::text::{
    chars_of, decimal, free_of, is_token, join_from, join_spaced, lemma_decimal_digits,
    lemma_free_of_concat, lemma_single_line_no_newline, lemma_words_token_prefix,
    lemma_words_ws_prefix, count_of, number_of, parse_count, parse_usize, push_decimal, remove_multiline, same_text,
    single_line, split_words, words, ws_led,
};
use vstd::prelude::*;

verus! {

/// Protocol versions this client speaks.
#[derive(Debug, Clone, Copy, PartialEq, Eq, Structural)]
pub enum Version {
    V1,
}

impl Default for Version {
    fn default() -> (r: Version)
        ensures
            r == Version::V1,
    {
        Version::V1
    }
}

impl Version {
    /// The version with number `value`, where this client knows it.
    pub fn try_from(value: u8) -> (r: Result<Version, ()>)
        ensures
            value == 1 ==> r == Ok::<Version, ()>(Version::V1),
            value != 1 ==> r is Err,
    {
        if value == 1 {
            Ok(Version::V1)
        } else {
            Err(())
        }
    }
}

/// The codec of one protocol version.
#[derive(Debug)]
pub struct Protocol {
    pub version: Version,
}

impl Default for Protocol {
    fn default() -> (r: Protocol)
        ensures
            r.version == Version::V1,
    {
        Protocol { version: Version::V1 }
    }
}

impl From<Version> for Protocol {
    fn from(version: Version) -> (r: Protocol) {
        Protocol { version }
    }
}

impl vstd::std_specs::convert::FromSpecImpl<Version> for Protocol {
    open spec fn obeys_from_spec() -> bool {
        true
    }

    open spec fn from_spec(v: Version) -> Protocol {
        Protocol { version: v }
    }
}

impl Protocol {
    /// The codec of `version`.
    pub fn from_version(version: Version) -> (r: Protocol)
        ensures
            r.version == version,
    {
        Protocol { version }
    }
}

/// The id that ties a deferred result to its acknowledgment.
pub type EventId = String;

/// One decoded server line.
#[derive(Debug)]
pub enum Response {
    Okay,
    Ended,
    Connected,
    Pending(EventId),
    Pong,
    Started(StartedPayload),
    Result(usize),
    Event(EventKind, EventId, Vec<String>),
}

/// What the server advertises when a mode starts.
#[derive(Debug, Clone, Copy, PartialEq, Eq, Structural)]
pub struct StartedPayload {
    pub protocol_version: u8,
    pub max_buffer_size: usize,
}

/// The command a deferred result belongs to.
#[derive(Debug, Clone, Copy, PartialEq, Eq, Structural)]
pub enum EventKind {
    Suggest,
    Query,
    List,
}

/// `Response` with its strings as character sequences.
pub enum ResponseView {
    Okay,
    Ended,
    Connected,
    Pending(Seq<char>),
    Pong,
    Started(StartedPayload),
    Result(usize),
    Event(EventKind, Seq<char>, Seq<Seq<char>>),
}

/// The views of a vector of strings.
pub open spec fn strings_view(v: Vec<String>) -> Seq<Seq<char>> {
    v@.map_values(|s: String| s@)
}

impl View for Response {
    type V = ResponseView;

    open spec fn view(&self) -> ResponseView {
        match self {
            Response::Okay => ResponseView::Okay,
            Response::Ended => ResponseView::Ended,
            Response::Connected => ResponseView::Connected,
            Response::Pending(id) => ResponseView::Pending(id@),
            Response::Pong => ResponseView::Pong,
            Response::Started(p) => ResponseView::Started(*p),
            Response::Result(n) => ResponseView::Result(*n),
            Response::Event(k, id, items) => ResponseView::Event(*k, id@, strings_view(*items)),
        }
    }
}

/// What a client asks of the server.
#[derive(Debug)]
#[allow(inconsistent_fields)]
pub enum Request {
    Start { mode: ChannelMode, password: String },
    Quit,
    Ping,
    Trigger(TriggerRequest),
    Suggest { collection: String, bucket: String, word: String, limit: Option<usize> },
    Query {
        collection: String,
        bucket: String,
        terms: String,
        offset: Option<usize>,
        limit: Option<usize>,
        lang: Option<LangCode>,
    },
    Push { collection: String, bucket: String, object: String, terms: String, lang: Option<LangCode> },
    Pop { collection: String, bucket: String, object: String, terms: String },
    Flush { collection: String, bucket: Option<String>, object: Option<String> },
    Count { collection: String, bucket: Option<String>, object: Option<String> },
    List { collection: String, bucket: String, limit: Option<usize>, offset: Option<usize> },
}

/// An administrative action.
#[derive(Debug)]
pub enum TriggerRequest {
    Consolidate,
    Backup(String),
    Restore(String),
}

/// A request can be written: an object is only ever named with its bucket.
pub open spec fn request_wf(req: Request) -> bool {
    match req {
        Request::Flush { bucket, object, .. } => object is Some ==> bucket is Some,
        Request::Count { bucket, object, .. } => object is Some ==> bucket is Some,
        _ => true,
    }
}

/// A free-text argument: on one line, in double quotes.
pub open spec fn quoted(t: Seq<char>) -> Seq<char> {
    "\""@ + single_line(t) + "\""@
}

/// An optional numeric modifier such as ` LIMIT(10)`; empty where absent.
pub open spec fn modifier(open: Seq<char>, v: Option<usize>) -> Seq<char> {
    match v {
        Some(n) => open + decimal(n as nat) + ")"@,
        None => seq![],
    }
}

/// The optional language modifier ` LANG(code)`; empty where absent.
pub open spec fn lang_modifier(lang: Option<LangCode>) -> Seq<char> {
    match lang {
        Some(l) => " LANG("@ + l@ + ")"@,
        None => seq![],
    }
}

/// A request as one wire line, without its line ending.
pub open spec fn request_body(req: Request) -> Seq<char> {
    match req {
        Request::Quit => "QUIT"@,
        Request::Ping => "PING"@,
        Request::Start { mode, password } => "START "@ + mode_name(mode) + " "@ + password@,
        Request::Count { collection, bucket, object } => match (bucket, object) {
            (Some(b), Some(o)) => "COUNT "@ + collection@ + " "@ + b@ + " "@ + o@,
            (Some(b), None) => "COUNT "@ + collection@ + " "@ + b@,
            _ => "COUNT "@ + collection@,
        },
        Request::Flush { collection, bucket, object } => match (bucket, object) {
            (Some(b), Some(o)) => "FLUSHO "@ + collection@ + " "@ + b@ + " "@ + o@,
            (Some(b), None) => "FLUSHB "@ + collection@ + " "@ + b@,
            _ => "FLUSHC "@ + collection@,
        },
        Request::Pop { collection, bucket, object, terms } => "POP "@ + collection@ + " "@ + bucket@
            + " "@ + object@ + " "@ + quoted(terms@),
        Request::Push { collection, bucket, object, terms, lang } => "PUSH "@ + collection@ + " "@
            + bucket@ + " "@ + object@ + " "@ + quoted(terms@) + lang_modifier(lang),
        Request::Query { collection, bucket, terms, offset, limit, lang } => "QUERY "@ + collection@
            + " "@ + bucket@ + " "@ + quoted(terms@) + modifier(" LIMIT("@, limit) + modifier(
            " OFFSET("@,
            offset,
        ) + lang_modifier(lang),
        Request::Suggest { collection, bucket, word, limit } => "SUGGEST "@ + collection@ + " "@
            + bucket@ + " "@ + quoted(word@) + modifier(" LIMIT("@, limit),
        Request::List { collection, bucket, limit, offset } => "LIST "@ + collection@ + " "@ + bucket@
            + modifier(" LIMIT("@, limit) + modifier(" OFFSET("@, offset),
        Request::Trigger(TriggerRequest::Consolidate) => "TRIGGER consolidate"@,
        Request::Trigger(TriggerRequest::Backup(p)) => "TRIGGER backup "@ + p@,
        Request::Trigger(TriggerRequest::Restore(p)) => "TRIGGER restore "@ + p@,
    }
}

/// A request as it is sent: one line ended by CRLF.
pub open spec fn request_line(req: Request) -> Seq<char> {
    request_body(req) + "\r\n"@
}

/// A push or query request whose identifiers hold no line feed.
pub open spec fn text_request_ids_one_line(req: Request) -> bool {
    match req {
        Request::Push { collection, bucket, object, .. } => free_of(collection@, '\n') && free_of(
            bucket@,
            '\n',
        ) && free_of(object@, '\n'),
        Request::Query { collection, bucket, .. } => free_of(collection@, '\n') && free_of(
            bucket@,
            '\n',
        ),
        _ => false,
    }
}

/// Whether `c` separates the parts of a `name(value)` field.
pub open spec fn is_paren(c: char) -> bool {
    c == '(' || c == ')'
}

/// Index of the first parenthesis in `s`, or its length where it has none.
pub open spec fn first_paren(s: Seq<char>) -> nat
    decreases s.len(),
{
    if s.len() == 0 || is_paren(s[0]) {
        0
    } else {
        1 + first_paren(s.drop_first())
    }
}

/// The number inside a `name(value)` field such as `buffer(20000)`: the text
/// between the first parenthesis and the next one (or the end), read as a
/// decimal number.
pub open spec fn config_number(raw: Seq<char>) -> Option<usize> {
    let i = first_paren(raw);
    if i >= raw.len() {
        None
    } else {
        let rest = raw.skip((i + 1) as int);
        number_of(rest.take(first_paren(rest) as int))
    }
}

/// The kind named by the second word of an `EVENT` line.
pub open spec fn event_kind_of(w: Seq<char>) -> Option<EventKind> {
    if w == "QUERY"@ {
        Some(EventKind::Query)
    } else if w == "SUGGEST"@ {
        Some(EventKind::Suggest)
    } else if w == "LIST"@ {
        Some(EventKind::List)
    } else {
        None
    }
}

/// How one server line decodes: by its first word, as the protocol's table
/// of responses gives it.
pub open spec fn parse_line(line: Seq<char>) -> Result<ResponseView, ErrorView> {
    let w = words(line);
    if w.len() == 0 {
        Err(ErrorView::WrongResponse)
    } else if w[0] == "STARTED"@ {
        if w.len() >= 4 {
            match (config_number(w[2]), config_number(w[3])) {
                (Some(p), Some(b)) => if p <= 255 {
                    Ok(
                        ResponseView::Started(
                            StartedPayload { protocol_version: p as u8, max_buffer_size: b },
                        ),
                    )
                } else {
                    Err(ErrorView::WrongResponse)
                },
                _ => Err(ErrorView::WrongResponse),
            }
        } else {
            Err(ErrorView::WrongResponse)
        }
    } else if w[0] == "PENDING"@ {
        if w.len() >= 2 {
            Ok(ResponseView::Pending(w[1]))
        } else {
            Err(ErrorView::WrongResponse)
        }
    } else if w[0] == "RESULT"@ {
        if w.len() >= 2 {
            match count_of(w[1]) {
                Some(n) => Ok(ResponseView::Result(n)),
                None => Err(ErrorView::WrongResponse),
            }
        } else {
            Err(ErrorView::WrongResponse)
        }
    } else if w[0] == "EVENT"@ {
        if w.len() >= 3 {
            match event_kind_of(w[1]) {
                Some(k) => Ok(ResponseView::Event(k, w[2], w.skip(3))),
                None => Err(ErrorView::WrongResponse),
            }
        } else {
            Err(ErrorView::WrongResponse)
        }
    } else if w[0] == "OK"@ {
        Ok(ResponseView::Okay)
    } else if w[0] == "ENDED"@ {
        Ok(ResponseView::Ended)
    } else if w[0] == "CONNECTED"@ {
        Ok(ResponseView::Connected)
    } else if w[0] == "PONG"@ {
        Ok(ResponseView::Pong)
    } else if w[0] == "ERR"@ {
        if w.len() >= 2 {
            Err(ErrorView::SonicServer(join_spaced(w.skip(1))))
        } else {
            Err(ErrorView::WrongResponse)
        }
    } else {
        Err(ErrorView::WrongResponse)
    }
}

fn push_quoted(s: &mut String, text: &String)
    ensures
        final(s)@ == old(s)@ + quoted(text@),
{
    s.append("\"");
    let one = remove_multiline(text.as_str());
    s.append(one.as_str());
    s.append("\"");
    assert(final(s)@ =~= old(s)@ + quoted(text@));
}

fn push_modifier(s: &mut String, open: &str, v: Option<usize>)
    ensures
        final(s)@ == old(s)@ + modifier(open@, v),
{
    match v {
        Some(n) => {
            s.append(open);
            push_decimal(s, n);
            s.append(")");
            assert(final(s)@ =~= old(s)@ + modifier(open@, v));
        },
        None => {
            assert(final(s)@ =~= old(s)@ + modifier(open@, v));
        },
    }
}

fn push_lang(s: &mut String, lang: &Option<LangCode>)
    ensures
        final(s)@ == old(s)@ + lang_modifier(*lang),
        lang_valid(*lang),
{
    match lang {
        Some(l) => {
            s.append(" LANG(");
            s.append(l.as_str());
            s.append(")");
            assert(final(s)@ =~= old(s)@ + lang_modifier(*lang));
        },
        None => {
            assert(final(s)@ =~= old(s)@ + lang_modifier(*lang));
        },
    }
}

/// Appends `a`, a space and `b`.
fn push_pair(s: &mut String, a: &str, b: &str)
    ensures
        final(s)@ == old(s)@ + a@ + " "@ + b@,
{
    s.append(a);
    s.append(" ");
    s.append(b);
    assert(final(s)@ =~= old(s)@ + a@ + " "@ + b@);
}

fn parse_config_chars(raw: &str) -> (r: Option<usize>)
    ensures
        r == config_number(raw@),
{
    let cs = chars_of(raw);
    let n = cs.len();
    let mut i: usize = 0;
    assert(raw@.skip(0) =~= raw@);
    while i < n && cs[i] != '(' && cs[i] != ')'
        invariant
            cs@ == raw@,
            n == cs.len(),
            i <= n,
            first_paren(raw@) == i + first_paren(raw@.skip(i as int)),
        decreases n - i,
    {
        assert(raw@.skip(i as int).drop_first() =~= raw@.skip(i + 1));
        i = i + 1;
    }
    if i >= n {
        return None;
    }
    let ghost rest = raw@.skip(i + 1);
    let mut j: usize = i + 1;
    assert(rest =~= raw@.skip(j as int));
    while j < n && cs[j] != '(' && cs[j] != ')'
        invariant
            cs@ == raw@,
            n == cs.len(),
            i < j <= n,
            rest == raw@.skip(i + 1),
            first_paren(rest) == (j - i - 1) + first_paren(raw@.skip(j as int)),
        decreases n - j,
    {
        assert(raw@.skip(j as int).drop_first() =~= raw@.skip(j + 1));
        j = j + 1;
    }
    assert(rest.take(j - i - 1) =~= raw@.subrange(i + 1, j as int));
    parse_usize(raw.substring_char(i + 1, j))
}

/// Reads the number of a `name(value)` field such as `protocol(1)`.
pub fn parse_server_config(raw: &str) -> (r: Result<usize, Error>)
    ensures
        result_view(r) == match config_number(raw@) {
            Some(n) => Ok(n),
            None => Err(ErrorView::WrongResponse),
        },
{
    match parse_config_chars(raw) {
        Some(n) => Ok(n),
        None => Err(Error::WrongResponse),
    }
}

impl Protocol {
    /// Writes `req` as one wire line, ended by CRLF.
    pub fn format_request(&self, req: &Request) -> (r: String)
        requires
            request_wf(*req),
        ensures
            r@ == request_line(*req),
            text_request_ids_one_line(*req) ==> free_of(request_body(*req), '\n'),
    {
        let mut s = String::new();
        match req {
            Request::Quit => s.append("QUIT"),
            Request::Ping => s.append("PING"),
            Request::Start { mode, password } => {
                s.append("START ");
                push_pair(&mut s, mode.as_str(), password.as_str());
            },
            Request::Count { collection, bucket, object } => {
                s.append("COUNT ");
                s.append(collection.as_str());
                match (bucket, object) {
                    (Some(b), Some(o)) => {
                        s.append(" ");
                        push_pair(&mut s, b.as_str(), o.as_str());
                    },
                    (Some(b), None) => {
                        s.append(" ");
                        s.append(b.as_str());
                    },
                    _ => {},
                }
            },
            Request::Flush { collection, bucket, object } => {
                match (bucket, object) {
                    (Some(b), Some(o)) => {
                        s.append("FLUSHO ");
                        push_pair(&mut s, collection.as_str(), b.as_str());
                        s.append(" ");
                        s.append(o.as_str());
                    },
                    (Some(b), None) => {
                        s.append("FLUSHB ");
                        push_pair(&mut s, collection.as_str(), b.as_str());
                    },
                    _ => {
                        s.append("FLUSHC ");
                        s.append(collection.as_str());
                    },
                }
            },
            Request::Pop { collection, bucket, object, terms } => {
                s.append("POP ");
                push_pair(&mut s, collection.as_str(), bucket.as_str());
                s.append(" ");
                s.append(object.as_str());
                s.append(" ");
                push_quoted(&mut s, terms);
            },
            Request::Push { collection, bucket, object, terms, lang } => {
                s.append("PUSH ");
                push_pair(&mut s, collection.as_str(), bucket.as_str());
                s.append(" ");
                s.append(object.as_str());
                s.append(" ");
                push_quoted(&mut s, terms);
                push_lang(&mut s, lang);
                proof {
                    if text_request_ids_one_line(*req) {
                        lemma_text_request_one_line(*req);
                    }
                }
            },
            Request::Query { collection, bucket, terms, offset, limit, lang } => {
                s.append("QUERY ");
                push_pair(&mut s, collection.as_str(), bucket.as_str());
                s.append(" ");
                push_quoted(&mut s, terms);
                push_modifier(&mut s, " LIMIT(", *limit);
                push_modifier(&mut s, " OFFSET(", *offset);
                push_lang(&mut s, lang);
                proof {
                    if text_request_ids_one_line(*req) {
                        lemma_text_request_one_line(*req);
                    }
                }
            },
            Request::Suggest { collection, bucket, word, limit } => {
                s.append("SUGGEST ");
                push_pair(&mut s, collection.as_str(), bucket.as_str());
                s.append(" ");
                push_quoted(&mut s, word);
                push_modifier(&mut s, " LIMIT(", *limit);
            },
            Request::List { collection, bucket, limit, offset } => {
                s.append("LIST ");
                push_pair(&mut s, collection.as_str(), bucket.as_str());
                push_modifier(&mut s, " LIMIT(", *limit);
                push_modifier(&mut s, " OFFSET(", *offset);
            },
            Request::Trigger(TriggerRequest::Consolidate) => s.append("TRIGGER consolidate"),
            Request::Trigger(TriggerRequest::Backup(p)) => {
                s.append("TRIGGER backup ");
                s.append(p.as_str());
            },
            Request::Trigger(TriggerRequest::Restore(p)) => {
                s.append("TRIGGER restore ");
                s.append(p.as_str());
            },
        }
        assert(s@ =~= request_body(*req));
        s.append("\r\n");
        s
    }

    /// Decodes one server line (its line ending, if any, is whitespace).
    pub fn parse_response(&self, line: &str) -> (r: Result<Response, Error>)
        ensures
            result_view(r) == parse_line(line@),
    {
        let ws = split_words(line);
        let ghost w = words(line@);
        assert(strings_view(ws) == w);
        if ws.len() == 0 {
            return Err(Error::WrongResponse);
        }
        assert(w[0] == ws@[0]@);
        let head = ws[0].as_str();
        if same_text(head, "STARTED") {
            if ws.len() >= 4 {
                assert(w[2] == ws@[2]@ && w[3] == ws@[3]@);
                match (parse_config_chars(ws[2].as_str()), parse_config_chars(ws[3].as_str())) {
                    (Some(p), Some(b)) => {
                        if p <= 255 {
                            Ok(
                                Response::Started(
                                    StartedPayload { protocol_version: p as u8, max_buffer_size: b },
                                ),
                            )
                        } else {
                            Err(Error::WrongResponse)
                        }
                    },
                    _ => Err(Error::WrongResponse),
                }
            } else {
                Err(Error::WrongResponse)
            }
        } else if same_text(head, "PENDING") {
            if ws.len() >= 2 {
                assert(w[1] == ws@[1]@);
                Ok(Response::Pending(ws[1].clone()))
            } else {
                Err(Error::WrongResponse)
            }
        } else if same_text(head, "RESULT") {
            if ws.len() >= 2 {
                assert(w[1] == ws@[1]@);
                match parse_count(ws[1].as_str()) {
                    Some(n) => Ok(Response::Result(n)),
                    None => Err(Error::WrongResponse),
                }
            } else {
                Err(Error::WrongResponse)
            }
        } else if same_text(head, "EVENT") {
            if ws.len() >= 3 {
                assert(w[1] == ws@[1]@ && w[2] == ws@[2]@);
                let kind_word = ws[1].as_str();
                let kind = if same_text(kind_word, "QUERY") {
                    EventKind::Query
                } else if same_text(kind_word, "SUGGEST") {
                    EventKind::Suggest
                } else if same_text(kind_word, "LIST") {
                    EventKind::List
                } else {
                    return Err(Error::WrongResponse);
                };
                let mut items: Vec<String> = Vec::new();
                let mut i: usize = 3;
                while i < ws.len()
                    invariant
                        3 <= i <= ws.len(),
                        strings_view(ws) == w,
                        strings_view(items) == w.subrange(3, i as int),
                    decreases ws.len() - i,
                {
                    let ghost before = items@;
                    let item = ws[i].clone();
                    items.push(item);
                    proof {
                        assert(w[i as int] == ws@[i as int]@);
                        assert(items@ == before.push(item));
                        assert(strings_view(items) =~= before.map_values(|s: String| s@).push(item@));
                        assert(strings_view(items) =~= w.subrange(3, i + 1));
                    }
                    i = i + 1;
                }
                assert(w.subrange(3, w.len() as int) =~= w.skip(3));
                Ok(Response::Event(kind, ws[2].clone(), items))
            } else {
                Err(Error::WrongResponse)
            }
        } else if same_text(head, "OK") {
            Ok(Response::Okay)
        } else if same_text(head, "ENDED") {
            Ok(Response::Ended)
        } else if same_text(head, "CONNECTED") {
            Ok(Response::Connected)
        } else if same_text(head, "PONG") {
            Ok(Response::Pong)
        } else if same_text(head, "ERR") {
            if ws.len() >= 2 {
                Err(Error::SonicServer(join_from(&ws, 1)))
            } else {
                Err(Error::WrongResponse)
            }
        } else {
            Err(Error::WrongResponse)
        }
    }
}

/// Index of the first double quote in `s`, or its length where it has none.
pub open spec fn first_quote(s: Seq<char>) -> nat
    decreases s.len(),
{
    if s.len() == 0 || s[0] == '"' {
        0
    } else {
        1 + first_quote(s.drop_first())
    }
}

/// Index of the last double quote in `s`, or -1 where it has none.
pub open spec fn last_quote(s: Seq<char>) -> int
    decreases s.len(),
{
    if s.len() == 0 {
        -1
    } else if s.last() == '"' {
        s.len() - 1
    } else {
        last_quote(s.drop_last())
    }
}

/// What a `PUSH` line carries, read back from it: its second, third and
/// fourth words (collection, bucket, object) and the text between its first
/// and its last double quote.
pub open spec fn push_fields(line: Seq<char>) -> Option<
    (Seq<char>, Seq<char>, Seq<char>, Seq<char>),
> {
    let w = words(line);
    let i = first_quote(line);
    let j = last_quote(line);
    if w.len() >= 4 && w[0] == "PUSH"@ && i < j {
        Some((w[1], w[2], w[3], line.subrange((i + 1) as int, j)))
    } else {
        None
    }
}

proof fn lemma_first_quote_after(p: Seq<char>, q: Seq<char>)
    requires
        free_of(p, '"'),
    ensures
        first_quote(p + q) == p.len() + first_quote(q),
    decreases p.len(),
{
    if p.len() == 0 {
        assert(p + q =~= q);
    } else {
        assert((p + q).drop_first() =~= p.drop_first() + q);
        assert(p[0] != '"');
        assert(free_of(p.drop_first(), '"')) by {
            assert forall|i: int| 0 <= i < p.drop_first().len() implies #[trigger] p.drop_first()[i]
                != '"' by {
                assert(p.drop_first()[i] == p[i + 1]);
            }
        }
        lemma_first_quote_after(p.drop_first(), q);
    }
}

proof fn lemma_last_quote_before(p: Seq<char>, q: Seq<char>)
    requires
        free_of(q, '"'),
    ensures
        last_quote(p + q) == last_quote(p),
    decreases q.len(),
{
    if q.len() == 0 {
        assert(p + q =~= p);
    } else {
        assert((p + q).drop_last() =~= p + q.drop_last());
        assert((p + q).last() == q.last());
        assert(q[q.len() - 1] != '"');
        assert(free_of(q.drop_last(), '"')) by {
            assert forall|i: int| 0 <= i < q.drop_last().len() implies #[trigger] q.drop_last()[i]
                != '"' by {
                assert(q.drop_last()[i] == q[i]);
            }
        }
        lemma_last_quote_before(p, q.drop_last());
    }
}

proof fn lemma_lang_modifier_free_of(lang: Option<LangCode>, c: char)
    requires
        c == '"' || c == '\n',
        lang_valid(lang),
    ensures
        free_of(lang_modifier(lang), c),
{
    broadcast use lemma_free_of_concat;

    reveal_strlit(" LANG(");
    reveal_strlit(")");
    if let Some(l) = lang {
        assert(free_of(l@, c)) by {
            assert forall|i: int| 0 <= i < l@.len() implies #[trigger] l@[i] != c by {
                assert(97 <= (l@[i] as u32) <= 122);
            }
        }
        assert(free_of(" LANG("@, c));
        assert(free_of(")"@, c));
    }
}

proof fn lemma_modifier_one_line(open: Seq<char>, v: Option<usize>)
    requires
        free_of(open, '\n'),
    ensures
        free_of(modifier(open, v), '\n'),
{
    broadcast use lemma_free_of_concat;

    reveal_strlit(")");
    if let Some(n) = v {
        lemma_decimal_digits(n as nat);
        assert(free_of(decimal(n as nat), '\n'));
        assert(free_of(")"@, '\n'));
    }
}

proof fn lemma_push_words(c: Seq<char>, b: Seq<char>, o: Seq<char>, r: Seq<char>)
    requires
        is_token(c),
        is_token(b),
        is_token(o),
        ws_led(r),
    ensures
        words("PUSH "@ + c + " "@ + b + " "@ + o + r) == seq!["PUSH"@, c, b, o] + words(r),
{
    reveal_strlit("PUSH ");
    reveal_strlit("PUSH");
    reveal_strlit(" ");
    let sp = seq![' '];
    assert("PUSH "@ + c + " "@ + b + " "@ + o + r =~= "PUSH"@ + (sp + (c + (sp + (b + (sp + (o
        + r)))))));
    lemma_words_token_prefix("PUSH"@, sp + (c + (sp + (b + (sp + (o + r))))));
    lemma_words_ws_prefix(' ', c + (sp + (b + (sp + (o + r)))));
    lemma_words_token_prefix(c, sp + (b + (sp + (o + r))));
    lemma_words_ws_prefix(' ', b + (sp + (o + r)));
    lemma_words_token_prefix(b, sp + (o + r));
    lemma_words_ws_prefix(' ', o + r);
    lemma_words_token_prefix(o, r);
    assert(seq!["PUSH"@] + (seq![c] + (seq![b] + (seq![o] + words(r)))) =~= seq![
        "PUSH"@,
        c,
        b,
        o,
    ] + words(r));
}

proof fn lemma_quoted_text(p: Seq<char>, m: Seq<char>, q: Seq<char>)
    requires
        free_of(p, '"'),
        free_of(q, '"'),
    ensures
        first_quote(p + seq!['"'] + m + seq!['"'] + q) == p.len(),
        last_quote(p + seq!['"'] + m + seq!['"'] + q) == p.len() + 1 + m.len(),
        (p + seq!['"'] + m + seq!['"'] + q).subrange((p.len() + 1) as int, (p.len() + 1 + m.len()) as int)
            == m,
{
    let dq = seq!['"'];
    let line = p + dq + m + dq + q;
    assert(line =~= p + (dq + (m + (dq + q))));
    lemma_first_quote_after(p, dq + (m + (dq + q)));
    let front = p + dq + m + dq;
    lemma_last_quote_before(front, q);
    assert(front.drop_last() =~= p + dq + m);
    assert(line.subrange((p.len() + 1) as int, (p.len() + 1 + m.len()) as int) =~= m);
}

/// Encoding a push request for destination `dest` and text `text` and then
/// reading its line back gives the collection, bucket and object, and the
/// text on a single line. This holds for identifiers that are single words
/// without double quotes.
pub proof fn lemma_push_round_trip(
    dest: ObjDest,
    text: String,
    lang: Option<LangCode>,
    req: Request,
)
    requires
        (PushCommand { req: PushRequest { dest, text, lang } }).sends(req),
        is_token(dest@.collection) && free_of(dest@.collection, '"'),
        is_token(dest@.bucket) && free_of(dest@.bucket, '"'),
        is_token(dest@.object) && free_of(dest@.object, '"'),
        lang_valid(lang),
    ensures
        push_fields(request_line(req)) == Some(
            (dest@.collection, dest@.bucket, dest@.object, single_line(text@)),
        ),
{
    reveal_strlit("PUSH ");
    reveal_strlit(" ");
    reveal_strlit("\"");
    reveal_strlit("\r\n");
    let c = dest@.collection;
    let b = dest@.bucket;
    let o = dest@.object;
    let m = single_line(text@);
    let q = lang_modifier(lang) + "\r\n"@;
    let line = request_line(req);
    let dq = seq!['"'];
    let r = " "@ + dq + m + dq + q;
    assert(line =~= "PUSH "@ + c + " "@ + b + " "@ + o + r);
    lemma_push_words(c, b, o, r);
    let p = "PUSH "@ + c + " "@ + b + " "@ + o + " "@;
    assert(free_of(p, '"')) by {
        broadcast use lemma_free_of_concat;

        assert(free_of("PUSH "@, '"'));
        assert(free_of(" "@, '"'));
    }
    assert(free_of(q, '"')) by {
        broadcast use lemma_free_of_concat;

        lemma_lang_modifier_free_of(lang, '"');
        assert(free_of("\r\n"@, '"'));
    }
    assert(line =~= p + dq + m + dq + q);
    lemma_quoted_text(p, m, q);
}

/// Requests carrying free text are written as one line: whatever lines the
/// text has, a push or query request whose identifiers hold no line feed has
/// none before its line ending.
pub proof fn lemma_text_request_one_line(req: Request)
    requires
        text_request_ids_one_line(req),
        match req {
            Request::Push { lang, .. } => lang_valid(lang),
            Request::Query { lang, .. } => lang_valid(lang),
            _ => true,
        },
    ensures
        free_of(request_body(req), '\n'),
        request_line(req) == request_body(req) + "\r\n"@,
{
    broadcast use lemma_free_of_concat;

    reveal_strlit("PUSH ");
    reveal_strlit("QUERY ");
    reveal_strlit(" ");
    reveal_strlit("\"");
    reveal_strlit(" LIMIT(");
    reveal_strlit(" OFFSET(");
    assert(free_of("PUSH "@, '\n'));
    assert(free_of("QUERY "@, '\n'));
    assert(free_of(" "@, '\n'));
    assert(free_of("\""@, '\n'));
    assert(free_of(" LIMIT("@, '\n'));
    assert(free_of(" OFFSET("@, '\n'));
    match req {
        Request::Push { terms, lang, .. } => {
            lemma_single_line_no_newline(terms@);
            lemma_lang_modifier_free_of(lang, '\n');
            assert(free_of(quoted(terms@), '\n'));
        },
        Request::Query { terms, offset, limit, lang, .. } => {
            lemma_single_line_no_newline(terms@);
            lemma_lang_modifier_free_of(lang, '\n');
            lemma_modifier_one_line(" LIMIT("@, limit);
            lemma_modifier_one_line(" OFFSET("@, offset);
            assert(free_of(quoted(terms@), '\n'));
        },
        _ => {},
    }
}

} // verus!
