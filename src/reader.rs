use crate::commands::{ListCommand, QueryCommand, StreamCommand, SuggestCommand};
use crate::protocol::{
    event_kind_of, parse_line, strings_view, EventId, EventKind, Protocol, Response, ResponseView,
};
use crate::text::{is_token, lemma_words_line_of, line_of, words};
use crate::result::{result_view, Error, ErrorView};
use vstd::prelude::*;

verus! {

/// Reads the lines of one response until a terminal one: an acknowledgment
/// (`PENDING id`) is absorbed and its id remembered, and the deferred result
/// that follows must carry the same id.
#[derive(Debug)]
pub enum ResponseReader {
    /// No line of the response read yet.
    AwaitingFirstLine,
    /// Acknowledged with this id; awaiting its deferred result.
    AwaitingEventFor(EventId),
}

impl View for ResponseReader {
    type V = Option<Seq<char>>;

    open spec fn view(&self) -> Option<Seq<char>> {
        match self {
            ResponseReader::AwaitingFirstLine => None,
            ResponseReader::AwaitingEventFor(id) => Some(id@),
        }
    }
}

/// The outcome of a line for the reader, where it ends the response.
pub open spec fn outcome_view(o: Option<Result<Response, Error>>) -> Option<
    Result<ResponseView, ErrorView>,
> {
    match o {
        Some(r) => Some(result_view(r)),
        None => None,
    }
}

/// One step of the reader: from the id awaited (if any) and a line, the id
/// awaited next and, where the response is complete, its outcome.
///
/// A decode failure or an `ERR` line ends the response with that error at any
/// point. A `PENDING` line is absorbed; while one id is awaited, further
/// acknowledgments leave it as it is. Awaiting an id, an `EVENT` line with the
/// same id ends the response with it, one with another id fails with
/// `CorrelationMismatch`, and any other line is a wrong response. With no id
/// awaited, any other line is the response.
pub open spec fn reader_step(awaiting: Option<Seq<char>>, line: Seq<char>) -> (
    Option<Seq<char>>,
    Option<Result<ResponseView, ErrorView>>,
) {
    match parse_line(line) {
        Err(e) => (None, Some(Err(e))),
        Ok(ResponseView::Pending(id)) => match awaiting {
            Some(x) => (Some(x), None),
            None => (Some(id), None),
        },
        Ok(r) => match awaiting {
            None => (None, Some(Ok(r))),
            Some(x) => match r {
                ResponseView::Event(_, id, _) => if id == x {
                    (None, Some(Ok(r)))
                } else {
                    (None, Some(Err(ErrorView::CorrelationMismatch)))
                },
                _ => (None, Some(Err(ErrorView::WrongResponse))),
            },
        },
    }
}

impl ResponseReader {
    /// A reader before the first line of a response.
    pub fn new() -> (r: ResponseReader)
        ensures
            r@ is None,
    {
        ResponseReader::AwaitingFirstLine
    }

    /// Takes the next line of the response. Returns `None` where another line
    /// must be read, else the response or the error it ends with.
    pub fn feed(&mut self, protocol: &Protocol, line: &str) -> (r: Option<Result<Response, Error>>)
        ensures
            (final(self)@, outcome_view(r)) == reader_step(old(self)@, line@),
    {
        let parsed = protocol.parse_response(line);
        match parsed {
            Err(e) => {
                *self = ResponseReader::AwaitingFirstLine;
                Some(Err(e))
            },
            Ok(Response::Pending(id)) => {
                if let ResponseReader::AwaitingFirstLine = self {
                    *self = ResponseReader::AwaitingEventFor(id);
                }
                None
            },
            Ok(r) => {
                let verdict: u8 = match &*self {
                    ResponseReader::AwaitingFirstLine => 0,
                    ResponseReader::AwaitingEventFor(x) => match &r {
                        Response::Event(_, id, _) => if *id == *x {
                            0
                        } else {
                            1
                        },
                        _ => 2,
                    },
                };
                *self = ResponseReader::AwaitingFirstLine;
                if verdict == 0 {
                    Some(Ok(r))
                } else if verdict == 1 {
                    Some(Err(Error::CorrelationMismatch))
                } else {
                    Some(Err(Error::WrongResponse))
                }
            },
        }
    }
}

/// The word that names an event kind on the wire.
pub open spec fn event_word(kind: EventKind) -> Seq<char> {
    match kind {
        EventKind::Query => "QUERY"@,
        EventKind::Suggest => "SUGGEST"@,
        EventKind::List => "LIST"@,
    }
}

/// The acknowledgment line `PENDING id`.
pub open spec fn pending_line(id: Seq<char>) -> Seq<char> {
    line_of(seq!["PENDING"@, id])
}

/// The deferred result line `EVENT <kind> id items...`.
pub open spec fn event_line(kind: EventKind, id: Seq<char>, items: Seq<Seq<char>>) -> Seq<char> {
    line_of(seq!["EVENT"@, event_word(kind), id] + items)
}

proof fn lemma_parse_pending(id: Seq<char>)
    requires
        is_token(id),
    ensures
        parse_line(pending_line(id)) == Ok::<ResponseView, ErrorView>(ResponseView::Pending(id)),
{
    reveal_strlit("PENDING");
    reveal_strlit("STARTED");
    let ts = seq!["PENDING"@, id];
    assert(is_token(ts[0]));
    lemma_words_line_of(ts);
    assert("PENDING"@[0] != "STARTED"@[0]);
}

proof fn lemma_parse_event(kind: EventKind, id: Seq<char>, items: Seq<Seq<char>>)
    requires
        is_token(id),
        forall|i: int| 0 <= i < items.len() ==> is_token(#[trigger] items[i]),
    ensures
        parse_line(event_line(kind, id, items)) == Ok::<ResponseView, ErrorView>(
            ResponseView::Event(kind, id, items),
        ),
{
    reveal_strlit("EVENT");
    reveal_strlit("STARTED");
    reveal_strlit("PENDING");
    reveal_strlit("RESULT");
    reveal_strlit("QUERY");
    reveal_strlit("SUGGEST");
    reveal_strlit("LIST");
    let ts = seq!["EVENT"@, event_word(kind), id] + items;
    assert(forall|i: int| 0 <= i < ts.len() ==> is_token(#[trigger] ts[i])) by {
        assert forall|i: int| 0 <= i < ts.len() implies is_token(#[trigger] ts[i]) by {
            if i >= 3 {
                assert(ts[i] == items[i - 3]);
            }
        }
    }
    lemma_words_line_of(ts);
    assert("EVENT"@[0] != "STARTED"@[0]);
    assert("EVENT"@[0] != "PENDING"@[0]);
    assert("EVENT"@[0] != "RESULT"@[0]);
    assert("QUERY"@[0] != "SUGGEST"@[0]);
    assert("QUERY"@[0] != "LIST"@[0]);
    assert("SUGGEST"@[0] != "LIST"@[0]);
    assert(event_kind_of(event_word(kind)) == Some(kind));
    assert(ts.skip(3) =~= items);
}

/// For every deferred command, a `PENDING x` line followed by
/// `EVENT <kind> x items...` ends the response with that event; the query,
/// suggest and list commands then read exactly `items`, in order.
pub proof fn lemma_deferred_result_kept(kind: EventKind, x: Seq<char>, items: Seq<Seq<char>>)
    requires
        is_token(x),
        forall|i: int| 0 <= i < items.len() ==> is_token(#[trigger] items[i]),
    ensures
        reader_step(None, pending_line(x)) == (Some(x), None::<Result<ResponseView, ErrorView>>),
        reader_step(Some(x), event_line(kind, x, items)) == (
            None::<Seq<char>>,
            Some(Ok::<ResponseView, ErrorView>(ResponseView::Event(kind, x, items))),
        ),
        kind == EventKind::Query ==> forall|c: QueryCommand, r: Result<Vec<String>, Error>|
            c.receives(ResponseView::Event(kind, x, items), r) ==> r is Ok && strings_view(
                r->Ok_0,
            ) == items,
        kind == EventKind::Suggest ==> forall|c: SuggestCommand, r: Result<Vec<String>, Error>|
            c.receives(ResponseView::Event(kind, x, items), r) ==> r is Ok && strings_view(
                r->Ok_0,
            ) == items,
        kind == EventKind::List ==> forall|c: ListCommand, r: Result<Vec<String>, Error>|
            c.receives(ResponseView::Event(kind, x, items), r) ==> r is Ok && strings_view(
                r->Ok_0,
            ) == items,
{
    lemma_parse_pending(x);
    lemma_parse_event(kind, x, items);
}

/// After `PENDING x`, an `EVENT` line with another id `y` fails the response
/// with `CorrelationMismatch`: its items are never returned.
pub proof fn lemma_deferred_result_mismatch(
    kind: EventKind,
    x: Seq<char>,
    y: Seq<char>,
    items: Seq<Seq<char>>,
)
    requires
        is_token(x),
        is_token(y),
        x != y,
        forall|i: int| 0 <= i < items.len() ==> is_token(#[trigger] items[i]),
    ensures
        reader_step(None, pending_line(x)) == (Some(x), None::<Result<ResponseView, ErrorView>>),
        reader_step(Some(x), event_line(kind, y, items)) == (
            None::<Seq<char>>,
            Some(Err::<ResponseView, ErrorView>(ErrorView::CorrelationMismatch)),
        ),
{
    lemma_parse_pending(x);
    lemma_parse_event(kind, y, items);
}

} // verus!
