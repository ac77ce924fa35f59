use super::StreamCommand;
use crate::misc::{bucket_or_default, bucket_or_default_of, Dest};
use crate::protocol::{strings_view, EventKind, Request, Response, ResponseView};
use crate::result::{Error, ErrorView};
use vstd::prelude::*;

verus! {

/// Completions of a word, with an optional limit.
#[derive(Debug)]
pub struct SuggestRequest {
    pub dest: Dest,
    pub word: String,
    pub limit: Option<usize>,
}

impl SuggestRequest {
    /// Suggests completions of `word` in `dest`, with no limit.
    pub fn new(dest: Dest, word: &str) -> (r: SuggestRequest)
        ensures
            r.dest@ == dest@,
            r.word@ == word@,
            r.limit is None,
    {
        SuggestRequest { dest, word: word.to_owned(), limit: None }
    }

    /// The request with at most `limit` results.
    pub fn limit(self, limit: usize) -> (r: SuggestRequest)
        ensures
            r.dest@ == self.dest@,
            r.word@ == self.word@,
            r.limit == Some(limit),
    {
        let mut r = self;
        r.limit = Some(limit);
        r
    }
}

/// Suggests completions; reads the words, best first.
#[derive(Debug)]
pub struct SuggestCommand {
    pub req: SuggestRequest,
}

impl StreamCommand for SuggestCommand {
    type Response = Vec<String>;

    open spec fn sends(&self, req: Request) -> bool {
        req matches Request::Suggest { collection, bucket, word, limit } && collection@
            == self.req.dest@.collection && bucket@ == bucket_or_default(self.req.dest@.bucket)
            && word@ == self.req.word@ && limit == self.req.limit
    }

    open spec fn receives(&self, res: ResponseView, r: Result<Vec<String>, Error>) -> bool {
        match res {
            ResponseView::Event(EventKind::Suggest, _, items) => r is Ok && strings_view(r->Ok_0)
                == items,
            _ => r is Err && r->Err_0@ == ErrorView::WrongResponse,
        }
    }

    fn request(&self) -> (r: Request) {
        let dest = &self.req.dest;
        Request::Suggest {
            collection: dest.collection().clone(),
            bucket: bucket_or_default_of(dest.bucket_opt()),
            word: self.req.word.clone(),
            limit: self.req.limit,
        }
    }

    fn receive(&self, res: Response) -> (r: Result<Vec<String>, Error>) {
        match res {
            Response::Event(EventKind::Suggest, _id, words) => Ok(words),
            _ => Err(Error::WrongResponse),
        }
    }
}

} // verus!
