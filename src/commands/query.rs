use super::StreamCommand;
use crate::misc::{
    bucket_or_default, bucket_or_default_of, clone_lang, lang_view, Dest, LangCode,
};
use crate::protocol::{strings_view, EventKind, Request, Response, ResponseView};
use crate::result::{Error, ErrorView};
use vstd::prelude::*;

verus! {

/// A search for objects by terms, with an optional language, limit and
/// offset.
#[derive(Debug, Clone)]
pub struct QueryRequest {
    pub dest: Dest,
    pub terms: String,
    pub lang: Option<LangCode>,
    pub limit: Option<usize>,
    pub offset: Option<usize>,
}

impl QueryRequest {
    /// Searches `dest` for `terms`, with no language, limit or offset.
    pub fn new(dest: Dest, terms: &str) -> (r: QueryRequest)
        ensures
            r.dest@ == dest@,
            r.terms@ == terms@,
            r.lang is None,
            r.limit is None,
            r.offset is None,
    {
        QueryRequest { dest, terms: terms.to_owned(), lang: None, limit: None, offset: None }
    }

    /// The request with language `code`.
    pub fn lang(self, code: LangCode) -> (r: QueryRequest)
        ensures
            r.dest@ == self.dest@,
            r.terms@ == self.terms@,
            lang_view(r.lang) == Some(code@),
            r.limit == self.limit,
            r.offset == self.offset,
    {
        let mut r = self;
        r.lang = Some(code);
        r
    }

    /// The request with a detected language: the language given stays, and
    /// `detected` applies only where none was given.
    pub fn or_detected(self, detected: Option<LangCode>) -> (r: QueryRequest)
        ensures
            r.dest@ == self.dest@,
            r.terms@ == self.terms@,
            lang_view(r.lang) == match self.lang {
                Some(l) => Some(l@),
                None => lang_view(detected),
            },
            r.limit == self.limit,
            r.offset == self.offset,
    {
        let mut r = self;
        if r.lang.is_none() {
            r.lang = detected;
        }
        r
    }

    /// The request with at most `limit` results.
    pub fn limit(self, limit: usize) -> (r: QueryRequest)
        ensures
            r.dest@ == self.dest@,
            r.terms@ == self.terms@,
            lang_view(r.lang) == lang_view(self.lang),
            r.limit == Some(limit),
            r.offset == self.offset,
    {
        let mut r = self;
        r.limit = Some(limit);
        r
    }

    /// The request with its first `offset` results skipped.
    pub fn offset(self, offset: usize) -> (r: QueryRequest)
        ensures
            r.dest@ == self.dest@,
            r.terms@ == self.terms@,
            lang_view(r.lang) == lang_view(self.lang),
            r.limit == self.limit,
            r.offset == Some(offset),
    {
        let mut r = self;
        r.offset = Some(offset);
        r
    }

    /// The request for page `page` (from 0) of `limit` results each.
    pub fn pag(self, page: usize, limit: usize) -> (r: QueryRequest)
        requires
            page * limit <= usize::MAX,
        ensures
            r.dest@ == self.dest@,
            r.terms@ == self.terms@,
            lang_view(r.lang) == lang_view(self.lang),
            r.limit == Some(limit),
            r.offset == Some((page * limit) as usize),
    {
        let offset = page * limit;
        self.offset(offset).limit(limit)
    }
}

/// Searches for objects; reads their ids, best match first.
#[derive(Debug)]
pub struct QueryCommand {
    pub req: QueryRequest,
}

impl StreamCommand for QueryCommand {
    type Response = Vec<String>;

    open spec fn sends(&self, req: Request) -> bool {
        req matches Request::Query { collection, bucket, terms, offset, limit, lang } && collection@
            == self.req.dest@.collection && bucket@ == bucket_or_default(self.req.dest@.bucket)
            && terms@ == self.req.terms@ && offset == self.req.offset && limit == self.req.limit
            && lang_view(lang) == lang_view(self.req.lang)
    }

    open spec fn receives(&self, res: ResponseView, r: Result<Vec<String>, Error>) -> bool {
        match res {
            ResponseView::Event(EventKind::Query, _, items) => r is Ok && strings_view(r->Ok_0)
                == items,
            _ => r is Err && r->Err_0@ == ErrorView::WrongResponse,
        }
    }

    fn request(&self) -> (r: Request) {
        let dest = &self.req.dest;
        Request::Query {
            collection: dest.collection().clone(),
            bucket: bucket_or_default_of(dest.bucket_opt()),
            terms: self.req.terms.clone(),
            offset: self.req.offset,
            limit: self.req.limit,
            lang: clone_lang(&self.req.lang),
        }
    }

    fn receive(&self, res: Response) -> (r: Result<Vec<String>, Error>) {
        match res {
            Response::Event(EventKind::Query, _id, objects) => Ok(objects),
            _ => Err(Error::WrongResponse),
        }
    }
}

} // verus!
