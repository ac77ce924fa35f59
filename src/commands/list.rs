use super::StreamCommand;
use crate::misc::{bucket_or_default, bucket_or_default_of, Dest};
use crate::protocol::{strings_view, EventKind, Request, Response, ResponseView};
use crate::result::{Error, ErrorView};
use vstd::prelude::*;

verus! {

/// The indexed words of a destination, with an optional limit and offset.
#[derive(Debug)]
pub struct ListRequest {
    pub dest: Dest,
    pub limit: Option<usize>,
    pub offset: Option<usize>,
}

impl ListRequest {
    /// Lists the words of `dest`, with no limit or offset.
    pub fn new(dest: Dest) -> (r: ListRequest)
        ensures
            r.dest@ == dest@,
            r.limit is None,
            r.offset is None,
    {
        ListRequest { dest, limit: None, offset: None }
    }

    /// The request with at most `limit` results.
    pub fn limit(self, limit: usize) -> (r: ListRequest)
        ensures
            r.dest@ == self.dest@,
            r.limit == Some(limit),
            r.offset == self.offset,
    {
        let mut r = self;
        r.limit = Some(limit);
        r
    }

    /// The request with its first `offset` results skipped.
    pub fn offset(self, offset: usize) -> (r: ListRequest)
        ensures
            r.dest@ == self.dest@,
            r.limit == self.limit,
            r.offset == Some(offset),
    {
        let mut r = self;
        r.offset = Some(offset);
        r
    }
}

/// Lists indexed words; reads them in the server's order.
#[derive(Debug)]
pub struct ListCommand {
    pub req: ListRequest,
}

impl StreamCommand for ListCommand {
    type Response = Vec<String>;

    open spec fn sends(&self, req: Request) -> bool {
        req matches Request::List { collection, bucket, limit, offset } && collection@
            == self.req.dest@.collection && bucket@ == bucket_or_default(self.req.dest@.bucket)
            && limit == self.req.limit && offset == self.req.offset
    }

    open spec fn receives(&self, res: ResponseView, r: Result<Vec<String>, Error>) -> bool {
        match res {
            ResponseView::Event(EventKind::List, _, items) => r is Ok && strings_view(r->Ok_0)
                == items,
            _ => r is Err && r->Err_0@ == ErrorView::WrongResponse,
        }
    }

    fn request(&self) -> (r: Request) {
        let dest = &self.req.dest;
        Request::List {
            collection: dest.collection().clone(),
            bucket: bucket_or_default_of(dest.bucket_opt()),
            limit: self.req.limit,
            offset: self.req.offset,
        }
    }

    fn receive(&self, res: Response) -> (r: Result<Vec<String>, Error>) {
        match res {
            Response::Event(EventKind::List, _id, words) => Ok(words),
            _ => Err(Error::WrongResponse),
        }
    }
}

} // verus!
