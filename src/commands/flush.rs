use super::StreamCommand;
use crate::misc::{clone_opt, opt_view, Dest, ObjDest, OptDest};
use crate::protocol::{Request, Response, ResponseView};
use crate::result::{Error, ErrorView};
use vstd::prelude::*;

verus! {

/// What to flush: a collection, a bucket or an object.
#[derive(Debug)]
pub struct FlushRequest(pub(crate) OptDest);

impl View for FlushRequest {
    /// Collection, bucket and object.
    type V = (Seq<char>, Option<Seq<char>>, Option<Seq<char>>);

    closed spec fn view(&self) -> (Seq<char>, Option<Seq<char>>, Option<Seq<char>>) {
        self.0.parts()
    }
}

impl FlushRequest {
    /// Flushes a whole collection.
    pub fn collection(collection: &str) -> (r: FlushRequest)
        ensures
            r@ == (collection@, None::<Seq<char>>, None::<Seq<char>>),
    {
        FlushRequest(OptDest::col(collection))
    }

    /// Flushes a bucket.
    pub fn bucket(collection: &str, bucket: &str) -> (r: FlushRequest)
        ensures
            r@ == (collection@, Some(bucket@), None::<Seq<char>>),
    {
        FlushRequest(OptDest::col_buc(collection, bucket))
    }

    /// Flushes an object.
    pub fn object(collection: &str, bucket: &str, object: &str) -> (r: FlushRequest)
        ensures
            r@ == (collection@, Some(bucket@), Some(object@)),
    {
        FlushRequest(OptDest::col_buc_obj(collection, bucket, object))
    }

    /// Flushes the bucket of `d`, or its collection where it names no bucket.
    pub fn from_dest(d: Dest) -> (r: FlushRequest)
        ensures
            r@ == (d@.collection, d@.bucket, None::<Seq<char>>),
    {
        FlushRequest(OptDest::from_dest(d))
    }

    /// Flushes the object `d`.
    pub fn from_obj_dest(d: ObjDest) -> (r: FlushRequest)
        ensures
            r@ == (d@.collection, Some(d@.bucket), Some(d@.object)),
    {
        FlushRequest(OptDest::from_obj_dest(d))
    }
}

/// Removes indexed data; reads how many items it removed.
#[derive(Debug)]
pub struct FlushCommand {
    pub req: FlushRequest,
}

impl StreamCommand for FlushCommand {
    type Response = usize;

    open spec fn sends(&self, req: Request) -> bool {
        req matches Request::Flush { collection, bucket, object } && (
        collection@,
        opt_view(bucket),
        opt_view(object),
        ) == self.req@
    }

    open spec fn receives(&self, res: ResponseView, r: Result<usize, Error>) -> bool {
        match res {
            ResponseView::Result(n) => r == Ok::<usize, Error>(n),
            _ => r is Err && r->Err_0@ == ErrorView::WrongResponse,
        }
    }

    fn request(&self) -> (r: Request) {
        let dest = &self.req.0;
        proof {
            use_type_invariant(dest);
        }
        Request::Flush {
            collection: dest.collection.clone(),
            bucket: clone_opt(&dest.bucket),
            object: clone_opt(&dest.object),
        }
    }

    fn receive(&self, res: Response) -> (r: Result<usize, Error>) {
        match res {
            Response::Result(count) => Ok(count),
            _ => Err(Error::WrongResponse),
        }
    }
}

} // verus!
