use super::StreamCommand;
use crate::misc::{clone_opt, opt_view, Dest, ObjDest, OptDest};
use crate::protocol::{Request, Response, ResponseView};
use crate::result::{Error, ErrorView};
use vstd::prelude::*;

verus! {

/// What to count: the buckets of a collection, the objects of a bucket or
/// the words of an object.
#[derive(Debug)]
pub struct CountRequest(pub(crate) OptDest);

impl View for CountRequest {
    /// Collection, bucket and object.
    type V = (Seq<char>, Option<Seq<char>>, Option<Seq<char>>);

    closed spec fn view(&self) -> (Seq<char>, Option<Seq<char>>, Option<Seq<char>>) {
        self.0.parts()
    }
}

impl CountRequest {
    /// Counts the buckets of collection `collection`.
    pub fn buckets(collection: &str) -> (r: CountRequest)
        ensures
            r@ == (collection@, None::<Seq<char>>, None::<Seq<char>>),
    {
        CountRequest(OptDest::col(collection))
    }

    /// Counts the objects of a bucket.
    pub fn objects(collection: &str, bucket: &str) -> (r: CountRequest)
        ensures
            r@ == (collection@, Some(bucket@), None::<Seq<char>>),
    {
        CountRequest(OptDest::col_buc(collection, bucket))
    }

    /// Counts the words of an object.
    pub fn words(collection: &str, bucket: &str, object: &str) -> (r: CountRequest)
        ensures
            r@ == (collection@, Some(bucket@), Some(object@)),
    {
        CountRequest(OptDest::col_buc_obj(collection, bucket, object))
    }

    /// Counts at the level of `d`: its bucket's objects, or the collection's
    /// buckets where it names no bucket.
    pub fn from_dest(d: Dest) -> (r: CountRequest)
        ensures
            r@ == (d@.collection, d@.bucket, None::<Seq<char>>),
    {
        CountRequest(OptDest::from_dest(d))
    }

    /// Counts the words of the object `d`.
    pub fn from_obj_dest(d: ObjDest) -> (r: CountRequest)
        ensures
            r@ == (d@.collection, Some(d@.bucket), Some(d@.object)),
    {
        CountRequest(OptDest::from_obj_dest(d))
    }
}

/// Counts indexed items.
#[derive(Debug)]
pub struct CountCommand {
    pub req: CountRequest,
}

impl StreamCommand for CountCommand {
    type Response = usize;

    open spec fn sends(&self, req: Request) -> bool {
        req matches Request::Count { collection, bucket, object } && (
        collection@,
        opt_view(bucket),
        opt_view(object),
        ) == self.req@
    }

    open spec fn receives(&self, res: ResponseView, r: Result<usize, Error>) -> bool {
        match res {
            ResponseView::Result(n) => r == Ok::<usize, Error>(n),
            _ => r is Err && r->Err_0@ == ErrorView::WrongResponse,
        }
    }

    fn request(&self) -> (r: Request) {
        let dest = &self.req.0;
        proof {
            use_type_invariant(dest);
        }
        Request::Count {
            collection: dest.collection.clone(),
            bucket: clone_opt(&dest.bucket),
            object: clone_opt(&dest.object),
        }
    }

    fn receive(&self, res: Response) -> (r: Result<usize, Error>) {
        match res {
            Response::Result(count) => Ok(count),
            _ => Err(Error::WrongResponse),
        }
    }
}

} // verus!
