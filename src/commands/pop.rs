use super::StreamCommand;
use crate::misc::ObjDest;
use crate::protocol::{Request, Response, ResponseView};
use crate::result::{Error, ErrorView};
use vstd::prelude::*;

verus! {

/// Words to remove from an object's index.
#[derive(Debug)]
pub struct PopRequest {
    pub dest: ObjDest,
    pub text: String,
}

impl PopRequest {
    /// Removes the words of `text` from object `dest`.
    pub fn new(dest: ObjDest, text: &str) -> (r: PopRequest)
        ensures
            r.dest@ == dest@,
            r.text@ == text@,
    {
        PopRequest { dest, text: text.to_owned() }
    }
}

/// Removes words from the index; reads how many it removed.
#[derive(Debug)]
pub struct PopCommand {
    pub req: PopRequest,
}

impl StreamCommand for PopCommand {
    type Response = usize;

    open spec fn sends(&self, req: Request) -> bool {
        req matches Request::Pop { collection, bucket, object, terms } && collection@
            == self.req.dest@.collection && bucket@ == self.req.dest@.bucket && object@
            == self.req.dest@.object && terms@ == self.req.text@
    }

    open spec fn receives(&self, res: ResponseView, r: Result<usize, Error>) -> bool {
        match res {
            ResponseView::Result(n) => r == Ok::<usize, Error>(n),
            _ => r is Err && r->Err_0@ == ErrorView::WrongResponse,
        }
    }

    fn request(&self) -> (r: Request) {
        let dest = &self.req.dest;
        Request::Pop {
            collection: dest.collection().clone(),
            bucket: dest.bucket(),
            object: dest.object().clone(),
            terms: self.req.text.clone(),
        }
    }

    fn receive(&self, res: Response) -> (r: Result<usize, Error>) {
        match res {
            Response::Result(count) => Ok(count),
            _ => Err(Error::WrongResponse),
        }
    }
}

} // verus!
