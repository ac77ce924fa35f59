use super::StreamCommand;
use crate::protocol::{self, Request, Response, ResponseView};
use crate::result::{Error, ErrorView};
use vstd::prelude::*;

verus! {

/// An administrative action.
#[derive(Debug)]
pub enum TriggerRequest<'a> {
    /// Writes pending index changes to storage.
    Consolidate,
    /// Backs the store up to the given path.
    Backup(&'a str),
    /// Restores the store from the given path.
    Restore(&'a str),
}

/// Runs an administrative action.
#[derive(Debug)]
pub struct TriggerCommand<'a> {
    pub req: TriggerRequest<'a>,
}

impl<'a> StreamCommand for TriggerCommand<'a> {
    type Response = ();

    open spec fn sends(&self, req: Request) -> bool {
        match self.req {
            TriggerRequest::Consolidate => req matches Request::Trigger(
                protocol::TriggerRequest::Consolidate,
            ),
            TriggerRequest::Backup(path) => req matches Request::Trigger(
                protocol::TriggerRequest::Backup(p),
            ) && p@ == path@,
            TriggerRequest::Restore(path) => req matches Request::Trigger(
                protocol::TriggerRequest::Restore(p),
            ) && p@ == path@,
        }
    }

    open spec fn receives(&self, res: ResponseView, r: Result<(), Error>) -> bool {
        match res {
            ResponseView::Okay => r is Ok,
            _ => r is Err && r->Err_0@ == ErrorView::WrongResponse,
        }
    }

    fn request(&self) -> (r: Request) {
        let req = match self.req {
            TriggerRequest::Consolidate => protocol::TriggerRequest::Consolidate,
            TriggerRequest::Backup(path) => protocol::TriggerRequest::Backup(path.to_owned()),
            TriggerRequest::Restore(path) => protocol::TriggerRequest::Restore(path.to_owned()),
        };
        Request::Trigger(req)
    }

    fn receive(&self, res: Response) -> (r: Result<(), Error>) {
        match res {
            Response::Okay => Ok(()),
            _ => Err(Error::WrongResponse),
        }
    }
}

} // verus!
