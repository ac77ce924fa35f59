use super::StreamCommand;
use crate::protocol::{Request, Response, ResponseView};
use crate::result::{Error, ErrorView};
use vstd::prelude::*;

verus! {

/// Checks that the server answers.
#[derive(Debug)]
pub struct PingCommand;

impl StreamCommand for PingCommand {
    type Response = ();

    open spec fn sends(&self, req: Request) -> bool {
        req is Ping
    }

    open spec fn receives(&self, res: ResponseView, r: Result<(), Error>) -> bool {
        match res {
            ResponseView::Pong => r is Ok,
            _ => r is Err && r->Err_0@ == ErrorView::WrongResponse,
        }
    }

    fn request(&self) -> (r: Request) {
        Request::Ping
    }

    fn receive(&self, res: Response) -> (r: Result<(), Error>) {
        match res {
            Response::Pong => Ok(()),
            _ => Err(Error::WrongResponse),
        }
    }
}

} // verus!
