use super::StreamCommand;
use crate::protocol::{Request, Response, ResponseView};
use crate::result::{Error, ErrorView};
use vstd::prelude::*;

verus! {

/// Ends the connection.
#[derive(Debug)]
pub struct QuitCommand;

impl StreamCommand for QuitCommand {
    type Response = ();

    open spec fn sends(&self, req: Request) -> bool {
        req is Quit
    }

    open spec fn receives(&self, res: ResponseView, r: Result<(), Error>) -> bool {
        match res {
            ResponseView::Ended => r is Ok,
            _ => r is Err && r->Err_0@ == ErrorView::WrongResponse,
        }
    }

    fn request(&self) -> (r: Request) {
        Request::Quit
    }

    fn receive(&self, res: Response) -> (r: Result<(), Error>) {
        match res {
            Response::Ended => Ok(()),
            _ => Err(Error::WrongResponse),
        }
    }
}

} // verus!
