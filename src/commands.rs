//! The commands of the protocol: what each sends and how its response is read.

pub mod count;
pub mod flush;
pub mod list;
pub mod ping;
pub mod pop;
pub mod push;
pub mod query;
pub mod quit;
pub mod start;
pub mod suggest;
pub mod trigger;

pub use count::{CountCommand, CountRequest};
pub use flush::{FlushCommand, FlushRequest};
pub use list::{ListCommand, ListRequest};
pub use ping::PingCommand;
pub use pop::{PopCommand, PopRequest};
pub use push::{PushCommand, PushRequest};
pub use query::{QueryCommand, QueryRequest};
pub use quit::QuitCommand;
pub use start::{StartCommand, StartCommandResponse};
pub use suggest::{SuggestCommand, SuggestRequest};
pub use trigger::{TriggerCommand, TriggerRequest};

use crate::protocol::{request_wf, Request, Response, ResponseView};
use crate::result::Error;
use vstd::prelude::*;

verus! {

/// A command: the request it sends, and the typed result it reads from the
/// terminal response.
pub trait StreamCommand {
    type Response;

    /// `req` is the request this command sends.
    spec fn sends(&self, req: Request) -> bool;

    /// `r` is what this command makes of the terminal response `res`.
    spec fn receives(&self, res: ResponseView, r: Result<Self::Response, Error>) -> bool;

    fn request(&self) -> (r: Request)
        ensures
            request_wf(r),
            self.sends(r),
    ;

    fn receive(&self, res: Response) -> (r: Result<Self::Response, Error>)
        ensures
            self.receives(res@, r),
    ;
}

} // verus!
