use super::StreamCommand;
use crate::channel::ChannelMode;
use crate::protocol::{Request, Response, ResponseView, Version};
use crate::result::{Error, ErrorView};
use vstd::prelude::*;

verus! {

/// Starts a mode with a password.
#[derive(Debug)]
pub struct StartCommand {
    pub mode: ChannelMode,
    pub password: String,
}

/// What a started mode is run with.
#[derive(Debug, Clone, Copy, PartialEq, Eq, Structural)]
pub struct StartCommandResponse {
    pub protocol_version: Version,
    pub max_buffer_size: usize,
    pub mode: ChannelMode,
}

impl StreamCommand for StartCommand {
    type Response = StartCommandResponse;

    open spec fn sends(&self, req: Request) -> bool {
        req matches Request::Start { mode, password } && mode == self.mode && password@
            == self.password@
    }

    /// A `STARTED` response with a known protocol version starts the mode;
    /// any other response fails the switch.
    open spec fn receives(&self, res: ResponseView, r: Result<StartCommandResponse, Error>) -> bool {
        match res {
            ResponseView::Started(p) => if p.protocol_version == 1 {
                r == Ok::<StartCommandResponse, Error>(
                    StartCommandResponse {
                        protocol_version: Version::V1,
                        max_buffer_size: p.max_buffer_size,
                        mode: self.mode,
                    },
                )
            } else {
                r is Err && r->Err_0@ == ErrorView::SwitchMode
            },
            _ => r is Err && r->Err_0@ == ErrorView::SwitchMode,
        }
    }

    fn request(&self) -> (r: Request) {
        Request::Start { mode: self.mode, password: self.password.clone() }
    }

    fn receive(&self, res: Response) -> (r: Result<StartCommandResponse, Error>) {
        match res {
            Response::Started(payload) => match Version::try_from(payload.protocol_version) {
                Ok(v) => Ok(
                    StartCommandResponse {
                        protocol_version: v,
                        max_buffer_size: payload.max_buffer_size,
                        mode: self.mode,
                    },
                ),
                Err(_) => Err(Error::SwitchMode),
            },
            _ => Err(Error::SwitchMode),
        }
    }
}

} // verus!
