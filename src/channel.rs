use crate::commands::{StartCommand, StartCommandResponse};
use crate::protocol::{parse_line, Protocol, Response, ResponseView, Version};
use crate::result::{Error, ErrorView};
use vstd::prelude::*;

verus! {

/// The operating mode a connection is started in.
#[derive(Debug, Clone, Copy, PartialEq, Eq, Structural)]
pub enum ChannelMode {
    Search,
    Ingest,
    Control,
}

/// The name of a mode as it is written on the wire.
pub open spec fn mode_name(mode: ChannelMode) -> Seq<char> {
    match mode {
        ChannelMode::Search => "search"@,
        ChannelMode::Ingest => "ingest"@,
        ChannelMode::Control => "control"@,
    }
}

impl ChannelMode {
    /// The wire name of the mode.
    pub fn as_str(&self) -> (r: &'static str)
        ensures
            r@ == mode_name(*self),
    {
        match self {
            ChannelMode::Search => "search",
            ChannelMode::Ingest => "ingest",
            ChannelMode::Control => "control",
        }
    }

    /// The wire name of the mode; the same as `as_str`.
    pub fn to_str(&self) -> (r: &'static str)
        ensures
            r@ == mode_name(*self),
    {
        self.as_str()
    }
}

/// The I/O buffer size of a connection before any mode is started.
pub const UNINITIALIZED_MODE_MAX_BUFFER_SIZE: usize = 200;

/// Where a connection stands once the server has greeted it. A connection
/// starts one mode at most once, and keeps it; the server's limits come with
/// the start.
#[derive(Debug, Clone, Copy, PartialEq, Eq, Structural)]
pub enum ChannelState {
    /// Greeted; no mode chosen yet.
    Uninitialized,
    /// Started in `mode`, with the protocol version and buffer size the server
    /// advertised.
    Started { mode: ChannelMode, protocol_version: Version, max_buffer_size: usize },
}

/// The state a successful start leads to.
pub open spec fn started_state(p: StartCommandResponse) -> ChannelState {
    ChannelState::Started {
        mode: p.mode,
        protocol_version: p.protocol_version,
        max_buffer_size: p.max_buffer_size,
    }
}

/// Whether a failure lies with the connection itself rather than with what
/// the server answered.
pub open spec fn is_transport_error(e: ErrorView) -> bool {
    e is WriteToStream || e is ReadStream
}

impl ChannelState {
    /// The state after the server's greeting line `first_line`: a connection
    /// is only established where that line is `CONNECTED`.
    pub fn connect(protocol: &Protocol, first_line: &str) -> (r: Result<ChannelState, Error>)
        ensures
            parse_line(first_line@) matches Ok(ResponseView::Connected) ==> r
                == Ok::<ChannelState, Error>(ChannelState::Uninitialized),
            !(parse_line(first_line@) matches Ok(ResponseView::Connected)) ==> r is Err
                && r->Err_0@ == ErrorView::ConnectToServer,
    {
        match protocol.parse_response(first_line) {
            Ok(Response::Connected) => Ok(ChannelState::Uninitialized),
            _ => Err(Error::ConnectToServer),
        }
    }

    /// The mode the connection was started in, if any.
    pub fn mode(&self) -> (r: Option<ChannelMode>)
        ensures
            match self {
                ChannelState::Uninitialized => r is None,
                ChannelState::Started { mode, .. } => r == Some(*mode),
            },
    {
        match self {
            ChannelState::Uninitialized => None,
            ChannelState::Started { mode, .. } => Some(*mode),
        }
    }

    /// The I/O buffer size to use: the small default until a mode is started,
    /// then the server's.
    pub fn max_buffer_size(&self) -> (r: usize)
        ensures
            match self {
                ChannelState::Uninitialized => r == UNINITIALIZED_MODE_MAX_BUFFER_SIZE,
                ChannelState::Started { max_buffer_size, .. } => r == *max_buffer_size,
            },
    {
        match self {
            ChannelState::Uninitialized => UNINITIALIZED_MODE_MAX_BUFFER_SIZE,
            ChannelState::Started { max_buffer_size, .. } => *max_buffer_size,
        }
    }

    /// The codec to use: the default version until a mode is started, then
    /// the one the server advertised.
    pub fn protocol(&self) -> (r: Protocol)
        ensures
            match self {
                ChannelState::Uninitialized => r.version == Version::V1,
                ChannelState::Started { protocol_version, .. } => r.version == *protocol_version,
            },
    {
        match self {
            ChannelState::Uninitialized => Protocol::default(),
            ChannelState::Started { protocol_version, .. } => Protocol::from_version(
                *protocol_version,
            ),
        }
    }

    /// The command that starts `mode` with `password`. A connection that was
    /// started already cannot start again.
    pub fn start_command(&self, mode: ChannelMode, password: &str) -> (r: Result<
        StartCommand,
        Error,
    >)
        ensures
            *self is Started ==> r is Err && r->Err_0@ == ErrorView::SwitchMode,
            *self is Uninitialized ==> r is Ok && r->Ok_0.mode == mode && r->Ok_0.password@
                == password@,
    {
        match self {
            ChannelState::Started { .. } => Err(Error::SwitchMode),
            ChannelState::Uninitialized => Ok(
                StartCommand { mode, password: password.to_owned() },
            ),
        }
    }

    /// Takes the outcome of a start exchange. Where it succeeded, the
    /// connection is started with what the server advertised. Otherwise the
    /// state stays as it was and the start fails: with the transport's error
    /// where the connection failed, else with `SwitchMode`, so that a caller
    /// may try again. A connection that was started already stays as it was
    /// and the start fails with `SwitchMode`.
    pub fn start(&mut self, outcome: Result<StartCommandResponse, Error>) -> (r: Result<(), Error>)
        ensures
            *old(self) is Started ==> *final(self) == *old(self) && r is Err && r->Err_0@
                == ErrorView::SwitchMode,
            *old(self) is Uninitialized ==> match outcome {
                Ok(p) => *final(self) == started_state(p) && r is Ok,
                Err(e) => *final(self) == *old(self) && r is Err && (if is_transport_error(e@) {
                    r->Err_0@ == e@
                } else {
                    r->Err_0@ == ErrorView::SwitchMode
                }),
            },
    {
        if let ChannelState::Started { .. } = self {
            return Err(Error::SwitchMode);
        }
        match outcome {
            Ok(p) => {
                *self = ChannelState::Started {
                    mode: p.mode,
                    protocol_version: p.protocol_version,
                    max_buffer_size: p.max_buffer_size,
                };
                Ok(())
            },
            Err(Error::WriteToStream) => Err(Error::WriteToStream),
            Err(Error::ReadStream) => Err(Error::ReadStream),
            Err(_) => Err(Error::SwitchMode),
        }
    }
}

} // verus!
