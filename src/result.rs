use crate::channel::{mode_name, ChannelMode};
use vstd::prelude::*;

verus! {

/// Every way a call of this library can fail.
#[derive(Debug)]
pub enum Error {
    /// The server could not be reached, or did not greet as expected.
    ConnectToServer,
    /// A request could not be written to the connection.
    WriteToStream,
    /// A response could not be read from the connection.
    ReadStream,
    /// Starting a mode failed: the connection was started already, or the
    /// server refused the mode or the password.
    SwitchMode,
    /// The command cannot run in the current mode.
    RunCommand,
    /// A query response carried an error, with a message.
    QueryResponse(&'static str),
    /// A line had none of the known shapes, a number in it did not parse, or
    /// the response did not fit the command.
    WrongResponse,
    /// The command is not available in the given mode (or before any mode).
    UnsupportedCommand((&'static str, Option<ChannelMode>)),
    /// The server answered `ERR` with this message.
    SonicServer(String),
    /// A deferred result carried another id than its acknowledgment.
    CorrelationMismatch,
}

/// `Error` with its strings as character sequences.
pub enum ErrorView {
    ConnectToServer,
    WriteToStream,
    ReadStream,
    SwitchMode,
    RunCommand,
    QueryResponse(Seq<char>),
    WrongResponse,
    UnsupportedCommand(Seq<char>, Option<ChannelMode>),
    SonicServer(Seq<char>),
    CorrelationMismatch,
}

impl View for Error {
    type V = ErrorView;

    open spec fn view(&self) -> ErrorView {
        match self {
            Error::ConnectToServer => ErrorView::ConnectToServer,
            Error::WriteToStream => ErrorView::WriteToStream,
            Error::ReadStream => ErrorView::ReadStream,
            Error::SwitchMode => ErrorView::SwitchMode,
            Error::RunCommand => ErrorView::RunCommand,
            Error::QueryResponse(m) => ErrorView::QueryResponse(m@),
            Error::WrongResponse => ErrorView::WrongResponse,
            Error::UnsupportedCommand((c, m)) => ErrorView::UnsupportedCommand(c@, *m),
            Error::SonicServer(m) => ErrorView::SonicServer(m@),
            Error::CorrelationMismatch => ErrorView::CorrelationMismatch,
        }
    }
}

/// A result with its values replaced by their views.
pub open spec fn result_view<T: View>(r: Result<T, Error>) -> Result<T::V, ErrorView> {
    match r {
        Ok(v) => Ok(v@),
        Err(e) => Err(e@),
    }
}

/// The human-readable text of an error.
pub open spec fn error_message(e: ErrorView) -> Seq<char> {
    match e {
        ErrorView::ConnectToServer => "Cannot connect to server"@,
        ErrorView::WriteToStream => "Cannot write data to stream"@,
        ErrorView::ReadStream => "Cannot read sonic response from stream"@,
        ErrorView::SwitchMode => "Cannot switch channel mode"@,
        ErrorView::RunCommand => "Cannot run command in current mode"@,
        ErrorView::QueryResponse(m) => "Error in query response: "@ + m,
        ErrorView::WrongResponse => "Client cannot parse response from sonic server. Please write an issue to github (https://github.com/pleshevskiy/sonic-channel)."@,
        ErrorView::UnsupportedCommand(c, Some(mode)) => "You cannot use `"@ + c
            + "` command in "@ + mode_name(mode) + " sonic channel mode"@,
        ErrorView::UnsupportedCommand(c, None) => "You need to connect to sonic channel before use "@
            + c + " command"@,
        ErrorView::SonicServer(m) => "Sonic Server-side error: "@ + m,
        ErrorView::CorrelationMismatch => "Deferred result does not match its acknowledgment"@,
    }
}

impl Error {
    /// The human-readable text of the error.
    pub fn message(&self) -> (r: String)
        ensures
            r@ == error_message(self@),
    {
        match self {
            Error::ConnectToServer => "Cannot connect to server".to_owned(),
            Error::WriteToStream => "Cannot write data to stream".to_owned(),
            Error::ReadStream => "Cannot read sonic response from stream".to_owned(),
            Error::SwitchMode => "Cannot switch channel mode".to_owned(),
            Error::RunCommand => "Cannot run command in current mode".to_owned(),
            Error::QueryResponse(m) => {
                let mut s = "Error in query response: ".to_owned();
                s.append(m);
                s
            },
            Error::WrongResponse => "Client cannot parse response from sonic server. Please write an issue to github (https://github.com/pleshevskiy/sonic-channel).".to_owned(),
            Error::UnsupportedCommand((c, Some(mode))) => {
                let mut s = "You cannot use `".to_owned();
                s.append(c);
                s.append("` command in ");
                s.append(mode.as_str());
                s.append(" sonic channel mode");
                s
            },
            Error::UnsupportedCommand((c, None)) => {
                let mut s = "You need to connect to sonic channel before use ".to_owned();
                s.append(c);
                s.append(" command");
                s
            },
            Error::SonicServer(m) => {
                let mut s = "Sonic Server-side error: ".to_owned();
                s.append(m.as_str());
                s
            },
            Error::CorrelationMismatch => "Deferred result does not match its acknowledgment".to_owned(),
        }
    }
}

} // verus!
