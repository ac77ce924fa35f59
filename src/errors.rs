use vstd::prelude::*;

verus! {

/// The failures of a connection, without the server's own errors.
#[derive(Debug)]
pub enum SonicError {
    ConnectToServer,
    WriteToStream,
    ReadStream,
    SwitchMode,
    RunCommand,
    QueryResponseError(&'static str),
}

/// The human-readable text of a connection failure.
pub open spec fn sonic_error_message(e: SonicError) -> Seq<char> {
    match e {
        SonicError::ConnectToServer => "Cannot connect to server"@,
        SonicError::WriteToStream => "Cannot write data to stream"@,
        SonicError::ReadStream => "Cannot read sonic response from stream"@,
        SonicError::SwitchMode => "Cannot switch channel mode"@,
        SonicError::RunCommand => "Cannot run command in current mode"@,
        SonicError::QueryResponseError(m) => "Error in query response: "@ + m@,
    }
}

impl SonicError {
    /// The human-readable text of the failure.
    pub fn message(&self) -> (r: String)
        ensures
            r@ == sonic_error_message(*self),
    {
        match self {
            SonicError::ConnectToServer => "Cannot connect to server".to_owned(),
            SonicError::WriteToStream => "Cannot write data to stream".to_owned(),
            SonicError::ReadStream => "Cannot read sonic response from stream".to_owned(),
            SonicError::SwitchMode => "Cannot switch channel mode".to_owned(),
            SonicError::RunCommand => "Cannot run command in current mode".to_owned(),
            SonicError::QueryResponseError(m) => {
                let mut s = "Error in query response: ".to_owned();
                s.append(m);
                s
            },
        }
    }
}

} // verus!
