//! Client library for a line-oriented search backend protocol: the wire
//! codec, the reader of deferred results and the connection state machine.
//! The transport itself is the caller's: this library turns requests into
//! lines, lines into responses, and responses into state changes.

pub mod channel;
pub mod commands;
pub mod errors;
pub mod misc;
pub mod protocol;
pub mod reader;
pub mod result;
pub mod text;

pub use channel::{ChannelMode, ChannelState, UNINITIALIZED_MODE_MAX_BUFFER_SIZE};
pub use commands::{
    CountCommand, CountRequest, FlushCommand, FlushRequest, ListCommand, ListRequest,
    PingCommand, PopCommand, PopRequest, PushCommand, PushRequest, QueryCommand, QueryRequest,
    QuitCommand, StartCommand, StartCommandResponse, StreamCommand, SuggestCommand,
    SuggestRequest, TriggerCommand, TriggerRequest,
};
pub use errors::SonicError;
pub use misc::{Dest, LangCode, ObjDest};
pub use protocol::{parse_server_config, EventKind, Protocol, Request, Response, StartedPayload, Version};
pub use reader::ResponseReader;
pub use result::Error;
pub use text::remove_multiline;
