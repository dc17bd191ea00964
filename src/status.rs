use vstd::prelude::*;

verus! {

/// Presentation colour of a report that went well.
pub const SUCCESS: &'static str = "#4dff4d";

/// Presentation colour of a report that needs attention.
pub const WARNING: &'static str = "#ffe400";

/// Presentation colour of a report that failed.
pub const FAILURE: &'static str = "#ff5050";

/// Presentation colour of a report with nothing to say.
pub const NEUTRAL: &'static str = "#ffffff";

/// Severity class of a status: used for presentation only, never for control flow.
#[derive(Clone, Copy, Debug, PartialEq, Eq, Structural)]
pub enum Status {
    Success,
    Warning,
    Failure,
    Neutral,
}

/// The colour in which a severity class is shown.
pub open spec fn color_of(s: Status) -> Seq<char> {
    match s {
        Status::Success => SUCCESS@,
        Status::Warning => WARNING@,
        Status::Failure => FAILURE@,
        Status::Neutral => NEUTRAL@,
    }
}

impl Status {
    /// The colour in which this severity class is shown.
    pub fn as_str(&self) -> (r: &'static str)
        ensures
            r@ == color_of(*self),
    {
        match self {
            Status::Success => SUCCESS,
            Status::Warning => WARNING,
            Status::Failure => FAILURE,
            Status::Neutral => NEUTRAL,
        }
    }
}

/// What the client can observe of one whitelist request.
#[derive(Clone, Copy, Debug, PartialEq, Eq, Structural)]
pub enum StatusKind {
    /// Nothing has been reported yet.
    Initial,
    /// The connection could not be made, or failed midway.
    Connection,
    /// Outcome code 0.
    ServerDown,
    /// Outcome code 1.
    PlayerNotFound,
    /// Outcome code 2.
    Whitelisted,
    /// Outcome code 3.
    Success,
    /// A username or a password was blank.
    InvalidInput,
    /// The connection is open and the request is on its way.
    Connecting,
    /// Any other reply of the server.
    Unexpected,
}

/// The outcome that a reply byte stands for.
pub open spec fn decode(b: u8) -> StatusKind {
    if b == 0 {
        StatusKind::ServerDown
    } else if b == 1 {
        StatusKind::PlayerNotFound
    } else if b == 2 {
        StatusKind::Whitelisted
    } else if b == 3 {
        StatusKind::Success
    } else {
        StatusKind::Unexpected
    }
}

/// The severity class of each status.
pub open spec fn severity(k: StatusKind) -> Status {
    match k {
        StatusKind::Success | StatusKind::Whitelisted => Status::Success,
        StatusKind::Connection
        | StatusKind::ServerDown
        | StatusKind::Unexpected
        | StatusKind::PlayerNotFound
        | StatusKind::InvalidInput => Status::Warning,
        StatusKind::Connecting | StatusKind::Initial => Status::Neutral,
    }
}

/// The message shown for each status; `Initial` is never shown and has none.
pub open spec fn message(k: StatusKind) -> Seq<char> {
    match k {
        StatusKind::Initial => ""@,
        StatusKind::Connection => "Failed to connect to server"@,
        StatusKind::ServerDown => "Minecraft server is down"@,
        StatusKind::PlayerNotFound => "Player doesn't exist"@,
        StatusKind::Whitelisted => "Already whitelisted"@,
        StatusKind::Success => "Success"@,
        StatusKind::InvalidInput => "Invalid input"@,
        StatusKind::Connecting => "Connecting..."@,
        StatusKind::Unexpected => "Unexpected server response"@,
    }
}

impl StatusKind {
    /// Maps an outcome byte of the server to a status: 0 to 3 are the known
    /// outcomes, every other byte is an unexpected response.
    pub fn from_u8(byte: &u8) -> (r: Self)
        ensures
            r == decode(*byte),
            *byte == 0 ==> r == StatusKind::ServerDown,
            *byte == 1 ==> r == StatusKind::PlayerNotFound,
            *byte == 2 ==> r == StatusKind::Whitelisted,
            *byte == 3 ==> r == StatusKind::Success,
            *byte > 3 ==> r == StatusKind::Unexpected,
    {
        match *byte {
            0 => StatusKind::ServerDown,
            1 => StatusKind::PlayerNotFound,
            2 => StatusKind::Whitelisted,
            3 => StatusKind::Success,
            _ => StatusKind::Unexpected,
        }
    }

    /// The severity class of this status.
    pub fn status(&self) -> (r: Status)
        ensures
            r == severity(*self),
    {
        match self {
            StatusKind::Success | StatusKind::Whitelisted => Status::Success,
            StatusKind::Connection
            | StatusKind::ServerDown
            | StatusKind::Unexpected
            | StatusKind::PlayerNotFound
            | StatusKind::InvalidInput => Status::Warning,
            StatusKind::Connecting | StatusKind::Initial => Status::Neutral,
        }
    }

    /// The message shown for this status.
    pub fn as_str(&self) -> (r: &'static str)
        ensures
            r@ == message(*self),
    {
        match self {
            StatusKind::Initial => "",
            StatusKind::Connection => "Failed to connect to server",
            StatusKind::ServerDown => "Minecraft server is down",
            StatusKind::PlayerNotFound => "Player doesn't exist",
            StatusKind::Whitelisted => "Already whitelisted",
            StatusKind::Success => "Success",
            StatusKind::InvalidInput => "Invalid input",
            StatusKind::Connecting => "Connecting...",
            StatusKind::Unexpected => "Unexpected server response",
        }
    }

    /// The message and the severity class of this status, shown together.
    pub fn display(&self) -> (r: (&'static str, Status))
        ensures
            r.0@ == message(*self),
            r.1 == severity(*self),
    {
        (self.as_str(), self.status())
    }

    /// Whether this status is to be shown at all: every status but `Initial`.
    pub fn is_new(&self) -> (r: bool)
        ensures
            r == (*self != StatusKind::Initial),
    {
        !matches!(self, StatusKind::Initial)
    }
}

} // verus!
