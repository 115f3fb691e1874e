//! What is sent to the presence channel, and what is said on the way.

use crate::snapshot::{Presentation, PresentationText};
use vstd::prelude::*;
use vstd::string::*;

verus! {

/// The image shown beside every activity.
pub const LARGE_IMAGE: &'static str =
    "https://s2.qwant.com/thumbr/0x380/f/1/a63bf84e940773357439bba0cd9544a5626f172fe1e65f6fc873818cda4103/uybguvnj1p821.png?u=https%3A%2F%2Fi.redd.it%2Fuybguvnj1p821.png";

/// The label shown with the image.
pub const LARGE_TEXT: &'static str = "https://github.com/Radiicall/jellyfin-rpc";

/// One activity, as the presence channel takes it.
#[derive(Debug, PartialEq, Eq)]
pub struct ActivityPayload {
    /// The headline.
    pub details: String,
    /// The second line, where the presentation has one.
    pub state: Option<String>,
    /// When the presence session opened, in seconds since the epoch.
    pub start: i64,
    /// The image's address.
    pub large_image: String,
    /// The image's label.
    pub large_text: String,
}

/// The mathematical value of an [`ActivityPayload`].
pub struct Activity {
    pub details: Seq<char>,
    pub state: Option<Seq<char>>,
    pub start: int,
    pub large_image: Seq<char>,
    pub large_text: Seq<char>,
}

impl View for ActivityPayload {
    type V = Activity;

    open spec fn view(&self) -> Activity {
        Activity {
            details: self.details@,
            state: match self.state {
                Some(line) => Some(line@),
                None => None,
            },
            start: self.start as int,
            large_image: self.large_image@,
            large_text: self.large_text@,
        }
    }
}

/// The activity for a presentation in a presence session that opened at
/// `start`: the presentation's headline, its second line unless that is
/// empty, the start, and the fixed image and label.
pub open spec fn activity_of(shown: Presentation, start: int) -> Activity {
    Activity {
        details: shown.details,
        state: if shown.state.len() == 0 {
            None
        } else {
            Some(shown.state)
        },
        start,
        large_image: LARGE_IMAGE@,
        large_text: LARGE_TEXT@,
    }
}

impl ActivityPayload {
    /// Builds the activity for a presentation: see [`activity_of`].
    pub fn new(shown: &PresentationText, start: i64) -> (payload: ActivityPayload)
        ensures
            payload@ == activity_of(shown@, start as int),
    {
        let state = if shown.state.as_str().is_empty() {
            None
        } else {
            Some(shown.state.clone())
        };
        ActivityPayload {
            details: shown.details.clone(),
            state,
            start,
            large_image: String::from_str(LARGE_IMAGE),
            large_text: String::from_str(LARGE_TEXT),
        }
    }
}

/// A status line for the operator.
#[derive(Debug, PartialEq, Eq)]
pub enum Notice {
    /// A connect attempt failed and will be made again.
    ConnectRetry,
    /// The presence connection is open; `details` is what will be shown.
    Connected { details: String },
    /// The presence connection was closed.
    Disconnected,
}

/// The mathematical value of a [`Notice`].
pub enum Status {
    ConnectRetry,
    Connected { details: Seq<char> },
    Disconnected,
}

impl View for Notice {
    type V = Status;

    open spec fn view(&self) -> Status {
        match self {
            Notice::ConnectRetry => Status::ConnectRetry,
            Notice::Connected { details } => Status::Connected { details: details@ },
            Notice::Disconnected => Status::Disconnected,
        }
    }
}

impl Status {
    /// The line that is written for the status.
    pub open spec fn line(self) -> Seq<char> {
        match self {
            Status::ConnectRetry => "Failed to connect, retrying in 10 seconds"@,
            Status::Connected { details } => {
                "//////////////////////////////////////////////////////////////////\nConnected to Discord RPC client\n//////////////////////////////////////////////////////////////////\n"@
                    + details
            },
            Status::Disconnected => "Disconnected from Discord RPC client"@,
        }
    }
}

impl Notice {
    /// Writes the notice out: see [`Status::line`].
    pub fn line(&self) -> (text: String)
        ensures
            text@ == self@.line(),
    {
        match self {
            Notice::ConnectRetry => String::from_str("Failed to connect, retrying in 10 seconds"),
            Notice::Connected { details } => {
                let mut text = String::from_str(
                    "//////////////////////////////////////////////////////////////////\nConnected to Discord RPC client\n//////////////////////////////////////////////////////////////////\n",
                );
                text.append(details.as_str());
                text
            },
            Notice::Disconnected => String::from_str("Disconnected from Discord RPC client"),
        }
    }
}

/// A failure of the presence channel after which the process cannot go on.
#[derive(Debug, Clone, Copy, PartialEq, Eq, Structural)]
pub enum Fatal {
    /// The client could not be made for the application identifier.
    ClientSetup,
    /// An activity could not be pushed.
    ActivityPush,
    /// The connection could not be closed.
    Close,
}

impl Fatal {
    /// What is said of the failure.
    pub open spec fn message_of(self) -> Seq<char> {
        match self {
            Fatal::ClientSetup => "Failed to create Discord RPC client, discord is down or the Client ID is invalid."@,
            Fatal::ActivityPush => "Failed to set activity"@,
            Fatal::Close => "Failed to close Discord RPC client"@,
        }
    }

    /// What to say of the failure: see [`Fatal::message_of`].
    pub fn message(self) -> (text: &'static str)
        ensures
            text@ == self.message_of(),
    {
        match self {
            Fatal::ClientSetup => "Failed to create Discord RPC client, discord is down or the Client ID is invalid.",
            Fatal::ActivityPush => "Failed to set activity",
            Fatal::Close => "Failed to close Discord RPC client",
        }
    }
}

} // verus!
