//! The presence state machine.
//!
//! The controller owns the state of the presence session and makes every
//! decision; its caller does the work. The caller hands in what happened as an
//! [`Event`], carries out the [`Command`]s it gets back in their order, and
//! answers a [`Command::Connect`] with the outcome of the attempt. After any
//! other last command it looks at the session list again and hands in what it
//! observed.

use crate::activity::{activity_of, Activity, ActivityPayload, Notice, Status};
use crate::snapshot::{present, presentation_of, Media, MediaSnapshot, Presentation, PresentationText};
use vstd::prelude::*;

verus! {

/// Seconds between two looks at the session list.
pub const POLL_PERIOD_SECS: u64 = 18;

/// Seconds between a failed connect attempt and the next.
pub const CONNECT_RETRY_SECS: u64 = 10;

/// Seconds that a closed connection is given to settle.
pub const CLOSE_SETTLE_SECS: u64 = 8;

/// What happened since the controller was last asked.
#[derive(Debug, PartialEq, Eq)]
pub enum Event {
    /// The session list was looked at; a failed look counts as idle.
    Observed(MediaSnapshot),
    /// The connect attempt failed.
    ConnectFailed,
    /// The connect attempt succeeded; `now` is the time right after it, in
    /// seconds since the epoch.
    ConnectEstablished { now: i64 },
}

/// The mathematical value of an [`Event`].
pub enum Signal {
    Observed(Media),
    ConnectFailed,
    ConnectEstablished { now: int },
}

impl View for Event {
    type V = Signal;

    open spec fn view(&self) -> Signal {
        match self {
            Event::Observed(snapshot) => Signal::Observed(snapshot@),
            Event::ConnectFailed => Signal::ConnectFailed,
            Event::ConnectEstablished { now } => Signal::ConnectEstablished { now: *now as int },
        }
    }
}

/// One thing for the caller to do.
#[derive(Debug, PartialEq, Eq)]
pub enum Command {
    /// Try once to open the presence connection, and report the outcome.
    Connect,
    /// Push this activity; a failure is fatal.
    Push(ActivityPayload),
    /// Close the presence connection; a failure is fatal.
    Close,
    /// Do nothing for this long.
    Wait { seconds: u64 },
    /// Write this status line.
    Announce(Notice),
}

/// The mathematical value of a [`Command`].
pub enum Operation {
    Connect,
    Push(Activity),
    Close,
    Wait { seconds: int },
    Announce(Status),
}

impl View for Command {
    type V = Operation;

    open spec fn view(&self) -> Operation {
        match self {
            Command::Connect => Operation::Connect,
            Command::Push(payload) => Operation::Push(payload@),
            Command::Close => Operation::Close,
            Command::Wait { seconds } => Operation::Wait { seconds: *seconds as int },
            Command::Announce(notice) => Operation::Announce(notice@),
        }
    }
}

/// The values of a list of commands, in order.
pub open spec fn operations_of(commands: Seq<Command>) -> Seq<Operation> {
    Seq::new(commands.len(), |i: int| commands[i]@)
}

/// Where the presence connection stands.
#[derive(Debug, PartialEq, Eq)]
pub enum Link {
    /// There is no connection.
    Disconnected,
    /// There is no connection yet, and one is being opened to show this.
    Opening(PresentationText),
    /// The connection is open.
    Connected,
}

/// The mathematical value of a [`Link`].
pub enum Phase {
    Disconnected,
    Opening(Presentation),
    Connected,
}

impl View for Link {
    type V = Phase;

    open spec fn view(&self) -> Phase {
        match self {
            Link::Disconnected => Phase::Disconnected,
            Link::Opening(shown) => Phase::Opening(shown@),
            Link::Connected => Phase::Connected,
        }
    }
}

/// The state of the presence session. There is one, made at startup and
/// changed by [`SessionState::handle`] alone.
#[derive(Debug, PartialEq, Eq)]
pub struct SessionState {
    link: Link,
    session_start: i64,
    last_presentation: Option<PresentationText>,
}

/// The mathematical value of a [`SessionState`].
pub struct Machine {
    pub phase: Phase,
    /// When the presence session opened; kept until the next one opens.
    pub session_start: int,
    /// What was announced when the presence session opened.
    pub last_presentation: Option<Presentation>,
}

impl View for SessionState {
    type V = Machine;

    closed spec fn view(&self) -> Machine {
        Machine {
            phase: self.link@,
            session_start: self.session_start as int,
            last_presentation: match self.last_presentation {
                Some(shown) => Some(shown@),
                None => None,
            },
        }
    }
}

/// What is done after a teardown: close, let the connection settle, say so,
/// and wait out one period.
pub open spec fn teardown() -> Seq<Operation> {
    seq![
        Operation::Close,
        Operation::Wait { seconds: CLOSE_SETTLE_SECS as int },
        Operation::Announce(Status::Disconnected),
        Operation::Wait { seconds: POLL_PERIOD_SECS as int },
    ]
}

/// What is done where nothing else is: wait out one period.
pub open spec fn rest() -> Seq<Operation> {
    seq![Operation::Wait { seconds: POLL_PERIOD_SECS as int }]
}

impl Machine {
    /// The state at startup.
    pub open spec fn initial() -> Machine {
        Machine { phase: Phase::Disconnected, session_start: 0, last_presentation: None }
    }

    /// The presence connection is open.
    pub open spec fn connected(self) -> bool {
        self.phase is Connected
    }

    /// The state after a look at the session list.
    ///
    /// Connected, and the same text as was announced: nothing changes.
    /// Connected, and another text or none: disconnected; what was announced
    /// stays on record, so that the next look opens anew. Not connected: on
    /// the way to a connection for the text, or disconnected where there is
    /// none.
    pub open spec fn after_observed(self, media: Media) -> Machine {
        let shown = presentation_of(media);
        if self.connected() {
            if shown is Some && self.last_presentation == shown {
                self
            } else {
                Machine { phase: Phase::Disconnected, ..self }
            }
        } else {
            match shown {
                Some(text) => Machine { phase: Phase::Opening(text), ..self },
                None => Machine { phase: Phase::Disconnected, ..self },
            }
        }
    }

    /// What is done after a look at the session list.
    ///
    /// Connected, and the same text as was announced: its activity is pushed
    /// again, with the start of the presence session. Connected, and another
    /// text or none: the teardown. Not connected: one connect attempt for a
    /// text, and rest without one.
    pub open spec fn on_observed(self, media: Media) -> Seq<Operation> {
        let shown = presentation_of(media);
        if self.connected() {
            if shown is Some && self.last_presentation == shown {
                seq![
                    Operation::Push(activity_of(shown->0, self.session_start)),
                    Operation::Wait { seconds: POLL_PERIOD_SECS as int },
                ]
            } else {
                teardown()
            }
        } else {
            match shown {
                Some(_) => seq![Operation::Connect],
                None => rest(),
            }
        }
    }

    /// What is done after a failed connect attempt: say so, wait, and try
    /// again, without end. An outcome that answers no attempt is passed over.
    pub open spec fn on_connect_failed(self) -> Seq<Operation> {
        if self.phase is Opening {
            seq![
                Operation::Announce(Status::ConnectRetry),
                Operation::Wait { seconds: CONNECT_RETRY_SECS as int },
                Operation::Connect,
            ]
        } else {
            rest()
        }
    }

    /// The state after a connect attempt succeeded at `now`: connected, the
    /// presence session starts at `now`, and the text it was opened for is on
    /// record. An outcome that answers no attempt changes nothing.
    pub open spec fn after_established(self, now: int) -> Machine {
        match self.phase {
            Phase::Opening(text) => Machine {
                phase: Phase::Connected,
                session_start: now,
                last_presentation: Some(text),
            },
            _ => self,
        }
    }

    /// What is done after a connect attempt succeeded at `now`: say so, and
    /// push the activity of the text that the connection was opened for.
    pub open spec fn on_established(self, now: int) -> Seq<Operation> {
        match self.phase {
            Phase::Opening(text) => seq![
                Operation::Announce(Status::Connected { details: text.details }),
                Operation::Push(activity_of(text, now)),
                Operation::Wait { seconds: POLL_PERIOD_SECS as int },
            ],
            _ => rest(),
        }
    }

    /// The state after `signal`.
    pub open spec fn next(self, signal: Signal) -> Machine {
        match signal {
            Signal::Observed(media) => self.after_observed(media),
            Signal::ConnectFailed => self,
            Signal::ConnectEstablished { now } => self.after_established(now),
        }
    }

    /// What is done in answer to `signal`, in order.
    pub open spec fn answer(self, signal: Signal) -> Seq<Operation> {
        match signal {
            Signal::Observed(media) => self.on_observed(media),
            Signal::ConnectFailed => self.on_connect_failed(),
            Signal::ConnectEstablished { now } => self.on_established(now),
        }
    }
}

impl SessionState {
    /// The state at startup: disconnected, nothing announced.
    pub fn new() -> (state: SessionState)
        ensures
            state@ == Machine::initial(),
    {
        SessionState { link: Link::Disconnected, session_start: 0, last_presentation: None }
    }

    /// Whether the presence connection is open.
    pub fn connected(&self) -> (yes: bool)
        ensures
            yes == self@.connected(),
    {
        match &self.link {
            Link::Connected => true,
            _ => false,
        }
    }

    /// Whether a connect attempt is awaited.
    pub fn opening(&self) -> (yes: bool)
        ensures
            yes == (self@.phase is Opening),
    {
        match &self.link {
            Link::Opening(_) => true,
            _ => false,
        }
    }

    /// When the presence session opened.
    pub fn session_start(&self) -> (start: i64)
        ensures
            start == self@.session_start,
    {
        self.session_start
    }

    /// What was announced when the presence session opened.
    pub fn last_presentation(&self) -> (last: Option<PresentationText>)
        ensures
            match last {
                Some(shown) => self@.last_presentation == Some(shown@),
                None => self@.last_presentation is None,
            },
    {
        match &self.last_presentation {
            Some(shown) => Some(shown.clone()),
            None => None,
        }
    }

    /// Whether `shown` is what was announced.
    fn announced(&self, shown: &PresentationText) -> (yes: bool)
        ensures
            yes == (self@.last_presentation == Some(shown@)),
    {
        match &self.last_presentation {
            Some(last) => last.same_as(shown),
            None => false,
        }
    }

    /// Takes in what happened, moves to the next state, and says what to do.
    pub fn handle(&mut self, event: Event) -> (commands: Vec<Command>)
        ensures
            final(self)@ == old(self)@.next(event@),
            operations_of(commands@) == old(self)@.answer(event@),
    {
        let mut commands: Vec<Command> = Vec::new();
        match event {
            Event::Observed(snapshot) => {
                let shown = present(&snapshot);
                if self.connected() {
                    let unchanged = match &shown {
                        Some(text) => self.announced(text),
                        None => false,
                    };
                    match shown {
                        Some(text) if unchanged => {
                            commands.push(Command::Push(ActivityPayload::new(&text, self.session_start)));
                            commands.push(Command::Wait { seconds: POLL_PERIOD_SECS });
                        },
                        _ => {
                            self.link = Link::Disconnected;
                            commands.push(Command::Close);
                            commands.push(Command::Wait { seconds: CLOSE_SETTLE_SECS });
                            commands.push(Command::Announce(Notice::Disconnected));
                            commands.push(Command::Wait { seconds: POLL_PERIOD_SECS });
                        },
                    }
                } else {
                    match shown {
                        Some(text) => {
                            self.link = Link::Opening(text);
                            commands.push(Command::Connect);
                        },
                        None => {
                            self.link = Link::Disconnected;
                            commands.push(Command::Wait { seconds: POLL_PERIOD_SECS });
                        },
                    }
                }
            },
            Event::ConnectFailed => {
                if self.opening() {
                    commands.push(Command::Announce(Notice::ConnectRetry));
                    commands.push(Command::Wait { seconds: CONNECT_RETRY_SECS });
                    commands.push(Command::Connect);
                } else {
                    commands.push(Command::Wait { seconds: POLL_PERIOD_SECS });
                }
            },
            Event::ConnectEstablished { now } => {
                let pending = match &self.link {
                    Link::Opening(text) => Some(text.clone()),
                    _ => None,
                };
                match pending {
                    Some(text) => {
                        commands.push(Command::Announce(Notice::Connected { details: text.details.clone() }));
                        commands.push(Command::Push(ActivityPayload::new(&text, now)));
                        commands.push(Command::Wait { seconds: POLL_PERIOD_SECS });
                        self.link = Link::Connected;
                        self.session_start = now;
                        self.last_presentation = Some(text);
                    },
                    None => {
                        commands.push(Command::Wait { seconds: POLL_PERIOD_SECS });
                    },
                }
            },
        }
        commands
    }
}

} // verus!
