//! The toggle exchange as a state machine. The caller performs each pending
//! action (open a socket, send a datagram, wait for the reply) and reports
//! how it went; the machine decides what comes next.
use vstd::prelude::*;
use crate::protocol::{get_state_request, set_state_request, get_state_text, set_state_text};
use crate::reply::{ExchangeError, reply_state_field, read_reply, reading_spec};

verus! {

/// Where an exchange stands.
#[derive(Debug, Clone, Copy, PartialEq, Eq)]
pub enum Phase {
    /// The datagram socket is to be opened, with its receive timeout.
    Opening,
    /// The Get-State request is to be sent.
    Querying,
    /// The reply to the Get-State request is awaited.
    AwaitingReply,
    /// The Set-State command for the given state is to be sent.
    Commanding(bool),
    /// The exchange is over: the Set-State command for this state was sent.
    Toggled(bool),
    /// The exchange stopped before it was done.
    Failed(ExchangeError),
}

/// How the last pending action went.
#[derive(Debug)]
pub enum Event {
    /// The socket was opened, or the datagram was handed to the network.
    Done,
    /// The reply datagram arrived with these bytes.
    Received(Vec<u8>),
    /// No reply arrived within the timeout.
    TimedOut,
    /// The action failed at the network layer.
    Failed,
}

/// What the caller has to do next.
#[derive(Debug, PartialEq, Eq)]
pub enum Action {
    /// Open an unbound IPv4 datagram socket with the receive timeout.
    Open,
    /// Send this datagram to the bulb.
    Send(String),
    /// Wait for one reply datagram.
    Receive,
    /// Nothing is left to do: the exchange is over.
    Stop,
}

/// Abstract form of an action: the datagram as its characters.
pub enum ActionView {
    Open,
    Send(Seq<char>),
    Receive,
    Stop,
}

impl Action {
    pub open spec fn view(&self) -> ActionView {
        match self {
            Action::Open => ActionView::Open,
            Action::Send(s) => ActionView::Send(s@),
            Action::Receive => ActionView::Receive,
            Action::Stop => ActionView::Stop,
        }
    }
}

/// The action that a phase waits on.
pub open spec fn pending(p: Phase) -> ActionView {
    match p {
        Phase::Opening => ActionView::Open,
        Phase::Querying => ActionView::Send(get_state_text()),
        Phase::AwaitingReply => ActionView::Receive,
        Phase::Commanding(on) => ActionView::Send(set_state_text(on)),
        Phase::Toggled(_) | Phase::Failed(_) => ActionView::Stop,
    }
}

/// Whether the exchange is over.
pub open spec fn is_over(p: Phase) -> bool {
    p is Toggled || p is Failed
}

/// How an exchange in phase `p` ended, if it did.
pub open spec fn outcome_of(p: Phase) -> Option<Result<bool, ExchangeError>> {
    match p {
        Phase::Toggled(on) => Some(Ok(on)),
        Phase::Failed(e) => Some(Err(e)),
        _ => None,
    }
}

/// Whether `e` is a possible outcome of the action that `p` waits on.
pub open spec fn expects(p: Phase, e: Event) -> bool {
    match p {
        Phase::Opening | Phase::Querying | Phase::Commanding(_) => e is Done || e is Failed,
        Phase::AwaitingReply => !(e is Done),
        Phase::Toggled(_) | Phase::Failed(_) => false,
    }
}

/// The phase after the bulb's reply was read as `reading`: the inverse of
/// the reported state is commanded, and a reply without a state ends the
/// exchange.
pub open spec fn after_reading(reading: Result<bool, ExchangeError>) -> Phase {
    match reading {
        Ok(s) => Phase::Commanding(!s),
        Err(e) => Phase::Failed(e),
    }
}

/// The phase after `e` happened in phase `p` (where `expects(p, e)`).
pub open spec fn next_phase(p: Phase, e: Event) -> Phase {
    match e {
        Event::Failed => Phase::Failed(ExchangeError::Network),
        Event::TimedOut => Phase::Failed(ExchangeError::Timeout),
        Event::Received(b) => after_reading(reading_spec(reply_state_field(b@))),
        Event::Done => match p {
            Phase::Opening => Phase::Querying,
            Phase::Querying => Phase::AwaitingReply,
            Phase::Commanding(on) => Phase::Toggled(on),
            _ => p,
        },
    }
}

/// One toggle exchange with the bulb.
pub struct Toggle {
    pub phase: Phase,
}

impl Toggle {
    /// A fresh exchange; its first action is to open the socket.
    pub fn new() -> (t: Toggle)
        ensures
            t.phase == Phase::Opening,
    {
        Toggle { phase: Phase::Opening }
    }

    /// Whether the exchange is over.
    pub fn is_finished(&self) -> (r: bool)
        ensures
            r == is_over(self.phase),
    {
        matches!(self.phase, Phase::Toggled(_) | Phase::Failed(_))
    }

    /// How the exchange ended: the state commanded, or why it stopped;
    /// `None` while it runs.
    pub fn outcome(&self) -> (r: Option<Result<bool, ExchangeError>>)
        ensures
            r == outcome_of(self.phase),
    {
        match self.phase {
            Phase::Toggled(on) => Some(Ok(on)),
            Phase::Failed(e) => Some(Err(e)),
            _ => None,
        }
    }

    /// The action that the exchange waits on.
    pub fn action(&self) -> (a: Action)
        ensures
            a@ == pending(self.phase),
    {
        match self.phase {
            Phase::Opening => Action::Open,
            Phase::Querying => Action::Send(get_state_request()),
            Phase::AwaitingReply => Action::Receive,
            Phase::Commanding(on) => Action::Send(set_state_request(on)),
            Phase::Toggled(_) | Phase::Failed(_) => Action::Stop,
        }
    }

    /// Whether `e` is a possible outcome of the action that the exchange waits on.
    pub fn expects(&self, e: &Event) -> (r: bool)
        ensures
            r == expects(self.phase, *e),
    {
        match self.phase {
            Phase::Opening | Phase::Querying | Phase::Commanding(_) => {
                matches!(e, Event::Done) || matches!(e, Event::Failed)
            },
            Phase::AwaitingReply => !matches!(e, Event::Done),
            Phase::Toggled(_) | Phase::Failed(_) => false,
        }
    }

    /// Takes the bulb's reply, already read as `reading`.
    pub fn take_reading(&mut self, reading: Result<bool, ExchangeError>)
        requires
            old(self).phase == Phase::AwaitingReply,
        ensures
            final(self).phase == after_reading(reading),
    {
        self.phase = match reading {
            Ok(s) => Phase::Commanding(!s),
            Err(e) => Phase::Failed(e),
        };
    }

    /// Takes the outcome of the pending action and moves to the next phase.
    pub fn step(&mut self, e: Event)
        requires
            expects(old(self).phase, e),
        ensures
            final(self).phase == next_phase(old(self).phase, e),
    {
        match e {
            Event::Failed => {
                self.phase = Phase::Failed(ExchangeError::Network);
            },
            Event::TimedOut => {
                self.phase = Phase::Failed(ExchangeError::Timeout);
            },
            Event::Received(b) => {
                let reading = read_reply(b.as_slice());
                self.take_reading(reading);
            },
            Event::Done => {
                self.phase = match self.phase {
                    Phase::Opening => Phase::Querying,
                    Phase::Querying => Phase::AwaitingReply,
                    Phase::Commanding(on) => Phase::Toggled(on),
                    p => p,
                };
            },
        }
    }
}

} // verus!
