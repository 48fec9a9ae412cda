//! The life of the Control Channel link.
//!
//! The client connects to the control plane, announces identity, streams
//! telemetry, and receives operator commands. Like the media pipeline, the
//! connection itself auto-reconnects with capped backoff; a dropped control link
//! never tears down an active stream. This module decides; the program around the
//! library connects, sends, receives and sleeps.

use vstd::prelude::*;

use crate::stream_state;

verus! {

#[derive(Debug, Clone, Copy, PartialEq, Eq, Structural)]
pub enum LinkPhase {
    /// A connection is being opened.
    Connecting,
    /// Connected; the identity is being announced.
    Greeting,
    /// Messages flow both ways.
    Open,
    /// A command is being handled.
    Handling,
    /// Waiting for the next attempt.
    Waiting,
    /// The client is shutting down.
    Done,
}

#[derive(Debug, Clone, Copy, PartialEq, Eq, Structural)]
pub enum LinkEvent {
    Connected,
    ConnectFailed,
    /// The hello went out (or there was none to send).
    Greeted,
    GreetFailed,
    /// A message of the client went out.
    Sent,
    /// A message of the client has no wire form and was dropped.
    Unsendable,
    /// A command came in; the number tells it from the others.
    Command { serial: u64 },
    /// The command was handled.
    Handled,
    /// A text came in that is no command.
    Unreadable,
    /// A ping was answered, or a message came in that means nothing here.
    OtherMessage,
    SendFailed,
    /// The server closed the connection.
    Closed,
    /// The connection broke.
    Broken,
    /// Nobody is left to send messages: the client is shutting down.
    OutboundDropped,
    /// The wait is over.
    Waited,
}

#[derive(Debug, Clone, Copy, PartialEq, Eq, Structural)]
pub enum LinkAction {
    Connect,
    SendHello,
    /// Take the next message from either side.
    Serve,
    /// Hand this command on to be handled.
    HandOn { serial: u64 },
    Sleep { millis: u64 },
    /// Close the connection for good.
    Close,
    /// The event means nothing in this phase.
    Ignore,
}

/// The link: its phase, and how many attempts have failed in a row.
#[derive(Debug, Clone, Copy, PartialEq, Eq, Structural)]
pub struct ControlLink {
    pub phase: LinkPhase,
    pub attempt: u32,
}

impl ControlLink {
    /// The link before the first attempt.
    pub open spec fn initial() -> ControlLink {
        ControlLink { phase: LinkPhase::Connecting, attempt: 0 }
    }

    pub fn new() -> (r: Self)
        ensures
            r == ControlLink::initial(),
    {
        ControlLink { phase: LinkPhase::Connecting, attempt: 0 }
    }

    /// The link while it waits for the next attempt.
    pub open spec fn waiting(self) -> ControlLink {
        ControlLink {
            phase: LinkPhase::Waiting,
            attempt: if self.attempt < u32::MAX {
                (self.attempt + 1) as u32
            } else {
                self.attempt
            },
        }
    }

    /// How long it waits.
    pub open spec fn pause(self) -> LinkAction {
        LinkAction::Sleep { millis: stream_state::delay_ms(self.attempt as nat) as u64 }
    }

    /// The link after an event.
    pub open spec fn after(self, event: LinkEvent) -> ControlLink {
        match (self.phase, event) {
            (LinkPhase::Connecting, LinkEvent::Connected) => ControlLink {
                phase: LinkPhase::Greeting,
                attempt: 0,
            },
            (LinkPhase::Connecting, LinkEvent::ConnectFailed) => self.waiting(),
            (LinkPhase::Greeting, LinkEvent::Greeted) => ControlLink { phase: LinkPhase::Open, ..self },
            (LinkPhase::Greeting, LinkEvent::GreetFailed) => self.waiting(),
            (LinkPhase::Open, LinkEvent::Command { .. }) => ControlLink {
                phase: LinkPhase::Handling,
                ..self
            },
            (LinkPhase::Handling, LinkEvent::Handled) => ControlLink { phase: LinkPhase::Open, ..self },
            (LinkPhase::Open, LinkEvent::SendFailed) => self.waiting(),
            (LinkPhase::Open, LinkEvent::Closed) => self.waiting(),
            (LinkPhase::Open, LinkEvent::Broken) => self.waiting(),
            (LinkPhase::Open, LinkEvent::OutboundDropped) => ControlLink {
                phase: LinkPhase::Done,
                ..self
            },
            (LinkPhase::Waiting, LinkEvent::Waited) => ControlLink {
                phase: LinkPhase::Connecting,
                ..self
            },
            _ => self,
        }
    }

    /// What is to be done on an event.
    pub open spec fn response(self, event: LinkEvent) -> LinkAction {
        match (self.phase, event) {
            (LinkPhase::Connecting, LinkEvent::Connected) => LinkAction::SendHello,
            (LinkPhase::Connecting, LinkEvent::ConnectFailed) => self.pause(),
            (LinkPhase::Greeting, LinkEvent::Greeted) => LinkAction::Serve,
            (LinkPhase::Greeting, LinkEvent::GreetFailed) => self.pause(),
            (LinkPhase::Open, LinkEvent::Sent) => LinkAction::Serve,
            (LinkPhase::Open, LinkEvent::Unsendable) => LinkAction::Serve,
            (LinkPhase::Open, LinkEvent::Command { serial }) => LinkAction::HandOn { serial },
            (LinkPhase::Handling, LinkEvent::Handled) => LinkAction::Serve,
            (LinkPhase::Open, LinkEvent::Unreadable) => LinkAction::Serve,
            (LinkPhase::Open, LinkEvent::OtherMessage) => LinkAction::Serve,
            (LinkPhase::Open, LinkEvent::SendFailed) => self.pause(),
            (LinkPhase::Open, LinkEvent::Closed) => self.pause(),
            (LinkPhase::Open, LinkEvent::Broken) => self.pause(),
            (LinkPhase::Open, LinkEvent::OutboundDropped) => LinkAction::Close,
            (LinkPhase::Waiting, LinkEvent::Waited) => LinkAction::Connect,
            _ => LinkAction::Ignore,
        }
    }

    fn back_off(&mut self) -> (r: LinkAction)
        ensures
            *final(self) == old(self).waiting(),
            r == old(self).pause(),
    {
        let millis: u64 = stream_state::backoff_ms(self.attempt);
        self.attempt = self.attempt.saturating_add(1);
        self.phase = LinkPhase::Waiting;
        LinkAction::Sleep { millis }
    }

    /// Move the link on by an event, and say what is to be done.
    pub fn step(&mut self, event: LinkEvent) -> (r: LinkAction)
        ensures
            *final(self) == old(self).after(event),
            r == old(self).response(event),
    {
        match (self.phase, event) {
            (LinkPhase::Connecting, LinkEvent::Connected) => {
                self.attempt = 0;
                self.phase = LinkPhase::Greeting;
                // Announce identity immediately on (re)connect.
                LinkAction::SendHello
            },
            (LinkPhase::Connecting, LinkEvent::ConnectFailed) => self.back_off(),
            (LinkPhase::Greeting, LinkEvent::Greeted) => {
                self.phase = LinkPhase::Open;
                LinkAction::Serve
            },
            (LinkPhase::Greeting, LinkEvent::GreetFailed) => self.back_off(),
            (LinkPhase::Open, LinkEvent::Sent) => LinkAction::Serve,
            (LinkPhase::Open, LinkEvent::Unsendable) => LinkAction::Serve,
            (LinkPhase::Open, LinkEvent::Command { serial }) => {
                self.phase = LinkPhase::Handling;
                LinkAction::HandOn { serial }
            },
            (LinkPhase::Handling, LinkEvent::Handled) => {
                self.phase = LinkPhase::Open;
                LinkAction::Serve
            },
            (LinkPhase::Open, LinkEvent::Unreadable) => LinkAction::Serve,
            (LinkPhase::Open, LinkEvent::OtherMessage) => LinkAction::Serve,
            (LinkPhase::Open, LinkEvent::SendFailed) => self.back_off(),
            (LinkPhase::Open, LinkEvent::Closed) => self.back_off(),
            (LinkPhase::Open, LinkEvent::Broken) => self.back_off(),
            (LinkPhase::Open, LinkEvent::OutboundDropped) => {
                self.phase = LinkPhase::Done;
                LinkAction::Close
            },
            (LinkPhase::Waiting, LinkEvent::Waited) => {
                self.phase = LinkPhase::Connecting;
                LinkAction::Connect
            },
            _ => LinkAction::Ignore,
        }
    }

    /// The link after a run of events.
    pub open spec fn after_all(self, events: Seq<LinkEvent>) -> ControlLink
        decreases events.len(),
    {
        if events.len() == 0 {
            self
        } else {
            self.after_all(events.drop_last()).after(events.last())
        }
    }

    /// The commands that came in on the open link in a run of events, in order.
    pub open spec fn received(self, events: Seq<LinkEvent>) -> Seq<u64>
        decreases events.len(),
    {
        if events.len() == 0 {
            seq![]
        } else {
            let before = events.drop_last();
            match events.last() {
                LinkEvent::Command { serial } if self.after_all(before).phase == LinkPhase::Open => {
                    self.received(before).push(serial)
                },
                _ => self.received(before),
            }
        }
    }

    /// The commands that are handed on in a run of events, in order.
    pub open spec fn handed_on(self, events: Seq<LinkEvent>) -> Seq<u64>
        decreases events.len(),
    {
        if events.len() == 0 {
            seq![]
        } else {
            let before = events.drop_last();
            match self.after_all(before).response(events.last()) {
                LinkAction::HandOn { serial } => self.handed_on(before).push(serial),
                _ => self.handed_on(before),
            }
        }
    }

    /// The link after so many attempts in a row that failed, each waited out.
    pub open spec fn after_failures(self, failures: nat) -> ControlLink
        decreases failures,
    {
        if failures == 0 {
            self
        } else {
            self.after_failures((failures - 1) as nat).after(LinkEvent::ConnectFailed).after(
                LinkEvent::Waited,
            )
        }
    }
}

/// The link keeps reconnecting for as long as the client runs: nothing but the
/// client's own shutdown ends it.
pub proof fn link_lives_as_long_as_the_client(link: ControlLink, events: Seq<LinkEvent>)
    requires
        link.phase != LinkPhase::Done,
        forall|i: int| 0 <= i < events.len() ==> #[trigger] events[i] != LinkEvent::OutboundDropped,
    ensures
        link.after_all(events).phase != LinkPhase::Done,
    decreases events.len(),
{
    if events.len() > 0 {
        let before = events.drop_last();
        assert(forall|i: int| 0 <= i < before.len() ==> #[trigger] before[i] == events[i]);
        link_lives_as_long_as_the_client(link, before);
        assert(events.last() == events[events.len() - 1]);
    }
}

/// Every wait between attempts lies between the base delay and the cap.
pub proof fn waits_are_bounded(link: ControlLink, event: LinkEvent)
    ensures
        match link.response(event) {
            LinkAction::Sleep { millis } => stream_state::BASE_MS <= millis <= stream_state::CAP_MS,
            _ => true,
        },
{
    stream_state::backoff_grows_to_a_cap(link.attempt as nat, link.attempt as nat);
}

/// No attempt follows a failure at once: a link connects again only when a wait is
/// over, and whatever lost it is answered by a wait.
pub proof fn every_reconnect_was_waited_for(link: ControlLink, event: LinkEvent)
    ensures
        link.response(event) == LinkAction::Connect ==> link.phase == LinkPhase::Waiting && event
            == LinkEvent::Waited,
        link.after(event).phase == LinkPhase::Connecting && link.phase != LinkPhase::Connecting
            ==> link.phase == LinkPhase::Waiting,
        link.after(event).phase == LinkPhase::Waiting && link.phase != LinkPhase::Waiting
            ==> link.response(event) == link.pause() && link.after(event) == link.waiting(),
{
}

/// Every new connection begins with the hello: no other message is taken before it
/// went out.
pub proof fn hello_comes_first(link: ControlLink, event: LinkEvent)
    ensures
        link.phase == LinkPhase::Connecting && event == LinkEvent::Connected ==> link.response(event)
            == LinkAction::SendHello,
        link.after(event).phase == LinkPhase::Greeting && link.phase != LinkPhase::Greeting
            ==> link.response(event) == LinkAction::SendHello,
        link.response(event) == LinkAction::Serve ==> link.phase == LinkPhase::Open || link.phase
            == LinkPhase::Handling || (link.phase == LinkPhase::Greeting && event == LinkEvent::Greeted),
        link.after(event).phase == LinkPhase::Open && link.phase != LinkPhase::Open ==> link.phase
            == LinkPhase::Handling || (link.phase == LinkPhase::Greeting && event == LinkEvent::Greeted),
        link.after(event).phase == LinkPhase::Handling && link.phase != LinkPhase::Handling ==> link.phase
            == LinkPhase::Open,
{
}

/// Whatever has happened, an open link has no failed attempts counted against it,
/// so the wait after losing it is the base delay.
pub proof fn open_links_start_afresh(events: Seq<LinkEvent>)
    ensures
        ({
            let link = ControlLink::initial().after_all(events);
            &&& link.phase == LinkPhase::Greeting || link.phase == LinkPhase::Open || link.phase
                == LinkPhase::Handling ==> link.attempt == 0
            &&& link.phase == LinkPhase::Open ==> link.response(LinkEvent::Broken) == (LinkAction::Sleep {
                millis: stream_state::BASE_MS,
            })
        }),
    decreases events.len(),
{
    if events.len() > 0 {
        open_links_start_afresh(events.drop_last());
    }
    stream_state::backoff_grows_to_a_cap(0, 0);
}

/// Whatever happens, each command that comes in on the open link is handed on
/// exactly once, in the order of coming, and nothing else is.
pub proof fn every_command_is_handed_on_once(link: ControlLink, events: Seq<LinkEvent>)
    ensures
        link.handed_on(events) == link.received(events),
    decreases events.len(),
{
    if events.len() > 0 {
        every_command_is_handed_on_once(link, events.drop_last());
    }
}

/// No other message is taken while a command is being handled.
pub proof fn commands_are_handled_one_by_one(link: ControlLink, event: LinkEvent)
    requires
        link.phase == LinkPhase::Handling,
        event != LinkEvent::Handled,
    ensures
        link.after(event) == link,
        link.response(event) == LinkAction::Ignore,
{
}

/// Attempts that fail in a row wait longer and longer: each counts one more, and
/// the first that succeeds clears the count.
pub proof fn failed_attempts_add_up(failures: nat)
    requires
        failures < u32::MAX,
    ensures
        ({
            let link = ControlLink::initial().after_failures(failures);
            &&& link == (ControlLink { phase: LinkPhase::Connecting, attempt: failures as u32 })
            &&& link.response(LinkEvent::ConnectFailed) == (LinkAction::Sleep {
                millis: stream_state::delay_ms(failures) as u64,
            })
            &&& link.after(LinkEvent::Connected).attempt == 0
        }),
    decreases failures,
{
    if failures > 0 {
        failed_attempts_add_up((failures - 1) as nat);
    }
}

/// A connection that is lost, in whatever way, is waited for and opened again, with one
/// more failure counted; it is closed for good only with the client.
pub proof fn lost_links_are_opened_again(link: ControlLink, event: LinkEvent)
    requires
        match link.phase {
            LinkPhase::Connecting => event == LinkEvent::ConnectFailed,
            LinkPhase::Greeting => event == LinkEvent::GreetFailed,
            LinkPhase::Open => event == LinkEvent::SendFailed || event == LinkEvent::Closed || event
                == LinkEvent::Broken,
            _ => false,
        },
    ensures
        link.response(event) == (LinkAction::Sleep {
            millis: stream_state::delay_ms(link.attempt as nat) as u64,
        }),
        link.attempt < u32::MAX ==> link.after(event).attempt == link.attempt + 1,
        link.after(event).response(LinkEvent::Waited) == LinkAction::Connect,
        link.after(event).after(LinkEvent::Waited).phase == LinkPhase::Connecting,
        link.after(event).after(LinkEvent::Waited).attempt == link.after(event).attempt,
        link.after(event).after(LinkEvent::Waited).response(LinkEvent::Connected) == LinkAction::SendHello,
        link.after(event).after(LinkEvent::Waited).after(LinkEvent::Connected).after(LinkEvent::Greeted) == (
        ControlLink { phase: LinkPhase::Open, attempt: 0 }),
{
}

/// An open link serves on after every message that does not end it, whether it went out,
/// could not, or came in and meant nothing; it is closed when the client is done.
pub proof fn open_links_serve_on(link: ControlLink, event: LinkEvent)
    requires
        link.phase == LinkPhase::Open,
    ensures
        event == LinkEvent::Sent || event == LinkEvent::Unsendable || event == LinkEvent::Unreadable || event
            == LinkEvent::OtherMessage ==> link.response(event) == LinkAction::Serve && link.after(event) == link,
        event == LinkEvent::OutboundDropped ==> link.response(event) == LinkAction::Close && link.after(event).phase
            == LinkPhase::Done,
        event matches LinkEvent::Command { serial } ==> link.response(event) == (LinkAction::HandOn { serial })
            && link.after(event).response(LinkEvent::Handled) == LinkAction::Serve && link.after(event).after(
            LinkEvent::Handled,
        ) == link,
{
}

/// A link that is done stays done, and does nothing more.
pub proof fn closed_links_stay_closed(link: ControlLink, event: LinkEvent)
    requires
        link.phase == LinkPhase::Done,
    ensures
        link.after(event) == link,
        link.response(event) == LinkAction::Ignore,
{
}

} // verus!
