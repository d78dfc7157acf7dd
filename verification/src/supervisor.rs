//! The connection supervisor: connect, hand the connection to a session, and
//! on every failure wait and try again, for ever.
//!
//! Like a session, supervision is a dialogue. The caller performs the
//! [`Directive`] it was given and reports the [`LinkEvent`] that came of it.
//! There is no directive to stop: the supervisor has no final state.

use crate::message::MessageView;
use crate::stream::{
    transition, CommandView, ConnectionErrorView, EventView, Phase, ProcessorView,
};
use vstd::prelude::*;

verus! {

/// Seconds allowed for one connection attempt.
pub const CONNECT_TIMEOUT_SECS: u64 = 5;

/// Seconds to wait after a failed attempt or a lost connection before the
/// next attempt.
pub const RETRY_DELAY_SECS: u64 = 30;

/// The daemon's address: always the loopback interface.
#[derive(Debug, Clone, Copy, PartialEq, Eq)]
pub struct Endpoint {
    /// The four octets of the IPv4 address.
    pub host: (u8, u8, u8, u8),
    pub port: u16,
}

/// The loopback endpoint with the given port.
pub open spec fn loopback(port: u16) -> Endpoint {
    Endpoint { host: (127u8, 0u8, 0u8, 1u8), port }
}

/// Whether a connection is up.
#[derive(Debug, Clone, Copy, PartialEq, Eq, Structural)]
pub enum Link {
    /// No connection: an attempt is under way or about to be made.
    Disconnected,
    /// A session owns the connection.
    Connected,
}

/// What the caller reports back to the supervisor.
#[derive(Debug, Clone, Copy, PartialEq, Eq, Structural)]
pub enum LinkEvent {
    /// The attempt failed or timed out.
    ConnectFailed,
    /// The attempt succeeded.
    ConnectSucceeded,
    /// The session gave the connection up. A session ends in no other way
    /// than by losing its connection.
    SessionEnded,
}

/// What the supervisor asks of the caller.
#[derive(Debug, PartialEq, Eq)]
pub enum Directive {
    /// Wait `delay_secs` seconds, then try to connect to `endpoint`, giving
    /// the attempt `timeout_secs` seconds.
    Connect { endpoint: Endpoint, delay_secs: u64, timeout_secs: u64 },
    /// Run a session on the new connection with this script, until it ends.
    RunSession { script_path: String },
}

/// The mathematical content of a [`Directive`].
pub enum DirectiveView {
    Connect { endpoint: Endpoint, delay_secs: u64, timeout_secs: u64 },
    RunSession { script_path: Seq<char> },
}

impl View for Directive {
    type V = DirectiveView;

    open spec fn view(&self) -> DirectiveView {
        match self {
            Directive::Connect { endpoint, delay_secs, timeout_secs } => DirectiveView::Connect {
                endpoint: *endpoint,
                delay_secs: *delay_secs,
                timeout_secs: *timeout_secs,
            },
            Directive::RunSession { script_path } => DirectiveView::RunSession {
                script_path: script_path@,
            },
        }
    }
}

/// The mathematical content of a [`Supervisor`].
pub struct SupervisorView {
    pub port: u16,
    /// The script as configured; a session resolves its shorthand.
    pub script_path: Seq<char>,
    pub link: Link,
}

/// The very first attempt, made at once.
pub open spec fn first_attempt(port: u16) -> DirectiveView {
    DirectiveView::Connect {
        endpoint: loopback(port),
        delay_secs: 0,
        timeout_secs: CONNECT_TIMEOUT_SECS,
    }
}

/// Every later attempt, made after the fixed delay.
pub open spec fn retry(port: u16) -> DirectiveView {
    DirectiveView::Connect {
        endpoint: loopback(port),
        delay_secs: RETRY_DELAY_SECS,
        timeout_secs: CONNECT_TIMEOUT_SECS,
    }
}

/// The supervisor's whole behaviour: the state it moves to and the directive
/// it gives when `event` arrives, or `None` where the event is out of turn
/// and is ignored.
pub open spec fn react(supervisor: SupervisorView, event: LinkEvent) -> Option<
    (Link, DirectiveView),
> {
    match (supervisor.link, event) {
        (Link::Disconnected, LinkEvent::ConnectFailed) => Some(
            (Link::Disconnected, retry(supervisor.port)),
        ),
        (Link::Disconnected, LinkEvent::ConnectSucceeded) => Some(
            (Link::Connected, DirectiveView::RunSession { script_path: supervisor.script_path }),
        ),
        (Link::Connected, LinkEvent::SessionEnded) => Some(
            (Link::Disconnected, retry(supervisor.port)),
        ),
        _ => None,
    }
}

/// The decisions of the retry loop.
#[derive(Debug)]
pub struct Supervisor {
    port: u16,
    script_path: String,
    link: Link,
}

impl View for Supervisor {
    type V = SupervisorView;

    closed spec fn view(&self) -> SupervisorView {
        SupervisorView { port: self.port, script_path: self.script_path@, link: self.link }
    }
}

impl Supervisor {
    /// A supervisor for the daemon on `port`, not yet connected, and the
    /// directive to begin with: connect at once. Only this first attempt is
    /// made without delay.
    pub fn start(port: u16, script_path: String) -> (started: (Self, Directive))
        ensures
            started.0@ == (SupervisorView {
                port,
                script_path: script_path@,
                link: Link::Disconnected,
            }),
            started.1@ == first_attempt(port),
    {
        let first = Directive::Connect {
            endpoint: Endpoint { host: (127, 0, 0, 1), port },
            delay_secs: 0,
            timeout_secs: CONNECT_TIMEOUT_SECS,
        };
        (Supervisor { port, script_path, link: Link::Disconnected }, first)
    }

    /// Whether a connection is up.
    pub fn link(&self) -> (link: Link)
        ensures
            link == self@.link,
    {
        self.link
    }

    /// Takes in what the caller reports and says what to do next.
    ///
    /// An event that is out of turn (the end of a session while none runs,
    /// the result of an attempt while one does) changes nothing and gets no
    /// directive.
    pub fn step(&mut self, event: LinkEvent) -> (directive: Option<Directive>)
        ensures
            match react(old(self)@, event) {
                Some((link, expected)) => {
                    &&& directive matches Some(given)
                    &&& given@ == expected
                    &&& final(self)@ == (SupervisorView {
                        port: old(self)@.port,
                        script_path: old(self)@.script_path,
                        link,
                    })
                },
                None => directive is None && final(self)@ == old(self)@,
            },
    {
        match (self.link, event) {
            (Link::Disconnected, LinkEvent::ConnectFailed) => Some(self.retry()),
            (Link::Disconnected, LinkEvent::ConnectSucceeded) => {
                self.link = Link::Connected;
                Some(Directive::RunSession { script_path: self.script_path.clone() })
            },
            (Link::Connected, LinkEvent::SessionEnded) => {
                self.link = Link::Disconnected;
                Some(self.retry())
            },
            _ => None,
        }
    }

    fn retry(&self) -> (directive: Directive)
        ensures
            directive@ == retry(self@.port),
    {
        Directive::Connect {
            endpoint: Endpoint { host: (127, 0, 0, 1), port: self.port },
            delay_secs: RETRY_DELAY_SECS,
            timeout_secs: CONNECT_TIMEOUT_SECS,
        }
    }
}

/// A supervisor together with the directives it has given so far.
pub struct Watch {
    pub supervisor: SupervisorView,
    pub directives: Seq<DirectiveView>,
}

/// Hands the supervisor a sequence of events, one after the other, and
/// records the directives it answers with.
pub open spec fn supervise(supervisor: SupervisorView, events: Seq<LinkEvent>) -> Watch
    decreases events.len(),
{
    if events.len() == 0 {
        Watch { supervisor, directives: Seq::empty() }
    } else {
        let before = supervise(supervisor, events.drop_last());
        match react(before.supervisor, events.last()) {
            Some((link, directive)) => Watch {
                supervisor: SupervisorView {
                    port: before.supervisor.port,
                    script_path: before.supervisor.script_path,
                    link,
                },
                directives: before.directives.push(directive),
            },
            None => before,
        }
    }
}

/// A connection that the peer closed is retried, and not at once: the read
/// of no bytes closes the session with `Terminated`; the supervisor, told
/// that the session has ended, goes back to disconnected and asks for a new
/// attempt after the fixed delay.
pub proof fn lemma_closed_connection_is_retried_after_delay(
    processor: ProcessorView,
    decoded: Option<MessageView>,
    supervisor: SupervisorView,
)
    requires
        processor.phase == Phase::Reading,
        supervisor.link == Link::Connected,
    ensures
        transition(processor, EventView::FrameRead { bytes_read: 0, decoded }) == Some(
            (Phase::Closed, CommandView::Close { error: ConnectionErrorView::Terminated }),
        ),
        react(supervisor, LinkEvent::SessionEnded) == Some(
            (Link::Disconnected, retry(supervisor.port)),
        ),
        retry(supervisor.port)->delay_secs == RETRY_DELAY_SECS,
        RETRY_DELAY_SECS == 30,
{
}

/// No retry is immediate: whatever the state and the event, an attempt that
/// the supervisor asks for in answer to an event waits the fixed delay first.
pub proof fn lemma_retry_is_never_immediate(supervisor: SupervisorView, event: LinkEvent)
    ensures
        match react(supervisor, event) {
            Some((_, DirectiveView::Connect { endpoint, delay_secs, timeout_secs })) => {
                &&& delay_secs == RETRY_DELAY_SECS
                &&& timeout_secs == CONNECT_TIMEOUT_SECS
                &&& endpoint == loopback(supervisor.port)
            },
            _ => true,
        },
{
}

/// The supervisor never gives up: after any events whatever it is in a state
/// in which some event is in turn, and its port and script are as they were.
pub proof fn lemma_supervisor_never_halts(supervisor: SupervisorView, events: Seq<LinkEvent>)
    ensures
        supervise(supervisor, events).supervisor.port == supervisor.port,
        supervise(supervisor, events).supervisor.script_path == supervisor.script_path,
        exists|next: LinkEvent| react(supervise(supervisor, events).supervisor, next) is Some,
    decreases events.len(),
{
    if events.len() > 0 {
        lemma_supervisor_never_halts(supervisor, events.drop_last());
    }
    let after = supervise(supervisor, events).supervisor;
    match after.link {
        Link::Disconnected => {
            assert(react(after, LinkEvent::ConnectFailed) is Some);
        },
        Link::Connected => {
            assert(react(after, LinkEvent::SessionEnded) is Some);
        },
    }
}

/// Whatever happens, the supervisor only ever asks for two things in answer
/// to events: a new attempt after the fixed delay, or a session with the
/// configured script.
pub proof fn lemma_directives_are_retries_and_sessions(
    supervisor: SupervisorView,
    events: Seq<LinkEvent>,
    at: int,
)
    requires
        0 <= at < supervise(supervisor, events).directives.len(),
    ensures
        supervise(supervisor, events).directives[at] == retry(supervisor.port) || supervise(
            supervisor,
            events,
        ).directives[at] == (DirectiveView::RunSession { script_path: supervisor.script_path }),
    decreases events.len(),
{
    if events.len() > 0 {
        let before = supervise(supervisor, events.drop_last());
        lemma_supervisor_never_halts(supervisor, events.drop_last());
        if at < before.directives.len() {
            lemma_directives_are_retries_and_sessions(supervisor, events.drop_last(), at);
        }
    }
}

/// While the daemon cannot be reached, each failed attempt is answered with
/// exactly one new attempt after the fixed delay, however long that goes on,
/// and no session is started.
pub proof fn lemma_failures_are_retried_one_by_one(supervisor: SupervisorView, failures: nat)
    requires
        supervisor.link == Link::Disconnected,
    ensures
        supervise(supervisor, Seq::new(failures, |i: int| LinkEvent::ConnectFailed)) == (Watch {
            supervisor,
            directives: Seq::new(failures, |i: int| retry(supervisor.port)),
        }),
    decreases failures,
{
    let events = Seq::new(failures, |i: int| LinkEvent::ConnectFailed);
    let retries = Seq::new(failures, |i: int| retry(supervisor.port));
    if failures == 0 {
        assert(retries =~= Seq::empty());
    } else {
        let fewer = (failures - 1) as nat;
        lemma_failures_are_retried_one_by_one(supervisor, fewer);
        assert(events.drop_last() =~= Seq::new(fewer, |i: int| LinkEvent::ConnectFailed));
        assert(retries =~= Seq::new(fewer, |i: int| retry(supervisor.port)).push(
            retry(supervisor.port),
        ));
    }
}

} // verus!
