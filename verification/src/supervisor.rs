//! Per-connection orchestration as a state machine.
//!
//! Each accepted connection gets one [`Supervisor`]. The caller performs
//! the I/O (the initial read, the dial, the handshake writes, the relay)
//! and reports each outcome as an [`Event`]; the supervisor decides what
//! happens next and answers with an [`Action`]. Every failure moves the
//! machine to its terminal `Failed` state, which closes whatever is open
//! and takes no further event: a failure stays local to its connection.
//!
//! Within a connection the order is fixed: parsing strictly precedes
//! resolution, resolution the dial, the dial the handshake, and the
//! handshake the relay.

use vstd::prelude::*;

use crate::failure::Failure;
use crate::parse::{parse_request, spec_parse, Method, ParsedRequest};
use crate::resolve::{resolve_target, spec_resolve};

verus! {

/// How the tunnel is set up after a successful dial.
#[derive(Clone, Copy, Debug, PartialEq, Eq, Structural)]
pub enum Mode {
    /// Plain HTTP: the already-read request bytes are forwarded to the
    /// origin verbatim before the relay begins.
    Forward,
    /// CONNECT: the client is sent the literal acknowledgment and the
    /// request bytes are not forwarded.
    Tunnel,
}

/// Where a connection stands. `Closed` and `Failed` are terminal.
pub enum SupState {
    /// Freshly accepted; the initial bytes are still to be read.
    Accepted,
    /// The initial bytes are in hand, to be parsed next.
    Parsing { bytes: Vec<u8> },
    /// The request parsed; its target is to be resolved next.
    Resolving { req: ParsedRequest },
    /// The origin is known and being dialed.
    Dialing { mode: Mode, raw: Vec<u8> },
    /// The origin is connected; the handshake write is in flight.
    Handshaking,
    /// Both directions of the relay are running.
    Relaying,
    /// The relay ended cleanly and everything is closed.
    Closed,
    /// The connection was given up; everything open is closed.
    Failed { failure: Failure },
}

/// What the caller reports to the supervisor.
pub enum Event {
    /// The initial read returned these bytes (possibly none).
    BytesRead { bytes: Vec<u8> },
    /// The initial read failed.
    ReadFailed,
    /// No outside work was asked for; take the next internal step.
    Advance,
    /// The dial reached the origin.
    DialOk,
    /// The dial failed: origin unreachable.
    DialFailed,
    /// The handshake write went through.
    WriteOk,
    /// The handshake write failed.
    WriteFailed,
    /// Both relay directions have terminated; `clean` says whether
    /// neither direction recorded an I/O error.
    RelayEnded { clean: bool },
}

/// What the supervisor asks the caller to do next.
pub enum Action {
    /// Nothing outside: report `Event::Advance`.
    Advance,
    /// Dial this origin and report how it went.
    Dial { host: Vec<u8>, port: u16 },
    /// Write these bytes to the client and report how it went.
    WriteClient { bytes: Vec<u8> },
    /// Write these bytes to the origin and report how it went.
    WriteOrigin { bytes: Vec<u8> },
    /// Relay bytes both ways until both directions terminate, then
    /// report `Event::RelayEnded`.
    StartRelay,
    /// Close whatever is open; the connection is finished.
    Close,
}

/// The tunnel mode a method asks for.
pub open spec fn mode_of(m: Method) -> Mode {
    if m is Connect {
        Mode::Tunnel
    } else {
        Mode::Forward
    }
}

/// The exact acknowledgment a CONNECT client receives once the origin is
/// reached: `HTTP/1.1 200 Connection established\r\n\r\n`.
pub open spec fn ack_bytes() -> Seq<u8> {
    seq![
        72u8, 84, 84, 80, 47, 49, 46, 49, 32, 50, 48, 48, 32, 67, 111, 110, 110, 101, 99, 116,
        105, 111, 110, 32, 101, 115, 116, 97, 98, 108, 105, 115, 104, 101, 100, 13, 10, 13, 10,
    ]
}

/// The literal CONNECT acknowledgment as bytes.
pub fn connect_ack() -> (v: Vec<u8>)
    ensures
        v@ == ack_bytes(),
{
    let mut v: Vec<u8> = Vec::new();
    v.push(72);
    v.push(84);
    v.push(84);
    v.push(80);
    v.push(47);
    v.push(49);
    v.push(46);
    v.push(49);
    v.push(32);
    v.push(50);
    v.push(48);
    v.push(48);
    v.push(32);
    v.push(67);
    v.push(111);
    v.push(110);
    v.push(110);
    v.push(101);
    v.push(99);
    v.push(116);
    v.push(105);
    v.push(111);
    v.push(110);
    v.push(32);
    v.push(101);
    v.push(115);
    v.push(116);
    v.push(97);
    v.push(98);
    v.push(108);
    v.push(105);
    v.push(115);
    v.push(104);
    v.push(101);
    v.push(100);
    v.push(13);
    v.push(10);
    v.push(13);
    v.push(10);
    proof {
        assert(v@ =~= ack_bytes());
    }
    v
}

/// Which events a state can take. Terminal states take none.
pub open spec fn event_fits(s: SupState, e: Event) -> bool {
    match s {
        SupState::Accepted => e matches Event::BytesRead { .. } || e is ReadFailed,
        SupState::Parsing { .. } => e is Advance,
        SupState::Resolving { .. } => e is Advance,
        SupState::Dialing { .. } => e is DialOk || e is DialFailed,
        SupState::Handshaking => e is WriteOk || e is WriteFailed,
        SupState::Relaying => e matches Event::RelayEnded { .. },
        SupState::Closed => false,
        SupState::Failed { .. } => false,
    }
}

/// The transition relation of the supervisor: from state `pre` under
/// event `event`, the next state is `post` and the caller is asked to do
/// `action`.
pub open spec fn step_spec(pre: SupState, event: Event, post: SupState, action: Action) -> bool {
    match (pre, event) {
        (SupState::Accepted, Event::BytesRead { bytes }) => {
            if bytes@.len() == 0 {
                post == (SupState::Failed { failure: Failure::EmptyRead }) && action is Close
            } else {
                (post matches SupState::Parsing { bytes: b } && b@ == bytes@) && action is Advance
            }
        },
        (SupState::Accepted, Event::ReadFailed) => post == (SupState::Failed {
            failure: Failure::ReadFailed,
        }) && action is Close,
        (SupState::Parsing { bytes }, Event::Advance) => {
            match spec_parse(bytes@) {
                Ok(mt) => (post matches SupState::Resolving { req } && req.method == mt.0
                    && req.target@ == mt.1 && req.raw@ == bytes@ && req.wf()) && action is Advance,
                Err(f) => post == (SupState::Failed { failure: f }) && action is Close,
            }
        },
        (SupState::Resolving { req }, Event::Advance) => {
            match spec_resolve(req.method, req.target@) {
                Ok(hp) => (post matches SupState::Dialing { mode, raw } && mode == mode_of(
                    req.method,
                ) && raw@ == req.raw@) && (action matches Action::Dial { host, port } && host@
                    == hp.0 && port == hp.1),
                Err(f) => post == (SupState::Failed { failure: f }) && action is Close,
            }
        },
        (SupState::Dialing { mode, raw }, Event::DialOk) => {
            &&& post is Handshaking
            &&& match mode {
                Mode::Tunnel => action matches Action::WriteClient { bytes } && bytes@
                    == ack_bytes(),
                Mode::Forward => action matches Action::WriteOrigin { bytes } && bytes@ == raw@,
            }
        },
        (SupState::Dialing { .. }, Event::DialFailed) => post == (SupState::Failed {
            failure: Failure::DialFailed,
        }) && action is Close,
        (SupState::Handshaking, Event::WriteOk) => post is Relaying && action is StartRelay,
        (SupState::Handshaking, Event::WriteFailed) => post == (SupState::Failed {
            failure: Failure::HandshakeWriteFailed,
        }) && action is Close,
        (SupState::Relaying, Event::RelayEnded { clean }) => (if clean {
            post is Closed
        } else {
            post == (SupState::Failed { failure: Failure::RelayFailed })
        }) && action is Close,
        _ => false,
    }
}

/// One supervisor per accepted connection.
pub struct Supervisor {
    /// Where the connection stands.
    pub state: SupState,
}

impl Supervisor {
    /// A supervisor for a freshly accepted connection.
    pub fn new() -> (s: Supervisor)
        ensures
            s.state is Accepted,
    {
        Supervisor { state: SupState::Accepted }
    }

    /// Whether the connection is finished, cleanly or not.
    pub fn is_terminal(&self) -> (r: bool)
        ensures
            r <==> (self.state is Closed || self.state matches SupState::Failed { .. }),
    {
        match self.state {
            SupState::Closed => true,
            SupState::Failed { .. } => true,
            _ => false,
        }
    }

    /// Take one step: consume the event, move to the next state, and
    /// answer with what to do next.
    pub fn step(&mut self, event: Event) -> (action: Action)
        requires
            event_fits(old(self).state, event),
        ensures
            step_spec(old(self).state, event, final(self).state, action),
    {
        let mut pre = SupState::Closed;
        core::mem::swap(&mut self.state, &mut pre);
        let (post, action) = transition(pre, event);
        self.state = post;
        action
    }
}

/// The executable transition function behind [`Supervisor::step`].
pub fn transition(pre: SupState, event: Event) -> (r: (SupState, Action))
    requires
        event_fits(pre, event),
    ensures
        step_spec(pre, event, r.0, r.1),
{
    match (pre, event) {
        (SupState::Accepted, Event::BytesRead { bytes }) => {
            if bytes.len() == 0 {
                (SupState::Failed { failure: Failure::EmptyRead }, Action::Close)
            } else {
                (SupState::Parsing { bytes }, Action::Advance)
            }
        },
        (SupState::Accepted, Event::ReadFailed) => {
            (SupState::Failed { failure: Failure::ReadFailed }, Action::Close)
        },
        (SupState::Parsing { bytes }, Event::Advance) => {
            match parse_request(bytes.as_slice()) {
                Ok(req) => (SupState::Resolving { req }, Action::Advance),
                Err(f) => (SupState::Failed { failure: f }, Action::Close),
            }
        },
        (SupState::Resolving { req }, Event::Advance) => {
            match resolve_target(&req) {
                Ok(t) => {
                    let mode = match req.method {
                        Method::Connect => Mode::Tunnel,
                        _ => Mode::Forward,
                    };
                    (
                        SupState::Dialing { mode, raw: req.raw },
                        Action::Dial { host: t.host, port: t.port },
                    )
                },
                Err(f) => (SupState::Failed { failure: f }, Action::Close),
            }
        },
        (SupState::Dialing { mode, raw }, Event::DialOk) => {
            match mode {
                Mode::Tunnel => (SupState::Handshaking, Action::WriteClient {
                    bytes: connect_ack(),
                }),
                Mode::Forward => (SupState::Handshaking, Action::WriteOrigin { bytes: raw }),
            }
        },
        (SupState::Dialing { .. }, Event::DialFailed) => {
            (SupState::Failed { failure: Failure::DialFailed }, Action::Close)
        },
        (SupState::Handshaking, Event::WriteOk) => (SupState::Relaying, Action::StartRelay),
        (SupState::Handshaking, Event::WriteFailed) => {
            (SupState::Failed { failure: Failure::HandshakeWriteFailed }, Action::Close)
        },
        (SupState::Relaying, Event::RelayEnded { clean }) => {
            if clean {
                (SupState::Closed, Action::Close)
            } else {
                (SupState::Failed { failure: Failure::RelayFailed }, Action::Close)
            }
        },
        _ => {
            proof {
                assert(false);
            }
            unreached()
        },
    }
}

/// Law: `Closed` and `Failed` are terminal: no event fits them, so one
/// connection's end, clean or failed, never feeds back into the machine.
pub proof fn lemma_terminal_states_stay(s: SupState, e: Event)
    requires
        s is Closed || s matches SupState::Failed { .. },
    ensures
        !event_fits(s, e),
{
}

/// Law: initial bytes that do not parse fail the connection at once: the
/// machine moves to `Failed` with the parse failure and asks only for a
/// close, never for a dial — no connection attempt is made.
pub proof fn lemma_rejected_request_never_dials(
    bytes: Vec<u8>,
    post: SupState,
    action: Action,
)
    requires
        spec_parse(bytes@) is Err,
        step_spec(SupState::Parsing { bytes }, Event::Advance, post, action),
    ensures
        post == (SupState::Failed { failure: spec_parse(bytes@)->Err_0 }),
        action is Close,
{
}

/// Law: a failed dial sends the client nothing: the machine fails and
/// the only action is to close; in particular no CONNECT acknowledgment
/// is ever written after a failed dial.
pub proof fn lemma_failed_dial_sends_nothing(
    mode: Mode,
    raw: Vec<u8>,
    post: SupState,
    action: Action,
)
    requires
        step_spec(SupState::Dialing { mode, raw }, Event::DialFailed, post, action),
    ensures
        post == (SupState::Failed { failure: Failure::DialFailed }),
        action is Close,
{
}

} // verus!
