//! The serial ingest side: a retry policy, the byte-by-byte line assembler,
//! the connection state machine that decides what to do after each outcome
//! of the device, and the hand-off of each complete line to the hub.

use vstd::prelude::*;
use vstd::utf8::{decode_utf8, valid_utf8};
use crate::hub::{publish_all, FanOutHub};
use crate::input::{frame_of, line_accepted, parse_input_line, rejects_with, ParseInputError};
use crate::message::{encode_frame, frame_messages};

verus! {

/// When to try again after a failure: always after `delay_ms`, or, when
/// `max_attempts` is set, only while fewer than that many attempts in a row
/// have failed.
#[derive(Debug, Clone, Copy, PartialEq, Eq, Structural)]
pub struct RetryPolicy {
    pub delay_ms: u64,
    pub max_attempts: Option<u32>,
}

#[derive(Debug, Clone, Copy, PartialEq, Eq, Structural)]
pub enum RetryDecision {
    RetryAfter(u64),
    GiveUp,
}

/// The decision after `failures` attempts in a row have failed.
pub open spec fn retry_decision(policy: RetryPolicy, failures: u32) -> RetryDecision {
    match policy.max_attempts {
        Some(max) if failures >= max => RetryDecision::GiveUp,
        _ => RetryDecision::RetryAfter(policy.delay_ms),
    }
}

impl RetryPolicy {
    /// Retries forever, waiting `delay_ms` each time.
    pub fn unbounded(delay_ms: u64) -> (r: Self)
        ensures
            r.delay_ms == delay_ms,
            r.max_attempts is None,
    {
        RetryPolicy { delay_ms, max_attempts: None }
    }

    /// Gives up once `max_attempts` attempts in a row have failed.
    pub fn capped(delay_ms: u64, max_attempts: u32) -> (r: Self)
        ensures
            r.delay_ms == delay_ms,
            r.max_attempts == Some(max_attempts),
    {
        RetryPolicy { delay_ms, max_attempts: Some(max_attempts) }
    }

    pub fn decide(&self, failures: u32) -> (r: RetryDecision)
        ensures
            r == retry_decision(*self, failures),
    {
        match self.max_attempts {
            Some(max) => if failures >= max {
                RetryDecision::GiveUp
            } else {
                RetryDecision::RetryAfter(self.delay_ms)
            },
            None => RetryDecision::RetryAfter(self.delay_ms),
        }
    }
}

/// Gathers bytes into lines: `\n` ends a line, `\r` is dropped, any other
/// byte is kept.
pub struct LineBuffer {
    bytes: Vec<u8>,
}

impl View for LineBuffer {
    type V = Seq<u8>;

    /// The bytes of the line so far.
    closed spec fn view(&self) -> Seq<u8> {
        self.bytes@
    }
}

impl LineBuffer {
    pub fn new() -> (r: Self)
        ensures
            r@ == Seq::<u8>::empty(),
    {
        LineBuffer { bytes: Vec::new() }
    }

    /// Takes one byte; returns the finished line when it is `\n`.
    pub fn push_byte(&mut self, b: u8) -> (r: Option<Vec<u8>>)
        ensures
            b == 10u8 ==> r is Some && r->0@ == old(self)@ && final(self)@ == Seq::<u8>::empty(),
            b == 13u8 ==> r is None && final(self)@ == old(self)@,
            b != 10u8 && b != 13u8 ==> r is None && final(self)@ == old(self)@.push(b),
    {
        if b == 10u8 {
            let mut line: Vec<u8> = Vec::new();
            core::mem::swap(&mut line, &mut self.bytes);
            Some(line)
        } else if b == 13u8 {
            None
        } else {
            self.bytes.push(b);
            None
        }
    }

    /// Drops a partial line.
    pub fn clear(&mut self)
        ensures
            final(self)@ == Seq::<u8>::empty(),
    {
        self.bytes.clear();
    }
}

/// Relies on `String::from_utf8`: succeeds exactly when the bytes are valid
/// UTF-8, and then holds the characters they encode.
#[verifier::external_body]
fn string_from_utf8(bytes: Vec<u8>) -> (r: Option<String>)
    ensures
        match r {
            Some(s) => valid_utf8(bytes@) && s@ == decode_utf8(bytes@),
            None => !valid_utf8(bytes@),
        },
{
    String::from_utf8(bytes).ok()
}

/// Where the serial connection stands. A lost connection goes back to
/// `Opening`; `Stopped` is final.
#[derive(Debug, Clone, Copy, PartialEq, Eq, Structural)]
pub enum LinkState {
    /// Opening the device; `failures` attempts in a row have failed.
    Opening { failures: u32 },
    Reading,
    Stopped,
}

/// What the device did.
#[derive(Debug, Clone, Copy, PartialEq, Eq, Structural)]
pub enum LinkEvent {
    Opened,
    OpenFailed,
    Byte(u8),
    /// A read timed out: no data yet, which is no error.
    TimedOut,
    /// A read failed with any other error.
    ReadFailed,
}

/// What to do next.
#[derive(Debug, Clone)]
pub enum LinkAction {
    /// Open the device now.
    Open,
    /// Close the device if it is open, wait this many milliseconds, then open.
    WaitThenOpen(u64),
    /// Read the next byte.
    Read,
    /// A complete line arrived; hand it on, then read the next byte.
    Line(String),
    /// Retries are exhausted: report the failure.
    GiveUp,
}

/// The decisions of the serial ingest loop, one event at a time.
pub struct SerialLink {
    state: LinkState,
    policy: RetryPolicy,
    line: LineBuffer,
}

pub open spec fn saturating_inc(n: u32) -> u32 {
    if n < u32::MAX {
        (n + 1) as u32
    } else {
        n
    }
}

impl SerialLink {
    pub closed spec fn state_spec(&self) -> LinkState {
        self.state
    }

    pub closed spec fn policy_spec(&self) -> RetryPolicy {
        self.policy
    }

    /// The bytes of the partial line read so far.
    pub closed spec fn pending(&self) -> Seq<u8> {
        self.line@
    }

    /// A link about to open the device for the first time.
    pub fn new(policy: RetryPolicy) -> (r: Self)
        ensures
            r.state_spec() == (LinkState::Opening { failures: 0 }),
            r.policy_spec() == policy,
            r.pending() == Seq::<u8>::empty(),
    {
        SerialLink { state: LinkState::Opening { failures: 0 }, policy, line: LineBuffer::new() }
    }

    pub fn state(&self) -> (r: LinkState)
        ensures
            r == self.state_spec(),
    {
        self.state
    }

    /// Moves on after `event` and says what to do next. A timeout keeps the
    /// partial line; a failed read or a line that is not UTF-8 drops the
    /// connection, which is opened again after the policy's delay; a failed
    /// open is retried as the policy decides.
    pub fn step(&mut self, event: LinkEvent) -> (r: LinkAction)
        ensures
            final(self).policy_spec() == old(self).policy_spec(),
            ({
                let policy = old(self).policy_spec();
                let pending = old(self).pending();
                match (old(self).state_spec(), event) {
                    (LinkState::Opening { .. }, LinkEvent::Opened) => {
                        &&& final(self).state_spec() == LinkState::Reading
                        &&& final(self).pending() == Seq::<u8>::empty()
                        &&& r == LinkAction::Read
                    },
                    (LinkState::Opening { failures }, LinkEvent::OpenFailed) => {
                        &&& final(self).pending() == pending
                        &&& match retry_decision(policy, saturating_inc(failures)) {
                            RetryDecision::RetryAfter(d) => {
                                &&& final(self).state_spec() == (LinkState::Opening {
                                    failures: saturating_inc(failures),
                                })
                                &&& r == LinkAction::WaitThenOpen(d)
                            },
                            RetryDecision::GiveUp => {
                                &&& final(self).state_spec() == LinkState::Stopped
                                &&& r == LinkAction::GiveUp
                            },
                        }
                    },
                    (LinkState::Reading, LinkEvent::Byte(b)) => if b == 10u8 {
                        &&& final(self).pending() == Seq::<u8>::empty()
                        &&& if valid_utf8(pending) {
                            &&& final(self).state_spec() == LinkState::Reading
                            &&& r matches LinkAction::Line(s) && s@ == decode_utf8(pending)
                        } else {
                            &&& final(self).state_spec() == (LinkState::Opening { failures: 0 })
                            &&& r == LinkAction::WaitThenOpen(policy.delay_ms)
                        }
                    } else {
                        &&& final(self).state_spec() == LinkState::Reading
                        &&& final(self).pending() == if b == 13u8 {
                            pending
                        } else {
                            pending.push(b)
                        }
                        &&& r == LinkAction::Read
                    },
                    (LinkState::Reading, LinkEvent::ReadFailed) => {
                        &&& final(self).state_spec() == (LinkState::Opening { failures: 0 })
                        &&& final(self).pending() == Seq::<u8>::empty()
                        &&& r == LinkAction::WaitThenOpen(policy.delay_ms)
                    },
                    (LinkState::Reading, _) => {
                        &&& final(self).state_spec() == LinkState::Reading
                        &&& final(self).pending() == pending
                        &&& r == LinkAction::Read
                    },
                    (LinkState::Opening { failures }, _) => {
                        &&& final(self).state_spec() == old(self).state_spec()
                        &&& final(self).pending() == pending
                        &&& r == LinkAction::Open
                    },
                    (LinkState::Stopped, _) => {
                        &&& final(self).state_spec() == LinkState::Stopped
                        &&& final(self).pending() == pending
                        &&& r == LinkAction::GiveUp
                    },
                }
            }),
    {
        match (self.state, event) {
            (LinkState::Opening { .. }, LinkEvent::Opened) => {
                self.line.clear();
                self.state = LinkState::Reading;
                LinkAction::Read
            },
            (LinkState::Opening { failures }, LinkEvent::OpenFailed) => {
                let n = if failures < u32::MAX {
                    failures + 1
                } else {
                    failures
                };
                match self.policy.decide(n) {
                    RetryDecision::RetryAfter(d) => {
                        self.state = LinkState::Opening { failures: n };
                        LinkAction::WaitThenOpen(d)
                    },
                    RetryDecision::GiveUp => {
                        self.state = LinkState::Stopped;
                        LinkAction::GiveUp
                    },
                }
            },
            (LinkState::Reading, LinkEvent::Byte(b)) => {
                match self.line.push_byte(b) {
                    Some(bytes) => match string_from_utf8(bytes) {
                        Some(s) => LinkAction::Line(s),
                        None => {
                            self.state = LinkState::Opening { failures: 0 };
                            LinkAction::WaitThenOpen(self.policy.delay_ms)
                        },
                    },
                    None => LinkAction::Read,
                }
            },
            (LinkState::Reading, LinkEvent::ReadFailed) => {
                self.line.clear();
                self.state = LinkState::Opening { failures: 0 };
                LinkAction::WaitThenOpen(self.policy.delay_ms)
            },
            (LinkState::Reading, _) => LinkAction::Read,
            (LinkState::Opening { .. }, _) => LinkAction::Open,
            (LinkState::Stopped, _) => LinkAction::GiveUp,
        }
    }
}

/// Parses one line and, when it is accepted, publishes its button message
/// and then its controller message to every subscriber of `hub`. Returns how
/// many subscribers were reached; a rejected line leaves the hub as it was.
pub fn relay_line(hub: &mut FanOutHub, line: &str) -> (r: Result<usize, ParseInputError>)
    requires
        old(hub).wf(),
    ensures
        final(hub).wf(),
        final(hub).capacity() == old(hub).capacity(),
        match r {
            Ok(n) => {
                &&& line_accepted(line@)
                &&& final(hub)@ == publish_all(
                    old(hub)@,
                    frame_messages(frame_of(line@)),
                    old(hub).capacity(),
                )
                &&& n == crate::hub::live_count(old(hub)@)
            },
            Err(e) => !line_accepted(line@) && rejects_with(line@, e) && final(hub)@ == old(hub)@,
        },
{
    match parse_input_line(line) {
        Ok(frame) => {
            let (button, controller) = encode_frame(&frame);
            let ghost msgs = frame_messages(frame);
            let ghost v0 = hub@;
            let ghost cap = hub.capacity();
            let n = hub.publish(button);
            let ghost v1 = hub@;
            hub.publish(controller);
            proof {
                assert(msgs.drop_last() =~= seq![msgs[0]]);
                assert(msgs.drop_last().drop_last() =~= Seq::<Seq<char>>::empty());
                assert(publish_all(v0, msgs.drop_last().drop_last(), cap) == v0);
                assert(publish_all(v0, msgs.drop_last(), cap) == v1);
                assert(publish_all(v0, msgs, cap) == hub@);
            }
            Ok(n)
        },
        Err(e) => Err(e),
    }
}

} // verus!
