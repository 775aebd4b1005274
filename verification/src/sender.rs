//! The consumer actor: one TCP client, chunks written in arrival order.
//!
//! [`LogSender`] owns the sink end of the pipeline. Its protocol is fixed:
//! query the network configuration (fatal if none is available), listen on
//! the configured port — falling back to [`DEFAULT_SERVER_PORT`] when the
//! configured text is absent or unparseable — accept exactly one client,
//! then write every received chunk to the socket in full, in arrival
//! order. A connection attempt while a client is active is not accepted; a
//! failed accept or a short or failed write is fatal and halts the task,
//! while unrelated tasks keep running.
//!
//! The machine here makes every decision of that protocol; the surrounding
//! task only performs the socket operations it is told to and reports
//! their outcome as the next [`SenderEvent`].

use crate::chunk::Chunk;
use crate::link::NetworkConfig;
use vstd::prelude::*;

verus! {

/// The port the listener falls back to when the configured port text is
/// absent or does not parse.
pub const DEFAULT_SERVER_PORT: u16 = 3030;

/// Whether `c` is an ASCII decimal digit.
pub open spec fn is_ascii_digit(c: char) -> bool {
    48 <= c as u32 <= 57
}

/// The value of the ASCII decimal digit `c`.
pub open spec fn digit_value(c: char) -> int {
    c as u32 - 48
}

/// Whether every character of `s` is an ASCII decimal digit.
pub open spec fn all_ascii_digits(s: Seq<char>) -> bool {
    forall|i: int| 0 <= i < s.len() ==> is_ascii_digit(s[i])
}

/// The number denoted by the digit string `s`, most significant first.
pub open spec fn digits_value(s: Seq<char>) -> int
    decreases s.len(),
{
    if s.len() == 0 {
        0
    } else {
        digits_value(s.drop_last()) * 10 + digit_value(s.last())
    }
}

/// The digits of a port text: everything after an optional leading `'+'`.
pub open spec fn port_digits(s: Seq<char>) -> Seq<char> {
    if s.len() > 0 && s[0] == '+' {
        s.subrange(1, s.len() as int)
    } else {
        s
    }
}

/// The port denoted by `s` under the rules of `str::parse::<u16>`: an
/// optional leading `'+'`, then one or more ASCII decimal digits whose
/// value fits a `u16`; anything else does not parse.
pub open spec fn spec_parse_port(s: Seq<char>) -> Option<u16> {
    let digits = port_digits(s);
    if digits.len() > 0 && all_ascii_digits(digits) && digits_value(digits) <= u16::MAX {
        Some(digits_value(digits) as u16)
    } else {
        None
    }
}

/// The port to listen on given the configured port text: the parsed value,
/// or [`DEFAULT_SERVER_PORT`] when the text does not parse.
pub open spec fn spec_choose_port(s: Seq<char>) -> u16 {
    match spec_parse_port(s) {
        Some(p) => p,
        None => DEFAULT_SERVER_PORT,
    }
}

/// A digit string denotes a non-negative number.
proof fn lemma_digits_value_nonneg(s: Seq<char>)
    requires
        all_ascii_digits(s),
    ensures
        digits_value(s) >= 0,
    decreases s.len(),
{
    if s.len() > 0 {
        assert(all_ascii_digits(s.drop_last()));
        lemma_digits_value_nonneg(s.drop_last());
    }
}

/// Appending further digits never lowers a digit string's value.
proof fn lemma_digits_value_extend(p: Seq<char>, t: Seq<char>)
    requires
        all_ascii_digits(p + t),
    ensures
        digits_value(p + t) >= digits_value(p),
    decreases t.len(),
{
    if t.len() == 0 {
        assert(p + t =~= p);
    } else {
        assert(p + t.drop_last() =~= (p + t).drop_last());
        assert(all_ascii_digits(p + t.drop_last()));
        lemma_digits_value_extend(p, t.drop_last());
        lemma_digits_value_nonneg((p + t).drop_last());
        assert((p + t).last() == t.last());
        assert(digits_value(p + t) == digits_value((p + t).drop_last()) * 10 + digit_value(
            (p + t).last(),
        ));
    }
}

/// Parses a port number exactly as `str::parse::<u16>` does: an optional
/// leading `'+'`, then one or more ASCII decimal digits whose value fits.
pub fn parse_port(s: &str) -> (r: Option<u16>)
    ensures
        r == spec_parse_port(s@),
{
    let n = s.unicode_len();
    let start: usize = if n > 0 && s.get_char(0) == '+' {
        1
    } else {
        0
    };
    let ghost digits = port_digits(s@);
    proof {
        assert(digits =~= s@.subrange(start as int, s@.len() as int));
    }
    if n == start {
        return None;
    }
    let mut acc: u32 = 0;
    let mut i: usize = start;
    while i < n
        invariant
            start <= i <= n,
            n == s@.len(),
            start <= 1,
            digits == port_digits(s@),
            digits =~= s@.subrange(start as int, s@.len() as int),
            all_ascii_digits(s@.subrange(start as int, i as int)),
            acc == digits_value(s@.subrange(start as int, i as int)),
            acc <= u16::MAX,
        decreases n - i,
    {
        let c = s.get_char(i);
        let code = c as u32;
        if code < 48 || code > 57 {
            proof {
                assert(digits[i - start] == s@[i as int]);
                assert(!all_ascii_digits(digits));
            }
            return None;
        }
        let ghost prefix = s@.subrange(start as int, i as int);
        acc = acc * 10 + (code - 48);
        i = i + 1;
        proof {
            let here = s@.subrange(start as int, i as int);
            assert(here =~= prefix.push(s@[i - 1]));
            assert(here.drop_last() =~= prefix);
            assert(here.last() == s@[i - 1]);
        }
        if acc > u16::MAX as u32 {
            proof {
                let here = s@.subrange(start as int, i as int);
                let rest = s@.subrange(i as int, s@.len() as int);
                assert(digits =~= here + rest);
                if all_ascii_digits(digits) {
                    lemma_digits_value_extend(here, rest);
                }
            }
            return None;
        }
    }
    proof {
        assert(digits =~= s@.subrange(start as int, i as int));
    }
    Some(acc as u16)
}

/// The port to listen on: the configured text if it parses, otherwise
/// [`DEFAULT_SERVER_PORT`].
pub fn choose_port(s: &str) -> (p: u16)
    ensures
        p == spec_choose_port(s@),
{
    match parse_port(s) {
        Some(p) => p,
        None => DEFAULT_SERVER_PORT,
    }
}

/// The phase of the sink actor's fixed protocol.
#[derive(Clone, Copy, Debug, PartialEq, Eq, Structural)]
pub enum SenderPhase {
    /// Waiting to learn the acquired network configuration.
    AwaitingNetwork,
    /// Listening on the configured endpoint for the single client.
    Listening,
    /// Exactly one client is connected and chunks are being written to it.
    Serving,
    /// A fatal condition stopped the task: no address, a failed accept,
    /// or a failed or short write.
    Failed,
}

/// One observation handed to the sink actor by its surrounding task.
#[derive(Clone, Copy, Debug, PartialEq, Eq)]
pub enum SenderEvent {
    /// The network configuration the stack currently reports.
    NetworkStatus(Option<NetworkConfig>),
    /// A client attempts to connect.
    ConnectionAttempt,
    /// Accepting the client failed.
    AcceptFailed,
    /// The last chunk was written to the socket in full.
    WriteCompleted,
    /// The last write failed or was short.
    WriteFailed,
}

/// What the surrounding task must do after a sink transition.
#[derive(Clone, Copy, Debug, PartialEq, Eq)]
pub enum SenderAction {
    /// Open the listening endpoint on this address and port and wait for
    /// a client.
    Listen { addr: u32, port: u16 },
    /// Accept the arriving client; it is the single client served.
    AcceptClient,
    /// Nothing to do.
    Ignore,
    /// A fatal condition was reached; forwarding ends here.
    Halt,
}

/// The sink actor's visible state: its protocol phase and the port it
/// listens on.
pub struct SenderModel {
    /// The current protocol phase.
    pub phase: SenderPhase,
    /// The port chosen from the boot-time configuration.
    pub port: u16,
}

/// The transition relation of the sink actor. A configuration report of
/// `None` is fatal (the address could not be acquired); the one client is
/// accepted from `Listening`; an attempt while serving is not accepted and
/// changes nothing; accept and write failures are fatal; every other
/// event in every other phase changes nothing.
pub open spec fn spec_sender_step(m: SenderModel, e: SenderEvent) -> (SenderModel, SenderAction) {
    match (m.phase, e) {
        (SenderPhase::AwaitingNetwork, SenderEvent::NetworkStatus(cfg)) => match cfg {
            Some(c) => (
                SenderModel { phase: SenderPhase::Listening, port: m.port },
                SenderAction::Listen { addr: c.addr, port: m.port },
            ),
            None => (SenderModel { phase: SenderPhase::Failed, port: m.port }, SenderAction::Halt),
        },
        (SenderPhase::Listening, SenderEvent::ConnectionAttempt) => (
            SenderModel { phase: SenderPhase::Serving, port: m.port },
            SenderAction::AcceptClient,
        ),
        (SenderPhase::Listening, SenderEvent::AcceptFailed) => (
            SenderModel { phase: SenderPhase::Failed, port: m.port },
            SenderAction::Halt,
        ),
        (SenderPhase::Serving, SenderEvent::ConnectionAttempt) => (m, SenderAction::Ignore),
        (SenderPhase::Serving, SenderEvent::WriteCompleted) => (m, SenderAction::Ignore),
        (SenderPhase::Serving, SenderEvent::WriteFailed) => (
            SenderModel { phase: SenderPhase::Failed, port: m.port },
            SenderAction::Halt,
        ),
        _ => (m, SenderAction::Ignore),
    }
}

/// The consumer actor: accepts the single TCP client and writes each
/// received chunk to it in arrival order.
pub struct LogSender {
    phase: SenderPhase,
    port: u16,
}

impl View for LogSender {
    type V = SenderModel;

    closed spec fn view(&self) -> SenderModel {
        SenderModel { phase: self.phase, port: self.port }
    }
}

impl LogSender {
    /// Creates the sink actor from the configured port text; it starts
    /// out waiting for the network configuration.
    pub fn new(port_text: &str) -> (s: LogSender)
        ensures
            s@.phase == SenderPhase::AwaitingNetwork,
            s@.port == spec_choose_port(port_text@),
    {
        LogSender { phase: SenderPhase::AwaitingNetwork, port: choose_port(port_text) }
    }

    /// The current protocol phase.
    pub fn phase(&self) -> (p: SenderPhase)
        ensures
            p == self@.phase,
    {
        self.phase
    }

    /// The port the listener uses.
    pub fn port(&self) -> (p: u16)
        ensures
            p == self@.port,
    {
        self.port
    }

    /// Reacts to one observation: moves to the next phase of
    /// [`spec_sender_step`] and answers with the action the surrounding
    /// task must perform.
    pub fn handle_event(&mut self, e: SenderEvent) -> (a: SenderAction)
        ensures
            (final(self)@, a) == spec_sender_step(old(self)@, e),
    {
        let (next, action) = match (self.phase, e) {
            (SenderPhase::AwaitingNetwork, SenderEvent::NetworkStatus(cfg)) => match cfg {
                Some(c) => (
                    SenderPhase::Listening,
                    SenderAction::Listen { addr: c.addr, port: self.port },
                ),
                None => (SenderPhase::Failed, SenderAction::Halt),
            },
            (SenderPhase::Listening, SenderEvent::ConnectionAttempt) => (
                SenderPhase::Serving,
                SenderAction::AcceptClient,
            ),
            (SenderPhase::Listening, SenderEvent::AcceptFailed) => (
                SenderPhase::Failed,
                SenderAction::Halt,
            ),
            (SenderPhase::Serving, SenderEvent::ConnectionAttempt) => (
                SenderPhase::Serving,
                SenderAction::Ignore,
            ),
            (SenderPhase::Serving, SenderEvent::WriteCompleted) => (
                SenderPhase::Serving,
                SenderAction::Ignore,
            ),
            (SenderPhase::Serving, SenderEvent::WriteFailed) => (
                SenderPhase::Failed,
                SenderAction::Halt,
            ),
            (p, _) => (p, SenderAction::Ignore),
        };
        self.phase = next;
        action
    }

    /// Decides what a chunk's write outcome means: the write must have
    /// covered the whole chunk; anything else — an error or a short
    /// write — is fatal.
    pub fn write_outcome(written: Option<usize>, expected: usize) -> (e: SenderEvent)
        ensures
            written == Some(expected) ==> e == SenderEvent::WriteCompleted,
            written != Some(expected) ==> e == SenderEvent::WriteFailed,
    {
        match written {
            Some(n) if n == expected => SenderEvent::WriteCompleted,
            _ => SenderEvent::WriteFailed,
        }
    }
}

/// Single-client enforcement: while one client is being served, a further
/// connection attempt is not accepted — the phase stays `Serving` and no
/// accept is requested — so the first client alone is ever written to.
pub proof fn lemma_single_client(m: SenderModel)
    requires
        m.phase == SenderPhase::Serving,
    ensures
        spec_sender_step(m, SenderEvent::ConnectionAttempt).0 == m,
        spec_sender_step(m, SenderEvent::ConnectionAttempt).1 != SenderAction::AcceptClient,
{
}

} // verus!
