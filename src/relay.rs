use vstd::prelude::*;
use vstd::utf8::{encode_utf8, valid_utf8};

use crate::error::SessionError;

verus! {

/// Lifecycle of a data channel.
#[derive(Clone, Copy, Debug, PartialEq, Eq, Structural)]
pub enum ChannelState {
    Created,
    Open,
    Closed,
}

/// The outbound direction of the relay: decides, line by line, what is sent over
/// one channel. It sends only while the channel is open, input has not ended and
/// no send has failed.
#[derive(Clone, Copy, Debug, PartialEq, Eq, Structural)]
pub struct OutboundRelay {
    pub channel: ChannelState,
    pub send_failed: bool,
    pub input_ended: bool,
}

pub open spec fn active(r: OutboundRelay) -> bool {
    r.channel == ChannelState::Open && !r.send_failed && !r.input_ended
}

/// The relay after reading `line` (`None` at end of input), and what to send.
pub open spec fn line_next(r: OutboundRelay, line: Option<Seq<char>>) -> (
    OutboundRelay,
    Option<Seq<char>>,
) {
    if !active(r) {
        (r, None)
    } else {
        match line {
            None => (OutboundRelay { input_ended: true, ..r }, None),
            Some(l) => (r, Some(l)),
        }
    }
}

/// The relay after a send that succeeded (`ok`) or failed.
pub open spec fn sent_next(r: OutboundRelay, ok: bool) -> OutboundRelay {
    if ok {
        r
    } else {
        OutboundRelay { send_failed: true, ..r }
    }
}

/// Feeds each of `lines` and reports each send with `ok`; returns the relay and
/// the messages sent, in order.
pub open spec fn relay_lines(r: OutboundRelay, lines: Seq<Seq<char>>, ok: bool) -> (
    OutboundRelay,
    Seq<Seq<char>>,
)
    decreases lines.len(),
{
    if lines.len() == 0 {
        (r, Seq::empty())
    } else {
        let (r1, out) = line_next(r, Some(lines[0]));
        let r2 = match out {
            Some(_) => sent_next(r1, ok),
            None => r1,
        };
        let (r3, rest) = relay_lines(r2, lines.drop_first(), ok);
        (
            r3,
            match out {
                Some(m) => seq![m] + rest,
                None => rest,
            },
        )
    }
}

/// On an open channel whose sends succeed, the messages sent are the input lines,
/// verbatim and in the order read.
pub proof fn lemma_relay_keeps_order(r: OutboundRelay, lines: Seq<Seq<char>>)
    requires
        active(r),
    ensures
        relay_lines(r, lines, true) == (r, lines),
    decreases lines.len(),
{
    if lines.len() > 0 {
        lemma_relay_keeps_order(r, lines.drop_first());
        assert(seq![lines[0]] + lines.drop_first() =~= lines);
    }
}

/// A relay that is not active (channel not open or closed, input ended, or a send
/// failed) sends nothing more, whatever lines follow.
pub proof fn lemma_inactive_sends_nothing(r: OutboundRelay, lines: Seq<Seq<char>>, ok: bool)
    requires
        !active(r),
    ensures
        relay_lines(r, lines, ok) == (r, Seq::<Seq<char>>::empty()),
    decreases lines.len(),
{
    if lines.len() > 0 {
        lemma_inactive_sends_nothing(r, lines.drop_first(), ok);
    }
}

/// After the first failed send nothing more is sent: of any lines fed to an active
/// relay whose sends fail, only the first goes out.
pub proof fn lemma_fail_fast(r: OutboundRelay, lines: Seq<Seq<char>>)
    requires
        active(r),
        lines.len() > 0,
    ensures
        relay_lines(r, lines, false).1 == seq![lines[0]],
        relay_lines(r, lines, false).0.send_failed,
{
    let r2 = sent_next(r, false);
    lemma_inactive_sends_nothing(r2, lines.drop_first(), false);
    assert(seq![lines[0]] + Seq::<Seq<char>>::empty() =~= seq![lines[0]]);
}

impl OutboundRelay {
    pub fn new() -> (r: Self)
        ensures
            r.channel == ChannelState::Created,
            !r.send_failed,
            !r.input_ended,
    {
        OutboundRelay { channel: ChannelState::Created, send_failed: false, input_ended: false }
    }

    /// The channel opened; returns true when the outbound loop is to start now.
    pub fn on_open(&mut self) -> (start: bool)
        ensures
            start == (old(self).channel == ChannelState::Created),
            final(self).channel == if start {
                ChannelState::Open
            } else {
                old(self).channel
            },
            final(self).send_failed == old(self).send_failed,
            final(self).input_ended == old(self).input_ended,
    {
        if self.channel == ChannelState::Created {
            self.channel = ChannelState::Open;
            true
        } else {
            false
        }
    }

    /// The channel closed: nothing more is sent on it.
    pub fn on_close(&mut self)
        ensures
            *final(self) == (OutboundRelay { channel: ChannelState::Closed, ..*old(self) }),
    {
        self.channel = ChannelState::Closed;
    }

    /// Takes the next input line (`None` at end of input); returns the message to
    /// send, or `None` when the outbound loop is to stop.
    pub fn next_send(&mut self, line: Option<String>) -> (out: Option<String>)
        ensures
            (*final(self), match out {
                Some(m) => Some(m@),
                None => None::<Seq<char>>,
            }) == line_next(
                *old(self),
                match line {
                    Some(l) => Some(l@),
                    None => None::<Seq<char>>,
                },
            ),
    {
        if !(self.channel == ChannelState::Open && !self.send_failed && !self.input_ended) {
            return None;
        }
        match line {
            None => {
                self.input_ended = true;
                None
            },
            Some(l) => Some(l),
        }
    }

    /// Reports how the last send went.
    pub fn on_send_result(&mut self, ok: bool)
        ensures
            *final(self) == sent_next(*old(self), ok),
    {
        if !ok {
            self.send_failed = true;
        }
    }
}

/// Relies on String::from_utf8: succeeds exactly on valid UTF-8, keeping the bytes.
#[verifier::external_body]
fn utf8_string(b: Vec<u8>) -> (r: Option<String>)
    ensures
        r is Some <==> valid_utf8(b@),
        r is Some ==> encode_utf8(r->0@) == b@,
{
    String::from_utf8(b).ok()
}

/// Reads an inbound channel message as text; fails with `NonUtf8Payload` exactly
/// when its bytes are not valid UTF-8.
pub fn decode_payload(data: Vec<u8>) -> (r: Result<String, SessionError>)
    ensures
        r is Ok <==> valid_utf8(data@),
        r is Ok ==> encode_utf8(r->Ok_0@) == data@,
        r is Err ==> r == Err::<String, SessionError>(SessionError::NonUtf8Payload),
{
    match utf8_string(data) {
        Some(s) => Ok(s),
        None => Err(SessionError::NonUtf8Payload),
    }
}

} // verus!
