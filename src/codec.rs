use vstd::prelude::*;

use webrtc::peer_connection::sdp::sdp_type::RTCSdpType;
use webrtc::peer_connection::sdp::session_description::RTCSessionDescription;

use crate::error::SessionError;

verus! {

/// The kind tag that the engine attaches to a session description.
#[derive(Clone, Copy, Debug, PartialEq, Eq, Structural)]
pub enum SdpKind {
    Unspecified,
    Offer,
    Pranswer,
    Answer,
    Rollback,
}

/// An offer or answer as exchanged between the peers: its kind and its SDP text.
#[derive(Clone, Debug)]
pub struct SessionDescription {
    pub kind: SdpKind,
    pub sdp: String,
}

impl View for SessionDescription {
    type V = (SdpKind, Seq<char>);

    open spec fn view(&self) -> (SdpKind, Seq<char>) {
        (self.kind, self.sdp@)
    }
}

/// The description that serde_json reads from `line` as the engine's session
/// description type, or `None` where `line` is not such a JSON value.
pub uninterp spec fn json_description(line: Seq<char>) -> Option<(SdpKind, Seq<char>)>;

pub open spec fn single_line(s: Seq<char>) -> bool {
    forall|i: int| 0 <= i < s.len() ==> s[i] != '\n'
}

/// The word that names a kind in JSON.
pub open spec fn kind_word(k: SdpKind) -> Seq<char> {
    match k {
        SdpKind::Unspecified => seq!['U', 'n', 's', 'p', 'e', 'c', 'i', 'f', 'i', 'e', 'd'],
        SdpKind::Offer => seq!['o', 'f', 'f', 'e', 'r'],
        SdpKind::Pranswer => seq!['p', 'r', 'a', 'n', 's', 'w', 'e', 'r'],
        SdpKind::Answer => seq!['a', 'n', 's', 'w', 'e', 'r'],
        SdpKind::Rollback => seq!['r', 'o', 'l', 'l', 'b', 'a', 'c', 'k'],
    }
}

pub open spec fn hex_digit(n: u32) -> char
    recommends
        n < 16,
{
    seq!['0', '1', '2', '3', '4', '5', '6', '7', '8', '9', 'a', 'b', 'c', 'd', 'e', 'f'][n as int]
}

/// How one character is written inside a JSON string: `"` and `\` and the control
/// characters are escaped, the short forms where JSON has them.
pub open spec fn escaped_char(c: char) -> Seq<char> {
    if c == '"' {
        seq!['\\', '"']
    } else if c == '\\' {
        seq!['\\', '\\']
    } else if c == '\u{8}' {
        seq!['\\', 'b']
    } else if c == '\t' {
        seq!['\\', 't']
    } else if c == '\n' {
        seq!['\\', 'n']
    } else if c == '\u{c}' {
        seq!['\\', 'f']
    } else if c == '\r' {
        seq!['\\', 'r']
    } else if (c as u32) < 0x20 {
        seq!['\\', 'u', '0', '0', hex_digit((c as u32) / 16), hex_digit((c as u32) % 16)]
    } else {
        seq![c]
    }
}

/// The characters of `s` as they are written inside a JSON string.
pub open spec fn escaped(s: Seq<char>) -> Seq<char>
    decreases s.len(),
{
    if s.len() == 0 {
        Seq::empty()
    } else {
        escaped(s.drop_last()) + escaped_char(s.last())
    }
}

/// `{"type":"`
pub open spec fn open_text() -> Seq<char> {
    seq!['{', '"', 't', 'y', 'p', 'e', '"', ':', '"']
}

/// `","sdp":"`
pub open spec fn sdp_text() -> Seq<char> {
    seq!['"', ',', '"', 's', 'd', 'p', '"', ':', '"']
}

/// `"}`
pub open spec fn close_text() -> Seq<char> {
    seq!['"', '}']
}

/// The line that encodes `d`: `{"type":"<kind>","sdp":"<escaped sdp>"}`.
pub open spec fn description_line(d: (SdpKind, Seq<char>)) -> Seq<char> {
    open_text() + kind_word(d.0) + sdp_text() + escaped(d.1) + close_text()
}

/// Relies on serde_json::to_string on webrtc's RTCSessionDescription: its derived
/// Serialize writes `type` then `sdp` (the parsed form is skipped) into a buffer,
/// which cannot fail, and serde_json's Deserialize for the type reads it back.
#[verifier::external_body]
fn print_description(d: &SessionDescription) -> (r: Option<String>)
    ensures
        r is Some,
        r->0@ == description_line(d@),
        json_description(r->0@) == Some(d@),
{
    let mut desc = RTCSessionDescription::default();
    desc.sdp_type = match d.kind {
        SdpKind::Unspecified => RTCSdpType::Unspecified,
        SdpKind::Offer => RTCSdpType::Offer,
        SdpKind::Pranswer => RTCSdpType::Pranswer,
        SdpKind::Answer => RTCSdpType::Answer,
        SdpKind::Rollback => RTCSdpType::Rollback,
    };
    desc.sdp = d.sdp.clone();
    serde_json::to_string(&desc).ok()
}

/// Relies on serde_json::from_str into webrtc's RTCSessionDescription: reads a JSON
/// object with a `type` and an `sdp` member.
#[verifier::external_body]
fn parse_description(line: &str) -> (r: Option<SessionDescription>)
    ensures
        json_description(line@) == (match r {
            Some(d) => Some(d@),
            None => None::<(SdpKind, Seq<char>)>,
        }),
{
    match serde_json::from_str::<RTCSessionDescription>(line) {
        Ok(d) => Some(SessionDescription {
            kind: match d.sdp_type {
                RTCSdpType::Unspecified => SdpKind::Unspecified,
                RTCSdpType::Offer => SdpKind::Offer,
                RTCSdpType::Pranswer => SdpKind::Pranswer,
                RTCSdpType::Answer => SdpKind::Answer,
                RTCSdpType::Rollback => SdpKind::Rollback,
            },
            sdp: d.sdp,
        }),
        Err(_) => None,
    }
}

proof fn lemma_escaped_single_line(s: Seq<char>)
    ensures
        single_line(escaped(s)),
    decreases s.len(),
{
    if s.len() > 0 {
        lemma_escaped_single_line(s.drop_last());
        let a = escaped(s.drop_last());
        let b = escaped_char(s.last());
        assert forall|i: int| 0 <= i < b.len() implies b[i] != '\n' by {
            let c = s.last();
            if c != '"' && c != '\\' && c != '\u{8}' && c != '\t' && c != '\n' && c != '\u{c}'
                && c != '\r' && (c as u32) < 0x20 && i >= 4 {
                let h = seq!['0', '1', '2', '3', '4', '5', '6', '7', '8', '9', 'a', 'b', 'c', 'd', 'e', 'f'];
                assert(forall|j: int| 0 <= j < 16 ==> h[j] != '\n');
            }
        }
        assert forall|i: int| 0 <= i < (a + b).len() implies (a + b)[i] != '\n' by {
            if i < a.len() {
                assert((a + b)[i] == a[i]);
            } else {
                assert((a + b)[i] == b[i - a.len()]);
            }
        }
    }
}

/// The line that encodes any description holds no newline.
pub proof fn lemma_line_single_line(d: (SdpKind, Seq<char>))
    ensures
        single_line(description_line(d)),
{
    lemma_escaped_single_line(d.1);
    let p = open_text() + kind_word(d.0) + sdp_text();
    let e = escaped(d.1);
    let line = description_line(d);
    assert(line == p + e + close_text());
    assert forall|i: int| 0 <= i < line.len() implies line[i] != '\n' by {
        if i < p.len() {
            assert(line[i] == p[i]);
            if i < 9 {
                assert(p[i] == open_text()[i]);
            } else if i < 9 + kind_word(d.0).len() {
                assert(p[i] == kind_word(d.0)[i - 9]);
            } else {
                assert(p[i] == sdp_text()[i - 9 - kind_word(d.0).len()]);
            }
        } else if i < p.len() + e.len() {
            assert(line[i] == e[i - p.len()]);
        } else {
            assert(line[i] == close_text()[i - p.len() - e.len()]);
        }
    }
}

/// Writes `d` as one line of JSON: `{"type":"<kind>","sdp":"<escaped sdp>"}`.
/// The line holds no newline and decodes back to `d`.
pub fn encode(d: &SessionDescription) -> (r: Result<String, SessionError>)
    ensures
        r is Ok,
        r->Ok_0@ == description_line(d@),
        single_line(r->Ok_0@),
        json_description(r->Ok_0@) == Some(d@),
{
    proof {
        lemma_line_single_line(d@);
    }
    match print_description(d) {
        Some(line) => Ok(line),
        None => Err(SessionError::EncodingError),
    }
}

/// Reads a line of JSON as a session description. Fails with
/// `MalformedDescription` where the line is not valid JSON or lacks a member that a
/// description needs.
pub fn decode(line: &str) -> (r: Result<SessionDescription, SessionError>)
    ensures
        match json_description(line@) {
            Some(d) => r is Ok && r->Ok_0@ == d,
            None => r == Err::<SessionDescription, SessionError>(
                SessionError::MalformedDescription,
            ),
        },
{
    match parse_description(line) {
        Some(d) => Ok(d),
        None => Err(SessionError::MalformedDescription),
    }
}

} // verus!
