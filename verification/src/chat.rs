//! Steady-state chat traffic: outbound sealing, relay framing, and inbound
//! parsing and decryption.
//!
//! Outbound, a non-empty input line is sealed under the room key and sent as
//! one base64 line; an empty line sends nothing. The server republishes each
//! received line unchanged, prefixed with `"[<origin>]: "`; a receiving
//! client parses that prefix back off, decrypts the payload, and prints
//! anything that does not match the pattern verbatim. Framing and parsing
//! are proved inverse to each other.

use crate::b64::{b64_decode, b64_encode, b64enc};
use crate::errors::ChatError;
use crate::sealed::{is_sealed, max_plaintext_len, open, seal};
use crate::wire::{
    bytes_eq, is_ascii_ws, lemma_trim_clean_line, lemma_trim_end_le, trim_bytes, trim_end_bytes,
    trim_end_spec, trim_spec,
};
use vstd::prelude::*;

verus! {

/// The default capacity of the relay's fan-out broadcast buffer, in pending
/// entries per subscriber. When a subscriber falls behind this bound its
/// oldest unread entries are dropped; publishers are never blocked. The
/// value is a default, not a protocol constant: hosts may pick another.
pub const DEFAULT_BROADCAST_CAPACITY: usize = 100;

/// Whether the separator `"]: "` starts at position `i` of `l`.
pub open spec fn sep_at(l: Seq<u8>, i: int) -> bool {
    &&& 0 <= i
    &&& i + 3 <= l.len()
    &&& l[i] == 93
    &&& l[i + 1] == 58
    &&& l[i + 2] == 32
}

/// The position of the first `"]: "` in `l` at or after `i`, if any.
pub open spec fn find_sep_from(l: Seq<u8>, i: int) -> Option<int>
    decreases l.len() - i,
{
    if i < 0 || i + 3 > l.len() {
        None
    } else if sep_at(l, i) {
        Some(i)
    } else {
        find_sep_from(l, i + 1)
    }
}

/// The position of the first `"]: "` in `l`, if any.
pub open spec fn find_sep(l: Seq<u8>) -> Option<int> {
    find_sep_from(l, 0)
}

/// `s` with every leading `'['` removed.
pub open spec fn strip_brackets(s: Seq<u8>) -> Seq<u8>
    decreases s.len(),
{
    if s.len() > 0 && s[0] == 91 {
        strip_brackets(s.skip(1))
    } else {
        s
    }
}

/// What parsing a relayed line yields: the sender (everything before the
/// first `"]: "`, with leading `'['` stripped) and the payload after it;
/// nothing when the line does not contain the separator.
pub open spec fn parse_spec(l: Seq<u8>) -> Option<(Seq<u8>, Seq<u8>)> {
    match find_sep(l) {
        Some(i) => Some((strip_brackets(l.take(i)), l.skip(i + 3))),
        None => None,
    }
}

/// The relay framing of a payload line: `"[" + origin + "]: " + line`.
pub open spec fn frame_spec(origin: Seq<u8>, line: Seq<u8>) -> Seq<u8> {
    seq![91u8] + origin + seq![93u8, 58u8, 32u8] + line
}

/// An origin label that the framing round-trips: it holds no `"]: "` of its
/// own and does not begin with `'['`. Socket address labels satisfy this.
pub open spec fn origin_ok(origin: Seq<u8>) -> bool {
    &&& forall|i: int| !sep_at(origin, i)
    &&& origin.len() > 0 ==> origin[0] != 91
}

proof fn lemma_find_sep_some(l: Seq<u8>, from: int, k: int)
    requires
        0 <= from <= k,
        sep_at(l, k),
        forall|j: int| from <= j < k ==> !sep_at(l, j),
    ensures
        find_sep_from(l, from) == Some(k),
    decreases k - from,
{
    if from < k {
        lemma_find_sep_some(l, from + 1, k);
    }
}

proof fn lemma_find_sep_none(l: Seq<u8>, from: int)
    requires
        0 <= from,
        forall|j: int| from <= j ==> !sep_at(l, j),
    ensures
        find_sep_from(l, from) is None,
    decreases l.len() - from,
{
    if from + 3 <= l.len() {
        lemma_find_sep_none(l, from + 1);
    }
}

proof fn lemma_strip_as_skip(s: Seq<u8>, k: int)
    requires
        0 <= k <= s.len(),
        forall|j: int| 0 <= j < k ==> s[j] == 91,
        k < s.len() ==> s[k] != 91,
    ensures
        strip_brackets(s) == s.skip(k),
    decreases k,
{
    if k == 0 {
        assert(s.skip(0) =~= s);
    } else {
        lemma_strip_as_skip(s.skip(1), k - 1);
        assert(s.skip(1).skip(k - 1) =~= s.skip(k));
    }
}

/// Find the first `"]: "` in a line.
fn find_sep_bytes(line: &[u8]) -> (r: Option<usize>)
    ensures
        r matches Some(i) ==> find_sep(line@) == Some(i as int) && sep_at(line@, i as int),
        r is None ==> find_sep(line@) is None,
{
    if line.len() < 3 {
        proof {
            lemma_find_sep_none(line@, 0);
        }
        return None;
    }
    let mut i: usize = 0;
    while i <= line.len() - 3
        invariant
            line@.len() >= 3,
            0 <= i <= line@.len() - 2,
            forall|j: int| 0 <= j < i ==> !sep_at(line@, j),
        decreases line@.len() - i,
    {
        if *vstd::slice::slice_index_get(line, i) == 93 && *vstd::slice::slice_index_get(
            line,
            i + 1,
        ) == 58 && *vstd::slice::slice_index_get(line, i + 2) == 32 {
            proof {
                lemma_find_sep_some(line@, 0, i as int);
            }
            return Some(i);
        }
        i += 1;
    }
    proof {
        lemma_find_sep_none(line@, 0);
    }
    None
}

/// Split a relayed line into sender and payload at the first `"]: "`,
/// stripping leading `'['` from the sender, exactly as [`parse_spec`] says;
/// `None` when the line does not match the pattern.
pub fn parse_message(line: &[u8]) -> (r: Option<(Vec<u8>, Vec<u8>)>)
    ensures
        parse_spec(line@) is None ==> r is None,
        parse_spec(line@) matches Some(q) ==> r matches Some(p) && p.0@ == q.0 && p.1@ == q.1,
{
    match find_sep_bytes(line) {
        None => None,
        Some(i) => {
            let mut k: usize = 0;
            while k < i && *vstd::slice::slice_index_get(line, k) == 91
                invariant
                    0 <= k <= i,
                    i + 3 <= line@.len(),
                    forall|j: int| 0 <= j < k ==> line@[j] == 91,
                decreases i - k,
            {
                k += 1;
            }
            let n = line.len();
            proof {
                assert(sep_at(line@, i as int));
                assert(i + 3 <= n);
            }
            let sender = vstd::slice::slice_to_vec(vstd::slice::slice_subrange(line, k, i));
            let payload = vstd::slice::slice_to_vec(vstd::slice::slice_subrange(line, i + 3, n));
            proof {
                let pre = line@.take(i as int);
                lemma_strip_as_skip(pre, k as int);
                assert(pre.skip(k as int) =~= line@.subrange(k as int, i as int));
                assert(line@.skip(i + 3) =~= line@.subrange(i + 3, line@.len() as int));
            }
            Some((sender, payload))
        },
    }
}

/// Frame a received line for the relay: `"[" + origin + "]: " + line`, the
/// payload itself unmodified.
pub fn frame_relay(origin: &[u8], line: &[u8]) -> (r: Vec<u8>)
    ensures
        r@ == frame_spec(origin@, line@),
{
    let mut out: Vec<u8> = Vec::new();
    out.push(91);
    let mut o = vstd::slice::slice_to_vec(origin);
    out.append(&mut o);
    out.push(93);
    out.push(58);
    out.push(32);
    let mut l = vstd::slice::slice_to_vec(line);
    out.append(&mut l);
    proof {
        assert(out@ =~= frame_spec(origin@, line@));
    }
    out
}

/// Law: parsing inverts framing. For any origin label that holds no
/// separator of its own and does not begin with `'['`, the framed line
/// parses back to exactly that origin and the original payload.
pub proof fn lemma_frame_then_parse(origin: Seq<u8>, line: Seq<u8>)
    requires
        origin_ok(origin),
    ensures
        parse_spec(frame_spec(origin, line)) == Some((origin, line)),
{
    let f = frame_spec(origin, line);
    let n = origin.len() as int;
    assert(sep_at(f, n + 1));
    assert forall|j: int| 0 <= j < n + 1 implies !sep_at(f, j) by {
        if 1 <= j && j + 2 <= n {
            assert(f[j] == origin[j - 1]);
            assert(f[j + 1] == origin[j]);
            assert(f[j + 2] == origin[j + 1]);
            assert(!sep_at(origin, j - 1));
        } else if j == 0 {
            assert(f[0] == 91);
        } else if j == n - 1 {
            assert(f[j + 2] == 93);
        } else if j == n {
            assert(f[j + 1] == 93);
        }
    }
    lemma_find_sep_some(f, 0, n + 1);
    let pre = f.take(n + 1);
    assert(pre =~= seq![91u8] + origin);
    if origin.len() == 0 {
        assert(pre.skip(1) =~= origin);
        lemma_strip_as_skip(pre, 1);
    } else {
        assert(pre[1] == origin[0]);
        assert(pre[1] != 91);
        lemma_strip_as_skip(pre, 1);
        assert(pre.skip(1) =~= origin);
    }
    assert(f.skip(n + 4) =~= line);
}

/// A message as it sits in the broadcast channel: the framed line and the
/// identity of the connection it came from.
pub struct RelayedMessage {
    /// The rendered line, already framed with the origin label.
    pub line: Vec<u8>,
    /// The origin connection's label; receivers skip their own.
    pub origin: Vec<u8>,
}

/// Build the relay entry for a line received from `origin`.
pub fn relay_message(origin: &[u8], line: &[u8]) -> (r: RelayedMessage)
    ensures
        r.line@ == frame_spec(origin@, line@),
        r.origin@ == origin@,
{
    RelayedMessage { line: frame_relay(origin, line), origin: vstd::slice::slice_to_vec(origin) }
}

/// Whether a relayed message from `origin` is shown to the connection
/// labelled `self_addr`: every connection skips its own publications.
pub fn should_relay(origin: &[u8], self_addr: &[u8]) -> (r: bool)
    ensures
        r <==> origin@ != self_addr@,
{
    !bytes_eq(origin, self_addr)
}

/// Seal one line of local input for sending. An input that is empty after
/// trailing whitespace is trimmed produces nothing — no packet is sent for
/// an empty line; otherwise the trimmed input is sealed under the room key
/// and returned as one base64 line.
pub fn outbound_line(room_key: &[u8], input: &[u8]) -> (r: Option<Vec<u8>>)
    requires
        room_key@.len() == 32,
        input@.len() <= max_plaintext_len(),
    ensures
        r is None <==> trim_end_spec(input@).len() == 0,
        r matches Some(l) ==> exists|p: Seq<u8>|
            {
                &&& #[trigger] b64enc(p) == l@
                &&& is_sealed(room_key@, p, trim_end_spec(input@))
            },
        r matches Some(l) ==> forall|i: int| 0 <= i < l@.len() ==> !is_ascii_ws(l@[i]),
{
    let trimmed = trim_end_bytes(input);
    if trimmed.len() == 0 {
        return None;
    }
    proof {
        lemma_trim_end_le(input@);
    }
    let packet = seal(room_key, trimmed.as_slice());
    Some(b64_encode(packet.as_slice()))
}

/// What a client does with one line received in the steady state.
#[derive(Debug, PartialEq, Eq)]
pub enum InboundAction {
    /// The line matched the relay pattern and decrypted: show the text,
    /// attributed to the sender.
    Plaintext { sender: Vec<u8>, text: Vec<u8> },
    /// The line matched the pattern but its payload did not authenticate:
    /// show a decryption-failure notice attributed to the sender and keep
    /// the connection open.
    DecryptFailed { sender: Vec<u8> },
    /// The line did not match the relay pattern: print it verbatim.
    Verbatim { line: Vec<u8> },
    /// A matched line whose payload is not a plausible packet; nothing is
    /// shown.
    Ignore,
}

/// Decide what to do with one steady-state line from the socket, without
/// performing any output. Every relayed sealing of a plaintext under the
/// room key comes back as that plaintext with its sender; a line that does
/// not match the relay pattern is passed through verbatim; a matched line
/// that fails to authenticate is reported against its sender only.
pub fn client_handle_line(room_key: &[u8], line: &[u8]) -> (r: InboundAction)
    requires
        room_key@.len() == 32,
    ensures
        parse_spec(line@) is None ==> (r matches InboundAction::Verbatim { line: lv } && lv@
            == line@),
        parse_spec(line@) matches Some(q) ==> match r {
            InboundAction::Plaintext { sender, text } => sender@ == q.0 && exists|d: Seq<u8>|
                {
                    &&& #[trigger] b64enc(d) == trim_spec(q.1)
                    &&& is_sealed(room_key@, d, text@)
                },
            InboundAction::DecryptFailed { sender } => sender@ == q.0,
            InboundAction::Verbatim { .. } => false,
            InboundAction::Ignore => true,
        },
        parse_spec(line@) matches Some(q) ==> forall|d: Seq<u8>, pt: Seq<u8>|
            trim_spec(q.1) == b64enc(d) && is_sealed(room_key@, d, pt) ==> (r matches
                InboundAction::Plaintext { sender, text } && sender@ == q.0 && text@ == pt),
        parse_spec(line@) matches Some(q) ==> forall|d: Seq<u8>|
            trim_spec(q.1) == b64enc(d) && d.len() > 12 && (forall|pt: Seq<u8>|
                !is_sealed(room_key@, d, pt)) ==> (r matches InboundAction::DecryptFailed {
                sender,
            } && sender@ == q.0),
        parse_spec(line@) matches Some(q) ==> forall|d: Seq<u8>|
            trim_spec(q.1) == b64enc(d) && d.len() <= 12 ==> r is Ignore,
        parse_spec(line@) matches Some(q) && (forall|d: Seq<u8>| trim_spec(q.1) != b64enc(d))
            ==> r is Ignore,
{
    match parse_message(line) {
        None => InboundAction::Verbatim { line: vstd::slice::slice_to_vec(line) },
        Some((sender, content)) => {
            let trimmed = trim_bytes(content.as_slice());
            match b64_decode(trimmed.as_slice()) {
                Err(_) => InboundAction::Ignore,
                Ok(data) => {
                    if data.len() <= 12 {
                        InboundAction::Ignore
                    } else {
                        match open(room_key, data.as_slice()) {
                            Ok(text) => InboundAction::Plaintext { sender, text },
                            Err(_) => InboundAction::DecryptFailed { sender },
                        }
                    }
                },
            }
        },
    }
}

/// Law: a message travels the whole relay intact. A non-empty input line
/// sealed by one connection, framed by the server with any well-formed
/// origin label, and handled by another connection holding the same room
/// key is shown as exactly the trimmed input, attributed to exactly that
/// origin — for every subscriber that receives the framed line.
pub fn relay_round_trip(room_key: &[u8], origin: &[u8], input: &[u8]) -> (r: Option<
    InboundAction,
>)
    requires
        room_key@.len() == 32,
        input@.len() <= max_plaintext_len(),
        origin_ok(origin@),
    ensures
        r matches Some(a) ==> (a matches InboundAction::Plaintext { sender, text } && sender@
            == origin@ && text@ == trim_end_spec(input@)),
        r is Some <==> trim_end_spec(input@).len() > 0,
{
    let mut line = match outbound_line(room_key, input) {
        None => {
            return None;
        },
        Some(l) => l,
    };
    let ghost sealed_line = line@;
    line.push(10);
    let framed = frame_relay(origin, line.as_slice());
    proof {
        lemma_frame_then_parse(origin@, line@);
        lemma_trim_clean_line(sealed_line);
        assert(sealed_line + seq![10u8] =~= line@);
    }
    Some(client_handle_line(room_key, framed.as_slice()))
}

/// Best-effort decryption of a received line for the server's local log:
/// the plaintext when the trimmed line is a base64 sealing under the room
/// key, nothing otherwise. The outcome never affects what is relayed.
pub fn peek_plaintext(room_key: &[u8], line: &[u8]) -> (r: Option<Vec<u8>>)
    requires
        room_key@.len() == 32,
    ensures
        r matches Some(pt) ==> exists|d: Seq<u8>|
            {
                &&& #[trigger] b64enc(d) == trim_spec(line@)
                &&& is_sealed(room_key@, d, pt@)
            },
        forall|d: Seq<u8>, pt: Seq<u8>|
            trim_spec(line@) == b64enc(d) && is_sealed(room_key@, d, pt) ==> (r matches Some(v)
                && v@ == pt),
{
    let trimmed = trim_bytes(line);
    match b64_decode(trimmed.as_slice()) {
        Err(_) => None,
        Ok(data) => {
            if data.len() <= 12 {
                None
            } else {
                match open(room_key, data.as_slice()) {
                    Ok(pt) => Some(pt),
                    Err(_) => None,
                }
            }
        },
    }
}

} // verus!
