//! Handshake emulation.
//!
//! To look like a successful protocol upgrade to HTTP-aware middleboxes, the
//! proxy greets every client with `HTTP/1.1 101 <status>\r\n\r\n` before
//! anything else. It then peeks at the client's first bytes: if they contain
//! `HTTP` the preamble is drained from the stream, and if they also contain
//! `websocket` (in any ASCII casing) a second line
//! `HTTP/1.1 200 <status>\r\n\r\n` is sent. This module builds those exact
//! byte sequences and makes the drain/upgrade decision; the writes, peeks and
//! reads themselves happen outside the library.

use vstd::prelude::*;

use crate::sniff::contains_seq;
use crate::sniff::contains_subslice;
use crate::sniff::contains_subslice_ci;
use crate::sniff::http_needle;
use crate::sniff::http_token;
use crate::sniff::lower;
use crate::sniff::push_all;
use crate::sniff::websocket_needle;
use crate::sniff::websocket_token;

verus! {

/// The bytes of `HTTP/1.1 ` that open every response line.
pub open spec fn response_head() -> Seq<u8> {
    seq![72u8, 84u8, 84u8, 80u8, 47u8, 49u8, 46u8, 49u8, 32u8]
}

/// The bytes of `101`, the switching-protocols code of the greeting.
pub open spec fn greeting_code() -> Seq<u8> {
    seq![49u8, 48u8, 49u8]
}

/// The bytes of `200`, the code of the upgrade reply.
pub open spec fn upgrade_code() -> Seq<u8> {
    seq![50u8, 48u8, 48u8]
}

/// The bytes of `\r\n\r\n` that close every response line.
pub open spec fn response_tail() -> Seq<u8> {
    seq![13u8, 10u8, 13u8, 10u8]
}

/// A full response line: `HTTP/1.1 <code> <status>\r\n\r\n`.
pub open spec fn response_line(code: Seq<u8>, status: Seq<u8>) -> Seq<u8> {
    response_head() + code + seq![32u8] + status + response_tail()
}

/// The greeting `HTTP/1.1 101 <status>\r\n\r\n`, the first bytes every
/// accepted client receives.
pub open spec fn greeting(status: Seq<u8>) -> Seq<u8> {
    response_line(greeting_code(), status)
}

/// The upgrade reply `HTTP/1.1 200 <status>\r\n\r\n`, sent only after a
/// WebSocket-looking preamble.
pub open spec fn upgrade_reply(status: Seq<u8>) -> Seq<u8> {
    response_line(upgrade_code(), status)
}

/// Builds the exact bytes of `HTTP/1.1 <code> <status>\r\n\r\n`.
fn response_line_bytes(code: &[u8], status: &[u8]) -> (r: Vec<u8>)
    ensures
        r@ == response_line(code@, status@),
{
    let mut r: Vec<u8> = Vec::new();
    r.push(72);
    r.push(84);
    r.push(84);
    r.push(80);
    r.push(47);
    r.push(49);
    r.push(46);
    r.push(49);
    r.push(32);
    push_all(&mut r, code);
    r.push(32);
    push_all(&mut r, status);
    r.push(13);
    r.push(10);
    r.push(13);
    r.push(10);
    assert(r@ =~= response_line(code@, status@));
    r
}

/// Builds the exact bytes of the greeting for the given status label.
pub fn greeting_bytes(status: &[u8]) -> (r: Vec<u8>)
    ensures
        r@ == greeting(status@),
{
    let mut code: Vec<u8> = Vec::new();
    code.push(49);
    code.push(48);
    code.push(49);
    assert(code@ =~= greeting_code());
    response_line_bytes(code.as_slice(), status)
}

/// Builds the exact bytes of the upgrade reply for the given status label.
pub fn upgrade_reply_bytes(status: &[u8]) -> (r: Vec<u8>)
    ensures
        r@ == upgrade_reply(status@),
{
    let mut code: Vec<u8> = Vec::new();
    code.push(50);
    code.push(48);
    code.push(48);
    assert(code@ =~= upgrade_code());
    response_line_bytes(code.as_slice(), status)
}

/// The peeked bytes look like an HTTP preamble: they contain `HTTP`,
/// case-sensitively.
pub open spec fn is_http_preamble(d: Seq<u8>) -> bool {
    contains_seq(d, http_token())
}

/// The peeked bytes ask for a WebSocket upgrade: an HTTP preamble that also
/// contains `websocket` in some ASCII casing.
pub open spec fn requests_upgrade(d: Seq<u8>) -> bool {
    is_http_preamble(d) && contains_seq(lower(d), lower(websocket_token()))
}

/// What the handshake does after peeking at the client's first bytes.
pub struct PreambleDecision {
    /// Read and discard up to the drain limit from the stream.
    pub drain: bool,
    /// Send the `HTTP/1.1 200` upgrade reply.
    pub send_upgrade: bool,
}

/// Classifies the peeked bytes: drain exactly when they contain `HTTP`, and
/// send the upgrade reply exactly when they also contain `websocket` in any
/// ASCII casing.
pub fn sniff_preamble(peeked: &[u8]) -> (dec: PreambleDecision)
    ensures
        dec.drain == is_http_preamble(peeked@),
        dec.send_upgrade == requests_upgrade(peeked@),
{
    let http = http_needle();
    if contains_subslice(peeked, http.as_slice()) {
        let ws = websocket_needle();
        let up = contains_subslice_ci(peeked, ws.as_slice());
        PreambleDecision { drain: true, send_upgrade: up }
    } else {
        PreambleDecision { drain: false, send_upgrade: false }
    }
}

/// A preamble that nowhere contains `websocket`, however cased, never
/// triggers the upgrade reply, whether or not it contains `HTTP`.
pub proof fn lemma_no_websocket_no_upgrade(d: Seq<u8>)
    requires
        !contains_seq(lower(d), lower(websocket_token())),
    ensures
        !requests_upgrade(d),
{
}

/// The upgrade reply is only ever sent on an HTTP preamble: a client that
/// never sent `HTTP` gets the greeting alone, whatever else it sent.
pub proof fn lemma_upgrade_only_with_http(d: Seq<u8>)
    requires
        !is_http_preamble(d),
    ensures
        !requests_upgrade(d),
{
}

} // verus!
