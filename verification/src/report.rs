//! The report on a finished fetch: the body as text where it decodes, a
//! notice and a dump of its first bytes where it does not.

use vstd::prelude::*;
use vstd::utf8::{decode_utf8, valid_utf8};
use crate::buffer::ResponseBuffer;
use crate::numtext::{hex_byte, push_hex_byte};

verus! {

/// How many bytes of the region the dump shows.
pub const DUMP_LEN: usize = 32;

/// The bytes of `bytes`, each as two hexadecimal digits, separated by a comma
/// and a space.
pub open spec fn hex_items(bytes: Seq<u8>) -> Seq<char>
    decreases bytes.len(),
{
    if bytes.len() == 0 {
        Seq::empty()
    } else if bytes.len() == 1 {
        hex_byte(bytes[0])
    } else {
        hex_items(bytes.drop_last()) + seq![',', ' '] + hex_byte(bytes.last())
    }
}

/// The first bytes of a region that the dump shows: `DUMP_LEN` of them, or
/// the whole of a shorter region.
pub open spec fn dumped(region: Seq<u8>) -> Seq<u8> {
    if region.len() <= DUMP_LEN {
        region
    } else {
        region.take(DUMP_LEN as int)
    }
}

/// The line that shows the first bytes of a region.
pub open spec fn dump_line(region: Seq<u8>) -> Seq<char> {
    "first 32 bytes of body: ["@ + hex_items(dumped(region)) + "]"@
}

/// The notice that stands in for a body that is not text.
pub open spec fn fallback_notice() -> Seq<char> {
    "<body is not valid UTF-8>"@
}

/// What is shown of a response body.
#[derive(Debug, PartialEq, Eq)]
pub enum Report {
    /// The body, decoded.
    Text(String),
    /// The body is not text: a notice, and a line with its first bytes.
    Undecodable { notice: String, dump: String },
}

/// What `report` owes for a buffer with these written bytes in this region.
pub open spec fn reported(captured: Seq<u8>, region: Seq<u8>, r: Report) -> bool {
    match r {
        Report::Text(text) => valid_utf8(captured) && text@ == decode_utf8(captured),
        Report::Undecodable { notice, dump } => !valid_utf8(captured) && notice@
            == fallback_notice() && dump@ == dump_line(region),
    }
}

/// `String::from_utf8` of the standard library: the bytes as text if and only
/// if they are valid UTF-8, and then the characters that they encode.
#[verifier::external_body]
fn text_of(bytes: Vec<u8>) -> (r: Option<String>)
    ensures
        r is Some <==> valid_utf8(bytes@),
        r matches Some(s) ==> s@ == decode_utf8(bytes@),
{
    String::from_utf8(bytes).ok()
}

/// Renders the line that shows the first bytes of the buffer's region.
pub fn render_dump(body: &ResponseBuffer) -> (line: String)
    ensures
        line@ == dump_line(body.region()),
{
    let mut out = String::from_str("first 32 bytes of body: [");
    let ghost head = out@;
    let n: usize = if body.capacity() <= DUMP_LEN { body.capacity() } else { DUMP_LEN };
    let ghost shown = dumped(body.region());
    let mut i: usize = 0;
    while i < n
        invariant
            i <= n,
            n == shown.len(),
            n <= body.capacity_spec(),
            shown == body.region().take(n as int),
            out@ == head + hex_items(shown.take(i as int)),
        decreases n - i,
    {
        let b = match body.get(i) {
            Some(b) => b,
            None => 0u8,
        };
        assert(b == shown[i as int]);
        let ghost before = out@;
        if i > 0 {
            proof {
                reveal_strlit(", ");
            }
            out.append(", ");
        }
        push_hex_byte(&mut out, b);
        proof {
            let upto = shown.take(i + 1);
            assert(upto.drop_last() =~= shown.take(i as int));
            assert(upto.last() == b);
            if i == 0 {
                assert(hex_items(shown.take(0)) =~= Seq::<char>::empty());
                assert(out@ =~= head + hex_items(upto));
            } else {
                assert(", "@ =~= seq![',', ' ']);
                assert(out@ =~= head + hex_items(upto));
            }
        }
        i = i + 1;
    }
    proof {
        assert(shown.take(n as int) =~= shown);
    }
    out.append("]");
    assert(out@ =~= dump_line(body.region()));
    out
}

/// Reports on the body: its text where the written bytes are valid UTF-8,
/// else the fixed notice and the dump of the region's first bytes. It cannot
/// fail.
pub fn report(body: &ResponseBuffer) -> (r: Report)
    requires
        body.wf(),
    ensures
        reported(body.captured(), body.region(), r),
{
    match text_of(body.captured_bytes()) {
        Some(text) => Report::Text(text),
        None => Report::Undecodable {
            notice: String::from_str("<body is not valid UTF-8>"),
            dump: render_dump(body),
        },
    }
}

} // verus!
