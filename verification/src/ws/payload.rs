//! How a payload taken from the hub is framed for a client.

use vstd::prelude::*;
use vstd::utf8::decode_utf8;
use vstd::utf8::encode_utf8;
use vstd::utf8::encode_utf8_decode_utf8;
use vstd::utf8::valid_utf8;

use crate::ws::frames::Outbound;
use crate::ws::frames::OutboundView;

verus! {

/// The frame that carries `payload`: text where the bytes are well-formed
/// UTF-8, binary otherwise.
pub open spec fn framed(payload: Seq<u8>) -> OutboundView {
    if valid_utf8(payload) {
        OutboundView::Text(decode_utf8(payload))
    } else {
        OutboundView::Binary(payload)
    }
}

/// Reads `bytes` as text through `std::str::from_utf8`, which succeeds exactly
/// on well-formed UTF-8 and then hands back the same bytes as a string slice.
#[verifier::external_body]
fn utf8_text<'a>(bytes: &'a [u8]) -> (r: Option<&'a str>)
    ensures
        r is Some <==> valid_utf8(bytes@),
        r matches Some(text) ==> encode_utf8(text@) == bytes@,
{
    std::str::from_utf8(bytes).ok()
}

/// Frames a hub payload for delivery to a client.
pub fn frame_payload(payload: Vec<u8>) -> (frame: Outbound)
    ensures
        frame@ == framed(payload@),
{
    let decoded = match utf8_text(payload.as_slice()) {
        Some(text) => {
            proof {
                encode_utf8_decode_utf8(text@);
            }
            Some(text.to_owned())
        },
        None => None,
    };
    match decoded {
        Some(text) => Outbound::Text(text),
        None => Outbound::Binary(payload),
    }
}

} // verus!
