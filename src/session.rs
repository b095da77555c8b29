//! What the serial session does with a block it has read: decode it, pick
//! its last complete line, and decode that line as a frame.
use vstd::prelude::*;
use crate::scale::{parse_frame, ScaleWeight, WeightFields};
use crate::text::{last_line, last_line_of};

verus! {

/// Line speed of the scale's serial port.
pub const BAUD_RATE: u32 = 9600;

/// How long one read may wait for the device.
pub const READ_TIMEOUT_MS: u64 = 50;

/// Size of the block read on each poll.
pub const BLOCK_LEN: usize = 64;

/// The text that `String::from_utf8_lossy` makes of `b`.
pub uninterp spec fn lossy_text(b: Seq<u8>) -> Seq<char>;

/// Relies on `String::from_utf8_lossy`: the bytes decoded as UTF-8, with each
/// invalid sequence replaced; the text depends on the bytes alone.
#[verifier::external_body]
fn decode_lossy(b: &[u8]) -> (r: String)
    ensures
        r@ == lossy_text(b@),
{
    String::from_utf8_lossy(b).into_owned()
}

/// The line of a decoded block, if it holds a complete one.
pub open spec fn block_line(b: Seq<u8>) -> Option<Seq<char>> {
    last_line_of(lossy_text(b))
}

/// The reading that a block holds, if its line is a valid frame.
pub open spec fn block_reading(b: Seq<u8>) -> Option<WeightFields> {
    match block_line(b) {
        None => None,
        Some(l) => match parse_frame(l) {
            Ok(w) => Some(w),
            Err(_) => None,
        },
    }
}

/// The complete line in a block read from the port.
pub fn line_of_block(block: &[u8]) -> (r: Option<String>)
    ensures
        match block_line(block@) {
            None => r is None,
            Some(l) => r is Some && r->0@ == l,
        },
{
    let text = decode_lossy(block);
    last_line(text.as_str())
}

/// The reading in a block read from the port; a block without a complete
/// line, or whose line is no valid frame, gives none.
pub fn reading_of_block(block: &[u8]) -> (r: Option<ScaleWeight>)
    ensures
        match block_reading(block@) {
            None => r is None,
            Some(w) => r is Some && r->0@ == w,
        },
{
    match line_of_block(block) {
        None => None,
        Some(line) => match ScaleWeight::from_str(line.as_str()) {
            Ok(w) => Some(w),
            Err(_) => None,
        },
    }
}

} // verus!
