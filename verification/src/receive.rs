//! The receive task's decision logic: one inbound byte drives the framing
//! buffer, and a completed frame is decoded, trimmed and handed on for
//! display — or discarded silently when it is not valid UTF-8. Either way the
//! buffer is cleared afterwards, ready for the next frame.

use vstd::prelude::*;

verus! {

use crate::framing::FrameBuffer;
use crate::framing::is_delimiter;
use crate::framing::push_model;
use crate::text::frame_text;
use crate::text::trim_of;
use vstd::utf8::decode_utf8;
use vstd::utf8::valid_utf8;

/// What the receive task asks of the display after one byte: nothing, or a
/// full redraw showing the given text.
pub enum DisplayAction {
    /// No completed frame: the display is left alone.
    Idle,
    /// A frame completed and decoded: clear the display and draw this text.
    Show(String),
}

/// Feed one inbound byte to the accumulator. A delimiter completes the
/// current frame: its bytes are decoded as UTF-8 and trimmed into a
/// [`DisplayAction::Show`], or discarded when invalid, and the buffer is
/// cleared either way. Any other byte only advances the accumulation.
pub fn on_byte(buf: &mut FrameBuffer, byte: u8) -> (act: DisplayAction)
    requires
        old(buf).wf(),
    ensures
        final(buf).wf(),
        !is_delimiter(byte) ==> final(buf)@ == push_model(old(buf)@, byte) && act is Idle,
        is_delimiter(byte) ==> final(buf)@ == Seq::<u8>::empty(),
        is_delimiter(byte) && valid_utf8(old(buf)@) ==> (act matches DisplayAction::Show(t) && t@ == trim_of(decode_utf8(old(buf)@))),
        is_delimiter(byte) && !valid_utf8(old(buf)@) ==> act is Idle,
{
    let complete = buf.push(byte);
    if complete {
        let frame = buf.contents();
        buf.clear();
        match frame_text(&frame) {
            Some(t) => DisplayAction::Show(t),
            None => DisplayAction::Idle,
        }
    } else {
        DisplayAction::Idle
    }
}

} // verus!
