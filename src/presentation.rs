use vstd::prelude::*;

use crate::message::{DisplayMessage, TextStyle};

verus! {

/// Width of the display, in pixels.
pub const DISPLAY_WIDTH: i32 = 128;

/// Height of the display, in pixels.
pub const DISPLAY_HEIGHT: i32 = 64;

/// Everything the display is told to draw for one message: the text, centred on
/// (`x`, `y`), in `style`, on a cleared screen.
#[derive(Debug, PartialEq, Eq)]
pub struct Frame {
    pub text: Vec<u8>,
    pub style: TextStyle,
    pub x: i32,
    pub y: i32,
}

/// The midpoint of a `width` by `height` display.
pub open spec fn center_spec(width: i32, height: i32) -> (i32, i32) {
    ((width / 2) as i32, (height / 2) as i32)
}

/// The bytes of `"Metter"`.
pub open spec fn title_text() -> Seq<u8> {
    seq![77u8, 101u8, 116u8, 116u8, 101u8, 114u8]
}

/// The point on which text is centred: the midpoint of the display.
pub fn display_center() -> (r: (i32, i32))
    ensures
        r == center_spec(DISPLAY_WIDTH, DISPLAY_HEIGHT),
        r == (64i32, 32i32),
{
    (DISPLAY_WIDTH / 2, DISPLAY_HEIGHT / 2)
}

/// The frame for a message: its text, in its style, centred on the display.
pub fn frame_for(message: &DisplayMessage) -> (r: Frame)
    ensures
        r.text@ == message.text_spec(),
        r.style == message.style_spec(),
        (r.x, r.y) == center_spec(DISPLAY_WIDTH, DISPLAY_HEIGHT),
{
    let (x, y) = display_center();
    Frame { text: message.text(), style: message.style(), x, y }
}

/// The frame shown at start-up: the appliance's name in the heading font.
pub fn title_frame() -> (r: Frame)
    ensures
        r.text@ == title_text(),
        r.style == TextStyle::Heading,
        (r.x, r.y) == center_spec(DISPLAY_WIDTH, DISPLAY_HEIGHT),
{
    let (x, y) = display_center();
    let text: Vec<u8> = vec![77u8, 101u8, 116u8, 116u8, 101u8, 114u8];
    assert(text@ =~= title_text());
    Frame { text, style: TextStyle::Heading, x, y }
}

} // verus!
