use vstd::prelude::*;

verus! {

/// Largest distance, in centimetres, that is shown as a reading; anything farther means
/// that no echo came back.
pub const MAX_DISTANCE_CM: u64 = 1000;

/// Font used to draw a message.
#[derive(Clone, Copy, Debug, PartialEq, Eq, Structural)]
pub enum TextStyle {
    /// The large glyph set, for a reading.
    Heading,
    /// The small glyph set, for the out-of-range notice.
    Body,
}

/// What the display shows after one measurement.
#[derive(Clone, Copy, Debug, PartialEq, Eq, Structural)]
pub enum DisplayMessage {
    Distance(u64),
    OutOfRange,
}

/// ASCII code of the decimal digit `d` (`d < 10`).
pub open spec fn digit_byte(d: nat) -> u8 {
    (48 + d) as u8
}

/// Decimal rendering of `n`, most significant digit first, without leading zeros.
pub open spec fn decimal(n: nat) -> Seq<u8>
    decreases n,
{
    if n < 10 {
        seq![digit_byte(n)]
    } else {
        decimal(n / 10).push(digit_byte(n % 10))
    }
}

/// The bytes of `" cm"`.
pub open spec fn cm_suffix() -> Seq<u8> {
    seq![32u8, 99u8, 109u8]
}

/// The bytes of `"I think the\nwave is lost"`.
pub open spec fn lost_wave_text() -> Seq<u8> {
    seq![
        73u8, 32u8, 116u8, 104u8, 105u8, 110u8, 107u8, 32u8, 116u8, 104u8, 101u8, 10u8,
        119u8, 97u8, 118u8, 101u8, 32u8, 105u8, 115u8, 32u8, 108u8, 111u8, 115u8, 116u8,
    ]
}

/// The message for a distance in centimetres.
pub open spec fn classify_spec(cm: u64) -> DisplayMessage {
    if cm <= MAX_DISTANCE_CM {
        DisplayMessage::Distance(cm)
    } else {
        DisplayMessage::OutOfRange
    }
}

/// The text that reports a distance: the number in decimal, then `" cm"`.
pub open spec fn distance_line(cm: nat) -> Seq<u8> {
    decimal(cm) + cm_suffix()
}

impl DisplayMessage {
    /// The text a message is drawn as.
    pub open spec fn text_spec(self) -> Seq<u8> {
        match self {
            DisplayMessage::Distance(cm) => distance_line(cm as nat),
            DisplayMessage::OutOfRange => lost_wave_text(),
        }
    }

    /// The font a message is drawn in.
    pub open spec fn style_spec(self) -> TextStyle {
        match self {
            DisplayMessage::Distance(_) => TextStyle::Heading,
            DisplayMessage::OutOfRange => TextStyle::Body,
        }
    }

    /// The font of this message: a reading in the heading font, the notice in the body font.
    pub fn style(&self) -> (r: TextStyle)
        ensures
            r == self.style_spec(),
    {
        match self {
            DisplayMessage::Distance(_) => TextStyle::Heading,
            DisplayMessage::OutOfRange => TextStyle::Body,
        }
    }

    /// The ASCII text of this message.
    pub fn text(&self) -> (r: Vec<u8>)
        ensures
            r@ == self.text_spec(),
    {
        match self {
            DisplayMessage::Distance(cm) => distance_text(*cm),
            DisplayMessage::OutOfRange => lost_wave_bytes(),
        }
    }
}

/// Chooses the message for a distance: a reading up to `MAX_DISTANCE_CM`, the out-of-range
/// notice above it.
pub fn classify(cm: u64) -> (r: DisplayMessage)
    ensures
        r == classify_spec(cm),
        cm <= MAX_DISTANCE_CM ==> r == DisplayMessage::Distance(cm) && r.style_spec()
            == TextStyle::Heading,
        cm > MAX_DISTANCE_CM ==> r == DisplayMessage::OutOfRange && r.style_spec()
            == TextStyle::Body,
{
    if cm <= MAX_DISTANCE_CM {
        DisplayMessage::Distance(cm)
    } else {
        DisplayMessage::OutOfRange
    }
}

/// Appends the decimal digits of `n` to `out`.
pub fn push_decimal(out: &mut Vec<u8>, n: u64)
    ensures
        final(out)@ == old(out)@ + decimal(n as nat),
    decreases n,
{
    if n < 10 {
        out.push((48 + n) as u8);
        assert(out@ =~= old(out)@ + decimal(n as nat));
    } else {
        push_decimal(out, n / 10);
        out.push((48 + n % 10) as u8);
        assert(out@ =~= old(out)@ + decimal(n as nat));
    }
}

/// The text that reports a distance: `"<cm> cm"`.
pub fn distance_text(cm: u64) -> (r: Vec<u8>)
    ensures
        r@ == distance_line(cm as nat),
{
    let mut out: Vec<u8> = Vec::new();
    push_decimal(&mut out, cm);
    out.push(32u8);
    out.push(99u8);
    out.push(109u8);
    assert(out@ =~= distance_line(cm as nat));
    out
}

/// The out-of-range notice, `"I think the\nwave is lost"`.
fn lost_wave_bytes() -> (r: Vec<u8>)
    ensures
        r@ == lost_wave_text(),
{
    let r: Vec<u8> = vec![
        73u8, 32u8, 116u8, 104u8, 105u8, 110u8, 107u8, 32u8, 116u8, 104u8, 101u8, 10u8,
        119u8, 97u8, 118u8, 101u8, 32u8, 105u8, 115u8, 32u8, 108u8, 111u8, 115u8, 116u8,
    ];
    assert(r@ =~= lost_wave_text());
    r
}

} // verus!
