//! Decoding of the chip's three-byte touch report.
//!
//! The chip answers every bus read with its latest report: a status byte
//! followed by the low eight bits of the x and of the y coordinate.  The
//! status byte packs the ninth bit of each coordinate, the phase of the
//! touch and the hardware channel that sensed it:
//!
//! ```text
//!   bit   7    6    5    4    3    2    1    0
//!        y8   x8   phase...   -    id   -    -
//! ```

use vstd::prelude::*;
use crate::error::DeviceError;

verus! {

/// Largest x coordinate that the panel can report.
pub const MAX_X: u16 = 370;

/// Largest y coordinate that the panel can report.
pub const MAX_Y: u16 = 370;

/// Phase of a touch at the moment of a report.
#[derive(Debug, Clone, Copy, PartialEq, Eq)]
pub enum TouchFlag {
    /// The finger has just come down.
    Down,
    /// The finger has been lifted.
    Up,
    /// The finger stays on the panel.
    Contact,
}

/// One decoded touch report.
#[derive(Debug, Clone, Copy, PartialEq, Eq)]
pub struct TouchEvent {
    /// Horizontal coordinate, nine bits wide.
    pub x: u16,
    /// Vertical coordinate, nine bits wide.
    pub y: u16,
    /// Phase of the touch.
    pub flag: TouchFlag,
    /// Which of the two hardware touch channels produced the report.
    pub id: bool,
}

/// The two-bit phase field of a status byte.
pub open spec fn phase_bits(status: u8) -> u8 {
    (status >> 4) & 0b11
}

/// The ninth bit of the x coordinate, as held in a status byte.
pub open spec fn x_high_bit(status: u8) -> u8 {
    (status >> 6) & 1
}

/// The ninth bit of the y coordinate, as held in a status byte.
pub open spec fn y_high_bit(status: u8) -> u8 {
    (status >> 7) & 1
}

/// The touch channel bit of a status byte.
pub open spec fn channel_bit(status: u8) -> bool {
    status & 0b100 != 0
}

/// A coordinate put together from its ninth bit and its low byte.
pub open spec fn coordinate(high_bit: u8, low: u8) -> u16 {
    ((high_bit as u16) << 8) | (low as u16)
}

/// What a report of the three bytes `raw` means.
pub open spec fn decoded(raw: Seq<u8>) -> Result<TouchEvent, DeviceError> {
    match TouchFlag::named_by(phase_bits(raw[0])) {
        Some(flag) => Ok(
            TouchEvent {
                x: coordinate(x_high_bit(raw[0]), raw[1]),
                y: coordinate(y_high_bit(raw[0]), raw[2]),
                flag,
                id: channel_bit(raw[0]),
            },
        ),
        None => Err(DeviceError::InvalidTouchFlag(phase_bits(raw[0]))),
    }
}

impl TouchFlag {
    /// The phase that a value of the phase field names, if it names one.
    pub open spec fn named_by(bits: u8) -> Option<TouchFlag> {
        if bits == 0 {
            Some(TouchFlag::Down)
        } else if bits == 1 {
            Some(TouchFlag::Up)
        } else if bits == 2 {
            Some(TouchFlag::Contact)
        } else {
            None
        }
    }

    /// The value of the phase field that names this phase: 0 for down,
    /// 1 for up, 2 for contact.
    pub fn bits(self) -> (bits: u8)
        ensures
            TouchFlag::named_by(bits) == Some(self),
    {
        match self {
            TouchFlag::Down => 0,
            TouchFlag::Up => 1,
            TouchFlag::Contact => 2,
        }
    }

    /// Reads the phase out of a status byte.
    ///
    /// Fails exactly when the phase field holds 3, the one value that
    /// names no phase; the error carries the field.
    pub fn from_status(status: u8) -> (result: Result<TouchFlag, DeviceError>)
        ensures
            result == match TouchFlag::named_by(phase_bits(status)) {
                Some(flag) => Ok::<TouchFlag, DeviceError>(flag),
                None => Err(DeviceError::InvalidTouchFlag(phase_bits(status))),
            },
            result is Err <==> phase_bits(status) == 3,
    {
        let bits: u8 = (status >> 4) & 0b11;
        assert(bits <= 3) by (bit_vector)
            requires
                bits == (status >> 4) & 0b11,
        ;
        if bits == 0 {
            Ok(TouchFlag::Down)
        } else if bits == 1 {
            Ok(TouchFlag::Up)
        } else if bits == 2 {
            Ok(TouchFlag::Contact)
        } else {
            Err(DeviceError::InvalidTouchFlag(bits))
        }
    }
}

impl TouchEvent {
    /// Decodes one raw report.
    ///
    /// The result depends on the three bytes alone.  Decoding fails exactly
    /// when the phase field of the status byte holds 3; no phase is ever
    /// made up for such a report.  Both coordinates of a decoded report fit
    /// in nine bits.
    pub fn decode(raw: [u8; 3]) -> (result: Result<TouchEvent, DeviceError>)
        ensures
            result == decoded(raw@),
            result is Err <==> phase_bits(raw@[0]) == 3,
            result matches Ok(event) ==> event.x < 512 && event.y < 512,
    {
        let status: u8 = raw[0];
        let x_low: u8 = raw[1];
        let y_low: u8 = raw[2];
        let flag = match TouchFlag::from_status(status) {
            Ok(flag) => flag,
            Err(error) => {
                return Err(error);
            },
        };
        let x_high: u8 = (status >> 6) & 1;
        let y_high: u8 = (status >> 7) & 1;
        let x: u16 = ((x_high as u16) << 8) | (x_low as u16);
        let y: u16 = ((y_high as u16) << 8) | (y_low as u16);
        proof {
            lemma_status_layout(status);
            lemma_coordinate_value(x_high, x_low);
            lemma_coordinate_value(y_high, y_low);
        }
        Ok(TouchEvent { x, y, flag, id: status & 0b100 != 0 })
    }
}

/// The fields of a status byte, read as numbers: the byte is
/// `128 * y8 + 64 * x8 + 16 * phase + 4 * id` plus the bits that carry
/// nothing.
pub proof fn lemma_status_layout(status: u8)
    ensures
        y_high_bit(status) == status / 128,
        x_high_bit(status) == (status / 64) % 2,
        phase_bits(status) == (status / 16) % 4,
        channel_bit(status) <==> (status / 4) % 2 == 1,
{
    assert((status >> 7) & 1 == status / 128) by (bit_vector);
    assert((status >> 6) & 1 == (status / 64) % 2) by (bit_vector);
    assert((status >> 4) & 0b11 == (status / 16) % 4) by (bit_vector);
    assert((status & 0b100 != 0) <==> (status / 4) % 2 == 1) by (bit_vector);
}

/// A coordinate is its low byte, plus 256 where its ninth bit is set.
pub proof fn lemma_coordinate_value(high_bit: u8, low: u8)
    requires
        high_bit <= 1,
    ensures
        coordinate(high_bit, low) == 256 * high_bit + low,
        coordinate(high_bit, low) < 512,
{
    assert(((high_bit as u16) << 8) | (low as u16) == 256 * (high_bit as u16) + (low as u16))
        by (bit_vector)
        requires
            high_bit <= 1,
    ;
}

} // verus!
