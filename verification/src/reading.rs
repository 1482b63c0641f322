//! Raw readings and the layout of the sensor's six-byte response frame.
//!
//! A response frame carries a status byte followed by forty bits of data:
//!
//! ```text
//! byte:    0        1        2        3        4        5
//!       status  hhhhhhhh hhhhhhhh hhhhtttt tttttttt tttttttt
//! ```
//!
//! The humidity field is the upper twenty bits, the temperature field the
//! lower twenty; byte 3 is shared, high nibble to humidity and low nibble to
//! temperature. Both fields are big-endian.

use vstd::prelude::*;

verus! {

/// Number of bytes in a response frame.
pub const FRAME_LEN: usize = 6;

/// One more than the largest value a twenty-bit field can hold.
pub const RAW_LIMIT: u32 = 0x10_0000;

/// Largest value a raw reading can be constructed with. The sensor never
/// reports it; it serves as the starting point of a running minimum.
pub const RAW_SENTINEL: u32 = 0xFFFF_FFFF;

/// Humidity field of a response frame.
pub open spec fn humidity_field(frame: Seq<u8>) -> int
    recommends
        frame.len() == FRAME_LEN,
{
    frame[1] as int * 0x1000 + frame[2] as int * 0x10 + frame[3] as int / 0x10
}

/// Temperature field of a response frame.
pub open spec fn temperature_field(frame: Seq<u8>) -> int
    recommends
        frame.len() == FRAME_LEN,
{
    (frame[3] as int % 0x10) * 0x1_0000 + frame[4] as int * 0x100 + frame[5] as int
}

/// The response frame that carries the given status byte and the two
/// twenty-bit fields.
pub open spec fn frame_of(status: u8, humidity: int, temperature: int) -> Seq<u8>
    recommends
        0 <= humidity < RAW_LIMIT,
        0 <= temperature < RAW_LIMIT,
{
    seq![
        status,
        (humidity / 0x1000) as u8,
        (humidity / 0x10 % 0x100) as u8,
        (humidity % 0x10 * 0x10 + temperature / 0x1_0000) as u8,
        (temperature / 0x100 % 0x100) as u8,
        (temperature % 0x100) as u8,
    ]
}

/// Humidity reading in the sensor's own twenty-bit scale.
#[derive(Clone, Copy, Debug, PartialEq, Eq)]
pub struct Humidity {
    h: u32,
}

impl View for Humidity {
    type V = u32;

    closed spec fn view(&self) -> u32 {
        self.h
    }
}

impl Humidity {
    /// Raw humidity reading.
    pub fn raw(&self) -> (h: u32)
        ensures
            h == self@,
    {
        self.h
    }

    /// Wraps a raw value. Any value is accepted, so that a running maximum can
    /// start from zero and a running minimum from [`RAW_SENTINEL`].
    pub fn from_raw(h: u32) -> (humidity: Humidity)
        ensures
            humidity@ == h,
    {
        Humidity { h }
    }
}

/// Temperature reading in the sensor's own twenty-bit scale.
#[derive(Clone, Copy, Debug, PartialEq, Eq)]
pub struct Temperature {
    t: u32,
}

impl View for Temperature {
    type V = u32;

    closed spec fn view(&self) -> u32 {
        self.t
    }
}

impl Temperature {
    /// Raw temperature reading.
    pub fn raw(&self) -> (t: u32)
        ensures
            t == self@,
    {
        self.t
    }

    /// Wraps a raw value. Any value is accepted, so that a running maximum can
    /// start from zero and a running minimum from [`RAW_SENTINEL`].
    pub fn from_raw(t: u32) -> (temperature: Temperature)
        ensures
            temperature@ == t,
    {
        Temperature { t }
    }
}

/// The two fields in terms of shifts and masks: the humidity field is bytes
/// 1 and 2 and the high nibble of byte 3, the temperature field the low
/// nibble of byte 3 and bytes 4 and 5.
pub proof fn lemma_fields_by_shifts(frame: Seq<u8>)
    requires
        frame.len() == FRAME_LEN,
    ensures
        humidity_field(frame) == ((frame[1] as u32) << 12) | ((frame[2] as u32) << 4) | ((
        frame[3] as u32) >> 4),
        temperature_field(frame) == (((frame[3] as u32) & 0x0F) << 16) | ((frame[4] as u32) << 8)
            | (frame[5] as u32),
{
    let b1 = frame[1];
    let b2 = frame[2];
    let b3 = frame[3];
    let b4 = frame[4];
    let b5 = frame[5];
    assert(((b1 as u32) << 12) | ((b2 as u32) << 4) | ((b3 as u32) >> 4) == (b1 as u32) * 0x1000
        + (b2 as u32) * 0x10 + (b3 as u32) / 0x10) by (bit_vector);
    assert((((b3 as u32) & 0x0F) << 16) | ((b4 as u32) << 8) | (b5 as u32) == ((b3 as u32) % 0x10)
        * 0x1_0000 + (b4 as u32) * 0x100 + (b5 as u32)) by (bit_vector);
}

/// Splits a response frame into its humidity and temperature fields. Byte 0,
/// which repeats the status, is not looked at.
pub fn decode(frame: &[u8; 6]) -> (reading: (Humidity, Temperature))
    ensures
        reading.0@ == humidity_field(frame@),
        reading.1@ == temperature_field(frame@),
        reading.0@ < RAW_LIMIT,
        reading.1@ < RAW_LIMIT,
{
    let b1: u32 = frame[1] as u32;
    let b2: u32 = frame[2] as u32;
    let b3: u32 = frame[3] as u32;
    let b4: u32 = frame[4] as u32;
    let b5: u32 = frame[5] as u32;
    proof {
        lemma_fields_by_shifts(frame@);
    }
    let h: u32 = (b1 << 12) | (b2 << 4) | (b3 >> 4);
    let t: u32 = ((b3 & 0x0F) << 16) | (b4 << 8) | b5;
    (Humidity { h }, Temperature { t })
}

/// Both fields of any frame fit in twenty bits.
pub proof fn lemma_fields_in_range(frame: Seq<u8>)
    requires
        frame.len() == FRAME_LEN,
    ensures
        0 <= humidity_field(frame) < RAW_LIMIT,
        0 <= temperature_field(frame) < RAW_LIMIT,
{
}

/// Decoding the frame that encodes two twenty-bit values gives those values
/// back, whatever the status byte: neither field bleeds into the other.
pub proof fn lemma_decode_encoded(status: u8, humidity: int, temperature: int)
    requires
        0 <= humidity < RAW_LIMIT,
        0 <= temperature < RAW_LIMIT,
    ensures
        frame_of(status, humidity, temperature).len() == FRAME_LEN,
        humidity_field(frame_of(status, humidity, temperature)) == humidity,
        temperature_field(frame_of(status, humidity, temperature)) == temperature,
{
}

/// Encoding the fields of a frame gives the frame back: the five data bytes
/// hold the two fields and nothing else.
pub proof fn lemma_encode_decoded(frame: Seq<u8>)
    requires
        frame.len() == FRAME_LEN,
    ensures
        frame_of(frame[0], humidity_field(frame), temperature_field(frame)) == frame,
{
    let h = humidity_field(frame);
    let t = temperature_field(frame);
    let encoded = frame_of(frame[0], h, t);
    let low = frame[2] as int * 0x10 + frame[3] as int / 0x10;
    assert(h == frame[1] as int * 0x1000 + low && 0 <= low < 0x1000);
    assert(h / 0x1000 == frame[1]);
    assert(h / 0x10 == frame[1] as int * 0x100 + frame[2] as int);
    assert(h / 0x10 % 0x100 == frame[2]);
    assert(h % 0x10 == frame[3] as int / 0x10);
    assert(t / 0x1_0000 == frame[3] as int % 0x10);
    assert(t / 0x100 == (frame[3] as int % 0x10) * 0x100 + frame[4] as int);
    assert(t / 0x100 % 0x100 == frame[4]);
    assert(t % 0x100 == frame[5]);
    assert(encoded =~= frame);
}

} // verus!
