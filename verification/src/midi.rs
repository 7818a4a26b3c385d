//! Stateless MIDI message encoders.
//!
//! Each encoder clamps its numeric inputs silently into the legal wire range
//! (0–127 for 7-bit values, 0–16383 for the 14-bit pitch-bend value), maps
//! the 1–16 channel number to a 0–15 wire nibble, and returns the message as
//! a fixed-length byte array. Writing the bytes to a serial sink, and the
//! flush after each message, are the caller's concern.

use vstd::prelude::*;

verus! {

/// The 0–15 wire nibble for a 1–16 channel number: out-of-range channels are
/// clamped to [1, 16], then one is subtracted.
pub open spec fn spec_channel_nibble(channel: u8) -> u8 {
    if channel < 1 {
        0
    } else if channel > 16 {
        15
    } else {
        (channel - 1) as u8
    }
}

/// A data byte clamped into the 7-bit wire range 0–127.
pub open spec fn spec_clamp7(value: u8) -> u8 {
    if value > 127 {
        127
    } else {
        value
    }
}

/// Maps a 1–16 channel number to its 0–15 wire nibble, clamping silently.
pub fn filter_channel(channel: u8) -> (r: u8)
    ensures
        r == spec_channel_nibble(channel),
        r <= 15,
{
    if channel < 1 {
        0
    } else if channel > 16 {
        15
    } else {
        channel - 1
    }
}

/// Clamps a data byte into the 7-bit wire range.
fn clamp7(value: u8) -> (r: u8)
    ensures
        r == spec_clamp7(value),
{
    if value > 127 {
        127
    } else {
        value
    }
}

/// A pitch-bend value clamped into the 14-bit wire range 0–16383.
pub open spec fn spec_clamp14(value: u16) -> u16 {
    if value > 16383 {
        16383
    } else {
        value
    }
}

/// Encodes a note-on message: status byte `0x90` with the channel nibble,
/// then the clamped note and velocity bytes.
pub fn note_on(channel: u8, note: u8, velocity: u8) -> (r: [u8; 3])
    ensures
        r@[0] == 0x90 + spec_channel_nibble(channel),
        r@[1] == spec_clamp7(note),
        r@[2] == spec_clamp7(velocity),
{
    [0x90 + filter_channel(channel), clamp7(note), clamp7(velocity)]
}

/// Encodes a note-off message: status byte `0x80` with the channel nibble,
/// then the clamped note and velocity bytes.
pub fn note_off(channel: u8, note: u8, velocity: u8) -> (r: [u8; 3])
    ensures
        r@[0] == 0x80 + spec_channel_nibble(channel),
        r@[1] == spec_clamp7(note),
        r@[2] == spec_clamp7(velocity),
{
    [0x80 + filter_channel(channel), clamp7(note), clamp7(velocity)]
}

/// Encodes a control-change message: status byte `0xB0` with the channel
/// nibble, then the clamped controller number and value bytes.
pub fn cc(channel: u8, number: u8, value: u8) -> (r: [u8; 3])
    ensures
        r@[0] == 0xB0 + spec_channel_nibble(channel),
        r@[1] == spec_clamp7(number),
        r@[2] == spec_clamp7(value),
{
    [0xB0 + filter_channel(channel), clamp7(number), clamp7(value)]
}

/// Encodes a channel-pressure (aftertouch) message: status byte `0xD0` with
/// the channel nibble, then the clamped pressure byte.
pub fn aftertouch(channel: u8, value: u8) -> (r: [u8; 2])
    ensures
        r@[0] == 0xD0 + spec_channel_nibble(channel),
        r@[1] == spec_clamp7(value),
{
    [0xD0 + filter_channel(channel), clamp7(value)]
}

/// Encodes a pitch-bend message: status byte `0xE0` with the channel nibble,
/// then the clamped 14-bit value split little-endian into two 7-bit bytes,
/// low 7 bits first.
pub fn pitch_bend(channel: u8, value: u16) -> (r: [u8; 3])
    ensures
        r@[0] == 0xE0 + spec_channel_nibble(channel),
        r@[1] == spec_clamp14(value) as int % 128,
        r@[2] == spec_clamp14(value) as int / 128,
{
    let value_clip: u16 = if value > 16383 {
        16383
    } else {
        value
    };
    let lsb: u8 = (value_clip & 0x7F) as u8;
    let msb: u8 = (value_clip >> 7) as u8;
    proof {
        assert(value_clip & 0x7F == value_clip % 128) by (bit_vector);
        assert(value_clip <= 16383 ==> value_clip >> 7 == value_clip / 128) by (bit_vector);
    }
    [0xE0 + filter_channel(channel), lsb, msb]
}

/// Law: the two pitch-bend payload bytes reassemble, little-endian, into
/// exactly the clamped 14-bit value, so the encoding loses nothing.
pub proof fn lemma_bend_round_trip(value: u16)
    ensures
        (spec_clamp14(value) as int % 128) + 128 * (spec_clamp14(value) as int / 128)
            == spec_clamp14(value),
        spec_clamp14(value) as int % 128 <= 127,
        spec_clamp14(value) as int / 128 <= 127,
{
}

} // verus!
