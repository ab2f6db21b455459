//! The register map of the amplifier and the encoding of each field.
//!
//! Every function here is pure: it takes the byte that a register holds (where
//! the field shares its register with others) and the requested setting, and
//! gives the byte that the register must hold afterwards.

use vstd::prelude::*;

verus! {

/// Address of the setup register: channel enables in bits 7 and 6.
pub const TPA2016_SETUP: u8 = 0x1;

/// Setup register, bit 7: right channel enabled.
pub const TPA2016_SETUP_R_EN: u8 = 0x80;

/// Setup register, bit 6: left channel enabled.
pub const TPA2016_SETUP_L_EN: u8 = 0x40;

/// Address of the attack-time register.
pub const TPA2016_ATK: u8 = 0x2;

/// Address of the release-time register.
pub const TPA2016_REL: u8 = 0x3;

/// Address of the hold-time register.
pub const TPA2016_HOLD: u8 = 0x4;

/// Address of the fixed-gain register.
pub const TPA2016_GAIN: u8 = 0x5;

/// Address of the limiter register: limiter disable in bit 7, limit level in bits 4 to 0.
pub const TPA2016_AGCLIMIT: u8 = 0x6;

/// Address of the gain-control register: maximum gain in bits 7 to 4, compression
/// ratio in bits 1 and 0.
pub const TPA2016_AGC: u8 = 0x7;

/// Lowest gain the amplifier can be set to.
pub const GAIN_MIN: i8 = -28;

/// Highest gain the amplifier can be set to.
pub const GAIN_MAX: i8 = 30;

/// The gain that is programmed for a requested gain: the nearest value in
/// `GAIN_MIN ..= GAIN_MAX`.
pub open spec fn clamped_gain(gain: i8) -> int {
    if gain < GAIN_MIN {
        GAIN_MIN as int
    } else if gain > GAIN_MAX {
        GAIN_MAX as int
    } else {
        gain as int
    }
}

/// The byte that the gain register holds for a requested gain: the clamped gain in
/// eight-bit two's complement.
pub open spec fn spec_encode_gain(gain: i8) -> u8 {
    let programmed = clamped_gain(gain);
    if programmed < 0 {
        (programmed + 256) as u8
    } else {
        programmed as u8
    }
}

/// The gain that a byte of the gain register stands for. With bit 5 set the low six
/// bits are a negative six-bit two's complement number; with bit 5 clear the byte
/// is taken as eight-bit two's complement as it is.
pub open spec fn spec_decode_gain(raw: u8) -> i8 {
    if raw & 0x20 != 0 {
        ((raw & 0x3F) - 64) as i8
    } else if raw >= 128 {
        (raw - 256) as i8
    } else {
        raw as i8
    }
}

/// The setup byte after the channel enables are set: bit 7 follows `right`, bit 6
/// follows `left`.
pub open spec fn spec_set_channels(setup: u8, right: bool, left: bool) -> u8 {
    (setup & 0x3F) | (if right { TPA2016_SETUP_R_EN } else { 0 }) | (if left { TPA2016_SETUP_L_EN } else { 0 })
}

/// The gain-control byte after the compression ratio is set: bits 1 and 0 are
/// taken from `ratio`.
pub open spec fn spec_set_compression(agc: u8, ratio: u8) -> u8 {
    (agc & 0xFC) | (ratio & 0x03)
}

/// The limiter byte with the limiter switched on: bit 7 cleared.
pub open spec fn spec_enable_limiter(agc_limit: u8) -> u8 {
    agc_limit & 0x7F
}

/// The limiter byte with the limiter switched off: bit 7 set.
pub open spec fn spec_disable_limiter(agc_limit: u8) -> u8 {
    agc_limit | 0x80
}

/// The limiter byte after the limit level is set: bits 4 to 0 are taken from
/// `limit`.
pub open spec fn spec_set_limit(agc_limit: u8, limit: u8) -> u8 {
    (agc_limit & 0xE0) | (limit & 0x1F)
}

/// The gain-control byte after the maximum gain is set: bits 7 to 4 are the low
/// four bits of `max`.
pub open spec fn spec_set_max_gain(agc: u8, max: u8) -> u8 {
    (agc & 0x0F) | ((max & 0x0F) << 4)
}

/// Computes the byte to write to the gain register for a requested gain.
pub fn encode_gain(gain: i8) -> (raw: u8)
    ensures
        raw == spec_encode_gain(gain),
{
    let programmed: i8 = if gain < GAIN_MIN {
        GAIN_MIN
    } else if gain > GAIN_MAX {
        GAIN_MAX
    } else {
        gain
    };
    assert(programmed as u8 == (if programmed < 0 {
        (programmed + 256) as u8
    } else {
        programmed as u8
    })) by (bit_vector);
    programmed as u8
}

/// Computes the gain that a byte read from the gain register stands for.
pub fn decode_gain(raw: u8) -> (gain: i8)
    ensures
        gain == spec_decode_gain(raw),
{
    assert(raw & 0x20 != 0 ==> (raw | 0xC0) as i8 == (raw & 0x3F) - 64 && 0x20 <= raw & 0x3F <= 0x3F)
        by (bit_vector);
    assert(raw as i8 == (if raw >= 128 {
        raw - 256
    } else {
        raw as int
    })) by (bit_vector);
    if raw & 0x20 != 0 {
        (raw | 0xC0) as i8
    } else {
        raw as i8
    }
}

/// Computes the setup byte that enables or disables each channel.
pub fn set_channels(setup: u8, right: bool, left: bool) -> (merged: u8)
    ensures
        merged == spec_set_channels(setup, right, left),
{
    let with_right: u8 = if right {
        setup | TPA2016_SETUP_R_EN
    } else {
        setup & !TPA2016_SETUP_R_EN
    };
    let merged: u8 = if left {
        with_right | TPA2016_SETUP_L_EN
    } else {
        with_right & !TPA2016_SETUP_L_EN
    };
    assert(merged == spec_set_channels(setup, right, left)) by (bit_vector)
        requires
            with_right == (if right { setup | 0x80 } else { setup & !0x80u8 }),
            merged == (if left { with_right | 0x40 } else { with_right & !0x40u8 }),
    ;
    merged
}

/// Computes the gain-control byte that selects a compression ratio.
pub fn set_compression(agc: u8, ratio: u8) -> (merged: u8)
    ensures
        merged == spec_set_compression(agc, ratio),
{
    (agc & 0xFC) | (ratio & 0x03)
}

/// Computes the limiter byte that switches the limiter on.
pub fn enable_limiter(agc_limit: u8) -> (merged: u8)
    ensures
        merged == spec_enable_limiter(agc_limit),
{
    assert(agc_limit & !0x80u8 == agc_limit & 0x7F) by (bit_vector);
    agc_limit & !0x80
}

/// Computes the limiter byte that switches the limiter off.
pub fn disable_limiter(agc_limit: u8) -> (merged: u8)
    ensures
        merged == spec_disable_limiter(agc_limit),
{
    agc_limit | 0x80
}

/// Computes the limiter byte that selects a limit level.
pub fn set_limit(agc_limit: u8, limit: u8) -> (merged: u8)
    ensures
        merged == spec_set_limit(agc_limit, limit),
{
    (agc_limit & 0xE0) | (limit & 0x1F)
}

/// Computes the gain-control byte that selects a maximum gain.
pub fn set_max_gain(agc: u8, max: u8) -> (merged: u8)
    ensures
        merged == spec_set_max_gain(agc, max),
{
    assert(max << 4 == (max & 0x0F) << 4) by (bit_vector);
    (agc & 0x0F) | (max << 4)
}

/// Every gain from `GAIN_MIN` to `GAIN_MAX` is read back from the byte that it is
/// written as.
pub proof fn gain_round_trip(gain: i8)
    requires
        GAIN_MIN <= gain <= GAIN_MAX,
    ensures
        spec_decode_gain(spec_encode_gain(gain)) == gain,
{
    let raw = spec_encode_gain(gain);
    assert(raw >= 0xE4 ==> raw & 0x20 != 0 && raw & 0x3F == raw - 0xC0) by (bit_vector);
    assert(raw <= 0x1E ==> raw & 0x20 == 0) by (bit_vector);
}

/// A gain below the range is written as `GAIN_MIN`, a gain above it as `GAIN_MAX`.
pub proof fn gain_out_of_range_is_clamped(gain: i8)
    ensures
        gain < GAIN_MIN ==> spec_encode_gain(gain) == 0xE4 == spec_encode_gain(GAIN_MIN),
        gain > GAIN_MAX ==> spec_encode_gain(gain) == 0x1E == spec_encode_gain(GAIN_MAX),
{
}

/// Setting the channel enables decides bits 7 and 6 of the setup byte and leaves
/// bits 5 to 0 as they were.
pub proof fn channels_touch_only_their_bits(setup: u8, right: bool, left: bool)
    by (bit_vector)
    ensures
        spec_set_channels(setup, right, left) & 0x80 == (if right {
            0x80u8
        } else {
            0u8
        }),
        spec_set_channels(setup, right, left) & 0x40 == (if left {
            0x40u8
        } else {
            0u8
        }),
        spec_set_channels(setup, right, left) & 0x3F == setup & 0x3F,
{
}

/// Setting the compression ratio decides bits 1 and 0 of the gain-control byte and
/// leaves bits 7 to 2 as they were.
pub proof fn compression_touches_only_its_bits(agc: u8, ratio: u8)
    by (bit_vector)
    ensures
        spec_set_compression(agc, ratio) & 0xFC == agc & 0xFC,
        spec_set_compression(agc, ratio) & 0x03 == ratio & 0x03,
        ratio <= 3 ==> spec_set_compression(agc, ratio) & 0x03 == ratio,
{
}

/// Switching the limiter on or off decides bit 7 of the limiter byte and leaves
/// bits 6 to 0 as they were.
pub proof fn limiter_switch_touches_only_its_bit(agc_limit: u8)
    by (bit_vector)
    ensures
        spec_enable_limiter(agc_limit) & 0x80 == 0,
        spec_enable_limiter(agc_limit) & 0x7F == agc_limit & 0x7F,
        spec_disable_limiter(agc_limit) & 0x80 == 0x80,
        spec_disable_limiter(agc_limit) & 0x7F == agc_limit & 0x7F,
{
}

/// Setting the limit level decides bits 4 to 0 of the limiter byte and leaves bits
/// 7 to 5, the limiter switch among them, as they were.
pub proof fn limit_touches_only_its_bits(agc_limit: u8, limit: u8)
    by (bit_vector)
    ensures
        spec_set_limit(agc_limit, limit) & 0xE0 == agc_limit & 0xE0,
        spec_set_limit(agc_limit, limit) & 0x1F == limit & 0x1F,
        limit <= 31 ==> spec_set_limit(agc_limit, limit) & 0x1F == limit,
{
}

/// Setting the maximum gain decides bits 7 to 4 of the gain-control byte and
/// leaves bits 3 to 0, the compression ratio among them, as they were.
pub proof fn max_gain_touches_only_its_bits(agc: u8, max: u8)
    by (bit_vector)
    ensures
        spec_set_max_gain(agc, max) & 0x0F == agc & 0x0F,
        spec_set_max_gain(agc, max) >> 4 == max & 0x0F,
        max <= 15 ==> spec_set_max_gain(agc, max) >> 4 == max,
{
}

} // verus!
