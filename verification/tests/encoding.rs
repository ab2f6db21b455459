use tpa2016::registers::decode_gain;
use tpa2016::registers::disable_limiter;
use tpa2016::registers::enable_limiter;
use tpa2016::registers::encode_gain;
use tpa2016::registers::set_channels;
use tpa2016::registers::set_compression;
use tpa2016::registers::set_limit;
use tpa2016::registers::set_max_gain;
use tpa2016::registers::GAIN_MAX;
use tpa2016::registers::GAIN_MIN;
use tpa2016::registers::TPA2016_AGC;
use tpa2016::registers::TPA2016_AGCLIMIT;
use tpa2016::registers::TPA2016_ATK;
use tpa2016::registers::TPA2016_GAIN;
use tpa2016::registers::TPA2016_HOLD;
use tpa2016::registers::TPA2016_REL;
use tpa2016::registers::TPA2016_SETUP;
use tpa2016::registers::TPA2016_SETUP_L_EN;
use tpa2016::registers::TPA2016_SETUP_R_EN;

#[test]
fn register_map_is_bit_exact() {
    assert_eq!(TPA2016_SETUP, 0x01);
    assert_eq!(TPA2016_ATK, 0x02);
    assert_eq!(TPA2016_REL, 0x03);
    assert_eq!(TPA2016_HOLD, 0x04);
    assert_eq!(TPA2016_GAIN, 0x05);
    assert_eq!(TPA2016_AGCLIMIT, 0x06);
    assert_eq!(TPA2016_AGC, 0x07);
    assert_eq!(TPA2016_SETUP_R_EN, 0x80);
    assert_eq!(TPA2016_SETUP_L_EN, 0x40);
    assert_eq!(GAIN_MIN, -28);
    assert_eq!(GAIN_MAX, 30);
}

#[test]
fn encode_gain_is_twos_complement_in_range() {
    assert_eq!(encode_gain(0), 0x00);
    assert_eq!(encode_gain(1), 0x01);
    assert_eq!(encode_gain(30), 0x1E);
    assert_eq!(encode_gain(-1), 0xFF);
    assert_eq!(encode_gain(-5), 0xFB);
    assert_eq!(encode_gain(-28), 0xE4);
}

#[test]
fn encode_gain_clamps_below_and_above() {
    assert_eq!(encode_gain(-29), 0xE4);
    assert_eq!(encode_gain(-128), 0xE4);
    assert_eq!(encode_gain(31), 0x1E);
    assert_eq!(encode_gain(127), 0x1E);
    for gain in i8::MIN..=i8::MAX {
        let raw = encode_gain(gain);
        if gain < -28 {
            assert_eq!(raw, 0xE4, "gain {}", gain);
        } else if gain > 30 {
            assert_eq!(raw, 0x1E, "gain {}", gain);
        } else {
            assert_eq!(raw, gain as u8, "gain {}", gain);
        }
    }
}

#[test]
fn decode_gain_sign_extends_from_bit_five() {
    assert_eq!(decode_gain(0x20), -32);
    assert_ne!(decode_gain(0x20), 32);
    assert_eq!(decode_gain(0x3F), -1);
    assert_eq!(decode_gain(0x24), -28);
    assert_eq!(decode_gain(0x00), 0);
    assert_eq!(decode_gain(0x1E), 30);
    assert_eq!(decode_gain(0x1F), 31);
}

#[test]
fn decode_gain_keeps_high_bits_when_bit_five_is_clear() {
    assert_eq!(decode_gain(0x40), 64);
    assert_eq!(decode_gain(0x5F), 95);
    assert_eq!(decode_gain(0x80), -128);
    assert_eq!(decode_gain(0xC1), -63);
    assert_eq!(decode_gain(0xE4), -28);
    assert_eq!(decode_gain(0xFF), -1);
}

#[test]
fn decode_gain_matches_bit_rule_on_every_byte() {
    for raw in 0..=u8::MAX {
        let expected = if raw & 0x20 != 0 { (raw | 0xC0) as i8 } else { raw as i8 };
        assert_eq!(decode_gain(raw), expected, "raw {:#04x}", raw);
    }
}

#[test]
fn gain_round_trips_through_its_byte() {
    for gain in -28i8..=30 {
        assert_eq!(decode_gain(encode_gain(gain)), gain);
    }
}

#[test]
fn set_channels_decides_bits_seven_and_six() {
    assert_eq!(set_channels(0x01, true, false), 0x81);
    assert_eq!(set_channels(0x00, true, true), 0xC0);
    assert_eq!(set_channels(0xFF, false, false), 0x3F);
    assert_eq!(set_channels(0xC3, false, true), 0x43);
    for setup in 0..=u8::MAX {
        for right in [false, true] {
            for left in [false, true] {
                let merged = set_channels(setup, right, left);
                assert_eq!(merged & 0x80 != 0, right);
                assert_eq!(merged & 0x40 != 0, left);
                assert_eq!(merged & 0x3F, setup & 0x3F);
            }
        }
    }
}

#[test]
fn set_compression_decides_bits_one_and_zero() {
    assert_eq!(set_compression(0x00, 3), 0x03);
    assert_eq!(set_compression(0xFF, 0), 0xFC);
    assert_eq!(set_compression(0xC2, 1), 0xC1);
    for agc in 0..=u8::MAX {
        for ratio in 0u8..=3 {
            let merged = set_compression(agc, ratio);
            assert_eq!(merged & 0x03, ratio);
            assert_eq!(merged & 0xFC, agc & 0xFC);
        }
    }
}

#[test]
fn set_compression_ignores_high_bits_of_ratio() {
    assert_eq!(set_compression(0x00, 0xFF), 0x03);
    assert_eq!(set_compression(0xF0, 0x06), 0xF2);
    assert_eq!(set_compression(0xAB, 0x04), 0xA8);
}

#[test]
fn limiter_switch_is_bit_seven_inverted() {
    assert_eq!(enable_limiter(0x80), 0x00);
    assert_eq!(enable_limiter(0x9F), 0x1F);
    assert_eq!(enable_limiter(0x1F), 0x1F);
    assert_eq!(disable_limiter(0x00), 0x80);
    assert_eq!(disable_limiter(0x0F), 0x8F);
    assert_eq!(disable_limiter(0x8F), 0x8F);
    for agc_limit in 0..=u8::MAX {
        assert_eq!(enable_limiter(agc_limit), agc_limit & 0x7F);
        assert_eq!(disable_limiter(agc_limit), agc_limit | 0x80);
    }
}

#[test]
fn set_limit_decides_bits_four_to_zero() {
    assert_eq!(set_limit(0x00, 15), 0x0F);
    assert_eq!(set_limit(0x80, 31), 0x9F);
    assert_eq!(set_limit(0xFF, 0), 0xE0);
    for agc_limit in 0..=u8::MAX {
        let merged = set_limit(agc_limit, 31);
        assert_eq!(merged & 0x1F, 0x1F);
        assert_eq!(merged & 0x80, agc_limit & 0x80);
        assert_eq!(merged & 0x60, agc_limit & 0x60);
    }
}

#[test]
fn set_limit_ignores_high_bits_of_limit() {
    assert_eq!(set_limit(0x00, 0xFF), 0x1F);
    assert_eq!(set_limit(0x80, 0x20), 0x80);
    assert_eq!(set_limit(0x40, 0xE1), 0x41);
}

#[test]
fn set_max_gain_fills_the_high_nibble() {
    assert_eq!(set_max_gain(0x00, 12), 0xC0);
    assert_eq!(set_max_gain(0x03, 12), 0xC3);
    assert_eq!(set_max_gain(0xFF, 0), 0x0F);
    assert_eq!(set_max_gain(0xA5, 15), 0xF5);
    for agc in 0..=u8::MAX {
        for max in 0u8..=15 {
            let merged = set_max_gain(agc, max);
            assert_eq!(merged >> 4, max);
            assert_eq!(merged & 0x0F, agc & 0x0F);
        }
    }
}

#[test]
fn set_max_gain_ignores_high_bits_of_max() {
    assert_eq!(set_max_gain(0x00, 0x10), 0x00);
    assert_eq!(set_max_gain(0x07, 0x1C), 0xC7);
    assert_eq!(set_max_gain(0x00, 0xFF), 0xF0);
}
