//! The amplifier driver: one operation per setting, each one or two register
//! accesses.

use vstd::prelude::*;
use crate::bus::blind_write;
use crate::bus::read_decoded;
use crate::bus::read_modify_write;
use crate::bus::Recorded;
use crate::bus::Transfer;
use crate::bus::Transport;
use crate::registers::decode_gain;
use crate::registers::disable_limiter;
use crate::registers::enable_limiter;
use crate::registers::encode_gain;
use crate::registers::gain_round_trip;
use crate::registers::set_channels;
use crate::registers::set_compression;
use crate::registers::set_limit;
use crate::registers::set_max_gain;
use crate::registers::spec_decode_gain;
use crate::registers::spec_disable_limiter;
use crate::registers::spec_enable_limiter;
use crate::registers::spec_encode_gain;
use crate::registers::spec_set_channels;
use crate::registers::spec_set_compression;
use crate::registers::spec_set_limit;
use crate::registers::spec_set_max_gain;
use crate::registers::GAIN_MAX;
use crate::registers::GAIN_MIN;
use crate::registers::TPA2016_AGC;
use crate::registers::TPA2016_AGCLIMIT;
use crate::registers::TPA2016_ATK;
use crate::registers::TPA2016_GAIN;
use crate::registers::TPA2016_HOLD;
use crate::registers::TPA2016_REL;
use crate::registers::TPA2016_SETUP;

verus! {

/// This object communicates with a TPA2016 audio amplifier.
///
/// It owns the bus connection and keeps no copy of any register: every operation
/// goes to the bus.
pub struct I2CTPA2016<T: Transport> {
    i2cdev: Recorded<T>,
}

impl<T: Transport> View for I2CTPA2016<T> {
    type V = Seq<Transfer<T::Error>>;

    /// The register accesses that this driver has made, oldest first, each with
    /// the bus's answer.
    closed spec fn view(&self) -> Seq<Transfer<T::Error>> {
        self.i2cdev@
    }
}

impl<T: Transport> I2CTPA2016<T> {
    /// The bus connection that the driver owns.
    pub closed spec fn transport(&self) -> T {
        self.i2cdev.transport()
    }

    /// Constructs a new `I2CTPA2016<T>`. This never fails and touches no register.
    pub fn new(i2cdev: T) -> (result: Result<I2CTPA2016<T>, T::Error>)
        ensures
            result matches Ok(driver) && driver.transport() == i2cdev && driver@.len() == 0,
    {
        Ok(I2CTPA2016 { i2cdev: Recorded::new(i2cdev) })
    }

    /// Set the gain from -28 and 30. A gain outside that range is set to the
    /// nearer end of it.
    pub fn set_gain(&mut self, gain: i8) -> (result: Result<(), T::Error>)
        ensures
            blind_write(old(self)@, final(self)@, TPA2016_GAIN, spec_encode_gain(gain), result),
    {
        self.i2cdev.write(TPA2016_GAIN, encode_gain(gain))
    }

    /// Returns the gain value.
    pub fn get_gain(&mut self) -> (result: Result<i8, T::Error>)
        ensures
            read_decoded(
                old(self)@,
                final(self)@,
                TPA2016_GAIN,
                |raw: u8| spec_decode_gain(raw),
                result,
            ),
    {
        match self.i2cdev.read(TPA2016_GAIN) {
            Ok(gain) => Ok(decode_gain(gain)),
            Err(e) => Err(e),
        }
    }

    /// Enables or disables the right and the left channel.
    pub fn enable_channel(&mut self, right: bool, left: bool) -> (result: Result<(), T::Error>)
        ensures
            read_modify_write(
                old(self)@,
                final(self)@,
                TPA2016_SETUP,
                |setup: u8| spec_set_channels(setup, right, left),
                result,
            ),
    {
        match self.i2cdev.read(TPA2016_SETUP) {
            Ok(setup) => self.i2cdev.write(TPA2016_SETUP, set_channels(setup, right, left)),
            Err(e) => Err(e),
        }
    }

    /// Set the automatic gain control compression.
    ///
    /// Values:
    ///   0 = 1:1
    ///   1 = 1:2
    ///   2 = 1:4
    ///   3 = 1:8
    ///
    /// Only the low two bits of `val` are used.
    pub fn set_agc_compression(&mut self, val: u8) -> (result: Result<(), T::Error>)
        ensures
            read_modify_write(
                old(self)@,
                final(self)@,
                TPA2016_AGC,
                |agc: u8| spec_set_compression(agc, val),
                result,
            ),
    {
        match self.i2cdev.read(TPA2016_AGC) {
            Ok(agc) => self.i2cdev.write(TPA2016_AGC, set_compression(agc, val)),
            Err(e) => Err(e),
        }
    }

    /// Set the release time in steps from 0 to 63 where each step is 0.0137s.
    pub fn set_release_control(&mut self, release: u8) -> (result: Result<(), T::Error>)
        ensures
            blind_write(old(self)@, final(self)@, TPA2016_REL, release, result),
    {
        self.i2cdev.write(TPA2016_REL, release)
    }

    /// Set the attack time in steps from 0 to 63 where each step is 0.1067ms.
    pub fn set_attack_control(&mut self, attack: u8) -> (result: Result<(), T::Error>)
        ensures
            blind_write(old(self)@, final(self)@, TPA2016_ATK, attack, result),
    {
        self.i2cdev.write(TPA2016_ATK, attack)
    }

    /// Set the hold time in steps from 0 to 63 where each step is 0.0137s.
    pub fn set_hold_control(&mut self, hold: u8) -> (result: Result<(), T::Error>)
        ensures
            blind_write(old(self)@, final(self)@, TPA2016_HOLD, hold, result),
    {
        self.i2cdev.write(TPA2016_HOLD, hold)
    }

    /// Enable level limiting.
    pub fn set_limit_level_on(&mut self) -> (result: Result<(), T::Error>)
        ensures
            read_modify_write(
                old(self)@,
                final(self)@,
                TPA2016_AGCLIMIT,
                |agc_limit: u8| spec_enable_limiter(agc_limit),
                result,
            ),
    {
        match self.i2cdev.read(TPA2016_AGCLIMIT) {
            Ok(agc) => self.i2cdev.write(TPA2016_AGCLIMIT, enable_limiter(agc)),
            Err(e) => Err(e),
        }
    }

    /// Disable level limiting.
    pub fn set_limit_level_off(&mut self) -> (result: Result<(), T::Error>)
        ensures
            read_modify_write(
                old(self)@,
                final(self)@,
                TPA2016_AGCLIMIT,
                |agc_limit: u8| spec_disable_limiter(agc_limit),
                result,
            ),
    {
        match self.i2cdev.read(TPA2016_AGCLIMIT) {
            Ok(agc) => self.i2cdev.write(TPA2016_AGCLIMIT, disable_limiter(agc)),
            Err(e) => Err(e),
        }
    }

    /// Set the level limit from 0 and 31. Only the low five bits of `limit` are
    /// used.
    pub fn set_limit_level(&mut self, limit: u8) -> (result: Result<(), T::Error>)
        ensures
            read_modify_write(
                old(self)@,
                final(self)@,
                TPA2016_AGCLIMIT,
                |agc_limit: u8| spec_set_limit(agc_limit, limit),
                result,
            ),
    {
        match self.i2cdev.read(TPA2016_AGCLIMIT) {
            Ok(agc) => self.i2cdev.write(TPA2016_AGCLIMIT, set_limit(agc, limit)),
            Err(e) => Err(e),
        }
    }

    /// Set the max gain from 0 and 12. Only the low four bits of `max` are used.
    pub fn set_agc_max_gain(&mut self, max: u8) -> (result: Result<(), T::Error>)
        ensures
            read_modify_write(
                old(self)@,
                final(self)@,
                TPA2016_AGC,
                |agc: u8| spec_set_max_gain(agc, max),
                result,
            ),
    {
        match self.i2cdev.read(TPA2016_AGC) {
            Ok(agc) => self.i2cdev.write(TPA2016_AGC, set_max_gain(agc, max)),
            Err(e) => Err(e),
        }
    }
}

/// Setting a gain from `GAIN_MIN` to `GAIN_MAX` and then reading the gain, over a bus
/// whose read returns the byte that was just written, gives back the gain that
/// was set.
pub proof fn gain_set_then_read_back<E>(
    gain: i8,
    start: Seq<Transfer<E>>,
    after_set: Seq<Transfer<E>>,
    after_get: Seq<Transfer<E>>,
    set: Result<(), E>,
    got: Result<i8, E>,
)
    requires
        GAIN_MIN <= gain <= GAIN_MAX,
        blind_write(start, after_set, TPA2016_GAIN, spec_encode_gain(gain), set),
        read_decoded(after_set, after_get, TPA2016_GAIN, |raw: u8| spec_decode_gain(raw), got),
        after_set.last() matches Transfer::Write { value, .. }
            && after_get.last() matches Transfer::Read { data: Ok(raw), .. } && raw == value,
    ensures
        got == Ok::<i8, E>(gain),
{
    gain_round_trip(gain);
}

} // verus!
