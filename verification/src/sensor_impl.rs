use crate::bus::{BusOp, Delay, I2cBus};
use crate::chip;
use crate::error::Error;
use crate::types::{Enable, Gain, IntegrationTime, Mode, Status};
use core::marker::PhantomData;
use vstd::prelude::*;

verus! {

/// Big-endian byte pair of a 16-bit value: high byte first.
pub open spec fn be_bytes(v: u16) -> Seq<u8> {
    seq![(v >> 8) as u8, v as u8]
}

/// Settling delay before reading the channel registers: one full
/// integration cycle plus a margin, in milliseconds.
pub open spec fn spec_settle_millis(t: IntegrationTime) -> u32 {
    (t.spec_millis() + 20) as u32
}

/// The overriding value if one is given, else the currently stored one.
pub open spec fn spec_or_current<T>(option: Option<T>, current: T) -> T {
    match option {
        Some(v) => v,
        None => current,
    }
}

/// Settling delay for `t`, in milliseconds: one full integration
/// duration plus a 20 ms conversion margin.
pub fn settle_millis(t: &IntegrationTime) -> (r: u32)
    ensures
        r == spec_settle_millis(*t),
{
    t.get_integration_time_millis() + 20
}

/// The big-endian view inverts assembly: the byte pair of the value
/// assembled from a high and a low byte is that pair again.
proof fn lemma_be_bytes_roundtrip(high: u8, low: u8)
    ensures
        be_bytes(((high as u16) << 8u16) | (low as u16)) == seq![high, low],
{
    assert(((((high as u16) << 8u16) | (low as u16)) >> 8u16) as u8 == high && ((((high
        as u16) << 8u16) | (low as u16)) as u8) == low) by (bit_vector);
    assert(be_bytes(((high as u16) << 8u16) | (low as u16)) =~= seq![high, low]);
}

/// Assemble a big-endian byte pair into its 16-bit value; the inverse
/// of the byte view the acquisition contracts use.
pub fn be16(high: u8, low: u8) -> (r: u16)
    ensures
        be_bytes(r) == seq![high, low],
{
    proof {
        lemma_be_bytes_roundtrip(high, low);
    }
    ((high as u16) << 8u16) | (low as u16)
}

/// Decide the identity check: accept exactly the expected identity
/// byte, and report any other observed byte inside the error.
pub fn check_id<E>(observed: u8) -> (r: Result<(), Error<E>>)
    ensures
        r is Ok <==> observed == chip::ID,
        r matches Err(e) ==> e == Error::<E>::IdMismatch(observed),
{
    if observed == chip::ID {
        Ok(())
    } else {
        Err(Error::IdMismatch(observed))
    }
}

/// Projection of an acquired channel pair into one luminosity mode:
/// channel 0 for the full spectrum, channel 1 for infrared, and their
/// difference for visible light — which is refused as physically
/// implausible when the infrared channel exceeds the full-spectrum one.
pub open spec fn spec_luminosity<E>(mode: Mode, ch_0: u16, ch_1: u16) -> Result<u16, Error<E>> {
    match mode {
        Mode::FullSpectrum => Ok(ch_0),
        Mode::Infrared => Ok(ch_1),
        Mode::Visible => if ch_1 > ch_0 {
            Err(Error::InfraredOverflow)
        } else {
            Ok((ch_0 - ch_1) as u16)
        },
    }
}

/// Compute the luminosity projection of a raw channel pair.
///
/// Never wraps: in visible mode a pair with more infrared than
/// full-spectrum signal yields `InfraredOverflow` instead of a large
/// unsigned difference.
pub fn luminosity_from_channels<E>(mode: Mode, channel_0: u16, channel_1: u16) -> (r: Result<
    u16,
    Error<E>,
>)
    ensures
        r == spec_luminosity::<E>(mode, channel_0, channel_1),
{
    let full_luminosity: u32 = ((channel_1 as u32) << 16u32) | (channel_0 as u32);
    proof {
        assert((((channel_1 as u32) << 16u32) | (channel_0 as u32)) & 0xFFFF == channel_0
            && (((channel_1 as u32) << 16u32) | (channel_0 as u32)) >> 16u32 == channel_1)
            by (bit_vector);
    }
    match mode {
        Mode::FullSpectrum => Ok((full_luminosity & 0xFFFF) as u16),
        Mode::Infrared => Ok((full_luminosity >> 16u32) as u16),
        Mode::Visible => {
            let infrared_and_visible: u32 = full_luminosity & 0xFFFF;
            let infrared: u32 = full_luminosity >> 16u32;
            if infrared > infrared_and_visible {
                Err(Error::InfraredOverflow)
            } else {
                Ok((infrared_and_visible - infrared) as u16)
            }
        },
    }
}

/// In visible mode a pair with more infrared than full-spectrum signal
/// is rejected with `InfraredOverflow` rather than wrapping around,
/// and any other pair yields exactly the unsigned difference.
pub proof fn lemma_visible_luminosity<E>(ch_0: u16, ch_1: u16)
    ensures
        ch_1 > ch_0 ==> spec_luminosity::<E>(Mode::Visible, ch_0, ch_1) == Err::<u16, Error<E>>(
            Error::InfraredOverflow,
        ),
        ch_1 <= ch_0 ==> spec_luminosity::<E>(Mode::Visible, ch_0, ch_1) == Ok::<u16, Error<E>>(
            (ch_0 - ch_1) as u16,
        ),
{
}

/// Driver for the sensor: owns the bus handle and the currently
/// configured integration time and gain. The configuration is mutated
/// only by the explicit configuration calls and read by the converters
/// as context, never inferred from hardware.
#[derive(Debug)]
pub struct Tsl2591<I, D> {
    /// The exclusively owned bus transport.
    pub i2c: I,
    /// Currently configured integration time.
    pub integration_time: IntegrationTime,
    /// Currently configured gain.
    pub gain: Gain,
    /// Ties the driver to its delay capability type.
    pub delay: PhantomData<D>,
}

impl<I: I2cBus, D: Delay> Tsl2591<I, D> {
    /// Read the identity register.
    fn get_id(&mut self) -> (r: Result<u8, Error<I::BusError>>)
        ensures
            final(self).integration_time == old(self).integration_time,
            final(self).gain == old(self).gain,
            r matches Ok(b) ==> final(self).i2c.history() == old(self).i2c.history().push(
                BusOp::WriteRead {
                    addr: chip::I2C,
                    data: seq![chip::command_byte(chip::ID_ADDR)],
                    response: seq![b],
                },
            ),
            r matches Err(e) ==> e matches Error::I2c(_),
            r is Err ==> final(self).i2c.history() == old(self).i2c.history(),
    {
        let cmd: Vec<u8> = chip::command_frame_bytes(chip::ID_ADDR);
        match self.i2c.bus_write_read(chip::I2C, cmd.as_slice(), 1) {
            Ok(buffer) => {
                let b: u8 = buffer[0];
                proof {
                    assert(buffer@ =~= seq![b]);
                }
                Ok(b)
            },
            Err(e) => Err(Error::I2c(e)),
        }
    }

    /// Construct a driver over `i2c` with the default configuration of
    /// 200 ms integration and low gain, after one identity read. Fails
    /// with `IdMismatch` carrying the observed byte when the device is
    /// not the expected peripheral; the decision on the observed byte
    /// is `check_id`.
    pub fn new(i2c: I) -> (r: Result<Tsl2591<I, D>, Error<I::BusError>>)
        ensures
            r matches Ok(d) ==> d.integration_time == IntegrationTime::_200MS && d.gain
                == Gain::Low && d.i2c.history() == i2c.history().push(
                BusOp::WriteRead {
                    addr: chip::I2C,
                    data: seq![chip::command_byte(chip::ID_ADDR)],
                    response: seq![chip::ID],
                },
            ),
            r matches Err(e) ==> (e matches Error::I2c(_) || (e matches Error::IdMismatch(b) && b
                != chip::ID)),
    {
        Self::new_define_integration(i2c, IntegrationTime::_200MS, Gain::Low)
    }

    /// Construct a driver with an explicit initial configuration,
    /// after the same identity check as `new`.
    ///
    /// The bus handle is consumed, and dropped on failure, so this
    /// contract cannot tie the failure to the dropped bus's history;
    /// the accept/reject decision on the observed identity byte is
    /// `check_id`, whose contract is exact in both directions.
    pub fn new_define_integration(
        i2c: I,
        integration_time: IntegrationTime,
        gain: Gain,
    ) -> (r: Result<Tsl2591<I, D>, Error<I::BusError>>)
        ensures
            r matches Ok(d) ==> d.integration_time == integration_time && d.gain == gain
                && d.i2c.history() == i2c.history().push(
                BusOp::WriteRead {
                    addr: chip::I2C,
                    data: seq![chip::command_byte(chip::ID_ADDR)],
                    response: seq![chip::ID],
                },
            ),
            r matches Err(e) ==> (e matches Error::I2c(_) || (e matches Error::IdMismatch(b) && b
                != chip::ID)),
    {
        let mut driver = Tsl2591 { i2c, integration_time, gain, delay: PhantomData };
        match driver.get_id() {
            Ok(id) => match check_id::<I::BusError>(id) {
                Ok(()) => Ok(driver),
                Err(e) => Err(e),
            },
            Err(e) => Err(e),
        }
    }

    /// Write the control register, overriding the stored gain when one
    /// is given and re-asserting the stored configuration otherwise.
    /// On success the stored gain is updated to the value written, so
    /// later acquisitions and conversions observe it; the stored
    /// integration time never changes.
    pub fn set_gain(&mut self, gain: Option<Gain>) -> (r: Result<(), Error<I::BusError>>)
        ensures
            final(self).integration_time == old(self).integration_time,
            r is Ok ==> final(self).gain == spec_or_current(gain, old(self).gain)
                && final(self).i2c.history() == old(self).i2c.history().push(
                BusOp::Write {
                    addr: chip::I2C,
                    data: chip::control_frame(
                        old(self).integration_time,
                        spec_or_current(gain, old(self).gain),
                    ),
                },
            ),
            r is Err ==> final(self).gain == old(self).gain,
            r matches Err(e) ==> e matches Error::I2c(_),
            r is Err ==> final(self).i2c.history() == old(self).i2c.history(),
    {
        let new_gain: Gain = match gain {
            Some(g) => g,
            None => self.gain,
        };
        let cmd: Vec<u8> = chip::control_frame_bytes(&self.integration_time, &new_gain);
        match self.i2c.bus_write(chip::I2C, cmd.as_slice()) {
            Ok(()) => {
                self.gain = new_gain;
                Ok(())
            },
            Err(e) => Err(Error::I2c(e)),
        }
    }

    /// Write the control register, overriding the stored integration
    /// time when one is given and re-asserting the stored configuration
    /// otherwise. On success the stored integration time is updated to
    /// the value written; the stored gain never changes.
    pub fn set_timing(&mut self, integration_time: Option<IntegrationTime>) -> (r: Result<
        (),
        Error<I::BusError>,
    >)
        ensures
            final(self).gain == old(self).gain,
            r is Ok ==> final(self).integration_time == spec_or_current(
                integration_time,
                old(self).integration_time,
            ) && final(self).i2c.history() == old(self).i2c.history().push(
                BusOp::Write {
                    addr: chip::I2C,
                    data: chip::control_frame(
                        spec_or_current(integration_time, old(self).integration_time),
                        old(self).gain,
                    ),
                },
            ),
            r is Err ==> final(self).integration_time == old(self).integration_time,
            r matches Err(e) ==> e matches Error::I2c(_),
            r is Err ==> final(self).i2c.history() == old(self).i2c.history(),
    {
        let new_timing: IntegrationTime = match integration_time {
            Some(t) => t,
            None => self.integration_time,
        };
        let cmd: Vec<u8> = chip::control_frame_bytes(&new_timing, &self.gain);
        match self.i2c.bus_write(chip::I2C, cmd.as_slice()) {
            Ok(()) => {
                self.integration_time = new_timing;
                Ok(())
            },
            Err(e) => Err(Error::I2c(e)),
        }
    }

    /// Power the sensor off with a single ENABLE-register write. The
    /// stored configuration is untouched.
    pub fn disable(&mut self) -> (r: Result<(), Error<I::BusError>>)
        ensures
            final(self).integration_time == old(self).integration_time,
            final(self).gain == old(self).gain,
            r is Ok ==> final(self).i2c.history() == old(self).i2c.history().push(
                BusOp::Write { addr: chip::I2C, data: chip::disable_frame() },
            ),
            r matches Err(e) ==> e matches Error::I2c(_),
            r is Err ==> final(self).i2c.history() == old(self).i2c.history(),
    {
        let cmd: Vec<u8> = chip::disable_frame_bytes();
        match self.i2c.bus_write(chip::I2C, cmd.as_slice()) {
            Ok(()) => Ok(()),
            Err(e) => Err(Error::I2c(e)),
        }
    }

    /// Power the sensor on, with ALS acquisition and both interrupt
    /// paths enabled, in a single ENABLE-register write. The stored
    /// configuration is untouched.
    pub fn enable(&mut self) -> (r: Result<(), Error<I::BusError>>)
        ensures
            final(self).integration_time == old(self).integration_time,
            final(self).gain == old(self).gain,
            r is Ok ==> final(self).i2c.history() == old(self).i2c.history().push(
                BusOp::Write { addr: chip::I2C, data: chip::enable_frame() },
            ),
            r matches Err(e) ==> e matches Error::I2c(_),
            r is Err ==> final(self).i2c.history() == old(self).i2c.history(),
    {
        let cmd: Vec<u8> = chip::enable_frame_bytes();
        match self.i2c.bus_write(chip::I2C, cmd.as_slice()) {
            Ok(()) => Ok(()),
            Err(e) => Err(Error::I2c(e)),
        }
    }

    /// Fetch a fresh ENABLE-register snapshot wrapped in its bitfield
    /// view; nothing is cached.
    pub fn get_enable(&mut self) -> (r: Result<Enable, Error<I::BusError>>)
        ensures
            final(self).integration_time == old(self).integration_time,
            final(self).gain == old(self).gain,
            r matches Ok(en) ==> final(self).i2c.history() == old(self).i2c.history().push(
                BusOp::WriteRead {
                    addr: chip::I2C,
                    data: seq![chip::command_byte(chip::ENABLE)],
                    response: seq![en.0],
                },
            ),
            r matches Err(e) ==> e matches Error::I2c(_),
            r is Err ==> final(self).i2c.history() == old(self).i2c.history(),
    {
        let cmd: Vec<u8> = chip::command_frame_bytes(chip::ENABLE);
        match self.i2c.bus_write_read(chip::I2C, cmd.as_slice(), 1) {
            Ok(buffer) => {
                let b: u8 = buffer[0];
                proof {
                    assert(buffer@ =~= seq![b]);
                }
                Ok(Enable(b))
            },
            Err(e) => Err(Error::I2c(e)),
        }
    }

    /// Fetch a fresh STATUS-register snapshot wrapped in its bitfield
    /// view; nothing is cached.
    pub fn get_status(&mut self) -> (r: Result<Status, Error<I::BusError>>)
        ensures
            final(self).integration_time == old(self).integration_time,
            final(self).gain == old(self).gain,
            r matches Ok(st) ==> final(self).i2c.history() == old(self).i2c.history().push(
                BusOp::WriteRead {
                    addr: chip::I2C,
                    data: seq![chip::command_byte(chip::STATUS)],
                    response: seq![st.0],
                },
            ),
            r matches Err(e) ==> e matches Error::I2c(_),
            r is Err ==> final(self).i2c.history() == old(self).i2c.history(),
    {
        let cmd: Vec<u8> = chip::command_frame_bytes(chip::STATUS);
        match self.i2c.bus_write_read(chip::I2C, cmd.as_slice(), 1) {
            Ok(buffer) => {
                let b: u8 = buffer[0];
                proof {
                    assert(buffer@ =~= seq![b]);
                }
                Ok(Status(b))
            },
            Err(e) => Err(Error::I2c(e)),
        }
    }

    /// Acquire one raw channel pair: wait one full integration cycle
    /// plus margin, then read channel 0 and channel 1 in that order,
    /// each assembled big-endian from its two register bytes.
    pub fn get_channel_data(&mut self, delay: &mut D) -> (r: Result<(u16, u16), Error<
        I::BusError,
    >>)
        ensures
            final(self).integration_time == old(self).integration_time,
            final(self).gain == old(self).gain,
            final(delay).waited() == old(delay).waited().push(
                spec_settle_millis(old(self).integration_time),
            ),
            r matches Ok(channels) ==> final(self).i2c.history() == old(self).i2c.history().push(
                BusOp::WriteRead {
                    addr: chip::I2C,
                    data: seq![chip::command_byte(chip::CHAN0_LOW)],
                    response: be_bytes(channels.0),
                },
            ).push(
                BusOp::WriteRead {
                    addr: chip::I2C,
                    data: seq![chip::command_byte(chip::CHAN1_LOW)],
                    response: be_bytes(channels.1),
                },
            ),
            r matches Err(e) ==> e matches Error::I2c(_),
            r is Err ==> final(self).i2c.history() == old(self).i2c.history() || (exists|c0: u16|
                final(self).i2c.history() == old(self).i2c.history().push(
                    BusOp::WriteRead {
                        addr: chip::I2C,
                        data: seq![chip::command_byte(chip::CHAN0_LOW)],
                        response: #[trigger] be_bytes(c0),
                    },
                )),
    {
        let settle: u32 = settle_millis(&self.integration_time);
        delay.delay_ms(settle);

        let cmd0: Vec<u8> = chip::command_frame_bytes(chip::CHAN0_LOW);
        let buffer_1: Vec<u8> = match self.i2c.bus_write_read(chip::I2C, cmd0.as_slice(), 2) {
            Ok(v) => v,
            Err(e) => {
                return Err(Error::I2c(e));
            },
        };

        let cmd1: Vec<u8> = chip::command_frame_bytes(chip::CHAN1_LOW);
        let buffer_2: Vec<u8> = match self.i2c.bus_write_read(chip::I2C, cmd1.as_slice(), 2) {
            Ok(v) => v,
            Err(e) => {
                proof {
                    lemma_be_bytes_roundtrip(buffer_1@[0], buffer_1@[1]);
                    assert(buffer_1@ =~= seq![buffer_1@[0], buffer_1@[1]]);
                }
                return Err(Error::I2c(e));
            },
        };

        let channel_0: u16 = be16(buffer_1[0], buffer_1[1]);
        let channel_1: u16 = be16(buffer_2[0], buffer_2[1]);
        proof {
            assert(buffer_1@ =~= be_bytes(channel_0));
            assert(buffer_2@ =~= be_bytes(channel_1));
        }
        Ok((channel_0, channel_1))
    }

    /// Acquire a raw channel pair and project it into the requested
    /// luminosity mode. Whenever the bus cooperates, the result is
    /// exactly the projection of the pair that was read: in particular
    /// visible mode fails with `InfraredOverflow` instead of wrapping
    /// when the infrared channel exceeds the full-spectrum one.
    pub fn get_luminosity(&mut self, mode: Mode, delay: &mut D) -> (r: Result<u16, Error<
        I::BusError,
    >>)
        ensures
            final(self).integration_time == old(self).integration_time,
            final(self).gain == old(self).gain,
            final(delay).waited() == old(delay).waited().push(
                spec_settle_millis(old(self).integration_time),
            ),
            !(r matches Err(Error::I2c(_))) ==> exists|channel_0: u16, channel_1: u16|
                final(self).i2c.history() == old(self).i2c.history().push(
                    BusOp::WriteRead {
                        addr: chip::I2C,
                        data: seq![chip::command_byte(chip::CHAN0_LOW)],
                        response: be_bytes(channel_0),
                    },
                ).push(
                    BusOp::WriteRead {
                        addr: chip::I2C,
                        data: seq![chip::command_byte(chip::CHAN1_LOW)],
                        response: be_bytes(channel_1),
                    },
                ) && r == #[trigger] spec_luminosity::<I::BusError>(mode, channel_0, channel_1),
            r matches Err(e) ==> (e matches Error::I2c(_) || (e matches Error::InfraredOverflow
                && mode == Mode::Visible)),
            r matches Err(Error::I2c(_)) ==> final(self).i2c.history() == old(self).i2c.history()
                || (exists|c0: u16|
                final(self).i2c.history() == old(self).i2c.history().push(
                    BusOp::WriteRead {
                        addr: chip::I2C,
                        data: seq![chip::command_byte(chip::CHAN0_LOW)],
                        response: #[trigger] be_bytes(c0),
                    },
                )),
    {
        let channels: (u16, u16) = match self.get_channel_data(delay) {
            Ok(c) => c,
            Err(e) => {
                return Err(e);
            },
        };
        luminosity_from_channels::<I::BusError>(mode, channels.0, channels.1)
    }
}

/// Re-asserting the current configuration is idempotent: a reuse write
/// from a state, and a second reuse write from the state it leaves
/// behind, put the very same control frame on the bus both times, and
/// neither moves the stored integration time or gain.
pub proof fn lemma_set_gain_none_idempotent<I: I2cBus, D: Delay>(
    s0: Tsl2591<I, D>,
    s1: Tsl2591<I, D>,
    s2: Tsl2591<I, D>,
)
    requires
        s1.integration_time == s0.integration_time,
        s1.gain == s0.gain,
        s1.i2c.history() == s0.i2c.history().push(
            BusOp::Write {
                addr: chip::I2C,
                data: chip::control_frame(
                    s0.integration_time,
                    spec_or_current(None::<Gain>, s0.gain),
                ),
            },
        ),
        s2.integration_time == s1.integration_time,
        s2.gain == s1.gain,
        s2.i2c.history() == s1.i2c.history().push(
            BusOp::Write {
                addr: chip::I2C,
                data: chip::control_frame(
                    s1.integration_time,
                    spec_or_current(None::<Gain>, s1.gain),
                ),
            },
        ),
    ensures
        ({
            let frame = BusOp::Write {
                addr: chip::I2C,
                data: chip::control_frame(s0.integration_time, s0.gain),
            };
            s2.i2c.history() == s0.i2c.history().push(frame).push(frame)
        }),
        s2.integration_time == s0.integration_time,
        s2.gain == s0.gain,
{
}

/// A gain override persists: a configuration state reached by
/// overriding the gain with `x` converts a raw pair exactly as the
/// overridden gain dictates, independent of the gain stored before.
pub proof fn lemma_gain_override_persists<I: I2cBus, D: Delay>(
    s0: Tsl2591<I, D>,
    s1: Tsl2591<I, D>,
    x: Gain,
    ch_0: u16,
    ch_1: u16,
)
    requires
        s1.integration_time == s0.integration_time,
        s1.gain == spec_or_current(Some(x), s0.gain),
    ensures
        s1.gain == x,
        crate::lux_conversion::spec_adafruit_nano_lux(s1.integration_time, s1.gain, ch_0, ch_1)
            == crate::lux_conversion::spec_adafruit_nano_lux(s0.integration_time, x, ch_0, ch_1),
{
}

} // verus!
