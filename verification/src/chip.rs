use crate::types::{Gain, IntegrationTime};
use vstd::prelude::*;

verus! {

/// Fixed seven-bit device address of the sensor on the bus.
pub const I2C: u8 = 0x29;

/// Value the identity register must return.
pub const ID: u8 = 0x50;

/// Identity register offset.
pub const ID_ADDR: u8 = 0x12;

/// Top-nibble framing asserted on every command byte.
pub const COMMAND_BIT: u8 = 0xA0;

/// ENABLE register offset.
pub const ENABLE: u8 = 0x00;

/// CONTROL register offset (integration time and gain).
pub const CONTROL: u8 = 0x01;

/// STATUS register offset.
pub const STATUS: u8 = 0x13;

/// Offset of the low byte of channel 0 (full spectrum).
pub const CHAN0_LOW: u8 = 0x14;

/// Offset of the low byte of channel 1 (infrared).
pub const CHAN1_LOW: u8 = 0x16;

/// ENABLE register bits.
pub const ENABLE_POWERON: u8 = 0x01;

pub const ENABLE_AEN: u8 = 0x02;

pub const ENABLE_AIEN: u8 = 0x10;

pub const ENABLE_NPIEN: u8 = 0x80;

pub const ENABLE_POWEROFF: u8 = 0x00;

/// Command byte addressing register `reg`: the fixed command framing
/// with the register offset in the low bits.
pub open spec fn command_byte(reg: u8) -> u8 {
    COMMAND_BIT | reg
}

/// The two-byte frame that writes the CONTROL register: command byte,
/// then the integration-time encoding and the gain encoding combined.
pub open spec fn control_frame(t: IntegrationTime, g: Gain) -> Seq<u8> {
    seq![command_byte(CONTROL), t.spec_encoding() | g.spec_encoding()]
}

/// The two-byte frame that powers the sensor on with ALS acquisition
/// and both interrupt paths enabled.
pub open spec fn enable_frame() -> Seq<u8> {
    seq![command_byte(ENABLE), ENABLE_POWERON | ENABLE_AEN | ENABLE_AIEN | ENABLE_NPIEN]
}

/// The two-byte frame that powers the sensor off.
pub open spec fn disable_frame() -> Seq<u8> {
    seq![command_byte(ENABLE), ENABLE_POWEROFF]
}

/// Build the one-byte command frame that selects register `reg`.
pub fn command_frame_bytes(reg: u8) -> (r: Vec<u8>)
    ensures
        r@ == seq![command_byte(reg)],
{
    let mut cmd: Vec<u8> = Vec::new();
    cmd.push(COMMAND_BIT | reg);
    proof {
        assert(cmd@ =~= seq![command_byte(reg)]);
    }
    cmd
}

/// Build the CONTROL-register write frame for a configuration.
pub fn control_frame_bytes(t: &IntegrationTime, g: &Gain) -> (r: Vec<u8>)
    ensures
        r@ == control_frame(*t, *g),
{
    let mut cmd: Vec<u8> = Vec::new();
    cmd.push(COMMAND_BIT | CONTROL);
    cmd.push(t.encoding() | g.encoding());
    proof {
        assert(cmd@ =~= control_frame(*t, *g));
    }
    cmd
}

/// Build the ENABLE-register frame that powers the sensor on.
pub fn enable_frame_bytes() -> (r: Vec<u8>)
    ensures
        r@ == enable_frame(),
{
    let mut cmd: Vec<u8> = Vec::new();
    cmd.push(COMMAND_BIT | ENABLE);
    cmd.push(ENABLE_POWERON | ENABLE_AEN | ENABLE_AIEN | ENABLE_NPIEN);
    proof {
        assert(cmd@ =~= enable_frame());
    }
    cmd
}

/// Build the ENABLE-register frame that powers the sensor off.
pub fn disable_frame_bytes() -> (r: Vec<u8>)
    ensures
        r@ == disable_frame(),
{
    let mut cmd: Vec<u8> = Vec::new();
    cmd.push(COMMAND_BIT | ENABLE);
    cmd.push(ENABLE_POWEROFF);
    proof {
        assert(cmd@ =~= disable_frame());
    }
    cmd
}

} // verus!
