use vstd::prelude::*;

verus! {

/// Projection of a raw channel pair requested from `get_luminosity`.
#[derive(Clone, Copy, Debug, PartialEq, Eq, Structural)]
pub enum Mode {
    Infrared,
    Visible,
    FullSpectrum,
}

/// How long the sensor accumulates photon counts before a channel value
/// is valid. The register encoding is the variant's ordinal (0 to 5) and
/// the duration grows with it in lockstep.
#[derive(Clone, Copy, Debug, PartialEq, Eq, Structural)]
pub enum IntegrationTime {
    _100MS,
    _200MS,
    _300MS,
    _400MS,
    _500MS,
    _600MS,
}

impl IntegrationTime {
    /// Integration duration in milliseconds.
    pub open spec fn spec_millis(self) -> u32 {
        match self {
            IntegrationTime::_100MS => 100,
            IntegrationTime::_200MS => 200,
            IntegrationTime::_300MS => 300,
            IntegrationTime::_400MS => 400,
            IntegrationTime::_500MS => 500,
            IntegrationTime::_600MS => 600,
        }
    }

    /// Three-bit encoding written to the low bits of the control register.
    pub open spec fn spec_encoding(self) -> u8 {
        match self {
            IntegrationTime::_100MS => 0x00,
            IntegrationTime::_200MS => 0x01,
            IntegrationTime::_300MS => 0x02,
            IntegrationTime::_400MS => 0x03,
            IntegrationTime::_500MS => 0x04,
            IntegrationTime::_600MS => 0x05,
        }
    }

    pub fn get_integration_time_millis(&self) -> (r: u32)
        ensures
            r == self.spec_millis(),
    {
        match self {
            IntegrationTime::_100MS => 100,
            IntegrationTime::_200MS => 200,
            IntegrationTime::_300MS => 300,
            IntegrationTime::_400MS => 400,
            IntegrationTime::_500MS => 500,
            IntegrationTime::_600MS => 600,
        }
    }

    pub fn encoding(&self) -> (r: u8)
        ensures
            r == self.spec_encoding(),
    {
        match self {
            IntegrationTime::_100MS => 0x00,
            IntegrationTime::_200MS => 0x01,
            IntegrationTime::_300MS => 0x02,
            IntegrationTime::_400MS => 0x03,
            IntegrationTime::_500MS => 0x04,
            IntegrationTime::_600MS => 0x05,
        }
    }
}

/// The duration in milliseconds and the register encoding of every
/// integration time stand in strict monotonic correspondence: the
/// duration is exactly `(encoding + 1) * 100`, so ordering by encoding
/// and ordering by duration agree.
pub proof fn lemma_integration_time_order(a: IntegrationTime, b: IntegrationTime)
    ensures
        a.spec_millis() == (a.spec_encoding() + 1) * 100,
        a.spec_encoding() <= 5,
        a.spec_encoding() < b.spec_encoding() <==> a.spec_millis() < b.spec_millis(),
        a.spec_encoding() == b.spec_encoding() <==> a == b,
{
}

/// Sensor-internal amplification applied before digitization. The
/// multiplier is a calibration constant; the encoding occupies bits
/// 4 and 5 of the control register.
#[derive(Clone, Copy, Debug, PartialEq, Eq, Structural)]
pub enum Gain {
    Low,
    Med,
    High,
    Max,
}

impl Gain {
    /// Dimensionless sensitivity multiplier of this gain setting.
    pub open spec fn spec_multiplier(self) -> u32 {
        match self {
            Gain::Low => 1,
            Gain::Med => 25,
            Gain::High => 428,
            Gain::Max => 9876,
        }
    }

    /// Encoding written to bits 4 and 5 of the control register.
    pub open spec fn spec_encoding(self) -> u8 {
        match self {
            Gain::Low => 0x00,
            Gain::Med => 0x10,
            Gain::High => 0x20,
            Gain::Max => 0x30,
        }
    }

    pub fn get_multiplier(&self) -> (r: u32)
        ensures
            r == self.spec_multiplier(),
    {
        match self {
            Gain::Low => 1,
            Gain::Med => 25,
            Gain::High => 428,
            Gain::Max => 9876,
        }
    }

    pub fn encoding(&self) -> (r: u8)
        ensures
            r == self.spec_encoding(),
    {
        match self {
            Gain::Low => 0x00,
            Gain::Med => 0x10,
            Gain::High => 0x20,
            Gain::Max => 0x30,
        }
    }
}

/// The four gain settings carry exactly the multipliers 1, 25, 428 and
/// 9876, one per variant in order.
pub proof fn lemma_gain_multipliers()
    ensures
        Gain::Low.spec_multiplier() == 1,
        Gain::Med.spec_multiplier() == 25,
        Gain::High.spec_multiplier() == 428,
        Gain::Max.spec_multiplier() == 9876,
        forall|g: Gain|
            #[trigger] g.spec_multiplier() == 1 || g.spec_multiplier() == 25
                || g.spec_multiplier() == 428 || g.spec_multiplier() == 9876,
{
}

/// Read-only view of an ENABLE register snapshot.
#[derive(Clone, Copy, Debug)]
pub struct Enable(pub u8);

/// True when bit `i` of `b` is set.
pub open spec fn bit_set(b: u8, i: u8) -> bool {
    (b >> i) & 1 == 1
}

#[allow(non_snake_case)]
impl Enable {
    /// Power-on bit (bit 0).
    pub fn PON(&self) -> (r: bool)
        ensures
            r == bit_set(self.0, 0),
    {
        (self.0 >> 0u8) & 1 == 1
    }

    /// ALS-enable bit (bit 1).
    pub fn AEN(&self) -> (r: bool)
        ensures
            r == bit_set(self.0, 1),
    {
        (self.0 >> 1u8) & 1 == 1
    }

    /// ALS-interrupt-enable bit (bit 4).
    pub fn AIEN(&self) -> (r: bool)
        ensures
            r == bit_set(self.0, 4),
    {
        (self.0 >> 4u8) & 1 == 1
    }

    /// No-persist-interrupt-enable bit (bit 7).
    pub fn NPIEN(&self) -> (r: bool)
        ensures
            r == bit_set(self.0, 7),
    {
        (self.0 >> 7u8) & 1 == 1
    }
}

/// Read-only view of a STATUS register snapshot.
#[derive(Clone, Copy, Debug)]
pub struct Status(pub u8);

#[allow(non_snake_case)]
impl Status {
    /// ALS-valid bit (bit 0): a complete integration cycle has finished.
    pub fn AVALID(&self) -> (r: bool)
        ensures
            r == bit_set(self.0, 0),
    {
        (self.0 >> 0u8) & 1 == 1
    }

    /// ALS-interrupt flag (bit 4).
    pub fn AINT(&self) -> (r: bool)
        ensures
            r == bit_set(self.0, 4),
    {
        (self.0 >> 4u8) & 1 == 1
    }

    /// Interrupt flag field (bits 4 to 6).
    pub fn NPINTR(&self) -> (r: u8)
        ensures
            r == (self.0 >> 4u8) & 0x07,
    {
        (self.0 >> 4u8) & 0x07
    }
}

} // verus!
