//! Values that the ENS160 reports and accepts, and their encoding in its
//! registers.

use vstd::prelude::*;
use vstd::std_specs::convert::FromSpecImpl;

verus! {

/// Air quality index as defined by the German Federal Environmental Agency,
/// from `Excellent` (1) to `Unhealthy` (5).
#[derive(Debug, Clone, Copy, PartialEq, Eq, Structural)]
pub enum AirQualityIndex {
    Unavailable,
    Excellent,
    Good,
    Moderate,
    Poor,
    Unhealthy,
    InvalidRange,
}

impl AirQualityIndex {
    /// The number of a variant: 0 for `Unavailable` up to 5 for `Unhealthy`,
    /// and 6 for `InvalidRange`.
    pub open spec fn spec_value(self) -> u8 {
        match self {
            AirQualityIndex::Unavailable => 0,
            AirQualityIndex::Excellent => 1,
            AirQualityIndex::Good => 2,
            AirQualityIndex::Moderate => 3,
            AirQualityIndex::Poor => 4,
            AirQualityIndex::Unhealthy => 5,
            AirQualityIndex::InvalidRange => 6,
        }
    }

    /// The variant that a register content stands for: the one numbered `i`
    /// for 0 to 5, `InvalidRange` for everything above.
    pub open spec fn decode(i: u8) -> AirQualityIndex {
        if i == 0 {
            AirQualityIndex::Unavailable
        } else if i == 1 {
            AirQualityIndex::Excellent
        } else if i == 2 {
            AirQualityIndex::Good
        } else if i == 3 {
            AirQualityIndex::Moderate
        } else if i == 4 {
            AirQualityIndex::Poor
        } else if i == 5 {
            AirQualityIndex::Unhealthy
        } else {
            AirQualityIndex::InvalidRange
        }
    }

    /// The number of this variant.
    #[verifier::when_used_as_spec(spec_value)]
    pub fn value(self) -> (i: u8)
        ensures
            i == self.spec_value(),
            i <= 6,
    {
        match self {
            AirQualityIndex::Unavailable => 0,
            AirQualityIndex::Excellent => 1,
            AirQualityIndex::Good => 2,
            AirQualityIndex::Moderate => 3,
            AirQualityIndex::Poor => 4,
            AirQualityIndex::Unhealthy => 5,
            AirQualityIndex::InvalidRange => 6,
        }
    }
}

impl From<u8> for AirQualityIndex {
    fn from(i: u8) -> (aqi: AirQualityIndex)
        ensures
            i <= 5 ==> aqi.spec_value() == i,
            i >= 6 ==> aqi == AirQualityIndex::InvalidRange,
    {
        match i {
            0 => AirQualityIndex::Unavailable,
            1 => AirQualityIndex::Excellent,
            2 => AirQualityIndex::Good,
            3 => AirQualityIndex::Moderate,
            4 => AirQualityIndex::Poor,
            5 => AirQualityIndex::Unhealthy,
            _ => AirQualityIndex::InvalidRange,
        }
    }
}

impl FromSpecImpl<u8> for AirQualityIndex {
    open spec fn obeys_from_spec() -> bool {
        true
    }

    open spec fn from_spec(i: u8) -> AirQualityIndex {
        AirQualityIndex::decode(i)
    }
}

/// Decodes the content of the air quality index register.
pub fn decode_air_quality_index(byte: u8) -> (aqi: AirQualityIndex)
    ensures
        aqi == AirQualityIndex::decode(byte),
        byte <= 5 ==> aqi.spec_value() == byte,
        byte >= 6 ==> aqi == AirQualityIndex::InvalidRange,
{
    AirQualityIndex::from(byte)
}

/// Equivalent carbon dioxide concentration in parts per million.
#[derive(Debug, Clone, Copy, PartialEq, Eq, PartialOrd, Ord, Structural)]
pub struct ECO2 {
    pub value: u16,
}

impl ECO2 {
    /// The concentration in ppm.
    pub fn get_value(&self) -> (ppm: u16)
        ensures
            ppm == self.value,
    {
        self.value
    }
}

impl Default for ECO2 {
    fn default() -> (eco2: ECO2)
        ensures
            eco2.value == 0,
    {
        ECO2 { value: 0 }
    }
}

impl From<u16> for ECO2 {
    fn from(v: u16) -> (eco2: ECO2)
    {
        ECO2 { value: v }
    }
}

impl FromSpecImpl<u16> for ECO2 {
    open spec fn obeys_from_spec() -> bool {
        true
    }

    open spec fn from_spec(v: u16) -> ECO2 {
        ECO2 { value: v }
    }
}

/// Operating mode of the sensor.
#[derive(Debug, Clone, Copy, PartialEq, Eq, Structural)]
pub enum OperationMode {
    /// Deep sleep: low-power standby.
    Sleep,
    /// Idle: low power, ready for commands.
    Idle,
    /// Standard gas sensing: the normal run mode.
    Standard,
    /// Soft reset. It returns the device to its factory state, including the
    /// initial start-up phase, and is not needed in normal use.
    Reset,
}

impl OperationMode {
    /// The byte that stands for a mode in the operating mode register.
    pub open spec fn spec_value(self) -> u8 {
        match self {
            OperationMode::Sleep => 0x00,
            OperationMode::Idle => 0x01,
            OperationMode::Standard => 0x02,
            OperationMode::Reset => 0xf0,
        }
    }

    /// Whether a byte stands for a mode.
    pub open spec fn spec_is_mode(value: u8) -> bool {
        value == 0x00 || value == 0x01 || value == 0x02 || value == 0xf0
    }

    /// The byte that stands for this mode in the operating mode register.
    #[verifier::when_used_as_spec(spec_value)]
    pub fn value(self) -> (byte: u8)
        ensures
            byte == self.spec_value(),
            OperationMode::spec_is_mode(byte),
    {
        match self {
            OperationMode::Sleep => 0x00,
            OperationMode::Idle => 0x01,
            OperationMode::Standard => 0x02,
            OperationMode::Reset => 0xf0,
        }
    }

    /// Whether a byte stands for a mode.
    #[verifier::when_used_as_spec(spec_is_mode)]
    pub fn is_mode(value: u8) -> (known: bool)
        ensures
            known == OperationMode::spec_is_mode(value),
            known <==> exists|mode: OperationMode| mode.spec_value() == value,
    {
        let known = value == 0x00 || value == 0x01 || value == 0x02 || value == 0xf0;
        proof {
            if known {
                let mode = if value == 0x00 {
                    OperationMode::Sleep
                } else if value == 0x01 {
                    OperationMode::Idle
                } else if value == 0x02 {
                    OperationMode::Standard
                } else {
                    OperationMode::Reset
                };
                assert(mode.spec_value() == value);
            }
        }
        known
    }

    /// The mode that a byte of the operating mode register stands for.
    pub fn from(value: u8) -> (mode: OperationMode)
        requires
            OperationMode::spec_is_mode(value),
        ensures
            mode.spec_value() == value,
    {
        if value == 0x00 {
            OperationMode::Sleep
        } else if value == 0x01 {
            OperationMode::Idle
        } else if value == 0x02 {
            OperationMode::Standard
        } else {
            OperationMode::Reset
        }
    }

    /// The mode that a byte stands for, if it stands for one.
    pub fn checked_from(value: u8) -> (mode: Option<OperationMode>)
        ensures
            mode is Some <==> OperationMode::spec_is_mode(value),
            mode matches Some(m) ==> m.spec_value() == value,
    {
        if OperationMode::is_mode(value) {
            Some(OperationMode::from(value))
        } else {
            None
        }
    }
}

/// Commands that the command register accepts.
#[derive(Debug, Clone, Copy, PartialEq, Eq, Structural)]
pub enum ENS160Command {
    /// No operation.
    Nop,
    /// Put the firmware version into the general purpose read registers.
    GetAppVersion,
    /// Clear the general purpose read registers.
    ClearGPR,
}

impl ENS160Command {
    /// The code of a command.
    pub open spec fn spec_value(self) -> u8 {
        match self {
            ENS160Command::Nop => 0x00,
            ENS160Command::GetAppVersion => 0x0e,
            ENS160Command::ClearGPR => 0xcc,
        }
    }

    /// The code of this command.
    #[verifier::when_used_as_spec(spec_value)]
    pub fn value(self) -> (code: u8)
        ensures
            code == self.spec_value(),
    {
        match self {
            ENS160Command::Nop => 0x00,
            ENS160Command::GetAppVersion => 0x0e,
            ENS160Command::ClearGPR => 0xcc,
        }
    }
}

/// How far the reported data can be trusted.
#[derive(Debug, Clone, Copy, PartialEq, Eq, Structural)]
pub enum ValidityFlag {
    NormalOperation,
    WarmupPhase,
    InitialStartupPhase,
    InvalidOutput,
}

impl ValidityFlag {
    /// The two-bit number of a flag.
    pub open spec fn spec_value(self) -> u8 {
        match self {
            ValidityFlag::NormalOperation => 0,
            ValidityFlag::WarmupPhase => 1,
            ValidityFlag::InitialStartupPhase => 2,
            ValidityFlag::InvalidOutput => 3,
        }
    }

    /// The two-bit number of this flag.
    #[verifier::when_used_as_spec(spec_value)]
    pub fn value(self) -> (v: u8)
        ensures
            v == self.spec_value(),
            v <= 3,
    {
        match self {
            ValidityFlag::NormalOperation => 0,
            ValidityFlag::WarmupPhase => 1,
            ValidityFlag::InitialStartupPhase => 2,
            ValidityFlag::InvalidOutput => 3,
        }
    }

    /// The flag with the given two-bit number.
    pub fn from(v: u8) -> (flag: ValidityFlag)
        requires
            v <= 3,
        ensures
            flag.spec_value() == v,
    {
        if v == 0 {
            ValidityFlag::NormalOperation
        } else if v == 1 {
            ValidityFlag::WarmupPhase
        } else if v == 2 {
            ValidityFlag::InitialStartupPhase
        } else {
            ValidityFlag::InvalidOutput
        }
    }
}

/// Content of the device status register.
///
/// Bit 0 says that new data is in the general purpose read registers, bit 1
/// that new data is in the data registers, bits 3 and 2 hold the validity
/// flag, bit 6 is set on an error and bit 7 while an operating mode is running.
/// Bits 4 and 5 are not used.
#[derive(Debug, Clone, Copy, PartialEq, Eq, Structural)]
pub struct Status(pub u8);

impl Status {
    /// Bit 0 of the register.
    pub open spec fn spec_new_group_data_ready(&self) -> bool {
        self.0 & 1 == 1
    }

    /// Bit 1 of the register.
    pub open spec fn spec_new_data_ready(&self) -> bool {
        (self.0 >> 1) & 1 == 1
    }

    /// Bits 3 and 2 of the register, as a number from 0 to 3.
    pub open spec fn validity_bits(&self) -> u8 {
        (self.0 >> 2) & 0b11
    }

    /// The validity flag whose number is in bits 3 and 2 of the register.
    pub open spec fn spec_validity_flag(&self) -> ValidityFlag {
        let bits = self.validity_bits();
        if bits == 0 {
            ValidityFlag::NormalOperation
        } else if bits == 1 {
            ValidityFlag::WarmupPhase
        } else if bits == 2 {
            ValidityFlag::InitialStartupPhase
        } else {
            ValidityFlag::InvalidOutput
        }
    }

    /// Bit 6 of the register.
    pub open spec fn spec_error(&self) -> bool {
        (self.0 >> 6) & 1 == 1
    }

    /// Bit 7 of the register.
    pub open spec fn spec_running_mode(&self) -> bool {
        (self.0 >> 7) & 1 == 1
    }

    /// Whether new data is ready in the general purpose read registers.
    #[verifier::when_used_as_spec(spec_new_group_data_ready)]
    pub fn new_group_data_ready(&self) -> (ready: bool)
        ensures
            ready == self.spec_new_group_data_ready(),
            ready <==> self.0 & 1 == 1,
    {
        self.0 & 1 == 1
    }

    /// Whether new data is ready in the data registers.
    #[verifier::when_used_as_spec(spec_new_data_ready)]
    pub fn new_data_ready(&self) -> (ready: bool)
        ensures
            ready == self.spec_new_data_ready(),
            ready <==> (self.0 >> 1) & 1 == 1,
    {
        (self.0 >> 1u8) & 1 == 1
    }

    /// The validity flag.
    #[verifier::when_used_as_spec(spec_validity_flag)]
    pub fn validity_flag(&self) -> (flag: ValidityFlag)
        ensures
            flag == self.spec_validity_flag(),
            flag.spec_value() == (self.0 >> 2) & 0b11,
    {
        let byte: u8 = self.0;
        let bits: u8 = (byte >> 2u8) & 0b11;
        assert((byte >> 2u8) & 0b11 <= 3) by (bit_vector);
        ValidityFlag::from(bits)
    }

    /// Whether the device reports an error, such as an invalid operating mode.
    #[verifier::when_used_as_spec(spec_error)]
    pub fn error(&self) -> (set: bool)
        ensures
            set == self.spec_error(),
            set <==> (self.0 >> 6) & 1 == 1,
    {
        (self.0 >> 6u8) & 1 == 1
    }

    /// Whether an operating mode is running.
    #[verifier::when_used_as_spec(spec_running_mode)]
    pub fn running_mode(&self) -> (running: bool)
        ensures
            running == self.spec_running_mode(),
            running <==> (self.0 >> 7) & 1 == 1,
    {
        (self.0 >> 7u8) & 1 == 1
    }
}

/// Decodes the content of the device status register. Every byte is a valid
/// status.
pub fn decode_status(byte: u8) -> (status: Status)
    ensures
        status.0 == byte,
        status.spec_new_group_data_ready() <==> byte & 1 == 1,
        status.spec_new_data_ready() <==> (byte >> 1) & 1 == 1,
        status.spec_validity_flag().spec_value() == (byte >> 2) & 0b11,
        status.spec_error() <==> (byte >> 6) & 1 == 1,
        status.spec_running_mode() <==> (byte >> 7) & 1 == 1,
{
    assert((byte >> 2u8) & 0b11 <= 3) by (bit_vector);
    Status(byte)
}

/// Interrupt pin polarity: set for active high, clear for active low.
pub const INT_ACTIVE_HIGH: u8 = 0b0100_0000;

/// Interrupt pin drive: set for push-pull, clear for open drain.
pub const INT_PUSH_PULL: u8 = 0b0010_0000;

/// Set to assert the interrupt pin when new general purpose data is ready.
pub const INT_ON_NEW_GROUP_DATA: u8 = 0b0000_0100;

/// Set to assert the interrupt pin when new data is ready.
pub const INT_ON_NEW_DATA: u8 = 0b0000_0010;

/// Set to enable the interrupt pin.
pub const INT_ENABLE: u8 = 0b0000_0001;

/// Value for the interrupt pin configuration register, built bit by bit.
///
/// It is a plain value: nothing reaches the device until the value is
/// written to the configuration register.
#[derive(Debug, Clone, Copy, PartialEq, Eq, Structural)]
pub struct InterruptPinConfig(pub u8);

impl InterruptPinConfig {
    /// This configuration with the bits of `mask` set.
    pub open spec fn with(self, mask: u8) -> InterruptPinConfig {
        InterruptPinConfig(self.0 | mask)
    }

    /// This configuration with the bits of `mask` cleared.
    pub open spec fn without(self, mask: u8) -> InterruptPinConfig {
        InterruptPinConfig(self.0 & !mask)
    }

    /// Starts from a configuration with every bit clear.
    pub fn builder() -> (config: InterruptPinConfig)
        ensures
            config.0 == 0,
    {
        InterruptPinConfig(0x00)
    }

    /// The value for the configuration register.
    pub fn get_value(&self) -> (value: u8)
        ensures
            value == self.0,
    {
        self.0
    }

    /// The interrupt pin is high when active.
    pub fn active_high(self) -> (config: InterruptPinConfig)
        ensures
            config == self.with(INT_ACTIVE_HIGH),
    {
        InterruptPinConfig(self.0 | INT_ACTIVE_HIGH)
    }

    /// The interrupt pin is low when active.
    pub fn active_low(self) -> (config: InterruptPinConfig)
        ensures
            config == self.without(INT_ACTIVE_HIGH),
    {
        InterruptPinConfig(self.0 & !INT_ACTIVE_HIGH)
    }

    /// The interrupt pin is driven push-pull.
    pub fn push_pull(self) -> (config: InterruptPinConfig)
        ensures
            config == self.with(INT_PUSH_PULL),
    {
        InterruptPinConfig(self.0 | INT_PUSH_PULL)
    }

    /// The interrupt pin is open drain.
    pub fn open_drain(self) -> (config: InterruptPinConfig)
        ensures
            config == self.without(INT_PUSH_PULL),
    {
        InterruptPinConfig(self.0 & !INT_PUSH_PULL)
    }

    /// Interrupt when new general purpose data is ready.
    pub fn on_new_group_data(self) -> (config: InterruptPinConfig)
        ensures
            config == self.with(INT_ON_NEW_GROUP_DATA),
    {
        InterruptPinConfig(self.0 | INT_ON_NEW_GROUP_DATA)
    }

    /// No interrupt when new general purpose data is ready.
    pub fn not_new_group_data(self) -> (config: InterruptPinConfig)
        ensures
            config == self.without(INT_ON_NEW_GROUP_DATA),
    {
        InterruptPinConfig(self.0 & !INT_ON_NEW_GROUP_DATA)
    }

    /// Interrupt when new data is ready.
    pub fn on_new_data(self) -> (config: InterruptPinConfig)
        ensures
            config == self.with(INT_ON_NEW_DATA),
    {
        InterruptPinConfig(self.0 | INT_ON_NEW_DATA)
    }

    /// No interrupt when new data is ready.
    pub fn not_new_data(self) -> (config: InterruptPinConfig)
        ensures
            config == self.without(INT_ON_NEW_DATA),
    {
        InterruptPinConfig(self.0 & !INT_ON_NEW_DATA)
    }

    /// Enable the interrupt pin.
    pub fn enable_interrupt(self) -> (config: InterruptPinConfig)
        ensures
            config == self.with(INT_ENABLE),
    {
        InterruptPinConfig(self.0 | INT_ENABLE)
    }

    /// Disable the interrupt pin.
    pub fn disable_interrupt(self) -> (config: InterruptPinConfig)
        ensures
            config == self.without(INT_ENABLE),
    {
        InterruptPinConfig(self.0 & !INT_ENABLE)
    }

    /// Setting bits leaves every bit outside the mask as it was, and sets
    /// those inside; clearing bits likewise clears those inside.
    pub proof fn lemma_toggle_touches_only_mask(self, mask: u8)
        ensures
            self.with(mask).0 & !mask == self.0 & !mask,
            self.with(mask).0 & mask == mask,
            self.without(mask).0 & !mask == self.0 & !mask,
            self.without(mask).0 & mask == 0,
    {
        let x = self.0;
        assert((x | mask) & !mask == x & !mask) by (bit_vector);
        assert((x | mask) & mask == mask) by (bit_vector);
        assert((x & !mask) & !mask == x & !mask) by (bit_vector);
        assert((x & !mask) & mask == 0) by (bit_vector);
    }

    /// Applying a toggle twice gives what applying it once gives.
    pub proof fn lemma_toggle_idempotent(self, mask: u8)
        ensures
            self.with(mask).with(mask) == self.with(mask),
            self.without(mask).without(mask) == self.without(mask),
    {
        let x = self.0;
        assert((x | mask) | mask == x | mask) by (bit_vector);
        assert((x & !mask) & !mask == x & !mask) by (bit_vector);
    }

    /// Toggles commute: two that set, two that clear, and one that sets with
    /// one that clears where they touch different bits.
    pub proof fn lemma_toggles_commute(self, a: u8, b: u8)
        ensures
            self.with(a).with(b) == self.with(b).with(a),
            self.without(a).without(b) == self.without(b).without(a),
            a & b == 0 ==> self.with(a).without(b) == self.without(b).with(a),
    {
        let x = self.0;
        assert((x | a) | b == (x | b) | a) by (bit_vector);
        assert((x & !a) & !b == (x & !b) & !a) by (bit_vector);
        assert(a & b == 0 ==> (x | a) & !b == (x & !b) | a) by (bit_vector);
    }
}

/// The 16-bit number that two bytes stand for, low byte first. The device is
/// little-endian throughout.
pub open spec fn u16_le(low: u8, high: u8) -> u16 {
    (low as int + 256 * (high as int)) as u16
}

/// Assembles a 16-bit register value from its two bytes, low byte first.
pub fn decode_u16_le(bytes: [u8; 2]) -> (value: u16)
    ensures
        value == u16_le(bytes[0], bytes[1]),
        value as int == bytes[0] as int + 256 * (bytes[1] as int),
{
    let low: u16 = bytes[0] as u16;
    let high: u16 = bytes[1] as u16;
    low + 256 * high
}

/// Splits a 16-bit register value into its two bytes, low byte first.
pub fn encode_u16_le(value: u16) -> (bytes: [u8; 2])
    ensures
        bytes[0] as int == value as int % 256,
        bytes[1] as int == value as int / 256,
        u16_le(bytes[0], bytes[1]) == value,
{
    let low: u8 = (value % 256) as u8;
    let high: u8 = (value / 256) as u8;
    [low, high]
}

/// One set of readings, taken register by register.
///
/// The device does not latch its data registers, so the fields may stem from
/// slightly different moments. Treat the set as one snapshot.
#[derive(Debug, Clone, Copy, PartialEq, Eq, Structural)]
pub struct Measurements {
    /// Equivalent carbon dioxide in parts per million.
    pub co2eq_ppm: ECO2,
    /// Total volatile organic compounds in parts per billion.
    pub tvoc_ppb: u16,
    /// Air quality index.
    pub air_quality_index: AirQualityIndex,
    /// Ethanol concentration in parts per billion.
    pub etoh: u16,
    /// Resistance of the hot plate as the device encodes it: a register value
    /// `r` stands for two to the power of `r / 2048` ohms.
    pub raw_resistance: u16,
}

} // verus!
