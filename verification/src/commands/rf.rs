//! RF, modulation and packet commands
//!
//! This module contains commands for configuring RF parameters, modulation settings,
//! and packet handling. These commands control:
//! - RF frequency configuration
//! - Packet type selection (LoRa/FSK/LR-FHSS)
//! - TX power and ramping
//! - Modulation parameters
//! - Packet formatting
//! - Channel Activity Detection (CAD)
//! - Buffer management
//!
//! Most configuration commands must be issued while in STDBY_RC mode.
//!
//! Each parameter type states what it serializes to as a spec function `wire`,
//! and its `to_bytes` returns exactly those bytes.
//!
//! The enums of this module give the byte that the radio takes for each variant
//! through `as_u8()` (in specifications, `code()`). They carry no explicit
//! discriminants, so a cast `as u8` yields the variant's position in the
//! declaration, not the radio's code.
use crate::byte_order::{be_low24, be_u16, be_u32, u32_to_be};
use crate::regiface_items::{one_zero_byte, u16_param_bytes};
use core::convert::Infallible;
use regiface::Zeros;
use vstd::prelude::*;

verus! {

/// Frequency of the radio's crystal oscillator (FXTAL), in Hz.
pub const XTAL_FREQ_HZ: u64 = 32_000_000;

/// 2^25: the scale between a frequency in Hz and its PLL register value, relative to FXTAL.
pub const PLL_SCALE: u64 = 33_554_432;

/// The byte that encodes a flag: 1 when it is set, 0 otherwise.
pub open spec fn flag_byte(b: bool) -> u8 {
    if b {
        1
    } else {
        0
    }
}

/// Encodes a flag as one byte, 1 when it is set and 0 otherwise.
pub fn flag_to_u8(b: bool) -> (r: u8)
    ensures
        r == flag_byte(b),
{
    if b {
        1
    } else {
        0
    }
}

/// The PLL register value for a frequency of `hz` Hz: `hz * 2^25 / FXTAL`, rounded down
/// and kept to its low 32 bits.
pub open spec fn pll_register(hz: u32) -> u32 {
    ((hz as int * PLL_SCALE as int / XTAL_FREQ_HZ as int) % 0x1_0000_0000) as u32
}

/// Computes `pll_register(hz)`.
pub fn pll_register_of(hz: u32) -> (r: u32)
    ensures
        r == pll_register(hz),
{
    assert(hz as u64 * PLL_SCALE <= 0xffff_ffffu64 * PLL_SCALE);
    let scaled: u64 = hz as u64 * PLL_SCALE / XTAL_FREQ_HZ;
    (scaled % 0x1_0000_0000) as u32
}

/// RF frequency configuration parameters
///
/// Used to set the RF frequency for both TX and RX operations.
/// The frequency is calculated as: RF = frequency_in_hz * FXTAL / 2^25
/// where FXTAL is typically 32MHz.
#[derive(Debug, Clone, Copy)]
pub struct RfFrequencyConfig {
    /// RF frequency in Hz
    /// Valid range: 150MHz to 960MHz
    pub frequency: u32,
}

impl RfFrequencyConfig {
    /// The four bytes of the frequency register, most significant first.
    pub open spec fn wire(self) -> Seq<u8> {
        be_u32(pll_register(self.frequency))
    }

    /// Serializes the configuration: the PLL register value `frequency * 2^25 / FXTAL`
    /// as four big-endian bytes.
    pub fn to_bytes(self) -> (r: Result<[u8; 4], Infallible>)
        ensures
            r is Ok,
            r->Ok_0@ == self.wire(),
    {
        // Frequency register = (Frequency * 2^25) / FXTAL
        let f = pll_register_of(self.frequency);
        Ok(u32_to_be(f))
    }
}

/// SetRfFrequency command (0x86)
///
/// Sets the RF frequency for both TX and RX operations. In RX mode,
/// the command automatically configures the necessary IF frequency offset.
///
/// # Important Notes
/// - Must be called while in STDBY_RC mode
/// - For frequencies below 400MHz, some bandwidths may not be available
/// - The frequency resolution (PLL step) is ~0.95Hz
#[derive(Debug, Clone)]
pub struct SetRfFrequency {
    /// RF frequency configuration
    pub config: RfFrequencyConfig,
}

impl SetRfFrequency {
    /// The opcode of the command.
    pub open spec fn opcode() -> u8 {
        0x86
    }

    /// The command's opcode.
    pub fn id() -> (r: u8)
        ensures
            r == Self::opcode(),
    {
        0x86
    }

    /// The parameters sent with the command.
    pub fn invoking_parameters(self) -> (r: RfFrequencyConfig)
        ensures
            r == self.config,
    {
        self.config
    }
}

/// Packet type options for radio configuration
///
/// The radio's code for each variant is `as_u8()` (in specifications, `code()`);
/// a cast `as u8` gives the variant's position in the declaration instead.
#[derive(Debug, Clone, Copy)]
pub enum PacketType {
    /// GFSK packet type (0x00)
    /// Supports bit rates from 0.6 to 300kbps
    Gfsk,
    /// LoRa packet type (0x01)
    /// Supports spreading factors 5-12 and bandwidths 7.8-500kHz
    LoRa,
    /// LR-FHSS packet type (0x03)
    LrFhss,
}

impl PacketType {
    /// The byte that selects this packet type.
    pub open spec fn code(self) -> u8 {
        match self {
            PacketType::Gfsk => 0x00,
            PacketType::LoRa => 0x01,
            PacketType::LrFhss => 0x03,
        }
    }

    /// The packet type that the radio reports with the byte `b`: an unknown byte
    /// reads as LoRa.
    pub open spec fn decode(b: u8) -> PacketType {
        if b == 0x00 {
            PacketType::Gfsk
        } else if b == 0x03 {
            PacketType::LrFhss
        } else {
            PacketType::LoRa
        }
    }

    /// The byte that selects this packet type.
    pub fn as_u8(&self) -> (r: u8)
        ensures
            r == self.code(),
    {
        match self {
            PacketType::Gfsk => 0x00,
            PacketType::LoRa => 0x01,
            PacketType::LrFhss => 0x03,
        }
    }

    /// Reads the packet type from the radio's one-byte response; a byte that names
    /// no packet type reads as LoRa.
    pub fn from_bytes(bytes: [u8; 1]) -> (r: Result<PacketType, Infallible>)
        ensures
            r is Ok,
            r->Ok_0 == Self::decode(bytes@[0]),
    {
        Ok(
            match bytes[0] {
                0x00 => PacketType::Gfsk,
                0x01 => PacketType::LoRa,
                0x03 => PacketType::LrFhss,
                _ => PacketType::LoRa,
            },
        )
    }

    /// The packet type as the one byte that the radio takes.
    pub open spec fn wire(self) -> Seq<u8> {
        seq![self.code()]
    }

    /// Serializes the packet type as its one-byte code.
    pub fn to_bytes(self) -> (r: Result<[u8; 1], Infallible>)
        ensures
            r is Ok,
            r->Ok_0@ == self.wire(),
    {
        let r = [self.as_u8()];
        assert(r@ =~= self.wire());
        Ok(r)
    }
}

/// SetPacketType command (0x8A)
///
/// Sets the packet type (LoRa or GFSK) and associated modem configuration.
///
/// # Important Notes
/// - Must be the first command in the radio configuration sequence
/// - Must be called while in STDBY_RC mode
/// - Parameters from previous mode are not retained
/// - Modulation and packet parameters must be reconfigured after changing type
#[derive(Debug, Clone)]
pub struct SetPacketType {
    /// Packet type selection
    pub packet_type: PacketType,
}

impl SetPacketType {
    /// The opcode of the command.
    pub open spec fn opcode() -> u8 {
        0x8A
    }

    /// The command's opcode.
    pub fn id() -> (r: u8)
        ensures
            r == Self::opcode(),
    {
        0x8A
    }

    /// The parameters sent with the command.
    pub fn invoking_parameters(self) -> (r: PacketType)
        ensures
            r == self.packet_type,
    {
        self.packet_type
    }
}

/// GetPacketType command (0x11)
///
/// Returns the current packet type configuration.
#[derive(Debug, Clone)]
pub struct GetPacketType;

impl GetPacketType {
    /// The opcode of the command.
    pub open spec fn opcode() -> u8 {
        0x11
    }

    /// The command's opcode.
    pub fn id() -> (r: u8)
        ensures
            r == Self::opcode(),
    {
        0x11
    }

    /// The parameters sent with the command: one zero byte.
    pub fn invoking_parameters(self) -> Zeros<1> {
        one_zero_byte()
    }
}

/// Power amplifier ramp time options
///
/// The radio's code for each variant is `as_u8()` (in specifications, `code()`);
/// a cast `as u8` gives the variant's position in the declaration instead.
#[derive(Debug, Clone, Copy)]
pub enum RampTime {
    /// 10 μs ramp time
    Micros10,
    /// 20 μs ramp time
    Micros20,
    /// 40 μs ramp time
    Micros40,
    /// 80 μs ramp time
    Micros80,
    /// 200 μs ramp time
    Micros200,
    /// 800 μs ramp time
    Micros800,
    /// 1700 μs ramp time
    Micros1700,
    /// 3400 μs ramp time
    Micros3400,
}

impl RampTime {
    /// The byte that selects this ramp time.
    pub open spec fn code(self) -> u8 {
        match self {
            RampTime::Micros10 => 0x00,
            RampTime::Micros20 => 0x01,
            RampTime::Micros40 => 0x02,
            RampTime::Micros80 => 0x03,
            RampTime::Micros200 => 0x04,
            RampTime::Micros800 => 0x05,
            RampTime::Micros1700 => 0x06,
            RampTime::Micros3400 => 0x07,
        }
    }

    /// The byte that selects this ramp time.
    pub fn as_u8(&self) -> (r: u8)
        ensures
            r == self.code(),
    {
        match self {
            RampTime::Micros10 => 0x00,
            RampTime::Micros20 => 0x01,
            RampTime::Micros40 => 0x02,
            RampTime::Micros80 => 0x03,
            RampTime::Micros200 => 0x04,
            RampTime::Micros800 => 0x05,
            RampTime::Micros1700 => 0x06,
            RampTime::Micros3400 => 0x07,
        }
    }
}

/// The byte that carries a power level in dBm: its two's complement representation.
pub open spec fn power_byte(p: i8) -> u8 {
    if p < 0 {
        (p + 256) as u8
    } else {
        p as u8
    }
}

/// TX parameters configuration
#[derive(Debug, Clone, Copy)]
pub struct TxParams {
    /// Output power in dBm
    /// - SX1261: -17 to +14 dBm
    /// - SX1262: -9 to +22 dBm
    ///
    /// Power selection depends on PA configuration set by SetPaConfig
    pub power: i8,
    /// Power amplifier ramp time
    /// Longer ramp times reduce spectral spreading but increase
    /// packet time-on-air
    pub ramp_time: RampTime,
}

impl TxParams {
    /// The power byte (two's complement) followed by the ramp time code.
    pub open spec fn wire(self) -> Seq<u8> {
        seq![power_byte(self.power), self.ramp_time.code()]
    }

    /// Serializes the power (as its two's complement byte) and the ramp time.
    pub fn to_bytes(self) -> (r: Result<[u8; 2], Infallible>)
        ensures
            r is Ok,
            r->Ok_0@ == self.wire(),
    {
        let p = self.power;
        let power = p as u8;
        assert(p as u8 == (if p < 0 { (p + 256) as u8 } else { p as u8 })) by (bit_vector);
        let r = [power, self.ramp_time.as_u8()];
        assert(r@ =~= self.wire());
        Ok(r)
    }
}

/// SetTxParams command (0x8E)
///
/// Sets the TX output power and PA ramp time.
///
/// # Important Notes
/// - Power range depends on PA configuration (SX1261/SX1262)
/// - Power is set in 1dB steps
/// - Ramp time affects spectral emissions and time-on-air
/// - Must be configured after SetPaConfig
#[derive(Debug, Clone)]
pub struct SetTxParams {
    /// TX parameters configuration
    pub params: TxParams,
}

impl SetTxParams {
    /// The opcode of the command.
    pub open spec fn opcode() -> u8 {
        0x8E
    }

    /// The command's opcode.
    pub fn id() -> (r: u8)
        ensures
            r == Self::opcode(),
    {
        0x8E
    }

    /// The parameters sent with the command.
    pub fn invoking_parameters(self) -> (r: TxParams)
        ensures
            r == self.params,
    {
        self.params
    }
}

/// GFSK modulation parameters
///
/// Configures the modulation settings for GFSK packet type.
/// The radio calculates internal register values from these parameters:
/// - Bit rate register = (32 * FXTAL) / bit_rate
/// - Frequency deviation register = (deviation * 2^25) / FXTAL
///   where FXTAL is typically 32MHz
///
/// # Important Notes
/// - Ensure bandwidth > 2 * (frequency_deviation + bit_rate/2)
/// - Pulse shaping affects spectral efficiency and occupied bandwidth
/// - Higher bit rates require wider bandwidths
#[derive(Debug, Clone, Copy)]
pub struct GfskModParams {
    /// Bit rate in bits per second
    /// Valid range: 600 bps to 300 kbps
    pub bit_rate: u32,
    /// Pulse shape filtering for spectral efficiency
    pub pulse_shape: GfskPulseShape,
    /// RX bandwidth setting for channel filtering
    pub bandwidth: GfskBandwidth,
    /// Frequency deviation in Hz
    /// Maximum deviation should be < 0.5 * bandwidth
    pub freq_deviation: u32,
}

/// GFSK pulse shape options for spectral shaping
///
/// Gaussian filtering reduces spectral spreading but increases
/// intersymbol interference. Higher BT products reduce ISI
/// at the cost of wider bandwidth.
///
/// The radio's code for each variant is `as_u8()` (in specifications, `code()`);
/// a cast `as u8` gives the variant's position in the declaration instead.
#[derive(Debug, Clone, Copy)]
pub enum GfskPulseShape {
    /// No pulse shaping filter
    NoFilter,
    /// Gaussian filter, BT = 0.3
    /// Minimum bandwidth, maximum ISI
    Bt03,
    /// Gaussian filter, BT = 0.5
    /// Balanced bandwidth/ISI tradeoff
    Bt05,
    /// Gaussian filter, BT = 0.7
    /// Reduced ISI, wider bandwidth
    Bt07,
    /// Gaussian filter, BT = 1.0
    /// Minimum ISI, maximum bandwidth
    Bt1,
}

impl GfskPulseShape {
    /// The byte that selects this pulse shape.
    pub open spec fn code(self) -> u8 {
        match self {
            GfskPulseShape::NoFilter => 0x00,
            GfskPulseShape::Bt03 => 0x08,
            GfskPulseShape::Bt05 => 0x09,
            GfskPulseShape::Bt07 => 0x0A,
            GfskPulseShape::Bt1 => 0x0B,
        }
    }

    /// The byte that selects this pulse shape.
    pub fn as_u8(&self) -> (r: u8)
        ensures
            r == self.code(),
    {
        match self {
            GfskPulseShape::NoFilter => 0x00,
            GfskPulseShape::Bt03 => 0x08,
            GfskPulseShape::Bt05 => 0x09,
            GfskPulseShape::Bt07 => 0x0A,
            GfskPulseShape::Bt1 => 0x0B,
        }
    }
}


/// GFSK receiver bandwidth options
///
/// Sets the channel filter bandwidth. Should be selected based on:
/// - Signal bandwidth (2 * (freq_deviation + bit_rate/2))
/// - Adjacent channel rejection requirements
/// - Expected frequency error
///
/// Wider bandwidths allow higher data rates but reduce selectivity
///
/// The radio's code for each variant is `as_u8()` (in specifications, `code()`);
/// a cast `as u8` gives the variant's position in the declaration instead.
#[derive(Debug, Clone, Copy)]
pub enum GfskBandwidth {
    /// 4.8 kHz Double-Side Bandwidth
    Bw48,
    /// 5.8 kHz Double-Side Bandwidth
    Bw58,
    /// 7.3 kHz Double-Side Bandwidth
    Bw73,
    /// 9.7 kHz Double-Side Bandwidth
    Bw97,
    /// 11.7 kHz Double-Side Bandwidth
    Bw117,
    /// 14.6 kHz Double-Side Bandwidth
    Bw146,
    /// 19.5 kHz Double-Side Bandwidth
    Bw195,
    /// 23.4 kHz Double-Side Bandwidth
    Bw234,
    /// 29.3 kHz Double-Side Bandwidth
    Bw293,
    /// 39 kHz Double-Side Bandwidth
    Bw39,
    /// 46.9 kHz Double-Side Bandwidth
    Bw469,
    /// 58.6 kHz Double-Side Bandwidth
    Bw586,
    /// 78.2 kHz Double-Side Bandwidth
    Bw782,
    /// 93.8 kHz Double-Side Bandwidth
    Bw938,
    /// 117.3 kHz Double-Side Bandwidth
    Bw1173,
    /// 156.2 kHz Double-Side Bandwidth
    Bw1562,
    /// 187.2 kHz Double-Side Bandwidth
    Bw1872,
    /// 232.3 kHz Double-Side Bandwidth
    Bw2323,
    /// 312.0 kHz Double-Side Bandwidth
    Bw3120,
    /// 373.6 kHz Double-Side Bandwidth
    Bw3736,
    /// 467.0 kHz Double-Side Bandwidth
    Bw4670,
}

impl GfskBandwidth {
    /// The byte that selects this receiver bandwidth.
    pub open spec fn code(self) -> u8 {
        match self {
            GfskBandwidth::Bw48 => 0x1F,
            GfskBandwidth::Bw58 => 0x17,
            GfskBandwidth::Bw73 => 0x0F,
            GfskBandwidth::Bw97 => 0x1E,
            GfskBandwidth::Bw117 => 0x16,
            GfskBandwidth::Bw146 => 0x0E,
            GfskBandwidth::Bw195 => 0x1D,
            GfskBandwidth::Bw234 => 0x15,
            GfskBandwidth::Bw293 => 0x0D,
            GfskBandwidth::Bw39 => 0x1C,
            GfskBandwidth::Bw469 => 0x14,
            GfskBandwidth::Bw586 => 0x0C,
            GfskBandwidth::Bw782 => 0x1B,
            GfskBandwidth::Bw938 => 0x13,
            GfskBandwidth::Bw1173 => 0x0B,
            GfskBandwidth::Bw1562 => 0x1A,
            GfskBandwidth::Bw1872 => 0x12,
            GfskBandwidth::Bw2323 => 0x0A,
            GfskBandwidth::Bw3120 => 0x19,
            GfskBandwidth::Bw3736 => 0x11,
            GfskBandwidth::Bw4670 => 0x09,
        }
    }

    /// The byte that selects this receiver bandwidth.
    pub fn as_u8(&self) -> (r: u8)
        ensures
            r == self.code(),
    {
        match self {
            GfskBandwidth::Bw48 => 0x1F,
            GfskBandwidth::Bw58 => 0x17,
            GfskBandwidth::Bw73 => 0x0F,
            GfskBandwidth::Bw97 => 0x1E,
            GfskBandwidth::Bw117 => 0x16,
            GfskBandwidth::Bw146 => 0x0E,
            GfskBandwidth::Bw195 => 0x1D,
            GfskBandwidth::Bw234 => 0x15,
            GfskBandwidth::Bw293 => 0x0D,
            GfskBandwidth::Bw39 => 0x1C,
            GfskBandwidth::Bw469 => 0x14,
            GfskBandwidth::Bw586 => 0x0C,
            GfskBandwidth::Bw782 => 0x1B,
            GfskBandwidth::Bw938 => 0x13,
            GfskBandwidth::Bw1173 => 0x0B,
            GfskBandwidth::Bw1562 => 0x1A,
            GfskBandwidth::Bw1872 => 0x12,
            GfskBandwidth::Bw2323 => 0x0A,
            GfskBandwidth::Bw3120 => 0x19,
            GfskBandwidth::Bw3736 => 0x11,
            GfskBandwidth::Bw4670 => 0x09,
        }
    }
}


/// LoRa modulation parameters
///
/// Configures the modulation settings for LoRa packet type.
/// Parameter selection affects:
/// - Sensitivity vs time-on-air tradeoff
/// - Maximum packet length
/// - Required receive window length
///
/// # Important Notes
/// - Higher spreading factors increase sensitivity but reduce data rate
/// - Wider bandwidths increase data rate but reduce sensitivity
/// - Enable low data rate optimization when symbol length ≥ 16.38ms
/// - Coding rate adds redundancy at the cost of time-on-air
#[derive(Debug, Clone, Copy)]
pub struct LoRaModParams {
    /// Spreading Factor (chip/symbol)
    pub spreading_factor: SpreadingFactor,
    /// Signal bandwidth
    pub bandwidth: LoRaBandwidth,
    /// Coding rate for forward error correction
    pub coding_rate: CodingRate,
    /// Low Data Rate optimization
    /// Required when symbol length ≥ 16.38ms
    pub low_data_rate_opt: bool,
}

/// LoRa spreading factor options
///
/// Sets the number of chips per symbol. Higher spreading factors:
/// - Increase sensitivity
/// - Increase time-on-air
/// - Reduce maximum packet length
/// - Reduce tolerance to frequency offset
///
/// SF5/SF6 have restrictions on header and CRC usage
///
/// The radio's code for each variant is `as_u8()` (in specifications, `code()`);
/// a cast `as u8` gives the variant's position in the declaration instead.
#[derive(Debug, Clone, Copy)]
pub enum SpreadingFactor {
    /// SF5 - 32 chips/symbol
    /// Fastest data rate, shortest range
    SF5,
    /// SF6 - 64 chips/symbol
    SF6,
    /// SF7 - 128 chips/symbol
    SF7,
    /// SF8 - 256 chips/symbol
    SF8,
    /// SF9 - 512 chips/symbol
    SF9,
    /// SF10 - 1024 chips/symbol
    SF10,
    /// SF11 - 2048 chips/symbol
    SF11,
    /// SF12 - 4096 chips/symbol
    /// Slowest data rate, longest range
    SF12,
}

impl SpreadingFactor {
    /// The byte that selects this spreading factor.
    pub open spec fn code(self) -> u8 {
        match self {
            SpreadingFactor::SF5 => 5,
            SpreadingFactor::SF6 => 6,
            SpreadingFactor::SF7 => 7,
            SpreadingFactor::SF8 => 8,
            SpreadingFactor::SF9 => 9,
            SpreadingFactor::SF10 => 10,
            SpreadingFactor::SF11 => 11,
            SpreadingFactor::SF12 => 12,
        }
    }

    /// The byte that selects this spreading factor.
    pub fn as_u8(&self) -> (r: u8)
        ensures
            r == self.code(),
    {
        match self {
            SpreadingFactor::SF5 => 5,
            SpreadingFactor::SF6 => 6,
            SpreadingFactor::SF7 => 7,
            SpreadingFactor::SF8 => 8,
            SpreadingFactor::SF9 => 9,
            SpreadingFactor::SF10 => 10,
            SpreadingFactor::SF11 => 11,
            SpreadingFactor::SF12 => 12,
        }
    }
}


/// LoRa bandwidth options
///
/// Sets the signal bandwidth. Wider bandwidths:
/// - Increase data rate
/// - Reduce sensitivity
/// - Increase tolerance to frequency offset
///
/// Some bandwidths may not be available below 400MHz
///
/// The radio's code for each variant is `as_u8()` (in specifications, `code()`);
/// a cast `as u8` gives the variant's position in the declaration instead.
#[derive(Debug, Clone, Copy)]
pub enum LoRaBandwidth {
    /// 7.81 kHz bandwidth
    Bw7,
    /// 10.42 kHz bandwidth
    Bw10,
    /// 15.63 kHz bandwidth
    Bw15,
    /// 20.83 kHz bandwidth
    Bw20,
    /// 31.25 kHz bandwidth
    Bw31,
    /// 41.67 kHz bandwidth
    Bw41,
    /// 62.50 kHz bandwidth
    Bw62,
    /// 125 kHz bandwidth
    Bw125,
    /// 250 kHz bandwidth
    Bw250,
    /// 500 kHz bandwidth
    /// Highest data rate, lowest sensitivity
    Bw500,
}

impl LoRaBandwidth {
    /// The byte that selects this bandwidth.
    pub open spec fn code(self) -> u8 {
        match self {
            LoRaBandwidth::Bw7 => 0x00,
            LoRaBandwidth::Bw10 => 0x08,
            LoRaBandwidth::Bw15 => 0x01,
            LoRaBandwidth::Bw20 => 0x09,
            LoRaBandwidth::Bw31 => 0x02,
            LoRaBandwidth::Bw41 => 0x0a,
            LoRaBandwidth::Bw62 => 0x03,
            LoRaBandwidth::Bw125 => 0x04,
            LoRaBandwidth::Bw250 => 0x05,
            LoRaBandwidth::Bw500 => 0x06,
        }
    }

    /// The byte that selects this bandwidth.
    pub fn as_u8(&self) -> (r: u8)
        ensures
            r == self.code(),
    {
        match self {
            LoRaBandwidth::Bw7 => 0x00,
            LoRaBandwidth::Bw10 => 0x08,
            LoRaBandwidth::Bw15 => 0x01,
            LoRaBandwidth::Bw20 => 0x09,
            LoRaBandwidth::Bw31 => 0x02,
            LoRaBandwidth::Bw41 => 0x0a,
            LoRaBandwidth::Bw62 => 0x03,
            LoRaBandwidth::Bw125 => 0x04,
            LoRaBandwidth::Bw250 => 0x05,
            LoRaBandwidth::Bw500 => 0x06,
        }
    }
}


/// LoRa coding rate options
///
/// Sets the Forward Error Correction (FEC) rate.
/// Higher coding rates:
/// - Increase reliability in noisy conditions
/// - Increase time-on-air
/// - Reduce effective data rate
///
/// The radio's code for each variant is `as_u8()` (in specifications, `code()`);
/// a cast `as u8` gives the variant's position in the declaration instead.
#[derive(Debug, Clone, Copy)]
pub enum CodingRate {
    /// 4/5 coding rate
    /// Lowest redundancy (1.25x overhead)
    Cr45,
    /// 4/6 coding rate
    /// 1.5x overhead
    Cr46,
    /// 4/7 coding rate
    /// 1.75x overhead
    Cr47,
    /// 4/8 coding rate
    /// Highest redundancy (2x overhead)
    Cr48,
}

impl CodingRate {
    /// The byte that selects this coding rate.
    pub open spec fn code(self) -> u8 {
        match self {
            CodingRate::Cr45 => 0x01,
            CodingRate::Cr46 => 0x02,
            CodingRate::Cr47 => 0x03,
            CodingRate::Cr48 => 0x04,
        }
    }

    /// The byte that selects this coding rate.
    pub fn as_u8(&self) -> (r: u8)
        ensures
            r == self.code(),
    {
        match self {
            CodingRate::Cr45 => 0x01,
            CodingRate::Cr46 => 0x02,
            CodingRate::Cr47 => 0x03,
            CodingRate::Cr48 => 0x04,
        }
    }
}


/// `32 * FXTAL`: the numerator of the GFSK bit rate register.
pub const GFSK_BIT_RATE_NUMERATOR: u32 = 1_024_000_000;

/// The GFSK bit rate register for `bit_rate` bits per second: `32 * FXTAL / bit_rate`,
/// rounded down.
pub open spec fn bit_rate_register(bit_rate: u32) -> u32
    recommends
        bit_rate > 0,
{
    (GFSK_BIT_RATE_NUMERATOR as int / bit_rate as int) as u32
}

/// Modulation parameters configuration
///
/// Configures the radio modulation based on the selected packet type.
/// The parameters are interpreted differently for GFSK and LoRa modes:
///
/// # GFSK Mode Parameters
/// Uses GfskModParams to configure:
/// - Bit rate (600 bps to 300 kbps)
/// - Pulse shaping filter
/// - RX bandwidth (4.8 to 467 kHz)
/// - Frequency deviation
///
/// # LoRa Mode Parameters
/// Uses LoRaModParams to configure:
/// - Spreading factor (SF5-SF12)
/// - Bandwidth (7.8 to 500 kHz)
/// - Coding rate (4/5 to 4/8)
/// - Low data rate optimization
///
/// # Important Notes
/// - Parameters must match the selected packet type
/// - Configuration affects sensitivity, range, and data rate
/// - Some parameter combinations may be invalid or suboptimal
#[derive(Debug, Clone)]
pub enum ModulationParams {
    /// GFSK modulation configuration
    Gfsk(GfskModParams),
    /// LoRa modulation configuration
    LoRa(LoRaModParams),
}

impl ModulationParams {
    /// Whether the parameters can be serialized: a GFSK bit rate must not be zero,
    /// since the bit rate register divides by it.
    pub open spec fn encodable(self) -> bool {
        match self {
            ModulationParams::Gfsk(p) => p.bit_rate != 0,
            ModulationParams::LoRa(_) => true,
        }
    }

    /// The eight parameter bytes.
    ///
    /// GFSK: the low three bytes of the bit rate register (big-endian), the pulse
    /// shape, the bandwidth, then the low three bytes of the frequency deviation
    /// register (big-endian).
    /// LoRa: spreading factor, bandwidth, coding rate, low data rate flag, then four
    /// zero bytes.
    pub open spec fn wire(self) -> Seq<u8> {
        match self {
            ModulationParams::Gfsk(p) => be_low24(bit_rate_register(p.bit_rate)) + seq![
                p.pulse_shape.code(),
                p.bandwidth.code(),
            ] + be_low24(pll_register(p.freq_deviation)),
            ModulationParams::LoRa(p) => seq![
                p.spreading_factor.code(),
                p.bandwidth.code(),
                p.coding_rate.code(),
                flag_byte(p.low_data_rate_opt),
                0u8,
                0u8,
                0u8,
                0u8,
            ],
        }
    }

    /// Serializes the modulation parameters into the eight bytes of `wire`.
    pub fn to_bytes(self) -> (r: Result<[u8; 8], Infallible>)
        requires
            self.encodable(),
        ensures
            r is Ok,
            r->Ok_0@ == self.wire(),
    {
        match self {
            ModulationParams::Gfsk(params) => {
                // Bit rate = (32 * FXTAL) / bit_rate
                let br_val = GFSK_BIT_RATE_NUMERATOR / params.bit_rate;
                let br = u32_to_be(br_val);
                // Frequency deviation register = (Frequency deviation * 2^25) / FXTAL
                let fdev = u32_to_be(pll_register_of(params.freq_deviation));
                let bytes = [
                    br[1],
                    br[2],
                    br[3],
                    params.pulse_shape.as_u8(),
                    params.bandwidth.as_u8(),
                    fdev[1],
                    fdev[2],
                    fdev[3],
                ];
                assert(bytes@ =~= self.wire());
                Ok(bytes)
            },
            ModulationParams::LoRa(params) => {
                let bytes = [
                    params.spreading_factor.as_u8(),
                    params.bandwidth.as_u8(),
                    params.coding_rate.as_u8(),
                    flag_to_u8(params.low_data_rate_opt),
                    0,
                    0,
                    0,
                    0,
                ];
                assert(bytes@ =~= self.wire());
                Ok(bytes)
            },
        }
    }
}

/// SetModulationParams command (0x8B)
///
/// Configures the modulation parameters for the selected packet type.
/// Must be called after SetPacketType and before SetPacketParams.
///
/// # Important Notes
/// - Parameters interpretation depends on packet type
/// - For LoRa, low data rate optimization should be enabled for
///   symbol times ≥ 16.38ms
/// - For GFSK, ensure bandwidth > 2*(frequency_deviation + bit_rate/2)
#[derive(Debug, Clone)]
pub struct SetModulationParams {
    /// Modulation parameters
    pub params: ModulationParams,
}

impl SetModulationParams {
    /// The opcode of the command.
    pub open spec fn opcode() -> u8 {
        0x8B
    }

    /// The command's opcode.
    pub fn id() -> (r: u8)
        ensures
            r == Self::opcode(),
    {
        0x8B
    }

    /// The parameters sent with the command.
    pub fn invoking_parameters(self) -> (r: ModulationParams)
        ensures
            r == self.params,
    {
        self.params
    }
}

/// Packet parameters configuration
///
/// Parameters interpretation depends on the packet type.
///
/// see [`GFSKPacketParams`] and [`LoRaPacketParams`]
#[derive(Debug, Clone)]
pub enum PacketParams {
    GFSK(GFSKPacketParams),
    LoRa(LoRaPacketParams),
}

impl PacketParams {
    /// The nine parameter bytes of the packet type at hand.
    pub open spec fn wire(self) -> Seq<u8> {
        match self {
            PacketParams::GFSK(p) => p.wire(),
            PacketParams::LoRa(p) => p.wire(),
        }
    }

    /// Serializes the parameters of whichever packet type they are for.
    pub fn to_bytes(self) -> (r: Result<[u8; 9], Infallible>)
        ensures
            r is Ok,
            r->Ok_0@ == self.wire(),
    {
        match self {
            PacketParams::GFSK(params) => params.to_bytes(),
            PacketParams::LoRa(params) => params.to_bytes(),
        }
    }
}

/// The preamble detector acts as a gate to the packet controller, when different from 0x00
/// (preamble detector length off) the packet controller only becomes actve if a cerain number of
/// preamble bits have been successfully received by the radio.
///
/// The radio's code for each variant is `as_u8()` (in specifications, `code()`);
/// a cast `as u8` gives the variant's position in the declaration instead.
#[derive(Debug, Clone)]
pub enum PreambleDetectorLength {
    /// preamble detector length off
    Off,
    /// preamble detector length 8 bits
    Bits8,
    /// preamble detector length 16 bits
    Bits16,
    /// preamble detector length 24 bits
    Bits24,
    /// preamble detector length 32 bits
    Bits32,
}

impl PreambleDetectorLength {
    /// The byte that selects this preamble detector length.
    pub open spec fn code(self) -> u8 {
        match self {
            PreambleDetectorLength::Off => 0x00,
            PreambleDetectorLength::Bits8 => 0x04,
            PreambleDetectorLength::Bits16 => 0x05,
            PreambleDetectorLength::Bits24 => 0x06,
            PreambleDetectorLength::Bits32 => 0x07,
        }
    }

    /// The byte that selects this preamble detector length.
    pub fn as_u8(&self) -> (r: u8)
        ensures
            r == self.code(),
    {
        match self {
            PreambleDetectorLength::Off => 0x00,
            PreambleDetectorLength::Bits8 => 0x04,
            PreambleDetectorLength::Bits16 => 0x05,
            PreambleDetectorLength::Bits24 => 0x06,
            PreambleDetectorLength::Bits32 => 0x07,
        }
    }
}


/// The node address and the broadcast address are directly programmed into the device through
/// simple register access.
///
/// The radio's code for each variant is `as_u8()` (in specifications, `code()`);
/// a cast `as u8` gives the variant's position in the declaration instead.
#[derive(Debug, Clone)]
pub enum AddressFiltering {
    /// Address Filtering Disable
    Disable,
    /// Address Filtering activated on Node address
    Node,
    /// Address Filtering activated on Node and broadcast addresses
    NodeAndBroadcast,
}

impl AddressFiltering {
    /// The byte that selects this address filtering mode.
    pub open spec fn code(self) -> u8 {
        match self {
            AddressFiltering::Disable => 0x00,
            AddressFiltering::Node => 0x01,
            AddressFiltering::NodeAndBroadcast => 0x02,
        }
    }

    /// The byte that selects this address filtering mode.
    pub fn as_u8(&self) -> (r: u8)
        ensures
            r == self.code(),
    {
        match self {
            AddressFiltering::Disable => 0x00,
            AddressFiltering::Node => 0x01,
            AddressFiltering::NodeAndBroadcast => 0x02,
        }
    }
}


/// Packet Header Type
///
/// The radio's code for each variant is `as_u8()` (in specifications, `code()`);
/// a cast `as u8` gives the variant's position in the declaration instead.
#[derive(Debug, Clone)]
pub enum GFSKPacketHeaderType {
    /// The packet length is known on both sides, the size of the payload is not added to the
    /// packet
    ///
    /// also called explicit
    Fixed,
    /// The packet is of variable size, the first byte of the payload is the size of the packet
    ///
    /// also called implicit
    Variable,
}

impl GFSKPacketHeaderType {
    /// The byte that selects this header type.
    pub open spec fn code(self) -> u8 {
        match self {
            GFSKPacketHeaderType::Fixed => 0x00,
            GFSKPacketHeaderType::Variable => 0x01,
        }
    }

    /// The byte that selects this header type.
    pub fn as_u8(&self) -> (r: u8)
        ensures
            r == self.code(),
    {
        match self {
            GFSKPacketHeaderType::Fixed => 0x00,
            GFSKPacketHeaderType::Variable => 0x01,
        }
    }
}


/// When the byte HeaderType is at 0x00, the payload length, coding rate and the header CRC are
/// added to the LoRa header and transported to the receiver.
///
/// The radio's code for each variant is `as_u8()` (in specifications, `code()`);
/// a cast `as u8` gives the variant's position in the declaration instead.
#[derive(Debug, Clone)]
pub enum LoraPacketHeaderType {
    /// The packet length is known on both sides, the size of the payload is not added to the
    /// packet
    ///
    /// also called explicit
    Fixed,
    /// The packet is of variable size, the first byte of the payload is the size of the packet
    ///
    /// also called implicit
    Variable,
}

impl LoraPacketHeaderType {
    /// The byte that selects this header type.
    pub open spec fn code(self) -> u8 {
        match self {
            LoraPacketHeaderType::Fixed => 0x01,
            LoraPacketHeaderType::Variable => 0x00,
        }
    }

    /// The byte that selects this header type.
    pub fn as_u8(&self) -> (r: u8)
        ensures
            r == self.code(),
    {
        match self {
            LoraPacketHeaderType::Fixed => 0x01,
            LoraPacketHeaderType::Variable => 0x00,
        }
    }
}


/// In the SX1261/2, the CRC can be fully configured and the polynomial used, and the initial
/// values can be entered directly via register access.
///
/// The radio's code for each variant is `as_u8()` (in specifications, `code()`);
/// a cast `as u8` gives the variant's position in the declaration instead.
#[derive(Debug, Clone)]
pub enum CrcType {
    /// No CRC
    CrcOff,
    /// CRC computed on 1 byte
    Crc1Byte,
    /// CRC computed on 2 byte
    Crc2Byte,
    /// CRC computed on 1 byte and inverted
    Crc1ByteInv,
    /// CRC computed on 2 byte and inverted
    Crc2ByteInv,
}

impl CrcType {
    /// The byte that selects this CRC type.
    pub open spec fn code(self) -> u8 {
        match self {
            CrcType::CrcOff => 0x01,
            CrcType::Crc1Byte => 0x00,
            CrcType::Crc2Byte => 0x02,
            CrcType::Crc1ByteInv => 0x04,
            CrcType::Crc2ByteInv => 0x06,
        }
    }

    /// The byte that selects this CRC type.
    pub fn as_u8(&self) -> (r: u8)
        ensures
            r == self.code(),
    {
        match self {
            CrcType::CrcOff => 0x01,
            CrcType::Crc1Byte => 0x00,
            CrcType::Crc2Byte => 0x02,
            CrcType::Crc1ByteInv => 0x04,
            CrcType::Crc2ByteInv => 0x06,
        }
    }
}


/// GFSK Mode Packet Parameters
#[derive(Debug, Clone)]
pub struct GFSKPacketParams {
    /// Preamble length in bits
    ///
    /// The preamble length is a 16-bit value which represents the number of bytes which are sent
    /// by the radio. Each preamble byte represents an alternating 0 and 1, and each preamble byte
    /// is coded as 0x55, so 0b01010101.
    pub preamble_length: u16,
    /// Preamble detector length
    pub preamble_detector_length: PreambleDetectorLength,
    /// The Sync Word is directly programmed into the device through simple register acceess. This
    /// parameter describes the Sync Word length in bits (from 0 to 8 bytes)
    pub sync_word_length: u8,
    /// Address filtering
    pub address_filtering: AddressFiltering,
    /// Packet type
    pub packet_type: GFSKPacketHeaderType,
    /// Size of the payload (in bytes) to transmit or maximum size of the payload that the receiver
    /// can accept
    pub payload_length: u8,
    /// CRC type
    pub crc_type: CrcType,
    /// Whitening enable
    pub whitening_enable: bool,
}

impl GFSKPacketParams {
    /// The preamble length (big-endian), then preamble detector length, sync word
    /// length, address filtering, header type, payload length, CRC type and
    /// whitening flag, one byte each.
    pub open spec fn wire(self) -> Seq<u8> {
        be_u16(self.preamble_length) + seq![
            self.preamble_detector_length.code(),
            self.sync_word_length,
            self.address_filtering.code(),
            self.packet_type.code(),
            self.payload_length,
            self.crc_type.code(),
            flag_byte(self.whitening_enable),
        ]
    }

    /// Serializes the GFSK packet parameters into the nine bytes of `wire`.
    pub fn to_bytes(self) -> (r: Result<[u8; 9], Infallible>)
        ensures
            r is Ok,
            r->Ok_0@ == self.wire(),
    {
        let p = match u16_param_bytes(self.preamble_length) {
            Ok(p) => p,
            Err(e) => return Err(e),
        };
        let bytes = [
            p[0],
            p[1],
            self.preamble_detector_length.as_u8(),
            self.sync_word_length,
            self.address_filtering.as_u8(),
            self.packet_type.as_u8(),
            self.payload_length,
            self.crc_type.as_u8(),
            flag_to_u8(self.whitening_enable),
        ];
        assert(bytes@ =~= self.wire());
        Ok(bytes)
    }
}

/// LoRa Mode Packet Parameters
#[derive(Debug, Clone)]
pub struct LoRaPacketParams {
    /// Preamble length in symbols
    ///
    /// The preamble length is a 16-bit value which represents the number of LoRa symbols which are
    /// sent by the radio.
    pub preamble_length: u16,
    /// Header type
    pub header_type: LoraPacketHeaderType,
    /// Payload length
    pub payload_length: u8,
    /// CRC enable
    pub crc_enable: bool,
    /// IQ inversion enable
    pub iq_inversion_enable: bool,
}

impl LoRaPacketParams {
    /// The preamble length (big-endian), then header type, payload length, CRC flag
    /// and IQ inversion flag, one byte each, then three zero bytes.
    pub open spec fn wire(self) -> Seq<u8> {
        be_u16(self.preamble_length) + seq![
            self.header_type.code(),
            self.payload_length,
            flag_byte(self.crc_enable),
            flag_byte(self.iq_inversion_enable),
            0u8,
            0u8,
            0u8,
        ]
    }

    /// Serializes the LoRa packet parameters into the nine bytes of `wire`.
    pub fn to_bytes(self) -> (r: Result<[u8; 9], Infallible>)
        ensures
            r is Ok,
            r->Ok_0@ == self.wire(),
    {
        let p = match u16_param_bytes(self.preamble_length) {
            Ok(p) => p,
            Err(e) => return Err(e),
        };
        let bytes = [
            p[0],
            p[1],
            self.header_type.as_u8(),
            self.payload_length,
            flag_to_u8(self.crc_enable),
            flag_to_u8(self.iq_inversion_enable),
            0,
            0,
            0,
        ];
        assert(bytes@ =~= self.wire());
        Ok(bytes)
    }
}

/// SetPacketParams command (0x8C)
///
/// Configures the packet parameters for the selected packet type.
/// Must be called after SetModulationParams.
///
/// # Important Notes
/// - Parameters interpretation depends on packet type
/// - For GFSK with address filtering, max payload is 254 bytes
/// - For LoRa implicit header, payload length must match on TX/RX
/// - Preamble detector length must be shorter than sync word
#[derive(Debug, Clone)]
pub struct SetPacketParams {
    /// Packet parameters
    pub params: PacketParams,
}

impl SetPacketParams {
    /// The opcode of the command.
    pub open spec fn opcode() -> u8 {
        0x8C
    }

    /// The command's opcode.
    pub fn id() -> (r: u8)
        ensures
            r == Self::opcode(),
    {
        0x8C
    }

    /// The parameters sent with the command.
    pub fn invoking_parameters(self) -> (r: PacketParams)
        ensures
            r == self.params,
    {
        self.params
    }
}

/// Channel Activity Detection (CAD) parameters
/// LoRa mode only
#[derive(Debug, Clone, Copy)]
pub struct CadParams {
    /// Number of symbols for CAD detection (0=1, 1=2, 2=4, 3=8, 4=16)
    pub cad_symbol_num: u8,
    /// Detection peak threshold
    pub cad_detect_peak: u8,
    /// Detection minimum threshold
    pub cad_detect_min: u8,
    /// Exit mode (0=CAD only, 1=CAD + RX)
    pub cad_exit_mode: u8,
    /// Timeout in 15.625μs steps (CAD_RX mode only)
    pub cad_timeout: u32,
}

impl CadParams {
    /// Symbol count, detection peak, detection minimum and exit mode, one byte
    /// each, then the timeout as four big-endian bytes.
    pub open spec fn wire(self) -> Seq<u8> {
        seq![self.cad_symbol_num, self.cad_detect_peak, self.cad_detect_min, self.cad_exit_mode]
            + be_u32(self.cad_timeout)
    }

    /// Serializes the CAD parameters into the eight bytes of `wire`.
    pub fn to_bytes(self) -> (r: Result<[u8; 8], Infallible>)
        ensures
            r is Ok,
            r->Ok_0@ == self.wire(),
    {
        let t = u32_to_be(self.cad_timeout);
        let bytes = [
            self.cad_symbol_num,
            self.cad_detect_peak,
            self.cad_detect_min,
            self.cad_exit_mode,
            t[0],
            t[1],
            t[2],
            t[3],
        ];
        assert(bytes@ =~= self.wire());
        Ok(bytes)
    }
}

/// SetCadParams command (0x88)
///
/// Configures the Channel Activity Detection parameters.
/// Only available in LoRa packet type.
///
/// # Important Notes
/// - CAD can detect both preamble and data symbols
/// - Detection thresholds depend on SF/BW and symbol count
/// - In CAD_RX mode, device stays in RX if activity detected
#[derive(Debug, Clone)]
pub struct SetCadParams {
    /// CAD parameters
    pub params: CadParams,
}

impl SetCadParams {
    /// The opcode of the command.
    pub open spec fn opcode() -> u8 {
        0x88
    }

    /// The command's opcode.
    pub fn id() -> (r: u8)
        ensures
            r == Self::opcode(),
    {
        0x88
    }

    /// The parameters sent with the command.
    pub fn invoking_parameters(self) -> (r: CadParams)
        ensures
            r == self.params,
    {
        self.params
    }
}

/// Buffer base addresses configuration
#[derive(Debug, Clone, Copy)]
pub struct BufferBaseAddressConfig {
    /// TX base address in data buffer (0-255)
    pub tx_base_addr: u8,
    /// RX base address in data buffer (0-255)
    pub rx_base_addr: u8,
}

impl BufferBaseAddressConfig {
    /// The TX base address, then the RX base address.
    pub open spec fn wire(self) -> Seq<u8> {
        seq![self.tx_base_addr, self.rx_base_addr]
    }

    /// Serializes the two base addresses, TX first.
    pub fn to_bytes(self) -> (r: Result<[u8; 2], Infallible>)
        ensures
            r is Ok,
            r->Ok_0@ == self.wire(),
    {
        let bytes = [self.tx_base_addr, self.rx_base_addr];
        assert(bytes@ =~= self.wire());
        Ok(bytes)
    }
}

/// SetBufferBaseAddress command (0x8F)
///
/// Sets the base addresses for TX and RX data in the 256-byte data buffer.
///
/// # Important Notes
/// - Buffer is cleared in Sleep mode
/// - In RX, if packet exceeds allocated space it can overwrite TX area
/// - Base addresses can be anywhere in 0-255 range
#[derive(Debug, Clone)]
pub struct SetBufferBaseAddress {
    /// Buffer base addresses configuration
    pub config: BufferBaseAddressConfig,
}

impl SetBufferBaseAddress {
    /// The opcode of the command.
    pub open spec fn opcode() -> u8 {
        0x8F
    }

    /// The command's opcode.
    pub fn id() -> (r: u8)
        ensures
            r == Self::opcode(),
    {
        0x8F
    }

    /// The parameters sent with the command.
    pub fn invoking_parameters(self) -> (r: BufferBaseAddressConfig)
        ensures
            r == self.config,
    {
        self.config
    }
}

/// LoRa symbol number timeout configuration
#[derive(Debug, Clone, Copy)]
pub struct LoRaSymbNumTimeout {
    /// Number of symbols to validate reception
    /// 0 = Validate on first symbol
    /// 1-255 = Wait for specified symbols before timeout
    pub symb_num: u8,
}

impl LoRaSymbNumTimeout {
    /// The symbol count, as one byte.
    pub open spec fn wire(self) -> Seq<u8> {
        seq![self.symb_num]
    }

    /// Serializes the symbol count as one byte.
    pub fn to_bytes(self) -> (r: Result<[u8; 1], Infallible>)
        ensures
            r is Ok,
            r->Ok_0@ == self.wire(),
    {
        let bytes = [self.symb_num];
        assert(bytes@ =~= self.wire());
        Ok(bytes)
    }
}

/// SetLoRaSymbNumTimeout command (0xA0)
///
/// Sets the number of symbols to wait for valid LoRa reception.
/// Used to avoid false detection on noise.
///
/// # Important Notes
/// - Only available in LoRa packet type
/// - 0 = Accept first symbol detection
/// - >0 = Wait for specified symbols before timeout
/// - Helps prevent false detections in noisy environments
#[derive(Debug, Clone)]
pub struct SetLoRaSymbNumTimeout {
    /// LoRa symbol timeout configuration
    pub config: LoRaSymbNumTimeout,
}

impl SetLoRaSymbNumTimeout {
    /// The opcode of the command.
    pub open spec fn opcode() -> u8 {
        0xA0
    }

    /// The command's opcode.
    pub fn id() -> (r: u8)
        ensures
            r == Self::opcode(),
    {
        0xA0
    }

    /// The parameters sent with the command.
    pub fn invoking_parameters(self) -> (r: LoRaSymbNumTimeout)
        ensures
            r == self.config,
    {
        self.config
    }
}

} // verus!
