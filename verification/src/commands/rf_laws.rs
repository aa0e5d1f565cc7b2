//! Properties that hold of the RF command encodings as a whole: every setting has
//! its own code, serialization loses nothing that the radio is told, numbers read
//! back from their bytes, and the commands do not share opcodes.
use super::rf::{
    bit_rate_register, pll_register, power_byte, AddressFiltering, BufferBaseAddressConfig, CadParams,
    CodingRate, CrcType, GFSKPacketHeaderType, GFSKPacketParams, GetPacketType, GfskBandwidth,
    GfskModParams, GfskPulseShape, LoRaBandwidth, LoRaModParams, LoRaPacketParams,
    LoRaSymbNumTimeout, LoraPacketHeaderType, ModulationParams, PacketType,
    PreambleDetectorLength, RampTime, RfFrequencyConfig, SetBufferBaseAddress, SetCadParams,
    SetLoRaSymbNumTimeout, SetModulationParams, SetPacketParams, SetPacketType, SetRfFrequency,
    SetTxParams, SpreadingFactor, TxParams, PLL_SCALE, XTAL_FREQ_HZ,
};
use crate::byte_order::{be_low24, be_u16, be_u32, be_value, lemma_be_low24_value, lemma_be_u16_value, lemma_be_u32_value};
use vstd::prelude::*;

verus! {

/// Each packet type has a code of its own: two packet types with the same code are the same.
pub proof fn lemma_packet_type_codes_distinct(a: PacketType, b: PacketType)
    ensures
        a.code() == b.code() ==> a == b,
{
}

/// Each ramp time has a code of its own: two ramp times with the same code are the same.
pub proof fn lemma_ramp_time_codes_distinct(a: RampTime, b: RampTime)
    ensures
        a.code() == b.code() ==> a == b,
{
}

/// Each pulse shape has a code of its own: two pulse shapes with the same code are the same.
pub proof fn lemma_gfsk_pulse_shape_codes_distinct(a: GfskPulseShape, b: GfskPulseShape)
    ensures
        a.code() == b.code() ==> a == b,
{
}

/// Each receiver bandwidth has a code of its own: two receiver bandwidths with the same code are the same.
pub proof fn lemma_gfsk_bandwidth_codes_distinct(a: GfskBandwidth, b: GfskBandwidth)
    ensures
        a.code() == b.code() ==> a == b,
{
}

/// Each spreading factor has a code of its own: two spreading factors with the same code are the same.
pub proof fn lemma_spreading_factor_codes_distinct(a: SpreadingFactor, b: SpreadingFactor)
    ensures
        a.code() == b.code() ==> a == b,
{
}

/// Each LoRa bandwidth has a code of its own: two LoRa bandwidths with the same code are the same.
pub proof fn lemma_lora_bandwidth_codes_distinct(a: LoRaBandwidth, b: LoRaBandwidth)
    ensures
        a.code() == b.code() ==> a == b,
{
}

/// Each coding rate has a code of its own: two coding rates with the same code are the same.
pub proof fn lemma_coding_rate_codes_distinct(a: CodingRate, b: CodingRate)
    ensures
        a.code() == b.code() ==> a == b,
{
}

/// Each preamble detector length has a code of its own: two preamble detector lengths with the same code are the same.
pub proof fn lemma_preamble_detector_length_codes_distinct(a: PreambleDetectorLength, b: PreambleDetectorLength)
    ensures
        a.code() == b.code() ==> a == b,
{
}

/// Each address filtering mode has a code of its own: two address filtering modes with the same code are the same.
pub proof fn lemma_address_filtering_codes_distinct(a: AddressFiltering, b: AddressFiltering)
    ensures
        a.code() == b.code() ==> a == b,
{
}

/// Each GFSK header type has a code of its own: two GFSK header types with the same code are the same.
pub proof fn lemma_gfsk_packet_header_type_codes_distinct(a: GFSKPacketHeaderType, b: GFSKPacketHeaderType)
    ensures
        a.code() == b.code() ==> a == b,
{
}

/// Each LoRa header type has a code of its own: two LoRa header types with the same code are the same.
pub proof fn lemma_lora_packet_header_type_codes_distinct(a: LoraPacketHeaderType, b: LoraPacketHeaderType)
    ensures
        a.code() == b.code() ==> a == b,
{
}

/// Each CRC type has a code of its own: two CRC types with the same code are the same.
pub proof fn lemma_crc_type_codes_distinct(a: CrcType, b: CrcType)
    ensures
        a.code() == b.code() ==> a == b,
{
}

/// Reading back the code of a packet type gives that packet type.
pub proof fn lemma_packet_type_roundtrip(p: PacketType)
    ensures
        PacketType::decode(p.code()) == p,
{
}

/// A response byte is the code of the packet type it reads as exactly when it is
/// 0x00, 0x01 or 0x03; any other byte reads as LoRa.
pub proof fn lemma_packet_type_decode_code(b: u8)
    ensures
        PacketType::decode(b).code() == b <==> (b == 0x00 || b == 0x01 || b == 0x03),
        !(b == 0x00 || b == 0x01 || b == 0x03) ==> PacketType::decode(b) == PacketType::LoRa,
{
}

/// The opcodes of the RF commands, in the order in which they are declared.
pub open spec fn rf_opcodes() -> Seq<u8> {
    seq![
        SetRfFrequency::opcode(),
        SetPacketType::opcode(),
        GetPacketType::opcode(),
        SetTxParams::opcode(),
        SetModulationParams::opcode(),
        SetPacketParams::opcode(),
        SetCadParams::opcode(),
        SetBufferBaseAddress::opcode(),
        SetLoRaSymbNumTimeout::opcode(),
    ]
}

/// No two RF commands share an opcode.
pub proof fn lemma_rf_opcodes_distinct()
    ensures
        rf_opcodes().no_duplicates(),
{
    let s = rf_opcodes();
    assert forall|i: int, j: int| 0 <= i < s.len() && 0 <= j < s.len() && i != j implies s[i]
        != s[j] by {
        assert(s[0] == 0x86u8 && s[1] == 0x8Au8 && s[2] == 0x11u8 && s[3] == 0x8Eu8 && s[4]
            == 0x8Bu8 && s[5] == 0x8Cu8 && s[6] == 0x88u8 && s[7] == 0x8Fu8 && s[8] == 0xA0u8);
    }
}

/// Two big-endian pairs of bytes are equal only when the values they encode are.
pub proof fn lemma_be_u16_injective(a: u16, b: u16)
    ensures
        be_u16(a) == be_u16(b) ==> a == b,
{
    lemma_be_u16_value(a);
    lemma_be_u16_value(b);
}

/// Two big-endian quadruples of bytes are equal only when the values they encode are.
pub proof fn lemma_be_u32_injective(a: u32, b: u32)
    ensures
        be_u32(a) == be_u32(b) ==> a == b,
{
    lemma_be_u32_value(a);
    lemma_be_u32_value(b);
}

/// The power byte is the two's complement of the power: distinct powers give
/// distinct bytes, and the byte read as a signed number is the power again.
pub proof fn lemma_power_byte(p: i8, q: i8)
    ensures
        (if power_byte(p) < 128 { power_byte(p) as int } else { power_byte(p) - 256 }) == p,
        power_byte(p) == power_byte(q) ==> p == q,
{
}

/// The four bytes sent with SetRfFrequency read back as the PLL register value.
pub proof fn lemma_rf_frequency_bytes_value(c: RfFrequencyConfig)
    ensures
        be_value(c.wire()) == pll_register(c.frequency),
{
    lemma_be_u32_value(pll_register(c.frequency));
}

/// Frequencies below 4.096 GHz do not wrap: the register is `hz * 2^25 / FXTAL`
/// rounded down, which fits in 32 bits.
pub proof fn lemma_pll_register_no_wrap(hz: u32)
    requires
        hz < 4_096_000_000,
    ensures
        pll_register(hz) == hz as int * PLL_SCALE as int / XTAL_FREQ_HZ as int,
        pll_register(hz) as int * XTAL_FREQ_HZ as int <= hz as int * PLL_SCALE as int,
        hz as int * (PLL_SCALE as int) < (pll_register(hz) as int + 1) * (XTAL_FREQ_HZ as int),
{
    let a = hz as int * 33_554_432;
    assert(a < 0x1_0000_0000 * 32_000_000);
    assert(a / 32_000_000 < 0x1_0000_0000) by (nonlinear_arith)
        requires
            a < 0x1_0000_0000 * 32_000_000,
            0 <= a,
    ;
    assert(a / 32_000_000 * 32_000_000 <= a && a < (a / 32_000_000 + 1) * 32_000_000)
        by (nonlinear_arith)
        requires
            0 <= a,
    ;
}

/// Below 4.096 GHz a higher frequency always gives a higher register value: the PLL
/// step, FXTAL / 2^25 (about 0.95 Hz), is finer than one hertz, so distinct
/// frequencies are told apart.
pub proof fn lemma_pll_register_strictly_increasing(f1: u32, f2: u32)
    requires
        f1 < f2 < 4_096_000_000,
    ensures
        pll_register(f1) < pll_register(f2),
{
    lemma_pll_register_no_wrap(f1);
    lemma_pll_register_no_wrap(f2);
    let a = f1 as int * 33_554_432;
    let b = f2 as int * 33_554_432;
    assert(b >= a + 33_554_432);
    assert(a / 32_000_000 < b / 32_000_000) by (nonlinear_arith)
        requires
            0 <= a,
            b >= a + 32_000_000,
    ;
}

/// Within the radio's range, distinct frequencies are sent as distinct bytes.
pub proof fn lemma_rf_frequency_injective(a: RfFrequencyConfig, b: RfFrequencyConfig)
    requires
        a.frequency < 4_096_000_000,
        b.frequency < 4_096_000_000,
    ensures
        a.wire() == b.wire() ==> a == b,
{
    lemma_be_u32_injective(pll_register(a.frequency), pll_register(b.frequency));
    if a.frequency < b.frequency {
        lemma_pll_register_strictly_increasing(a.frequency, b.frequency);
    } else if b.frequency < a.frequency {
        lemma_pll_register_strictly_increasing(b.frequency, a.frequency);
    }
}

/// The TX parameters are recovered from their two bytes.
pub proof fn lemma_tx_params_injective(a: TxParams, b: TxParams)
    ensures
        a.wire() == b.wire() ==> a == b,
{
    if a.wire() == b.wire() {
        assert(a.wire()[0] == b.wire()[0] && a.wire()[1] == b.wire()[1]);
        lemma_power_byte(a.power, b.power);
        lemma_ramp_time_codes_distinct(a.ramp_time, b.ramp_time);
    }
}

/// The first three GFSK modulation bytes read back as the low 24 bits of the bit
/// rate register, and the last three as the low 24 bits of the frequency deviation
/// register; the pulse shape and bandwidth are recovered from the two bytes between.
pub proof fn lemma_gfsk_modulation_bytes(p: GfskModParams, q: GfskModParams)
    requires
        p.bit_rate != 0,
    ensures
        be_value(ModulationParams::Gfsk(p).wire().subrange(0, 3)) == bit_rate_register(
            p.bit_rate,
        ) % 0x100_0000,
        be_value(ModulationParams::Gfsk(p).wire().subrange(5, 8)) == pll_register(
            p.freq_deviation,
        ) % 0x100_0000,
        ModulationParams::Gfsk(p).wire() == ModulationParams::Gfsk(q).wire() ==> p.pulse_shape
            == q.pulse_shape && p.bandwidth == q.bandwidth,
{
    let w = ModulationParams::Gfsk(p).wire();
    assert(w.subrange(0, 3) =~= be_low24(bit_rate_register(p.bit_rate)));
    assert(w.subrange(5, 8) =~= be_low24(pll_register(p.freq_deviation)));
    lemma_be_low24_value(bit_rate_register(p.bit_rate));
    lemma_be_low24_value(pll_register(p.freq_deviation));
    if w == ModulationParams::Gfsk(q).wire() {
        assert(w[3] == ModulationParams::Gfsk(q).wire()[3]);
        assert(w[4] == ModulationParams::Gfsk(q).wire()[4]);
        lemma_gfsk_pulse_shape_codes_distinct(p.pulse_shape, q.pulse_shape);
        lemma_gfsk_bandwidth_codes_distinct(p.bandwidth, q.bandwidth);
    }
}

/// The LoRa modulation parameters are recovered from their eight bytes.
pub proof fn lemma_lora_modulation_injective(p: LoRaModParams, q: LoRaModParams)
    ensures
        ModulationParams::LoRa(p).wire() == ModulationParams::LoRa(q).wire() ==> p == q,
{
    let w = ModulationParams::LoRa(p).wire();
    let v = ModulationParams::LoRa(q).wire();
    if w == v {
        assert(w[0] == v[0] && w[1] == v[1] && w[2] == v[2] && w[3] == v[3]);
        lemma_spreading_factor_codes_distinct(p.spreading_factor, q.spreading_factor);
        lemma_lora_bandwidth_codes_distinct(p.bandwidth, q.bandwidth);
        lemma_coding_rate_codes_distinct(p.coding_rate, q.coding_rate);
    }
}

/// The GFSK packet parameters are recovered from their nine bytes.
pub proof fn lemma_gfsk_packet_params_injective(a: GFSKPacketParams, b: GFSKPacketParams)
    ensures
        a.wire() == b.wire() ==> a == b,
{
    let w = a.wire();
    let v = b.wire();
    if w == v {
        assert(w.subrange(0, 2) =~= be_u16(a.preamble_length));
        assert(v.subrange(0, 2) =~= be_u16(b.preamble_length));
        lemma_be_u16_injective(a.preamble_length, b.preamble_length);
        assert(w[2] == v[2] && w[3] == v[3] && w[4] == v[4] && w[5] == v[5] && w[6] == v[6]
            && w[7] == v[7] && w[8] == v[8]);
        lemma_preamble_detector_length_codes_distinct(
            a.preamble_detector_length,
            b.preamble_detector_length,
        );
        lemma_address_filtering_codes_distinct(a.address_filtering, b.address_filtering);
        lemma_gfsk_packet_header_type_codes_distinct(a.packet_type, b.packet_type);
        lemma_crc_type_codes_distinct(a.crc_type, b.crc_type);
    }
}

/// The LoRa packet parameters are recovered from their nine bytes.
pub proof fn lemma_lora_packet_params_injective(a: LoRaPacketParams, b: LoRaPacketParams)
    ensures
        a.wire() == b.wire() ==> a == b,
{
    let w = a.wire();
    let v = b.wire();
    if w == v {
        assert(w.subrange(0, 2) =~= be_u16(a.preamble_length));
        assert(v.subrange(0, 2) =~= be_u16(b.preamble_length));
        lemma_be_u16_injective(a.preamble_length, b.preamble_length);
        assert(w[2] == v[2] && w[3] == v[3] && w[4] == v[4] && w[5] == v[5]);
        lemma_lora_packet_header_type_codes_distinct(a.header_type, b.header_type);
    }
}

/// The CAD parameters are recovered from their eight bytes, and the last four read
/// back as the timeout.
pub proof fn lemma_cad_params(a: CadParams, b: CadParams)
    ensures
        be_value(a.wire().subrange(4, 8)) == a.cad_timeout,
        a.wire() == b.wire() ==> a == b,
{
    let w = a.wire();
    let v = b.wire();
    assert(w.subrange(4, 8) =~= be_u32(a.cad_timeout));
    assert(v.subrange(4, 8) =~= be_u32(b.cad_timeout));
    lemma_be_u32_value(a.cad_timeout);
    if w == v {
        lemma_be_u32_injective(a.cad_timeout, b.cad_timeout);
        assert(w[0] == v[0] && w[1] == v[1] && w[2] == v[2] && w[3] == v[3]);
    }
}

/// The buffer base addresses are recovered from their two bytes.
pub proof fn lemma_buffer_base_address_injective(a: BufferBaseAddressConfig, b: BufferBaseAddressConfig)
    ensures
        a.wire() == b.wire() ==> a == b,
{
    if a.wire() == b.wire() {
        assert(a.wire()[0] == b.wire()[0] && a.wire()[1] == b.wire()[1]);
    }
}

/// The symbol count is recovered from its byte.
pub proof fn lemma_symb_num_timeout_injective(a: LoRaSymbNumTimeout, b: LoRaSymbNumTimeout)
    ensures
        a.wire() == b.wire() ==> a == b,
{
    if a.wire() == b.wire() {
        assert(a.wire()[0] == b.wire()[0]);
    }
}

} // verus!
