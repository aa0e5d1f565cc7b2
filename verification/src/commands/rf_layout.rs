//! The byte layout of each RF command's parameters, as the radio's datasheet gives it.
//!
//! Each law here says, for every value of a parameter type, what each byte that it is
//! sent as stands for, with the radio's codes written out per variant and numbers given
//! by the arithmetic that the radio applies to them.
use super::rf::{
    AddressFiltering, BufferBaseAddressConfig, CadParams, CodingRate, CrcType,
    GFSKPacketHeaderType, GFSKPacketParams, GfskBandwidth, GfskModParams, GfskPulseShape,
    LoRaBandwidth, LoRaModParams, LoRaPacketParams, LoRaSymbNumTimeout, LoraPacketHeaderType,
    ModulationParams, PacketParams, PacketType, PreambleDetectorLength, RampTime,
    RfFrequencyConfig, SetBufferBaseAddress, SetCadParams, SetLoRaSymbNumTimeout,
    SetModulationParams, SetPacketParams, SetPacketType, SetRfFrequency, SetTxParams,
    SpreadingFactor, TxParams, GetPacketType,
};
use crate::byte_order::{
    be_low24, be_u16, be_u32, be_value, lemma_be_low24_value, lemma_be_u16_value,
    lemma_be_u32_value,
};
use vstd::prelude::*;

verus! {

/// The frequency is sent as four bytes that, read most significant first, give
/// `frequency * 2^25 / 32 MHz` rounded down, modulo 2^32.
pub proof fn lemma_rf_frequency_layout(c: RfFrequencyConfig)
    ensures
        c.wire().len() == 4,
        be_value(c.wire()) == (c.frequency as int * 33_554_432 / 32_000_000) % 0x1_0000_0000,
{
    let x = c.frequency as int * 33_554_432 / 32_000_000;
    assert(0 <= x % 0x1_0000_0000 < 0x1_0000_0000);
    lemma_be_u32_value((x % 0x1_0000_0000) as u32);
}

/// The packet types are sent as GFSK 0x00, LoRa 0x01, LR-FHSS 0x03, and a response
/// byte reads back as the packet type sent with it; any other byte reads as LoRa.
pub proof fn lemma_packet_type_layout(p: PacketType, b: u8)
    ensures
        p.wire() == seq![
            match p {
                PacketType::Gfsk => 0x00u8,
                PacketType::LoRa => 0x01u8,
                PacketType::LrFhss => 0x03u8,
            },
        ],
        PacketType::decode(p.wire()[0]) == p,
        (b == 0x00 || b == 0x01 || b == 0x03) ==> PacketType::decode(b).wire() == seq![b],
        !(b == 0x00 || b == 0x01 || b == 0x03) ==> PacketType::decode(b) == PacketType::LoRa,
{
}

/// The power is sent as a byte that, read as a signed number, is the power in dBm;
/// the ramp time follows as its datasheet code, 0x00 for 10 µs up to 0x07 for 3400 µs.
pub proof fn lemma_tx_params_layout(p: TxParams)
    ensures
        p.wire().len() == 2,
        (if p.wire()[0] < 128 {
            p.wire()[0] as int
        } else {
            p.wire()[0] - 256
        }) == p.power,
        p.wire()[1] == match p.ramp_time {
            RampTime::Micros10 => 0x00u8,
            RampTime::Micros20 => 0x01u8,
            RampTime::Micros40 => 0x02u8,
            RampTime::Micros80 => 0x03u8,
            RampTime::Micros200 => 0x04u8,
            RampTime::Micros800 => 0x05u8,
            RampTime::Micros1700 => 0x06u8,
            RampTime::Micros3400 => 0x07u8,
        },
{
}

/// GFSK modulation is sent as eight bytes: the bit rate register `32 * 32 MHz / bit_rate`
/// (low 24 bits, most significant first), the pulse shape code, the receiver bandwidth
/// code, then the frequency deviation register `deviation * 2^25 / 32 MHz` (low 24
/// bits, most significant first).
pub proof fn lemma_gfsk_modulation_layout(p: GfskModParams)
    requires
        p.bit_rate != 0,
    ensures
        ({
            let w = ModulationParams::Gfsk(p).wire();
            &&& w.len() == 8
            &&& be_value(w.subrange(0, 3)) == (1_024_000_000int / p.bit_rate as int) % 0x100_0000
            &&& w[3] == match p.pulse_shape {
                GfskPulseShape::NoFilter => 0x00u8,
                GfskPulseShape::Bt03 => 0x08u8,
                GfskPulseShape::Bt05 => 0x09u8,
                GfskPulseShape::Bt07 => 0x0Au8,
                GfskPulseShape::Bt1 => 0x0Bu8,
            }
            &&& w[4] == match p.bandwidth {
                GfskBandwidth::Bw48 => 0x1Fu8,
                GfskBandwidth::Bw58 => 0x17u8,
                GfskBandwidth::Bw73 => 0x0Fu8,
                GfskBandwidth::Bw97 => 0x1Eu8,
                GfskBandwidth::Bw117 => 0x16u8,
                GfskBandwidth::Bw146 => 0x0Eu8,
                GfskBandwidth::Bw195 => 0x1Du8,
                GfskBandwidth::Bw234 => 0x15u8,
                GfskBandwidth::Bw293 => 0x0Du8,
                GfskBandwidth::Bw39 => 0x1Cu8,
                GfskBandwidth::Bw469 => 0x14u8,
                GfskBandwidth::Bw586 => 0x0Cu8,
                GfskBandwidth::Bw782 => 0x1Bu8,
                GfskBandwidth::Bw938 => 0x13u8,
                GfskBandwidth::Bw1173 => 0x0Bu8,
                GfskBandwidth::Bw1562 => 0x1Au8,
                GfskBandwidth::Bw1872 => 0x12u8,
                GfskBandwidth::Bw2323 => 0x0Au8,
                GfskBandwidth::Bw3120 => 0x19u8,
                GfskBandwidth::Bw3736 => 0x11u8,
                GfskBandwidth::Bw4670 => 0x09u8,
            }
            &&& be_value(w.subrange(5, 8)) == (p.freq_deviation as int * 33_554_432 / 32_000_000)
                % 0x100_0000
        }),
{
    let w = ModulationParams::Gfsk(p).wire();
    let br = 1_024_000_000int / p.bit_rate as int;
    let fd = p.freq_deviation as int * 33_554_432 / 32_000_000;
    assert(0 <= br <= 1_024_000_000);
    assert(w.subrange(0, 3) =~= be_low24(br as u32));
    lemma_be_low24_value(br as u32);
    assert(w.subrange(5, 8) =~= be_low24((fd % 0x1_0000_0000) as u32));
    lemma_be_low24_value((fd % 0x1_0000_0000) as u32);
    assert((fd % 0x1_0000_0000) % 0x100_0000 == fd % 0x100_0000) by (nonlinear_arith)
        requires
            fd >= 0,
    ;
}

/// LoRa modulation is sent as eight bytes: the spreading factor's number (SFn as n),
/// the bandwidth code, the coding rate code (4/5 as 1 up to 4/8 as 4), the low data
/// rate flag (1 when set), then four zero bytes.
pub proof fn lemma_lora_modulation_layout(p: LoRaModParams)
    ensures
        ({
            let w = ModulationParams::LoRa(p).wire();
            &&& w.len() == 8
            &&& w[0] == match p.spreading_factor {
                SpreadingFactor::SF5 => 5u8,
                SpreadingFactor::SF6 => 6u8,
                SpreadingFactor::SF7 => 7u8,
                SpreadingFactor::SF8 => 8u8,
                SpreadingFactor::SF9 => 9u8,
                SpreadingFactor::SF10 => 10u8,
                SpreadingFactor::SF11 => 11u8,
                SpreadingFactor::SF12 => 12u8,
            }
            &&& w[1] == match p.bandwidth {
                LoRaBandwidth::Bw7 => 0x00u8,
                LoRaBandwidth::Bw10 => 0x08u8,
                LoRaBandwidth::Bw15 => 0x01u8,
                LoRaBandwidth::Bw20 => 0x09u8,
                LoRaBandwidth::Bw31 => 0x02u8,
                LoRaBandwidth::Bw41 => 0x0Au8,
                LoRaBandwidth::Bw62 => 0x03u8,
                LoRaBandwidth::Bw125 => 0x04u8,
                LoRaBandwidth::Bw250 => 0x05u8,
                LoRaBandwidth::Bw500 => 0x06u8,
            }
            &&& w[2] == match p.coding_rate {
                CodingRate::Cr45 => 0x01u8,
                CodingRate::Cr46 => 0x02u8,
                CodingRate::Cr47 => 0x03u8,
                CodingRate::Cr48 => 0x04u8,
            }
            &&& w[3] == (if p.low_data_rate_opt {
                1u8
            } else {
                0u8
            })
            &&& w[4] == 0 && w[5] == 0 && w[6] == 0 && w[7] == 0
        }),
{
}

/// GFSK packet parameters are sent as nine bytes: the preamble length (two bytes, most
/// significant first), the preamble detector code, the sync word length, the address
/// filtering code, the header type (fixed 0x00, variable 0x01), the payload length, the
/// CRC type code and the whitening flag (1 when set).
pub proof fn lemma_gfsk_packet_params_layout(p: GFSKPacketParams)
    ensures
        ({
            let w = p.wire();
            &&& w.len() == 9
            &&& be_value(w.subrange(0, 2)) == p.preamble_length
            &&& w[2] == match p.preamble_detector_length {
                PreambleDetectorLength::Off => 0x00u8,
                PreambleDetectorLength::Bits8 => 0x04u8,
                PreambleDetectorLength::Bits16 => 0x05u8,
                PreambleDetectorLength::Bits24 => 0x06u8,
                PreambleDetectorLength::Bits32 => 0x07u8,
            }
            &&& w[3] == p.sync_word_length
            &&& w[4] == match p.address_filtering {
                AddressFiltering::Disable => 0x00u8,
                AddressFiltering::Node => 0x01u8,
                AddressFiltering::NodeAndBroadcast => 0x02u8,
            }
            &&& w[5] == match p.packet_type {
                GFSKPacketHeaderType::Fixed => 0x00u8,
                GFSKPacketHeaderType::Variable => 0x01u8,
            }
            &&& w[6] == p.payload_length
            &&& w[7] == match p.crc_type {
                CrcType::CrcOff => 0x01u8,
                CrcType::Crc1Byte => 0x00u8,
                CrcType::Crc2Byte => 0x02u8,
                CrcType::Crc1ByteInv => 0x04u8,
                CrcType::Crc2ByteInv => 0x06u8,
            }
            &&& w[8] == (if p.whitening_enable {
                1u8
            } else {
                0u8
            })
        }),
{
    assert(p.wire().subrange(0, 2) =~= be_u16(p.preamble_length));
    lemma_be_u16_value(p.preamble_length);
}

/// LoRa packet parameters are sent as nine bytes: the preamble length (two bytes, most
/// significant first), the header type (fixed 0x01, variable 0x00, the inverse of
/// GFSK), the payload length, the CRC flag and the IQ inversion flag (1 when set),
/// then three zero bytes.
pub proof fn lemma_lora_packet_params_layout(p: LoRaPacketParams)
    ensures
        ({
            let w = p.wire();
            &&& w.len() == 9
            &&& be_value(w.subrange(0, 2)) == p.preamble_length
            &&& w[2] == match p.header_type {
                LoraPacketHeaderType::Fixed => 0x01u8,
                LoraPacketHeaderType::Variable => 0x00u8,
            }
            &&& w[3] == p.payload_length
            &&& w[4] == (if p.crc_enable {
                1u8
            } else {
                0u8
            })
            &&& w[5] == (if p.iq_inversion_enable {
                1u8
            } else {
                0u8
            })
            &&& w[6] == 0 && w[7] == 0 && w[8] == 0
        }),
{
    assert(p.wire().subrange(0, 2) =~= be_u16(p.preamble_length));
    lemma_be_u16_value(p.preamble_length);
}

/// Packet parameters are sent as the nine bytes of the packet type that they are for.
pub proof fn lemma_packet_params_dispatch(g: GFSKPacketParams, l: LoRaPacketParams)
    ensures
        PacketParams::GFSK(g).wire() == g.wire(),
        PacketParams::LoRa(l).wire() == l.wire(),
{
}

/// CAD parameters are sent as the symbol count, detection peak, detection minimum and
/// exit mode, one byte each and unchanged, then the timeout as four bytes, most
/// significant first.
pub proof fn lemma_cad_params_layout(p: CadParams)
    ensures
        p.wire().len() == 8,
        p.wire()[0] == p.cad_symbol_num,
        p.wire()[1] == p.cad_detect_peak,
        p.wire()[2] == p.cad_detect_min,
        p.wire()[3] == p.cad_exit_mode,
        be_value(p.wire().subrange(4, 8)) == p.cad_timeout,
{
    assert(p.wire().subrange(4, 8) =~= be_u32(p.cad_timeout));
    lemma_be_u32_value(p.cad_timeout);
}

/// The buffer base addresses are sent unchanged, TX first.
pub proof fn lemma_buffer_base_address_layout(c: BufferBaseAddressConfig)
    ensures
        c.wire().len() == 2,
        c.wire()[0] == c.tx_base_addr,
        c.wire()[1] == c.rx_base_addr,
{
}

/// The symbol count is sent unchanged, as the one parameter byte.
pub proof fn lemma_symb_num_timeout_layout(c: LoRaSymbNumTimeout)
    ensures
        c.wire().len() == 1,
        c.wire()[0] == c.symb_num,
{
}

/// The opcodes of the RF commands, as the radio's datasheet gives them.
pub proof fn lemma_rf_opcode_values()
    ensures
        SetRfFrequency::opcode() == 0x86,
        SetPacketType::opcode() == 0x8A,
        GetPacketType::opcode() == 0x11,
        SetTxParams::opcode() == 0x8E,
        SetModulationParams::opcode() == 0x8B,
        SetPacketParams::opcode() == 0x8C,
        SetCadParams::opcode() == 0x88,
        SetBufferBaseAddress::opcode() == 0x8F,
        SetLoRaSymbNumTimeout::opcode() == 0xA0,
{
}

} // verus!
