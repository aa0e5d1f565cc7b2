use regiface::ToByteArray;
use sx126x::commands::rf::{
    flag_to_u8, pll_register_of, AddressFiltering, BufferBaseAddressConfig, CadParams, CodingRate, CrcType, GFSKPacketHeaderType,
    GFSKPacketParams, GetPacketType, GfskBandwidth, GfskModParams, GfskPulseShape,
    LoRaBandwidth, LoRaModParams, LoRaPacketParams, LoRaSymbNumTimeout, LoraPacketHeaderType,
    ModulationParams, PacketParams, PacketType, PreambleDetectorLength, RampTime,
    RfFrequencyConfig, SetBufferBaseAddress, SetCadParams, SetLoRaSymbNumTimeout,
    SetModulationParams, SetPacketParams, SetPacketType, SetRfFrequency, SetTxParams,
    SpreadingFactor, TxParams,
};
use sx126x::byte_order::u32_to_be;

fn rf(frequency: u32) -> [u8; 4] {
    RfFrequencyConfig { frequency }.to_bytes().unwrap()
}

#[test]
fn rf_frequency_915_mhz() {
    assert_eq!(rf(915_000_000), [0x39, 0x30, 0x00, 0x00]);
}

#[test]
fn rf_frequency_868_and_434_mhz() {
    assert_eq!(rf(868_000_000), [0x36, 0x40, 0x00, 0x00]);
    assert_eq!(rf(434_000_000), [0x1B, 0x20, 0x00, 0x00]);
}

#[test]
fn rf_frequency_rounds_down() {
    // 1 Hz is 1.048576 PLL steps.
    assert_eq!(rf(1), [0, 0, 0, 1]);
    assert_eq!(rf(0), [0, 0, 0, 0]);
    assert_eq!(pll_register_of(25_000), 0x6666);
}

#[test]
fn rf_frequency_wraps_above_4096_mhz() {
    assert_eq!(rf(4_096_000_000), [0, 0, 0, 0]);
    assert_eq!(rf(u32::MAX), [0x0C, 0x6F, 0x7A, 0x0A]);
}

#[test]
fn rf_frequency_is_strictly_increasing_in_range() {
    let mut last = pll_register_of(150_000_000);
    for f in 150_000_001u32..150_000_100 {
        let r = pll_register_of(f);
        assert!(r > last);
        last = r;
    }
}

#[test]
fn set_rf_frequency_command() {
    assert_eq!(SetRfFrequency::id(), 0x86);
    let c = SetRfFrequency { config: RfFrequencyConfig { frequency: 915_000_000 } };
    assert_eq!(c.invoking_parameters().frequency, 915_000_000);
}

#[test]
fn packet_type_to_bytes() {
    assert_eq!(PacketType::Gfsk.to_bytes().unwrap(), [0x00]);
    assert_eq!(PacketType::LoRa.to_bytes().unwrap(), [0x01]);
    assert_eq!(PacketType::LrFhss.to_bytes().unwrap(), [0x03]);
}

#[test]
fn packet_type_from_bytes() {
    assert!(matches!(PacketType::from_bytes([0x00]).unwrap(), PacketType::Gfsk));
    assert!(matches!(PacketType::from_bytes([0x01]).unwrap(), PacketType::LoRa));
    assert!(matches!(PacketType::from_bytes([0x03]).unwrap(), PacketType::LrFhss));
}

#[test]
fn packet_type_unknown_byte_reads_as_lora() {
    assert!(matches!(PacketType::from_bytes([0x02]).unwrap(), PacketType::LoRa));
    assert!(matches!(PacketType::from_bytes([0xFF]).unwrap(), PacketType::LoRa));
}

#[test]
fn packet_type_roundtrip() {
    for p in [PacketType::Gfsk, PacketType::LoRa, PacketType::LrFhss] {
        let b = p.to_bytes().unwrap();
        let q = PacketType::from_bytes(b).unwrap();
        assert_eq!(q.as_u8(), p.as_u8());
    }
}

#[test]
fn packet_type_commands() {
    assert_eq!(SetPacketType::id(), 0x8A);
    assert_eq!(GetPacketType::id(), 0x11);
    let c = SetPacketType { packet_type: PacketType::LrFhss };
    assert!(matches!(c.invoking_parameters(), PacketType::LrFhss));
    let zeros = GetPacketType.invoking_parameters();
    assert_eq!(zeros.to_bytes().unwrap(), [0x00]);
}

#[test]
fn tx_params_to_bytes() {
    let p = TxParams { power: 22, ramp_time: RampTime::Micros200 };
    assert_eq!(p.to_bytes().unwrap(), [0x16, 0x04]);
    let p = TxParams { power: -9, ramp_time: RampTime::Micros3400 };
    assert_eq!(p.to_bytes().unwrap(), [0xF7, 0x07]);
    let p = TxParams { power: -128, ramp_time: RampTime::Micros10 };
    assert_eq!(p.to_bytes().unwrap(), [0x80, 0x00]);
}

#[test]
fn ramp_time_codes() {
    let all = [
        RampTime::Micros10,
        RampTime::Micros20,
        RampTime::Micros40,
        RampTime::Micros80,
        RampTime::Micros200,
        RampTime::Micros800,
        RampTime::Micros1700,
        RampTime::Micros3400,
    ];
    for (i, r) in all.iter().enumerate() {
        assert_eq!(r.as_u8() as usize, i);
    }
}

#[test]
fn set_tx_params_command() {
    assert_eq!(SetTxParams::id(), 0x8E);
    let c = SetTxParams { params: TxParams { power: 14, ramp_time: RampTime::Micros40 } };
    assert_eq!(c.invoking_parameters().to_bytes().unwrap(), [14, 0x02]);
}

#[test]
fn gfsk_modulation_to_bytes() {
    let p = ModulationParams::Gfsk(GfskModParams {
        bit_rate: 4800,
        pulse_shape: GfskPulseShape::Bt05,
        bandwidth: GfskBandwidth::Bw1173,
        freq_deviation: 25_000,
    });
    assert_eq!(p.to_bytes().unwrap(), [0x03, 0x41, 0x55, 0x09, 0x0B, 0x00, 0x66, 0x66]);
}

#[test]
fn gfsk_modulation_keeps_low_24_bits_of_bit_rate_register() {
    let p = ModulationParams::Gfsk(GfskModParams {
        bit_rate: 10,
        pulse_shape: GfskPulseShape::NoFilter,
        bandwidth: GfskBandwidth::Bw48,
        freq_deviation: 50_000,
    });
    assert_eq!(p.to_bytes().unwrap(), [0x1A, 0x80, 0x00, 0x00, 0x1F, 0x00, 0xCC, 0xCC]);
}

#[test]
fn lora_modulation_to_bytes() {
    let p = ModulationParams::LoRa(LoRaModParams {
        spreading_factor: SpreadingFactor::SF7,
        bandwidth: LoRaBandwidth::Bw125,
        coding_rate: CodingRate::Cr45,
        low_data_rate_opt: false,
    });
    assert_eq!(p.to_bytes().unwrap(), [7, 0x04, 0x01, 0, 0, 0, 0, 0]);
    let p = ModulationParams::LoRa(LoRaModParams {
        spreading_factor: SpreadingFactor::SF12,
        bandwidth: LoRaBandwidth::Bw41,
        coding_rate: CodingRate::Cr48,
        low_data_rate_opt: true,
    });
    assert_eq!(p.to_bytes().unwrap(), [12, 0x0A, 0x04, 1, 0, 0, 0, 0]);
}

#[test]
fn lora_modulation_settings_are_told_apart() {
    let a = ModulationParams::LoRa(LoRaModParams {
        spreading_factor: SpreadingFactor::SF9,
        bandwidth: LoRaBandwidth::Bw10,
        coding_rate: CodingRate::Cr46,
        low_data_rate_opt: false,
    });
    let b = ModulationParams::LoRa(LoRaModParams {
        spreading_factor: SpreadingFactor::SF9,
        bandwidth: LoRaBandwidth::Bw15,
        coding_rate: CodingRate::Cr46,
        low_data_rate_opt: false,
    });
    assert_ne!(a.to_bytes().unwrap(), b.to_bytes().unwrap());
}

#[test]
fn set_modulation_params_command() {
    assert_eq!(SetModulationParams::id(), 0x8B);
    let c = SetModulationParams {
        params: ModulationParams::LoRa(LoRaModParams {
            spreading_factor: SpreadingFactor::SF5,
            bandwidth: LoRaBandwidth::Bw500,
            coding_rate: CodingRate::Cr47,
            low_data_rate_opt: true,
        }),
    };
    assert_eq!(c.invoking_parameters().to_bytes().unwrap(), [5, 0x06, 0x03, 1, 0, 0, 0, 0]);
}

#[test]
fn gfsk_packet_params_to_bytes() {
    let p = GFSKPacketParams {
        preamble_length: 0x1234,
        preamble_detector_length: PreambleDetectorLength::Bits16,
        sync_word_length: 40,
        address_filtering: AddressFiltering::NodeAndBroadcast,
        packet_type: GFSKPacketHeaderType::Variable,
        payload_length: 255,
        crc_type: CrcType::Crc2ByteInv,
        whitening_enable: true,
    };
    assert_eq!(p.to_bytes().unwrap(), [0x12, 0x34, 0x05, 40, 0x02, 0x01, 255, 0x06, 1]);
}

#[test]
fn gfsk_packet_params_off_settings() {
    let p = GFSKPacketParams {
        preamble_length: 8,
        preamble_detector_length: PreambleDetectorLength::Off,
        sync_word_length: 0,
        address_filtering: AddressFiltering::Disable,
        packet_type: GFSKPacketHeaderType::Fixed,
        payload_length: 0,
        crc_type: CrcType::CrcOff,
        whitening_enable: false,
    };
    assert_eq!(p.to_bytes().unwrap(), [0x00, 0x08, 0x00, 0, 0x00, 0x00, 0, 0x01, 0]);
}

#[test]
fn lora_packet_params_to_bytes() {
    let p = LoRaPacketParams {
        preamble_length: 0xABCD,
        header_type: LoraPacketHeaderType::Fixed,
        payload_length: 64,
        crc_enable: true,
        iq_inversion_enable: false,
    };
    assert_eq!(p.to_bytes().unwrap(), [0xAB, 0xCD, 0x01, 64, 1, 0, 0, 0, 0]);
    let p = LoRaPacketParams {
        preamble_length: 12,
        header_type: LoraPacketHeaderType::Variable,
        payload_length: 255,
        crc_enable: false,
        iq_inversion_enable: true,
    };
    assert_eq!(p.to_bytes().unwrap(), [0x00, 0x0C, 0x00, 255, 0, 1, 0, 0, 0]);
}

#[test]
fn header_type_codes_are_inverse() {
    assert_eq!(GFSKPacketHeaderType::Fixed.as_u8(), 0x00);
    assert_eq!(GFSKPacketHeaderType::Variable.as_u8(), 0x01);
    assert_eq!(LoraPacketHeaderType::Fixed.as_u8(), 0x01);
    assert_eq!(LoraPacketHeaderType::Variable.as_u8(), 0x00);
}

#[test]
fn packet_params_dispatch() {
    let lora = LoRaPacketParams {
        preamble_length: 8,
        header_type: LoraPacketHeaderType::Variable,
        payload_length: 10,
        crc_enable: true,
        iq_inversion_enable: true,
    };
    assert_eq!(
        PacketParams::LoRa(lora.clone()).to_bytes().unwrap(),
        lora.to_bytes().unwrap()
    );
    let gfsk = GFSKPacketParams {
        preamble_length: 32,
        preamble_detector_length: PreambleDetectorLength::Bits8,
        sync_word_length: 16,
        address_filtering: AddressFiltering::Node,
        packet_type: GFSKPacketHeaderType::Variable,
        payload_length: 20,
        crc_type: CrcType::Crc1Byte,
        whitening_enable: false,
    };
    assert_eq!(
        PacketParams::GFSK(gfsk.clone()).to_bytes().unwrap(),
        gfsk.to_bytes().unwrap()
    );
}

#[test]
fn set_packet_params_command() {
    assert_eq!(SetPacketParams::id(), 0x8C);
    let c = SetPacketParams {
        params: PacketParams::LoRa(LoRaPacketParams {
            preamble_length: 8,
            header_type: LoraPacketHeaderType::Variable,
            payload_length: 10,
            crc_enable: true,
            iq_inversion_enable: false,
        }),
    };
    assert_eq!(c.invoking_parameters().to_bytes().unwrap(), [0, 8, 0, 10, 1, 0, 0, 0, 0]);
}

#[test]
fn cad_params_to_bytes() {
    let p = CadParams {
        cad_symbol_num: 2,
        cad_detect_peak: 22,
        cad_detect_min: 10,
        cad_exit_mode: 1,
        cad_timeout: 0x0102_0304,
    };
    assert_eq!(p.to_bytes().unwrap(), [2, 22, 10, 1, 0x01, 0x02, 0x03, 0x04]);
}

#[test]
fn set_cad_params_command() {
    assert_eq!(SetCadParams::id(), 0x88);
    let c = SetCadParams {
        params: CadParams {
            cad_symbol_num: 4,
            cad_detect_peak: 25,
            cad_detect_min: 10,
            cad_exit_mode: 0,
            cad_timeout: u32::MAX,
        },
    };
    assert_eq!(c.invoking_parameters().to_bytes().unwrap(), [4, 25, 10, 0, 0xFF, 0xFF, 0xFF, 0xFF]);
}

#[test]
fn buffer_base_address_to_bytes() {
    let p = BufferBaseAddressConfig { tx_base_addr: 0x00, rx_base_addr: 0x80 };
    assert_eq!(p.to_bytes().unwrap(), [0x00, 0x80]);
    assert_eq!(SetBufferBaseAddress::id(), 0x8F);
    let c = SetBufferBaseAddress { config: BufferBaseAddressConfig { tx_base_addr: 7, rx_base_addr: 9 } };
    assert_eq!(c.invoking_parameters().to_bytes().unwrap(), [7, 9]);
}

#[test]
fn symb_num_timeout_to_bytes() {
    assert_eq!(LoRaSymbNumTimeout { symb_num: 0 }.to_bytes().unwrap(), [0]);
    assert_eq!(LoRaSymbNumTimeout { symb_num: 255 }.to_bytes().unwrap(), [255]);
    assert_eq!(SetLoRaSymbNumTimeout::id(), 0xA0);
    let c = SetLoRaSymbNumTimeout { config: LoRaSymbNumTimeout { symb_num: 5 } };
    assert_eq!(c.invoking_parameters().symb_num, 5);
}

#[test]
fn opcodes_are_distinct() {
    let ids = [
        SetRfFrequency::id(),
        SetPacketType::id(),
        GetPacketType::id(),
        SetTxParams::id(),
        SetModulationParams::id(),
        SetPacketParams::id(),
        SetCadParams::id(),
        SetBufferBaseAddress::id(),
        SetLoRaSymbNumTimeout::id(),
    ];
    for i in 0..ids.len() {
        for j in 0..ids.len() {
            if i != j {
                assert_ne!(ids[i], ids[j]);
            }
        }
    }
}

#[test]
fn gfsk_bandwidth_codes_are_distinct() {
    let all = [
        GfskBandwidth::Bw48,
        GfskBandwidth::Bw58,
        GfskBandwidth::Bw73,
        GfskBandwidth::Bw97,
        GfskBandwidth::Bw117,
        GfskBandwidth::Bw146,
        GfskBandwidth::Bw195,
        GfskBandwidth::Bw234,
        GfskBandwidth::Bw293,
        GfskBandwidth::Bw39,
        GfskBandwidth::Bw469,
        GfskBandwidth::Bw586,
        GfskBandwidth::Bw782,
        GfskBandwidth::Bw938,
        GfskBandwidth::Bw1173,
        GfskBandwidth::Bw1562,
        GfskBandwidth::Bw1872,
        GfskBandwidth::Bw2323,
        GfskBandwidth::Bw3120,
        GfskBandwidth::Bw3736,
        GfskBandwidth::Bw4670,
    ];
    for i in 0..all.len() {
        for j in 0..all.len() {
            if i != j {
                assert_ne!(all[i].as_u8(), all[j].as_u8());
            }
        }
    }
}

#[test]
fn flags_and_big_endian() {
    assert_eq!(flag_to_u8(true), 1);
    assert_eq!(flag_to_u8(false), 0);
    assert_eq!(u32_to_be(0xDEAD_BEEF), [0xDE, 0xAD, 0xBE, 0xEF]);
}
