use sdio_host::sd::cmd::Response;
use sdio_host::sd::sd_reg::{
    to_be_bytes, BlockSize, BusWidth, CardStatus, Cic, Cid, Csd, CurrentConsumption,
    CurrentState, Ocr, Rca, SDSpecVersion, Scr, SdStatus,
};

fn csd_v1(c_size: u32, block_len_code: u32) -> Csd {
    Csd::from((0, c_size << 16, block_len_code << 16, 1 << 30))
}

#[test]
fn ocr_window_full_range() {
    assert_eq!(Ocr::from(0x00FF_8000).voltage_window_mv(), Some((2700, 3600)));
}

#[test]
fn ocr_window_empty() {
    assert_eq!(Ocr::from(0).voltage_window_mv(), None);
    assert_eq!(Ocr::default().voltage_window_mv(), None);
}

#[test]
fn ocr_window_ignores_bits_outside_the_field() {
    // Bits below 15 and above 23 are no part of the window.
    assert_eq!(Ocr::from(0xFF00_7FFF).voltage_window_mv(), None);
}

#[test]
fn ocr_window_single_steps() {
    assert_eq!(Ocr::from(1 << 15).voltage_window_mv(), Some((2700, 2800)));
    assert_eq!(Ocr::from(1 << 23).voltage_window_mv(), Some((3500, 3600)));
    assert_eq!(Ocr::from(0x0030_0000).voltage_window_mv(), Some((3200, 3400)));
}

#[test]
fn ocr_window_with_a_gap_spans_lowest_to_highest() {
    assert_eq!(Ocr::from((1 << 16) | (1 << 20)).voltage_window_mv(), Some((2800, 3300)));
}

#[test]
fn ocr_flags() {
    let powered = Ocr::from(0xC0FF_8000);
    assert!(!powered.is_busy());
    assert!(powered.high_capacity());
    assert!(!powered.v18_allowed());
    assert!(!powered.over_2tb());
    assert!(!powered.uhs2_card_status());
    let busy = Ocr::from(0x00FF_8000);
    assert!(busy.is_busy());
    assert!(!busy.high_capacity());
    assert!(Ocr::from(0x0100_0000).v18_allowed());
    assert!(Ocr::from(0x0800_0000).over_2tb());
    assert!(Ocr::from(0x2000_0000).uhs2_card_status());
}

#[test]
fn cid_bytes_are_the_big_endian_serialization() {
    let words = (0x0D0E_0F10u32, 0x090A_0B0Cu32, 0x0506_0708u32, 0x0102_0304u32);
    let cid = Cid::from(words);
    let value: u128 = ((words.3 as u128) << 96)
        | ((words.2 as u128) << 64)
        | ((words.1 as u128) << 32)
        | (words.0 as u128);
    assert_eq!(cid.bytes(), value.to_be_bytes());
    assert_eq!(cid.bytes(), [1, 2, 3, 4, 5, 6, 7, 8, 9, 10, 11, 12, 13, 14, 15, 16]);
}

#[test]
fn cid_from_value_and_from_words_agree() {
    let value: u128 = 0x0353_4453_4433_3247_8012_3456_7801_4A00;
    let from_value = Cid::from(value);
    let from_words = Cid::from((0x7801_4A00u32, 0x8012_3456u32, 0x4433_3247u32, 0x0353_4453u32));
    assert_eq!(from_value.bytes(), from_words.bytes());
    assert_eq!(from_value.bytes(), value.to_be_bytes());
}

#[test]
fn to_be_bytes_matches_std() {
    for value in [0u128, 1, u128::MAX, 0x0123_4567_89AB_CDEF_0011_2233_4455_6677] {
        assert_eq!(to_be_bytes(value), value.to_be_bytes());
    }
}

#[test]
fn cid_fields() {
    // 03 | "SD" | "SD32G" | 80 | 12345678 | reserved 0, year 0x14, month 0xA | crc
    let cid = Cid::from(0x0353_4453_4433_3247_8012_3456_7801_4A55u128);
    assert_eq!(cid.manufacturer_id(), 0x03);
    assert_eq!(cid.oem_id(), "SD");
    assert_eq!(cid.product_name(), "SD32G");
    assert_eq!(cid.product_revision(), 0x80);
    assert_eq!(cid.serial(), 0x1234_5678);
    assert_eq!(cid.manufacturing_date(), (0xA, 2020));
    assert_eq!(cid.crc7(), 0x55 >> 1);
}

#[test]
fn cid_text_that_is_no_utf8_is_marked() {
    // 0xFF never occurs in UTF-8.
    let cid = Cid::from(0x03FF_FF53_44FF_3247_0000_0000_0000_0000u128);
    assert_eq!(cid.oem_id(), "<ERR>");
    assert_eq!(cid.product_name(), "<ERR>");
}

#[test]
fn cid_default_is_zero() {
    let cid = Cid::default();
    assert_eq!(cid.bytes(), [0u8; 16]);
    assert_eq!(cid.manufacturer_id(), 0);
    assert_eq!(cid.oem_id(), "\0\0");
    assert_eq!(cid.serial(), 0);
    assert_eq!(cid.manufacturing_date(), (0, 2000));
}

#[test]
fn csd_v1_block_count() {
    let csd = csd_v1(0x0E90, 9);
    assert_eq!(csd.version(), 1);
    assert_eq!(csd.block_count(), (0x0E90 + 1) * 1024);
    assert_eq!(csd.block_count(), 3_818_496);
    assert_eq!(csd.block_length(), BlockSize::B512);
    assert_eq!(csd.card_size(), 3_818_496 * 512);
}

#[test]
fn csd_v1_card_size_follows_block_length() {
    let csd = csd_v1(0x0E90, 10);
    assert_eq!(csd.block_length(), BlockSize::B1024);
    assert_eq!(csd.card_size(), csd.block_count() * 1024);
}

#[test]
fn csd_v0_block_count() {
    // C_SIZE = 0xFFF at bit 62, C_SIZE_MULT = 7 at bit 47, READ_BL_LEN = 9.
    let raw: u128 = (0xFFFu128 << 62) | (7u128 << 47) | (9u128 << 80);
    let csd = Csd::from((raw as u32, (raw >> 32) as u32, (raw >> 64) as u32, (raw >> 96) as u32));
    assert_eq!(csd.version(), 0);
    assert_eq!(csd.block_count(), 4096 * 512);
    assert_eq!(csd.card_size(), 4096 * 512 * 512);
    let small: u128 = (1u128 << 62) | (0u128 << 47);
    let csd = Csd(small);
    assert_eq!(csd.block_count(), 2 * 4);
}

#[test]
fn csd_v2_block_count() {
    let raw: u128 = (2u128 << 126) | (0xFFF_FFFFu128 << 48);
    let csd = Csd(raw);
    assert_eq!(csd.version(), 2);
    assert_eq!(csd.block_count(), 0x1000_0000 * 1024);
}

#[test]
fn csd_v3_has_no_blocks() {
    let csd = Csd((3u128 << 126) | (0x1234u128 << 48) | (9u128 << 80));
    assert_eq!(csd.version(), 3);
    assert_eq!(csd.block_count(), 0);
    assert_eq!(csd.card_size(), 0);
}

#[test]
fn csd_largest_card_size_fits() {
    let csd = Csd((2u128 << 126) | (0xFFF_FFFFu128 << 48) | (15u128 << 80));
    assert_eq!(csd.block_length(), BlockSize::Unknown);
    assert_eq!(csd.card_size(), (0x1000_0000u64 * 1024) << 15);
}

#[test]
fn csd_block_length_codes() {
    let expected = [
        BlockSize::B1,
        BlockSize::B2,
        BlockSize::B4,
        BlockSize::B8,
        BlockSize::B16,
        BlockSize::B32,
        BlockSize::B64,
        BlockSize::B128,
        BlockSize::B256,
        BlockSize::B512,
        BlockSize::B1024,
        BlockSize::B2048,
        BlockSize::B4096,
        BlockSize::B8192,
        BlockSize::B16kB,
        BlockSize::Unknown,
    ];
    for (code, size) in expected.iter().enumerate() {
        let csd = Csd((code as u128) << 80);
        assert_eq!(csd.block_length(), *size);
        assert_eq!(size.bytes(), 1u64 << code);
    }
}

#[test]
fn csd_transfer_rate_and_erase_size() {
    let csd = Csd((0x32u128 << 96) | (1u128 << 46));
    assert_eq!(csd.transfer_rate(), 0x32);
    assert_eq!(csd.erase_size_blocks(), 1);
    let csd = Csd((5u128 << 43) | (9u128 << 39));
    assert_eq!(csd.erase_size_blocks(), 59);
}

#[test]
fn csd_currents() {
    let minimum = [0u32, 1, 5, 10, 25, 35, 60, 100];
    let maximum = [1u32, 5, 10, 25, 35, 45, 80, 200];
    for code in 0..8u128 {
        let csd = Csd((code << 59) | (code << 56) | (code << 53) | (code << 50));
        assert_eq!(u32::from(&csd.read_current_minimum_vdd()), minimum[code as usize]);
        assert_eq!(u32::from(&csd.write_current_minimum_vdd()), minimum[code as usize]);
        assert_eq!(u32::from(&csd.read_current_maximum_vdd()), maximum[code as usize]);
        assert_eq!(u32::from(&csd.write_current_maximum_vdd()), maximum[code as usize]);
    }
}

#[test]
fn current_consumption_code_six() {
    // Code 6 stands for 60 mA at the minimum and for 80 mA at the maximum.
    assert_eq!(CurrentConsumption::from_minimum_reg(6), CurrentConsumption::I_60mA);
    assert_eq!(CurrentConsumption::from_maximum_reg(6), CurrentConsumption::I_80mA);
    // Only the low three bits count.
    assert_eq!(CurrentConsumption::from_minimum_reg(0xF8), CurrentConsumption::I_0mA);
    assert_eq!(CurrentConsumption::from_maximum_reg(0xFF), CurrentConsumption::I_200mA);
}

#[test]
fn card_status_flags() {
    let checks: [(u32, fn(&CardStatus) -> bool); 21] = [
        (0x4000, CardStatus::ecc_disabled),
        (0x40, CardStatus::fx_event),
        (0x8, CardStatus::ake_seq_error),
        (0x8000_0000, CardStatus::out_of_range),
        (0x4000_0000, CardStatus::address_error),
        (0x2000_0000, CardStatus::block_len_error),
        (0x1000_0000, CardStatus::erase_seq_error),
        (0x800_0000, CardStatus::erase_param),
        (0x400_0000, CardStatus::wp_violation),
        (0x200_0000, CardStatus::card_is_locked),
        (0x100_0000, CardStatus::lock_unlock_failed),
        (0x80_0000, CardStatus::com_crc_error),
        (0x40_0000, CardStatus::illegal_command),
        (0x20_0000, CardStatus::card_ecc_failed),
        (0x10_0000, CardStatus::cc_error),
        (0x8_0000, CardStatus::error),
        (0x1_0000, CardStatus::csd_overwrite),
        (0x8000, CardStatus::wp_erase_skip),
        (0x2000, CardStatus::erase_reset),
        (0x100, CardStatus::ready_for_data),
        (0x20, CardStatus::app_cmd),
    ];
    for (mask, flag) in checks.iter() {
        assert!(flag(&CardStatus::from(*mask)));
        assert!(!flag(&CardStatus::from(!*mask)));
    }
}

#[test]
fn card_status_state() {
    let states = [
        CurrentState::Error,
        CurrentState::Ready,
        CurrentState::Identification,
        CurrentState::Standby,
        CurrentState::Transfer,
        CurrentState::Sending,
        CurrentState::Receiving,
        CurrentState::Programming,
        CurrentState::Disconnected,
        CurrentState::BusTest,
        CurrentState::Sleep,
        CurrentState::Error,
        CurrentState::Error,
        CurrentState::Error,
        CurrentState::Error,
        CurrentState::Error,
    ];
    for (code, state) in states.iter().enumerate() {
        assert_eq!(CardStatus::from((code as u32) << 9).state(), *state);
        assert_eq!(CurrentState::from(code as u8), *state);
    }
    assert_eq!(CurrentState::from(128), CurrentState::Error);
    // Transfer state with the ready bit, as a card in transfer state reports it.
    assert_eq!(CardStatus::from(0x0000_0900).state(), CurrentState::Transfer);
}

#[test]
fn rca_halves() {
    let rca = Rca::from(0xAAAA_0520);
    assert_eq!(rca.address(), 0xAAAA);
    assert_eq!(rca.status(), 0x0520);
    assert_eq!(Rca::default().address(), 0);
}

#[test]
fn cic_fields() {
    let cic = Cic::from(0x0000_01AA);
    assert_eq!(cic.voltage_accepted(), 1);
    assert_eq!(cic.pattern(), 0xAA);
    // The voltage field is four bits wide.
    assert_eq!(Cic::from(0xFFFF_F1AA).voltage_accepted(), 1);
    assert_eq!(Cic::from(0x0000_0F55).voltage_accepted(), 0xF);
    assert_eq!(Cic::from(0x0000_0F55).pattern(), 0x55);
}

#[test]
fn scr_versions() {
    let scr = |spec: u64, spec3: u64, spec4: u64, specx: u64| {
        let raw = (spec << 56) | (spec3 << 47) | (spec4 << 42) | (specx << 38);
        Scr::from((raw as u32, (raw >> 32) as u32))
    };
    assert_eq!(scr(0, 0, 0, 0).version(), SDSpecVersion::V1_0);
    assert_eq!(scr(1, 0, 0, 0).version(), SDSpecVersion::V1_10);
    assert_eq!(scr(2, 0, 0, 0).version(), SDSpecVersion::V2);
    assert_eq!(scr(2, 1, 0, 0).version(), SDSpecVersion::V3);
    assert_eq!(scr(2, 1, 1, 0).version(), SDSpecVersion::V4);
    assert_eq!(scr(2, 1, 0, 1).version(), SDSpecVersion::V5);
    assert_eq!(scr(2, 1, 1, 1).version(), SDSpecVersion::V5);
    assert_eq!(scr(2, 1, 1, 2).version(), SDSpecVersion::V6);
    assert_eq!(scr(2, 1, 0, 3).version(), SDSpecVersion::V7);
    assert_eq!(scr(3, 0, 0, 0).version(), SDSpecVersion::Unknown);
    assert_eq!(scr(2, 0, 1, 0).version(), SDSpecVersion::Unknown);
    assert_eq!(scr(2, 1, 0, 4).version(), SDSpecVersion::Unknown);
}

#[test]
fn scr_bus_widths() {
    let scr = Scr(5u64 << 48);
    assert_eq!(scr.bus_widths(), 5);
    assert!(scr.bus_width_one());
    assert!(scr.bus_width_four());
    let scr = Scr(1u64 << 48);
    assert!(scr.bus_width_one());
    assert!(!scr.bus_width_four());
}

#[test]
fn sd_status_fields() {
    let mut words = [0u32; 16];
    words[15] = (2 << 30) | 0x2000_0000 | 0x1234;
    words[14] = 0x0300_0000;
    words[13] = (4 << 24) | (2 << 16) | (9 << 12) | 0x08;
    words[12] = (0x10 << 24) | (0x21 << 18);
    words[11] = 0x1E;
    words[9] = 2 << 16;
    words[8] = 0x0200_0000;
    let status = SdStatus::from(words);
    assert_eq!(status.bus_width(), BusWidth::Four);
    assert!(status.secure_mode());
    assert_eq!(status.sd_memory_card_type(), 0x1234);
    assert_eq!(status.protected_area_size(), 0x0300_0000);
    assert_eq!(status.speed_class(), 4);
    assert_eq!(status.move_performance(), 2);
    assert_eq!(status.allocation_unit_size(), 9);
    assert_eq!(status.erase_size(), 0x08 | 0x10);
    assert_eq!(status.erase_timeout(), 0x21);
    assert_eq!(status.video_speed_class(), 0x1E);
    assert_eq!(status.app_perf_class(), 2);
    assert!(status.discard_support());
    let status = SdStatus::default();
    assert_eq!(status.bus_width(), BusWidth::One);
    assert!(!status.secure_mode());
    let mut words = [0u32; 16];
    words[15] = 1 << 30;
    assert_eq!(SdStatus::from(words).bus_width(), BusWidth::Unknown);
}

#[test]
fn response_decoders_pick_their_shape() {
    let short = Response::R48(0xC0FF_8000);
    let long = Response::R136((1, 2, 3, 0x4000_0000));
    assert!(short.ocr().high_capacity());
    assert_eq!(short.rca().address(), 0xC0FF);
    assert_eq!(short.cic().pattern(), 0);
    assert!(short.card_status().out_of_range());
    assert_eq!(long.csd().version(), 1);
    assert_eq!(long.cid().bytes()[0], 0x40);
    assert_eq!(long.cid().bytes()[15], 1);
    // A decoder handed the other shape reads zero.
    assert_eq!(long.ocr().0, 0);
    assert_eq!(long.rca().0, 0);
    assert_eq!(long.cic().0, 0);
    assert_eq!(long.card_status().0, 0);
    assert_eq!(short.csd().0, 0);
    assert_eq!(short.cid().bytes(), [0u8; 16]);
    assert_eq!(Response::Rz.csd().0, 0);
    assert_eq!(Response::Rz.ocr().0, 0);
}
