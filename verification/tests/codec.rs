use dashboard::eco_can::{
    ECOCAN_H2Pack1_t, ECOCAN_H2Pack2_t, ECOCAN_H2_ARM_ALARM_t, ECOCAN_RelPackChrg_t, FDCANPack,
    FDCAN_BATTPack2_t, FDCAN_BOOSTPack1_t, FDCAN_BOOSTPack2_t, FDCAN_BOOSTPack3_t,
    FDCAN_FccPack1_t, FDCAN_FccPack2_t, FDCAN_FccPack3_t, FDCAN_FetPack_t, FDCAN_RelPackCap_t,
    FDCAN_RelPackFc_t, FDCAN_RelPackMtr_t, FDCAN_RelPackNrg_t, RelayState,
};
use dashboard::fault::{DecodeFault, EncodeFault};
use dashboard::record::{decode_can_data, Record};
use dashboard::layout::FieldKind;
use dashboard::wire::{
    put_i16, put_i32, put_i8, put_u16, put_u32, put_u8, take_i16, take_i32, take_i8, take_u16,
    take_u32, take_u8,
};

fn big_endian() -> bincode::config::Configuration<
    bincode::config::BigEndian,
    bincode::config::Fixint,
    bincode::config::NoLimit,
> {
    bincode::config::standard().with_big_endian().with_fixed_int_encoding()
}

fn every_record() -> Vec<Record> {
    vec![
        Record::FetPack(FDCAN_FetPack_t {
            fet_config: 0x0102_0304,
            input_volt: 48_000,
            cap_volt: u32::MAX,
            cap_curr: 0,
            res_curr: 1,
            out_curr: 0x8000_0000,
        }),
        Record::RelPackChrg(ECOCAN_RelPackChrg_t { fc_coloumbs: -1, cap_coloumbs: i32::MAX }),
        Record::RelPackNrg(FDCAN_RelPackNrg_t { fc_joules: i32::MIN, cap_joules: 77 }),
        Record::RelPackMtr(FDCAN_RelPackMtr_t { mtr_volt: 5, mtr_curr: 10 }),
        Record::RelPackCap(FDCAN_RelPackCap_t { cap_volt: 0xDEAD_BEEF, cap_curr: -123_456 }),
        Record::RelPackFc(FDCAN_RelPackFc_t { fc_volt: 255, fc_curr: 256 }),
        Record::RelayState(RelayState::RELAY_RUN),
        Record::FccPack1(FDCAN_FccPack1_t { fc_temp: -40, fc_press: 101_325 }),
        Record::FccPack2(FDCAN_FccPack2_t { fan_rpm1: 3000, fan_rpm2: 65_536 }),
        Record::FccPack3(FDCAN_FccPack3_t { bme_temp: 21, bme_humid: 55 }),
        Record::H2Pack1(ECOCAN_H2Pack1_t {
            h2_sense_1: 1,
            h2_sense_2: 0x0100,
            h2_sense_3: u16::MAX,
            h2_sense_4: 0,
        }),
        Record::H2Pack2(ECOCAN_H2Pack2_t {
            bme_temp: 0x1234,
            bme_humid: 0x00FF,
            imon_7v: 0xFF00,
            imon_12v: 7,
        }),
        Record::H2ArmAlarm(ECOCAN_H2_ARM_ALARM_t { h2_alarm_armed: 1 }),
        Record::BoostPack1(FDCAN_BOOSTPack1_t { in_curr: 12, in_volt: 34 }),
        Record::BoostPack2(FDCAN_BOOSTPack2_t { out_curr: 56, out_volt: 78 }),
        Record::BoostPack3(FDCAN_BOOSTPack3_t { efficiency: 97, joules: 0x7FFF_FFFF }),
        Record::BattPack2(FDCAN_BATTPack2_t { out_curr: 0xABCD, out_volt: 0x00EF }),
    ]
}

#[test]
fn motor_payload_decodes_to_volt_and_current() {
    let payload = [0x00, 0x00, 0x00, 0x05, 0x00, 0x00, 0x00, 0x0A];
    assert_eq!(
        FDCAN_RelPackMtr_t::decode(&payload),
        Ok(FDCAN_RelPackMtr_t { mtr_volt: 5, mtr_curr: 10 })
    );
    assert_eq!(
        decode_can_data(0x015, &payload),
        Ok(Some(Record::RelPackMtr(FDCAN_RelPackMtr_t { mtr_volt: 5, mtr_curr: 10 })))
    );
}

#[test]
fn unsigned_32_is_big_endian() {
    let mut buf = [0u8; 4];
    assert_eq!(put_u32(0x0102_0304, &mut buf, 0), Ok(()));
    assert_eq!(buf, [0x01, 0x02, 0x03, 0x04]);
    assert_eq!(take_u32(&[0x01, 0x02, 0x03, 0x04], 0), Ok(0x0102_0304));
    assert_eq!(take_u32(&[0xFF, 0xFF, 0xFF, 0xFF], 0), Ok(u32::MAX));
    assert_eq!(take_u32(&[0x80, 0x00, 0x00, 0x00], 0), Ok(0x8000_0000));
}

#[test]
fn unsigned_16_is_big_endian() {
    let mut buf = [0u8; 2];
    assert_eq!(put_u16(0xABCD, &mut buf, 0), Ok(()));
    assert_eq!(buf, [0xAB, 0xCD]);
    assert_eq!(take_u16(&[0xAB, 0xCD], 0), Ok(0xABCD));
    assert_eq!(take_u16(&[0x00, 0x01], 0), Ok(1));
}

#[test]
fn unsigned_8_is_the_byte() {
    let mut buf = [0u8; 1];
    assert_eq!(put_u8(0x7F, &mut buf, 0), Ok(()));
    assert_eq!(buf, [0x7F]);
    assert_eq!(take_u8(&[0xFE], 0), Ok(0xFE));
}

#[test]
fn signed_32_is_twos_complement() {
    let mut buf = [0u8; 4];
    assert_eq!(put_i32(-2, &mut buf, 0), Ok(()));
    assert_eq!(buf, [0xFF, 0xFF, 0xFF, 0xFE]);
    assert_eq!(put_i32(i32::MIN, &mut buf, 0), Ok(()));
    assert_eq!(buf, [0x80, 0x00, 0x00, 0x00]);
    assert_eq!(put_i32(i32::MAX, &mut buf, 0), Ok(()));
    assert_eq!(buf, [0x7F, 0xFF, 0xFF, 0xFF]);
    assert_eq!(take_i32(&[0xFF, 0xFF, 0xFF, 0xFF], 0), Ok(-1));
    assert_eq!(take_i32(&[0x80, 0x00, 0x00, 0x00], 0), Ok(i32::MIN));
    assert_eq!(take_i32(&[0x00, 0x00, 0x01, 0x00], 0), Ok(256));
}

#[test]
fn signed_16_is_twos_complement() {
    let mut buf = [0u8; 2];
    assert_eq!(put_i16(-2, &mut buf, 0), Ok(()));
    assert_eq!(buf, [0xFF, 0xFE]);
    assert_eq!(put_i16(i16::MIN, &mut buf, 0), Ok(()));
    assert_eq!(buf, [0x80, 0x00]);
    assert_eq!(put_i16(0x0102, &mut buf, 0), Ok(()));
    assert_eq!(buf, [0x01, 0x02]);
    assert_eq!(take_i16(&[0xFF, 0xFF], 0), Ok(-1));
    assert_eq!(take_i16(&[0x7F, 0xFF], 0), Ok(i16::MAX));
    assert_eq!(take_i16(&[0x00, 0x80], 0), Ok(128));
    assert_eq!(take_i16(&[0x00], 0), Err(DecodeFault::TruncatedInput));
    let mut short = [9u8; 1];
    assert_eq!(put_i16(1, &mut short, 0), Err(EncodeFault::BufferTooSmall));
    assert_eq!(short, [9]);
}

#[test]
fn signed_8_is_twos_complement() {
    let mut buf = [0u8; 1];
    assert_eq!(put_i8(-1, &mut buf, 0), Ok(()));
    assert_eq!(buf, [0xFF]);
    assert_eq!(put_i8(i8::MIN, &mut buf, 0), Ok(()));
    assert_eq!(buf, [0x80]);
    assert_eq!(put_i8(5, &mut buf, 0), Ok(()));
    assert_eq!(buf, [0x05]);
    assert_eq!(take_i8(&[0x80], 0), Ok(i8::MIN));
    assert_eq!(take_i8(&[0x7F], 0), Ok(i8::MAX));
    assert_eq!(take_i8(&[0xFE], 0), Ok(-2));
    assert_eq!(take_i8(&[], 0), Err(DecodeFault::TruncatedInput));
    let mut none: [u8; 0] = [];
    assert_eq!(put_i8(1, &mut none, 0), Err(EncodeFault::BufferTooSmall));
}

#[test]
fn fields_are_read_at_their_offset() {
    let bytes = [0xAA, 0x01, 0x02, 0x03, 0x04, 0xBB];
    assert_eq!(take_u8(&bytes, 5), Ok(0xBB));
    assert_eq!(take_u16(&bytes, 1), Ok(0x0102));
    assert_eq!(take_u32(&bytes, 1), Ok(0x0102_0304));
    assert_eq!(take_i32(&bytes, 2), Ok(0x0203_04BB));
}

#[test]
fn fields_are_written_at_their_offset_and_nowhere_else() {
    let mut buf = [0x11u8; 8];
    assert_eq!(put_u32(0xA1B2_C3D4, &mut buf, 2), Ok(()));
    assert_eq!(buf, [0x11, 0x11, 0xA1, 0xB2, 0xC3, 0xD4, 0x11, 0x11]);
    assert_eq!(put_u16(0x0506, &mut buf, 6), Ok(()));
    assert_eq!(buf, [0x11, 0x11, 0xA1, 0xB2, 0xC3, 0xD4, 0x05, 0x06]);
    assert_eq!(put_u8(0x00, &mut buf, 0), Ok(()));
    assert_eq!(buf, [0x00, 0x11, 0xA1, 0xB2, 0xC3, 0xD4, 0x05, 0x06]);
    assert_eq!(put_i32(-1, &mut buf, 4), Ok(()));
    assert_eq!(buf, [0x00, 0x11, 0xA1, 0xB2, 0xFF, 0xFF, 0xFF, 0xFF]);
}

#[test]
fn a_read_past_the_end_is_truncated() {
    let bytes = [1u8, 2, 3];
    assert_eq!(take_u32(&bytes, 0), Err(DecodeFault::TruncatedInput));
    assert_eq!(take_i32(&bytes, 0), Err(DecodeFault::TruncatedInput));
    assert_eq!(take_u16(&bytes, 2), Err(DecodeFault::TruncatedInput));
    assert_eq!(take_u8(&bytes, 3), Err(DecodeFault::TruncatedInput));
    assert_eq!(take_u8(&bytes, 4), Err(DecodeFault::TruncatedInput));
    assert_eq!(take_u8(&bytes, usize::MAX), Err(DecodeFault::TruncatedInput));
    assert_eq!(take_u16(&bytes, 1), Ok(0x0203));
}

#[test]
fn a_write_past_the_end_changes_nothing() {
    let mut buf = [9u8; 3];
    assert_eq!(put_u32(1, &mut buf, 0), Err(EncodeFault::BufferTooSmall));
    assert_eq!(put_i32(1, &mut buf, 0), Err(EncodeFault::BufferTooSmall));
    assert_eq!(put_u16(1, &mut buf, 2), Err(EncodeFault::BufferTooSmall));
    assert_eq!(put_u8(1, &mut buf, 3), Err(EncodeFault::BufferTooSmall));
    assert_eq!(put_u8(1, &mut buf, 100), Err(EncodeFault::BufferTooSmall));
    assert_eq!(buf, [9, 9, 9]);
}

#[test]
fn fet_pack_has_six_fields_in_order() {
    let pack = FDCAN_FetPack_t {
        fet_config: 1,
        input_volt: 2,
        cap_volt: 3,
        cap_curr: 4,
        res_curr: 5,
        out_curr: 6,
    };
    let mut buf = [0xEEu8; 24];
    assert_eq!(pack.encode(&mut buf), Ok(24));
    assert_eq!(
        buf,
        [0, 0, 0, 1, 0, 0, 0, 2, 0, 0, 0, 3, 0, 0, 0, 4, 0, 0, 0, 5, 0, 0, 0, 6]
    );
    assert_eq!(FDCAN_FetPack_t::decode(&buf), Ok(pack));
}

#[test]
fn mixed_signs_keep_their_fields_apart() {
    let pack = FDCAN_RelPackCap_t { cap_volt: 0xFFFF_FFFE, cap_curr: -2 };
    let mut buf = [0u8; 8];
    assert_eq!(pack.encode(&mut buf), Ok(8));
    assert_eq!(buf, [0xFF, 0xFF, 0xFF, 0xFE, 0xFF, 0xFF, 0xFF, 0xFE]);
    assert_eq!(FDCAN_RelPackCap_t::decode(&buf), Ok(pack));
    let temp = FDCAN_FccPack1_t { fc_temp: -1, fc_press: 1 };
    assert_eq!(temp.encode(&mut buf), Ok(8));
    assert_eq!(buf, [0xFF, 0xFF, 0xFF, 0xFF, 0x00, 0x00, 0x00, 0x01]);
}

#[test]
fn sixteen_bit_packs_are_laid_out_without_padding() {
    let pack = ECOCAN_H2Pack1_t { h2_sense_1: 1, h2_sense_2: 2, h2_sense_3: 3, h2_sense_4: 0x0405 };
    let mut buf = [0u8; 8];
    assert_eq!(pack.encode(&mut buf), Ok(8));
    assert_eq!(buf, [0, 1, 0, 2, 0, 3, 4, 5]);
    let batt = FDCAN_BATTPack2_t { out_curr: 0x0A0B, out_volt: 0x0C0D };
    let mut small = [0u8; 4];
    assert_eq!(batt.encode(&mut small), Ok(4));
    assert_eq!(small, [0x0A, 0x0B, 0x0C, 0x0D]);
    assert_eq!(FDCAN_BATTPack2_t::decode(&small), Ok(batt));
}

#[test]
fn every_record_survives_the_round_trip() {
    for record in every_record() {
        let mut buf = [0u8; 64];
        let written = record.encode(&mut buf).unwrap();
        assert_eq!(written, record.length().bytes());
        assert_eq!(decode_can_data(record.id(), &buf[..written]), Ok(Some(record)));
    }
}

#[test]
fn trailing_bytes_are_ignored() {
    for record in every_record() {
        let mut buf = [0xA5u8; 64];
        let written = record.encode(&mut buf).unwrap();
        assert!(buf[written..].iter().all(|byte| *byte == 0xA5));
        assert_eq!(decode_can_data(record.id(), &buf), Ok(Some(record)));
    }
}

#[test]
fn small_values_round_trip_exhaustively() {
    for value in 0..=u8::MAX {
        let pack = ECOCAN_H2_ARM_ALARM_t { h2_alarm_armed: value };
        let mut buf = [0u8; 1];
        assert_eq!(pack.encode(&mut buf), Ok(1));
        assert_eq!(buf, [value]);
        assert_eq!(ECOCAN_H2_ARM_ALARM_t::decode(&buf), Ok(pack));
    }
    for value in 0..=u16::MAX {
        let pack = FDCAN_BATTPack2_t { out_curr: value, out_volt: !value };
        let mut buf = [0u8; 4];
        assert_eq!(pack.encode(&mut buf), Ok(4));
        assert_eq!(FDCAN_BATTPack2_t::decode(&buf), Ok(pack));
    }
}

#[test]
fn wide_values_round_trip_on_samples() {
    let samples: [i32; 9] = [i32::MIN, i32::MIN + 1, -65_536, -256, -1, 0, 1, 0x0102_0304, i32::MAX];
    for a in samples {
        for b in samples {
            let signed = FDCAN_RelPackNrg_t { fc_joules: a, cap_joules: b };
            let mut buf = [0u8; 8];
            assert_eq!(signed.encode(&mut buf), Ok(8));
            assert_eq!(FDCAN_RelPackNrg_t::decode(&buf), Ok(signed));
            let unsigned = FDCAN_RelPackFc_t { fc_volt: a as u32, fc_curr: b as u32 };
            assert_eq!(unsigned.encode(&mut buf), Ok(8));
            assert_eq!(FDCAN_RelPackFc_t::decode(&buf), Ok(unsigned));
        }
    }
}

#[test]
fn a_short_payload_is_truncated_for_every_package() {
    for record in every_record() {
        let mut buf = [0u8; 64];
        let written = record.encode(&mut buf).unwrap();
        for len in 0..written {
            assert_eq!(
                decode_can_data(record.id(), &buf[..len]),
                Err(DecodeFault::TruncatedInput)
            );
        }
    }
}

#[test]
fn a_small_buffer_is_refused_and_left_alone() {
    for record in every_record() {
        let needed = record.length().bytes();
        for len in 0..needed {
            let mut buf = vec![0x5Au8; len];
            assert_eq!(record.encode(&mut buf), Err(EncodeFault::BufferTooSmall));
            assert!(buf.iter().all(|byte| *byte == 0x5A));
        }
    }
    let pack = FDCAN_RelPackMtr_t { mtr_volt: 1, mtr_curr: 2 };
    let mut seven = [0u8; 7];
    assert_eq!(pack.encode(&mut seven), Err(EncodeFault::BufferTooSmall));
    assert_eq!(seven, [0u8; 7]);
}

#[test]
fn the_wire_format_is_the_one_of_bincode_tuples() {
    let pack = FDCAN_RelPackCap_t { cap_volt: 0x1122_3344, cap_curr: -0x0102_0304 };
    let mut ours = [0u8; 8];
    let mut theirs = [0u8; 8];
    assert_eq!(pack.encode(&mut ours), Ok(8));
    let written =
        bincode::encode_into_slice((pack.cap_volt, pack.cap_curr), &mut theirs, big_endian())
            .unwrap();
    assert_eq!(written, 8);
    assert_eq!(ours, theirs);
    let sensors = ECOCAN_H2Pack2_t { bme_temp: 1, bme_humid: 2, imon_7v: 3, imon_12v: 0xFFFE };
    assert_eq!(sensors.encode(&mut ours), Ok(8));
    bincode::encode_into_slice(
        (sensors.bme_temp, sensors.bme_humid, sensors.imon_7v, sensors.imon_12v),
        &mut theirs,
        big_endian(),
    )
    .unwrap();
    assert_eq!(ours, theirs);
    let (decoded, read): ((u16, u16, u16, u16), usize) =
        bincode::decode_from_slice(&ours, big_endian()).unwrap();
    assert_eq!(read, 8);
    assert_eq!(decoded, (1, 2, 3, 0xFFFE));
}

#[test]
fn defaults_are_all_zero() {
    assert_eq!(
        FDCAN_FetPack_t::default(),
        FDCAN_FetPack_t {
            fet_config: 0,
            input_volt: 0,
            cap_volt: 0,
            cap_curr: 0,
            res_curr: 0,
            out_curr: 0
        }
    );
    assert_eq!(
        ECOCAN_RelPackChrg_t::default(),
        ECOCAN_RelPackChrg_t { fc_coloumbs: 0, cap_coloumbs: 0 }
    );
    assert_eq!(FDCAN_RelPackNrg_t::default(), FDCAN_RelPackNrg_t { fc_joules: 0, cap_joules: 0 });
    assert_eq!(FDCAN_RelPackMtr_t::default(), FDCAN_RelPackMtr_t { mtr_volt: 0, mtr_curr: 0 });
    assert_eq!(FDCAN_RelPackCap_t::default(), FDCAN_RelPackCap_t { cap_volt: 0, cap_curr: 0 });
    assert_eq!(FDCAN_RelPackFc_t::default(), FDCAN_RelPackFc_t { fc_volt: 0, fc_curr: 0 });
    assert_eq!(FDCAN_FccPack1_t::default(), FDCAN_FccPack1_t { fc_temp: 0, fc_press: 0 });
    assert_eq!(FDCAN_FccPack2_t::default(), FDCAN_FccPack2_t { fan_rpm1: 0, fan_rpm2: 0 });
    assert_eq!(FDCAN_FccPack3_t::default(), FDCAN_FccPack3_t { bme_temp: 0, bme_humid: 0 });
    assert_eq!(
        ECOCAN_H2Pack1_t::default(),
        ECOCAN_H2Pack1_t { h2_sense_1: 0, h2_sense_2: 0, h2_sense_3: 0, h2_sense_4: 0 }
    );
    assert_eq!(
        ECOCAN_H2Pack2_t::default(),
        ECOCAN_H2Pack2_t { bme_temp: 0, bme_humid: 0, imon_7v: 0, imon_12v: 0 }
    );
    assert_eq!(ECOCAN_H2_ARM_ALARM_t::default(), ECOCAN_H2_ARM_ALARM_t { h2_alarm_armed: 0 });
    assert_eq!(FDCAN_BOOSTPack1_t::default(), FDCAN_BOOSTPack1_t { in_curr: 0, in_volt: 0 });
    assert_eq!(FDCAN_BOOSTPack2_t::default(), FDCAN_BOOSTPack2_t { out_curr: 0, out_volt: 0 });
    assert_eq!(FDCAN_BOOSTPack3_t::default(), FDCAN_BOOSTPack3_t { efficiency: 0, joules: 0 });
    assert_eq!(FDCAN_BATTPack2_t::default(), FDCAN_BATTPack2_t { out_curr: 0, out_volt: 0 });
    assert_eq!(RelayState::default(), RelayState::RELAY_STBY);
}

#[test]
fn field_kinds_know_their_width_and_sign() {
    assert_eq!(FieldKind::U8.width(), 1);
    assert_eq!(FieldKind::U16.width(), 2);
    assert_eq!(FieldKind::U32.width(), 4);
    assert_eq!(FieldKind::I8.width(), 1);
    assert_eq!(FieldKind::I16.width(), 2);
    assert_eq!(FieldKind::I32.width(), 4);
    assert!(FieldKind::I8.signed());
    assert!(FieldKind::I16.signed());
    assert!(FieldKind::I32.signed());
    assert!(!FieldKind::U8.signed());
    assert!(!FieldKind::U16.signed());
    assert!(!FieldKind::U32.signed());
}

#[test]
fn layouts_fill_the_declared_length() {
    assert_eq!(FDCAN_FetPack_t::fields(), vec![FieldKind::U32; 6]);
    assert_eq!(FDCAN_RelPackCap_t::fields(), vec![FieldKind::U32, FieldKind::I32]);
    assert_eq!(FDCAN_FccPack1_t::fields(), vec![FieldKind::I32, FieldKind::U32]);
    assert_eq!(ECOCAN_H2Pack1_t::fields(), vec![FieldKind::U16; 4]);
    assert_eq!(ECOCAN_H2_ARM_ALARM_t::fields(), vec![FieldKind::U8]);
    assert_eq!(RelayState::fields(), vec![FieldKind::U8]);
    let width: usize = FDCAN_FetPack_t::fields().iter().map(|kind| kind.width()).sum();
    assert_eq!(width, FDCAN_FetPack_t::FDCAN_BYTES.bytes());
    let width: usize = FDCAN_BATTPack2_t::fields().iter().map(|kind| kind.width()).sum();
    assert_eq!(width, FDCAN_BATTPack2_t::FDCAN_BYTES.bytes());
}
