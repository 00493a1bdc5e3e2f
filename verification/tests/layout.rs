use dashboard::catalog::{identifiers, lookup};
use dashboard::eco_can::{
    ECOCAN_H2Pack2_t, ECOCAN_H2_ARM_ALARM_t, FDCANPack, FDCAN_FccPack1_t, FDCAN_FetPack_t,
    FDCAN_RelPackCap_t, RelayState,
};
use dashboard::fault::{DecodeFault, EncodeFault};
use dashboard::layout::{decode, encode, width_of, FieldKind, FieldValue};
use dashboard::record::Record;
use dashboard::store::Store;

fn samples() -> Vec<(u32, Vec<FieldValue>, Vec<u8>)> {
    let fet = FDCAN_FetPack_t {
        fet_config: 0x0102_0304,
        input_volt: 5,
        cap_volt: u32::MAX,
        cap_curr: 0,
        res_curr: 0x8000_0000,
        out_curr: 7,
    };
    let cap = FDCAN_RelPackCap_t { cap_volt: 0xAABB_CCDD, cap_curr: -2 };
    let fcc = FDCAN_FccPack1_t { fc_temp: i32::MIN, fc_press: 1 };
    let h2 = ECOCAN_H2Pack2_t { bme_temp: 1, bme_humid: 0x0203, imon_7v: u16::MAX, imon_12v: 0 };
    let alarm = ECOCAN_H2_ARM_ALARM_t { h2_alarm_armed: 0xA5 };
    let relay = RelayState::RELAY_RUN;
    let mut out = Vec::new();
    for record in [
        Record::FetPack(fet),
        Record::RelPackCap(cap),
        Record::FccPack1(fcc),
        Record::H2Pack2(h2),
        Record::H2ArmAlarm(alarm),
        Record::RelayState(relay),
    ] {
        let mut buf = [0u8; 64];
        let written = record.encode(&mut buf).unwrap();
        let fields = match record {
            Record::FetPack(pack) => pack.to_fields(),
            Record::RelPackCap(pack) => pack.to_fields(),
            Record::FccPack1(pack) => pack.to_fields(),
            Record::H2Pack2(pack) => pack.to_fields(),
            Record::H2ArmAlarm(pack) => pack.to_fields(),
            Record::RelayState(pack) => pack.to_fields(),
            _ => unreachable!(),
        };
        out.push((record.id(), fields, buf[..written].to_vec()));
    }
    out
}

#[test]
fn records_show_their_fields_with_kinds() {
    let cap = FDCAN_RelPackCap_t { cap_volt: 9, cap_curr: -9 };
    assert_eq!(cap.to_fields(), vec![FieldValue::U32(9), FieldValue::I32(-9)]);
    let h2 = ECOCAN_H2Pack2_t { bme_temp: 1, bme_humid: 2, imon_7v: 3, imon_12v: 4 };
    assert_eq!(
        h2.to_fields(),
        vec![FieldValue::U16(1), FieldValue::U16(2), FieldValue::U16(3), FieldValue::U16(4)]
    );
    assert_eq!(RelayState::RELAY_STRTP.to_fields(), vec![FieldValue::U8(0x06)]);
    assert_eq!(
        ECOCAN_H2_ARM_ALARM_t { h2_alarm_armed: 1 }.to_fields(),
        vec![FieldValue::U8(1)]
    );
    for (id, fields, _) in samples() {
        let kinds: Vec<FieldKind> = fields.iter().map(|field| field.kind()).collect();
        assert_eq!(kinds, lookup(id).unwrap().fields);
    }
}

#[test]
fn field_values_know_their_kind() {
    assert_eq!(FieldValue::U8(1).kind(), FieldKind::U8);
    assert_eq!(FieldValue::U16(1).kind(), FieldKind::U16);
    assert_eq!(FieldValue::U32(1).kind(), FieldKind::U32);
    assert_eq!(FieldValue::I8(-1).kind(), FieldKind::I8);
    assert_eq!(FieldValue::I16(-1).kind(), FieldKind::I16);
    assert_eq!(FieldValue::I32(-1).kind(), FieldKind::I32);
}

#[test]
fn decoding_under_the_catalog_layout_reads_the_record() {
    for (id, fields, payload) in samples() {
        let layout = lookup(id).unwrap().fields;
        assert_eq!(decode(&payload, &layout), Ok(fields));
    }
}

#[test]
fn encoding_fields_gives_the_payload_of_the_record() {
    for (_, fields, payload) in samples() {
        let mut buf = [0xEEu8; 64];
        assert_eq!(encode(&fields, &mut buf), Ok(payload.len()));
        assert_eq!(&buf[..payload.len()], &payload[..]);
        assert!(buf[payload.len()..].iter().all(|byte| *byte == 0xEE));
    }
}

#[test]
fn a_layout_decodes_exact_values() {
    let layout = [FieldKind::U8, FieldKind::I32, FieldKind::U16, FieldKind::U32];
    let bytes = [0x7F, 0xFF, 0xFF, 0xFF, 0xFE, 0x01, 0x02, 0x00, 0x00, 0x01, 0x00, 0x99];
    assert_eq!(width_of(&layout), Some(11));
    assert_eq!(
        decode(&bytes, &layout),
        Ok(vec![
            FieldValue::U8(0x7F),
            FieldValue::I32(-2),
            FieldValue::U16(0x0102),
            FieldValue::U32(0x100)
        ])
    );
    assert_eq!(decode(&bytes[..11], &layout).map(|fields| fields.len()), Ok(4));
    for len in 0..11 {
        assert_eq!(decode(&bytes[..len], &layout), Err(DecodeFault::TruncatedInput));
    }
}

#[test]
fn an_empty_layout_reads_nothing() {
    assert_eq!(width_of(&[]), Some(0));
    assert_eq!(decode(&[], &[]), Ok(vec![]));
    assert_eq!(decode(&[1, 2, 3], &[]), Ok(vec![]));
    let mut buf = [7u8; 2];
    assert_eq!(encode(&[], &mut buf), Ok(0));
    assert_eq!(buf, [7, 7]);
    let mut none: [u8; 0] = [];
    assert_eq!(encode(&[], &mut none), Ok(0));
}

#[test]
fn fields_encode_in_order_without_padding() {
    let fields = [
        FieldValue::U16(0x0102),
        FieldValue::U8(0x03),
        FieldValue::I32(-1),
        FieldValue::U32(0x0405_0607),
    ];
    let mut buf = [0u8; 12];
    assert_eq!(encode(&fields, &mut buf), Ok(11));
    assert_eq!(buf, [1, 2, 3, 0xFF, 0xFF, 0xFF, 0xFF, 4, 5, 6, 7, 0]);
    let kinds: Vec<FieldKind> = fields.iter().map(|field| field.kind()).collect();
    assert_eq!(decode(&buf, &kinds), Ok(fields.to_vec()));
}

#[test]
fn fields_that_do_not_fit_leave_the_buffer_alone() {
    let fields = [FieldValue::U32(1), FieldValue::U32(2), FieldValue::U16(3)];
    for len in 0..10 {
        let mut buf = vec![0x5Au8; len];
        assert_eq!(encode(&fields, &mut buf), Err(EncodeFault::BufferTooSmall));
        assert!(buf.iter().all(|byte| *byte == 0x5A));
    }
    let mut exact = [0u8; 10];
    assert_eq!(encode(&fields, &mut exact), Ok(10));
    assert_eq!(exact, [0, 0, 0, 1, 0, 0, 0, 2, 0, 3]);
}

#[test]
fn widths_add_up() {
    assert_eq!(width_of(&[FieldKind::U8]), Some(1));
    assert_eq!(width_of(&[FieldKind::U16, FieldKind::U16]), Some(4));
    assert_eq!(width_of(&[FieldKind::U32; 6]), Some(24));
    assert_eq!(width_of(&[FieldKind::I32, FieldKind::U8]), Some(5));
    for id in identifiers() {
        let entry = lookup(id).unwrap();
        assert_eq!(width_of(&entry.fields), Some(entry.length.bytes()));
    }
}

#[test]
fn every_slot_reads_as_zero_fields_at_first() {
    let store = Store::new();
    for id in identifiers() {
        let entry = lookup(id).unwrap();
        let mut buf = [0xFFu8; 64];
        let written = store.read(id).unwrap().encode(&mut buf).unwrap();
        let fields = decode(&buf[..written], &entry.fields).unwrap();
        for field in fields {
            let zero = match field {
                FieldValue::U8(x) => x == 0,
                FieldValue::U16(x) => x == 0,
                FieldValue::U32(x) => x == 0,
                FieldValue::I8(x) => x == 0,
                FieldValue::I16(x) => x == 0,
                FieldValue::I32(x) => x == 0,
            };
            assert!(zero);
        }
    }
}

#[test]
fn narrow_signed_fields_are_twos_complement() {
    let layout = [FieldKind::I8, FieldKind::I16, FieldKind::I8, FieldKind::I16];
    let bytes = [0xFF, 0x80, 0x00, 0x7F, 0xFF, 0xFE];
    assert_eq!(width_of(&layout), Some(6));
    let fields = vec![
        FieldValue::I8(-1),
        FieldValue::I16(i16::MIN),
        FieldValue::I8(i8::MAX),
        FieldValue::I16(-2),
    ];
    assert_eq!(decode(&bytes, &layout), Ok(fields.clone()));
    let mut buf = [0u8; 6];
    assert_eq!(encode(&fields, &mut buf), Ok(6));
    assert_eq!(buf, bytes);
}

#[test]
fn all_narrow_values_round_trip_under_a_layout() {
    for value in i8::MIN..=i8::MAX {
        let fields = [FieldValue::I8(value), FieldValue::U8(value as u8)];
        let mut buf = [0u8; 2];
        assert_eq!(encode(&fields, &mut buf), Ok(2));
        assert_eq!(buf, [value as u8, value as u8]);
        assert_eq!(decode(&buf, &[FieldKind::I8, FieldKind::U8]), Ok(fields.to_vec()));
    }
    for value in i16::MIN..=i16::MAX {
        let fields = [FieldValue::I16(value)];
        let mut buf = [0u8; 2];
        assert_eq!(encode(&fields, &mut buf), Ok(2));
        assert_eq!(buf, value.to_be_bytes());
        assert_eq!(decode(&buf, &[FieldKind::I16]), Ok(fields.to_vec()));
    }
}
