use dashboard::catalog::{descriptor, identifiers, lookup, CATALOG_SIZE};
use dashboard::eco_can::{
    ECOCAN_H2Pack1_t, ECOCAN_H2Pack2_t, ECOCAN_H2_ARM_ALARM_t, ECOCAN_RelPackChrg_t, FDCANLength,
    FDCANPack, FDCAN_BATTPack2_t, FDCAN_BOOSTPack1_t, FDCAN_BOOSTPack2_t, FDCAN_BOOSTPack3_t,
    FDCAN_FccPack1_t, FDCAN_FccPack2_t, FDCAN_FccPack3_t, FDCAN_FetPack_t, FDCAN_RelPackCap_t,
    FDCAN_RelPackFc_t, FDCAN_RelPackMtr_t, FDCAN_RelPackNrg_t, RelayState,
};
use dashboard::store::Store;
use dashboard::layout::FieldKind;

#[test]
fn packages_keep_their_identifiers_and_lengths() {
    assert_eq!(FDCAN_FetPack_t::FDCAN_ID, 0x010);
    assert_eq!(FDCAN_FetPack_t::FDCAN_BYTES, FDCANLength::BYTES_24);
    assert_eq!(ECOCAN_RelPackChrg_t::FDCAN_ID, 0x013);
    assert_eq!(ECOCAN_RelPackChrg_t::FDCAN_BYTES, FDCANLength::BYTES_8);
    assert_eq!(FDCAN_RelPackNrg_t::FDCAN_ID, 0x014);
    assert_eq!(FDCAN_RelPackNrg_t::FDCAN_BYTES, FDCANLength::BYTES_8);
    assert_eq!(FDCAN_RelPackMtr_t::FDCAN_ID, 0x015);
    assert_eq!(FDCAN_RelPackMtr_t::FDCAN_BYTES, FDCANLength::BYTES_8);
    assert_eq!(FDCAN_RelPackCap_t::FDCAN_ID, 0x016);
    assert_eq!(FDCAN_RelPackCap_t::FDCAN_BYTES, FDCANLength::BYTES_8);
    assert_eq!(FDCAN_RelPackFc_t::FDCAN_ID, 0x017);
    assert_eq!(FDCAN_RelPackFc_t::FDCAN_BYTES, FDCANLength::BYTES_8);
    assert_eq!(RelayState::FDCAN_ID, 0x018);
    assert_eq!(RelayState::FDCAN_BYTES, FDCANLength::BYTES_1);
    assert_eq!(FDCAN_FccPack1_t::FDCAN_ID, 0x020);
    assert_eq!(FDCAN_FccPack1_t::FDCAN_BYTES, FDCANLength::BYTES_8);
    assert_eq!(FDCAN_FccPack2_t::FDCAN_ID, 0x021);
    assert_eq!(FDCAN_FccPack2_t::FDCAN_BYTES, FDCANLength::BYTES_8);
    assert_eq!(FDCAN_FccPack3_t::FDCAN_ID, 0x022);
    assert_eq!(FDCAN_FccPack3_t::FDCAN_BYTES, FDCANLength::BYTES_8);
    assert_eq!(ECOCAN_H2Pack1_t::FDCAN_ID, 0x030);
    assert_eq!(ECOCAN_H2Pack1_t::FDCAN_BYTES, FDCANLength::BYTES_8);
    assert_eq!(ECOCAN_H2Pack2_t::FDCAN_ID, 0x031);
    assert_eq!(ECOCAN_H2Pack2_t::FDCAN_BYTES, FDCANLength::BYTES_8);
    assert_eq!(ECOCAN_H2_ARM_ALARM_t::FDCAN_ID, 0x032);
    assert_eq!(ECOCAN_H2_ARM_ALARM_t::FDCAN_BYTES, FDCANLength::BYTES_1);
    assert_eq!(FDCAN_BOOSTPack1_t::FDCAN_ID, 0x040);
    assert_eq!(FDCAN_BOOSTPack1_t::FDCAN_BYTES, FDCANLength::BYTES_8);
    assert_eq!(FDCAN_BOOSTPack2_t::FDCAN_ID, 0x041);
    assert_eq!(FDCAN_BOOSTPack2_t::FDCAN_BYTES, FDCANLength::BYTES_8);
    assert_eq!(FDCAN_BOOSTPack3_t::FDCAN_ID, 0x042);
    assert_eq!(FDCAN_BOOSTPack3_t::FDCAN_BYTES, FDCANLength::BYTES_8);
    assert_eq!(FDCAN_BATTPack2_t::FDCAN_ID, 0x050);
    assert_eq!(FDCAN_BATTPack2_t::FDCAN_BYTES, FDCANLength::BYTES_4);
}

#[test]
fn identifiers_are_unique_and_ascending() {
    let ids = identifiers();
    assert_eq!(ids.len(), CATALOG_SIZE);
    assert_eq!(
        ids,
        vec![
            0x010, 0x013, 0x014, 0x015, 0x016, 0x017, 0x018, 0x020, 0x021, 0x022, 0x030, 0x031,
            0x032, 0x040, 0x041, 0x042, 0x050
        ]
    );
    assert!(ids.windows(2).all(|pair| pair[0] < pair[1]));
}

#[test]
fn lookup_finds_exactly_the_catalog() {
    let ids = identifiers();
    for id in 0..=0x0FFFu32 {
        assert_eq!(lookup(id).is_some(), ids.contains(&id));
    }
    assert!(lookup(u32::MAX).is_none());
}

#[test]
fn descriptors_give_length_and_layout() {
    let fet = lookup(0x010).unwrap();
    assert_eq!(fet.id, 0x010);
    assert_eq!(fet.length, FDCANLength::BYTES_24);
    assert_eq!(fet.fields, vec![FieldKind::U32; 6]);

    let cap = lookup(0x016).unwrap();
    assert_eq!(cap.length, FDCANLength::BYTES_8);
    assert_eq!(cap.fields, vec![FieldKind::U32, FieldKind::I32]);

    let chrg = lookup(0x013).unwrap();
    assert_eq!(chrg.fields, vec![FieldKind::I32, FieldKind::I32]);

    let relay = lookup(0x018).unwrap();
    assert_eq!(relay.length, FDCANLength::BYTES_1);
    assert_eq!(relay.fields, vec![FieldKind::U8]);

    let h2 = lookup(0x031).unwrap();
    assert_eq!(h2.fields, vec![FieldKind::U16; 4]);

    let batt = lookup(0x050).unwrap();
    assert_eq!(batt.length, FDCANLength::BYTES_4);
    assert_eq!(batt.fields, vec![FieldKind::U16, FieldKind::U16]);

    let typed = descriptor::<FDCAN_FccPack1_t>();
    assert_eq!(typed.id, 0x020);
    assert_eq!(typed.length, FDCANLength::BYTES_8);
    assert_eq!(typed.fields, vec![FieldKind::I32, FieldKind::U32]);
}

#[test]
fn every_entry_fills_a_legal_length() {
    for id in identifiers() {
        let entry = lookup(id).unwrap();
        assert_eq!(entry.id, id);
        let width: usize = entry.fields.iter().map(|kind| kind.width()).sum();
        assert_eq!(width, entry.length.bytes());
        assert_eq!(FDCANLength::from_bytes(width), Some(entry.length));
        assert!(width <= 64);
    }
}

#[test]
fn the_store_has_a_slot_for_every_entry() {
    let store = Store::new();
    for id in identifiers() {
        let record = store.read(id).unwrap();
        assert_eq!(record.id(), id);
        assert_eq!(record.length(), lookup(id).unwrap().length);
    }
}
