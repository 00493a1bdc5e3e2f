use dashboard::can_mod::{
    decode_can_frame, encode_can_package, process_rx_can_frame, publish, RouteOutcome, Severity,
};
use dashboard::catalog::identifiers;
use dashboard::eco_can::{
    FDCAN_FccPack1_t, FDCAN_FetPack_t, FDCAN_RelPackCap_t, FDCAN_RelPackMtr_t, RelayState,
};
use dashboard::fault::{DecodeFault, EncodeFault};
use dashboard::frame::{FrameId, InboundFrame, OutboundFrame, MAX_PAYLOAD};
use dashboard::record::Record;
use dashboard::store::Store;

fn snapshot(store: &Store) -> Vec<Option<Record>> {
    identifiers().iter().map(|id| store.read(*id)).collect()
}

fn standard<'a>(id: u16, payload: &'a [u8]) -> InboundFrame<'a> {
    InboundFrame::new(FrameId::Standard(id), payload).unwrap()
}

#[test]
fn motor_frame_updates_the_motor_slot() {
    let mut store = Store::new();
    let payload = [0x00, 0x00, 0x00, 0x05, 0x00, 0x00, 0x00, 0x0A];
    let outcome = decode_can_frame(&mut store, &standard(0x015, &payload));
    assert_eq!(outcome, RouteOutcome::Updated(0x015));
    assert_eq!(
        store.read(0x015),
        Some(Record::RelPackMtr(FDCAN_RelPackMtr_t { mtr_volt: 5, mtr_curr: 10 }))
    );
}

#[test]
fn relay_frame_zero_sets_standby_and_ff_is_rejected() {
    let mut store = Store::new();
    store.write(Record::RelayState(RelayState::RELAY_RUN));
    let outcome = decode_can_frame(&mut store, &standard(0x018, &[0x00]));
    assert_eq!(outcome, RouteOutcome::Updated(0x018));
    assert_eq!(store.read(0x018), Some(Record::RelayState(RelayState::RELAY_STBY)));

    store.write(Record::RelayState(RelayState::RELAY_CHRGE));
    let outcome = decode_can_frame(&mut store, &standard(0x018, &[0xFF]));
    assert_eq!(outcome, RouteOutcome::Rejected(0x018, DecodeFault::InvalidEnumeratedValue));
    assert_eq!(store.read(0x018), Some(Record::RelayState(RelayState::RELAY_CHRGE)));
}

#[test]
fn relay_slot_accepts_exactly_the_legal_patterns() {
    for byte in 0..=u8::MAX {
        let mut store = Store::new();
        store.write(Record::RelayState(RelayState::RELAY_STRTP));
        let before = snapshot(&store);
        let outcome = decode_can_frame(&mut store, &standard(0x018, &[byte]));
        let state = match byte {
            0x00 => Some(RelayState::RELAY_STBY),
            0x02 => Some(RelayState::RELAY_CHRGE),
            0x06 => Some(RelayState::RELAY_STRTP),
            0x0D => Some(RelayState::RELAY_RUN),
            _ => None,
        };
        match state {
            Some(state) => {
                assert_eq!(outcome, RouteOutcome::Updated(0x018));
                assert_eq!(store.read(0x018), Some(Record::RelayState(state)));
            }
            None => {
                assert_eq!(
                    outcome,
                    RouteOutcome::Rejected(0x018, DecodeFault::InvalidEnumeratedValue)
                );
                assert_eq!(snapshot(&store), before);
            }
        }
    }
}

#[test]
fn empty_relay_frame_is_truncated() {
    let mut store = Store::new();
    let outcome = decode_can_frame(&mut store, &standard(0x018, &[]));
    assert_eq!(outcome, RouteOutcome::Rejected(0x018, DecodeFault::TruncatedInput));
    assert_eq!(store.read(0x018), Some(Record::RelayState(RelayState::RELAY_STBY)));
}

#[test]
fn short_payload_is_rejected_and_the_slot_keeps_its_value() {
    let mut store = Store::new();
    let good = [0u8, 0, 0, 1, 0, 0, 0, 2];
    assert_eq!(decode_can_frame(&mut store, &standard(0x016, &good)), RouteOutcome::Updated(0x016));
    let before = snapshot(&store);
    for len in 0..8 {
        let short = [0xFFu8; 8];
        let outcome = decode_can_frame(&mut store, &standard(0x016, &short[..len]));
        assert_eq!(outcome, RouteOutcome::Rejected(0x016, DecodeFault::TruncatedInput));
        assert_eq!(snapshot(&store), before);
    }
    assert_eq!(
        store.read(0x016),
        Some(Record::RelPackCap(FDCAN_RelPackCap_t { cap_volt: 1, cap_curr: 2 }))
    );
    let fet = [0u8; 23];
    assert_eq!(
        decode_can_frame(&mut store, &standard(0x010, &fet)),
        RouteOutcome::Rejected(0x010, DecodeFault::TruncatedInput)
    );
    assert_eq!(snapshot(&store), before);
}

#[test]
fn unknown_identifier_is_unmatched_and_nothing_changes() {
    let mut store = Store::new();
    let payload = [1u8, 2, 3, 4, 5, 6, 7, 8];
    decode_can_frame(&mut store, &standard(0x020, &payload));
    let before = snapshot(&store);
    for id in [0x000u32, 0x001, 0x00F, 0x011, 0x012, 0x019, 0x023, 0x033, 0x051, 0x0FF, 0x999] {
        let frame = InboundFrame::new(FrameId::Extended(id), &payload).unwrap();
        assert_eq!(decode_can_frame(&mut store, &frame), RouteOutcome::Unmatched(id));
        assert_eq!(snapshot(&store), before);
    }
    let far = InboundFrame::new(FrameId::Extended(u32::MAX), &payload).unwrap();
    assert_eq!(decode_can_frame(&mut store, &far), RouteOutcome::Unmatched(u32::MAX));
    assert_eq!(snapshot(&store), before);
}

#[test]
fn every_identifier_outside_the_catalog_is_unmatched() {
    let known = identifiers();
    let mut store = Store::new();
    let before = snapshot(&store);
    let payload = [0u8; 64];
    for id in 0..0x1000u32 {
        if known.contains(&id) {
            continue;
        }
        let frame = InboundFrame::new(FrameId::Extended(id), &payload).unwrap();
        assert_eq!(decode_can_frame(&mut store, &frame), RouteOutcome::Unmatched(id));
    }
    assert_eq!(snapshot(&store), before);
}

#[test]
fn routing_a_frame_twice_is_routing_it_once() {
    let payload = [0xFFu8, 0xFF, 0xFF, 0xD8, 0x00, 0x01, 0x8B, 0xCD];
    let mut once = Store::new();
    let mut twice = Store::new();
    let frame = standard(0x020, &payload);
    assert_eq!(decode_can_frame(&mut once, &frame), RouteOutcome::Updated(0x020));
    assert_eq!(decode_can_frame(&mut twice, &frame), RouteOutcome::Updated(0x020));
    assert_eq!(decode_can_frame(&mut twice, &frame), RouteOutcome::Updated(0x020));
    assert_eq!(snapshot(&once), snapshot(&twice));
    assert_eq!(
        twice.read(0x020),
        Some(Record::FccPack1(FDCAN_FccPack1_t { fc_temp: -40, fc_press: 101_325 }))
    );
    let bad = standard(0x018, &[0x03]);
    let rejected = decode_can_frame(&mut twice, &bad);
    assert_eq!(decode_can_frame(&mut twice, &bad), rejected);
    assert_eq!(snapshot(&once), snapshot(&twice));
}

#[test]
fn the_latest_frame_wins() {
    let mut store = Store::new();
    decode_can_frame(&mut store, &standard(0x015, &[0, 0, 0, 1, 0, 0, 0, 1]));
    decode_can_frame(&mut store, &standard(0x015, &[0, 0, 0, 2, 0, 0, 0, 3]));
    assert_eq!(
        store.read(0x015),
        Some(Record::RelPackMtr(FDCAN_RelPackMtr_t { mtr_volt: 2, mtr_curr: 3 }))
    );
}

#[test]
fn a_write_touches_one_slot() {
    let mut store = Store::new();
    let before = snapshot(&store);
    let pack = FDCAN_FetPack_t {
        fet_config: 1,
        input_volt: 2,
        cap_volt: 3,
        cap_curr: 4,
        res_curr: 5,
        out_curr: 6,
    };
    store.write(Record::FetPack(pack));
    let after = snapshot(&store);
    let ids = identifiers();
    for (index, id) in ids.iter().enumerate() {
        if *id == 0x010 {
            assert_eq!(after[index], Some(Record::FetPack(pack)));
        } else {
            assert_eq!(after[index], before[index]);
        }
    }
}

#[test]
fn a_new_store_holds_the_defaults() {
    let store = Store::new();
    assert_eq!(store.read(0x018), Some(Record::RelayState(RelayState::RELAY_STBY)));
    assert_eq!(store.read(0x010), Some(Record::FetPack(FDCAN_FetPack_t::default())));
    assert_eq!(store.read(0x015), Some(Record::RelPackMtr(FDCAN_RelPackMtr_t::default())));
    for id in identifiers() {
        let record = store.read(id).unwrap();
        assert_eq!(record.id(), id);
        let mut buf = [0xFFu8; 64];
        let written = record.encode(&mut buf).unwrap();
        assert!(buf[..written].iter().all(|byte| *byte == 0));
    }
    assert_eq!(store.read(0x999), None);
    assert_eq!(snapshot(&Store::default()), snapshot(&store));
}

#[test]
fn a_read_is_a_copy() {
    let mut store = Store::new();
    let first = store.read(0x015);
    store.write(Record::RelPackMtr(FDCAN_RelPackMtr_t { mtr_volt: 9, mtr_curr: 9 }));
    assert_eq!(first, Some(Record::RelPackMtr(FDCAN_RelPackMtr_t { mtr_volt: 0, mtr_curr: 0 })));
}

#[test]
fn the_router_says_what_to_store_and_how_to_report() {
    let decoded = process_rx_can_frame(&standard(0x015, &[0, 0, 0, 5, 0, 0, 0, 10]));
    assert_eq!(decoded.outcome, RouteOutcome::Updated(0x015));
    assert_eq!(
        decoded.update,
        Some(Record::RelPackMtr(FDCAN_RelPackMtr_t { mtr_volt: 5, mtr_curr: 10 }))
    );
    assert_eq!(decoded.severity, Severity::Silent);

    let unknown = process_rx_can_frame(&standard(0x7FF, &[1]));
    assert_eq!(unknown.outcome, RouteOutcome::Unmatched(0x7FF));
    assert_eq!(unknown.update, None);
    assert_eq!(unknown.severity, Severity::Trace);

    let short = process_rx_can_frame(&standard(0x015, &[0, 0, 0, 5]));
    assert_eq!(short.outcome, RouteOutcome::Rejected(0x015, DecodeFault::TruncatedInput));
    assert_eq!(short.update, None);
    assert_eq!(short.severity, Severity::Error);

    let invalid = process_rx_can_frame(&standard(0x018, &[0xFF]));
    assert_eq!(
        invalid.outcome,
        RouteOutcome::Rejected(0x018, DecodeFault::InvalidEnumeratedValue)
    );
    assert_eq!(invalid.update, None);
    assert_eq!(invalid.severity, Severity::Anomaly);
}

#[test]
fn severities_follow_the_outcome() {
    assert_eq!(RouteOutcome::Updated(1).severity(), Severity::Silent);
    assert_eq!(RouteOutcome::Unmatched(1).severity(), Severity::Trace);
    assert_eq!(RouteOutcome::Rejected(1, DecodeFault::TruncatedInput).severity(), Severity::Error);
    assert_eq!(
        RouteOutcome::Rejected(1, DecodeFault::InvalidEnumeratedValue).severity(),
        Severity::Anomaly
    );
}

#[test]
fn the_publisher_encodes_the_slot() {
    let mut store = Store::new();
    store.write(Record::RelPackMtr(FDCAN_RelPackMtr_t { mtr_volt: 0x0102_0304, mtr_curr: 7 }));
    let mut tx_data = [0xEEu8; 64];
    assert_eq!(encode_can_package(&store, 0x015, &mut tx_data), Ok(8));
    assert_eq!(tx_data[..8], [1, 2, 3, 4, 0, 0, 0, 7]);
    assert!(tx_data[8..].iter().all(|byte| *byte == 0xEE));

    store.write(Record::RelayState(RelayState::RELAY_RUN));
    assert_eq!(encode_can_package(&store, 0x018, &mut tx_data), Ok(1));
    assert_eq!(tx_data[..2], [0x0D, 2]);
}

#[test]
fn the_publisher_reports_its_faults() {
    let store = Store::new();
    let mut short = [0xEEu8; 7];
    assert_eq!(encode_can_package(&store, 0x015, &mut short), Err(EncodeFault::BufferTooSmall));
    assert_eq!(short, [0xEEu8; 7]);
    let mut tx_data = [0xEEu8; 64];
    assert_eq!(
        encode_can_package(&store, 0x999, &mut tx_data),
        Err(EncodeFault::UnmatchedIdentifier)
    );
    assert_eq!(tx_data, [0xEEu8; 64]);
}

#[test]
fn what_is_published_routes_back() {
    let mut sender = Store::new();
    sender.write(Record::FccPack1(FDCAN_FccPack1_t { fc_temp: -273, fc_press: 9 }));
    sender.write(Record::RelayState(RelayState::RELAY_STRTP));
    let mut receiver = Store::new();
    for id in identifiers() {
        let mut tx_data = [0u8; 64];
        let len = encode_can_package(&sender, id, &mut tx_data).unwrap();
        let frame = InboundFrame::new(FrameId::Extended(id), &tx_data[..len]).unwrap();
        assert_eq!(decode_can_frame(&mut receiver, &frame), RouteOutcome::Updated(id));
    }
    assert_eq!(snapshot(&receiver), snapshot(&sender));
}

#[test]
fn frames_carry_at_most_64_bytes() {
    let bytes = [0u8; 65];
    assert!(InboundFrame::new(FrameId::Standard(1), &bytes).is_none());
    let frame = InboundFrame::new(FrameId::Standard(1), &bytes[..MAX_PAYLOAD]).unwrap();
    assert_eq!(frame.length(), 64);
    assert_eq!(frame.data().len(), 64);
    let empty = InboundFrame::new(FrameId::Standard(1), &[]).unwrap();
    assert_eq!(empty.length(), 0);
}

#[test]
fn standard_and_extended_identifiers_share_one_space() {
    assert_eq!(FrameId::Standard(0x015).effective(), 0x015);
    assert_eq!(FrameId::Extended(0x015).effective(), 0x015);
    assert_eq!(FrameId::Standard(u16::MAX).effective(), 0xFFFF);
    assert_eq!(FrameId::Extended(0x1FFF_FFFF).effective(), 0x1FFF_FFFF);
    let payload = [0u8, 0, 0, 5, 0, 0, 0, 10];
    let a = InboundFrame::new(FrameId::Standard(0x015), &payload).unwrap();
    let b = InboundFrame::new(FrameId::Extended(0x015), &payload).unwrap();
    assert_eq!(a.identifier(), b.identifier());
    assert_eq!(a.data(), &payload);
    let mut store = Store::new();
    assert_eq!(decode_can_frame(&mut store, &b), RouteOutcome::Updated(0x015));
}

#[test]
fn a_published_frame_carries_identifier_and_payload() {
    let mut store = Store::new();
    store.write(Record::RelPackCap(FDCAN_RelPackCap_t { cap_volt: 0x0A0B_0C0D, cap_curr: -1 }));
    let frame = publish(&store, 0x016).unwrap();
    assert_eq!(frame.identifier(), 0x016);
    assert_eq!(frame.data(), &[0x0A, 0x0B, 0x0C, 0x0D, 0xFF, 0xFF, 0xFF, 0xFF]);

    store.write(Record::RelayState(RelayState::RELAY_STRTP));
    let frame = publish(&store, 0x018).unwrap();
    assert_eq!(frame.identifier(), 0x018);
    assert_eq!(frame.data(), &[0x06]);

    let fet = publish(&store, 0x010).unwrap();
    assert_eq!(fet.data(), &[0u8; 24]);
    assert!(publish(&store, 0x999).is_none());
    assert!(publish(&store, 0x001).is_none());
}

#[test]
fn every_slot_publishes_a_frame_of_its_declared_length() {
    let store = Store::new();
    for id in identifiers() {
        let frame = publish(&store, id).unwrap();
        assert_eq!(frame.identifier(), id);
        assert_eq!(frame.data().len(), store.read(id).unwrap().length().bytes());
        let back = InboundFrame::new(FrameId::Extended(frame.identifier()), frame.data()).unwrap();
        let mut receiver = Store::new();
        assert_eq!(decode_can_frame(&mut receiver, &back), RouteOutcome::Updated(id));
        assert_eq!(receiver.read(id), store.read(id));
    }
}

#[test]
fn an_outbound_frame_takes_the_leading_bytes() {
    let mut buffer = [0u8; 64];
    buffer[0] = 1;
    buffer[1] = 2;
    buffer[2] = 3;
    let frame = OutboundFrame::new(0x123, buffer, 2).unwrap();
    assert_eq!(frame.identifier(), 0x123);
    assert_eq!(frame.data(), &[1, 2]);
    assert_eq!(OutboundFrame::new(0x123, buffer, 0).unwrap().data().len(), 0);
    assert_eq!(OutboundFrame::new(0x123, buffer, 64).unwrap().data().len(), 64);
    assert!(OutboundFrame::new(0x123, buffer, 65).is_none());
}
