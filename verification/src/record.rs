//! A record of any package of the catalog, and the dispatch from a numeric
//! identifier to the package that it names.

use vstd::prelude::*;
use crate::catalog::{declared_length, in_catalog};
use crate::eco_can::{
    decoded, ECOCAN_H2_ARM_ALARM_t, ECOCAN_H2Pack1_t, ECOCAN_H2Pack2_t, ECOCAN_RelPackChrg_t,
    FDCAN_BATTPack2_t, FDCAN_BOOSTPack1_t, FDCAN_BOOSTPack2_t, FDCAN_BOOSTPack3_t,
    FDCAN_FccPack1_t, FDCAN_FccPack2_t, FDCAN_FccPack3_t, FDCAN_FetPack_t, FDCAN_RelPackCap_t,
    FDCAN_RelPackFc_t, FDCAN_RelPackMtr_t, FDCAN_RelPackNrg_t, FDCANLength, FDCANPack,
    lemma_packages, RelayState,
};
use crate::fault::{DecodeFault, EncodeFault};
use crate::wire::splice;

verus! {

/// A record of one of the packages of the catalog.
#[derive(Clone, Copy, Debug, PartialEq, Eq, Structural)]
pub enum Record {
    FetPack(FDCAN_FetPack_t),
    RelPackChrg(ECOCAN_RelPackChrg_t),
    RelPackNrg(FDCAN_RelPackNrg_t),
    RelPackMtr(FDCAN_RelPackMtr_t),
    RelPackCap(FDCAN_RelPackCap_t),
    RelPackFc(FDCAN_RelPackFc_t),
    RelayState(RelayState),
    FccPack1(FDCAN_FccPack1_t),
    FccPack2(FDCAN_FccPack2_t),
    FccPack3(FDCAN_FccPack3_t),
    H2Pack1(ECOCAN_H2Pack1_t),
    H2Pack2(ECOCAN_H2Pack2_t),
    H2ArmAlarm(ECOCAN_H2_ARM_ALARM_t),
    BoostPack1(FDCAN_BOOSTPack1_t),
    BoostPack2(FDCAN_BOOSTPack2_t),
    BoostPack3(FDCAN_BOOSTPack3_t),
    BattPack2(FDCAN_BATTPack2_t),
}

/// What a payload that arrived under `id` stands for: a record of the
/// package that `id` names, a fault where the payload does not decode as that
/// package, or `None` where the catalog holds no package of that identifier.
pub open spec fn parse_record(id: u32, payload: Seq<u8>) -> Result<Option<Record>, DecodeFault> {
    if id == FDCAN_FetPack_t::FDCAN_ID {
        match decoded::<FDCAN_FetPack_t>(payload) {
            Ok(pack) => Ok(Some(Record::FetPack(pack))),
            Err(fault) => Err(fault),
        }
    } else if id == ECOCAN_RelPackChrg_t::FDCAN_ID {
        match decoded::<ECOCAN_RelPackChrg_t>(payload) {
            Ok(pack) => Ok(Some(Record::RelPackChrg(pack))),
            Err(fault) => Err(fault),
        }
    } else if id == FDCAN_RelPackNrg_t::FDCAN_ID {
        match decoded::<FDCAN_RelPackNrg_t>(payload) {
            Ok(pack) => Ok(Some(Record::RelPackNrg(pack))),
            Err(fault) => Err(fault),
        }
    } else if id == FDCAN_RelPackMtr_t::FDCAN_ID {
        match decoded::<FDCAN_RelPackMtr_t>(payload) {
            Ok(pack) => Ok(Some(Record::RelPackMtr(pack))),
            Err(fault) => Err(fault),
        }
    } else if id == FDCAN_RelPackCap_t::FDCAN_ID {
        match decoded::<FDCAN_RelPackCap_t>(payload) {
            Ok(pack) => Ok(Some(Record::RelPackCap(pack))),
            Err(fault) => Err(fault),
        }
    } else if id == FDCAN_RelPackFc_t::FDCAN_ID {
        match decoded::<FDCAN_RelPackFc_t>(payload) {
            Ok(pack) => Ok(Some(Record::RelPackFc(pack))),
            Err(fault) => Err(fault),
        }
    } else if id == RelayState::FDCAN_ID {
        match decoded::<RelayState>(payload) {
            Ok(pack) => Ok(Some(Record::RelayState(pack))),
            Err(fault) => Err(fault),
        }
    } else if id == FDCAN_FccPack1_t::FDCAN_ID {
        match decoded::<FDCAN_FccPack1_t>(payload) {
            Ok(pack) => Ok(Some(Record::FccPack1(pack))),
            Err(fault) => Err(fault),
        }
    } else if id == FDCAN_FccPack2_t::FDCAN_ID {
        match decoded::<FDCAN_FccPack2_t>(payload) {
            Ok(pack) => Ok(Some(Record::FccPack2(pack))),
            Err(fault) => Err(fault),
        }
    } else if id == FDCAN_FccPack3_t::FDCAN_ID {
        match decoded::<FDCAN_FccPack3_t>(payload) {
            Ok(pack) => Ok(Some(Record::FccPack3(pack))),
            Err(fault) => Err(fault),
        }
    } else if id == ECOCAN_H2Pack1_t::FDCAN_ID {
        match decoded::<ECOCAN_H2Pack1_t>(payload) {
            Ok(pack) => Ok(Some(Record::H2Pack1(pack))),
            Err(fault) => Err(fault),
        }
    } else if id == ECOCAN_H2Pack2_t::FDCAN_ID {
        match decoded::<ECOCAN_H2Pack2_t>(payload) {
            Ok(pack) => Ok(Some(Record::H2Pack2(pack))),
            Err(fault) => Err(fault),
        }
    } else if id == ECOCAN_H2_ARM_ALARM_t::FDCAN_ID {
        match decoded::<ECOCAN_H2_ARM_ALARM_t>(payload) {
            Ok(pack) => Ok(Some(Record::H2ArmAlarm(pack))),
            Err(fault) => Err(fault),
        }
    } else if id == FDCAN_BOOSTPack1_t::FDCAN_ID {
        match decoded::<FDCAN_BOOSTPack1_t>(payload) {
            Ok(pack) => Ok(Some(Record::BoostPack1(pack))),
            Err(fault) => Err(fault),
        }
    } else if id == FDCAN_BOOSTPack2_t::FDCAN_ID {
        match decoded::<FDCAN_BOOSTPack2_t>(payload) {
            Ok(pack) => Ok(Some(Record::BoostPack2(pack))),
            Err(fault) => Err(fault),
        }
    } else if id == FDCAN_BOOSTPack3_t::FDCAN_ID {
        match decoded::<FDCAN_BOOSTPack3_t>(payload) {
            Ok(pack) => Ok(Some(Record::BoostPack3(pack))),
            Err(fault) => Err(fault),
        }
    } else if id == FDCAN_BATTPack2_t::FDCAN_ID {
        match decoded::<FDCAN_BATTPack2_t>(payload) {
            Ok(pack) => Ok(Some(Record::BattPack2(pack))),
            Err(fault) => Err(fault),
        }
    } else {
        Ok(None)
    }
}

/// Decodes a payload that arrived under `id` into a record of the package
/// that `id` names. An identifier that the catalog does not hold is no fault:
/// the bus carries traffic for other boards too.
pub fn decode_can_data(id: u32, rx_data: &[u8]) -> (r: Result<Option<Record>, DecodeFault>)
    ensures
        r == parse_record(id, rx_data@),
{
    if id == FDCAN_FetPack_t::FDCAN_ID {
        match FDCAN_FetPack_t::decode(rx_data) {
            Ok(pack) => Ok(Some(Record::FetPack(pack))),
            Err(fault) => Err(fault),
        }
    } else if id == ECOCAN_RelPackChrg_t::FDCAN_ID {
        match ECOCAN_RelPackChrg_t::decode(rx_data) {
            Ok(pack) => Ok(Some(Record::RelPackChrg(pack))),
            Err(fault) => Err(fault),
        }
    } else if id == FDCAN_RelPackNrg_t::FDCAN_ID {
        match FDCAN_RelPackNrg_t::decode(rx_data) {
            Ok(pack) => Ok(Some(Record::RelPackNrg(pack))),
            Err(fault) => Err(fault),
        }
    } else if id == FDCAN_RelPackMtr_t::FDCAN_ID {
        match FDCAN_RelPackMtr_t::decode(rx_data) {
            Ok(pack) => Ok(Some(Record::RelPackMtr(pack))),
            Err(fault) => Err(fault),
        }
    } else if id == FDCAN_RelPackCap_t::FDCAN_ID {
        match FDCAN_RelPackCap_t::decode(rx_data) {
            Ok(pack) => Ok(Some(Record::RelPackCap(pack))),
            Err(fault) => Err(fault),
        }
    } else if id == FDCAN_RelPackFc_t::FDCAN_ID {
        match FDCAN_RelPackFc_t::decode(rx_data) {
            Ok(pack) => Ok(Some(Record::RelPackFc(pack))),
            Err(fault) => Err(fault),
        }
    } else if id == RelayState::FDCAN_ID {
        match RelayState::decode(rx_data) {
            Ok(pack) => Ok(Some(Record::RelayState(pack))),
            Err(fault) => Err(fault),
        }
    } else if id == FDCAN_FccPack1_t::FDCAN_ID {
        match FDCAN_FccPack1_t::decode(rx_data) {
            Ok(pack) => Ok(Some(Record::FccPack1(pack))),
            Err(fault) => Err(fault),
        }
    } else if id == FDCAN_FccPack2_t::FDCAN_ID {
        match FDCAN_FccPack2_t::decode(rx_data) {
            Ok(pack) => Ok(Some(Record::FccPack2(pack))),
            Err(fault) => Err(fault),
        }
    } else if id == FDCAN_FccPack3_t::FDCAN_ID {
        match FDCAN_FccPack3_t::decode(rx_data) {
            Ok(pack) => Ok(Some(Record::FccPack3(pack))),
            Err(fault) => Err(fault),
        }
    } else if id == ECOCAN_H2Pack1_t::FDCAN_ID {
        match ECOCAN_H2Pack1_t::decode(rx_data) {
            Ok(pack) => Ok(Some(Record::H2Pack1(pack))),
            Err(fault) => Err(fault),
        }
    } else if id == ECOCAN_H2Pack2_t::FDCAN_ID {
        match ECOCAN_H2Pack2_t::decode(rx_data) {
            Ok(pack) => Ok(Some(Record::H2Pack2(pack))),
            Err(fault) => Err(fault),
        }
    } else if id == ECOCAN_H2_ARM_ALARM_t::FDCAN_ID {
        match ECOCAN_H2_ARM_ALARM_t::decode(rx_data) {
            Ok(pack) => Ok(Some(Record::H2ArmAlarm(pack))),
            Err(fault) => Err(fault),
        }
    } else if id == FDCAN_BOOSTPack1_t::FDCAN_ID {
        match FDCAN_BOOSTPack1_t::decode(rx_data) {
            Ok(pack) => Ok(Some(Record::BoostPack1(pack))),
            Err(fault) => Err(fault),
        }
    } else if id == FDCAN_BOOSTPack2_t::FDCAN_ID {
        match FDCAN_BOOSTPack2_t::decode(rx_data) {
            Ok(pack) => Ok(Some(Record::BoostPack2(pack))),
            Err(fault) => Err(fault),
        }
    } else if id == FDCAN_BOOSTPack3_t::FDCAN_ID {
        match FDCAN_BOOSTPack3_t::decode(rx_data) {
            Ok(pack) => Ok(Some(Record::BoostPack3(pack))),
            Err(fault) => Err(fault),
        }
    } else if id == FDCAN_BATTPack2_t::FDCAN_ID {
        match FDCAN_BATTPack2_t::decode(rx_data) {
            Ok(pack) => Ok(Some(Record::BattPack2(pack))),
            Err(fault) => Err(fault),
        }
    } else {
        Ok(None)
    }
}

impl Record {
    /// The identifier of the record's package.
    pub open spec fn spec_id(&self) -> u32 {
        match self {
            Record::FetPack(_) => FDCAN_FetPack_t::FDCAN_ID,
            Record::RelPackChrg(_) => ECOCAN_RelPackChrg_t::FDCAN_ID,
            Record::RelPackNrg(_) => FDCAN_RelPackNrg_t::FDCAN_ID,
            Record::RelPackMtr(_) => FDCAN_RelPackMtr_t::FDCAN_ID,
            Record::RelPackCap(_) => FDCAN_RelPackCap_t::FDCAN_ID,
            Record::RelPackFc(_) => FDCAN_RelPackFc_t::FDCAN_ID,
            Record::RelayState(_) => RelayState::FDCAN_ID,
            Record::FccPack1(_) => FDCAN_FccPack1_t::FDCAN_ID,
            Record::FccPack2(_) => FDCAN_FccPack2_t::FDCAN_ID,
            Record::FccPack3(_) => FDCAN_FccPack3_t::FDCAN_ID,
            Record::H2Pack1(_) => ECOCAN_H2Pack1_t::FDCAN_ID,
            Record::H2Pack2(_) => ECOCAN_H2Pack2_t::FDCAN_ID,
            Record::H2ArmAlarm(_) => ECOCAN_H2_ARM_ALARM_t::FDCAN_ID,
            Record::BoostPack1(_) => FDCAN_BOOSTPack1_t::FDCAN_ID,
            Record::BoostPack2(_) => FDCAN_BOOSTPack2_t::FDCAN_ID,
            Record::BoostPack3(_) => FDCAN_BOOSTPack3_t::FDCAN_ID,
            Record::BattPack2(_) => FDCAN_BATTPack2_t::FDCAN_ID,
        }
    }

    /// The declared length of the record's package.
    pub open spec fn spec_length(&self) -> FDCANLength {
        match self {
            Record::FetPack(_) => FDCAN_FetPack_t::FDCAN_BYTES,
            Record::RelPackChrg(_) => ECOCAN_RelPackChrg_t::FDCAN_BYTES,
            Record::RelPackNrg(_) => FDCAN_RelPackNrg_t::FDCAN_BYTES,
            Record::RelPackMtr(_) => FDCAN_RelPackMtr_t::FDCAN_BYTES,
            Record::RelPackCap(_) => FDCAN_RelPackCap_t::FDCAN_BYTES,
            Record::RelPackFc(_) => FDCAN_RelPackFc_t::FDCAN_BYTES,
            Record::RelayState(_) => RelayState::FDCAN_BYTES,
            Record::FccPack1(_) => FDCAN_FccPack1_t::FDCAN_BYTES,
            Record::FccPack2(_) => FDCAN_FccPack2_t::FDCAN_BYTES,
            Record::FccPack3(_) => FDCAN_FccPack3_t::FDCAN_BYTES,
            Record::H2Pack1(_) => ECOCAN_H2Pack1_t::FDCAN_BYTES,
            Record::H2Pack2(_) => ECOCAN_H2Pack2_t::FDCAN_BYTES,
            Record::H2ArmAlarm(_) => ECOCAN_H2_ARM_ALARM_t::FDCAN_BYTES,
            Record::BoostPack1(_) => FDCAN_BOOSTPack1_t::FDCAN_BYTES,
            Record::BoostPack2(_) => FDCAN_BOOSTPack2_t::FDCAN_BYTES,
            Record::BoostPack3(_) => FDCAN_BOOSTPack3_t::FDCAN_BYTES,
            Record::BattPack2(_) => FDCAN_BATTPack2_t::FDCAN_BYTES,
        }
    }

    /// The payload that stands for the record.
    pub open spec fn wire(&self) -> Seq<u8> {
        match self {
            Record::FetPack(pack) => pack.wire(),
            Record::RelPackChrg(pack) => pack.wire(),
            Record::RelPackNrg(pack) => pack.wire(),
            Record::RelPackMtr(pack) => pack.wire(),
            Record::RelPackCap(pack) => pack.wire(),
            Record::RelPackFc(pack) => pack.wire(),
            Record::RelayState(pack) => pack.wire(),
            Record::FccPack1(pack) => pack.wire(),
            Record::FccPack2(pack) => pack.wire(),
            Record::FccPack3(pack) => pack.wire(),
            Record::H2Pack1(pack) => pack.wire(),
            Record::H2Pack2(pack) => pack.wire(),
            Record::H2ArmAlarm(pack) => pack.wire(),
            Record::BoostPack1(pack) => pack.wire(),
            Record::BoostPack2(pack) => pack.wire(),
            Record::BoostPack3(pack) => pack.wire(),
            Record::BattPack2(pack) => pack.wire(),
        }
    }

    /// The identifier of the record's package.
    #[verifier::when_used_as_spec(spec_id)]
    pub fn id(&self) -> (id: u32)
        ensures
            id == self.spec_id(),
    {
        match self {
            Record::FetPack(_) => FDCAN_FetPack_t::FDCAN_ID,
            Record::RelPackChrg(_) => ECOCAN_RelPackChrg_t::FDCAN_ID,
            Record::RelPackNrg(_) => FDCAN_RelPackNrg_t::FDCAN_ID,
            Record::RelPackMtr(_) => FDCAN_RelPackMtr_t::FDCAN_ID,
            Record::RelPackCap(_) => FDCAN_RelPackCap_t::FDCAN_ID,
            Record::RelPackFc(_) => FDCAN_RelPackFc_t::FDCAN_ID,
            Record::RelayState(_) => RelayState::FDCAN_ID,
            Record::FccPack1(_) => FDCAN_FccPack1_t::FDCAN_ID,
            Record::FccPack2(_) => FDCAN_FccPack2_t::FDCAN_ID,
            Record::FccPack3(_) => FDCAN_FccPack3_t::FDCAN_ID,
            Record::H2Pack1(_) => ECOCAN_H2Pack1_t::FDCAN_ID,
            Record::H2Pack2(_) => ECOCAN_H2Pack2_t::FDCAN_ID,
            Record::H2ArmAlarm(_) => ECOCAN_H2_ARM_ALARM_t::FDCAN_ID,
            Record::BoostPack1(_) => FDCAN_BOOSTPack1_t::FDCAN_ID,
            Record::BoostPack2(_) => FDCAN_BOOSTPack2_t::FDCAN_ID,
            Record::BoostPack3(_) => FDCAN_BOOSTPack3_t::FDCAN_ID,
            Record::BattPack2(_) => FDCAN_BATTPack2_t::FDCAN_ID,
        }
    }

    /// The declared length of the record's package.
    #[verifier::when_used_as_spec(spec_length)]
    pub fn length(&self) -> (length: FDCANLength)
        ensures
            length == self.spec_length(),
    {
        match self {
            Record::FetPack(_) => FDCAN_FetPack_t::FDCAN_BYTES,
            Record::RelPackChrg(_) => ECOCAN_RelPackChrg_t::FDCAN_BYTES,
            Record::RelPackNrg(_) => FDCAN_RelPackNrg_t::FDCAN_BYTES,
            Record::RelPackMtr(_) => FDCAN_RelPackMtr_t::FDCAN_BYTES,
            Record::RelPackCap(_) => FDCAN_RelPackCap_t::FDCAN_BYTES,
            Record::RelPackFc(_) => FDCAN_RelPackFc_t::FDCAN_BYTES,
            Record::RelayState(_) => RelayState::FDCAN_BYTES,
            Record::FccPack1(_) => FDCAN_FccPack1_t::FDCAN_BYTES,
            Record::FccPack2(_) => FDCAN_FccPack2_t::FDCAN_BYTES,
            Record::FccPack3(_) => FDCAN_FccPack3_t::FDCAN_BYTES,
            Record::H2Pack1(_) => ECOCAN_H2Pack1_t::FDCAN_BYTES,
            Record::H2Pack2(_) => ECOCAN_H2Pack2_t::FDCAN_BYTES,
            Record::H2ArmAlarm(_) => ECOCAN_H2_ARM_ALARM_t::FDCAN_BYTES,
            Record::BoostPack1(_) => FDCAN_BOOSTPack1_t::FDCAN_BYTES,
            Record::BoostPack2(_) => FDCAN_BOOSTPack2_t::FDCAN_BYTES,
            Record::BoostPack3(_) => FDCAN_BOOSTPack3_t::FDCAN_BYTES,
            Record::BattPack2(_) => FDCAN_BATTPack2_t::FDCAN_BYTES,
        }
    }

    /// Encodes the record into the leading bytes of `out` and returns how
    /// many were written: the declared length of its package. A buffer that
    /// is too small is left as it was.
    pub fn encode(&self, out: &mut [u8]) -> (r: Result<usize, EncodeFault>)
        ensures
            old(out)@.len() < self.length().bytes() ==> r == Err::<usize, EncodeFault>(
                EncodeFault::BufferTooSmall,
            ) && final(out)@ == old(out)@,
            old(out)@.len() >= self.length().bytes() ==> r == Ok::<usize, EncodeFault>(
                self.length().bytes(),
            ) && final(out)@ == splice(old(out)@, 0, self.wire()),
    {
        match self {
            Record::FetPack(pack) => pack.encode(out),
            Record::RelPackChrg(pack) => pack.encode(out),
            Record::RelPackNrg(pack) => pack.encode(out),
            Record::RelPackMtr(pack) => pack.encode(out),
            Record::RelPackCap(pack) => pack.encode(out),
            Record::RelPackFc(pack) => pack.encode(out),
            Record::RelayState(pack) => pack.encode(out),
            Record::FccPack1(pack) => pack.encode(out),
            Record::FccPack2(pack) => pack.encode(out),
            Record::FccPack3(pack) => pack.encode(out),
            Record::H2Pack1(pack) => pack.encode(out),
            Record::H2Pack2(pack) => pack.encode(out),
            Record::H2ArmAlarm(pack) => pack.encode(out),
            Record::BoostPack1(pack) => pack.encode(out),
            Record::BoostPack2(pack) => pack.encode(out),
            Record::BoostPack3(pack) => pack.encode(out),
            Record::BattPack2(pack) => pack.encode(out),
        }
    }

    /// The payload of a record has the length that the catalog declares for
    /// the record's package, which a frame can carry.
    pub proof fn lemma_wire_length(self)
        ensures
            declared_length(self.id()) == Some(self.length()),
            self.wire().len() == self.length().bytes(),
            self.wire().len() <= 64,
    {
        lemma_packages();
        match self {
            Record::FetPack(pack) => pack.lemma_layout(),
            Record::RelPackChrg(pack) => pack.lemma_layout(),
            Record::RelPackNrg(pack) => pack.lemma_layout(),
            Record::RelPackMtr(pack) => pack.lemma_layout(),
            Record::RelPackCap(pack) => pack.lemma_layout(),
            Record::RelPackFc(pack) => pack.lemma_layout(),
            Record::RelayState(pack) => pack.lemma_layout(),
            Record::FccPack1(pack) => pack.lemma_layout(),
            Record::FccPack2(pack) => pack.lemma_layout(),
            Record::FccPack3(pack) => pack.lemma_layout(),
            Record::H2Pack1(pack) => pack.lemma_layout(),
            Record::H2Pack2(pack) => pack.lemma_layout(),
            Record::H2ArmAlarm(pack) => pack.lemma_layout(),
            Record::BoostPack1(pack) => pack.lemma_layout(),
            Record::BoostPack2(pack) => pack.lemma_layout(),
            Record::BoostPack3(pack) => pack.lemma_layout(),
            Record::BattPack2(pack) => pack.lemma_layout(),
        }
    }

    /// The payload of a record has the declared length of its package, and
    /// decoding it under the package's identifier gives the record back,
    /// whatever bytes follow it.
    pub proof fn lemma_round_trip(self, tail: Seq<u8>)
        ensures
            self.wire().len() == self.length().bytes(),
            parse_record(self.id(), self.wire() + tail) == Ok::<Option<Record>, DecodeFault>(
                Some(self),
            ),
    {
        lemma_packages();
        match self {
            Record::FetPack(pack) => pack.lemma_round_trip(tail),
            Record::RelPackChrg(pack) => pack.lemma_round_trip(tail),
            Record::RelPackNrg(pack) => pack.lemma_round_trip(tail),
            Record::RelPackMtr(pack) => pack.lemma_round_trip(tail),
            Record::RelPackCap(pack) => pack.lemma_round_trip(tail),
            Record::RelPackFc(pack) => pack.lemma_round_trip(tail),
            Record::RelayState(pack) => pack.lemma_round_trip(tail),
            Record::FccPack1(pack) => pack.lemma_round_trip(tail),
            Record::FccPack2(pack) => pack.lemma_round_trip(tail),
            Record::FccPack3(pack) => pack.lemma_round_trip(tail),
            Record::H2Pack1(pack) => pack.lemma_round_trip(tail),
            Record::H2Pack2(pack) => pack.lemma_round_trip(tail),
            Record::H2ArmAlarm(pack) => pack.lemma_round_trip(tail),
            Record::BoostPack1(pack) => pack.lemma_round_trip(tail),
            Record::BoostPack2(pack) => pack.lemma_round_trip(tail),
            Record::BoostPack3(pack) => pack.lemma_round_trip(tail),
            Record::BattPack2(pack) => pack.lemma_round_trip(tail),
        }
    }
}

/// How the dispatch follows the catalog: a payload stands for a record
/// only of the package that its identifier names; it is passed over exactly
/// when the catalog holds no such package; and it is truncated exactly when
/// it is shorter than that package's declared length.
pub proof fn lemma_parse_record(id: u32, payload: Seq<u8>)
    ensures
        parse_record(id, payload) matches Ok(Some(record)) ==> record.id() == id,
        parse_record(id, payload) == Ok::<Option<Record>, DecodeFault>(None) <==> !in_catalog(id),
        in_catalog(id) ==> (parse_record(id, payload) == Err::<Option<Record>, DecodeFault>(
            DecodeFault::TruncatedInput,
        ) <==> payload.len() < declared_length(id)->Some_0.bytes()),
{
    lemma_packages();
}

} // verus!
