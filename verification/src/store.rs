//! The shared state store: one slot per package of the catalog, each holding
//! the record that was decoded last.
//!
//! The store is the sequential model of the state that tasks share. A write
//! replaces one slot and touches no other; a read hands out a copy, never a
//! reference into the store. No history is kept.

use vstd::prelude::*;
use crate::catalog::in_catalog;
use crate::eco_can::{
    ECOCAN_H2_ARM_ALARM_t, ECOCAN_H2Pack1_t, ECOCAN_H2Pack2_t, ECOCAN_RelPackChrg_t,
    FDCAN_BATTPack2_t, FDCAN_BOOSTPack1_t, FDCAN_BOOSTPack2_t, FDCAN_BOOSTPack3_t,
    FDCAN_FccPack1_t, FDCAN_FccPack2_t, FDCAN_FccPack3_t, FDCAN_FetPack_t, FDCAN_RelPackCap_t,
    FDCAN_RelPackFc_t, FDCAN_RelPackMtr_t, FDCAN_RelPackNrg_t, FDCANPack, lemma_packages,
    RelayState,
};
use crate::record::Record;

verus! {

/// The record that the slot of `id` holds before any frame has arrived.
pub open spec fn initial_record(id: u32) -> Record {
    if id == FDCAN_FetPack_t::FDCAN_ID {
        Record::FetPack(FDCAN_FetPack_t::initial())
    } else if id == ECOCAN_RelPackChrg_t::FDCAN_ID {
        Record::RelPackChrg(ECOCAN_RelPackChrg_t::initial())
    } else if id == FDCAN_RelPackNrg_t::FDCAN_ID {
        Record::RelPackNrg(FDCAN_RelPackNrg_t::initial())
    } else if id == FDCAN_RelPackMtr_t::FDCAN_ID {
        Record::RelPackMtr(FDCAN_RelPackMtr_t::initial())
    } else if id == FDCAN_RelPackCap_t::FDCAN_ID {
        Record::RelPackCap(FDCAN_RelPackCap_t::initial())
    } else if id == FDCAN_RelPackFc_t::FDCAN_ID {
        Record::RelPackFc(FDCAN_RelPackFc_t::initial())
    } else if id == RelayState::FDCAN_ID {
        Record::RelayState(RelayState::initial())
    } else if id == FDCAN_FccPack1_t::FDCAN_ID {
        Record::FccPack1(FDCAN_FccPack1_t::initial())
    } else if id == FDCAN_FccPack2_t::FDCAN_ID {
        Record::FccPack2(FDCAN_FccPack2_t::initial())
    } else if id == FDCAN_FccPack3_t::FDCAN_ID {
        Record::FccPack3(FDCAN_FccPack3_t::initial())
    } else if id == ECOCAN_H2Pack1_t::FDCAN_ID {
        Record::H2Pack1(ECOCAN_H2Pack1_t::initial())
    } else if id == ECOCAN_H2Pack2_t::FDCAN_ID {
        Record::H2Pack2(ECOCAN_H2Pack2_t::initial())
    } else if id == ECOCAN_H2_ARM_ALARM_t::FDCAN_ID {
        Record::H2ArmAlarm(ECOCAN_H2_ARM_ALARM_t::initial())
    } else if id == FDCAN_BOOSTPack1_t::FDCAN_ID {
        Record::BoostPack1(FDCAN_BOOSTPack1_t::initial())
    } else if id == FDCAN_BOOSTPack2_t::FDCAN_ID {
        Record::BoostPack2(FDCAN_BOOSTPack2_t::initial())
    } else if id == FDCAN_BOOSTPack3_t::FDCAN_ID {
        Record::BoostPack3(FDCAN_BOOSTPack3_t::initial())
    } else {
        Record::BattPack2(FDCAN_BATTPack2_t::initial())
    }
}

/// The slots of a store in which no frame has arrived yet.
pub open spec fn initial_slots() -> Map<u32, Record> {
    Map::new(|id: u32| in_catalog(id), |id: u32| initial_record(id))
}

/// Whether `slots` has a slot for every package of the catalog and for
/// nothing else, and every slot holds a record of its own package.
pub open spec fn slots_typed(slots: Map<u32, Record>) -> bool {
    &&& forall|id: u32| slots.dom().contains(id) <==> in_catalog(id)
    &&& forall|id: u32| #[trigger] slots.dom().contains(id) ==> slots[id].id() == id
}

/// The state that the tasks share: the latest record of every package.
#[derive(Clone, Copy, Debug)]
pub struct Store {
    fet_data: FDCAN_FetPack_t,
    rel_chrg_pack: ECOCAN_RelPackChrg_t,
    rel_nrg_pack: FDCAN_RelPackNrg_t,
    relay_motor_pack: FDCAN_RelPackMtr_t,
    rel_cap_pack: FDCAN_RelPackCap_t,
    rel_fc_pack: FDCAN_RelPackFc_t,
    relay_state: RelayState,
    fcc_pack1_data: FDCAN_FccPack1_t,
    fcc_pack2_data: FDCAN_FccPack2_t,
    fcc_pack3_data: FDCAN_FccPack3_t,
    h2_pack1_data: ECOCAN_H2Pack1_t,
    h2_pack2_data: ECOCAN_H2Pack2_t,
    h2_arm_alarm: ECOCAN_H2_ARM_ALARM_t,
    boost_pack1_data: FDCAN_BOOSTPack1_t,
    boost_pack2_data: FDCAN_BOOSTPack2_t,
    boost_pack3_data: FDCAN_BOOSTPack3_t,
    batt_pack2_data: FDCAN_BATTPack2_t,
}

impl View for Store {
    type V = Map<u32, Record>;

    /// The slots: from the identifier of each package to its current record.
    closed spec fn view(&self) -> Map<u32, Record> {
        Map::new(|id: u32| in_catalog(id), |id: u32| self.slot(id))
    }
}

impl Store {
    spec fn slot(&self, id: u32) -> Record {
        if id == FDCAN_FetPack_t::FDCAN_ID {
            Record::FetPack(self.fet_data)
        } else if id == ECOCAN_RelPackChrg_t::FDCAN_ID {
            Record::RelPackChrg(self.rel_chrg_pack)
        } else if id == FDCAN_RelPackNrg_t::FDCAN_ID {
            Record::RelPackNrg(self.rel_nrg_pack)
        } else if id == FDCAN_RelPackMtr_t::FDCAN_ID {
            Record::RelPackMtr(self.relay_motor_pack)
        } else if id == FDCAN_RelPackCap_t::FDCAN_ID {
            Record::RelPackCap(self.rel_cap_pack)
        } else if id == FDCAN_RelPackFc_t::FDCAN_ID {
            Record::RelPackFc(self.rel_fc_pack)
        } else if id == RelayState::FDCAN_ID {
            Record::RelayState(self.relay_state)
        } else if id == FDCAN_FccPack1_t::FDCAN_ID {
            Record::FccPack1(self.fcc_pack1_data)
        } else if id == FDCAN_FccPack2_t::FDCAN_ID {
            Record::FccPack2(self.fcc_pack2_data)
        } else if id == FDCAN_FccPack3_t::FDCAN_ID {
            Record::FccPack3(self.fcc_pack3_data)
        } else if id == ECOCAN_H2Pack1_t::FDCAN_ID {
            Record::H2Pack1(self.h2_pack1_data)
        } else if id == ECOCAN_H2Pack2_t::FDCAN_ID {
            Record::H2Pack2(self.h2_pack2_data)
        } else if id == ECOCAN_H2_ARM_ALARM_t::FDCAN_ID {
            Record::H2ArmAlarm(self.h2_arm_alarm)
        } else if id == FDCAN_BOOSTPack1_t::FDCAN_ID {
            Record::BoostPack1(self.boost_pack1_data)
        } else if id == FDCAN_BOOSTPack2_t::FDCAN_ID {
            Record::BoostPack2(self.boost_pack2_data)
        } else if id == FDCAN_BOOSTPack3_t::FDCAN_ID {
            Record::BoostPack3(self.boost_pack3_data)
        } else {
            Record::BattPack2(self.batt_pack2_data)
        }
    }

    /// A store in which every slot holds its package's initial record.
    pub fn new() -> (store: Store)
        ensures
            store@ == initial_slots(),
    {
        let store = Store {
            fet_data: FDCAN_FetPack_t::default(),
            rel_chrg_pack: ECOCAN_RelPackChrg_t::default(),
            rel_nrg_pack: FDCAN_RelPackNrg_t::default(),
            relay_motor_pack: FDCAN_RelPackMtr_t::default(),
            rel_cap_pack: FDCAN_RelPackCap_t::default(),
            rel_fc_pack: FDCAN_RelPackFc_t::default(),
            relay_state: RelayState::default(),
            fcc_pack1_data: FDCAN_FccPack1_t::default(),
            fcc_pack2_data: FDCAN_FccPack2_t::default(),
            fcc_pack3_data: FDCAN_FccPack3_t::default(),
            h2_pack1_data: ECOCAN_H2Pack1_t::default(),
            h2_pack2_data: ECOCAN_H2Pack2_t::default(),
            h2_arm_alarm: ECOCAN_H2_ARM_ALARM_t::default(),
            boost_pack1_data: FDCAN_BOOSTPack1_t::default(),
            boost_pack2_data: FDCAN_BOOSTPack2_t::default(),
            boost_pack3_data: FDCAN_BOOSTPack3_t::default(),
            batt_pack2_data: FDCAN_BATTPack2_t::default(),
        };
        proof {
            lemma_packages();
        }
        assert(store@ =~= initial_slots());
        store
    }

    /// A copy of the record in the slot of `id`, or `None` where the catalog
    /// holds no package of that identifier.
    pub fn read(&self, id: u32) -> (r: Option<Record>)
        ensures
            r == if in_catalog(id) {
                Some(self@[id])
            } else {
                None
            },
    {
        if id == FDCAN_FetPack_t::FDCAN_ID {
            Some(Record::FetPack(self.fet_data))
        } else if id == ECOCAN_RelPackChrg_t::FDCAN_ID {
            Some(Record::RelPackChrg(self.rel_chrg_pack))
        } else if id == FDCAN_RelPackNrg_t::FDCAN_ID {
            Some(Record::RelPackNrg(self.rel_nrg_pack))
        } else if id == FDCAN_RelPackMtr_t::FDCAN_ID {
            Some(Record::RelPackMtr(self.relay_motor_pack))
        } else if id == FDCAN_RelPackCap_t::FDCAN_ID {
            Some(Record::RelPackCap(self.rel_cap_pack))
        } else if id == FDCAN_RelPackFc_t::FDCAN_ID {
            Some(Record::RelPackFc(self.rel_fc_pack))
        } else if id == RelayState::FDCAN_ID {
            Some(Record::RelayState(self.relay_state))
        } else if id == FDCAN_FccPack1_t::FDCAN_ID {
            Some(Record::FccPack1(self.fcc_pack1_data))
        } else if id == FDCAN_FccPack2_t::FDCAN_ID {
            Some(Record::FccPack2(self.fcc_pack2_data))
        } else if id == FDCAN_FccPack3_t::FDCAN_ID {
            Some(Record::FccPack3(self.fcc_pack3_data))
        } else if id == ECOCAN_H2Pack1_t::FDCAN_ID {
            Some(Record::H2Pack1(self.h2_pack1_data))
        } else if id == ECOCAN_H2Pack2_t::FDCAN_ID {
            Some(Record::H2Pack2(self.h2_pack2_data))
        } else if id == ECOCAN_H2_ARM_ALARM_t::FDCAN_ID {
            Some(Record::H2ArmAlarm(self.h2_arm_alarm))
        } else if id == FDCAN_BOOSTPack1_t::FDCAN_ID {
            Some(Record::BoostPack1(self.boost_pack1_data))
        } else if id == FDCAN_BOOSTPack2_t::FDCAN_ID {
            Some(Record::BoostPack2(self.boost_pack2_data))
        } else if id == FDCAN_BOOSTPack3_t::FDCAN_ID {
            Some(Record::BoostPack3(self.boost_pack3_data))
        } else if id == FDCAN_BATTPack2_t::FDCAN_ID {
            Some(Record::BattPack2(self.batt_pack2_data))
        } else {
            None
        }
    }

    /// Replaces the record in the slot of the record's package. Every other
    /// slot stays as it was.
    pub fn write(&mut self, record: Record)
        ensures
            final(self)@ == old(self)@.insert(record.id(), record),
    {
        match record {
            Record::FetPack(pack) => {
                self.fet_data = pack;
            },
            Record::RelPackChrg(pack) => {
                self.rel_chrg_pack = pack;
            },
            Record::RelPackNrg(pack) => {
                self.rel_nrg_pack = pack;
            },
            Record::RelPackMtr(pack) => {
                self.relay_motor_pack = pack;
            },
            Record::RelPackCap(pack) => {
                self.rel_cap_pack = pack;
            },
            Record::RelPackFc(pack) => {
                self.rel_fc_pack = pack;
            },
            Record::RelayState(pack) => {
                self.relay_state = pack;
            },
            Record::FccPack1(pack) => {
                self.fcc_pack1_data = pack;
            },
            Record::FccPack2(pack) => {
                self.fcc_pack2_data = pack;
            },
            Record::FccPack3(pack) => {
                self.fcc_pack3_data = pack;
            },
            Record::H2Pack1(pack) => {
                self.h2_pack1_data = pack;
            },
            Record::H2Pack2(pack) => {
                self.h2_pack2_data = pack;
            },
            Record::H2ArmAlarm(pack) => {
                self.h2_arm_alarm = pack;
            },
            Record::BoostPack1(pack) => {
                self.boost_pack1_data = pack;
            },
            Record::BoostPack2(pack) => {
                self.boost_pack2_data = pack;
            },
            Record::BoostPack3(pack) => {
                self.boost_pack3_data = pack;
            },
            Record::BattPack2(pack) => {
                self.batt_pack2_data = pack;
            },
        }
        proof {
            lemma_packages();
        }
        assert(self@ =~= old(self)@.insert(record.id(), record));
    }

    /// A store has a slot for every package of the catalog and for nothing
    /// else, and every slot holds a record of its own package.
    pub proof fn lemma_slots_typed(&self)
        ensures
            slots_typed(self@),
    {
        lemma_packages();
    }
}

impl Default for Store {
    fn default() -> (store: Store)
        ensures
            store@ == initial_slots(),
    {
        Store::new()
    }
}

} // verus!
