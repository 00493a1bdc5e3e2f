//! The packet catalog: which identifiers name a package, and the length and
//! field layout of each.
//!
//! The catalog is fixed data. It can be read from any task without
//! synchronisation.

use vstd::prelude::*;
use crate::eco_can::{
    ECOCAN_H2_ARM_ALARM_t, ECOCAN_H2Pack1_t, ECOCAN_H2Pack2_t, ECOCAN_RelPackChrg_t,
    FDCAN_BATTPack2_t, FDCAN_BOOSTPack1_t, FDCAN_BOOSTPack2_t, FDCAN_BOOSTPack3_t,
    FDCAN_FccPack1_t, FDCAN_FccPack2_t, FDCAN_FccPack3_t, FDCAN_FetPack_t, FDCAN_RelPackCap_t,
    FDCAN_RelPackFc_t, FDCAN_RelPackMtr_t, FDCAN_RelPackNrg_t, FDCANLength, FDCANPack,
    lemma_packages, RelayState,
};
use crate::layout::{layout_width, FieldKind};

verus! {

/// The number of packages in the catalog.
pub const CATALOG_SIZE: usize = 17;

/// One entry of the catalog: the identifier of a package, its byte length and
/// the kinds of its fields in wire order.
#[derive(Debug)]
pub struct PacketDescriptor {
    pub id: u32,
    pub length: FDCANLength,
    pub fields: Vec<FieldKind>,
}

/// The declared length of the package that `id` names, or `None` where the
/// catalog holds no such package.
pub open spec fn declared_length(id: u32) -> Option<FDCANLength> {
    if id == FDCAN_FetPack_t::FDCAN_ID {
        Some(FDCAN_FetPack_t::FDCAN_BYTES)
    } else if id == ECOCAN_RelPackChrg_t::FDCAN_ID {
        Some(ECOCAN_RelPackChrg_t::FDCAN_BYTES)
    } else if id == FDCAN_RelPackNrg_t::FDCAN_ID {
        Some(FDCAN_RelPackNrg_t::FDCAN_BYTES)
    } else if id == FDCAN_RelPackMtr_t::FDCAN_ID {
        Some(FDCAN_RelPackMtr_t::FDCAN_BYTES)
    } else if id == FDCAN_RelPackCap_t::FDCAN_ID {
        Some(FDCAN_RelPackCap_t::FDCAN_BYTES)
    } else if id == FDCAN_RelPackFc_t::FDCAN_ID {
        Some(FDCAN_RelPackFc_t::FDCAN_BYTES)
    } else if id == RelayState::FDCAN_ID {
        Some(RelayState::FDCAN_BYTES)
    } else if id == FDCAN_FccPack1_t::FDCAN_ID {
        Some(FDCAN_FccPack1_t::FDCAN_BYTES)
    } else if id == FDCAN_FccPack2_t::FDCAN_ID {
        Some(FDCAN_FccPack2_t::FDCAN_BYTES)
    } else if id == FDCAN_FccPack3_t::FDCAN_ID {
        Some(FDCAN_FccPack3_t::FDCAN_BYTES)
    } else if id == ECOCAN_H2Pack1_t::FDCAN_ID {
        Some(ECOCAN_H2Pack1_t::FDCAN_BYTES)
    } else if id == ECOCAN_H2Pack2_t::FDCAN_ID {
        Some(ECOCAN_H2Pack2_t::FDCAN_BYTES)
    } else if id == ECOCAN_H2_ARM_ALARM_t::FDCAN_ID {
        Some(ECOCAN_H2_ARM_ALARM_t::FDCAN_BYTES)
    } else if id == FDCAN_BOOSTPack1_t::FDCAN_ID {
        Some(FDCAN_BOOSTPack1_t::FDCAN_BYTES)
    } else if id == FDCAN_BOOSTPack2_t::FDCAN_ID {
        Some(FDCAN_BOOSTPack2_t::FDCAN_BYTES)
    } else if id == FDCAN_BOOSTPack3_t::FDCAN_ID {
        Some(FDCAN_BOOSTPack3_t::FDCAN_BYTES)
    } else if id == FDCAN_BATTPack2_t::FDCAN_ID {
        Some(FDCAN_BATTPack2_t::FDCAN_BYTES)
    } else {
        None
    }
}

/// The field layout of the package that `id` names, or `None` where the
/// catalog holds no such package.
pub open spec fn declared_layout(id: u32) -> Option<Seq<FieldKind>> {
    if id == FDCAN_FetPack_t::FDCAN_ID {
        Some(FDCAN_FetPack_t::layout())
    } else if id == ECOCAN_RelPackChrg_t::FDCAN_ID {
        Some(ECOCAN_RelPackChrg_t::layout())
    } else if id == FDCAN_RelPackNrg_t::FDCAN_ID {
        Some(FDCAN_RelPackNrg_t::layout())
    } else if id == FDCAN_RelPackMtr_t::FDCAN_ID {
        Some(FDCAN_RelPackMtr_t::layout())
    } else if id == FDCAN_RelPackCap_t::FDCAN_ID {
        Some(FDCAN_RelPackCap_t::layout())
    } else if id == FDCAN_RelPackFc_t::FDCAN_ID {
        Some(FDCAN_RelPackFc_t::layout())
    } else if id == RelayState::FDCAN_ID {
        Some(RelayState::layout())
    } else if id == FDCAN_FccPack1_t::FDCAN_ID {
        Some(FDCAN_FccPack1_t::layout())
    } else if id == FDCAN_FccPack2_t::FDCAN_ID {
        Some(FDCAN_FccPack2_t::layout())
    } else if id == FDCAN_FccPack3_t::FDCAN_ID {
        Some(FDCAN_FccPack3_t::layout())
    } else if id == ECOCAN_H2Pack1_t::FDCAN_ID {
        Some(ECOCAN_H2Pack1_t::layout())
    } else if id == ECOCAN_H2Pack2_t::FDCAN_ID {
        Some(ECOCAN_H2Pack2_t::layout())
    } else if id == ECOCAN_H2_ARM_ALARM_t::FDCAN_ID {
        Some(ECOCAN_H2_ARM_ALARM_t::layout())
    } else if id == FDCAN_BOOSTPack1_t::FDCAN_ID {
        Some(FDCAN_BOOSTPack1_t::layout())
    } else if id == FDCAN_BOOSTPack2_t::FDCAN_ID {
        Some(FDCAN_BOOSTPack2_t::layout())
    } else if id == FDCAN_BOOSTPack3_t::FDCAN_ID {
        Some(FDCAN_BOOSTPack3_t::layout())
    } else if id == FDCAN_BATTPack2_t::FDCAN_ID {
        Some(FDCAN_BATTPack2_t::layout())
    } else {
        None
    }
}

/// Whether the catalog holds a package of identifier `id`.
pub open spec fn in_catalog(id: u32) -> bool {
    declared_length(id) is Some
}

/// The identifiers of the catalog, in ascending order.
pub open spec fn catalog_ids() -> Seq<u32> {
    seq![
        FDCAN_FetPack_t::FDCAN_ID,
        ECOCAN_RelPackChrg_t::FDCAN_ID,
        FDCAN_RelPackNrg_t::FDCAN_ID,
        FDCAN_RelPackMtr_t::FDCAN_ID,
        FDCAN_RelPackCap_t::FDCAN_ID,
        FDCAN_RelPackFc_t::FDCAN_ID,
        RelayState::FDCAN_ID,
        FDCAN_FccPack1_t::FDCAN_ID,
        FDCAN_FccPack2_t::FDCAN_ID,
        FDCAN_FccPack3_t::FDCAN_ID,
        ECOCAN_H2Pack1_t::FDCAN_ID,
        ECOCAN_H2Pack2_t::FDCAN_ID,
        ECOCAN_H2_ARM_ALARM_t::FDCAN_ID,
        FDCAN_BOOSTPack1_t::FDCAN_ID,
        FDCAN_BOOSTPack2_t::FDCAN_ID,
        FDCAN_BOOSTPack3_t::FDCAN_ID,
        FDCAN_BATTPack2_t::FDCAN_ID,
    ]
}

/// The descriptor of the package `T`.
pub fn descriptor<T: FDCANPack>() -> (d: PacketDescriptor)
    ensures
        d.id == T::FDCAN_ID,
        d.length == T::FDCAN_BYTES,
        d.fields@ == T::layout(),
{
    PacketDescriptor { id: T::FDCAN_ID, length: T::FDCAN_BYTES, fields: T::fields() }
}

/// Looks up the package that `id` names.
pub fn lookup(id: u32) -> (r: Option<PacketDescriptor>)
    ensures
        r is Some <==> in_catalog(id),
        r matches Some(d) ==> d.id == id && declared_length(id) == Some(d.length)
            && declared_layout(id) == Some(d.fields@),
{
    if id == FDCAN_FetPack_t::FDCAN_ID {
        Some(descriptor::<FDCAN_FetPack_t>())
    } else if id == ECOCAN_RelPackChrg_t::FDCAN_ID {
        Some(descriptor::<ECOCAN_RelPackChrg_t>())
    } else if id == FDCAN_RelPackNrg_t::FDCAN_ID {
        Some(descriptor::<FDCAN_RelPackNrg_t>())
    } else if id == FDCAN_RelPackMtr_t::FDCAN_ID {
        Some(descriptor::<FDCAN_RelPackMtr_t>())
    } else if id == FDCAN_RelPackCap_t::FDCAN_ID {
        Some(descriptor::<FDCAN_RelPackCap_t>())
    } else if id == FDCAN_RelPackFc_t::FDCAN_ID {
        Some(descriptor::<FDCAN_RelPackFc_t>())
    } else if id == RelayState::FDCAN_ID {
        Some(descriptor::<RelayState>())
    } else if id == FDCAN_FccPack1_t::FDCAN_ID {
        Some(descriptor::<FDCAN_FccPack1_t>())
    } else if id == FDCAN_FccPack2_t::FDCAN_ID {
        Some(descriptor::<FDCAN_FccPack2_t>())
    } else if id == FDCAN_FccPack3_t::FDCAN_ID {
        Some(descriptor::<FDCAN_FccPack3_t>())
    } else if id == ECOCAN_H2Pack1_t::FDCAN_ID {
        Some(descriptor::<ECOCAN_H2Pack1_t>())
    } else if id == ECOCAN_H2Pack2_t::FDCAN_ID {
        Some(descriptor::<ECOCAN_H2Pack2_t>())
    } else if id == ECOCAN_H2_ARM_ALARM_t::FDCAN_ID {
        Some(descriptor::<ECOCAN_H2_ARM_ALARM_t>())
    } else if id == FDCAN_BOOSTPack1_t::FDCAN_ID {
        Some(descriptor::<FDCAN_BOOSTPack1_t>())
    } else if id == FDCAN_BOOSTPack2_t::FDCAN_ID {
        Some(descriptor::<FDCAN_BOOSTPack2_t>())
    } else if id == FDCAN_BOOSTPack3_t::FDCAN_ID {
        Some(descriptor::<FDCAN_BOOSTPack3_t>())
    } else if id == FDCAN_BATTPack2_t::FDCAN_ID {
        Some(descriptor::<FDCAN_BATTPack2_t>())
    } else {
        None
    }
}

/// The identifiers of the catalog, in ascending order.
pub fn identifiers() -> (ids: Vec<u32>)
    ensures
        ids@ == catalog_ids(),
{
    vec![
        FDCAN_FetPack_t::FDCAN_ID,
        ECOCAN_RelPackChrg_t::FDCAN_ID,
        FDCAN_RelPackNrg_t::FDCAN_ID,
        FDCAN_RelPackMtr_t::FDCAN_ID,
        FDCAN_RelPackCap_t::FDCAN_ID,
        FDCAN_RelPackFc_t::FDCAN_ID,
        RelayState::FDCAN_ID,
        FDCAN_FccPack1_t::FDCAN_ID,
        FDCAN_FccPack2_t::FDCAN_ID,
        FDCAN_FccPack3_t::FDCAN_ID,
        ECOCAN_H2Pack1_t::FDCAN_ID,
        ECOCAN_H2Pack2_t::FDCAN_ID,
        ECOCAN_H2_ARM_ALARM_t::FDCAN_ID,
        FDCAN_BOOSTPack1_t::FDCAN_ID,
        FDCAN_BOOSTPack2_t::FDCAN_ID,
        FDCAN_BOOSTPack3_t::FDCAN_ID,
        FDCAN_BATTPack2_t::FDCAN_ID,
    ]
}

/// No two entries of the catalog share an identifier: the identifiers are
/// strictly ascending, and they are exactly the identifiers that a lookup
/// finds.
pub proof fn lemma_identifiers_unique()
    ensures
        catalog_ids().len() == CATALOG_SIZE,
        forall|i: int, j: int|
            0 <= i < j < catalog_ids().len() ==> catalog_ids()[i] < catalog_ids()[j],
        catalog_ids().no_duplicates(),
        forall|id: u32| in_catalog(id) <==> catalog_ids().contains(id),
{
    lemma_packages();
    let ids = catalog_ids();
    assert forall|id: u32| in_catalog(id) implies ids.contains(id) by {
        if id == FDCAN_FetPack_t::FDCAN_ID {
            assert(ids[0] == id);
        }
        if id == ECOCAN_RelPackChrg_t::FDCAN_ID {
            assert(ids[1] == id);
        }
        if id == FDCAN_RelPackNrg_t::FDCAN_ID {
            assert(ids[2] == id);
        }
        if id == FDCAN_RelPackMtr_t::FDCAN_ID {
            assert(ids[3] == id);
        }
        if id == FDCAN_RelPackCap_t::FDCAN_ID {
            assert(ids[4] == id);
        }
        if id == FDCAN_RelPackFc_t::FDCAN_ID {
            assert(ids[5] == id);
        }
        if id == RelayState::FDCAN_ID {
            assert(ids[6] == id);
        }
        if id == FDCAN_FccPack1_t::FDCAN_ID {
            assert(ids[7] == id);
        }
        if id == FDCAN_FccPack2_t::FDCAN_ID {
            assert(ids[8] == id);
        }
        if id == FDCAN_FccPack3_t::FDCAN_ID {
            assert(ids[9] == id);
        }
        if id == ECOCAN_H2Pack1_t::FDCAN_ID {
            assert(ids[10] == id);
        }
        if id == ECOCAN_H2Pack2_t::FDCAN_ID {
            assert(ids[11] == id);
        }
        if id == ECOCAN_H2_ARM_ALARM_t::FDCAN_ID {
            assert(ids[12] == id);
        }
        if id == FDCAN_BOOSTPack1_t::FDCAN_ID {
            assert(ids[13] == id);
        }
        if id == FDCAN_BOOSTPack2_t::FDCAN_ID {
            assert(ids[14] == id);
        }
        if id == FDCAN_BOOSTPack3_t::FDCAN_ID {
            assert(ids[15] == id);
        }
        if id == FDCAN_BATTPack2_t::FDCAN_ID {
            assert(ids[16] == id);
        }
    }
}

/// Every entry of the catalog has a legal length that its fields fill
/// exactly, within the 64 bytes of a frame.
pub proof fn lemma_lengths_legal(id: u32)
    requires
        in_catalog(id),
    ensures
        declared_layout(id) is Some,
        layout_width(declared_layout(id)->Some_0) == declared_length(id)->Some_0.bytes(),
        FDCANLength::spec_from_bytes(declared_length(id)->Some_0.bytes()) == declared_length(id),
        declared_length(id)->Some_0.bytes() <= 64,
{
    lemma_packages();
    if id == FDCAN_FetPack_t::FDCAN_ID {
        FDCAN_FetPack_t::initial().lemma_layout();
    } else if id == ECOCAN_RelPackChrg_t::FDCAN_ID {
        ECOCAN_RelPackChrg_t::initial().lemma_layout();
    } else if id == FDCAN_RelPackNrg_t::FDCAN_ID {
        FDCAN_RelPackNrg_t::initial().lemma_layout();
    } else if id == FDCAN_RelPackMtr_t::FDCAN_ID {
        FDCAN_RelPackMtr_t::initial().lemma_layout();
    } else if id == FDCAN_RelPackCap_t::FDCAN_ID {
        FDCAN_RelPackCap_t::initial().lemma_layout();
    } else if id == FDCAN_RelPackFc_t::FDCAN_ID {
        FDCAN_RelPackFc_t::initial().lemma_layout();
    } else if id == RelayState::FDCAN_ID {
        RelayState::initial().lemma_layout();
    } else if id == FDCAN_FccPack1_t::FDCAN_ID {
        FDCAN_FccPack1_t::initial().lemma_layout();
    } else if id == FDCAN_FccPack2_t::FDCAN_ID {
        FDCAN_FccPack2_t::initial().lemma_layout();
    } else if id == FDCAN_FccPack3_t::FDCAN_ID {
        FDCAN_FccPack3_t::initial().lemma_layout();
    } else if id == ECOCAN_H2Pack1_t::FDCAN_ID {
        ECOCAN_H2Pack1_t::initial().lemma_layout();
    } else if id == ECOCAN_H2Pack2_t::FDCAN_ID {
        ECOCAN_H2Pack2_t::initial().lemma_layout();
    } else if id == ECOCAN_H2_ARM_ALARM_t::FDCAN_ID {
        ECOCAN_H2_ARM_ALARM_t::initial().lemma_layout();
    } else if id == FDCAN_BOOSTPack1_t::FDCAN_ID {
        FDCAN_BOOSTPack1_t::initial().lemma_layout();
    } else if id == FDCAN_BOOSTPack2_t::FDCAN_ID {
        FDCAN_BOOSTPack2_t::initial().lemma_layout();
    } else if id == FDCAN_BOOSTPack3_t::FDCAN_ID {
        FDCAN_BOOSTPack3_t::initial().lemma_layout();
    } else if id == FDCAN_BATTPack2_t::FDCAN_ID {
        FDCAN_BATTPack2_t::initial().lemma_layout();
    }
}

} // verus!
