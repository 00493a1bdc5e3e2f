//! The packages that travel on the bus.
//!
//! Every package is a plain record of fixed-width integers with a numeric
//! identifier and a declared byte length. On the wire its fields follow each
//! other in declaration order, big-endian, without padding or length prefix.
//! The relay board's operating state is the one package whose single byte is
//! restricted to a handful of bit patterns.

use vstd::prelude::*;
use crate::fault::{DecodeFault, EncodeFault};
use crate::layout::{
    kinds_of, layout_holds, layout_image, layout_values, layout_width, lemma_layout_push,
    lemma_layout_round_trip, values_of, FieldKind, FieldValue,
};
use crate::wire::{
    be_i32, be_u16, be_u32, be_u8, i32_be, lemma_i32_round_trip, lemma_u16_round_trip,
    lemma_u32_round_trip, lemma_u8_round_trip, put_i32, put_u16, put_u32, put_u8, splice,
    take_i32, take_u16, take_u32, take_u8, u16_be, u32_be, u8_be,
};

verus! {

/// Bit definitions for the FET board's state.
#[allow(non_camel_case_types)]
#[derive(Clone, Copy, Debug, PartialEq, Eq, Structural)]
pub enum FetBit {
    ALL_FET_OFF,
    FUELCELL_FET,
    CAP_FET,
    RES_FET,
    OUT_FET,
}

impl FetBit {
    /// The bit that the flag stands for.
    pub open spec fn spec_bits(self) -> u8 {
        match self {
            FetBit::ALL_FET_OFF => 0x00,
            FetBit::FUELCELL_FET => 0x01,
            FetBit::CAP_FET => 0x02,
            FetBit::RES_FET => 0x04,
            FetBit::OUT_FET => 0x08,
        }
    }

    /// The bit that the flag stands for.
    #[verifier::when_used_as_spec(spec_bits)]
    pub fn bits(self) -> (b: u8)
        ensures
            b == self.spec_bits(),
    {
        match self {
            FetBit::ALL_FET_OFF => 0x00,
            FetBit::FUELCELL_FET => 0x01,
            FetBit::CAP_FET => 0x02,
            FetBit::RES_FET => 0x04,
            FetBit::OUT_FET => 0x08,
        }
    }
}

/// The states of the FET board, each an OR-combination of [`FetBit`] flags.
#[allow(non_camel_case_types)]
#[derive(Clone, Copy, Debug, PartialEq, Eq, Structural)]
pub enum FetState {
    FET_STBY,
    FET_CHRGE,
    FET_RUN,
}

impl FetState {
    /// The bit pattern of the state.
    pub open spec fn spec_bits(self) -> u8 {
        match self {
            FetState::FET_STBY => FetBit::ALL_FET_OFF.bits(),
            FetState::FET_CHRGE => FetBit::FUELCELL_FET.bits() | FetBit::CAP_FET.bits()
                | FetBit::RES_FET.bits(),
            FetState::FET_RUN => FetBit::FUELCELL_FET.bits() | FetBit::CAP_FET.bits()
                | FetBit::RES_FET.bits() | FetBit::OUT_FET.bits(),
        }
    }

    /// The state whose bit pattern is `byte`, if there is one.
    pub open spec fn spec_from_bits(byte: u8) -> Option<FetState> {
        if byte == FetState::FET_STBY.bits() {
            Some(FetState::FET_STBY)
        } else if byte == FetState::FET_CHRGE.bits() {
            Some(FetState::FET_CHRGE)
        } else if byte == FetState::FET_RUN.bits() {
            Some(FetState::FET_RUN)
        } else {
            None
        }
    }

    /// The bit pattern of the state.
    #[verifier::when_used_as_spec(spec_bits)]
    pub fn bits(self) -> (b: u8)
        ensures
            b == self.spec_bits(),
    {
        match self {
            FetState::FET_STBY => FetBit::ALL_FET_OFF.bits(),
            FetState::FET_CHRGE => FetBit::FUELCELL_FET.bits() | FetBit::CAP_FET.bits()
                | FetBit::RES_FET.bits(),
            FetState::FET_RUN => FetBit::FUELCELL_FET.bits() | FetBit::CAP_FET.bits()
                | FetBit::RES_FET.bits() | FetBit::OUT_FET.bits(),
        }
    }

    /// The state that `byte` stands for; a byte that matches no state is
    /// refused.
    pub fn try_from(byte: u8) -> (r: Result<FetState, DecodeFault>)
        ensures
            r == match Self::spec_from_bits(byte) {
                Some(state) => Ok::<FetState, DecodeFault>(state),
                None => Err::<FetState, DecodeFault>(DecodeFault::InvalidEnumeratedValue),
            },
    {
        if byte == FetState::FET_STBY.bits() {
            Ok(FetState::FET_STBY)
        } else if byte == FetState::FET_CHRGE.bits() {
            Ok(FetState::FET_CHRGE)
        } else if byte == FetState::FET_RUN.bits() {
            Ok(FetState::FET_RUN)
        } else {
            Err(DecodeFault::InvalidEnumeratedValue)
        }
    }

    /// The three patterns, written out: standby is `0x00`, charge `0x07`, run
    /// `0x0F`; no two states share a pattern, and a byte is accepted exactly
    /// when it is one of the three.
    pub proof fn lemma_patterns()
        ensures
            FetState::FET_STBY.bits() == 0x00,
            FetState::FET_CHRGE.bits() == 0x07,
            FetState::FET_RUN.bits() == 0x0F,
            forall|s: FetState| Self::spec_from_bits(s.bits()) == Some(s),
            forall|byte: u8|
                Self::spec_from_bits(byte) is Some <==> byte == 0x00 || byte == 0x07 || byte
                    == 0x0F,
    {
        assert(0x01u8 | 0x02u8 | 0x04u8 == 0x07u8) by (bit_vector);
        assert(0x01u8 | 0x02u8 | 0x04u8 | 0x08u8 == 0x0Fu8) by (bit_vector);
    }
}

/// Bit definitions for the relay board's state.
#[allow(non_camel_case_types)]
#[derive(Clone, Copy, Debug, PartialEq, Eq, Structural)]
pub enum RelayBit {
    ALL_RELAY_OFF,
    CAP_RELAY,
    RES_RELAY,
    DSCHRGE_RELAY,
    MTR_RELAY,
}

impl RelayBit {
    /// The bit that the flag stands for.
    pub open spec fn spec_bits(self) -> u8 {
        match self {
            RelayBit::ALL_RELAY_OFF => 0x00,
            RelayBit::CAP_RELAY => 0x01,
            RelayBit::RES_RELAY => 0x02,
            RelayBit::DSCHRGE_RELAY => 0x04,
            RelayBit::MTR_RELAY => 0x08,
        }
    }

    /// The bit that the flag stands for.
    #[verifier::when_used_as_spec(spec_bits)]
    pub fn bits(self) -> (b: u8)
        ensures
            b == self.spec_bits(),
    {
        match self {
            RelayBit::ALL_RELAY_OFF => 0x00,
            RelayBit::CAP_RELAY => 0x01,
            RelayBit::RES_RELAY => 0x02,
            RelayBit::DSCHRGE_RELAY => 0x04,
            RelayBit::MTR_RELAY => 0x08,
        }
    }
}

/// The operating state of the relay board, each an OR-combination of
/// [`RelayBit`] flags. The dashboard mirrors the state last seen on the bus
/// and never drives a transition itself.
#[allow(non_camel_case_types)]
#[derive(Clone, Copy, Debug, PartialEq, Eq, Structural)]
pub enum RelayState {
    RELAY_STBY,
    RELAY_STRTP,
    RELAY_CHRGE,
    RELAY_RUN,
}

/// Identifier of the relay state package.
pub const FDCAN_RELSTATE_ID: u16 = 0x018;

/// Identifier of the hydrogen alarm; 1 indicates a tripped alarm.
pub const FDCAN_H2ALARM_ID: u16 = 0x001;

/// Identifier of the LED synchronisation message; 1 indicates led on.
pub const FDCAN_SYNCLED_ID: u16 = 0x00F;

impl RelayState {
    /// The bit pattern of the state.
    pub open spec fn spec_bits(self) -> u8 {
        match self {
            RelayState::RELAY_STBY => RelayBit::ALL_RELAY_OFF.bits(),
            RelayState::RELAY_STRTP => RelayBit::RES_RELAY.bits() | RelayBit::DSCHRGE_RELAY.bits(),
            RelayState::RELAY_CHRGE => RelayBit::RES_RELAY.bits(),
            RelayState::RELAY_RUN => RelayBit::CAP_RELAY.bits() | RelayBit::DSCHRGE_RELAY.bits()
                | RelayBit::MTR_RELAY.bits(),
        }
    }

    /// The state whose bit pattern is `byte`, if there is one.
    pub open spec fn spec_from_bits(byte: u8) -> Option<RelayState> {
        if byte == RelayState::RELAY_STBY.bits() {
            Some(RelayState::RELAY_STBY)
        } else if byte == RelayState::RELAY_STRTP.bits() {
            Some(RelayState::RELAY_STRTP)
        } else if byte == RelayState::RELAY_CHRGE.bits() {
            Some(RelayState::RELAY_CHRGE)
        } else if byte == RelayState::RELAY_RUN.bits() {
            Some(RelayState::RELAY_RUN)
        } else {
            None
        }
    }

    /// The bit pattern of the state.
    #[verifier::when_used_as_spec(spec_bits)]
    pub fn bits(self) -> (b: u8)
        ensures
            b == self.spec_bits(),
    {
        match self {
            RelayState::RELAY_STBY => RelayBit::ALL_RELAY_OFF.bits(),
            RelayState::RELAY_STRTP => RelayBit::RES_RELAY.bits() | RelayBit::DSCHRGE_RELAY.bits(),
            RelayState::RELAY_CHRGE => RelayBit::RES_RELAY.bits(),
            RelayState::RELAY_RUN => RelayBit::CAP_RELAY.bits() | RelayBit::DSCHRGE_RELAY.bits()
                | RelayBit::MTR_RELAY.bits(),
        }
    }

    /// The state that `byte` stands for; a byte that matches no state is
    /// refused.
    pub fn try_from(byte: u8) -> (r: Result<RelayState, DecodeFault>)
        ensures
            r == match Self::spec_from_bits(byte) {
                Some(state) => Ok::<RelayState, DecodeFault>(state),
                None => Err::<RelayState, DecodeFault>(DecodeFault::InvalidEnumeratedValue),
            },
    {
        if byte == RelayState::RELAY_STBY.bits() {
            Ok(RelayState::RELAY_STBY)
        } else if byte == RelayState::RELAY_STRTP.bits() {
            Ok(RelayState::RELAY_STRTP)
        } else if byte == RelayState::RELAY_CHRGE.bits() {
            Ok(RelayState::RELAY_CHRGE)
        } else if byte == RelayState::RELAY_RUN.bits() {
            Ok(RelayState::RELAY_RUN)
        } else {
            Err(DecodeFault::InvalidEnumeratedValue)
        }
    }

    /// The four patterns, written out: standby is `0x00`, startup `0x06`,
    /// charge `0x02`, run `0x0D`; no two states share a pattern, and a byte is
    /// accepted exactly when it is one of the four.
    pub proof fn lemma_patterns()
        ensures
            RelayState::RELAY_STBY.bits() == 0x00,
            RelayState::RELAY_STRTP.bits() == 0x06,
            RelayState::RELAY_CHRGE.bits() == 0x02,
            RelayState::RELAY_RUN.bits() == 0x0D,
            forall|s: RelayState| Self::spec_from_bits(s.bits()) == Some(s),
            forall|byte: u8|
                Self::spec_from_bits(byte) is Some <==> byte == 0x00 || byte == 0x06 || byte
                    == 0x02 || byte == 0x0D,
    {
        assert(0x02u8 | 0x04u8 == 0x06u8) by (bit_vector);
        assert(0x01u8 | 0x04u8 | 0x08u8 == 0x0Du8) by (bit_vector);
    }
}

impl Default for RelayState {
    fn default() -> (r: Self)
        ensures
            r == RelayState::RELAY_STBY,
            r == <RelayState as FDCANPack>::initial(),
    {
        RelayState::RELAY_STBY
    }
}

/// The length of a package in bytes. A CAN-FD payload holds 0 to 8, 12, 16,
/// 20, 24, 32, 48 or 64 bytes and nothing in between.
#[allow(non_camel_case_types)]
#[derive(Clone, Copy, Debug, PartialEq, Eq, Structural)]
pub enum FDCANLength {
    BYTES_0,
    BYTES_1,
    BYTES_2,
    BYTES_3,
    BYTES_4,
    BYTES_5,
    BYTES_6,
    BYTES_7,
    BYTES_8,
    BYTES_12,
    BYTES_16,
    BYTES_20,
    BYTES_24,
    BYTES_32,
    BYTES_48,
    BYTES_64,
}

impl FDCANLength {
    /// The number of bytes.
    pub open spec fn spec_bytes(self) -> usize {
        match self {
            FDCANLength::BYTES_0 => 0,
            FDCANLength::BYTES_1 => 1,
            FDCANLength::BYTES_2 => 2,
            FDCANLength::BYTES_3 => 3,
            FDCANLength::BYTES_4 => 4,
            FDCANLength::BYTES_5 => 5,
            FDCANLength::BYTES_6 => 6,
            FDCANLength::BYTES_7 => 7,
            FDCANLength::BYTES_8 => 8,
            FDCANLength::BYTES_12 => 12,
            FDCANLength::BYTES_16 => 16,
            FDCANLength::BYTES_20 => 20,
            FDCANLength::BYTES_24 => 24,
            FDCANLength::BYTES_32 => 32,
            FDCANLength::BYTES_48 => 48,
            FDCANLength::BYTES_64 => 64,
        }
    }

    /// The length of `n` bytes, where a payload of `n` bytes exists.
    pub open spec fn spec_from_bytes(n: usize) -> Option<FDCANLength> {
        if n == 0 {
            Some(FDCANLength::BYTES_0)
        } else if n == 1 {
            Some(FDCANLength::BYTES_1)
        } else if n == 2 {
            Some(FDCANLength::BYTES_2)
        } else if n == 3 {
            Some(FDCANLength::BYTES_3)
        } else if n == 4 {
            Some(FDCANLength::BYTES_4)
        } else if n == 5 {
            Some(FDCANLength::BYTES_5)
        } else if n == 6 {
            Some(FDCANLength::BYTES_6)
        } else if n == 7 {
            Some(FDCANLength::BYTES_7)
        } else if n == 8 {
            Some(FDCANLength::BYTES_8)
        } else if n == 12 {
            Some(FDCANLength::BYTES_12)
        } else if n == 16 {
            Some(FDCANLength::BYTES_16)
        } else if n == 20 {
            Some(FDCANLength::BYTES_20)
        } else if n == 24 {
            Some(FDCANLength::BYTES_24)
        } else if n == 32 {
            Some(FDCANLength::BYTES_32)
        } else if n == 48 {
            Some(FDCANLength::BYTES_48)
        } else if n == 64 {
            Some(FDCANLength::BYTES_64)
        } else {
            None
        }
    }

    /// The number of bytes.
    #[verifier::when_used_as_spec(spec_bytes)]
    pub fn bytes(self) -> (n: usize)
        ensures
            n == self.spec_bytes(),
    {
        match self {
            FDCANLength::BYTES_0 => 0,
            FDCANLength::BYTES_1 => 1,
            FDCANLength::BYTES_2 => 2,
            FDCANLength::BYTES_3 => 3,
            FDCANLength::BYTES_4 => 4,
            FDCANLength::BYTES_5 => 5,
            FDCANLength::BYTES_6 => 6,
            FDCANLength::BYTES_7 => 7,
            FDCANLength::BYTES_8 => 8,
            FDCANLength::BYTES_12 => 12,
            FDCANLength::BYTES_16 => 16,
            FDCANLength::BYTES_20 => 20,
            FDCANLength::BYTES_24 => 24,
            FDCANLength::BYTES_32 => 32,
            FDCANLength::BYTES_48 => 48,
            FDCANLength::BYTES_64 => 64,
        }
    }

    /// The length of `n` bytes, or `None` where no payload has `n` bytes.
    pub fn from_bytes(n: usize) -> (r: Option<FDCANLength>)
        ensures
            r == Self::spec_from_bytes(n),
            r matches Some(length) ==> length.bytes() == n,
            r is None ==> forall|length: FDCANLength| length.bytes() != n,
    {
        if n <= 8 {
            if n == 0 {
                Some(FDCANLength::BYTES_0)
            } else if n == 1 {
                Some(FDCANLength::BYTES_1)
            } else if n == 2 {
                Some(FDCANLength::BYTES_2)
            } else if n == 3 {
                Some(FDCANLength::BYTES_3)
            } else if n == 4 {
                Some(FDCANLength::BYTES_4)
            } else if n == 5 {
                Some(FDCANLength::BYTES_5)
            } else if n == 6 {
                Some(FDCANLength::BYTES_6)
            } else if n == 7 {
                Some(FDCANLength::BYTES_7)
            } else {
                Some(FDCANLength::BYTES_8)
            }
        } else if n == 12 {
            Some(FDCANLength::BYTES_12)
        } else if n == 16 {
            Some(FDCANLength::BYTES_16)
        } else if n == 20 {
            Some(FDCANLength::BYTES_20)
        } else if n == 24 {
            Some(FDCANLength::BYTES_24)
        } else if n == 32 {
            Some(FDCANLength::BYTES_32)
        } else if n == 48 {
            Some(FDCANLength::BYTES_48)
        } else if n == 64 {
            Some(FDCANLength::BYTES_64)
        } else {
            None
        }
    }
}

/// A package of the bus: its identifier, its length and its wire format.
pub trait FDCANPack: Sized {
    /// The length of the package in bytes, up to 64.
    const FDCAN_BYTES: FDCANLength;

    /// The identifier of the package.
    ///
    /// Identifiers up to `0x00F` have the highest priority and reach all
    /// boards; `0x010` to `0x01F` carry a board's own status; from `0x020` on
    /// each subsystem has its range.
    const FDCAN_ID: u32;

    /// The kinds of the package's fields, in declaration order.
    spec fn layout() -> Seq<FieldKind>;

    /// The record that a slot holds before any frame has arrived.
    spec fn initial() -> Self;

    /// The values of the record's fields, in declaration order.
    spec fn values(&self) -> Seq<int>;

    /// The payload that stands for the record: its fields in declaration
    /// order, each big-endian at its fixed width.
    spec fn wire(&self) -> Seq<u8>;

    /// The record that the leading bytes of a payload stand for, or `None`
    /// where they stand for none.
    spec fn parse(bytes: Seq<u8>) -> Option<Self>;

    /// The kinds of the package's fields, in declaration order.
    fn fields() -> (kinds: Vec<FieldKind>)
        ensures
            kinds@ == Self::layout(),
    ;

    /// The record's fields, each with its kind, in declaration order.
    fn to_fields(&self) -> (fields: Vec<FieldValue>)
        ensures
            kinds_of(fields@) == Self::layout(),
            values_of(fields@) == self.values(),
    ;

    /// Decodes the leading bytes of `bytes`.
    fn decode(bytes: &[u8]) -> (r: Result<Self, DecodeFault>)
        ensures
            bytes@.len() < Self::FDCAN_BYTES.bytes() ==> r == Err::<Self, DecodeFault>(
                DecodeFault::TruncatedInput,
            ),
            bytes@.len() >= Self::FDCAN_BYTES.bytes() ==> r == match Self::parse(bytes@) {
                Some(record) => Ok::<Self, DecodeFault>(record),
                None => Err::<Self, DecodeFault>(DecodeFault::InvalidEnumeratedValue),
            },
    ;

    /// Encodes the record into the leading bytes of `out` and returns how
    /// many were written. A buffer that is too small is left as it was.
    fn encode(&self, out: &mut [u8]) -> (r: Result<usize, EncodeFault>)
        ensures
            old(out)@.len() < Self::FDCAN_BYTES.bytes() ==> r == Err::<usize, EncodeFault>(
                EncodeFault::BufferTooSmall,
            ) && final(out)@ == old(out)@,
            old(out)@.len() >= Self::FDCAN_BYTES.bytes() ==> r == Ok::<usize, EncodeFault>(
                Self::FDCAN_BYTES.bytes(),
            ) && final(out)@ == splice(old(out)@, 0, self.wire()),
    ;

    /// The payload of a record has the declared length, and decoding it gives
    /// the record back, whatever bytes follow it.
    proof fn lemma_round_trip(&self, tail: Seq<u8>)
        ensures
            self.wire().len() == Self::FDCAN_BYTES.bytes(),
            Self::parse(self.wire() + tail) == Some(*self),
    ;

    /// The package's layout fills its declared length, every field holds a
    /// value of its kind, and the payload is the image of the values under the
    /// layout.
    proof fn lemma_layout(&self)
        ensures
            layout_width(Self::layout()) == Self::FDCAN_BYTES.bytes(),
            layout_holds(Self::layout(), self.values()),
            self.wire() == layout_image(Self::layout(), self.values()),
    ;

    /// Only the bytes within the declared length decide what a payload stands
    /// for.
    proof fn lemma_trailing_bytes_ignored(bytes: Seq<u8>)
        requires
            bytes.len() >= Self::FDCAN_BYTES.bytes(),
        ensures
            Self::parse(bytes) == Self::parse(bytes.subrange(0, Self::FDCAN_BYTES.bytes() as int)),
    ;
}

/// What decoding a payload as a `T` gives: a payload shorter than the
/// declared length is truncated, one whose bytes stand for no record holds an
/// invalid value, any other stands for a record. Bytes beyond the declared
/// length play no part.
pub open spec fn decoded<T: FDCANPack>(bytes: Seq<u8>) -> Result<T, DecodeFault> {
    if bytes.len() < T::FDCAN_BYTES.bytes() {
        Err(DecodeFault::TruncatedInput)
    } else {
        match T::parse(bytes) {
            Some(record) => Ok(record),
            None => Err(DecodeFault::InvalidEnumeratedValue),
        }
    }
}

/// Decoding inverts encoding: whatever a buffer held, once a record has been
/// encoded into its leading bytes, decoding the buffer gives the record back.
pub proof fn lemma_decode_inverts_encode<T: FDCANPack>(record: T, buffer: Seq<u8>)
    requires
        buffer.len() >= T::FDCAN_BYTES.bytes(),
    ensures
        splice(buffer, 0, record.wire()).len() == buffer.len(),
        decoded::<T>(splice(buffer, 0, record.wire())) == Ok::<T, DecodeFault>(record),
{
    let tail = buffer.subrange(T::FDCAN_BYTES.bytes() as int, buffer.len() as int);
    record.lemma_round_trip(tail);
    assert(splice(buffer, 0, record.wire()) =~= record.wire() + tail);
}

/// The layout reads a record's payload as the record's own fields: decoding
/// the payload of a record under the layout of its package gives the values
/// of the record's fields, whatever bytes follow the payload.
pub proof fn lemma_layout_reads_record<T: FDCANPack>(record: T, tail: Seq<u8>)
    ensures
        layout_values(T::layout(), record.wire() + tail) == record.values(),
{
    record.lemma_layout();
    lemma_layout_round_trip(T::layout(), record.values(), tail);
}

impl FDCANPack for RelayState {
    const FDCAN_BYTES: FDCANLength = FDCANLength::BYTES_1;

    const FDCAN_ID: u32 = 0x018;

    open spec fn layout() -> Seq<FieldKind> {
        seq![FieldKind::U8]
    }

    open spec fn initial() -> Self {
        RelayState::RELAY_STBY
    }

    open spec fn values(&self) -> Seq<int> {
        seq![self.bits() as int]
    }

    open spec fn wire(&self) -> Seq<u8> {
        u8_be(self.bits())
    }

    open spec fn parse(bytes: Seq<u8>) -> Option<Self> {
        RelayState::spec_from_bits(be_u8(bytes, 0))
    }

    fn fields() -> (kinds: Vec<FieldKind>) {
        vec![FieldKind::U8]
    }

    fn to_fields(&self) -> (fields: Vec<FieldValue>) {
        let fields = vec![FieldValue::U8(self.bits())];
        assert(kinds_of(fields@) =~= Self::layout());
        assert(values_of(fields@) =~= self.values());
        fields
    }

    fn decode(bytes: &[u8]) -> (r: Result<Self, DecodeFault>) {
        let byte = take_u8(bytes, 0)?;
        RelayState::try_from(byte)
    }

    fn encode(&self, out: &mut [u8]) -> (r: Result<usize, EncodeFault>) {
        if out.len() < 1 {
            return Err(EncodeFault::BufferTooSmall);
        }
        put_u8(self.bits(), out, 0)?;
        Ok(1)
    }

    proof fn lemma_round_trip(&self, tail: Seq<u8>) {
        RelayState::lemma_patterns();
    }

    proof fn lemma_layout(&self) {
        let kinds = Seq::<FieldKind>::empty();
        let values = Seq::<int>::empty();
        lemma_layout_push(kinds, values, FieldKind::U8, self.bits() as int);
        assert(Self::layout() =~= kinds.push(FieldKind::U8));
        assert(self.values() =~= values.push(self.bits() as int));
        assert(self.wire() =~= layout_image(kinds, values) + FieldKind::U8.image(
            self.bits() as int,
        ));
    }

    proof fn lemma_trailing_bytes_ignored(bytes: Seq<u8>) {
    }
}/// Configuration, voltages and currents of the FET board.
#[allow(non_camel_case_types)]
#[derive(Clone, Copy, Debug, PartialEq, Eq, Structural)]
pub struct FDCAN_FetPack_t {
    pub fet_config: u32,
    pub input_volt: u32,
    pub cap_volt: u32,
    pub cap_curr: u32,
    pub res_curr: u32,
    pub out_curr: u32,
}

impl Default for FDCAN_FetPack_t {
    fn default() -> (r: Self)
        ensures
            r == <FDCAN_FetPack_t as FDCANPack>::initial(),
    {
        FDCAN_FetPack_t {
            fet_config: 0,
            input_volt: 0,
            cap_volt: 0,
            cap_curr: 0,
            res_curr: 0,
            out_curr: 0,
        }
    }
}

impl FDCANPack for FDCAN_FetPack_t {
    const FDCAN_BYTES: FDCANLength = FDCANLength::BYTES_24;

    const FDCAN_ID: u32 = 0x010;

    open spec fn layout() -> Seq<FieldKind> {
        seq![
            FieldKind::U32,
            FieldKind::U32,
            FieldKind::U32,
            FieldKind::U32,
            FieldKind::U32,
            FieldKind::U32,
        ]
    }

    open spec fn initial() -> Self {
        FDCAN_FetPack_t {
            fet_config: 0,
            input_volt: 0,
            cap_volt: 0,
            cap_curr: 0,
            res_curr: 0,
            out_curr: 0,
        }
    }

    open spec fn values(&self) -> Seq<int> {
        seq![
            self.fet_config as int,
            self.input_volt as int,
            self.cap_volt as int,
            self.cap_curr as int,
            self.res_curr as int,
            self.out_curr as int,
        ]
    }

    open spec fn wire(&self) -> Seq<u8> {
        u32_be(self.fet_config)
            + u32_be(self.input_volt)
            + u32_be(self.cap_volt)
            + u32_be(self.cap_curr)
            + u32_be(self.res_curr)
            + u32_be(self.out_curr)
    }

    open spec fn parse(bytes: Seq<u8>) -> Option<Self> {
        Some(
            FDCAN_FetPack_t {
                fet_config: be_u32(bytes, 0),
                input_volt: be_u32(bytes, 4),
                cap_volt: be_u32(bytes, 8),
                cap_curr: be_u32(bytes, 12),
                res_curr: be_u32(bytes, 16),
                out_curr: be_u32(bytes, 20),
            },
        )
    }

    fn fields() -> (kinds: Vec<FieldKind>) {
        vec![
            FieldKind::U32,
            FieldKind::U32,
            FieldKind::U32,
            FieldKind::U32,
            FieldKind::U32,
            FieldKind::U32,
        ]
    }

    fn to_fields(&self) -> (fields: Vec<FieldValue>) {
        let fields = vec![
            FieldValue::U32(self.fet_config),
            FieldValue::U32(self.input_volt),
            FieldValue::U32(self.cap_volt),
            FieldValue::U32(self.cap_curr),
            FieldValue::U32(self.res_curr),
            FieldValue::U32(self.out_curr),
        ];
        assert(kinds_of(fields@) =~= Self::layout());
        assert(values_of(fields@) =~= self.values());
        fields
    }

    fn decode(bytes: &[u8]) -> (r: Result<Self, DecodeFault>) {
        if bytes.len() < 24 {
            return Err(DecodeFault::TruncatedInput);
        }
        let fet_config = take_u32(bytes, 0)?;
        let input_volt = take_u32(bytes, 4)?;
        let cap_volt = take_u32(bytes, 8)?;
        let cap_curr = take_u32(bytes, 12)?;
        let res_curr = take_u32(bytes, 16)?;
        let out_curr = take_u32(bytes, 20)?;
        Ok(FDCAN_FetPack_t { fet_config, input_volt, cap_volt, cap_curr, res_curr, out_curr })
    }

    fn encode(&self, out: &mut [u8]) -> (r: Result<usize, EncodeFault>) {
        if out.len() < 24 {
            return Err(EncodeFault::BufferTooSmall);
        }
        put_u32(self.fet_config, out, 0)?;
        put_u32(self.input_volt, out, 4)?;
        put_u32(self.cap_volt, out, 8)?;
        put_u32(self.cap_curr, out, 12)?;
        put_u32(self.res_curr, out, 16)?;
        put_u32(self.out_curr, out, 20)?;
        Ok(24)
    }

    proof fn lemma_round_trip(&self, tail: Seq<u8>) {
        let image = self.wire() + tail;
        lemma_u32_round_trip(self.fet_config, image, 0);
        lemma_u32_round_trip(self.input_volt, image, 4);
        lemma_u32_round_trip(self.cap_volt, image, 8);
        lemma_u32_round_trip(self.cap_curr, image, 12);
        lemma_u32_round_trip(self.res_curr, image, 16);
        lemma_u32_round_trip(self.out_curr, image, 20);
        assert(splice(image, 0, u32_be(self.fet_config)) =~= image);
        assert(splice(image, 4, u32_be(self.input_volt)) =~= image);
        assert(splice(image, 8, u32_be(self.cap_volt)) =~= image);
        assert(splice(image, 12, u32_be(self.cap_curr)) =~= image);
        assert(splice(image, 16, u32_be(self.res_curr)) =~= image);
        assert(splice(image, 20, u32_be(self.out_curr)) =~= image);
    }

    proof fn lemma_layout(&self) {
        let k0 = Seq::<FieldKind>::empty();
        let v0 = Seq::<int>::empty();
        lemma_layout_push(k0, v0, FieldKind::U32, self.fet_config as int);
        let k1 = k0.push(FieldKind::U32);
        let v1 = v0.push(self.fet_config as int);
        lemma_layout_push(k1, v1, FieldKind::U32, self.input_volt as int);
        let k2 = k1.push(FieldKind::U32);
        let v2 = v1.push(self.input_volt as int);
        lemma_layout_push(k2, v2, FieldKind::U32, self.cap_volt as int);
        let k3 = k2.push(FieldKind::U32);
        let v3 = v2.push(self.cap_volt as int);
        lemma_layout_push(k3, v3, FieldKind::U32, self.cap_curr as int);
        let k4 = k3.push(FieldKind::U32);
        let v4 = v3.push(self.cap_curr as int);
        lemma_layout_push(k4, v4, FieldKind::U32, self.res_curr as int);
        let k5 = k4.push(FieldKind::U32);
        let v5 = v4.push(self.res_curr as int);
        lemma_layout_push(k5, v5, FieldKind::U32, self.out_curr as int);
        let k6 = k5.push(FieldKind::U32);
        let v6 = v5.push(self.out_curr as int);
        assert(Self::layout() =~= k6);
        assert(self.values() =~= v6);
        assert(self.wire() =~= layout_image(k6, v6));
    }

    proof fn lemma_trailing_bytes_ignored(bytes: Seq<u8>) {
    }
}

/// Charge counters of the relay board, in coulombs.
#[allow(non_camel_case_types)]
#[derive(Clone, Copy, Debug, PartialEq, Eq, Structural)]
pub struct ECOCAN_RelPackChrg_t {
    pub fc_coloumbs: i32,
    pub cap_coloumbs: i32,
}

impl Default for ECOCAN_RelPackChrg_t {
    fn default() -> (r: Self)
        ensures
            r == <ECOCAN_RelPackChrg_t as FDCANPack>::initial(),
    {
        ECOCAN_RelPackChrg_t { fc_coloumbs: 0, cap_coloumbs: 0 }
    }
}

impl FDCANPack for ECOCAN_RelPackChrg_t {
    const FDCAN_BYTES: FDCANLength = FDCANLength::BYTES_8;

    const FDCAN_ID: u32 = 0x013;

    open spec fn layout() -> Seq<FieldKind> {
        seq![FieldKind::I32, FieldKind::I32]
    }

    open spec fn initial() -> Self {
        ECOCAN_RelPackChrg_t { fc_coloumbs: 0, cap_coloumbs: 0 }
    }

    open spec fn values(&self) -> Seq<int> {
        seq![self.fc_coloumbs as int, self.cap_coloumbs as int]
    }

    open spec fn wire(&self) -> Seq<u8> {
        i32_be(self.fc_coloumbs) + i32_be(self.cap_coloumbs)
    }

    open spec fn parse(bytes: Seq<u8>) -> Option<Self> {
        Some(
            ECOCAN_RelPackChrg_t {
                fc_coloumbs: be_i32(bytes, 0),
                cap_coloumbs: be_i32(bytes, 4),
            },
        )
    }

    fn fields() -> (kinds: Vec<FieldKind>) {
        vec![FieldKind::I32, FieldKind::I32]
    }

    fn to_fields(&self) -> (fields: Vec<FieldValue>) {
        let fields = vec![
            FieldValue::I32(self.fc_coloumbs),
            FieldValue::I32(self.cap_coloumbs),
        ];
        assert(kinds_of(fields@) =~= Self::layout());
        assert(values_of(fields@) =~= self.values());
        fields
    }

    fn decode(bytes: &[u8]) -> (r: Result<Self, DecodeFault>) {
        if bytes.len() < 8 {
            return Err(DecodeFault::TruncatedInput);
        }
        let fc_coloumbs = take_i32(bytes, 0)?;
        let cap_coloumbs = take_i32(bytes, 4)?;
        Ok(ECOCAN_RelPackChrg_t { fc_coloumbs, cap_coloumbs })
    }

    fn encode(&self, out: &mut [u8]) -> (r: Result<usize, EncodeFault>) {
        if out.len() < 8 {
            return Err(EncodeFault::BufferTooSmall);
        }
        put_i32(self.fc_coloumbs, out, 0)?;
        put_i32(self.cap_coloumbs, out, 4)?;
        Ok(8)
    }

    proof fn lemma_round_trip(&self, tail: Seq<u8>) {
        let image = self.wire() + tail;
        lemma_i32_round_trip(self.fc_coloumbs, image, 0);
        lemma_i32_round_trip(self.cap_coloumbs, image, 4);
        assert(splice(image, 0, i32_be(self.fc_coloumbs)) =~= image);
        assert(splice(image, 4, i32_be(self.cap_coloumbs)) =~= image);
    }

    proof fn lemma_layout(&self) {
        let k0 = Seq::<FieldKind>::empty();
        let v0 = Seq::<int>::empty();
        lemma_layout_push(k0, v0, FieldKind::I32, self.fc_coloumbs as int);
        let k1 = k0.push(FieldKind::I32);
        let v1 = v0.push(self.fc_coloumbs as int);
        lemma_layout_push(k1, v1, FieldKind::I32, self.cap_coloumbs as int);
        let k2 = k1.push(FieldKind::I32);
        let v2 = v1.push(self.cap_coloumbs as int);
        assert(Self::layout() =~= k2);
        assert(self.values() =~= v2);
        assert(self.wire() =~= layout_image(k2, v2));
    }

    proof fn lemma_trailing_bytes_ignored(bytes: Seq<u8>) {
    }
}

/// Energy counters of the relay board, in joules.
#[allow(non_camel_case_types)]
#[derive(Clone, Copy, Debug, PartialEq, Eq, Structural)]
pub struct FDCAN_RelPackNrg_t {
    pub fc_joules: i32,
    pub cap_joules: i32,
}

impl Default for FDCAN_RelPackNrg_t {
    fn default() -> (r: Self)
        ensures
            r == <FDCAN_RelPackNrg_t as FDCANPack>::initial(),
    {
        FDCAN_RelPackNrg_t { fc_joules: 0, cap_joules: 0 }
    }
}

impl FDCANPack for FDCAN_RelPackNrg_t {
    const FDCAN_BYTES: FDCANLength = FDCANLength::BYTES_8;

    const FDCAN_ID: u32 = 0x014;

    open spec fn layout() -> Seq<FieldKind> {
        seq![FieldKind::I32, FieldKind::I32]
    }

    open spec fn initial() -> Self {
        FDCAN_RelPackNrg_t { fc_joules: 0, cap_joules: 0 }
    }

    open spec fn values(&self) -> Seq<int> {
        seq![self.fc_joules as int, self.cap_joules as int]
    }

    open spec fn wire(&self) -> Seq<u8> {
        i32_be(self.fc_joules) + i32_be(self.cap_joules)
    }

    open spec fn parse(bytes: Seq<u8>) -> Option<Self> {
        Some(
            FDCAN_RelPackNrg_t {
                fc_joules: be_i32(bytes, 0),
                cap_joules: be_i32(bytes, 4),
            },
        )
    }

    fn fields() -> (kinds: Vec<FieldKind>) {
        vec![FieldKind::I32, FieldKind::I32]
    }

    fn to_fields(&self) -> (fields: Vec<FieldValue>) {
        let fields = vec![FieldValue::I32(self.fc_joules), FieldValue::I32(self.cap_joules)];
        assert(kinds_of(fields@) =~= Self::layout());
        assert(values_of(fields@) =~= self.values());
        fields
    }

    fn decode(bytes: &[u8]) -> (r: Result<Self, DecodeFault>) {
        if bytes.len() < 8 {
            return Err(DecodeFault::TruncatedInput);
        }
        let fc_joules = take_i32(bytes, 0)?;
        let cap_joules = take_i32(bytes, 4)?;
        Ok(FDCAN_RelPackNrg_t { fc_joules, cap_joules })
    }

    fn encode(&self, out: &mut [u8]) -> (r: Result<usize, EncodeFault>) {
        if out.len() < 8 {
            return Err(EncodeFault::BufferTooSmall);
        }
        put_i32(self.fc_joules, out, 0)?;
        put_i32(self.cap_joules, out, 4)?;
        Ok(8)
    }

    proof fn lemma_round_trip(&self, tail: Seq<u8>) {
        let image = self.wire() + tail;
        lemma_i32_round_trip(self.fc_joules, image, 0);
        lemma_i32_round_trip(self.cap_joules, image, 4);
        assert(splice(image, 0, i32_be(self.fc_joules)) =~= image);
        assert(splice(image, 4, i32_be(self.cap_joules)) =~= image);
    }

    proof fn lemma_layout(&self) {
        let k0 = Seq::<FieldKind>::empty();
        let v0 = Seq::<int>::empty();
        lemma_layout_push(k0, v0, FieldKind::I32, self.fc_joules as int);
        let k1 = k0.push(FieldKind::I32);
        let v1 = v0.push(self.fc_joules as int);
        lemma_layout_push(k1, v1, FieldKind::I32, self.cap_joules as int);
        let k2 = k1.push(FieldKind::I32);
        let v2 = v1.push(self.cap_joules as int);
        assert(Self::layout() =~= k2);
        assert(self.values() =~= v2);
        assert(self.wire() =~= layout_image(k2, v2));
    }

    proof fn lemma_trailing_bytes_ignored(bytes: Seq<u8>) {
    }
}

/// Voltage and current of the motor.
#[allow(non_camel_case_types)]
#[derive(Clone, Copy, Debug, PartialEq, Eq, Structural)]
pub struct FDCAN_RelPackMtr_t {
    pub mtr_volt: u32,
    pub mtr_curr: u32,
}

impl Default for FDCAN_RelPackMtr_t {
    fn default() -> (r: Self)
        ensures
            r == <FDCAN_RelPackMtr_t as FDCANPack>::initial(),
    {
        FDCAN_RelPackMtr_t { mtr_volt: 0, mtr_curr: 0 }
    }
}

impl FDCANPack for FDCAN_RelPackMtr_t {
    const FDCAN_BYTES: FDCANLength = FDCANLength::BYTES_8;

    const FDCAN_ID: u32 = 0x015;

    open spec fn layout() -> Seq<FieldKind> {
        seq![FieldKind::U32, FieldKind::U32]
    }

    open spec fn initial() -> Self {
        FDCAN_RelPackMtr_t { mtr_volt: 0, mtr_curr: 0 }
    }

    open spec fn values(&self) -> Seq<int> {
        seq![self.mtr_volt as int, self.mtr_curr as int]
    }

    open spec fn wire(&self) -> Seq<u8> {
        u32_be(self.mtr_volt) + u32_be(self.mtr_curr)
    }

    open spec fn parse(bytes: Seq<u8>) -> Option<Self> {
        Some(FDCAN_RelPackMtr_t { mtr_volt: be_u32(bytes, 0), mtr_curr: be_u32(bytes, 4) })
    }

    fn fields() -> (kinds: Vec<FieldKind>) {
        vec![FieldKind::U32, FieldKind::U32]
    }

    fn to_fields(&self) -> (fields: Vec<FieldValue>) {
        let fields = vec![FieldValue::U32(self.mtr_volt), FieldValue::U32(self.mtr_curr)];
        assert(kinds_of(fields@) =~= Self::layout());
        assert(values_of(fields@) =~= self.values());
        fields
    }

    fn decode(bytes: &[u8]) -> (r: Result<Self, DecodeFault>) {
        if bytes.len() < 8 {
            return Err(DecodeFault::TruncatedInput);
        }
        let mtr_volt = take_u32(bytes, 0)?;
        let mtr_curr = take_u32(bytes, 4)?;
        Ok(FDCAN_RelPackMtr_t { mtr_volt, mtr_curr })
    }

    fn encode(&self, out: &mut [u8]) -> (r: Result<usize, EncodeFault>) {
        if out.len() < 8 {
            return Err(EncodeFault::BufferTooSmall);
        }
        put_u32(self.mtr_volt, out, 0)?;
        put_u32(self.mtr_curr, out, 4)?;
        Ok(8)
    }

    proof fn lemma_round_trip(&self, tail: Seq<u8>) {
        let image = self.wire() + tail;
        lemma_u32_round_trip(self.mtr_volt, image, 0);
        lemma_u32_round_trip(self.mtr_curr, image, 4);
        assert(splice(image, 0, u32_be(self.mtr_volt)) =~= image);
        assert(splice(image, 4, u32_be(self.mtr_curr)) =~= image);
    }

    proof fn lemma_layout(&self) {
        let k0 = Seq::<FieldKind>::empty();
        let v0 = Seq::<int>::empty();
        lemma_layout_push(k0, v0, FieldKind::U32, self.mtr_volt as int);
        let k1 = k0.push(FieldKind::U32);
        let v1 = v0.push(self.mtr_volt as int);
        lemma_layout_push(k1, v1, FieldKind::U32, self.mtr_curr as int);
        let k2 = k1.push(FieldKind::U32);
        let v2 = v1.push(self.mtr_curr as int);
        assert(Self::layout() =~= k2);
        assert(self.values() =~= v2);
        assert(self.wire() =~= layout_image(k2, v2));
    }

    proof fn lemma_trailing_bytes_ignored(bytes: Seq<u8>) {
    }
}

/// Voltage and current of the capacitor bank; the current is signed.
#[allow(non_camel_case_types)]
#[derive(Clone, Copy, Debug, PartialEq, Eq, Structural)]
pub struct FDCAN_RelPackCap_t {
    pub cap_volt: u32,
    pub cap_curr: i32,
}

impl Default for FDCAN_RelPackCap_t {
    fn default() -> (r: Self)
        ensures
            r == <FDCAN_RelPackCap_t as FDCANPack>::initial(),
    {
        FDCAN_RelPackCap_t { cap_volt: 0, cap_curr: 0 }
    }
}

impl FDCANPack for FDCAN_RelPackCap_t {
    const FDCAN_BYTES: FDCANLength = FDCANLength::BYTES_8;

    const FDCAN_ID: u32 = 0x016;

    open spec fn layout() -> Seq<FieldKind> {
        seq![FieldKind::U32, FieldKind::I32]
    }

    open spec fn initial() -> Self {
        FDCAN_RelPackCap_t { cap_volt: 0, cap_curr: 0 }
    }

    open spec fn values(&self) -> Seq<int> {
        seq![self.cap_volt as int, self.cap_curr as int]
    }

    open spec fn wire(&self) -> Seq<u8> {
        u32_be(self.cap_volt) + i32_be(self.cap_curr)
    }

    open spec fn parse(bytes: Seq<u8>) -> Option<Self> {
        Some(FDCAN_RelPackCap_t { cap_volt: be_u32(bytes, 0), cap_curr: be_i32(bytes, 4) })
    }

    fn fields() -> (kinds: Vec<FieldKind>) {
        vec![FieldKind::U32, FieldKind::I32]
    }

    fn to_fields(&self) -> (fields: Vec<FieldValue>) {
        let fields = vec![FieldValue::U32(self.cap_volt), FieldValue::I32(self.cap_curr)];
        assert(kinds_of(fields@) =~= Self::layout());
        assert(values_of(fields@) =~= self.values());
        fields
    }

    fn decode(bytes: &[u8]) -> (r: Result<Self, DecodeFault>) {
        if bytes.len() < 8 {
            return Err(DecodeFault::TruncatedInput);
        }
        let cap_volt = take_u32(bytes, 0)?;
        let cap_curr = take_i32(bytes, 4)?;
        Ok(FDCAN_RelPackCap_t { cap_volt, cap_curr })
    }

    fn encode(&self, out: &mut [u8]) -> (r: Result<usize, EncodeFault>) {
        if out.len() < 8 {
            return Err(EncodeFault::BufferTooSmall);
        }
        put_u32(self.cap_volt, out, 0)?;
        put_i32(self.cap_curr, out, 4)?;
        Ok(8)
    }

    proof fn lemma_round_trip(&self, tail: Seq<u8>) {
        let image = self.wire() + tail;
        lemma_u32_round_trip(self.cap_volt, image, 0);
        lemma_i32_round_trip(self.cap_curr, image, 4);
        assert(splice(image, 0, u32_be(self.cap_volt)) =~= image);
        assert(splice(image, 4, i32_be(self.cap_curr)) =~= image);
    }

    proof fn lemma_layout(&self) {
        let k0 = Seq::<FieldKind>::empty();
        let v0 = Seq::<int>::empty();
        lemma_layout_push(k0, v0, FieldKind::U32, self.cap_volt as int);
        let k1 = k0.push(FieldKind::U32);
        let v1 = v0.push(self.cap_volt as int);
        lemma_layout_push(k1, v1, FieldKind::I32, self.cap_curr as int);
        let k2 = k1.push(FieldKind::I32);
        let v2 = v1.push(self.cap_curr as int);
        assert(Self::layout() =~= k2);
        assert(self.values() =~= v2);
        assert(self.wire() =~= layout_image(k2, v2));
    }

    proof fn lemma_trailing_bytes_ignored(bytes: Seq<u8>) {
    }
}

/// Voltage and current of the fuel cell.
#[allow(non_camel_case_types)]
#[derive(Clone, Copy, Debug, PartialEq, Eq, Structural)]
pub struct FDCAN_RelPackFc_t {
    pub fc_volt: u32,
    pub fc_curr: u32,
}

impl Default for FDCAN_RelPackFc_t {
    fn default() -> (r: Self)
        ensures
            r == <FDCAN_RelPackFc_t as FDCANPack>::initial(),
    {
        FDCAN_RelPackFc_t { fc_volt: 0, fc_curr: 0 }
    }
}

impl FDCANPack for FDCAN_RelPackFc_t {
    const FDCAN_BYTES: FDCANLength = FDCANLength::BYTES_8;

    const FDCAN_ID: u32 = 0x017;

    open spec fn layout() -> Seq<FieldKind> {
        seq![FieldKind::U32, FieldKind::U32]
    }

    open spec fn initial() -> Self {
        FDCAN_RelPackFc_t { fc_volt: 0, fc_curr: 0 }
    }

    open spec fn values(&self) -> Seq<int> {
        seq![self.fc_volt as int, self.fc_curr as int]
    }

    open spec fn wire(&self) -> Seq<u8> {
        u32_be(self.fc_volt) + u32_be(self.fc_curr)
    }

    open spec fn parse(bytes: Seq<u8>) -> Option<Self> {
        Some(FDCAN_RelPackFc_t { fc_volt: be_u32(bytes, 0), fc_curr: be_u32(bytes, 4) })
    }

    fn fields() -> (kinds: Vec<FieldKind>) {
        vec![FieldKind::U32, FieldKind::U32]
    }

    fn to_fields(&self) -> (fields: Vec<FieldValue>) {
        let fields = vec![FieldValue::U32(self.fc_volt), FieldValue::U32(self.fc_curr)];
        assert(kinds_of(fields@) =~= Self::layout());
        assert(values_of(fields@) =~= self.values());
        fields
    }

    fn decode(bytes: &[u8]) -> (r: Result<Self, DecodeFault>) {
        if bytes.len() < 8 {
            return Err(DecodeFault::TruncatedInput);
        }
        let fc_volt = take_u32(bytes, 0)?;
        let fc_curr = take_u32(bytes, 4)?;
        Ok(FDCAN_RelPackFc_t { fc_volt, fc_curr })
    }

    fn encode(&self, out: &mut [u8]) -> (r: Result<usize, EncodeFault>) {
        if out.len() < 8 {
            return Err(EncodeFault::BufferTooSmall);
        }
        put_u32(self.fc_volt, out, 0)?;
        put_u32(self.fc_curr, out, 4)?;
        Ok(8)
    }

    proof fn lemma_round_trip(&self, tail: Seq<u8>) {
        let image = self.wire() + tail;
        lemma_u32_round_trip(self.fc_volt, image, 0);
        lemma_u32_round_trip(self.fc_curr, image, 4);
        assert(splice(image, 0, u32_be(self.fc_volt)) =~= image);
        assert(splice(image, 4, u32_be(self.fc_curr)) =~= image);
    }

    proof fn lemma_layout(&self) {
        let k0 = Seq::<FieldKind>::empty();
        let v0 = Seq::<int>::empty();
        lemma_layout_push(k0, v0, FieldKind::U32, self.fc_volt as int);
        let k1 = k0.push(FieldKind::U32);
        let v1 = v0.push(self.fc_volt as int);
        lemma_layout_push(k1, v1, FieldKind::U32, self.fc_curr as int);
        let k2 = k1.push(FieldKind::U32);
        let v2 = v1.push(self.fc_curr as int);
        assert(Self::layout() =~= k2);
        assert(self.values() =~= v2);
        assert(self.wire() =~= layout_image(k2, v2));
    }

    proof fn lemma_trailing_bytes_ignored(bytes: Seq<u8>) {
    }
}

/// Temperature and pressure of the fuel cell.
#[allow(non_camel_case_types)]
#[derive(Clone, Copy, Debug, PartialEq, Eq, Structural)]
pub struct FDCAN_FccPack1_t {
    pub fc_temp: i32,
    pub fc_press: u32,
}

impl Default for FDCAN_FccPack1_t {
    fn default() -> (r: Self)
        ensures
            r == <FDCAN_FccPack1_t as FDCANPack>::initial(),
    {
        FDCAN_FccPack1_t { fc_temp: 0, fc_press: 0 }
    }
}

impl FDCANPack for FDCAN_FccPack1_t {
    const FDCAN_BYTES: FDCANLength = FDCANLength::BYTES_8;

    const FDCAN_ID: u32 = 0x020;

    open spec fn layout() -> Seq<FieldKind> {
        seq![FieldKind::I32, FieldKind::U32]
    }

    open spec fn initial() -> Self {
        FDCAN_FccPack1_t { fc_temp: 0, fc_press: 0 }
    }

    open spec fn values(&self) -> Seq<int> {
        seq![self.fc_temp as int, self.fc_press as int]
    }

    open spec fn wire(&self) -> Seq<u8> {
        i32_be(self.fc_temp) + u32_be(self.fc_press)
    }

    open spec fn parse(bytes: Seq<u8>) -> Option<Self> {
        Some(FDCAN_FccPack1_t { fc_temp: be_i32(bytes, 0), fc_press: be_u32(bytes, 4) })
    }

    fn fields() -> (kinds: Vec<FieldKind>) {
        vec![FieldKind::I32, FieldKind::U32]
    }

    fn to_fields(&self) -> (fields: Vec<FieldValue>) {
        let fields = vec![FieldValue::I32(self.fc_temp), FieldValue::U32(self.fc_press)];
        assert(kinds_of(fields@) =~= Self::layout());
        assert(values_of(fields@) =~= self.values());
        fields
    }

    fn decode(bytes: &[u8]) -> (r: Result<Self, DecodeFault>) {
        if bytes.len() < 8 {
            return Err(DecodeFault::TruncatedInput);
        }
        let fc_temp = take_i32(bytes, 0)?;
        let fc_press = take_u32(bytes, 4)?;
        Ok(FDCAN_FccPack1_t { fc_temp, fc_press })
    }

    fn encode(&self, out: &mut [u8]) -> (r: Result<usize, EncodeFault>) {
        if out.len() < 8 {
            return Err(EncodeFault::BufferTooSmall);
        }
        put_i32(self.fc_temp, out, 0)?;
        put_u32(self.fc_press, out, 4)?;
        Ok(8)
    }

    proof fn lemma_round_trip(&self, tail: Seq<u8>) {
        let image = self.wire() + tail;
        lemma_i32_round_trip(self.fc_temp, image, 0);
        lemma_u32_round_trip(self.fc_press, image, 4);
        assert(splice(image, 0, i32_be(self.fc_temp)) =~= image);
        assert(splice(image, 4, u32_be(self.fc_press)) =~= image);
    }

    proof fn lemma_layout(&self) {
        let k0 = Seq::<FieldKind>::empty();
        let v0 = Seq::<int>::empty();
        lemma_layout_push(k0, v0, FieldKind::I32, self.fc_temp as int);
        let k1 = k0.push(FieldKind::I32);
        let v1 = v0.push(self.fc_temp as int);
        lemma_layout_push(k1, v1, FieldKind::U32, self.fc_press as int);
        let k2 = k1.push(FieldKind::U32);
        let v2 = v1.push(self.fc_press as int);
        assert(Self::layout() =~= k2);
        assert(self.values() =~= v2);
        assert(self.wire() =~= layout_image(k2, v2));
    }

    proof fn lemma_trailing_bytes_ignored(bytes: Seq<u8>) {
    }
}

/// Speeds of the two fans of the fuel cell.
#[allow(non_camel_case_types)]
#[derive(Clone, Copy, Debug, PartialEq, Eq, Structural)]
pub struct FDCAN_FccPack2_t {
    pub fan_rpm1: u32,
    pub fan_rpm2: u32,
}

impl Default for FDCAN_FccPack2_t {
    fn default() -> (r: Self)
        ensures
            r == <FDCAN_FccPack2_t as FDCANPack>::initial(),
    {
        FDCAN_FccPack2_t { fan_rpm1: 0, fan_rpm2: 0 }
    }
}

impl FDCANPack for FDCAN_FccPack2_t {
    const FDCAN_BYTES: FDCANLength = FDCANLength::BYTES_8;

    const FDCAN_ID: u32 = 0x021;

    open spec fn layout() -> Seq<FieldKind> {
        seq![FieldKind::U32, FieldKind::U32]
    }

    open spec fn initial() -> Self {
        FDCAN_FccPack2_t { fan_rpm1: 0, fan_rpm2: 0 }
    }

    open spec fn values(&self) -> Seq<int> {
        seq![self.fan_rpm1 as int, self.fan_rpm2 as int]
    }

    open spec fn wire(&self) -> Seq<u8> {
        u32_be(self.fan_rpm1) + u32_be(self.fan_rpm2)
    }

    open spec fn parse(bytes: Seq<u8>) -> Option<Self> {
        Some(FDCAN_FccPack2_t { fan_rpm1: be_u32(bytes, 0), fan_rpm2: be_u32(bytes, 4) })
    }

    fn fields() -> (kinds: Vec<FieldKind>) {
        vec![FieldKind::U32, FieldKind::U32]
    }

    fn to_fields(&self) -> (fields: Vec<FieldValue>) {
        let fields = vec![FieldValue::U32(self.fan_rpm1), FieldValue::U32(self.fan_rpm2)];
        assert(kinds_of(fields@) =~= Self::layout());
        assert(values_of(fields@) =~= self.values());
        fields
    }

    fn decode(bytes: &[u8]) -> (r: Result<Self, DecodeFault>) {
        if bytes.len() < 8 {
            return Err(DecodeFault::TruncatedInput);
        }
        let fan_rpm1 = take_u32(bytes, 0)?;
        let fan_rpm2 = take_u32(bytes, 4)?;
        Ok(FDCAN_FccPack2_t { fan_rpm1, fan_rpm2 })
    }

    fn encode(&self, out: &mut [u8]) -> (r: Result<usize, EncodeFault>) {
        if out.len() < 8 {
            return Err(EncodeFault::BufferTooSmall);
        }
        put_u32(self.fan_rpm1, out, 0)?;
        put_u32(self.fan_rpm2, out, 4)?;
        Ok(8)
    }

    proof fn lemma_round_trip(&self, tail: Seq<u8>) {
        let image = self.wire() + tail;
        lemma_u32_round_trip(self.fan_rpm1, image, 0);
        lemma_u32_round_trip(self.fan_rpm2, image, 4);
        assert(splice(image, 0, u32_be(self.fan_rpm1)) =~= image);
        assert(splice(image, 4, u32_be(self.fan_rpm2)) =~= image);
    }

    proof fn lemma_layout(&self) {
        let k0 = Seq::<FieldKind>::empty();
        let v0 = Seq::<int>::empty();
        lemma_layout_push(k0, v0, FieldKind::U32, self.fan_rpm1 as int);
        let k1 = k0.push(FieldKind::U32);
        let v1 = v0.push(self.fan_rpm1 as int);
        lemma_layout_push(k1, v1, FieldKind::U32, self.fan_rpm2 as int);
        let k2 = k1.push(FieldKind::U32);
        let v2 = v1.push(self.fan_rpm2 as int);
        assert(Self::layout() =~= k2);
        assert(self.values() =~= v2);
        assert(self.wire() =~= layout_image(k2, v2));
    }

    proof fn lemma_trailing_bytes_ignored(bytes: Seq<u8>) {
    }
}

/// Ambient temperature and humidity at the fuel cell controller.
#[allow(non_camel_case_types)]
#[derive(Clone, Copy, Debug, PartialEq, Eq, Structural)]
pub struct FDCAN_FccPack3_t {
    pub bme_temp: u32,
    pub bme_humid: u32,
}

impl Default for FDCAN_FccPack3_t {
    fn default() -> (r: Self)
        ensures
            r == <FDCAN_FccPack3_t as FDCANPack>::initial(),
    {
        FDCAN_FccPack3_t { bme_temp: 0, bme_humid: 0 }
    }
}

impl FDCANPack for FDCAN_FccPack3_t {
    const FDCAN_BYTES: FDCANLength = FDCANLength::BYTES_8;

    const FDCAN_ID: u32 = 0x022;

    open spec fn layout() -> Seq<FieldKind> {
        seq![FieldKind::U32, FieldKind::U32]
    }

    open spec fn initial() -> Self {
        FDCAN_FccPack3_t { bme_temp: 0, bme_humid: 0 }
    }

    open spec fn values(&self) -> Seq<int> {
        seq![self.bme_temp as int, self.bme_humid as int]
    }

    open spec fn wire(&self) -> Seq<u8> {
        u32_be(self.bme_temp) + u32_be(self.bme_humid)
    }

    open spec fn parse(bytes: Seq<u8>) -> Option<Self> {
        Some(FDCAN_FccPack3_t { bme_temp: be_u32(bytes, 0), bme_humid: be_u32(bytes, 4) })
    }

    fn fields() -> (kinds: Vec<FieldKind>) {
        vec![FieldKind::U32, FieldKind::U32]
    }

    fn to_fields(&self) -> (fields: Vec<FieldValue>) {
        let fields = vec![FieldValue::U32(self.bme_temp), FieldValue::U32(self.bme_humid)];
        assert(kinds_of(fields@) =~= Self::layout());
        assert(values_of(fields@) =~= self.values());
        fields
    }

    fn decode(bytes: &[u8]) -> (r: Result<Self, DecodeFault>) {
        if bytes.len() < 8 {
            return Err(DecodeFault::TruncatedInput);
        }
        let bme_temp = take_u32(bytes, 0)?;
        let bme_humid = take_u32(bytes, 4)?;
        Ok(FDCAN_FccPack3_t { bme_temp, bme_humid })
    }

    fn encode(&self, out: &mut [u8]) -> (r: Result<usize, EncodeFault>) {
        if out.len() < 8 {
            return Err(EncodeFault::BufferTooSmall);
        }
        put_u32(self.bme_temp, out, 0)?;
        put_u32(self.bme_humid, out, 4)?;
        Ok(8)
    }

    proof fn lemma_round_trip(&self, tail: Seq<u8>) {
        let image = self.wire() + tail;
        lemma_u32_round_trip(self.bme_temp, image, 0);
        lemma_u32_round_trip(self.bme_humid, image, 4);
        assert(splice(image, 0, u32_be(self.bme_temp)) =~= image);
        assert(splice(image, 4, u32_be(self.bme_humid)) =~= image);
    }

    proof fn lemma_layout(&self) {
        let k0 = Seq::<FieldKind>::empty();
        let v0 = Seq::<int>::empty();
        lemma_layout_push(k0, v0, FieldKind::U32, self.bme_temp as int);
        let k1 = k0.push(FieldKind::U32);
        let v1 = v0.push(self.bme_temp as int);
        lemma_layout_push(k1, v1, FieldKind::U32, self.bme_humid as int);
        let k2 = k1.push(FieldKind::U32);
        let v2 = v1.push(self.bme_humid as int);
        assert(Self::layout() =~= k2);
        assert(self.values() =~= v2);
        assert(self.wire() =~= layout_image(k2, v2));
    }

    proof fn lemma_trailing_bytes_ignored(bytes: Seq<u8>) {
    }
}

/// Readings of the four hydrogen sensors.
#[allow(non_camel_case_types)]
#[derive(Clone, Copy, Debug, PartialEq, Eq, Structural)]
pub struct ECOCAN_H2Pack1_t {
    pub h2_sense_1: u16,
    pub h2_sense_2: u16,
    pub h2_sense_3: u16,
    pub h2_sense_4: u16,
}

impl Default for ECOCAN_H2Pack1_t {
    fn default() -> (r: Self)
        ensures
            r == <ECOCAN_H2Pack1_t as FDCANPack>::initial(),
    {
        ECOCAN_H2Pack1_t { h2_sense_1: 0, h2_sense_2: 0, h2_sense_3: 0, h2_sense_4: 0 }
    }
}

impl FDCANPack for ECOCAN_H2Pack1_t {
    const FDCAN_BYTES: FDCANLength = FDCANLength::BYTES_8;

    const FDCAN_ID: u32 = 0x030;

    open spec fn layout() -> Seq<FieldKind> {
        seq![FieldKind::U16, FieldKind::U16, FieldKind::U16, FieldKind::U16]
    }

    open spec fn initial() -> Self {
        ECOCAN_H2Pack1_t { h2_sense_1: 0, h2_sense_2: 0, h2_sense_3: 0, h2_sense_4: 0 }
    }

    open spec fn values(&self) -> Seq<int> {
        seq![
            self.h2_sense_1 as int,
            self.h2_sense_2 as int,
            self.h2_sense_3 as int,
            self.h2_sense_4 as int,
        ]
    }

    open spec fn wire(&self) -> Seq<u8> {
        u16_be(self.h2_sense_1)
            + u16_be(self.h2_sense_2)
            + u16_be(self.h2_sense_3)
            + u16_be(self.h2_sense_4)
    }

    open spec fn parse(bytes: Seq<u8>) -> Option<Self> {
        Some(
            ECOCAN_H2Pack1_t {
                h2_sense_1: be_u16(bytes, 0),
                h2_sense_2: be_u16(bytes, 2),
                h2_sense_3: be_u16(bytes, 4),
                h2_sense_4: be_u16(bytes, 6),
            },
        )
    }

    fn fields() -> (kinds: Vec<FieldKind>) {
        vec![FieldKind::U16, FieldKind::U16, FieldKind::U16, FieldKind::U16]
    }

    fn to_fields(&self) -> (fields: Vec<FieldValue>) {
        let fields = vec![
            FieldValue::U16(self.h2_sense_1),
            FieldValue::U16(self.h2_sense_2),
            FieldValue::U16(self.h2_sense_3),
            FieldValue::U16(self.h2_sense_4),
        ];
        assert(kinds_of(fields@) =~= Self::layout());
        assert(values_of(fields@) =~= self.values());
        fields
    }

    fn decode(bytes: &[u8]) -> (r: Result<Self, DecodeFault>) {
        if bytes.len() < 8 {
            return Err(DecodeFault::TruncatedInput);
        }
        let h2_sense_1 = take_u16(bytes, 0)?;
        let h2_sense_2 = take_u16(bytes, 2)?;
        let h2_sense_3 = take_u16(bytes, 4)?;
        let h2_sense_4 = take_u16(bytes, 6)?;
        Ok(ECOCAN_H2Pack1_t { h2_sense_1, h2_sense_2, h2_sense_3, h2_sense_4 })
    }

    fn encode(&self, out: &mut [u8]) -> (r: Result<usize, EncodeFault>) {
        if out.len() < 8 {
            return Err(EncodeFault::BufferTooSmall);
        }
        put_u16(self.h2_sense_1, out, 0)?;
        put_u16(self.h2_sense_2, out, 2)?;
        put_u16(self.h2_sense_3, out, 4)?;
        put_u16(self.h2_sense_4, out, 6)?;
        Ok(8)
    }

    proof fn lemma_round_trip(&self, tail: Seq<u8>) {
        let image = self.wire() + tail;
        lemma_u16_round_trip(self.h2_sense_1, image, 0);
        lemma_u16_round_trip(self.h2_sense_2, image, 2);
        lemma_u16_round_trip(self.h2_sense_3, image, 4);
        lemma_u16_round_trip(self.h2_sense_4, image, 6);
        assert(splice(image, 0, u16_be(self.h2_sense_1)) =~= image);
        assert(splice(image, 2, u16_be(self.h2_sense_2)) =~= image);
        assert(splice(image, 4, u16_be(self.h2_sense_3)) =~= image);
        assert(splice(image, 6, u16_be(self.h2_sense_4)) =~= image);
    }

    proof fn lemma_layout(&self) {
        let k0 = Seq::<FieldKind>::empty();
        let v0 = Seq::<int>::empty();
        lemma_layout_push(k0, v0, FieldKind::U16, self.h2_sense_1 as int);
        let k1 = k0.push(FieldKind::U16);
        let v1 = v0.push(self.h2_sense_1 as int);
        lemma_layout_push(k1, v1, FieldKind::U16, self.h2_sense_2 as int);
        let k2 = k1.push(FieldKind::U16);
        let v2 = v1.push(self.h2_sense_2 as int);
        lemma_layout_push(k2, v2, FieldKind::U16, self.h2_sense_3 as int);
        let k3 = k2.push(FieldKind::U16);
        let v3 = v2.push(self.h2_sense_3 as int);
        lemma_layout_push(k3, v3, FieldKind::U16, self.h2_sense_4 as int);
        let k4 = k3.push(FieldKind::U16);
        let v4 = v3.push(self.h2_sense_4 as int);
        assert(Self::layout() =~= k4);
        assert(self.values() =~= v4);
        assert(self.wire() =~= layout_image(k4, v4));
    }

    proof fn lemma_trailing_bytes_ignored(bytes: Seq<u8>) {
    }
}

/// Ambient readings and supply currents of the hydrogen board.
#[allow(non_camel_case_types)]
#[derive(Clone, Copy, Debug, PartialEq, Eq, Structural)]
pub struct ECOCAN_H2Pack2_t {
    pub bme_temp: u16,
    pub bme_humid: u16,
    pub imon_7v: u16,
    pub imon_12v: u16,
}

impl Default for ECOCAN_H2Pack2_t {
    fn default() -> (r: Self)
        ensures
            r == <ECOCAN_H2Pack2_t as FDCANPack>::initial(),
    {
        ECOCAN_H2Pack2_t { bme_temp: 0, bme_humid: 0, imon_7v: 0, imon_12v: 0 }
    }
}

impl FDCANPack for ECOCAN_H2Pack2_t {
    const FDCAN_BYTES: FDCANLength = FDCANLength::BYTES_8;

    const FDCAN_ID: u32 = 0x031;

    open spec fn layout() -> Seq<FieldKind> {
        seq![FieldKind::U16, FieldKind::U16, FieldKind::U16, FieldKind::U16]
    }

    open spec fn initial() -> Self {
        ECOCAN_H2Pack2_t { bme_temp: 0, bme_humid: 0, imon_7v: 0, imon_12v: 0 }
    }

    open spec fn values(&self) -> Seq<int> {
        seq![
            self.bme_temp as int,
            self.bme_humid as int,
            self.imon_7v as int,
            self.imon_12v as int,
        ]
    }

    open spec fn wire(&self) -> Seq<u8> {
        u16_be(self.bme_temp)
            + u16_be(self.bme_humid)
            + u16_be(self.imon_7v)
            + u16_be(self.imon_12v)
    }

    open spec fn parse(bytes: Seq<u8>) -> Option<Self> {
        Some(
            ECOCAN_H2Pack2_t {
                bme_temp: be_u16(bytes, 0),
                bme_humid: be_u16(bytes, 2),
                imon_7v: be_u16(bytes, 4),
                imon_12v: be_u16(bytes, 6),
            },
        )
    }

    fn fields() -> (kinds: Vec<FieldKind>) {
        vec![FieldKind::U16, FieldKind::U16, FieldKind::U16, FieldKind::U16]
    }

    fn to_fields(&self) -> (fields: Vec<FieldValue>) {
        let fields = vec![
            FieldValue::U16(self.bme_temp),
            FieldValue::U16(self.bme_humid),
            FieldValue::U16(self.imon_7v),
            FieldValue::U16(self.imon_12v),
        ];
        assert(kinds_of(fields@) =~= Self::layout());
        assert(values_of(fields@) =~= self.values());
        fields
    }

    fn decode(bytes: &[u8]) -> (r: Result<Self, DecodeFault>) {
        if bytes.len() < 8 {
            return Err(DecodeFault::TruncatedInput);
        }
        let bme_temp = take_u16(bytes, 0)?;
        let bme_humid = take_u16(bytes, 2)?;
        let imon_7v = take_u16(bytes, 4)?;
        let imon_12v = take_u16(bytes, 6)?;
        Ok(ECOCAN_H2Pack2_t { bme_temp, bme_humid, imon_7v, imon_12v })
    }

    fn encode(&self, out: &mut [u8]) -> (r: Result<usize, EncodeFault>) {
        if out.len() < 8 {
            return Err(EncodeFault::BufferTooSmall);
        }
        put_u16(self.bme_temp, out, 0)?;
        put_u16(self.bme_humid, out, 2)?;
        put_u16(self.imon_7v, out, 4)?;
        put_u16(self.imon_12v, out, 6)?;
        Ok(8)
    }

    proof fn lemma_round_trip(&self, tail: Seq<u8>) {
        let image = self.wire() + tail;
        lemma_u16_round_trip(self.bme_temp, image, 0);
        lemma_u16_round_trip(self.bme_humid, image, 2);
        lemma_u16_round_trip(self.imon_7v, image, 4);
        lemma_u16_round_trip(self.imon_12v, image, 6);
        assert(splice(image, 0, u16_be(self.bme_temp)) =~= image);
        assert(splice(image, 2, u16_be(self.bme_humid)) =~= image);
        assert(splice(image, 4, u16_be(self.imon_7v)) =~= image);
        assert(splice(image, 6, u16_be(self.imon_12v)) =~= image);
    }

    proof fn lemma_layout(&self) {
        let k0 = Seq::<FieldKind>::empty();
        let v0 = Seq::<int>::empty();
        lemma_layout_push(k0, v0, FieldKind::U16, self.bme_temp as int);
        let k1 = k0.push(FieldKind::U16);
        let v1 = v0.push(self.bme_temp as int);
        lemma_layout_push(k1, v1, FieldKind::U16, self.bme_humid as int);
        let k2 = k1.push(FieldKind::U16);
        let v2 = v1.push(self.bme_humid as int);
        lemma_layout_push(k2, v2, FieldKind::U16, self.imon_7v as int);
        let k3 = k2.push(FieldKind::U16);
        let v3 = v2.push(self.imon_7v as int);
        lemma_layout_push(k3, v3, FieldKind::U16, self.imon_12v as int);
        let k4 = k3.push(FieldKind::U16);
        let v4 = v3.push(self.imon_12v as int);
        assert(Self::layout() =~= k4);
        assert(self.values() =~= v4);
        assert(self.wire() =~= layout_image(k4, v4));
    }

    proof fn lemma_trailing_bytes_ignored(bytes: Seq<u8>) {
    }
}

/// Whether the hydrogen alarm is armed.
#[allow(non_camel_case_types)]
#[derive(Clone, Copy, Debug, PartialEq, Eq, Structural)]
pub struct ECOCAN_H2_ARM_ALARM_t {
    pub h2_alarm_armed: u8,
}

impl Default for ECOCAN_H2_ARM_ALARM_t {
    fn default() -> (r: Self)
        ensures
            r == <ECOCAN_H2_ARM_ALARM_t as FDCANPack>::initial(),
    {
        ECOCAN_H2_ARM_ALARM_t { h2_alarm_armed: 0 }
    }
}

impl FDCANPack for ECOCAN_H2_ARM_ALARM_t {
    const FDCAN_BYTES: FDCANLength = FDCANLength::BYTES_1;

    const FDCAN_ID: u32 = 0x032;

    open spec fn layout() -> Seq<FieldKind> {
        seq![FieldKind::U8]
    }

    open spec fn initial() -> Self {
        ECOCAN_H2_ARM_ALARM_t { h2_alarm_armed: 0 }
    }

    open spec fn values(&self) -> Seq<int> {
        seq![self.h2_alarm_armed as int]
    }

    open spec fn wire(&self) -> Seq<u8> {
        u8_be(self.h2_alarm_armed)
    }

    open spec fn parse(bytes: Seq<u8>) -> Option<Self> {
        Some(ECOCAN_H2_ARM_ALARM_t { h2_alarm_armed: be_u8(bytes, 0) })
    }

    fn fields() -> (kinds: Vec<FieldKind>) {
        vec![FieldKind::U8]
    }

    fn to_fields(&self) -> (fields: Vec<FieldValue>) {
        let fields = vec![FieldValue::U8(self.h2_alarm_armed)];
        assert(kinds_of(fields@) =~= Self::layout());
        assert(values_of(fields@) =~= self.values());
        fields
    }

    fn decode(bytes: &[u8]) -> (r: Result<Self, DecodeFault>) {
        if bytes.len() < 1 {
            return Err(DecodeFault::TruncatedInput);
        }
        let h2_alarm_armed = take_u8(bytes, 0)?;
        Ok(ECOCAN_H2_ARM_ALARM_t { h2_alarm_armed })
    }

    fn encode(&self, out: &mut [u8]) -> (r: Result<usize, EncodeFault>) {
        if out.len() < 1 {
            return Err(EncodeFault::BufferTooSmall);
        }
        put_u8(self.h2_alarm_armed, out, 0)?;
        Ok(1)
    }

    proof fn lemma_round_trip(&self, tail: Seq<u8>) {
        let image = self.wire() + tail;
        lemma_u8_round_trip(self.h2_alarm_armed, image, 0);
        assert(splice(image, 0, u8_be(self.h2_alarm_armed)) =~= image);
    }

    proof fn lemma_layout(&self) {
        let k0 = Seq::<FieldKind>::empty();
        let v0 = Seq::<int>::empty();
        lemma_layout_push(k0, v0, FieldKind::U8, self.h2_alarm_armed as int);
        let k1 = k0.push(FieldKind::U8);
        let v1 = v0.push(self.h2_alarm_armed as int);
        assert(Self::layout() =~= k1);
        assert(self.values() =~= v1);
        assert(self.wire() =~= layout_image(k1, v1));
    }

    proof fn lemma_trailing_bytes_ignored(bytes: Seq<u8>) {
    }
}

/// Input current and voltage of the boost converter.
#[allow(non_camel_case_types)]
#[derive(Clone, Copy, Debug, PartialEq, Eq, Structural)]
pub struct FDCAN_BOOSTPack1_t {
    pub in_curr: u32,
    pub in_volt: u32,
}

impl Default for FDCAN_BOOSTPack1_t {
    fn default() -> (r: Self)
        ensures
            r == <FDCAN_BOOSTPack1_t as FDCANPack>::initial(),
    {
        FDCAN_BOOSTPack1_t { in_curr: 0, in_volt: 0 }
    }
}

impl FDCANPack for FDCAN_BOOSTPack1_t {
    const FDCAN_BYTES: FDCANLength = FDCANLength::BYTES_8;

    const FDCAN_ID: u32 = 0x040;

    open spec fn layout() -> Seq<FieldKind> {
        seq![FieldKind::U32, FieldKind::U32]
    }

    open spec fn initial() -> Self {
        FDCAN_BOOSTPack1_t { in_curr: 0, in_volt: 0 }
    }

    open spec fn values(&self) -> Seq<int> {
        seq![self.in_curr as int, self.in_volt as int]
    }

    open spec fn wire(&self) -> Seq<u8> {
        u32_be(self.in_curr) + u32_be(self.in_volt)
    }

    open spec fn parse(bytes: Seq<u8>) -> Option<Self> {
        Some(FDCAN_BOOSTPack1_t { in_curr: be_u32(bytes, 0), in_volt: be_u32(bytes, 4) })
    }

    fn fields() -> (kinds: Vec<FieldKind>) {
        vec![FieldKind::U32, FieldKind::U32]
    }

    fn to_fields(&self) -> (fields: Vec<FieldValue>) {
        let fields = vec![FieldValue::U32(self.in_curr), FieldValue::U32(self.in_volt)];
        assert(kinds_of(fields@) =~= Self::layout());
        assert(values_of(fields@) =~= self.values());
        fields
    }

    fn decode(bytes: &[u8]) -> (r: Result<Self, DecodeFault>) {
        if bytes.len() < 8 {
            return Err(DecodeFault::TruncatedInput);
        }
        let in_curr = take_u32(bytes, 0)?;
        let in_volt = take_u32(bytes, 4)?;
        Ok(FDCAN_BOOSTPack1_t { in_curr, in_volt })
    }

    fn encode(&self, out: &mut [u8]) -> (r: Result<usize, EncodeFault>) {
        if out.len() < 8 {
            return Err(EncodeFault::BufferTooSmall);
        }
        put_u32(self.in_curr, out, 0)?;
        put_u32(self.in_volt, out, 4)?;
        Ok(8)
    }

    proof fn lemma_round_trip(&self, tail: Seq<u8>) {
        let image = self.wire() + tail;
        lemma_u32_round_trip(self.in_curr, image, 0);
        lemma_u32_round_trip(self.in_volt, image, 4);
        assert(splice(image, 0, u32_be(self.in_curr)) =~= image);
        assert(splice(image, 4, u32_be(self.in_volt)) =~= image);
    }

    proof fn lemma_layout(&self) {
        let k0 = Seq::<FieldKind>::empty();
        let v0 = Seq::<int>::empty();
        lemma_layout_push(k0, v0, FieldKind::U32, self.in_curr as int);
        let k1 = k0.push(FieldKind::U32);
        let v1 = v0.push(self.in_curr as int);
        lemma_layout_push(k1, v1, FieldKind::U32, self.in_volt as int);
        let k2 = k1.push(FieldKind::U32);
        let v2 = v1.push(self.in_volt as int);
        assert(Self::layout() =~= k2);
        assert(self.values() =~= v2);
        assert(self.wire() =~= layout_image(k2, v2));
    }

    proof fn lemma_trailing_bytes_ignored(bytes: Seq<u8>) {
    }
}

/// Output current and voltage of the boost converter.
#[allow(non_camel_case_types)]
#[derive(Clone, Copy, Debug, PartialEq, Eq, Structural)]
pub struct FDCAN_BOOSTPack2_t {
    pub out_curr: u32,
    pub out_volt: u32,
}

impl Default for FDCAN_BOOSTPack2_t {
    fn default() -> (r: Self)
        ensures
            r == <FDCAN_BOOSTPack2_t as FDCANPack>::initial(),
    {
        FDCAN_BOOSTPack2_t { out_curr: 0, out_volt: 0 }
    }
}

impl FDCANPack for FDCAN_BOOSTPack2_t {
    const FDCAN_BYTES: FDCANLength = FDCANLength::BYTES_8;

    const FDCAN_ID: u32 = 0x041;

    open spec fn layout() -> Seq<FieldKind> {
        seq![FieldKind::U32, FieldKind::U32]
    }

    open spec fn initial() -> Self {
        FDCAN_BOOSTPack2_t { out_curr: 0, out_volt: 0 }
    }

    open spec fn values(&self) -> Seq<int> {
        seq![self.out_curr as int, self.out_volt as int]
    }

    open spec fn wire(&self) -> Seq<u8> {
        u32_be(self.out_curr) + u32_be(self.out_volt)
    }

    open spec fn parse(bytes: Seq<u8>) -> Option<Self> {
        Some(FDCAN_BOOSTPack2_t { out_curr: be_u32(bytes, 0), out_volt: be_u32(bytes, 4) })
    }

    fn fields() -> (kinds: Vec<FieldKind>) {
        vec![FieldKind::U32, FieldKind::U32]
    }

    fn to_fields(&self) -> (fields: Vec<FieldValue>) {
        let fields = vec![FieldValue::U32(self.out_curr), FieldValue::U32(self.out_volt)];
        assert(kinds_of(fields@) =~= Self::layout());
        assert(values_of(fields@) =~= self.values());
        fields
    }

    fn decode(bytes: &[u8]) -> (r: Result<Self, DecodeFault>) {
        if bytes.len() < 8 {
            return Err(DecodeFault::TruncatedInput);
        }
        let out_curr = take_u32(bytes, 0)?;
        let out_volt = take_u32(bytes, 4)?;
        Ok(FDCAN_BOOSTPack2_t { out_curr, out_volt })
    }

    fn encode(&self, out: &mut [u8]) -> (r: Result<usize, EncodeFault>) {
        if out.len() < 8 {
            return Err(EncodeFault::BufferTooSmall);
        }
        put_u32(self.out_curr, out, 0)?;
        put_u32(self.out_volt, out, 4)?;
        Ok(8)
    }

    proof fn lemma_round_trip(&self, tail: Seq<u8>) {
        let image = self.wire() + tail;
        lemma_u32_round_trip(self.out_curr, image, 0);
        lemma_u32_round_trip(self.out_volt, image, 4);
        assert(splice(image, 0, u32_be(self.out_curr)) =~= image);
        assert(splice(image, 4, u32_be(self.out_volt)) =~= image);
    }

    proof fn lemma_layout(&self) {
        let k0 = Seq::<FieldKind>::empty();
        let v0 = Seq::<int>::empty();
        lemma_layout_push(k0, v0, FieldKind::U32, self.out_curr as int);
        let k1 = k0.push(FieldKind::U32);
        let v1 = v0.push(self.out_curr as int);
        lemma_layout_push(k1, v1, FieldKind::U32, self.out_volt as int);
        let k2 = k1.push(FieldKind::U32);
        let v2 = v1.push(self.out_volt as int);
        assert(Self::layout() =~= k2);
        assert(self.values() =~= v2);
        assert(self.wire() =~= layout_image(k2, v2));
    }

    proof fn lemma_trailing_bytes_ignored(bytes: Seq<u8>) {
    }
}

/// Efficiency and energy of the boost converter.
#[allow(non_camel_case_types)]
#[derive(Clone, Copy, Debug, PartialEq, Eq, Structural)]
pub struct FDCAN_BOOSTPack3_t {
    pub efficiency: u32,
    pub joules: u32,
}

impl Default for FDCAN_BOOSTPack3_t {
    fn default() -> (r: Self)
        ensures
            r == <FDCAN_BOOSTPack3_t as FDCANPack>::initial(),
    {
        FDCAN_BOOSTPack3_t { efficiency: 0, joules: 0 }
    }
}

impl FDCANPack for FDCAN_BOOSTPack3_t {
    const FDCAN_BYTES: FDCANLength = FDCANLength::BYTES_8;

    const FDCAN_ID: u32 = 0x042;

    open spec fn layout() -> Seq<FieldKind> {
        seq![FieldKind::U32, FieldKind::U32]
    }

    open spec fn initial() -> Self {
        FDCAN_BOOSTPack3_t { efficiency: 0, joules: 0 }
    }

    open spec fn values(&self) -> Seq<int> {
        seq![self.efficiency as int, self.joules as int]
    }

    open spec fn wire(&self) -> Seq<u8> {
        u32_be(self.efficiency) + u32_be(self.joules)
    }

    open spec fn parse(bytes: Seq<u8>) -> Option<Self> {
        Some(FDCAN_BOOSTPack3_t { efficiency: be_u32(bytes, 0), joules: be_u32(bytes, 4) })
    }

    fn fields() -> (kinds: Vec<FieldKind>) {
        vec![FieldKind::U32, FieldKind::U32]
    }

    fn to_fields(&self) -> (fields: Vec<FieldValue>) {
        let fields = vec![FieldValue::U32(self.efficiency), FieldValue::U32(self.joules)];
        assert(kinds_of(fields@) =~= Self::layout());
        assert(values_of(fields@) =~= self.values());
        fields
    }

    fn decode(bytes: &[u8]) -> (r: Result<Self, DecodeFault>) {
        if bytes.len() < 8 {
            return Err(DecodeFault::TruncatedInput);
        }
        let efficiency = take_u32(bytes, 0)?;
        let joules = take_u32(bytes, 4)?;
        Ok(FDCAN_BOOSTPack3_t { efficiency, joules })
    }

    fn encode(&self, out: &mut [u8]) -> (r: Result<usize, EncodeFault>) {
        if out.len() < 8 {
            return Err(EncodeFault::BufferTooSmall);
        }
        put_u32(self.efficiency, out, 0)?;
        put_u32(self.joules, out, 4)?;
        Ok(8)
    }

    proof fn lemma_round_trip(&self, tail: Seq<u8>) {
        let image = self.wire() + tail;
        lemma_u32_round_trip(self.efficiency, image, 0);
        lemma_u32_round_trip(self.joules, image, 4);
        assert(splice(image, 0, u32_be(self.efficiency)) =~= image);
        assert(splice(image, 4, u32_be(self.joules)) =~= image);
    }

    proof fn lemma_layout(&self) {
        let k0 = Seq::<FieldKind>::empty();
        let v0 = Seq::<int>::empty();
        lemma_layout_push(k0, v0, FieldKind::U32, self.efficiency as int);
        let k1 = k0.push(FieldKind::U32);
        let v1 = v0.push(self.efficiency as int);
        lemma_layout_push(k1, v1, FieldKind::U32, self.joules as int);
        let k2 = k1.push(FieldKind::U32);
        let v2 = v1.push(self.joules as int);
        assert(Self::layout() =~= k2);
        assert(self.values() =~= v2);
        assert(self.wire() =~= layout_image(k2, v2));
    }

    proof fn lemma_trailing_bytes_ignored(bytes: Seq<u8>) {
    }
}

/// Output current and voltage of the battery, in compact form.
#[allow(non_camel_case_types)]
#[derive(Clone, Copy, Debug, PartialEq, Eq, Structural)]
pub struct FDCAN_BATTPack2_t {
    pub out_curr: u16,
    pub out_volt: u16,
}

impl Default for FDCAN_BATTPack2_t {
    fn default() -> (r: Self)
        ensures
            r == <FDCAN_BATTPack2_t as FDCANPack>::initial(),
    {
        FDCAN_BATTPack2_t { out_curr: 0, out_volt: 0 }
    }
}

impl FDCANPack for FDCAN_BATTPack2_t {
    const FDCAN_BYTES: FDCANLength = FDCANLength::BYTES_4;

    const FDCAN_ID: u32 = 0x050;

    open spec fn layout() -> Seq<FieldKind> {
        seq![FieldKind::U16, FieldKind::U16]
    }

    open spec fn initial() -> Self {
        FDCAN_BATTPack2_t { out_curr: 0, out_volt: 0 }
    }

    open spec fn values(&self) -> Seq<int> {
        seq![self.out_curr as int, self.out_volt as int]
    }

    open spec fn wire(&self) -> Seq<u8> {
        u16_be(self.out_curr) + u16_be(self.out_volt)
    }

    open spec fn parse(bytes: Seq<u8>) -> Option<Self> {
        Some(FDCAN_BATTPack2_t { out_curr: be_u16(bytes, 0), out_volt: be_u16(bytes, 2) })
    }

    fn fields() -> (kinds: Vec<FieldKind>) {
        vec![FieldKind::U16, FieldKind::U16]
    }

    fn to_fields(&self) -> (fields: Vec<FieldValue>) {
        let fields = vec![FieldValue::U16(self.out_curr), FieldValue::U16(self.out_volt)];
        assert(kinds_of(fields@) =~= Self::layout());
        assert(values_of(fields@) =~= self.values());
        fields
    }

    fn decode(bytes: &[u8]) -> (r: Result<Self, DecodeFault>) {
        if bytes.len() < 4 {
            return Err(DecodeFault::TruncatedInput);
        }
        let out_curr = take_u16(bytes, 0)?;
        let out_volt = take_u16(bytes, 2)?;
        Ok(FDCAN_BATTPack2_t { out_curr, out_volt })
    }

    fn encode(&self, out: &mut [u8]) -> (r: Result<usize, EncodeFault>) {
        if out.len() < 4 {
            return Err(EncodeFault::BufferTooSmall);
        }
        put_u16(self.out_curr, out, 0)?;
        put_u16(self.out_volt, out, 2)?;
        Ok(4)
    }

    proof fn lemma_round_trip(&self, tail: Seq<u8>) {
        let image = self.wire() + tail;
        lemma_u16_round_trip(self.out_curr, image, 0);
        lemma_u16_round_trip(self.out_volt, image, 2);
        assert(splice(image, 0, u16_be(self.out_curr)) =~= image);
        assert(splice(image, 2, u16_be(self.out_volt)) =~= image);
    }

    proof fn lemma_layout(&self) {
        let k0 = Seq::<FieldKind>::empty();
        let v0 = Seq::<int>::empty();
        lemma_layout_push(k0, v0, FieldKind::U16, self.out_curr as int);
        let k1 = k0.push(FieldKind::U16);
        let v1 = v0.push(self.out_curr as int);
        lemma_layout_push(k1, v1, FieldKind::U16, self.out_volt as int);
        let k2 = k1.push(FieldKind::U16);
        let v2 = v1.push(self.out_volt as int);
        assert(Self::layout() =~= k2);
        assert(self.values() =~= v2);
        assert(self.wire() =~= layout_image(k2, v2));
    }

    proof fn lemma_trailing_bytes_ignored(bytes: Seq<u8>) {
    }
}

/// The identifiers and declared lengths of the packages, written out.
pub proof fn lemma_packages()
    ensures
        FDCAN_FetPack_t::FDCAN_ID == 0x010,
        FDCAN_FetPack_t::FDCAN_BYTES == FDCANLength::BYTES_24,
        ECOCAN_RelPackChrg_t::FDCAN_ID == 0x013,
        ECOCAN_RelPackChrg_t::FDCAN_BYTES == FDCANLength::BYTES_8,
        FDCAN_RelPackNrg_t::FDCAN_ID == 0x014,
        FDCAN_RelPackNrg_t::FDCAN_BYTES == FDCANLength::BYTES_8,
        FDCAN_RelPackMtr_t::FDCAN_ID == 0x015,
        FDCAN_RelPackMtr_t::FDCAN_BYTES == FDCANLength::BYTES_8,
        FDCAN_RelPackCap_t::FDCAN_ID == 0x016,
        FDCAN_RelPackCap_t::FDCAN_BYTES == FDCANLength::BYTES_8,
        FDCAN_RelPackFc_t::FDCAN_ID == 0x017,
        FDCAN_RelPackFc_t::FDCAN_BYTES == FDCANLength::BYTES_8,
        RelayState::FDCAN_ID == 0x018,
        RelayState::FDCAN_BYTES == FDCANLength::BYTES_1,
        FDCAN_FccPack1_t::FDCAN_ID == 0x020,
        FDCAN_FccPack1_t::FDCAN_BYTES == FDCANLength::BYTES_8,
        FDCAN_FccPack2_t::FDCAN_ID == 0x021,
        FDCAN_FccPack2_t::FDCAN_BYTES == FDCANLength::BYTES_8,
        FDCAN_FccPack3_t::FDCAN_ID == 0x022,
        FDCAN_FccPack3_t::FDCAN_BYTES == FDCANLength::BYTES_8,
        ECOCAN_H2Pack1_t::FDCAN_ID == 0x030,
        ECOCAN_H2Pack1_t::FDCAN_BYTES == FDCANLength::BYTES_8,
        ECOCAN_H2Pack2_t::FDCAN_ID == 0x031,
        ECOCAN_H2Pack2_t::FDCAN_BYTES == FDCANLength::BYTES_8,
        ECOCAN_H2_ARM_ALARM_t::FDCAN_ID == 0x032,
        ECOCAN_H2_ARM_ALARM_t::FDCAN_BYTES == FDCANLength::BYTES_1,
        FDCAN_BOOSTPack1_t::FDCAN_ID == 0x040,
        FDCAN_BOOSTPack1_t::FDCAN_BYTES == FDCANLength::BYTES_8,
        FDCAN_BOOSTPack2_t::FDCAN_ID == 0x041,
        FDCAN_BOOSTPack2_t::FDCAN_BYTES == FDCANLength::BYTES_8,
        FDCAN_BOOSTPack3_t::FDCAN_ID == 0x042,
        FDCAN_BOOSTPack3_t::FDCAN_BYTES == FDCANLength::BYTES_8,
        FDCAN_BATTPack2_t::FDCAN_ID == 0x050,
        FDCAN_BATTPack2_t::FDCAN_BYTES == FDCANLength::BYTES_4,
{
}

} // verus!
