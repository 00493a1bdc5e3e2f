//! Field layouts: the wire format as data.
//!
//! A layout is the ordered list of the kinds of a package's fields. It says
//! all there is to say of the package's payload: the fields follow each other
//! in that order, each big-endian at the width of its kind, without padding
//! and without a length prefix. The functions of this module decode and
//! encode under any layout, so that a consumer that knows a package only by
//! its catalog entry can still read its fields.

use vstd::prelude::*;
use crate::fault::{DecodeFault, EncodeFault};
use crate::wire::{
    be_i16, be_i32, be_i8, be_u16, be_u32, be_u8, i16_be, i32_be, i8_be, lemma_i16_round_trip,
    lemma_i32_round_trip, lemma_i8_round_trip, lemma_splice_append, lemma_u16_round_trip,
    lemma_u32_round_trip, lemma_u8_round_trip, put_i16, put_i32, put_i8, put_u16, put_u32,
    put_u8, splice, take_i16, take_i32, take_i8, take_u16, take_u32, take_u8, u16_be, u32_be,
    u8_be,
};

verus! {

/// The kind of a field of a package: its width and whether it is signed.
#[derive(Clone, Copy, Debug, PartialEq, Eq, Structural)]
pub enum FieldKind {
    /// Unsigned, one byte.
    U8,
    /// Unsigned, two bytes.
    U16,
    /// Unsigned, four bytes.
    U32,
    /// Two's complement, one byte.
    I8,
    /// Two's complement, two bytes.
    I16,
    /// Two's complement, four bytes.
    I32,
}

impl FieldKind {
    /// The number of bytes that a field of this kind takes on the wire.
    pub open spec fn spec_width(self) -> usize {
        match self {
            FieldKind::U8 => 1,
            FieldKind::U16 => 2,
            FieldKind::U32 => 4,
            FieldKind::I8 => 1,
            FieldKind::I16 => 2,
            FieldKind::I32 => 4,
        }
    }

    /// Whether a field of this kind holds negative values.
    pub open spec fn spec_signed(self) -> bool {
        self == FieldKind::I8 || self == FieldKind::I16 || self == FieldKind::I32
    }

    /// Whether a field of this kind can hold `value`.
    pub open spec fn holds(self, value: int) -> bool {
        match self {
            FieldKind::U8 => 0 <= value <= u8::MAX,
            FieldKind::U16 => 0 <= value <= u16::MAX,
            FieldKind::U32 => 0 <= value <= u32::MAX,
            FieldKind::I8 => i8::MIN <= value <= i8::MAX,
            FieldKind::I16 => i16::MIN <= value <= i16::MAX,
            FieldKind::I32 => i32::MIN <= value <= i32::MAX,
        }
    }

    /// The bytes that stand for `value` in a field of this kind.
    pub open spec fn image(self, value: int) -> Seq<u8> {
        match self {
            FieldKind::U8 => u8_be(value as u8),
            FieldKind::U16 => u16_be(value as u16),
            FieldKind::U32 => u32_be(value as u32),
            FieldKind::I8 => i8_be(value as i8),
            FieldKind::I16 => i16_be(value as i16),
            FieldKind::I32 => i32_be(value as i32),
        }
    }

    /// The value that the bytes from `at` on stand for in a field of this
    /// kind.
    pub open spec fn value(self, bytes: Seq<u8>, at: int) -> int {
        match self {
            FieldKind::U8 => be_u8(bytes, at) as int,
            FieldKind::U16 => be_u16(bytes, at) as int,
            FieldKind::U32 => be_u32(bytes, at) as int,
            FieldKind::I8 => be_i8(bytes, at) as int,
            FieldKind::I16 => be_i16(bytes, at) as int,
            FieldKind::I32 => be_i32(bytes, at) as int,
        }
    }

    /// The number of bytes that a field of this kind takes on the wire.
    #[verifier::when_used_as_spec(spec_width)]
    pub fn width(self) -> (n: usize)
        ensures
            n == self.spec_width(),
    {
        match self {
            FieldKind::U8 => 1,
            FieldKind::U16 => 2,
            FieldKind::U32 => 4,
            FieldKind::I8 => 1,
            FieldKind::I16 => 2,
            FieldKind::I32 => 4,
        }
    }

    /// Whether a field of this kind holds negative values.
    #[verifier::when_used_as_spec(spec_signed)]
    pub fn signed(self) -> (b: bool)
        ensures
            b == self.spec_signed(),
    {
        match self {
            FieldKind::I8 | FieldKind::I16 | FieldKind::I32 => true,
            _ => false,
        }
    }
}

/// The number of bytes that the fields of a layout take together.
pub open spec fn layout_width(layout: Seq<FieldKind>) -> nat
    decreases layout.len(),
{
    if layout.len() == 0 {
        0
    } else {
        layout_width(layout.drop_last()) + layout.last().width() as nat
    }
}

/// The bytes that stand for `values` laid out as `layout` says: field after
/// field, without padding.
pub open spec fn layout_image(layout: Seq<FieldKind>, values: Seq<int>) -> Seq<u8>
    decreases layout.len(),
{
    if layout.len() == 0 {
        Seq::empty()
    } else {
        layout_image(layout.drop_last(), values.drop_last()) + layout.last().image(values.last())
    }
}

/// The values that the leading bytes of `bytes` stand for under `layout`,
/// field by field.
pub open spec fn layout_values(layout: Seq<FieldKind>, bytes: Seq<u8>) -> Seq<int>
    decreases layout.len(),
{
    if layout.len() == 0 {
        Seq::empty()
    } else {
        layout_values(layout.drop_last(), bytes).push(
            layout.last().value(bytes, layout_width(layout.drop_last()) as int),
        )
    }
}

/// Whether every value is one that the field of its place can hold.
pub open spec fn layout_holds(layout: Seq<FieldKind>, values: Seq<int>) -> bool {
    &&& values.len() == layout.len()
    &&& forall|i: int| 0 <= i < layout.len() ==> (#[trigger] layout[i]).holds(values[i])
}

/// A layout with one field more is wider by that field, its image is longer
/// by that field's image, and it reads one value more, right behind the
/// others.
pub proof fn lemma_layout_push(layout: Seq<FieldKind>, values: Seq<int>, kind: FieldKind, value: int)
    ensures
        layout_width(layout.push(kind)) == layout_width(layout) + kind.width(),
        layout_image(layout.push(kind), values.push(value)) == layout_image(layout, values)
            + kind.image(value),
        forall|bytes: Seq<u8>| #[trigger]
            layout_values(layout.push(kind), bytes) == layout_values(layout, bytes).push(
                kind.value(bytes, layout_width(layout) as int),
            ),
{
    assert(layout.push(kind).drop_last() =~= layout);
    assert(values.push(value).drop_last() =~= values);
}

/// The leading fields of a layout are no wider than the whole.
pub proof fn lemma_layout_prefix(layout: Seq<FieldKind>, n: int)
    requires
        0 <= n <= layout.len(),
    ensures
        layout_width(layout.take(n)) <= layout_width(layout),
    decreases layout.len(),
{
    if n == layout.len() {
        assert(layout.take(n) =~= layout);
    } else {
        assert(layout.drop_last().take(n) =~= layout.take(n));
        lemma_layout_prefix(layout.drop_last(), n);
    }
}

/// The image of values under a layout is as long as the layout is wide, and
/// reading it under the same layout gives the values back, whatever bytes
/// follow it.
pub proof fn lemma_layout_round_trip(layout: Seq<FieldKind>, values: Seq<int>, tail: Seq<u8>)
    requires
        layout_holds(layout, values),
    ensures
        layout_image(layout, values).len() == layout_width(layout),
        layout_values(layout, layout_image(layout, values) + tail) == values,
    decreases layout.len(),
{
    if layout.len() == 0 {
        assert(layout_values(layout, layout_image(layout, values) + tail) =~= values);
    } else {
        let kind = layout.last();
        let value = values.last();
        let front = layout_image(layout.drop_last(), values.drop_last());
        let whole = layout_image(layout, values) + tail;
        assert(layout_holds(layout.drop_last(), values.drop_last())) by {
            assert forall|i: int| 0 <= i < layout.drop_last().len() implies (
            #[trigger] layout.drop_last()[i]).holds(values.drop_last()[i]) by {
                assert(layout[i].holds(values[i]));
            }
        }
        lemma_layout_round_trip(layout.drop_last(), values.drop_last(), kind.image(value) + tail);
        assert(whole =~= front + (kind.image(value) + tail));
        let at = front.len() as int;
        assert(kind.holds(value));
        assert(splice(whole, at, kind.image(value)) =~= whole);
        match kind {
            FieldKind::U8 => lemma_u8_round_trip(value as u8, whole, at),
            FieldKind::U16 => lemma_u16_round_trip(value as u16, whole, at),
            FieldKind::U32 => lemma_u32_round_trip(value as u32, whole, at),
            FieldKind::I8 => lemma_i8_round_trip(value as i8, whole, at),
            FieldKind::I16 => lemma_i16_round_trip(value as i16, whole, at),
            FieldKind::I32 => lemma_i32_round_trip(value as i32, whole, at),
        }
        assert(layout_values(layout, whole) =~= values);
    }
}

/// The value of one field, together with its kind.
#[derive(Clone, Copy, Debug, PartialEq, Eq, Structural)]
pub enum FieldValue {
    U8(u8),
    U16(u16),
    U32(u32),
    I8(i8),
    I16(i16),
    I32(i32),
}

impl FieldValue {
    /// The kind of the field.
    pub open spec fn spec_kind(self) -> FieldKind {
        match self {
            FieldValue::U8(_) => FieldKind::U8,
            FieldValue::U16(_) => FieldKind::U16,
            FieldValue::U32(_) => FieldKind::U32,
            FieldValue::I8(_) => FieldKind::I8,
            FieldValue::I16(_) => FieldKind::I16,
            FieldValue::I32(_) => FieldKind::I32,
        }
    }

    /// The value of the field as a number.
    pub open spec fn value(self) -> int {
        match self {
            FieldValue::U8(x) => x as int,
            FieldValue::U16(x) => x as int,
            FieldValue::U32(x) => x as int,
            FieldValue::I8(x) => x as int,
            FieldValue::I16(x) => x as int,
            FieldValue::I32(x) => x as int,
        }
    }

    /// The kind of the field.
    #[verifier::when_used_as_spec(spec_kind)]
    pub fn kind(self) -> (kind: FieldKind)
        ensures
            kind == self.spec_kind(),
    {
        match self {
            FieldValue::U8(_) => FieldKind::U8,
            FieldValue::U16(_) => FieldKind::U16,
            FieldValue::U32(_) => FieldKind::U32,
            FieldValue::I8(_) => FieldKind::I8,
            FieldValue::I16(_) => FieldKind::I16,
            FieldValue::I32(_) => FieldKind::I32,
        }
    }
}

/// The kinds of a run of fields.
pub open spec fn kinds_of(fields: Seq<FieldValue>) -> Seq<FieldKind> {
    fields.map_values(|field: FieldValue| field.kind())
}

/// The values of a run of fields.
pub open spec fn values_of(fields: Seq<FieldValue>) -> Seq<int> {
    fields.map_values(|field: FieldValue| field.value())
}

/// The payload that stands for a run of fields.
pub open spec fn fields_image(fields: Seq<FieldValue>) -> Seq<u8> {
    layout_image(kinds_of(fields), values_of(fields))
}

/// Every field holds a value of its own kind.
pub proof fn lemma_fields_hold(fields: Seq<FieldValue>)
    ensures
        layout_holds(kinds_of(fields), values_of(fields)),
{
}

/// The number of bytes that the fields of `layout` take together, or `None`
/// where that is more than any buffer can hold.
pub fn width_of(layout: &[FieldKind]) -> (r: Option<usize>)
    ensures
        r matches Some(width) ==> width == layout_width(layout@),
        r is None ==> layout_width(layout@) > usize::MAX,
{
    let mut width: usize = 0;
    let mut i: usize = 0;
    while i < layout.len()
        invariant
            i <= layout.len(),
            width == layout_width(layout@.take(i as int)),
        decreases layout.len() - i,
    {
        proof {
            lemma_layout_push(layout@.take(i as int), Seq::empty(), layout@[i as int], 0);
            assert(layout@.take(i + 1) =~= layout@.take(i as int).push(layout@[i as int]));
        }
        match width.checked_add(layout[i].width()) {
            Some(sum) => {
                width = sum;
            },
            None => {
                proof {
                    lemma_layout_prefix(layout@, i + 1);
                }
                return None;
            },
        }
        i += 1;
    }
    assert(layout@.take(i as int) =~= layout@);
    Some(width)
}

/// Decodes the leading bytes of `bytes` under `layout`: one value per field,
/// each of the kind that the layout names. Fewer bytes than the layout is
/// wide are truncated input; bytes beyond its width are ignored.
pub fn decode(bytes: &[u8], layout: &[FieldKind]) -> (r: Result<Vec<FieldValue>, DecodeFault>)
    ensures
        bytes@.len() < layout_width(layout@) ==> r == Err::<Vec<FieldValue>, DecodeFault>(
            DecodeFault::TruncatedInput,
        ),
        bytes@.len() >= layout_width(layout@) ==> r is Ok && kinds_of(r->Ok_0@) == layout@
            && values_of(r->Ok_0@) == layout_values(layout@, bytes@),
{
    let mut fields: Vec<FieldValue> = Vec::new();
    let mut at: usize = 0;
    let mut i: usize = 0;
    while i < layout.len()
        invariant
            i <= layout.len(),
            at == layout_width(layout@.take(i as int)),
            at <= bytes@.len(),
            kinds_of(fields@) == layout@.take(i as int),
            values_of(fields@) == layout_values(layout@.take(i as int), bytes@),
        decreases layout.len() - i,
    {
        let kind = layout[i];
        proof {
            lemma_layout_push(layout@.take(i as int), Seq::empty(), kind, 0);
            assert(layout@.take(i + 1) =~= layout@.take(i as int).push(kind));
            lemma_layout_prefix(layout@, i + 1);
        }
        if bytes.len() - at < kind.width() {
            return Err(DecodeFault::TruncatedInput);
        }
        let field = match kind {
            FieldKind::U8 => FieldValue::U8(take_u8(bytes, at)?),
            FieldKind::U16 => FieldValue::U16(take_u16(bytes, at)?),
            FieldKind::U32 => FieldValue::U32(take_u32(bytes, at)?),
            FieldKind::I8 => FieldValue::I8(take_i8(bytes, at)?),
            FieldKind::I16 => FieldValue::I16(take_i16(bytes, at)?),
            FieldKind::I32 => FieldValue::I32(take_i32(bytes, at)?),
        };
        let ghost before = fields@;
        fields.push(field);
        at += kind.width();
        i += 1;
        assert(kinds_of(fields@) =~= kinds_of(before).push(kind));
        assert(values_of(fields@) =~= values_of(before).push(field.value()));
    }
    assert(layout@.take(i as int) =~= layout@);
    Ok(fields)
}

/// Encodes `fields` into the leading bytes of `out`, field after field, and
/// returns how many bytes were written. A buffer that cannot hold them all is
/// left as it was.
pub fn encode(fields: &[FieldValue], out: &mut [u8]) -> (r: Result<usize, EncodeFault>)
    ensures
        old(out)@.len() < fields_image(fields@).len() ==> r == Err::<usize, EncodeFault>(
            EncodeFault::BufferTooSmall,
        ) && final(out)@ == old(out)@,
        old(out)@.len() >= fields_image(fields@).len() ==> r == Ok::<usize, EncodeFault>(
            fields_image(fields@).len() as usize,
        ) && final(out)@ == splice(old(out)@, 0, fields_image(fields@)),
{
    let ghost kinds = kinds_of(fields@);
    let ghost values = values_of(fields@);
    proof {
        lemma_layout_round_trip(kinds, values, Seq::empty());
    }
    let mut width: usize = 0;
    let mut i: usize = 0;
    while i < fields.len()
        invariant
            i <= fields.len(),
            kinds == kinds_of(fields@),
            fields_image(fields@).len() == layout_width(kinds),
            width == layout_width(kinds.take(i as int)),
            width <= out@.len(),
            out@ == old(out)@,
        decreases fields.len() - i,
    {
        proof {
            lemma_layout_push(kinds.take(i as int), Seq::empty(), kinds[i as int], 0);
            assert(kinds.take(i + 1) =~= kinds.take(i as int).push(kinds[i as int]));
            lemma_layout_prefix(kinds, i + 1);
        }
        if out.len() - width < fields[i].kind().width() {
            return Err(EncodeFault::BufferTooSmall);
        }
        width += fields[i].kind().width();
        i += 1;
    }
    assert(kinds.take(i as int) =~= kinds);
    let mut at: usize = 0;
    let mut i: usize = 0;
    while i < fields.len()
        invariant
            i <= fields.len(),
            kinds == kinds_of(fields@),
            values == values_of(fields@),
            width == layout_width(kinds),
            width <= old(out)@.len(),
            at == layout_width(kinds.take(i as int)),
            at == layout_image(kinds.take(i as int), values.take(i as int)).len(),
            at <= width,
            out@ == splice(
                old(out)@,
                0,
                layout_image(kinds.take(i as int), values.take(i as int)),
            ),
        decreases fields.len() - i,
    {
        let field = fields[i];
        let ghost written = layout_image(kinds.take(i as int), values.take(i as int));
        let ghost piece = field.kind().image(field.value());
        proof {
            lemma_layout_push(
                kinds.take(i as int),
                values.take(i as int),
                field.kind(),
                field.value(),
            );
            assert(kinds.take(i + 1) =~= kinds.take(i as int).push(field.kind()));
            assert(values.take(i + 1) =~= values.take(i as int).push(field.value()));
            lemma_layout_prefix(kinds, i + 1);
            assert(piece.len() == field.kind().width());
            lemma_splice_append(old(out)@, written, piece);
        }
        let put = match field {
            FieldValue::U8(x) => put_u8(x, out, at),
            FieldValue::U16(x) => put_u16(x, out, at),
            FieldValue::U32(x) => put_u32(x, out, at),
            FieldValue::I8(x) => put_i8(x, out, at),
            FieldValue::I16(x) => put_i16(x, out, at),
            FieldValue::I32(x) => put_i32(x, out, at),
        };
        if put.is_err() {
            return Err(EncodeFault::BufferTooSmall);
        }
        at += field.kind().width();
        i += 1;
    }
    assert(kinds.take(i as int) =~= kinds);
    assert(values.take(i as int) =~= values);
    Ok(width)
}

/// Decoding inverts encoding under any layout: once fields have been encoded
/// into the leading bytes of a buffer, decoding the buffer under their kinds
/// gives their values back.
pub proof fn lemma_decode_inverts_encode(fields: Seq<FieldValue>, buffer: Seq<u8>)
    requires
        buffer.len() >= fields_image(fields).len(),
    ensures
        fields_image(fields).len() == layout_width(kinds_of(fields)),
        layout_values(kinds_of(fields), splice(buffer, 0, fields_image(fields))) == values_of(
            fields,
        ),
{
    let image = fields_image(fields);
    let tail = buffer.subrange(image.len() as int, buffer.len() as int);
    lemma_layout_round_trip(kinds_of(fields), values_of(fields), tail);
    assert(splice(buffer, 0, image) =~= image + tail);
}

} // verus!
