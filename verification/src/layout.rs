//! The layout of structs: where each field lies, and how large and how
//! aligned the whole is. A layout is a function of the sizes and alignments
//! of the field types, in declared order; those come from the target.

use vstd::prelude::*;
use vstd::arithmetic::div_mod::{lemma_fundamental_div_mod, lemma_mod_multiples_basic};
use smallvec::SmallVec;
use crate::ty::Type;

verus! {

/// Size and alignment of a type on the target, in bytes.
#[derive(Clone, Copy, Debug, PartialEq, Eq, Structural)]
pub struct TypeLayout {
    pub size: usize,
    pub alignment: usize,
}

/// The byte offsets of the fields of a struct: a `SmallVec<[usize; 2]>`,
/// opaque to the verifier.
#[verifier::external_body]
#[derive(Debug, PartialEq, Eq)]
pub struct OffsetList {
    inner: SmallVec<[usize; 2]>,
}

/// The offsets that a list holds, in order.
pub uninterp spec fn offset_list_items(list: OffsetList) -> Seq<usize>;

/// `SmallVec::new`: a list that holds nothing.
#[verifier::external_body]
fn offset_list_new() -> (list: OffsetList)
    ensures
        offset_list_items(list) == Seq::<usize>::empty(),
{
    OffsetList { inner: SmallVec::new() }
}

/// `SmallVec::push`: puts `offset` behind the offsets held.
#[verifier::external_body]
fn offset_list_push(list: &mut OffsetList, offset: usize)
    ensures
        offset_list_items(*final(list)) == offset_list_items(*old(list)).push(offset),
{
    list.inner.push(offset)
}

/// `SmallVec::as_slice`: the offsets held, as a slice.
#[verifier::external_body]
fn offset_list_as_slice(list: &OffsetList) -> (offsets: &[usize])
    ensures
        offsets@ == offset_list_items(*list),
{
    list.inner.as_slice()
}

/// `clone` of `SmallVec`: a list that holds the same offsets.
#[verifier::external_body]
fn offset_list_clone(list: &OffsetList) -> (copy: OffsetList)
    ensures
        offset_list_items(copy) == offset_list_items(*list),
{
    OffsetList { inner: list.inner.clone() }
}

impl Clone for OffsetList {
    fn clone(&self) -> (copy: Self)
        ensures
            copy@ == self@,
    {
        offset_list_clone(self)
    }
}

impl View for OffsetList {
    type V = Seq<usize>;

    open spec fn view(&self) -> Seq<usize> {
        offset_list_items(*self)
    }
}

impl OffsetList {
    /// A list that holds nothing.
    pub fn new() -> (list: Self)
        ensures
            list@ == Seq::<usize>::empty(),
    {
        offset_list_new()
    }

    /// Appends `offset`.
    pub fn push(&mut self, offset: usize)
        ensures
            final(self)@ == old(self)@.push(offset),
    {
        offset_list_push(self, offset)
    }

    /// The number of offsets held.
    pub fn len(&self) -> (n: usize)
        ensures
            n == self@.len(),
    {
        offset_list_as_slice(self).len()
    }

    /// The offset of the field with index `index`, or `None` where the list
    /// has no such field.
    pub fn get(&self, index: usize) -> (offset: Option<usize>)
        ensures
            offset == if index < self@.len() {
                Some(self@[index as int])
            } else {
                None::<usize>
            },
    {
        let offsets = offset_list_as_slice(self);
        if index < offsets.len() {
            Some(offsets[index])
        } else {
            None
        }
    }
}

/// The least multiple of `alignment` that is not below `n`.
pub open spec fn round_up(n: nat, alignment: nat) -> nat
    recommends
        alignment > 0,
{
    if n % alignment == 0 {
        n
    } else {
        (n + alignment - n % alignment) as nat
    }
}

/// The offset of field `i`: the end of the field before it, rounded up to
/// the alignment of field `i`; the first field lies at 0.
pub open spec fn field_offset(fields: Seq<TypeLayout>, i: int) -> nat
    decreases i,
{
    if i <= 0 {
        0
    } else {
        round_up(
            field_offset(fields, i - 1) + fields[i - 1].size as nat,
            fields[i].alignment as nat,
        )
    }
}

/// The end of field `i`: its offset plus its size.
pub open spec fn field_end(fields: Seq<TypeLayout>, i: int) -> nat {
    field_offset(fields, i) + fields[i].size as nat
}

/// The size of the struct: the end of its last field, 0 without fields.
pub open spec fn struct_size(fields: Seq<TypeLayout>) -> nat {
    if fields.len() == 0 {
        0
    } else {
        field_end(fields, fields.len() - 1)
    }
}

/// The alignment of the struct: the largest alignment of a field, 1 without fields.
pub open spec fn struct_alignment(fields: Seq<TypeLayout>) -> nat
    decreases fields.len(),
{
    if fields.len() == 0 {
        1
    } else {
        let before = struct_alignment(fields.drop_last());
        if fields.last().alignment as nat > before {
            fields.last().alignment as nat
        } else {
            before
        }
    }
}

/// The stride of the struct: its size rounded up to its alignment, which is
/// the distance between two elements of an array of it.
pub open spec fn struct_stride(fields: Seq<TypeLayout>) -> nat {
    round_up(struct_size(fields), struct_alignment(fields))
}

/// Whether a layout can be computed for `fields`: every alignment is at
/// least 1.
pub open spec fn alignments_valid(fields: Seq<TypeLayout>) -> bool {
    forall|i: int| 0 <= i < fields.len() ==> (#[trigger] fields[i]).alignment >= 1
}

/// What `round_up` promises: a multiple of the alignment, not below `n` and
/// less than one alignment above it.
pub proof fn lemma_round_up(n: nat, alignment: nat)
    requires
        alignment > 0,
    ensures
        round_up(n, alignment) % alignment == 0,
        n <= round_up(n, alignment) < n + alignment,
{
    let q = n as int / alignment as int;
    let r = n as int % alignment as int;
    lemma_fundamental_div_mod(n as int, alignment as int);
    if r != 0 {
        assert(n + alignment - r == alignment * (q + 1)) by (nonlinear_arith)
            requires
                n == alignment * q + r,
        ;
        lemma_mod_multiples_basic(q + 1, alignment as int);
        assert((q + 1) * alignment == alignment * (q + 1)) by (nonlinear_arith);
    }
}

/// The struct is at least as aligned as each of its fields, and at least 1.
pub proof fn lemma_struct_alignment(fields: Seq<TypeLayout>, i: int)
    requires
        0 <= i < fields.len(),
    ensures
        struct_alignment(fields) >= fields[i].alignment,
        struct_alignment(fields) >= 1,
    decreases fields.len(),
{
    if i < fields.len() - 1 {
        lemma_struct_alignment(fields.drop_last(), i);
    } else if fields.len() > 1 {
        lemma_struct_alignment(fields.drop_last(), 0);
    }
}

/// Fields lie in declared order and do not overlap: a field ends at or
/// before the offset of every later field.
pub proof fn lemma_fields_in_order(fields: Seq<TypeLayout>, i: int, j: int)
    requires
        alignments_valid(fields),
        0 <= i < j < fields.len(),
    ensures
        field_offset(fields, i) <= field_end(fields, i) <= field_offset(fields, j),
    decreases j - i,
{
    lemma_round_up(field_end(fields, j - 1), fields[j].alignment as nat);
    if i < j - 1 {
        lemma_fields_in_order(fields, i, j - 1);
    }
}

/// The layout of a struct: the offsets are non-decreasing, each is a
/// multiple of its field's alignment, and the stride is at least the size,
/// which is at least the end of every field.
pub proof fn lemma_layout(fields: Seq<TypeLayout>)
    requires
        alignments_valid(fields),
    ensures
        forall|i: int, j: int|
            0 <= i <= j < fields.len() ==> field_offset(fields, i) <= field_offset(fields, j),
        forall|i: int|
            0 <= i < fields.len() ==> #[trigger] field_offset(fields, i) % (
            fields[i].alignment as nat) == 0,
        forall|i: int| 0 <= i < fields.len() ==> #[trigger] field_end(fields, i) <= struct_size(fields),
        struct_size(fields) <= struct_stride(fields),
        struct_stride(fields) % struct_alignment(fields) == 0,
{
    assert forall|i: int, j: int| 0 <= i <= j < fields.len() implies field_offset(fields, i)
        <= field_offset(fields, j) by {
        if i < j {
            lemma_fields_in_order(fields, i, j);
        }
    }
    assert forall|i: int| 0 <= i < fields.len() implies #[trigger] field_offset(fields, i) % (
    fields[i].alignment as nat) == 0 by {
        let alignment = fields[i].alignment as nat;
        if i > 0 {
            lemma_round_up(field_end(fields, i - 1), alignment);
        } else {
            assert(0nat % alignment == 0) by (nonlinear_arith)
                requires
                    alignment > 0,
            ;
        }
    }
    assert forall|i: int| 0 <= i < fields.len() implies #[trigger] field_end(fields, i)
        <= struct_size(fields) by {
        if i < fields.len() - 1 {
            lemma_fields_in_order(fields, i, fields.len() - 1);
        }
    }
    if fields.len() > 0 {
        lemma_struct_alignment(fields, 0);
    }
    lemma_round_up(struct_size(fields), struct_alignment(fields));
}

/// Where the fields of a struct lie, and how large and aligned the struct is.
#[derive(Clone, Debug)]
pub struct StructLayout {
    /// The byte offset of each field, in declared order.
    pub field_offsets: OffsetList,
    pub alignment: usize,
    pub size: usize,
    /// The size rounded up to the alignment.
    pub stride: usize,
}

impl StructLayout {
    /// Whether the layout is the one that `fields` have.
    pub open spec fn is_layout_of(&self, fields: Seq<TypeLayout>) -> bool {
        &&& self.field_offsets@.len() == fields.len()
        &&& forall|i: int|
            0 <= i < fields.len() ==> #[trigger] self.field_offsets@[i] == field_offset(fields, i)
        &&& self.alignment == struct_alignment(fields)
        &&& self.size == struct_size(fields)
        &&& self.stride == struct_stride(fields)
    }

    /// What holds of every layout: the offsets do not decrease, each is a
    /// multiple of its field's alignment, the size is at least the end of
    /// the last field, and the stride is at least the size.
    pub open spec fn is_sound_for(&self, fields: Seq<TypeLayout>) -> bool {
        &&& self.field_offsets@.len() == fields.len()
        &&& forall|i: int, j: int|
            0 <= i <= j < fields.len() ==> self.field_offsets@[i] <= self.field_offsets@[j]
        &&& forall|i: int|
            0 <= i < fields.len() ==> #[trigger] self.field_offsets@[i] as nat % (
            fields[i].alignment as nat) == 0
        &&& fields.len() > 0 ==> self.size >= self.field_offsets@[fields.len() - 1] + fields[fields.len()
            - 1].size
        &&& self.stride >= self.size
    }

    /// Lays out a struct with the fields `fields`, in declared order. There
    /// is a layout exactly when every alignment is at least 1 and the stride
    /// fits the machine's word.
    pub fn compute(fields: &Vec<TypeLayout>) -> (r: Option<StructLayout>)
        ensures
            match r {
                Some(layout) => {
                    &&& alignments_valid(fields@)
                    &&& layout.is_layout_of(fields@)
                    &&& layout.is_sound_for(fields@)
                },
                None => !alignments_valid(fields@) || struct_stride(fields@) > usize::MAX,
            },
    {
        let mut offsets = OffsetList::new();
        let mut end: usize = 0;
        let mut alignment: usize = 1;
        let mut i: usize = 0;
        while i < fields.len()
            invariant
                i <= fields@.len(),
                forall|k: int| 0 <= k < i ==> (#[trigger] fields@[k]).alignment >= 1,
                offsets@.len() == i,
                forall|k: int| 0 <= k < i ==> #[trigger] offsets@[k] == field_offset(fields@, k),
                end == struct_size(fields@.take(i as int)),
                i > 0 ==> end == field_end(fields@, i - 1),
                alignment == struct_alignment(fields@.take(i as int)),
            decreases fields@.len() - i,
        {
            let field = fields[i];
            if field.alignment == 0 {
                return None;
            }
            let rem = end % field.alignment;
            let ghost exact = if i == 0 {
                0
            } else {
                round_up(end as nat, field.alignment as nat)
            };
            proof {
                if i == 0 {
                    assert(0nat % (field.alignment as nat) == 0) by (nonlinear_arith)
                        requires
                            field.alignment > 0,
                    ;
                }
                assert(exact == field_offset(fields@, i as int));
                assert(exact == round_up(end as nat, field.alignment as nat));
                if alignments_valid(fields@) {
                    lemma_layout(fields@);
                    assert(field_end(fields@, i as int) <= struct_size(fields@));
                }
            }
            let offset = if rem == 0 {
                end
            } else {
                let pad = field.alignment - rem;
                if pad > usize::MAX - end {
                    return None;
                }
                end + pad
            };
            if field.size > usize::MAX - offset {
                return None;
            }
            offsets.push(offset);
            end = offset + field.size;
            if field.alignment > alignment {
                alignment = field.alignment;
            }
            proof {
                let shown = fields@.take(i + 1);
                assert(shown.drop_last() == fields@.take(i as int));
                assert(shown.last() == field);
                assert forall|k: int| 0 <= k <= i implies field_offset(shown, k) == field_offset(
                    fields@,
                    k,
                ) by {
                    lemma_offset_of_prefix(fields@, i + 1, k);
                }
            }
            i += 1;
        }
        proof {
            assert(fields@.take(i as int) == fields@);
            lemma_layout(fields@);
        }
        let rem = end % alignment;
        let stride = if rem == 0 {
            end
        } else {
            let pad = alignment - rem;
            if pad > usize::MAX - end {
                return None;
            }
            end + pad
        };
        Some(StructLayout { field_offsets: offsets, alignment, size: end, stride })
    }
}

/// The offset of a field depends only on the fields up to it.
proof fn lemma_offset_of_prefix(fields: Seq<TypeLayout>, len: int, k: int)
    requires
        0 <= k < len <= fields.len(),
    ensures
        field_offset(fields.take(len), k) == field_offset(fields, k),
    decreases k,
{
    if k > 0 {
        lemma_offset_of_prefix(fields, len, k - 1);
    }
}

/// A struct of the instruction form: the types of its fields in declared
/// order, and its layout.
#[derive(Clone, Debug)]
pub struct Struct {
    pub field_tys: Vec<Type>,
    pub layout: StructLayout,
}

} // verus!
