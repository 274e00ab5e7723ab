//! Layouts, the interner that gives equal layouts one identifier, and the
//! questions the generator asks about a layout.

use vstd::prelude::*;

verus! {

/// Identifier of an interned layout: its place in the interner.
pub type InLayout = usize;

pub const LAYOUT_UNIT: InLayout = 0;

pub const LAYOUT_BOOL: InLayout = 1;

pub const LAYOUT_U8: InLayout = 2;

pub const LAYOUT_U16: InLayout = 3;

pub const LAYOUT_U32: InLayout = 4;

pub const LAYOUT_U64: InLayout = 5;

pub const LAYOUT_I32: InLayout = 6;

pub const LAYOUT_I64: InLayout = 7;

pub const LAYOUT_OPAQUE_PTR: InLayout = 8;

pub const LAYOUT_STR: InLayout = 9;

/// Number of layouts that every interner holds from the start.
pub const RESERVED_LAYOUTS: usize = 10;

/// Largest number of variants a union may have, so that every tag id fits.
pub const MAX_TAGS: usize = 65535;

/// Width of a pointer on the target.
#[derive(Clone, Copy, PartialEq, Eq, Structural, Debug, Hash)]
pub enum PtrWidth {
    Bytes4,
    Bytes8,
}

impl PtrWidth {
    pub open spec fn spec_bytes(self) -> u32 {
        match self {
            PtrWidth::Bytes4 => 4,
            PtrWidth::Bytes8 => 8,
        }
    }

    #[verifier::when_used_as_spec(spec_bytes)]
    pub fn bytes(self) -> (n: u32)
        ensures
            n == self.spec_bytes(),
    {
        match self {
            PtrWidth::Bytes4 => 4,
            PtrWidth::Bytes8 => 8,
        }
    }

    /// Layout of a signed machine word.
    pub open spec fn spec_layout_isize(self) -> InLayout {
        match self {
            PtrWidth::Bytes4 => LAYOUT_I32,
            PtrWidth::Bytes8 => LAYOUT_I64,
        }
    }

    #[verifier::when_used_as_spec(spec_layout_isize)]
    pub fn layout_isize(self) -> (l: InLayout)
        ensures
            l == self.spec_layout_isize(),
    {
        match self {
            PtrWidth::Bytes4 => LAYOUT_I32,
            PtrWidth::Bytes8 => LAYOUT_I64,
        }
    }

    /// Layout of an unsigned machine word.
    pub open spec fn spec_layout_usize(self) -> InLayout {
        match self {
            PtrWidth::Bytes4 => LAYOUT_U32,
            PtrWidth::Bytes8 => LAYOUT_U64,
        }
    }

    #[verifier::when_used_as_spec(spec_layout_usize)]
    pub fn layout_usize(self) -> (l: InLayout)
        ensures
            l == self.spec_layout_usize(),
    {
        match self {
            PtrWidth::Bytes4 => LAYOUT_U32,
            PtrWidth::Bytes8 => LAYOUT_U64,
        }
    }
}

#[derive(Clone, Copy, PartialEq, Eq, Structural, Debug, Hash)]
pub enum IntWidth {
    U8,
    U16,
    U32,
    U64,
    U128,
    I8,
    I16,
    I32,
    I64,
    I128,
}

impl IntWidth {
    pub open spec fn spec_bytes(self) -> u32 {
        match self {
            IntWidth::U8 | IntWidth::I8 => 1,
            IntWidth::U16 | IntWidth::I16 => 2,
            IntWidth::U32 | IntWidth::I32 => 4,
            IntWidth::U64 | IntWidth::I64 => 8,
            IntWidth::U128 | IntWidth::I128 => 16,
        }
    }

    #[verifier::when_used_as_spec(spec_bytes)]
    pub fn bytes(self) -> (n: u32)
        ensures
            n == self.spec_bytes(),
    {
        match self {
            IntWidth::U8 | IntWidth::I8 => 1,
            IntWidth::U16 | IntWidth::I16 => 2,
            IntWidth::U32 | IntWidth::I32 => 4,
            IntWidth::U64 | IntWidth::I64 => 8,
            IntWidth::U128 | IntWidth::I128 => 16,
        }
    }
}

#[derive(Clone, Copy, PartialEq, Eq, Structural, Debug, Hash)]
pub enum FloatWidth {
    F32,
    F64,
}

impl FloatWidth {
    pub open spec fn spec_bytes(self) -> u32 {
        match self {
            FloatWidth::F32 => 4,
            FloatWidth::F64 => 8,
        }
    }

    #[verifier::when_used_as_spec(spec_bytes)]
    pub fn bytes(self) -> (n: u32)
        ensures
            n == self.spec_bytes(),
    {
        match self {
            FloatWidth::F32 => 4,
            FloatWidth::F64 => 8,
        }
    }
}

/// The layouts the runtime knows by itself. Numbers and `Bool` are scalars;
/// `Str` and `List` are three words: pointer, length, capacity.
#[derive(Clone, Copy, PartialEq, Eq, Structural, Debug, Hash)]
pub enum Builtin {
    Int(IntWidth),
    Float(FloatWidth),
    Bool,
    Decimal,
    Str,
    List(InLayout),
}

/// A wrapper that is laid out as its representation.
#[derive(Clone, Copy, PartialEq, Eq, Structural, Debug, Hash)]
pub struct LambdaSet {
    pub representation: InLayout,
}

/// Shape of a tagged union. All but `NonRecursive` live behind a pointer.
#[derive(Clone, PartialEq, Eq, Debug, Hash)]
#[allow(inconsistent_fields)]
pub enum UnionLayout {
    /// A value on the stack with its tag id beside the fields.
    NonRecursive(Vec<Vec<InLayout>>),
    /// A heap pointer with the tag id in its low bits.
    Recursive(Vec<Vec<InLayout>>),
    /// A recursive union of one variant: no tag id.
    NonNullableUnwrapped(Vec<InLayout>),
    /// One variant is the null pointer, the others are as in `Recursive`.
    NullableWrapped { nullable_id: u16, other_tags: Vec<Vec<InLayout>> },
    /// Two variants, one of them the null pointer.
    NullableUnwrapped { nullable_id: bool, other_fields: Vec<InLayout> },
}

/// What is known of the memory shape of a value.
#[derive(Clone, PartialEq, Eq, Debug, Hash)]
pub enum Layout {
    Builtin(Builtin),
    Struct { field_layouts: Vec<InLayout> },
    Union(UnionLayout),
    LambdaSet(LambdaSet),
    /// The place inside a recursive union where the union itself stands.
    RecursivePointer(InLayout),
    Boxed(InLayout),
}

/// Mathematical form of a `UnionLayout`.
#[allow(inconsistent_fields)]
pub enum UnionLayoutV {
    NonRecursive(Seq<Seq<InLayout>>),
    Recursive(Seq<Seq<InLayout>>),
    NonNullableUnwrapped(Seq<InLayout>),
    NullableWrapped { nullable_id: u16, other_tags: Seq<Seq<InLayout>> },
    NullableUnwrapped { nullable_id: bool, other_fields: Seq<InLayout> },
}

/// Mathematical form of a `Layout`.
pub enum LayoutV {
    Builtin(Builtin),
    Struct { field_layouts: Seq<InLayout> },
    Union(UnionLayoutV),
    LambdaSet(LambdaSet),
    RecursivePointer(InLayout),
    Boxed(InLayout),
}

/// The field lists of some variants, each as a sequence.
pub open spec fn tags_view(tags: Seq<Vec<InLayout>>) -> Seq<Seq<InLayout>> {
    Seq::new(tags.len(), |t: int| tags[t]@)
}

impl View for UnionLayout {
    type V = UnionLayoutV;

    open spec fn view(&self) -> UnionLayoutV {
        match self {
            UnionLayout::NonRecursive(tags) => UnionLayoutV::NonRecursive(tags_view(tags@)),
            UnionLayout::Recursive(tags) => UnionLayoutV::Recursive(tags_view(tags@)),
            UnionLayout::NonNullableUnwrapped(fields) => UnionLayoutV::NonNullableUnwrapped(
                fields@,
            ),
            UnionLayout::NullableWrapped { nullable_id, other_tags } => {
                UnionLayoutV::NullableWrapped {
                    nullable_id: *nullable_id,
                    other_tags: tags_view(other_tags@),
                }
            },
            UnionLayout::NullableUnwrapped { nullable_id, other_fields } => {
                UnionLayoutV::NullableUnwrapped {
                    nullable_id: *nullable_id,
                    other_fields: other_fields@,
                }
            },
        }
    }
}

impl View for Layout {
    type V = LayoutV;

    open spec fn view(&self) -> LayoutV {
        match self {
            Layout::Builtin(b) => LayoutV::Builtin(*b),
            Layout::Struct { field_layouts } => LayoutV::Struct { field_layouts: field_layouts@ },
            Layout::Union(u) => LayoutV::Union(u@),
            Layout::LambdaSet(l) => LayoutV::LambdaSet(*l),
            Layout::RecursivePointer(of) => LayoutV::RecursivePointer(*of),
            Layout::Boxed(inner) => LayoutV::Boxed(*inner),
        }
    }
}

/// Every identifier in `fields` is below `bound`.
pub open spec fn fields_below(fields: Seq<InLayout>, bound: int) -> bool {
    forall|k: int| 0 <= k < fields.len() ==> #[trigger] fields[k] < bound
}

/// Every identifier in every variant of `tags` is below `bound`.
pub open spec fn tags_below(tags: Seq<Seq<InLayout>>, bound: int) -> bool {
    forall|t: int| 0 <= t < tags.len() ==> fields_below(#[trigger] tags[t], bound)
}

impl UnionLayoutV {
    /// The variants that hold fields, in order of their tag ids; the null
    /// variant of a nullable union is not among them.
    pub open spec fn tags(self) -> Seq<Seq<InLayout>> {
        match self {
            UnionLayoutV::NonRecursive(tags) => tags,
            UnionLayoutV::Recursive(tags) => tags,
            UnionLayoutV::NonNullableUnwrapped(fields) => seq![fields],
            UnionLayoutV::NullableWrapped { other_tags, .. } => other_tags,
            UnionLayoutV::NullableUnwrapped { other_fields, .. } => seq![other_fields],
        }
    }

    /// The tag id of the variant that the null pointer stands for.
    pub open spec fn null_id(self) -> Option<u16> {
        match self {
            UnionLayoutV::NullableWrapped { nullable_id, .. } => Some(nullable_id),
            UnionLayoutV::NullableUnwrapped { nullable_id, .. } => Some(
                if nullable_id {
                    1u16
                } else {
                    0u16
                },
            ),
            _ => None,
        }
    }

    pub open spec fn is_recursive(self) -> bool {
        !(self is NonRecursive)
    }

    /// Number of variants, the null variant counted.
    pub open spec fn number_of_tags(self) -> int {
        match self {
            UnionLayoutV::NonRecursive(tags) => tags.len() as int,
            UnionLayoutV::Recursive(tags) => tags.len() as int,
            UnionLayoutV::NonNullableUnwrapped(_) => 1,
            UnionLayoutV::NullableWrapped { other_tags, .. } => other_tags.len() as int + 1,
            UnionLayoutV::NullableUnwrapped { .. } => 2,
        }
    }

    /// Layout of the value that `GetTagId` yields for this union.
    pub open spec fn tag_id_layout(self) -> InLayout {
        let n = self.number_of_tags();
        if n <= 1 {
            LAYOUT_U8
        } else if n == 2 {
            LAYOUT_BOOL
        } else if n <= 256 {
            LAYOUT_U8
        } else {
            LAYOUT_U16
        }
    }
}

impl LayoutV {
    /// The layout may stand at place `id` of an interner: what it is made of
    /// was interned before it, and its variants can be numbered. The target
    /// of a `RecursivePointer` is the one identifier that may point forward.
    pub open spec fn well_formed_at(self, id: int) -> bool {
        match self {
            LayoutV::Builtin(Builtin::List(elem)) => elem < id,
            LayoutV::Builtin(_) => true,
            LayoutV::Struct { field_layouts } => fields_below(field_layouts, id),
            LayoutV::Union(u) => tags_below(u.tags(), id) && u.tags().len() < MAX_TAGS,
            LayoutV::LambdaSet(l) => l.representation < id,
            LayoutV::RecursivePointer(_) => true,
            LayoutV::Boxed(inner) => inner < id,
        }
    }
}

/// The layout that every interner holds at place `id`, for a reserved `id`.
pub open spec fn reserved_layout(id: int) -> LayoutV {
    if id == LAYOUT_UNIT {
        LayoutV::Struct { field_layouts: Seq::empty() }
    } else if id == LAYOUT_BOOL {
        LayoutV::Builtin(Builtin::Bool)
    } else if id == LAYOUT_U8 {
        LayoutV::Builtin(Builtin::Int(IntWidth::U8))
    } else if id == LAYOUT_U16 {
        LayoutV::Builtin(Builtin::Int(IntWidth::U16))
    } else if id == LAYOUT_U32 {
        LayoutV::Builtin(Builtin::Int(IntWidth::U32))
    } else if id == LAYOUT_U64 {
        LayoutV::Builtin(Builtin::Int(IntWidth::U64))
    } else if id == LAYOUT_I32 {
        LayoutV::Builtin(Builtin::Int(IntWidth::I32))
    } else if id == LAYOUT_I64 {
        LayoutV::Builtin(Builtin::Int(IntWidth::I64))
    } else if id == LAYOUT_OPAQUE_PTR {
        LayoutV::Boxed(LAYOUT_UNIT)
    } else {
        LayoutV::Builtin(Builtin::Str)
    }
}

/// Validity of an interner's contents: the reserved layouts stand at their
/// places, no layout stands at two places, and each is well formed where it
/// stands.
pub open spec fn interner_wf(ls: Seq<LayoutV>) -> bool {
    &&& ls.len() >= RESERVED_LAYOUTS
    &&& forall|i: int| 0 <= i < RESERVED_LAYOUTS ==> #[trigger] ls[i] == reserved_layout(i)
    &&& forall|i: int, j: int| 0 <= i < j < ls.len() ==> #[trigger] ls[i] != #[trigger] ls[j]
    &&& forall|i: int| 0 <= i < ls.len() ==> (#[trigger] ls[i]).well_formed_at(i)
}

/// Interning `l` into `ls`: the identifier that `l` gets, and the contents
/// afterwards. A layout that is there already keeps its place.
pub open spec fn intern(ls: Seq<LayoutV>, l: LayoutV) -> (InLayout, Seq<LayoutV>) {
    if ls.contains(l) {
        (ls.index_of(l) as usize, ls)
    } else {
        (ls.len() as usize, ls.push(l))
    }
}

/// `a` is the beginning of `b`.
pub open spec fn extends(b: Seq<LayoutV>, a: Seq<LayoutV>) -> bool {
    &&& a.len() <= b.len()
    &&& forall|i: int| 0 <= i < a.len() ==> #[trigger] b[i] == a[i]
}

/// Sum that stops at the largest `u32`.
pub open spec fn sat_add(a: int, b: int) -> int {
    if a + b > u32::MAX {
        u32::MAX as int
    } else {
        a + b
    }
}

/// `width` rounded up to a multiple of `alignment`, stopping at the largest
/// `u32`.
pub open spec fn round_up(width: int, alignment: int) -> int {
    if alignment <= 0 || width % alignment == 0 {
        width
    } else {
        sat_add(width, alignment - width % alignment)
    }
}

/// The larger of two numbers.
pub open spec fn max_int(a: int, b: int) -> int {
    if a >= b {
        a
    } else {
        b
    }
}

/// Whether a value of layout `id` owns a reference count, itself or in a
/// field. Strings, lists, boxes, recursive unions and the pointers into them
/// do; a struct or a flat union does when one of its fields does.
pub open spec fn is_refcounted_spec(ls: Seq<LayoutV>, id: InLayout) -> bool
    decreases id,
{
    if id >= ls.len() {
        false
    } else {
        match ls[id as int] {
            LayoutV::Builtin(b) => b is Str || b is List,
            LayoutV::Struct { field_layouts } => exists|k: int|
                0 <= k < field_layouts.len() && #[trigger] field_layouts[k] < id
                    && is_refcounted_spec(ls, field_layouts[k]),
            LayoutV::Union(UnionLayoutV::NonRecursive(tags)) => exists|t: int, k: int|
                0 <= t < tags.len() && 0 <= k < tags[t].len() && #[trigger] tags[t][k] < id
                    && is_refcounted_spec(ls, tags[t][k]),
            LayoutV::Union(_) => true,
            LayoutV::LambdaSet(l) => l.representation < id && is_refcounted_spec(
                ls,
                l.representation,
            ),
            LayoutV::RecursivePointer(_) => true,
            LayoutV::Boxed(_) => true,
        }
    }
}

/// Alignment in bytes of a value of layout `id` where it is stored.
pub open spec fn alignment_spec(ls: Seq<LayoutV>, ptr: PtrWidth, id: InLayout) -> int
    decreases id, 2nat, 0nat,
{
    if id >= ls.len() {
        1
    } else {
        match ls[id as int] {
            LayoutV::Builtin(Builtin::Int(w)) => w.spec_bytes() as int,
            LayoutV::Builtin(Builtin::Float(w)) => w.spec_bytes() as int,
            LayoutV::Builtin(Builtin::Bool) => 1,
            LayoutV::Builtin(Builtin::Decimal) => 16,
            LayoutV::Builtin(Builtin::Str) => ptr.spec_bytes() as int,
            LayoutV::Builtin(Builtin::List(_)) => ptr.spec_bytes() as int,
            LayoutV::Struct { field_layouts } => fields_alignment(
                ls,
                ptr,
                field_layouts,
                id,
                field_layouts.len(),
            ),
            LayoutV::Union(UnionLayoutV::NonRecursive(tags)) => max_int(
                tags_alignment(ls, ptr, tags, id, tags.len()),
                tag_id_size(UnionLayoutV::NonRecursive(tags)),
            ),
            LayoutV::Union(_) => ptr.spec_bytes() as int,
            LayoutV::LambdaSet(l) => if l.representation < id {
                alignment_spec(ls, ptr, l.representation)
            } else {
                1
            },
            LayoutV::RecursivePointer(_) => ptr.spec_bytes() as int,
            LayoutV::Boxed(_) => ptr.spec_bytes() as int,
        }
    }
}

/// Largest alignment among the first `n` of `fields`, which belong to the
/// layout `parent`; 1 when there is none.
pub open spec fn fields_alignment(
    ls: Seq<LayoutV>,
    ptr: PtrWidth,
    fields: Seq<InLayout>,
    parent: InLayout,
    n: nat,
) -> int
    decreases parent, 0nat, n,
{
    if n == 0 || n > fields.len() {
        1
    } else {
        max_int(
            fields_alignment(ls, ptr, fields, parent, (n - 1) as nat),
            if fields[n - 1] < parent {
                alignment_spec(ls, ptr, fields[n - 1])
            } else {
                1
            },
        )
    }
}

/// Largest alignment among the fields of the first `n` of `tags`.
pub open spec fn tags_alignment(
    ls: Seq<LayoutV>,
    ptr: PtrWidth,
    tags: Seq<Seq<InLayout>>,
    parent: InLayout,
    n: nat,
) -> int
    decreases parent, 1nat, n,
{
    if n == 0 || n > tags.len() {
        1
    } else {
        max_int(
            tags_alignment(ls, ptr, tags, parent, (n - 1) as nat),
            fields_alignment(ls, ptr, tags[n - 1], parent, tags[n - 1].len()),
        )
    }
}

/// Bytes that the tag id of a union takes.
pub open spec fn tag_id_size(u: UnionLayoutV) -> int {
    if u.tag_id_layout() == LAYOUT_U16 {
        2
    } else {
        1
    }
}

/// Size in bytes of a value of layout `id` where it is stored, stopping at
/// the largest `u32`.
pub open spec fn stack_size_spec(ls: Seq<LayoutV>, ptr: PtrWidth, id: InLayout) -> int
    decreases id, 2nat, 0nat,
{
    if id >= ls.len() {
        0
    } else {
        match ls[id as int] {
            LayoutV::Builtin(Builtin::Int(w)) => w.spec_bytes() as int,
            LayoutV::Builtin(Builtin::Float(w)) => w.spec_bytes() as int,
            LayoutV::Builtin(Builtin::Bool) => 1,
            LayoutV::Builtin(Builtin::Decimal) => 16,
            LayoutV::Builtin(Builtin::Str) => 3 * ptr.spec_bytes(),
            LayoutV::Builtin(Builtin::List(_)) => 3 * ptr.spec_bytes(),
            LayoutV::Struct { field_layouts } => round_up(
                fields_size(ls, ptr, field_layouts, id, field_layouts.len()),
                fields_alignment(ls, ptr, field_layouts, id, field_layouts.len()),
            ),
            LayoutV::Union(UnionLayoutV::NonRecursive(tags)) => {
                let u = UnionLayoutV::NonRecursive(tags);
                round_up(
                    sat_add(
                        round_up(tags_size(ls, ptr, tags, id, tags.len()), tag_id_size(u)),
                        tag_id_size(u),
                    ),
                    alignment_spec(ls, ptr, id),
                )
            },
            LayoutV::Union(_) => ptr.spec_bytes() as int,
            LayoutV::LambdaSet(l) => if l.representation < id {
                stack_size_spec(ls, ptr, l.representation)
            } else {
                0
            },
            LayoutV::RecursivePointer(_) => ptr.spec_bytes() as int,
            LayoutV::Boxed(_) => ptr.spec_bytes() as int,
        }
    }
}

/// Sum of the sizes of the first `n` of `fields`.
pub open spec fn fields_size(
    ls: Seq<LayoutV>,
    ptr: PtrWidth,
    fields: Seq<InLayout>,
    parent: InLayout,
    n: nat,
) -> int
    decreases parent, 0nat, n,
{
    if n == 0 || n > fields.len() {
        0
    } else {
        sat_add(
            fields_size(ls, ptr, fields, parent, (n - 1) as nat),
            if fields[n - 1] < parent {
                stack_size_spec(ls, ptr, fields[n - 1])
            } else {
                0
            },
        )
    }
}

/// Size of the largest of the first `n` of `tags`, each taken as a struct.
pub open spec fn tags_size(
    ls: Seq<LayoutV>,
    ptr: PtrWidth,
    tags: Seq<Seq<InLayout>>,
    parent: InLayout,
    n: nat,
) -> int
    decreases parent, 1nat, n,
{
    if n == 0 || n > tags.len() {
        0
    } else {
        max_int(
            tags_size(ls, ptr, tags, parent, (n - 1) as nat),
            round_up(
                fields_size(ls, ptr, tags[n - 1], parent, tags[n - 1].len()),
                fields_alignment(ls, ptr, tags[n - 1], parent, tags[n - 1].len()),
            ),
        )
    }
}

/// Alignment of the heap allocation behind a value of layout `id`: that of
/// what the allocation holds, and no less than a pointer's.
pub open spec fn allocation_alignment_spec(ls: Seq<LayoutV>, ptr: PtrWidth, id: InLayout) -> int
    decreases id,
{
    if id >= ls.len() {
        ptr.spec_bytes() as int
    } else {
        match ls[id as int] {
            LayoutV::Builtin(Builtin::List(elem)) => max_int(
                ptr.spec_bytes() as int,
                alignment_spec(ls, ptr, elem),
            ),
            LayoutV::Union(u) => max_int(
                ptr.spec_bytes() as int,
                tags_alignment(ls, ptr, u.tags(), id, u.tags().len()),
            ),
            LayoutV::LambdaSet(l) => if l.representation < id {
                allocation_alignment_spec(ls, ptr, l.representation)
            } else {
                ptr.spec_bytes() as int
            },
            LayoutV::Boxed(inner) => max_int(
                ptr.spec_bytes() as int,
                alignment_spec(ls, ptr, inner),
            ),
            _ => max_int(ptr.spec_bytes() as int, alignment_spec(ls, ptr, id)),
        }
    }
}

/// Whether the layout `id` holds a `RecursivePointer` that no recursive
/// union inside it binds: such a layout means something only inside the
/// recursive union that it is a part of.
pub open spec fn free_rec_ptr_spec(ls: Seq<LayoutV>, id: InLayout) -> bool
    decreases id,
{
    if id >= ls.len() {
        false
    } else {
        match ls[id as int] {
            LayoutV::Builtin(Builtin::List(elem)) => elem < id && free_rec_ptr_spec(ls, elem),
            LayoutV::Builtin(_) => false,
            LayoutV::Struct { field_layouts } => exists|k: int|
                0 <= k < field_layouts.len() && #[trigger] field_layouts[k] < id
                    && free_rec_ptr_spec(ls, field_layouts[k]),
            LayoutV::Union(UnionLayoutV::NonRecursive(tags)) => exists|t: int, k: int|
                0 <= t < tags.len() && 0 <= k < tags[t].len() && #[trigger] tags[t][k] < id
                    && free_rec_ptr_spec(ls, tags[t][k]),
            LayoutV::Union(_) => false,
            LayoutV::LambdaSet(l) => l.representation < id && free_rec_ptr_spec(
                ls,
                l.representation,
            ),
            LayoutV::RecursivePointer(_) => true,
            LayoutV::Boxed(inner) => inner < id && free_rec_ptr_spec(ls, inner),
        }
    }
}

} // verus!
