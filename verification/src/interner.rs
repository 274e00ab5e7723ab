//! The layout interner: equal layouts share one identifier, and identifiers
//! stay what they are while the interner grows.

use vstd::prelude::*;
use crate::layout::{
    InLayout, Layout, LayoutV, UnionLayout, UnionLayoutV, Builtin, IntWidth, PtrWidth, LAYOUT_UNIT,
    LAYOUT_BOOL, LAYOUT_U8, LAYOUT_U16, RESERVED_LAYOUTS, MAX_TAGS, tags_view, fields_below,
    tags_below, reserved_layout, interner_wf, intern, extends, round_up, is_refcounted_spec,
    alignment_spec, fields_alignment, tags_alignment, stack_size_spec, fields_size, tags_size,
    allocation_alignment_spec, free_rec_ptr_spec,
};

verus! {

/// Compares two field lists.
pub fn fields_eq(a: &Vec<InLayout>, b: &Vec<InLayout>) -> (r: bool)
    ensures
        r == (a@ == b@),
{
    if a.len() != b.len() {
        return false;
    }
    let mut i: usize = 0;
    while i < a.len()
        invariant
            i <= a.len(),
            a.len() == b.len(),
            forall|j: int| 0 <= j < i ==> a@[j] == b@[j],
        decreases a.len() - i,
    {
        if a[i] != b[i] {
            return false;
        }
        i += 1;
    }
    assert(a@ =~= b@);
    true
}

/// Compares the field lists of two lists of variants.
pub fn tags_eq(a: &Vec<Vec<InLayout>>, b: &Vec<Vec<InLayout>>) -> (r: bool)
    ensures
        r == (tags_view(a@) == tags_view(b@)),
{
    if a.len() != b.len() {
        assert(tags_view(a@).len() != tags_view(b@).len());
        return false;
    }
    let mut i: usize = 0;
    while i < a.len()
        invariant
            i <= a.len(),
            a.len() == b.len(),
            forall|j: int| 0 <= j < i ==> a@[j]@ == b@[j]@,
        decreases a.len() - i,
    {
        if !fields_eq(&a[i], &b[i]) {
            assert(tags_view(a@)[i as int] != tags_view(b@)[i as int]);
            return false;
        }
        i += 1;
    }
    assert(tags_view(a@) =~= tags_view(b@));
    true
}

impl UnionLayout {
    /// Whether two shapes are the same union.
    pub fn same(&self, other: &UnionLayout) -> (r: bool)
        ensures
            r == (self@ == other@),
    {
        match (self, other) {
            (UnionLayout::NonRecursive(a), UnionLayout::NonRecursive(b)) => tags_eq(a, b),
            (UnionLayout::Recursive(a), UnionLayout::Recursive(b)) => tags_eq(a, b),
            (UnionLayout::NonNullableUnwrapped(a), UnionLayout::NonNullableUnwrapped(b)) => {
                fields_eq(a, b)
            },
            (
                UnionLayout::NullableWrapped { nullable_id: n1, other_tags: a },
                UnionLayout::NullableWrapped { nullable_id: n2, other_tags: b },
            ) => *n1 == *n2 && tags_eq(a, b),
            (
                UnionLayout::NullableUnwrapped { nullable_id: n1, other_fields: a },
                UnionLayout::NullableUnwrapped { nullable_id: n2, other_fields: b },
            ) => *n1 == *n2 && fields_eq(a, b),
            _ => false,
        }
    }

    /// Number of variants that hold fields.
    pub fn num_tags(&self) -> (n: usize)
        ensures
            n == self@.tags().len(),
    {
        match self {
            UnionLayout::NonRecursive(tags) => tags.len(),
            UnionLayout::Recursive(tags) => tags.len(),
            UnionLayout::NonNullableUnwrapped(_) => 1,
            UnionLayout::NullableWrapped { other_tags, .. } => other_tags.len(),
            UnionLayout::NullableUnwrapped { .. } => 1,
        }
    }

    /// The fields of the `i`-th variant that holds fields.
    pub fn tag_fields(&self, i: usize) -> (fields: &Vec<InLayout>)
        requires
            i < self@.tags().len(),
        ensures
            fields@ == self@.tags()[i as int],
    {
        match self {
            UnionLayout::NonRecursive(tags) => &tags[i],
            UnionLayout::Recursive(tags) => &tags[i],
            UnionLayout::NonNullableUnwrapped(fields) => fields,
            UnionLayout::NullableWrapped { other_tags, .. } => &other_tags[i],
            UnionLayout::NullableUnwrapped { other_fields, .. } => other_fields,
        }
    }

    /// The tag id that the null pointer stands for, if the union has one.
    pub fn null_id(&self) -> (id: Option<u16>)
        ensures
            id == self@.null_id(),
    {
        match self {
            UnionLayout::NullableWrapped { nullable_id, .. } => Some(*nullable_id),
            UnionLayout::NullableUnwrapped { nullable_id, .. } => Some(
                if *nullable_id {
                    1u16
                } else {
                    0u16
                },
            ),
            _ => None,
        }
    }

    pub fn is_recursive(&self) -> (r: bool)
        ensures
            r == self@.is_recursive(),
    {
        match self {
            UnionLayout::NonRecursive(_) => false,
            _ => true,
        }
    }

    /// Layout of the tag id of this union.
    pub fn tag_id_layout(&self) -> (l: InLayout)
        ensures
            l == self@.tag_id_layout(),
    {
        let tags = self.num_tags();
        let wide = match self {
            UnionLayout::NullableWrapped { .. } => tags >= 256,
            UnionLayout::NonRecursive(_) | UnionLayout::Recursive(_) => tags > 256,
            _ => false,
        };
        let two = match self {
            UnionLayout::NullableWrapped { .. } => tags == 1,
            UnionLayout::NonRecursive(_) | UnionLayout::Recursive(_) => tags == 2,
            UnionLayout::NullableUnwrapped { .. } => true,
            UnionLayout::NonNullableUnwrapped(_) => false,
        };
        if wide {
            LAYOUT_U16
        } else if two {
            LAYOUT_BOOL
        } else {
            LAYOUT_U8
        }
    }
}

impl UnionLayout {
    /// A copy of this shape.
    pub fn duplicate(&self) -> (copy: UnionLayout)
        ensures
            copy@ == self@,
    {
        match self {
            UnionLayout::NonRecursive(tags) => {
                let t = tags.clone();
                assert(tags_view(t@) =~= tags_view(tags@));
                UnionLayout::NonRecursive(t)
            },
            UnionLayout::Recursive(tags) => {
                let t = tags.clone();
                assert(tags_view(t@) =~= tags_view(tags@));
                UnionLayout::Recursive(t)
            },
            UnionLayout::NonNullableUnwrapped(fields) => {
                let f = fields.clone();
                assert(f@ =~= fields@);
                UnionLayout::NonNullableUnwrapped(f)
            },
            UnionLayout::NullableWrapped { nullable_id, other_tags } => {
                let t = other_tags.clone();
                assert(tags_view(t@) =~= tags_view(other_tags@));
                UnionLayout::NullableWrapped { nullable_id: *nullable_id, other_tags: t }
            },
            UnionLayout::NullableUnwrapped { nullable_id, other_fields } => {
                let f = other_fields.clone();
                assert(f@ =~= other_fields@);
                UnionLayout::NullableUnwrapped { nullable_id: *nullable_id, other_fields: f }
            },
        }
    }
}

impl Layout {
    /// A copy of this layout.
    pub fn duplicate(&self) -> (copy: Layout)
        ensures
            copy@ == self@,
    {
        match self {
            Layout::Builtin(b) => Layout::Builtin(*b),
            Layout::Struct { field_layouts } => {
                let f = field_layouts.clone();
                assert(f@ =~= field_layouts@);
                Layout::Struct { field_layouts: f }
            },
            Layout::Union(u) => Layout::Union(u.duplicate()),
            Layout::LambdaSet(l) => Layout::LambdaSet(*l),
            Layout::RecursivePointer(of) => Layout::RecursivePointer(*of),
            Layout::Boxed(inner) => Layout::Boxed(*inner),
        }
    }

    /// Whether two layouts are the same layout.
    pub fn same(&self, other: &Layout) -> (r: bool)
        ensures
            r == (self@ == other@),
    {
        match (self, other) {
            (Layout::Builtin(a), Layout::Builtin(b)) => *a == *b,
            (Layout::Struct { field_layouts: a }, Layout::Struct { field_layouts: b }) => {
                fields_eq(a, b)
            },
            (Layout::Union(a), Layout::Union(b)) => a.same(b),
            (Layout::LambdaSet(a), Layout::LambdaSet(b)) => *a == *b,
            (Layout::RecursivePointer(a), Layout::RecursivePointer(b)) => *a == *b,
            (Layout::Boxed(a), Layout::Boxed(b)) => *a == *b,
            _ => false,
        }
    }
}

/// The set of layouts of one compilation.
pub struct LayoutInterner {
    layouts: Vec<Layout>,
    target: PtrWidth,
}

impl View for LayoutInterner {
    type V = Seq<LayoutV>;

    closed spec fn view(&self) -> Seq<LayoutV> {
        Seq::new(self.layouts@.len(), |i: int| self.layouts@[i]@)
    }
}

impl LayoutInterner {
    /// Pointer width of the target the layouts are for.
    pub closed spec fn ptr_width(&self) -> PtrWidth {
        self.target
    }

    /// The interner's invariant.
    pub open spec fn wf(&self) -> bool {
        interner_wf(self@)
    }

    /// An interner that holds the reserved layouts and nothing else.
    pub fn new(target: PtrWidth) -> (interner: LayoutInterner)
        ensures
            interner.wf(),
            interner.ptr_width() == target,
            interner@ == Seq::new(RESERVED_LAYOUTS as nat, |i: int| reserved_layout(i)),
    {
        let mut layouts: Vec<Layout> = Vec::new();
        layouts.push(Layout::Struct { field_layouts: Vec::new() });
        layouts.push(Layout::Builtin(Builtin::Bool));
        layouts.push(Layout::Builtin(Builtin::Int(IntWidth::U8)));
        layouts.push(Layout::Builtin(Builtin::Int(IntWidth::U16)));
        layouts.push(Layout::Builtin(Builtin::Int(IntWidth::U32)));
        layouts.push(Layout::Builtin(Builtin::Int(IntWidth::U64)));
        layouts.push(Layout::Builtin(Builtin::Int(IntWidth::I32)));
        layouts.push(Layout::Builtin(Builtin::Int(IntWidth::I64)));
        layouts.push(Layout::Boxed(LAYOUT_UNIT));
        layouts.push(Layout::Builtin(Builtin::Str));
        let interner = LayoutInterner { layouts, target };
        proof {
            let ls = interner@;
            assert(ls.len() == 10);
            assert(ls[0]->Struct_field_layouts =~= Seq::<InLayout>::empty());
            assert forall|i: int| 0 <= i < RESERVED_LAYOUTS implies #[trigger] ls[i]
                == reserved_layout(i) by {
                assert(ls[i] == interner.layouts@[i]@);
            }
            assert(ls =~= Seq::new(RESERVED_LAYOUTS as nat, |i: int| reserved_layout(i)));
        }
        interner
    }

    /// Pointer width of the target the layouts are for.
    pub fn target(&self) -> (t: PtrWidth)
        ensures
            t == self.ptr_width(),
    {
        self.target
    }

    /// Number of layouts interned so far.
    pub fn len(&self) -> (n: usize)
        ensures
            n == self@.len(),
    {
        self.layouts.len()
    }

    /// The layout that `id` stands for.
    pub fn get(&self, id: InLayout) -> (layout: &Layout)
        requires
            id < self@.len(),
        ensures
            layout@ == self@[id as int],
    {
        &self.layouts[id]
    }

    /// Whether every one of `fields` was interned already.
    pub fn knows_fields(&self, fields: &Vec<InLayout>) -> (r: bool)
        ensures
            r == fields_below(fields@, self@.len() as int),
    {
        let mut k: usize = 0;
        while k < fields.len()
            invariant
                k <= fields.len(),
                forall|j: int| 0 <= j < k ==> #[trigger] fields@[j] < self@.len(),
            decreases fields.len() - k,
        {
            if fields[k] >= self.layouts.len() {
                return false;
            }
            k += 1;
        }
        true
    }

    /// Whether `layout` may be interned now: what it is made of was interned
    /// already, and its variants can be numbered.
    pub fn fits(&self, layout: &Layout) -> (r: bool)
        ensures
            r == layout@.well_formed_at(self@.len() as int),
    {
        match layout {
            Layout::Builtin(Builtin::List(elem)) => *elem < self.layouts.len(),
            Layout::Builtin(_) => true,
            Layout::Struct { field_layouts } => self.knows_fields(field_layouts),
            Layout::Union(u) => {
                if u.num_tags() >= MAX_TAGS {
                    return false;
                }
                let ghost tags = u@.tags();
                let mut t: usize = 0;
                while t < u.num_tags()
                    invariant
                        t <= tags.len(),
                        tags == u@.tags(),
                        layout@ == LayoutV::Union(u@),
                        forall|a: int|
                            0 <= a < t ==> fields_below(#[trigger] tags[a], self@.len() as int),
                    decreases tags.len() - t,
                {
                    if !self.knows_fields(u.tag_fields(t)) {
                        assert(!fields_below(tags[t as int], self@.len() as int));
                        assert(!tags_below(tags, self@.len() as int));
                        return false;
                    }
                    t += 1;
                }
                true
            },
            Layout::LambdaSet(l) => l.representation < self.layouts.len(),
            Layout::RecursivePointer(_) => true,
            Layout::Boxed(inner) => *inner < self.layouts.len(),
        }
    }

    /// Interns `layout`: hands back the identifier of the equal layout that is
    /// there already, or puts `layout` at the end.
    pub fn insert(&mut self, layout: Layout) -> (id: InLayout)
        requires
            old(self).wf(),
            layout@.well_formed_at(old(self)@.len() as int),
        ensures
            final(self).wf(),
            final(self).ptr_width() == old(self).ptr_width(),
            (id, final(self)@) == intern(old(self)@, layout@),
            extends(final(self)@, old(self)@),
            id < final(self)@.len(),
            final(self)@[id as int] == layout@,
    {
        let mut i: usize = 0;
        while i < self.layouts.len()
            invariant
                i <= self.layouts.len(),
                *self == *old(self),
                self.wf(),
                forall|j: int| 0 <= j < i ==> self@[j] != layout@,
            decreases self.layouts.len() - i,
        {
            if self.layouts[i].same(&layout) {
                proof {
                    let ls = self@;
                    assert(ls[i as int] == layout@);
                    assert(ls.contains(layout@));
                    let k = ls.index_of(layout@);
                    assert(0 <= k < ls.len() && ls[k] == layout@);
                    assert(k == i) by {
                        if k < i {
                            assert(ls[k] != ls[i as int]);
                        } else if k > i {
                            assert(ls[i as int] != ls[k]);
                        }
                    }
                }
                return i;
            }
            i += 1;
        }
        let id = self.layouts.len();
        proof {
            let ls = self@;
            assert(!ls.contains(layout@));
        }
        let ghost before = self@;
        let ghost l = layout@;
        self.layouts.push(layout);
        proof {
            assert(self@ =~= before.push(l));
            assert forall|a: int, b: int| 0 <= a < b < self@.len() implies #[trigger] self@[a]
                != #[trigger] self@[b] by {
                if b < before.len() {
                    assert(before[a] != before[b]);
                } else {
                    assert(before[a] != l);
                }
            }
            assert forall|a: int| 0 <= a < self@.len() implies (#[trigger] self@[a]).well_formed_at(
                a,
            ) by {
                if a < before.len() {
                    assert(before[a].well_formed_at(a));
                }
            }
            assert forall|a: int| 0 <= a < RESERVED_LAYOUTS implies #[trigger] self@[a]
                == reserved_layout(a) by {
                assert(before[a] == reserved_layout(a));
            }
        }
        id
    }

    /// Whether a value of layout `id` owns a reference count, itself or in a
    /// field.
    pub fn is_refcounted(&self, id: InLayout) -> (r: bool)
        requires
            self.wf(),
        ensures
            r == is_refcounted_spec(self@, id),
        decreases id, 2nat,
    {
        if id >= self.layouts.len() {
            return false;
        }
        proof {
            assert(self@[id as int] == self.layouts@[id as int]@);
            assert(self@[id as int].well_formed_at(id as int));
        }
        match &self.layouts[id] {
            Layout::Builtin(b) => matches!(b, Builtin::Str | Builtin::List(_)),
            Layout::Struct { field_layouts } => {
                let r = self.any_refcounted(field_layouts, id);
                assert(r == is_refcounted_spec(self@, id));
                r
            },
            Layout::Union(UnionLayout::NonRecursive(tags)) => {
                let r = self.any_tag_refcounted(tags, id);
                assert(self@[id as int] == LayoutV::Union(
                    UnionLayoutV::NonRecursive(tags_view(tags@)),
                ));
                assert(r == is_refcounted_spec(self@, id));
                r
            },
            Layout::Union(_) => true,
            Layout::LambdaSet(l) => self.is_refcounted(l.representation),
            Layout::RecursivePointer(_) => true,
            Layout::Boxed(_) => true,
        }
    }

    /// Whether a field of one of `tags`, the variants of the layout `parent`,
    /// is refcounted.
    pub fn any_tag_refcounted(&self, tags: &Vec<Vec<InLayout>>, parent: InLayout) -> (r: bool)
        requires
            self.wf(),
            tags_below(tags_view(tags@), parent as int),
        ensures
            r == exists|t: int, k: int|
                0 <= t < tags_view(tags@).len() && 0 <= k < tags_view(tags@)[t].len()
                    && #[trigger] tags_view(tags@)[t][k] < parent && is_refcounted_spec(
                    self@,
                    tags_view(tags@)[t][k],
                ),
        decreases parent, 1nat,
    {
        let ghost tv = tags_view(tags@);
        let mut t: usize = 0;
        while t < tags.len()
            invariant
                t <= tags.len(),
                self.wf(),
                tv == tags_view(tags@),
                tags_below(tv, parent as int),
                forall|a: int, k: int|
                    0 <= a < t && 0 <= k < tv[a].len() && #[trigger] tv[a][k] < parent
                        ==> !is_refcounted_spec(self@, tv[a][k]),
            decreases tags.len() - t,
        {
            assert(tv[t as int] == tags@[t as int]@);
            assert(fields_below(tv[t as int], parent as int));
            if self.any_refcounted(&tags[t], parent) {
                proof {
                    let k = choose|k: int|
                        0 <= k < tags@[t as int]@.len() && #[trigger] tags@[t as int]@[k] < parent
                            && is_refcounted_spec(self@, tags@[t as int]@[k]);
                    assert(0 <= t < tv.len() && 0 <= k < tv[t as int].len() && tv[t as int][k]
                        < parent && is_refcounted_spec(self@, tv[t as int][k]));
                }
                return true;
            }
            t += 1;
        }
        false
    }

    /// Whether one of `fields`, which belong to the layout `parent`, is
    /// refcounted.
    pub fn any_refcounted(&self, fields: &Vec<InLayout>, parent: InLayout) -> (r: bool)
        requires
            self.wf(),
            fields_below(fields@, parent as int),
        ensures
            r == exists|k: int|
                0 <= k < fields@.len() && #[trigger] fields@[k] < parent && is_refcounted_spec(
                    self@,
                    fields@[k],
                ),
        decreases parent, 0nat,
    {
        let mut k: usize = 0;
        while k < fields.len()
            invariant
                k <= fields.len(),
                self.wf(),
                fields_below(fields@, parent as int),
                forall|j: int|
                    0 <= j < k && #[trigger] fields@[j] < parent ==> !is_refcounted_spec(
                        self@,
                        fields@[j],
                    ),
            decreases fields.len() - k,
        {
            assert(fields@[k as int] < parent);
            if self.is_refcounted(fields[k]) {
                return true;
            }
            k += 1;
        }
        false
    }

    /// Whether the layout `id` holds a `RecursivePointer` that no recursive
    /// union inside it binds.
    pub fn has_free_rec_ptr(&self, id: InLayout) -> (r: bool)
        requires
            self.wf(),
        ensures
            r == free_rec_ptr_spec(self@, id),
        decreases id, 2nat,
    {
        if id >= self.layouts.len() {
            return false;
        }
        proof {
            assert(self@[id as int] == self.layouts@[id as int]@);
            assert(self@[id as int].well_formed_at(id as int));
        }
        match &self.layouts[id] {
            Layout::Builtin(Builtin::List(elem)) => self.has_free_rec_ptr(*elem),
            Layout::Builtin(_) => false,
            Layout::Struct { field_layouts } => {
                let r = self.any_free_rec_ptr(field_layouts, id);
                assert(r == free_rec_ptr_spec(self@, id));
                r
            },
            Layout::Union(UnionLayout::NonRecursive(tags)) => {
                let ghost tv = tags_view(tags@);
                let mut t: usize = 0;
                while t < tags.len()
                    invariant
                        t <= tags.len(),
                        self.wf(),
                        tv == tags_view(tags@),
                        tags_below(tv, id as int),
                        id < self@.len(),
                        self@[id as int] == LayoutV::Union(UnionLayoutV::NonRecursive(tv)),
                        forall|a: int, k: int|
                            0 <= a < t && 0 <= k < tv[a].len() && #[trigger] tv[a][k] < id
                                ==> !free_rec_ptr_spec(self@, tv[a][k]),
                    decreases tags.len() - t,
                {
                    assert(tv[t as int] == tags@[t as int]@);
                    assert(fields_below(tv[t as int], id as int));
                    if self.any_free_rec_ptr(&tags[t], id) {
                        proof {
                            let k = choose|k: int|
                                0 <= k < tags@[t as int]@.len() && #[trigger] tags@[t as int]@[k]
                                    < id && free_rec_ptr_spec(self@, tags@[t as int]@[k]);
                            assert(0 <= t < tv.len() && 0 <= k < tv[t as int].len()
                                && tv[t as int][k] < id && free_rec_ptr_spec(
                                self@,
                                tv[t as int][k],
                            ));
                            assert(self@[id as int] == LayoutV::Union(
                                UnionLayoutV::NonRecursive(tv),
                            ));
                            assert(free_rec_ptr_spec(self@, id));
                        }
                        return true;
                    }
                    t += 1;
                }
                proof {
                    assert(self@[id as int] == LayoutV::Union(UnionLayoutV::NonRecursive(tv)));
                    assert(!free_rec_ptr_spec(self@, id));
                }
                false
            },
            Layout::Union(_) => false,
            Layout::LambdaSet(l) => self.has_free_rec_ptr(l.representation),
            Layout::RecursivePointer(_) => true,
            Layout::Boxed(inner) => self.has_free_rec_ptr(*inner),
        }
    }

    /// Whether one of `fields`, which belong to the layout `parent`, holds a
    /// free `RecursivePointer`.
    pub fn any_free_rec_ptr(&self, fields: &Vec<InLayout>, parent: InLayout) -> (r: bool)
        requires
            self.wf(),
            fields_below(fields@, parent as int),
        ensures
            r == exists|k: int|
                0 <= k < fields@.len() && #[trigger] fields@[k] < parent && free_rec_ptr_spec(
                    self@,
                    fields@[k],
                ),
        decreases parent, 0nat,
    {
        let mut k: usize = 0;
        while k < fields.len()
            invariant
                k <= fields.len(),
                self.wf(),
                fields_below(fields@, parent as int),
                forall|j: int|
                    0 <= j < k && #[trigger] fields@[j] < parent ==> !free_rec_ptr_spec(
                        self@,
                        fields@[j],
                    ),
            decreases fields.len() - k,
        {
            assert(fields@[k as int] < parent);
            if self.has_free_rec_ptr(fields[k]) {
                return true;
            }
            k += 1;
        }
        false
    }

    /// Alignment in bytes of a value of layout `id` where it is stored.
    pub fn alignment_bytes(&self, id: InLayout) -> (a: u32)
        requires
            self.wf(),
        ensures
            a == alignment_spec(self@, self.ptr_width(), id),
            a >= 1,
        decreases id, 2nat,
    {
        if id >= self.layouts.len() {
            return 1;
        }
        proof {
            assert(self@[id as int] == self.layouts@[id as int]@);
            assert(self@[id as int].well_formed_at(id as int));
        }
        match &self.layouts[id] {
            Layout::Builtin(Builtin::Int(w)) => w.bytes(),
            Layout::Builtin(Builtin::Float(w)) => w.bytes(),
            Layout::Builtin(Builtin::Bool) => 1,
            Layout::Builtin(Builtin::Decimal) => 16,
            Layout::Builtin(Builtin::Str) => self.target.bytes(),
            Layout::Builtin(Builtin::List(_)) => self.target.bytes(),
            Layout::Struct { field_layouts } => self.fields_alignment_bytes(field_layouts, id),
            Layout::Union(UnionLayout::NonRecursive(tags)) => {
                let fields = self.tags_alignment_bytes(tags, id);
                let tag_id: u32 = if tags.len() > 256 {
                    2
                } else {
                    1
                };
                if fields >= tag_id {
                    fields
                } else {
                    tag_id
                }
            },
            Layout::Union(_) => self.target.bytes(),
            Layout::LambdaSet(l) => self.alignment_bytes(l.representation),
            Layout::RecursivePointer(_) => self.target.bytes(),
            Layout::Boxed(_) => self.target.bytes(),
        }
    }

    /// Largest alignment among `fields`, which belong to the layout `parent`.
    pub fn fields_alignment_bytes(&self, fields: &Vec<InLayout>, parent: InLayout) -> (a: u32)
        requires
            self.wf(),
            fields_below(fields@, parent as int),
        ensures
            a == fields_alignment(self@, self.ptr_width(), fields@, parent, fields@.len()),
            a >= 1,
        decreases parent, 0nat,
    {
        let mut a: u32 = 1;
        let mut k: usize = 0;
        while k < fields.len()
            invariant
                k <= fields.len(),
                self.wf(),
                fields_below(fields@, parent as int),
                a == fields_alignment(self@, self.ptr_width(), fields@, parent, k as nat),
                a >= 1,
            decreases fields.len() - k,
        {
            assert(fields@[k as int] < parent);
            let f = self.alignment_bytes(fields[k]);
            if f > a {
                a = f;
            }
            k += 1;
        }
        a
    }

    /// Largest alignment among the fields of `tags`, the variants of the
    /// layout `parent`.
    pub fn tags_alignment_bytes(&self, tags: &Vec<Vec<InLayout>>, parent: InLayout) -> (a: u32)
        requires
            self.wf(),
            tags_below(tags_view(tags@), parent as int),
        ensures
            a == tags_alignment(
                self@,
                self.ptr_width(),
                tags_view(tags@),
                parent,
                tags@.len(),
            ),
            a >= 1,
        decreases parent, 1nat,
    {
        let ghost tv = tags_view(tags@);
        let mut a: u32 = 1;
        let mut t: usize = 0;
        while t < tags.len()
            invariant
                t <= tags.len(),
                self.wf(),
                tv == tags_view(tags@),
                tags_below(tv, parent as int),
                a == tags_alignment(self@, self.ptr_width(), tv, parent, t as nat),
                a >= 1,
            decreases tags.len() - t,
        {
            assert(tv[t as int] == tags@[t as int]@);
            assert(fields_below(tv[t as int], parent as int));
            let f = self.fields_alignment_bytes(&tags[t], parent);
            if f > a {
                a = f;
            }
            t += 1;
        }
        a
    }

    /// Size in bytes of a value of layout `id` where it is stored.
    pub fn stack_size(&self, id: InLayout) -> (n: u32)
        requires
            self.wf(),
        ensures
            n == stack_size_spec(self@, self.ptr_width(), id),
        decreases id, 2nat,
    {
        if id >= self.layouts.len() {
            return 0;
        }
        proof {
            assert(self@[id as int] == self.layouts@[id as int]@);
            assert(self@[id as int].well_formed_at(id as int));
        }
        match &self.layouts[id] {
            Layout::Builtin(Builtin::Int(w)) => w.bytes(),
            Layout::Builtin(Builtin::Float(w)) => w.bytes(),
            Layout::Builtin(Builtin::Bool) => 1,
            Layout::Builtin(Builtin::Decimal) => 16,
            Layout::Builtin(Builtin::Str) => 3 * self.target.bytes(),
            Layout::Builtin(Builtin::List(_)) => 3 * self.target.bytes(),
            Layout::Struct { field_layouts } => {
                let size = self.fields_stack_size(field_layouts, id);
                let align = self.fields_alignment_bytes(field_layouts, id);
                round_up_to_alignment(size, align)
            },
            Layout::Union(UnionLayout::NonRecursive(tags)) => {
                let data = self.tags_stack_size(tags, id);
                let tag_id: u32 = if tags.len() > 256 {
                    2
                } else {
                    1
                };
                let with_id = round_up_to_alignment(data, tag_id).saturating_add(tag_id);
                let align = self.alignment_bytes(id);
                round_up_to_alignment(with_id, align)
            },
            Layout::Union(_) => self.target.bytes(),
            Layout::LambdaSet(l) => self.stack_size(l.representation),
            Layout::RecursivePointer(_) => self.target.bytes(),
            Layout::Boxed(_) => self.target.bytes(),
        }
    }

    /// Sum of the sizes of `fields`, which belong to the layout `parent`.
    pub fn fields_stack_size(&self, fields: &Vec<InLayout>, parent: InLayout) -> (n: u32)
        requires
            self.wf(),
            fields_below(fields@, parent as int),
        ensures
            n == fields_size(self@, self.ptr_width(), fields@, parent, fields@.len()),
        decreases parent, 0nat,
    {
        let mut n: u32 = 0;
        let mut k: usize = 0;
        while k < fields.len()
            invariant
                k <= fields.len(),
                self.wf(),
                fields_below(fields@, parent as int),
                n == fields_size(self@, self.ptr_width(), fields@, parent, k as nat),
            decreases fields.len() - k,
        {
            assert(fields@[k as int] < parent);
            let f = self.stack_size(fields[k]);
            n = n.saturating_add(f);
            k += 1;
        }
        n
    }

    /// Size of the largest of `tags`, each taken as a struct.
    pub fn tags_stack_size(&self, tags: &Vec<Vec<InLayout>>, parent: InLayout) -> (n: u32)
        requires
            self.wf(),
            tags_below(tags_view(tags@), parent as int),
        ensures
            n == tags_size(self@, self.ptr_width(), tags_view(tags@), parent, tags@.len()),
        decreases parent, 1nat,
    {
        let ghost tv = tags_view(tags@);
        let mut n: u32 = 0;
        let mut t: usize = 0;
        while t < tags.len()
            invariant
                t <= tags.len(),
                self.wf(),
                tv == tags_view(tags@),
                tags_below(tv, parent as int),
                n == tags_size(self@, self.ptr_width(), tv, parent, t as nat),
            decreases tags.len() - t,
        {
            assert(tv[t as int] == tags@[t as int]@);
            assert(fields_below(tv[t as int], parent as int));
            let size = self.fields_stack_size(&tags[t], parent);
            let align = self.fields_alignment_bytes(&tags[t], parent);
            let f = round_up_to_alignment(size, align);
            if f > n {
                n = f;
            }
            t += 1;
        }
        n
    }

    /// Alignment of the heap allocation behind a value of layout `id`.
    pub fn allocation_alignment_bytes(&self, id: InLayout) -> (a: u32)
        requires
            self.wf(),
        ensures
            a == allocation_alignment_spec(self@, self.ptr_width(), id),
            a >= self.ptr_width().spec_bytes(),
        decreases id,
    {
        let ptr = self.target.bytes();
        if id >= self.layouts.len() {
            return ptr;
        }
        proof {
            assert(self@[id as int] == self.layouts@[id as int]@);
            assert(self@[id as int].well_formed_at(id as int));
        }
        let payload = match &self.layouts[id] {
            Layout::Builtin(Builtin::List(elem)) => self.alignment_bytes(*elem),
            Layout::Union(u) => {
                match u {
                    UnionLayout::NonRecursive(tags) => self.tags_alignment_bytes(tags, id),
                    UnionLayout::Recursive(tags) => self.tags_alignment_bytes(tags, id),
                    UnionLayout::NonNullableUnwrapped(fields) => {
                        proof {
                            reveal_with_fuel(tags_alignment, 2);
                            assert(fields_below(u@.tags()[0], id as int));
                        }
                        self.fields_alignment_bytes(fields, id)
                    },
                    UnionLayout::NullableWrapped { other_tags, .. } => {
                        self.tags_alignment_bytes(other_tags, id)
                    },
                    UnionLayout::NullableUnwrapped { other_fields, .. } => {
                        proof {
                            reveal_with_fuel(tags_alignment, 2);
                            assert(fields_below(u@.tags()[0], id as int));
                        }
                        self.fields_alignment_bytes(other_fields, id)
                    },
                }
            },
            Layout::LambdaSet(l) => {
                return self.allocation_alignment_bytes(l.representation);
            },
            Layout::Boxed(inner) => self.alignment_bytes(*inner),
            _ => self.alignment_bytes(id),
        };
        if payload >= ptr {
            payload
        } else {
            ptr
        }
    }
}

/// `width` rounded up to a multiple of `alignment`.
pub fn round_up_to_alignment(width: u32, alignment: u32) -> (r: u32)
    ensures
        r == round_up(width as int, alignment as int),
{
    if alignment == 0 {
        return width;
    }
    let rest = width % alignment;
    if rest == 0 {
        width
    } else {
        width.saturating_add(alignment - rest)
    }
}

} // verus!
