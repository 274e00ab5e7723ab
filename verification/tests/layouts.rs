use rc_codegen::helper::CodeGenHelp;
use rc_codegen::interner::{fields_eq, round_up_to_alignment, tags_eq, LayoutInterner};
use rc_codegen::layout::{
    Builtin, FloatWidth, InLayout, IntWidth, LambdaSet, Layout, PtrWidth, UnionLayout,
    LAYOUT_BOOL, LAYOUT_I32, LAYOUT_I64, LAYOUT_OPAQUE_PTR, LAYOUT_STR, LAYOUT_U16, LAYOUT_U32,
    LAYOUT_U64, LAYOUT_U8, LAYOUT_UNIT, RESERVED_LAYOUTS,
};

fn interner() -> LayoutInterner {
    LayoutInterner::new(PtrWidth::Bytes8)
}

fn cons_list(i: &mut LayoutInterner) -> (InLayout, InLayout) {
    let id = i.len();
    let rec = i.insert(Layout::RecursivePointer(id + 1));
    let list = i.insert(Layout::Union(UnionLayout::NullableUnwrapped {
        nullable_id: false,
        other_fields: vec![LAYOUT_I64, rec],
    }));
    (rec, list)
}

#[test]
fn new_interner_holds_the_reserved_layouts() {
    let i = interner();
    assert_eq!(i.len(), RESERVED_LAYOUTS);
    assert_eq!(*i.get(LAYOUT_UNIT), Layout::Struct { field_layouts: vec![] });
    assert_eq!(*i.get(LAYOUT_BOOL), Layout::Builtin(Builtin::Bool));
    assert_eq!(*i.get(LAYOUT_U8), Layout::Builtin(Builtin::Int(IntWidth::U8)));
    assert_eq!(*i.get(LAYOUT_U16), Layout::Builtin(Builtin::Int(IntWidth::U16)));
    assert_eq!(*i.get(LAYOUT_U32), Layout::Builtin(Builtin::Int(IntWidth::U32)));
    assert_eq!(*i.get(LAYOUT_U64), Layout::Builtin(Builtin::Int(IntWidth::U64)));
    assert_eq!(*i.get(LAYOUT_I32), Layout::Builtin(Builtin::Int(IntWidth::I32)));
    assert_eq!(*i.get(LAYOUT_I64), Layout::Builtin(Builtin::Int(IntWidth::I64)));
    assert_eq!(*i.get(LAYOUT_OPAQUE_PTR), Layout::Boxed(LAYOUT_UNIT));
    assert_eq!(*i.get(LAYOUT_STR), Layout::Builtin(Builtin::Str));
    assert_eq!(i.target(), PtrWidth::Bytes8);
}

#[test]
fn equal_layouts_share_one_identifier() {
    let mut i = interner();
    let a = i.insert(Layout::Builtin(Builtin::List(LAYOUT_I64)));
    let b = i.insert(Layout::Builtin(Builtin::List(LAYOUT_STR)));
    let c = i.insert(Layout::Builtin(Builtin::List(LAYOUT_I64)));
    assert_eq!(a, RESERVED_LAYOUTS);
    assert_eq!(b, RESERVED_LAYOUTS + 1);
    assert_eq!(c, a);
    assert_eq!(i.len(), RESERVED_LAYOUTS + 2);
    assert_eq!(i.insert(Layout::Builtin(Builtin::Str)), LAYOUT_STR);
    assert_eq!(i.insert(Layout::Struct { field_layouts: vec![] }), LAYOUT_UNIT);
    let s1 = i.insert(Layout::Struct { field_layouts: vec![a, b] });
    let s2 = i.insert(Layout::Struct { field_layouts: vec![b, a] });
    let s3 = i.insert(Layout::Struct { field_layouts: vec![a, b] });
    assert_ne!(s1, s2);
    assert_eq!(s1, s3);
    assert_eq!(*i.get(a), Layout::Builtin(Builtin::List(LAYOUT_I64)));
}

#[test]
fn layouts_are_compared_by_what_they_hold() {
    assert!(fields_eq(&vec![1, 2], &vec![1, 2]));
    assert!(!fields_eq(&vec![1, 2], &vec![1, 3]));
    assert!(!fields_eq(&vec![1, 2], &vec![1]));
    assert!(tags_eq(&vec![vec![1], vec![]], &vec![vec![1], vec![]]));
    assert!(!tags_eq(&vec![vec![1], vec![]], &vec![vec![1], vec![2]]));
    let a = UnionLayout::NullableWrapped { nullable_id: 1, other_tags: vec![vec![3]] };
    let b = UnionLayout::NullableWrapped { nullable_id: 2, other_tags: vec![vec![3]] };
    assert!(a.same(&a.duplicate()));
    assert!(!a.same(&b));
    assert!(!UnionLayout::Recursive(vec![vec![3]]).same(&UnionLayout::NonRecursive(vec![vec![3]])));
    assert!(Layout::Union(a.duplicate()).same(&Layout::Union(a)));
    assert!(!Layout::Boxed(3).same(&Layout::RecursivePointer(3)));
    assert_eq!(Layout::Struct { field_layouts: vec![4] }.duplicate(), Layout::Struct { field_layouts: vec![4] });
}

#[test]
fn refcounted_layouts_are_found_by_structure() {
    let mut i = interner();
    let list = i.insert(Layout::Builtin(Builtin::List(LAYOUT_I64)));
    let plain = i.insert(Layout::Struct { field_layouts: vec![LAYOUT_I64, LAYOUT_BOOL] });
    let holder = i.insert(Layout::Struct { field_layouts: vec![LAYOUT_I64, plain, list] });
    let nested = i.insert(Layout::Struct { field_layouts: vec![holder] });
    let flat = i.insert(Layout::Union(UnionLayout::NonRecursive(vec![vec![LAYOUT_I64], vec![plain]])));
    let flat_str = i.insert(Layout::Union(UnionLayout::NonRecursive(vec![vec![LAYOUT_I64], vec![LAYOUT_STR]])));
    let (rec, cons) = cons_list(&mut i);
    let boxed = i.insert(Layout::Boxed(LAYOUT_I64));
    let lambda = i.insert(Layout::LambdaSet(LambdaSet { representation: plain }));
    let lambda_str = i.insert(Layout::LambdaSet(LambdaSet { representation: LAYOUT_STR }));
    assert!(i.is_refcounted(LAYOUT_STR));
    assert!(i.is_refcounted(list));
    assert!(!i.is_refcounted(LAYOUT_I64));
    assert!(!i.is_refcounted(LAYOUT_UNIT));
    assert!(!i.is_refcounted(plain));
    assert!(i.is_refcounted(holder));
    assert!(i.is_refcounted(nested));
    assert!(!i.is_refcounted(flat));
    assert!(i.is_refcounted(flat_str));
    assert!(i.is_refcounted(rec));
    assert!(i.is_refcounted(cons));
    assert!(i.is_refcounted(boxed));
    assert!(!i.is_refcounted(lambda));
    assert!(i.is_refcounted(lambda_str));
    assert!(!i.is_refcounted(10_000));
}

#[test]
fn sizes_and_alignments_on_a_64_bit_target() {
    let mut i = interner();
    let f32_ = i.insert(Layout::Builtin(Builtin::Float(FloatWidth::F32)));
    let dec = i.insert(Layout::Builtin(Builtin::Decimal));
    let u128_ = i.insert(Layout::Builtin(Builtin::Int(IntWidth::U128)));
    let list = i.insert(Layout::Builtin(Builtin::List(dec)));
    let pair = i.insert(Layout::Struct { field_layouts: vec![LAYOUT_U8, LAYOUT_I64] });
    let bytes = i.insert(Layout::Struct { field_layouts: vec![LAYOUT_U8, LAYOUT_U8, LAYOUT_U8] });
    let flat = i.insert(Layout::Union(UnionLayout::NonRecursive(vec![vec![LAYOUT_I64], vec![LAYOUT_U8]])));
    let flat_small = i.insert(Layout::Union(UnionLayout::NonRecursive(vec![vec![LAYOUT_U16], vec![]])));
    let (rec, cons) = cons_list(&mut i);
    let boxed = i.insert(Layout::Boxed(dec));
    let lambda = i.insert(Layout::LambdaSet(LambdaSet { representation: pair }));

    let sizes = [
        (LAYOUT_UNIT, 0), (LAYOUT_BOOL, 1), (LAYOUT_U16, 2), (LAYOUT_I32, 4), (LAYOUT_I64, 8),
        (f32_, 4), (dec, 16), (u128_, 16), (LAYOUT_STR, 24), (list, 24), (pair, 16), (bytes, 3),
        (flat, 16), (flat_small, 4), (rec, 8), (cons, 8), (boxed, 8), (lambda, 16),
    ];
    for (layout, size) in sizes {
        assert_eq!(i.stack_size(layout), size, "size of {layout}");
    }
    let alignments = [
        (LAYOUT_UNIT, 1), (LAYOUT_BOOL, 1), (LAYOUT_U16, 2), (LAYOUT_I64, 8), (f32_, 4),
        (dec, 16), (LAYOUT_STR, 8), (list, 8), (pair, 8), (bytes, 1), (flat, 8), (flat_small, 2),
        (rec, 8), (cons, 8), (boxed, 8), (lambda, 8),
    ];
    for (layout, alignment) in alignments {
        assert_eq!(i.alignment_bytes(layout), alignment, "alignment of {layout}");
    }
    let allocations = [
        (LAYOUT_STR, 8), (list, 16), (cons, 8), (boxed, 16), (pair, 8), (dec, 16), (lambda, 8),
    ];
    for (layout, alignment) in allocations {
        assert_eq!(i.allocation_alignment_bytes(layout), alignment, "allocation of {layout}");
    }
    assert_eq!(i.stack_size(10_000), 0);
    assert_eq!(i.alignment_bytes(10_000), 1);
    assert_eq!(i.allocation_alignment_bytes(10_000), 8);
}

#[test]
fn sizes_and_alignments_on_a_32_bit_target() {
    let mut i = LayoutInterner::new(PtrWidth::Bytes4);
    let list = i.insert(Layout::Builtin(Builtin::List(LAYOUT_U8)));
    let wide = i.insert(Layout::Builtin(Builtin::List(LAYOUT_I64)));
    let boxed = i.insert(Layout::Boxed(LAYOUT_U8));
    assert_eq!(i.stack_size(LAYOUT_STR), 12);
    assert_eq!(i.stack_size(list), 12);
    assert_eq!(i.alignment_bytes(list), 4);
    assert_eq!(i.stack_size(boxed), 4);
    assert_eq!(i.allocation_alignment_bytes(list), 4);
    assert_eq!(i.allocation_alignment_bytes(wide), 8);
    assert_eq!(i.allocation_alignment_bytes(boxed), 4);
    assert_eq!(PtrWidth::Bytes4.bytes(), 4);
    assert_eq!(PtrWidth::Bytes4.layout_isize(), LAYOUT_I32);
    assert_eq!(PtrWidth::Bytes4.layout_usize(), LAYOUT_U32);
    assert_eq!(PtrWidth::Bytes8.layout_isize(), LAYOUT_I64);
    assert_eq!(PtrWidth::Bytes8.layout_usize(), LAYOUT_U64);
}

#[test]
fn sizes_of_nested_structs_add_up() {
    let mut i = interner();
    let mut layout = i.insert(Layout::Builtin(Builtin::Decimal));
    for _ in 0..10 {
        layout = i.insert(Layout::Struct { field_layouts: vec![layout, layout] });
    }
    assert_eq!(i.stack_size(layout), 16 * 1024);
    assert_eq!(i.alignment_bytes(layout), 16);
}

#[test]
fn widths_rounded_up() {
    assert_eq!(round_up_to_alignment(9, 8), 16);
    assert_eq!(round_up_to_alignment(16, 8), 16);
    assert_eq!(round_up_to_alignment(0, 8), 0);
    assert_eq!(round_up_to_alignment(5, 1), 5);
    assert_eq!(round_up_to_alignment(5, 0), 5);
    assert_eq!(round_up_to_alignment(u32::MAX - 1, 8), u32::MAX);
}

#[test]
fn tag_id_layout_follows_the_number_of_variants() {
    let tags = |n: usize| vec![vec![]; n];
    assert_eq!(UnionLayout::NonRecursive(tags(1)).tag_id_layout(), LAYOUT_U8);
    assert_eq!(UnionLayout::NonRecursive(tags(2)).tag_id_layout(), LAYOUT_BOOL);
    assert_eq!(UnionLayout::Recursive(tags(3)).tag_id_layout(), LAYOUT_U8);
    assert_eq!(UnionLayout::Recursive(tags(256)).tag_id_layout(), LAYOUT_U8);
    assert_eq!(UnionLayout::Recursive(tags(257)).tag_id_layout(), LAYOUT_U16);
    assert_eq!(UnionLayout::NonNullableUnwrapped(vec![]).tag_id_layout(), LAYOUT_U8);
    assert_eq!(
        UnionLayout::NullableWrapped { nullable_id: 0, other_tags: tags(1) }.tag_id_layout(),
        LAYOUT_BOOL
    );
    assert_eq!(
        UnionLayout::NullableWrapped { nullable_id: 0, other_tags: tags(255) }.tag_id_layout(),
        LAYOUT_U8
    );
    assert_eq!(
        UnionLayout::NullableWrapped { nullable_id: 0, other_tags: tags(256) }.tag_id_layout(),
        LAYOUT_U16
    );
    assert_eq!(
        UnionLayout::NullableUnwrapped { nullable_id: true, other_fields: vec![] }.tag_id_layout(),
        LAYOUT_BOOL
    );
}

#[test]
fn variants_and_null_id_of_each_shape() {
    let wrapped = UnionLayout::NullableWrapped { nullable_id: 2, other_tags: vec![vec![1], vec![2, 3]] };
    assert_eq!(wrapped.num_tags(), 2);
    assert_eq!(*wrapped.tag_fields(1), vec![2, 3]);
    assert_eq!(wrapped.null_id(), Some(2));
    assert!(wrapped.is_recursive());
    let unwrapped = UnionLayout::NullableUnwrapped { nullable_id: true, other_fields: vec![7] };
    assert_eq!(unwrapped.num_tags(), 1);
    assert_eq!(*unwrapped.tag_fields(0), vec![7]);
    assert_eq!(unwrapped.null_id(), Some(1));
    let single = UnionLayout::NonNullableUnwrapped(vec![4, 5]);
    assert_eq!(single.num_tags(), 1);
    assert_eq!(*single.tag_fields(0), vec![4, 5]);
    assert_eq!(single.null_id(), None);
    let flat = UnionLayout::NonRecursive(vec![vec![1]]);
    assert!(!flat.is_recursive());
    assert_eq!(flat.null_id(), None);
}

#[test]
fn free_recursive_pointers_are_found() {
    let mut i = interner();
    let (rec, cons) = cons_list(&mut i);
    let list_of_rec = i.insert(Layout::Builtin(Builtin::List(rec)));
    let list_of_cons = i.insert(Layout::Builtin(Builtin::List(cons)));
    let pair = i.insert(Layout::Struct { field_layouts: vec![LAYOUT_I64, list_of_rec] });
    let boxed = i.insert(Layout::Boxed(rec));
    let flat = i.insert(Layout::Union(UnionLayout::NonRecursive(vec![vec![], vec![LAYOUT_STR, rec]])));
    let lambda = i.insert(Layout::LambdaSet(LambdaSet { representation: boxed }));
    assert!(i.has_free_rec_ptr(rec));
    assert!(!i.has_free_rec_ptr(cons));
    assert!(i.has_free_rec_ptr(list_of_rec));
    assert!(!i.has_free_rec_ptr(list_of_cons));
    assert!(i.has_free_rec_ptr(pair));
    assert!(i.has_free_rec_ptr(boxed));
    assert!(i.has_free_rec_ptr(flat));
    assert!(i.has_free_rec_ptr(lambda));
    assert!(!i.has_free_rec_ptr(LAYOUT_STR));
    assert!(!i.has_free_rec_ptr(10_000));
}

#[test]
fn tail_recursion_fields_are_the_first_recursive_pointers() {
    let mut i = interner();
    let (rec, _) = cons_list(&mut i);
    let tree = UnionLayout::Recursive(vec![vec![LAYOUT_I64], vec![LAYOUT_STR, rec, rec]]);
    assert_eq!(
        CodeGenHelp::union_tail_recursion_fields(&i, &tree),
        Some(vec![None, Some(1)])
    );
    let no_pointer = UnionLayout::Recursive(vec![vec![LAYOUT_I64], vec![LAYOUT_STR]]);
    assert_eq!(CodeGenHelp::union_tail_recursion_fields(&i, &no_pointer), None);
    let flat = UnionLayout::NonRecursive(vec![vec![rec]]);
    assert_eq!(CodeGenHelp::union_tail_recursion_fields(&i, &flat), None);
    let list = UnionLayout::NullableUnwrapped { nullable_id: true, other_fields: vec![rec] };
    assert_eq!(CodeGenHelp::union_tail_recursion_fields(&i, &list), Some(vec![Some(0)]));
}
