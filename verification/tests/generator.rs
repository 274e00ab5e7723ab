use rc_codegen::gen_basic::{
    if_unique, modify_refcount, rc_ptr_from_data_ptr_help, rc_return_stmt, refcount_1_literal,
    refcount_args, refcount_str, tag_mask_literal,
};
use rc_codegen::gen_data::refcount_struct;
use rc_codegen::gen_union::{indexed_fields, tag_switch};
use rc_codegen::helper::{CodeGenHelp, Context, HelperOp, OpKind};
use rc_codegen::interner::LayoutInterner;
use rc_codegen::ir::{
    int_literal, let_lowlevel, lowlevel, BranchInfo, Call, CallType, Expr, Literal, ModifyRc,
    Ownership, Param, Stmt,
};
use rc_codegen::layout::{
    Builtin, InLayout, LambdaSet, Layout, PtrWidth, UnionLayout, LAYOUT_BOOL, LAYOUT_I32,
    LAYOUT_I64, LAYOUT_OPAQUE_PTR, LAYOUT_STR, LAYOUT_U32, LAYOUT_U64, LAYOUT_U8, LAYOUT_UNIT,
};
use rc_codegen::low_level::LowLevel;
use rc_codegen::procs::{
    find_proc_fault, find_rc_fault, generate_next, generate_pending, proc_body, GenerateError,
};
use rc_codegen::refcount::{
    refcount_generic, refcount_reset_proc_body, refcount_resetref_proc_body, refcount_stmt,
};
use rc_codegen::symbol::{IdentIds, JoinPointId, Symbol};

const HOME: u32 = 7;

fn s(n: u64) -> Symbol {
    Symbol::new(HOME, n)
}

fn x() -> Symbol {
    Symbol::new(3, 0)
}

struct Pass {
    root: CodeGenHelp,
    ident_ids: IdentIds,
    interner: LayoutInterner,
}

fn pass_for(target: PtrWidth) -> Pass {
    Pass {
        root: CodeGenHelp::new(HOME, target),
        ident_ids: IdentIds::new(),
        interner: LayoutInterner::new(target),
    }
}

fn pass() -> Pass {
    pass_for(PtrWidth::Bytes8)
}

fn ctx(op: HelperOp) -> Context {
    Context { op, recursive_union: None }
}

fn ret_unit(n: u64) -> Stmt {
    Stmt::Let(s(n), Expr::Struct(vec![]), LAYOUT_UNIT, Box::new(Stmt::Ret(s(n))))
}

fn low(op: LowLevel, arguments: Vec<Symbol>) -> Expr {
    Expr::Call(Call { call_type: CallType::LowLevel { op }, arguments })
}

fn lit(i: i128) -> Expr {
    Expr::Literal(Literal::Int(i))
}

fn let_(symbol: Symbol, expr: Expr, layout: InLayout, next: Stmt) -> Stmt {
    Stmt::Let(symbol, expr, layout, Box::new(next))
}

fn if_(condition: Symbol, ret_layout: InLayout, then: Stmt, otherwise: Stmt) -> Stmt {
    Stmt::Switch {
        cond_symbol: condition,
        cond_layout: LAYOUT_BOOL,
        branches: vec![(
            1,
            BranchInfo::Constructor { scrutinee: condition, layout: LAYOUT_BOOL, tag_id: 1 },
            then,
        )],
        default_branch: (
            BranchInfo::Constructor { scrutinee: condition, layout: LAYOUT_BOOL, tag_id: 0 },
            Box::new(otherwise),
        ),
        ret_layout,
    }
}

fn call(name: Symbol, ret_layout: InLayout, arg_layouts: Vec<InLayout>, arguments: Vec<Symbol>) -> Expr {
    Expr::Call(Call { call_type: CallType::ByName { name, ret_layout, arg_layouts }, arguments })
}

#[test]
fn symbols_are_numbered_in_order() {
    let mut ids = IdentIds::new();
    let root = CodeGenHelp::new(HOME, PtrWidth::Bytes8);
    assert_eq!(ids.len(), 0);
    assert_eq!(root.create_symbol(&mut ids, "a"), s(0));
    assert_eq!(root.create_symbol(&mut ids, "b"), s(1));
    assert_eq!(ids.add_str("c"), 2);
    assert_eq!(ids.len(), 3);
    assert_eq!(ids.name_of(1), Some("b"));
    assert_eq!(ids.name_of(3), None);
    assert_eq!(root.home(), HOME);
    assert_eq!(root.target(), PtrWidth::Bytes8);
    assert_eq!(root.layout_isize(), LAYOUT_I64);
    assert_ne!(Symbol::arg_1(), Symbol::arg_2());
    assert_ne!(Symbol::arg_1(), Symbol::wasm_anonymous_stack_value());
}

#[test]
fn small_builders_build_what_they_say() {
    assert_eq!(int_literal(5), lit(5));
    assert_eq!(lowlevel(LowLevel::Eq, vec![x()]), low(LowLevel::Eq, vec![x()]));
    assert_eq!(
        let_lowlevel(LAYOUT_BOOL, s(1), LowLevel::NumLt, vec![x(), s(0)], Stmt::Ret(s(1))),
        let_(s(1), low(LowLevel::NumLt, vec![x(), s(0)]), LAYOUT_BOOL, Stmt::Ret(s(1)))
    );
    assert_eq!(
        Stmt::if_then_else(s(1), LAYOUT_UNIT, Stmt::Ret(s(2)), Stmt::Ret(s(3))),
        if_(s(1), LAYOUT_UNIT, Stmt::Ret(s(2)), Stmt::Ret(s(3)))
    );
    assert_eq!(HelperOp::DecRef(JoinPointId(x())).kind(), OpKind::DecRef);
    assert!(HelperOp::Dec.is_dec());
    assert!(!HelperOp::DecRef(JoinPointId(x())).is_dec());
    assert!(HelperOp::DecRef(JoinPointId(x())).is_decref());
    assert!(!HelperOp::Inc.is_decref());
}

#[test]
fn return_is_a_jump_where_a_release_is_inlined() {
    let mut p = pass();
    let jp = JoinPointId(x());
    assert_eq!(
        rc_return_stmt(&p.root, &mut p.ident_ids, &ctx(HelperOp::DecRef(jp))),
        Stmt::Jump(jp, vec![])
    );
    assert_eq!(p.ident_ids.len(), 0);
    assert_eq!(rc_return_stmt(&p.root, &mut p.ident_ids, &ctx(HelperOp::Dec)), ret_unit(0));
    assert_eq!(rc_return_stmt(&p.root, &mut p.ident_ids, &ctx(HelperOp::Inc)), ret_unit(1));
}

#[test]
fn arguments_carry_the_amount_of_an_increment() {
    assert_eq!(refcount_args(&ctx(HelperOp::Inc), x()), vec![x(), Symbol::arg_2()]);
    assert_eq!(refcount_args(&ctx(HelperOp::Dec), x()), vec![x()]);
}

#[test]
fn header_is_raised_by_the_amount_or_decremented_with_alignment() {
    let mut p = pass();
    assert_eq!(
        modify_refcount(&p.root, &mut p.ident_ids, &ctx(HelperOp::Inc), x(), 16, Stmt::Ret(x())),
        let_(
            s(0),
            low(LowLevel::RefCountIncDataPtr, vec![x(), Symbol::arg_2()]),
            LAYOUT_UNIT,
            Stmt::Ret(x())
        )
    );
    assert_eq!(
        modify_refcount(&p.root, &mut p.ident_ids, &ctx(HelperOp::Dec), x(), 16, Stmt::Ret(x())),
        let_(
            s(2),
            lit(16),
            LAYOUT_U32,
            let_(s(1), low(LowLevel::RefCountDecDataPtr, vec![x(), s(2)]), LAYOUT_UNIT, Stmt::Ret(x()))
        )
    );
}

#[test]
fn string_body_tests_the_last_word() {
    let mut p = pass();
    let body = refcount_str(&p.root, &mut p.ident_ids, &ctx(HelperOp::Dec));
    let fields = vec![LAYOUT_OPAQUE_PTR, LAYOUT_I64, LAYOUT_I64];
    let then = let_(
        s(3),
        Expr::StructAtIndex { index: 0, field_layouts: fields.clone(), structure: Symbol::arg_1() },
        LAYOUT_I64,
        let_(
            s(6),
            lit(8),
            LAYOUT_U32,
            let_(s(5), low(LowLevel::RefCountDecDataPtr, vec![s(3), s(6)]), LAYOUT_UNIT, ret_unit(4)),
        ),
    );
    let expected = let_(
        s(0),
        Expr::StructAtIndex { index: 2, field_layouts: fields, structure: Symbol::arg_1() },
        LAYOUT_I64,
        let_(
            s(1),
            lit(0),
            LAYOUT_I64,
            let_(
                s(2),
                low(LowLevel::NumGte, vec![s(0), s(1)]),
                LAYOUT_BOOL,
                if_(s(2), LAYOUT_UNIT, then, ret_unit(7)),
            ),
        ),
    );
    assert_eq!(body, expected);
    assert_eq!(p.ident_ids.len(), 8);
}

#[test]
fn unique_test_wraps_the_release_in_a_join_point() {
    let mut p = pass();
    let jp = JoinPointId(x());
    let got = if_unique(&p.root, &mut p.ident_ids, jp, s(50), Stmt::Ret(s(51)), Stmt::Ret(s(52)));
    let expected = let_(
        s(0),
        low(LowLevel::RefCountIsUnique, vec![s(50)]),
        LAYOUT_I64,
        Stmt::Join {
            id: jp,
            parameters: vec![],
            body: Box::new(Stmt::Ret(s(52))),
            remainder: Box::new(if_(s(0), LAYOUT_UNIT, Stmt::Ret(s(51)), Stmt::Jump(jp, vec![]))),
        },
    );
    assert_eq!(got, expected);
}

#[test]
fn header_address_is_found_with_and_without_mask() {
    let mut p = pass();
    let got = rc_ptr_from_data_ptr_help(
        &p.root, &mut p.ident_ids, x(), s(60), true, Stmt::Ret(s(60)), s(61), 33,
    );
    let expected = let_(
        s(0),
        low(LowLevel::PtrCast, vec![x()]),
        LAYOUT_I64,
        let_(
            s(1),
            lit(-8),
            LAYOUT_I64,
            let_(
                s(61),
                low(LowLevel::And, vec![s(0), s(1)]),
                LAYOUT_I64,
                let_(
                    s(2),
                    lit(8),
                    LAYOUT_I64,
                    let_(
                        s(3),
                        low(LowLevel::NumSubSaturated, vec![s(61), s(2)]),
                        LAYOUT_U64,
                        let_(s(60), low(LowLevel::PtrCast, vec![s(3)]), 33, Stmt::Ret(s(60))),
                    ),
                ),
            ),
        ),
    );
    assert_eq!(got, expected);
    let got = rc_ptr_from_data_ptr_help(
        &p.root, &mut p.ident_ids, x(), s(60), false, Stmt::Ret(s(60)), s(61), 33,
    );
    let expected = let_(
        s(61),
        low(LowLevel::PtrCast, vec![x()]),
        LAYOUT_I64,
        let_(
            s(5),
            lit(8),
            LAYOUT_I64,
            let_(
                s(6),
                low(LowLevel::NumSubSaturated, vec![s(61), s(5)]),
                LAYOUT_U64,
                let_(s(60), low(LowLevel::PtrCast, vec![s(6)]), 33, Stmt::Ret(s(60))),
            ),
        ),
    );
    assert_eq!(got, expected);
}

#[test]
fn sentinel_and_mask_follow_the_target() {
    assert_eq!(refcount_1_literal(PtrWidth::Bytes8), i64::MIN as i128);
    assert_eq!(refcount_1_literal(PtrWidth::Bytes4), i32::MIN as i128);
    assert_eq!(tag_mask_literal(PtrWidth::Bytes8), -8);
    assert_eq!(tag_mask_literal(PtrWidth::Bytes4), -4);
}

#[test]
fn increment_marker_binds_the_amount_and_calls() {
    let mut p = pass();
    let mut c = ctx(HelperOp::Dec);
    let got = refcount_stmt(
        &mut p.root, &mut p.ident_ids, &mut c, &mut p.interner, LAYOUT_STR,
        &ModifyRc::Inc(x(), 5), Stmt::Ret(x()),
    );
    let expected = let_(
        s(0),
        lit(5),
        LAYOUT_I64,
        let_(
            s(1),
            call(s(2), LAYOUT_UNIT, vec![LAYOUT_STR, LAYOUT_I64], vec![x(), s(0)]),
            LAYOUT_UNIT,
            Stmt::Ret(x()),
        ),
    );
    assert_eq!(got, expected);
    assert_eq!(c.op, HelperOp::Inc);
    assert_eq!(p.root.num_specializations(), 1);
    let filed = p.root.specialization(0);
    assert_eq!((filed.op, filed.layout, filed.recursive_union, filed.symbol), (OpKind::Inc, LAYOUT_STR, None, s(2)));
    assert!(filed.proc.is_none());
}

#[test]
fn decrement_marker_calls() {
    let mut p = pass();
    let mut c = ctx(HelperOp::Dec);
    let got = refcount_stmt(
        &mut p.root, &mut p.ident_ids, &mut c, &mut p.interner, LAYOUT_STR,
        &ModifyRc::Dec(x()), Stmt::Ret(x()),
    );
    let expected = let_(s(0), call(s(1), LAYOUT_UNIT, vec![LAYOUT_STR], vec![x()]), LAYOUT_UNIT, Stmt::Ret(x()));
    assert_eq!(got, expected);
}

#[test]
fn decref_of_a_string_is_a_decrement() {
    let mut p = pass();
    let jp = JoinPointId(Symbol::new(3, 1));
    let mut c = ctx(HelperOp::DecRef(jp));
    let got = refcount_stmt(
        &mut p.root, &mut p.ident_ids, &mut c, &mut p.interner, LAYOUT_STR,
        &ModifyRc::DecRef(x()), Stmt::Ret(x()),
    );
    let expected = let_(s(0), call(s(1), LAYOUT_UNIT, vec![LAYOUT_STR], vec![x()]), LAYOUT_UNIT, Stmt::Ret(x()));
    assert_eq!(got, expected);
    assert_eq!(c.op, HelperOp::Dec);
    assert_eq!(p.root.specialization(0).op, OpKind::Dec);
}

#[test]
fn decref_of_values_without_header_is_nothing() {
    let mut p = pass();
    let jp = JoinPointId(Symbol::new(3, 1));
    let record = p.interner.insert(Layout::Struct { field_layouts: vec![LAYOUT_STR] });
    let flat = p.interner.insert(Layout::Union(UnionLayout::NonRecursive(vec![vec![LAYOUT_STR]])));
    for layout in [record, flat] {
        let mut c = ctx(HelperOp::DecRef(jp));
        let got = refcount_stmt(
            &mut p.root, &mut p.ident_ids, &mut c, &mut p.interner, layout,
            &ModifyRc::DecRef(x()), Stmt::Ret(x()),
        );
        assert_eq!(got, Stmt::Ret(x()));
        assert_eq!(c.op, HelperOp::DecRef(jp));
    }
    assert_eq!(p.ident_ids.len(), 0);
    assert_eq!(p.root.num_specializations(), 0);
}

#[test]
fn decref_of_a_box_is_inlined_before_the_continuation() {
    let mut p = pass();
    let jp = JoinPointId(Symbol::new(3, 1));
    let boxed = p.interner.insert(Layout::Boxed(LAYOUT_STR));
    let mut c = ctx(HelperOp::DecRef(jp));
    let got = refcount_stmt(
        &mut p.root, &mut p.ident_ids, &mut c, &mut p.interner, boxed,
        &ModifyRc::DecRef(x()), Stmt::Ret(x()),
    );
    let expected = Stmt::Join {
        id: jp,
        parameters: vec![],
        body: Box::new(Stmt::Ret(x())),
        remainder: Box::new(let_(
            s(1),
            lit(8),
            LAYOUT_U32,
            let_(s(0), low(LowLevel::RefCountDecDataPtr, vec![x(), s(1)]), LAYOUT_UNIT, Stmt::Jump(jp, vec![])),
        )),
    };
    assert_eq!(got, expected);
    assert_eq!(p.root.num_specializations(), 0);
}

#[test]
fn requesting_a_procedure_twice_gives_the_same_name() {
    let mut p = pass();
    let list = p.interner.insert(Layout::Builtin(Builtin::List(LAYOUT_STR)));
    let dec = ctx(HelperOp::Dec);
    let a = p.root.find_or_create_proc(&mut p.ident_ids, &dec, &p.interner, list);
    let made = p.ident_ids.len();
    let b = p.root.find_or_create_proc(&mut p.ident_ids, &dec, &p.interner, list);
    assert_eq!(a, b);
    assert_eq!(p.ident_ids.len(), made);
    assert_eq!(p.root.num_specializations(), 1);
    let inc = p.root.find_or_create_proc(&mut p.ident_ids, &ctx(HelperOp::Inc), &p.interner, list);
    assert_ne!(inc, a);
    let other = p.root.find_or_create_proc(&mut p.ident_ids, &dec, &p.interner, LAYOUT_STR);
    assert_ne!(other, a);
    assert_ne!(other, inc);
    assert_eq!(p.root.num_specializations(), 3);
    // the join point of an inlined release is no part of what is looked up
    let r1 = p.root.find_or_create_proc(
        &mut p.ident_ids, &ctx(HelperOp::DecRef(JoinPointId(s(100)))), &p.interner, list,
    );
    let r2 = p.root.find_or_create_proc(
        &mut p.ident_ids, &ctx(HelperOp::DecRef(JoinPointId(s(200)))), &p.interner, list,
    );
    assert_eq!(r1, r2);
    // the enclosing union matters only where the layout depends on it
    let inside = Context { op: HelperOp::Dec, recursive_union: Some(list) };
    assert_eq!(p.root.find_or_create_proc(&mut p.ident_ids, &inside, &p.interner, list), a);
}

fn cons_list(i: &mut LayoutInterner) -> (InLayout, InLayout) {
    let id = i.len();
    let rec = i.insert(Layout::RecursivePointer(id + 1));
    let list = i.insert(Layout::Union(UnionLayout::NullableUnwrapped {
        nullable_id: false,
        other_fields: vec![LAYOUT_I64, rec],
    }));
    (rec, list)
}

#[test]
fn recursive_pointer_is_called_as_the_union_around_it() {
    let mut p = pass();
    let (rec, cons) = cons_list(&mut p.interner);
    let inside = Context { op: HelperOp::Dec, recursive_union: Some(cons) };
    let got = p.root.call_specialized_op(&mut p.ident_ids, &inside, &p.interner, rec, vec![x()]);
    assert_eq!(got, call(s(0), LAYOUT_UNIT, vec![cons], vec![x()]));
    let filed = p.root.specialization(0);
    assert_eq!((filed.layout, filed.recursive_union), (cons, None));
    // a layout that holds the pointer is filed under the union
    let list_of_rec = p.interner.insert(Layout::Builtin(Builtin::List(rec)));
    p.root.call_specialized_op(&mut p.ident_ids, &inside, &p.interner, list_of_rec, vec![x()]);
    let filed = p.root.specialization(1);
    assert_eq!((filed.layout, filed.recursive_union), (list_of_rec, Some(cons)));
    // a reset returns the value's layout
    let reset = Context { op: HelperOp::Reset, recursive_union: None };
    let got = p.root.call_specialized_op(&mut p.ident_ids, &reset, &p.interner, cons, vec![x()]);
    assert_eq!(got, call(s(2), cons, vec![cons], vec![x()]));
}

#[test]
fn struct_body_releases_the_last_field_first() {
    let mut p = pass();
    let list = p.interner.insert(Layout::Builtin(Builtin::List(LAYOUT_I64)));
    let fields = vec![LAYOUT_STR, LAYOUT_I64, list];
    let got = refcount_struct(&mut p.root, &mut p.ident_ids, &ctx(HelperOp::Dec), &p.interner, &fields, x());
    let expected = let_(
        s(4),
        Expr::StructAtIndex { index: 2, field_layouts: fields.clone(), structure: x() },
        list,
        let_(
            s(5),
            call(s(6), LAYOUT_UNIT, vec![list], vec![s(4)]),
            LAYOUT_UNIT,
            let_(
                s(1),
                Expr::StructAtIndex { index: 0, field_layouts: fields.clone(), structure: x() },
                LAYOUT_STR,
                let_(s(2), call(s(3), LAYOUT_UNIT, vec![LAYOUT_STR], vec![s(1)]), LAYOUT_UNIT, ret_unit(0)),
            ),
        ),
    );
    assert_eq!(got, expected);
}

#[test]
fn fields_are_listed_with_their_places() {
    assert_eq!(indexed_fields(&vec![5, 6, 7], None), vec![(0, 5), (1, 6), (2, 7)]);
    assert_eq!(indexed_fields(&vec![5, 6, 7], Some(1)), vec![(0, 5), (2, 7)]);
    assert_eq!(indexed_fields(&vec![], Some(0)), vec![]);
}

#[test]
fn last_arm_becomes_the_default() {
    let arms = vec![
        (0, BranchInfo::Unknown, Stmt::Ret(s(0))),
        (1, BranchInfo::Unknown, Stmt::Ret(s(1))),
    ];
    assert_eq!(
        tag_switch(x(), LAYOUT_U8, arms),
        Stmt::Switch {
            cond_symbol: x(),
            cond_layout: LAYOUT_U8,
            branches: vec![(0, BranchInfo::Unknown, Stmt::Ret(s(0)))],
            default_branch: (BranchInfo::Unknown, Box::new(Stmt::Ret(s(1)))),
            ret_layout: LAYOUT_UNIT,
        }
    );
}

#[test]
fn decrement_of_a_cons_list_is_a_loop() {
    let mut p = pass();
    let (rec, cons) = cons_list(&mut p.interner);
    let mut c = ctx(HelperOp::Dec);
    let body = refcount_generic(&mut p.root, &mut p.ident_ids, &mut c, &mut p.interner, cons, x());
    assert_eq!(c, ctx(HelperOp::Dec));
    // no procedure is requested: the next value is reached by a jump
    assert_eq!(p.root.num_specializations(), 0);
    let borrowed = |symbol| Param { symbol, ownership: Ownership::Borrowed, layout: cons };
    let after_release = let_(
        s(4),
        low(LowLevel::PtrCast, vec![s(2)]),
        LAYOUT_I64,
        Stmt::Switch {
            cond_symbol: s(4),
            cond_layout: LAYOUT_I64,
            branches: vec![(0, BranchInfo::Unknown, ret_unit(5))],
            default_branch: (BranchInfo::Unknown, Box::new(Stmt::Jump(JoinPointId(s(0)), vec![s(2)]))),
            ret_layout: LAYOUT_UNIT,
        },
    );
    let release = let_(
        s(7),
        lit(8),
        LAYOUT_U32,
        let_(s(6), low(LowLevel::RefCountDecDataPtr, vec![s(1), s(7)]), LAYOUT_UNIT, after_release),
    );
    let jp = JoinPointId(s(8));
    let null_arm = let_(s(9), Expr::NullPointer, cons, Stmt::Jump(jp, vec![s(9)]));
    let cons_arm = let_(
        s(10),
        Expr::UnionAtIndex { structure: s(1), tag_id: 1, union_layout: cons, index: 1 },
        rec,
        Stmt::Jump(jp, vec![s(10)]),
    );
    let switch = Stmt::Switch {
        cond_symbol: s(3),
        cond_layout: LAYOUT_BOOL,
        branches: vec![(0, BranchInfo::Unknown, null_arm)],
        default_branch: (BranchInfo::Unknown, Box::new(cons_arm)),
        ret_layout: LAYOUT_UNIT,
    };
    let shared = let_(s(12), Expr::NullPointer, cons, Stmt::Jump(jp, vec![s(12)]));
    let expected = Stmt::Join {
        id: JoinPointId(s(0)),
        parameters: vec![borrowed(s(1))],
        body: Box::new(let_(
            s(3),
            Expr::GetTagId { structure: s(1), union_layout: cons },
            LAYOUT_BOOL,
            Stmt::Join {
                id: jp,
                parameters: vec![borrowed(s(2))],
                body: Box::new(release),
                remainder: Box::new(let_(
                    s(11),
                    low(LowLevel::RefCountIsUnique, vec![s(1)]),
                    LAYOUT_BOOL,
                    if_(s(11), LAYOUT_UNIT, switch, shared),
                )),
            },
        )),
        remainder: Box::new(Stmt::Jump(JoinPointId(s(0)), vec![x()])),
    };
    assert_eq!(body, expected);
}

#[test]
fn increment_of_a_recursive_union_goes_to_the_header() {
    let mut p = pass();
    let (_, cons) = cons_list(&mut p.interner);
    let mut c = ctx(HelperOp::Inc);
    let body = refcount_generic(&mut p.root, &mut p.ident_ids, &mut c, &mut p.interner, cons, x());
    let jp = JoinPointId(s(3));
    let expected = let_(
        s(0),
        Expr::GetTagId { structure: x(), union_layout: cons },
        LAYOUT_BOOL,
        Stmt::Join {
            id: jp,
            parameters: vec![],
            body: Box::new(let_(
                s(2),
                low(LowLevel::RefCountIncDataPtr, vec![x(), Symbol::arg_2()]),
                LAYOUT_UNIT,
                ret_unit(1),
            )),
            remainder: Box::new(Stmt::Jump(jp, vec![])),
        },
    );
    assert_eq!(body, expected);
}

#[test]
fn scalar_and_wrapper_bodies() {
    let mut p = pass();
    let mut c = ctx(HelperOp::Dec);
    let body = refcount_generic(&mut p.root, &mut p.ident_ids, &mut c, &mut p.interner, LAYOUT_U8, x());
    assert_eq!(body, ret_unit(0));
    let lambda = p.interner.insert(Layout::LambdaSet(LambdaSet { representation: LAYOUT_I32 }));
    let body = refcount_generic(&mut p.root, &mut p.ident_ids, &mut c, &mut p.interner, lambda, x());
    assert_eq!(body, ret_unit(1));
}

#[test]
fn list_body_interns_the_box_of_its_element() {
    let mut p = pass();
    let list = p.interner.insert(Layout::Builtin(Builtin::List(LAYOUT_STR)));
    let before = p.interner.len();
    let mut c = ctx(HelperOp::Dec);
    let body = refcount_generic(&mut p.root, &mut p.ident_ids, &mut c, &mut p.interner, list, x());
    assert_eq!(p.interner.len(), before + 1);
    assert_eq!(*p.interner.get(before), Layout::Boxed(LAYOUT_STR));
    // the elements are visited through the procedure for strings
    assert_eq!(p.root.num_specializations(), 1);
    assert_eq!(p.root.specialization(0).layout, LAYOUT_STR);
    match body {
        Stmt::Let(len, expr, layout, _) => {
            assert_eq!(len, s(0));
            assert_eq!(expr, low(LowLevel::ListLen, vec![x()]));
            assert_eq!(layout, LAYOUT_I64);
        }
        _ => panic!("a let was expected"),
    }
}

#[test]
fn reset_bodies_on_a_32_bit_target_use_its_words() {
    let mut p = pass_for(PtrWidth::Bytes4);
    let (rec_of_cons, cons) = cons_list(&mut p.interner);
    let before = p.interner.len();
    let mut c = ctx(HelperOp::ResetRef);
    let body = refcount_resetref_proc_body(&mut p.root, &mut p.ident_ids, &mut c, &mut p.interner, cons, x());
    assert_eq!(c, Context { op: HelperOp::Dec, recursive_union: Some(cons) });
    // the pointer to the union was interned with the union
    assert_eq!(p.interner.len(), before);
    assert_eq!(*p.interner.get(rec_of_cons), Layout::RecursivePointer(cons));
    let shared = let_(
        s(5),
        call(s(6), LAYOUT_UNIT, vec![cons], vec![x()]),
        LAYOUT_UNIT,
        let_(s(7), Expr::NullPointer, cons, Stmt::Ret(s(7))),
    );
    let test = let_(
        s(1),
        Expr::ExprUnbox { symbol: s(0) },
        LAYOUT_I32,
        let_(
            s(2),
            lit(i32::MIN as i128),
            LAYOUT_I32,
            let_(
                s(3),
                low(LowLevel::Eq, vec![s(1), s(2)]),
                LAYOUT_BOOL,
                if_(s(3), cons, Stmt::Ret(s(4)), shared),
            ),
        ),
    );
    let expected = let_(
        s(8),
        low(LowLevel::PtrCast, vec![x()]),
        LAYOUT_I32,
        let_(
            s(9),
            lit(-4),
            LAYOUT_I32,
            let_(
                s(4),
                low(LowLevel::And, vec![s(8), s(9)]),
                LAYOUT_I32,
                let_(
                    s(10),
                    lit(4),
                    LAYOUT_I32,
                    let_(
                        s(11),
                        low(LowLevel::NumSubSaturated, vec![s(4), s(10)]),
                        LAYOUT_U32,
                        let_(s(0), low(LowLevel::PtrCast, vec![s(11)]), rec_of_cons, test),
                    ),
                ),
            ),
        ),
    );
    assert_eq!(body, expected);
}

#[test]
fn reset_body_releases_fields_of_a_unique_value() {
    let mut p = pass();
    let holder = p.interner.insert(Layout::Union(UnionLayout::NonNullableUnwrapped(vec![LAYOUT_STR])));
    let mut c = ctx(HelperOp::Reset);
    let body = refcount_reset_proc_body(&mut p.root, &mut p.ident_ids, &mut c, &mut p.interner, holder, x());
    assert_eq!(c, Context { op: HelperOp::Dec, recursive_union: Some(holder) });
    // the string's decrement for the unique way, the union's for the shared
    assert_eq!(p.root.num_specializations(), 2);
    assert_eq!((p.root.specialization(0).op, p.root.specialization(0).layout), (OpKind::Dec, LAYOUT_STR));
    assert_eq!((p.root.specialization(1).op, p.root.specialization(1).layout), (OpKind::Dec, holder));
    assert!(matches!(body, Stmt::Let(_, _, _, _)));
}

#[test]
fn faults_are_told_apart() {
    let mut p = pass();
    let (rec, cons) = cons_list(&mut p.interner);
    let empty = p.interner.insert(Layout::Union(UnionLayout::NonRecursive(vec![])));
    let stray = p.interner.insert(Layout::Struct { field_layouts: vec![LAYOUT_I64, rec] });
    let wrapped = p.interner.insert(Layout::LambdaSet(LambdaSet { representation: rec }));
    let dec = ctx(HelperOp::Dec);
    let inside = Context { op: HelperOp::Dec, recursive_union: Some(cons) };
    assert_eq!(find_rc_fault(&p.interner, cons, &dec), None);
    assert_eq!(find_rc_fault(&p.interner, LAYOUT_STR, &dec), None);
    assert_eq!(find_rc_fault(&p.interner, 9999, &dec), Some(GenerateError::UnknownLayout(9999)));
    assert_eq!(
        find_rc_fault(&p.interner, rec, &inside),
        Some(GenerateError::ReachedRecursivePointerAtTopLevel(rec))
    );
    assert_eq!(
        find_rc_fault(&p.interner, wrapped, &inside),
        Some(GenerateError::ReachedRecursivePointerAtTopLevel(rec))
    );
    assert_eq!(
        find_rc_fault(&p.interner, stray, &dec),
        Some(GenerateError::ReachedRecursivePointerAtTopLevel(stray))
    );
    assert_eq!(find_rc_fault(&p.interner, stray, &inside), None);
    assert_eq!(find_rc_fault(&p.interner, empty, &dec), Some(GenerateError::UnionArmMissing(empty)));
    assert_eq!(
        find_proc_fault(&p.interner, OpKind::Reset, LAYOUT_STR, None),
        Some(GenerateError::ResetOnNonUnion(LAYOUT_STR))
    );
    assert_eq!(
        find_proc_fault(&p.interner, OpKind::ResetRef, 9999, None),
        Some(GenerateError::UnknownLayout(9999))
    );
    assert_eq!(
        find_proc_fault(&p.interner, OpKind::Reset, empty, None),
        Some(GenerateError::UnionArmMissing(empty))
    );
    assert_eq!(find_proc_fault(&p.interner, OpKind::ResetRef, empty, None), None);
    assert_eq!(find_proc_fault(&p.interner, OpKind::Reset, cons, None), None);
    assert_eq!(find_proc_fault(&p.interner, OpKind::Inc, cons, None), None);
}

#[test]
fn a_fault_stops_the_pass_and_changes_nothing() {
    let mut p = pass();
    let reset = Context { op: HelperOp::Reset, recursive_union: None };
    p.root.call_specialized_op(&mut p.ident_ids, &reset, &p.interner, LAYOUT_STR, vec![x()]);
    let made = p.ident_ids.len();
    assert_eq!(
        generate_next(&mut p.root, &mut p.ident_ids, &mut p.interner),
        Err(GenerateError::ResetOnNonUnion(LAYOUT_STR))
    );
    assert_eq!(p.ident_ids.len(), made);
    assert!(p.root.specialization(0).proc.is_none());
    assert_eq!(
        generate_pending(&mut p.root, &mut p.ident_ids, &mut p.interner, 10),
        Err(GenerateError::ResetOnNonUnion(LAYOUT_STR))
    );
}

#[test]
fn bodies_are_generated_in_order_of_request() {
    let mut p = pass();
    let list = p.interner.insert(Layout::Builtin(Builtin::List(LAYOUT_STR)));
    assert_eq!(generate_next(&mut p.root, &mut p.ident_ids, &mut p.interner), Ok(false));
    assert_eq!(generate_pending(&mut p.root, &mut p.ident_ids, &mut p.interner, 0), Ok(true));
    let name = p.root.find_or_create_proc(&mut p.ident_ids, &ctx(HelperOp::Dec), &p.interner, list);
    assert_eq!(p.root.next_pending(), Some(0));
    assert_eq!(generate_pending(&mut p.root, &mut p.ident_ids, &mut p.interner, 0), Ok(false));
    assert_eq!(generate_next(&mut p.root, &mut p.ident_ids, &mut p.interner), Ok(true));
    // the list's body asked for the procedure for strings
    assert_eq!(p.root.num_specializations(), 2);
    assert_eq!(p.root.next_pending(), Some(1));
    let first = p.root.specialization(0).proc.as_ref().unwrap();
    assert_eq!(first.name, name);
    assert_eq!(first.args, vec![(list, Symbol::arg_1())]);
    assert_eq!(first.ret_layout, LAYOUT_UNIT);
    assert_eq!(generate_pending(&mut p.root, &mut p.ident_ids, &mut p.interner, 1), Ok(true));
    assert_eq!(p.root.next_pending(), None);
    assert_eq!(generate_next(&mut p.root, &mut p.ident_ids, &mut p.interner), Ok(false));
}

#[test]
fn procedure_bodies_by_operation() {
    let mut p = pass();
    let boxed = p.interner.insert(Layout::Boxed(LAYOUT_I64));
    let inc = proc_body(&mut p.root, &mut p.ident_ids, &mut p.interner, OpKind::Inc, boxed, None);
    assert_eq!(
        inc,
        let_(
            s(1),
            low(LowLevel::RefCountIncDataPtr, vec![Symbol::arg_1(), Symbol::arg_2()]),
            LAYOUT_UNIT,
            ret_unit(0)
        )
    );
    let decref = proc_body(&mut p.root, &mut p.ident_ids, &mut p.interner, OpKind::DecRef, boxed, None);
    let jp = JoinPointId(s(2));
    assert_eq!(
        decref,
        Stmt::Join {
            id: jp,
            parameters: vec![],
            body: Box::new(ret_unit(3)),
            remainder: Box::new(let_(
                s(5),
                lit(8),
                LAYOUT_U32,
                let_(
                    s(4),
                    low(LowLevel::RefCountDecDataPtr, vec![Symbol::arg_1(), s(5)]),
                    LAYOUT_UNIT,
                    Stmt::Jump(jp, vec![])
                ),
            )),
        }
    );
    let name = p.root.find_or_create_proc(&mut p.ident_ids, &ctx(HelperOp::Inc), &p.interner, boxed);
    assert_eq!(generate_next(&mut p.root, &mut p.ident_ids, &mut p.interner), Ok(true));
    let filed = p.root.specialization(0).proc.as_ref().unwrap();
    assert_eq!(filed.name, name);
    assert_eq!(filed.args, vec![(boxed, Symbol::arg_1()), (LAYOUT_I64, Symbol::arg_2())]);
}
