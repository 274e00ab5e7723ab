//! The entry points of the generator: the rewriting of a reference-count
//! marker, the body of the procedure for any layout, and the bodies of the
//! two reset procedures.

use vstd::prelude::*;
use crate::symbol::{Symbol, IdentIds};
use crate::low_level::LowLevel;
use crate::layout::{
    InLayout, Layout, LayoutV, Builtin, UnionLayout, LAYOUT_UNIT, LAYOUT_BOOL, MAX_TAGS, extends,
};
use crate::interner::LayoutInterner;
use crate::ir::{
    Expr, ExprV, Stmt, StmtV, BranchInfo, ModifyRc, let_v, let_lowlevel_v, int_v, if_then_else_v,
    join_v, branches_view, syms1, syms2, let_lowlevel, int_literal,
};
use crate::helper::{
    CodeGenHelp, Context, HelperOp, GenV, gen_state, gen_wf, fresh, skip, with_idents, insert_v,
    child_ready, fields_ready, call_specialized_op_v,
};
use crate::gen_basic::{
    rc_return_stmt_v, refcount_str_v, rc_ptr_from_data_ptr_v, refcount_1_encoded, modifies_header,
    rc_return_stmt, refcount_str, rc_ptr_from_data_ptr_help, refcount_1_literal,
};
use crate::gen_data::{
    refcount_struct_v, refcount_list_v, refcount_boxed_v, refcount_struct, refcount_list,
    refcount_boxed,
};
use crate::gen_union::{
    tags_ready, has_arm, inside_union, refcount_union_contents_v, refcount_union_v,
    refcount_union_nonrec, refcount_union_rec, refcount_union_tailrec, refcount_union_contents,
};

verus! {

/// Code for the layout can be generated under `ctx`: the layout exists and
/// is no `RecursivePointer`, a union has an arm, and a `RecursivePointer`
/// among the children that get a call stands inside a recursive union.
pub open spec fn rc_ready(ls: Seq<LayoutV>, layout: InLayout, ctx: Context) -> bool
    decreases layout,
{
    layout < ls.len() && match ls[layout as int] {
        LayoutV::Builtin(Builtin::List(elem)) => child_ready(ls, elem, ctx),
        LayoutV::Builtin(_) => true,
        LayoutV::Struct { field_layouts } => fields_ready(ls, field_layouts, ctx),
        LayoutV::Union(u) => has_arm(u) && tags_ready(ls, u.tags(), inside_union(ctx, layout, u)),
        LayoutV::LambdaSet(l) => l.representation < layout && rc_ready(
            ls,
            l.representation,
            ctx,
        ),
        LayoutV::RecursivePointer(_) => false,
        LayoutV::Boxed(inner) => child_ready(ls, inner, ctx),
    }
}

/// The body of the procedure for the operation of `ctx` on a value
/// `structure` of the given layout. A scalar needs nothing; a wrapper is
/// treated as what it wraps.
pub open spec fn refcount_generic_v(g: GenV, ctx: Context, layout: InLayout, structure: Symbol) -> (
    StmtV,
    GenV,
)
    decreases layout,
{
    if layout >= g.layouts.len() {
        (StmtV::Ret(structure), g)
    } else {
        match g.layouts[layout as int] {
            LayoutV::Builtin(Builtin::Str) => {
                let (stmt, n) = refcount_str_v(g.help.home, g.help.target, g.idents, ctx);
                (stmt, with_idents(g, n))
            },
            LayoutV::Builtin(Builtin::List(elem)) => refcount_list_v(g, ctx, elem, structure),
            LayoutV::Builtin(_) => {
                let (stmt, n) = rc_return_stmt_v(g.help.home, g.idents, ctx);
                (stmt, with_idents(g, n))
            },
            LayoutV::Struct { field_layouts } => refcount_struct_v(
                g,
                ctx,
                field_layouts,
                structure,
            ),
            LayoutV::Union(u) => refcount_union_v(g, ctx, layout, u, structure),
            LayoutV::LambdaSet(l) => if l.representation < layout {
                refcount_generic_v(g, ctx, l.representation, structure)
            } else {
                (StmtV::Ret(structure), g)
            },
            LayoutV::RecursivePointer(_) => (StmtV::Ret(structure), g),
            LayoutV::Boxed(inner) => refcount_boxed_v(g, ctx, layout, inner, structure),
        }
    }
}

/// The call of the procedure for the operation of `ctx` on `structure`, with
/// the amount first bound to a constant for an increment; then `following`.
pub open spec fn call_proc_v(
    g: GenV,
    ctx: Context,
    layout: InLayout,
    structure: Symbol,
    amount: Option<u64>,
    following: StmtV,
) -> (StmtV, GenV) {
    match amount {
        Some(n) => {
            let amount_sym = fresh(g, 0);
            let call_result_empty = fresh(g, 1);
            let (call_expr, g1) = call_specialized_op_v(
                skip(g, 2),
                ctx,
                layout,
                seq![structure, amount_sym],
            );
            (
                let_v(
                    amount_sym,
                    int_v(n as i128),
                    g.help.target.layout_isize(),
                    let_v(call_result_empty, call_expr, LAYOUT_UNIT, following),
                ),
                g1,
            )
        },
        None => {
            let call_result_empty = fresh(g, 0);
            let (call_expr, g1) = call_specialized_op_v(skip(g, 1), ctx, layout, seq![structure]);
            (let_v(call_result_empty, call_expr, LAYOUT_UNIT, following), g1)
        },
    }
}

/// A release without descending does nothing for this layout: the value has
/// no header of its own.
pub open spec fn decref_is_noop(l: LayoutV) -> bool {
    l is Struct || (l matches LayoutV::Union(u) && u is NonRecursive)
}

/// The context with another operation.
pub open spec fn with_op(ctx: Context, op: HelperOp) -> Context {
    Context { op, ..ctx }
}

/// The context in which a marker is rewritten: an increment or a decrement
/// sets the operation; a release without descending is a decrement for a
/// string, which has no children, and keeps the context otherwise.
pub open spec fn refcount_stmt_ctx(
    g: GenV,
    ctx: Context,
    layout: InLayout,
    modify: ModifyRc,
) -> Context {
    match modify {
        ModifyRc::Inc(_, _) => with_op(ctx, HelperOp::Inc),
        ModifyRc::Dec(_) => with_op(ctx, HelperOp::Dec),
        ModifyRc::DecRef(_) => if g.layouts[layout as int] == LayoutV::Builtin(Builtin::Str) {
            with_op(ctx, HelperOp::Dec)
        } else {
            ctx
        },
    }
}

/// The code that stands for a marker on a value of the given layout, before
/// `following`. An increment and a decrement become a call of the
/// procedure. A release without descending becomes the same call for a
/// string, nothing for a value without a header, and else the body of the
/// release itself, which leaves through the join point that holds
/// `following`.
pub open spec fn refcount_stmt_v(
    g: GenV,
    ctx: Context,
    layout: InLayout,
    modify: ModifyRc,
    following: StmtV,
) -> (StmtV, GenV) {
    let ctx1 = refcount_stmt_ctx(g, ctx, layout, modify);
    match modify {
        ModifyRc::Inc(structure, amount) => call_proc_v(
            g,
            ctx1,
            layout,
            structure,
            Some(amount),
            following,
        ),
        ModifyRc::Dec(structure) => call_proc_v(g, ctx1, layout, structure, None, following),
        ModifyRc::DecRef(structure) => {
            if g.layouts[layout as int] == LayoutV::Builtin(Builtin::Str) {
                call_proc_v(g, ctx1, layout, structure, None, following)
            } else if decref_is_noop(g.layouts[layout as int]) {
                (following, g)
            } else {
                match ctx.op {
                    HelperOp::DecRef(jp_decref) => {
                        let (rc_stmt, g1) = refcount_generic_v(g, ctx, layout, structure);
                        (join_v(jp_decref, Seq::empty(), following, rc_stmt), g1)
                    },
                    _ => (following, g),
                }
            }
        },
    }
}

/// What the rewriting of a marker asks of its arguments.
pub open spec fn refcount_stmt_ready(
    ls: Seq<LayoutV>,
    ctx: Context,
    layout: InLayout,
    modify: ModifyRc,
) -> bool {
    &&& layout < ls.len()
    &&& child_ready(ls, layout, ctx)
    &&& modify is DecRef && ls[layout as int] != LayoutV::Builtin(Builtin::Str) && !decref_is_noop(
        ls[layout as int],
    ) ==> ctx.op is DecRef && rc_ready(ls, layout, ctx)
}

/// The test of the header and the two ways on from it, shared by the two
/// reset procedures: `rc_ptr` is found from `structure`, the header is read
/// and compared with the unique sentinel, and `if_stmt` decides on
/// `is_unique`.
pub open spec fn unique_test_v(
    g: GenV,
    rc_ptr: Symbol,
    rc: Symbol,
    refcount_1: Symbol,
    is_unique: Symbol,
    addr: Symbol,
    structure: Symbol,
    recursion_ptr: InLayout,
    if_stmt: StmtV,
) -> (StmtV, GenV) {
    let layout_isize = g.help.target.layout_isize();
    let rc_stmt = let_v(
        rc,
        ExprV::ExprUnbox { symbol: rc_ptr },
        layout_isize,
        let_v(
            refcount_1,
            int_v(refcount_1_encoded(g.help.target)),
            layout_isize,
            let_lowlevel_v(LAYOUT_BOOL, is_unique, LowLevel::Eq, seq![rc, refcount_1], if_stmt),
        ),
    );
    let (stmt, n) = rc_ptr_from_data_ptr_v(
        g.help.home,
        g.help.target,
        g.idents,
        structure,
        rc_ptr,
        true,
        rc_stmt,
        addr,
        recursion_ptr,
    );
    (stmt, with_idents(g, n))
}

/// The way on for a shared value: it is decremented as usual, and the null
/// pointer is returned.
pub open spec fn reset_shared_v(g: GenV, ctx: Context, layout: InLayout, structure: Symbol) -> (
    StmtV,
    GenV,
) {
    let decrement_unit = fresh(g, 0);
    let (decrement_expr, g1) = call_specialized_op_v(skip(g, 1), ctx, layout, seq![structure]);
    let null = fresh(g1, 0);
    (
        let_v(
            decrement_unit,
            decrement_expr,
            LAYOUT_UNIT,
            let_v(null, ExprV::NullPointer, layout, StmtV::Ret(null)),
        ),
        skip(g1, 1),
    )
}

/// The context in which the children of a value that is reset are released.
pub open spec fn reset_ctx(layout: InLayout) -> Context {
    Context { op: HelperOp::Dec, recursive_union: Some(layout) }
}

/// The body of the reset procedure for the union `layout`. Where the value
/// has one reference its fields are released and the address of its data,
/// without the tag id, is returned for reuse; where it is shared it is
/// decremented and null is returned.
pub open spec fn refcount_reset_proc_body_v(g: GenV, layout: InLayout, structure: Symbol) -> (
    StmtV,
    GenV,
) {
    let u = g.layouts[layout as int]->Union_0;
    let ctx = reset_ctx(layout);
    let rc_ptr = fresh(g, 0);
    let rc = fresh(g, 1);
    let refcount_1 = fresh(g, 2);
    let is_unique = fresh(g, 3);
    let addr = fresh(g, 4);
    let (recursion_ptr, g1) = insert_v(skip(g, 5), LayoutV::RecursivePointer(layout));
    let tag_id_sym = fresh(g1, 0);
    let (rc_contents_stmt, g2) = refcount_union_contents_v(
        skip(g1, 1),
        ctx,
        layout,
        u,
        structure,
        tag_id_sym,
        false,
        StmtV::Ret(addr),
    );
    let then_stmt = let_v(
        tag_id_sym,
        ExprV::GetTagId { structure, union_layout: layout },
        u.tag_id_layout(),
        rc_contents_stmt,
    );
    let (else_stmt, g3) = reset_shared_v(g2, ctx, layout, structure);
    let if_stmt = StmtV::Switch {
        cond_symbol: is_unique,
        cond_layout: LAYOUT_BOOL,
        branches: seq![(1u64, BranchInfo::Unknown, then_stmt)],
        default_branch: (BranchInfo::Unknown, Box::new(else_stmt)),
        ret_layout: layout,
    };
    unique_test_v(g3, rc_ptr, rc, refcount_1, is_unique, addr, structure, recursion_ptr, if_stmt)
}

/// The body of the reset procedure that keeps the children: as
/// `refcount_reset_proc_body_v`, but a value with one reference is returned
/// as it is, because the caller will overwrite its fields.
pub open spec fn refcount_resetref_proc_body_v(g: GenV, layout: InLayout, structure: Symbol) -> (
    StmtV,
    GenV,
) {
    let ctx = reset_ctx(layout);
    let rc_ptr = fresh(g, 0);
    let rc = fresh(g, 1);
    let refcount_1 = fresh(g, 2);
    let is_unique = fresh(g, 3);
    let addr = fresh(g, 4);
    let (recursion_ptr, g1) = insert_v(skip(g, 5), LayoutV::RecursivePointer(layout));
    let (else_stmt, g2) = reset_shared_v(g1, ctx, layout, structure);
    let if_stmt = if_then_else_v(is_unique, layout, StmtV::Ret(addr), else_stmt);
    unique_test_v(g2, rc_ptr, rc, refcount_1, is_unique, addr, structure, recursion_ptr, if_stmt)
}

/// Generates the body of the procedure for a union, in the form that fits
/// its shape and the operation.
pub fn refcount_union(
    root: &mut CodeGenHelp,
    ident_ids: &mut IdentIds,
    ctx: &Context,
    interner: &LayoutInterner,
    union_in_layout: InLayout,
    union_layout: &UnionLayout,
    structure: Symbol,
) -> (s: Stmt)
    requires
        gen_wf(old(root), old(ident_ids), interner),
        tags_ready(
            interner@,
            union_layout@.tags(),
            inside_union(*ctx, union_in_layout, union_layout@),
        ),
        union_layout@.tags().len() < MAX_TAGS,
        has_arm(union_layout@),
        modifies_header(ctx.op),
    ensures
        gen_wf(final(root), final(ident_ids), interner),
        (s@, gen_state(final(root), final(ident_ids), interner)) == refcount_union_v(
            gen_state(old(root), old(ident_ids), interner),
            *ctx,
            union_in_layout,
            union_layout@,
            structure,
        ),
{
    let inner = if union_layout.is_recursive() {
        Context { op: ctx.op, recursive_union: Some(union_in_layout) }
    } else {
        *ctx
    };
    match union_layout {
        UnionLayout::NonRecursive(_) => refcount_union_nonrec(
            root,
            ident_ids,
            &inner,
            interner,
            union_in_layout,
            union_layout,
            structure,
        ),
        UnionLayout::NonNullableUnwrapped(_) => refcount_union_rec(
            root,
            ident_ids,
            &inner,
            interner,
            union_in_layout,
            union_layout,
            structure,
        ),
        _ => {
            let tailrec_idx = CodeGenHelp::union_tail_recursion_fields(interner, union_layout);
            match tailrec_idx {
                Some(indices) => {
                    if ctx.op.is_dec() {
                        refcount_union_tailrec(
                            root,
                            ident_ids,
                            &inner,
                            interner,
                            union_in_layout,
                            union_layout,
                            &indices,
                            structure,
                        )
                    } else {
                        refcount_union_rec(
                            root,
                            ident_ids,
                            &inner,
                            interner,
                            union_in_layout,
                            union_layout,
                            structure,
                        )
                    }
                },
                None => refcount_union_rec(
                    root,
                    ident_ids,
                    &inner,
                    interner,
                    union_in_layout,
                    union_layout,
                    structure,
                ),
            }
        },
    }
}

/// Generates the body of the procedure that performs the operation of `ctx`
/// on a value `structure` of the given layout.
pub fn refcount_generic(
    root: &mut CodeGenHelp,
    ident_ids: &mut IdentIds,
    ctx: &mut Context,
    layout_interner: &mut LayoutInterner,
    layout: InLayout,
    structure: Symbol,
) -> (s: Stmt)
    requires
        gen_wf(old(root), old(ident_ids), old(layout_interner)),
        rc_ready(old(layout_interner)@, layout, *old(ctx)),
        modifies_header(old(ctx).op),
    ensures
        gen_wf(final(root), final(ident_ids), final(layout_interner)),
        extends(final(layout_interner)@, old(layout_interner)@),
        *final(ctx) == *old(ctx),
        (s@, gen_state(final(root), final(ident_ids), final(layout_interner)))
            == refcount_generic_v(
            gen_state(old(root), old(ident_ids), old(layout_interner)),
            *old(ctx),
            layout,
            structure,
        ),
    decreases layout,
{
    let here = layout_interner.get(layout).duplicate();
    proof {
        assert(layout_interner@[layout as int].well_formed_at(layout as int));
    }
    match here {
        Layout::Builtin(Builtin::Str) => refcount_str(root, ident_ids, ctx),
        Layout::Builtin(Builtin::List(elem_layout)) => refcount_list(
            root,
            ident_ids,
            ctx,
            layout_interner,
            elem_layout,
            structure,
        ),
        Layout::Builtin(_) => rc_return_stmt(root, ident_ids, ctx),
        Layout::Struct { field_layouts } => refcount_struct(
            root,
            ident_ids,
            ctx,
            layout_interner,
            &field_layouts,
            structure,
        ),
        Layout::Union(union_layout) => refcount_union(
            root,
            ident_ids,
            ctx,
            layout_interner,
            layout,
            &union_layout,
            structure,
        ),
        Layout::LambdaSet(lambda_set) => refcount_generic(
            root,
            ident_ids,
            ctx,
            layout_interner,
            lambda_set.representation,
            structure,
        ),
        Layout::RecursivePointer(_) => Stmt::new_ret(structure),
        Layout::Boxed(inner_layout) => refcount_boxed(
            root,
            ident_ids,
            ctx,
            layout_interner,
            layout,
            inner_layout,
            structure,
        ),
    }
}

/// Builds the call of the procedure for the operation of `ctx`.
pub fn call_proc(
    root: &mut CodeGenHelp,
    ident_ids: &mut IdentIds,
    ctx: &Context,
    interner: &LayoutInterner,
    layout: InLayout,
    structure: Symbol,
    amount: Option<u64>,
    following: Stmt,
) -> (s: Stmt)
    requires
        gen_wf(old(root), old(ident_ids), interner),
        child_ready(interner@, layout, *ctx),
    ensures
        gen_wf(final(root), final(ident_ids), interner),
        (s@, gen_state(final(root), final(ident_ids), interner)) == call_proc_v(
            gen_state(old(root), old(ident_ids), interner),
            *ctx,
            layout,
            structure,
            amount,
            following@,
        ),
{
    match amount {
        Some(n) => {
            let layout_isize = root.layout_isize();
            let amount_sym = root.create_symbol(ident_ids, "amount");
            let amount_expr = int_literal(n as i128);
            let call_result_empty = root.create_symbol(ident_ids, "call_result_empty");
            let call_expr = root.call_specialized_op(
                ident_ids,
                ctx,
                interner,
                layout,
                syms2(structure, amount_sym),
            );
            let call_stmt = Stmt::new_let(call_result_empty, call_expr, LAYOUT_UNIT, following);
            Stmt::new_let(amount_sym, amount_expr, layout_isize, call_stmt)
        },
        None => {
            let call_result_empty = root.create_symbol(ident_ids, "call_result_empty");
            let call_expr = root.call_specialized_op(
                ident_ids,
                ctx,
                interner,
                layout,
                syms1(structure),
            );
            Stmt::new_let(call_result_empty, call_expr, LAYOUT_UNIT, following)
        },
    }
}

/// Rewrites a reference-count marker on a value of the given layout into
/// the code that performs it, followed by `following`.
pub fn refcount_stmt(
    root: &mut CodeGenHelp,
    ident_ids: &mut IdentIds,
    ctx: &mut Context,
    layout_interner: &mut LayoutInterner,
    layout: InLayout,
    modify: &ModifyRc,
    following: Stmt,
) -> (s: Stmt)
    requires
        gen_wf(old(root), old(ident_ids), old(layout_interner)),
        refcount_stmt_ready(old(layout_interner)@, *old(ctx), layout, *modify),
    ensures
        gen_wf(final(root), final(ident_ids), final(layout_interner)),
        extends(final(layout_interner)@, old(layout_interner)@),
        *final(ctx) == refcount_stmt_ctx(
            gen_state(old(root), old(ident_ids), old(layout_interner)),
            *old(ctx),
            layout,
            *modify,
        ),
        (s@, gen_state(final(root), final(ident_ids), final(layout_interner))) == refcount_stmt_v(
            gen_state(old(root), old(ident_ids), old(layout_interner)),
            *old(ctx),
            layout,
            *modify,
            following@,
        ),
{
    match modify {
        ModifyRc::Inc(structure, amount) => {
            ctx.op = HelperOp::Inc;
            call_proc(
                root,
                ident_ids,
                ctx,
                layout_interner,
                layout,
                *structure,
                Some(*amount),
                following,
            )
        },
        ModifyRc::Dec(structure) => {
            ctx.op = HelperOp::Dec;
            call_proc(root, ident_ids, ctx, layout_interner, layout, *structure, None, following)
        },
        ModifyRc::DecRef(structure) => {
            let (is_str, is_noop) = match layout_interner.get(layout) {
                Layout::Builtin(Builtin::Str) => (true, false),
                Layout::Struct { .. } => (false, true),
                Layout::Union(UnionLayout::NonRecursive(_)) => (false, true),
                _ => (false, false),
            };
            if is_str {
                ctx.op = HelperOp::Dec;
                call_proc(
                    root,
                    ident_ids,
                    ctx,
                    layout_interner,
                    layout,
                    *structure,
                    None,
                    following,
                )
            } else if is_noop {
                following
            } else {
                match ctx.op {
                    HelperOp::DecRef(jp_decref) => {
                        let rc_stmt = refcount_generic(
                            root,
                            ident_ids,
                            ctx,
                            layout_interner,
                            layout,
                            *structure,
                        );
                        Stmt::new_join(jp_decref, Vec::new(), following, rc_stmt)
                    },
                    _ => following,
                }
            }
        },
    }
}

/// Builds the test of the header that both reset procedures start with.
pub fn unique_test(
    root: &CodeGenHelp,
    ident_ids: &mut IdentIds,
    rc_ptr: Symbol,
    rc: Symbol,
    refcount_1: Symbol,
    is_unique: Symbol,
    addr: Symbol,
    structure: Symbol,
    recursion_ptr: InLayout,
    if_stmt: Stmt,
) -> (s: Stmt)
    ensures
        forall|ls: Seq<LayoutV>|
            (s@, #[trigger] with_layouts(root, final(ident_ids), ls)) == unique_test_v(
                with_layouts(root, old(ident_ids), ls),
                rc_ptr,
                rc,
                refcount_1,
                is_unique,
                addr,
                structure,
                recursion_ptr,
                if_stmt@,
            ),
{
    let layout_isize = root.layout_isize();
    let is_unique_stmt = let_lowlevel(
        LAYOUT_BOOL,
        is_unique,
        LowLevel::Eq,
        syms2(rc, refcount_1),
        if_stmt,
    );
    let refcount_1_stmt = Stmt::new_let(
        refcount_1,
        int_literal(refcount_1_literal(root.target())),
        layout_isize,
        is_unique_stmt,
    );
    let rc_stmt = Stmt::new_let(
        rc,
        Expr::ExprUnbox { symbol: rc_ptr },
        layout_isize,
        refcount_1_stmt,
    );
    rc_ptr_from_data_ptr_help(
        root,
        ident_ids,
        structure,
        rc_ptr,
        true,
        rc_stmt,
        addr,
        recursion_ptr,
    )
}

/// The state made of a pass, an identifier factory and given layouts.
pub open spec fn with_layouts(root: &CodeGenHelp, ident_ids: &IdentIds, ls: Seq<LayoutV>) -> GenV {
    GenV { help: root@, idents: ident_ids.count(), layouts: ls }
}

/// Builds the way on of a reset for a shared value.
pub fn reset_shared(
    root: &mut CodeGenHelp,
    ident_ids: &mut IdentIds,
    ctx: &Context,
    interner: &LayoutInterner,
    layout: InLayout,
    structure: Symbol,
) -> (s: Stmt)
    requires
        gen_wf(old(root), old(ident_ids), interner),
        child_ready(interner@, layout, *ctx),
    ensures
        gen_wf(final(root), final(ident_ids), interner),
        (s@, gen_state(final(root), final(ident_ids), interner)) == reset_shared_v(
            gen_state(old(root), old(ident_ids), interner),
            *ctx,
            layout,
            structure,
        ),
{
    let decrement_unit = root.create_symbol(ident_ids, "decrement_unit");
    let decrement_expr = root.call_specialized_op(
        ident_ids,
        ctx,
        interner,
        layout,
        syms1(structure),
    );
    let null = root.create_symbol(ident_ids, "null");
    Stmt::new_let(
        decrement_unit,
        decrement_expr,
        LAYOUT_UNIT,
        Stmt::new_let(null, Expr::NullPointer, layout, Stmt::new_ret(null)),
    )
}

/// Generates the body of the reset procedure for the union `layout`.
pub fn refcount_reset_proc_body(
    root: &mut CodeGenHelp,
    ident_ids: &mut IdentIds,
    ctx: &mut Context,
    layout_interner: &mut LayoutInterner,
    layout: InLayout,
    structure: Symbol,
) -> (s: Stmt)
    requires
        gen_wf(old(root), old(ident_ids), old(layout_interner)),
        layout < old(layout_interner)@.len(),
        old(layout_interner)@[layout as int] matches LayoutV::Union(u) && has_arm(u),
    ensures
        gen_wf(final(root), final(ident_ids), final(layout_interner)),
        extends(final(layout_interner)@, old(layout_interner)@),
        *final(ctx) == reset_ctx(layout),
        (s@, gen_state(final(root), final(ident_ids), final(layout_interner)))
            == refcount_reset_proc_body_v(
            gen_state(old(root), old(ident_ids), old(layout_interner)),
            layout,
            structure,
        ),
{
    let rc_ptr = root.create_symbol(ident_ids, "rc_ptr");
    let rc = root.create_symbol(ident_ids, "rc");
    let refcount_1 = root.create_symbol(ident_ids, "refcount_1");
    let is_unique = root.create_symbol(ident_ids, "is_unique");
    let addr = root.create_symbol(ident_ids, "addr");

    let union_layout = match layout_interner.get(layout) {
        Layout::Union(u) => u.duplicate(),
        _ => UnionLayout::NonRecursive(Vec::new()),
    };
    proof {
        assert(layout_interner@[layout as int].well_formed_at(layout as int));
    }

    ctx.op = HelperOp::Dec;
    ctx.recursive_union = Some(layout);
    let recursion_ptr = layout_interner.insert(Layout::RecursivePointer(layout));

    let tag_id_sym = root.create_symbol(ident_ids, "tag_id");
    let tag_id_expr = Expr::GetTagId { structure, union_layout: layout };
    let rc_contents_stmt = refcount_union_contents(
        root,
        ident_ids,
        ctx,
        layout_interner,
        layout,
        &union_layout,
        structure,
        tag_id_sym,
        false,
        Stmt::new_ret(addr),
    );
    let then_stmt = Stmt::new_let(
        tag_id_sym,
        tag_id_expr,
        union_layout.tag_id_layout(),
        rc_contents_stmt,
    );

    let else_stmt = reset_shared(root, ident_ids, ctx, layout_interner, layout, structure);

    let ghost tv = then_stmt@;
    let mut branches: Vec<(u64, BranchInfo, Stmt)> = Vec::new();
    branches.push((1u64, BranchInfo::Unknown, then_stmt));
    proof {
        assert(branches_view(branches@) =~= seq![(1u64, BranchInfo::Unknown, tv)]);
    }
    let if_stmt = Stmt::new_switch(
        is_unique,
        LAYOUT_BOOL,
        branches,
        BranchInfo::Unknown,
        else_stmt,
        layout,
    );
    let ghost ls = layout_interner@;
    let s = unique_test(
        root,
        ident_ids,
        rc_ptr,
        rc,
        refcount_1,
        is_unique,
        addr,
        structure,
        recursion_ptr,
        if_stmt,
    );
    proof {
        assert(with_layouts(root, ident_ids, ls) == gen_state(root, ident_ids, layout_interner));
    }
    s
}

/// Generates the body of the reset procedure that keeps the children of
/// the value.
pub fn refcount_resetref_proc_body(
    root: &mut CodeGenHelp,
    ident_ids: &mut IdentIds,
    ctx: &mut Context,
    layout_interner: &mut LayoutInterner,
    layout: InLayout,
    structure: Symbol,
) -> (s: Stmt)
    requires
        gen_wf(old(root), old(ident_ids), old(layout_interner)),
        layout < old(layout_interner)@.len(),
        old(layout_interner)@[layout as int] is Union,
    ensures
        gen_wf(final(root), final(ident_ids), final(layout_interner)),
        extends(final(layout_interner)@, old(layout_interner)@),
        *final(ctx) == reset_ctx(layout),
        (s@, gen_state(final(root), final(ident_ids), final(layout_interner)))
            == refcount_resetref_proc_body_v(
            gen_state(old(root), old(ident_ids), old(layout_interner)),
            layout,
            structure,
        ),
{
    let rc_ptr = root.create_symbol(ident_ids, "rc_ptr");
    let rc = root.create_symbol(ident_ids, "rc");
    let refcount_1 = root.create_symbol(ident_ids, "refcount_1");
    let is_unique = root.create_symbol(ident_ids, "is_unique");
    let addr = root.create_symbol(ident_ids, "addr");

    ctx.op = HelperOp::Dec;
    ctx.recursive_union = Some(layout);
    let recursion_ptr = layout_interner.insert(Layout::RecursivePointer(layout));

    let then_stmt = Stmt::new_ret(addr);
    let else_stmt = reset_shared(root, ident_ids, ctx, layout_interner, layout, structure);
    let if_stmt = Stmt::if_then_else(is_unique, layout, then_stmt, else_stmt);

    let ghost ls = layout_interner@;
    let s = unique_test(
        root,
        ident_ids,
        rc_ptr,
        rc,
        refcount_1,
        is_unique,
        addr,
        structure,
        recursion_ptr,
        if_stmt,
    );
    proof {
        assert(with_layouts(root, ident_ids, ls) == gen_state(root, ident_ids, layout_interner));
    }
    s
}

} // verus!
