//! The order of releases in generated code: once the header of a value has
//! been released, nothing the value holds is looked at and no procedure is
//! called until the name is bound anew. So what a value holds is always
//! released before the value itself.

use vstd::prelude::*;
use crate::symbol::{Symbol, JoinPointId};
use crate::low_level::LowLevel;
use crate::layout::{InLayout, LayoutV, Builtin, UnionLayoutV, PtrWidth};
use crate::ir::{ExprV, CallTypeV, StmtV, Param, BranchInfo};
use crate::helper::{
    Context, GenV, tail_recursion_fields_v, skip, with_idents, fresh, sym, insert_v,
};
use crate::gen_basic::{rc_return_stmt_v, modify_refcount_v, refcount_str_v};
use crate::gen_data::{
    refcount_struct_fields_v, refcount_list_elems_v, refcount_list_v, refcount_boxed_v,
};
use crate::gen_union::{
    indexed_fields_v, refcount_tag_fields_v, arm_v, null_arm_v, tag_branches_v, tail_of,
    tag_switch_v, tag_id_of, refcount_union_contents_v, refcount_union_nonrec_v,
    refcount_union_rec_v, refcount_union_tailrec_v, refcount_union_v, inside_union, has_arm,
    tag_branches_len,
};
use crate::refcount::refcount_generic_v;
use crate::laws::{numbers_fit, arm_tail_stmt};
use crate::machine::{next_of, branch_of, default_of, body_of, remainder_of};

verus! {

/// The symbol whose header the expression releases, if it releases one.
pub open spec fn released_by(expr: ExprV) -> Option<Symbol> {
    match expr {
        ExprV::Call(c) => match c.call_type {
            CallTypeV::LowLevel { op } => if op == LowLevel::RefCountDecDataPtr
                && c.arguments.len() > 0 {
                Some(c.arguments[0])
            } else {
                None
            },
            _ => None,
        },
        _ => None,
    }
}

/// The expression may stand where the header of `released` has been
/// released: it calls no procedure and releases nothing more, and it does
/// not look into the released value or at its header.
pub open spec fn expr_ok(expr: ExprV, released: Option<Symbol>) -> bool {
    match expr {
        ExprV::Call(c) => match c.call_type {
            CallTypeV::ByName { .. } => released.is_none(),
            CallTypeV::LowLevel { op } => match op {
                LowLevel::RefCountDecDataPtr => released.is_none() && c.arguments.len() > 0,
                LowLevel::RefCountIncDataPtr | LowLevel::RefCountIsUnique => c.arguments.len() > 0
                    && released != Some(c.arguments[0]),
                _ => true,
            },
        },
        ExprV::StructAtIndex { structure, .. } => released != Some(structure),
        ExprV::GetTagId { structure, .. } => released != Some(structure),
        ExprV::UnionAtIndex { structure, .. } => released != Some(structure),
        ExprV::ExprUnbox { symbol } => released != Some(symbol),
        _ => true,
    }
}

/// What is released after `symbol` was bound to `expr`: a name that is
/// bound anew is no longer the released value.
pub open spec fn after_let(
    symbol: Symbol,
    expr: ExprV,
    released: Option<Symbol>,
) -> Option<Symbol> {
    let now = match released_by(expr) {
        Some(p) => Some(p),
        None => released,
    };
    if now == Some(symbol) {
        None
    } else {
        now
    }
}

/// One of the parameters is the symbol.
pub open spec fn binds(parameters: Seq<Param>, symbol: Symbol) -> bool {
    exists|i: int| 0 <= i < parameters.len() && (#[trigger] parameters[i]).symbol == symbol
}

pub type JoinParams = Map<JoinPointId, Seq<Param>>;

/// Along every path through the statement, started where the header of
/// `released` has been released, every expression may stand where it
/// stands. A join point is entered with nothing released: a jump that comes
/// after a release must bind the released name anew, and not to itself.
pub open spec fn ordered(stmt: StmtV, joins: JoinParams, released: Option<Symbol>) -> bool
    decreases stmt,
{
    match stmt {
        StmtV::Let(symbol, expr, _, next) => expr_ok(expr, released) && ordered(
            *next,
            joins,
            after_let(symbol, expr, released),
        ),
        StmtV::Switch { branches, default_branch, .. } => ordered(
            *default_branch.1,
            joins,
            released,
        ) && forall|i: int|
            0 <= i < branches.len() ==> ordered((#[trigger] branches[i]).2, joins, released),
        StmtV::Ret(_) => true,
        StmtV::Join { id, parameters, body, remainder } => ordered(
            *body,
            joins.insert(id, parameters),
            None,
        ) && ordered(*remainder, joins.insert(id, parameters), released),
        StmtV::Jump(id, arguments) => joins.dom().contains(id) && match released {
            Some(p) => binds(joins[id], p) && !arguments.contains(p),
            None => true,
        },
    }
}

/// The statement is ordered wherever it stands, as long as nothing has been
/// released: it jumps nowhere outside itself.
pub open spec fn closed_ordered(stmt: StmtV) -> bool {
    forall|joins: JoinParams| #[trigger] ordered(stmt, joins, None)
}

/// Leaving a procedure is in order whatever has been released.
pub proof fn return_ordered(
    home: u32,
    n: nat,
    ctx: Context,
    joins: JoinParams,
    released: Option<Symbol>,
)
    requires
        !(ctx.op is DecRef),
    ensures
        ordered(rc_return_stmt_v(home, n, ctx).0, joins, released),
{
    reveal_with_fuel(ordered, 3);
}

/// The decrement of a header is in order where nothing has been released
/// and what follows is in order after the release.
pub proof fn modify_ordered(
    home: u32,
    n: nat,
    ctx: Context,
    data_ptr: Symbol,
    alignment: u32,
    following: StmtV,
    joins: JoinParams,
)
    requires
        ctx.op is Dec,
        ordered(following, joins, Some(data_ptr)),
        ordered(following, joins, None),
    ensures
        ordered(modify_refcount_v(home, n, ctx, data_ptr, alignment, following).0, joins, None),
{
    let s = modify_refcount_v(home, n, ctx, data_ptr, alignment, following).0;
    assert(next_of(next_of(s)) == following);
    assert(ordered(next_of(s), joins, None));
}

/// The header change followed by a return is in order.
pub proof fn modify_then_return_ordered(
    home: u32,
    n: nat,
    ctx: Context,
    data_ptr: Symbol,
    alignment: u32,
    joins: JoinParams,
)
    requires
        ctx.op is Dec,
    ensures
        ordered(
            modify_refcount_v(
                home,
                rc_return_stmt_v(home, n, ctx).1,
                ctx,
                data_ptr,
                alignment,
                rc_return_stmt_v(home, n, ctx).0,
            ).0,
            joins,
            None,
        ),
{
    return_ordered(home, n, ctx, joins, Some(data_ptr));
    return_ordered(home, n, ctx, joins, None);
    modify_ordered(
        home,
        rc_return_stmt_v(home, n, ctx).1,
        ctx,
        data_ptr,
        alignment,
        rc_return_stmt_v(home, n, ctx).0,
        joins,
    );
}

/// The decrement of a string is in order.
pub proof fn str_ordered(home: u32, target: PtrWidth, n: nat, ctx: Context, joins: JoinParams)
    requires
        ctx.op is Dec,
    ensures
        ordered(refcount_str_v(home, target, n, ctx).0, joins, None),
{
    let s0 = refcount_str_v(home, target, n, ctx).0;
    let s1 = next_of(s0);
    let s2 = next_of(s1);
    let s3 = next_of(s2);
    let then_branch = branch_of(s3, 0);
    let ret_small = default_of(s3);
    modify_then_return_ordered(home, n + 4, ctx, sym(home, n + 3), target.bytes(), joins);
    let n2 = modify_refcount_v(
        home,
        rc_return_stmt_v(home, n + 4, ctx).1,
        ctx,
        sym(home, n + 3),
        target.bytes(),
        rc_return_stmt_v(home, n + 4, ctx).0,
    ).1;
    return_ordered(home, n2, ctx, joins, None);
    assert(ordered(then_branch, joins, None));
    assert(ordered(s3, joins, None)) by {
        assert forall|i: int| 0 <= i < s3->Switch_branches.len() implies ordered(
            (#[trigger] s3->Switch_branches[i]).2,
            joins,
            None,
        ) by {
            assert(s3->Switch_branches[i].2 == then_branch);
        }
    }
    assert(ordered(s2, joins, None));
    assert(ordered(s1, joins, None));
}

/// The decrement of a struct releases its fields by calls only, and is in
/// order.
pub proof fn struct_fields_ordered(
    g: GenV,
    ctx: Context,
    field_layouts: Seq<InLayout>,
    structure: Symbol,
    n: nat,
    joins: JoinParams,
)
    requires
        ctx.op is Dec,
    ensures
        ordered(refcount_struct_fields_v(g, ctx, field_layouts, structure, n).0, joins, None),
    decreases n,
{
    if n == 0 {
        return_ordered(g.help.home, g.idents, ctx, joins, None);
    } else {
        struct_fields_ordered(g, ctx, field_layouts, structure, (n - 1) as nat, joins);
        let prev = refcount_struct_fields_v(g, ctx, field_layouts, structure, (n - 1) as nat);
        let s = refcount_struct_fields_v(g, ctx, field_layouts, structure, n).0;
        if crate::layout::is_refcounted_spec(prev.1.layouts, field_layouts[n - 1]) {
            assert(next_of(next_of(s)) == prev.0);
            assert(ordered(next_of(s), joins, None));
        }
    }
}

/// A switch with one numbered branch is in order where both ways are.
pub proof fn two_way_ordered(stmt: StmtV, joins: JoinParams, released: Option<Symbol>)
    requires
        stmt is Switch,
        stmt->Switch_branches.len() == 1,
        ordered(branch_of(stmt, 0), joins, released),
        ordered(default_of(stmt), joins, released),
    ensures
        ordered(stmt, joins, released),
{
    assert forall|i: int| 0 <= i < stmt->Switch_branches.len() implies ordered(
        (#[trigger] stmt->Switch_branches[i]).2,
        joins,
        released,
    ) by {
        assert(stmt->Switch_branches[i].2 == branch_of(stmt, 0));
    }
}

/// The loop over the elements of a list is in order where what follows it
/// is: an element is read and released while nothing else has been.
pub proof fn list_elems_ordered(
    g: GenV,
    ctx: Context,
    elem_layout: InLayout,
    ret_layout: InLayout,
    box_layout: InLayout,
    length: Symbol,
    elements: Symbol,
    following: StmtV,
    joins: JoinParams,
)
    requires
        ctx.op is Dec,
        closed_ordered(following),
    ensures
        ordered(
            refcount_list_elems_v(
                g,
                ctx,
                elem_layout,
                ret_layout,
                box_layout,
                length,
                elements,
                following,
            ).0,
            joins,
            None,
        ),
{
    let s0 = refcount_list_elems_v(
        g,
        ctx,
        elem_layout,
        ret_layout,
        box_layout,
        length,
        elements,
        following,
    ).0;
    let s1 = next_of(s0);
    let s2 = next_of(s1);
    let s3 = next_of(s2);
    let s4 = next_of(s3);
    let b0 = body_of(s4);
    let b1 = next_of(b0);
    let v0 = default_of(b1);
    let v1 = next_of(v0);
    let v2 = next_of(v1);
    let v3 = next_of(v2);
    let v4 = next_of(v3);
    let joins1 = joins.insert(s4->Join_id, s4->Join_parameters);
    assert(ordered(following, joins1, None));
    assert(ordered(v4, joins1, None));
    assert(ordered(v3, joins1, None));
    assert(ordered(v2, joins1, None));
    assert(ordered(v1, joins1, None));
    assert(ordered(v0, joins1, None));
    assert(branch_of(b1, 0) == following);
    two_way_ordered(b1, joins1, None);
    assert(ordered(b0, joins1, None));
    assert(ordered(remainder_of(s4), joins1, None));
    assert(ordered(s4, joins, None));
    assert(ordered(s3, joins, None));
    assert(ordered(s2, joins, None));
    assert(ordered(s1, joins, None));
}

/// The decrement of a list is in order: the elements are visited before the
/// header of the list is released.
pub proof fn list_ordered(
    g: GenV,
    ctx: Context,
    elem_layout: InLayout,
    structure: Symbol,
    joins: JoinParams,
)
    requires
        ctx.op is Dec,
    ensures
        ordered(refcount_list_v(g, ctx, elem_layout, structure).0, joins, None),
{
    let home = g.help.home;
    let s0 = refcount_list_v(g, ctx, elem_layout, structure).0;
    let s1 = next_of(s0);
    let s2 = next_of(s1);
    let s3 = next_of(s2);
    let ret_empty = branch_of(s3, 0);
    let e0 = default_of(s3);
    let e1 = next_of(e0);
    let e2 = next_of(e1);
    let e3 = remainder_of(e2);
    let c0 = branch_of(e3, 0);
    let d0 = default_of(e3);
    let body = body_of(e2);
    let g0 = insert_v(g, LayoutV::Boxed(elem_layout)).1;
    let box_layout = insert_v(g, LayoutV::Boxed(elem_layout)).0;
    let g1 = skip(g0, 11);
    let list_ptr = fresh(g0, 10);
    let alignment = crate::layout::max_int(
        g.help.target.bytes() as int,
        crate::layout::alignment_spec(g0.layouts, g.help.target, elem_layout),
    ) as u32;
    let ret = rc_return_stmt_v(home, g1.idents, ctx);
    let modify = modify_refcount_v(home, ret.1, ctx, list_ptr, alignment, ret.0);
    let field_layouts = seq![
        box_layout,
        g.help.target.layout_isize(),
        g.help.target.layout_isize(),
    ];
    let modify_owner = crate::ir::let_v(
        list_ptr,
        ExprV::StructAtIndex { index: 0, field_layouts, structure },
        box_layout,
        modify.0,
    );
    assert(closed_ordered(modify_owner)) by {
        assert forall|j: JoinParams| #[trigger] ordered(modify_owner, j, None) by {
            modify_then_return_ordered(home, g1.idents, ctx, list_ptr, alignment, j);
        }
    }
    let g3 = with_idents(g1, modify.1);
    let joins1 = joins.insert(e2->Join_id, e2->Join_parameters);
    if crate::layout::is_refcounted_spec(g0.layouts, elem_layout) {
        list_elems_ordered(
            g3,
            ctx,
            elem_layout,
            crate::layout::LAYOUT_UNIT,
            box_layout,
            fresh(g0, 0),
            fresh(g0, 6),
            modify_owner,
            joins1,
        );
        let g4 = refcount_list_elems_v(
            g3,
            ctx,
            elem_layout,
            crate::layout::LAYOUT_UNIT,
            box_layout,
            fresh(g0, 0),
            fresh(g0, 6),
            modify_owner,
        ).1;
        return_ordered(home, g4.idents, ctx, joins, None);
    } else {
        assert(ordered(modify_owner, joins1, None));
        return_ordered(home, g3.idents, ctx, joins, None);
    }
    assert(ordered(body, joins1, None));
    assert(ordered(next_of(next_of(c0)), joins1, None));
    assert(ordered(next_of(c0), joins1, None));
    assert(ordered(c0, joins1, None));
    assert(ordered(next_of(d0), joins1, None));
    assert(ordered(d0, joins1, None));
    two_way_ordered(e3, joins1, None);
    assert(ordered(e2, joins, None));
    assert(ordered(e1, joins, None));
    assert(ordered(e0, joins, None));
    assert(ordered(ret_empty, joins, None));
    two_way_ordered(s3, joins, None);
    assert(ordered(s2, joins, None));
    assert(ordered(s1, joins, None));
}

/// The decrement of a box is in order: what the box holds is released
/// before the header of the box.
pub proof fn boxed_ordered(
    g: GenV,
    ctx: Context,
    layout: InLayout,
    inner_layout: InLayout,
    outer: Symbol,
    joins: JoinParams,
)
    requires
        ctx.op is Dec,
    ensures
        ordered(refcount_boxed_v(g, ctx, layout, inner_layout, outer).0, joins, None),
{
    let home = g.help.home;
    let alignment = crate::layout::allocation_alignment_spec(g.layouts, g.help.target, layout) as u32;
    let s0 = refcount_boxed_v(g, ctx, layout, inner_layout, outer).0;
    if crate::layout::is_refcounted_spec(g.layouts, inner_layout) {
        let s1 = next_of(s0);
        let s2 = remainder_of(s1);
        let u0 = branch_of(s2, 0);
        let u1 = next_of(u0);
        let u2 = next_of(u1);
        let joins1 = joins.insert(s1->Join_id, s1->Join_parameters);
        modify_then_return_ordered(home, g.idents, ctx, outer, alignment, joins1);
        assert(ordered(body_of(s1), joins1, None));
        assert(ordered(u2, joins1, None));
        assert(ordered(u1, joins1, None));
        assert(ordered(u0, joins1, None));
        assert(ordered(default_of(s2), joins1, None));
        two_way_ordered(s2, joins1, None);
        assert(ordered(s1, joins, None));
    } else {
        modify_then_return_ordered(home, g.idents, ctx, outer, alignment, joins);
    }
}

/// The release of the fields of a variant is in order where what follows
/// is: the fields are released by calls while nothing else has been.
pub proof fn tag_fields_ordered(
    g: GenV,
    ctx: Context,
    union_in_layout: InLayout,
    pairs: Seq<(usize, InLayout)>,
    structure: Symbol,
    tag_id: u16,
    following: StmtV,
    k: nat,
    joins: JoinParams,
)
    requires
        ordered(following, joins, None),
    ensures
        ordered(
            refcount_tag_fields_v(
                g,
                ctx,
                union_in_layout,
                pairs,
                structure,
                tag_id,
                following,
                k,
            ).0,
            joins,
            None,
        ),
    decreases k,
{
    if k == 0 || k > pairs.len() {
    } else {
        tag_fields_ordered(
            g,
            ctx,
            union_in_layout,
            pairs,
            structure,
            tag_id,
            following,
            (k - 1) as nat,
            joins,
        );
        let prev = refcount_tag_fields_v(
            g,
            ctx,
            union_in_layout,
            pairs,
            structure,
            tag_id,
            following,
            (k - 1) as nat,
        );
        let s = refcount_tag_fields_v(
            g,
            ctx,
            union_in_layout,
            pairs,
            structure,
            tag_id,
            following,
            k,
        ).0;
        if crate::layout::is_refcounted_spec(prev.1.layouts, pairs[pairs.len() - k].1) {
            assert(next_of(next_of(s)) == prev.0);
            assert(ordered(next_of(s), joins, None));
        }
    }
}

/// An arm is in order where its join point is in scope.
pub proof fn arm_ordered(
    g: GenV,
    ctx: Context,
    union_in_layout: InLayout,
    fields: Seq<InLayout>,
    structure: Symbol,
    jp: JoinPointId,
    tag_id: u16,
    tail: Option<Option<usize>>,
    joins: JoinParams,
)
    requires
        joins.dom().contains(jp),
    ensures
        ordered(
            arm_v(g, ctx, union_in_layout, fields, structure, jp, tag_id, tail).0,
            joins,
            None,
        ),
{
    match tail {
        None => {
            let pairs = indexed_fields_v(fields, None, fields.len());
            tag_fields_ordered(
                g,
                ctx,
                union_in_layout,
                pairs,
                structure,
                tag_id,
                StmtV::Jump(jp, Seq::empty()),
                pairs.len(),
                joins,
            );
        },
        Some(index) => {
            let pairs = indexed_fields_v(fields, index, fields.len());
            let following = arm_tail_stmt(g, union_in_layout, fields, structure, jp, tag_id, index);
            assert(ordered(next_of(following), joins, None));
            assert(ordered(following, joins, None));
            tag_fields_ordered(
                skip(g, 1),
                ctx,
                union_in_layout,
                pairs,
                structure,
                tag_id,
                following,
                pairs.len(),
                joins,
            );
        },
    }
}

/// Every arm of a union is in order where its join point is in scope.
pub proof fn branches_ordered(
    g: GenV,
    ctx: Context,
    union_in_layout: InLayout,
    u: UnionLayoutV,
    structure: Symbol,
    jp: JoinPointId,
    tail: Option<Seq<Option<usize>>>,
    n: nat,
    joins: JoinParams,
)
    requires
        joins.dom().contains(jp),
    ensures
        forall|i: int|
            0 <= i < tag_branches_v(g, ctx, union_in_layout, u, structure, jp, tail, n).0.len()
                ==> ordered(
                (#[trigger] tag_branches_v(
                    g,
                    ctx,
                    union_in_layout,
                    u,
                    structure,
                    jp,
                    tail,
                    n,
                ).0[i]).2,
                joins,
                None,
            ),
    decreases n,
{
    let branches = tag_branches_v(g, ctx, union_in_layout, u, structure, jp, tail, n).0;
    if n == 0 || n > u.tags().len() {
        match u.null_id() {
            Some(id) => {
                let arm = null_arm_v(g, union_in_layout, jp, tail.is_some()).0;
                assert(ordered(next_of(arm), joins, None));
                assert(ordered(arm, joins, None));
                assert(branches[0].2 == arm);
            },
            None => {},
        }
    } else {
        branches_ordered(g, ctx, union_in_layout, u, structure, jp, tail, (n - 1) as nat, joins);
        let before = tag_branches_v(
            g,
            ctx,
            union_in_layout,
            u,
            structure,
            jp,
            tail,
            (n - 1) as nat,
        );
        arm_ordered(
            before.1,
            ctx,
            union_in_layout,
            u.tags()[n - 1],
            structure,
            jp,
            tag_id_of(n - 1, u.null_id()),
            tail_of(tail, n - 1),
            joins,
        );
        assert forall|i: int| 0 <= i < branches.len() implies ordered(
            (#[trigger] branches[i]).2,
            joins,
            None,
        ) by {
            if i < before.0.len() {
                assert(branches[i] == before.0[i]);
            }
        }
    }
}

/// A switch over arms that are in order is in order.
pub proof fn tag_switch_ordered(
    tag_id_sym: Symbol,
    tag_id_layout: InLayout,
    branches: Seq<(u64, BranchInfo, StmtV)>,
    joins: JoinParams,
)
    requires
        branches.len() > 0,
        forall|i: int| 0 <= i < branches.len() ==> ordered((#[trigger] branches[i]).2, joins, None),
    ensures
        ordered(tag_switch_v(tag_id_sym, tag_id_layout, branches), joins, None),
{
    let rest = branches.drop_last();
    assert(ordered(branches[branches.len() - 1].2, joins, None));
    assert forall|i: int| 0 <= i < rest.len() implies ordered((#[trigger] rest[i]).2, joins, None) by {
        assert(rest[i] == branches[i]);
    }
}

/// The release of the fields of a union value, then `next_stmt`, is in
/// order where `next_stmt` is.
pub proof fn contents_ordered(
    g: GenV,
    ctx: Context,
    union_in_layout: InLayout,
    u: UnionLayoutV,
    structure: Symbol,
    tag_id_sym: Symbol,
    unique_check: bool,
    next_stmt: StmtV,
    joins: JoinParams,
)
    requires
        has_arm(u),
        closed_ordered(next_stmt),
    ensures
        ordered(
            refcount_union_contents_v(
                g,
                ctx,
                union_in_layout,
                u,
                structure,
                tag_id_sym,
                unique_check,
                next_stmt,
            ).0,
            joins,
            None,
        ),
{
    let s0 = refcount_union_contents_v(
        g,
        ctx,
        union_in_layout,
        u,
        structure,
        tag_id_sym,
        unique_check,
        next_stmt,
    ).0;
    let jp = JoinPointId(fresh(g, 0));
    let joins1 = joins.insert(jp, Seq::empty());
    let branches = tag_branches_v(
        skip(g, 1),
        ctx,
        union_in_layout,
        u,
        structure,
        jp,
        None,
        u.tags().len(),
    ).0;
    branches_ordered(
        skip(g, 1),
        ctx,
        union_in_layout,
        u,
        structure,
        jp,
        None,
        u.tags().len(),
        joins1,
    );
    tag_branches_len(skip(g, 1), ctx, union_in_layout, u, structure, jp, None, u.tags().len());
    tag_switch_ordered(tag_id_sym, u.tag_id_layout(), branches, joins1);
    assert(ordered(next_stmt, joins1, None));
    if unique_check {
        let r0 = remainder_of(s0);
        let r1 = next_of(r0);
        assert(branch_of(r1, 0) == tag_switch_v(tag_id_sym, u.tag_id_layout(), branches));
        assert(ordered(default_of(r1), joins1, None));
        two_way_ordered(r1, joins1, None);
        assert(ordered(r0, joins1, None));
    }
}

/// The decrement of a flat union is in order.
pub proof fn nonrec_ordered(
    g: GenV,
    ctx: Context,
    union_in_layout: InLayout,
    u: UnionLayoutV,
    structure: Symbol,
    joins: JoinParams,
)
    requires
        ctx.op is Dec,
        has_arm(u),
    ensures
        ordered(refcount_union_nonrec_v(g, ctx, union_in_layout, u, structure).0, joins, None),
{
    let home = g.help.home;
    let ret = rc_return_stmt_v(home, g.idents + 1, ctx);
    assert(closed_ordered(ret.0)) by {
        assert forall|j: JoinParams| #[trigger] ordered(ret.0, j, None) by {
            return_ordered(home, g.idents + 1, ctx, j, None);
        }
    }
    contents_ordered(
        with_idents(g, ret.1),
        ctx,
        union_in_layout,
        u,
        structure,
        fresh(g, 0),
        false,
        ret.0,
        joins,
    );
}

/// The decrement of a recursive union in the recursive form is in order:
/// the fields are released before the header.
pub proof fn rec_ordered(
    g: GenV,
    ctx: Context,
    union_in_layout: InLayout,
    u: UnionLayoutV,
    structure: Symbol,
    joins: JoinParams,
)
    requires
        ctx.op is Dec,
        has_arm(u),
    ensures
        ordered(refcount_union_rec_v(g, ctx, union_in_layout, u, structure).0, joins, None),
{
    let home = g.help.home;
    let alignment = crate::layout::allocation_alignment_spec(
        g.layouts,
        g.help.target,
        union_in_layout,
    ) as u32;
    let ret = rc_return_stmt_v(home, g.idents + 1, ctx);
    let modify = modify_refcount_v(home, ret.1, ctx, structure, alignment, ret.0);
    assert(closed_ordered(modify.0)) by {
        assert forall|j: JoinParams| #[trigger] ordered(modify.0, j, None) by {
            modify_then_return_ordered(home, g.idents + 1, ctx, structure, alignment, j);
        }
    }
    contents_ordered(
        with_idents(g, modify.1),
        ctx,
        union_in_layout,
        u,
        structure,
        fresh(g, 0),
        true,
        modify.0,
        joins,
    );
}

/// The decrement of a recursive union in the form of the loop is in order:
/// in each round the fields are released before the header, and the next
/// round starts with the name bound to the next value.
pub proof fn tailrec_ordered(
    g: GenV,
    ctx: Context,
    union_in_layout: InLayout,
    u: UnionLayoutV,
    tailrec_indices: Seq<Option<usize>>,
    structure: Symbol,
    joins: JoinParams,
)
    requires
        ctx.op is Dec,
        has_arm(u),
        numbers_fit(g.idents, 9),
    ensures
        ordered(
            refcount_union_tailrec_v(g, ctx, union_in_layout, u, tailrec_indices, structure).0,
            joins,
            None,
        ),
{
    let home = g.help.home;
    let n = g.idents;
    let s0 = refcount_union_tailrec_v(g, ctx, union_in_layout, u, tailrec_indices, structure).0;
    let l0 = body_of(s0);
    let l1 = next_of(l0);
    let l2 = remainder_of(l1);
    let l3 = next_of(l2);
    let l4 = default_of(l3);
    let m0 = body_of(l1);
    let tailrec_loop = JoinPointId(sym(home, n));
    let current = sym(home, n + 1);
    let next_ptr = sym(home, n + 2);
    let tag_id_sym = sym(home, n + 3);
    let next_addr = sym(home, n + 4);
    let jp = JoinPointId(sym(home, n + 8));
    let alignment = crate::layout::allocation_alignment_spec(
        g.layouts,
        g.help.target,
        union_in_layout,
    ) as u32;
    let joins1 = joins.insert(tailrec_loop, s0->Join_parameters);
    let joins2 = joins1.insert(jp, l1->Join_parameters);
    let exit = rc_return_stmt_v(home, n + 5, ctx);
    let after = next_of(next_of(m0));
    let loop_or_exit = next_of(after);
    // after the header of the current value was released
    return_ordered(home, n + 5, ctx, joins2, Some(current));
    return_ordered(home, n + 5, ctx, joins2, None);
    assert(branch_of(loop_or_exit, 0) == exit.0);
    assert(s0->Join_parameters[0].symbol == current);
    assert(binds(joins2[tailrec_loop], current));
    assert(!seq![next_ptr].contains(current));
    assert(ordered(default_of(loop_or_exit), joins2, Some(current)));
    assert(ordered(default_of(loop_or_exit), joins2, None));
    two_way_ordered(loop_or_exit, joins2, Some(current));
    two_way_ordered(loop_or_exit, joins2, None);
    assert(ordered(after, joins2, Some(current)));
    assert(ordered(after, joins2, None));
    modify_ordered(home, exit.1, ctx, current, alignment, after, joins2);
    assert(ordered(m0, joins2, None));
    // the arms
    let g2 = with_idents(g, n + 8);
    let branches = tag_branches_v(
        skip(g2, 1),
        ctx,
        union_in_layout,
        u,
        current,
        jp,
        Some(tailrec_indices),
        u.tags().len(),
    ).0;
    branches_ordered(
        skip(g2, 1),
        ctx,
        union_in_layout,
        u,
        current,
        jp,
        Some(tailrec_indices),
        u.tags().len(),
        joins2,
    );
    tag_branches_len(
        skip(g2, 1),
        ctx,
        union_in_layout,
        u,
        current,
        jp,
        Some(tailrec_indices),
        u.tags().len(),
    );
    tag_switch_ordered(tag_id_sym, u.tag_id_layout(), branches, joins2);
    assert(branch_of(l3, 0) == tag_switch_v(tag_id_sym, u.tag_id_layout(), branches));
    assert(ordered(next_of(l4), joins2, None));
    assert(ordered(l4, joins2, None));
    two_way_ordered(l3, joins2, None);
    assert(ordered(l2, joins2, None));
    assert(ordered(l1, joins1, None));
    assert(ordered(l0, joins1, None));
    assert(ordered(remainder_of(s0), joins1, None));
}

/// The decrement of a union is in order in every form.
pub proof fn union_ordered(
    g: GenV,
    ctx: Context,
    union_in_layout: InLayout,
    u: UnionLayoutV,
    structure: Symbol,
    joins: JoinParams,
)
    requires
        ctx.op is Dec,
        has_arm(u),
        numbers_fit(g.idents, 9),
    ensures
        ordered(refcount_union_v(g, ctx, union_in_layout, u, structure).0, joins, None),
{
    let inner = inside_union(ctx, union_in_layout, u);
    match u {
        UnionLayoutV::NonRecursive(_) => {
            nonrec_ordered(g, inner, union_in_layout, u, structure, joins);
        },
        UnionLayoutV::NonNullableUnwrapped(_) => {
            rec_ordered(g, inner, union_in_layout, u, structure, joins);
        },
        _ => match tail_recursion_fields_v(g.layouts, u) {
            Some(indices) => {
                tailrec_ordered(g, inner, union_in_layout, u, indices, structure, joins);
            },
            None => {
                rec_ordered(g, inner, union_in_layout, u, structure, joins);
            },
        },
    }
}

/// Every union in the layouts has a variant to switch to.
pub open spec fn unions_have_arms(ls: Seq<LayoutV>) -> bool {
    forall|i: int| 0 <= i < ls.len() ==> ((#[trigger] ls[i]) matches LayoutV::Union(u) ==> has_arm(u))
}

/// Children are released before their parent. In the body of every
/// decrement, along every path, the calls that release what a value holds
/// and the projections that find it come before the release of the header
/// of the value: after that release nothing is projected and nothing is
/// called until the name stands for another value.
pub proof fn children_are_released_first(
    g: GenV,
    ctx: Context,
    layout: InLayout,
    structure: Symbol,
    joins: JoinParams,
)
    requires
        ctx.op is Dec,
        unions_have_arms(g.layouts),
        numbers_fit(g.idents, 9),
    ensures
        ordered(refcount_generic_v(g, ctx, layout, structure).0, joins, None),
    decreases layout,
{
    if layout < g.layouts.len() {
        match g.layouts[layout as int] {
            LayoutV::Builtin(Builtin::Str) => {
                str_ordered(g.help.home, g.help.target, g.idents, ctx, joins);
            },
            LayoutV::Builtin(Builtin::List(elem)) => {
                list_ordered(g, ctx, elem, structure, joins);
            },
            LayoutV::Builtin(_) => {
                return_ordered(g.help.home, g.idents, ctx, joins, None);
            },
            LayoutV::Struct { field_layouts } => {
                struct_fields_ordered(g, ctx, field_layouts, structure, field_layouts.len(), joins);
            },
            LayoutV::Union(u) => {
                union_ordered(g, ctx, layout, u, structure, joins);
            },
            LayoutV::LambdaSet(l) => {
                if l.representation < layout {
                    children_are_released_first(g, ctx, l.representation, structure, joins);
                }
            },
            LayoutV::RecursivePointer(_) => {},
            LayoutV::Boxed(inner) => {
                boxed_ordered(g, ctx, layout, inner, structure, joins);
            },
        }
    }
}

} // verus!
