//! What can be read off the generated code itself: which procedures it
//! calls, and in what order it releases a value and what the value holds.

use vstd::prelude::*;
use crate::symbol::{Symbol, JoinPointId};
use crate::low_level::LowLevel;
use crate::layout::{InLayout, LayoutV, UnionLayoutV, tags_below, fields_below};
use crate::ir::{ExprV, CallTypeV, StmtV, BranchInfo};
use crate::helper::{
    Context, GenV, first_rec_ptr, tail_recursion_fields_v, skip, with_idents, fresh,
};
use crate::gen_basic::{rc_return_stmt_v, modify_refcount_v};
use crate::gen_union::{
    tag_branches_len, indexed_fields_v, refcount_tag_fields_v, arm_v, null_arm_v, tag_branches_v,
    tail_of, tag_switch_v, tag_id_of, refcount_union_rec_v, refcount_union_tailrec_v,
    refcount_union_v, inside_union, has_arm,
};
use crate::machine::{next_of, branch_of, default_of, body_of, remainder_of};
use crate::laws::{tag_fields_grow, tag_branches_grow, arm_tail_stmt};

verus! {

/// The expression calls a procedure for a value of the given layout.
pub open spec fn expr_calls(expr: ExprV, layout: InLayout) -> bool {
    expr matches ExprV::Call(c) && (c.call_type matches CallTypeV::ByName { arg_layouts, .. }
        && arg_layouts.len() > 0 && arg_layouts[0] == layout)
}

/// Somewhere in the statement a procedure for a value of the given layout
/// is called.
pub open spec fn calls_layout(stmt: StmtV, layout: InLayout) -> bool
    decreases stmt,
{
    match stmt {
        StmtV::Let(_, expr, _, next) => expr_calls(expr, layout) || calls_layout(*next, layout),
        StmtV::Switch { branches, default_branch, .. } => calls_layout(*default_branch.1, layout)
            || exists|i: int|
            0 <= i < branches.len() && calls_layout((#[trigger] branches[i]).2, layout),
        StmtV::Ret(_) => false,
        StmtV::Join { body, remainder, .. } => calls_layout(*body, layout) || calls_layout(
            *remainder,
            layout,
        ),
        StmtV::Jump(_, _) => false,
    }
}

/// The layout `id` is a `RecursivePointer`.
pub open spec fn is_rec_ptr(ls: Seq<LayoutV>, id: InLayout) -> bool {
    id < ls.len() && ls[id as int] is RecursivePointer
}

/// The union has the shape of a list: no variant holds more than one
/// pointer to the union itself.
pub open spec fn list_shaped(ls: Seq<LayoutV>, u: UnionLayoutV) -> bool {
    forall|t: int, i: int, j: int|
        0 <= t < u.tags().len() && 0 <= i < u.tags()[t].len() && 0 <= j < u.tags()[t].len()
            && is_rec_ptr(ls, #[trigger] u.tags()[t][i]) && is_rec_ptr(
            ls,
            #[trigger] u.tags()[t][j],
        ) ==> i == j
}

/// What `first_rec_ptr` finds is the first `RecursivePointer` from `from`
/// on, and it finds nothing only where there is none.
pub proof fn first_rec_ptr_is_first(ls: Seq<LayoutV>, fields: Seq<InLayout>, from: nat)
    requires
        fields.len() <= usize::MAX,
    ensures
        match first_rec_ptr(ls, fields, from) {
            Some(i) => from <= i < fields.len() && is_rec_ptr(ls, fields[i as int]),
            None => forall|k: int| from <= k < fields.len() ==> !is_rec_ptr(ls, #[trigger] fields[k]),
        },
    decreases fields.len() - from,
{
    if from < fields.len() {
        first_rec_ptr_is_first(ls, fields, from + 1);
    }
}

/// Each of the listed fields is a field of the variant at its place, and
/// none stands at the place left out.
pub proof fn indexed_fields_are_fields(fields: Seq<InLayout>, skip: Option<usize>, n: nat)
    requires
        n <= fields.len(),
        fields.len() <= usize::MAX,
    ensures
        forall|j: int|
            0 <= j < indexed_fields_v(fields, skip, n).len() ==> {
                let pair = #[trigger] indexed_fields_v(fields, skip, n)[j];
                pair.0 < n && pair.1 == fields[pair.0 as int] && skip != Some(pair.0)
            },
    decreases n,
{
    if n > 0 {
        indexed_fields_are_fields(fields, skip, (n - 1) as nat);
        let before = indexed_fields_v(fields, skip, (n - 1) as nat);
        let now = indexed_fields_v(fields, skip, n);
        assert forall|j: int| 0 <= j < now.len() implies {
            let pair = #[trigger] now[j];
            pair.0 < n && pair.1 == fields[pair.0 as int] && skip != Some(pair.0)
        } by {
            if j < before.len() {
                assert(now[j] == before[j]);
            }
        }
    }
}

/// No field of `pairs` leads to a call for the layout `target`: none is a
/// `RecursivePointer`, and each was interned before `target`.
pub open spec fn no_pair_reaches(
    ls: Seq<LayoutV>,
    pairs: Seq<(usize, InLayout)>,
    target: InLayout,
) -> bool {
    forall|j: int|
        0 <= j < pairs.len() ==> (#[trigger] pairs[j]).1 < target && !is_rec_ptr(ls, pairs[j].1)
}

/// The code for fields that do not lead to the layout `target` holds no
/// call for it, if what follows holds none.
pub proof fn tag_fields_call_no_target(
    g: GenV,
    ctx: Context,
    union_in_layout: InLayout,
    pairs: Seq<(usize, InLayout)>,
    structure: Symbol,
    tag_id: u16,
    following: StmtV,
    k: nat,
    target: InLayout,
)
    requires
        ctx.op is Dec,
        no_pair_reaches(g.layouts, pairs, target),
        !calls_layout(following, target),
    ensures
        !calls_layout(
            refcount_tag_fields_v(
                g,
                ctx,
                union_in_layout,
                pairs,
                structure,
                tag_id,
                following,
                k,
            ).0,
            target,
        ),
    decreases k,
{
    if k == 0 || k > pairs.len() {
    } else {
        tag_fields_call_no_target(
            g,
            ctx,
            union_in_layout,
            pairs,
            structure,
            tag_id,
            following,
            (k - 1) as nat,
            target,
        );
        tag_fields_grow(
            g,
            ctx,
            union_in_layout,
            pairs,
            structure,
            tag_id,
            following,
            (k - 1) as nat,
        );
        let prev = refcount_tag_fields_v(
            g,
            ctx,
            union_in_layout,
            pairs,
            structure,
            tag_id,
            following,
            (k - 1) as nat,
        );
        let pair = pairs[pairs.len() - k];
        assert(pair.1 < target && !is_rec_ptr(g.layouts, pair.1));
        let s = refcount_tag_fields_v(
            g,
            ctx,
            union_in_layout,
            pairs,
            structure,
            tag_id,
            following,
            k,
        ).0;
        if crate::layout::is_refcounted_spec(prev.1.layouts, pair.1) {
            assert(next_of(next_of(s)) == prev.0);
            assert(!calls_layout(next_of(s), target));
        }
    }
}

/// The call of the variant's fields aside, an arm holds no call.
pub proof fn arm_calls_no_target(
    g: GenV,
    ctx: Context,
    union_in_layout: InLayout,
    fields: Seq<InLayout>,
    structure: Symbol,
    jp: JoinPointId,
    tag_id: u16,
    tail: Option<Option<usize>>,
    target: InLayout,
)
    requires
        ctx.op is Dec,
        fields.len() <= usize::MAX,
        fields_below(fields, target as int),
        match tail {
            Some(Some(index)) => index < fields.len() && forall|k: int|
                0 <= k < fields.len() && k != index ==> !is_rec_ptr(g.layouts, #[trigger] fields[k]),
            _ => forall|k: int| 0 <= k < fields.len() ==> !is_rec_ptr(g.layouts, #[trigger] fields[k]),
        },
    ensures
        !calls_layout(
            arm_v(g, ctx, union_in_layout, fields, structure, jp, tag_id, tail).0,
            target,
        ),
{
    match tail {
        None => {
            let pairs = indexed_fields_v(fields, None, fields.len());
            indexed_fields_are_fields(fields, None, fields.len());
            assert(no_pair_reaches(g.layouts, pairs, target)) by {
                assert forall|j: int| 0 <= j < pairs.len() implies (#[trigger] pairs[j]).1 < target
                    && !is_rec_ptr(g.layouts, pairs[j].1) by {
                    assert(fields[pairs[j].0 as int] < target);
                }
            }
            tag_fields_call_no_target(
                g,
                ctx,
                union_in_layout,
                pairs,
                structure,
                tag_id,
                StmtV::Jump(jp, Seq::empty()),
                pairs.len(),
                target,
            );
        },
        Some(index) => {
            let pairs = indexed_fields_v(fields, index, fields.len());
            indexed_fields_are_fields(fields, index, fields.len());
            let following = arm_tail_stmt(g, union_in_layout, fields, structure, jp, tag_id, index);
            assert(!calls_layout(next_of(following), target));
            assert(!calls_layout(following, target));
            assert(no_pair_reaches(skip(g, 1).layouts, pairs, target)) by {
                assert forall|j: int| 0 <= j < pairs.len() implies (#[trigger] pairs[j]).1 < target
                    && !is_rec_ptr(g.layouts, pairs[j].1) by {
                    assert(fields[pairs[j].0 as int] < target);
                }
            }
            tag_fields_call_no_target(
                skip(g, 1),
                ctx,
                union_in_layout,
                pairs,
                structure,
                tag_id,
                following,
                pairs.len(),
                target,
            );
        },
    }
}

/// What the choice of fields that lead on must be for the arms to hold no
/// call for the union itself: each chosen field is in its variant, and no
/// other field of the variant is a `RecursivePointer`.
pub open spec fn tail_takes_every_rec_ptr(
    ls: Seq<LayoutV>,
    tags: Seq<Seq<InLayout>>,
    tail: Option<Seq<Option<usize>>>,
) -> bool {
    forall|t: int|
        0 <= t < tags.len() ==> match tail_of(tail, t) {
            Some(Some(index)) => index < (#[trigger] tags[t]).len() && forall|k: int|
                0 <= k < tags[t].len() && k != index ==> !is_rec_ptr(ls, #[trigger] tags[t][k]),
            _ => forall|k: int| 0 <= k < tags[t].len() ==> !is_rec_ptr(ls, #[trigger] tags[t][k]),
        }
}

/// No arm of the union holds a call for the union itself.
pub proof fn branches_call_no_target(
    g: GenV,
    ctx: Context,
    union_in_layout: InLayout,
    u: UnionLayoutV,
    structure: Symbol,
    jp: JoinPointId,
    tail: Option<Seq<Option<usize>>>,
    n: nat,
)
    requires
        ctx.op is Dec,
        n <= u.tags().len(),
        forall|t: int| 0 <= t < u.tags().len() ==> (#[trigger] u.tags()[t]).len() <= usize::MAX,
        tags_below(u.tags(), union_in_layout as int),
        tail_takes_every_rec_ptr(g.layouts, u.tags(), tail),
    ensures
        forall|i: int|
            0 <= i < tag_branches_v(g, ctx, union_in_layout, u, structure, jp, tail, n).0.len()
                ==> !calls_layout(
                (#[trigger] tag_branches_v(
                    g,
                    ctx,
                    union_in_layout,
                    u,
                    structure,
                    jp,
                    tail,
                    n,
                ).0[i]).2,
                union_in_layout,
            ),
    decreases n,
{
    let branches = tag_branches_v(g, ctx, union_in_layout, u, structure, jp, tail, n).0;
    if n == 0 {
        match u.null_id() {
            Some(id) => {
                let arm = null_arm_v(g, union_in_layout, jp, tail.is_some()).0;
                assert(!calls_layout(next_of(arm), union_in_layout));
                assert(!calls_layout(arm, union_in_layout));
                assert(branches[0].2 == arm);
            },
            None => {},
        }
    } else {
        branches_call_no_target(g, ctx, union_in_layout, u, structure, jp, tail, (n - 1) as nat);
        tag_branches_grow(g, ctx, union_in_layout, u, structure, jp, tail, (n - 1) as nat);
        let before = tag_branches_v(
            g,
            ctx,
            union_in_layout,
            u,
            structure,
            jp,
            tail,
            (n - 1) as nat,
        );
        let fields = u.tags()[n - 1];
        assert(fields_below(fields, union_in_layout as int));
        arm_calls_no_target(
            before.1,
            ctx,
            union_in_layout,
            fields,
            structure,
            jp,
            tag_id_of(n - 1, u.null_id()),
            tail_of(tail, n - 1),
            union_in_layout,
        );
        assert forall|i: int| 0 <= i < branches.len() implies !calls_layout(
            (#[trigger] branches[i]).2,
            union_in_layout,
        ) by {
            if i < before.0.len() {
                assert(branches[i] == before.0[i]);
            }
        }
    }
}

/// A switch over arms that hold no call for the layout holds none.
pub proof fn tag_switch_calls_no_target(
    tag_id_sym: Symbol,
    tag_id_layout: InLayout,
    branches: Seq<(u64, BranchInfo, StmtV)>,
    target: InLayout,
)
    requires
        branches.len() > 0,
        forall|i: int| 0 <= i < branches.len() ==> !calls_layout((#[trigger] branches[i]).2, target),
    ensures
        !calls_layout(tag_switch_v(tag_id_sym, tag_id_layout, branches), target),
{
    let s = tag_switch_v(tag_id_sym, tag_id_layout, branches);
    let rest = branches.drop_last();
    assert(!calls_layout(branches[branches.len() - 1].2, target));
    assert forall|i: int| 0 <= i < rest.len() implies !calls_layout((#[trigger] rest[i]).2, target) by {
        assert(rest[i] == branches[i]);
    }
}

/// Leaving a procedure holds no call.
pub proof fn return_calls_nothing(home: u32, n: nat, ctx: Context, target: InLayout)
    ensures
        !calls_layout(rc_return_stmt_v(home, n, ctx).0, target),
{
    let s = rc_return_stmt_v(home, n, ctx).0;
    if !(ctx.op is DecRef) {
        assert(!calls_layout(next_of(s), target));
    }
}

/// The change of a header holds no call, if what follows holds none.
pub proof fn modify_calls_nothing(
    home: u32,
    n: nat,
    ctx: Context,
    data_ptr: Symbol,
    alignment: u32,
    following: StmtV,
    target: InLayout,
)
    requires
        !calls_layout(following, target),
    ensures
        !calls_layout(
            modify_refcount_v(home, n, ctx, data_ptr, alignment, following).0,
            target,
        ),
{
    let s = modify_refcount_v(home, n, ctx, data_ptr, alignment, following).0;
    if ctx.op is Inc {
        assert(next_of(s) == following);
    } else {
        assert(next_of(next_of(s)) == following);
        assert(!calls_layout(next_of(s), target));
    }
}

/// The recursive form of the decrement of a union none of whose fields is
/// a pointer to the union holds no call for the union.
pub proof fn recursive_form_calls_no_self(
    g: GenV,
    ctx: Context,
    union_in_layout: InLayout,
    u: UnionLayoutV,
    structure: Symbol,
)
    requires
        ctx.op is Dec,
        has_arm(u),
        forall|t: int| 0 <= t < u.tags().len() ==> (#[trigger] u.tags()[t]).len() <= usize::MAX,
        tags_below(u.tags(), union_in_layout as int),
        tail_takes_every_rec_ptr(g.layouts, u.tags(), None),
    ensures
        !calls_layout(
            refcount_union_rec_v(g, ctx, union_in_layout, u, structure).0,
            union_in_layout,
        ),
{
    let target = union_in_layout;
    let home = g.help.home;
    let n = g.idents;
    let s0 = refcount_union_rec_v(g, ctx, union_in_layout, u, structure).0;
    let s1 = next_of(s0);
    let s2 = remainder_of(s1);
    let s3 = next_of(s2);
    let s4 = branch_of(s3, 0);
    let b0 = body_of(s1);
    let alignment = crate::layout::allocation_alignment_spec(
        g.layouts,
        g.help.target,
        union_in_layout,
    ) as u32;
    let ret = rc_return_stmt_v(home, n + 1, ctx);
    return_calls_nothing(home, n + 1, ctx, target);
    modify_calls_nothing(home, ret.1, ctx, structure, alignment, ret.0, target);
    let n2 = modify_refcount_v(home, ret.1, ctx, structure, alignment, ret.0).1;
    let g2 = with_idents(g, n2);
    let jp = JoinPointId(fresh(g2, 0));
    let branches = tag_branches_v(
        skip(g2, 1),
        ctx,
        union_in_layout,
        u,
        structure,
        jp,
        None,
        u.tags().len(),
    ).0;
    branches_call_no_target(
        skip(g2, 1),
        ctx,
        union_in_layout,
        u,
        structure,
        jp,
        None,
        u.tags().len(),
    );
    tag_branches_len(skip(g2, 1), ctx, union_in_layout, u, structure, jp, None, u.tags().len());
    tag_switch_calls_no_target(fresh(g, 0), u.tag_id_layout(), branches, target);
    assert(s4 == tag_switch_v(fresh(g, 0), u.tag_id_layout(), branches));
    assert(!calls_layout(default_of(s3), target));
    assert(!calls_layout(s3, target)) by {
        assert forall|i: int|
            0 <= i < s3->Switch_branches.len() implies !calls_layout(
            (#[trigger] s3->Switch_branches[i]).2,
            target,
        ) by {
            assert(s3->Switch_branches[i].2 == s4);
        }
    }
    assert(!calls_layout(s2, target));
    assert(!calls_layout(b0, target));
    assert(!calls_layout(s1, target));
}

/// The loop form of the decrement of a union holds no call for the union,
/// where the fields that lead on are all the pointers to the union that its
/// variants hold.
pub proof fn loop_form_calls_no_self(
    g: GenV,
    ctx: Context,
    union_in_layout: InLayout,
    u: UnionLayoutV,
    tailrec_indices: Seq<Option<usize>>,
    structure: Symbol,
)
    requires
        ctx.op is Dec,
        has_arm(u),
        forall|t: int| 0 <= t < u.tags().len() ==> (#[trigger] u.tags()[t]).len() <= usize::MAX,
        tags_below(u.tags(), union_in_layout as int),
        tail_takes_every_rec_ptr(g.layouts, u.tags(), Some(tailrec_indices)),
    ensures
        !calls_layout(
            refcount_union_tailrec_v(g, ctx, union_in_layout, u, tailrec_indices, structure).0,
            union_in_layout,
        ),
{
    let target = union_in_layout;
    let home = g.help.home;
    let n = g.idents;
    let s0 = refcount_union_tailrec_v(g, ctx, union_in_layout, u, tailrec_indices, structure).0;
    let l0 = body_of(s0);
    let l1 = next_of(l0);
    let l2 = remainder_of(l1);
    let l3 = next_of(l2);
    let l4 = default_of(l3);
    let l6 = branch_of(l3, 0);
    let m0 = body_of(l1);
    let alignment = crate::layout::allocation_alignment_spec(
        g.layouts,
        g.help.target,
        union_in_layout,
    ) as u32;
    let exit = rc_return_stmt_v(home, n + 5, ctx);
    return_calls_nothing(home, n + 5, ctx, target);
    let after = crate::ir::let_lowlevel_v(
        g.help.target.layout_isize(),
        fresh(g, 4),
        LowLevel::PtrCast,
        seq![fresh(g, 2)],
        next_of(next_of(next_of(m0))),
    );
    let loop_or_exit = next_of(after);
    assert(!calls_layout(default_of(loop_or_exit), target));
    assert(!calls_layout(loop_or_exit, target)) by {
        assert forall|i: int|
            0 <= i < loop_or_exit->Switch_branches.len() implies !calls_layout(
            (#[trigger] loop_or_exit->Switch_branches[i]).2,
            target,
        ) by {
            assert(loop_or_exit->Switch_branches[i].2 == exit.0);
        }
    }
    assert(!calls_layout(after, target));
    modify_calls_nothing(home, exit.1, ctx, fresh(g, 1), alignment, after, target);
    let n2 = modify_refcount_v(home, exit.1, ctx, fresh(g, 1), alignment, after).1;
    let g2 = with_idents(g, n2);
    let jp = JoinPointId(fresh(g2, 0));
    let branches = tag_branches_v(
        skip(g2, 1),
        ctx,
        union_in_layout,
        u,
        fresh(g, 1),
        jp,
        Some(tailrec_indices),
        u.tags().len(),
    ).0;
    branches_call_no_target(
        skip(g2, 1),
        ctx,
        union_in_layout,
        u,
        fresh(g, 1),
        jp,
        Some(tailrec_indices),
        u.tags().len(),
    );
    tag_branches_len(
        skip(g2, 1),
        ctx,
        union_in_layout,
        u,
        fresh(g, 1),
        jp,
        Some(tailrec_indices),
        u.tags().len(),
    );
    tag_switch_calls_no_target(fresh(g, 3), u.tag_id_layout(), branches, target);
    assert(l6 == tag_switch_v(fresh(g, 3), u.tag_id_layout(), branches));
    assert(!calls_layout(next_of(l4), target));
    assert(!calls_layout(l4, target));
    assert(!calls_layout(l3, target)) by {
        assert forall|i: int|
            0 <= i < l3->Switch_branches.len() implies !calls_layout(
            (#[trigger] l3->Switch_branches[i]).2,
            target,
        ) by {
            assert(l3->Switch_branches[i].2 == l6);
        }
    }
    assert(!calls_layout(l2, target));
    assert(!calls_layout(m0, target));
    assert(!calls_layout(l1, target));
    assert(!calls_layout(l0, target));
    assert(!calls_layout(remainder_of(s0), target));
}

/// The decrement of a union in the shape of a list needs no stack that
/// grows with the list: its body holds no call of the procedure for the
/// union itself. Every step to the next value is a jump inside the body.
pub proof fn list_shaped_union_never_calls_itself(
    g: GenV,
    ctx: Context,
    union_in_layout: InLayout,
    u: UnionLayoutV,
    structure: Symbol,
)
    requires
        ctx.op is Dec,
        u.is_recursive(),
        !(u is NonNullableUnwrapped),
        has_arm(u),
        forall|t: int| 0 <= t < u.tags().len() ==> (#[trigger] u.tags()[t]).len() <= usize::MAX,
        tags_below(u.tags(), union_in_layout as int),
        list_shaped(g.layouts, u),
    ensures
        !calls_layout(
            refcount_union_v(g, ctx, union_in_layout, u, structure).0,
            union_in_layout,
        ),
{
    let inner = inside_union(ctx, union_in_layout, u);
    let tags = u.tags();
    let ls = g.layouts;
    match tail_recursion_fields_v(ls, u) {
        Some(indices) => {
            assert(tail_takes_every_rec_ptr(ls, tags, Some(indices))) by {
                assert forall|t: int| 0 <= t < tags.len() implies match tail_of(Some(indices), t) {
                    Some(Some(index)) => index < (#[trigger] tags[t]).len() && forall|k: int|
                        0 <= k < tags[t].len() && k != index ==> !is_rec_ptr(
                            ls,
                            #[trigger] tags[t][k],
                        ),
                    _ => forall|k: int|
                        0 <= k < tags[t].len() ==> !is_rec_ptr(ls, #[trigger] tags[t][k]),
                } by {
                    first_rec_ptr_is_first(ls, tags[t], 0);
                    assert(indices[t] == first_rec_ptr(ls, tags[t], 0));
                }
            }
            loop_form_calls_no_self(g, inner, union_in_layout, u, indices, structure);
        },
        None => {
            assert(tail_takes_every_rec_ptr(ls, tags, None)) by {
                assert forall|t: int| 0 <= t < tags.len() implies (forall|k: int|
                    0 <= k < (#[trigger] tags[t]).len() ==> !is_rec_ptr(ls, #[trigger] tags[t][k])) by {
                    first_rec_ptr_is_first(ls, tags[t], 0);
                    assert(first_rec_ptr(ls, tags[t], 0).is_none());
                }
            }
            recursive_form_calls_no_self(g, inner, union_in_layout, u, structure);
        },
    }
}

} // verus!
