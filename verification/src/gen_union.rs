//! Generators for tagged unions: the flat form, the recursive form with its
//! fast path for shared values, and the loop that walks a chain of values
//! without growing the stack.

use vstd::prelude::*;
use crate::symbol::{Symbol, JoinPointId, IdentIds};
use crate::low_level::LowLevel;
use crate::layout::{
    InLayout, LayoutV, UnionLayout, UnionLayoutV, LAYOUT_UNIT, LAYOUT_BOOL, MAX_TAGS,
    is_refcounted_spec, allocation_alignment_spec,
};
use crate::interner::LayoutInterner;
use crate::ir::{
    Expr, ExprV, Stmt, StmtV, Param, Ownership, BranchInfo, let_v, let_lowlevel_v,
    if_then_else_v, join_v, branches_view, syms0, syms1, let_lowlevel,
};
use crate::helper::{
    CodeGenHelp, Context, GenV, gen_state, gen_wf, fresh, skip, with_idents, child_ready,
    call_specialized_op_v, tail_recursion_fields_v,
};
use crate::gen_basic::{
    rc_return_stmt_v, refcount_args_v, modify_refcount_v, modifies_header, rc_return_stmt,
    refcount_args, modify_refcount,
};

verus! {

/// The first `n` of `fields`, each with its place, without the one at place
/// `skip`.
pub open spec fn indexed_fields_v(fields: Seq<InLayout>, skip: Option<usize>, n: nat) -> Seq<
    (usize, InLayout),
>
    decreases n,
{
    if n == 0 || n > fields.len() {
        Seq::empty()
    } else {
        let before = indexed_fields_v(fields, skip, (n - 1) as nat);
        if skip == Some((n - 1) as usize) {
            before
        } else {
            before.push(((n - 1) as usize, fields[n - 1]))
        }
    }
}

/// Every field of `pairs` is ready in the sense of `child_ready`.
pub open spec fn pairs_ready(
    ls: Seq<LayoutV>,
    pairs: Seq<(usize, InLayout)>,
    ctx: Context,
) -> bool {
    forall|j: int| 0 <= j < pairs.len() ==> child_ready(ls, (#[trigger] pairs[j]).1, ctx)
}

/// Every field of every variant is ready in the sense of `child_ready`.
pub open spec fn tags_ready(ls: Seq<LayoutV>, tags: Seq<Seq<InLayout>>, ctx: Context) -> bool {
    forall|t: int, k: int|
        0 <= t < tags.len() && 0 <= k < tags[t].len() ==> child_ready(
            ls,
            #[trigger] tags[t][k],
            ctx,
        )
}

/// The tag id of the `i`-th variant that holds fields: their numbering
/// leaves out the id of the null variant.
pub open spec fn tag_id_of(i: int, null_id: Option<u16>) -> u16 {
    match null_id {
        Some(n) => if i >= n {
            (i + 1) as u16
        } else {
            i as u16
        },
        None => i as u16,
    }
}

/// The code for the last `k` of the fields `pairs` of variant `tag_id`, then
/// `following`: each refcounted field is projected out of `structure` and
/// handed to the procedure of its layout, in the order of the fields.
pub open spec fn refcount_tag_fields_v(
    g: GenV,
    ctx: Context,
    union_in_layout: InLayout,
    pairs: Seq<(usize, InLayout)>,
    structure: Symbol,
    tag_id: u16,
    following: StmtV,
    k: nat,
) -> (StmtV, GenV)
    decreases k,
{
    if k == 0 || k > pairs.len() {
        (following, g)
    } else {
        let (inner, g1) = refcount_tag_fields_v(
            g,
            ctx,
            union_in_layout,
            pairs,
            structure,
            tag_id,
            following,
            (k - 1) as nat,
        );
        let (i, field) = pairs[pairs.len() - k];
        if is_refcounted_spec(g1.layouts, field) {
            let field_val = fresh(g1, 0);
            let mod_unit = fresh(g1, 1);
            let (mod_expr, g2) = call_specialized_op_v(
                skip(g1, 2),
                ctx,
                field,
                refcount_args_v(ctx, field_val),
            );
            (
                let_v(
                    field_val,
                    ExprV::UnionAtIndex {
                        structure,
                        tag_id,
                        union_layout: union_in_layout,
                        index: i as u64,
                    },
                    field,
                    let_v(mod_unit, mod_expr, LAYOUT_UNIT, inner),
                ),
                g2,
            )
        } else {
            (inner, g1)
        }
    }
}

/// The code of the arm for the variant with these `fields`. In the plain
/// form the arm releases the fields and jumps to `jp`. In the form of the
/// loop, where `tail` says which field leads on, the arm releases the other
/// fields and jumps to `jp` with that field, or with a null pointer where the
/// variant has no such field.
pub open spec fn arm_v(
    g: GenV,
    ctx: Context,
    union_in_layout: InLayout,
    fields: Seq<InLayout>,
    structure: Symbol,
    jp: JoinPointId,
    tag_id: u16,
    tail: Option<Option<usize>>,
) -> (StmtV, GenV) {
    match tail {
        None => {
            let pairs = indexed_fields_v(fields, None, fields.len());
            refcount_tag_fields_v(
                g,
                ctx,
                union_in_layout,
                pairs,
                structure,
                tag_id,
                StmtV::Jump(jp, Seq::empty()),
                pairs.len(),
            )
        },
        Some(Some(index)) => {
            let pairs = indexed_fields_v(fields, Some(index), fields.len());
            let field_val = fresh(g, 0);
            let tail_stmt = let_v(
                field_val,
                ExprV::UnionAtIndex {
                    structure,
                    tag_id,
                    union_layout: union_in_layout,
                    index: index as u64,
                },
                fields[index as int],
                StmtV::Jump(jp, seq![field_val]),
            );
            refcount_tag_fields_v(
                skip(g, 1),
                ctx,
                union_in_layout,
                pairs,
                structure,
                tag_id,
                tail_stmt,
                pairs.len(),
            )
        },
        Some(None) => {
            let pairs = indexed_fields_v(fields, None, fields.len());
            let null = fresh(g, 0);
            let tail_stmt = let_v(
                null,
                ExprV::NullPointer,
                union_in_layout,
                StmtV::Jump(jp, seq![null]),
            );
            refcount_tag_fields_v(
                skip(g, 1),
                ctx,
                union_in_layout,
                pairs,
                structure,
                tag_id,
                tail_stmt,
                pairs.len(),
            )
        },
    }
}

/// The arm for the null variant: there is nothing to release, so it jumps to
/// `jp`, in the form of the loop with a null pointer as the next value.
pub open spec fn null_arm_v(g: GenV, union_in_layout: InLayout, jp: JoinPointId, in_loop: bool) -> (
    StmtV,
    GenV,
) {
    if in_loop {
        let null = fresh(g, 0);
        (
            let_v(null, ExprV::NullPointer, union_in_layout, StmtV::Jump(jp, seq![null])),
            skip(g, 1),
        )
    } else {
        (StmtV::Jump(jp, Seq::empty()), g)
    }
}

/// Which field of the `t`-th variant leads on, in the form of the loop.
pub open spec fn tail_of(tail: Option<Seq<Option<usize>>>, t: int) -> Option<Option<usize>> {
    match tail {
        Some(indices) => Some(indices[t]),
        None => None,
    }
}

/// The arms of the switch over the tag id: the arm of the null variant, if
/// the union has one, then those of the first `n` variants that hold fields.
pub open spec fn tag_branches_v(
    g: GenV,
    ctx: Context,
    union_in_layout: InLayout,
    u: UnionLayoutV,
    structure: Symbol,
    jp: JoinPointId,
    tail: Option<Seq<Option<usize>>>,
    n: nat,
) -> (Seq<(u64, BranchInfo, StmtV)>, GenV)
    decreases n,
{
    if n == 0 || n > u.tags().len() {
        match u.null_id() {
            Some(id) => {
                let (arm, g1) = null_arm_v(g, union_in_layout, jp, tail.is_some());
                (seq![(id as u64, BranchInfo::Unknown, arm)], g1)
            },
            None => (Seq::empty(), g),
        }
    } else {
        let (before, g1) = tag_branches_v(
            g,
            ctx,
            union_in_layout,
            u,
            structure,
            jp,
            tail,
            (n - 1) as nat,
        );
        let tag_id = tag_id_of(n - 1, u.null_id());
        let (arm, g2) = arm_v(
            g1,
            ctx,
            union_in_layout,
            u.tags()[n - 1],
            structure,
            jp,
            tag_id,
            tail_of(tail, n - 1),
        );
        (before.push((tag_id as u64, BranchInfo::Unknown, arm)), g2)
    }
}

/// The switch over the tag id with these arms, the last of them as the
/// default.
pub open spec fn tag_switch_v(
    tag_id_sym: Symbol,
    tag_id_layout: InLayout,
    branches: Seq<(u64, BranchInfo, StmtV)>,
) -> StmtV {
    StmtV::Switch {
        cond_symbol: tag_id_sym,
        cond_layout: tag_id_layout,
        branches: branches.drop_last(),
        default_branch: (BranchInfo::Unknown, Box::new(branches.last().2)),
        ret_layout: LAYOUT_UNIT,
    }
}

/// The union has an arm to switch to.
pub open spec fn has_arm(u: UnionLayoutV) -> bool {
    u.tags().len() > 0 || u.null_id().is_some()
}

/// The release of the fields of a union value, then `next_stmt`: a switch
/// over the tag id whose arms release the fields of their variant and meet
/// at a join point. With `unique_check` the switch is entered only where the
/// value has one reference; a shared value goes to `next_stmt` directly.
pub open spec fn refcount_union_contents_v(
    g: GenV,
    ctx: Context,
    union_in_layout: InLayout,
    u: UnionLayoutV,
    structure: Symbol,
    tag_id_sym: Symbol,
    unique_check: bool,
    next_stmt: StmtV,
) -> (StmtV, GenV) {
    let jp_contents_modified = JoinPointId(fresh(g, 0));
    let (branches, g1) = tag_branches_v(
        skip(g, 1),
        ctx,
        union_in_layout,
        u,
        structure,
        jp_contents_modified,
        None,
        u.tags().len(),
    );
    let tag_id_switch = tag_switch_v(tag_id_sym, u.tag_id_layout(), branches);
    if unique_check {
        let is_unique = fresh(g1, 0);
        (
            join_v(
                jp_contents_modified,
                Seq::empty(),
                next_stmt,
                let_lowlevel_v(
                    LAYOUT_BOOL,
                    is_unique,
                    LowLevel::RefCountIsUnique,
                    seq![structure],
                    if_then_else_v(
                        is_unique,
                        LAYOUT_UNIT,
                        tag_id_switch,
                        StmtV::Jump(jp_contents_modified, Seq::empty()),
                    ),
                ),
            ),
            skip(g1, 1),
        )
    } else {
        (join_v(jp_contents_modified, Seq::empty(), next_stmt, tag_id_switch), g1)
    }
}

/// The body of the procedure for a flat union: the fields of the variant at
/// hand are released; the union itself has no header.
pub open spec fn refcount_union_nonrec_v(
    g: GenV,
    ctx: Context,
    union_in_layout: InLayout,
    u: UnionLayoutV,
    structure: Symbol,
) -> (StmtV, GenV) {
    let tag_id_sym = fresh(g, 0);
    let (continuation, n1) = rc_return_stmt_v(g.help.home, g.idents + 1, ctx);
    let (contents, g2) = refcount_union_contents_v(
        with_idents(g, n1),
        ctx,
        union_in_layout,
        u,
        structure,
        tag_id_sym,
        false,
        continuation,
    );
    (
        let_v(
            tag_id_sym,
            ExprV::GetTagId { structure, union_layout: union_in_layout },
            u.tag_id_layout(),
            contents,
        ),
        g2,
    )
}

/// The body of the procedure for a recursive union. The change of the header
/// stands in a join point. A decrement of the only reference releases the
/// fields of the variant at hand and then goes there; every other path goes
/// there directly.
pub open spec fn refcount_union_rec_v(
    g: GenV,
    ctx: Context,
    union_in_layout: InLayout,
    u: UnionLayoutV,
    structure: Symbol,
) -> (StmtV, GenV) {
    let tag_id_sym = fresh(g, 0);
    let alignment = allocation_alignment_spec(g.layouts, g.help.target, union_in_layout) as u32;
    let (ret_stmt, n1) = rc_return_stmt_v(g.help.home, g.idents + 1, ctx);
    let (rc_structure_stmt, n2) = modify_refcount_v(
        g.help.home,
        n1,
        ctx,
        structure,
        alignment,
        ret_stmt,
    );
    let g2 = with_idents(g, n2);
    let (body, g3) = if ctx.op.is_dec() {
        refcount_union_contents_v(
            g2,
            ctx,
            union_in_layout,
            u,
            structure,
            tag_id_sym,
            true,
            rc_structure_stmt,
        )
    } else {
        let jp_modify_union = JoinPointId(fresh(g2, 0));
        (
            join_v(
                jp_modify_union,
                Seq::empty(),
                rc_structure_stmt,
                StmtV::Jump(jp_modify_union, Seq::empty()),
            ),
            skip(g2, 1),
        )
    };
    (
        let_v(
            tag_id_sym,
            ExprV::GetTagId { structure, union_layout: union_in_layout },
            u.tag_id_layout(),
            body,
        ),
        g3,
    )
}

/// The body of the decrement of a recursive union as a loop. Each round
/// takes the value `current`: where it has one reference, the fields that do
/// not lead on are released and the one that does becomes `next_ptr`; where
/// it is shared or null, `next_ptr` is null. Then the header of `current` is
/// decremented, and the loop goes on with `next_ptr` unless that is null.
pub open spec fn refcount_union_tailrec_v(
    g: GenV,
    ctx: Context,
    union_in_layout: InLayout,
    u: UnionLayoutV,
    tailrec_indices: Seq<Option<usize>>,
    initial_structure: Symbol,
) -> (StmtV, GenV) {
    let layout_isize = g.help.target.layout_isize();
    let tailrec_loop = JoinPointId(fresh(g, 0));
    let current = fresh(g, 1);
    let next_ptr = fresh(g, 2);
    let tag_id_sym = fresh(g, 3);
    let next_addr = fresh(g, 4);
    let (exit_stmt, n1) = rc_return_stmt_v(g.help.home, g.idents + 5, ctx);
    let loop_or_exit = StmtV::Switch {
        cond_symbol: next_addr,
        cond_layout: layout_isize,
        branches: seq![(0u64, BranchInfo::Unknown, exit_stmt)],
        default_branch: (
            BranchInfo::Unknown,
            Box::new(StmtV::Jump(tailrec_loop, seq![next_ptr])),
        ),
        ret_layout: LAYOUT_UNIT,
    };
    let alignment = allocation_alignment_spec(g.layouts, g.help.target, union_in_layout) as u32;
    let (rc_structure_stmt, n2) = modify_refcount_v(
        g.help.home,
        n1,
        ctx,
        current,
        alignment,
        let_lowlevel_v(layout_isize, next_addr, LowLevel::PtrCast, seq![next_ptr], loop_or_exit),
    );
    let g2 = with_idents(g, n2);
    let jp_modify_union = JoinPointId(fresh(g2, 0));
    let (branches, g3) = tag_branches_v(
        skip(g2, 1),
        ctx,
        union_in_layout,
        u,
        current,
        jp_modify_union,
        Some(tailrec_indices),
        u.tags().len(),
    );
    let tag_id_switch = tag_switch_v(tag_id_sym, u.tag_id_layout(), branches);
    let is_unique = fresh(g3, 0);
    let null_pointer = fresh(g3, 1);
    let jump_with_null_ptr = let_v(
        null_pointer,
        ExprV::NullPointer,
        union_in_layout,
        StmtV::Jump(jp_modify_union, seq![null_pointer]),
    );
    let rc_contents_then_structure = join_v(
        jp_modify_union,
        seq![Param { symbol: next_ptr, ownership: Ownership::Borrowed, layout: union_in_layout }],
        rc_structure_stmt,
        let_lowlevel_v(
            LAYOUT_BOOL,
            is_unique,
            LowLevel::RefCountIsUnique,
            seq![current],
            if_then_else_v(is_unique, LAYOUT_UNIT, tag_id_switch, jump_with_null_ptr),
        ),
    );
    let loop_body = let_v(
        tag_id_sym,
        ExprV::GetTagId { structure: current, union_layout: union_in_layout },
        u.tag_id_layout(),
        rc_contents_then_structure,
    );
    (
        join_v(
            tailrec_loop,
            seq![Param { symbol: current, ownership: Ownership::Borrowed, layout: union_in_layout }],
            loop_body,
            StmtV::Jump(tailrec_loop, seq![initial_structure]),
        ),
        skip(g3, 2),
    )
}

/// The context inside the union: a recursive union is what a
/// `RecursivePointer` among its fields stands for.
pub open spec fn inside_union(ctx: Context, union_in_layout: InLayout, u: UnionLayoutV) -> Context {
    if u.is_recursive() {
        Context { recursive_union: Some(union_in_layout), ..ctx }
    } else {
        ctx
    }
}

/// The body of the procedure for a union, in the form that fits its shape
/// and the operation: the flat form; for a decrement of a recursive union
/// with a field that leads on, the loop; else the recursive form.
pub open spec fn refcount_union_v(
    g: GenV,
    ctx: Context,
    union_in_layout: InLayout,
    u: UnionLayoutV,
    structure: Symbol,
) -> (StmtV, GenV) {
    let inner = inside_union(ctx, union_in_layout, u);
    match u {
        UnionLayoutV::NonRecursive(_) => refcount_union_nonrec_v(
            g,
            inner,
            union_in_layout,
            u,
            structure,
        ),
        UnionLayoutV::NonNullableUnwrapped(_) => refcount_union_rec_v(
            g,
            inner,
            union_in_layout,
            u,
            structure,
        ),
        _ => match tail_recursion_fields_v(g.layouts, u) {
            Some(indices) => if ctx.op.is_dec() {
                refcount_union_tailrec_v(g, inner, union_in_layout, u, indices, structure)
            } else {
                refcount_union_rec_v(g, inner, union_in_layout, u, structure)
            },
            None => refcount_union_rec_v(g, inner, union_in_layout, u, structure),
        },
    }
}

/// Lists `fields` with their places, leaving out the one at place `skip`.
pub fn indexed_fields(fields: &Vec<InLayout>, skip: Option<usize>) -> (pairs: Vec<
    (usize, InLayout),
>)
    ensures
        pairs@ == indexed_fields_v(fields@, skip, fields@.len()),
        forall|j: int|
            0 <= j < pairs@.len() ==> (#[trigger] pairs@[j]).0 < fields@.len() && pairs@[j].1
                == fields@[pairs@[j].0 as int],
{
    let mut pairs: Vec<(usize, InLayout)> = Vec::new();
    let mut i: usize = 0;
    while i < fields.len()
        invariant
            i <= fields.len(),
            pairs@ == indexed_fields_v(fields@, skip, i as nat),
            forall|j: int|
                0 <= j < pairs@.len() ==> (#[trigger] pairs@[j]).0 < fields@.len() && pairs@[j].1
                    == fields@[pairs@[j].0 as int],
        decreases fields.len() - i,
    {
        let keep = match skip {
            Some(s) => s != i,
            None => true,
        };
        if keep {
            pairs.push((i, fields[i]));
        }
        i += 1;
    }
    pairs
}

/// Generates the release of the fields of one variant, followed by
/// `following`.
pub fn refcount_tag_fields(
    root: &mut CodeGenHelp,
    ident_ids: &mut IdentIds,
    ctx: &Context,
    interner: &LayoutInterner,
    union_in_layout: InLayout,
    field_layouts: &Vec<(usize, InLayout)>,
    structure: Symbol,
    tag_id: u16,
    following: Stmt,
) -> (s: Stmt)
    requires
        gen_wf(old(root), old(ident_ids), interner),
        pairs_ready(interner@, field_layouts@, *ctx),
    ensures
        gen_wf(final(root), final(ident_ids), interner),
        (s@, gen_state(final(root), final(ident_ids), interner)) == refcount_tag_fields_v(
            gen_state(old(root), old(ident_ids), interner),
            *ctx,
            union_in_layout,
            field_layouts@,
            structure,
            tag_id,
            following@,
            field_layouts@.len(),
        ),
{
    let ghost g0 = gen_state(root, ident_ids, interner);
    let ghost f0 = following@;
    let mut stmt = following;
    let n = field_layouts.len();
    let mut k: usize = 0;
    while k < n
        invariant
            k <= n,
            n == field_layouts@.len(),
            gen_wf(root, ident_ids, interner),
            pairs_ready(interner@, field_layouts@, *ctx),
            (stmt@, gen_state(root, ident_ids, interner)) == refcount_tag_fields_v(
                g0,
                *ctx,
                union_in_layout,
                field_layouts@,
                structure,
                tag_id,
                f0,
                k as nat,
            ),
        decreases n - k,
    {
        let (i, field) = field_layouts[n - 1 - k];
        assert(child_ready(interner@, field_layouts@[n - 1 - k].1, *ctx));
        if interner.is_refcounted(field) {
            let field_val = root.create_symbol(ident_ids, "field");
            let field_val_expr = Expr::UnionAtIndex {
                structure,
                tag_id,
                union_layout: union_in_layout,
                index: i as u64,
            };
            let mod_unit = root.create_symbol(ident_ids, "mod_field");
            let mod_args = refcount_args(ctx, field_val);
            let mod_expr = root.call_specialized_op(ident_ids, ctx, interner, field, mod_args);
            stmt = Stmt::new_let(
                field_val,
                field_val_expr,
                field,
                Stmt::new_let(mod_unit, mod_expr, LAYOUT_UNIT, stmt),
            );
        }
        k += 1;
    }
    stmt
}

/// The view of the choice of fields that lead on.
pub open spec fn tail_view(tail: Option<&Vec<Option<usize>>>) -> Option<Seq<Option<usize>>> {
    match tail {
        Some(indices) => Some(indices@),
        None => None,
    }
}

/// The choice of fields that lead on fits the variants: one entry for each,
/// and each entry names a field of its variant.
pub open spec fn tail_fits(tail: Option<Seq<Option<usize>>>, tags: Seq<Seq<InLayout>>) -> bool {
    match tail {
        Some(indices) => indices.len() == tags.len() && forall|t: int|
            0 <= t < tags.len() ==> match #[trigger] indices[t] {
                Some(i) => i < tags[t].len(),
                None => true,
            },
        None => true,
    }
}

/// Builds the arms of the switch over the tag id of a union value.
pub fn tag_branches(
    root: &mut CodeGenHelp,
    ident_ids: &mut IdentIds,
    ctx: &Context,
    interner: &LayoutInterner,
    union_in_layout: InLayout,
    union_layout: &UnionLayout,
    structure: Symbol,
    jp: JoinPointId,
    tail: Option<&Vec<Option<usize>>>,
) -> (branches: Vec<(u64, BranchInfo, Stmt)>)
    requires
        gen_wf(old(root), old(ident_ids), interner),
        tags_ready(interner@, union_layout@.tags(), *ctx),
        union_layout@.tags().len() < MAX_TAGS,
        tail_fits(tail_view(tail), union_layout@.tags()),
    ensures
        gen_wf(final(root), final(ident_ids), interner),
        (branches_view(branches@), gen_state(final(root), final(ident_ids), interner))
            == tag_branches_v(
            gen_state(old(root), old(ident_ids), interner),
            *ctx,
            union_in_layout,
            union_layout@,
            structure,
            jp,
            tail_view(tail),
            union_layout@.tags().len(),
        ),
{
    let ghost g0 = gen_state(root, ident_ids, interner);
    let ghost u = union_layout@;
    let ghost tv = tail_view(tail);
    let null_id = union_layout.null_id();
    let mut branches: Vec<(u64, BranchInfo, Stmt)> = Vec::new();
    match null_id {
        Some(id) => {
            let arm = match tail {
                Some(_) => {
                    let null = root.create_symbol(ident_ids, "null");
                    Stmt::new_let(
                        null,
                        Expr::NullPointer,
                        union_in_layout,
                        Stmt::new_jump(jp, syms1(null)),
                    )
                },
                None => Stmt::new_jump(jp, syms0()),
            };
            let ghost av = arm@;
            branches.push((id as u64, BranchInfo::Unknown, arm));
            proof {
                assert(branches_view(branches@) =~= seq![(id as u64, BranchInfo::Unknown, av)]);
            }
        },
        None => {
            proof {
                assert(branches_view(branches@) =~= Seq::empty());
            }
        },
    }
    let n = union_layout.num_tags();
    let mut t: usize = 0;
    while t < n
        invariant
            t <= n,
            n == u.tags().len(),
            n < MAX_TAGS,
            u == union_layout@,
            tv == tail_view(tail),
            null_id == u.null_id(),
            gen_wf(root, ident_ids, interner),
            tags_ready(interner@, u.tags(), *ctx),
            tail_fits(tv, u.tags()),
            (branches_view(branches@), gen_state(root, ident_ids, interner)) == tag_branches_v(
                g0,
                *ctx,
                union_in_layout,
                u,
                structure,
                jp,
                tv,
                t as nat,
            ),
        decreases n - t,
    {
        let fields = union_layout.tag_fields(t);
        let tag_id: u16 = match null_id {
            Some(id) => if t >= id as usize {
                (t + 1) as u16
            } else {
                t as u16
            },
            None => t as u16,
        };
        let ghost before = branches_view(branches@);
        let arm = match tail {
            None => {
                let pairs = indexed_fields(fields, None);
                assert(pairs_ready(interner@, pairs@, *ctx)) by {
                    assert forall|j: int| 0 <= j < pairs@.len() implies child_ready(
                        interner@,
                        (#[trigger] pairs@[j]).1,
                        *ctx,
                    ) by {
                        assert(child_ready(interner@, u.tags()[t as int][pairs@[j].0 as int], *ctx));
                    }
                }
                refcount_tag_fields(
                    root,
                    ident_ids,
                    ctx,
                    interner,
                    union_in_layout,
                    &pairs,
                    structure,
                    tag_id,
                    Stmt::new_jump(jp, syms0()),
                )
            },
            Some(indices) => {
                let index = indices[t];
                let pairs = indexed_fields(fields, index);
                assert(pairs_ready(interner@, pairs@, *ctx)) by {
                    assert forall|j: int| 0 <= j < pairs@.len() implies child_ready(
                        interner@,
                        (#[trigger] pairs@[j]).1,
                        *ctx,
                    ) by {
                        assert(child_ready(interner@, u.tags()[t as int][pairs@[j].0 as int], *ctx));
                    }
                }
                let tail_stmt = match index {
                    Some(i) => {
                        let field_val = root.create_symbol(ident_ids, "field");
                        let field_val_expr = Expr::UnionAtIndex {
                            structure,
                            tag_id,
                            union_layout: union_in_layout,
                            index: i as u64,
                        };
                        Stmt::new_let(
                            field_val,
                            field_val_expr,
                            fields[i],
                            Stmt::new_jump(jp, syms1(field_val)),
                        )
                    },
                    None => {
                        let null = root.create_symbol(ident_ids, "null");
                        Stmt::new_let(
                            null,
                            Expr::NullPointer,
                            union_in_layout,
                            Stmt::new_jump(jp, syms1(null)),
                        )
                    },
                };
                refcount_tag_fields(
                    root,
                    ident_ids,
                    ctx,
                    interner,
                    union_in_layout,
                    &pairs,
                    structure,
                    tag_id,
                    tail_stmt,
                )
            },
        };
        let ghost av = arm@;
        branches.push((tag_id as u64, BranchInfo::Unknown, arm));
        proof {
            assert(branches_view(branches@) =~= before.push(
                (tag_id as u64, BranchInfo::Unknown, av),
            ));
        }
        t += 1;
    }
    branches
}

/// Makes the switch over the tag id from its arms; the last arm becomes the
/// default.
pub fn tag_switch(
    tag_id_sym: Symbol,
    tag_id_layout: InLayout,
    branches: Vec<(u64, BranchInfo, Stmt)>,
) -> (s: Stmt)
    requires
        branches@.len() > 0,
    ensures
        s@ == tag_switch_v(tag_id_sym, tag_id_layout, branches_view(branches@)),
{
    let mut branches = branches;
    let ghost all = branches_view(branches@);
    let last = branches.pop();
    match last {
        Some((_, _, default_stmt)) => {
            proof {
                assert(branches_view(branches@) =~= all.drop_last());
                assert(default_stmt@ == all.last().2);
            }
            Stmt::new_switch(
                tag_id_sym,
                tag_id_layout,
                branches,
                BranchInfo::Unknown,
                default_stmt,
                LAYOUT_UNIT,
            )
        },
        None => Stmt::new_ret(tag_id_sym),
    }
}

/// The number of arms of a union.
pub proof fn tag_branches_len(
    g: GenV,
    ctx: Context,
    union_in_layout: InLayout,
    u: UnionLayoutV,
    structure: Symbol,
    jp: JoinPointId,
    tail: Option<Seq<Option<usize>>>,
    n: nat,
)
    requires
        n <= u.tags().len(),
    ensures
        tag_branches_v(g, ctx, union_in_layout, u, structure, jp, tail, n).0.len() == n + (
        if u.null_id().is_some() {
            1nat
        } else {
            0nat
        }),
    decreases n,
{
    if n > 0 {
        tag_branches_len(g, ctx, union_in_layout, u, structure, jp, tail, (n - 1) as nat);
    }
}

/// Generates the release of the fields of a union value through a switch
/// over its tag id, followed by `next_stmt`.
pub fn refcount_union_contents(
    root: &mut CodeGenHelp,
    ident_ids: &mut IdentIds,
    ctx: &Context,
    interner: &LayoutInterner,
    union_in_layout: InLayout,
    union_layout: &UnionLayout,
    structure: Symbol,
    tag_id_sym: Symbol,
    unique_check: bool,
    next_stmt: Stmt,
) -> (s: Stmt)
    requires
        gen_wf(old(root), old(ident_ids), interner),
        tags_ready(interner@, union_layout@.tags(), *ctx),
        union_layout@.tags().len() < MAX_TAGS,
        has_arm(union_layout@),
    ensures
        gen_wf(final(root), final(ident_ids), interner),
        (s@, gen_state(final(root), final(ident_ids), interner)) == refcount_union_contents_v(
            gen_state(old(root), old(ident_ids), interner),
            *ctx,
            union_in_layout,
            union_layout@,
            structure,
            tag_id_sym,
            unique_check,
            next_stmt@,
        ),
{
    let ghost g0 = gen_state(root, ident_ids, interner);
    let jp_contents_modified = JoinPointId(root.create_symbol(ident_ids, "jp_contents_modified"));
    let branches = tag_branches(
        root,
        ident_ids,
        ctx,
        interner,
        union_in_layout,
        union_layout,
        structure,
        jp_contents_modified,
        None,
    );
    proof {
        tag_branches_len(
            skip(g0, 1),
            *ctx,
            union_in_layout,
            union_layout@,
            structure,
            jp_contents_modified,
            None,
            union_layout@.tags().len(),
        );
    }
    let tag_id_switch = tag_switch(tag_id_sym, union_layout.tag_id_layout(), branches);
    if unique_check {
        let is_unique = root.create_symbol(ident_ids, "is_unique");
        let switch_with_unique_check = Stmt::if_then_else(
            is_unique,
            LAYOUT_UNIT,
            tag_id_switch,
            Stmt::new_jump(jp_contents_modified, syms0()),
        );
        Stmt::new_join(
            jp_contents_modified,
            Vec::new(),
            next_stmt,
            let_lowlevel(
                LAYOUT_BOOL,
                is_unique,
                LowLevel::RefCountIsUnique,
                syms1(structure),
                switch_with_unique_check,
            ),
        )
    } else {
        Stmt::new_join(jp_contents_modified, Vec::new(), next_stmt, tag_id_switch)
    }
}

/// Generates the body of the procedure for a flat union.
pub fn refcount_union_nonrec(
    root: &mut CodeGenHelp,
    ident_ids: &mut IdentIds,
    ctx: &Context,
    interner: &LayoutInterner,
    union_in_layout: InLayout,
    union_layout: &UnionLayout,
    structure: Symbol,
) -> (s: Stmt)
    requires
        gen_wf(old(root), old(ident_ids), interner),
        tags_ready(interner@, union_layout@.tags(), *ctx),
        union_layout@.tags().len() < MAX_TAGS,
        has_arm(union_layout@),
    ensures
        gen_wf(final(root), final(ident_ids), interner),
        (s@, gen_state(final(root), final(ident_ids), interner)) == refcount_union_nonrec_v(
            gen_state(old(root), old(ident_ids), interner),
            *ctx,
            union_in_layout,
            union_layout@,
            structure,
        ),
{
    let tag_id_sym = root.create_symbol(ident_ids, "tag_id");
    let tag_id_expr = Expr::GetTagId { structure, union_layout: union_in_layout };
    let continuation = rc_return_stmt(root, ident_ids, ctx);
    let switch_stmt = refcount_union_contents(
        root,
        ident_ids,
        ctx,
        interner,
        union_in_layout,
        union_layout,
        structure,
        tag_id_sym,
        false,
        continuation,
    );
    Stmt::new_let(tag_id_sym, tag_id_expr, union_layout.tag_id_layout(), switch_stmt)
}

/// Generates the body of the procedure for a recursive union in the
/// recursive form.
pub fn refcount_union_rec(
    root: &mut CodeGenHelp,
    ident_ids: &mut IdentIds,
    ctx: &Context,
    interner: &LayoutInterner,
    union_in_layout: InLayout,
    union_layout: &UnionLayout,
    structure: Symbol,
) -> (s: Stmt)
    requires
        gen_wf(old(root), old(ident_ids), interner),
        tags_ready(interner@, union_layout@.tags(), *ctx),
        union_layout@.tags().len() < MAX_TAGS,
        has_arm(union_layout@),
        modifies_header(ctx.op),
    ensures
        gen_wf(final(root), final(ident_ids), interner),
        (s@, gen_state(final(root), final(ident_ids), interner)) == refcount_union_rec_v(
            gen_state(old(root), old(ident_ids), interner),
            *ctx,
            union_in_layout,
            union_layout@,
            structure,
        ),
{
    let tag_id_sym = root.create_symbol(ident_ids, "tag_id");
    let tag_id_expr = Expr::GetTagId { structure, union_layout: union_in_layout };

    let alignment = interner.allocation_alignment_bytes(union_in_layout);
    let ret_stmt = rc_return_stmt(root, ident_ids, ctx);
    let rc_structure_stmt = modify_refcount(root, ident_ids, ctx, structure, alignment, ret_stmt);

    let body = if ctx.op.is_dec() {
        refcount_union_contents(
            root,
            ident_ids,
            ctx,
            interner,
            union_in_layout,
            union_layout,
            structure,
            tag_id_sym,
            true,
            rc_structure_stmt,
        )
    } else {
        let jp_modify_union = JoinPointId(root.create_symbol(ident_ids, "jp_modify_union"));
        Stmt::new_join(
            jp_modify_union,
            Vec::new(),
            rc_structure_stmt,
            Stmt::new_jump(jp_modify_union, syms0()),
        )
    };
    Stmt::new_let(tag_id_sym, tag_id_expr, union_layout.tag_id_layout(), body)
}

/// Generates the decrement of a recursive union as a loop, so that a long
/// chain of values is released without growing the stack.
pub fn refcount_union_tailrec(
    root: &mut CodeGenHelp,
    ident_ids: &mut IdentIds,
    ctx: &Context,
    interner: &LayoutInterner,
    union_in_layout: InLayout,
    union_layout: &UnionLayout,
    tailrec_indices: &Vec<Option<usize>>,
    initial_structure: Symbol,
) -> (s: Stmt)
    requires
        gen_wf(old(root), old(ident_ids), interner),
        tags_ready(interner@, union_layout@.tags(), *ctx),
        union_layout@.tags().len() < MAX_TAGS,
        has_arm(union_layout@),
        modifies_header(ctx.op),
        tail_fits(Some(tailrec_indices@), union_layout@.tags()),
    ensures
        gen_wf(final(root), final(ident_ids), interner),
        (s@, gen_state(final(root), final(ident_ids), interner)) == refcount_union_tailrec_v(
            gen_state(old(root), old(ident_ids), interner),
            *ctx,
            union_in_layout,
            union_layout@,
            tailrec_indices@,
            initial_structure,
        ),
{
    let ghost g0 = gen_state(root, ident_ids, interner);
    let layout_isize = root.layout_isize();
    let tailrec_loop = JoinPointId(root.create_symbol(ident_ids, "tailrec_loop"));
    let current = root.create_symbol(ident_ids, "current");
    let next_ptr = root.create_symbol(ident_ids, "next_ptr");
    let tag_id_sym = root.create_symbol(ident_ids, "tag_id");
    let tag_id_expr = Expr::GetTagId { structure: current, union_layout: union_in_layout };
    let next_addr = root.create_symbol(ident_ids, "next_addr");

    let exit_stmt = rc_return_stmt(root, ident_ids, ctx);
    let ghost ev = exit_stmt@;
    let mut exits: Vec<(u64, BranchInfo, Stmt)> = Vec::new();
    exits.push((0u64, BranchInfo::Unknown, exit_stmt));
    proof {
        assert(branches_view(exits@) =~= seq![(0u64, BranchInfo::Unknown, ev)]);
    }
    let loop_or_exit = Stmt::new_switch(
        next_addr,
        layout_isize,
        exits,
        BranchInfo::Unknown,
        Stmt::new_jump(tailrec_loop, syms1(next_ptr)),
        LAYOUT_UNIT,
    );
    let alignment = interner.allocation_alignment_bytes(union_in_layout);
    let rc_structure_stmt = modify_refcount(
        root,
        ident_ids,
        ctx,
        current,
        alignment,
        let_lowlevel(layout_isize, next_addr, LowLevel::PtrCast, syms1(next_ptr), loop_or_exit),
    );

    let jp_modify_union = JoinPointId(root.create_symbol(ident_ids, "jp_modify_union"));
    let ghost g2 = gen_state(root, ident_ids, interner);
    let branches = tag_branches(
        root,
        ident_ids,
        ctx,
        interner,
        union_in_layout,
        union_layout,
        current,
        jp_modify_union,
        Some(tailrec_indices),
    );
    proof {
        tag_branches_len(
            g2,
            *ctx,
            union_in_layout,
            union_layout@,
            current,
            jp_modify_union,
            Some(tailrec_indices@),
            union_layout@.tags().len(),
        );
    }
    let tag_id_switch = tag_switch(tag_id_sym, union_layout.tag_id_layout(), branches);

    let is_unique = root.create_symbol(ident_ids, "is_unique");
    let null_pointer = root.create_symbol(ident_ids, "null_pointer");
    let jump_with_null_ptr = Stmt::new_let(
        null_pointer,
        Expr::NullPointer,
        union_in_layout,
        Stmt::new_jump(jp_modify_union, syms1(null_pointer)),
    );
    let switch_with_unique_check = Stmt::if_then_else(
        is_unique,
        LAYOUT_UNIT,
        tag_id_switch,
        jump_with_null_ptr,
    );

    let jp_param = Param {
        symbol: next_ptr,
        ownership: Ownership::Borrowed,
        layout: union_in_layout,
    };
    let mut jp_params: Vec<Param> = Vec::new();
    jp_params.push(jp_param);
    proof {
        assert(jp_params@ =~= seq![jp_param]);
    }
    let rc_contents_then_structure = Stmt::new_join(
        jp_modify_union,
        jp_params,
        rc_structure_stmt,
        let_lowlevel(
            LAYOUT_BOOL,
            is_unique,
            LowLevel::RefCountIsUnique,
            syms1(current),
            switch_with_unique_check,
        ),
    );

    let loop_body = Stmt::new_let(
        tag_id_sym,
        tag_id_expr,
        union_layout.tag_id_layout(),
        rc_contents_then_structure,
    );
    let loop_param = Param {
        symbol: current,
        ownership: Ownership::Borrowed,
        layout: union_in_layout,
    };
    let mut loop_params: Vec<Param> = Vec::new();
    loop_params.push(loop_param);
    proof {
        assert(loop_params@ =~= seq![loop_param]);
    }
    Stmt::new_join(
        tailrec_loop,
        loop_params,
        loop_body,
        Stmt::new_jump(tailrec_loop, syms1(initial_structure)),
    )
}

} // verus!
