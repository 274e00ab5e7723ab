//! The bodies of the requested procedures. A request only files a
//! procedure; its body is generated here, one procedure at a time, and
//! generating it may request more.

use vstd::prelude::*;
use crate::symbol::{Symbol, JoinPointId, IdentIds};
use crate::layout::{InLayout, Layout, LayoutV, Builtin, UnionLayout, LAYOUT_UNIT, extends};
use crate::interner::LayoutInterner;
use crate::ir::{Expr, ExprV, Stmt, StmtV, Proc, ProcV, ModifyRc, let_v, join_v, syms0};
use crate::helper::{
    CodeGenHelp, CodeGenHelpV, Context, HelperOp, OpKind, GenV, gen_state, gen_wf, fresh, skip,
    child_ready, fields_ready, first_pending, attach_v,
};
use crate::gen_union::{tags_ready, has_arm, inside_union};
use crate::refcount::{
    refcount_stmt_v, decref_is_noop, refcount_stmt, rc_ready, refcount_generic_v,
    refcount_reset_proc_body_v, refcount_resetref_proc_body_v, refcount_generic,
    refcount_reset_proc_body, refcount_resetref_proc_body,
};

verus! {

/// Why the body of a procedure cannot be generated. Each is a fault of the
/// pass that made the request, not of the program being compiled.
#[derive(Clone, Copy, PartialEq, Eq, Structural, Debug)]
pub enum GenerateError {
    /// The layout is not in the interner.
    UnknownLayout(InLayout),
    /// A `RecursivePointer` stands where no recursive union encloses it.
    ReachedRecursivePointerAtTopLevel(InLayout),
    /// A reset was asked for a layout that is no union.
    ResetOnNonUnion(InLayout),
    /// The union has no variant to switch to.
    UnionArmMissing(InLayout),
}

/// The fault that keeps code for the layout from being generated under
/// `ctx`, if there is one.
pub open spec fn rc_fault(ls: Seq<LayoutV>, layout: InLayout, ctx: Context) -> Option<GenerateError>
    decreases layout,
{
    if layout >= ls.len() {
        Some(GenerateError::UnknownLayout(layout))
    } else {
        match ls[layout as int] {
            LayoutV::Builtin(Builtin::List(elem)) => if child_ready(ls, elem, ctx) {
                None
            } else {
                Some(GenerateError::ReachedRecursivePointerAtTopLevel(layout))
            },
            LayoutV::Builtin(_) => None,
            LayoutV::Struct { field_layouts } => if fields_ready(ls, field_layouts, ctx) {
                None
            } else {
                Some(GenerateError::ReachedRecursivePointerAtTopLevel(layout))
            },
            LayoutV::Union(u) => if !has_arm(u) {
                Some(GenerateError::UnionArmMissing(layout))
            } else if tags_ready(ls, u.tags(), inside_union(ctx, layout, u)) {
                None
            } else {
                Some(GenerateError::ReachedRecursivePointerAtTopLevel(layout))
            },
            LayoutV::LambdaSet(l) => if l.representation < layout {
                rc_fault(ls, l.representation, ctx)
            } else {
                Some(GenerateError::UnknownLayout(layout))
            },
            LayoutV::RecursivePointer(_) => Some(
                GenerateError::ReachedRecursivePointerAtTopLevel(layout),
            ),
            LayoutV::Boxed(inner) => if child_ready(ls, inner, ctx) {
                None
            } else {
                Some(GenerateError::ReachedRecursivePointerAtTopLevel(layout))
            },
        }
    }
}

/// Code can be generated exactly where there is no fault.
pub proof fn no_fault_is_ready(ls: Seq<LayoutV>, layout: InLayout, ctx: Context)
    ensures
        rc_fault(ls, layout, ctx).is_none() <==> rc_ready(ls, layout, ctx),
    decreases layout,
{
    if layout < ls.len() {
        match ls[layout as int] {
            LayoutV::LambdaSet(l) => {
                if l.representation < layout {
                    no_fault_is_ready(ls, l.representation, ctx);
                }
            },
            _ => {},
        }
    }
}

/// The fault that keeps the body of the procedure for `op` on `layout` from
/// being generated, if there is one.
pub open spec fn proc_fault(
    ls: Seq<LayoutV>,
    op: OpKind,
    layout: InLayout,
    recursive_union: Option<InLayout>,
) -> Option<GenerateError> {
    match op {
        OpKind::Reset | OpKind::ResetRef => if layout >= ls.len() {
            Some(GenerateError::UnknownLayout(layout))
        } else {
            match ls[layout as int] {
                LayoutV::Union(u) => if op is Reset && !has_arm(u) {
                    Some(GenerateError::UnionArmMissing(layout))
                } else {
                    None
                },
                _ => Some(GenerateError::ResetOnNonUnion(layout)),
            }
        },
        _ => rc_fault(ls, layout, Context { op: HelperOp::Dec, recursive_union }),
    }
}

/// The body of the procedure for `op` on `layout`, filed under
/// `recursive_union`, with `ARG_1` as the value. A release without
/// descending gets a join point of its own that returns, because its code
/// leaves by a jump.
pub open spec fn proc_body_v(
    g: GenV,
    op: OpKind,
    layout: InLayout,
    recursive_union: Option<InLayout>,
) -> (StmtV, GenV) {
    match op {
        OpKind::Inc => refcount_generic_v(
            g,
            Context { op: HelperOp::Inc, recursive_union },
            layout,
            Symbol::arg_1(),
        ),
        OpKind::Dec => refcount_generic_v(
            g,
            Context { op: HelperOp::Dec, recursive_union },
            layout,
            Symbol::arg_1(),
        ),
        OpKind::DecRef => {
            let jp = JoinPointId(fresh(g, 0));
            let unit = fresh(g, 1);
            let (body, g1) = refcount_generic_v(
                skip(g, 2),
                Context { op: HelperOp::DecRef(jp), recursive_union },
                layout,
                Symbol::arg_1(),
            );
            (
                join_v(
                    jp,
                    Seq::empty(),
                    let_v(unit, ExprV::Struct(Seq::empty()), LAYOUT_UNIT, StmtV::Ret(unit)),
                    body,
                ),
                g1,
            )
        },
        OpKind::Reset => refcount_reset_proc_body_v(g, layout, Symbol::arg_1()),
        OpKind::ResetRef => refcount_resetref_proc_body_v(g, layout, Symbol::arg_1()),
    }
}

/// The arguments of the procedure for `op` on `layout`.
pub open spec fn proc_args_v(g: GenV, op: OpKind, layout: InLayout) -> Seq<(InLayout, Symbol)> {
    match op {
        OpKind::Inc => seq![
            (layout, Symbol::arg_1()),
            (g.help.target.layout_isize(), Symbol::arg_2()),
        ],
        _ => seq![(layout, Symbol::arg_1())],
    }
}

/// Layout of what the procedure for `op` on `layout` returns.
pub open spec fn proc_ret_v(op: OpKind, layout: InLayout) -> InLayout {
    match op {
        OpKind::Reset | OpKind::ResetRef => layout,
        _ => LAYOUT_UNIT,
    }
}

/// One step of the pass: the first procedure without a body gets one. The
/// result says whether there was such a procedure, or why its body cannot
/// be generated; then nothing has changed.
pub open spec fn generate_next_v(g: GenV) -> (Result<bool, GenerateError>, GenV) {
    match first_pending(g.help.specializations, 0) {
        None => (Ok(false), g),
        Some(i) => {
            let entry = g.help.specializations[i as int];
            match proc_fault(g.layouts, entry.op, entry.layout, entry.recursive_union) {
                Some(fault) => (Err(fault), g),
                None => {
                    let (body, g1) = proc_body_v(
                        g,
                        entry.op,
                        entry.layout,
                        entry.recursive_union,
                    );
                    let proc = ProcV {
                        name: entry.symbol,
                        args: proc_args_v(g, entry.op, entry.layout),
                        body,
                        ret_layout: proc_ret_v(entry.op, entry.layout),
                    };
                    (
                        Ok(true),
                        GenV {
                            help: CodeGenHelpV {
                                specializations: attach_v(
                                    g1.help.specializations,
                                    entry.symbol,
                                    proc,
                                    0,
                                ),
                                ..g1.help
                            },
                            ..g1
                        },
                    )
                },
            }
        },
    }
}

/// Whether a value of layout `child` can be handed to its procedure under
/// `ctx`.
pub fn is_child_ready(interner: &LayoutInterner, child: InLayout, ctx: &Context) -> (r: bool)
    ensures
        r == child_ready(interner@, child, *ctx),
{
    if child >= interner.len() {
        return false;
    }
    match interner.get(child) {
        Layout::RecursivePointer(_) => ctx.recursive_union.is_some(),
        _ => true,
    }
}

/// Whether each of `fields` is ready under `ctx`.
pub fn are_fields_ready(interner: &LayoutInterner, fields: &Vec<InLayout>, ctx: &Context) -> (r:
    bool)
    ensures
        r == fields_ready(interner@, fields@, *ctx),
{
    let mut k: usize = 0;
    while k < fields.len()
        invariant
            k <= fields.len(),
            forall|j: int| 0 <= j < k ==> child_ready(interner@, #[trigger] fields@[j], *ctx),
        decreases fields.len() - k,
    {
        if !is_child_ready(interner, fields[k], ctx) {
            return false;
        }
        k += 1;
    }
    true
}

/// Finds the fault that keeps code for the layout from being generated
/// under `ctx`.
pub fn find_rc_fault(interner: &LayoutInterner, layout: InLayout, ctx: &Context) -> (fault: Option<
    GenerateError,
>)
    requires
        interner.wf(),
    ensures
        fault == rc_fault(interner@, layout, *ctx),
    decreases layout,
{
    if layout >= interner.len() {
        return Some(GenerateError::UnknownLayout(layout));
    }
    proof {
        assert(interner@[layout as int].well_formed_at(layout as int));
    }
    match interner.get(layout) {
        Layout::Builtin(Builtin::List(elem)) => if is_child_ready(interner, *elem, ctx) {
            None
        } else {
            Some(GenerateError::ReachedRecursivePointerAtTopLevel(layout))
        },
        Layout::Builtin(_) => None,
        Layout::Struct { field_layouts } => if are_fields_ready(interner, field_layouts, ctx) {
            None
        } else {
            Some(GenerateError::ReachedRecursivePointerAtTopLevel(layout))
        },
        Layout::Union(u) => {
            if u.num_tags() == 0 && u.null_id().is_none() {
                return Some(GenerateError::UnionArmMissing(layout));
            }
            let inner = if u.is_recursive() {
                Context { op: ctx.op, recursive_union: Some(layout) }
            } else {
                *ctx
            };
            let ghost tags = u@.tags();
            let mut t: usize = 0;
            while t < u.num_tags()
                invariant
                    t <= tags.len(),
                    tags == u@.tags(),
                    inner == inside_union(*ctx, layout, u@),
                    layout < interner@.len(),
                    interner@[layout as int] == LayoutV::Union(u@),
                    has_arm(u@),
                    forall|a: int, k: int|
                        0 <= a < t && 0 <= k < tags[a].len() ==> child_ready(
                            interner@,
                            #[trigger] tags[a][k],
                            inner,
                        ),
                decreases tags.len() - t,
            {
                if !are_fields_ready(interner, u.tag_fields(t), &inner) {
                    proof {
                        let k = choose|k: int|
                            0 <= k < tags[t as int].len() && !child_ready(
                                interner@,
                                #[trigger] tags[t as int][k],
                                inner,
                            );
                        assert(!child_ready(interner@, tags[t as int][k], inner));
                    }
                    return Some(GenerateError::ReachedRecursivePointerAtTopLevel(layout));
                }
                t += 1;
            }
            None
        },
        Layout::LambdaSet(l) => find_rc_fault(interner, l.representation, ctx),
        Layout::RecursivePointer(_) => Some(
            GenerateError::ReachedRecursivePointerAtTopLevel(layout),
        ),
        Layout::Boxed(inner) => if is_child_ready(interner, *inner, ctx) {
            None
        } else {
            Some(GenerateError::ReachedRecursivePointerAtTopLevel(layout))
        },
    }
}

/// Finds the fault that keeps the body of the procedure for `op` on `layout`
/// from being generated.
pub fn find_proc_fault(
    interner: &LayoutInterner,
    op: OpKind,
    layout: InLayout,
    recursive_union: Option<InLayout>,
) -> (fault: Option<GenerateError>)
    requires
        interner.wf(),
    ensures
        fault == proc_fault(interner@, op, layout, recursive_union),
{
    match op {
        OpKind::Reset | OpKind::ResetRef => {
            if layout >= interner.len() {
                return Some(GenerateError::UnknownLayout(layout));
            }
            match interner.get(layout) {
                Layout::Union(u) => {
                    if matches!(op, OpKind::Reset) && u.num_tags() == 0 && u.null_id().is_none() {
                        Some(GenerateError::UnionArmMissing(layout))
                    } else {
                        None
                    }
                },
                _ => Some(GenerateError::ResetOnNonUnion(layout)),
            }
        },
        _ => find_rc_fault(interner, layout, &Context { op: HelperOp::Dec, recursive_union }),
    }
}

/// The fault does not depend on the operation of the context.
pub proof fn fault_ignores_op(ls: Seq<LayoutV>, layout: InLayout, a: Context, b: Context)
    requires
        a.recursive_union == b.recursive_union,
    ensures
        rc_fault(ls, layout, a) == rc_fault(ls, layout, b),
    decreases layout,
{
    if layout < ls.len() {
        match ls[layout as int] {
            LayoutV::LambdaSet(l) => {
                if l.representation < layout {
                    fault_ignores_op(ls, l.representation, a, b);
                }
            },
            LayoutV::Struct { field_layouts } => {
                assert(fields_ready(ls, field_layouts, a) == fields_ready(ls, field_layouts, b));
            },
            LayoutV::Union(u) => {
                assert(tags_ready(ls, u.tags(), inside_union(a, layout, u)) == tags_ready(
                    ls,
                    u.tags(),
                    inside_union(b, layout, u),
                ));
            },
            _ => {},
        }
    }
}

/// Generates the body of the procedure for `op` on `layout`.
pub fn proc_body(
    root: &mut CodeGenHelp,
    ident_ids: &mut IdentIds,
    interner: &mut LayoutInterner,
    op: OpKind,
    layout: InLayout,
    recursive_union: Option<InLayout>,
) -> (body: Stmt)
    requires
        gen_wf(old(root), old(ident_ids), old(interner)),
        proc_fault(old(interner)@, op, layout, recursive_union).is_none(),
    ensures
        gen_wf(final(root), final(ident_ids), final(interner)),
        extends(final(interner)@, old(interner)@),
        (body@, gen_state(final(root), final(ident_ids), final(interner))) == proc_body_v(
            gen_state(old(root), old(ident_ids), old(interner)),
            op,
            layout,
            recursive_union,
        ),
{
    let structure = Symbol::arg_1();
    match op {
        OpKind::Inc => {
            let mut ctx = Context { op: HelperOp::Inc, recursive_union };
            proof {
                fault_ignores_op(
                    interner@,
                    layout,
                    ctx,
                    Context { op: HelperOp::Dec, recursive_union },
                );
                no_fault_is_ready(interner@, layout, ctx);
            }
            refcount_generic(root, ident_ids, &mut ctx, interner, layout, structure)
        },
        OpKind::Dec => {
            let mut ctx = Context { op: HelperOp::Dec, recursive_union };
            proof {
                no_fault_is_ready(interner@, layout, ctx);
            }
            refcount_generic(root, ident_ids, &mut ctx, interner, layout, structure)
        },
        OpKind::DecRef => {
            let jp = JoinPointId(root.create_symbol(ident_ids, "jp_decref"));
            let unit = root.create_symbol(ident_ids, "unit");
            let mut ctx = Context { op: HelperOp::DecRef(jp), recursive_union };
            proof {
                fault_ignores_op(
                    interner@,
                    layout,
                    ctx,
                    Context { op: HelperOp::Dec, recursive_union },
                );
                no_fault_is_ready(interner@, layout, ctx);
            }
            let body = refcount_generic(root, ident_ids, &mut ctx, interner, layout, structure);
            let leave = Stmt::new_let(
                unit,
                Expr::Struct(syms0()),
                LAYOUT_UNIT,
                Stmt::new_ret(unit),
            );
            Stmt::new_join(jp, Vec::new(), leave, body)
        },
        OpKind::Reset => {
            let mut ctx = Context { op: HelperOp::Reset, recursive_union };
            refcount_reset_proc_body(root, ident_ids, &mut ctx, interner, layout, structure)
        },
        OpKind::ResetRef => {
            let mut ctx = Context { op: HelperOp::ResetRef, recursive_union };
            refcount_resetref_proc_body(root, ident_ids, &mut ctx, interner, layout, structure)
        },
    }
}

/// Finishing the pass in at most `limit` steps. The result says whether
/// every procedure has its body now, or why a body cannot be generated.
pub open spec fn generate_pending_v(g: GenV, limit: nat) -> (Result<bool, GenerateError>, GenV)
    decreases limit,
{
    if limit == 0 {
        (Ok(first_pending(g.help.specializations, 0).is_none()), g)
    } else {
        match generate_next_v(g) {
            (Ok(true), g1) => generate_pending_v(g1, (limit - 1) as nat),
            (Ok(false), g1) => (Ok(true), g1),
            (Err(fault), g1) => (Err(fault), g1),
        }
    }
}

/// Generates the body of the first procedure that has none. The result says
/// whether there was such a procedure.
pub fn generate_next(
    root: &mut CodeGenHelp,
    ident_ids: &mut IdentIds,
    interner: &mut LayoutInterner,
) -> (r: Result<bool, GenerateError>)
    requires
        gen_wf(old(root), old(ident_ids), old(interner)),
    ensures
        gen_wf(final(root), final(ident_ids), final(interner)),
        extends(final(interner)@, old(interner)@),
        (r, gen_state(final(root), final(ident_ids), final(interner))) == generate_next_v(
            gen_state(old(root), old(ident_ids), old(interner)),
        ),
{
    let ghost g = gen_state(root, ident_ids, interner);
    match root.next_pending() {
        None => Ok(false),
        Some(i) => {
            let entry = root.specialization(i);
            let op = entry.op;
            let layout = entry.layout;
            let recursive_union = entry.recursive_union;
            let symbol = entry.symbol;
            match find_proc_fault(interner, op, layout, recursive_union) {
                Some(fault) => Err(fault),
                None => {
                    let mut args: Vec<(InLayout, Symbol)> = Vec::new();
                    args.push((layout, Symbol::arg_1()));
                    match op {
                        OpKind::Inc => {
                            args.push((root.layout_isize(), Symbol::arg_2()));
                        },
                        _ => {},
                    }
                    proof {
                        assert(args@ =~= proc_args_v(g, op, layout));
                    }
                    let ret_layout = match op {
                        OpKind::Reset | OpKind::ResetRef => layout,
                        _ => LAYOUT_UNIT,
                    };
                    let body = proc_body(root, ident_ids, interner, op, layout, recursive_union);
                    root.attach(symbol, Proc { name: symbol, args, body, ret_layout });
                    Ok(true)
                },
            }
        },
    }
}

/// Generates the bodies of the procedures that have none, and of those
/// that these request, in at most `limit` steps. The result says whether
/// every procedure has its body now.
pub fn generate_pending(
    root: &mut CodeGenHelp,
    ident_ids: &mut IdentIds,
    interner: &mut LayoutInterner,
    limit: usize,
) -> (r: Result<bool, GenerateError>)
    requires
        gen_wf(old(root), old(ident_ids), old(interner)),
    ensures
        gen_wf(final(root), final(ident_ids), final(interner)),
        extends(final(interner)@, old(interner)@),
        (r, gen_state(final(root), final(ident_ids), final(interner))) == generate_pending_v(
            gen_state(old(root), old(ident_ids), old(interner)),
            limit as nat,
        ),
{
    let ghost g0 = gen_state(root, ident_ids, interner);
    let ghost l0 = interner@;
    let mut left = limit;
    while left > 0
        invariant
            gen_wf(root, ident_ids, interner),
            extends(interner@, l0),
            l0 == old(interner)@,
            g0 == gen_state(old(root), old(ident_ids), old(interner)),
            generate_pending_v(g0, limit as nat) == generate_pending_v(
                gen_state(root, ident_ids, interner),
                left as nat,
            ),
        decreases left,
    {
        match generate_next(root, ident_ids, interner) {
            Ok(true) => {
                left -= 1;
            },
            Ok(false) => {
                return Ok(true);
            },
            Err(fault) => {
                return Err(fault);
            },
        }
    }
    Ok(root.next_pending().is_none())
}

/// The operation that a marker asks for; a release without descending
/// leaves through `jp_decref`.
pub open spec fn op_of(modify: ModifyRc, jp_decref: JoinPointId) -> HelperOp {
    match modify {
        ModifyRc::Inc(_, _) => HelperOp::Inc,
        ModifyRc::Dec(_) => HelperOp::Dec,
        ModifyRc::DecRef(_) => HelperOp::DecRef(jp_decref),
    }
}

/// The fault that keeps a marker on a value of the given layout from being
/// rewritten, if there is one.
pub open spec fn stmt_fault(ls: Seq<LayoutV>, layout: InLayout, modify: ModifyRc) -> Option<
    GenerateError,
> {
    let ctx = Context { op: HelperOp::Dec, recursive_union: None };
    if layout >= ls.len() {
        Some(GenerateError::UnknownLayout(layout))
    } else if ls[layout as int] is RecursivePointer {
        Some(GenerateError::ReachedRecursivePointerAtTopLevel(layout))
    } else if modify is DecRef && ls[layout as int] != LayoutV::Builtin(Builtin::Str)
        && !decref_is_noop(ls[layout as int]) {
        rc_fault(ls, layout, ctx)
    } else {
        None
    }
}

/// The code that stands for a marker met outside every procedure, before
/// `following`: the join point for an inlined release is made first.
pub open spec fn expand_refcount_stmt_v(
    g: GenV,
    layout: InLayout,
    modify: ModifyRc,
    following: StmtV,
) -> (StmtV, GenV) {
    let jp_decref = JoinPointId(fresh(g, 0));
    refcount_stmt_v(
        skip(g, 1),
        Context { op: op_of(modify, jp_decref), recursive_union: None },
        layout,
        modify,
        following,
    )
}

/// Rewrites a marker met in a program into the code that performs it,
/// followed by `following`. Where the layout cannot have such code the
/// fault is handed back and nothing has changed.
pub fn expand_refcount_stmt(
    root: &mut CodeGenHelp,
    ident_ids: &mut IdentIds,
    interner: &mut LayoutInterner,
    layout: InLayout,
    modify: &ModifyRc,
    following: Stmt,
) -> (r: Result<Stmt, GenerateError>)
    requires
        gen_wf(old(root), old(ident_ids), old(interner)),
    ensures
        gen_wf(final(root), final(ident_ids), final(interner)),
        extends(final(interner)@, old(interner)@),
        match stmt_fault(old(interner)@, layout, *modify) {
            Some(fault) => r == Err::<Stmt, GenerateError>(fault) && gen_state(
                final(root),
                final(ident_ids),
                final(interner),
            ) == gen_state(old(root), old(ident_ids), old(interner)),
            None => r is Ok && (r->Ok_0@, gen_state(final(root), final(ident_ids), final(interner)))
                == expand_refcount_stmt_v(
                gen_state(old(root), old(ident_ids), old(interner)),
                layout,
                *modify,
                following@,
            ),
        },
{
    if layout >= interner.len() {
        return Err(GenerateError::UnknownLayout(layout));
    }
    let (is_rec_ptr, inlined) = match interner.get(layout) {
        Layout::RecursivePointer(_) => (true, false),
        Layout::Builtin(Builtin::Str) => (false, false),
        Layout::Struct { .. } => (false, false),
        Layout::Union(UnionLayout::NonRecursive(_)) => (false, false),
        _ => (false, matches!(modify, ModifyRc::DecRef(_))),
    };
    if is_rec_ptr {
        return Err(GenerateError::ReachedRecursivePointerAtTopLevel(layout));
    }
    let plain = Context { op: HelperOp::Dec, recursive_union: None };
    if inlined {
        match find_rc_fault(interner, layout, &plain) {
            Some(fault) => {
                return Err(fault);
            },
            None => {},
        }
    }
    let jp_decref = JoinPointId(root.create_symbol(ident_ids, "jp_decref"));
    let op = match modify {
        ModifyRc::Inc(_, _) => HelperOp::Inc,
        ModifyRc::Dec(_) => HelperOp::Dec,
        ModifyRc::DecRef(_) => HelperOp::DecRef(jp_decref),
    };
    let mut ctx = Context { op, recursive_union: None };
    proof {
        if inlined {
            fault_ignores_op(interner@, layout, ctx, plain);
            no_fault_is_ready(interner@, layout, ctx);
        }
    }
    Ok(refcount_stmt(root, ident_ids, &mut ctx, interner, layout, modify, following))
}

} // verus!
