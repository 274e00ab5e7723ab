//! Generators for structs, lists and boxes.

use vstd::prelude::*;
use crate::symbol::{Symbol, JoinPointId, IdentIds};
use crate::low_level::LowLevel;
use crate::layout::{
    InLayout, Layout, LayoutV, LAYOUT_UNIT, LAYOUT_BOOL, LAYOUT_OPAQUE_PTR, is_refcounted_spec,
    alignment_spec, stack_size_spec, allocation_alignment_spec, max_int, extends,
};
use crate::interner::LayoutInterner;
use crate::ir::{
    Expr, ExprV, Stmt, StmtV, Param, Ownership, BranchInfo, let_v, let_lowlevel_v, int_v,
    if_then_else_v, join_v, syms1, syms2, layouts3, let_lowlevel, int_literal,
};
use crate::helper::{
    CodeGenHelp, Context, GenV, gen_state, gen_wf, fresh, skip, with_idents, insert_v,
    child_ready, fields_ready, call_specialized_op_v,
};
use crate::gen_basic::{
    rc_return_stmt_v, refcount_args_v, modify_refcount_v, if_unique_v, modifies_header,
    rc_return_stmt, refcount_args, modify_refcount, if_unique,
};

verus! {

/// The code for the first `n` fields of a struct: the later a field stands
/// among them, the earlier its child is handed to its procedure.
pub open spec fn refcount_struct_fields_v(
    g: GenV,
    ctx: Context,
    field_layouts: Seq<InLayout>,
    structure: Symbol,
    n: nat,
) -> (StmtV, GenV)
    decreases n,
{
    if n == 0 {
        let (ret, n1) = rc_return_stmt_v(g.help.home, g.idents, ctx);
        (ret, with_idents(g, n1))
    } else {
        let (inner, g1) = refcount_struct_fields_v(
            g,
            ctx,
            field_layouts,
            structure,
            (n - 1) as nat,
        );
        let i = n - 1;
        let field = field_layouts[i];
        if is_refcounted_spec(g1.layouts, field) {
            let field_val = fresh(g1, 0);
            let mod_unit = fresh(g1, 1);
            let (mod_expr, g2) = call_specialized_op_v(
                skip(g1, 2),
                ctx,
                field,
                refcount_args_v(ctx, field_val),
            );
            (
                let_v(
                    field_val,
                    ExprV::StructAtIndex { index: i as u64, field_layouts, structure },
                    field,
                    let_v(mod_unit, mod_expr, LAYOUT_UNIT, inner),
                ),
                g2,
            )
        } else {
            (inner, g1)
        }
    }
}

/// The body of the procedure for a struct: each refcounted field is
/// projected and handed to the procedure of its layout, the last field
/// first.
pub open spec fn refcount_struct_v(
    g: GenV,
    ctx: Context,
    field_layouts: Seq<InLayout>,
    structure: Symbol,
) -> (StmtV, GenV) {
    refcount_struct_fields_v(g, ctx, field_layouts, structure, field_layouts.len())
}

/// The loop that hands each element of a list to the procedure of its
/// layout, then `following`. The elements stand from the address of
/// `elements` on, `length` of them.
pub open spec fn refcount_list_elems_v(
    g: GenV,
    ctx: Context,
    elem_layout: InLayout,
    ret_layout: InLayout,
    box_layout: InLayout,
    length: Symbol,
    elements: Symbol,
    following: StmtV,
) -> (StmtV, GenV) {
    let layout_isize = g.help.target.layout_isize();
    let start = fresh(g, 0);
    let elem_size = fresh(g, 1);
    let list_size = fresh(g, 2);
    let end = fresh(g, 3);
    let elems_loop = JoinPointId(fresh(g, 4));
    let addr = fresh(g, 5);
    let box_ptr = fresh(g, 6);
    let elem = fresh(g, 7);
    let mod_elem_unit = fresh(g, 8);
    let (mod_elem_expr, g1) = call_specialized_op_v(
        skip(g, 9),
        ctx,
        elem_layout,
        refcount_args_v(ctx, elem),
    );
    let next_addr = fresh(g1, 0);
    let is_end = fresh(g1, 1);
    let visit = let_lowlevel_v(
        box_layout,
        box_ptr,
        LowLevel::PtrCast,
        seq![addr],
        let_v(
            elem,
            ExprV::ExprUnbox { symbol: box_ptr },
            elem_layout,
            let_v(
                mod_elem_unit,
                mod_elem_expr,
                LAYOUT_UNIT,
                let_lowlevel_v(
                    layout_isize,
                    next_addr,
                    LowLevel::NumAdd,
                    seq![addr, elem_size],
                    StmtV::Jump(elems_loop, seq![next_addr]),
                ),
            ),
        ),
    );
    let if_end_of_list = StmtV::Switch {
        cond_symbol: is_end,
        cond_layout: LAYOUT_BOOL,
        branches: seq![(1u64, BranchInfo::Unknown, following)],
        default_branch: (BranchInfo::Unknown, Box::new(visit)),
        ret_layout,
    };
    let joinpoint_loop = join_v(
        elems_loop,
        seq![Param { symbol: addr, ownership: Ownership::Owned, layout: layout_isize }],
        let_lowlevel_v(LAYOUT_BOOL, is_end, LowLevel::NumGte, seq![addr, end], if_end_of_list),
        StmtV::Jump(elems_loop, seq![start]),
    );
    (
        let_lowlevel_v(
            layout_isize,
            start,
            LowLevel::PtrCast,
            seq![elements],
            let_v(
                elem_size,
                int_v(stack_size_spec(g.layouts, g.help.target, elem_layout) as i128),
                layout_isize,
                let_lowlevel_v(
                    layout_isize,
                    list_size,
                    LowLevel::NumMul,
                    seq![length, elem_size],
                    let_lowlevel_v(
                        layout_isize,
                        end,
                        LowLevel::NumAdd,
                        seq![start, list_size],
                        joinpoint_loop,
                    ),
                ),
            ),
        ),
        skip(g1, 2),
    )
}

/// The body of the procedure for a list of `elem_layout`. An empty list has
/// no allocation and nothing is done. Else the elements are found, through
/// the capacity where the list is a slice of another, a decrement visits
/// them where they are refcounted, and the header before the pointer in
/// field 0 is changed last.
pub open spec fn refcount_list_v(
    g: GenV,
    ctx: Context,
    elem_layout: InLayout,
    structure: Symbol,
) -> (StmtV, GenV) {
    let layout_isize = g.help.target.layout_isize();
    let (box_layout, g0) = insert_v(g, LayoutV::Boxed(elem_layout));
    let len = fresh(g0, 0);
    let zero = fresh(g0, 1);
    let is_empty = fresh(g0, 2);
    let capacity = fresh(g0, 3);
    let is_slice = fresh(g0, 4);
    let jp_elements = JoinPointId(fresh(g0, 5));
    let elements = fresh(g0, 6);
    let one = fresh(g0, 7);
    let slice_elems = fresh(g0, 8);
    let list_elems = fresh(g0, 9);
    let list_ptr = fresh(g0, 10);
    let g1 = skip(g0, 11);
    let list_field_layouts = seq![box_layout, layout_isize, layout_isize];
    let slice_branch = let_v(
        one,
        int_v(1),
        layout_isize,
        let_lowlevel_v(
            layout_isize,
            slice_elems,
            LowLevel::NumShiftLeftBy,
            seq![capacity, one],
            StmtV::Jump(jp_elements, seq![slice_elems]),
        ),
    );
    let list_branch = let_v(
        list_elems,
        ExprV::StructAtIndex { index: 0, field_layouts: list_field_layouts, structure },
        box_layout,
        StmtV::Jump(jp_elements, seq![list_elems]),
    );
    let switch_slice_list = if_then_else_v(is_slice, LAYOUT_UNIT, slice_branch, list_branch);
    let alignment = max_int(
        g.help.target.bytes() as int,
        alignment_spec(g0.layouts, g.help.target, elem_layout),
    ) as u32;
    let (ret_stmt, n2) = rc_return_stmt_v(g1.help.home, g1.idents, ctx);
    let (modify_list, n3) = modify_refcount_v(
        g1.help.home,
        n2,
        ctx,
        list_ptr,
        alignment,
        ret_stmt,
    );
    let g3 = with_idents(g1, n3);
    let modify_owner = let_v(
        list_ptr,
        ExprV::StructAtIndex { index: 0, field_layouts: list_field_layouts, structure },
        box_layout,
        modify_list,
    );
    let (modify_elems_and_list, g4) = if is_refcounted_spec(g0.layouts, elem_layout)
        && ctx.op.is_dec() {
        refcount_list_elems_v(
            g3,
            ctx,
            elem_layout,
            LAYOUT_UNIT,
            box_layout,
            len,
            elements,
            modify_owner,
        )
    } else {
        (modify_owner, g3)
    };
    let joinpoint_elems = join_v(
        jp_elements,
        seq![Param { symbol: elements, ownership: Ownership::Owned, layout: LAYOUT_OPAQUE_PTR }],
        modify_elems_and_list,
        switch_slice_list,
    );
    let non_empty_branch = let_v(
        capacity,
        ExprV::StructAtIndex { index: 2, field_layouts: list_field_layouts, structure },
        layout_isize,
        let_lowlevel_v(
            LAYOUT_BOOL,
            is_slice,
            LowLevel::NumLt,
            seq![capacity, zero],
            joinpoint_elems,
        ),
    );
    let (ret_empty, n5) = rc_return_stmt_v(g4.help.home, g4.idents, ctx);
    (
        let_lowlevel_v(
            layout_isize,
            len,
            LowLevel::ListLen,
            seq![structure],
            let_v(
                zero,
                int_v(0),
                layout_isize,
                let_lowlevel_v(
                    LAYOUT_BOOL,
                    is_empty,
                    LowLevel::Eq,
                    seq![len, zero],
                    if_then_else_v(is_empty, LAYOUT_UNIT, ret_empty, non_empty_branch),
                ),
            ),
        ),
        with_idents(g4, n5),
    )
}

/// The body of the procedure for a box of `inner_layout`. A decrement of
/// the only reference to a box that holds a refcounted value releases that
/// value first; the header of the box is changed last.
pub open spec fn refcount_boxed_v(
    g: GenV,
    ctx: Context,
    layout: InLayout,
    inner_layout: InLayout,
    outer: Symbol,
) -> (StmtV, GenV) {
    let alignment = allocation_alignment_spec(g.layouts, g.help.target, layout) as u32;
    let (ret_stmt, n1) = rc_return_stmt_v(g.help.home, g.idents, ctx);
    let (modify_outer, n2) = modify_refcount_v(g.help.home, n1, ctx, outer, alignment, ret_stmt);
    let g2 = with_idents(g, n2);
    if is_refcounted_spec(g.layouts, inner_layout) && ctx.op.is_dec() {
        let inner = fresh(g2, 0);
        let mod_inner_unit = fresh(g2, 1);
        let (mod_inner_expr, g3) = call_specialized_op_v(
            skip(g2, 2),
            ctx,
            inner_layout,
            refcount_args_v(ctx, inner),
        );
        let joinpoint = JoinPointId(fresh(g3, 0));
        let when_unique = let_v(
            inner,
            ExprV::ExprUnbox { symbol: outer },
            inner_layout,
            let_v(
                mod_inner_unit,
                mod_inner_expr,
                LAYOUT_UNIT,
                StmtV::Jump(joinpoint, Seq::empty()),
            ),
        );
        let (stmt, n4) = if_unique_v(
            g3.help.home,
            g3.help.target,
            g3.idents + 1,
            joinpoint,
            outer,
            when_unique,
            modify_outer,
        );
        (stmt, with_idents(g3, n4))
    } else {
        (modify_outer, g2)
    }
}

/// Generates the body of the procedure for a struct with these fields.
pub fn refcount_struct(
    root: &mut CodeGenHelp,
    ident_ids: &mut IdentIds,
    ctx: &Context,
    interner: &LayoutInterner,
    field_layouts: &Vec<InLayout>,
    structure: Symbol,
) -> (s: Stmt)
    requires
        gen_wf(old(root), old(ident_ids), interner),
        fields_ready(interner@, field_layouts@, *ctx),
    ensures
        gen_wf(final(root), final(ident_ids), interner),
        (s@, gen_state(final(root), final(ident_ids), interner)) == refcount_struct_v(
            gen_state(old(root), old(ident_ids), interner),
            *ctx,
            field_layouts@,
            structure,
        ),
{
    let ghost g0 = gen_state(root, ident_ids, interner);
    let mut stmt = rc_return_stmt(root, ident_ids, ctx);
    let mut i: usize = 0;
    while i < field_layouts.len()
        invariant
            i <= field_layouts.len(),
            gen_wf(root, ident_ids, interner),
            fields_ready(interner@, field_layouts@, *ctx),
            (stmt@, gen_state(root, ident_ids, interner)) == refcount_struct_fields_v(
                g0,
                *ctx,
                field_layouts@,
                structure,
                i as nat,
            ),
        decreases field_layouts.len() - i,
    {
        let field = field_layouts[i];
        assert(child_ready(interner@, field_layouts@[i as int], *ctx));
        if interner.is_refcounted(field) {
            let field_val = root.create_symbol(ident_ids, "field_val");
            let field_val_expr = Expr::StructAtIndex {
                index: i as u64,
                field_layouts: field_layouts.clone(),
                structure,
            };
            let mod_unit = root.create_symbol(ident_ids, "mod_field");
            let mod_args = refcount_args(ctx, field_val);
            let mod_expr = root.call_specialized_op(ident_ids, ctx, interner, field, mod_args);
            stmt = Stmt::new_let(
                field_val,
                field_val_expr,
                field,
                Stmt::new_let(mod_unit, mod_expr, LAYOUT_UNIT, stmt),
            );
        }
        i += 1;
    }
    stmt
}

/// Generates the loop that hands each element of a list to the procedure of
/// its layout, followed by `following`.
pub fn refcount_list_elems(
    root: &mut CodeGenHelp,
    ident_ids: &mut IdentIds,
    ctx: &Context,
    interner: &LayoutInterner,
    elem_layout: InLayout,
    ret_layout: InLayout,
    box_layout: InLayout,
    length: Symbol,
    elements: Symbol,
    following: Stmt,
) -> (s: Stmt)
    requires
        gen_wf(old(root), old(ident_ids), interner),
        child_ready(interner@, elem_layout, *ctx),
    ensures
        gen_wf(final(root), final(ident_ids), interner),
        (s@, gen_state(final(root), final(ident_ids), interner)) == refcount_list_elems_v(
            gen_state(old(root), old(ident_ids), interner),
            *ctx,
            elem_layout,
            ret_layout,
            box_layout,
            length,
            elements,
            following@,
        ),
{
    let layout_isize = root.layout_isize();

    let start = root.create_symbol(ident_ids, "start");
    let elem_size = root.create_symbol(ident_ids, "elem_size");
    let elem_size_expr = int_literal(interner.stack_size(elem_layout) as i128);
    let list_size = root.create_symbol(ident_ids, "list_size");
    let end = root.create_symbol(ident_ids, "end");
    let elems_loop = JoinPointId(root.create_symbol(ident_ids, "elems_loop"));
    let addr = root.create_symbol(ident_ids, "addr");
    let param_addr = Param { symbol: addr, ownership: Ownership::Owned, layout: layout_isize };
    let box_ptr = root.create_symbol(ident_ids, "box");
    let elem = root.create_symbol(ident_ids, "elem");
    let elem_expr = Expr::ExprUnbox { symbol: box_ptr };

    let mod_elem_unit = root.create_symbol(ident_ids, "mod_elem_unit");
    let mod_elem_args = refcount_args(ctx, elem);
    let mod_elem_expr = root.call_specialized_op(
        ident_ids,
        ctx,
        interner,
        elem_layout,
        mod_elem_args,
    );

    let next_addr = root.create_symbol(ident_ids, "next_addr");
    let is_end = root.create_symbol(ident_ids, "is_end");

    let next_addr_stmt = let_lowlevel(
        layout_isize,
        next_addr,
        LowLevel::NumAdd,
        syms2(addr, elem_size),
        Stmt::new_jump(elems_loop, syms1(next_addr)),
    );
    let mod_elem_stmt = Stmt::new_let(mod_elem_unit, mod_elem_expr, LAYOUT_UNIT, next_addr_stmt);
    let elem_stmt = Stmt::new_let(elem, elem_expr, elem_layout, mod_elem_stmt);
    let box_stmt = let_lowlevel(box_layout, box_ptr, LowLevel::PtrCast, syms1(addr), elem_stmt);

    let ghost fv = following@;
    let mut branches: Vec<(u64, BranchInfo, Stmt)> = Vec::new();
    branches.push((1u64, BranchInfo::Unknown, following));
    proof {
        assert(crate::ir::branches_view(branches@) =~= seq![(1u64, BranchInfo::Unknown, fv)]);
    }
    let if_end_of_list = Stmt::new_switch(
        is_end,
        LAYOUT_BOOL,
        branches,
        BranchInfo::Unknown,
        box_stmt,
        ret_layout,
    );

    let mut params: Vec<Param> = Vec::new();
    params.push(param_addr);
    proof {
        assert(params@ =~= seq![param_addr]);
    }
    let joinpoint_loop = Stmt::new_join(
        elems_loop,
        params,
        let_lowlevel(LAYOUT_BOOL, is_end, LowLevel::NumGte, syms2(addr, end), if_end_of_list),
        Stmt::new_jump(elems_loop, syms1(start)),
    );

    let end_stmt = let_lowlevel(
        layout_isize,
        end,
        LowLevel::NumAdd,
        syms2(start, list_size),
        joinpoint_loop,
    );
    let list_size_stmt = let_lowlevel(
        layout_isize,
        list_size,
        LowLevel::NumMul,
        syms2(length, elem_size),
        end_stmt,
    );
    let elem_size_stmt = Stmt::new_let(elem_size, elem_size_expr, layout_isize, list_size_stmt);
    let_lowlevel(layout_isize, start, LowLevel::PtrCast, syms1(elements), elem_size_stmt)
}

/// Generates the body of the procedure for a list of `elem_layout`.
pub fn refcount_list(
    root: &mut CodeGenHelp,
    ident_ids: &mut IdentIds,
    ctx: &Context,
    interner: &mut LayoutInterner,
    elem_layout: InLayout,
    structure: Symbol,
) -> (s: Stmt)
    requires
        gen_wf(old(root), old(ident_ids), old(interner)),
        child_ready(old(interner)@, elem_layout, *ctx),
        modifies_header(ctx.op),
    ensures
        gen_wf(final(root), final(ident_ids), final(interner)),
        extends(final(interner)@, old(interner)@),
        (s@, gen_state(final(root), final(ident_ids), final(interner))) == refcount_list_v(
            gen_state(old(root), old(ident_ids), old(interner)),
            *ctx,
            elem_layout,
            structure,
        ),
{
    let layout_isize = root.layout_isize();
    let box_layout = interner.insert(Layout::Boxed(elem_layout));

    let len = root.create_symbol(ident_ids, "len");
    let zero = root.create_symbol(ident_ids, "zero");
    let is_empty = root.create_symbol(ident_ids, "is_empty");
    let capacity = root.create_symbol(ident_ids, "capacity");
    let capacity_expr = Expr::StructAtIndex {
        index: 2,
        field_layouts: layouts3(box_layout, layout_isize, layout_isize),
        structure,
    };
    let is_slice = root.create_symbol(ident_ids, "is_slice");
    let jp_elements = JoinPointId(root.create_symbol(ident_ids, "jp_elements"));
    let elements = root.create_symbol(ident_ids, "elements");
    let param_elems = Param {
        symbol: elements,
        ownership: Ownership::Owned,
        layout: LAYOUT_OPAQUE_PTR,
    };
    let one = root.create_symbol(ident_ids, "one");
    let slice_elems = root.create_symbol(ident_ids, "slice_elems");
    let list_elems = root.create_symbol(ident_ids, "list_elems");
    let list_elems_expr = Expr::StructAtIndex {
        index: 0,
        field_layouts: layouts3(box_layout, layout_isize, layout_isize),
        structure,
    };
    let list_ptr = root.create_symbol(ident_ids, "list_ptr");
    let list_ptr_expr = Expr::StructAtIndex {
        index: 0,
        field_layouts: layouts3(box_layout, layout_isize, layout_isize),
        structure,
    };

    let slice_branch = Stmt::new_let(
        one,
        int_literal(1),
        layout_isize,
        let_lowlevel(
            layout_isize,
            slice_elems,
            LowLevel::NumShiftLeftBy,
            syms2(capacity, one),
            Stmt::new_jump(jp_elements, syms1(slice_elems)),
        ),
    );
    let list_branch = Stmt::new_let(
        list_elems,
        list_elems_expr,
        box_layout,
        Stmt::new_jump(jp_elements, syms1(list_elems)),
    );
    let switch_slice_list = Stmt::if_then_else(is_slice, LAYOUT_UNIT, slice_branch, list_branch);

    let ptr_bytes = root.target().bytes();
    let elem_alignment = interner.alignment_bytes(elem_layout);
    let alignment = if ptr_bytes >= elem_alignment {
        ptr_bytes
    } else {
        elem_alignment
    };

    let ret_stmt = rc_return_stmt(root, ident_ids, ctx);
    let modify_list = modify_refcount(root, ident_ids, ctx, list_ptr, alignment, ret_stmt);
    let modify_owner = Stmt::new_let(list_ptr, list_ptr_expr, box_layout, modify_list);

    let modify_elems_and_list = if interner.is_refcounted(elem_layout) && ctx.op.is_dec() {
        refcount_list_elems(
            root,
            ident_ids,
            ctx,
            interner,
            elem_layout,
            LAYOUT_UNIT,
            box_layout,
            len,
            elements,
            modify_owner,
        )
    } else {
        modify_owner
    };

    let mut params: Vec<Param> = Vec::new();
    params.push(param_elems);
    proof {
        assert(params@ =~= seq![param_elems]);
    }
    let joinpoint_elems = Stmt::new_join(
        jp_elements,
        params,
        modify_elems_and_list,
        switch_slice_list,
    );

    let non_empty_branch = Stmt::new_let(
        capacity,
        capacity_expr,
        layout_isize,
        let_lowlevel(
            LAYOUT_BOOL,
            is_slice,
            LowLevel::NumLt,
            syms2(capacity, zero),
            joinpoint_elems,
        ),
    );

    let ret_empty = rc_return_stmt(root, ident_ids, ctx);
    let if_empty_stmt = Stmt::if_then_else(is_empty, LAYOUT_UNIT, ret_empty, non_empty_branch);

    let_lowlevel(
        layout_isize,
        len,
        LowLevel::ListLen,
        syms1(structure),
        Stmt::new_let(
            zero,
            int_literal(0),
            layout_isize,
            let_lowlevel(LAYOUT_BOOL, is_empty, LowLevel::Eq, syms2(len, zero), if_empty_stmt),
        ),
    )
}

/// Generates the body of the procedure for a box of `inner_layout`.
pub fn refcount_boxed(
    root: &mut CodeGenHelp,
    ident_ids: &mut IdentIds,
    ctx: &Context,
    interner: &LayoutInterner,
    layout: InLayout,
    inner_layout: InLayout,
    outer: Symbol,
) -> (s: Stmt)
    requires
        gen_wf(old(root), old(ident_ids), interner),
        child_ready(interner@, inner_layout, *ctx),
        modifies_header(ctx.op),
    ensures
        gen_wf(final(root), final(ident_ids), interner),
        (s@, gen_state(final(root), final(ident_ids), interner)) == refcount_boxed_v(
            gen_state(old(root), old(ident_ids), interner),
            *ctx,
            layout,
            inner_layout,
            outer,
        ),
{
    let alignment = interner.allocation_alignment_bytes(layout);
    let ret_stmt = rc_return_stmt(root, ident_ids, ctx);
    let modify_outer = modify_refcount(root, ident_ids, ctx, outer, alignment, ret_stmt);

    if interner.is_refcounted(inner_layout) && ctx.op.is_dec() {
        let inner = root.create_symbol(ident_ids, "inner");
        let inner_expr = Expr::ExprUnbox { symbol: outer };

        let mod_inner_unit = root.create_symbol(ident_ids, "mod_inner_unit");
        let mod_inner_args = refcount_args(ctx, inner);
        let mod_inner_expr = root.call_specialized_op(
            ident_ids,
            ctx,
            interner,
            inner_layout,
            mod_inner_args,
        );

        let joinpoint = JoinPointId(root.create_symbol(ident_ids, "is_unique_joinpoint"));
        let when_unique = Stmt::new_let(
            inner,
            inner_expr,
            inner_layout,
            Stmt::new_let(
                mod_inner_unit,
                mod_inner_expr,
                LAYOUT_UNIT,
                Stmt::new_jump(joinpoint, Vec::new()),
            ),
        );
        if_unique(root, ident_ids, joinpoint, outer, when_unique, modify_outer)
    } else {
        modify_outer
    }
}

} // verus!
