//! The small templates that every generator is made of: returning, changing
//! a header, and the procedure for strings.

use vstd::prelude::*;
use crate::symbol::{Symbol, JoinPointId, IdentIds};
use crate::low_level::LowLevel;
use crate::layout::{
    InLayout, PtrWidth, LAYOUT_UNIT, LAYOUT_BOOL, LAYOUT_U32, LAYOUT_OPAQUE_PTR,
};
use crate::ir::{
    Expr, ExprV, Stmt, StmtV, let_v, lowlevel_v, let_lowlevel_v, int_v, if_then_else_v, join_v,
    syms0, syms1, syms2, layouts3, lowlevel, let_lowlevel, int_literal,
};
use crate::helper::{CodeGenHelp, Context, HelperOp, sym};

verus! {

/// Leaving generated code: a jump to the continuation where a release is
/// inlined, else a return of the unit value.
pub open spec fn rc_return_stmt_v(home: u32, n: nat, ctx: Context) -> (StmtV, nat) {
    match ctx.op {
        HelperOp::DecRef(jp_decref) => (StmtV::Jump(jp_decref, Seq::empty()), n),
        _ => {
            let unit = sym(home, n);
            (let_v(unit, ExprV::Struct(Seq::empty()), LAYOUT_UNIT, StmtV::Ret(unit)), n + 1)
        },
    }
}

/// The arguments of a call of a child's procedure: the child, and for an
/// increment the amount, which is handed down.
pub open spec fn refcount_args_v(ctx: Context, structure: Symbol) -> Seq<Symbol> {
    if ctx.op is Inc {
        seq![structure, Symbol::arg_2()]
    } else {
        seq![structure]
    }
}

/// The operation changes a header, so a generator for it can be asked for
/// code.
pub open spec fn modifies_header(op: HelperOp) -> bool {
    op is Inc || op is Dec || op is DecRef
}

/// The change of the header before `data_ptr`, then `following`: an
/// increment by the amount, or a decrement that frees with `alignment`.
pub open spec fn modify_refcount_v(
    home: u32,
    n: nat,
    ctx: Context,
    data_ptr: Symbol,
    alignment: u32,
    following: StmtV,
) -> (StmtV, nat) {
    let zig_call_result = sym(home, n);
    if ctx.op is Inc {
        (
            let_v(
                zig_call_result,
                lowlevel_v(LowLevel::RefCountIncDataPtr, seq![data_ptr, Symbol::arg_2()]),
                LAYOUT_UNIT,
                following,
            ),
            n + 1,
        )
    } else {
        let alignment_sym = sym(home, n + 1);
        (
            let_v(
                alignment_sym,
                int_v(alignment as i128),
                LAYOUT_U32,
                let_v(
                    zig_call_result,
                    lowlevel_v(LowLevel::RefCountDecDataPtr, seq![data_ptr, alignment_sym]),
                    LAYOUT_UNIT,
                    following,
                ),
            ),
            n + 2,
        )
    }
}

/// The body of the procedure for strings. The last word of a string is
/// negative exactly when the string is small and owns no allocation; only a
/// big string has a header to change.
pub open spec fn refcount_str_v(home: u32, target: PtrWidth, n: nat, ctx: Context) -> (
    StmtV,
    nat,
) {
    let string = Symbol::arg_1();
    let layout_isize = target.layout_isize();
    let field_layouts = seq![LAYOUT_OPAQUE_PTR, layout_isize, layout_isize];
    let last_word = sym(home, n);
    let zero = sym(home, n + 1);
    let is_big_str = sym(home, n + 2);
    let elements = sym(home, n + 3);
    let (ret_unit_stmt, n1) = rc_return_stmt_v(home, n + 4, ctx);
    let (mod_rc_stmt, n2) = modify_refcount_v(
        home,
        n1,
        ctx,
        elements,
        target.bytes(),
        ret_unit_stmt,
    );
    let (ret_small, n3) = rc_return_stmt_v(home, n2, ctx);
    let then_branch = let_v(
        elements,
        ExprV::StructAtIndex { index: 0, field_layouts, structure: string },
        layout_isize,
        mod_rc_stmt,
    );
    let if_stmt = if_then_else_v(is_big_str, LAYOUT_UNIT, then_branch, ret_small);
    (
        let_v(
            last_word,
            ExprV::StructAtIndex { index: 2, field_layouts, structure: string },
            layout_isize,
            let_v(
                zero,
                int_v(0),
                layout_isize,
                let_lowlevel_v(
                    LAYOUT_BOOL,
                    is_big_str,
                    LowLevel::NumGte,
                    seq![last_word, zero],
                    if_stmt,
                ),
            ),
        ),
        n3,
    )
}

/// `when_done` as the join point `joinpoint`, reached through `when_unique`
/// where `value` is the only reference and directly where it is not.
pub open spec fn if_unique_v(
    home: u32,
    target: PtrWidth,
    n: nat,
    joinpoint: JoinPointId,
    value: Symbol,
    when_unique: StmtV,
    when_done: StmtV,
) -> (StmtV, nat) {
    let is_unique = sym(home, n);
    (
        let_lowlevel_v(
            target.layout_isize(),
            is_unique,
            LowLevel::RefCountIsUnique,
            seq![value],
            join_v(
                joinpoint,
                Seq::empty(),
                when_done,
                if_then_else_v(
                    is_unique,
                    LAYOUT_UNIT,
                    when_unique,
                    StmtV::Jump(joinpoint, Seq::empty()),
                ),
            ),
        ),
        n + 1,
    )
}

/// The mask that clears the tag id in the low bits of a pointer.
pub open spec fn tag_mask(target: PtrWidth) -> i128 {
    match target {
        PtrWidth::Bytes4 => (-4) as i128,
        PtrWidth::Bytes8 => (-8) as i128,
    }
}

/// The header value of a value with one reference.
pub open spec fn refcount_1_encoded(target: PtrWidth) -> i128 {
    match target {
        PtrWidth::Bytes4 => (-0x8000_0000) as i128,
        PtrWidth::Bytes8 => (-0x8000_0000_0000_0000) as i128,
    }
}

/// Binds `rc_ptr_sym` to the place of the header of `structure`, and
/// `addr_sym` to the address of its data, with the tag id masked away where
/// `mask_lower_bits` asks for it; then `following`.
pub open spec fn rc_ptr_from_data_ptr_v(
    home: u32,
    target: PtrWidth,
    n: nat,
    structure: Symbol,
    rc_ptr_sym: Symbol,
    mask_lower_bits: bool,
    following: StmtV,
    addr_sym: Symbol,
    recursion_ptr: InLayout,
) -> (StmtV, nat) {
    let layout_isize = target.layout_isize();
    let as_int_sym = if mask_lower_bits {
        sym(home, n)
    } else {
        addr_sym
    };
    let n0 = if mask_lower_bits {
        n + 1
    } else {
        n
    };
    let mask_sym = sym(home, n0);
    let ptr_size_sym = sym(home, n0 + 1);
    let rc_addr_sym = sym(home, n0 + 2);
    let tail = let_v(
        ptr_size_sym,
        int_v(target.bytes() as i128),
        layout_isize,
        let_lowlevel_v(
            target.layout_usize(),
            rc_addr_sym,
            LowLevel::NumSubSaturated,
            seq![addr_sym, ptr_size_sym],
            let_lowlevel_v(
                recursion_ptr,
                rc_ptr_sym,
                LowLevel::PtrCast,
                seq![rc_addr_sym],
                following,
            ),
        ),
    );
    let masked = if mask_lower_bits {
        let_v(
            mask_sym,
            int_v(tag_mask(target)),
            layout_isize,
            let_lowlevel_v(layout_isize, addr_sym, LowLevel::And, seq![as_int_sym, mask_sym], tail),
        )
    } else {
        tail
    };
    (let_lowlevel_v(layout_isize, as_int_sym, LowLevel::PtrCast, seq![structure], masked), n0 + 3)
}

/// Generates the statement that leaves generated code.
pub fn rc_return_stmt(root: &CodeGenHelp, ident_ids: &mut IdentIds, ctx: &Context) -> (s: Stmt)
    ensures
        (s@, final(ident_ids).count()) == rc_return_stmt_v(
            root@.home,
            old(ident_ids).count(),
            *ctx,
        ),
{
    match ctx.op {
        HelperOp::DecRef(jp_decref) => Stmt::new_jump(jp_decref, syms0()),
        _ => {
            let unit = root.create_symbol(ident_ids, "unit");
            Stmt::new_let(unit, Expr::Struct(syms0()), LAYOUT_UNIT, Stmt::new_ret(unit))
        },
    }
}

/// The arguments for the call of the procedure of a child.
pub fn refcount_args(ctx: &Context, structure: Symbol) -> (args: Vec<Symbol>)
    ensures
        args@ == refcount_args_v(*ctx, structure),
{
    match ctx.op {
        HelperOp::Inc => syms2(structure, Symbol::arg_2()),
        _ => syms1(structure),
    }
}

/// Generates the change of the header before `data_ptr`, followed by
/// `following`.
pub fn modify_refcount(
    root: &CodeGenHelp,
    ident_ids: &mut IdentIds,
    ctx: &Context,
    data_ptr: Symbol,
    alignment: u32,
    following: Stmt,
) -> (s: Stmt)
    requires
        modifies_header(ctx.op),
    ensures
        (s@, final(ident_ids).count()) == modify_refcount_v(
            root@.home,
            old(ident_ids).count(),
            *ctx,
            data_ptr,
            alignment,
            following@,
        ),
{
    let zig_call_result = root.create_symbol(ident_ids, "zig_call_result");
    match ctx.op {
        HelperOp::Inc => {
            let zig_call_expr = lowlevel(
                LowLevel::RefCountIncDataPtr,
                syms2(data_ptr, Symbol::arg_2()),
            );
            Stmt::new_let(zig_call_result, zig_call_expr, LAYOUT_UNIT, following)
        },
        _ => {
            let alignment_sym = root.create_symbol(ident_ids, "alignment");
            let alignment_expr = int_literal(alignment as i128);
            let zig_call_expr = lowlevel(
                LowLevel::RefCountDecDataPtr,
                syms2(data_ptr, alignment_sym),
            );
            let zig_call_stmt = Stmt::new_let(
                zig_call_result,
                zig_call_expr,
                LAYOUT_UNIT,
                following,
            );
            Stmt::new_let(alignment_sym, alignment_expr, LAYOUT_U32, zig_call_stmt)
        },
    }
}

/// Generates the body of the procedure that changes the reference count of
/// a string.
pub fn refcount_str(root: &CodeGenHelp, ident_ids: &mut IdentIds, ctx: &Context) -> (s: Stmt)
    requires
        modifies_header(ctx.op),
    ensures
        (s@, final(ident_ids).count()) == refcount_str_v(
            root@.home,
            root@.target,
            old(ident_ids).count(),
            *ctx,
        ),
{
    let string = Symbol::arg_1();
    let layout_isize = root.layout_isize();

    let last_word = root.create_symbol(ident_ids, "last_word");
    let last_word_expr = Expr::StructAtIndex {
        index: 2,
        field_layouts: layouts3(LAYOUT_OPAQUE_PTR, layout_isize, layout_isize),
        structure: string,
    };

    let zero = root.create_symbol(ident_ids, "zero");
    let zero_expr = int_literal(0);

    let is_big_str = root.create_symbol(ident_ids, "is_big_str");

    let elements = root.create_symbol(ident_ids, "characters");
    let elements_expr = Expr::StructAtIndex {
        index: 0,
        field_layouts: layouts3(LAYOUT_OPAQUE_PTR, layout_isize, layout_isize),
        structure: string,
    };

    let alignment = root.target().bytes();

    let ret_unit_stmt = rc_return_stmt(root, ident_ids, ctx);
    let mod_rc_stmt = modify_refcount(root, ident_ids, ctx, elements, alignment, ret_unit_stmt);

    let then_branch = Stmt::new_let(elements, elements_expr, layout_isize, mod_rc_stmt);
    let ret_small = rc_return_stmt(root, ident_ids, ctx);
    let if_stmt = Stmt::if_then_else(is_big_str, LAYOUT_UNIT, then_branch, ret_small);

    let is_big_str_stmt = let_lowlevel(
        LAYOUT_BOOL,
        is_big_str,
        LowLevel::NumGte,
        syms2(last_word, zero),
        if_stmt,
    );
    let zero_stmt = Stmt::new_let(zero, zero_expr, layout_isize, is_big_str_stmt);
    Stmt::new_let(last_word, last_word_expr, layout_isize, zero_stmt)
}

/// Generates the test of whether `value` has one reference, with
/// `when_done` as the join point that both ways reach.
pub fn if_unique(
    root: &CodeGenHelp,
    ident_ids: &mut IdentIds,
    joinpoint: JoinPointId,
    value: Symbol,
    when_unique: Stmt,
    when_done: Stmt,
) -> (s: Stmt)
    ensures
        (s@, final(ident_ids).count()) == if_unique_v(
            root@.home,
            root@.target,
            old(ident_ids).count(),
            joinpoint,
            value,
            when_unique@,
            when_done@,
        ),
{
    let is_unique = root.create_symbol(ident_ids, "is_unique");
    let stmt = Stmt::if_then_else(
        is_unique,
        LAYOUT_UNIT,
        when_unique,
        Stmt::new_jump(joinpoint, syms0()),
    );
    let join = Stmt::new_join(joinpoint, Vec::new(), when_done, stmt);
    let_lowlevel(root.layout_isize(), is_unique, LowLevel::RefCountIsUnique, syms1(value), join)
}

/// The mask that clears the tag id in the low bits of a pointer.
pub fn tag_mask_literal(target: PtrWidth) -> (mask: i128)
    ensures
        mask == tag_mask(target),
{
    match target {
        PtrWidth::Bytes4 => -4,
        PtrWidth::Bytes8 => -8,
    }
}

/// The header value of a value with one reference.
pub fn refcount_1_literal(target: PtrWidth) -> (sentinel: i128)
    ensures
        sentinel == refcount_1_encoded(target),
{
    match target {
        PtrWidth::Bytes4 => -2147483648,
        PtrWidth::Bytes8 => -9223372036854775808,
    }
}

/// Generates the computation of the place of the header of `structure`,
/// followed by `following`.
pub fn rc_ptr_from_data_ptr_help(
    root: &CodeGenHelp,
    ident_ids: &mut IdentIds,
    structure: Symbol,
    rc_ptr_sym: Symbol,
    mask_lower_bits: bool,
    following: Stmt,
    addr_sym: Symbol,
    recursion_ptr: InLayout,
) -> (s: Stmt)
    ensures
        (s@, final(ident_ids).count()) == rc_ptr_from_data_ptr_v(
            root@.home,
            root@.target,
            old(ident_ids).count(),
            structure,
            rc_ptr_sym,
            mask_lower_bits,
            following@,
            addr_sym,
            recursion_ptr,
        ),
{
    let layout_isize = root.layout_isize();
    let target = root.target();

    let as_int_sym = if mask_lower_bits {
        root.create_symbol(ident_ids, "as_int")
    } else {
        addr_sym
    };
    let mask_sym = root.create_symbol(ident_ids, "mask");
    let ptr_size_sym = root.create_symbol(ident_ids, "ptr_size");
    let rc_addr_sym = root.create_symbol(ident_ids, "rc_addr");

    let cast_stmt = let_lowlevel(
        recursion_ptr,
        rc_ptr_sym,
        LowLevel::PtrCast,
        syms1(rc_addr_sym),
        following,
    );
    let sub_stmt = let_lowlevel(
        target.layout_usize(),
        rc_addr_sym,
        LowLevel::NumSubSaturated,
        syms2(addr_sym, ptr_size_sym),
        cast_stmt,
    );
    let ptr_size_stmt = Stmt::new_let(
        ptr_size_sym,
        int_literal(target.bytes() as i128),
        layout_isize,
        sub_stmt,
    );
    let masked = if mask_lower_bits {
        let and_stmt = let_lowlevel(
            layout_isize,
            addr_sym,
            LowLevel::And,
            syms2(as_int_sym, mask_sym),
            ptr_size_stmt,
        );
        Stmt::new_let(mask_sym, int_literal(tag_mask_literal(target)), layout_isize, and_stmt)
    } else {
        ptr_size_stmt
    };
    let_lowlevel(layout_isize, as_int_sym, LowLevel::PtrCast, syms1(structure), masked)
}

} // verus!
