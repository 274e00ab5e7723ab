//! The intermediate representation that the generator emits: statements in
//! administrative-normal form, with join points for shared continuations.

use vstd::prelude::*;
use crate::symbol::{Symbol, JoinPointId};
use crate::low_level::LowLevel;
use crate::layout::{InLayout, LAYOUT_BOOL};

verus! {

/// A constant. Integers of every width are held as one wide integer.
#[derive(Clone, Copy, PartialEq, Eq, Structural, Debug)]
pub enum Literal {
    Int(i128),
}

/// Who releases a parameter of a join point.
#[derive(Clone, Copy, PartialEq, Eq, Structural, Debug)]
pub enum Ownership {
    Owned,
    Borrowed,
}

/// A parameter of a join point.
#[derive(Clone, Copy, PartialEq, Eq, Structural, Debug)]
pub struct Param {
    pub symbol: Symbol,
    pub ownership: Ownership,
    pub layout: InLayout,
}

/// What is known of the scrutinee inside a branch.
#[derive(Clone, Copy, PartialEq, Eq, Structural, Debug)]
pub enum BranchInfo {
    Unknown,
    Constructor { scrutinee: Symbol, layout: InLayout, tag_id: u16 },
}

/// A reference-count marker of borrow analysis.
#[derive(Clone, Copy, PartialEq, Eq, Structural, Debug)]
pub enum ModifyRc {
    /// Add the amount to the count.
    Inc(Symbol, u64),
    /// Decrement, and release the children when the value dies.
    Dec(Symbol),
    /// Decrement without looking at the children.
    DecRef(Symbol),
}

/// What a call calls.
#[derive(Clone, PartialEq, Eq, Debug)]
pub enum CallType {
    /// A procedure, with the layouts of its result and arguments.
    ByName { name: Symbol, ret_layout: InLayout, arg_layouts: Vec<InLayout> },
    /// A runtime intrinsic.
    LowLevel { op: LowLevel },
}

#[derive(Clone, PartialEq, Eq, Debug)]
pub struct Call {
    pub call_type: CallType,
    pub arguments: Vec<Symbol>,
}

#[derive(Clone, PartialEq, Eq, Debug)]
pub enum Expr {
    Literal(Literal),
    Call(Call),
    /// A struct of the given fields; without fields, the unit value.
    Struct(Vec<Symbol>),
    /// Field `index` of a struct whose fields have these layouts.
    StructAtIndex { index: u64, field_layouts: Vec<InLayout>, structure: Symbol },
    /// The tag id of a value of the union `union_layout`.
    GetTagId { structure: Symbol, union_layout: InLayout },
    /// Field `index` of variant `tag_id` of a value of the union.
    UnionAtIndex { structure: Symbol, tag_id: u16, union_layout: InLayout, index: u64 },
    /// The value that a box, or a pointer cast to one, points to.
    ExprUnbox { symbol: Symbol },
    NullPointer,
}

#[derive(PartialEq, Eq, Debug)]
pub enum Stmt {
    /// Bind a symbol of the given layout to a value, then go on.
    Let(Symbol, Expr, InLayout, Box<Stmt>),
    /// Go to the branch whose number the condition holds, else to the default.
    Switch {
        cond_symbol: Symbol,
        cond_layout: InLayout,
        branches: Vec<(u64, BranchInfo, Stmt)>,
        default_branch: (BranchInfo, Box<Stmt>),
        ret_layout: InLayout,
    },
    Ret(Symbol),
    /// Declare the join point `id` with its body, then run `remainder`.
    Join { id: JoinPointId, parameters: Vec<Param>, body: Box<Stmt>, remainder: Box<Stmt> },
    /// Continue at a join point, binding its parameters.
    Jump(JoinPointId, Vec<Symbol>),
}

/// A generated procedure.
#[derive(PartialEq, Eq, Debug)]
pub struct Proc {
    pub name: Symbol,
    pub args: Vec<(InLayout, Symbol)>,
    pub body: Stmt,
    pub ret_layout: InLayout,
}

/// Mathematical form of a `CallType`.
pub enum CallTypeV {
    ByName { name: Symbol, ret_layout: InLayout, arg_layouts: Seq<InLayout> },
    LowLevel { op: LowLevel },
}

/// Mathematical form of a `Call`.
pub struct CallV {
    pub call_type: CallTypeV,
    pub arguments: Seq<Symbol>,
}

/// Mathematical form of an `Expr`.
pub enum ExprV {
    Literal(Literal),
    Call(CallV),
    Struct(Seq<Symbol>),
    StructAtIndex { index: u64, field_layouts: Seq<InLayout>, structure: Symbol },
    GetTagId { structure: Symbol, union_layout: InLayout },
    UnionAtIndex { structure: Symbol, tag_id: u16, union_layout: InLayout, index: u64 },
    ExprUnbox { symbol: Symbol },
    NullPointer,
}

/// Mathematical form of a `Stmt`: a tree over sequences.
pub enum StmtV {
    Let(Symbol, ExprV, InLayout, Box<StmtV>),
    Switch {
        cond_symbol: Symbol,
        cond_layout: InLayout,
        branches: Seq<(u64, BranchInfo, StmtV)>,
        default_branch: (BranchInfo, Box<StmtV>),
        ret_layout: InLayout,
    },
    Ret(Symbol),
    Join { id: JoinPointId, parameters: Seq<Param>, body: Box<StmtV>, remainder: Box<StmtV> },
    Jump(JoinPointId, Seq<Symbol>),
}

/// Mathematical form of a `Proc`.
pub struct ProcV {
    pub name: Symbol,
    pub args: Seq<(InLayout, Symbol)>,
    pub body: StmtV,
    pub ret_layout: InLayout,
}

impl View for CallType {
    type V = CallTypeV;

    open spec fn view(&self) -> CallTypeV {
        match self {
            CallType::ByName { name, ret_layout, arg_layouts } => CallTypeV::ByName {
                name: *name,
                ret_layout: *ret_layout,
                arg_layouts: arg_layouts@,
            },
            CallType::LowLevel { op } => CallTypeV::LowLevel { op: *op },
        }
    }
}

impl View for Call {
    type V = CallV;

    open spec fn view(&self) -> CallV {
        CallV { call_type: self.call_type@, arguments: self.arguments@ }
    }
}

impl View for Expr {
    type V = ExprV;

    open spec fn view(&self) -> ExprV {
        match self {
            Expr::Literal(l) => ExprV::Literal(*l),
            Expr::Call(c) => ExprV::Call(c@),
            Expr::Struct(fields) => ExprV::Struct(fields@),
            Expr::StructAtIndex { index, field_layouts, structure } => ExprV::StructAtIndex {
                index: *index,
                field_layouts: field_layouts@,
                structure: *structure,
            },
            Expr::GetTagId { structure, union_layout } => ExprV::GetTagId {
                structure: *structure,
                union_layout: *union_layout,
            },
            Expr::UnionAtIndex { structure, tag_id, union_layout, index } => ExprV::UnionAtIndex {
                structure: *structure,
                tag_id: *tag_id,
                union_layout: *union_layout,
                index: *index,
            },
            Expr::ExprUnbox { symbol } => ExprV::ExprUnbox { symbol: *symbol },
            Expr::NullPointer => ExprV::NullPointer,
        }
    }
}

impl Stmt {
    /// The tree that this statement is.
    pub open spec fn model(&self) -> StmtV
        decreases self,
    {
        match self {
            Stmt::Let(symbol, expr, layout, next) => StmtV::Let(
                *symbol,
                expr@,
                *layout,
                Box::new(next.model()),
            ),
            Stmt::Switch { cond_symbol, cond_layout, branches, default_branch, ret_layout } => {
                StmtV::Switch {
                    cond_symbol: *cond_symbol,
                    cond_layout: *cond_layout,
                    branches: Seq::new(
                        branches@.len(),
                        |i: int|
                            if 0 <= i < branches@.len() {
                                (branches@[i].0, branches@[i].1, branches@[i].2.model())
                            } else {
                                arbitrary()
                            },
                    ),
                    default_branch: (default_branch.0, Box::new(default_branch.1.model())),
                    ret_layout: *ret_layout,
                }
            },
            Stmt::Ret(symbol) => StmtV::Ret(*symbol),
            Stmt::Join { id, parameters, body, remainder } => StmtV::Join {
                id: *id,
                parameters: parameters@,
                body: Box::new(body.model()),
                remainder: Box::new(remainder.model()),
            },
            Stmt::Jump(id, arguments) => StmtV::Jump(*id, arguments@),
        }
    }
}

impl View for Stmt {
    type V = StmtV;

    open spec fn view(&self) -> StmtV {
        self.model()
    }
}

impl View for Proc {
    type V = ProcV;

    open spec fn view(&self) -> ProcV {
        ProcV { name: self.name, args: self.args@, body: self.body@, ret_layout: self.ret_layout }
    }
}

/// The branches of a switch, each with its statement as a tree.
pub open spec fn branches_view(branches: Seq<(u64, BranchInfo, Stmt)>) -> Seq<
    (u64, BranchInfo, StmtV),
> {
    Seq::new(branches.len(), |i: int| (branches[i].0, branches[i].1, branches[i].2@))
}

/// `let symbol: layout = expr in next`.
pub open spec fn let_v(symbol: Symbol, expr: ExprV, layout: InLayout, next: StmtV) -> StmtV {
    StmtV::Let(symbol, expr, layout, Box::new(next))
}

/// A call of the intrinsic `op`.
pub open spec fn lowlevel_v(op: LowLevel, arguments: Seq<Symbol>) -> ExprV {
    ExprV::Call(CallV { call_type: CallTypeV::LowLevel { op }, arguments })
}

/// `let result: layout = op(arguments) in next`.
pub open spec fn let_lowlevel_v(
    layout: InLayout,
    result: Symbol,
    op: LowLevel,
    arguments: Seq<Symbol>,
    next: StmtV,
) -> StmtV {
    let_v(result, lowlevel_v(op, arguments), layout, next)
}

/// An integer constant.
pub open spec fn int_v(value: i128) -> ExprV {
    ExprV::Literal(Literal::Int(value))
}

/// A switch on a boolean: `then_branch` where it holds 1, else `else_branch`.
pub open spec fn if_then_else_v(
    condition: Symbol,
    ret_layout: InLayout,
    then_branch: StmtV,
    else_branch: StmtV,
) -> StmtV {
    StmtV::Switch {
        cond_symbol: condition,
        cond_layout: LAYOUT_BOOL,
        branches: seq![
            (
                1u64,
                BranchInfo::Constructor { scrutinee: condition, layout: LAYOUT_BOOL, tag_id: 1 },
                then_branch,
            ),
        ],
        default_branch: (
            BranchInfo::Constructor { scrutinee: condition, layout: LAYOUT_BOOL, tag_id: 0 },
            Box::new(else_branch),
        ),
        ret_layout,
    }
}

/// A join point with its body, before the statement that jumps to it.
pub open spec fn join_v(
    id: JoinPointId,
    parameters: Seq<Param>,
    body: StmtV,
    remainder: StmtV,
) -> StmtV {
    StmtV::Join { id, parameters, body: Box::new(body), remainder: Box::new(remainder) }
}

/// A list of no symbols.
pub fn syms0() -> (v: Vec<Symbol>)
    ensures
        v@ == Seq::<Symbol>::empty(),
{
    Vec::new()
}

/// A list of one symbol.
pub fn syms1(a: Symbol) -> (v: Vec<Symbol>)
    ensures
        v@ == seq![a],
{
    let mut v: Vec<Symbol> = Vec::new();
    v.push(a);
    assert(v@ =~= seq![a]);
    v
}

/// A list of two symbols.
pub fn syms2(a: Symbol, b: Symbol) -> (v: Vec<Symbol>)
    ensures
        v@ == seq![a, b],
{
    let mut v: Vec<Symbol> = Vec::new();
    v.push(a);
    v.push(b);
    assert(v@ =~= seq![a, b]);
    v
}

/// A list of three layouts.
pub fn layouts3(a: InLayout, b: InLayout, c: InLayout) -> (v: Vec<InLayout>)
    ensures
        v@ == seq![a, b, c],
{
    let mut v: Vec<InLayout> = Vec::new();
    v.push(a);
    v.push(b);
    v.push(c);
    assert(v@ =~= seq![a, b, c]);
    v
}

impl Stmt {
    /// `let symbol: layout = expr in next`.
    pub fn new_let(symbol: Symbol, expr: Expr, layout: InLayout, next: Stmt) -> (s: Stmt)
        ensures
            s@ == let_v(symbol, expr@, layout, next@),
    {
        Stmt::Let(symbol, expr, layout, Box::new(next))
    }

    /// The return of `symbol`.
    pub fn new_ret(symbol: Symbol) -> (s: Stmt)
        ensures
            s@ == StmtV::Ret(symbol),
    {
        Stmt::Ret(symbol)
    }

    /// The jump to `id` with these arguments.
    pub fn new_jump(id: JoinPointId, arguments: Vec<Symbol>) -> (s: Stmt)
        ensures
            s@ == StmtV::Jump(id, arguments@),
    {
        Stmt::Jump(id, arguments)
    }

    /// The join point `id` with its body, before `remainder`.
    pub fn new_join(id: JoinPointId, parameters: Vec<Param>, body: Stmt, remainder: Stmt) -> (s:
        Stmt)
        ensures
            s@ == join_v(id, parameters@, body@, remainder@),
    {
        Stmt::Join { id, parameters, body: Box::new(body), remainder: Box::new(remainder) }
    }

    /// The switch on `cond_symbol` over these branches.
    pub fn new_switch(
        cond_symbol: Symbol,
        cond_layout: InLayout,
        branches: Vec<(u64, BranchInfo, Stmt)>,
        default_info: BranchInfo,
        default_stmt: Stmt,
        ret_layout: InLayout,
    ) -> (s: Stmt)
        ensures
            s@ == (StmtV::Switch {
                cond_symbol,
                cond_layout,
                branches: branches_view(branches@),
                default_branch: (default_info, Box::new(default_stmt@)),
                ret_layout,
            }),
    {
        let ghost bv = branches_view(branches@);
        let s = Stmt::Switch {
            cond_symbol,
            cond_layout,
            branches,
            default_branch: (default_info, Box::new(default_stmt)),
            ret_layout,
        };
        proof {
            assert(s@->Switch_branches =~= bv);
        }
        s
    }

    /// A switch on a boolean: `then_branch` where it holds 1, else
    /// `else_branch`.
    pub fn if_then_else(
        condition: Symbol,
        ret_layout: InLayout,
        then_branch: Stmt,
        else_branch: Stmt,
    ) -> (s: Stmt)
        ensures
            s@ == if_then_else_v(condition, ret_layout, then_branch@, else_branch@),
    {
        let then_info = BranchInfo::Constructor {
            scrutinee: condition,
            layout: LAYOUT_BOOL,
            tag_id: 1,
        };
        let else_info = BranchInfo::Constructor {
            scrutinee: condition,
            layout: LAYOUT_BOOL,
            tag_id: 0,
        };
        let ghost tv = then_branch@;
        let mut branches: Vec<(u64, BranchInfo, Stmt)> = Vec::new();
        branches.push((1u64, then_info, then_branch));
        proof {
            assert(branches_view(branches@) =~= seq![(1u64, then_info, tv)]);
        }
        Stmt::new_switch(condition, LAYOUT_BOOL, branches, else_info, else_branch, ret_layout)
    }
}

/// A call of the intrinsic `op`.
pub fn lowlevel(op: LowLevel, arguments: Vec<Symbol>) -> (e: Expr)
    ensures
        e@ == lowlevel_v(op, arguments@),
{
    Expr::Call(Call { call_type: CallType::LowLevel { op }, arguments })
}

/// `let result: layout = op(arguments) in next`.
pub fn let_lowlevel(
    layout: InLayout,
    result: Symbol,
    op: LowLevel,
    arguments: Vec<Symbol>,
    next: Stmt,
) -> (s: Stmt)
    ensures
        s@ == let_lowlevel_v(layout, result, op, arguments@, next@),
{
    Stmt::new_let(result, lowlevel(op, arguments), layout, next)
}

/// An integer constant.
pub fn int_literal(value: i128) -> (e: Expr)
    ensures
        e@ == int_v(value),
{
    Expr::Literal(Literal::Int(value))
}

} // verus!
