//! What generated code does when it runs: a model of the runtime in which
//! memory is given from outside and every access to it is recorded. The
//! laws of the generator are stated over this model.

use vstd::prelude::*;
use vstd::arithmetic::power2::pow2;
use crate::symbol::{Symbol, JoinPointId};
use crate::low_level::LowLevel;
use crate::layout::{InLayout, PtrWidth, LAYOUT_U8, LAYOUT_U16, LAYOUT_U32, LAYOUT_U64};
use crate::ir::{Literal, ExprV, CallV, CallTypeV, StmtV, Param, BranchInfo};

verus! {

/// A value of the runtime: a machine word, which is also what a pointer is,
/// or a record of values that lies on the stack.
pub enum Value {
    Word(int),
    Record(Seq<Value>),
}

/// The memory that generated code runs against, as far as it can tell.
pub struct World {
    pub target: PtrWidth,
    /// Whether the header before a data pointer holds the unique sentinel.
    pub unique: spec_fn(int) -> bool,
    /// The value that lies at an address.
    pub memory: spec_fn(int) -> Value,
    /// The tag id of a value of a union.
    pub tag_id: spec_fn(InLayout, Value) -> int,
    /// A field of a variant of a value of a union.
    pub field: spec_fn(InLayout, Value, u16, u64) -> Value,
    /// What a call of a procedure returns.
    pub call_result: spec_fn(Symbol, Seq<Value>) -> Value,
}

/// One thing that code did beyond computing on the values at hand.
pub enum Event {
    /// The header before the pointer was read and compared.
    IsUnique(int),
    /// The header before the pointer was raised by the amount.
    Inc(int, int),
    /// The header before the pointer was decremented, and the allocation
    /// freed with the alignment if it was unique.
    Dec(int, int),
    /// The value at the address was read.
    Load(int),
    /// A field of a union value was projected.
    Field(InLayout, Value, u16, u64),
    /// A procedure was called.
    Call(Symbol, Seq<Value>),
}

/// How a run ended, with the events up to there.
pub enum Outcome {
    Return(Value, Seq<Event>),
    /// The code asked for something that has no meaning.
    Stuck(Seq<Event>),
    /// The run was cut off after the allowed number of jumps.
    OutOfFuel(Seq<Event>),
}

/// A join point in scope: its parameters and its body.
pub struct JoinV {
    pub parameters: Seq<Param>,
    pub body: StmtV,
}

pub type Env = Map<Symbol, Value>;

pub type Joins = Map<JoinPointId, JoinV>;

/// The unit value.
pub open spec fn unit() -> Value {
    Value::Record(Seq::empty())
}

/// Number of values a word can hold.
pub open spec fn modulus(target: PtrWidth) -> int {
    match target {
        PtrWidth::Bytes4 => 0x1_0000_0000,
        PtrWidth::Bytes8 => 0x1_0000_0000_0000_0000,
    }
}

/// The signed word that `x` is, modulo the width of a word.
pub open spec fn wrap(target: PtrWidth, x: int) -> int {
    let m = modulus(target);
    let r = x % m;
    if r >= m / 2 {
        r - m
    } else {
        r
    }
}

/// The bits of a signed word.
pub open spec fn bits_of(target: PtrWidth, x: int) -> u64 {
    (x % modulus(target)) as u64
}

/// The layout is that of an unsigned word.
pub open spec fn is_unsigned(layout: InLayout) -> bool {
    layout == LAYOUT_U8 || layout == LAYOUT_U16 || layout == LAYOUT_U32 || layout == LAYOUT_U64
}

/// `x` held to the range of a word of the given layout.
pub open spec fn saturate(target: PtrWidth, layout: InLayout, x: int) -> int {
    let m = modulus(target);
    if is_unsigned(layout) {
        if x < 0 {
            0
        } else if x >= m {
            m - 1
        } else {
            x
        }
    } else {
        if x < -(m / 2) {
            -(m / 2)
        } else if x >= m / 2 {
            m / 2 - 1
        } else {
            x
        }
    }
}

/// A truth value as a word.
pub open spec fn truth(b: bool) -> Value {
    Value::Word(
        if b {
            1
        } else {
            0
        },
    )
}

/// The values of the symbols `args`, if all are bound.
pub open spec fn lookup_all(env: Env, args: Seq<Symbol>) -> Option<Seq<Value>> {
    if forall|i: int| 0 <= i < args.len() ==> env.dom().contains(#[trigger] args[i]) {
        Some(Seq::new(args.len(), |i: int| env[args[i]]))
    } else {
        None
    }
}

/// What an intrinsic yields on these arguments, for a result of the given
/// layout, and the event it leaves, if any; nothing where the call has no
/// meaning.
pub open spec fn eval_lowlevel(world: World, op: LowLevel, args: Seq<Value>, layout: InLayout) -> Option<
    (Value, Option<Event>),
> {
    let t = world.target;
    match op {
        LowLevel::PtrCast => if args.len() == 1 && args[0] is Word {
            Some((args[0], None))
        } else {
            None
        },
        LowLevel::ListLen => if args.len() == 1 && args[0] is Record && args[0]->Record_0.len()
            == 3 {
            Some((args[0]->Record_0[1], None))
        } else {
            None
        },
        LowLevel::RefCountIsUnique => if args.len() == 1 && args[0] is Word {
            let p = args[0]->Word_0;
            Some((truth((world.unique)(p)), Some(Event::IsUnique(p))))
        } else {
            None
        },
        _ => if args.len() == 2 && args[0] is Word && args[1] is Word {
            let a = args[0]->Word_0;
            let b = args[1]->Word_0;
            match op {
                LowLevel::And => Some(
                    (Value::Word(wrap(t, (bits_of(t, a) & bits_of(t, b)) as int)), None),
                ),
                LowLevel::NumSubSaturated => Some(
                    (Value::Word(saturate(t, layout, a - b)), None),
                ),
                LowLevel::NumAdd => Some((Value::Word(wrap(t, a + b)), None)),
                LowLevel::NumMul => Some((Value::Word(wrap(t, a * b)), None)),
                LowLevel::NumGte => Some((truth(a >= b), None)),
                LowLevel::NumLt => Some((truth(a < b), None)),
                LowLevel::Eq => Some((truth(a == b), None)),
                LowLevel::NumShiftLeftBy => if 0 <= b < 64 {
                    Some((Value::Word(wrap(t, a * pow2(b as nat))), None))
                } else {
                    None
                },
                LowLevel::RefCountIncDataPtr => Some((unit(), Some(Event::Inc(a, b)))),
                LowLevel::RefCountDecDataPtr => Some((unit(), Some(Event::Dec(a, b)))),
                _ => None,
            }
        } else {
            None
        },
    }
}

/// The value of an expression and the event of evaluating it, if any;
/// nothing where the expression has no meaning in this environment.
pub open spec fn eval_expr(world: World, env: Env, expr: ExprV, layout: InLayout) -> Option<
    (Value, Option<Event>),
> {
    match expr {
        ExprV::Literal(Literal::Int(i)) => Some((Value::Word(i as int), None)),
        ExprV::Call(CallV { call_type, arguments }) => match lookup_all(env, arguments) {
            Some(args) => match call_type {
                CallTypeV::ByName { name, .. } => Some(
                    ((world.call_result)(name, args), Some(Event::Call(name, args))),
                ),
                CallTypeV::LowLevel { op } => eval_lowlevel(world, op, args, layout),
            },
            None => None,
        },
        ExprV::Struct(fields) => match lookup_all(env, fields) {
            Some(values) => Some((Value::Record(values), None)),
            None => None,
        },
        ExprV::StructAtIndex { index, structure, .. } => if env.dom().contains(structure)
            && env[structure] is Record && index < env[structure]->Record_0.len() {
            Some((env[structure]->Record_0[index as int], None))
        } else {
            None
        },
        ExprV::GetTagId { structure, union_layout } => if env.dom().contains(structure) {
            Some((Value::Word((world.tag_id)(union_layout, env[structure])), None))
        } else {
            None
        },
        ExprV::UnionAtIndex { structure, tag_id, union_layout, index } => if env.dom().contains(
            structure,
        ) {
            Some(
                (
                    (world.field)(union_layout, env[structure], tag_id, index),
                    Some(Event::Field(union_layout, env[structure], tag_id, index)),
                ),
            )
        } else {
            None
        },
        ExprV::ExprUnbox { symbol } => if env.dom().contains(symbol) && env[symbol] is Word {
            let a = env[symbol]->Word_0;
            Some(((world.memory)(a), Some(Event::Load(a))))
        } else {
            None
        },
        ExprV::NullPointer => Some((Value::Word(0), None)),
    }
}

/// The trace with the event, if there is one, at its end.
pub open spec fn record(trace: Seq<Event>, event: Option<Event>) -> Seq<Event> {
    match event {
        Some(e) => trace.push(e),
        None => trace,
    }
}

/// The place of the first of `branches` at or after `from` whose number is
/// `on`.
pub open spec fn find_branch(branches: Seq<(u64, BranchInfo, StmtV)>, on: int, from: nat) -> Option<
    int,
>
    decreases branches.len() - from,
{
    if from >= branches.len() {
        None
    } else if branches[from as int].0 == on {
        Some(from as int)
    } else {
        find_branch(branches, on, from + 1)
    }
}

/// The environment after the parameters of a join point were bound to the
/// values of the arguments of a jump.
pub open spec fn bind_params(env: Env, parameters: Seq<Param>, values: Seq<Value>, n: nat) -> Env
    decreases n,
{
    if n == 0 || n > parameters.len() || n > values.len() {
        env
    } else {
        bind_params(env, parameters, values, (n - 1) as nat).insert(
            parameters[n - 1].symbol,
            values[n - 1],
        )
    }
}

/// Runs a statement. `fuel` bounds the number of jumps, so that a run of a
/// loop is cut off somewhere; `trace` holds the events so far.
pub open spec fn run(
    world: World,
    joins: Joins,
    env: Env,
    stmt: StmtV,
    trace: Seq<Event>,
    fuel: nat,
) -> Outcome
    decreases fuel, stmt,
{
    match stmt {
        StmtV::Let(symbol, expr, layout, next) => match eval_expr(world, env, expr, layout) {
            Some((value, event)) => run(
                world,
                joins,
                env.insert(symbol, value),
                *next,
                record(trace, event),
                fuel,
            ),
            None => Outcome::Stuck(trace),
        },
        StmtV::Switch { cond_symbol, branches, default_branch, .. } => {
            if env.dom().contains(cond_symbol) && env[cond_symbol] is Word {
                match find_branch(branches, env[cond_symbol]->Word_0, 0) {
                    Some(i) => if 0 <= i < branches.len() {
                        run(world, joins, env, branches[i].2, trace, fuel)
                    } else {
                        Outcome::Stuck(trace)
                    },
                    None => run(world, joins, env, *default_branch.1, trace, fuel),
                }
            } else {
                Outcome::Stuck(trace)
            }
        },
        StmtV::Ret(symbol) => if env.dom().contains(symbol) {
            Outcome::Return(env[symbol], trace)
        } else {
            Outcome::Stuck(trace)
        },
        StmtV::Join { id, parameters, body, remainder } => run(
            world,
            joins.insert(id, JoinV { parameters, body: *body }),
            env,
            *remainder,
            trace,
            fuel,
        ),
        StmtV::Jump(id, arguments) => match lookup_all(env, arguments) {
            Some(values) => if joins.dom().contains(id) && joins[id].parameters.len()
                == values.len() {
                if fuel == 0 {
                    Outcome::OutOfFuel(trace)
                } else {
                    run(
                        world,
                        joins,
                        bind_params(env, joins[id].parameters, values, values.len()),
                        joins[id].body,
                        trace,
                        (fuel - 1) as nat,
                    )
                }
            } else {
                Outcome::Stuck(trace)
            },
            None => Outcome::Stuck(trace),
        },
    }
}

/// The statement after a `Let`.
pub open spec fn next_of(stmt: StmtV) -> StmtV {
    match stmt {
        StmtV::Let(_, _, _, next) => *next,
        _ => stmt,
    }
}

/// The statement of the `i`-th branch of a `Switch`.
pub open spec fn branch_of(stmt: StmtV, i: int) -> StmtV {
    match stmt {
        StmtV::Switch { branches, .. } => branches[i].2,
        _ => stmt,
    }
}

/// The statement of the default branch of a `Switch`.
pub open spec fn default_of(stmt: StmtV) -> StmtV {
    match stmt {
        StmtV::Switch { default_branch, .. } => *default_branch.1,
        _ => stmt,
    }
}

/// The body of a `Join`.
pub open spec fn body_of(stmt: StmtV) -> StmtV {
    match stmt {
        StmtV::Join { body, .. } => *body,
        _ => stmt,
    }
}

/// The statement that a `Join` stands before.
pub open spec fn remainder_of(stmt: StmtV) -> StmtV {
    match stmt {
        StmtV::Join { remainder, .. } => *remainder,
        _ => stmt,
    }
}

} // verus!
