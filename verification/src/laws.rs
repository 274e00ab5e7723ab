//! What holds of every procedure the generator makes, proved over the model
//! of the runtime.

use vstd::prelude::*;
use crate::symbol::{Symbol, JoinPointId};
use crate::layout::{InLayout, PtrWidth, UnionLayoutV, allocation_alignment_spec};
use crate::ir::StmtV;
use crate::helper::{Context, HelperOp, GenV, insert_v};
use crate::machine::wrap;
use crate::gen_union::{
    refcount_tag_fields_v, tag_branches_v, tail_of, refcount_union_rec_v, refcount_union_tailrec_v,
    refcount_union_v, inside_union, tag_id_of,
};
use crate::helper::sym;
use crate::gen_basic::{refcount_str_v, rc_return_stmt_v, modify_refcount_v, refcount_1_encoded};
use crate::gen_data::{refcount_list_v, refcount_boxed_v};
use crate::ir::ModifyRc;
use crate::layout::{LayoutV, Builtin, alignment_spec, max_int};
use crate::refcount::{refcount_stmt_v, refcount_generic_v, decref_is_noop};
use crate::helper::{tail_recursion_fields_v, skip, with_idents, fresh};
use crate::ir::{Param, Ownership};
use crate::machine::{
    World, Value, Event, Outcome, Env, Joins, JoinV, run, unit, lookup_all, find_branch,
    bind_params, next_of, branch_of, default_of, body_of, remainder_of,
};

verus! {

/// The symbols numbered from `n` on for `count` numbers are pairwise
/// distinct: their numbers fit the type that holds them.
pub open spec fn numbers_fit(n: nat, count: nat) -> bool {
    n + count <= u64::MAX
}

/// Looking up no symbols yields no values.
pub proof fn lookup_none(env: Env)
    ensures
        lookup_all(env, Seq::empty()) == Some(Seq::<Value>::empty()),
{
    assert(Seq::new(0, |i: int| env[Seq::<Symbol>::empty()[i]]) =~= Seq::<Value>::empty());
}

/// Returning from a procedure adds no event.
pub proof fn return_adds_nothing(
    world: World,
    joins: Joins,
    env: Env,
    home: u32,
    n: nat,
    ctx: Context,
    trace: Seq<Event>,
    fuel: nat,
)
    requires
        !(ctx.op is DecRef),
    ensures
        run(world, joins, env, rc_return_stmt_v(home, n, ctx).0, trace, fuel) == Outcome::Return(
            unit(),
            trace,
        ),
{
    lookup_none(env);
    reveal_with_fuel(run, 3);
}

/// A small string owns no allocation, and the procedures for strings leave
/// it alone: run on a string whose last word is negative, the increment and
/// the decrement return without one access to memory.
pub proof fn small_string_is_skipped(
    world: World,
    joins: Joins,
    env: Env,
    home: u32,
    target: PtrWidth,
    n: nat,
    ctx: Context,
    trace: Seq<Event>,
    fuel: nat,
)
    requires
        ctx.op is Inc || ctx.op is Dec,
        numbers_fit(n, 8),
        env.dom().contains(Symbol::arg_1()),
        env[Symbol::arg_1()] matches Value::Record(words) && words.len() == 3 && (
        words[2] matches Value::Word(last) && last < 0),
    ensures
        run(world, joins, env, refcount_str_v(home, target, n, ctx).0, trace, fuel)
            == Outcome::Return(unit(), trace),
{
    reveal_with_fuel(find_branch, 3);
    let s0 = refcount_str_v(home, target, n, ctx).0;
    let s1 = next_of(s0);
    let s2 = next_of(s1);
    let s3 = next_of(s2);
    let s4 = default_of(s3);
    let words = env[Symbol::arg_1()]->Record_0;
    let last_word = sym(home, n);
    let zero = sym(home, n + 1);
    let is_big_str = sym(home, n + 2);
    let env1 = env.insert(last_word, words[2]);
    let env2 = env1.insert(zero, Value::Word(0));
    let env3 = env2.insert(is_big_str, Value::Word(0));
    assert(run(world, joins, env, s0, trace, fuel) == run(world, joins, env1, s1, trace, fuel));
    assert(run(world, joins, env1, s1, trace, fuel) == run(world, joins, env2, s2, trace, fuel));
    assert(lookup_all(env2, seq![last_word, zero]) == Some(seq![words[2], Value::Word(0)])) by {
        assert(Seq::new(2, |i: int| env2[seq![last_word, zero][i]]) =~= seq![
            words[2],
            Value::Word(0),
        ]);
    }
    assert(run(world, joins, env2, s2, trace, fuel) == run(world, joins, env3, s3, trace, fuel));
    assert(run(world, joins, env3, s3, trace, fuel) == run(world, joins, env3, s4, trace, fuel));
    let n2 = modify_refcount_v(
        home,
        rc_return_stmt_v(home, n + 4, ctx).1,
        ctx,
        sym(home, n + 3),
        target.bytes(),
        rc_return_stmt_v(home, n + 4, ctx).0,
    ).1;
    return_adds_nothing(world, joins, env3, home, n2, ctx, trace, fuel);
}

/// Returning from a procedure adds no event, whatever the number of the
/// symbol it binds.
pub proof fn every_return_adds_nothing(
    world: World,
    joins: Joins,
    env: Env,
    home: u32,
    ctx: Context,
    trace: Seq<Event>,
    fuel: nat,
)
    requires
        !(ctx.op is DecRef),
    ensures
        forall|n: nat|
            run(world, joins, env, (#[trigger] rc_return_stmt_v(home, n, ctx)).0, trace, fuel)
                == Outcome::Return(unit(), trace),
{
    assert forall|n: nat|
        run(world, joins, env, (#[trigger] rc_return_stmt_v(home, n, ctx)).0, trace, fuel)
            == Outcome::Return(unit(), trace) by {
        return_adds_nothing(world, joins, env, home, n, ctx, trace, fuel);
    }
}

/// An empty list has no allocation, and the procedures for lists leave it
/// alone: run on a list of length 0, the increment and the decrement return
/// without one access to memory.
pub proof fn empty_list_is_skipped(
    world: World,
    joins: Joins,
    env: Env,
    g: GenV,
    ctx: Context,
    elem_layout: InLayout,
    structure: Symbol,
    trace: Seq<Event>,
    fuel: nat,
)
    requires
        ctx.op is Inc || ctx.op is Dec,
        numbers_fit(g.idents, 3),
        env.dom().contains(structure),
        env[structure] matches Value::Record(words) && words.len() == 3 && words[1]
            == Value::Word(0),
    ensures
        run(world, joins, env, refcount_list_v(g, ctx, elem_layout, structure).0, trace, fuel)
            == Outcome::Return(unit(), trace),
{
    reveal_with_fuel(find_branch, 3);
    let s0 = refcount_list_v(g, ctx, elem_layout, structure).0;
    let s1 = next_of(s0);
    let s2 = next_of(s1);
    let s3 = next_of(s2);
    let s4 = branch_of(s3, 0);
    let len = sym(g.help.home, g.idents);
    let zero = sym(g.help.home, g.idents + 1);
    let is_empty = sym(g.help.home, g.idents + 2);
    let env1 = env.insert(len, Value::Word(0));
    let env2 = env1.insert(zero, Value::Word(0));
    let env3 = env2.insert(is_empty, Value::Word(1));
    assert(lookup_all(env, seq![structure]) == Some(seq![env[structure]])) by {
        assert(Seq::new(1, |i: int| env[seq![structure][i]]) =~= seq![env[structure]]);
    }
    assert(run(world, joins, env, s0, trace, fuel) == run(world, joins, env1, s1, trace, fuel));
    assert(run(world, joins, env1, s1, trace, fuel) == run(world, joins, env2, s2, trace, fuel));
    assert(lookup_all(env2, seq![len, zero]) == Some(seq![Value::Word(0), Value::Word(0)])) by {
        assert(Seq::new(2, |i: int| env2[seq![len, zero][i]]) =~= seq![
            Value::Word(0),
            Value::Word(0),
        ]);
    }
    assert(run(world, joins, env2, s2, trace, fuel) == run(world, joins, env3, s3, trace, fuel));
    assert(run(world, joins, env3, s3, trace, fuel) == run(world, joins, env3, s4, trace, fuel));
    every_return_adds_nothing(world, joins, env3, g.help.home, ctx, trace, fuel);
}

/// The state `after` came from `before` by making symbols and requesting
/// procedures only.
pub open spec fn grown(after: GenV, before: GenV) -> bool {
    &&& after.idents >= before.idents
    &&& after.help.home == before.help.home
    &&& after.help.target == before.help.target
    &&& after.layouts == before.layouts
}

/// The code for the fields of a variant makes symbols and files procedures
/// only.
pub proof fn tag_fields_grow(
    g: GenV,
    ctx: Context,
    union_in_layout: InLayout,
    pairs: Seq<(usize, InLayout)>,
    structure: Symbol,
    tag_id: u16,
    following: StmtV,
    k: nat,
)
    ensures
        grown(
            refcount_tag_fields_v(
                g,
                ctx,
                union_in_layout,
                pairs,
                structure,
                tag_id,
                following,
                k,
            ).1,
            g,
        ),
    decreases k,
{
    if k == 0 || k > pairs.len() {
    } else {
        tag_fields_grow(
            g,
            ctx,
            union_in_layout,
            pairs,
            structure,
            tag_id,
            following,
            (k - 1) as nat,
        );
    }
}

/// The arms of a union make symbols and file procedures only.
pub proof fn tag_branches_grow(
    g: GenV,
    ctx: Context,
    union_in_layout: InLayout,
    u: UnionLayoutV,
    structure: Symbol,
    jp: JoinPointId,
    tail: Option<Seq<Option<usize>>>,
    n: nat,
)
    ensures
        grown(tag_branches_v(g, ctx, union_in_layout, u, structure, jp, tail, n).1, g),
    decreases n,
{
    if n == 0 || n > u.tags().len() {
    } else {
        tag_branches_grow(g, ctx, union_in_layout, u, structure, jp, tail, (n - 1) as nat);
        let g1 = tag_branches_v(
            g,
            ctx,
            union_in_layout,
            u,
            structure,
            jp,
            tail,
            (n - 1) as nat,
        ).1;
        let fields = u.tags()[n - 1];
        let tag_id = tag_id_of(n - 1, u.null_id());
        match tail_of(tail, n - 1) {
            None => {
                let pairs = crate::gen_union::indexed_fields_v(fields, None, fields.len());
                tag_fields_grow(
                    g1,
                    ctx,
                    union_in_layout,
                    pairs,
                    structure,
                    tag_id,
                    StmtV::Jump(jp, Seq::empty()),
                    pairs.len(),
                );
            },
            Some(Some(index)) => {
                let pairs = crate::gen_union::indexed_fields_v(fields, Some(index), fields.len());
                let following = arm_tail_stmt(g1, union_in_layout, fields, structure, jp, tag_id, Some(index));
                tag_fields_grow(
                    crate::helper::skip(g1, 1),
                    ctx,
                    union_in_layout,
                    pairs,
                    structure,
                    tag_id,
                    following,
                    pairs.len(),
                );
            },
            Some(None) => {
                let pairs = crate::gen_union::indexed_fields_v(fields, None, fields.len());
                let following = arm_tail_stmt(g1, union_in_layout, fields, structure, jp, tag_id, None);
                tag_fields_grow(
                    crate::helper::skip(g1, 1),
                    ctx,
                    union_in_layout,
                    pairs,
                    structure,
                    tag_id,
                    following,
                    pairs.len(),
                );
            },
        }
    }
}

/// The end of an arm in the form of the loop: the jump with the field that
/// leads on, or with a null pointer.
pub open spec fn arm_tail_stmt(
    g: GenV,
    union_in_layout: InLayout,
    fields: Seq<InLayout>,
    structure: Symbol,
    jp: JoinPointId,
    tag_id: u16,
    index: Option<usize>,
) -> StmtV {
    match index {
        Some(i) => crate::ir::let_v(
            crate::helper::fresh(g, 0),
            crate::ir::ExprV::UnionAtIndex {
                structure,
                tag_id,
                union_layout: union_in_layout,
                index: i as u64,
            },
            fields[i as int],
            StmtV::Jump(jp, seq![crate::helper::fresh(g, 0)]),
        ),
        None => crate::ir::let_v(
            crate::helper::fresh(g, 0),
            crate::ir::ExprV::NullPointer,
            union_in_layout,
            StmtV::Jump(jp, seq![crate::helper::fresh(g, 0)]),
        ),
    }
}

/// The symbol was made before the state `g`, or belongs to another module:
/// no symbol made from `g` on is the same.
pub open spec fn known(g: GenV, s: Symbol) -> bool {
    s.module_id != g.help.home || s.ident_id < g.idents
}

/// Looking up one bound symbol yields its value.
pub proof fn lookup_one(env: Env, a: Symbol)
    requires
        env.dom().contains(a),
    ensures
        lookup_all(env, seq![a]) == Some(seq![env[a]]),
{
    assert(Seq::new(1, |i: int| env[seq![a][i]]) =~= seq![env[a]]);
}

/// Looking up two bound symbols yields their values.
pub proof fn lookup_two(env: Env, a: Symbol, b: Symbol)
    requires
        env.dom().contains(a),
        env.dom().contains(b),
    ensures
        lookup_all(env, seq![a, b]) == Some(seq![env[a], env[b]]),
{
    assert(Seq::new(2, |i: int| env[seq![a, b][i]]) =~= seq![env[a], env[b]]);
}

/// The decrement of a shared value of a recursive union in the recursive
/// form: the header is tested and decremented, and nothing else happens.
pub proof fn shared_value_in_recursive_form(
    world: World,
    joins: Joins,
    env: Env,
    g: GenV,
    ctx: Context,
    union_in_layout: InLayout,
    u: UnionLayoutV,
    structure: Symbol,
    p: int,
    trace: Seq<Event>,
    fuel: nat,
)
    requires
        ctx.op is Dec,
        known(g, structure),
        numbers_fit(refcount_union_rec_v(g, ctx, union_in_layout, u, structure).1.idents, 0),
        env.dom().contains(structure),
        env[structure] == Value::Word(p),
        !(world.unique)(p),
        fuel >= 1,
    ensures
        run(
            world,
            joins,
            env,
            refcount_union_rec_v(g, ctx, union_in_layout, u, structure).0,
            trace,
            fuel,
        ) == Outcome::Return(
            unit(),
            trace.push(Event::IsUnique(p)).push(
                Event::Dec(
                    p,
                    allocation_alignment_spec(g.layouts, g.help.target, union_in_layout) as u32 as int,
                ),
            ),
        ),
{
    reveal_with_fuel(find_branch, 3);
    let home = g.help.home;
    let n = g.idents;
    let alignment = allocation_alignment_spec(g.layouts, g.help.target, union_in_layout) as u32;
    let s0 = refcount_union_rec_v(g, ctx, union_in_layout, u, structure).0;
    let s1 = next_of(s0);
    let s2 = remainder_of(s1);
    let s3 = next_of(s2);
    let s4 = default_of(s3);
    let b0 = body_of(s1);
    let b1 = next_of(b0);
    let b2 = next_of(b1);
    let tag_id_sym = sym(home, n);
    let zig_call_result = sym(home, n + 2);
    let alignment_sym = sym(home, n + 3);
    let jp = JoinPointId(sym(home, n + 4));
    let g2 = crate::helper::with_idents(g, n + 4);
    tag_branches_grow(
        crate::helper::skip(g2, 1),
        ctx,
        union_in_layout,
        u,
        structure,
        jp,
        None,
        u.tags().len(),
    );
    let g1 = tag_branches_v(
        crate::helper::skip(g2, 1),
        ctx,
        union_in_layout,
        u,
        structure,
        jp,
        None,
        u.tags().len(),
    ).1;
    let is_unique = sym(home, g1.idents);
    let tag = (world.tag_id)(union_in_layout, env[structure]);
    let env1 = env.insert(tag_id_sym, Value::Word(tag));
    let joins1 = joins.insert(jp, crate::machine::JoinV { parameters: Seq::empty(), body: b0 });
    let env2 = env1.insert(is_unique, Value::Word(0));
    let trace1 = trace.push(Event::IsUnique(p));
    let env3 = env2.insert(alignment_sym, Value::Word(alignment as int));
    let env4 = env3.insert(zig_call_result, unit());
    let trace2 = trace1.push(Event::Dec(p, alignment as int));
    assert(run(world, joins, env, s0, trace, fuel) == run(world, joins, env1, s1, trace, fuel));
    assert(run(world, joins, env1, s1, trace, fuel) == run(world, joins1, env1, s2, trace, fuel));
    lookup_one(env1, structure);
    assert(run(world, joins1, env1, s2, trace, fuel) == run(world, joins1, env2, s3, trace1, fuel));
    assert(run(world, joins1, env2, s3, trace1, fuel) == run(world, joins1, env2, s4, trace1, fuel));
    lookup_none(env2);
    assert(run(world, joins1, env2, s4, trace1, fuel) == run(
        world,
        joins1,
        env2,
        b0,
        trace1,
        (fuel - 1) as nat,
    ));
    assert(run(world, joins1, env2, b0, trace1, (fuel - 1) as nat) == run(
        world,
        joins1,
        env3,
        b1,
        trace1,
        (fuel - 1) as nat,
    ));
    lookup_two(env3, structure, alignment_sym);
    assert(run(world, joins1, env3, b1, trace1, (fuel - 1) as nat) == run(
        world,
        joins1,
        env4,
        b2,
        trace2,
        (fuel - 1) as nat,
    ));
    every_return_adds_nothing(world, joins1, env4, home, ctx, trace2, (fuel - 1) as nat);
}

/// The decrement of a shared value of a recursive union in the form of the
/// loop: the header is tested and decremented, the loop ends, and nothing
/// else happens.
pub proof fn shared_value_in_loop_form(
    world: World,
    joins: Joins,
    env: Env,
    g: GenV,
    ctx: Context,
    union_in_layout: InLayout,
    u: UnionLayoutV,
    tailrec_indices: Seq<Option<usize>>,
    structure: Symbol,
    p: int,
    trace: Seq<Event>,
    fuel: nat,
)
    requires
        ctx.op is Dec,
        numbers_fit(
            refcount_union_tailrec_v(
                g,
                ctx,
                union_in_layout,
                u,
                tailrec_indices,
                structure,
            ).1.idents,
            0,
        ),
        env.dom().contains(structure),
        env[structure] == Value::Word(p),
        !(world.unique)(p),
        fuel >= 2,
    ensures
        run(
            world,
            joins,
            env,
            refcount_union_tailrec_v(g, ctx, union_in_layout, u, tailrec_indices, structure).0,
            trace,
            fuel,
        ) == Outcome::Return(
            unit(),
            trace.push(Event::IsUnique(p)).push(
                Event::Dec(
                    p,
                    allocation_alignment_spec(g.layouts, g.help.target, union_in_layout) as u32 as int,
                ),
            ),
        ),
{
    reveal_with_fuel(find_branch, 3);
    reveal_with_fuel(bind_params, 3);
    let home = g.help.home;
    let n = g.idents;
    let alignment = allocation_alignment_spec(g.layouts, g.help.target, union_in_layout) as u32;
    let s0 = refcount_union_tailrec_v(g, ctx, union_in_layout, u, tailrec_indices, structure).0;
    let r0 = remainder_of(s0);
    let l0 = body_of(s0);
    let l1 = next_of(l0);
    let l2 = remainder_of(l1);
    let l3 = next_of(l2);
    let l4 = default_of(l3);
    let l5 = next_of(l4);
    let m0 = body_of(l1);
    let m1 = next_of(m0);
    let m2 = next_of(m1);
    let m3 = next_of(m2);
    let m4 = branch_of(m3, 0);
    let tailrec_loop = JoinPointId(sym(home, n));
    let current = sym(home, n + 1);
    let next_ptr = sym(home, n + 2);
    let tag_id_sym = sym(home, n + 3);
    let next_addr = sym(home, n + 4);
    let zig_call_result = sym(home, n + 6);
    let alignment_sym = sym(home, n + 7);
    let jp = JoinPointId(sym(home, n + 8));
    let g2 = with_idents(g, n + 8);
    tag_branches_grow(
        skip(g2, 1),
        ctx,
        union_in_layout,
        u,
        current,
        jp,
        Some(tailrec_indices),
        u.tags().len(),
    );
    let g3 = tag_branches_v(
        skip(g2, 1),
        ctx,
        union_in_layout,
        u,
        current,
        jp,
        Some(tailrec_indices),
        u.tags().len(),
    ).1;
    let is_unique = sym(home, g3.idents);
    let null_pointer = sym(home, g3.idents + 1);
    let loop_param = Param {
        symbol: current,
        ownership: Ownership::Borrowed,
        layout: union_in_layout,
    };
    let jp_param = Param {
        symbol: next_ptr,
        ownership: Ownership::Borrowed,
        layout: union_in_layout,
    };
    let joins_a = joins.insert(tailrec_loop, JoinV { parameters: seq![loop_param], body: l0 });
    let env_b = env.insert(current, Value::Word(p));
    let tag = (world.tag_id)(union_in_layout, Value::Word(p));
    let env_c = env_b.insert(tag_id_sym, Value::Word(tag));
    let joins_d = joins_a.insert(jp, JoinV { parameters: seq![jp_param], body: m0 });
    let env_e = env_c.insert(is_unique, Value::Word(0));
    let trace1 = trace.push(Event::IsUnique(p));
    let env_f = env_e.insert(null_pointer, Value::Word(0));
    let env_g = env_f.insert(next_ptr, Value::Word(0));
    let env_h = env_g.insert(alignment_sym, Value::Word(alignment as int));
    let env_i = env_h.insert(zig_call_result, unit());
    let trace2 = trace1.push(Event::Dec(p, alignment as int));
    let env_j = env_i.insert(next_addr, Value::Word(0));
    let f1 = (fuel - 1) as nat;
    let f2 = (fuel - 2) as nat;
    assert(run(world, joins, env, s0, trace, fuel) == run(world, joins_a, env, r0, trace, fuel));
    lookup_one(env, structure);
    assert(bind_params(env, seq![loop_param], seq![Value::Word(p)], 1) == env_b);
    assert(run(world, joins_a, env, r0, trace, fuel) == run(world, joins_a, env_b, l0, trace, f1));
    assert(run(world, joins_a, env_b, l0, trace, f1) == run(world, joins_a, env_c, l1, trace, f1));
    assert(run(world, joins_a, env_c, l1, trace, f1) == run(world, joins_d, env_c, l2, trace, f1));
    lookup_one(env_c, current);
    assert(run(world, joins_d, env_c, l2, trace, f1) == run(world, joins_d, env_e, l3, trace1, f1));
    assert(run(world, joins_d, env_e, l3, trace1, f1) == run(
        world,
        joins_d,
        env_e,
        l4,
        trace1,
        f1,
    ));
    assert(run(world, joins_d, env_e, l4, trace1, f1) == run(
        world,
        joins_d,
        env_f,
        l5,
        trace1,
        f1,
    ));
    lookup_one(env_f, null_pointer);
    assert(bind_params(env_f, seq![jp_param], seq![Value::Word(0)], 1) == env_g);
    assert(run(world, joins_d, env_f, l5, trace1, f1) == run(
        world,
        joins_d,
        env_g,
        m0,
        trace1,
        f2,
    ));
    assert(run(world, joins_d, env_g, m0, trace1, f2) == run(
        world,
        joins_d,
        env_h,
        m1,
        trace1,
        f2,
    ));
    lookup_two(env_h, current, alignment_sym);
    assert(run(world, joins_d, env_h, m1, trace1, f2) == run(
        world,
        joins_d,
        env_i,
        m2,
        trace2,
        f2,
    ));
    lookup_one(env_i, next_ptr);
    assert(run(world, joins_d, env_i, m2, trace2, f2) == run(
        world,
        joins_d,
        env_j,
        m3,
        trace2,
        f2,
    ));
    assert(run(world, joins_d, env_j, m3, trace2, f2) == run(
        world,
        joins_d,
        env_j,
        m4,
        trace2,
        f2,
    ));
    every_return_adds_nothing(world, joins_d, env_j, home, ctx, trace2, f2);
}

/// The fast path for shared values touches the header only. Where the value
/// of a recursive union has more than one reference, its decrement tests the
/// header and decrements it: no field is projected, nothing is read from
/// memory, and no procedure is called. This holds of every form that the
/// generator chooses for the union.
pub proof fn shared_value_touches_only_header(
    world: World,
    joins: Joins,
    env: Env,
    g: GenV,
    ctx: Context,
    union_in_layout: InLayout,
    u: UnionLayoutV,
    structure: Symbol,
    p: int,
    trace: Seq<Event>,
    fuel: nat,
)
    requires
        ctx.op is Dec,
        u.is_recursive(),
        known(g, structure),
        numbers_fit(refcount_union_v(g, ctx, union_in_layout, u, structure).1.idents, 0),
        env.dom().contains(structure),
        env[structure] == Value::Word(p),
        !(world.unique)(p),
        fuel >= 2,
    ensures
        run(
            world,
            joins,
            env,
            refcount_union_v(g, ctx, union_in_layout, u, structure).0,
            trace,
            fuel,
        ) == Outcome::Return(
            unit(),
            trace.push(Event::IsUnique(p)).push(
                Event::Dec(
                    p,
                    allocation_alignment_spec(g.layouts, g.help.target, union_in_layout) as u32 as int,
                ),
            ),
        ),
{
    let inner = inside_union(ctx, union_in_layout, u);
    match u {
        UnionLayoutV::NonRecursive(_) => {},
        UnionLayoutV::NonNullableUnwrapped(_) => {
            shared_value_in_recursive_form(
                world,
                joins,
                env,
                g,
                inner,
                union_in_layout,
                u,
                structure,
                p,
                trace,
                fuel,
            );
        },
        _ => match tail_recursion_fields_v(g.layouts, u) {
            Some(indices) => {
                shared_value_in_loop_form(
                    world,
                    joins,
                    env,
                    g,
                    inner,
                    union_in_layout,
                    u,
                    indices,
                    structure,
                    p,
                    trace,
                    fuel,
                );
            },
            None => {
                shared_value_in_recursive_form(
                    world,
                    joins,
                    env,
                    g,
                    inner,
                    union_in_layout,
                    u,
                    structure,
                    p,
                    trace,
                    fuel,
                );
            },
        },
    }
}

/// The outcome is that of running `following` once the code before it is
/// done: with `trace` as the events so far, in an environment and among
/// join points that are the given ones for every symbol known before the
/// code was generated, `jp_decref` apart, which holds `following`.
pub open spec fn goes_on_with(
    outcome: Outcome,
    world: World,
    joins: Joins,
    env: Env,
    g: GenV,
    jp_decref: JoinPointId,
    following: StmtV,
    trace: Seq<Event>,
    fuel: nat,
) -> bool {
    exists|joins2: Joins, env2: Env, left: nat|
        {
            &&& left <= fuel
            &&& forall|s: Symbol|
                known(g, s) ==> env2.dom().contains(s) == env.dom().contains(s) && env2[s]
                    == env[s]
            &&& forall|id: JoinPointId|
                known(g, id.0) && id != jp_decref ==> joins2.dom().contains(id)
                    == joins.dom().contains(id) && joins2[id] == joins[id]
            &&& outcome == #[trigger] run(world, joins2, env2, following, trace, left)
        }
}

/// A release without descending does nothing to a value that has no header
/// of its own: the code is the statement that follows.
pub proof fn decref_of_headerless_value(
    g: GenV,
    ctx: Context,
    layout: InLayout,
    structure: Symbol,
    following: StmtV,
)
    requires
        decref_is_noop(g.layouts[layout as int]),
    ensures
        refcount_stmt_v(g, ctx, layout, ModifyRc::DecRef(structure), following) == (following, g),
{
}

/// A string holds nothing to descend into: its release without descending is
/// its decrement.
pub proof fn decref_of_string(
    g: GenV,
    ctx: Context,
    layout: InLayout,
    structure: Symbol,
    following: StmtV,
)
    requires
        layout < g.layouts.len(),
        g.layouts[layout as int] == LayoutV::Builtin(Builtin::Str),
    ensures
        refcount_stmt_v(g, ctx, layout, ModifyRc::DecRef(structure), following) == refcount_stmt_v(
            g,
            ctx,
            layout,
            ModifyRc::Dec(structure),
            following,
        ),
{
}

/// A release without descending of a value of a recursive union decrements
/// its header and goes on with what follows; the children are not visited.
pub proof fn decref_of_recursive_union(
    world: World,
    joins: Joins,
    env: Env,
    g: GenV,
    ctx: Context,
    layout: InLayout,
    u: UnionLayoutV,
    structure: Symbol,
    following: StmtV,
    p: int,
    trace: Seq<Event>,
    fuel: nat,
)
    requires
        layout < g.layouts.len(),
        g.layouts[layout as int] == LayoutV::Union(u),
        u.is_recursive(),
        ctx.op matches HelperOp::DecRef(jp) && known(g, jp.0),
        known(g, structure),
        numbers_fit(g.idents, 4),
        env.dom().contains(structure),
        env[structure] == Value::Word(p),
        fuel >= 2,
    ensures
        goes_on_with(
            run(
                world,
                joins,
                env,
                refcount_stmt_v(g, ctx, layout, ModifyRc::DecRef(structure), following).0,
                trace,
                fuel,
            ),
            world,
            joins,
            env,
            g,
            ctx.op->DecRef_0,
            following,
            trace.push(
                Event::Dec(
                    p,
                    allocation_alignment_spec(g.layouts, g.help.target, layout) as u32 as int,
                ),
            ),
            fuel,
        ),
{
    let home = g.help.home;
    let n = g.idents;
    let jp_decref = ctx.op->DecRef_0;
    let alignment = allocation_alignment_spec(g.layouts, g.help.target, layout) as u32;
    let w = refcount_stmt_v(g, ctx, layout, ModifyRc::DecRef(structure), following).0;
    let inner = inside_union(ctx, layout, u);
    assert(refcount_generic_v(g, ctx, layout, structure) == refcount_union_rec_v(
        g,
        inner,
        layout,
        u,
        structure,
    ));
    let s0 = remainder_of(w);
    let s1 = next_of(s0);
    let s2 = remainder_of(s1);
    let b0 = body_of(s1);
    let b1 = next_of(b0);
    let b2 = next_of(b1);
    let tag_id_sym = sym(home, n);
    let zig_call_result = sym(home, n + 1);
    let alignment_sym = sym(home, n + 2);
    let jp = JoinPointId(sym(home, n + 3));
    let tag = (world.tag_id)(layout, env[structure]);
    let joins0 = joins.insert(jp_decref, JoinV { parameters: Seq::empty(), body: following });
    let env1 = env.insert(tag_id_sym, Value::Word(tag));
    let joins1 = joins0.insert(jp, JoinV { parameters: Seq::empty(), body: b0 });
    let env2 = env1.insert(alignment_sym, Value::Word(alignment as int));
    let env3 = env2.insert(zig_call_result, unit());
    let trace1 = trace.push(Event::Dec(p, alignment as int));
    let f1 = (fuel - 1) as nat;
    let f2 = (fuel - 2) as nat;
    assert(run(world, joins, env, w, trace, fuel) == run(world, joins0, env, s0, trace, fuel));
    assert(run(world, joins0, env, s0, trace, fuel) == run(world, joins0, env1, s1, trace, fuel));
    assert(run(world, joins0, env1, s1, trace, fuel) == run(world, joins1, env1, s2, trace, fuel));
    lookup_none(env1);
    assert(run(world, joins1, env1, s2, trace, fuel) == run(world, joins1, env1, b0, trace, f1));
    assert(run(world, joins1, env1, b0, trace, f1) == run(world, joins1, env2, b1, trace, f1));
    lookup_two(env2, structure, alignment_sym);
    assert(run(world, joins1, env2, b1, trace, f1) == run(world, joins1, env3, b2, trace1, f1));
    lookup_none(env3);
    assert(run(world, joins1, env3, b2, trace1, f1) == run(
        world,
        joins1,
        env3,
        following,
        trace1,
        f2,
    ));
}

/// A release without descending of a box decrements its header and goes on
/// with what follows; the value in the box is not visited.
pub proof fn decref_of_box(
    world: World,
    joins: Joins,
    env: Env,
    g: GenV,
    ctx: Context,
    layout: InLayout,
    inner_layout: InLayout,
    structure: Symbol,
    following: StmtV,
    p: int,
    trace: Seq<Event>,
    fuel: nat,
)
    requires
        layout < g.layouts.len(),
        g.layouts[layout as int] == LayoutV::Boxed(inner_layout),
        ctx.op matches HelperOp::DecRef(jp) && known(g, jp.0),
        known(g, structure),
        numbers_fit(g.idents, 2),
        env.dom().contains(structure),
        env[structure] == Value::Word(p),
        fuel >= 1,
    ensures
        goes_on_with(
            run(
                world,
                joins,
                env,
                refcount_stmt_v(g, ctx, layout, ModifyRc::DecRef(structure), following).0,
                trace,
                fuel,
            ),
            world,
            joins,
            env,
            g,
            ctx.op->DecRef_0,
            following,
            trace.push(
                Event::Dec(
                    p,
                    allocation_alignment_spec(g.layouts, g.help.target, layout) as u32 as int,
                ),
            ),
            fuel,
        ),
{
    let home = g.help.home;
    let n = g.idents;
    let jp_decref = ctx.op->DecRef_0;
    let alignment = allocation_alignment_spec(g.layouts, g.help.target, layout) as u32;
    let w = refcount_stmt_v(g, ctx, layout, ModifyRc::DecRef(structure), following).0;
    assert(refcount_generic_v(g, ctx, layout, structure) == refcount_boxed_v(
        g,
        ctx,
        layout,
        inner_layout,
        structure,
    ));
    let s0 = remainder_of(w);
    let s1 = next_of(s0);
    let s2 = next_of(s1);
    let zig_call_result = sym(home, n);
    let alignment_sym = sym(home, n + 1);
    let joins0 = joins.insert(jp_decref, JoinV { parameters: Seq::empty(), body: following });
    let env1 = env.insert(alignment_sym, Value::Word(alignment as int));
    let env2 = env1.insert(zig_call_result, unit());
    let trace1 = trace.push(Event::Dec(p, alignment as int));
    let f1 = (fuel - 1) as nat;
    assert(run(world, joins, env, w, trace, fuel) == run(world, joins0, env, s0, trace, fuel));
    assert(run(world, joins0, env, s0, trace, fuel) == run(world, joins0, env1, s1, trace, fuel));
    lookup_two(env1, structure, alignment_sym);
    assert(run(world, joins0, env1, s1, trace, fuel) == run(
        world,
        joins0,
        env2,
        s2,
        trace1,
        fuel,
    ));
    lookup_none(env2);
    assert(run(world, joins0, env2, s2, trace1, fuel) == run(
        world,
        joins0,
        env2,
        following,
        trace1,
        f1,
    ));
}

/// The alignment with which the allocation of a list of `elem_layout` is
/// freed by code generated in the state `g`.
pub open spec fn list_alignment(g: GenV, elem_layout: InLayout) -> int {
    max_int(
        g.help.target.bytes() as int,
        alignment_spec(
            insert_v(g, LayoutV::Boxed(elem_layout)).1.layouts,
            g.help.target,
            elem_layout,
        ),
    ) as u32 as int
}

/// The parts of the body of the procedure for a list, by name.
pub struct ListParts {
    /// The switch on whether the list is empty.
    pub on_empty: StmtV,
    /// The switch on whether the list is a slice.
    pub on_slice: StmtV,
    /// The body of the join point that both ways of finding the elements
    /// jump to.
    pub owner: StmtV,
}

/// The parts of the body that `refcount_list_v` gives.
pub open spec fn list_parts(
    g: GenV,
    ctx: Context,
    elem_layout: InLayout,
    structure: Symbol,
) -> ListParts {
    let t3 = next_of(next_of(next_of(refcount_list_v(g, ctx, elem_layout, structure).0)));
    let e2 = next_of(next_of(default_of(t3)));
    ListParts { on_empty: t3, on_slice: remainder_of(e2), owner: body_of(e2) }
}

/// The record that a list is.
pub open spec fn list_value(pointer: int, length: int, capacity: int) -> Value {
    Value::Record(seq![Value::Word(pointer), Value::Word(length), Value::Word(capacity)])
}

/// The parameter of the join point for the elements of a list.
pub open spec fn elements_param(g: GenV) -> Param {
    Param {
        symbol: sym(g.help.home, g.idents + 6),
        ownership: Ownership::Owned,
        layout: crate::layout::LAYOUT_OPAQUE_PTR,
    }
}

/// The first statements of the procedure for a list find out whether the
/// list is empty.
pub proof fn list_runs_to_empty_test(
    world: World,
    joins: Joins,
    env: Env,
    g: GenV,
    ctx: Context,
    elem_layout: InLayout,
    structure: Symbol,
    pointer: int,
    length: int,
    capacity: int,
    trace: Seq<Event>,
    fuel: nat,
)
    requires
        numbers_fit(g.idents, 13),
        env.dom().contains(structure),
        env[structure] == list_value(pointer, length, capacity),
    ensures
        run(world, joins, env, refcount_list_v(g, ctx, elem_layout, structure).0, trace, fuel)
            == run(
            world,
            joins,
            env.insert(sym(g.help.home, g.idents), Value::Word(length)).insert(
                sym(g.help.home, g.idents + 1),
                Value::Word(0),
            ).insert(sym(g.help.home, g.idents + 2), crate::machine::truth(length == 0)),
            list_parts(g, ctx, elem_layout, structure).on_empty,
            trace,
            fuel,
        ),
{
    let home = g.help.home;
    let n = g.idents;
    let t0 = refcount_list_v(g, ctx, elem_layout, structure).0;
    let t1 = next_of(t0);
    let t2 = next_of(t1);
    let t3 = next_of(t2);
    let len = sym(home, n);
    let zero = sym(home, n + 1);
    let is_empty = sym(home, n + 2);
    let env1 = env.insert(len, Value::Word(length));
    let env2 = env1.insert(zero, Value::Word(0));
    let env3 = env2.insert(is_empty, crate::machine::truth(length == 0));
    lookup_one(env, structure);
    assert(run(world, joins, env, t0, trace, fuel) == run(world, joins, env1, t1, trace, fuel));
    assert(run(world, joins, env1, t1, trace, fuel) == run(world, joins, env2, t2, trace, fuel));
    lookup_two(env2, len, zero);
    assert(run(world, joins, env2, t2, trace, fuel) == run(world, joins, env3, t3, trace, fuel));
}

/// For a list that is not empty, the capacity is read and tested, and the
/// join point for the elements is declared.
pub proof fn list_runs_to_slice_test(
    world: World,
    joins: Joins,
    env: Env,
    g: GenV,
    ctx: Context,
    elem_layout: InLayout,
    structure: Symbol,
    pointer: int,
    length: int,
    capacity: int,
    trace: Seq<Event>,
    fuel: nat,
)
    requires
        numbers_fit(g.idents, 13),
        env.dom().contains(structure),
        env[structure] == list_value(pointer, length, capacity),
        env.dom().contains(sym(g.help.home, g.idents + 1)),
        env[sym(g.help.home, g.idents + 1)] == Value::Word(0),
        env.dom().contains(sym(g.help.home, g.idents + 2)),
        env[sym(g.help.home, g.idents + 2)] == Value::Word(0),
    ensures
        run(
            world,
            joins,
            env,
            list_parts(g, ctx, elem_layout, structure).on_empty,
            trace,
            fuel,
        ) == run(
            world,
            joins.insert(
                JoinPointId(sym(g.help.home, g.idents + 5)),
                JoinV {
                    parameters: seq![elements_param(g)],
                    body: list_parts(g, ctx, elem_layout, structure).owner,
                },
            ),
            env.insert(sym(g.help.home, g.idents + 3), Value::Word(capacity)).insert(
                sym(g.help.home, g.idents + 4),
                crate::machine::truth(capacity < 0),
            ),
            list_parts(g, ctx, elem_layout, structure).on_slice,
            trace,
            fuel,
        ),
{
    reveal_with_fuel(find_branch, 3);
    let home = g.help.home;
    let n = g.idents;
    let t3 = list_parts(g, ctx, elem_layout, structure).on_empty;
    let e0 = default_of(t3);
    let e1 = next_of(e0);
    let e2 = next_of(e1);
    let e3 = remainder_of(e2);
    let zero = sym(home, n + 1);
    let capacity_sym = sym(home, n + 3);
    let is_slice = sym(home, n + 4);
    let jp_elements = JoinPointId(sym(home, n + 5));
    let env4 = env.insert(capacity_sym, Value::Word(capacity));
    let env5 = env4.insert(is_slice, crate::machine::truth(capacity < 0));
    let joins1 = joins.insert(
        jp_elements,
        JoinV { parameters: seq![elements_param(g)], body: body_of(e2) },
    );
    assert(run(world, joins, env, t3, trace, fuel) == run(world, joins, env, e0, trace, fuel));
    assert(run(world, joins, env, e0, trace, fuel) == run(world, joins, env4, e1, trace, fuel));
    lookup_two(env4, capacity_sym, zero);
    assert(run(world, joins, env4, e1, trace, fuel) == run(world, joins, env5, e2, trace, fuel));
    assert(run(world, joins, env5, e2, trace, fuel) == run(world, joins1, env5, e3, trace, fuel));
}

/// The environment in which the join point for the elements is entered.
pub open spec fn env_at_elements(
    world: World,
    env: Env,
    g: GenV,
    pointer: int,
    capacity: int,
) -> Env {
    let home = g.help.home;
    let n = g.idents;
    if capacity < 0 {
        let shifted = Value::Word(wrap(world.target, capacity * vstd::arithmetic::power2::pow2(1)));
        env.insert(sym(home, n + 7), Value::Word(1)).insert(sym(home, n + 8), shifted).insert(
            sym(home, n + 6),
            shifted,
        )
    } else {
        env.insert(sym(home, n + 9), Value::Word(pointer)).insert(
            sym(home, n + 6),
            Value::Word(pointer),
        )
    }
}

/// Both ways of finding the elements end in the join point for them.
pub proof fn list_runs_to_owner(
    world: World,
    joins: Joins,
    env: Env,
    g: GenV,
    ctx: Context,
    elem_layout: InLayout,
    structure: Symbol,
    pointer: int,
    length: int,
    capacity: int,
    trace: Seq<Event>,
    fuel: nat,
)
    requires
        numbers_fit(g.idents, 13),
        fuel >= 1,
        env.dom().contains(structure),
        env[structure] == list_value(pointer, length, capacity),
        env.dom().contains(sym(g.help.home, g.idents + 3)),
        env[sym(g.help.home, g.idents + 3)] == Value::Word(capacity),
        env.dom().contains(sym(g.help.home, g.idents + 4)),
        env[sym(g.help.home, g.idents + 4)] == crate::machine::truth(capacity < 0),
        joins.dom().contains(JoinPointId(sym(g.help.home, g.idents + 5))),
        joins[JoinPointId(sym(g.help.home, g.idents + 5))] == (JoinV {
            parameters: seq![elements_param(g)],
            body: list_parts(g, ctx, elem_layout, structure).owner,
        }),
    ensures
        run(
            world,
            joins,
            env,
            list_parts(g, ctx, elem_layout, structure).on_slice,
            trace,
            fuel,
        ) == run(
            world,
            joins,
            env_at_elements(world, env, g, pointer, capacity),
            list_parts(g, ctx, elem_layout, structure).owner,
            trace,
            (fuel - 1) as nat,
        ),
{
    reveal_with_fuel(find_branch, 3);
    reveal_with_fuel(bind_params, 3);
    let home = g.help.home;
    let n = g.idents;
    let e3 = list_parts(g, ctx, elem_layout, structure).on_slice;
    let m0 = list_parts(g, ctx, elem_layout, structure).owner;
    let capacity_sym = sym(home, n + 3);
    let elements = sym(home, n + 6);
    let one = sym(home, n + 7);
    let slice_elems = sym(home, n + 8);
    let list_elems = sym(home, n + 9);
    let param = elements_param(g);
    let f1 = (fuel - 1) as nat;
    if capacity < 0 {
        let c0 = branch_of(e3, 0);
        let c1 = next_of(c0);
        let c2 = next_of(c1);
        let shifted = Value::Word(wrap(world.target, capacity * vstd::arithmetic::power2::pow2(1)));
        let env6 = env.insert(one, Value::Word(1));
        let env7 = env6.insert(slice_elems, shifted);
        let env8 = env7.insert(elements, shifted);
        assert(run(world, joins, env, e3, trace, fuel) == run(world, joins, env, c0, trace, fuel));
        assert(run(world, joins, env, c0, trace, fuel) == run(world, joins, env6, c1, trace, fuel));
        lookup_two(env6, capacity_sym, one);
        assert(run(world, joins, env6, c1, trace, fuel) == run(
            world,
            joins,
            env7,
            c2,
            trace,
            fuel,
        ));
        lookup_one(env7, slice_elems);
        assert(bind_params(env7, seq![param], seq![shifted], 1) == env8);
        assert(run(world, joins, env7, c2, trace, fuel) == run(world, joins, env8, m0, trace, f1));
    } else {
        let d0 = default_of(e3);
        let d1 = next_of(d0);
        let env6 = env.insert(list_elems, Value::Word(pointer));
        let env8 = env6.insert(elements, Value::Word(pointer));
        assert(run(world, joins, env, e3, trace, fuel) == run(world, joins, env, d0, trace, fuel));
        assert(run(world, joins, env, d0, trace, fuel) == run(world, joins, env6, d1, trace, fuel));
        lookup_one(env6, list_elems);
        assert(bind_params(env6, seq![param], seq![Value::Word(pointer)], 1) == env8);
        assert(run(world, joins, env6, d1, trace, fuel) == run(world, joins, env8, m0, trace, f1));
    }
}

/// Where the elements are not visited, the join point for them changes the
/// header before the pointer in the first field and leaves.
pub proof fn list_owner_releases_header(
    world: World,
    joins: Joins,
    env: Env,
    g: GenV,
    ctx: Context,
    elem_layout: InLayout,
    structure: Symbol,
    following: StmtV,
    pointer: int,
    length: int,
    capacity: int,
    trace: Seq<Event>,
    fuel: nat,
)
    requires
        ctx.op is DecRef,
        numbers_fit(g.idents, 13),
        fuel >= 1,
        env.dom().contains(structure),
        env[structure] == list_value(pointer, length, capacity),
        joins.dom().contains(ctx.op->DecRef_0),
        joins[ctx.op->DecRef_0] == (JoinV { parameters: Seq::empty(), body: following }),
    ensures
        run(
            world,
            joins,
            env,
            list_parts(g, ctx, elem_layout, structure).owner,
            trace,
            fuel,
        ) == run(
            world,
            joins,
            env.insert(sym(g.help.home, g.idents + 10), Value::Word(pointer)).insert(
                sym(g.help.home, g.idents + 12),
                Value::Word(list_alignment(g, elem_layout)),
            ).insert(sym(g.help.home, g.idents + 11), unit()),
            following,
            trace.push(Event::Dec(pointer, list_alignment(g, elem_layout))),
            (fuel - 1) as nat,
        ),
{
    let home = g.help.home;
    let n = g.idents;
    let alignment = list_alignment(g, elem_layout);
    let m0 = list_parts(g, ctx, elem_layout, structure).owner;
    let m1 = next_of(m0);
    let m2 = next_of(m1);
    let m3 = next_of(m2);
    let list_ptr = sym(home, n + 10);
    let zig_call_result = sym(home, n + 11);
    let alignment_sym = sym(home, n + 12);
    let env9 = env.insert(list_ptr, Value::Word(pointer));
    let env10 = env9.insert(alignment_sym, Value::Word(alignment));
    let env11 = env10.insert(zig_call_result, unit());
    let trace1 = trace.push(Event::Dec(pointer, alignment));
    let f1 = (fuel - 1) as nat;
    assert(run(world, joins, env, m0, trace, fuel) == run(world, joins, env9, m1, trace, fuel));
    assert(run(world, joins, env9, m1, trace, fuel) == run(world, joins, env10, m2, trace, fuel));
    lookup_two(env10, list_ptr, alignment_sym);
    assert(run(world, joins, env10, m2, trace, fuel) == run(
        world,
        joins,
        env11,
        m3,
        trace1,
        fuel,
    ));
    lookup_none(env11);
    assert(run(world, joins, env11, m3, trace1, fuel) == run(
        world,
        joins,
        env11,
        following,
        trace1,
        f1,
    ));
}

/// A release without descending of a list decrements the header before the
/// pointer in its first field, or does nothing where the list is empty, and
/// goes on with what follows; the elements are not visited.
pub proof fn decref_of_list(
    world: World,
    joins: Joins,
    env: Env,
    g: GenV,
    ctx: Context,
    layout: InLayout,
    elem_layout: InLayout,
    structure: Symbol,
    following: StmtV,
    pointer: int,
    length: int,
    capacity: int,
    trace: Seq<Event>,
    fuel: nat,
)
    requires
        layout < g.layouts.len(),
        g.layouts[layout as int] == LayoutV::Builtin(Builtin::List(elem_layout)),
        ctx.op matches HelperOp::DecRef(jp) && known(g, jp.0),
        known(g, structure),
        numbers_fit(g.idents, 13),
        env.dom().contains(structure),
        env[structure] == list_value(pointer, length, capacity),
        fuel >= 2,
    ensures
        goes_on_with(
            run(
                world,
                joins,
                env,
                refcount_stmt_v(g, ctx, layout, ModifyRc::DecRef(structure), following).0,
                trace,
                fuel,
            ),
            world,
            joins,
            env,
            g,
            ctx.op->DecRef_0,
            following,
            if length == 0 {
                trace
            } else {
                trace.push(Event::Dec(pointer, list_alignment(g, elem_layout)))
            },
            fuel,
        ),
{
    reveal_with_fuel(find_branch, 3);
    let home = g.help.home;
    let n = g.idents;
    let jp_decref = ctx.op->DecRef_0;
    let w = refcount_stmt_v(g, ctx, layout, ModifyRc::DecRef(structure), following).0;
    assert(refcount_generic_v(g, ctx, layout, structure) == refcount_list_v(
        g,
        ctx,
        elem_layout,
        structure,
    ));
    let t0 = remainder_of(w);
    let parts = list_parts(g, ctx, elem_layout, structure);
    let joins0 = joins.insert(jp_decref, JoinV { parameters: Seq::empty(), body: following });
    let env3 = env.insert(sym(home, n), Value::Word(length)).insert(
        sym(home, n + 1),
        Value::Word(0),
    ).insert(sym(home, n + 2), crate::machine::truth(length == 0));
    let f1 = (fuel - 1) as nat;
    let f2 = (fuel - 2) as nat;
    assert(run(world, joins, env, w, trace, fuel) == run(world, joins0, env, t0, trace, fuel));
    list_runs_to_empty_test(
        world,
        joins0,
        env,
        g,
        ctx,
        elem_layout,
        structure,
        pointer,
        length,
        capacity,
        trace,
        fuel,
    );
    if length == 0 {
        let t4 = branch_of(parts.on_empty, 0);
        assert(run(world, joins0, env3, parts.on_empty, trace, fuel) == run(
            world,
            joins0,
            env3,
            t4,
            trace,
            fuel,
        ));
        lookup_none(env3);
        assert(run(world, joins0, env3, t4, trace, fuel) == run(
            world,
            joins0,
            env3,
            following,
            trace,
            f1,
        ));
    } else {
        list_runs_to_slice_test(
            world,
            joins0,
            env3,
            g,
            ctx,
            elem_layout,
            structure,
            pointer,
            length,
            capacity,
            trace,
            fuel,
        );
        let joins1 = joins0.insert(
            JoinPointId(sym(home, n + 5)),
            JoinV { parameters: seq![elements_param(g)], body: parts.owner },
        );
        let env5 = env3.insert(sym(home, n + 3), Value::Word(capacity)).insert(
            sym(home, n + 4),
            crate::machine::truth(capacity < 0),
        );
        list_runs_to_owner(
            world,
            joins1,
            env5,
            g,
            ctx,
            elem_layout,
            structure,
            pointer,
            length,
            capacity,
            trace,
            fuel,
        );
        let env8 = env_at_elements(world, env5, g, pointer, capacity);
        list_owner_releases_header(
            world,
            joins1,
            env8,
            g,
            ctx,
            elem_layout,
            structure,
            following,
            pointer,
            length,
            capacity,
            trace,
            f1,
        );
        let env11 = env8.insert(sym(home, n + 10), Value::Word(pointer)).insert(
            sym(home, n + 12),
            Value::Word(list_alignment(g, elem_layout)),
        ).insert(sym(home, n + 11), unit());
        let trace1 = trace.push(Event::Dec(pointer, list_alignment(g, elem_layout)));
        assert(run(world, joins, env, w, trace, fuel) == run(
            world,
            joins1,
            env11,
            following,
            trace1,
            f2,
        ));
    }
}

/// An increment of a value of a recursive union adds the amount to its
/// header and does nothing else.
pub proof fn increment_of_recursive_union(
    world: World,
    joins: Joins,
    env: Env,
    g: GenV,
    ctx: Context,
    union_in_layout: InLayout,
    u: UnionLayoutV,
    structure: Symbol,
    p: int,
    amount: int,
    trace: Seq<Event>,
    fuel: nat,
)
    requires
        ctx.op is Inc,
        u.is_recursive(),
        known(g, structure),
        known(g, Symbol::arg_2()),
        numbers_fit(g.idents, 4),
        env.dom().contains(structure),
        env[structure] == Value::Word(p),
        env.dom().contains(Symbol::arg_2()),
        env[Symbol::arg_2()] == Value::Word(amount),
        fuel >= 1,
    ensures
        run(
            world,
            joins,
            env,
            refcount_union_v(g, ctx, union_in_layout, u, structure).0,
            trace,
            fuel,
        ) == Outcome::Return(unit(), trace.push(Event::Inc(p, amount))),
{
    let home = g.help.home;
    let n = g.idents;
    let inner = inside_union(ctx, union_in_layout, u);
    assert(refcount_union_v(g, ctx, union_in_layout, u, structure) == refcount_union_rec_v(
        g,
        inner,
        union_in_layout,
        u,
        structure,
    ));
    let s0 = refcount_union_rec_v(g, inner, union_in_layout, u, structure).0;
    let s1 = next_of(s0);
    let s2 = remainder_of(s1);
    let b0 = body_of(s1);
    let b1 = next_of(b0);
    let tag_id_sym = sym(home, n);
    let zig_call_result = sym(home, n + 2);
    let jp = JoinPointId(sym(home, n + 3));
    let tag = (world.tag_id)(union_in_layout, env[structure]);
    let env1 = env.insert(tag_id_sym, Value::Word(tag));
    let joins1 = joins.insert(jp, JoinV { parameters: Seq::empty(), body: b0 });
    let env2 = env1.insert(zig_call_result, unit());
    let trace1 = trace.push(Event::Inc(p, amount));
    let f1 = (fuel - 1) as nat;
    assert(run(world, joins, env, s0, trace, fuel) == run(world, joins, env1, s1, trace, fuel));
    assert(run(world, joins, env1, s1, trace, fuel) == run(world, joins1, env1, s2, trace, fuel));
    lookup_none(env1);
    assert(run(world, joins1, env1, s2, trace, fuel) == run(world, joins1, env1, b0, trace, f1));
    lookup_two(env1, structure, Symbol::arg_2());
    assert(run(world, joins1, env1, b0, trace, f1) == run(world, joins1, env2, b1, trace1, f1));
    every_return_adds_nothing(world, joins1, env2, home, inner, trace1, f1);
}

/// An increment of a box adds the amount to its header and does nothing
/// else.
pub proof fn increment_of_box(
    world: World,
    joins: Joins,
    env: Env,
    g: GenV,
    ctx: Context,
    layout: InLayout,
    inner_layout: InLayout,
    outer: Symbol,
    p: int,
    amount: int,
    trace: Seq<Event>,
    fuel: nat,
)
    requires
        ctx.op is Inc,
        env.dom().contains(outer),
        env[outer] == Value::Word(p),
        env.dom().contains(Symbol::arg_2()),
        env[Symbol::arg_2()] == Value::Word(amount),
    ensures
        run(
            world,
            joins,
            env,
            refcount_boxed_v(g, ctx, layout, inner_layout, outer).0,
            trace,
            fuel,
        ) == Outcome::Return(unit(), trace.push(Event::Inc(p, amount))),
{
    let home = g.help.home;
    let s0 = refcount_boxed_v(g, ctx, layout, inner_layout, outer).0;
    let s1 = next_of(s0);
    let env1 = env.insert(sym(home, g.idents + 1), unit());
    let trace1 = trace.push(Event::Inc(p, amount));
    lookup_two(env, outer, Symbol::arg_2());
    assert(run(world, joins, env, s0, trace, fuel) == run(world, joins, env1, s1, trace1, fuel));
    every_return_adds_nothing(world, joins, env1, home, ctx, trace1, fuel);
}

/// An increment of a big string adds the amount to the header of its bytes
/// and does nothing else.
pub proof fn increment_of_big_string(
    world: World,
    joins: Joins,
    env: Env,
    home: u32,
    target: PtrWidth,
    n: nat,
    ctx: Context,
    pointer: int,
    length: int,
    last: int,
    amount: int,
    trace: Seq<Event>,
    fuel: nat,
)
    requires
        ctx.op is Inc,
        numbers_fit(n, 8),
        home != crate::symbol::BUILTIN_MODULE,
        last >= 0,
        env.dom().contains(Symbol::arg_1()),
        env[Symbol::arg_1()] == list_value(pointer, length, last),
        env.dom().contains(Symbol::arg_2()),
        env[Symbol::arg_2()] == Value::Word(amount),
    ensures
        run(world, joins, env, refcount_str_v(home, target, n, ctx).0, trace, fuel)
            == Outcome::Return(unit(), trace.push(Event::Inc(pointer, amount))),
{
    reveal_with_fuel(find_branch, 3);
    let s0 = refcount_str_v(home, target, n, ctx).0;
    let s1 = next_of(s0);
    let s2 = next_of(s1);
    let s3 = next_of(s2);
    let t0 = branch_of(s3, 0);
    let t1 = next_of(t0);
    let t2 = next_of(t1);
    let last_word = sym(home, n);
    let zero = sym(home, n + 1);
    let is_big_str = sym(home, n + 2);
    let elements = sym(home, n + 3);
    let zig_call_result = sym(home, n + 5);
    let env1 = env.insert(last_word, Value::Word(last));
    let env2 = env1.insert(zero, Value::Word(0));
    let env3 = env2.insert(is_big_str, Value::Word(1));
    let env4 = env3.insert(elements, Value::Word(pointer));
    let env5 = env4.insert(zig_call_result, unit());
    let trace1 = trace.push(Event::Inc(pointer, amount));
    assert(run(world, joins, env, s0, trace, fuel) == run(world, joins, env1, s1, trace, fuel));
    assert(run(world, joins, env1, s1, trace, fuel) == run(world, joins, env2, s2, trace, fuel));
    lookup_two(env2, last_word, zero);
    assert(run(world, joins, env2, s2, trace, fuel) == run(world, joins, env3, s3, trace, fuel));
    assert(run(world, joins, env3, s3, trace, fuel) == run(world, joins, env3, t0, trace, fuel));
    assert(run(world, joins, env3, t0, trace, fuel) == run(world, joins, env4, t1, trace, fuel));
    lookup_two(env4, elements, Symbol::arg_2());
    assert(run(world, joins, env4, t1, trace, fuel) == run(world, joins, env5, t2, trace1, fuel));
    every_return_adds_nothing(world, joins, env5, home, ctx, trace1, fuel);
}

/// A decrement of a shared box tests and decrements its header, and does
/// nothing else: what the box holds is left alone.
pub proof fn shared_box_touches_only_header(
    world: World,
    joins: Joins,
    env: Env,
    g: GenV,
    ctx: Context,
    layout: InLayout,
    inner_layout: InLayout,
    outer: Symbol,
    p: int,
    trace: Seq<Event>,
    fuel: nat,
)
    requires
        ctx.op is Dec,
        crate::layout::is_refcounted_spec(g.layouts, inner_layout),
        known(g, outer),
        numbers_fit(refcount_boxed_v(g, ctx, layout, inner_layout, outer).1.idents, 0),
        env.dom().contains(outer),
        env[outer] == Value::Word(p),
        !(world.unique)(p),
        fuel >= 1,
    ensures
        run(
            world,
            joins,
            env,
            refcount_boxed_v(g, ctx, layout, inner_layout, outer).0,
            trace,
            fuel,
        ) == Outcome::Return(
            unit(),
            trace.push(Event::IsUnique(p)).push(
                Event::Dec(
                    p,
                    allocation_alignment_spec(g.layouts, g.help.target, layout) as u32 as int,
                ),
            ),
        ),
{
    reveal_with_fuel(find_branch, 3);
    let home = g.help.home;
    let n = g.idents;
    let alignment = allocation_alignment_spec(g.layouts, g.help.target, layout) as u32;
    let s0 = refcount_boxed_v(g, ctx, layout, inner_layout, outer).0;
    let s1 = next_of(s0);
    let s2 = remainder_of(s1);
    let s3 = default_of(s2);
    let b0 = body_of(s1);
    let b1 = next_of(b0);
    let b2 = next_of(b1);
    let zig_call_result = sym(home, n + 1);
    let alignment_sym = sym(home, n + 2);
    let g3 = crate::helper::call_specialized_op_v(
        skip(with_idents(g, n + 3), 2),
        ctx,
        inner_layout,
        crate::gen_basic::refcount_args_v(ctx, sym(home, n + 3)),
    ).1;
    let jp = JoinPointId(sym(home, g3.idents));
    let is_unique = sym(home, g3.idents + 1);
    let env1 = env.insert(is_unique, Value::Word(0));
    let trace1 = trace.push(Event::IsUnique(p));
    let joins1 = joins.insert(jp, JoinV { parameters: Seq::empty(), body: b0 });
    let env2 = env1.insert(alignment_sym, Value::Word(alignment as int));
    let env3 = env2.insert(zig_call_result, unit());
    let trace2 = trace1.push(Event::Dec(p, alignment as int));
    let f1 = (fuel - 1) as nat;
    lookup_one(env, outer);
    assert(run(world, joins, env, s0, trace, fuel) == run(world, joins, env1, s1, trace1, fuel));
    assert(run(world, joins, env1, s1, trace1, fuel) == run(
        world,
        joins1,
        env1,
        s2,
        trace1,
        fuel,
    ));
    assert(run(world, joins1, env1, s2, trace1, fuel) == run(
        world,
        joins1,
        env1,
        s3,
        trace1,
        fuel,
    ));
    lookup_none(env1);
    assert(run(world, joins1, env1, s3, trace1, fuel) == run(world, joins1, env1, b0, trace1, f1));
    assert(run(world, joins1, env1, b0, trace1, f1) == run(world, joins1, env2, b1, trace1, f1));
    lookup_two(env2, outer, alignment_sym);
    assert(run(world, joins1, env2, b1, trace1, f1) == run(world, joins1, env3, b2, trace2, f1));
    every_return_adds_nothing(world, joins1, env3, home, ctx, trace2, f1);
}

/// The header value of an allocation with one reference.
pub open spec fn sentinel(target: PtrWidth) -> int {
    refcount_1_encoded(target) as int
}

/// The header of the allocation at `p` after the events, where it was
/// `header` before them: an increment adds its amount, a decrement takes one
/// away, and the decrement of the only reference frees the allocation, after
/// which there is no header.
pub open spec fn header_after(events: Seq<Event>, p: int, header: Option<int>, unique: int) -> Option<
    int,
>
    decreases events.len(),
{
    if events.len() == 0 {
        header
    } else {
        let before = header_after(events.drop_last(), p, header, unique);
        match before {
            Some(h) => match events.last() {
                Event::Inc(q, amount) => if q == p {
                    Some(h + amount)
                } else {
                    before
                },
                Event::Dec(q, _) => if q == p {
                    if h == unique {
                        None
                    } else {
                        Some(h - 1)
                    }
                } else {
                    before
                },
                _ => before,
            },
            None => None,
        }
    }
}

/// The event is a test or a change of the header of `p`.
pub open spec fn touches_header_of(event: Event, p: int) -> bool {
    match event {
        Event::IsUnique(q) => q == p,
        Event::Inc(q, _) => q == p,
        Event::Dec(q, _) => q == p,
        _ => false,
    }
}

/// The world in which the header of `p` is `header`.
pub open spec fn with_header(world: World, p: int, header: Option<int>, unique: int) -> World {
    World {
        unique: |q: int|
            if q == p {
                header == Some(unique)
            } else {
                (world.unique)(q)
            },
        ..world
    }
}

/// The events of a run, however it ended.
pub open spec fn events_of(outcome: Outcome) -> Seq<Event> {
    match outcome {
        Outcome::Return(_, events) => events,
        Outcome::Stuck(events) => events,
        Outcome::OutOfFuel(events) => events,
    }
}

/// The events after `k` runs of `body` one after the other, each in the
/// world in which the header of `p` is what the events before left it.
pub open spec fn after_runs(
    world: World,
    joins: Joins,
    env: Env,
    body: StmtV,
    p: int,
    header: Option<int>,
    trace: Seq<Event>,
    k: nat,
    fuel: nat,
) -> Seq<Event>
    decreases k,
{
    if k == 0 {
        trace
    } else {
        let before = after_runs(world, joins, env, body, p, header, trace, (k - 1) as nat, fuel);
        let unique = sentinel(world.target);
        events_of(
            run(
                with_header(world, p, header_after(before, p, header, unique), unique),
                joins,
                env,
                body,
                before,
                fuel,
            ),
        )
    }
}

/// A body takes one reference of a shared value and touches nothing but
/// its header: in every world where `p` is not unique it tests the header
/// and decrements it.
pub open spec fn decrements_shared(
    joins: Joins,
    env: Env,
    body: StmtV,
    p: int,
    alignment: int,
    fuel: nat,
) -> bool {
    forall|world: World, trace: Seq<Event>|
        !(world.unique)(p) ==> #[trigger] run(world, joins, env, body, trace, fuel)
            == Outcome::Return(
            unit(),
            trace.push(Event::IsUnique(p)).push(Event::Dec(p, alignment)),
        )
}

/// Taking references back, one at a time, from a value that has more than
/// that many: after `k` decrements of a value whose header stands `k` or
/// more above the unique sentinel, the header stands `k` lower, and every
/// event was a test or a change of that header.
pub proof fn decrements_count_down(
    world: World,
    joins: Joins,
    env: Env,
    body: StmtV,
    p: int,
    alignment: int,
    header: int,
    trace: Seq<Event>,
    k: nat,
    fuel: nat,
)
    requires
        decrements_shared(joins, env, body, p, alignment, fuel),
        header_after(trace, p, Some(header), sentinel(world.target)) matches Some(h) && h
            >= sentinel(world.target) + k,
        forall|i: int| 0 <= i < trace.len() ==> touches_header_of(#[trigger] trace[i], p),
    ensures
        ({
            let events = after_runs(world, joins, env, body, p, Some(header), trace, k, fuel);
            &&& header_after(events, p, Some(header), sentinel(world.target)) == Some(
                header_after(trace, p, Some(header), sentinel(world.target)).unwrap() - k,
            )
            &&& forall|i: int| 0 <= i < events.len() ==> touches_header_of(#[trigger] events[i], p)
        }),
    decreases k,
{
    if k > 0 {
        let unique = sentinel(world.target);
        decrements_count_down(
            world,
            joins,
            env,
            body,
            p,
            alignment,
            header,
            trace,
            (k - 1) as nat,
            fuel,
        );
        let before = after_runs(world, joins, env, body, p, Some(header), trace, (k - 1) as nat, fuel);
        let h = header_after(before, p, Some(header), unique);
        let w = with_header(world, p, h, unique);
        assert(!(w.unique)(p));
        let step1 = before.push(Event::IsUnique(p));
        let step2 = step1.push(Event::Dec(p, alignment));
        assert(run(w, joins, env, body, before, fuel) == Outcome::Return(unit(), step2));
        assert(step1.drop_last() =~= before);
        assert(step2.drop_last() =~= step1);
        assert(header_after(step1, p, Some(header), unique) == h);
        assert(header_after(step2, p, Some(header), unique) == Some(h.unwrap() - 1));
    }
}

/// References that are given and taken back leave a shared value as it
/// was. A value of a recursive union with at least one reference that is
/// incremented by `amount` and then decremented `amount` times has its
/// header back at the value it had, and nothing but that header was tested
/// or changed: no field was read and no child was touched.
pub proof fn balanced_changes_of_union_cancel(
    world: World,
    joins: Joins,
    env: Env,
    g_inc: GenV,
    g_dec: GenV,
    union_in_layout: InLayout,
    u: UnionLayoutV,
    structure: Symbol,
    p: int,
    amount: nat,
    header: int,
    fuel: nat,
)
    requires
        u.is_recursive(),
        known(g_inc, structure),
        known(g_inc, Symbol::arg_2()),
        known(g_dec, structure),
        numbers_fit(g_inc.idents, 4),
        numbers_fit(
            refcount_union_v(g_dec, dec_ctx(), union_in_layout, u, structure).1.idents,
            0,
        ),
        env.dom().contains(structure),
        env[structure] == Value::Word(p),
        env.dom().contains(Symbol::arg_2()),
        env[Symbol::arg_2()] == Value::Word(amount as int),
        header >= sentinel(world.target),
        fuel >= 2,
    ensures
        ({
            let unique = sentinel(world.target);
            let inc = refcount_union_v(g_inc, inc_ctx(), union_in_layout, u, structure).0;
            let dec = refcount_union_v(g_dec, dec_ctx(), union_in_layout, u, structure).0;
            let given = events_of(
                run(with_header(world, p, Some(header), unique), joins, env, inc, Seq::empty(), fuel),
            );
            let events = after_runs(world, joins, env, dec, p, Some(header), given, amount, fuel);
            &&& header_after(events, p, Some(header), unique) == Some(header)
            &&& forall|i: int| 0 <= i < events.len() ==> touches_header_of(#[trigger] events[i], p)
        }),
{
    let unique = sentinel(world.target);
    let inc = refcount_union_v(g_inc, inc_ctx(), union_in_layout, u, structure).0;
    let dec = refcount_union_v(g_dec, dec_ctx(), union_in_layout, u, structure).0;
    let alignment = allocation_alignment_spec(g_dec.layouts, g_dec.help.target, union_in_layout) as u32 as int;
    let w0 = with_header(world, p, Some(header), unique);
    increment_of_recursive_union(
        w0,
        joins,
        env,
        g_inc,
        inc_ctx(),
        union_in_layout,
        u,
        structure,
        p,
        amount as int,
        Seq::empty(),
        fuel,
    );
    let given = Seq::<Event>::empty().push(Event::Inc(p, amount as int));
    assert(given.drop_last() =~= Seq::<Event>::empty());
    assert(header_after(Seq::<Event>::empty(), p, Some(header), unique) == Some(header));
    assert(header_after(given, p, Some(header), unique) == Some(header + amount));
    assert(decrements_shared(joins, env, dec, p, alignment, fuel)) by {
        assert forall|w: World, trace: Seq<Event>| !(w.unique)(p) implies #[trigger] run(
            w,
            joins,
            env,
            dec,
            trace,
            fuel,
        ) == Outcome::Return(
            unit(),
            trace.push(Event::IsUnique(p)).push(Event::Dec(p, alignment)),
        ) by {
            shared_value_touches_only_header(
                w,
                joins,
                env,
                g_dec,
                dec_ctx(),
                union_in_layout,
                u,
                structure,
                p,
                trace,
                fuel,
            );
        }
    }
    decrements_count_down(world, joins, env, dec, p, alignment, header, given, amount, fuel);
}

/// The context of a procedure that increments, outside every union.
pub open spec fn inc_ctx() -> Context {
    Context { op: HelperOp::Inc, recursive_union: None }
}

/// The context of a procedure that decrements, outside every union.
pub open spec fn dec_ctx() -> Context {
    Context { op: HelperOp::Dec, recursive_union: None }
}

/// References that are given and taken back leave a shared box as it was,
/// and leave what it holds alone: as `balanced_changes_of_union_cancel`, for
/// a box that holds a refcounted value.
pub proof fn balanced_changes_of_box_cancel(
    world: World,
    joins: Joins,
    env: Env,
    g_inc: GenV,
    g_dec: GenV,
    layout: InLayout,
    inner_layout: InLayout,
    outer: Symbol,
    p: int,
    amount: nat,
    header: int,
    fuel: nat,
)
    requires
        crate::layout::is_refcounted_spec(g_dec.layouts, inner_layout),
        known(g_dec, outer),
        numbers_fit(refcount_boxed_v(g_dec, dec_ctx(), layout, inner_layout, outer).1.idents, 0),
        env.dom().contains(outer),
        env[outer] == Value::Word(p),
        env.dom().contains(Symbol::arg_2()),
        env[Symbol::arg_2()] == Value::Word(amount as int),
        header >= sentinel(world.target),
        fuel >= 1,
    ensures
        ({
            let unique = sentinel(world.target);
            let inc = refcount_boxed_v(g_inc, inc_ctx(), layout, inner_layout, outer).0;
            let dec = refcount_boxed_v(g_dec, dec_ctx(), layout, inner_layout, outer).0;
            let given = events_of(
                run(with_header(world, p, Some(header), unique), joins, env, inc, Seq::empty(), fuel),
            );
            let events = after_runs(world, joins, env, dec, p, Some(header), given, amount, fuel);
            &&& header_after(events, p, Some(header), unique) == Some(header)
            &&& forall|i: int| 0 <= i < events.len() ==> touches_header_of(#[trigger] events[i], p)
        }),
{
    let unique = sentinel(world.target);
    let dec = refcount_boxed_v(g_dec, dec_ctx(), layout, inner_layout, outer).0;
    let alignment = allocation_alignment_spec(g_dec.layouts, g_dec.help.target, layout) as u32 as int;
    let w0 = with_header(world, p, Some(header), unique);
    increment_of_box(
        w0,
        joins,
        env,
        g_inc,
        inc_ctx(),
        layout,
        inner_layout,
        outer,
        p,
        amount as int,
        Seq::empty(),
        fuel,
    );
    let given = Seq::<Event>::empty().push(Event::Inc(p, amount as int));
    assert(given.drop_last() =~= Seq::<Event>::empty());
    assert(header_after(Seq::<Event>::empty(), p, Some(header), unique) == Some(header));
    assert(header_after(given, p, Some(header), unique) == Some(header + amount));
    assert(decrements_shared(joins, env, dec, p, alignment, fuel)) by {
        assert forall|w: World, trace: Seq<Event>| !(w.unique)(p) implies #[trigger] run(
            w,
            joins,
            env,
            dec,
            trace,
            fuel,
        ) == Outcome::Return(
            unit(),
            trace.push(Event::IsUnique(p)).push(Event::Dec(p, alignment)),
        ) by {
            shared_box_touches_only_header(
                w,
                joins,
                env,
                g_dec,
                dec_ctx(),
                layout,
                inner_layout,
                outer,
                p,
                trace,
                fuel,
            );
        }
    }
    decrements_count_down(world, joins, env, dec, p, alignment, header, given, amount, fuel);
}

/// The procedure that code generated in the state `g` under `ctx` calls for
/// a value of layout `called`.
pub open spec fn callee_of(g: GenV, ctx: Context, called: InLayout) -> Symbol {
    crate::helper::find_or_create_proc_v(g, ctx, crate::helper::resolve_rec_ptr(g, ctx, called)).0
}

/// The decrement of the only reference to a box releases what the box holds
/// before the box: the header is tested, the value is read and handed to
/// the procedure of its layout, and only then is the header of the box
/// released.
pub proof fn unique_box_releases_content_first(
    world: World,
    joins: Joins,
    env: Env,
    g: GenV,
    ctx: Context,
    layout: InLayout,
    inner_layout: InLayout,
    outer: Symbol,
    p: int,
    trace: Seq<Event>,
    fuel: nat,
)
    requires
        ctx.op is Dec,
        crate::layout::is_refcounted_spec(g.layouts, inner_layout),
        known(g, outer),
        numbers_fit(refcount_boxed_v(g, ctx, layout, inner_layout, outer).1.idents, 0),
        env.dom().contains(outer),
        env[outer] == Value::Word(p),
        (world.unique)(p),
        fuel >= 1,
    ensures
        run(
            world,
            joins,
            env,
            refcount_boxed_v(g, ctx, layout, inner_layout, outer).0,
            trace,
            fuel,
        ) == Outcome::Return(
            unit(),
            trace.push(Event::IsUnique(p)).push(Event::Load(p)).push(
                Event::Call(
                    callee_of(skip(g, 5), ctx, inner_layout),
                    seq![(world.memory)(p)],
                ),
            ).push(
                Event::Dec(
                    p,
                    allocation_alignment_spec(g.layouts, g.help.target, layout) as u32 as int,
                ),
            ),
        ),
{
    reveal_with_fuel(find_branch, 3);
    let home = g.help.home;
    let n = g.idents;
    let alignment = allocation_alignment_spec(g.layouts, g.help.target, layout) as u32;
    let s0 = refcount_boxed_v(g, ctx, layout, inner_layout, outer).0;
    let s1 = next_of(s0);
    let s2 = remainder_of(s1);
    let u0 = branch_of(s2, 0);
    let u1 = next_of(u0);
    let u2 = next_of(u1);
    let b0 = body_of(s1);
    let b1 = next_of(b0);
    let b2 = next_of(b1);
    let zig_call_result = sym(home, n + 1);
    let alignment_sym = sym(home, n + 2);
    let inner = sym(home, n + 3);
    let mod_inner_unit = sym(home, n + 4);
    assert(skip(with_idents(g, n + 3), 2) == skip(g, 5));
    let g3 = crate::helper::call_specialized_op_v(
        skip(g, 5),
        ctx,
        inner_layout,
        crate::gen_basic::refcount_args_v(ctx, inner),
    ).1;
    let callee = callee_of(skip(g, 5), ctx, inner_layout);
    let jp = JoinPointId(sym(home, g3.idents));
    let is_unique = sym(home, g3.idents + 1);
    let held = (world.memory)(p);
    let env1 = env.insert(is_unique, Value::Word(1));
    let trace1 = trace.push(Event::IsUnique(p));
    let joins1 = joins.insert(jp, JoinV { parameters: Seq::empty(), body: b0 });
    let env2 = env1.insert(inner, held);
    let trace2 = trace1.push(Event::Load(p));
    let env3 = env2.insert(mod_inner_unit, (world.call_result)(callee, seq![held]));
    let trace3 = trace2.push(Event::Call(callee, seq![held]));
    let env4 = env3.insert(alignment_sym, Value::Word(alignment as int));
    let env5 = env4.insert(zig_call_result, unit());
    let trace4 = trace3.push(Event::Dec(p, alignment as int));
    let f1 = (fuel - 1) as nat;
    lookup_one(env, outer);
    assert(run(world, joins, env, s0, trace, fuel) == run(world, joins, env1, s1, trace1, fuel));
    assert(run(world, joins, env1, s1, trace1, fuel) == run(
        world,
        joins1,
        env1,
        s2,
        trace1,
        fuel,
    ));
    assert(run(world, joins1, env1, s2, trace1, fuel) == run(
        world,
        joins1,
        env1,
        u0,
        trace1,
        fuel,
    ));
    assert(run(world, joins1, env1, u0, trace1, fuel) == run(
        world,
        joins1,
        env2,
        u1,
        trace2,
        fuel,
    ));
    lookup_one(env2, inner);
    assert(run(world, joins1, env2, u1, trace2, fuel) == run(
        world,
        joins1,
        env3,
        u2,
        trace3,
        fuel,
    ));
    lookup_none(env3);
    assert(run(world, joins1, env3, u2, trace3, fuel) == run(world, joins1, env3, b0, trace3, f1));
    assert(run(world, joins1, env3, b0, trace3, f1) == run(world, joins1, env4, b1, trace3, f1));
    lookup_two(env4, outer, alignment_sym);
    assert(run(world, joins1, env4, b1, trace3, f1) == run(world, joins1, env5, b2, trace4, f1));
    every_return_adds_nothing(world, joins1, env5, home, ctx, trace4, f1);
}

} // verus!
