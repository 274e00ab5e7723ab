//! The decrement of a list built from a recursive union, run to its end: a
//! list that nobody else refers to is freed node by node in one loop,
//! without a call, however long it is.

use vstd::prelude::*;
use crate::symbol::{Symbol, JoinPointId};
use crate::layout::{InLayout, LayoutV, UnionLayoutV, is_refcounted_spec, allocation_alignment_spec};
use crate::ir::{ExprV, StmtV, Param, Ownership, BranchInfo, let_v};
use crate::helper::{
    Context, HelperOp, GenV, tail_recursion_fields_v, first_rec_ptr, skip, with_idents, sym,
};
use crate::gen_union::{
    indexed_fields_v, refcount_tag_fields_v, arm_v, tag_branches_v, tag_switch_v,
    refcount_union_tailrec_v, refcount_union_v, inside_union,
};
use crate::machine::{
    World, Value, Event, Outcome, Env, Joins, JoinV, run, unit, find_branch, bind_params, next_of,
    branch_of, default_of, body_of, remainder_of,
};
use crate::laws::{
    numbers_fit, lookup_one, lookup_two, every_return_adds_nothing, dec_ctx, header_after,
};

verus! {

/// The union of a list with elements that own nothing: one variant is the
/// empty list, the other holds an element and the rest of the list.
pub open spec fn cons_union(elem: InLayout, rec: InLayout) -> UnionLayoutV {
    UnionLayoutV::NullableUnwrapped { nullable_id: false, other_fields: seq![elem, rec] }
}

/// The layouts hold such a union at `cons`, with `rec` as the pointer to it
/// and `elem` as the layout of an element.
pub open spec fn is_cons_list(
    ls: Seq<LayoutV>,
    cons: InLayout,
    elem: InLayout,
    rec: InLayout,
) -> bool {
    &&& cons < ls.len()
    &&& elem < cons
    &&& rec < cons
    &&& ls[cons as int] == LayoutV::Union(cons_union(elem, rec))
    &&& ls[rec as int] is RecursivePointer
    &&& !is_refcounted_spec(ls, elem)
}

/// The arm of the empty list in the loop.
pub open spec fn nil_arm(g: GenV, cons: InLayout) -> StmtV {
    let null = sym(g.help.home, g.idents + 9);
    let jp = JoinPointId(sym(g.help.home, g.idents + 8));
    let_v(null, ExprV::NullPointer, cons, StmtV::Jump(jp, seq![null]))
}

/// The arm of a node in the loop: the rest of the list is what the loop goes
/// on with.
pub open spec fn cons_arm(g: GenV, cons: InLayout, rec: InLayout) -> StmtV {
    let field_val = sym(g.help.home, g.idents + 10);
    let current = sym(g.help.home, g.idents + 1);
    let jp = JoinPointId(sym(g.help.home, g.idents + 8));
    let_v(
        field_val,
        ExprV::UnionAtIndex { structure: current, tag_id: 1, union_layout: cons, index: 1 },
        rec,
        StmtV::Jump(jp, seq![field_val]),
    )
}

/// The context inside the union of the list.
pub open spec fn cons_ctx(cons: InLayout) -> Context {
    Context { op: HelperOp::Dec, recursive_union: Some(cons) }
}

/// The field that leads on in a list is the rest of the list.
pub proof fn cons_list_leads_on(ls: Seq<LayoutV>, cons: InLayout, elem: InLayout, rec: InLayout)
    requires
        is_cons_list(ls, cons, elem, rec),
    ensures
        tail_recursion_fields_v(ls, cons_union(elem, rec)) == Some(seq![Some(1usize)]),
{
    reveal_with_fuel(first_rec_ptr, 3);
    let u = cons_union(elem, rec);
    let tags = u.tags();
    assert(tags[0] == seq![elem, rec]);
    assert(!(ls[elem as int] is RecursivePointer));
    assert(first_rec_ptr(ls, tags[0], 0) == Some(1usize));
    assert(Seq::new(tags.len(), |t: int| first_rec_ptr(ls, tags[t], 0)) =~= seq![Some(1usize)]);
}

/// The arms of the loop for a list are these two.
pub proof fn cons_list_arms(g: GenV, cons: InLayout, elem: InLayout, rec: InLayout)
    requires
        is_cons_list(g.layouts, cons, elem, rec),
    ensures
        tag_branches_v(
            with_idents(g, g.idents + 9),
            cons_ctx(cons),
            cons,
            cons_union(elem, rec),
            sym(g.help.home, g.idents + 1),
            JoinPointId(sym(g.help.home, g.idents + 8)),
            Some(seq![Some(1usize)]),
            1,
        ) == (
            seq![
                (0u64, BranchInfo::Unknown, nil_arm(g, cons)),
                (1u64, BranchInfo::Unknown, cons_arm(g, cons, rec)),
            ],
            with_idents(g, g.idents + 11),
        ),
{
    reveal_with_fuel(tag_branches_v, 3);
    reveal_with_fuel(refcount_tag_fields_v, 3);
    reveal_with_fuel(indexed_fields_v, 4);
    let u = cons_union(elem, rec);
    let g0 = with_idents(g, g.idents + 9);
    let current = sym(g.help.home, g.idents + 1);
    let jp = JoinPointId(sym(g.help.home, g.idents + 8));
    let tail = Some(seq![Some(1usize)]);
    assert(u.tags()[0] == seq![elem, rec]);
    let first = tag_branches_v(g0, cons_ctx(cons), cons, u, current, jp, tail, 0);
    assert(first.0 =~= seq![(0u64, BranchInfo::Unknown, nil_arm(g, cons))]);
    assert(first.1 == with_idents(g, g.idents + 10));
    let pairs = indexed_fields_v(seq![elem, rec], Some(1usize), 2);
    assert(pairs =~= seq![(0usize, elem)]);
    let arm = arm_v(
        first.1,
        cons_ctx(cons),
        cons,
        seq![elem, rec],
        current,
        jp,
        1u16,
        Some(Some(1usize)),
    );
    assert(arm.0 == cons_arm(g, cons, rec));
    assert(arm.1 == with_idents(g, g.idents + 11));
    let both = tag_branches_v(g0, cons_ctx(cons), cons, u, current, jp, tail, 1);
    assert(both.0 =~= seq![
        (0u64, BranchInfo::Unknown, nil_arm(g, cons)),
        (1u64, BranchInfo::Unknown, cons_arm(g, cons, rec)),
    ]);
}

/// The loop that the decrement of a list is.
pub open spec fn loop_stmt(
    g: GenV,
    cons: InLayout,
    elem: InLayout,
    rec: InLayout,
    structure: Symbol,
) -> StmtV {
    refcount_union_tailrec_v(
        g,
        cons_ctx(cons),
        cons,
        cons_union(elem, rec),
        seq![Some(1usize)],
        structure,
    ).0
}

/// One round of the loop, from the node at hand.
pub open spec fn loop_body(
    g: GenV,
    cons: InLayout,
    elem: InLayout,
    rec: InLayout,
    structure: Symbol,
) -> StmtV {
    body_of(loop_stmt(g, cons, elem, rec, structure))
}

/// The end of a round: the release of the node at hand, and the step to the
/// next.
pub open spec fn release_part(
    g: GenV,
    cons: InLayout,
    elem: InLayout,
    rec: InLayout,
    structure: Symbol,
) -> StmtV {
    body_of(next_of(loop_body(g, cons, elem, rec, structure)))
}

/// The parameter of the loop: the node at hand.
pub open spec fn current_param(g: GenV, cons: InLayout) -> Param {
    Param { symbol: sym(g.help.home, g.idents + 1), ownership: Ownership::Borrowed, layout: cons }
}

/// The parameter of the end of a round: the node to go on with.
pub open spec fn next_param(g: GenV, cons: InLayout) -> Param {
    Param { symbol: sym(g.help.home, g.idents + 2), ownership: Ownership::Borrowed, layout: cons }
}

/// The alignment that the nodes of the list are freed with.
pub open spec fn node_alignment(g: GenV, cons: InLayout) -> int {
    allocation_alignment_spec(g.layouts, g.help.target, cons) as u32 as int
}

/// The first half of a round on a node with one reference: its header is
/// tested, the rest of the list is read from it, and the round goes to its
/// end with the rest as the node to go on with.
pub proof fn round_reads_the_rest(
    world: World,
    joins: Joins,
    env: Env,
    g: GenV,
    cons: InLayout,
    elem: InLayout,
    rec: InLayout,
    structure: Symbol,
    p: int,
    next: int,
    trace: Seq<Event>,
    fuel: nat,
)
    requires
        is_cons_list(g.layouts, cons, elem, rec),
        numbers_fit(g.idents, 13),
        env.dom().contains(sym(g.help.home, g.idents + 1)),
        env[sym(g.help.home, g.idents + 1)] == Value::Word(p),
        (world.unique)(p),
        (world.tag_id)(cons, Value::Word(p)) == 1,
        (world.field)(cons, Value::Word(p), 1u16, 1u64) == Value::Word(next),
        fuel >= 1,
    ensures
        run(world, joins, env, loop_body(g, cons, elem, rec, structure), trace, fuel) == run(
            world,
            joins.insert(
                JoinPointId(sym(g.help.home, g.idents + 8)),
                JoinV {
                    parameters: seq![next_param(g, cons)],
                    body: release_part(g, cons, elem, rec, structure),
                },
            ),
            env.insert(sym(g.help.home, g.idents + 3), Value::Word(1)).insert(
                sym(g.help.home, g.idents + 11),
                Value::Word(1),
            ).insert(sym(g.help.home, g.idents + 10), Value::Word(next)).insert(
                sym(g.help.home, g.idents + 2),
                Value::Word(next),
            ),
            release_part(g, cons, elem, rec, structure),
            trace.push(Event::IsUnique(p)).push(Event::Field(cons, Value::Word(p), 1u16, 1u64)),
            (fuel - 1) as nat,
        ),
{
    reveal_with_fuel(find_branch, 3);
    reveal_with_fuel(bind_params, 3);
    cons_list_arms(g, cons, elem, rec);
    let home = g.help.home;
    let n = g.idents;
    let u = cons_union(elem, rec);
    let l0 = loop_body(g, cons, elem, rec, structure);
    let l1 = next_of(l0);
    let l2 = remainder_of(l1);
    let l3 = next_of(l2);
    let sw = branch_of(l3, 0);
    let arm = default_of(sw);
    let arm1 = next_of(arm);
    let m0 = release_part(g, cons, elem, rec, structure);
    let current = sym(home, n + 1);
    let next_ptr = sym(home, n + 2);
    let tag_id_sym = sym(home, n + 3);
    let jp = JoinPointId(sym(home, n + 8));
    let field_val = sym(home, n + 10);
    let is_unique = sym(home, n + 11);
    let branches = seq![
        (0u64, BranchInfo::Unknown, nil_arm(g, cons)),
        (1u64, BranchInfo::Unknown, cons_arm(g, cons, rec)),
    ];
    assert(skip(with_idents(g, n + 8), 1) == with_idents(g, n + 9));
    assert(sw == tag_switch_v(tag_id_sym, u.tag_id_layout(), branches));
    assert(branches.drop_last() =~= seq![(0u64, BranchInfo::Unknown, nil_arm(g, cons))]);
    assert(arm == cons_arm(g, cons, rec));
    let env1 = env.insert(tag_id_sym, Value::Word(1));
    let joins1 = joins.insert(jp, JoinV { parameters: seq![next_param(g, cons)], body: m0 });
    let env2 = env1.insert(is_unique, Value::Word(1));
    let trace1 = trace.push(Event::IsUnique(p));
    let env3 = env2.insert(field_val, Value::Word(next));
    let trace2 = trace1.push(Event::Field(cons, Value::Word(p), 1u16, 1u64));
    let env4 = env3.insert(next_ptr, Value::Word(next));
    let f1 = (fuel - 1) as nat;
    assert(run(world, joins, env, l0, trace, fuel) == run(world, joins, env1, l1, trace, fuel));
    assert(run(world, joins, env1, l1, trace, fuel) == run(world, joins1, env1, l2, trace, fuel));
    lookup_one(env1, current);
    assert(run(world, joins1, env1, l2, trace, fuel) == run(
        world,
        joins1,
        env2,
        l3,
        trace1,
        fuel,
    ));
    assert(run(world, joins1, env2, l3, trace1, fuel) == run(
        world,
        joins1,
        env2,
        sw,
        trace1,
        fuel,
    ));
    assert(run(world, joins1, env2, sw, trace1, fuel) == run(
        world,
        joins1,
        env2,
        arm,
        trace1,
        fuel,
    ));
    assert(run(world, joins1, env2, arm, trace1, fuel) == run(
        world,
        joins1,
        env3,
        arm1,
        trace2,
        fuel,
    ));
    lookup_one(env3, field_val);
    assert(bind_params(env3, seq![next_param(g, cons)], seq![Value::Word(next)], 1) == env4);
    assert(run(world, joins1, env3, arm1, trace2, fuel) == run(
        world,
        joins1,
        env4,
        m0,
        trace2,
        f1,
    ));
}

/// The second half of a round: the header of the node at hand is released,
/// and the loop ends where no node is left, or goes on with the next.
pub proof fn round_releases_the_node(
    world: World,
    joins: Joins,
    env: Env,
    g: GenV,
    cons: InLayout,
    elem: InLayout,
    rec: InLayout,
    structure: Symbol,
    p: int,
    next: int,
    trace: Seq<Event>,
    fuel: nat,
)
    requires
        is_cons_list(g.layouts, cons, elem, rec),
        numbers_fit(g.idents, 13),
        env.dom().contains(sym(g.help.home, g.idents + 1)),
        env[sym(g.help.home, g.idents + 1)] == Value::Word(p),
        env.dom().contains(sym(g.help.home, g.idents + 2)),
        env[sym(g.help.home, g.idents + 2)] == Value::Word(next),
        joins.dom().contains(JoinPointId(sym(g.help.home, g.idents))),
        joins[JoinPointId(sym(g.help.home, g.idents))] == (JoinV {
            parameters: seq![current_param(g, cons)],
            body: loop_body(g, cons, elem, rec, structure),
        }),
        next != 0 ==> fuel >= 1,
    ensures
        run(world, joins, env, release_part(g, cons, elem, rec, structure), trace, fuel) == if next
            == 0 {
            Outcome::Return(unit(), trace.push(Event::Dec(p, node_alignment(g, cons))))
        } else {
            run(
                world,
                joins,
                env.insert(
                    sym(g.help.home, g.idents + 7),
                    Value::Word(node_alignment(g, cons)),
                ).insert(sym(g.help.home, g.idents + 6), unit()).insert(
                    sym(g.help.home, g.idents + 4),
                    Value::Word(next),
                ).insert(sym(g.help.home, g.idents + 1), Value::Word(next)),
                loop_body(g, cons, elem, rec, structure),
                trace.push(Event::Dec(p, node_alignment(g, cons))),
                (fuel - 1) as nat,
            )
        },
{
    reveal_with_fuel(find_branch, 3);
    reveal_with_fuel(bind_params, 3);
    let home = g.help.home;
    let n = g.idents;
    let a = node_alignment(g, cons);
    let l0 = loop_body(g, cons, elem, rec, structure);
    let m0 = release_part(g, cons, elem, rec, structure);
    let m1 = next_of(m0);
    let m2 = next_of(m1);
    let m3 = next_of(m2);
    let current = sym(home, n + 1);
    let next_ptr = sym(home, n + 2);
    let next_addr = sym(home, n + 4);
    let zig_call_result = sym(home, n + 6);
    let alignment_sym = sym(home, n + 7);
    let env1 = env.insert(alignment_sym, Value::Word(a));
    let env2 = env1.insert(zig_call_result, unit());
    let trace1 = trace.push(Event::Dec(p, a));
    let env3 = env2.insert(next_addr, Value::Word(next));
    let f1 = (fuel - 1) as nat;
    assert(run(world, joins, env, m0, trace, fuel) == run(world, joins, env1, m1, trace, fuel));
    lookup_two(env1, current, alignment_sym);
    assert(run(world, joins, env1, m1, trace, fuel) == run(world, joins, env2, m2, trace1, fuel));
    lookup_one(env2, next_ptr);
    assert(run(world, joins, env2, m2, trace1, fuel) == run(world, joins, env3, m3, trace1, fuel));
    if next == 0 {
        let m4 = branch_of(m3, 0);
        assert(run(world, joins, env3, m3, trace1, fuel) == run(
            world,
            joins,
            env3,
            m4,
            trace1,
            fuel,
        ));
        every_return_adds_nothing(world, joins, env3, home, cons_ctx(cons), trace1, fuel);
    } else {
        let m5 = default_of(m3);
        let env4 = env3.insert(current, Value::Word(next));
        assert(run(world, joins, env3, m3, trace1, fuel) == run(
            world,
            joins,
            env3,
            m5,
            trace1,
            fuel,
        ));
        lookup_one(env3, next_ptr);
        assert(bind_params(env3, seq![current_param(g, cons)], seq![Value::Word(next)], 1) == env4);
        assert(run(world, joins, env3, m5, trace1, fuel) == run(
            world,
            joins,
            env4,
            l0,
            trace1,
            f1,
        ));
    }
}

/// The memory holds a list of nodes of the union `cons`, each with one
/// reference and each followed by the next; after the last comes the empty
/// list, which is the null pointer.
pub open spec fn is_chain(world: World, cons: InLayout, nodes: Seq<int>) -> bool {
    &&& nodes.len() > 0
    &&& forall|i: int|
        0 <= i < nodes.len() ==> {
            &&& #[trigger] nodes[i] != 0
            &&& (world.unique)(nodes[i])
            &&& (world.tag_id)(cons, Value::Word(nodes[i])) == 1
            &&& (world.field)(cons, Value::Word(nodes[i]), 1u16, 1u64) == Value::Word(
                if i + 1 < nodes.len() {
                    nodes[i + 1]
                } else {
                    0
                },
            )
        }
}

/// The events so far and those of releasing the first `k` nodes: for each
/// node the test of its header, the reading of the rest of the list, and the
/// release of the header.
pub open spec fn chain_trace(
    trace: Seq<Event>,
    cons: InLayout,
    nodes: Seq<int>,
    alignment: int,
    k: nat,
) -> Seq<Event>
    decreases k,
{
    if k == 0 || k > nodes.len() {
        trace
    } else {
        chain_trace(trace, cons, nodes, alignment, (k - 1) as nat).push(
            Event::IsUnique(nodes[k - 1]),
        ).push(Event::Field(cons, Value::Word(nodes[k - 1]), 1u16, 1u64)).push(
            Event::Dec(nodes[k - 1], alignment),
        )
    }
}

/// From the `i`-th node on, the loop releases every node that is left and
/// returns.
pub proof fn loop_releases_the_rest(
    world: World,
    joins: Joins,
    env: Env,
    g: GenV,
    cons: InLayout,
    elem: InLayout,
    rec: InLayout,
    structure: Symbol,
    nodes: Seq<int>,
    i: nat,
    trace: Seq<Event>,
    fuel: nat,
)
    requires
        is_cons_list(g.layouts, cons, elem, rec),
        numbers_fit(g.idents, 13),
        is_chain(world, cons, nodes),
        i < nodes.len(),
        env.dom().contains(sym(g.help.home, g.idents + 1)),
        env[sym(g.help.home, g.idents + 1)] == Value::Word(nodes[i as int]),
        joins.dom().contains(JoinPointId(sym(g.help.home, g.idents))),
        joins[JoinPointId(sym(g.help.home, g.idents))] == (JoinV {
            parameters: seq![current_param(g, cons)],
            body: loop_body(g, cons, elem, rec, structure),
        }),
        fuel + 1 >= 2 * (nodes.len() - i),
    ensures
        run(
            world,
            joins,
            env,
            loop_body(g, cons, elem, rec, structure),
            chain_trace(trace, cons, nodes, node_alignment(g, cons), i),
            fuel,
        ) == Outcome::Return(
            unit(),
            chain_trace(trace, cons, nodes, node_alignment(g, cons), nodes.len()),
        ),
    decreases nodes.len() - i,
{
    let home = g.help.home;
    let n = g.idents;
    let a = node_alignment(g, cons);
    let p = nodes[i as int];
    let next = if i + 1 < nodes.len() {
        nodes[i as int + 1]
    } else {
        0
    };
    let before = chain_trace(trace, cons, nodes, a, i);
    let after = chain_trace(trace, cons, nodes, a, i + 1);
    assert(after == before.push(Event::IsUnique(p)).push(
        Event::Field(cons, Value::Word(p), 1u16, 1u64),
    ).push(Event::Dec(p, a)));
    round_reads_the_rest(world, joins, env, g, cons, elem, rec, structure, p, next, before, fuel);
    let joins1 = joins.insert(
        JoinPointId(sym(home, n + 8)),
        JoinV {
            parameters: seq![next_param(g, cons)],
            body: release_part(g, cons, elem, rec, structure),
        },
    );
    let env1 = env.insert(sym(home, n + 3), Value::Word(1)).insert(
        sym(home, n + 11),
        Value::Word(1),
    ).insert(sym(home, n + 10), Value::Word(next)).insert(sym(home, n + 2), Value::Word(next));
    let half = before.push(Event::IsUnique(p)).push(Event::Field(cons, Value::Word(p), 1u16, 1u64));
    if next == 0 {
        round_releases_the_node(
            world,
            joins1,
            env1,
            g,
            cons,
            elem,
            rec,
            structure,
            p,
            next,
            half,
            (fuel - 1) as nat,
        );
        assert(i + 1 == nodes.len());
    } else {
        round_releases_the_node(
            world,
            joins1,
            env1,
            g,
            cons,
            elem,
            rec,
            structure,
            p,
            next,
            half,
            (fuel - 1) as nat,
        );
        let env2 = env1.insert(sym(home, n + 7), Value::Word(a)).insert(
            sym(home, n + 6),
            unit(),
        ).insert(sym(home, n + 4), Value::Word(next)).insert(sym(home, n + 1), Value::Word(next));
        loop_releases_the_rest(
            world,
            joins1,
            env2,
            g,
            cons,
            elem,
            rec,
            structure,
            nodes,
            i + 1,
            trace,
            (fuel - 2) as nat,
        );
    }
}

/// A list that nobody else refers to is freed whole, in one loop. Run on a
/// list of nodes with one reference each, the decrement releases the header
/// of every node, from the first to the last, and returns. It calls no
/// procedure, so its stack does not grow with the list; the only memory it
/// reads is the pointer to the rest in each node, before that node is
/// released.
pub proof fn unique_list_is_freed_in_a_loop(
    world: World,
    joins: Joins,
    env: Env,
    g: GenV,
    cons: InLayout,
    elem: InLayout,
    rec: InLayout,
    structure: Symbol,
    nodes: Seq<int>,
    trace: Seq<Event>,
    fuel: nat,
)
    requires
        is_cons_list(g.layouts, cons, elem, rec),
        numbers_fit(g.idents, 13),
        is_chain(world, cons, nodes),
        env.dom().contains(structure),
        env[structure] == Value::Word(nodes[0]),
        fuel >= 2 * nodes.len(),
    ensures
        run(
            world,
            joins,
            env,
            refcount_union_v(g, dec_ctx(), cons, cons_union(elem, rec), structure).0,
            trace,
            fuel,
        ) == Outcome::Return(
            unit(),
            chain_trace(trace, cons, nodes, node_alignment(g, cons), nodes.len()),
        ),
{
    reveal_with_fuel(bind_params, 3);
    cons_list_leads_on(g.layouts, cons, elem, rec);
    let u = cons_union(elem, rec);
    assert(inside_union(dec_ctx(), cons, u) == cons_ctx(cons));
    let s0 = loop_stmt(g, cons, elem, rec, structure);
    assert(refcount_union_v(g, dec_ctx(), cons, u, structure).0 == s0);
    let l0 = loop_body(g, cons, elem, rec, structure);
    let r0 = remainder_of(s0);
    let tailrec_loop = JoinPointId(sym(g.help.home, g.idents));
    let current = sym(g.help.home, g.idents + 1);
    let joins1 = joins.insert(
        tailrec_loop,
        JoinV { parameters: seq![current_param(g, cons)], body: l0 },
    );
    let env1 = env.insert(current, Value::Word(nodes[0]));
    assert(run(world, joins, env, s0, trace, fuel) == run(world, joins1, env, r0, trace, fuel));
    lookup_one(env, structure);
    assert(bind_params(env, seq![current_param(g, cons)], seq![Value::Word(nodes[0])], 1) == env1);
    assert(run(world, joins1, env, r0, trace, fuel) == run(
        world,
        joins1,
        env1,
        l0,
        trace,
        (fuel - 1) as nat,
    ));
    loop_releases_the_rest(
        world,
        joins1,
        env1,
        g,
        cons,
        elem,
        rec,
        structure,
        nodes,
        0,
        trace,
        (fuel - 1) as nat,
    );
}

/// No node stands twice in the list.
pub open spec fn distinct(nodes: Seq<int>) -> bool {
    forall|i: int, j: int| 0 <= i < j < nodes.len() ==> nodes[i] != nodes[j]
}

/// What the events of `unique_list_is_freed_in_a_loop` come to: after the
/// first `k` nodes were released, each of them is freed, and each of the
/// others still has its one reference.
pub proof fn released_nodes_are_freed(
    cons: InLayout,
    nodes: Seq<int>,
    alignment: int,
    unique: int,
    k: nat,
    j: int,
)
    requires
        distinct(nodes),
        k <= nodes.len(),
        0 <= j < nodes.len(),
    ensures
        header_after(
            chain_trace(Seq::empty(), cons, nodes, alignment, k),
            nodes[j],
            Some(unique),
            unique,
        ) == if j < k {
            None::<int>
        } else {
            Some(unique)
        },
    decreases k,
{
    if k > 0 {
        released_nodes_are_freed(cons, nodes, alignment, unique, (k - 1) as nat, j);
        let before = chain_trace(Seq::empty(), cons, nodes, alignment, (k - 1) as nat);
        let p = nodes[k - 1];
        let t1 = before.push(Event::IsUnique(p));
        let t2 = t1.push(Event::Field(cons, Value::Word(p), 1u16, 1u64));
        let t3 = t2.push(Event::Dec(p, alignment));
        assert(t1.drop_last() =~= before);
        assert(t2.drop_last() =~= t1);
        assert(t3.drop_last() =~= t2);
        let h0 = header_after(before, nodes[j], Some(unique), unique);
        assert(header_after(t1, nodes[j], Some(unique), unique) == h0);
        assert(header_after(t2, nodes[j], Some(unique), unique) == h0);
    }
}

} // verus!
