//! The decrement of a list whose elements own memory, run to its end: every
//! element is read and handed to the procedure of its layout, first to
//! last, and the header of the list is released after them.

use vstd::prelude::*;
use crate::symbol::{Symbol, JoinPointId};
use crate::layout::{InLayout, LayoutV, is_refcounted_spec, stack_size_spec};
use crate::ir::{StmtV, Param, Ownership};
use crate::helper::{Context, GenV, call_specialized_op_v, skip, with_idents, sym, insert_v};
use crate::gen_basic::refcount_args_v;
use crate::gen_data::refcount_list_v;
use crate::machine::{
    World, Value, Event, Outcome, Env, Joins, JoinV, run, unit, wrap, modulus, find_branch,
    bind_params, next_of, branch_of, default_of, body_of, remainder_of,
};
use crate::laws::{
    numbers_fit, known, lookup_one, lookup_two, every_return_adds_nothing, list_parts, list_value,
    list_alignment, list_runs_to_empty_test, list_runs_to_slice_test, list_runs_to_owner,
    env_at_elements, elements_param, callee_of,
};

verus! {

/// The state in which the loop over the elements is generated.
pub open spec fn loop_state(g: GenV, elem_layout: InLayout) -> GenV {
    with_idents(insert_v(g, LayoutV::Boxed(elem_layout)).1, g.idents + 14)
}

/// The state after the loop has requested the procedure for an element.
pub open spec fn state_after_request(g: GenV, ctx: Context, elem_layout: InLayout) -> GenV {
    let g3 = loop_state(g, elem_layout);
    call_specialized_op_v(
        skip(g3, 9),
        ctx,
        elem_layout,
        refcount_args_v(ctx, sym(g.help.home, g.idents + 21)),
    ).1
}

/// The procedure that the loop calls for each element.
pub open spec fn element_callee(g: GenV, ctx: Context, elem_layout: InLayout) -> Symbol {
    callee_of(skip(loop_state(g, elem_layout), 9), ctx, elem_layout)
}

/// The size of an element, which is the step of the loop.
pub open spec fn element_size(g: GenV, elem_layout: InLayout) -> int {
    stack_size_spec(insert_v(g, LayoutV::Boxed(elem_layout)).1.layouts, g.help.target, elem_layout)
}

/// The join point that the loop is.
pub open spec fn loop_join(
    g: GenV,
    ctx: Context,
    elem_layout: InLayout,
    structure: Symbol,
) -> StmtV {
    next_of(next_of(next_of(next_of(list_parts(g, ctx, elem_layout, structure).owner))))
}

/// One round of the loop: the test for the end, and the visit of an element
/// or the way out.
pub open spec fn loop_head(
    g: GenV,
    ctx: Context,
    elem_layout: InLayout,
    structure: Symbol,
) -> StmtV {
    body_of(loop_join(g, ctx, elem_layout, structure))
}

/// The parameter of the loop: the address of the element at hand.
pub open spec fn addr_param(g: GenV) -> Param {
    Param {
        symbol: sym(g.help.home, g.idents + 19),
        ownership: Ownership::Owned,
        layout: g.help.target.layout_isize(),
    }
}

/// The numbers in the list's record are such that the addresses of its
/// elements are computed without wrapping around.
pub open spec fn addresses_fit(
    target: crate::layout::PtrWidth,
    pointer: int,
    length: int,
    size: int,
) -> bool {
    &&& 0 <= pointer
    &&& 0 < length
    &&& 0 < size <= u32::MAX
    &&& pointer + length * size < modulus(target) / 2
}

/// The events so far and those of visiting the first `k` elements: each is
/// read from its address and handed to the procedure.
pub open spec fn elements_trace(
    world: World,
    trace: Seq<Event>,
    callee: Symbol,
    pointer: int,
    size: int,
    k: nat,
) -> Seq<Event>
    decreases k,
{
    if k == 0 {
        trace
    } else {
        let address = pointer + (k - 1) * size;
        elements_trace(world, trace, callee, pointer, size, (k - 1) as nat).push(
            Event::Load(address),
        ).push(Event::Call(callee, seq![(world.memory)(address)]))
    }
}

/// A number inside the range of a word is the word it is.
pub proof fn wrap_of_small(target: crate::layout::PtrWidth, x: int)
    requires
        -(modulus(target) / 2) <= x < modulus(target) / 2,
    ensures
        wrap(target, x) == x,
{
    let m = modulus(target);
    if x >= 0 {
        assert(x % m == x);
    } else {
        assert((x + m) % m == x + m);
        assert(x % m == (x + m) % m) by (nonlinear_arith)
            requires
                m > 0,
        ;
    }
}

/// The loop starts at the address of the first element.
pub proof fn loop_starts(
    world: World,
    joins: Joins,
    env: Env,
    g: GenV,
    ctx: Context,
    elem_layout: InLayout,
    structure: Symbol,
    pointer: int,
    length: int,
    trace: Seq<Event>,
    fuel: nat,
)
    requires
        ctx.op is Dec,
        is_refcounted_spec(insert_v(g, LayoutV::Boxed(elem_layout)).1.layouts, elem_layout),
        numbers_fit(g.idents, 24),
        world.target == g.help.target,
        addresses_fit(world.target, pointer, length, element_size(g, elem_layout)),
        env.dom().contains(sym(g.help.home, g.idents + 6)),
        env[sym(g.help.home, g.idents + 6)] == Value::Word(pointer),
        env.dom().contains(sym(g.help.home, g.idents)),
        env[sym(g.help.home, g.idents)] == Value::Word(length),
        fuel >= 1,
    ensures
        run(world, joins, env, list_parts(g, ctx, elem_layout, structure).owner, trace, fuel) == run(
            world,
            joins.insert(
                JoinPointId(sym(g.help.home, g.idents + 18)),
                JoinV {
                    parameters: seq![addr_param(g)],
                    body: loop_head(g, ctx, elem_layout, structure),
                },
            ),
            env.insert(sym(g.help.home, g.idents + 14), Value::Word(pointer)).insert(
                sym(g.help.home, g.idents + 15),
                Value::Word(element_size(g, elem_layout)),
            ).insert(
                sym(g.help.home, g.idents + 16),
                Value::Word(length * element_size(g, elem_layout)),
            ).insert(
                sym(g.help.home, g.idents + 17),
                Value::Word(pointer + length * element_size(g, elem_layout)),
            ).insert(sym(g.help.home, g.idents + 19), Value::Word(pointer)),
            loop_head(g, ctx, elem_layout, structure),
            trace,
            (fuel - 1) as nat,
        ),
{
    reveal_with_fuel(bind_params, 3);
    let home = g.help.home;
    let n = g.idents;
    let size = element_size(g, elem_layout);
    let s0 = list_parts(g, ctx, elem_layout, structure).owner;
    let s1 = next_of(s0);
    let s2 = next_of(s1);
    let s3 = next_of(s2);
    let s4 = next_of(s3);
    let r0 = remainder_of(s4);
    let b0 = body_of(s4);
    let len = sym(home, n);
    let elements = sym(home, n + 6);
    let start = sym(home, n + 14);
    let elem_size = sym(home, n + 15);
    let list_size = sym(home, n + 16);
    let end = sym(home, n + 17);
    let elems_loop = JoinPointId(sym(home, n + 18));
    let addr = sym(home, n + 19);
    assert(0 <= length * size) by (nonlinear_arith)
        requires
            0 < length,
            0 < size,
    ;
    wrap_of_small(world.target, length * size);
    wrap_of_small(world.target, pointer + length * size);
    let env1 = env.insert(start, Value::Word(pointer));
    let env2 = env1.insert(elem_size, Value::Word(size));
    let env3 = env2.insert(list_size, Value::Word(length * size));
    let env4 = env3.insert(end, Value::Word(pointer + length * size));
    let env5 = env4.insert(addr, Value::Word(pointer));
    let joins1 = joins.insert(elems_loop, JoinV { parameters: seq![addr_param(g)], body: b0 });
    lookup_one(env, elements);
    assert(run(world, joins, env, s0, trace, fuel) == run(world, joins, env1, s1, trace, fuel));
    assert(run(world, joins, env1, s1, trace, fuel) == run(world, joins, env2, s2, trace, fuel));
    lookup_two(env2, len, elem_size);
    assert(run(world, joins, env2, s2, trace, fuel) == run(world, joins, env3, s3, trace, fuel));
    lookup_two(env3, start, list_size);
    assert(run(world, joins, env3, s3, trace, fuel) == run(world, joins, env4, s4, trace, fuel));
    assert(run(world, joins, env4, s4, trace, fuel) == run(world, joins1, env4, r0, trace, fuel));
    lookup_one(env4, start);
    assert(bind_params(env4, seq![addr_param(g)], seq![Value::Word(pointer)], 1) == env5);
    assert(run(world, joins1, env4, r0, trace, fuel) == run(
        world,
        joins1,
        env5,
        b0,
        trace,
        (fuel - 1) as nat,
    ));
}

/// The environment after an element was visited: the loop's names stand
/// for that element, and the address at hand is that of the next.
pub open spec fn env_after_visit(
    world: World,
    env: Env,
    g: GenV,
    ctx: Context,
    elem_layout: InLayout,
    address: int,
) -> Env {
    let home = g.help.home;
    let after = state_after_request(g, ctx, elem_layout);
    let held = (world.memory)(address);
    let callee = element_callee(g, ctx, elem_layout);
    env.insert(sym(home, after.idents + 1), Value::Word(0)).insert(
        sym(home, g.idents + 20),
        Value::Word(address),
    ).insert(sym(home, g.idents + 21), held).insert(
        sym(home, g.idents + 22),
        (world.call_result)(callee, seq![held]),
    ).insert(sym(home, after.idents), Value::Word(address + element_size(g, elem_layout))).insert(
        sym(home, g.idents + 19),
        Value::Word(address + element_size(g, elem_layout)),
    )
}

/// A round of the loop before the end: the element at hand is read and
/// handed to the procedure of its layout, and the loop goes on with the
/// next address.
pub proof fn loop_visits_one(
    world: World,
    joins: Joins,
    env: Env,
    g: GenV,
    ctx: Context,
    elem_layout: InLayout,
    structure: Symbol,
    address: int,
    end: int,
    trace: Seq<Event>,
    fuel: nat,
)
    requires
        ctx.op is Dec,
        is_refcounted_spec(insert_v(g, LayoutV::Boxed(elem_layout)).1.layouts, elem_layout),
        numbers_fit(state_after_request(g, ctx, elem_layout).idents, 2),
        world.target == g.help.target,
        address < end,
        0 <= address,
        address + element_size(g, elem_layout) < modulus(world.target) / 2,
        0 < element_size(g, elem_layout),
        env.dom().contains(sym(g.help.home, g.idents + 19)),
        env[sym(g.help.home, g.idents + 19)] == Value::Word(address),
        env.dom().contains(sym(g.help.home, g.idents + 17)),
        env[sym(g.help.home, g.idents + 17)] == Value::Word(end),
        env.dom().contains(sym(g.help.home, g.idents + 15)),
        env[sym(g.help.home, g.idents + 15)] == Value::Word(element_size(g, elem_layout)),
        joins.dom().contains(JoinPointId(sym(g.help.home, g.idents + 18))),
        joins[JoinPointId(sym(g.help.home, g.idents + 18))] == (JoinV {
            parameters: seq![addr_param(g)],
            body: loop_head(g, ctx, elem_layout, structure),
        }),
        fuel >= 1,
    ensures
        run(world, joins, env, loop_head(g, ctx, elem_layout, structure), trace, fuel) == run(
            world,
            joins,
            env_after_visit(world, env, g, ctx, elem_layout, address),
            loop_head(g, ctx, elem_layout, structure),
            trace.push(Event::Load(address)).push(
                Event::Call(
                    element_callee(g, ctx, elem_layout),
                    seq![(world.memory)(address)],
                ),
            ),
            (fuel - 1) as nat,
        ),
{
    reveal_with_fuel(find_branch, 3);
    reveal_with_fuel(bind_params, 3);
    let home = g.help.home;
    let n = g.idents;
    let size = element_size(g, elem_layout);
    let after = state_after_request(g, ctx, elem_layout);
    let callee = element_callee(g, ctx, elem_layout);
    let held = (world.memory)(address);
    let b0 = loop_head(g, ctx, elem_layout, structure);
    let b1 = next_of(b0);
    let v0 = default_of(b1);
    let v1 = next_of(v0);
    let v2 = next_of(v1);
    let v3 = next_of(v2);
    let v4 = next_of(v3);
    let elem_size = sym(home, n + 15);
    let end_sym = sym(home, n + 17);
    let addr = sym(home, n + 19);
    let box_ptr = sym(home, n + 20);
    let elem = sym(home, n + 21);
    let mod_elem_unit = sym(home, n + 22);
    let next_addr = sym(home, after.idents);
    let is_end = sym(home, after.idents + 1);
    wrap_of_small(world.target, address + size);
    let env1 = env.insert(is_end, Value::Word(0));
    let env2 = env1.insert(box_ptr, Value::Word(address));
    let env3 = env2.insert(elem, held);
    let trace1 = trace.push(Event::Load(address));
    let env4 = env3.insert(mod_elem_unit, (world.call_result)(callee, seq![held]));
    let trace2 = trace1.push(Event::Call(callee, seq![held]));
    let env5 = env4.insert(next_addr, Value::Word(address + size));
    let env6 = env5.insert(addr, Value::Word(address + size));
    let f1 = (fuel - 1) as nat;
    lookup_two(env, addr, end_sym);
    assert(run(world, joins, env, b0, trace, fuel) == run(world, joins, env1, b1, trace, fuel));
    assert(run(world, joins, env1, b1, trace, fuel) == run(world, joins, env1, v0, trace, fuel));
    lookup_one(env1, addr);
    assert(run(world, joins, env1, v0, trace, fuel) == run(world, joins, env2, v1, trace, fuel));
    assert(run(world, joins, env2, v1, trace, fuel) == run(world, joins, env3, v2, trace1, fuel));
    lookup_one(env3, elem);
    assert(run(world, joins, env3, v2, trace1, fuel) == run(
        world,
        joins,
        env4,
        v3,
        trace2,
        fuel,
    ));
    lookup_two(env4, addr, elem_size);
    assert(run(world, joins, env4, v3, trace2, fuel) == run(
        world,
        joins,
        env5,
        v4,
        trace2,
        fuel,
    ));
    lookup_one(env5, next_addr);
    assert(bind_params(env5, seq![addr_param(g)], seq![Value::Word(address + size)], 1) == env6);
    assert(run(world, joins, env5, v4, trace2, fuel) == run(world, joins, env6, b0, trace2, f1));
}

/// The round of the loop at the end: the header of the list is released,
/// and the procedure returns.
pub proof fn loop_ends_with_the_header(
    world: World,
    joins: Joins,
    env: Env,
    g: GenV,
    ctx: Context,
    elem_layout: InLayout,
    structure: Symbol,
    pointer: int,
    length: int,
    capacity: int,
    address: int,
    end: int,
    trace: Seq<Event>,
    fuel: nat,
)
    requires
        ctx.op is Dec,
        is_refcounted_spec(insert_v(g, LayoutV::Boxed(elem_layout)).1.layouts, elem_layout),
        numbers_fit(state_after_request(g, ctx, elem_layout).idents, 2),
        known(g, structure),
        address >= end,
        env.dom().contains(structure),
        env[structure] == list_value(pointer, length, capacity),
        env.dom().contains(sym(g.help.home, g.idents + 19)),
        env[sym(g.help.home, g.idents + 19)] == Value::Word(address),
        env.dom().contains(sym(g.help.home, g.idents + 17)),
        env[sym(g.help.home, g.idents + 17)] == Value::Word(end),
    ensures
        run(world, joins, env, loop_head(g, ctx, elem_layout, structure), trace, fuel)
            == Outcome::Return(
            unit(),
            trace.push(Event::Dec(pointer, list_alignment(g, elem_layout))),
        ),
{
    reveal_with_fuel(find_branch, 3);
    let home = g.help.home;
    let n = g.idents;
    let alignment = list_alignment(g, elem_layout);
    let after = state_after_request(g, ctx, elem_layout);
    let b0 = loop_head(g, ctx, elem_layout, structure);
    let b1 = next_of(b0);
    let m0 = branch_of(b1, 0);
    let m1 = next_of(m0);
    let m2 = next_of(m1);
    let m3 = next_of(m2);
    let end_sym = sym(home, n + 17);
    let addr = sym(home, n + 19);
    let is_end = sym(home, after.idents + 1);
    let list_ptr = sym(home, n + 10);
    let zig_call_result = sym(home, n + 12);
    let alignment_sym = sym(home, n + 13);
    let env1 = env.insert(is_end, Value::Word(1));
    let env2 = env1.insert(list_ptr, Value::Word(pointer));
    let env3 = env2.insert(alignment_sym, Value::Word(alignment));
    let env4 = env3.insert(zig_call_result, unit());
    let trace1 = trace.push(Event::Dec(pointer, alignment));
    lookup_two(env, addr, end_sym);
    assert(run(world, joins, env, b0, trace, fuel) == run(world, joins, env1, b1, trace, fuel));
    assert(run(world, joins, env1, b1, trace, fuel) == run(world, joins, env1, m0, trace, fuel));
    assert(run(world, joins, env1, m0, trace, fuel) == run(world, joins, env2, m1, trace, fuel));
    assert(run(world, joins, env2, m1, trace, fuel) == run(world, joins, env3, m2, trace, fuel));
    lookup_two(env3, list_ptr, alignment_sym);
    assert(run(world, joins, env3, m2, trace, fuel) == run(world, joins, env4, m3, trace1, fuel));
    every_return_adds_nothing(world, joins, env4, home, ctx, trace1, fuel);
}

/// From the `i`-th element on, the loop visits every element that is left,
/// releases the header of the list, and returns.
pub proof fn loop_visits_the_rest(
    world: World,
    joins: Joins,
    env: Env,
    g: GenV,
    ctx: Context,
    elem_layout: InLayout,
    structure: Symbol,
    pointer: int,
    length: int,
    capacity: int,
    i: nat,
    trace: Seq<Event>,
    fuel: nat,
)
    requires
        ctx.op is Dec,
        is_refcounted_spec(insert_v(g, LayoutV::Boxed(elem_layout)).1.layouts, elem_layout),
        numbers_fit(state_after_request(g, ctx, elem_layout).idents, 2),
        known(g, structure),
        world.target == g.help.target,
        addresses_fit(world.target, pointer, length, element_size(g, elem_layout)),
        i <= length,
        env.dom().contains(structure),
        env[structure] == list_value(pointer, length, capacity),
        env.dom().contains(sym(g.help.home, g.idents + 19)),
        env[sym(g.help.home, g.idents + 19)] == Value::Word(
            pointer + i * element_size(g, elem_layout),
        ),
        env.dom().contains(sym(g.help.home, g.idents + 17)),
        env[sym(g.help.home, g.idents + 17)] == Value::Word(
            pointer + length * element_size(g, elem_layout),
        ),
        env.dom().contains(sym(g.help.home, g.idents + 15)),
        env[sym(g.help.home, g.idents + 15)] == Value::Word(element_size(g, elem_layout)),
        joins.dom().contains(JoinPointId(sym(g.help.home, g.idents + 18))),
        joins[JoinPointId(sym(g.help.home, g.idents + 18))] == (JoinV {
            parameters: seq![addr_param(g)],
            body: loop_head(g, ctx, elem_layout, structure),
        }),
        fuel >= length - i,
    ensures
        run(
            world,
            joins,
            env,
            loop_head(g, ctx, elem_layout, structure),
            elements_trace(
                world,
                trace,
                element_callee(g, ctx, elem_layout),
                pointer,
                element_size(g, elem_layout),
                i,
            ),
            fuel,
        ) == Outcome::Return(
            unit(),
            elements_trace(
                world,
                trace,
                element_callee(g, ctx, elem_layout),
                pointer,
                element_size(g, elem_layout),
                length as nat,
            ).push(Event::Dec(pointer, list_alignment(g, elem_layout))),
        ),
    decreases length - i,
{
    let size = element_size(g, elem_layout);
    let callee = element_callee(g, ctx, elem_layout);
    let address = pointer + i * size;
    let end = pointer + length * size;
    let before = elements_trace(world, trace, callee, pointer, size, i);
    if i == length {
        loop_ends_with_the_header(
            world,
            joins,
            env,
            g,
            ctx,
            elem_layout,
            structure,
            pointer,
            length,
            capacity,
            address,
            end,
            before,
            fuel,
        );
    } else {
        assert(address + size == pointer + (i + 1) * size) by (nonlinear_arith)
            requires
                address == pointer + i * size,
        ;
        assert(pointer + (i + 1) * size <= pointer + length * size) by (nonlinear_arith)
            requires
                i + 1 <= length,
                0 < size,
        ;
        assert(0 <= i * size) by (nonlinear_arith)
            requires
                0 <= i,
                0 < size,
        ;
        // the trace after this element
        let after = elements_trace(world, trace, callee, pointer, size, i + 1);
        assert(after == before.push(Event::Load(address)).push(
            Event::Call(callee, seq![(world.memory)(address)]),
        ));
        loop_visits_one(
            world,
            joins,
            env,
            g,
            ctx,
            elem_layout,
            structure,
            address,
            end,
            before,
            fuel,
        );
        let env1 = env_after_visit(world, env, g, ctx, elem_layout, address);
        loop_visits_the_rest(
            world,
            joins,
            env1,
            g,
            ctx,
            elem_layout,
            structure,
            pointer,
            length,
            capacity,
            i + 1,
            trace,
            (fuel - 1) as nat,
        );
    }
}

/// Elements are released before the list. Run on a list that is no slice
/// and not empty, the decrement of a list of refcounted elements reads every
/// element, first to last, and hands each to the procedure of its layout;
/// after the last the header of the list is released. The elements are
/// visited whether the list is shared or not.
pub proof fn list_releases_elements_first(
    world: World,
    joins: Joins,
    env: Env,
    g: GenV,
    ctx: Context,
    elem_layout: InLayout,
    structure: Symbol,
    pointer: int,
    length: int,
    capacity: int,
    trace: Seq<Event>,
    fuel: nat,
)
    requires
        ctx.op is Dec,
        is_refcounted_spec(insert_v(g, LayoutV::Boxed(elem_layout)).1.layouts, elem_layout),
        numbers_fit(state_after_request(g, ctx, elem_layout).idents, 2),
        known(g, structure),
        world.target == g.help.target,
        addresses_fit(world.target, pointer, length, element_size(g, elem_layout)),
        capacity >= 0,
        env.dom().contains(structure),
        env[structure] == list_value(pointer, length, capacity),
        fuel >= length + 2,
    ensures
        run(world, joins, env, refcount_list_v(g, ctx, elem_layout, structure).0, trace, fuel)
            == Outcome::Return(
            unit(),
            elements_trace(
                world,
                trace,
                element_callee(g, ctx, elem_layout),
                pointer,
                element_size(g, elem_layout),
                length as nat,
            ).push(Event::Dec(pointer, list_alignment(g, elem_layout))),
        ),
{
    let home = g.help.home;
    let n = g.idents;
    let size = element_size(g, elem_layout);
    let parts = list_parts(g, ctx, elem_layout, structure);
    list_runs_to_empty_test(
        world,
        joins,
        env,
        g,
        ctx,
        elem_layout,
        structure,
        pointer,
        length,
        capacity,
        trace,
        fuel,
    );
    let env3 = env.insert(sym(home, n), Value::Word(length)).insert(
        sym(home, n + 1),
        Value::Word(0),
    ).insert(sym(home, n + 2), crate::machine::truth(length == 0));
    list_runs_to_slice_test(
        world,
        joins,
        env3,
        g,
        ctx,
        elem_layout,
        structure,
        pointer,
        length,
        capacity,
        trace,
        fuel,
    );
    let joins1 = joins.insert(
        JoinPointId(sym(home, n + 5)),
        JoinV { parameters: seq![elements_param(g)], body: parts.owner },
    );
    let env5 = env3.insert(sym(home, n + 3), Value::Word(capacity)).insert(
        sym(home, n + 4),
        crate::machine::truth(capacity < 0),
    );
    list_runs_to_owner(
        world,
        joins1,
        env5,
        g,
        ctx,
        elem_layout,
        structure,
        pointer,
        length,
        capacity,
        trace,
        fuel,
    );
    let env8 = env_at_elements(world, env5, g, pointer, capacity);
    loop_starts(
        world,
        joins1,
        env8,
        g,
        ctx,
        elem_layout,
        structure,
        pointer,
        length,
        trace,
        (fuel - 1) as nat,
    );
    let joins2 = joins1.insert(
        JoinPointId(sym(home, n + 18)),
        JoinV { parameters: seq![addr_param(g)], body: loop_head(g, ctx, elem_layout, structure) },
    );
    let env13 = env8.insert(sym(home, n + 14), Value::Word(pointer)).insert(
        sym(home, n + 15),
        Value::Word(size),
    ).insert(sym(home, n + 16), Value::Word(length * size)).insert(
        sym(home, n + 17),
        Value::Word(pointer + length * size),
    ).insert(sym(home, n + 19), Value::Word(pointer));
    assert(pointer + 0 * size == pointer);
    loop_visits_the_rest(
        world,
        joins2,
        env13,
        g,
        ctx,
        elem_layout,
        structure,
        pointer,
        length,
        capacity,
        0,
        trace,
        (fuel - 2) as nat,
    );
}

} // verus!
