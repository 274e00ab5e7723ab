//! Generated procedures run on a small model of the runtime: a heap of
//! allocations with reference-count headers, on a 64-bit target.

use std::collections::HashMap;

use rc_codegen::helper::{CodeGenHelp, Context, HelperOp};
use rc_codegen::interner::LayoutInterner;
use rc_codegen::ir::{Call, CallType, Expr, Literal, ModifyRc, Param, Stmt};
use rc_codegen::layout::{
    Builtin, InLayout, Layout, PtrWidth, UnionLayout, LAYOUT_I64, LAYOUT_STR,
};
use rc_codegen::low_level::LowLevel;
use rc_codegen::procs::generate_pending;
use rc_codegen::refcount::refcount_stmt;
use rc_codegen::symbol::{IdentIds, JoinPointId, Symbol};

const UNIQUE: i64 = i64::MIN;

#[derive(Clone, Debug, PartialEq)]
enum Val {
    Word(i64),
    Record(Vec<Val>),
}

#[derive(Clone, Debug, PartialEq)]
enum Ev {
    IsUnique(i64),
    Inc(i64, i64),
    Dec(i64, i64),
    Free(i64),
    Load(i64),
    Field(i64, u16, u64),
    Call(Symbol),
}

fn word(v: &Val) -> i64 {
    match v {
        Val::Word(w) => *w,
        Val::Record(_) => panic!("a word was expected"),
    }
}

fn base(p: i64) -> i64 {
    p & !7
}

struct Machine<'a> {
    interner: &'a LayoutInterner,
    root: &'a CodeGenHelp,
    /// What lies at an address, and the allocation the address belongs to.
    cells: HashMap<i64, (Val, i64)>,
    /// The header before each live allocation.
    headers: HashMap<i64, i64>,
    freed: Vec<i64>,
    events: Vec<Ev>,
    jumps: Vec<(JoinPointId, Vec<Val>)>,
    depth: usize,
    max_depth: usize,
}

impl<'a> Machine<'a> {
    fn new(interner: &'a LayoutInterner, root: &'a CodeGenHelp) -> Self {
        Machine {
            interner,
            root,
            cells: HashMap::new(),
            headers: HashMap::new(),
            freed: Vec::new(),
            events: Vec::new(),
            jumps: Vec::new(),
            depth: 0,
            max_depth: 0,
        }
    }

    fn allocate(&mut self, at: i64, refcount: i64) {
        self.headers.insert(at, UNIQUE + (refcount - 1));
    }

    fn store(&mut self, address: i64, value: Val, allocation: i64) {
        self.cells.insert(address, (value, allocation));
    }

    fn refcount(&self, at: i64) -> i64 {
        self.headers[&at] - UNIQUE + 1
    }

    fn live(&self, allocation: i64) {
        assert!(!self.freed.contains(&allocation), "use of freed allocation {allocation}");
    }

    fn load(&mut self, address: i64) -> Val {
        if let Some(header) = self.headers.get(&(address + 8)) {
            return Val::Word(*header);
        }
        let (value, allocation) = self.cells[&address].clone();
        self.live(allocation);
        self.events.push(Ev::Load(address));
        value
    }

    fn lowlevel(&mut self, op: LowLevel, args: &[Val]) -> Val {
        let truth = |b: bool| Val::Word(if b { 1 } else { 0 });
        match op {
            LowLevel::PtrCast => args[0].clone(),
            LowLevel::ListLen => match &args[0] {
                Val::Record(fields) => fields[1].clone(),
                _ => panic!("a list was expected"),
            },
            LowLevel::And => Val::Word(word(&args[0]) & word(&args[1])),
            LowLevel::NumSubSaturated => {
                Val::Word((word(&args[0]) as u64).saturating_sub(word(&args[1]) as u64) as i64)
            }
            LowLevel::NumAdd => Val::Word(word(&args[0]).wrapping_add(word(&args[1]))),
            LowLevel::NumMul => Val::Word(word(&args[0]).wrapping_mul(word(&args[1]))),
            LowLevel::NumGte => truth(word(&args[0]) >= word(&args[1])),
            LowLevel::NumLt => truth(word(&args[0]) < word(&args[1])),
            LowLevel::Eq => truth(word(&args[0]) == word(&args[1])),
            LowLevel::NumShiftLeftBy => {
                Val::Word(word(&args[0]).wrapping_shl(word(&args[1]) as u32))
            }
            LowLevel::RefCountIsUnique => {
                let p = word(&args[0]);
                self.events.push(Ev::IsUnique(p));
                if p == 0 {
                    return truth(false);
                }
                self.live(base(p));
                truth(self.headers[&base(p)] == UNIQUE)
            }
            LowLevel::RefCountIncDataPtr => {
                let p = word(&args[0]);
                let amount = word(&args[1]);
                self.events.push(Ev::Inc(p, amount));
                self.live(base(p));
                *self.headers.get_mut(&base(p)).unwrap() += amount;
                Val::Record(vec![])
            }
            LowLevel::RefCountDecDataPtr => {
                let p = word(&args[0]);
                self.events.push(Ev::Dec(p, word(&args[1])));
                if p == 0 {
                    return Val::Record(vec![]);
                }
                self.live(base(p));
                let header = self.headers[&base(p)];
                if header == UNIQUE {
                    self.headers.remove(&base(p));
                    self.freed.push(base(p));
                    self.events.push(Ev::Free(base(p)));
                } else {
                    self.headers.insert(base(p), header - 1);
                }
                Val::Record(vec![])
            }
        }
    }

    fn tag_id(&self, union_layout: InLayout, value: &Val) -> i64 {
        match self.interner.get(union_layout) {
            Layout::Union(UnionLayout::NonRecursive(_)) => match value {
                Val::Record(parts) => word(&parts[0]),
                _ => panic!("a flat union was expected"),
            },
            Layout::Union(UnionLayout::Recursive(_)) => word(value) & 7,
            Layout::Union(UnionLayout::NonNullableUnwrapped(_)) => 0,
            Layout::Union(UnionLayout::NullableWrapped { nullable_id, .. }) => {
                if word(value) == 0 {
                    *nullable_id as i64
                } else {
                    word(value) & 7
                }
            }
            Layout::Union(UnionLayout::NullableUnwrapped { nullable_id, .. }) => {
                let null = if *nullable_id { 1 } else { 0 };
                if word(value) == 0 {
                    null
                } else {
                    1 - null
                }
            }
            _ => panic!("a union was expected"),
        }
    }

    fn field(&mut self, union_layout: InLayout, value: &Val, tag_id: u16, index: u64) -> Val {
        match self.interner.get(union_layout) {
            Layout::Union(UnionLayout::NonRecursive(_)) => match value {
                Val::Record(parts) => match &parts[1] {
                    Val::Record(fields) => fields[index as usize].clone(),
                    _ => panic!("fields were expected"),
                },
                _ => panic!("a flat union was expected"),
            },
            _ => {
                let p = word(value);
                self.events.push(Ev::Field(p, tag_id, index));
                let (node, allocation) = self.cells[&base(p)].clone();
                self.live(allocation);
                match node {
                    Val::Record(fields) => fields[index as usize].clone(),
                    _ => panic!("fields were expected"),
                }
            }
        }
    }

    fn eval(&mut self, expr: &'a Expr, env: &HashMap<Symbol, Val>) -> Val {
        match expr {
            Expr::Literal(Literal::Int(i)) => Val::Word(*i as i64),
            Expr::Call(Call { call_type, arguments }) => {
                let args: Vec<Val> = arguments.iter().map(|a| env[a].clone()).collect();
                match call_type {
                    CallType::LowLevel { op } => self.lowlevel(*op, &args),
                    CallType::ByName { name, .. } => self.call(*name, args),
                }
            }
            Expr::Struct(fields) => Val::Record(fields.iter().map(|a| env[a].clone()).collect()),
            Expr::StructAtIndex { index, structure, .. } => match &env[structure] {
                Val::Record(fields) => fields[*index as usize].clone(),
                _ => panic!("a struct was expected"),
            },
            Expr::GetTagId { structure, union_layout } => {
                Val::Word(self.tag_id(*union_layout, &env[structure]))
            }
            Expr::UnionAtIndex { structure, tag_id, union_layout, index } => {
                let value = env[structure].clone();
                self.field(*union_layout, &value, *tag_id, *index)
            }
            Expr::ExprUnbox { symbol } => {
                let address = word(&env[symbol]);
                self.load(address)
            }
            Expr::NullPointer => Val::Word(0),
        }
    }

    fn call(&mut self, name: Symbol, args: Vec<Val>) -> Val {
        self.events.push(Ev::Call(name));
        let root = self.root;
        let mut found = None;
        for i in 0..root.num_specializations() {
            let s = root.specialization(i);
            if s.symbol == name {
                found = Some(s);
            }
        }
        let proc = found.expect("the procedure was requested").proc.as_ref().expect("it has a body");
        let mut env = HashMap::new();
        for (i, (_, symbol)) in proc.args.iter().enumerate() {
            env.insert(*symbol, args[i].clone());
        }
        self.depth += 1;
        if self.depth > self.max_depth {
            self.max_depth = self.depth;
        }
        let result = self.run(&proc.body, env);
        self.depth -= 1;
        result
    }

    fn run(&mut self, start: &'a Stmt, start_env: HashMap<Symbol, Val>) -> Val {
        let mut stmt = start;
        let mut env = start_env;
        let mut joins: HashMap<JoinPointId, (&'a Vec<Param>, &'a Stmt)> = HashMap::new();
        loop {
            match stmt {
                Stmt::Let(symbol, expr, _, next) => {
                    let value = self.eval(expr, &env);
                    env.insert(*symbol, value);
                    stmt = next;
                }
                Stmt::Switch { cond_symbol, branches, default_branch, .. } => {
                    let on = word(&env[cond_symbol]);
                    stmt = &default_branch.1;
                    for branch in branches.iter() {
                        if branch.0 as i64 == on {
                            stmt = &branch.2;
                            break;
                        }
                    }
                }
                Stmt::Ret(symbol) => return env[symbol].clone(),
                Stmt::Join { id, parameters, body, remainder } => {
                    joins.insert(*id, (parameters, body));
                    stmt = remainder;
                }
                Stmt::Jump(id, arguments) => {
                    let (parameters, body) = joins[id];
                    let values: Vec<Val> = arguments.iter().map(|a| env[a].clone()).collect();
                    for (p, v) in parameters.iter().zip(values.iter()) {
                        env.insert(p.symbol, v.clone());
                    }
                    self.jumps.push((*id, values));
                    stmt = body;
                }
            }
        }
    }
}

/// A pass for a 64-bit target and what it works on.
struct Pass {
    root: CodeGenHelp,
    ident_ids: IdentIds,
    interner: LayoutInterner,
}

fn pass() -> Pass {
    Pass {
        root: CodeGenHelp::new(7, PtrWidth::Bytes8),
        ident_ids: IdentIds::new(),
        interner: LayoutInterner::new(PtrWidth::Bytes8),
    }
}

fn value_symbol() -> Symbol {
    Symbol::new(3, 0)
}

/// The code for one marker on the value `value_symbol()`, followed by a
/// return of that value, with every procedure it needs generated.
fn marker(p: &mut Pass, layout: InLayout, modify: ModifyRc) -> Stmt {
    let jp = JoinPointId(Symbol::new(3, 1));
    let op = match modify {
        ModifyRc::Inc(_, _) => HelperOp::Inc,
        ModifyRc::Dec(_) => HelperOp::Dec,
        ModifyRc::DecRef(_) => HelperOp::DecRef(jp),
    };
    let mut ctx = Context { op, recursive_union: None };
    let stmt = refcount_stmt(
        &mut p.root,
        &mut p.ident_ids,
        &mut ctx,
        &mut p.interner,
        layout,
        &modify,
        Stmt::Ret(value_symbol()),
    );
    assert_eq!(generate_pending(&mut p.root, &mut p.ident_ids, &mut p.interner, 1000), Ok(true));
    stmt
}

fn env_with(value: Val) -> HashMap<Symbol, Val> {
    let mut env = HashMap::new();
    env.insert(value_symbol(), value);
    env
}

fn list_value(pointer: i64, length: i64, capacity: i64) -> Val {
    Val::Record(vec![Val::Word(pointer), Val::Word(length), Val::Word(capacity)])
}

fn loads(events: &[Ev]) -> usize {
    events.iter().filter(|e| matches!(e, Ev::Load(_) | Ev::Field(_, _, _))).count()
}

fn int_list(p: &mut Pass) -> InLayout {
    p.interner.insert(Layout::Builtin(Builtin::List(LAYOUT_I64)))
}

#[test]
fn list_of_integers_with_two_references_is_decremented() {
    let mut p = pass();
    let layout = int_list(&mut p);
    let stmt = marker(&mut p, layout, ModifyRc::Dec(value_symbol()));
    let mut m = Machine::new(&p.interner, &p.root);
    m.allocate(1000, 2);
    for i in 0..3 {
        m.store(1000 + 8 * i, Val::Word(i), 1000);
    }
    m.run(&stmt, env_with(list_value(1000, 3, 3)));
    assert_eq!(m.refcount(1000), 1);
    assert_eq!(loads(&m.events), 0);
    assert!(m.freed.is_empty());
}

#[test]
fn list_of_integers_with_one_reference_is_freed() {
    let mut p = pass();
    let layout = int_list(&mut p);
    let stmt = marker(&mut p, layout, ModifyRc::Dec(value_symbol()));
    let mut m = Machine::new(&p.interner, &p.root);
    m.allocate(1000, 1);
    for i in 0..3 {
        m.store(1000 + 8 * i, Val::Word(i), 1000);
    }
    m.run(&stmt, env_with(list_value(1000, 3, 3)));
    assert_eq!(loads(&m.events), 0);
    assert_eq!(m.freed, vec![1000]);
    assert!(m.headers.is_empty());
}

#[test]
fn list_of_strings_releases_big_strings_then_itself() {
    let mut p = pass();
    let layout = p.interner.insert(Layout::Builtin(Builtin::List(LAYOUT_STR)));
    let stmt = marker(&mut p, layout, ModifyRc::Dec(value_symbol()));
    let mut m = Machine::new(&p.interner, &p.root);
    m.allocate(1000, 1);
    m.allocate(2000, 1);
    m.allocate(3000, 1);
    // a string takes three words: 24 bytes
    m.store(1000, list_value(2000, 40, 64), 1000);
    m.store(1024, list_value(0x6f6c6c6568, 0, i64::MIN | 5), 1000);
    m.store(1048, list_value(3000, 50, 64), 1000);
    m.run(&stmt, env_with(list_value(1000, 3, 3)));
    assert_eq!(m.freed, vec![2000, 3000, 1000]);
    assert!(m.headers.is_empty());
    let visited: Vec<i64> = m
        .events
        .iter()
        .filter_map(|e| match e {
            Ev::Load(a) => Some(*a),
            _ => None,
        })
        .collect();
    assert_eq!(visited, vec![1000, 1024, 1048]);
    // the small string caused no header access
    let touched: Vec<i64> = m
        .events
        .iter()
        .filter_map(|e| match e {
            Ev::Dec(p, _) => Some(*p),
            _ => None,
        })
        .collect();
    assert_eq!(touched, vec![2000, 3000, 1000]);
}

fn cons_list(p: &mut Pass) -> InLayout {
    let id = p.interner.len();
    let rec = p.interner.insert(Layout::RecursivePointer(id + 1));
    let layout = p.interner.insert(Layout::Union(UnionLayout::NullableUnwrapped {
        nullable_id: false,
        other_fields: vec![LAYOUT_I64, rec],
    }));
    assert_eq!(layout, id + 1);
    layout
}

#[test]
fn long_cons_list_is_released_without_nested_calls() {
    let mut p = pass();
    let layout = cons_list(&mut p);
    let stmt = marker(&mut p, layout, ModifyRc::Dec(value_symbol()));
    let mut m = Machine::new(&p.interner, &p.root);
    let n: i64 = 100_000;
    for i in 0..n {
        let at = 1024 + 16 * i;
        let next = if i + 1 < n { at + 16 } else { 0 };
        m.allocate(at, 1);
        m.store(at, Val::Record(vec![Val::Word(i), Val::Word(next)]), at);
    }
    m.run(&stmt, env_with(Val::Word(1024)));
    assert_eq!(m.freed.len(), n as usize);
    assert!(m.headers.is_empty());
    assert_eq!(m.max_depth, 1);
    let calls = m.events.iter().filter(|e| matches!(e, Ev::Call(_))).count();
    assert_eq!(calls, 1);
}

fn tree(p: &mut Pass) -> InLayout {
    let id = p.interner.len();
    let rec = p.interner.insert(Layout::RecursivePointer(id + 1));
    let layout = p.interner.insert(Layout::Union(UnionLayout::Recursive(vec![
        vec![LAYOUT_I64],
        vec![rec, rec],
    ])));
    assert_eq!(layout, id + 1);
    layout
}

/// Nodes at 0x100, 0x200 and 0x300, leaves at 0x400 to 0x700:
/// 0x100 = Node(0x200, 0x300), 0x200 = Node(0x400, 0x500),
/// 0x300 = Node(0x600, 0x700). A pointer to a node carries tag id 1.
fn store_tree(m: &mut Machine) {
    let node = |a: i64| a | 1;
    for at in [0x100, 0x200, 0x300, 0x400, 0x500, 0x600, 0x700] {
        m.allocate(at, 1);
    }
    m.store(0x100, Val::Record(vec![Val::Word(node(0x200)), Val::Word(node(0x300))]), 0x100);
    m.store(0x200, Val::Record(vec![Val::Word(0x400), Val::Word(0x500)]), 0x200);
    m.store(0x300, Val::Record(vec![Val::Word(0x600), Val::Word(0x700)]), 0x300);
    for (i, at) in [0x400, 0x500, 0x600, 0x700].iter().enumerate() {
        m.store(*at, Val::Record(vec![Val::Word(i as i64)]), *at);
    }
}

#[test]
fn tree_is_released_whole() {
    let mut p = pass();
    let layout = tree(&mut p);
    let stmt = marker(&mut p, layout, ModifyRc::Dec(value_symbol()));
    let mut m = Machine::new(&p.interner, &p.root);
    store_tree(&mut m);
    m.run(&stmt, env_with(Val::Word(0x100 | 1)));
    let mut freed = m.freed.clone();
    freed.sort();
    assert_eq!(freed, vec![0x100, 0x200, 0x300, 0x400, 0x500, 0x600, 0x700]);
    assert!(m.headers.is_empty());
    // the child that is handed to a call is released before its parent;
    // the loop goes on to the other child, whose pointer it read before
    let place = |a: i64| m.freed.iter().position(|f| *f == a).unwrap();
    assert!(place(0x300) < place(0x100));
    assert!(place(0x700) < place(0x300));
    assert!(place(0x500) < place(0x200));
    assert!(place(0x600) < place(0x100));
    assert!(place(0x100) < place(0x200));
    for (at, tag) in [(0x100, 1u16), (0x200, 1), (0x300, 1)] {
        let read = m.events.iter().position(|e| *e == Ev::Field(at | 1, tag, 0)).unwrap();
        let released = m.events.iter().position(|e| *e == Ev::Free(at)).unwrap();
        assert!(read < released);
    }
}

#[test]
fn shared_tree_node_only_has_its_header_decremented() {
    let mut p = pass();
    let layout = tree(&mut p);
    let stmt = marker(&mut p, layout, ModifyRc::Dec(value_symbol()));
    let mut m = Machine::new(&p.interner, &p.root);
    store_tree(&mut m);
    m.allocate(0x100, 2);
    m.run(&stmt, env_with(Val::Word(0x100 | 1)));
    assert_eq!(m.refcount(0x100), 1);
    assert!(m.freed.is_empty());
    assert_eq!(loads(&m.events), 0);
    let own: Vec<&Ev> = m.events.iter().filter(|e| !matches!(e, Ev::Call(_))).collect();
    assert_eq!(own.len(), 2);
    assert_eq!(*own[0], Ev::IsUnique(0x100 | 1));
    assert!(matches!(own[1], Ev::Dec(p, _) if *p == 0x100 | 1));
}

fn reset_call(p: &mut Pass, layout: InLayout, op: HelperOp) -> Stmt {
    let ctx = Context { op, recursive_union: None };
    let call = p.root.call_specialized_op(
        &mut p.ident_ids,
        &ctx,
        &p.interner,
        layout,
        vec![value_symbol()],
    );
    let result = Symbol::new(3, 2);
    let stmt = Stmt::Let(result, call, layout, Box::new(Stmt::Ret(result)));
    assert_eq!(generate_pending(&mut p.root, &mut p.ident_ids, &mut p.interner, 1000), Ok(true));
    stmt
}

fn string_holder(p: &mut Pass) -> InLayout {
    p.interner.insert(Layout::Union(UnionLayout::NullableUnwrapped {
        nullable_id: false,
        other_fields: vec![LAYOUT_STR, LAYOUT_I64],
    }))
}

#[test]
fn reset_of_unique_value_releases_fields_and_returns_address() {
    let mut p = pass();
    let layout = string_holder(&mut p);
    let stmt = reset_call(&mut p, layout, HelperOp::Reset);
    let mut m = Machine::new(&p.interner, &p.root);
    m.allocate(0x800, 1);
    m.allocate(0x900, 2);
    m.store(0x800, Val::Record(vec![list_value(0x900, 10, 16), Val::Word(5)]), 0x800);
    // the pointer carries bits in its low end that are no part of the address
    let result = m.run(&stmt, env_with(Val::Word(0x800 | 1)));
    assert_eq!(result, Val::Word(0x800));
    assert_eq!(m.refcount(0x900), 1);
    assert_eq!(m.refcount(0x800), 1);
    assert!(m.freed.is_empty());
}

#[test]
fn reset_of_shared_value_decrements_it_and_returns_null() {
    let mut p = pass();
    let layout = string_holder(&mut p);
    let stmt = reset_call(&mut p, layout, HelperOp::Reset);
    let mut m = Machine::new(&p.interner, &p.root);
    m.allocate(0x800, 2);
    m.allocate(0x900, 2);
    m.store(0x800, Val::Record(vec![list_value(0x900, 10, 16), Val::Word(5)]), 0x800);
    let result = m.run(&stmt, env_with(Val::Word(0x800)));
    assert_eq!(result, Val::Word(0));
    assert_eq!(m.refcount(0x900), 2);
    assert_eq!(m.refcount(0x800), 1);
    assert!(m.freed.is_empty());
}

#[test]
fn resetref_of_unique_value_keeps_fields() {
    let mut p = pass();
    let layout = string_holder(&mut p);
    let stmt = reset_call(&mut p, layout, HelperOp::ResetRef);
    let mut m = Machine::new(&p.interner, &p.root);
    m.allocate(0x800, 1);
    m.allocate(0x900, 2);
    m.store(0x800, Val::Record(vec![list_value(0x900, 10, 16), Val::Word(5)]), 0x800);
    let result = m.run(&stmt, env_with(Val::Word(0x800 | 1)));
    assert_eq!(result, Val::Word(0x800));
    assert_eq!(m.refcount(0x900), 2);
    assert_eq!(m.refcount(0x800), 1);
}

#[test]
fn seamless_slice_changes_header_of_owner() {
    let mut p = pass();
    let layout = int_list(&mut p);
    let stmt = marker(&mut p, layout, ModifyRc::Dec(value_symbol()));
    let mut m = Machine::new(&p.interner, &p.root);
    m.allocate(1000, 2);
    // the capacity word of a slice: the sign bit, and 3 below it
    let capacity = i64::MIN | 3;
    assert!(capacity < 0);
    m.run(&stmt, env_with(list_value(1000, 5, capacity)));
    assert_eq!(m.refcount(1000), 1);
    assert_eq!(m.headers.len(), 1);
    assert_eq!(m.jumps.len(), 1);
    assert_eq!(m.jumps[0].1, vec![Val::Word(6)]);
    let decs: Vec<&Ev> = m.events.iter().filter(|e| matches!(e, Ev::Dec(_, _))).collect();
    assert_eq!(decs.len(), 1);
    assert_eq!(*decs[0], Ev::Dec(1000, 8));
}

#[test]
fn small_string_is_left_alone() {
    for modify in [ModifyRc::Inc(value_symbol(), 3), ModifyRc::Dec(value_symbol())] {
        let mut p = pass();
        let stmt = marker(&mut p, LAYOUT_STR, modify);
        let mut m = Machine::new(&p.interner, &p.root);
        m.run(&stmt, env_with(list_value(0x6f6c6c6568, 0, i64::MIN | 5)));
        let own: Vec<&Ev> = m.events.iter().filter(|e| !matches!(e, Ev::Call(_))).collect();
        assert!(own.is_empty());
    }
}

#[test]
fn big_string_is_incremented_by_amount() {
    let mut p = pass();
    let stmt = marker(&mut p, LAYOUT_STR, ModifyRc::Inc(value_symbol(), 3));
    let mut m = Machine::new(&p.interner, &p.root);
    m.allocate(2000, 1);
    m.run(&stmt, env_with(list_value(2000, 40, 64)));
    assert_eq!(m.refcount(2000), 4);
}

#[test]
fn empty_list_is_left_alone() {
    for modify in [ModifyRc::Inc(value_symbol(), 1), ModifyRc::Dec(value_symbol())] {
        let mut p = pass();
        let layout = p.interner.insert(Layout::Builtin(Builtin::List(LAYOUT_STR)));
        let stmt = marker(&mut p, layout, modify);
        let mut m = Machine::new(&p.interner, &p.root);
        m.run(&stmt, env_with(list_value(0, 0, 0)));
        let own: Vec<&Ev> = m.events.iter().filter(|e| !matches!(e, Ev::Call(_))).collect();
        assert!(own.is_empty());
    }
}

#[test]
fn decref_of_list_skips_elements() {
    let mut p = pass();
    let layout = p.interner.insert(Layout::Builtin(Builtin::List(LAYOUT_STR)));
    let stmt = marker(&mut p, layout, ModifyRc::DecRef(value_symbol()));
    let mut m = Machine::new(&p.interner, &p.root);
    m.allocate(1000, 1);
    m.allocate(2000, 1);
    m.store(1000, list_value(2000, 40, 64), 1000);
    let result = m.run(&stmt, env_with(list_value(1000, 1, 1)));
    assert_eq!(result, list_value(1000, 1, 1));
    assert_eq!(m.freed, vec![1000]);
    assert_eq!(m.refcount(2000), 1);
    assert_eq!(m.events, vec![Ev::Dec(1000, 8), Ev::Free(1000)]);
}

#[test]
fn decref_of_tree_skips_children() {
    let mut p = pass();
    let layout = tree(&mut p);
    let stmt = marker(&mut p, layout, ModifyRc::DecRef(value_symbol()));
    let mut m = Machine::new(&p.interner, &p.root);
    store_tree(&mut m);
    m.run(&stmt, env_with(Val::Word(0x100 | 1)));
    assert_eq!(m.freed, vec![0x100]);
    assert_eq!(m.headers.len(), 6);
    assert_eq!(loads(&m.events), 0);
}

#[test]
fn decref_of_struct_does_nothing() {
    let mut p = pass();
    let layout = p.interner.insert(Layout::Struct { field_layouts: vec![LAYOUT_STR, LAYOUT_I64] });
    let stmt = marker(&mut p, layout, ModifyRc::DecRef(value_symbol()));
    assert_eq!(stmt, Stmt::Ret(value_symbol()));
}

#[test]
fn balanced_increments_and_decrements_free_everything() {
    let mut p = pass();
    let layout = tree(&mut p);
    let inc = marker(&mut p, layout, ModifyRc::Inc(value_symbol(), 2));
    let dec = marker(&mut p, layout, ModifyRc::Dec(value_symbol()));
    let mut m = Machine::new(&p.interner, &p.root);
    store_tree(&mut m);
    let root = Val::Word(0x100 | 1);
    m.run(&inc, env_with(root.clone()));
    assert_eq!(m.refcount(0x100), 3);
    m.run(&dec, env_with(root.clone()));
    m.run(&dec, env_with(root.clone()));
    assert_eq!(m.refcount(0x100), 1);
    assert_eq!(m.headers.len(), 7);
    assert!(m.headers.iter().all(|(_, h)| *h == UNIQUE));
    assert!(m.freed.is_empty());
    m.run(&dec, env_with(root));
    assert!(m.headers.is_empty());
    assert_eq!(m.freed.len(), 7);
}

#[test]
fn balanced_increments_and_decrements_of_a_box() {
    let mut p = pass();
    let layout = p.interner.insert(Layout::Boxed(LAYOUT_STR));
    let inc = marker(&mut p, layout, ModifyRc::Inc(value_symbol(), 1));
    let dec = marker(&mut p, layout, ModifyRc::Dec(value_symbol()));
    let mut m = Machine::new(&p.interner, &p.root);
    m.allocate(0x500, 1);
    m.allocate(2000, 1);
    m.store(0x500, list_value(2000, 40, 64), 0x500);
    m.run(&inc, env_with(Val::Word(0x500)));
    m.run(&dec, env_with(Val::Word(0x500)));
    assert_eq!(m.refcount(0x500), 1);
    assert_eq!(m.refcount(2000), 1);
    m.run(&dec, env_with(Val::Word(0x500)));
    assert_eq!(m.freed, vec![2000, 0x500]);
    assert!(m.headers.is_empty());
}

#[test]
fn decrement_of_a_list_visits_its_elements_whether_shared_or_not() {
    let mut p = pass();
    let layout = p.interner.insert(Layout::Builtin(Builtin::List(LAYOUT_STR)));
    let dec = marker(&mut p, layout, ModifyRc::Dec(value_symbol()));
    let mut m = Machine::new(&p.interner, &p.root);
    m.allocate(1000, 2);
    m.allocate(2000, 2);
    m.store(1000, list_value(2000, 40, 64), 1000);
    m.run(&dec, env_with(list_value(1000, 1, 1)));
    assert_eq!(m.refcount(1000), 1);
    assert_eq!(m.refcount(2000), 1);
    assert!(m.freed.is_empty());
}

#[test]
fn struct_fields_are_released_last_first() {
    let mut p = pass();
    let list = p.interner.insert(Layout::Builtin(Builtin::List(LAYOUT_I64)));
    let layout = p.interner.insert(Layout::Struct { field_layouts: vec![LAYOUT_STR, LAYOUT_I64, list] });
    let stmt = marker(&mut p, layout, ModifyRc::Dec(value_symbol()));
    let mut m = Machine::new(&p.interner, &p.root);
    m.allocate(2000, 1);
    m.allocate(1000, 1);
    let value = Val::Record(vec![list_value(2000, 40, 64), Val::Word(9), list_value(1000, 3, 3)]);
    m.run(&stmt, env_with(value));
    assert_eq!(m.freed, vec![1000, 2000]);
}

#[test]
fn box_releases_what_it_holds_first() {
    let mut p = pass();
    let layout = p.interner.insert(Layout::Boxed(LAYOUT_STR));
    let stmt = marker(&mut p, layout, ModifyRc::Dec(value_symbol()));
    let mut m = Machine::new(&p.interner, &p.root);
    m.allocate(0x500, 1);
    m.allocate(2000, 1);
    m.store(0x500, list_value(2000, 40, 64), 0x500);
    m.run(&stmt, env_with(Val::Word(0x500)));
    assert_eq!(m.freed, vec![2000, 0x500]);
}

#[test]
fn shared_box_keeps_what_it_holds() {
    let mut p = pass();
    let layout = p.interner.insert(Layout::Boxed(LAYOUT_STR));
    let stmt = marker(&mut p, layout, ModifyRc::Dec(value_symbol()));
    let mut m = Machine::new(&p.interner, &p.root);
    m.allocate(0x500, 2);
    m.allocate(2000, 1);
    m.store(0x500, list_value(2000, 40, 64), 0x500);
    m.run(&stmt, env_with(Val::Word(0x500)));
    assert!(m.freed.is_empty());
    assert_eq!(m.refcount(0x500), 1);
    assert_eq!(loads(&m.events), 0);
}

#[test]
fn flat_union_releases_fields_of_its_variant() {
    let mut p = pass();
    let layout = p.interner.insert(Layout::Union(UnionLayout::NonRecursive(vec![
        vec![LAYOUT_I64],
        vec![LAYOUT_STR, LAYOUT_STR],
    ])));
    let stmt = marker(&mut p, layout, ModifyRc::Dec(value_symbol()));
    let mut m = Machine::new(&p.interner, &p.root);
    m.allocate(2000, 1);
    m.allocate(3000, 1);
    let value = Val::Record(vec![
        Val::Word(1),
        Val::Record(vec![list_value(2000, 40, 64), list_value(3000, 40, 64)]),
    ]);
    m.run(&stmt, env_with(value));
    assert_eq!(m.freed, vec![2000, 3000]);
    let mut m = Machine::new(&p.interner, &p.root);
    m.run(&stmt, env_with(Val::Record(vec![Val::Word(0), Val::Record(vec![Val::Word(4)])])));
    assert!(m.freed.is_empty());
}
