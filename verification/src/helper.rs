//! The state of a generation pass: the table of specialized procedures, and
//! the request that hands out the procedure for an operation on a layout.

use vstd::prelude::*;
use crate::symbol::{Symbol, JoinPointId, IdentIds};
use crate::layout::{
    InLayout, LayoutV, UnionLayoutV, PtrWidth, LAYOUT_UNIT, free_rec_ptr_spec,
};
use crate::interner::LayoutInterner;
use crate::layout::UnionLayout;
use crate::ir::{Expr, ExprV, Call, CallV, CallType, CallTypeV, Proc, ProcV};

verus! {

/// The operation a procedure performs, for which it is looked up.
#[derive(Clone, Copy, PartialEq, Eq, Structural, Debug, Hash)]
pub enum OpKind {
    Inc,
    Dec,
    DecRef,
    Reset,
    ResetRef,
}

/// The operation being generated. `DecRef` carries the join point that
/// stands for the statement after the release: inlined code jumps there in
/// place of returning.
#[derive(Clone, Copy, PartialEq, Eq, Structural, Debug)]
pub enum HelperOp {
    Inc,
    Dec,
    DecRef(JoinPointId),
    Reset,
    ResetRef,
}

impl HelperOp {
    pub open spec fn spec_kind(self) -> OpKind {
        match self {
            HelperOp::Inc => OpKind::Inc,
            HelperOp::Dec => OpKind::Dec,
            HelperOp::DecRef(_) => OpKind::DecRef,
            HelperOp::Reset => OpKind::Reset,
            HelperOp::ResetRef => OpKind::ResetRef,
        }
    }

    #[verifier::when_used_as_spec(spec_kind)]
    pub fn kind(self) -> (k: OpKind)
        ensures
            k == self.spec_kind(),
    {
        match self {
            HelperOp::Inc => OpKind::Inc,
            HelperOp::Dec => OpKind::Dec,
            HelperOp::DecRef(_) => OpKind::DecRef,
            HelperOp::Reset => OpKind::Reset,
            HelperOp::ResetRef => OpKind::ResetRef,
        }
    }

    pub open spec fn spec_is_dec(self) -> bool {
        self is Dec
    }

    /// Whether children are released along with the value.
    #[verifier::when_used_as_spec(spec_is_dec)]
    pub fn is_dec(self) -> (r: bool)
        ensures
            r == self.spec_is_dec(),
    {
        matches!(self, HelperOp::Dec)
    }

    pub open spec fn spec_is_decref(self) -> bool {
        self is DecRef
    }

    #[verifier::when_used_as_spec(spec_is_decref)]
    pub fn is_decref(self) -> (r: bool)
        ensures
            r == self.spec_is_decref(),
    {
        matches!(self, HelperOp::DecRef(_))
    }
}

/// What a generator knows of where it stands: the operation, and the
/// recursive union it is inside of, if any, which is what a
/// `RecursivePointer` met there stands for.
#[derive(Clone, Copy, PartialEq, Eq, Structural, Debug)]
pub struct Context {
    pub op: HelperOp,
    pub recursive_union: Option<InLayout>,
}

/// A specialized procedure: what it is for, its name, and its body once that
/// has been generated.
#[derive(PartialEq, Eq, Debug)]
pub struct Specialization {
    pub op: OpKind,
    pub layout: InLayout,
    pub recursive_union: Option<InLayout>,
    pub symbol: Symbol,
    pub proc: Option<Proc>,
}

/// Mathematical form of a `Specialization`.
pub struct SpecializationV {
    pub op: OpKind,
    pub layout: InLayout,
    pub recursive_union: Option<InLayout>,
    pub symbol: Symbol,
    pub proc: Option<ProcV>,
}

impl View for Specialization {
    type V = SpecializationV;

    open spec fn view(&self) -> SpecializationV {
        SpecializationV {
            op: self.op,
            layout: self.layout,
            recursive_union: self.recursive_union,
            symbol: self.symbol,
            proc: match self.proc {
                Some(p) => Some(p@),
                None => None,
            },
        }
    }
}

/// The procedures requested so far in one compilation, in the order of
/// their first request.
pub struct CodeGenHelp {
    home: u32,
    target: PtrWidth,
    specializations: Vec<Specialization>,
}

/// Mathematical form of a `CodeGenHelp`.
pub struct CodeGenHelpV {
    pub home: u32,
    pub target: PtrWidth,
    pub specializations: Seq<SpecializationV>,
}

impl View for CodeGenHelp {
    type V = CodeGenHelpV;

    closed spec fn view(&self) -> CodeGenHelpV {
        CodeGenHelpV {
            home: self.home,
            target: self.target,
            specializations: Seq::new(
                self.specializations@.len(),
                |i: int| self.specializations@[i]@,
            ),
        }
    }
}

/// Everything a generator reads and changes beside its arguments.
pub struct GenV {
    pub help: CodeGenHelpV,
    /// Number of identifiers made so far in the home module.
    pub idents: nat,
    pub layouts: Seq<LayoutV>,
}

/// The state that the three objects of a pass make up.
pub open spec fn gen_state(
    root: &CodeGenHelp,
    ident_ids: &IdentIds,
    interner: &LayoutInterner,
) -> GenV {
    GenV { help: root@, idents: ident_ids.count(), layouts: interner@ }
}

/// The three objects belong to one valid pass.
pub open spec fn gen_wf(
    root: &CodeGenHelp,
    ident_ids: &IdentIds,
    interner: &LayoutInterner,
) -> bool {
    interner.wf() && interner.ptr_width() == root@.target
}

/// The symbol number `n` of the module `home`.
pub open spec fn sym(home: u32, n: nat) -> Symbol {
    Symbol { module_id: home, ident_id: n as u64 }
}

/// The state `g` after identifiers were made up to `n`.
pub open spec fn with_idents(g: GenV, n: nat) -> GenV {
    GenV { idents: n, ..g }
}

/// The next fresh symbol, and the state after it was made.
pub open spec fn create_symbol_v(g: GenV) -> (Symbol, GenV) {
    (
        Symbol { module_id: g.help.home, ident_id: g.idents as u64 },
        GenV { idents: g.idents + 1, ..g },
    )
}

/// The `k`-th of the symbols made from the state `g` on.
pub open spec fn fresh(g: GenV, k: nat) -> Symbol {
    Symbol { module_id: g.help.home, ident_id: (g.idents + k) as u64 }
}

/// The state after `k` symbols were made.
pub open spec fn skip(g: GenV, k: nat) -> GenV {
    GenV { idents: g.idents + k, ..g }
}

/// Interning a layout in the state `g`.
pub open spec fn insert_v(g: GenV, layout: LayoutV) -> (InLayout, GenV) {
    let (id, layouts) = crate::layout::intern(g.layouts, layout);
    (id, GenV { layouts, ..g })
}

/// A value of layout `child` can be handed to its procedure from code
/// generated under `ctx`: the layout exists, and where it is a
/// `RecursivePointer` the context knows the union it stands for.
pub open spec fn child_ready(ls: Seq<LayoutV>, child: InLayout, ctx: Context) -> bool {
    child < ls.len() && (ls[child as int] is RecursivePointer ==> ctx.recursive_union.is_some())
}

/// Every one of `fields` is ready in the sense of `child_ready`.
pub open spec fn fields_ready(ls: Seq<LayoutV>, fields: Seq<InLayout>, ctx: Context) -> bool {
    forall|k: int| 0 <= k < fields.len() ==> child_ready(ls, #[trigger] fields[k], ctx)
}

/// The name of the first procedure at or after place `from` that was
/// requested for this operation, layout and enclosing union.
pub open spec fn find_spec(
    specs: Seq<SpecializationV>,
    op: OpKind,
    layout: InLayout,
    recursive_union: Option<InLayout>,
    from: nat,
) -> Option<Symbol>
    decreases specs.len() - from,
{
    if from >= specs.len() {
        None
    } else if specs[from as int].op == op && specs[from as int].layout == layout
        && specs[from as int].recursive_union == recursive_union {
        Some(specs[from as int].symbol)
    } else {
        find_spec(specs, op, layout, recursive_union, from + 1)
    }
}

/// The enclosing union under which a procedure for `layout` is filed: the
/// one of the context where the layout holds a free `RecursivePointer`, and
/// none otherwise, because the procedure is then the same everywhere.
pub open spec fn filed_under(g: GenV, ctx: Context, layout: InLayout) -> Option<InLayout> {
    if free_rec_ptr_spec(g.layouts, layout) {
        ctx.recursive_union
    } else {
        None
    }
}

/// The name of the procedure for the operation of `ctx` on `layout`, and the
/// state after the request. A procedure requested before keeps its name; a
/// new one gets a fresh name and waits, without a body, at the end of the
/// table.
pub open spec fn find_or_create_proc_v(g: GenV, ctx: Context, layout: InLayout) -> (
    Symbol,
    GenV,
) {
    let under = filed_under(g, ctx, layout);
    match find_spec(g.help.specializations, ctx.op.kind(), layout, under, 0) {
        Some(symbol) => (symbol, g),
        None => {
            let (symbol, g1) = create_symbol_v(g);
            (
                symbol,
                GenV {
                    help: CodeGenHelpV {
                        specializations: g1.help.specializations.push(
                            SpecializationV {
                                op: ctx.op.kind(),
                                layout,
                                recursive_union: under,
                                symbol,
                                proc: None,
                            },
                        ),
                        ..g1.help
                    },
                    ..g1
                },
            )
        },
    }
}

/// The layout whose procedure a call on `called` reaches: inside a recursive
/// union a `RecursivePointer` stands for that union.
pub open spec fn resolve_rec_ptr(g: GenV, ctx: Context, called: InLayout) -> InLayout {
    if called < g.layouts.len() && g.layouts[called as int] is RecursivePointer {
        match ctx.recursive_union {
            Some(union_layout) => union_layout,
            None => called,
        }
    } else {
        called
    }
}

/// Layout of the result of the procedure for `op` on `layout`.
pub open spec fn proc_ret_layout(op: HelperOp, layout: InLayout) -> InLayout {
    match op {
        HelperOp::Reset | HelperOp::ResetRef => layout,
        _ => LAYOUT_UNIT,
    }
}

/// Layouts of the arguments of the procedure for `op` on `layout`.
pub open spec fn proc_arg_layouts(op: HelperOp, layout: InLayout, target: PtrWidth) -> Seq<
    InLayout,
> {
    match op {
        HelperOp::Inc => seq![layout, target.layout_isize()],
        _ => seq![layout],
    }
}

/// The call of the procedure for the operation of `ctx` on a value of layout
/// `called`, and the state after the request.
pub open spec fn call_specialized_op_v(
    g: GenV,
    ctx: Context,
    called: InLayout,
    arguments: Seq<Symbol>,
) -> (ExprV, GenV) {
    let layout = resolve_rec_ptr(g, ctx, called);
    let (name, g1) = find_or_create_proc_v(g, ctx, layout);
    (
        ExprV::Call(
            CallV {
                call_type: CallTypeV::ByName {
                    name,
                    ret_layout: proc_ret_layout(ctx.op, layout),
                    arg_layouts: proc_arg_layouts(ctx.op, layout, g.help.target),
                },
                arguments,
            },
        ),
        g1,
    )
}

/// The place of the first procedure at or after `from` that has no body.
pub open spec fn first_pending(specs: Seq<SpecializationV>, from: nat) -> Option<nat>
    decreases specs.len() - from,
{
    if from >= specs.len() {
        None
    } else if specs[from as int].proc.is_none() {
        Some(from)
    } else {
        first_pending(specs, from + 1)
    }
}

/// The table after the first procedure named `name`, at or after `from`,
/// got `proc` as its body.
pub open spec fn attach_v(specs: Seq<SpecializationV>, name: Symbol, proc: ProcV, from: nat) -> Seq<
    SpecializationV,
>
    decreases specs.len() - from,
{
    if from >= specs.len() {
        specs
    } else if specs[from as int].symbol == name {
        specs.update(from as int, SpecializationV { proc: Some(proc), ..specs[from as int] })
    } else {
        attach_v(specs, name, proc, from + 1)
    }
}

/// For each variant, the place of its first field that is a
/// `RecursivePointer`, if it has one.
pub open spec fn first_rec_ptr(ls: Seq<LayoutV>, fields: Seq<InLayout>, from: nat) -> Option<
    usize,
>
    decreases fields.len() - from,
{
    if from >= fields.len() {
        None
    } else if fields[from as int] < ls.len() && ls[fields[from as int] as int]
        is RecursivePointer {
        Some(from as usize)
    } else {
        first_rec_ptr(ls, fields, from + 1)
    }
}

/// The field of each variant through which a traversal of the union goes on
/// to the next value, or nothing where no variant of a recursive union has
/// such a field.
pub open spec fn tail_recursion_fields_v(ls: Seq<LayoutV>, u: UnionLayoutV) -> Option<
    Seq<Option<usize>>,
> {
    let tags = u.tags();
    if u.is_recursive() && exists|t: int|
        0 <= t < tags.len() && first_rec_ptr(ls, #[trigger] tags[t], 0).is_some() {
        Some(Seq::new(tags.len(), |t: int| first_rec_ptr(ls, tags[t], 0)))
    } else {
        None
    }
}

impl CodeGenHelp {
    /// A pass for the module `home` that has requested nothing yet.
    pub fn new(home: u32, target: PtrWidth) -> (root: CodeGenHelp)
        ensures
            root@ == (CodeGenHelpV { home, target, specializations: Seq::empty() }),
    {
        let root = CodeGenHelp { home, target, specializations: Vec::new() };
        assert(root@.specializations =~= Seq::empty());
        root
    }

    /// The module that the symbols of this pass belong to.
    pub fn home(&self) -> (home: u32)
        ensures
            home == self@.home,
    {
        self.home
    }

    /// Pointer width of the target that code is generated for.
    pub fn target(&self) -> (target: PtrWidth)
        ensures
            target == self@.target,
    {
        self.target
    }

    /// Layout of a signed machine word on the target.
    pub fn layout_isize(&self) -> (l: InLayout)
        ensures
            l == self@.target.layout_isize(),
    {
        self.target.layout_isize()
    }

    /// Number of procedures requested so far.
    pub fn num_specializations(&self) -> (n: usize)
        ensures
            n == self@.specializations.len(),
    {
        self.specializations.len()
    }

    /// The `i`-th procedure in the order of first request.
    pub fn specialization(&self, i: usize) -> (s: &Specialization)
        requires
            i < self@.specializations.len(),
        ensures
            s@ == self@.specializations[i as int],
    {
        &self.specializations[i]
    }

    /// The place of the first procedure that has no body yet.
    pub fn next_pending(&self) -> (r: Option<usize>)
        ensures
            match r {
                Some(i) => first_pending(self@.specializations, 0) == Some(i as nat) && i
                    < self@.specializations.len(),
                None => first_pending(self@.specializations, 0).is_none(),
            },
    {
        let ghost specs = self@.specializations;
        let mut i: usize = 0;
        while i < self.specializations.len()
            invariant
                i <= self.specializations.len(),
                specs == self@.specializations,
                first_pending(specs, 0) == first_pending(specs, i as nat),
            decreases self.specializations.len() - i,
        {
            assert(specs[i as int] == self.specializations@[i as int]@);
            if self.specializations[i].proc.is_none() {
                return Some(i);
            }
            i += 1;
        }
        None
    }

    /// Gives the first procedure named `name` its body.
    pub fn attach(&mut self, name: Symbol, proc: Proc)
        ensures
            final(self)@ == (CodeGenHelpV {
                specializations: attach_v(old(self)@.specializations, name, proc@, 0),
                ..old(self)@
            }),
    {
        let ghost specs = self@.specializations;
        let mut i: usize = 0;
        while i < self.specializations.len()
            invariant
                i <= self.specializations.len(),
                *self == *old(self),
                specs == self@.specializations,
                attach_v(specs, name, proc@, 0) == attach_v(specs, name, proc@, i as nat),
            decreases self.specializations.len() - i,
        {
            assert(specs[i as int] == self.specializations@[i as int]@);
            if self.specializations[i].symbol == name {
                let op = self.specializations[i].op;
                let layout = self.specializations[i].layout;
                let recursive_union = self.specializations[i].recursive_union;
                let ghost pv = proc@;
                self.specializations.set(
                    i,
                    Specialization { op, layout, recursive_union, symbol: name, proc: Some(proc) },
                );
                proof {
                    assert(self@.specializations =~= specs.update(
                        i as int,
                        SpecializationV { proc: Some(pv), ..specs[i as int] },
                    ));
                }
                return ;
            }
            i += 1;
        }
    }

    /// Makes a fresh symbol of the home module.
    pub fn create_symbol(&self, ident_ids: &mut IdentIds, debug_name: &'static str) -> (s: Symbol)
        ensures
            s == sym(self@.home, old(ident_ids).count()),
            final(ident_ids).count() == old(ident_ids).count() + 1,
    {
        let ident_id = ident_ids.add_str(debug_name);
        Symbol::new(self.home, ident_id)
    }

    /// Hands out the name of the procedure for the operation of `ctx` on
    /// `layout`. The first request makes the name and files the procedure,
    /// without a body yet; every later request finds it.
    pub fn find_or_create_proc(
        &mut self,
        ident_ids: &mut IdentIds,
        ctx: &Context,
        interner: &LayoutInterner,
        layout: InLayout,
    ) -> (name: Symbol)
        requires
            gen_wf(old(self), old(ident_ids), interner),
        ensures
            gen_wf(final(self), final(ident_ids), interner),
            (name, gen_state(final(self), final(ident_ids), interner)) == find_or_create_proc_v(
                gen_state(old(self), old(ident_ids), interner),
                *ctx,
                layout,
            ),
    {
        let under = if interner.has_free_rec_ptr(layout) {
            ctx.recursive_union
        } else {
            None
        };
        let op = ctx.op.kind();
        let ghost specs = self@.specializations;
        let mut i: usize = 0;
        while i < self.specializations.len()
            invariant
                i <= self.specializations.len(),
                *self == *old(self),
                *ident_ids == *old(ident_ids),
                gen_wf(self, ident_ids, interner),
                specs == self@.specializations,
                op == ctx.op.kind(),
                under == filed_under(gen_state(self, ident_ids, interner), *ctx, layout),
                find_spec(specs, op, layout, under, 0) == find_spec(specs, op, layout, under, i as nat),
            decreases self.specializations.len() - i,
        {
            let s = &self.specializations[i];
            assert(s@ == specs[i as int]);
            if s.op == op && s.layout == layout && s.recursive_union == under {
                return s.symbol;
            }
            i += 1;
        }
        let symbol = self.create_symbol(ident_ids, "#help");
        self.specializations.push(
            Specialization { op, layout, recursive_union: under, symbol, proc: None },
        );
        proof {
            assert(self@.specializations =~= specs.push(
                SpecializationV { op, layout, recursive_union: under, symbol, proc: None },
            ));
        }
        symbol
    }

    /// Builds the call of the procedure for the operation of `ctx` on a value
    /// of layout `called`, requesting the procedure.
    pub fn call_specialized_op(
        &mut self,
        ident_ids: &mut IdentIds,
        ctx: &Context,
        interner: &LayoutInterner,
        called: InLayout,
        arguments: Vec<Symbol>,
    ) -> (call: Expr)
        requires
            gen_wf(old(self), old(ident_ids), interner),
            called < interner@.len(),
            interner@[called as int] is RecursivePointer ==> ctx.recursive_union.is_some(),
        ensures
            gen_wf(final(self), final(ident_ids), interner),
            (call@, gen_state(final(self), final(ident_ids), interner)) == call_specialized_op_v(
                gen_state(old(self), old(ident_ids), interner),
                *ctx,
                called,
                arguments@,
            ),
    {
        let is_rec_ptr = match interner.get(called) {
            crate::layout::Layout::RecursivePointer(_) => true,
            _ => false,
        };
        let layout = if is_rec_ptr {
            match ctx.recursive_union {
                Some(union_layout) => union_layout,
                None => called,
            }
        } else {
            called
        };
        let name = self.find_or_create_proc(ident_ids, ctx, interner, layout);
        let ret_layout = match ctx.op {
            HelperOp::Reset | HelperOp::ResetRef => layout,
            _ => LAYOUT_UNIT,
        };
        let mut arg_layouts: Vec<InLayout> = Vec::new();
        arg_layouts.push(layout);
        match ctx.op {
            HelperOp::Inc => {
                arg_layouts.push(self.target.layout_isize());
            },
            _ => {},
        }
        proof {
            assert(arg_layouts@ =~= proc_arg_layouts(ctx.op, layout, self@.target));
        }
        Expr::Call(Call { call_type: CallType::ByName { name, ret_layout, arg_layouts }, arguments })
    }

    /// Finds, for each variant of a recursive union, the field through which
    /// a traversal goes on to the next value.
    pub fn union_tail_recursion_fields(interner: &LayoutInterner, union_layout: &UnionLayout) -> (r:
        Option<Vec<Option<usize>>>)
        requires
            interner.wf(),
        ensures
            match tail_recursion_fields_v(interner@, union_layout@) {
                Some(indices) => r.is_some() && r.unwrap()@ == indices,
                None => r.is_none(),
            },
            r matches Some(indices) ==> forall|t: int|
                0 <= t < indices@.len() ==> match #[trigger] indices@[t] {
                    Some(i) => i < union_layout@.tags()[t].len(),
                    None => true,
                },
    {
        if !union_layout.is_recursive() {
            return None;
        }
        let ghost tags = union_layout@.tags();
        let ghost ls = interner@;
        let mut indices: Vec<Option<usize>> = Vec::new();
        let mut can_use_tailrec = false;
        let mut t: usize = 0;
        while t < union_layout.num_tags()
            invariant
                t <= tags.len(),
                tags == union_layout@.tags(),
                ls == interner@,
                indices@.len() == t,
                forall|a: int| 0 <= a < t ==> indices@[a] == first_rec_ptr(ls, #[trigger] tags[a], 0),
                forall|a: int|
                    0 <= a < t ==> match #[trigger] indices@[a] {
                        Some(i) => i < tags[a].len(),
                        None => true,
                    },
                can_use_tailrec == exists|a: int|
                    0 <= a < t && first_rec_ptr(ls, #[trigger] tags[a], 0).is_some(),
            decreases tags.len() - t,
        {
            let fields = union_layout.tag_fields(t);
            let mut found: Option<usize> = None;
            let mut k: usize = 0;
            while k < fields.len() && found.is_none()
                invariant
                    k <= fields.len(),
                    ls == interner@,
                    match found {
                        Some(i) => first_rec_ptr(ls, fields@, 0) == Some(i) && i < fields@.len(),
                        None => first_rec_ptr(ls, fields@, 0) == first_rec_ptr(ls, fields@, k as nat),
                    },
                decreases fields.len() - k + (if found.is_none() { 1int } else { 0int }),
            {
                let f = fields[k];
                let is_rec_ptr = if f < interner.len() {
                    match interner.get(f) {
                        crate::layout::Layout::RecursivePointer(_) => true,
                        _ => false,
                    }
                } else {
                    false
                };
                if is_rec_ptr {
                    found = Some(k);
                } else {
                    k += 1;
                }
            }
            let ghost had = can_use_tailrec;
            if found.is_some() {
                can_use_tailrec = true;
            }
            indices.push(found);
            t += 1;
            proof {
                assert(can_use_tailrec == (had || first_rec_ptr(ls, tags[t - 1], 0).is_some()));
            }
        }
        if can_use_tailrec {
            proof {
                assert(indices@ =~= Seq::new(tags.len(), |t: int| first_rec_ptr(ls, tags[t], 0)));
            }
            Some(indices)
        } else {
            None
        }
    }
}

/// Requesting the procedure for an operation on a layout a second time
/// hands out the name that the first request handed out, and changes
/// nothing.
pub proof fn request_is_idempotent(g: GenV, ctx: Context, layout: InLayout)
    ensures
        ({
            let (first, g1) = find_or_create_proc_v(g, ctx, layout);
            let (second, g2) = find_or_create_proc_v(g1, ctx, layout);
            second == first && g2 == g1
        }),
{
    let under = filed_under(g, ctx, layout);
    let op = ctx.op.kind();
    let specs = g.help.specializations;
    let (first, g1) = find_or_create_proc_v(g, ctx, layout);
    assert(filed_under(g1, ctx, layout) == under);
    if find_spec(specs, op, layout, under, 0).is_none() {
        find_spec_after_push(
            specs,
            SpecializationV { op, layout, recursive_union: under, symbol: first, proc: None },
            0,
        );
    }
}

/// A search that found nothing from `from` on finds the entry that is put at
/// the end.
pub proof fn find_spec_after_push(specs: Seq<SpecializationV>, entry: SpecializationV, from: nat)
    requires
        from <= specs.len(),
        find_spec(specs, entry.op, entry.layout, entry.recursive_union, from).is_none(),
    ensures
        find_spec(specs.push(entry), entry.op, entry.layout, entry.recursive_union, from) == Some(
            entry.symbol,
        ),
    decreases specs.len() - from,
{
    if from < specs.len() {
        assert(specs.push(entry)[from as int] == specs[from as int]);
        find_spec_after_push(specs, entry, from + 1);
    } else {
        assert(specs.push(entry)[from as int] == entry);
    }
}

} // verus!
