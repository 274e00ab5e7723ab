//! Symbols of the IR and the factory that mints fresh ones.

use vstd::prelude::*;

verus! {

/// The module that holds the built-in symbols.
pub const BUILTIN_MODULE: u32 = 0;

/// An identifier of the IR: the module it belongs to and its number there.
#[derive(Clone, Copy, PartialEq, Eq, Structural, Debug, Hash)]
pub struct Symbol {
    pub module_id: u32,
    pub ident_id: u64,
}

impl Symbol {
    /// First argument of every generated procedure.
    pub open spec fn spec_arg_1() -> Symbol {
        Symbol { module_id: BUILTIN_MODULE, ident_id: 1 }
    }

    /// Second argument of a generated `inc` procedure: the amount.
    pub open spec fn spec_arg_2() -> Symbol {
        Symbol { module_id: BUILTIN_MODULE, ident_id: 2 }
    }

    /// Stands for a value on the operand stack that no symbol names.
    pub open spec fn spec_wasm_anonymous_stack_value() -> Symbol {
        Symbol { module_id: BUILTIN_MODULE, ident_id: 3 }
    }

    #[verifier::when_used_as_spec(spec_arg_1)]
    pub fn arg_1() -> (s: Symbol)
        ensures
            s == Symbol::spec_arg_1(),
    {
        Symbol { module_id: BUILTIN_MODULE, ident_id: 1 }
    }

    #[verifier::when_used_as_spec(spec_arg_2)]
    pub fn arg_2() -> (s: Symbol)
        ensures
            s == Symbol::spec_arg_2(),
    {
        Symbol { module_id: BUILTIN_MODULE, ident_id: 2 }
    }

    #[verifier::when_used_as_spec(spec_wasm_anonymous_stack_value)]
    pub fn wasm_anonymous_stack_value() -> (s: Symbol)
        ensures
            s == Symbol::spec_wasm_anonymous_stack_value(),
    {
        Symbol { module_id: BUILTIN_MODULE, ident_id: 3 }
    }

    pub fn new(module_id: u32, ident_id: u64) -> (s: Symbol)
        ensures
            s == (Symbol { module_id, ident_id }),
    {
        Symbol { module_id, ident_id }
    }
}

/// Name of a join point.
#[derive(Clone, Copy, PartialEq, Eq, Structural, Debug, Hash)]
pub struct JoinPointId(pub Symbol);

/// The identifiers of one module. A new identifier gets the next number, so
/// two identifiers made by one factory never coincide.
pub struct IdentIds {
    names: Vec<&'static str>,
}

impl IdentIds {
    /// The names of the identifiers made so far, in the order they were made.
    pub closed spec fn names(&self) -> Seq<&'static str> {
        self.names@
    }

    /// How many identifiers were made so far.
    pub open spec fn count(&self) -> nat {
        self.names().len()
    }

    pub fn new() -> (ids: IdentIds)
        ensures
            ids.count() == 0,
    {
        IdentIds { names: Vec::new() }
    }

    /// Makes a new identifier; `name` is kept for diagnostics only.
    pub fn add_str(&mut self, name: &'static str) -> (id: u64)
        ensures
            id == old(self).count(),
            final(self).names() == old(self).names().push(name),
    {
        let id = self.names.len() as u64;
        self.names.push(name);
        id
    }

    /// How many identifiers were made so far.
    pub fn len(&self) -> (n: usize)
        ensures
            n == self.count(),
    {
        self.names.len()
    }

    /// The diagnostic name of an identifier this factory made.
    pub fn name_of(&self, id: u64) -> (name: Option<&'static str>)
        ensures
            name == if id < self.count() {
                Some(self.names()[id as int])
            } else {
                None
            },
    {
        if id < self.names.len() as u64 {
            Some(self.names[id as usize])
        } else {
            None
        }
    }
}

} // verus!
