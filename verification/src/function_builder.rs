//! The builder of a function body: it takes instructions one by one, writes
//! their bytes, and keeps a model of the operand stack beside them, so that
//! it can tell where a symbol was pushed.

use vstd::prelude::*;
use crate::symbol::Symbol;
use crate::bump_vec::{
    bytes_of, pairs_of, insertions_of, bytes_with_capacity, bytes_len, bytes_push, bytes_clear,
    bytes_get,
    pairs_with_capacity, pairs_len, pairs_push, pairs_clear, pairs_truncate, pairs_get,
    pairs_set, insertions_with_capacity, insertions_len, insertions_clear,
};
use crate::opcodes::{
    BLOCK, LOOP, IF, BR, BRIF, CALL, GETLOCAL, SETLOCAL, TEELOCAL, GETGLOBAL, SETGLOBAL,
    CURRENTMEMORY, GROWMEMORY, I32CONST, I64CONST, F32CONST, F64CONST,
};
use crate::opcodes::{
    DROP, ELSE, END, F32ABS, F32ADD, F32CEIL, F32CONVERTSI32, F32CONVERTSI64, F32CONVERTUI32,
    F32CONVERTUI64, F32COPYSIGN, F32DEMOTEF64, F32DIV, F32EQ, F32FLOOR, F32GE, F32GT, F32LE,
    F32LOAD, F32LT, F32MAX, F32MIN, F32MUL, F32NE, F32NEAREST, F32NEG, F32REINTERPRETI32,
    F32SQRT, F32STORE, F32SUB, F32TRUNC, F64ABS, F64ADD, F64CEIL, F64CONVERTSI32, F64CONVERTSI64,
    F64CONVERTUI32, F64CONVERTUI64, F64COPYSIGN, F64DIV, F64EQ, F64FLOOR, F64GE, F64GT, F64LE,
    F64LOAD, F64LT, F64MAX, F64MIN, F64MUL, F64NE, F64NEAREST, F64NEG, F64PROMOTEF32,
    F64REINTERPRETI64, F64SQRT, F64STORE, F64SUB, F64TRUNC, I32ADD, I32AND, I32CLZ, I32CTZ,
    I32DIVS, I32DIVU, I32EQ, I32EQZ, I32GES, I32GEU, I32GTS, I32GTU, I32LES, I32LEU, I32LOAD,
    I32LOAD16S, I32LOAD16U, I32LOAD8S, I32LOAD8U, I32LTS, I32LTU, I32MUL, I32NE, I32OR,
    I32POPCNT, I32REINTERPRETF32, I32REMS, I32REMU, I32ROTL, I32ROTR, I32SHL, I32SHRS, I32SHRU,
    I32STORE, I32STORE16, I32STORE8, I32SUB, I32TRUNCSF32, I32TRUNCSF64, I32TRUNCUF32,
    I32TRUNCUF64, I32WRAPI64, I32XOR, I64ADD, I64AND, I64CLZ, I64CTZ, I64DIVS, I64DIVU, I64EQ,
    I64EQZ, I64EXTENDSI32, I64EXTENDUI32, I64GES, I64GEU, I64GTS, I64GTU, I64LES, I64LEU,
    I64LOAD, I64LOAD16S, I64LOAD16U, I64LOAD32S, I64LOAD32U, I64LOAD8S, I64LOAD8U, I64LTS,
    I64LTU, I64MUL, I64NE, I64OR, I64POPCNT, I64REINTERPRETF64, I64REMS, I64REMU, I64ROTL,
    I64ROTR, I64SHL, I64SHRS, I64SHRU, I64STORE, I64STORE16, I64STORE32, I64STORE8, I64SUB,
    I64TRUNCSF32, I64TRUNCSF64, I64TRUNCUF32, I64TRUNCUF64, I64XOR, NOP, RETURN, SELECT,
    UNREACHABLE,
};
use parity_wasm::elements::Serialize;

verus! {

/// The global that holds the stack pointer.
pub const STACK_POINTER_GLOBAL_ID: u32 = 0;

/// Number of a local variable of a function.
#[derive(Clone, Copy, PartialEq, Eq, Structural, Debug)]
pub struct LocalId(pub u32);

#[derive(Clone, Copy, PartialEq, Eq, Structural, Debug)]
pub enum ValueType {
    I32,
    I64,
    F32,
    F64,
}

impl ValueType {
    pub open spec fn spec_as_byte(self) -> u8 {
        match self {
            ValueType::I32 => 0x7f,
            ValueType::I64 => 0x7e,
            ValueType::F32 => 0x7d,
            ValueType::F64 => 0x7c,
        }
    }

    /// The byte that stands for the type in a module.
    #[verifier::when_used_as_spec(spec_as_byte)]
    pub fn as_byte(self) -> (b: u8)
        ensures
            b == self.spec_as_byte(),
    {
        match self {
            ValueType::I32 => 0x7f,
            ValueType::I64 => 0x7e,
            ValueType::F32 => 0x7d,
            ValueType::F64 => 0x7c,
        }
    }
}

#[derive(Clone, Copy, PartialEq, Eq, Structural, Debug)]
pub enum BlockType {
    NoResult,
    Value(ValueType),
}

impl BlockType {
    pub open spec fn spec_as_byte(&self) -> u8 {
        match self {
            BlockType::NoResult => 0x40,
            BlockType::Value(t) => t.spec_as_byte(),
        }
    }

    /// The byte that stands for the type of a block in a module.
    #[verifier::when_used_as_spec(spec_as_byte)]
    pub fn as_byte(&self) -> (b: u8)
        ensures
            b == self.spec_as_byte(),
    {
        match self {
            BlockType::NoResult => 0x40,
            BlockType::Value(t) => t.as_byte(),
        }
    }
}

/// Alignment of a memory access, as the power of two that it is.
#[derive(Clone, Copy, PartialEq, Eq, Structural, Debug)]
pub enum Align {
    Bytes1,
    Bytes2,
    Bytes4,
    Bytes8,
    Bytes16,
    Bytes32,
    Bytes64,
}

impl Align {
    pub open spec fn spec_as_byte(self) -> u8 {
        match self {
            Align::Bytes1 => 0,
            Align::Bytes2 => 1,
            Align::Bytes4 => 2,
            Align::Bytes8 => 3,
            Align::Bytes16 => 4,
            Align::Bytes32 => 5,
            Align::Bytes64 => 6,
        }
    }

    #[verifier::when_used_as_spec(spec_as_byte)]
    pub fn as_byte(self) -> (b: u8)
        ensures
            b == self.spec_as_byte(),
    {
        match self {
            Align::Bytes1 => 0,
            Align::Bytes2 => 1,
            Align::Bytes4 => 2,
            Align::Bytes8 => 3,
            Align::Bytes16 => 4,
            Align::Bytes32 => 5,
            Align::Bytes64 => 6,
        }
    }
}

/// Where the value of a symbol is with respect to the operand stack.
#[derive(Clone, Copy, PartialEq, Eq, Structural, Debug)]
pub enum VirtualMachineSymbolState {
    NotYetPushed,
    /// Pushed when the code had this many bytes.
    Pushed { pushed_at: usize },
    Popped { pushed_at: usize },
}

/// An instruction of the code that sets up or takes down a stack frame.
#[derive(Clone, Copy, PartialEq, Eq, Structural, Debug)]
pub enum FrameInstruction {
    GetGlobal(u32),
    SetGlobal(u32),
    GetLocal(u32),
    TeeLocal(u32),
    I32Const(i32),
    I32Add,
    I32Sub,
}

/// The unsigned LEB128 encoding of a number: seven bits to a byte, the low
/// ones first, and the high bit of a byte set where more bytes follow.
pub open spec fn leb128(value: nat) -> Seq<u8>
    decreases value,
{
    if value < 128 {
        seq![value as u8]
    } else {
        seq![(128 + value % 128) as u8] + leb128(value / 128)
    }
}

/// The `n` low bytes of a number, the lowest first.
pub open spec fn le_bytes(value: nat, n: nat) -> Seq<u8>
    decreases n,
{
    if n == 0 {
        Seq::empty()
    } else {
        seq![(value % 256) as u8] + le_bytes(value / 256, (n - 1) as nat)
    }
}

/// The symbols that pairs of numbers stand for.
pub open spec fn symbols_view(pairs: Seq<(u32, u64)>) -> Seq<Symbol> {
    Seq::new(pairs.len(), |i: int| Symbol { module_id: pairs[i].0, ident_id: pairs[i].1 })
}

/// Mathematical form of a `FunctionBuilder`.
pub struct FunctionBuilderV {
    pub code: Seq<u8>,
    pub insertions: Seq<(usize, Seq<u8>)>,
    pub locals_and_frame_setup: Seq<u8>,
    pub inner_length: Seq<u8>,
    /// The operand stack as the builder models it, the top last.
    pub vm_stack: Seq<Symbol>,
}

/// The operand stack after an instruction took `pops` values and, with
/// `push`, left one that no symbol names.
pub open spec fn stack_after(stack: Seq<Symbol>, pops: nat, push: bool) -> Seq<Symbol> {
    let rest = stack.take(stack.len() - pops);
    if push {
        rest.push(Symbol::wasm_anonymous_stack_value())
    } else {
        rest
    }
}

/// The builder after an instruction of one byte.
pub open spec fn inst_v(
    b: FunctionBuilderV,
    pops: nat,
    push: bool,
    opcode: u8,
) -> FunctionBuilderV {
    FunctionBuilderV {
        code: b.code.push(opcode),
        vm_stack: stack_after(b.vm_stack, pops, push),
        ..b
    }
}

/// The builder after an instruction with one byte as its immediate.
pub open spec fn inst_imm8_v(
    b: FunctionBuilderV,
    pops: nat,
    push: bool,
    opcode: u8,
    immediate: u8,
) -> FunctionBuilderV {
    FunctionBuilderV {
        code: b.code.push(opcode).push(immediate),
        vm_stack: stack_after(b.vm_stack, pops, push),
        ..b
    }
}

/// The builder after an instruction with a number as its immediate.
pub open spec fn inst_imm_v(
    b: FunctionBuilderV,
    pops: nat,
    push: bool,
    opcode: u8,
    immediate: nat,
) -> FunctionBuilderV {
    FunctionBuilderV {
        code: b.code.push(opcode) + leb128(immediate),
        vm_stack: stack_after(b.vm_stack, pops, push),
        ..b
    }
}

/// The builder after an instruction that accesses memory.
pub open spec fn inst_mem_v(
    b: FunctionBuilderV,
    pops: nat,
    push: bool,
    opcode: u8,
    align: Align,
    offset: u32,
) -> FunctionBuilderV {
    FunctionBuilderV {
        code: b.code.push(opcode).push(align.as_byte()) + leb128(offset as nat),
        vm_stack: stack_after(b.vm_stack, pops, push),
        ..b
    }
}

/// The builder after a constant whose bytes are written as they are.
pub open spec fn inst_raw_v(
    b: FunctionBuilderV,
    opcode: u8,
    bits: nat,
    n: nat,
) -> FunctionBuilderV {
    FunctionBuilderV {
        code: b.code.push(opcode) + le_bytes(bits, n),
        vm_stack: stack_after(b.vm_stack, 0, true),
        ..b
    }
}

/// `symbols` are the topmost of `stack`, in their order.
pub open spec fn stack_ends_with(stack: Seq<Symbol>, symbols: Seq<Symbol>) -> bool {
    symbols.len() <= stack.len() && forall|i: int|
        0 <= i < symbols.len() ==> stack[stack.len() - symbols.len() + i] == symbols[i]
}

/// The runs of equal types in `types`: for each run its length and its type.
pub open spec fn run_lengths(types: Seq<ValueType>) -> Seq<(nat, ValueType)>
    decreases types.len(),
{
    if types.len() == 0 {
        Seq::empty()
    } else {
        let before = run_lengths(types.drop_last());
        if before.len() > 0 && before.last().1 == types.last() {
            before.drop_last().push((before.last().0 + 1, types.last()))
        } else {
            before.push((1nat, types.last()))
        }
    }
}

/// The bytes of some runs of locals: for each the length, then the type.
pub open spec fn runs_bytes(runs: Seq<(nat, ValueType)>) -> Seq<u8>
    decreases runs.len(),
{
    if runs.len() == 0 {
        Seq::empty()
    } else {
        runs_bytes(runs.drop_last()) + leb128(runs.last().0) + seq![runs.last().1.as_byte()]
    }
}

/// The declaration of the locals of a function: their number, then each run
/// of locals of one type.
pub open spec fn locals_bytes(types: Seq<ValueType>) -> Seq<u8> {
    leb128(types.len()) + runs_bytes(run_lengths(types))
}

/// `VarUint32::serialize` of parity-wasm, on a vector of bytes: the unsigned
/// LEB128 encoding of the number is put at the end.
#[verifier::external_body]
fn write_var_uint32(out: &mut Vec<u8>, value: u32)
    ensures
        final(out)@ == old(out)@ + leb128(value as nat),
{
    let _ = parity_wasm::elements::VarUint32::from(value).serialize(out);
}

/// `Local::serialize` of parity-wasm, on a vector of bytes: the count in
/// unsigned LEB128, then the byte of the type, are put at the end.
#[verifier::external_body]
fn write_local(out: &mut Vec<u8>, count: u32, value_type: ValueType)
    ensures
        final(out)@ == old(out)@ + leb128(count as nat) + seq![value_type.as_byte()],
{
    let ty = match value_type {
        ValueType::I32 => parity_wasm::elements::ValueType::I32,
        ValueType::I64 => parity_wasm::elements::ValueType::I64,
        ValueType::F32 => parity_wasm::elements::ValueType::F32,
        ValueType::F64 => parity_wasm::elements::ValueType::F64,
    };
    let _ = parity_wasm::elements::Local::new(count, ty).serialize(out);
}

pub struct FunctionBuilder<'a> {
    /// The main container for the instructions.
    code: bumpalo::collections::Vec<'a, u8>,
    /// Extra instructions to insert at given places when the body is
    /// finished.
    insertions: bumpalo::collections::Vec<'a, (usize, bumpalo::collections::Vec<'a, u8>)>,
    /// Bytes of the locals and of the code that sets up the stack frame.
    locals_and_frame_setup: bumpalo::collections::Vec<'a, u8>,
    /// Encoded length of locals and code together.
    inner_length: bumpalo::collections::Vec<'a, u8>,
    /// The model of the operand stack: which symbol each value is.
    vm_stack: bumpalo::collections::Vec<'a, (u32, u64)>,
}

impl<'a> View for FunctionBuilder<'a> {
    type V = FunctionBuilderV;

    closed spec fn view(&self) -> FunctionBuilderV {
        FunctionBuilderV {
            code: bytes_of(self.code),
            insertions: insertions_of(self.insertions),
            locals_and_frame_setup: bytes_of(self.locals_and_frame_setup),
            inner_length: bytes_of(self.inner_length),
            vm_stack: symbols_view(pairs_of(self.vm_stack)),
        }
    }
}

/// Writes a number in unsigned LEB128 at the end of `code`.
fn push_leb128(code: &mut bumpalo::collections::Vec<'_, u8>, number: u64)
    ensures
        bytes_of(*final(code)) == bytes_of(*old(code)) + leb128(number as nat),
{
    let ghost start = bytes_of(*code);
    let mut value = number;
    while value >= 0x80
        invariant
            bytes_of(*code) + leb128(value as nat) == start + leb128(number as nat),
        decreases value,
    {
        let byte = 0x80u8 | ((value & 0x7f) as u8);
        let ghost before = bytes_of(*code);
        let ghost v = value;
        assert(byte == (128 + v % 128) as u8) by (bit_vector)
            requires
                byte == 0x80u8 | ((v & 0x7f) as u8),
        ;
        assert(v >> 7 == v / 128) by (bit_vector);
        bytes_push(code, byte);
        value >>= 7;
        proof {
            assert(before.push(byte) + leb128(value as nat) =~= before + leb128(v as nat));
        }
    }
    let ghost before = bytes_of(*code);
    bytes_push(code, value as u8);
    proof {
        assert(before.push(value as u8) =~= before + leb128(value as nat));
    }
}

/// Writes the `n` low bytes of a number at the end of `code`, the lowest
/// first.
fn push_le_bytes(code: &mut bumpalo::collections::Vec<'_, u8>, bits: u64, n: u8)
    ensures
        bytes_of(*final(code)) == bytes_of(*old(code)) + le_bytes(bits as nat, n as nat),
{
    let ghost start = bytes_of(*code);
    let mut value = bits;
    let mut i: u8 = 0;
    while i < n
        invariant
            i <= n,
            bytes_of(*code) + le_bytes(value as nat, (n - i) as nat) == start + le_bytes(
                bits as nat,
                n as nat,
            ),
        decreases n - i,
    {
        let byte = (value & 0xff) as u8;
        let ghost before = bytes_of(*code);
        let ghost v = value;
        assert(byte == (v % 256) as u8) by (bit_vector)
            requires
                byte == (v & 0xff) as u8,
        ;
        assert(v >> 8 == v / 256) by (bit_vector);
        bytes_push(code, byte);
        value >>= 8;
        i += 1;
        proof {
            assert(before.push(byte) + le_bytes(value as nat, (n - i) as nat) =~= before
                + le_bytes(v as nat, (n - i + 1) as nat));
        }
    }
    proof {
        assert(bytes_of(*code) + le_bytes(value as nat, 0) =~= bytes_of(*code));
    }
}

impl<'a> FunctionBuilder<'a> {
    /// A builder that holds nothing, with its vectors in `arena`.
    pub fn new(arena: &'a bumpalo::Bump) -> (b: Self)
        ensures
            b@ == (FunctionBuilderV {
                code: Seq::empty(),
                insertions: Seq::empty(),
                locals_and_frame_setup: Seq::empty(),
                inner_length: Seq::empty(),
                vm_stack: Seq::empty(),
            }),
    {
        let b = FunctionBuilder {
            code: bytes_with_capacity(1024, arena),
            insertions: insertions_with_capacity(1024, arena),
            locals_and_frame_setup: bytes_with_capacity(32, arena),
            inner_length: bytes_with_capacity(5, arena),
            vm_stack: pairs_with_capacity(32, arena),
        };
        proof {
            assert(b@.vm_stack =~= Seq::empty());
        }
        b
    }

    /// The bytes of the instructions written so far.
    pub fn code(&self) -> (bytes: Vec<u8>)
        ensures
            bytes@ == self@.code,
    {
        let n = bytes_len(&self.code);
        let mut bytes: Vec<u8> = Vec::new();
        let mut i: usize = 0;
        while i < n
            invariant
                i <= n,
                n == bytes_of(self.code).len(),
                bytes@ == bytes_of(self.code).take(i as int),
            decreases n - i,
        {
            bytes.push(bytes_get(&self.code, i));
            i += 1;
            proof {
                assert(bytes@ =~= bytes_of(self.code).take(i as int));
            }
        }
        proof {
            assert(bytes@ =~= bytes_of(self.code));
        }
        bytes
    }

    /// The operand stack as the builder models it, the top last.
    pub fn vm_stack(&self) -> (symbols: Vec<Symbol>)
        ensures
            symbols@ == self@.vm_stack,
    {
        let n = pairs_len(&self.vm_stack);
        let mut symbols: Vec<Symbol> = Vec::new();
        let mut i: usize = 0;
        while i < n
            invariant
                i <= n,
                n == pairs_of(self.vm_stack).len(),
                symbols@ == symbols_view(pairs_of(self.vm_stack)).take(i as int),
            decreases n - i,
        {
            let pair = pairs_get(&self.vm_stack, i);
            symbols.push(Symbol::new(pair.0, pair.1));
            i += 1;
            proof {
                assert(symbols@ =~= symbols_view(pairs_of(self.vm_stack)).take(i as int));
            }
        }
        proof {
            assert(symbols@ =~= symbols_view(pairs_of(self.vm_stack)));
        }
        symbols
    }

    /// Forgets the code, the insertions and the operand stack.
    pub fn clear(&mut self)
        ensures
            final(self)@ == (FunctionBuilderV {
                code: Seq::empty(),
                insertions: Seq::empty(),
                vm_stack: Seq::empty(),
                ..old(self)@
            }),
    {
        bytes_clear(&mut self.code);
        insertions_clear(&mut self.insertions);
        pairs_clear(&mut self.vm_stack);
        proof {
            assert(self@.vm_stack =~= Seq::empty());
        }
    }

    /// Names the value on top of the operand stack, and tells where it was
    /// pushed.
    pub fn set_top_symbol(&mut self, sym: Symbol) -> (state: VirtualMachineSymbolState)
        requires
            old(self)@.vm_stack.len() > 0,
        ensures
            state == (VirtualMachineSymbolState::Pushed { pushed_at: old(self)@.code.len() as usize }),
            final(self)@ == (FunctionBuilderV {
                vm_stack: old(self)@.vm_stack.update(old(self)@.vm_stack.len() - 1, sym),
                ..old(self)@
            }),
    {
        let len = pairs_len(&self.vm_stack);
        let pushed_at = bytes_len(&self.code);
        let ghost before = pairs_of(self.vm_stack);
        pairs_set(&mut self.vm_stack, len - 1, (sym.module_id, sym.ident_id));
        proof {
            assert(self@.vm_stack =~= symbols_view(before).update(len - 1, sym));
        }
        VirtualMachineSymbolState::Pushed { pushed_at }
    }

    /// Whether `symbols` are the topmost values of the operand stack, in
    /// their order.
    pub fn verify_stack_match(&self, symbols: &[Symbol]) -> (r: bool)
        ensures
            r == stack_ends_with(self@.vm_stack, symbols@),
    {
        let n_symbols = symbols.len();
        let stack_depth = pairs_len(&self.vm_stack);
        if n_symbols > stack_depth {
            return false;
        }
        let offset = stack_depth - n_symbols;
        let mut i: usize = 0;
        while i < n_symbols
            invariant
                i <= n_symbols,
                n_symbols == symbols@.len(),
                stack_depth == self@.vm_stack.len(),
                offset == stack_depth - n_symbols,
                forall|j: int| 0 <= j < i ==> self@.vm_stack[offset + j] == symbols@[j],
            decreases n_symbols - i,
        {
            let pair = pairs_get(&self.vm_stack, offset + i);
            let sym = symbols[i];
            if pair.0 != sym.module_id || pair.1 != sym.ident_id {
                assert(self@.vm_stack[offset + i] != symbols@[i as int]);
                return false;
            }
            i += 1;
        }
        true
    }

    /// The instructions that open a stack frame of `frame_size` bytes and
    /// keep its address in a local.
    pub fn push_stack_frame(frame_size: i32, local_frame_pointer: LocalId) -> (code: [FrameInstruction; 5])
        ensures
            code@ == seq![
                FrameInstruction::GetGlobal(STACK_POINTER_GLOBAL_ID),
                FrameInstruction::I32Const(frame_size),
                FrameInstruction::I32Sub,
                FrameInstruction::TeeLocal(local_frame_pointer.0),
                FrameInstruction::SetGlobal(STACK_POINTER_GLOBAL_ID),
            ],
    {
        let code = [
            FrameInstruction::GetGlobal(STACK_POINTER_GLOBAL_ID),
            FrameInstruction::I32Const(frame_size),
            FrameInstruction::I32Sub,
            FrameInstruction::TeeLocal(local_frame_pointer.0),
            FrameInstruction::SetGlobal(STACK_POINTER_GLOBAL_ID),
        ];
        proof {
            assert(code@ =~= seq![
                FrameInstruction::GetGlobal(STACK_POINTER_GLOBAL_ID),
                FrameInstruction::I32Const(frame_size),
                FrameInstruction::I32Sub,
                FrameInstruction::TeeLocal(local_frame_pointer.0),
                FrameInstruction::SetGlobal(STACK_POINTER_GLOBAL_ID),
            ]);
        }
        code
    }

    /// The instructions that close a stack frame of `frame_size` bytes.
    pub fn pop_stack_frame(frame_size: i32, local_frame_pointer: LocalId) -> (code: [FrameInstruction; 4])
        ensures
            code@ == seq![
                FrameInstruction::GetLocal(local_frame_pointer.0),
                FrameInstruction::I32Const(frame_size),
                FrameInstruction::I32Add,
                FrameInstruction::SetGlobal(STACK_POINTER_GLOBAL_ID),
            ],
    {
        let code = [
            FrameInstruction::GetLocal(local_frame_pointer.0),
            FrameInstruction::I32Const(frame_size),
            FrameInstruction::I32Add,
            FrameInstruction::SetGlobal(STACK_POINTER_GLOBAL_ID),
        ];
        proof {
            assert(code@ =~= seq![
                FrameInstruction::GetLocal(local_frame_pointer.0),
                FrameInstruction::I32Const(frame_size),
                FrameInstruction::I32Add,
                FrameInstruction::SetGlobal(STACK_POINTER_GLOBAL_ID),
            ]);
        }
        code
    }

    /// Writes the declaration of the locals of a function: their number,
    /// then each run of locals of one type with its length.
    pub fn serialize_locals(writer: &mut Vec<u8>, local_types: &[ValueType])
        requires
            local_types@.len() <= u32::MAX,
        ensures
            final(writer)@ == old(writer)@ + locals_bytes(local_types@),
    {
        let ghost start = writer@;
        let ghost types = local_types@;
        let num_locals = local_types.len();
        write_var_uint32(writer, num_locals as u32);
        let ghost head = writer@;
        if num_locals > 0 {
            let mut batch_type = local_types[0];
            let mut batch_size: u32 = 0;
            let mut i: usize = 0;
            while i < num_locals
                invariant
                    i <= num_locals,
                    num_locals == types.len(),
                    types == local_types@,
                    num_locals <= u32::MAX,
                    batch_size <= i,
                    i == 0 ==> batch_size == 0 && batch_type == types[0] && writer@ == head,
                    i > 0 ==> run_lengths(types.take(i as int)).len() > 0 && run_lengths(
                        types.take(i as int),
                    ).last() == (batch_size as nat, batch_type) && writer@ == head + runs_bytes(
                        run_lengths(types.take(i as int)).drop_last(),
                    ),
                decreases num_locals - i,
            {
                let t = local_types[i];
                let ghost prefix = types.take(i as int);
                let ghost next = types.take(i + 1);
                proof {
                    assert(next.drop_last() =~= prefix);
                    assert(next.last() == t);
                }
                if t == batch_type {
                    batch_size += 1;
                    proof {
                        if i > 0 {
                            assert(run_lengths(next).drop_last() =~= run_lengths(
                                prefix,
                            ).drop_last());
                        } else {
                            assert(run_lengths(prefix) =~= Seq::empty());
                            assert(run_lengths(next).drop_last() =~= Seq::empty());
                            assert(writer@ =~= head + runs_bytes(Seq::empty()));
                        }
                    }
                } else {
                    let ghost before = writer@;
                    write_local(writer, batch_size, batch_type);
                    proof {
                        assert(run_lengths(next).drop_last() =~= run_lengths(prefix));
                        assert(run_lengths(prefix).drop_last().push(run_lengths(prefix).last())
                            =~= run_lengths(prefix));
                        assert(writer@ =~= head + runs_bytes(run_lengths(prefix)));
                    }
                    batch_type = t;
                    batch_size = 1;
                }
                i += 1;
            }
            let ghost runs = run_lengths(types);
            proof {
                assert(types.take(num_locals as int) =~= types);
                assert(runs.drop_last().push(runs.last()) =~= runs);
            }
            write_local(writer, batch_size, batch_type);
            proof {
                assert(writer@ =~= start + locals_bytes(types));
            }
        } else {
            proof {
                assert(types =~= Seq::empty());
                assert(writer@ =~= start + locals_bytes(types));
            }
        }
    }

    /// Finishes a function body. Finishing adds nothing: the builder and
    /// `final_code` stay as they are.
    pub fn finalize(&mut self, final_code: &mut Vec<FrameInstruction>)
        ensures
            final(self)@ == old(self)@,
            final(final_code)@ == old(final_code)@,
    {
    }

    /// Hands the function body to a writer. The bytes of the body are had
    /// from `code`; nothing is written here.
    pub fn serialize(&self, writer: &mut Vec<u8>)
        ensures
            final(writer)@ == old(writer)@,
    {
    }

    /// Total bytes, the encoded length among them.
    pub fn outer_len(&self) -> (n: usize)
        requires
            self@.code.len() + self@.insertions.len() + self@.locals_and_frame_setup.len()
                + self@.inner_length.len() <= usize::MAX,
        ensures
            n == self@.code.len() + self@.insertions.len() + self@.locals_and_frame_setup.len()
                + self@.inner_length.len(),
    {
        bytes_len(&self.code) + insertions_len(&self.insertions) + bytes_len(
            &self.locals_and_frame_setup,
        ) + bytes_len(&self.inner_length)
    }

    /// A call of a function that takes `pops` values and, with `push`,
    /// leaves one.
    pub fn call(&mut self, function_index: u32, pops: usize, push: bool)
        requires
            pops <= old(self)@.vm_stack.len(),
        ensures
            final(self)@ == inst_v(old(self)@, pops as nat, push, CALL),
    {
        self.inst(pops, push, CALL);
    }

    /// Writes an instruction of one byte and models what it does to the
    /// operand stack.
    fn inst(&mut self, pops: usize, push: bool, opcode: u8)
        requires
            pops <= old(self)@.vm_stack.len(),
        ensures
            final(self)@ == inst_v(old(self)@, pops as nat, push, opcode),
    {
        let ghost before = pairs_of(self.vm_stack);
        let new_len = pairs_len(&self.vm_stack) - pops;
        pairs_truncate(&mut self.vm_stack, new_len);
        if push {
            let anon = Symbol::wasm_anonymous_stack_value();
            pairs_push(&mut self.vm_stack, (anon.module_id, anon.ident_id));
        }
        bytes_push(&mut self.code, opcode);
        proof {
            assert(self@.vm_stack =~= stack_after(symbols_view(before), pops as nat, push));
        }
    }

    fn inst_imm8(&mut self, pops: usize, push: bool, opcode: u8, immediate: u8)
        requires
            pops <= old(self)@.vm_stack.len(),
        ensures
            final(self)@ == inst_imm8_v(old(self)@, pops as nat, push, opcode, immediate),
    {
        self.inst(pops, push, opcode);
        bytes_push(&mut self.code, immediate);
    }

    fn inst_imm32(&mut self, pops: usize, push: bool, opcode: u8, immediate: u32)
        requires
            pops <= old(self)@.vm_stack.len(),
        ensures
            final(self)@ == inst_imm_v(old(self)@, pops as nat, push, opcode, immediate as nat),
    {
        self.inst(pops, push, opcode);
        push_leb128(&mut self.code, immediate as u64);
    }

    fn inst_mem(&mut self, pops: usize, push: bool, opcode: u8, align: Align, offset: u32)
        requires
            pops <= old(self)@.vm_stack.len(),
        ensures
            final(self)@ == inst_mem_v(old(self)@, pops as nat, push, opcode, align, offset),
    {
        self.inst(pops, push, opcode);
        bytes_push(&mut self.code, align.as_byte());
        push_leb128(&mut self.code, offset as u64);
    }

    pub fn block(&mut self, ty: BlockType)
        ensures
            final(self)@ == inst_imm8_v(old(self)@, 0, false, BLOCK, ty.as_byte()),
    {
        self.inst_imm8(0, false, BLOCK, ty.as_byte());
    }

    pub fn loop_(&mut self, ty: BlockType)
        ensures
            final(self)@ == inst_imm8_v(old(self)@, 0, false, LOOP, ty.as_byte()),
    {
        self.inst_imm8(0, false, LOOP, ty.as_byte());
    }

    pub fn if_(&mut self, ty: BlockType)
        requires
            1 <= old(self)@.vm_stack.len(),
        ensures
            final(self)@ == inst_imm8_v(old(self)@, 1, false, IF, ty.as_byte()),
    {
        self.inst_imm8(1, false, IF, ty.as_byte());
    }

    pub fn br(&mut self, levels: u32)
        ensures
            final(self)@ == inst_imm_v(old(self)@, 0, false, BR, levels as nat),
    {
        self.inst_imm32(0, false, BR, levels);
    }

    pub fn br_if(&mut self, levels: u32)
        requires
            1 <= old(self)@.vm_stack.len(),
        ensures
            final(self)@ == inst_imm_v(old(self)@, 1, false, BRIF, levels as nat),
    {
        self.inst_imm32(1, false, BRIF, levels);
    }

    pub fn get_local(&mut self, id: LocalId)
        ensures
            final(self)@ == inst_imm_v(old(self)@, 0, true, GETLOCAL, id.0 as nat),
    {
        self.inst_imm32(0, true, GETLOCAL, id.0);
    }

    pub fn set_local(&mut self, id: LocalId)
        requires
            1 <= old(self)@.vm_stack.len(),
        ensures
            final(self)@ == inst_imm_v(old(self)@, 1, false, SETLOCAL, id.0 as nat),
    {
        self.inst_imm32(1, false, SETLOCAL, id.0);
    }

    pub fn tee_local(&mut self, id: LocalId)
        requires
            1 <= old(self)@.vm_stack.len(),
        ensures
            final(self)@ == inst_imm_v(old(self)@, 1, true, TEELOCAL, id.0 as nat),
    {
        self.inst_imm32(1, true, TEELOCAL, id.0);
    }

    pub fn get_global(&mut self, id: u32)
        ensures
            final(self)@ == inst_imm_v(old(self)@, 0, true, GETGLOBAL, id as nat),
    {
        self.inst_imm32(0, true, GETGLOBAL, id);
    }

    pub fn set_global(&mut self, id: u32)
        requires
            1 <= old(self)@.vm_stack.len(),
        ensures
            final(self)@ == inst_imm_v(old(self)@, 1, false, SETGLOBAL, id as nat),
    {
        self.inst_imm32(1, false, SETGLOBAL, id);
    }

    pub fn memory_size(&mut self)
        ensures
            final(self)@ == inst_imm8_v(old(self)@, 0, true, CURRENTMEMORY, 0),
    {
        self.inst_imm8(0, true, CURRENTMEMORY, 0);
    }

    pub fn memory_grow(&mut self)
        requires
            1 <= old(self)@.vm_stack.len(),
        ensures
            final(self)@ == inst_imm8_v(old(self)@, 1, true, GROWMEMORY, 0),
    {
        self.inst_imm8(1, true, GROWMEMORY, 0);
    }

    /// A constant of 32 bits: its bits are written as an unsigned number.
    pub fn i32_const(&mut self, x: i32)
        ensures
            final(self)@ == inst_imm_v(old(self)@, 0, true, I32CONST, (x as u32) as nat),
    {
        self.inst_imm32(0, true, I32CONST, #[verifier::truncate] (x as u32));
    }

    /// A constant of 64 bits: its bits are written as an unsigned number.
    pub fn i64_const(&mut self, x: i64)
        ensures
            final(self)@ == inst_imm_v(old(self)@, 0, true, I64CONST, (x as u64) as nat),
    {
        self.inst(0, true, I64CONST);
        push_leb128(&mut self.code, #[verifier::truncate] (x as u64));
    }

    /// A constant of 32 bits given by its bits, which are written as they
    /// are, the low byte first.
    pub fn f32_const(&mut self, bits: u32)
        ensures
            final(self)@ == inst_raw_v(old(self)@, F32CONST, bits as nat, 4),
    {
        self.inst(0, true, F32CONST);
        push_le_bytes(&mut self.code, bits as u64, 4);
    }

    /// A constant of 64 bits given by its bits, which are written as they
    /// are, the low byte first.
    pub fn f64_const(&mut self, bits: u64)
        ensures
            final(self)@ == inst_raw_v(old(self)@, F64CONST, bits as nat, 8),
    {
        self.inst(0, true, F64CONST);
        push_le_bytes(&mut self.code, bits, 8);
    }

    pub fn unreachable_(&mut self)
        ensures
            final(self)@ == inst_v(old(self)@, 0, false, UNREACHABLE),
    {
        self.inst(0, false, UNREACHABLE);
    }

    pub fn nop(&mut self)
        ensures
            final(self)@ == inst_v(old(self)@, 0, false, NOP),
    {
        self.inst(0, false, NOP);
    }

    pub fn else_(&mut self)
        ensures
            final(self)@ == inst_v(old(self)@, 0, false, ELSE),
    {
        self.inst(0, false, ELSE);
    }

    pub fn end(&mut self)
        ensures
            final(self)@ == inst_v(old(self)@, 0, false, END),
    {
        self.inst(0, false, END);
    }

    pub fn return_(&mut self)
        ensures
            final(self)@ == inst_v(old(self)@, 0, false, RETURN),
    {
        self.inst(0, false, RETURN);
    }

    pub fn drop(&mut self)
        requires
            1 <= old(self)@.vm_stack.len(),
        ensures
            final(self)@ == inst_v(old(self)@, 1, false, DROP),
    {
        self.inst(1, false, DROP);
    }

    pub fn select(&mut self)
        requires
            3 <= old(self)@.vm_stack.len(),
        ensures
            final(self)@ == inst_v(old(self)@, 3, true, SELECT),
    {
        self.inst(3, true, SELECT);
    }

    pub fn i32_load(&mut self, align: Align, offset: u32)
        requires
            1 <= old(self)@.vm_stack.len(),
        ensures
            final(self)@ == inst_mem_v(old(self)@, 1, true, I32LOAD, align, offset),
    {
        self.inst_mem(1, true, I32LOAD, align, offset);
    }

    pub fn i64_load(&mut self, align: Align, offset: u32)
        requires
            1 <= old(self)@.vm_stack.len(),
        ensures
            final(self)@ == inst_mem_v(old(self)@, 1, true, I64LOAD, align, offset),
    {
        self.inst_mem(1, true, I64LOAD, align, offset);
    }

    pub fn f32_load(&mut self, align: Align, offset: u32)
        requires
            1 <= old(self)@.vm_stack.len(),
        ensures
            final(self)@ == inst_mem_v(old(self)@, 1, true, F32LOAD, align, offset),
    {
        self.inst_mem(1, true, F32LOAD, align, offset);
    }

    pub fn f64_load(&mut self, align: Align, offset: u32)
        requires
            1 <= old(self)@.vm_stack.len(),
        ensures
            final(self)@ == inst_mem_v(old(self)@, 1, true, F64LOAD, align, offset),
    {
        self.inst_mem(1, true, F64LOAD, align, offset);
    }

    pub fn i32_load8_s(&mut self, align: Align, offset: u32)
        requires
            1 <= old(self)@.vm_stack.len(),
        ensures
            final(self)@ == inst_mem_v(old(self)@, 1, true, I32LOAD8S, align, offset),
    {
        self.inst_mem(1, true, I32LOAD8S, align, offset);
    }

    pub fn i32_load8_u(&mut self, align: Align, offset: u32)
        requires
            1 <= old(self)@.vm_stack.len(),
        ensures
            final(self)@ == inst_mem_v(old(self)@, 1, true, I32LOAD8U, align, offset),
    {
        self.inst_mem(1, true, I32LOAD8U, align, offset);
    }

    pub fn i32_load16_s(&mut self, align: Align, offset: u32)
        requires
            1 <= old(self)@.vm_stack.len(),
        ensures
            final(self)@ == inst_mem_v(old(self)@, 1, true, I32LOAD16S, align, offset),
    {
        self.inst_mem(1, true, I32LOAD16S, align, offset);
    }

    pub fn i32_load16_u(&mut self, align: Align, offset: u32)
        requires
            1 <= old(self)@.vm_stack.len(),
        ensures
            final(self)@ == inst_mem_v(old(self)@, 1, true, I32LOAD16U, align, offset),
    {
        self.inst_mem(1, true, I32LOAD16U, align, offset);
    }

    pub fn i64_load8_s(&mut self, align: Align, offset: u32)
        requires
            1 <= old(self)@.vm_stack.len(),
        ensures
            final(self)@ == inst_mem_v(old(self)@, 1, true, I64LOAD8S, align, offset),
    {
        self.inst_mem(1, true, I64LOAD8S, align, offset);
    }

    pub fn i64_load8_u(&mut self, align: Align, offset: u32)
        requires
            1 <= old(self)@.vm_stack.len(),
        ensures
            final(self)@ == inst_mem_v(old(self)@, 1, true, I64LOAD8U, align, offset),
    {
        self.inst_mem(1, true, I64LOAD8U, align, offset);
    }

    pub fn i64_load16_s(&mut self, align: Align, offset: u32)
        requires
            1 <= old(self)@.vm_stack.len(),
        ensures
            final(self)@ == inst_mem_v(old(self)@, 1, true, I64LOAD16S, align, offset),
    {
        self.inst_mem(1, true, I64LOAD16S, align, offset);
    }

    pub fn i64_load16_u(&mut self, align: Align, offset: u32)
        requires
            1 <= old(self)@.vm_stack.len(),
        ensures
            final(self)@ == inst_mem_v(old(self)@, 1, true, I64LOAD16U, align, offset),
    {
        self.inst_mem(1, true, I64LOAD16U, align, offset);
    }

    pub fn i64_load32_s(&mut self, align: Align, offset: u32)
        requires
            1 <= old(self)@.vm_stack.len(),
        ensures
            final(self)@ == inst_mem_v(old(self)@, 1, true, I64LOAD32S, align, offset),
    {
        self.inst_mem(1, true, I64LOAD32S, align, offset);
    }

    pub fn i64_load32_u(&mut self, align: Align, offset: u32)
        requires
            1 <= old(self)@.vm_stack.len(),
        ensures
            final(self)@ == inst_mem_v(old(self)@, 1, true, I64LOAD32U, align, offset),
    {
        self.inst_mem(1, true, I64LOAD32U, align, offset);
    }

    pub fn i32_store(&mut self, align: Align, offset: u32)
        requires
            2 <= old(self)@.vm_stack.len(),
        ensures
            final(self)@ == inst_mem_v(old(self)@, 2, false, I32STORE, align, offset),
    {
        self.inst_mem(2, false, I32STORE, align, offset);
    }

    pub fn i64_store(&mut self, align: Align, offset: u32)
        requires
            2 <= old(self)@.vm_stack.len(),
        ensures
            final(self)@ == inst_mem_v(old(self)@, 2, false, I64STORE, align, offset),
    {
        self.inst_mem(2, false, I64STORE, align, offset);
    }

    pub fn f32_store(&mut self, align: Align, offset: u32)
        requires
            2 <= old(self)@.vm_stack.len(),
        ensures
            final(self)@ == inst_mem_v(old(self)@, 2, false, F32STORE, align, offset),
    {
        self.inst_mem(2, false, F32STORE, align, offset);
    }

    pub fn f64_store(&mut self, align: Align, offset: u32)
        requires
            2 <= old(self)@.vm_stack.len(),
        ensures
            final(self)@ == inst_mem_v(old(self)@, 2, false, F64STORE, align, offset),
    {
        self.inst_mem(2, false, F64STORE, align, offset);
    }

    pub fn i32_store8(&mut self, align: Align, offset: u32)
        requires
            2 <= old(self)@.vm_stack.len(),
        ensures
            final(self)@ == inst_mem_v(old(self)@, 2, false, I32STORE8, align, offset),
    {
        self.inst_mem(2, false, I32STORE8, align, offset);
    }

    pub fn i32_store16(&mut self, align: Align, offset: u32)
        requires
            2 <= old(self)@.vm_stack.len(),
        ensures
            final(self)@ == inst_mem_v(old(self)@, 2, false, I32STORE16, align, offset),
    {
        self.inst_mem(2, false, I32STORE16, align, offset);
    }

    pub fn i64_store8(&mut self, align: Align, offset: u32)
        requires
            2 <= old(self)@.vm_stack.len(),
        ensures
            final(self)@ == inst_mem_v(old(self)@, 2, false, I64STORE8, align, offset),
    {
        self.inst_mem(2, false, I64STORE8, align, offset);
    }

    pub fn i64_store16(&mut self, align: Align, offset: u32)
        requires
            2 <= old(self)@.vm_stack.len(),
        ensures
            final(self)@ == inst_mem_v(old(self)@, 2, false, I64STORE16, align, offset),
    {
        self.inst_mem(2, false, I64STORE16, align, offset);
    }

    pub fn i64_store32(&mut self, align: Align, offset: u32)
        requires
            2 <= old(self)@.vm_stack.len(),
        ensures
            final(self)@ == inst_mem_v(old(self)@, 2, false, I64STORE32, align, offset),
    {
        self.inst_mem(2, false, I64STORE32, align, offset);
    }

    pub fn i32_eqz(&mut self)
        requires
            1 <= old(self)@.vm_stack.len(),
        ensures
            final(self)@ == inst_v(old(self)@, 1, true, I32EQZ),
    {
        self.inst(1, true, I32EQZ);
    }

    pub fn i32_eq(&mut self)
        requires
            2 <= old(self)@.vm_stack.len(),
        ensures
            final(self)@ == inst_v(old(self)@, 2, true, I32EQ),
    {
        self.inst(2, true, I32EQ);
    }

    pub fn i32_ne(&mut self)
        requires
            2 <= old(self)@.vm_stack.len(),
        ensures
            final(self)@ == inst_v(old(self)@, 2, true, I32NE),
    {
        self.inst(2, true, I32NE);
    }

    pub fn i32_lt_s(&mut self)
        requires
            2 <= old(self)@.vm_stack.len(),
        ensures
            final(self)@ == inst_v(old(self)@, 2, true, I32LTS),
    {
        self.inst(2, true, I32LTS);
    }

    pub fn i32_lt_u(&mut self)
        requires
            2 <= old(self)@.vm_stack.len(),
        ensures
            final(self)@ == inst_v(old(self)@, 2, true, I32LTU),
    {
        self.inst(2, true, I32LTU);
    }

    pub fn i32_gt_s(&mut self)
        requires
            2 <= old(self)@.vm_stack.len(),
        ensures
            final(self)@ == inst_v(old(self)@, 2, true, I32GTS),
    {
        self.inst(2, true, I32GTS);
    }

    pub fn i32_gt_u(&mut self)
        requires
            2 <= old(self)@.vm_stack.len(),
        ensures
            final(self)@ == inst_v(old(self)@, 2, true, I32GTU),
    {
        self.inst(2, true, I32GTU);
    }

    pub fn i32_le_s(&mut self)
        requires
            2 <= old(self)@.vm_stack.len(),
        ensures
            final(self)@ == inst_v(old(self)@, 2, true, I32LES),
    {
        self.inst(2, true, I32LES);
    }

    pub fn i32_le_u(&mut self)
        requires
            2 <= old(self)@.vm_stack.len(),
        ensures
            final(self)@ == inst_v(old(self)@, 2, true, I32LEU),
    {
        self.inst(2, true, I32LEU);
    }

    pub fn i32_ge_s(&mut self)
        requires
            2 <= old(self)@.vm_stack.len(),
        ensures
            final(self)@ == inst_v(old(self)@, 2, true, I32GES),
    {
        self.inst(2, true, I32GES);
    }

    pub fn i32_ge_u(&mut self)
        requires
            2 <= old(self)@.vm_stack.len(),
        ensures
            final(self)@ == inst_v(old(self)@, 2, true, I32GEU),
    {
        self.inst(2, true, I32GEU);
    }

    pub fn i64_eqz(&mut self)
        requires
            1 <= old(self)@.vm_stack.len(),
        ensures
            final(self)@ == inst_v(old(self)@, 1, true, I64EQZ),
    {
        self.inst(1, true, I64EQZ);
    }

    pub fn i64_eq(&mut self)
        requires
            2 <= old(self)@.vm_stack.len(),
        ensures
            final(self)@ == inst_v(old(self)@, 2, true, I64EQ),
    {
        self.inst(2, true, I64EQ);
    }

    pub fn i64_ne(&mut self)
        requires
            2 <= old(self)@.vm_stack.len(),
        ensures
            final(self)@ == inst_v(old(self)@, 2, true, I64NE),
    {
        self.inst(2, true, I64NE);
    }

    pub fn i64_lt_s(&mut self)
        requires
            2 <= old(self)@.vm_stack.len(),
        ensures
            final(self)@ == inst_v(old(self)@, 2, true, I64LTS),
    {
        self.inst(2, true, I64LTS);
    }

    pub fn i64_lt_u(&mut self)
        requires
            2 <= old(self)@.vm_stack.len(),
        ensures
            final(self)@ == inst_v(old(self)@, 2, true, I64LTU),
    {
        self.inst(2, true, I64LTU);
    }

    pub fn i64_gt_s(&mut self)
        requires
            2 <= old(self)@.vm_stack.len(),
        ensures
            final(self)@ == inst_v(old(self)@, 2, true, I64GTS),
    {
        self.inst(2, true, I64GTS);
    }

    pub fn i64_gt_u(&mut self)
        requires
            2 <= old(self)@.vm_stack.len(),
        ensures
            final(self)@ == inst_v(old(self)@, 2, true, I64GTU),
    {
        self.inst(2, true, I64GTU);
    }

    pub fn i64_le_s(&mut self)
        requires
            2 <= old(self)@.vm_stack.len(),
        ensures
            final(self)@ == inst_v(old(self)@, 2, true, I64LES),
    {
        self.inst(2, true, I64LES);
    }

    pub fn i64_le_u(&mut self)
        requires
            2 <= old(self)@.vm_stack.len(),
        ensures
            final(self)@ == inst_v(old(self)@, 2, true, I64LEU),
    {
        self.inst(2, true, I64LEU);
    }

    pub fn i64_ge_s(&mut self)
        requires
            2 <= old(self)@.vm_stack.len(),
        ensures
            final(self)@ == inst_v(old(self)@, 2, true, I64GES),
    {
        self.inst(2, true, I64GES);
    }

    pub fn i64_ge_u(&mut self)
        requires
            2 <= old(self)@.vm_stack.len(),
        ensures
            final(self)@ == inst_v(old(self)@, 2, true, I64GEU),
    {
        self.inst(2, true, I64GEU);
    }

    pub fn f32_eq(&mut self)
        requires
            2 <= old(self)@.vm_stack.len(),
        ensures
            final(self)@ == inst_v(old(self)@, 2, true, F32EQ),
    {
        self.inst(2, true, F32EQ);
    }

    pub fn f32_ne(&mut self)
        requires
            2 <= old(self)@.vm_stack.len(),
        ensures
            final(self)@ == inst_v(old(self)@, 2, true, F32NE),
    {
        self.inst(2, true, F32NE);
    }

    pub fn f32_lt(&mut self)
        requires
            2 <= old(self)@.vm_stack.len(),
        ensures
            final(self)@ == inst_v(old(self)@, 2, true, F32LT),
    {
        self.inst(2, true, F32LT);
    }

    pub fn f32_gt(&mut self)
        requires
            2 <= old(self)@.vm_stack.len(),
        ensures
            final(self)@ == inst_v(old(self)@, 2, true, F32GT),
    {
        self.inst(2, true, F32GT);
    }

    pub fn f32_le(&mut self)
        requires
            2 <= old(self)@.vm_stack.len(),
        ensures
            final(self)@ == inst_v(old(self)@, 2, true, F32LE),
    {
        self.inst(2, true, F32LE);
    }

    pub fn f32_ge(&mut self)
        requires
            2 <= old(self)@.vm_stack.len(),
        ensures
            final(self)@ == inst_v(old(self)@, 2, true, F32GE),
    {
        self.inst(2, true, F32GE);
    }

    pub fn f64_eq(&mut self)
        requires
            2 <= old(self)@.vm_stack.len(),
        ensures
            final(self)@ == inst_v(old(self)@, 2, true, F64EQ),
    {
        self.inst(2, true, F64EQ);
    }

    pub fn f64_ne(&mut self)
        requires
            2 <= old(self)@.vm_stack.len(),
        ensures
            final(self)@ == inst_v(old(self)@, 2, true, F64NE),
    {
        self.inst(2, true, F64NE);
    }

    pub fn f64_lt(&mut self)
        requires
            2 <= old(self)@.vm_stack.len(),
        ensures
            final(self)@ == inst_v(old(self)@, 2, true, F64LT),
    {
        self.inst(2, true, F64LT);
    }

    pub fn f64_gt(&mut self)
        requires
            2 <= old(self)@.vm_stack.len(),
        ensures
            final(self)@ == inst_v(old(self)@, 2, true, F64GT),
    {
        self.inst(2, true, F64GT);
    }

    pub fn f64_le(&mut self)
        requires
            2 <= old(self)@.vm_stack.len(),
        ensures
            final(self)@ == inst_v(old(self)@, 2, true, F64LE),
    {
        self.inst(2, true, F64LE);
    }

    pub fn f64_ge(&mut self)
        requires
            2 <= old(self)@.vm_stack.len(),
        ensures
            final(self)@ == inst_v(old(self)@, 2, true, F64GE),
    {
        self.inst(2, true, F64GE);
    }

    pub fn i32_clz(&mut self)
        requires
            1 <= old(self)@.vm_stack.len(),
        ensures
            final(self)@ == inst_v(old(self)@, 1, true, I32CLZ),
    {
        self.inst(1, true, I32CLZ);
    }

    pub fn i32_ctz(&mut self)
        requires
            1 <= old(self)@.vm_stack.len(),
        ensures
            final(self)@ == inst_v(old(self)@, 1, true, I32CTZ),
    {
        self.inst(1, true, I32CTZ);
    }

    pub fn i32_popcnt(&mut self)
        requires
            1 <= old(self)@.vm_stack.len(),
        ensures
            final(self)@ == inst_v(old(self)@, 1, true, I32POPCNT),
    {
        self.inst(1, true, I32POPCNT);
    }

    pub fn i32_add(&mut self)
        requires
            2 <= old(self)@.vm_stack.len(),
        ensures
            final(self)@ == inst_v(old(self)@, 2, true, I32ADD),
    {
        self.inst(2, true, I32ADD);
    }

    pub fn i32_sub(&mut self)
        requires
            2 <= old(self)@.vm_stack.len(),
        ensures
            final(self)@ == inst_v(old(self)@, 2, true, I32SUB),
    {
        self.inst(2, true, I32SUB);
    }

    pub fn i32_mul(&mut self)
        requires
            2 <= old(self)@.vm_stack.len(),
        ensures
            final(self)@ == inst_v(old(self)@, 2, true, I32MUL),
    {
        self.inst(2, true, I32MUL);
    }

    pub fn i32_div_s(&mut self)
        requires
            2 <= old(self)@.vm_stack.len(),
        ensures
            final(self)@ == inst_v(old(self)@, 2, true, I32DIVS),
    {
        self.inst(2, true, I32DIVS);
    }

    pub fn i32_div_u(&mut self)
        requires
            2 <= old(self)@.vm_stack.len(),
        ensures
            final(self)@ == inst_v(old(self)@, 2, true, I32DIVU),
    {
        self.inst(2, true, I32DIVU);
    }

    pub fn i32_rem_s(&mut self)
        requires
            2 <= old(self)@.vm_stack.len(),
        ensures
            final(self)@ == inst_v(old(self)@, 2, true, I32REMS),
    {
        self.inst(2, true, I32REMS);
    }

    pub fn i32_rem_u(&mut self)
        requires
            2 <= old(self)@.vm_stack.len(),
        ensures
            final(self)@ == inst_v(old(self)@, 2, true, I32REMU),
    {
        self.inst(2, true, I32REMU);
    }

    pub fn i32_and(&mut self)
        requires
            2 <= old(self)@.vm_stack.len(),
        ensures
            final(self)@ == inst_v(old(self)@, 2, true, I32AND),
    {
        self.inst(2, true, I32AND);
    }

    pub fn i32_or(&mut self)
        requires
            2 <= old(self)@.vm_stack.len(),
        ensures
            final(self)@ == inst_v(old(self)@, 2, true, I32OR),
    {
        self.inst(2, true, I32OR);
    }

    pub fn i32_xor(&mut self)
        requires
            2 <= old(self)@.vm_stack.len(),
        ensures
            final(self)@ == inst_v(old(self)@, 2, true, I32XOR),
    {
        self.inst(2, true, I32XOR);
    }

    pub fn i32_shl(&mut self)
        requires
            2 <= old(self)@.vm_stack.len(),
        ensures
            final(self)@ == inst_v(old(self)@, 2, true, I32SHL),
    {
        self.inst(2, true, I32SHL);
    }

    pub fn i32_shr_s(&mut self)
        requires
            2 <= old(self)@.vm_stack.len(),
        ensures
            final(self)@ == inst_v(old(self)@, 2, true, I32SHRS),
    {
        self.inst(2, true, I32SHRS);
    }

    pub fn i32_shr_u(&mut self)
        requires
            2 <= old(self)@.vm_stack.len(),
        ensures
            final(self)@ == inst_v(old(self)@, 2, true, I32SHRU),
    {
        self.inst(2, true, I32SHRU);
    }

    pub fn i32_rotl(&mut self)
        requires
            2 <= old(self)@.vm_stack.len(),
        ensures
            final(self)@ == inst_v(old(self)@, 2, true, I32ROTL),
    {
        self.inst(2, true, I32ROTL);
    }

    pub fn i32_rotr(&mut self)
        requires
            2 <= old(self)@.vm_stack.len(),
        ensures
            final(self)@ == inst_v(old(self)@, 2, true, I32ROTR),
    {
        self.inst(2, true, I32ROTR);
    }

    pub fn i64_clz(&mut self)
        requires
            1 <= old(self)@.vm_stack.len(),
        ensures
            final(self)@ == inst_v(old(self)@, 1, true, I64CLZ),
    {
        self.inst(1, true, I64CLZ);
    }

    pub fn i64_ctz(&mut self)
        requires
            1 <= old(self)@.vm_stack.len(),
        ensures
            final(self)@ == inst_v(old(self)@, 1, true, I64CTZ),
    {
        self.inst(1, true, I64CTZ);
    }

    pub fn i64_popcnt(&mut self)
        requires
            1 <= old(self)@.vm_stack.len(),
        ensures
            final(self)@ == inst_v(old(self)@, 1, true, I64POPCNT),
    {
        self.inst(1, true, I64POPCNT);
    }

    pub fn i64_add(&mut self)
        requires
            2 <= old(self)@.vm_stack.len(),
        ensures
            final(self)@ == inst_v(old(self)@, 2, true, I64ADD),
    {
        self.inst(2, true, I64ADD);
    }

    pub fn i64_sub(&mut self)
        requires
            2 <= old(self)@.vm_stack.len(),
        ensures
            final(self)@ == inst_v(old(self)@, 2, true, I64SUB),
    {
        self.inst(2, true, I64SUB);
    }

    pub fn i64_mul(&mut self)
        requires
            2 <= old(self)@.vm_stack.len(),
        ensures
            final(self)@ == inst_v(old(self)@, 2, true, I64MUL),
    {
        self.inst(2, true, I64MUL);
    }

    pub fn i64_div_s(&mut self)
        requires
            2 <= old(self)@.vm_stack.len(),
        ensures
            final(self)@ == inst_v(old(self)@, 2, true, I64DIVS),
    {
        self.inst(2, true, I64DIVS);
    }

    pub fn i64_div_u(&mut self)
        requires
            2 <= old(self)@.vm_stack.len(),
        ensures
            final(self)@ == inst_v(old(self)@, 2, true, I64DIVU),
    {
        self.inst(2, true, I64DIVU);
    }

    pub fn i64_rem_s(&mut self)
        requires
            2 <= old(self)@.vm_stack.len(),
        ensures
            final(self)@ == inst_v(old(self)@, 2, true, I64REMS),
    {
        self.inst(2, true, I64REMS);
    }

    pub fn i64_rem_u(&mut self)
        requires
            2 <= old(self)@.vm_stack.len(),
        ensures
            final(self)@ == inst_v(old(self)@, 2, true, I64REMU),
    {
        self.inst(2, true, I64REMU);
    }

    pub fn i64_and(&mut self)
        requires
            2 <= old(self)@.vm_stack.len(),
        ensures
            final(self)@ == inst_v(old(self)@, 2, true, I64AND),
    {
        self.inst(2, true, I64AND);
    }

    pub fn i64_or(&mut self)
        requires
            2 <= old(self)@.vm_stack.len(),
        ensures
            final(self)@ == inst_v(old(self)@, 2, true, I64OR),
    {
        self.inst(2, true, I64OR);
    }

    pub fn i64_xor(&mut self)
        requires
            2 <= old(self)@.vm_stack.len(),
        ensures
            final(self)@ == inst_v(old(self)@, 2, true, I64XOR),
    {
        self.inst(2, true, I64XOR);
    }

    pub fn i64_shl(&mut self)
        requires
            2 <= old(self)@.vm_stack.len(),
        ensures
            final(self)@ == inst_v(old(self)@, 2, true, I64SHL),
    {
        self.inst(2, true, I64SHL);
    }

    pub fn i64_shr_s(&mut self)
        requires
            2 <= old(self)@.vm_stack.len(),
        ensures
            final(self)@ == inst_v(old(self)@, 2, true, I64SHRS),
    {
        self.inst(2, true, I64SHRS);
    }

    pub fn i64_shr_u(&mut self)
        requires
            2 <= old(self)@.vm_stack.len(),
        ensures
            final(self)@ == inst_v(old(self)@, 2, true, I64SHRU),
    {
        self.inst(2, true, I64SHRU);
    }

    pub fn i64_rotl(&mut self)
        requires
            2 <= old(self)@.vm_stack.len(),
        ensures
            final(self)@ == inst_v(old(self)@, 2, true, I64ROTL),
    {
        self.inst(2, true, I64ROTL);
    }

    pub fn i64_rotr(&mut self)
        requires
            2 <= old(self)@.vm_stack.len(),
        ensures
            final(self)@ == inst_v(old(self)@, 2, true, I64ROTR),
    {
        self.inst(2, true, I64ROTR);
    }

    pub fn f32_abs(&mut self)
        requires
            1 <= old(self)@.vm_stack.len(),
        ensures
            final(self)@ == inst_v(old(self)@, 1, true, F32ABS),
    {
        self.inst(1, true, F32ABS);
    }

    pub fn f32_neg(&mut self)
        requires
            1 <= old(self)@.vm_stack.len(),
        ensures
            final(self)@ == inst_v(old(self)@, 1, true, F32NEG),
    {
        self.inst(1, true, F32NEG);
    }

    pub fn f32_ceil(&mut self)
        requires
            1 <= old(self)@.vm_stack.len(),
        ensures
            final(self)@ == inst_v(old(self)@, 1, true, F32CEIL),
    {
        self.inst(1, true, F32CEIL);
    }

    pub fn f32_floor(&mut self)
        requires
            1 <= old(self)@.vm_stack.len(),
        ensures
            final(self)@ == inst_v(old(self)@, 1, true, F32FLOOR),
    {
        self.inst(1, true, F32FLOOR);
    }

    pub fn f32_trunc(&mut self)
        requires
            1 <= old(self)@.vm_stack.len(),
        ensures
            final(self)@ == inst_v(old(self)@, 1, true, F32TRUNC),
    {
        self.inst(1, true, F32TRUNC);
    }

    pub fn f32_nearest(&mut self)
        requires
            1 <= old(self)@.vm_stack.len(),
        ensures
            final(self)@ == inst_v(old(self)@, 1, true, F32NEAREST),
    {
        self.inst(1, true, F32NEAREST);
    }

    pub fn f32_sqrt(&mut self)
        requires
            1 <= old(self)@.vm_stack.len(),
        ensures
            final(self)@ == inst_v(old(self)@, 1, true, F32SQRT),
    {
        self.inst(1, true, F32SQRT);
    }

    pub fn f32_add(&mut self)
        requires
            2 <= old(self)@.vm_stack.len(),
        ensures
            final(self)@ == inst_v(old(self)@, 2, true, F32ADD),
    {
        self.inst(2, true, F32ADD);
    }

    pub fn f32_sub(&mut self)
        requires
            2 <= old(self)@.vm_stack.len(),
        ensures
            final(self)@ == inst_v(old(self)@, 2, true, F32SUB),
    {
        self.inst(2, true, F32SUB);
    }

    pub fn f32_mul(&mut self)
        requires
            2 <= old(self)@.vm_stack.len(),
        ensures
            final(self)@ == inst_v(old(self)@, 2, true, F32MUL),
    {
        self.inst(2, true, F32MUL);
    }

    pub fn f32_div(&mut self)
        requires
            2 <= old(self)@.vm_stack.len(),
        ensures
            final(self)@ == inst_v(old(self)@, 2, true, F32DIV),
    {
        self.inst(2, true, F32DIV);
    }

    pub fn f32_min(&mut self)
        requires
            2 <= old(self)@.vm_stack.len(),
        ensures
            final(self)@ == inst_v(old(self)@, 2, true, F32MIN),
    {
        self.inst(2, true, F32MIN);
    }

    pub fn f32_max(&mut self)
        requires
            2 <= old(self)@.vm_stack.len(),
        ensures
            final(self)@ == inst_v(old(self)@, 2, true, F32MAX),
    {
        self.inst(2, true, F32MAX);
    }

    pub fn f32_copysign(&mut self)
        requires
            2 <= old(self)@.vm_stack.len(),
        ensures
            final(self)@ == inst_v(old(self)@, 2, true, F32COPYSIGN),
    {
        self.inst(2, true, F32COPYSIGN);
    }

    pub fn f64_abs(&mut self)
        requires
            1 <= old(self)@.vm_stack.len(),
        ensures
            final(self)@ == inst_v(old(self)@, 1, true, F64ABS),
    {
        self.inst(1, true, F64ABS);
    }

    pub fn f64_neg(&mut self)
        requires
            1 <= old(self)@.vm_stack.len(),
        ensures
            final(self)@ == inst_v(old(self)@, 1, true, F64NEG),
    {
        self.inst(1, true, F64NEG);
    }

    pub fn f64_ceil(&mut self)
        requires
            1 <= old(self)@.vm_stack.len(),
        ensures
            final(self)@ == inst_v(old(self)@, 1, true, F64CEIL),
    {
        self.inst(1, true, F64CEIL);
    }

    pub fn f64_floor(&mut self)
        requires
            1 <= old(self)@.vm_stack.len(),
        ensures
            final(self)@ == inst_v(old(self)@, 1, true, F64FLOOR),
    {
        self.inst(1, true, F64FLOOR);
    }

    pub fn f64_trunc(&mut self)
        requires
            1 <= old(self)@.vm_stack.len(),
        ensures
            final(self)@ == inst_v(old(self)@, 1, true, F64TRUNC),
    {
        self.inst(1, true, F64TRUNC);
    }

    pub fn f64_nearest(&mut self)
        requires
            1 <= old(self)@.vm_stack.len(),
        ensures
            final(self)@ == inst_v(old(self)@, 1, true, F64NEAREST),
    {
        self.inst(1, true, F64NEAREST);
    }

    pub fn f64_sqrt(&mut self)
        requires
            1 <= old(self)@.vm_stack.len(),
        ensures
            final(self)@ == inst_v(old(self)@, 1, true, F64SQRT),
    {
        self.inst(1, true, F64SQRT);
    }

    pub fn f64_add(&mut self)
        requires
            2 <= old(self)@.vm_stack.len(),
        ensures
            final(self)@ == inst_v(old(self)@, 2, true, F64ADD),
    {
        self.inst(2, true, F64ADD);
    }

    pub fn f64_sub(&mut self)
        requires
            2 <= old(self)@.vm_stack.len(),
        ensures
            final(self)@ == inst_v(old(self)@, 2, true, F64SUB),
    {
        self.inst(2, true, F64SUB);
    }

    pub fn f64_mul(&mut self)
        requires
            2 <= old(self)@.vm_stack.len(),
        ensures
            final(self)@ == inst_v(old(self)@, 2, true, F64MUL),
    {
        self.inst(2, true, F64MUL);
    }

    pub fn f64_div(&mut self)
        requires
            2 <= old(self)@.vm_stack.len(),
        ensures
            final(self)@ == inst_v(old(self)@, 2, true, F64DIV),
    {
        self.inst(2, true, F64DIV);
    }

    pub fn f64_min(&mut self)
        requires
            2 <= old(self)@.vm_stack.len(),
        ensures
            final(self)@ == inst_v(old(self)@, 2, true, F64MIN),
    {
        self.inst(2, true, F64MIN);
    }

    pub fn f64_max(&mut self)
        requires
            2 <= old(self)@.vm_stack.len(),
        ensures
            final(self)@ == inst_v(old(self)@, 2, true, F64MAX),
    {
        self.inst(2, true, F64MAX);
    }

    pub fn f64_copysign(&mut self)
        requires
            2 <= old(self)@.vm_stack.len(),
        ensures
            final(self)@ == inst_v(old(self)@, 2, true, F64COPYSIGN),
    {
        self.inst(2, true, F64COPYSIGN);
    }

    pub fn i32_wrap_i64(&mut self)
        requires
            1 <= old(self)@.vm_stack.len(),
        ensures
            final(self)@ == inst_v(old(self)@, 1, true, I32WRAPI64),
    {
        self.inst(1, true, I32WRAPI64);
    }

    pub fn i32_trunc_s_f32(&mut self)
        requires
            1 <= old(self)@.vm_stack.len(),
        ensures
            final(self)@ == inst_v(old(self)@, 1, true, I32TRUNCSF32),
    {
        self.inst(1, true, I32TRUNCSF32);
    }

    pub fn i32_trunc_u_f32(&mut self)
        requires
            1 <= old(self)@.vm_stack.len(),
        ensures
            final(self)@ == inst_v(old(self)@, 1, true, I32TRUNCUF32),
    {
        self.inst(1, true, I32TRUNCUF32);
    }

    pub fn i32_trunc_s_f64(&mut self)
        requires
            1 <= old(self)@.vm_stack.len(),
        ensures
            final(self)@ == inst_v(old(self)@, 1, true, I32TRUNCSF64),
    {
        self.inst(1, true, I32TRUNCSF64);
    }

    pub fn i32_trunc_u_f64(&mut self)
        requires
            1 <= old(self)@.vm_stack.len(),
        ensures
            final(self)@ == inst_v(old(self)@, 1, true, I32TRUNCUF64),
    {
        self.inst(1, true, I32TRUNCUF64);
    }

    pub fn i64_extend_s_i32(&mut self)
        requires
            1 <= old(self)@.vm_stack.len(),
        ensures
            final(self)@ == inst_v(old(self)@, 1, true, I64EXTENDSI32),
    {
        self.inst(1, true, I64EXTENDSI32);
    }

    pub fn i64_extend_u_i32(&mut self)
        requires
            1 <= old(self)@.vm_stack.len(),
        ensures
            final(self)@ == inst_v(old(self)@, 1, true, I64EXTENDUI32),
    {
        self.inst(1, true, I64EXTENDUI32);
    }

    pub fn i64_trunc_s_f32(&mut self)
        requires
            1 <= old(self)@.vm_stack.len(),
        ensures
            final(self)@ == inst_v(old(self)@, 1, true, I64TRUNCSF32),
    {
        self.inst(1, true, I64TRUNCSF32);
    }

    pub fn i64_trunc_u_f32(&mut self)
        requires
            1 <= old(self)@.vm_stack.len(),
        ensures
            final(self)@ == inst_v(old(self)@, 1, true, I64TRUNCUF32),
    {
        self.inst(1, true, I64TRUNCUF32);
    }

    pub fn i64_trunc_s_f64(&mut self)
        requires
            1 <= old(self)@.vm_stack.len(),
        ensures
            final(self)@ == inst_v(old(self)@, 1, true, I64TRUNCSF64),
    {
        self.inst(1, true, I64TRUNCSF64);
    }

    pub fn i64_trunc_u_f64(&mut self)
        requires
            1 <= old(self)@.vm_stack.len(),
        ensures
            final(self)@ == inst_v(old(self)@, 1, true, I64TRUNCUF64),
    {
        self.inst(1, true, I64TRUNCUF64);
    }

    pub fn f32_convert_s_i32(&mut self)
        requires
            1 <= old(self)@.vm_stack.len(),
        ensures
            final(self)@ == inst_v(old(self)@, 1, true, F32CONVERTSI32),
    {
        self.inst(1, true, F32CONVERTSI32);
    }

    pub fn f32_convert_u_i32(&mut self)
        requires
            1 <= old(self)@.vm_stack.len(),
        ensures
            final(self)@ == inst_v(old(self)@, 1, true, F32CONVERTUI32),
    {
        self.inst(1, true, F32CONVERTUI32);
    }

    pub fn f32_convert_s_i64(&mut self)
        requires
            1 <= old(self)@.vm_stack.len(),
        ensures
            final(self)@ == inst_v(old(self)@, 1, true, F32CONVERTSI64),
    {
        self.inst(1, true, F32CONVERTSI64);
    }

    pub fn f32_convert_u_i64(&mut self)
        requires
            1 <= old(self)@.vm_stack.len(),
        ensures
            final(self)@ == inst_v(old(self)@, 1, true, F32CONVERTUI64),
    {
        self.inst(1, true, F32CONVERTUI64);
    }

    pub fn f32_demote_f64(&mut self)
        requires
            1 <= old(self)@.vm_stack.len(),
        ensures
            final(self)@ == inst_v(old(self)@, 1, true, F32DEMOTEF64),
    {
        self.inst(1, true, F32DEMOTEF64);
    }

    pub fn f64_convert_s_i32(&mut self)
        requires
            1 <= old(self)@.vm_stack.len(),
        ensures
            final(self)@ == inst_v(old(self)@, 1, true, F64CONVERTSI32),
    {
        self.inst(1, true, F64CONVERTSI32);
    }

    pub fn f64_convert_u_i32(&mut self)
        requires
            1 <= old(self)@.vm_stack.len(),
        ensures
            final(self)@ == inst_v(old(self)@, 1, true, F64CONVERTUI32),
    {
        self.inst(1, true, F64CONVERTUI32);
    }

    pub fn f64_convert_s_i64(&mut self)
        requires
            1 <= old(self)@.vm_stack.len(),
        ensures
            final(self)@ == inst_v(old(self)@, 1, true, F64CONVERTSI64),
    {
        self.inst(1, true, F64CONVERTSI64);
    }

    pub fn f64_convert_u_i64(&mut self)
        requires
            1 <= old(self)@.vm_stack.len(),
        ensures
            final(self)@ == inst_v(old(self)@, 1, true, F64CONVERTUI64),
    {
        self.inst(1, true, F64CONVERTUI64);
    }

    pub fn f64_promote_f32(&mut self)
        requires
            1 <= old(self)@.vm_stack.len(),
        ensures
            final(self)@ == inst_v(old(self)@, 1, true, F64PROMOTEF32),
    {
        self.inst(1, true, F64PROMOTEF32);
    }

    pub fn i32_reinterpret_f32(&mut self)
        requires
            1 <= old(self)@.vm_stack.len(),
        ensures
            final(self)@ == inst_v(old(self)@, 1, true, I32REINTERPRETF32),
    {
        self.inst(1, true, I32REINTERPRETF32);
    }

    pub fn i64_reinterpret_f64(&mut self)
        requires
            1 <= old(self)@.vm_stack.len(),
        ensures
            final(self)@ == inst_v(old(self)@, 1, true, I64REINTERPRETF64),
    {
        self.inst(1, true, I64REINTERPRETF64);
    }

    pub fn f32_reinterpret_i32(&mut self)
        requires
            1 <= old(self)@.vm_stack.len(),
        ensures
            final(self)@ == inst_v(old(self)@, 1, true, F32REINTERPRETI32),
    {
        self.inst(1, true, F32REINTERPRETI32);
    }

    pub fn f64_reinterpret_i64(&mut self)
        requires
            1 <= old(self)@.vm_stack.len(),
        ensures
            final(self)@ == inst_v(old(self)@, 1, true, F64REINTERPRETI64),
    {
        self.inst(1, true, F64REINTERPRETI64);
    }
}

} // verus!
