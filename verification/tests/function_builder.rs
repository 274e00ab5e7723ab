use bumpalo::Bump;
use rc_codegen::function_builder::{
    Align, BlockType, FrameInstruction, FunctionBuilder, LocalId, ValueType,
    VirtualMachineSymbolState, STACK_POINTER_GLOBAL_ID,
};
use rc_codegen::opcodes::{
    BLOCK, CALL, DROP, END, F32CONST, F64CONST, GETLOCAL, I32ADD, I32CONST, I32LOAD, I64CONST,
    I64STORE, IF, NOP, SELECT,
};
use rc_codegen::symbol::Symbol;

fn anon() -> Symbol {
    Symbol::wasm_anonymous_stack_value()
}

#[test]
fn new_builder_holds_nothing() {
    let arena = Bump::new();
    let b = FunctionBuilder::new(&arena);
    assert_eq!(b.code(), Vec::<u8>::new());
    assert_eq!(b.vm_stack(), Vec::<Symbol>::new());
    assert_eq!(b.outer_len(), 0);
}

#[test]
fn value_and_block_types_have_their_bytes() {
    assert_eq!(ValueType::I32.as_byte(), 0x7f);
    assert_eq!(ValueType::I64.as_byte(), 0x7e);
    assert_eq!(ValueType::F32.as_byte(), 0x7d);
    assert_eq!(ValueType::F64.as_byte(), 0x7c);
    assert_eq!(BlockType::NoResult.as_byte(), 0x40);
    assert_eq!(BlockType::Value(ValueType::F64).as_byte(), 0x7c);
    assert_eq!(Align::Bytes1.as_byte(), 0);
    assert_eq!(Align::Bytes8.as_byte(), 3);
    assert_eq!(Align::Bytes64.as_byte(), 6);
}

#[test]
fn instructions_write_bytes_and_move_the_stack() {
    let arena = Bump::new();
    let mut b = FunctionBuilder::new(&arena);
    b.get_local(LocalId(3));
    b.i32_const(7);
    b.i32_add();
    assert_eq!(b.code(), vec![GETLOCAL, 3, I32CONST, 7, I32ADD]);
    assert_eq!(b.vm_stack(), vec![anon()]);
    b.drop();
    assert_eq!(b.vm_stack(), Vec::<Symbol>::new());
    b.nop();
    b.end();
    assert_eq!(b.code(), vec![GETLOCAL, 3, I32CONST, 7, I32ADD, DROP, NOP, END]);
    assert_eq!(b.outer_len(), 8);
}

#[test]
fn select_takes_three_and_leaves_one() {
    let arena = Bump::new();
    let mut b = FunctionBuilder::new(&arena);
    b.i32_const(1);
    b.i32_const(2);
    b.i32_const(3);
    assert_eq!(b.vm_stack().len(), 3);
    b.select();
    assert_eq!(b.vm_stack(), vec![anon()]);
    assert_eq!(*b.code().last().unwrap(), SELECT);
}

#[test]
fn numbers_are_written_in_leb128() {
    let arena = Bump::new();
    let cases: Vec<(u32, Vec<u8>)> = vec![
        (0, vec![0x00]),
        (127, vec![0x7f]),
        (128, vec![0x80, 0x01]),
        (624485, vec![0xe5, 0x8e, 0x26]),
        (u32::MAX, vec![0xff, 0xff, 0xff, 0xff, 0x0f]),
    ];
    for (number, bytes) in cases {
        let mut b = FunctionBuilder::new(&arena);
        b.br(number);
        assert_eq!(b.code()[1..], bytes[..]);
    }
}

#[test]
fn negative_constants_are_written_by_their_bits() {
    let arena = Bump::new();
    let mut b = FunctionBuilder::new(&arena);
    b.i32_const(-1);
    assert_eq!(b.code(), vec![I32CONST, 0xff, 0xff, 0xff, 0xff, 0x0f]);
    let mut b = FunctionBuilder::new(&arena);
    b.i64_const(-1);
    assert_eq!(
        b.code(),
        vec![I64CONST, 0xff, 0xff, 0xff, 0xff, 0xff, 0xff, 0xff, 0xff, 0xff, 0x01]
    );
    let mut b = FunctionBuilder::new(&arena);
    b.i64_const(300);
    assert_eq!(b.code(), vec![I64CONST, 0xac, 0x02]);
}

#[test]
fn floats_are_written_low_byte_first() {
    let arena = Bump::new();
    let mut b = FunctionBuilder::new(&arena);
    b.f32_const(1.0f32.to_bits());
    assert_eq!(b.code(), vec![F32CONST, 0x00, 0x00, 0x80, 0x3f]);
    let mut b = FunctionBuilder::new(&arena);
    b.f64_const((-2.5f64).to_bits());
    assert_eq!(b.code(), vec![F64CONST, 0, 0, 0, 0, 0, 0, 0x04, 0xc0]);
    assert_eq!(b.vm_stack(), vec![anon()]);
}

#[test]
fn memory_instructions_write_alignment_and_offset() {
    let arena = Bump::new();
    let mut b = FunctionBuilder::new(&arena);
    b.i32_const(0);
    b.i32_load(Align::Bytes4, 200);
    assert_eq!(b.code(), vec![I32CONST, 0, I32LOAD, 2, 0xc8, 0x01]);
    assert_eq!(b.vm_stack(), vec![anon()]);
    b.i64_const(1);
    b.i64_store(Align::Bytes8, 0);
    assert_eq!(b.code()[6..], [I64CONST, 1, I64STORE, 3, 0]);
    assert_eq!(b.vm_stack(), Vec::<Symbol>::new());
}

#[test]
fn blocks_write_their_type() {
    let arena = Bump::new();
    let mut b = FunctionBuilder::new(&arena);
    b.block(BlockType::NoResult);
    b.i32_const(1);
    b.if_(BlockType::Value(ValueType::I32));
    assert_eq!(b.code(), vec![BLOCK, 0x40, I32CONST, 1, IF, 0x7f]);
    assert_eq!(b.vm_stack(), Vec::<Symbol>::new());
}

#[test]
fn top_symbol_is_named_and_found() {
    let arena = Bump::new();
    let mut b = FunctionBuilder::new(&arena);
    let x = Symbol::new(5, 1);
    let y = Symbol::new(5, 2);
    b.i32_const(1);
    assert_eq!(b.set_top_symbol(x), VirtualMachineSymbolState::Pushed { pushed_at: 2 });
    b.i32_const(2);
    assert_eq!(b.set_top_symbol(y), VirtualMachineSymbolState::Pushed { pushed_at: 4 });
    assert_eq!(b.vm_stack(), vec![x, y]);
    assert!(b.verify_stack_match(&[x, y]));
    assert!(b.verify_stack_match(&[y]));
    assert!(b.verify_stack_match(&[]));
    assert!(!b.verify_stack_match(&[x]));
    assert!(!b.verify_stack_match(&[y, x]));
    assert!(!b.verify_stack_match(&[x, x, y]));
}

#[test]
fn call_takes_arguments_and_leaves_result() {
    let arena = Bump::new();
    let mut b = FunctionBuilder::new(&arena);
    let x = Symbol::new(5, 1);
    b.i32_const(1);
    b.set_top_symbol(x);
    b.i32_const(2);
    b.i32_const(3);
    b.call(9, 2, true);
    assert_eq!(b.vm_stack(), vec![x, anon()]);
    assert_eq!(*b.code().last().unwrap(), CALL);
    b.call(9, 2, false);
    assert_eq!(b.vm_stack(), Vec::<Symbol>::new());
}

#[test]
fn clear_forgets_code_and_stack() {
    let arena = Bump::new();
    let mut b = FunctionBuilder::new(&arena);
    b.i32_const(1);
    b.memory_size();
    b.clear();
    assert_eq!(b.code(), Vec::<u8>::new());
    assert_eq!(b.vm_stack(), Vec::<Symbol>::new());
    assert_eq!(b.outer_len(), 0);
}

#[test]
fn finalize_and_serialize_leave_everything() {
    let arena = Bump::new();
    let mut b = FunctionBuilder::new(&arena);
    b.i32_const(1);
    let mut list = vec![FrameInstruction::I32Add];
    b.finalize(&mut list);
    let mut out = vec![1u8];
    b.serialize(&mut out);
    assert_eq!(list, vec![FrameInstruction::I32Add]);
    assert_eq!(out, vec![1u8]);
    assert_eq!(b.code(), vec![I32CONST, 1]);
}

#[test]
fn stack_frame_is_opened_and_closed() {
    assert_eq!(
        FunctionBuilder::push_stack_frame(32, LocalId(4)),
        [
            FrameInstruction::GetGlobal(STACK_POINTER_GLOBAL_ID),
            FrameInstruction::I32Const(32),
            FrameInstruction::I32Sub,
            FrameInstruction::TeeLocal(4),
            FrameInstruction::SetGlobal(STACK_POINTER_GLOBAL_ID),
        ]
    );
    assert_eq!(
        FunctionBuilder::pop_stack_frame(32, LocalId(4)),
        [
            FrameInstruction::GetLocal(4),
            FrameInstruction::I32Const(32),
            FrameInstruction::I32Add,
            FrameInstruction::SetGlobal(STACK_POINTER_GLOBAL_ID),
        ]
    );
}

#[test]
fn locals_are_written_in_runs() {
    let mut out = vec![0xaau8];
    FunctionBuilder::serialize_locals(&mut out, &[]);
    assert_eq!(out, vec![0xaa, 0]);

    let mut out = Vec::new();
    FunctionBuilder::serialize_locals(
        &mut out,
        &[ValueType::I32, ValueType::I32, ValueType::I64, ValueType::I32],
    );
    assert_eq!(out, vec![4, 2, 0x7f, 1, 0x7e, 1, 0x7f]);

    let mut out = Vec::new();
    let many = vec![ValueType::F64; 200];
    FunctionBuilder::serialize_locals(&mut out, &many);
    assert_eq!(out, vec![0xc8, 0x01, 0xc8, 0x01, 0x7c]);
}
