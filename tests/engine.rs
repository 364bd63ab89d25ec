use allot_runtime::{AllotRuntime, Fault, Instruction, Register, Step, Type};

fn run_program(instructions: Vec<Instruction>, labels: Vec<usize>) -> Result<Step, Fault> {
    let mut rt = AllotRuntime::new(instructions, labels);
    rt.run(1000)
}

#[test]
fn move_then_exit_returns_value() {
    let program = vec![
        Instruction::Mov(Register::R0, Type::Int32(42)),
        Instruction::Exit(Type::Register(Register::R0)),
    ];
    assert_eq!(run_program(program, vec![]), Ok(Step::Halt(42)));
}

#[test]
fn exit_literal_and_negative_code() {
    assert_eq!(run_program(vec![Instruction::Exit(Type::Int32(-7))], vec![]), Ok(Step::Halt(-7)));
}

#[test]
fn move_from_register_takes_the_source() {
    let program = vec![
        Instruction::Mov(Register::R1, Type::Int32(5)),
        Instruction::Mov(Register::R2, Type::Register(Register::R1)),
        Instruction::Exit(Type::Register(Register::R1)),
    ];
    assert_eq!(run_program(program, vec![]), Err(Fault::EmptyRegister(Register::R1)));
}

#[test]
fn copy_keeps_the_source() {
    let program = vec![
        Instruction::Mov(Register::R1, Type::Int32(5)),
        Instruction::Cpy(Register::R2, Register::R1),
        Instruction::Exit(Type::Register(Register::R1)),
    ];
    assert_eq!(run_program(program, vec![]), Ok(Step::Halt(5)));
    let mut rt = AllotRuntime::new(
        vec![
            Instruction::Mov(Register::R1, Type::Int32(5)),
            Instruction::Cpy(Register::R2, Register::R1),
        ],
        vec![],
    );
    assert_eq!(rt.run(2), Ok(Step::Continue));
    assert_eq!(rt.register(Register::R2), Ok(Type::Int32(5)));
    assert_eq!(rt.register(Register::R1), Ok(Type::Int32(5)));
}

#[test]
fn move_of_capability_literal_is_fatal() {
    for t in [Type::Label(0), Type::Address(0), Type::Pointer(0), Type::Thread(0)] {
        let program = vec![Instruction::Mov(Register::R0, t), Instruction::Exit(Type::Int32(0))];
        assert_eq!(run_program(program, vec![]), Err(Fault::ImpossibleMove));
        let program = vec![
            Instruction::Mov(Register::R0, Type::Int32(1)),
            Instruction::Mov(Register::R0, t),
            Instruction::Exit(Type::Int32(0)),
        ];
        assert_eq!(run_program(program, vec![]), Err(Fault::ImpossibleMove));
    }
}

#[test]
fn ret_to_address_on_frame() {
    let program = vec![
        Instruction::Ret,
        Instruction::Exit(Type::Int32(1)),
        Instruction::Exit(Type::Int32(2)),
        Instruction::Exit(Type::Int32(99)),
    ];
    let mut rt = AllotRuntime::new(program, vec![]);
    rt.top_frame_mut().push(Type::Address(3));
    assert_eq!(rt.run(10), Ok(Step::Halt(99)));
    assert_eq!(rt.stack_frames().top().len(), 0);
}

#[test]
fn ret_of_non_address_is_fatal() {
    let mut rt = AllotRuntime::new(vec![Instruction::Ret, Instruction::Exit(Type::Int32(0))], vec![]);
    rt.top_frame_mut().push(Type::UInt(1));
    assert_eq!(rt.run(10), Err(Fault::ExpectedAddress));
    let mut empty = AllotRuntime::new(vec![Instruction::Ret], vec![]);
    assert_eq!(empty.run(10), Err(Fault::EmptyFrame));
}

#[test]
fn assert_true_continues() {
    let program = vec![
        Instruction::Mov(Register::R0, Type::Int32(3)),
        Instruction::Assert(Register::R0, Type::Int32(3)),
        Instruction::Exit(Type::Int32(0)),
    ];
    assert_eq!(run_program(program, vec![]), Ok(Step::Halt(0)));
}

#[test]
fn assert_false_or_incomparable_halts_with_minus_one() {
    let program = vec![
        Instruction::Mov(Register::R0, Type::Int32(3)),
        Instruction::Assert(Register::R0, Type::Int32(4)),
        Instruction::Exit(Type::Int32(0)),
    ];
    assert_eq!(run_program(program, vec![]), Ok(Step::Halt(-1)));
    let program = vec![
        Instruction::Mov(Register::R0, Type::Int32(3)),
        Instruction::Assert(Register::R0, Type::Boolean(true)),
        Instruction::Exit(Type::Int32(0)),
    ];
    assert_eq!(run_program(program, vec![]), Ok(Step::Halt(-1)));
}

#[test]
fn lea_and_jumps() {
    let program = vec![
        Instruction::Lea(Register::R1, 0),
        Instruction::Jmp(None, Type::Register(Register::R1)),
        Instruction::Exit(Type::Int32(1)),
        Instruction::Mov(Register::R2, Type::Boolean(false)),
        Instruction::Jmp(Some(Register::R2), Type::Label(2)),
        Instruction::Mov(Register::R2, Type::Boolean(true)),
        Instruction::Jmp(Some(Register::R2), Type::Label(8)),
        Instruction::Exit(Type::Int32(2)),
        Instruction::Exit(Type::Int32(3)),
    ];
    assert_eq!(run_program(program, vec![3]), Ok(Step::Halt(3)));
}

#[test]
fn lea_outside_label_table_is_fatal() {
    assert_eq!(
        run_program(vec![Instruction::Lea(Register::R0, 2)], vec![0, 1]),
        Err(Fault::LabelNotFound(2))
    );
}

#[test]
fn jump_errors() {
    let program = vec![Instruction::Jmp(None, Type::UInt(0))];
    assert_eq!(run_program(program, vec![]), Err(Fault::ExpectedLabel));
    let program = vec![
        Instruction::Mov(Register::R3, Type::Int32(1)),
        Instruction::Jmp(Some(Register::R3), Type::Label(0)),
    ];
    assert_eq!(run_program(program, vec![]), Err(Fault::ExpectedBoolean));
}

#[test]
fn running_off_the_end_is_fatal() {
    assert_eq!(run_program(vec![Instruction::Nop], vec![]), Err(Fault::NoInstruction(1)));
    assert_eq!(run_program(vec![], vec![]), Err(Fault::NoInstruction(0)));
}

#[test]
fn exit_operand_errors() {
    assert_eq!(run_program(vec![Instruction::Exit(Type::UInt(1))], vec![]), Err(Fault::ExpectedInt32));
    assert_eq!(
        run_program(vec![Instruction::Exit(Type::Register(Register::R4))], vec![]),
        Err(Fault::EmptyRegister(Register::R4))
    );
}

#[test]
fn push_pop_and_stack_copy() {
    let program = vec![
        Instruction::Mov(Register::R0, Type::Int32(10)),
        Instruction::PushCpy(Register::R0),
        Instruction::Mov(Register::R0, Type::Int32(20)),
        Instruction::Push(Register::R0),
        Instruction::StackCpy(Register::R5, Type::UInt(1)),
        Instruction::Pop(Some(Register::R6)),
        Instruction::Assert(Register::R6, Type::Int32(20)),
        Instruction::Exit(Type::Register(Register::R5)),
    ];
    assert_eq!(run_program(program, vec![]), Ok(Step::Halt(10)));
}

#[test]
fn push_takes_the_register() {
    let program = vec![
        Instruction::Mov(Register::R0, Type::Int32(10)),
        Instruction::Push(Register::R0),
        Instruction::Exit(Type::Register(Register::R0)),
    ];
    assert_eq!(run_program(program, vec![]), Err(Fault::EmptyRegister(Register::R0)));
}

#[test]
fn stack_copy_past_the_frame_is_fatal() {
    let program = vec![
        Instruction::Mov(Register::R0, Type::Int32(10)),
        Instruction::Push(Register::R0),
        Instruction::StackCpy(Register::R1, Type::UInt(1)),
    ];
    assert_eq!(run_program(program, vec![]), Err(Fault::OffsetOutOfRange(1)));
    let program = vec![Instruction::StackCpy(Register::R1, Type::Int32(0))];
    assert_eq!(run_program(program, vec![]), Err(Fault::ExpectedUInt));
}

#[test]
fn pop_many_and_its_fault() {
    let mut rt = AllotRuntime::new(
        vec![
            Instruction::Mov(Register::R0, Type::UInt(2)),
            Instruction::PopMany(Type::Register(Register::R0)),
            Instruction::PopMany(Type::UInt(2)),
        ],
        vec![],
    );
    for i in 0..3 {
        rt.top_frame_mut().push(Type::UInt(i));
    }
    assert_eq!(rt.run(2), Ok(Step::Continue));
    assert_eq!(rt.stack_frames().top().len(), 1);
    assert_eq!(rt.run(1), Err(Fault::EmptyFrame));
    assert_eq!(rt.stack_frames().top().len(), 1);
}

#[test]
fn pop_from_empty_frame_is_fatal() {
    assert_eq!(run_program(vec![Instruction::Pop(None)], vec![]), Err(Fault::EmptyFrame));
}

#[test]
fn frames_push_and_pop() {
    let program = vec![
        Instruction::Mov(Register::R0, Type::Int32(1)),
        Instruction::Push(Register::R0),
        Instruction::PushFrame(0),
        Instruction::PopFrame,
        Instruction::Pop(Some(Register::R1)),
        Instruction::Exit(Type::Register(Register::R1)),
    ];
    assert_eq!(run_program(program, vec![]), Ok(Step::Halt(1)));
    assert_eq!(run_program(vec![Instruction::PopFrame], vec![]), Err(Fault::FrameUnderflow));
}

#[test]
fn reserved_instructions_are_unimplemented() {
    for i in [
        Instruction::PushOnto(Register::R0),
        Instruction::PopInto,
        Instruction::ThreadStart(Type::Nop),
        Instruction::ThreadJoin(Register::R0),
    ] {
        assert_eq!(run_program(vec![i], vec![]), Err(Fault::Unimplemented));
    }
}

#[test]
fn native_call_is_handed_to_the_driver() {
    let mut rt = AllotRuntime::new(
        vec![
            Instruction::Mov(Register::R9, Type::UInt(4)),
            Instruction::Call("double".to_string()),
            Instruction::Exit(Type::Register(Register::R10)),
        ],
        vec![],
    );
    assert_eq!(rt.run(10), Ok(Step::Native(1, Type::UInt(4))));
    assert_eq!(rt.current(), 2);
    assert_eq!(rt.register(Register::R9), Ok(Type::UInt(4)));
    assert_eq!(rt.instruction(1), Some(&Instruction::Call("double".to_string())));
    rt.complete_native(Type::Int32(8));
    assert_eq!(rt.run(10), Ok(Step::Halt(8)));
}

#[test]
fn native_call_without_argument_is_fatal() {
    let program = vec![Instruction::Call("f".to_string())];
    assert_eq!(run_program(program, vec![]), Err(Fault::EmptyRegister(Register::R9)));
}

#[test]
fn operator_and_debug_steps_reach_the_driver() {
    let mut rt = AllotRuntime::new(
        vec![
            Instruction::Op(3, vec![Register::R0, Register::R1]),
            Instruction::Dbg(Register::R2),
            Instruction::Dump(0b101),
            Instruction::Cast(Register::R0, Type::Nop),
            Instruction::Exit(Type::Int32(0)),
        ],
        vec![],
    );
    assert_eq!(rt.run(10), Ok(Step::Operate(0)));
    assert_eq!(rt.run(10), Ok(Step::Inspect(Register::R2)));
    assert_eq!(rt.run(10), Ok(Step::Dump(0b101)));
    assert_eq!(rt.run(10), Ok(Step::Halt(0)));
}

#[test]
fn run_stops_when_steps_run_out() {
    let mut rt = AllotRuntime::new(vec![Instruction::Jmp(None, Type::Label(0))], vec![]);
    assert_eq!(rt.run(50), Ok(Step::Continue));
    assert_eq!(rt.current(), 0);
    assert_eq!(rt.run(0), Ok(Step::Continue));
}

#[test]
fn tick_executes_one_instruction() {
    let mut rt = AllotRuntime::new(
        vec![Instruction::Nop, Instruction::Exit(Type::Int32(4))],
        vec![],
    );
    assert_eq!(rt.tick(), Ok(Step::Continue));
    assert_eq!(rt.current(), 1);
    assert_eq!(rt.tick(), Ok(Step::Halt(4)));
    assert_eq!(rt.current(), 1);
}

#[test]
fn new_and_new_thread() {
    let rt = AllotRuntime::new(vec![Instruction::Nop], vec![7]);
    assert!(!rt.is_thread());
    assert_eq!(rt.labels(), &vec![7]);
    assert_eq!(rt.stack_frames().depth(), 1);
    let t = AllotRuntime::new_thread(vec![Instruction::Nop], vec![]);
    assert!(t.is_thread());
    assert_eq!(t.current(), 0);
    assert_eq!(t.register(Register::R0), Err(Fault::EmptyRegister(Register::R0)));
}

#[test]
fn operand_readers() {
    let mut rt = AllotRuntime::new(vec![], vec![]);
    rt.set_register(Register::R3, Type::UInt(9));
    rt.set_register(Register::R4, Type::Int32(-2));
    rt.set_register(Register::R5, Type::Label(6));
    let regs = rt.registers();
    assert_eq!(AllotRuntime::get_uint(&Type::Register(Register::R3), regs), Ok(9));
    assert_eq!(AllotRuntime::get_uint(&Type::Register(Register::R4), regs), Err(Fault::ExpectedUInt));
    assert_eq!(AllotRuntime::get_int32(&Type::Register(Register::R4), regs), Ok(-2));
    assert_eq!(AllotRuntime::get_int32(&Type::Int32(5), regs), Ok(5));
    assert_eq!(AllotRuntime::get_label(&Type::Register(Register::R5), regs), Ok(6));
    assert_eq!(AllotRuntime::get_label(&Type::Register(Register::R0), regs), Err(Fault::EmptyRegister(Register::R0)));
    assert_eq!(AllotRuntime::get_label(&Type::Nop, regs), Err(Fault::ExpectedLabel));
}

#[test]
fn engines_share_one_heap() {
    let first = AllotRuntime::new(vec![], vec![]);
    let second = AllotRuntime::with_heap(vec![], vec![], first.heap());
    assert!(std::sync::Arc::ptr_eq(&first.heap(), &second.heap()));
    second.heap().write().unwrap().values.push(Type::UInt(1));
    assert_eq!(first.heap().read().unwrap().values, vec![Type::UInt(1)]);
    let third = AllotRuntime::new(vec![], vec![]);
    assert!(!std::sync::Arc::ptr_eq(&first.heap(), &third.heap()));
}

#[test]
fn halts_at_the_first_exit() {
    let mut rt = AllotRuntime::new(
        vec![
            Instruction::Mov(Register::R0, Type::Int32(1)),
            Instruction::Exit(Type::Register(Register::R0)),
            Instruction::Exit(Type::Int32(2)),
        ],
        vec![],
    );
    assert_eq!(rt.run(10), Ok(Step::Halt(1)));
    assert_eq!(rt.current(), 1);
}

#[test]
fn taken_register_stays_empty_across_steps() {
    let program = vec![
        Instruction::Mov(Register::R1, Type::Int32(5)),
        Instruction::Mov(Register::R2, Type::Register(Register::R1)),
        Instruction::Mov(Register::R3, Type::Int32(6)),
        Instruction::PushCpy(Register::R3),
        Instruction::Pop(Some(Register::R4)),
        Instruction::PushCpy(Register::R1),
    ];
    assert_eq!(run_program(program, vec![]), Err(Fault::EmptyRegister(Register::R1)));
    let program = vec![
        Instruction::Mov(Register::R1, Type::Int32(5)),
        Instruction::Push(Register::R1),
        Instruction::Nop,
        Instruction::Mov(Register::R1, Type::Int32(8)),
        Instruction::Exit(Type::Register(Register::R1)),
    ];
    assert_eq!(run_program(program, vec![]), Ok(Step::Halt(8)));
}

#[test]
fn failed_move_leaves_registers_alone() {
    let mut rt = AllotRuntime::new(
        vec![
            Instruction::Mov(Register::R0, Type::Int32(1)),
            Instruction::Mov(Register::R0, Type::Label(0)),
        ],
        vec![],
    );
    assert_eq!(rt.run(10), Err(Fault::ImpossibleMove));
    assert_eq!(rt.register(Register::R0), Ok(Type::Int32(1)));
    assert_eq!(rt.current(), 1);
}
