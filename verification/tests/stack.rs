use jvm_stack::descriptor::METHOD_ACC_STATIC;
use jvm_stack::descriptor::MethodDescriptor;
use jvm_stack::descriptor::ParamCategory;
use jvm_stack::descriptor::ReturnCategory;
use jvm_stack::descriptor::count_arg_slots;
use jvm_stack::descriptor::count_return_slots;
use jvm_stack::metaspace::CodeAttribute;
use jvm_stack::metaspace::ExceptionHandler;
use jvm_stack::metaspace::Klass;
use jvm_stack::metaspace::Method;
use jvm_stack::stack::JavaFrame;
use jvm_stack::stack::JavaStack;
use std::sync::Arc;

fn klass(name: &str) -> Arc<Klass> {
    Arc::new(Klass { name: name.to_string() })
}

fn method(
    name: &str,
    params: Vec<ParamCategory>,
    ret: ReturnCategory,
    access_flags: u16,
    max_stack: u16,
    max_locals: u16,
    code: Vec<u8>,
) -> Arc<Method> {
    Arc::new(Method {
        name: name.to_string(),
        descriptor: Arc::new(MethodDescriptor { params, ret }),
        access_flags,
        code_attribute: Some(CodeAttribute {
            max_stack,
            max_locals,
            code: Arc::new(code),
            exception_handlers: Arc::new(Vec::new()),
        }),
    })
}

fn root_stack(max_stack: u16, max_locals: u16) -> JavaStack {
    let m = method(
        "run",
        vec![],
        ReturnCategory::Void,
        METHOD_ACC_STATIC,
        max_stack,
        max_locals,
        vec![0xb1],
    );
    let frame = JavaFrame::new(klass("Main"), m);
    let mut stack = JavaStack::new();
    stack.invoke(frame, 0);
    stack
}

#[test]
fn push_pop_returns_same_slot() {
    let mut stack = root_stack(4, 1);
    stack.push(&[1, 2, 3, 4]);
    let before = stack.frames[0].cursor;
    stack.push(&[9, 8, 7, 6]);
    assert_eq!(stack.pop(), [9, 8, 7, 6]);
    assert_eq!(stack.frames[0].cursor, before);
    assert_eq!(stack.pop(), [1, 2, 3, 4]);
    assert_eq!(stack.frames[0].cursor, 0);
}

#[test]
fn pop_w_returns_wide_write_whole() {
    let mut stack = root_stack(4, 1);
    stack.push(&[1, 2, 3, 4]);
    stack.push(&[5, 6, 7, 8]);
    assert_eq!(stack.pop_w(), [1, 2, 3, 4, 5, 6, 7, 8]);
    assert_eq!(stack.frames[0].cursor, 0);
}

#[test]
fn store_then_load_round_trips() {
    let mut stack = root_stack(4, 4);
    stack.push(&[10, 11, 12, 13]);
    stack.push(&[20, 21, 22, 23]);
    stack.store(1, 2);
    assert_eq!(stack.frames[0].cursor, 0);
    assert_eq!(stack.get(1), [10, 11, 12, 13]);
    assert_eq!(stack.get(2), [20, 21, 22, 23]);
    stack.load(1, 2);
    assert_eq!(stack.frames[0].cursor, 8);
    assert_eq!(stack.pop(), [20, 21, 22, 23]);
    assert_eq!(stack.pop(), [10, 11, 12, 13]);
}

#[test]
fn get_set_single_and_wide() {
    let mut stack = root_stack(2, 3);
    stack.set(0, [1, 2, 3, 4]);
    assert_eq!(stack.get(0), [1, 2, 3, 4]);
    stack.set_w(1, [11, 12, 13, 14, 15, 16, 17, 18]);
    assert_eq!(stack.get_w(1), [11, 12, 13, 14, 15, 16, 17, 18]);
    assert_eq!(stack.get(1), [11, 12, 13, 14]);
    assert_eq!(stack.get(2), [15, 16, 17, 18]);
    assert_eq!(stack.get(0), [1, 2, 3, 4]);
}

#[test]
fn invoke_static_transfers_one_slot() {
    let mut stack = root_stack(2, 1);
    stack.push(&[7, 0, 0, 0]);
    let callee = method(
        "f",
        vec![ParamCategory::Single],
        ReturnCategory::Void,
        METHOD_ACC_STATIC,
        2,
        1,
        vec![0xb1],
    );
    let frame = JavaFrame::new(klass("Main"), callee);
    stack.invoke(frame, 3);
    assert_eq!(stack.frames.len(), 2);
    assert_eq!(stack.get(0), [7, 0, 0, 0]);
    assert_eq!(stack.frames[0].cursor, 0);
    assert_eq!(stack.frames[1].pc, 3);
}

#[test]
fn invoke_instance_transfers_receiver_then_arg() {
    let mut stack = root_stack(2, 1);
    stack.push(&[9, 9, 9, 9]);
    stack.push(&[1, 0, 0, 0]);
    let callee = method(
        "f",
        vec![ParamCategory::Single],
        ReturnCategory::Void,
        0,
        2,
        2,
        vec![0xb1],
    );
    let frame = JavaFrame::new(klass("Main"), callee);
    stack.invoke(frame, 3);
    assert_eq!(stack.get(0), [9, 9, 9, 9]);
    assert_eq!(stack.get(1), [1, 0, 0, 0]);
    assert_eq!(stack.frames[0].cursor, 0);
}

#[test]
fn invoke_wide_param_transfers_two_slots() {
    let mut stack = root_stack(2, 1);
    stack.push(&[1, 2, 3, 4]);
    stack.push(&[5, 6, 7, 8]);
    let callee = method(
        "f",
        vec![ParamCategory::Wide],
        ReturnCategory::Void,
        METHOD_ACC_STATIC,
        2,
        2,
        vec![0xb1],
    );
    let frame = JavaFrame::new(klass("Main"), callee);
    stack.invoke(frame, 0);
    assert_eq!(stack.get_w(0), [1, 2, 3, 4, 5, 6, 7, 8]);
    assert_eq!(stack.frames[0].cursor, 0);
}

#[test]
fn backtrack_single_return_moves_result_and_resumes() {
    let mut stack = JavaStack::new();
    let caller = method(
        "caller",
        vec![ParamCategory::Single],
        ReturnCategory::Single,
        METHOD_ACC_STATIC,
        2,
        1,
        vec![0xb1],
    );
    stack.invoke(JavaFrame::new(klass("Main"), caller), 0);
    stack.push(&[5, 0, 0, 0]);
    let callee = method(
        "callee",
        vec![ParamCategory::Single],
        ReturnCategory::Single,
        METHOD_ACC_STATIC,
        2,
        1,
        vec![0xb1],
    );
    stack.invoke(JavaFrame::new(klass("Main"), callee), 10);
    assert_eq!(stack.get(0), [5, 0, 0, 0]);
    assert_eq!(stack.frames[1].pc, 10);
    stack.push(&[9, 0, 0, 0]);
    let resume = stack.backtrack();
    assert_eq!(resume, 10);
    assert_eq!(stack.frames.len(), 1);
    assert_eq!(stack.frames[0].cursor, 4);
    assert_eq!(stack.pop(), [9, 0, 0, 0]);
}

#[test]
fn backtrack_void_return_leaves_caller_stack_unchanged() {
    let mut stack = root_stack(2, 1);
    stack.push(&[1, 1, 1, 1]);
    let callee = method(
        "f",
        vec![],
        ReturnCategory::Void,
        METHOD_ACC_STATIC,
        2,
        1,
        vec![0xb1],
    );
    stack.invoke(JavaFrame::new(klass("Main"), callee), 7);
    let resume = stack.backtrack();
    assert_eq!(resume, 7);
    assert_eq!(stack.frames[0].cursor, 4);
    assert_eq!(stack.pop(), [1, 1, 1, 1]);
}

#[test]
fn backtrack_wide_return_moves_both_slots() {
    let mut stack = root_stack(2, 1);
    let callee = method(
        "f",
        vec![],
        ReturnCategory::Wide,
        METHOD_ACC_STATIC,
        2,
        1,
        vec![0xb1],
    );
    stack.invoke(JavaFrame::new(klass("Main"), callee), 1);
    stack.push(&[1, 2, 3, 4]);
    stack.push(&[5, 6, 7, 8]);
    let resume = stack.backtrack();
    assert_eq!(resume, 1);
    assert_eq!(stack.pop_w(), [1, 2, 3, 4, 5, 6, 7, 8]);
}

#[test]
fn backtrack_root_frame_transfers_nothing() {
    let mut stack = root_stack(2, 1);
    assert_eq!(stack.frames[0].pc, 0);
    let resume = stack.backtrack();
    assert_eq!(resume, 0);
    assert!(stack.is_empty());
}

#[test]
fn root_invoke_ignores_return_pc() {
    let m = method(
        "run",
        vec![],
        ReturnCategory::Void,
        METHOD_ACC_STATIC,
        2,
        1,
        vec![0xb1],
    );
    let frame = JavaFrame::new(klass("Main"), m);
    let mut stack = JavaStack::new();
    stack.invoke(frame, 42);
    assert_eq!(stack.frames[0].pc, 0);
    assert_eq!(stack.frames[0].cursor, 0);
}

#[test]
fn has_next_false_on_empty_stack_and_past_code_end() {
    let stack = JavaStack::new();
    assert!(!stack.has_next(0));
    let mut stack = JavaStack::new();
    let m = method(
        "run",
        vec![],
        ReturnCategory::Void,
        METHOD_ACC_STATIC,
        1,
        0,
        vec![0x03, 0xb1],
    );
    stack.invoke(JavaFrame::new(klass("Main"), m), 0);
    assert!(stack.has_next(0));
    assert!(stack.has_next(1));
    assert!(!stack.has_next(2));
    assert!(!stack.has_next(100));
}

#[test]
fn get_code_reads_instruction_bytes() {
    let mut stack = JavaStack::new();
    let m = method(
        "run",
        vec![],
        ReturnCategory::Void,
        METHOD_ACC_STATIC,
        1,
        0,
        vec![0xaa, 0xbb, 0xcc],
    );
    stack.invoke(JavaFrame::new(klass("Main"), m), 0);
    assert_eq!(stack.get_code(0), 0xaa);
    assert_eq!(stack.get_code(1), 0xbb);
    assert_eq!(stack.get_code(2), 0xcc);
}

#[test]
fn fresh_frame_is_zeroed_and_sized() {
    let m = method(
        "run",
        vec![],
        ReturnCategory::Void,
        METHOD_ACC_STATIC,
        2,
        3,
        vec![0xb1],
    );
    let frame = JavaFrame::new(klass("Main"), m);
    assert_eq!(frame.locals, vec![0u8; 12]);
    assert_eq!(frame.cursor, 0);
    assert_eq!(frame.pc, 0);
    assert_eq!(frame.current_method.0, "run");
    assert_eq!(frame.current_method.2, METHOD_ACC_STATIC);
    assert_eq!(frame.klass.name, "Main");
}

#[test]
fn push_then_pop_leaves_locals_zero() {
    let mut stack = root_stack(2, 1);
    stack.push(&[0, 0, 0, 1]);
    assert_eq!(stack.pop(), [0, 0, 0, 1]);
    assert_eq!(stack.get(0), [0, 0, 0, 0]);
}

#[test]
fn handler_table_passes_through_untouched() {
    let handler = ExceptionHandler { start_pc: 0, end_pc: 4, handler_pc: 8, catch_type: 1 };
    let m = Arc::new(Method {
        name: "run".to_string(),
        descriptor: Arc::new(MethodDescriptor { params: vec![], ret: ReturnCategory::Void }),
        access_flags: METHOD_ACC_STATIC,
        code_attribute: Some(CodeAttribute {
            max_stack: 1,
            max_locals: 0,
            code: Arc::new(vec![0xb1]),
            exception_handlers: Arc::new(vec![handler]),
        }),
    });
    let frame = JavaFrame::new(klass("Main"), m);
    assert_eq!(frame.exception_handlers.len(), 1);
    assert_eq!(frame.exception_handlers[0], handler);
}

#[test]
fn arg_slot_counts_follow_descriptor_and_static_bit() {
    let d = MethodDescriptor {
        params: vec![ParamCategory::Single, ParamCategory::Wide, ParamCategory::Single],
        ret: ReturnCategory::Void,
    };
    assert_eq!(count_arg_slots(&d, METHOD_ACC_STATIC), 4);
    assert_eq!(count_arg_slots(&d, 0), 5);
    let empty = MethodDescriptor { params: vec![], ret: ReturnCategory::Wide };
    assert_eq!(count_arg_slots(&empty, METHOD_ACC_STATIC), 0);
    assert_eq!(count_arg_slots(&empty, 0), 1);
}

#[test]
fn return_slot_counts_follow_category() {
    assert_eq!(count_return_slots(ReturnCategory::Void), 0);
    assert_eq!(count_return_slots(ReturnCategory::Single), 1);
    assert_eq!(count_return_slots(ReturnCategory::Wide), 2);
}

#[test]
fn dump_renders_a_snapshot() {
    let stack = root_stack(2, 1);
    let text = stack.frames[0].dump(0);
    assert!(text.contains("run"));
    assert!(text.contains("Main"));
}
