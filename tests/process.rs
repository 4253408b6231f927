use intcode_vm::machine::{ExecutionFault, Fault};
use intcode_vm::opcode::{DecodeError, Parameter};
use intcode_vm::process::{Process, ProcessStatus};
use intcode_vm::Intcode;

fn run_to_exit(program: Vec<i64>) -> Process {
    let mut p = Process::new(Intcode(program));
    loop {
        match p.resume() {
            ProcessStatus::Exit => return p,
            ProcessStatus::Outputting(_) => {}
            s => panic!("unexpected status {:?}", s),
        }
    }
}

#[test]
fn add_and_multiply_by_position() {
    let p = run_to_exit(vec![1, 9, 10, 3, 2, 3, 11, 0, 99, 30, 40, 50]);
    assert_eq!(p.read(0), 3500);
    assert_eq!(p.head(), 3500);
    assert_eq!(p.read(3), 70);
    assert_eq!(p.fault(), None);
}

#[test]
fn mixed_modes() {
    let p = run_to_exit(vec![1002, 4, 3, 4, 33]);
    assert_eq!(p.read(4), 99);
    assert_eq!(p.fault(), None);
}

#[test]
fn write_far_beyond_the_image() {
    let mut p = Process::new(Intcode(vec![1101, 5, 6, 10000, 4, 10000, 99]));
    assert_eq!(p.resume(), ProcessStatus::Outputting(11));
    assert_eq!(p.read(10000), 11);
    assert_eq!(p.read(9999), 0);
    assert_eq!(p.resume(), ProcessStatus::Exit);
}

#[test]
fn inputs_go_to_their_own_destinations() {
    let mut p = Process::new(Intcode(vec![3, 0, 3, 1, 3, 2, 4, 2, 4, 1, 4, 0, 99]));
    let mut inputs = vec![1, 2, 3].into_iter();
    let mut outputs = Vec::new();
    loop {
        match p.resume() {
            ProcessStatus::Awaiting(_) => {
                p.feed(inputs.next().unwrap());
            }
            ProcessStatus::Outputting(o) => outputs.push(o),
            ProcessStatus::Exit => break,
            ProcessStatus::Paused => panic!("paused"),
        }
    }
    assert_eq!(outputs, vec![3, 2, 1]);
}

#[test]
fn resume_while_awaiting_changes_nothing() {
    let mut p = Process::new(Intcode(vec![3, 0, 4, 0, 99]));
    assert_eq!(p.resume(), ProcessStatus::Awaiting(Parameter::Pos(0)));
    assert_eq!(p.resume(), ProcessStatus::Awaiting(Parameter::Pos(0)));
    assert_eq!(p.status(), ProcessStatus::Awaiting(Parameter::Pos(0)));
    assert_eq!(p.read(0), 3);
    assert_eq!(p.feed(42), ProcessStatus::Paused);
    assert_eq!(p.resume(), ProcessStatus::Outputting(42));
    assert_eq!(p.resume(), ProcessStatus::Exit);
    assert_eq!(p.resume(), ProcessStatus::Exit);
    assert_eq!(p.resume(), ProcessStatus::Exit);
}

#[test]
fn lone_jump_word_faults_on_decode() {
    let p = run_to_exit(vec![5]);
    assert_eq!(p.status(), ProcessStatus::Exit);
    assert_eq!(p.fault(), Some(Fault::Decode(DecodeError::UnknownOpcode(0))));
}

#[test]
fn unknown_opcode_faults() {
    let p = run_to_exit(vec![77]);
    assert_eq!(p.fault(), Some(Fault::Decode(DecodeError::UnknownOpcode(77))));
}

#[test]
fn unknown_mode_faults() {
    let p = run_to_exit(vec![301, 0, 0, 0, 99]);
    assert_eq!(p.fault(), Some(Fault::Decode(DecodeError::UnknownMode(3))));
}

#[test]
fn write_to_immediate_faults() {
    let p = run_to_exit(vec![11101, 1, 1, 0, 99]);
    assert_eq!(p.fault(), Some(Fault::Execution(ExecutionFault::WriteToImmediate)));
}

#[test]
fn feed_into_immediate_faults() {
    let mut p = Process::new(Intcode(vec![103, 0, 99]));
    assert_eq!(p.resume(), ProcessStatus::Awaiting(Parameter::Imm(0)));
    assert_eq!(p.feed(5), ProcessStatus::Exit);
    assert_eq!(p.fault(), Some(Fault::Execution(ExecutionFault::WriteToImmediate)));
}

#[test]
fn negative_address_faults() {
    let p = run_to_exit(vec![4, -1, 99]);
    assert_eq!(p.fault(), Some(Fault::Execution(ExecutionFault::NegativeAddress)));
    let q = run_to_exit(vec![109, -5, 204, 0, 99]);
    assert_eq!(q.fault(), Some(Fault::Execution(ExecutionFault::NegativeAddress)));
}

#[test]
fn sum_out_of_range_faults() {
    let p = run_to_exit(vec![1101, 9223372036854775807, 1, 0, 99]);
    assert_eq!(p.fault(), Some(Fault::Execution(ExecutionFault::Overflow)));
    assert_eq!(p.read(0), 1101);
}

#[test]
fn relative_read_beyond_image_is_zero() {
    let mut p = Process::new(Intcode(vec![109, 10, 204, -3, 99]));
    assert_eq!(p.resume(), ProcessStatus::Outputting(0));
    assert_eq!(p.resume(), ProcessStatus::Exit);
    assert_eq!(p.fault(), None);
}

#[test]
fn relative_base_moves_writes() {
    let mut p = Process::new(Intcode(vec![109, 20, 21101, 3, 4, 5, 204, 5, 99]));
    assert_eq!(p.resume(), ProcessStatus::Outputting(7));
    assert_eq!(p.read(25), 7);
}

#[test]
fn two_runs_leave_the_same_memory() {
    let program = vec![1, 9, 10, 3, 2, 3, 11, 0, 99, 30, 40, 50];
    let a = run_to_exit(program.clone());
    let b = run_to_exit(program);
    for address in 0..20u64 {
        assert_eq!(a.read(address), b.read(address));
    }
}
