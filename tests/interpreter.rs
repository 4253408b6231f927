use std::str::FromStr;

use intcode_vm::{Intcode, Interpreter};

fn collect(program: &str, inputs: Vec<i64>) -> Vec<i64> {
    let code = Intcode::from_str(program).unwrap();
    let mut interpreter = Interpreter::new(code);
    let mut out = interpreter.execute(inputs);
    let mut v = Vec::new();
    while let Some(o) = out.next() {
        v.push(o);
    }
    v
}

#[test]
fn interpreter_test() {
    let input = Intcode::from_str("3,0,3,1,3,2,4,2,4,1,4,0,99").unwrap();
    let mut interpreter = Interpreter::new(input);
    let inputs = vec![1, 2, 3];
    let mut out = interpreter.execute(inputs);
    let mut out_vec: Vec<i64> = Vec::new();
    while let Some(o) = out.next() {
        out_vec.push(o);
    }
    assert_eq!(out_vec, vec![3, 2, 1]);
}

#[test]
fn outputs_stop_when_inputs_run_out() {
    assert_eq!(collect("3,0,3,1,3,2,4,2,4,1,4,0,99", vec![1, 2]), Vec::<i64>::new());
}

#[test]
fn self_reproducing_program() {
    let text = "109,1,204,-1,1001,100,1,100,1008,100,16,101,1006,101,0,99";
    let expected: Vec<i64> = vec![109, 1, 204, -1, 1001, 100, 1, 100, 1008, 100, 16, 101, 1006, 101, 0, 99];
    assert_eq!(collect(text, vec![]), expected);
}

#[test]
fn large_product_is_not_truncated() {
    assert_eq!(collect("1102,1125899906842624,1,7,4,7,99,0", vec![]), vec![1125899906842624]);
    assert_eq!(collect("104,1125899906842624,99", vec![]), vec![1125899906842624]);
    assert_eq!(collect("1102,34915192,34915192,7,4,7,99,0", vec![]), vec![1219070632396864]);
}

#[test]
fn equal_to_eight_by_position() {
    assert_eq!(collect("3,9,8,9,10,9,4,9,99,-1,8", vec![8]), vec![1]);
    assert_eq!(collect("3,9,8,9,10,9,4,9,99,-1,8", vec![7]), vec![0]);
}

#[test]
fn less_than_eight_immediate() {
    assert_eq!(collect("3,3,1107,-1,8,3,4,3,99", vec![5]), vec![1]);
    assert_eq!(collect("3,3,1107,-1,8,3,4,3,99", vec![9]), vec![0]);
}

#[test]
fn jumps_by_position_and_immediate() {
    let by_position = "3,12,6,12,15,1,13,14,13,4,13,99,-1,0,1,9";
    assert_eq!(collect(by_position, vec![0]), vec![0]);
    assert_eq!(collect(by_position, vec![5]), vec![1]);
    let immediate = "3,3,1105,-1,9,1101,0,0,12,4,12,99,1";
    assert_eq!(collect(immediate, vec![0]), vec![0]);
    assert_eq!(collect(immediate, vec![5]), vec![1]);
}

#[test]
fn compare_with_eight() {
    let text = "3,21,1008,21,8,20,1005,20,22,107,8,21,20,1006,20,31,1106,0,36,98,0,0,1002,21,125,20,4,20,1105,1,46,104,999,1105,1,46,1101,1000,1,20,4,20,1105,1,46,98,99";
    assert_eq!(collect(text, vec![7]), vec![999]);
    assert_eq!(collect(text, vec![8]), vec![1000]);
    assert_eq!(collect(text, vec![9]), vec![1001]);
}

#[test]
fn same_program_same_inputs_same_outputs() {
    let text = "3,0,3,1,3,2,4,2,4,1,4,0,99";
    assert_eq!(collect(text, vec![4, 5, 6]), collect(text, vec![4, 5, 6]));
}
