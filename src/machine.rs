use vstd::prelude::*;

use crate::memory::{image_cells, MAX_ADDRESS};
use crate::opcode::{decode_spec, DecodeError, Opcode, Parameter};

verus! {

/// A fault met while resolving or applying an operand.
#[derive(Debug, PartialEq, Eq, Clone, Copy)]
pub enum ExecutionFault {
    /// An immediate operand was used as the place to store a result.
    WriteToImmediate,
    /// An operand resolved to an address below zero.
    NegativeAddress,
    /// A result left the range of `i64`, or an address left the range of `u64`.
    Overflow,
}

/// Why a process stopped other than by halting.
#[derive(Debug, PartialEq, Eq, Clone, Copy)]
pub enum Fault {
    /// The word at the program counter is no instruction.
    Decode(DecodeError),
    /// An operand could not be resolved or applied.
    Execution(ExecutionFault),
}

/// What ends a run of instructions.
#[derive(Debug)]
pub enum Evaluation {
    /// An input instruction, with the operand that will receive the value.
    Input(Parameter<i64>),
    /// An output instruction, with the value it produced.
    Output(i64),
    /// The halt instruction.
    Halt,
    /// A fault; the process cannot go on.
    EvaluationError(Fault),
}

/// The registers and memory of a machine.
pub struct Machine {
    /// Address of the next instruction.
    pub pc: int,
    /// The relative base.
    pub rb: int,
    /// Every address mapped to the value it holds.
    pub mem: Map<int, i64>,
}

/// The machine that starts running `program`.
pub open spec fn initial_machine(program: Seq<i64>) -> Machine {
    Machine { pc: 0, rb: 0, mem: image_cells(program) }
}

/// The value at address `a`; zero outside the store.
pub open spec fn cell(m: Machine, a: int) -> i64 {
    if m.mem.contains_key(a) {
        m.mem[a]
    } else {
        0i64
    }
}

/// Whether `m` is a state that a running machine can hold.
pub open spec fn machine_wf(m: Machine) -> bool {
    &&& 0 <= m.pc <= MAX_ADDRESS
    &&& i64::MIN <= m.rb <= i64::MAX
    &&& forall|a: int| #[trigger] m.mem.contains_key(a) <==> 0 <= a <= MAX_ADDRESS
}

/// The value that operand `p` stands for when it is read.
pub open spec fn load_spec(m: Machine, p: Parameter<i64>) -> Result<i64, ExecutionFault> {
    match p {
        Parameter::Imm(v) => Ok(v),
        Parameter::Pos(a) => if a < 0 {
            Err(ExecutionFault::NegativeAddress)
        } else {
            Ok(cell(m, a as int))
        },
        Parameter::Rel(o) => if m.rb + o < 0 {
            Err(ExecutionFault::NegativeAddress)
        } else {
            Ok(cell(m, m.rb + o))
        },
    }
}

/// The address that operand `p` names when a result is stored through it.
pub open spec fn target_spec(m: Machine, p: Parameter<i64>) -> Result<int, ExecutionFault> {
    match p {
        Parameter::Imm(_) => Err(ExecutionFault::WriteToImmediate),
        Parameter::Pos(a) => if a < 0 {
            Err(ExecutionFault::NegativeAddress)
        } else {
            Ok(a as int)
        },
        Parameter::Rel(o) => if m.rb + o < 0 {
            Err(ExecutionFault::NegativeAddress)
        } else {
            Ok(m.rb + o)
        },
    }
}

/// The word `k` places after the instruction at the program counter.
pub open spec fn word_at(m: Machine, k: int) -> i64 {
    cell(m, m.pc + k)
}

/// `code` with its operands read from the words that follow the instruction.
pub open spec fn filled(m: Machine, code: Opcode<Parameter<()>>) -> Opcode<Parameter<i64>> {
    match code {
        Opcode::Add(a, b, c) => Opcode::Add(
            a.with(word_at(m, 1)),
            b.with(word_at(m, 2)),
            c.with(word_at(m, 3)),
        ),
        Opcode::Mul(a, b, c) => Opcode::Mul(
            a.with(word_at(m, 1)),
            b.with(word_at(m, 2)),
            c.with(word_at(m, 3)),
        ),
        Opcode::Inp(a) => Opcode::Inp(a.with(word_at(m, 1))),
        Opcode::Out(a) => Opcode::Out(a.with(word_at(m, 1))),
        Opcode::Jnz(a, b) => Opcode::Jnz(a.with(word_at(m, 1)), b.with(word_at(m, 2))),
        Opcode::Jz(a, b) => Opcode::Jz(a.with(word_at(m, 1)), b.with(word_at(m, 2))),
        Opcode::Lt(a, b, c) => Opcode::Lt(
            a.with(word_at(m, 1)),
            b.with(word_at(m, 2)),
            c.with(word_at(m, 3)),
        ),
        Opcode::Equ(a, b, c) => Opcode::Equ(
            a.with(word_at(m, 1)),
            b.with(word_at(m, 2)),
            c.with(word_at(m, 3)),
        ),
        Opcode::Rbs(a) => Opcode::Rbs(a.with(word_at(m, 1))),
        Opcode::Hlt => Opcode::Hlt,
    }
}

/// `code` with its operands read, or the fault when they reach past the last address.
pub open spec fn populate_spec(m: Machine, code: Opcode<Parameter<()>>) -> Result<
    Opcode<Parameter<i64>>,
    ExecutionFault,
> {
    if m.pc + code.operands().len() > MAX_ADDRESS {
        Err(ExecutionFault::Overflow)
    } else {
        Ok(filled(m, code))
    }
}

/// The instruction at the program counter, with its operands read.
pub open spec fn current_spec(m: Machine) -> Result<Opcode<Parameter<i64>>, Fault> {
    match decode_spec(cell(m, m.pc) as int) {
        Err(e) => Err(Fault::Decode(e)),
        Ok(code) => match populate_spec(m, code) {
            Err(e) => Err(Fault::Execution(e)),
            Ok(op) => Ok(op),
        },
    }
}

/// A step that stops on `f`, leaving the machine as it was.
pub open spec fn fail(m: Machine, f: ExecutionFault) -> (Machine, Option<Evaluation>) {
    (m, Some(Evaluation::EvaluationError(Fault::Execution(f))))
}

/// `m` with the program counter moved `n` words on, then `e` (when there is room).
pub open spec fn advance(m: Machine, n: int, e: Option<Evaluation>) -> (Machine, Option<Evaluation>) {
    if m.pc + n > MAX_ADDRESS {
        fail(m, ExecutionFault::Overflow)
    } else {
        (Machine { pc: m.pc + n, ..m }, e)
    }
}

/// An instruction that stores `f(x, y)` through `c` and moves on four words.
pub open spec fn store_spec(
    m: Machine,
    a: Parameter<i64>,
    b: Parameter<i64>,
    c: Parameter<i64>,
    f: spec_fn(int, int) -> int,
) -> (Machine, Option<Evaluation>) {
    match load_spec(m, a) {
        Err(e) => fail(m, e),
        Ok(x) => match load_spec(m, b) {
            Err(e) => fail(m, e),
            Ok(y) => {
                let v = f(x as int, y as int);
                if !(i64::MIN <= v <= i64::MAX) {
                    fail(m, ExecutionFault::Overflow)
                } else {
                    match target_spec(m, c) {
                        Err(e) => fail(m, e),
                        Ok(t) => advance(Machine { mem: m.mem.insert(t, v as i64), ..m }, 4, None),
                    }
                }
            },
        },
    }
}

/// A jump to `b` when `a` is non-zero exactly when `when_nonzero`; else three words on.
pub open spec fn jump_spec(
    m: Machine,
    a: Parameter<i64>,
    b: Parameter<i64>,
    when_nonzero: bool,
) -> (Machine, Option<Evaluation>) {
    match load_spec(m, a) {
        Err(e) => fail(m, e),
        Ok(x) => if (x != 0) == when_nonzero {
            match load_spec(m, b) {
                Err(e) => fail(m, e),
                Ok(t) => if t < 0 {
                    fail(m, ExecutionFault::NegativeAddress)
                } else {
                    (Machine { pc: t as int, ..m }, None)
                },
            }
        } else {
            advance(m, 3, None)
        },
    }
}

/// The machine after applying `op`, and what stops the run there, if anything.
pub open spec fn apply_spec(m: Machine, op: Opcode<Parameter<i64>>) -> (Machine, Option<Evaluation>) {
    match op {
        Opcode::Add(a, b, c) => store_spec(m, a, b, c, |x: int, y: int| x + y),
        Opcode::Mul(a, b, c) => store_spec(m, a, b, c, |x: int, y: int| x * y),
        Opcode::Lt(a, b, c) => store_spec(m, a, b, c, |x: int, y: int| if x < y { 1 } else { 0 }),
        Opcode::Equ(a, b, c) => store_spec(
            m,
            a,
            b,
            c,
            |x: int, y: int| if x == y { 1 } else { 0 },
        ),
        Opcode::Inp(a) => advance(m, 2, Some(Evaluation::Input(a))),
        Opcode::Out(a) => match load_spec(m, a) {
            Err(e) => fail(m, e),
            Ok(v) => advance(m, 2, Some(Evaluation::Output(v))),
        },
        Opcode::Jnz(a, b) => jump_spec(m, a, b, true),
        Opcode::Jz(a, b) => jump_spec(m, a, b, false),
        Opcode::Rbs(a) => match load_spec(m, a) {
            Err(e) => fail(m, e),
            Ok(v) => if !(i64::MIN <= m.rb + v <= i64::MAX) {
                fail(m, ExecutionFault::Overflow)
            } else {
                advance(Machine { rb: m.rb + v, ..m }, 2, None)
            },
        },
        Opcode::Hlt => (m, Some(Evaluation::Halt)),
    }
}

/// One fetch-decode-execute step: the next machine, and what stops the run there, if anything.
pub open spec fn step_spec(m: Machine) -> (Machine, Option<Evaluation>) {
    match current_spec(m) {
        Err(f) => (m, Some(Evaluation::EvaluationError(f))),
        Ok(op) => apply_spec(m, op),
    }
}

/// At most `fuel` steps, up to the first that stops the run.
pub open spec fn run_spec(m: Machine, fuel: nat) -> (Machine, Option<Evaluation>)
    decreases fuel,
{
    if fuel == 0 {
        (m, None)
    } else {
        let (next, stop) = step_spec(m);
        if stop is Some {
            (next, stop)
        } else {
            run_spec(next, (fuel - 1) as nat)
        }
    }
}

/// A step keeps the machine well formed.
pub proof fn lemma_step_wf(m: Machine)
    requires
        machine_wf(m),
    ensures
        machine_wf(step_spec(m).0),
{
}

} // verus!
