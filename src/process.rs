use vstd::prelude::*;

use crate::intcode::Intcode;
use crate::machine::{
    advance as advance_spec, apply_spec, cell, current_spec, fail, initial_machine, jump_spec,
    load_spec, populate_spec, run_spec, step_spec, target_spec, Evaluation, ExecutionFault, Fault,
    Machine,
};
use crate::memory::{lemma_domain, Memory, MAX_ADDRESS};
use crate::opcode::{Opcode, Parameter};

verus! {

/// How many instructions one call of `resume` runs at most. A program that has not
/// reached an input, output, halt or fault by then leaves the process paused, ready
/// to be resumed from where it stopped.
pub const STEP_BUDGET: u64 = 18446744073709551615;

/// Where a process stands between two calls.
#[derive(Debug, Clone, Copy, PartialEq, Eq)]
pub enum ProcessStatus {
    /// Ready to run.
    Paused,
    /// Produced a value; still runnable.
    Outputting(i64),
    /// Waiting for one input value, to be stored through the operand.
    Awaiting(Parameter<i64>),
    /// Halted or faulted; nothing more will happen.
    Exit,
}

/// What a process is, seen from outside.
pub struct ProcessView {
    pub machine: Machine,
    pub status: ProcessStatus,
    /// The fault that ended the process, if one did.
    pub fault: Option<Fault>,
}

/// The process that is about to run `program`.
pub open spec fn initial_view(program: Seq<i64>) -> ProcessView {
    ProcessView { machine: initial_machine(program), status: ProcessStatus::Paused, fault: None }
}

/// The process after a run that ended in `m`, stopped by `stop` (none: the budget ran out).
pub open spec fn settle(v: ProcessView, m: Machine, stop: Option<Evaluation>) -> ProcessView {
    match stop {
        None => ProcessView { machine: m, status: ProcessStatus::Paused, fault: v.fault },
        Some(Evaluation::Input(d)) => ProcessView {
            machine: m,
            status: ProcessStatus::Awaiting(d),
            fault: v.fault,
        },
        Some(Evaluation::Output(o)) => ProcessView {
            machine: m,
            status: ProcessStatus::Outputting(o),
            fault: v.fault,
        },
        Some(Evaluation::Halt) => ProcessView {
            machine: m,
            status: ProcessStatus::Exit,
            fault: v.fault,
        },
        Some(Evaluation::EvaluationError(f)) => ProcessView {
            machine: m,
            status: ProcessStatus::Exit,
            fault: Some(f),
        },
    }
}

/// The process after `resume`: a run from the program counter when it is paused or
/// has just produced output; unchanged when it waits for input or has exited.
pub open spec fn resume_spec(v: ProcessView) -> ProcessView {
    match v.status {
        ProcessStatus::Paused | ProcessStatus::Outputting(_) => {
            let (m, stop) = run_spec(v.machine, STEP_BUDGET as nat);
            settle(v, m, stop)
        },
        _ => v,
    }
}

/// The process after `feed(input)` while it waits: the input stored through the
/// awaited operand and the process paused, or exited on the fault of that operand.
pub open spec fn feed_spec(v: ProcessView, input: i64) -> ProcessView {
    match v.status {
        ProcessStatus::Awaiting(d) => match target_spec(v.machine, d) {
            Ok(t) => ProcessView {
                machine: Machine { mem: v.machine.mem.insert(t, input), ..v.machine },
                status: ProcessStatus::Paused,
                fault: v.fault,
            },
            Err(e) => ProcessView {
                status: ProcessStatus::Exit,
                fault: Some(Fault::Execution(e)),
                ..v
            },
        },
        _ => v,
    }
}

/// One run of a program: registers, memory, status and the fault that ended it.
#[derive(Debug, Clone)]
pub struct Process {
    pc: u64,
    memory: Memory,
    relbase: i64,
    status: ProcessStatus,
    fault: Option<Fault>,
}

impl View for Process {
    type V = ProcessView;

    closed spec fn view(&self) -> ProcessView {
        ProcessView { machine: self.machine(), status: self.status, fault: self.fault }
    }
}

/// The number of operands of `code`.
fn arity(code: &Opcode<Parameter<()>>) -> (r: u64)
    ensures
        r == code.operands().len(),
{
    match code {
        Opcode::Add(..) | Opcode::Mul(..) | Opcode::Lt(..) | Opcode::Equ(..) => 3,
        Opcode::Jnz(..) | Opcode::Jz(..) => 2,
        Opcode::Inp(..) | Opcode::Out(..) | Opcode::Rbs(..) => 1,
        Opcode::Hlt => 0,
    }
}

/// The operand of mode `p` that carries `v`.
fn bind(p: Parameter<()>, v: i64) -> (r: Parameter<i64>)
    ensures
        r == p.with(v),
{
    p.map(|_u: &()| -> (w: i64)
        ensures
            w == v,
        { v })
}

impl Process {
    /// The registers and memory.
    pub closed spec fn machine(&self) -> Machine {
        Machine { pc: self.pc as int, rb: self.relbase as int, mem: self.memory@ }
    }

    /// A paused process at the start of `code`.
    pub fn new(code: Intcode) -> (r: Process)
        ensures
            r@ == initial_view(code.0@),
    {
        let Intcode(v) = code;
        Process {
            pc: 0,
            memory: Memory::new(v),
            relbase: 0,
            status: ProcessStatus::Paused,
            fault: None,
        }
    }

    /// Stores `value` through operand `param`.
    fn set(&mut self, param: &Parameter<i64>, value: i64) -> (r: Result<(), ExecutionFault>)
        ensures
            match target_spec(old(self).machine(), *param) {
                Ok(t) => r is Ok && final(self)@ == (ProcessView {
                    machine: Machine {
                        mem: old(self).machine().mem.insert(t, value),
                        ..old(self).machine()
                    },
                    ..old(self)@
                }),
                Err(e) => r == Err::<(), ExecutionFault>(e) && final(self)@ == old(self)@,
            },
    {
        match *param {
            Parameter::Pos(key) => {
                if key < 0 {
                    Err(ExecutionFault::NegativeAddress)
                } else {
                    self.memory.write(key as u64, value);
                    Ok(())
                }
            },
            Parameter::Rel(x) => {
                let key: i128 = self.relbase as i128 + x as i128;
                if key < 0 {
                    Err(ExecutionFault::NegativeAddress)
                } else {
                    self.memory.write(key as u64, value);
                    Ok(())
                }
            },
            Parameter::Imm(_) => Err(ExecutionFault::WriteToImmediate),
        }
    }

    /// The value that operand `param` stands for.
    fn get(&self, param: &Parameter<i64>) -> (r: Result<i64, ExecutionFault>)
        ensures
            r == load_spec(self.machine(), *param),
    {
        proof {
            lemma_domain(&self.memory);
        }
        match *param {
            Parameter::Imm(x) => Ok(x),
            Parameter::Pos(p) => {
                if p < 0 {
                    Err(ExecutionFault::NegativeAddress)
                } else {
                    Ok(self.memory.read(p as u64))
                }
            },
            Parameter::Rel(rel_p) => {
                let p: i128 = self.relbase as i128 + rel_p as i128;
                if p < 0 {
                    Err(ExecutionFault::NegativeAddress)
                } else {
                    Ok(self.memory.read(p as u64))
                }
            },
        }
    }

    /// Moves the program counter to `pos`.
    fn jmp(&mut self, pos: u64)
        ensures
            final(self)@ == (ProcessView {
                machine: Machine { pc: pos as int, ..old(self).machine() },
                ..old(self)@
            }),
    {
        self.pc = pos;
    }

    /// Moves the program counter `steps` words on.
    fn inc(&mut self, steps: u64)
        requires
            old(self).pc + steps <= MAX_ADDRESS,
        ensures
            final(self)@ == (ProcessView {
                machine: Machine { pc: old(self).pc + steps, ..old(self).machine() },
                ..old(self)@
            }),
    {
        self.pc = self.pc + steps;
    }

    /// `code` with each operand read from the word at its position after the program counter.
    fn populate(&self, code: Opcode<Parameter<()>>) -> (r: Result<
        Opcode<Parameter<i64>>,
        ExecutionFault,
    >)
        ensures
            r == populate_spec(self.machine(), code),
    {
        proof {
            lemma_domain(&self.memory);
        }
        if self.pc > MAX_ADDRESS - arity(&code) {
            return Err(ExecutionFault::Overflow);
        }
        let pc = self.pc;
        match code {
            Opcode::Add(a, b, c) => Ok(
                Opcode::Add(
                    bind(a, self.memory.read(pc + 1)),
                    bind(b, self.memory.read(pc + 2)),
                    bind(c, self.memory.read(pc + 3)),
                ),
            ),
            Opcode::Mul(a, b, c) => Ok(
                Opcode::Mul(
                    bind(a, self.memory.read(pc + 1)),
                    bind(b, self.memory.read(pc + 2)),
                    bind(c, self.memory.read(pc + 3)),
                ),
            ),
            Opcode::Inp(a) => Ok(Opcode::Inp(bind(a, self.memory.read(pc + 1)))),
            Opcode::Out(a) => Ok(Opcode::Out(bind(a, self.memory.read(pc + 1)))),
            Opcode::Jnz(a, b) => Ok(
                Opcode::Jnz(bind(a, self.memory.read(pc + 1)), bind(b, self.memory.read(pc + 2))),
            ),
            Opcode::Jz(a, b) => Ok(
                Opcode::Jz(bind(a, self.memory.read(pc + 1)), bind(b, self.memory.read(pc + 2))),
            ),
            Opcode::Lt(a, b, c) => Ok(
                Opcode::Lt(
                    bind(a, self.memory.read(pc + 1)),
                    bind(b, self.memory.read(pc + 2)),
                    bind(c, self.memory.read(pc + 3)),
                ),
            ),
            Opcode::Equ(a, b, c) => Ok(
                Opcode::Equ(
                    bind(a, self.memory.read(pc + 1)),
                    bind(b, self.memory.read(pc + 2)),
                    bind(c, self.memory.read(pc + 3)),
                ),
            ),
            Opcode::Rbs(a) => Ok(Opcode::Rbs(bind(a, self.memory.read(pc + 1)))),
            Opcode::Hlt => Ok(Opcode::Hlt),
        }
    }

    /// The instruction at the program counter, decoded, with its operands read.
    fn current(&self) -> (r: Result<Opcode<Parameter<i64>>, Fault>)
        ensures
            r == current_spec(self.machine()),
    {
        proof {
            lemma_domain(&self.memory);
        }
        let word = self.memory.read(self.pc);
        let code = match Opcode::decode(word) {
            Ok(code) => code,
            Err(e) => return Err(Fault::Decode(e)),
        };
        match self.populate(code) {
            Ok(op) => Ok(op),
            Err(e) => Err(Fault::Execution(e)),
        }
    }

    /// The fault `e` as the end of a run.
    fn faulted(e: ExecutionFault) -> (r: Option<Evaluation>)
        ensures
            r == Some(Evaluation::EvaluationError(Fault::Execution(e))),
    {
        Some(Evaluation::EvaluationError(Fault::Execution(e)))
    }

    /// Moves the program counter `n` words on and reports `e`, or faults when there is no room.
    fn advance(&mut self, n: u64, e: Option<Evaluation>) -> (r: Option<Evaluation>)
        ensures
            (final(self).machine(), r) == advance_spec(old(self).machine(), n as int, e),
            keeps_status(final(self)@, old(self)@),
    {
        if self.pc > MAX_ADDRESS - n {
            Self::faulted(ExecutionFault::Overflow)
        } else {
            self.inc(n);
            e
        }
    }

    /// Stores `v` through `c` and moves on four words, or faults.
    fn store(&mut self, c: &Parameter<i64>, v: i128) -> (r: Option<Evaluation>)
        ensures
            (final(self).machine(), r) == (if !(i64::MIN <= v <= i64::MAX) {
                fail(old(self).machine(), ExecutionFault::Overflow)
            } else {
                match target_spec(old(self).machine(), *c) {
                    Err(e) => fail(old(self).machine(), e),
                    Ok(t) => advance_spec(
                        Machine {
                            mem: old(self).machine().mem.insert(t, v as i64),
                            ..old(self).machine()
                        },
                        4,
                        None,
                    ),
                }
            }),
            keeps_status(final(self)@, old(self)@),
    {
        if v < i64::MIN as i128 || v > i64::MAX as i128 {
            return Self::faulted(ExecutionFault::Overflow);
        }
        match self.set(c, v as i64) {
            Ok(()) => self.advance(4, None),
            Err(e) => Self::faulted(e),
        }
    }

    /// Jumps to `b` when `a` is non-zero exactly when `when_nonzero`, else moves on three words.
    fn jump(&mut self, a: &Parameter<i64>, b: &Parameter<i64>, when_nonzero: bool) -> (r: Option<
        Evaluation,
    >)
        ensures
            (final(self).machine(), r) == jump_spec(old(self).machine(), *a, *b, when_nonzero),
            keeps_status(final(self)@, old(self)@),
    {
        let x = match self.get(a) {
            Ok(x) => x,
            Err(e) => return Self::faulted(e),
        };
        if (x != 0) == when_nonzero {
            let t = match self.get(b) {
                Ok(t) => t,
                Err(e) => return Self::faulted(e),
            };
            if t < 0 {
                Self::faulted(ExecutionFault::NegativeAddress)
            } else {
                self.jmp(t as u64);
                None
            }
        } else {
            self.advance(3, None)
        }
    }

    /// Applies `op`, the instruction at the program counter.
    fn apply(&mut self, op: Opcode<Parameter<i64>>) -> (r: Option<Evaluation>)
        ensures
            (final(self).machine(), r) == apply_spec(old(self).machine(), op),
            keeps_status(final(self)@, old(self)@),
    {
        match op {
            Opcode::Add(a, b, c) | Opcode::Mul(a, b, c) | Opcode::Lt(a, b, c) | Opcode::Equ(
                a,
                b,
                c,
            ) => {
                let x = match self.get(&a) {
                    Ok(x) => x,
                    Err(e) => return Self::faulted(e),
                };
                let y = match self.get(&b) {
                    Ok(y) => y,
                    Err(e) => return Self::faulted(e),
                };
                let v: i128 = match op {
                    Opcode::Add(..) => x as i128 + y as i128,
                    Opcode::Mul(..) => {
                        assert(-0x4000_0000_0000_0000_0000_0000_0000_0000 <= (x as int) * (y as int)
                            <= 0x4000_0000_0000_0000_0000_0000_0000_0000) by (nonlinear_arith)
                            requires
                                i64::MIN <= x <= i64::MAX,
                                i64::MIN <= y <= i64::MAX,
                        ;
                        x as i128 * y as i128
                    },
                    Opcode::Lt(..) => if x < y {
                        1
                    } else {
                        0
                    },
                    _ => if x == y {
                        1
                    } else {
                        0
                    },
                };
                self.store(&c, v)
            },
            Opcode::Inp(a) => self.advance(2, Some(Evaluation::Input(a))),
            Opcode::Out(a) => match self.get(&a) {
                Ok(v) => self.advance(2, Some(Evaluation::Output(v))),
                Err(e) => Self::faulted(e),
            },
            Opcode::Jnz(a, b) => self.jump(&a, &b, true),
            Opcode::Jz(a, b) => self.jump(&a, &b, false),
            Opcode::Rbs(a) => {
                let inc = match self.get(&a) {
                    Ok(v) => v,
                    Err(e) => return Self::faulted(e),
                };
                let rb: i128 = self.relbase as i128 + inc as i128;
                if rb < i64::MIN as i128 || rb > i64::MAX as i128 {
                    return Self::faulted(ExecutionFault::Overflow);
                }
                self.relbase = rb as i64;
                self.advance(2, None)
            },
            Opcode::Hlt => Some(Evaluation::Halt),
        }
    }

    /// One fetch-decode-execute step.
    fn step(&mut self) -> (r: Option<Evaluation>)
        ensures
            (final(self).machine(), r) == step_spec(old(self).machine()),
            keeps_status(final(self)@, old(self)@),
    {
        match self.current() {
            Ok(op) => self.apply(op),
            Err(f) => Some(Evaluation::EvaluationError(f)),
        }
    }

    /// Runs steps until one stops the run, or until `STEP_BUDGET` steps have run.
    fn eval(&mut self) -> (r: Option<Evaluation>)
        ensures
            (final(self).machine(), r) == run_spec(old(self).machine(), STEP_BUDGET as nat),
            keeps_status(final(self)@, old(self)@),
    {
        let mut fuel: u64 = STEP_BUDGET;
        loop
            invariant
                run_spec(old(self).machine(), STEP_BUDGET as nat) == run_spec(
                    self.machine(),
                    fuel as nat,
                ),
                keeps_status(self@, old(self)@),
            decreases fuel,
        {
            if fuel == 0 {
                return None;
            }
            let stop = self.step();
            fuel = fuel - 1;
            if stop.is_some() {
                return stop;
            }
        }
    }

    /// Runs the process up to its next input, output, halt or fault (or for at most
    /// `STEP_BUDGET` instructions), and returns its new status. A process that waits
    /// for input or has exited is left as it is.
    pub fn resume(&mut self) -> (r: ProcessStatus)
        ensures
            final(self)@ == resume_spec(old(self)@),
            r == final(self)@.status,
    {
        match self.status {
            ProcessStatus::Paused | ProcessStatus::Outputting(_) => {},
            _ => return self.status,
        }
        match self.eval() {
            None => self.status = ProcessStatus::Paused,
            Some(Evaluation::Input(dest)) => self.status = ProcessStatus::Awaiting(dest),
            Some(Evaluation::Output(o)) => self.status = ProcessStatus::Outputting(o),
            Some(Evaluation::Halt) => self.status = ProcessStatus::Exit,
            Some(Evaluation::EvaluationError(f)) => {
                self.status = ProcessStatus::Exit;
                self.fault = Some(f);
            },
        }
        self.status
    }

    /// Stores `input` through the operand that the process waits on, and returns the
    /// new status: paused, or exited when that operand cannot be written.
    pub fn feed(&mut self, input: i64) -> (r: ProcessStatus)
        requires
            old(self)@.status is Awaiting,
        ensures
            final(self)@ == feed_spec(old(self)@, input),
            r == final(self)@.status,
    {
        if let ProcessStatus::Awaiting(dest) = self.status {
            match self.set(&dest, input) {
                Ok(()) => self.status = ProcessStatus::Paused,
                Err(e) => {
                    self.status = ProcessStatus::Exit;
                    self.fault = Some(Fault::Execution(e));
                },
            }
        }
        self.status
    }

    /// The word at address zero.
    pub fn head(&self) -> (r: i64)
        ensures
            r == cell(self@.machine, 0),
    {
        proof {
            lemma_domain(&self.memory);
        }
        self.memory.read(0)
    }

    /// The word at `address`.
    pub fn read(&self, address: u64) -> (r: i64)
        ensures
            r == cell(self@.machine, address as int),
    {
        proof {
            lemma_domain(&self.memory);
        }
        self.memory.read(address)
    }

    /// Where the process stands.
    pub fn status(&self) -> (r: ProcessStatus)
        ensures
            r == self@.status,
    {
        self.status
    }

    /// The fault that ended the process, if one did.
    pub fn fault(&self) -> (r: Option<Fault>)
        ensures
            r == self@.fault,
    {
        self.fault
    }
}

/// Whether `a` has the status and fault of `b`.
pub open spec fn keeps_status(a: ProcessView, b: ProcessView) -> bool {
    a.status == b.status && a.fault == b.fault
}

/// A process that waits for input or has exited is left as it is by `resume`, however
/// often it is called, and `resume` reports the same status each time.
pub proof fn lemma_resume_idempotent(v: ProcessView)
    requires
        v.status is Awaiting || v.status is Exit,
    ensures
        resume_spec(v) == v,
        resume_spec(resume_spec(v)) == v,
        resume_spec(resume_spec(v)).status == resume_spec(v).status,
{
}

/// Something that turns one input value into at most one output value.
pub trait Runnable {
    fn run(&mut self, input: i64) -> Option<i64>;
}

} // verus!
