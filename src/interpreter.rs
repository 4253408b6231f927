use vstd::prelude::*;

use crate::intcode::Intcode;
use crate::process::{feed_spec, initial_view, resume_spec, Process, ProcessStatus, ProcessView};

verus! {

/// Drives a process over a list of input values.
pub struct Interpreter {
    process: Process,
}

/// The outputs of an interpreter, pulled one at a time.
pub struct IntcodeOut<'a> {
    inputs: Vec<i64>,
    position: usize,
    interpreter: &'a mut Interpreter,
}

/// Resumes `v` until it produces an output, feeding it `inputs` from `pos` on whenever it
/// waits: the process, the position of the next unused input, and the output, if any.
/// There is none when the process exits, pauses, or waits after the inputs are used up.
pub open spec fn pull(v: ProcessView, inputs: Seq<i64>, pos: nat) -> (ProcessView, nat, Option<i64>)
    decreases inputs.len() - pos,
{
    let w = resume_spec(v);
    match w.status {
        ProcessStatus::Outputting(o) => (w, pos, Some(o)),
        ProcessStatus::Awaiting(_) => if pos < inputs.len() {
            pull(feed_spec(w, inputs[pos as int]), inputs, pos + 1)
        } else {
            (w, pos, None)
        },
        _ => (w, pos, None),
    }
}

impl Interpreter {
    /// The process that the interpreter drives.
    pub closed spec fn process(&self) -> ProcessView {
        self.process@
    }

    /// An interpreter at the start of `code`.
    pub fn new(code: Intcode) -> (r: Self)
        ensures
            r.process() == initial_view(code.0@),
    {
        Self { process: Process::new(code) }
    }

    /// The outputs of the process, fed from `inputs` in order.
    pub fn execute<'a>(&'a mut self, inputs: Vec<i64>) -> (r: IntcodeOut<'a>)
        ensures
            r.inputs() == inputs@,
            r.position() == 0,
            r.process() == old(self).process(),
    {
        IntcodeOut { inputs, position: 0, interpreter: self }
    }
}

impl<'a> IntcodeOut<'a> {
    /// The input values, all of them.
    pub closed spec fn inputs(&self) -> Seq<i64> {
        self.inputs@
    }

    /// How many of the input values have been fed.
    pub closed spec fn position(&self) -> nat {
        self.position as nat
    }

    /// The process of the interpreter that produces the outputs.
    pub closed spec fn process(&self) -> ProcessView {
        self.interpreter.process@
    }

    /// The next output, or none once the process has exited or the inputs ran out.
    pub fn next(&mut self) -> (r: Option<i64>)
        ensures
            (final(self).process(), final(self).position(), r) == pull(
                old(self).process(),
                old(self).inputs(),
                old(self).position(),
            ),
            final(self).inputs() == old(self).inputs(),
    {
        loop
            invariant
                self.inputs@ == old(self).inputs@,
                pull(old(self).process(), old(self).inputs(), old(self).position()) == pull(
                    self.interpreter.process@,
                    self.inputs@,
                    self.position as nat,
                ),
            decreases self.inputs.len() - self.position,
        {
            let status = self.interpreter.process.resume();
            match status {
                ProcessStatus::Outputting(o) => return Some(o),
                ProcessStatus::Awaiting(_) => {
                    if self.position < self.inputs.len() {
                        let input = self.inputs[self.position];
                        self.interpreter.process.feed(input);
                        self.position = self.position + 1;
                    } else {
                        return None;
                    }
                },
                _ => return None,
            }
        }
    }
}

/// `n` pulls from `v` with `inputs` from `pos` on: the process, the position of the next
/// unused input, and the outputs in the order they came.
pub open spec fn session(v: ProcessView, inputs: Seq<i64>, pos: nat, n: nat) -> (
    ProcessView,
    nat,
    Seq<i64>,
)
    decreases n,
{
    if n == 0 {
        (v, pos, Seq::empty())
    } else {
        let (w, p, out) = pull(v, inputs, pos);
        match out {
            Some(o) => {
                let (x, q, rest) = session(w, inputs, p, (n - 1) as nat);
                (x, q, seq![o] + rest)
            },
            None => (w, p, Seq::empty()),
        }
    }
}

/// Two processes started on the same program and fed the same inputs reach the same
/// memory and registers and produce the same outputs, however many outputs are pulled.
pub proof fn lemma_deterministic(
    program: Seq<i64>,
    inputs: Seq<i64>,
    n: nat,
    first: ProcessView,
    second: ProcessView,
)
    requires
        first == initial_view(program),
        second == initial_view(program),
    ensures
        session(first, inputs, 0, n) == session(second, inputs, 0, n),
        session(first, inputs, 0, n).0.machine.mem == session(second, inputs, 0, n).0.machine.mem,
        session(first, inputs, 0, n).2 == session(second, inputs, 0, n).2,
{
}

} // verus!
