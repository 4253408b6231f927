use vstd::prelude::*;

verus! {

/// Why a word could not be read as an instruction.
#[derive(Debug, PartialEq, Eq, Clone, Copy)]
pub enum DecodeError {
    /// The operation selector (the two low decimal digits) names no operation.
    UnknownOpcode(i64),
    /// An addressing-mode digit is none of 0, 1 and 2.
    UnknownMode(i64),
}

/// One instruction, with one operand per position that the operation uses.
#[derive(Debug, PartialEq, Eq, Clone, Copy)]
pub enum Opcode<A> {
    /// `c = a + b`
    Add(A, A, A),
    /// `c = a * b`
    Mul(A, A, A),
    /// Read one input value into the operand.
    Inp(A),
    /// Produce the operand's value as output.
    Out(A),
    /// Jump to `b` when `a` is not zero.
    Jnz(A, A),
    /// Jump to `b` when `a` is zero.
    Jz(A, A),
    /// `c = 1` when `a < b`, else `c = 0`.
    Lt(A, A, A),
    /// `c = 1` when `a == b`, else `c = 0`.
    Equ(A, A, A),
    /// Add the operand to the relative base.
    Rbs(A),
    /// Stop.
    Hlt,
}

/// An operand together with its addressing mode.
#[derive(Debug, PartialEq, Eq, Clone, Copy)]
pub enum Parameter<A> {
    /// The payload is an address.
    Pos(A),
    /// The payload is the value itself.
    Imm(A),
    /// The payload is an offset from the relative base.
    Rel(A),
}

impl<T> Parameter<T> {
    /// What the operand carries, whatever its mode.
    pub open spec fn payload(self) -> T {
        match self {
            Parameter::Pos(x) => x,
            Parameter::Imm(x) => x,
            Parameter::Rel(x) => x,
        }
    }

    /// An operand of the same mode that carries `b`.
    pub open spec fn with<B>(self, b: B) -> Parameter<B> {
        match self {
            Parameter::Pos(_) => Parameter::Pos(b),
            Parameter::Imm(_) => Parameter::Imm(b),
            Parameter::Rel(_) => Parameter::Rel(b),
        }
    }

    /// Applies `f` to the payload and keeps the mode.
    pub fn map<B, F: Fn(&T) -> B>(&self, f: F) -> (r: Parameter<B>)
        requires
            f.requires((&self.payload(),)),
        ensures
            r == self.with(r.payload()),
            f.ensures((&self.payload(),), r.payload()),
    {
        match self {
            Parameter::Pos(x) => Parameter::Pos(f(x)),
            Parameter::Imm(x) => Parameter::Imm(f(x)),
            Parameter::Rel(x) => Parameter::Rel(f(x)),
        }
    }

    /// Applies `f` to the payload and keeps the mode, or passes on the error of `f`.
    pub fn try_map<B, E, F: Fn(&T) -> Result<B, E>>(&self, f: F) -> (r: Result<Parameter<B>, E>)
        requires
            f.requires((&self.payload(),)),
        ensures
            match r {
                Ok(p) => p == self.with(p.payload()) && f.ensures(
                    (&self.payload(),),
                    Ok::<B, E>(p.payload()),
                ),
                Err(e) => f.ensures((&self.payload(),), Err::<B, E>(e)),
            },
    {
        match self {
            Parameter::Pos(x) => match f(x) {
                Ok(b) => Ok(Parameter::Pos(b)),
                Err(e) => Err(e),
            },
            Parameter::Imm(x) => match f(x) {
                Ok(b) => Ok(Parameter::Imm(b)),
                Err(e) => Err(e),
            },
            Parameter::Rel(x) => match f(x) {
                Ok(b) => Ok(Parameter::Rel(b)),
                Err(e) => Err(e),
            },
        }
    }
}

/// The addressing mode that the digit `d` selects.
pub open spec fn mode_spec(d: int) -> Result<Parameter<()>, DecodeError> {
    if d == 0 {
        Ok(Parameter::Pos(()))
    } else if d == 1 {
        Ok(Parameter::Imm(()))
    } else if d == 2 {
        Ok(Parameter::Rel(()))
    } else {
        Err(DecodeError::UnknownMode(d as i64))
    }
}

/// The mode that a digit selects.
pub fn mode(d: i64) -> (r: Result<Parameter<()>, DecodeError>)
    ensures
        r == mode_spec(d as int),
{
    if d == 0 {
        Ok(Parameter::Pos(()))
    } else if d == 1 {
        Ok(Parameter::Imm(()))
    } else if d == 2 {
        Ok(Parameter::Rel(()))
    } else {
        Err(DecodeError::UnknownMode(d))
    }
}

/// The absolute value of `x`.
pub open spec fn abs(x: int) -> nat {
    if x >= 0 {
        x as nat
    } else {
        (-x) as nat
    }
}

/// The decimal digit of `m` at place `i` (place zero is the units).
pub open spec fn place_digit(m: nat, i: nat) -> nat
    decreases i,
{
    if i == 0 {
        m % 10
    } else {
        place_digit(m / 10, (i - 1) as nat)
    }
}

/// The digit of `x` at place `i`, with the sign of `x` (division truncates toward zero).
pub open spec fn digit_spec(x: int, i: nat) -> int {
    if x >= 0 {
        place_digit(abs(x), i) as int
    } else {
        -(place_digit(abs(x), i) as int)
    }
}

/// The operation selector of a word: its two low digits, with the sign of the word.
pub open spec fn selector(x: int) -> int {
    if x >= 0 {
        (abs(x) % 100) as int
    } else {
        -((abs(x) % 100) as int)
    }
}

/// The magnitude of `x` as an unsigned integer.
fn magnitude(x: i64) -> (r: u64)
    ensures
        r as nat == abs(x as int),
{
    if x >= 0 {
        x as u64
    } else {
        (-(x as i128)) as u64
    }
}

/// The digit of `x` at place `i`, signed as `x` is.
pub fn digit(x: i64, i: u32) -> (r: i64)
    ensures
        r as int == digit_spec(x as int, i as nat),
{
    let mut m: u64 = magnitude(x);
    let mut k: u32 = 0;
    while k < i
        invariant
            k <= i,
            place_digit(abs(x as int), i as nat) == place_digit(m as nat, (i - k) as nat),
        decreases i - k,
    {
        m = m / 10;
        k = k + 1;
    }
    let d = (m % 10) as i64;
    if x >= 0 {
        d
    } else {
        -d
    }
}

/// The operation that selector `s` names, with the operands in the positions it uses.
pub open spec fn operation_spec(
    s: int,
    a: Parameter<()>,
    b: Parameter<()>,
    c: Parameter<()>,
) -> Result<Opcode<Parameter<()>>, DecodeError> {
    if s == 1 {
        Ok(Opcode::Add(a, b, c))
    } else if s == 2 {
        Ok(Opcode::Mul(a, b, c))
    } else if s == 3 {
        Ok(Opcode::Inp(a))
    } else if s == 4 {
        Ok(Opcode::Out(a))
    } else if s == 5 {
        Ok(Opcode::Jnz(a, b))
    } else if s == 6 {
        Ok(Opcode::Jz(a, b))
    } else if s == 7 {
        Ok(Opcode::Lt(a, b, c))
    } else if s == 8 {
        Ok(Opcode::Equ(a, b, c))
    } else if s == 9 {
        Ok(Opcode::Rbs(a))
    } else if s == 99 {
        Ok(Opcode::Hlt)
    } else {
        Err(DecodeError::UnknownOpcode(s as i64))
    }
}

/// The instruction that word `x` encodes.
///
/// The digits at places 2, 3 and 4 are the modes of the first, second and
/// third operand; all three are checked, first to last, before the selector.
pub open spec fn decode_spec(x: int) -> Result<Opcode<Parameter<()>>, DecodeError> {
    match mode_spec(digit_spec(x, 2)) {
        Err(e) => Err(e),
        Ok(a) => match mode_spec(digit_spec(x, 3)) {
            Err(e) => Err(e),
            Ok(b) => match mode_spec(digit_spec(x, 4)) {
                Err(e) => Err(e),
                Ok(c) => operation_spec(selector(x), a, b, c),
            },
        },
    }
}

impl<T> Opcode<T> {
    /// The operands, first to last.
    pub open spec fn operands(self) -> Seq<T> {
        match self {
            Opcode::Add(a, b, c) => seq![a, b, c],
            Opcode::Mul(a, b, c) => seq![a, b, c],
            Opcode::Inp(a) => seq![a],
            Opcode::Out(a) => seq![a],
            Opcode::Jnz(a, b) => seq![a, b],
            Opcode::Jz(a, b) => seq![a, b],
            Opcode::Lt(a, b, c) => seq![a, b, c],
            Opcode::Equ(a, b, c) => seq![a, b, c],
            Opcode::Rbs(a) => seq![a],
            Opcode::Hlt => seq![],
        }
    }

    /// Whether `o` is the same operation as `self`, whatever its operands.
    pub open spec fn same_operation<B>(self, o: Opcode<B>) -> bool {
        match (self, o) {
            (Opcode::Add(..), Opcode::Add(..)) => true,
            (Opcode::Mul(..), Opcode::Mul(..)) => true,
            (Opcode::Inp(..), Opcode::Inp(..)) => true,
            (Opcode::Out(..), Opcode::Out(..)) => true,
            (Opcode::Jnz(..), Opcode::Jnz(..)) => true,
            (Opcode::Jz(..), Opcode::Jz(..)) => true,
            (Opcode::Lt(..), Opcode::Lt(..)) => true,
            (Opcode::Equ(..), Opcode::Equ(..)) => true,
            (Opcode::Rbs(..), Opcode::Rbs(..)) => true,
            (Opcode::Hlt, Opcode::Hlt) => true,
            _ => false,
        }
    }

    /// Whether `r` is `self` with every operand `x` replaced by a result of `f` on `x`.
    pub open spec fn mapped_by<B, F: Fn(&T) -> B>(self, f: F, r: Opcode<B>) -> bool {
        &&& self.same_operation(r)
        &&& r.operands().len() == self.operands().len()
        &&& forall|i: int|
            0 <= i < self.operands().len() ==> #[trigger] f.ensures(
                (&self.operands()[i],),
                r.operands()[i],
            )
    }

    /// Applies `f` to every operand, first to last, and keeps the operation.
    pub fn mut_map<B, F: Fn(&T) -> B>(&self, f: &F) -> (r: Opcode<B>)
        requires
            forall|i: int| 0 <= i < self.operands().len() ==> f.requires((&self.operands()[i],)),
        ensures
            self.mapped_by(*f, r),
    {
        proof {
            let ops = self.operands();
            if ops.len() > 0 {
                assert(f.requires((&ops[0],)));
            }
            if ops.len() > 1 {
                assert(f.requires((&ops[1],)));
            }
            if ops.len() > 2 {
                assert(f.requires((&ops[2],)));
            }
        }
        match self {
            Opcode::Add(a, b, c) => Opcode::Add((*f)(a), (*f)(b), (*f)(c)),
            Opcode::Mul(a, b, c) => Opcode::Mul((*f)(a), (*f)(b), (*f)(c)),
            Opcode::Out(a) => Opcode::Out((*f)(a)),
            Opcode::Inp(a) => Opcode::Inp((*f)(a)),
            Opcode::Jnz(a, b) => Opcode::Jnz((*f)(a), (*f)(b)),
            Opcode::Jz(a, b) => Opcode::Jz((*f)(a), (*f)(b)),
            Opcode::Lt(a, b, c) => Opcode::Lt((*f)(a), (*f)(b), (*f)(c)),
            Opcode::Equ(a, b, c) => Opcode::Equ((*f)(a), (*f)(b), (*f)(c)),
            Opcode::Rbs(a) => Opcode::Rbs((*f)(a)),
            Opcode::Hlt => Opcode::Hlt,
        }
    }

    /// Applies `f` to every operand and keeps the operation.
    pub fn map<B, F: Fn(&T) -> B>(&self, f: F) -> (r: Opcode<B>)
        requires
            forall|i: int| 0 <= i < self.operands().len() ==> f.requires((&self.operands()[i],)),
        ensures
            self.mapped_by(f, r),
    {
        self.mut_map(&f)
    }
}

impl Opcode<Parameter<()>> {
    /// Reads word `x` as an instruction whose operands are still unread.
    pub fn decode(x: i64) -> (r: Result<Opcode<Parameter<()>>, DecodeError>)
        ensures
            r == decode_spec(x as int),
    {
        let a = match mode(digit(x, 2)) {
            Ok(p) => p,
            Err(e) => return Err(e),
        };
        let b = match mode(digit(x, 3)) {
            Ok(p) => p,
            Err(e) => return Err(e),
        };
        let c = match mode(digit(x, 4)) {
            Ok(p) => p,
            Err(e) => return Err(e),
        };
        let m = magnitude(x);
        let s: i64 = if x >= 0 {
            (m % 100) as i64
        } else {
            -((m % 100) as i64)
        };
        if s == 1 {
            Ok(Opcode::Add(a, b, c))
        } else if s == 2 {
            Ok(Opcode::Mul(a, b, c))
        } else if s == 3 {
            Ok(Opcode::Inp(a))
        } else if s == 4 {
            Ok(Opcode::Out(a))
        } else if s == 5 {
            Ok(Opcode::Jnz(a, b))
        } else if s == 6 {
            Ok(Opcode::Jz(a, b))
        } else if s == 7 {
            Ok(Opcode::Lt(a, b, c))
        } else if s == 8 {
            Ok(Opcode::Equ(a, b, c))
        } else if s == 9 {
            Ok(Opcode::Rbs(a))
        } else if s == 99 {
            Ok(Opcode::Hlt)
        } else {
            Err(DecodeError::UnknownOpcode(s))
        }
    }
}

} // verus!
