use intcode_vm::memory::Memory;
use intcode_vm::opcode::{digit, mode, DecodeError, Opcode, Parameter};
use intcode_vm::Intcode;

#[test]
fn decode_mixed_modes() {
    assert_eq!(
        Opcode::decode(1002),
        Ok(Opcode::Mul(Parameter::Pos(()), Parameter::Imm(()), Parameter::Pos(())))
    );
    assert_eq!(Opcode::decode(203), Ok(Opcode::Inp(Parameter::Rel(()))));
    assert_eq!(Opcode::decode(99), Ok(Opcode::Hlt));
    assert_eq!(Opcode::decode(21107), Ok(Opcode::Lt(Parameter::Imm(()), Parameter::Imm(()), Parameter::Rel(()))));
}

#[test]
fn decode_faults() {
    assert_eq!(Opcode::decode(77), Err(DecodeError::UnknownOpcode(77)));
    assert_eq!(Opcode::decode(0), Err(DecodeError::UnknownOpcode(0)));
    assert_eq!(Opcode::decode(-1), Err(DecodeError::UnknownOpcode(-1)));
    assert_eq!(Opcode::decode(-105), Err(DecodeError::UnknownMode(-1)));
    assert_eq!(Opcode::decode(30001), Err(DecodeError::UnknownMode(3)));
    assert_eq!(Opcode::decode(399), Err(DecodeError::UnknownMode(3)));
}

#[test]
fn digits_and_modes() {
    assert_eq!(digit(12345, 2), 3);
    assert_eq!(digit(-12345, 2), -3);
    assert_eq!(digit(7, 5), 0);
    assert_eq!(mode(2), Ok(Parameter::Rel(())));
    assert_eq!(mode(4), Err(DecodeError::UnknownMode(4)));
}

#[test]
fn parameter_maps() {
    let p = Parameter::Rel(4);
    assert_eq!(p.map(|x: &i64| x * 2), Parameter::Rel(8));
    assert_eq!(p.try_map(|x: &i64| -> Result<i64, ()> { Ok(x + 1) }), Ok(Parameter::Rel(5)));
    assert_eq!(p.try_map(|_x: &i64| -> Result<i64, ()> { Err(()) }), Err(()));
}

#[test]
fn opcode_maps() {
    let op = Opcode::Add(1, 2, 3);
    assert_eq!(op.map(|x: &i64| x * 10), Opcode::Add(10, 20, 30));
    assert_eq!(Opcode::Rbs(5).mut_map(&|x: &i64| x + 1), Opcode::Rbs(6));
    assert_eq!(Opcode::<i64>::Hlt.map(|x: &i64| x + 1), Opcode::Hlt);
}

#[test]
fn memory_grows_on_write() {
    let mut m = Memory::new(vec![1, 2, 3]);
    assert_eq!(m.read(10000), 0);
    m.write(10000, 77);
    assert_eq!(m.read(10000), 77);
    assert_eq!(m.read(1), 2);
    assert_eq!(m.read(3), 0);
    m.write(1, -9);
    assert_eq!(m.read(1), -9);
}

#[test]
fn parse_program_text() {
    assert_eq!(Intcode::parse(" 1, -2,\n+3 \n"), Ok(Intcode(vec![1, -2, 3])));
    assert_eq!(Intcode::parse("-9223372036854775808"), Ok(Intcode(vec![i64::MIN])));
    assert_eq!(Intcode::parse("9223372036854775807"), Ok(Intcode(vec![i64::MAX])));
    assert!(Intcode::parse("9223372036854775808").is_err());
    assert!(Intcode::parse("1,,2").is_err());
    assert!(Intcode::parse("1,x").is_err());
    assert!(Intcode::parse("").is_err());
    assert!(Intcode::parse("-").is_err());
    assert!(Intcode::parse("1,2,").is_err());
}

#[test]
fn replace_noun_and_verb() {
    let code = Intcode(vec![1, 0, 0, 3, 99]);
    assert_eq!(code.replace(12, 2), Intcode(vec![1, 12, 2, 3, 99]));
}
