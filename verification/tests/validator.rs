//! Decoding and validating whole modules: well-typed modules pass, each
//! refusal reason is reachable.

use wasi_core::webassembly::CompileError;
use wasi_core::webassembly::Instr;
use wasi_core::webassembly::ValType;
use wasi_core::webassembly::compile;
use wasi_core::webassembly::validate_module;

const HEADER: [u8; 8] = [0, 97, 115, 109, 1, 0, 0, 0];

fn module(sections: &[&[u8]]) -> Vec<u8> {
    let mut bytes = HEADER.to_vec();
    for s in sections {
        bytes.extend_from_slice(s);
    }
    bytes
}

#[test]
fn accepts_constant_returning_function() {
    // (func (result i64) i64.const 0)
    let bytes = module(&[
        &[1, 5, 1, 0x60, 0, 1, 0x7e],
        &[3, 2, 1, 0],
        &[10, 6, 1, 4, 0, 0x42, 0, 0x0b],
    ]);
    let m = compile(bytes).unwrap();
    assert_eq!(m.types.len(), 1);
    assert_eq!(m.types[0].params, vec![]);
    assert_eq!(m.types[0].results, vec![ValType::I64]);
    assert_eq!(m.funcs, vec![0]);
    assert_eq!(m.bodies.len(), 1);
    assert_eq!(m.bodies[0].code, vec![Instr::I64Const]);
    assert!(validate_module(&m));
}

#[test]
fn accepts_local_get_and_drop() {
    // (func (param i32) local.get 0 drop)
    let bytes = module(&[
        &[1, 5, 1, 0x60, 1, 0x7f, 0],
        &[3, 2, 1, 0],
        &[10, 7, 1, 5, 0, 0x20, 0, 0x1a, 0x0b],
    ]);
    let m = compile(bytes).unwrap();
    assert_eq!(m.bodies[0].code, vec![Instr::LocalGet(0), Instr::Drop]);
}

#[test]
fn accepts_local_set_and_tee_at_declared_types() {
    // (func (param i32) (result i32)
    //   (local f64)
    //   f64.const 0  f64.neg  local.set 1
    //   local.get 0  local.tee 0)
    let bytes = module(&[
        &[1, 6, 1, 0x60, 1, 0x7f, 1, 0x7f],
        &[3, 2, 1, 0],
        &[
            10, 22, 1, 20, 1, 1, 0x7c, 0x44, 0, 0, 0, 0, 0, 0, 0, 0, 0x9a, 0x21, 1, 0x20, 0, 0x22,
            0, 0x0b,
        ],
    ]);
    let m = compile(bytes).unwrap();
    assert_eq!(m.bodies[0].locals, vec![ValType::F64]);
    assert_eq!(
        m.bodies[0].code,
        vec![
            Instr::F64Const,
            Instr::F64Neg,
            Instr::LocalSet(1),
            Instr::LocalGet(0),
            Instr::LocalTee(0),
        ]
    );
}

#[test]
fn accepts_f64_arithmetic() {
    // (func (result f64) f64.const 0 f64.const 0 f64.add)
    let bytes = module(&[
        &[1, 5, 1, 0x60, 0, 1, 0x7c],
        &[3, 2, 1, 0],
        &[10, 23, 1, 21, 0, 0x44, 0, 0, 0, 0, 0, 0, 0, 0, 0x44, 0, 0, 0, 0, 0, 0, 0, 0, 0xa0, 0x0b],
    ]);
    assert!(compile(bytes).is_ok());
}

#[test]
fn rejects_truncated_bytes() {
    assert_eq!(compile(vec![0, 97, 115]).unwrap_err(), CompileError::UnexpectedEnd);
}

#[test]
fn rejects_wrong_magic() {
    assert_eq!(
        compile(vec![1, 2, 3, 4, 1, 0, 0, 0]).unwrap_err(),
        CompileError::BadMagic
    );
}

#[test]
fn rejects_unsupported_binary_version() {
    assert_eq!(
        compile(vec![0, 97, 115, 109, 2, 0, 0, 0]).unwrap_err(),
        CompileError::UnsupportedVersion
    );
}

#[test]
fn rejects_sections_out_of_order() {
    let bytes = module(&[&[3, 2, 1, 0], &[1, 4, 1, 0x60, 0, 0]]);
    assert_eq!(compile(bytes).unwrap_err(), CompileError::MalformedSection);
}

#[test]
fn rejects_overwide_integer() {
    let bytes = module(&[&[1, 0x80, 0x80, 0x80, 0x80, 0x80]]);
    assert_eq!(compile(bytes).unwrap_err(), CompileError::MalformedInteger);
}

#[test]
fn rejects_integer_with_excess_high_bits() {
    // A fifth byte carrying bits past the thirty-second.
    let bytes = module(&[&[1, 0x80, 0x80, 0x80, 0x80, 0x10]]);
    assert_eq!(compile(bytes).unwrap_err(), CompileError::MalformedInteger);
}

#[test]
fn rejects_overlong_constant_operand() {
    // An i32.const operand spread over six bytes.
    let bytes = module(&[
        &[1, 4, 1, 0x60, 0, 0],
        &[3, 2, 1, 0],
        &[10, 10, 1, 8, 0, 0x41, 0x80, 0x80, 0x80, 0x80, 0x80, 0],
    ]);
    assert_eq!(compile(bytes).unwrap_err(), CompileError::MalformedInteger);
}

#[test]
fn rejects_unknown_value_type() {
    let bytes = module(&[&[1, 5, 1, 0x60, 1, 0x7b, 0]]);
    assert_eq!(compile(bytes).unwrap_err(), CompileError::MalformedValType);
}

#[test]
fn rejects_missing_functype_tag() {
    let bytes = module(&[&[1, 3, 1, 0x61, 0]]);
    assert_eq!(compile(bytes).unwrap_err(), CompileError::MalformedType);
}

#[test]
fn rejects_unsupported_opcode() {
    // i32.add is outside the supported straight-line core.
    let bytes = module(&[
        &[1, 4, 1, 0x60, 0, 0],
        &[3, 2, 1, 0],
        &[10, 5, 1, 3, 0, 0x6a, 0x0b],
    ]);
    assert_eq!(compile(bytes).unwrap_err(), CompileError::UnsupportedOpcode);
}

#[test]
fn rejects_body_size_mismatch() {
    let bytes = module(&[
        &[1, 4, 1, 0x60, 0, 0],
        &[3, 2, 1, 0],
        &[10, 7, 1, 5, 0, 0x42, 0, 0x0b, 0],
    ]);
    assert_eq!(compile(bytes).unwrap_err(), CompileError::MalformedBody);
}

#[test]
fn rejects_function_with_undeclared_type() {
    let bytes = module(&[
        &[1, 4, 1, 0x60, 0, 0],
        &[3, 2, 1, 5],
        &[10, 4, 1, 2, 0, 0x0b],
    ]);
    assert_eq!(compile(bytes).unwrap_err(), CompileError::Invalid);
}

#[test]
fn rejects_function_and_body_count_mismatch() {
    let bytes = module(&[&[1, 4, 1, 0x60, 0, 0], &[3, 2, 1, 0], &[10, 1, 0]]);
    assert_eq!(compile(bytes).unwrap_err(), CompileError::Invalid);
}

#[test]
fn rejects_result_left_unproduced() {
    // (func (result i64)) with an empty body leaves the stack empty.
    let bytes = module(&[
        &[1, 5, 1, 0x60, 0, 1, 0x7e],
        &[3, 2, 1, 0],
        &[10, 4, 1, 2, 0, 0x0b],
    ]);
    assert_eq!(compile(bytes).unwrap_err(), CompileError::Invalid);
}

#[test]
fn skips_unknown_sections() {
    // A custom section (id 0) and a memory section (id 5) around the three
    // sections validation reads.
    let bytes = module(&[
        &[0, 2, 1, 97],
        &[1, 5, 1, 0x60, 0, 1, 0x7e],
        &[3, 2, 1, 0],
        &[5, 3, 1, 0, 1],
        &[10, 6, 1, 4, 0, 0x42, 0, 0x0b],
    ]);
    assert!(compile(bytes).is_ok());
}
