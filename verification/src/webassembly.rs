//! Decoding and validation of guest WebAssembly modules.
//!
//! A module arrives as bytes.  `compile` decodes the type, function and code
//! sections and type-checks every function body against a small stack type
//! system: each instruction pops the operand types it demands and pushes the
//! type it produces, locals are read and written at their declared types, and
//! at the end of a body the operand stack must be exactly the declared result
//! types.  A module whose bytes do not decode, or whose bodies do not type,
//! is refused — it must never reach instantiation.
//!
//! The instruction set covered is the straight-line core that local-variable
//! code uses: locals, constants, and a few numeric operators.  Anything else
//! is refused as unsupported rather than guessed at.

use vstd::prelude::*;

verus! {

/// A WebAssembly value type.
#[derive(Copy, Clone, Debug, PartialEq, Eq, Structural)]
pub enum ValType {
    I32,
    I64,
    F32,
    F64,
}

/// A function type: what a function consumes and what it returns.
#[derive(Debug)]
pub struct FuncType {
    /// The parameter types, in order.
    pub params: Vec<ValType>,
    /// The result types, in order.
    pub results: Vec<ValType>,
}

/// One decoded instruction.  Constant operands are not kept: validation
/// depends only on their types, which the opcode already names.
#[derive(Copy, Clone, Debug, PartialEq, Eq, Structural)]
pub enum Instr {
    Nop,
    Drop,
    LocalGet(u32),
    LocalSet(u32),
    LocalTee(u32),
    I32Const,
    I64Const,
    F32Const,
    F64Const,
    I32Eqz,
    F64Neg,
    F64Add,
}

/// One decoded function body: its declared locals, expanded one type per
/// local, and its instructions with the terminating `end` stripped.
#[derive(Debug)]
pub struct FuncBody {
    /// The declared locals, after the parameters.
    pub locals: Vec<ValType>,
    /// The body's instructions, in order.
    pub code: Vec<Instr>,
}

/// A decoded module: the three sections validation reads.
#[derive(Debug)]
pub struct WasmModule {
    /// The type section: the function types the module declares.
    pub types: Vec<FuncType>,
    /// The function section: each function's index into `types`.
    pub funcs: Vec<u32>,
    /// The code section: each function's body, in function order.
    pub bodies: Vec<FuncBody>,
}

/// Why a module was refused.
#[derive(Copy, Clone, Debug, PartialEq, Eq, Structural)]
pub enum CompileError {
    /// The bytes do not begin with the WebAssembly magic number.
    BadMagic,
    /// The bytes declare a binary version this decoder does not read.
    UnsupportedVersion,
    /// The bytes end before a complete item was read.
    UnexpectedEnd,
    /// A variable-width integer is wider than its type allows.
    MalformedInteger,
    /// A section's declared size does not match its content, or sections
    /// arrive out of order.
    MalformedSection,
    /// A function type is not introduced by the function-type tag.
    MalformedType,
    /// A value type byte names no value type.
    MalformedValType,
    /// An opcode outside the supported straight-line core.
    UnsupportedOpcode,
    /// A function body's declared size does not match its content.
    MalformedBody,
    /// The module decoded but a function body does not type-check.
    Invalid,
}

/// The effect of one instruction on the operand stack, given the combined
/// parameter-and-local types; `None` where the instruction does not type.
pub open spec fn instr_step(
    locals: Seq<ValType>,
    stack: Seq<ValType>,
    instr: Instr,
) -> Option<Seq<ValType>> {
    match instr {
        Instr::Nop => Some(stack),
        Instr::Drop => if stack.len() > 0 {
            Some(stack.drop_last())
        } else {
            None
        },
        Instr::LocalGet(i) => if (i as int) < locals.len() {
            Some(stack.push(locals[i as int]))
        } else {
            None
        },
        Instr::LocalSet(i) => if (i as int) < locals.len() && stack.len() > 0 && stack.last()
            == locals[i as int] {
            Some(stack.drop_last())
        } else {
            None
        },
        Instr::LocalTee(i) => if (i as int) < locals.len() && stack.len() > 0 && stack.last()
            == locals[i as int] {
            Some(stack)
        } else {
            None
        },
        Instr::I32Const => Some(stack.push(ValType::I32)),
        Instr::I64Const => Some(stack.push(ValType::I64)),
        Instr::F32Const => Some(stack.push(ValType::F32)),
        Instr::F64Const => Some(stack.push(ValType::F64)),
        Instr::I32Eqz => if stack.len() > 0 && stack.last() == ValType::I32 {
            Some(stack)
        } else {
            None
        },
        Instr::F64Neg => if stack.len() > 0 && stack.last() == ValType::F64 {
            Some(stack)
        } else {
            None
        },
        Instr::F64Add => if stack.len() >= 2 && stack.last() == ValType::F64 && stack[stack.len()
            - 2] == ValType::F64 {
            Some(stack.drop_last())
        } else {
            None
        },
    }
}

/// The operand stack after running `code` from `stack`, or `None` the moment
/// an instruction does not type.
pub open spec fn stack_after(
    locals: Seq<ValType>,
    code: Seq<Instr>,
    stack: Seq<ValType>,
) -> Option<Seq<ValType>>
    decreases code.len(),
{
    if code.len() == 0 {
        Some(stack)
    } else {
        match instr_step(locals, stack, code[0]) {
            Some(next) => stack_after(locals, code.drop_first(), next),
            None => None,
        }
    }
}

/// A body types against a function type when, reading locals from the
/// parameters followed by the declared locals, the whole body runs from the
/// empty stack to exactly the declared results.
pub open spec fn body_well_typed(ft: FuncType, body: FuncBody) -> bool {
    stack_after(ft.params@ + body.locals@, body.code@, Seq::empty()) == Some(ft.results@)
}

/// A module is well typed when every function names a declared type and its
/// body types against it.
pub open spec fn module_well_typed(m: WasmModule) -> bool {
    &&& m.funcs@.len() == m.bodies@.len()
    &&& forall|i: int| 0 <= i < m.funcs@.len() ==> (#[trigger] m.funcs@[i]) < m.types@.len()
    &&& forall|i: int|
        0 <= i < m.funcs@.len() ==> body_well_typed(
            m.types@[#[trigger] m.funcs@[i] as int],
            m.bodies@[i],
        )
}

/// Whether the bytes open with the WebAssembly magic number.
pub open spec fn has_wasm_magic(bytes: Seq<u8>) -> bool {
    bytes.len() >= 8 && bytes[0] == 0x00u8 && bytes[1] == 0x61u8 && bytes[2] == 0x73u8 && bytes[3]
        == 0x6du8
}

/// Whether the bytes open with the magic number and the binary version this
/// decoder reads.
pub open spec fn has_wasm_header(bytes: Seq<u8>) -> bool {
    has_wasm_magic(bytes) && bytes[4] == 0x01u8 && bytes[5] == 0x00u8 && bytes[6] == 0x00u8
        && bytes[7] == 0x00u8
}

fn valtype_vecs_equal(a: &Vec<ValType>, b: &Vec<ValType>) -> (r: bool)
    ensures
        r == (a@ == b@),
{
    if a.len() != b.len() {
        return false;
    }
    let mut i: usize = 0;
    while i < a.len()
        invariant
            a@.len() == b@.len(),
            i <= a@.len(),
            forall|k: int| 0 <= k < i ==> a@[k] == b@[k],
        decreases a@.len() - i,
    {
        if a[i] != b[i] {
            return false;
        }
        i += 1;
    }
    proof {
        assert(a@ =~= b@);
    }
    true
}

/// Run one function body through the type system.
fn check_body(ft: &FuncType, body: &FuncBody) -> (r: bool)
    ensures
        r == body_well_typed(*ft, *body),
{
    let ghost genv: Seq<ValType> = ft.params@ + body.locals@;
    let mut env: Vec<ValType> = Vec::new();
    let mut i: usize = 0;
    while i < ft.params.len()
        invariant
            i <= ft.params@.len(),
            env@ =~= ft.params@.take(i as int),
        decreases ft.params@.len() - i,
    {
        env.push(ft.params[i]);
        i += 1;
    }
    proof {
        assert(env@ =~= ft.params@);
    }
    let mut j: usize = 0;
    while j < body.locals.len()
        invariant
            j <= body.locals@.len(),
            env@ =~= ft.params@ + body.locals@.take(j as int),
        decreases body.locals@.len() - j,
    {
        env.push(body.locals[j]);
        j += 1;
    }
    proof {
        assert(env@ =~= genv);
    }
    let mut stack: Vec<ValType> = Vec::new();
    let mut pc: usize = 0;
    proof {
        assert(body.code@.skip(0) =~= body.code@);
    }
    while pc < body.code.len()
        invariant
            pc <= body.code@.len(),
            env@ == genv,
            genv == ft.params@ + body.locals@,
            stack_after(genv, body.code@, Seq::empty()) == stack_after(
                genv,
                body.code@.skip(pc as int),
                stack@,
            ),
        decreases body.code@.len() - pc,
    {
        let instr = body.code[pc];
        let ghost pre_stack = stack@;
        let ghost rest = body.code@.skip(pc as int);
        proof {
            assert(rest[0] == body.code@[pc as int]);
            assert(rest.drop_first() =~= body.code@.skip(pc as int + 1));
        }
        let ok: bool = match instr {
            Instr::Nop => true,
            Instr::Drop => {
                match stack.pop() {
                    Some(_) => true,
                    None => false,
                }
            },
            Instr::LocalGet(x) => {
                if (x as usize) < env.len() {
                    let t = env[x as usize];
                    stack.push(t);
                    true
                } else {
                    false
                }
            },
            Instr::LocalSet(x) => {
                if (x as usize) < env.len() {
                    match stack.pop() {
                        Some(t) => t == env[x as usize],
                        None => false,
                    }
                } else {
                    false
                }
            },
            Instr::LocalTee(x) => {
                if (x as usize) < env.len() && stack.len() > 0 {
                    let t = stack[stack.len() - 1];
                    t == env[x as usize]
                } else {
                    false
                }
            },
            Instr::I32Const => {
                stack.push(ValType::I32);
                true
            },
            Instr::I64Const => {
                stack.push(ValType::I64);
                true
            },
            Instr::F32Const => {
                stack.push(ValType::F32);
                true
            },
            Instr::F64Const => {
                stack.push(ValType::F64);
                true
            },
            Instr::I32Eqz => {
                if stack.len() > 0 {
                    let t = stack[stack.len() - 1];
                    t == ValType::I32
                } else {
                    false
                }
            },
            Instr::F64Neg => {
                if stack.len() > 0 {
                    let t = stack[stack.len() - 1];
                    t == ValType::F64
                } else {
                    false
                }
            },
            Instr::F64Add => {
                if stack.len() >= 2 {
                    let a = stack[stack.len() - 1];
                    let b = stack[stack.len() - 2];
                    if a == ValType::F64 && b == ValType::F64 {
                        let _ = stack.pop();
                        true
                    } else {
                        false
                    }
                } else {
                    false
                }
            },
        };
        if !ok {
            proof {
                assert(instr_step(genv, pre_stack, instr) is None);
                assert(stack_after(genv, rest, pre_stack) is None);
            }
            return false;
        }
        proof {
            assert(instr_step(genv, pre_stack, instr) == Some(stack@));
            assert(stack_after(genv, rest, pre_stack) == stack_after(
                genv,
                body.code@.skip(pc as int + 1),
                stack@,
            ));
        }
        pc += 1;
    }
    proof {
        assert(body.code@.skip(body.code@.len() as int) =~= Seq::<Instr>::empty());
        assert(stack_after(genv, body.code@, Seq::empty()) == Some(stack@));
    }
    let equal = valtype_vecs_equal(&stack, &ft.results);
    proof {
        if stack@ == ft.results@ {
            assert(body_well_typed(*ft, *body));
        } else {
            assert(!body_well_typed(*ft, *body));
        }
    }
    equal
}

/// Run every function body through the type system and check that every
/// function names a declared type.
pub fn validate_module(m: &WasmModule) -> (r: bool)
    ensures
        r == module_well_typed(*m),
{
    if m.funcs.len() != m.bodies.len() {
        return false;
    }
    let mut i: usize = 0;
    while i < m.funcs.len()
        invariant
            m.funcs@.len() == m.bodies@.len(),
            i <= m.funcs@.len(),
            forall|k: int| 0 <= k < i ==> (#[trigger] m.funcs@[k]) < m.types@.len(),
            forall|k: int|
                0 <= k < i ==> body_well_typed(
                    m.types@[#[trigger] m.funcs@[k] as int],
                    m.bodies@[k],
                ),
        decreases m.funcs@.len() - i,
    {
        let ti = m.funcs[i];
        if (ti as usize) >= m.types.len() {
            return false;
        }
        if !check_body(&m.types[ti as usize], &m.bodies[i]) {
            return false;
        }
        i += 1;
    }
    true
}

fn parse_u32(bytes: &Vec<u8>, pos: usize) -> (r: Result<(u32, usize), CompileError>)
    requires
        pos <= bytes@.len(),
    ensures
        r matches Ok(p) ==> pos < p.1 <= bytes@.len(),
{
    let mut result: u32 = 0;
    let mut shift: u32 = 0;
    let mut p: usize = pos;
    while shift <= 28
        invariant
            pos <= p <= bytes@.len(),
            shift % 7 == 0,
            shift <= 35,
        decreases 35 - shift,
    {
        if p >= bytes.len() {
            return Err(CompileError::UnexpectedEnd);
        }
        let b = bytes[p];
        p = p + 1;
        if shift == 28 && (b & 0x7f) >= 0x10 {
            return Err(CompileError::MalformedInteger);
        }
        result = result | (((b & 0x7f) as u32) << shift);
        if b & 0x80 == 0 {
            return Ok((result, p));
        }
        shift = shift + 7;
    }
    Err(CompileError::MalformedInteger)
}

/// Skip one signed variable-width integer of at most `max_bytes` bytes.
fn skip_sleb(bytes: &Vec<u8>, pos: usize, max_bytes: usize) -> (r: Result<usize, CompileError>)
    requires
        pos <= bytes@.len(),
    ensures
        r matches Ok(p) ==> pos < p <= bytes@.len(),
{
    let mut p: usize = pos;
    let mut taken: usize = 0;
    while taken < max_bytes
        invariant
            pos <= p <= bytes@.len(),
            taken <= max_bytes,
            p == pos + taken,
        decreases max_bytes - taken,
    {
        if p >= bytes.len() {
            return Err(CompileError::UnexpectedEnd);
        }
        let b = bytes[p];
        p = p + 1;
        taken = taken + 1;
        if b & 0x80 == 0 {
            return Ok(p);
        }
    }
    Err(CompileError::MalformedInteger)
}

/// Which value type a byte encodes, if any.
pub open spec fn valtype_of_byte(b: u8) -> Option<ValType> {
    if b == 0x7f {
        Some(ValType::I32)
    } else if b == 0x7e {
        Some(ValType::I64)
    } else if b == 0x7d {
        Some(ValType::F32)
    } else if b == 0x7c {
        Some(ValType::F64)
    } else {
        None
    }
}

fn parse_valtype(bytes: &Vec<u8>, pos: usize) -> (r: Result<(ValType, usize), CompileError>)
    ensures
        r matches Ok(p) ==> pos < p.1 <= bytes@.len() && p.1 == pos + 1 && valtype_of_byte(
            bytes@[pos as int],
        ) == Some(p.0),
        pos >= bytes@.len() ==> r == Err::<(ValType, usize), CompileError>(
            CompileError::UnexpectedEnd,
        ),
        pos < bytes@.len() && valtype_of_byte(bytes@[pos as int]) is None ==> r == Err::<
            (ValType, usize),
            CompileError,
        >(CompileError::MalformedValType),
{
    if pos >= bytes.len() {
        return Err(CompileError::UnexpectedEnd);
    }
    let b = bytes[pos];
    let t = match b {
        0x7f => ValType::I32,
        0x7e => ValType::I64,
        0x7d => ValType::F32,
        0x7c => ValType::F64,
        _ => {
            return Err(CompileError::MalformedValType);
        },
    };
    Ok((t, pos + 1))
}

fn parse_valtype_vec(bytes: &Vec<u8>, pos: usize) -> (r: Result<(Vec<ValType>, usize), CompileError>)
    requires
        pos <= bytes@.len(),
    ensures
        r matches Ok(p) ==> pos < p.1 <= bytes@.len(),
{
    let (count, mut p) = match parse_u32(bytes, pos) {
        Ok(x) => x,
        Err(e) => {
            return Err(e);
        },
    };
    let mut out: Vec<ValType> = Vec::new();
    let mut k: u32 = 0;
    while k < count
        invariant
            pos < p <= bytes@.len(),
        decreases count - k,
    {
        let (t, p2) = match parse_valtype(bytes, p) {
            Ok(x) => x,
            Err(e) => {
                return Err(e);
            },
        };
        out.push(t);
        p = p2;
        k = k + 1;
    }
    Ok((out, p))
}

fn parse_type_section(bytes: &Vec<u8>, pos: usize, types: &mut Vec<FuncType>) -> (r: Result<
    usize,
    CompileError,
>)
    requires
        pos <= bytes@.len(),
    ensures
        r matches Ok(p) ==> pos < p <= bytes@.len(),
{
    let (count, mut p) = match parse_u32(bytes, pos) {
        Ok(x) => x,
        Err(e) => {
            return Err(e);
        },
    };
    let mut k: u32 = 0;
    while k < count
        invariant
            pos < p <= bytes@.len(),
        decreases count - k,
    {
        if p >= bytes.len() {
            return Err(CompileError::UnexpectedEnd);
        }
        if bytes[p] != 0x60 {
            return Err(CompileError::MalformedType);
        }
        let (params, p2) = match parse_valtype_vec(bytes, p + 1) {
            Ok(x) => x,
            Err(e) => {
                return Err(e);
            },
        };
        let (results, p3) = match parse_valtype_vec(bytes, p2) {
            Ok(x) => x,
            Err(e) => {
                return Err(e);
            },
        };
        types.push(FuncType { params, results });
        p = p3;
        k = k + 1;
    }
    Ok(p)
}

fn parse_function_section(bytes: &Vec<u8>, pos: usize, funcs: &mut Vec<u32>) -> (r: Result<
    usize,
    CompileError,
>)
    requires
        pos <= bytes@.len(),
    ensures
        r matches Ok(p) ==> pos < p <= bytes@.len(),
{
    let (count, mut p) = match parse_u32(bytes, pos) {
        Ok(x) => x,
        Err(e) => {
            return Err(e);
        },
    };
    let mut k: u32 = 0;
    while k < count
        invariant
            pos < p <= bytes@.len(),
        decreases count - k,
    {
        let (ti, p2) = match parse_u32(bytes, p) {
            Ok(x) => x,
            Err(e) => {
                return Err(e);
            },
        };
        funcs.push(ti);
        p = p2;
        k = k + 1;
    }
    Ok(p)
}

fn parse_locals(bytes: &Vec<u8>, pos: usize) -> (r: Result<
    (Vec<ValType>, usize),
    CompileError,
>)
    requires
        pos <= bytes@.len(),
    ensures
        r matches Ok(p) ==> pos < p.1 <= bytes@.len(),
{
    let (group_count, mut p) = match parse_u32(bytes, pos) {
        Ok(x) => x,
        Err(e) => {
            return Err(e);
        },
    };
    let mut locals: Vec<ValType> = Vec::new();
    let mut g: u32 = 0;
    while g < group_count
        invariant
            pos < p <= bytes@.len(),
        decreases group_count - g,
    {
        let (n, p2) = match parse_u32(bytes, p) {
            Ok(x) => x,
            Err(e) => {
                return Err(e);
            },
        };
        let (t, p3) = match parse_valtype(bytes, p2) {
            Ok(x) => x,
            Err(e) => {
                return Err(e);
            },
        };
        let mut c: u32 = 0;
        while c < n
            decreases n - c,
        {
            locals.push(t);
            c = c + 1;
        }
        p = p3;
        g = g + 1;
    }
    Ok((locals, p))
}

fn parse_code(bytes: &Vec<u8>, pos: usize) -> (r: Result<
    (Vec<Instr>, usize),
    CompileError,
>)
    requires
        pos <= bytes@.len(),
    ensures
        r matches Ok(p) ==> pos < p.1 <= bytes@.len(),
{
    let mut code: Vec<Instr> = Vec::new();
    let mut p: usize = pos;
    loop
        invariant
            pos <= p <= bytes@.len(),
        decreases bytes@.len() - p,
    {
        if p >= bytes.len() {
            return Err(CompileError::UnexpectedEnd);
        }
        let op = bytes[p];
        p = p + 1;
        match op {
            0x0b => {
                return Ok((code, p));
            },
            0x01 => {
                code.push(Instr::Nop);
            },
            0x1a => {
                code.push(Instr::Drop);
            },
            0x20 => {
                let (x, p2) = match parse_u32(bytes, p) {
                    Ok(v) => v,
                    Err(e) => {
                        return Err(e);
                    },
                };
                code.push(Instr::LocalGet(x));
                p = p2;
            },
            0x21 => {
                let (x, p2) = match parse_u32(bytes, p) {
                    Ok(v) => v,
                    Err(e) => {
                        return Err(e);
                    },
                };
                code.push(Instr::LocalSet(x));
                p = p2;
            },
            0x22 => {
                let (x, p2) = match parse_u32(bytes, p) {
                    Ok(v) => v,
                    Err(e) => {
                        return Err(e);
                    },
                };
                code.push(Instr::LocalTee(x));
                p = p2;
            },
            0x41 => {
                let p2 = match skip_sleb(bytes, p, 5) {
                    Ok(v) => v,
                    Err(e) => {
                        return Err(e);
                    },
                };
                code.push(Instr::I32Const);
                p = p2;
            },
            0x42 => {
                let p2 = match skip_sleb(bytes, p, 10) {
                    Ok(v) => v,
                    Err(e) => {
                        return Err(e);
                    },
                };
                code.push(Instr::I64Const);
                p = p2;
            },
            0x43 => {
                if bytes.len() - p < 4 {
                    return Err(CompileError::UnexpectedEnd);
                }
                code.push(Instr::F32Const);
                p = p + 4;
            },
            0x44 => {
                if bytes.len() - p < 8 {
                    return Err(CompileError::UnexpectedEnd);
                }
                code.push(Instr::F64Const);
                p = p + 8;
            },
            0x45 => {
                code.push(Instr::I32Eqz);
            },
            0x9a => {
                code.push(Instr::F64Neg);
            },
            0xa0 => {
                code.push(Instr::F64Add);
            },
            _ => {
                return Err(CompileError::UnsupportedOpcode);
            },
        }
    }
}

fn parse_code_section(bytes: &Vec<u8>, pos: usize, bodies: &mut Vec<FuncBody>) -> (r: Result<
    usize,
    CompileError,
>)
    requires
        pos <= bytes@.len(),
    ensures
        r matches Ok(p) ==> pos < p <= bytes@.len(),
{
    let (count, mut p) = match parse_u32(bytes, pos) {
        Ok(x) => x,
        Err(e) => {
            return Err(e);
        },
    };
    let mut k: u32 = 0;
    while k < count
        invariant
            pos < p <= bytes@.len(),
        decreases count - k,
    {
        let (body_size, p2) = match parse_u32(bytes, p) {
            Ok(x) => x,
            Err(e) => {
                return Err(e);
            },
        };
        if body_size as usize > bytes.len() - p2 {
            return Err(CompileError::UnexpectedEnd);
        }
        let entry_end = p2 + body_size as usize;
        let (locals, p3) = match parse_locals(bytes, p2) {
            Ok(x) => x,
            Err(e) => {
                return Err(e);
            },
        };
        let (code, p4) = match parse_code(bytes, p3) {
            Ok(x) => x,
            Err(e) => {
                return Err(e);
            },
        };
        if p4 != entry_end {
            return Err(CompileError::MalformedBody);
        }
        bodies.push(FuncBody { locals, code });
        p = p4;
        k = k + 1;
    }
    Ok(p)
}

fn parse_module(bytes: &Vec<u8>) -> (r: Result<WasmModule, CompileError>)
    ensures
        r is Ok ==> has_wasm_header(bytes@),
        bytes@.len() < 8 ==> r == Err::<WasmModule, CompileError>(CompileError::UnexpectedEnd),
        bytes@.len() >= 8 && !has_wasm_magic(bytes@) ==> r == Err::<WasmModule, CompileError>(
            CompileError::BadMagic,
        ),
        bytes@.len() >= 8 && has_wasm_magic(bytes@) && !has_wasm_header(bytes@) ==> r == Err::<
            WasmModule,
            CompileError,
        >(CompileError::UnsupportedVersion),
{
    if bytes.len() < 8 {
        return Err(CompileError::UnexpectedEnd);
    }
    if !(bytes[0] == 0x00 && bytes[1] == 0x61 && bytes[2] == 0x73 && bytes[3] == 0x6d) {
        return Err(CompileError::BadMagic);
    }
    if !(bytes[4] == 0x01 && bytes[5] == 0x00 && bytes[6] == 0x00 && bytes[7] == 0x00) {
        return Err(CompileError::UnsupportedVersion);
    }
    let mut types: Vec<FuncType> = Vec::new();
    let mut funcs: Vec<u32> = Vec::new();
    let mut bodies: Vec<FuncBody> = Vec::new();
    let mut last_section: u8 = 0;
    let mut pos: usize = 8;
    while pos < bytes.len()
        invariant
            pos <= bytes@.len(),
            has_wasm_header(bytes@),
        decreases bytes@.len() - pos,
    {
        let id = bytes[pos];
        let (size, p2) = match parse_u32(bytes, pos + 1) {
            Ok(x) => x,
            Err(e) => {
                return Err(e);
            },
        };
        if size as usize > bytes.len() - p2 {
            return Err(CompileError::UnexpectedEnd);
        }
        let section_end = p2 + size as usize;
        if id != 0 {
            if id <= last_section {
                return Err(CompileError::MalformedSection);
            }
            last_section = id;
        }
        match id {
            0x01 => {
                let p3 = match parse_type_section(bytes, p2, &mut types) {
                    Ok(x) => x,
                    Err(e) => {
                        return Err(e);
                    },
                };
                if p3 != section_end {
                    return Err(CompileError::MalformedSection);
                }
            },
            0x03 => {
                let p3 = match parse_function_section(bytes, p2, &mut funcs) {
                    Ok(x) => x,
                    Err(e) => {
                        return Err(e);
                    },
                };
                if p3 != section_end {
                    return Err(CompileError::MalformedSection);
                }
            },
            0x0a => {
                let p3 = match parse_code_section(bytes, p2, &mut bodies) {
                    Ok(x) => x,
                    Err(e) => {
                        return Err(e);
                    },
                };
                if p3 != section_end {
                    return Err(CompileError::MalformedSection);
                }
            },
            _ => {},
        }
        pos = section_end;
    }
    Ok(WasmModule { types, funcs, bodies })
}

/// Decode a module's bytes and refuse it unless every function body
/// type-checks.  What comes back `Ok` is well typed.
pub fn compile(bytes: Vec<u8>) -> (r: Result<WasmModule, CompileError>)
    ensures
        r matches Ok(m) ==> module_well_typed(m),
        r is Ok ==> has_wasm_header(bytes@),
        bytes@.len() < 8 ==> r == Err::<WasmModule, CompileError>(CompileError::UnexpectedEnd),
        bytes@.len() >= 8 && !has_wasm_magic(bytes@) ==> r == Err::<WasmModule, CompileError>(
            CompileError::BadMagic,
        ),
        bytes@.len() >= 8 && has_wasm_magic(bytes@) && !has_wasm_header(bytes@) ==> r == Err::<
            WasmModule,
            CompileError,
        >(CompileError::UnsupportedVersion),
{
    let m = match parse_module(&bytes) {
        Ok(m) => m,
        Err(e) => {
            return Err(e);
        },
    };
    if validate_module(&m) {
        Ok(m)
    } else {
        Err(CompileError::Invalid)
    }
}

} // verus!
