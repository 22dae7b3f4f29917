//! Runs the generated assembly on a small simulator of the target machine:
//! one data register D, one address register A, a program counter, and a
//! flat memory with the stack pointer at address 0 and the segment-base
//! registers at addresses 1 to 4.

use std::collections::HashMap;
use vm_translator::translate::{initial_data, parse_content};

enum Instr {
    At(i64),
    Comp(String),
}

struct Machine {
    mem: Vec<i64>,
    a: i64,
    d: i64,
    pc: usize,
}

const SP: usize = 0;
const LCL: usize = 1;
const ARG: usize = 2;
const THIS: usize = 3;
const THAT: usize = 4;

fn translate(lines: &[&str], unit: &str) -> Vec<String> {
    let content: Vec<String> = lines.iter().map(|s| s.to_string()).collect();
    parse_content(content, unit.to_string()).expect("translation failed")
}

/// Two-pass assembly: labels resolve to instruction indices, named cells to
/// fresh data addresses from 16 up; comments are skipped.
fn assemble(lines: &[String]) -> Vec<Instr> {
    let mut symbols: HashMap<String, i64> = HashMap::new();
    symbols.insert("SP".to_string(), 0);
    symbols.insert("LCL".to_string(), 1);
    symbols.insert("ARG".to_string(), 2);
    symbols.insert("THIS".to_string(), 3);
    symbols.insert("THAT".to_string(), 4);
    for i in 0..16 {
        symbols.insert(format!("R{}", i), i);
    }
    let mut count: i64 = 0;
    for line in lines {
        if line.starts_with("//") {
            continue;
        }
        if let Some(name) = line.strip_prefix('(') {
            let name = name.strip_suffix(')').expect("malformed label");
            symbols.insert(name.to_string(), count);
        } else {
            count += 1;
        }
    }
    let mut next_var: i64 = 16;
    let mut program: Vec<Instr> = Vec::new();
    for line in lines {
        if line.starts_with("//") || line.starts_with('(') {
            continue;
        }
        if let Some(sym) = line.strip_prefix('@') {
            let value = if let Ok(n) = sym.parse::<i64>() {
                n
            } else if let Some(v) = symbols.get(sym) {
                *v
            } else {
                let v = next_var;
                symbols.insert(sym.to_string(), v);
                next_var += 1;
                v
            };
            program.push(Instr::At(value));
        } else {
            program.push(Instr::Comp(line.clone()));
        }
    }
    program
}

fn fresh_machine() -> Machine {
    Machine { mem: vec![0; 32768], a: 0, d: 0, pc: 0 }
}

fn step(m: &mut Machine, program: &[Instr]) {
    match &program[m.pc] {
        Instr::At(v) => {
            m.a = *v;
            m.pc += 1;
        }
        Instr::Comp(op) => {
            let addr = m.a as usize;
            let mut jumped = false;
            match op.as_str() {
                "D=A" => m.d = m.a,
                "D=M" => m.d = m.mem[addr],
                "M=D" => m.mem[addr] = m.d,
                "M=M+1" => m.mem[addr] += 1,
                "M=M-1" => m.mem[addr] -= 1,
                "A=M" => m.a = m.mem[addr],
                "D=D+A" => m.d += m.a,
                "D=M+D" => m.d += m.mem[addr],
                "A=M+D" => m.a = m.mem[addr] + m.d,
                "D=D-1" => m.d -= 1,
                "A=D+A" => m.a += m.d,
                "M=D+M" => m.mem[addr] += m.d,
                "M=M-D" => m.mem[addr] -= m.d,
                "D=M-D" => m.d = m.mem[addr] - m.d,
                "M=M&D" => m.mem[addr] &= m.d,
                "M=M|D" => m.mem[addr] |= m.d,
                "M=!M" => m.mem[addr] = !m.mem[addr],
                "M=-M" => m.mem[addr] = -m.mem[addr],
                "M=-1" => m.mem[addr] = -1,
                "M=0" => m.mem[addr] = 0,
                "0;JMP" => {
                    m.pc = m.a as usize;
                    jumped = true;
                }
                "D;JNE" => {
                    if m.d != 0 {
                        m.pc = m.a as usize;
                        jumped = true;
                    }
                }
                "D;JEQ" => {
                    if m.d == 0 {
                        m.pc = m.a as usize;
                        jumped = true;
                    }
                }
                "D;JGT" => {
                    if m.d > 0 {
                        m.pc = m.a as usize;
                        jumped = true;
                    }
                }
                "D;JLT" => {
                    if m.d < 0 {
                        m.pc = m.a as usize;
                        jumped = true;
                    }
                }
                other => panic!("simulator does not know the operation {}", other),
            }
            if !jumped {
                m.pc += 1;
            }
        }
    }
}

fn run(m: &mut Machine, program: &[Instr], max_steps: usize) {
    let mut steps: usize = 0;
    while m.pc < program.len() && steps < max_steps {
        step(m, program);
        steps += 1;
    }
}

/// Stack balance: the net stack-pointer change of a sequence is the sum of
/// the per-command static effects (+1 push, -1 pop, -1 binary, 0 unary).
#[test]
fn stack_balance_of_generated_code() {
    let out = translate(
        &[
            "push constant 7",
            "push constant 8",
            "add",
            "push constant 5",
            "sub",
            "neg",
            "push constant 9",
            "pop local 2",
            "push local 2",
            "not",
        ],
        "Foo",
    );
    let program = assemble(&out);
    let mut m = fresh_machine();
    m.mem[SP] = 256;
    m.mem[LCL] = 1000;
    run(&mut m, &program, 10_000);
    // Net effect: +1 +1 -1 +1 -1 0 +1 -1 +1 0 = +2.
    assert_eq!(m.mem[SP], 258);
    assert_eq!(m.mem[256], -(7 + 8 - 5));
    assert_eq!(m.mem[1002], 9);
    assert_eq!(m.mem[257], !9);
}

/// Comparison correctness on concrete operands.
#[test]
fn comparisons_on_concrete_values() {
    let cases: &[(&str, i64, i64, i64)] = &[
        ("gt", 7, 3, -1),
        ("gt", 3, 7, 0),
        ("eq", 5, 5, -1),
        ("eq", 5, 6, 0),
        ("lt", 3, 7, -1),
        ("lt", 7, 3, 0),
    ];
    for (op, left, right, expected) in cases {
        let left_line = format!("push constant {}", left);
        let right_line = format!("push constant {}", right);
        let out = translate(&[left_line.as_str(), right_line.as_str(), op], "Foo");
        let program = assemble(&out);
        let mut m = fresh_machine();
        m.mem[SP] = 256;
        run(&mut m, &program, 10_000);
        assert_eq!(m.mem[SP], 257, "{} {} {}", op, left, right);
        assert_eq!(m.mem[256], *expected, "{} {} {}", op, left, right);
    }
}

/// The pointer segment reads the THIS and THAT base registers.
#[test]
fn pointer_segment_reads_bases() {
    let out = translate(&["push pointer 0", "push pointer 1"], "Foo");
    let program = assemble(&out);
    let mut m = fresh_machine();
    m.mem[SP] = 256;
    m.mem[THIS] = 1234;
    m.mem[THAT] = 4321;
    run(&mut m, &program, 10_000);
    assert_eq!(m.mem[256], 1234);
    assert_eq!(m.mem[257], 4321);
    assert_eq!(m.mem[SP], 258);
}

/// The pointer segment writes the bases too.
#[test]
fn pointer_segment_writes_bases() {
    let out = translate(&["push constant 999", "pop pointer 0"], "Foo");
    let program = assemble(&out);
    let mut m = fresh_machine();
    m.mem[SP] = 256;
    run(&mut m, &program, 10_000);
    assert_eq!(m.mem[THIS], 999);
    assert_eq!(m.mem[SP], 256);
}

/// The indirect segments address through their base registers.
#[test]
fn indirect_segments_address_through_bases() {
    let out = translate(
        &["push constant 41", "pop argument 3", "push argument 3", "pop this 0"],
        "Foo",
    );
    let program = assemble(&out);
    let mut m = fresh_machine();
    m.mem[SP] = 256;
    m.mem[ARG] = 2000;
    m.mem[THIS] = 2100;
    run(&mut m, &program, 10_000);
    assert_eq!(m.mem[2003], 41);
    assert_eq!(m.mem[2100], 41);
    assert_eq!(m.mem[SP], 256);
}

/// Calling convention round trip: `call` followed by the callee's
/// `function` and `return` restores LCL, ARG, THIS, THAT, and leaves the
/// stack pointer one above its pre-argument position, holding the return
/// value; execution resumes after the call.
#[test]
fn calling_convention_round_trip() {
    let out = translate(
        &[
            "function main 0",
            "push constant 11",
            "push constant 22",
            "call helper 2",
            "label END",
            "goto END",
            "function helper 0",
            "push constant 99",
            "return",
        ],
        "Foo",
    );
    let program = assemble(&out);
    let mut m = fresh_machine();
    m.mem[SP] = 256;
    m.mem[LCL] = 900;
    m.mem[ARG] = 901;
    m.mem[THIS] = 902;
    m.mem[THAT] = 903;
    run(&mut m, &program, 2_000);
    assert_eq!(m.mem[LCL], 900);
    assert_eq!(m.mem[ARG], 901);
    assert_eq!(m.mem[THIS], 902);
    assert_eq!(m.mem[THAT], 903);
    // Two arguments were consumed and one return value pushed.
    assert_eq!(m.mem[SP], 257);
    assert_eq!(m.mem[256], 99);
}

/// Inside the callee, ARG points at the first argument and LCL at the
/// first local slot, which the `function` loop fills with zeros.
#[test]
fn callee_frame_layout() {
    let out = translate(
        &[
            "function main 0",
            "push constant 11",
            "push constant 22",
            "call helper 2",
            "label END",
            "goto END",
            "function helper 3",
            "push argument 0",
            "push argument 1",
            "add",
            "push local 2",
            "add",
            "return",
        ],
        "Foo",
    );
    let program = assemble(&out);
    let mut m = fresh_machine();
    m.mem[SP] = 256;
    run(&mut m, &program, 5_000);
    // The callee returned 11 + 22 + 0: the third local was zero-filled.
    assert_eq!(m.mem[256], 33);
    assert_eq!(m.mem[SP], 257);
}

/// Static segment isolation at runtime: each unit's cell keeps its own
/// value even for the same offset.
#[test]
fn static_segments_stay_isolated() {
    let mut all: Vec<String> = Vec::new();
    all.extend(translate(&["push constant 77", "pop static 3"], "Foo"));
    all.extend(translate(&["push constant 88", "pop static 3"], "Bar"));
    all.extend(translate(&["push static 3"], "Foo"));
    let program = assemble(&all);
    let mut m = fresh_machine();
    m.mem[SP] = 256;
    run(&mut m, &program, 10_000);
    assert_eq!(m.mem[SP], 257);
    assert_eq!(m.mem[256], 77);
}

/// Bootstrap: the prologue sets the stack pointer to exactly 256 and then
/// calls the entry function with zero arguments, so at its entry the five
/// frame words sit at 256..260, ARG points at 256 and LCL at 261.
#[test]
fn bootstrap_initializes_and_calls_entry() {
    let mut all = initial_data();
    all.extend(translate(&["function Sys.init 0", "label HALT", "goto HALT"], "Sys"));
    let program = assemble(&all);
    let mut m = fresh_machine();
    run(&mut m, &program, 2_000);
    assert_eq!(m.mem[SP], 261);
    assert_eq!(m.mem[ARG], 256);
    assert_eq!(m.mem[LCL], 261);
}

/// Two comparisons in one run use distinct labels, so both branch
/// correctly.
#[test]
fn repeated_comparisons_in_one_run() {
    let out = translate(
        &[
            "push constant 1",
            "push constant 2",
            "lt",
            "push constant 5",
            "push constant 4",
            "gt",
            "and",
        ],
        "Foo",
    );
    let program = assemble(&out);
    let mut m = fresh_machine();
    m.mem[SP] = 256;
    run(&mut m, &program, 10_000);
    assert_eq!(m.mem[SP], 257);
    assert_eq!(m.mem[256], -1);
}

/// A whole program through the bootstrap: the entry function sums the
/// numbers five down to one with a comparison-guarded loop over static
/// cells, then leaves the sum on the stack.
#[test]
fn end_to_end_summation_program() {
    let mut all = initial_data();
    all.extend(translate(
        &[
            "function Sys.init 0",
            "push constant 5",
            "pop static 0",
            "push constant 0",
            "pop static 1",
            "label LOOP",
            "push static 0",
            "push constant 0",
            "gt",
            "if-goto BODY",
            "goto DONE",
            "label BODY",
            "push static 1",
            "push static 0",
            "add",
            "pop static 1",
            "push static 0",
            "push constant 1",
            "sub",
            "pop static 0",
            "goto LOOP",
            "label DONE",
            "push static 1",
            "label HALT",
            "goto HALT",
        ],
        "Sum",
    ));
    let program = assemble(&all);
    let mut m = fresh_machine();
    run(&mut m, &program, 20_000);
    assert_eq!(m.mem[SP], 262);
    assert_eq!(m.mem[261], 5 + 4 + 3 + 2 + 1);
}

/// Label scoping at runtime: a jump taken inside one function lands at that
/// function's own label even when another function reuses the label text.
#[test]
fn scoped_jumps_stay_in_their_function() {
    let out = translate(
        &[
            "function first 0",
            "push constant 1",
            "if-goto STOP",
            "push constant 777",
            "label STOP",
            "push constant 50",
            "label END",
            "goto END",
            "function second 0",
            "label STOP",
            "push constant 666",
            "label OTHER",
            "goto OTHER",
        ],
        "Foo",
    );
    let program = assemble(&out);
    let mut m = fresh_machine();
    m.mem[SP] = 256;
    run(&mut m, &program, 2_000);
    // The taken jump skipped the 777 push but stayed in `first`: only the
    // 50 was pushed, and `second`'s 666 was never reached.
    assert_eq!(m.mem[SP], 257);
    assert_eq!(m.mem[256], 50);
}
