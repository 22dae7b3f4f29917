//! One generator per command kind, each built purely from emitter
//! primitives.  The contract of every generator lists its whole output, so
//! the addressing, arithmetic, branching, and calling-convention rules are
//! all stated here exactly.

use vstd::prelude::*;
use crate::emitter::{
    advance_sp_lines, at_lines, compare_with_d_lines, d_less_one_lines, d_plus_a_address_lines,
    d_plus_a_to_d_lines, d_to_m_lines, d_to_tmp_lines, get_address_from_segment_lines,
    get_value_at_lines, get_value_from_segment_lines, goto_label_lines, goto_value_at_lines,
    jump_if_d_eq_lines, jump_if_d_neq_lines, label_lines, m_to_d_lines, m_less_d_to_d_lines,
    move_value_to_d_lines, pop_from_stack_lines, pop_from_stack_to_d_lines,
    pop_from_stack_to_lines, push_to_stack_lines, push_to_stack_zero_lines,
    AssemblerCommandBuilder,
};
use crate::instruction::{
    call_target, jump_name, scoped_label, static_cell, unique_label, Command, CommandModel,
    Segment, VMInstruction,
};
use crate::text::{dec_str, lines_of, u16_to_dec};

verus! {

/// The base register a segment resolves through, for the four indirect
/// segments.
pub open spec fn segment_base(seg: Segment) -> Seq<char> {
    match seg {
        Segment::Local => "LCL"@,
        Segment::Argument => "ARG"@,
        Segment::This => "THIS"@,
        Segment::That => "THAT"@,
        _ => Seq::empty(),
    }
}

/// The register a `pointer` offset selects: offset `0` is `THIS`, any other
/// offset is `THAT`.
pub open spec fn pointer_target(idx: u16) -> Seq<char> {
    if idx == 0 {
        "THIS"@
    } else {
        "THAT"@
    }
}

/// The whole output of a `push` command.
pub open spec fn spec_push(seg: Segment, idx: u16, unit: Seq<char>) -> Seq<Seq<char>> {
    match seg {
        Segment::Local | Segment::Argument | Segment::This | Segment::That =>
            move_value_to_d_lines(dec_str(idx as nat)) + get_value_from_segment_lines(
                segment_base(seg),
            ) + push_to_stack_lines(),
        Segment::Constant => move_value_to_d_lines(dec_str(idx as nat)) + push_to_stack_lines(),
        Segment::Temp => move_value_to_d_lines(dec_str(idx as nat)) + at_lines("5"@)
            + d_plus_a_address_lines() + push_to_stack_lines(),
        Segment::Static => at_lines(static_cell(unit, idx)) + m_to_d_lines()
            + push_to_stack_lines(),
        Segment::Pointer => at_lines(pointer_target(idx)) + m_to_d_lines()
            + push_to_stack_lines(),
    }
}

/// The whole output of a `pop` command.  The destination address is
/// computed and parked in a function-scoped scratch cell before the value
/// is popped, because popping moves the stack pointer.
pub open spec fn spec_pop(seg: Segment, idx: u16, function: Seq<char>, unit: Seq<char>) -> Seq<
    Seq<char>,
> {
    let tmp = scoped_label(function, "tmp"@);
    match seg {
        Segment::Local | Segment::Argument | Segment::This | Segment::That =>
            move_value_to_d_lines(dec_str(idx as nat)) + get_address_from_segment_lines(
                segment_base(seg),
            ) + d_to_tmp_lines(tmp) + pop_from_stack_to_lines(tmp),
        Segment::Temp => move_value_to_d_lines(dec_str(idx as nat)) + at_lines("5"@)
            + d_plus_a_to_d_lines() + d_to_tmp_lines(tmp) + pop_from_stack_to_lines(tmp),
        Segment::Static => pop_from_stack_to_d_lines() + at_lines(static_cell(unit, idx))
            + d_to_m_lines(),
        Segment::Pointer => pop_from_stack_to_d_lines() + at_lines(pointer_target(idx))
            + d_to_m_lines(),
        Segment::Constant => Seq::empty(),
    }
}

/// The whole output of a binary arithmetic or logical command: pop the
/// right operand into D, address the left operand, combine in place, and
/// move the stack pointer back up.
pub open spec fn spec_binary(op: Seq<char>) -> Seq<Seq<char>> {
    pop_from_stack_to_d_lines() + pop_from_stack_lines() + seq![op] + advance_sp_lines()
}

/// The whole output of a unary command.
pub open spec fn spec_unary(op: Seq<char>) -> Seq<Seq<char>> {
    pop_from_stack_lines() + seq![op] + advance_sp_lines()
}

/// The whole output of a comparison command: D gets left minus right, true
/// (`-1`) is written speculatively, and a uniquely labelled jump skips the
/// false (`0`) overwrite.
pub open spec fn spec_compare(function: Seq<char>, jump: Seq<char>, id: nat) -> Seq<Seq<char>> {
    pop_from_stack_to_d_lines() + pop_from_stack_lines() + m_less_d_to_d_lines()
        + compare_with_d_lines(jump, unique_label(function, "IS_TRUE"@, id)) + advance_sp_lines()
}

/// The whole output of a `label` command: the scoped symbol is defined.
pub open spec fn spec_label(function: Seq<char>, name: Seq<char>) -> Seq<Seq<char>> {
    label_lines(scoped_label(function, name))
}

/// The whole output of a `goto` command.
pub open spec fn spec_goto(function: Seq<char>, name: Seq<char>) -> Seq<Seq<char>> {
    goto_label_lines(scoped_label(function, name))
}

/// The whole output of an `if-goto` command: jump when the popped top of
/// stack is nonzero.
pub open spec fn spec_ifgoto(function: Seq<char>, name: Seq<char>) -> Seq<Seq<char>> {
    pop_from_stack_to_d_lines() + jump_if_d_neq_lines(scoped_label(function, name))
}

/// The whole output of a `function` command: the global entry label, then a
/// counted loop that pushes one zero per local slot, built from two
/// uniquely labelled, function-scoped symbols.  The loop keeps the
/// generated code size constant in the local count.
pub open spec fn spec_function(function: Seq<char>, name: Seq<char>, nlocals: u16, id: nat) -> Seq<
    Seq<char>,
> {
    let wl = unique_label(function, "WHILE"@, id);
    let bl = unique_label(function, "BREAK"@, id);
    label_lines(name) + move_value_to_d_lines(dec_str(nlocals as nat)) + push_to_stack_lines()
        + label_lines(wl) + pop_from_stack_to_d_lines() + jump_if_d_eq_lines(bl)
        + push_to_stack_zero_lines() + d_less_one_lines() + push_to_stack_lines()
        + goto_label_lines(wl) + label_lines(bl)
}

/// The whole output of a `call` command: push the return address, push the
/// caller's `LCL,ARG,THIS,THAT` in that fixed order, point `ARG` at the
/// first argument (five just-pushed words plus the argument count below the
/// stack pointer), set `LCL` to the stack pointer, and jump to the callee.
/// The return address is the label's address plus the fifty-one
/// instructions of this block, which is the first instruction after it.
pub open spec fn spec_call(function: Seq<char>, target: Seq<char>, nargs: u16, id: nat) -> Seq<
    Seq<char>,
> {
    let ret = unique_label(function, "ret"@, id);
    label_lines(ret) + move_value_to_d_lines(ret) + at_lines("51"@) + d_plus_a_to_d_lines()
        + push_to_stack_lines() + get_value_at_lines("LCL"@) + push_to_stack_lines()
        + get_value_at_lines("ARG"@) + push_to_stack_lines() + get_value_at_lines("THIS"@)
        + push_to_stack_lines() + get_value_at_lines("THAT"@) + push_to_stack_lines()
        + move_value_to_d_lines("5"@) + at_lines(dec_str(nargs as nat)) + d_plus_a_to_d_lines()
        + at_lines("SP"@) + m_less_d_to_d_lines() + at_lines("ARG"@) + d_to_m_lines()
        + get_value_at_lines("SP"@) + at_lines("LCL"@) + d_to_m_lines() + goto_label_lines(target)
}

/// The whole output of a `return` command, the exact inverse of `call`:
/// park the return value and the caller's `ARG` in scratch cells, drop the
/// callee's frame by moving the stack pointer to `LCL`, restore
/// `THAT,THIS,ARG,LCL` in the reverse of the push order, recover the return
/// address, restore the stack pointer, push the return value for the
/// caller, and jump through the saved return address.
pub open spec fn spec_return() -> Seq<Seq<char>> {
    pop_from_stack_to_d_lines() + at_lines("R13"@) + d_to_m_lines() + get_value_at_lines("ARG"@)
        + at_lines("R15"@) + d_to_m_lines() + get_value_at_lines("LCL"@) + at_lines("SP"@)
        + d_to_m_lines() + pop_from_stack_to_d_lines() + at_lines("THAT"@) + d_to_m_lines()
        + pop_from_stack_to_d_lines() + at_lines("THIS"@) + d_to_m_lines()
        + pop_from_stack_to_d_lines() + at_lines("ARG"@) + d_to_m_lines()
        + pop_from_stack_to_d_lines() + at_lines("LCL"@) + d_to_m_lines()
        + pop_from_stack_to_d_lines() + at_lines("R14"@) + d_to_m_lines()
        + get_value_at_lines("R15"@) + at_lines("SP"@) + d_to_m_lines() + get_value_at_lines(
        "R13"@,
    ) + push_to_stack_lines() + goto_value_at_lines("R14"@)
}

/// The whole output of the bootstrap command: the stack pointer is set to
/// `256`, the first address above the reserved register region.
pub open spec fn spec_initialize() -> Seq<Seq<char>> {
    move_value_to_d_lines("256"@) + at_lines("SP"@) + d_to_m_lines()
}

/// Generates a `push`: read from the addressed segment (or take the
/// constant itself) into D, then push D.
pub fn push_action(instruction: &VMInstruction) -> (result: Vec<String>)
    requires
        instruction@.command matches Some(c) && c is Push,
    ensures
        lines_of(result@) == spec_push(
            push_pop_segment(instruction@.cmd()),
            crate::instruction::segment_index(instruction@.cmd()),
            instruction@.filename,
        ),
{
    let mut builder = AssemblerCommandBuilder::new();
    match &instruction.command {
        Some(Command::Push(seg, idx)) => {
            match seg {
                Segment::Local => {
                    let v = u16_to_dec(*idx);
                    builder.move_value_to_d(v.as_str());
                    builder.get_value_from_segment_plus_d("LCL");
                    builder.push_to_stack();
                }
                Segment::Argument => {
                    let v = u16_to_dec(*idx);
                    builder.move_value_to_d(v.as_str());
                    builder.get_value_from_segment_plus_d("ARG");
                    builder.push_to_stack();
                }
                Segment::This => {
                    let v = u16_to_dec(*idx);
                    builder.move_value_to_d(v.as_str());
                    builder.get_value_from_segment_plus_d("THIS");
                    builder.push_to_stack();
                }
                Segment::That => {
                    let v = u16_to_dec(*idx);
                    builder.move_value_to_d(v.as_str());
                    builder.get_value_from_segment_plus_d("THAT");
                    builder.push_to_stack();
                }
                Segment::Constant => {
                    let v = u16_to_dec(*idx);
                    builder.move_value_to_d(v.as_str());
                    builder.push_to_stack();
                }
                Segment::Temp => {
                    let v = u16_to_dec(*idx);
                    builder.move_value_to_d(v.as_str());
                    builder.at("5");
                    builder.d_plus_a_address_to_d();
                    builder.push_to_stack();
                }
                Segment::Static => {
                    let cell = instruction.build_static_label();
                    builder.at(cell.as_str());
                    builder.m_to_d();
                    builder.push_to_stack();
                }
                Segment::Pointer => {
                    let target: &str = if *idx == 0 {
                        "THIS"
                    } else {
                        "THAT"
                    };
                    builder.at(target);
                    builder.m_to_d();
                    builder.push_to_stack();
                }
            }
        }
        _ => unreached(),
    }
    proof {
        assert(builder@ =~= spec_push(
            push_pop_segment(instruction@.cmd()),
            crate::instruction::segment_index(instruction@.cmd()),
            instruction@.filename,
        ));
    }
    builder.parsed_content()
}

/// Generates a `pop`: compute the destination address first, park it in the
/// function-scoped scratch cell, then pop the value into it.
pub fn pop_action(instruction: &VMInstruction) -> (result: Vec<String>)
    requires
        instruction@.command matches Some(c) && c matches CommandModel::Pop(seg, _)
            && seg != Segment::Constant,
    ensures
        lines_of(result@) == spec_pop(
            push_pop_segment(instruction@.cmd()),
            crate::instruction::segment_index(instruction@.cmd()),
            instruction@.function_name,
            instruction@.filename,
        ),
{
    let mut builder = AssemblerCommandBuilder::new();
    let temp_label = instruction.build_label_from("tmp");
    match &instruction.command {
        Some(Command::Pop(seg, idx)) => {
            match seg {
                Segment::Local => {
                    let v = u16_to_dec(*idx);
                    builder.move_value_to_d(v.as_str());
                    builder.get_address_from_segment_plus_d("LCL");
                    builder.d_to_tmp(temp_label.as_str());
                    builder.pop_from_stack_to(temp_label.as_str());
                }
                Segment::Argument => {
                    let v = u16_to_dec(*idx);
                    builder.move_value_to_d(v.as_str());
                    builder.get_address_from_segment_plus_d("ARG");
                    builder.d_to_tmp(temp_label.as_str());
                    builder.pop_from_stack_to(temp_label.as_str());
                }
                Segment::This => {
                    let v = u16_to_dec(*idx);
                    builder.move_value_to_d(v.as_str());
                    builder.get_address_from_segment_plus_d("THIS");
                    builder.d_to_tmp(temp_label.as_str());
                    builder.pop_from_stack_to(temp_label.as_str());
                }
                Segment::That => {
                    let v = u16_to_dec(*idx);
                    builder.move_value_to_d(v.as_str());
                    builder.get_address_from_segment_plus_d("THAT");
                    builder.d_to_tmp(temp_label.as_str());
                    builder.pop_from_stack_to(temp_label.as_str());
                }
                Segment::Temp => {
                    let v = u16_to_dec(*idx);
                    builder.move_value_to_d(v.as_str());
                    builder.at("5");
                    builder.d_plus_a_to_d();
                    builder.d_to_tmp(temp_label.as_str());
                    builder.pop_from_stack_to(temp_label.as_str());
                }
                Segment::Static => {
                    let cell = instruction.build_static_label();
                    builder.pop_from_stack_to_d();
                    builder.at(cell.as_str());
                    builder.d_to_m();
                }
                Segment::Pointer => {
                    let target: &str = if *idx == 0 {
                        "THIS"
                    } else {
                        "THAT"
                    };
                    builder.pop_from_stack_to_d();
                    builder.at(target);
                    builder.d_to_m();
                }
                Segment::Constant => unreached(),
            }
        }
        _ => unreached(),
    }
    proof {
        assert(builder@ =~= spec_pop(
            push_pop_segment(instruction@.cmd()),
            crate::instruction::segment_index(instruction@.cmd()),
            instruction@.function_name,
            instruction@.filename,
        ));
    }
    builder.parsed_content()
}

/// The segment of a `push`/`pop` command.
pub open spec fn push_pop_segment(c: CommandModel) -> Segment {
    match c {
        CommandModel::Push(seg, _) => seg,
        CommandModel::Pop(seg, _) => seg,
        _ => Segment::Local,
    }
}

/// Generates an `add`.
pub fn add_action() -> (result: Vec<String>)
    ensures
        lines_of(result@) == spec_binary("M=D+M"@),
{
    let mut builder = AssemblerCommandBuilder::new();
    builder.pop_from_stack_to_d();
    builder.pop_from_stack();
    builder.d_plus_m_to_m();
    builder.advance_sp();
    proof {
        assert(builder@ =~= spec_binary("M=D+M"@));
    }
    builder.parsed_content()
}

/// Generates a `sub`: the result is the left operand minus the popped right
/// operand.
pub fn sub_action() -> (result: Vec<String>)
    ensures
        lines_of(result@) == spec_binary("M=M-D"@),
{
    let mut builder = AssemblerCommandBuilder::new();
    builder.pop_from_stack_to_d();
    builder.pop_from_stack();
    builder.m_less_d_to_m();
    builder.advance_sp();
    proof {
        assert(builder@ =~= spec_binary("M=M-D"@));
    }
    builder.parsed_content()
}

/// Generates an `and`.
pub fn and_action() -> (result: Vec<String>)
    ensures
        lines_of(result@) == spec_binary("M=M&D"@),
{
    let mut builder = AssemblerCommandBuilder::new();
    builder.pop_from_stack_to_d();
    builder.pop_from_stack();
    builder.m_and_d_to_m();
    builder.advance_sp();
    proof {
        assert(builder@ =~= spec_binary("M=M&D"@));
    }
    builder.parsed_content()
}

/// Generates an `or`.
pub fn or_action() -> (result: Vec<String>)
    ensures
        lines_of(result@) == spec_binary("M=M|D"@),
{
    let mut builder = AssemblerCommandBuilder::new();
    builder.pop_from_stack_to_d();
    builder.pop_from_stack();
    builder.m_or_d_to_m();
    builder.advance_sp();
    proof {
        assert(builder@ =~= spec_binary("M=M|D"@));
    }
    builder.parsed_content()
}

/// Generates a `not`.
pub fn not_action() -> (result: Vec<String>)
    ensures
        lines_of(result@) == spec_unary("M=!M"@),
{
    let mut builder = AssemblerCommandBuilder::new();
    builder.pop_from_stack();
    builder.not_m_to_m();
    builder.advance_sp();
    proof {
        assert(builder@ =~= spec_unary("M=!M"@));
    }
    builder.parsed_content()
}

/// Generates a `neg`.
pub fn neg_action() -> (result: Vec<String>)
    ensures
        lines_of(result@) == spec_unary("M=-M"@),
{
    let mut builder = AssemblerCommandBuilder::new();
    builder.pop_from_stack();
    builder.neg_m_to_m();
    builder.advance_sp();
    proof {
        assert(builder@ =~= spec_unary("M=-M"@));
    }
    builder.parsed_content()
}

/// Generates an `eq`, with the comparison label made unique by `id`.
pub fn eq_action(instruction: &VMInstruction, id: u64) -> (result: Vec<String>)
    ensures
        lines_of(result@) == spec_compare(instruction@.function_name, "JEQ"@, id as nat),
{
    compare_action(instruction, "JEQ", id)
}

/// Generates an `lt`: true when the left operand is less than the right.
pub fn lt_action(instruction: &VMInstruction, id: u64) -> (result: Vec<String>)
    ensures
        lines_of(result@) == spec_compare(instruction@.function_name, "JLT"@, id as nat),
{
    compare_action(instruction, "JLT", id)
}

/// Generates a `gt`: true when the left operand is greater than the right.
pub fn gt_action(instruction: &VMInstruction, id: u64) -> (result: Vec<String>)
    ensures
        lines_of(result@) == spec_compare(instruction@.function_name, "JGT"@, id as nat),
{
    compare_action(instruction, "JGT", id)
}

fn compare_action(instruction: &VMInstruction, jump: &str, id: u64) -> (result: Vec<String>)
    ensures
        lines_of(result@) == spec_compare(instruction@.function_name, jump@, id as nat),
{
    let mut builder = AssemblerCommandBuilder::new();
    let label = instruction.build_unique_label_from("IS_TRUE", id);
    builder.pop_from_stack_to_d();
    builder.pop_from_stack();
    builder.m_less_d_to_d();
    builder.compare_with_d(jump, label.as_str());
    builder.advance_sp();
    proof {
        assert(builder@ =~= spec_compare(instruction@.function_name, jump@, id as nat));
    }
    builder.parsed_content()
}

/// Generates a `label`.
pub fn label_action(instruction: &VMInstruction) -> (result: Vec<String>)
    requires
        instruction@.command matches Some(c) && (c is Label || c is Goto || c is IfGoto),
    ensures
        lines_of(result@) == spec_label(
            instruction@.function_name,
            jump_name(instruction@.cmd()),
        ),
{
    let mut builder = AssemblerCommandBuilder::new();
    let label = instruction.build_label();
    builder.label(label.as_str());
    proof {
        assert(builder@ =~= spec_label(instruction@.function_name, jump_name(instruction@.cmd())));
    }
    builder.parsed_content()
}

/// Generates a `goto`.
pub fn goto_action(instruction: &VMInstruction) -> (result: Vec<String>)
    requires
        instruction@.command matches Some(c) && (c is Label || c is Goto || c is IfGoto),
    ensures
        lines_of(result@) == spec_goto(instruction@.function_name, jump_name(instruction@.cmd())),
{
    let mut builder = AssemblerCommandBuilder::new();
    let label = instruction.build_label();
    builder.goto_label(label.as_str());
    proof {
        assert(builder@ =~= spec_goto(instruction@.function_name, jump_name(instruction@.cmd())));
    }
    builder.parsed_content()
}

/// Generates an `if-goto`.
pub fn ifgoto_action(instruction: &VMInstruction) -> (result: Vec<String>)
    requires
        instruction@.command matches Some(c) && (c is Label || c is Goto || c is IfGoto),
    ensures
        lines_of(result@) == spec_ifgoto(
            instruction@.function_name,
            jump_name(instruction@.cmd()),
        ),
{
    let mut builder = AssemblerCommandBuilder::new();
    let label = instruction.build_label();
    builder.pop_from_stack_to_d();
    builder.jump_to_label_if_d_neq(label.as_str());
    proof {
        assert(builder@ =~= spec_ifgoto(
            instruction@.function_name,
            jump_name(instruction@.cmd()),
        ));
    }
    builder.parsed_content()
}

/// Generates a `function` definition, with the local-reservation loop's two
/// labels made unique by `id`.
pub fn function_action(instruction: &VMInstruction, id: u64) -> (result: Vec<String>)
    requires
        instruction@.command matches Some(c) && c is Function,
    ensures
        lines_of(result@) == spec_function(
            instruction@.function_name,
            call_target(instruction@.cmd()),
            call_count(instruction@.cmd()),
            id as nat,
        ),
{
    let mut builder = AssemblerCommandBuilder::new();
    let while_label = instruction.build_unique_label_from("WHILE", id);
    let break_label = instruction.build_unique_label_from("BREAK", id);
    let name = instruction.build_function_name();
    let nlocals: u16 = match &instruction.command {
        Some(Command::Function(_, k)) => *k,
        _ => unreached(),
    };
    let v = u16_to_dec(nlocals);
    builder.label(name.as_str());
    builder.move_value_to_d(v.as_str());
    builder.push_to_stack();
    builder.label(while_label.as_str());
    builder.pop_from_stack_to_d();
    builder.jump_to_label_if_d_eq(break_label.as_str());
    builder.push_to_stack_zero();
    builder.d_less_one_to_d();
    builder.push_to_stack();
    builder.goto_label(while_label.as_str());
    builder.label(break_label.as_str());
    proof {
        assert(builder@ =~= spec_function(
            instruction@.function_name,
            call_target(instruction@.cmd()),
            call_count(instruction@.cmd()),
            id as nat,
        ));
    }
    builder.parsed_content()
}

/// The numeric count of a `function`/`call` command: locals to reserve, or
/// arguments passed.
pub open spec fn call_count(c: CommandModel) -> u16 {
    match c {
        CommandModel::Function(_, k) => k,
        CommandModel::Call(_, k) => k,
        _ => 0,
    }
}

/// Generates a `call`, with the return-address label made unique by `id`.
pub fn call_action(instruction: &VMInstruction, id: u64) -> (result: Vec<String>)
    requires
        instruction@.command matches Some(c) && c is Call,
    ensures
        lines_of(result@) == spec_call(
            instruction@.function_name,
            call_target(instruction@.cmd()),
            call_count(instruction@.cmd()),
            id as nat,
        ),
{
    let mut builder = AssemblerCommandBuilder::new();
    let return_label = instruction.build_unique_label_from("ret", id);
    let name = instruction.build_function_name();
    let nargs: u16 = match &instruction.command {
        Some(Command::Call(_, k)) => *k,
        _ => unreached(),
    };
    let v = u16_to_dec(nargs);

    builder.label(return_label.as_str());
    builder.move_value_to_d(return_label.as_str());
    builder.at("51");
    builder.d_plus_a_to_d();
    builder.push_to_stack();

    builder.get_value_at("LCL");
    builder.push_to_stack();

    builder.get_value_at("ARG");
    builder.push_to_stack();

    builder.get_value_at("THIS");
    builder.push_to_stack();

    builder.get_value_at("THAT");
    builder.push_to_stack();

    builder.move_value_to_d("5");
    builder.at(v.as_str());
    builder.d_plus_a_to_d();
    builder.at("SP");
    builder.m_less_d_to_d();
    builder.at("ARG");
    builder.d_to_m();

    builder.get_value_at("SP");
    builder.at("LCL");
    builder.d_to_m();

    builder.goto_label(name.as_str());
    proof {
        assert(builder@ =~= spec_call(
            instruction@.function_name,
            call_target(instruction@.cmd()),
            call_count(instruction@.cmd()),
            id as nat,
        ));
    }
    builder.parsed_content()
}

/// Generates a `return`.
pub fn return_action() -> (result: Vec<String>)
    ensures
        lines_of(result@) == spec_return(),
{
    let mut builder = AssemblerCommandBuilder::new();

    let temp_return_value = "R13";
    let temp_return_addr = "R14";
    let temp_sp = "R15";

    builder.pop_from_stack_to_d();
    builder.at(temp_return_value);
    builder.d_to_m();

    builder.get_value_at("ARG");
    builder.at(temp_sp);
    builder.d_to_m();

    builder.get_value_at("LCL");
    builder.at("SP");
    builder.d_to_m();

    builder.pop_from_stack_to_d();
    builder.at("THAT");
    builder.d_to_m();

    builder.pop_from_stack_to_d();
    builder.at("THIS");
    builder.d_to_m();

    builder.pop_from_stack_to_d();
    builder.at("ARG");
    builder.d_to_m();

    builder.pop_from_stack_to_d();
    builder.at("LCL");
    builder.d_to_m();

    builder.pop_from_stack_to_d();
    builder.at(temp_return_addr);
    builder.d_to_m();

    builder.get_value_at(temp_sp);
    builder.at("SP");
    builder.d_to_m();

    builder.get_value_at(temp_return_value);
    builder.push_to_stack();

    builder.goto_value_at(temp_return_addr);
    proof {
        assert(builder@ =~= spec_return());
    }
    builder.parsed_content()
}

/// Generates the bootstrap stack-pointer initialization.
pub fn initialize_action() -> (result: Vec<String>)
    ensures
        lines_of(result@) == spec_initialize(),
{
    let mut builder = AssemblerCommandBuilder::new();
    builder.move_value_to_d("256");
    builder.at("SP");
    builder.d_to_m();
    proof {
        assert(builder@ =~= spec_initialize());
    }
    builder.parsed_content()
}

} // verus!
