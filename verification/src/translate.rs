//! The driver: one linear left-to-right pass over the instruction lines.
//! Each line is parsed in the running scope, dispatched over the closed
//! command set, and its block is appended behind a source-echo comment.
//! The whole translation is a pure function of the input lines and the
//! translation-unit name; unique labels come from a counter that starts at
//! zero for every run.

use vstd::prelude::*;
use crate::generate::{
    add_action, and_action, call_action, eq_action, function_action, goto_action, gt_action,
    ifgoto_action, initialize_action, label_action, lt_action, neg_action, not_action, or_action,
    pop_action, push_action, return_action, spec_binary, spec_call, spec_compare, spec_function,
    spec_goto, spec_ifgoto, spec_initialize, spec_label, spec_pop, spec_push, spec_return,
    spec_unary, sub_action,
};
use crate::instruction::{
    spec_next_function, spec_parse_command, Command, CommandModel, TranslateError, VMInstruction,
};
use crate::text::lines_of;

verus! {

/// The source-echo comment placed before each translated block.
pub open spec fn comment_line(line: Seq<char>) -> Seq<char> {
    "// "@ + line
}

/// The header line that opens each translation unit's output.
pub open spec fn header_line(unit: Seq<char>) -> Seq<char> {
    "// New file: "@ + unit
}

/// How many unique-label counter values a command consumes: one for each
/// comparison, function definition, or call; none otherwise.
pub open spec fn ids_used(c: CommandModel) -> nat {
    match c {
        CommandModel::Eq => 1,
        CommandModel::Lt => 1,
        CommandModel::Gt => 1,
        CommandModel::Function(_, _) => 1,
        CommandModel::Call(_, _) => 1,
        _ => 0,
    }
}

/// The output block of one command, dispatched over the closed command set.
/// `function` is the enclosing-function scope after the command itself, so
/// a `function` command's own loop labels live in its new scope.
pub open spec fn command_output(
    c: CommandModel,
    function: Seq<char>,
    unit: Seq<char>,
    id: nat,
) -> Seq<Seq<char>> {
    match c {
        CommandModel::Push(seg, i) => spec_push(seg, i, unit),
        CommandModel::Pop(seg, i) => spec_pop(seg, i, function, unit),
        CommandModel::Add => spec_binary("M=D+M"@),
        CommandModel::Sub => spec_binary("M=M-D"@),
        CommandModel::And => spec_binary("M=M&D"@),
        CommandModel::Or => spec_binary("M=M|D"@),
        CommandModel::Not => spec_unary("M=!M"@),
        CommandModel::Neg => spec_unary("M=-M"@),
        CommandModel::Eq => spec_compare(function, "JEQ"@, id),
        CommandModel::Lt => spec_compare(function, "JLT"@, id),
        CommandModel::Gt => spec_compare(function, "JGT"@, id),
        CommandModel::Label(n) => spec_label(function, n),
        CommandModel::Goto(n) => spec_goto(function, n),
        CommandModel::IfGoto(n) => spec_ifgoto(function, n),
        CommandModel::Function(n, k) => spec_function(function, n, k, id),
        CommandModel::Call(n, k) => spec_call(function, n, k, id),
        CommandModel::Return => spec_return(),
        CommandModel::Initialize => spec_initialize(),
    }
}

/// The translation of a sequence of lines, threaded through the scoping
/// state: the enclosing function name and the next unique-label counter
/// value.  A malformed line makes the whole translation fail; no partial
/// output is produced.
pub open spec fn translate_lines(
    lines: Seq<Seq<char>>,
    unit: Seq<char>,
    function: Seq<char>,
    id: nat,
) -> Result<Seq<Seq<char>>, TranslateError>
    decreases lines.len(),
{
    if lines.len() == 0 {
        Ok(Seq::empty())
    } else {
        match spec_parse_command(lines[0]) {
            Err(e) => Err(e),
            Ok(c) => {
                let f2 = spec_next_function(c, function);
                match translate_lines(lines.drop_first(), unit, f2, id + ids_used(c)) {
                    Err(e) => Err(e),
                    Ok(rest) => Ok(
                        seq![comment_line(lines[0])] + command_output(c, f2, unit, id) + rest,
                    ),
                }
            }
        }
    }
}

/// The whole output for one translation unit: the unit header, then each
/// line's comment and block, in order.
pub open spec fn spec_parse_content(lines: Seq<Seq<char>>, unit: Seq<char>) -> Result<
    Seq<Seq<char>>,
    TranslateError,
> {
    match translate_lines(lines, unit, Seq::empty(), 0) {
        Err(e) => Err(e),
        Ok(out) => Ok(seq![header_line(unit)] + out),
    }
}

/// Translates one unit's instruction lines.  The output is exactly what
/// `spec_parse_content` lists; on a malformed line the error says which
/// validity rule broke and no output is returned.
pub fn parse_content(content: Vec<String>, filename: String) -> (result: Result<
    Vec<String>,
    TranslateError,
>)
    ensures
        match result {
            Ok(out) => spec_parse_content(lines_of(content@), filename@) == Ok::<
                Seq<Seq<char>>,
                TranslateError,
            >(lines_of(out@)),
            Err(e) => spec_parse_content(lines_of(content@), filename@) == Err::<
                Seq<Seq<char>>,
                TranslateError,
            >(e),
        },
{
    let mut result: Vec<String> = Vec::new();
    result.push(String::from_str("// New file: ").concat(filename.as_str()));
    let mut instruction = VMInstruction::new(filename.as_str());
    let mut counter: u64 = 0;
    let mut i: usize = 0;
    proof {
        assert(lines_of(result@) =~= seq![header_line(filename@)]);
        assert(lines_of(content@).skip(0) =~= lines_of(content@));
    }
    while i < content.len()
        invariant
            i <= content@.len(),
            counter as int <= i as int,
            instruction@.filename == filename@,
            spec_parse_content(lines_of(content@), filename@) == (match translate_lines(
                lines_of(content@).skip(i as int),
                filename@,
                instruction@.function_name,
                counter as nat,
            ) {
                Ok(rest) => Ok::<Seq<Seq<char>>, TranslateError>(lines_of(result@) + rest),
                Err(e) => Err::<Seq<Seq<char>>, TranslateError>(e),
            }),
        decreases content@.len() - i,
    {
        let ghost all = lines_of(content@);
        let ghost rem = all.skip(i as int);
        let ghost pre_fn = instruction@.function_name;
        let ghost pre_counter = counter;
        let ghost pre_result = result@;
        let line = &content[i];
        proof {
            assert(rem[0] == line@);
        }
        result.push(String::from_str("// ").concat(line.as_str()));
        match instruction.update(line.as_str()) {
            Err(e) => {
                proof {
                    assert(translate_lines(rem, filename@, pre_fn, pre_counter as nat)
                        == Err::<Seq<Seq<char>>, TranslateError>(e));
                }
                return Err(e);
            }
            Ok(_) => {}
        }
        let ghost c = spec_parse_command(line@)->Ok_0;
        let ghost f2 = instruction@.function_name;
        let mut block: Vec<String> = match &instruction.command {
            Some(Command::Push(_, _)) => push_action(&instruction),
            Some(Command::Pop(_, _)) => pop_action(&instruction),
            Some(Command::Add) => add_action(),
            Some(Command::Sub) => sub_action(),
            Some(Command::Neg) => neg_action(),
            Some(Command::Eq) => {
                let out = eq_action(&instruction, counter);
                counter = counter + 1;
                out
            }
            Some(Command::Lt) => {
                let out = lt_action(&instruction, counter);
                counter = counter + 1;
                out
            }
            Some(Command::Gt) => {
                let out = gt_action(&instruction, counter);
                counter = counter + 1;
                out
            }
            Some(Command::And) => and_action(),
            Some(Command::Or) => or_action(),
            Some(Command::Not) => not_action(),
            Some(Command::Label(_)) => label_action(&instruction),
            Some(Command::Goto(_)) => goto_action(&instruction),
            Some(Command::IfGoto(_)) => ifgoto_action(&instruction),
            Some(Command::Function(_, _)) => {
                let out = function_action(&instruction, counter);
                counter = counter + 1;
                out
            }
            Some(Command::Call(_, _)) => {
                let out = call_action(&instruction, counter);
                counter = counter + 1;
                out
            }
            Some(Command::Return) => return_action(),
            Some(Command::Initialize) => initialize_action(),
            None => unreached(),
        };
        proof {
            assert(lines_of(block@) == command_output(c, f2, filename@, pre_counter as nat));
            assert(counter as nat == pre_counter as nat + ids_used(c));
        }
        result.append(&mut block);
        i = i + 1;
        proof {
            assert(rem.drop_first() =~= all.skip(i as int));
            assert(lines_of(result@) =~= lines_of(pre_result) + seq![comment_line(line@)]
                + command_output(c, f2, filename@, pre_counter as nat));
            let step = translate_lines(rem, filename@, pre_fn, pre_counter as nat);
            let tail = translate_lines(all.skip(i as int), filename@, f2, counter as nat);
            match tail {
                Ok(rest2) => {
                    assert(step == Ok::<Seq<Seq<char>>, TranslateError>(
                        seq![comment_line(line@)] + command_output(
                            c,
                            f2,
                            filename@,
                            pre_counter as nat,
                        ) + rest2,
                    ));
                    assert(lines_of(pre_result) + (seq![comment_line(line@)] + command_output(
                        c,
                        f2,
                        filename@,
                        pre_counter as nat,
                    ) + rest2) =~= lines_of(result@) + rest2);
                }
                Err(_) => {}
            }
        }
    }
    proof {
        assert(lines_of(content@).skip(content@.len() as int) =~= Seq::<Seq<char>>::empty());
        assert(lines_of(result@) + Seq::<Seq<char>>::empty() =~= lines_of(result@));
    }
    Ok(result)
}

/// The bootstrap prologue for a multi-unit program: the stack pointer is
/// set to `256`, then the entry function `Sys.init` is called with zero
/// arguments through the ordinary `call` generator, using the first
/// counter value of its run.
pub open spec fn spec_initial_data() -> Seq<Seq<char>> {
    seq![header_line("initialize ASM file"@), comment_line("initialize sp 256"@)]
        + spec_initialize() + seq![comment_line("call Sys.init 0"@)] + spec_call(
        Seq::empty(),
        "Sys.init"@,
        0,
        0,
    )
}

/// Generates the bootstrap prologue.
pub fn initial_data() -> (result: Vec<String>)
    ensures
        lines_of(result@) == spec_initial_data(),
{
    let mut result: Vec<String> = Vec::new();
    result.push(String::from_str("// New file: ").concat("initialize ASM file"));
    result.push(String::from_str("// ").concat("initialize sp 256"));
    let mut init_block = initialize_action();
    result.append(&mut init_block);
    result.push(String::from_str("// ").concat("call Sys.init 0"));
    let instruction = VMInstruction {
        command: Some(Command::Call(String::from_str("Sys.init"), 0)),
        function_name: String::new(),
        filename: String::from_str("initialize ASM file"),
    };
    let mut call_block = call_action(&instruction, 0);
    result.append(&mut call_block);
    proof {
        assert(lines_of(result@) =~= spec_initial_data());
    }
    result
}

/// Success is owed exactly on valid input: a translation yields output if
/// and only if every line parses as a command of the closed set with valid
/// operands.
pub proof fn lemma_translation_succeeds_iff_all_lines_parse(
    lines: Seq<Seq<char>>,
    unit: Seq<char>,
    function: Seq<char>,
    id: nat,
)
    ensures
        translate_lines(lines, unit, function, id) is Ok <==> (forall|i: int|
            0 <= i < lines.len() ==> spec_parse_command(#[trigger] lines[i]) is Ok),
    decreases lines.len(),
{
    if lines.len() > 0 {
        match spec_parse_command(lines[0]) {
            Err(_) => {
                assert(!(spec_parse_command(lines[0]) is Ok));
            }
            Ok(c) => {
                let f2 = spec_next_function(c, function);
                let rest = lines.drop_first();
                lemma_translation_succeeds_iff_all_lines_parse(rest, unit, f2, id + ids_used(c));
                if forall|i: int| 0 <= i < rest.len() ==> spec_parse_command(
                    #[trigger] rest[i],
                ) is Ok {
                    assert forall|i: int|
                        0 <= i < lines.len() implies spec_parse_command(
                        #[trigger] lines[i],
                    ) is Ok by {
                        if i > 0 {
                            assert(lines[i] == rest[i - 1]);
                        }
                    }
                } else {
                    let j = choose|j: int|
                        0 <= j < rest.len() && !(spec_parse_command(#[trigger] rest[j]) is Ok);
                    assert(lines[j + 1] == rest[j]);
                    assert(!(spec_parse_command(lines[j + 1]) is Ok));
                }
            }
        }
    }
}

/// Re-translation is idempotent: translating the same instruction sequence
/// for the same unit twice yields byte-identical output, generated label
/// names included, because the unique-label counter starts at zero on
/// every run and nothing else varies between runs.
pub proof fn lemma_retranslation_identical(
    lines: Seq<Seq<char>>,
    unit: Seq<char>,
    r1: Result<Seq<Seq<char>>, TranslateError>,
    r2: Result<Seq<Seq<char>>, TranslateError>,
)
    requires
        r1 == spec_parse_content(lines, unit),
        r2 == spec_parse_content(lines, unit),
    ensures
        r1 == r2,
{
}

} // verus!
