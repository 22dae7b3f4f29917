use vm_translator::instruction::TranslateError;
use vm_translator::translate::{initial_data, parse_content};

fn translate(lines: &[&str], unit: &str) -> Vec<String> {
    let content: Vec<String> = lines.iter().map(|s| s.to_string()).collect();
    parse_content(content, unit.to_string()).expect("translation failed")
}

fn translate_err(lines: &[&str], unit: &str) -> TranslateError {
    let content: Vec<String> = lines.iter().map(|s| s.to_string()).collect();
    parse_content(content, unit.to_string()).expect_err("translation unexpectedly succeeded")
}

fn assert_lines(actual: &[String], expected: &[&str]) {
    let actual_refs: Vec<&str> = actual.iter().map(|s| s.as_str()).collect();
    assert_eq!(actual_refs, expected);
}

#[test]
fn push_local_shape() {
    let out = translate(&["push local 2"], "Foo");
    assert_lines(
        &out,
        &[
            "// New file: Foo",
            "// push local 2",
            "@2",
            "D=A",
            "@LCL",
            "A=M+D",
            "D=M",
            "@SP",
            "A=M",
            "M=D",
            "@SP",
            "M=M+1",
        ],
    );
}

#[test]
fn push_argument_this_that_bases() {
    let out = translate(&["push argument 0", "push this 1", "push that 7"], "Foo");
    let text = out.join("\n");
    assert!(text.contains("@ARG"));
    assert!(text.contains("@THIS"));
    assert!(text.contains("@THAT"));
    // Each push is ten lines plus its comment; three pushes after the header.
    assert_eq!(out.len(), 1 + 3 * 11);
}

#[test]
fn push_constant_shape() {
    let out = translate(&["push constant 7"], "Foo");
    assert_lines(
        &out,
        &[
            "// New file: Foo",
            "// push constant 7",
            "@7",
            "D=A",
            "@SP",
            "A=M",
            "M=D",
            "@SP",
            "M=M+1",
        ],
    );
}

#[test]
fn push_temp_shape() {
    let out = translate(&["push temp 3"], "Foo");
    assert_lines(
        &out,
        &[
            "// New file: Foo",
            "// push temp 3",
            "@3",
            "D=A",
            "@5",
            "A=D+A",
            "D=M",
            "@SP",
            "A=M",
            "M=D",
            "@SP",
            "M=M+1",
        ],
    );
}

#[test]
fn push_static_shape() {
    let out = translate(&["push static 3"], "Foo");
    assert_lines(
        &out,
        &[
            "// New file: Foo",
            "// push static 3",
            "@Foo$3",
            "D=M",
            "@SP",
            "A=M",
            "M=D",
            "@SP",
            "M=M+1",
        ],
    );
}

#[test]
fn push_pointer_zero_reads_this() {
    let out = translate(&["push pointer 0"], "Foo");
    assert_lines(
        &out,
        &[
            "// New file: Foo",
            "// push pointer 0",
            "@THIS",
            "D=M",
            "@SP",
            "A=M",
            "M=D",
            "@SP",
            "M=M+1",
        ],
    );
}

#[test]
fn push_pointer_one_reads_that() {
    let out = translate(&["push pointer 1"], "Foo");
    assert_eq!(out[2], "@THAT");
}

#[test]
fn push_pointer_nonzero_reads_that() {
    let out = translate(&["push pointer 5"], "Foo");
    assert_eq!(out[2], "@THAT");
}

#[test]
fn pop_local_shape() {
    let out = translate(&["pop local 1"], "Foo");
    assert_lines(
        &out,
        &[
            "// New file: Foo",
            "// pop local 1",
            "@1",
            "D=A",
            "@LCL",
            "D=M+D",
            "@$tmp",
            "M=D",
            "@SP",
            "M=M-1",
            "A=M",
            "D=M",
            "@$tmp",
            "A=M",
            "M=D",
        ],
    );
}

#[test]
fn pop_scratch_cell_is_function_scoped() {
    let out = translate(&["function f 0", "pop argument 2"], "Foo");
    let text = out.join("\n");
    assert!(text.contains("@f$tmp"));
}

#[test]
fn pop_temp_shape() {
    let out = translate(&["pop temp 4"], "Foo");
    assert_lines(
        &out,
        &[
            "// New file: Foo",
            "// pop temp 4",
            "@4",
            "D=A",
            "@5",
            "D=D+A",
            "@$tmp",
            "M=D",
            "@SP",
            "M=M-1",
            "A=M",
            "D=M",
            "@$tmp",
            "A=M",
            "M=D",
        ],
    );
}

#[test]
fn pop_static_shape() {
    let out = translate(&["pop static 3"], "Bar");
    assert_lines(
        &out,
        &[
            "// New file: Bar",
            "// pop static 3",
            "@SP",
            "M=M-1",
            "A=M",
            "D=M",
            "@Bar$3",
            "M=D",
        ],
    );
}

#[test]
fn pop_pointer_shape() {
    let out = translate(&["pop pointer 1"], "Foo");
    assert_lines(
        &out,
        &[
            "// New file: Foo",
            "// pop pointer 1",
            "@SP",
            "M=M-1",
            "A=M",
            "D=M",
            "@THAT",
            "M=D",
        ],
    );
}

#[test]
fn add_shape() {
    let out = translate(&["add"], "Foo");
    assert_lines(
        &out,
        &[
            "// New file: Foo",
            "// add",
            "@SP",
            "M=M-1",
            "A=M",
            "D=M",
            "@SP",
            "M=M-1",
            "A=M",
            "M=D+M",
            "@SP",
            "M=M+1",
        ],
    );
}

#[test]
fn sub_and_logic_shapes() {
    let out = translate(&["sub", "and", "or"], "Foo");
    assert_eq!(out[9], "M=M-D");
    assert_eq!(out[20], "M=M&D");
    assert_eq!(out[31], "M=M|D");
}

#[test]
fn unary_shapes() {
    let out = translate(&["not"], "Foo");
    assert_lines(
        &out,
        &[
            "// New file: Foo",
            "// not",
            "@SP",
            "M=M-1",
            "A=M",
            "M=!M",
            "@SP",
            "M=M+1",
        ],
    );
    let out = translate(&["neg"], "Foo");
    assert_eq!(out[5], "M=-M");
}

#[test]
fn eq_shape() {
    let out = translate(&["eq"], "Foo");
    assert_lines(
        &out,
        &[
            "// New file: Foo",
            "// eq",
            "@SP",
            "M=M-1",
            "A=M",
            "D=M",
            "@SP",
            "M=M-1",
            "A=M",
            "D=M-D",
            "M=-1",
            "@$IS_TRUE.0",
            "D;JEQ",
            "@SP",
            "A=M",
            "M=0",
            "($IS_TRUE.0)",
            "@SP",
            "M=M+1",
        ],
    );
}

#[test]
fn lt_gt_jump_kinds() {
    let out = translate(&["lt"], "Foo");
    assert_eq!(out[12], "D;JLT");
    let out = translate(&["gt"], "Foo");
    assert_eq!(out[12], "D;JGT");
}

#[test]
fn comparison_labels_are_unique_within_a_run() {
    let out = translate(&["eq", "eq", "gt"], "Foo");
    let text = out.join("\n");
    assert!(text.contains("($IS_TRUE.0)"));
    assert!(text.contains("($IS_TRUE.1)"));
    assert!(text.contains("($IS_TRUE.2)"));
}

#[test]
fn label_goto_ifgoto_shapes() {
    let out = translate(&["function f 0", "label LOOP", "goto LOOP", "if-goto LOOP"], "Foo");
    let tail: Vec<&str> = out.iter().skip(out.len() - 12).map(|s| s.as_str()).collect();
    assert_eq!(
        tail,
        &[
            "// label LOOP",
            "(f$LOOP)",
            "// goto LOOP",
            "@f$LOOP",
            "0;JMP",
            "// if-goto LOOP",
            "@SP",
            "M=M-1",
            "A=M",
            "D=M",
            "@f$LOOP",
            "D;JNE",
        ][..]
    );
}

#[test]
fn ifgoto_shape() {
    let out = translate(&["if-goto WHERE"], "Foo");
    assert_lines(
        &out,
        &[
            "// New file: Foo",
            "// if-goto WHERE",
            "@SP",
            "M=M-1",
            "A=M",
            "D=M",
            "@$WHERE",
            "D;JNE",
        ],
    );
}

#[test]
fn function_shape() {
    let out = translate(&["function f 2"], "Foo");
    assert_lines(
        &out,
        &[
            "// New file: Foo",
            "// function f 2",
            "(f)",
            "@2",
            "D=A",
            "@SP",
            "A=M",
            "M=D",
            "@SP",
            "M=M+1",
            "(f$WHILE.0)",
            "@SP",
            "M=M-1",
            "A=M",
            "D=M",
            "@f$BREAK.0",
            "D;JEQ",
            "@SP",
            "A=M",
            "M=0",
            "@SP",
            "M=M+1",
            "D=D-1",
            "@SP",
            "A=M",
            "M=D",
            "@SP",
            "M=M+1",
            "@f$WHILE.0",
            "0;JMP",
            "(f$BREAK.0)",
        ],
    );
}

#[test]
fn call_shape() {
    let out = translate(&["call g 2"], "Foo");
    assert_lines(
        &out,
        &[
            "// New file: Foo",
            "// call g 2",
            "($ret.0)",
            "@$ret.0",
            "D=A",
            "@51",
            "D=D+A",
            "@SP",
            "A=M",
            "M=D",
            "@SP",
            "M=M+1",
            "@LCL",
            "D=M",
            "@SP",
            "A=M",
            "M=D",
            "@SP",
            "M=M+1",
            "@ARG",
            "D=M",
            "@SP",
            "A=M",
            "M=D",
            "@SP",
            "M=M+1",
            "@THIS",
            "D=M",
            "@SP",
            "A=M",
            "M=D",
            "@SP",
            "M=M+1",
            "@THAT",
            "D=M",
            "@SP",
            "A=M",
            "M=D",
            "@SP",
            "M=M+1",
            "@5",
            "D=A",
            "@2",
            "D=D+A",
            "@SP",
            "D=M-D",
            "@ARG",
            "M=D",
            "@SP",
            "D=M",
            "@LCL",
            "M=D",
            "@g",
            "0;JMP",
        ],
    );
}

#[test]
fn return_shape() {
    let out = translate(&["return"], "Foo");
    assert_lines(
        &out,
        &[
            "// New file: Foo",
            "// return",
            "@SP",
            "M=M-1",
            "A=M",
            "D=M",
            "@R13",
            "M=D",
            "@ARG",
            "D=M",
            "@R15",
            "M=D",
            "@LCL",
            "D=M",
            "@SP",
            "M=D",
            "@SP",
            "M=M-1",
            "A=M",
            "D=M",
            "@THAT",
            "M=D",
            "@SP",
            "M=M-1",
            "A=M",
            "D=M",
            "@THIS",
            "M=D",
            "@SP",
            "M=M-1",
            "A=M",
            "D=M",
            "@ARG",
            "M=D",
            "@SP",
            "M=M-1",
            "A=M",
            "D=M",
            "@LCL",
            "M=D",
            "@SP",
            "M=M-1",
            "A=M",
            "D=M",
            "@R14",
            "M=D",
            "@R15",
            "D=M",
            "@SP",
            "M=D",
            "@R13",
            "D=M",
            "@SP",
            "A=M",
            "M=D",
            "@SP",
            "M=M+1",
            "@R14",
            "A=M",
            "0;JMP",
        ],
    );
}

#[test]
fn bootstrap_shape() {
    let out = initial_data();
    let head: Vec<&str> = out.iter().take(7).map(|s| s.as_str()).collect();
    assert_eq!(
        head,
        &[
            "// New file: initialize ASM file",
            "// initialize sp 256",
            "@256",
            "D=A",
            "@SP",
            "M=D",
            "// call Sys.init 0",
        ]
    );
    let tail: Vec<&str> = out.iter().skip(7).map(|s| s.as_str()).collect();
    assert_eq!(
        tail,
        &[
            "($ret.0)",
            "@$ret.0",
            "D=A",
            "@51",
            "D=D+A",
            "@SP",
            "A=M",
            "M=D",
            "@SP",
            "M=M+1",
            "@LCL",
            "D=M",
            "@SP",
            "A=M",
            "M=D",
            "@SP",
            "M=M+1",
            "@ARG",
            "D=M",
            "@SP",
            "A=M",
            "M=D",
            "@SP",
            "M=M+1",
            "@THIS",
            "D=M",
            "@SP",
            "A=M",
            "M=D",
            "@SP",
            "M=M+1",
            "@THAT",
            "D=M",
            "@SP",
            "A=M",
            "M=D",
            "@SP",
            "M=M+1",
            "@5",
            "D=A",
            "@0",
            "D=D+A",
            "@SP",
            "D=M-D",
            "@ARG",
            "M=D",
            "@SP",
            "D=M",
            "@LCL",
            "M=D",
            "@Sys.init",
            "0;JMP",
        ]
    );
}

#[test]
fn label_scoping_keeps_functions_apart() {
    let out = translate(
        &["function f 0", "label L", "goto L", "function g 0", "label L", "goto L"],
        "Foo",
    );
    let text = out.join("\n");
    assert!(text.contains("(f$L)"));
    assert!(text.contains("@f$L"));
    assert!(text.contains("(g$L)"));
    assert!(text.contains("@g$L"));
    // The scoped symbols are distinct, so neither function's jump can land
    // in the other.
    assert_ne!("f$L", "g$L");
    let f_jump = out.iter().position(|l| l == "@f$L").unwrap();
    let g_jump = out.iter().position(|l| l == "@g$L").unwrap();
    assert!(f_jump < g_jump);
}

#[test]
fn static_cells_are_private_per_unit() {
    let foo = translate(&["push static 3", "pop static 3"], "Foo");
    let bar = translate(&["push static 3", "pop static 3"], "Bar");
    assert!(foo.join("\n").contains("@Foo$3"));
    assert!(!foo.join("\n").contains("@Bar$3"));
    assert!(bar.join("\n").contains("@Bar$3"));
    assert!(!bar.join("\n").contains("@Foo$3"));
}

#[test]
fn static_cells_differ_per_offset() {
    let out = translate(&["push static 1", "push static 2"], "Foo");
    let text = out.join("\n");
    assert!(text.contains("@Foo$1"));
    assert!(text.contains("@Foo$2"));
}

#[test]
fn retranslation_is_identical() {
    let lines = &[
        "function f 1",
        "push constant 3",
        "push constant 4",
        "gt",
        "if-goto BIG",
        "call g 0",
        "label BIG",
        "return",
    ];
    let first = translate(lines, "Foo");
    let second = translate(lines, "Foo");
    assert_eq!(first, second);
}

#[test]
fn unknown_command_is_fatal() {
    assert_eq!(translate_err(&["fly high 3"], "Foo"), TranslateError::UnknownCommand);
    assert_eq!(
        translate_err(&["push constant 1", "launch"], "Foo"),
        TranslateError::UnknownCommand
    );
}

#[test]
fn invalid_segment_is_fatal() {
    assert_eq!(translate_err(&["push banana 3"], "Foo"), TranslateError::InvalidSegment);
    assert_eq!(translate_err(&["pop constant 3"], "Foo"), TranslateError::InvalidSegment);
    assert_eq!(translate_err(&["push"], "Foo"), TranslateError::InvalidSegment);
}

#[test]
fn invalid_value_is_fatal() {
    assert_eq!(translate_err(&["push local x"], "Foo"), TranslateError::InvalidValue);
    assert_eq!(translate_err(&["push local"], "Foo"), TranslateError::InvalidValue);
    assert_eq!(translate_err(&["push local 007"], "Foo"), TranslateError::InvalidValue);
    assert_eq!(translate_err(&["push local 70000"], "Foo"), TranslateError::InvalidValue);
    assert_eq!(translate_err(&["function f"], "Foo"), TranslateError::InvalidValue);
    assert_eq!(translate_err(&["call g -1"], "Foo"), TranslateError::InvalidValue);
}

#[test]
fn no_partial_output_on_error() {
    let content: Vec<String> = vec!["push constant 1".to_string(), "oops".to_string()];
    let result = parse_content(content, "Foo".to_string());
    assert!(result.is_err());
}

#[test]
fn index_bounds_accepted() {
    let out = translate(&["push constant 0", "push constant 65535"], "Foo");
    assert_eq!(out[2], "@0");
    assert_eq!(out[10], "@65535");
}

#[test]
fn empty_unit_translates_to_header_only() {
    let out = translate(&[], "Foo");
    assert_lines(&out, &["// New file: Foo"]);
}
