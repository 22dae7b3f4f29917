//! The instruction model: one raw line is parsed into a structured command,
//! and the enclosing-function scope is threaded from line to line so that
//! control-flow labels can be namespaced.

use vstd::prelude::*;
use crate::text::{
    dec_str, find_token_end, lemma_dec_str_digits, lemma_dec_str_injective, parse_index,
    parse_u16, str_eq, token_end,
};

verus! {

/// The memory segments a `push` or `pop` command may address.
#[derive(Clone, Copy, Debug, PartialEq, Eq, Structural)]
pub enum Segment {
    Local,
    Argument,
    This,
    That,
    Temp,
    Static,
    Pointer,
    Constant,
}

/// A structured command, one per instruction line.
#[derive(Clone, Debug, PartialEq)]
pub enum Command {
    Push(Segment, u16),
    Pop(Segment, u16),
    Add,
    Sub,
    Neg,
    Eq,
    Lt,
    Gt,
    And,
    Or,
    Not,
    Label(String),
    Goto(String),
    IfGoto(String),
    Function(String, u16),
    Call(String, u16),
    Return,
    Initialize,
}

/// The spec-level form of a command: names as character sequences.
pub enum CommandModel {
    Push(Segment, u16),
    Pop(Segment, u16),
    Add,
    Sub,
    Neg,
    Eq,
    Lt,
    Gt,
    And,
    Or,
    Not,
    Label(Seq<char>),
    Goto(Seq<char>),
    IfGoto(Seq<char>),
    Function(Seq<char>, u16),
    Call(Seq<char>, u16),
    Return,
    Initialize,
}

impl View for Command {
    type V = CommandModel;

    open spec fn view(&self) -> CommandModel {
        match self {
            Command::Push(seg, i) => CommandModel::Push(*seg, *i),
            Command::Pop(seg, i) => CommandModel::Pop(*seg, *i),
            Command::Add => CommandModel::Add,
            Command::Sub => CommandModel::Sub,
            Command::Neg => CommandModel::Neg,
            Command::Eq => CommandModel::Eq,
            Command::Lt => CommandModel::Lt,
            Command::Gt => CommandModel::Gt,
            Command::And => CommandModel::And,
            Command::Or => CommandModel::Or,
            Command::Not => CommandModel::Not,
            Command::Label(n) => CommandModel::Label(n@),
            Command::Goto(n) => CommandModel::Goto(n@),
            Command::IfGoto(n) => CommandModel::IfGoto(n@),
            Command::Function(n, k) => CommandModel::Function(n@, *k),
            Command::Call(n, k) => CommandModel::Call(n@, *k),
            Command::Return => CommandModel::Return,
            Command::Initialize => CommandModel::Initialize,
        }
    }
}

/// Why a translation was refused.  The input is assumed to be valid
/// virtual-machine code; any of these is fatal and no partial output is kept.
#[derive(Clone, Copy, Debug, PartialEq, Eq, Structural)]
pub enum TranslateError {
    /// The command tag is not in the instruction set.
    UnknownCommand,
    /// The segment operand of a `push`/`pop` is not a recognized segment
    /// name, or is `constant` for a `pop`.
    InvalidSegment,
    /// A numeric operand is missing, not canonical decimal, or out of range.
    InvalidValue,
}

/// The first three space-separated tokens of a line; missing tokens are
/// empty.  Splitting is on single spaces, so consecutive spaces yield empty
/// tokens, exactly as the splitting rule demands.
pub open spec fn split3(line: Seq<char>) -> (Seq<char>, Seq<char>, Seq<char>) {
    let e0 = token_end(line, 0);
    let t0 = line.subrange(0, e0);
    if e0 == line.len() {
        (t0, Seq::empty(), Seq::empty())
    } else {
        let e1 = token_end(line, e0 + 1);
        let t1 = line.subrange(e0 + 1, e1);
        if e1 == line.len() {
            (t0, t1, Seq::empty())
        } else {
            let e2 = token_end(line, e1 + 1);
            (t0, t1, line.subrange(e1 + 1, e2))
        }
    }
}

/// The segment a `push`/`pop` operand names.
pub open spec fn parse_segment(s: Seq<char>) -> Option<Segment> {
    if s == "local"@ {
        Some(Segment::Local)
    } else if s == "argument"@ {
        Some(Segment::Argument)
    } else if s == "this"@ {
        Some(Segment::This)
    } else if s == "that"@ {
        Some(Segment::That)
    } else if s == "temp"@ {
        Some(Segment::Temp)
    } else if s == "static"@ {
        Some(Segment::Static)
    } else if s == "pointer"@ {
        Some(Segment::Pointer)
    } else if s == "constant"@ {
        Some(Segment::Constant)
    } else {
        None
    }
}

/// What one raw line parses to.  The command tag set is closed; operands are
/// validated here, once, and nowhere else.
pub open spec fn spec_parse_command(line: Seq<char>) -> Result<CommandModel, TranslateError> {
    let (t0, t1, t2) = split3(line);
    if t0 == "push"@ {
        match parse_segment(t1) {
            Option::None => Err(TranslateError::InvalidSegment),
            Option::Some(seg) => match parse_index(t2) {
                Option::None => Err(TranslateError::InvalidValue),
                Option::Some(i) => Ok(CommandModel::Push(seg, i)),
            },
        }
    } else if t0 == "pop"@ {
        match parse_segment(t1) {
            Option::None => Err(TranslateError::InvalidSegment),
            Option::Some(Segment::Constant) => Err(TranslateError::InvalidSegment),
            Option::Some(seg) => match parse_index(t2) {
                Option::None => Err(TranslateError::InvalidValue),
                Option::Some(i) => Ok(CommandModel::Pop(seg, i)),
            },
        }
    } else if t0 == "add"@ {
        Ok(CommandModel::Add)
    } else if t0 == "sub"@ {
        Ok(CommandModel::Sub)
    } else if t0 == "neg"@ {
        Ok(CommandModel::Neg)
    } else if t0 == "eq"@ {
        Ok(CommandModel::Eq)
    } else if t0 == "lt"@ {
        Ok(CommandModel::Lt)
    } else if t0 == "gt"@ {
        Ok(CommandModel::Gt)
    } else if t0 == "and"@ {
        Ok(CommandModel::And)
    } else if t0 == "or"@ {
        Ok(CommandModel::Or)
    } else if t0 == "not"@ {
        Ok(CommandModel::Not)
    } else if t0 == "label"@ {
        Ok(CommandModel::Label(t1))
    } else if t0 == "goto"@ {
        Ok(CommandModel::Goto(t1))
    } else if t0 == "if-goto"@ {
        Ok(CommandModel::IfGoto(t1))
    } else if t0 == "function"@ {
        match parse_index(t2) {
            Option::None => Err(TranslateError::InvalidValue),
            Option::Some(k) => Ok(CommandModel::Function(t1, k)),
        }
    } else if t0 == "call"@ {
        match parse_index(t2) {
            Option::None => Err(TranslateError::InvalidValue),
            Option::Some(k) => Ok(CommandModel::Call(t1, k)),
        }
    } else if t0 == "return"@ {
        Ok(CommandModel::Return)
    } else if t0 == "initialize"@ {
        Ok(CommandModel::Initialize)
    } else {
        Err(TranslateError::UnknownCommand)
    }
}

/// The enclosing-function name after a command: a `function` command opens a
/// new scope; every other command keeps the previous one.
pub open spec fn spec_next_function(c: CommandModel, prev: Seq<char>) -> Seq<char> {
    match c {
        CommandModel::Function(name, _) => name,
        _ => prev,
    }
}

/// A control-flow symbol namespaced by its enclosing function, so that the
/// same label text in two functions never collides.
pub open spec fn scoped_label(function: Seq<char>, name: Seq<char>) -> Seq<char> {
    function + seq!['$'] + name
}

/// The cell a `static` reference resolves to: private to one translation
/// unit, shared for equal offsets within it.
pub open spec fn static_cell(unit: Seq<char>, index: u16) -> Seq<char> {
    unit + seq!['$'] + dec_str(index as nat)
}

/// A label made unique by a per-run counter value, scoped by the enclosing
/// function.  Distinct counter values give distinct labels, which is what
/// keeps repeated comparisons and calls inside one function from colliding.
pub open spec fn unique_label(function: Seq<char>, base: Seq<char>, id: nat) -> Seq<char> {
    function + seq!['$'] + base + seq!['.'] + dec_str(id)
}

fn parse_segment_token(s: &str) -> (r: Option<Segment>)
    ensures
        r == parse_segment(s@),
{
    if str_eq(s, "local") {
        Some(Segment::Local)
    } else if str_eq(s, "argument") {
        Some(Segment::Argument)
    } else if str_eq(s, "this") {
        Some(Segment::This)
    } else if str_eq(s, "that") {
        Some(Segment::That)
    } else if str_eq(s, "temp") {
        Some(Segment::Temp)
    } else if str_eq(s, "static") {
        Some(Segment::Static)
    } else if str_eq(s, "pointer") {
        Some(Segment::Pointer)
    } else if str_eq(s, "constant") {
        Some(Segment::Constant)
    } else {
        None
    }
}

/// Parses one raw instruction line into a structured command.
pub fn parse_line(line: &str) -> (r: Result<Command, TranslateError>)
    ensures
        match r {
            Ok(c) => spec_parse_command(line@) == Ok::<CommandModel, TranslateError>(c@),
            Err(e) => spec_parse_command(line@) == Err::<CommandModel, TranslateError>(e),
        },
{
    let n = line.unicode_len();
    let e0 = find_token_end(line, 0);
    let t0 = line.substring_char(0, e0);
    let mut t1: &str = "";
    let mut t2: &str = "";
    if e0 < n {
        let e1 = find_token_end(line, e0 + 1);
        t1 = line.substring_char(e0 + 1, e1);
        if e1 < n {
            let e2 = find_token_end(line, e1 + 1);
            t2 = line.substring_char(e1 + 1, e2);
        }
    }
    proof {
        reveal_strlit("");
        assert(""@ =~= Seq::<char>::empty());
        assert((t0@, t1@, t2@) == split3(line@));
    }
    if str_eq(t0, "push") {
        match parse_segment_token(t1) {
            None => Err(TranslateError::InvalidSegment),
            Some(seg) => match parse_u16(t2) {
                None => Err(TranslateError::InvalidValue),
                Some(i) => Ok(Command::Push(seg, i)),
            },
        }
    } else if str_eq(t0, "pop") {
        match parse_segment_token(t1) {
            None => Err(TranslateError::InvalidSegment),
            Some(Segment::Constant) => Err(TranslateError::InvalidSegment),
            Some(seg) => match parse_u16(t2) {
                None => Err(TranslateError::InvalidValue),
                Some(i) => Ok(Command::Pop(seg, i)),
            },
        }
    } else if str_eq(t0, "add") {
        Ok(Command::Add)
    } else if str_eq(t0, "sub") {
        Ok(Command::Sub)
    } else if str_eq(t0, "neg") {
        Ok(Command::Neg)
    } else if str_eq(t0, "eq") {
        Ok(Command::Eq)
    } else if str_eq(t0, "lt") {
        Ok(Command::Lt)
    } else if str_eq(t0, "gt") {
        Ok(Command::Gt)
    } else if str_eq(t0, "and") {
        Ok(Command::And)
    } else if str_eq(t0, "or") {
        Ok(Command::Or)
    } else if str_eq(t0, "not") {
        Ok(Command::Not)
    } else if str_eq(t0, "label") {
        Ok(Command::Label(String::from_str(t1)))
    } else if str_eq(t0, "goto") {
        Ok(Command::Goto(String::from_str(t1)))
    } else if str_eq(t0, "if-goto") {
        Ok(Command::IfGoto(String::from_str(t1)))
    } else if str_eq(t0, "function") {
        match parse_u16(t2) {
            None => Err(TranslateError::InvalidValue),
            Some(k) => Ok(Command::Function(String::from_str(t1), k)),
        }
    } else if str_eq(t0, "call") {
        match parse_u16(t2) {
            None => Err(TranslateError::InvalidValue),
            Some(k) => Ok(Command::Call(String::from_str(t1), k)),
        }
    } else if str_eq(t0, "return") {
        Ok(Command::Return)
    } else if str_eq(t0, "initialize") {
        Ok(Command::Initialize)
    } else {
        Err(TranslateError::UnknownCommand)
    }
}

/// One instruction line in its scoping context: the parsed command, the
/// enclosing function seen so far, and the translation unit's name.
pub struct VMInstruction {
    /// The command of the line most recently read; `None` before any line.
    pub command: Option<Command>,
    /// The name given by the most recent `function` command; empty before
    /// the first function definition.
    pub function_name: String,
    /// The translation unit's name, fixed for the whole scan.
    pub filename: String,
}

/// The spec-level view of an instruction's state.
pub struct InstructionModel {
    pub command: Option<CommandModel>,
    pub function_name: Seq<char>,
    pub filename: Seq<char>,
}

impl View for VMInstruction {
    type V = InstructionModel;

    open spec fn view(&self) -> InstructionModel {
        InstructionModel {
            command: match self.command {
                Option::Some(c) => Option::Some(c@),
                Option::None => Option::None,
            },
            function_name: self.function_name@,
            filename: self.filename@,
        }
    }
}

impl InstructionModel {
    /// The parsed command; meaningful only after a line has been read.
    pub open spec fn cmd(self) -> CommandModel {
        self.command->0
    }
}

impl VMInstruction {
    /// A fresh scoping state for one translation unit.
    pub fn new(filename: &str) -> (r: VMInstruction)
        ensures
            r@.command is None,
            r@.function_name == Seq::<char>::empty(),
            r@.filename == filename@,
    {
        VMInstruction {
            command: None,
            function_name: String::new(),
            filename: String::from_str(filename),
        }
    }

    /// Reads the next raw line: parses it and moves the function scope
    /// forward.  On a malformed line the state is left unchanged and the
    /// error says exactly what was wrong.
    pub fn update(&mut self, line: &str) -> (r: Result<(), TranslateError>)
        ensures
            final(self)@.filename == old(self)@.filename,
            match r {
                Ok(_) => {
                    &&& spec_parse_command(line@) is Ok
                    &&& final(self)@.command == Option::Some(
                        spec_parse_command(line@)->Ok_0,
                    )
                    &&& final(self)@.function_name == spec_next_function(
                        spec_parse_command(line@)->Ok_0,
                        old(self)@.function_name,
                    )
                }
                Err(e) => {
                    &&& spec_parse_command(line@) == Err::<CommandModel, TranslateError>(e)
                    &&& *final(self) == *old(self)
                }
            },
    {
        match parse_line(line) {
            Err(e) => Err(e),
            Ok(c) => {
                match &c {
                    Command::Function(name, _) => {
                        self.function_name = name.clone();
                    }
                    _ => {}
                }
                self.command = Some(c);
                Ok(())
            }
        }
    }

    /// The scoped symbol for the current `label`/`goto`/`if-goto` command.
    pub fn build_label(&self) -> (r: String)
        requires
            self@.command matches Option::Some(c) && (c is Label || c is Goto || c is IfGoto),
        ensures
            r@ == scoped_label(self@.function_name, jump_name(self@.cmd())),
    {
        match &self.command {
            Some(Command::Label(n)) => self.build_label_from(n.as_str()),
            Some(Command::Goto(n)) => self.build_label_from(n.as_str()),
            Some(Command::IfGoto(n)) => self.build_label_from(n.as_str()),
            _ => unreached(),
        }
    }

    /// The per-unit cell for the current `static` push/pop command.
    pub fn build_static_label(&self) -> (r: String)
        requires
            self@.command matches Option::Some(c) && (c matches CommandModel::Push(
                Segment::Static,
                _,
            ) || c matches CommandModel::Pop(Segment::Static, _)),
        ensures
            r@ == static_cell(self@.filename, segment_index(self@.cmd())),
    {
        proof {
            reveal_strlit("$");
        }
        let idx: u16 = match &self.command {
            Some(Command::Push(_, i)) => *i,
            Some(Command::Pop(_, i)) => *i,
            _ => unreached(),
        };
        let num = crate::text::u16_to_dec(idx);
        let r = String::from_str(self.filename.as_str()).concat("$").concat(num.as_str());
        proof {
            assert(r@ =~= static_cell(self@.filename, segment_index(self@.cmd())));
        }
        r
    }

    /// A symbol namespaced by the enclosing function.
    pub fn build_label_from(&self, value: &str) -> (r: String)
        ensures
            r@ == scoped_label(self@.function_name, value@),
    {
        proof {
            reveal_strlit("$");
        }
        let r = String::from_str(self.function_name.as_str()).concat("$").concat(value);
        proof {
            assert(r@ =~= scoped_label(self@.function_name, value@));
        }
        r
    }

    /// A function-scoped symbol made unique by a counter value drawn once
    /// per emitted branch or call.
    pub fn build_unique_label_from(&self, value: &str, id: u64) -> (r: String)
        ensures
            r@ == unique_label(self@.function_name, value@, id as nat),
    {
        proof {
            reveal_strlit("$");
            reveal_strlit(".");
        }
        let num = crate::text::u64_to_dec(id);
        let r = String::from_str(self.function_name.as_str()).concat("$").concat(value).concat(
            ".",
        ).concat(num.as_str());
        proof {
            assert(r@ =~= unique_label(self@.function_name, value@, id as nat));
        }
        r
    }

    /// The global entry symbol of the current `function`/`call` command:
    /// function names are the program's global namespace and are not scoped.
    pub fn build_function_name(&self) -> (r: String)
        requires
            self@.command matches Option::Some(c) && (c is Function || c is Call),
        ensures
            r@ == call_target(self@.cmd()),
    {
        match &self.command {
            Some(Command::Function(n, _)) => n.clone(),
            Some(Command::Call(n, _)) => n.clone(),
            _ => unreached(),
        }
    }
}

/// The label text a `label`/`goto`/`if-goto` command names.
pub open spec fn jump_name(c: CommandModel) -> Seq<char> {
    match c {
        CommandModel::Label(n) => n,
        CommandModel::Goto(n) => n,
        CommandModel::IfGoto(n) => n,
        _ => Seq::empty(),
    }
}

/// The offset operand of a `push`/`pop` command.
pub open spec fn segment_index(c: CommandModel) -> u16 {
    match c {
        CommandModel::Push(_, i) => i,
        CommandModel::Pop(_, i) => i,
        _ => 0,
    }
}

/// The function name a `function`/`call` command targets.
pub open spec fn call_target(c: CommandModel) -> Seq<char> {
    match c {
        CommandModel::Function(n, _) => n,
        CommandModel::Call(n, _) => n,
        _ => Seq::empty(),
    }
}

/// Label scoping: two different enclosing functions can define the same
/// label text without their scoped symbols colliding.
pub proof fn lemma_scoped_labels_distinct(f1: Seq<char>, f2: Seq<char>, name: Seq<char>)
    requires
        f1 != f2,
    ensures
        scoped_label(f1, name) != scoped_label(f2, name),
{
    let s1 = scoped_label(f1, name);
    let s2 = scoped_label(f2, name);
    if s1 == s2 {
        assert(seq!['$'].len() == 1);
        assert(s1.len() == f1.len() + 1 + name.len());
        assert(s2.len() == f2.len() + 1 + name.len());
        assert(f1.len() == f2.len());
        assert forall|i: int| 0 <= i < f1.len() implies f1[i] == f2[i] by {
            assert(s1[i] == f1[i]);
            assert(s2[i] == f2[i]);
            assert(s1[i] == s2[i]);
        }
        assert(f1 =~= f2);
    }
}

/// Static-segment isolation: a `static` reference in one translation unit
/// never resolves to the cell of another unit, and within one unit distinct
/// offsets resolve to distinct cells.
pub proof fn lemma_static_cells_distinct(u1: Seq<char>, u2: Seq<char>, i1: u16, i2: u16)
    requires
        u1 != u2 || i1 != i2,
    ensures
        static_cell(u1, i1) != static_cell(u2, i2),
{
    let d1 = dec_str(i1 as nat);
    let d2 = dec_str(i2 as nat);
    let s1 = static_cell(u1, i1);
    let s2 = static_cell(u2, i2);
    lemma_dec_str_digits(i1 as nat);
    lemma_dec_str_digits(i2 as nat);
    if s1 == s2 {
        assert(seq!['$'].len() == 1);
        assert(s1.len() == u1.len() + 1 + d1.len());
        assert(s2.len() == u2.len() + 1 + d2.len());
        if u1.len() == u2.len() {
            assert forall|i: int| 0 <= i < u1.len() implies u1[i] == u2[i] by {
                assert(s1[i] == u1[i]);
                assert(s2[i] == u2[i]);
                assert(s1[i] == s2[i]);
            }
            assert(u1 =~= u2);
            let p = u1.len() as int + 1;
            assert(d1.len() == d2.len());
            assert forall|i: int| 0 <= i < d1.len() implies d1[i] == d2[i] by {
                assert(s1[p + i] == d1[i]);
                assert(s2[p + i] == d2[i]);
                assert(s1[p + i] == s2[p + i]);
            }
            assert(d1 =~= d2);
            lemma_dec_str_injective(i1 as nat, i2 as nat);
        } else if u1.len() < u2.len() {
            lemma_unit_prefix_no_collision(u1, u2, d1, d2);
        } else {
            lemma_unit_prefix_no_collision(u2, u1, d2, d1);
        }
    }
}

/// Helper: a cell of a shorter unit name never equals a cell of a longer
/// one, because the longer decomposition would put the shorter one's `$`
/// separator among the decimal digits.
proof fn lemma_unit_prefix_no_collision(ua: Seq<char>, ub: Seq<char>, da: Seq<char>, db: Seq<char>)
    requires
        ua.len() < ub.len(),
        da.len() >= 1,
        db.len() >= 1,
        forall|i: int| 0 <= i < da.len() ==> crate::text::is_digit(#[trigger] da[i]),
    ensures
        ua + seq!['$'] + da != ub + seq!['$'] + db,
{
    let sa = ua + seq!['$'] + da;
    let sb = ub + seq!['$'] + db;
    if sa == sb {
        assert(sa.len() == ua.len() + 1 + da.len());
        assert(sb.len() == ub.len() + 1 + db.len());
        // The position of `ub`'s separator, seen from the `ua`
        // decomposition, lies inside the digit part `da`.
        let j = ub.len() - ua.len() - 1;
        assert(0 <= j < da.len());
        assert(sb[ub.len() as int] == '$');
        assert(sa[ub.len() as int] == da[j]);
        assert(crate::text::is_digit(da[j]));
        assert(('$' as u32) < ('0' as u32));
    }
}

/// Counter-made labels are unique: distinct counter values give distinct
/// labels, for one enclosing function and one base text.  This is what rules
/// out control-flow corruption when one function holds many comparisons,
/// calls, or local-variable loops.
pub proof fn lemma_unique_labels_distinct(
    function: Seq<char>,
    base: Seq<char>,
    id1: nat,
    id2: nat,
)
    requires
        id1 != id2,
    ensures
        unique_label(function, base, id1) != unique_label(function, base, id2),
{
    let s1 = unique_label(function, base, id1);
    let s2 = unique_label(function, base, id2);
    let d1 = dec_str(id1);
    let d2 = dec_str(id2);
    if s1 == s2 {
        let p = function.len() + 1 + base.len() + 1;
        assert(seq!['$'].len() == 1 && seq!['.'].len() == 1);
        assert(s1.len() == p + d1.len());
        assert(s2.len() == p + d2.len());
        assert forall|i: int| 0 <= i < d1.len() implies d1[i] == d2[i] by {
            assert(s1[p + i] == d1[i]);
            assert(s2[p + i] == d2[i]);
            assert(s1[p + i] == s2[p + i]);
        }
        assert(d1 =~= d2);
        lemma_dec_str_injective(id1, id2);
    }
}

} // verus!
