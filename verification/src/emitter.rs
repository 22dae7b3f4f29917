//! The code emitter: an ordered, append-only buffer of assembly lines, with
//! one primitive per fixed output shape.  Primitives never reorder or merge;
//! each call appends exactly the lines its contract lists, so the order of
//! calls in a generator is semantically load-bearing.

use vstd::prelude::*;
use crate::text::lines_of;

verus! {

/// An address instruction: `@` followed by a constant or a symbol.
pub open spec fn a_line(x: Seq<char>) -> Seq<char> {
    "@"@ + x
}

/// A label definition: the symbol in parentheses.
pub open spec fn label_line(x: Seq<char>) -> Seq<char> {
    "("@ + x + ")"@
}

/// A conditional jump on the D register: `D;` followed by the jump kind.
pub open spec fn jump_line(cmp: Seq<char>) -> Seq<char> {
    "D;"@ + cmp
}

pub open spec fn label_lines(x: Seq<char>) -> Seq<Seq<char>> {
    seq![label_line(x)]
}

pub open spec fn goto_label_lines(x: Seq<char>) -> Seq<Seq<char>> {
    seq![a_line(x), "0;JMP"@]
}

pub open spec fn jump_if_d_neq_lines(x: Seq<char>) -> Seq<Seq<char>> {
    seq![a_line(x), "D;JNE"@]
}

pub open spec fn jump_if_d_eq_lines(x: Seq<char>) -> Seq<Seq<char>> {
    seq![a_line(x), "D;JEQ"@]
}

pub open spec fn at_lines(x: Seq<char>) -> Seq<Seq<char>> {
    seq![a_line(x)]
}

pub open spec fn d_less_one_lines() -> Seq<Seq<char>> {
    seq!["D=D-1"@]
}

pub open spec fn d_plus_a_to_d_lines() -> Seq<Seq<char>> {
    seq!["D=D+A"@]
}

pub open spec fn d_plus_a_address_lines() -> Seq<Seq<char>> {
    seq!["A=D+A"@, "D=M"@]
}

pub open spec fn d_plus_m_to_m_lines() -> Seq<Seq<char>> {
    seq!["M=D+M"@]
}

pub open spec fn m_less_d_to_m_lines() -> Seq<Seq<char>> {
    seq!["M=M-D"@]
}

pub open spec fn m_less_d_to_d_lines() -> Seq<Seq<char>> {
    seq!["D=M-D"@]
}

pub open spec fn m_and_d_lines() -> Seq<Seq<char>> {
    seq!["M=M&D"@]
}

pub open spec fn m_or_d_lines() -> Seq<Seq<char>> {
    seq!["M=M|D"@]
}

pub open spec fn not_m_lines() -> Seq<Seq<char>> {
    seq!["M=!M"@]
}

pub open spec fn neg_m_lines() -> Seq<Seq<char>> {
    seq!["M=-M"@]
}

/// The comparison tail: speculatively write true (`-1`) at the result cell,
/// jump over the false overwrite when the comparison holds.
pub open spec fn compare_with_d_lines(cmp: Seq<char>, lbl: Seq<char>) -> Seq<Seq<char>> {
    seq!["M=-1"@, a_line(lbl), jump_line(cmp), "@SP"@, "A=M"@, "M=0"@, label_line(lbl)]
}

pub open spec fn m_to_d_lines() -> Seq<Seq<char>> {
    seq!["D=M"@]
}

pub open spec fn d_to_m_lines() -> Seq<Seq<char>> {
    seq!["M=D"@]
}

pub open spec fn d_to_tmp_lines(lbl: Seq<char>) -> Seq<Seq<char>> {
    seq![a_line(lbl), "M=D"@]
}

pub open spec fn move_value_to_d_lines(v: Seq<char>) -> Seq<Seq<char>> {
    seq![a_line(v), "D=A"@]
}

pub open spec fn get_value_from_segment_lines(seg: Seq<char>) -> Seq<Seq<char>> {
    seq![a_line(seg), "A=M+D"@, "D=M"@]
}

pub open spec fn get_address_from_segment_lines(seg: Seq<char>) -> Seq<Seq<char>> {
    seq![a_line(seg), "D=M+D"@]
}

pub open spec fn get_value_at_lines(v: Seq<char>) -> Seq<Seq<char>> {
    seq![a_line(v), "D=M"@]
}

pub open spec fn goto_value_at_lines(v: Seq<char>) -> Seq<Seq<char>> {
    seq![a_line(v), "A=M"@, "0;JMP"@]
}

pub open spec fn advance_sp_lines() -> Seq<Seq<char>> {
    seq!["@SP"@, "M=M+1"@]
}

pub open spec fn push_to_stack_lines() -> Seq<Seq<char>> {
    seq!["@SP"@, "A=M"@, "M=D"@] + advance_sp_lines()
}

pub open spec fn push_to_stack_zero_lines() -> Seq<Seq<char>> {
    seq!["@SP"@, "A=M"@, "M=0"@] + advance_sp_lines()
}

pub open spec fn pop_from_stack_lines() -> Seq<Seq<char>> {
    seq!["@SP"@, "M=M-1"@, "A=M"@]
}

pub open spec fn pop_from_stack_to_d_lines() -> Seq<Seq<char>> {
    pop_from_stack_lines() + seq!["D=M"@]
}

pub open spec fn pop_from_stack_to_lines(lbl: Seq<char>) -> Seq<Seq<char>> {
    pop_from_stack_to_d_lines() + seq![a_line(lbl), "A=M"@, "M=D"@]
}

/// The ordered buffer one command's assembly is assembled in.  Its view is
/// the sequence of lines appended so far.
pub struct AssemblerCommandBuilder {
    result: Vec<String>,
}

impl View for AssemblerCommandBuilder {
    type V = Seq<Seq<char>>;

    closed spec fn view(&self) -> Seq<Seq<char>> {
        lines_of(self.result@)
    }
}

impl AssemblerCommandBuilder {
    /// An empty buffer.
    pub fn new() -> (r: AssemblerCommandBuilder)
        ensures
            r@ == Seq::<Seq<char>>::empty(),
    {
        let r = AssemblerCommandBuilder { result: Vec::new() };
        proof {
            assert(r@ =~= Seq::<Seq<char>>::empty());
        }
        r
    }

    /// The lines appended so far, in order.
    pub fn parsed_content(&self) -> (r: Vec<String>)
        ensures
            lines_of(r@) == self@,
    {
        let mut r: Vec<String> = Vec::new();
        let mut i: usize = 0;
        while i < self.result.len()
            invariant
                0 <= i <= self.result@.len(),
                r@.len() == i,
                forall|j: int| 0 <= j < i ==> r@[j]@ == #[trigger] self.result@[j]@,
            decreases self.result@.len() - i,
        {
            let s = self.result[i].clone();
            r.push(s);
            i += 1;
        }
        proof {
            assert(lines_of(r@) =~= self@);
        }
        r
    }

    fn push_line(&mut self, s: String)
        ensures
            final(self)@ == old(self)@ + seq![s@],
    {
        self.result.push(s);
        proof {
            assert(self@ =~= old(self)@ + seq![s@]);
        }
    }

    pub fn label(&mut self, value: &str)
        ensures
            final(self)@ == old(self)@ + label_lines(value@),
    {
        self.push_line(String::from_str("(").concat(value).concat(")"));
        proof {
            assert(self@ =~= old(self)@ + label_lines(value@));
        }
    }

    pub fn goto_label(&mut self, value: &str)
        ensures
            final(self)@ == old(self)@ + goto_label_lines(value@),
    {
        self.push_line(String::from_str("@").concat(value));
        self.push_line(String::from_str("0;JMP"));
        proof {
            assert(self@ =~= old(self)@ + goto_label_lines(value@));
        }
    }

    pub fn jump_to_label_if_d_neq(&mut self, value: &str)
        ensures
            final(self)@ == old(self)@ + jump_if_d_neq_lines(value@),
    {
        self.push_line(String::from_str("@").concat(value));
        self.push_line(String::from_str("D;JNE"));
        proof {
            assert(self@ =~= old(self)@ + jump_if_d_neq_lines(value@));
        }
    }

    pub fn jump_to_label_if_d_eq(&mut self, value: &str)
        ensures
            final(self)@ == old(self)@ + jump_if_d_eq_lines(value@),
    {
        self.push_line(String::from_str("@").concat(value));
        self.push_line(String::from_str("D;JEQ"));
        proof {
            assert(self@ =~= old(self)@ + jump_if_d_eq_lines(value@));
        }
    }

    pub fn at(&mut self, value: &str)
        ensures
            final(self)@ == old(self)@ + at_lines(value@),
    {
        self.push_line(String::from_str("@").concat(value));
        proof {
            assert(self@ =~= old(self)@ + at_lines(value@));
        }
    }

    pub fn d_less_one_to_d(&mut self)
        ensures
            final(self)@ == old(self)@ + d_less_one_lines(),
    {
        self.push_line(String::from_str("D=D-1"));
        proof {
            assert(self@ =~= old(self)@ + d_less_one_lines());
        }
    }

    pub fn d_plus_a_to_d(&mut self)
        ensures
            final(self)@ == old(self)@ + d_plus_a_to_d_lines(),
    {
        self.push_line(String::from_str("D=D+A"));
        proof {
            assert(self@ =~= old(self)@ + d_plus_a_to_d_lines());
        }
    }

    pub fn d_plus_a_address_to_d(&mut self)
        ensures
            final(self)@ == old(self)@ + d_plus_a_address_lines(),
    {
        self.push_line(String::from_str("A=D+A"));
        self.push_line(String::from_str("D=M"));
        proof {
            assert(self@ =~= old(self)@ + d_plus_a_address_lines());
        }
    }

    pub fn d_plus_m_to_m(&mut self)
        ensures
            final(self)@ == old(self)@ + d_plus_m_to_m_lines(),
    {
        self.push_line(String::from_str("M=D+M"));
        proof {
            assert(self@ =~= old(self)@ + d_plus_m_to_m_lines());
        }
    }

    pub fn m_less_d_to_m(&mut self)
        ensures
            final(self)@ == old(self)@ + m_less_d_to_m_lines(),
    {
        self.push_line(String::from_str("M=M-D"));
        proof {
            assert(self@ =~= old(self)@ + m_less_d_to_m_lines());
        }
    }

    pub fn m_less_d_to_d(&mut self)
        ensures
            final(self)@ == old(self)@ + m_less_d_to_d_lines(),
    {
        self.push_line(String::from_str("D=M-D"));
        proof {
            assert(self@ =~= old(self)@ + m_less_d_to_d_lines());
        }
    }

    pub fn m_and_d_to_m(&mut self)
        ensures
            final(self)@ == old(self)@ + m_and_d_lines(),
    {
        self.push_line(String::from_str("M=M&D"));
        proof {
            assert(self@ =~= old(self)@ + m_and_d_lines());
        }
    }

    pub fn m_or_d_to_m(&mut self)
        ensures
            final(self)@ == old(self)@ + m_or_d_lines(),
    {
        self.push_line(String::from_str("M=M|D"));
        proof {
            assert(self@ =~= old(self)@ + m_or_d_lines());
        }
    }

    pub fn not_m_to_m(&mut self)
        ensures
            final(self)@ == old(self)@ + not_m_lines(),
    {
        self.push_line(String::from_str("M=!M"));
        proof {
            assert(self@ =~= old(self)@ + not_m_lines());
        }
    }

    pub fn neg_m_to_m(&mut self)
        ensures
            final(self)@ == old(self)@ + neg_m_lines(),
    {
        self.push_line(String::from_str("M=-M"));
        proof {
            assert(self@ =~= old(self)@ + neg_m_lines());
        }
    }

    pub fn compare_with_d(&mut self, compare: &str, label_name: &str)
        ensures
            final(self)@ == old(self)@ + compare_with_d_lines(compare@, label_name@),
    {
        self.push_line(String::from_str("M=-1"));
        self.push_line(String::from_str("@").concat(label_name));
        self.push_line(String::from_str("D;").concat(compare));
        self.push_line(String::from_str("@SP"));
        self.push_line(String::from_str("A=M"));
        self.push_line(String::from_str("M=0"));
        self.push_line(String::from_str("(").concat(label_name).concat(")"));
        proof {
            assert(self@ =~= old(self)@ + compare_with_d_lines(compare@, label_name@));
        }
    }

    pub fn m_to_d(&mut self)
        ensures
            final(self)@ == old(self)@ + m_to_d_lines(),
    {
        self.push_line(String::from_str("D=M"));
        proof {
            assert(self@ =~= old(self)@ + m_to_d_lines());
        }
    }

    pub fn d_to_m(&mut self)
        ensures
            final(self)@ == old(self)@ + d_to_m_lines(),
    {
        self.push_line(String::from_str("M=D"));
        proof {
            assert(self@ =~= old(self)@ + d_to_m_lines());
        }
    }

    pub fn d_to_tmp(&mut self, label: &str)
        ensures
            final(self)@ == old(self)@ + d_to_tmp_lines(label@),
    {
        self.push_line(String::from_str("@").concat(label));
        self.push_line(String::from_str("M=D"));
        proof {
            assert(self@ =~= old(self)@ + d_to_tmp_lines(label@));
        }
    }

    pub fn move_value_to_d(&mut self, value: &str)
        ensures
            final(self)@ == old(self)@ + move_value_to_d_lines(value@),
    {
        self.push_line(String::from_str("@").concat(value));
        self.push_line(String::from_str("D=A"));
        proof {
            assert(self@ =~= old(self)@ + move_value_to_d_lines(value@));
        }
    }

    pub fn get_value_from_segment_plus_d(&mut self, value: &str)
        ensures
            final(self)@ == old(self)@ + get_value_from_segment_lines(value@),
    {
        self.push_line(String::from_str("@").concat(value));
        self.push_line(String::from_str("A=M+D"));
        self.push_line(String::from_str("D=M"));
        proof {
            assert(self@ =~= old(self)@ + get_value_from_segment_lines(value@));
        }
    }

    pub fn get_address_from_segment_plus_d(&mut self, value: &str)
        ensures
            final(self)@ == old(self)@ + get_address_from_segment_lines(value@),
    {
        self.push_line(String::from_str("@").concat(value));
        self.push_line(String::from_str("D=M+D"));
        proof {
            assert(self@ =~= old(self)@ + get_address_from_segment_lines(value@));
        }
    }

    pub fn get_value_at(&mut self, value: &str)
        ensures
            final(self)@ == old(self)@ + get_value_at_lines(value@),
    {
        self.push_line(String::from_str("@").concat(value));
        self.push_line(String::from_str("D=M"));
        proof {
            assert(self@ =~= old(self)@ + get_value_at_lines(value@));
        }
    }

    pub fn goto_value_at(&mut self, value: &str)
        ensures
            final(self)@ == old(self)@ + goto_value_at_lines(value@),
    {
        self.push_line(String::from_str("@").concat(value));
        self.push_line(String::from_str("A=M"));
        self.push_line(String::from_str("0;JMP"));
        proof {
            assert(self@ =~= old(self)@ + goto_value_at_lines(value@));
        }
    }

    pub fn advance_sp(&mut self)
        ensures
            final(self)@ == old(self)@ + advance_sp_lines(),
    {
        self.push_line(String::from_str("@SP"));
        self.push_line(String::from_str("M=M+1"));
        proof {
            assert(self@ =~= old(self)@ + advance_sp_lines());
        }
    }

    pub fn push_to_stack(&mut self)
        ensures
            final(self)@ == old(self)@ + push_to_stack_lines(),
    {
        self.push_line(String::from_str("@SP"));
        self.push_line(String::from_str("A=M"));
        self.push_line(String::from_str("M=D"));
        self.advance_sp();
        proof {
            assert(self@ =~= old(self)@ + push_to_stack_lines());
        }
    }

    pub fn push_to_stack_zero(&mut self)
        ensures
            final(self)@ == old(self)@ + push_to_stack_zero_lines(),
    {
        self.push_line(String::from_str("@SP"));
        self.push_line(String::from_str("A=M"));
        self.push_line(String::from_str("M=0"));
        self.advance_sp();
        proof {
            assert(self@ =~= old(self)@ + push_to_stack_zero_lines());
        }
    }

    pub fn pop_from_stack(&mut self)
        ensures
            final(self)@ == old(self)@ + pop_from_stack_lines(),
    {
        self.push_line(String::from_str("@SP"));
        self.push_line(String::from_str("M=M-1"));
        self.push_line(String::from_str("A=M"));
        proof {
            assert(self@ =~= old(self)@ + pop_from_stack_lines());
        }
    }

    pub fn pop_from_stack_to_d(&mut self)
        ensures
            final(self)@ == old(self)@ + pop_from_stack_to_d_lines(),
    {
        self.pop_from_stack();
        self.push_line(String::from_str("D=M"));
        proof {
            assert(self@ =~= old(self)@ + pop_from_stack_to_d_lines());
        }
    }

    pub fn pop_from_stack_to(&mut self, label: &str)
        ensures
            final(self)@ == old(self)@ + pop_from_stack_to_lines(label@),
    {
        self.pop_from_stack_to_d();
        self.push_line(String::from_str("@").concat(label));
        self.push_line(String::from_str("A=M"));
        self.push_line(String::from_str("M=D"));
        proof {
            assert(self@ =~= old(self)@ + pop_from_stack_to_lines(label@));
        }
    }
}

} // verus!
