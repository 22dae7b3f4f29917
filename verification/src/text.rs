//! Character and string helpers: decimal printing and parsing of operands,
//! token extraction, and string equality, each tied to a spec-level model.

use vstd::prelude::*;

verus! {

/// The lines of a vector of strings, as a sequence of character sequences.
pub open spec fn lines_of(v: Seq<String>) -> Seq<Seq<char>> {
    Seq::new(v.len(), |i: int| v[i]@)
}

/// Whether two string slices hold the same characters.
pub fn str_eq(a: &str, b: &str) -> (r: bool)
    ensures
        r == (a@ == b@),
{
    let alen = a.unicode_len();
    let blen = b.unicode_len();
    if alen != blen {
        assert(a@.len() != b@.len());
        return false;
    }
    let mut i: usize = 0;
    while i < alen
        invariant
            alen == a@.len(),
            alen == b@.len(),
            0 <= i <= alen,
            forall|j: int| 0 <= j < i ==> a@[j] == b@[j],
        decreases alen - i,
    {
        if a.get_char(i) != b.get_char(i) {
            return false;
        }
        i += 1;
    }
    proof {
        assert(a@ =~= b@);
    }
    true
}

/// The position where the token that starts at `from` ends: the first
/// position at or after `from` that holds a space, or the end of the line.
pub open spec fn token_end(s: Seq<char>, from: int) -> int
    decreases s.len() - from,
{
    if from < 0 || from >= s.len() {
        s.len() as int
    } else if s[from] == ' ' {
        from
    } else {
        token_end(s, from + 1)
    }
}

pub proof fn lemma_token_end_bounds(s: Seq<char>, from: int)
    requires
        0 <= from <= s.len(),
    ensures
        from <= token_end(s, from) <= s.len(),
    decreases s.len() - from,
{
    if from < s.len() && s[from] != ' ' {
        lemma_token_end_bounds(s, from + 1);
    }
}

/// Finds the end of the token that starts at `from`.
pub fn find_token_end(s: &str, from: usize) -> (end: usize)
    requires
        from <= s@.len(),
    ensures
        end == token_end(s@, from as int),
        from <= end <= s@.len(),
{
    let n = s.unicode_len();
    let mut i: usize = from;
    while i < n && s.get_char(i) != ' '
        invariant
            n == s@.len(),
            from <= i <= n,
            token_end(s@, from as int) == token_end(s@, i as int),
        decreases n - i,
    {
        i += 1;
    }
    proof {
        lemma_token_end_bounds(s@, from as int);
    }
    i
}

/// The numeric value of a decimal digit character.
pub open spec fn digit_val(c: char) -> int {
    (c as u32) - ('0' as u32)
}

pub open spec fn is_digit(c: char) -> bool {
    ('0' as u32) <= (c as u32) && (c as u32) <= ('9' as u32)
}

/// The value of a sequence of decimal digits, most significant first.
pub open spec fn dec_val(s: Seq<char>) -> int
    decreases s.len(),
{
    if s.len() == 0 {
        0
    } else {
        dec_val(s.drop_last()) * 10 + digit_val(s.last())
    }
}

/// Whether `s` is the canonical decimal form of a number: nonempty, all
/// digits, and without a leading zero (except for "0" itself).
pub open spec fn is_canonical_dec(s: Seq<char>) -> bool {
    &&& s.len() > 0
    &&& forall|i: int| 0 <= i < s.len() ==> is_digit(#[trigger] s[i])
    &&& (s.len() == 1 || s[0] != '0')
}

/// The operand value a token denotes, when the token is canonical decimal
/// and fits in sixteen bits.
pub open spec fn parse_index(s: Seq<char>) -> Option<u16> {
    if is_canonical_dec(s) && dec_val(s) <= u16::MAX {
        Some(dec_val(s) as u16)
    } else {
        None
    }
}

proof fn lemma_dec_val_nonneg(s: Seq<char>)
    requires
        forall|i: int| 0 <= i < s.len() ==> is_digit(#[trigger] s[i]),
    ensures
        dec_val(s) >= 0,
    decreases s.len(),
{
    if s.len() > 0 {
        lemma_dec_val_nonneg(s.drop_last());
    }
}

proof fn lemma_dec_val_prefix_grows(s: Seq<char>, i: int)
    requires
        forall|k: int| 0 <= k < s.len() ==> is_digit(#[trigger] s[k]),
        0 <= i < s.len(),
    ensures
        dec_val(s) >= dec_val(s.subrange(0, i + 1)),
    decreases s.len() - i,
{
    let p = s.subrange(0, i + 1);
    assert(p.drop_last() =~= s.subrange(0, i));
    lemma_dec_val_nonneg(p);
    if i + 1 < s.len() {
        lemma_dec_val_prefix_grows(s, i + 1);
        let q = s.subrange(0, i + 2);
        assert(q.drop_last() =~= p);
        assert(dec_val(q) == dec_val(p) * 10 + digit_val(s[i + 1]));
        assert(digit_val(s[i + 1]) >= 0);
        assert(dec_val(p) * 10 >= dec_val(p));
    } else {
        assert(s =~= p);
    }
}

/// Parses a canonical decimal token into a sixteen-bit value.
pub fn parse_u16(s: &str) -> (r: Option<u16>)
    ensures
        r == parse_index(s@),
{
    let n = s.unicode_len();
    if n == 0 {
        return None;
    }
    let first = s.get_char(0);
    let first_code = first as u32;
    if n > 1 && first_code == 48 {
        assert('0' as u32 == 48);
        assert(s@[0] == '0');
        return None;
    }
    let mut val: u32 = 0;
    let mut i: usize = 0;
    while i < n
        invariant
            n == s@.len(),
            0 <= i <= n,
            forall|k: int| 0 <= k < i ==> is_digit(#[trigger] s@[k]),
            val == dec_val(s@.subrange(0, i as int)),
            val <= u16::MAX,
        decreases n - i,
    {
        let c = s.get_char(i);
        let code = c as u32;
        if code < 48 || code > 57 {
            proof {
                assert('0' as u32 == 48 && '9' as u32 == 57);
            }
            assert(!is_digit(s@[i as int]));
            return None;
        }
        proof {
            assert('0' as u32 == 48 && '9' as u32 == 57);
            assert(is_digit(s@[i as int]));
        }
        let d: u32 = code - 48;
        let next: u32 = val * 10 + d;
        proof {
            let prev = s@.subrange(0, i as int);
            let cur = s@.subrange(0, i as int + 1);
            assert(cur.drop_last() =~= prev);
            assert(cur.last() == s@[i as int]);
            assert(dec_val(cur) == dec_val(prev) * 10 + digit_val(s@[i as int]));
        }
        if next > 65535 {
            proof {
                let cur = s@.subrange(0, i as int + 1);
                if forall|k: int| 0 <= k < s@.len() ==> is_digit(#[trigger] s@[k]) {
                    lemma_dec_val_prefix_grows(s@, i as int);
                    assert(dec_val(s@) >= dec_val(cur));
                }
            }
            return None;
        }
        val = next;
        i += 1;
    }
    proof {
        assert(s@.subrange(0, n as int) =~= s@);
        assert(is_canonical_dec(s@));
    }
    Some(val as u16)
}

/// The decimal rendering of a natural number, most significant digit first.
pub open spec fn dec_str(n: nat) -> Seq<char>
    decreases n,
{
    if n < 10 {
        seq![digit_char(n)]
    } else {
        dec_str(n / 10) + seq![digit_char(n % 10)]
    }
}

/// The character for one decimal digit.
pub open spec fn digit_char(n: nat) -> char {
    if n == 0 {
        '0'
    } else if n == 1 {
        '1'
    } else if n == 2 {
        '2'
    } else if n == 3 {
        '3'
    } else if n == 4 {
        '4'
    } else if n == 5 {
        '5'
    } else if n == 6 {
        '6'
    } else if n == 7 {
        '7'
    } else if n == 8 {
        '8'
    } else {
        '9'
    }
}

/// One decimal digit as a string slice.
fn digit_slice(d: u64) -> (s: &'static str)
    requires
        d < 10,
    ensures
        s@ == seq![digit_char(d as nat)],
{
    proof {
        reveal_strlit("0");
        reveal_strlit("1");
        reveal_strlit("2");
        reveal_strlit("3");
        reveal_strlit("4");
        reveal_strlit("5");
        reveal_strlit("6");
        reveal_strlit("7");
        reveal_strlit("8");
        reveal_strlit("9");
    }
    let s: &'static str = if d == 0 {
        "0"
    } else if d == 1 {
        "1"
    } else if d == 2 {
        "2"
    } else if d == 3 {
        "3"
    } else if d == 4 {
        "4"
    } else if d == 5 {
        "5"
    } else if d == 6 {
        "6"
    } else if d == 7 {
        "7"
    } else if d == 8 {
        "8"
    } else {
        "9"
    };
    proof {
        assert(s@ =~= seq![digit_char(d as nat)]);
    }
    s
}

/// Renders a number in canonical decimal.
pub fn u64_to_dec(n: u64) -> (s: String)
    ensures
        s@ == dec_str(n as nat),
    decreases n,
{
    if n < 10 {
        String::from_str(digit_slice(n))
    } else {
        let prefix = u64_to_dec(n / 10);
        let s = prefix.concat(digit_slice(n % 10));
        s
    }
}

/// Renders a sixteen-bit number in canonical decimal.
pub fn u16_to_dec(n: u16) -> (s: String)
    ensures
        s@ == dec_str(n as nat),
{
    u64_to_dec(n as u64)
}

proof fn lemma_digit_char_val(d: nat)
    requires
        d < 10,
    ensures
        digit_val(digit_char(d)) == d,
        is_digit(digit_char(d)),
{
    if d == 0 {
        assert(digit_val('0') == 0 && is_digit('0'));
    } else if d == 1 {
        assert(digit_val('1') == 1 && is_digit('1'));
    } else if d == 2 {
        assert(digit_val('2') == 2 && is_digit('2'));
    } else if d == 3 {
        assert(digit_val('3') == 3 && is_digit('3'));
    } else if d == 4 {
        assert(digit_val('4') == 4 && is_digit('4'));
    } else if d == 5 {
        assert(digit_val('5') == 5 && is_digit('5'));
    } else if d == 6 {
        assert(digit_val('6') == 6 && is_digit('6'));
    } else if d == 7 {
        assert(digit_val('7') == 7 && is_digit('7'));
    } else if d == 8 {
        assert(digit_val('8') == 8 && is_digit('8'));
    } else {
        assert(digit_val('9') == 9 && is_digit('9'));
    }
}

pub proof fn lemma_dec_str_digits(n: nat)
    ensures
        dec_str(n).len() >= 1,
        forall|i: int| 0 <= i < dec_str(n).len() ==> is_digit(#[trigger] dec_str(n)[i]),
    decreases n,
{
    if n < 10 {
        lemma_digit_char_val(n);
    } else {
        lemma_dec_str_digits(n / 10);
        lemma_digit_char_val(n % 10);
    }
}

proof fn lemma_dec_val_of_dec_str(n: nat)
    ensures
        dec_val(dec_str(n)) == n,
    decreases n,
{
    if n < 10 {
        let s = dec_str(n);
        assert(s.drop_last() =~= Seq::<char>::empty());
        assert(s.last() == digit_char(n));
        lemma_digit_char_val(n);
        assert(dec_val(s) == dec_val(Seq::<char>::empty()) * 10 + digit_val(digit_char(n)));
    } else {
        lemma_dec_val_of_dec_str(n / 10);
        lemma_digit_char_val(n % 10);
        let s = dec_str(n);
        assert(s.drop_last() =~= dec_str(n / 10));
        assert(s.last() == digit_char(n % 10));
        assert(dec_val(s) == dec_val(dec_str(n / 10)) * 10 + digit_val(digit_char(n % 10)));
        assert(dec_val(s) == (n / 10) * 10 + (n % 10));
    }
}

/// Decimal rendering is injective: distinct numbers have distinct renderings.
pub proof fn lemma_dec_str_injective(a: nat, b: nat)
    requires
        dec_str(a) == dec_str(b),
    ensures
        a == b,
{
    lemma_dec_val_of_dec_str(a);
    lemma_dec_val_of_dec_str(b);
}

} // verus!
