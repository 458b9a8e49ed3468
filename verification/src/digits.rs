//! Verified decimal rendering and parsing, used for port numbers in
//! service addresses, counts in progress messages and remaining-time
//! figures.
use vstd::prelude::*;

verus! {

/// The character for one decimal digit value.
pub open spec fn dec_digit_char(d: int) -> char {
    ((48 + d) as u8) as char
}

/// The usual decimal rendering of a non-negative integer.
pub open spec fn dec_digits_spec(n: int) -> Seq<char>
    decreases n,
{
    if n < 0 {
        Seq::empty()
    } else if n < 10 {
        seq![dec_digit_char(n)]
    } else {
        dec_digits_spec(n / 10) + seq![dec_digit_char(n % 10)]
    }
}

/// One decimal digit as a string slice.
pub fn dec_digit_str(d: u8) -> (r: &'static str)
    requires
        d < 10,
    ensures
        r@ == seq![dec_digit_char(d as int)],
{
    proof {
        reveal_strlit("0");
        reveal_strlit("1");
        reveal_strlit("2");
        reveal_strlit("3");
        reveal_strlit("4");
        reveal_strlit("5");
        reveal_strlit("6");
        reveal_strlit("7");
        reveal_strlit("8");
        reveal_strlit("9");
    }
    match d {
        0 => "0",
        1 => "1",
        2 => "2",
        3 => "3",
        4 => "4",
        5 => "5",
        6 => "6",
        7 => "7",
        8 => "8",
        _ => "9",
    }
}

/// Decimal rendering of an unsigned integer.
pub fn u64_to_string(n: u64) -> (r: String)
    ensures
        r@ == dec_digits_spec(n as int),
    decreases n,
{
    let d = (n % 10) as u8;
    let ds = dec_digit_str(d);
    if n < 10 {
        ds.to_owned()
    } else {
        let mut prefix = u64_to_string(n / 10);
        prefix.append(ds);
        prefix
    }
}

pub open spec fn is_dec_digit(c: char) -> bool {
    48 <= c as u32 && c as u32 <= 57
}

/// The value of a digit string read most significant first.
pub open spec fn dec_val_spec(s: Seq<char>) -> int
    decreases s.len(),
{
    if s.len() == 0 {
        0
    } else {
        dec_val_spec(s.drop_last()) * 10 + (s[s.len() - 1] as u32 - 48)
    }
}

pub proof fn lemma_dec_val_nonneg(s: Seq<char>)
    requires
        forall|i: int| 0 <= i < s.len() ==> is_dec_digit(s[i]),
    ensures
        dec_val_spec(s) >= 0,
    decreases s.len(),
{
    if s.len() > 0 {
        lemma_dec_val_nonneg(s.drop_last());
    }
}

pub proof fn lemma_dec_val_prefix_le(s: Seq<char>, j: int)
    requires
        forall|i: int| 0 <= i < s.len() ==> is_dec_digit(s[i]),
        0 <= j <= s.len(),
    ensures
        dec_val_spec(s.take(j)) <= dec_val_spec(s),
    decreases s.len() - j,
{
    if j < s.len() {
        lemma_dec_val_prefix_le(s, j + 1);
        let t = s.take(j + 1);
        assert(t.drop_last() =~= s.take(j));
        assert(forall|i: int| 0 <= i < t.len() ==> is_dec_digit(t[i]));
        lemma_dec_val_nonneg(s.take(j));
        assert(dec_val_spec(t) == dec_val_spec(s.take(j)) * 10 + (s[j] as u32 - 48));
    } else {
        assert(s.take(j) =~= s);
    }
}

/// The value of a non-empty all-digit sequence, if it fits in
/// sixteen bits.
pub open spec fn u16_of_digits(t: Seq<char>) -> Option<u16> {
    if t.len() == 0 {
        None
    } else if exists|i: int| 0 <= i < t.len() && !is_dec_digit(t[i]) {
        None
    } else if dec_val_spec(t) > 65535 {
        None
    } else {
        Some(dec_val_spec(t) as u16)
    }
}

/// A port number read from text: an optional plus sign, then decimal
/// digits whose value fits in sixteen bits; anything else is rejected.
pub open spec fn parse_u16_spec(s: Seq<char>) -> Option<u16> {
    if s.len() > 0 && s[0] == '+' {
        u16_of_digits(s.skip(1))
    } else {
        u16_of_digits(s)
    }
}

/// Parse an unsigned sixteen-bit decimal, against `parse_u16_spec`.
pub fn parse_u16(s: &str) -> (r: Option<u16>)
    ensures
        r == parse_u16_spec(s@),
{
    let n = s.unicode_len();
    let b: usize = if n > 0 && s.get_char(0) == '+' {
        1
    } else {
        0
    };
    let ghost t = s@.skip(b as int);
    proof {
        assert(s@.skip(0) =~= s@);
        assert(forall|k: int| 0 <= k < t.len() ==> t[k] == s@[k + b]);
    }
    if n == b {
        return None;
    }
    // every character must be a digit
    let mut i: usize = b;
    while i < n
        invariant
            b <= i <= n,
            n == s@.len(),
            b <= n,
            b == 1 || b == 0,
            b == 1 <==> (s@.len() > 0 && s@[0] == '+'),
            t == s@.skip(b as int),
            forall|k: int| b <= k < i ==> is_dec_digit(s@[k]),
        decreases n - i,
    {
        let c = s.get_char(i);
        let u = c as u32;
        if u < 48 || u > 57 {
            proof {
                assert(0 <= i - b < t.len());
                assert(!is_dec_digit(t[i - b]));
                assert(exists|k: int| 0 <= k < t.len() && !is_dec_digit(t[k]));
                assert(u16_of_digits(t) is None);
                if b == 0 {
                    assert(t =~= s@);
                }
                assert(parse_u16_spec(s@) == u16_of_digits(t));
            }
            return None;
        }
        i = i + 1;
    }
    proof {
        assert(forall|k: int| 0 <= k < t.len() ==> is_dec_digit(t[k]));
    }
    // accumulate, rejecting anything over the sixteen-bit maximum
    let mut val: u32 = 0;
    let mut j: usize = b;
    proof {
        assert(t.take(0) =~= Seq::<char>::empty());
    }
    while j < n
        invariant
            b <= j <= n,
            n == s@.len(),
            b < n,
            b == 1 || b == 0,
            b == 1 <==> (s@.len() > 0 && s@[0] == '+'),
            t == s@.skip(b as int),
            forall|k: int| 0 <= k < t.len() ==> is_dec_digit(t[k]),
            val == dec_val_spec(t.take(j - b)),
            val <= 65535,
        decreases n - j,
    {
        let c = s.get_char(j);
        proof {
            assert(t[j - b] == s@[j as int]);
            assert(is_dec_digit(c));
        }
        let d = (c as u32) - 48;
        proof {
            let tk = t.take(j - b + 1);
            assert(tk.drop_last() =~= t.take(j - b));
            assert(dec_val_spec(tk) == val * 10 + d);
        }
        if val > 6553 || (val == 6553 && d > 5) {
            proof {
                lemma_dec_val_prefix_le(t, j - b + 1);
                assert(dec_val_spec(t.take(j - b + 1)) > 65535);
                assert(dec_val_spec(t) > 65535);
                assert(u16_of_digits(t) is None);
                if b == 0 {
                    assert(t =~= s@);
                }
                assert(parse_u16_spec(s@) == u16_of_digits(t));
            }
            return None;
        }
        val = val * 10 + d;
        j = j + 1;
    }
    proof {
        assert(t.take(n - b) =~= t);
    }
    Some(val as u16)
}

} // verus!
