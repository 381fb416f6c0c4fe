use vstd::prelude::*;
use vstd::string::StrSliceExecFns;
use vstd::string::StringExecFns;

verus! {

/// Whether `c` is a decimal digit.
pub open spec fn is_dec_digit(c: char) -> bool {
    48 <= c as int && c as int <= 57
}

/// The value of one decimal digit character.
pub open spec fn dec_digit_val(c: char) -> int {
    c as int - 48
}

/// Whether every character of `s` is a decimal digit.
pub open spec fn all_dec_digits(s: Seq<char>) -> bool {
    forall|i: int| 0 <= i < s.len() ==> is_dec_digit(s[i])
}

/// The integer a digit sequence denotes in base ten.
pub open spec fn dec_value(s: Seq<char>) -> int
    decreases s.len(),
{
    if s.len() == 0 {
        0
    } else {
        10 * dec_value(s.drop_last()) + dec_digit_val(s.last())
    }
}

/// The digits of `s` once an optional leading plus sign is stripped, as
/// the standard integer parser accepts one.
pub open spec fn unsigned_digits(s: Seq<char>) -> Seq<char> {
    if s.len() > 0 && s[0] == '+' {
        s.drop_first()
    } else {
        s
    }
}

/// Whether `s` denotes a value that fits the priority field: an optional
/// leading plus sign, then at least one decimal digit, denoting a value
/// of at most 255.
pub open spec fn parses_to_u8(s: Seq<char>) -> bool {
    &&& unsigned_digits(s).len() > 0
    &&& all_dec_digits(unsigned_digits(s))
    &&& dec_value(unsigned_digits(s)) <= 255
}

/// A digit sequence denotes a non-negative value.
pub proof fn lemma_dec_value_nonneg(s: Seq<char>)
    requires
        all_dec_digits(s),
    ensures
        dec_value(s) >= 0,
    decreases s.len(),
{
    if s.len() > 0 {
        assert(all_dec_digits(s.drop_last()));
        lemma_dec_value_nonneg(s.drop_last());
    }
}

/// Reading one more digit multiplies the value read so far by ten and
/// adds that digit.
pub proof fn lemma_dec_value_take_succ(s: Seq<char>, i: int)
    requires
        0 <= i < s.len(),
    ensures
        dec_value(s.take(i + 1)) == 10 * dec_value(s.take(i)) + dec_digit_val(s[i]),
{
    assert(s.take(i + 1).drop_last() =~= s.take(i));
    assert(s.take(i + 1).last() == s[i]);
}

/// The value of a prefix of a digit sequence never exceeds the value of
/// the whole sequence.
pub proof fn lemma_dec_value_prefix_le(s: Seq<char>, i: int)
    requires
        all_dec_digits(s),
        0 <= i <= s.len(),
    ensures
        dec_value(s.take(i)) <= dec_value(s),
    decreases s.len() - i,
{
    if i == s.len() {
        assert(s.take(i) =~= s);
    } else {
        assert(all_dec_digits(s.take(i)));
        lemma_dec_value_nonneg(s.take(i));
        lemma_dec_value_take_succ(s, i);
        lemma_dec_value_prefix_le(s, i + 1);
    }
}

/// Parse the free-text answer to the priority prompt the way the standard
/// integer parser reads an eight-bit unsigned value: an optional leading
/// plus sign, then decimal digits.
pub fn parse_priority(s: &str) -> (r: Option<u8>)
    ensures
        match r {
            Some(v) => parses_to_u8(s@) && v as int == dec_value(unsigned_digits(s@)),
            None => !parses_to_u8(s@),
        },
{
    let ghost d = unsigned_digits(s@);
    let n = s.unicode_len();
    let mut start: usize = 0;
    if n > 0 && s.get_char(0) == '+' {
        start = 1;
    }
    proof {
        assert(d =~= s@.skip(start as int));
    }
    if start >= n {
        return None;
    }
    let mut i: usize = start;
    while i < n
        invariant
            start <= i <= n,
            n == s@.len(),
            d == unsigned_digits(s@),
            d == s@.skip(start as int),
            forall|j: int| 0 <= j < i - start ==> is_dec_digit(d[j]),
        decreases n - i,
    {
        let c = s.get_char(i);
        let u = c as u32;
        if !(48 <= u && u <= 57) {
            proof {
                assert(d.len() == n - start);
                assert(0 <= i - start < d.len());
                assert(d[i - start] == s@[i as int]);
                assert(c as int == u as int);
                assert(!is_dec_digit(d[i - start]));
                assert(!all_dec_digits(d));
            }
            return None;
        }
        i = i + 1;
    }
    proof {
        assert(all_dec_digits(d));
    }
    let mut acc: u32 = 0;
    let mut k: usize = start;
    while k < n
        invariant
            start <= k <= n,
            n == s@.len(),
            d == unsigned_digits(s@),
            d == s@.skip(start as int),
            all_dec_digits(d),
            acc <= 255,
            acc as int == dec_value(d.take(k - start)),
        decreases n - k,
    {
        let c = s.get_char(k);
        let u = c as u32;
        proof {
            assert(d.len() == n - start);
            assert(0 <= k - start < d.len());
            assert(d[k - start] == s@[k as int]);
            assert(c as int == u as int);
            assert(is_dec_digit(d[k - start]));
            lemma_dec_value_take_succ(d, k - start);
        }
        let dv = u - 48;
        acc = 10 * acc + dv;
        proof {
            assert(dv as int == dec_digit_val(d[k - start]));
            assert(acc as int == dec_value(d.take(k - start + 1)));
        }
        if acc > 255 {
            proof {
                lemma_dec_value_prefix_le(d, k - start + 1);
                assert(dec_value(d) > 255);
                assert(!parses_to_u8(s@));
            }
            return None;
        }
        k = k + 1;
    }
    proof {
        assert(d.take(n - start) =~= d);
    }
    Some(acc as u8)
}

/// The character for one digit value.
pub open spec fn dec_char(d: nat) -> char {
    if d == 0 {
        '0'
    } else if d == 1 {
        '1'
    } else if d == 2 {
        '2'
    } else if d == 3 {
        '3'
    } else if d == 4 {
        '4'
    } else if d == 5 {
        '5'
    } else if d == 6 {
        '6'
    } else if d == 7 {
        '7'
    } else if d == 8 {
        '8'
    } else {
        '9'
    }
}

/// The decimal digit characters of `n`, most significant first.
pub open spec fn dec_digits_of(n: nat) -> Seq<char>
    decreases n,
{
    if n < 10 {
        seq![dec_char(n)]
    } else {
        dec_digits_of(n / 10) + seq![dec_char(n % 10)]
    }
}

/// The decimal rendering of an integer: a minus sign for a negative
/// value, then the digits of its magnitude.
pub open spec fn int_string(n: int) -> Seq<char> {
    if n < 0 {
        seq!['-'] + dec_digits_of((-n) as nat)
    } else {
        dec_digits_of(n as nat)
    }
}

/// The one-character string for a digit value.
fn digit_str(d: u64) -> (r: &'static str)
    requires
        d < 10,
    ensures
        r@ == seq![dec_char(d as nat)],
{
    proof {
        reveal_strlit("0");
        reveal_strlit("1");
        reveal_strlit("2");
        reveal_strlit("3");
        reveal_strlit("4");
        reveal_strlit("5");
        reveal_strlit("6");
        reveal_strlit("7");
        reveal_strlit("8");
        reveal_strlit("9");
        assert("0"@ =~= seq![dec_char(0)]);
        assert("1"@ =~= seq![dec_char(1)]);
        assert("2"@ =~= seq![dec_char(2)]);
        assert("3"@ =~= seq![dec_char(3)]);
        assert("4"@ =~= seq![dec_char(4)]);
        assert("5"@ =~= seq![dec_char(5)]);
        assert("6"@ =~= seq![dec_char(6)]);
        assert("7"@ =~= seq![dec_char(7)]);
        assert("8"@ =~= seq![dec_char(8)]);
        assert("9"@ =~= seq![dec_char(9)]);
    }
    match d {
        0 => "0",
        1 => "1",
        2 => "2",
        3 => "3",
        4 => "4",
        5 => "5",
        6 => "6",
        7 => "7",
        8 => "8",
        _ => "9",
    }
}

/// The decimal rendering of an unsigned value.
pub fn u64_to_string(n: u64) -> (r: String)
    ensures
        r@ == dec_digits_of(n as nat),
    decreases n,
{
    if n < 10 {
        String::from_str(digit_str(n))
    } else {
        let prefix = u64_to_string(n / 10);
        prefix.concat(digit_str(n % 10))
    }
}

/// The decimal rendering of a signed value, as the standard formatter
/// writes one.
pub fn i64_to_string(n: i64) -> (r: String)
    ensures
        r@ == int_string(n as int),
{
    if n >= 0 {
        u64_to_string(n as u64)
    } else {
        let mag: u64 = ((-(n + 1)) as u64) + 1;
        proof {
            assert(mag as int == -(n as int));
            reveal_strlit("-");
            assert("-"@ =~= seq!['-']);
        }
        String::from_str("-").concat(u64_to_string(mag).as_str())
    }
}

} // verus!
