//! Decimal text for integers: encoding to canonical decimal ASCII (no leading
//! zeros, a minus sign for negative values) and decoding that accepts exactly
//! that canonical form.

use vstd::prelude::*;

verus! {

pub open spec fn is_digit(c: char) -> bool {
    c == '0' || c == '1' || c == '2' || c == '3' || c == '4' || c == '5' || c == '6' || c == '7'
        || c == '8' || c == '9'
}

pub open spec fn digit_val(c: char) -> int {
    if c == '0' {
        0
    } else if c == '1' {
        1
    } else if c == '2' {
        2
    } else if c == '3' {
        3
    } else if c == '4' {
        4
    } else if c == '5' {
        5
    } else if c == '6' {
        6
    } else if c == '7' {
        7
    } else if c == '8' {
        8
    } else if c == '9' {
        9
    } else {
        0
    }
}

pub open spec fn digit_char(d: int) -> char {
    if d == 0 {
        '0'
    } else if d == 1 {
        '1'
    } else if d == 2 {
        '2'
    } else if d == 3 {
        '3'
    } else if d == 4 {
        '4'
    } else if d == 5 {
        '5'
    } else if d == 6 {
        '6'
    } else if d == 7 {
        '7'
    } else if d == 8 {
        '8'
    } else {
        '9'
    }
}

/// Canonical decimal text of the unsigned number `n`.
pub open spec fn spec_udec(n: nat) -> Seq<char>
    decreases n,
{
    if n < 10 {
        seq![digit_char(n as int)]
    } else {
        spec_udec(n / 10).push(digit_char((n % 10) as int))
    }
}

/// Canonical decimal text of the signed number `v`.
pub open spec fn spec_sdec(v: int) -> Seq<char> {
    if v < 0 {
        seq!['-'] + spec_udec((-v) as nat)
    } else {
        spec_udec(v as nat)
    }
}

/// The number a digit string denotes.
pub open spec fn udec_val(s: Seq<char>) -> int
    decreases s.len(),
{
    if s.len() == 0 {
        0
    } else {
        udec_val(s.drop_last()) * 10 + digit_val(s.last())
    }
}

/// `s` is a canonical unsigned decimal: nonempty, digits only, and no
/// leading zero except for `"0"` itself.
pub open spec fn is_udec(s: Seq<char>) -> bool {
    &&& s.len() > 0
    &&& forall|i: int| 0 <= i < s.len() ==> is_digit(#[trigger] s[i])
    &&& (s.len() > 1 ==> s[0] != '0')
}

/// `s` is a canonical signed decimal: a canonical unsigned decimal, or a
/// minus sign followed by a nonzero canonical unsigned decimal.
pub open spec fn is_sdec(s: Seq<char>) -> bool {
    if s.len() > 0 && s[0] == '-' {
        is_udec(s.drop_first()) && udec_val(s.drop_first()) != 0
    } else {
        is_udec(s)
    }
}

pub open spec fn sdec_val(s: Seq<char>) -> int {
    if s.len() > 0 && s[0] == '-' {
        -udec_val(s.drop_first())
    } else {
        udec_val(s)
    }
}

pub proof fn lemma_udec_val_nonneg(s: Seq<char>)
    ensures
        udec_val(s) >= 0,
    decreases s.len(),
{
    if s.len() > 0 {
        lemma_udec_val_nonneg(s.drop_last());
    }
}

/// Extending a digit string to the right can only grow its value.
pub proof fn lemma_udec_val_prefix_le(s: Seq<char>, j: int)
    requires
        0 <= j <= s.len(),
    ensures
        udec_val(s.subrange(0, j)) <= udec_val(s),
    decreases s.len() - j,
{
    if j == s.len() {
        assert(s.subrange(0, j) =~= s);
    } else {
        lemma_udec_val_prefix_le(s, j + 1);
        let t = s.subrange(0, j + 1);
        assert(t.drop_last() =~= s.subrange(0, j));
        lemma_udec_val_nonneg(s.subrange(0, j));
    }
}

/// The canonical decimal text of `n` is canonical and denotes `n`.
pub proof fn lemma_udec_round_trip(n: nat)
    ensures
        is_udec(spec_udec(n)),
        udec_val(spec_udec(n)) == n,
        n >= 1 ==> spec_udec(n)[0] != '0',
    decreases n,
{
    if n < 10 {
        let s = spec_udec(n);
        assert(s.drop_last() =~= Seq::<char>::empty());
        assert(udec_val(s) == udec_val(s.drop_last()) * 10 + digit_val(s.last()));
    } else {
        lemma_udec_round_trip(n / 10);
        let s = spec_udec(n);
        assert(s.drop_last() =~= spec_udec(n / 10));
        vstd::arithmetic::div_mod::lemma_fundamental_div_mod(n as int, 10);
        assert(udec_val(s) == udec_val(s.drop_last()) * 10 + digit_val(s.last()));
    }
}

/// The canonical signed decimal text of `v` is canonical and denotes `v`.
pub proof fn lemma_sdec_round_trip(v: int)
    ensures
        is_sdec(spec_sdec(v)),
        sdec_val(spec_sdec(v)) == v,
{
    if v < 0 {
        lemma_udec_round_trip((-v) as nat);
        let s = spec_sdec(v);
        assert(s.drop_first() =~= spec_udec((-v) as nat));
    } else {
        lemma_udec_round_trip(v as nat);
        let s = spec_sdec(v);
        assert(is_digit(s[0]));
    }
}

fn digit_of(c: char) -> (r: Option<u8>)
    ensures
        match r {
            Some(d) => is_digit(c) && d < 10 && d as int == digit_val(c),
            None => !is_digit(c),
        },
{
    match c {
        '0' => Some(0),
        '1' => Some(1),
        '2' => Some(2),
        '3' => Some(3),
        '4' => Some(4),
        '5' => Some(5),
        '6' => Some(6),
        '7' => Some(7),
        '8' => Some(8),
        '9' => Some(9),
        _ => None,
    }
}

fn char_of_digit(d: u8) -> (r: char)
    requires
        d < 10,
    ensures
        r == digit_char(d as int),
{
    match d {
        0 => '0',
        1 => '1',
        2 => '2',
        3 => '3',
        4 => '4',
        5 => '5',
        6 => '6',
        7 => '7',
        8 => '8',
        _ => '9',
    }
}

/// The canonical decimal text of `n`.
pub fn fmt_u64(n: u64) -> (r: Vec<char>)
    ensures
        r@ == spec_udec(n as nat),
    decreases n,
{
    if n < 10 {
        let mut r: Vec<char> = Vec::new();
        r.push(char_of_digit(n as u8));
        r
    } else {
        let mut r = fmt_u64(n / 10);
        r.push(char_of_digit((n % 10) as u8));
        r
    }
}

/// The canonical decimal text of `n`, minus sign included for negatives.
pub fn fmt_i64(n: i64) -> (r: Vec<char>)
    ensures
        r@ == spec_sdec(n as int),
{
    if n >= 0 {
        fmt_u64(n as u64)
    } else {
        let m: u64 = ((-(n + 1)) as u64) + 1;
        assert(m as int == -(n as int));
        let mut r: Vec<char> = Vec::new();
        r.push('-');
        let mut tail = fmt_u64(m);
        r.append(&mut tail);
        proof {
            assert(r@ =~= seq!['-'] + spec_udec((-(n as int)) as nat));
        }
        r
    }
}

/// Decodes canonical unsigned decimal text; rejects anything else, and any
/// value that does not fit in 64 bits.
pub fn parse_u64(s: &Vec<char>) -> (r: Option<u64>)
    ensures
        match r {
            Some(v) => is_udec(s@) && v as int == udec_val(s@),
            None => !(is_udec(s@) && udec_val(s@) <= u64::MAX),
        },
{
    let len: usize = s.len();
    if len == 0 {
        return None;
    }
    if len > 1 && s[0] == '0' {
        return None;
    }
    let mut acc: u64 = 0;
    let mut i: usize = 0;
    while i < len
        invariant
            s@.len() == len,
            len > 0,
            i <= len,
            len > 1 ==> s@[0] != '0',
            forall|j: int| 0 <= j < i ==> is_digit(#[trigger] s@[j]),
            acc as int == udec_val(s@.subrange(0, i as int)),
        decreases len - i,
    {
        let ghost pre = s@.subrange(0, i as int);
        proof {
            assert(s@.subrange(0, i + 1 as int).drop_last() =~= pre);
        }
        match digit_of(s[i]) {
            None => {
                return None;
            },
            Some(d) => {
                if acc > (u64::MAX - (d as u64)) / 10 {
                    proof {
                        let w = s@.subrange(0, i + 1 as int);
                        assert(udec_val(w) == acc * 10 + d);
                        assert(acc * 10 + d > u64::MAX) by (nonlinear_arith)
                            requires
                                acc > (u64::MAX - (d as u64)) / 10,
                                d < 10,
                        ;
                        if is_udec(s@) {
                            lemma_udec_val_prefix_le(s@, i + 1);
                        }
                    }
                    return None;
                }
                acc = acc * 10 + (d as u64);
            },
        }
        i = i + 1;
    }
    proof {
        assert(s@.subrange(0, len as int) =~= s@);
    }
    Some(acc)
}

/// Decodes canonical signed decimal text; rejects anything else, and any
/// value outside the signed 64-bit range.
pub fn parse_i64(s: &Vec<char>) -> (r: Option<i64>)
    ensures
        match r {
            Some(v) => is_sdec(s@) && v as int == sdec_val(s@),
            None => !(is_sdec(s@) && i64::MIN <= sdec_val(s@) && sdec_val(s@) <= i64::MAX),
        },
{
    let len: usize = s.len();
    if len > 0 && s[0] == '-' {
        let tail = crate::text::subvec(s, 1, len);
        proof {
            assert(tail@ =~= s@.drop_first());
        }
        match parse_u64(&tail) {
            None => {
                proof {
                    if is_sdec(s@) {
                        lemma_udec_val_nonneg(s@.drop_first());
                    }
                }
                None
            },
            Some(m) => {
                if m == 0 {
                    None
                } else if m <= 9223372036854775808u64 {
                    if m == 9223372036854775808u64 {
                        Some(i64::MIN)
                    } else {
                        Some(-(m as i64))
                    }
                } else {
                    None
                }
            },
        }
    } else {
        match parse_u64(s) {
            None => {
                proof {
                    if is_sdec(s@) {
                        lemma_udec_val_nonneg(s@);
                    }
                }
                None
            },
            Some(v) => {
                if v <= i64::MAX as u64 {
                    Some(v as i64)
                } else {
                    None
                }
            },
        }
    }
}

} // verus!
