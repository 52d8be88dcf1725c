//! Reading a command line: splitting it into words at whitespace, reading
//! unsigned numbers, and zero-padding numbers for display.
use vstd::prelude::*;
use vstd::string::*;
use crate::text::{dec_digits, decimal};

verus! {

/// The characters that `char::is_whitespace` accepts: the Unicode
/// `White_Space` property.
pub open spec fn is_space(c: char) -> bool {
    let u = c as u32;
    ||| 0x09 <= u <= 0x0D
    ||| u == 0x20
    ||| u == 0x85
    ||| u == 0xA0
    ||| u == 0x1680
    ||| 0x2000 <= u <= 0x200A
    ||| u == 0x2028
    ||| u == 0x2029
    ||| u == 0x202F
    ||| u == 0x205F
    ||| u == 0x3000
}

/// The maximal runs of non-whitespace characters of `s`, in order.
pub open spec fn tokens(s: Seq<char>) -> Seq<Seq<char>>
    decreases s.len(),
{
    if s.len() == 0 {
        Seq::empty()
    } else {
        let t = tokens(s.drop_last());
        let c = s.last();
        if is_space(c) {
            t
        } else if s.len() >= 2 && !is_space(s[s.len() - 2]) {
            t.drop_last().push(t.last().push(c))
        } else {
            t.push(seq![c])
        }
    }
}

/// Whether `c` is whitespace.
pub fn char_is_space(c: char) -> (r: bool)
    ensures
        r == is_space(c),
{
    let u: u32 = c as u32;
    (0x09 <= u && u <= 0x0D) || u == 0x20 || u == 0x85 || u == 0xA0 || u == 0x1680 || (0x2000
        <= u && u <= 0x200A) || u == 0x2028 || u == 0x2029 || u == 0x202F || u == 0x205F || u
        == 0x3000
}

/// The words of `s`: the maximal runs of characters that are not whitespace.
pub fn split_words(s: &str) -> (r: Vec<&str>)
    ensures
        r@.map_values(|w: &str| w@) == tokens(s@),
{
    let n: usize = s.unicode_len();
    let mut out: Vec<&str> = Vec::new();
    let mut start: usize = 0;
    let mut in_word: bool = false;
    let mut i: usize = 0;
    while i < n
        invariant
            n == s@.len(),
            i <= n,
            in_word ==> start < i,
            in_word ==> (start == 0 || is_space(s@[start - 1])),
            in_word ==> forall|j: int| start <= j < i ==> !is_space(#[trigger] s@[j]),
            in_word ==> tokens(s@.subrange(0, i as int)) == out@.map_values(|w: &str| w@).push(
                s@.subrange(start as int, i as int),
            ),
            !in_word ==> tokens(s@.subrange(0, i as int)) == out@.map_values(|w: &str| w@),
            !in_word ==> (i == 0 || is_space(s@[i - 1])),
        decreases n - i,
    {
        let c = s.get_char(i);
        let ghost pre = s@.subrange(0, i as int);
        let ghost cur = s@.subrange(0, i + 1);
        proof {
            assert(cur.drop_last() =~= pre);
            assert(cur.last() == c);
            if i >= 1 {
                assert(cur[cur.len() - 2] == s@[i - 1]);
            }
        }
        if char_is_space(c) {
            if in_word {
                let ghost before = out@;
                let w = s.substring_char(start, i);
                out.push(w);
                proof {
                    assert(out@.map_values(|w: &str| w@) =~= before.map_values(|w: &str| w@).push(
                        s@.subrange(start as int, i as int),
                    ));
                }
                in_word = false;
            }
        } else {
            if in_word {
                proof {
                    let t = tokens(pre);
                    assert(!is_space(s@[i - 1]));
                    assert(t.drop_last() =~= out@.map_values(|w: &str| w@));
                    assert(t.last().push(c) =~= s@.subrange(start as int, i + 1));
                    assert(tokens(cur) =~= out@.map_values(|w: &str| w@).push(
                        s@.subrange(start as int, i + 1),
                    ));
                }
            } else {
                start = i;
                in_word = true;
                proof {
                    assert(seq![c] =~= s@.subrange(start as int, i + 1));
                }
            }
        }
        i = i + 1;
    }
    proof {
        assert(s@.subrange(0, n as int) =~= s@);
    }
    if in_word {
        let ghost before = out@;
        let w = s.substring_char(start, n);
        out.push(w);
        proof {
            assert(out@.map_values(|w: &str| w@) =~= before.map_values(|w: &str| w@).push(
                s@.subrange(start as int, n as int),
            ));
        }
    }
    out
}

/// Whether every character of `s` is an ASCII digit.
pub open spec fn all_digits(s: Seq<char>) -> bool {
    forall|i: int| 0 <= i < s.len() ==> '0' <= #[trigger] s[i] <= '9'
}

/// The number that a string of decimal digits denotes.
pub open spec fn digits_value(s: Seq<char>) -> int
    decreases s.len(),
{
    if s.len() == 0 {
        0
    } else {
        digits_value(s.drop_last()) * 10 + (s.last() as int - '0' as int)
    }
}

/// What `str::parse::<usize>` gives for `s`: an optional `+`, then at least
/// one decimal digit and nothing else, denoting a value that fits in `usize`.
pub open spec fn parsed_usize(s: Seq<char>) -> Option<int> {
    let d = if s.len() > 0 && s[0] == '+' { s.drop_first() } else { s };
    if d.len() > 0 && all_digits(d) && digits_value(d) <= usize::MAX {
        Some(digits_value(d))
    } else {
        None
    }
}

proof fn lemma_digits_value_grows(s: Seq<char>, k: int)
    requires
        all_digits(s),
        0 <= k <= s.len(),
    ensures
        0 <= digits_value(s.subrange(0, k)) <= digits_value(s),
    decreases s.len(),
{
    if s.len() == 0 {
        assert(s.subrange(0, k) =~= s);
    } else if k == s.len() {
        assert(s.subrange(0, k) =~= s);
        lemma_digits_value_grows(s.drop_last(), k - 1);
        assert(s.drop_last().subrange(0, 0) =~= Seq::<char>::empty());
    } else {
        lemma_digits_value_grows(s.drop_last(), k);
        assert(s.drop_last().subrange(0, k) =~= s.subrange(0, k));
        lemma_digits_value_grows(s.drop_last(), s.len() - 1);
        assert(s.drop_last().subrange(0, s.len() - 1) =~= s.drop_last());
    }
}

/// Reads `s` as an unsigned number, as `str::parse::<usize>` does.
pub fn parse_usize(s: &str) -> (r: Option<usize>)
    ensures
        match r {
            Some(v) => parsed_usize(s@) == Some(v as int),
            None => parsed_usize(s@) is None,
        },
{
    let n: usize = s.unicode_len();
    if n == 0 {
        return None;
    }
    let mut i: usize = 0;
    if s.get_char(0) == '+' {
        i = 1;
    }
    let ghost d = if s@.len() > 0 && s@[0] == '+' { s@.drop_first() } else { s@ };
    let ghost off: int = i as int;
    proof {
        assert(d =~= s@.subrange(off, n as int));
    }
    if i == n {
        return None;
    }
    let mut acc: usize = 0;
    let mut overflow: bool = false;
    while i < n
        invariant
            n == s@.len(),
            off <= i <= n,
            off == 0 || off == 1,
            d == s@.subrange(off, n as int),
            d == (if s@.len() > 0 && s@[0] == '+' { s@.drop_first() } else { s@ }),
            d.len() > 0,
            forall|j: int| off <= j < i ==> '0' <= #[trigger] s@[j] <= '9',
            !overflow ==> acc == digits_value(s@.subrange(off, i as int)),
            overflow ==> digits_value(s@.subrange(off, i as int)) > usize::MAX,
        decreases n - i,
    {
        let c = s.get_char(i);
        if !('0' <= c && c <= '9') {
            proof {
                assert(d[i - off] == c);
                assert(!all_digits(d));
            }
            return None;
        }
        let digit: usize = ((c as u32) - ('0' as u32)) as usize;
        let ghost pre = s@.subrange(off, i as int);
        let ghost cur = s@.subrange(off, i + 1);
        proof {
            assert(cur.drop_last() =~= pre);
            assert(cur.last() == c);
            assert(digits_value(cur) == digits_value(pre) * 10 + digit);
        }
        if !overflow {
            match acc.checked_mul(10) {
                Some(m) => match m.checked_add(digit) {
                    Some(v) => {
                        acc = v;
                    },
                    None => {
                        overflow = true;
                    },
                },
                None => {
                    overflow = true;
                    proof {
                        assert(digits_value(pre) * 10 > usize::MAX);
                    }
                },
            }
        } else {
            proof {
                assert(digits_value(pre) >= 0) by {
                    assert(all_digits(pre));
                    lemma_digits_value_grows(pre, 0);
                    assert(pre.subrange(0, 0) =~= Seq::<char>::empty());
                }
            }
        }
        i = i + 1;
    }
    proof {
        assert(s@.subrange(off, n as int) == d);
        assert(all_digits(d));
    }
    if overflow {
        None
    } else {
        Some(acc)
    }
}

/// The decimal digits of `n`, padded with leading zeros to at least four
/// characters, as `{:04}` writes them.
pub open spec fn pad4(n: nat) -> Seq<char> {
    let d = dec_digits(n);
    if d.len() >= 4 {
        d
    } else {
        Seq::new((4 - d.len()) as nat, |i: int| '0') + d
    }
}

/// `n` in decimal, zero-padded to at least four digits.
pub fn padded4(n: u64) -> (r: String)
    ensures
        r@ == pad4(n as nat),
{
    let d = decimal(n);
    let len: usize = d.as_str().unicode_len();
    let mut r = String::new();
    let mut k: usize = len;
    while k < 4
        invariant
            len == dec_digits(n as nat).len(),
            len <= k <= 4 || (len > 4 && k == len),
            r@ =~= Seq::new((k - len) as nat, |i: int| '0'),
        decreases 4 - k,
    {
        proof { reveal_strlit("0"); }
        r.append("0");
        k = k + 1;
    }
    r.append(d.as_str());
    r
}

} // verus!
