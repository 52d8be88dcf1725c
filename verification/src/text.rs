//! Small string utilities with exact specifications: equality, building
//! strings from literals, and fixed-width hexadecimal and decimal rendering.
use vstd::prelude::*;
use vstd::string::*;

verus! {

/// `true` exactly when the two strings hold the same characters.
pub fn str_eq(a: &str, b: &str) -> (r: bool)
    ensures
        r == (a@ == b@),
{
    let x: String = a.to_owned();
    let y: String = b.to_owned();
    x == y
}

/// An owned copy of `s`.
pub fn owned(s: &str) -> (r: String)
    ensures
        r@ == s@,
{
    s.to_owned()
}

/// `a` followed by `b`.
pub fn cat(a: &str, b: &str) -> (r: String)
    ensures
        r@ == a@ + b@,
{
    let mut r: String = a.to_owned();
    r.append(b);
    r
}

/// `a`, `b` and `c` one after another.
pub fn cat3(a: &str, b: &str, c: &str) -> (r: String)
    ensures
        r@ == a@ + b@ + c@,
{
    let mut r: String = a.to_owned();
    r.append(b);
    r.append(c);
    r
}

/// The characters of each string of a sequence.
pub open spec fn words(s: Seq<String>) -> Seq<Seq<char>> {
    s.map_values(|x: String| x@)
}

/// The lowercase hexadecimal digit for a value below 16.
pub open spec fn hex_char(d: nat) -> char {
    if d < 10 {
        (('0' as nat) + d) as char
    } else {
        (('a' as nat) + d - 10) as char
    }
}

/// The decimal digit for a value below 10.
pub open spec fn dec_char(d: nat) -> char {
    (('0' as nat) + d) as char
}

/// The last `width` lowercase hexadecimal digits of `n`, most significant first.
pub open spec fn hex_digits(n: nat, width: nat) -> Seq<char>
    decreases width,
{
    if width == 0 {
        Seq::empty()
    } else {
        hex_digits(n / 16, (width - 1) as nat).push(hex_char(n % 16))
    }
}

/// The decimal rendering of `n` without leading zeros ("0" for zero).
pub open spec fn dec_digits(n: nat) -> Seq<char>
    decreases n,
{
    if n < 10 {
        seq![dec_char(n)]
    } else {
        dec_digits(n / 10).push(dec_char(n % 10))
    }
}

fn digit_str(d: u8) -> (s: &'static str)
    requires
        d < 16,
    ensures
        s@ == seq![hex_char(d as nat)],
{
    match d {
        0 => { proof { reveal_strlit("0"); } "0" },
        1 => { proof { reveal_strlit("1"); } "1" },
        2 => { proof { reveal_strlit("2"); } "2" },
        3 => { proof { reveal_strlit("3"); } "3" },
        4 => { proof { reveal_strlit("4"); } "4" },
        5 => { proof { reveal_strlit("5"); } "5" },
        6 => { proof { reveal_strlit("6"); } "6" },
        7 => { proof { reveal_strlit("7"); } "7" },
        8 => { proof { reveal_strlit("8"); } "8" },
        9 => { proof { reveal_strlit("9"); } "9" },
        10 => { proof { reveal_strlit("a"); } "a" },
        11 => { proof { reveal_strlit("b"); } "b" },
        12 => { proof { reveal_strlit("c"); } "c" },
        13 => { proof { reveal_strlit("d"); } "d" },
        14 => { proof { reveal_strlit("e"); } "e" },
        _ => { proof { reveal_strlit("f"); } "f" },
    }
}

/// `n` as exactly sixteen lowercase hexadecimal digits, zero-padded.
pub fn hex16(n: u64) -> (r: String)
    ensures
        r@ == hex_digits(n as nat, 16),
{
    let mut digits: Vec<u8> = Vec::new();
    let mut m: u64 = n;
    let mut k: u64 = 0;
    while k < 16
        invariant
            k <= 16,
            digits@.len() == k,
            forall|i: int| 0 <= i < k ==> #[trigger] digits@[i] < 16,
            hex_digits(n as nat, 16) =~= hex_digits(m as nat, (16 - k) as nat) + Seq::new(
                k as nat,
                |i: int| hex_char(digits@[k - 1 - i] as nat),
            ),
        decreases 16 - k,
    {
        let d: u8 = (m % 16) as u8;
        let ghost old_digits = digits@;
        let ghost old_m = m;
        digits.push(d);
        m = m / 16;
        k = k + 1;
        proof {
            let w = (16 - k) as nat;
            assert(hex_digits(old_m as nat, w + 1) == hex_digits(m as nat, w).push(hex_char(d as nat)));
            assert(hex_digits(n as nat, 16) =~= hex_digits(m as nat, (16 - k) as nat) + Seq::new(
                k as nat,
                |i: int| hex_char(digits@[k - 1 - i] as nat),
            ));
        }
    }
    let mut r: String = String::new();
    let mut j: usize = 16;
    while j > 0
        invariant
            j <= 16,
            digits@.len() == 16,
            forall|i: int| 0 <= i < 16 ==> #[trigger] digits@[i] < 16,
            hex_digits(n as nat, 16) =~= hex_digits(m as nat, 0) + Seq::new(
                16,
                |i: int| hex_char(digits@[15 - i] as nat),
            ),
            r@ =~= Seq::new((16 - j) as nat, |i: int| hex_char(digits@[15 - i] as nat)),
        decreases j,
    {
        j = j - 1;
        let s = digit_str(digits[j]);
        r.append(s);
    }
    r
}

/// `n` in decimal, without leading zeros.
pub fn decimal(n: u64) -> (r: String)
    ensures
        r@ == dec_digits(n as nat),
    decreases n,
{
    let d: u8 = (n % 10) as u8;
    let s = digit_str(d);
    if n < 10 {
        owned(s)
    } else {
        let mut r = decimal(n / 10);
        r.append(s);
        r
    }
}

/// The text of a boolean, as `Display` writes it.
pub open spec fn bool_text(b: bool) -> Seq<char> {
    if b { "true"@ } else { "false"@ }
}

/// Writes a boolean as `true` or `false`.
pub fn bool_str(b: bool) -> (r: &'static str)
    ensures
        r@ == bool_text(b),
{
    if b { "true" } else { "false" }
}

/// What `{:?}` writes for a string: the string in double quotes with its
/// special characters escaped.
pub uninterp spec fn quoted_debug(s: Seq<char>) -> Seq<char>;

/// Writes `s` as `{:?}` does (std's `Debug` for `str`).
#[verifier::external_body]
pub fn debug_quoted(s: &str) -> (r: String)
    ensures
        r@ == quoted_debug(s@),
{
    format!("{:?}", s)
}

/// The lowercase form of a string, as `str::to_lowercase` gives it.
pub uninterp spec fn lowercase(s: Seq<char>) -> Seq<char>;

/// The lowercase form of `s` (std's `str::to_lowercase`).
#[verifier::external_body]
pub fn to_lower(s: &str) -> (r: String)
    ensures
        r@ == lowercase(s@),
{
    s.to_lowercase()
}

/// Whether `needle` occurs in `hay` at some position.
pub open spec fn has_text(hay: Seq<char>, needle: Seq<char>) -> bool {
    exists|i: int| 0 <= i <= hay.len() - needle.len() && #[trigger] hay.subrange(i, i + needle.len()) == needle
}

/// Whether `needle` occurs in `hay` (as `str::contains` with a string pattern).
pub fn contains_text(hay: &str, needle: &str) -> (r: bool)
    ensures
        r == has_text(hay@, needle@),
{
    let n: usize = hay.unicode_len();
    let m: usize = needle.unicode_len();
    if m > n {
        return false;
    }
    let mut i: usize = 0;
    while i <= n - m
        invariant
            n == hay@.len(),
            m == needle@.len(),
            m <= n,
            forall|j: int| 0 <= j < i ==> #[trigger] hay@.subrange(j, j + m) != needle@,
        decreases n - m + 1 - i,
    {
        let mut k: usize = 0;
        let mut same: bool = true;
        while k < m
            invariant
                n == hay@.len(),
                m == needle@.len(),
                i + m <= n,
                k <= m,
                same == (forall|j: int| 0 <= j < k ==> hay@[i + j] == needle@[j]),
            decreases m - k,
        {
            if hay.get_char(i + k) != needle.get_char(k) {
                same = false;
            }
            k = k + 1;
        }
        if same {
            proof {
                assert(hay@.subrange(i as int, i + m) =~= needle@);
            }
            return true;
        } else {
            proof {
                let j = choose|j: int| 0 <= j < m && hay@[i + j] != needle@[j];
                assert(hay@.subrange(i as int, i + m)[j] != needle@[j]);
            }
        }
        i = i + 1;
    }
    false
}

} // verus!
