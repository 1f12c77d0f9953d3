use vstd::prelude::*;

verus! {

/// Compare two string slices by their character sequences.
pub fn str_eq(a: &str, b: &str) -> (r: bool)
    ensures
        r == (a@ == b@),
{
    let sa = String::from_str(a);
    let sb = String::from_str(b);
    sa == sb
}

/// Relies on String::push, which appends the given character to the end
/// of the string.
#[verifier::external_body]
pub fn push_char(s: &mut String, c: char)
    ensures
        final(s)@ == old(s)@.push(c),
{
    s.push(c);
}

/// True for the ASCII whitespace characters this library trims.
pub open spec fn is_space(c: char) -> bool {
    c == ' ' || c == '\t' || c == '\n' || c == '\r'
}

/// True when `c` is an ASCII digit.
pub open spec fn is_digit(c: char) -> bool {
    '0' <= c && c <= '9'
}

/// True when every character of `s` is an ASCII digit.
pub open spec fn all_digits(s: Seq<char>) -> bool {
    forall|i: int| 0 <= i < s.len() ==> is_digit(#[trigger] s[i])
}

/// The numeric value of an ASCII digit character.
pub open spec fn digit_val(c: char) -> int {
    c as int - '0' as int
}

/// The number denoted by a sequence of ASCII digit characters.
pub open spec fn digits_value(s: Seq<char>) -> int
    decreases s.len(),
{
    if s.len() == 0 {
        0
    } else {
        digits_value(s.drop_last()) * 10 + digit_val(s.last())
    }
}

/// An upper-case ASCII letter mapped to lower case; all else unchanged.
pub open spec fn lower_char(c: char) -> char {
    if 'A' <= c && c <= 'Z' {
        (((c as u32) + 32) as u32) as char
    } else {
        c
    }
}

/// Character-wise ASCII lower-casing.
pub open spec fn lower_seq(s: Seq<char>) -> Seq<char> {
    s.map_values(|c: char| lower_char(c))
}

/// Lower-case one character (ASCII range only).
pub fn lower_char_exec(c: char) -> (r: char)
    ensures
        r == lower_char(c),
{
    if 'A' <= c && c <= 'Z' {
        ((c as u8) + 32) as char
    } else {
        c
    }
}

/// ASCII lower-casing of a whole string.
#[verifier::loop_isolation(false)]
pub fn to_ascii_lower(s: &str) -> (r: String)
    ensures
        r@ == lower_seq(s@),
{
    let n = s.unicode_len();
    let mut out = String::new();
    let mut i: usize = 0;
    while i < n
        invariant
            n == s@.len(),
            i <= n,
            out@ == lower_seq(s@.subrange(0, i as int)),
        decreases n - i,
    {
        let c = s.get_char(i);
        push_char(&mut out, lower_char_exec(c));
        proof {
            assert(s@.subrange(0, i + 1).drop_last() =~= s@.subrange(0, i as int));
            assert(lower_seq(s@.subrange(0, i + 1)) =~= lower_seq(s@.subrange(0, i as int)).push(
                lower_char(s@[i as int]),
            ));
        }
        i += 1;
    }
    proof {
        assert(s@.subrange(0, n as int) =~= s@);
    }
    out
}

/// Index of the first character that is not ASCII whitespace.
pub open spec fn trim_start_idx(s: Seq<char>, from: int) -> int
    decreases s.len() - from,
{
    if from < 0 || from >= s.len() {
        s.len() as int
    } else if is_space(s[from]) {
        trim_start_idx(s, from + 1)
    } else {
        from
    }
}

/// One past the index of the last character that is not ASCII whitespace.
pub open spec fn trim_end_idx(s: Seq<char>, to: int) -> int
    decreases to,
{
    if to <= 0 || to > s.len() {
        0
    } else if is_space(s[to - 1]) {
        trim_end_idx(s, to - 1)
    } else {
        to
    }
}

/// What remains of `s` after ASCII whitespace is removed from both ends.
pub open spec fn trimmed(s: Seq<char>) -> Seq<char> {
    let a = trim_start_idx(s, 0);
    let b = trim_end_idx(s, s.len() as int);
    if a <= b {
        s.subrange(a, b)
    } else {
        Seq::empty()
    }
}

proof fn lemma_trim_start_idx_bounds(s: Seq<char>, from: int)
    requires
        0 <= from <= s.len(),
    ensures
        from <= trim_start_idx(s, from) <= s.len(),
        forall|j: int| from <= j < trim_start_idx(s, from) ==> is_space(#[trigger] s[j]),
        trim_start_idx(s, from) < s.len() ==> !is_space(s[trim_start_idx(s, from)]),
    decreases s.len() - from,
{
    if from < s.len() && is_space(s[from]) {
        lemma_trim_start_idx_bounds(s, from + 1);
    }
}

proof fn lemma_trim_end_idx_bounds(s: Seq<char>, to: int)
    requires
        0 <= to <= s.len(),
    ensures
        0 <= trim_end_idx(s, to) <= to,
        forall|j: int| trim_end_idx(s, to) <= j < to ==> is_space(#[trigger] s[j]),
        trim_end_idx(s, to) > 0 ==> !is_space(s[trim_end_idx(s, to) - 1]),
    decreases to,
{
    if to > 0 && is_space(s[to - 1]) {
        lemma_trim_end_idx_bounds(s, to - 1);
    }
}

/// Remove ASCII whitespace from both ends of `s`.
#[verifier::loop_isolation(false)]
pub fn trim_ascii(s: &str) -> (r: String)
    ensures
        r@ == trimmed(s@),
{
    let n = s.unicode_len();
    let mut a: usize = 0;
    while a < n && is_space_exec(s.get_char(a))
        invariant
            n == s@.len(),
            a <= n,
            forall|j: int| 0 <= j < a ==> is_space(#[trigger] s@[j]),
        decreases n - a,
    {
        a += 1;
    }
    let mut b: usize = n;
    while b > a && is_space_exec(s.get_char(b - 1))
        invariant
            a <= b <= n,
            forall|j: int| b <= j < n ==> is_space(#[trigger] s@[j]),
        decreases b,
    {
        b -= 1;
    }
    proof {
        lemma_trim_start_idx_fixed(s@, 0, a as int);
        if a == b {
            lemma_trim_end_le(s@, s@.len() as int, a as int);
        } else {
            lemma_trim_end_idx_fixed(s@, s@.len() as int, b as int);
        }
    }
    let sub = s.substring_char(a, b);
    let r = String::from_str(sub);
    proof {
        assert(r@ =~= trimmed(s@));
    }
    r
}

fn is_space_exec(c: char) -> (r: bool)
    ensures
        r == is_space(c),
{
    c == ' ' || c == '\t' || c == '\n' || c == '\r'
}

proof fn lemma_trim_start_idx_fixed(s: Seq<char>, from: int, a: int)
    requires
        0 <= from <= a <= s.len(),
        forall|j: int| from <= j < a ==> is_space(#[trigger] s[j]),
        a < s.len() ==> !is_space(s[a]),
    ensures
        trim_start_idx(s, from) == if a < s.len() { a } else { s.len() as int },
    decreases a - from,
{
    if from < a {
        lemma_trim_start_idx_fixed(s, from + 1, a);
    }
}

proof fn lemma_trim_end_idx_fixed(s: Seq<char>, to: int, b: int)
    requires
        0 < b <= to <= s.len(),
        forall|j: int| b <= j < to ==> is_space(#[trigger] s[j]),
        !is_space(s[b - 1]),
    ensures
        trim_end_idx(s, to) == b,
    decreases to - b,
{
    if b < to {
        lemma_trim_end_idx_fixed(s, to - 1, b);
    }
}

proof fn lemma_trim_end_le(s: Seq<char>, to: int, a: int)
    requires
        0 <= a <= to <= s.len(),
        forall|j: int| a <= j < to ==> is_space(#[trigger] s[j]),
    ensures
        trim_end_idx(s, to) <= a,
    decreases to - a,
{
    if a < to {
        assert(is_space(s[to - 1]));
        lemma_trim_end_le(s, to - 1, a);
    } else {
        lemma_trim_end_idx_bounds(s, to);
    }
}

/// The character for a decimal digit value.
pub open spec fn digit_char(d: int) -> char {
    ((('0' as u32) + d) as u32) as char
}

/// The decimal text of a natural number.
pub open spec fn dec_str(n: int) -> Seq<char>
    decreases n,
{
    if n < 10 {
        seq![digit_char(if n >= 0 { n } else { 0 })]
    } else {
        dec_str(n / 10).push(digit_char(n % 10))
    }
}

fn digit_char_exec(d: u64) -> (r: char)
    requires
        d < 10,
    ensures
        r == digit_char(d as int),
{
    (('0' as u8) + (d as u8)) as char
}

/// Render a number as decimal text.
#[verifier::loop_isolation(false)]
pub fn u64_to_string(n: u64) -> (r: String)
    ensures
        r@ == dec_str(n as int),
{
    let mut rev: Vec<char> = Vec::new();
    let mut m = n;
    loop
        invariant
            dec_str(n as int) =~= dec_str(m as int) + rev@.reverse(),
        decreases m,
    {
        let ghost old_rev = rev@;
        let ghost old_m = m as int;
        if m < 10 {
            rev.push(digit_char_exec(m));
            proof {
                assert(dec_str(old_m) =~= seq![digit_char(old_m)]);
                assert(rev@.reverse() =~= seq![digit_char(old_m)] + old_rev.reverse());
            }
            break;
        }
        rev.push(digit_char_exec(m % 10));
        m = m / 10;
        proof {
            assert(dec_str(old_m) =~= dec_str(old_m / 10).push(digit_char(old_m % 10)));
            assert(rev@.reverse() =~= seq![digit_char(old_m % 10)] + old_rev.reverse());
            assert(dec_str(old_m / 10) + rev@.reverse() =~= dec_str(old_m) + old_rev.reverse());
        }
    }
    let mut out = String::new();
    let mut i: usize = rev.len();
    while i > 0
        invariant
            i <= rev.len(),
            out@ =~= rev@.subrange(i as int, rev@.len() as int).reverse(),
        decreases i,
    {
        i -= 1;
        push_char(&mut out, rev[i]);
        proof {
            assert(rev@.subrange(i as int, rev@.len() as int).reverse() =~= rev@.subrange(
                i + 1,
                rev@.len() as int,
            ).reverse().push(rev@[i as int]));
        }
    }
    proof {
        assert(rev@.subrange(0, rev@.len() as int) =~= rev@);
    }
    out
}

/// A run of digits denotes a number that is never negative.
pub proof fn lemma_digits_value_nonneg(s: Seq<char>)
    requires
        all_digits(s),
    ensures
        digits_value(s) >= 0,
    decreases s.len(),
{
    if s.len() > 0 {
        let pre = s.drop_last();
        assert(all_digits(pre)) by {
            assert(forall|j: int| 0 <= j < pre.len() ==> #[trigger] pre[j] == s[j]);
        }
        lemma_digits_value_nonneg(pre);
        assert(digits_value(pre) * 10 >= 0) by (nonlinear_arith)
            requires
                digits_value(pre) >= 0,
        ;
    }
}

/// The texts of a vector of strings.
pub open spec fn views_of(v: Seq<String>) -> Seq<Seq<char>> {
    v.map_values(|s: String| s@)
}

/// Appending a string appends its text.
pub proof fn lemma_views_of_push(s: Seq<String>, x: String)
    ensures
        views_of(s.push(x)) == views_of(s).push(x@),
{
    assert(views_of(s.push(x)) =~= views_of(s).push(x@));
}

/// The text of an optional string.
pub open spec fn opt_view(o: Option<String>) -> Option<Seq<char>> {
    match o {
        None => None,
        Some(s) => Some(s@),
    }
}

} // verus!
