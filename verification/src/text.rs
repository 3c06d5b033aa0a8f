//! Character and text utilities: ASCII lowercasing, string comparison,
//! decimal rendering, trimming, and the `wraps` relation that describes a
//! text embedded between decoration.

use vstd::prelude::*;
use vstd::string::StrSliceExecFns;
use vstd::string::StringExecFns;

verus! {

/// ASCII lowercasing of one character: 'A'..='Z' map to 'a'..='z',
/// every other character is unchanged.
pub open spec fn lower_char(c: char) -> char {
    if 'A' <= c && c <= 'Z' {
        (((c as u32) + 32) as u8) as char
    } else {
        c
    }
}

/// ASCII lowercasing of a whole character sequence.
pub open spec fn lower_seq(s: Seq<char>) -> Seq<char> {
    Seq::new(s.len(), |i: int| lower_char(s[i]))
}

/// Lowercasing is idempotent: a lowered character has no uppercase letter
/// left in it.
pub proof fn lemma_lower_char_idempotent(c: char)
    ensures
        lower_char(lower_char(c)) == lower_char(c),
{
}

/// Lowercasing a sequence twice is the same as lowercasing it once.
pub proof fn lemma_lower_seq_idempotent(s: Seq<char>)
    ensures
        lower_seq(lower_seq(s)) == lower_seq(s),
{
    assert(lower_seq(lower_seq(s)) =~= lower_seq(s)) by {
        assert forall|i: int| 0 <= i < s.len() implies lower_seq(lower_seq(s))[i] == lower_seq(
            s,
        )[i] by {
            lemma_lower_char_idempotent(s[i]);
        }
    }
}

/// Executable ASCII lowercasing of one character.
pub fn to_lower_char(c: char) -> (r: char)
    ensures
        r == lower_char(c),
{
    if 'A' <= c && c <= 'Z' {
        (((c as u32) + 32) as u8) as char
    } else {
        c
    }
}

/// The characters of `s`, ASCII-lowercased, as a vector.
pub fn lower_chars(s: &str) -> (r: Vec<char>)
    ensures
        r@ == lower_seq(s@),
{
    let n = s.unicode_len();
    let mut r: Vec<char> = Vec::new();
    let mut i: usize = 0;
    while i < n
        invariant
            n == s@.len(),
            i <= n,
            r@.len() == i,
            forall|j: int| 0 <= j < i ==> r@[j] == lower_char(s@[j]),
        decreases n - i,
    {
        let c = s.get_char(i);
        r.push(to_lower_char(c));
        i += 1;
    }
    proof {
        assert(r@ =~= lower_seq(s@));
    }
    r
}

/// The characters of `s`, unchanged, as a vector.
pub fn str_chars(s: &str) -> (r: Vec<char>)
    ensures
        r@ == s@,
{
    let n = s.unicode_len();
    let mut r: Vec<char> = Vec::new();
    let mut i: usize = 0;
    while i < n
        invariant
            n == s@.len(),
            i <= n,
            r@.len() == i,
            forall|j: int| 0 <= j < i ==> r@[j] == s@[j],
        decreases n - i,
    {
        r.push(s.get_char(i));
        i += 1;
    }
    proof {
        assert(r@ =~= s@);
    }
    r
}

/// Whether the characters in `v` spell exactly the string `k`.
pub fn chars_eq_str(v: &Vec<char>, k: &str) -> (r: bool)
    ensures
        r == (v@ == k@),
{
    let n = k.unicode_len();
    if v.len() != n {
        return false;
    }
    let mut i: usize = 0;
    while i < n
        invariant
            n == k@.len(),
            v@.len() == n,
            i <= n,
            forall|j: int| 0 <= j < i ==> v@[j] == k@[j],
        decreases n - i,
    {
        if v[i] != k.get_char(i) {
            return false;
        }
        i += 1;
    }
    proof {
        assert(v@ =~= k@);
    }
    true
}

/// The decimal digit character for `d` (meaningful for `d < 10`).
pub open spec fn digit_char(d: nat) -> char {
    ((d + ('0' as u32)) as u8) as char
}

/// The decimal rendering of `n`, without leading zeros (a single "0" for 0).
pub open spec fn dec_rep(n: nat) -> Seq<char>
    decreases n,
{
    if n < 10 {
        seq![digit_char(n)]
    } else {
        dec_rep(n / 10).push(digit_char(n % 10))
    }
}

/// The decimal rendering of `n`, left-padded with '0' to at least two digits.
pub open spec fn two_digits(n: nat) -> Seq<char> {
    if n < 10 {
        seq!['0'] + dec_rep(n)
    } else {
        dec_rep(n)
    }
}

/// The one-character string for the decimal digit `d`.
pub fn digit_str(d: u32) -> (r: &'static str)
    requires
        d < 10,
    ensures
        r@ == seq![digit_char(d as nat)],
{
    proof {
        reveal_strlit("0");
        reveal_strlit("1");
        reveal_strlit("2");
        reveal_strlit("3");
        reveal_strlit("4");
        reveal_strlit("5");
        reveal_strlit("6");
        reveal_strlit("7");
        reveal_strlit("8");
        reveal_strlit("9");
    }
    if d == 0 {
        "0"
    } else if d == 1 {
        "1"
    } else if d == 2 {
        "2"
    } else if d == 3 {
        "3"
    } else if d == 4 {
        "4"
    } else if d == 5 {
        "5"
    } else if d == 6 {
        "6"
    } else if d == 7 {
        "7"
    } else if d == 8 {
        "8"
    } else {
        "9"
    }
}

/// Appends the decimal rendering of `n` to `out`.
pub fn push_dec(out: &mut String, n: u32)
    ensures
        final(out)@ == old(out)@ + dec_rep(n as nat),
    decreases n,
{
    if n >= 10 {
        push_dec(out, n / 10);
    }
    out.append(digit_str(n % 10));
    proof {
        if n >= 10 {
            assert(old(out)@ + dec_rep((n / 10) as nat) + seq![digit_char((n % 10) as nat)]
                =~= old(out)@ + dec_rep(n as nat));
        } else {
            assert(old(out)@ + seq![digit_char(n as nat)] =~= old(out)@ + dec_rep(n as nat));
        }
    }
}

/// The decimal rendering of `n` as a string.
pub fn dec_string(n: u32) -> (r: String)
    ensures
        r@ == dec_rep(n as nat),
{
    let mut s = String::new();
    push_dec(&mut s, n);
    proof {
        assert(Seq::<char>::empty() + dec_rep(n as nat) =~= dec_rep(n as nat));
    }
    s
}

/// The decimal rendering of `n`, padded to at least two digits.
pub fn two_digit_string(n: u32) -> (r: String)
    ensures
        r@ == two_digits(n as nat),
{
    let mut s = String::new();
    if n < 10 {
        s.append("0");
        proof {
            reveal_strlit("0");
            assert("0"@ =~= seq!['0']);
        }
    }
    push_dec(&mut s, n);
    proof {
        if n < 10 {
            assert(Seq::<char>::empty() + "0"@ + dec_rep(n as nat) =~= two_digits(n as nat));
        } else {
            assert(Seq::<char>::empty() + dec_rep(n as nat) =~= two_digits(n as nat));
        }
    }
    s
}

/// `out` is `inner` with some decoration before and after it.
pub open spec fn wraps(out: Seq<char>, inner: Seq<char>) -> bool {
    exists|pre: Seq<char>, post: Seq<char>| out == pre + inner + post
}

/// A text wraps itself, with empty decoration on both sides.
pub proof fn lemma_wraps_self(s: Seq<char>)
    ensures
        wraps(s, s),
{
    let pre = Seq::<char>::empty();
    let post = Seq::<char>::empty();
    assert(s =~= pre + s + post);
    assert(s == pre + s + post);
}

/// The sequence holds no ANSI escape character.
pub open spec fn esc_free(s: Seq<char>) -> bool {
    forall|i: int| 0 <= i < s.len() ==> s[i] != '\u{1b}'
}

/// Whether `s` holds no ANSI escape character.
pub fn is_esc_free(s: &str) -> (r: bool)
    ensures
        r == esc_free(s@),
{
    let n = s.unicode_len();
    let mut i: usize = 0;
    while i < n
        invariant
            n == s@.len(),
            i <= n,
            forall|j: int| 0 <= j < i ==> s@[j] != '\u{1b}',
        decreases n - i,
    {
        if s.get_char(i) == '\u{1b}' {
            return false;
        }
        i += 1;
    }
    true
}

/// ASCII whitespace, as it appears at the ends of a line read from a terminal.
pub open spec fn is_ascii_space(c: char) -> bool {
    c == ' ' || c == '\t' || c == '\n' || c == '\r'
}

/// `s` with leading ASCII whitespace removed.
pub open spec fn trim_front(s: Seq<char>) -> Seq<char>
    decreases s.len(),
{
    if s.len() > 0 && is_ascii_space(s[0]) {
        trim_front(s.drop_first())
    } else {
        s
    }
}

/// `s` with trailing ASCII whitespace removed.
pub open spec fn trim_back(s: Seq<char>) -> Seq<char>
    decreases s.len(),
{
    if s.len() > 0 && is_ascii_space(s.last()) {
        trim_back(s.drop_last())
    } else {
        s
    }
}

/// `s` with ASCII whitespace removed from both ends.
pub open spec fn trim_seq(s: Seq<char>) -> Seq<char> {
    trim_back(trim_front(s))
}

/// When the first `i` characters are whitespace, trimming the front of `s`
/// is trimming the front of what follows them.
proof fn lemma_trim_front_skip(s: Seq<char>, i: int)
    requires
        0 <= i <= s.len(),
        forall|j: int| 0 <= j < i ==> is_ascii_space(s[j]),
    ensures
        trim_front(s) == trim_front(s.skip(i)),
    decreases i,
{
    if i > 0 {
        assert(s.drop_first() =~= s.skip(1));
        lemma_trim_front_skip(s.skip(1), i - 1);
        assert(s.skip(1).skip(i - 1) =~= s.skip(i));
    } else {
        assert(s.skip(0) =~= s);
    }
}

/// A sequence with no leading whitespace is already front-trimmed.
proof fn lemma_trim_front_done(s: Seq<char>)
    requires
        s.len() == 0 || !is_ascii_space(s[0]),
    ensures
        trim_front(s) == s,
{
}

/// When the characters from `i` on are whitespace, trimming the back of `s`
/// is trimming the back of what precedes them.
proof fn lemma_trim_back_take(s: Seq<char>, i: int)
    requires
        0 <= i <= s.len(),
        forall|j: int| i <= j < s.len() ==> is_ascii_space(s[j]),
    ensures
        trim_back(s) == trim_back(s.take(i)),
    decreases s.len() - i,
{
    if i < s.len() {
        assert(s.drop_last() =~= s.take(s.len() - 1));
        lemma_trim_back_take(s.take(s.len() - 1), i);
        assert(s.take(s.len() - 1).take(i) =~= s.take(i));
    } else {
        assert(s.take(s.len() as int) =~= s);
    }
}

/// A sequence with no trailing whitespace is already back-trimmed.
proof fn lemma_trim_back_done(s: Seq<char>)
    requires
        s.len() == 0 || !is_ascii_space(s.last()),
    ensures
        trim_back(s) == s,
{
}

/// The characters of `line` with ASCII whitespace removed from both ends.
pub fn trimmed_chars(line: &str) -> (r: Vec<char>)
    ensures
        r@ == trim_seq(line@),
{
    let v = str_chars(line);
    let n = v.len();
    let mut a: usize = 0;
    while a < n && is_space_char(v[a])
        invariant
            n == v@.len(),
            a <= n,
            forall|j: int| 0 <= j < a ==> is_ascii_space(v@[j]),
        decreases n - a,
    {
        a += 1;
    }
    let mut b: usize = n;
    while b > a && is_space_char(v[b - 1])
        invariant
            n == v@.len(),
            a <= b <= n,
            forall|j: int| b <= j < n ==> is_ascii_space(v@[j]),
        decreases b,
    {
        b -= 1;
    }
    let mut r: Vec<char> = Vec::new();
    let mut i: usize = a;
    while i < b
        invariant
            n == v@.len(),
            a <= b <= n,
            a <= i <= b,
            r@.len() == i - a,
            forall|j: int| 0 <= j < i - a ==> r@[j] == v@[a + j],
        decreases b - i,
    {
        r.push(v[i]);
        i += 1;
    }
    proof {
        lemma_trim_front_skip(v@, a as int);
        let f = v@.skip(a as int);
        if a < n && !is_ascii_space(v@[a as int]) {
            lemma_trim_front_done(f);
            assert(trim_front(v@) == f);
        } else {
            assert(a == b);
            assert(f.len() == 0 || !is_ascii_space(f[0]));
            lemma_trim_front_done(f);
        }
        lemma_trim_back_take(f, b - a);
        lemma_trim_back_done(f.take(b - a));
        assert(trim_seq(line@) == f.take(b - a));
        assert(r@ =~= f.take(b - a));
    }
    r
}

/// An ASCII decimal digit.
pub open spec fn is_digit(c: char) -> bool {
    '0' <= c && c <= '9'
}

/// The value of an ASCII digit character (meaningful only for digits).
pub open spec fn digit_val(c: char) -> nat {
    if is_digit(c) {
        (c as u32 - '0' as u32) as nat
    } else {
        0
    }
}

/// The value of a sequence of ASCII digits, most significant first.
pub open spec fn digits_val(s: Seq<char>) -> nat
    decreases s.len(),
{
    if s.len() == 0 {
        0
    } else {
        digits_val(s.drop_last()) * 10 + digit_val(s.last())
    }
}

/// The digits of a numeral: everything after one optional leading '+'.
pub open spec fn numeral_digits(s: Seq<char>) -> Seq<char> {
    if s.len() > 0 && s[0] == '+' {
        s.subrange(1, s.len() as int)
    } else {
        s
    }
}

/// A numeral as `str::parse::<usize>` accepts it, value aside: an optional
/// leading '+' followed by at least one ASCII digit.
pub open spec fn is_numeral(s: Seq<char>) -> bool {
    let d = numeral_digits(s);
    d.len() > 0 && (forall|i: int| 0 <= i < d.len() ==> is_digit(d[i]))
}

/// What `str::parse::<usize>` returns on `s`: the numeral's value when `s`
/// is a numeral whose value fits in usize, nothing otherwise.
pub open spec fn spec_parse_usize(s: Seq<char>) -> Option<usize> {
    if is_numeral(s) && digits_val(numeral_digits(s)) <= usize::MAX {
        Some(digits_val(numeral_digits(s)) as usize)
    } else {
        None
    }
}

/// The value of a digit prefix never exceeds the value of the whole.
proof fn lemma_digits_val_prefix_le(s: Seq<char>, i: int)
    requires
        0 <= i <= s.len(),
    ensures
        digits_val(s.subrange(0, i)) <= digits_val(s),
    decreases s.len() - i,
{
    if i < s.len() {
        lemma_digits_val_prefix_le(s, i + 1);
        let p1 = s.subrange(0, i + 1);
        assert(p1.drop_last() =~= s.subrange(0, i));
        assert(digits_val(s.subrange(0, i)) <= digits_val(p1));
    } else {
        assert(s.subrange(0, i) =~= s);
    }
}

/// Parses the characters of a trimmed line as `str::parse::<usize>` would.
pub fn parse_usize_chars(t: &Vec<char>) -> (r: Option<usize>)
    ensures
        r == spec_parse_usize(t@),
{
    let n = t.len();
    let start: usize = if n > 0 && t[0] == '+' {
        1
    } else {
        0
    };
    proof {
        if start == 1 {
            assert(numeral_digits(t@) =~= t@.subrange(1, n as int));
        } else {
            assert(numeral_digits(t@) =~= t@);
        }
    }
    let ghost d = numeral_digits(t@);
    if start == n {
        proof {
            assert(d.len() == 0);
            assert(!is_numeral(t@));
        }
        return None;
    }
    proof {
        assert(d =~= t@.subrange(start as int, n as int));
    }
    let mut acc: usize = 0;
    let mut i: usize = start;
    while i < n
        invariant
            n == t@.len(),
            start <= i <= n,
            start < n,
            start == 0 || (start == 1 && t@[0] == '+'),
            d == numeral_digits(t@),
            d == t@.subrange(start as int, n as int),
            forall|j: int| start <= j < i ==> is_digit(t@[j]),
            acc == digits_val(d.subrange(0, i - start)),
        decreases n - i,
    {
        let c = t[i];
        if !(c >= '0' && c <= '9') {
            proof {
                assert(d[i - start] == t@[i as int]);
                assert(!is_digit(d[i - start]));
                assert(!is_numeral(t@));
            }
            return None;
        }
        let dv: usize = ((c as u32) - ('0' as u32)) as usize;
        let acc10 = match acc.checked_mul(10) {
            Some(x) => x,
            None => {
                proof {
                    assert(d.subrange(0, i - start + 1).drop_last() =~= d.subrange(
                        0,
                        i - start,
                    ));
                    assert(digits_val(d.subrange(0, i - start + 1)) > usize::MAX);
                    lemma_digits_val_prefix_le(d, i - start + 1);
                }
                return None;
            },
        };
        let next = match acc10.checked_add(dv) {
            Some(x) => x,
            None => {
                proof {
                    assert(d.subrange(0, i - start + 1).drop_last() =~= d.subrange(
                        0,
                        i - start,
                    ));
                    assert(digits_val(d.subrange(0, i - start + 1)) > usize::MAX);
                    lemma_digits_val_prefix_le(d, i - start + 1);
                }
                return None;
            },
        };
        proof {
            assert(d.subrange(0, i - start + 1).drop_last() =~= d.subrange(0, i - start));
        }
        acc = next;
        i += 1;
    }
    proof {
        assert(d.subrange(0, n - start) =~= d);
    }
    Some(acc)
}

/// Executable test for ASCII whitespace.
pub fn is_space_char(c: char) -> (r: bool)
    ensures
        r == is_ascii_space(c),
{
    c == ' ' || c == '\t' || c == '\n' || c == '\r'
}

} // verus!
