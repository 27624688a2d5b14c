//! Small operations on text that the naming rules are built from.

use vstd::prelude::*;
use vstd::string::*;

verus! {

/// `String::push` appends one character.
pub assume_specification[ String::push ](s: &mut String, c: char)
    ensures
        final(s)@ == old(s)@.push(c),
;

/// Whether `c` has the Unicode property White_Space.
pub open spec fn is_white_space(c: char) -> bool {
    let n = c as u32;
    ||| 0x09 <= n <= 0x0D
    ||| n == 0x20
    ||| n == 0x85
    ||| n == 0xA0
    ||| n == 0x1680
    ||| 0x2000 <= n <= 0x200A
    ||| n == 0x2028
    ||| n == 0x2029
    ||| n == 0x202F
    ||| n == 0x205F
    ||| n == 0x3000
}

/// `s` without the white space it begins with.
pub open spec fn trimmed_start(s: Seq<char>) -> Seq<char>
    decreases s.len(),
{
    if s.len() > 0 && is_white_space(s[0]) {
        trimmed_start(s.drop_first())
    } else {
        s
    }
}

/// `s` without the white space it ends with.
pub open spec fn trimmed_end(s: Seq<char>) -> Seq<char>
    decreases s.len(),
{
    if s.len() > 0 && is_white_space(s.last()) {
        trimmed_end(s.drop_last())
    } else {
        s
    }
}

/// `s` without the white space at either end.
pub open spec fn trimmed(s: Seq<char>) -> Seq<char> {
    trimmed_end(trimmed_start(s))
}

/// Whether `c` is white space.
fn is_space(c: char) -> (b: bool)
    ensures
        b == is_white_space(c),
{
    let n = c as u32;
    (0x09 <= n && n <= 0x0D) || n == 0x20 || n == 0x85 || n == 0xA0 || n == 0x1680 || (0x2000 <= n
        && n <= 0x200A) || n == 0x2028 || n == 0x2029 || n == 0x202F || n == 0x205F || n
        == 0x3000
}

/// The characters of a text.
pub fn chars_of(s: &str) -> (chars: Vec<char>)
    ensures
        chars@ == s@,
{
    let mut chars: Vec<char> = Vec::new();
    for c in it: s.chars()
        invariant
            it.seq() == s@,
            chars@ == s@.subrange(0, it.index() as int),
    {
        chars.push(c);
        assert(chars@ =~= s@.subrange(0, it.index() + 1));
    }
    assert(s@.subrange(0, s@.len() as int) =~= s@);
    chars
}

/// The text made of the characters from `from` up to `to`.
pub fn string_of(chars: &Vec<char>, from: usize, to: usize) -> (text: String)
    requires
        from <= to <= chars@.len(),
    ensures
        text@ == chars@.subrange(from as int, to as int),
{
    let mut text = String::new();
    let mut i: usize = from;
    while i < to
        invariant
            from <= i <= to <= chars@.len(),
            text@ == chars@.subrange(from as int, i as int),
        decreases to - i,
    {
        text.push(chars[i]);
        i = i + 1;
        assert(text@ =~= chars@.subrange(from as int, i as int));
    }
    text
}

/// A text that begins with `k` characters of white space and goes on with
/// another character, or ends there, is without them once it is trimmed at
/// its start.
proof fn lemma_trimmed_start(s: Seq<char>, k: int)
    requires
        0 <= k <= s.len(),
        forall|j: int| 0 <= j < k ==> is_white_space(s[j]),
        k < s.len() ==> !is_white_space(s[k]),
    ensures
        trimmed_start(s) == s.subrange(k, s.len() as int),
    decreases k,
{
    if k == 0 {
        assert(s.subrange(0, s.len() as int) =~= s);
    } else {
        let rest = s.drop_first();
        assert forall|j: int| 0 <= j < k - 1 implies is_white_space(rest[j]) by {
            assert(rest[j] == s[j + 1]);
        }
        lemma_trimmed_start(rest, k - 1);
        assert(rest.subrange(k - 1, rest.len() as int) =~= s.subrange(k, s.len() as int));
    }
}

/// A text that ends with white space from `m` on, and has another character
/// before that or none, is without it once it is trimmed at its end.
proof fn lemma_trimmed_end(s: Seq<char>, m: int)
    requires
        0 <= m <= s.len(),
        forall|j: int| m <= j < s.len() ==> is_white_space(s[j]),
        0 < m ==> !is_white_space(s[m - 1]),
    ensures
        trimmed_end(s) == s.subrange(0, m),
    decreases s.len() - m,
{
    if m == s.len() {
        assert(s.subrange(0, m) =~= s);
    } else {
        let rest = s.drop_last();
        lemma_trimmed_end(rest, m);
        assert(rest.subrange(0, m) =~= s.subrange(0, m));
    }
}

/// The text without the white space at either end.
pub fn trim(s: &str) -> (r: String)
    ensures
        r@ == trimmed(s@),
{
    let chars = chars_of(s);
    let len = chars.len();
    let mut start: usize = 0;
    while start < len && is_space(chars[start])
        invariant
            len == chars@.len(),
            start <= len,
            forall|j: int| 0 <= j < start ==> is_white_space(chars@[j]),
        decreases len - start,
    {
        start = start + 1;
    }
    let mut end: usize = len;
    while end > start && is_space(chars[end - 1])
        invariant
            len == chars@.len(),
            start <= end <= len,
            forall|j: int| end <= j < len ==> is_white_space(chars@[j]),
        decreases end,
    {
        end = end - 1;
    }
    proof {
        lemma_trimmed_start(chars@, start as int);
        let tail = chars@.subrange(start as int, len as int);
        assert forall|j: int| end - start <= j < tail.len() implies is_white_space(tail[j]) by {
            assert(tail[j] == chars@[j + start]);
        }
        if end > start {
            assert(tail[end - start - 1] == chars@[end - 1]);
        }
        lemma_trimmed_end(tail, end - start);
        assert(tail.subrange(0, end - start) =~= chars@.subrange(start as int, end as int));
    }
    string_of(&chars, start, end)
}

/// Whether `pattern` occurs in `s` at `at`.
pub open spec fn occurs_at(s: Seq<char>, pattern: Seq<char>, at: int) -> bool {
    0 <= at && at + pattern.len() <= s.len() && s.subrange(at, at + pattern.len()) == pattern
}

/// Whether `pattern` occurs in `s`.
pub open spec fn occurs_in(s: Seq<char>, pattern: Seq<char>) -> bool {
    exists|at: int| occurs_at(s, pattern, at)
}

/// `s` with every occurrence of `pattern` replaced by `with`. Occurrences are
/// taken from the left, and one that overlaps an earlier one does not count.
/// The pattern is not empty.
pub open spec fn replaced(s: Seq<char>, pattern: Seq<char>, with: Seq<char>) -> Seq<char>
    recommends
        pattern.len() > 0,
    decreases s.len(),
{
    if pattern.len() == 0 || s.len() < pattern.len() {
        s
    } else if occurs_at(s, pattern, 0) {
        with + replaced(s.skip(pattern.len() as int), pattern, with)
    } else {
        seq![s[0]] + replaced(s.drop_first(), pattern, with)
    }
}

/// Whether the pattern stands in the text at `at`.
fn matches_at(chars: &Vec<char>, pattern: &Vec<char>, at: usize) -> (same: bool)
    requires
        at + pattern@.len() <= chars@.len(),
    ensures
        same == occurs_at(chars@, pattern@, at as int),
{
    let len = chars.len();
    let mut k: usize = 0;
    while k < pattern.len()
        invariant
            len == chars@.len(),
            at + pattern@.len() <= chars@.len(),
            k <= pattern@.len(),
            forall|j: int| 0 <= j < k ==> chars@[at + j] == pattern@[j],
        decreases pattern@.len() - k,
    {
        if chars[at + k] != pattern[k] {
            assert(chars@.subrange(at as int, at + pattern@.len())[k as int] == chars@[at + k]);
            return false;
        }
        k = k + 1;
    }
    assert(chars@.subrange(at as int, at + pattern@.len()) =~= pattern@);
    true
}

/// The text with every occurrence of the pattern replaced, occurrences taken
/// from the left and without overlap.
pub fn replace(s: &str, pattern: &str, with: &str) -> (r: String)
    requires
        pattern@.len() > 0,
    ensures
        r@ == replaced(s@, pattern@, with@),
{
    let chars = chars_of(s);
    let wanted = chars_of(pattern);
    let len = chars.len();
    let width = wanted.len();
    let mut out = String::new();
    let mut i: usize = 0;
    assert(chars@.subrange(0, len as int) =~= chars@);
    while i < len
        invariant
            len == chars@.len(),
            width == wanted@.len(),
            width > 0,
            chars@ == s@,
            wanted@ == pattern@,
            i <= len,
            out@ + replaced(chars@.subrange(i as int, len as int), wanted@, with@) == replaced(
                chars@,
                wanted@,
                with@,
            ),
        decreases len - i,
    {
        let ghost rest = chars@.subrange(i as int, len as int);
        let ghost done = out@;
        if len - i >= width && matches_at(&chars, &wanted, i) {
            out.append(with);
            proof {
                assert(rest.subrange(0, width as int) =~= chars@.subrange(i as int, i + width));
                assert(occurs_at(rest, wanted@, 0));
                assert(rest.skip(width as int) =~= chars@.subrange(i + width, len as int));
                assert(out@ + replaced(chars@.subrange(i + width, len as int), wanted@, with@)
                    =~= done + replaced(rest, wanted@, with@));
            }
            i = i + width;
        } else {
            out.push(chars[i]);
            proof {
                let next = chars@.subrange(i + 1, len as int);
                assert(rest.drop_first() =~= next);
                assert(rest[0] == chars@[i as int]);
                if len - i >= width {
                    assert(rest.subrange(0, width as int) =~= chars@.subrange(
                        i as int,
                        i + width,
                    ));
                    assert(!occurs_at(rest, wanted@, 0));
                } else {
                    assert(replaced(rest, wanted@, with@) == rest);
                    assert(replaced(next, wanted@, with@) == next);
                    assert(rest =~= seq![rest[0]] + next);
                }
                assert(out@ + replaced(next, wanted@, with@) =~= done + replaced(
                    rest,
                    wanted@,
                    with@,
                ));
            }
            i = i + 1;
        }
    }
    proof {
        assert(chars@.subrange(len as int, len as int) =~= Seq::<char>::empty());
        assert(out@ + Seq::<char>::empty() =~= out@);
    }
    out
}

/// Whether the pattern occurs in the text.
pub fn contains(s: &str, pattern: &str) -> (found: bool)
    ensures
        found == occurs_in(s@, pattern@),
{
    let chars = chars_of(s);
    let wanted = chars_of(pattern);
    let len = chars.len();
    let width = wanted.len();
    if width == 0 {
        assert(chars@.subrange(0, 0) =~= wanted@);
        assert(occurs_at(chars@, wanted@, 0));
        return true;
    }
    let mut i: usize = 0;
    while i < len && len - i >= width
        invariant
            len == chars@.len(),
            width == wanted@.len(),
            chars@ == s@,
            wanted@ == pattern@,
            i <= len,
            forall|at: int| 0 <= at < i ==> !occurs_at(chars@, wanted@, at),
        decreases len - i,
    {
        if matches_at(&chars, &wanted, i) {
            return true;
        }
        i = i + 1;
    }
    false
}

/// The character of a decimal digit.
pub open spec fn digit_char(d: int) -> char {
    if d == 0 {
        '0'
    } else if d == 1 {
        '1'
    } else if d == 2 {
        '2'
    } else if d == 3 {
        '3'
    } else if d == 4 {
        '4'
    } else if d == 5 {
        '5'
    } else if d == 6 {
        '6'
    } else if d == 7 {
        '7'
    } else if d == 8 {
        '8'
    } else {
        '9'
    }
}

/// The decimal digits of `n`, most significant first, without leading zeros.
pub open spec fn decimal(n: nat) -> Seq<char>
    decreases n,
{
    if n < 10 {
        seq![digit_char(n as int)]
    } else {
        decimal(n / 10).push(digit_char((n % 10) as int))
    }
}

/// `count` zeros.
pub open spec fn zeros(count: int) -> Seq<char> {
    Seq::new(if count > 0 { count as nat } else { 0 }, |i: int| '0')
}

/// `n` in decimal, filled with zeros to `width` characters, the sign of a
/// negative number counted and put first: what `{:0width}` prints.
pub open spec fn zero_padded(n: int, width: int) -> Seq<char> {
    if n < 0 {
        let digits = decimal((-n) as nat);
        seq!['-'] + zeros(width - 1 - digits.len()) + digits
    } else {
        let digits = decimal(n as nat);
        zeros(width - digits.len()) + digits
    }
}

/// What a decimal digit's character stands for; zero for any other character.
pub open spec fn digit_value(c: char) -> nat {
    if c == '1' {
        1
    } else if c == '2' {
        2
    } else if c == '3' {
        3
    } else if c == '4' {
        4
    } else if c == '5' {
        5
    } else if c == '6' {
        6
    } else if c == '7' {
        7
    } else if c == '8' {
        8
    } else if c == '9' {
        9
    } else {
        0
    }
}

/// The number that a run of decimal digits stands for.
pub open spec fn decimal_value(s: Seq<char>) -> nat
    decreases s.len(),
{
    if s.len() == 0 {
        0
    } else {
        10 * decimal_value(s.drop_last()) + digit_value(s.last())
    }
}

/// Zeros stand for zero.
proof fn lemma_zeros_value(count: int)
    ensures
        decimal_value(zeros(count)) == 0,
    decreases count,
{
    if count > 0 {
        lemma_zeros_value(count - 1);
        assert(zeros(count).drop_last() =~= zeros(count - 1));
    }
}

/// Reading the digits of `n` behind any number of zeros gives `n` back.
pub proof fn lemma_decimal_value(count: int, n: nat)
    ensures
        decimal_value(zeros(count) + decimal(n)) == n,
    decreases n,
{
    let d = digit_char((n % 10) as int);
    if n < 10 {
        lemma_zeros_value(count);
        assert((zeros(count) + decimal(n)).drop_last() =~= zeros(count));
    } else {
        lemma_decimal_value(count, n / 10);
        assert((zeros(count) + decimal(n)).drop_last() =~= zeros(count) + decimal(n / 10));
    }
    assert((zeros(count) + decimal(n)).last() == d);
}

/// Two different numbers that are not negative are written differently,
/// whatever the width they are filled to.
pub proof fn lemma_zero_padded_injective(m: int, n: int)
    requires
        0 <= m,
        0 <= n,
        m != n,
    ensures
        zero_padded(m, 3) != zero_padded(n, 3),
{
    lemma_decimal_value(3 - decimal(m as nat).len(), m as nat);
    lemma_decimal_value(3 - decimal(n as nat).len(), n as nat);
}

/// One decimal digit as a character.
fn digit(d: u64) -> (c: char)
    requires
        d < 10,
    ensures
        c == digit_char(d as int),
{
    if d == 0 {
        '0'
    } else if d == 1 {
        '1'
    } else if d == 2 {
        '2'
    } else if d == 3 {
        '3'
    } else if d == 4 {
        '4'
    } else if d == 5 {
        '5'
    } else if d == 6 {
        '6'
    } else if d == 7 {
        '7'
    } else if d == 8 {
        '8'
    } else {
        '9'
    }
}

/// Appends the decimal digits of `n`.
fn push_decimal(text: &mut String, n: u64)
    ensures
        final(text)@ == old(text)@ + decimal(n as nat),
    decreases n,
{
    if n >= 10 {
        push_decimal(text, n / 10);
    }
    text.push(digit(n % 10));
    assert(text@ =~= old(text)@ + decimal(n as nat));
}

/// How many digits a number has, as far as three.
proof fn lemma_decimal_len(n: nat)
    ensures
        n < 10 ==> decimal(n).len() == 1,
        10 <= n < 100 ==> decimal(n).len() == 2,
        n >= 100 ==> decimal(n).len() >= 3,
    decreases n,
{
    if n >= 10 {
        lemma_decimal_len(n / 10);
    }
}

/// `n` in decimal, filled with zeros to three characters: `7` gives `007`,
/// `1234` gives `1234`, `-5` gives `-05`.
pub fn zero_pad3(n: i64) -> (text: String)
    ensures
        text@ == zero_padded(n as int, 3),
{
    let mut text = String::new();
    let magnitude: u64 = if n >= 0 {
        n as u64
    } else if n == i64::MIN {
        0x8000_0000_0000_0000u64
    } else {
        (-n) as u64
    };
    proof {
        lemma_decimal_len(magnitude as nat);
    }
    if n < 0 {
        text.push('-');
        if magnitude < 10 {
            text.push('0');
        }
        assert(text@ =~= seq!['-'] + zeros(2 - decimal(magnitude as nat).len()));
    } else {
        if magnitude < 100 {
            text.push('0');
        }
        if magnitude < 10 {
            text.push('0');
        }
        assert(text@ =~= zeros(3 - decimal(magnitude as nat).len()));
    }
    push_decimal(&mut text, magnitude);
    text
}

} // verus!
