use vstd::prelude::*;
use vstd::string::*;

verus! {

/// The character of a decimal digit.
pub open spec fn digit_char(d: int) -> char {
    if d == 0 {
        '0'
    } else if d == 1 {
        '1'
    } else if d == 2 {
        '2'
    } else if d == 3 {
        '3'
    } else if d == 4 {
        '4'
    } else if d == 5 {
        '5'
    } else if d == 6 {
        '6'
    } else if d == 7 {
        '7'
    } else if d == 8 {
        '8'
    } else {
        '9'
    }
}

/// The value of a decimal digit, or -1 for any other character.
pub open spec fn digit_value(c: char) -> int {
    if c == '0' {
        0
    } else if c == '1' {
        1
    } else if c == '2' {
        2
    } else if c == '3' {
        3
    } else if c == '4' {
        4
    } else if c == '5' {
        5
    } else if c == '6' {
        6
    } else if c == '7' {
        7
    } else if c == '8' {
        8
    } else if c == '9' {
        9
    } else {
        -1
    }
}

/// The decimal numeral of `n`, without leading zeros.
pub open spec fn decimal(n: nat) -> Seq<char>
    decreases n,
{
    if n < 10 {
        seq![digit_char(n as int)]
    } else {
        decimal(n / 10).push(digit_char((n % 10) as int))
    }
}

/// The one-character text of a decimal digit.
pub fn digit_str(d: u64) -> (s: &'static str)
    requires
        d < 10,
    ensures
        s@ == seq![digit_char(d as int)],
{
    proof {
        reveal_strlit("0");
        reveal_strlit("1");
        reveal_strlit("2");
        reveal_strlit("3");
        reveal_strlit("4");
        reveal_strlit("5");
        reveal_strlit("6");
        reveal_strlit("7");
        reveal_strlit("8");
        reveal_strlit("9");
    }
    let s = match d {
        0 => "0",
        1 => "1",
        2 => "2",
        3 => "3",
        4 => "4",
        5 => "5",
        6 => "6",
        7 => "7",
        8 => "8",
        _ => "9",
    };
    assert(s@ =~= seq![digit_char(d as int)]);
    s
}

/// Appends the decimal numeral of `n` to `out`.
pub fn push_decimal(out: &mut String, n: u64)
    ensures
        final(out)@ == old(out)@ + decimal(n as nat),
    decreases n,
{
    if n >= 10 {
        push_decimal(out, n / 10);
    }
    out.append(digit_str(n % 10));
    assert(final(out)@ =~= old(out)@ + decimal(n as nat));
}

/// White space: the characters that trimming removes.
pub open spec fn is_space(c: char) -> bool {
    ||| c == ' '
    ||| ('\u{9}' <= c && c <= '\u{d}')
    ||| c == '\u{85}'
    ||| c == '\u{a0}'
    ||| c == '\u{1680}'
    ||| ('\u{2000}' <= c && c <= '\u{200a}')
    ||| c == '\u{2028}'
    ||| c == '\u{2029}'
    ||| c == '\u{202f}'
    ||| c == '\u{205f}'
    ||| c == '\u{3000}'
}

/// Index of the first character in `[from, to)` that is no white space, or
/// `to` if there is none.
pub open spec fn skip_spaces(s: Seq<char>, from: int, to: int) -> int
    decreases to - from,
{
    if from >= to {
        to
    } else if !is_space(s[from]) {
        from
    } else {
        skip_spaces(s, from + 1, to)
    }
}

/// End of the part of `[from, to)` that is left when the white space at its
/// end is dropped.
pub open spec fn drop_spaces(s: Seq<char>, from: int, to: int) -> int
    decreases to - from,
{
    if to <= from {
        from
    } else if !is_space(s[to - 1]) {
        to
    } else {
        drop_spaces(s, from, to - 1)
    }
}

/// Index of the first `c` in `[from, to)`, or `to` if there is none.
pub open spec fn find_char(s: Seq<char>, from: int, to: int, c: char) -> int
    decreases to - from,
{
    if from >= to {
        to
    } else if s[from] == c {
        from
    } else {
        find_char(s, from + 1, to, c)
    }
}

/// Whether every character in `[from, to)` is a decimal digit.
pub open spec fn all_digits(s: Seq<char>, from: int, to: int) -> bool {
    forall|i: int| from <= i < to ==> digit_value(#[trigger] s[i]) >= 0
}

/// The number that the digits in `[from, to)` write.
pub open spec fn digits_value(s: Seq<char>, from: int, to: int) -> nat
    decreases to - from,
{
    if to <= from {
        0
    } else {
        (digits_value(s, from, to - 1) * 10 + digit_value(s[to - 1])) as nat
    }
}

/// The smaller of two numbers.
pub open spec fn min_int(a: int, b: int) -> int {
    if a <= b {
        a
    } else {
        b
    }
}

/// The characters of a text.
pub fn chars_of(s: &str) -> (chars: Vec<char>)
    ensures
        chars@ == s@,
{
    broadcast use axiom_spec_iter;

    let mut chars: Vec<char> = Vec::new();
    for c in it: s.chars()
        invariant
            it.seq() == s@,
            chars@.len() == it.index(),
            forall|j: int| 0 <= j < chars@.len() ==> chars@[j] == it.seq()[j],
    {
        chars.push(c);
    }
    assert(chars@ =~= s@);
    chars
}

/// Tells whether a character is white space.
pub fn is_whitespace(c: char) -> (space: bool)
    ensures
        space == is_space(c),
{
    c == ' ' || ('\u{9}' <= c && c <= '\u{d}') || c == '\u{85}' || c == '\u{a0}' || c == '\u{1680}'
        || ('\u{2000}' <= c && c <= '\u{200a}') || c == '\u{2028}' || c == '\u{2029}' || c
        == '\u{202f}' || c == '\u{205f}' || c == '\u{3000}'
}

/// The value of a decimal digit, if the character is one.
pub fn digit_of(c: char) -> (d: Option<u8>)
    ensures
        d is Some <==> digit_value(c) >= 0,
        d is Some ==> d->Some_0 == digit_value(c),
{
    match c {
        '0' => Some(0),
        '1' => Some(1),
        '2' => Some(2),
        '3' => Some(3),
        '4' => Some(4),
        '5' => Some(5),
        '6' => Some(6),
        '7' => Some(7),
        '8' => Some(8),
        '9' => Some(9),
        _ => None,
    }
}

/// Skips the white space at the start of `[from, to)`.
pub fn trim_start(chars: &Vec<char>, from: usize, to: usize) -> (start: usize)
    requires
        from <= to <= chars@.len(),
    ensures
        start == skip_spaces(chars@, from as int, to as int),
        from <= start <= to,
{
    let mut i = from;
    while i < to && is_whitespace(chars[i])
        invariant
            from <= i <= to <= chars@.len(),
            skip_spaces(chars@, from as int, to as int) == skip_spaces(chars@, i as int, to as int),
        decreases to - i,
    {
        i += 1;
    }
    i
}

/// Drops the white space at the end of `[from, to)`.
pub fn trim_end(chars: &Vec<char>, from: usize, to: usize) -> (end: usize)
    requires
        from <= to <= chars@.len(),
    ensures
        end == drop_spaces(chars@, from as int, to as int),
        from <= end <= to,
{
    let mut j = to;
    while j > from && is_whitespace(chars[j - 1])
        invariant
            from <= j <= to <= chars@.len(),
            drop_spaces(chars@, from as int, to as int) == drop_spaces(chars@, from as int, j as int),
        decreases j - from,
    {
        j -= 1;
    }
    j
}

/// Finds the first `c` in `[from, to)`.
pub fn find(chars: &Vec<char>, from: usize, to: usize, c: char) -> (at: usize)
    requires
        from <= to <= chars@.len(),
    ensures
        at == find_char(chars@, from as int, to as int, c),
        from <= at <= to,
{
    let mut i = from;
    while i < to && chars[i] != c
        invariant
            from <= i <= to <= chars@.len(),
            find_char(chars@, from as int, to as int, c) == find_char(chars@, i as int, to as int, c),
        decreases to - i,
    {
        i += 1;
    }
    i
}

/// Tells whether `[from, to)` spells `word`.
pub fn range_is(chars: &Vec<char>, from: usize, to: usize, word: &Vec<char>) -> (same: bool)
    requires
        from <= to <= chars@.len(),
    ensures
        same == (chars@.subrange(from as int, to as int) == word@),
{
    if to - from != word.len() {
        return false;
    }
    let mut i: usize = 0;
    while i < word.len()
        invariant
            from <= to <= chars@.len(),
            to - from == word@.len(),
            i <= word@.len(),
            forall|j: int| 0 <= j < i ==> chars@[from + j] == word@[j],
        decreases word@.len() - i,
    {
        if chars[from + i] != word[i] {
            assert(chars@.subrange(from as int, to as int)[i as int] != word@[i as int]);
            return false;
        }
        i += 1;
    }
    assert(chars@.subrange(from as int, to as int) =~= word@);
    true
}

/// Greatest cap that `read_digits` counts to.
pub const DIGITS_CAP: u128 = 0x10_0000_0000_0000_0000_0000_0000;

/// Reads the digits in `[from, to)` as a number, counting no further than
/// `cap`; `None` if a character is no digit.
pub fn read_digits(chars: &Vec<char>, from: usize, to: usize, cap: u128) -> (value: Option<u128>)
    requires
        from <= to <= chars@.len(),
        cap <= DIGITS_CAP,
    ensures
        value is Some <==> all_digits(chars@, from as int, to as int),
        value is Some ==> value->Some_0 == min_int(
            digits_value(chars@, from as int, to as int) as int,
            cap as int,
        ),
{
    let mut acc: u128 = 0;
    let mut i = from;
    while i < to
        invariant
            from <= i <= to <= chars@.len(),
            cap <= DIGITS_CAP,
            all_digits(chars@, from as int, i as int),
            acc == min_int(digits_value(chars@, from as int, i as int) as int, cap as int),
        decreases to - i,
    {
        match digit_of(chars[i]) {
            None => {
                return None;
            },
            Some(d) => {
                let next = acc * 10 + d as u128;
                acc = if next > cap { cap } else { next };
            },
        }
        i += 1;
    }
    Some(acc)
}

/// Ten to the power of `k`.
pub open spec fn pow10(k: nat) -> nat
    decreases k,
{
    if k == 0 {
        1
    } else {
        10 * pow10((k - 1) as nat)
    }
}

/// A power of ten is at least one, and from the third on at least a thousand.
pub proof fn lemma_pow10_grows(k: nat)
    ensures
        pow10(k) >= 1,
        k >= 3 ==> pow10(k) >= 1000,
    decreases k,
{
    reveal_with_fuel(pow10, 4);
    if k > 3 {
        lemma_pow10_grows((k - 1) as nat);
    }
}

/// Index of the first `e` or `E` in `[from, to)`, or `to` if there is none.
pub open spec fn exponent_mark(s: Seq<char>, from: int, to: int) -> int
    decreases to - from,
{
    if from >= to {
        to
    } else if s[from] == 'e' || s[from] == 'E' {
        from
    } else {
        exponent_mark(s, from + 1, to)
    }
}

/// Finds the first `e` or `E` in `[from, to)`.
pub fn find_exponent_mark(chars: &Vec<char>, from: usize, to: usize) -> (at: usize)
    requires
        from <= to <= chars@.len(),
    ensures
        at == exponent_mark(chars@, from as int, to as int),
        from <= at <= to,
{
    let mut i = from;
    while i < to && chars[i] != 'e' && chars[i] != 'E'
        invariant
            from <= i <= to <= chars@.len(),
            exponent_mark(chars@, from as int, to as int) == exponent_mark(
                chars@,
                i as int,
                to as int,
            ),
        decreases to - i,
    {
        i += 1;
    }
    i
}

/// No exponent mark is found where none stands.
pub proof fn lemma_no_exponent_mark(s: Seq<char>, from: int, to: int)
    requires
        0 <= from <= to <= s.len(),
        forall|i: int| from <= i < to ==> s[i] != 'e' && s[i] != 'E',
    ensures
        exponent_mark(s, from, to) == to,
    decreases to - from,
{
    if from < to {
        lemma_no_exponent_mark(s, from + 1, to);
    }
}

/// The first `c` from `from` on is at `k` where none stands before it.
pub proof fn lemma_find_char_hit(s: Seq<char>, from: int, k: int, to: int, c: char)
    requires
        0 <= from <= k < to <= s.len(),
        s[k] == c,
        forall|i: int| from <= i < k ==> s[i] != c,
    ensures
        find_char(s, from, to, c) == k,
    decreases k - from,
{
    if from < k {
        lemma_find_char_hit(s, from + 1, k, to, c);
    }
}

/// No `c` is found where none stands.
pub proof fn lemma_find_char_miss(s: Seq<char>, from: int, to: int, c: char)
    requires
        0 <= from <= to <= s.len(),
        forall|i: int| from <= i < to ==> s[i] != c,
    ensures
        find_char(s, from, to, c) == to,
    decreases to - from,
{
    if from < to {
        lemma_find_char_miss(s, from + 1, to, c);
    }
}

} // verus!
