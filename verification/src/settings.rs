use crate::text::{
    all_digits, chars_of, decimal, digit_char, digit_of, digit_str, digit_value, digits_value,
    drop_spaces, exponent_mark, find, find_char, find_exponent_mark, is_space,
    lemma_find_char_hit, lemma_find_char_miss, lemma_no_exponent_mark, lemma_pow10_grows, min_int,
    pow10, push_decimal, range_is, read_digits, skip_spaces, trim_end, trim_start,
};
use vstd::prelude::*;
use vstd::string::*;

verus! {

/// The three difficulty tiers.
#[derive(Clone, Copy, Debug, PartialEq, Eq, Structural)]
pub enum Difficulty {
    Easy,
    Normal,
    Hard,
}

impl Difficulty {
    /// The tier's number: 1, 2 or 3.
    pub open spec fn tier(self) -> int {
        match self {
            Difficulty::Easy => 1,
            Difficulty::Normal => 2,
            Difficulty::Hard => 3,
        }
    }

    /// The tier with the given number; any number but 1, 2 and 3 gives `Normal`.
    pub open spec fn of_tier(value: int) -> Difficulty {
        if value == 1 {
            Difficulty::Easy
        } else if value == 3 {
            Difficulty::Hard
        } else {
            Difficulty::Normal
        }
    }

    /// Factor on speeds at this tier, in thousandths.
    pub open spec fn speed_factor(self) -> i32 {
        match self {
            Difficulty::Easy => 850,
            Difficulty::Normal => 1000,
            Difficulty::Hard => 1200,
        }
    }

    /// Factor on the saucers' spawn chance at this tier, in thousandths.
    pub open spec fn spawn_factor(self) -> i32 {
        match self {
            Difficulty::Easy => 700,
            Difficulty::Normal => 1000,
            Difficulty::Hard => 1300,
        }
    }

    /// The tier with the given number; any number but 1, 2 and 3 gives `Normal`.
    pub fn from_u8(value: u8) -> (d: Difficulty)
        ensures
            d == Difficulty::of_tier(value as int),
    {
        match value {
            1 => Difficulty::Easy,
            2 => Difficulty::Normal,
            3 => Difficulty::Hard,
            _ => Difficulty::Normal,
        }
    }

    /// The next harder tier; `Hard` wraps round to `Easy`.
    pub fn next(&self) -> (d: Difficulty)
        ensures
            d.tier() == self.tier() % 3 + 1,
    {
        match self {
            Difficulty::Easy => Difficulty::Normal,
            Difficulty::Normal => Difficulty::Hard,
            Difficulty::Hard => Difficulty::Easy,
        }
    }

    /// The next easier tier; `Easy` wraps round to `Hard`.
    pub fn prev(&self) -> (d: Difficulty)
        ensures
            d.tier() == (self.tier() + 1) % 3 + 1,
    {
        match self {
            Difficulty::Easy => Difficulty::Hard,
            Difficulty::Normal => Difficulty::Easy,
            Difficulty::Hard => Difficulty::Normal,
        }
    }

    /// The tier's number: 1, 2 or 3.
    pub fn to_u8(&self) -> (value: u8)
        ensures
            value as int == self.tier(),
    {
        match self {
            Difficulty::Easy => 1,
            Difficulty::Normal => 2,
            Difficulty::Hard => 3,
        }
    }

    /// Factor on speeds at this tier, in thousandths.
    pub fn speed_multiplier(&self) -> (factor: i32)
        ensures
            factor == self.speed_factor(),
    {
        match self {
            Difficulty::Easy => 850,
            Difficulty::Normal => 1000,
            Difficulty::Hard => 1200,
        }
    }

    /// Factor on the saucers' spawn chance at this tier, in thousandths.
    pub fn spawn_multiplier(&self) -> (factor: i32)
        ensures
            factor == self.spawn_factor(),
    {
        match self {
            Difficulty::Easy => 700,
            Difficulty::Normal => 1000,
            Difficulty::Hard => 1300,
        }
    }
}

/// Full volume, in thousandths.
pub const VOLUME_MAX: i32 = 1000;

/// Volume of a fresh installation, in thousandths.
pub const DEFAULT_VOLUME: i32 = 800;

/// What the player can set.
#[derive(Clone, Copy, Debug, PartialEq, Eq, Structural)]
pub struct Settings {
    /// Sound volume in thousandths, from nothing to `VOLUME_MAX`.
    pub volume: i32,
    pub difficulty: Difficulty,
    pub show_fps: bool,
}

/// The settings of a fresh installation.
pub open spec fn default_settings() -> Settings {
    Settings { volume: DEFAULT_VOLUME, difficulty: Difficulty::Normal, show_fps: false }
}

/// A volume brought into its range.
pub open spec fn clamp_volume(v: int) -> int {
    if v < 0 {
        0
    } else if v > VOLUME_MAX {
        VOLUME_MAX as int
    } else {
        v
    }
}

/// Where the digits of a number start in `[a, b)`: behind its sign, if it has
/// one.
pub open spec fn behind_sign(s: Seq<char>, a: int, b: int, minus_too: bool) -> int {
    if a < b && (s[a] == '+' || (minus_too && s[a] == '-')) {
        a + 1
    } else {
        a
    }
}

/// Whether `word` spells `inf` or `infinity`, in letters of either case.
pub open spec fn is_infinity_word(word: Seq<char>) -> bool {
    &&& word.len() == 3 || word.len() == 8
    &&& (word[0] == 'i' || word[0] == 'I')
    &&& (word[1] == 'n' || word[1] == 'N')
    &&& (word[2] == 'f' || word[2] == 'F')
    &&& (word.len() == 8 ==> {
        &&& (word[3] == 'i' || word[3] == 'I')
        &&& (word[4] == 'n' || word[4] == 'N')
        &&& (word[5] == 'i' || word[5] == 'I')
        &&& (word[6] == 't' || word[6] == 'T')
        &&& (word[7] == 'y' || word[7] == 'Y')
    })
}

/// The exponent that is written from the mark at `mark` on: none where there
/// is no mark; else, behind the mark, a sign or none and then digits, at
/// least one. `None` for any other text.
pub open spec fn exponent_spec(s: Seq<char>, mark: int, b: int) -> Option<int> {
    if mark >= b {
        Some(0)
    } else {
        let digits = behind_sign(s, mark + 1, b, true);
        if digits < b && all_digits(s, digits, b) {
            if digits > mark + 1 && s[mark + 1] == '-' {
                Some(-(digits_value(s, digits, b) as int))
            } else {
                Some(digits_value(s, digits, b) as int)
            }
        } else {
            None
        }
    }
}

/// The number that the first `count` of the digits write, with zeros in the
/// place of digits that are missing; nothing where no digit is counted.
pub open spec fn leading_value(digits: Seq<char>, count: int) -> int {
    if count <= 0 {
        0
    } else if count <= digits.len() {
        digits_value(digits, 0, count) as int
    } else {
        (digits_value(digits, 0, digits.len() as int) * pow10((count - digits.len()) as nat)) as int
    }
}

/// The volume that `[a, b)` writes, in thousandths and brought into its
/// range. The text is a sign or none and then either `inf` or `infinity`, in
/// letters of either case, which stands for a volume beyond every number; or
/// digits with at most one point among them and at least one digit in all,
/// and behind them an exponent of ten or none. Thousandths are cut off, not
/// rounded. `None` for any other text, `nan` among them.
pub open spec fn volume_spec(s: Seq<char>, a: int, b: int) -> Option<int> {
    let start = behind_sign(s, a, b, true);
    let negative = start > a && s[a] == '-';
    if is_infinity_word(s.subrange(start, b)) {
        Some(if negative { 0 } else { VOLUME_MAX as int })
    } else {
        let mark = exponent_mark(s, start, b);
        let dot = find_char(s, start, mark, '.');
        let frac = if dot < mark { dot + 1 } else { mark };
        let exponent = exponent_spec(s, mark, b);
        if all_digits(s, start, dot) && all_digits(s, frac, mark) && (dot - start) + (mark - frac)
            > 0 && exponent is Some {
            if negative {
                Some(0)
            } else {
                Some(
                    min_int(
                        leading_value(
                            s.subrange(start, dot) + s.subrange(frac, mark),
                            dot - start + 3 + exponent->Some_0,
                        ),
                        VOLUME_MAX as int,
                    ),
                )
            }
        } else {
            None
        }
    }
}

/// The number from 0 to 255 that `[a, b)` writes: a plus sign or none, then
/// digits. `None` for any other text and for a greater number.
pub open spec fn byte_spec(s: Seq<char>, a: int, b: int) -> Option<int> {
    let start = behind_sign(s, a, b, false);
    if start < b && all_digits(s, start, b) && digits_value(s, start, b) <= 255 {
        Some(digits_value(s, start, b) as int)
    } else {
        None
    }
}

/// The texts that switch a flag on.
pub open spec fn is_true_word(word: Seq<char>) -> bool {
    word == "1"@ || word == "true"@ || word == "True"@ || word == "TRUE"@
}

/// The settings after the line `[from, end)` of `s` has been read. A line is
/// trimmed; an empty line, a line that starts with `#` and a line without
/// exactly one `=` change nothing. Of the others, the trimmed text before the
/// `=` is the key and the trimmed text behind it the value; a key that is
/// not known and a value that cannot be read change nothing.
pub open spec fn apply_line(acc: Settings, s: Seq<char>, from: int, end: int) -> Settings {
    let a = skip_spaces(s, from, end);
    let b = drop_spaces(s, a, end);
    let eq = find_char(s, a, b, '=');
    if a >= b || s[a] == '#' || eq >= b || find_char(s, eq + 1, b, '=') < b {
        acc
    } else {
        let key_start = skip_spaces(s, a, eq);
        let key = s.subrange(key_start, drop_spaces(s, key_start, eq));
        let v = skip_spaces(s, eq + 1, b);
        let w = drop_spaces(s, v, b);
        if key == "volume"@ {
            match volume_spec(s, v, w) {
                Some(volume) => Settings { volume: volume as i32, ..acc },
                None => acc,
            }
        } else if key == "difficulty"@ {
            match byte_spec(s, v, w) {
                Some(tier) => Settings { difficulty: Difficulty::of_tier(tier), ..acc },
                None => acc,
            }
        } else if key == "show_fps"@ {
            Settings { show_fps: is_true_word(s.subrange(v, w)), ..acc }
        } else {
            acc
        }
    }
}

/// The settings after the lines of `s` from index `from` on have been read,
/// one after the other; lines end at a line feed.
pub open spec fn read_lines(acc: Settings, s: Seq<char>, from: int) -> Settings
    decreases s.len() - from,
{
    if from < 0 || from > s.len() {
        acc
    } else {
        let end = find_char(s, from, s.len() as int, '\n');
        let next = apply_line(acc, s, from, end);
        if end >= s.len() || end < from {
            next
        } else {
            read_lines(next, s, end + 1)
        }
    }
}

/// The settings that a text holds: the defaults, changed by its lines.
pub open spec fn settings_of(s: Seq<char>) -> Settings {
    let read = read_lines(default_settings(), s, 0);
    Settings { volume: clamp_volume(read.volume as int) as i32, ..read }
}

/// The text of a volume that is not negative: its whole part, then, where
/// there is more, a point and the thousandths without zeros at the end.
pub open spec fn volume_text(v: int) -> Seq<char> {
    let whole = decimal((v / 1000) as nat);
    let d1 = digit_char(v % 1000 / 100);
    let d2 = digit_char(v % 100 / 10);
    let d3 = digit_char(v % 10);
    if v % 1000 == 0 {
        whole
    } else if v % 100 == 0 {
        whole + "."@ + seq![d1]
    } else if v % 10 == 0 {
        whole + "."@ + seq![d1] + seq![d2]
    } else {
        whole + "."@ + seq![d1] + seq![d2] + seq![d3]
    }
}

/// The text of a volume, with its sign.
pub open spec fn signed_volume_text(v: int) -> Seq<char> {
    if v < 0 {
        "-"@ + volume_text(-v)
    } else {
        volume_text(v)
    }
}

/// The text that holds the settings, one `key=value` line for each.
pub open spec fn settings_text(settings: Settings) -> Seq<char> {
    "volume="@ + signed_volume_text(settings.volume as int) + "\n"@ + "difficulty="@ + decimal(
        settings.difficulty.tier() as nat,
    ) + "\n"@ + "show_fps="@ + (if settings.show_fps {
        "1"@
    } else {
        "0"@
    }) + "\n"@
}

/// Appends the text of a volume that is not negative.
pub fn push_volume(out: &mut String, v: u32)
    ensures
        final(out)@ == old(out)@ + volume_text(v as int),
{
    push_decimal(out, (v / 1000) as u64);
    if v % 1000 != 0 {
        out.append(".");
        out.append(digit_str((v % 1000 / 100) as u64));
        if v % 100 != 0 {
            out.append(digit_str((v % 100 / 10) as u64));
            if v % 10 != 0 {
                out.append(digit_str((v % 10) as u64));
            }
        }
    }
    assert(final(out)@ =~= old(out)@ + volume_text(v as int));
}

/// Greatest magnitude of an exponent that is told from a greater one: no
/// text is long enough for a greater one to give another volume.
pub const EXPONENT_CAP: u128 = 0x40_0000_0000_0000_0000;

/// An exponent kept within `EXPONENT_CAP` on either side.
pub open spec fn capped_exponent(e: int) -> int {
    if e > EXPONENT_CAP {
        EXPONENT_CAP as int
    } else if e < -EXPONENT_CAP {
        -(EXPONENT_CAP as int)
    } else {
        e
    }
}

/// An exponent beyond the cap gives the volume that the cap gives.
pub proof fn lemma_exponent_cap(digits: Seq<char>, whole: int, e: int)
    requires
        0 <= whole <= digits.len() <= usize::MAX,
    ensures
        min_int(leading_value(digits, whole + 3 + e), VOLUME_MAX as int) == min_int(
            leading_value(digits, whole + 3 + capped_exponent(e)),
            VOLUME_MAX as int,
        ),
{
    let n = digits_value(digits, 0, digits.len() as int) as int;
    let len = digits.len() as int;
    if e > EXPONENT_CAP {
        let far = (whole + 3 + e - len) as nat;
        let near = (whole + 3 + EXPONENT_CAP - len) as nat;
        lemma_pow10_grows(far);
        lemma_pow10_grows(near);
        if n > 0 {
            assert(n * pow10(far) >= 1000) by (nonlinear_arith)
                requires
                    n >= 1,
                    pow10(far) >= 1000,
            ;
            assert(n * pow10(near) >= 1000) by (nonlinear_arith)
                requires
                    n >= 1,
                    pow10(near) >= 1000,
            ;
        } else {
            assert(n * pow10(far) == 0 && n * pow10(near) == 0) by (nonlinear_arith)
                requires
                    n == 0,
            ;
        }
    }
}

/// Tells whether `[a, b)` spells `inf` or `infinity`.
pub fn spells_infinity(chars: &Vec<char>, a: usize, b: usize) -> (found: bool)
    requires
        a <= b <= chars@.len(),
    ensures
        found == is_infinity_word(chars@.subrange(a as int, b as int)),
{
    let n = b - a;
    if n != 3 && n != 8 {
        return false;
    }
    let word = Ghost(chars@.subrange(a as int, b as int));
    proof {
        assert forall|i: int| 0 <= i < n implies word@[i] == chars@[a + i] by {}
    }
    let short = (chars[a] == 'i' || chars[a] == 'I') && (chars[a + 1] == 'n' || chars[a + 1] == 'N')
        && (chars[a + 2] == 'f' || chars[a + 2] == 'F');
    if n == 3 {
        short
    } else {
        short && (chars[a + 3] == 'i' || chars[a + 3] == 'I') && (chars[a + 4] == 'n' || chars[a
            + 4] == 'N') && (chars[a + 5] == 'i' || chars[a + 5] == 'I') && (chars[a + 6] == 't'
            || chars[a + 6] == 'T') && (chars[a + 7] == 'y' || chars[a + 7] == 'Y')
    }
}

/// Reads the exponent from the mark at `mark` on, kept within `EXPONENT_CAP`.
pub fn parse_exponent(chars: &Vec<char>, mark: usize, b: usize) -> (exponent: Option<i128>)
    requires
        mark <= b <= chars@.len(),
    ensures
        exponent is Some <==> exponent_spec(chars@, mark as int, b as int) is Some,
        exponent is Some ==> exponent->Some_0 == capped_exponent(
            exponent_spec(chars@, mark as int, b as int)->Some_0,
        ),
{
    if mark >= b {
        return Some(0);
    }
    let signed = mark + 1 < b && (chars[mark + 1] == '+' || chars[mark + 1] == '-');
    let digits = if signed { mark + 2 } else { mark + 1 };
    if digits >= b {
        return None;
    }
    match read_digits(chars, digits, b, EXPONENT_CAP) {
        None => None,
        Some(size) => {
            if signed && chars[mark + 1] == '-' {
                Some(-(size as i128))
            } else {
                Some(size as i128)
            }
        },
    }
}

/// Reads the first `count` of the digits in `[start, dot)` and `[frac, mark)`
/// as a number of thousandths, with zeros in the place of digits that are
/// missing, and counts no further than the full volume.
pub fn read_leading(
    chars: &Vec<char>,
    start: usize,
    dot: usize,
    frac: usize,
    mark: usize,
    count: i128,
) -> (value: i32)
    requires
        start <= dot <= frac <= mark <= chars@.len(),
        all_digits(chars@, start as int, dot as int),
        all_digits(chars@, frac as int, mark as int),
        -0x100_0000_0000_0000_0000_0000 <= count <= 0x100_0000_0000_0000_0000_0000,
    ensures
        value == min_int(
            leading_value(
                chars@.subrange(start as int, dot as int) + chars@.subrange(
                    frac as int,
                    mark as int,
                ),
                count as int,
            ),
            VOLUME_MAX as int,
        ),
{
    let ghost digits = chars@.subrange(start as int, dot as int) + chars@.subrange(
        frac as int,
        mark as int,
    );
    let whole = dot - start;
    let len = whole + (mark - frac);
    if count <= 0 {
        return 0;
    }
    let take: usize = if count <= len as i128 { count as usize } else { len };
    let mut acc: i32 = 0;
    let mut i: usize = 0;
    while i < take
        invariant
            start <= dot <= frac <= mark <= chars@.len(),
            whole == dot - start,
            len == whole + (mark - frac),
            digits == chars@.subrange(start as int, dot as int) + chars@.subrange(
                frac as int,
                mark as int,
            ),
            all_digits(chars@, start as int, dot as int),
            all_digits(chars@, frac as int, mark as int),
            i <= take <= len,
            acc == min_int(digits_value(digits, 0, i as int) as int, VOLUME_MAX as int),
        decreases take - i,
    {
        let at = if i < whole { start + i } else { frac + (i - whole) };
        assert(digits[i as int] == chars@[at as int]);
        let d = digit_in(chars, at);
        let next = acc * 10 + d;
        acc = if next > VOLUME_MAX { VOLUME_MAX } else { next };
        i += 1;
    }
    assert(digits.len() == len);
    if count <= len as i128 {
        acc
    } else if acc == 0 {
        assert(digits_value(digits, 0, len as int) * pow10((count - len) as nat) == 0)
            by (nonlinear_arith)
            requires
                digits_value(digits, 0, len as int) == 0,
        ;
        0
    } else {
        let ghost n = digits_value(digits, 0, len as int) as int;
        let ghost pad = (count - len) as nat;
        proof {
            lemma_pow10_grows(pad);
            reveal_with_fuel(pow10, 3);
        }
        if count - len as i128 >= 3 {
            assert(n * pow10(pad) >= 1000) by (nonlinear_arith)
                requires
                    n >= 1,
                    pow10(pad) >= 1000,
            ;
            VOLUME_MAX
        } else if count - len as i128 == 2 {
            assert(n * pow10(pad) == n * 100) by (nonlinear_arith)
                requires
                    pow10(pad) == 100,
            ;
            if acc >= 10 {
                VOLUME_MAX
            } else {
                acc * 100
            }
        } else {
            assert(n * pow10(pad) == n * 10) by (nonlinear_arith)
                requires
                    pow10(pad) == 10,
            ;
            if acc >= 100 {
                VOLUME_MAX
            } else {
                acc * 10
            }
        }
    }
}

/// Reads a volume.
pub fn parse_volume(chars: &Vec<char>, a: usize, b: usize) -> (volume: Option<i32>)
    requires
        a <= b <= chars@.len(),
    ensures
        volume is Some <==> volume_spec(chars@, a as int, b as int) is Some,
        volume is Some ==> volume->Some_0 == volume_spec(chars@, a as int, b as int)->Some_0,
        volume is Some ==> 0 <= volume->Some_0 <= VOLUME_MAX,
{
    let negative = a < b && chars[a] == '-';
    let start = if a < b && (chars[a] == '+' || chars[a] == '-') { a + 1 } else { a };
    if spells_infinity(chars, start, b) {
        return Some(if negative { 0 } else { VOLUME_MAX });
    }
    let mark = find_exponent_mark(chars, start, b);
    let dot = find(chars, start, mark, '.');
    let frac = if dot < mark { dot + 1 } else { mark };
    if (dot - start) + (mark - frac) == 0 {
        return None;
    }
    if read_digits(chars, start, dot, 0).is_none() || read_digits(chars, frac, mark, 0).is_none() {
        return None;
    }
    let exponent = match parse_exponent(chars, mark, b) {
        None => {
            return None;
        },
        Some(e) => e,
    };
    if negative {
        return Some(0);
    }
    proof {
        lemma_exponent_cap(
            chars@.subrange(start as int, dot as int) + chars@.subrange(frac as int, mark as int),
            dot - start,
            exponent_spec(chars@, mark as int, b as int)->Some_0,
        );
    }
    Some(read_leading(chars, start, dot, frac, mark, (dot - start) as i128 + 3 + exponent))
}

/// The value of the digit at `i`.
fn digit_in(chars: &Vec<char>, i: usize) -> (d: i32)
    requires
        i < chars@.len(),
        digit_value(chars@[i as int]) >= 0,
    ensures
        d == digit_value(chars@[i as int]),
        0 <= d <= 9,
{
    match digit_of(chars[i]) {
        Some(d) => d as i32,
        None => 0,
    }
}

/// Reads a number from 0 to 255.
pub fn parse_byte(chars: &Vec<char>, a: usize, b: usize) -> (value: Option<u8>)
    requires
        a <= b <= chars@.len(),
    ensures
        value is Some <==> byte_spec(chars@, a as int, b as int) is Some,
        value is Some ==> value->Some_0 == byte_spec(chars@, a as int, b as int)->Some_0,
{
    let start = if a < b && chars[a] == '+' { a + 1 } else { a };
    if start >= b {
        return None;
    }
    match read_digits(chars, start, b, 256) {
        None => None,
        Some(v) => {
            if v <= 255 {
                Some(v as u8)
            } else {
                None
            }
        },
    }
}

/// Tells whether `[a, b)` switches a flag on.
pub fn parse_flag(chars: &Vec<char>, a: usize, b: usize) -> (on: bool)
    requires
        a <= b <= chars@.len(),
    ensures
        on == is_true_word(chars@.subrange(a as int, b as int)),
{
    range_is(chars, a, b, &chars_of("1")) || range_is(chars, a, b, &chars_of("true")) || range_is(
        chars,
        a,
        b,
        &chars_of("True"),
    ) || range_is(chars, a, b, &chars_of("TRUE"))
}

impl Default for Settings {
    /// The settings of a fresh installation.
    fn default() -> (settings: Settings)
        ensures
            settings == default_settings(),
    {
        Settings { volume: DEFAULT_VOLUME, difficulty: Difficulty::Normal, show_fps: false }
    }
}

impl Settings {
    /// Brings the volume into its range.
    pub fn clamp(&mut self)
        ensures
            final(self).volume == clamp_volume(old(self).volume as int),
            final(self).difficulty == old(self).difficulty,
            final(self).show_fps == old(self).show_fps,
    {
        if self.volume < 0 {
            self.volume = 0;
        } else if self.volume > VOLUME_MAX {
            self.volume = VOLUME_MAX;
        }
    }

    /// Reads one line of a settings text into the settings.
    pub fn read_line(&mut self, chars: &Vec<char>, from: usize, end: usize)
        requires
            from <= end <= chars@.len(),
        ensures
            *final(self) == apply_line(*old(self), chars@, from as int, end as int),
    {
        let a = trim_start(chars, from, end);
        let b = trim_end(chars, a, end);
        if a >= b || chars[a] == '#' {
            return ;
        }
        let eq = find(chars, a, b, '=');
        if eq >= b || find(chars, eq + 1, b, '=') < b {
            return ;
        }
        let key_start = trim_start(chars, a, eq);
        let key_end = trim_end(chars, key_start, eq);
        let v = trim_start(chars, eq + 1, b);
        let w = trim_end(chars, v, b);
        if range_is(chars, key_start, key_end, &chars_of("volume")) {
            match parse_volume(chars, v, w) {
                Some(volume) => {
                    self.volume = volume;
                },
                None => {},
            }
        } else if range_is(chars, key_start, key_end, &chars_of("difficulty")) {
            match parse_byte(chars, v, w) {
                Some(tier) => {
                    self.difficulty = Difficulty::from_u8(tier);
                },
                None => {},
            }
        } else if range_is(chars, key_start, key_end, &chars_of("show_fps")) {
            self.show_fps = parse_flag(chars, v, w);
        }
    }

    /// Reads settings from a text of `key=value` lines; what the text does not
    /// set keeps its default. A volume is read as `volume_spec` says: with a
    /// sign, a point and an exponent of ten as a decimal numeral has them, or
    /// as `inf` or `infinity`, and brought into its range. A value of `nan`
    /// is passed over, as every value is that cannot be read: no volume in
    /// thousandths stands for it.
    pub fn from_str(input: &str) -> (settings: Settings)
        ensures
            settings == settings_of(input@),
            0 <= settings.volume <= VOLUME_MAX,
    {
        let chars = chars_of(input);
        let mut settings = Settings::default();
        let mut from: usize = 0;
        loop
            invariant_except_break
                from <= chars@.len(),
                read_lines(default_settings(), chars@, 0) == read_lines(
                    settings,
                    chars@,
                    from as int,
                ),
            invariant
                chars@ == input@,
            ensures
                settings == read_lines(default_settings(), chars@, 0),
            decreases chars@.len() - from,
        {
            let end = find(&chars, from, chars.len(), '\n');
            settings.read_line(&chars, from, end);
            if end >= chars.len() {
                break ;
            }
            from = end + 1;
        }
        settings.clamp();
        settings
    }
    /// Writes the settings as a text that `from_str` reads.
    pub fn to_string(&self) -> (text: String)
        ensures
            text@ == settings_text(*self),
    {
        let mut text = String::from_str("volume=");
        if self.volume < 0 {
            text.append("-");
            push_volume(&mut text, (-(self.volume as i64)) as u32);
        } else {
            push_volume(&mut text, self.volume as u32);
        }
        text.append("\n");
        text.append("difficulty=");
        push_decimal(&mut text, self.difficulty.to_u8() as u64);
        text.append("\n");
        text.append("show_fps=");
        text.append(if self.show_fps { "1" } else { "0" });
        text.append("\n");
        assert(text@ =~= settings_text(*self));
        text
    }
}

/// A character of the text of a volume: a digit or the point.
pub open spec fn in_number(c: char) -> bool {
    digit_value(c) >= 0 || c == '.'
}

/// A digit's character stands for the digit.
pub proof fn lemma_digit_char_value(d: int)
    requires
        0 <= d <= 9,
    ensures
        digit_value(digit_char(d)) == d,
{
}

/// The characters of a number are no white space and none of the marks of a
/// settings text.
pub proof fn lemma_number_chars_are_plain(c: char)
    requires
        in_number(c),
    ensures
        !is_space(c),
        c != '\n',
        c != '=',
        c != '#',
{
}

/// The shape of the text of a volume in its range: one digit, and then,
/// where there is more, a point and one to three digits.
pub proof fn lemma_volume_text_shape(v: int)
    requires
        0 <= v <= VOLUME_MAX,
    ensures
        volume_text(v).len() == (if v % 1000 == 0 {
            1int
        } else if v % 100 == 0 {
            3int
        } else if v % 10 == 0 {
            4int
        } else {
            5int
        }),
        volume_text(v)[0] == digit_char(v / 1000),
        volume_text(v).len() > 1 ==> volume_text(v)[1] == '.' && volume_text(v)[2] == digit_char(
            v % 1000 / 100,
        ),
        volume_text(v).len() > 3 ==> volume_text(v)[3] == digit_char(v % 100 / 10),
        volume_text(v).len() > 4 ==> volume_text(v)[4] == digit_char(v % 10),
{
    reveal_strlit(".");
    assert(decimal((v / 1000) as nat) =~= seq![digit_char(v / 1000)]);
}

/// The digits of a volume in its range, without zeros at the end of the
/// thousandths, write that volume where four of them are counted.
pub proof fn lemma_leading_thousandths(digits: Seq<char>, v: int)
    requires
        0 <= v <= VOLUME_MAX,
        digits.len() == (if v % 1000 == 0 {
            1int
        } else if v % 100 == 0 {
            2int
        } else if v % 10 == 0 {
            3int
        } else {
            4int
        }),
        digits[0] == digit_char(v / 1000),
        digits.len() > 1 ==> digits[1] == digit_char(v % 1000 / 100),
        digits.len() > 2 ==> digits[2] == digit_char(v % 100 / 10),
        digits.len() > 3 ==> digits[3] == digit_char(v % 10),
    ensures
        leading_value(digits, 4) == v,
{
    lemma_digit_char_value(v / 1000);
    lemma_digit_char_value(v % 1000 / 100);
    lemma_digit_char_value(v % 100 / 10);
    lemma_digit_char_value(v % 10);
    reveal_with_fuel(digits_value, 5);
    reveal_with_fuel(pow10, 4);
    let n = digits.len() as int;
    assert(digits_value(digits, 0, 1) == v / 1000);
    let whole = digits_value(digits, 0, n) as int;
    let pad = pow10((4 - n) as nat) as int;
    if n == 1 {
        assert(pad == 1000);
    } else if n == 2 {
        assert(whole == (v / 1000) * 10 + v % 1000 / 100);
        assert(pad == 100);
    } else if n == 3 {
        assert(digits_value(digits, 0, 2) == (v / 1000) * 10 + v % 1000 / 100);
        assert(whole == digits_value(digits, 0, 2) * 10 + v % 100 / 10);
        assert(pad == 10);
    } else {
        assert(digits_value(digits, 0, 2) == (v / 1000) * 10 + v % 1000 / 100);
        assert(digits_value(digits, 0, 3) == digits_value(digits, 0, 2) * 10 + v % 100 / 10);
        assert(whole == digits_value(digits, 0, 3) * 10 + v % 10);
    }
    if n < 4 {
        assert(whole * pad == v) by (nonlinear_arith)
            requires
                0 <= v <= 1000,
                n == 1 ==> pad == 1000 && whole == v / 1000 && v % 1000 == 0,
                n == 2 ==> pad == 100 && whole == (v / 1000) * 10 + v % 1000 / 100 && v % 100 == 0,
                n == 3 ==> pad == 10 && whole == ((v / 1000) * 10 + v % 1000 / 100) * 10 + v % 100
                    / 10 && v % 10 == 0,
                1 <= n <= 3,
        ;
    }
}

/// The text of a volume in its range is read back as that volume, and holds
/// nothing but digits and at most one point.
pub proof fn lemma_volume_text_reads(t: Seq<char>, a: int, v: int)
    requires
        0 <= v <= VOLUME_MAX,
        0 <= a,
        a + volume_text(v).len() <= t.len(),
        t.subrange(a, a + volume_text(v).len()) == volume_text(v),
    ensures
        volume_spec(t, a, a + volume_text(v).len()) == Some(v),
        forall|i: int| a <= i < a + volume_text(v).len() ==> in_number(#[trigger] t[i]),
{
    let text = volume_text(v);
    let n = text.len() as int;
    let b = a + n;
    lemma_volume_text_shape(v);
    assert forall|i: int| 0 <= i < n implies t[a + i] == #[trigger] text[i] by {
        assert(t.subrange(a, b)[i] == t[a + i]);
    }
    lemma_digit_char_value(v / 1000);
    lemma_digit_char_value(v % 1000 / 100);
    lemma_digit_char_value(v % 100 / 10);
    lemma_digit_char_value(v % 10);
    assert(t[a] == text[0]);
    if n > 1 {
        assert(t[a + 1] == text[1]);
        assert(t[a + 2] == text[2]);
    }
    if n > 3 {
        assert(t[a + 3] == text[3]);
    }
    if n > 4 {
        assert(t[a + 4] == text[4]);
    }
    assert forall|i: int| a <= i < b implies in_number(#[trigger] t[i]) by {
        assert(i == a || i == a + 1 || i == a + 2 || i == a + 3 || i == a + 4);
    }
    assert(behind_sign(t, a, b, true) == a);
    assert(!is_infinity_word(t.subrange(a, b))) by {
        assert(t.subrange(a, b)[0] == t[a]);
    }
    assert forall|i: int| a <= i < b implies t[i] != 'e' && t[i] != 'E' by {
        assert(in_number(t[i]));
    }
    lemma_no_exponent_mark(t, a, b);
    assert(exponent_spec(t, b, b) == Some(0int));
    let dot = a + 1;
    let frac = if n == 1 { b } else { a + 2 };
    if n == 1 {
        lemma_find_char_miss(t, a, b, '.');
    } else {
        lemma_find_char_hit(t, a, a + 1, b, '.');
    }
    assert(find_char(t, a, b, '.') == dot);
    let digits = t.subrange(a, dot) + t.subrange(frac, b);
    assert(digits.len() == n - (if n == 1 { 0int } else { 1int }));
    assert(digits[0] == t[a]);
    if n > 1 {
        assert(digits[1] == t[a + 2]);
    }
    if n > 3 {
        assert(digits[2] == t[a + 3]);
    }
    if n > 4 {
        assert(digits[3] == t[a + 4]);
    }
    lemma_leading_thousandths(digits, v);
    assert(all_digits(t, a, dot));
    assert(all_digits(t, frac, b)) by {
        assert forall|i: int| frac <= i < b implies digit_value(#[trigger] t[i]) >= 0 by {
            assert(i == a + 2 || i == a + 3 || i == a + 4);
        }
    }
    assert(volume_spec(t, a, b) == Some(v));
}

/// A line that writes a volume in its range sets that volume.
pub proof fn lemma_volume_line_read(acc: Settings, t: Seq<char>, from: int, v: int)
    requires
        0 <= v <= VOLUME_MAX,
        0 <= from,
        from + 7 + volume_text(v).len() <= t.len(),
        t.subrange(from, from + 7) == "volume="@,
        t.subrange(from + 7, from + 7 + volume_text(v).len()) == volume_text(v),
    ensures
        apply_line(acc, t, from, from + 7 + volume_text(v).len()) == (Settings {
            volume: v as i32,
            ..acc
        }),
        forall|i: int| from <= i < from + 7 + volume_text(v).len() ==> t[i] != '\n',
{
    reveal_strlit("volume=");
    reveal_strlit("volume");
    let end = from + 7 + volume_text(v).len();
    lemma_volume_text_shape(v);
    lemma_volume_text_reads(t, from + 7, v);
    assert forall|i: int| 0 <= i < 7 implies t[from + i] == #[trigger] "volume="@[i] by {
        assert(t.subrange(from, from + 7)[i] == t[from + i]);
    }
    assert(t[from] == "volume="@[0]);
    assert(t[from + 5] == "volume="@[5]);
    assert(t[from + 6] == "volume="@[6]);
    assert forall|i: int| from + 7 <= i < end implies {
        &&& !is_space(#[trigger] t[i])
        &&& t[i] != '\n'
        &&& t[i] != '='
    } by {
        assert(in_number(t[i]));
        lemma_number_chars_are_plain(t[i]);
    }
    assert forall|i: int| from <= i < end implies t[i] != '\n' by {
        if i < from + 7 {
            assert(t[i] == "volume="@[i - from]);
        }
    }
    assert forall|i: int| from <= i < from + 6 implies t[i] != '=' by {
        assert(t[i] == "volume="@[i - from]);
    }
    lemma_find_char_hit(t, from, from + 6, end, '=');
    lemma_find_char_miss(t, from + 7, end, '=');
    assert(!is_space(t[end - 1]));
    assert(!is_space(t[from + 7]));
    assert(t.subrange(from, from + 6) =~= "volume"@) by {
        assert forall|i: int| 0 <= i < 6 implies t.subrange(from, from + 6)[i] == "volume"@[i] by {
            assert(t[from + i] == "volume="@[i]);
        }
    }
    assert(skip_spaces(t, from, end) == from);
    assert(drop_spaces(t, from, end) == end);
    assert(skip_spaces(t, from, from + 6) == from);
    assert(drop_spaces(t, from, from + 6) == from + 6);
    assert(skip_spaces(t, from + 7, end) == from + 7);
    assert(drop_spaces(t, from + 7, end) == end);
}

/// A line that writes a difficulty sets that difficulty.
pub proof fn lemma_difficulty_line_read(acc: Settings, t: Seq<char>, from: int, d: Difficulty)
    requires
        0 <= from,
        from + 12 <= t.len(),
        t.subrange(from, from + 11) == "difficulty="@,
        t[from + 11] == digit_char(d.tier()),
    ensures
        apply_line(acc, t, from, from + 12) == (Settings { difficulty: d, ..acc }),
        forall|i: int| from <= i < from + 12 ==> t[i] != '\n',
{
    reveal_strlit("difficulty=");
    reveal_strlit("difficulty");
    reveal_strlit("volume");
    let end = from + 12;
    assert forall|i: int| 0 <= i < 11 implies t[from + i] == #[trigger] "difficulty="@[i] by {
        assert(t.subrange(from, from + 11)[i] == t[from + i]);
    }
    assert(t[from] == "difficulty="@[0]);
    assert(t[from + 9] == "difficulty="@[9]);
    assert(t[from + 10] == "difficulty="@[10]);
    lemma_digit_char_value(d.tier());
    assert(in_number(t[from + 11]));
    lemma_number_chars_are_plain(t[from + 11]);
    assert forall|i: int| from <= i < end implies t[i] != '\n' by {
        if i < from + 11 {
            assert(t[i] == "difficulty="@[i - from]);
        }
    }
    assert forall|i: int| from <= i < from + 10 implies t[i] != '=' by {
        assert(t[i] == "difficulty="@[i - from]);
    }
    lemma_find_char_hit(t, from, from + 10, end, '=');
    lemma_find_char_miss(t, from + 11, end, '=');
    assert(t.subrange(from, from + 10) =~= "difficulty"@) by {
        assert forall|i: int| 0 <= i < 10 implies t.subrange(from, from + 10)[i]
            == "difficulty"@[i] by {
            assert(t[from + i] == "difficulty="@[i]);
        }
    }
    assert(skip_spaces(t, from, end) == from);
    assert(drop_spaces(t, from, end) == end);
    assert(skip_spaces(t, from, from + 10) == from);
    assert(drop_spaces(t, from, from + 10) == from + 10);
    assert(skip_spaces(t, from + 11, end) == from + 11);
    assert(drop_spaces(t, from + 11, end) == end);
    reveal_with_fuel(digits_value, 3);
    assert(digits_value(t, from + 11, end) == d.tier());
    assert(byte_spec(t, from + 11, end) == Some(d.tier()));
    assert(Difficulty::of_tier(d.tier()) == d);
}

/// A line that writes the flag sets the flag.
pub proof fn lemma_flag_line_read(acc: Settings, t: Seq<char>, from: int, on: bool)
    requires
        0 <= from,
        from + 10 <= t.len(),
        t.subrange(from, from + 9) == "show_fps="@,
        t[from + 9] == (if on { '1' } else { '0' }),
    ensures
        apply_line(acc, t, from, from + 10) == (Settings { show_fps: on, ..acc }),
        forall|i: int| from <= i < from + 10 ==> t[i] != '\n',
{
    reveal_strlit("show_fps=");
    reveal_strlit("show_fps");
    reveal_strlit("difficulty");
    reveal_strlit("volume");
    reveal_strlit("1");
    reveal_strlit("true");
    reveal_strlit("True");
    reveal_strlit("TRUE");
    let end = from + 10;
    assert forall|i: int| 0 <= i < 9 implies t[from + i] == #[trigger] "show_fps="@[i] by {
        assert(t.subrange(from, from + 9)[i] == t[from + i]);
    }
    assert(t[from] == "show_fps="@[0]);
    assert(t[from + 7] == "show_fps="@[7]);
    assert(t[from + 8] == "show_fps="@[8]);
    assert forall|i: int| from <= i < end implies t[i] != '\n' by {
        if i < from + 9 {
            assert(t[i] == "show_fps="@[i - from]);
        }
    }
    assert forall|i: int| from <= i < from + 8 implies t[i] != '=' by {
        assert(t[i] == "show_fps="@[i - from]);
    }
    lemma_find_char_hit(t, from, from + 8, end, '=');
    lemma_find_char_miss(t, from + 9, end, '=');
    assert(t.subrange(from, from + 8) =~= "show_fps"@) by {
        assert forall|i: int| 0 <= i < 8 implies t.subrange(from, from + 8)[i] == "show_fps"@[i] by {
            assert(t[from + i] == "show_fps="@[i]);
        }
    }
    assert(skip_spaces(t, from, end) == from);
    assert(drop_spaces(t, from, end) == end);
    assert(skip_spaces(t, from, from + 8) == from);
    assert(drop_spaces(t, from, from + 8) == from + 8);
    assert(skip_spaces(t, from + 9, end) == from + 9);
    assert(drop_spaces(t, from + 9, end) == end);
    let word = t.subrange(from + 9, end);
    assert(word.len() == 1 && word[0] == t[from + 9]);
    assert(is_true_word(word) == on) by {
        if on {
            assert(word =~= "1"@);
        } else {
            assert(word[0] != "1"@[0]);
        }
    }
}

/// What is written of settings whose volume is in its range is read back as
/// those settings.
pub proof fn lemma_written_settings_read_back(settings: Settings)
    requires
        0 <= settings.volume <= VOLUME_MAX,
    ensures
        settings_of(settings_text(settings)) == settings,
{
    reveal_strlit("volume=");
    reveal_strlit("difficulty=");
    reveal_strlit("show_fps=");
    reveal_strlit("\n");
    reveal_strlit("1");
    reveal_strlit("0");
    let t = settings_text(settings);
    let v = settings.volume as int;
    let n = volume_text(v).len() as int;
    let tier = decimal(settings.difficulty.tier() as nat);
    assert(tier =~= seq![digit_char(settings.difficulty.tier())]);
    lemma_volume_text_shape(v);
    let e1 = 7 + n;
    let l2 = e1 + 1;
    let e2 = l2 + 12;
    let l3 = e2 + 1;
    let e3 = l3 + 10;
    let l4 = e3 + 1;
    assert(t.len() == l4);
    assert(t.subrange(0, 7) =~= "volume="@);
    assert(t.subrange(7, e1) =~= volume_text(v));
    assert(t[e1] == '\n');
    assert(t.subrange(l2, l2 + 11) =~= "difficulty="@);
    assert(t[l2 + 11] == digit_char(settings.difficulty.tier()));
    assert(t[e2] == '\n');
    assert(t.subrange(l3, l3 + 9) =~= "show_fps="@);
    assert(t[l3 + 9] == (if settings.show_fps { '1' } else { '0' }));
    assert(t[e3] == '\n');
    let start = default_settings();
    let first = Settings { volume: settings.volume, ..start };
    let second = Settings { difficulty: settings.difficulty, ..first };
    lemma_volume_line_read(start, t, 0, v);
    lemma_difficulty_line_read(first, t, l2, settings.difficulty);
    lemma_flag_line_read(second, t, l3, settings.show_fps);
    lemma_find_char_hit(t, 0, e1, l4, '\n');
    lemma_find_char_hit(t, l2, e2, l4, '\n');
    lemma_find_char_hit(t, l3, e3, l4, '\n');
    assert(apply_line(settings, t, l4, l4) == settings);
    assert(read_lines(settings, t, l4) == settings);
    assert(read_lines(second, t, l3) == settings);
    assert(read_lines(first, t, l2) == settings);
    assert(read_lines(start, t, 0) == settings);
}

} // verus!
