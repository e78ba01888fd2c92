//! Text helpers: numerals, joining, searching and ASCII case folding.

use vstd::prelude::*;

verus! {

/// `String::push`: the character is appended at the end of the text.
pub assume_specification[ String::push ](text: &mut String, c: char)
    ensures
        final(text)@ == old(text)@.push(c),
;

/// The character that stands for a hexadecimal digit, lower case.
pub open spec fn digit_char(d: nat) -> char {
    if d == 0 {
        '0'
    } else if d == 1 {
        '1'
    } else if d == 2 {
        '2'
    } else if d == 3 {
        '3'
    } else if d == 4 {
        '4'
    } else if d == 5 {
        '5'
    } else if d == 6 {
        '6'
    } else if d == 7 {
        '7'
    } else if d == 8 {
        '8'
    } else if d == 9 {
        '9'
    } else if d == 10 {
        'a'
    } else if d == 11 {
        'b'
    } else if d == 12 {
        'c'
    } else if d == 13 {
        'd'
    } else if d == 14 {
        'e'
    } else {
        'f'
    }
}

/// The numeral of `n` in the given base, without leading zeros.
pub open spec fn numeral(n: nat, base: nat) -> Seq<char>
    decreases n,
{
    if base < 2 || n < base {
        seq![digit_char(n)]
    } else {
        proof {
            vstd::arithmetic::div_mod::lemma_div_decreases(n as int, base as int);
        }
        numeral(n / base, base).push(digit_char(n % base))
    }
}

/// The decimal numeral of `n`.
pub open spec fn decimal(n: nat) -> Seq<char> {
    numeral(n, 10)
}

/// The decimal numeral of `i`, with a minus sign when it is negative.
pub open spec fn signed_decimal(i: int) -> Seq<char> {
    if i < 0 {
        "-"@ + decimal((-i) as nat)
    } else {
        decimal(i as nat)
    }
}

/// The lower-case hexadecimal numeral of `n`.
pub open spec fn hexadecimal(n: nat) -> Seq<char> {
    numeral(n, 16)
}

fn digit_of(d: u64) -> (c: char)
    requires
        d < 16,
    ensures
        c == digit_char(d as nat),
{
    match d {
        0 => '0',
        1 => '1',
        2 => '2',
        3 => '3',
        4 => '4',
        5 => '5',
        6 => '6',
        7 => '7',
        8 => '8',
        9 => '9',
        10 => 'a',
        11 => 'b',
        12 => 'c',
        13 => 'd',
        14 => 'e',
        _ => 'f',
    }
}

fn numeral_text(n: u64, base: u64) -> (text: String)
    requires
        2 <= base <= 16,
    ensures
        text@ == numeral(n as nat, base as nat),
    decreases n,
{
    if n < base {
        let mut text = String::new();
        text.push(digit_of(n));
        proof {
            assert(Seq::<char>::empty().push(digit_char(n as nat)) == seq![digit_char(n as nat)]);
        }
        text
    } else {
        proof {
            vstd::arithmetic::div_mod::lemma_div_decreases(n as int, base as int);
            vstd::arithmetic::div_mod::lemma_mod_bound(n as int, base as int);
        }
        let mut text = numeral_text(n / base, base);
        text.push(digit_of(n % base));
        text
    }
}

/// The decimal numeral of `n` as text.
pub fn decimal_text(n: u64) -> (text: String)
    ensures
        text@ == decimal(n as nat),
{
    numeral_text(n, 10)
}

/// The decimal numeral of `i` as text, signed.
pub fn signed_decimal_text(i: i32) -> (text: String)
    ensures
        text@ == signed_decimal(i as int),
{
    let wide: i64 = i as i64;
    if wide < 0 {
        let magnitude: u64 = (-wide) as u64;
        "-".to_owned().concat(decimal_text(magnitude).as_str())
    } else {
        decimal_text(wide as u64)
    }
}

/// The lower-case hexadecimal numeral of `n` as text.
pub fn hexadecimal_text(n: u32) -> (text: String)
    ensures
        text@ == hexadecimal(n as nat),
{
    numeral_text(n as u64, 16)
}

/// The characters of a text, as a vector.
pub fn chars_of(text: &str) -> (chars: Vec<char>)
    ensures
        chars@ == text@,
{
    let mut out: Vec<char> = Vec::new();
    for c in it: text.chars()
        invariant
            it.seq() == text@,
            out@ == text@.take(it.index() as int),
    {
        out.push(c);
        assert(text@.take(it.index() + 1) == text@.take(it.index() as int).push(c));
    }
    assert(text@.take(text@.len() as int) == text@);
    out
}

/// Whether two texts hold the same characters.
pub fn same_text(a: &str, b: &str) -> (same: bool)
    ensures
        same == (a@ == b@),
{
    let left = chars_of(a);
    let right = chars_of(b);
    if left.len() != right.len() {
        return false;
    }
    for i in 0..left.len()
        invariant
            left@ == a@,
            right@ == b@,
            left@.len() == right@.len(),
            forall|j: int| 0 <= j < i ==> a@[j] == b@[j],
    {
        if left[i] != right[i] {
            return false;
        }
    }
    assert(a@ =~= b@);
    true
}

/// ASCII lower case of one character; every other character is kept.
pub open spec fn lower_char(c: char) -> char {
    if 'A' <= c <= 'Z' {
        ((c as u8) + 32) as char
    } else {
        c
    }
}

/// ASCII lower case of a text, character by character.
pub open spec fn lowered(text: Seq<char>) -> Seq<char> {
    Seq::new(text.len(), |i: int| lower_char(text[i]))
}

/// The text with its ASCII capitals made small.
pub fn ascii_lowercase(text: &str) -> (lower: String)
    ensures
        lower@ == lowered(text@),
{
    let chars = chars_of(text);
    let mut out = String::new();
    for i in 0..chars.len()
        invariant
            chars@ == text@,
            out@ == lowered(text@).take(i as int),
    {
        let c = chars[i];
        if 'A' <= c && c <= 'Z' {
            out.push(((c as u8) + 32) as char);
        } else {
            out.push(c);
        }
        assert(lowered(text@).take(i + 1) == lowered(text@).take(i as int).push(
            lower_char(text@[i as int]),
        ));
    }
    assert(lowered(text@).take(text@.len() as int) == lowered(text@));
    out
}

/// Whether a character is white space: it has the Unicode property `White_Space`.
pub open spec fn is_white(c: char) -> bool {
    ||| '\u{9}' <= c <= '\u{d}'
    ||| c == ' '
    ||| c == '\u{85}'
    ||| c == '\u{a0}'
    ||| c == '\u{1680}'
    ||| '\u{2000}' <= c <= '\u{200a}'
    ||| c == '\u{2028}'
    ||| c == '\u{2029}'
    ||| c == '\u{202f}'
    ||| c == '\u{205f}'
    ||| c == '\u{3000}'
}

/// A text without the white space at its ends.
pub open spec fn trimmed(text: Seq<char>) -> Seq<char>
    decreases text.len(),
{
    if text.len() == 0 {
        text
    } else if is_white(text.first()) {
        trimmed(text.drop_first())
    } else if is_white(text.last()) {
        trimmed(text.drop_last())
    } else {
        text
    }
}

fn is_white_space(c: char) -> (white: bool)
    ensures
        white == is_white(c),
{
    ('\u{9}' <= c && c <= '\u{d}') || c == ' ' || c == '\u{85}' || c == '\u{a0}' || c == '\u{1680}'
        || ('\u{2000}' <= c && c <= '\u{200a}') || c == '\u{2028}' || c == '\u{2029}' || c
        == '\u{202f}' || c == '\u{205f}' || c == '\u{3000}'
}

/// A text without the white space at its ends.
pub fn trim_text(text: &str) -> (inner: String)
    ensures
        inner@ == trimmed(text@),
{
    let chars = chars_of(text);
    let mut start: usize = 0;
    let mut end: usize = chars.len();
    assert(text@.subrange(0, end as int) =~= text@);
    while start < end && is_white_space(chars[start])
        invariant
            chars@ == text@,
            start <= end == text@.len(),
            trimmed(text@) == trimmed(text@.subrange(start as int, end as int)),
        decreases end - start,
    {
        let ghost rest = text@.subrange(start as int, end as int);
        assert(rest.drop_first() =~= text@.subrange(start + 1, end as int));
        start = start + 1;
    }
    while start < end && is_white_space(chars[end - 1])
        invariant
            chars@ == text@,
            start <= end <= text@.len(),
            start < end ==> !is_white(text@[start as int]),
            trimmed(text@) == trimmed(text@.subrange(start as int, end as int)),
        decreases end,
    {
        let ghost rest = text@.subrange(start as int, end as int);
        assert(rest.drop_last() =~= text@.subrange(start as int, end - 1));
        end = end - 1;
    }
    let mut inner = String::new();
    for i in start..end
        invariant
            chars@ == text@,
            start <= end <= text@.len(),
            inner@ == text@.subrange(start as int, i as int),
    {
        inner.push(chars[i]);
        assert(text@.subrange(start as int, i + 1) =~= text@.subrange(
            start as int,
            i as int,
        ).push(text@[i as int]));
    }
    inner
}

/// Whether `needle` occurs in `text` at character position `at`.
pub open spec fn occurs_at(text: Seq<char>, needle: Seq<char>, at: int) -> bool {
    &&& 0 <= at <= text.len() - needle.len()
    &&& text.subrange(at, at + needle.len()) == needle
}

/// Whether `needle` occurs somewhere in `text`.
pub open spec fn occurs_in(text: Seq<char>, needle: Seq<char>) -> bool {
    exists|at: int| occurs_at(text, needle, at)
}

fn matches_at(text: &Vec<char>, needle: &Vec<char>, at: usize) -> (found: bool)
    requires
        at + needle@.len() <= text@.len(),
    ensures
        found == occurs_at(text@, needle@, at as int),
{
    let size: usize = text.len();
    for i in 0..needle.len()
        invariant
            size == text@.len(),
            at + needle@.len() <= size,
            forall|k: int| 0 <= k < i ==> text@[at + k] == needle@[k],
    {
        if text[at + i] != needle[i] {
            assert(text@.subrange(at as int, at + needle@.len())[i as int] == text@[at + i]);
            return false;
        }
    }
    assert(text@.subrange(at as int, at + needle@.len()) =~= needle@);
    true
}

/// Whether `needle` occurs somewhere in `text`.
pub fn contains_text(text: &str, needle: &str) -> (found: bool)
    ensures
        found == occurs_in(text@, needle@),
{
    let hay = chars_of(text);
    let pin = chars_of(needle);
    if pin.len() > hay.len() {
        return false;
    }
    let last: usize = hay.len() - pin.len();
    let mut at: usize = 0;
    while at <= last
        invariant
            hay@ == text@,
            pin@ == needle@,
            last == hay@.len() - pin@.len(),
            at <= last + 1,
            forall|k: int| 0 <= k < at ==> !occurs_at(text@, needle@, k),
        decreases last + 1 - at,
    {
        if matches_at(&hay, &pin, at) {
            return true;
        }
        if at == last {
            return false;
        }
        at = at + 1;
    }
    false
}

/// The texts held by a sequence of strings.
pub open spec fn texts(strings: Seq<String>) -> Seq<Seq<char>> {
    Seq::new(strings.len(), |i: int| strings[i]@)
}

/// The parts one after the other, with `separator` between neighbours.
pub open spec fn joined(parts: Seq<Seq<char>>, separator: Seq<char>) -> Seq<char>
    decreases parts.len(),
{
    if parts.len() == 0 {
        Seq::empty()
    } else if parts.len() == 1 {
        parts[0]
    } else {
        joined(parts.drop_last(), separator) + separator + parts.last()
    }
}

/// Join strings with a separator.
pub fn join_texts(parts: &Vec<String>, separator: &str) -> (text: String)
    ensures
        text@ == joined(texts(parts@), separator@),
{
    let mut out = String::new();
    for i in 0..parts.len()
        invariant
            out@ == joined(texts(parts@).take(i as int), separator@),
    {
        if i > 0 {
            out.append(separator);
        }
        out.append(parts[i].as_str());
        assert(texts(parts@).take(i + 1).drop_last() == texts(parts@).take(i as int));
        assert(texts(parts@).take(i + 1).last() == parts@[i as int]@);
        if i == 0 {
            assert(out@ == parts@[0]@);
        }
    }
    assert(texts(parts@).take(parts@.len() as int) == texts(parts@));
    out
}

// ---------------------------------------------------------------------------
// Text from outside
// ---------------------------------------------------------------------------

/// The text that bytes are read as: UTF-8, with replacement characters for what
/// is not.
pub uninterp spec fn lossy_text(bytes: Seq<u8>) -> Seq<char>;

/// A text in quotes, with escapes, as it is shown for debugging.
pub uninterp spec fn quoted(text: Seq<char>) -> Seq<char>;

/// `String::from_utf8_lossy`: the text that the bytes are read as.
#[verifier::external_body]
pub(crate) fn read_lossy(bytes: &Vec<u8>) -> (text: String)
    ensures
        text@ == lossy_text(bytes@),
{
    String::from_utf8_lossy(bytes).into_owned()
}

/// The `Debug` form of `str`: the text in quotes, with escapes.
#[verifier::external_body]
pub(crate) fn quote_text(text: &str) -> (shown: String)
    ensures
        shown@ == quoted(text@),
{
    format!("{text:?}")
}

/// The text of a truth value.
pub open spec fn truth(flag: bool) -> Seq<char> {
    if flag {
        "true"@
    } else {
        "false"@
    }
}

/// The text of a truth value.
pub fn truth_text(flag: bool) -> (text: &'static str)
    ensures
        text@ == truth(flag),
{
    if flag {
        "true"
    } else {
        "false"
    }
}

/// Whether an environment value switches a feature on: `1`, `true`, `yes` or `on`,
/// in any case.
pub open spec fn switches_on(value: Seq<char>) -> bool {
    let lower = lowered(value);
    lower == "1"@ || lower == "true"@ || lower == "yes"@ || lower == "on"@
}

/// Whether an environment value switches a feature on.
pub fn is_switched_on(value: &str) -> (on: bool)
    ensures
        on == switches_on(value@),
{
    let lower = ascii_lowercase(value);
    same_text(lower.as_str(), "1") || same_text(lower.as_str(), "true") || same_text(
        lower.as_str(),
        "yes",
    ) || same_text(lower.as_str(), "on")
}

/// Whether an environment value switches a feature off: `0`, `false` or `off`, in
/// any case.
pub open spec fn switches_off(value: Seq<char>) -> bool {
    let lower = lowered(value);
    lower == "0"@ || lower == "false"@ || lower == "off"@
}

/// Whether an environment value switches a feature off.
pub fn is_switched_off(value: &str) -> (off: bool)
    ensures
        off == switches_off(value@),
{
    let lower = ascii_lowercase(value);
    same_text(lower.as_str(), "0") || same_text(lower.as_str(), "false") || same_text(
        lower.as_str(),
        "off",
    )
}

/// The value of a digit, by its place in ASCII.
pub open spec fn digit_value(c: char) -> int {
    if '0' <= c <= '9' {
        c as int - 48
    } else {
        c as int - 87
    }
}

/// The value of a numeral, read from the left.
pub open spec fn numeral_value(digits: Seq<char>, base: int) -> int
    decreases digits.len(),
{
    if digits.len() == 0 {
        0
    } else {
        numeral_value(digits.drop_last(), base) * base + digit_value(digits.last())
    }
}

proof fn digits_have_their_values(d: nat)
    requires
        d < 16,
    ensures
        digit_value(digit_char(d)) == d,
        '0' <= digit_char(d) <= '9' || 'a' <= digit_char(d) <= 'f',
        d < 10 ==> '0' <= digit_char(d) <= '9',
{
}

/// A numeral reads back as its number, has only digits, and starts with 0 only where it
/// is 0.
pub proof fn numerals_read_back(n: nat, base: nat)
    requires
        2 <= base <= 16,
    ensures
        numeral_value(numeral(n, base), base as int) == n,
        numeral(n, base).len() > 0,
        forall|i: int|
            0 <= i < numeral(n, base).len() ==> {
                let c = #[trigger] numeral(n, base)[i];
                '0' <= c <= '9' || (base > 10 && 'a' <= c <= 'f')
            },
        n > 0 ==> numeral(n, base)[0] != '0',
        n < base ==> numeral(n, base).len() == 1,
    decreases n,
{
    if n < base {
        digits_have_their_values(n);
        assert(numeral(n, base).drop_last() =~= Seq::<char>::empty());
        assert(numeral_value(Seq::<char>::empty(), base as int) == 0);
        assert(numeral(n, base) =~= seq![digit_char(n)]);
        assert(0 * base == 0) by (nonlinear_arith);
    } else {
        vstd::arithmetic::div_mod::lemma_div_decreases(n as int, base as int);
        vstd::arithmetic::div_mod::lemma_fundamental_div_mod(n as int, base as int);
        vstd::arithmetic::div_mod::lemma_mod_bound(n as int, base as int);
        assert(n / base > 0) by (nonlinear_arith)
            requires
                n >= base,
                base >= 2,
        ;
        numerals_read_back(n / base, base);
        digits_have_their_values(n % base);
        let front = numeral(n / base, base);
        assert(numeral(n, base).drop_last() =~= front);
        assert(numeral(n, base)[0] == front[0]);
        assert((n / base) * base == base * (n / base)) by (nonlinear_arith);
    }
}

/// Numbers are written to base 10 and 16; different numbers are written differently.
pub proof fn numbers_are_told_apart(n: nat, m: nat)
    ensures
        numeral_value(decimal(n), 10) == n,
        numeral_value(hexadecimal(n), 16) == n,
        decimal(n) == decimal(m) ==> n == m,
        hexadecimal(n) == hexadecimal(m) ==> n == m,
{
    numerals_read_back(n, 10);
    numerals_read_back(n, 16);
    numerals_read_back(m, 10);
    numerals_read_back(m, 16);
}

/// A negative number is a minus sign and its absolute value; another has no sign.
pub proof fn negative_numbers_have_a_sign(i: int)
    ensures
        i >= 0 ==> numeral_value(signed_decimal(i), 10) == i,
        i >= 0 ==> signed_decimal(i)[0] != '-',
        i < 0 ==> signed_decimal(i)[0] == '-' && numeral_value(signed_decimal(i).skip(1), 10) == -i,
{
    reveal_strlit("-");
    if i >= 0 {
        numerals_read_back(i as nat, 10);
    } else {
        numerals_read_back((-i) as nat, 10);
        assert(signed_decimal(i).skip(1) =~= decimal((-i) as nat));
    }
}

/// Lower case keeps the length of a text; only the 26 ASCII capitals change, each by 32.
pub proof fn only_capitals_are_lowered(text: Seq<char>, i: int)
    requires
        0 <= i < text.len(),
    ensures
        lowered(text).len() == text.len(),
        65 <= text[i] as int <= 90 ==> lowered(text)[i] as int == text[i] as int + 32,
        !(65 <= text[i] as int <= 90) ==> lowered(text)[i] == text[i],
{
}

/// Lower case twice is lower case once, so switches are read the same in any case.
pub proof fn switches_are_read_in_any_case(one: Seq<char>, other: Seq<char>)
    ensures
        lowered(lowered(one)) == lowered(one),
        lowered(one) == lowered(other) ==> switches_on(one) == switches_on(other) && switches_off(
            one,
        ) == switches_off(other),
        switches_on(one) ==> !switches_off(one),
        switches_on("1"@) && switches_on("true"@) && switches_on("yes"@) && switches_on("on"@),
        switches_off("0"@) && switches_off("false"@) && switches_off("off"@),
        one.len() == 0 || one.len() > 5 ==> !switches_on(one) && !switches_off(one),
{
    reveal_strlit("1");
    reveal_strlit("true");
    reveal_strlit("yes");
    reveal_strlit("on");
    reveal_strlit("0");
    reveal_strlit("false");
    reveal_strlit("off");
    assert(lowered(lowered(one)) =~= lowered(one));
    assert(lowered("1"@) =~= "1"@);
    assert(lowered("true"@) =~= "true"@);
    assert(lowered("yes"@) =~= "yes"@);
    assert(lowered("on"@) =~= "on"@);
    assert(lowered("0"@) =~= "0"@);
    assert(lowered("false"@) =~= "false"@);
    assert(lowered("off"@) =~= "off"@);
    let lower = lowered(one);
    assert("1"@[0] == '1');
    assert("true"@[0] == 't');
    assert("yes"@[0] == 'y');
    assert("on"@[1] == 'n');
    assert("0"@[0] == '0');
    assert("false"@[0] == 'f');
    assert("off"@.len() == 3 && "off"@[0] == 'o');
}

/// Whether every character of a text is white space.
pub open spec fn blank(text: Seq<char>) -> bool {
    forall|i: int| 0 <= i < text.len() ==> is_white(#[trigger] text[i])
}

/// What is cut off the ends of a text is white space, and what is left neither starts
/// nor ends with any.
pub proof fn only_white_space_is_cut(text: Seq<char>) -> (ends: (Seq<char>, Seq<char>))
    ensures
        text == ends.0 + trimmed(text) + ends.1,
        blank(ends.0),
        blank(ends.1),
        trimmed(text).len() > 0 ==> !is_white(trimmed(text)[0]) && !is_white(
            trimmed(text)[trimmed(text).len() - 1],
        ),
    decreases text.len(),
{
    if text.len() == 0 {
        assert(text =~= Seq::<char>::empty() + text + Seq::<char>::empty());
        (Seq::empty(), Seq::empty())
    } else if is_white(text.first()) {
        let rest = text.drop_first();
        let (front, back) = only_white_space_is_cut(rest);
        let ahead = seq![text[0]] + front;
        assert(text =~= seq![text[0]] + rest);
        assert(seq![text[0]] + (front + trimmed(rest) + back) =~= ahead + trimmed(rest) + back);
        assert(trimmed(text) == trimmed(rest));
        (ahead, back)
    } else if is_white(text.last()) {
        let rest = text.drop_last();
        let (front, back) = only_white_space_is_cut(rest);
        let behind = back.push(text.last());
        assert(text =~= rest.push(text.last()));
        assert((front + trimmed(rest) + back).push(text.last()) =~= front + trimmed(rest) + behind);
        assert(trimmed(text) == trimmed(rest));
        (front, behind)
    } else {
        assert(text =~= Seq::<char>::empty() + text + Seq::<char>::empty());
        (Seq::empty(), Seq::empty())
    }
}

/// ASCII has six white characters: the space, and those from tab to carriage return.
pub proof fn ascii_white_space(c: char)
    ensures
        (c as int) < 128 ==> (is_white(c) <==> c as int == 32 || 9 <= c as int <= 13),
{
}

/// Joined parts read from the left: the first part, the separator, and the others
/// joined. No separator stands at an end.
pub proof fn parts_are_joined_in_order(
    first: Seq<char>,
    others: Seq<Seq<char>>,
    separator: Seq<char>,
)
    ensures
        joined(Seq::<Seq<char>>::empty(), separator).len() == 0,
        joined(seq![first] + others, separator) == (if others.len() == 0 {
            first
        } else {
            first + separator + joined(others, separator)
        }),
    decreases others.len(),
{
    let all = seq![first] + others;
    if others.len() == 1 {
        assert(all.drop_last() =~= seq![first]);
        assert(all.last() == others[0]);
        assert(joined(seq![first], separator) == first);
    } else if others.len() > 1 {
        parts_are_joined_in_order(first, others.drop_last(), separator);
        assert(all.drop_last() =~= seq![first] + others.drop_last());
        assert(all.last() == others.last());
        assert(joined(all, separator) =~= first + separator + joined(others, separator));
    }
}

/// A text occurs in another exactly where that is something, the text, and something.
pub proof fn texts_are_found_inside(before: Seq<char>, needle: Seq<char>, after: Seq<char>)
    ensures
        occurs_in(before + needle + after, needle),
{
    let text = before + needle + after;
    assert(text.subrange(before.len() as int, (before.len() + needle.len()) as int) =~= needle);
    assert(occurs_at(text, needle, before.len() as int));
}

/// A text that is found in another is a part of it.
pub proof fn found_texts_are_inside(text: Seq<char>, needle: Seq<char>)
    requires
        occurs_in(text, needle),
    ensures
        exists|before: Seq<char>, after: Seq<char>| text == #[trigger] (before + needle + after),
{
    let at = choose|at: int| occurs_at(text, needle, at);
    let before = text.take(at);
    let after = text.skip(at + needle.len());
    assert(text =~= before + needle + after);
}

} // verus!
