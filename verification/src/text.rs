//! Numbers as text, text as numbers, and white space.
use vstd::prelude::*;
use vstd::string::*;

verus! {

// ---------------------------------------------------------------- digits

/// The character of a digit, `0` to `9` and on to `f`.
pub open spec fn digit_char(d: nat) -> char {
    if d < 10 {
        ('0' as nat + d) as char
    } else {
        ('a' as nat + (d - 10)) as char
    }
}

/// `n` written in `base`, with no needless leading zero.
pub open spec fn digits(n: nat, base: nat) -> Seq<char>
    decreases n,
{
    if base < 2 || n < base {
        seq![digit_char(n)]
    } else {
        proof {
            vstd::arithmetic::div_mod::lemma_div_decreases(n as int, base as int);
        }
        digits(n / base, base).push(digit_char(n % base))
    }
}

/// A number in decimal notation.
pub open spec fn decimal(n: int) -> Seq<char> {
    if n < 0 {
        seq!['-'] + digits((-n) as nat, 10)
    } else {
        digits(n as nat, 10)
    }
}

/// A number in hexadecimal notation, marked as such.
pub open spec fn hex(n: nat) -> Seq<char> {
    seq!['0', 'x'] + digits(n, 16)
}

/// The 32 bits of a signed number, read as an unsigned one.
pub open spec fn bits_of(n: i32) -> nat {
    if n < 0 {
        (n + 0x1_0000_0000) as nat
    } else {
        n as nat
    }
}

/// `true` or `false`.
pub open spec fn truth(b: bool) -> Seq<char> {
    if b {
        "true"@
    } else {
        "false"@
    }
}

fn digit_str(d: u64) -> (r: &'static str)
    requires
        d < 16,
    ensures
        r@ == seq![digit_char(d as nat)],
{
    proof {
        reveal_strlit("0");
        reveal_strlit("1");
        reveal_strlit("2");
        reveal_strlit("3");
        reveal_strlit("4");
        reveal_strlit("5");
        reveal_strlit("6");
        reveal_strlit("7");
        reveal_strlit("8");
        reveal_strlit("9");
        reveal_strlit("a");
        reveal_strlit("b");
        reveal_strlit("c");
        reveal_strlit("d");
        reveal_strlit("e");
        reveal_strlit("f");
    }
    match d {
        0 => "0",
        1 => "1",
        2 => "2",
        3 => "3",
        4 => "4",
        5 => "5",
        6 => "6",
        7 => "7",
        8 => "8",
        9 => "9",
        10 => "a",
        11 => "b",
        12 => "c",
        13 => "d",
        14 => "e",
        _ => "f",
    }
}

fn push_digits(out: &mut String, n: u64, base: u64)
    requires
        2 <= base <= 16,
    ensures
        final(out)@ == old(out)@ + digits(n as nat, base as nat),
    decreases n,
{
    if n < base {
        out.append(digit_str(n));
    } else {
        proof {
            vstd::arithmetic::div_mod::lemma_div_decreases(n as int, base as int);
            vstd::arithmetic::div_mod::lemma_mod_bound(n as int, base as int);
        }
        push_digits(out, n / base, base);
        out.append(digit_str(n % base));
    }
}

/// Appends a number in decimal notation.
pub fn push_decimal(out: &mut String, n: i64)
    ensures
        final(out)@ == old(out)@ + decimal(n as int),
{
    if n < 0 {
        proof {
            reveal_strlit("-");
        }
        out.append("-");
        let magnitude: u64 = (-(n + 1)) as u64 + 1;
        push_digits(out, magnitude, 10);
    } else {
        push_digits(out, n as u64, 10);
    }
}

/// Appends a number in hexadecimal notation.
pub fn push_hex(out: &mut String, n: u64)
    ensures
        final(out)@ == old(out)@ + hex(n as nat),
{
    proof {
        reveal_strlit("0x");
    }
    out.append("0x");
    push_digits(out, n, 16);
}

/// Appends the bits of a signed number in hexadecimal notation.
pub fn push_hex_bits(out: &mut String, n: i32)
    ensures
        final(out)@ == old(out)@ + hex(bits_of(n)),
{
    let bits: u32 = n as u32;
    proof {
        assert(bits == bits_of(n)) by {
            assert(n >= 0 ==> n as u32 == n) by (bit_vector);
            assert(n < 0 ==> n as u32 == n + 0x1_0000_0000) by (bit_vector);
        }
    }
    push_hex(out, bits as u64);
}

/// Appends `true` or `false`.
pub fn push_truth(out: &mut String, b: bool)
    ensures
        final(out)@ == old(out)@ + truth(b),
{
    if b {
        out.append("true");
    } else {
        out.append("false");
    }
}

// --------------------------------------------------------------- parsing

/// Whether `c` is a decimal digit.
pub open spec fn is_digit(c: char) -> bool {
    '0' <= c <= '9'
}

/// The number that a row of decimal digits denotes.
pub open spec fn digits_value(s: Seq<char>) -> int
    decreases s.len(),
{
    if s.len() == 0 {
        0
    } else {
        digits_value(s.drop_last()) * 10 + (s.last() as int - '0' as int)
    }
}

/// What is left of a number's text behind an optional plus sign.
pub open spec fn unsigned_part(s: Seq<char>) -> Seq<char> {
    if s.len() > 0 && s[0] == '+' {
        s.skip(1)
    } else {
        s
    }
}

/// The count that a text denotes: at least one decimal digit and nothing else
/// behind an optional plus sign, and a value of at most 32 bits.
pub open spec fn parsed_count(s: Seq<char>) -> Option<u32> {
    let body = unsigned_part(s);
    if body.len() > 0 && (forall|i: int| 0 <= i < body.len() ==> is_digit(#[trigger] body[i]))
        && digits_value(body) <= u32::MAX {
        Some(digits_value(body) as u32)
    } else {
        None
    }
}

proof fn lemma_prefix_value(s: Seq<char>, n: int)
    requires
        0 <= n <= s.len(),
        forall|i: int| 0 <= i < s.len() ==> is_digit(#[trigger] s[i]),
    ensures
        0 <= digits_value(s.take(n)) <= digits_value(s),
    decreases s.len(),
{
    if n == s.len() {
        assert(s.take(n) =~= s);
        if n > 0 {
            lemma_prefix_value(s.drop_last(), n - 1);
        }
    } else {
        lemma_prefix_value(s.drop_last(), n);
        assert(s.drop_last().take(n) =~= s.take(n));
        assert(is_digit(s[s.len() - 1]));
    }
}

/// The characters of a text, one by one.
pub fn chars_of(s: &str) -> (r: Vec<char>)
    ensures
        r@ == s@,
{
    let mut out: Vec<char> = Vec::new();
    for c in it: s.chars()
        invariant
            out@ == it.seq().take(it.index()),
            it.seq() == s@,
    {
        out.push(c);
        assert(it.seq().take(it.index()).push(c) =~= it.seq().take(it.index() + 1));
    }
    out
}

/// Reads a count, or nothing where the text is not one.
pub fn parse_count(s: &str) -> (r: Option<u32>)
    ensures
        r == parsed_count(s@),
{
    let cs = chars_of(s);
    let start: usize = if cs.len() > 0 && cs[0] == '+' {
        1
    } else {
        0
    };
    let ghost body = unsigned_part(s@);
    assert(body =~= cs@.skip(start as int));
    if start == cs.len() {
        return None;
    }
    let mut value: u64 = 0;
    let mut i: usize = start;
    assert(body.take(0) =~= Seq::<char>::empty());
    while i < cs.len()
        invariant
            start <= i <= cs.len(),
            start <= 1,
            body == cs@.skip(start as int),
            body == unsigned_part(s@),
            value <= u32::MAX,
            value == digits_value(body.take(i - start)),
            forall|j: int| 0 <= j < i - start ==> is_digit(#[trigger] body[j]),
        decreases cs.len() - i,
    {
        let c = cs[i];
        assert(body[i - start] == c);
        if c < '0' || c > '9' {
            assert(!is_digit(body[i - start]));
            return None;
        }
        let ghost longer = body.take(i - start + 1);
        assert(longer.drop_last() =~= body.take(i - start));
        value = value * 10 + (c as u64 - '0' as u64);
        assert(value == digits_value(longer));
        if value > u32::MAX as u64 {
            proof {
                if forall|j: int| 0 <= j < body.len() ==> is_digit(#[trigger] body[j]) {
                    lemma_prefix_value(body, i - start + 1);
                }
            }
            return None;
        }
        i = i + 1;
    }
    assert(body.take(i - start) =~= body);
    Some(value as u32)
}

// ----------------------------------------------------------- white space

/// Whether a character has the Unicode property `White_Space`.
pub open spec fn white_space(c: char) -> bool {
    let u = c as u32;
    ||| 0x09 <= u <= 0x0d
    ||| u == 0x20
    ||| u == 0x85
    ||| u == 0xa0
    ||| u == 0x1680
    ||| 0x2000 <= u <= 0x200a
    ||| u == 0x2028
    ||| u == 0x2029
    ||| u == 0x202f
    ||| u == 0x205f
    ||| u == 0x3000
}

/// A text without the white space at its end.
pub open spec fn without_end(s: Seq<char>) -> Seq<char>
    decreases s.len(),
{
    if s.len() > 0 && white_space(s.last()) {
        without_end(s.drop_last())
    } else {
        s
    }
}

/// A text without the white space at its start.
pub open spec fn without_start(s: Seq<char>) -> Seq<char>
    decreases s.len(),
{
    if s.len() > 0 && white_space(s[0]) {
        without_start(s.skip(1))
    } else {
        s
    }
}

/// A text without the white space around it.
pub open spec fn trimmed(s: Seq<char>) -> Seq<char> {
    without_start(without_end(s))
}

/// A text up to its first white space.
pub open spec fn up_to_space(s: Seq<char>) -> Seq<char>
    decreases s.len(),
{
    if s.len() == 0 || white_space(s[0]) {
        Seq::empty()
    } else {
        seq![s[0]] + up_to_space(s.skip(1))
    }
}

/// The first of the words that white space separates.
pub open spec fn first_word(s: Seq<char>) -> Option<Seq<char>> {
    let rest = without_start(s);
    if rest.len() == 0 {
        None
    } else {
        Some(up_to_space(rest))
    }
}

/// Tells white space from other characters.
pub fn is_white_space(c: char) -> (r: bool)
    ensures
        r == white_space(c),
{
    let u: u32 = c as u32;
    (0x09 <= u && u <= 0x0d) || u == 0x20 || u == 0x85 || u == 0xa0 || u == 0x1680 || (0x2000 <= u
        && u <= 0x200a) || u == 0x2028 || u == 0x2029 || u == 0x202f || u == 0x205f || u == 0x3000
}

/// How many characters come before the white space at the end.
fn end_of_text(cs: &Vec<char>) -> (r: usize)
    ensures
        r <= cs.len(),
        cs@.take(r as int) == without_end(cs@),
{
    let mut to: usize = cs.len();
    assert(cs@.take(to as int) =~= cs@);
    while to > 0 && is_white_space(cs[to - 1])
        invariant
            to <= cs.len(),
            without_end(cs@.take(to as int)) == without_end(cs@),
        decreases to,
    {
        assert(cs@.take(to as int).drop_last() =~= cs@.take(to - 1));
        to = to - 1;
    }
    to
}

/// How many of the characters before `to` are white space at the start.
fn start_of_text(cs: &Vec<char>, to: usize) -> (r: usize)
    requires
        to <= cs.len(),
    ensures
        r <= to,
        cs@.subrange(r as int, to as int) == without_start(cs@.take(to as int)),
{
    let mut from: usize = 0;
    assert(cs@.subrange(0, to as int) =~= cs@.take(to as int));
    while from < to && is_white_space(cs[from])
        invariant
            from <= to <= cs.len(),
            without_start(cs@.subrange(from as int, to as int)) == without_start(
                cs@.take(to as int),
            ),
        decreases to - from,
    {
        assert(cs@.subrange(from as int, to as int).skip(1) =~= cs@.subrange(
            from + 1,
            to as int,
        ));
        from = from + 1;
    }
    from
}

/// Removes the white space at the end.
pub fn trim_end(s: &str) -> (r: &str)
    ensures
        r@ == without_end(s@),
{
    let cs = chars_of(s);
    let to = end_of_text(&cs);
    assert(s@.subrange(0, to as int) =~= s@.take(to as int));
    s.substring_char(0, to)
}

/// Removes the white space around a text.
pub fn trim(s: &str) -> (r: &str)
    ensures
        r@ == trimmed(s@),
{
    let cs = chars_of(s);
    let to = end_of_text(&cs);
    let from = start_of_text(&cs, to);
    s.substring_char(from, to)
}

proof fn lemma_up_to_space(s: Seq<char>, n: int)
    requires
        0 <= n <= s.len(),
        forall|i: int| 0 <= i < n ==> !white_space(#[trigger] s[i]),
        n < s.len() ==> white_space(s[n]),
    ensures
        up_to_space(s) == s.take(n),
    decreases n,
{
    if n > 0 {
        assert(!white_space(s[0]));
        assert forall|i: int| 0 <= i < n - 1 implies !white_space(#[trigger] s.skip(1)[i]) by {
            assert(!white_space(s[i + 1]));
        }
        lemma_up_to_space(s.skip(1), n - 1);
        assert(seq![s[0]] + s.skip(1).take(n - 1) =~= s.take(n));
    } else {
        assert(s.take(0) =~= Seq::<char>::empty());
    }
}

/// Takes the first word, where there is one.
pub fn take_word(s: &str) -> (r: Option<&str>)
    ensures
        match r {
            Some(w) => first_word(s@) == Some(w@),
            None => first_word(s@) is None,
        },
{
    let cs = chars_of(s);
    let len: usize = cs.len();
    let from = start_of_text(&cs, len);
    let ghost rest = without_start(s@);
    assert(cs@.take(len as int) =~= s@);
    assert(rest == cs@.subrange(from as int, len as int));
    if from == len {
        return None;
    }
    let mut to: usize = from;
    while to < len && !is_white_space(cs[to])
        invariant
            from <= to <= len,
            len == cs.len(),
            rest == cs@.subrange(from as int, len as int),
            forall|i: int| 0 <= i < to - from ==> !white_space(#[trigger] rest[i]),
        decreases len - to,
    {
        assert(rest[to - from] == cs@[to as int]);
        to = to + 1;
    }
    proof {
        if to < len {
            assert(rest[to - from] == cs@[to as int]);
        }
        lemma_up_to_space(rest, to - from);
        assert(rest.take(to - from) =~= s@.subrange(from as int, to as int));
    }
    Some(s.substring_char(from, to))
}

// ------------------------------------------------------------------ laws

proof fn lemma_digits_read_back(n: nat)
    ensures
        digits(n, 10).len() > 0,
        forall|i: int| 0 <= i < digits(n, 10).len() ==> is_digit(#[trigger] digits(n, 10)[i]),
        digits_value(digits(n, 10)) == n,
    decreases n,
{
    reveal_with_fuel(digits_value, 2);
    if n >= 10 {
        lemma_digits_read_back(n / 10);
        let shorter = digits(n / 10, 10);
        assert(digits(n, 10) == shorter.push(digit_char(n % 10)));
        assert(digits(n, 10).drop_last() =~= shorter);
        assert forall|i: int| 0 <= i < digits(n, 10).len() implies is_digit(
            #[trigger] digits(n, 10)[i],
        ) by {
            if i < shorter.len() {
                assert(is_digit(shorter[i]));
            }
        }
    } else {
        assert(digits(n, 10).drop_last() =~= Seq::<char>::empty());
    }
}

/// A count written in decimal notation, with or without a plus sign in front,
/// is read back as itself.
pub proof fn law_count_reads_back(n: u32)
    ensures
        parsed_count(decimal(n as int)) == Some(n),
        parsed_count(seq!['+'] + decimal(n as int)) == Some(n),
{
    let plain = decimal(n as int);
    lemma_digits_read_back(n as nat);
    assert(is_digit(plain[0]));
    assert(unsigned_part(plain) == plain);
    assert((seq!['+'] + plain).skip(1) =~= plain);
    assert(unsigned_part(seq!['+'] + plain) == plain);
}

/// No two numbers have the same decimal notation.
pub proof fn law_decimal_is_injective(m: int, n: int)
    requires
        decimal(m) == decimal(n),
    ensures
        m == n,
{
    let a: nat = if m < 0 { (-m) as nat } else { m as nat };
    let b: nat = if n < 0 { (-n) as nat } else { n as nat };
    lemma_digits_read_back(a);
    lemma_digits_read_back(b);
    assert(is_digit(digits(a, 10)[0]));
    assert(is_digit(digits(b, 10)[0]));
    assert(!is_digit('-'));
    if m < 0 {
        assert(decimal(m)[0] == '-');
        assert(n < 0);
        assert(decimal(m).skip(1) =~= digits(a, 10));
        assert(decimal(n).skip(1) =~= digits(b, 10));
    } else {
        assert(decimal(m)[0] == digits(a, 10)[0]);
        if n < 0 {
            assert(decimal(n)[0] == '-');
        }
    }
}

proof fn lemma_without_end(s: Seq<char>) -> (to: int)
    ensures
        0 <= to <= s.len(),
        without_end(s) == s.take(to),
        to > 0 ==> !white_space(s[to - 1]),
        forall|i: int| to <= i < s.len() ==> white_space(#[trigger] s[i]),
    decreases s.len(),
{
    if s.len() > 0 && white_space(s.last()) {
        let to = lemma_without_end(s.drop_last());
        assert(s.drop_last().take(to) =~= s.take(to));
        assert forall|i: int| to <= i < s.len() implies white_space(#[trigger] s[i]) by {
            if i < s.len() - 1 {
                assert(s.drop_last()[i] == s[i]);
            }
        }
        to
    } else {
        assert(s.take(s.len() as int) =~= s);
        s.len() as int
    }
}

proof fn lemma_without_start(s: Seq<char>) -> (from: int)
    ensures
        0 <= from <= s.len(),
        without_start(s) == s.skip(from),
        from < s.len() ==> !white_space(s[from]),
        forall|i: int| 0 <= i < from ==> white_space(#[trigger] s[i]),
    decreases s.len(),
{
    if s.len() > 0 && white_space(s[0]) {
        let from = lemma_without_start(s.skip(1));
        assert(s.skip(1).skip(from) =~= s.skip(from + 1));
        assert forall|i: int| 0 <= i < from + 1 implies white_space(#[trigger] s[i]) by {
            if i > 0 {
                assert(s.skip(1)[i - 1] == s[i]);
            }
        }
        from + 1
    } else {
        assert(s.skip(0) =~= s);
        0
    }
}

/// A trimmed text is a stretch of the whole text that neither begins nor ends
/// with white space, and all that was cut off is white space.
pub proof fn law_trimmed_is_the_inner_stretch(s: Seq<char>)
    ensures
        exists|from: int, to: int|
            {
                &&& 0 <= from <= to <= s.len()
                &&& trimmed(s) == #[trigger] s.subrange(from, to)
                &&& forall|i: int| 0 <= i < from ==> white_space(#[trigger] s[i])
                &&& forall|i: int| to <= i < s.len() ==> white_space(#[trigger] s[i])
            },
        trimmed(s).len() > 0 ==> !white_space(trimmed(s)[0]) && !white_space(trimmed(s).last()),
{
    let to = lemma_without_end(s);
    let kept = s.take(to);
    let from = lemma_without_start(kept);
    assert(trimmed(s) == kept.skip(from));
    assert(kept.skip(from) =~= s.subrange(from, to));
    assert forall|i: int| 0 <= i < from implies white_space(#[trigger] s[i]) by {
        assert(kept[i] == s[i]);
    }
    if trimmed(s).len() > 0 {
        assert(trimmed(s)[0] == kept[from]);
        assert(trimmed(s).last() == s[to - 1]);
    }
}

/// Trimming twice is trimming once.
pub proof fn law_trimming_is_idempotent(s: Seq<char>)
    ensures
        trimmed(trimmed(s)) == trimmed(s),
        without_end(without_end(s)) == without_end(s),
{
    law_trimmed_is_the_inner_stretch(s);
    let to = lemma_without_end(s);
    if to > 0 {
        assert(s.take(to).last() == s[to - 1]);
    }
}

/// Decimal notation, digit by digit: a number below ten is its one digit, a
/// further digit is appended to the number before it, and a negative number is
/// its opposite behind a minus sign.
pub proof fn law_decimal_digit_by_digit(n: nat, d: nat)
    requires
        d < 10,
    ensures
        decimal(d as int).len() == 1,
        decimal(d as int)[0] as int == 48 + d,
        n > 0 ==> decimal((10 * n + d) as int) == decimal(n as int) + decimal(d as int),
        n > 0 ==> decimal(-(n as int)) == seq!['-'] + decimal(n as int),
{
    if n > 0 {
        let m: nat = 10 * n + d;
        assert(m / 10 == n && m % 10 == d);
        assert(digits(m, 10) == digits(n, 10).push(digit_char(d)));
        assert(decimal(m as int) =~= decimal(n as int) + decimal(d as int));
    }
}

/// Hexadecimal notation, digit by digit: behind the mark a number below sixteen
/// is its one digit, in lower case, and a further digit is appended to the
/// number before it.
pub proof fn law_hex_digit_by_digit(n: nat, d: nat)
    requires
        d < 16,
    ensures
        hex(d).len() == 3,
        hex(d)[0] == '0',
        hex(d)[1] == 'x',
        hex(d)[2] as int == (if d < 10 {
            48 + d
        } else {
            87 + d
        }),
        n > 0 ==> hex(16 * n + d) == hex(n).push(hex(d)[2]),
{
    assert(digits(d, 16) == seq![digit_char(d)]);
    if n > 0 {
        let m: nat = 16 * n + d;
        assert(m / 16 == n && m % 16 == d);
        assert(digits(m, 16) == digits(n, 16).push(digit_char(d)));
        assert(hex(m) =~= hex(n).push(hex(d)[2]));
    }
}

/// The bits of a signed number, read as an unsigned one, are below two to the
/// power of thirty-two, and differ from the number by a multiple of that.
pub proof fn law_bits_are_the_number_modulo_the_width(n: i32)
    ensures
        bits_of(n) < 0x1_0000_0000,
        (bits_of(n) - n) % 0x1_0000_0000 == 0,
{
}

/// A truth value is told by its English word.
pub proof fn law_truth_is_a_word(b: bool)
    ensures
        b ==> truth(b) == seq!['t', 'r', 'u', 'e'],
        !b ==> truth(b) == seq!['f', 'a', 'l', 's', 'e'],
{
    reveal_strlit("true");
    reveal_strlit("false");
    assert(b ==> truth(b) =~= seq!['t', 'r', 'u', 'e']);
    assert(!b ==> truth(b) =~= seq!['f', 'a', 'l', 's', 'e']);
}

/// Counts, character by character. Nothing, or a plus sign alone, is no count; a
/// single character is one where it is a digit; a further character keeps a
/// count only where it is a digit and the value stays within 32 bits, and a text
/// that is no count is never made one by what follows, but for a plus sign
/// alone, which changes nothing of what follows it.
pub proof fn law_counts_character_by_character(s: Seq<char>, c: char)
    ensures
        parsed_count(Seq::empty()) is None,
        parsed_count(seq!['+']) is None,
        parsed_count(seq![c]) == (if 48 <= c as int <= 57 {
            Some((c as int - 48) as u32)
        } else {
            None
        }),
        parsed_count(seq!['+', c]) == parsed_count(seq![c]),
        s.len() > 0 && s != seq!['+'] ==> parsed_count(s.push(c)) == (match parsed_count(s) {
            Some(v) => if 48 <= c as int <= 57 && v * 10 + (c as int - 48) <= 0xffff_ffff {
                Some((v * 10 + (c as int - 48)) as u32)
            } else {
                None
            },
            None => None,
        }),
{
    let one = seq![c];
    assert(one.drop_last() =~= Seq::<char>::empty());
    assert(digits_value(Seq::<char>::empty()) == 0);
    assert(digits_value(one) == c as int - 48);
    assert(is_digit(one[0]) <==> 48 <= c as int <= 57);
    assert(unsigned_part(seq!['+']) =~= Seq::<char>::empty());
    assert(seq!['+', c].skip(1) =~= one);
    assert(unsigned_part(seq!['+', c]) == one);
    if c == '+' {
        assert(seq![c] =~= seq!['+']);
    } else {
        assert(unsigned_part(one) == one);
    }
    if s.len() > 0 && s != seq!['+'] {
        let body = unsigned_part(s);
        let longer = unsigned_part(s.push(c));
        assert(longer =~= body.push(c));
        assert(body.len() > 0) by {
            if body.len() == 0 {
                assert(s =~= seq!['+']);
            }
        }
        assert(longer.drop_last() =~= body);
        assert(digits_value(longer) == digits_value(body) * 10 + (c as int - 48));
        if forall|i: int| 0 <= i < body.len() ==> is_digit(#[trigger] body[i]) {
            lemma_prefix_value(body, 0);
            if is_digit(c) {
                assert forall|i: int| 0 <= i < longer.len() implies is_digit(#[trigger] longer[i]) by {
                    if i < body.len() {
                        assert(is_digit(body[i]));
                    }
                }
            } else {
                assert(!is_digit(longer[body.len() as int]));
            }
        } else {
            let i = choose|i: int| 0 <= i < body.len() && !is_digit(#[trigger] body[i]);
            assert(!is_digit(longer[i]));
        }
    }
}

/// A text without the white space at its end is a beginning of the text that
/// does not end with white space, and all that was cut off is white space.
pub proof fn law_the_end_is_cut_off(s: Seq<char>)
    ensures
        exists|to: int|
            {
                &&& 0 <= to <= s.len()
                &&& without_end(s) == #[trigger] s.take(to)
                &&& to > 0 ==> !white_space(s[to - 1])
                &&& forall|i: int| to <= i < s.len() ==> white_space(#[trigger] s[i])
            },
{
    let to = lemma_without_end(s);
    assert(without_end(s) == s.take(to));
}

/// The first word is a stretch of the text without white space that begins
/// behind nothing but white space and goes on up to the next white space or the
/// end; there is none exactly where the text is white space throughout.
pub proof fn law_the_first_word_is_a_stretch(s: Seq<char>)
    ensures
        match first_word(s) {
            None => forall|i: int| 0 <= i < s.len() ==> white_space(#[trigger] s[i]),
            Some(w) => exists|from: int, to: int|
                {
                    &&& 0 <= from < to <= s.len()
                    &&& w == #[trigger] s.subrange(from, to)
                    &&& forall|i: int| 0 <= i < from ==> white_space(#[trigger] s[i])
                    &&& forall|i: int| from <= i < to ==> !white_space(#[trigger] s[i])
                    &&& to < s.len() ==> white_space(s[to])
                },
        },
{
    let from = lemma_without_start(s);
    let rest = s.skip(from);
    if rest.len() > 0 {
        let n = lemma_word_length(rest);
        let to = from + n;
        assert(rest.take(n) =~= s.subrange(from, to));
        assert forall|i: int| from <= i < to implies !white_space(#[trigger] s[i]) by {
            assert(rest[i - from] == s[i]);
        }
        if to < s.len() {
            assert(rest[n] == s[to]);
        }
        assert(rest[0] == s[from]);
        assert(n > 0);
        assert(first_word(s) == Some(s.subrange(from, to)));
    }
}

proof fn lemma_word_length(s: Seq<char>) -> (n: int)
    ensures
        0 <= n <= s.len(),
        up_to_space(s) == s.take(n),
        forall|i: int| 0 <= i < n ==> !white_space(#[trigger] s[i]),
        n < s.len() ==> white_space(s[n]),
    decreases s.len(),
{
    if s.len() == 0 || white_space(s[0]) {
        assert(s.take(0) =~= Seq::<char>::empty());
        0
    } else {
        let n = 1 + lemma_word_length(s.skip(1));
        assert forall|i: int| 0 <= i < n implies !white_space(#[trigger] s[i]) by {
            if i > 0 {
                assert(s.skip(1)[i - 1] == s[i]);
            }
        }
        if n < s.len() {
            assert(s.skip(1)[n - 1] == s[n]);
        }
        lemma_up_to_space(s, n);
        n
    }
}

} // verus!
