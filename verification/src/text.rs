//! Character classes and the small text utilities the rest of the crate is
//! built on.

use vstd::prelude::*;
use vstd::string::{StrSliceExecFns, StringExecFns};

verus! {

/// The characters with the Unicode `White_Space` property.
pub open spec fn is_whitespace(c: char) -> bool {
    let n = c as u32;
    ||| 0x09 <= n <= 0x0D
    ||| n == 0x20
    ||| n == 0x85
    ||| n == 0xA0
    ||| n == 0x1680
    ||| 0x2000 <= n <= 0x200A
    ||| n == 0x2028
    ||| n == 0x2029
    ||| n == 0x202F
    ||| n == 0x205F
    ||| n == 0x3000
}

/// The ASCII decimal digits `'0'` to `'9'`.
pub open spec fn is_digit(c: char) -> bool {
    0x30 <= c as u32 <= 0x39
}

/// The number a decimal digit stands for.
pub open spec fn digit_value(c: char) -> nat
    recommends
        is_digit(c),
{
    (c as u32 - 0x30) as nat
}

/// No character of `s` is whitespace.
pub open spec fn no_whitespace(s: Seq<char>) -> bool {
    forall|i: int| 0 <= i < s.len() ==> !is_whitespace(#[trigger] s[i])
}

/// Every character of `s` is whitespace.
pub open spec fn all_whitespace(s: Seq<char>) -> bool {
    forall|i: int| 0 <= i < s.len() ==> is_whitespace(#[trigger] s[i])
}

/// `s[b..e]` is the last run of non-whitespace characters in `s`: it is not
/// empty and holds no whitespace, only whitespace follows it, and it starts
/// `s` or follows a whitespace character.
pub open spec fn is_last_run(s: Seq<char>, b: int, e: int) -> bool {
    &&& 0 <= b < e <= s.len()
    &&& no_whitespace(s.subrange(b, e))
    &&& all_whitespace(s.subrange(e, s.len() as int))
    &&& (b == 0 || is_whitespace(s[b - 1]))
}

/// The texts of a list of strings.
pub open spec fn texts(strings: Seq<String>) -> Seq<Seq<char>> {
    Seq::new(strings.len(), |i: int| strings[i]@)
}

/// The texts one after another.
pub open spec fn concatenation(parts: Seq<Seq<char>>) -> Seq<char>
    decreases parts.len(),
{
    if parts.len() == 0 {
        Seq::empty()
    } else {
        concatenation(parts.drop_last()) + parts.last()
    }
}

/// Every character of `s` is a decimal digit.
pub open spec fn all_digits(s: Seq<char>) -> bool {
    forall|i: int| 0 <= i < s.len() ==> is_digit(#[trigger] s[i])
}

/// The number that the digit string `s` denotes in base ten; leading zeros
/// count for nothing, and the empty string denotes zero.
pub open spec fn decimal_value(s: Seq<char>) -> nat
    decreases s.len(),
{
    if s.len() == 0 {
        0
    } else {
        10 * decimal_value(s.drop_last()) + digit_value(s.last())
    }
}

/// `s` is purely numeric: a non-empty string of decimal digits and nothing
/// else.
pub open spec fn is_numeral(s: Seq<char>) -> bool {
    s.len() > 0 && all_digits(s)
}

/// What a piece of text is when it is read as a number.
#[derive(Clone, Copy, Debug, PartialEq, Eq, Structural)]
pub enum Reading {
    /// The piece is not a numeral.
    NotNumeric,
    /// The piece is a numeral with this value.
    Number(u64),
    /// The piece is a numeral whose value does not fit in 64 bits.
    TooLarge,
}

/// A number as far as 64 bits can hold it.
pub open spec fn bounded(n: nat) -> Option<u64> {
    if n <= u64::MAX {
        Some(n as u64)
    } else {
        None
    }
}

/// What `s` is when it is read as a number.
pub open spec fn reading_of(s: Seq<char>) -> Reading {
    if !is_numeral(s) {
        Reading::NotNumeric
    } else {
        match bounded(decimal_value(s)) {
            Some(value) => Reading::Number(value),
            None => Reading::TooLarge,
        }
    }
}

/// The character that stands for a number below ten.
pub open spec fn digit_char(d: nat) -> char
    recommends
        d < 10,
{
    (0x30 + d) as char
}

/// `n` written in base ten, without leading zeros.
pub open spec fn decimal(n: nat) -> Seq<char>
    decreases n,
{
    if n < 10 {
        seq![digit_char(n)]
    } else {
        decimal(n / 10).push(digit_char(n % 10))
    }
}

/// `s` without the whitespace at its end.
pub open spec fn trim_end(s: Seq<char>) -> Seq<char>
    decreases s.len(),
{
    if s.len() > 0 && is_whitespace(s.last()) {
        trim_end(s.drop_last())
    } else {
        s
    }
}

/// `s` without the whitespace at its start.
pub open spec fn trim_start(s: Seq<char>) -> Seq<char>
    decreases s.len(),
{
    if s.len() > 0 && is_whitespace(s.first()) {
        trim_start(s.drop_first())
    } else {
        s
    }
}

/// `s` without the whitespace at either end.
pub open spec fn trimmed(s: Seq<char>) -> Seq<char> {
    trim_start(trim_end(s))
}

/// The last whitespace-delimited token of `s`: the longest run of
/// non-whitespace characters that ends at the last non-whitespace character
/// of `s`. It is empty exactly when `s` holds no token at all.
pub open spec fn last_token(s: Seq<char>) -> Seq<char>
    decreases s.len(),
{
    if s.len() == 0 {
        Seq::empty()
    } else if is_whitespace(s.last()) {
        last_token(s.drop_last())
    } else if s.len() >= 2 && !is_whitespace(s[s.len() - 2]) {
        last_token(s.drop_last()).push(s.last())
    } else {
        seq![s.last()]
    }
}

/// Tells whether `c` is Unicode whitespace.
pub fn whitespace(c: char) -> (r: bool)
    ensures
        r == is_whitespace(c),
{
    let n: u32 = c as u32;
    (0x09 <= n && n <= 0x0D) || n == 0x20 || n == 0x85 || n == 0xA0 || n == 0x1680 || (0x2000 <= n
        && n <= 0x200A) || n == 0x2028 || n == 0x2029 || n == 0x202F || n == 0x205F || n == 0x3000
}

/// The value of `c` as a decimal digit, if it is one.
pub fn digit(c: char) -> (r: Option<u32>)
    ensures
        r is Some <==> is_digit(c),
        r matches Some(d) ==> d == digit_value(c) && d <= 9,
{
    let n: u32 = c as u32;
    if 0x30 <= n && n <= 0x39 {
        Some(n - 0x30)
    } else {
        None
    }
}

/// The characters of `s`, in order.
pub fn chars_of(s: &str) -> (out: Vec<char>)
    ensures
        out@ == s@,
{
    let mut out: Vec<char> = Vec::new();
    for c in it: s.chars()
        invariant
            out@ == it.seq().take(it.index() as int),
            it.seq() == s@,
    {
        out.push(c);
    }
    out
}

/// The last whitespace-delimited token of `chars`.
pub fn last_token_of(chars: &Vec<char>) -> (token: Vec<char>)
    ensures
        token@ == last_token(chars@),
{
    let mut token: Vec<char> = Vec::new();
    let mut fresh: bool = true;
    let n: usize = chars.len();
    for i in 0..n
        invariant
            n == chars@.len(),
            token@ == last_token(chars@.take(i as int)),
            fresh == (i == 0 || is_whitespace(chars@[i - 1])),
    {
        let c: char = chars[i];
        proof {
            assert(chars@.take(i + 1).drop_last() =~= chars@.take(i as int));
        }
        if whitespace(c) {
            fresh = true;
        } else {
            if fresh {
                token = Vec::new();
            }
            token.push(c);
            fresh = false;
        }
    }
    proof {
        assert(chars@.take(n as int) =~= chars@);
    }
    token
}

/// Reads `chars[from..to]` as a decimal numeral: its value where it is a
/// non-empty string of digits, and whether that value fits in 64 bits.
pub fn parse_numeral(chars: &Vec<char>, from: usize, to: usize) -> (r: Reading)
    requires
        from <= to <= chars@.len(),
    ensures
        r == reading_of(chars@.subrange(from as int, to as int)),
{
    let ghost field = chars@.subrange(from as int, to as int);
    if from == to {
        return Reading::NotNumeric;
    }
    let mut value: u64 = 0;
    let mut fits: bool = true;
    let mut i: usize = from;
    while i < to
        invariant
            from <= i <= to <= chars@.len(),
            field == chars@.subrange(from as int, to as int),
            all_digits(field.take(i - from)),
            fits ==> value == decimal_value(field.take(i - from)),
            !fits ==> decimal_value(field.take(i - from)) > u64::MAX,
        decreases to - i,
    {
        proof {
            assert(field.take(i + 1 - from).drop_last() =~= field.take(i - from));
        }
        match digit(chars[i]) {
            None => {
                assert(!is_digit(field[i - from]));
                return Reading::NotNumeric;
            },
            Some(d) => {
                if fits {
                    let grown: u128 = value as u128 * 10 + d as u128;
                    if grown > u64::MAX as u128 {
                        fits = false;
                    } else {
                        value = grown as u64;
                    }
                }
            },
        }
        i += 1;
    }
    proof {
        assert(field.take(to - from) =~= field);
    }
    if fits {
        Reading::Number(value)
    } else {
        Reading::TooLarge
    }
}

/// The one-character text of a number below ten.
fn digit_text(d: u32) -> (r: &'static str)
    requires
        d < 10,
    ensures
        r@ == seq![digit_char(d as nat)],
{
    proof {
        reveal_strlit("0");
        reveal_strlit("1");
        reveal_strlit("2");
        reveal_strlit("3");
        reveal_strlit("4");
        reveal_strlit("5");
        reveal_strlit("6");
        reveal_strlit("7");
        reveal_strlit("8");
        reveal_strlit("9");
    }
    let r = match d {
        0 => "0",
        1 => "1",
        2 => "2",
        3 => "3",
        4 => "4",
        5 => "5",
        6 => "6",
        7 => "7",
        8 => "8",
        _ => "9",
    };
    r
}

/// Writes `n` in base ten at the end of `out`.
pub fn push_decimal(out: &mut String, n: u64)
    ensures
        final(out)@ == old(out)@ + decimal(n as nat),
    decreases n,
{
    if n >= 10 {
        push_decimal(out, n / 10);
    }
    out.append(digit_text((n % 10) as u32));
}

/// The strings one after another.
pub fn join(parts: &Vec<String>) -> (out: String)
    ensures
        out@ == concatenation(texts(parts@)),
{
    let mut out = String::new();
    let n: usize = parts.len();
    for i in 0..n
        invariant
            n == parts@.len(),
            out@ == concatenation(texts(parts@).take(i as int)),
    {
        proof {
            assert(texts(parts@).take(i + 1).drop_last() =~= texts(parts@).take(i as int));
        }
        out.append(parts[i].as_str());
    }
    proof {
        assert(texts(parts@).take(n as int) =~= texts(parts@));
    }
    out
}

/// `s` without the whitespace at either end.
pub fn trim(s: &str) -> (r: &str)
    ensures
        r@ == trimmed(s@),
{
    let chars = chars_of(s);
    let mut end: usize = chars.len();
    proof {
        assert(chars@.take(end as int) =~= chars@);
    }
    while end > 0 && whitespace(chars[end - 1])
        invariant
            end <= chars@.len(),
            trim_end(chars@) == trim_end(chars@.take(end as int)),
        decreases end,
    {
        proof {
            assert(chars@.take(end as int).drop_last() =~= chars@.take(end - 1));
        }
        end -= 1;
    }
    let ghost kept = chars@.take(end as int);
    let mut start: usize = 0;
    while start < end && whitespace(chars[start])
        invariant
            start <= end <= chars@.len(),
            kept == chars@.take(end as int),
            trim_start(kept) == trim_start(chars@.subrange(start as int, end as int)),
        decreases end - start,
    {
        proof {
            assert(chars@.subrange(start as int, end as int).drop_first() =~= chars@.subrange(
                start + 1,
                end as int,
            ));
        }
        start += 1;
    }
    s.substring_char(start, end)
}

/// The last token is what its name says: there is none exactly when the
/// text is all whitespace, and otherwise it is the last run of
/// non-whitespace characters in the text.
pub proof fn lemma_last_token_is_last_run(s: Seq<char>)
    ensures
        last_token(s).len() == 0 <==> all_whitespace(s),
        last_token(s).len() > 0 ==> exists|b: int, e: int| #[trigger]
            is_last_run(s, b, e) && last_token(s) == s.subrange(b, e),
    decreases s.len(),
{
    if s.len() > 0 {
        let t = s.drop_last();
        let n = s.len() as int;
        lemma_last_token_is_last_run(t);
        assert(forall|i: int| 0 <= i < t.len() ==> t[i] == s[i]);
        if is_whitespace(s.last()) {
            if !all_whitespace(t) {
                let (b, e) = choose|b: int, e: int| #[trigger]
                    is_last_run(t, b, e) && last_token(t) == t.subrange(b, e);
                assert(s.subrange(b, e) =~= t.subrange(b, e));
                assert forall|j: int| 0 <= j < n - e implies is_whitespace(
                    #[trigger] s.subrange(e, n)[j],
                ) by {
                    if j < t.len() - e {
                        assert(t.subrange(e, t.len() as int)[j] == s.subrange(e, n)[j]);
                    }
                }
                assert(is_last_run(s, b, e));
            }
        } else if n >= 2 && !is_whitespace(s[n - 2]) {
            let (b, e) = choose|b: int, e: int| #[trigger]
                is_last_run(t, b, e) && last_token(t) == t.subrange(b, e);
            if e < t.len() {
                assert(t.subrange(e, t.len() as int)[n - 2 - e] == t[n - 2]);
            }
            assert forall|j: int| 0 <= j < n - b implies !is_whitespace(
                #[trigger] s.subrange(b, n)[j],
            ) by {
                if j < e - b {
                    assert(t.subrange(b, e)[j] == s.subrange(b, n)[j]);
                }
            }
            assert(is_last_run(s, b, n));
        } else {
            assert(is_last_run(s, n - 1, n));
        }
    }
}

/// Whitespace at the end of a text does not change its last token.
pub proof fn lemma_last_token_ignores_trailing_whitespace(s: Seq<char>, tail: Seq<char>)
    requires
        all_whitespace(tail),
    ensures
        last_token(s + tail) == last_token(s),
    decreases tail.len(),
{
    if tail.len() > 0 {
        assert((s + tail).drop_last() =~= s + tail.drop_last());
        lemma_last_token_ignores_trailing_whitespace(s, tail.drop_last());
    }
}

/// A word that follows whitespace, or stands at the start, is the last token
/// of the text that ends with it.
pub proof fn lemma_last_token_of_last_word(head: Seq<char>, word: Seq<char>)
    requires
        head.len() == 0 || is_whitespace(head.last()),
        word.len() > 0,
        no_whitespace(word),
    ensures
        last_token(head + word) == word,
    decreases word.len(),
{
    if word.len() > 1 {
        assert((head + word).drop_last() =~= head + word.drop_last());
        lemma_last_token_of_last_word(head, word.drop_last());
    }
}

/// The decimal form of a number is a numeral that denotes that number.
pub proof fn lemma_decimal_denotes(n: nat)
    ensures
        is_numeral(decimal(n)),
        decimal_value(decimal(n)) == n,
    decreases n,
{
    if n < 10 {
        assert(decimal_value(decimal(n).drop_last()) == 0);
    } else {
        lemma_decimal_denotes(n / 10);
        assert(decimal(n).drop_last() =~= decimal(n / 10));
    }
}

} // verus!
