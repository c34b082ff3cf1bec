//! Text helpers over `char` sequences: whitespace trimming, decimal numerals
//! and quoting.
use vstd::prelude::*;

verus! {

/// Unicode `White_Space`, the set that `char::is_whitespace` tests.
pub open spec fn is_white_space(c: char) -> bool {
    let u = c as u32;
    ||| 0x09 <= u <= 0x0D
    ||| u == 0x20
    ||| u == 0x85
    ||| u == 0xA0
    ||| u == 0x1680
    ||| 0x2000 <= u <= 0x200A
    ||| u == 0x2028
    ||| u == 0x2029
    ||| u == 0x202F
    ||| u == 0x205F
    ||| u == 0x3000
}

/// `s` without its leading whitespace.
pub open spec fn trim_front(s: Seq<char>) -> Seq<char>
    decreases s.len(),
{
    if s.len() > 0 && is_white_space(s[0]) {
        trim_front(s.drop_first())
    } else {
        s
    }
}

/// `s` without its trailing whitespace.
pub open spec fn trim_back(s: Seq<char>) -> Seq<char>
    decreases s.len(),
{
    if s.len() > 0 && is_white_space(s.last()) {
        trim_back(s.drop_last())
    } else {
        s
    }
}

/// `s` without leading and trailing whitespace, as `str::trim` gives it.
pub open spec fn trimmed(s: Seq<char>) -> Seq<char> {
    trim_back(trim_front(s))
}

pub fn white_space(c: char) -> (r: bool)
    ensures
        r == is_white_space(c),
{
    let u = c as u32;
    (0x09 <= u && u <= 0x0D) || u == 0x20 || u == 0x85 || u == 0xA0 || u == 0x1680 || (0x2000
        <= u && u <= 0x200A) || u == 0x2028 || u == 0x2029 || u == 0x202F || u == 0x205F || u
        == 0x3000
}

proof fn lemma_trim_front_skip(s: Seq<char>, i: int)
    requires
        0 <= i <= s.len(),
        forall|j: int| 0 <= j < i ==> is_white_space(#[trigger] s[j]),
    ensures
        trim_front(s) == trim_front(s.subrange(i, s.len() as int)),
    decreases i,
{
    if i > 0 {
        assert(s.drop_first() == s.subrange(1, s.len() as int));
        lemma_trim_front_skip(s.drop_first(), i - 1);
        assert(s.drop_first().subrange(i - 1, s.drop_first().len() as int) == s.subrange(
            i,
            s.len() as int,
        ));
    } else {
        assert(s.subrange(0, s.len() as int) == s);
    }
}

proof fn lemma_trim_back_skip(s: Seq<char>, k: int)
    requires
        0 <= k <= s.len(),
        forall|j: int| k <= j < s.len() ==> is_white_space(#[trigger] s[j]),
    ensures
        trim_back(s) == trim_back(s.subrange(0, k)),
    decreases s.len() - k,
{
    if k < s.len() {
        assert(s.drop_last() == s.subrange(0, s.len() - 1));
        lemma_trim_back_skip(s.drop_last(), k);
        assert(s.drop_last().subrange(0, k) == s.subrange(0, k));
    } else {
        assert(s.subrange(0, k) == s);
    }
}

/// The string `s` without leading and trailing whitespace.
pub fn trim(s: &str) -> (r: &str)
    ensures
        r@ == trimmed(s@),
{
    let n = s.unicode_len();
    let mut start: usize = 0;
    while start < n && white_space(s.get_char(start))
        invariant
            n == s@.len(),
            start <= n,
            forall|j: int| 0 <= j < start ==> is_white_space(#[trigger] s@[j]),
        decreases n - start,
    {
        start = start + 1;
    }
    proof {
        lemma_trim_front_skip(s@, start as int);
    }
    let ghost front = s@.subrange(start as int, n as int);
    assert(trim_front(front) == front) by {
        if front.len() > 0 {
            assert(front[0] == s@[start as int]);
        }
    }
    let mut end: usize = n;
    while end > start && white_space(s.get_char(end - 1))
        invariant
            n == s@.len(),
            start <= end <= n,
            front == s@.subrange(start as int, n as int),
            forall|j: int| end - start <= j < front.len() ==> is_white_space(#[trigger] front[j]),
        decreases end,
    {
        end = end - 1;
    }
    proof {
        lemma_trim_back_skip(front, end - start);
        let rest = front.subrange(0, end - start);
        assert(rest == s@.subrange(start as int, end as int));
        if rest.len() > 0 {
            assert(rest.last() == s@[end - 1]);
        }
        assert(trim_back(rest) == rest);
    }
    s.substring_char(start, end)
}

/// Why a numeral was refused, in the terms `std::num::IntErrorKind` uses.
#[derive(Clone, Copy, Debug, PartialEq, Eq, Structural)]
pub enum ParseFailure {
    /// The text is empty.
    Empty,
    /// A character that is not a decimal digit, or a lone sign.
    InvalidDigit,
    /// The value is larger than the bound.
    PosOverflow,
}

pub open spec fn is_digit(c: char) -> bool {
    '0' <= c <= '9'
}

pub open spec fn digit_value(c: char) -> nat {
    (c as u32 - '0' as u32) as nat
}

/// Reads the digits `d` left to right after the value `acc` read so far:
/// the first character that is no digit, or the first digit that takes the
/// value past `max`, decides the failure.
pub open spec fn scan_digits(d: Seq<char>, acc: nat, max: nat) -> Result<nat, ParseFailure>
    decreases d.len(),
{
    if d.len() == 0 {
        Ok(acc)
    } else if !is_digit(d[0]) {
        Err(ParseFailure::InvalidDigit)
    } else if acc * 10 + digit_value(d[0]) > max {
        Err(ParseFailure::PosOverflow)
    } else {
        scan_digits(d.drop_first(), acc * 10 + digit_value(d[0]), max)
    }
}

/// An unsigned decimal numeral with an optional leading `+`, read as
/// `str::parse` reads it for an unsigned type whose largest value is `max`.
pub open spec fn parse_decimal(s: Seq<char>, max: nat) -> Result<nat, ParseFailure> {
    if s.len() == 0 {
        Err(ParseFailure::Empty)
    } else if s.len() == 1 && (s[0] == '+' || s[0] == '-') {
        Err(ParseFailure::InvalidDigit)
    } else if s[0] == '+' {
        scan_digits(s.drop_first(), 0, max)
    } else {
        scan_digits(s, 0, max)
    }
}

proof fn lemma_scan_step(d: Seq<char>, i: int, acc: nat, max: nat)
    requires
        0 <= i < d.len(),
        is_digit(d[i]),
        acc * 10 + digit_value(d[i]) <= max,
    ensures
        scan_digits(d.subrange(i, d.len() as int), acc, max) == scan_digits(
            d.subrange(i + 1, d.len() as int),
            acc * 10 + digit_value(d[i]),
            max,
        ),
{
    let rest = d.subrange(i, d.len() as int);
    assert(rest[0] == d[i]);
    assert(rest.drop_first() == d.subrange(i + 1, d.len() as int));
}

/// Parses the characters of `s` from index `from` on as digits, with the
/// bound `max`.
fn parse_digits(s: &str, from: usize, max: u64) -> (r: Result<u64, ParseFailure>)
    requires
        from <= s@.len(),
    ensures
        r matches Ok(n) ==> scan_digits(s@.subrange(from as int, s@.len() as int), 0, max as nat)
            == Ok::<nat, ParseFailure>(n as nat),
        r matches Err(e) ==> scan_digits(s@.subrange(from as int, s@.len() as int), 0, max as nat)
            == Err::<nat, ParseFailure>(e),
{
    let n = s.unicode_len();
    let mut i: usize = from;
    let mut acc: u64 = 0;
    while i < n
        invariant
            n == s@.len(),
            from <= i <= n,
            acc <= max,
            scan_digits(s@.subrange(from as int, n as int), 0, max as nat) == scan_digits(
                s@.subrange(i as int, n as int),
                acc as nat,
                max as nat,
            ),
        decreases n - i,
    {
        let c = s.get_char(i);
        let ghost rest = s@.subrange(i as int, n as int);
        assert(rest[0] == c);
        if !('0' <= c && c <= '9') {
            return Err(ParseFailure::InvalidDigit);
        }
        let d = (c as u32 - '0' as u32) as u64;
        if acc > max / 10 {
            assert(acc * 10 + d > max) by (nonlinear_arith)
                requires
                    acc > max / 10,
            ;
            return Err(ParseFailure::PosOverflow);
        }
        assert(acc * 10 <= max) by (nonlinear_arith)
            requires
                acc <= max / 10,
        ;
        if d > max || acc * 10 > max - d {
            return Err(ParseFailure::PosOverflow);
        }
        proof {
            lemma_scan_step(s@, i as int, acc as nat, max as nat);
        }
        acc = acc * 10 + d;
        i = i + 1;
    }
    assert(s@.subrange(n as int, n as int).len() == 0);
    Ok(acc)
}

/// Reads `s` as `str::parse` reads a numeral of an unsigned type whose
/// largest value is `max`.
pub fn parse_unsigned(s: &str, max: u64) -> (r: Result<u64, ParseFailure>)
    ensures
        r matches Ok(n) ==> parse_decimal(s@, max as nat) == Ok::<nat, ParseFailure>(n as nat),
        r matches Err(e) ==> parse_decimal(s@, max as nat) == Err::<nat, ParseFailure>(e),
{
    let n = s.unicode_len();
    if n == 0 {
        return Err(ParseFailure::Empty);
    }
    let c = s.get_char(0);
    if n == 1 && (c == '+' || c == '-') {
        return Err(ParseFailure::InvalidDigit);
    }
    if c == '+' {
        assert(s@.subrange(1, s@.len() as int) == s@.drop_first());
        parse_digits(s, 1, max)
    } else {
        assert(s@.subrange(0, s@.len() as int) == s@);
        parse_digits(s, 0, max)
    }
}

proof fn lemma_scan_at_least(d: Seq<char>, acc: nat, max: nat)
    ensures
        scan_digits(d, acc, max) matches Ok(n) ==> acc <= n,
        scan_digits(d, acc, max) matches Ok(n) ==> (acc <= max ==> n <= max),
    decreases d.len(),
{
    if d.len() > 0 && is_digit(d[0]) && acc * 10 + digit_value(d[0]) <= max {
        lemma_scan_at_least(d.drop_first(), acc * 10 + digit_value(d[0]), max);
        assert(acc <= acc * 10 + digit_value(d[0])) by (nonlinear_arith);
    }
}

proof fn lemma_scan_tighter_bound(d: Seq<char>, acc: nat, low: nat, high: nat)
    requires
        acc <= low <= high,
    ensures
        scan_digits(d, acc, high) is Err ==> scan_digits(d, acc, low) is Err,
        scan_digits(d, acc, high) matches Ok(n) ==> (n <= low ==> scan_digits(d, acc, low) == Ok::<
            nat,
            ParseFailure,
        >(n)),
        scan_digits(d, acc, high) matches Ok(n) ==> (n > low ==> scan_digits(d, acc, low) is Err),
    decreases d.len(),
{
    if d.len() > 0 && is_digit(d[0]) {
        let next = acc * 10 + digit_value(d[0]);
        if next <= low {
            lemma_scan_tighter_bound(d.drop_first(), next, low, high);
        }
        lemma_scan_at_least(d.drop_first(), next, high);
    }
}

/// Reading a numeral under a smaller bound fails where reading it under a
/// larger one fails, and otherwise gives the same value exactly where that
/// value is within the smaller bound.
pub proof fn lemma_parse_tighter_bound(s: Seq<char>, low: nat, high: nat)
    requires
        low <= high,
    ensures
        parse_decimal(s, high) matches Ok(n) ==> n <= high,
        parse_decimal(s, high) is Err ==> parse_decimal(s, low) is Err,
        parse_decimal(s, high) matches Ok(n) ==> (n <= low ==> parse_decimal(s, low) == Ok::<
            nat,
            ParseFailure,
        >(n)),
        parse_decimal(s, high) matches Ok(n) ==> (n > low ==> parse_decimal(s, low) is Err),
{
    if s.len() > 1 || (s.len() == 1 && s[0] != '+' && s[0] != '-') {
        if s[0] == '+' {
            lemma_scan_tighter_bound(s.drop_first(), 0, low, high);
            lemma_scan_at_least(s.drop_first(), 0, high);
        } else {
            lemma_scan_tighter_bound(s, 0, low, high);
            lemma_scan_at_least(s, 0, high);
        }
    }
}

/// The decimal digit for `d < 10`.
pub open spec fn digit_char(d: nat) -> char {
    ('0' as u32 + d) as char
}

/// The decimal numeral of `n`, without sign or leading zeros.
pub open spec fn decimal(n: nat) -> Seq<char>
    decreases n,
{
    if n < 10 {
        seq![digit_char(n)]
    } else {
        decimal(n / 10).push(digit_char(n % 10))
    }
}

fn digit_str(d: u64) -> (r: &'static str)
    requires
        d < 10,
    ensures
        r@ == seq![digit_char(d as nat)],
{
    proof {
        reveal_strlit("0");
        reveal_strlit("1");
        reveal_strlit("2");
        reveal_strlit("3");
        reveal_strlit("4");
        reveal_strlit("5");
        reveal_strlit("6");
        reveal_strlit("7");
        reveal_strlit("8");
        reveal_strlit("9");
    }
    let r = match d {
        0 => "0",
        1 => "1",
        2 => "2",
        3 => "3",
        4 => "4",
        5 => "5",
        6 => "6",
        7 => "7",
        8 => "8",
        _ => "9",
    };
    assert(r@ =~= seq![digit_char(d as nat)]);
    r
}

/// Appends the decimal numeral of `n` to `out`.
pub fn push_decimal(out: &mut String, n: u64)
    ensures
        final(out)@ == old(out)@ + decimal(n as nat),
    decreases n,
{
    if n >= 10 {
        push_decimal(out, n / 10);
    }
    out.append(digit_str(n % 10));
    assert(old(out)@ + decimal(n as nat) =~= final(out)@) by {
        if n >= 10 {
            assert(decimal(n as nat) == decimal((n / 10) as nat).push(digit_char((n % 10) as nat)));
        }
    }
}

/// The decimal numeral of `n`, as `n.to_string()` writes it.
pub fn decimal_string(n: u64) -> (r: String)
    ensures
        r@ == decimal(n as nat),
{
    let mut s = String::new();
    push_decimal(&mut s, n);
    assert(s@ =~= decimal(n as nat));
    s
}

/// Names what `str`'s `Debug` writes for a string: the text in double
/// quotes, with quotes, backslashes and unprintable characters escaped.
pub uninterp spec fn debug_quoted_of(s: Seq<char>) -> Seq<char>;

/// Relies on `<str as Debug>::fmt`: the quoted text depends on `s` alone.
#[verifier::external_body]
pub(crate) fn debug_quoted(s: &str) -> (r: String)
    ensures
        r@ == debug_quoted_of(s@),
{
    format!("{:?}", s)
}

/// The views of a sequence of strings.
pub open spec fn views(v: Seq<String>) -> Seq<Seq<char>> {
    v.map_values(|s: String| s@)
}

/// The words of `w` separated by single spaces, as `join(" ")` writes them.
pub open spec fn join_words(w: Seq<Seq<char>>) -> Seq<char>
    decreases w.len(),
{
    if w.len() == 0 {
        Seq::empty()
    } else if w.len() == 1 {
        w[0]
    } else {
        join_words(w.drop_last()) + seq![' '] + w.last()
    }
}

/// The strings of `words` joined by single spaces.
pub fn join_with_spaces(words: &Vec<String>) -> (r: String)
    ensures
        r@ == join_words(views(words@)),
{
    let mut out = String::new();
    let mut i: usize = 0;
    assert(views(words@).subrange(0, 0) =~= Seq::<Seq<char>>::empty());
    while i < words.len()
        invariant
            i <= words@.len(),
            out@ == join_words(views(words@).subrange(0, i as int)),
        decreases words@.len() - i,
    {
        let ghost before = views(words@).subrange(0, i as int);
        let ghost after = views(words@).subrange(0, i + 1);
        assert(after.drop_last() =~= before);
        assert(after.last() == words@[i as int]@);
        proof {
            reveal_strlit(" ");
        }
        assert(" "@ =~= seq![' ']);
        if i > 0 {
            out.append(" ");
        }
        out.append(words[i].as_str());
        assert(out@ =~= join_words(after)) by {
            if i == 0 {
                assert(after.len() == 1);
                assert(Seq::<char>::empty() + after[0] =~= after[0]);
            }
        }
        i = i + 1;
    }
    assert(views(words@).subrange(0, words@.len() as int) =~= views(words@));
    out
}

} // verus!
