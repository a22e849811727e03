//! Text helpers: decimal numerals, Rust string literals and separated lists.

use vstd::prelude::*;

verus! {

/// The decimal digit `d` (for `d < 10`) as a character.
pub open spec fn digit_char(d: nat) -> char {
    if d == 0 {
        '0'
    } else if d == 1 {
        '1'
    } else if d == 2 {
        '2'
    } else if d == 3 {
        '3'
    } else if d == 4 {
        '4'
    } else if d == 5 {
        '5'
    } else if d == 6 {
        '6'
    } else if d == 7 {
        '7'
    } else if d == 8 {
        '8'
    } else {
        '9'
    }
}

/// The decimal numeral of `n`, without leading zeros.
pub open spec fn decimal(n: nat) -> Seq<char>
    decreases n,
{
    if n < 10 {
        seq![digit_char(n)]
    } else {
        decimal(n / 10) + seq![digit_char(n % 10)]
    }
}

/// Whether `c` is a decimal digit.
pub open spec fn is_digit(c: char) -> bool {
    48 <= c as int <= 57
}

/// Whether every character of `s` is a decimal digit.
pub open spec fn all_digits(s: Seq<char>) -> bool {
    forall|k: int| 0 <= k < s.len() ==> is_digit(#[trigger] s[k])
}

proof fn lemma_digit_char(d: nat)
    requires
        d < 10,
    ensures
        digit_char(d) as int == 48 + d,
{
}

/// A numeral is one digit or more, and digits only.
pub proof fn lemma_decimal_digits(n: nat)
    ensures
        decimal(n).len() >= 1,
        all_digits(decimal(n)),
    decreases n,
{
    if n < 10 {
        lemma_digit_char(n);
    } else {
        lemma_decimal_digits(n / 10);
        lemma_digit_char(n % 10);
        let p = decimal(n / 10);
        assert forall|k: int| 0 <= k < decimal(n).len() implies is_digit(#[trigger] decimal(n)[k]) by {
            if k < p.len() {
                assert(decimal(n)[k] == p[k]);
            } else {
                assert(decimal(n)[k] == digit_char(n % 10));
            }
        }
    }
}

/// Different numbers have different numerals.
pub proof fn lemma_decimal_injective(a: nat, b: nat)
    requires
        decimal(a) == decimal(b),
    ensures
        a == b,
    decreases a,
{
    lemma_decimal_digits(a / 10);
    lemma_decimal_digits(b / 10);
    if a < 10 && b < 10 {
        lemma_digit_char(a);
        lemma_digit_char(b);
        assert(decimal(a)[0] == digit_char(a));
        assert(decimal(b)[0] == digit_char(b));
    } else if a < 10 {
        assert(decimal(a).len() == 1);
        assert(decimal(b).len() >= 2);
    } else if b < 10 {
        assert(decimal(b).len() == 1);
        assert(decimal(a).len() >= 2);
    } else {
        let da = decimal(a);
        let db = decimal(b);
        assert(da.drop_last() =~= decimal(a / 10));
        assert(db.drop_last() =~= decimal(b / 10));
        assert(da.last() == digit_char(a % 10));
        assert(db.last() == digit_char(b % 10));
        lemma_digit_char(a % 10);
        lemma_digit_char(b % 10);
        lemma_decimal_injective(a / 10, b / 10);
        assert(a % 10 == b % 10);
        assert(a == b) by (nonlinear_arith)
            requires
                a / 10 == b / 10,
                a % 10 == b % 10,
        ;
    }
}

/// Digits followed by a text that starts with something else split only
/// one way.
pub proof fn lemma_digits_then_rest(d1: Seq<char>, s1: Seq<char>, d2: Seq<char>, s2: Seq<char>)
    requires
        all_digits(d1),
        all_digits(d2),
        s1.len() > 0,
        s2.len() > 0,
        !is_digit(s1[0]),
        !is_digit(s2[0]),
        d1 + s1 == d2 + s2,
    ensures
        d1 == d2,
        s1 == s2,
{
    let x = d1 + s1;
    if d1.len() < d2.len() {
        assert(x[d1.len() as int] == s1[0]);
        assert((d2 + s2)[d1.len() as int] == d2[d1.len() as int]);
    } else if d2.len() < d1.len() {
        assert(x[d2.len() as int] == d1[d2.len() as int]);
        assert((d2 + s2)[d2.len() as int] == s2[0]);
    } else {
        assert(d1 =~= x.take(d1.len() as int));
        assert(d2 =~= (d2 + s2).take(d2.len() as int));
        assert(s1 =~= x.skip(d1.len() as int));
        assert(s2 =~= (d2 + s2).skip(d2.len() as int));
    }
}

fn digit_str(d: usize) -> (s: &'static str)
    requires
        d < 10,
    ensures
        s@ == seq![digit_char(d as nat)],
{
    proof {
        reveal_strlit("0");
        reveal_strlit("1");
        reveal_strlit("2");
        reveal_strlit("3");
        reveal_strlit("4");
        reveal_strlit("5");
        reveal_strlit("6");
        reveal_strlit("7");
        reveal_strlit("8");
        reveal_strlit("9");
    }
    let s = if d == 0 {
        "0"
    } else if d == 1 {
        "1"
    } else if d == 2 {
        "2"
    } else if d == 3 {
        "3"
    } else if d == 4 {
        "4"
    } else if d == 5 {
        "5"
    } else if d == 6 {
        "6"
    } else if d == 7 {
        "7"
    } else if d == 8 {
        "8"
    } else {
        "9"
    };
    assert(s@ =~= seq![digit_char(d as nat)]);
    s
}

/// Writes `n` in decimal.
pub fn decimal_string(n: usize) -> (s: String)
    ensures
        s@ == decimal(n as nat),
    decreases n,
{
    if n < 10 {
        String::from_str(digit_str(n))
    } else {
        let mut s = decimal_string(n / 10);
        s.append(digit_str(n % 10));
        s
    }
}

/// The value of a hexadecimal digit.
pub open spec fn hex_digit(c: char) -> Option<nat> {
    let n = c as int;
    if 48 <= n <= 57 {
        Some((n - 48) as nat)
    } else if 97 <= n <= 102 {
        Some((n - 87) as nat)
    } else if 65 <= n <= 70 {
        Some((n - 55) as nat)
    } else {
        None
    }
}

/// The number of hexadecimal digits at the start of `t`.
pub open spec fn hex_prefix_len(t: Seq<char>) -> nat
    decreases t.len(),
{
    if t.len() > 0 && hex_digit(t[0]) is Some {
        1 + hex_prefix_len(t.drop_first())
    } else {
        0
    }
}

/// The number that the hexadecimal digits `t` write.
pub open spec fn hex_value(t: Seq<char>) -> nat
    decreases t.len(),
{
    if t.len() == 0 {
        0
    } else {
        hex_value(t.drop_last()) * 16 + match hex_digit(t.last()) {
            Some(d) => d,
            None => 0,
        }
    }
}

/// Whether `n` is the number of a `char` (not a surrogate, at most
/// `0x10FFFF`).
pub open spec fn is_char_value(n: nat) -> bool {
    n <= 0x10FFFF && !(0xD800 <= n <= 0xDFFF)
}

/// The character that a one-letter escape `\c` stands for.
pub open spec fn simple_escape(c: char) -> Option<char> {
    if c == 'n' {
        Some('\n')
    } else if c == 'r' {
        Some('\r')
    } else if c == 't' {
        Some('\t')
    } else if c == '0' {
        Some('\0')
    } else if c == '\\' {
        Some('\\')
    } else if c == '"' {
        Some('"')
    } else if c == '\'' {
        Some('\'')
    } else {
        None
    }
}

/// `c` in front of a decoded rest, when the rest decodes.
pub open spec fn prepend(c: char, rest: Option<Seq<char>>) -> Option<Seq<char>> {
    match rest {
        Some(r) => Some(seq![c] + r),
        None => None,
    }
}

/// The characters that the inside of a Rust string literal stands for:
/// plain characters (not `"`, `\` or a carriage return) stand for
/// themselves; `\n`, `\r`, `\t`, `\0`, `\\`, `\"` and `\'`, `\xHH` (at most
/// `\x7F`) and `\u{H..}` (one to six digits, a `char`) for the character
/// they escape.  `None` when `t` is not such an inside.
pub open spec fn unescape_body(t: Seq<char>) -> Option<Seq<char>>
    decreases t.len(),
{
    if t.len() == 0 {
        Some(seq![])
    } else if t[0] == '\\' {
        if t.len() < 2 {
            None
        } else if simple_escape(t[1]) is Some {
            prepend(simple_escape(t[1])->0, unescape_body(t.subrange(2, t.len() as int)))
        } else if t[1] == 'x' {
            if t.len() >= 4 && hex_digit(t[2]) is Some && hex_digit(t[3]) is Some && hex_digit(
                t[2],
            )->0 * 16 + hex_digit(t[3])->0 <= 0x7F {
                prepend(
                    (hex_digit(t[2])->0 * 16 + hex_digit(t[3])->0) as char,
                    unescape_body(t.subrange(4, t.len() as int)),
                )
            } else {
                None
            }
        } else if t[1] == 'u' && t.len() >= 3 && t[2] == '{' {
            let d = t.subrange(3, t.len() as int);
            let n = hex_prefix_len(d);
            if 1 <= n <= 6 && n < d.len() && d[n as int] == '}' && is_char_value(
                hex_value(d.take(n as int)),
            ) {
                prepend(
                    hex_value(d.take(n as int)) as char,
                    unescape_body(t.subrange(4 + n as int, t.len() as int)),
                )
            } else {
                None
            }
        } else {
            None
        }
    } else if t[0] == '"' || t[0] == '\r' {
        None
    } else {
        prepend(t[0], unescape_body(t.drop_first()))
    }
}

/// The value of a Rust string literal `"…"`, or `None` when `t` is not one
/// (see [`unescape_body`] for the escapes it reads).
#[verifier::opaque]
pub open spec fn literal_value(t: Seq<char>) -> Option<Seq<char>> {
    if t.len() >= 2 && t[0] == '"' && t.last() == '"' {
        unescape_body(t.subrange(1, t.len() - 1))
    } else {
        None
    }
}

/// Writes the string literal of `s` with `proc_macro2::Literal::string`, the
/// call that interpolating a `String` into `quote!` makes.
///
/// The contract claims that the text is a string literal whose value is `s`,
/// and not how it is spelled.  Which writer runs is a process-wide choice of
/// `proc_macro2` (the compiler's inside a procedural macro, its own outside,
/// switched by `proc_macro2::fallback::force` and `unforce`), and the two can
/// spell one string differently.  Both write `"`, then each character either
/// as itself (never `"`, `\` or a carriage return) or escaped as `\0`, `\x00`,
/// `\t`, `\r`, `\n`, `\\`, `\"`, `\'` or `\u{…}` (`char::escape_debug`),
/// then `"`; `literal_value` reads all of these.
#[verifier::external_body]
pub(crate) fn string_literal_text(s: &str) -> (out: String)
    ensures
        literal_value(out@) == Some(s@),
{
    proc_macro2::Literal::string(s).to_string()
}

/// Whether `part` occurs in `whole` as a run of consecutive characters.
#[verifier::opaque]
pub open spec fn occurs_in(part: Seq<char>, whole: Seq<char>) -> bool {
    exists|k: int|
        0 <= k && k + part.len() <= whole.len() && #[trigger] whole.subrange(k, k + part.len())
            == part
}

/// A text occurs in itself.
pub proof fn lemma_occurs_in_itself(part: Seq<char>)
    ensures
        occurs_in(part, part),
{
    reveal(occurs_in);
    let k: int = 0;
    assert(part.subrange(k, k + part.len()) =~= part);
}

/// A text that occurs in `w` occurs in anything written around `w`.
pub proof fn lemma_occurs_in_concat(part: Seq<char>, a: Seq<char>, w: Seq<char>, b: Seq<char>)
    requires
        occurs_in(part, w),
    ensures
        occurs_in(part, a + w + b),
{
    reveal(occurs_in);
    let k = choose|k: int|
        0 <= k && k + part.len() <= w.len() && #[trigger] w.subrange(k, k + part.len()) == part;
    let k2 = a.len() + k;
    assert((a + w + b).subrange(k2, k2 + part.len()) =~= w.subrange(k, k + part.len()));
}

/// A text occurs in anything written around it.
pub proof fn lemma_occurs_between(part: Seq<char>, a: Seq<char>, b: Seq<char>)
    ensures
        occurs_in(part, a + part + b),
{
    lemma_occurs_in_itself(part);
    lemma_occurs_in_concat(part, a, part, b);
}

/// `items` written one after the other with `sep` between them.
pub open spec fn join(items: Seq<Seq<char>>, sep: Seq<char>) -> Seq<char>
    decreases items.len(),
{
    if items.len() == 0 {
        seq![]
    } else if items.len() == 1 {
        items[0]
    } else {
        join(items.drop_last(), sep) + sep + items.last()
    }
}

pub proof fn lemma_join_push(items: Seq<Seq<char>>, x: Seq<char>, sep: Seq<char>)
    ensures
        join(items.push(x), sep) == if items.len() == 0 {
            x
        } else {
            join(items, sep) + sep + x
        },
{
    assert(items.push(x).drop_last() =~= items);
    assert(items.push(x).last() == x);
    if items.len() == 0 {
        assert(items.push(x)[0] == x);
    }
}

/// A joined list starts with its first item.
pub proof fn lemma_join_starts_with_first(items: Seq<Seq<char>>, sep: Seq<char>)
    requires
        items.len() > 0,
    ensures
        join(items, sep).len() >= items[0].len(),
        join(items, sep).take(items[0].len() as int) == items[0],
    decreases items.len(),
{
    if items.len() > 1 {
        let prev = items.drop_last();
        lemma_join_starts_with_first(prev, sep);
        assert(prev[0] == items[0]);
        let j = join(prev, sep);
        assert((j + sep + items.last()).take(items[0].len() as int) =~= j.take(items[0].len() as int));
    }
}

} // verus!
