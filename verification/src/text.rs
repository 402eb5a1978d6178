//! Text building blocks: decimal numbers, padded fields and lists.
use vstd::arithmetic::div_mod::lemma_div_denominator;
use vstd::arithmetic::power::{lemma_pow0, lemma_pow1, lemma_pow_positive, pow};
use vstd::prelude::*;
use vstd::string::*;

verus! {

/// The character of one decimal digit.
pub open spec fn digit(d: int) -> char {
    if d == 0 {
        '0'
    } else if d == 1 {
        '1'
    } else if d == 2 {
        '2'
    } else if d == 3 {
        '3'
    } else if d == 4 {
        '4'
    } else if d == 5 {
        '5'
    } else if d == 6 {
        '6'
    } else if d == 7 {
        '7'
    } else if d == 8 {
        '8'
    } else {
        '9'
    }
}

/// A natural number in decimal, most significant digit first, without leading zeros.
pub open spec fn decimal(n: nat) -> Seq<char>
    decreases n,
{
    if n < 10 {
        seq![digit(n as int)]
    } else {
        decimal(n / 10).push(digit((n % 10) as int))
    }
}

/// An integer in decimal, with a minus sign in front of a negative one.
pub open spec fn signed_decimal(n: int) -> Seq<char> {
    if n < 0 {
        seq!['-'] + decimal((-n) as nat)
    } else {
        decimal(n as nat)
    }
}

/// `s`, filled up with blanks on the right to `width` characters; a longer `s` is left as it is.
pub open spec fn padded(s: Seq<char>, width: nat) -> Seq<char> {
    s + Seq::new((if s.len() < width { width - s.len() } else { 0 }) as nat, |i: int| ' ')
}

/// The views of a sequence of strings.
pub open spec fn texts(lines: Seq<String>) -> Seq<Seq<char>> {
    lines.map_values(|s: String| s@)
}

/// `items` in order, with `sep` between neighbours.
pub open spec fn joined(items: Seq<Seq<char>>, sep: Seq<char>) -> Seq<char>
    decreases items.len(),
{
    if items.len() == 0 {
        Seq::empty()
    } else if items.len() == 1 {
        items[0]
    } else {
        joined(items.drop_last(), sep) + sep + items.last()
    }
}

fn digit_text(d: u64) -> (r: &'static str)
    requires
        d < 10,
    ensures
        r@ == seq![digit(d as int)],
{
    proof {
        reveal_strlit("0");
        reveal_strlit("1");
        reveal_strlit("2");
        reveal_strlit("3");
        reveal_strlit("4");
        reveal_strlit("5");
        reveal_strlit("6");
        reveal_strlit("7");
        reveal_strlit("8");
        reveal_strlit("9");
    }
    match d {
        0 => "0",
        1 => "1",
        2 => "2",
        3 => "3",
        4 => "4",
        5 => "5",
        6 => "6",
        7 => "7",
        8 => "8",
        _ => "9",
    }
}

/// Writes a number in decimal.
pub fn decimal_text(n: u64) -> (r: String)
    ensures
        r@ == decimal(n as nat),
    decreases n,
{
    if n < 10 {
        digit_text(n).to_owned()
    } else {
        let mut s = decimal_text(n / 10);
        s.append(digit_text(n % 10));
        assert(decimal((n / 10) as nat) + seq![digit((n % 10) as int)] =~= decimal(
            (n / 10) as nat,
        ).push(digit((n % 10) as int)));
        s
    }
}

/// Writes a signed number in decimal.
pub fn signed_text(n: i64) -> (r: String)
    ensures
        r@ == signed_decimal(n as int),
{
    if n < 0 {
        proof {
            reveal_strlit("-");
        }
        let magnitude: u64 = (-(n + 1)) as u64 + 1;
        let mut s = "-".to_owned();
        assert(s@ =~= seq!['-']);
        let digits = decimal_text(magnitude);
        s.append(digits.as_str());
        s
    } else {
        decimal_text(n as u64)
    }
}

/// Fills a field up with blanks on the right.
pub fn padded_text(s: &str, width: usize) -> (r: String)
    ensures
        r@ == padded(s@, width as nat),
{
    let mut r = s.to_owned();
    let mut used: usize = s.unicode_len();
    proof {
        reveal_strlit(" ");
    }
    assert(r@ =~= s@ + Seq::new(0nat, |i: int| ' '));
    while used < width
        invariant
            s@.len() <= used,
            used <= width || used == s@.len(),
            r@ == s@ + Seq::new((used - s@.len()) as nat, |i: int| ' '),
            " "@ =~= seq![' '],
        decreases width - used,
    {
        r.append(" ");
        used = used + 1;
        assert(r@ =~= s@ + Seq::new((used - s@.len()) as nat, |i: int| ' '));
    }
    r
}

/// Joins strings with a separator.
pub fn joined_text(items: &Vec<String>, sep: &str) -> (r: String)
    ensures
        r@ == joined(texts(items@), sep@),
{
    let mut r = String::new();
    let mut i: usize = 0;
    while i < items.len()
        invariant
            i <= items.len(),
            r@ == joined(texts(items@).take(i as int), sep@),
        decreases items.len() - i,
    {
        let ghost all = texts(items@);
        assert(all.take(i + 1).drop_last() =~= all.take(i as int));
        assert(all.take(i + 1).last() == items@[i as int]@);
        if i > 0 {
            r.append(sep);
            r.append(items[i].as_str());
        } else {
            r.append(items[i].as_str());
            assert(r@ =~= items@[0]@);
        }
        i = i + 1;
    }
    assert(texts(items@).take(i as int) =~= texts(items@));
    r
}

/// The value of a decimal digit.
pub open spec fn digit_value(c: char) -> int {
    c as int - '0' as int
}

/// The number that a row of decimal digits stands for.
pub open spec fn number(s: Seq<char>) -> int
    decreases s.len(),
{
    if s.len() == 0 {
        0
    } else {
        10 * number(s.drop_last()) + digit_value(s.last())
    }
}

/// A number in decimal reads back as the same number, and starts with no idle zero.
pub proof fn law_decimal_reads_back(n: nat)
    ensures
        number(decimal(n)) == n,
        decimal(n).len() > 0,
        n > 0 ==> decimal(n)[0] != '0',
    decreases n,
{
    reveal_with_fuel(number, 2);
    if n < 10 {
        assert(decimal(n).drop_last() =~= Seq::<char>::empty());
    } else {
        law_decimal_reads_back(n / 10);
        assert(decimal(n).drop_last() =~= decimal(n / 10));
    }
}

/// Padding keeps the text at the front and makes it as wide as asked for, and never wider than
/// both.
pub proof fn law_padding_fills_the_field(s: Seq<char>, width: nat)
    ensures
        padded(s, width).take(s.len() as int) == s,
        padded(s, width).len() == if s.len() < width {
            width
        } else {
            s.len()
        },
{
    assert(padded(s, width).take(s.len() as int) =~= s);
}

/// The integer that a decimal text stands for: a minus sign in front makes it negative.
pub open spec fn signed_number(s: Seq<char>) -> int {
    if s.len() > 0 && s[0] == '-' {
        -number(s.skip(1))
    } else {
        number(s)
    }
}

proof fn lemma_places(n: nat)
    ensures
        decimal(n).len() > 0,
        n < pow(10, decimal(n).len()),
        decimal(n).len() > 1 ==> pow(10, (decimal(n).len() - 1) as nat) <= n,
        forall|i: int|
            0 <= i < decimal(n).len() ==> (#[trigger] decimal(n)[i]) as int == '0' as int + (n as int
                / pow(10, (decimal(n).len() - 1 - i) as nat)) % 10,
    decreases n,
{
    lemma_pow0(10);
    let len = decimal(n).len();
    if n < 10 {
        lemma_pow1(10);
    } else {
        let front = n / 10;
        lemma_places(front);
        let rest = decimal(front).len();
        assert(len == rest + 1);
        assert(pow(10, len) == 10 * pow(10, rest)) by {
            reveal(pow);
        }
        assert(pow(10, (len - 1) as nat) <= n) by {
            if rest > 1 {
                assert(pow(10, rest) == 10 * pow(10, (rest - 1) as nat)) by {
                    reveal(pow);
                }
            } else {
                lemma_pow1(10);
            }
        }
        assert forall|i: int| 0 <= i < len implies (#[trigger] decimal(n)[i]) as int == '0' as int
            + (n as int / pow(10, (len - 1 - i) as nat)) % 10 by {
            if i < rest {
                let below = (rest - 1 - i) as nat;
                assert(decimal(n)[i] == decimal(front)[i]);
                lemma_pow_positive(10, below);
                assert(pow(10, (below + 1) as nat) == 10 * pow(10, below)) by {
                    reveal(pow);
                }
                lemma_div_denominator(n as int, 10, pow(10, below));
                assert(len - 1 - i == below + 1);
            } else {
                assert(n as int / 1 == n);
            }
        }
    }
}

/// Every character of a decimal text is the digit of its place: the one that stands for as many
/// times a power of ten as the number holds of it, modulo ten. The text is as long as it has to be
/// and no longer.
pub proof fn law_decimal_shows_every_place(n: u64, r: String)
    requires
        call_ensures(decimal_text, (n,), r),
    ensures
        r@.len() > 0,
        n < pow(10, r@.len()),
        r@.len() > 1 ==> pow(10, (r@.len() - 1) as nat) <= n,
        forall|i: int|
            0 <= i < r@.len() ==> (#[trigger] r@[i]) as int == '0' as int + (n as int / pow(
                10,
                (r@.len() - 1 - i) as nat,
            )) % 10,
{
    lemma_places(n as nat);
}

/// A signed number is written like its magnitude, and a negative one has a minus sign in front.
pub proof fn law_signed_text_is_sign_and_magnitude(n: i64, r: String, magnitude: String)
    requires
        call_ensures(signed_text, (n,), r),
        call_ensures(decimal_text, ((if n < 0 { -n } else { n as int }) as u64,), magnitude),
    ensures
        n >= 0 ==> r@ == magnitude@,
        n < 0 ==> r@ == seq!['-'] + magnitude@,
{
}

/// A signed number in decimal reads back as the same number.
pub proof fn law_signed_text_reads_back(n: i64, r: String)
    requires
        call_ensures(signed_text, (n,), r),
    ensures
        signed_number(r@) == n,
{
    lemma_signed_reads_back(n as int);
}

pub(crate) proof fn lemma_signed_reads_back(n: int)
    ensures
        signed_number(signed_decimal(n)) == n,
{
    let s = signed_decimal(n);
    if n < 0 {
        law_decimal_reads_back((-n) as nat);
        assert(s.skip(1) =~= decimal((-n) as nat));
    } else {
        law_decimal_reads_back(n as nat);
        lemma_places(n as nat);
        assert(s[0] as int >= '0' as int);
    }
}

/// Two different numbers are written differently.
pub proof fn law_signed_texts_differ(n: i64, m: i64, a: String, b: String)
    requires
        call_ensures(signed_text, (n,), a),
        call_ensures(signed_text, (m,), b),
        n != m,
    ensures
        a@ != b@,
{
    law_signed_text_reads_back(n, a);
    law_signed_text_reads_back(m, b);
}

/// A padded field begins with its text, and all that is added to it is blanks up to the width.
pub proof fn law_padding_adds_blanks_only(s: &str, width: usize, r: String)
    requires
        call_ensures(padded_text, (s, width), r),
    ensures
        r@.len() == if s@.len() < width {
            width as nat
        } else {
            s@.len()
        },
        r@.subrange(0, s@.len() as int) == s@,
        forall|i: int| s@.len() <= i < r@.len() ==> #[trigger] r@[i] == ' ',
{
    assert(r@.subrange(0, s@.len() as int) =~= s@);
}

/// Joining nothing gives nothing, joining one text gives that text, and one text more at the end
/// adds the separator and that text.
pub proof fn law_joining_adds_one_after_another(
    items: &Vec<String>,
    more: &Vec<String>,
    last: String,
    sep: &str,
    r: String,
    longer: String,
)
    requires
        call_ensures(joined_text, (items, sep), r),
        call_ensures(joined_text, (more, sep), longer),
        more@ == items@.push(last),
    ensures
        items@.len() == 0 ==> r@ == Seq::<char>::empty(),
        items@.len() == 0 ==> longer@ == last@,
        items@.len() > 0 ==> longer@ == r@ + sep@ + last@,
{
    assert(texts(more@).drop_last() =~= texts(items@));
    assert(texts(more@).last() == last@);
}

/// The texts of lines are the lines, one for one.
pub proof fn law_texts_are_the_lines(lines: Seq<String>)
    ensures
        texts(lines).len() == lines.len(),
        forall|i: int| 0 <= i < lines.len() ==> #[trigger] texts(lines)[i] == lines[i]@,
{
}

} // verus!
