//! Text building blocks: decimal rendering of integers and list membership
//! of strings.
use vstd::prelude::*;

verus! {

/// The character that writes the decimal digit `d`.
pub open spec fn digit_char(d: nat) -> char {
    if d == 0 {
        '0'
    } else if d == 1 {
        '1'
    } else if d == 2 {
        '2'
    } else if d == 3 {
        '3'
    } else if d == 4 {
        '4'
    } else if d == 5 {
        '5'
    } else if d == 6 {
        '6'
    } else if d == 7 {
        '7'
    } else if d == 8 {
        '8'
    } else {
        '9'
    }
}

/// The decimal representation of `n`, without leading zeros.
pub open spec fn dec_digits(n: nat) -> Seq<char>
    decreases n,
{
    if n < 10 {
        seq![digit_char(n)]
    } else {
        dec_digits(n / 10).push(digit_char(n % 10))
    }
}

/// `h` hundredths written with exactly two decimals, as `{:.2}` writes `h / 100`.
pub open spec fn fixed2_chars(h: nat) -> Seq<char> {
    dec_digits(h / 100) + seq!['.', digit_char((h % 100) / 10), digit_char(h % 10)]
}

/// Whether `c` is one of the decimal digits.
pub open spec fn is_digit_char(c: char) -> bool {
    '0' <= c && c <= '9'
}

/// Distinct digits are written with distinct characters.
pub proof fn lemma_digit_char_injective(a: nat, b: nat)
    requires
        a < 10,
        b < 10,
        digit_char(a) == digit_char(b),
    ensures
        a == b,
{
}

/// A decimal representation is non-empty and made of digits only.
pub proof fn lemma_dec_digits_shape(n: nat)
    ensures
        dec_digits(n).len() >= 1,
        forall|i: int| 0 <= i < dec_digits(n).len() ==> is_digit_char(#[trigger] dec_digits(n)[i]),
    decreases n,
{
    if n >= 10 {
        lemma_dec_digits_shape(n / 10);
    }
}

/// Distinct numbers have distinct decimal representations.
pub proof fn lemma_dec_digits_injective(n: nat, m: nat)
    requires
        dec_digits(n) == dec_digits(m),
    ensures
        n == m,
    decreases n,
{
    if n < 10 && m < 10 {
        assert(dec_digits(n)[0] == digit_char(n));
        assert(dec_digits(m)[0] == digit_char(m));
        lemma_digit_char_injective(n, m);
    } else if n < 10 {
        lemma_dec_digits_shape(m / 10);
        assert(dec_digits(m).len() >= 2);
    } else if m < 10 {
        lemma_dec_digits_shape(n / 10);
        assert(dec_digits(n).len() >= 2);
    } else {
        let a = dec_digits(n);
        let b = dec_digits(m);
        assert(a.last() == digit_char(n % 10));
        assert(b.last() == digit_char(m % 10));
        lemma_digit_char_injective(n % 10, m % 10);
        assert(a.drop_last() =~= dec_digits(n / 10));
        assert(b.drop_last() =~= dec_digits(m / 10));
        lemma_dec_digits_injective(n / 10, m / 10);
    }
}

/// When two texts each start with a number followed by a non-digit, equal
/// texts have equal numbers and equal rests.
pub proof fn lemma_dec_digits_prefix(n: nat, m: nat, x: Seq<char>, y: Seq<char>)
    requires
        dec_digits(n) + x == dec_digits(m) + y,
        x.len() > 0 && !is_digit_char(x[0]),
        y.len() > 0 && !is_digit_char(y[0]),
    ensures
        n == m,
        x == y,
{
    let a = dec_digits(n);
    let b = dec_digits(m);
    lemma_dec_digits_shape(n);
    lemma_dec_digits_shape(m);
    if a.len() < b.len() {
        assert((a + x)[a.len() as int] == x[0]);
        assert((b + y)[a.len() as int] == b[a.len() as int]);
    } else if b.len() < a.len() {
        assert((b + y)[b.len() as int] == y[0]);
        assert((a + x)[b.len() as int] == a[b.len() as int]);
    } else {
        assert(a =~= (a + x).subrange(0, a.len() as int));
        assert(b =~= (b + y).subrange(0, b.len() as int));
        lemma_dec_digits_injective(n, m);
        assert(x =~= (a + x).skip(a.len() as int));
        assert(y =~= (b + y).skip(b.len() as int));
    }
}

/// When two texts each start with an amount in hundredths written with two
/// decimals and then a non-digit, equal texts have equal amounts and equal rests.
pub proof fn lemma_fixed2_prefix(h: nat, g: nat, x: Seq<char>, y: Seq<char>)
    requires
        fixed2_chars(h) + x == fixed2_chars(g) + y,
        x.len() > 0 && !is_digit_char(x[0]),
        y.len() > 0 && !is_digit_char(y[0]),
    ensures
        h == g,
        x == y,
{
    let xh = seq!['.', digit_char((h % 100) / 10), digit_char(h % 10)] + x;
    let yg = seq!['.', digit_char((g % 100) / 10), digit_char(g % 10)] + y;
    assert(fixed2_chars(h) + x =~= dec_digits(h / 100) + xh);
    assert(fixed2_chars(g) + y =~= dec_digits(g / 100) + yg);
    lemma_dec_digits_prefix(h / 100, g / 100, xh, yg);
    assert(xh[1] == yg[1]);
    assert(xh[2] == yg[2]);
    lemma_digit_char_injective((h % 100) / 10, (g % 100) / 10);
    lemma_digit_char_injective(h % 10, g % 10);
    assert(x =~= xh.skip(3));
    assert(y =~= yg.skip(3));
}

fn digit_str(d: u64) -> (s: &'static str)
    requires
        d < 10,
    ensures
        s@ == seq![digit_char(d as nat)],
{
    let s: &'static str = if d == 0 {
        "0"
    } else if d == 1 {
        "1"
    } else if d == 2 {
        "2"
    } else if d == 3 {
        "3"
    } else if d == 4 {
        "4"
    } else if d == 5 {
        "5"
    } else if d == 6 {
        "6"
    } else if d == 7 {
        "7"
    } else if d == 8 {
        "8"
    } else {
        "9"
    };
    proof {
        reveal_strlit("0");
        reveal_strlit("1");
        reveal_strlit("2");
        reveal_strlit("3");
        reveal_strlit("4");
        reveal_strlit("5");
        reveal_strlit("6");
        reveal_strlit("7");
        reveal_strlit("8");
        reveal_strlit("9");
    }
    assert(s@ =~= seq![digit_char(d as nat)]);
    s
}

/// Renders `n` in decimal, as `format!("{}", n)` does.
pub fn decimal_string(n: u64) -> (s: String)
    ensures
        s@ == dec_digits(n as nat),
    decreases n,
{
    if n < 10 {
        String::from_str(digit_str(n))
    } else {
        let mut s = decimal_string(n / 10);
        s.append(digit_str(n % 10));
        s
    }
}

/// Renders `h` hundredths with two decimals, as `format!("{:.2}", h as f64 / 100.0)` does.
pub fn fixed2_string(h: u64) -> (s: String)
    ensures
        s@ == fixed2_chars(h as nat),
{
    let mut s = decimal_string(h / 100);
    s.append(".");
    s.append(digit_str((h % 100) / 10));
    s.append(digit_str(h % 10));
    proof {
        reveal_strlit(".");
    }
    assert(s@ =~= fixed2_chars(h as nat));
    s
}

} // verus!

verus! {

/// The character sequences of a list of strings.
pub open spec fn views(list: Seq<String>) -> Seq<Seq<char>> {
    list.map_values(|x: String| x@)
}

/// String equality of two string slices.
pub fn str_eq(a: &str, b: &str) -> (r: bool)
    ensures
        r == (a@ == b@),
{
    let a_owned = a.to_owned();
    let b_owned = b.to_owned();
    a_owned == b_owned
}

/// Whether `list` holds a string equal to `s`.
pub fn list_contains(list: &Vec<String>, s: &str) -> (r: bool)
    ensures
        r == views(list@).contains(s@),
{
    let n = list.len();
    let mut i: usize = 0;
    while i < n
        invariant
            n == list@.len(),
            i <= n,
            forall|j: int| 0 <= j < i ==> list@[j]@ != s@,
        decreases n - i,
    {
        if str_eq(list[i].as_str(), s) {
            assert(views(list@)[i as int] == s@);
            return true;
        }
        i = i + 1;
    }
    assert forall|j: int| 0 <= j < views(list@).len() implies views(list@)[j] != s@ by {
        assert(views(list@)[j] == list@[j]@);
    }
    false
}

} // verus!
