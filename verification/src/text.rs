//! Text that is put together piece by piece.
use vstd::prelude::*;

verus! {

/// The character of a decimal digit.
pub open spec fn digit_char(d: nat) -> char {
    if d == 0 {
        '0'
    } else if d == 1 {
        '1'
    } else if d == 2 {
        '2'
    } else if d == 3 {
        '3'
    } else if d == 4 {
        '4'
    } else if d == 5 {
        '5'
    } else if d == 6 {
        '6'
    } else if d == 7 {
        '7'
    } else if d == 8 {
        '8'
    } else {
        '9'
    }
}

/// The decimal notation of a number, without leading zeros.
pub open spec fn decimal_of(n: nat) -> Seq<char>
    decreases n,
{
    if n < 10 {
        seq![digit_char(n)]
    } else {
        decimal_of(n / 10).push(digit_char(n % 10))
    }
}

/// The decimal notation of a number that may be negative.
pub open spec fn signed_decimal_of(n: int) -> Seq<char> {
    if n < 0 {
        seq!['-'] + decimal_of((-n) as nat)
    } else {
        decimal_of(n as nat)
    }
}

fn digit(d: u64) -> (r: &'static str)
    requires
        d < 10,
    ensures
        r@ == seq![digit_char(d as nat)],
{
    proof {
        reveal_strlit("0");
        reveal_strlit("1");
        reveal_strlit("2");
        reveal_strlit("3");
        reveal_strlit("4");
        reveal_strlit("5");
        reveal_strlit("6");
        reveal_strlit("7");
        reveal_strlit("8");
        reveal_strlit("9");
    }
    if d == 0 {
        "0"
    } else if d == 1 {
        "1"
    } else if d == 2 {
        "2"
    } else if d == 3 {
        "3"
    } else if d == 4 {
        "4"
    } else if d == 5 {
        "5"
    } else if d == 6 {
        "6"
    } else if d == 7 {
        "7"
    } else if d == 8 {
        "8"
    } else {
        "9"
    }
}

/// Decimal notation consists of digits, and there is at least one.
pub proof fn decimal_is_digits(n: nat)
    ensures
        decimal_of(n).len() > 0,
        forall|i: int|
            0 <= i < decimal_of(n).len() ==> '0' <= #[trigger] decimal_of(n)[i] && decimal_of(n)[i]
                <= '9',
    decreases n,
{
    if n >= 10 {
        decimal_is_digits(n / 10);
    }
}

/// Different numbers have different notations.
pub proof fn decimal_is_injective(n: nat, m: nat)
    requires
        decimal_of(n) == decimal_of(m),
    ensures
        n == m,
    decreases n,
{
    decimal_is_digits(n / 10);
    decimal_is_digits(m / 10);
    if n < 10 || m < 10 {
        assert(n >= 10 ==> decimal_of(n).len() == decimal_of(n / 10).len() + 1);
        assert(m >= 10 ==> decimal_of(m).len() == decimal_of(m / 10).len() + 1);
        assert(n < 10 && m < 10);
        assert(decimal_of(n)[0] == digit_char(n) && decimal_of(m)[0] == digit_char(m));
    } else {
        assert(decimal_of(n).drop_last() =~= decimal_of(n / 10));
        assert(decimal_of(m).drop_last() =~= decimal_of(m / 10));
        assert(decimal_of(n).last() == digit_char(n % 10));
        assert(decimal_of(m).last() == digit_char(m % 10));
        assert(n % 10 == m % 10);
        decimal_is_injective(n / 10, m / 10);
    }
}

/// Write a number in decimal notation.
pub fn decimal(n: u64) -> (r: String)
    ensures
        r@ == decimal_of(n as nat),
    decreases n,
{
    if n < 10 {
        digit(n).to_owned()
    } else {
        let mut text = decimal(n / 10);
        text.append(digit(n % 10));
        assert(text@ =~= decimal_of((n / 10) as nat).push(digit_char((n % 10) as nat)));
        text
    }
}

/// Write a number that may be negative in decimal notation.
pub fn signed_decimal(n: i64) -> (r: String)
    ensures
        r@ == signed_decimal_of(n as int),
{
    if n >= 0 {
        decimal(n as u64)
    } else {
        proof {
            reveal_strlit("-");
        }
        let magnitude: u64 = if n == i64::MIN {
            9_223_372_036_854_775_808
        } else {
            (-n) as u64
        };
        let mut text = "-".to_owned();
        text.append(decimal(magnitude).as_str());
        assert(text@ =~= seq!['-'] + decimal_of((-n) as nat));
        text
    }
}

/// `part` stands somewhere in `text`.
pub open spec fn contains_text(text: Seq<char>, part: Seq<char>) -> bool {
    exists|at: int|
        0 <= at <= text.len() - part.len() && #[trigger] text.subrange(at, at + part.len()) == part
}

/// A text that stands between two others stands in the whole.
pub proof fn part_is_contained(start: Seq<char>, part: Seq<char>, end: Seq<char>)
    ensures
        contains_text(start + part + end, part),
{
    let text = start + part + end;
    let at = start.len() as int;
    assert(text.subrange(at, at + part.len()) =~= part);
}

/// A text that stands behind another stands in the whole.
pub proof fn end_is_contained(start: Seq<char>, part: Seq<char>)
    ensures
        contains_text(start + part, part),
{
    part_is_contained(start, part, Seq::empty());
    assert(start + part + Seq::<char>::empty() =~= start + part);
}

/// What stands in the first of two texts stands in the whole.
pub proof fn contained_in_longer(text: Seq<char>, part: Seq<char>, end: Seq<char>)
    requires
        contains_text(text, part),
    ensures
        contains_text(text + end, part),
{
    let at = choose|at: int|
        0 <= at <= text.len() - part.len() && #[trigger] text.subrange(at, at + part.len()) == part;
    assert((text + end).subrange(at, at + part.len()) =~= part);
}

/// Put three pieces of text one behind the other.
pub fn joined(start: &str, middle: &str, end: &str) -> (r: String)
    ensures
        r@ == start@ + middle@ + end@,
{
    let mut text = start.to_owned();
    text.append(middle);
    text.append(end);
    text
}

/// Whether `text` ends in `suffix`.
pub open spec fn has_suffix(text: Seq<char>, suffix: Seq<char>) -> bool {
    &&& suffix.len() <= text.len()
    &&& text.skip(text.len() - suffix.len()) == suffix
}

/// A text ends in another if and only if it is some text with the other behind it.
pub proof fn suffix_stands_at_the_end(text: Seq<char>, suffix: Seq<char>)
    ensures
        has_suffix(text, suffix) <==> exists|start: Seq<char>| text == #[trigger] (start + suffix),
{
    if has_suffix(text, suffix) {
        let start = text.take(text.len() - suffix.len());
        assert(text =~= start + suffix);
    }
    if exists|start: Seq<char>| text == #[trigger] (start + suffix) {
        let start = choose|start: Seq<char>| text == #[trigger] (start + suffix);
        assert(text.skip(text.len() - suffix.len()) =~= suffix);
    }
}

/// Whether `text` ends in `suffix`.
pub fn ends_with(text: &str, suffix: &str) -> (r: bool)
    ensures
        r == has_suffix(text@, suffix@),
{
    let n: usize = text.unicode_len();
    let k: usize = suffix.unicode_len();
    if k > n {
        return false;
    }
    let mut i: usize = 0;
    while i < k
        invariant
            i <= k <= n,
            n == text@.len(),
            k == suffix@.len(),
            forall|j: int| 0 <= j < i ==> text@[n - k + j] == suffix@[j],
        decreases k - i,
    {
        if text.get_char(n - k + i) != suffix.get_char(i) {
            assert(text@.skip(n - k)[i as int] != suffix@[i as int]);
            return false;
        }
        i += 1;
    }
    assert(text@.skip(n - k) =~= suffix@);
    true
}

/// The number that some decimal digits name.
pub open spec fn decimal_value(digits: Seq<char>) -> int
    decreases digits.len(),
{
    if digits.len() == 0 {
        0
    } else {
        10 * decimal_value(digits.drop_last()) + (digits.last() as int - '0' as int)
    }
}

/// The decimal notation of a number names that number, and it starts with a zero for zero only.
pub proof fn decimal_names_the_number(n: u64, r: String)
    requires
        call_ensures(decimal, (n,), r),
    ensures
        decimal_value(r@) == n,
        r@.len() > 0,
        forall|i: int| 0 <= i < r@.len() ==> '0' <= #[trigger] r@[i] && r@[i] <= '9',
        r@[0] == '0' ==> n == 0,
{
    decimal_is_digits(n as nat);
    lemma_decimal_value(n as nat);
}

/// A number that is not negative is written as one without a sign, and another as its opposite
/// with a minus sign in front.
pub proof fn signed_decimal_names_the_number(n: i64, r: String)
    requires
        call_ensures(signed_decimal, (n,), r),
    ensures
        n >= 0 ==> decimal_value(r@) == n && r@[0] != '-',
        n < 0 ==> r@[0] == '-' && decimal_value(r@.skip(1)) == -n,
{
    if n >= 0 {
        decimal_is_digits(n as nat);
        lemma_decimal_value(n as nat);
    } else {
        lemma_decimal_value((-n) as nat);
        assert(r@.skip(1) =~= decimal_of((-n) as nat));
    }
}

proof fn lemma_decimal_value(n: nat)
    ensures
        decimal_value(decimal_of(n)) == n,
        decimal_of(n)[0] == '0' ==> n == 0,
    decreases n,
{
    reveal_with_fuel(decimal_value, 2);
    if n >= 10 {
        lemma_decimal_value(n / 10);
        decimal_is_digits(n / 10);
        assert(decimal_of(n).drop_last() =~= decimal_of(n / 10));
        assert(decimal_of(n)[0] == decimal_of(n / 10)[0]);
    } else {
        assert(decimal_of(n).drop_last() =~= Seq::empty());
    }
}

/// Digits can be told from what follows them, if that does not go on with a digit.
pub proof fn digits_end_where_they_end(a: Seq<char>, b: Seq<char>, rest: Seq<char>, other: Seq<char>)
    requires
        a + rest == b + other,
        forall|i: int| 0 <= i < a.len() ==> '0' <= #[trigger] a[i] && a[i] <= '9',
        forall|i: int| 0 <= i < b.len() ==> '0' <= #[trigger] b[i] && b[i] <= '9',
        rest.len() > 0 ==> !('0' <= rest[0] && rest[0] <= '9'),
        other.len() > 0 ==> !('0' <= other[0] && other[0] <= '9'),
    ensures
        a == b,
        rest == other,
{
    let whole = a + rest;
    assert((a + rest).len() == (b + other).len());
    if a.len() < b.len() {
        assert(whole[a.len() as int] == rest[0]);
        assert((b + other)[a.len() as int] == b[a.len() as int]);
    } else if b.len() < a.len() {
        assert((b + other)[b.len() as int] == other[0]);
        assert(whole[b.len() as int] == a[b.len() as int]);
    }
    assert(a =~= whole.take(a.len() as int));
    assert(b =~= (b + other).take(b.len() as int));
    assert(rest =~= whole.skip(a.len() as int));
    assert(other =~= (b + other).skip(b.len() as int));
}

} // verus!
