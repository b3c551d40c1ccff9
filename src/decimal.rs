//! Decimal rendering of unsigned integers as text.
use vstd::prelude::*;

verus! {

/// The character of a decimal digit.
pub open spec fn digit_char(d: nat) -> char {
    if d == 0 {
        '0'
    } else if d == 1 {
        '1'
    } else if d == 2 {
        '2'
    } else if d == 3 {
        '3'
    } else if d == 4 {
        '4'
    } else if d == 5 {
        '5'
    } else if d == 6 {
        '6'
    } else if d == 7 {
        '7'
    } else if d == 8 {
        '8'
    } else {
        '9'
    }
}

/// The decimal digits of `n`, most significant first, without leading zeros.
pub open spec fn decimal(n: nat) -> Seq<char>
    decreases n,
{
    if n < 10 {
        seq![digit_char(n)]
    } else {
        decimal(n / 10).push(digit_char(n % 10))
    }
}

/// The one-character text of the digit `d`.
fn digit_text(d: u64) -> (r: &'static str)
    requires
        d < 10,
    ensures
        r@ == seq![digit_char(d as nat)],
{
    proof {
        reveal_strlit("0");
        reveal_strlit("1");
        reveal_strlit("2");
        reveal_strlit("3");
        reveal_strlit("4");
        reveal_strlit("5");
        reveal_strlit("6");
        reveal_strlit("7");
        reveal_strlit("8");
        reveal_strlit("9");
    }
    if d == 0 {
        "0"
    } else if d == 1 {
        "1"
    } else if d == 2 {
        "2"
    } else if d == 3 {
        "3"
    } else if d == 4 {
        "4"
    } else if d == 5 {
        "5"
    } else if d == 6 {
        "6"
    } else if d == 7 {
        "7"
    } else if d == 8 {
        "8"
    } else {
        "9"
    }
}

/// `v` written in decimal.
pub fn decimal_text(v: u64) -> (r: String)
    ensures
        r@ == decimal(v as nat),
{
    let mut n: u64 = v / 10;
    let mut acc = String::from_str(digit_text(v % 10));
    proof {
        if v >= 10 {
            assert(decimal(v as nat) =~= decimal(n as nat) + acc@);
        }
    }
    while n > 0
        invariant
            n > 0 ==> decimal(v as nat) == decimal(n as nat) + acc@,
            n == 0 ==> decimal(v as nat) == acc@,
        decreases n,
    {
        let d = digit_text(n % 10);
        acc = String::from_str(d).concat(acc.as_str());
        proof {
            if n >= 10 {
                assert(decimal(n as nat) =~= decimal((n / 10) as nat) + seq![
                    digit_char((n % 10) as nat),
                ]);
                assert(decimal(v as nat) =~= decimal((n / 10) as nat) + acc@);
            } else {
                assert(decimal(v as nat) =~= acc@);
            }
        }
        n = n / 10;
    }
    acc
}

/// The text of `centi / 100` with exactly two decimal places.
pub open spec fn two_places(centi: nat) -> Seq<char> {
    decimal(centi / 100) + seq!['.', digit_char((centi % 100) / 10), digit_char(centi % 10)]
}

/// The value of decimal digits stored least significant first.
pub open spec fn digits_value(ds: Seq<u8>) -> nat
    decreases ds.len(),
{
    if ds.len() == 0 {
        0
    } else {
        ds[0] as nat + 10 * digits_value(ds.drop_first())
    }
}

/// Digits, least significant first, each below ten, with a nonzero most
/// significant digit.
pub open spec fn is_digits(ds: Seq<u8>) -> bool {
    &&& ds.len() > 0
    &&& ds.last() != 0
    &&& forall|i: int| 0 <= i < ds.len() ==> #[trigger] ds[i] < 10
}

/// The text of digits stored least significant first: most significant first.
pub open spec fn digits_text(ds: Seq<u8>) -> Seq<char> {
    Seq::new(ds.len(), |i: int| digit_char(ds[ds.len() - 1 - i] as nat))
}

/// Twice the digits `ds`, plus `carry`, digit by digit from the least
/// significant.
pub open spec fn double_digits(ds: Seq<u8>, carry: nat) -> Seq<u8>
    decreases ds.len(),
{
    if ds.len() == 0 {
        if carry > 0 {
            seq![carry as u8]
        } else {
            seq![]
        }
    } else {
        let t = (2 * ds[0] + carry) as nat;
        seq![(t % 10) as u8] + double_digits(ds.drop_first(), t / 10)
    }
}

/// Doubling digit by digit doubles the value and keeps the digits well formed.
pub proof fn lemma_double_digits(ds: Seq<u8>, carry: nat)
    requires
        carry <= 1,
        forall|i: int| 0 <= i < ds.len() ==> #[trigger] ds[i] < 10,
        ds.len() > 0 ==> ds.last() != 0,
        ds.len() > 0 || carry == 1,
    ensures
        digits_value(double_digits(ds, carry)) == 2 * digits_value(ds) + carry,
        is_digits(double_digits(ds, carry)),
        ds.len() <= double_digits(ds, carry).len() <= ds.len() + 1,
    decreases ds.len(),
{
    let r = double_digits(ds, carry);
    if ds.len() == 0 {
        assert(r =~= seq![1u8]);
        assert(r.drop_first() =~= Seq::<u8>::empty());
        assert(digits_value(r.drop_first()) == 0);
    } else {
        let t = (2 * ds[0] + carry) as nat;
        let rest = ds.drop_first();
        let tail = double_digits(rest, t / 10);
        assert(forall|i: int| 0 <= i < rest.len() ==> #[trigger] rest[i] == ds[i + 1]);
        if rest.len() > 0 {
            assert(rest.last() == ds.last());
            lemma_double_digits(rest, t / 10);
        } else if t / 10 == 1 {
            lemma_double_digits(rest, t / 10);
        } else {
            assert(tail =~= Seq::<u8>::empty());
            assert(digits_value(tail) == 0);
        }
        assert(r.drop_first() =~= tail);
        assert(r =~= seq![(t % 10) as u8] + tail);
        assert forall|i: int| 0 <= i < r.len() implies #[trigger] r[i] < 10 by {
            if i > 0 {
                assert(r[i] == tail[i - 1]);
            }
        }
    }
}

/// Well-formed digits have a positive value.
pub proof fn lemma_digits_positive(ds: Seq<u8>)
    requires
        is_digits(ds),
    ensures
        digits_value(ds) >= 1,
    decreases ds.len(),
{
    let rest = ds.drop_first();
    if rest.len() > 0 {
        assert(rest.last() == ds.last());
        assert(forall|i: int| 0 <= i < rest.len() ==> #[trigger] rest[i] == ds[i + 1]);
        lemma_digits_positive(rest);
    }
}

/// The decimal text of well-formed digits is their digits, most significant
/// first.
pub proof fn lemma_decimal_of_digits(ds: Seq<u8>)
    requires
        is_digits(ds),
    ensures
        decimal(digits_value(ds)) == digits_text(ds),
    decreases ds.len(),
{
    let v = digits_value(ds);
    let rest = ds.drop_first();
    assert(ds[0] < 10);
    if rest.len() == 0 {
        assert(digits_value(rest) == 0);
        assert(v == ds[0] as nat);
        assert(decimal(v) =~= digits_text(ds));
    } else {
        assert(rest.last() == ds.last());
        assert(forall|i: int| 0 <= i < rest.len() ==> #[trigger] rest[i] == ds[i + 1]);
        lemma_digits_positive(rest);
        lemma_decimal_of_digits(rest);
        vstd::arithmetic::div_mod::lemma_fundamental_div_mod_converse(
            v as int,
            10,
            digits_value(rest) as int,
            ds[0] as int,
        );
        assert(v >= 10);
        assert(decimal(v) =~= digits_text(ds));
    }
}

/// Twice the digits `ds`.
pub fn double(ds: &Vec<u8>) -> (r: Vec<u8>)
    requires
        is_digits(ds@),
    ensures
        r@ == double_digits(ds@, 0),
        digits_value(r@) == 2 * digits_value(ds@),
        is_digits(r@),
        ds@.len() <= r@.len() <= ds@.len() + 1,
{
    proof {
        lemma_double_digits(ds@, 0);
    }
    let mut r: Vec<u8> = Vec::new();
    let mut carry: u8 = 0;
    let mut i: usize = 0;
    assert(ds@.skip(0) =~= ds@);
    assert(r@ + double_digits(ds@.skip(0), 0) =~= double_digits(ds@, 0));
    while i < ds.len()
        invariant
            i <= ds@.len(),
            carry <= 1,
            is_digits(ds@),
            r@ + double_digits(ds@.skip(i as int), carry as nat) == double_digits(ds@, 0),
        decreases ds@.len() - i,
    {
        let ghost c0 = carry;
        let t: u8 = 2 * ds[i] + carry;
        let ghost rest = ds@.skip(i as int);
        assert(rest.drop_first() =~= ds@.skip(i + 1));
        assert(rest[0] == ds@[i as int]);
        assert(double_digits(rest, c0 as nat) == seq![(t % 10) as u8] + double_digits(
            ds@.skip(i + 1),
            (t / 10) as nat,
        ));
        let ghost before = r@;
        r.push(t % 10);
        carry = t / 10;
        assert(r@ + double_digits(ds@.skip(i + 1), carry as nat) =~= before + double_digits(
            rest,
            c0 as nat,
        ));
        i = i + 1;
    }
    if carry > 0 {
        r.push(carry);
    }
    assert(r@ =~= double_digits(ds@, 0));
    r
}

/// Digits `ds` from position `from` on, written most significant first.
pub fn digits_text_from(ds: &Vec<u8>, from: usize) -> (r: String)
    requires
        from <= ds@.len(),
        forall|i: int| 0 <= i < ds@.len() ==> #[trigger] ds@[i] < 10,
    ensures
        r@ == digits_text(ds@.skip(from as int)),
{
    let mut acc = String::new();
    let mut j: usize = ds.len();
    while j > from
        invariant
            from <= j <= ds@.len(),
            forall|i: int| 0 <= i < ds@.len() ==> #[trigger] ds@[i] < 10,
            acc@ == Seq::new(
                (ds@.len() - j) as nat,
                |k: int| digit_char(ds@[ds@.len() - 1 - k] as nat),
            ),
        decreases j - from,
    {
        let ghost before = acc@;
        acc = acc.concat(digit_text(ds[j - 1] as u64));
        assert(acc@ =~= Seq::new(
            (ds@.len() - (j - 1)) as nat,
            |k: int| digit_char(ds@[ds@.len() - 1 - k] as nat),
        ));
        j = j - 1;
    }
    assert(acc@ =~= digits_text(ds@.skip(from as int)));
    acc
}

/// Well-formed digits of at least three places, written as hundredths with
/// two decimal places.
pub fn digits_two_places_text(ds: &Vec<u8>) -> (r: String)
    requires
        is_digits(ds@),
        ds@.len() >= 3,
    ensures
        r@ == two_places(digits_value(ds@)),
{
    proof {
        reveal_strlit(".");
        let v = digits_value(ds@);
        let d1 = ds@.drop_first();
        let high = ds@.skip(2);
        assert(d1.drop_first() =~= high);
        assert(ds@[0] < 10 && ds@[1] < 10);
        assert(d1[0] == ds@[1]);
        let h = digits_value(high);
        assert(digits_value(d1) == d1[0] + 10 * h);
        assert(v == ds@[0] + 10 * (ds@[1] + 10 * h));
        vstd::arithmetic::div_mod::lemma_fundamental_div_mod_converse(
            v as int,
            100,
            h as int,
            ds@[0] + 10 * ds@[1],
        );
        vstd::arithmetic::div_mod::lemma_fundamental_div_mod_converse(
            v as int,
            10,
            ds@[1] + 10 * h,
            ds@[0] as int,
        );
        vstd::arithmetic::div_mod::lemma_fundamental_div_mod_converse(
            (ds@[0] + 10 * ds@[1]) as int,
            10,
            ds@[1] as int,
            ds@[0] as int,
        );
        assert(high.last() == ds@.last());
        assert(forall|i: int| 0 <= i < high.len() ==> #[trigger] high[i] == ds@[i + 2]);
        lemma_decimal_of_digits(high);
    }
    let r = digits_text_from(ds, 2).concat(".").concat(digit_text(ds[1] as u64)).concat(
        digit_text(ds[0] as u64),
    );
    assert(r@ =~= two_places(digits_value(ds@)));
    r
}

} // verus!
