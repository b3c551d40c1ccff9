//! Estimate of the size of the generated public parameters, told to the
//! operator before a possibly long generation run.
use vstd::prelude::*;
use vstd::arithmetic::power2::{pow2, lemma2_to64, lemma_pow2_unfold};
use crate::decimal::{
    decimal, decimal_text, digits_two_places_text, digits_value, double, is_digits, two_places,
};

verus! {

/// Exponent at and below which the size is the base size.
pub const BASE_NU: usize = 4;

/// Largest exponent whose estimate is worked out; beyond it the parameters
/// would outgrow any machine many times over.
pub const MAX_ESTIMATED_NU: usize = 2048;

/// Estimated size in hundredths of a megabyte: 6.30 MB up to exponent 4, and
/// twice as much for each step above it.
pub open spec fn estimate(nu: nat) -> nat {
    if nu >= 4 {
        630 * pow2((nu - 4) as nat)
    } else {
        630
    }
}

/// From exponent 4 on, one more step doubles the estimate; at exponent 4 it is
/// 6.30 MB.
pub proof fn lemma_estimate_doubles(nu: nat)
    requires
        nu >= 4,
    ensures
        estimate(nu + 1) == 2 * estimate(nu),
        estimate(4) == 630,
{
    lemma_pow2_unfold((nu + 1 - 4) as nat);
    lemma2_to64();
}

/// The estimate for `nu` in hundredths of a megabyte, as decimal digits
/// stored least significant first; `None` beyond the largest exponent worked
/// out.
pub fn estimated_file_size(nu: usize) -> (r: Option<Vec<u8>>)
    ensures
        r is Some <==> nu <= MAX_ESTIMATED_NU,
        r matches Some(ds) ==> is_digits(ds@) && ds@.len() >= 3 && digits_value(ds@) == estimate(
            nu as nat,
        ),
{
    if nu > MAX_ESTIMATED_NU {
        return None;
    }
    let mut ds: Vec<u8> = Vec::new();
    ds.push(0);
    ds.push(3);
    ds.push(6);
    proof {
        lemma2_to64();
        let s0 = ds@;
        let s1 = s0.drop_first();
        let s2 = s1.drop_first();
        assert(s2.drop_first() =~= Seq::<u8>::empty());
        assert(digits_value(s2.drop_first()) == 0);
        assert(s2[0] == 6 && s1[0] == 3 && s0[0] == 0);
        assert(digits_value(s2) == 6);
        assert(digits_value(s1) == 63);
        assert(digits_value(s0) == 630);
    }
    if nu < BASE_NU {
        return Some(ds);
    }
    let mut k: usize = BASE_NU;
    while k < nu
        invariant
            BASE_NU <= k <= nu,
            is_digits(ds@),
            ds@.len() >= 3,
            digits_value(ds@) == estimate(k as nat),
        decreases nu - k,
    {
        proof {
            lemma_estimate_doubles(k as nat);
        }
        ds = double(&ds);
        k = k + 1;
    }
    Some(ds)
}

/// The text of the estimate for `nu`, in megabytes with two decimal places.
pub open spec fn size_text(nu: nat) -> Seq<char> {
    if nu <= MAX_ESTIMATED_NU {
        two_places(estimate(nu))
    } else {
        seq!['m', 'o', 'r', 'e', ' ', 't', 'h', 'a', 'n', ' '] + two_places(
            estimate(MAX_ESTIMATED_NU as nat),
        )
    }
}

/// The line told to the operator before generation starts.
pub open spec fn size_report_text(nu: nat) -> Seq<char> {
    "  Calculated public parameter size for nu = "@ + decimal(nu) + " is "@ + size_text(nu)
        + " MB\n"@
}

/// The estimate for `nu` as text, in megabytes with two decimal places.
pub fn size_in_megabytes(nu: usize) -> (r: String)
    ensures
        r@ == size_text(nu as nat),
{
    match estimated_file_size(nu) {
        Some(ds) => digits_two_places_text(&ds),
        None => match estimated_file_size(MAX_ESTIMATED_NU) {
            Some(ds) => {
                proof {
                    reveal_strlit("more than ");
                }
                let r = String::from_str("more than ").concat(digits_two_places_text(&ds).as_str());
                r
            },
            None => String::new(),
        },
    }
}

/// The line that reports the estimated size for `nu`.
pub fn size_report(nu: usize) -> (r: String)
    ensures
        r@ == size_report_text(nu as nat),
{
    let r = String::from_str("  Calculated public parameter size for nu = ").concat(
        decimal_text(nu as u64).as_str(),
    ).concat(" is ").concat(size_in_megabytes(nu).as_str()).concat(" MB\n");
    r
}

} // verus!
