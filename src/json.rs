use vstd::prelude::*;

verus! {

/// The decimal digit for `d < 10`.
pub open spec fn digit_char(d: nat) -> char {
    seq!['0', '1', '2', '3', '4', '5', '6', '7', '8', '9'][d as int]
}

/// Decimal digits of `n`, most significant first, without leading zeros.
pub open spec fn decimal_digits(n: nat) -> Seq<char>
    decreases n,
{
    if n < 10 {
        seq![digit_char(n)]
    } else {
        decimal_digits(n / 10) + seq![digit_char(n % 10)]
    }
}

/// A JSON integer literal: an optional minus sign, then decimal digits.
pub open spec fn json_int(i: int) -> Seq<char> {
    if i < 0 {
        seq!['-'] + decimal_digits((-i) as nat)
    } else {
        decimal_digits(i as nat)
    }
}

/// The integers written one after another, separated by commas.
pub open spec fn json_int_list(xs: Seq<i64>) -> Seq<char>
    decreases xs.len(),
{
    if xs.len() == 0 {
        seq![]
    } else if xs.len() == 1 {
        json_int(xs[0] as int)
    } else {
        json_int_list(xs.drop_last()) + seq![','] + json_int(xs.last() as int)
    }
}

/// Compact JSON text of an array of integers, as in `[3,-1,20]`.
pub open spec fn json_int_array(xs: Seq<i64>) -> Seq<char> {
    seq!['['] + json_int_list(xs) + seq![']']
}

/// What serde_json reads from a text as an array of `i64`: `None` where the
/// text is not such an array.
pub uninterp spec fn parsed_json_ints(s: Seq<char>) -> Option<Seq<i64>>;

/// Relies on serde_json::to_string: a `Vec<i64>` is written as a compact JSON
/// array, each integer in decimal, and serialising it never fails.
#[verifier::external_body]
pub(crate) fn ints_to_json(v: &Vec<i64>) -> (r: String)
    ensures
        r@ == json_int_array(v@),
{
    match serde_json::to_string(v) {
        Ok(s) => s,
        Err(_) => String::new(),
    }
}

/// Relies on serde_json::from_str::<Vec<i64>>: the outcome depends on the text
/// alone, and the compact text of an array of integers reads back as that
/// array.
#[verifier::external_body]
pub(crate) fn ints_from_json(s: &str) -> (r: Option<Vec<i64>>)
    ensures
        match r {
            Some(v) => parsed_json_ints(s@) == Some(v@),
            None => parsed_json_ints(s@) is None,
        },
        forall|xs: Seq<i64>| s@ == json_int_array(xs) ==> (r is Some && r->Some_0@ == xs),
{
    serde_json::from_str::<Vec<i64>>(s).ok()
}

} // verus!
