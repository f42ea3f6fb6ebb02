//! The operational gauges that owners and the metrics delegate may read.
use vstd::prelude::*;

verus! {

/// The number written by little-endian base 2^32 digits.
pub open spec fn digits_value(digits: Seq<u32>) -> nat
    decreases digits.len(),
{
    if digits.len() == 0 {
        0
    } else {
        digits[0] as nat + 4294967296 * digits_value(digits.subrange(1, digits.len() as int))
    }
}

/// The character of a decimal digit.
pub open spec fn digit_char(d: nat) -> char {
    seq!['0', '1', '2', '3', '4', '5', '6', '7', '8', '9'][d as int]
}

/// The decimal text of a number, without leading zeros.
pub open spec fn decimal_text(n: nat) -> Seq<char>
    decreases n,
{
    if n < 10 {
        seq![digit_char(n)]
    } else {
        decimal_text(n / 10).push(digit_char(n % 10))
    }
}

/// One gauge in the exposition format: name, type, help text, labels and value.
pub struct Metric {
    pub help: Option<String>,
    pub labels: Vec<(String, String)>,
    pub name: String,
    pub t: String,
    pub value: String,
}

/// Relies on `num_bigint::BigUint::new` and its `Display`: the digits are read
/// least significant first, and the number is written in decimal.
#[verifier::external_body]
fn big_decimal(digits: &Vec<u32>) -> (r: String)
    ensures
        r@ == decimal_text(digits_value(digits@)),
{
    num_bigint::BigUint::new(digits.clone()).to_string()
}

/// The gauges for a cycle balance given by its base 2^32 digits: exactly one,
/// `canister_balance_e8s`, labelled with the token and the service name.
pub fn metrics(cycles: &Vec<u32>) -> (r: Vec<Metric>)
    ensures
        r@.len() == 1,
        r@[0].name@ == "canister_balance_e8s"@,
        r@[0].t@ == "gauge"@,
        r@[0].help matches Some(h) && h@ == "canister balance for a token in e8s"@,
        r@[0].labels@.len() == 2,
        r@[0].labels@[0].0@ == "token"@ && r@[0].labels@[0].1@ == "cycles"@,
        r@[0].labels@[1].0@ == "canister"@ && r@[0].labels@[1].1@ == "signing"@,
        r@[0].value@ == decimal_text(digits_value(cycles@)),
{
    let mut labels: Vec<(String, String)> = Vec::new();
    labels.push(("token".to_string(), "cycles".to_string()));
    labels.push(("canister".to_string(), "signing".to_string()));
    let mut r: Vec<Metric> = Vec::new();
    r.push(Metric {
        name: "canister_balance_e8s".to_string(),
        t: "gauge".to_string(),
        help: Some("canister balance for a token in e8s".to_string()),
        labels,
        value: big_decimal(cycles),
    });
    r
}

} // verus!
