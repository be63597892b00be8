//! Freshly generated values: random identifiers and clock timestamps.
//!
//! Both are nondeterministic, so their contracts state only what holds of
//! every outcome; logic that depends on a particular value takes it as an
//! argument instead.

use vstd::prelude::*;

verus! {

use rand::distributions::Alphanumeric;
use rand::distributions::DistString;

/// An ASCII letter or digit.
pub open spec fn spec_alnum(c: char) -> bool {
    ('a' <= c && c <= 'z') || ('A' <= c && c <= 'Z') || ('0' <= c && c <= '9')
}

/// Relies on rand's `Alphanumeric` distribution through
/// `DistString::sample_string`: it appends exactly `len` characters, each
/// drawn from a-z, A-Z, 0-9.
#[verifier::external_body]
pub(crate) fn random_alphanumeric(len: usize) -> (r: String)
    ensures
        r@.len() == len,
        forall|i: int| 0 <= i < r@.len() ==> spec_alnum(r@[i]),
{
    Alphanumeric.sample_string(&mut rand::thread_rng(), len)
}

/// Relies on `chrono::Utc::now`, formatted as `%Y%m%d%H%M%S`. The clock is
/// nondeterministic, so nothing is claimed of the value beyond what the
/// format guarantees: it emits digits (with a sign for years outside four
/// digits), never a field or segment separator.
#[verifier::external_body]
pub(crate) fn utc_timestamp() -> (r: String)
    ensures
        forall|i: int| 0 <= i < r@.len() ==> r@[i] != '|' && r@[i] != '\r',
{
    chrono::Utc::now().format("%Y%m%d%H%M%S").to_string()
}

/// Relies on `chrono::Local::now`, formatted as `%Y%m%d%H%M%S`; as with
/// the UTC clock, the value never contains a separator character.
#[verifier::external_body]
pub(crate) fn local_timestamp() -> (r: String)
    ensures
        forall|i: int| 0 <= i < r@.len() ==> r@[i] != '|' && r@[i] != '\r',
{
    chrono::Local::now().format("%Y%m%d%H%M%S").to_string()
}

} // verus!
