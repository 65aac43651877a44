use vstd::prelude::*;

verus! {

/// Refusal of `url::Url::parse_with_params` (re-exported by reqwest as `reqwest::Url`).
#[verifier::external_type_specification]
#[verifier::external_body]
pub struct ExUrlParseError(url::ParseError);

/// What the library can answer in place of a result.
#[derive(Debug)]
pub enum FritzError {
    /// The address of a request could not be built.
    InvalidUrl(url::ParseError),
    /// The box answered with something that is not a number where one was due.
    NotANumber,
}

} // verus!
