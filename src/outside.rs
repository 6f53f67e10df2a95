use vstd::prelude::*;

verus! {

#[verifier::external_type_specification]
#[verifier::external_body]
pub struct ExLicenseExpression(spdx::Expression);

#[verifier::external_type_specification]
#[verifier::external_body]
pub struct ExUrl(url::Url);

/// Whether the SPDX expression grammar accepts a text.
pub uninterp spec fn license_accepts(s: Seq<char>) -> bool;

/// Whether the URL standard's parser accepts a text as an absolute URL.
pub uninterp spec fn url_accepts(s: Seq<char>) -> bool;

/// Relies on `spdx::Expression::parse`: it succeeds exactly on the texts that
/// the SPDX license-expression grammar accepts, which depends on the text
/// alone. The error is kept as its message.
#[verifier::external_body]
pub(crate) fn parse_license(text: &str) -> (r: Result<spdx::Expression, String>)
    ensures
        r is Ok <==> license_accepts(text@),
{
    match spdx::Expression::parse(text) {
        Ok(e) => Ok(e),
        Err(e) => Err(e.to_string()),
    }
}

/// Relies on `url::Url::parse`: it succeeds exactly on the texts that the URL
/// standard's parser accepts with no base, which depends on the text alone.
/// The error is kept as its message.
#[verifier::external_body]
pub(crate) fn parse_url(text: &str) -> (r: Result<url::Url, String>)
    ensures
        r is Ok <==> url_accepts(text@),
{
    match url::Url::parse(text) {
        Ok(u) => Ok(u),
        Err(e) => Err(e.to_string()),
    }
}

} // verus!
