use vstd::prelude::*;

verus! {

/// A position in a text: zero-based row and column (`tree_sitter::Point`, whose fields are
/// public plain integers).
#[verifier::external_type_specification]
pub struct ExPoint(tree_sitter::Point);

/// A span of text by byte offsets and by points (`tree_sitter::Range`, whose fields are public
/// plain values).
#[verifier::external_type_specification]
pub struct ExRange(tree_sitter::Range);

/// `Range::clone`, of a `Copy` struct: the same range.
pub assume_specification [<tree_sitter::Range as std::clone::Clone>::clone] (range: &tree_sitter::Range) -> (copy: tree_sitter::Range)
    ensures
        copy == *range,
;

} // verus!

verus! {

/// A URL, carried unchanged.
#[verifier::external_type_specification]
#[verifier::external_body]
pub struct ExUrl(url::Url);

/// The error of parsing a URL, carried unchanged.
#[verifier::external_type_specification]
#[verifier::external_body]
pub struct ExUrlParseError(url::ParseError);

/// A semantic version, carried unchanged.
#[verifier::external_type_specification]
#[verifier::external_body]
pub struct ExVersion(semver::Version);

/// `Url::clone`, which `derive(Clone)` writes field by field: an equal URL.
pub assume_specification [<url::Url as std::clone::Clone>::clone] (u: &url::Url) -> (r: url::Url)
    ensures
        r == *u,
;

/// `ParseError::clone`, of a `Copy` enum: the same error.
pub assume_specification [<url::ParseError as std::clone::Clone>::clone] (e: &url::ParseError) -> (r: url::ParseError)
    ensures
        r == *e,
;

/// `Version::clone`. Its identifiers clone by hand and may hold new allocations, so nothing is
/// stated of the copy.
pub assume_specification [<semver::Version as std::clone::Clone>::clone] (v: &semver::Version) -> semver::Version;

} // verus!

verus! {

/// The error of parsing an integer, carried unchanged.
#[verifier::external_type_specification]
#[verifier::external_body]
pub struct ExParseIntError(std::num::ParseIntError);

/// `ParseIntError::clone`; nothing is stated of the copy.
pub assume_specification [<std::num::ParseIntError as std::clone::Clone>::clone] (e: &std::num::ParseIntError) -> std::num::ParseIntError;

} // verus!
