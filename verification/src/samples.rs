//! Sample values: the metadata and the curve of a token that examples and
//! tests can start from.

use crate::text::{join, lowercase_of, to_lowercase};
use crate::types::{default_curve, BondingCurveConfig, TokenMetadata};
use vstd::prelude::*;

verus! {

/// The metadata of a sample token named `Test Token`.
pub fn test_metadata() -> (metadata: TokenMetadata)
    ensures
        metadata.name@ == "Test Token"@,
        metadata.symbol@ == "TEST"@,
        metadata.description@ == "A test token for unit tests"@,
        metadata.image_url is None,
        metadata.twitter is None,
        metadata.telegram is None,
        metadata.website is None,
{
    TokenMetadata {
        name: "Test Token".to_owned(),
        symbol: "TEST".to_owned(),
        description: "A test token for unit tests".to_owned(),
        image_url: None,
        twitter: None,
        telegram: None,
        website: None,
    }
}

/// The curve of a sample token: the default curve.
pub fn test_config() -> (config: BondingCurveConfig)
    ensures
        config == default_curve(),
{
    BondingCurveConfig::default()
}

/// The metadata of a sample token with this name and symbol. Its
/// description names the token, its image is at `example.com`, and its
/// twitter handle and website are made of the symbol in lower case.
pub fn create_test_metadata(name: &str, symbol: &str) -> (metadata: TokenMetadata)
    ensures
        is_sample(metadata, name@, symbol@, lowercase_of(symbol@)),
{
    let lower = to_lowercase(symbol);
    sample_metadata(name, symbol, lower.as_str())
}

/// Whether `metadata` is the sample with this name and symbol, where
/// `handle` is the symbol in lower case.
pub open spec fn is_sample(
    metadata: TokenMetadata,
    name: Seq<char>,
    symbol: Seq<char>,
    handle: Seq<char>,
) -> bool {
    &&& metadata.name@ == name
    &&& metadata.symbol@ == symbol
    &&& metadata.description@ == "Test token: "@ + name
    &&& metadata.image_url is Some && metadata.image_url->Some_0@
        == "https://example.com/image.png"@
    &&& metadata.twitter is Some && metadata.twitter->Some_0@ == "@"@ + handle
    &&& metadata.telegram is None
    &&& metadata.website is Some && metadata.website->Some_0@ == "https://"@ + handle + ".com"@
}

/// The metadata of a sample token with this name and symbol, whose twitter
/// handle and website are made of `handle`.
pub fn sample_metadata(name: &str, symbol: &str, handle: &str) -> (metadata: TokenMetadata)
    ensures
        is_sample(metadata, name@, symbol@, handle@),
{
    let site = join("https://", handle);
    TokenMetadata {
        name: name.to_owned(),
        symbol: symbol.to_owned(),
        description: join("Test token: ", name),
        image_url: Some("https://example.com/image.png".to_owned()),
        twitter: Some(join("@", handle)),
        telegram: None,
        website: Some(join(site.as_str(), ".com")),
    }
}

} // verus!
