//! What a launch must look like to be accepted: the rules on the metadata of
//! a token and on the configuration of its curve.

use crate::text::{starts_with, trim, trim_of};
use crate::types::{BondingCurveConfig, TokenMetadata};
use crate::uint256::{lemma_u256_bounded, lemma_u256_injective};
use vstd::prelude::*;
use vstd::utf8::encode_utf8;

verus! {

broadcast use {lemma_u256_bounded, lemma_u256_injective};

/// The greatest length of a name, in bytes.
pub const MAX_NAME_BYTES: usize = 100;

/// The greatest length of a symbol, in bytes.
pub const MAX_SYMBOL_BYTES: usize = 20;

/// The greatest length of a description, in bytes.
pub const MAX_DESCRIPTION_BYTES: usize = 1000;

/// What is wrong with the metadata of a token.
#[derive(Clone, Copy, Debug, PartialEq, Eq, Structural)]
pub enum MetadataFault {
    /// The name holds nothing but white space.
    EmptyName,
    /// The symbol holds nothing but white space.
    EmptySymbol,
    /// The name is longer than 100 bytes.
    NameTooLong,
    /// The symbol is longer than 20 bytes.
    SymbolTooLong,
    /// The description is longer than 1000 bytes.
    DescriptionTooLong,
    /// The image address starts with none of `http://`, `https://`, `ipfs://`.
    InvalidImageUrl,
    /// The website address starts with neither `http://` nor `https://`.
    InvalidWebsiteUrl,
}

/// What is wrong with the configuration of a curve.
#[derive(Clone, Copy, Debug, PartialEq, Eq, Structural)]
pub enum CurveFault {
    /// `k` is zero.
    ZeroK,
    /// The scale is zero.
    ZeroScale,
    /// The target raise is zero.
    ZeroTargetRaise,
    /// The supply cap is zero.
    ZeroMaxSupply,
    /// The supply cap does not exceed the scale.
    MaxSupplyNotAboveScale,
}

impl MetadataFault {
    /// The fault in words.
    pub fn message(&self) -> (text: String)
        ensures
            text@ == match self {
                MetadataFault::EmptyName => "Token name cannot be empty"@,
                MetadataFault::EmptySymbol => "Token symbol cannot be empty"@,
                MetadataFault::NameTooLong => "Token name too long (max 100 characters)"@,
                MetadataFault::SymbolTooLong => "Token symbol too long (max 20 characters)"@,
                MetadataFault::DescriptionTooLong => "Token description too long (max 1000 characters)"@,
                MetadataFault::InvalidImageUrl => "Invalid image URL format"@,
                MetadataFault::InvalidWebsiteUrl => "Invalid website URL format"@,
            },
    {
        match self {
            MetadataFault::EmptyName => "Token name cannot be empty".to_owned(),
            MetadataFault::EmptySymbol => "Token symbol cannot be empty".to_owned(),
            MetadataFault::NameTooLong => "Token name too long (max 100 characters)".to_owned(),
            MetadataFault::SymbolTooLong => "Token symbol too long (max 20 characters)".to_owned(),
            MetadataFault::DescriptionTooLong => "Token description too long (max 1000 characters)".to_owned(),
            MetadataFault::InvalidImageUrl => "Invalid image URL format".to_owned(),
            MetadataFault::InvalidWebsiteUrl => "Invalid website URL format".to_owned(),
        }
    }
}

impl CurveFault {
    /// The fault in words.
    pub fn message(&self) -> (text: String)
        ensures
            text@ == match self {
                CurveFault::ZeroK => "k parameter must be greater than zero"@,
                CurveFault::ZeroScale => "scale parameter must be greater than zero"@,
                CurveFault::ZeroTargetRaise => "target_raise must be greater than zero"@,
                CurveFault::ZeroMaxSupply => "max_supply must be greater than zero"@,
                CurveFault::MaxSupplyNotAboveScale => "max_supply should be significantly larger than scale"@,
            },
    {
        match self {
            CurveFault::ZeroK => "k parameter must be greater than zero".to_owned(),
            CurveFault::ZeroScale => "scale parameter must be greater than zero".to_owned(),
            CurveFault::ZeroTargetRaise => "target_raise must be greater than zero".to_owned(),
            CurveFault::ZeroMaxSupply => "max_supply must be greater than zero".to_owned(),
            CurveFault::MaxSupplyNotAboveScale => "max_supply should be significantly larger than scale".to_owned(),
        }
    }
}

/// The length of a text in bytes, in UTF-8.
pub open spec fn byte_len(text: Seq<char>) -> nat {
    encode_utf8(text).len()
}

/// Whether an image address is acceptable.
pub open spec fn image_url_ok(url: Seq<char>) -> bool {
    "http://"@.is_prefix_of(url) || "https://"@.is_prefix_of(url) || "ipfs://"@.is_prefix_of(url)
}

/// Whether a website address is acceptable.
pub open spec fn website_url_ok(url: Seq<char>) -> bool {
    "http://"@.is_prefix_of(url) || "https://"@.is_prefix_of(url)
}

/// The first fault of the metadata, if it has one, where `name` and
/// `symbol` are what remains of its name and of its symbol without the
/// white space at their ends: an empty name, an empty symbol, a name, symbol
/// or description that is too long, an image address or a website address
/// of an unknown kind, in this order.
pub open spec fn metadata_fault_of(
    name: Seq<char>,
    symbol: Seq<char>,
    metadata: TokenMetadata,
) -> Option<MetadataFault> {
    if name.len() == 0 {
        Some(MetadataFault::EmptyName)
    } else if symbol.len() == 0 {
        Some(MetadataFault::EmptySymbol)
    } else if byte_len(metadata.name@) > 100 {
        Some(MetadataFault::NameTooLong)
    } else if byte_len(metadata.symbol@) > 20 {
        Some(MetadataFault::SymbolTooLong)
    } else if byte_len(metadata.description@) > 1000 {
        Some(MetadataFault::DescriptionTooLong)
    } else if metadata.image_url is Some && !image_url_ok(metadata.image_url->Some_0@) {
        Some(MetadataFault::InvalidImageUrl)
    } else if metadata.website is Some && !website_url_ok(metadata.website->Some_0@) {
        Some(MetadataFault::InvalidWebsiteUrl)
    } else {
        None
    }
}

/// The first fault of the metadata, if it has one: a name or a symbol of
/// nothing but white space, and then what `metadata_fault_of` lists.
pub open spec fn metadata_fault(metadata: TokenMetadata) -> Option<MetadataFault> {
    metadata_fault_of(trim_of(metadata.name@), trim_of(metadata.symbol@), metadata)
}

/// The first fault of the configuration, if it has one: a zero `k`, scale,
/// target raise or supply cap, or a supply cap that does not exceed the
/// scale, in this order.
pub open spec fn curve_fault(config: BondingCurveConfig) -> Option<CurveFault> {
    if config.k@ == 0 {
        Some(CurveFault::ZeroK)
    } else if config.scale@ == 0 {
        Some(CurveFault::ZeroScale)
    } else if config.target_raise@ == 0 {
        Some(CurveFault::ZeroTargetRaise)
    } else if config.max_supply@ == 0 {
        Some(CurveFault::ZeroMaxSupply)
    } else if config.max_supply@ <= config.scale@ {
        Some(CurveFault::MaxSupplyNotAboveScale)
    } else {
        None
    }
}

/// Checks the metadata of a token.
pub fn validate_metadata(metadata: &TokenMetadata) -> (r: Result<(), MetadataFault>)
    ensures
        r is Ok <==> metadata_fault(*metadata) is None,
        r matches Err(fault) ==> Some(fault) == metadata_fault(*metadata),
{
    check_metadata(trim(metadata.name.as_str()), trim(metadata.symbol.as_str()), metadata)
}

/// Checks the metadata of a token whose name and symbol, without the white
/// space at their ends, are `name` and `symbol`.
pub fn check_metadata(name: &str, symbol: &str, metadata: &TokenMetadata) -> (r: Result<
    (),
    MetadataFault,
>)
    ensures
        r is Ok <==> metadata_fault_of(name@, symbol@, *metadata) is None,
        r matches Err(fault) ==> Some(fault) == metadata_fault_of(name@, symbol@, *metadata),
{
    if name.is_empty() {
        return Err(MetadataFault::EmptyName);
    }
    if symbol.is_empty() {
        return Err(MetadataFault::EmptySymbol);
    }
    if metadata.name.as_str().as_bytes().len() > MAX_NAME_BYTES {
        return Err(MetadataFault::NameTooLong);
    }
    if metadata.symbol.as_str().as_bytes().len() > MAX_SYMBOL_BYTES {
        return Err(MetadataFault::SymbolTooLong);
    }
    if metadata.description.as_str().as_bytes().len() > MAX_DESCRIPTION_BYTES {
        return Err(MetadataFault::DescriptionTooLong);
    }
    match &metadata.image_url {
        Some(url) => {
            if !starts_with(url.as_str(), "http://") && !starts_with(url.as_str(), "https://")
                && !starts_with(url.as_str(), "ipfs://") {
                return Err(MetadataFault::InvalidImageUrl);
            }
        },
        None => {},
    }
    match &metadata.website {
        Some(url) => {
            if !starts_with(url.as_str(), "http://") && !starts_with(url.as_str(), "https://") {
                return Err(MetadataFault::InvalidWebsiteUrl);
            }
        },
        None => {},
    }
    Ok(())
}

/// Checks the configuration of a curve.
pub fn validate_curve_config(config: &BondingCurveConfig) -> (r: Result<(), CurveFault>)
    ensures
        r is Ok <==> curve_fault(*config) is None,
        r matches Err(fault) ==> Some(fault) == curve_fault(*config),
        r is Ok ==> config.k@ > 0 && config.scale@ > 0 && config.target_raise@ > 0
            && config.max_supply@ > config.scale@,
{
    if config.k.is_zero() {
        return Err(CurveFault::ZeroK);
    }
    if config.scale.is_zero() {
        return Err(CurveFault::ZeroScale);
    }
    if config.target_raise.is_zero() {
        return Err(CurveFault::ZeroTargetRaise);
    }
    if config.max_supply.is_zero() {
        return Err(CurveFault::ZeroMaxSupply);
    }
    if config.max_supply.le(&config.scale) {
        return Err(CurveFault::MaxSupplyNotAboveScale);
    }
    Ok(())
}

} // verus!
