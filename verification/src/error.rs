//! The two kinds of failure that a card session reports.

use vstd::prelude::*;

verus! {

/// `embedded_sdmmc::sdmmc::Error`, what the card's SPI interface reports when
/// the bus cannot be acquired or used. Carried through unread.
#[verifier::external_type_specification]
#[verifier::external_body]
pub struct ExSdMmcError(embedded_sdmmc::sdmmc::Error);

/// `embedded_sdmmc::Error`, what the filesystem engine reports over a block
/// device whose own error is `E`. Carried through unread.
#[verifier::external_type_specification]
#[verifier::external_body]
#[verifier::reject_recursive_types(E)]
pub struct ExEngineError<E: core::fmt::Debug>(embedded_sdmmc::Error<E>);

/// Why an operation of the card session failed.
#[derive(Debug)]
pub enum SdCardError {
    /// The bus could not be acquired: the card did not answer, or the
    /// transport is at fault.
    SdMmc(embedded_sdmmc::SdMmcError),
    /// The bus was held and the filesystem engine refused or failed a call.
    Controller(embedded_sdmmc::Error<embedded_sdmmc::SdMmcError>),
}

impl From<embedded_sdmmc::sdmmc::Error> for SdCardError {
    fn from(err: embedded_sdmmc::sdmmc::Error) -> (e: SdCardError) {
        SdCardError::SdMmc(err)
    }
}

impl vstd::std_specs::convert::FromSpecImpl<embedded_sdmmc::sdmmc::Error> for SdCardError {
    open spec fn obeys_from_spec() -> bool {
        true
    }

    open spec fn from_spec(err: embedded_sdmmc::sdmmc::Error) -> SdCardError {
        SdCardError::SdMmc(err)
    }
}

impl From<embedded_sdmmc::Error<embedded_sdmmc::SdMmcError>> for SdCardError {
    fn from(err: embedded_sdmmc::Error<embedded_sdmmc::SdMmcError>) -> (e: SdCardError) {
        SdCardError::Controller(err)
    }
}

impl vstd::std_specs::convert::FromSpecImpl<embedded_sdmmc::Error<embedded_sdmmc::SdMmcError>> for SdCardError {
    open spec fn obeys_from_spec() -> bool {
        true
    }

    open spec fn from_spec(err: embedded_sdmmc::Error<embedded_sdmmc::SdMmcError>) -> SdCardError {
        SdCardError::Controller(err)
    }
}

} // verus!
