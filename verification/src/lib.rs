use vstd::prelude::*;

pub mod assemble;
pub mod commit;
pub mod compose;
pub mod keys;
pub mod encode;
pub mod raster;
pub mod seed;

verus! {

/// The failures the engine can report to its caller.
#[derive(Clone, Copy, Debug, PartialEq, Eq, Structural)]
pub enum Error {
    InvalidKeyEncoding,
    NoBaseImages,
    AssetDecodeFailure,
    ArtifactTooLarge,
    TreeCombineError,
    AddressParseFailure,
    ArithmeticUnderflow,
    SerializationFailure,
}

impl Error {
    /// A short text for the failure, for callers that present it.
    pub fn describe(&self) -> String {
        match self {
            Error::InvalidKeyEncoding => "invalid key encoding".to_owned(),
            Error::NoBaseImages => "no base images provided".to_owned(),
            Error::AssetDecodeFailure => "failed to decode an image asset".to_owned(),
            Error::ArtifactTooLarge => "encoded artifact exceeds the size cap".to_owned(),
            Error::TreeCombineError => "could not build the commitment tree".to_owned(),
            Error::AddressParseFailure => "invalid destination address".to_owned(),
            Error::ArithmeticUnderflow => "fee exceeds amount".to_owned(),
            Error::SerializationFailure => "could not assemble the transaction".to_owned(),
        }
    }
}

} // verus!
