use vstd::prelude::*;

verus! {

/// The four ways an invocation of the OCR core can fail.
#[derive(PartialEq, Eq, Structural, Debug, Clone, Copy)]
pub enum OcrError {
    /// The persisted credential or token state is missing or malformed.
    ConfigError,
    /// The token-issuance exchange was rejected or its answer was malformed.
    AuthError,
    /// A network call failed or timed out.
    TransportError,
    /// The OCR response body does not have the expected shape.
    ResponseFormatError,
}

} // verus!
