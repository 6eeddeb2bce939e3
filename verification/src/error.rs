use vstd::prelude::*;

verus! {

/// Spec-level image of [`ConversionError`]: string payloads appear as
/// character sequences so that contracts can speak about them directly.
pub enum ErrorV {
    /// A malformed address, hash or hex string; carries the offending text.
    InvalidFormat(Seq<char>),
    /// A hex decode failure or a wrong byte length.
    InvalidEncoding,
    /// An unlock block with neither a signature nor a reference.
    MissingUnlockData,
    /// A per-item input conversion failure; carries the offending item.
    InvalidInput(Seq<char>),
    /// A per-item output conversion failure; carries the offending address.
    InvalidOutput(Seq<char>),
    /// A structural completeness rule violated at builder finalization.
    BuilderError,
}

/// The failure modes of a conversion. Every conversion either returns a fully
/// built domain value or one of these; no partial domain object ever escapes.
#[derive(Debug, Clone, PartialEq, Eq)]
pub enum ConversionError {
    /// A malformed address, hash or hex string; carries the offending text.
    InvalidFormat(String),
    /// A hex decode failure or a wrong byte length.
    InvalidEncoding,
    /// An unlock block with neither a signature nor a reference.
    MissingUnlockData,
    /// A per-item input conversion failure; carries the offending item.
    InvalidInput(String),
    /// A per-item output conversion failure; carries the offending address.
    InvalidOutput(String),
    /// A structural completeness rule violated at builder finalization.
    BuilderError,
}

impl DeepView for ConversionError {
    type V = ErrorV;

    open spec fn deep_view(&self) -> ErrorV {
        match self {
            ConversionError::InvalidFormat(s) => ErrorV::InvalidFormat(s@),
            ConversionError::InvalidEncoding => ErrorV::InvalidEncoding,
            ConversionError::MissingUnlockData => ErrorV::MissingUnlockData,
            ConversionError::InvalidInput(s) => ErrorV::InvalidInput(s@),
            ConversionError::InvalidOutput(s) => ErrorV::InvalidOutput(s@),
            ConversionError::BuilderError => ErrorV::BuilderError,
        }
    }
}

/// Maps a conversion result onto its spec-level image, so that one `ensures`
/// clause can pin down both the success and the failure case.
pub open spec fn res_view<T: DeepView>(r: Result<T, ConversionError>) -> Result<T::V, ErrorV> {
    match r {
        Ok(v) => Ok(v.deep_view()),
        Err(e) => Err(e.deep_view()),
    }
}

impl ConversionError {
    /// A short human-readable description of the error kind.
    pub fn describe(&self) -> (r: &'static str)
        ensures
            r@ == match self.deep_view() {
                ErrorV::InvalidFormat(_) => "invalid format"@,
                ErrorV::InvalidEncoding => "invalid encoding"@,
                ErrorV::MissingUnlockData => "missing unlock data"@,
                ErrorV::InvalidInput(_) => "invalid input"@,
                ErrorV::InvalidOutput(_) => "invalid output"@,
                ErrorV::BuilderError => "builder error"@,
            },
    {
        match self {
            ConversionError::InvalidFormat(_) => "invalid format",
            ConversionError::InvalidEncoding => "invalid encoding",
            ConversionError::MissingUnlockData => "missing unlock data",
            ConversionError::InvalidInput(_) => "invalid input",
            ConversionError::InvalidOutput(_) => "invalid output",
            ConversionError::BuilderError => "builder error",
        }
    }
}

} // verus!
