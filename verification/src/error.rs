//! The error language shared by all the parsers: one kind per failure site,
//! each carrying the offending substring for message composition.  Every
//! error is terminal for the call that raised it; nothing is accumulated.

use vstd::prelude::*;

verus! {

/// Why a parse failed.  Each variant holds the substring at fault.
#[derive(Debug, Clone, PartialEq, Eq)]
pub enum ParseError {
    /// A numeric literal was not a well-formed decimal or `0x`-hex number,
    /// or did not fit in 64 bits.
    MalformedNumber(String),
    /// A memory size was not a numeral with an optional `K`/`M`/`G`/`T` unit
    /// and optional trailing `B`, or the product overflowed 64 bits.
    InvalidMemorySize(String),
    /// A required piece of the input was empty or missing, or a `;`-suffix
    /// was not of the form the grammar demands.
    EmptyOrMissingSegment(String),
    /// The keyword before the first `:` names no known disk backend.
    UnknownDiskKind(String),
    /// A `blob:` disk named a kind other than `flat` or `vhd1`.
    UnknownBlobKind(String),
    /// A `crypt:` disk named a cipher outside the supported set.
    UnknownCipher(String),
    /// An `autocache:` disk was parsed without a cache root supplied.
    MissingCacheRootConfiguration(String),
    /// An attachment option list held a key the device does not accept.
    UnknownAttachmentOption(String),
    /// Two options that exclude each other were both given.
    IncompatibleOptionCombination(String),
    /// The first key of a serial binding names no known form.
    UnknownSerialOption(String),
    /// A serial-binding key that demands a value was given none.
    MissingRequiredValue(String),
    /// A `tcp:` listener address was not a well-formed socket address.
    InvalidSocketAddress(String),
    /// The network endpoint names no known backend.
    InvalidEndpointBackend(String),
    /// A `queues=` option held no well-formed 16-bit count.
    InvalidQueueCount(String),
    /// A boot device was named twice.
    DuplicateBootDevice(String),
    /// A boot-order token names no known device kind.
    UnknownBootDeviceKind(String),
}

/// The mathematical shadow of [`ParseError`]: the same kinds over `Seq<char>`.
pub enum ParseErrorV {
    MalformedNumber(Seq<char>),
    InvalidMemorySize(Seq<char>),
    EmptyOrMissingSegment(Seq<char>),
    UnknownDiskKind(Seq<char>),
    UnknownBlobKind(Seq<char>),
    UnknownCipher(Seq<char>),
    MissingCacheRootConfiguration(Seq<char>),
    UnknownAttachmentOption(Seq<char>),
    IncompatibleOptionCombination(Seq<char>),
    UnknownSerialOption(Seq<char>),
    MissingRequiredValue(Seq<char>),
    InvalidSocketAddress(Seq<char>),
    InvalidEndpointBackend(Seq<char>),
    InvalidQueueCount(Seq<char>),
    DuplicateBootDevice(Seq<char>),
    UnknownBootDeviceKind(Seq<char>),
}

impl View for ParseError {
    type V = ParseErrorV;

    open spec fn view(&self) -> ParseErrorV {
        match self {
            ParseError::MalformedNumber(s) => ParseErrorV::MalformedNumber(s@),
            ParseError::InvalidMemorySize(s) => ParseErrorV::InvalidMemorySize(s@),
            ParseError::EmptyOrMissingSegment(s) => ParseErrorV::EmptyOrMissingSegment(s@),
            ParseError::UnknownDiskKind(s) => ParseErrorV::UnknownDiskKind(s@),
            ParseError::UnknownBlobKind(s) => ParseErrorV::UnknownBlobKind(s@),
            ParseError::UnknownCipher(s) => ParseErrorV::UnknownCipher(s@),
            ParseError::MissingCacheRootConfiguration(s) => ParseErrorV::MissingCacheRootConfiguration(
                s@,
            ),
            ParseError::UnknownAttachmentOption(s) => ParseErrorV::UnknownAttachmentOption(s@),
            ParseError::IncompatibleOptionCombination(s) => ParseErrorV::IncompatibleOptionCombination(
                s@,
            ),
            ParseError::UnknownSerialOption(s) => ParseErrorV::UnknownSerialOption(s@),
            ParseError::MissingRequiredValue(s) => ParseErrorV::MissingRequiredValue(s@),
            ParseError::InvalidSocketAddress(s) => ParseErrorV::InvalidSocketAddress(s@),
            ParseError::InvalidEndpointBackend(s) => ParseErrorV::InvalidEndpointBackend(s@),
            ParseError::InvalidQueueCount(s) => ParseErrorV::InvalidQueueCount(s@),
            ParseError::DuplicateBootDevice(s) => ParseErrorV::DuplicateBootDevice(s@),
            ParseError::UnknownBootDeviceKind(s) => ParseErrorV::UnknownBootDeviceKind(s@),
        }
    }
}

impl DeepView for ParseError {
    type V = ParseErrorV;

    open spec fn deep_view(&self) -> ParseErrorV {
        self.view()
    }
}

impl ParseError {
    /// The substring that made the parse fail, as it was captured.
    pub fn offending(&self) -> (r: &str)
        ensures
            r@ == self.spec_offending(),
    {
        match self {
            ParseError::MalformedNumber(s) => s.as_str(),
            ParseError::InvalidMemorySize(s) => s.as_str(),
            ParseError::EmptyOrMissingSegment(s) => s.as_str(),
            ParseError::UnknownDiskKind(s) => s.as_str(),
            ParseError::UnknownBlobKind(s) => s.as_str(),
            ParseError::UnknownCipher(s) => s.as_str(),
            ParseError::MissingCacheRootConfiguration(s) => s.as_str(),
            ParseError::UnknownAttachmentOption(s) => s.as_str(),
            ParseError::IncompatibleOptionCombination(s) => s.as_str(),
            ParseError::UnknownSerialOption(s) => s.as_str(),
            ParseError::MissingRequiredValue(s) => s.as_str(),
            ParseError::InvalidSocketAddress(s) => s.as_str(),
            ParseError::InvalidEndpointBackend(s) => s.as_str(),
            ParseError::InvalidQueueCount(s) => s.as_str(),
            ParseError::DuplicateBootDevice(s) => s.as_str(),
            ParseError::UnknownBootDeviceKind(s) => s.as_str(),
        }
    }

    /// The payload of whichever variant this error is.
    pub open spec fn spec_offending(&self) -> Seq<char> {
        match self.view() {
            ParseErrorV::MalformedNumber(s) => s,
            ParseErrorV::InvalidMemorySize(s) => s,
            ParseErrorV::EmptyOrMissingSegment(s) => s,
            ParseErrorV::UnknownDiskKind(s) => s,
            ParseErrorV::UnknownBlobKind(s) => s,
            ParseErrorV::UnknownCipher(s) => s,
            ParseErrorV::MissingCacheRootConfiguration(s) => s,
            ParseErrorV::IncompatibleOptionCombination(s) => s,
            ParseErrorV::UnknownAttachmentOption(s) => s,
            ParseErrorV::UnknownSerialOption(s) => s,
            ParseErrorV::MissingRequiredValue(s) => s,
            ParseErrorV::InvalidSocketAddress(s) => s,
            ParseErrorV::InvalidEndpointBackend(s) => s,
            ParseErrorV::InvalidQueueCount(s) => s,
            ParseErrorV::DuplicateBootDevice(s) => s,
            ParseErrorV::UnknownBootDeviceKind(s) => s,
        }
    }
}

} // verus!
