//! Why a conversion can fail.
use vstd::prelude::*;

verus! {

/// The ways in which an input is refused.
#[derive(Clone, Copy, Debug, PartialEq, Eq, Structural)]
pub enum ConvertError {
    /// The input is shorter than an a.out header, or its header describes an
    /// image that the target's ELF class cannot hold.
    FormatError,
    /// The header's magic number selects no supported machine. The magic is
    /// kept for the diagnostic.
    UnsupportedArchitecture(u32),
    /// The header declares more text, data and symbol bytes than the input
    /// holds after the header.
    TruncatedInput,
    /// A symbol record has no complete head, or its name has no terminator
    /// within the lookahead window.
    SymbolParseError,
}

} // verus!
