use vstd::prelude::*;

verus! {

/// A failed registry lookup. Both variants report malformed input, never a
/// transient fault: lookups are deterministic, so retrying cannot help.
#[derive(Debug, PartialEq, Eq)]
pub enum RegistryError {
    /// The byte does not correspond to any defined instruction (a gap in the
    /// one-byte code space). The payload is the rejected byte.
    InvalidOpcode(u8),
    /// The text does not exactly match any defined mnemonic (matching is
    /// case-sensitive). The payload is the rejected text.
    UnknownMnemonic(String),
}

} // verus!
