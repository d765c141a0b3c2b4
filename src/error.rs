use vstd::prelude::*;

verus! {

/// What the library reports instead of producing a packet.
#[derive(Debug, Clone, Copy, PartialEq, Eq, Structural)]
pub enum CommandError {
    /// A settings field lies outside its declared range.
    InvalidSettings,
    /// The mode name is not one of the recognised literals.
    UnknownMode,
}

} // verus!
