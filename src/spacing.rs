use vstd::prelude::*;

verus! {

/// How children of equal length share the length of their parent along one
/// axis.
#[derive(Debug, Clone, Copy, PartialEq, Eq, Structural, Hash)]
pub enum Spacing {
    /// The slack goes into the gaps between children; a lone child is
    /// centred.
    SpaceBetween,
    /// Each child gets half a gap on either side.
    SpaceAround,
    /// The children are packed together and the block is centred.
    Centre,
}

} // verus!
