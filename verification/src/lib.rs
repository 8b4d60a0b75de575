use vstd::prelude::*;

pub mod brush;
pub mod color;
pub mod mesh;
pub mod panel;
pub mod shading;

verus! {

/// Actions a mask editing panel can ask of its host. The panel has none yet: the only
/// variant holds a value of a type that has none, so no action can ever be built.
pub enum PanelMaskEditAction {
    Never(std::convert::Infallible),
}

} // verus!
