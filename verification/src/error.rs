//! Error taxonomy of the conversion pipeline.
//!
//! Structural errors describe malformed or missing document data and fail the
//! smallest enclosing unit (one mesh, one material, one node subtree).  Policy
//! errors (an unsupported polygon, an exhausted loader chain) are recoverable
//! by falling back to a default.  Invariant violations (mismatched buffer
//! lengths) are defects and fail loudly.

use vstd::prelude::*;

verus! {

/// The kinds of per-vertex attribute layers a mesh may carry.
#[derive(Clone, Copy, Debug, PartialEq, Eq, Structural)]
pub enum LayerKind {
    Normal,
    Uv,
    Color,
    Material,
}

/// Everything that can go wrong while converting one document unit.
#[derive(Clone, Copy, Debug, PartialEq, Eq, Structural)]
pub enum FbxError {
    /// A polygon with fewer than three corners cannot be triangulated.
    InvalidPolygon,
    /// A polygon with two or more concave and two or more convex corners;
    /// ear clipping is not implemented.
    UnsupportedPolygon,
    /// The polygon vertex array ended without a polygon-end marker.
    IncompletePolygon,
    /// A polygon corner referenced a control point outside the position pool.
    ControlPointOutOfRange,
    /// The requested layer kind is absent from the mesh's layer stack.
    MissingLayerElement(LayerKind),
    /// A layer uses a mapping mode the reader does not support.
    UnsupportedMappingMode,
    /// A layer lookup computed an index outside the layer's value array.
    LayerIndexOutOfRange,
    /// A material layer held a negative material index.
    NegativeMaterialIndex,
    /// A material index exceeded the mesh's material-slot count.
    MaterialIndexOutOfRange,
    /// Attribute buffers of one mesh disagree in length; a defect, not a
    /// recoverable condition.
    MismatchedBufferLength,
    /// A required node property without a documented default is absent.
    MissingProperty,
    /// A property value could not be decoded into its expected type.
    InvalidPropertyValue,
    /// Every strategy of the material loader chain declined.
    NoLoaderMatched,
    /// A fixed-point computation left the representable range.
    NumericOverflow,
    /// A transform could not be inverted or decomposed (zero determinant or
    /// zero scale component).
    DegenerateTransform,
}

/// An error bound to the unit it failed on — a mesh, a material or a
/// hierarchy node — identified by the unit's display label.
pub struct LoadError {
    pub label: Vec<u8>,
    pub error: FbxError,
}

} // verus!
