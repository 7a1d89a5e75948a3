//! Decoding of raw node properties.
//!
//! FBX stores node properties as lists of typed attribute values.  The
//! enum-valued properties arrive as 32-bit integers; a loader decodes the
//! first attribute and maps it into the matching enum.  A node's transform
//! properties are resolved into a `TransformInfo` with the documented
//! defaults: the inherit type defaults to its first variant, the rotation
//! order to XYZ; every other required property must be present.

use vstd::prelude::*;

use crate::error::FbxError;
use crate::mat::Mat4;
use crate::transform::{InheritType, TransformInfo};

verus! {

/// One attribute value of a property node, reduced to what the decoders
/// read.
#[derive(Clone, Copy, Debug)]
pub enum AttributeValue {
    I16(i16),
    I32(i32),
    I64(i64),
    Flag(bool),
    Other,
}

/// Decodes enum-valued properties stored as a leading `i32` attribute;
/// carries the enum's name for diagnostics.
pub struct EnumLoader {
    pub enum_name: &'static str,
}

impl EnumLoader {
    /// A loader for the named enum.
    pub fn new(enum_name: &'static str) -> (r: EnumLoader)
        ensures
            r.enum_name == enum_name,
    {
        EnumLoader { enum_name }
    }

    /// What this loader expects to find.
    pub fn expecting(&self) -> (r: &'static str)
        ensures
            r == self.enum_name,
    {
        self.enum_name
    }

    /// Reads the enum's raw value: the first attribute, which must be an
    /// `i32`.
    pub fn load_raw(&self, attributes: &Vec<AttributeValue>) -> (r: Result<i32, FbxError>)
        ensures
            attributes@.len() == 0 ==> r == Err::<i32, FbxError>(FbxError::MissingProperty),
            attributes@.len() > 0 ==> match attributes@[0] {
                AttributeValue::I32(v) => r == Ok::<i32, FbxError>(v),
                _ => r == Err::<i32, FbxError>(FbxError::InvalidPropertyValue),
            },
    {
        if attributes.len() == 0 {
            return Err(FbxError::MissingProperty);
        }
        match attributes[0] {
            AttributeValue::I32(v) => Ok(v),
            _ => Err(FbxError::InvalidPropertyValue),
        }
    }
}

/// The order in which a node's Euler rotation angles apply.  FBX rotations
/// are Tait-Bryan angles in degrees; to match the renderer's convention
/// the angles are negated and the resulting matrix inverted downstream.
#[derive(Clone, Copy, Debug, PartialEq, Eq, Structural)]
pub enum RotationOrder {
    XYZ,
    XZY,
    YZX,
    YXZ,
    ZXY,
    ZYX,
    SphericXYZ,
}

impl RotationOrder {
    /// Decodes the document's integer encoding of the rotation order.
    pub fn try_from(value: i32) -> (r: Result<RotationOrder, FbxError>)
        ensures
            value == 0 ==> r == Ok::<RotationOrder, FbxError>(RotationOrder::XYZ),
            value == 1 ==> r == Ok::<RotationOrder, FbxError>(RotationOrder::XZY),
            value == 2 ==> r == Ok::<RotationOrder, FbxError>(RotationOrder::YZX),
            value == 3 ==> r == Ok::<RotationOrder, FbxError>(RotationOrder::YXZ),
            value == 4 ==> r == Ok::<RotationOrder, FbxError>(RotationOrder::ZXY),
            value == 5 ==> r == Ok::<RotationOrder, FbxError>(RotationOrder::ZYX),
            value == 6 ==> r == Ok::<RotationOrder, FbxError>(RotationOrder::SphericXYZ),
            !(0 <= value <= 6) ==> r == Err::<RotationOrder, FbxError>(
                FbxError::InvalidPropertyValue,
            ),
    {
        match value {
            0 => Ok(RotationOrder::XYZ),
            1 => Ok(RotationOrder::XZY),
            2 => Ok(RotationOrder::YZX),
            3 => Ok(RotationOrder::YXZ),
            4 => Ok(RotationOrder::ZXY),
            5 => Ok(RotationOrder::ZYX),
            6 => Ok(RotationOrder::SphericXYZ),
            _ => Err(FbxError::InvalidPropertyValue),
        }
    }

    /// The documented default when the property is absent.
    pub fn default_order() -> (r: RotationOrder)
        ensures
            r == RotationOrder::XYZ,
    {
        RotationOrder::XYZ
    }
}

/// A node's transform properties as read from the document, each absent
/// when the node does not carry it.  The rotation fields hold matrices
/// already built from the negated Euler angles in the node's rotation
/// order.
pub struct RawNodeProperties {
    pub rotation_pivot: Option<[i64; 3]>,
    pub rotation_offset: Option<[i64; 3]>,
    pub pre_rotation: Option<Mat4>,
    pub local_rotation: Option<Mat4>,
    pub post_rotation: Option<Mat4>,
    pub translation: Option<[i64; 3]>,
    pub scaling_pivot: Option<[i64; 3]>,
    pub scaling_offset: Option<[i64; 3]>,
    pub local_scale: Option<[i64; 3]>,
    pub inherit_type: Option<i32>,
}

/// Resolves a node's raw properties into a `TransformInfo`: every
/// property without a documented default must be present, and the inherit
/// type defaults to the parent-rotation-then-scales variant.
pub fn resolve_node_properties(p: &RawNodeProperties) -> (r: Result<TransformInfo, FbxError>)
    ensures
        r is Ok <==> (p.rotation_pivot is Some && p.rotation_offset is Some && p.pre_rotation
            is Some && p.local_rotation is Some && p.post_rotation is Some && p.translation
            is Some && p.scaling_pivot is Some && p.scaling_offset is Some && p.local_scale
            is Some && match p.inherit_type {
            Option::Some(v) => 0 <= v <= 2,
            Option::None => true,
        }),
        r is Ok ==> ({
            let t = r->Ok_0;
            &&& t.rotation_pivot == p.rotation_pivot->0
            &&& t.rotation_offset == p.rotation_offset->0
            &&& t.pre_rotation == p.pre_rotation->0
            &&& t.local_rotation == p.local_rotation->0
            &&& t.post_rotation == p.post_rotation->0
            &&& t.translation == p.translation->0
            &&& t.scaling_pivot == p.scaling_pivot->0
            &&& t.scaling_offset == p.scaling_offset->0
            &&& t.local_scale == p.local_scale->0
            &&& t.inherit_type == match p.inherit_type {
                Option::Some(0) => InheritType::RrSs,
                Option::Some(1) => InheritType::RSrs,
                Option::Some(2) => InheritType::Rrs,
                _ => InheritType::RrSs,
            }
        }),
        r is Err && (p.rotation_pivot is None || p.rotation_offset is None || p.pre_rotation
            is None || p.local_rotation is None || p.post_rotation is None || p.translation
            is None || p.scaling_pivot is None || p.scaling_offset is None || p.local_scale
            is None) ==> r->Err_0 == FbxError::MissingProperty,
        r is Err && p.rotation_pivot is Some && p.rotation_offset is Some && p.pre_rotation
            is Some && p.local_rotation is Some && p.post_rotation is Some && p.translation
            is Some && p.scaling_pivot is Some && p.scaling_offset is Some && p.local_scale
            is Some ==> r->Err_0 == FbxError::InvalidPropertyValue,
{
    let rotation_pivot = match p.rotation_pivot {
        Option::Some(v) => v,
        Option::None => {
            return Err(FbxError::MissingProperty);
        },
    };
    let rotation_offset = match p.rotation_offset {
        Option::Some(v) => v,
        Option::None => {
            return Err(FbxError::MissingProperty);
        },
    };
    let pre_rotation = match p.pre_rotation {
        Option::Some(v) => v,
        Option::None => {
            return Err(FbxError::MissingProperty);
        },
    };
    let local_rotation = match p.local_rotation {
        Option::Some(v) => v,
        Option::None => {
            return Err(FbxError::MissingProperty);
        },
    };
    let post_rotation = match p.post_rotation {
        Option::Some(v) => v,
        Option::None => {
            return Err(FbxError::MissingProperty);
        },
    };
    let translation = match p.translation {
        Option::Some(v) => v,
        Option::None => {
            return Err(FbxError::MissingProperty);
        },
    };
    let scaling_pivot = match p.scaling_pivot {
        Option::Some(v) => v,
        Option::None => {
            return Err(FbxError::MissingProperty);
        },
    };
    let scaling_offset = match p.scaling_offset {
        Option::Some(v) => v,
        Option::None => {
            return Err(FbxError::MissingProperty);
        },
    };
    let local_scale = match p.local_scale {
        Option::Some(v) => v,
        Option::None => {
            return Err(FbxError::MissingProperty);
        },
    };
    let inherit_type = match p.inherit_type {
        Option::Some(v) => match InheritType::try_from(v) {
            Ok(t) => t,
            Err(e) => {
                return Err(e);
            },
        },
        Option::None => InheritType::RrSs,
    };
    Ok(
        TransformInfo {
            rotation_pivot,
            rotation_offset,
            pre_rotation,
            local_rotation,
            post_rotation,
            translation,
            scaling_pivot,
            scaling_offset,
            local_scale,
            inherit_type,
        },
    )
}

} // verus!
