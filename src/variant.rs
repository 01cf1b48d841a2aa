use vstd::prelude::*;

verus! {

/// A value of one of the shapes a shader parameter can take.
///
/// Floating-point components are held as their IEEE-754 bit patterns;
/// matrices are held column by column.
#[derive(Clone, Debug, PartialEq)]
pub enum Variant {
    Unknown,
    Bool(u8),
    Int(i32),
    UInt(u32),
    Float(u32),
    Float2([u32; 2]),
    Float3([u32; 3]),
    Float4([u32; 4]),
    FloatV(Vec<u32>),
    Matrix4([u32; 16]),
}

} // verus!
