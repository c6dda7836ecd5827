//! Vertex data as it is bound to the shader stage.

use vstd::prelude::*;

verus! {

/// A position: three 32-bit floating-point components, each held as its
/// IEEE 754 bit pattern.
#[derive(Clone, Copy, Debug, PartialEq, Eq, Structural)]
pub struct Vertex {
    pub x: u32,
    pub y: u32,
    pub z: u32,
}

/// A normal vector, held like a [`Vertex`].
#[derive(Clone, Copy, Debug, PartialEq, Eq, Structural)]
pub struct Normal {
    pub x: u32,
    pub y: u32,
    pub z: u32,
}

/// Whether `bits` is the pattern of a finite number: of neither an infinity
/// nor a NaN, which have every bit of the exponent set.
pub open spec fn finite(bits: u32) -> bool {
    bits & 0x7f80_0000 != 0x7f80_0000
}

fn is_finite(bits: u32) -> (yes: bool)
    ensures
        yes == finite(bits),
{
    bits & 0x7f80_0000 != 0x7f80_0000
}

impl Vertex {
    /// Whether all three components are finite numbers.
    pub open spec fn finite(self) -> bool {
        finite(self.x) && finite(self.y) && finite(self.z)
    }

    pub fn is_finite(&self) -> (yes: bool)
        ensures
            yes == self.finite(),
    {
        is_finite(self.x) && is_finite(self.y) && is_finite(self.z)
    }
}

impl Normal {
    /// Whether all three components are finite numbers.
    pub open spec fn finite(self) -> bool {
        finite(self.x) && finite(self.y) && finite(self.z)
    }

    pub fn is_finite(&self) -> (yes: bool)
        ensures
            yes == self.finite(),
    {
        is_finite(self.x) && is_finite(self.y) && is_finite(self.z)
    }
}

/// Offset of a position/normal pair in the draw buffers.
pub type Index = u16;

/// Scalar type of one member of a vertex structure.
#[derive(Clone, Copy, Debug, PartialEq, Eq, Structural)]
pub enum VertexMemberTy {
    I8,
    U8,
    I16,
    U16,
    I32,
    U32,
    F32,
    F64,
}

/// Where a named shader input lies inside one vertex and what it holds.
#[derive(Clone, Copy, Debug, PartialEq, Eq, Structural)]
pub struct VertexMemberInfo {
    /// Bytes from the start of the vertex.
    pub offset: usize,
    /// Scalar type of the member.
    pub ty: VertexMemberTy,
    /// Number of consecutive scalars of that type.
    pub array_size: usize,
}

/// Bytes taken by one component.
pub const COMPONENT_SIZE: usize = 4;

/// Bytes taken by one vertex or one normal.
pub const STRIDE: usize = 12;

/// The member that holds component number `slot` of a three-component vector.
pub open spec fn component(slot: nat) -> VertexMemberInfo {
    VertexMemberInfo {
        offset: (slot * COMPONENT_SIZE) as usize,
        ty: VertexMemberTy::F32,
        array_size: 1,
    }
}

/// The layout table of [`Vertex`]: shader input name to member.
pub open spec fn vertex_member(name: Seq<char>) -> Option<VertexMemberInfo> {
    if name == "pos_x"@ {
        Some(component(0))
    } else if name == "pos_y"@ {
        Some(component(1))
    } else if name == "pos_z"@ {
        Some(component(2))
    } else {
        None
    }
}

/// The layout table of [`Normal`]: shader input name to member.
pub open spec fn normal_member(name: Seq<char>) -> Option<VertexMemberInfo> {
    if name == "norm_x"@ {
        Some(component(0))
    } else if name == "norm_y"@ {
        Some(component(1))
    } else if name == "norm_z"@ {
        Some(component(2))
    } else {
        None
    }
}

/// The members of a table lie inside the vertex, on component boundaries,
/// and no two names share a member.
pub proof fn lemma_members_apart(name: Seq<char>, other: Seq<char>)
    ensures
        vertex_member(name) matches Some(member) ==> member.offset % COMPONENT_SIZE == 0
            && member.offset + member.array_size * COMPONENT_SIZE <= STRIDE,
        normal_member(name) matches Some(member) ==> member.offset % COMPONENT_SIZE == 0
            && member.offset + member.array_size * COMPONENT_SIZE <= STRIDE,
        name != other && vertex_member(name) is Some && vertex_member(other) is Some
            ==> vertex_member(name)->0.offset != vertex_member(other)->0.offset,
        name != other && normal_member(name) is Some && normal_member(other) is Some
            ==> normal_member(name)->0.offset != normal_member(other)->0.offset,
{
}

fn same_text(a: &str, b: &str) -> (r: bool)
    ensures
        r == (a@ == b@),
{
    a.to_owned() == b.to_owned()
}

fn component_at(slot: usize) -> (r: VertexMemberInfo)
    requires
        slot < 3,
    ensures
        r == component(slot as nat),
{
    VertexMemberInfo { offset: slot * COMPONENT_SIZE, ty: VertexMemberTy::F32, array_size: 1 }
}

impl Vertex {
    /// Looks a shader input up in the layout table of a position.
    pub fn member(name: &str) -> (r: Option<VertexMemberInfo>)
        ensures
            r == vertex_member(name@),
    {
        if same_text(name, "pos_x") {
            Some(component_at(0))
        } else if same_text(name, "pos_y") {
            Some(component_at(1))
        } else if same_text(name, "pos_z") {
            Some(component_at(2))
        } else {
            None
        }
    }
}

impl Normal {
    /// Looks a shader input up in the layout table of a normal.
    pub fn member(name: &str) -> (r: Option<VertexMemberInfo>)
        ensures
            r == normal_member(name@),
    {
        if same_text(name, "norm_x") {
            Some(component_at(0))
        } else if same_text(name, "norm_y") {
            Some(component_at(1))
        } else if same_text(name, "norm_z") {
            Some(component_at(2))
        } else {
            None
        }
    }
}

} // verus!
