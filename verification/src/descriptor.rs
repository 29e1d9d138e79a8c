//! Descriptor bit-packing for shader resource views.

use vstd::prelude::*;

verus! {

/// The field width, in bits, of one component mapping inside a packed
/// four-component mapping.
pub const SHADER_COMPONENT_MAPPING_SHIFT: u32 = 3;

/// How one component of a shader resource view is routed from memory.
#[derive(Copy, Clone, PartialEq, Eq, Structural, Debug)]
pub enum ShaderComponentMapping {
    /// Return memory component 0, i.e. R in RGBA.
    FromMemoryComponent0,
    /// Return memory component 1, i.e. G in RGBA.
    FromMemoryComponent1,
    /// Return memory component 2, i.e. B in RGBA.
    FromMemoryComponent2,
    /// Return memory component 3, i.e. A in RGBA.
    FromMemoryComponent3,
    /// Force the resulting value to 0.
    ForceValue0,
    /// Force the resulting value to 1.
    ForceValue1,
}

impl ShaderComponentMapping {
    /// The mapping's native encoding.
    pub open spec fn bits_spec(&self) -> u32 {
        match self {
            ShaderComponentMapping::FromMemoryComponent0 => 0u32,
            ShaderComponentMapping::FromMemoryComponent1 => 1u32,
            ShaderComponentMapping::FromMemoryComponent2 => 2u32,
            ShaderComponentMapping::FromMemoryComponent3 => 3u32,
            ShaderComponentMapping::ForceValue0 => 4u32,
            ShaderComponentMapping::ForceValue1 => 5u32,
        }
    }

    /// The mapping's native encoding; always at most 5.
    pub fn bits(&self) -> (b: u32)
        ensures
            b == self.bits_spec(),
            b <= 5,
    {
        match self {
            ShaderComponentMapping::FromMemoryComponent0 => 0u32,
            ShaderComponentMapping::FromMemoryComponent1 => 1u32,
            ShaderComponentMapping::FromMemoryComponent2 => 2u32,
            ShaderComponentMapping::FromMemoryComponent3 => 3u32,
            ShaderComponentMapping::ForceValue0 => 4u32,
            ShaderComponentMapping::ForceValue1 => 5u32,
        }
    }
}

/// The packed word for four component mappings.
///
/// The additions bind tighter than the shifts, so each shift amount is
/// the field width plus the next component's encoding, and the shifts
/// then compound left to right.  The native header's intended bit
/// layout is ambiguous, so this mirrors the packing as shipped rather
/// than a corrected one.
pub open spec fn pack_mapping(
    r: ShaderComponentMapping,
    g: ShaderComponentMapping,
    b: ShaderComponentMapping,
    a: ShaderComponentMapping,
) -> u32 {
    ((((r.bits_spec() + g.bits_spec()) as u32) << ((SHADER_COMPONENT_MAPPING_SHIFT
        + b.bits_spec()) as u32)) << ((SHADER_COMPONENT_MAPPING_SHIFT * 2 + a.bits_spec()) as u32))
        << ((SHADER_COMPONENT_MAPPING_SHIFT * 3) as u32)
}

/// Specifies how memory gets routed by a shader resource view: four
/// component mappings packed into one word.
#[derive(Copy, Clone, PartialEq, Eq, Structural, Debug)]
pub struct Shader4ComponentMapping {
    inner: u32,
}

impl Shader4ComponentMapping {
    /// The packed word.
    pub closed spec fn bits_spec(&self) -> u32 {
        self.inner
    }

    /// Pack the four component mappings into one word, as
    /// [`pack_mapping`] describes.
    pub fn new(
        r: ShaderComponentMapping,
        g: ShaderComponentMapping,
        b: ShaderComponentMapping,
        a: ShaderComponentMapping,
    ) -> (m: Shader4ComponentMapping)
        ensures
            m.bits_spec() == pack_mapping(r, g, b, a),
    {
        let rb = r.bits();
        let gb = g.bits();
        let bb = b.bits();
        let ab = a.bits();
        let sum: u32 = rb + gb;
        let shift1: u32 = SHADER_COMPONENT_MAPPING_SHIFT + bb;
        let shift2: u32 = SHADER_COMPONENT_MAPPING_SHIFT * 2 + ab;
        let shift3: u32 = SHADER_COMPONENT_MAPPING_SHIFT * 3;
        Shader4ComponentMapping { inner: ((sum << shift1) << shift2) << shift3 }
    }

    /// Read back the packed word.
    pub fn bits(&self) -> (b: u32)
        ensures
            b == self.bits_spec(),
    {
        self.inner
    }
}

impl Default for Shader4ComponentMapping {
    /// The identity mapping: each component routed from its own memory
    /// component.
    fn default() -> (m: Shader4ComponentMapping)
        ensures
            m.bits_spec() == pack_mapping(
                ShaderComponentMapping::FromMemoryComponent0,
                ShaderComponentMapping::FromMemoryComponent1,
                ShaderComponentMapping::FromMemoryComponent2,
                ShaderComponentMapping::FromMemoryComponent3,
            ),
    {
        Shader4ComponentMapping::new(
            ShaderComponentMapping::FromMemoryComponent0,
            ShaderComponentMapping::FromMemoryComponent1,
            ShaderComponentMapping::FromMemoryComponent2,
            ShaderComponentMapping::FromMemoryComponent3,
        )
    }
}

} // verus!
