//! Metal Shading Language target: the compiler options and the override
//! tables, and their conversion into the form the native compiler takes.
use crate::c_string::{c_compatible, is_c_compatible};
use crate::compiler::RawEntryPoint;
use crate::error::ErrorCode;
use crate::ordered_map::{OrderedKey, OrderedMap};
use crate::spirv::{
    built_in_as_raw, execution_model_code, optional_built_in_code, BuiltIn, ExecutionModel,
    SPIRType,
};
use vstd::prelude::*;

verus! {

/// A MSL target.
#[derive(Debug, Clone)]
pub struct Target;

/// Location of a vertex attribute to override.
#[derive(Debug, Clone, Hash, Eq, PartialEq, Structural, Ord, PartialOrd)]
pub struct VertexAttributeLocation {
    pub location: u32,
    pub component: u32,
}

/// Format of the vertex attribute.
#[derive(Debug, Clone, Copy, Hash, Eq, PartialEq, Structural, Ord, PartialOrd)]
pub enum Format {
    Other,
    Uint8,
    Uint16,
}

/// Rate of the vertex attribute.
#[derive(Debug, Clone, Copy, Hash, Eq, PartialEq, Structural, Ord, PartialOrd)]
pub enum Rate {
    PerVertex,
    PerPrimitive,
    PerPatch,
}

/// The code of SPIRV-Cross's `MSLShaderVariableFormat` that a format maps to:
/// `OTHER` (0), `UINT8` (1), `UINT16` (2).
pub open spec fn format_code(f: Format) -> u32 {
    match f {
        Format::Other => 0,
        Format::Uint8 => 1,
        Format::Uint16 => 2,
    }
}

/// The code of SPIRV-Cross's `MSLShaderVariableRate` that a rate maps to,
/// where `PER_VERTEX` is 0, `PER_PRIMITIVE` 1 and `PER_PATCH` 2: each rate
/// maps to the native rate of the same name.
pub open spec fn rate_code(r: Rate) -> u32 {
    match r {
        Rate::PerVertex => 0,
        Rate::PerPrimitive => 1,
        Rate::PerPatch => 2,
    }
}

impl Format {
    /// The native compiler's code for the format.
    pub fn as_raw(&self) -> (r: u32)
        ensures
            r == format_code(*self),
    {
        match self {
            Format::Other => 0,
            Format::Uint8 => 1,
            Format::Uint16 => 2,
        }
    }
}

impl Rate {
    /// The native compiler's code for the rate.
    pub fn as_raw(&self) -> (r: u32)
        ensures
            r == rate_code(*self),
    {
        match self {
            Rate::PerVertex => 0,
            Rate::PerPrimitive => 1,
            Rate::PerPatch => 2,
        }
    }
}

/// Vertex attribute description for overriding.
#[derive(Debug, Clone, Hash, Eq, PartialEq, Structural)]
pub struct VertexAttribute {
    pub buffer_id: u32,
    pub format: Format,
    pub built_in: Option<BuiltIn>,
    pub vecsize: u32,
    pub rate: Rate,
}

/// Location of a resource binding to override.
#[derive(Debug, Clone, Hash, Eq, PartialEq, Structural, Ord, PartialOrd)]
pub struct ResourceBindingLocation {
    pub stage: ExecutionModel,
    pub desc_set: u32,
    pub binding: u32,
}

/// Resource binding description for overriding.
#[derive(Debug, Clone, Hash, Eq, PartialEq, Structural)]
pub struct ResourceBinding {
    pub buffer_id: u32,
    pub texture_id: u32,
    pub sampler_id: u32,
    pub base_type: Option<SPIRType>,
    pub count: u32,
}

/// Location of a sampler binding to override.
#[derive(Debug, Clone, Hash, Eq, PartialEq, Structural, Ord, PartialOrd)]
pub struct SamplerLocation {
    pub desc_set: u32,
    pub binding: u32,
}

impl OrderedKey for VertexAttributeLocation {
    /// Ordered by location, then by component.
    open spec fn rank(&self) -> nat {
        (self.location * 0x1_0000_0000 + self.component) as nat
    }

    fn rank_of(&self) -> (r: u128) {
        (self.location as u128) * 0x1_0000_0000 + (self.component as u128)
    }

    fn copy_key(&self) -> (r: Self) {
        VertexAttributeLocation { location: self.location, component: self.component }
    }

    proof fn lemma_rank_determines_key(a: Self, b: Self) {
    }
}

impl OrderedKey for ResourceBindingLocation {
    /// Ordered by stage, then by descriptor set, then by binding.
    open spec fn rank(&self) -> nat {
        (execution_model_code(self.stage) * 0x1_0000_0000_0000_0000 + self.desc_set * 0x1_0000_0000
            + self.binding) as nat
    }

    fn rank_of(&self) -> (r: u128) {
        (self.stage.as_raw() as u128) * 0x1_0000_0000_0000_0000 + (self.desc_set as u128)
            * 0x1_0000_0000 + (self.binding as u128)
    }

    fn copy_key(&self) -> (r: Self) {
        ResourceBindingLocation {
            stage: self.stage,
            desc_set: self.desc_set,
            binding: self.binding,
        }
    }

    proof fn lemma_rank_determines_key(a: Self, b: Self) {
        crate::spirv::lemma_execution_model_round_trip(a.stage, 0);
        crate::spirv::lemma_execution_model_round_trip(b.stage, 0);
    }
}

impl OrderedKey for SamplerLocation {
    /// Ordered by descriptor set, then by binding.
    open spec fn rank(&self) -> nat {
        (self.desc_set * 0x1_0000_0000 + self.binding) as nat
    }

    fn rank_of(&self) -> (r: u128) {
        (self.desc_set as u128) * 0x1_0000_0000 + (self.binding as u128)
    }

    fn copy_key(&self) -> (r: Self) {
        SamplerLocation { desc_set: self.desc_set, binding: self.binding }
    }

    proof fn lemma_rank_determines_key(a: Self, b: Self) {
    }
}

/// The coordinate space of a constant sampler.
#[derive(Debug, Clone, Copy, Hash, Eq, PartialEq, Structural)]
pub enum SamplerCoord {
    Normalized,
    Pixel,
}

/// The code of `SamplerCoord` in the native compiler's sampler description.
pub open spec fn sampler_coord_code(v: SamplerCoord) -> u32 {
    match v {
        SamplerCoord::Normalized => 0,
        SamplerCoord::Pixel => 1,
    }
}

impl SamplerCoord {
    /// The native compiler's code for the value.
    pub fn as_raw(self) -> (r: u32)
        ensures
            r == sampler_coord_code(self),
    {
        match self {
            SamplerCoord::Normalized => 0,
            SamplerCoord::Pixel => 1,
        }
    }
}

/// The filter of a constant sampler.
#[derive(Debug, Clone, Copy, Hash, Eq, PartialEq, Structural)]
pub enum SamplerFilter {
    Nearest,
    Linear,
}

/// The code of `SamplerFilter` in the native compiler's sampler description.
pub open spec fn sampler_filter_code(v: SamplerFilter) -> u32 {
    match v {
        SamplerFilter::Nearest => 0,
        SamplerFilter::Linear => 1,
    }
}

impl SamplerFilter {
    /// The native compiler's code for the value.
    pub fn as_raw(self) -> (r: u32)
        ensures
            r == sampler_filter_code(self),
    {
        match self {
            SamplerFilter::Nearest => 0,
            SamplerFilter::Linear => 1,
        }
    }
}

/// The mipmap filter of a constant sampler.
#[derive(Debug, Clone, Copy, Hash, Eq, PartialEq, Structural)]
pub enum SamplerMipFilter {
    /// No mipmap filtering.
    Disabled,
    Nearest,
    Linear,
}

/// The code of `SamplerMipFilter` in the native compiler's sampler description.
pub open spec fn sampler_mip_filter_code(v: SamplerMipFilter) -> u32 {
    match v {
        SamplerMipFilter::Disabled => 0,
        SamplerMipFilter::Nearest => 1,
        SamplerMipFilter::Linear => 2,
    }
}

impl SamplerMipFilter {
    /// The native compiler's code for the value.
    pub fn as_raw(self) -> (r: u32)
        ensures
            r == sampler_mip_filter_code(self),
    {
        match self {
            SamplerMipFilter::Disabled => 0,
            SamplerMipFilter::Nearest => 1,
            SamplerMipFilter::Linear => 2,
        }
    }
}

/// The addressing mode of a constant sampler.
#[derive(Debug, Clone, Copy, Hash, Eq, PartialEq, Structural)]
pub enum SamplerAddress {
    ClampToZero,
    ClampToEdge,
    ClampToBorder,
    Repeat,
    MirroredRepeat,
}

/// The code of `SamplerAddress` in the native compiler's sampler description.
pub open spec fn sampler_address_code(v: SamplerAddress) -> u32 {
    match v {
        SamplerAddress::ClampToZero => 0,
        SamplerAddress::ClampToEdge => 1,
        SamplerAddress::ClampToBorder => 2,
        SamplerAddress::Repeat => 3,
        SamplerAddress::MirroredRepeat => 4,
    }
}

impl SamplerAddress {
    /// The native compiler's code for the value.
    pub fn as_raw(self) -> (r: u32)
        ensures
            r == sampler_address_code(self),
    {
        match self {
            SamplerAddress::ClampToZero => 0,
            SamplerAddress::ClampToEdge => 1,
            SamplerAddress::ClampToBorder => 2,
            SamplerAddress::Repeat => 3,
            SamplerAddress::MirroredRepeat => 4,
        }
    }
}

/// The comparison function of a constant sampler.
#[derive(Debug, Clone, Copy, Hash, Eq, PartialEq, Structural)]
pub enum SamplerCompareFunc {
    Never,
    Less,
    LessEqual,
    Greater,
    GreaterEqual,
    Equal,
    NotEqual,
    Always,
}

/// The code of `SamplerCompareFunc` in the native compiler's sampler description.
pub open spec fn sampler_compare_func_code(v: SamplerCompareFunc) -> u32 {
    match v {
        SamplerCompareFunc::Never => 0,
        SamplerCompareFunc::Less => 1,
        SamplerCompareFunc::LessEqual => 2,
        SamplerCompareFunc::Greater => 3,
        SamplerCompareFunc::GreaterEqual => 4,
        SamplerCompareFunc::Equal => 5,
        SamplerCompareFunc::NotEqual => 6,
        SamplerCompareFunc::Always => 7,
    }
}

impl SamplerCompareFunc {
    /// The native compiler's code for the value.
    pub fn as_raw(self) -> (r: u32)
        ensures
            r == sampler_compare_func_code(self),
    {
        match self {
            SamplerCompareFunc::Never => 0,
            SamplerCompareFunc::Less => 1,
            SamplerCompareFunc::LessEqual => 2,
            SamplerCompareFunc::Greater => 3,
            SamplerCompareFunc::GreaterEqual => 4,
            SamplerCompareFunc::Equal => 5,
            SamplerCompareFunc::NotEqual => 6,
            SamplerCompareFunc::Always => 7,
        }
    }
}

/// The border color of a constant sampler.
#[derive(Debug, Clone, Copy, Hash, Eq, PartialEq, Structural)]
pub enum SamplerBorderColor {
    TransparentBlack,
    OpaqueBlack,
    OpaqueWhite,
}

/// The code of `SamplerBorderColor` in the native compiler's sampler description.
pub open spec fn sampler_border_color_code(v: SamplerBorderColor) -> u32 {
    match v {
        SamplerBorderColor::TransparentBlack => 0,
        SamplerBorderColor::OpaqueBlack => 1,
        SamplerBorderColor::OpaqueWhite => 2,
    }
}

impl SamplerBorderColor {
    /// The native compiler's code for the value.
    pub fn as_raw(self) -> (r: u32)
        ensures
            r == sampler_border_color_code(self),
    {
        match self {
            SamplerBorderColor::TransparentBlack => 0,
            SamplerBorderColor::OpaqueBlack => 1,
            SamplerBorderColor::OpaqueWhite => 2,
        }
    }
}

/// MSL format resolution.
#[derive(Debug, Clone, Copy, Hash, Eq, PartialEq, Structural)]
pub enum FormatResolution {
    _444,
    _422,
    _420,
}

/// The code of `FormatResolution` in the native compiler's sampler description.
pub open spec fn format_resolution_code(v: FormatResolution) -> u32 {
    match v {
        FormatResolution::_444 => 0,
        FormatResolution::_422 => 1,
        FormatResolution::_420 => 2,
    }
}

impl FormatResolution {
    /// The native compiler's code for the value.
    pub fn as_raw(self) -> (r: u32)
        ensures
            r == format_resolution_code(self),
    {
        match self {
            FormatResolution::_444 => 0,
            FormatResolution::_422 => 1,
            FormatResolution::_420 => 2,
        }
    }
}

/// MSL chroma location.
#[derive(Debug, Clone, Copy, Hash, Eq, PartialEq, Structural)]
pub enum ChromaLocation {
    CositedEven,
    LocationMidpoint,
}

/// The code of `ChromaLocation` in the native compiler's sampler description.
pub open spec fn chroma_location_code(v: ChromaLocation) -> u32 {
    match v {
        ChromaLocation::CositedEven => 0,
        ChromaLocation::LocationMidpoint => 1,
    }
}

impl ChromaLocation {
    /// The native compiler's code for the value.
    pub fn as_raw(self) -> (r: u32)
        ensures
            r == chroma_location_code(self),
    {
        match self {
            ChromaLocation::CositedEven => 0,
            ChromaLocation::LocationMidpoint => 1,
        }
    }
}

/// MSL component swizzle.
#[derive(Debug, Clone, Copy, Hash, Eq, PartialEq, Structural)]
pub enum ComponentSwizzle {
    Identity,
    Zero,
    One,
    R,
    G,
    B,
    A,
}

/// The code of `ComponentSwizzle` in the native compiler's sampler description.
pub open spec fn component_swizzle_code(v: ComponentSwizzle) -> u32 {
    match v {
        ComponentSwizzle::Identity => 0,
        ComponentSwizzle::Zero => 1,
        ComponentSwizzle::One => 2,
        ComponentSwizzle::R => 3,
        ComponentSwizzle::G => 4,
        ComponentSwizzle::B => 5,
        ComponentSwizzle::A => 6,
    }
}

impl ComponentSwizzle {
    /// The native compiler's code for the value.
    pub fn as_raw(self) -> (r: u32)
        ensures
            r == component_swizzle_code(self),
    {
        match self {
            ComponentSwizzle::Identity => 0,
            ComponentSwizzle::Zero => 1,
            ComponentSwizzle::One => 2,
            ComponentSwizzle::R => 3,
            ComponentSwizzle::G => 4,
            ComponentSwizzle::B => 5,
            ComponentSwizzle::A => 6,
        }
    }
}

/// A MSL sampler YCbCr model conversion.
#[derive(Debug, Clone, Copy, Hash, Eq, PartialEq, Structural)]
pub enum SamplerYCbCrModelConversion {
    RgbIdentity,
    YCbCrIdentity,
    YCbCrBt709,
    YCbCrBt601,
    YCbCrBt2020,
}

/// The code of `SamplerYCbCrModelConversion` in the native compiler's sampler description.
pub open spec fn sampler_ycbcr_model_conversion_code(v: SamplerYCbCrModelConversion) -> u32 {
    match v {
        SamplerYCbCrModelConversion::RgbIdentity => 0,
        SamplerYCbCrModelConversion::YCbCrIdentity => 1,
        SamplerYCbCrModelConversion::YCbCrBt709 => 2,
        SamplerYCbCrModelConversion::YCbCrBt601 => 3,
        SamplerYCbCrModelConversion::YCbCrBt2020 => 4,
    }
}

impl SamplerYCbCrModelConversion {
    /// The native compiler's code for the value.
    pub fn as_raw(self) -> (r: u32)
        ensures
            r == sampler_ycbcr_model_conversion_code(self),
    {
        match self {
            SamplerYCbCrModelConversion::RgbIdentity => 0,
            SamplerYCbCrModelConversion::YCbCrIdentity => 1,
            SamplerYCbCrModelConversion::YCbCrBt709 => 2,
            SamplerYCbCrModelConversion::YCbCrBt601 => 3,
            SamplerYCbCrModelConversion::YCbCrBt2020 => 4,
        }
    }
}

/// A MSL sampler YCbCr range.
#[derive(Debug, Clone, Copy, Hash, Eq, PartialEq, Structural)]
pub enum SamplerYCbCrRange {
    ItuFull,
    ItuNarrow,
}

/// The code of `SamplerYCbCrRange` in the native compiler's sampler description.
pub open spec fn sampler_ycbcr_range_code(v: SamplerYCbCrRange) -> u32 {
    match v {
        SamplerYCbCrRange::ItuFull => 0,
        SamplerYCbCrRange::ItuNarrow => 1,
    }
}

impl SamplerYCbCrRange {
    /// The native compiler's code for the value.
    pub fn as_raw(self) -> (r: u32)
        ensures
            r == sampler_ycbcr_range_code(self),
    {
        match self {
            SamplerYCbCrRange::ItuFull => 0,
            SamplerYCbCrRange::ItuNarrow => 1,
        }
    }
}

/// A level of detail in sixteenths, from 0 to 255 (that is, 0.0 to 15.9375).
#[derive(Debug, Clone, Copy, Hash, Eq, PartialEq, Structural)]
pub struct LodBase16(u8);

impl LodBase16 {
    /// The level of detail 0.
    pub fn zero() -> (r: Self)
        ensures
            r.steps_spec() == 0,
    {
        LodBase16(0)
    }

    /// The greatest level of detail, 255 sixteenths.
    pub fn max_value() -> (r: Self)
        ensures
            r.steps_spec() == 255,
    {
        LodBase16(255)
    }

    /// The level of detail that is `steps` sixteenths.
    pub fn from_steps(steps: u8) -> (r: Self)
        ensures
            r.steps_spec() == steps,
    {
        LodBase16(steps)
    }

    /// The level of detail in sixteenths.
    pub fn steps(self) -> (r: u8)
        ensures
            r == self.steps_spec(),
    {
        self.0
    }

    /// The level of detail in sixteenths.
    pub closed spec fn steps_spec(self) -> u8 {
        self.0
    }
}

/// Data fully defining a constant sampler.
#[derive(Debug, Clone, Hash, Eq, PartialEq)]
pub struct SamplerData {
    pub coord: SamplerCoord,
    pub min_filter: SamplerFilter,
    pub mag_filter: SamplerFilter,
    pub mip_filter: SamplerMipFilter,
    pub s_address: SamplerAddress,
    pub t_address: SamplerAddress,
    pub r_address: SamplerAddress,
    pub compare_func: SamplerCompareFunc,
    pub border_color: SamplerBorderColor,
    pub lod_clamp_min: LodBase16,
    pub lod_clamp_max: LodBase16,
    pub max_anisotropy: i32,
    // Sampler YCbCr conversion parameters
    pub planes: u32,
    pub resolution: FormatResolution,
    pub chroma_filter: SamplerFilter,
    pub x_chroma_offset: ChromaLocation,
    pub y_chroma_offset: ChromaLocation,
    pub swizzle: [ComponentSwizzle; 4],
    pub ycbcr_conversion_enable: bool,
    pub ycbcr_model: SamplerYCbCrModelConversion,
    pub ycbcr_range: SamplerYCbCrRange,
    pub bpc: u32,
}

/// A MSL shader platform.
#[allow(non_camel_case_types)]
#[derive(Copy, Clone, Debug, Hash, Eq, PartialEq, Structural)]
pub enum Platform {
    iOS,
    macOS,
}

/// The native compiler's code for a platform: `iOS` is 0 and `macOS` 1.
pub open spec fn platform_code(p: Platform) -> u8 {
    match p {
        Platform::iOS => 0,
        Platform::macOS => 1,
    }
}

impl Platform {
    /// The native compiler's code for the platform.
    pub fn as_raw(self) -> (r: u8)
        ensures
            r == platform_code(self),
    {
        match self {
            Platform::iOS => 0,
            Platform::macOS => 1,
        }
    }
}

/// A MSL shader model version.
#[derive(Copy, Clone, Debug, Hash, Eq, PartialEq, Structural)]
#[non_exhaustive]
pub enum Version {
    V1_0,
    V1_1,
    V1_2,
    V2_0,
    V2_1,
    V2_2,
    V2_3,
}

/// The native compiler's number for a version: major * 10000 + minor * 100.
pub open spec fn version_code(v: Version) -> u32 {
    match v {
        Version::V1_0 => 10000,
        Version::V1_1 => 10100,
        Version::V1_2 => 10200,
        Version::V2_0 => 20000,
        Version::V2_1 => 20100,
        Version::V2_2 => 20200,
        Version::V2_3 => 20300,
    }
}

impl Version {
    /// The native compiler's number for the version.
    pub fn as_raw(self) -> (r: u32)
        ensures
            r == version_code(self),
    {
        match self {
            Version::V1_0 => 10000,
            Version::V1_1 => 10100,
            Version::V1_2 => 10200,
            Version::V2_0 => 20000,
            Version::V2_1 => 20100,
            Version::V2_2 => 20200,
            Version::V2_3 => 20300,
        }
    }
}

/// Vertex compiler options.
#[derive(Debug, Clone, Hash, Eq, PartialEq, Structural)]
pub struct CompilerVertexOptions {
    pub invert_y: bool,
    pub transform_clip_space: bool,
}

impl Default for CompilerVertexOptions {
    /// Neither inverts y nor transforms the clip space.
    fn default() -> (r: Self)
        ensures
            !r.invert_y,
            !r.transform_clip_space,
    {
        CompilerVertexOptions { invert_y: false, transform_clip_space: false }
    }
}

/// MSL compiler options.
#[non_exhaustive]
#[derive(Debug, Clone, Hash, Eq, PartialEq)]
pub struct CompilerOptions {
    /// The target platform.
    pub platform: Platform,
    /// The target MSL version.
    pub version: Version,
    /// Vertex compiler options.
    pub vertex: CompilerVertexOptions,
    /// The buffer index to use for swizzle.
    pub swizzle_buffer_index: u32,
    /// The buffer index to use for indirect params.
    pub indirect_params_buffer_index: u32,
    /// The buffer index to use for output.
    pub output_buffer_index: u32,
    /// The buffer index to use for patch output.
    pub patch_output_buffer_index: u32,
    /// The buffer index to use for tessellation factor.
    pub tessellation_factor_buffer_index: u32,
    /// The buffer index to use for buffer size.
    pub buffer_size_buffer_index: u32,
    /// Whether the built-in point size should be enabled.
    pub enable_point_size_builtin: bool,
    /// Whether rasterization should be enabled.
    pub enable_rasterization: bool,
    /// Whether to capture output to buffer.
    pub capture_output_to_buffer: bool,
    /// Whether to swizzle texture samples.
    pub swizzle_texture_samples: bool,
    /// Whether to place the origin of tessellation domain shaders in the lower left.
    pub tessellation_domain_origin_lower_left: bool,
    /// Whether to enable use of argument buffers (only compatible with MSL 2.0).
    pub enable_argument_buffers: bool,
    /// Whether to align each resource in an argument buffer to its assigned
    /// index, padding for the resources the shader does not define; every
    /// descriptor of such a set then needs a resource binding override with
    /// its base type and count.
    pub pad_argument_buffer_resources: bool,
    /// Whether to pad fragment output to have at least the number of components as the render pass.
    pub pad_fragment_output_components: bool,
    /// MSL resource bindings overrides.
    pub resource_binding_overrides: OrderedMap<ResourceBindingLocation, ResourceBinding>,
    /// MSL vertex attribute overrides.
    pub vertex_attribute_overrides: OrderedMap<VertexAttributeLocation, VertexAttribute>,
    /// MSL const sampler mappings.
    pub const_samplers: OrderedMap<SamplerLocation, SamplerData>,
    /// Whether to force native arrays (useful to workaround issues on some hardware).
    pub force_native_arrays: bool,
    /// Whether to force all uninitialized variables to be initialized to zero.
    pub force_zero_initialized_variables: bool,
    /// Whether to force always emit resources which are part of argument buffers
    pub force_active_argument_buffer_resources: bool,
    /// The name and execution model of the entry point to use. If no entry
    /// point is specified, then the first entry point found will be used.
    pub entry_point: Option<(String, ExecutionModel)>,
}

impl Default for CompilerOptions {
    /// macOS, MSL 1.2, buffer indices 30 down to 25, point size and
    /// rasterization enabled, every other switch off, no overrides and no
    /// entry point.
    fn default() -> (r: Self)
        ensures
            r.platform == Platform::macOS,
            r.version == Version::V1_2,
            !r.vertex.invert_y,
            !r.vertex.transform_clip_space,
            r.swizzle_buffer_index == 30,
            r.indirect_params_buffer_index == 29,
            r.output_buffer_index == 28,
            r.patch_output_buffer_index == 27,
            r.tessellation_factor_buffer_index == 26,
            r.buffer_size_buffer_index == 25,
            r.enable_point_size_builtin,
            r.enable_rasterization,
            !r.capture_output_to_buffer,
            !r.swizzle_texture_samples,
            !r.tessellation_domain_origin_lower_left,
            !r.enable_argument_buffers,
            !r.pad_argument_buffer_resources,
            !r.pad_fragment_output_components,
            r.resource_binding_overrides@ == Map::<ResourceBindingLocation, ResourceBinding>::empty(),
            r.vertex_attribute_overrides@ == Map::<VertexAttributeLocation, VertexAttribute>::empty(),
            r.const_samplers@ == Map::<SamplerLocation, SamplerData>::empty(),
            r.resource_binding_overrides.entry_seq().len() == 0,
            r.vertex_attribute_overrides.entry_seq().len() == 0,
            r.const_samplers.entry_seq().len() == 0,
            !r.force_native_arrays,
            !r.force_zero_initialized_variables,
            !r.force_active_argument_buffer_resources,
            r.entry_point is None,
    {
        CompilerOptions {
            platform: Platform::macOS,
            version: Version::V1_2,
            vertex: CompilerVertexOptions::default(),
            swizzle_buffer_index: 30,
            indirect_params_buffer_index: 29,
            output_buffer_index: 28,
            patch_output_buffer_index: 27,
            tessellation_factor_buffer_index: 26,
            buffer_size_buffer_index: 25,
            enable_point_size_builtin: true,
            enable_rasterization: true,
            capture_output_to_buffer: false,
            swizzle_texture_samples: false,
            tessellation_domain_origin_lower_left: false,
            enable_argument_buffers: false,
            pad_argument_buffer_resources: false,
            pad_fragment_output_components: false,
            resource_binding_overrides: OrderedMap::new(),
            vertex_attribute_overrides: OrderedMap::new(),
            const_samplers: OrderedMap::new(),
            force_native_arrays: false,
            force_zero_initialized_variables: false,
            force_active_argument_buffer_resources: false,
            entry_point: None,
        }
    }
}

/// A vertex attribute override as the native compiler takes it
/// (`MSLShaderInterfaceVariable`), with its enumerations as their codes.
#[derive(Debug, Clone, Copy, Hash, Eq, PartialEq, Structural)]
pub struct RawShaderInterfaceVariable {
    pub location: u32,
    pub component: u32,
    pub format: u32,
    pub builtin: u32,
    pub vecsize: u32,
    pub rate: u32,
}

/// A resource binding override as the native compiler takes it
/// (`MSLResourceBinding`).
#[derive(Debug, Clone, Copy, Hash, Eq, PartialEq, Structural)]
pub struct RawResourceBinding {
    pub stage: u32,
    pub basetype: SPIRType,
    pub desc_set: u32,
    pub binding: u32,
    pub msl_buffer: u32,
    pub msl_texture: u32,
    pub msl_sampler: u32,
    pub count: u32,
}

/// A constant sampler as the native compiler takes it (`MSLConstexprSampler`),
/// with its enumerations as their codes. The level-of-detail clamps stay in
/// sixteenths; the native compiler takes them as `steps / 16`.
#[derive(Debug, Clone, Copy, Hash, Eq, PartialEq)]
pub struct RawConstexprSampler {
    pub coord: u32,
    pub min_filter: u32,
    pub mag_filter: u32,
    pub mip_filter: u32,
    pub s_address: u32,
    pub t_address: u32,
    pub r_address: u32,
    pub compare_func: u32,
    pub border_color: u32,
    pub lod_clamp_min: LodBase16,
    pub lod_clamp_max: LodBase16,
    pub max_anisotropy: i32,
    pub compare_enable: bool,
    pub lod_clamp_enable: bool,
    pub anisotropy_enable: bool,
    pub bpc: u32,
    pub chroma_filter: u32,
    pub planes: u32,
    pub resolution: u32,
    pub swizzle: [u32; 4],
    pub x_chroma_offset: u32,
    pub y_chroma_offset: u32,
    pub ycbcr_conversion_enable: bool,
    pub ycbcr_model: u32,
    pub ycbcr_range: u32,
}

/// A constant sampler and the binding it is placed at
/// (`ScMslConstSamplerMapping`).
#[derive(Debug, Clone, Copy, Hash, Eq, PartialEq)]
pub struct RawConstSamplerMapping {
    pub desc_set: u32,
    pub binding: u32,
    pub sampler: RawConstexprSampler,
}

/// The MSL options as the native compiler takes them (`ScMslCompilerOptions`).
#[derive(Debug, Clone, Copy, Hash, Eq, PartialEq, Structural)]
pub struct RawMslOptions {
    pub vertex_invert_y: bool,
    pub vertex_transform_clip_space: bool,
    pub platform: u8,
    pub version: u32,
    pub enable_point_size_builtin: bool,
    pub disable_rasterization: bool,
    pub swizzle_buffer_index: u32,
    pub indirect_params_buffer_index: u32,
    pub shader_output_buffer_index: u32,
    pub shader_patch_output_buffer_index: u32,
    pub shader_tess_factor_buffer_index: u32,
    pub buffer_size_buffer_index: u32,
    pub capture_output_to_buffer: bool,
    pub swizzle_texture_samples: bool,
    pub tess_domain_origin_lower_left: bool,
    pub argument_buffers: bool,
    pub pad_fragment_output_components: bool,
    pub force_native_arrays: bool,
    pub force_zero_initialized_variables: bool,
    pub force_active_argument_buffer_resources: bool,
    pub pad_argument_buffer_resources: bool,
}

/// The override tables that a MSL compiler hands to the native compiler at
/// each compilation, in ascending key order.
#[derive(Debug, Clone)]
pub struct TargetData {
    pub vertex_attribute_overrides: Vec<RawShaderInterfaceVariable>,
    pub resource_binding_overrides: Vec<RawResourceBinding>,
    pub const_samplers: Vec<RawConstSamplerMapping>,
}

impl TargetData {
    /// Tables with no overrides, as a freshly parsed module has.
    pub fn new() -> (r: Self)
        ensures
            r.vertex_attribute_overrides@.len() == 0,
            r.resource_binding_overrides@.len() == 0,
            r.const_samplers@.len() == 0,
    {
        TargetData {
            vertex_attribute_overrides: Vec::new(),
            resource_binding_overrides: Vec::new(),
            const_samplers: Vec::new(),
        }
    }
}

/// Which entry point compilations use.
#[derive(Debug, Clone)]
pub enum EntryPointSelection {
    /// The entry point of this name and execution model code.
    Named { name: String, execution_model: u32 },
    /// The first entry point of the module.
    First,
}

/// The entry point that a selection picks among the module's entry points,
/// as the native compiler reports them: a named one as given, or the first
/// reported one; none when the first is asked for and the module has none.
pub open spec fn selected_entry_point(
    selection: EntryPointSelection,
    available: Seq<RawEntryPoint>,
) -> Option<(Seq<char>, u32)> {
    match selection {
        EntryPointSelection::Named { name, execution_model } => Some((name@, execution_model)),
        EntryPointSelection::First => if available.len() == 0 {
            None
        } else {
            Some((available[0].name@, available[0].execution_model))
        },
    }
}

/// Picks the entry point that a selection stands for among the module's
/// entry points.
pub fn resolve_entry_point(
    selection: &EntryPointSelection,
    available: &Vec<RawEntryPoint>,
) -> (r: Option<(String, u32)>)
    ensures
        r is Some <==> selected_entry_point(*selection, available@) is Some,
        r matches Some(p) ==> selected_entry_point(*selection, available@) == Some(
            (p.0@, p.1),
        ),
        selection matches EntryPointSelection::Named { name, execution_model } ==> (r matches Some(
            p,
        ) && p.0@ == name@ && p.1 == execution_model),
        selection is First && available@.len() == 0 ==> r is None,
        selection is First && available@.len() > 0 ==> (r matches Some(p) && p.0@
            == available@[0].name@ && p.1 == available@[0].execution_model),
{
    match selection {
        EntryPointSelection::Named { name, execution_model } => Some(
            (name.clone(), *execution_model),
        ),
        EntryPointSelection::First => {
            if available.len() == 0 {
                None
            } else {
                Some((available[0].name.clone(), available[0].execution_model))
            }
        },
    }
}

/// What setting MSL compiler options hands to the native compiler: the
/// entry point to select, the options, and the override tables for later
/// compilations.
#[derive(Debug, Clone)]
pub struct MslConfiguration {
    pub entry_point: EntryPointSelection,
    pub options: RawMslOptions,
    pub target_data: TargetData,
}

/// The native form of a vertex attribute override: the key's location and
/// component, then the attribute's format, built-in, vector size and rate.
pub open spec fn raw_vertex_attribute(
    loc: VertexAttributeLocation,
    vat: VertexAttribute,
) -> RawShaderInterfaceVariable {
    RawShaderInterfaceVariable {
        location: loc.location,
        component: loc.component,
        format: format_code(vat.format),
        builtin: optional_built_in_code(vat.built_in),
        vecsize: vat.vecsize,
        rate: rate_code(vat.rate),
    }
}

/// The native form of a resource binding override; a binding without a base
/// type gets `Unknown`.
pub open spec fn raw_resource_binding(
    loc: ResourceBindingLocation,
    res: ResourceBinding,
) -> RawResourceBinding {
    RawResourceBinding {
        stage: execution_model_code(loc.stage),
        basetype: match res.base_type {
            Some(t) => t,
            None => SPIRType::Unknown,
        },
        desc_set: loc.desc_set,
        binding: loc.binding,
        msl_buffer: res.buffer_id,
        msl_texture: res.texture_id,
        msl_sampler: res.sampler_id,
        count: res.count,
    }
}

/// The native form of a constant sampler. Comparison is enabled unless the
/// function is `Always`; the level-of-detail clamp is enabled unless it is
/// the full range 0 to 255 sixteenths; anisotropy is enabled unless the
/// maximum anisotropy is 0.
pub open spec fn raw_const_sampler(loc: SamplerLocation, data: SamplerData) -> RawConstSamplerMapping {
    RawConstSamplerMapping {
        desc_set: loc.desc_set,
        binding: loc.binding,
        sampler: RawConstexprSampler {
            coord: sampler_coord_code(data.coord),
            min_filter: sampler_filter_code(data.min_filter),
            mag_filter: sampler_filter_code(data.mag_filter),
            mip_filter: sampler_mip_filter_code(data.mip_filter),
            s_address: sampler_address_code(data.s_address),
            t_address: sampler_address_code(data.t_address),
            r_address: sampler_address_code(data.r_address),
            compare_func: sampler_compare_func_code(data.compare_func),
            border_color: sampler_border_color_code(data.border_color),
            lod_clamp_min: data.lod_clamp_min,
            lod_clamp_max: data.lod_clamp_max,
            max_anisotropy: data.max_anisotropy,
            compare_enable: data.compare_func != SamplerCompareFunc::Always,
            lod_clamp_enable: data.lod_clamp_min.steps_spec() != 0
                || data.lod_clamp_max.steps_spec() != 255,
            anisotropy_enable: data.max_anisotropy != 0,
            bpc: data.bpc,
            chroma_filter: sampler_filter_code(data.chroma_filter),
            planes: data.planes,
            resolution: format_resolution_code(data.resolution),
            swizzle: [
                component_swizzle_code(data.swizzle[0]),
                component_swizzle_code(data.swizzle[1]),
                component_swizzle_code(data.swizzle[2]),
                component_swizzle_code(data.swizzle[3]),
            ],
            x_chroma_offset: chroma_location_code(data.x_chroma_offset),
            y_chroma_offset: chroma_location_code(data.y_chroma_offset),
            ycbcr_conversion_enable: data.ycbcr_conversion_enable,
            ycbcr_model: sampler_ycbcr_model_conversion_code(data.ycbcr_model),
            ycbcr_range: sampler_ycbcr_range_code(data.ycbcr_range),
        },
    }
}

/// The native form of the options: each option carried over, with the
/// platform and version as their codes and rasterization turned into its
/// negation, "disable rasterization".
pub open spec fn raw_options(o: CompilerOptions) -> RawMslOptions {
    RawMslOptions {
        vertex_invert_y: o.vertex.invert_y,
        vertex_transform_clip_space: o.vertex.transform_clip_space,
        platform: platform_code(o.platform),
        version: version_code(o.version),
        enable_point_size_builtin: o.enable_point_size_builtin,
        disable_rasterization: !o.enable_rasterization,
        swizzle_buffer_index: o.swizzle_buffer_index,
        indirect_params_buffer_index: o.indirect_params_buffer_index,
        shader_output_buffer_index: o.output_buffer_index,
        shader_patch_output_buffer_index: o.patch_output_buffer_index,
        shader_tess_factor_buffer_index: o.tessellation_factor_buffer_index,
        buffer_size_buffer_index: o.buffer_size_buffer_index,
        capture_output_to_buffer: o.capture_output_to_buffer,
        swizzle_texture_samples: o.swizzle_texture_samples,
        tess_domain_origin_lower_left: o.tessellation_domain_origin_lower_left,
        argument_buffers: o.enable_argument_buffers,
        pad_fragment_output_components: o.pad_fragment_output_components,
        force_native_arrays: o.force_native_arrays,
        force_zero_initialized_variables: o.force_zero_initialized_variables,
        force_active_argument_buffer_resources: o.force_active_argument_buffer_resources,
        pad_argument_buffer_resources: o.pad_argument_buffer_resources,
    }
}

/// Converts a vertex attribute override to its native form.
pub fn vertex_attribute_to_raw(
    loc: &VertexAttributeLocation,
    vat: &VertexAttribute,
) -> (r: RawShaderInterfaceVariable)
    ensures
        r == raw_vertex_attribute(*loc, *vat),
{
    RawShaderInterfaceVariable {
        location: loc.location,
        component: loc.component,
        format: vat.format.as_raw(),
        builtin: built_in_as_raw(vat.built_in),
        vecsize: vat.vecsize,
        rate: vat.rate.as_raw(),
    }
}

/// Converts a resource binding override to its native form.
pub fn resource_binding_to_raw(
    loc: &ResourceBindingLocation,
    res: &ResourceBinding,
) -> (r: RawResourceBinding)
    ensures
        r == raw_resource_binding(*loc, *res),
{
    RawResourceBinding {
        stage: loc.stage.as_raw(),
        basetype: match res.base_type {
            Some(t) => t,
            None => SPIRType::Unknown,
        },
        desc_set: loc.desc_set,
        binding: loc.binding,
        msl_buffer: res.buffer_id,
        msl_texture: res.texture_id,
        msl_sampler: res.sampler_id,
        count: res.count,
    }
}

/// Converts a constant sampler to its native form.
pub fn const_sampler_to_raw(loc: &SamplerLocation, data: &SamplerData) -> (r: RawConstSamplerMapping)
    ensures
        r == raw_const_sampler(*loc, *data),
{
    let compare_enable = match data.compare_func {
        SamplerCompareFunc::Always => false,
        _ => true,
    };
    let lod_clamp_enable = data.lod_clamp_min.steps() != 0 || data.lod_clamp_max.steps() != 255;
    RawConstSamplerMapping {
        desc_set: loc.desc_set,
        binding: loc.binding,
        sampler: RawConstexprSampler {
            coord: data.coord.as_raw(),
            min_filter: data.min_filter.as_raw(),
            mag_filter: data.mag_filter.as_raw(),
            mip_filter: data.mip_filter.as_raw(),
            s_address: data.s_address.as_raw(),
            t_address: data.t_address.as_raw(),
            r_address: data.r_address.as_raw(),
            compare_func: data.compare_func.as_raw(),
            border_color: data.border_color.as_raw(),
            lod_clamp_min: data.lod_clamp_min,
            lod_clamp_max: data.lod_clamp_max,
            max_anisotropy: data.max_anisotropy,
            compare_enable,
            lod_clamp_enable,
            anisotropy_enable: data.max_anisotropy != 0,
            bpc: data.bpc,
            chroma_filter: data.chroma_filter.as_raw(),
            planes: data.planes,
            resolution: data.resolution.as_raw(),
            swizzle: [
                data.swizzle[0].as_raw(),
                data.swizzle[1].as_raw(),
                data.swizzle[2].as_raw(),
                data.swizzle[3].as_raw(),
            ],
            x_chroma_offset: data.x_chroma_offset.as_raw(),
            y_chroma_offset: data.y_chroma_offset.as_raw(),
            ycbcr_conversion_enable: data.ycbcr_conversion_enable,
            ycbcr_model: data.ycbcr_model.as_raw(),
            ycbcr_range: data.ycbcr_range.as_raw(),
        },
    }
}

/// Converts the options to their native form.
pub fn options_to_raw(o: &CompilerOptions) -> (r: RawMslOptions)
    ensures
        r == raw_options(*o),
{
    RawMslOptions {
        vertex_invert_y: o.vertex.invert_y,
        vertex_transform_clip_space: o.vertex.transform_clip_space,
        platform: o.platform.as_raw(),
        version: o.version.as_raw(),
        enable_point_size_builtin: o.enable_point_size_builtin,
        disable_rasterization: !o.enable_rasterization,
        swizzle_buffer_index: o.swizzle_buffer_index,
        indirect_params_buffer_index: o.indirect_params_buffer_index,
        shader_output_buffer_index: o.output_buffer_index,
        shader_patch_output_buffer_index: o.patch_output_buffer_index,
        shader_tess_factor_buffer_index: o.tessellation_factor_buffer_index,
        buffer_size_buffer_index: o.buffer_size_buffer_index,
        capture_output_to_buffer: o.capture_output_to_buffer,
        swizzle_texture_samples: o.swizzle_texture_samples,
        tess_domain_origin_lower_left: o.tessellation_domain_origin_lower_left,
        argument_buffers: o.enable_argument_buffers,
        pad_fragment_output_components: o.pad_fragment_output_components,
        force_native_arrays: o.force_native_arrays,
        force_zero_initialized_variables: o.force_zero_initialized_variables,
        force_active_argument_buffer_resources: o.force_active_argument_buffer_resources,
        pad_argument_buffer_resources: o.pad_argument_buffer_resources,
    }
}

/// The position of a native vertex attribute override in the order of its
/// key (location, then component).
pub open spec fn raw_vertex_attribute_rank(v: RawShaderInterfaceVariable) -> int {
    v.location * 0x1_0000_0000 + v.component
}

/// The position of a native resource binding in the order of its key
/// (stage, then descriptor set, then binding).
pub open spec fn raw_resource_binding_rank(b: RawResourceBinding) -> int {
    b.stage * 0x1_0000_0000_0000_0000 + b.desc_set * 0x1_0000_0000 + b.binding
}

/// The position of a native constant sampler in the order of its key
/// (descriptor set, then binding).
pub open spec fn raw_const_sampler_rank(m: RawConstSamplerMapping) -> int {
    m.desc_set * 0x1_0000_0000 + m.binding
}

/// The native vertex attribute table: one entry per override, in ascending
/// key order.
pub open spec fn raw_vertex_attribute_table(
    entries: Seq<(VertexAttributeLocation, VertexAttribute)>,
) -> Seq<RawShaderInterfaceVariable> {
    entries.map_values(
        |e: (VertexAttributeLocation, VertexAttribute)| raw_vertex_attribute(e.0, e.1),
    )
}

/// The native resource binding table: one entry per override, in ascending
/// key order.
pub open spec fn raw_resource_binding_table(
    entries: Seq<(ResourceBindingLocation, ResourceBinding)>,
) -> Seq<RawResourceBinding> {
    entries.map_values(
        |e: (ResourceBindingLocation, ResourceBinding)| raw_resource_binding(e.0, e.1),
    )
}

/// The native constant sampler table: one entry per sampler, in ascending
/// key order.
pub open spec fn raw_const_sampler_table(
    entries: Seq<(SamplerLocation, SamplerData)>,
) -> Seq<RawConstSamplerMapping> {
    entries.map_values(|e: (SamplerLocation, SamplerData)| raw_const_sampler(e.0, e.1))
}

/// Builds the native vertex attribute table.
pub fn vertex_attribute_table(
    overrides: &OrderedMap<VertexAttributeLocation, VertexAttribute>,
) -> (r: Vec<RawShaderInterfaceVariable>)
    ensures
        r@ == raw_vertex_attribute_table(overrides.entry_seq()),
        forall|i: int, j: int|
            0 <= i < j < r@.len() ==> raw_vertex_attribute_rank(#[trigger] r@[i])
                < raw_vertex_attribute_rank(#[trigger] r@[j]),
{
    let entries = overrides.entries();
    let mut table: Vec<RawShaderInterfaceVariable> = Vec::new();
    let n = entries.len();
    let mut i: usize = 0;
    while i < n
        invariant
            n == entries@.len(),
            entries@ == overrides.entry_seq(),
            i <= n,
            table@ == raw_vertex_attribute_table(entries@.take(i as int)),
        decreases n - i,
    {
        let entry = &entries[i];
        table.push(vertex_attribute_to_raw(&entry.0, &entry.1));
        assert(entries@.take(i + 1) == entries@.take(i as int).push(entries@[i as int]));
        i += 1;
    }
    assert(entries@.take(n as int) == entries@);
    assert forall|a: int, b: int| 0 <= a < b < table@.len() implies raw_vertex_attribute_rank(#[trigger] table@[a])
        < raw_vertex_attribute_rank(#[trigger] table@[b]) by {
        assert(entries@[a].0.rank() < entries@[b].0.rank());
    }
    table
}

/// Builds the native resource binding table.
pub fn resource_binding_table(
    overrides: &OrderedMap<ResourceBindingLocation, ResourceBinding>,
) -> (r: Vec<RawResourceBinding>)
    ensures
        r@ == raw_resource_binding_table(overrides.entry_seq()),
        forall|i: int, j: int|
            0 <= i < j < r@.len() ==> raw_resource_binding_rank(#[trigger] r@[i])
                < raw_resource_binding_rank(#[trigger] r@[j]),
{
    let entries = overrides.entries();
    let mut table: Vec<RawResourceBinding> = Vec::new();
    let n = entries.len();
    let mut i: usize = 0;
    while i < n
        invariant
            n == entries@.len(),
            entries@ == overrides.entry_seq(),
            i <= n,
            table@ == raw_resource_binding_table(entries@.take(i as int)),
        decreases n - i,
    {
        let entry = &entries[i];
        table.push(resource_binding_to_raw(&entry.0, &entry.1));
        assert(entries@.take(i + 1) == entries@.take(i as int).push(entries@[i as int]));
        i += 1;
    }
    assert(entries@.take(n as int) == entries@);
    assert forall|a: int, b: int| 0 <= a < b < table@.len() implies raw_resource_binding_rank(#[trigger] table@[a])
        < raw_resource_binding_rank(#[trigger] table@[b]) by {
        assert(entries@[a].0.rank() < entries@[b].0.rank());
    }
    table
}

/// Builds the native constant sampler table.
pub fn const_sampler_table(
    samplers: &OrderedMap<SamplerLocation, SamplerData>,
) -> (r: Vec<RawConstSamplerMapping>)
    ensures
        r@ == raw_const_sampler_table(samplers.entry_seq()),
        forall|i: int, j: int|
            0 <= i < j < r@.len() ==> raw_const_sampler_rank(#[trigger] r@[i])
                < raw_const_sampler_rank(#[trigger] r@[j]),
{
    let entries = samplers.entries();
    let mut table: Vec<RawConstSamplerMapping> = Vec::new();
    let n = entries.len();
    let mut i: usize = 0;
    while i < n
        invariant
            n == entries@.len(),
            entries@ == samplers.entry_seq(),
            i <= n,
            table@ == raw_const_sampler_table(entries@.take(i as int)),
        decreases n - i,
    {
        let entry = &entries[i];
        table.push(const_sampler_to_raw(&entry.0, &entry.1));
        assert(entries@.take(i + 1) == entries@.take(i as int).push(entries@[i as int]));
        i += 1;
    }
    assert(entries@.take(n as int) == entries@);
    assert forall|a: int, b: int| 0 <= a < b < table@.len() implies raw_const_sampler_rank(#[trigger] table@[a])
        < raw_const_sampler_rank(#[trigger] table@[b]) by {
        assert(entries@[a].0.rank() < entries@[b].0.rank());
    }
    table
}

/// Converts MSL compiler options into what the native compiler takes.
/// Fails with `Unhandled` exactly when the entry point's name has a NUL
/// byte; otherwise gives the entry point (name and execution model code, or
/// the module's first entry point where none is named),
/// the native options, and the three override tables in ascending key order.
pub fn prepare_compiler_options(options: &CompilerOptions) -> (r: Result<MslConfiguration, ErrorCode>)
    ensures
        r is Err <==> (options.entry_point matches Some(ep) && !is_c_compatible(ep.0@)),
        r matches Err(e) ==> e is Unhandled,
        r matches Ok(c) ==> {
            &&& c.options == raw_options(*options)
            &&& match options.entry_point {
                None => c.entry_point is First,
                Some(ep) => c.entry_point matches EntryPointSelection::Named {
                    name,
                    execution_model,
                } && name@ == ep.0@ && execution_model == execution_model_code(ep.1),
            }
            &&& c.target_data.vertex_attribute_overrides@ == raw_vertex_attribute_table(
                options.vertex_attribute_overrides.entry_seq(),
            )
            &&& c.target_data.resource_binding_overrides@ == raw_resource_binding_table(
                options.resource_binding_overrides.entry_seq(),
            )
            &&& c.target_data.const_samplers@ == raw_const_sampler_table(
                options.const_samplers.entry_seq(),
            )
            &&& forall|i: int, j: int|
                0 <= i < j < c.target_data.vertex_attribute_overrides@.len()
                    ==> raw_vertex_attribute_rank(#[trigger] c.target_data.vertex_attribute_overrides@[i])
                    < raw_vertex_attribute_rank(#[trigger] c.target_data.vertex_attribute_overrides@[j])
            &&& forall|i: int, j: int|
                0 <= i < j < c.target_data.resource_binding_overrides@.len()
                    ==> raw_resource_binding_rank(#[trigger] c.target_data.resource_binding_overrides@[i])
                    < raw_resource_binding_rank(#[trigger] c.target_data.resource_binding_overrides@[j])
            &&& forall|i: int, j: int|
                0 <= i < j < c.target_data.const_samplers@.len()
                    ==> raw_const_sampler_rank(#[trigger] c.target_data.const_samplers@[i])
                    < raw_const_sampler_rank(#[trigger] c.target_data.const_samplers@[j])
        },
{
    let entry_point = match &options.entry_point {
        Some(ep) => {
            if !c_compatible(ep.0.as_str()) {
                return Err(ErrorCode::Unhandled);
            }
            EntryPointSelection::Named { name: ep.0.clone(), execution_model: ep.1.as_raw() }
        },
        None => EntryPointSelection::First,
    };
    let raw = options_to_raw(options);
    let target_data = TargetData {
        resource_binding_overrides: resource_binding_table(&options.resource_binding_overrides),
        vertex_attribute_overrides: vertex_attribute_table(&options.vertex_attribute_overrides),
        const_samplers: const_sampler_table(&options.const_samplers),
    };
    Ok(MslConfiguration { entry_point, options: raw, target_data })
}

/// The native code of each `Format`, value by value.
pub proof fn lemma_format_code_table()
    ensures
        format_code(Format::Other) == 0,
        format_code(Format::Uint8) == 1,
        format_code(Format::Uint16) == 2,
{
}

/// The native code of each `Rate`, value by value.
pub proof fn lemma_rate_code_table()
    ensures
        rate_code(Rate::PerVertex) == 0,
        rate_code(Rate::PerPrimitive) == 1,
        rate_code(Rate::PerPatch) == 2,
{
}

/// The native code of each `SamplerCoord`, value by value.
pub proof fn lemma_sampler_coord_code_table()
    ensures
        sampler_coord_code(SamplerCoord::Normalized) == 0,
        sampler_coord_code(SamplerCoord::Pixel) == 1,
{
}

/// The native code of each `SamplerFilter`, value by value.
pub proof fn lemma_sampler_filter_code_table()
    ensures
        sampler_filter_code(SamplerFilter::Nearest) == 0,
        sampler_filter_code(SamplerFilter::Linear) == 1,
{
}

/// The native code of each `SamplerMipFilter`, value by value.
pub proof fn lemma_sampler_mip_filter_code_table()
    ensures
        sampler_mip_filter_code(SamplerMipFilter::Disabled) == 0,
        sampler_mip_filter_code(SamplerMipFilter::Nearest) == 1,
        sampler_mip_filter_code(SamplerMipFilter::Linear) == 2,
{
}

/// The native code of each `SamplerAddress`, value by value.
pub proof fn lemma_sampler_address_code_table()
    ensures
        sampler_address_code(SamplerAddress::ClampToZero) == 0,
        sampler_address_code(SamplerAddress::ClampToEdge) == 1,
        sampler_address_code(SamplerAddress::ClampToBorder) == 2,
        sampler_address_code(SamplerAddress::Repeat) == 3,
        sampler_address_code(SamplerAddress::MirroredRepeat) == 4,
{
}

/// The native code of each `SamplerCompareFunc`, value by value.
pub proof fn lemma_sampler_compare_func_code_table()
    ensures
        sampler_compare_func_code(SamplerCompareFunc::Never) == 0,
        sampler_compare_func_code(SamplerCompareFunc::Less) == 1,
        sampler_compare_func_code(SamplerCompareFunc::LessEqual) == 2,
        sampler_compare_func_code(SamplerCompareFunc::Greater) == 3,
        sampler_compare_func_code(SamplerCompareFunc::GreaterEqual) == 4,
        sampler_compare_func_code(SamplerCompareFunc::Equal) == 5,
        sampler_compare_func_code(SamplerCompareFunc::NotEqual) == 6,
        sampler_compare_func_code(SamplerCompareFunc::Always) == 7,
{
}

/// The native code of each `SamplerBorderColor`, value by value.
pub proof fn lemma_sampler_border_color_code_table()
    ensures
        sampler_border_color_code(SamplerBorderColor::TransparentBlack) == 0,
        sampler_border_color_code(SamplerBorderColor::OpaqueBlack) == 1,
        sampler_border_color_code(SamplerBorderColor::OpaqueWhite) == 2,
{
}

/// The native code of each `FormatResolution`, value by value.
pub proof fn lemma_format_resolution_code_table()
    ensures
        format_resolution_code(FormatResolution::_444) == 0,
        format_resolution_code(FormatResolution::_422) == 1,
        format_resolution_code(FormatResolution::_420) == 2,
{
}

/// The native code of each `ChromaLocation`, value by value.
pub proof fn lemma_chroma_location_code_table()
    ensures
        chroma_location_code(ChromaLocation::CositedEven) == 0,
        chroma_location_code(ChromaLocation::LocationMidpoint) == 1,
{
}

/// The native code of each `ComponentSwizzle`, value by value.
pub proof fn lemma_component_swizzle_code_table()
    ensures
        component_swizzle_code(ComponentSwizzle::Identity) == 0,
        component_swizzle_code(ComponentSwizzle::Zero) == 1,
        component_swizzle_code(ComponentSwizzle::One) == 2,
        component_swizzle_code(ComponentSwizzle::R) == 3,
        component_swizzle_code(ComponentSwizzle::G) == 4,
        component_swizzle_code(ComponentSwizzle::B) == 5,
        component_swizzle_code(ComponentSwizzle::A) == 6,
{
}

/// The native code of each `SamplerYCbCrModelConversion`, value by value.
pub proof fn lemma_sampler_ycbcr_model_conversion_code_table()
    ensures
        sampler_ycbcr_model_conversion_code(SamplerYCbCrModelConversion::RgbIdentity) == 0,
        sampler_ycbcr_model_conversion_code(SamplerYCbCrModelConversion::YCbCrIdentity) == 1,
        sampler_ycbcr_model_conversion_code(SamplerYCbCrModelConversion::YCbCrBt709) == 2,
        sampler_ycbcr_model_conversion_code(SamplerYCbCrModelConversion::YCbCrBt601) == 3,
        sampler_ycbcr_model_conversion_code(SamplerYCbCrModelConversion::YCbCrBt2020) == 4,
{
}

/// The native code of each `SamplerYCbCrRange`, value by value.
pub proof fn lemma_sampler_ycbcr_range_code_table()
    ensures
        sampler_ycbcr_range_code(SamplerYCbCrRange::ItuFull) == 0,
        sampler_ycbcr_range_code(SamplerYCbCrRange::ItuNarrow) == 1,
{
}

/// The native code of each `Platform`, value by value.
pub proof fn lemma_platform_code_table()
    ensures
        platform_code(Platform::iOS) == 0,
        platform_code(Platform::macOS) == 1,
{
}

/// The native code of each `Version`, value by value.
pub proof fn lemma_version_code_table()
    ensures
        version_code(Version::V1_0) == 10000,
        version_code(Version::V1_1) == 10100,
        version_code(Version::V1_2) == 10200,
        version_code(Version::V2_0) == 20000,
        version_code(Version::V2_1) == 20100,
        version_code(Version::V2_2) == 20200,
        version_code(Version::V2_3) == 20300,
{
}

/// Each native option is the user option of the same meaning: the vertex
/// switches, point size, buffer indices and feature switches are carried
/// over as they are, rasterization is carried over negated, and the platform
/// and version become their codes.
pub proof fn lemma_raw_options_fields(o: CompilerOptions)
    ensures
        raw_options(o).vertex_invert_y == o.vertex.invert_y,
        raw_options(o).vertex_transform_clip_space == o.vertex.transform_clip_space,
        raw_options(o).platform == platform_code(o.platform),
        raw_options(o).version == version_code(o.version),
        raw_options(o).enable_point_size_builtin == o.enable_point_size_builtin,
        raw_options(o).disable_rasterization == !o.enable_rasterization,
        raw_options(o).swizzle_buffer_index == o.swizzle_buffer_index,
        raw_options(o).indirect_params_buffer_index == o.indirect_params_buffer_index,
        raw_options(o).shader_output_buffer_index == o.output_buffer_index,
        raw_options(o).shader_patch_output_buffer_index == o.patch_output_buffer_index,
        raw_options(o).shader_tess_factor_buffer_index == o.tessellation_factor_buffer_index,
        raw_options(o).buffer_size_buffer_index == o.buffer_size_buffer_index,
        raw_options(o).capture_output_to_buffer == o.capture_output_to_buffer,
        raw_options(o).swizzle_texture_samples == o.swizzle_texture_samples,
        raw_options(o).tess_domain_origin_lower_left == o.tessellation_domain_origin_lower_left,
        raw_options(o).argument_buffers == o.enable_argument_buffers,
        raw_options(o).pad_fragment_output_components == o.pad_fragment_output_components,
        raw_options(o).force_native_arrays == o.force_native_arrays,
        raw_options(o).force_zero_initialized_variables == o.force_zero_initialized_variables,
        raw_options(o).force_active_argument_buffer_resources
            == o.force_active_argument_buffer_resources,
        raw_options(o).pad_argument_buffer_resources == o.pad_argument_buffer_resources,
{
}

/// Each entry of the native vertex attribute table carries the location and
/// component of its key, and the format, built-in, vector size and rate of
/// its attribute, one entry per override in key order.
pub proof fn lemma_vertex_attribute_table_fields(
    entries: Seq<(VertexAttributeLocation, VertexAttribute)>,
)
    ensures
        raw_vertex_attribute_table(entries).len() == entries.len(),
        forall|i: int|
            0 <= i < entries.len() ==> {
                let t = #[trigger] raw_vertex_attribute_table(entries)[i];
                let (loc, vat) = entries[i];
                &&& t.location == loc.location
                &&& t.component == loc.component
                &&& t.format == format_code(vat.format)
                &&& t.builtin == optional_built_in_code(vat.built_in)
                &&& t.vecsize == vat.vecsize
                &&& t.rate == rate_code(vat.rate)
            },
{
}

/// Each entry of the native resource binding table carries the stage code,
/// descriptor set and binding of its key, and the buffer, texture and
/// sampler indices, base type (`Unknown` where none is given) and count of
/// its binding, one entry per override in key order.
pub proof fn lemma_resource_binding_table_fields(
    entries: Seq<(ResourceBindingLocation, ResourceBinding)>,
)
    ensures
        raw_resource_binding_table(entries).len() == entries.len(),
        forall|i: int|
            0 <= i < entries.len() ==> {
                let t = #[trigger] raw_resource_binding_table(entries)[i];
                let (loc, res) = entries[i];
                &&& t.stage == execution_model_code(loc.stage)
                &&& t.desc_set == loc.desc_set
                &&& t.binding == loc.binding
                &&& t.msl_buffer == res.buffer_id
                &&& t.msl_texture == res.texture_id
                &&& t.msl_sampler == res.sampler_id
                &&& t.count == res.count
                &&& (res.base_type matches Some(b) ==> t.basetype == b)
                &&& (res.base_type is None ==> t.basetype == SPIRType::Unknown)
            },
{
}

/// Each entry of the native constant sampler table carries the descriptor
/// set and binding of its key and the sampler's settings as their codes;
/// comparison is enabled exactly when the function is not `Always`, the
/// level-of-detail clamp exactly when it is not the full range 0 to 255
/// sixteenths, and anisotropy exactly when the maximum is not 0.
pub proof fn lemma_const_sampler_table_fields(entries: Seq<(SamplerLocation, SamplerData)>)
    ensures
        raw_const_sampler_table(entries).len() == entries.len(),
        forall|i: int|
            0 <= i < entries.len() ==> {
                let t = #[trigger] raw_const_sampler_table(entries)[i];
                let (loc, d) = entries[i];
                let s = t.sampler;
                &&& t.desc_set == loc.desc_set
                &&& t.binding == loc.binding
                &&& s.coord == sampler_coord_code(d.coord)
                &&& s.min_filter == sampler_filter_code(d.min_filter)
                &&& s.mag_filter == sampler_filter_code(d.mag_filter)
                &&& s.mip_filter == sampler_mip_filter_code(d.mip_filter)
                &&& s.s_address == sampler_address_code(d.s_address)
                &&& s.t_address == sampler_address_code(d.t_address)
                &&& s.r_address == sampler_address_code(d.r_address)
                &&& s.compare_func == sampler_compare_func_code(d.compare_func)
                &&& s.border_color == sampler_border_color_code(d.border_color)
                &&& s.lod_clamp_min == d.lod_clamp_min
                &&& s.lod_clamp_max == d.lod_clamp_max
                &&& s.max_anisotropy == d.max_anisotropy
                &&& (s.compare_enable <==> d.compare_func != SamplerCompareFunc::Always)
                &&& (s.lod_clamp_enable <==> (d.lod_clamp_min.steps_spec() != 0
                    || d.lod_clamp_max.steps_spec() != 255))
                &&& (s.anisotropy_enable <==> d.max_anisotropy != 0)
                &&& s.bpc == d.bpc
                &&& s.chroma_filter == sampler_filter_code(d.chroma_filter)
                &&& s.planes == d.planes
                &&& s.resolution == format_resolution_code(d.resolution)
                &&& s.swizzle[0] == component_swizzle_code(d.swizzle[0])
                &&& s.swizzle[1] == component_swizzle_code(d.swizzle[1])
                &&& s.swizzle[2] == component_swizzle_code(d.swizzle[2])
                &&& s.swizzle[3] == component_swizzle_code(d.swizzle[3])
                &&& s.x_chroma_offset == chroma_location_code(d.x_chroma_offset)
                &&& s.y_chroma_offset == chroma_location_code(d.y_chroma_offset)
                &&& s.ycbcr_conversion_enable == d.ycbcr_conversion_enable
                &&& s.ycbcr_model == sampler_ycbcr_model_conversion_code(d.ycbcr_model)
                &&& s.ycbcr_range == sampler_ycbcr_range_code(d.ycbcr_range)
            },
{
}

/// Vertex attribute overrides are ordered by location, then by component.
pub proof fn lemma_vertex_attribute_location_order(a: VertexAttributeLocation, b: VertexAttributeLocation)
    ensures
        a.rank() < b.rank() <==> (a.location < b.location || (a.location == b.location
            && a.component < b.component)),
{
}

/// Resource binding overrides are ordered by stage (in the order of the
/// execution models' codes), then by descriptor set, then by binding.
pub proof fn lemma_resource_binding_location_order(a: ResourceBindingLocation, b: ResourceBindingLocation)
    ensures
        a.rank() < b.rank() <==> (execution_model_code(a.stage) < execution_model_code(b.stage)
            || (a.stage == b.stage && a.desc_set < b.desc_set) || (a.stage == b.stage
            && a.desc_set == b.desc_set && a.binding < b.binding)),
{
    crate::spirv::lemma_execution_model_round_trip(a.stage, execution_model_code(b.stage));
    crate::spirv::lemma_execution_model_round_trip(b.stage, execution_model_code(a.stage));
}

/// Constant samplers are ordered by descriptor set, then by binding.
pub proof fn lemma_sampler_location_order(a: SamplerLocation, b: SamplerLocation)
    ensures
        a.rank() < b.rank() <==> (a.desc_set < b.desc_set || (a.desc_set == b.desc_set
            && a.binding < b.binding)),
{
}

} // verus!
