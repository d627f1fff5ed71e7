//! SPIR-V enumerations and reflection types, and their conversions from and
//! to the numeric encodings that SPIR-V and SPIRV-Cross use.
use crate::error::ErrorCode;
use vstd::prelude::*;

verus! {

/// A SPIR-V execution model (the shader stage of an entry point).
#[derive(Debug, Clone, Copy, Hash, PartialEq, Eq, Structural, PartialOrd, Ord)]
pub enum ExecutionModel {
    Vertex,
    TessellationControl,
    TessellationEvaluation,
    Geometry,
    Fragment,
    GlCompute,
    Kernel,
}

/// The SPIR-V code of an execution model.
pub open spec fn execution_model_code(m: ExecutionModel) -> u32 {
    match m {
        ExecutionModel::Vertex => 0,
        ExecutionModel::TessellationControl => 1,
        ExecutionModel::TessellationEvaluation => 2,
        ExecutionModel::Geometry => 3,
        ExecutionModel::Fragment => 4,
        ExecutionModel::GlCompute => 5,
        ExecutionModel::Kernel => 6,
    }
}

/// The execution model that a SPIR-V code stands for, if the library handles it.
pub open spec fn execution_model_of_code(raw: u32) -> Option<ExecutionModel> {
    if raw == 0 {
        Some(ExecutionModel::Vertex)
    } else if raw == 1 {
        Some(ExecutionModel::TessellationControl)
    } else if raw == 2 {
        Some(ExecutionModel::TessellationEvaluation)
    } else if raw == 3 {
        Some(ExecutionModel::Geometry)
    } else if raw == 4 {
        Some(ExecutionModel::Fragment)
    } else if raw == 5 {
        Some(ExecutionModel::GlCompute)
    } else if raw == 6 {
        Some(ExecutionModel::Kernel)
    } else {
        None
    }
}

/// `Ok` of the decoded value, or `Unhandled` where the code is not handled.
pub open spec fn decoded<T>(v: Option<T>) -> Result<T, ErrorCode> {
    match v {
        Some(x) => Ok(x),
        None => Err(ErrorCode::Unhandled),
    }
}

impl ExecutionModel {
    /// Decodes a SPIR-V execution model code.
    pub fn from_raw(raw: u32) -> (r: Result<Self, ErrorCode>)
        ensures
            r == decoded(execution_model_of_code(raw)),
            r is Ok <==> raw <= 6,
    {
        match raw {
            0 => Ok(ExecutionModel::Vertex),
            1 => Ok(ExecutionModel::TessellationControl),
            2 => Ok(ExecutionModel::TessellationEvaluation),
            3 => Ok(ExecutionModel::Geometry),
            4 => Ok(ExecutionModel::Fragment),
            5 => Ok(ExecutionModel::GlCompute),
            6 => Ok(ExecutionModel::Kernel),
            _ => Err(ErrorCode::Unhandled),
        }
    }

    /// Encodes the execution model as its SPIR-V code.
    pub fn as_raw(self) -> (r: u32)
        ensures
            r == execution_model_code(self),
    {
        match self {
            ExecutionModel::Vertex => 0,
            ExecutionModel::TessellationControl => 1,
            ExecutionModel::TessellationEvaluation => 2,
            ExecutionModel::Geometry => 3,
            ExecutionModel::Fragment => 4,
            ExecutionModel::GlCompute => 5,
            ExecutionModel::Kernel => 6,
        }
    }
}

/// Decoding the code of an execution model gives that model back, and a code
/// that decodes to a model is that model's code.
pub proof fn lemma_execution_model_round_trip(m: ExecutionModel, raw: u32)
    ensures
        execution_model_of_code(execution_model_code(m)) == Some(m),
        execution_model_of_code(raw) == Some(m) ==> execution_model_code(m) == raw,
{
}

/// A SPIR-V decoration.
#[derive(Debug, Clone, Copy, Hash, PartialEq, Eq, Structural, PartialOrd, Ord)]
pub enum Decoration {
    RelaxedPrecision,
    SpecId,
    Block,
    BufferBlock,
    RowMajor,
    ColMajor,
    ArrayStride,
    MatrixStride,
    GlslShared,
    GlslPacked,
    CPacked,
    BuiltIn,
    NoPerspective,
    Flat,
    Patch,
    Centroid,
    Sample,
    Invariant,
    Restrict,
    Aliased,
    Volatile,
    Constant,
    Coherent,
    NonWritable,
    NonReadable,
    Uniform,
    SaturatedConversion,
    Stream,
    Location,
    Component,
    Index,
    Binding,
    DescriptorSet,
    Offset,
    XfbBuffer,
    XfbStride,
    FuncParamAttr,
    FpRoundingMode,
    FpFastMathMode,
    LinkageAttributes,
    NoContraction,
    InputAttachmentIndex,
    Alignment,
    OverrideCoverageNv,
    PassthroughNv,
    ViewportRelativeNv,
    SecondaryViewportRelativeNv,
}

/// The SPIR-V code of a decoration.
pub open spec fn decoration_code(v: Decoration) -> u32 {
    match v {
        Decoration::RelaxedPrecision => 0,
        Decoration::SpecId => 1,
        Decoration::Block => 2,
        Decoration::BufferBlock => 3,
        Decoration::RowMajor => 4,
        Decoration::ColMajor => 5,
        Decoration::ArrayStride => 6,
        Decoration::MatrixStride => 7,
        Decoration::GlslShared => 8,
        Decoration::GlslPacked => 9,
        Decoration::CPacked => 10,
        Decoration::BuiltIn => 11,
        Decoration::NoPerspective => 13,
        Decoration::Flat => 14,
        Decoration::Patch => 15,
        Decoration::Centroid => 16,
        Decoration::Sample => 17,
        Decoration::Invariant => 18,
        Decoration::Restrict => 19,
        Decoration::Aliased => 20,
        Decoration::Volatile => 21,
        Decoration::Constant => 22,
        Decoration::Coherent => 23,
        Decoration::NonWritable => 24,
        Decoration::NonReadable => 25,
        Decoration::Uniform => 26,
        Decoration::SaturatedConversion => 28,
        Decoration::Stream => 29,
        Decoration::Location => 30,
        Decoration::Component => 31,
        Decoration::Index => 32,
        Decoration::Binding => 33,
        Decoration::DescriptorSet => 34,
        Decoration::Offset => 35,
        Decoration::XfbBuffer => 36,
        Decoration::XfbStride => 37,
        Decoration::FuncParamAttr => 38,
        Decoration::FpRoundingMode => 39,
        Decoration::FpFastMathMode => 40,
        Decoration::LinkageAttributes => 41,
        Decoration::NoContraction => 42,
        Decoration::InputAttachmentIndex => 43,
        Decoration::Alignment => 44,
        Decoration::OverrideCoverageNv => 5248,
        Decoration::PassthroughNv => 5250,
        Decoration::ViewportRelativeNv => 5252,
        Decoration::SecondaryViewportRelativeNv => 5256,
    }
}

/// The decoration that a SPIR-V code stands for, if the library has one for it.
pub open spec fn decoration_of_code(raw: u32) -> Option<Decoration> {
    if raw == 0 {
        Some(Decoration::RelaxedPrecision)
    } else if raw == 1 {
        Some(Decoration::SpecId)
    } else if raw == 2 {
        Some(Decoration::Block)
    } else if raw == 3 {
        Some(Decoration::BufferBlock)
    } else if raw == 4 {
        Some(Decoration::RowMajor)
    } else if raw == 5 {
        Some(Decoration::ColMajor)
    } else if raw == 6 {
        Some(Decoration::ArrayStride)
    } else if raw == 7 {
        Some(Decoration::MatrixStride)
    } else if raw == 8 {
        Some(Decoration::GlslShared)
    } else if raw == 9 {
        Some(Decoration::GlslPacked)
    } else if raw == 10 {
        Some(Decoration::CPacked)
    } else if raw == 11 {
        Some(Decoration::BuiltIn)
    } else if raw == 13 {
        Some(Decoration::NoPerspective)
    } else if raw == 14 {
        Some(Decoration::Flat)
    } else if raw == 15 {
        Some(Decoration::Patch)
    } else if raw == 16 {
        Some(Decoration::Centroid)
    } else if raw == 17 {
        Some(Decoration::Sample)
    } else if raw == 18 {
        Some(Decoration::Invariant)
    } else if raw == 19 {
        Some(Decoration::Restrict)
    } else if raw == 20 {
        Some(Decoration::Aliased)
    } else if raw == 21 {
        Some(Decoration::Volatile)
    } else if raw == 22 {
        Some(Decoration::Constant)
    } else if raw == 23 {
        Some(Decoration::Coherent)
    } else if raw == 24 {
        Some(Decoration::NonWritable)
    } else if raw == 25 {
        Some(Decoration::NonReadable)
    } else if raw == 26 {
        Some(Decoration::Uniform)
    } else if raw == 28 {
        Some(Decoration::SaturatedConversion)
    } else if raw == 29 {
        Some(Decoration::Stream)
    } else if raw == 30 {
        Some(Decoration::Location)
    } else if raw == 31 {
        Some(Decoration::Component)
    } else if raw == 32 {
        Some(Decoration::Index)
    } else if raw == 33 {
        Some(Decoration::Binding)
    } else if raw == 34 {
        Some(Decoration::DescriptorSet)
    } else if raw == 35 {
        Some(Decoration::Offset)
    } else if raw == 36 {
        Some(Decoration::XfbBuffer)
    } else if raw == 37 {
        Some(Decoration::XfbStride)
    } else if raw == 38 {
        Some(Decoration::FuncParamAttr)
    } else if raw == 39 {
        Some(Decoration::FpRoundingMode)
    } else if raw == 40 {
        Some(Decoration::FpFastMathMode)
    } else if raw == 41 {
        Some(Decoration::LinkageAttributes)
    } else if raw == 42 {
        Some(Decoration::NoContraction)
    } else if raw == 43 {
        Some(Decoration::InputAttachmentIndex)
    } else if raw == 44 {
        Some(Decoration::Alignment)
    } else if raw == 5248 {
        Some(Decoration::OverrideCoverageNv)
    } else if raw == 5250 {
        Some(Decoration::PassthroughNv)
    } else if raw == 5252 {
        Some(Decoration::ViewportRelativeNv)
    } else if raw == 5256 {
        Some(Decoration::SecondaryViewportRelativeNv)
    } else {
        None
    }
}

impl Decoration {
    /// Encodes the value as its SPIR-V code.
    pub fn as_raw(self) -> (r: u32)
        ensures
            r == decoration_code(self),
    {
        match self {
            Decoration::RelaxedPrecision => 0,
            Decoration::SpecId => 1,
            Decoration::Block => 2,
            Decoration::BufferBlock => 3,
            Decoration::RowMajor => 4,
            Decoration::ColMajor => 5,
            Decoration::ArrayStride => 6,
            Decoration::MatrixStride => 7,
            Decoration::GlslShared => 8,
            Decoration::GlslPacked => 9,
            Decoration::CPacked => 10,
            Decoration::BuiltIn => 11,
            Decoration::NoPerspective => 13,
            Decoration::Flat => 14,
            Decoration::Patch => 15,
            Decoration::Centroid => 16,
            Decoration::Sample => 17,
            Decoration::Invariant => 18,
            Decoration::Restrict => 19,
            Decoration::Aliased => 20,
            Decoration::Volatile => 21,
            Decoration::Constant => 22,
            Decoration::Coherent => 23,
            Decoration::NonWritable => 24,
            Decoration::NonReadable => 25,
            Decoration::Uniform => 26,
            Decoration::SaturatedConversion => 28,
            Decoration::Stream => 29,
            Decoration::Location => 30,
            Decoration::Component => 31,
            Decoration::Index => 32,
            Decoration::Binding => 33,
            Decoration::DescriptorSet => 34,
            Decoration::Offset => 35,
            Decoration::XfbBuffer => 36,
            Decoration::XfbStride => 37,
            Decoration::FuncParamAttr => 38,
            Decoration::FpRoundingMode => 39,
            Decoration::FpFastMathMode => 40,
            Decoration::LinkageAttributes => 41,
            Decoration::NoContraction => 42,
            Decoration::InputAttachmentIndex => 43,
            Decoration::Alignment => 44,
            Decoration::OverrideCoverageNv => 5248,
            Decoration::PassthroughNv => 5250,
            Decoration::ViewportRelativeNv => 5252,
            Decoration::SecondaryViewportRelativeNv => 5256,
        }
    }
}

/// The dimensionality of an image.
#[derive(Debug, Clone, Copy, Hash, PartialEq, Eq, Structural, PartialOrd, Ord)]
pub enum Dim {
    Dim1D,
    Dim2D,
    Dim3D,
    DimCube,
    DimRect,
    DimBuffer,
    DimSubpassData,
}

/// The SPIR-V code of an image dimensionality.
pub open spec fn dim_code(v: Dim) -> u32 {
    match v {
        Dim::Dim1D => 0,
        Dim::Dim2D => 1,
        Dim::Dim3D => 2,
        Dim::DimCube => 3,
        Dim::DimRect => 4,
        Dim::DimBuffer => 5,
        Dim::DimSubpassData => 6,
    }
}

/// The dimensionality that a SPIR-V code stands for, if the library handles it.
pub open spec fn dim_of_code(raw: u32) -> Option<Dim> {
    if raw == 0 {
        Some(Dim::Dim1D)
    } else if raw == 1 {
        Some(Dim::Dim2D)
    } else if raw == 2 {
        Some(Dim::Dim3D)
    } else if raw == 3 {
        Some(Dim::DimCube)
    } else if raw == 4 {
        Some(Dim::DimRect)
    } else if raw == 5 {
        Some(Dim::DimBuffer)
    } else if raw == 6 {
        Some(Dim::DimSubpassData)
    } else {
        None
    }
}

impl Dim {
    /// Decodes a SPIR-V code; codes the library does not handle are `Unhandled`.
    pub fn from_raw(raw: u32) -> (r: Result<Self, ErrorCode>)
        ensures
            r == decoded(dim_of_code(raw)),
            r is Ok <==> raw <= 6,
    {
        match raw {
            0 => Ok(Dim::Dim1D),
            1 => Ok(Dim::Dim2D),
            2 => Ok(Dim::Dim3D),
            3 => Ok(Dim::DimCube),
            4 => Ok(Dim::DimRect),
            5 => Ok(Dim::DimBuffer),
            6 => Ok(Dim::DimSubpassData),
            _ => Err(ErrorCode::Unhandled),
        }
    }
}

/// The texel format of a storage image.
#[derive(Debug, Clone, Copy, Hash, PartialEq, Eq, Structural, PartialOrd, Ord)]
pub enum ImageFormat {
    Unknown,
    Rgba32f,
    Rgba16f,
    R32f,
    Rgba8,
    Rgba8Snorm,
    Rg32f,
    Rg16f,
    R11fG11fB10f,
    R16f,
    Rgba16,
    Rgb10A2,
    Rg16,
    Rg8,
    R16,
    R8,
    Rgba16Snorm,
    Rg16Snorm,
    Rg8Snorm,
    R16Snorm,
    R8Snorm,
    Rgba32i,
    Rgba16i,
    Rgba8i,
    R32i,
    Rg32i,
    Rg16i,
    Rg8i,
    R16i,
    R8i,
    Rgba32ui,
    Rgba16ui,
    Rgba8ui,
    R32ui,
    Rgb10a2ui,
    Rg32ui,
    Rg16ui,
    Rg8ui,
    R16ui,
    R8ui,
    R64ui,
    R64i,
}

/// The SPIR-V code of an image format.
pub open spec fn image_format_code(v: ImageFormat) -> u32 {
    match v {
        ImageFormat::Unknown => 0,
        ImageFormat::Rgba32f => 1,
        ImageFormat::Rgba16f => 2,
        ImageFormat::R32f => 3,
        ImageFormat::Rgba8 => 4,
        ImageFormat::Rgba8Snorm => 5,
        ImageFormat::Rg32f => 6,
        ImageFormat::Rg16f => 7,
        ImageFormat::R11fG11fB10f => 8,
        ImageFormat::R16f => 9,
        ImageFormat::Rgba16 => 10,
        ImageFormat::Rgb10A2 => 11,
        ImageFormat::Rg16 => 12,
        ImageFormat::Rg8 => 13,
        ImageFormat::R16 => 14,
        ImageFormat::R8 => 15,
        ImageFormat::Rgba16Snorm => 16,
        ImageFormat::Rg16Snorm => 17,
        ImageFormat::Rg8Snorm => 18,
        ImageFormat::R16Snorm => 19,
        ImageFormat::R8Snorm => 20,
        ImageFormat::Rgba32i => 21,
        ImageFormat::Rgba16i => 22,
        ImageFormat::Rgba8i => 23,
        ImageFormat::R32i => 24,
        ImageFormat::Rg32i => 25,
        ImageFormat::Rg16i => 26,
        ImageFormat::Rg8i => 27,
        ImageFormat::R16i => 28,
        ImageFormat::R8i => 29,
        ImageFormat::Rgba32ui => 30,
        ImageFormat::Rgba16ui => 31,
        ImageFormat::Rgba8ui => 32,
        ImageFormat::R32ui => 33,
        ImageFormat::Rgb10a2ui => 34,
        ImageFormat::Rg32ui => 35,
        ImageFormat::Rg16ui => 36,
        ImageFormat::Rg8ui => 37,
        ImageFormat::R16ui => 38,
        ImageFormat::R8ui => 39,
        ImageFormat::R64ui => 40,
        ImageFormat::R64i => 41,
    }
}

/// The image format that a SPIR-V code stands for, if the library handles it.
pub open spec fn image_format_of_code(raw: u32) -> Option<ImageFormat> {
    if raw == 0 {
        Some(ImageFormat::Unknown)
    } else if raw == 1 {
        Some(ImageFormat::Rgba32f)
    } else if raw == 2 {
        Some(ImageFormat::Rgba16f)
    } else if raw == 3 {
        Some(ImageFormat::R32f)
    } else if raw == 4 {
        Some(ImageFormat::Rgba8)
    } else if raw == 5 {
        Some(ImageFormat::Rgba8Snorm)
    } else if raw == 6 {
        Some(ImageFormat::Rg32f)
    } else if raw == 7 {
        Some(ImageFormat::Rg16f)
    } else if raw == 8 {
        Some(ImageFormat::R11fG11fB10f)
    } else if raw == 9 {
        Some(ImageFormat::R16f)
    } else if raw == 10 {
        Some(ImageFormat::Rgba16)
    } else if raw == 11 {
        Some(ImageFormat::Rgb10A2)
    } else if raw == 12 {
        Some(ImageFormat::Rg16)
    } else if raw == 13 {
        Some(ImageFormat::Rg8)
    } else if raw == 14 {
        Some(ImageFormat::R16)
    } else if raw == 15 {
        Some(ImageFormat::R8)
    } else if raw == 16 {
        Some(ImageFormat::Rgba16Snorm)
    } else if raw == 17 {
        Some(ImageFormat::Rg16Snorm)
    } else if raw == 18 {
        Some(ImageFormat::Rg8Snorm)
    } else if raw == 19 {
        Some(ImageFormat::R16Snorm)
    } else if raw == 20 {
        Some(ImageFormat::R8Snorm)
    } else if raw == 21 {
        Some(ImageFormat::Rgba32i)
    } else if raw == 22 {
        Some(ImageFormat::Rgba16i)
    } else if raw == 23 {
        Some(ImageFormat::Rgba8i)
    } else if raw == 24 {
        Some(ImageFormat::R32i)
    } else if raw == 25 {
        Some(ImageFormat::Rg32i)
    } else if raw == 26 {
        Some(ImageFormat::Rg16i)
    } else if raw == 27 {
        Some(ImageFormat::Rg8i)
    } else if raw == 28 {
        Some(ImageFormat::R16i)
    } else if raw == 29 {
        Some(ImageFormat::R8i)
    } else if raw == 30 {
        Some(ImageFormat::Rgba32ui)
    } else if raw == 31 {
        Some(ImageFormat::Rgba16ui)
    } else if raw == 32 {
        Some(ImageFormat::Rgba8ui)
    } else if raw == 33 {
        Some(ImageFormat::R32ui)
    } else if raw == 34 {
        Some(ImageFormat::Rgb10a2ui)
    } else if raw == 35 {
        Some(ImageFormat::Rg32ui)
    } else if raw == 36 {
        Some(ImageFormat::Rg16ui)
    } else if raw == 37 {
        Some(ImageFormat::Rg8ui)
    } else if raw == 38 {
        Some(ImageFormat::R16ui)
    } else if raw == 39 {
        Some(ImageFormat::R8ui)
    } else if raw == 40 {
        Some(ImageFormat::R64ui)
    } else if raw == 41 {
        Some(ImageFormat::R64i)
    } else {
        None
    }
}

impl ImageFormat {
    /// Decodes a SPIR-V code; codes the library does not handle are `Unhandled`.
    pub fn from_raw(raw: u32) -> (r: Result<Self, ErrorCode>)
        ensures
            r == decoded(image_format_of_code(raw)),
            r is Ok <==> raw <= 41,
    {
        match raw {
            0 => Ok(ImageFormat::Unknown),
            1 => Ok(ImageFormat::Rgba32f),
            2 => Ok(ImageFormat::Rgba16f),
            3 => Ok(ImageFormat::R32f),
            4 => Ok(ImageFormat::Rgba8),
            5 => Ok(ImageFormat::Rgba8Snorm),
            6 => Ok(ImageFormat::Rg32f),
            7 => Ok(ImageFormat::Rg16f),
            8 => Ok(ImageFormat::R11fG11fB10f),
            9 => Ok(ImageFormat::R16f),
            10 => Ok(ImageFormat::Rgba16),
            11 => Ok(ImageFormat::Rgb10A2),
            12 => Ok(ImageFormat::Rg16),
            13 => Ok(ImageFormat::Rg8),
            14 => Ok(ImageFormat::R16),
            15 => Ok(ImageFormat::R8),
            16 => Ok(ImageFormat::Rgba16Snorm),
            17 => Ok(ImageFormat::Rg16Snorm),
            18 => Ok(ImageFormat::Rg8Snorm),
            19 => Ok(ImageFormat::R16Snorm),
            20 => Ok(ImageFormat::R8Snorm),
            21 => Ok(ImageFormat::Rgba32i),
            22 => Ok(ImageFormat::Rgba16i),
            23 => Ok(ImageFormat::Rgba8i),
            24 => Ok(ImageFormat::R32i),
            25 => Ok(ImageFormat::Rg32i),
            26 => Ok(ImageFormat::Rg16i),
            27 => Ok(ImageFormat::Rg8i),
            28 => Ok(ImageFormat::R16i),
            29 => Ok(ImageFormat::R8i),
            30 => Ok(ImageFormat::Rgba32ui),
            31 => Ok(ImageFormat::Rgba16ui),
            32 => Ok(ImageFormat::Rgba8ui),
            33 => Ok(ImageFormat::R32ui),
            34 => Ok(ImageFormat::Rgb10a2ui),
            35 => Ok(ImageFormat::Rg32ui),
            36 => Ok(ImageFormat::Rg16ui),
            37 => Ok(ImageFormat::Rg8ui),
            38 => Ok(ImageFormat::R16ui),
            39 => Ok(ImageFormat::R8ui),
            40 => Ok(ImageFormat::R64ui),
            41 => Ok(ImageFormat::R64i),
            _ => Err(ErrorCode::Unhandled),
        }
    }
}

/// A SPIR-V built-in variable.
#[derive(Debug, Clone, Copy, Hash, PartialEq, Eq, Structural, PartialOrd, Ord)]
pub enum BuiltIn {
    Position,
    PointSize,
    ClipDistance,
    CullDistance,
    VertexId,
    InstanceId,
    PrimitiveId,
    InvocationId,
    Layer,
    ViewportIndex,
    TessLevelOuter,
    TessLevelInner,
    TessCoord,
    PatchVertices,
    FragCoord,
    PointCoord,
    FrontFacing,
    SampleId,
    SamplePosition,
    SampleMask,
    FragDepth,
    HelperInvocation,
    NumWorkgroups,
    WorkgroupSize,
    WorkgroupId,
    LocalInvocationId,
    GlobalInvocationId,
    LocalInvocationIndex,
    WorkDim,
    GlobalSize,
    EnqueuedWorkgroupSize,
    GlobalOffset,
    GlobalLinearId,
    SubgroupSize,
    SubgroupMaxSize,
    NumSubgroups,
    NumEnqueuedSubgroups,
    SubgroupId,
    SubgroupLocalInvocationId,
    VertexIndex,
    InstanceIndex,
    SubgroupEqMask,
    SubgroupGeMask,
    SubgroupGtMask,
    SubgroupLeMask,
    SubgroupLtMask,
    BaseVertex,
    BaseInstance,
    DrawIndex,
    DeviceIndex,
    ViewIndex,
}

/// The SPIR-V code of a built-in variable.
pub open spec fn built_in_code(v: BuiltIn) -> u32 {
    match v {
        BuiltIn::Position => 0,
        BuiltIn::PointSize => 1,
        BuiltIn::ClipDistance => 3,
        BuiltIn::CullDistance => 4,
        BuiltIn::VertexId => 5,
        BuiltIn::InstanceId => 6,
        BuiltIn::PrimitiveId => 7,
        BuiltIn::InvocationId => 8,
        BuiltIn::Layer => 9,
        BuiltIn::ViewportIndex => 10,
        BuiltIn::TessLevelOuter => 11,
        BuiltIn::TessLevelInner => 12,
        BuiltIn::TessCoord => 13,
        BuiltIn::PatchVertices => 14,
        BuiltIn::FragCoord => 15,
        BuiltIn::PointCoord => 16,
        BuiltIn::FrontFacing => 17,
        BuiltIn::SampleId => 18,
        BuiltIn::SamplePosition => 19,
        BuiltIn::SampleMask => 20,
        BuiltIn::FragDepth => 22,
        BuiltIn::HelperInvocation => 23,
        BuiltIn::NumWorkgroups => 24,
        BuiltIn::WorkgroupSize => 25,
        BuiltIn::WorkgroupId => 26,
        BuiltIn::LocalInvocationId => 27,
        BuiltIn::GlobalInvocationId => 28,
        BuiltIn::LocalInvocationIndex => 29,
        BuiltIn::WorkDim => 30,
        BuiltIn::GlobalSize => 31,
        BuiltIn::EnqueuedWorkgroupSize => 32,
        BuiltIn::GlobalOffset => 33,
        BuiltIn::GlobalLinearId => 34,
        BuiltIn::SubgroupSize => 36,
        BuiltIn::SubgroupMaxSize => 37,
        BuiltIn::NumSubgroups => 38,
        BuiltIn::NumEnqueuedSubgroups => 39,
        BuiltIn::SubgroupId => 40,
        BuiltIn::SubgroupLocalInvocationId => 41,
        BuiltIn::VertexIndex => 42,
        BuiltIn::InstanceIndex => 43,
        BuiltIn::SubgroupEqMask => 4416,
        BuiltIn::SubgroupGeMask => 4417,
        BuiltIn::SubgroupGtMask => 4418,
        BuiltIn::SubgroupLeMask => 4419,
        BuiltIn::SubgroupLtMask => 4420,
        BuiltIn::BaseVertex => 4424,
        BuiltIn::BaseInstance => 4425,
        BuiltIn::DrawIndex => 4426,
        BuiltIn::DeviceIndex => 4438,
        BuiltIn::ViewIndex => 4440,
    }
}

/// The built-in that a SPIR-V code stands for, if the library has one for it.
pub open spec fn built_in_of_code(raw: u32) -> Option<BuiltIn> {
    if raw == 0 {
        Some(BuiltIn::Position)
    } else if raw == 1 {
        Some(BuiltIn::PointSize)
    } else if raw == 3 {
        Some(BuiltIn::ClipDistance)
    } else if raw == 4 {
        Some(BuiltIn::CullDistance)
    } else if raw == 5 {
        Some(BuiltIn::VertexId)
    } else if raw == 6 {
        Some(BuiltIn::InstanceId)
    } else if raw == 7 {
        Some(BuiltIn::PrimitiveId)
    } else if raw == 8 {
        Some(BuiltIn::InvocationId)
    } else if raw == 9 {
        Some(BuiltIn::Layer)
    } else if raw == 10 {
        Some(BuiltIn::ViewportIndex)
    } else if raw == 11 {
        Some(BuiltIn::TessLevelOuter)
    } else if raw == 12 {
        Some(BuiltIn::TessLevelInner)
    } else if raw == 13 {
        Some(BuiltIn::TessCoord)
    } else if raw == 14 {
        Some(BuiltIn::PatchVertices)
    } else if raw == 15 {
        Some(BuiltIn::FragCoord)
    } else if raw == 16 {
        Some(BuiltIn::PointCoord)
    } else if raw == 17 {
        Some(BuiltIn::FrontFacing)
    } else if raw == 18 {
        Some(BuiltIn::SampleId)
    } else if raw == 19 {
        Some(BuiltIn::SamplePosition)
    } else if raw == 20 {
        Some(BuiltIn::SampleMask)
    } else if raw == 22 {
        Some(BuiltIn::FragDepth)
    } else if raw == 23 {
        Some(BuiltIn::HelperInvocation)
    } else if raw == 24 {
        Some(BuiltIn::NumWorkgroups)
    } else if raw == 25 {
        Some(BuiltIn::WorkgroupSize)
    } else if raw == 26 {
        Some(BuiltIn::WorkgroupId)
    } else if raw == 27 {
        Some(BuiltIn::LocalInvocationId)
    } else if raw == 28 {
        Some(BuiltIn::GlobalInvocationId)
    } else if raw == 29 {
        Some(BuiltIn::LocalInvocationIndex)
    } else if raw == 30 {
        Some(BuiltIn::WorkDim)
    } else if raw == 31 {
        Some(BuiltIn::GlobalSize)
    } else if raw == 32 {
        Some(BuiltIn::EnqueuedWorkgroupSize)
    } else if raw == 33 {
        Some(BuiltIn::GlobalOffset)
    } else if raw == 34 {
        Some(BuiltIn::GlobalLinearId)
    } else if raw == 36 {
        Some(BuiltIn::SubgroupSize)
    } else if raw == 37 {
        Some(BuiltIn::SubgroupMaxSize)
    } else if raw == 38 {
        Some(BuiltIn::NumSubgroups)
    } else if raw == 39 {
        Some(BuiltIn::NumEnqueuedSubgroups)
    } else if raw == 40 {
        Some(BuiltIn::SubgroupId)
    } else if raw == 41 {
        Some(BuiltIn::SubgroupLocalInvocationId)
    } else if raw == 42 {
        Some(BuiltIn::VertexIndex)
    } else if raw == 43 {
        Some(BuiltIn::InstanceIndex)
    } else if raw == 4416 {
        Some(BuiltIn::SubgroupEqMask)
    } else if raw == 4417 {
        Some(BuiltIn::SubgroupGeMask)
    } else if raw == 4418 {
        Some(BuiltIn::SubgroupGtMask)
    } else if raw == 4419 {
        Some(BuiltIn::SubgroupLeMask)
    } else if raw == 4420 {
        Some(BuiltIn::SubgroupLtMask)
    } else if raw == 4424 {
        Some(BuiltIn::BaseVertex)
    } else if raw == 4425 {
        Some(BuiltIn::BaseInstance)
    } else if raw == 4426 {
        Some(BuiltIn::DrawIndex)
    } else if raw == 4438 {
        Some(BuiltIn::DeviceIndex)
    } else if raw == 4440 {
        Some(BuiltIn::ViewIndex)
    } else {
        None
    }
}

/// The SPIR-V code SPIRV-Cross expects for an optional built-in:
/// the built-in's code, or `BuiltInMax` (`0x7fff_ffff`) for none.
pub open spec fn optional_built_in_code(b: Option<BuiltIn>) -> u32 {
    match b {
        Some(v) => built_in_code(v),
        None => 0x7fff_ffff,
    }
}

/// Encodes an optional built-in as SPIRV-Cross expects it.
pub fn built_in_as_raw(built_in: Option<BuiltIn>) -> (r: u32)
    ensures
        r == optional_built_in_code(built_in),
{
    match built_in {
        None => 0x7fff_ffff,
        Some(BuiltIn::Position) => 0,
        Some(BuiltIn::PointSize) => 1,
        Some(BuiltIn::ClipDistance) => 3,
        Some(BuiltIn::CullDistance) => 4,
        Some(BuiltIn::VertexId) => 5,
        Some(BuiltIn::InstanceId) => 6,
        Some(BuiltIn::PrimitiveId) => 7,
        Some(BuiltIn::InvocationId) => 8,
        Some(BuiltIn::Layer) => 9,
        Some(BuiltIn::ViewportIndex) => 10,
        Some(BuiltIn::TessLevelOuter) => 11,
        Some(BuiltIn::TessLevelInner) => 12,
        Some(BuiltIn::TessCoord) => 13,
        Some(BuiltIn::PatchVertices) => 14,
        Some(BuiltIn::FragCoord) => 15,
        Some(BuiltIn::PointCoord) => 16,
        Some(BuiltIn::FrontFacing) => 17,
        Some(BuiltIn::SampleId) => 18,
        Some(BuiltIn::SamplePosition) => 19,
        Some(BuiltIn::SampleMask) => 20,
        Some(BuiltIn::FragDepth) => 22,
        Some(BuiltIn::HelperInvocation) => 23,
        Some(BuiltIn::NumWorkgroups) => 24,
        Some(BuiltIn::WorkgroupSize) => 25,
        Some(BuiltIn::WorkgroupId) => 26,
        Some(BuiltIn::LocalInvocationId) => 27,
        Some(BuiltIn::GlobalInvocationId) => 28,
        Some(BuiltIn::LocalInvocationIndex) => 29,
        Some(BuiltIn::WorkDim) => 30,
        Some(BuiltIn::GlobalSize) => 31,
        Some(BuiltIn::EnqueuedWorkgroupSize) => 32,
        Some(BuiltIn::GlobalOffset) => 33,
        Some(BuiltIn::GlobalLinearId) => 34,
        Some(BuiltIn::SubgroupSize) => 36,
        Some(BuiltIn::SubgroupMaxSize) => 37,
        Some(BuiltIn::NumSubgroups) => 38,
        Some(BuiltIn::NumEnqueuedSubgroups) => 39,
        Some(BuiltIn::SubgroupId) => 40,
        Some(BuiltIn::SubgroupLocalInvocationId) => 41,
        Some(BuiltIn::VertexIndex) => 42,
        Some(BuiltIn::InstanceIndex) => 43,
        Some(BuiltIn::SubgroupEqMask) => 4416,
        Some(BuiltIn::SubgroupGeMask) => 4417,
        Some(BuiltIn::SubgroupGtMask) => 4418,
        Some(BuiltIn::SubgroupLeMask) => 4419,
        Some(BuiltIn::SubgroupLtMask) => 4420,
        Some(BuiltIn::BaseVertex) => 4424,
        Some(BuiltIn::BaseInstance) => 4425,
        Some(BuiltIn::DrawIndex) => 4426,
        Some(BuiltIn::DeviceIndex) => 4438,
        Some(BuiltIn::ViewIndex) => 4440,
    }
}

/// Decoding a decoration's code gives the decoration back, and a code that
/// decodes to a decoration is that decoration's code; so no two decorations
/// share a code.
pub proof fn lemma_decoration_round_trip(d: Decoration, raw: u32)
    ensures
        decoration_of_code(decoration_code(d)) == Some(d),
        decoration_of_code(raw) == Some(d) ==> decoration_code(d) == raw,
{
}

/// Distinct decorations have distinct codes.
pub proof fn lemma_decoration_code_injective(a: Decoration, b: Decoration)
    ensures
        decoration_code(a) == decoration_code(b) ==> a == b,
{
    lemma_decoration_round_trip(a, 0);
    lemma_decoration_round_trip(b, 0);
}

/// Decoding a dimensionality's code gives it back, and a code that decodes to
/// a dimensionality is its code.
pub proof fn lemma_dim_round_trip(d: Dim, raw: u32)
    ensures
        dim_of_code(dim_code(d)) == Some(d),
        dim_of_code(raw) == Some(d) ==> dim_code(d) == raw,
{
}

/// Decoding an image format's code gives it back, and a code that decodes to
/// an image format is its code.
pub proof fn lemma_image_format_round_trip(f: ImageFormat, raw: u32)
    ensures
        image_format_of_code(image_format_code(f)) == Some(f),
        image_format_of_code(raw) == Some(f) ==> image_format_code(f) == raw,
{
}

/// Decoding a built-in's code gives it back, and no built-in has the code
/// that stands for "no built-in".
pub proof fn lemma_built_in_round_trip(b: BuiltIn, raw: u32)
    ensures
        built_in_of_code(built_in_code(b)) == Some(b),
        built_in_of_code(raw) == Some(b) ==> built_in_code(b) == raw,
        optional_built_in_code(Some(b)) != optional_built_in_code(None),
{
}

/// The image type description as SPIRV-Cross reports it, with the
/// dimensionality and format as their SPIR-V codes.
#[derive(Debug, Clone, Copy)]
pub struct RawImageType {
    pub type_id: u32,
    pub dim: u32,
    pub depth: bool,
    pub arrayed: bool,
    pub ms: bool,
    pub sampled: u32,
    pub format: u32,
}

/// The description of an image type.
#[derive(Debug, Clone, Copy, Hash, PartialEq, Eq, Structural)]
pub struct ImageType {
    pub type_id: u32,
    pub dim: Dim,
    pub depth: bool,
    pub arrayed: bool,
    pub ms: bool,
    pub sampled: u32,
    pub format: ImageFormat,
}

/// The image type that a raw description stands for: `Unhandled` where its
/// dimensionality or its format is not handled.
pub open spec fn image_type_of_raw(ty: RawImageType) -> Result<ImageType, ErrorCode> {
    match (dim_of_code(ty.dim), image_format_of_code(ty.format)) {
        (Some(dim), Some(format)) => Ok(
            ImageType {
                type_id: ty.type_id,
                dim,
                depth: ty.depth,
                arrayed: ty.arrayed,
                ms: ty.ms,
                sampled: ty.sampled,
                format,
            },
        ),
        _ => Err(ErrorCode::Unhandled),
    }
}

impl ImageType {
    /// Converts a raw image type description.
    pub fn from_raw(ty: RawImageType) -> (r: Result<ImageType, ErrorCode>)
        ensures
            r == image_type_of_raw(ty),
    {
        let dim = Dim::from_raw(ty.dim)?;
        let format = ImageFormat::from_raw(ty.format)?;
        Ok(
            ImageType {
                type_id: ty.type_id,
                dim,
                depth: ty.depth,
                arrayed: ty.arrayed,
                ms: ty.ms,
                sampled: ty.sampled,
                format,
            },
        )
    }
}

/// The base type of a SPIRV-Cross type (`SPIRType::BaseType`).
#[derive(Debug, Clone, Copy, Hash, PartialEq, Eq, Structural)]
pub enum SPIRType {
    Unknown,
    Void,
    Boolean,
    SByte,
    UByte,
    Short,
    UShort,
    Int,
    UInt,
    Int64,
    UInt64,
    AtomicCounter,
    Half,
    Float,
    Double,
    Struct,
    Image,
    SampledImage,
    Sampler,
    AccelerationStructure,
    RayQuery,
    ControlPointArray,
    Interpolant,
    Char,
}

/// A type of a SPIR-V module, as reflected by SPIRV-Cross.
#[derive(Debug, Clone)]
pub enum Type {
    Unknown,
    Void,
    Boolean { vecsize: u32, columns: u32, array: Vec<u32>, array_size_literal: Vec<bool> },
    Char { array: Vec<u32>, array_size_literal: Vec<bool> },
    Int { vecsize: u32, columns: u32, array: Vec<u32>, array_size_literal: Vec<bool> },
    UInt { vecsize: u32, columns: u32, array: Vec<u32>, array_size_literal: Vec<bool> },
    Int64 { vecsize: u32, array: Vec<u32>, array_size_literal: Vec<bool> },
    UInt64 { vecsize: u32, array: Vec<u32>, array_size_literal: Vec<bool> },
    AtomicCounter { array: Vec<u32>, array_size_literal: Vec<bool> },
    Half { vecsize: u32, columns: u32, array: Vec<u32>, array_size_literal: Vec<bool> },
    Float { vecsize: u32, columns: u32, array: Vec<u32>, array_size_literal: Vec<bool> },
    Double { vecsize: u32, columns: u32, array: Vec<u32>, array_size_literal: Vec<bool> },
    Struct { member_types: Vec<u32>, array: Vec<u32>, array_size_literal: Vec<bool> },
    Image { array: Vec<u32>, array_size_literal: Vec<bool>, image: ImageType },
    SampledImage { array: Vec<u32>, array_size_literal: Vec<bool>, image: ImageType },
    Sampler { array: Vec<u32>, array_size_literal: Vec<bool> },
    SByte { vecsize: u32, array: Vec<u32>, array_size_literal: Vec<bool> },
    UByte { vecsize: u32, array: Vec<u32>, array_size_literal: Vec<bool> },
    Short { vecsize: u32, array: Vec<u32>, array_size_literal: Vec<bool> },
    UShort { vecsize: u32, array: Vec<u32>, array_size_literal: Vec<bool> },
    ControlPointArray,
    AccelerationStructure,
    RayQuery,
    Interpolant,
}

/// The type that SPIRV-Cross's raw description stands for. Each base type
/// keeps the parts of the description that matter for it; image types fail
/// with `Unhandled` where their image description is not handled.
pub open spec fn type_of_raw(
    ty: SPIRType,
    vecsize: u32,
    columns: u32,
    member_types: Vec<u32>,
    array: Vec<u32>,
    array_size_literal: Vec<bool>,
    image: RawImageType,
) -> Result<Type, ErrorCode> {
    match ty {
        SPIRType::Unknown => Ok(Type::Unknown),
        SPIRType::Void => Ok(Type::Void),
        SPIRType::Boolean => Ok(Type::Boolean { vecsize, columns, array, array_size_literal }),
        SPIRType::Char => Ok(Type::Char { array, array_size_literal }),
        SPIRType::Int => Ok(Type::Int { vecsize, columns, array, array_size_literal }),
        SPIRType::UInt => Ok(Type::UInt { vecsize, columns, array, array_size_literal }),
        SPIRType::Int64 => Ok(Type::Int64 { vecsize, array, array_size_literal }),
        SPIRType::UInt64 => Ok(Type::UInt64 { vecsize, array, array_size_literal }),
        SPIRType::AtomicCounter => Ok(Type::AtomicCounter { array, array_size_literal }),
        SPIRType::Half => Ok(Type::Half { vecsize, columns, array, array_size_literal }),
        SPIRType::Float => Ok(Type::Float { vecsize, columns, array, array_size_literal }),
        SPIRType::Double => Ok(Type::Double { vecsize, columns, array, array_size_literal }),
        SPIRType::Struct => Ok(Type::Struct { member_types, array, array_size_literal }),
        SPIRType::Image => match image_type_of_raw(image) {
            Ok(image) => Ok(Type::Image { array, array_size_literal, image }),
            Err(e) => Err(e),
        },
        SPIRType::SampledImage => match image_type_of_raw(image) {
            Ok(image) => Ok(Type::SampledImage { array, array_size_literal, image }),
            Err(e) => Err(e),
        },
        SPIRType::Sampler => Ok(Type::Sampler { array, array_size_literal }),
        SPIRType::SByte => Ok(Type::SByte { vecsize, array, array_size_literal }),
        SPIRType::UByte => Ok(Type::UByte { vecsize, array, array_size_literal }),
        SPIRType::Short => Ok(Type::Short { vecsize, array, array_size_literal }),
        SPIRType::UShort => Ok(Type::UShort { vecsize, array, array_size_literal }),
        SPIRType::ControlPointArray => Ok(Type::ControlPointArray),
        SPIRType::AccelerationStructure => Ok(Type::AccelerationStructure),
        SPIRType::RayQuery => Ok(Type::RayQuery),
        SPIRType::Interpolant => Ok(Type::Interpolant),
    }
}

impl Type {
    /// Builds a type from SPIRV-Cross's raw description of it.
    pub fn from_raw(
        ty: SPIRType,
        vecsize: u32,
        columns: u32,
        member_types: Vec<u32>,
        array: Vec<u32>,
        array_size_literal: Vec<bool>,
        image: RawImageType,
    ) -> (r: Result<Self, ErrorCode>)
        ensures
            r == type_of_raw(ty, vecsize, columns, member_types, array, array_size_literal, image),
    {
        Ok(
            match ty {
                SPIRType::Unknown => Type::Unknown,
                SPIRType::Void => Type::Void,
                SPIRType::Boolean => Type::Boolean { vecsize, columns, array, array_size_literal },
                SPIRType::Char => Type::Char { array, array_size_literal },
                SPIRType::Int => Type::Int { vecsize, columns, array, array_size_literal },
                SPIRType::UInt => Type::UInt { vecsize, columns, array, array_size_literal },
                SPIRType::Int64 => Type::Int64 { vecsize, array, array_size_literal },
                SPIRType::UInt64 => Type::UInt64 { vecsize, array, array_size_literal },
                SPIRType::AtomicCounter => Type::AtomicCounter { array, array_size_literal },
                SPIRType::Half => Type::Half { vecsize, columns, array, array_size_literal },
                SPIRType::Float => Type::Float { vecsize, columns, array, array_size_literal },
                SPIRType::Double => Type::Double { vecsize, columns, array, array_size_literal },
                SPIRType::Struct => Type::Struct { member_types, array, array_size_literal },
                SPIRType::Image => Type::Image {
                    array,
                    array_size_literal,
                    image: ImageType::from_raw(image)?,
                },
                SPIRType::SampledImage => Type::SampledImage {
                    array,
                    array_size_literal,
                    image: ImageType::from_raw(image)?,
                },
                SPIRType::Sampler => Type::Sampler { array, array_size_literal },
                SPIRType::SByte => Type::SByte { vecsize, array, array_size_literal },
                SPIRType::UByte => Type::UByte { vecsize, array, array_size_literal },
                SPIRType::Short => Type::Short { vecsize, array, array_size_literal },
                SPIRType::UShort => Type::UShort { vecsize, array, array_size_literal },
                SPIRType::ControlPointArray => Type::ControlPointArray,
                SPIRType::AccelerationStructure => Type::AccelerationStructure,
                SPIRType::RayQuery => Type::RayQuery,
                SPIRType::Interpolant => Type::Interpolant,
            },
        )
    }
}

/// A raw image description converts exactly when its dimensionality and its
/// format codes are handled (at most 6 and at most 41).
pub proof fn lemma_image_type_of_raw_succeeds(ty: RawImageType)
    ensures
        image_type_of_raw(ty) is Ok <==> ty.dim <= 6 && ty.format <= 41,
{
}

/// Converting a raw type description fails only for image and sampled image
/// types, and for those exactly when the image description does not convert.
pub proof fn lemma_type_of_raw_fails_only_for_images(
    ty: SPIRType,
    vecsize: u32,
    columns: u32,
    member_types: Vec<u32>,
    array: Vec<u32>,
    array_size_literal: Vec<bool>,
    image: RawImageType,
)
    ensures
        type_of_raw(ty, vecsize, columns, member_types, array, array_size_literal, image) is Err
            <==> ((ty == SPIRType::Image || ty == SPIRType::SampledImage) && image_type_of_raw(
            image,
        ) is Err),
{
}

/// The work group size of a compute entry point.
#[derive(Debug, Clone, Copy, Hash, PartialEq, Eq, Structural)]
pub struct WorkGroupSize {
    pub x: u32,
    pub y: u32,
    pub z: u32,
}

/// An entry point of a SPIR-V module.
#[derive(Debug, Clone)]
pub struct EntryPoint {
    pub name: String,
    pub execution_model: ExecutionModel,
    pub work_group_size: WorkGroupSize,
}

/// A range of a buffer that the shader accesses.
#[derive(Debug, Clone, Copy, Hash, PartialEq, Eq, Structural)]
pub struct BufferRange {
    /// The member index of the range.
    pub index: u32,
    /// The byte offset of the range.
    pub offset: usize,
    /// The byte size of the range.
    pub range: usize,
}

/// A shader resource.
#[derive(Debug, Clone)]
pub struct Resource {
    pub id: u32,
    pub type_id: u32,
    pub base_type_id: u32,
    pub name: String,
}

/// A specialization constant.
#[derive(Debug, Clone, Copy, Hash, PartialEq, Eq, Structural)]
pub struct SpecializationConstant {
    pub id: u32,
    pub constant_id: u32,
}

/// The specialization constants of the work group size.
#[derive(Debug, Clone, Copy, Hash, PartialEq, Eq, Structural)]
pub struct WorkGroupSizeSpecializationConstants {
    pub x: SpecializationConstant,
    pub y: SpecializationConstant,
    pub z: SpecializationConstant,
}

/// The resources of a shader, by kind.
#[derive(Debug, Clone)]
pub struct ShaderResources {
    pub uniform_buffers: Vec<Resource>,
    pub storage_buffers: Vec<Resource>,
    pub stage_inputs: Vec<Resource>,
    pub stage_outputs: Vec<Resource>,
    pub subpass_inputs: Vec<Resource>,
    pub storage_images: Vec<Resource>,
    pub sampled_images: Vec<Resource>,
    pub atomic_counters: Vec<Resource>,
    pub push_constant_buffers: Vec<Resource>,
    pub separate_images: Vec<Resource>,
    pub separate_samplers: Vec<Resource>,
    pub acceleration_structures: Vec<Resource>,
    pub gl_plain_uniforms: Vec<Resource>,
    pub shader_record_buffers: Vec<Resource>,
}

/// The native code of each `ExecutionModel`, value by value.
pub proof fn lemma_execution_model_code_table()
    ensures
        execution_model_code(ExecutionModel::Vertex) == 0,
        execution_model_code(ExecutionModel::TessellationControl) == 1,
        execution_model_code(ExecutionModel::TessellationEvaluation) == 2,
        execution_model_code(ExecutionModel::Geometry) == 3,
        execution_model_code(ExecutionModel::Fragment) == 4,
        execution_model_code(ExecutionModel::GlCompute) == 5,
        execution_model_code(ExecutionModel::Kernel) == 6,
{
}

/// The native code of each `Decoration`, value by value.
pub proof fn lemma_decoration_code_table()
    ensures
        decoration_code(Decoration::RelaxedPrecision) == 0,
        decoration_code(Decoration::SpecId) == 1,
        decoration_code(Decoration::Block) == 2,
        decoration_code(Decoration::BufferBlock) == 3,
        decoration_code(Decoration::RowMajor) == 4,
        decoration_code(Decoration::ColMajor) == 5,
        decoration_code(Decoration::ArrayStride) == 6,
        decoration_code(Decoration::MatrixStride) == 7,
        decoration_code(Decoration::GlslShared) == 8,
        decoration_code(Decoration::GlslPacked) == 9,
        decoration_code(Decoration::CPacked) == 10,
        decoration_code(Decoration::BuiltIn) == 11,
        decoration_code(Decoration::NoPerspective) == 13,
        decoration_code(Decoration::Flat) == 14,
        decoration_code(Decoration::Patch) == 15,
        decoration_code(Decoration::Centroid) == 16,
        decoration_code(Decoration::Sample) == 17,
        decoration_code(Decoration::Invariant) == 18,
        decoration_code(Decoration::Restrict) == 19,
        decoration_code(Decoration::Aliased) == 20,
        decoration_code(Decoration::Volatile) == 21,
        decoration_code(Decoration::Constant) == 22,
        decoration_code(Decoration::Coherent) == 23,
        decoration_code(Decoration::NonWritable) == 24,
        decoration_code(Decoration::NonReadable) == 25,
        decoration_code(Decoration::Uniform) == 26,
        decoration_code(Decoration::SaturatedConversion) == 28,
        decoration_code(Decoration::Stream) == 29,
        decoration_code(Decoration::Location) == 30,
        decoration_code(Decoration::Component) == 31,
        decoration_code(Decoration::Index) == 32,
        decoration_code(Decoration::Binding) == 33,
        decoration_code(Decoration::DescriptorSet) == 34,
        decoration_code(Decoration::Offset) == 35,
        decoration_code(Decoration::XfbBuffer) == 36,
        decoration_code(Decoration::XfbStride) == 37,
        decoration_code(Decoration::FuncParamAttr) == 38,
        decoration_code(Decoration::FpRoundingMode) == 39,
        decoration_code(Decoration::FpFastMathMode) == 40,
        decoration_code(Decoration::LinkageAttributes) == 41,
        decoration_code(Decoration::NoContraction) == 42,
        decoration_code(Decoration::InputAttachmentIndex) == 43,
        decoration_code(Decoration::Alignment) == 44,
        decoration_code(Decoration::OverrideCoverageNv) == 5248,
        decoration_code(Decoration::PassthroughNv) == 5250,
        decoration_code(Decoration::ViewportRelativeNv) == 5252,
        decoration_code(Decoration::SecondaryViewportRelativeNv) == 5256,
{
}

/// The native code of each `Dim`, value by value.
pub proof fn lemma_dim_code_table()
    ensures
        dim_code(Dim::Dim1D) == 0,
        dim_code(Dim::Dim2D) == 1,
        dim_code(Dim::Dim3D) == 2,
        dim_code(Dim::DimCube) == 3,
        dim_code(Dim::DimRect) == 4,
        dim_code(Dim::DimBuffer) == 5,
        dim_code(Dim::DimSubpassData) == 6,
{
}

/// The native code of each `ImageFormat`, value by value.
pub proof fn lemma_image_format_code_table()
    ensures
        image_format_code(ImageFormat::Unknown) == 0,
        image_format_code(ImageFormat::Rgba32f) == 1,
        image_format_code(ImageFormat::Rgba16f) == 2,
        image_format_code(ImageFormat::R32f) == 3,
        image_format_code(ImageFormat::Rgba8) == 4,
        image_format_code(ImageFormat::Rgba8Snorm) == 5,
        image_format_code(ImageFormat::Rg32f) == 6,
        image_format_code(ImageFormat::Rg16f) == 7,
        image_format_code(ImageFormat::R11fG11fB10f) == 8,
        image_format_code(ImageFormat::R16f) == 9,
        image_format_code(ImageFormat::Rgba16) == 10,
        image_format_code(ImageFormat::Rgb10A2) == 11,
        image_format_code(ImageFormat::Rg16) == 12,
        image_format_code(ImageFormat::Rg8) == 13,
        image_format_code(ImageFormat::R16) == 14,
        image_format_code(ImageFormat::R8) == 15,
        image_format_code(ImageFormat::Rgba16Snorm) == 16,
        image_format_code(ImageFormat::Rg16Snorm) == 17,
        image_format_code(ImageFormat::Rg8Snorm) == 18,
        image_format_code(ImageFormat::R16Snorm) == 19,
        image_format_code(ImageFormat::R8Snorm) == 20,
        image_format_code(ImageFormat::Rgba32i) == 21,
        image_format_code(ImageFormat::Rgba16i) == 22,
        image_format_code(ImageFormat::Rgba8i) == 23,
        image_format_code(ImageFormat::R32i) == 24,
        image_format_code(ImageFormat::Rg32i) == 25,
        image_format_code(ImageFormat::Rg16i) == 26,
        image_format_code(ImageFormat::Rg8i) == 27,
        image_format_code(ImageFormat::R16i) == 28,
        image_format_code(ImageFormat::R8i) == 29,
        image_format_code(ImageFormat::Rgba32ui) == 30,
        image_format_code(ImageFormat::Rgba16ui) == 31,
        image_format_code(ImageFormat::Rgba8ui) == 32,
        image_format_code(ImageFormat::R32ui) == 33,
        image_format_code(ImageFormat::Rgb10a2ui) == 34,
        image_format_code(ImageFormat::Rg32ui) == 35,
        image_format_code(ImageFormat::Rg16ui) == 36,
        image_format_code(ImageFormat::Rg8ui) == 37,
        image_format_code(ImageFormat::R16ui) == 38,
        image_format_code(ImageFormat::R8ui) == 39,
        image_format_code(ImageFormat::R64ui) == 40,
        image_format_code(ImageFormat::R64i) == 41,
{
}

/// The native code of each `BuiltIn`, value by value.
pub proof fn lemma_built_in_code_table()
    ensures
        built_in_code(BuiltIn::Position) == 0,
        built_in_code(BuiltIn::PointSize) == 1,
        built_in_code(BuiltIn::ClipDistance) == 3,
        built_in_code(BuiltIn::CullDistance) == 4,
        built_in_code(BuiltIn::VertexId) == 5,
        built_in_code(BuiltIn::InstanceId) == 6,
        built_in_code(BuiltIn::PrimitiveId) == 7,
        built_in_code(BuiltIn::InvocationId) == 8,
        built_in_code(BuiltIn::Layer) == 9,
        built_in_code(BuiltIn::ViewportIndex) == 10,
        built_in_code(BuiltIn::TessLevelOuter) == 11,
        built_in_code(BuiltIn::TessLevelInner) == 12,
        built_in_code(BuiltIn::TessCoord) == 13,
        built_in_code(BuiltIn::PatchVertices) == 14,
        built_in_code(BuiltIn::FragCoord) == 15,
        built_in_code(BuiltIn::PointCoord) == 16,
        built_in_code(BuiltIn::FrontFacing) == 17,
        built_in_code(BuiltIn::SampleId) == 18,
        built_in_code(BuiltIn::SamplePosition) == 19,
        built_in_code(BuiltIn::SampleMask) == 20,
        built_in_code(BuiltIn::FragDepth) == 22,
        built_in_code(BuiltIn::HelperInvocation) == 23,
        built_in_code(BuiltIn::NumWorkgroups) == 24,
        built_in_code(BuiltIn::WorkgroupSize) == 25,
        built_in_code(BuiltIn::WorkgroupId) == 26,
        built_in_code(BuiltIn::LocalInvocationId) == 27,
        built_in_code(BuiltIn::GlobalInvocationId) == 28,
        built_in_code(BuiltIn::LocalInvocationIndex) == 29,
        built_in_code(BuiltIn::WorkDim) == 30,
        built_in_code(BuiltIn::GlobalSize) == 31,
        built_in_code(BuiltIn::EnqueuedWorkgroupSize) == 32,
        built_in_code(BuiltIn::GlobalOffset) == 33,
        built_in_code(BuiltIn::GlobalLinearId) == 34,
        built_in_code(BuiltIn::SubgroupSize) == 36,
        built_in_code(BuiltIn::SubgroupMaxSize) == 37,
        built_in_code(BuiltIn::NumSubgroups) == 38,
        built_in_code(BuiltIn::NumEnqueuedSubgroups) == 39,
        built_in_code(BuiltIn::SubgroupId) == 40,
        built_in_code(BuiltIn::SubgroupLocalInvocationId) == 41,
        built_in_code(BuiltIn::VertexIndex) == 42,
        built_in_code(BuiltIn::InstanceIndex) == 43,
        built_in_code(BuiltIn::SubgroupEqMask) == 4416,
        built_in_code(BuiltIn::SubgroupGeMask) == 4417,
        built_in_code(BuiltIn::SubgroupGtMask) == 4418,
        built_in_code(BuiltIn::SubgroupLeMask) == 4419,
        built_in_code(BuiltIn::SubgroupLtMask) == 4420,
        built_in_code(BuiltIn::BaseVertex) == 4424,
        built_in_code(BuiltIn::BaseInstance) == 4425,
        built_in_code(BuiltIn::DrawIndex) == 4426,
        built_in_code(BuiltIn::DeviceIndex) == 4438,
        built_in_code(BuiltIn::ViewIndex) == 4440,
{
}

/// "No built-in" has the code `BuiltInMax`, and a built-in has its own code.
pub proof fn lemma_optional_built_in_code(b: BuiltIn)
    ensures
        optional_built_in_code(None) == 0x7fff_ffff,
        optional_built_in_code(Some(b)) == built_in_code(b),
{
}

/// The base type that a reflected type is of: the variant of the same name.
pub open spec fn base_type_of(t: Type) -> SPIRType {
    match t {
        Type::Unknown => SPIRType::Unknown,
        Type::Void => SPIRType::Void,
        Type::Boolean { .. } => SPIRType::Boolean,
        Type::Char { .. } => SPIRType::Char,
        Type::Int { .. } => SPIRType::Int,
        Type::UInt { .. } => SPIRType::UInt,
        Type::Int64 { .. } => SPIRType::Int64,
        Type::UInt64 { .. } => SPIRType::UInt64,
        Type::AtomicCounter { .. } => SPIRType::AtomicCounter,
        Type::Half { .. } => SPIRType::Half,
        Type::Float { .. } => SPIRType::Float,
        Type::Double { .. } => SPIRType::Double,
        Type::Struct { .. } => SPIRType::Struct,
        Type::Image { .. } => SPIRType::Image,
        Type::SampledImage { .. } => SPIRType::SampledImage,
        Type::Sampler { .. } => SPIRType::Sampler,
        Type::SByte { .. } => SPIRType::SByte,
        Type::UByte { .. } => SPIRType::UByte,
        Type::Short { .. } => SPIRType::Short,
        Type::UShort { .. } => SPIRType::UShort,
        Type::ControlPointArray => SPIRType::ControlPointArray,
        Type::AccelerationStructure => SPIRType::AccelerationStructure,
        Type::RayQuery => SPIRType::RayQuery,
        Type::Interpolant => SPIRType::Interpolant,
    }
}

/// The vector size of a reflected type, where its variant has one.
pub open spec fn vecsize_of(t: Type) -> Option<u32> {
    match t {
        Type::Boolean { vecsize, .. } => Some(vecsize),
        Type::Int { vecsize, .. } => Some(vecsize),
        Type::UInt { vecsize, .. } => Some(vecsize),
        Type::Int64 { vecsize, .. } => Some(vecsize),
        Type::UInt64 { vecsize, .. } => Some(vecsize),
        Type::Half { vecsize, .. } => Some(vecsize),
        Type::Float { vecsize, .. } => Some(vecsize),
        Type::Double { vecsize, .. } => Some(vecsize),
        Type::SByte { vecsize, .. } => Some(vecsize),
        Type::UByte { vecsize, .. } => Some(vecsize),
        Type::Short { vecsize, .. } => Some(vecsize),
        Type::UShort { vecsize, .. } => Some(vecsize),
        _ => None,
    }
}

/// The column count of a reflected type, where its variant has one.
pub open spec fn columns_of(t: Type) -> Option<u32> {
    match t {
        Type::Boolean { columns, .. } => Some(columns),
        Type::Int { columns, .. } => Some(columns),
        Type::UInt { columns, .. } => Some(columns),
        Type::Half { columns, .. } => Some(columns),
        Type::Float { columns, .. } => Some(columns),
        Type::Double { columns, .. } => Some(columns),
        _ => None,
    }
}

/// The array dimensions and their literal flags of a reflected type, where
/// its variant has them.
pub open spec fn array_of(t: Type) -> Option<(Vec<u32>, Vec<bool>)> {
    match t {
        Type::Boolean { array, array_size_literal, .. } => Some((array, array_size_literal)),
        Type::Char { array, array_size_literal } => Some((array, array_size_literal)),
        Type::Int { array, array_size_literal, .. } => Some((array, array_size_literal)),
        Type::UInt { array, array_size_literal, .. } => Some((array, array_size_literal)),
        Type::Int64 { array, array_size_literal, .. } => Some((array, array_size_literal)),
        Type::UInt64 { array, array_size_literal, .. } => Some((array, array_size_literal)),
        Type::AtomicCounter { array, array_size_literal } => Some((array, array_size_literal)),
        Type::Half { array, array_size_literal, .. } => Some((array, array_size_literal)),
        Type::Float { array, array_size_literal, .. } => Some((array, array_size_literal)),
        Type::Double { array, array_size_literal, .. } => Some((array, array_size_literal)),
        Type::Struct { array, array_size_literal, .. } => Some((array, array_size_literal)),
        Type::Image { array, array_size_literal, .. } => Some((array, array_size_literal)),
        Type::SampledImage { array, array_size_literal, .. } => Some((array, array_size_literal)),
        Type::Sampler { array, array_size_literal } => Some((array, array_size_literal)),
        Type::SByte { array, array_size_literal, .. } => Some((array, array_size_literal)),
        Type::UByte { array, array_size_literal, .. } => Some((array, array_size_literal)),
        Type::Short { array, array_size_literal, .. } => Some((array, array_size_literal)),
        Type::UShort { array, array_size_literal, .. } => Some((array, array_size_literal)),
        _ => None,
    }
}

/// A reflected type converts from SPIRV-Cross's description with the
/// variant that its base type names, and keeps the parts of the description
/// that the variant has: vector size, columns, array dimensions with their
/// literal flags, struct member types, and the converted image description.
/// A struct's member types are exactly those given.
pub proof fn lemma_type_of_raw_fields(
    ty: SPIRType,
    vecsize: u32,
    columns: u32,
    member_types: Vec<u32>,
    array: Vec<u32>,
    array_size_literal: Vec<bool>,
    image: RawImageType,
)
    ensures
        type_of_raw(ty, vecsize, columns, member_types, array, array_size_literal, image) matches Ok(t)
            ==> {
            &&& base_type_of(t) == ty
            &&& (vecsize_of(t) matches Some(v) ==> v == vecsize)
            &&& (columns_of(t) matches Some(c) ==> c == columns)
            &&& (array_of(t) matches Some(a) ==> a == (array, array_size_literal))
            &&& (t matches Type::Struct { member_types: m, .. } ==> m == member_types)
            &&& (t matches Type::Image { image: im, .. } ==> image_type_of_raw(image) == Ok::<
                ImageType,
                ErrorCode,
            >(im))
            &&& (t matches Type::SampledImage { image: im, .. } ==> image_type_of_raw(image)
                == Ok::<ImageType, ErrorCode>(im))
        },
{
}

/// A converted image description carries the raw one's fields, with the
/// dimensionality and format whose codes it gave.
pub proof fn lemma_image_type_of_raw_fields(ty: RawImageType)
    ensures
        image_type_of_raw(ty) matches Ok(it) ==> {
            &&& it.type_id == ty.type_id
            &&& dim_code(it.dim) == ty.dim
            &&& it.depth == ty.depth
            &&& it.arrayed == ty.arrayed
            &&& it.ms == ty.ms
            &&& it.sampled == ty.sampled
            &&& image_format_code(it.format) == ty.format
        },
        image_type_of_raw(ty) matches Err(e) ==> e is Unhandled,
{
}

/// A decoded value is `Ok` of the value, and a code that decodes to nothing
/// is `Unhandled`.
pub proof fn lemma_decoded<T>(x: T)
    ensures
        decoded(Some(x)) == Ok::<T, ErrorCode>(x),
        decoded(None::<T>) == Err::<T, ErrorCode>(ErrorCode::Unhandled),
{
}

} // verus!
