use spirv_cross::error::ErrorCode;
use spirv_cross::msl;
use spirv_cross::compiler::RawEntryPoint;
use spirv_cross::msl::{
    prepare_compiler_options, resolve_entry_point, EntryPointSelection, ComponentSwizzle, CompilerOptions, Format, LodBase16, Rate,
    ResourceBinding, ResourceBindingLocation, SamplerAddress, SamplerBorderColor,
    SamplerCompareFunc, SamplerCoord, SamplerData, SamplerFilter, SamplerLocation,
    SamplerMipFilter, VertexAttribute, VertexAttributeLocation,
};
use spirv_cross::spirv::{BuiltIn, ExecutionModel, SPIRType};

#[test]
fn msl_compiler_options_has_default() {
    let compiler_options = msl::CompilerOptions::default();
    assert_eq!(compiler_options.vertex.invert_y, false);
    assert_eq!(compiler_options.vertex.transform_clip_space, false);
    assert!(compiler_options.resource_binding_overrides.is_empty());
    assert!(compiler_options.vertex_attribute_overrides.is_empty());
}

#[test]
fn default_options_convert_to_native_defaults() {
    let options = CompilerOptions::default();
    let config = prepare_compiler_options(&options).unwrap();
    assert!(matches!(config.entry_point, EntryPointSelection::First));
    assert_eq!(config.options.platform, 1);
    assert_eq!(config.options.version, 10200);
    assert_eq!(config.options.disable_rasterization, false);
    assert_eq!(config.options.enable_point_size_builtin, true);
    assert_eq!(config.options.swizzle_buffer_index, 30);
    assert_eq!(config.options.indirect_params_buffer_index, 29);
    assert_eq!(config.options.shader_output_buffer_index, 28);
    assert_eq!(config.options.shader_patch_output_buffer_index, 27);
    assert_eq!(config.options.shader_tess_factor_buffer_index, 26);
    assert_eq!(config.options.buffer_size_buffer_index, 25);
    assert!(config.target_data.resource_binding_overrides.is_empty());
    assert!(config.target_data.vertex_attribute_overrides.is_empty());
    assert!(config.target_data.const_samplers.is_empty());
}

#[test]
fn disabling_rasterization_sets_the_native_flag() {
    let mut options = CompilerOptions::default();
    options.enable_rasterization = false;
    options.platform = msl::Platform::iOS;
    options.version = msl::Version::V2_3;
    let config = prepare_compiler_options(&options).unwrap();
    assert_eq!(config.options.disable_rasterization, true);
    assert_eq!(config.options.platform, 0);
    assert_eq!(config.options.version, 20300);
}

#[test]
fn entry_point_with_nul_is_unhandled() {
    let mut options = CompilerOptions::default();
    options.entry_point = Some(("ma\0in".to_string(), ExecutionModel::Vertex));
    assert!(matches!(prepare_compiler_options(&options), Err(ErrorCode::Unhandled)));
}

#[test]
fn entry_point_is_passed_with_its_model_code() {
    let mut options = CompilerOptions::default();
    options.entry_point = Some(("main".to_string(), ExecutionModel::Fragment));
    let config = prepare_compiler_options(&options).unwrap();
    match config.entry_point {
        EntryPointSelection::Named { name, execution_model } => {
            assert_eq!(name, "main");
            assert_eq!(execution_model, 4);
        }
        EntryPointSelection::First => panic!("a named entry point was expected"),
    }
}

fn binding(buffer_id: u32) -> ResourceBinding {
    ResourceBinding {
        buffer_id,
        texture_id: buffer_id + 1,
        sampler_id: buffer_id + 2,
        base_type: None,
        count: 1,
    }
}

#[test]
fn resource_bindings_come_out_in_key_order() {
    let mut options = CompilerOptions::default();
    let keys = [
        (ExecutionModel::Fragment, 0, 1),
        (ExecutionModel::Vertex, 2, 0),
        (ExecutionModel::Vertex, 0, 3),
        (ExecutionModel::Vertex, 0, 1),
    ];
    for (i, (stage, desc_set, b)) in keys.iter().enumerate() {
        let old = options.resource_binding_overrides.insert(
            ResourceBindingLocation { stage: *stage, desc_set: *desc_set, binding: *b },
            binding(10 * i as u32),
        );
        assert!(old.is_none());
    }
    let config = prepare_compiler_options(&options).unwrap();
    let table = &config.target_data.resource_binding_overrides;
    let order: Vec<(u32, u32, u32, u32)> = table
        .iter()
        .map(|r| (r.stage, r.desc_set, r.binding, r.msl_buffer))
        .collect();
    assert_eq!(order, vec![(0, 0, 1, 30), (0, 0, 3, 20), (0, 2, 0, 10), (4, 0, 1, 0)]);
    assert_eq!(table[0].basetype, SPIRType::Unknown);
    assert_eq!(table[0].msl_texture, 31);
    assert_eq!(table[0].msl_sampler, 32);
}

#[test]
fn inserting_an_existing_key_replaces_its_value() {
    let mut options = CompilerOptions::default();
    let loc = ResourceBindingLocation { stage: ExecutionModel::Vertex, desc_set: 0, binding: 0 };
    assert!(options.resource_binding_overrides.insert(loc.clone(), binding(1)).is_none());
    let old = options.resource_binding_overrides.insert(loc.clone(), binding(5));
    assert_eq!(old, Some(binding(1)));
    assert_eq!(options.resource_binding_overrides.get(&loc), Some(&binding(5)));
    assert_eq!(options.resource_binding_overrides.entries().len(), 1);
    let other = ResourceBindingLocation { stage: ExecutionModel::Vertex, desc_set: 0, binding: 1 };
    assert_eq!(options.resource_binding_overrides.get(&other), None);
}

#[test]
fn resource_binding_keeps_its_base_type() {
    let mut options = CompilerOptions::default();
    let mut b = binding(7);
    b.base_type = Some(SPIRType::Float);
    options.resource_binding_overrides.insert(
        ResourceBindingLocation { stage: ExecutionModel::Kernel, desc_set: 3, binding: 4 },
        b,
    );
    let config = prepare_compiler_options(&options).unwrap();
    let raw = config.target_data.resource_binding_overrides[0];
    assert_eq!(raw.basetype, SPIRType::Float);
    assert_eq!(raw.stage, 6);
    assert_eq!(raw.desc_set, 3);
    assert_eq!(raw.binding, 4);
}

#[test]
fn vertex_attribute_keeps_location_and_component() {
    let mut options = CompilerOptions::default();
    options.vertex_attribute_overrides.insert(
        VertexAttributeLocation { location: 2, component: 1 },
        VertexAttribute {
            buffer_id: 0,
            format: Format::Uint16,
            built_in: Some(BuiltIn::Position),
            vecsize: 4,
            rate: Rate::PerPrimitive,
        },
    );
    options.vertex_attribute_overrides.insert(
        VertexAttributeLocation { location: 1, component: 3 },
        VertexAttribute {
            buffer_id: 0,
            format: Format::Other,
            built_in: None,
            vecsize: 2,
            rate: Rate::PerVertex,
        },
    );
    let config = prepare_compiler_options(&options).unwrap();
    let table = &config.target_data.vertex_attribute_overrides;
    assert_eq!(table.len(), 2);
    assert_eq!((table[0].location, table[0].component), (1, 3));
    assert_eq!(table[0].format, 0);
    assert_eq!(table[0].builtin, 0x7fff_ffff);
    assert_eq!(table[0].rate, 0);
    assert_eq!((table[1].location, table[1].component), (2, 1));
    assert_eq!(table[1].format, 2);
    assert_eq!(table[1].builtin, 0);
    assert_eq!(table[1].vecsize, 4);
    assert_eq!(table[1].rate, 1);
}

fn sampler(compare_func: SamplerCompareFunc, min: u8, max: u8, max_anisotropy: i32) -> SamplerData {
    SamplerData {
        coord: SamplerCoord::Pixel,
        min_filter: SamplerFilter::Linear,
        mag_filter: SamplerFilter::Nearest,
        mip_filter: SamplerMipFilter::Disabled,
        s_address: SamplerAddress::MirroredRepeat,
        t_address: SamplerAddress::ClampToBorder,
        r_address: SamplerAddress::ClampToZero,
        compare_func,
        border_color: SamplerBorderColor::OpaqueWhite,
        lod_clamp_min: LodBase16::from_steps(min),
        lod_clamp_max: LodBase16::from_steps(max),
        max_anisotropy,
        planes: 2,
        resolution: msl::FormatResolution::_420,
        chroma_filter: SamplerFilter::Linear,
        x_chroma_offset: msl::ChromaLocation::LocationMidpoint,
        y_chroma_offset: msl::ChromaLocation::CositedEven,
        swizzle: [
            ComponentSwizzle::A,
            ComponentSwizzle::Identity,
            ComponentSwizzle::One,
            ComponentSwizzle::B,
        ],
        ycbcr_conversion_enable: true,
        ycbcr_model: msl::SamplerYCbCrModelConversion::YCbCrBt2020,
        ycbcr_range: msl::SamplerYCbCrRange::ItuNarrow,
        bpc: 8,
    }
}

#[test]
fn const_sampler_conversion() {
    let mut options = CompilerOptions::default();
    options.const_samplers.insert(
        SamplerLocation { desc_set: 1, binding: 0 },
        sampler(SamplerCompareFunc::Always, 0, 255, 0),
    );
    options.const_samplers.insert(
        SamplerLocation { desc_set: 0, binding: 5 },
        sampler(SamplerCompareFunc::Less, 0, 16, 4),
    );
    let config = prepare_compiler_options(&options).unwrap();
    let table = &config.target_data.const_samplers;
    assert_eq!((table[0].desc_set, table[0].binding), (0, 5));
    assert_eq!((table[1].desc_set, table[1].binding), (1, 0));
    let s = table[0].sampler;
    assert!(s.compare_enable);
    assert!(s.lod_clamp_enable);
    assert!(s.anisotropy_enable);
    assert_eq!(s.compare_func, 1);
    assert_eq!(s.lod_clamp_max.steps(), 16);
    let t = table[1].sampler;
    assert!(!t.compare_enable);
    assert!(!t.lod_clamp_enable);
    assert!(!t.anisotropy_enable);
    assert_eq!(t.compare_func, 7);
    assert_eq!(t.coord, 1);
    assert_eq!(t.min_filter, 1);
    assert_eq!(t.mag_filter, 0);
    assert_eq!(t.mip_filter, 0);
    assert_eq!(t.s_address, 4);
    assert_eq!(t.t_address, 2);
    assert_eq!(t.r_address, 0);
    assert_eq!(t.border_color, 2);
    assert_eq!(t.resolution, 2);
    assert_eq!(t.x_chroma_offset, 1);
    assert_eq!(t.y_chroma_offset, 0);
    assert_eq!(t.swizzle, [6, 0, 2, 5]);
    assert_eq!(t.ycbcr_model, 4);
    assert_eq!(t.ycbcr_range, 1);
    assert_eq!(t.planes, 2);
    assert_eq!(t.bpc, 8);
}

#[test]
fn lod_clamp_is_enabled_by_a_raised_minimum() {
    let mut options = CompilerOptions::default();
    options.const_samplers.insert(
        SamplerLocation { desc_set: 0, binding: 0 },
        sampler(SamplerCompareFunc::Never, 1, 255, 0),
    );
    let config = prepare_compiler_options(&options).unwrap();
    assert!(config.target_data.const_samplers[0].sampler.lod_clamp_enable);
    assert!(config.target_data.const_samplers[0].sampler.compare_enable);
    assert_eq!(config.target_data.const_samplers[0].sampler.compare_func, 0);
}

#[test]
fn lod_base16_bounds() {
    assert_eq!(LodBase16::zero().steps(), 0);
    assert_eq!(LodBase16::max_value().steps(), 255);
    assert_eq!(LodBase16::from_steps(40).steps(), 40);
}

#[test]
fn format_and_rate_codes() {
    assert_eq!(Format::Other.as_raw(), 0);
    assert_eq!(Format::Uint8.as_raw(), 1);
    assert_eq!(Format::Uint16.as_raw(), 2);
    assert_eq!(Rate::PerVertex.as_raw(), 0);
    assert_eq!(Rate::PerPrimitive.as_raw(), 1);
    assert_eq!(Rate::PerPatch.as_raw(), 2);
}

#[test]
fn version_codes() {
    assert_eq!(msl::Version::V1_0.as_raw(), 10000);
    assert_eq!(msl::Version::V1_1.as_raw(), 10100);
    assert_eq!(msl::Version::V2_0.as_raw(), 20000);
    assert_eq!(msl::Version::V2_2.as_raw(), 20200);
}

#[test]
fn cloned_options_keep_their_overrides() {
    let mut options = CompilerOptions::default();
    options.const_samplers.insert(
        SamplerLocation { desc_set: 0, binding: 0 },
        sampler(SamplerCompareFunc::Never, 1, 255, 0),
    );
    let copy = options.clone();
    assert_eq!(copy, options);
    assert_eq!(copy.const_samplers.entries().len(), 1);
}

#[test]
fn vertex_attribute_override_keeps_its_location() {
    let mut options = CompilerOptions::default();
    options.vertex_attribute_overrides.insert(
        VertexAttributeLocation { location: 1, component: 2 },
        VertexAttribute {
            buffer_id: 0,
            format: Format::Uint8,
            built_in: None,
            vecsize: 4,
            rate: Rate::PerVertex,
        },
    );
    let config = prepare_compiler_options(&options).unwrap();
    let table = &config.target_data.vertex_attribute_overrides;
    assert_eq!(table.len(), 1);
    assert_eq!(table[0].location, 1);
    assert_eq!(table[0].component, 2);
    assert_eq!(table[0].format, 1);
    assert_eq!(table[0].vecsize, 4);
    assert_eq!(table[0].rate, 0);
}

fn raw_entry(name: &str, model: u32) -> RawEntryPoint {
    RawEntryPoint {
        name: name.to_string(),
        execution_model: model,
        work_group_size_x: 1,
        work_group_size_y: 1,
        work_group_size_z: 1,
    }
}

#[test]
fn unnamed_entry_point_selects_the_first() {
    let available = vec![raw_entry("main", 0), raw_entry("other", 4)];
    assert_eq!(
        resolve_entry_point(&EntryPointSelection::First, &available),
        Some(("main".to_string(), 0))
    );
    assert_eq!(resolve_entry_point(&EntryPointSelection::First, &vec![]), None);
    let named = EntryPointSelection::Named { name: "other".to_string(), execution_model: 4 };
    assert_eq!(resolve_entry_point(&named, &available), Some(("other".to_string(), 4)));
    assert_eq!(resolve_entry_point(&named, &vec![]), Some(("other".to_string(), 4)));
}

#[test]
fn ordered_map_len_and_remove() {
    let mut options = CompilerOptions::default();
    let a = SamplerLocation { desc_set: 0, binding: 1 };
    let b = SamplerLocation { desc_set: 2, binding: 0 };
    options.const_samplers.insert(a.clone(), sampler(SamplerCompareFunc::Less, 0, 255, 0));
    options.const_samplers.insert(b.clone(), sampler(SamplerCompareFunc::Never, 0, 255, 0));
    assert_eq!(options.const_samplers.len(), 2);
    let removed = options.const_samplers.remove(&a).unwrap();
    assert_eq!(removed.compare_func, SamplerCompareFunc::Less);
    assert_eq!(options.const_samplers.len(), 1);
    assert!(options.const_samplers.remove(&a).is_none());
    assert!(options.const_samplers.get(&b).is_some());
    assert!(options.const_samplers.get(&a).is_none());
}

#[test]
fn cloned_map_keeps_each_value_at_its_key() {
    let mut options = CompilerOptions::default();
    let a = ResourceBindingLocation { stage: ExecutionModel::Vertex, desc_set: 0, binding: 0 };
    let b = ResourceBindingLocation { stage: ExecutionModel::Vertex, desc_set: 0, binding: 1 };
    options.resource_binding_overrides.insert(a.clone(), binding(1));
    options.resource_binding_overrides.insert(b.clone(), binding(7));
    let copy = options.resource_binding_overrides.clone();
    assert_eq!(copy.get(&a), Some(&binding(1)));
    assert_eq!(copy.get(&b), Some(&binding(7)));
}
