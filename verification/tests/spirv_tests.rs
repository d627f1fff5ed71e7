use spirv_cross::c_string::c_compatible;
use spirv_cross::compiler::{
    active_interface_variables, check_interface_variable_names, entry_points_from_raw,
    split_scalar_constant, RawEntryPoint,
};
use spirv_cross::error::ErrorCode;
use spirv_cross::spirv::{
    built_in_as_raw, BuiltIn, Decoration, Dim, ExecutionModel, ImageFormat, ImageType,
    RawImageType, Resource, SPIRType, Type,
};

#[test]
fn execution_model_round_trips() {
    let models = [
        ExecutionModel::Vertex,
        ExecutionModel::TessellationControl,
        ExecutionModel::TessellationEvaluation,
        ExecutionModel::Geometry,
        ExecutionModel::Fragment,
        ExecutionModel::GlCompute,
        ExecutionModel::Kernel,
    ];
    for (i, m) in models.iter().enumerate() {
        assert_eq!(m.as_raw(), i as u32);
        assert_eq!(ExecutionModel::from_raw(m.as_raw()).unwrap(), *m);
    }
}

#[test]
fn unknown_execution_model_is_unhandled() {
    assert!(matches!(ExecutionModel::from_raw(7), Err(ErrorCode::Unhandled)));
    assert!(matches!(ExecutionModel::from_raw(5267), Err(ErrorCode::Unhandled)));
}

#[test]
fn decoration_codes() {
    assert_eq!(Decoration::RelaxedPrecision.as_raw(), 0);
    assert_eq!(Decoration::BuiltIn.as_raw(), 11);
    assert_eq!(Decoration::NoPerspective.as_raw(), 13);
    assert_eq!(Decoration::SaturatedConversion.as_raw(), 28);
    assert_eq!(Decoration::Location.as_raw(), 30);
    assert_eq!(Decoration::Binding.as_raw(), 33);
    assert_eq!(Decoration::DescriptorSet.as_raw(), 34);
    assert_eq!(Decoration::Alignment.as_raw(), 44);
    assert_eq!(Decoration::OverrideCoverageNv.as_raw(), 5248);
    assert_eq!(Decoration::SecondaryViewportRelativeNv.as_raw(), 5256);
}

#[test]
fn dim_and_format_decoding() {
    assert_eq!(Dim::from_raw(0).unwrap(), Dim::Dim1D);
    assert_eq!(Dim::from_raw(3).unwrap(), Dim::DimCube);
    assert_eq!(Dim::from_raw(6).unwrap(), Dim::DimSubpassData);
    assert!(matches!(Dim::from_raw(7), Err(ErrorCode::Unhandled)));
    assert_eq!(ImageFormat::from_raw(0).unwrap(), ImageFormat::Unknown);
    assert_eq!(ImageFormat::from_raw(4).unwrap(), ImageFormat::Rgba8);
    assert_eq!(ImageFormat::from_raw(34).unwrap(), ImageFormat::Rgb10a2ui);
    assert_eq!(ImageFormat::from_raw(41).unwrap(), ImageFormat::R64i);
    assert!(matches!(ImageFormat::from_raw(42), Err(ErrorCode::Unhandled)));
}

fn raw_image(dim: u32, format: u32) -> RawImageType {
    RawImageType { type_id: 9, dim, depth: true, arrayed: false, ms: true, sampled: 2, format }
}

#[test]
fn image_type_from_raw() {
    let image = ImageType::from_raw(raw_image(1, 3)).unwrap();
    assert_eq!(
        image,
        ImageType {
            type_id: 9,
            dim: Dim::Dim2D,
            depth: true,
            arrayed: false,
            ms: true,
            sampled: 2,
            format: ImageFormat::R32f,
        }
    );
    assert!(matches!(ImageType::from_raw(raw_image(9, 3)), Err(ErrorCode::Unhandled)));
    assert!(matches!(ImageType::from_raw(raw_image(1, 99)), Err(ErrorCode::Unhandled)));
}

#[test]
fn type_from_raw_keeps_what_the_base_type_has() {
    let t = Type::from_raw(SPIRType::Float, 4, 4, vec![], vec![2], vec![true], raw_image(99, 99))
        .unwrap();
    match t {
        Type::Float { vecsize, columns, array, array_size_literal } => {
            assert_eq!((vecsize, columns), (4, 4));
            assert_eq!(array, vec![2]);
            assert_eq!(array_size_literal, vec![true]);
        }
        other => panic!("unexpected type {:?}", other),
    }
    let t = Type::from_raw(SPIRType::Struct, 1, 1, vec![5, 6], vec![], vec![], raw_image(0, 0))
        .unwrap();
    match t {
        Type::Struct { member_types, array, .. } => {
            assert_eq!(member_types, vec![5, 6]);
            assert!(array.is_empty());
        }
        other => panic!("unexpected type {:?}", other),
    }
    let t = Type::from_raw(SPIRType::UShort, 3, 1, vec![], vec![], vec![], raw_image(0, 0)).unwrap();
    assert!(matches!(t, Type::UShort { vecsize: 3, .. }));
    let t = Type::from_raw(SPIRType::Interpolant, 3, 1, vec![], vec![], vec![], raw_image(0, 0))
        .unwrap();
    assert!(matches!(t, Type::Interpolant));
}

#[test]
fn image_types_fail_on_unhandled_images() {
    let t = Type::from_raw(SPIRType::SampledImage, 1, 1, vec![], vec![], vec![], raw_image(5, 0))
        .unwrap();
    match t {
        Type::SampledImage { image, .. } => assert_eq!(image.dim, Dim::DimBuffer),
        other => panic!("unexpected type {:?}", other),
    }
    assert!(matches!(
        Type::from_raw(SPIRType::Image, 1, 1, vec![], vec![], vec![], raw_image(7, 0)),
        Err(ErrorCode::Unhandled)
    ));
}

#[test]
fn built_in_codes() {
    assert_eq!(built_in_as_raw(None), 0x7fff_ffff);
    assert_eq!(built_in_as_raw(Some(BuiltIn::Position)), 0);
    assert_eq!(built_in_as_raw(Some(BuiltIn::FragDepth)), 22);
    assert_eq!(built_in_as_raw(Some(BuiltIn::ViewIndex)), 4440);
}

#[test]
fn scalar_constant_splits_into_words() {
    assert_eq!(split_scalar_constant(0x1234_5678_9abc_def0), (0x1234_5678, 0x9abc_def0));
    assert_eq!(split_scalar_constant(u64::MAX), (u32::MAX, u32::MAX));
    assert_eq!(split_scalar_constant(7), (0, 7));
    let (high, low) = split_scalar_constant(0xdead_beef_0000_0001);
    assert_eq!(((high as u64) << 32) | low as u64, 0xdead_beef_0000_0001);
}

fn raw_entry(name: &str, model: u32) -> RawEntryPoint {
    RawEntryPoint {
        name: name.to_string(),
        execution_model: model,
        work_group_size_x: 8,
        work_group_size_y: 4,
        work_group_size_z: 1,
    }
}

#[test]
fn entry_points_decode() {
    let points = entry_points_from_raw(&vec![raw_entry("main", 0), raw_entry("cs", 5)]).unwrap();
    assert_eq!(points.len(), 2);
    assert_eq!(points[0].name, "main");
    assert_eq!(points[0].execution_model, ExecutionModel::Vertex);
    assert_eq!(points[1].execution_model, ExecutionModel::GlCompute);
    assert_eq!((points[1].work_group_size.x, points[1].work_group_size.y), (8, 4));
    assert!(matches!(
        entry_points_from_raw(&vec![raw_entry("main", 0), raw_entry("task", 5267)]),
        Err(ErrorCode::Unhandled)
    ));
    assert!(entry_points_from_raw(&vec![]).unwrap().is_empty());
}

#[test]
fn interface_variables_form_a_set() {
    let set = active_interface_variables(&vec![4, 2, 4, 9]);
    assert_eq!(set.len(), 3);
    assert!(set.contains(&4) && set.contains(&2) && set.contains(&9));
    assert!(!set.contains(&3));
}

fn resource(name: &str) -> Resource {
    Resource { id: 1, type_id: 2, base_type_id: 3, name: name.to_string() }
}

#[test]
fn interface_variable_names_must_be_c_strings() {
    assert!(check_interface_variable_names(&[resource("a"), resource("b")], "c").is_ok());
    assert!(matches!(
        check_interface_variable_names(&[resource("a"), resource("b\0")], "c"),
        Err(ErrorCode::Unhandled)
    ));
    assert!(matches!(
        check_interface_variable_names(&[resource("a")], "\0"),
        Err(ErrorCode::Unhandled)
    ));
}

#[test]
fn c_strings_have_no_nul() {
    assert!(c_compatible("main"));
    assert!(c_compatible(""));
    assert!(c_compatible("héllo"));
    assert!(!c_compatible("ma\0in"));
    assert!(!c_compatible("\0"));
}
