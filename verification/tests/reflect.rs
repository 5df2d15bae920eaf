use ash::vk;
use styro::reflect::{
    c_string, entry_points_supported, shader_infos, shader_stage_flags, stage_named, Binding,
    OutputParameter, ParameterType, SREntryPoint, ShaderStage, SR,
};

fn scalar() -> ParameterType {
    ParameterType {
        kind: "scalar".to_string(),
        scalar_type: Some("uint32".to_string()),
        name: None,
        fields: None,
        element_count: None,
        element_type: None,
    }
}

fn entry(name: &str, stage: &str) -> SREntryPoint {
    SREntryPoint {
        name: name.to_string(),
        stage: stage.to_string(),
        parameters: vec![],
        result: OutputParameter {
            ty: scalar(),
            stage: None,
            binding: Some(Binding { kind: "varyingOutput".to_string(), index: Some(0), count: None }),
        },
    }
}

#[test]
fn stages_by_name() {
    assert_eq!(stage_named(&"vertex".to_string()), Some(ShaderStage::Vertex));
    assert_eq!(stage_named(&"fragment".to_string()), Some(ShaderStage::Fragment));
    assert_eq!(stage_named(&"compute".to_string()), None);
    assert_eq!(entry("f", "fragment").shader_stage(), ShaderStage::Fragment);
}

#[test]
fn stage_flags_match_vulkan() {
    assert_eq!(shader_stage_flags(ShaderStage::Vertex), vk::ShaderStageFlags::VERTEX.as_raw());
    assert_eq!(shader_stage_flags(ShaderStage::Fragment), vk::ShaderStageFlags::FRAGMENT.as_raw());
}

#[test]
fn c_strings_end_in_nul() {
    assert_eq!(c_string(b"vertMain"), b"vertMain\0".to_vec());
    assert_eq!(c_string(b""), vec![0u8]);
}

#[test]
fn reflection_lists_each_entry_point() {
    let sr = SR {
        entry_points: vec![entry("vertMain", "vertex"), entry("fragMain", "fragment")],
        bindless_space_index: 0,
    };
    assert!(entry_points_supported(&sr.entry_points));
    let infos = shader_infos(&sr);
    assert_eq!(infos.len(), 2);
    assert_eq!(infos[0].entry_point, b"vertMain\0".to_vec());
    assert_eq!(infos[0].stage, ShaderStage::Vertex);
    assert_eq!(infos[1].entry_point, b"fragMain\0".to_vec());
    assert_eq!(infos[1].stage, ShaderStage::Fragment);
}

#[test]
fn unsupported_entry_points_are_detected() {
    assert!(!entry_points_supported(&vec![entry("main", "geometry")]));
    assert!(!entry_points_supported(&vec![entry("a\0b", "vertex")]));
    assert!(entry_points_supported(&vec![]));
}
