use remi_osc::params::{
    new_parameter_list, vrc_state_to_map, AnimationParameter, AssParam,
    ParameterList,
};

fn entry(name_json: &str, int_value: Option<i64>, float_bits: Option<u32>) -> AnimationParameter {
    AnimationParameter { name_json: name_json.to_string(), int_value, float_bits }
}

#[test]
fn new_parameter_list_has_the_tracked_parameters() {
    let m = new_parameter_list();
    assert_eq!(m.len(), 56);
    assert_eq!(m.get("Toggles/SwimsuitOn"), Some(AssParam::Bool(true)));
    assert_eq!(m.get("Toggles/Tops/CropOn"), Some(AssParam::Bool(false)));
    assert_eq!(m.get("Nails/Stilletto"), Some(AssParam::Bool(true)));
    assert_eq!(m.get("Mat/Hue"), Some(AssParam::Float(0)));
    assert_eq!(m.get("Mat/Colors/HairHue"), Some(AssParam::Float(0)));
    assert_eq!(m.get("Mat/Colors/CropDark"), Some(AssParam::Bool(true)));
    assert_eq!(m.get("Unknown/Param"), None);
    assert!(!m.contains_key("VelocityX"));
}

#[test]
fn insert_then_get_gives_value() {
    let mut m = ParameterList::new();
    assert_eq!(m.len(), 0);
    m.insert("A", AssParam::Bool(true));
    m.insert("B", AssParam::Float(7));
    m.insert("A", AssParam::Bool(false));
    assert_eq!(m.len(), 2);
    assert_eq!(m.get("A"), Some(AssParam::Bool(false)));
    assert_eq!(m.get("B"), Some(AssParam::Float(7)));
    let v = m.to_vec();
    assert_eq!(v.len(), 2);
    assert!(v.contains(&("A".to_string(), AssParam::Bool(false))));
}

#[test]
fn vrc_state_fills_tracked_parameters_only() {
    let hue_bits = 0.5f32.to_bits();
    let params = vec![
        entry("\"Nails/Almond\"", Some(1), Some(1.0f32.to_bits())),
        entry("\"Toggles/SwimsuitOn\"", Some(0), Some(0.0f32.to_bits())),
        entry("\"Mat/Hue\"", None, Some(hue_bits)),
        entry("\"Mat/Colors/HairHue\"", Some(3), None),
        entry("\"VelocityZ\"", Some(1), Some(1.0f32.to_bits())),
        entry("\"Hair/LongOn\"", Some(2), Some(2.0f32.to_bits())),
        entry("null", None, None),
    ];
    let m = vrc_state_to_map(&params);
    assert_eq!(m.len(), 56);
    assert_eq!(m.get("Nails/Almond"), Some(AssParam::Bool(true)));
    assert_eq!(m.get("Toggles/SwimsuitOn"), Some(AssParam::Bool(false)));
    assert_eq!(m.get("Mat/Hue"), Some(AssParam::Float(hue_bits)));
    // a float parameter whose value is no number reads as 0.0
    assert_eq!(m.get("Mat/Colors/HairHue"), Some(AssParam::Float(0)));
    assert_eq!(m.get("Hair/LongOn"), Some(AssParam::Bool(false)));
    assert_eq!(m.get("VelocityZ"), None);
    // untouched parameters keep their starting values
    assert_eq!(m.get("Nails/Stilletto"), Some(AssParam::Bool(true)));
}

#[test]
fn hue_without_float_value_reads_zero() {
    let m = vrc_state_to_map(&vec![entry("\"Mat/Colors/HairHue\"", Some(3), None)]);
    assert_eq!(m.get("Mat/Colors/HairHue"), Some(AssParam::Float(0)));
}

#[test]
fn later_entry_for_a_name_decides() {
    let m = vrc_state_to_map(&vec![
        entry("\"Hair/PonyOn\"", Some(1), None),
        entry("\"Hair/PonyOn\"", Some(0), None),
    ]);
    assert_eq!(m.get("Hair/PonyOn"), Some(AssParam::Bool(false)));
}

#[test]
fn parameters_are_floats_exactly_for_hue_names() {
    let params = vec![
        entry("\"Mat/Hue\"", Some(1), Some(2.0f32.to_bits())),
        entry("\"Hair/LongOn\"", Some(0), Some(0.0f32.to_bits())),
    ];
    for m in [new_parameter_list(), vrc_state_to_map(&params)] {
        let all = m.to_vec();
        assert_eq!(all.len(), 56);
        for (name, value) in all {
            assert_eq!(matches!(value, AssParam::Float(_)), name.contains("Hue"), "{}", name);
        }
    }
}
