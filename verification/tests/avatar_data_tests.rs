use remi_osc::avatar_data::{avatar_search_step, AvatarSearchAction, AvatarSearchEvent};
use remi_osc::params::AssParam;

const DATA: &str = r#"{"id":"avtr_1","animationParameters":[
    {"name":"Nails/Almond","value":1},
    {"name":"Mat/Hue","value":0.5},
    {"name":"VelocityX","value":3},
    {"name":"Hair/LongOn","value":0}
]}"#;

#[test]
fn search_walks_the_user_directories() {
    assert!(matches!(avatar_search_step("avtr_1", AvatarSearchEvent::Started), AvatarSearchAction::NextEntry));
    assert!(matches!(avatar_search_step("avtr_1", AvatarSearchEvent::Entry(None)), AvatarSearchAction::NextEntry));
    match avatar_search_step("avtr_1", AvatarSearchEvent::Entry(Some("D\\usr_1".to_string()))) {
        AvatarSearchAction::ReadFile(path) => assert_eq!(path, "D\\usr_1\\avtr_1"),
        _ => panic!("expected a file read"),
    }
    assert!(matches!(avatar_search_step("avtr_1", AvatarSearchEvent::FileRead(None)), AvatarSearchAction::NextEntry));
    assert!(matches!(avatar_search_step("avtr_1", AvatarSearchEvent::Exhausted), AvatarSearchAction::Done(None)));
}

#[test]
fn invalid_json_ends_with_no_parameters() {
    let a = avatar_search_step("a", AvatarSearchEvent::FileRead(Some("{ not json".to_string())));
    assert!(matches!(a, AvatarSearchAction::Invalid(_)));
    let a = avatar_search_step("a", AvatarSearchEvent::FileRead(Some(String::new())));
    assert!(matches!(a, AvatarSearchAction::Invalid(_)));
}

#[test]
fn file_entries_are_read_out_of_the_json() {
    let raw = match avatar_search_step("a", AvatarSearchEvent::FileRead(Some(DATA.to_string()))) {
        AvatarSearchAction::Narrow(raw) => raw,
        _ => panic!("expected entries"),
    };
    assert_eq!(raw.len(), 4);
    assert_eq!(raw[0].name_json, "\"Nails/Almond\"");
    assert_eq!(raw[0].int_value, Some(1));
    assert_eq!(raw[0].f64_bits, Some(1.0f64.to_bits()));
    assert_eq!(raw[1].name_json, "\"Mat/Hue\"");
    assert_eq!(raw[1].int_value, None);
    assert_eq!(raw[1].f64_bits, Some(0.5f64.to_bits()));
    let bits: Vec<Option<u32>> =
        raw.iter().map(|p| p.f64_bits.map(|b| (f64::from_bits(b) as f32).to_bits())).collect();
    let m = match avatar_search_step("a", AvatarSearchEvent::Narrowed(raw, bits)) {
        AvatarSearchAction::Done(Some(m)) => m,
        _ => panic!("expected parameters"),
    };
    assert_eq!(m.len(), 56);
    assert_eq!(m.get("Nails/Almond"), Some(AssParam::Bool(true)));
    assert_eq!(m.get("Mat/Hue"), Some(AssParam::Float(0.5f32.to_bits())));
    assert_eq!(m.get("Hair/LongOn"), Some(AssParam::Bool(false)));
    assert_eq!(m.get("VelocityX"), None);
}

#[test]
fn json_without_parameters_gives_the_starting_list() {
    let raw = match avatar_search_step("a", AvatarSearchEvent::FileRead(Some("{\"x\":1}".to_string()))) {
        AvatarSearchAction::Narrow(raw) => raw,
        _ => panic!("expected entries"),
    };
    assert!(raw.is_empty());
    match avatar_search_step("a", AvatarSearchEvent::Narrowed(raw, vec![])) {
        AvatarSearchAction::Done(Some(m)) => {
            assert_eq!(m.len(), 56);
            assert_eq!(m.get("Toggles/SwimsuitOn"), Some(AssParam::Bool(true)));
        }
        _ => panic!("expected parameters"),
    }
}
