use remi_osc::paths::{
    ass_dir_in, avatar_data_dir_in, avatar_file_path, dir_exists,
    facetracking_fix_dir_in, file_exists, get_ass_dir, get_facetracking_fix_dir,
    net_config_dir_in, net_config_file_in, state_file_path,
};

#[test]
fn directories_below_home() {
    assert_eq!(ass_dir_in("C:\\Users\\remi"), "C:\\Users\\remi\\AppData\\LocalLow\\VRChat\\VRChat\\OSC\\ASS\\States");
    assert_eq!(
        facetracking_fix_dir_in("C:\\Users\\remi"),
        "C:\\Users\\remi\\AppData\\LocalLow\\VRChat\\VRChat\\OSC\\ASS\\Avatars"
    );
    assert_eq!(
        avatar_data_dir_in("/home/r"),
        "/home/r\\AppData\\LocalLow\\VRChat\\VRChat\\LocalAvatarData"
    );
    let dir = net_config_dir_in("H");
    assert_eq!(dir, "H\\AppData\\LocalLow\\VRChat\\VRChat\\OSC\\ASS\\NetConfig");
    assert_eq!(net_config_file_in(&dir), "H\\AppData\\LocalLow\\VRChat\\VRChat\\OSC\\ASS\\NetConfig\\NetConfig.json");
}

#[test]
fn file_names() {
    assert_eq!(avatar_file_path("D\\usr_1", "avtr_2"), "D\\usr_1\\avtr_2");
    assert_eq!(state_file_path("S", 0), "S\\state_0.json");
    assert_eq!(state_file_path("S", 17), "S\\state_17.json");
    assert_eq!(state_file_path("S", usize::MAX), format!("S\\state_{}.json", usize::MAX));
}

#[test]
fn home_based_directories_end_in_their_suffix() {
    if let Ok(d) = get_ass_dir() {
        assert!(d.ends_with("\\AppData\\LocalLow\\VRChat\\VRChat\\OSC\\ASS\\States"));
    }
    if let Ok(d) = get_facetracking_fix_dir() {
        assert!(d.ends_with("\\AppData\\LocalLow\\VRChat\\VRChat\\OSC\\ASS\\Avatars"));
    }
}

#[test]
fn existence_checks_look_at_disk() {
    let here = ".".to_string();
    assert!(dir_exists(&here));
    assert!(!file_exists(&here));
    assert!(!dir_exists(&"/no/such/dir/remi".to_string()));
}
