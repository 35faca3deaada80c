use remi_osc::osc::{OscArg, PacketError};
use remi_osc::params::{new_parameter_list, AssParam};
use remi_osc::session::{haptic_reset_parameter, parse_id, Action, Hand, Session};

fn session_with_defaults() -> Session {
    let mut s = Session::new();
    s.adopt_loaded(Some(new_parameter_list()));
    s
}

fn encode(addr: &str, args: Vec<rosc::OscType>) -> Vec<u8> {
    rosc::encoder::encode(&rosc::OscPacket::Message(rosc::OscMessage {
        addr: addr.to_string(),
        args,
    }))
    .unwrap()
}

#[test]
fn avatar_change_asks_to_load_and_ends_saving() {
    let mut s = session_with_defaults();
    s.is_saving = true;
    s.avatar_id = "old".to_string();
    let args = vec![OscArg::Str("avtr_123".to_string())];
    assert!(s.handles("/avatar/change", &args));
    let a = s.handle_message("/avatar/change", &args);
    assert_eq!(a, Action::LoadAvatar("avtr_123".to_string()));
    assert!(!s.is_saving);
    // the kept id is not replaced by the new one
    assert_eq!(s.avatar_id, "old");
}

#[test]
fn avatar_change_without_id_empties_the_id() {
    let mut s = session_with_defaults();
    s.avatar_id = "old".to_string();
    let a = s.handle_message("/avatar/change", &vec![OscArg::Bool(true)]);
    assert_eq!(a, Action::AvatarIdMissing);
    assert_eq!(s.avatar_id, "");
}

#[test]
fn avatar_change_needs_an_argument() {
    let s = session_with_defaults();
    assert!(!s.handles("/avatar/change", &vec![]));
}

#[test]
fn haptics_pulse_the_named_hand() {
    let mut s = session_with_defaults();
    let a = s.handle_message("/avatar/parameters/OSC/Haptics/Right", &vec![OscArg::Bool(true)]);
    assert_eq!(a, Action::Haptic(Hand::Right));
    let a = s.handle_message("/avatar/parameters/OSC/Haptics/Left", &vec![]);
    assert_eq!(a, Action::Haptic(Hand::Left));
    let a = s.handle_message("/avatar/parameters/OSC/Haptics", &vec![]);
    assert_eq!(a, Action::Ignore);
    // an underscore turns the haptics check off; the address is then no parameter
    let a = s.handle_message("/avatar/parameters/OSC/Haptics_Right", &vec![OscArg::Bool(true)]);
    assert_eq!(a, Action::Ignore);
    assert_eq!(haptic_reset_parameter(Hand::Right), "avatar/parameters/OSC/Haptics/Right");
    assert_eq!(haptic_reset_parameter(Hand::Left), "avatar/parameters/OSC/Haptics/Left");
}

#[test]
fn tracked_parameter_takes_received_value() {
    let mut s = session_with_defaults();
    let a = s.handle_message("/avatar/parameters/Nails/Almond", &vec![OscArg::Bool(true)]);
    assert_eq!(a, Action::Received("Nails/Almond".to_string(), AssParam::Bool(true)));
    assert_eq!(s.state.get("Nails/Almond"), Some(AssParam::Bool(true)));
    let bits = 0.25f32.to_bits();
    let a = s.handle_message("/avatar/parameters/Mat/Hue", &vec![OscArg::Float(bits)]);
    assert_eq!(a, Action::Received("Mat/Hue".to_string(), AssParam::Float(bits)));
    assert_eq!(s.state.get("Mat/Hue"), Some(AssParam::Float(bits)));
    let a = s.handle_message("/avatar/parameters/Mat/Hue", &vec![OscArg::Str("x".to_string())]);
    assert_eq!(a, Action::Ignore);
    assert_eq!(s.state.get("Mat/Hue"), Some(AssParam::Float(bits)));
    assert_eq!(s.state.len(), 56);
}

#[test]
fn untracked_parameter_changes_nothing() {
    let mut s = session_with_defaults();
    let a = s.handle_message("/avatar/parameters/VelocityX", &vec![OscArg::Float(1)]);
    assert_eq!(a, Action::Ignore);
    assert_eq!(s.state.get("VelocityX"), None);
    assert_eq!(s.state.len(), 56);
}

#[test]
fn fresh_session_tracks_nothing() {
    let mut s = Session::new();
    let a = s.handle_message("/avatar/parameters/Nails/Almond", &vec![OscArg::Bool(true)]);
    assert_eq!(a, Action::Ignore);
    assert_eq!(s.state.len(), 0);
}

#[test]
fn saving_mode_decides_save_or_send() {
    let mut s = session_with_defaults();
    let a = s.handle_message("/avatar/parameters/OSC/IsSaving", &vec![OscArg::Bool(true)]);
    assert_eq!(a, Action::SavingChanged(true));
    assert!(s.is_saving);
    let a = s.handle_message("/avatar/parameters/OSC/State/3", &vec![OscArg::Bool(true)]);
    assert_eq!(a, Action::SaveState(3));
    let a = s.handle_message("/avatar/parameters/OSC/IsSaving", &vec![OscArg::Bool(false)]);
    assert_eq!(a, Action::SavingChanged(false));
    let a = s.handle_message("/avatar/parameters/OSC/State/12", &vec![OscArg::Bool(true)]);
    assert_eq!(a, Action::SendState(12));
    let a = s.handle_message("/avatar/parameters/OSC/State/12", &vec![OscArg::Bool(false)]);
    assert_eq!(a, Action::Ignore);
    let a = s.handle_message("/avatar/parameters/OSC/State/-1", &vec![OscArg::Bool(true)]);
    assert_eq!(a, Action::SendState(usize::MAX));
}

#[test]
fn unhandled_messages_are_refused() {
    let s = session_with_defaults();
    // too short to hold a parameter name
    assert!(!s.handles("/short", &vec![OscArg::Bool(true)]));
    // a state command whose index is no number
    assert!(!s.handles("/avatar/parameters/OSC/State/x", &vec![OscArg::Bool(true)]));
    assert!(s.handles("/avatar/parameters/OSC/State/x", &vec![OscArg::Bool(false)]));
    assert!(!s.handles("/avatar/parameters/OSC/IsSaving", &vec![]));
    assert!(!s.handles("/avatar/parameters/Nails/Almond", &vec![]));
    // a multi-byte character across byte 19
    assert!(!s.handles("/avatar/parameterséX", &vec![]));
    assert!(s.handles("/avatar/parameters/Unrelated", &vec![]));
}

#[test]
fn parse_id_takes_a_string_argument() {
    assert_eq!(parse_id(&vec![OscArg::Str("a".to_string())]), Some("a".to_string()));
    assert_eq!(parse_id(&vec![OscArg::Float(3), OscArg::Str("a".to_string())]), None);
}

#[test]
fn datagrams_are_decoded_and_handled() {
    let mut s = session_with_defaults();
    let bytes = encode("/avatar/parameters/Hair/PonyOn", vec![rosc::OscType::Bool(true)]);
    let a = s.handle_datagram(&bytes);
    assert_eq!(a, Ok(Action::Received("Hair/PonyOn".to_string(), AssParam::Bool(true))));
    assert_eq!(s.state.get("Hair/PonyOn"), Some(AssParam::Bool(true)));
    let bytes = encode("/avatar/parameters/Mat/Hue", vec![rosc::OscType::Float(0.75)]);
    let a = s.handle_datagram(&bytes);
    assert_eq!(a, Ok(Action::Received("Mat/Hue".to_string(), AssParam::Float(0.75f32.to_bits()))));
    let bytes = encode("/avatar/change", vec![rosc::OscType::String("avtr_x".to_string())]);
    assert_eq!(s.handle_datagram(&bytes), Ok(Action::LoadAvatar("avtr_x".to_string())));
    // trailing zero bytes after the packet, as in a receive buffer
    let mut padded = encode("/avatar/parameters/OSC/IsSaving", vec![rosc::OscType::Bool(true)]);
    padded.resize(1536, 0);
    assert_eq!(s.handle_datagram(&padded), Ok(Action::SavingChanged(true)));
}

#[test]
fn bad_datagrams_are_reported() {
    let mut s = session_with_defaults();
    assert_eq!(s.handle_datagram(&[1, 2, 3]), Err(PacketError::Undecodable));
    let bytes = encode("/avatar/change", vec![]);
    assert_eq!(s.handle_datagram(&bytes), Err(PacketError::Unhandled));
    let bytes = encode("/x", vec![rosc::OscType::Bool(true)]);
    assert_eq!(s.handle_datagram(&bytes), Err(PacketError::Unhandled));
    assert_eq!(s.state.len(), 56);
}
