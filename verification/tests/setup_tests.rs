use remi_osc::setup::{
    dir_setup_step, net_setup_step, DirSetupAction, DirSetupEvent, NetSetupAction, NetSetupEvent,
};

#[test]
fn missing_root_is_made_and_used() {
    assert_eq!(dir_setup_step("R", "A", DirSetupEvent::Started), DirSetupAction::CheckRoot);
    assert_eq!(dir_setup_step("R", "A", DirSetupEvent::RootChecked(false)), DirSetupAction::CreateRoot);
    assert_eq!(
        dir_setup_step("R", "A", DirSetupEvent::RootCreated(true)),
        DirSetupAction::Done(Ok("R".to_string()))
    );
    assert_eq!(
        dir_setup_step("R", "A", DirSetupEvent::RootCreated(false)),
        DirSetupAction::Done(Err("Failed to create Ass root directory.".to_string()))
    );
}

#[test]
fn existing_root_checks_the_avatars_directory() {
    assert_eq!(dir_setup_step("R", "A", DirSetupEvent::RootChecked(true)), DirSetupAction::CheckAvatars);
    assert_eq!(
        dir_setup_step("R", "A", DirSetupEvent::AvatarsChecked(true)),
        DirSetupAction::Done(Ok("R".to_string()))
    );
    assert_eq!(dir_setup_step("R", "A", DirSetupEvent::AvatarsChecked(false)), DirSetupAction::CreateAvatars);
    // a newly made avatars directory is what the set-up hands back
    assert_eq!(
        dir_setup_step("R", "A", DirSetupEvent::AvatarsCreated(true)),
        DirSetupAction::Done(Ok("A".to_string()))
    );
    assert_eq!(
        dir_setup_step("R", "A", DirSetupEvent::AvatarsCreated(false)),
        DirSetupAction::Done(Err("Failed to create Avatars directory.".to_string()))
    );
}

#[test]
fn settings_set_up_paths() {
    assert_eq!(net_setup_step(NetSetupEvent::Started), NetSetupAction::CheckDir);
    assert_eq!(net_setup_step(NetSetupEvent::DirChecked(false)), NetSetupAction::CreateDir);
    assert_eq!(net_setup_step(NetSetupEvent::DirCreated(true)), NetSetupAction::WriteDefault);
    assert_eq!(net_setup_step(NetSetupEvent::DirCreated(false)), NetSetupAction::CheckFile);
    assert_eq!(net_setup_step(NetSetupEvent::DirChecked(true)), NetSetupAction::CheckFile);
    assert_eq!(net_setup_step(NetSetupEvent::FileChecked(true)), NetSetupAction::ReadConfig);
    assert_eq!(net_setup_step(NetSetupEvent::FileChecked(false)), NetSetupAction::WriteDefault);
    assert_eq!(net_setup_step(NetSetupEvent::DefaultWritten), NetSetupAction::ReadConfig);
}

#[test]
fn runs_end_with_a_directory_only_when_it_is_there() {
    // found root, missing avatars directory, made it: the avatars directory
    let mut event = DirSetupEvent::Started;
    let answers = [
        DirSetupEvent::RootChecked(true),
        DirSetupEvent::AvatarsChecked(false),
        DirSetupEvent::AvatarsCreated(true),
    ];
    for a in answers {
        assert!(!matches!(dir_setup_step("R", "A", event), DirSetupAction::Done(_)));
        event = a;
    }
    assert_eq!(dir_setup_step("R", "A", event), DirSetupAction::Done(Ok("A".to_string())));
}
