//! The start-up checks of the saver's directories and settings file: which
//! disk operation comes next, given what the last one found. The program
//! around performs each operation and reports back.
use vstd::prelude::*;

verus! {

/// What the last operation of the directory set-up found.
#[derive(Clone, Copy, Debug, PartialEq, Eq, Structural)]
pub enum DirSetupEvent {
    /// Nothing has been done yet.
    Started,
    /// Whether the saved-states directory exists.
    RootChecked(bool),
    /// Whether making the saved-states directory succeeded.
    RootCreated(bool),
    /// Whether the per-avatar directory exists.
    AvatarsChecked(bool),
    /// Whether making the per-avatar directory succeeded.
    AvatarsCreated(bool),
}

/// The next operation of the directory set-up.
#[derive(Debug, PartialEq, Eq)]
pub enum DirSetupAction {
    CheckRoot,
    CreateRoot,
    /// Check the per-avatar directory (the saved-states one was found).
    CheckAvatars,
    CreateAvatars,
    /// The set-up is over: the directory to use, or the failure message.
    Done(Result<String, String>),
}

/// The next step of setting up the directories `ass_dir` (saved states) and
/// `ft_dir` (per avatar): a missing saved-states directory is made and used
/// at once; else a missing per-avatar directory is made, and the outcome is
/// that directory; else the saved-states directory is used.
pub fn dir_setup_step(ass_dir: &str, ft_dir: &str, event: DirSetupEvent) -> (r: DirSetupAction)
    ensures
        match event {
            DirSetupEvent::Started => r == DirSetupAction::CheckRoot,
            DirSetupEvent::RootChecked(found) => r == if found {
                DirSetupAction::CheckAvatars
            } else {
                DirSetupAction::CreateRoot
            },
            DirSetupEvent::RootCreated(ok) => if ok {
                r matches DirSetupAction::Done(Ok(d)) && d@ == ass_dir@
            } else {
                r matches DirSetupAction::Done(Err(m)) && m@ == "Failed to create Ass root directory."@
            },
            DirSetupEvent::AvatarsChecked(found) => if found {
                r matches DirSetupAction::Done(Ok(d)) && d@ == ass_dir@
            } else {
                r == DirSetupAction::CreateAvatars
            },
            DirSetupEvent::AvatarsCreated(ok) => if ok {
                r matches DirSetupAction::Done(Ok(d)) && d@ == ft_dir@
            } else {
                r matches DirSetupAction::Done(Err(m)) && m@ == "Failed to create Avatars directory."@
            },
        },
{
    match event {
        DirSetupEvent::Started => DirSetupAction::CheckRoot,
        DirSetupEvent::RootChecked(found) => if found {
            DirSetupAction::CheckAvatars
        } else {
            DirSetupAction::CreateRoot
        },
        DirSetupEvent::RootCreated(ok) => if ok {
            DirSetupAction::Done(Ok(ass_dir.to_owned()))
        } else {
            DirSetupAction::Done(Err("Failed to create Ass root directory.".to_owned()))
        },
        DirSetupEvent::AvatarsChecked(found) => if found {
            DirSetupAction::Done(Ok(ass_dir.to_owned()))
        } else {
            DirSetupAction::CreateAvatars
        },
        DirSetupEvent::AvatarsCreated(ok) => if ok {
            DirSetupAction::Done(Ok(ft_dir.to_owned()))
        } else {
            DirSetupAction::Done(Err("Failed to create Avatars directory.".to_owned()))
        },
    }
}

/// `next` answers the operation that `dir_setup_step` asks for after `prev`
/// (a finished set-up has no next event).
pub open spec fn dir_setup_answers(prev: DirSetupEvent, next: DirSetupEvent) -> bool {
    match prev {
        DirSetupEvent::Started => next is RootChecked,
        DirSetupEvent::RootChecked(found) => if found {
            next is AvatarsChecked
        } else {
            next is RootCreated
        },
        DirSetupEvent::AvatarsChecked(found) => !found && next is AvatarsCreated,
        _ => false,
    }
}

/// A run of the directory set-up: it starts, and each event answers the
/// operation asked for after the one before.
pub open spec fn dir_setup_run(events: Seq<DirSetupEvent>) -> bool {
    &&& events.len() > 0
    &&& events[0] == DirSetupEvent::Started
    &&& forall|i: int| 0 <= i < events.len() - 1 ==> dir_setup_answers(#[trigger] events[i], events[i + 1])
}

/// The last event of a run after which the set-up ends with a directory.
pub open spec fn dir_setup_ends_ok(e: DirSetupEvent) -> bool {
    e == DirSetupEvent::RootCreated(true) || e == DirSetupEvent::AvatarsChecked(true) || e
        == DirSetupEvent::AvatarsCreated(true)
}

/// The set-up ends with a directory only once the directories are there:
/// either the saved-states directory was missing and has just been made, or
/// it was found and the per-avatar directory was then found or made.
pub proof fn dir_setup_ok_only_when_ready(events: Seq<DirSetupEvent>)
    requires
        dir_setup_run(events),
        dir_setup_ends_ok(events.last()),
    ensures
        events.last() == DirSetupEvent::RootCreated(true) ==> events.len() == 3 && events[1]
            == DirSetupEvent::RootChecked(false),
        events.last() == DirSetupEvent::AvatarsChecked(true) ==> events.len() == 3 && events[1]
            == DirSetupEvent::RootChecked(true),
        events.last() == DirSetupEvent::AvatarsCreated(true) ==> events.len() == 4 && events[1]
            == DirSetupEvent::RootChecked(true) && events[2] == DirSetupEvent::AvatarsChecked(false),
{
    let n = events.len() as int;
    assert(n >= 2);
    let p = events[n - 2];
    assert(dir_setup_answers(p, events[n - 1]));
    if n >= 3 {
        assert(dir_setup_answers(events[n - 3], events[n - 2]));
    }
    if n >= 4 {
        assert(dir_setup_answers(events[n - 4], events[n - 3]));
    }
    if n >= 5 {
        assert(dir_setup_answers(events[n - 5], events[n - 4]));
    }
}

/// What the last operation of the settings set-up found.
#[derive(Clone, Copy, Debug, PartialEq, Eq, Structural)]
pub enum NetSetupEvent {
    Started,
    /// Whether the settings directory exists.
    DirChecked(bool),
    /// Whether making the settings directory succeeded.
    DirCreated(bool),
    /// Whether the settings file exists.
    FileChecked(bool),
    /// The default settings were written (or writing them failed).
    DefaultWritten,
}

/// The next operation of the settings set-up.
#[derive(Clone, Copy, Debug, PartialEq, Eq, Structural)]
pub enum NetSetupAction {
    CheckDir,
    CreateDir,
    CheckFile,
    WriteDefault,
    /// The set-up is over: read the settings file.
    ReadConfig,
}

/// The next step of setting up the settings file: a missing directory is
/// made and the defaults written into it; where it cannot be made, or it
/// exists, the defaults are written only if the file is missing; then the
/// file is read.
pub fn net_setup_step(event: NetSetupEvent) -> (r: NetSetupAction)
    ensures
        r == match event {
            NetSetupEvent::Started => NetSetupAction::CheckDir,
            NetSetupEvent::DirChecked(found) => if found {
                NetSetupAction::CheckFile
            } else {
                NetSetupAction::CreateDir
            },
            NetSetupEvent::DirCreated(ok) => if ok {
                NetSetupAction::WriteDefault
            } else {
                NetSetupAction::CheckFile
            },
            NetSetupEvent::FileChecked(found) => if found {
                NetSetupAction::ReadConfig
            } else {
                NetSetupAction::WriteDefault
            },
            NetSetupEvent::DefaultWritten => NetSetupAction::ReadConfig,
        },
{
    match event {
        NetSetupEvent::Started => NetSetupAction::CheckDir,
        NetSetupEvent::DirChecked(found) => if found {
            NetSetupAction::CheckFile
        } else {
            NetSetupAction::CreateDir
        },
        NetSetupEvent::DirCreated(ok) => if ok {
            NetSetupAction::WriteDefault
        } else {
            NetSetupAction::CheckFile
        },
        NetSetupEvent::FileChecked(found) => if found {
            NetSetupAction::ReadConfig
        } else {
            NetSetupAction::WriteDefault
        },
        NetSetupEvent::DefaultWritten => NetSetupAction::ReadConfig,
    }
}

} // verus!
