use kernel::boot::{
    sysinit, volume_mount_point, Directory, InitAction, InitEvent, InitResult, InitStage,
    InitState, INIT_PATH, LOADER_PATH, MOUNT_DIRECTORY, SYSROOT_LINK, SYSTEM_MOUNT, TEST_FILE,
};

/// Runs start-up to its end; `outcome` decides how each step ends.
fn run(outcome: &dyn Fn(InitAction) -> InitEvent) -> (Vec<InitAction>, InitState) {
    let mut steps = Vec::new();
    let mut state = InitState::new();
    let mut event = InitEvent::succeeded();
    loop {
        let (next, action) = sysinit(state, event);
        state = next;
        steps.push(action);
        if matches!(action, InitAction::Finish(_)) {
            return (steps, state);
        }
        assert!(steps.len() < 1000);
        event = outcome(action);
    }
}

#[test]
fn first_step_opens_the_system_volume() {
    let (state, action) = sysinit(InitState::new(), InitEvent::failed());
    assert_eq!(action, InitAction::OpenSystemVolume);
    assert_eq!(state.stage, InitStage::OpeningSystemVolume);
    assert_eq!(state.result(), None);
}

#[test]
fn startup_without_volumes() {
    let (steps, state) = run(&|action| match action {
        InitAction::EnumerateVolumes => InitEvent::volumes_found(0),
        _ => InitEvent::succeeded(),
    });
    assert_eq!(
        steps,
        vec![
            InitAction::OpenSystemVolume,
            InitAction::MountSystem,
            InitAction::LinkSysroot,
            InitAction::SpawnInit,
            InitAction::OpenTestFile,
            InitAction::ReadTestFile,
            InitAction::ListDirectory(Directory::Root),
            InitAction::ListDirectory(Directory::System),
            InitAction::MakeMountDirectory,
            InitAction::EnumerateVolumes,
            InitAction::ListDirectory(Directory::FirstDisk),
            InitAction::Finish(InitResult::Completed),
        ]
    );
    assert_eq!(state.result(), Some(InitResult::Completed));
}

#[test]
fn every_volume_is_opened_given_a_directory_and_mounted() {
    let (steps, state) = run(&|action| match action {
        InitAction::EnumerateVolumes => InitEvent::volumes_found(2),
        _ => InitEvent::succeeded(),
    });
    assert_eq!(
        steps[9..].to_vec(),
        vec![
            InitAction::EnumerateVolumes,
            InitAction::OpenVolume(0),
            InitAction::MakeVolumeDirectory(0),
            InitAction::MountVolume(0),
            InitAction::OpenVolume(1),
            InitAction::MakeVolumeDirectory(1),
            InitAction::MountVolume(1),
            InitAction::ListDirectory(Directory::FirstDisk),
            InitAction::Finish(InitResult::Completed),
        ]
    );
    assert_eq!(state.volumes, 2);
    assert_eq!(state.index, 2);
}

#[test]
fn a_volume_that_does_not_open_is_passed_over() {
    let (steps, state) = run(&|action| match action {
        InitAction::EnumerateVolumes => InitEvent::volumes_found(3),
        InitAction::OpenVolume(1) => InitEvent::failed(),
        InitAction::MountVolume(0) => InitEvent::failed(),
        _ => InitEvent::succeeded(),
    });
    assert_eq!(
        steps[10..].to_vec(),
        vec![
            InitAction::OpenVolume(0),
            InitAction::MakeVolumeDirectory(0),
            InitAction::MountVolume(0),
            InitAction::OpenVolume(1),
            InitAction::OpenVolume(2),
            InitAction::MakeVolumeDirectory(2),
            InitAction::MountVolume(2),
            InitAction::ListDirectory(Directory::FirstDisk),
            InitAction::Finish(InitResult::Completed),
        ]
    );
    assert_eq!(state.result(), Some(InitResult::Completed));
}

#[test]
fn system_volume_that_does_not_open_ends_startup() {
    let (steps, state) = run(&|_| InitEvent::failed());
    assert_eq!(
        steps,
        vec![
            InitAction::OpenSystemVolume,
            InitAction::Finish(InitResult::SystemVolumeUnavailable),
        ]
    );
    assert_eq!(state.result(), Some(InitResult::SystemVolumeUnavailable));
}

#[test]
fn system_volume_that_does_not_mount_ends_startup() {
    let (steps, state) = run(&|action| match action {
        InitAction::MountSystem => InitEvent::failed(),
        _ => InitEvent::succeeded(),
    });
    assert_eq!(
        steps,
        vec![
            InitAction::OpenSystemVolume,
            InitAction::MountSystem,
            InitAction::Finish(InitResult::SystemMountFailed),
        ]
    );
    assert_eq!(state.result(), Some(InitResult::SystemMountFailed));
}

#[test]
fn steps_that_must_not_fail_abort_startup() {
    for fatal in [
        InitAction::LinkSysroot,
        InitAction::ReadTestFile,
        InitAction::MakeMountDirectory,
        InitAction::MakeVolumeDirectory(0),
    ] {
        let (steps, state) = run(&|action| {
            if action == fatal {
                InitEvent::failed()
            } else if action == InitAction::EnumerateVolumes {
                InitEvent::volumes_found(1)
            } else {
                InitEvent::succeeded()
            }
        });
        assert_eq!(steps[steps.len() - 2], fatal);
        assert_eq!(steps[steps.len() - 1], InitAction::Finish(InitResult::Aborted));
        assert_eq!(state.result(), Some(InitResult::Aborted));
    }
}

#[test]
fn steps_that_may_fail_do_not_stop_startup() {
    let (steps, state) = run(&|action| match action {
        InitAction::SpawnInit
        | InitAction::OpenTestFile
        | InitAction::ListDirectory(_)
        | InitAction::OpenVolume(_)
        | InitAction::MountVolume(_) => InitEvent::failed(),
        InitAction::EnumerateVolumes => InitEvent::volumes_found(2),
        _ => InitEvent::succeeded(),
    });
    assert_eq!(
        steps,
        vec![
            InitAction::OpenSystemVolume,
            InitAction::MountSystem,
            InitAction::LinkSysroot,
            InitAction::SpawnInit,
            InitAction::OpenTestFile,
            InitAction::ListDirectory(Directory::Root),
            InitAction::ListDirectory(Directory::System),
            InitAction::MakeMountDirectory,
            InitAction::EnumerateVolumes,
            InitAction::OpenVolume(0),
            InitAction::OpenVolume(1),
            InitAction::ListDirectory(Directory::FirstDisk),
            InitAction::Finish(InitResult::Completed),
        ]
    );
    assert_eq!(state.result(), Some(InitResult::Completed));
}

#[test]
fn a_finished_startup_stays_finished() {
    let done = InitState {
        stage: InitStage::Finished(InitResult::SystemMountFailed),
        volumes: 4,
        index: 1,
    };
    let (state, action) = sysinit(done, InitEvent::succeeded());
    assert_eq!(state, done);
    assert_eq!(action, InitAction::Finish(InitResult::SystemMountFailed));
}

#[test]
fn a_state_past_its_last_volume_goes_on_to_the_listing() {
    let odd = InitState { stage: InitStage::MountingVolume, volumes: 2, index: 7 };
    let (state, action) = sysinit(odd, InitEvent::succeeded());
    assert_eq!(action, InitAction::ListDirectory(Directory::FirstDisk));
    assert_eq!(state.index, 2);
    let last = InitState {
        stage: InitStage::OpeningVolume,
        volumes: usize::MAX,
        index: usize::MAX - 1,
    };
    let (state, action) = sysinit(last, InitEvent::failed());
    assert_eq!(action, InitAction::ListDirectory(Directory::FirstDisk));
    assert_eq!(state.index, usize::MAX);
}

#[test]
fn paths_of_startup() {
    assert_eq!(SYSTEM_MOUNT, "/system");
    assert_eq!(SYSROOT_LINK, "sysroot");
    assert_eq!(LOADER_PATH, "/system/Tifflin/bin/loader");
    assert_eq!(INIT_PATH, "/system/Tifflin/bin/init");
    assert_eq!(TEST_FILE, "/system/1.TXT");
    assert_eq!(MOUNT_DIRECTORY, "mount");
    assert_eq!(Directory::Root.path(), "/");
    assert_eq!(Directory::System.path(), "/system");
    assert_eq!(Directory::FirstDisk.path(), "/mount/ATA-2w");
}

#[test]
fn volumes_are_mounted_below_the_mount_directory() {
    assert_eq!(volume_mount_point("ATA-2w"), "/mount/ATA-2w");
    assert_eq!(volume_mount_point("ATA-0p1"), "/mount/ATA-0p1");
    assert_eq!(volume_mount_point(""), "/mount/");
    assert_eq!(volume_mount_point("ATA-2w"), Directory::FirstDisk.path());
}
