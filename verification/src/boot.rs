//! System start-up once the drivers are up: which step follows which outcome.
//!
//! The steps themselves (opening volumes, mounting, spawning the first
//! process) are carried out by the caller. `sysinit` is handed the outcome of
//! the last step and answers with the next one.
use vstd::prelude::*;

verus! {

/// Where the system volume is mounted.
pub const SYSTEM_MOUNT: &'static str = "/system";

/// Name of the link in the root directory that leads to the system root.
pub const SYSROOT_LINK: &'static str = "sysroot";

/// The program that loads the first user process.
pub const LOADER_PATH: &'static str = "/system/Tifflin/bin/loader";

/// The first user process, as the loader is told to start it.
pub const INIT_PATH: &'static str = "/system/Tifflin/bin/init";

/// A file that is known to exist on the testing disk.
pub const TEST_FILE: &'static str = "/system/1.TXT";

/// Name of the directory in the root below which volumes are mounted.
pub const MOUNT_DIRECTORY: &'static str = "mount";

/// How start-up ended.
#[derive(PartialEq, Eq, Structural, Clone, Copy, Debug)]
pub enum InitResult {
    /// Every step was gone through.
    Completed,
    /// The system volume could not be opened; nothing was mounted.
    SystemVolumeUnavailable,
    /// The system volume could not be mounted.
    SystemMountFailed,
    /// A step that must not fail did. The kernel cannot go on.
    Aborted,
}

/// A directory whose entries start-up lists.
#[derive(PartialEq, Eq, Structural, Clone, Copy, Debug)]
pub enum Directory {
    /// The root directory.
    Root,
    /// Where the system volume is mounted.
    System,
    /// Where the first disk's volume is mounted automatically.
    FirstDisk,
}

impl Directory {
    /// The directory's path as a sequence of characters.
    pub open spec fn path_spec(self) -> Seq<char> {
        match self {
            Directory::Root => "/"@,
            Directory::System => "/system"@,
            Directory::FirstDisk => "/mount/ATA-2w"@,
        }
    }

    /// The directory's path.
    pub fn path(&self) -> (path: &'static str)
        ensures
            path@ == self.path_spec(),
    {
        match self {
            Directory::Root => "/",
            Directory::System => "/system",
            Directory::FirstDisk => "/mount/ATA-2w",
        }
    }
}

/// `String::push_str` of the standard library. The contract claims what its
/// documentation says: the string afterwards is the string before with the
/// characters of `tail` appended, in order.
#[verifier::external_body]
fn push_str(s: &mut String, tail: &str)
    ensures
        final(s)@ == old(s)@ + tail@,
{
    s.push_str(tail);
}

/// The path at which the logical volume named `name` is mounted
/// automatically: a directory of that name below the mount directory.
pub open spec fn mount_point_of(name: Seq<char>) -> Seq<char> {
    "/mount/"@ + name
}

/// Computes the path at which the logical volume named `name` is mounted
/// automatically.
pub fn volume_mount_point(name: &str) -> (path: String)
    ensures
        path@ == mount_point_of(name@),
{
    let mut path = "/mount/".to_owned();
    push_str(&mut path, name);
    path
}

/// The first disk's mount point is where a volume named `ATA-2w` goes, and
/// the mount directory is the one in the root that is named `mount`.
pub proof fn lemma_first_disk_is_a_mount_point()
    ensures
        Directory::FirstDisk.path_spec() == mount_point_of("ATA-2w"@),
        "/mount/"@ == "/"@ + MOUNT_DIRECTORY@ + "/"@,
{
    reveal_strlit("/mount/ATA-2w");
    reveal_strlit("/mount/");
    reveal_strlit("ATA-2w");
    reveal_strlit("/");
    reveal_strlit("mount");
    assert(Directory::FirstDisk.path_spec() =~= mount_point_of("ATA-2w"@));
    assert("/mount/"@ =~= "/"@ + MOUNT_DIRECTORY@ + "/"@);
}

/// A step of start-up that the caller carries out.
#[derive(PartialEq, Eq, Structural, Clone, Copy, Debug)]
pub enum InitAction {
    /// Open the volume that the configuration names as the system disk.
    OpenSystemVolume,
    /// Mount the opened system volume.
    MountSystem,
    /// Link the system root to the folder that the configuration names.
    LinkSysroot,
    /// Load and enter the first user process.
    SpawnInit,
    /// Open the file that is known to exist on the testing disk.
    OpenTestFile,
    /// Read the first bytes of the opened test file.
    ReadTestFile,
    /// List the entries of a directory.
    ListDirectory(Directory),
    /// Create the directory below which volumes are mounted automatically.
    MakeMountDirectory,
    /// Count the logical volumes.
    EnumerateVolumes,
    /// Open the logical volume with the given index.
    OpenVolume(usize),
    /// Create the directory at which the volume with the given index goes.
    MakeVolumeDirectory(usize),
    /// Mount the opened volume with the given index at its directory.
    MountVolume(usize),
    /// Nothing is left to do.
    Finish(InitResult),
}

/// Where start-up stands: the step whose outcome is awaited.
#[derive(PartialEq, Eq, Structural, Clone, Copy, Debug)]
pub enum InitStage {
    /// Nothing was asked for yet.
    Start,
    /// Waiting for the action of the same name.
    OpeningSystemVolume,
    /// Waiting for the action of the same name.
    MountingSystem,
    /// Waiting for the action of the same name.
    LinkingSysroot,
    /// Waiting for the first process to be spawned.
    SpawningInit,
    /// Waiting for the test file to be opened.
    OpeningTestFile,
    /// Waiting for the test file to be read.
    ReadingTestFile,
    /// Waiting for a directory listing.
    Listing(Directory),
    /// Waiting for the mount directory to be made.
    MakingMountDirectory,
    /// Waiting for the number of logical volumes.
    EnumeratingVolumes,
    /// Waiting for the current volume to be opened.
    OpeningVolume,
    /// Waiting for the current volume's directory to be made.
    MakingVolumeDirectory,
    /// Waiting for the current volume to be mounted.
    MountingVolume,
    /// Start-up has ended.
    Finished(InitResult),
}

/// The state of start-up between two steps.
#[derive(PartialEq, Eq, Structural, Clone, Copy, Debug)]
pub struct InitState {
    /// The step whose outcome is awaited.
    pub stage: InitStage,
    /// Number of logical volumes found.
    pub volumes: usize,
    /// Index of the volume that is being mounted.
    pub index: usize,
}

/// The outcome of the step that was just carried out.
#[derive(PartialEq, Eq, Structural, Clone, Copy, Debug)]
pub struct InitEvent {
    /// Whether the step succeeded.
    pub success: bool,
    /// Number of logical volumes found. Read after `EnumerateVolumes` only.
    pub volumes: usize,
}

/// The state in which nothing has happened yet.
pub open spec fn initial_state() -> InitState {
    InitState { stage: InitStage::Start, volumes: 0, index: 0 }
}

/// Ends start-up with `result`.
pub open spec fn finish(state: InitState, result: InitResult) -> (InitState, InitAction) {
    (InitState { stage: InitStage::Finished(result), ..state }, InitAction::Finish(result))
}

/// Goes on to `stage` by asking for `action`.
pub open spec fn proceed(state: InitState, stage: InitStage, action: InitAction) -> (
    InitState,
    InitAction,
) {
    (InitState { stage, ..state }, action)
}

/// Takes up the volume with index `index`, or lists the first disk's mount
/// point when no volume is left.
pub open spec fn next_volume(volumes: usize, index: usize) -> (InitState, InitAction) {
    if index < volumes {
        (
            InitState { stage: InitStage::OpeningVolume, volumes, index },
            InitAction::OpenVolume(index),
        )
    } else {
        (
            InitState { stage: InitStage::Listing(Directory::FirstDisk), volumes, index: volumes },
            InitAction::ListDirectory(Directory::FirstDisk),
        )
    }
}

/// The rules of start-up: the state and the step that follow `state` when
/// the step it waited for ended with `event`.
///
/// The system volume is opened and mounted; either failing ends start-up.
/// Then the system root is linked and the first process is spawned. A test
/// file is opened and, if it opened, read; the root and the system directory
/// are listed. Then the mount directory is made, and every logical volume is
/// opened, given a directory and mounted; a volume that does not open or
/// mount is passed over. Last the first disk's mount point is listed.
/// Linking the system root, reading the opened test file and making a
/// directory must not fail: if one does, start-up is aborted.
pub open spec fn step(state: InitState, event: InitEvent) -> (InitState, InitAction) {
    match state.stage {
        InitStage::Start => proceed(
            state,
            InitStage::OpeningSystemVolume,
            InitAction::OpenSystemVolume,
        ),
        InitStage::OpeningSystemVolume => if event.success {
            proceed(state, InitStage::MountingSystem, InitAction::MountSystem)
        } else {
            finish(state, InitResult::SystemVolumeUnavailable)
        },
        InitStage::MountingSystem => if event.success {
            proceed(state, InitStage::LinkingSysroot, InitAction::LinkSysroot)
        } else {
            finish(state, InitResult::SystemMountFailed)
        },
        InitStage::LinkingSysroot => if event.success {
            proceed(state, InitStage::SpawningInit, InitAction::SpawnInit)
        } else {
            finish(state, InitResult::Aborted)
        },
        InitStage::SpawningInit => proceed(
            state,
            InitStage::OpeningTestFile,
            InitAction::OpenTestFile,
        ),
        InitStage::OpeningTestFile => if event.success {
            proceed(state, InitStage::ReadingTestFile, InitAction::ReadTestFile)
        } else {
            proceed(
                state,
                InitStage::Listing(Directory::Root),
                InitAction::ListDirectory(Directory::Root),
            )
        },
        InitStage::ReadingTestFile => if event.success {
            proceed(
                state,
                InitStage::Listing(Directory::Root),
                InitAction::ListDirectory(Directory::Root),
            )
        } else {
            finish(state, InitResult::Aborted)
        },
        InitStage::Listing(Directory::Root) => proceed(
            state,
            InitStage::Listing(Directory::System),
            InitAction::ListDirectory(Directory::System),
        ),
        InitStage::Listing(Directory::System) => proceed(
            state,
            InitStage::MakingMountDirectory,
            InitAction::MakeMountDirectory,
        ),
        InitStage::Listing(Directory::FirstDisk) => finish(state, InitResult::Completed),
        InitStage::MakingMountDirectory => if event.success {
            proceed(state, InitStage::EnumeratingVolumes, InitAction::EnumerateVolumes)
        } else {
            finish(state, InitResult::Aborted)
        },
        InitStage::EnumeratingVolumes => next_volume(event.volumes, 0),
        InitStage::OpeningVolume => if event.success {
            proceed(
                state,
                InitStage::MakingVolumeDirectory,
                InitAction::MakeVolumeDirectory(state.index),
            )
        } else {
            next_volume(state.volumes, after(state))
        },
        InitStage::MakingVolumeDirectory => if event.success {
            proceed(state, InitStage::MountingVolume, InitAction::MountVolume(state.index))
        } else {
            finish(state, InitResult::Aborted)
        },
        InitStage::MountingVolume => next_volume(state.volumes, after(state)),
        InitStage::Finished(result) => finish(state, result),
    }
}

/// Index of the volume after the current one; the number of volumes when the
/// current one is the last.
pub open spec fn after(state: InitState) -> usize {
    if state.index < state.volumes {
        (state.index + 1) as usize
    } else {
        state.volumes
    }
}

/// How far start-up is from its end, the steps for volumes that are still to
/// be dealt with not counted.
pub open spec fn steps_left(state: InitState) -> nat {
    match state.stage {
        InitStage::Start => 12,
        InitStage::OpeningSystemVolume => 11,
        InitStage::MountingSystem => 10,
        InitStage::LinkingSysroot => 9,
        InitStage::SpawningInit => 8,
        InitStage::OpeningTestFile => 7,
        InitStage::ReadingTestFile => 6,
        InitStage::Listing(Directory::Root) => 5,
        InitStage::Listing(Directory::System) => 4,
        InitStage::MakingMountDirectory => 3,
        InitStage::EnumeratingVolumes => 2,
        InitStage::OpeningVolume => 4,
        InitStage::MakingVolumeDirectory => 3,
        InitStage::MountingVolume => 2,
        InitStage::Listing(Directory::FirstDisk) => 1,
        InitStage::Finished(_) => 0,
    }
}

/// Number of volumes that are not dealt with yet.
pub open spec fn volumes_left(state: InitState) -> nat {
    match state.stage {
        InitStage::OpeningVolume | InitStage::MakingVolumeDirectory | InitStage::MountingVolume => {
            if state.index < state.volumes {
                (state.volumes - state.index) as nat
            } else {
                0
            }
        },
        _ => 0,
    }
}

impl InitState {
    /// The state in which nothing has happened yet.
    pub fn new() -> (state: InitState)
        ensures
            state == initial_state(),
    {
        InitState { stage: InitStage::Start, volumes: 0, index: 0 }
    }

    /// Tells whether start-up has ended, and how.
    pub fn result(&self) -> (result: Option<InitResult>)
        ensures
            result == (match self.stage {
                InitStage::Finished(r) => Some(r),
                _ => None,
            }),
    {
        match self.stage {
            InitStage::Finished(r) => Some(r),
            _ => None,
        }
    }
}

impl InitEvent {
    /// The outcome of a step that succeeded.
    pub fn succeeded() -> (event: InitEvent)
        ensures
            event == (InitEvent { success: true, volumes: 0 }),
    {
        InitEvent { success: true, volumes: 0 }
    }

    /// The outcome of a step that failed.
    pub fn failed() -> (event: InitEvent)
        ensures
            event == (InitEvent { success: false, volumes: 0 }),
    {
        InitEvent { success: false, volumes: 0 }
    }

    /// The outcome of counting the logical volumes.
    pub fn volumes_found(count: usize) -> (event: InitEvent)
        ensures
            event == (InitEvent { success: true, volumes: count }),
    {
        InitEvent { success: true, volumes: count }
    }
}

/// Computes what `next_volume` describes.
fn take_up_volume(volumes: usize, index: usize) -> (next: (InitState, InitAction))
    ensures
        next == next_volume(volumes, index),
{
    if index < volumes {
        (
            InitState { stage: InitStage::OpeningVolume, volumes, index },
            InitAction::OpenVolume(index),
        )
    } else {
        (
            InitState { stage: InitStage::Listing(Directory::FirstDisk), volumes, index: volumes },
            InitAction::ListDirectory(Directory::FirstDisk),
        )
    }
}

/// Initialises the system once the drivers are up, one step at a time: given
/// the state and the outcome of the step that was carried out last, returns
/// the state to keep and the step to carry out next.
///
/// The first call is made with `InitState::new()`; what its event holds does
/// not matter. Start-up has ended when the step returned is `Finish`.
pub fn sysinit(state: InitState, event: InitEvent) -> (next: (InitState, InitAction))
    ensures
        next == step(state, event),
{
    let ok = event.success;
    let following = if state.index < state.volumes {
        state.index + 1
    } else {
        state.volumes
    };
    let (stage, action) = match state.stage {
        InitStage::Start => (InitStage::OpeningSystemVolume, InitAction::OpenSystemVolume),
        InitStage::OpeningSystemVolume => {
            if ok {
                (InitStage::MountingSystem, InitAction::MountSystem)
            } else {
                (
                    InitStage::Finished(InitResult::SystemVolumeUnavailable),
                    InitAction::Finish(InitResult::SystemVolumeUnavailable),
                )
            }
        },
        InitStage::MountingSystem => {
            if ok {
                (InitStage::LinkingSysroot, InitAction::LinkSysroot)
            } else {
                (
                    InitStage::Finished(InitResult::SystemMountFailed),
                    InitAction::Finish(InitResult::SystemMountFailed),
                )
            }
        },
        InitStage::LinkingSysroot => {
            if ok {
                (InitStage::SpawningInit, InitAction::SpawnInit)
            } else {
                (InitStage::Finished(InitResult::Aborted), InitAction::Finish(InitResult::Aborted))
            }
        },
        InitStage::SpawningInit => (InitStage::OpeningTestFile, InitAction::OpenTestFile),
        InitStage::OpeningTestFile => {
            if ok {
                (InitStage::ReadingTestFile, InitAction::ReadTestFile)
            } else {
                (InitStage::Listing(Directory::Root), InitAction::ListDirectory(Directory::Root))
            }
        },
        InitStage::ReadingTestFile => {
            if ok {
                (InitStage::Listing(Directory::Root), InitAction::ListDirectory(Directory::Root))
            } else {
                (InitStage::Finished(InitResult::Aborted), InitAction::Finish(InitResult::Aborted))
            }
        },
        InitStage::Listing(Directory::Root) => (
            InitStage::Listing(Directory::System),
            InitAction::ListDirectory(Directory::System),
        ),
        InitStage::Listing(Directory::System) => (
            InitStage::MakingMountDirectory,
            InitAction::MakeMountDirectory,
        ),
        InitStage::Listing(Directory::FirstDisk) => (
            InitStage::Finished(InitResult::Completed),
            InitAction::Finish(InitResult::Completed),
        ),
        InitStage::MakingMountDirectory => {
            if ok {
                (InitStage::EnumeratingVolumes, InitAction::EnumerateVolumes)
            } else {
                (InitStage::Finished(InitResult::Aborted), InitAction::Finish(InitResult::Aborted))
            }
        },
        InitStage::EnumeratingVolumes => {
            return take_up_volume(event.volumes, 0);
        },
        InitStage::OpeningVolume => {
            if ok {
                (InitStage::MakingVolumeDirectory, InitAction::MakeVolumeDirectory(state.index))
            } else {
                return take_up_volume(state.volumes, following);
            }
        },
        InitStage::MakingVolumeDirectory => {
            if ok {
                (InitStage::MountingVolume, InitAction::MountVolume(state.index))
            } else {
                (InitStage::Finished(InitResult::Aborted), InitAction::Finish(InitResult::Aborted))
            }
        },
        InitStage::MountingVolume => {
            return take_up_volume(state.volumes, following);
        },
        InitStage::Finished(result) => (InitStage::Finished(result), InitAction::Finish(result)),
    };
    (InitState { stage, volumes: state.volumes, index: state.index }, action)
}

/// Start-up ends: every step but the last leaves fewer volumes to deal with,
/// or as many and fewer steps to ask for.
pub proof fn lemma_every_step_makes_progress(state: InitState, event: InitEvent)
    requires
        !(state.stage is Finished),
    ensures
        volumes_left(step(state, event).0) < volumes_left(state) || (volumes_left(
            step(state, event).0,
        ) == volumes_left(state) && steps_left(step(state, event).0) < steps_left(state))
            || state.stage is EnumeratingVolumes,
        state.stage is EnumeratingVolumes ==> volumes_left(step(state, event).0) <= event.volumes,
{
}

/// The step returned is `Finish` exactly when the state returned is final,
/// and a final state stays as it is.
pub proof fn lemma_finish_is_final(state: InitState, event: InitEvent)
    ensures
        step(state, event).1 is Finish <==> step(state, event).0.stage is Finished,
        step(state, event).1 matches InitAction::Finish(r) ==> step(state, event).0.stage
            == InitStage::Finished(r),
        state.stage is Finished ==> step(state, event).0 == state,
{
}

/// The first process is spawned only after the system volume was mounted and
/// the system root linked, and nothing is mounted unless the system volume
/// opened.
pub proof fn lemma_init_is_spawned_after_the_system_is_mounted(state: InitState, event: InitEvent)
    ensures
        step(state, event).1 == InitAction::SpawnInit <==> (state.stage is LinkingSysroot
            && event.success),
        step(state, event).1 == InitAction::LinkSysroot <==> (state.stage is MountingSystem
            && event.success),
        step(state, event).1 == InitAction::MountSystem <==> (state.stage is OpeningSystemVolume
            && event.success),
{
}

/// Only a volume that exists is opened, given a directory or mounted.
pub proof fn lemma_volume_steps_name_a_volume(state: InitState, event: InitEvent, i: usize)
    requires
        state.stage is OpeningVolume || state.stage is MakingVolumeDirectory || state.stage
            is MountingVolume ==> state.index < state.volumes,
        step(state, event).1 == InitAction::OpenVolume(i) || step(state, event).1
            == InitAction::MakeVolumeDirectory(i) || step(state, event).1
            == InitAction::MountVolume(i),
    ensures
        i < step(state, event).0.volumes,
        i == step(state, event).0.index,
{
}

} // verus!
