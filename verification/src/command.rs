//! External commands and the other effects an installation is made of, as
//! plain values: the library decides what is to be done, its caller does it.

use vstd::prelude::*;
use crate::error::{InstallError, InstallErrorView};

verus! {

broadcast use vstd::string::group_string_axioms;

/// What becomes of a command's standard output.
#[derive(Debug, Clone, Copy, PartialEq, Eq, Structural)]
pub enum Output {
    /// It goes where the installer's own output goes.
    Inherit,
    /// It is thrown away.
    Discard,
    /// It is kept back and shown only if the command fails.
    OnFailure,
}

/// Where a command runs.
#[derive(Debug, Clone, Copy, PartialEq, Eq, Structural)]
pub enum Place {
    /// In the installer's own namespace and working directory.
    Here,
    /// In the target root directory, entered through its open handle.
    TargetRoot,
    /// In the mount namespace of the host.
    HostMounts,
}

/// An external command: what it is for, the program, its arguments, and how
/// it is run.
#[derive(Debug)]
pub struct CommandSpec {
    pub description: String,
    pub program: String,
    pub args: Vec<String>,
    /// Whether the description is printed before the command runs.
    pub announce: bool,
    pub output: Output,
    pub place: Place,
}

/// The mathematical value of a [`CommandSpec`].
pub struct CommandView {
    pub description: Seq<char>,
    pub program: Seq<char>,
    pub args: Seq<Seq<char>>,
    pub announce: bool,
    pub output: Output,
    pub place: Place,
}

impl View for CommandSpec {
    type V = CommandView;

    open spec fn view(&self) -> CommandView {
        CommandView {
            description: self.description@,
            program: self.program@,
            args: self.args.deep_view(),
            announce: self.announce,
            output: self.output,
            place: self.place,
        }
    }
}

impl DeepView for CommandSpec {
    type V = CommandView;

    open spec fn deep_view(&self) -> CommandView {
        self@
    }
}

/// One effect on the machine.
#[derive(Debug)]
pub enum Step {
    /// Erase the filesystem and partition-table signatures of a device.
    Wipe { device: String },
    /// Remove a directory with all it holds, if it exists.
    RemoveDirAll { path: String },
    /// Create a directory and the directories above it.
    CreateDirAll { path: String },
    /// Create one directory.
    CreateDir { path: String },
    /// Run an external command and fail if it does.
    Run { command: CommandSpec },
    /// Make the kernel read the partition table of a device again.
    RereadPartitionTable { device: String },
    /// Wait until the device nodes have settled.
    Settle,
    /// Mount a device at a directory.
    Mount { device: String, target: String },
    /// Give `path` the security label that `as_path` has in the policy.
    Label { path: String, as_path: String, recurse: bool },
    /// Open the directory through which all later writes to the target go.
    OpenRoot { path: String },
    /// Load the deployment root at `path`.
    LoadSysroot { path: String },
    /// Write the record of what was installed, as JSON, to the file `path`
    /// in the target root, replacing it atomically.
    WriteAleph { path: String, image: String, kernel: String },
    /// Install the boot loader on `device` for the root mounted at
    /// `rootfs`, whose boot filesystem has the UUID `boot_uuid`.
    InstallBootloader { device: String, rootfs: String, boot_uuid: String },
    /// Copy the Ignition config `file` to the boot filesystem mounted at
    /// `bootfs`, after checking it against `hash` if one is given.
    WriteIgnition { bootfs: String, file: String, hash: Option<String> },
    /// Mark the boot filesystem mounted at `bootfs` for a first boot.
    EnableFirstboot { bootfs: String },
}

/// The mathematical value of a [`Step`].
pub enum StepView {
    Wipe { device: Seq<char> },
    RemoveDirAll { path: Seq<char> },
    CreateDirAll { path: Seq<char> },
    CreateDir { path: Seq<char> },
    Run { command: CommandView },
    RereadPartitionTable { device: Seq<char> },
    Settle,
    Mount { device: Seq<char>, target: Seq<char> },
    Label { path: Seq<char>, as_path: Seq<char>, recurse: bool },
    OpenRoot { path: Seq<char> },
    LoadSysroot { path: Seq<char> },
    WriteAleph { path: Seq<char>, image: Seq<char>, kernel: Seq<char> },
    InstallBootloader { device: Seq<char>, rootfs: Seq<char>, boot_uuid: Seq<char> },
    WriteIgnition { bootfs: Seq<char>, file: Seq<char>, hash: Option<Seq<char>> },
    EnableFirstboot { bootfs: Seq<char> },
}

impl View for Step {
    type V = StepView;

    open spec fn view(&self) -> StepView {
        match self {
            Step::Wipe { device } => StepView::Wipe { device: device@ },
            Step::RemoveDirAll { path } => StepView::RemoveDirAll { path: path@ },
            Step::CreateDirAll { path } => StepView::CreateDirAll { path: path@ },
            Step::CreateDir { path } => StepView::CreateDir { path: path@ },
            Step::Run { command } => StepView::Run { command: command@ },
            Step::RereadPartitionTable { device } => StepView::RereadPartitionTable {
                device: device@,
            },
            Step::Settle => StepView::Settle,
            Step::Mount { device, target } => StepView::Mount {
                device: device@,
                target: target@,
            },
            Step::Label { path, as_path, recurse } => StepView::Label {
                path: path@,
                as_path: as_path@,
                recurse: *recurse,
            },
            Step::OpenRoot { path } => StepView::OpenRoot { path: path@ },
            Step::LoadSysroot { path } => StepView::LoadSysroot { path: path@ },
            Step::WriteAleph { path, image, kernel } => StepView::WriteAleph {
                path: path@,
                image: image@,
                kernel: kernel@,
            },
            Step::InstallBootloader { device, rootfs, boot_uuid } => StepView::InstallBootloader {
                device: device@,
                rootfs: rootfs@,
                boot_uuid: boot_uuid@,
            },
            Step::WriteIgnition { bootfs, file, hash } => StepView::WriteIgnition {
                bootfs: bootfs@,
                file: file@,
                hash: hash.deep_view(),
            },
            Step::EnableFirstboot { bootfs } => StepView::EnableFirstboot { bootfs: bootfs@ },
        }
    }
}

impl DeepView for Step {
    type V = StepView;

    open spec fn deep_view(&self) -> StepView {
        self@
    }
}

/// Appends a copy of `s` to `v`.
pub fn push_str(v: &mut Vec<String>, s: &str)
    ensures
        final(v).deep_view() == old(v).deep_view().push(s@),
{
    let ghost before = v.deep_view();
    v.push(s.to_owned());
    assert(v.deep_view() =~= before.push(s@));
}

/// Appends `step` to `steps`.
pub fn push_step(steps: &mut Vec<Step>, step: Step)
    ensures
        final(steps).deep_view() == old(steps).deep_view().push(step@),
{
    let ghost before = steps.deep_view();
    steps.push(step);
    assert(steps.deep_view() =~= before.push(step@));
}

impl CommandSpec {
    /// A command without arguments that is announced, shares the
    /// installer's output and runs in its namespace.
    pub fn new(description: &str, program: &str) -> (c: CommandSpec)
        ensures
            c@ == (CommandView {
                description: description@,
                program: program@,
                args: Seq::empty(),
                announce: true,
                output: Output::Inherit,
                place: Place::Here,
            }),
    {
        let c = CommandSpec {
            description: description.to_owned(),
            program: program.to_owned(),
            args: Vec::new(),
            announce: true,
            output: Output::Inherit,
            place: Place::Here,
        };
        assert(c.args.deep_view() =~= Seq::<Seq<char>>::empty());
        c
    }

    /// The error that this command's failure with `status` amounts to.
    pub fn failure(&self, status: i32) -> (e: InstallError)
        ensures
            e@ == (InstallErrorView::ToolFailed { purpose: self@.description, status }),
    {
        InstallError::ToolFailed { purpose: self.description.clone(), status }
    }

    /// Judges how this command ended: a status of zero is success, any
    /// other a failure that names the command's purpose and the status.
    pub fn check(&self, status: i32) -> (r: Result<(), InstallError>)
        ensures
            match r {
                Ok(()) => status == 0,
                Err(e) => status != 0 && e@ == (InstallErrorView::ToolFailed {
                    purpose: self@.description,
                    status,
                }),
            },
    {
        if status == 0 {
            Ok(())
        } else {
            Err(self.failure(status))
        }
    }

    /// Appends one argument.
    pub fn arg(&mut self, a: &str)
        ensures
            final(self)@ == (CommandView { args: old(self)@.args.push(a@), ..old(self)@ }),
    {
        push_str(&mut self.args, a);
    }
}

} // verus!
