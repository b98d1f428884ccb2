//! What every filesystem handle can do, whatever mounts it.
//!
//! A handle decides; its caller acts. `mount` and `unmount` say what has to
//! be asked of the system, the caller asks it, and `finish_mount` and
//! `finish_unmount` take the outcome. What a handle has to know of the system
//! comes in as arguments: whether the backend is at hand, and which
//! filesystem the target lies on at this moment.

use crate::error::FsError;
use crate::partition::PartitionID;
use vstd::prelude::*;

verus! {

/// What a handle asks of the system.
#[derive(Debug, Clone, PartialEq, Eq)]
pub enum Action {
    /// Mount a filesystem of type `fstype` on `target` with the option
    /// string `data`, read-only if `read_only`.
    KernelMount { fstype: String, target: String, read_only: bool, data: String },
    /// Detach what is mounted on `target`, lazily.
    KernelUnmount { target: String },
    /// Run `program` with `args` and wait for it; exit status zero is
    /// success.
    Run { program: String, args: Vec<String> },
}

/// The mathematical value of an [`Action`].
pub enum ActionView {
    KernelMount { fstype: Seq<char>, target: Seq<char>, read_only: bool, data: Seq<char> },
    KernelUnmount { target: Seq<char> },
    Run { program: Seq<char>, args: Seq<Seq<char>> },
}

impl DeepView for Action {
    type V = ActionView;

    open spec fn deep_view(&self) -> ActionView {
        match self {
            Action::KernelMount { fstype, target, read_only, data } => ActionView::KernelMount {
                fstype: fstype@,
                target: target@,
                read_only: *read_only,
                data: data@,
            },
            Action::KernelUnmount { target } => ActionView::KernelUnmount { target: target@ },
            Action::Run { program, args } => ActionView::Run {
                program: program@,
                args: args.deep_view(),
            },
        }
    }
}

/// What is left to do for a request.
#[derive(Debug, Clone, PartialEq, Eq)]
pub enum Step {
    /// Nothing: the handle is already in the state asked for.
    Done,
    /// This action, and then a report of its outcome.
    Perform(Action),
}

/// The mathematical value of a [`Step`].
pub enum StepView {
    Done,
    Perform(ActionView),
}

impl DeepView for Step {
    type V = StepView;

    open spec fn deep_view(&self) -> StepView {
        match self {
            Step::Done => StepView::Done,
            Step::Perform(a) => StepView::Perform(a.deep_view()),
        }
    }
}

/// How the program of a user-space backend is had.
#[derive(Debug, Clone, Copy, PartialEq, Eq, Hash, Structural)]
pub enum Launcher {
    /// Looked up on the search path; `runs` says whether a trial invocation
    /// succeeded.
    External { runs: bool },
    /// Carried within this program's image and executed from memory, without
    /// ever being written to storage.
    Embedded,
}

impl Launcher {
    /// Whether the program can be run: an embedded one always, an external
    /// one if the trial succeeded.
    pub open spec fn ready(self) -> bool {
        match self {
            Launcher::External { runs } => runs,
            Launcher::Embedded => true,
        }
    }

    /// Whether the program can be run.
    pub fn is_ready(&self) -> (b: bool)
        ensures
            b == self.ready(),
    {
        match self {
            Launcher::External { runs } => *runs,
            Launcher::Embedded => true,
        }
    }
}

/// The mathematical value of what a request returns.
pub open spec fn step_result(r: Result<Step, FsError>) -> Result<StepView, FsError> {
    match r {
        Ok(step) => Ok(step.deep_view()),
        Err(e) => Err(e),
    }
}

/// Common trait for all filesystem handle
pub trait Filesystem: Sized {
    /// What the system shows of whether the backend is at hand.
    type Evidence;

    /// The mount point.
    spec fn spec_target(&self) -> Seq<char>;

    /// The filesystem that the target lay on when the handle was mounted, or
    /// `None` while the handle is not mounted.
    spec fn spec_id(&self) -> Option<PartitionID>;

    /// Whether the owner of the handle unmounts when it lets the handle go.
    spec fn spec_unmount_on_drop(&self) -> bool;

    /// Whether `evidence` shows the backend to be at hand.
    spec fn available(evidence: &Self::Evidence) -> bool;

    /// Request a handle to mount the filesystem.
    ///
    /// `found` is the filesystem that the target lies on now, `None` if the
    /// target does not exist. A handle that is mounted, with its target still
    /// on the filesystem that it recorded, has nothing to do. Any other asks
    /// for an action, whose outcome goes to `finish_mount`.
    fn mount(&mut self, evidence: &Self::Evidence, found: Option<PartitionID>) -> (r: Result<
        Step,
        FsError,
    >)
        ensures
            final(self).spec_target() == old(self).spec_target(),
            final(self).spec_id() == old(self).spec_id(),
            final(self).spec_unmount_on_drop() == old(self).spec_unmount_on_drop(),
            !Self::available(evidence) ==> r is Err && r->Err_0 == FsError::Unavailable,
            Self::available(evidence) && old(self).spec_id() is Some && found is None ==> r is Err
                && r->Err_0 == FsError::NotFound,
            Self::available(evidence) && old(self).spec_id() is Some && found == old(self).spec_id()
                ==> r is Ok && r->Ok_0 is Done,
            r is Err || r->Ok_0 is Done ==> *final(self) == *old(self),
    ;

    /// Takes the outcome of the action that `mount` asked for, and returns
    /// the mount point.
    ///
    /// `done` says whether the action succeeded, `found` which filesystem the
    /// target lies on after it. Only a mount that succeeded, with a target
    /// whose filesystem can be told, makes the handle mounted.
    fn finish_mount(&mut self, done: bool, found: Option<PartitionID>) -> (r: Result<
        String,
        FsError,
    >)
        ensures
            final(self).spec_target() == old(self).spec_target(),
            final(self).spec_unmount_on_drop() == old(self).spec_unmount_on_drop(),
            match r {
                Ok(target) => done && found is Some && target@ == old(self).spec_target()
                    && final(self).spec_id() == found,
                Err(e) => *final(self) == *old(self) && e == if done {
                    FsError::UnknownIdentity
                } else {
                    FsError::MountFailed
                },
            },
            r is Ok <==> done && found is Some,
    ;

    /// Request a handle to unmount the filesystem.
    ///
    /// `found` is the filesystem that the target lies on now. A handle that
    /// is not mounted, or whose target no longer lies on the filesystem that
    /// it recorded, has nothing to do.
    fn unmount(&self, found: Option<PartitionID>) -> (r: Result<Step, FsError>)
        ensures
            self.spec_id() is None ==> r is Ok && r->Ok_0 is Done,
            self.spec_id() is Some && found is None ==> r is Err && r->Err_0 == FsError::NotFound,
            self.spec_id() is Some && found is Some && found != self.spec_id() ==> r is Ok
                && r->Ok_0 is Done,
            self.spec_id() is Some && found == self.spec_id() ==> r is Ok && r->Ok_0 is Perform,
    ;

    /// Takes the outcome of the action that `unmount` asked for. A handle
    /// whose unmount failed stays mounted.
    fn finish_unmount(&mut self, done: bool) -> (r: Result<(), FsError>)
        ensures
            final(self).spec_target() == old(self).spec_target(),
            final(self).spec_unmount_on_drop() == old(self).spec_unmount_on_drop(),
            done ==> r is Ok && final(self).spec_id() is None,
            !done ==> r is Err && r->Err_0 == FsError::UnmountFailed && *final(self) == *old(self),
    ;

    /// Retrieve unmount_on_drop property
    fn unmount_on_drop(&self) -> (b: bool)
        ensures
            b == self.spec_unmount_on_drop(),
    ;

    /// Set unmount_on_drop property
    fn set_unmount_on_drop(&mut self, drop: bool)
        ensures
            final(self).spec_unmount_on_drop() == drop,
            final(self).spec_target() == old(self).spec_target(),
            final(self).spec_id() == old(self).spec_id(),
    ;

    /// Retrieve the partition Identifier
    /// if the partition isn't mounted, it'll return None
    fn id(&self) -> (r: Option<&PartitionID>)
        ensures
            match r {
                Some(id) => self.spec_id() == Some(*id),
                None => self.spec_id() is None,
            },
    ;

    /// Retrieve the mount point
    fn target(&self) -> (r: String)
        ensures
            r@ == self.spec_target(),
    ;

    /// Set Target mount point. A mounted handle refuses with `Mounted` and
    /// keeps its target.
    fn set_target(&mut self, target: &str) -> (r: Result<(), FsError>)
        ensures
            final(self).spec_id() == old(self).spec_id(),
            final(self).spec_unmount_on_drop() == old(self).spec_unmount_on_drop(),
            old(self).spec_id() is Some ==> r is Err && r->Err_0 == FsError::Mounted
                && *final(self) == *old(self),
            old(self).spec_id() is None ==> r is Ok && final(self).spec_target() == target@,
    ;

    /// Get if the filesystem is available
    fn is_available(evidence: &Self::Evidence) -> (b: bool)
        ensures
            b == Self::available(evidence),
    ;

    /// Check if the partition is mounted
    fn mounted(&self) -> (b: bool)
        ensures
            b == self.spec_id() is Some,
    ;
}

/// Common trait for all stackable/union/overlay filesystem handles
pub trait StackableFilesystem: Filesystem {
    /// The lower layers, highest precedence first.
    spec fn spec_lower(&self) -> Seq<Seq<char>>;

    /// The upper layer, if one is set.
    spec fn spec_upper(&self) -> Option<Seq<char>>;

    /// Retrieve a list of lower layer
    fn lower(&self) -> (r: Vec<&str>)
        ensures
            r.deep_view() == self.spec_lower(),
    ;

    /// Set lower layer. A mounted handle refuses with `Mounted` and keeps its
    /// layers.
    fn set_lower(&mut self, lower: Vec<String>) -> (r: Result<(), FsError>)
        ensures
            final(self).spec_id() == old(self).spec_id(),
            final(self).spec_target() == old(self).spec_target(),
            final(self).spec_upper() == old(self).spec_upper(),
            old(self).spec_id() is Some ==> r is Err && r->Err_0 == FsError::Mounted
                && *final(self) == *old(self),
            old(self).spec_id() is None ==> r is Ok && final(self).spec_lower()
                == lower.deep_view(),
    ;

    /// Retrieve upper layer if set
    fn upper(&self) -> (r: Option<&str>)
        ensures
            r.deep_view() == self.spec_upper(),
    ;

    /// Set upper layer.
    ///
    /// `upper_id` is the filesystem that `upper` lies on, `work_id` the one
    /// that the handle's work directory lies on; a backend without work
    /// directory reads neither. A handle that refuses keeps its layers, and
    /// a mounted handle always refuses.
    fn set_upper(
        &mut self,
        upper: String,
        upper_id: Option<PartitionID>,
        work_id: Option<PartitionID>,
    ) -> (r: Result<(), FsError>)
        ensures
            final(self).spec_id() == old(self).spec_id(),
            final(self).spec_target() == old(self).spec_target(),
            final(self).spec_lower() == old(self).spec_lower(),
            old(self).spec_id() is Some ==> r is Err,
            r is Err ==> *final(self) == *old(self),
            r is Ok ==> final(self).spec_upper() == Some(upper@),
    ;
}

/// Common trait for all case-insensitive filesystem handles
pub trait CaseInsensitive: Filesystem {

}

/// Common trait for all filesystem handles that can be recovered by using
/// system information, ex: the table of mounted filesystems.
pub trait StateRecovery: Filesystem {
    /// One entry of what the system lists: a mounted filesystem or a running
    /// process.
    type Record;

    /// Recover a filesystem handle from system information.
    ///
    /// `records` is what the system lists now, `found` the filesystem that
    /// `path` lies on now. A recovered handle is mounted at `path` and does
    /// not unmount when its owner lets it go: what it stands for was mounted
    /// by someone else.
    fn recover(path: &str, records: &Vec<Self::Record>, found: Option<PartitionID>) -> (r: Result<
        Self,
        FsError,
    >)
        ensures
            r is Ok ==> r->Ok_0.spec_target() == path@ && found is Some && r->Ok_0.spec_id()
                == found && !r->Ok_0.spec_unmount_on_drop(),
    ;
}

} // verus!
