//! The kernel's overlay filesystem.

pub mod law;
pub mod opt;

use crate::error::FsError;
use crate::fs::step_result;
use crate::fs::Action;
use crate::fs::ActionView;
use crate::fs::Filesystem;
use crate::fs::StackableFilesystem;
use crate::fs::StateRecovery;
use crate::fs::Step;
use crate::fs::StepView;
use crate::option::default_options;
use crate::option::kinds_unique;
use crate::option::lemma_defaults_kinds_unique;
use crate::option::lemma_remove_option_keeps_kinds_unique;
use crate::option::lemma_set_option_keeps_kinds_unique;
use crate::option::remove_option_helper;
use crate::option::remove_option_spec;
use crate::option::set_option_helper;
use crate::option::set_option_spec;
use crate::option::LinuxFilesystem;
use crate::option::MountOption;
use crate::option::MountOptionView;
use crate::overlay::opt::OverlayFsOption;
use crate::partition::PartitionID;
use crate::recover::no_layers;
use crate::recover::restore_fsdata;
use crate::recover::restore_spec;
use crate::recover::sort_options;
use crate::recover::Layers;
use crate::recover::MountEntry;
use crate::recover::MountEntryView;
use crate::stack::borrow_paths;
use crate::stack::colocated;
use crate::stack::due;
use crate::stack::finish_mount_spec;
use crate::stack::finish_unmount_spec;
use crate::stack::gate;
use crate::stack::kernel_layers;
use crate::stack::kernel_layers_spec;
use crate::stack::mount_gate;
use crate::stack::option_suffix_spec;
use crate::stack::push_option_suffix;
use crate::stack::set_upper_spec;
use crate::stack::set_work_spec;
use crate::stack::unmount_due;
use crate::stack::StackView;
use crate::text::contains;
use crate::text::contains_text;
use vstd::prelude::*;

verus! {

/// Kernel overlay filesystem handle
#[derive(Debug)]
pub struct OverlayFs {
    lower: Vec<String>,
    upper: Option<String>,
    work: Option<String>,
    target: String,
    options: Vec<MountOption<OverlayFsOption>>,
    id: Option<PartitionID>,
    drop: bool,
}

impl DeepView for OverlayFs {
    type V = StackView<OverlayFsOption>;

    closed spec fn deep_view(&self) -> StackView<OverlayFsOption> {
        StackView {
            lower: self.lower.deep_view(),
            upper: self.upper.deep_view(),
            work: self.work.deep_view(),
            target: self.target@,
            options: self.options.deep_view(),
            id: self.id,
            unmount_on_drop: self.drop,
        }
    }
}

/// Whether the process runs with the rights of the superuser.
///
/// Calls `nix::unistd::geteuid` and `Uid::is_root`. Nothing is claimed of the
/// answer: it is whatever the system says of this process.
#[verifier::external_body]
fn privileged() -> (b: bool) {
    nix::unistd::geteuid().is_root()
}

impl OverlayFs {
    /// A handle that is not mounted, with the default options.
    pub open spec fn fresh(
        lower: Seq<Seq<char>>,
        upper: Option<Seq<char>>,
        work: Option<Seq<char>>,
        target: Seq<char>,
        drop: bool,
    ) -> StackView<OverlayFsOption> {
        StackView {
            lower,
            upper,
            work,
            target,
            options: default_options::<OverlayFsOption>(),
            id: None,
            unmount_on_drop: drop,
        }
    }

    /// Whether the handle holds each kind of option at most once.
    pub open spec fn well_formed(&self) -> bool {
        kinds_unique::<OverlayFsOption>(self.deep_view().options)
    }

    /// What is asked of the kernel to mount `h`: the type `overlay`, the
    /// layers and then the options as its data, and read-only unless both an
    /// upper and a work directory are set.
    pub open spec fn request(h: StackView<OverlayFsOption>) -> ActionView {
        ActionView::KernelMount {
            fstype: "overlay"@,
            target: h.target,
            read_only: !(h.upper is Some && h.work is Some),
            data: kernel_layers_spec(h.lower, h.upper, h.work) + option_suffix_spec::<
                OverlayFsOption,
            >(h.options),
        }
    }

    /// The handle after a mount request, and what the request returns.
    ///
    /// A request that is not settled beforehand sets the user xattr option
    /// for a process without the rights of the superuser, which may be
    /// refused, and then asks for the mount.
    pub open spec fn mount_spec(
        h: StackView<OverlayFsOption>,
        available: bool,
        found: Option<PartitionID>,
        privileged: bool,
    ) -> (StackView<OverlayFsOption>, Result<StepView, FsError>) {
        match mount_gate(h.id, available, found) {
            Some(r) => (h, r),
            None => {
                let options = if privileged {
                    Ok(h.options)
                } else {
                    set_option_spec::<OverlayFsOption>(
                        h.options,
                        MountOptionView::FsSpecific(OverlayFsOption::UserXattr),
                    )
                };
                match options {
                    Err(e) => (h, Err(e)),
                    Ok(o) => {
                        let after = StackView { options: o, ..h };
                        (after, Ok(StepView::Perform(Self::request(after))))
                    },
                }
            },
        }
    }

    /// What is asked of the kernel to unmount `h`.
    pub open spec fn release(h: StackView<OverlayFsOption>) -> ActionView {
        ActionView::KernelUnmount { target: h.target }
    }

    /// What an unmount request returns.
    pub open spec fn unmount_spec(
        h: StackView<OverlayFsOption>,
        found: Option<PartitionID>,
    ) -> Result<StepView, FsError> {
        match unmount_due(h.id, found) {
            Err(e) => Err(e),
            Ok(false) => Ok(StepView::Done),
            Ok(true) => Ok(StepView::Perform(Self::release(h))),
        }
    }

    /// The handle that the table of mounted filesystems gives for `path`.
    ///
    /// Without an entry at `path` there is none. The layers are taken out of
    /// the entry's options and every other option is retained. The handle is
    /// mounted on the filesystem that `path` lies on, and does not unmount
    /// when its owner lets it go.
    pub open spec fn recover_spec(
        path: Seq<char>,
        entries: Seq<MountEntryView>,
        found: Option<PartitionID>,
    ) -> Result<StackView<OverlayFsOption>, FsError> {
        match restore_spec::<OverlayFsOption>(path, entries) {
            None => Err(FsError::NotRecovered),
            Some(options) => {
                let layers = sort_options(no_layers::<OverlayFsOption>(), options);
                if found is None {
                    Err(FsError::UnknownIdentity)
                } else {
                    Ok(
                        StackView {
                            lower: layers.lower,
                            upper: layers.upper,
                            work: layers.work,
                            target: path,
                            options: layers.options,
                            id: found,
                            unmount_on_drop: false,
                        },
                    )
                }
            },
        }
    }

    /// A mount followed at once by a second mount: once the first has
    /// succeeded with the target on the filesystem `id`, the second, with the
    /// target still there, asks nothing of the system and leaves the handle
    /// as it is.
    pub proof fn lemma_second_mount_is_done(
        h: StackView<OverlayFsOption>,
        id: PartitionID,
        privileged: bool,
    )
        ensures
            ({
                let first = finish_mount_spec(h, true, Some(id));
                &&& first.1 == Ok::<Seq<char>, FsError>(h.target)
                &&& Self::mount_spec(first.0, true, Some(id), privileged) == (
                    first.0,
                    Ok::<StepView, FsError>(StepView::Done),
                )
            }),
    {
    }

    /// Without an upper directory, whatever is asked of the kernel is a
    /// read-only mount.
    pub proof fn lemma_read_only_without_upper(
        h: StackView<OverlayFsOption>,
        available: bool,
        found: Option<PartitionID>,
        privileged: bool,
    )
        requires
            h.upper is None,
        ensures
            ({
                let r = Self::mount_spec(h, available, found, privileged).1;
                r is Ok && r->Ok_0 is Perform ==> r->Ok_0->Perform_0 is KernelMount
                    && r->Ok_0->Perform_0->KernelMount_read_only
            }),
    {
    }

    /// A handle with these layers and this target, not mounted, with the
    /// default options.
    pub fn new(
        lower: Vec<String>,
        upper: Option<String>,
        work: Option<String>,
        target: String,
        drop: bool,
    ) -> (r: Result<OverlayFs, FsError>)
        ensures
            r is Ok,
            r->Ok_0.deep_view() == Self::fresh(
                lower.deep_view(),
                upper.deep_view(),
                work.deep_view(),
                target@,
                drop,
            ),
            r->Ok_0.well_formed(),
    {
        proof {
            lemma_defaults_kinds_unique::<OverlayFsOption>();
        }
        Ok(
            OverlayFs {
                lower,
                upper,
                work,
                target,
                options: MountOption::defaults(),
                id: None,
                drop,
            },
        )
    }

    /// A handle without upper layer over at least two lower layers, which
    /// unmounts when its owner lets it go. Fewer layers are refused with
    /// `TooFewLayers`.
    pub fn readonly(lower: Vec<String>, target: String) -> (r: Result<OverlayFs, FsError>)
        ensures
            lower.len() < 2 ==> r is Err && r->Err_0 == FsError::TooFewLayers,
            lower.len() >= 2 ==> r is Ok && r->Ok_0.deep_view() == Self::fresh(
                lower.deep_view(),
                None,
                None,
                target@,
                true,
            ) && r->Ok_0.well_formed(),
    {
        if lower.len() < 2 {
            return Err(FsError::TooFewLayers);
        }
        proof {
            lemma_defaults_kinds_unique::<OverlayFsOption>();
        }
        Ok(
            OverlayFs {
                lower,
                upper: None,
                work: None,
                target,
                options: MountOption::defaults(),
                id: None,
                drop: true,
            },
        )
    }

    /// A handle with an upper and a work directory, which unmounts when its
    /// owner lets it go.
    ///
    /// `upper_id` and `work_id` are the filesystems that `upper` and `work`
    /// lie on, `None` for a directory that does not exist. Both must exist
    /// and lie on one filesystem.
    pub fn writable(
        lower: Vec<String>,
        upper: String,
        work: String,
        target: String,
        upper_id: Option<PartitionID>,
        work_id: Option<PartitionID>,
    ) -> (r: Result<OverlayFs, FsError>)
        ensures
            match colocated(upper_id, work_id) {
                Err(e) => r is Err && r->Err_0 == e,
                Ok(_) => r is Ok && r->Ok_0.deep_view() == Self::fresh(
                    lower.deep_view(),
                    Some(upper@),
                    Some(work@),
                    target@,
                    true,
                ) && r->Ok_0.well_formed(),
            },
    {
        match (upper_id, work_id) {
            (Some(u), Some(w)) => {
                if !u.same(&w) {
                    return Err(FsError::CrossFilesystem);
                }
            },
            _ => {
                return Err(FsError::NotFound);
            },
        }
        proof {
            lemma_defaults_kinds_unique::<OverlayFsOption>();
        }
        Ok(
            OverlayFs {
                lower,
                upper: Some(upper),
                work: Some(work),
                target,
                options: MountOption::defaults(),
                id: None,
                drop: true,
            },
        )
    }

    /// Retrieve the work directory if set
    pub fn work(&self) -> (r: Option<&String>)
        ensures
            r.deep_view() == self.deep_view().work,
    {
        self.work.as_ref()
    }

    /// Set the work directory.
    ///
    /// `work_id` is the filesystem that `work` lies on, `upper_id` the one
    /// that the handle's upper directory lies on. The handle must have an
    /// upper directory, on the filesystem of `work`, and must not be
    /// mounted. A handle that refuses stays as it is.
    pub fn set_work(
        &mut self,
        work: String,
        work_id: Option<PartitionID>,
        upper_id: Option<PartitionID>,
    ) -> (r: Result<(), FsError>)
        ensures
            r == set_work_spec(old(self).deep_view(), work_id, upper_id),
            r is Err ==> *final(self) == *old(self),
            r is Ok ==> final(self).deep_view() == (StackView {
                work: Some(work@),
                ..old(self).deep_view()
            }),
    {
        let w = match work_id {
            Some(w) => w,
            None => {
                return Err(FsError::NotFound);
            },
        };
        if self.upper.is_none() {
            return Err(FsError::UpperNotSet);
        }
        let u = match upper_id {
            Some(u) => u,
            None => {
                return Err(FsError::NotFound);
            },
        };
        if !w.same(&u) {
            return Err(FsError::CrossFilesystem);
        }
        if self.id.is_some() {
            return Err(FsError::Mounted);
        }
        self.work = Some(work);
        Ok(())
    }

    /// Request a handle to mount the filesystem, for a process that has the
    /// rights of the superuser or has not.
    ///
    /// `filesystems` is the kernel's list of filesystem types, `found` the
    /// filesystem that the target lies on now.
    pub fn mount_as(
        &mut self,
        filesystems: &String,
        found: Option<PartitionID>,
        privileged: bool,
    ) -> (r: Result<Step, FsError>)
        ensures
            (final(self).deep_view(), step_result(r)) == Self::mount_spec(
                old(self).deep_view(),
                contains(filesystems@, "overlay"@),
                found,
                privileged,
            ),
            r is Err || r->Ok_0 is Done ==> *final(self) == *old(self),
            old(self).well_formed() ==> final(self).well_formed(),
    {
        let available = contains_text(filesystems.as_str(), "overlay");
        match gate(&self.id, available, found) {
            Some(r) => {
                return r;
            },
            None => {},
        }
        if !privileged {
            proof {
                if old(self).well_formed() && set_option_spec::<OverlayFsOption>(
                    self.options.deep_view(),
                    MountOptionView::FsSpecific(OverlayFsOption::UserXattr),
                ) is Ok {
                    lemma_set_option_keeps_kinds_unique::<OverlayFsOption>(
                        self.options.deep_view(),
                        MountOptionView::FsSpecific(OverlayFsOption::UserXattr),
                    );
                }
            }
            match set_option_helper(
                &mut self.options,
                MountOption::FsSpecific(OverlayFsOption::UserXattr),
            ) {
                Ok(_) => {},
                Err(e) => {
                    return Err(e);
                },
            }
        }
        let mut data = kernel_layers(&self.lower, &self.upper, &self.work);
        push_option_suffix(&mut data, &self.options);
        let read_only = !(self.upper.is_some() && self.work.is_some());
        Ok(
            Step::Perform(
                Action::KernelMount {
                    fstype: "overlay".to_owned(),
                    target: self.target.clone(),
                    read_only,
                    data,
                },
            ),
        )
    }
}

impl Filesystem for OverlayFs {
    /// The kernel's list of filesystem types, as `/proc/filesystems` gives it.
    type Evidence = String;

    open spec fn spec_target(&self) -> Seq<char> {
        self.deep_view().target
    }

    open spec fn spec_id(&self) -> Option<PartitionID> {
        self.deep_view().id
    }

    open spec fn spec_unmount_on_drop(&self) -> bool {
        self.deep_view().unmount_on_drop
    }

    /// The backend is at hand where the kernel lists the overlay type.
    open spec fn available(evidence: &String) -> bool {
        contains(evidence@, "overlay"@)
    }

    /// Asks for the mount as `mount_as` does, for this process.
    fn mount(&mut self, evidence: &String, found: Option<PartitionID>) -> (r: Result<
        Step,
        FsError,
    >)
        ensures
            exists|privileged: bool|
                (final(self).deep_view(), step_result(r)) == #[trigger] Self::mount_spec(
                    old(self).deep_view(),
                    Self::available(evidence),
                    found,
                    privileged,
                ),
            old(self).well_formed() ==> final(self).well_formed(),
    {
        let privileged = privileged();
        let r = self.mount_as(evidence, found, privileged);
        proof {
            assert((self.deep_view(), step_result(r)) == Self::mount_spec(
                old(self).deep_view(),
                Self::available(evidence),
                found,
                privileged,
            ));
        }
        r
    }

    fn finish_mount(&mut self, done: bool, found: Option<PartitionID>) -> (r: Result<
        String,
        FsError,
    >)
        ensures
            final(self).deep_view() == finish_mount_spec(old(self).deep_view(), done, found).0,
            match finish_mount_spec(old(self).deep_view(), done, found).1 {
                Ok(target) => r is Ok && r->Ok_0@ == target,
                Err(e) => r is Err && r->Err_0 == e,
            },
    {
        if !done {
            return Err(FsError::MountFailed);
        }
        match found {
            None => Err(FsError::UnknownIdentity),
            Some(id) => {
                self.id = Some(id);
                Ok(self.target.clone())
            },
        }
    }

    fn unmount(&self, found: Option<PartitionID>) -> (r: Result<Step, FsError>)
        ensures
            step_result(r) == Self::unmount_spec(self.deep_view(), found),
    {
        match due(&self.id, found) {
            Err(e) => Err(e),
            Ok(false) => Ok(Step::Done),
            Ok(true) => Ok(Step::Perform(Action::KernelUnmount { target: self.target.clone() })),
        }
    }

    fn finish_unmount(&mut self, done: bool) -> (r: Result<(), FsError>)
        ensures
            (final(self).deep_view(), r) == finish_unmount_spec(old(self).deep_view(), done),
    {
        if done {
            self.id = None;
            Ok(())
        } else {
            Err(FsError::UnmountFailed)
        }
    }

    fn unmount_on_drop(&self) -> (b: bool) {
        self.drop
    }

    fn set_unmount_on_drop(&mut self, drop: bool)
        ensures
            final(self).deep_view() == (StackView {
                unmount_on_drop: drop,
                ..old(self).deep_view()
            }),
    {
        self.drop = drop;
    }

    fn id(&self) -> (r: Option<&PartitionID>) {
        self.id.as_ref()
    }

    fn target(&self) -> (r: String) {
        self.target.clone()
    }

    fn set_target(&mut self, target: &str) -> (r: Result<(), FsError>)
        ensures
            r is Ok ==> final(self).deep_view() == (StackView {
                target: target@,
                ..old(self).deep_view()
            }),
    {
        if self.id.is_some() {
            return Err(FsError::Mounted);
        }
        self.target = target.to_owned();
        Ok(())
    }

    fn is_available(evidence: &String) -> (b: bool) {
        contains_text(evidence.as_str(), "overlay")
    }

    fn mounted(&self) -> (b: bool) {
        self.id.is_some()
    }
}

impl LinuxFilesystem<OverlayFsOption> for OverlayFs {
    open spec fn spec_options(&self) -> Seq<MountOptionView<OverlayFsOption>> {
        self.deep_view().options
    }

    fn set_option(&mut self, option: MountOption<OverlayFsOption>) -> (r: Result<(), FsError>)
        ensures
            r is Ok ==> final(self).deep_view() == (StackView {
                options: final(self).deep_view().options,
                ..old(self).deep_view()
            }),
            old(self).well_formed() ==> final(self).well_formed(),
    {
        proof {
            if old(self).well_formed() && set_option_spec::<OverlayFsOption>(
                self.options.deep_view(),
                option.deep_view(),
            ) is Ok {
                lemma_set_option_keeps_kinds_unique::<OverlayFsOption>(
                    self.options.deep_view(),
                    option.deep_view(),
                );
            }
        }
        set_option_helper(&mut self.options, option)
    }

    fn remove_option(&mut self, option: MountOption<OverlayFsOption>) -> (r: Result<(), FsError>)
        ensures
            final(self).deep_view() == (StackView {
                options: final(self).deep_view().options,
                ..old(self).deep_view()
            }),
            old(self).well_formed() ==> final(self).well_formed(),
    {
        proof {
            if old(self).well_formed() {
                lemma_remove_option_keeps_kinds_unique::<OverlayFsOption>(
                    self.options.deep_view(),
                    option.deep_view(),
                );
            }
        }
        remove_option_helper(&mut self.options, &option);
        Ok(())
    }

    fn options(&self) -> (r: &[MountOption<OverlayFsOption>]) {
        let r = self.options.as_slice();
        proof {
            assert(r.deep_view() =~= self.options.deep_view());
        }
        r
    }
}

impl StackableFilesystem for OverlayFs {
    open spec fn spec_lower(&self) -> Seq<Seq<char>> {
        self.deep_view().lower
    }

    open spec fn spec_upper(&self) -> Option<Seq<char>> {
        self.deep_view().upper
    }

    fn lower(&self) -> (r: Vec<&str>) {
        borrow_paths(&self.lower)
    }

    fn set_lower(&mut self, lower: Vec<String>) -> (r: Result<(), FsError>)
        ensures
            r is Ok ==> final(self).deep_view() == (StackView {
                lower: lower.deep_view(),
                ..old(self).deep_view()
            }),
    {
        if self.id.is_some() {
            return Err(FsError::Mounted);
        }
        self.lower = lower;
        Ok(())
    }

    fn upper(&self) -> (r: Option<&str>) {
        match &self.upper {
            Some(u) => Some(u.as_str()),
            None => None,
        }
    }

    /// The handle must have a work directory, on the filesystem of `upper`,
    /// and must not be mounted.
    fn set_upper(
        &mut self,
        upper: String,
        upper_id: Option<PartitionID>,
        work_id: Option<PartitionID>,
    ) -> (r: Result<(), FsError>)
        ensures
            r == set_upper_spec(old(self).deep_view(), upper_id, work_id),
            r is Ok ==> final(self).deep_view() == (StackView {
                upper: Some(upper@),
                ..old(self).deep_view()
            }),
    {
        let u = match upper_id {
            Some(u) => u,
            None => {
                return Err(FsError::NotFound);
            },
        };
        if self.work.is_none() {
            return Err(FsError::WorkNotSet);
        }
        let w = match work_id {
            Some(w) => w,
            None => {
                return Err(FsError::NotFound);
            },
        };
        if !u.same(&w) {
            return Err(FsError::CrossFilesystem);
        }
        if self.id.is_some() {
            return Err(FsError::Mounted);
        }
        self.upper = Some(upper);
        Ok(())
    }
}

impl StateRecovery for OverlayFs {
    /// One line of the table of mounted filesystems.
    type Record = MountEntry;

    fn recover(path: &str, records: &Vec<MountEntry>, found: Option<PartitionID>) -> (r: Result<
        OverlayFs,
        FsError,
    >)
        ensures
            match Self::recover_spec(path@, records.deep_view(), found) {
                Ok(h) => r is Ok && r->Ok_0.deep_view() == h,
                Err(e) => r is Err && r->Err_0 == e,
            },
    {
        let data = match restore_fsdata::<OverlayFsOption>(path, records) {
            Some(data) => data,
            None => {
                return Err(FsError::NotRecovered);
            },
        };
        let mut layers: Layers<OverlayFsOption> = Layers::new();
        layers.sort_all(data.into_options());
        let id = match found {
            Some(id) => id,
            None => {
                return Err(FsError::UnknownIdentity);
            },
        };
        let Layers { lower, upper, work, options } = layers;
        Ok(
            OverlayFs {
                lower,
                upper,
                work,
                target: path.to_owned(),
                options,
                id: Some(id),
                drop: false,
            },
        )
    }
}

} // verus!
