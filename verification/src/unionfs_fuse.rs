//! unionfs-fuse, the union filesystem in user space.

pub mod opt;

use crate::error::FsError;
use crate::fs::step_result;
use crate::fs::Action;
use crate::fs::ActionView;
use crate::fs::Filesystem;
use crate::fs::Launcher;
use crate::fs::StackableFilesystem;
use crate::fs::Step;
use crate::fs::StepView;
use crate::option::default_options;
use crate::option::kinds_unique;
use crate::option::lemma_defaults_kinds_unique;
use crate::option::lemma_remove_option_keeps_kinds_unique;
use crate::option::lemma_set_option_keeps_kinds_unique;
use crate::option::remove_option_helper;
use crate::option::set_option_helper;
use crate::option::set_option_spec;
use crate::option::LinuxFilesystem;
use crate::option::MountOption;
use crate::option::MountOptionView;
use crate::partition::PartitionID;
use crate::stack::borrow_paths;
use crate::stack::due;
use crate::stack::finish_mount_spec;
use crate::stack::finish_unmount_spec;
use crate::stack::gate;
use crate::stack::mount_gate;
use crate::stack::option_list;
use crate::stack::option_list_spec;
use crate::stack::union_layers;
use crate::stack::union_layers_spec;
use crate::stack::unmount_due;
use crate::stack::StackView;
use crate::unionfs_fuse::opt::UnionFsFuseOption;
use crate::unionfs_fuse::opt::UnionFsFuseOptionView;
use vstd::prelude::*;

verus! {

/// Unionfs fuse filesystem handle
#[derive(Debug)]
pub struct UnionFsFuse {
    lower: Vec<String>,
    upper: Option<String>,
    target: String,
    options: Vec<MountOption<UnionFsFuseOption>>,
    id: Option<PartitionID>,
    drop: bool,
}

impl DeepView for UnionFsFuse {
    type V = StackView<UnionFsFuseOptionView>;

    /// A union handle has no work directory.
    closed spec fn deep_view(&self) -> StackView<UnionFsFuseOptionView> {
        StackView {
            lower: self.lower.deep_view(),
            upper: self.upper.deep_view(),
            work: None,
            target: self.target@,
            options: self.options.deep_view(),
            id: self.id,
            unmount_on_drop: self.drop,
        }
    }
}

impl UnionFsFuse {
    /// A handle that is not mounted, with the default options.
    pub open spec fn fresh(
        lower: Seq<Seq<char>>,
        upper: Option<Seq<char>>,
        target: Seq<char>,
        drop: bool,
    ) -> StackView<UnionFsFuseOptionView> {
        StackView {
            lower,
            upper,
            work: None,
            target,
            options: default_options::<UnionFsFuseOption>(),
            id: None,
            unmount_on_drop: drop,
        }
    }

    /// Whether the handle holds each kind of option at most once.
    pub open spec fn well_formed(&self) -> bool {
        kinds_unique::<UnionFsFuseOption>(self.deep_view().options)
    }

    /// The program that is run to mount `h`, and its arguments: `-o`, the
    /// options joined by commas, the branches, and the target.
    pub open spec fn request(h: StackView<UnionFsFuseOptionView>) -> ActionView {
        ActionView::Run {
            program: "unionfs"@,
            args: seq![
                "-o"@,
                option_list_spec::<UnionFsFuseOption>(h.options),
                union_layers_spec(h.lower, h.upper),
                h.target,
            ],
        }
    }

    /// What a mount request returns.
    pub open spec fn mount_spec(
        h: StackView<UnionFsFuseOptionView>,
        available: bool,
        found: Option<PartitionID>,
    ) -> Result<StepView, FsError> {
        match mount_gate(h.id, available, found) {
            Some(r) => r,
            None => Ok(StepView::Perform(Self::request(h))),
        }
    }

    /// The program that is run to unmount `h`: the FUSE unmount helper, lazy
    /// and forced, on the target.
    pub open spec fn release(h: StackView<UnionFsFuseOptionView>) -> ActionView {
        ActionView::Run { program: "fusermount"@, args: seq!["-z"@, "-u"@, h.target] }
    }

    /// What an unmount request returns.
    pub open spec fn unmount_spec(
        h: StackView<UnionFsFuseOptionView>,
        found: Option<PartitionID>,
    ) -> Result<StepView, FsError> {
        match unmount_due(h.id, found) {
            Err(e) => Err(e),
            Ok(false) => Ok(StepView::Done),
            Ok(true) => Ok(StepView::Perform(Self::release(h))),
        }
    }

    /// A mount followed at once by a second mount: once the first has
    /// succeeded with the target on the filesystem `id`, the second, with the
    /// target still there, asks nothing of the system.
    pub proof fn lemma_second_mount_is_done(h: StackView<UnionFsFuseOptionView>, id: PartitionID)
        ensures
            ({
                let first = finish_mount_spec(h, true, Some(id));
                &&& first.1 == Ok::<Seq<char>, FsError>(h.target)
                &&& Self::mount_spec(first.0, true, Some(id)) == Ok::<StepView, FsError>(
                    StepView::Done,
                )
            }),
    {
    }

    /// Initialise a new UnionFsFuse handle
    pub fn new(lower: Vec<String>, upper: Option<String>, target: String, drop: bool) -> (r: Result<
        UnionFsFuse,
        FsError,
    >)
        ensures
            r is Ok,
            r->Ok_0.deep_view() == Self::fresh(lower.deep_view(), upper.deep_view(), target@, drop),
            r->Ok_0.well_formed(),
    {
        proof {
            lemma_defaults_kinds_unique::<UnionFsFuseOption>();
        }
        Ok(UnionFsFuse { lower, upper, target, options: MountOption::defaults(), id: None, drop })
    }

    /// Initialise a new readonly UnionFsFuse handle over at least two lower
    /// layers, which unmounts when its owner lets it go. Fewer layers are
    /// refused with `TooFewLayers`.
    pub fn readonly(lower: Vec<String>, target: String) -> (r: Result<UnionFsFuse, FsError>)
        ensures
            lower.len() < 2 ==> r is Err && r->Err_0 == FsError::TooFewLayers,
            lower.len() >= 2 ==> r is Ok && r->Ok_0.deep_view() == Self::fresh(
                lower.deep_view(),
                None,
                target@,
                true,
            ) && r->Ok_0.well_formed(),
    {
        if lower.len() < 2 {
            return Err(FsError::TooFewLayers);
        }
        Self::new(lower, None, target, true)
    }

    /// Initialise a new writable UnionFsFuse handle, which unmounts when its
    /// owner lets it go.
    pub fn writable(lower: Vec<String>, upper: String, target: String) -> (r: Result<
        UnionFsFuse,
        FsError,
    >)
        ensures
            r is Ok,
            r->Ok_0.deep_view() == Self::fresh(lower.deep_view(), Some(upper@), target@, true),
            r->Ok_0.well_formed(),
    {
        Self::new(lower, Some(upper), target, true)
    }
}

impl Filesystem for UnionFsFuse {
    /// How the program is had.
    type Evidence = Launcher;

    open spec fn spec_target(&self) -> Seq<char> {
        self.deep_view().target
    }

    open spec fn spec_id(&self) -> Option<PartitionID> {
        self.deep_view().id
    }

    open spec fn spec_unmount_on_drop(&self) -> bool {
        self.deep_view().unmount_on_drop
    }

    /// The backend is at hand where its program can be run.
    open spec fn available(evidence: &Launcher) -> bool {
        evidence.ready()
    }

    fn mount(&mut self, evidence: &Launcher, found: Option<PartitionID>) -> (r: Result<
        Step,
        FsError,
    >)
        ensures
            *final(self) == *old(self),
            step_result(r) == Self::mount_spec(
                old(self).deep_view(),
                Self::available(evidence),
                found,
            ),
    {
        match gate(&self.id, evidence.is_ready(), found) {
            Some(r) => {
                return r;
            },
            None => {},
        }
        let options = option_list(&self.options);
        let layers = union_layers(&self.lower, &self.upper);
        let args = vec!["-o".to_owned(), options, layers, self.target.clone()];
        proof {
            assert(args.deep_view() =~= Self::request(self.deep_view())->Run_args);
        }
        Ok(Step::Perform(Action::Run { program: "unionfs".to_owned(), args }))
    }

    fn finish_mount(&mut self, done: bool, found: Option<PartitionID>) -> (r: Result<
        String,
        FsError,
    >)
        ensures
            final(self).deep_view() == finish_mount_spec(old(self).deep_view(), done, found).0,
            match finish_mount_spec(old(self).deep_view(), done, found).1 {
                Ok(target) => r is Ok && r->Ok_0@ == target,
                Err(e) => r is Err && r->Err_0 == e,
            },
    {
        if !done {
            return Err(FsError::MountFailed);
        }
        match found {
            None => Err(FsError::UnknownIdentity),
            Some(id) => {
                self.id = Some(id);
                Ok(self.target.clone())
            },
        }
    }

    fn unmount(&self, found: Option<PartitionID>) -> (r: Result<Step, FsError>)
        ensures
            step_result(r) == Self::unmount_spec(self.deep_view(), found),
    {
        match due(&self.id, found) {
            Err(e) => Err(e),
            Ok(false) => Ok(Step::Done),
            Ok(true) => {
                let args = vec!["-z".to_owned(), "-u".to_owned(), self.target.clone()];
                proof {
                    assert(args.deep_view() =~= Self::release(self.deep_view())->Run_args);
                }
                Ok(Step::Perform(Action::Run { program: "fusermount".to_owned(), args }))
            },
        }
    }

    fn finish_unmount(&mut self, done: bool) -> (r: Result<(), FsError>)
        ensures
            (final(self).deep_view(), r) == finish_unmount_spec(old(self).deep_view(), done),
    {
        if done {
            self.id = None;
            Ok(())
        } else {
            Err(FsError::UnmountFailed)
        }
    }

    fn unmount_on_drop(&self) -> (b: bool) {
        self.drop
    }

    fn set_unmount_on_drop(&mut self, drop: bool)
        ensures
            final(self).deep_view() == (StackView {
                unmount_on_drop: drop,
                ..old(self).deep_view()
            }),
    {
        self.drop = drop;
    }

    fn id(&self) -> (r: Option<&PartitionID>) {
        self.id.as_ref()
    }

    fn target(&self) -> (r: String) {
        self.target.clone()
    }

    fn set_target(&mut self, target: &str) -> (r: Result<(), FsError>)
        ensures
            r is Ok ==> final(self).deep_view() == (StackView {
                target: target@,
                ..old(self).deep_view()
            }),
    {
        if self.id.is_some() {
            return Err(FsError::Mounted);
        }
        self.target = target.to_owned();
        Ok(())
    }

    fn is_available(evidence: &Launcher) -> (b: bool) {
        evidence.is_ready()
    }

    fn mounted(&self) -> (b: bool) {
        self.id.is_some()
    }
}

impl LinuxFilesystem<UnionFsFuseOption> for UnionFsFuse {
    open spec fn spec_options(&self) -> Seq<MountOptionView<UnionFsFuseOptionView>> {
        self.deep_view().options
    }

    fn set_option(&mut self, option: MountOption<UnionFsFuseOption>) -> (r: Result<(), FsError>)
        ensures
            r is Ok ==> final(self).deep_view() == (StackView {
                options: final(self).deep_view().options,
                ..old(self).deep_view()
            }),
            old(self).well_formed() ==> final(self).well_formed(),
    {
        proof {
            if old(self).well_formed() && set_option_spec::<UnionFsFuseOption>(
                self.options.deep_view(),
                option.deep_view(),
            ) is Ok {
                lemma_set_option_keeps_kinds_unique::<UnionFsFuseOption>(
                    self.options.deep_view(),
                    option.deep_view(),
                );
            }
        }
        set_option_helper(&mut self.options, option)
    }

    fn remove_option(&mut self, option: MountOption<UnionFsFuseOption>) -> (r: Result<
        (),
        FsError,
    >)
        ensures
            final(self).deep_view() == (StackView {
                options: final(self).deep_view().options,
                ..old(self).deep_view()
            }),
            old(self).well_formed() ==> final(self).well_formed(),
    {
        proof {
            if old(self).well_formed() {
                lemma_remove_option_keeps_kinds_unique::<UnionFsFuseOption>(
                    self.options.deep_view(),
                    option.deep_view(),
                );
            }
        }
        remove_option_helper(&mut self.options, &option);
        Ok(())
    }

    fn options(&self) -> (r: &[MountOption<UnionFsFuseOption>]) {
        let r = self.options.as_slice();
        proof {
            assert(r.deep_view() =~= self.options.deep_view());
        }
        r
    }
}

impl StackableFilesystem for UnionFsFuse {
    open spec fn spec_lower(&self) -> Seq<Seq<char>> {
        self.deep_view().lower
    }

    open spec fn spec_upper(&self) -> Option<Seq<char>> {
        self.deep_view().upper
    }

    fn lower(&self) -> (r: Vec<&str>) {
        borrow_paths(&self.lower)
    }

    fn set_lower(&mut self, lower: Vec<String>) -> (r: Result<(), FsError>)
        ensures
            r is Ok ==> final(self).deep_view() == (StackView {
                lower: lower.deep_view(),
                ..old(self).deep_view()
            }),
    {
        if self.id.is_some() {
            return Err(FsError::Mounted);
        }
        self.lower = lower;
        Ok(())
    }

    fn upper(&self) -> (r: Option<&str>) {
        match &self.upper {
            Some(u) => Some(u.as_str()),
            None => None,
        }
    }

    /// Only a mounted handle refuses, with `Mounted`; neither filesystem is
    /// read.
    fn set_upper(
        &mut self,
        upper: String,
        upper_id: Option<PartitionID>,
        work_id: Option<PartitionID>,
    ) -> (r: Result<(), FsError>)
        ensures
            old(self).deep_view().id is Some ==> r == Err::<(), FsError>(FsError::Mounted),
            old(self).deep_view().id is None ==> r is Ok,
            r is Ok ==> final(self).deep_view() == (StackView {
                upper: Some(upper@),
                ..old(self).deep_view()
            }),
    {
        if self.id.is_some() {
            return Err(FsError::Mounted);
        }
        self.upper = Some(upper);
        Ok(())
    }
}

} // verus!
