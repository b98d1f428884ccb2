//! fuse-overlayfs, the overlay filesystem in user space.

pub mod opt;

use crate::error::FsError;
use crate::fs::step_result;
use crate::fs::Action;
use crate::fs::ActionView;
use crate::fs::Filesystem;
use crate::fs::Launcher;
use crate::fs::StackableFilesystem;
use crate::fs::StateRecovery;
use crate::fs::Step;
use crate::fs::StepView;
use crate::fuseoverlay::opt::FuseOverlayFsOption;
use crate::option::default_options;
use crate::option::kinds_unique;
use crate::option::lemma_defaults_kinds_unique;
use crate::option::lemma_remove_option_keeps_kinds_unique;
use crate::option::lemma_set_option_keeps_kinds_unique;
use crate::option::remove_option_helper;
use crate::option::set_option_helper;
use crate::option::set_option_spec;
use crate::option::LinuxFilesystem;
use crate::option::MountOption;
use crate::option::MountOptionView;
use crate::partition::PartitionID;
use crate::recover::no_layers;
use crate::recover::parse_options;
use crate::recover::parsed_options;
use crate::recover::sort_options;
use crate::recover::Layers;
use crate::recover::LayersView;
use crate::stack::borrow_paths;
use crate::stack::colocated;
use crate::stack::due;
use crate::stack::finish_mount_spec;
use crate::stack::finish_unmount_spec;
use crate::stack::fuse_layers;
use crate::stack::fuse_layers_spec;
use crate::stack::gate;
use crate::stack::mount_gate;
use crate::stack::option_suffix_spec;
use crate::stack::push_option_suffix;
use crate::stack::set_upper_spec;
use crate::stack::set_work_spec;
use crate::stack::unmount_due;
use crate::stack::StackView;
use crate::text::after;
use crate::text::chars_of;
use crate::text::has_prefix;
use crate::text::is_text;
use crate::text::same_chars;
use crate::text::split;
use crate::text::split_text;
use crate::text::strip_prefix;
use vstd::prelude::*;

verus! {

/// Fuse overlay filesystem handle
#[derive(Debug)]
pub struct FuseOverlayFs {
    lower: Vec<String>,
    upper: Option<String>,
    work: Option<String>,
    target: String,
    options: Vec<MountOption<FuseOverlayFsOption>>,
    id: Option<PartitionID>,
    drop: bool,
}

impl DeepView for FuseOverlayFs {
    type V = StackView<FuseOverlayFsOption>;

    closed spec fn deep_view(&self) -> StackView<FuseOverlayFsOption> {
        StackView {
            lower: self.lower.deep_view(),
            upper: self.upper.deep_view(),
            work: self.work.deep_view(),
            target: self.target@,
            options: self.options.deep_view(),
            id: self.id,
            unmount_on_drop: self.drop,
        }
    }
}

/// What the arguments of one fuse-overlayfs process have shown so far: the
/// layers and options of its `-o` arguments, its last other argument, and
/// whether an `-o` still waits for its option string.
pub struct ScanView {
    pub layers: LayersView<FuseOverlayFsOption>,
    pub last: Option<Seq<char>>,
    pub pending: bool,
}

/// Nothing seen yet.
pub open spec fn nothing_seen() -> ScanView {
    ScanView { layers: no_layers::<FuseOverlayFsOption>(), last: None, pending: false }
}

/// `acc` after one more piece of the command line.
///
/// An empty piece, as two spaces in a row leave it, changes nothing. The
/// piece after `-o` is an option string, whose layers and options are added.
/// Any other piece is a positional argument.
pub open spec fn scan_one(acc: ScanView, piece: Seq<char>) -> ScanView {
    if piece.len() == 0 {
        acc
    } else if acc.pending {
        ScanView {
            layers: sort_options(acc.layers, parsed_options::<FuseOverlayFsOption>(piece)),
            pending: false,
            ..acc
        }
    } else if piece == "-o"@ {
        ScanView { pending: true, ..acc }
    } else {
        ScanView { last: Some(piece), ..acc }
    }
}

/// `acc` after the pieces `args`, from left to right.
pub open spec fn scan(acc: ScanView, args: Seq<Seq<char>>) -> ScanView
    decreases args.len(),
{
    if args.len() == 0 {
        acc
    } else {
        scan_one(scan(acc, args.drop_last()), args.last())
    }
}

/// The layers and options of the process with the command line `line`, if it
/// is a fuse-overlayfs process whose last positional argument is `path`.
pub open spec fn process_at(line: Seq<char>, path: Seq<char>) -> Option<
    LayersView<FuseOverlayFsOption>,
> {
    if has_prefix(line, "fuse-overlayfs"@) {
        let seen = scan(nothing_seen(), split(after(line, "fuse-overlayfs"@), ' '));
        if seen.last == Some(path) {
            Some(seen.layers)
        } else {
            None
        }
    } else {
        None
    }
}

/// The layers and options of the first process in `lines` that is mounted at
/// `path`.
pub open spec fn first_process_at(lines: Seq<Seq<char>>, path: Seq<char>) -> Option<
    LayersView<FuseOverlayFsOption>,
>
    decreases lines.len(),
{
    if lines.len() == 0 {
        None
    } else {
        match process_at(lines[0], path) {
            Some(layers) => Some(layers),
            None => first_process_at(lines.skip(1), path),
        }
    }
}

/// What one process has shown, as it is gathered.
struct Scan {
    layers: Layers<FuseOverlayFsOption>,
    last: Option<String>,
    pending: bool,
}

impl DeepView for Scan {
    type V = ScanView;

    closed spec fn deep_view(&self) -> ScanView {
        ScanView {
            layers: self.layers.deep_view(),
            last: self.last.deep_view(),
            pending: self.pending,
        }
    }
}

/// The layers and options of the process with the command line `line`, if it
/// is a fuse-overlayfs process whose last positional argument is `path`.
fn read_process(line: &str, path: &Vec<char>) -> (r: Option<Layers<FuseOverlayFsOption>>)
    ensures
        r.deep_view() == process_at(line@, path@),
{
    let t = chars_of(line);
    let n = match strip_prefix(&t, "fuse-overlayfs") {
        Some(n) => n,
        None => {
            return None;
        },
    };
    let rest = line.substring_char(n, t.len());
    proof {
        assert(rest@ =~= after(line@, "fuse-overlayfs"@));
    }
    let args = split_text(rest, ' ');
    let mut seen = Scan { layers: Layers::new(), last: None, pending: false };
    let count = args.len();
    let mut i: usize = 0;
    while i < count
        invariant
            count == args.len(),
            i <= count,
            seen.deep_view() == scan(nothing_seen(), args.deep_view().subrange(0, i as int)),
        decreases count - i,
    {
        let ghost all = args.deep_view();
        proof {
            assert(all.subrange(0, i + 1).drop_last() =~= all.subrange(0, i as int));
            assert(all.subrange(0, i + 1).last() == args@[i as int]@);
        }
        let piece = chars_of(args[i].as_str());
        if piece.len() == 0 {
        } else if seen.pending {
            let options = parse_options::<FuseOverlayFsOption>(args[i].as_str());
            seen.layers.sort_all(options);
            seen.pending = false;
        } else if is_text(&piece, "-o") {
            seen.pending = true;
        } else {
            seen.last = Some(args[i].clone());
        }
        i = i + 1;
    }
    proof {
        assert(args.deep_view().subrange(0, count as int) =~= args.deep_view());
    }
    let Scan { layers, last, pending: _ } = seen;
    match last {
        Some(target) => {
            let found = chars_of(target.as_str());
            if same_chars(&found, path) {
                Some(layers)
            } else {
                None
            }
        },
        None => None,
    }
}

impl FuseOverlayFs {
    /// A handle that is not mounted, with the default options.
    pub open spec fn fresh(
        lower: Seq<Seq<char>>,
        upper: Option<Seq<char>>,
        work: Option<Seq<char>>,
        target: Seq<char>,
        drop: bool,
    ) -> StackView<FuseOverlayFsOption> {
        StackView {
            lower,
            upper,
            work,
            target,
            options: default_options::<FuseOverlayFsOption>(),
            id: None,
            unmount_on_drop: drop,
        }
    }

    /// Whether the handle holds each kind of option at most once.
    pub open spec fn well_formed(&self) -> bool {
        kinds_unique::<FuseOverlayFsOption>(self.deep_view().options)
    }

    /// The program that is run to mount `h`, and its arguments: `-o`, the
    /// layers and then the options as one option string, and the target. The
    /// paths are handed over as they are.
    pub open spec fn request(h: StackView<FuseOverlayFsOption>) -> ActionView {
        ActionView::Run {
            program: "fuse-overlayfs"@,
            args: seq![
                "-o"@,
                fuse_layers_spec(h.lower, h.upper, h.work) + option_suffix_spec::<
                    FuseOverlayFsOption,
                >(h.options),
                h.target,
            ],
        }
    }

    /// What a mount request returns.
    pub open spec fn mount_spec(
        h: StackView<FuseOverlayFsOption>,
        available: bool,
        found: Option<PartitionID>,
    ) -> Result<StepView, FsError> {
        match mount_gate(h.id, available, found) {
            Some(r) => r,
            None => Ok(StepView::Perform(Self::request(h))),
        }
    }

    /// The program that is run to unmount `h`: the FUSE unmount helper, lazy
    /// and forced, on the target.
    pub open spec fn release(h: StackView<FuseOverlayFsOption>) -> ActionView {
        ActionView::Run { program: "fusermount"@, args: seq!["-z"@, "-u"@, h.target] }
    }

    /// What an unmount request returns.
    pub open spec fn unmount_spec(
        h: StackView<FuseOverlayFsOption>,
        found: Option<PartitionID>,
    ) -> Result<StepView, FsError> {
        match unmount_due(h.id, found) {
            Err(e) => Err(e),
            Ok(false) => Ok(StepView::Done),
            Ok(true) => Ok(StepView::Perform(Self::release(h))),
        }
    }

    /// The handle that the running processes give for `path`.
    ///
    /// Without a fuse-overlayfs process at `path` there is none. The handle
    /// is mounted on the filesystem that `path` lies on, and does not unmount
    /// when its owner lets it go.
    pub open spec fn recover_spec(
        path: Seq<char>,
        lines: Seq<Seq<char>>,
        found: Option<PartitionID>,
    ) -> Result<StackView<FuseOverlayFsOption>, FsError> {
        match first_process_at(lines, path) {
            None => Err(FsError::NotRecovered),
            Some(layers) => if found is None {
                Err(FsError::UnknownIdentity)
            } else {
                Ok(
                    StackView {
                        lower: layers.lower,
                        upper: layers.upper,
                        work: layers.work,
                        target: path,
                        options: layers.options,
                        id: found,
                        unmount_on_drop: false,
                    },
                )
            },
        }
    }

    /// A mount followed at once by a second mount: once the first has
    /// succeeded with the target on the filesystem `id`, the second, with the
    /// target still there, asks nothing of the system.
    pub proof fn lemma_second_mount_is_done(h: StackView<FuseOverlayFsOption>, id: PartitionID)
        ensures
            ({
                let first = finish_mount_spec(h, true, Some(id));
                &&& first.1 == Ok::<Seq<char>, FsError>(h.target)
                &&& Self::mount_spec(first.0, true, Some(id)) == Ok::<StepView, FsError>(
                    StepView::Done,
                )
            }),
    {
    }

    /// Initialise a new FuseOverlayFs handle over at least two lower layers.
    /// Fewer layers are refused with `TooFewLayers`.
    pub fn new(
        lower: Vec<String>,
        upper: Option<String>,
        work: Option<String>,
        target: String,
        drop: bool,
    ) -> (r: Result<FuseOverlayFs, FsError>)
        ensures
            lower.len() < 2 ==> r is Err && r->Err_0 == FsError::TooFewLayers,
            lower.len() >= 2 ==> r is Ok && r->Ok_0.deep_view() == Self::fresh(
                lower.deep_view(),
                upper.deep_view(),
                work.deep_view(),
                target@,
                drop,
            ) && r->Ok_0.well_formed(),
    {
        if lower.len() < 2 {
            return Err(FsError::TooFewLayers);
        }
        proof {
            lemma_defaults_kinds_unique::<FuseOverlayFsOption>();
        }
        Ok(
            FuseOverlayFs {
                lower,
                upper,
                work,
                target,
                options: MountOption::defaults(),
                id: None,
                drop,
            },
        )
    }

    /// Initialise a new readonly FuseOverlayFs handle over at least two lower
    /// layers, which unmounts when its owner lets it go.
    pub fn readonly(lower: Vec<String>, target: String) -> (r: Result<FuseOverlayFs, FsError>)
        ensures
            lower.len() < 2 ==> r is Err && r->Err_0 == FsError::TooFewLayers,
            lower.len() >= 2 ==> r is Ok && r->Ok_0.deep_view() == Self::fresh(
                lower.deep_view(),
                None,
                None,
                target@,
                true,
            ) && r->Ok_0.well_formed(),
    {
        Self::new(lower, None, None, target, true)
    }

    /// Initialise a new writable FuseOverlayFs handle, which unmounts when
    /// its owner lets it go.
    ///
    /// `upper_id` and `work_id` are the filesystems that `upper` and `work`
    /// lie on, `None` for a directory that does not exist. Both must exist
    /// and lie on one filesystem.
    pub fn writable(
        lower: Vec<String>,
        upper: String,
        work: String,
        target: String,
        upper_id: Option<PartitionID>,
        work_id: Option<PartitionID>,
    ) -> (r: Result<FuseOverlayFs, FsError>)
        ensures
            match colocated(upper_id, work_id) {
                Err(e) => r is Err && r->Err_0 == e,
                Ok(_) => r is Ok && r->Ok_0.deep_view() == Self::fresh(
                    lower.deep_view(),
                    Some(upper@),
                    Some(work@),
                    target@,
                    true,
                ) && r->Ok_0.well_formed(),
            },
    {
        match (upper_id, work_id) {
            (Some(u), Some(w)) => {
                if !u.same(&w) {
                    return Err(FsError::CrossFilesystem);
                }
            },
            _ => {
                return Err(FsError::NotFound);
            },
        }
        proof {
            lemma_defaults_kinds_unique::<FuseOverlayFsOption>();
        }
        Ok(
            FuseOverlayFs {
                lower,
                upper: Some(upper),
                work: Some(work),
                target,
                options: MountOption::defaults(),
                id: None,
                drop: true,
            },
        )
    }

    /// Retrieve the work directory if set
    pub fn work(&self) -> (r: Option<&String>)
        ensures
            r.deep_view() == self.deep_view().work,
    {
        self.work.as_ref()
    }

    /// Set the work directory.
    ///
    /// `work_id` is the filesystem that `work` lies on, `upper_id` the one
    /// that the handle's upper directory lies on. The handle must have an
    /// upper directory, on the filesystem of `work`, and must not be
    /// mounted. A handle that refuses stays as it is.
    pub fn set_work(
        &mut self,
        work: String,
        work_id: Option<PartitionID>,
        upper_id: Option<PartitionID>,
    ) -> (r: Result<(), FsError>)
        ensures
            r == set_work_spec(old(self).deep_view(), work_id, upper_id),
            r is Err ==> *final(self) == *old(self),
            r is Ok ==> final(self).deep_view() == (StackView {
                work: Some(work@),
                ..old(self).deep_view()
            }),
    {
        let w = match work_id {
            Some(w) => w,
            None => {
                return Err(FsError::NotFound);
            },
        };
        if self.upper.is_none() {
            return Err(FsError::UpperNotSet);
        }
        let u = match upper_id {
            Some(u) => u,
            None => {
                return Err(FsError::NotFound);
            },
        };
        if !w.same(&u) {
            return Err(FsError::CrossFilesystem);
        }
        if self.id.is_some() {
            return Err(FsError::Mounted);
        }
        self.work = Some(work);
        Ok(())
    }
}

impl Filesystem for FuseOverlayFs {
    /// How the program is had.
    type Evidence = Launcher;

    open spec fn spec_target(&self) -> Seq<char> {
        self.deep_view().target
    }

    open spec fn spec_id(&self) -> Option<PartitionID> {
        self.deep_view().id
    }

    open spec fn spec_unmount_on_drop(&self) -> bool {
        self.deep_view().unmount_on_drop
    }

    /// The backend is at hand where its program can be run.
    open spec fn available(evidence: &Launcher) -> bool {
        evidence.ready()
    }

    fn mount(&mut self, evidence: &Launcher, found: Option<PartitionID>) -> (r: Result<
        Step,
        FsError,
    >)
        ensures
            *final(self) == *old(self),
            step_result(r) == Self::mount_spec(
                old(self).deep_view(),
                Self::available(evidence),
                found,
            ),
    {
        match gate(&self.id, evidence.is_ready(), found) {
            Some(r) => {
                return r;
            },
            None => {},
        }
        let mut data = fuse_layers(&self.lower, &self.upper, &self.work);
        push_option_suffix(&mut data, &self.options);
        let args = vec!["-o".to_owned(), data, self.target.clone()];
        proof {
            assert(args.deep_view() =~= Self::request(self.deep_view())->Run_args);
        }
        Ok(Step::Perform(Action::Run { program: "fuse-overlayfs".to_owned(), args }))
    }

    fn finish_mount(&mut self, done: bool, found: Option<PartitionID>) -> (r: Result<
        String,
        FsError,
    >)
        ensures
            final(self).deep_view() == finish_mount_spec(old(self).deep_view(), done, found).0,
            match finish_mount_spec(old(self).deep_view(), done, found).1 {
                Ok(target) => r is Ok && r->Ok_0@ == target,
                Err(e) => r is Err && r->Err_0 == e,
            },
    {
        if !done {
            return Err(FsError::MountFailed);
        }
        match found {
            None => Err(FsError::UnknownIdentity),
            Some(id) => {
                self.id = Some(id);
                Ok(self.target.clone())
            },
        }
    }

    fn unmount(&self, found: Option<PartitionID>) -> (r: Result<Step, FsError>)
        ensures
            step_result(r) == Self::unmount_spec(self.deep_view(), found),
    {
        match due(&self.id, found) {
            Err(e) => Err(e),
            Ok(false) => Ok(Step::Done),
            Ok(true) => {
                let args = vec!["-z".to_owned(), "-u".to_owned(), self.target.clone()];
                proof {
                    assert(args.deep_view() =~= Self::release(self.deep_view())->Run_args);
                }
                Ok(Step::Perform(Action::Run { program: "fusermount".to_owned(), args }))
            },
        }
    }

    fn finish_unmount(&mut self, done: bool) -> (r: Result<(), FsError>)
        ensures
            (final(self).deep_view(), r) == finish_unmount_spec(old(self).deep_view(), done),
    {
        if done {
            self.id = None;
            Ok(())
        } else {
            Err(FsError::UnmountFailed)
        }
    }

    fn unmount_on_drop(&self) -> (b: bool) {
        self.drop
    }

    fn set_unmount_on_drop(&mut self, drop: bool)
        ensures
            final(self).deep_view() == (StackView {
                unmount_on_drop: drop,
                ..old(self).deep_view()
            }),
    {
        self.drop = drop;
    }

    fn id(&self) -> (r: Option<&PartitionID>) {
        self.id.as_ref()
    }

    fn target(&self) -> (r: String) {
        self.target.clone()
    }

    fn set_target(&mut self, target: &str) -> (r: Result<(), FsError>)
        ensures
            r is Ok ==> final(self).deep_view() == (StackView {
                target: target@,
                ..old(self).deep_view()
            }),
    {
        if self.id.is_some() {
            return Err(FsError::Mounted);
        }
        self.target = target.to_owned();
        Ok(())
    }

    fn is_available(evidence: &Launcher) -> (b: bool) {
        evidence.is_ready()
    }

    fn mounted(&self) -> (b: bool) {
        self.id.is_some()
    }
}

impl LinuxFilesystem<FuseOverlayFsOption> for FuseOverlayFs {
    open spec fn spec_options(&self) -> Seq<MountOptionView<FuseOverlayFsOption>> {
        self.deep_view().options
    }

    fn set_option(&mut self, option: MountOption<FuseOverlayFsOption>) -> (r: Result<(), FsError>)
        ensures
            r is Ok ==> final(self).deep_view() == (StackView {
                options: final(self).deep_view().options,
                ..old(self).deep_view()
            }),
            old(self).well_formed() ==> final(self).well_formed(),
    {
        proof {
            if old(self).well_formed() && set_option_spec::<FuseOverlayFsOption>(
                self.options.deep_view(),
                option.deep_view(),
            ) is Ok {
                lemma_set_option_keeps_kinds_unique::<FuseOverlayFsOption>(
                    self.options.deep_view(),
                    option.deep_view(),
                );
            }
        }
        set_option_helper(&mut self.options, option)
    }

    fn remove_option(&mut self, option: MountOption<FuseOverlayFsOption>) -> (r: Result<
        (),
        FsError,
    >)
        ensures
            final(self).deep_view() == (StackView {
                options: final(self).deep_view().options,
                ..old(self).deep_view()
            }),
            old(self).well_formed() ==> final(self).well_formed(),
    {
        proof {
            if old(self).well_formed() {
                lemma_remove_option_keeps_kinds_unique::<FuseOverlayFsOption>(
                    self.options.deep_view(),
                    option.deep_view(),
                );
            }
        }
        remove_option_helper(&mut self.options, &option);
        Ok(())
    }

    fn options(&self) -> (r: &[MountOption<FuseOverlayFsOption>]) {
        let r = self.options.as_slice();
        proof {
            assert(r.deep_view() =~= self.options.deep_view());
        }
        r
    }
}

impl StackableFilesystem for FuseOverlayFs {
    open spec fn spec_lower(&self) -> Seq<Seq<char>> {
        self.deep_view().lower
    }

    open spec fn spec_upper(&self) -> Option<Seq<char>> {
        self.deep_view().upper
    }

    fn lower(&self) -> (r: Vec<&str>) {
        borrow_paths(&self.lower)
    }

    fn set_lower(&mut self, lower: Vec<String>) -> (r: Result<(), FsError>)
        ensures
            r is Ok ==> final(self).deep_view() == (StackView {
                lower: lower.deep_view(),
                ..old(self).deep_view()
            }),
    {
        if self.id.is_some() {
            return Err(FsError::Mounted);
        }
        self.lower = lower;
        Ok(())
    }

    fn upper(&self) -> (r: Option<&str>) {
        match &self.upper {
            Some(u) => Some(u.as_str()),
            None => None,
        }
    }

    /// The handle must have a work directory, on the filesystem of `upper`,
    /// and must not be mounted.
    fn set_upper(
        &mut self,
        upper: String,
        upper_id: Option<PartitionID>,
        work_id: Option<PartitionID>,
    ) -> (r: Result<(), FsError>)
        ensures
            r == set_upper_spec(old(self).deep_view(), upper_id, work_id),
            r is Ok ==> final(self).deep_view() == (StackView {
                upper: Some(upper@),
                ..old(self).deep_view()
            }),
    {
        let u = match upper_id {
            Some(u) => u,
            None => {
                return Err(FsError::NotFound);
            },
        };
        if self.work.is_none() {
            return Err(FsError::WorkNotSet);
        }
        let w = match work_id {
            Some(w) => w,
            None => {
                return Err(FsError::NotFound);
            },
        };
        if !u.same(&w) {
            return Err(FsError::CrossFilesystem);
        }
        if self.id.is_some() {
            return Err(FsError::Mounted);
        }
        self.upper = Some(upper);
        Ok(())
    }
}

impl StateRecovery for FuseOverlayFs {
    /// The command line of one running process.
    type Record = String;

    fn recover(path: &str, records: &Vec<String>, found: Option<PartitionID>) -> (r: Result<
        FuseOverlayFs,
        FsError,
    >)
        ensures
            match Self::recover_spec(path@, records.deep_view(), found) {
                Ok(h) => r is Ok && r->Ok_0.deep_view() == h,
                Err(e) => r is Err && r->Err_0 == e,
            },
    {
        let wanted = chars_of(path);
        let n = records.len();
        let mut i: usize = 0;
        proof {
            assert(records.deep_view().skip(0) =~= records.deep_view());
        }
        while i < n
            invariant
                n == records.len(),
                i <= n,
                wanted@ == path@,
                first_process_at(records.deep_view().skip(i as int), path@) == first_process_at(
                    records.deep_view(),
                    path@,
                ),
            decreases n - i,
        {
            let ghost tail = records.deep_view().skip(i as int);
            proof {
                assert(tail[0] == records@[i as int]@);
                assert(tail.skip(1) =~= records.deep_view().skip(i + 1));
            }
            match read_process(records[i].as_str(), &wanted) {
                Some(layers) => {
                    let id = match found {
                        Some(id) => id,
                        None => {
                            return Err(FsError::UnknownIdentity);
                        },
                    };
                    let Layers { lower, upper, work, options } = layers;
                    return Ok(
                        FuseOverlayFs {
                            lower,
                            upper,
                            work,
                            target: path.to_owned(),
                            options,
                            id: Some(id),
                            drop: false,
                        },
                    );
                },
                None => {},
            }
            i = i + 1;
        }
        Err(FsError::NotRecovered)
    }
}

} // verus!
