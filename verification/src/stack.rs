//! What the stacking backends share: the value of a handle, the rules of its
//! two states, and the text in which layers and options are handed over.

use crate::error::FsError;
use crate::fs::step_result;
use crate::fs::Step;
use crate::fs::StepView;
use crate::option::option_text;
use crate::option::FsOption;
use crate::option::MountOption;
use crate::option::MountOptionView;
use crate::partition::PartitionID;
use crate::text::escape;
use crate::text::join;
use crate::text::push_escaped;
use vstd::prelude::*;

verus! {

/// The mathematical value of a stacking handle.
///
/// `id` tells the two states of a handle apart: `None` while it is not
/// mounted, and the filesystem that its target lay on since it was mounted.
pub struct StackView<V> {
    /// The lower layers, highest precedence first.
    pub lower: Seq<Seq<char>>,
    /// The writable layer.
    pub upper: Option<Seq<char>>,
    /// The scratch directory beside the writable layer.
    pub work: Option<Seq<char>>,
    /// The mount point.
    pub target: Seq<char>,
    /// The active options, in the order in which they are handed over.
    pub options: Seq<MountOptionView<V>>,
    /// The filesystem of the target since the mount.
    pub id: Option<PartitionID>,
    /// Whether the owner unmounts when it lets the handle go.
    pub unmount_on_drop: bool,
}

/// What a mount request comes to before anything is asked of the system, if
/// it is settled by then: a backend that is not at hand refuses; a mounted
/// handle whose target cannot be found refuses; a mounted handle whose target
/// still lies on the filesystem that it recorded is done.
pub open spec fn mount_gate(
    id: Option<PartitionID>,
    available: bool,
    found: Option<PartitionID>,
) -> Option<Result<StepView, FsError>> {
    if !available {
        Some(Err(FsError::Unavailable))
    } else if id is Some && found is None {
        Some(Err(FsError::NotFound))
    } else if id is Some && found == id {
        Some(Ok(StepView::Done))
    } else {
        None
    }
}

/// The handle after the outcome of a mount, and what its owner is told: the
/// mount point, if the mount succeeded and the target's filesystem can be
/// told.
pub open spec fn finish_mount_spec<V>(h: StackView<V>, done: bool, found: Option<PartitionID>) -> (
    StackView<V>,
    Result<Seq<char>, FsError>,
) {
    if !done {
        (h, Err(FsError::MountFailed))
    } else if found is None {
        (h, Err(FsError::UnknownIdentity))
    } else {
        (StackView { id: found, ..h }, Ok(h.target))
    }
}

/// Whether an unmount request has to ask the system: only for a mounted
/// handle whose target still lies on the filesystem that it recorded. A
/// mounted handle whose target cannot be found refuses.
pub open spec fn unmount_due(id: Option<PartitionID>, found: Option<PartitionID>) -> Result<
    bool,
    FsError,
> {
    if id is None {
        Ok(false)
    } else if found is None {
        Err(FsError::NotFound)
    } else {
        Ok(found == id)
    }
}

/// The handle after the outcome of an unmount: no longer mounted if it
/// succeeded, as it was if not.
pub open spec fn finish_unmount_spec<V>(h: StackView<V>, done: bool) -> (
    StackView<V>,
    Result<(), FsError>,
) {
    if done {
        (StackView { id: None, ..h }, Ok(()))
    } else {
        (h, Err(FsError::UnmountFailed))
    }
}

/// Whether an upper and a work directory may be used together, from the
/// filesystems that they lie on: `NotFound` where one of them does not
/// exist, `CrossFilesystem` where the two differ.
pub open spec fn colocated(upper_id: Option<PartitionID>, work_id: Option<PartitionID>) -> Result<
    (),
    FsError,
> {
    if upper_id is None || work_id is None {
        Err(FsError::NotFound)
    } else if upper_id != work_id {
        Err(FsError::CrossFilesystem)
    } else {
        Ok(())
    }
}

/// Whether a handle of the overlay family takes a new work directory on the
/// filesystem `work_id`, its upper directory being on `upper_id`.
pub open spec fn set_work_spec<V>(
    h: StackView<V>,
    work_id: Option<PartitionID>,
    upper_id: Option<PartitionID>,
) -> Result<(), FsError> {
    if work_id is None {
        Err(FsError::NotFound)
    } else if h.upper is None {
        Err(FsError::UpperNotSet)
    } else if upper_id is None {
        Err(FsError::NotFound)
    } else if work_id != upper_id {
        Err(FsError::CrossFilesystem)
    } else if h.id is Some {
        Err(FsError::Mounted)
    } else {
        Ok(())
    }
}

/// Whether a handle of the overlay family takes a new upper directory on the
/// filesystem `upper_id`, its work directory being on `work_id`.
pub open spec fn set_upper_spec<V>(
    h: StackView<V>,
    upper_id: Option<PartitionID>,
    work_id: Option<PartitionID>,
) -> Result<(), FsError> {
    if upper_id is None {
        Err(FsError::NotFound)
    } else if h.work is None {
        Err(FsError::WorkNotSet)
    } else if work_id is None {
        Err(FsError::NotFound)
    } else if upper_id != work_id {
        Err(FsError::CrossFilesystem)
    } else if h.id is Some {
        Err(FsError::Mounted)
    } else {
        Ok(())
    }
}

/// Each path with its special characters escaped.
pub open spec fn escaped_all(paths: Seq<Seq<char>>) -> Seq<Seq<char>> {
    paths.map_values(|p: Seq<char>| escape(p))
}

/// The layers as the kernel reads them in its option string: the lower
/// layers joined by colons after `lowerdir=`, and then, where both are set,
/// the upper and the work directory after `,upperdir=` and `,workdir=`. Every
/// path is escaped.
pub open spec fn kernel_layers_spec(
    lower: Seq<Seq<char>>,
    upper: Option<Seq<char>>,
    work: Option<Seq<char>>,
) -> Seq<char> {
    let low = "lowerdir="@ + join(escaped_all(lower), ":"@);
    if upper is Some && work is Some {
        low + ",upperdir="@ + escape(upper->0) + ",workdir="@ + escape(work->0)
    } else {
        low
    }
}

/// The layers as fuse-overlayfs is handed them: as the kernel reads them,
/// but every path as it is, with nothing escaped.
pub open spec fn fuse_layers_spec(
    lower: Seq<Seq<char>>,
    upper: Option<Seq<char>>,
    work: Option<Seq<char>>,
) -> Seq<char> {
    let low = "lowerdir="@ + join(lower, ":"@);
    if upper is Some && work is Some {
        low + ",upperdir="@ + upper->0 + ",workdir="@ + work->0
    } else {
        low
    }
}

/// Each lower layer marked read-only and then, where it is set, the upper
/// layer marked read-write.
pub open spec fn union_branches(lower: Seq<Seq<char>>, upper: Option<Seq<char>>) -> Seq<
    Seq<char>,
> {
    lower.map_values(|p: Seq<char>| p + "=ro"@) + match upper {
        Some(u) => seq![u + "=rw"@],
        None => Seq::<Seq<char>>::empty(),
    }
}

/// The layers in the syntax of the union backend: the marked branches joined
/// by colons.
pub open spec fn union_layers_spec(lower: Seq<Seq<char>>, upper: Option<Seq<char>>) -> Seq<
    char,
> {
    join(union_branches(lower, upper), ":"@)
}

/// The token of each option.
pub open spec fn option_texts<O: FsOption>(opts: Seq<MountOptionView<O::V>>) -> Seq<Seq<char>> {
    opts.map_values(|o: MountOptionView<O::V>| option_text::<O>(o))
}

/// The tokens of `opts`, each after a comma.
pub open spec fn option_suffix_spec<O: FsOption>(opts: Seq<MountOptionView<O::V>>) -> Seq<char>
    decreases opts.len(),
{
    if opts.len() == 0 {
        Seq::empty()
    } else {
        option_suffix_spec::<O>(opts.drop_last()) + ","@ + option_text::<O>(opts.last())
    }
}

/// The tokens of `opts` joined by commas.
pub open spec fn option_list_spec<O: FsOption>(opts: Seq<MountOptionView<O::V>>) -> Seq<char> {
    join(option_texts::<O>(opts), ","@)
}

/// A mount that succeeded leaves a handle for which a second request is
/// settled at once: the handle has recorded the filesystem that the target
/// now lies on, so nothing more is asked of the system.
pub proof fn lemma_mount_twice<V>(h: StackView<V>, id: PartitionID)
    ensures
        finish_mount_spec(h, true, Some(id)).1 == Ok::<Seq<char>, FsError>(h.target),
        mount_gate(finish_mount_spec(h, true, Some(id)).0.id, true, Some(id)) == Some(
            Ok::<StepView, FsError>(StepView::Done),
        ),
{
}

/// An unmount that succeeded leaves a handle for which a second request has
/// nothing to ask.
pub proof fn lemma_unmount_twice<V>(h: StackView<V>, found: Option<PartitionID>)
    ensures
        unmount_due(finish_unmount_spec(h, true).0.id, found) == Ok::<bool, FsError>(false),
{
}

/// The pieces of `parts` with `sep` between each two neighbours.
pub fn join_texts(parts: &Vec<String>, sep: &str) -> (out: String)
    ensures
        out@ == join(parts.deep_view(), sep@),
{
    let mut out = String::new();
    let n = parts.len();
    let mut i: usize = 0;
    while i < n
        invariant
            n == parts.len(),
            i <= n,
            out@ == join(parts.deep_view().subrange(0, i as int), sep@),
        decreases n - i,
    {
        let ghost all = parts.deep_view();
        let ghost upto = all.subrange(0, i as int);
        let ghost next = all.subrange(0, i + 1);
        proof {
            assert(next.drop_last() =~= upto);
            assert(next.last() == parts@[i as int]@);
        }
        if i > 0 {
            out.append(sep);
        }
        out.append(parts[i].as_str());
        proof {
            if i == 0 {
                assert(out@ =~= next[0]);
            }
        }
        i = i + 1;
    }
    proof {
        assert(parts.deep_view().subrange(0, n as int) =~= parts.deep_view());
    }
    out
}

/// Each path with its special characters escaped.
pub fn escape_all(paths: &Vec<String>) -> (out: Vec<String>)
    ensures
        out.deep_view() == escaped_all(paths.deep_view()),
{
    let mut out: Vec<String> = Vec::new();
    let n = paths.len();
    let mut i: usize = 0;
    while i < n
        invariant
            n == paths.len(),
            i <= n,
            out.len() == i,
            forall|j: int| 0 <= j < i ==> (#[trigger] out@[j])@ == escape(paths@[j]@),
        decreases n - i,
    {
        let mut e = String::new();
        push_escaped(&mut e, paths[i].as_str());
        assert(e@ =~= escape(paths@[i as int]@));
        out.push(e);
        i = i + 1;
    }
    proof {
        assert(out.deep_view() =~= escaped_all(paths.deep_view()));
    }
    out
}

/// The layers as the kernel reads them in its option string.
pub fn kernel_layers(lower: &Vec<String>, upper: &Option<String>, work: &Option<String>) -> (out:
    String)
    ensures
        out@ == kernel_layers_spec(lower.deep_view(), upper.deep_view(), work.deep_view()),
{
    let mut out = "lowerdir=".to_owned();
    let escaped = escape_all(lower);
    let joined = join_texts(&escaped, ":");
    out.append(joined.as_str());
    match (upper, work) {
        (Some(u), Some(w)) => {
            out.append(",upperdir=");
            push_escaped(&mut out, u.as_str());
            out.append(",workdir=");
            push_escaped(&mut out, w.as_str());
        },
        _ => {},
    }
    out
}

/// The layers as fuse-overlayfs is handed them.
pub fn fuse_layers(lower: &Vec<String>, upper: &Option<String>, work: &Option<String>) -> (out:
    String)
    ensures
        out@ == fuse_layers_spec(lower.deep_view(), upper.deep_view(), work.deep_view()),
{
    let mut out = "lowerdir=".to_owned();
    let joined = join_texts(lower, ":");
    out.append(joined.as_str());
    match (upper, work) {
        (Some(u), Some(w)) => {
            out.append(",upperdir=");
            out.append(u.as_str());
            out.append(",workdir=");
            out.append(w.as_str());
        },
        _ => {},
    }
    out
}

/// The layers in the syntax of the union backend.
pub fn union_layers(lower: &Vec<String>, upper: &Option<String>) -> (out: String)
    ensures
        out@ == union_layers_spec(lower.deep_view(), upper.deep_view()),
{
    let mut branches: Vec<String> = Vec::new();
    let n = lower.len();
    let mut i: usize = 0;
    while i < n
        invariant
            n == lower.len(),
            i <= n,
            branches.len() == i,
            forall|j: int| 0 <= j < i ==> (#[trigger] branches@[j])@ == lower@[j]@ + "=ro"@,
        decreases n - i,
    {
        let mut b = lower[i].clone();
        b.append("=ro");
        branches.push(b);
        i = i + 1;
    }
    match upper {
        Some(u) => {
            let mut b = u.clone();
            b.append("=rw");
            branches.push(b);
        },
        None => {},
    }
    proof {
        assert(branches.deep_view() =~= union_branches(lower.deep_view(), upper.deep_view()));
    }
    join_texts(&branches, ":")
}

/// Appends the tokens of `options` to `out`, each after a comma.
pub fn push_option_suffix<O: FsOption>(out: &mut String, options: &Vec<MountOption<O>>)
    ensures
        final(out)@ == old(out)@ + option_suffix_spec::<O>(options.deep_view()),
{
    let n = options.len();
    let mut i: usize = 0;
    proof {
        assert(out@ =~= old(out)@ + option_suffix_spec::<O>(
            options.deep_view().subrange(0, 0),
        ));
    }
    while i < n
        invariant
            n == options.len(),
            i <= n,
            out@ == old(out)@ + option_suffix_spec::<O>(options.deep_view().subrange(0, i as int)),
        decreases n - i,
    {
        let ghost all = options.deep_view();
        let ghost upto = all.subrange(0, i as int);
        let ghost next = all.subrange(0, i + 1);
        proof {
            assert(next.drop_last() =~= upto);
            assert(next.last() == options@[i as int].deep_view());
        }
        out.append(",");
        let token = options[i].to_string();
        out.append(token.as_str());
        proof {
            assert(out@ =~= old(out)@ + option_suffix_spec::<O>(next));
        }
        i = i + 1;
    }
    proof {
        assert(options.deep_view().subrange(0, n as int) =~= options.deep_view());
    }
}

/// The tokens of `options` joined by commas.
pub fn option_list<O: FsOption>(options: &Vec<MountOption<O>>) -> (out: String)
    ensures
        out@ == option_list_spec::<O>(options.deep_view()),
{
    let mut tokens: Vec<String> = Vec::new();
    let n = options.len();
    let mut i: usize = 0;
    while i < n
        invariant
            n == options.len(),
            i <= n,
            tokens.len() == i,
            forall|j: int|
                0 <= j < i ==> (#[trigger] tokens@[j])@ == option_text::<O>(
                    options@[j].deep_view(),
                ),
        decreases n - i,
    {
        tokens.push(options[i].to_string());
        i = i + 1;
    }
    proof {
        assert(tokens.deep_view() =~= option_texts::<O>(options.deep_view()));
    }
    join_texts(&tokens, ",")
}

/// What a mount request comes to before anything is asked of the system.
pub fn gate(id: &Option<PartitionID>, available: bool, found: Option<PartitionID>) -> (r: Option<
    Result<Step, FsError>,
>)
    ensures
        match r {
            Some(x) => mount_gate(*id, available, found) == Some(step_result(x)),
            None => mount_gate(*id, available, found) is None,
        },
{
    if !available {
        return Some(Err(FsError::Unavailable));
    }
    match id {
        Some(x) => match found {
            None => Some(Err(FsError::NotFound)),
            Some(y) => if x.same(&y) {
                Some(Ok(Step::Done))
            } else {
                None
            },
        },
        None => None,
    }
}

/// Whether an unmount request has to ask the system.
pub fn due(id: &Option<PartitionID>, found: Option<PartitionID>) -> (r: Result<bool, FsError>)
    ensures
        r == unmount_due(*id, found),
{
    match id {
        None => Ok(false),
        Some(x) => match found {
            None => Err(FsError::NotFound),
            Some(y) => Ok(x.same(&y)),
        },
    }
}

/// Each path, borrowed.
pub fn borrow_paths(paths: &Vec<String>) -> (out: Vec<&str>)
    ensures
        out.deep_view() == paths.deep_view(),
{
    let mut out: Vec<&str> = Vec::new();
    let n = paths.len();
    let mut i: usize = 0;
    while i < n
        invariant
            n == paths.len(),
            i <= n,
            out.len() == i,
            forall|j: int| 0 <= j < i ==> (#[trigger] out@[j])@ == paths@[j]@,
        decreases n - i,
    {
        out.push(paths[i].as_str());
        i = i + 1;
    }
    proof {
        assert(out.deep_view() =~= paths.deep_view());
    }
    out
}

} // verus!
