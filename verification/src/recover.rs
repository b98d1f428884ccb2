//! Reading a handle's state back from what the system lists: the options of
//! a mounted filesystem, and the layers that stand among them.

use crate::option::option_parsed;
use crate::option::option_text;
use crate::option::FsOption;
use crate::option::MountOption;
use crate::option::MountOptionView;
use crate::text::after;
use crate::text::chars_of;
use crate::text::free_of;
use crate::text::has_prefix;
use crate::text::same_chars;
use crate::text::split;
use crate::text::split_text;
use crate::text::strip_prefix;
use vstd::prelude::*;

verus! {

/// One line of the table of mounted filesystems: where a filesystem is
/// mounted, and its option string.
#[derive(Debug, Clone, PartialEq, Eq)]
pub struct MountEntry {
    /// The mount point.
    pub dir: String,
    /// The options, separated by commas.
    pub options: String,
}

/// The mathematical value of a [`MountEntry`].
pub struct MountEntryView {
    pub dir: Seq<char>,
    pub options: Seq<char>,
}

impl DeepView for MountEntry {
    type V = MountEntryView;

    open spec fn deep_view(&self) -> MountEntryView {
        MountEntryView { dir: self.dir@, options: self.options@ }
    }
}

/// What the system lists of one mounted filesystem.
#[derive(Debug)]
pub struct FsData<O> {
    options: Vec<MountOption<O>>,
}

impl<O: FsOption> DeepView for FsData<O> {
    type V = Seq<MountOptionView<O::V>>;

    closed spec fn deep_view(&self) -> Seq<MountOptionView<O::V>> {
        self.options.deep_view()
    }
}

impl<O: FsOption> FsData<O> {
    /// The options, in the order in which the system lists them.
    pub fn options(&self) -> (r: &[MountOption<O>])
        ensures
            r.deep_view() == self.deep_view(),
    {
        let r = self.options.as_slice();
        proof {
            assert(r.deep_view() =~= self.options.deep_view());
        }
        r
    }

    /// The options themselves.
    pub fn into_options(self) -> (r: Vec<MountOption<O>>)
        ensures
            r.deep_view() == self.deep_view(),
    {
        self.options
    }
}

/// The options that an option string stands for: one for each piece between
/// commas, none left out.
pub open spec fn parsed_options<O: FsOption>(text: Seq<char>) -> Seq<MountOptionView<O::V>> {
    split(text, ',').map_values(|t: Seq<char>| option_parsed::<O>(t))
}

/// Position of the first entry in `entries` that is mounted at `path`, or the
/// length of `entries`.
pub open spec fn first_at(entries: Seq<MountEntryView>, path: Seq<char>) -> int
    decreases entries.len(),
{
    if entries.len() == 0 {
        0
    } else if entries[0].dir == path {
        0
    } else {
        1 + first_at(entries.drop_first(), path)
    }
}

/// The options of the first entry that is mounted at `path`, if there is
/// one.
pub open spec fn restore_spec<O: FsOption>(path: Seq<char>, entries: Seq<MountEntryView>) -> Option<
    Seq<MountOptionView<O::V>>,
> {
    let k = first_at(entries, path);
    if 0 <= k < entries.len() {
        Some(parsed_options::<O>(entries[k].options))
    } else {
        None
    }
}

/// `first_at` stays within `entries`, passes over no entry at `path`, and
/// stops on one unless it reaches the end.
pub proof fn lemma_first_at(entries: Seq<MountEntryView>, path: Seq<char>)
    ensures
        0 <= first_at(entries, path) <= entries.len(),
        forall|j: int| 0 <= j < first_at(entries, path) ==> entries[j].dir != path,
        first_at(entries, path) < entries.len() ==> entries[first_at(entries, path)].dir == path,
    decreases entries.len(),
{
    if entries.len() > 0 && entries[0].dir != path {
        let rest = entries.drop_first();
        lemma_first_at(rest, path);
        assert forall|j: int| 0 <= j < first_at(entries, path) implies entries[j].dir != path by {
            if j > 0 {
                assert(entries[j] == rest[j - 1]);
            }
        }
    }
}

/// The options that an option string stands for.
pub fn parse_options<O: FsOption>(text: &str) -> (r: Vec<MountOption<O>>)
    ensures
        r.deep_view() == parsed_options::<O>(text@),
{
    let tokens = split_text(text, ',');
    let mut r: Vec<MountOption<O>> = Vec::new();
    let n = tokens.len();
    let mut i: usize = 0;
    while i < n
        invariant
            n == tokens.len(),
            i <= n,
            r.len() == i,
            forall|j: int|
                0 <= j < i ==> (#[trigger] r@[j]).deep_view() == option_parsed::<O>(tokens@[j]@),
        decreases n - i,
    {
        match MountOption::<O>::from_str(tokens[i].as_str()) {
            Ok(m) => {
                r.push(m);
            },
            Err(_) => {
                assert(false);
            },
        }
        i = i + 1;
    }
    proof {
        assert(tokens.deep_view() == split(text@, ','));
        assert(r.deep_view() =~= parsed_options::<O>(text@)) by {
            assert forall|j: int| 0 <= j < n implies r.deep_view()[j] == parsed_options::<O>(
                text@,
            )[j] by {
                assert(tokens.deep_view()[j] == tokens@[j]@);
            }
        }
    }
    r
}

/// Retrieve filesystem data from system information: the options of the
/// first of `entries` that is mounted at `path`.
pub fn restore_fsdata<O: FsOption>(path: &str, entries: &Vec<MountEntry>) -> (r: Option<
    FsData<O>,
>)
    ensures
        r.deep_view() == restore_spec::<O>(path@, entries.deep_view()),
{
    let target = chars_of(path);
    let n = entries.len();
    let mut i: usize = 0;
    proof {
        lemma_first_at(entries.deep_view(), path@);
    }
    while i < n
        invariant
            n == entries.len(),
            i <= n,
            target@ == path@,
            forall|j: int| 0 <= j < i ==> entries.deep_view()[j].dir != path@,
        decreases n - i,
    {
        proof {
            assert(entries.deep_view()[i as int] == entries@[i as int].deep_view());
        }
        let dir = chars_of(entries[i].dir.as_str());
        if same_chars(&dir, &target) {
            proof {
                lemma_first_at(entries.deep_view(), path@);
                let k = first_at(entries.deep_view(), path@);
                if k < i {
                    assert(entries.deep_view()[k].dir == path@);
                }
                if k > i {
                    assert(entries.deep_view()[i as int].dir == path@);
                }
            }
            let options = parse_options::<O>(entries[i].options.as_str());
            return Some(FsData { options });
        }
        i = i + 1;
    }
    proof {
        lemma_first_at(entries.deep_view(), path@);
        let k = first_at(entries.deep_view(), path@);
        if k < n {
            assert(entries.deep_view()[k].dir == path@);
        }
    }
    None
}

/// The layers and the options that a list of options holds.
#[derive(Debug)]
pub struct Layers<O> {
    pub lower: Vec<String>,
    pub upper: Option<String>,
    pub work: Option<String>,
    pub options: Vec<MountOption<O>>,
}

/// The mathematical value of [`Layers`].
pub struct LayersView<V> {
    pub lower: Seq<Seq<char>>,
    pub upper: Option<Seq<char>>,
    pub work: Option<Seq<char>>,
    pub options: Seq<MountOptionView<V>>,
}

impl<O: FsOption> DeepView for Layers<O> {
    type V = LayersView<O::V>;

    open spec fn deep_view(&self) -> LayersView<O::V> {
        LayersView {
            lower: self.lower.deep_view(),
            upper: self.upper.deep_view(),
            work: self.work.deep_view(),
            options: self.options.deep_view(),
        }
    }
}

/// No layers and no options.
pub open spec fn no_layers<V>() -> LayersView<V> {
    LayersView { lower: Seq::empty(), upper: None, work: None, options: Seq::empty() }
}

/// `acc` after one more option.
///
/// A kept token that begins with `lowerdir=` adds the paths between the
/// colons of what follows to the lower layers; one that begins with
/// `upperdir=` or `workdir=` sets that directory to what follows. Every other
/// option is retained.
pub open spec fn sort_option<V>(acc: LayersView<V>, o: MountOptionView<V>) -> LayersView<V> {
    if o is Other && has_prefix(o->Other_0, "lowerdir="@) {
        LayersView { lower: acc.lower + split(after(o->Other_0, "lowerdir="@), ':'), ..acc }
    } else if o is Other && has_prefix(o->Other_0, "upperdir="@) {
        LayersView { upper: Some(after(o->Other_0, "upperdir="@)), ..acc }
    } else if o is Other && has_prefix(o->Other_0, "workdir="@) {
        LayersView { work: Some(after(o->Other_0, "workdir="@)), ..acc }
    } else {
        LayersView { options: acc.options.push(o), ..acc }
    }
}

/// `acc` after the options of `opts`, one after the other.
pub open spec fn sort_options<V>(acc: LayersView<V>, opts: Seq<MountOptionView<V>>) -> LayersView<
    V,
>
    decreases opts.len(),
{
    if opts.len() == 0 {
        acc
    } else {
        sort_option(sort_options(acc, opts.drop_last()), opts.last())
    }
}

/// Whether `o` names no layer, so that sorting retains it.
pub open spec fn names_no_layer<V>(o: MountOptionView<V>) -> bool {
    !(o is Other && (has_prefix(o->Other_0, "lowerdir="@) || has_prefix(
        o->Other_0,
        "upperdir="@,
    ) || has_prefix(o->Other_0, "workdir="@)))
}

/// Whether `o` comes back from an option string as it went in: its token
/// holds no comma, stands for `o`, and names no layer.
pub open spec fn survives<O: FsOption>(o: MountOptionView<O::V>) -> bool {
    &&& free_of(option_text::<O>(o), ',')
    &&& option_parsed::<O>(option_text::<O>(o)) == o
    &&& names_no_layer(o)
}

/// Sorting one list after another is sorting both in a row.
pub proof fn lemma_sort_options_concat<V>(
    acc: LayersView<V>,
    a: Seq<MountOptionView<V>>,
    b: Seq<MountOptionView<V>>,
)
    ensures
        sort_options(acc, a + b) == sort_options(sort_options(acc, a), b),
    decreases b.len(),
{
    if b.len() == 0 {
        assert(a + b =~= a);
    } else {
        lemma_sort_options_concat(acc, a, b.drop_last());
        assert((a + b).drop_last() =~= a + b.drop_last());
        assert((a + b).last() == b.last());
    }
}

/// Options that name no layer are all retained, in their order.
pub proof fn lemma_sort_options_retains<V>(acc: LayersView<V>, opts: Seq<MountOptionView<V>>)
    requires
        forall|i: int| 0 <= i < opts.len() ==> names_no_layer(#[trigger] opts[i]),
    ensures
        sort_options(acc, opts) == (LayersView { options: acc.options + opts, ..acc }),
    decreases opts.len(),
{
    if opts.len() == 0 {
        assert(acc.options + opts =~= acc.options);
    } else {
        let head = opts.drop_last();
        assert forall|i: int| 0 <= i < head.len() implies names_no_layer(#[trigger] head[i]) by {
            assert(head[i] == opts[i]);
        }
        lemma_sort_options_retains(acc, head);
        assert(names_no_layer(opts[opts.len() - 1]));
        assert((acc.options + head).push(opts.last()) =~= acc.options + opts);
    }
}

/// Whether `o` is no kept token that begins with `lowerdir=`.
pub open spec fn names_no_lower<V>(o: MountOptionView<V>) -> bool {
    !(o is Other && has_prefix(o->Other_0, "lowerdir="@))
}

/// Options that name no lower layer leave the lower layers as they are.
pub proof fn lemma_sort_options_keeps_lower<V>(
    acc: LayersView<V>,
    opts: Seq<MountOptionView<V>>,
)
    requires
        forall|i: int| 0 <= i < opts.len() ==> names_no_lower(#[trigger] opts[i]),
    ensures
        sort_options(acc, opts).lower == acc.lower,
    decreases opts.len(),
{
    if opts.len() > 0 {
        let head = opts.drop_last();
        assert forall|i: int| 0 <= i < head.len() implies names_no_lower(#[trigger] head[i]) by {
            assert(head[i] == opts[i]);
        }
        lemma_sort_options_keeps_lower(acc, head);
        assert(names_no_lower(opts[opts.len() - 1]));
    }
}

impl<O: FsOption> Layers<O> {
    /// No layers and no options.
    pub fn new() -> (r: Layers<O>)
        ensures
            r.deep_view() == no_layers::<O::V>(),
    {
        let r = Layers { lower: Vec::new(), upper: None, work: None, options: Vec::new() };
        proof {
            assert(r.lower.deep_view() =~= Seq::<Seq<char>>::empty());
            assert(r.options.deep_view() =~= Seq::<MountOptionView<O::V>>::empty());
        }
        r
    }

    /// Takes one more option: a layer to its place, any other to the options.
    pub fn sort(&mut self, option: MountOption<O>)
        ensures
            final(self).deep_view() == sort_option(old(self).deep_view(), option.deep_view()),
    {
        let ghost before = self.deep_view();
        match option {
            MountOption::Other(s) => {
                let t = chars_of(s.as_str());
                if let Some(n) = strip_prefix(&t, "lowerdir=") {
                    let rest = s.as_str().substring_char(n, t.len());
                    proof {
                        assert(rest@ =~= after(s@, "lowerdir="@));
                    }
                    let mut paths = split_text(rest, ':');
                    let ghost added = paths.deep_view();
                    let ghost had = self.lower.deep_view();
                    self.lower.append(&mut paths);
                    proof {
                        assert(self.lower.deep_view() =~= had + added);
                    }
                } else if let Some(n) = strip_prefix(&t, "upperdir=") {
                    let rest = s.as_str().substring_char(n, t.len());
                    proof {
                        assert(rest@ =~= after(s@, "upperdir="@));
                    }
                    self.upper = Some(rest.to_owned());
                } else if let Some(n) = strip_prefix(&t, "workdir=") {
                    let rest = s.as_str().substring_char(n, t.len());
                    proof {
                        assert(rest@ =~= after(s@, "workdir="@));
                    }
                    self.work = Some(rest.to_owned());
                } else {
                    let ghost had = self.options.deep_view();
                    let kept = MountOption::Other(s);
                    self.options.push(kept);
                    proof {
                        assert(self.options.deep_view() =~= had.push(kept.deep_view()));
                    }
                }
            },
            other => {
                let ghost had = self.options.deep_view();
                self.options.push(other);
                proof {
                    assert(self.options.deep_view() =~= had.push(other.deep_view()));
                }
            },
        }
    }

    /// Takes the options of `options`, one after the other.
    pub fn sort_all(&mut self, options: Vec<MountOption<O>>)
        ensures
            final(self).deep_view() == sort_options(old(self).deep_view(), options.deep_view()),
    {
        let mut rest = options;
        let ghost all = options.deep_view();
        let ghost n = all.len();
        proof {
            assert(all.subrange(0, 0) =~= Seq::<MountOptionView<O::V>>::empty());
            assert(rest.deep_view() =~= all.subrange(0, n as int));
        }
        while rest.len() > 0
            invariant
                n == all.len(),
                rest.len() <= n,
                rest.deep_view() =~= all.subrange(n - rest.len(), n as int),
                self.deep_view() == sort_options(
                    old(self).deep_view(),
                    all.subrange(0, n - rest.len()),
                ),
            decreases rest.len(),
        {
            let ghost k = n - rest.len();
            let ghost prev = rest;
            let ghost tail = rest.deep_view();
            let o = rest.remove(0);
            proof {
                assert(o.deep_view() == tail[0]);
                assert(tail[0] == all[k]);
                assert forall|j: int| 0 <= j < rest.len() implies rest.deep_view()[j] == all[k + 1
                    + j] by {
                    assert(rest[j] == prev[j + 1]);
                    assert(tail[j + 1] == all[k + 1 + j]);
                }
                assert(rest.deep_view() =~= all.subrange(k + 1, n as int));
                assert(all.subrange(0, k + 1).drop_last() =~= all.subrange(0, k));
                assert(all.subrange(0, k + 1).last() == all[k]);
            }
            self.sort(o);
        }
        proof {
            assert(all.subrange(0, n as int) =~= all);
        }
    }
}

} // verus!
