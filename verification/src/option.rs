//! Mount options: the flags common to every backend, a slot for the flags of
//! one backend, and the rule by which an option enters a list of active
//! options.

use crate::error::FsError;
use crate::text::chars_of;
use crate::text::is_text;
use vstd::prelude::*;

verus! {

/// The mathematical value of a [`MountOption`]: its backend-specific payload
/// by its own view, an unknown token by its characters.
pub enum MountOptionView<V> {
    RW,
    RO,
    Suid(bool),
    FsSpecific(V),
    Other(Seq<char>),
}

/// A mount option of a backend whose own options are `O`.
#[derive(Debug, Clone, PartialEq, Eq)]
pub enum MountOption<O> {
    /// Mount the filesystem read-write.
    RW,
    /// Mount the filesystem read-only.
    RO,
    /// Honor set-user-ID and set-group-ID bits or file capabilities when
    /// executing programs from this filesystem.
    Suid(bool),
    /// An option that only this backend knows.
    FsSpecific(O),
    /// A token that is no known option, kept as it was read.
    Other(String),
}

impl<O: DeepView> DeepView for MountOption<O> {
    type V = MountOptionView<O::V>;

    open spec fn deep_view(&self) -> MountOptionView<O::V> {
        match self {
            MountOption::RW => MountOptionView::RW,
            MountOption::RO => MountOptionView::RO,
            MountOption::Suid(b) => MountOptionView::Suid(*b),
            MountOption::FsSpecific(o) => MountOptionView::FsSpecific(o.deep_view()),
            MountOption::Other(s) => MountOptionView::Other(s@),
        }
    }
}

/// What a backend's own option type provides: its default set, its textual
/// form in both directions, its structural kind, and which options it cannot
/// stand beside.
pub trait FsOption: Sized + DeepView {
    /// The options that are active in a new handle.
    spec fn default_set() -> Seq<Self::V>;

    /// The structural kind of an option: its variant, whatever it carries.
    spec fn kind(v: Self::V) -> int;

    /// Whether `v` rules out `other` by this backend's own account.
    spec fn clashes(v: Self::V, other: MountOptionView<Self::V>) -> bool;

    /// The token that stands for `v` in an option string.
    spec fn text(v: Self::V) -> Seq<char>;

    /// The option that the token `s` stands for, if it is one of this backend.
    spec fn parsed(s: Seq<char>) -> Option<Self::V>;

    /// Get defaults mount options for this filesystem.
    fn defaults() -> (r: Vec<Self>)
        ensures
            r.deep_view() == Self::default_set(),
    ;

    /// Check if a mount option is incompatible.
    fn incompatible(&self, other: &MountOption<Self>) -> (b: bool)
        ensures
            b == Self::clashes(self.deep_view(), other.deep_view()),
    ;

    /// Whether both options are of one structural kind.
    fn same_kind(&self, other: &Self) -> (b: bool)
        ensures
            b == (Self::kind(self.deep_view()) == Self::kind(other.deep_view())),
    ;

    /// Whether both options are the same, kind and value.
    fn equals(&self, other: &Self) -> (b: bool)
        ensures
            b == (self.deep_view() == other.deep_view()),
    ;

    /// The token that stands for this option.
    fn to_string(&self) -> (s: String)
        ensures
            s@ == Self::text(self.deep_view()),
    ;

    /// The option that a token stands for; `UnsupportedOption` for any other
    /// text.
    fn from_str(s: &str) -> (r: Result<Self, FsError>)
        ensures
            match Self::parsed(s@) {
                Some(v) => r is Ok && r->Ok_0.deep_view() == v,
                None => r is Err && r->Err_0 == FsError::UnsupportedOption,
            },
    ;

    /// Reading the token of an option gives that option.
    proof fn lemma_round_trip(v: Self::V)
        ensures
            Self::parsed(Self::text(v)) == Some(v),
    ;

    /// No backend token is one of the common tokens.
    proof fn lemma_text_is_specific(v: Self::V)
        ensures
            !is_common_token(Self::text(v)),
    ;

    /// No two default options are of one kind.
    proof fn lemma_defaults_distinct()
        ensures
            forall|i: int, j: int|
                0 <= i < j < Self::default_set().len() ==> Self::kind(
                    #[trigger] Self::default_set()[i],
                ) != Self::kind(#[trigger] Self::default_set()[j]),
    ;
}

/// What a handle on Linux offers beside the common lifecycle: its active
/// mount options.
pub trait LinuxFilesystem<O: FsOption>: Sized {
    /// The active options, in the order in which they are handed over.
    spec fn spec_options(&self) -> Seq<MountOptionView<O::V>>;

    /// Set option
    /// will send error if another incompatible option is present
    fn set_option(&mut self, option: MountOption<O>) -> (r: Result<(), FsError>)
        ensures
            match set_option_spec::<O>(old(self).spec_options(), option.deep_view()) {
                Ok(after) => r is Ok && final(self).spec_options() == after,
                Err(e) => r is Err && r->Err_0 == e && *final(self) == *old(self),
            },
    ;

    /// Remove an option
    fn remove_option(&mut self, option: MountOption<O>) -> (r: Result<(), FsError>)
        ensures
            r is Ok,
            final(self).spec_options() == remove_option_spec(
                old(self).spec_options(),
                option.deep_view(),
            ),
    ;

    /// List currently active option
    fn options(&self) -> (r: &[MountOption<O>])
        ensures
            r.deep_view() == self.spec_options(),
    ;
}

/// Whether `s` is one of the tokens that every backend reads alike.
pub open spec fn is_common_token(s: Seq<char>) -> bool {
    s == "rw"@ || s == "ro"@ || s == "suid"@ || s == "nosuid"@
}

/// The default set of a backend, each option in the backend-specific slot.
pub open spec fn default_options<O: FsOption>() -> Seq<MountOptionView<O::V>> {
    Seq::new(O::default_set().len(), |i: int| MountOptionView::FsSpecific(O::default_set()[i]))
}

/// Whether `a` and `b` cannot be active together: read-write beside
/// read-only, or a backend option beside one that it rules out, in either
/// order.
pub open spec fn conflict<O: FsOption>(
    a: MountOptionView<O::V>,
    b: MountOptionView<O::V>,
) -> bool {
    ||| (a is RW && b is RO)
    ||| (a is RO && b is RW)
    ||| (a is FsSpecific && O::clashes(a->FsSpecific_0, b))
    ||| (b is FsSpecific && O::clashes(b->FsSpecific_0, a))
}

/// Whether `a` and `b` are of one structural kind: the same variant,
/// whatever it carries.
///
/// Two backend options are of one kind where the backend says so. A kept
/// token has no known structure, so its text is all there is to its kind: two
/// kept tokens are of one kind only where they are the same text, and any
/// number of different ones can be active together.
pub open spec fn same_kind<O: FsOption>(
    a: MountOptionView<O::V>,
    b: MountOptionView<O::V>,
) -> bool {
    match (a, b) {
        (MountOptionView::RW, MountOptionView::RW) => true,
        (MountOptionView::RO, MountOptionView::RO) => true,
        (MountOptionView::Suid(_), MountOptionView::Suid(_)) => true,
        (MountOptionView::FsSpecific(x), MountOptionView::FsSpecific(y)) => O::kind(x) == O::kind(
            y,
        ),
        (MountOptionView::Other(s), MountOptionView::Other(t)) => s == t,
        _ => false,
    }
}

/// The token that stands for `m` in an option string.
pub open spec fn option_text<O: FsOption>(m: MountOptionView<O::V>) -> Seq<char> {
    match m {
        MountOptionView::RW => "rw"@,
        MountOptionView::RO => "ro"@,
        MountOptionView::Suid(true) => "suid"@,
        MountOptionView::Suid(false) => "nosuid"@,
        MountOptionView::FsSpecific(v) => O::text(v),
        MountOptionView::Other(s) => s,
    }
}

/// The option that the token `s` stands for: a common one, else one of the
/// backend, else the token itself, kept.
pub open spec fn option_parsed<O: FsOption>(s: Seq<char>) -> MountOptionView<O::V> {
    if s == "rw"@ {
        MountOptionView::RW
    } else if s == "ro"@ {
        MountOptionView::RO
    } else if s == "suid"@ {
        MountOptionView::Suid(true)
    } else if s == "nosuid"@ {
        MountOptionView::Suid(false)
    } else {
        match O::parsed(s) {
            Some(v) => MountOptionView::FsSpecific(v),
            None => MountOptionView::Other(s),
        }
    }
}

/// Position of the first option in `opts` of one kind with `o`, or the length
/// of `opts`.
pub open spec fn first_of_kind<O: FsOption>(
    opts: Seq<MountOptionView<O::V>>,
    o: MountOptionView<O::V>,
) -> int
    decreases opts.len(),
{
    if opts.len() == 0 {
        0
    } else if same_kind::<O>(opts[0], o) {
        0
    } else {
        1 + first_of_kind::<O>(opts.drop_first(), o)
    }
}

/// Position of the first option in `opts` equal to `o`, or the length of
/// `opts`.
pub open spec fn first_equal<V>(opts: Seq<MountOptionView<V>>, o: MountOptionView<V>) -> int
    decreases opts.len(),
{
    if opts.len() == 0 {
        0
    } else if opts[0] == o {
        0
    } else {
        1 + first_equal(opts.drop_first(), o)
    }
}

/// Whether some option in `opts` cannot be active together with `o`.
pub open spec fn any_conflict<O: FsOption>(
    opts: Seq<MountOptionView<O::V>>,
    o: MountOptionView<O::V>,
) -> bool {
    exists|i: int| 0 <= i < opts.len() && conflict::<O>(#[trigger] opts[i], o)
}

/// The list that setting `o` in `opts` gives, or the refusal.
///
/// The first option of the same kind is replaced where it stands; so an
/// option that is present already leaves the list as it is. Otherwise an
/// option that cannot stand beside one of `opts` is refused, and any other is
/// appended.
pub open spec fn set_option_spec<O: FsOption>(
    opts: Seq<MountOptionView<O::V>>,
    o: MountOptionView<O::V>,
) -> Result<Seq<MountOptionView<O::V>>, FsError> {
    let k = first_of_kind::<O>(opts, o);
    if 0 <= k < opts.len() {
        Ok(opts.update(k, o))
    } else if any_conflict::<O>(opts, o) {
        Err(FsError::IncompatibleOption)
    } else {
        Ok(opts.push(o))
    }
}

/// The list that removing `o` from `opts` gives: without the first option
/// equal to `o`, or `opts` itself where none is.
pub open spec fn remove_option_spec<V>(
    opts: Seq<MountOptionView<V>>,
    o: MountOptionView<V>,
) -> Seq<MountOptionView<V>> {
    let k = first_equal(opts, o);
    if 0 <= k < opts.len() {
        opts.remove(k)
    } else {
        opts
    }
}

/// Whether no two options in `opts` are of one kind.
pub open spec fn kinds_unique<O: FsOption>(opts: Seq<MountOptionView<O::V>>) -> bool {
    forall|i: int, j: int|
        0 <= i < j < opts.len() ==> !same_kind::<O>(#[trigger] opts[i], #[trigger] opts[j])
}

/// How many options in `opts` are of one kind with `o`.
pub open spec fn count_of_kind<O: FsOption>(
    opts: Seq<MountOptionView<O::V>>,
    o: MountOptionView<O::V>,
) -> nat
    decreases opts.len(),
{
    if opts.len() == 0 {
        0
    } else {
        count_of_kind::<O>(opts.drop_last(), o) + if same_kind::<O>(opts.last(), o) {
            1nat
        } else {
            0nat
        }
    }
}

/// `first_of_kind` stays within `opts`, passes over no option of the kind,
/// and stops on one unless it reaches the end.
pub proof fn lemma_first_of_kind<O: FsOption>(
    opts: Seq<MountOptionView<O::V>>,
    o: MountOptionView<O::V>,
)
    ensures
        0 <= first_of_kind::<O>(opts, o) <= opts.len(),
        forall|j: int| 0 <= j < first_of_kind::<O>(opts, o) ==> !same_kind::<O>(opts[j], o),
        first_of_kind::<O>(opts, o) < opts.len() ==> same_kind::<O>(
            opts[first_of_kind::<O>(opts, o)],
            o,
        ),
    decreases opts.len(),
{
    if opts.len() > 0 && !same_kind::<O>(opts[0], o) {
        let rest = opts.drop_first();
        lemma_first_of_kind::<O>(rest, o);
        assert forall|j: int| 0 <= j < first_of_kind::<O>(opts, o) implies !same_kind::<O>(
            opts[j],
            o,
        ) by {
            if j > 0 {
                assert(opts[j] == rest[j - 1]);
            }
        }
    }
}

/// Any position that passes over no option of the kind and stops on one, or
/// at the end, is the one that `first_of_kind` gives.
pub proof fn lemma_first_of_kind_unique<O: FsOption>(
    opts: Seq<MountOptionView<O::V>>,
    o: MountOptionView<O::V>,
    i: int,
)
    requires
        0 <= i <= opts.len(),
        forall|j: int| 0 <= j < i ==> !same_kind::<O>(opts[j], o),
        i < opts.len() ==> same_kind::<O>(opts[i], o),
    ensures
        first_of_kind::<O>(opts, o) == i,
{
    lemma_first_of_kind::<O>(opts, o);
}

/// `first_equal` stays within `opts`, passes over no option equal to `o`, and
/// stops on one unless it reaches the end.
pub proof fn lemma_first_equal<V>(opts: Seq<MountOptionView<V>>, o: MountOptionView<V>)
    ensures
        0 <= first_equal(opts, o) <= opts.len(),
        forall|j: int| 0 <= j < first_equal(opts, o) ==> opts[j] != o,
        first_equal(opts, o) < opts.len() ==> opts[first_equal(opts, o)] == o,
    decreases opts.len(),
{
    if opts.len() > 0 && opts[0] != o {
        let rest = opts.drop_first();
        lemma_first_equal(rest, o);
        assert forall|j: int| 0 <= j < first_equal(opts, o) implies opts[j] != o by {
            if j > 0 {
                assert(opts[j] == rest[j - 1]);
            }
        }
    }
}

/// Any position that passes over no option equal to `o` and stops on one, or
/// at the end, is the one that `first_equal` gives.
pub proof fn lemma_first_equal_unique<V>(
    opts: Seq<MountOptionView<V>>,
    o: MountOptionView<V>,
    i: int,
)
    requires
        0 <= i <= opts.len(),
        forall|j: int| 0 <= j < i ==> opts[j] != o,
        i < opts.len() ==> opts[i] == o,
    ensures
        first_equal(opts, o) == i,
{
    lemma_first_equal(opts, o);
}

/// Two options cannot be active together whichever is named first.
pub proof fn lemma_conflict_symmetric<O: FsOption>(
    a: MountOptionView<O::V>,
    b: MountOptionView<O::V>,
)
    ensures
        conflict::<O>(a, b) == conflict::<O>(b, a),
{
}

/// Where exactly one option of `opts` is of one kind with `o`, and it stands
/// at `i`, the count of that kind is one.
pub proof fn lemma_count_single<O: FsOption>(
    opts: Seq<MountOptionView<O::V>>,
    o: MountOptionView<O::V>,
    i: int,
)
    requires
        0 <= i < opts.len(),
        same_kind::<O>(opts[i], o),
        forall|j: int| 0 <= j < opts.len() && j != i ==> !same_kind::<O>(opts[j], o),
    ensures
        count_of_kind::<O>(opts, o) == 1,
    decreases opts.len(),
{
    let head = opts.drop_last();
    if i == opts.len() - 1 {
        lemma_count_none::<O>(head, o);
    } else {
        lemma_count_single::<O>(head, o, i);
    }
}

/// Where no option of `opts` is of one kind with `o`, the count of that kind
/// is zero.
pub proof fn lemma_count_none<O: FsOption>(
    opts: Seq<MountOptionView<O::V>>,
    o: MountOptionView<O::V>,
)
    requires
        forall|j: int| 0 <= j < opts.len() ==> !same_kind::<O>(opts[j], o),
    ensures
        count_of_kind::<O>(opts, o) == 0,
    decreases opts.len(),
{
    if opts.len() > 0 {
        lemma_count_none::<O>(opts.drop_last(), o);
    }
}

/// Setting two options of one kind, one after the other, in a list that
/// holds each kind at most once: once the first is set, the second is set
/// too, and the list then holds exactly one option of that kind, the second.
pub proof fn lemma_set_option_latest_wins<O: FsOption>(
    opts: Seq<MountOptionView<O::V>>,
    a: MountOptionView<O::V>,
    b: MountOptionView<O::V>,
)
    requires
        kinds_unique::<O>(opts),
        same_kind::<O>(a, b),
        set_option_spec::<O>(opts, a) is Ok,
    ensures
        ({
            let once = set_option_spec::<O>(opts, a)->Ok_0;
            let twice = set_option_spec::<O>(once, b);
            &&& twice is Ok
            &&& count_of_kind::<O>(twice->Ok_0, b) == 1
            &&& twice->Ok_0.contains(b)
            &&& forall|i: int|
                0 <= i < twice->Ok_0.len() && same_kind::<O>(#[trigger] twice->Ok_0[i], b)
                    ==> twice->Ok_0[i] == b
        }),
{
    lemma_set_option_keeps_kinds_unique::<O>(opts, a);
    let once = set_option_spec::<O>(opts, a)->Ok_0;
    lemma_set_option_holds::<O>(opts, a);
    let w = choose|i: int| 0 <= i < once.len() && once[i] == a;
    lemma_first_of_kind::<O>(once, b);
    let k = first_of_kind::<O>(once, b);
    assert(k < once.len()) by {
        if k >= once.len() {
            assert(!same_kind::<O>(once[w], b));
        }
    }
    let twice = once.update(k, b);
    assert(twice[k] == b);
    assert forall|j: int| 0 <= j < twice.len() && j != k implies !same_kind::<O>(
        twice[j],
        b,
    ) by {
        assert(twice[j] == once[j]);
        if j < k {
            assert(!same_kind::<O>(once[j], once[k]));
        } else {
            assert(!same_kind::<O>(once[k], once[j]));
        }
    }
    lemma_count_single::<O>(twice, b, k);
}

/// A list in which an option was set holds that option.
pub proof fn lemma_set_option_holds<O: FsOption>(
    opts: Seq<MountOptionView<O::V>>,
    o: MountOptionView<O::V>,
)
    requires
        set_option_spec::<O>(opts, o) is Ok,
    ensures
        set_option_spec::<O>(opts, o)->Ok_0.contains(o),
{
    lemma_first_of_kind::<O>(opts, o);
    let k = first_of_kind::<O>(opts, o);
    let after = set_option_spec::<O>(opts, o)->Ok_0;
    if k < opts.len() {
        assert(after[k] == o);
    } else {
        assert(after[opts.len() as int] == o);
    }
}

/// Setting an option in a list that holds each kind at most once gives such
/// a list again.
pub proof fn lemma_set_option_keeps_kinds_unique<O: FsOption>(
    opts: Seq<MountOptionView<O::V>>,
    o: MountOptionView<O::V>,
)
    requires
        kinds_unique::<O>(opts),
        set_option_spec::<O>(opts, o) is Ok,
    ensures
        kinds_unique::<O>(set_option_spec::<O>(opts, o)->Ok_0),
{
    lemma_first_of_kind::<O>(opts, o);
    let k = first_of_kind::<O>(opts, o);
    let after = set_option_spec::<O>(opts, o)->Ok_0;
    if k < opts.len() {
        assert forall|i: int, j: int| 0 <= i < j < after.len() implies !same_kind::<O>(
            #[trigger] after[i],
            #[trigger] after[j],
        ) by {
            if i == k {
                assert(!same_kind::<O>(opts[k], opts[j]));
            } else if j == k {
                assert(!same_kind::<O>(opts[i], opts[k]));
            } else {
                assert(!same_kind::<O>(opts[i], opts[j]));
            }
        }
    } else {
        assert forall|i: int, j: int| 0 <= i < j < after.len() implies !same_kind::<O>(
            #[trigger] after[i],
            #[trigger] after[j],
        ) by {
            if j == opts.len() {
                assert(!same_kind::<O>(opts[i], o));
            } else {
                assert(!same_kind::<O>(opts[i], opts[j]));
            }
        }
    }
}

/// Removing an option from a list that holds each kind at most once gives
/// such a list again.
pub proof fn lemma_remove_option_keeps_kinds_unique<O: FsOption>(
    opts: Seq<MountOptionView<O::V>>,
    o: MountOptionView<O::V>,
)
    requires
        kinds_unique::<O>(opts),
    ensures
        kinds_unique::<O>(remove_option_spec(opts, o)),
{
    lemma_first_equal(opts, o);
    let k = first_equal(opts, o);
    let after = remove_option_spec(opts, o);
    if k < opts.len() {
        assert forall|i: int, j: int| 0 <= i < j < after.len() implies !same_kind::<O>(
            #[trigger] after[i],
            #[trigger] after[j],
        ) by {
            let oi = if i < k {
                i
            } else {
                i + 1
            };
            let oj = if j < k {
                j
            } else {
                j + 1
            };
            assert(after[i] == opts[oi]);
            assert(after[j] == opts[oj]);
            assert(!same_kind::<O>(opts[oi], opts[oj]));
        }
    }
}

/// An option that cannot stand beside one of the list, in a list without an
/// option of its kind, is refused.
pub proof fn lemma_set_option_refuses<O: FsOption>(
    opts: Seq<MountOptionView<O::V>>,
    o: MountOptionView<O::V>,
    i: int,
)
    requires
        0 <= i < opts.len(),
        conflict::<O>(opts[i], o) || conflict::<O>(o, opts[i]),
        forall|j: int| 0 <= j < opts.len() ==> !same_kind::<O>(opts[j], o),
    ensures
        set_option_spec::<O>(opts, o) == Err::<Seq<MountOptionView<O::V>>, FsError>(
            FsError::IncompatibleOption,
        ),
{
    lemma_first_of_kind::<O>(opts, o);
    assert(conflict::<O>(opts[i], o));
}

/// The default set of a backend holds each kind at most once.
pub proof fn lemma_defaults_kinds_unique<O: FsOption>()
    ensures
        kinds_unique::<O>(default_options::<O>()),
{
    O::lemma_defaults_distinct();
    let d = default_options::<O>();
    assert forall|i: int, j: int| 0 <= i < j < d.len() implies !same_kind::<O>(
        #[trigger] d[i],
        #[trigger] d[j],
    ) by {
        assert(O::kind(O::default_set()[i]) != O::kind(O::default_set()[j]));
    }
}

/// Reading the token of an option gives that option, for every option but a
/// kept token whose text is itself a known token.
pub proof fn lemma_option_round_trip<O: FsOption>(m: MountOptionView<O::V>)
    requires
        m is Other ==> !is_common_token(m->Other_0) && O::parsed(m->Other_0) is None,
    ensures
        option_parsed::<O>(option_text::<O>(m)) == m,
{
    reveal_strlit("rw");
    reveal_strlit("ro");
    reveal_strlit("suid");
    reveal_strlit("nosuid");
    assert("rw"@ != "ro"@) by {
        assert("rw"@[1] != "ro"@[1]);
    }
    assert("rw"@.len() != "suid"@.len());
    assert("rw"@.len() != "nosuid"@.len());
    assert("suid"@.len() != "nosuid"@.len());
    match m {
        MountOptionView::FsSpecific(v) => {
            O::lemma_round_trip(v);
            O::lemma_text_is_specific(v);
        },
        _ => {},
    }
}

impl<O: FsOption> MountOption<O> {
    /// Get defaults mount options for this filesystem.
    pub fn defaults() -> (r: Vec<Self>)
        ensures
            r.deep_view() == default_options::<O>(),
    {
        let mut inner = O::defaults();
        let ghost all = inner.deep_view();
        let mut r: Vec<MountOption<O>> = Vec::new();
        while inner.len() > 0
            invariant
                all == O::default_set(),
                r.len() + inner.len() == all.len(),
                inner.deep_view() =~= all.subrange(r.len() as int, all.len() as int),
                r.deep_view() =~= default_options::<O>().subrange(0, r.len() as int),
            decreases inner.len(),
        {
            let ghost prev = inner;
            let ghost rest = inner.deep_view();
            let ghost done = r.deep_view();
            let o = inner.remove(0);
            proof {
                assert(o.deep_view() == rest[0]);
                assert(inner.deep_view() =~= rest.subrange(1, rest.len() as int)) by {
                    assert forall|i: int| 0 <= i < inner.len() implies inner.deep_view()[i]
                        == rest[i + 1] by {
                        assert(inner[i] == prev[i + 1]);
                    }
                }
            }
            r.push(MountOption::FsSpecific(o));
            proof {
                assert(r.deep_view() =~= done.push(MountOptionView::FsSpecific(rest[0])));
            }
        }
        r
    }

    /// Check if a mount option is incompatible.
    pub fn incompatible(&self, other: &MountOption<O>) -> (b: bool)
        ensures
            b == conflict::<O>(self.deep_view(), other.deep_view()),
    {
        let forth = match self {
            MountOption::FsSpecific(o) => o.incompatible(other),
            MountOption::RW => matches!(other, MountOption::RO),
            MountOption::RO => matches!(other, MountOption::RW),
            _ => false,
        };
        if forth {
            return true;
        }
        match other {
            MountOption::FsSpecific(o) => o.incompatible(self),
            _ => false,
        }
    }

    /// Whether both are of one structural kind: the same variant, whatever
    /// it carries, and for kept tokens the same text.
    pub fn same_kind(&self, other: &MountOption<O>) -> (b: bool)
        ensures
            b == same_kind::<O>(self.deep_view(), other.deep_view()),
    {
        match (self, other) {
            (MountOption::RW, MountOption::RW) => true,
            (MountOption::RO, MountOption::RO) => true,
            (MountOption::Suid(_), MountOption::Suid(_)) => true,
            (MountOption::FsSpecific(a), MountOption::FsSpecific(b)) => a.same_kind(b),
            (MountOption::Other(a), MountOption::Other(b)) => *a == *b,
            _ => false,
        }
    }

    /// Whether both options are the same, kind and value.
    pub fn equals(&self, other: &MountOption<O>) -> (b: bool)
        ensures
            b == (self.deep_view() == other.deep_view()),
    {
        match (self, other) {
            (MountOption::RW, MountOption::RW) => true,
            (MountOption::RO, MountOption::RO) => true,
            (MountOption::Suid(a), MountOption::Suid(b)) => *a == *b,
            (MountOption::FsSpecific(a), MountOption::FsSpecific(b)) => a.equals(b),
            (MountOption::Other(a), MountOption::Other(b)) => *a == *b,
            _ => false,
        }
    }

    /// The token that stands for this option in an option string.
    pub fn to_string(&self) -> (s: String)
        ensures
            s@ == option_text::<O>(self.deep_view()),
    {
        match self {
            MountOption::FsSpecific(o) => o.to_string(),
            MountOption::RW => "rw".to_owned(),
            MountOption::RO => "ro".to_owned(),
            MountOption::Suid(b) => if *b {
                "suid".to_owned()
            } else {
                "nosuid".to_owned()
            },
            MountOption::Other(x) => x.clone(),
        }
    }

    /// The option that a token stands for. Every token stands for one: what
    /// is neither common nor known to the backend is kept as it is.
    pub fn from_str(s: &str) -> (r: Result<Self, FsError>)
        ensures
            r is Ok,
            r->Ok_0.deep_view() == option_parsed::<O>(s@),
    {
        let t = chars_of(s);
        if is_text(&t, "rw") {
            Ok(MountOption::RW)
        } else if is_text(&t, "ro") {
            Ok(MountOption::RO)
        } else if is_text(&t, "suid") {
            Ok(MountOption::Suid(true))
        } else if is_text(&t, "nosuid") {
            Ok(MountOption::Suid(false))
        } else {
            match O::from_str(s) {
                Ok(x) => Ok(MountOption::FsSpecific(x)),
                Err(_) => Ok(MountOption::Other(s.to_owned())),
            }
        }
    }
}

/// Sets `option` in `options`.
///
/// The first active option of the same kind is replaced where it stands.
/// Otherwise, if an active option cannot stand beside `option`, nothing
/// changes and `IncompatibleOption` is returned. Otherwise `option` is
/// appended.
pub fn set_option_helper<O: FsOption>(
    options: &mut Vec<MountOption<O>>,
    option: MountOption<O>,
) -> (r: Result<(), FsError>)
    ensures
        match set_option_spec::<O>(old(options).deep_view(), option.deep_view()) {
            Ok(after) => r is Ok && final(options).deep_view() == after,
            Err(e) => r == Err::<(), FsError>(e) && *final(options) == *old(options),
        },
{
    let ghost before = options.deep_view();
    let ghost o = option.deep_view();
    let n = options.len();
    let mut i: usize = 0;
    while i < n
        invariant
            n == options.len(),
            i <= n,
            *options == *old(options),
            before == options.deep_view(),
            o == option.deep_view(),
            forall|j: int| 0 <= j < i ==> !same_kind::<O>(before[j], o),
        decreases n - i,
    {
        proof {
            assert(before[i as int] == options@[i as int].deep_view());
        }
        if options[i].same_kind(&option) {
            proof {
                lemma_first_of_kind_unique::<O>(before, o, i as int);
            }
            options.set(i, option);
            proof {
                assert(options.deep_view() =~= before.update(i as int, o));
            }
            return Ok(());
        }
        i = i + 1;
    }
    proof {
        lemma_first_of_kind_unique::<O>(before, o, n as int);
    }
    let mut i: usize = 0;
    while i < n
        invariant
            n == options.len(),
            i <= n,
            *options == *old(options),
            before == options.deep_view(),
            o == option.deep_view(),
            first_of_kind::<O>(before, o) == n,
            forall|j: int| 0 <= j < i ==> !conflict::<O>(before[j], o),
        decreases n - i,
    {
        proof {
            assert(before[i as int] == options@[i as int].deep_view());
        }
        if options[i].incompatible(&option) {
            assert(conflict::<O>(before[i as int], o));
            return Err(FsError::IncompatibleOption);
        }
        i = i + 1;
    }
    options.push(option);
    proof {
        assert(options.deep_view() =~= before.push(o));
    }
    Ok(())
}

/// Removes from `options` the first option equal to `option`, if there is
/// one.
pub fn remove_option_helper<O: FsOption>(
    options: &mut Vec<MountOption<O>>,
    option: &MountOption<O>,
)
    ensures
        final(options).deep_view() == remove_option_spec(
            old(options).deep_view(),
            option.deep_view(),
        ),
{
    let ghost before = options.deep_view();
    let ghost o = option.deep_view();
    let n = options.len();
    let mut i: usize = 0;
    while i < n
        invariant
            n == options.len(),
            i <= n,
            *options == *old(options),
            before == options.deep_view(),
            o == option.deep_view(),
            forall|j: int| 0 <= j < i ==> before[j] != o,
        decreases n - i,
    {
        proof {
            assert(before[i as int] == options@[i as int].deep_view());
        }
        if options[i].equals(option) {
            proof {
                lemma_first_equal_unique(before, o, i as int);
            }
            let _ = options.remove(i);
            proof {
                assert(options.deep_view() =~= before.remove(i as int));
            }
            return ;
        }
        i = i + 1;
    }
    proof {
        lemma_first_equal_unique(before, o, n as int);
    }
}

} // verus!
