//! The mount options of unionfs-fuse.

use crate::error::FsError;
use crate::number::decimal;
use crate::number::lemma_decimal_round_trip;
use crate::number::lemma_usize_round_trip;
use crate::number::push_usize;
use crate::number::read_usize;
use crate::number::usize_value;
use crate::option::FsOption;
use crate::option::MountOption;
use crate::option::MountOptionView;
use crate::text::after;
use crate::text::chars_of;
use crate::text::has_prefix;
use crate::text::is_text;
use crate::text::lemma_prefix_concat;
use crate::text::lemma_prefix_differs;
use crate::text::strip_prefix;
use vstd::prelude::*;
use vstd::std_specs::convert::FromSpecImpl;

verus! {

/// An option that only unionfs-fuse knows.
#[derive(Debug, Clone, PartialEq, Eq, Hash)]
pub enum UnionFsFuseOption {
    /// Chroot into this path. Use this if you want to have a union of "/".
    Chroot(String),
    /// Enable copy-on-write.
    Cow,
    /// Preserve branch when moving files, creating directories as needed.
    PreserveBranch,
    /// ".unionfs" is a secret directory not visible by readdir(), and so are
    /// .fuse_hidden* files.
    HideMetaFiles,
    /// Increase the maximum number of open files.
    MaxFile(usize),
    /// Disable permissions checks, but only if running neither as UID=0 or
    /// GID=0.
    RelaxedPermission,
    /// Do not count blocks of ro-branches.
    StatfsOmitRo,
    /// Enable direct-io flag for fuse subsystem.
    DirectIo,
}

/// The mathematical value of a [`UnionFsFuseOption`]: a path by its
/// characters.
pub enum UnionFsFuseOptionView {
    Chroot(Seq<char>),
    Cow,
    PreserveBranch,
    HideMetaFiles,
    MaxFile(usize),
    RelaxedPermission,
    StatfsOmitRo,
    DirectIo,
}

impl DeepView for UnionFsFuseOption {
    type V = UnionFsFuseOptionView;

    open spec fn deep_view(&self) -> UnionFsFuseOptionView {
        match self {
            UnionFsFuseOption::Chroot(p) => UnionFsFuseOptionView::Chroot(p@),
            UnionFsFuseOption::Cow => UnionFsFuseOptionView::Cow,
            UnionFsFuseOption::PreserveBranch => UnionFsFuseOptionView::PreserveBranch,
            UnionFsFuseOption::HideMetaFiles => UnionFsFuseOptionView::HideMetaFiles,
            UnionFsFuseOption::MaxFile(n) => UnionFsFuseOptionView::MaxFile(*n),
            UnionFsFuseOption::RelaxedPermission => UnionFsFuseOptionView::RelaxedPermission,
            UnionFsFuseOption::StatfsOmitRo => UnionFsFuseOptionView::StatfsOmitRo,
            UnionFsFuseOption::DirectIo => UnionFsFuseOptionView::DirectIo,
        }
    }
}

impl UnionFsFuseOption {
    /// The number of this option's variant.
    fn kind_index(&self) -> (k: u8)
        ensures
            k == <UnionFsFuseOption as FsOption>::kind(self.deep_view()),
    {
        match self {
            UnionFsFuseOption::Chroot(_) => 0,
            UnionFsFuseOption::Cow => 1,
            UnionFsFuseOption::PreserveBranch => 2,
            UnionFsFuseOption::HideMetaFiles => 3,
            UnionFsFuseOption::MaxFile(_) => 4,
            UnionFsFuseOption::RelaxedPermission => 5,
            UnionFsFuseOption::StatfsOmitRo => 6,
            UnionFsFuseOption::DirectIo => 7,
        }
    }
}

/// The length and the telling characters of every key and flag.
proof fn lemma_tokens()
    ensures
        "rw"@.len() == 2,
        "ro"@.len() == 2,
        "suid"@.len() == 4,
        "nosuid"@.len() == 6,
        "max_files="@.len() == 10 && "max_files="@[0] == 'm',
        "chroot="@.len() == 7 && "chroot="@[0] == 'c' && "chroot="@[1] == 'h',
        "cow"@.len() == 3 && "cow"@[0] == 'c' && "cow"@[1] == 'o',
        "preserve_branch"@.len() == 15 && "preserve_branch"@[0] == 'p',
        "hide_meta_files"@.len() == 15 && "hide_meta_files"@[0] == 'h',
        "relaxed_permissions"@.len() == 19 && "relaxed_permissions"@[0] == 'r',
        "statfs_omit_ro"@.len() == 14 && "statfs_omit_ro"@[0] == 's',
        "direct_io"@.len() == 9 && "direct_io"@[0] == 'd',
{
    reveal_strlit("rw");
    reveal_strlit("ro");
    reveal_strlit("suid");
    reveal_strlit("nosuid");
    reveal_strlit("max_files=");
    reveal_strlit("chroot=");
    reveal_strlit("cow");
    reveal_strlit("preserve_branch");
    reveal_strlit("hide_meta_files");
    reveal_strlit("relaxed_permissions");
    reveal_strlit("statfs_omit_ro");
    reveal_strlit("direct_io");
}

impl FsOption for UnionFsFuseOption {
    /// Copy-on-write is on and the metadata files are hidden.
    open spec fn default_set() -> Seq<UnionFsFuseOptionView> {
        seq![UnionFsFuseOptionView::Cow, UnionFsFuseOptionView::HideMetaFiles]
    }

    open spec fn kind(v: UnionFsFuseOptionView) -> int {
        match v {
            UnionFsFuseOptionView::Chroot(_) => 0,
            UnionFsFuseOptionView::Cow => 1,
            UnionFsFuseOptionView::PreserveBranch => 2,
            UnionFsFuseOptionView::HideMetaFiles => 3,
            UnionFsFuseOptionView::MaxFile(_) => 4,
            UnionFsFuseOptionView::RelaxedPermission => 5,
            UnionFsFuseOptionView::StatfsOmitRo => 6,
            UnionFsFuseOptionView::DirectIo => 7,
        }
    }

    /// No option of this backend rules out another.
    open spec fn clashes(
        v: UnionFsFuseOptionView,
        other: MountOptionView<UnionFsFuseOptionView>,
    ) -> bool {
        false
    }

    open spec fn text(v: UnionFsFuseOptionView) -> Seq<char> {
        match v {
            UnionFsFuseOptionView::Chroot(p) => "chroot="@ + p,
            UnionFsFuseOptionView::Cow => "cow"@,
            UnionFsFuseOptionView::PreserveBranch => "preserve_branch"@,
            UnionFsFuseOptionView::HideMetaFiles => "hide_meta_files"@,
            UnionFsFuseOptionView::MaxFile(n) => "max_files="@ + decimal(n as nat),
            UnionFsFuseOptionView::RelaxedPermission => "relaxed_permissions"@,
            UnionFsFuseOptionView::StatfsOmitRo => "statfs_omit_ro"@,
            UnionFsFuseOptionView::DirectIo => "direct_io"@,
        }
    }

    /// `max_files=` with a number that can be read, `chroot=` with any path,
    /// and each flag stand for their options.
    open spec fn parsed(s: Seq<char>) -> Option<UnionFsFuseOptionView> {
        if has_prefix(s, "max_files="@) && usize_value(after(s, "max_files="@)) is Some {
            Some(UnionFsFuseOptionView::MaxFile(usize_value(after(s, "max_files="@))->0))
        } else if has_prefix(s, "chroot="@) {
            Some(UnionFsFuseOptionView::Chroot(after(s, "chroot="@)))
        } else if s == "cow"@ {
            Some(UnionFsFuseOptionView::Cow)
        } else if s == "preserve_branch"@ {
            Some(UnionFsFuseOptionView::PreserveBranch)
        } else if s == "hide_meta_files"@ {
            Some(UnionFsFuseOptionView::HideMetaFiles)
        } else if s == "relaxed_permissions"@ {
            Some(UnionFsFuseOptionView::RelaxedPermission)
        } else if s == "statfs_omit_ro"@ {
            Some(UnionFsFuseOptionView::StatfsOmitRo)
        } else if s == "direct_io"@ {
            Some(UnionFsFuseOptionView::DirectIo)
        } else {
            None
        }
    }

    fn defaults() -> (r: Vec<UnionFsFuseOption>) {
        let r = vec![UnionFsFuseOption::Cow, UnionFsFuseOption::HideMetaFiles];
        assert(r.deep_view() =~= Self::default_set());
        r
    }

    fn incompatible(&self, other: &MountOption<UnionFsFuseOption>) -> (b: bool) {
        false
    }

    fn same_kind(&self, other: &UnionFsFuseOption) -> (b: bool) {
        self.kind_index() == other.kind_index()
    }

    fn equals(&self, other: &UnionFsFuseOption) -> (b: bool) {
        match (self, other) {
            (UnionFsFuseOption::Chroot(a), UnionFsFuseOption::Chroot(b)) => *a == *b,
            (UnionFsFuseOption::Cow, UnionFsFuseOption::Cow) => true,
            (UnionFsFuseOption::PreserveBranch, UnionFsFuseOption::PreserveBranch) => true,
            (UnionFsFuseOption::HideMetaFiles, UnionFsFuseOption::HideMetaFiles) => true,
            (UnionFsFuseOption::MaxFile(a), UnionFsFuseOption::MaxFile(b)) => *a == *b,
            (UnionFsFuseOption::RelaxedPermission, UnionFsFuseOption::RelaxedPermission) => true,
            (UnionFsFuseOption::StatfsOmitRo, UnionFsFuseOption::StatfsOmitRo) => true,
            (UnionFsFuseOption::DirectIo, UnionFsFuseOption::DirectIo) => true,
            _ => false,
        }
    }

    fn to_string(&self) -> (s: String) {
        match self {
            UnionFsFuseOption::Chroot(p) => {
                let mut s = "chroot=".to_owned();
                s.append(p.as_str());
                s
            },
            UnionFsFuseOption::Cow => "cow".to_owned(),
            UnionFsFuseOption::PreserveBranch => "preserve_branch".to_owned(),
            UnionFsFuseOption::HideMetaFiles => "hide_meta_files".to_owned(),
            UnionFsFuseOption::MaxFile(n) => {
                let mut s = "max_files=".to_owned();
                push_usize(&mut s, *n);
                s
            },
            UnionFsFuseOption::RelaxedPermission => "relaxed_permissions".to_owned(),
            UnionFsFuseOption::StatfsOmitRo => "statfs_omit_ro".to_owned(),
            UnionFsFuseOption::DirectIo => "direct_io".to_owned(),
        }
    }

    fn from_str(s: &str) -> (r: Result<UnionFsFuseOption, FsError>) {
        let t = chars_of(s);
        if let Some(n) = strip_prefix(&t, "max_files=") {
            if let Some(x) = read_usize(&t, n) {
                return Ok(UnionFsFuseOption::MaxFile(x));
            }
        }
        if let Some(n) = strip_prefix(&t, "chroot=") {
            let path = s.substring_char(n, t.len()).to_owned();
            proof {
                assert(path@ =~= after(s@, "chroot="@));
            }
            return Ok(UnionFsFuseOption::Chroot(path));
        }
        if is_text(&t, "cow") {
            Ok(UnionFsFuseOption::Cow)
        } else if is_text(&t, "preserve_branch") {
            Ok(UnionFsFuseOption::PreserveBranch)
        } else if is_text(&t, "hide_meta_files") {
            Ok(UnionFsFuseOption::HideMetaFiles)
        } else if is_text(&t, "relaxed_permissions") {
            Ok(UnionFsFuseOption::RelaxedPermission)
        } else if is_text(&t, "statfs_omit_ro") {
            Ok(UnionFsFuseOption::StatfsOmitRo)
        } else if is_text(&t, "direct_io") {
            Ok(UnionFsFuseOption::DirectIo)
        } else {
            Err(FsError::UnsupportedOption)
        }
    }

    proof fn lemma_round_trip(v: UnionFsFuseOptionView) {
        lemma_tokens();
        let s = Self::text(v);
        let files = "max_files="@;
        let chroot = "chroot="@;
        match v {
            UnionFsFuseOptionView::MaxFile(n) => {
                lemma_prefix_concat(files, decimal(n as nat));
                lemma_usize_round_trip(n);
            },
            UnionFsFuseOptionView::Chroot(p) => {
                assert(s[0] == chroot[0]);
                lemma_prefix_differs(s, files, 0);
                lemma_prefix_concat(chroot, p);
            },
            UnionFsFuseOptionView::Cow => {
                lemma_prefix_differs(s, files, 0);
                lemma_prefix_differs(s, chroot, 1);
            },
            _ => {
                lemma_prefix_differs(s, files, 0);
                lemma_prefix_differs(s, chroot, 0);
            },
        }
    }

    proof fn lemma_text_is_specific(v: UnionFsFuseOptionView) {
        lemma_tokens();
        match v {
            UnionFsFuseOptionView::MaxFile(n) => {
                lemma_decimal_round_trip(n as nat);
            },
            _ => {},
        }
    }

    proof fn lemma_defaults_distinct() {
    }
}

impl From<UnionFsFuseOption> for MountOption<UnionFsFuseOption> {
    fn from(val: UnionFsFuseOption) -> (r: Self) {
        MountOption::FsSpecific(val)
    }
}

impl FromSpecImpl<UnionFsFuseOption> for MountOption<UnionFsFuseOption> {
    open spec fn obeys_from_spec() -> bool {
        true
    }

    open spec fn from_spec(val: UnionFsFuseOption) -> Self {
        MountOption::FsSpecific(val)
    }
}

} // verus!
