//! The mount options of fuse-overlayfs.

use crate::error::FsError;
use crate::number::decimal;
use crate::number::isize_value;
use crate::number::lemma_decimal_round_trip;
use crate::number::lemma_isize_round_trip;
use crate::number::lemma_usize_round_trip;
use crate::number::push_isize;
use crate::number::push_usize;
use crate::number::read_isize;
use crate::number::read_usize;
use crate::number::signed_decimal;
use crate::number::usize_value;
use crate::option::FsOption;
use crate::option::MountOption;
use crate::option::MountOptionView;
use crate::text::after;
use crate::text::chars_of;
use crate::text::has_prefix;
use crate::text::is_text;
use crate::text::lemma_prefix_concat;
use crate::text::lemma_prefix_differs;
use crate::text::strip_prefix;
use vstd::prelude::*;
use vstd::std_specs::convert::FromSpecImpl;

verus! {

/// An option that only fuse-overlayfs knows.
#[derive(Debug, Clone, Copy, PartialEq, Eq, Hash, Structural)]
pub enum FuseOverlayFsOption {
    /// The maximum number of idle worker threads allowed (default: -1).
    MaxIdleThread(isize),
    /// The maximum number of worker threads allowed (default: 10).
    MaxThread(usize),
    /// Allow access by all users.
    AllowOther,
    /// Allow access by root.
    AllowRoot,
    /// Every file and directory is owned by the root user (0:0).
    SquashToRoot,
    /// Every file and directory is owned by the specified uid.
    /// It has higher precedence over squash_to_root.
    SquashToUid(usize),
    /// Every file and directory is owned by the specified gid.
    /// It has higher precedence over squash_to_root.
    SquashToGid(usize),
    /// Set st_nlink to static value 1 for all directories.
    StaticNLink,
    /// Disable ACL support in the FUSE file system.
    NoAcl,
}

impl DeepView for FuseOverlayFsOption {
    type V = FuseOverlayFsOption;

    open spec fn deep_view(&self) -> FuseOverlayFsOption {
        *self
    }
}

impl FuseOverlayFsOption {
    /// The number of this option's variant.
    fn kind_index(&self) -> (k: u8)
        ensures
            k == <FuseOverlayFsOption as FsOption>::kind(*self),
    {
        match self {
            FuseOverlayFsOption::MaxIdleThread(_) => 0,
            FuseOverlayFsOption::MaxThread(_) => 1,
            FuseOverlayFsOption::AllowOther => 2,
            FuseOverlayFsOption::AllowRoot => 3,
            FuseOverlayFsOption::SquashToRoot => 4,
            FuseOverlayFsOption::SquashToUid(_) => 5,
            FuseOverlayFsOption::SquashToGid(_) => 6,
            FuseOverlayFsOption::StaticNLink => 7,
            FuseOverlayFsOption::NoAcl => 8,
        }
    }
}

/// The length and the telling characters of every key and flag.
proof fn lemma_tokens()
    ensures
        "rw"@.len() == 2,
        "ro"@.len() == 2,
        "suid"@.len() == 4,
        "nosuid"@.len() == 6,
        "max_idle_threads="@.len() == 17 && "max_idle_threads="@[0] == 'm'
            && "max_idle_threads="@[4] == 'i',
        "max_threads="@.len() == 12 && "max_threads="@[0] == 'm' && "max_threads="@[4] == 't',
        "squash_to_uid="@.len() == 14 && "squash_to_uid="@[0] == 's' && "squash_to_uid="@[1]
            == 'q' && "squash_to_uid="@[10] == 'u',
        "squash_to_gid="@.len() == 14 && "squash_to_gid="@[0] == 's' && "squash_to_gid="@[1]
            == 'q' && "squash_to_gid="@[10] == 'g',
        "allow_other"@.len() == 11 && "allow_other"@[0] == 'a',
        "allow_root"@.len() == 10 && "allow_root"@[0] == 'a',
        "squash_to_root"@.len() == 14 && "squash_to_root"@[0] == 's' && "squash_to_root"@[10]
            == 'r',
        "static_nlink"@.len() == 12 && "static_nlink"@[0] == 's' && "static_nlink"@[1] == 't',
        "noacl"@.len() == 5 && "noacl"@[0] == 'n',
{
    reveal_strlit("rw");
    reveal_strlit("ro");
    reveal_strlit("suid");
    reveal_strlit("nosuid");
    reveal_strlit("max_idle_threads=");
    reveal_strlit("max_threads=");
    reveal_strlit("squash_to_uid=");
    reveal_strlit("squash_to_gid=");
    reveal_strlit("allow_other");
    reveal_strlit("allow_root");
    reveal_strlit("squash_to_root");
    reveal_strlit("static_nlink");
    reveal_strlit("noacl");
}

impl FsOption for FuseOverlayFsOption {
    /// No option is active by default.
    open spec fn default_set() -> Seq<FuseOverlayFsOption> {
        Seq::empty()
    }

    open spec fn kind(v: FuseOverlayFsOption) -> int {
        match v {
            FuseOverlayFsOption::MaxIdleThread(_) => 0,
            FuseOverlayFsOption::MaxThread(_) => 1,
            FuseOverlayFsOption::AllowOther => 2,
            FuseOverlayFsOption::AllowRoot => 3,
            FuseOverlayFsOption::SquashToRoot => 4,
            FuseOverlayFsOption::SquashToUid(_) => 5,
            FuseOverlayFsOption::SquashToGid(_) => 6,
            FuseOverlayFsOption::StaticNLink => 7,
            FuseOverlayFsOption::NoAcl => 8,
        }
    }

    /// No option of this backend rules out another.
    open spec fn clashes(
        v: FuseOverlayFsOption,
        other: MountOptionView<FuseOverlayFsOption>,
    ) -> bool {
        false
    }

    open spec fn text(v: FuseOverlayFsOption) -> Seq<char> {
        match v {
            FuseOverlayFsOption::MaxIdleThread(x) => "max_idle_threads="@ + signed_decimal(
                x as int,
            ),
            FuseOverlayFsOption::MaxThread(x) => "max_threads="@ + decimal(x as nat),
            FuseOverlayFsOption::AllowOther => "allow_other"@,
            FuseOverlayFsOption::AllowRoot => "allow_root"@,
            FuseOverlayFsOption::SquashToRoot => "squash_to_root"@,
            FuseOverlayFsOption::SquashToUid(x) => "squash_to_uid="@ + decimal(x as nat),
            FuseOverlayFsOption::SquashToGid(x) => "squash_to_gid="@ + decimal(x as nat),
            FuseOverlayFsOption::StaticNLink => "static_nlink"@,
            FuseOverlayFsOption::NoAcl => "noacl"@,
        }
    }

    /// A key with a number that can be read stands for its option, and so
    /// does each flag.
    open spec fn parsed(s: Seq<char>) -> Option<FuseOverlayFsOption> {
        if has_prefix(s, "max_idle_threads="@) && isize_value(after(s, "max_idle_threads="@))
            is Some {
            Some(
                FuseOverlayFsOption::MaxIdleThread(
                    isize_value(after(s, "max_idle_threads="@))->0,
                ),
            )
        } else if has_prefix(s, "max_threads="@) && usize_value(after(s, "max_threads="@))
            is Some {
            Some(FuseOverlayFsOption::MaxThread(usize_value(after(s, "max_threads="@))->0))
        } else if has_prefix(s, "squash_to_uid="@) && usize_value(after(s, "squash_to_uid="@))
            is Some {
            Some(FuseOverlayFsOption::SquashToUid(usize_value(after(s, "squash_to_uid="@))->0))
        } else if has_prefix(s, "squash_to_gid="@) && usize_value(after(s, "squash_to_gid="@))
            is Some {
            Some(FuseOverlayFsOption::SquashToGid(usize_value(after(s, "squash_to_gid="@))->0))
        } else if s == "allow_other"@ {
            Some(FuseOverlayFsOption::AllowOther)
        } else if s == "allow_root"@ {
            Some(FuseOverlayFsOption::AllowRoot)
        } else if s == "squash_to_root"@ {
            Some(FuseOverlayFsOption::SquashToRoot)
        } else if s == "static_nlink"@ {
            Some(FuseOverlayFsOption::StaticNLink)
        } else if s == "noacl"@ {
            Some(FuseOverlayFsOption::NoAcl)
        } else {
            None
        }
    }

    fn defaults() -> (r: Vec<FuseOverlayFsOption>) {
        let r: Vec<FuseOverlayFsOption> = Vec::new();
        assert(r.deep_view() =~= Self::default_set());
        r
    }

    fn incompatible(&self, other: &MountOption<FuseOverlayFsOption>) -> (b: bool) {
        false
    }

    fn same_kind(&self, other: &FuseOverlayFsOption) -> (b: bool) {
        self.kind_index() == other.kind_index()
    }

    fn equals(&self, other: &FuseOverlayFsOption) -> (b: bool) {
        *self == *other
    }

    fn to_string(&self) -> (s: String) {
        match self {
            FuseOverlayFsOption::MaxIdleThread(x) => {
                let mut s = "max_idle_threads=".to_owned();
                push_isize(&mut s, *x);
                s
            },
            FuseOverlayFsOption::MaxThread(x) => {
                let mut s = "max_threads=".to_owned();
                push_usize(&mut s, *x);
                s
            },
            FuseOverlayFsOption::AllowOther => "allow_other".to_owned(),
            FuseOverlayFsOption::AllowRoot => "allow_root".to_owned(),
            FuseOverlayFsOption::SquashToRoot => "squash_to_root".to_owned(),
            FuseOverlayFsOption::SquashToUid(x) => {
                let mut s = "squash_to_uid=".to_owned();
                push_usize(&mut s, *x);
                s
            },
            FuseOverlayFsOption::SquashToGid(x) => {
                let mut s = "squash_to_gid=".to_owned();
                push_usize(&mut s, *x);
                s
            },
            FuseOverlayFsOption::StaticNLink => "static_nlink".to_owned(),
            FuseOverlayFsOption::NoAcl => "noacl".to_owned(),
        }
    }

    fn from_str(s: &str) -> (r: Result<FuseOverlayFsOption, FsError>) {
        let t = chars_of(s);
        if let Some(n) = strip_prefix(&t, "max_idle_threads=") {
            if let Some(x) = read_isize(&t, n) {
                return Ok(FuseOverlayFsOption::MaxIdleThread(x));
            }
        }
        if let Some(n) = strip_prefix(&t, "max_threads=") {
            if let Some(x) = read_usize(&t, n) {
                return Ok(FuseOverlayFsOption::MaxThread(x));
            }
        }
        if let Some(n) = strip_prefix(&t, "squash_to_uid=") {
            if let Some(x) = read_usize(&t, n) {
                return Ok(FuseOverlayFsOption::SquashToUid(x));
            }
        }
        if let Some(n) = strip_prefix(&t, "squash_to_gid=") {
            if let Some(x) = read_usize(&t, n) {
                return Ok(FuseOverlayFsOption::SquashToGid(x));
            }
        }
        if is_text(&t, "allow_other") {
            Ok(FuseOverlayFsOption::AllowOther)
        } else if is_text(&t, "allow_root") {
            Ok(FuseOverlayFsOption::AllowRoot)
        } else if is_text(&t, "squash_to_root") {
            Ok(FuseOverlayFsOption::SquashToRoot)
        } else if is_text(&t, "static_nlink") {
            Ok(FuseOverlayFsOption::StaticNLink)
        } else if is_text(&t, "noacl") {
            Ok(FuseOverlayFsOption::NoAcl)
        } else {
            Err(FsError::UnsupportedOption)
        }
    }

    proof fn lemma_round_trip(v: FuseOverlayFsOption) {
        lemma_tokens();
        let s = Self::text(v);
        let idle = "max_idle_threads="@;
        let threads = "max_threads="@;
        let uid = "squash_to_uid="@;
        let gid = "squash_to_gid="@;
        match v {
            FuseOverlayFsOption::MaxIdleThread(x) => {
                lemma_prefix_concat(idle, signed_decimal(x as int));
                lemma_isize_round_trip(x);
            },
            FuseOverlayFsOption::MaxThread(x) => {
                lemma_decimal_round_trip(x as nat);
                assert(s[4] == threads[4]);
                lemma_prefix_differs(s, idle, 4);
                lemma_prefix_concat(threads, decimal(x as nat));
                lemma_usize_round_trip(x);
            },
            FuseOverlayFsOption::SquashToUid(x) => {
                assert(s[0] == uid[0]);
                lemma_prefix_differs(s, idle, 0);
                lemma_prefix_differs(s, threads, 0);
                lemma_prefix_concat(uid, decimal(x as nat));
                lemma_usize_round_trip(x);
            },
            FuseOverlayFsOption::SquashToGid(x) => {
                assert(s[0] == gid[0]);
                assert(s[10] == gid[10]);
                lemma_prefix_differs(s, idle, 0);
                lemma_prefix_differs(s, threads, 0);
                lemma_prefix_differs(s, uid, 10);
                lemma_prefix_concat(gid, decimal(x as nat));
                lemma_usize_round_trip(x);
            },
            FuseOverlayFsOption::SquashToRoot => {
                lemma_prefix_differs(s, idle, 0);
                lemma_prefix_differs(s, threads, 0);
                lemma_prefix_differs(s, uid, 10);
                lemma_prefix_differs(s, gid, 10);
            },
            FuseOverlayFsOption::StaticNLink => {
                lemma_prefix_differs(s, idle, 0);
                lemma_prefix_differs(s, threads, 0);
                lemma_prefix_differs(s, uid, 1);
                lemma_prefix_differs(s, gid, 1);
            },
            _ => {
                lemma_prefix_differs(s, idle, 0);
                lemma_prefix_differs(s, threads, 0);
                lemma_prefix_differs(s, uid, 0);
                lemma_prefix_differs(s, gid, 0);
            },
        }
    }

    proof fn lemma_text_is_specific(v: FuseOverlayFsOption) {
        lemma_tokens();
    }

    proof fn lemma_defaults_distinct() {
    }
}

impl From<FuseOverlayFsOption> for MountOption<FuseOverlayFsOption> {
    fn from(val: FuseOverlayFsOption) -> (r: Self) {
        MountOption::FsSpecific(val)
    }
}

impl FromSpecImpl<FuseOverlayFsOption> for MountOption<FuseOverlayFsOption> {
    open spec fn obeys_from_spec() -> bool {
        true
    }

    open spec fn from_spec(val: FuseOverlayFsOption) -> Self {
        MountOption::FsSpecific(val)
    }
}

} // verus!
