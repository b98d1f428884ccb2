//! The mount options of the kernel's overlay filesystem.

use crate::error::FsError;
use crate::option::is_common_token;
use crate::option::FsOption;
use crate::option::MountOption;
use crate::option::MountOptionView;
use crate::text::chars_of;
use crate::text::free_of;
use crate::text::is_text;
use vstd::prelude::*;
use vstd::std_specs::convert::FromSpecImpl;

verus! {

/// Whether directories may be renamed by a redirect.
#[derive(Debug, Clone, Copy, PartialEq, Eq, PartialOrd, Ord, Hash, Structural)]
pub enum RedirectDir {
    /// Redirects are enabled.
    On,
    /// Redirects aren't created, but followed.
    Follow,
    /// Redirects aren't created and not followed.
    NoFollow,
    /// Follow or not as the kernel was configured.
    Off,
}

/// How fs-verity digests of metadata copies are used.
#[derive(Debug, Clone, Copy, PartialEq, Eq, PartialOrd, Ord, Hash, Structural)]
pub enum FsVerity {
    /// A digest that a metadata copy names must match its data file.
    On,
    /// As `On`, and every metadata copy must name a digest.
    Require,
    /// Digests are neither made nor used.
    Off,
}

/// Whether inode numbers are made unique across the layers' filesystems.
#[derive(Debug, Clone, Copy, PartialEq, Eq, PartialOrd, Ord, Hash, Structural)]
pub enum Xino {
    On,
    Auto,
    Off,
}

/// Which UUID stands in file handles.
#[derive(Debug, Clone, Copy, PartialEq, Eq, PartialOrd, Ord, Hash, Structural)]
pub enum Uuid {
    On,
    Null,
    Off,
}

/// An option that only the kernel's overlay filesystem knows.
#[derive(Debug, Clone, Copy, PartialEq, Eq, PartialOrd, Ord, Hash, Structural)]
pub enum OverlayFsOption {
    /// Redirect policy for renamed directories.
    RedirectDir(RedirectDir),
    /// Copy up metadata only, as opposed to a whole file.
    Metacopy(bool),
    /// Use of fs-verity digests in metadata copies.
    FsVerity(FsVerity),
    /// Inode index. Without it, copying up a file with several hard links
    /// breaks the link.
    Index(bool),
    /// Which UUID of the underlying filesystem stands in file handles.
    Uuid(Uuid),
    /// Compose object identifiers from the real inode number and an index of
    /// the underlying filesystem.
    Xino(Xino),
    /// Use the `user.overlay.` xattr namespace instead of `trusted.overlay.`,
    /// as an unprivileged mount needs.
    UserXattr,
    /// Omit all forms of sync; the mount is not guaranteed to survive a crash.
    Volatile,
}

impl DeepView for OverlayFsOption {
    type V = OverlayFsOption;

    open spec fn deep_view(&self) -> OverlayFsOption {
        *self
    }
}

impl OverlayFsOption {
    /// The number of this option's variant.
    fn kind_index(&self) -> (k: u8)
        ensures
            k == <OverlayFsOption as FsOption>::kind(*self),
    {
        match self {
            OverlayFsOption::RedirectDir(_) => 0,
            OverlayFsOption::Metacopy(_) => 1,
            OverlayFsOption::FsVerity(_) => 2,
            OverlayFsOption::Index(_) => 3,
            OverlayFsOption::Uuid(_) => 4,
            OverlayFsOption::Xino(_) => 5,
            OverlayFsOption::UserXattr => 6,
            OverlayFsOption::Volatile => 7,
        }
    }

    /// The token of this option.
    fn token(&self) -> (s: &'static str)
        ensures
            s@ == <OverlayFsOption as FsOption>::text(*self),
    {
        match self {
            OverlayFsOption::RedirectDir(o) => match o {
                RedirectDir::On => "redirect_dir=on",
                RedirectDir::Follow => "redirect_dir=follow",
                RedirectDir::NoFollow => "redirect_dir=nofollow",
                RedirectDir::Off => "redirect_dir=off",
            },
            OverlayFsOption::Metacopy(o) => if *o {
                "metacopy=on"
            } else {
                "metacopy=off"
            },
            OverlayFsOption::FsVerity(o) => match o {
                FsVerity::On => "verity=on",
                FsVerity::Require => "verity=required",
                FsVerity::Off => "verity=off",
            },
            OverlayFsOption::Index(o) => if *o {
                "index=on"
            } else {
                "index=off"
            },
            OverlayFsOption::Uuid(o) => match o {
                Uuid::On => "uuid=on",
                Uuid::Off => "uuid=off",
                Uuid::Null => "uuid=null",
            },
            OverlayFsOption::Xino(o) => match o {
                Xino::On => "xino=on",
                Xino::Auto => "xino=auto",
                Xino::Off => "xino=off",
            },
            OverlayFsOption::UserXattr => "userxattr",
            OverlayFsOption::Volatile => "volatile",
        }
    }
}

/// The length and the first characters of every token, by which any two are
/// told apart.
proof fn lemma_tokens()
    ensures
        "rw"@.len() == 2,
        "ro"@.len() == 2,
        "suid"@.len() == 4,
        "nosuid"@.len() == 6,
        "redirect_dir=on"@.len() == 15 && "redirect_dir=on"@[0] == 'r',
        "redirect_dir=follow"@.len() == 19,
        "redirect_dir=nofollow"@.len() == 21,
        "redirect_dir=off"@.len() == 16,
        "metacopy=on"@.len() == 11,
        "metacopy=off"@.len() == 12,
        "verity=on"@.len() == 9 && "verity=on"@[0] == 'v',
        "verity=required"@.len() == 15 && "verity=required"@[0] == 'v',
        "verity=off"@.len() == 10,
        "index=on"@.len() == 8 && "index=on"@[0] == 'i',
        "index=off"@.len() == 9 && "index=off"@[0] == 'i',
        "uuid=on"@.len() == 7 && "uuid=on"@[0] == 'u',
        "uuid=off"@.len() == 8 && "uuid=off"@[0] == 'u',
        "uuid=null"@.len() == 9 && "uuid=null"@[0] == 'u' && "uuid=null"@[1] == 'u',
        "xino=on"@.len() == 7 && "xino=on"@[0] == 'x',
        "xino=auto"@.len() == 9 && "xino=auto"@[0] == 'x',
        "xino=off"@.len() == 8 && "xino=off"@[0] == 'x',
        "userxattr"@.len() == 9 && "userxattr"@[0] == 'u' && "userxattr"@[1] == 's',
        "volatile"@.len() == 8 && "volatile"@[0] == 'v',
{
    reveal_strlit("rw");
    reveal_strlit("ro");
    reveal_strlit("suid");
    reveal_strlit("nosuid");
    reveal_strlit("redirect_dir=on");
    reveal_strlit("redirect_dir=follow");
    reveal_strlit("redirect_dir=nofollow");
    reveal_strlit("redirect_dir=off");
    reveal_strlit("metacopy=on");
    reveal_strlit("metacopy=off");
    reveal_strlit("verity=on");
    reveal_strlit("verity=required");
    reveal_strlit("verity=off");
    reveal_strlit("index=on");
    reveal_strlit("index=off");
    reveal_strlit("uuid=on");
    reveal_strlit("uuid=off");
    reveal_strlit("uuid=null");
    reveal_strlit("xino=on");
    reveal_strlit("xino=auto");
    reveal_strlit("xino=off");
    reveal_strlit("userxattr");
    reveal_strlit("volatile");
}

/// No token of this backend holds a comma.
pub proof fn lemma_text_has_no_comma(v: OverlayFsOption)
    ensures
        free_of(<OverlayFsOption as FsOption>::text(v), ','),
{
    reveal_strlit("redirect_dir=on");
    reveal_strlit("redirect_dir=follow");
    reveal_strlit("redirect_dir=nofollow");
    reveal_strlit("redirect_dir=off");
    reveal_strlit("metacopy=on");
    reveal_strlit("metacopy=off");
    reveal_strlit("verity=on");
    reveal_strlit("verity=required");
    reveal_strlit("verity=off");
    reveal_strlit("index=on");
    reveal_strlit("index=off");
    reveal_strlit("uuid=on");
    reveal_strlit("uuid=off");
    reveal_strlit("uuid=null");
    reveal_strlit("xino=on");
    reveal_strlit("xino=auto");
    reveal_strlit("xino=off");
    reveal_strlit("userxattr");
    reveal_strlit("volatile");
}

/// A text that begins as a layer token does is neither a common token nor
/// one of this backend.
pub proof fn lemma_layer_token_is_kept(s: Seq<char>)
    requires
        s.len() >= 2,
        s[0] == 'l' || s[0] == 'w' || (s[0] == 'u' && s[1] == 'p'),
    ensures
        <OverlayFsOption as FsOption>::parsed(s) is None,
        !is_common_token(s),
{
    lemma_tokens();
    reveal_strlit("redirect_dir=follow");
    reveal_strlit("redirect_dir=nofollow");
    reveal_strlit("redirect_dir=off");
    reveal_strlit("metacopy=on");
    reveal_strlit("metacopy=off");
    reveal_strlit("verity=off");
    reveal_strlit("fs_verify=on");
    reveal_strlit("fs_verify=required");
    reveal_strlit("fs_verify=off");
    reveal_strlit("rw");
    reveal_strlit("ro");
    reveal_strlit("suid");
    reveal_strlit("nosuid");
    reveal_strlit("uuid=on");
    reveal_strlit("uuid=off");
    assert("redirect_dir=follow"@[0] == 'r');
    assert("redirect_dir=nofollow"@[0] == 'r');
    assert("redirect_dir=off"@[0] == 'r');
    assert("metacopy=on"@[0] == 'm');
    assert("metacopy=off"@[0] == 'm');
    assert("verity=off"@[0] == 'v');
    assert("fs_verify=on"@[0] == 'f');
    assert("fs_verify=required"@[0] == 'f');
    assert("fs_verify=off"@[0] == 'f');
    assert("rw"@[0] == 'r');
    assert("ro"@[0] == 'r');
    assert("suid"@[0] == 's');
    assert("nosuid"@[0] == 'n');
    assert("uuid=on"@[1] == 'u');
    assert("uuid=off"@[1] == 'u');
}

impl FsOption for OverlayFsOption {
    /// Redirects, the inode index and unique inode numbers are on.
    open spec fn default_set() -> Seq<OverlayFsOption> {
        seq![
            OverlayFsOption::RedirectDir(RedirectDir::On),
            OverlayFsOption::Index(true),
            OverlayFsOption::Xino(Xino::On),
        ]
    }

    open spec fn kind(v: OverlayFsOption) -> int {
        match v {
            OverlayFsOption::RedirectDir(_) => 0,
            OverlayFsOption::Metacopy(_) => 1,
            OverlayFsOption::FsVerity(_) => 2,
            OverlayFsOption::Index(_) => 3,
            OverlayFsOption::Uuid(_) => 4,
            OverlayFsOption::Xino(_) => 5,
            OverlayFsOption::UserXattr => 6,
            OverlayFsOption::Volatile => 7,
        }
    }

    /// The user xattr namespace rules out every use of fs-verity digests.
    open spec fn clashes(v: OverlayFsOption, other: MountOptionView<OverlayFsOption>) -> bool {
        v is UserXattr && other is FsSpecific && other->FsSpecific_0 is FsVerity
    }

    open spec fn text(v: OverlayFsOption) -> Seq<char> {
        match v {
            OverlayFsOption::RedirectDir(RedirectDir::On) => "redirect_dir=on"@,
            OverlayFsOption::RedirectDir(RedirectDir::Follow) => "redirect_dir=follow"@,
            OverlayFsOption::RedirectDir(RedirectDir::NoFollow) => "redirect_dir=nofollow"@,
            OverlayFsOption::RedirectDir(RedirectDir::Off) => "redirect_dir=off"@,
            OverlayFsOption::Metacopy(true) => "metacopy=on"@,
            OverlayFsOption::Metacopy(false) => "metacopy=off"@,
            OverlayFsOption::FsVerity(FsVerity::On) => "verity=on"@,
            OverlayFsOption::FsVerity(FsVerity::Require) => "verity=required"@,
            OverlayFsOption::FsVerity(FsVerity::Off) => "verity=off"@,
            OverlayFsOption::Index(true) => "index=on"@,
            OverlayFsOption::Index(false) => "index=off"@,
            OverlayFsOption::Uuid(Uuid::On) => "uuid=on"@,
            OverlayFsOption::Uuid(Uuid::Off) => "uuid=off"@,
            OverlayFsOption::Uuid(Uuid::Null) => "uuid=null"@,
            OverlayFsOption::Xino(Xino::On) => "xino=on"@,
            OverlayFsOption::Xino(Xino::Auto) => "xino=auto"@,
            OverlayFsOption::Xino(Xino::Off) => "xino=off"@,
            OverlayFsOption::UserXattr => "userxattr"@,
            OverlayFsOption::Volatile => "volatile"@,
        }
    }

    /// Each token stands for its option; `fs_verify` is read as another name
    /// of `verity`.
    open spec fn parsed(s: Seq<char>) -> Option<OverlayFsOption> {
        if s == "redirect_dir=on"@ {
            Some(OverlayFsOption::RedirectDir(RedirectDir::On))
        } else if s == "redirect_dir=follow"@ {
            Some(OverlayFsOption::RedirectDir(RedirectDir::Follow))
        } else if s == "redirect_dir=nofollow"@ {
            Some(OverlayFsOption::RedirectDir(RedirectDir::NoFollow))
        } else if s == "redirect_dir=off"@ {
            Some(OverlayFsOption::RedirectDir(RedirectDir::Off))
        } else if s == "metacopy=on"@ {
            Some(OverlayFsOption::Metacopy(true))
        } else if s == "metacopy=off"@ {
            Some(OverlayFsOption::Metacopy(false))
        } else if s == "verity=on"@ {
            Some(OverlayFsOption::FsVerity(FsVerity::On))
        } else if s == "verity=required"@ {
            Some(OverlayFsOption::FsVerity(FsVerity::Require))
        } else if s == "verity=off"@ {
            Some(OverlayFsOption::FsVerity(FsVerity::Off))
        } else if s == "index=on"@ {
            Some(OverlayFsOption::Index(true))
        } else if s == "index=off"@ {
            Some(OverlayFsOption::Index(false))
        } else if s == "uuid=on"@ {
            Some(OverlayFsOption::Uuid(Uuid::On))
        } else if s == "uuid=off"@ {
            Some(OverlayFsOption::Uuid(Uuid::Off))
        } else if s == "uuid=null"@ {
            Some(OverlayFsOption::Uuid(Uuid::Null))
        } else if s == "xino=on"@ {
            Some(OverlayFsOption::Xino(Xino::On))
        } else if s == "xino=auto"@ {
            Some(OverlayFsOption::Xino(Xino::Auto))
        } else if s == "xino=off"@ {
            Some(OverlayFsOption::Xino(Xino::Off))
        } else if s == "userxattr"@ {
            Some(OverlayFsOption::UserXattr)
        } else if s == "volatile"@ {
            Some(OverlayFsOption::Volatile)
        } else if s == "fs_verify=on"@ {
            Some(OverlayFsOption::FsVerity(FsVerity::On))
        } else if s == "fs_verify=required"@ {
            Some(OverlayFsOption::FsVerity(FsVerity::Require))
        } else if s == "fs_verify=off"@ {
            Some(OverlayFsOption::FsVerity(FsVerity::Off))
        } else {
            None
        }
    }

    fn defaults() -> (r: Vec<OverlayFsOption>) {
        let r = vec![
            OverlayFsOption::RedirectDir(RedirectDir::On),
            OverlayFsOption::Index(true),
            OverlayFsOption::Xino(Xino::On),
        ];
        assert(r.deep_view() =~= Self::default_set());
        r
    }

    fn incompatible(&self, other: &MountOption<OverlayFsOption>) -> (b: bool) {
        matches!(self, OverlayFsOption::UserXattr) && matches!(
            other,
            MountOption::FsSpecific(OverlayFsOption::FsVerity(_))
        )
    }

    fn same_kind(&self, other: &OverlayFsOption) -> (b: bool) {
        self.kind_index() == other.kind_index()
    }

    fn equals(&self, other: &OverlayFsOption) -> (b: bool) {
        *self == *other
    }

    fn to_string(&self) -> (s: String) {
        self.token().to_owned()
    }

    fn from_str(s: &str) -> (r: Result<OverlayFsOption, FsError>) {
        let t = chars_of(s);
        if is_text(&t, "redirect_dir=on") {
            Ok(OverlayFsOption::RedirectDir(RedirectDir::On))
        } else if is_text(&t, "redirect_dir=follow") {
            Ok(OverlayFsOption::RedirectDir(RedirectDir::Follow))
        } else if is_text(&t, "redirect_dir=nofollow") {
            Ok(OverlayFsOption::RedirectDir(RedirectDir::NoFollow))
        } else if is_text(&t, "redirect_dir=off") {
            Ok(OverlayFsOption::RedirectDir(RedirectDir::Off))
        } else if is_text(&t, "metacopy=on") {
            Ok(OverlayFsOption::Metacopy(true))
        } else if is_text(&t, "metacopy=off") {
            Ok(OverlayFsOption::Metacopy(false))
        } else if is_text(&t, "verity=on") {
            Ok(OverlayFsOption::FsVerity(FsVerity::On))
        } else if is_text(&t, "verity=required") {
            Ok(OverlayFsOption::FsVerity(FsVerity::Require))
        } else if is_text(&t, "verity=off") {
            Ok(OverlayFsOption::FsVerity(FsVerity::Off))
        } else if is_text(&t, "index=on") {
            Ok(OverlayFsOption::Index(true))
        } else if is_text(&t, "index=off") {
            Ok(OverlayFsOption::Index(false))
        } else if is_text(&t, "uuid=on") {
            Ok(OverlayFsOption::Uuid(Uuid::On))
        } else if is_text(&t, "uuid=off") {
            Ok(OverlayFsOption::Uuid(Uuid::Off))
        } else if is_text(&t, "uuid=null") {
            Ok(OverlayFsOption::Uuid(Uuid::Null))
        } else if is_text(&t, "xino=on") {
            Ok(OverlayFsOption::Xino(Xino::On))
        } else if is_text(&t, "xino=auto") {
            Ok(OverlayFsOption::Xino(Xino::Auto))
        } else if is_text(&t, "xino=off") {
            Ok(OverlayFsOption::Xino(Xino::Off))
        } else if is_text(&t, "userxattr") {
            Ok(OverlayFsOption::UserXattr)
        } else if is_text(&t, "volatile") {
            Ok(OverlayFsOption::Volatile)
        } else if is_text(&t, "fs_verify=on") {
            Ok(OverlayFsOption::FsVerity(FsVerity::On))
        } else if is_text(&t, "fs_verify=required") {
            Ok(OverlayFsOption::FsVerity(FsVerity::Require))
        } else if is_text(&t, "fs_verify=off") {
            Ok(OverlayFsOption::FsVerity(FsVerity::Off))
        } else {
            Err(FsError::UnsupportedOption)
        }
    }

    proof fn lemma_round_trip(v: OverlayFsOption) {
        lemma_tokens();
    }

    proof fn lemma_text_is_specific(v: OverlayFsOption) {
        lemma_tokens();
    }

    proof fn lemma_defaults_distinct() {
    }
}

impl From<OverlayFsOption> for MountOption<OverlayFsOption> {
    fn from(val: OverlayFsOption) -> (r: Self) {
        MountOption::FsSpecific(val)
    }
}

impl FromSpecImpl<OverlayFsOption> for MountOption<OverlayFsOption> {
    open spec fn obeys_from_spec() -> bool {
        true
    }

    open spec fn from_spec(val: OverlayFsOption) -> Self {
        MountOption::FsSpecific(val)
    }
}

impl From<RedirectDir> for MountOption<OverlayFsOption> {
    fn from(val: RedirectDir) -> (r: Self) {
        MountOption::FsSpecific(OverlayFsOption::RedirectDir(val))
    }
}

impl FromSpecImpl<RedirectDir> for MountOption<OverlayFsOption> {
    open spec fn obeys_from_spec() -> bool {
        true
    }

    open spec fn from_spec(val: RedirectDir) -> Self {
        MountOption::FsSpecific(OverlayFsOption::RedirectDir(val))
    }
}

impl From<FsVerity> for MountOption<OverlayFsOption> {
    fn from(val: FsVerity) -> (r: Self) {
        MountOption::FsSpecific(OverlayFsOption::FsVerity(val))
    }
}

impl FromSpecImpl<FsVerity> for MountOption<OverlayFsOption> {
    open spec fn obeys_from_spec() -> bool {
        true
    }

    open spec fn from_spec(val: FsVerity) -> Self {
        MountOption::FsSpecific(OverlayFsOption::FsVerity(val))
    }
}

impl From<Xino> for MountOption<OverlayFsOption> {
    fn from(val: Xino) -> (r: Self) {
        MountOption::FsSpecific(OverlayFsOption::Xino(val))
    }
}

impl FromSpecImpl<Xino> for MountOption<OverlayFsOption> {
    open spec fn obeys_from_spec() -> bool {
        true
    }

    open spec fn from_spec(val: Xino) -> Self {
        MountOption::FsSpecific(OverlayFsOption::Xino(val))
    }
}

} // verus!
