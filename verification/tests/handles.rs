use damascus::Action;
use damascus::Filesystem;
use damascus::FsError;
use damascus::FsVerity;
use damascus::FuseOverlayFs;
use damascus::FuseOverlayFsOption;
use damascus::Launcher;
use damascus::LinuxFilesystem;
use damascus::MountOption;
use damascus::OverlayFs;
use damascus::OverlayFsOption;
use damascus::PartitionID;
use damascus::RedirectDir;
use damascus::StackableFilesystem;
use damascus::Step;
use damascus::UnionFsFuse;
use damascus::UnionFsFuseOption;
use damascus::Xino;

fn strings(items: &[&str]) -> Vec<String> {
    items.iter().map(|s| s.to_string()).collect()
}

fn listed() -> String {
    "nodev\tsysfs\nnodev\ttmpfs\nnodev\toverlay\n\text4\n".to_string()
}

fn not_listed() -> String {
    "nodev\tsysfs\nnodev\ttmpfs\n\text4\n".to_string()
}

const DEFAULTS: &str = ",redirect_dir=on,index=on,xino=on";

#[test]
fn try_from() {
    let id = PartitionID::try_from(Some(16)).unwrap();
    assert_ne!(id, PartitionID(0));
    assert_eq!(id, PartitionID(16));
    assert_eq!(id.device(), 16);
    assert_eq!(PartitionID::try_from(None), Err(FsError::NotFound));
    assert_eq!(PartitionID::new(7), PartitionID(7));
    assert!(PartitionID(7).same(&PartitionID(7)));
    assert!(!PartitionID(7).same(&PartitionID(8)));
}

#[test]
fn fuseoverlay_availability() {
    assert!(FuseOverlayFs::is_available(&Launcher::Embedded));
    assert!(FuseOverlayFs::is_available(&Launcher::External { runs: true }));
    assert!(!FuseOverlayFs::is_available(&Launcher::External { runs: false }));
}

#[test]
fn unionfs_fuse_availability() {
    assert!(UnionFsFuse::is_available(&Launcher::Embedded));
    assert!(UnionFsFuse::is_available(&Launcher::External { runs: true }));
    assert!(!UnionFsFuse::is_available(&Launcher::External { runs: false }));
}

#[test]
fn overlay_is_available_where_the_kernel_lists_it() {
    assert!(OverlayFs::is_available(&listed()));
    assert!(!OverlayFs::is_available(&not_listed()));
    assert!(!OverlayFs::is_available(&String::new()));
}

#[test]
fn a_new_overlay_handle_is_not_mounted_and_has_the_defaults() {
    let o = OverlayFs::new(
        strings(&["/l1"]),
        Some("/u".into()),
        Some("/w".into()),
        "/t".into(),
        false,
    )
    .unwrap();
    assert_eq!(o.lower(), vec!["/l1"]);
    assert_eq!(o.upper(), Some("/u"));
    assert_eq!(o.work(), Some(&"/w".to_string()));
    assert_eq!(o.target(), "/t");
    assert_eq!(o.id(), None);
    assert!(!o.mounted());
    assert!(!o.unmount_on_drop());
    assert_eq!(
        o.options(),
        &[
            MountOption::FsSpecific(OverlayFsOption::RedirectDir(RedirectDir::On)),
            MountOption::FsSpecific(OverlayFsOption::Index(true)),
            MountOption::FsSpecific(OverlayFsOption::Xino(Xino::On)),
        ][..]
    );
}

#[test]
fn a_read_only_stack_needs_two_lower_layers() {
    assert_eq!(OverlayFs::readonly(strings(&[]), "/t".into()).err(), Some(FsError::TooFewLayers));
    assert_eq!(OverlayFs::readonly(strings(&["/a"]), "/t".into()).err(), Some(FsError::TooFewLayers));
    assert_eq!(FuseOverlayFs::readonly(strings(&["/a"]), "/t".into()).err(), Some(FsError::TooFewLayers));
    assert_eq!(UnionFsFuse::readonly(strings(&["/a"]), "/t".into()).err(), Some(FsError::TooFewLayers));
    assert_eq!(
        FuseOverlayFs::new(strings(&["/a"]), None, None, "/t".into(), true).err(),
        Some(FsError::TooFewLayers)
    );
    let o = OverlayFs::readonly(strings(&["/a", "/b"]), "/t".into()).unwrap();
    assert_eq!(o.lower(), vec!["/a", "/b"]);
    assert_eq!(o.upper(), None);
    assert_eq!(o.work(), None);
    assert!(o.unmount_on_drop());
    assert!(OverlayFs::new(strings(&["/a"]), None, None, "/t".into(), true).is_ok());
    assert!(UnionFsFuse::new(strings(&[]), None, "/t".into(), true).is_ok());
}

#[test]
fn a_writable_stack_needs_upper_and_work_on_one_filesystem() {
    let lower = strings(&["/a", "/b"]);
    let made = OverlayFs::writable(
        lower.clone(),
        "/u".into(),
        "/w".into(),
        "/t".into(),
        Some(PartitionID(3)),
        Some(PartitionID(4)),
    );
    assert_eq!(made.err(), Some(FsError::CrossFilesystem));
    let made = FuseOverlayFs::writable(
        lower.clone(),
        "/u".into(),
        "/w".into(),
        "/t".into(),
        Some(PartitionID(3)),
        Some(PartitionID(4)),
    );
    assert_eq!(made.err(), Some(FsError::CrossFilesystem));
    let made =
        OverlayFs::writable(lower.clone(), "/u".into(), "/w".into(), "/t".into(), None, Some(PartitionID(4)));
    assert_eq!(made.err(), Some(FsError::NotFound));
    let made =
        OverlayFs::writable(lower.clone(), "/u".into(), "/w".into(), "/t".into(), Some(PartitionID(4)), None);
    assert_eq!(made.err(), Some(FsError::NotFound));
    let o = OverlayFs::writable(
        lower.clone(),
        "/u".into(),
        "/w".into(),
        "/t".into(),
        Some(PartitionID(4)),
        Some(PartitionID(4)),
    )
    .unwrap();
    assert_eq!(o.upper(), Some("/u"));
    assert_eq!(o.work(), Some(&"/w".to_string()));
    assert!(o.unmount_on_drop());
    assert!(!o.mounted());
    let u = UnionFsFuse::writable(lower, "/u".into(), "/t".into()).unwrap();
    assert_eq!(u.upper(), Some("/u"));
}

#[test]
fn an_overlay_mount_without_upper_is_read_only() {
    let mut o = OverlayFs::readonly(strings(&["/l1", "/l2"]), "/t".into()).unwrap();
    let step = o.mount_as(&listed(), None, true).unwrap();
    assert_eq!(
        step,
        Step::Perform(Action::KernelMount {
            fstype: "overlay".into(),
            target: "/t".into(),
            read_only: true,
            data: format!("lowerdir=/l1:/l2{}", DEFAULTS),
        })
    );
    assert!(!o.mounted());
}

#[test]
fn an_overlay_mount_with_upper_and_work_is_writable() {
    let mut o = OverlayFs::writable(
        strings(&["/l1", "/l2"]),
        "/u".into(),
        "/w".into(),
        "/t".into(),
        Some(PartitionID(1)),
        Some(PartitionID(1)),
    )
    .unwrap();
    let step = o.mount_as(&listed(), Some(PartitionID(9)), true).unwrap();
    assert_eq!(
        step,
        Step::Perform(Action::KernelMount {
            fstype: "overlay".into(),
            target: "/t".into(),
            read_only: false,
            data: format!("lowerdir=/l1:/l2,upperdir=/u,workdir=/w{}", DEFAULTS),
        })
    );
}

#[test]
fn an_overlay_mount_with_upper_alone_is_read_only() {
    let mut o = OverlayFs::new(strings(&["/l1"]), Some("/u".into()), None, "/t".into(), true).unwrap();
    match o.mount_as(&listed(), None, true).unwrap() {
        Step::Perform(Action::KernelMount { read_only, data, .. }) => {
            assert!(read_only);
            assert_eq!(data, format!("lowerdir=/l1{}", DEFAULTS));
        }
        other => panic!("{:?}", other),
    }
}

#[test]
fn an_unprivileged_overlay_mount_sets_user_xattr() {
    let mut o = OverlayFs::readonly(strings(&["/l1", "/l2"]), "/t".into()).unwrap();
    match o.mount_as(&listed(), None, false).unwrap() {
        Step::Perform(Action::KernelMount { data, .. }) => {
            assert_eq!(data, format!("lowerdir=/l1:/l2{},userxattr", DEFAULTS));
        }
        other => panic!("{:?}", other),
    }
    assert_eq!(o.options().len(), 4);
    assert_eq!(o.options()[3], MountOption::FsSpecific(OverlayFsOption::UserXattr));
    match o.mount_as(&listed(), None, false).unwrap() {
        Step::Perform(Action::KernelMount { data, .. }) => {
            assert_eq!(data, format!("lowerdir=/l1:/l2{},userxattr", DEFAULTS));
        }
        other => panic!("{:?}", other),
    }
    assert_eq!(o.options().len(), 4);
}

#[test]
fn an_unprivileged_overlay_mount_with_verity_is_refused() {
    let mut o = OverlayFs::readonly(strings(&["/l1", "/l2"]), "/t".into()).unwrap();
    o.set_option(FsVerity::On.into()).unwrap();
    let before: Vec<MountOption<OverlayFsOption>> = o.options().to_vec();
    assert_eq!(o.mount_as(&listed(), None, false), Err(FsError::IncompatibleOption));
    assert_eq!(o.options(), &before[..]);
    assert!(o.mount_as(&listed(), None, true).is_ok());
}

#[test]
fn mount_for_this_process_is_one_of_the_two() {
    let mut o = OverlayFs::readonly(strings(&["/l1", "/l2"]), "/t".into()).unwrap();
    match o.mount(&listed(), None).unwrap() {
        Step::Perform(Action::KernelMount { fstype, target, read_only, data }) => {
            assert_eq!(fstype, "overlay");
            assert_eq!(target, "/t");
            assert!(read_only);
            let with = format!("lowerdir=/l1:/l2{},userxattr", DEFAULTS);
            let without = format!("lowerdir=/l1:/l2{}", DEFAULTS);
            assert!(data == with || data == without);
            assert_eq!(data == with, o.options().len() == 4);
        }
        other => panic!("{:?}", other),
    }
}

#[test]
fn a_backend_that_is_not_at_hand_refuses_to_mount() {
    let mut o = OverlayFs::readonly(strings(&["/l1", "/l2"]), "/t".into()).unwrap();
    assert_eq!(o.mount_as(&not_listed(), None, true), Err(FsError::Unavailable));
    assert_eq!(o.mount(&not_listed(), Some(PartitionID(1))), Err(FsError::Unavailable));
    let mut f = FuseOverlayFs::readonly(strings(&["/l1", "/l2"]), "/t".into()).unwrap();
    assert_eq!(f.mount(&Launcher::External { runs: false }, None), Err(FsError::Unavailable));
    let mut u = UnionFsFuse::readonly(strings(&["/l1", "/l2"]), "/t".into()).unwrap();
    assert_eq!(u.mount(&Launcher::External { runs: false }, None), Err(FsError::Unavailable));
}

#[test]
fn a_second_mount_asks_nothing_of_the_system() {
    let mut o = OverlayFs::readonly(strings(&["/l1", "/l2"]), "/t".into()).unwrap();
    assert!(matches!(o.mount_as(&listed(), Some(PartitionID(1)), true), Ok(Step::Perform(_))));
    assert_eq!(o.finish_mount(true, Some(PartitionID(7))), Ok("/t".to_string()));
    assert_eq!(o.id(), Some(&PartitionID(7)));
    assert!(o.mounted());
    assert_eq!(o.mount_as(&listed(), Some(PartitionID(7)), true), Ok(Step::Done));
    assert_eq!(o.mount_as(&listed(), Some(PartitionID(7)), false), Ok(Step::Done));
    assert_eq!(o.mount(&listed(), Some(PartitionID(7))), Ok(Step::Done));
    assert_eq!(o.target(), "/t");
    assert_eq!(o.options().len(), 3);

    let mut f = FuseOverlayFs::readonly(strings(&["/l1", "/l2"]), "/t".into()).unwrap();
    assert!(matches!(f.mount(&Launcher::Embedded, None), Ok(Step::Perform(_))));
    assert_eq!(f.finish_mount(true, Some(PartitionID(7))), Ok("/t".to_string()));
    assert_eq!(f.mount(&Launcher::Embedded, Some(PartitionID(7))), Ok(Step::Done));

    let mut u = UnionFsFuse::readonly(strings(&["/l1", "/l2"]), "/t".into()).unwrap();
    assert!(matches!(u.mount(&Launcher::Embedded, None), Ok(Step::Perform(_))));
    assert_eq!(u.finish_mount(true, Some(PartitionID(7))), Ok("/t".to_string()));
    assert_eq!(u.mount(&Launcher::Embedded, Some(PartitionID(7))), Ok(Step::Done));
}

#[test]
fn a_mounted_handle_whose_target_moved_mounts_again() {
    let mut o = OverlayFs::readonly(strings(&["/l1", "/l2"]), "/t".into()).unwrap();
    o.finish_mount(true, Some(PartitionID(7))).unwrap();
    assert!(matches!(o.mount_as(&listed(), Some(PartitionID(8)), true), Ok(Step::Perform(_))));
    assert_eq!(o.mount_as(&listed(), None, true), Err(FsError::NotFound));
    assert_eq!(o.id(), Some(&PartitionID(7)));
}

#[test]
fn a_mount_that_failed_leaves_the_handle_unmounted() {
    let mut o = OverlayFs::readonly(strings(&["/l1", "/l2"]), "/t".into()).unwrap();
    assert_eq!(o.finish_mount(false, Some(PartitionID(7))), Err(FsError::MountFailed));
    assert!(!o.mounted());
    assert_eq!(o.finish_mount(false, None), Err(FsError::MountFailed));
    assert_eq!(o.finish_mount(true, None), Err(FsError::UnknownIdentity));
    assert!(!o.mounted());
    assert_eq!(o.id(), None);
}

#[test]
fn unmount_asks_only_for_what_the_handle_mounted() {
    let mut o = OverlayFs::readonly(strings(&["/l1", "/l2"]), "/t".into()).unwrap();
    assert_eq!(o.unmount(Some(PartitionID(7))), Ok(Step::Done));
    assert_eq!(o.unmount(None), Ok(Step::Done));
    o.finish_mount(true, Some(PartitionID(7))).unwrap();
    assert_eq!(o.unmount(None), Err(FsError::NotFound));
    assert_eq!(o.unmount(Some(PartitionID(8))), Ok(Step::Done));
    assert!(o.mounted());
    assert_eq!(
        o.unmount(Some(PartitionID(7))),
        Ok(Step::Perform(Action::KernelUnmount { target: "/t".into() }))
    );
    assert_eq!(o.finish_unmount(false), Err(FsError::UnmountFailed));
    assert!(o.mounted());
    assert_eq!(o.id(), Some(&PartitionID(7)));
    assert_eq!(o.finish_unmount(true), Ok(()));
    assert!(!o.mounted());
    assert_eq!(o.unmount(Some(PartitionID(7))), Ok(Step::Done));
}

#[test]
fn user_space_backends_unmount_through_the_fuse_helper() {
    let expected = Step::Perform(Action::Run {
        program: "fusermount".into(),
        args: strings(&["-z", "-u", "/t"]),
    });
    let mut f = FuseOverlayFs::readonly(strings(&["/l1", "/l2"]), "/t".into()).unwrap();
    f.finish_mount(true, Some(PartitionID(7))).unwrap();
    assert_eq!(f.unmount(Some(PartitionID(7))), Ok(expected.clone()));
    assert_eq!(f.finish_unmount(true), Ok(()));
    assert_eq!(f.id(), None);
    let mut u = UnionFsFuse::readonly(strings(&["/l1", "/l2"]), "/t".into()).unwrap();
    u.finish_mount(true, Some(PartitionID(7))).unwrap();
    assert_eq!(u.unmount(Some(PartitionID(7))), Ok(expected));
    assert_eq!(u.finish_unmount(false), Err(FsError::UnmountFailed));
    assert_eq!(u.id(), Some(&PartitionID(7)));
}

#[test]
fn fuse_overlay_is_run_with_layers_and_options_in_one_argument() {
    let mut f = FuseOverlayFs::writable(
        strings(&["/l1", "/l2"]),
        "/u".into(),
        "/w".into(),
        "/t".into(),
        Some(PartitionID(1)),
        Some(PartitionID(1)),
    )
    .unwrap();
    f.set_option(FuseOverlayFsOption::AllowOther.into()).unwrap();
    f.set_option(FuseOverlayFsOption::MaxThread(4).into()).unwrap();
    assert_eq!(
        f.mount(&Launcher::External { runs: true }, None),
        Ok(Step::Perform(Action::Run {
            program: "fuse-overlayfs".into(),
            args: strings(&[
                "-o",
                "lowerdir=/l1:/l2,upperdir=/u,workdir=/w,allow_other,max_threads=4",
                "/t"
            ]),
        }))
    );
    let mut r = FuseOverlayFs::readonly(strings(&["/l1", "/l2"]), "/t".into()).unwrap();
    assert_eq!(
        r.mount(&Launcher::Embedded, None),
        Ok(Step::Perform(Action::Run {
            program: "fuse-overlayfs".into(),
            args: strings(&["-o", "lowerdir=/l1:/l2", "/t"]),
        }))
    );
}

#[test]
fn unionfs_is_run_with_options_and_marked_branches() {
    let mut u = UnionFsFuse::writable(strings(&["/l1", "/l2"]), "/u".into(), "/t".into()).unwrap();
    assert_eq!(
        u.mount(&Launcher::External { runs: true }, None),
        Ok(Step::Perform(Action::Run {
            program: "unionfs".into(),
            args: strings(&["-o", "cow,hide_meta_files", "/l1=ro:/l2=ro:/u=rw", "/t"]),
        }))
    );
    let mut r = UnionFsFuse::readonly(strings(&["/l1", "/l2"]), "/t".into()).unwrap();
    r.remove_option(UnionFsFuseOption::Cow.into()).unwrap();
    r.remove_option(UnionFsFuseOption::HideMetaFiles.into()).unwrap();
    assert_eq!(
        r.mount(&Launcher::Embedded, None),
        Ok(Step::Perform(Action::Run {
            program: "unionfs".into(),
            args: strings(&["-o", "", "/l1=ro:/l2=ro", "/t"]),
        }))
    );
}

#[test]
fn the_target_cannot_change_while_mounted() {
    let mut o = OverlayFs::readonly(strings(&["/l1", "/l2"]), "/t".into()).unwrap();
    assert_eq!(o.set_target("/other"), Ok(()));
    assert_eq!(o.target(), "/other");
    o.finish_mount(true, Some(PartitionID(7))).unwrap();
    assert_eq!(o.set_target("/elsewhere"), Err(FsError::Mounted));
    assert_eq!(o.target(), "/other");
    assert!(o.mounted());

    let mut f = FuseOverlayFs::readonly(strings(&["/l1", "/l2"]), "/t".into()).unwrap();
    f.finish_mount(true, Some(PartitionID(7))).unwrap();
    assert_eq!(f.set_target("/elsewhere"), Err(FsError::Mounted));
    assert_eq!(f.target(), "/t");

    let mut u = UnionFsFuse::readonly(strings(&["/l1", "/l2"]), "/t".into()).unwrap();
    u.finish_mount(true, Some(PartitionID(7))).unwrap();
    assert_eq!(u.set_target("/elsewhere"), Err(FsError::Mounted));
    assert_eq!(u.target(), "/t");
    u.finish_unmount(true).unwrap();
    assert_eq!(u.set_target("/elsewhere"), Ok(()));
    assert_eq!(u.target(), "/elsewhere");
}

#[test]
fn the_layers_cannot_change_while_mounted() {
    let mut o = OverlayFs::writable(
        strings(&["/l1", "/l2"]),
        "/u".into(),
        "/w".into(),
        "/t".into(),
        Some(PartitionID(1)),
        Some(PartitionID(1)),
    )
    .unwrap();
    assert_eq!(o.set_lower(strings(&["/x"])), Ok(()));
    assert_eq!(o.lower(), vec!["/x"]);
    assert_eq!(o.set_upper("/u2".into(), Some(PartitionID(1)), Some(PartitionID(1))), Ok(()));
    assert_eq!(o.upper(), Some("/u2"));
    assert_eq!(o.set_work("/w2".into(), Some(PartitionID(1)), Some(PartitionID(1))), Ok(()));
    assert_eq!(o.work(), Some(&"/w2".to_string()));
    o.finish_mount(true, Some(PartitionID(7))).unwrap();
    assert_eq!(o.set_lower(strings(&["/y"])), Err(FsError::Mounted));
    assert_eq!(o.set_upper("/u3".into(), Some(PartitionID(1)), Some(PartitionID(1))), Err(FsError::Mounted));
    assert_eq!(o.set_work("/w3".into(), Some(PartitionID(1)), Some(PartitionID(1))), Err(FsError::Mounted));
    assert_eq!(o.lower(), vec!["/x"]);
    assert_eq!(o.upper(), Some("/u2"));
    assert_eq!(o.work(), Some(&"/w2".to_string()));

    let mut u = UnionFsFuse::readonly(strings(&["/l1", "/l2"]), "/t".into()).unwrap();
    assert_eq!(u.set_upper("/u".into(), None, None), Ok(()));
    assert_eq!(u.upper(), Some("/u"));
    u.finish_mount(true, Some(PartitionID(7))).unwrap();
    assert_eq!(u.set_upper("/v".into(), None, None), Err(FsError::Mounted));
    assert_eq!(u.set_lower(strings(&["/y"])), Err(FsError::Mounted));
    assert_eq!(u.upper(), Some("/u"));
}

#[test]
fn upper_and_work_must_share_a_filesystem_when_set() {
    let mut o = OverlayFs::writable(
        strings(&["/l1", "/l2"]),
        "/u".into(),
        "/w".into(),
        "/t".into(),
        Some(PartitionID(1)),
        Some(PartitionID(1)),
    )
    .unwrap();
    assert_eq!(o.set_upper("/u2".into(), Some(PartitionID(2)), Some(PartitionID(1))), Err(FsError::CrossFilesystem));
    assert_eq!(o.set_upper("/u2".into(), None, Some(PartitionID(1))), Err(FsError::NotFound));
    assert_eq!(o.set_upper("/u2".into(), Some(PartitionID(1)), None), Err(FsError::NotFound));
    assert_eq!(o.set_work("/w2".into(), Some(PartitionID(2)), Some(PartitionID(1))), Err(FsError::CrossFilesystem));
    assert_eq!(o.set_work("/w2".into(), None, Some(PartitionID(1))), Err(FsError::NotFound));
    assert_eq!(o.upper(), Some("/u"));
    assert_eq!(o.work(), Some(&"/w".to_string()));

    let mut bare = FuseOverlayFs::readonly(strings(&["/l1", "/l2"]), "/t".into()).unwrap();
    assert_eq!(bare.set_upper("/u".into(), Some(PartitionID(1)), Some(PartitionID(1))), Err(FsError::WorkNotSet));
    assert_eq!(bare.set_work("/w".into(), Some(PartitionID(1)), Some(PartitionID(1))), Err(FsError::UpperNotSet));
    assert_eq!(bare.set_work("/w".into(), None, None), Err(FsError::NotFound));
    assert_eq!(bare.upper(), None);
    assert_eq!(bare.work(), None);
}

#[test]
fn options_of_a_handle_are_set_and_removed() {
    let mut o = OverlayFs::readonly(strings(&["/l1", "/l2"]), "/t".into()).unwrap();
    assert_eq!(o.set_option(RedirectDir::Off.into()), Ok(()));
    assert_eq!(o.set_option(MountOption::RO), Ok(()));
    assert_eq!(o.set_option(MountOption::RW), Err(FsError::IncompatibleOption));
    assert_eq!(
        o.options(),
        &[
            MountOption::FsSpecific(OverlayFsOption::RedirectDir(RedirectDir::Off)),
            MountOption::FsSpecific(OverlayFsOption::Index(true)),
            MountOption::FsSpecific(OverlayFsOption::Xino(Xino::On)),
            MountOption::RO,
        ][..]
    );
    assert_eq!(o.remove_option(OverlayFsOption::Index(false).into()), Ok(()));
    assert_eq!(o.options().len(), 4);
    assert_eq!(o.remove_option(OverlayFsOption::Index(true).into()), Ok(()));
    assert_eq!(
        o.options(),
        &[
            MountOption::FsSpecific(OverlayFsOption::RedirectDir(RedirectDir::Off)),
            MountOption::FsSpecific(OverlayFsOption::Xino(Xino::On)),
            MountOption::RO,
        ][..]
    );
    assert_eq!(o.remove_option(MountOption::RO), Ok(()));
    assert_eq!(o.set_option(MountOption::RW), Ok(()));
    match o.mount_as(&listed(), None, true).unwrap() {
        Step::Perform(Action::KernelMount { data, .. }) => {
            assert_eq!(data, "lowerdir=/l1:/l2,redirect_dir=off,xino=on,rw");
        }
        other => panic!("{:?}", other),
    }
}

#[test]
fn the_drop_flag_can_be_disarmed() {
    let mut o = OverlayFs::readonly(strings(&["/l1", "/l2"]), "/t".into()).unwrap();
    assert!(o.unmount_on_drop());
    o.set_unmount_on_drop(false);
    assert!(!o.unmount_on_drop());
    o.set_unmount_on_drop(true);
    assert!(o.unmount_on_drop());
    assert_eq!(o.target(), "/t");
}

#[test]
fn paths_with_special_characters_are_escaped_for_the_kernel() {
    let mut o = OverlayFs::new(
        strings(&["/a:b", "/c,d"]),
        Some("/u\\v".into()),
        Some("/w".into()),
        "/t:x".into(),
        true,
    )
    .unwrap();
    match o.mount_as(&listed(), None, true).unwrap() {
        Step::Perform(Action::KernelMount { data, target, .. }) => {
            assert_eq!(data, format!("lowerdir=/a\\:b:/c\\,d,upperdir=/u\\\\v,workdir=/w{}", DEFAULTS));
            assert_eq!(target, "/t:x");
        }
        other => panic!("{:?}", other),
    }
}

#[test]
fn paths_with_special_characters_go_to_fuse_overlayfs_as_they_are() {
    let mut f = FuseOverlayFs::new(
        strings(&["/a:b", "/c,d"]),
        Some("/u\\v".into()),
        Some("/w".into()),
        "/t:x".into(),
        true,
    )
    .unwrap();
    assert_eq!(
        f.mount(&Launcher::Embedded, None),
        Ok(Step::Perform(Action::Run {
            program: "fuse-overlayfs".into(),
            args: strings(&["-o", "lowerdir=/a:b:/c,d,upperdir=/u\\v,workdir=/w", "/t:x"]),
        }))
    );
    let mut g = FuseOverlayFs::readonly(strings(&[",", "b"]), "/t".into()).unwrap();
    assert_eq!(
        g.mount(&Launcher::Embedded, None),
        Ok(Step::Perform(Action::Run {
            program: "fuse-overlayfs".into(),
            args: strings(&["-o", "lowerdir=,:b", "/t"]),
        }))
    );
}

#[test]
fn a_failed_fuse_mount_leaves_the_handle_as_it_was() {
    let mut f = FuseOverlayFs::readonly(strings(&["/l1", "/l2"]), "/t".into()).unwrap();
    f.set_option(FuseOverlayFsOption::AllowRoot.into()).unwrap();
    assert!(matches!(f.mount(&Launcher::External { runs: true }, None), Ok(Step::Perform(_))));
    assert_eq!(f.finish_mount(false, Some(PartitionID(3))), Err(FsError::MountFailed));
    assert_eq!(f.id(), None);
    assert!(!f.mounted());
    assert_eq!(f.lower(), vec!["/l1", "/l2"]);
    assert_eq!(f.target(), "/t");
    assert_eq!(f.options(), &[MountOption::FsSpecific(FuseOverlayFsOption::AllowRoot)][..]);
}

#[test]
fn suid_is_replaced_in_a_handle() {
    let mut o = OverlayFs::readonly(strings(&["/l1", "/l2"]), "/t".into()).unwrap();
    assert_eq!(o.set_option(MountOption::Suid(true)), Ok(()));
    assert_eq!(o.set_option(MountOption::Suid(false)), Ok(()));
    assert_eq!(o.options().len(), 4);
    assert_eq!(o.options()[3], MountOption::Suid(false));
}
