use damascus::restore_fsdata;
use damascus::Action;
use damascus::Filesystem;
use damascus::FsError;
use damascus::FuseOverlayFs;
use damascus::FuseOverlayFsOption;
use damascus::LinuxFilesystem;
use damascus::MountEntry;
use damascus::MountOption;
use damascus::OverlayFs;
use damascus::OverlayFsOption;
use damascus::PartitionID;
use damascus::RedirectDir;
use damascus::StackableFilesystem;
use damascus::StateRecovery;
use damascus::Step;
use damascus::Uuid;
use damascus::Xino;

fn strings(items: &[&str]) -> Vec<String> {
    items.iter().map(|s| s.to_string()).collect()
}

fn entry(dir: &str, options: &str) -> MountEntry {
    MountEntry { dir: dir.to_string(), options: options.to_string() }
}

#[test]
fn the_options_of_the_entry_at_the_path_are_restored() {
    let table = vec![
        entry("/", "rw,relatime"),
        entry("/mnt", "ro,nosuid,index=off,lowerdir=/a:/b"),
        entry("/mnt", "rw"),
    ];
    let data = restore_fsdata::<OverlayFsOption>("/mnt", &table).unwrap();
    assert_eq!(
        data.options(),
        &[
            MountOption::RO,
            MountOption::Suid(false),
            MountOption::FsSpecific(OverlayFsOption::Index(false)),
            MountOption::Other("lowerdir=/a:/b".into()),
        ][..]
    );
    assert!(restore_fsdata::<OverlayFsOption>("/mn", &table).is_none());
    assert!(restore_fsdata::<OverlayFsOption>("/mnt/", &table).is_none());
    assert!(restore_fsdata::<OverlayFsOption>("/mnt", &Vec::new()).is_none());
    let root = restore_fsdata::<OverlayFsOption>("/", &table).unwrap();
    assert_eq!(root.options(), &[MountOption::RW, MountOption::Other("relatime".into())][..]);
    let empty = restore_fsdata::<OverlayFsOption>("/e", &vec![entry("/e", "")]).unwrap();
    assert_eq!(empty.into_options(), vec![MountOption::Other(String::new())]);
}

#[test]
fn a_mounted_overlay_is_recovered_from_the_mount_table() {
    let mut o = OverlayFs::readonly(strings(&["/A", "/B"]), "/T".into()).unwrap();
    let listed = "nodev\toverlay\n".to_string();
    let data = match o.mount_as(&listed, None, true).unwrap() {
        Step::Perform(Action::KernelMount { data, .. }) => data,
        other => panic!("{:?}", other),
    };
    o.finish_mount(true, Some(PartitionID(42))).unwrap();
    let table = vec![entry("/", "rw"), entry("/T", &format!("ro,relatime,{}", data))];
    let r = OverlayFs::recover("/T", &table, Some(PartitionID(42))).unwrap();
    assert_eq!(r.lower(), vec!["/A", "/B"]);
    assert_eq!(r.target(), "/T");
    assert!(!r.unmount_on_drop());
    assert_eq!(r.id(), Some(&PartitionID(42)));
    assert!(r.mounted());
    assert_eq!(r.upper(), None);
    assert_eq!(r.work(), None);
    assert_eq!(
        r.options(),
        &[
            MountOption::RO,
            MountOption::Other("relatime".into()),
            MountOption::FsSpecific(OverlayFsOption::RedirectDir(RedirectDir::On)),
            MountOption::FsSpecific(OverlayFsOption::Index(true)),
            MountOption::FsSpecific(OverlayFsOption::Xino(Xino::On)),
        ][..]
    );
}

#[test]
fn a_writable_overlay_is_recovered_with_upper_and_work() {
    let table = vec![entry(
        "/T",
        "rw,lowerdir=/A:/B:/C,upperdir=/U,workdir=/W,uuid=on,nfs_export=off",
    )];
    let r = OverlayFs::recover("/T", &table, Some(PartitionID(1))).unwrap();
    assert_eq!(r.lower(), vec!["/A", "/B", "/C"]);
    assert_eq!(r.upper(), Some("/U"));
    assert_eq!(r.work(), Some(&"/W".to_string()));
    assert_eq!(
        r.options(),
        &[
            MountOption::RW,
            MountOption::FsSpecific(OverlayFsOption::Uuid(Uuid::On)),
            MountOption::Other("nfs_export=off".into()),
        ][..]
    );
    assert!(!r.unmount_on_drop());
}

#[test]
fn recovery_fails_without_an_entry_or_an_identity() {
    let table = vec![entry("/T", "lowerdir=/A:/B")];
    assert_eq!(OverlayFs::recover("/X", &table, Some(PartitionID(1))).err(), Some(FsError::NotRecovered));
    assert_eq!(OverlayFs::recover("/X", &table, None).err(), Some(FsError::NotRecovered));
    assert_eq!(OverlayFs::recover("/T", &table, None).err(), Some(FsError::UnknownIdentity));
    assert_eq!(OverlayFs::recover("/T", &Vec::new(), Some(PartitionID(1))).err(), Some(FsError::NotRecovered));
}

#[test]
fn a_recovered_handle_is_mounted_already() {
    let table = vec![entry("/T", "lowerdir=/A:/B")];
    let mut r = OverlayFs::recover("/T", &table, Some(PartitionID(5))).unwrap();
    assert_eq!(r.mount_as(&"overlay".to_string(), Some(PartitionID(5)), false), Ok(Step::Done));
    assert_eq!(r.set_target("/other"), Err(FsError::Mounted));
    assert_eq!(
        r.unmount(Some(PartitionID(5))),
        Ok(Step::Perform(Action::KernelUnmount { target: "/T".into() }))
    );
}

#[test]
fn repeated_layer_tokens_add_lower_layers_and_replace_the_others() {
    let table = vec![entry("/T", "lowerdir=/A,upperdir=/U1,lowerdir=/B:/C,upperdir=/U2,workdir=/W,lowerdir=")];
    let r = OverlayFs::recover("/T", &table, Some(PartitionID(5))).unwrap();
    assert_eq!(r.lower(), vec!["/A", "/B", "/C", ""]);
    assert_eq!(r.upper(), Some("/U2"));
    assert_eq!(r.work(), Some(&"/W".to_string()));
    assert!(r.options().is_empty());
}

#[test]
fn a_running_fuse_overlay_is_recovered_from_its_command_line() {
    let lines = strings(&[
        "fuse-overlayfs -o lowerdir=/x:/y /other",
        "fuse-overlayfs -o lowerdir=/A:/B,upperdir=/U,workdir=/W,allow_other,max_threads=4,noatime /T",
        "fuse-overlayfs -o lowerdir=/late /T",
    ]);
    let r = FuseOverlayFs::recover("/T", &lines, Some(PartitionID(9))).unwrap();
    assert_eq!(r.lower(), vec!["/A", "/B"]);
    assert_eq!(r.upper(), Some("/U"));
    assert_eq!(r.work(), Some(&"/W".to_string()));
    assert_eq!(r.target(), "/T");
    assert_eq!(r.id(), Some(&PartitionID(9)));
    assert!(!r.unmount_on_drop());
    assert_eq!(
        r.options(),
        &[
            MountOption::FsSpecific(FuseOverlayFsOption::AllowOther),
            MountOption::FsSpecific(FuseOverlayFsOption::MaxThread(4)),
            MountOption::Other("noatime".into()),
        ][..]
    );
}

#[test]
fn fuse_recovery_goes_by_the_last_positional_argument() {
    let lines = strings(&["fuse-overlayfs /T -o lowerdir=/A:/B /elsewhere"]);
    assert_eq!(FuseOverlayFs::recover("/T", &lines, Some(PartitionID(9))).err(), Some(FsError::NotRecovered));
    let r = FuseOverlayFs::recover("/elsewhere", &lines, Some(PartitionID(9))).unwrap();
    assert_eq!(r.lower(), vec!["/A", "/B"]);
    let spaced = strings(&["fuse-overlayfs  -o  lowerdir=/A:/B  /T "]);
    let r = FuseOverlayFs::recover("/T", &spaced, Some(PartitionID(9))).unwrap();
    assert_eq!(r.lower(), vec!["/A", "/B"]);
    assert!(r.options().is_empty());
}

#[test]
fn fuse_recovery_fails_without_a_process_or_an_identity() {
    let lines = strings(&[
        "unionfs -o cow /a=ro /T",
        "/usr/bin/fuse-overlayfs -o lowerdir=/A:/B /T",
        "fuse-overlayfs -o lowerdir=/A:/B",
        "fuse-overlayfs -o",
        "fuse-overlayfs",
    ]);
    assert_eq!(FuseOverlayFs::recover("/T", &lines, Some(PartitionID(9))).err(), Some(FsError::NotRecovered));
    assert_eq!(FuseOverlayFs::recover("/T", &Vec::new(), Some(PartitionID(9))).err(), Some(FsError::NotRecovered));
    let found = strings(&["fuse-overlayfs -o lowerdir=/A:/B /T"]);
    assert_eq!(FuseOverlayFs::recover("/T", &found, None).err(), Some(FsError::UnknownIdentity));
}

#[test]
fn several_option_arguments_are_gathered() {
    let lines = strings(&["fuse-overlayfs -o lowerdir=/A -o lowerdir=/B,noacl -o upperdir=/U,workdir=/W /T"]);
    let r = FuseOverlayFs::recover("/T", &lines, Some(PartitionID(9))).unwrap();
    assert_eq!(r.lower(), vec!["/A", "/B"]);
    assert_eq!(r.upper(), Some("/U"));
    assert_eq!(r.work(), Some(&"/W".to_string()));
    assert_eq!(r.options(), &[MountOption::FsSpecific(FuseOverlayFsOption::NoAcl)][..]);
}

#[test]
fn a_fuse_overlay_is_recovered_from_what_it_was_run_with() {
    let mut f = FuseOverlayFs::writable(
        strings(&["/A", "/B"]),
        "/U".into(),
        "/W".into(),
        "/T".into(),
        Some(PartitionID(1)),
        Some(PartitionID(1)),
    )
    .unwrap();
    f.set_option(FuseOverlayFsOption::SquashToUid(1000).into()).unwrap();
    f.set_option(MountOption::Suid(false)).unwrap();
    let (program, args) = match f.mount(&damascus::Launcher::Embedded, None).unwrap() {
        Step::Perform(Action::Run { program, args }) => (program, args),
        other => panic!("{:?}", other),
    };
    let line = format!("{} {}", program, args.join(" "));
    assert_eq!(line, "fuse-overlayfs -o lowerdir=/A:/B,upperdir=/U,workdir=/W,squash_to_uid=1000,nosuid /T");
    let r = FuseOverlayFs::recover("/T", &vec![line], Some(PartitionID(3))).unwrap();
    assert_eq!(r.lower(), f.lower());
    assert_eq!(r.upper(), f.upper());
    assert_eq!(r.work(), f.work());
    assert_eq!(r.options(), f.options());
    assert_eq!(r.target(), f.target());
    assert!(!r.unmount_on_drop());
    assert!(r.mounted());
}

fn written_by(o: &mut OverlayFs) -> String {
    match o.mount_as(&"nodev\toverlay\n".to_string(), None, true).unwrap() {
        Step::Perform(Action::KernelMount { data, .. }) => data,
        other => panic!("{:?}", other),
    }
}

#[test]
fn the_lower_layers_come_back_whatever_else_was_written() {
    let mut o = OverlayFs::new(
        vec!["/A".to_string(), "/B b".to_string(), "/C=c".to_string()],
        Some("/up,per:x".to_string()),
        Some("/wo\\rk".to_string()),
        "/T".to_string(),
        true,
    )
    .unwrap();
    o.set_option(MountOption::Other("context=a,b".into())).unwrap();
    o.set_option(MountOption::Other("rw".into())).unwrap();
    let data = written_by(&mut o);
    let table = vec![entry("/", "rw"), entry("/T", &data), entry("/T", "lowerdir=/other")];
    let r = OverlayFs::recover("/T", &table, Some(PartitionID(8))).unwrap();
    assert_eq!(r.lower(), vec!["/A", "/B b", "/C=c"]);
    assert_eq!(r.target(), "/T");
    assert_eq!(r.id(), Some(&PartitionID(8)));
    assert!(!r.unmount_on_drop());
}

#[test]
fn lower_layers_with_special_characters_do_not_come_back() {
    let mut colon = OverlayFs::readonly(vec!["/a:b".to_string(), "/c".to_string()], "/T".to_string()).unwrap();
    let data = written_by(&mut colon);
    let r = OverlayFs::recover("/T", &vec![entry("/T", &data)], Some(PartitionID(8))).unwrap();
    assert_eq!(r.lower(), vec!["/a\\", "b", "/c"]);

    let mut none = OverlayFs::new(Vec::new(), None, None, "/T".to_string(), true).unwrap();
    let data = written_by(&mut none);
    let r = OverlayFs::recover("/T", &vec![entry("/T", &data)], Some(PartitionID(8))).unwrap();
    assert_eq!(r.lower(), vec![""]);

    let mut named = OverlayFs::readonly(vec!["/a".to_string(), "/b".to_string()], "/T".to_string()).unwrap();
    named.set_option(MountOption::Other("lowerdir=/x".into())).unwrap();
    let data = written_by(&mut named);
    let r = OverlayFs::recover("/T", &vec![entry("/T", &data)], Some(PartitionID(8))).unwrap();
    assert_eq!(r.lower(), vec!["/a", "/b", "/x"]);
}
