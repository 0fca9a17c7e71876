use fuse_session::builder::{Builder, DeviceProbe};
use fuse_session::create_request_channel;
use tokio_util::sync::CancellationToken;
use fuse_session::error::Errno;
use fuse_session::mount::{contains_allow_other, copy_options, MountOption};

const PRESENT: DeviceProbe = DeviceProbe::CharDevice;

#[test]
fn builder_defaults() {
    let builder = Builder::new();
    assert_eq!(builder.device_path, "/dev/fuse");
    assert!(builder.mount_path.is_none());
    assert!(builder.outbound_fs_request_tx.is_none());
    assert_eq!(
        builder.mount_options,
        vec![
            MountOption::AllowOther,
            MountOption::DefaultPermissions,
            MountOption::NoDev,
            MountOption::NoAtime,
        ]
    );
}

#[test]
fn builder_setters_chain() {
    let (tx, _rx) = create_request_channel();
    let mut builder = Builder::new();
    builder
        .set_device_path(String::from("/dev/cuse"))
        .set_mount_path(String::from("/mnt/x"))
        .set_mount_options(&[MountOption::NoExec, MountOption::FSName(String::from("fs"))])
        .set_outbound_fs_request_tx(&tx);
    assert_eq!(builder.device_path, "/dev/cuse");
    assert_eq!(builder.mount_path.as_deref(), Some("/mnt/x"));
    assert_eq!(
        builder.mount_options,
        vec![MountOption::NoExec, MountOption::FSName(String::from("fs"))]
    );
    assert!(builder.outbound_fs_request_tx.is_some());
}

#[test]
fn builder_takes_a_cancellation_token() {
    let (tx, _rx) = create_request_channel();
    let mut builder = Builder::new();
    assert!(!builder.cancellation_token.is_cancelled());
    // without a channel there is no session
    assert!(builder.session().is_none());

    let token = CancellationToken::new();
    assert!(builder.cancellation_token != token);
    builder.set_cancellation_token(&token).set_outbound_fs_request_tx(&tx);
    // the builder holds the token of the caller, and its session does
    assert!(builder.cancellation_token == token);
    assert!(*builder.session().expect("session").get_cancellation_token() == token);
    // another token is another flag
    assert!(builder.cancellation_token != CancellationToken::new());
    assert!(builder.cancellation_token != token.child_token());
    assert_eq!(builder.device_path, "/dev/fuse");
    assert_eq!(builder.mount_options.len(), 4);

    let mut session = builder.session().expect("session");
    assert!(session.get_outbound_fs_request_tx().same_channel(&tx));
    assert!(!session.is_cancelled());
    // the token of the caller stops the session
    token.cancel();
    assert!(session.is_cancelled());
    assert!(builder.cancellation_token.is_cancelled());
    session.cancel();
    assert!(session.is_cancelled());
}

#[test]
fn session_is_cancelled_by_handle_or_token() {
    let (tx, _rx) = create_request_channel();
    let mut builder = Builder::new();
    builder.set_outbound_fs_request_tx(&tx);
    let mut session = builder.session().expect("session");
    // nothing was requested through the handle: the token decides
    assert!(!session.is_cancelled_given(false));
    assert!(session.is_cancelled_given(true));
    assert!(!session.is_cancelled());
    session.cancel();
    // requested through the handle: whatever the token says
    assert!(session.is_cancelled_given(false));
    assert!(session.is_cancelled_given(true));
    assert!(session.is_cancelled());

    // requested by another holder of the token
    let mut builder = Builder::new();
    builder.set_outbound_fs_request_tx(&tx);
    let watched = builder.session().expect("session");
    assert!(!watched.is_cancelled());
    builder.cancellation_token.cancel();
    assert!(watched.is_cancelled());
    assert!(!watched.is_cancelled_given(false));
}

#[test]
fn session_cancel_is_idempotent() {
    let (tx, _rx) = create_request_channel();
    let mut builder = Builder::new();
    builder.set_outbound_fs_request_tx(&tx);
    let mut session = builder.session().expect("session");
    let other = builder.session().expect("session");
    let token = session.get_cancellation_token().clone();
    assert!(!session.is_cancelled());
    assert!(!other.is_cancelled());
    assert!(!token.is_cancelled());
    session.cancel();
    assert!(session.is_cancelled());
    // every holder of the token sees it
    assert!(other.is_cancelled());
    assert!(token.is_cancelled());
    assert!(builder.cancellation_token.is_cancelled());
    session.cancel();
    session.cancel();
    assert!(session.is_cancelled());
    assert!(other.is_cancelled());
}

#[test]
fn builder_refuses_in_order() {
    let (tx, _rx) = create_request_channel();
    let absent = DeviceProbe::Missing;
    let no_device = DeviceProbe::Other;
    let locked = DeviceProbe::Unreadable(Some(libc::EACCES));

    // the channel is asked for first
    let mut builder = Builder::new();
    assert_eq!(builder.prepare(absent), Err(Errno::EINVAL));
    assert_eq!(builder.prepare(locked), Err(Errno::EINVAL));
    assert_eq!(builder.prepare(PRESENT), Err(Errno::EINVAL));

    // then the device path
    builder.set_outbound_fs_request_tx(&tx);
    assert_eq!(builder.prepare(absent), Err(Errno::ENOENT));
    // then the mount path
    assert_eq!(builder.prepare(no_device), Err(Errno::EINVAL));
    assert_eq!(builder.prepare(locked), Err(Errno::EINVAL));
    assert_eq!(builder.prepare(PRESENT), Err(Errno::EINVAL));
    // then the kind of the device
    builder.set_mount_path(String::from("/mnt/x"));
    assert_eq!(builder.prepare(absent), Err(Errno::ENOENT));
    assert_eq!(builder.prepare(locked), Err(Errno::EACCES));
    assert_eq!(builder.prepare(DeviceProbe::Unreadable(None)), Err(Errno::EIO));
    assert_eq!(builder.prepare(DeviceProbe::Unreadable(Some(-7))), Err(Errno::EIO));
    assert_eq!(builder.prepare(no_device), Err(Errno::ENODEV));
    assert_eq!(builder.mount_options.len(), 4);
    assert_eq!(builder.prepare(PRESENT), Ok(()));
}

#[test]
fn builder_adds_allow_other_once() {
    let (tx, _rx) = create_request_channel();
    let mut builder = Builder::new();
    builder.set_outbound_fs_request_tx(&tx).set_mount_path(String::from("/mnt/x"));
    assert_eq!(builder.prepare(PRESENT), Ok(()));
    // the defaults hold it already
    assert_eq!(builder.mount_options.len(), 4);

    builder.set_mount_options(&[MountOption::AutoUnmount, MountOption::NoSuid]);
    assert_eq!(builder.prepare(PRESENT), Ok(()));
    assert_eq!(
        builder.mount_options,
        vec![MountOption::AutoUnmount, MountOption::NoSuid, MountOption::AllowOther]
    );
    assert_eq!(builder.prepare(PRESENT), Ok(()));
    assert_eq!(builder.mount_options.len(), 3);

    builder.set_mount_options(&[]);
    assert_eq!(builder.prepare(PRESENT), Ok(()));
    assert_eq!(builder.mount_options, vec![MountOption::AllowOther]);
}

#[test]
fn mount_option_helpers() {
    assert!(MountOption::AllowOther.is_allow_other());
    assert!(!MountOption::AllowRoot.is_allow_other());
    assert!(!MountOption::FSName(String::from("AllowOther")).is_allow_other());
    let all = [
        MountOption::AllowOther,
        MountOption::AllowRoot,
        MountOption::DefaultPermissions,
        MountOption::NoDev,
        MountOption::NoSuid,
        MountOption::NoExec,
        MountOption::NoAtime,
        MountOption::AutoUnmount,
        MountOption::FSName(String::from("name")),
        MountOption::Subtype(String::from("sub")),
    ];
    for option in &all {
        assert_eq!(option.clone(), *option);
    }
    assert_eq!(copy_options(&all), all.to_vec());
    assert!(copy_options(&[]).is_empty());
    assert!(contains_allow_other(&all));
    assert!(!contains_allow_other(&all[1..]));
    assert!(!contains_allow_other(&[]));
}
