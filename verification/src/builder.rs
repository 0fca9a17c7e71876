//! Configuration of a session, and what is checked before it is mounted.
use crate::error::Errno;
use crate::mount::{
    allows_other, contains_allow_other, copy_options, with_allow_other, MountOption,
};
use crate::session::Session;
use crate::RequestTx;
use tokio_util::sync::CancellationToken;
use vstd::prelude::*;

verus! {

/// What the caller found at the device path.
#[derive(Debug, Clone, Copy, PartialEq, Eq, Structural)]
pub enum DeviceProbe {
    /// Nothing: the path does not exist
    Missing,
    /// Something, but what it is could not be read: the I/O error had this
    /// `raw_os_error`
    Unreadable(Option<i32>),
    /// A character device
    CharDevice,
    /// Something that is no character device
    Other,
}

/// The configuration of a session.
pub struct Builder {
    /// Path to the device file (e.g. /dev/fuse)
    pub device_path: String,
    /// Path to the mount point
    pub mount_path: Option<String>,
    /// Mount options
    pub mount_options: Vec<MountOption>,
    /// Channel on which the session forwards requests to the filesystem
    pub outbound_fs_request_tx: Option<RequestTx>,
    /// Token that stops the session
    pub cancellation_token: CancellationToken,
}

impl Builder {
    /// The options that a builder starts with.
    pub open spec fn default_mount_options() -> Seq<MountOption> {
        seq![
            MountOption::AllowOther,
            MountOption::DefaultPermissions,
            MountOption::NoDev,
            MountOption::NoAtime,
        ]
    }

    /// A builder for the device `/dev/fuse`, with the default options, with
    /// a cancellation token of its own, and with neither mount path nor
    /// channel.
    pub fn new() -> (builder: Self)
        ensures
            builder.device_path@ == "/dev/fuse"@,
            builder.mount_path is None,
            builder.mount_options@ == Self::default_mount_options(),
            builder.outbound_fs_request_tx is None,
    {
        let default_mount_options = vec![
            MountOption::AllowOther,
            MountOption::DefaultPermissions,
            MountOption::NoDev,
            MountOption::NoAtime,
        ];

        Self {
            device_path: "/dev/fuse".to_owned(),
            mount_path: None,
            mount_options: default_mount_options,
            outbound_fs_request_tx: None,
            cancellation_token: CancellationToken::new(),
        }
    }

    /// Supply your own cancellation token to control the long-running
    /// session.
    ///
    /// Can be used to synchronize cancellation with other processes in a
    /// broader system.
    pub fn set_cancellation_token(&mut self, token: &CancellationToken) -> (builder: &mut Self)
        ensures
            builder.cancellation_token == *token,
            builder.device_path == old(self).device_path,
            builder.mount_path == old(self).mount_path,
            builder.mount_options == old(self).mount_options,
            builder.outbound_fs_request_tx == old(self).outbound_fs_request_tx,
            *final(self) == *final(builder),
    {
        self.cancellation_token = token.clone();
        self
    }

    /// Supply the channel on which the session will forward requests to the
    /// filesystem.
    ///
    /// REQUIRED
    ///
    /// The setters hand the builder back, changed, so that calls can follow
    /// each other.
    pub fn set_outbound_fs_request_tx(&mut self, tx: &RequestTx) -> (builder: &mut Self)
        ensures
            builder.outbound_fs_request_tx is Some,
            builder.device_path == old(self).device_path,
            builder.mount_path == old(self).mount_path,
            builder.mount_options == old(self).mount_options,
            builder.cancellation_token == old(self).cancellation_token,
            *final(self) == *final(builder),
    {
        self.outbound_fs_request_tx = Some(tx.clone());
        self
    }

    /// The device path defaults to `/dev/fuse`. Overwrite that here.
    pub fn set_device_path(&mut self, path: String) -> (builder: &mut Self)
        ensures
            builder.device_path == path,
            builder.mount_path == old(self).mount_path,
            builder.mount_options == old(self).mount_options,
            builder.outbound_fs_request_tx == old(self).outbound_fs_request_tx,
            builder.cancellation_token == old(self).cancellation_token,
            *final(self) == *final(builder),
    {
        self.device_path = path;
        self
    }

    /// Set the path where the filesystem will be (attempted to be) mounted
    pub fn set_mount_path(&mut self, path: String) -> (builder: &mut Self)
        ensures
            builder.mount_path == Some(path),
            builder.device_path == old(self).device_path,
            builder.mount_options == old(self).mount_options,
            builder.outbound_fs_request_tx == old(self).outbound_fs_request_tx,
            builder.cancellation_token == old(self).cancellation_token,
            *final(self) == *final(builder),
    {
        self.mount_path = Some(path);
        self
    }

    /// Replace the mount options.
    pub fn set_mount_options(&mut self, options: &[MountOption]) -> (builder: &mut Self)
        ensures
            builder.mount_options@ == options@,
            builder.device_path == old(self).device_path,
            builder.mount_path == old(self).mount_path,
            builder.outbound_fs_request_tx == old(self).outbound_fs_request_tx,
            builder.cancellation_token == old(self).cancellation_token,
            *final(self) == *final(builder),
    {
        self.mount_options = copy_options(options);
        self
    }

    /// What stands in the way of a mount, if anything: in this order, a
    /// missing channel (`EINVAL`), a device path that does not exist
    /// (`ENOENT`), a missing mount path (`EINVAL`), a device path that
    /// cannot be looked at (the error that said so, or `EIO`), a device path
    /// that names no character device (`ENODEV`).
    pub open spec fn obstacle(&self, probe: DeviceProbe) -> Option<Errno> {
        if self.outbound_fs_request_tx is None {
            Some(Errno::EINVAL)
        } else if probe is Missing {
            Some(Errno::ENOENT)
        } else if self.mount_path is None {
            Some(Errno::EINVAL)
        } else {
            match probe {
                DeviceProbe::Unreadable(raw) => Some(Errno::from_raw_os_error(raw)),
                DeviceProbe::Other => Some(Errno::ENODEV),
                _ => None,
            }
        }
    }

    /// Checks the configuration against what was found on disk, and makes
    /// the mount options ready: `AllowOther` is added where it is not among
    /// them. Where the check fails, the builder stays as it is.
    pub fn prepare(&mut self, probe: DeviceProbe) -> (r: Result<(), Errno>)
        ensures
            r == match old(self).obstacle(probe) {
                Some(e) => Err::<(), Errno>(e),
                None => Ok(()),
            },
            r is Err ==> *final(self) == *old(self),
            r is Ok ==> {
                &&& final(self).mount_options@ == with_allow_other(old(self).mount_options@)
                &&& allows_other(final(self).mount_options@)
                &&& final(self).device_path == old(self).device_path
                &&& final(self).mount_path == old(self).mount_path
                &&& final(self).mount_path is Some
                &&& final(self).outbound_fs_request_tx == old(self).outbound_fs_request_tx
                &&& final(self).outbound_fs_request_tx is Some
                &&& final(self).cancellation_token == old(self).cancellation_token
            },
    {
        if self.outbound_fs_request_tx.is_none() {
            return Err(Errno::EINVAL);
        }
        if let DeviceProbe::Missing = probe {
            return Err(Errno::ENOENT);
        }
        if self.mount_path.is_none() {
            return Err(Errno::EINVAL);
        }
        match probe {
            DeviceProbe::Unreadable(raw) => {
                return Err(Errno::from_raw_os_error(raw));
            },
            DeviceProbe::Other => {
                return Err(Errno::ENODEV);
            },
            _ => {},
        }
        if !contains_allow_other(self.mount_options.as_slice()) {
            self.mount_options.push(MountOption::AllowOther);
            proof {
                let last = self.mount_options@.len() - 1;
                assert(self.mount_options@[last] is AllowOther);
            }
        }
        Ok(())
    }

    /// The handle of the session that this builder describes: it holds a
    /// clone of the builder's token and a sender of its channel. There is
    /// none where no channel was supplied.
    pub fn session(&self) -> (session: Option<Session>)
        ensures
            session is Some <==> self.outbound_fs_request_tx is Some,
            session matches Some(handle) ==> {
                &&& !handle.cancel_requested()
                &&& handle.token() == self.cancellation_token
            },
    {
        match &self.outbound_fs_request_tx {
            Some(tx) => Some(Session::new(self.cancellation_token.clone(), tx.clone())),
            None => None,
        }
    }
}

} // verus!
