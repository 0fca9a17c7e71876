//! What a mount is asked to do.
use vstd::prelude::*;

verus! {

/// An option of a mount.
#[derive(Debug, PartialEq, Eq)]
pub enum MountOption {
    /// Users other than the owner may access the mount
    AllowOther,
    /// Root may access the mount
    AllowRoot,
    /// The kernel enforces the POSIX permission checks
    DefaultPermissions,
    /// No device files on the mount
    NoDev,
    /// No set-user-id and set-group-id bits on the mount
    NoSuid,
    /// No programs are run from the mount
    NoExec,
    /// Access times are not updated
    NoAtime,
    /// The mount goes away when the process exits
    AutoUnmount,
    /// Name of the filesystem in `/proc/mounts`
    FSName(String),
    /// Subtype of the filesystem in `/proc/mounts`
    Subtype(String),
}

impl MountOption {
    /// Whether this is [`MountOption::AllowOther`].
    pub fn is_allow_other(&self) -> (yes: bool)
        ensures
            yes == (self is AllowOther),
    {
        match self {
            MountOption::AllowOther => true,
            _ => false,
        }
    }
}

impl Clone for MountOption {
    /// A copy of the option.
    fn clone(&self) -> (copy: Self)
        ensures
            copy == *self,
    {
        match self {
            MountOption::AllowOther => MountOption::AllowOther,
            MountOption::AllowRoot => MountOption::AllowRoot,
            MountOption::DefaultPermissions => MountOption::DefaultPermissions,
            MountOption::NoDev => MountOption::NoDev,
            MountOption::NoSuid => MountOption::NoSuid,
            MountOption::NoExec => MountOption::NoExec,
            MountOption::NoAtime => MountOption::NoAtime,
            MountOption::AutoUnmount => MountOption::AutoUnmount,
            MountOption::FSName(name) => MountOption::FSName(name.clone()),
            MountOption::Subtype(name) => MountOption::Subtype(name.clone()),
        }
    }
}

/// Whether `options` holds [`MountOption::AllowOther`].
pub open spec fn allows_other(options: Seq<MountOption>) -> bool {
    exists|i: int| 0 <= i < options.len() && options[i] is AllowOther
}

/// The options that a mount is made with: `options`, and
/// [`MountOption::AllowOther`] behind them where they do not hold it.
pub open spec fn with_allow_other(options: Seq<MountOption>) -> Seq<MountOption> {
    if allows_other(options) {
        options
    } else {
        options.push(MountOption::AllowOther)
    }
}

/// Whether `options` holds [`MountOption::AllowOther`].
pub fn contains_allow_other(options: &[MountOption]) -> (yes: bool)
    ensures
        yes == allows_other(options@),
{
    let mut i: usize = 0;
    while i < options.len()
        invariant
            i <= options@.len(),
            forall|k: int| 0 <= k < i ==> !(options@[k] is AllowOther),
        decreases options@.len() - i,
    {
        if options[i].is_allow_other() {
            return true;
        }
        i += 1;
    }
    false
}

/// A copy of `options`.
pub fn copy_options(options: &[MountOption]) -> (copy: Vec<MountOption>)
    ensures
        copy@ == options@,
{
    let mut copy: Vec<MountOption> = Vec::new();
    let mut i: usize = 0;
    while i < options.len()
        invariant
            i <= options@.len(),
            copy@ == options@.take(i as int),
        decreases options@.len() - i,
    {
        copy.push(options[i].clone());
        proof {
            assert(options@.take(i + 1) =~= options@.take(i as int).push(options@[i as int]));
        }
        i += 1;
    }
    proof {
        assert(options@.take(i as int) =~= options@);
    }
    copy
}

} // verus!
