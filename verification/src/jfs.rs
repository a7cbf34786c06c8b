//! The journalling device Phase 1 opened, as an event source of the loop.
use vstd::prelude::*;
use crate::event_loop::model::{RuntimeEventRegistrar, RuntimeEventRegistrationError};
use crate::event_loop::source::RuntimeEventSource;

verus! {

/// The device, registered for the loop to wait on.
#[derive(Debug, Clone, PartialEq, Eq)]
pub struct RuntimeJfsDevice {
    fd: i32,
    path: String,
}

impl RuntimeJfsDevice {
    pub closed spec fn spec_fd(&self) -> i32 {
        self.fd
    }

    pub closed spec fn spec_path(&self) -> Seq<char> {
        self.path@
    }

    pub fn fd(&self) -> (fd: i32)
        ensures
            fd == self.spec_fd(),
    {
        self.fd
    }

    pub fn path(&self) -> (p: &String)
        ensures
            p@ == self.spec_path(),
    {
        &self.path
    }
}

/// What registering the device came to: the registered device when the
/// registrar took it, and the registrar's own error when it did not.
pub fn jfs_device_from_registration(fd: i32, path: String, registered: Result<(), RuntimeEventRegistrationError>) -> (r: Result<
    RuntimeJfsDevice,
    RuntimeEventRegistrationError,
>)
    ensures
        match registered {
            Ok(()) => r matches Ok(device) && device.spec_fd() == fd && device.spec_path() == path@,
            Err(e) => r == Err::<RuntimeJfsDevice, RuntimeEventRegistrationError>(e),
        },
{
    match registered {
        Ok(()) => Ok(RuntimeJfsDevice { fd, path }),
        Err(error) => Err(error),
    }
}

/// Register the device's descriptor as the loop's journalling source. On
/// failure the error is the registrar's, and the caller drops the device.
pub fn register_phase1_jfs_device<R: RuntimeEventRegistrar>(fd: i32, path: String, registrar: &mut R) -> (r: Result<
    RuntimeJfsDevice,
    RuntimeEventRegistrationError,
>)
    ensures
        match r {
            Ok(device) => device.spec_fd() == fd && device.spec_path() == path@
                && R::registers(*old(registrar), *final(registrar), fd, RuntimeEventSource::JfsDevice { fd }, Ok(())),
            Err(e) => R::registers(*old(registrar), *final(registrar), fd, RuntimeEventSource::JfsDevice { fd }, Err(e)),
        },
{
    let registered = registrar.register_source(fd, RuntimeEventSource::JfsDevice { fd });
    proof {
        if registered is Ok {
            assert(registered->Ok_0 == ());
        }
    }
    jfs_device_from_registration(fd, path, registered)
}

} // verus!
