//! The multiplex-registrable adapter: an [`AsyncPinPoller`] owns one open
//! descriptor to a pin's `value` attribute and passes it through to an
//! outside readiness multiplexer (a `mio` registry), with no buffering and
//! no interpretation of its own.  Register it for priority readiness, with
//! the edge setting of the pin configured beforehand.

use mio::event::Source;
use vstd::prelude::*;

use crate::channel::get_value_from_file;
use crate::error::Error;
use crate::path::{attr_file_path, AttrName};
use crate::sys::fd_open_read;

verus! {

/// `mio`'s registry type, through which event sources are registered with
/// a poll instance; opaque here.
#[verifier::external_type_specification]
#[verifier::external_body]
pub struct ExRegistry(mio::Registry);

/// `mio`'s interest set, the readiness kinds a registration asks for;
/// opaque here.
#[verifier::external_type_specification]
#[verifier::external_body]
pub struct ExInterest(mio::Interest);

/// `mio`'s registration token, the caller-opaque tag a poll instance
/// hands back with each event; opaque here.
#[verifier::external_type_specification]
#[verifier::external_body]
pub struct ExToken(mio::Token);

/// One pin's value-attribute descriptor, held open for registration with
/// an outside readiness multiplexer.  Dropping it closes the descriptor.
#[derive(Debug)]
pub struct AsyncPinPoller {
    dev_fd: i32,
}

impl AsyncPinPoller {
    /// The descriptor of the open `value` attribute file.
    pub closed spec fn dev(&self) -> int {
        self.dev_fd as int
    }

    /// The adapter holds one live descriptor.
    pub open spec fn wf(&self) -> bool {
        self.dev() >= 0
    }

    /// Opens the file at `path` for reading and wraps the descriptor.
    pub fn open(path: &[u8]) -> (r: Result<AsyncPinPoller, Error>)
        ensures
            r matches Ok(p) ==> p.wf(),
            r matches Err(e) ==> e is Io,
    {
        match fd_open_read(path) {
            Ok(fd) => Ok(AsyncPinPoller { dev_fd: fd }),
            Err(e) => Err(e),
        }
    }

    /// Opens the `value` attribute file of the pin and wraps the
    /// descriptor.
    pub fn new(pin_num: u64) -> (r: Result<AsyncPinPoller, Error>)
        ensures
            r matches Ok(p) ==> p.wf(),
            r matches Err(e) ==> e is Io,
    {
        let path = attr_file_path(pin_num, AttrName::Value);
        AsyncPinPoller::open(path.as_slice())
    }

    /// The raw descriptor identity, for registration with an outside
    /// event loop.
    pub fn raw_fd(&self) -> (fd: i32)
        ensures
            fd == self.dev(),
    {
        self.dev_fd
    }

    /// Re-reads the pin value through the owned descriptor.
    pub fn read_value(&self) -> (r: Result<u8, Error>)
        ensures
            r matches Ok(v) ==> v == 0 || v == 1,
            r matches Err(e) ==> e is Io || e is Unexpected,
    {
        get_value_from_file(self.dev_fd)
    }

    /// Relies on `mio::unix::SourceFd::register`: registers the owned
    /// descriptor with the registry under the given token and interests,
    /// changing nothing else.
    #[verifier::external_body]
    pub fn register(&self, registry: &mio::Registry, token: mio::Token, interests: mio::Interest)
        -> (r: Result<(), Error>)
        ensures
            r matches Err(e) ==> e is Io,
    {
        match mio::unix::SourceFd(&self.dev_fd).register(registry, token, interests) {
            Ok(()) => Ok(()),
            Err(e) => Err(Error::Io(e.raw_os_error().unwrap_or(0))),
        }
    }

    /// Relies on `mio::unix::SourceFd::reregister`: renews the
    /// registration of the owned descriptor under the given token and
    /// interests, changing nothing else.
    #[verifier::external_body]
    pub fn reregister(&self, registry: &mio::Registry, token: mio::Token, interests: mio::Interest)
        -> (r: Result<(), Error>)
        ensures
            r matches Err(e) ==> e is Io,
    {
        match mio::unix::SourceFd(&self.dev_fd).reregister(registry, token, interests) {
            Ok(()) => Ok(()),
            Err(e) => Err(Error::Io(e.raw_os_error().unwrap_or(0))),
        }
    }

    /// Relies on `mio::unix::SourceFd::deregister`: withdraws the owned
    /// descriptor from the registry, changing nothing else.
    #[verifier::external_body]
    pub fn deregister(&self, registry: &mio::Registry) -> (r: Result<(), Error>)
        ensures
            r matches Err(e) ==> e is Io,
    {
        match mio::unix::SourceFd(&self.dev_fd).deregister(registry) {
            Ok(()) => Ok(()),
            Err(e) => Err(Error::Io(e.raw_os_error().unwrap_or(0))),
        }
    }
}

impl Drop for AsyncPinPoller {
    /// Relies on `nix::unistd::close`: releases the owned descriptor; an
    /// error there loses nothing for a read-only descriptor and is
    /// ignored.
    #[verifier::external_body]
    fn drop(&mut self)
        opens_invariants none
        no_unwind
    {
        let _ = nix::unistd::close(self.dev_fd);
    }
}

} // verus!
