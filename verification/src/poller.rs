//! The edge-readiness source and the blocking poller built on it.
//!
//! An [`EdgeSource`] owns one open descriptor to a pin's `value` attribute
//! and one readiness-multiplexer handle, created and registered atomically
//! at construction: when registration fails, the handle is released before
//! the error propagates, so no OS resource dangles.  A [`PinPoller`] wraps
//! the source into a synchronous wait-for-change call with timeout.

use std::io::Write;

use vstd::prelude::*;

use crate::channel::{flush_input_from_file, get_value_from_file};
use crate::error::Error;
use crate::path::{attr_file_path, AttrName};
use crate::pin::Pin;
use crate::sys::{epoll_add_priority, epoll_create_fd, epoll_wait_one, fd_close, fd_open_read};

verus! {

/// One pin's edge-readiness source: the open `value` attribute descriptor
/// and the multiplexer handle it is registered with, for priority data in
/// edge-triggered mode.  Dropping the source releases both.
#[derive(Debug)]
pub struct EdgeSource {
    dev_fd: i32,
    epoll_fd: i32,
}

impl EdgeSource {
    /// The descriptor of the open `value` attribute file.
    pub closed spec fn dev(&self) -> int {
        self.dev_fd as int
    }

    /// The multiplexer handle the descriptor is registered with.
    pub closed spec fn multiplexer(&self) -> int {
        self.epoll_fd as int
    }

    /// A source holds two live descriptors.
    pub open spec fn wf(&self) -> bool {
        self.dev() >= 0 && self.multiplexer() >= 0
    }

    /// Opens the file at `path` for reading, creates a multiplexer
    /// context, and registers the descriptor with it for priority data in
    /// edge-triggered mode.
    ///
    /// Acquisition is all-or-nothing: when creating the context fails the
    /// descriptor is closed again, and when registering fails both the
    /// context and the descriptor are released before the error
    /// propagates.
    pub fn open(path: &[u8]) -> (r: Result<EdgeSource, Error>)
        ensures
            r matches Ok(s) ==> s.wf(),
            r matches Err(e) ==> e is Io,
    {
        let dev_fd = match fd_open_read(path) {
            Ok(fd) => fd,
            Err(e) => {
                return Err(e);
            }
        };
        let epoll_fd = match epoll_create_fd() {
            Ok(fd) => fd,
            Err(e) => {
                let _ = fd_close(dev_fd);
                return Err(e);
            }
        };
        match epoll_add_priority(epoll_fd, dev_fd) {
            Ok(()) => Ok(EdgeSource { dev_fd, epoll_fd }),
            Err(e) => {
                let _ = fd_close(epoll_fd);
                let _ = fd_close(dev_fd);
                Err(e)
            }
        }
    }

    /// The raw descriptor identity of the `value` attribute file, for
    /// registration with an outside event loop.
    pub fn raw_fd(&self) -> (fd: i32)
        ensures
            fd == self.dev(),
    {
        self.dev_fd
    }

    /// Drains stale buffered content of the value attribute, so that a
    /// following wait does not wake at once on old data.
    pub fn drain(&self) -> (r: Result<usize, Error>)
        ensures
            r matches Ok(n) ==> n <= 255,
            r matches Err(e) ==> e is Io,
    {
        match flush_input_from_file(self.dev_fd, 255) {
            Ok(n) => Ok(n),
            Err(e) => Err(e),
        }
    }

    /// Blocks on the multiplexer for up to `timeout_ms` milliseconds
    /// (negative waits without bound) and returns how many events fired:
    /// zero means the timeout passed, one means the pin's value attribute
    /// signalled priority readiness.
    pub fn wait(&self, timeout_ms: isize) -> (r: Result<usize, Error>)
        ensures
            r matches Ok(n) ==> n <= 1,
            r matches Err(e) ==> e is Io,
    {
        epoll_wait_one(self.epoll_fd, timeout_ms)
    }

    /// Re-reads the pin value through the owned descriptor.
    pub fn read_value(&self) -> (r: Result<u8, Error>)
        ensures
            r matches Ok(v) ==> v == 0 || v == 1,
            r matches Err(e) ==> e is Io || e is Unexpected,
    {
        get_value_from_file(self.dev_fd)
    }
}

impl Drop for EdgeSource {
    /// Relies on `nix::unistd::close`, twice: releases the owned
    /// descriptors, unconditionally.  An error closing the read-only
    /// value descriptor loses nothing and is ignored; the multiplexer
    /// handle has no automatic lifetime in the OS interface and cannot be
    /// recovered from user code, so a failure to release it is fatal: the
    /// process is aborted, without unwinding, rather than left with a
    /// leaked handle.
    #[verifier::external_body]
    fn drop(&mut self)
        opens_invariants none
        no_unwind
    {
        let _ = nix::unistd::close(self.dev_fd);
        if nix::unistd::close(self.epoll_fd).is_err() {
            let _ = writeln!(std::io::stderr(), "could not release a multiplexer handle");
            std::alloc::handle_alloc_error(std::alloc::Layout::new::<u8>());
        }
    }
}

/// How often one construction attempt acquires a multiplexer context:
/// once the attribute file is open and the context created, never before.
/// In particular, when opening the attribute file fails, no context is
/// created at all.
pub open spec fn contexts_acquired(open_ok: bool, create_ok: bool) -> int {
    if open_ok && create_ok {
        1
    } else {
        0
    }
}

/// How often the multiplexer context is released over a whole lifetime of
/// an [`EdgeSource`], mirroring the paths of [`EdgeSource::open`] and of
/// the drop: a context whose registration failed is released by the
/// construction itself, before the error propagates; one that was handed
/// out is released when the owning source is dropped, and not before.
pub open spec fn contexts_released(
    open_ok: bool,
    create_ok: bool,
    register_ok: bool,
    dropped: bool,
) -> int {
    if !(open_ok && create_ok) {
        0
    } else if !register_ok {
        1
    } else if dropped {
        1
    } else {
        0
    }
}

/// Over any lifetime that ends (construction failed, or the source was
/// dropped, at any point), the multiplexer context is released exactly as
/// often as it was acquired — at most once, never twice, never leaked.
pub proof fn lemma_context_release_balanced(open_ok: bool, create_ok: bool, register_ok: bool)
    ensures
        contexts_released(open_ok, create_ok, register_ok, true) == contexts_acquired(
            open_ok,
            create_ok,
        ),
        contexts_acquired(open_ok, create_ok) <= 1,
        contexts_released(open_ok, create_ok, register_ok, false) <= contexts_acquired(
            open_ok,
            create_ok,
        ),
{
}

/// The blocking poller of one pin: waits on the calling thread, up to a
/// timeout, for an edge of the pin's value.
#[derive(Debug)]
pub struct PinPoller {
    pin_num: u64,
    source: EdgeSource,
}

impl PinPoller {
    /// The number of the polled pin.
    pub closed spec fn pin(&self) -> u64 {
        self.pin_num
    }

    /// The owned edge-readiness source.
    pub closed spec fn source(&self) -> EdgeSource {
        self.source
    }

    /// A poller is as well-formed as its source.
    pub open spec fn wf(&self) -> bool {
        self.source().wf()
    }

    /// The pin associated with this poller, as a fresh `Pin` with the
    /// proper number.
    pub fn get_pin(&self) -> (p: Pin)
        ensures
            p.number() == self.pin(),
    {
        Pin::new(self.pin_num)
    }

    /// Creates a poller for the pin: opens its `value` attribute file and
    /// registers it with a fresh multiplexer context for priority,
    /// edge-triggered readiness.  On failure no resource stays behind;
    /// in particular, when the attribute file cannot be opened, no
    /// multiplexer context is created at all.
    pub fn new(pin_num: u64) -> (r: Result<PinPoller, Error>)
        ensures
            r matches Ok(p) ==> p.wf() && p.pin() == pin_num,
            r matches Err(e) ==> e is Io,
    {
        let path = attr_file_path(pin_num, AttrName::Value);
        match EdgeSource::open(path.as_slice()) {
            Ok(source) => Ok(PinPoller { pin_num, source }),
            Err(e) => Err(e),
        }
    }

    /// Wraps an already opened edge-readiness source, taken to watch the
    /// named pin.
    pub fn from_source(pin_num: u64, source: EdgeSource) -> (p: PinPoller)
        ensures
            p.pin() == pin_num,
            p.source() == source,
    {
        PinPoller { pin_num, source }
    }

    /// Resolves the outcome of one multiplexer wait: zero ready events
    /// mean "no change", and nothing more is read; at least one ready
    /// event means the value is re-read once and its parse returned.
    pub fn interpret_wait(&self, ready_events: usize) -> (r: Result<Option<u8>, Error>)
        ensures
            ready_events == 0 ==> r == Ok::<Option<u8>, Error>(None),
            ready_events != 0 ==> !(r matches Ok(x) && x is None),
            r matches Ok(Some(v)) ==> v == 0 || v == 1,
            r matches Err(e) ==> e is Io || e is Unexpected,
    {
        if ready_events == 0 {
            Ok(None)
        } else {
            match self.source.read_value() {
                Ok(v) => Ok(Some(v)),
                Err(e) => Err(e),
            }
        }
    }

    /// Blocks until an edge of the pin's value or the timeout, whichever
    /// comes first.
    ///
    /// Stale buffered content is drained before the wait, or old data
    /// would wake the wait at once.  `Ok(None)` means no change came
    /// within `timeout_ms` milliseconds (not an error); `Ok(Some(v))`
    /// means a change was notified and `v` is the value re-read after it,
    /// which may equal an earlier reading when the value toggled back in
    /// between.  Which edges notify is configured through
    /// [`Pin::set_edge`].
    pub fn poll(&mut self, timeout_ms: isize) -> (r: Result<Option<u8>, Error>)
        ensures
            *final(self) == *old(self),
            r matches Ok(Some(v)) ==> v == 0 || v == 1,
            r matches Err(e) ==> e is Io || e is Unexpected,
    {
        if let Err(e) = self.source.drain() {
            return Err(e);
        }
        let cnt = match self.source.wait(timeout_ms) {
            Ok(n) => n,
            Err(e) => {
                return Err(e);
            }
        };
        self.interpret_wait(cnt)
    }
}

} // verus!
