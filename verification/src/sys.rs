//! The trusted boundary of the library: every item here either names what
//! an outside call returns or wraps one call of an outside crate (or of
//! std where vstd gives it no contract).  Verus believes the contracts
//! stated here; each doc comment names the call relied on.

use vstd::prelude::*;

use crate::error::Error;

verus! {

/// The characters that `String::from_utf8_lossy` decodes from the given
/// bytes.  The result is a function of the bytes alone.
pub uninterp spec fn lossy_utf8(b: Seq<u8>) -> Seq<char>;

/// Relies on `String::from_utf8_lossy`: decodes bytes as UTF-8, replacing
/// invalid sequences; the result depends on the bytes alone.
#[verifier::external_body]
pub(crate) fn bytes_to_string(b: &[u8]) -> (r: String)
    ensures
        r@ == lossy_utf8(b@),
{
    String::from_utf8_lossy(b).into_owned()
}

/// Relies on `nix::fcntl::open` with `O_RDONLY`: on success the returned
/// descriptor is nonnegative; on failure the raw OS error number comes
/// back as [`Error::Io`].
#[verifier::external_body]
pub(crate) fn fd_open_read(path: &[u8]) -> (r: Result<i32, Error>)
    ensures
        r matches Ok(fd) ==> fd >= 0,
        r matches Err(e) ==> e is Io,
{
    match nix::fcntl::open(path, nix::fcntl::OFlag::O_RDONLY, nix::sys::stat::Mode::empty()) {
        Ok(fd) => Ok(fd),
        Err(e) => Err(Error::Io(e as i32)),
    }
}

/// Relies on `nix::fcntl::open` with `O_WRONLY | O_CREAT | O_TRUNC`, the
/// disposition a plain file creation uses: on success the returned
/// descriptor is nonnegative; on failure the raw OS error number comes
/// back as [`Error::Io`].
#[verifier::external_body]
pub(crate) fn fd_open_write(path: &[u8]) -> (r: Result<i32, Error>)
    ensures
        r matches Ok(fd) ==> fd >= 0,
        r matches Err(e) ==> e is Io,
{
    let flags = nix::fcntl::OFlag::O_WRONLY | nix::fcntl::OFlag::O_CREAT
        | nix::fcntl::OFlag::O_TRUNC;
    match nix::fcntl::open(path, flags, nix::sys::stat::Mode::from_bits_truncate(0o644)) {
        Ok(fd) => Ok(fd),
        Err(e) => Err(Error::Io(e as i32)),
    }
}

/// Relies on `nix::unistd::read`: on success the returned bytes are what
/// the descriptor yielded, at most `cap` of them; an empty result means
/// the end of the file.  On failure the raw OS error number comes back
/// as [`Error::Io`].
#[verifier::external_body]
pub(crate) fn fd_read_chunk(fd: i32, cap: usize) -> (r: Result<Vec<u8>, Error>)
    ensures
        r matches Ok(v) ==> v@.len() <= cap,
        r matches Err(e) ==> e is Io,
{
    let mut buf = vec![0u8; cap];
    match nix::unistd::read(fd, &mut buf) {
        Ok(n) => {
            buf.truncate(n);
            Ok(buf)
        }
        Err(e) => Err(Error::Io(e as i32)),
    }
}

/// Relies on `nix::unistd::write` on the tail of `buf` from `off`: on
/// success at most the remaining bytes were written; on failure the raw
/// OS error number comes back as [`Error::Io`].
#[verifier::external_body]
pub(crate) fn fd_write_tail(fd: i32, buf: &[u8], off: usize) -> (r: Result<usize, Error>)
    requires
        off <= buf@.len(),
    ensures
        r matches Ok(n) ==> off + n <= buf@.len(),
        r matches Err(e) ==> e is Io,
{
    match nix::unistd::write(fd, &buf[off..]) {
        Ok(n) => Ok(n),
        Err(e) => Err(Error::Io(e as i32)),
    }
}

/// Relies on `nix::unistd::lseek` with `SeekSet` at offset zero: the
/// descriptor is repositioned to the start of the file.
#[verifier::external_body]
pub(crate) fn fd_seek_start(fd: i32) -> (r: Result<(), Error>)
    ensures
        r matches Err(e) ==> e is Io,
{
    match nix::unistd::lseek(fd, 0, nix::unistd::Whence::SeekSet) {
        Ok(_) => Ok(()),
        Err(e) => Err(Error::Io(e as i32)),
    }
}

/// Relies on `nix::unistd::close`: releases the descriptor.
#[verifier::external_body]
pub(crate) fn fd_close(fd: i32) -> (r: Result<(), Error>)
    ensures
        r matches Err(e) ==> e is Io,
{
    match nix::unistd::close(fd) {
        Ok(()) => Ok(()),
        Err(e) => Err(Error::Io(e as i32)),
    }
}

/// Relies on `nix::unistd::access` with `F_OK`: whether the path names an
/// entry of the filesystem at the moment of the call.
#[verifier::external_body]
pub(crate) fn path_exists(path: &[u8]) -> bool {
    nix::unistd::access(path, nix::unistd::AccessFlags::F_OK).is_ok()
}

/// Relies on `nix::sys::epoll::epoll_create`: on success the returned
/// multiplexer handle is a nonnegative descriptor; on failure the raw OS
/// error number comes back as [`Error::Io`].
#[verifier::external_body]
pub(crate) fn epoll_create_fd() -> (r: Result<i32, Error>)
    ensures
        r matches Ok(fd) ==> fd >= 0,
        r matches Err(e) ==> e is Io,
{
    match nix::sys::epoll::epoll_create() {
        Ok(fd) => Ok(fd),
        Err(e) => Err(Error::Io(e as i32)),
    }
}

/// Relies on `nix::sys::epoll::epoll_ctl` with `EpollCtlAdd`: registers
/// `fd` with the multiplexer `epfd` for priority data in edge-triggered
/// mode (`EPOLLPRI | EPOLLET`), the interest through which the kernel
/// reports a pin's edge events.
#[verifier::external_body]
pub(crate) fn epoll_add_priority(epfd: i32, fd: i32) -> (r: Result<(), Error>)
    ensures
        r matches Err(e) ==> e is Io,
{
    let flags = nix::sys::epoll::EpollFlags::EPOLLPRI | nix::sys::epoll::EpollFlags::EPOLLET;
    let mut event = nix::sys::epoll::EpollEvent::new(flags, 0u64);
    match nix::sys::epoll::epoll_ctl(
        epfd,
        nix::sys::epoll::EpollOp::EpollCtlAdd,
        fd,
        &mut event,
    ) {
        Ok(()) => Ok(()),
        Err(e) => Err(Error::Io(e as i32)),
    }
}

/// Relies on `nix::sys::epoll::epoll_wait` with a one-event buffer and
/// the given timeout in milliseconds (negative waits without bound): on
/// success the count of ready events is returned, at most one; zero
/// means the wait timed out.  On failure the raw OS error number comes
/// back as [`Error::Io`].
#[verifier::external_body]
pub(crate) fn epoll_wait_one(epfd: i32, timeout_ms: isize) -> (r: Result<usize, Error>)
    ensures
        r matches Ok(n) ==> n <= 1,
        r matches Err(e) ==> e is Io,
{
    let mut events = [nix::sys::epoll::EpollEvent::empty(); 1];
    match nix::sys::epoll::epoll_wait(epfd, &mut events, timeout_ms) {
        Ok(n) => Ok(n),
        Err(e) => Err(Error::Io(e as i32)),
    }
}

} // verus!
