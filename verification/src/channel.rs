//! The attribute channel: reading and writing the textual attribute files
//! of a pin through raw descriptors, with the descriptor closed on every
//! path.  A fresh value is fetched through here after each readiness
//! notification, and every attribute accessor of [`crate::pin::Pin`] goes
//! through here as well.

use vstd::prelude::*;

use crate::attr::parse_pin_value;
use crate::error::Error;
use crate::path::{attr_file_path, AttrName};
use crate::sys::{fd_close, fd_open_read, fd_open_write, fd_read_chunk, fd_seek_start,
    fd_write_tail};

verus! {

/// An attribute file's content fits well under one page; reading stops at
/// this bound.
pub const MAX_ATTR_BYTES: usize = 4096;

/// Reads the content of `fd` from its current position to the end of the
/// file (or to [`MAX_ATTR_BYTES`], whichever comes first).
///
/// Errors of the underlying read are surfaced as they come; nothing is
/// retried.
pub fn read_all(fd: i32) -> (r: Result<Vec<u8>, Error>)
    ensures
        r matches Ok(v) ==> v@.len() <= MAX_ATTR_BYTES,
        r matches Err(e) ==> e is Io,
{
    let mut out: Vec<u8> = Vec::new();
    while out.len() < MAX_ATTR_BYTES
        invariant
            out@.len() <= MAX_ATTR_BYTES,
        decreases MAX_ATTR_BYTES - out@.len(),
    {
        let room: usize = MAX_ATTR_BYTES - out.len();
        let cap: usize = if room < 64 {
            room
        } else {
            64
        };
        let mut chunk = match fd_read_chunk(fd, cap) {
            Ok(c) => c,
            Err(e) => {
                return Err(e);
            }
        };
        if chunk.len() == 0 {
            return Ok(out);
        }
        out.append(&mut chunk);
    }
    Ok(out)
}

/// Reads and discards whatever `fd` has buffered, up to `max` bytes,
/// returning how much was discarded.
///
/// One would usually seek for this sort of thing, but an attribute file
/// surfaces stale readiness through buffered content that has to be
/// actually read before a wait, or the wait wakes at once on old data.
pub fn flush_input_from_file(fd: i32, max: usize) -> (r: Result<usize, Error>)
    ensures
        r matches Ok(n) ==> n <= max,
        r matches Err(e) ==> e is Io,
{
    let mut count: usize = 0;
    while count < max
        invariant
            count <= max,
        decreases max - count,
    {
        let room: usize = max - count;
        let cap: usize = if room < 64 {
            room
        } else {
            64
        };
        let chunk = match fd_read_chunk(fd, cap) {
            Ok(c) => c,
            Err(e) => {
                return Err(e);
            }
        };
        if chunk.len() == 0 {
            return Ok(count);
        }
        count += chunk.len();
    }
    Ok(count)
}

/// Writes all of `buf` to `fd`, surfacing a write that makes no progress
/// as an I/O error.
pub fn write_all(fd: i32, buf: &[u8]) -> (r: Result<(), Error>)
    ensures
        r matches Err(e) ==> e is Io,
{
    let mut off: usize = 0;
    while off < buf.len()
        invariant
            off <= buf@.len(),
        decreases buf@.len() - off,
    {
        match fd_write_tail(fd, buf, off) {
            Ok(n) => {
                if n == 0 {
                    return Err(Error::Io(0));
                }
                off += n;
            }
            Err(e) => {
                return Err(e);
            }
        }
    }
    Ok(())
}

/// Re-reads the pin value from an already open `value` attribute file:
/// seeks to the start, reads the full content, and parses it.
///
/// A successful read parses to 0 or 1; any other content fails with
/// [`Error::Unexpected`].
pub fn get_value_from_file(fd: i32) -> (r: Result<u8, Error>)
    ensures
        r matches Ok(v) ==> v == 0 || v == 1,
        r matches Err(e) ==> e is Io || e is Unexpected,
{
    if let Err(e) = fd_seek_start(fd) {
        return Err(e);
    }
    let content = match read_all(fd) {
        Ok(c) => c,
        Err(e) => {
            return Err(e);
        }
    };
    parse_pin_value(content.as_slice())
}

/// Opens the file at `path`, reads its full content, and closes the
/// descriptor again, on the error paths too.  An error of the close after
/// a successful read is ignored, as an open-for-reading loses nothing.
pub fn read_file_bytes(path: &[u8]) -> (r: Result<Vec<u8>, Error>)
    ensures
        r matches Err(e) ==> e is Io,
{
    let fd = match fd_open_read(path) {
        Ok(fd) => fd,
        Err(e) => {
            return Err(e);
        }
    };
    match read_all(fd) {
        Ok(content) => {
            let _ = fd_close(fd);
            Ok(content)
        }
        Err(e) => {
            let _ = fd_close(fd);
            Err(e)
        }
    }
}

/// Opens the file at `path` for writing, writes `content` to it whole,
/// and closes the descriptor again, on the error paths too.
pub fn write_file_bytes(path: &[u8], content: &[u8]) -> (r: Result<(), Error>)
    ensures
        r matches Err(e) ==> e is Io,
{
    let fd = match fd_open_write(path) {
        Ok(fd) => fd,
        Err(e) => {
            return Err(e);
        }
    };
    match write_all(fd, content) {
        Ok(()) => {
            let _ = fd_close(fd);
            Ok(())
        }
        Err(e) => {
            let _ = fd_close(fd);
            Err(e)
        }
    }
}

/// Reads the full content of one attribute file of a pin.
pub fn read_attr_file(pin_num: u64, a: AttrName) -> (r: Result<Vec<u8>, Error>)
    ensures
        r matches Err(e) ==> e is Io,
{
    let p = attr_file_path(pin_num, a);
    read_file_bytes(p.as_slice())
}

/// Writes `content` whole to one attribute file of a pin.
pub fn write_attr_file(pin_num: u64, a: AttrName, content: &[u8]) -> (r: Result<(), Error>)
    ensures
        r matches Err(e) ==> e is Io,
{
    let p = attr_file_path(pin_num, a);
    write_file_bytes(p.as_slice(), content)
}

} // verus!
