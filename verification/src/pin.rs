//! The `Pin` type: an immutable handle on a GPIO line, named by its pin
//! number, with accessors for the line's attribute files and entry points
//! to the polling machinery.  A `Pin` owns no OS resource; nothing checks
//! that the line exists until an operation is attempted.

use vstd::prelude::*;
use vstd::string::StringSliceAdditionalSpecFns;

use crate::attr::{direction_word, edge_word, level_word, parse_active_low, parse_direction,
    parse_edge, parse_pin_value, value_word, Direction, Edge};
use crate::channel::{read_attr_file, write_attr_file, write_file_bytes};
use crate::error::Error;
use crate::evented::AsyncPinPoller;
use crate::path::{all_digits, component, digits_value, export_path, extract_pin_from_path,
    pin_dir_path, strip_gpio, unexport_path, u64_to_decimal, AttrName};
use crate::poller::PinPoller;
use crate::stream::{PinStream, PinValueStream};
use crate::sys::path_exists;

verus! {

/// A GPIO line, identified by a pin number assigned from outside.  Freely
/// copyable; every operation resolves the line's attribute directory
/// afresh.
#[derive(Clone, Copy, Debug, PartialEq, Eq, Structural)]
pub struct Pin {
    pin_num: u64,
}

impl Pin {
    /// The pin number this handle carries.
    pub closed spec fn number(&self) -> u64 {
        self.pin_num
    }

    /// Creates a new `Pin` for the provided pin number.
    ///
    /// This does not export the pin.
    pub fn new(pin_num: u64) -> (p: Pin)
        ensures
            p.number() == pin_num,
    {
        Pin { pin_num }
    }

    /// The pin number.
    pub fn get_pin_num(&self) -> (n: u64)
        ensures
            n == self.number(),
    {
        self.pin_num
    }

    /// The pin number.
    pub fn get_pin(&self) -> (n: u64)
        ensures
            n == self.number(),
    {
        self.pin_num
    }

    /// Extracts the pin number from a path naming a pin's attribute
    /// directory, such as the class directory's `gpio` entries or a
    /// resolved symbolic link to one; see
    /// [`crate::path::extract_pin_from_path`].
    pub fn extract_pin_from_path(path: &str) -> (r: Result<u64, Error>)
        ensures
            ({
                let digits = strip_gpio(component(path.spec_bytes()));
                &&& r matches Ok(n) ==> digits.len() > 0 && all_digits(digits) && digits_value(
                    digits,
                ) == n
                &&& r is Ok <==> digits.len() > 0 && all_digits(digits) && digits_value(digits)
                    <= u64::MAX
                &&& r matches Err(e) ==> e matches Error::InvalidPath(m) && m@ == path@
            }),
    {
        extract_pin_from_path(path)
    }

    /// Whether the pin's attribute directory exists, that is, whether the
    /// pin is currently exported.
    pub fn is_exported(&self) -> bool {
        let dir = pin_dir_path(self.pin_num);
        path_exists(dir.as_slice())
    }

    /// Exports the pin by writing its number to the class `export`
    /// control file; a pin that is already exported is left alone, with
    /// no error.
    pub fn export(&self) -> (r: Result<(), Error>)
        ensures
            r matches Err(e) ==> e is Io,
    {
        let dir = pin_dir_path(self.pin_num);
        if !path_exists(dir.as_slice()) {
            let p = export_path();
            let num = u64_to_decimal(self.pin_num);
            write_file_bytes(p.as_slice(), num.as_slice())
        } else {
            Ok(())
        }
    }

    /// Unexports the pin by writing its number to the class `unexport`
    /// control file; a pin that is not exported is left alone, with no
    /// error.  Whenever this returns without error, the pin is not
    /// exported.
    pub fn unexport(&self) -> (r: Result<(), Error>)
        ensures
            r matches Err(e) ==> e is Io,
    {
        let dir = pin_dir_path(self.pin_num);
        if path_exists(dir.as_slice()) {
            let p = unexport_path();
            let num = u64_to_decimal(self.pin_num);
            write_file_bytes(p.as_slice(), num.as_slice())
        } else {
            Ok(())
        }
    }

    /// Runs a closure with the pin exported: the pin is exported first,
    /// and unexported again after the closure, whether it succeeded or
    /// not.  An error of the closure is surfaced unless unexporting fails
    /// in turn, whose error then wins.
    pub fn with_exported<F: FnOnce() -> Result<(), Error>>(&self, closure: F) -> (r: Result<
        (),
        Error,
    >)
        requires
            call_requires(closure, ()),
        ensures
            r matches Ok(u) ==> call_ensures(closure, (), Ok(u)),
            r matches Err(e) ==> e is Io || call_ensures(closure, (), Err(e)),
    {
        if let Err(e) = self.export() {
            return Err(e);
        }
        let res = closure();
        match res {
            Ok(u) => {
                match self.unexport() {
                    Ok(()) => Ok(u),
                    Err(e) => Err(e),
                }
            }
            Err(err) => {
                match self.unexport() {
                    Ok(()) => Err(err),
                    Err(e) => Err(e),
                }
            }
        }
    }

    /// Reads the pin's `direction` attribute.
    pub fn get_direction(&self) -> (r: Result<Direction, Error>)
        ensures
            r matches Err(e) ==> e is Io || e is Unexpected,
    {
        match read_attr_file(self.pin_num, AttrName::Direction) {
            Ok(content) => parse_direction(content.as_slice()),
            Err(e) => Err(e),
        }
    }

    /// Sets the pin as an input or an output.  `Direction::High` and
    /// `Direction::Low` configure an output together with its initial
    /// level.  A pin whose direction the kernel does not let userspace
    /// change has no such attribute file, and the write fails.
    pub fn set_direction(&self, dir: Direction) -> (r: Result<(), Error>)
        ensures
            r matches Err(e) ==> e is Io,
    {
        let word = direction_word(dir);
        write_attr_file(self.pin_num, AttrName::Direction, word.as_slice())
    }

    /// Reads the value of the pin: 1 when it is high, 0 when it is low
    /// (subject to the pin's `active_low` setting).
    pub fn get_value(&self) -> (r: Result<u8, Error>)
        ensures
            r matches Ok(v) ==> v == 0 || v == 1,
            r matches Err(e) ==> e is Io || e is Unexpected,
    {
        match read_attr_file(self.pin_num, AttrName::Value) {
            Ok(content) => parse_pin_value(content.as_slice()),
            Err(e) => Err(e),
        }
    }

    /// Sets the value of the pin: a zero sets it low, any other value
    /// sets it high.
    pub fn set_value(&self, value: u8) -> (r: Result<(), Error>)
        ensures
            r matches Err(e) ==> e is Io,
    {
        let word = value_word(value);
        write_attr_file(self.pin_num, AttrName::Value, word.as_slice())
    }

    /// Reads the pin's `edge` attribute.  The attribute only exists when
    /// the pin can produce interrupts.
    pub fn get_edge(&self) -> (r: Result<Edge, Error>)
        ensures
            r matches Err(e) ==> e is Io || e is Unexpected,
    {
        match read_attr_file(self.pin_num, AttrName::EdgeName) {
            Ok(content) => parse_edge(content.as_slice()),
            Err(e) => Err(e),
        }
    }

    /// Sets which edges of the pin's value trigger a readiness
    /// notification for pollers.  Fails when the pin does not allow
    /// interrupts.
    pub fn set_edge(&self, edge: Edge) -> (r: Result<(), Error>)
        ensures
            r matches Err(e) ==> e is Io,
    {
        let word = edge_word(edge);
        write_attr_file(self.pin_num, AttrName::EdgeName, word.as_slice())
    }

    /// Reads the polarity of the pin; `true` means active low.
    pub fn get_active_low(&self) -> (r: Result<bool, Error>)
        ensures
            r matches Err(e) ==> e is Io || e is Unexpected,
    {
        match read_attr_file(self.pin_num, AttrName::ActiveLow) {
            Ok(content) => parse_active_low(content.as_slice()),
            Err(e) => Err(e),
        }
    }

    /// Sets the polarity of the pin; `true` means active low.  This
    /// affects rising- and falling-edge triggering.
    pub fn set_active_low(&self, active_low: bool) -> (r: Result<(), Error>)
        ensures
            r matches Err(e) ==> e is Io,
    {
        let word = level_word(active_low);
        write_attr_file(self.pin_num, AttrName::ActiveLow, word.as_slice())
    }

    /// A blocking poller for this pin: it registers an interrupt with the
    /// kernel and waits on it with minimal delay.  Configure the edge
    /// setting beforehand.
    pub fn get_poller(&self) -> (r: Result<PinPoller, Error>)
        ensures
            r matches Ok(p) ==> p.wf() && p.pin() == self.number(),
            r matches Err(e) ==> e is Io,
    {
        PinPoller::new(self.pin_num)
    }

    /// An adapter for this pin that an outside readiness multiplexer can
    /// register.  Configure the edge setting beforehand.
    pub fn get_async_poller(&self) -> (r: Result<AsyncPinPoller, Error>)
        ensures
            r matches Ok(p) ==> p.wf(),
            r matches Err(e) ==> e is Io,
    {
        AsyncPinPoller::new(self.pin_num)
    }

    /// A fresh edge stream for this pin, driven from suspension points.
    /// Configure the edge setting beforehand.
    pub fn get_stream(&self) -> (r: Result<PinStream, Error>)
        ensures
            r matches Ok(s) ==> s.wf() && !s.skipped(),
            r matches Err(e) ==> e is Io,
    {
        PinStream::init(*self)
    }

    /// A fresh value stream for this pin, re-reading the value after each
    /// edge.  Configure `Edge::BothEdges` beforehand to see every change;
    /// a value that toggled back before the re-read surfaces unfiltered,
    /// so consecutive equal items are possible.
    pub fn get_value_stream(&self) -> (r: Result<PinValueStream, Error>)
        ensures
            r matches Ok(s) ==> s.wf() && !s.skipped(),
            r matches Err(e) ==> e is Io,
    {
        PinValueStream::init(*self)
    }
}

} // verus!
