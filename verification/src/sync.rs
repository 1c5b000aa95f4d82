//! Explicit synchronization: waiting for a point on a timeline of the graphics
//! device.

use crate::text;
use crate::text::append_decimal;
use vstd::prelude::*;
use vstd::string::*;

verus! {

/// The number of the control call of the graphics device, `nr`, that reads and
/// writes a structure of `size` bytes.
pub fn drm_iowr(nr: u8, size: u16) -> (request: u64)
    requires
        size < 0x4000,
    ensures
        request == 0xc000_0000 + size * 0x1_0000 + 0x6400 + nr,
{
    0xc000_0000 + size as u64 * 0x1_0000 + 0x6400 + nr as u64
}

/// The time, in nanoseconds of a clock, at which a wait ends that begins now.
pub open spec fn wait_end(seconds: i64, nanoseconds: i64, timeout: u128) -> Result<i64, Seq<char>> {
    if timeout > i128::MAX {
        Err("syncobj timeout is too large"@)
    } else {
        let end = seconds * 1_000_000_000 + nanoseconds + timeout;
        if i64::MIN <= end <= i64::MAX {
            Ok(end as i64)
        } else {
            Err("syncobj timeout overflowed i64"@)
        }
    }
}

/// Computes when a wait ends that begins now, by a clock that shows seconds and
/// nanoseconds.
pub fn monotonic_timeout_nsec(seconds: i64, nanoseconds: i64, timeout: u128) -> (end: Result<
    i64,
    String,
>)
    ensures
        text::outcome(end) == wait_end(seconds, nanoseconds, timeout),
{
    if timeout > i128::MAX as u128 {
        return Err("syncobj timeout is too large".to_owned());
    }
    let now: i128 = seconds as i128 * 1_000_000_000 + nanoseconds as i128;
    if timeout > 0x10_0000_0000_0000_0000_0000_0000 {
        return Err("syncobj timeout overflowed i64".to_owned());
    }
    let end: i128 = now + timeout as i128;
    if end < i64::MIN as i128 || end > i64::MAX as i128 {
        return Err("syncobj timeout overflowed i64".to_owned());
    }
    Ok(end as i64)
}

/// A wait for a point that is tried on one device after the other: what the last
/// one said.
#[derive(Debug, PartialEq, Eq)]
pub struct NodeSearch {
    pub last_error: String,
}

impl NodeSearch {
    /// A wait that was not tried on any device.
    pub fn new() -> (search: Self)
        ensures
            search.last_error@ == "no DRM render node accepted syncobj timeline fd"@,
    {
        NodeSearch { last_error: "no DRM render node accepted syncobj timeline fd".to_owned() }
    }

    /// The path of a device, if there is a device of this number to be tried.
    pub fn node_path(number: u32) -> (path: Option<String>)
        ensures
            match path {
                Some(found) => 128 <= number <= 143 && found@ == "/dev/dri/renderD"@
                    + text::decimal(number as nat),
                None => !(128 <= number <= 143),
            },
    {
        if number < 128 || number > 143 {
            return None;
        }
        let mut path = "/dev/dri/renderD".to_owned();
        append_decimal(&mut path, number as u64);
        Some(path)
    }

    /// Notes that a device could not wait.
    pub fn note_failure(&mut self, path: &str, error: &str)
        ensures
            final(self).last_error@ == path@ + ": "@ + error@,
    {
        let mut message = path.to_owned();
        message.append(": ");
        message.append(error);
        self.last_error = message;
    }

    /// Says that no device could wait.
    pub fn failure(&self, point: u64) -> (message: String)
        ensures
            message@ == "failed to wait for explicit Wayland acquire sync point "@ + text::decimal(
                point as nat,
            ) + ": "@ + self.last_error@,
    {
        let mut message = "failed to wait for explicit Wayland acquire sync point ".to_owned();
        append_decimal(&mut message, point);
        message.append(": ");
        message.append(self.last_error.as_str());
        message
    }
}

} // verus!
