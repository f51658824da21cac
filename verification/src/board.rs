//! Board-level glue: the platform's syscall-driver lookup and the boot
//! console message.

use vstd::prelude::*;
use crate::ioarea::{poop, IoArea};
use vstd::string::StringSliceAdditionalSpecFns;

verus! {

/// Driver number of the alarm syscall driver.
pub const DRIVER_NUM_ALARM: usize = 0;

/// Driver number of the console syscall driver.
pub const DRIVER_NUM_CONSOLE: usize = 1;

/// The capsules a platform can route a syscall to.
#[derive(Clone, Copy, PartialEq, Eq, Structural, Debug)]
pub enum DriverId {
    Console,
    Alarm,
}

/// The capsule that owns a syscall driver number on the bring-up board:
/// none is wired up, so every number resolves to nothing.
pub open spec fn spec_platform_driver(driver_num: usize) -> Option<DriverId> {
    None
}

/// The capsule that owns a syscall driver number on the full platform.
pub open spec fn spec_opentitan_driver(driver_num: usize) -> Option<DriverId> {
    if driver_num == DRIVER_NUM_CONSOLE {
        Some(DriverId::Console)
    } else if driver_num == DRIVER_NUM_ALARM {
        Some(DriverId::Alarm)
    } else {
        None
    }
}

/// The bring-up board's platform: no syscall drivers are wired up yet.
pub struct Platform {}

impl Platform {
    /// Hand the capsule owning `driver_num` — here always none — to the
    /// caller's continuation.
    pub fn with_driver<R, F: FnOnce(Option<DriverId>) -> R>(&self, driver_num: usize, f: F) -> (r:
        R)
        requires
            call_requires(f, (spec_platform_driver(driver_num),)),
        ensures
            call_ensures(f, (spec_platform_driver(driver_num),), r),
    {
        match driver_num {
            _ => f(None),
        }
    }
}

/// The full platform: a console and an alarm driver.
pub struct OpenTitan {}

impl OpenTitan {
    /// Hand the capsule owning `driver_num` to the caller's continuation.
    pub fn with_driver<R, F: FnOnce(Option<DriverId>) -> R>(&self, driver_num: usize, f: F) -> (r:
        R)
        requires
            call_requires(f, (spec_opentitan_driver(driver_num),)),
        ensures
            call_ensures(f, (spec_opentitan_driver(driver_num),), r),
    {
        match driver_num {
            DRIVER_NUM_CONSOLE => f(Some(DriverId::Console)),
            DRIVER_NUM_ALARM => f(Some(DriverId::Alarm)),
            _ => f(None),
        }
    }
}

/// Write a line of text to the board's byte-wide output area: the text's
/// bytes in order, then a line feed.
pub fn msg(ioa: &mut IoArea, s: &str)
    ensures
        final(ioa).written@ == old(ioa).written@ + s.spec_bytes().push(10u8),
{
    let bytes = s.as_bytes();
    let n = bytes.len();
    let mut i: usize = 0;
    while i < n
        invariant
            i <= n,
            n == s.spec_bytes().len(),
            bytes@ == s.spec_bytes(),
            ioa.written@ == old(ioa).written@ + s.spec_bytes().take(i as int),
        decreases n - i,
    {
        proof {
            assert(s.spec_bytes().take(i as int + 1) =~= s.spec_bytes().take(i as int).push(
                s.spec_bytes()[i as int],
            ));
        }
        poop(ioa, bytes[i]);
        i = i + 1;
    }
    proof {
        assert(s.spec_bytes().take(n as int) =~= s.spec_bytes());
    }
    poop(ioa, 10);
}

} // verus!
