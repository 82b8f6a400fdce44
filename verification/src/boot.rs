//! Bringing the monitor up on a physical CPU.
//!
//! The first physical CPU that enters the monitor does the cold boot of the
//! machine; every CPU, that one included, then sets itself up. The monitor
//! refuses to come up on hardware that lacks what it needs.

use vstd::prelude::*;

verus! {

/// One step of bringing the monitor up.
#[derive(Debug, Copy, Clone, PartialEq, Eq, Structural)]
pub enum Step {
    /// Zero the memory of uninitialised data.
    ClearBss,
    /// Set up the allocator.
    InitAllocator,
    /// Attach the console and the logger.
    InitConsole,
    /// Check what the memory management of the hardware supports.
    InitMm,
    /// Set up the physical CPU that is entering.
    InitCpu,
}

/// The steps to take on entry: all of them on a cold boot, and only the
/// set-up of the entering CPU after it.
pub open spec fn plan(cold: bool) -> Seq<Step> {
    if cold {
        seq![Step::ClearBss, Step::InitAllocator, Step::InitConsole, Step::InitMm, Step::InitCpu]
    } else {
        seq![Step::InitCpu]
    }
}

/// Whether the cold boot of the machine is still to be done.
#[derive(Debug)]
pub struct Boot {
    cold: bool,
}

impl Boot {
    pub closed spec fn is_cold(&self) -> bool {
        self.cold
    }

    /// The state of a machine on which nothing has run yet.
    pub fn new() -> (boot: Boot)
        ensures
            boot.is_cold(),
    {
        Boot { cold: true }
    }

    /// Hands out the steps for the CPU that is entering, in the order in
    /// which to take them. The cold boot is handed out once.
    pub fn setup(&mut self) -> (steps: Vec<Step>)
        ensures
            steps@ == plan(old(self).is_cold()),
            !final(self).is_cold(),
    {
        let mut steps: Vec<Step> = Vec::new();
        if self.cold {
            steps.push(Step::ClearBss);
            steps.push(Step::InitAllocator);
            steps.push(Step::InitConsole);
            steps.push(Step::InitMm);
            self.cold = false;
        }
        steps.push(Step::InitCpu);
        steps
    }
}

/// What the monitor needs of the hardware and did not find.
#[derive(Debug, Copy, Clone, PartialEq, Eq, Structural)]
pub enum Unsupported {
    /// Granules of 4 KB.
    Granule4K,
    /// A physical address range that the monitor knows.
    PaRange,
}

/// The width in bits of the physical addresses that the hardware reports
/// with `pa_range`.
pub open spec fn pa_bits(pa_range: u64) -> Option<usize> {
    if pa_range == 0 {
        Some(32)
    } else if pa_range == 1 {
        Some(36)
    } else if pa_range == 2 {
        Some(40)
    } else if pa_range == 3 {
        Some(42)
    } else if pa_range == 4 {
        Some(44)
    } else if pa_range == 5 {
        Some(48)
    } else if pa_range == 6 {
        Some(52)
    } else {
        None
    }
}

/// What the check of the memory management gives: granules of 4 KB come
/// first, then the address range.
pub open spec fn mm_check(tgran4: u64, pa_range: u64) -> Result<usize, Unsupported> {
    if tgran4 != 0 {
        Err(Unsupported::Granule4K)
    } else {
        match pa_bits(pa_range) {
            Some(bits) => Ok(bits),
            None => Err(Unsupported::PaRange),
        }
    }
}

/// Checks the memory management of the hardware from two fields of its
/// feature register: `tgran4`, which is zero where granules of 4 KB are
/// supported, and `pa_range`. Returns the width of physical addresses.
pub fn init_mm(tgran4: u64, pa_range: u64) -> (r: Result<usize, Unsupported>)
    ensures
        r == mm_check(tgran4, pa_range),
{
    if tgran4 != 0 {
        return Err(Unsupported::Granule4K);
    }
    let pa_bits_table: [usize; 7] = [32, 36, 40, 42, 44, 48, 52];
    if pa_range < 7 {
        Ok(pa_bits_table[pa_range as usize])
    } else {
        Err(Unsupported::PaRange)
    }
}

} // verus!
