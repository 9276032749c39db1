//! The console as one value.

use vstd::prelude::*;
use crate::cpu::chip::CPU;

verus! {

pub struct Nes {
    pub cpu: CPU,
}

impl Nes {
    pub fn new(cpu: CPU) -> (r: Self)
        ensures
            r.cpu == cpu,
    {
        Nes { cpu }
    }

    /// Advances the console by one CPU cycle.
    pub fn tick(&mut self)
        requires
            old(self).cpu.wf(),
        ensures
            final(self).cpu == old(self).cpu.spec_clock().1,
            final(self).cpu.wf(),
    {
        self.cpu.clock();
    }

    /// Presses the reset button.
    pub fn reset(&mut self)
        requires
            old(self).cpu.wf(),
        ensures
            final(self).cpu == old(self).cpu.spec_reset(),
            final(self).cpu.wf(),
    {
        self.cpu.reset();
    }
}

} // verus!
