use vstd::prelude::*;

verus! {

/// The console's internal 2 KiB RAM, seen by the CPU mirrored four times across `$0000-$1FFF`.
pub struct Memory {
    ram: Vec<u8>,
}

impl View for Memory {
    type V = Seq<u8>;

    closed spec fn view(&self) -> Seq<u8> {
        self.ram@
    }
}

/// The RAM cell that a CPU address selects.
pub open spec fn ram_index(addr: u16) -> int {
    addr as int % 2048
}

impl Memory {
    pub open spec fn wf(&self) -> bool {
        self@.len() == 2048
    }

    pub fn new() -> (r: Memory)
        ensures
            r.wf(),
            forall|i: int| 0 <= i < 2048 ==> r@[i] == 0,
    {
        Memory { ram: vec![0u8; 2048] }
    }

    pub fn read(&self, addr: u16) -> (r: u8)
        requires
            self.wf(),
        ensures
            r == self@[ram_index(addr)],
    {
        self.ram[(addr % 2048) as usize]
    }

    pub fn write(&mut self, addr: u16, value: u8)
        requires
            old(self).wf(),
        ensures
            final(self).wf(),
            final(self)@ == old(self)@.update(ram_index(addr), value),
    {
        self.ram.set((addr % 2048) as usize, value);
    }
}

} // verus!
