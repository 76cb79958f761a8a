use vstd::prelude::*;

verus! {

/// The five interrupt sources, in priority order.
#[derive(Debug, Clone, Copy, PartialEq, Eq, Structural)]
pub enum Interrupt {
    VBlank,
    LcdStat,
    Timer,
    Serial,
    Joypad,
}

impl Interrupt {
    /// Bit of the interrupt in IE and IF.
    pub open spec fn spec_mask(self) -> u8 {
        match self {
            Interrupt::VBlank => 0x01,
            Interrupt::LcdStat => 0x02,
            Interrupt::Timer => 0x04,
            Interrupt::Serial => 0x08,
            Interrupt::Joypad => 0x10,
        }
    }

    /// Address of the handler of the interrupt.
    pub open spec fn spec_vector(self) -> u16 {
        match self {
            Interrupt::VBlank => 0x40,
            Interrupt::LcdStat => 0x48,
            Interrupt::Timer => 0x50,
            Interrupt::Serial => 0x58,
            Interrupt::Joypad => 0x60,
        }
    }

    /// Bit of the interrupt in IE and IF.
    pub fn mask(self) -> (r: u8)
        ensures
            r == self.spec_mask(),
    {
        match self {
            Interrupt::VBlank => 0x01,
            Interrupt::LcdStat => 0x02,
            Interrupt::Timer => 0x04,
            Interrupt::Serial => 0x08,
            Interrupt::Joypad => 0x10,
        }
    }

    /// Address of the handler of the interrupt.
    pub fn vector(self) -> (r: u16)
        ensures
            r == self.spec_vector(),
    {
        match self {
            Interrupt::VBlank => 0x40,
            Interrupt::LcdStat => 0x48,
            Interrupt::Timer => 0x50,
            Interrupt::Serial => 0x58,
            Interrupt::Joypad => 0x60,
        }
    }
}

/// Address of the interrupt request register IF.
pub const IF_ADDR: u16 = 0xFF0F;

/// Address of the interrupt enable register IE.
pub const IE_ADDR: u16 = 0xFFFF;

/// The address space the CPU sees: 64 KiB of bytes, with IF at 0xFF0F and IE at 0xFFFF.
pub struct Mmu {
    pub memory: [u8; 65536],
}

/// The highest-priority interrupt both requested and enabled, if any.
pub open spec fn next_request(pending: u8) -> Option<Interrupt> {
    if pending & 0x01 != 0 {
        Some(Interrupt::VBlank)
    } else if pending & 0x02 != 0 {
        Some(Interrupt::LcdStat)
    } else if pending & 0x04 != 0 {
        Some(Interrupt::Timer)
    } else if pending & 0x08 != 0 {
        Some(Interrupt::Serial)
    } else if pending & 0x10 != 0 {
        Some(Interrupt::Joypad)
    } else {
        None
    }
}

impl Mmu {
    /// IF as stored in memory.
    pub open spec fn spec_if(self) -> u8 {
        self.memory@[IF_ADDR as int]
    }

    /// IE as stored in memory.
    pub open spec fn spec_ie(self) -> u8 {
        self.memory@[IE_ADDR as int]
    }

    /// A memory of zeros.
    pub fn new() -> (r: Self)
        ensures
            r.memory@ == Seq::new(65536, |i: int| 0u8),
    {
        let r = Mmu { memory: [0; 65536] };
        assert(r.memory@ =~= Seq::new(65536, |i: int| 0u8));
        r
    }

    /// The byte at `addr`.
    pub fn read_byte(&self, addr: u16) -> (r: u8)
        ensures
            r == self.memory@[addr as int],
    {
        self.memory[addr as usize]
    }

    /// Stores `value` at `addr`.
    pub fn write_byte(&mut self, addr: u16, value: u8)
        ensures
            final(self).memory@ == old(self).memory@.update(addr as int, value),
    {
        self.memory[addr as usize] = value;
    }

    /// IF: the interrupts requested.
    pub fn read_interrupt_flag(&self) -> (r: u8)
        ensures
            r == self.spec_if(),
    {
        self.memory[IF_ADDR as usize]
    }

    /// IE: the interrupts enabled.
    pub fn read_interrupt_enable(&self) -> (r: u8)
        ensures
            r == self.spec_ie(),
    {
        self.memory[IE_ADDR as usize]
    }

    /// The requested and enabled interrupt of highest priority.
    pub fn interrupts_next_request(&self) -> (r: Option<Interrupt>)
        ensures
            r == next_request(self.spec_ie() & self.spec_if()),
    {
        let pending = self.read_interrupt_enable() & self.read_interrupt_flag();
        if pending & 0x01 != 0 {
            Some(Interrupt::VBlank)
        } else if pending & 0x02 != 0 {
            Some(Interrupt::LcdStat)
        } else if pending & 0x04 != 0 {
            Some(Interrupt::Timer)
        } else if pending & 0x08 != 0 {
            Some(Interrupt::Serial)
        } else if pending & 0x10 != 0 {
            Some(Interrupt::Joypad)
        } else {
            None
        }
    }

    /// Withdraws the request of `interrupt` from IF.
    pub fn interrupts_clear_request(&mut self, interrupt: Interrupt)
        ensures
            final(self).memory@ == old(self).memory@.update(IF_ADDR as int, old(self).spec_if() & !interrupt.spec_mask()),
    {
        let iflag = self.read_interrupt_flag();
        let m = interrupt.mask();
        self.memory[IF_ADDR as usize] = iflag & !m;
    }
}

impl Default for Mmu {
    fn default() -> (r: Self)
        ensures
            r.memory@ == Seq::new(65536, |i: int| 0u8),
    {
        Mmu::new()
    }
}


/// The interrupt served is the requested one of lowest bit: one is found exactly when a
/// bit of the five interrupt bits is set, its bit is set, every lower bit is clear, and
/// its handler lies at 0x40 plus eight times its bit number.
pub proof fn lemma_interrupt_priority(pending: u8)
    ensures
        next_request(pending) is Some <==> pending & 0x1F != 0,
        next_request(pending) matches Some(i) ==> {
            let k = ((i.spec_vector() - 0x40) / 8) as u8;
            &&& k < 5
            &&& i.spec_vector() == 0x40 + 8 * k
            &&& i.spec_mask() == 1u8 << k
            &&& pending & i.spec_mask() != 0
            &&& pending & ((i.spec_mask() - 1) as u8) == 0
        },
{
    assert(pending & 0x1F != 0 <==> (pending & 0x01 != 0 || pending & 0x02 != 0 || pending & 0x04 != 0
        || pending & 0x08 != 0 || pending & 0x10 != 0)) by (bit_vector);
    assert(pending & 0x01 == 0 ==> pending & 0x01 == 0);
    assert(pending & 0x01 == 0 && pending & 0x02 == 0 ==> pending & 0x03 == 0) by (bit_vector);
    assert(pending & 0x01 == 0 && pending & 0x02 == 0 && pending & 0x04 == 0 ==> pending & 0x07 == 0) by (bit_vector);
    assert(pending & 0x01 == 0 && pending & 0x02 == 0 && pending & 0x04 == 0 && pending & 0x08 == 0 ==> pending & 0x0F
        == 0) by (bit_vector);
    assert(pending & 0x00 == 0) by (bit_vector);
    assert(1u8 << 0u8 == 1 && 1u8 << 1u8 == 2 && 1u8 << 2u8 == 4 && 1u8 << 3u8 == 8 && 1u8 << 4u8 == 16) by (bit_vector);
}

} // verus!
