use vstd::prelude::*;

verus! {

/// Number of bytes that one OAM DMA transfer copies.
pub const DMA_LENGTH: u8 = 0xA0;

/// The OAM DMA engine: copies 160 bytes from `dma_value * 0x100` into OAM,
/// one byte per tick, after a start-up delay of two ticks.
#[derive(Clone, Copy)]
pub struct Dma {
    pub active: bool,
    pub dma_byte: u8,
    pub dma_value: u8,
    pub dma_delay: u8,
}

impl Dma {
    /// While a transfer is running, the next byte to copy is inside OAM.
    pub open spec fn wf(&self) -> bool {
        self.active ==> self.dma_byte < 0xA0
    }

    /// The engine after one tick, and the (source, destination) pair it copies on that tick.
    pub open spec fn ticked(self) -> (Dma, Option<(u16, u16)>) {
        if !self.active {
            (self, None)
        } else if self.dma_delay > 0 {
            (Dma { dma_delay: (self.dma_delay - 1) as u8, ..self }, None)
        } else {
            let next = (self.dma_byte + 1) as u8;
            (
                Dma { dma_byte: next, active: next < 0xA0, ..self },
                Some(((self.dma_value as u16 * 0x100 + self.dma_byte) as u16, self.dma_byte as u16)),
            )
        }
    }

    /// The engine after `n` ticks.
    pub open spec fn after_ticks(self, n: nat) -> Dma
        decreases n,
    {
        if n == 0 {
            self
        } else {
            self.after_ticks((n - 1) as nat).ticked().0
        }
    }

    /// An idle engine.
    pub fn new() -> (r: Dma)
        ensures
            !r.active && r.dma_byte == 0 && r.dma_value == 0 && r.dma_delay == 0,
            r.wf(),
    {
        Dma { active: false, dma_byte: 0, dma_value: 0, dma_delay: 0 }
    }

    /// Starts a transfer from page `start` (a write to 0xFF46).
    pub fn dma_start(&mut self, start: u8)
        ensures
            *final(self) == (Dma { active: true, dma_byte: 0, dma_delay: 2, dma_value: start }),
            final(self).wf(),
    {
        self.active = true;
        self.dma_byte = 0;
        self.dma_delay = 2;
        self.dma_value = start;
    }

    /// Advances the engine by one tick; returns the (source, destination) pair to copy, if any.
    pub fn dma_tick(&mut self) -> (r: Option<(u16, u16)>)
        requires
            old(self).wf(),
        ensures
            (*final(self), r) == old(self).ticked(),
            final(self).wf(),
            r matches Some((src, dst)) ==> dst < 0xA0,
    {
        if !self.active {
            return None;
        }
        if self.dma_delay > 0 {
            self.dma_delay = self.dma_delay - 1;
            return None;
        }
        let src_addr = (self.dma_value as u16 * 0x100) + self.dma_byte as u16;
        let dest_addr = self.dma_byte as u16;
        self.dma_byte = self.dma_byte + 1;
        self.active = self.dma_byte < DMA_LENGTH;
        Some((src_addr, dest_addr))
    }

    /// Whether a transfer is running.
    pub fn is_transferring(&self) -> (r: bool)
        ensures
            r == self.active,
    {
        self.active
    }
}

/// A transfer started from page `page` copies nothing for two ticks, then on tick `2 + k`
/// copies byte `page * 0x100 + k` to OAM byte `k`, for `k` from 0 to 159, and is idle after
/// 162 ticks.
pub proof fn lemma_transfer_copies_page(page: u8, n: nat)
    requires
        n <= 162,
    ensures
        ({
            let d = Dma { active: true, dma_byte: 0, dma_delay: 2, dma_value: page };
            &&& n < 2 ==> d.after_ticks(n).ticked().1 is None
            &&& 2 <= n < 162 ==> d.after_ticks(n).ticked().1 == Some(
                ((page as u16 * 0x100 + (n - 2)) as u16, (n - 2) as u16),
            )
            &&& n == 162 ==> !d.after_ticks(n).active && d.after_ticks(n).ticked().1 is None
        }),
{
    lemma_transfer_state(page, n);
}

/// Where a started transfer stands after `n` ticks.
proof fn lemma_transfer_state(page: u8, n: nat)
    requires
        n <= 162,
    ensures
        ({
            let d = Dma { active: true, dma_byte: 0, dma_delay: 2, dma_value: page };
            &&& n < 2 ==> d.after_ticks(n) == (Dma { dma_delay: (2 - n) as u8, ..d })
            &&& n >= 2 ==> d.after_ticks(n) == (Dma {
                active: n < 162,
                dma_byte: (n - 2) as u8,
                dma_delay: 0,
                dma_value: page,
            })
        }),
    decreases n,
{
    if n > 0 {
        lemma_transfer_state(page, (n - 1) as nat);
    }
}

} // verus!
