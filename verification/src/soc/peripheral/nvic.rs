//! The interrupt controller: the master enable (IME), the enable register (IE, 0xFFFF)
//! and the request flags (IF, 0xFF0F).
use vstd::prelude::*;

verus! {

#[derive(Copy, Clone, PartialEq, Eq, Debug, Structural)]
pub enum InterruptSources {
    VBLANK,
    STAT,
    TIMER,
    SERIAL,
    JOYPAD,
}

/// The bit of IE and IF that a source owns; it is also its priority, 0 being the highest.
pub open spec fn source_index(source: InterruptSources) -> u8 {
    match source {
        InterruptSources::VBLANK => 0,
        InterruptSources::STAT => 1,
        InterruptSources::TIMER => 2,
        InterruptSources::SERIAL => 3,
        InterruptSources::JOYPAD => 4,
    }
}

pub open spec fn source_mask(source: InterruptSources) -> u8 {
    1u8 << source_index(source)
}

/// The masks of the five sources.
pub proof fn lemma_source_masks()
    ensures
        source_mask(InterruptSources::VBLANK) == 0x01,
        source_mask(InterruptSources::STAT) == 0x02,
        source_mask(InterruptSources::TIMER) == 0x04,
        source_mask(InterruptSources::SERIAL) == 0x08,
        source_mask(InterruptSources::JOYPAD) == 0x10,
{
    assert(1u8 << 0u8 == 0x01 && 1u8 << 1u8 == 0x02 && 1u8 << 2u8 == 0x04 && 1u8 << 3u8 == 0x08
        && 1u8 << 4u8 == 0x10) by (bit_vector);
}

pub fn interrupt_index(source: InterruptSources) -> (index: u8)
    ensures
        index == source_index(source),
{
    match source {
        InterruptSources::VBLANK => 0,
        InterruptSources::STAT => 1,
        InterruptSources::TIMER => 2,
        InterruptSources::SERIAL => 3,
        InterruptSources::JOYPAD => 4,
    }
}

#[derive(Copy, Clone, PartialEq, Eq, Debug, Structural)]
pub struct Nvic {
    pub interrupt_master_enable: bool,
    pub interrupt_enable: u8,
    pub interrupt_flag: u8,
}

impl Nvic {
    /// Whether a source is both requested and enabled.
    pub open spec fn is_requested(self, source: InterruptSources) -> bool {
        self.interrupt_enable & self.interrupt_flag & source_mask(source) != 0
    }

    /// The requested and enabled source of highest priority, if any.
    pub open spec fn next_interrupt(self) -> Option<InterruptSources> {
        if self.is_requested(InterruptSources::VBLANK) {
            Some(InterruptSources::VBLANK)
        } else if self.is_requested(InterruptSources::STAT) {
            Some(InterruptSources::STAT)
        } else if self.is_requested(InterruptSources::TIMER) {
            Some(InterruptSources::TIMER)
        } else if self.is_requested(InterruptSources::SERIAL) {
            Some(InterruptSources::SERIAL)
        } else if self.is_requested(InterruptSources::JOYPAD) {
            Some(InterruptSources::JOYPAD)
        } else {
            None
        }
    }

    /// Some bit is set in both IE and IF (the bits above the five sources count too).
    pub open spec fn pending(self) -> bool {
        self.interrupt_enable & self.interrupt_flag != 0
    }

    pub open spec fn with_request(self, source: InterruptSources) -> Nvic {
        Nvic { interrupt_flag: self.interrupt_flag | source_mask(source), ..self }
    }

    /// The controller after `get_interrupt`: the request of the returned source is cleared.
    pub open spec fn after_acknowledge(self) -> Nvic {
        match self.next_interrupt() {
            Some(source) => Nvic {
                interrupt_flag: self.interrupt_flag & !source_mask(source),
                ..self
            },
            None => self,
        }
    }

    pub fn new() -> (nvic: Nvic)
        ensures
            nvic == (Nvic { interrupt_master_enable: false, interrupt_enable: 0, interrupt_flag: 0 }),
    {
        Nvic { interrupt_master_enable: false, interrupt_enable: 0, interrupt_flag: 0 }
    }

    pub fn master_enable(&mut self, enable: bool)
        ensures
            *final(self) == (Nvic { interrupt_master_enable: enable, ..*old(self) }),
    {
        self.interrupt_master_enable = enable;
    }

    pub fn enable_interrupt(&mut self, source: InterruptSources, enable: bool)
        ensures
            *final(self) == (Nvic {
                interrupt_enable: if enable {
                    old(self).interrupt_enable | source_mask(source)
                } else {
                    old(self).interrupt_enable & !source_mask(source)
                },
                ..*old(self)
            }),
    {
        let index = interrupt_index(source);
        if enable {
            self.interrupt_enable = self.interrupt_enable | (1u8 << index);
        } else {
            self.interrupt_enable = self.interrupt_enable & !(1u8 << index);
        }
    }

    pub fn set_interrupt(&mut self, source: InterruptSources)
        ensures
            *final(self) == old(self).with_request(source),
    {
        let index = interrupt_index(source);
        self.interrupt_flag = self.interrupt_flag | (1u8 << index);
    }

    /// Acknowledges the requested and enabled source of highest priority: clears its
    /// request flag and returns it.
    pub fn get_interrupt(&mut self) -> (source: Option<InterruptSources>)
        ensures
            source == old(self).next_interrupt(),
            *final(self) == old(self).after_acknowledge(),
    {
        proof {
            lemma_source_masks();
        }
        let pending = self.interrupt_enable & self.interrupt_flag;
        let source = if pending & 0x01 != 0 {
            InterruptSources::VBLANK
        } else if pending & 0x02 != 0 {
            InterruptSources::STAT
        } else if pending & 0x04 != 0 {
            InterruptSources::TIMER
        } else if pending & 0x08 != 0 {
            InterruptSources::SERIAL
        } else if pending & 0x10 != 0 {
            InterruptSources::JOYPAD
        } else {
            return None;
        };
        let index = interrupt_index(source);
        self.interrupt_flag = self.interrupt_flag & !(1u8 << index);
        Some(source)
    }

    pub fn is_an_interrupt_to_run(&self) -> (to_run: bool)
        ensures
            to_run == (self.interrupt_master_enable && self.pending()),
    {
        if self.interrupt_master_enable {
            self.is_an_interrupt_pending()
        } else {
            false
        }
    }

    pub fn is_an_interrupt_pending(&self) -> (pending: bool)
        ensures
            pending == self.pending(),
    {
        (self.interrupt_enable & self.interrupt_flag) != 0
    }

    pub fn set_it_enable(&mut self, data: u8)
        ensures
            *final(self) == (Nvic { interrupt_enable: data, ..*old(self) }),
    {
        self.interrupt_enable = data;
    }

    /// IE as the processor reads it: the three unused bits read as 1.
    pub fn get_it_enable(&self) -> (data: u8)
        ensures
            data == 0xE0 | self.interrupt_enable,
    {
        0b11100000 | self.interrupt_enable
    }

    pub fn set_it_flag(&mut self, data: u8)
        ensures
            *final(self) == (Nvic { interrupt_flag: data, ..*old(self) }),
    {
        self.interrupt_flag = data;
    }

    /// IF as the processor reads it: the three unused bits read as 1.
    pub fn get_it_flag(&self) -> (data: u8)
        ensures
            data == 0xE0 | self.interrupt_flag,
    {
        0b11100000 | self.interrupt_flag
    }
}

/// Enabling a source sets its bit of IE and leaves the others; disabling clears it.
pub proof fn lemma_enable_interrupt_bits(ie: u8, source: InterruptSources, other: InterruptSources)
    requires
        other != source,
    ensures
        (ie | source_mask(source)) & source_mask(source) != 0,
        (ie & !source_mask(source)) & source_mask(source) == 0,
        (ie | source_mask(source)) & source_mask(other) == ie & source_mask(other),
        (ie & !source_mask(source)) & source_mask(other) == ie & source_mask(other),
{
    let i = source_index(source);
    let j = source_index(other);
    assert({
        &&& (ie | (1u8 << i)) & (1u8 << i) != 0
        &&& (ie & !(1u8 << i)) & (1u8 << i) == 0
        &&& (ie | (1u8 << i)) & (1u8 << j) == ie & (1u8 << j)
        &&& (ie & !(1u8 << i)) & (1u8 << j) == ie & (1u8 << j)
    }) by (bit_vector)
        requires
            i < 5,
            j < 5,
            i != j,
    ;
}

/// A requested source is acknowledged by `get_interrupt` unless a source of higher
/// priority is also requested; once acknowledged, it is no longer requested.
pub proof fn lemma_request_then_acknowledge(nvic: Nvic, source: InterruptSources)
    requires
        nvic.interrupt_enable & source_mask(source) != 0,
        forall|other: InterruptSources|
            source_index(other) < source_index(source) ==> !nvic.is_requested(other),
    ensures
        nvic.with_request(source).next_interrupt() == Some(source),
        !nvic.with_request(source).after_acknowledge().is_requested(source),
{
    let ie = nvic.interrupt_enable;
    let fl = nvic.interrupt_flag;
    let i = source_index(source);
    assert(ie & (fl | (1u8 << i)) & (1u8 << i) != 0) by (bit_vector)
        requires
            i < 5,
            ie & (1u8 << i) != 0,
    ;
    assert(ie & ((fl | (1u8 << i)) & !(1u8 << i)) & (1u8 << i) == 0) by (bit_vector)
        requires
            i < 5,
    ;
    assert forall|other: InterruptSources| source_index(other) < i implies !nvic.with_request(
        source,
    ).is_requested(other) by {
        let j = source_index(other);
        assert(!nvic.is_requested(other));
        assert((ie & (fl | (1u8 << i)) & (1u8 << j) != 0) == (ie & fl & (1u8 << j) != 0))
            by (bit_vector)
            requires
                i < 5,
                j < 5,
                i != j,
        ;
    }
    assert(source_index(InterruptSources::VBLANK) == 0);
    assert(source_index(InterruptSources::STAT) == 1);
    assert(source_index(InterruptSources::TIMER) == 2);
    assert(source_index(InterruptSources::SERIAL) == 3);
}

} // verus!
