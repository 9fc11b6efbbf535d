//! CPU control and translation-register primitives.
//!
//! The architecture instructions themselves (barriers, `mrs`/`msr`,
//! wait-for-event, cache invalidation) are privileged and cannot run in
//! verified code; the kernel's unverified shell issues them and passes
//! the raw values through the functions here, which carry all the logic:
//! bit extraction, the spin loops, the debug handshake flag, and the
//! typed view of the translation system registers.

use vstd::prelude::*;

verus! {

/// An address in the physical naming space. Never interchangeable with
/// a [`VirtualAddress`]: conversion exists only through the translation
/// tables the kernel builds elsewhere.
#[derive(Clone, Copy, PartialEq, Eq, Structural)]
pub struct PhysicalAddress {
    pub addr: u64,
}

/// An address in the virtual naming space.
#[derive(Clone, Copy, PartialEq, Eq, Structural)]
pub struct VirtualAddress {
    pub addr: u64,
}

impl PhysicalAddress {
    pub fn new(addr: u64) -> (a: PhysicalAddress)
        ensures
            a.addr == addr,
    {
        PhysicalAddress { addr }
    }

    pub fn value(&self) -> (v: u64)
        ensures
            v == self.addr,
    {
        self.addr
    }
}

impl VirtualAddress {
    pub fn new(addr: u64) -> (a: VirtualAddress)
        ensures
            a.addr == addr,
    {
        VirtualAddress { addr }
    }

    pub fn value(&self) -> (v: u64)
        ensures
            v == self.addr,
    {
        self.addr
    }
}

/// Extracts the core index from a raw multiprocessor-affinity register
/// value: the low two bits name the core on this platform.
pub fn core_id_from_affinity(raw: u64) -> (id: u64)
    ensures
        id == raw & 0x3,
        id < 4,
{
    proof {
        assert(raw & 0x3 < 4) by (bit_vector);
    }
    raw & 0x3
}

/// Extracts the exception level from a raw current-exception-level
/// register value: the level sits in bits 3:2.
pub fn exception_level_from_raw(raw: u32) -> (el: u32)
    ensures
        el == (raw >> 2) & 0x3,
        el < 4,
{
    proof {
        assert((raw >> 2) & 0x3 < 4) by (bit_vector);
    }
    (raw >> 2) & 0x3
}

/// Executes a fixed number of no-op rounds, satisfying hardware-mandated
/// settling times. Not calibrated to wall-clock time: the caller must
/// know the cycle-to-time ratio of the target clock.
pub fn loop_delay(rounds: u32) {
    let mut i: u32 = 0;
    while i < rounds
        invariant
            i <= rounds,
        decreases rounds - i,
    {
        i = i + 1;
    }
}

/// Repeatedly evaluates the predicate until it returns true; returns as
/// soon as that first happens, and never evaluates it again afterward.
/// Polling-mode waits have no timeout in this core, so a verified
/// caller must show that the predicate cannot come back false: with the
/// registers this core models, a status bit that is set stays set, and
/// that is the one way a spin is known to finish.
pub fn loop_until<F: Fn() -> bool>(f: F)
    requires
        call_requires(f, ()),
        forall|b: bool| call_ensures(f, (), b) ==> b,
    ensures
        call_ensures(f, (), true),
{
    loop
        invariant
            call_requires(f, ()),
            forall|b: bool| call_ensures(f, (), b) ==> b,
        ensures
            call_ensures(f, (), true),
        decreases 0int,
    {
        if f() {
            break ;
        }
    }
}

/// The process-wide debugger-synchronization flag: true at startup,
/// cleared by an external debugger, re-armed by the waiting routine
/// itself after each completed wait.
pub struct DebugSyncFlag {
    raised: bool,
}

impl DebugSyncFlag {
    pub closed spec fn is_raised(self) -> bool {
        self.raised
    }

    /// The flag starts raised, so the first wait blocks.
    pub fn new() -> (f: DebugSyncFlag)
        ensures
            f.is_raised(),
    {
        DebugSyncFlag { raised: true }
    }

    /// The external debugger's action: clearing the flag releases the
    /// waiting core.
    pub fn debugger_clear(&mut self)
        ensures
            !final (self).is_raised(),
    {
        self.raised = false;
    }

    /// An ordered read of the flag.
    pub fn is_set(&self) -> (b: bool)
        ensures
            b == self.is_raised(),
    {
        self.raised
    }

    fn rearm(&mut self)
        ensures
            final (self).is_raised(),
    {
        self.raised = true;
    }
}

/// Waits for a debugger to attach: spins while the flag is raised and
/// returns only once it has been cleared externally; on return the flag
/// is raised again, so the next wait blocks anew. A wait entered while
/// the flag is still raised never returns without debugger action,
/// which no verified caller can supply; hence the precondition.
pub fn jtag_dbg_wait(flag: &mut DebugSyncFlag)
    requires
        !old(flag).is_raised(),
    ensures
        final (flag).is_raised(),
{
    while flag.is_set()
        invariant
            !flag.is_raised(),
        decreases 0int,
    {
    }
    flag.rearm();
}

/// The three system registers configuring virtual-to-physical address
/// translation, as the values the kernel's shell read from, or is about
/// to load into, the hardware. Each accessor touches exactly its named
/// register and nothing else.
pub struct TranslationRegisters {
    ttbr0: u64,
    tcr: u64,
    mair: u64,
}

impl TranslationRegisters {
    /// Physical address of the root translation table.
    pub closed spec fn ttbr0(self) -> u64 {
        self.ttbr0
    }

    /// Raw translation-control value; opaque here, interpreted by the
    /// paging-policy layer.
    pub closed spec fn tcr(self) -> u64 {
        self.tcr
    }

    /// Raw memory-attribute table value; opaque here.
    pub closed spec fn mair(self) -> u64 {
        self.mair
    }

    pub fn new(ttbr0: u64, tcr: u64, mair: u64) -> (r: TranslationRegisters)
        ensures
            r.ttbr0() == ttbr0,
            r.tcr() == tcr,
            r.mair() == mair,
    {
        TranslationRegisters { ttbr0, tcr, mair }
    }

    /// Reads the translation table base as a physical address.
    pub fn read_translation_table_base(&self) -> (base: PhysicalAddress)
        ensures
            base.addr == self.ttbr0(),
    {
        PhysicalAddress { addr: self.ttbr0 }
    }

    /// Reads the raw translation-control value.
    pub fn read_translation_control(&self) -> (tcr: u64)
        ensures
            tcr == self.tcr(),
    {
        self.tcr
    }

    /// Reads the raw memory-attribute table value.
    pub fn read_mair(&self) -> (mair: u64)
        ensures
            mair == self.mair(),
    {
        self.mair
    }

    /// Loads a new translation table base; the control and attribute
    /// registers are untouched, as the hardware instruction has no side
    /// effect beyond the named register.
    pub fn write_translation_table_base(&mut self, base: PhysicalAddress)
        ensures
            final (self).ttbr0() == base.addr,
            final (self).tcr() == old(self).tcr(),
            final (self).mair() == old(self).mair(),
    {
        self.ttbr0 = base.addr;
    }
}

} // verus!
