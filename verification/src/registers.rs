//! Permission-typed 32-bit registers.
//!
//! A memory-mapped register admits only the operations its hardware
//! permission class allows: a [`ReadOnly`] register can be read and
//! tested, a [`WriteOnly`] register can only be written, a [`ReadWrite`]
//! register supports both plus a read-modify-write `modify` that is
//! proved to preserve every bit outside the touched fields.
//!
//! The cells here hold the register value in memory: they model the
//! peripheral's register file, and they are the driver's registers in
//! the no-hardware build. The device side of a register (what the
//! peripheral itself latched, or makes readable) is exposed through the
//! `device_*` operations, which the drivers built on this model never
//! call.

use vstd::prelude::*;

use crate::bitfield::Field;
use crate::bitfield::FieldValue;

verus! {

/// A register the processor may read and write.
pub struct ReadWrite {
    v: u32,
}

/// A register the processor may only read; its value is produced by the
/// peripheral.
pub struct ReadOnly {
    v: u32,
}

/// A register the processor may only write; reading back is the
/// peripheral's privilege.
pub struct WriteOnly {
    v: u32,
}

impl ReadWrite {
    /// The current raw value of the register.
    pub closed spec fn value(self) -> u32 {
        self.v
    }

    pub fn new(v: u32) -> (r: ReadWrite)
        ensures
            r.value() == v,
    {
        ReadWrite { v }
    }

    /// Reads the whole register.
    pub fn get(&self) -> (r: u32)
        ensures
            r == self.value(),
    {
        self.v
    }

    /// Writes the whole register.
    pub fn set(&mut self, v: u32)
        ensures
            final (self).value() == v,
    {
        self.v = v;
    }

    /// Writes the composed field value; every bit outside the named
    /// fields becomes zero, as a plain register write does.
    pub fn write(&mut self, fv: FieldValue)
        requires
            fv.wf(),
        ensures
            final (self).value() == fv.value,
    {
        self.v = fv.value;
    }

    /// Read-modify-write: replaces the bits under the field value's mask
    /// and preserves all others.
    pub fn modify(&mut self, fv: FieldValue)
        requires
            fv.wf(),
        ensures
            final (self).value() == fv.applied_to(old(self).value()),
    {
        let raw = self.v;
        self.v = fv.apply_to(raw);
    }

    /// Reads one field out of the register.
    pub fn read(&self, f: Field) -> (v: u32)
        requires
            f.wf(),
        ensures
            v == f.read_of(self.value()),
    {
        f.read(self.v)
    }

    /// True when any bit of the field is set.
    pub fn is_set(&self, f: Field) -> (b: bool)
        requires
            f.wf(),
        ensures
            b == (f.read_of(self.value()) != 0),
    {
        f.is_set(self.v)
    }
}

impl ReadOnly {
    /// The current raw value of the register.
    pub closed spec fn value(self) -> u32 {
        self.v
    }

    pub fn new(v: u32) -> (r: ReadOnly)
        ensures
            r.value() == v,
    {
        ReadOnly { v }
    }

    /// Reads the whole register.
    pub fn get(&self) -> (r: u32)
        ensures
            r == self.value(),
    {
        self.v
    }

    /// Reads one field out of the register.
    pub fn read(&self, f: Field) -> (v: u32)
        requires
            f.wf(),
        ensures
            v == f.read_of(self.value()),
    {
        f.read(self.v)
    }

    /// True when any bit of the field is set.
    pub fn is_set(&self, f: Field) -> (b: bool)
        requires
            f.wf(),
        ensures
            b == (f.read_of(self.value()) != 0),
    {
        f.is_set(self.v)
    }

    /// The peripheral's side: the device changes what the processor will
    /// read. Drivers never call this.
    pub fn device_set(&mut self, v: u32)
        ensures
            final (self).value() == v,
    {
        self.v = v;
    }
}

impl WriteOnly {
    /// The value the device last latched from a processor write.
    pub closed spec fn value(self) -> u32 {
        self.v
    }

    pub fn new(v: u32) -> (r: WriteOnly)
        ensures
            r.value() == v,
    {
        WriteOnly { v }
    }

    /// Writes the whole register.
    pub fn set(&mut self, v: u32)
        ensures
            final (self).value() == v,
    {
        self.v = v;
    }

    /// Writes the composed field value; every bit outside the named
    /// fields becomes zero, as a plain register write does.
    pub fn write(&mut self, fv: FieldValue)
        requires
            fv.wf(),
        ensures
            final (self).value() == fv.value,
    {
        self.v = fv.value;
    }

    /// The peripheral's side: what the device latched. Drivers never
    /// call this; tests and the device model observe through it.
    pub fn device_value(&self) -> (r: u32)
        ensures
            r == self.value(),
    {
        self.v
    }
}

} // verus!
