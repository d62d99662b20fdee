use vstd::prelude::*;

pub mod flags_register;

pub use flags_register::FlagsRegister;

verus! {

/// The eight-bit registers of the processor, with the flags in `f`.
pub struct Registers {
    pub a: u8,
    pub b: u8,
    pub c: u8,
    pub d: u8,
    pub e: u8,
    pub f: FlagsRegister,
    pub h: u8,
    pub l: u8,
}

/// The sixteen-bit value of a register pair: `high` is the upper byte.
pub open spec fn spec_pair(high: u8, low: u8) -> u16 {
    (256 * high + low) as u16
}

/// The upper byte of a sixteen-bit value.
pub open spec fn spec_high_byte(value: u16) -> u8 {
    (value / 256) as u8
}

/// The lower byte of a sixteen-bit value.
pub open spec fn spec_low_byte(value: u16) -> u8 {
    (value % 256) as u8
}

/// The register values at power-on.
pub open spec fn spec_power_on_registers() -> Registers {
    Registers {
        a: 0x01,
        b: 0xFF,
        c: 0x13,
        d: 0x00,
        e: 0xC1,
        f: flags_register::spec_cleared_flags(),
        h: 0x84,
        l: 0x03,
    }
}

/// Every register zero and every flag cleared.
pub open spec fn spec_zero_registers() -> Registers {
    Registers { a: 0, b: 0, c: 0, d: 0, e: 0, f: flags_register::spec_cleared_flags(), h: 0, l: 0 }
}

impl Registers {
    /// The pair BC.
    pub open spec fn spec_bc(&self) -> u16 {
        spec_pair(self.b, self.c)
    }

    /// The pair DE.
    pub open spec fn spec_de(&self) -> u16 {
        spec_pair(self.d, self.e)
    }

    /// The pair HL.
    pub open spec fn spec_hl(&self) -> u16 {
        spec_pair(self.h, self.l)
    }

    /// These registers with BC set to `value`.
    pub open spec fn with_bc(self, value: u16) -> Registers {
        Registers { b: spec_high_byte(value), c: spec_low_byte(value), ..self }
    }

    /// These registers with DE set to `value`.
    pub open spec fn with_de(self, value: u16) -> Registers {
        Registers { d: spec_high_byte(value), e: spec_low_byte(value), ..self }
    }

    /// These registers with HL set to `value`.
    pub open spec fn with_hl(self, value: u16) -> Registers {
        Registers { h: spec_high_byte(value), l: spec_low_byte(value), ..self }
    }

    /// The registers at power-on.
    pub fn new() -> (regs: Self)
        ensures
            regs == spec_power_on_registers(),
    {
        Registers {
            a: 0x01,
            b: 0xFF,
            c: 0x13,
            d: 0x00,
            e: 0xC1,
            f: FlagsRegister::new(),
            h: 0x84,
            l: 0x03,
        }
    }

    /// The pair BC, B being the upper byte.
    pub fn get_bc(&self) -> (value: u16)
        ensures
            value == self.spec_bc(),
    {
        join_bytes(self.b, self.c)
    }

    /// Sets B to the upper and C to the lower byte of `value`.
    pub fn set_bc(&mut self, value: u16)
        ensures
            *final(self) == old(self).with_bc(value),
    {
        let (high, low) = split_word(value);
        self.b = high;
        self.c = low;
    }

    /// The pair DE, D being the upper byte.
    pub fn get_de(&self) -> (value: u16)
        ensures
            value == self.spec_de(),
    {
        join_bytes(self.d, self.e)
    }

    /// Sets D to the upper and E to the lower byte of `value`.
    pub fn set_de(&mut self, value: u16)
        ensures
            *final(self) == old(self).with_de(value),
    {
        let (high, low) = split_word(value);
        self.d = high;
        self.e = low;
    }

    /// The pair HL, H being the upper byte.
    pub fn get_hl(&self) -> (value: u16)
        ensures
            value == self.spec_hl(),
    {
        join_bytes(self.h, self.l)
    }

    /// Sets H to the upper and L to the lower byte of `value`.
    pub fn set_hl(&mut self, value: u16)
        ensures
            *final(self) == old(self).with_hl(value),
    {
        let (high, low) = split_word(value);
        self.h = high;
        self.l = low;
    }
}

impl Default for Registers {
    /// Every register zero and every flag cleared.
    fn default() -> (regs: Self)
        ensures
            regs == spec_zero_registers(),
    {
        Registers { a: 0, b: 0, c: 0, d: 0, e: 0, f: FlagsRegister::new(), h: 0, l: 0 }
    }
}

fn join_bytes(high: u8, low: u8) -> (value: u16)
    ensures
        value == spec_pair(high, low),
{
    let value = (high as u16) << 8 | low as u16;
    assert(((high as u16) << 8u16 | low as u16) == 256 * high + low) by (bit_vector);
    value
}

fn split_word(value: u16) -> (bytes: (u8, u8))
    ensures
        bytes.0 == spec_high_byte(value),
        bytes.1 == spec_low_byte(value),
{
    assert((value >> 8u16) == value / 256) by (bit_vector);
    assert((value & 0x00FFu16) == value % 256) by (bit_vector);
    ((value >> 8) as u8, (value & 0x00FF) as u8)
}

/// Splitting a sixteen-bit value into its bytes and joining them again
/// gives the value back.
pub proof fn lemma_pair_of_bytes(value: u16)
    ensures
        spec_pair(spec_high_byte(value), spec_low_byte(value)) == value,
{
}

/// Joining two bytes into a pair and splitting it again gives the bytes back.
pub proof fn lemma_bytes_of_pair(high: u8, low: u8)
    ensures
        spec_high_byte(spec_pair(high, low)) == high,
        spec_low_byte(spec_pair(high, low)) == low,
{
}

/// Reading a register pair after setting it gives the value set, and
/// setting a pair to the value it holds changes nothing.
pub proof fn lemma_pair_set_get(regs: Registers, value: u16)
    ensures
        regs.with_bc(value).spec_bc() == value,
        regs.with_de(value).spec_de() == value,
        regs.with_hl(value).spec_hl() == value,
        regs.with_bc(regs.spec_bc()) == regs,
        regs.with_de(regs.spec_de()) == regs,
        regs.with_hl(regs.spec_hl()) == regs,
{
    lemma_pair_of_bytes(value);
    lemma_bytes_of_pair(regs.b, regs.c);
    lemma_bytes_of_pair(regs.d, regs.e);
    lemma_bytes_of_pair(regs.h, regs.l);
}

/// Setting a pair puts the upper byte of the value (`value / 256`) in the
/// first register and the lower byte (`value % 256`) in the second, and
/// leaves every other register and the flags alone; the pair reads back as
/// `256 * first + second`.
pub proof fn lemma_pair_bytes_in_integers(regs: Registers, value: u16)
    ensures
        regs.spec_bc() as int == 256 * regs.b + regs.c,
        regs.spec_de() as int == 256 * regs.d + regs.e,
        regs.spec_hl() as int == 256 * regs.h + regs.l,
        regs.with_bc(value).b as int == value / 256 && regs.with_bc(value).c as int == value % 256,
        regs.with_de(value).d as int == value / 256 && regs.with_de(value).e as int == value % 256,
        regs.with_hl(value).h as int == value / 256 && regs.with_hl(value).l as int == value % 256,
        ({
            let r = regs.with_bc(value);
            r.a == regs.a && r.d == regs.d && r.e == regs.e && r.h == regs.h && r.l == regs.l
                && r.f == regs.f
        }),
        ({
            let r = regs.with_de(value);
            r.a == regs.a && r.b == regs.b && r.c == regs.c && r.h == regs.h && r.l == regs.l
                && r.f == regs.f
        }),
        ({
            let r = regs.with_hl(value);
            r.a == regs.a && r.b == regs.b && r.c == regs.c && r.d == regs.d && r.e == regs.e
                && r.f == regs.f
        }),
{
}

} // verus!
