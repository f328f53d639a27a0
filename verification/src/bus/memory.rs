use vstd::prelude::*;

verus! {

/// Little-endian half-word made of two bytes.
pub open spec fn le16(b0: u8, b1: u8) -> u16 {
    ((b0 as u16) | ((b1 as u16) << 8u16)) as u16
}

/// Little-endian word made of four bytes.
pub open spec fn le32(b0: u8, b1: u8, b2: u8, b3: u8) -> u32 {
    ((b0 as u32) | ((b1 as u32) << 8u32) | ((b2 as u32) << 16u32) | ((b3 as u32) << 24u32)) as u32
}

/// A byte-addressed memory or device. Half-word and word accesses are
/// little-endian sequences of byte accesses at consecutive addresses
/// (wrapping at the top of the address space).
pub trait Bus: View + Sized {
    /// The byte that a read at `address` returns in state `v`.
    spec fn spec_read_byte(v: Self::V, address: u32) -> u8;

    /// The state after writing `value` at `address` in state `v`.
    spec fn spec_write_byte(v: Self::V, address: u32, value: u8) -> Self::V;

    fn read_byte(&self, address: u32) -> (r: u8)
        ensures
            r == Self::spec_read_byte(self@, address),
    ;

    fn write_byte(&mut self, address: u32, value: u8)
        ensures
            final(self)@ == Self::spec_write_byte(old(self)@, address, value),
    ;

}

pub open spec fn spec_read_hword<B: Bus>(v: B::V, address: u32) -> u16 {
    le16(B::spec_read_byte(v, address), B::spec_read_byte(v, address.wrapping_add(1)))
}

pub open spec fn spec_read_word<B: Bus>(v: B::V, address: u32) -> u32 {
    le32(
        B::spec_read_byte(v, address),
        B::spec_read_byte(v, address.wrapping_add(1)),
        B::spec_read_byte(v, address.wrapping_add(2)),
        B::spec_read_byte(v, address.wrapping_add(3)),
    )
}

pub open spec fn spec_write_hword<B: Bus>(v: B::V, address: u32, value: u16) -> B::V {
    let v1 = B::spec_write_byte(v, address, (value & 0xFF) as u8);
    B::spec_write_byte(v1, address.wrapping_add(1), (value >> 8u16) as u8)
}

pub open spec fn spec_write_word<B: Bus>(v: B::V, address: u32, value: u32) -> B::V {
    let v1 = B::spec_write_byte(v, address, (value & 0xFF) as u8);
    let v2 = B::spec_write_byte(v1, address.wrapping_add(1), ((value >> 8u32) & 0xFF) as u8);
    let v3 = B::spec_write_byte(v2, address.wrapping_add(2), ((value >> 16u32) & 0xFF) as u8);
    B::spec_write_byte(v3, address.wrapping_add(3), ((value >> 24u32) & 0xFF) as u8)
}

pub fn read_hword<B: Bus>(bus: &B, address: u32) -> (r: u16)
    ensures
        r == spec_read_hword::<B>(bus@, address),
{
    let b1 = bus.read_byte(address);
    let b2 = bus.read_byte(address.wrapping_add(1));
    (b1 as u16) | ((b2 as u16) << 8u16)
}

pub fn write_hword<B: Bus>(bus: &mut B, address: u32, value: u16)
    ensures
        final(bus)@ == spec_write_hword::<B>(old(bus)@, address, value),
{
    bus.write_byte(address, (value & 0xFF) as u8);
    bus.write_byte(address.wrapping_add(1), (value >> 8u16) as u8);
}

pub fn read_word<B: Bus>(bus: &B, address: u32) -> (r: u32)
    ensures
        r == spec_read_word::<B>(bus@, address),
{
    let b1 = bus.read_byte(address);
    let b2 = bus.read_byte(address.wrapping_add(1));
    let b3 = bus.read_byte(address.wrapping_add(2));
    let b4 = bus.read_byte(address.wrapping_add(3));
    (b1 as u32) | ((b2 as u32) << 8u32) | ((b3 as u32) << 16u32) | ((b4 as u32) << 24u32)
}

pub fn write_word<B: Bus>(bus: &mut B, address: u32, value: u32)
    ensures
        final(bus)@ == spec_write_word::<B>(old(bus)@, address, value),
{
    proof {
        crate::utils::bits::lemma_and_le(value, 0xFF);
        crate::utils::bits::lemma_and_le(value >> 8u32, 0xFF);
        crate::utils::bits::lemma_and_le(value >> 16u32, 0xFF);
        crate::utils::bits::lemma_and_le(value >> 24u32, 0xFF);
    }
    let b0 = (value & 0xFF) as u8;
    let b1 = ((value >> 8u32) & 0xFF) as u8;
    let b2 = ((value >> 16u32) & 0xFF) as u8;
    let b3 = ((value >> 24u32) & 0xFF) as u8;
    bus.write_byte(address, b0);
    bus.write_byte(address.wrapping_add(1), b1);
    bus.write_byte(address.wrapping_add(2), b2);
    bus.write_byte(address.wrapping_add(3), b3);
}

/// Flat memory: address `a` holds byte `a`; reads past the end give 0 and
/// writes past the end are dropped.
pub struct Ram {
    pub bytes: Vec<u8>,
}

impl View for Ram {
    type V = Seq<u8>;

    open spec fn view(&self) -> Seq<u8> {
        self.bytes@
    }
}

impl Ram {
    /// A memory of `size` zero bytes.
    pub fn new(size: usize) -> (r: Ram)
        ensures
            r@ == Seq::new(size as nat, |i: int| 0u8),
    {
        let bytes = vec![0u8; size];
        assert(bytes@ =~= Seq::new(size as nat, |i: int| 0u8));
        Ram { bytes }
    }
}

impl Bus for Ram {
    open spec fn spec_read_byte(v: Seq<u8>, address: u32) -> u8 {
        if (address as int) < v.len() {
            v[address as int]
        } else {
            0
        }
    }

    open spec fn spec_write_byte(v: Seq<u8>, address: u32, value: u8) -> Seq<u8> {
        if (address as int) < v.len() {
            v.update(address as int, value)
        } else {
            v
        }
    }

    fn read_byte(&self, address: u32) -> (r: u8) {
        let a = address as usize;
        if a < self.bytes.len() {
            self.bytes[a]
        } else {
            0
        }
    }

    fn write_byte(&mut self, address: u32, value: u8) {
        let a = address as usize;
        if a < self.bytes.len() {
            self.bytes.set(a, value);
        }
    }
}

/// A 16-bit register seen as two bytes, low byte at even addresses.
impl Bus for u16 {
    open spec fn spec_read_byte(v: u16, address: u32) -> u8 {
        if address % 2 == 0 {
            (v & 0xFF) as u8
        } else {
            (v >> 8u16) as u8
        }
    }

    open spec fn spec_write_byte(v: u16, address: u32, value: u8) -> u16 {
        if address % 2 == 0 {
            (v & 0xFF00) | (value as u16)
        } else {
            (v & 0x00FF) | ((value as u16) << 8u16)
        }
    }

    fn read_byte(&self, address: u32) -> (r: u8) {
        if address % 2 == 0 {
            (*self & 0xFF) as u8
        } else {
            (*self >> 8u16) as u8
        }
    }

    fn write_byte(&mut self, address: u32, value: u8) {
        if address % 2 == 0 {
            *self = (*self & 0xFF00) | (value as u16);
        } else {
            *self = (*self & 0x00FF) | ((value as u16) << 8u16);
        }
    }
}

/// A 32-bit register seen as four bytes, least significant first.
impl Bus for u32 {
    open spec fn spec_read_byte(v: u32, address: u32) -> u8 {
        let sh = ((address % 4) * 8) as u32;
        ((v >> sh) & 0xFF) as u8
    }

    open spec fn spec_write_byte(v: u32, address: u32, value: u8) -> u32 {
        let sh = ((address % 4) * 8) as u32;
        (v & !(0xFFu32 << sh)) | ((value as u32) << sh)
    }

    fn read_byte(&self, address: u32) -> (r: u8) {
        ((*self >> ((address % 4) * 8)) & 0xFF) as u8
    }

    fn write_byte(&mut self, address: u32, value: u8) {
        let sh = (address % 4) * 8;
        *self = (*self & !(0xFFu32 << sh)) | ((value as u32) << sh);
    }
}

/// Reading a byte of a 16-bit register gives back the byte last written
/// there, and writing one byte leaves the other as it was.
pub proof fn lemma_hword_register_read_write(v: u16, a: u32, b: u32, value: u8)
    ensures
        <u16 as Bus>::spec_read_byte(<u16 as Bus>::spec_write_byte(v, a, value), b) == if a % 2
            == b % 2 {
            value
        } else {
            <u16 as Bus>::spec_read_byte(v, b)
        },
{
    let w = <u16 as Bus>::spec_write_byte(v, a, value);
    assert(((v & 0xFF00) | (value as u16)) & 0xFF == value as u16) by (bit_vector);
    assert((((v & 0xFF00) | (value as u16)) >> 8u16) == v >> 8u16) by (bit_vector);
    assert(((v & 0x00FF) | ((value as u16) << 8u16)) & 0xFF == v & 0xFF) by (bit_vector);
    assert((((v & 0x00FF) | ((value as u16) << 8u16)) >> 8u16) == value as u16) by (bit_vector);
}

/// Reading a byte of a 32-bit register gives back the byte last written
/// there, and writing one byte leaves the others as they were.
pub proof fn lemma_word_register_read_write(v: u32, a: u32, b: u32, value: u8)
    ensures
        <u32 as Bus>::spec_read_byte(<u32 as Bus>::spec_write_byte(v, a, value), b) == if a % 4
            == b % 4 {
            value
        } else {
            <u32 as Bus>::spec_read_byte(v, b)
        },
{
    let sa = ((a % 4) * 8) as u32;
    let sb = ((b % 4) * 8) as u32;
    let x = value;
    assert(((((v & !(0xFFu32 << sa)) | ((x as u32) << sa)) >> sb) & 0xFF) == (if sa == sb {
        x as u32
    } else {
        (v >> sb) & 0xFF
    })) by (bit_vector)
        requires
            sa == 0 || sa == 8 || sa == 16 || sa == 24,
            sb == 0 || sb == 8 || sb == 16 || sb == 24,
    ;
}

} // verus!
