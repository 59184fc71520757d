use vstd::prelude::*;

verus! {

/// Top nibble of an instruction word: the operation family.
pub open spec fn op_family(v: u16) -> u8 {
    (v >> 12) as u8
}

/// Bits 8..12 of an instruction word: the `x` register index.
pub open spec fn op_x(v: u16) -> u8 {
    ((v & 0x0f00) >> 8) as u8
}

/// Bits 4..8 of an instruction word: the `y` register index.
pub open spec fn op_y(v: u16) -> u8 {
    ((v & 0x00f0) >> 4) as u8
}

/// Low nibble of an instruction word.
pub open spec fn op_n(v: u16) -> u8 {
    (v & 0x000f) as u8
}

/// Low byte of an instruction word.
pub open spec fn op_kk(v: u16) -> u8 {
    (v & 0x00ff) as u8
}

/// Low 12 bits of an instruction word: an address.
pub open spec fn op_nnn(v: u16) -> u16 {
    v & 0x0fff
}

/// Every field of a word is in range, and the four nibbles rebuild it.
pub proof fn lemma_fields_bounded(v: u16)
    ensures
        op_family(v) < 16,
        op_x(v) < 16,
        op_y(v) < 16,
        op_n(v) < 16,
        op_nnn(v) < 0x1000,
        op_kk(v) as int == op_y(v) * 16 + op_n(v),
        op_nnn(v) as int == op_x(v) * 256 + op_y(v) * 16 + op_n(v),
        v as int == op_family(v) * 4096 + op_nnn(v),
{
    assert((v >> 12) < 16) by (bit_vector);
    assert(((v & 0x0f00) >> 8) < 16) by (bit_vector);
    assert(((v & 0x00f0) >> 4) < 16) by (bit_vector);
    assert((v & 0x000f) < 16) by (bit_vector);
    assert((v & 0x0fff) < 0x1000) by (bit_vector);
    assert((v & 0x00ff) == ((v & 0x00f0) >> 4) * 16 + (v & 0x000f)) by (bit_vector);
    assert((v & 0x0fff) == ((v & 0x0f00) >> 8) * 256 + ((v & 0x00f0) >> 4) * 16 + (v & 0x000f))
        by (bit_vector);
    assert(v == (v >> 12) * 4096 + (v & 0x0fff)) by (bit_vector);
}

/// A 16-bit instruction word with accessors for its conventional fields.
#[derive(Clone, Copy, Debug, PartialEq, Eq, Structural)]
pub struct Opcode {
    /// The raw big-endian instruction word
    pub value: u16,
}

impl Opcode {
    pub fn new(value: u16) -> (r: Self)
        ensures
            r.value == value,
    {
        Self { value }
    }

    /// The address field `nnn`
    pub fn nnn(&self) -> (r: u16)
        ensures
            r == op_nnn(self.value),
            r < 0x1000,
    {
        proof {
            lemma_fields_bounded(self.value);
        }
        self.value & 0x0fff
    }

    /// The low nibble `n`
    pub fn n(&self) -> (r: u8)
        ensures
            r == op_n(self.value),
            r < 16,
    {
        proof {
            lemma_fields_bounded(self.value);
        }
        (self.value & 0x000f) as u8
    }

    /// The register index `x`
    pub fn x(&self) -> (r: u8)
        ensures
            r == op_x(self.value),
            r < 16,
    {
        proof {
            lemma_fields_bounded(self.value);
        }
        ((self.value & 0x0f00) >> 8) as u8
    }

    /// The register index `y`
    pub fn y(&self) -> (r: u8)
        ensures
            r == op_y(self.value),
            r < 16,
    {
        proof {
            lemma_fields_bounded(self.value);
        }
        ((self.value & 0x00f0) >> 4) as u8
    }

    /// The low byte `kk`
    pub fn kk(&self) -> (r: u8)
        ensures
            r == op_kk(self.value),
    {
        (self.value & 0x00ff) as u8
    }

    /// The projection `(family, x, y, n)` that drives dispatch
    pub fn nibbles(&self) -> (r: (u8, u8, u8, u8))
        ensures
            r == (op_family(self.value), op_x(self.value), op_y(self.value), op_n(self.value)),
            r.0 < 16 && r.1 < 16 && r.2 < 16 && r.3 < 16,
    {
        proof {
            lemma_fields_bounded(self.value);
        }
        ((self.value >> 12) as u8, self.x(), self.y(), self.n())
    }
}

impl From<u16> for Opcode {
    fn from(value: u16) -> (r: Self) {
        Self { value }
    }
}

impl vstd::std_specs::convert::FromSpecImpl<u16> for Opcode {
    open spec fn obeys_from_spec() -> bool {
        true
    }

    open spec fn from_spec(value: u16) -> Self {
        Opcode { value }
    }
}

} // verus!
