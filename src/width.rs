//! Word widths, masking and the two's-complement reading of a bit pattern.
use vstd::prelude::*;

verus! {

/// The only failure a calculation can report.
#[derive(Debug, Clone, Copy, PartialEq, Eq, Structural)]
pub enum CalcError {
    /// The width tag was not one of 4, 8, 16 or 32.
    UnsupportedWidth,
}

/// One of the four supported word sizes.
#[derive(Debug, Clone, Copy, PartialEq, Eq, Structural)]
pub enum Width {
    W4,
    W8,
    W16,
    W32,
}

/// Number of bits in a word of width `w`.
pub open spec fn bits(w: Width) -> nat {
    match w {
        Width::W4 => 4,
        Width::W8 => 8,
        Width::W16 => 16,
        Width::W32 => 32,
    }
}

/// `2^bits`: the number of distinct words of width `w`.
pub open spec fn modulus(w: Width) -> nat {
    match w {
        Width::W4 => 0x10,
        Width::W8 => 0x100,
        Width::W16 => 0x1_0000,
        Width::W32 => 0x1_0000_0000,
    }
}

/// `2^bits - 1`: all bits of the word set.
pub open spec fn value_mask(w: Width) -> u64 {
    (modulus(w) - 1) as u64
}

/// `2^(bits-1)`: the weight of the sign bit.
pub open spec fn sign_bit(w: Width) -> nat {
    modulus(w) / 2
}

/// Largest signed value, `2^(bits-1) - 1`.
pub open spec fn max_signed(w: Width) -> int {
    sign_bit(w) - 1
}

/// Smallest signed value, `-2^(bits-1)`.
pub open spec fn min_signed(w: Width) -> int {
    -(sign_bit(w) as int)
}

/// The width named by a raw tag, if it is one of the supported ones.
pub open spec fn width_of_tag(of: i32) -> Option<Width> {
    if of == 4 {
        Some(Width::W4)
    } else if of == 8 {
        Some(Width::W8)
    } else if of == 16 {
        Some(Width::W16)
    } else if of == 32 {
        Some(Width::W32)
    } else {
        None
    }
}

/// The 32-bit pattern of `x`, read as an unsigned number.
pub open spec fn raw(x: i32) -> nat {
    if x >= 0 {
        x as nat
    } else {
        (x + 0x1_0000_0000) as nat
    }
}

/// `x & valueMask`: the low `bits` bits of the pattern of `x`.
pub open spec fn mask(x: i32, w: Width) -> nat {
    raw(x) % modulus(w)
}

/// Whether the sign bit of the word `u` is set.
pub open spec fn sign_of(u: nat, w: Width) -> bool {
    u % modulus(w) >= sign_bit(w)
}

/// Bit `i` of `u`.
pub open spec fn bit(u: nat, i: nat) -> bool {
    (u / vstd::arithmetic::power2::pow2(i)) % 2 == 1
}

/// The two's-complement reading of the word `u`.
pub open spec fn to_signed(u: nat, w: Width) -> int {
    if u <= max_signed(w) {
        u as int
    } else {
        u - modulus(w)
    }
}

/// `mask(~x + 1, w)` for a word already reduced to the width: its two's-complement negation.
pub open spec fn negate(u: nat, w: Width) -> nat {
    ((modulus(w) - u) as nat) % modulus(w)
}

/// The four masks agree with reduction modulo the matching power of two.
pub proof fn lemma_mask_is_mod(x: u64)
    ensures
        x & 0xF == x % 0x10,
        x & 0xFF == x % 0x100,
        x & 0xFFFF == x % 0x1_0000,
        x & 0xFFFF_FFFF == x % 0x1_0000_0000,
{
    assert(x & 0xF == x % 0x10) by (bit_vector);
    assert(x & 0xFF == x % 0x100) by (bit_vector);
    assert(x & 0xFFFF == x % 0x1_0000) by (bit_vector);
    assert(x & 0xFFFF_FFFF == x % 0x1_0000_0000) by (bit_vector);
}

impl Width {
    /// Looks up the width named by `of`.
    pub fn from_tag(of: i32) -> (r: Result<Width, CalcError>)
        ensures
            match width_of_tag(of) {
                Some(w) => r == Ok::<Width, CalcError>(w),
                None => r == Err::<Width, CalcError>(CalcError::UnsupportedWidth),
            },
    {
        if of == 4 {
            Ok(Width::W4)
        } else if of == 8 {
            Ok(Width::W8)
        } else if of == 16 {
            Ok(Width::W16)
        } else if of == 32 {
            Ok(Width::W32)
        } else {
            Err(CalcError::UnsupportedWidth)
        }
    }

    /// Number of bits in a word.
    pub fn bits(&self) -> (r: u32)
        ensures
            r == bits(*self),
    {
        match self {
            Width::W4 => 4,
            Width::W8 => 8,
            Width::W16 => 16,
            Width::W32 => 32,
        }
    }

    /// `2^bits`.
    pub fn modulus(&self) -> (r: u64)
        ensures
            r == modulus(*self),
    {
        match self {
            Width::W4 => 0x10,
            Width::W8 => 0x100,
            Width::W16 => 0x1_0000,
            Width::W32 => 0x1_0000_0000,
        }
    }

    /// `2^bits - 1`.
    pub fn value_mask(&self) -> (r: u64)
        ensures
            r == value_mask(*self),
    {
        self.modulus() - 1
    }

    /// `2^(bits-1)`.
    pub fn sign_bit(&self) -> (r: u64)
        ensures
            r == sign_bit(*self),
    {
        self.modulus() / 2
    }

    /// Reduces `x` to the width: `x & valueMask`, taken on the 32-bit pattern.
    pub fn mask(&self, x: i32) -> (r: u64)
        ensures
            r == mask(x, *self),
            r < modulus(*self),
    {
        let pattern: u64 = if x >= 0 {
            x as u64
        } else {
            (x as i64 + 0x1_0000_0000) as u64
        };
        proof {
            lemma_mask_is_mod(pattern);
        }
        pattern & self.value_mask()
    }

    /// Reduces a wider word to the width.
    pub fn truncate(&self, v: u64) -> (r: u64)
        ensures
            r == (v as nat) % modulus(*self),
            r == v & value_mask(*self),
    {
        proof {
            lemma_mask_is_mod(v);
        }
        v & self.value_mask()
    }

    /// Whether the sign bit of the word `u` is set.
    pub fn sign_of(&self, u: u64) -> (r: bool)
        requires
            u < modulus(*self),
        ensures
            r == sign_of(u as nat, *self),
    {
        u >= self.sign_bit()
    }

    /// The two's-complement reading of the word `u`.
    pub fn to_signed(&self, u: u64) -> (r: i64)
        requires
            u < modulus(*self),
        ensures
            r == to_signed(u as nat, *self),
    {
        if u < self.sign_bit() {
            u as i64
        } else {
            u as i64 - self.modulus() as i64
        }
    }
}

} // verus!
