//! The values handed back to callers: status flags and the text of a word.
use vstd::prelude::*;

use crate::render::{
    binary, binary_text, decimal, decimal_text, hex_text, hexadecimal, signed_decimal,
    signed_decimal_text,
};
use crate::width::{bits, mask, negate, to_signed, CalcError, Width};

verus! {

/// The status flags of one operation.
#[derive(Debug, Clone, Copy, PartialEq, Eq, Structural)]
pub struct ResultFlags {
    pub zero: bool,
    pub negative: bool,
    pub overflow: bool,
    pub carry: bool,
    pub borrow: bool,
}

/// A flag set; borrow is always the negation of carry.
pub open spec fn flag_set(zero: bool, negative: bool, overflow: bool, carry: bool) -> ResultFlags {
    ResultFlags { zero, negative, overflow, carry, borrow: !carry }
}

impl ResultFlags {
    /// Builds a flag set; borrow is derived from carry.
    pub fn new(zero: bool, negative: bool, overflow: bool, carry: bool) -> (r: Self)
        ensures
            r == flag_set(zero, negative, overflow, carry),
    {
        Self { zero, negative, overflow, carry, borrow: !carry }
    }
}

/// The text of a result word: signed and unsigned decimal, binary and hexadecimal.
#[derive(Debug, Clone)]
pub struct ResultValue {
    pub signed: String,
    pub unsigned: String,
    pub bin: String,
    pub hex: String,
}

/// Number of hexadecimal digits of a word: `ceil(bits / 4)`.
pub open spec fn hex_digits(w: Width) -> nat {
    (bits(w) + 3) / 4
}

/// `v` holds the text of the unsigned word `u` and the signed number `s` at width `w`.
pub open spec fn renders(v: ResultValue, u: nat, s: int, w: Width) -> bool {
    &&& v.unsigned@ == decimal(u)
    &&& v.signed@ == signed_decimal(s)
    &&& v.bin@ == binary(u, bits(w))
    &&& v.hex@ == hexadecimal(u, hex_digits(w))
}

impl ResultValue {
    /// The text of a word `unsigned` and its signed reading `signed` at width `width`;
    /// binary and hexadecimal show the low `bits` bits, zero-padded.
    pub fn new(unsigned: u64, signed: i64, width: Width) -> (r: Self)
        ensures
            renders(r, unsigned as nat, signed as int, width),
    {
        let count = width.bits();
        ResultValue {
            unsigned: decimal_text(unsigned),
            signed: signed_decimal_text(signed),
            bin: binary_text(unsigned, count),
            hex: hex_text(unsigned, (count + 3) / 4),
        }
    }

    /// The text of a nibble and its signed reading.
    pub fn new4(unsigned: u8, signed: i8) -> (r: Self)
        ensures
            renders(r, unsigned as nat, signed as int, Width::W4),
    {
        Self::new(unsigned as u64, signed as i64, Width::W4)
    }

    /// A copy of this text.
    fn duplicate(&self) -> (r: Self)
        ensures
            r == *self,
    {
        ResultValue {
            signed: self.signed.clone(),
            unsigned: self.unsigned.clone(),
            bin: self.bin.clone(),
            hex: self.hex.clone(),
        }
    }

    pub fn get_signed(&self) -> (r: String)
        ensures
            r == self.signed,
    {
        self.signed.clone()
    }

    pub fn get_unsigned(&self) -> (r: String)
        ensures
            r == self.unsigned,
    {
        self.unsigned.clone()
    }

    pub fn get_bin(&self) -> (r: String)
        ensures
            r == self.bin,
    {
        self.bin.clone()
    }

    pub fn get_hex(&self) -> (r: String)
        ensures
            r == self.hex,
    {
        self.hex.clone()
    }
}

/// The outcome of an operation: its flags and the text of its result word.
#[derive(Debug)]
pub struct Results {
    pub flags: ResultFlags,
    pub values: ResultValue,
}

impl Results {
    pub fn new(flags: ResultFlags, values: ResultValue) -> (r: Self)
        ensures
            r.flags == flags,
            r.values == values,
    {
        Self { flags, values }
    }

    pub fn get_flags(&self) -> (r: ResultFlags)
        ensures
            r == self.flags,
    {
        self.flags
    }

    pub fn get_value(&self) -> (r: ResultValue)
        ensures
            r == self.values,
    {
        self.values.duplicate()
    }
}

/// The text of a single word together with the binary text of its two's complement.
#[derive(Debug, Clone)]
pub struct FormattedValue {
    pub signed: String,
    pub unsigned: String,
    pub bin: String,
    pub com: String,
    pub hex: String,
}

/// `f` holds the text of `u`, `s` and the complement word `c` at width `w`.
pub open spec fn formats(f: FormattedValue, u: nat, s: int, c: nat, w: Width) -> bool {
    &&& f.unsigned@ == decimal(u)
    &&& f.signed@ == signed_decimal(s)
    &&& f.bin@ == binary(u, bits(w))
    &&& f.hex@ == hexadecimal(u, hex_digits(w))
    &&& f.com@ == binary(c, bits(w))
}

impl FormattedValue {
    /// The text of a word, its signed reading and a complement word at width `width`.
    pub fn new(unsigned: u64, signed: i64, complement: u64, width: Width) -> (r: Self)
        ensures
            formats(r, unsigned as nat, signed as int, complement as nat, width),
    {
        let res = ResultValue::new(unsigned, signed, width);
        FormattedValue {
            signed: res.signed,
            unsigned: res.unsigned,
            bin: res.bin,
            hex: res.hex,
            com: binary_text(complement, width.bits()),
        }
    }

    /// The same for a nibble.
    pub fn new4(unsigned: u8, signed: i8, complement: u8) -> (r: Self)
        ensures
            formats(r, unsigned as nat, signed as int, complement as nat, Width::W4),
    {
        Self::new(unsigned as u64, signed as i64, complement as u64, Width::W4)
    }

    pub fn get_signed(&self) -> (r: String)
        ensures
            r == self.signed,
    {
        self.signed.clone()
    }

    pub fn get_unsigned(&self) -> (r: String)
        ensures
            r == self.unsigned,
    {
        self.unsigned.clone()
    }

    pub fn get_bin(&self) -> (r: String)
        ensures
            r == self.bin,
    {
        self.bin.clone()
    }

    pub fn get_com(&self) -> (r: String)
        ensures
            r == self.com,
    {
        self.com.clone()
    }

    pub fn get_hex(&self) -> (r: String)
        ensures
            r == self.hex,
    {
        self.hex.clone()
    }
}

/// Shows a single value at a width: its text and the binary text of `mask(~value + 1)`.
pub fn format(value: i32, of: i32) -> (r: Result<FormattedValue, CalcError>)
    ensures
        match crate::width::width_of_tag(of) {
            None => r == Err::<FormattedValue, CalcError>(CalcError::UnsupportedWidth),
            Some(w) => r matches Ok(f) && formats(
                f,
                mask(value, w),
                to_signed(mask(value, w), w),
                negate(mask(value, w), w),
                w,
            ),
        },
{
    let w = match Width::from_tag(of) {
        Ok(w) => w,
        Err(e) => return Err(e),
    };
    let u = w.mask(value);
    let signed = w.to_signed(u);
    let complement = w.truncate(w.modulus() - u);
    Ok(FormattedValue::new(u, signed, complement, w))
}

} // verus!
