//! The closed set of array type tags this core works with, and the precision
//! validator for raw decimal values.
use vstd::prelude::*;
use vstd::string::StringExecFns;
use crate::digits::{
    pow10, fits_precision, pow10_i128, spec_dec_digits, spec_int_string, push_usize_string,
    push_i128_string, lemma_pow10_pos, lemma_pow10_increases, lemma_pow10_38,
};
use crate::error::ArrowError;

verus! {

/// Largest precision a decimal value may carry: 38 decimal digits.
pub const DECIMAL_MAX_PRECISION: usize = 38;

/// Largest scale a decimal value may carry.
pub const DECIMAL_MAX_SCALE: usize = 38;

/// Scale assigned when an array is built without an explicit type.
pub const DECIMAL_DEFAULT_SCALE: usize = 10;

/// A field of a nested type: a name, an element type, and nullability.
#[derive(Debug, PartialEq)]
pub struct Field {
    name: String,
    data_type: DataType,
    nullable: bool,
}

impl Field {
    pub closed spec fn spec_name(&self) -> Seq<char> {
        self.name@
    }

    pub closed spec fn spec_data_type(&self) -> DataType {
        self.data_type
    }

    pub closed spec fn spec_nullable(&self) -> bool {
        self.nullable
    }

    pub fn new(name: &str, data_type: DataType, nullable: bool) -> (r: Field)
        ensures
            r.spec_name() == name@,
            r.spec_data_type() == data_type,
            r.spec_nullable() == nullable,
    {
        Field { name: name.to_owned(), data_type, nullable }
    }
}

/// The type tag of an array: the decimal tag carries (precision, scale); a
/// fixed-size list carries its element field and element count.
#[derive(Debug, PartialEq)]
pub enum DataType {
    Decimal(usize, usize),
    UInt8,
    FixedSizeList(Box<Field>, i32),
}

/// The message reported when a value has more digits than a precision allows.
pub open spec fn spec_msg_value_too_large(v: int, p: nat) -> Seq<char> {
    spec_int_string(v) + " is too large to store in a Decimal of precision "@ + spec_dec_digits(p)
        + ". Max is "@ + spec_int_string(pow10(p) - 1)
}

/// The message reported when a negative value falls below what a precision allows.
pub open spec fn spec_msg_value_too_small(v: int, p: nat) -> Seq<char> {
    spec_int_string(v) + " is too small to store in a Decimal of precision "@ + spec_dec_digits(p)
        + ". Min is "@ + spec_int_string(-(pow10(p) - 1))
}

/// Confirms that `value` has at most `precision` decimal digits, reporting the
/// violated bound otherwise: positive overflow names the max, negative the
/// min. A precision outside 1..=38 is a caller bug and stays excluded.
pub fn validate_decimal_precision(value: i128, precision: usize) -> (r: Result<(), ArrowError>)
    requires
        1 <= precision,
        precision <= DECIMAL_MAX_PRECISION,
    ensures
        r is Ok <==> fits_precision(value as int, precision as nat),
        !fits_precision(value as int, precision as nat) && value > 0 ==> (r matches Err(e)
            && e.spec_message() == spec_msg_value_too_large(value as int, precision as nat)),
        !fits_precision(value as int, precision as nat) && value < 0 ==> (r matches Err(e)
            && e.spec_message() == spec_msg_value_too_small(value as int, precision as nat)),
{
    proof {
        lemma_pow10_pos(precision as nat);
        lemma_pow10_increases(precision as nat, 38);
        lemma_pow10_38();
    }
    let max = pow10_i128(precision) - 1;
    if value > max {
        let mut m = String::new();
        push_i128_string(&mut m, value);
        m.append(" is too large to store in a Decimal of precision ");
        push_usize_string(&mut m, precision);
        m.append(". Max is ");
        push_i128_string(&mut m, max);
        assert(m@ =~= spec_msg_value_too_large(value as int, precision as nat));
        Err(ArrowError::InvalidArgumentError(m))
    } else if value < -max {
        let mut m = String::new();
        push_i128_string(&mut m, value);
        m.append(" is too small to store in a Decimal of precision ");
        push_usize_string(&mut m, precision);
        m.append(". Min is ");
        push_i128_string(&mut m, -max);
        assert(m@ =~= spec_msg_value_too_small(value as int, precision as nat));
        Err(ArrowError::InvalidArgumentError(m))
    } else {
        Ok(())
    }
}

} // verus!
