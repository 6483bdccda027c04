//! The decimal array: a typed, zero-copy view over generic array metadata in
//! which every element is a 16-byte little-endian signed 128-bit integer,
//! logically scaled by a shared (precision, scale) pair.
use vstd::prelude::*;
use vstd::string::StringExecFns;
use crate::array_data::{ArrayData, FixedSizeListArray};
use crate::bitmap::{bit_at, get_bit, BooleanBufferBuilder};
use crate::buffer::Buffer;
use crate::bytes128::{decode_i128, read_i128_le, write_i128_le, lemma_decode_i128_in_range};
use crate::datatypes::{
    validate_decimal_precision, spec_msg_value_too_large, spec_msg_value_too_small, DataType,
    DECIMAL_DEFAULT_SCALE, DECIMAL_MAX_PRECISION, DECIMAL_MAX_SCALE,
};
use crate::digits::{
    fits_precision, render_decimal, spec_dec_digits, spec_decimal_string, push_usize_string,
};
use crate::error::ArrowError;

verus! {

/// One decoded 128-bit signed integer together with the (precision, scale)
/// pair it was extracted under, carried for display.
#[derive(Debug)]
pub struct Decimal128 {
    pub precision: usize,
    pub scale: usize,
    pub value: i128,
}

impl Decimal128 {
    pub open spec fn spec_value(&self) -> i128 {
        self.value
    }

    pub fn new_from_i128(precision: usize, scale: usize, value: i128) -> (r: Self)
        ensures
            r.precision == precision,
            r.scale == scale,
            r.spec_value() == value,
    {
        Decimal128 { precision, scale, value }
    }

    pub fn as_i128(&self) -> (r: i128)
        ensures
            r == self.spec_value(),
    {
        self.value
    }

    /// Renders the value with exactly `scale` digits after the point.
    pub fn as_string(&self) -> (r: String)
        ensures
            r@ == spec_decimal_string(self.spec_value() as int, self.scale as nat),
    {
        render_decimal(self.value, self.scale)
    }
}

/// Stores fixed-width decimal numbers with a fixed precision and scale.
#[derive(Debug)]
pub struct DecimalArray {
    pub data: ArrayData,
    pub precision: usize,
    pub scale: usize,
}

impl DecimalArray {
    /// The number of logical elements.
    pub open spec fn spec_len(&self) -> nat {
        self.data.len as nat
    }

    /// The single value buffer's bytes.
    pub open spec fn value_buffer(&self) -> Seq<u8> {
        self.data.buffers[0]@
    }

    /// Whether slot `i` holds a value: its validity bit is set, or there is no
    /// bitmap at all.
    pub open spec fn spec_is_valid(&self, i: int) -> bool {
        match self.data.null_bitmap {
            Some(b) => bit_at(b@, self.data.offset + i),
            None => true,
        }
    }

    /// The raw signed value stored in the 16 bytes of slot `i`.
    pub open spec fn spec_value_at(&self, i: int) -> int {
        decode_i128(
            self.value_buffer().subrange(
                16 * (self.data.offset + i),
                16 * (self.data.offset + i) + 16,
            ),
        )
    }

    /// The logical contents: one `Option` per slot, in order.
    pub open spec fn spec_logical(&self) -> Seq<Option<i128>> {
        Seq::new(
            self.spec_len(),
            |i: int|
                if self.spec_is_valid(i) {
                    Some(self.spec_value_at(i) as i128)
                } else {
                    None
                },
        )
    }

    /// The structural invariant: one value buffer, a type tag that agrees
    /// with the cached (precision, scale), a precision between 1 and the
    /// maximum with the scale within it, and buffers large enough for every
    /// addressed slot.
    pub open spec fn well_formed(&self) -> bool {
        &&& self.data.buffers@.len() == 1
        &&& self.data.data_type == DataType::Decimal(self.precision, self.scale)
        &&& 1 <= self.precision
        &&& self.precision <= DECIMAL_MAX_PRECISION
        &&& self.scale <= self.precision
        &&& 16 * (self.data.offset + self.data.len) <= usize::MAX
        &&& self.value_buffer().len() >= 16 * (self.data.offset + self.data.len)
        &&& match self.data.null_bitmap {
            Some(b) => 8 * b@.len() >= self.data.offset + self.data.len,
            None => true,
        }
    }

    /// Wraps metadata already tagged as decimal. The tag must be a decimal
    /// kind within bounds, there must be exactly one value buffer, and both
    /// the buffer and the bitmap must cover every addressed slot.
    pub fn from(data: ArrayData) -> (r: Self)
        requires
            data.buffers@.len() == 1,
            data.data_type matches DataType::Decimal(p, s) && 1 <= p && p
                <= DECIMAL_MAX_PRECISION && s <= p,
            16 * (data.offset + data.len) <= usize::MAX,
            data.buffers[0]@.len() >= 16 * (data.offset + data.len),
            data.null_bitmap matches Some(b) ==> 8 * b@.len() >= data.offset + data.len,
        ensures
            r.data == data,
            DataType::Decimal(r.precision, r.scale) == data.data_type,
            r.well_formed(),
    {
        let (precision, scale) = match &data.data_type {
            DataType::Decimal(p, s) => (*p, *s),
            _ => (0usize, 0usize),
        };
        DecimalArray { data, precision, scale }
    }

    /// The metadata this array is a view over.
    pub fn data(&self) -> (r: &ArrayData)
        ensures
            *r == self.data,
    {
        &self.data
    }

    /// Releases the array back into its metadata.
    pub fn into_data(self) -> (r: ArrayData)
        ensures
            r == self.data,
    {
        self.data
    }

    pub fn data_type(&self) -> (r: &DataType)
        ensures
            *r == self.data.data_type,
    {
        &self.data.data_type
    }

    pub fn len(&self) -> (r: usize)
        ensures
            r == self.spec_len(),
    {
        self.data.len
    }

    /// Whether slot `i` is null.
    pub fn is_null(&self, i: usize) -> (r: bool)
        requires
            self.well_formed(),
            i < self.spec_len(),
        ensures
            r == !self.spec_is_valid(i as int),
    {
        match &self.data.null_bitmap {
            None => false,
            Some(b) => {
                let idx = self.data.offset + i;
                let byte = b.byte(idx / 8);
                !get_bit(byte, idx % 8)
            },
        }
    }

    /// Returns the element at index `i`; the caller owns bounds checking.
    pub fn value(&self, i: usize) -> (r: Decimal128)
        requires
            self.well_formed(),
            i < self.spec_len(),
        ensures
            r.precision == self.precision,
            r.scale == self.scale,
            r.spec_value() as int == self.spec_value_at(i as int),
    {
        let offset = i + self.data.offset;
        let pos = 16 * offset;
        let bytes = self.data.buffers[0].read_bytes(pos, 16);
        let raw = read_i128_le(bytes.as_slice());
        Decimal128::new_from_i128(self.precision, self.scale, raw)
    }

    /// The byte offset of element `i` in the value buffer.
    pub fn value_offset(&self, i: usize) -> (r: i32)
        requires
            16 * (self.data.offset + i) <= i32::MAX,
        ensures
            r == 16 * (self.data.offset + i),
    {
        self.value_offset_at(self.data.offset + i)
    }

    fn value_offset_at(&self, i: usize) -> (r: i32)
        requires
            16 * i <= i32::MAX,
        ensures
            r == 16 * i,
    {
        (16 * i) as i32
    }

    /// The byte length of an element: every element is 16 bytes wide.
    pub fn value_length(&self) -> (r: i32)
        ensures
            r == 16,
    {
        16
    }

    /// A shared handle to the value buffer: the same buffer value, aliasing
    /// the same allocation.
    pub fn value_data(&self) -> (r: Buffer)
        requires
            self.well_formed(),
        ensures
            r == self.data.buffers[0],
            r@ == self.value_buffer(),
    {
        self.data.buffers[0].clone()
    }

    /// Renders element `row` with exactly `scale` digits after the point.
    pub fn value_as_string(&self, row: usize) -> (r: String)
        requires
            self.well_formed(),
            row < self.spec_len(),
        ensures
            r@ == spec_decimal_string(self.spec_value_at(row as int), self.scale as nat),
    {
        let d = self.value(row);
        let s = d.as_string();
        proof {
            lemma_decode_i128_in_range(
                self.value_buffer().subrange(
                    16 * (self.data.offset + row),
                    16 * (self.data.offset + row) + 16,
                ),
            );
        }
        s
    }

    pub fn precision(&self) -> (r: usize)
        ensures
            r == self.precision,
    {
        self.precision
    }

    pub fn scale(&self) -> (r: usize)
        ensures
            r == self.scale,
    {
        self.scale
    }

    /// The type assigned when no precision and scale are given: the maximum
    /// precision with the default scale.
    pub fn default_type() -> (r: DataType)
        ensures
            r == DataType::Decimal(DECIMAL_MAX_PRECISION, DECIMAL_DEFAULT_SCALE),
    {
        DataType::Decimal(DECIMAL_MAX_PRECISION, DECIMAL_DEFAULT_SCALE)
    }
}

impl DecimalArray {
    /// Whether retagging to (precision, scale) is accepted: both bounds hold,
    /// the scale does not exceed the precision, and, if the precision
    /// shrinks, every stored non-null value still fits it.
    pub open spec fn spec_retag_ok(&self, precision: usize, scale: usize) -> bool {
        &&& 1 <= precision
        &&& precision <= DECIMAL_MAX_PRECISION
        &&& scale <= DECIMAL_MAX_SCALE
        &&& scale <= precision
        &&& (precision < self.precision ==> forall|i: int|
            0 <= i < self.spec_len() && self.spec_is_valid(i) ==> fits_precision(
                self.spec_value_at(i),
                precision as nat,
            ))
    }

    /// Slot `j` holds the first non-null value that does not fit `precision`.
    pub open spec fn spec_first_violation(&self, precision: usize, j: int) -> bool {
        &&& 0 <= j < self.spec_len()
        &&& self.spec_is_valid(j)
        &&& !fits_precision(self.spec_value_at(j), precision as nat)
        &&& forall|k: int|
            0 <= k < j && self.spec_is_valid(k) ==> fits_precision(
                self.spec_value_at(k),
                precision as nat,
            )
    }

    /// Consumes the array and returns it retagged with the new precision and
    /// scale, or the first domain error, leaving the data untouched. Values
    /// are rescanned only when the precision shrinks; growing the precision
    /// can never invalidate existing values. A precision of 0 is outside the
    /// decimal type's domain and stays with the caller.
    pub fn with_precision_and_scale(self, precision: usize, scale: usize) -> (r: Result<
        Self,
        ArrowError,
    >)
        requires
            self.well_formed(),
            1 <= precision,
        ensures
            r is Ok <==> self.spec_retag_ok(precision, scale),
            r matches Ok(a) ==> {
                &&& a.well_formed()
                &&& a.precision == precision
                &&& a.scale == scale
                &&& a.data.len == self.data.len
                &&& a.data.offset == self.data.offset
                &&& a.data.buffers == self.data.buffers
                &&& a.data.null_bitmap == self.data.null_bitmap
                &&& a.data.child_data == self.data.child_data
                &&& a.spec_logical() == self.spec_logical()
            },
            precision > DECIMAL_MAX_PRECISION ==> (r matches Err(e) && e.spec_message()
                == spec_msg_precision_gt_max(precision as nat)),
            precision <= DECIMAL_MAX_PRECISION && scale > DECIMAL_MAX_SCALE ==> (r matches Err(e)
                && e.spec_message() == spec_msg_scale_gt_max(scale as nat)),
            precision <= DECIMAL_MAX_PRECISION && scale <= DECIMAL_MAX_SCALE && scale > precision
                ==> (r matches Err(e) && e.spec_message() == spec_msg_scale_gt_precision(
                scale as nat,
                precision as nat,
            )),
            precision <= DECIMAL_MAX_PRECISION && scale <= DECIMAL_MAX_SCALE && scale <= precision
                && !self.spec_retag_ok(precision, scale) ==> (r matches Err(e) && exists|j: int|
                self.spec_first_violation(precision, j) && e.spec_message()
                    == spec_violation_message(self.spec_value_at(j), precision as nat)),
    {
        let ghost before_retag = self;
        if precision > DECIMAL_MAX_PRECISION {
            let mut m: String = "precision ".to_owned();
            push_usize_string(&mut m, precision);
            m.append(" is greater than max ");
            push_usize_string(&mut m, DECIMAL_MAX_PRECISION);
            assert(m@ =~= spec_msg_precision_gt_max(precision as nat));
            return Err(ArrowError::InvalidArgumentError(m));
        }
        if scale > DECIMAL_MAX_SCALE {
            let mut m: String = "scale ".to_owned();
            push_usize_string(&mut m, scale);
            m.append(" is greater than max ");
            push_usize_string(&mut m, DECIMAL_MAX_SCALE);
            assert(m@ =~= spec_msg_scale_gt_max(scale as nat));
            return Err(ArrowError::InvalidArgumentError(m));
        }
        if scale > precision {
            let mut m: String = "scale ".to_owned();
            push_usize_string(&mut m, scale);
            m.append(" is greater than precision ");
            push_usize_string(&mut m, precision);
            assert(m@ =~= spec_msg_scale_gt_precision(scale as nat, precision as nat));
            return Err(ArrowError::InvalidArgumentError(m));
        }
        if precision < self.precision {
            let mut i: usize = 0;
            while i < self.data.len
                invariant
                    self.well_formed(),
                    1 <= precision,
                    precision <= DECIMAL_MAX_PRECISION,
                    scale <= DECIMAL_MAX_SCALE,
                    scale <= precision,
                    precision < self.precision,
                    i <= self.data.len,
                    forall|k: int|
                        0 <= k < i && self.spec_is_valid(k) ==> fits_precision(
                            self.spec_value_at(k),
                            precision as nat,
                        ),
                decreases self.data.len - i,
            {
                if !self.is_null(i) {
                    let d = self.value(i);
                    let raw = d.as_i128();
                    match validate_decimal_precision(raw, precision) {
                        Err(e) => {
                            proof {
                                crate::digits::lemma_pow10_pos(precision as nat);
                                assert(self.spec_first_violation(precision, i as int));
                                assert(e.spec_message() == spec_violation_message(
                                    self.spec_value_at(i as int),
                                    precision as nat,
                                ));
                                assert(!self.spec_retag_ok(precision, scale));
                            }
                            return Err(e);
                        },
                        Ok(_) => {},
                    }
                }
                i = i + 1;
            }
        }
        let mut data = self.data;
        data.data_type = DataType::Decimal(precision, scale);
        let r = DecimalArray { data, precision, scale };
        proof {
            assert forall|i: int| 0 <= i < r.spec_len() implies r.spec_logical()[i]
                == before_retag.spec_logical()[i] by {
                assert(r.spec_is_valid(i) == before_retag.spec_is_valid(i));
                assert(r.spec_value_at(i) == before_retag.spec_value_at(i));
            }
            assert(r.spec_logical() =~= before_retag.spec_logical());
        }
        Ok(r)
    }

    /// Collects plain raw values, without nulls, into a new array carrying
    /// the default (maximum precision, default scale) type.
    pub fn from_iter_values(values: Vec<i128>) -> (r: Self)
        ensures
            r.well_formed(),
            r.precision == DECIMAL_MAX_PRECISION,
            r.scale == DECIMAL_DEFAULT_SCALE,
            r.data.null_bitmap is None,
            r.data.offset == 0,
            r.data.len == values@.len(),
            r.value_buffer().len() == 16 * values@.len(),
            r.spec_logical() == values@.map_values(|v: i128| Some(v)),
    {
        let mut buf: Vec<u8> = Vec::new();
        let mut idx: usize = 0;
        while idx < values.len()
            invariant
                idx <= values@.len(),
                buf@.len() == 16 * idx,
                forall|j: int|
                    0 <= j < idx ==> decode_i128(buf@.subrange(16 * j, 16 * j + 16))
                        == values@[j] as int,
            decreases values@.len() - idx,
        {
            let ghost before = buf@;
            let mut b = write_i128_le(values[idx]);
            let ghost encoded = b@;
            buf.append(&mut b);
            proof {
                assert forall|j: int|
                    0 <= j < idx + 1 implies decode_i128(buf@.subrange(16 * j, 16 * j + 16))
                        == values@[j] as int by {
                    if j < idx {
                        assert(buf@.subrange(16 * j, 16 * j + 16) =~= before.subrange(
                            16 * j,
                            16 * j + 16,
                        ));
                    } else {
                        assert(buf@.subrange(16 * j, 16 * j + 16) =~= encoded);
                    }
                }
            }
            idx = idx + 1;
        }
        // a Vec's length is a usize, which bounds 16 * n for the invariant
        let buffer_len = buf.len();
        let n = values.len();
        let data = ArrayData {
            data_type: Self::default_type(),
            len: n,
            offset: 0,
            buffers: vec![Buffer::from_vec(buf)],
            null_bitmap: None,
            child_data: Vec::new(),
        };
        let r = DecimalArray {
            data,
            precision: DECIMAL_MAX_PRECISION,
            scale: DECIMAL_DEFAULT_SCALE,
        };
        proof {
            assert(r.spec_logical() =~= values@.map_values(|v: i128| Some(v)));
        }
        r
    }

    /// Collects optional raw values into a new array with a validity bitmap,
    /// carrying the default (maximum precision, default scale) type. A null
    /// slot still occupies 16 bytes, holding a placeholder that is never read
    /// as meaningful data.
    pub fn from_iter(values: Vec<Option<i128>>) -> (r: Self)
        ensures
            r.well_formed(),
            r.precision == DECIMAL_MAX_PRECISION,
            r.scale == DECIMAL_DEFAULT_SCALE,
            r.data.null_bitmap is Some,
            r.data.offset == 0,
            r.data.len == values@.len(),
            r.value_buffer().len() == 16 * values@.len(),
            r.spec_logical() == values@,
    {
        let mut null_buf = BooleanBufferBuilder::new(values.len());
        let mut buf: Vec<u8> = Vec::new();
        let mut idx: usize = 0;
        while idx < values.len()
            invariant
                idx <= values@.len(),
                null_buf.well_formed(),
                null_buf@.len() == idx,
                buf@.len() == 16 * idx,
                forall|j: int| 0 <= j < idx ==> null_buf@[j] == (values@[j] is Some),
                forall|j: int|
                    0 <= j < idx && values@[j] is Some ==> decode_i128(
                        buf@.subrange(16 * j, 16 * j + 16),
                    ) == values@[j].unwrap() as int,
            decreases values@.len() - idx,
        {
            let ghost before = buf@;
            let ghost mut encoded: Seq<u8> = Seq::empty();
            match values[idx] {
                Some(a) => {
                    null_buf.append(true);
                    let mut b = write_i128_le(a);
                    proof {
                        encoded = b@;
                    }
                    buf.append(&mut b);
                },
                None => {
                    null_buf.append(false);
                    let mut b = write_i128_le(0);
                    proof {
                        encoded = b@;
                    }
                    buf.append(&mut b);
                },
            }
            proof {
                assert forall|j: int|
                    0 <= j < idx + 1 && values@[j] is Some implies decode_i128(
                        buf@.subrange(16 * j, 16 * j + 16),
                    ) == values@[j].unwrap() as int by {
                    if j < idx {
                        assert(buf@.subrange(16 * j, 16 * j + 16) =~= before.subrange(
                            16 * j,
                            16 * j + 16,
                        ));
                    } else {
                        assert(buf@.subrange(16 * j, 16 * j + 16) =~= encoded);
                    }
                }
            }
            idx = idx + 1;
        }
        // a Vec's length is a usize, which bounds 16 * n for the invariant
        let buffer_len = buf.len();
        let n = null_buf.len();
        let bits = null_buf.finish();
        let data = ArrayData {
            data_type: Self::default_type(),
            len: n,
            offset: 0,
            buffers: vec![Buffer::from_vec(buf)],
            null_bitmap: Some(Buffer::from_vec(bits)),
            child_data: Vec::new(),
        };
        let r = DecimalArray {
            data,
            precision: DECIMAL_MAX_PRECISION,
            scale: DECIMAL_DEFAULT_SCALE,
        };
        proof {
            assert forall|i: int| 0 <= i < r.spec_len() implies r.spec_logical()[i]
                == values@[i] by {
                assert(r.spec_is_valid(i) == (values@[i] is Some));
            }
            assert(r.spec_logical() =~= values@);
        }
        r
    }

    /// Reinterprets a nested byte-list array as a decimal array without
    /// copying: the list's child must be a flat run of 8-bit values; its
    /// buffer is sliced at the child's offset and shared, and the list's
    /// validity bitmap is carried over unchanged.
    pub fn from_fixed_size_list_array(v: FixedSizeListArray, precision: usize, scale: usize) -> (r:
        Self)
        requires
            v.data.child_data@.len() == 1,
            v.data.child_data[0].child_data@.len() == 0,
            v.data.child_data[0].data_type == DataType::UInt8,
            v.data.child_data[0].buffers@.len() == 1,
            v.data.child_data[0].offset <= v.data.child_data[0].buffers[0]@.len(),
            1 <= precision,
            precision <= DECIMAL_MAX_PRECISION,
            scale <= precision,
            16 * (v.data.offset + v.data.len) <= usize::MAX,
            v.data.child_data[0].buffers[0]@.len() - v.data.child_data[0].offset >= 16 * (
            v.data.offset + v.data.len),
            v.data.null_bitmap matches Some(b) ==> 8 * b@.len() >= v.data.offset + v.data.len,
        ensures
            r.well_formed(),
            r.precision == precision,
            r.scale == scale,
            r.data.len == v.data.len,
            r.data.offset == v.data.offset,
            r.data.null_bitmap == v.data.null_bitmap,
            r.value_buffer() == v.data.child_data[0].buffers[0]@.skip(
                v.data.child_data[0].offset as int,
            ),
    {
        let child = &v.data.child_data[0];
        let child_offset = child.offset;
        let sliced = child.buffers[0].slice(child_offset);
        let bitmap = match &v.data.null_bitmap {
            Some(b) => Some(b.clone()),
            None => None,
        };
        let data = ArrayData {
            data_type: DataType::Decimal(precision, scale),
            len: v.data.len,
            offset: v.data.offset,
            buffers: vec![sliced],
            null_bitmap: bitmap,
            child_data: Vec::new(),
        };
        DecimalArray { data, precision, scale }
    }

    /// Renders the whole array: a `DecimalArray<precision, scale>` header and
    /// one indented line per slot, `null` for a null slot.
    pub fn debug_string(&self) -> (r: String)
        requires
            self.well_formed(),
        ensures
            r@ == self.spec_debug_string(),
    {
        let mut s: String = "DecimalArray<".to_owned();
        push_usize_string(&mut s, self.precision);
        s.append(", ");
        push_usize_string(&mut s, self.scale);
        s.append(">\n[\n");
        let ghost header = s@;
        let mut i: usize = 0;
        while i < self.data.len
            invariant
                self.well_formed(),
                i <= self.data.len,
                s@ == header + self.spec_rows_string(i as int),
                header == "DecimalArray<"@ + spec_dec_digits(self.precision as nat) + ", "@
                    + spec_dec_digits(self.scale as nat) + ">\n[\n"@,
            decreases self.data.len - i,
        {
            s.append("  ");
            if self.is_null(i) {
                s.append("null");
            } else {
                let row = self.value_as_string(i);
                s.append(row.as_str());
            }
            s.append(",\n");
            assert(s@ =~= header + self.spec_rows_string((i + 1) as int));
            i = i + 1;
        }
        s.append("]");
        assert(s@ =~= self.spec_debug_string());
        s
    }

    /// One rendered row: two spaces, the value or `null`, a comma, a newline.
    pub open spec fn spec_row_string(&self, i: int) -> Seq<char> {
        "  "@ + (if self.spec_is_valid(i) {
            spec_decimal_string(self.spec_value_at(i), self.scale as nat)
        } else {
            "null"@
        }) + ",\n"@
    }

    /// The first `n` rendered rows, in order.
    pub open spec fn spec_rows_string(&self, n: int) -> Seq<char>
        decreases n,
    {
        if n <= 0 {
            Seq::empty()
        } else {
            self.spec_rows_string(n - 1) + self.spec_row_string(n - 1)
        }
    }

    pub open spec fn spec_debug_string(&self) -> Seq<char> {
        "DecimalArray<"@ + spec_dec_digits(self.precision as nat) + ", "@ + spec_dec_digits(
            self.scale as nat,
        ) + ">\n[\n"@ + self.spec_rows_string(self.spec_len() as int) + "]"@
    }

    /// Constructs a fresh, independent cursor over this array.
    pub fn iter(&self) -> (r: DecimalIter<'_>)
        requires
            self.well_formed(),
        ensures
            r.array == self,
            r.current == 0,
            r.end == self.spec_len(),
            r.well_formed(),
    {
        DecimalIter::new(self)
    }
}

/// The message reported when a precision exceeds the supported maximum.
pub open spec fn spec_msg_precision_gt_max(p: nat) -> Seq<char> {
    "precision "@ + spec_dec_digits(p) + " is greater than max "@ + spec_dec_digits(
        DECIMAL_MAX_PRECISION as nat,
    )
}

/// The message reported when a scale exceeds the supported maximum.
pub open spec fn spec_msg_scale_gt_max(s: nat) -> Seq<char> {
    "scale "@ + spec_dec_digits(s) + " is greater than max "@ + spec_dec_digits(
        DECIMAL_MAX_SCALE as nat,
    )
}

/// The message reported when a scale exceeds the precision.
pub open spec fn spec_msg_scale_gt_precision(s: nat, p: nat) -> Seq<char> {
    "scale "@ + spec_dec_digits(s) + " is greater than precision "@ + spec_dec_digits(p)
}

/// The message a value that does not fit a precision is reported with:
/// positive overflow names the max, negative overflow the min.
pub open spec fn spec_violation_message(v: int, p: nat) -> Seq<char> {
    if v > 0 {
        spec_msg_value_too_large(v, p)
    } else {
        spec_msg_value_too_small(v, p)
    }
}

/// A restartable, exact-length cursor over a decimal array: an independent
/// (position, end) pair over a shared read-only view, yielding the raw value
/// of each slot in order, `None` for a null slot.
pub struct DecimalIter<'a> {
    pub array: &'a DecimalArray,
    pub current: usize,
    pub end: usize,
}

impl<'a> DecimalIter<'a> {
    pub open spec fn well_formed(&self) -> bool {
        &&& self.array.well_formed()
        &&& self.current <= self.end
        &&& self.end <= self.array.spec_len()
    }

    pub fn new(array: &'a DecimalArray) -> (r: Self)
        requires
            array.well_formed(),
        ensures
            r.array == array,
            r.current == 0,
            r.end == array.spec_len(),
            r.well_formed(),
    {
        let end = array.len();
        DecimalIter { array, current: 0, end }
    }

    /// The exact number of slots left, as both bounds of a size hint.
    pub fn size_hint(&self) -> (r: (usize, Option<usize>))
        requires
            self.current <= self.end,
        ensures
            r.0 == self.end - self.current,
            r.1 == Some((self.end - self.current) as usize),
    {
        let n = self.end - self.current;
        (n, Some(n))
    }

    /// Yields the slot at the cursor and advances past it; `None` once the
    /// cursor is exhausted, indefinitely.
    pub fn next(&mut self) -> (r: Option<Option<i128>>)
        requires
            old(self).well_formed(),
        ensures
            final(self).well_formed(),
            final(self).array == old(self).array,
            final(self).end == old(self).end,
            old(self).current < old(self).end ==> final(self).current == old(self).current + 1 && r
                == Some(old(self).array.spec_logical()[old(self).current as int]),
            old(self).current >= old(self).end ==> final(self).current == old(self).current && r
                is None,
    {
        if self.current < self.end {
            let i = self.current;
            self.current = i + 1;
            if self.array.is_null(i) {
                Some(None)
            } else {
                let d = self.array.value(i);
                let raw = d.as_i128();
                Some(Some(raw))
            }
        } else {
            None
        }
    }
}

/// Collecting values into an array and reading them back, slot by slot,
/// yields exactly the collected sequence: a slot is valid iff the collected
/// entry was present, and then holds exactly the collected raw value.
pub proof fn lemma_logical_view_reads_back(values: Seq<Option<i128>>, arr: DecimalArray)
    requires
        arr.spec_logical() == values,
    ensures
        arr.spec_len() == values.len(),
        forall|i: int|
            0 <= i < values.len() ==> (arr.spec_is_valid(i) <==> values[i] is Some),
        forall|i: int|
            0 <= i < values.len() && values[i] is Some ==> arr.spec_value_at(i) as i128
                == values[i].unwrap(),
{
    assert forall|i: int| 0 <= i < values.len() implies (arr.spec_is_valid(i) <==> values[i]
        is Some) && (values[i] is Some ==> arr.spec_value_at(i) as i128 == values[i].unwrap()) by {
        assert(arr.spec_logical()[i] == values[i]);
    }
}

/// Widening is always safe: retagging with any precision at least the current
/// one, and any scale within it, is accepted without scanning a single value.
pub proof fn lemma_precision_widening_succeeds(arr: DecimalArray, precision: usize, scale: usize)
    requires
        arr.well_formed(),
        arr.precision <= precision,
        precision <= DECIMAL_MAX_PRECISION,
        scale <= precision,
    ensures
        arr.spec_retag_ok(precision, scale),
{
}

} // verus!
