//! The generic array metadata bundle a typed array is a view over: a type
//! tag, logical length and offset, value buffers, an optional validity
//! bitmap, and child arrays for nested types.
use vstd::prelude::*;
use crate::buffer::Buffer;
use crate::datatypes::DataType;
use crate::error::ArrowError;

verus! {

#[derive(Debug)]
pub struct ArrayData {
    pub data_type: DataType,
    pub len: usize,
    pub offset: usize,
    pub buffers: Vec<Buffer>,
    pub null_bitmap: Option<Buffer>,
    pub child_data: Vec<ArrayData>,
}

impl ArrayData {
    /// Starts a builder for metadata of the given type.
    pub fn builder(data_type: DataType) -> (r: ArrayDataBuilder)
        ensures
            r.data_type == data_type,
            r.len == 0,
            r.offset == 0,
            r.buffers@ == Seq::<Buffer>::empty(),
            r.null_bitmap is None,
            r.child_data@ == Seq::<ArrayData>::empty(),
    {
        ArrayDataBuilder {
            data_type,
            len: 0,
            offset: 0,
            buffers: Vec::new(),
            null_bitmap: None,
            child_data: Vec::new(),
        }
    }
}

pub struct ArrayDataBuilder {
    pub data_type: DataType,
    pub len: usize,
    pub offset: usize,
    pub buffers: Vec<Buffer>,
    pub null_bitmap: Option<Buffer>,
    pub child_data: Vec<ArrayData>,
}

impl ArrayDataBuilder {
    pub fn len(self, len: usize) -> (r: Self)
        ensures
            r == (Self { len, ..self }),
    {
        Self { len, ..self }
    }

    pub fn offset(self, offset: usize) -> (r: Self)
        ensures
            r == (Self { offset, ..self }),
    {
        Self { offset, ..self }
    }

    pub fn add_buffer(self, buffer: Buffer) -> (r: Self)
        ensures
            r.buffers@ == self.buffers@.push(buffer),
            r == (Self { buffers: r.buffers, ..self }),
    {
        let mut buffers = self.buffers;
        buffers.push(buffer);
        Self { buffers, ..self }
    }

    pub fn null_bit_buffer(self, buf: Option<Buffer>) -> (r: Self)
        ensures
            r == (Self { null_bitmap: buf, ..self }),
    {
        Self { null_bitmap: buf, ..self }
    }

    pub fn add_child_data(self, child: ArrayData) -> (r: Self)
        ensures
            r.child_data@ == self.child_data@.push(child),
            r == (Self { child_data: r.child_data, ..self }),
    {
        let mut child_data = self.child_data;
        child_data.push(child);
        Self { child_data, ..self }
    }

    /// Seals the builder into metadata with exactly the accumulated parts.
    pub fn build(self) -> (r: Result<ArrayData, ArrowError>)
        ensures
            r matches Ok(d) && d == (ArrayData {
                data_type: self.data_type,
                len: self.len,
                offset: self.offset,
                buffers: self.buffers,
                null_bitmap: self.null_bitmap,
                child_data: self.child_data,
            }),
    {
        Ok(
            ArrayData {
                data_type: self.data_type,
                len: self.len,
                offset: self.offset,
                buffers: self.buffers,
                null_bitmap: self.null_bitmap,
                child_data: self.child_data,
            },
        )
    }
}

/// A nested array whose every element is a list of a fixed element count.
#[derive(Debug)]
pub struct FixedSizeListArray {
    pub data: ArrayData,
}

impl FixedSizeListArray {
    /// Wraps list-typed metadata; the tag must be a fixed-size list.
    pub fn from(data: ArrayData) -> (r: Self)
        requires
            data.data_type matches DataType::FixedSizeList(_, _),
        ensures
            r.data == data,
    {
        FixedSizeListArray { data }
    }

    pub fn len(&self) -> (r: usize)
        ensures
            r == self.data.len,
    {
        self.data.len
    }

    pub fn offset(&self) -> (r: usize)
        ensures
            r == self.data.offset,
    {
        self.data.offset
    }

    pub fn data_ref(&self) -> (r: &ArrayData)
        ensures
            *r == self.data,
    {
        &self.data
    }
}

} // verus!
