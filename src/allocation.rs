//! Allocation descriptors: where a payload lies in the guest's page.
use vstd::prelude::*;

use crate::encoding::EncodedResult;

verus! {

/// A (offset, length) reference into the guest's linear-memory page.
#[derive(Clone, Copy, Debug, PartialEq, Eq, Structural)]
pub struct AllocationDescriptor {
    pub offset: u32,
    pub length: u32,
}

/// Why an encoded value does not name a readable allocation.
#[derive(Clone, Copy, Debug, PartialEq, Eq, Structural)]
pub enum DecodeError {
    /// The value is `Success` or `Failure`, not `DataAt`.
    NotAnAllocation,
    /// The descriptor is empty: nothing was allocated.
    ZeroLength,
    /// The descriptor reaches past the end of the page.
    OutOfBounds,
}

impl AllocationDescriptor {
    /// The first offset after the payload.
    pub open spec fn end(self) -> nat {
        self.offset as nat + self.length as nat
    }

    /// The payload lies inside a page of `page_size` bytes.
    pub open spec fn within(self, page_size: nat) -> bool {
        self.end() <= page_size
    }

    /// The "data lives here" value for this descriptor.
    pub fn to_encoded(self) -> (e: EncodedResult)
        ensures
            e == EncodedResult::DataAt(self),
    {
        EncodedResult::DataAt(self)
    }

    /// The descriptor that `e` carries, checked against a page of
    /// `page_size` bytes.
    pub fn from_encoded(e: EncodedResult, page_size: usize) -> (r: Result<
        AllocationDescriptor,
        DecodeError,
    >)
        ensures
            r == from_encoded_spec(e, page_size as nat),
    {
        match e {
            EncodedResult::DataAt(d) => {
                if d.length == 0 {
                    Err(DecodeError::ZeroLength)
                } else if d.offset as u64 + d.length as u64 > page_size as u64 {
                    Err(DecodeError::OutOfBounds)
                } else {
                    Ok(d)
                }
            },
            _ => Err(DecodeError::NotAnAllocation),
        }
    }
}

/// What `from_encoded` gives for `e` and a page of `page_size` bytes.
pub open spec fn from_encoded_spec(e: EncodedResult, page_size: nat) -> Result<
    AllocationDescriptor,
    DecodeError,
> {
    match e {
        EncodedResult::DataAt(d) => {
            if d.length == 0 {
                Err(DecodeError::ZeroLength)
            } else if !d.within(page_size) {
                Err(DecodeError::OutOfBounds)
            } else {
                Ok(d)
            }
        },
        _ => Err(DecodeError::NotAnAllocation),
    }
}

} // verus!
