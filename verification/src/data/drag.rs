//! Drag-and-drop operation flags and payloads.

use vstd::prelude::*;

use std::collections::BTreeMap;

use crate::codes;
use crate::data::ids::TabId;

verus! {

/// A set of drag operations, as Chromium's operation bits.
#[derive(Debug, Clone, Copy, PartialEq, Eq, Hash, Structural)]
pub struct ChromeDragOperations(pub u32);

#[derive(Debug, Clone, Copy, PartialEq, Eq, Hash, Structural)]
pub enum ChromeDragOperation {
    NoOperation,
    Copy,
    Link,
    Move,
}

/// The bits that stand for an operation; no bits for "no operation".
pub open spec fn operation_mask(operation: ChromeDragOperation) -> u32 {
    match operation {
        ChromeDragOperation::NoOperation => 0,
        ChromeDragOperation::Copy => codes::DRAG_OPERATION_COPY,
        ChromeDragOperation::Link => codes::DRAG_OPERATION_LINK,
        ChromeDragOperation::Move => codes::DRAG_OPERATION_MOVE,
    }
}

impl ChromeDragOperations {
    /// The set that holds just one operation (the empty set for "no operation").
    pub fn of(operation: ChromeDragOperation) -> (ops: Self)
        ensures
            ops.0 == operation_mask(operation),
    {
        match operation {
            ChromeDragOperation::NoOperation => ChromeDragOperations(0),
            ChromeDragOperation::Copy => ChromeDragOperations(codes::DRAG_OPERATION_COPY),
            ChromeDragOperation::Link => ChromeDragOperations(codes::DRAG_OPERATION_LINK),
            ChromeDragOperation::Move => ChromeDragOperations(codes::DRAG_OPERATION_MOVE),
        }
    }

    pub fn from_bits(bits: u32) -> (ops: Self)
        ensures
            ops.0 == bits,
    {
        ChromeDragOperations(bits)
    }

    pub fn bits(self) -> (bits: u32)
        ensures
            bits == self.0,
    {
        self.0
    }

    /// Whether every bit of the operation is in the set.
    pub fn contains(self, operation: ChromeDragOperation) -> (b: bool)
        ensures
            b == ((self.0 & operation_mask(operation)) == operation_mask(operation)),
    {
        let mask: u32 = match operation {
            ChromeDragOperation::NoOperation => 0,
            ChromeDragOperation::Copy => codes::DRAG_OPERATION_COPY,
            ChromeDragOperation::Link => codes::DRAG_OPERATION_LINK,
            ChromeDragOperation::Move => codes::DRAG_OPERATION_MOVE,
        };
        (self.0 & mask) == mask
    }
}

/// Every set contains "no operation"; a set contains a real operation exactly
/// when that operation's bit is set.
pub proof fn lemma_contains_bits(bits: u32)
    ensures
        (bits & operation_mask(ChromeDragOperation::NoOperation)) == operation_mask(ChromeDragOperation::NoOperation),
        ((bits & operation_mask(ChromeDragOperation::Copy)) == operation_mask(ChromeDragOperation::Copy)) <==> (bits & 1u32) != 0,
        ((bits & operation_mask(ChromeDragOperation::Link)) == operation_mask(ChromeDragOperation::Link)) <==> (bits & 2u32) != 0,
        ((bits & operation_mask(ChromeDragOperation::Move)) == operation_mask(ChromeDragOperation::Move)) <==> (bits & 16u32) != 0,
{
    assert((bits & 0u32) == 0u32) by (bit_vector);
    assert(((bits & 1u32) == 1u32) <==> (bits & 1u32) != 0) by (bit_vector);
    assert(((bits & 2u32) == 2u32) <==> (bits & 2u32) != 0) by (bit_vector);
    assert(((bits & 16u32) == 16u32) <==> (bits & 16u32) != 0) by (bit_vector);
}

/// The operation a wire value names: exactly one known bit, else none.
pub open spec fn drag_operation_of(operation: u32) -> ChromeDragOperation {
    if operation == codes::DRAG_OPERATION_COPY {
        ChromeDragOperation::Copy
    } else if operation == codes::DRAG_OPERATION_LINK {
        ChromeDragOperation::Link
    } else if operation == codes::DRAG_OPERATION_MOVE {
        ChromeDragOperation::Move
    } else {
        ChromeDragOperation::NoOperation
    }
}

/// Decode a single drag operation; unknown bits read as no operation.
pub fn drag_operation_from_ffi(operation: u32) -> (op: ChromeDragOperation)
    ensures
        op == drag_operation_of(operation),
        (operation_mask(op) == operation && op != ChromeDragOperation::NoOperation) || (op
            == ChromeDragOperation::NoOperation && forall|x: ChromeDragOperation|
            x != ChromeDragOperation::NoOperation ==> operation_mask(x) != operation),
{
    match operation {
        codes::DRAG_OPERATION_COPY => ChromeDragOperation::Copy,
        codes::DRAG_OPERATION_LINK => ChromeDragOperation::Link,
        codes::DRAG_OPERATION_MOVE => ChromeDragOperation::Move,
        _ => ChromeDragOperation::NoOperation,
    }
}

#[derive(Debug, Clone, PartialEq, Eq)]
pub struct ChromeDragUrlInfo {
    pub url: String,
    pub title: String,
}

#[derive(Debug, Clone, Default, PartialEq, Eq)]
pub struct ChromeDragData {
    pub text: String,
    pub html: String,
    pub html_base_url: String,
    pub url_infos: Vec<ChromeDragUrlInfo>,
    pub filenames: Vec<String>,
    pub file_mime_types: Vec<String>,
    pub custom_data: BTreeMap<String, String>,
}

/// A drag image; `scale_bits` holds the IEEE-754 bits of the device scale.
#[derive(Debug, Clone, PartialEq, Eq)]
pub struct ChromeDragImage {
    pub png_bytes: Vec<u8>,
    pub pixel_width: u32,
    pub pixel_height: u32,
    pub scale_bits: u32,
    pub cursor_offset_x: i32,
    pub cursor_offset_y: i32,
}

#[derive(Debug, Clone, PartialEq, Eq)]
pub struct ChromeDragStartRequest {
    pub session_id: u64,
    pub browsing_context_id: TabId,
    pub allowed_operations: ChromeDragOperations,
    pub source_origin: String,
    pub data: ChromeDragData,
    pub image: Option<ChromeDragImage>,
}

} // verus!
