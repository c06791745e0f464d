//! Classic CAN frames: an identifier, three flags and up to eight payload bytes.
use vstd::prelude::*;
use crate::id::{CanMessageId, ConstructionError};

verus! {

/// Largest payload of a classic CAN frame.
pub const MAX_DLC: usize = 8;

/// One CAN frame. Only the first `dlc` bytes of `data` are payload.
#[derive(Clone, Copy, Debug, PartialEq, Eq)]
pub struct CanFrame {
    pub id: CanMessageId,
    pub rtr: bool,
    pub err: bool,
    pub dlc: u8,
    pub data: [u8; 8],
}

impl CanFrame {
    /// Identifier in range and payload length at most eight.
    pub open spec fn valid(self) -> bool {
        self.id.valid() && self.dlc <= 8
    }

    /// The payload bytes.
    pub open spec fn payload(self) -> Seq<u8> {
        self.data@.subrange(0, self.dlc as int)
    }

    /// A frame with the given payload; fails where it has more than eight bytes.
    pub fn new(id: CanMessageId, data: &[u8], rtr: bool, err: bool) -> (r: Result<
        CanFrame,
        ConstructionError,
    >)
        requires
            id.valid(),
        ensures
            data@.len() > 8 <==> r == Err::<CanFrame, ConstructionError>(
                ConstructionError::TooMuchData,
            ),
            r matches Ok(f) ==> f.valid() && f.id == id && f.rtr == rtr && f.err == err
                && f.payload() == data@,
    {
        if data.len() > MAX_DLC {
            return Err(ConstructionError::TooMuchData);
        }
        let mut buf: [u8; 8] = [0u8; 8];
        let mut i: usize = 0;
        while i < data.len()
            invariant
                data@.len() <= 8,
                i <= data@.len(),
                forall|j: int| 0 <= j < i ==> buf@[j] == data@[j],
            decreases data@.len() - i,
        {
            buf[i] = data[i];
            i = i + 1;
        }
        let f = CanFrame { id, rtr, err, dlc: data.len() as u8, data: buf };
        assert(f.payload() =~= data@);
        Ok(f)
    }

    /// The numeric identifier.
    pub fn id(&self) -> (r: u32)
        ensures
            r == self.id.value_spec(),
    {
        self.id.value()
    }

    /// True for extended addressing.
    pub fn is_extended(&self) -> (r: bool)
        ensures
            r == (self.id is EFF),
    {
        self.id.is_extended()
    }

    /// True for a remote transmission request.
    pub fn is_rtr(&self) -> (r: bool)
        ensures
            r == self.rtr,
    {
        self.rtr
    }

    /// True for an error frame.
    pub fn is_error(&self) -> (r: bool)
        ensures
            r == self.err,
    {
        self.err
    }

    /// The payload bytes.
    pub fn data(&self) -> (r: &[u8])
        requires
            self.valid(),
        ensures
            r@ == self.payload(),
    {
        vstd::slice::slice_subrange(self.data.as_slice(), 0, self.dlc as usize)
    }
}

} // verus!
