//! CAN identifiers: standard (11 bit) and extended (29 bit) addressing.
use vstd::prelude::*;

verus! {

/// Largest standard identifier, plus one.
pub const SFF_LIMIT: u32 = 0x800;

/// Largest extended identifier, plus one.
pub const EFF_LIMIT: u32 = 0x2000_0000;

/// Mask of the identifier bits of a standard frame.
pub const SFF_MASK: u32 = 0x7ff;

/// Mask of the identifier bits of an extended frame.
pub const EFF_MASK: u32 = 0x1fff_ffff;

/// Marks extended addressing in an identifier word.
pub const EFF_FLAG: u32 = 0x8000_0000;

/// Marks a remote transmission request in an identifier word.
pub const RTR_FLAG: u32 = 0x4000_0000;

/// Marks an error frame in an identifier word.
pub const ERR_FLAG: u32 = 0x2000_0000;

/// Why an identifier or a frame could not be built.
#[derive(Clone, Copy, Debug, PartialEq, Eq, Structural)]
pub enum ConstructionError {
    /// The value does not fit in 29 bits.
    IDTooLarge,
    /// More than eight payload bytes.
    TooMuchData,
}

/// A CAN identifier, tagged with its addressing mode.
#[derive(Clone, Copy, Debug, PartialEq, Eq, Structural)]
pub enum CanMessageId {
    /// Standard addressing: below 2^11.
    SFF(u16),
    /// Extended addressing: below 2^29.
    EFF(u32),
}

/// The identifier that a plain number stands for: standard where it fits in
/// 11 bits, extended where it fits in 29, none beyond.
pub open spec fn id_of_value(v: int) -> Result<CanMessageId, ConstructionError> {
    if v < SFF_LIMIT {
        Ok(CanMessageId::SFF(v as u16))
    } else if v < EFF_LIMIT {
        Ok(CanMessageId::EFF(v as u32))
    } else {
        Err(ConstructionError::IDTooLarge)
    }
}

/// The identifier carried by an identifier word of the wire format.
pub open spec fn id_of_word(w: u32) -> CanMessageId {
    if w >= EFF_FLAG {
        CanMessageId::EFF(w % EFF_LIMIT)
    } else {
        CanMessageId::SFF((w % SFF_LIMIT) as u16)
    }
}

proof fn lemma_mask_is_mod(w: u32)
    ensures
        w & EFF_MASK == w % EFF_LIMIT,
        w & SFF_MASK == w % SFF_LIMIT,
        (w & EFF_FLAG != 0) == (w >= EFF_FLAG),
        w & RTR_FLAG != 0 <==> (w / RTR_FLAG) % 2 == 1,
        w & ERR_FLAG != 0 <==> (w / ERR_FLAG) % 2 == 1,
{
    assert(w & 0x1fff_ffff == w % 0x2000_0000) by (bit_vector);
    assert(w & 0x7ff == w % 0x800) by (bit_vector);
    assert((w & 0x8000_0000 != 0) == (w >= 0x8000_0000)) by (bit_vector);
    assert(w & 0x4000_0000 != 0 <==> (w / 0x4000_0000) % 2 == 1) by (bit_vector);
    assert(w & 0x2000_0000 != 0 <==> (w / 0x2000_0000) % 2 == 1) by (bit_vector);
}

impl CanMessageId {
    /// The identifier fits its addressing mode.
    pub open spec fn valid(self) -> bool {
        match self {
            CanMessageId::SFF(v) => v < SFF_LIMIT,
            CanMessageId::EFF(v) => v < EFF_LIMIT,
        }
    }

    /// The numeric identifier, without the addressing mark.
    pub open spec fn value_spec(self) -> u32 {
        match self {
            CanMessageId::SFF(v) => v as u32,
            CanMessageId::EFF(v) => v,
        }
    }

    /// The identifier word of the wire format: extended identifiers carry the
    /// extended-addressing flag.
    pub open spec fn word_spec(self) -> u32 {
        match self {
            CanMessageId::SFF(v) => v as u32,
            CanMessageId::EFF(v) => (v + EFF_FLAG) as u32,
        }
    }

    /// True where the identifier fits its addressing mode.
    pub fn is_valid(&self) -> (r: bool)
        ensures
            r == self.valid(),
    {
        match self {
            CanMessageId::SFF(v) => (*v as u32) < SFF_LIMIT,
            CanMessageId::EFF(v) => *v < EFF_LIMIT,
        }
    }

    /// Numeric identifier.
    pub fn value(&self) -> (r: u32)
        ensures
            r == self.value_spec(),
    {
        match self {
            CanMessageId::SFF(v) => *v as u32,
            CanMessageId::EFF(v) => *v,
        }
    }

    /// True for extended addressing.
    pub fn is_extended(&self) -> (r: bool)
        ensures
            r == (*self is EFF),
    {
        match self {
            CanMessageId::SFF(_) => false,
            CanMessageId::EFF(_) => true,
        }
    }

    /// The identifier word with the extended-addressing flag where it applies.
    pub fn with_eff_bit(&self) -> (r: u32)
        requires
            self.valid(),
        ensures
            r == self.word_spec(),
    {
        match self {
            CanMessageId::SFF(v) => *v as u32,
            CanMessageId::EFF(v) => {
                let v: u32 = *v;
                assert(v < 0x2000_0000 ==> v | 0x8000_0000 == v + 0x8000_0000) by (bit_vector);
                v | EFF_FLAG
            },
        }
    }

    /// Reads the identifier out of an identifier word of the wire format.
    pub fn from_word(w: u32) -> (r: CanMessageId)
        ensures
            r == id_of_word(w),
            r.valid(),
    {
        proof {
            lemma_mask_is_mod(w);
        }
        if w & EFF_FLAG != 0 {
            CanMessageId::EFF(w & EFF_MASK)
        } else {
            CanMessageId::SFF((w & SFF_MASK) as u16)
        }
    }

    /// The identifier for a 32-bit value (standard where it fits).
    pub fn from_u32(v: u32) -> (r: Result<CanMessageId, ConstructionError>)
        ensures
            r == id_of_value(v as int),
            r matches Ok(id) ==> id.valid(),
    {
        if v < SFF_LIMIT {
            Ok(CanMessageId::SFF(v as u16))
        } else if v < EFF_LIMIT {
            Ok(CanMessageId::EFF(v))
        } else {
            Err(ConstructionError::IDTooLarge)
        }
    }
}

impl TryFrom<u32> for CanMessageId {
    type Error = ConstructionError;

    fn try_from(v: u32) -> (r: Result<CanMessageId, ConstructionError>) {
        CanMessageId::from_u32(v)
    }
}

impl vstd::std_specs::convert::TryFromSpecImpl<u32> for CanMessageId {
    open spec fn obeys_try_from_spec() -> bool {
        true
    }

    open spec fn try_from_spec(v: u32) -> Result<CanMessageId, ConstructionError> {
        id_of_value(v as int)
    }
}

impl From<u16> for CanMessageId {
    fn from(v: u16) -> (r: CanMessageId) {
        if v < 0x800 {
            CanMessageId::SFF(v)
        } else {
            CanMessageId::EFF(v as u32)
        }
    }
}

impl vstd::std_specs::convert::FromSpecImpl<u16> for CanMessageId {
    open spec fn obeys_from_spec() -> bool {
        true
    }

    open spec fn from_spec(v: u16) -> CanMessageId {
        if v < 0x800 {
            CanMessageId::SFF(v)
        } else {
            CanMessageId::EFF(v as u32)
        }
    }
}

} // verus!
