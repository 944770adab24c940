use vstd::prelude::*;

verus! {

/// The unsigned value of four bytes, most significant first.
pub open spec fn be_u32(b0: u8, b1: u8, b2: u8, b3: u8) -> int {
    b0 as int * 0x1000000 + b1 as int * 0x10000 + b2 as int * 0x100 + b3 as int
}

/// A type whose values can be rebuilt from the raw bytes that the storage engine keeps.
pub trait Key: Sized {
    /// Whether `bytes` is the encoding of some key of this type; unless a type says
    /// otherwise, of none.
    open spec fn decodable(bytes: Seq<u8>) -> bool {
        false
    }

    /// The key that `bytes` encodes.
    open spec fn decode(bytes: Seq<u8>) -> Self {
        arbitrary()
    }

    /// Rebuilds a key from its raw bytes.
    fn from_u8(key: &[u8]) -> (r: Self)
        requires
            Self::decodable(key@),
        ensures
            r == Self::decode(key@),
    ;
}

/// A 32-bit integer key is four bytes, most significant first, read as two's complement.
impl Key for i32 {
    open spec fn decodable(bytes: Seq<u8>) -> bool {
        bytes.len() == 4
    }

    open spec fn decode(bytes: Seq<u8>) -> i32 {
        be_u32(bytes[0], bytes[1], bytes[2], bytes[3]) as i32
    }

    fn from_u8(key: &[u8]) -> (r: i32) {
        let b0 = key[0] as u32;
        let b1 = key[1] as u32;
        let b2 = key[2] as u32;
        let b3 = key[3] as u32;
        let v: u32 = b0 * 0x1000000 + b1 * 0x10000 + b2 * 0x100 + b3;
        v as i32
    }
}

} // verus!
