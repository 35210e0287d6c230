use vstd::prelude::*;
use crate::bytes::bytes_equal;
use crate::error::SessionError;

verus! {

/// Number of bytes a host sends before its first request.
pub const MAGIC_LEN: usize = 14;

/// The connection preamble `ARTIQ coredev\n`, as bytes.
pub open spec fn magic_bytes() -> Seq<u8> {
    seq![
        0x41u8, 0x52u8, 0x54u8, 0x49u8, 0x51u8, 0x20u8, 0x63u8,
        0x6fu8, 0x72u8, 0x65u8, 0x64u8, 0x65u8, 0x76u8, 0x0au8,
    ]
}

/// The connection preamble as an executable vector.
pub fn magic() -> (r: Vec<u8>)
    ensures
        r@ == magic_bytes(),
{
    let r: Vec<u8> = vec![
        0x41u8, 0x52u8, 0x54u8, 0x49u8, 0x51u8, 0x20u8, 0x63u8,
        0x6fu8, 0x72u8, 0x65u8, 0x64u8, 0x65u8, 0x76u8, 0x0au8,
    ];
    assert(r@ =~= magic_bytes());
    r
}

/// Checks the bytes read from a fresh connection against the preamble.
/// Any other sequence, of any length, is refused.
pub fn check_magic(received: &[u8]) -> (r: Result<(), SessionError>)
    ensures
        r is Ok <==> received@ == magic_bytes(),
        r is Err ==> r == Err::<(), SessionError>(SessionError::UnrecognizedMagic),
{
    let expected = magic();
    if bytes_equal(received, expected.as_slice()) {
        Ok(())
    } else {
        Err(SessionError::UnrecognizedMagic)
    }
}

} // verus!
