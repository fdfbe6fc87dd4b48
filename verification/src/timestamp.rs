//! The row-version token: eight bytes that the server makes and that pass
//! through the codec unchanged.

use crate::fault::{Fault, IsNull};
use crate::type_info::{resolve, wire_type, HostKind, TypeInfo};
use vstd::prelude::*;

verus! {

/// The outbound bytes of a token: the token itself.
pub open spec fn encoded_token(token: [u8; 8]) -> Seq<u8> {
    token@
}

/// What decoding `payload` gives: the bytes of the token, or the fault. A
/// payload of any length but eight is truncated.
pub open spec fn decoded_token(payload: Seq<u8>) -> Result<Seq<u8>, Fault> {
    if payload.len() != 8 {
        Err(Fault::TruncatedPayload)
    } else {
        Ok(payload)
    }
}

/// Whether `made` is what the decoder was to make: the token with the
/// expected bytes, or the expected fault.
pub open spec fn made_token(made: Result<[u8; 8], Fault>, expected: Result<Seq<u8>, Fault>) -> bool {
    match expected {
        Ok(bytes) => made matches Ok(token) && token@ == bytes,
        Err(fault) => made == Err::<[u8; 8], Fault>(fault),
    }
}

/// Encoding is the identity: a payload of eight bytes, decoded and encoded
/// again, is the same payload.
pub proof fn lemma_encode_after_decode(payload: Seq<u8>, made: Result<[u8; 8], Fault>)
    requires
        payload.len() == 8,
        made_token(made, decoded_token(payload)),
    ensures
        made matches Ok(token) && encoded_token(token) == payload,
{
}

/// A token, encoded and decoded again, is the same token.
pub proof fn lemma_decode_after_encode(token: [u8; 8], made: Result<[u8; 8], Fault>)
    requires
        made_token(made, decoded_token(encoded_token(token))),
    ensures
        made == Ok::<[u8; 8], Fault>(token),
{
    assert(made->Ok_0 =~= token);
}

/// The wire type of a row-version token.
pub fn type_info() -> (info: TypeInfo)
    ensures
        info == wire_type(HostKind::RowVersion),
{
    resolve(HostKind::RowVersion)
}

/// Appends the eight bytes of the token to `buf`, unchanged. A token is never
/// null.
pub fn encode_by_ref(value: &[u8; 8], buf: &mut Vec<u8>) -> (is_null: IsNull)
    ensures
        is_null == IsNull::No,
        final(buf)@ == old(buf)@ + encoded_token(*value),
{
    let ghost before = buf@;
    let mut i: usize = 0;
    while i < 8
        invariant
            i <= 8,
            buf@ =~= before + value@.subrange(0, i as int),
        decreases 8 - i,
    {
        buf.push(value[i]);
        i += 1;
    }
    assert(value@.subrange(0, 8) =~= value@);
    IsNull::No
}

/// Reads a token from a payload of eight bytes. A payload of any other
/// length gives `TruncatedPayload`.
pub fn decode(value: &[u8]) -> (made: Result<[u8; 8], Fault>)
    ensures
        made_token(made, decoded_token(value@)),
        value@.len() != 8 ==> made == Err::<[u8; 8], Fault>(Fault::TruncatedPayload),
        value@.len() == 8 ==> (made matches Ok(token) && token@ == value@),
{
    if value.len() != 8 {
        return Err(Fault::TruncatedPayload);
    }
    let mut token: [u8; 8] = [0u8; 8];
    let mut i: usize = 0;
    while i < 8
        invariant
            i <= 8,
            value@.len() == 8,
            forall|j: int| 0 <= j < i ==> token@[j] == value@[j],
        decreases 8 - i,
    {
        token[i] = value[i];
        i += 1;
    }
    assert(token@ =~= value@);
    Ok(token)
}

} // verus!
