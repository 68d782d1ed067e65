//! Account identifiers: the bytes of an identity string, compared byte by byte.

use vstd::prelude::*;
use vstd::string::*;
use vstd::utf8::{encode_utf8, encode_utf8_decode_utf8};

verus! {

/// The identifier of the account named `name`: the bytes of its UTF-8 encoding.
pub open spec fn account_id(name: Seq<char>) -> Seq<u8> {
    encode_utf8(name)
}

/// Computes the identifier of the account named `name`.
pub fn account_bytes(name: &String) -> (id: Vec<u8>)
    ensures
        id@ == account_id(name@),
{
    name.as_str().as_bytes_vec()
}

/// Different names have different identifiers.
pub proof fn account_id_injective(a: Seq<char>, b: Seq<char>)
    requires
        account_id(a) == account_id(b),
    ensures
        a == b,
{
    encode_utf8_decode_utf8(a);
    encode_utf8_decode_utf8(b);
}

} // verus!
