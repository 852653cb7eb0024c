//! The calls that leave this crate, each with what is taken on trust of it.
use vstd::prelude::*;
use vstd::utf8::is_ascii_chars;
use crate::text::{ascii_lowered, has_no_capitals, hex_decoded, hex_encoded};
use crate::types::{Address, B256};

verus! {

/// What `str::to_lowercase` makes of a text.
pub uninterp spec fn lowercase(s: Seq<char>) -> Seq<char>;

/// `str::to_lowercase` of the standard library. The result depends on the text alone, and none of
/// the capitals `A` to `Z` is left in it. In a text of ASCII characters the capitals become small
/// letters and nothing else changes. What becomes of other characters is not said.
#[verifier::external_body]
pub(crate) fn to_lowercase(s: &str) -> (r: String)
    ensures
        r@ == lowercase(s@),
        has_no_capitals(r@),
        is_ascii_chars(s@) ==> r@ == ascii_lowered(s@),
{
    s.to_lowercase()
}

/// The error of `hex::decode`.
#[verifier::external_type_specification]
#[verifier::external_body]
pub struct ExFromHexError(alloy_primitives::hex::FromHexError);

/// `alloy_primitives::hex::decode`: reads two hexadecimal digits for each byte, in either case,
/// after one `0x` or `0X` at most, and fails on anything else.
#[verifier::external_body]
pub(crate) fn hex_decode(s: &str) -> (r: Result<Vec<u8>, alloy_primitives::hex::FromHexError>)
    ensures
        match r {
            Ok(bytes) => hex_decoded(s@) == Some(bytes@),
            Err(_) => hex_decoded(s@) is None,
        },
{
    alloy_primitives::hex::decode(s)
}

/// `Display` of `alloy_primitives::B256`: `0x` and two small hexadecimal digits for each byte.
#[verifier::external_body]
pub(crate) fn hash_text(hash: &B256) -> (r: String)
    ensures
        r@ == seq!['0', 'x'] + hex_encoded(hash@),
{
    format!("{}", alloy_primitives::B256::from(*hash))
}

/// An event log: who emitted it, its topics and its data.
#[derive(Debug, PartialEq, Eq)]
pub struct LogStruct {
    pub address: Address,
    pub topics: Vec<B256>,
    pub data: Vec<u8>,
}

/// `alloy_primitives::Log::new`: puts a log together, and refuses one with more than four topics.
#[verifier::external_body]
pub(crate) fn new_log(address: &Address, topics: &Vec<B256>, data: &Vec<u8>) -> (r: Option<
    LogStruct,
>)
    ensures
        r is Some <==> topics@.len() <= 4,
        r is Some ==> r->0.address == *address && r->0.topics@ == topics@ && r->0.data@ == data@,
{
    let topics: Vec<alloy_primitives::B256> = topics.iter().map(|t| alloy_primitives::B256::from(*t)).collect();
    let data = alloy_primitives::Bytes::from(data.clone());
    alloy_primitives::Log::new(alloy_primitives::Address::from(*address), topics, data).map(|log| LogStruct {
        address: log.address.into_array(),
        topics: log.topics().iter().map(|t| t.0).collect(),
        data: log.data.data.to_vec(),
    })
}

} // verus!
