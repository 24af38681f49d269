use vstd::prelude::*;

use crate::chain::ErrorChain;
use crate::status::ServerError;

verus! {

/// The binary metadata key under which the serialised record travels. No other
/// data may be stored under it.
pub const ERROR_KEY: &'static str = "error-chain-bin";

/// The bytes that encode a record.
pub uninterp spec fn record_bytes(record: (Seq<Seq<char>>, Option<Seq<char>>)) -> Seq<u8>;

/// The record that a byte string decodes to, if it decodes.
pub uninterp spec fn record_decoded(bytes: Seq<u8>) -> Option<(Seq<Seq<char>>, Option<Seq<char>>)>;

/// Relies on bincode::serialize of the record's fields (outermost display,
/// causes, service name): with the default options there is no size limit,
/// strings and vectors know their lengths and the writer is a `Vec`, so it
/// succeeds; the bytes depend on the record alone, and bincode::deserialize
/// with the same default options reads the same record back.
#[verifier::external_body]
pub(crate) fn encode_record(record: &ServerError) -> (r: Option<Vec<u8>>)
    ensures
        r is Some,
        r matches Some(b) ==> b@ == record_bytes(record@),
        r matches Some(b) ==> record_decoded(b@) == Some(record@),
{
    bincode::serialize(&(&record.error.outermost, &record.error.causes, &record.service_name)).ok()
}

/// Relies on bincode::deserialize into (outermost display, causes, service
/// name): the outcome depends on the bytes alone.
#[verifier::external_body]
pub(crate) fn decode_record(bytes: &Vec<u8>) -> (r: Option<ServerError>)
    ensures
        match r {
            Some(e) => record_decoded(bytes@) == Some(e@),
            None => record_decoded(bytes@) is None,
        },
{
    match bincode::deserialize::<(String, Vec<String>, Option<String>)>(bytes.as_slice()) {
        Ok((outermost, causes, service_name)) => Some(ServerError {
            error: ErrorChain { outermost, causes },
            service_name,
        }),
        Err(_) => None,
    }
}

} // verus!
