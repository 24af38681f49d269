use vstd::prelude::*;

use crate::encode::encodes;
use crate::status::{code_text, lookup, StatusView};
use crate::wire::{record_decoded, ERROR_KEY};
use crate::wrapper::{chain_of, decode_fails, display_of, over_the_wire, wrapped};

verus! {

/// An encoded status, once it has crossed the wire and been wrapped, gives
/// back the whole chain in order and the service name.
pub proof fn law_round_trip(
    s: StatusView,
    chain: Seq<Seq<char>>,
    code: i32,
    service_name: Option<Seq<char>>,
)
    requires
        chain.len() >= 1,
        encodes(s, chain, code, service_name),
    ensures
        wrapped(over_the_wire(s)).source == Some((chain, service_name)),
        chain_of(wrapped(over_the_wire(s))) == chain,
        !decode_fails(over_the_wire(s)),
{
    assert(lookup(s.metadata, ERROR_KEY@) == Some(s.metadata[0].1));
}

/// An encoded status wrapped in the process that built it keeps its record.
pub proof fn law_round_trip_in_process(
    s: StatusView,
    chain: Seq<Seq<char>>,
    code: i32,
    service_name: Option<Seq<char>>,
)
    requires
        encodes(s, chain, code, service_name),
    ensures
        wrapped(s) == s,
        chain_of(wrapped(s)) == chain,
        !decode_fails(s),
{
}

/// A status without the reserved entry is wrapped unchanged, with an empty
/// chain, no warning, and a description that ends with its message.
pub proof fn law_no_entry_falls_back(s: StatusView)
    requires
        s.source is None,
        lookup(s.metadata, ERROR_KEY@) is None,
    ensures
        wrapped(s) == s,
        chain_of(wrapped(s)) == Seq::<Seq<char>>::empty(),
        !decode_fails(s),
        display_of(wrapped(s)) == ("remote call"@ + " failed: "@ + code_text(s.code) + ": "@)
            + s.message,
{
    assert(("remote call"@ + Seq::<char>::empty()) =~= "remote call"@);
}

/// A status whose reserved entry does not decode is wrapped as one without
/// the entry, and exactly this case asks for a warning.
pub proof fn law_undecodable_entry_falls_back(s: StatusView)
    requires
        s.source is None,
        lookup(s.metadata, ERROR_KEY@) matches Some(bytes) && record_decoded(bytes) is None,
    ensures
        wrapped(s) == s,
        chain_of(wrapped(s)) == Seq::<Seq<char>>::empty(),
        decode_fails(s),
        display_of(wrapped(s)) == ("remote call"@ + " failed: "@ + code_text(s.code) + ": "@)
            + s.message,
{
    assert(("remote call"@ + Seq::<char>::empty()) =~= "remote call"@);
}

/// Wrapping the status of a wrapper again changes nothing; wrapping depends
/// on the status alone, so wrapping one status twice gives the same chain.
pub proof fn law_rewrap_is_identity(s: StatusView)
    ensures
        wrapped(wrapped(s)) == wrapped(s),
        chain_of(wrapped(wrapped(s))) == chain_of(wrapped(s)),
{
}

/// Encoded with a service name, the description names that service, after
/// the wire as in process.
pub proof fn law_display_with_service(
    s: StatusView,
    chain: Seq<Seq<char>>,
    code: i32,
    name: Seq<char>,
)
    requires
        chain.len() >= 1,
        encodes(s, chain, code, Some(name)),
    ensures
        display_of(wrapped(over_the_wire(s))) == "remote call"@ + (" to "@ + name + " service"@)
            + " failed: "@ + code_text(code) + ": "@ + chain[0],
        display_of(wrapped(s)) == display_of(wrapped(over_the_wire(s))),
{
    law_round_trip(s, chain, code, Some(name));
}

/// Encoded without a service name, the description has no service clause.
pub proof fn law_display_without_service(s: StatusView, chain: Seq<Seq<char>>, code: i32)
    requires
        chain.len() >= 1,
        encodes(s, chain, code, None),
    ensures
        display_of(wrapped(over_the_wire(s))) == "remote call"@ + " failed: "@ + code_text(code)
            + ": "@ + chain[0],
        display_of(wrapped(s)) == display_of(wrapped(over_the_wire(s))),
{
    assert(("remote call"@ + Seq::<char>::empty()) =~= "remote call"@);
    law_round_trip(s, chain, code, None);
}

/// The message of an encoded status, read without decoding anything, is the
/// display string of the error alone.
pub proof fn law_message_is_outermost(
    s: StatusView,
    chain: Seq<Seq<char>>,
    code: i32,
    service_name: Option<Seq<char>>,
)
    requires
        encodes(s, chain, code, service_name),
    ensures
        over_the_wire(s).message == chain[0],
        s.message == chain[0],
{
}

} // verus!
