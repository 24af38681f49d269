use vstd::prelude::*;

use crate::chain::ErrorChain;
use crate::status::{opt_view, MetadataMap, ServerError, Status, StatusView};
use crate::wire::{encode_record, record_bytes, record_decoded, ERROR_KEY};

verus! {

/// What an encoded status holds: the code, the outermost display string as
/// its message, the record attached in process, and a single metadata entry:
/// the serialised record under the reserved key, which decodes to that record.
pub open spec fn encodes(
    s: StatusView,
    chain: Seq<Seq<char>>,
    code: i32,
    service_name: Option<Seq<char>>,
) -> bool {
    &&& s.code == code
    &&& s.message == chain[0]
    &&& s.source == Some((chain, service_name))
    &&& s.metadata == seq![(ERROR_KEY@, record_bytes((chain, service_name)))]
    &&& record_decoded(record_bytes((chain, service_name))) == Some((chain, service_name))
}

/// Builds the status that carries `error` and its causes, with `code`, and
/// the name of the service that raised it if given.
pub fn to_status(error: &ErrorChain, code: i32, service_name: Option<String>) -> (r: Status)
    ensures
        encodes(r@, error@, code, opt_view(service_name)),
{
    let source = ServerError { error: error.duplicate(), service_name };
    let encoded = encode_record(&source);
    let mut metadata = MetadataMap::new();
    match encoded {
        Some(bytes) => {
            metadata.insert_bin(ERROR_KEY.to_owned(), bytes);
        },
        None => {},
    }
    let mut status = Status::with_metadata(code, error.display(), metadata);
    status.set_source(source);
    status
}

/// A value that renders itself and its causes as a chain of display strings,
/// outermost first.
pub trait ErrorSource {
    /// The rendered chain.
    spec fn chain_view(&self) -> Seq<Seq<char>>;

    /// Renders the chain.
    fn error_chain(&self) -> (r: ErrorChain)
        ensures
            r@ == self.chain_view(),
    ;
}

impl ErrorSource for ErrorChain {
    open spec fn chain_view(&self) -> Seq<Seq<char>> {
        self@
    }

    fn error_chain(&self) -> (r: ErrorChain) {
        self.duplicate()
    }
}

/// Turns an error into the status that carries it and its causes.
pub trait ToTonicStatus: ErrorSource {
    /// Builds the status that carries this error and its causes, with `code`
    /// and the name of the service that raised it.
    fn to_status(&self, code: i32, service_name: String) -> (r: Status)
        ensures
            encodes(r@, self.chain_view(), code, Some(service_name@)),
    ;

    /// Builds the status that carries this error and its causes, with `code`
    /// and no service name.
    fn to_status_unnamed(&self, code: i32) -> (r: Status)
        ensures
            encodes(r@, self.chain_view(), code, None),
    ;
}

impl<T: ErrorSource> ToTonicStatus for T {
    fn to_status(&self, code: i32, service_name: String) -> (r: Status) {
        to_status(&self.error_chain(), code, Some(service_name))
    }

    fn to_status_unnamed(&self, code: i32) -> (r: Status) {
        to_status(&self.error_chain(), code, None)
    }
}

} // verus!
