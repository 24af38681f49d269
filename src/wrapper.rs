use vstd::prelude::*;

use crate::chain::views_of;
use crate::status::{code_description, code_text, lookup, Status, StatusView};
use crate::wire::{decode_record, record_decoded, ERROR_KEY};

verus! {

/// What reaches the receiving side: the code, the message and the metadata,
/// without the record attached in the sending process.
pub open spec fn over_the_wire(s: StatusView) -> StatusView {
    StatusView { source: None, ..s }
}

/// The status after reconstruction: a status that already has a record keeps
/// it; otherwise the record decoded from the reserved entry is attached, where
/// the entry is present and decodes.
pub open spec fn wrapped(s: StatusView) -> StatusView {
    if s.source is Some {
        s
    } else {
        match lookup(s.metadata, ERROR_KEY@) {
            Some(bytes) => match record_decoded(bytes) {
                Some(record) => StatusView { source: Some(record), ..s },
                None => s,
            },
            None => s,
        }
    }
}

/// Whether reconstruction meets a reserved entry that does not decode.
pub open spec fn decode_fails(s: StatusView) -> bool {
    &&& s.source is None
    &&& lookup(s.metadata, ERROR_KEY@) matches Some(bytes)
    &&& record_decoded(bytes) is None
}

/// The clause that names the service, if one is known.
pub open spec fn service_clause(service_name: Option<Seq<char>>) -> Seq<char> {
    match service_name {
        Some(name) => " to "@ + name + " service"@,
        None => Seq::empty(),
    }
}

/// The one-line description of a failed call.
pub open spec fn display_text(service_name: Option<Seq<char>>, code: i32, body: Seq<char>) -> Seq<
    char,
> {
    "remote call"@ + service_clause(service_name) + " failed: "@ + code_text(code) + ": "@ + body
}

/// The description of a status: the service and the outermost display string
/// come from its record where it has one; otherwise the body is its message.
pub open spec fn display_of(s: StatusView) -> Seq<char> {
    match s.source {
        Some(record) => display_text(record.1, s.code, record.0[0]),
        None => display_text(None, s.code, s.message),
    }
}

/// The reconstructed chain of a status, empty where it has no record.
pub open spec fn chain_of(s: StatusView) -> Seq<Seq<char>> {
    match s.source {
        Some(record) => record.0,
        None => Seq::empty(),
    }
}

/// A received status together with the error chain rebuilt from its metadata.
pub struct TonicStatusWrapper {
    status: Status,
    decode_failed: bool,
}

impl View for TonicStatusWrapper {
    /// The wrapped status, and whether its reserved entry failed to decode.
    type V = (StatusView, bool);

    closed spec fn view(&self) -> (StatusView, bool) {
        (self.status@, self.decode_failed)
    }
}

impl TonicStatusWrapper {
    /// Wraps `status`, attaching the record decoded from its reserved entry
    /// unless it already has one.
    pub fn new(status: Status) -> (r: TonicStatusWrapper)
        ensures
            r@.0 == wrapped(status@),
            r@.1 == decode_fails(status@),
    {
        let mut status = status;
        let mut decode_failed = false;
        if status.source().is_none() {
            let key = ERROR_KEY.to_owned();
            let decoded = match status.metadata().get_bin(&key) {
                Some(bytes) => Some(decode_record(bytes)),
                None => None,
            };
            match decoded {
                Some(Some(record)) => status.set_source(record),
                Some(None) => decode_failed = true,
                None => {},
            }
        }
        TonicStatusWrapper { status, decode_failed }
    }

    /// The wrapped status.
    pub fn inner(&self) -> (r: &Status)
        ensures
            r@ == self@.0,
    {
        &self.status
    }

    /// Gives back the wrapped status.
    pub fn into_inner(self) -> (r: Status)
        ensures
            r@ == self@.0,
    {
        self.status
    }

    /// Whether the reserved entry was present but could not be decoded; a
    /// warning is owed exactly then.
    pub fn decode_failed(&self) -> (r: bool)
        ensures
            r == self@.1,
    {
        self.decode_failed
    }

    /// The display strings of the reconstructed chain, outermost first; empty
    /// where nothing was reconstructed.
    pub fn source_chain(&self) -> (r: Vec<String>)
        ensures
            views_of(r@) == chain_of(self@.0),
    {
        match self.status.source() {
            Some(record) => record.error.displays(),
            None => {
                let r: Vec<String> = Vec::new();
                proof {
                    assert(views_of(r@) =~= Seq::<Seq<char>>::empty());
                }
                r
            },
        }
    }

    /// The one-line description of the failure.
    pub fn to_string(&self) -> (r: String)
        ensures
            r@ == display_of(self@.0),
    {
        let mut out = String::from_str("remote call");
        let record = self.status.source();
        match record {
            Some(e) => match &e.service_name {
                Some(name) => {
                    out.append(" to ");
                    out.append(name.as_str());
                    out.append(" service");
                },
                None => {},
            },
            None => {},
        }
        out.append(" failed: ");
        let code = code_description(self.status.code());
        out.append(code.as_str());
        out.append(": ");
        match record {
            Some(e) => {
                let body = e.error.display();
                out.append(body.as_str());
            },
            None => {
                out.append(self.status.message().as_str());
            },
        }
        out
    }
}

impl From<Status> for TonicStatusWrapper {
    /// Wraps `status` as `new` does.
    fn from(status: Status) -> (r: TonicStatusWrapper)
        ensures
            r@.0 == wrapped(status@),
            r@.1 == decode_fails(status@),
    {
        TonicStatusWrapper::new(status)
    }
}

impl vstd::std_specs::convert::FromSpecImpl<Status> for TonicStatusWrapper {
    open spec fn obeys_from_spec() -> bool {
        false
    }

    open spec fn from_spec(v: Status) -> TonicStatusWrapper {
        choose|w: TonicStatusWrapper| w@ == (wrapped(v@), decode_fails(v@))
    }
}

} // verus!
