use vstd::prelude::*;

use crate::chain::ErrorChain;

verus! {

/// The view of an optional string.
pub open spec fn opt_view(o: Option<String>) -> Option<Seq<char>> {
    match o {
        Some(s) => Some(s@),
        None => None,
    }
}

/// The first value stored under `key`, if any.
pub open spec fn lookup(entries: Seq<(Seq<char>, Seq<u8>)>, key: Seq<char>) -> Option<Seq<u8>>
    decreases entries.len(),
{
    if entries.len() == 0 {
        None
    } else if entries[0].0 == key {
        Some(entries[0].1)
    } else {
        lookup(entries.drop_first(), key)
    }
}

/// The entries whose key differs from `key`, in their order.
pub open spec fn without_key(entries: Seq<(Seq<char>, Seq<u8>)>, key: Seq<char>) -> Seq<
    (Seq<char>, Seq<u8>),
>
    decreases entries.len(),
{
    if entries.len() == 0 {
        entries
    } else if entries.last().0 == key {
        without_key(entries.drop_last(), key)
    } else {
        without_key(entries.drop_last(), key).push(entries.last())
    }
}

/// Binary metadata of a status: byte values under string keys, in order of insertion.
pub struct MetadataMap {
    entries: Vec<(String, Vec<u8>)>,
}

impl View for MetadataMap {
    type V = Seq<(Seq<char>, Seq<u8>)>;

    closed spec fn view(&self) -> Seq<(Seq<char>, Seq<u8>)> {
        self.entries@.map_values(|e: (String, Vec<u8>)| (e.0@, e.1@))
    }
}

impl MetadataMap {
    /// An empty map.
    pub fn new() -> (r: MetadataMap)
        ensures
            r@ == Seq::<(Seq<char>, Seq<u8>)>::empty(),
    {
        let r = MetadataMap { entries: Vec::new() };
        proof {
            assert(r@ =~= Seq::<(Seq<char>, Seq<u8>)>::empty());
        }
        r
    }

    /// Number of entries.
    pub fn len(&self) -> (r: usize)
        ensures
            r == self@.len(),
    {
        self.entries.len()
    }

    /// The entry at `i`, in order of insertion.
    pub fn entry(&self, i: usize) -> (r: (&String, &Vec<u8>))
        requires
            i < self@.len(),
        ensures
            r.0@ == self@[i as int].0,
            r.1@ == self@[i as int].1,
    {
        let e = &self.entries[i];
        (&e.0, &e.1)
    }

    /// The first value stored under `key`.
    pub fn get_bin(&self, key: &String) -> (r: Option<&Vec<u8>>)
        ensures
            match r {
                Some(v) => lookup(self@, key@) == Some(v@),
                None => lookup(self@, key@) is None,
            },
    {
        let mut i: usize = 0;
        proof {
            assert(self@.skip(0) =~= self@);
        }
        while i < self.entries.len()
            invariant
                i <= self@.len(),
                self@.len() == self.entries@.len(),
                lookup(self@, key@) == lookup(self@.skip(i as int), key@),
            decreases self.entries@.len() - i,
        {
            proof {
                assert(self@.skip(i as int).drop_first() =~= self@.skip(i + 1));
            }
            if self.entries[i].0 == *key {
                return Some(&self.entries[i].1);
            }
            i = i + 1;
        }
        proof {
            assert(self@.skip(i as int).len() == 0);
        }
        None
    }

    /// Stores `value` under `key`, replacing whatever was stored under it.
    pub fn insert_bin(&mut self, key: String, value: Vec<u8>)
        ensures
            final(self)@ == without_key(old(self)@, key@).push((key@, value@)),
    {
        let mut kept: Vec<(String, Vec<u8>)> = Vec::new();
        let mut rest: Vec<(String, Vec<u8>)> = Vec::new();
        core::mem::swap(&mut rest, &mut self.entries);
        let ghost all = rest@.map_values(|e: (String, Vec<u8>)| (e.0@, e.1@));
        proof {
            assert(all == old(self)@);
        }
        let mut i: usize = 0;
        let n = rest.len();
        while rest.len() > 0
            invariant
                n == all.len(),
                i + rest@.len() == n,
                rest@.map_values(|e: (String, Vec<u8>)| (e.0@, e.1@)) == all.skip(i as int),
                kept@.map_values(|e: (String, Vec<u8>)| (e.0@, e.1@)) == without_key(
                    all.take(i as int),
                    key@,
                ),
            decreases rest@.len(),
        {
            let ghost before = kept@;
            let ghost old_rest = rest@;
            let e = rest.remove(0);
            proof {
                assert(rest@ =~= old_rest.skip(1));
                assert(old_rest.skip(1).map_values(|e: (String, Vec<u8>)| (e.0@, e.1@)) =~= old_rest.map_values(
                    |e: (String, Vec<u8>)| (e.0@, e.1@),
                ).skip(1));
                assert(all.skip(i as int).skip(1) =~= all.skip(i + 1));
                assert(all.take(i + 1).drop_last() =~= all.take(i as int));
                assert(all[i as int] == (e.0@, e.1@)) by {
                    assert(all.skip(i as int)[0] == all[i as int]);
                }
                assert(rest@.map_values(|e: (String, Vec<u8>)| (e.0@, e.1@)) =~= all.skip(i + 1));
            }
            if e.0 != key {
                kept.push(e);
                proof {
                    assert(kept@.map_values(|e: (String, Vec<u8>)| (e.0@, e.1@)) =~= before.map_values(
                        |e: (String, Vec<u8>)| (e.0@, e.1@),
                    ).push(all[i as int]));
                }
            }
            i = i + 1;
        }
        proof {
            assert(all.take(n as int) =~= all);
        }
        let ghost before = kept@;
        kept.push((key, value));
        proof {
            assert(kept@.map_values(|e: (String, Vec<u8>)| (e.0@, e.1@)) =~= before.map_values(
                |e: (String, Vec<u8>)| (e.0@, e.1@),
            ).push((key@, value@)));
        }
        self.entries = kept;
    }
}

/// The text that describes a status code; a code out of range reads as unknown.
pub open spec fn code_text(code: i32) -> Seq<char> {
    match code {
        0 => "The operation completed successfully"@,
        1 => "The operation was cancelled"@,
        3 => "Client specified an invalid argument"@,
        4 => "Deadline expired before operation could complete"@,
        5 => "Some requested entity was not found"@,
        6 => "Some entity that we attempted to create already exists"@,
        7 => "The caller does not have permission to execute the specified operation"@,
        8 => "Some resource has been exhausted"@,
        9 => "The system is not in a state required for the operation's execution"@,
        10 => "The operation was aborted"@,
        11 => "Operation was attempted past the valid range"@,
        12 => "Operation is not implemented or not supported"@,
        13 => "Internal error"@,
        14 => "The service is currently unavailable"@,
        15 => "Unrecoverable data loss or corruption"@,
        16 => "The request does not have valid authentication credentials"@,
        _ => "Unknown error"@,
    }
}

/// Relies on tonic::Code::from_i32, which maps 0 to 16 to their codes and
/// anything else to `Unknown`, and on tonic::Code::description, whose table
/// `code_text` restates.
#[verifier::external_body]
pub(crate) fn code_description(code: i32) -> (r: String)
    ensures
        r@ == code_text(code),
{
    tonic::Code::from_i32(code).description().to_string()
}

/// The record that carries an error chain across the wire: the chain and the
/// name of the service that raised it.
pub struct ServerError {
    pub error: ErrorChain,
    pub service_name: Option<String>,
}

impl View for ServerError {
    type V = (Seq<Seq<char>>, Option<Seq<char>>);

    open spec fn view(&self) -> (Seq<Seq<char>>, Option<Seq<char>>) {
        (self.error@, opt_view(self.service_name))
    }
}

impl ServerError {
    /// Copies the record.
    pub fn duplicate(&self) -> (r: ServerError)
        ensures
            r@ == self@,
    {
        let service_name = match &self.service_name {
            Some(s) => Some(s.clone()),
            None => None,
        };
        ServerError { error: self.error.duplicate(), service_name }
    }
}

/// What a status holds: its code, its message, its binary metadata and the
/// record attached to it in this process, if any.
pub struct StatusView {
    pub code: i32,
    pub message: Seq<char>,
    pub metadata: Seq<(Seq<char>, Seq<u8>)>,
    pub source: Option<(Seq<Seq<char>>, Option<Seq<char>>)>,
}

/// The outcome of a remote call: a code, a message, binary metadata, and a
/// source record that lives only in the process that attached it.
pub struct Status {
    code: i32,
    message: String,
    metadata: MetadataMap,
    source: Option<ServerError>,
}

/// The view of an optional record.
pub open spec fn source_view(o: Option<ServerError>) -> Option<(Seq<Seq<char>>, Option<Seq<char>>)> {
    match o {
        Some(e) => Some(e@),
        None => None,
    }
}

impl View for Status {
    type V = StatusView;

    closed spec fn view(&self) -> StatusView {
        StatusView {
            code: self.code,
            message: self.message@,
            metadata: self.metadata@,
            source: source_view(self.source),
        }
    }
}

impl Status {
    /// A status with the given code, message and metadata, and no source.
    pub fn with_metadata(code: i32, message: String, metadata: MetadataMap) -> (r: Status)
        ensures
            r@ == (StatusView { code, message: message@, metadata: metadata@, source: None }),
    {
        Status { code, message, metadata, source: None }
    }

    /// The status code.
    pub fn code(&self) -> (r: i32)
        ensures
            r == self@.code,
    {
        self.code
    }

    /// The message, as sent.
    pub fn message(&self) -> (r: &String)
        ensures
            r@ == self@.message,
    {
        &self.message
    }

    /// The binary metadata.
    pub fn metadata(&self) -> (r: &MetadataMap)
        ensures
            r@ == self@.metadata,
    {
        &self.metadata
    }

    /// The record attached in this process, if any.
    pub fn source(&self) -> (r: Option<&ServerError>)
        ensures
            match r {
                Some(e) => self@.source == Some(e@),
                None => self@.source is None,
            },
    {
        match &self.source {
            Some(e) => Some(e),
            None => None,
        }
    }

    /// Attaches `source` as the record of this status.
    pub fn set_source(&mut self, source: ServerError)
        ensures
            final(self)@ == (StatusView { source: Some(source@), ..old(self)@ }),
    {
        self.source = Some(source);
    }
}

} // verus!
