//! Carries an error together with its whole causal chain through the status
//! of a remote call, and rebuilds that chain on the receiving side.
//!
//! The encoder renders each link of the chain, serialises the record into a
//! reserved binary metadata entry and keeps the outermost display string in
//! the plain message. The wrapper reads that entry back, falls back to the
//! plain message where it is absent or does not decode, and renders a stable
//! one-line description of the failure.

mod chain;
mod encode;
mod expr_in;
mod laws;
mod status;
mod wire;
mod wrapper;

pub use chain::ErrorChain;
pub use encode::{to_status, ErrorSource, ToTonicStatus};
pub use laws::{
    law_display_with_service, law_display_without_service, law_message_is_outermost,
    law_no_entry_falls_back, law_rewrap_is_identity, law_round_trip, law_round_trip_in_process,
    law_undecodable_entry_falls_back,
};
pub use status::{MetadataMap, ServerError, Status, StatusView};
pub use wire::ERROR_KEY;
pub use wrapper::TonicStatusWrapper;
pub use expr_in::{
    ArrayImpl, DataChunk, DataChunkBuilder, DataType, Datum, ExprError, InExpression,
    InputRefExpression, ScalarImpl,
};
