//! Layer-2 transform for the OpenAI Responses event stream: the events'
//! classification, the reconciliation of streamed fragments with the final
//! snapshot, and the per-event decisions of the stream.

pub mod model;
pub mod merge;
pub mod slots;
pub mod events;
pub mod streamed;
pub mod reconcile;
pub mod stream;
