//! An HTTP client for game servers that never blocks the game.
//!
//! The script side asks for a request with a table of options and gets its
//! callbacks called when there is a response or an error. This library holds
//! the decisions of the client; the driver around it does the waiting, the
//! network and the calls into the script engine.
//!
//! - [`table`]: tables of named values, to and from the script side
//! - [`request`]: from options to a request that can be sent, with [`url`],
//!   [`method`] and [`headers`]; [`request_laws`] says what it is, part by part
//! - [`launch`]: from options to a request on its way, or to the answer that a
//!   refused request gets
//! - [`retry`]: what is tried again, and when
//! - [`transfer`]: a request on its way, as a state machine; [`transfer_laws`]
//!   says what holds of it over its whole way
//! - [`callback`]: what a finished request hands to the script side
//! - [`worker`]: what all requests share, with [`stats`], [`registry`], [`token`]
//!   and [`budget`]
//! - [`history`]: what holds of all of it, in whatever order things happen
//! - [`limits`]: the fixed limits
//! - [`error`]: why a request is refused

pub mod budget;
pub mod callback;
pub mod error;
pub mod headers;
pub mod history;
pub mod launch;
pub mod limits;
pub mod method;
pub mod registry;
pub mod request;
pub mod request_laws;
pub mod retry;
pub mod stats;
pub mod table;
pub mod token;
pub mod transfer;
pub mod transfer_laws;
pub mod url;
pub mod worker;
