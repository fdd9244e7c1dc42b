//! Decision core of an authenticated streaming session: which reaction each
//! connectivity or token event calls for, a single-flight reconnect
//! scheduler, the observable token state, and the session facade that hands
//! out client handles gated on the sync flag.
pub mod events;
pub mod reconnect;
pub mod server;
pub mod supervisor;
pub mod token;
