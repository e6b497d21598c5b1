//! A small HTTP(S) dispatch core: filters in front of handlers, a fallback
//! handler, a JSON body step, a redirect to the secure endpoint, and the
//! startup decisions that pick which listeners serve what.
pub mod http;
pub mod redirect;
pub mod server;
