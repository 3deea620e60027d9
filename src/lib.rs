//! A thin REST front-end for one "project" resource kept in an external
//! document store: the record shapes, the outbound call plans and the
//! response envelopes, with their contracts.
pub mod handlers;
pub mod model;
pub mod services;
