//! A time-to-live controller for installed releases: the decisions of one
//! reconcile pass, verified, over plain models of time and of the resource.

pub mod crd;
pub mod laws;
pub mod reconcile;
pub mod time;
