//! A photo gallery backend: the rules for naming stored blobs, for reading an
//! upload form, and for turning storage outcomes into replies.

pub mod form;
pub mod model;
pub mod naming;
pub mod reply;
pub mod storage;
