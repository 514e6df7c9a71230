//! Target launcher core: decides how a target file is to be run, which
//! permission bits it must carry first, and what exit status to relay.
pub mod launch;
pub mod path;
pub mod permissions;
pub mod strategy;
