use vstd::prelude::*;

verus! {

/// The errors that reach the caller of the cluster client.
#[derive(Debug)]
pub enum Error {
    /// The placement driver could not be reached or gave no usable answer.
    PdError(String),
    /// A TiKV request failed at the transport level.
    KvError(String),
}

pub type Result<T> = std::result::Result<T, Error>;

} // verus!
