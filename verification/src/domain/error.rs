use vstd::prelude::*;

verus! {

#[derive(Debug)]
pub enum DomainError {
    PeerNotFound(String),
}

} // verus!
