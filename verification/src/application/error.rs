use vstd::prelude::*;
use crate::domain::error::DomainError;
use crate::domain::peer::PeerAddress;

verus! {

#[derive(Debug)]
pub enum RepositoryError {
    NotFound,
    AlreadyExists,
    PersistenceError(String),
}

#[derive(Debug)]
pub enum ConnectionServiceError {
    InvalidAddress(PeerAddress),
    ConnectionError(String),
    NotConnected,
    SendError(String),
}

#[derive(Debug)]
pub enum ApplicationError {
    DomainError(DomainError),
    RepositoryError(RepositoryError),
    PeerAlreadyExists,
    NetworkError(ConnectionServiceError),
}

impl Clone for DomainError {
    fn clone(&self) -> (r: Self)
        ensures
            r == *self,
    {
        match self {
            DomainError::PeerNotFound(s) => DomainError::PeerNotFound(s.clone()),
        }
    }
}

impl Clone for RepositoryError {
    fn clone(&self) -> (r: Self)
        ensures
            r == *self,
    {
        match self {
            RepositoryError::NotFound => RepositoryError::NotFound,
            RepositoryError::AlreadyExists => RepositoryError::AlreadyExists,
            RepositoryError::PersistenceError(s) => RepositoryError::PersistenceError(s.clone()),
        }
    }
}

impl Clone for ConnectionServiceError {
    fn clone(&self) -> (r: Self)
        ensures
            r == *self,
    {
        match self {
            ConnectionServiceError::InvalidAddress(a) => ConnectionServiceError::InvalidAddress(
                a.clone(),
            ),
            ConnectionServiceError::ConnectionError(s) => ConnectionServiceError::ConnectionError(
                s.clone(),
            ),
            ConnectionServiceError::NotConnected => ConnectionServiceError::NotConnected,
            ConnectionServiceError::SendError(s) => ConnectionServiceError::SendError(s.clone()),
        }
    }
}

impl Clone for ApplicationError {
    fn clone(&self) -> (r: Self)
        ensures
            r == *self,
    {
        match self {
            ApplicationError::DomainError(e) => ApplicationError::DomainError(e.clone()),
            ApplicationError::RepositoryError(e) => ApplicationError::RepositoryError(e.clone()),
            ApplicationError::PeerAlreadyExists => ApplicationError::PeerAlreadyExists,
            ApplicationError::NetworkError(e) => ApplicationError::NetworkError(e.clone()),
        }
    }
}

/// A copy of a run's result.
pub fn clone_result(r: &Result<(), ApplicationError>) -> (c: Result<(), ApplicationError>)
    ensures
        c == *r,
{
    match r {
        Ok(u) => Ok(*u),
        Err(e) => Err(e.clone()),
    }
}

} // verus!
