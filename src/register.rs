//! The peer registry contract. It acknowledges its instantiation and offers
//! no other operation yet: every other request is answered as unavailable.

use vstd::prelude::*;

verus! {

#[derive(Clone, Copy, Debug, PartialEq, Eq, Structural)]
pub enum RegistryError {
    /// The registry does not offer this operation.
    Unavailable,
}

/// Acknowledges the registry's instantiation.
pub fn instantiate() -> (r: Result<(), RegistryError>)
    ensures
        r is Ok,
{
    Ok(())
}

/// A request to the registry: unavailable.
pub fn execute() -> (r: Result<(), RegistryError>)
    ensures
        r == Err::<(), RegistryError>(RegistryError::Unavailable),
{
    Err(RegistryError::Unavailable)
}

/// A query of the registry: unavailable.
pub fn query() -> (r: Result<(), RegistryError>)
    ensures
        r == Err::<(), RegistryError>(RegistryError::Unavailable),
{
    Err(RegistryError::Unavailable)
}

/// A migration of the registry: unavailable.
pub fn migrate() -> (r: Result<(), RegistryError>)
    ensures
        r == Err::<(), RegistryError>(RegistryError::Unavailable),
{
    Err(RegistryError::Unavailable)
}

} // verus!
