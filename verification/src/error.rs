//! Why a gateway operation failed.

use vstd::prelude::*;

verus! {

/// The ways in which a gateway operation fails. Every failure is handed to
/// the caller; none is retried or swallowed.
#[derive(Debug, Clone, Copy, PartialEq, Eq)]
pub enum GatewayError {
    /// The lifetime of the grant could not be expressed to the backend.
    ExpiryConfiguration,
    /// The backend could not produce a signed request.
    Signing,
    /// The backend rejected a direct write or could not complete it.
    Transfer,
}

impl GatewayError {
    /// The text of [`GatewayError::message`].
    pub open spec fn message_spec(self) -> Seq<char> {
        match self {
            GatewayError::ExpiryConfiguration => "Não conseguimos definir a duração da url"@,
            GatewayError::Signing => "Não conseguimos gerar a uri do objeto requisitado"@,
            GatewayError::Transfer => "Não conseguimos enviar o objeto requisitado"@,
        }
    }

    /// A description of the failure for people to read.
    pub fn message(&self) -> (text: String)
        ensures
            text@ == self.message_spec(),
    {
        match self {
            GatewayError::ExpiryConfiguration => "Não conseguimos definir a duração da url".to_owned(),
            GatewayError::Signing => "Não conseguimos gerar a uri do objeto requisitado".to_owned(),
            GatewayError::Transfer => "Não conseguimos enviar o objeto requisitado".to_owned(),
        }
    }
}

} // verus!
