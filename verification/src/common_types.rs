//! Types shared by the notifications of every service.

use vstd::prelude::*;

verus! {

/// Who owns a resource.
#[derive(Debug, Clone, PartialEq, Eq)]
pub struct UserIdentity {
    pub principal_id: String,
}

/// The mathematical value of a [`UserIdentity`].
pub struct UserIdentityView {
    pub principal_id: Seq<char>,
}

impl View for UserIdentity {
    type V = UserIdentityView;

    open spec fn view(&self) -> UserIdentityView {
        UserIdentityView { principal_id: self.principal_id@ }
    }
}

} // verus!
