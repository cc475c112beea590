//! The identity-verification capability the publish pipeline consults: a
//! token either resolves to a user identity or the publish is refused.
//! Implementations (an OpenID Connect verifier, for one) live with the
//! network code that backs them; the pipeline depends only on this
//! interface.

use vstd::prelude::*;
use crate::errors::PublishError;

verus! {

/// The identity a verified token resolves to.
pub struct AuthenticationUserInfo {
    pub sub: String,
    pub name: Option<String>,
}

/// Verifies the token sent with a publish request.
pub trait Authentication {
    fn authenticate(&self, token: &str) -> Result<AuthenticationUserInfo, PublishError>;
}

} // verus!
