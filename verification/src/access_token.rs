//! The bearer token of a session.
use vstd::prelude::*;

verus! {

/// A token as the platform issued it.
#[derive(Debug, Clone)]
pub struct AccessToken {
    /// The kind of token, such as `Bearer`; empty until the platform names one.
    pub token_type: String,
    /// The opaque credential.
    pub value: String,
    /// When the platform issued the token, as the platform wrote it.
    pub issued_at: String,
}

/// What an [`AccessToken`] stands for.
pub struct AccessTokenView {
    pub token_type: Seq<char>,
    pub value: Seq<char>,
    pub issued_at: Seq<char>,
}

impl View for AccessToken {
    type V = AccessTokenView;

    open spec fn view(&self) -> AccessTokenView {
        AccessTokenView {
            token_type: self.token_type@,
            value: self.value@,
            issued_at: self.issued_at@,
        }
    }
}

impl AccessToken {
    /// The token with every field empty.
    pub fn default() -> (r: AccessToken)
        ensures
            r@.token_type == Seq::<char>::empty(),
            r@.value == Seq::<char>::empty(),
            r@.issued_at == Seq::<char>::empty(),
    {
        AccessToken { token_type: String::new(), value: String::new(), issued_at: String::new() }
    }
}

} // verus!
