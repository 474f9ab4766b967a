//! A granted token.
use vstd::prelude::*;
use crate::text::opt_text;

verus! {

/// The body with which the token endpoint grants a token.
#[derive(Debug, Clone)]
pub struct TokenResponse {
    pub id: String,
    pub issued_at: String,
    pub access_token: String,
    pub instance_url: String,
    pub signature: String,
    pub token_type: Option<String>,
}

/// What a [`TokenResponse`] stands for.
pub struct TokenResponseView {
    pub id: Seq<char>,
    pub issued_at: Seq<char>,
    pub access_token: Seq<char>,
    pub instance_url: Seq<char>,
    pub signature: Seq<char>,
    pub token_type: Option<Seq<char>>,
}

impl View for TokenResponse {
    type V = TokenResponseView;

    open spec fn view(&self) -> TokenResponseView {
        TokenResponseView {
            id: self.id@,
            issued_at: self.issued_at@,
            access_token: self.access_token@,
            instance_url: self.instance_url@,
            signature: self.signature@,
            token_type: opt_text(self.token_type),
        }
    }
}

impl Default for TokenResponse {
    /// The reply with every text empty and no token type.
    fn default() -> (r: TokenResponse)
        ensures
            r@ == (TokenResponseView {
                id: Seq::empty(),
                issued_at: Seq::empty(),
                access_token: Seq::empty(),
                instance_url: Seq::empty(),
                signature: Seq::empty(),
                token_type: None,
            }),
    {
        TokenResponse {
            id: String::new(),
            issued_at: String::new(),
            access_token: String::new(),
            instance_url: String::new(),
            signature: String::new(),
            token_type: None,
        }
    }
}

} // verus!
