//! OAuth2 client configuration and its builder.  The token-refresh
//! subsystem itself is an external collaborator of the streaming session:
//! the session only snapshots the current credential at connect time.

use crate::api::base::{Result, TastyError};
use vstd::prelude::*;

verus! {

/// OAuth2 client configuration.
#[derive(Debug, Clone)]
pub struct OAuth2Config {
    pub client_id: String,
    pub client_secret: String,
    pub redirect_uri: String,
    pub scopes: Vec<String>,
}

/// An OAuth2 token response.
#[derive(Debug, Clone)]
pub struct OAuth2TokenResponse {
    pub access_token: String,
    pub refresh_token: String,
    pub token_type: String,
    pub expires_in: i64,
    pub id_token: Option<String>,
}

/// An OAuth2 authorization or refresh request payload.
#[derive(Debug)]
pub struct OAuth2AuthRequest {
    pub grant_type: String,
    pub code: Option<String>,
    pub refresh_token: Option<String>,
    pub client_id: String,
    pub client_secret: String,
    pub redirect_uri: Option<String>,
}

/// A builder for [`OAuth2Config`].
pub struct OAuth2ClientBuilder {
    client_id: Option<String>,
    client_secret: Option<String>,
    redirect_uri: Option<String>,
    scopes: Vec<String>,
    demo: bool,
}

impl OAuth2ClientBuilder {
    /// What the builder holds.
    pub closed spec fn spec_fields(&self) -> (
        Option<Seq<char>>,
        Option<Seq<char>>,
        Option<Seq<char>>,
        Seq<Seq<char>>,
        bool,
    ) {
        (
            match self.client_id {
                Option::Some(ref s) => Option::Some(s@),
                Option::None => Option::None,
            },
            match self.client_secret {
                Option::Some(ref s) => Option::Some(s@),
                Option::None => Option::None,
            },
            match self.redirect_uri {
                Option::Some(ref s) => Option::Some(s@),
                Option::None => Option::None,
            },
            self.scopes@.map_values(|s: String| s@),
            self.demo,
        )
    }

    /// An empty builder: no credentials, no scopes, production endpoints.
    pub fn new() -> (r: OAuth2ClientBuilder)
        ensures
            r.spec_fields() == (
                Option::<Seq<char>>::None,
                Option::<Seq<char>>::None,
                Option::<Seq<char>>::None,
                Seq::<Seq<char>>::empty(),
                false,
            ),
    {
        let r = OAuth2ClientBuilder {
            client_id: Option::None,
            client_secret: Option::None,
            redirect_uri: Option::None,
            scopes: Vec::new(),
            demo: false,
        };
        proof {
            assert(r.scopes@.map_values(|s: String| s@) =~= Seq::<Seq<char>>::empty());
        }
        r
    }

    /// Sets the client id.
    pub fn client_id(self, id: String) -> (r: OAuth2ClientBuilder)
        ensures
            r.spec_fields() == (
                Option::Some(id@),
                self.spec_fields().1,
                self.spec_fields().2,
                self.spec_fields().3,
                self.spec_fields().4,
            ),
    {
        OAuth2ClientBuilder { client_id: Option::Some(id), ..self }
    }

    /// Sets the client secret.
    pub fn client_secret(self, secret: String) -> (r: OAuth2ClientBuilder)
        ensures
            r.spec_fields() == (
                self.spec_fields().0,
                Option::Some(secret@),
                self.spec_fields().2,
                self.spec_fields().3,
                self.spec_fields().4,
            ),
    {
        OAuth2ClientBuilder { client_secret: Option::Some(secret), ..self }
    }

    /// Sets the redirect URI.
    pub fn redirect_uri(self, uri: String) -> (r: OAuth2ClientBuilder)
        ensures
            r.spec_fields() == (
                self.spec_fields().0,
                self.spec_fields().1,
                Option::Some(uri@),
                self.spec_fields().3,
                self.spec_fields().4,
            ),
    {
        OAuth2ClientBuilder { redirect_uri: Option::Some(uri), ..self }
    }

    /// Appends one scope.
    pub fn add_scope(self, scope: String) -> (r: OAuth2ClientBuilder)
        ensures
            r.spec_fields() == (
                self.spec_fields().0,
                self.spec_fields().1,
                self.spec_fields().2,
                self.spec_fields().3.push(scope@),
                self.spec_fields().4,
            ),
    {
        let mut b = self;
        let ghost before = b.scopes@.map_values(|s: String| s@);
        b.scopes.push(scope);
        proof {
            assert(b.scopes@.map_values(|s: String| s@) =~= before.push(scope@));
        }
        b
    }

    /// Chooses between the demo and the production environment.
    pub fn demo(self, demo: bool) -> (r: OAuth2ClientBuilder)
        ensures
            r.spec_fields() == (
                self.spec_fields().0,
                self.spec_fields().1,
                self.spec_fields().2,
                self.spec_fields().3,
                demo,
            ),
    {
        OAuth2ClientBuilder { demo, ..self }
    }

    /// Builds the configuration.  Fails — naming the missing field — when
    /// the client id, the client secret or the redirect URI was never set;
    /// succeeds exactly when all three are present.
    pub fn build(self) -> (r: Result<OAuth2Config>)
        ensures
            match r {
                Result::Ok(cfg) => {
                    &&& self.spec_fields().0 == Option::Some(cfg.client_id@)
                    &&& self.spec_fields().1 == Option::Some(cfg.client_secret@)
                    &&& self.spec_fields().2 == Option::Some(cfg.redirect_uri@)
                    &&& cfg.scopes@.map_values(|s: String| s@) == self.spec_fields().3
                },
                Result::Err(e) => {
                    &&& (self.spec_fields().0 is None || self.spec_fields().1 is None
                        || self.spec_fields().2 is None)
                    &&& e matches TastyError::Config(m)
                    &&& (self.spec_fields().0 is None ==> m@ == "client_id is required"@)
                    &&& (self.spec_fields().0 is Some && self.spec_fields().1 is None ==> m@
                        == "client_secret is required"@)
                    &&& (self.spec_fields().0 is Some && self.spec_fields().1 is Some
                        && self.spec_fields().2 is None ==> m@ == "redirect_uri is required"@)
                },
            },
    {
        let client_id = match self.client_id {
            Option::Some(id) => id,
            Option::None => {
                return Result::Err(TastyError::Config("client_id is required".to_owned()));
            },
        };
        let client_secret = match self.client_secret {
            Option::Some(secret) => secret,
            Option::None => {
                return Result::Err(TastyError::Config("client_secret is required".to_owned()));
            },
        };
        let redirect_uri = match self.redirect_uri {
            Option::Some(uri) => uri,
            Option::None => {
                return Result::Err(TastyError::Config("redirect_uri is required".to_owned()));
            },
        };
        Result::Ok(OAuth2Config { client_id, client_secret, redirect_uri, scopes: self.scopes })
    }
}

} // verus!
