use vstd::prelude::*;

verus! {

/// The abstract contents of a login credential.
pub ghost struct CredentialView {
    pub open_id: Seq<char>,
    pub session_key: Seq<char>,
    pub union_id: Option<Seq<char>>,
}

/// A login credential: the user's open id, the session key the issuer
/// handed out for it, and — when the account is linked across programs —
/// a union id.
#[derive(Debug, Clone)]
pub struct Credential {
    open_id: String,
    session_key: String,
    union_id: Option<String>,
}

impl View for Credential {
    type V = CredentialView;

    closed spec fn view(&self) -> CredentialView {
        CredentialView {
            open_id: self.open_id@,
            session_key: self.session_key@,
            union_id: match self.union_id {
                Some(u) => Some(u@),
                None => None,
            },
        }
    }
}

impl Credential {
    /// The user's open id.
    pub fn open_id(&self) -> (r: &str)
        ensures
            r@ == self@.open_id,
    {
        self.open_id.as_str()
    }

    /// The session key the issuer handed out.
    pub fn session_key(&self) -> (r: &str)
        ensures
            r@ == self@.session_key,
    {
        self.session_key.as_str()
    }

    /// The union id, when the account is linked across programs.
    pub fn union_id(&self) -> (r: Option<&str>)
        ensures
            (match self@.union_id {
                Some(u) => r matches Some(s) && s@ == u,
                None => r is None,
            }),
    {
        match &self.union_id {
            Some(u) => Some(u.as_str()),
            None => None,
        }
    }
}

/// The raw fields of a credential as the wire exchange delivers them; the
/// embedding application fills this in and `build` assembles the value.
#[derive(Debug, Clone)]
pub struct CredentialBuilder {
    pub open_id: String,
    pub session_key: String,
    pub union_id: Option<String>,
}

impl CredentialBuilder {
    /// Assembles the credential, carrying every field through unchanged.
    pub fn build(self) -> (r: Credential)
        ensures
            r@.open_id == self.open_id@,
            r@.session_key == self.session_key@,
            (match self.union_id {
                Some(u) => r@.union_id matches Some(v) && v == u@,
                None => r@.union_id is None,
            }),
    {
        Credential {
            open_id: self.open_id,
            session_key: self.session_key,
            union_id: self.union_id,
        }
    }
}

/// The subset of the credential the embedding service stores for a session:
/// open id and session key.
#[derive(Debug, Clone)]
pub struct Credentials {
    open_id: String,
    session_key: String,
}

impl Credentials {
    /// The characters of the stored open id.
    pub closed spec fn spec_open_id(self) -> Seq<char> {
        self.open_id@
    }

    /// The characters of the stored session key.
    pub closed spec fn spec_session_key(self) -> Seq<char> {
        self.session_key@
    }

    /// Stores both fields unchanged.
    pub fn new(open_id: String, session_key: String) -> (r: Credentials)
        ensures
            r.spec_open_id() == open_id@,
            r.spec_session_key() == session_key@,
    {
        Credentials { open_id, session_key }
    }

    /// The user's open id.
    pub fn open_id(&self) -> (r: &str)
        ensures
            r@ == self.spec_open_id(),
    {
        self.open_id.as_str()
    }
}

} // verus!
