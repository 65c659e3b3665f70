use vstd::prelude::*;

verus! {

/// The abstract contents of a session record.
pub ghost struct SessionView {
    pub open_id: Seq<char>,
    pub session_key: Seq<char>,
}

/// A session record: the open id and session key the issuer answered a
/// login with.
#[derive(Debug, Clone)]
pub struct Session {
    open_id: String,
    session_key: String,
}

impl View for Session {
    type V = SessionView;

    closed spec fn view(&self) -> SessionView {
        SessionView { open_id: self.open_id@, session_key: self.session_key@ }
    }
}

impl Session {
    /// Stores both fields unchanged.
    pub fn new(open_id: String, session_key: String) -> (r: Session)
        ensures
            r@.open_id == open_id@,
            r@.session_key == session_key@,
    {
        Session { open_id, session_key }
    }

    /// The user's open id.
    pub fn open_id(&self) -> (r: &str)
        ensures
            r@ == self@.open_id,
    {
        self.open_id.as_str()
    }

    /// The session key the issuer handed out.
    pub fn session_key(&self) -> (r: &str)
        ensures
            r@ == self@.session_key,
    {
        self.session_key.as_str()
    }
}

} // verus!
