use vstd::prelude::*;

verus! {

/// Holds the most recently observed continuation-session identifier.
///
/// At most one identifier is held at a time; it is overwritten whenever a
/// completed exchange observed a newer one, and cleared when the user asks
/// to start a fresh conversation.
pub struct SessionStore {
    last: Option<String>,
}

impl View for SessionStore {
    type V = Option<Seq<char>>;

    closed spec fn view(&self) -> Option<Seq<char>> {
        self.last.deep_view()
    }
}

impl SessionStore {
    /// A store that holds no session identifier yet.
    pub fn new() -> (s: Self)
        ensures
            s@ is None,
    {
        SessionStore { last: None }
    }

    /// The currently held identifier, cloned for the caller.
    pub fn current(&self) -> (r: Option<String>)
        ensures
            r.deep_view() == self@,
    {
        match &self.last {
            Some(s) => Some(s.clone()),
            None => None,
        }
    }

    /// Forget the held identifier: the next exchange starts a fresh
    /// conversation instead of resuming the previous one.
    pub fn clear_session(&mut self)
        ensures
            final(self)@ is None,
    {
        self.last = None;
    }

    /// Overwrite the held identifier with the one observed during a
    /// successfully completed exchange.
    pub fn set(&mut self, sid: String)
        ensures
            final(self)@ == Some(sid@),
    {
        self.last = Some(sid);
    }
}

} // verus!
