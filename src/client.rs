use vstd::prelude::*;
use crate::gateway::User;

verus! {

/// State of the page that lists users: a fetch in flight, the users received,
/// and the last error.
pub struct Model {
    pub fetching: bool,
    pub users: Option<Vec<User>>,
    pub error: Option<String>,
}

/// What the page reacts to.
pub enum Msg {
    /// Start fetching the users.
    FetchData,
    /// The fetch ended: the users, or the error's text.
    ReceiveResponse(Result<Vec<User>, String>),
}

impl Model {
    /// An empty page; its first message is to fetch the users.
    pub fn create() -> (r: (Model, Msg))
        ensures
            !r.0.fetching,
            r.0.users is None,
            r.0.error is None,
            r.1 is FetchData,
    {
        (Model { fetching: false, users: None, error: None }, Msg::FetchData)
    }

    /// Applies a message; returns whether the page is to be drawn again.
    pub fn update(&mut self, msg: Msg) -> (r: bool)
        ensures
            r,
            msg is FetchData ==> final(self).fetching && final(self).users == old(self).users
                && final(self).error == old(self).error,
            msg matches Msg::ReceiveResponse(Ok(u)) ==> (!final(self).fetching
                && final(self).users == Some(u) && final(self).error == old(self).error),
            msg matches Msg::ReceiveResponse(Err(e)) ==> (!final(self).fetching
                && final(self).error == Some(e) && final(self).users == old(self).users),
    {
        match msg {
            Msg::FetchData => {
                self.fetching = true;
            },
            Msg::ReceiveResponse(Ok(users)) => {
                self.users = Some(users);
                self.fetching = false;
            },
            Msg::ReceiveResponse(Err(e)) => {
                self.error = Some(e);
                self.fetching = false;
            },
        }
        true
    }

    /// Properties never change: nothing to draw again.
    pub fn change(&mut self) -> (r: bool)
        ensures
            !r,
            *final(self) == *old(self),
    {
        false
    }
}

} // verus!
