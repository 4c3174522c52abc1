use crate::store::{get_model, insert_model, User, UserStore};
use vstd::prelude::*;

verus! {

/// A response body as the handlers decide it: plain text, or a user record
/// that the boundary serializes as JSON `{"name": <string>}`.
pub enum Body {
    Text(String),
    UserJson(User),
}

/// An HTTP response as the handlers decide it: a status code and a body.
/// Turning it into wire bytes is the boundary's work.
pub struct Response {
    pub status: u16,
    pub body: Body,
}

impl Body {
    /// The body is the given plain text.
    pub open spec fn is_text(self, s: Seq<char>) -> bool {
        match self {
            Body::Text(t) => t@ == s,
            Body::UserJson(_) => false,
        }
    }

    /// The body is a user record with the given name — and nothing more, so
    /// a created record is echoed by name alone, without its identifier.
    pub open spec fn is_user(self, name: Seq<char>) -> bool {
        match self {
            Body::Text(_) => false,
            Body::UserJson(u) => u@ == name,
        }
    }
}

/// Handles `GET /`: a fixed greeting with success status; no inputs, no
/// side effects.
pub fn home() -> (r: Response)
    ensures
        r.status == 200,
        r.body.is_text("Welcome to Actix Web Server"@),
{
    Response { status: 200, body: Body::Text("Welcome to Actix Web Server".to_owned()) }
}

/// Handles `GET /user/{id}`: reads the store. An identifier in use answers
/// with the stored record and success status; one not in use answers with
/// not-found status and a fixed plain-text error body. The store is taken
/// shared: a read changes nothing.
pub fn get_user(db: &UserStore, user_id: u32) -> (r: Response)
    ensures
        get_model(db@, user_id) matches Some(name) ==> r.status == 200 && r.body.is_user(name),
        get_model(db@, user_id) is None ==> r.status == 404 && r.body.is_text("user not found"@),
{
    match db.get(user_id) {
        Some(user_data) => Response { status: 200, body: Body::UserJson(user_data.clone()) },
        None => Response { status: 404, body: Body::Text("user not found".to_owned()) },
    }
}

/// Handles `POST /users`: creates the record, which grows the store by one
/// entry under the next identifier, and answers with created status. The
/// body echoes only the name; the assigned identifier is not part of it.
pub fn create_user(db: &mut UserStore, user_data: User) -> (r: Response)
    requires
        old(db)@.len() < u32::MAX,
    ensures
        final(db)@ == insert_model(old(db)@, user_data@).1,
        r.status == 201,
        r.body.is_user(user_data@),
{
    let User { name } = user_data;
    let (_, stored) = db.insert(name);
    Response { status: 201, body: Body::UserJson(stored) }
}

} // verus!
