use vstd::prelude::*;

verus! {

/// A user record of the demo endpoint.
#[derive(Debug)]
pub struct User {
    pub id: u64,
    pub name: String,
}

impl View for User {
    type V = (u64, Seq<char>);

    open spec fn view(&self) -> (u64, Seq<char>) {
        (self.id, self.name@)
    }
}

impl PartialEq for User {
    fn eq(&self, other: &User) -> (r: bool) {
        self.id == other.id && self.name == other.name
    }
}

impl vstd::std_specs::cmp::PartialEqSpecImpl for User {
    open spec fn obeys_eq_spec() -> bool {
        true
    }

    open spec fn eq_spec(&self, other: &User) -> bool {
        self@ == other@
    }
}

/// The answer of a `/users` endpoint: an HTTP status and the user sent back.
#[derive(Debug)]
pub struct UserReply {
    pub status: u16,
    pub user: User,
}

/// Answers `GET /users` with the fixed record of John, number 1, and status 200.
pub fn get_user() -> (r: UserReply)
    ensures
        r.status == 200,
        r.user@ == (1u64, "John"@),
{
    UserReply { status: 200, user: User { id: 1, name: String::from_str("John") } }
}

/// Answers `POST /users` with status 201 and the submitted record, unchanged.
pub fn create_user(user: User) -> (r: UserReply)
    ensures
        r.status == 201,
        r.user == user,
{
    UserReply { status: 201, user }
}

} // verus!
