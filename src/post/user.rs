//! The body of a new user.
use vstd::prelude::*;

verus! {

/// A new user of an account.
pub struct User {
    pub account_id: i32,
    pub first_name: String,
    pub last_name: String,
    pub email: String,
    pub machine_service: bool,
    pub roles: Vec<String>,
}

/// Builds a [`User`], one required field at a time.
pub struct UserBuilder<'a, C, S> {
    client: &'a C,
    state: S,
}

impl<'a, C, S> UserBuilder<'a, C, S> {
    /// The fields given so far.
    pub closed spec fn current(&self) -> S {
        self.state
    }

    /// The client the body is for.
    pub closed spec fn client_ref(&self) -> &'a C {
        self.client
    }

    /// The fields given so far.
    pub fn state(&self) -> (r: &S)
        ensures
            *r == self.current(),
    {
        &self.state
    }

    /// The client the body is for.
    pub fn client(&self) -> (r: &'a C)
        ensures
            r == self.client_ref(),
    {
        self.client
    }
}

/// Starts a user body for `client`.
pub fn new<C>(client: &C) -> (r: UserBuilder<'_, C, NoAccount>)
    ensures
        r.client_ref() == client,
{
    UserBuilder { client, state: NoAccount }
}

/// No field given yet.
pub struct NoAccount;

impl<'a, C> UserBuilder<'a, C, NoAccount> {
    /// Gives the account the user belongs to.
    pub fn account_id(self, account_id: i32) -> (r: UserBuilder<'a, C, NoFirstName>)
        ensures
            r.client_ref() == self.client_ref(),
            r.current() == (NoFirstName { account_id }),
    {
        UserBuilder { client: self.client, state: NoFirstName { account_id } }
    }
}

/// The account is given.
pub struct NoFirstName {
    pub account_id: i32,
}

impl<'a, C> UserBuilder<'a, C, NoFirstName> {
    /// Gives the user's first name.
    pub fn first_name(self, first_name: String) -> (r: UserBuilder<'a, C, NoLastName>)
        ensures
            r.client_ref() == self.client_ref(),
            r.current() == (NoLastName { account_id: self.current().account_id, first_name }),
    {
        UserBuilder {
            client: self.client,
            state: NoLastName { account_id: self.state.account_id, first_name },
        }
    }
}

/// The account and first name are given.
pub struct NoLastName {
    pub account_id: i32,
    pub first_name: String,
}

impl<'a, C> UserBuilder<'a, C, NoLastName> {
    /// Gives the user's last name.
    pub fn last_name(self, last_name: String) -> (r: UserBuilder<'a, C, NoEmail>)
        ensures
            r.client_ref() == self.client_ref(),
            r.current() == (NoEmail {
                account_id: self.current().account_id,
                first_name: self.current().first_name,
                last_name,
            }),
    {
        UserBuilder {
            client: self.client,
            state: NoEmail {
                account_id: self.state.account_id,
                first_name: self.state.first_name,
                last_name,
            },
        }
    }
}

/// The account and both names are given.
pub struct NoEmail {
    pub account_id: i32,
    pub first_name: String,
    pub last_name: String,
}

impl<'a, C> UserBuilder<'a, C, NoEmail> {
    /// Gives the user's email; the user is then complete, not a machine service, and has
    /// no roles yet.
    pub fn email(self, email: String) -> (r: UserBuilder<'a, C, User>)
        ensures
            r.client_ref() == self.client_ref(),
            r.current().account_id == self.current().account_id,
            r.current().first_name == self.current().first_name,
            r.current().last_name == self.current().last_name,
            r.current().email == email,
            !r.current().machine_service,
            r.current().roles@ == Seq::<String>::empty(),
    {
        let state = User {
            account_id: self.state.account_id,
            first_name: self.state.first_name,
            last_name: self.state.last_name,
            email,
            machine_service: false,
            roles: Vec::new(),
        };
        UserBuilder { client: self.client, state }
    }
}

impl<'a, C> UserBuilder<'a, C, User> {
    /// Adds a role after those already given.
    pub fn add_role(self, role: String) -> (r: Self)
        ensures
            r.client_ref() == self.client_ref(),
            r.current().roles@ == self.current().roles@.push(role),
            r.current().account_id == self.current().account_id,
            r.current().first_name == self.current().first_name,
            r.current().last_name == self.current().last_name,
            r.current().email == self.current().email,
            r.current().machine_service == self.current().machine_service,
    {
        let mut b = self;
        b.state.roles.push(role);
        b
    }

    /// Adds roles, in order, after those already given.
    pub fn add_roles(self, roles: Vec<String>) -> (r: Self)
        ensures
            r.client_ref() == self.client_ref(),
            r.current().roles@ == self.current().roles@ + roles@,
            r.current().account_id == self.current().account_id,
            r.current().first_name == self.current().first_name,
            r.current().last_name == self.current().last_name,
            r.current().email == self.current().email,
            r.current().machine_service == self.current().machine_service,
    {
        let mut b = self;
        let mut roles = roles;
        let ghost given = roles@;
        let mut taken: Vec<String> = Vec::new();
        while roles.len() > 0
            invariant
                b.client == self.client,
                b.state.account_id == self.state.account_id,
                b.state.first_name == self.state.first_name,
                b.state.last_name == self.state.last_name,
                b.state.email == self.state.email,
                b.state.machine_service == self.state.machine_service,
                given == taken@ + roles@,
                b.state.roles@ == self.state.roles@ + taken@,
            decreases roles.len(),
        {
            let role = roles.remove(0);
            proof {
                assert(given == taken@.push(role) + roles@);
            }
            taken.push(role.clone());
            b = b.add_role(role);
        }
        assert(given =~= taken@);
        b
    }
}

} // verus!
