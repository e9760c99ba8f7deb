use vstd::prelude::*;

verus! {

/// One authorized user: an identifier, a secret and whether the record is in force.
#[derive(Clone, Debug)]
pub struct User {
    pub username: String,
    pub password: String,
    pub active: bool,
}

impl User {
    /// Builds a record from its three fields.
    pub fn new(username: String, password: String, active: bool) -> (r: User)
        ensures
            r.username == username,
            r.password == password,
            r.active == active,
    {
        User { username, password, active }
    }

    /// The credentials of `candidate` are those of this record, compared exactly.
    pub open spec fn same_credentials(self, candidate: User) -> bool {
        self.username@ == candidate.username@ && self.password@ == candidate.password@
    }

    /// This record is in force and carries exactly the credentials of `candidate`.
    pub open spec fn admits(self, candidate: User) -> bool {
        self.active && self.same_credentials(candidate)
    }

    /// Tells whether this record lets `candidate` in: it is active, and both the
    /// identifier and the secret are equal, case included.
    pub fn accepts(&self, candidate: &User) -> (r: bool)
        ensures
            r == self.admits(*candidate),
    {
        self.active && self.username == candidate.username && self.password
            == candidate.password
    }
}

/// Two records hold the same identifier, secret and flag.
pub open spec fn same_user(a: User, b: User) -> bool {
    a.username@ == b.username@ && a.password@ == b.password@ && a.active == b.active
}

impl PartialEq for User {
    fn eq(&self, other: &User) -> (r: bool)
        ensures
            r == same_user(*self, *other),
    {
        self.username == other.username && self.password == other.password && self.active
            == other.active
    }
}

impl vstd::std_specs::cmp::PartialEqSpecImpl for User {
    open spec fn obeys_eq_spec() -> bool {
        true
    }

    open spec fn eq_spec(&self, other: &User) -> bool {
        same_user(*self, *other)
    }
}

} // verus!
