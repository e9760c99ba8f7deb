use vstd::prelude::*;

use crate::fqdn::{same_fqdn, Fqdn};
use crate::user::{same_user, User};

verus! {

/// What `str::to_lowercase` makes of a string: it depends on the characters alone.
pub uninterp spec fn lower_of(s: Seq<char>) -> Seq<char>;

/// Relies on `str::to_lowercase`: the lower-case form of `s`, a function of its
/// characters only.
#[verifier::external_body]
fn lowercase(s: &str) -> (r: String)
    ensures
        r@ == lower_of(s@),
{
    s.to_lowercase()
}

/// The access policy: the users that may authenticate and the hosts that may be
/// reached. It is built once and only read afterwards.
#[derive(Clone, Debug)]
pub struct Config {
    pub users: Vec<User>,
    pub fqdns: Vec<Fqdn>,
}

/// Some active record in `users` carries exactly the credentials of `candidate`.
pub open spec fn user_allowed(users: Seq<User>, candidate: User) -> bool {
    exists|i: int| 0 <= i < users.len() && (#[trigger] users[i]).admits(candidate)
}

/// The active entry `entry` names `query` once both are folded to lower case.
pub open spec fn host_entry_matches(entry: Fqdn, query: Seq<char>) -> bool {
    entry.active && lower_of(entry.addr@) == lower_of(query)
}

/// Some active entry of `fqdns` names `query`, case aside.
pub open spec fn host_allowed(fqdns: Seq<Fqdn>, query: Seq<char>) -> bool {
    exists|i: int| 0 <= i < fqdns.len() && host_entry_matches(#[trigger] fqdns[i], query)
}

impl Config {
    /// The policy used when no configuration file exists: no users, no hosts.
    pub fn default() -> (r: Config)
        ensures
            r.users@.len() == 0,
            r.fqdns@.len() == 0,
    {
        Config { users: Vec::new(), fqdns: Vec::new() }
    }

    /// Builds a policy from its two lists, kept in the order given.
    pub fn new(users: Vec<User>, fqdns: Vec<Fqdn>) -> (r: Config)
        ensures
            r.users == users,
            r.fqdns == fqdns,
    {
        Config { users, fqdns }
    }

    /// Tells whether an active user record carries exactly the identifier and
    /// secret of `user`. Disabled records never match.
    pub fn has_user(&self, user: &User) -> (r: bool)
        ensures
            r == user_allowed(self.users@, *user),
    {
        let mut i: usize = 0;
        while i < self.users.len()
            invariant
                i <= self.users@.len(),
                forall|j: int| 0 <= j < i ==> !(#[trigger] self.users@[j]).admits(*user),
            decreases self.users@.len() - i,
        {
            if self.users[i].accepts(user) {
                return true;
            }
            i = i + 1;
        }
        false
    }

    /// Tells whether an active host entry names `addr`, both folded to lower case.
    /// Disabled entries never match.
    pub fn has_fqdn(&self, addr: &str) -> (r: bool)
        ensures
            r == host_allowed(self.fqdns@, addr@),
    {
        let query = lowercase(addr);
        let mut i: usize = 0;
        while i < self.fqdns.len()
            invariant
                i <= self.fqdns@.len(),
                query@ == lower_of(addr@),
                forall|j: int|
                    0 <= j < i ==> !host_entry_matches(#[trigger] self.fqdns@[j], addr@),
            decreases self.fqdns@.len() - i,
        {
            let entry = &self.fqdns[i];
            if entry.active {
                let folded = lowercase(entry.addr.as_str());
                if entry.matches_folded(&folded, &query) {
                    return true;
                }
            }
            i = i + 1;
        }
        false
    }
}

/// The two lists hold equal records, one for one, in the same order.
pub open spec fn same_policy(a: Config, b: Config) -> bool {
    &&& a.users@.len() == b.users@.len()
    &&& a.fqdns@.len() == b.fqdns@.len()
    &&& forall|i: int| 0 <= i < a.users@.len() ==> same_user(#[trigger] a.users@[i], b.users@[i])
    &&& forall|i: int| 0 <= i < a.fqdns@.len() ==> same_fqdn(#[trigger] a.fqdns@[i], b.fqdns@[i])
}

impl PartialEq for Config {
    fn eq(&self, other: &Config) -> (r: bool) {
        if self.users.len() != other.users.len() || self.fqdns.len() != other.fqdns.len() {
            return false;
        }
        let mut i: usize = 0;
        while i < self.users.len()
            invariant
                i <= self.users@.len(),
                self.users@.len() == other.users@.len(),
                forall|j: int|
                    0 <= j < i ==> same_user(#[trigger] self.users@[j], other.users@[j]),
            decreases self.users@.len() - i,
        {
            if self.users[i] != other.users[i] {
                return false;
            }
            i = i + 1;
        }
        let mut k: usize = 0;
        while k < self.fqdns.len()
            invariant
                k <= self.fqdns@.len(),
                self.fqdns@.len() == other.fqdns@.len(),
                forall|j: int|
                    0 <= j < k ==> same_fqdn(#[trigger] self.fqdns@[j], other.fqdns@[j]),
            decreases self.fqdns@.len() - k,
        {
            if self.fqdns[k] != other.fqdns[k] {
                return false;
            }
            k = k + 1;
        }
        true
    }
}

impl vstd::std_specs::cmp::PartialEqSpecImpl for Config {
    open spec fn obeys_eq_spec() -> bool {
        true
    }

    open spec fn eq_spec(&self, other: &Config) -> bool {
        same_policy(*self, *other)
    }
}

} // verus!
