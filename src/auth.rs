use vstd::prelude::*;

use crate::config::Config;

verus! {

/// An authentication method that the proxy can offer to a client.
#[derive(Clone, Copy, Debug, PartialEq, Eq, Structural)]
pub enum AuthMethods {
    /// No authentication.
    NoAuth,
    /// Identifier and secret, checked against the policy's users.
    UserPass,
}

impl AuthMethods {
    /// The method's number in a SOCKS5 method-selection message.
    pub open spec fn wire_code(self) -> u8 {
        match self {
            AuthMethods::NoAuth => 0x00,
            AuthMethods::UserPass => 0x02,
        }
    }

    /// Gives the method's number in a SOCKS5 method-selection message.
    pub fn code(&self) -> (r: u8)
        ensures
            r == self.wire_code(),
    {
        match self {
            AuthMethods::NoAuth => 0x00,
            AuthMethods::UserPass => 0x02,
        }
    }
}

/// The methods offered, in order of preference: no authentication when it is
/// enabled, then identifier and secret when the policy has users.
pub open spec fn offered_methods(no_auth: bool, has_users: bool) -> Seq<AuthMethods> {
    let first = if no_auth {
        seq![AuthMethods::NoAuth]
    } else {
        Seq::<AuthMethods>::empty()
    };
    if has_users {
        first.push(AuthMethods::UserPass)
    } else {
        first
    }
}

/// Works out the methods to offer from the no-authentication switch and the
/// policy. An empty result means that no connection can be accepted.
pub fn negotiate(no_auth: bool, config: &Config) -> (r: Vec<AuthMethods>)
    ensures
        r@ == offered_methods(no_auth, config.users@.len() > 0),
{
    let mut methods: Vec<AuthMethods> = Vec::new();
    if no_auth {
        methods.push(AuthMethods::NoAuth);
    }
    if config.users.len() > 0 {
        methods.push(AuthMethods::UserPass);
    }
    methods
}

/// Gives the numbers of `methods` in a SOCKS5 method-selection message, in order.
pub fn method_codes(methods: &Vec<AuthMethods>) -> (r: Vec<u8>)
    ensures
        r@.len() == methods@.len(),
        forall|i: int| 0 <= i < r@.len() ==> r@[i] == (#[trigger] methods@[i]).wire_code(),
{
    let mut codes: Vec<u8> = Vec::new();
    let mut i: usize = 0;
    while i < methods.len()
        invariant
            i <= methods@.len(),
            codes@.len() == i,
            forall|j: int| 0 <= j < i ==> codes@[j] == (#[trigger] methods@[j]).wire_code(),
        decreases methods@.len() - i,
    {
        codes.push(methods[i].code());
        i = i + 1;
    }
    codes
}

/// The methods offered follow the two conditions exactly: no authentication
/// first when enabled, identifier and secret next when there are users, and
/// nothing when neither holds.
pub proof fn lemma_negotiation_cases()
    ensures
        offered_methods(false, true) == seq![AuthMethods::UserPass],
        offered_methods(true, false) == seq![AuthMethods::NoAuth],
        offered_methods(true, true) == seq![AuthMethods::NoAuth, AuthMethods::UserPass],
        offered_methods(false, false) == Seq::<AuthMethods>::empty(),
{
    assert(offered_methods(false, true) =~= seq![AuthMethods::UserPass]);
    assert(offered_methods(true, true) =~= seq![AuthMethods::NoAuth, AuthMethods::UserPass]);
}

} // verus!
