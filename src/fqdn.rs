use vstd::prelude::*;

verus! {

/// One permitted destination host, and whether the entry is in force.
#[derive(Clone, Debug)]
pub struct Fqdn {
    pub addr: String,
    pub active: bool,
}

impl Fqdn {
    /// Builds an entry from its two fields.
    pub fn new(addr: String, active: bool) -> (r: Fqdn)
        ensures
            r.addr == addr,
            r.active == active,
    {
        Fqdn { addr, active }
    }

    /// Decides a match once both host names have been folded to lower case:
    /// the entry must be active and the folded names equal.
    pub fn matches_folded(&self, folded_addr: &String, folded_query: &String) -> (r: bool)
        ensures
            r == (self.active && folded_addr@ == folded_query@),
    {
        self.active && *folded_addr == *folded_query
    }
}

/// Two entries hold the same host name and flag.
pub open spec fn same_fqdn(a: Fqdn, b: Fqdn) -> bool {
    a.addr@ == b.addr@ && a.active == b.active
}

impl PartialEq for Fqdn {
    fn eq(&self, other: &Fqdn) -> (r: bool)
        ensures
            r == same_fqdn(*self, *other),
    {
        self.addr == other.addr && self.active == other.active
    }
}

impl vstd::std_specs::cmp::PartialEqSpecImpl for Fqdn {
    open spec fn obeys_eq_spec() -> bool {
        true
    }

    open spec fn eq_spec(&self, other: &Fqdn) -> bool {
        same_fqdn(*self, *other)
    }
}

} // verus!
