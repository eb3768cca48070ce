//! Mail addresses as message envelopes and events carry them.
use vstd::prelude::*;

verus! {

/// A mail address with its optional display name.
#[derive(Clone, Debug, Default, PartialEq, Eq)]
pub struct Addr {
    pub name: Option<String>,
    pub address: Option<String>,
}

fn copy_text(s: &Option<String>) -> (r: Option<String>)
    ensures
        r == *s,
{
    match s {
        Some(t) => Some(t.clone()),
        None => None,
    }
}

/// A copy of an address.
pub fn copy_addr(a: &Addr) -> (r: Addr)
    ensures
        r == *a,
{
    Addr { name: copy_text(&a.name), address: copy_text(&a.address) }
}

/// A copy of a list of addresses.
pub fn copy_addrs(v: &Vec<Addr>) -> (r: Vec<Addr>)
    ensures
        r@ == v@,
{
    let mut r: Vec<Addr> = Vec::new();
    let mut i: usize = 0;
    while i < v.len()
        invariant
            i <= v@.len(),
            r@ == v@.take(i as int),
        decreases v.len() - i,
    {
        r.push(copy_addr(&v[i]));
        i = i + 1;
        assert(r@ =~= v@.take(i as int));
    }
    assert(v@.take(i as int) =~= v@);
    r
}

} // verus!
