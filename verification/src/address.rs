//! Identities: owners, recipients and assets.

use vstd::prelude::*;
use vstd::std_specs::cmp::PartialEqSpecImpl;

verus! {

/// The length of an identity's key in text form.
pub const KEY_LEN: usize = 56;

/// An identity on the ledger, an account or a contract, held by the
/// characters of its key in text form. The wallet never looks inside: it only
/// asks whether two identities are the same one.
#[derive(Copy, Clone, Debug)]
pub struct Address {
    pub key: [u8; KEY_LEN],
}

/// Whether two keys hold the same characters.
fn same_key(a: &[u8; KEY_LEN], b: &[u8; KEY_LEN]) -> (r: bool)
    ensures
        r == (*a == *b),
{
    let mut i: usize = 0;
    while i < KEY_LEN
        invariant
            i <= KEY_LEN,
            forall|j: int| 0 <= j < i ==> a[j] == b[j],
        decreases KEY_LEN - i,
    {
        if a[i] != b[i] {
            return false;
        }
        i += 1;
    }
    assert(*a =~= *b);
    true
}

impl PartialEq for Address {
    fn eq(&self, other: &Address) -> (r: bool) {
        same_key(&self.key, &other.key)
    }
}

impl Eq for Address {
}

impl PartialEqSpecImpl for Address {
    open spec fn obeys_eq_spec() -> bool {
        true
    }

    open spec fn eq_spec(&self, other: &Address) -> bool {
        *self == *other
    }
}

impl Address {
    /// The identity with the given key.
    pub fn new(key: [u8; KEY_LEN]) -> (r: Address)
        ensures
            r == (Address { key }),
    {
        Address { key }
    }
}

/// Whether `who` occurs in `list`, found by walking the list.
pub fn contains_address(list: &Vec<Address>, who: &Address) -> (r: bool)
    ensures
        r == list@.contains(*who),
{
    let mut i: usize = 0;
    while i < list.len()
        invariant
            i <= list.len(),
            forall|j: int| 0 <= j < i ==> list@[j] != *who,
        decreases list.len() - i,
    {
        if list[i] == *who {
            return true;
        }
        i += 1;
    }
    false
}

/// Whether no identity occurs twice in `list`. The list is walked once; each
/// entry is looked up among the entries seen before it.
pub fn all_distinct(list: &Vec<Address>) -> (r: bool)
    ensures
        r == list@.no_duplicates(),
{
    let mut seen: Vec<Address> = Vec::new();
    let mut i: usize = 0;
    while i < list.len()
        invariant
            i <= list.len(),
            seen@ == list@.subrange(0, i as int),
            seen@.no_duplicates(),
        decreases list.len() - i,
    {
        if contains_address(&seen, &list[i]) {
            proof {
                let j = choose|j: int| 0 <= j < seen@.len() && seen@[j] == list@[i as int];
                assert(list@[j] == list@[i as int] && j != i);
            }
            return false;
        }
        seen.push(list[i]);
        assert(seen@ == list@.subrange(0, i + 1));
        i += 1;
    }
    assert(seen@ == list@);
    true
}

/// A copy of `list`, entry by entry.
pub fn copy_addresses(list: &Vec<Address>) -> (r: Vec<Address>)
    ensures
        r@ == list@,
{
    let mut out: Vec<Address> = Vec::new();
    let mut i: usize = 0;
    while i < list.len()
        invariant
            i <= list.len(),
            out@ == list@.subrange(0, i as int),
        decreases list.len() - i,
    {
        out.push(list[i]);
        assert(out@ == list@.subrange(0, i + 1));
        i += 1;
    }
    assert(out@ == list@);
    out
}

} // verus!
