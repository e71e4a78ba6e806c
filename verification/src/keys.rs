use vstd::prelude::*;

verus! {

/// Compares two identities byte for byte.
pub fn key_eq(a: &Vec<u8>, b: &Vec<u8>) -> (r: bool)
    ensures
        r == (a@ == b@),
{
    if a.len() != b.len() {
        return false;
    }
    let mut i: usize = 0;
    while i < a.len()
        invariant
            i <= a.len(),
            a.len() == b.len(),
            forall|j: int| 0 <= j < i ==> a@[j] == b@[j],
        decreases a.len() - i,
    {
        if a[i] != b[i] {
            return false;
        }
        i += 1;
    }
    proof {
        assert(a@ =~= b@);
    }
    true
}

/// Copies an identity.
pub fn key_clone(k: &Vec<u8>) -> (r: Vec<u8>)
    ensures
        r@ == k@,
{
    let r = k.clone();
    proof {
        assert(forall|i: int| 0 <= i < k@.len() ==> r@[i] == k@[i]);
        assert(r@ =~= k@);
    }
    r
}

} // verus!
