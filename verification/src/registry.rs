//! The trust registry: the process-wide set of trusted device identities
//! together with the autoblock flag.
//!
//! The registry is plain in-memory state; a caller that shares it between
//! threads wraps it in a lock of its own.  Membership is a mathematical
//! set: `add` is idempotent and `remove` of an absent identity is a no-op.

use vstd::prelude::*;

use crate::identity::DeviceIdentity;

verus! {

/// The set of trusted device identities plus the autoblock mode flag.
pub struct TrustRegistry {
    entries: Vec<DeviceIdentity>,
    autoblock_enabled: bool,
}

impl TrustRegistry {
    /// The identities currently trusted, as a set.
    pub closed spec fn trusted(&self) -> Set<DeviceIdentity> {
        Set::new(|d: DeviceIdentity| self.entries@.contains(d))
    }

    /// The autoblock mode flag.
    pub closed spec fn autoblock(&self) -> bool {
        self.autoblock_enabled
    }

    /// The registry never stores an identity twice.
    pub closed spec fn wf(&self) -> bool {
        forall|i: int, j: int|
            0 <= i < j < self.entries@.len() ==> self.entries@[i] != self.entries@[j]
    }

    /// A fresh registry: nothing trusted, autoblock on.
    pub fn new() -> (r: TrustRegistry)
        ensures
            r.wf(),
            r.trusted() =~= Set::<DeviceIdentity>::empty(),
            r.autoblock() == true,
    {
        TrustRegistry { entries: Vec::new(), autoblock_enabled: true }
    }

    /// Whether `d` is trusted.
    pub fn contains(&self, d: DeviceIdentity) -> (r: bool)
        ensures
            r == self.trusted().contains(d),
    {
        let n = self.entries.len();
        let mut i: usize = 0;
        while i < n
            invariant
                n == self.entries@.len(),
                0 <= i <= n,
                forall|k: int| 0 <= k < i ==> self.entries@[k] != d,
            decreases n - i,
        {
            if self.entries[i] == d {
                return true;
            }
            i += 1;
        }
        false
    }

    /// Inserts `d`; a no-op when `d` is already trusted.  Never fails.
    pub fn add(&mut self, d: DeviceIdentity)
        requires
            old(self).wf(),
        ensures
            final(self).wf(),
            final(self).trusted() =~= old(self).trusted().insert(d),
            final(self).autoblock() == old(self).autoblock(),
    {
        if !self.contains(d) {
            self.entries.push(d);
            proof {
                let es = old(self).entries@;
                assert(self.entries@ == es.push(d));
                assert forall|x: DeviceIdentity| self.entries@.contains(x) implies (
                es.contains(x) || x == d) by {
                    let k = choose|k: int| 0 <= k < self.entries@.len() && self.entries@[k] == x;
                    if k < es.len() {
                        assert(es[k] == x);
                    }
                }
                assert forall|x: DeviceIdentity| es.contains(x) implies self.entries@.contains(
                x) by {
                    let k = choose|k: int| 0 <= k < es.len() && es[k] == x;
                    assert(self.entries@[k] == x);
                }
                assert(self.entries@[es.len() as int] == d);
            }
        }
    }

    /// Removes `d`; a no-op when `d` is not trusted.  Never fails.
    pub fn remove(&mut self, d: DeviceIdentity)
        requires
            old(self).wf(),
        ensures
            final(self).wf(),
            final(self).trusted() =~= old(self).trusted().remove(d),
            final(self).autoblock() == old(self).autoblock(),
    {
        let n = self.entries.len();
        let mut i: usize = 0;
        while i < n
            invariant
                n == self.entries@.len(),
                0 <= i <= n,
                self.wf(),
                *self == *old(self),
                forall|k: int| 0 <= k < i ==> self.entries@[k] != d,
            decreases n - i,
        {
            if self.entries[i] == d {
                self.entries.remove(i);
                proof {
                    lemma_remove_membership(old(self).entries@, self.entries@, i as int, d);
                }
                return;
            }
            i += 1;
        }
    }

    /// A snapshot copy of the trusted identities; order is unspecified.
    pub fn list(&self) -> (r: Vec<DeviceIdentity>)
        ensures
            forall|d: DeviceIdentity| r@.contains(d) == self.trusted().contains(d),
            self.wf() ==> forall|p: int, q: int| 0 <= p < q < r@.len() ==> r@[p] != r@[q],
    {
        let n = self.entries.len();
        let mut r: Vec<DeviceIdentity> = Vec::new();
        let mut i: usize = 0;
        while i < n
            invariant
                n == self.entries@.len(),
                0 <= i <= n,
                r@ == self.entries@.subrange(0, i as int),
            decreases n - i,
        {
            r.push(self.entries[i]);
            i += 1;
        }
        proof {
            assert(r@ =~= self.entries@);
        }
        r
    }

    /// Sets the autoblock mode flag; membership is untouched.
    pub fn set_autoblock(&mut self, enabled: bool)
        ensures
            final(self).autoblock() == enabled,
            final(self).trusted() == old(self).trusted(),
            final(self).wf() == old(self).wf(),
    {
        self.autoblock_enabled = enabled;
    }

    /// Reads the autoblock mode flag.
    pub fn get_autoblock(&self) -> (r: bool)
        ensures
            r == self.autoblock(),
    {
        self.autoblock_enabled
    }
}

/// After deleting index `i` (holding `d`) from a duplicate-free sequence,
/// membership loses exactly `d`.
proof fn lemma_remove_membership(
    before: Seq<DeviceIdentity>,
    after: Seq<DeviceIdentity>,
    i: int,
    d: DeviceIdentity,
)
    requires
        0 <= i < before.len(),
        before[i] == d,
        forall|p: int, q: int| 0 <= p < q < before.len() ==> before[p] != before[q],
        after == before.remove(i),
    ensures
        forall|x: DeviceIdentity| after.contains(x) <==> (before.contains(x) && x != d),
        forall|p: int, q: int| 0 <= p < q < after.len() ==> after[p] != after[q],
{
    assert forall|x: DeviceIdentity| after.contains(x) implies (before.contains(x) && x != d) by {
        let k = choose|k: int| 0 <= k < after.len() && after[k] == x;
        if k < i {
            assert(before[k] == x);
        } else {
            assert(before[k + 1] == x);
        }
    }
    assert forall|x: DeviceIdentity| before.contains(x) && x != d implies after.contains(x) by {
        let k = choose|k: int| 0 <= k < before.len() && before[k] == x;
        if k < i {
            assert(after[k] == x);
        } else {
            assert(k != i);
            assert(after[k - 1] == x);
        }
    }
}

/// Idempotence of trust addition: trusting an identity twice leaves the
/// same membership as trusting it once.
pub proof fn lemma_add_idempotent(t: Set<DeviceIdentity>, d: DeviceIdentity)
    ensures
        t.insert(d).insert(d) == t.insert(d),
{
    assert(t.insert(d).insert(d) =~= t.insert(d));
}

/// Idempotence of trust removal: removing an identity twice leaves the
/// same membership as removing it once.
pub proof fn lemma_remove_idempotent(t: Set<DeviceIdentity>, d: DeviceIdentity)
    ensures
        t.remove(d).remove(d) == t.remove(d),
{
    assert(t.remove(d).remove(d) =~= t.remove(d));
}

/// Add/remove symmetry: after adding an identity and then removing it,
/// it is no longer trusted.
pub proof fn lemma_add_then_remove(t: Set<DeviceIdentity>, d: DeviceIdentity)
    ensures
        !t.insert(d).remove(d).contains(d),
{
}

} // verus!
