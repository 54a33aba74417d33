use vstd::prelude::*;

use crate::errors::GatewayError;

verus! {

/// Some entry of the catalog carries `name`.
pub open spec fn catalog_has(entries: Seq<(String, String)>, name: Seq<char>) -> bool {
    exists|i: int| 0 <= i < entries.len() && entries[i].0@ == name
}

/// The names are pairwise distinct, so a lookup result is unambiguous.
pub open spec fn catalog_wf(entries: Seq<(String, String)>) -> bool {
    forall|i: int, j: int|
        0 <= i < j < entries.len() ==> entries[i].0@ != entries[j].0@
}

/// The live mapping from logical resource name to backend origin.
/// Shared and read-only from the gateway's perspective; it is
/// populated by an external collaborator.
#[derive(Clone, Debug)]
pub struct Catalog {
    pub entries: Vec<(String, String)>,
}

impl Catalog {
    pub open spec fn wf(&self) -> bool {
        catalog_wf(self.entries@)
    }

    pub fn new() -> (r: Catalog)
        ensures
            r.wf(),
            r.entries@.len() == 0,
    {
        Catalog { entries: Vec::new() }
    }

    /// Register a backend under a fresh name.
    pub fn register(&mut self, name: String, base_url: String)
        requires
            old(self).wf(),
            !catalog_has(old(self).entries@, name@),
        ensures
            final(self).wf(),
            final(self).entries@ == old(self).entries@.push((name, base_url)),
    {
        let ghost pre = self.entries@;
        self.entries.push((name, base_url));
        assert forall|i: int, j: int| 0 <= i < j < self.entries@.len() implies self.entries@[i].0@
            != self.entries@[j].0@ by {
            if j < pre.len() {
            } else {
                assert(self.entries@[i].0@ == pre[i].0@);
            }
        }
    }

    /// Resolve a logical resource name: case-sensitive, exact-match.
    /// A miss is a hard error, always reported to the caller.
    pub fn get_resource(&self, name: &String) -> (r: Result<String, GatewayError>)
        ensures
            r is Ok <==> catalog_has(self.entries@, name@),
            r matches Ok(u) ==> exists|i: int|
                0 <= i < self.entries@.len() && self.entries@[i].0@ == name@
                    && self.entries@[i].1@ == u@,
            r is Err ==> r == Err::<String, GatewayError>(GatewayError::ResourceNotFound),
    {
        let n = self.entries.len();
        let mut i: usize = 0;
        while i < n
            invariant
                n == self.entries@.len(),
                i <= n,
                forall|j: int| 0 <= j < i ==> self.entries@[j].0@ != name@,
            decreases n - i,
        {
            if self.entries[i].0 == *name {
                return Ok(self.entries[i].1.clone());
            }
            i = i + 1;
        }
        Err(GatewayError::ResourceNotFound)
    }
}

} // verus!
