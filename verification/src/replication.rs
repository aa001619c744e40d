//! The server's replication store.
//!
//! The store holds the only writable copy of every player record. After
//! each physics step its contents are broadcast whole to every connected
//! client, which keeps a read-only mirror. Owners are pairwise distinct:
//! each connected client controls exactly one record.

use vstd::prelude::*;

use crate::components::PlayerRecord;

verus! {

/// No two records are owned by the same client.
pub open spec fn distinct_owners(s: Seq<PlayerRecord>) -> bool {
    forall|i: int, j: int|
        0 <= i < j < s.len() && s[i].owner is Some ==> s[i].owner != s[j].owner
}

/// Some record is owned by client `id`.
pub open spec fn has_owner(s: Seq<PlayerRecord>, id: u64) -> bool {
    exists|i: int| 0 <= i < s.len() && s[i].owner == Some(id)
}

/// Index of the first record at or after `k` whose owner is `who`, or
/// `-1` if there is none.
pub open spec fn find_by_owner_from(s: Seq<PlayerRecord>, who: Option<u64>, k: int) -> int
    decreases s.len() - k when 0 <= k <= s.len()
{
    if k >= s.len() {
        -1
    } else if s[k].owner == who {
        k
    } else {
        find_by_owner_from(s, who, k + 1)
    }
}

/// Index of the first record whose owner is `who`, or `-1` if none.
pub open spec fn find_by_owner(s: Seq<PlayerRecord>, who: Option<u64>) -> int {
    find_by_owner_from(s, who, 0)
}

/// What [`find_by_owner_from`] returns: either `-1` and nothing at or
/// after `k` matches, or the first matching index at or after `k`.
pub proof fn lemma_find_from(s: Seq<PlayerRecord>, who: Option<u64>, k: int)
    requires
        0 <= k <= s.len(),
    ensures
        ({
            let r = find_by_owner_from(s, who, k);
            ||| (r == -1 && forall|i: int| k <= i < s.len() ==> s[i].owner != who)
            ||| (k <= r < s.len() && s[r].owner == who && forall|i: int|
                k <= i < r ==> s[i].owner != who)
        }),
    decreases s.len() - k,
{
    if k < s.len() && s[k].owner != who {
        lemma_find_from(s, who, k + 1);
    }
}

/// The server-owned table of player records.
pub struct ReplicationStore {
    pub records: Vec<PlayerRecord>,
}

impl View for ReplicationStore {
    type V = Seq<PlayerRecord>;

    open spec fn view(&self) -> Seq<PlayerRecord> {
        self.records@
    }
}

/// Whether two ownership tags name the same controller.
fn same_owner(a: Option<u64>, b: Option<u64>) -> (r: bool)
    ensures
        r == (a == b),
{
    match (a, b) {
        (Some(x), Some(y)) => x == y,
        (None, None) => true,
        _ => false,
    }
}

impl ReplicationStore {
    /// Owners are pairwise distinct.
    pub open spec fn wf(self) -> bool {
        distinct_owners(self@)
    }

    /// An empty store: no players yet.
    pub fn new() -> (s: ReplicationStore)
        ensures
            s@ =~= Seq::<PlayerRecord>::empty(),
            s.wf(),
    {
        ReplicationStore { records: Vec::new() }
    }

    /// How many records the store holds.
    pub fn len(&self) -> (n: usize)
        ensures
            n == self@.len(),
    {
        self.records.len()
    }

    /// Index of the first record whose owner is `who`, if any.
    pub fn find_index(&self, who: Option<u64>) -> (r: Option<usize>)
        ensures
            ({
                let f = find_by_owner(self@, who);
                match r {
                    Some(i) => f == i && i < self@.len() && self@[i as int].owner == who,
                    None => f == -1 && forall|i: int|
                        0 <= i < self@.len() ==> self@[i].owner != who,
                }
            }),
    {
        proof {
            lemma_find_from(self@, who, 0);
        }
        let n: usize = self.records.len();
        let mut k: usize = 0;
        while k < n
            invariant
                k <= n,
                n == self@.len(),
                find_by_owner(self@, who) == find_by_owner_from(self@, who, k as int),
                forall|i: int| 0 <= i < k ==> self@[i].owner != who,
            decreases n - k,
        {
            if same_owner(self.records[k].owner, who) {
                proof {
                    lemma_find_from(self@, who, k as int);
                }
                return Some(k);
            }
            k = k + 1;
        }
        proof {
            lemma_find_from(self@, who, 0);
        }
        None
    }

    /// A full copy of the current records: the snapshot broadcast to every
    /// client, and the initial state handed to one that joins late.
    pub fn replicate(&self) -> (mirror: Vec<PlayerRecord>)
        ensures
            mirror@ =~= self@,
    {
        let n: usize = self.records.len();
        let mut mirror: Vec<PlayerRecord> = Vec::new();
        let mut k: usize = 0;
        while k < n
            invariant
                k <= n,
                n == self@.len(),
                mirror@ =~= self@.subrange(0, k as int),
            decreases n - k,
        {
            mirror.push(self.records[k]);
            k = k + 1;
        }
        mirror
    }
}

} // verus!
