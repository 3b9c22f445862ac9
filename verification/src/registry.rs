//! The shared store of all live sandboxes, keyed by id. Every external
//! operation goes through here: insert, run, stop, remove, status, list.
//! Viewed abstractly the registry is a map from id to sandbox image; each
//! operation is atomic with respect to the others when the owner serializes
//! access (one mutual-exclusion domain around the whole registry).

use vstd::prelude::*;
use vstd::map::*;
use vstd::string::StrSliceExecFns;
use crate::backend::{SandboxBackend, SandboxStatus};
use crate::errors::{RegistryError, SandboxError};
use crate::sandbox::{Sandbox, SandboxState, SandboxView};

verus! {

/// Exact comparison of two string slices by their character sequences.
pub fn str_eq(a: &str, b: &str) -> (r: bool)
    ensures
        r == (a@ == b@),
{
    let n = a.unicode_len();
    if n != b.unicode_len() {
        return false;
    }
    let mut i: usize = 0;
    while i < n
        invariant
            n == a@.len(),
            n == b@.len(),
            i <= n,
            forall|j: int| 0 <= j < i ==> a@[j] == b@[j],
        decreases n - i,
    {
        if a.get_char(i) != b.get_char(i) {
            return false;
        }
        i = i + 1;
    }
    proof {
        assert(a@ =~= b@);
    }
    true
}

/// The id stored at position `i`.
spec fn id_at<B: SandboxBackend>(s: Seq<Sandbox<B>>, i: int) -> Seq<char> {
    s[i]@.data.id
}

/// No two positions hold the same id.
spec fn unique_ids<B: SandboxBackend>(s: Seq<Sandbox<B>>) -> bool {
    forall|i: int, j: int|
        0 <= i < j < s.len() ==> #[trigger] id_at(s, i) != #[trigger] id_at(s, j)
}

/// Some position holds `id`.
spec fn contains_id<B: SandboxBackend>(s: Seq<Sandbox<B>>, id: Seq<char>) -> bool {
    exists|i: int| 0 <= i < s.len() && #[trigger] id_at(s, i) == id
}

/// The position holding `id`, where one exists.
spec fn index_of<B: SandboxBackend>(s: Seq<Sandbox<B>>, id: Seq<char>) -> int {
    choose|i: int| 0 <= i < s.len() && #[trigger] id_at(s, i) == id
}

/// The id-keyed map that a sequence of sandboxes represents.
spec fn map_of<B: SandboxBackend>(s: Seq<Sandbox<B>>) -> Map<Seq<char>, SandboxView<B>> {
    Map::new(|id: Seq<char>| contains_id(s, id), |id: Seq<char>| s[index_of(s, id)]@)
}

/// What an insert does to the registry map: a new id is bound to the
/// inserted sandbox's image; a colliding insert changes nothing.
pub open spec fn insert_step<B: SandboxBackend>(
    m: Map<Seq<char>, SandboxView<B>>,
    v: SandboxView<B>,
) -> Map<Seq<char>, SandboxView<B>> {
    if m.contains_key(v.data.id) {
        m
    } else {
        m.insert(v.data.id, v)
    }
}

/// What a successful run does to the registry map: the entry under `id`
/// keeps its data, moves to Running, and carries the backend value `b`
/// that now holds the isolation resource. An absent id changes nothing.
pub open spec fn run_step<B: SandboxBackend>(
    m: Map<Seq<char>, SandboxView<B>>,
    id: Seq<char>,
    b: B,
) -> Map<Seq<char>, SandboxView<B>> {
    if m.contains_key(id) {
        m.insert(id, SandboxView { data: m[id].data, backend: b, state: SandboxState::Running })
    } else {
        m
    }
}

/// What a successful stop does to the registry map.
pub open spec fn stop_step<B: SandboxBackend>(
    m: Map<Seq<char>, SandboxView<B>>,
    id: Seq<char>,
    b: B,
) -> Map<Seq<char>, SandboxView<B>> {
    if m.contains_key(id) {
        m.insert(id, SandboxView { data: m[id].data, backend: b, state: SandboxState::Stopped })
    } else {
        m
    }
}

/// What a remove does to the registry map: the entry is evicted.
pub open spec fn remove_step<B: SandboxBackend>(
    m: Map<Seq<char>, SandboxView<B>>,
    id: Seq<char>,
) -> Map<Seq<char>, SandboxView<B>> {
    m.remove(id)
}

/// Law: run operations on distinct ids are independent — applying them in
/// either order yields the same registry map. Together with the owner's
/// mutual-exclusion discipline, which serializes operations on the same
/// id, this makes any interleaving of operations on distinct ids agree
/// with a sequential ordering.
pub proof fn lemma_runs_on_distinct_ids_commute<B: SandboxBackend>(
    m: Map<Seq<char>, SandboxView<B>>,
    id1: Seq<char>,
    b1: B,
    id2: Seq<char>,
    b2: B,
)
    requires
        id1 != id2,
    ensures
        run_step(run_step(m, id1, b1), id2, b2) == run_step(run_step(m, id2, b2), id1, b1),
{
    let left = run_step(run_step(m, id1, b1), id2, b2);
    let right = run_step(run_step(m, id2, b2), id1, b1);
    assert(left =~= right);
}

/// Law: after a remove, the id is gone from the registry map, so every
/// later operation keyed on it finds nothing — the exec operations then
/// answer `NotFound`, and nothing is ever resurrected under that id short
/// of a fresh insert.
pub proof fn lemma_removed_id_absent<B: SandboxBackend>(
    m: Map<Seq<char>, SandboxView<B>>,
    id: Seq<char>,
    b: B,
)
    ensures
        !remove_step(m, id).contains_key(id),
        run_step(remove_step(m, id), id, b) == remove_step(m, id),
        stop_step(remove_step(m, id), id, b) == remove_step(m, id),
{
}

/// Law: a remove and a run on distinct ids are independent in the same way.
pub proof fn lemma_remove_run_distinct_ids_commute<B: SandboxBackend>(
    m: Map<Seq<char>, SandboxView<B>>,
    id1: Seq<char>,
    id2: Seq<char>,
    b2: B,
)
    requires
        id1 != id2,
    ensures
        run_step(remove_step(m, id1), id2, b2) == remove_step(run_step(m, id2, b2), id1),
{
    let left = run_step(remove_step(m, id1), id2, b2);
    let right = remove_step(run_step(m, id2, b2), id1);
    assert(left =~= right);
}

/// A position's id is found by lookup: the map contains it, and the
/// looked-up position is that position.
proof fn lemma_lookup<B: SandboxBackend>(s: Seq<Sandbox<B>>, i: int)
    requires
        unique_ids(s),
        0 <= i < s.len(),
    ensures
        contains_id(s, id_at(s, i)),
        index_of(s, id_at(s, i)) == i,
        map_of(s).contains_key(id_at(s, i)),
        map_of(s)[id_at(s, i)] == s[i]@,
{
    let id = id_at(s, i);
    assert(contains_id(s, id));
    let k = index_of(s, id);
    if k < i {
        assert(id_at(s, k) != id_at(s, i));
        assert(false);
    }
    if k > i {
        assert(id_at(s, i) != id_at(s, k));
        assert(false);
    }
}

/// Replacing one position with a sandbox of the same id updates exactly
/// that id's binding in the represented map.
proof fn lemma_update_view<B: SandboxBackend>(s1: Seq<Sandbox<B>>, s2: Seq<Sandbox<B>>, i: int)
    requires
        unique_ids(s1),
        s1.len() == s2.len(),
        0 <= i < s1.len(),
        forall|j: int| 0 <= j < s1.len() ==> #[trigger] id_at(s2, j) == id_at(s1, j),
        forall|j: int| 0 <= j < s1.len() && j != i ==> #[trigger] s2[j] == s1[j],
    ensures
        unique_ids(s2),
        map_of(s2) == map_of(s1).insert(id_at(s1, i), s2[i]@),
{
    assert forall|p: int, q: int| 0 <= p < q < s2.len() implies #[trigger] id_at(s2, p)
        != #[trigger] id_at(s2, q) by {
        assert(id_at(s1, p) != id_at(s1, q));
    }
    let id = id_at(s1, i);
    assert_maps_equal!(map_of(s2), map_of(s1).insert(id, s2[i]@), k => {
        if k == id {
            lemma_lookup(s2, i);
        } else {
            if contains_id(s1, k) {
                let j = index_of(s1, k);
                assert(0 <= j < s1.len() && id_at(s1, j) == k);
                assert(j != i);
                lemma_lookup(s1, j);
                assert(id_at(s2, j) == k);
                lemma_lookup(s2, j);
            }
            if contains_id(s2, k) {
                let j = index_of(s2, k);
                assert(0 <= j < s2.len() && id_at(s2, j) == k);
                assert(j != i);
                lemma_lookup(s2, j);
                assert(id_at(s1, j) == k);
                lemma_lookup(s1, j);
            }
        }
    });
}

/// Appending a sandbox under a fresh id binds exactly that id in the
/// represented map.
proof fn lemma_push_view<B: SandboxBackend>(s: Seq<Sandbox<B>>, x: Sandbox<B>)
    requires
        unique_ids(s),
        !contains_id(s, x@.data.id),
    ensures
        unique_ids(s.push(x)),
        map_of(s.push(x)) == map_of(s).insert(x@.data.id, x@),
{
    let s2 = s.push(x);
    let n = s.len() as int;
    assert forall|j: int| 0 <= j < s2.len() implies #[trigger] id_at(s2, j) == (if j < n {
        id_at(s, j)
    } else {
        x@.data.id
    }) by {
        if j < n {
            assert(s2[j] == s[j]);
        }
    }
    assert forall|p: int, q: int| 0 <= p < q < s2.len() implies #[trigger] id_at(s2, p)
        != #[trigger] id_at(s2, q) by {
        if q < n {
            assert(id_at(s, p) != id_at(s, q));
        } else {
            assert(id_at(s2, q) == x@.data.id);
            assert(id_at(s2, p) == id_at(s, p));
            assert(id_at(s, p) != x@.data.id);
        }
    }
    assert_maps_equal!(map_of(s2), map_of(s).insert(x@.data.id, x@), k => {
        if k == x@.data.id {
            assert(id_at(s2, n) == k);
            lemma_lookup(s2, n);
        } else {
            if contains_id(s, k) {
                let j = index_of(s, k);
                assert(0 <= j < s.len() && id_at(s, j) == k);
                lemma_lookup(s, j);
                assert(id_at(s2, j) == k);
                lemma_lookup(s2, j);
            }
            if contains_id(s2, k) {
                let j = index_of(s2, k);
                assert(0 <= j < s2.len() && id_at(s2, j) == k);
                assert(j != n);
                lemma_lookup(s2, j);
                assert(id_at(s, j) == k);
                lemma_lookup(s, j);
            }
        }
    });
}

/// Dropping one position evicts exactly its id from the represented map.
proof fn lemma_remove_view<B: SandboxBackend>(s: Seq<Sandbox<B>>, i: int)
    requires
        unique_ids(s),
        0 <= i < s.len(),
    ensures
        unique_ids(s.remove(i)),
        map_of(s.remove(i)) == map_of(s).remove(id_at(s, i)),
{
    let s2 = s.remove(i);
    let id = id_at(s, i);
    s.remove_ensures(i);
    assert forall|j: int| 0 <= j < s2.len() implies #[trigger] id_at(s2, j) == (if j < i {
        id_at(s, j)
    } else {
        id_at(s, j + 1)
    }) by {
        if j < i {
            assert(s2[j] == s[j]);
        } else {
            assert(s2[j] == s[j + 1]);
        }
    }
    assert forall|p: int, q: int| 0 <= p < q < s2.len() implies #[trigger] id_at(s2, p)
        != #[trigger] id_at(s2, q) by {
        let p1 = if p < i { p } else { p + 1 };
        let q1 = if q < i { q } else { q + 1 };
        assert(id_at(s, p1) != id_at(s, q1));
    }
    assert_maps_equal!(map_of(s2), map_of(s).remove(id), k => {
        if k == id {
            lemma_lookup(s, i);
            if contains_id(s2, k) {
                let j = index_of(s2, k);
                assert(0 <= j < s2.len() && id_at(s2, j) == k);
                let j1 = if j < i { j } else { j + 1 };
                assert(id_at(s, j1) == k);
                lemma_lookup(s, j1);
                assert(j1 == i);
                assert(false);
            }
        } else {
            if contains_id(s, k) {
                let j = index_of(s, k);
                assert(0 <= j < s.len() && id_at(s, j) == k);
                lemma_lookup(s, j);
                assert(j != i);
                let j2 = if j < i { j } else { j - 1 };
                assert(id_at(s2, j2) == k);
                lemma_lookup(s2, j2);
            }
            if contains_id(s2, k) {
                let j = index_of(s2, k);
                assert(0 <= j < s2.len() && id_at(s2, j) == k);
                lemma_lookup(s2, j);
                let j1 = if j < i { j } else { j + 1 };
                assert(id_at(s, j1) == k);
                lemma_lookup(s, j1);
            }
        }
    });
}

/// The single shared owner of all live sandboxes, keyed by their validated
/// ids; its abstract value is the map from id to sandbox image.
#[derive(Debug)]
pub struct SandboxRegistry<B: SandboxBackend> {
    entries: Vec<Sandbox<B>>,
}

impl<B: SandboxBackend> View for SandboxRegistry<B> {
    type V = Map<Seq<char>, SandboxView<B>>;

    closed spec fn view(&self) -> Map<Seq<char>, SandboxView<B>> {
        map_of(self.entries@)
    }
}

impl<B: SandboxBackend> SandboxRegistry<B> {
    /// Every id names at most one live sandbox.
    #[verifier::type_invariant]
    spec fn type_inv(self) -> bool {
        unique_ids(self.entries@)
    }

    /// The registry's entries in insertion order: the snapshot that `list`
    /// reports, one image per live sandbox.
    pub closed spec fn snapshot(&self) -> Seq<SandboxView<B>> {
        self.entries@.map_values(|sb: Sandbox<B>| sb@)
    }

    /// An empty registry.
    pub fn new() -> (r: Self)
        ensures
            r@ == Map::<Seq<char>, SandboxView<B>>::empty(),
    {
        let r = SandboxRegistry { entries: Vec::new() };
        proof {
            assert(r@ =~= Map::<Seq<char>, SandboxView<B>>::empty());
        }
        r
    }

    /// Looks up the position holding `id`, if any.
    fn find_in(entries: &Vec<Sandbox<B>>, id: &str) -> (r: Option<usize>)
        ensures
            match r {
                Some(i) => i < entries@.len() && id_at(entries@, i as int) == id@,
                None => !contains_id(entries@, id@),
            },
    {
        let n = entries.len();
        let mut i: usize = 0;
        while i < n
            invariant
                n == entries@.len(),
                i <= n,
                forall|j: int| 0 <= j < i ==> #[trigger] id_at(entries@, j) != id@,
            decreases n - i,
        {
            if str_eq(entries[i].id(), id) {
                assert(id_at(entries@, i as int) == id@);
                return Some(i);
            }
            i = i + 1;
        }
        None
    }

    /// Registers a sandbox under its id. Fails with `DuplicateId`, leaving
    /// the registry unchanged and the first entry unaffected, exactly when
    /// the id is already taken; a collision is a retried or colliding
    /// request, not malformed input.
    pub fn insert(&mut self, sandbox: Sandbox<B>) -> (r: Result<(), RegistryError>)
        ensures
            final(self)@ == insert_step(old(self)@, sandbox@),
            r is Ok <==> !old(self)@.contains_key(sandbox@.data.id),
            r is Err ==> r->Err_0 == RegistryError::DuplicateId,
    {
        proof {
            use_type_invariant(&*self);
        }
        let mut entries: Vec<Sandbox<B>> = Vec::new();
        core::mem::swap(&mut entries, &mut self.entries);
        let ghost s1 = entries@;
        let r: Result<(), RegistryError>;
        match Self::find_in(&entries, sandbox.id()) {
            Some(i) => {
                proof {
                    lemma_lookup(s1, i as int);
                }
                r = Err(RegistryError::DuplicateId);
            },
            None => {
                proof {
                    lemma_push_view(s1, sandbox);
                }
                entries.push(sandbox);
                r = Ok(());
            },
        }
        self.entries = entries;
        r
    }

    /// Runs the sandbox registered under `id`: legal only from Created,
    /// and on success the entry is Running with its backend holding the
    /// isolation resource. An unknown id reports `NotFound`; an illegal
    /// state reports `InvalidState`; a backend failure is surfaced and the
    /// entry keeps its last known-good state. The registry map never
    /// changes except as `run_step` describes.
    pub fn run(&mut self, id: &str) -> (r: Result<(), RegistryError>)
        ensures
            !old(self)@.contains_key(id@) ==> {
                &&& r == Err::<(), RegistryError>(RegistryError::NotFound)
                &&& final(self)@ == old(self)@
            },
            old(self)@.contains_key(id@) && old(self)@[id@].state != SandboxState::Created ==> {
                &&& r == Err::<(), RegistryError>(RegistryError::InvalidState)
                &&& final(self)@ == old(self)@
            },
            old(self)@.contains_key(id@) && old(self)@[id@].state == SandboxState::Created ==> {
                &&& (r is Ok ==> {
                    &&& final(self)@ == run_step(old(self)@, id@, final(self)@[id@].backend)
                    &&& final(self)@[id@].backend.active()
                    &&& final(self)@[id@].backend.bound_id() == id@
                })
                &&& (r is Err ==> final(self)@ == old(self)@ && r->Err_0 is Backend)
                &&& (old(self)@[id@].backend.run_succeeds() ==> r is Ok)
            },
    {
        proof {
            use_type_invariant(&*self);
        }
        let ghost m0 = self@;
        let mut entries: Vec<Sandbox<B>> = Vec::new();
        core::mem::swap(&mut entries, &mut self.entries);
        let ghost s1 = entries@;
        let r: Result<(), RegistryError>;
        match Self::find_in(&entries, id) {
            None => {
                r = Err(RegistryError::NotFound);
            },
            Some(i) => {
                proof {
                    lemma_lookup(s1, i as int);
                    lemma_remove_view(s1, i as int);
                    s1.remove_ensures(i as int);
                }
                let mut sb = entries.remove(i);
                match sb.state() {
                    SandboxState::Created => {
                        let res = sb.run();
                        let ghost sbv = sb@;
                        proof {
                            reestablish_at(s1, entries@, sb, i as int);
                        }
                        entries.insert(i, sb);
                        proof {
                            assert(map_of(entries@) == m0.insert(id@, sbv));
                        }
                        match res {
                            Ok(()) => {
                                proof {
                                    assert(sbv == (SandboxView {
                                        data: m0[id@].data,
                                        backend: sbv.backend,
                                        state: SandboxState::Running,
                                    }));
                                    assert(map_of(entries@)[id@] == sbv);
                                    assert(map_of(entries@) == run_step(m0, id@, sbv.backend));
                                }
                                r = Ok(());
                            },
                            Err(e) => {
                                proof {
                                    assert(sbv == s1[i as int]@);
                                    assert(map_of(entries@) =~= m0);
                                }
                                match e {
                                    SandboxError::Backend(b) => {
                                        r = Err(RegistryError::Backend(b));
                                    },
                                    SandboxError::InvalidState => {
                                        proof {
                                            assert(false);
                                        }
                                        r = Err(RegistryError::InvalidState);
                                    },
                                }
                            },
                        }
                    },
                    _ => {
                        let ghost sbv = sb@;
                        proof {
                            reestablish_at(s1, entries@, sb, i as int);
                        }
                        entries.insert(i, sb);
                        proof {
                            assert(sbv == s1[i as int]@);
                            assert(map_of(entries@) =~= m0);
                        }
                        r = Err(RegistryError::InvalidState);
                    },
                }
            },
        }
        self.entries = entries;
        r
    }

    /// Stops the sandbox registered under `id`: legal only from Running,
    /// and on success the entry is Stopped with its backend no longer
    /// active; the entry survives and `status` still answers for it. The
    /// error cases mirror `run`.
    pub fn stop(&mut self, id: &str) -> (r: Result<(), RegistryError>)
        ensures
            !old(self)@.contains_key(id@) ==> {
                &&& r == Err::<(), RegistryError>(RegistryError::NotFound)
                &&& final(self)@ == old(self)@
            },
            old(self)@.contains_key(id@) && old(self)@[id@].state != SandboxState::Running ==> {
                &&& r == Err::<(), RegistryError>(RegistryError::InvalidState)
                &&& final(self)@ == old(self)@
            },
            old(self)@.contains_key(id@) && old(self)@[id@].state == SandboxState::Running ==> {
                &&& (r is Ok ==> {
                    &&& final(self)@ == stop_step(old(self)@, id@, final(self)@[id@].backend)
                    &&& !final(self)@[id@].backend.active()
                })
                &&& (r is Err ==> final(self)@ == old(self)@ && r->Err_0 is Backend)
                &&& (old(self)@[id@].backend.stop_succeeds() ==> r is Ok)
            },
    {
        proof {
            use_type_invariant(&*self);
        }
        let ghost m0 = self@;
        let mut entries: Vec<Sandbox<B>> = Vec::new();
        core::mem::swap(&mut entries, &mut self.entries);
        let ghost s1 = entries@;
        let r: Result<(), RegistryError>;
        match Self::find_in(&entries, id) {
            None => {
                r = Err(RegistryError::NotFound);
            },
            Some(i) => {
                proof {
                    lemma_lookup(s1, i as int);
                    lemma_remove_view(s1, i as int);
                    s1.remove_ensures(i as int);
                }
                let mut sb = entries.remove(i);
                match sb.state() {
                    SandboxState::Running => {
                        let res = sb.stop();
                        let ghost sbv = sb@;
                        proof {
                            reestablish_at(s1, entries@, sb, i as int);
                        }
                        entries.insert(i, sb);
                        proof {
                            assert(map_of(entries@) == m0.insert(id@, sbv));
                        }
                        match res {
                            Ok(()) => {
                                proof {
                                    assert(sbv == (SandboxView {
                                        data: m0[id@].data,
                                        backend: sbv.backend,
                                        state: SandboxState::Stopped,
                                    }));
                                    assert(map_of(entries@)[id@] == sbv);
                                    assert(map_of(entries@) == stop_step(m0, id@, sbv.backend));
                                }
                                r = Ok(());
                            },
                            Err(e) => {
                                proof {
                                    assert(sbv == s1[i as int]@);
                                    assert(map_of(entries@) =~= m0);
                                }
                                match e {
                                    SandboxError::Backend(b) => {
                                        r = Err(RegistryError::Backend(b));
                                    },
                                    SandboxError::InvalidState => {
                                        proof {
                                            assert(false);
                                        }
                                        r = Err(RegistryError::InvalidState);
                                    },
                                }
                            },
                        }
                    },
                    _ => {
                        let ghost sbv = sb@;
                        proof {
                            reestablish_at(s1, entries@, sb, i as int);
                        }
                        entries.insert(i, sb);
                        proof {
                            assert(sbv == s1[i as int]@);
                            assert(map_of(entries@) =~= m0);
                        }
                        r = Err(RegistryError::InvalidState);
                    },
                }
            },
        }
        self.entries = entries;
        r
    }

    /// Removes the sandbox registered under `id`. Removal is best-effort:
    /// whenever the id is present the entry is evicted, even if releasing
    /// the backend resource fails — the failure is surfaced, never allowed
    /// to leave a stuck entry. Only an unknown id reports `NotFound`.
    pub fn remove(&mut self, id: &str) -> (r: Result<(), RegistryError>)
        ensures
            !old(self)@.contains_key(id@) ==> {
                &&& r == Err::<(), RegistryError>(RegistryError::NotFound)
                &&& final(self)@ == old(self)@
            },
            old(self)@.contains_key(id@) ==> {
                &&& final(self)@ == remove_step(old(self)@, id@)
                &&& (r is Err ==> r->Err_0 is Backend)
                &&& (old(self)@[id@].state != SandboxState::Running ==> r is Ok)
                &&& (old(self)@[id@].state == SandboxState::Running ==> (old(
                    self,
                )@[id@].backend.stop_succeeds() ==> r is Ok))
            },
    {
        proof {
            use_type_invariant(&*self);
        }
        let mut entries: Vec<Sandbox<B>> = Vec::new();
        core::mem::swap(&mut entries, &mut self.entries);
        let ghost s1 = entries@;
        let r: Result<(), RegistryError>;
        match Self::find_in(&entries, id) {
            None => {
                r = Err(RegistryError::NotFound);
            },
            Some(i) => {
                proof {
                    lemma_lookup(s1, i as int);
                    lemma_remove_view(s1, i as int);
                }
                let mut sb = entries.remove(i);
                match sb.state() {
                    // an entry that was already torn down is simply evicted
                    SandboxState::Removed => {
                        r = Ok(());
                    },
                    _ => match sb.remove() {
                        Ok(()) => {
                            r = Ok(());
                        },
                        Err(e) => match e {
                            SandboxError::Backend(b) => {
                                r = Err(RegistryError::Backend(b));
                            },
                            SandboxError::InvalidState => {
                                proof {
                                    assert(false);
                                }
                                r = Err(RegistryError::InvalidState);
                            },
                        },
                    },
                }
            },
        }
        self.entries = entries;
        r
    }

    /// Answers a status query for `id`; never mutates, and fails only when
    /// the id is unknown.
    pub fn status(&self, id: &str) -> (r: Result<SandboxStatus, RegistryError>)
        ensures
            !self@.contains_key(id@) ==> r == Err::<SandboxStatus, RegistryError>(
                RegistryError::NotFound,
            ),
            self@.contains_key(id@) ==> r == Ok::<SandboxStatus, RegistryError>(
                self@[id@].backend.spec_status(),
            ),
    {
        proof {
            use_type_invariant(self);
        }
        match Self::find_in(&self.entries, id) {
            None => Err(RegistryError::NotFound),
            Some(i) => {
                proof {
                    lemma_lookup(self.entries@, i as int);
                }
                Ok(self.entries[i].status())
            },
        }
    }

    /// A finite, restartable snapshot of every live sandbox's status, in
    /// insertion order: exactly one element per entry of the registry map
    /// — complete, with pairwise-distinct ids — each agreeing with what
    /// `status` answers for that entry's id.
    pub fn list(&self) -> (r: Vec<SandboxStatus>)
        ensures
            r@.len() == self.snapshot().len(),
            forall|i: int|
                0 <= i < r@.len() ==> r@[i] == self.snapshot()[i].backend.spec_status(),
            forall|i: int|
                0 <= i < self.snapshot().len() ==> {
                    &&& self@.contains_key(#[trigger] self.snapshot()[i].data.id)
                    &&& self@[self.snapshot()[i].data.id] == self.snapshot()[i]
                },
            forall|id: Seq<char>|
                self@.contains_key(id) ==> exists|i: int|
                    0 <= i < self.snapshot().len() && #[trigger] self.snapshot()[i].data.id == id,
            forall|i: int, j: int|
                0 <= i < j < self.snapshot().len() ==> #[trigger] self.snapshot()[i].data.id
                    != #[trigger] self.snapshot()[j].data.id,
    {
        proof {
            use_type_invariant(self);
        }
        let n = self.entries.len();
        let mut out: Vec<SandboxStatus> = Vec::new();
        let mut i: usize = 0;
        while i < n
            invariant
                n == self.entries@.len(),
                i <= n,
                out@.len() == i,
                self.snapshot().len() == n,
                forall|j: int|
                    0 <= j < i ==> out@[j] == self.snapshot()[j].backend.spec_status(),
            decreases n - i,
        {
            let st = self.entries[i].status();
            proof {
                assert(self.snapshot()[i as int] == self.entries@[i as int]@);
            }
            out.push(st);
            i = i + 1;
        }
        proof {
            assert forall|j: int| 0 <= j < self.snapshot().len() implies {
                &&& self@.contains_key(#[trigger] self.snapshot()[j].data.id)
                &&& self@[self.snapshot()[j].data.id] == self.snapshot()[j]
            } by {
                assert(self.snapshot()[j] == self.entries@[j]@);
                lemma_lookup(self.entries@, j);
            }
            assert forall|id: Seq<char>| self@.contains_key(id) implies exists|i2: int|
                0 <= i2 < self.snapshot().len() && #[trigger] self.snapshot()[i2].data.id
                    == id by {
                let j = index_of(self.entries@, id);
                assert(0 <= j < self.entries@.len() && id_at(self.entries@, j) == id);
                assert(self.snapshot()[j] == self.entries@[j]@);
                assert(self.snapshot()[j].data.id == id);
            }
            assert forall|p: int, q: int| 0 <= p < q < self.snapshot().len()
                implies #[trigger] self.snapshot()[p].data.id
                    != #[trigger] self.snapshot()[q].data.id by {
                assert(self.snapshot()[p] == self.entries@[p]@);
                assert(self.snapshot()[q] == self.entries@[q]@);
                assert(id_at(self.entries@, p) != id_at(self.entries@, q));
            }
        }
        out
    }
}

/// After replacing position `i` of `s1` (via remove then insert of `sb`,
/// whose id matches), the resulting sequence differs from `s1` only at `i`
/// and represents `s1`'s map with that one binding updated.
proof fn reestablish_at<B: SandboxBackend>(
    s1: Seq<Sandbox<B>>,
    s_removed: Seq<Sandbox<B>>,
    sb: Sandbox<B>,
    i: int,
)
    requires
        unique_ids(s1),
        0 <= i < s1.len(),
        s_removed == s1.remove(i),
        sb@.data.id == id_at(s1, i),
    ensures
        unique_ids(s_removed.insert(i, sb)),
        s_removed.insert(i, sb).len() == s1.len(),
        map_of(s_removed.insert(i, sb)) == map_of(s1).insert(id_at(s1, i), sb@),
        s_removed.insert(i, sb)[i] == sb,
{
    let s_mid = s_removed.insert(i, sb);
    s1.remove_ensures(i);
    s_removed.insert_ensures(i, sb);
    assert forall|j: int| 0 <= j < s1.len() && j != i implies #[trigger] s_mid[j] == s1[j] by {
        if j < i {
            assert(s_mid[j] == s_removed[j]);
            assert(s_removed[j] == s1[j]);
        } else {
            let k = j - 1;
            assert(s_removed.insert(i, sb)[k + 1] == s_removed[k]);
            assert(s_removed[k] == s1[k + 1]);
        }
    }
    assert(s_mid[i] == sb);
    assert forall|j: int| 0 <= j < s1.len() implies #[trigger] id_at(s_mid, j) == id_at(
        s1,
        j,
    ) by {
        if j != i {
            assert(s_mid[j] == s1[j]);
        }
    }
    lemma_update_view(s1, s_mid, i);
}

} // verus!
