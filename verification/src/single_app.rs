//! Single-instance registration: a registry of application ids, used to
//! keep a second instance of the same application from starting.
//!
//! The registry is an explicit in-memory value handed to each operation;
//! its owner decides where it lives and how long.

use vstd::prelude::*;

verus! {

/// True when some registered id equals `id`.
pub open spec fn registered(ids: Seq<Seq<char>>, id: Seq<char>) -> bool {
    exists|i: int| 0 <= i < ids.len() && ids[i] == id
}

/// No id is registered twice.
pub open spec fn unique_ids(ids: Seq<Seq<char>>) -> bool {
    forall|i: int, j: int| 0 <= i < j < ids.len() ==> ids[i] != ids[j]
}

/// The registered ids with every occurrence of `id` taken out, in order.
pub open spec fn without_id(ids: Seq<Seq<char>>, id: Seq<char>) -> Seq<Seq<char>>
    decreases ids.len(),
{
    if ids.len() == 0 {
        Seq::empty()
    } else {
        let rest = without_id(ids.drop_first(), id);
        if ids[0] == id {
            rest
        } else {
            seq![ids[0]] + rest
        }
    }
}

/// The set of registered application instances.
pub struct AppRegistry {
    ids: Vec<String>,
}

impl View for AppRegistry {
    type V = Seq<Seq<char>>;

    closed spec fn view(&self) -> Seq<Seq<char>> {
        self.ids.deep_view()
    }
}

impl AppRegistry {
    /// Each registration happens at most once.
    pub open spec fn wf(&self) -> bool {
        unique_ids(self@)
    }

    /// An empty registry.
    pub fn new() -> (r: AppRegistry)
        ensures
            r@ == Seq::<Seq<char>>::empty(),
            r.wf(),
    {
        let r = AppRegistry { ids: Vec::new() };
        proof {
            assert(r@ =~= Seq::<Seq<char>>::empty());
        }
        r
    }

    /// Index of the first registered id equal to `app_id`.
    fn position_of(&self, app_id: &String) -> (r: Option<usize>)
        ensures
            match r {
                None => !registered(self@, app_id@),
                Some(i) => {
                    &&& i < self@.len()
                    &&& self@[i as int] == app_id@
                    &&& forall|j: int| 0 <= j < i ==> self@[j] != app_id@
                },
            },
    {
        let mut i: usize = 0;
        while i < self.ids.len()
            invariant
                i <= self.ids.len(),
                self@.len() == self.ids.len(),
                forall|j: int| 0 <= j < i ==> self@[j] != app_id@,
            decreases self.ids.len() - i,
        {
            if self.ids[i] == *app_id {
                return Some(i);
            }
            i = i + 1;
        }
        None
    }
}

/// Register an application instance under `app_id`. Registering an id
/// that is already present changes nothing, so registration stays
/// duplicate-free.
pub fn register_app(registry: &mut AppRegistry, app_id: &str)
    requires
        old(registry).wf(),
    ensures
        final(registry).wf(),
        final(registry)@ == (if registered(old(registry)@, app_id@) {
            old(registry)@
        } else {
            old(registry)@.push(app_id@)
        }),
{
    let id = app_id.to_owned();
    let ghost pre = registry@;
    if registry.position_of(&id).is_none() {
        registry.ids.push(id);
        proof {
            assert(registry@ =~= pre.push(app_id@));
        }
    }
}

/// Unregister the application instance with `app_id`. An id that is not
/// registered changes nothing.
pub fn unregister_app(registry: &mut AppRegistry, app_id: &str)
    requires
        old(registry).wf(),
    ensures
        final(registry).wf(),
        final(registry)@ == without_id(old(registry)@, app_id@),
{
    let id = app_id.to_owned();
    let ghost orig = registry@;
    let mut kept: Vec<String> = Vec::new();
    proof {
        assert(kept.deep_view() =~= Seq::<Seq<char>>::empty());
        assert(orig.subrange(0, orig.len() as int) =~= orig);
        assert(kept.deep_view() + without_id(orig, app_id@) =~= without_id(orig, app_id@));
    }
    let mut i: usize = 0;
    while i < registry.ids.len()
        invariant
            i <= registry.ids.len(),
            id@ == app_id@,
            registry@ == orig,
            registry@.len() == registry.ids.len(),
            without_id(orig, app_id@) == kept.deep_view() + without_id(
                orig.subrange(i as int, orig.len() as int),
                app_id@,
            ),
        decreases registry.ids.len() - i,
    {
        let ghost pre_kept = kept.deep_view();
        let ghost rem = orig.subrange(i as int, orig.len() as int);
        proof {
            assert(rem[0] == orig[i as int]);
            assert(orig[i as int] == registry.ids@[i as int]@);
            assert(rem.drop_first() =~= orig.subrange(i + 1, orig.len() as int));
        }
        if registry.ids[i] == id {
            proof {
                assert(rem[0] == app_id@);
                assert(without_id(rem, app_id@) == without_id(rem.drop_first(), app_id@));
            }
        } else {
            let kept_id = registry.ids[i].clone();
            let ghost kv = kept_id@;
            kept.push(kept_id);
            proof {
                assert(kv == rem[0]);
                assert(rem[0] != app_id@);
                assert(without_id(rem, app_id@) == seq![rem[0]] + without_id(
                    rem.drop_first(),
                    app_id@,
                ));
                assert(kept.deep_view() =~= pre_kept.push(kv));
                assert(kept.deep_view() + without_id(rem.drop_first(), app_id@) =~= pre_kept + (
                seq![kv] + without_id(rem.drop_first(), app_id@)));
            }
        }
        i = i + 1;
    }
    proof {
        assert(orig.subrange(orig.len() as int, orig.len() as int) =~= Seq::<Seq<char>>::empty());
        lemma_without_id_unique(orig, app_id@);
    }
    registry.ids = kept;
}

/// Whether the application instance with `app_id` is registered.
pub fn check_app_registered(registry: &AppRegistry, app_id: &str) -> (r: bool)
    ensures
        r == registered(registry@, app_id@),
{
    let id = app_id.to_owned();
    registry.position_of(&id).is_some()
}

/// Every id kept by an unregistration was registered before.
proof fn lemma_without_id_membership(ids: Seq<Seq<char>>, id: Seq<char>)
    ensures
        forall|k: int|
            0 <= k < without_id(ids, id).len() ==> exists|m: int|
                0 <= m < ids.len() && #[trigger] without_id(ids, id)[k] == #[trigger] ids[m],
    decreases ids.len(),
{
    if ids.len() > 0 {
        let rest = ids.drop_first();
        lemma_without_id_membership(rest, id);
        let r = without_id(ids, id);
        let rr = without_id(rest, id);
        assert forall|k: int| 0 <= k < r.len() implies exists|m: int|
            0 <= m < ids.len() && #[trigger] r[k] == #[trigger] ids[m] by {
            if ids[0] == id {
                assert(r[k] == rr[k]);
                let m0 = choose|m: int| 0 <= m < rest.len() && rr[k] == rest[m];
                assert(r[k] == ids[m0 + 1]);
            } else {
                if k == 0 {
                    assert(r[0] == ids[0]);
                } else {
                    assert(r[k] == rr[k - 1]);
                    let m0 = choose|m: int| 0 <= m < rest.len() && rr[k - 1] == rest[m];
                    assert(r[k] == ids[m0 + 1]);
                }
            }
        }
    }
}

/// Unregistration preserves uniqueness of the registered ids.
proof fn lemma_without_id_unique(ids: Seq<Seq<char>>, id: Seq<char>)
    requires
        unique_ids(ids),
    ensures
        unique_ids(without_id(ids, id)),
    decreases ids.len(),
{
    if ids.len() > 0 {
        let rest = ids.drop_first();
        assert(unique_ids(rest)) by {
            assert forall|a: int, b: int| 0 <= a < b < rest.len() implies rest[a] != rest[b] by {
                assert(rest[a] == ids[a + 1]);
                assert(rest[b] == ids[b + 1]);
            }
        }
        lemma_without_id_unique(rest, id);
        lemma_without_id_membership(rest, id);
        let r = without_id(ids, id);
        let rr = without_id(rest, id);
        if ids[0] != id {
            assert forall|a: int, b: int| 0 <= a < b < r.len() implies r[a] != r[b] by {
                if a == 0 {
                    assert(r[b] == rr[b - 1]);
                    let m0 = choose|m: int| 0 <= m < rest.len() && rr[b - 1] == rest[m];
                    assert(rest[m0] == ids[m0 + 1]);
                    assert(ids[0] != ids[m0 + 1]);
                } else {
                    assert(r[a] == rr[a - 1]);
                    assert(r[b] == rr[b - 1]);
                }
            }
        }
    }
}

} // verus!
