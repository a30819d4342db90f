use vstd::prelude::*;
use crate::geom::Rectangle;
use fnv::FnvHashMap;

verus! {

/// The hasher of the `fnv` crate, carried opaquely.
#[verifier::external_type_specification]
#[verifier::external_body]
pub struct ExFnvHasher(fnv::FnvHasher);

/// std's hasher builder that makes each hasher by `Default`, carried opaquely.
#[verifier::external_type_specification]
#[verifier::external_body]
#[verifier::reject_recursive_types(H)]
pub struct ExBuildHasherDefault<H>(std::hash::BuildHasherDefault<H>);

/// Relies on `FnvHashMap::default`: a new map holds no entry.
#[verifier::external_body]
fn fnv_map_new() -> (r: FnvHashMap<u32, Rectangle>)
    ensures
        r@.dom().is_empty(),
{
    FnvHashMap::default()
}

/// Relies on `HashMap::insert` under the deterministic FNV hasher: the key then
/// maps to the value, and every other entry stays.
#[verifier::external_body]
fn fnv_map_insert(m: &mut FnvHashMap<u32, Rectangle>, k: u32, v: Rectangle)
    ensures
        final(m)@ == old(m)@.insert(k, v),
{
    m.insert(k, v);
}

/// Relies on `HashMap::get` under the deterministic FNV hasher: the value of the
/// key, if the map holds it.
#[verifier::external_body]
fn fnv_map_get(m: &FnvHashMap<u32, Rectangle>, k: u32) -> (r: Option<Rectangle>)
    ensures
        r == (if m@.contains_key(k) { Some(m@[k]) } else { None::<Rectangle> }),
{
    m.get(&k).copied()
}

/// The display updates in flight: each token the display handed out, with the
/// region it covers.
pub struct UpdateTracker {
    updates: FnvHashMap<u32, Rectangle>,
}

impl View for UpdateTracker {
    type V = Map<u32, Rectangle>;

    closed spec fn view(&self) -> Map<u32, Rectangle> {
        self.updates@
    }
}

impl UpdateTracker {
    pub fn new() -> (r: UpdateTracker)
        ensures
            r@ == Map::<u32, Rectangle>::empty(),
    {
        let updates = fnv_map_new();
        assert(updates@ =~= Map::<u32, Rectangle>::empty());
        UpdateTracker { updates }
    }

    /// Records that the update `token` covers `rect`.
    pub fn register(&mut self, token: u32, rect: Rectangle)
        ensures
            final(self)@ == old(self)@.insert(token, rect),
    {
        fnv_map_insert(&mut self.updates, token, rect);
    }

    /// The region that the update `token` covers, if it is tracked.
    pub fn region(&self, token: u32) -> (r: Option<Rectangle>)
        ensures
            r == (if self@.contains_key(token) { Some(self@[token]) } else { None::<Rectangle> }),
    {
        fnv_map_get(&self.updates, token)
    }
}

/// A token registered while it is not in flight differs from every token tracked
/// before; afterwards it maps to the region requested, and every other tracked
/// update keeps its region.
pub proof fn lemma_register_keeps_tokens_distinct(
    before: Map<u32, Rectangle>,
    token: u32,
    rect: Rectangle,
)
    requires
        !before.contains_key(token),
    ensures
        forall|t: u32| #[trigger] before.contains_key(t) ==> t != token,
        before.insert(token, rect)[token] == rect,
        before.insert(token, rect).dom() == before.dom().insert(token),
        forall|t: u32|
            t != token && before.contains_key(t) ==> #[trigger] before.insert(token, rect)[t]
                == before[t],
{
}

} // verus!
