//! Decisions of the pass that links generated meshes and materials to drawn instances.
use vstd::prelude::*;

verus! {

/// Identifies a loaded image in the asset store.
#[derive(Clone, Copy, Debug, PartialEq, Eq, Structural)]
pub enum AssetKey {
    Index(u64),
    Uuid(u128),
}

/// What the asset store reports about an image.
#[derive(Clone, Copy, Debug, PartialEq, Eq, Structural)]
pub enum AssetEvent {
    Added(AssetKey),
    Modified(AssetKey),
    Removed(AssetKey),
    Unused(AssetKey),
    LoadedWithDependencies(AssetKey),
}

/// The keys of the images that were added or modified, in event order.
pub open spec fn changed_spec(events: Seq<AssetEvent>) -> Seq<AssetKey>
    decreases events.len(),
{
    if events.len() == 0 {
        Seq::empty()
    } else {
        changed_spec(events.drop_last()) + match events.last() {
            AssetEvent::Added(k) => seq![k],
            AssetEvent::Modified(k) => seq![k],
            _ => Seq::empty(),
        }
    }
}

/// Collects the keys of the images whose mesh must be linked again.
pub fn changed_handles(events: &Vec<AssetEvent>) -> (r: Vec<AssetKey>)
    ensures
        r@ == changed_spec(events@),
{
    let mut out: Vec<AssetKey> = Vec::new();
    let n = events.len();
    let mut i: usize = 0;
    while i < n
        invariant
            i <= n,
            n == events@.len(),
            out@ == changed_spec(events@.take(i as int)),
        decreases n - i,
    {
        proof {
            let t = events@.take(i + 1);
            assert(t.drop_last() =~= events@.take(i as int));
            assert(t.last() == events@[i as int]);
        }
        match events[i] {
            AssetEvent::Added(k) => {
                out.push(k);
            },
            AssetEvent::Modified(k) => {
                out.push(k);
            },
            _ => {
                assert(out@ =~= out@ + Seq::<AssetKey>::empty());
            },
        }
        i = i + 1;
    }
    assert(events@.take(n as int) =~= events@);
    out
}

/// What the link pass does to one instance.
#[derive(Clone, Copy, Debug, PartialEq, Eq, Structural)]
pub struct LinkAction {
    /// Give the instance a new material bound to its image.
    pub set_material: bool,
    /// Give the instance the image's generated mesh.
    pub set_mesh: bool,
}

/// The link pass for one instance: a new material when its image component
/// changed; its image's mesh when that image is among `changed` and loaded.
pub fn link_action(component_changed: bool, changed: &Vec<AssetKey>, key: AssetKey, loaded: bool) -> (r: LinkAction)
    ensures
        r.set_material == component_changed,
        r.set_mesh == (changed@.contains(key) && loaded),
{
    let n = changed.len();
    let mut found = false;
    let mut i: usize = 0;
    while i < n
        invariant
            i <= n,
            n == changed@.len(),
            found == changed@.take(i as int).contains(key),
        decreases n - i,
    {
        proof {
            let t = changed@.take(i + 1);
            assert(t =~= changed@.take(i as int).push(changed@[i as int]));
            if changed@.take(i as int).contains(key) {
                let j = choose|j: int| 0 <= j < i && changed@.take(i as int)[j] == key;
                assert(t[j] == key);
            }
            if changed@[i as int] == key {
                assert(t[i as int] == key);
            }
            if t.contains(key) {
                let j = choose|j: int| 0 <= j < i + 1 && t[j] == key;
                if j < i {
                    assert(changed@.take(i as int)[j] == key);
                }
            }
        }
        if changed[i] == key {
            found = true;
        }
        i = i + 1;
    }
    assert(changed@.take(n as int) =~= changed@);
    LinkAction { set_material: component_changed, set_mesh: found && loaded }
}

} // verus!
