use bevy_svg::render::{changed_handles, link_action, AssetEvent, AssetKey, LinkAction};

#[test]
fn only_added_and_modified_images_count_as_changed() {
    let events = vec![
        AssetEvent::Added(AssetKey::Index(1)),
        AssetEvent::Removed(AssetKey::Index(2)),
        AssetEvent::Modified(AssetKey::Uuid(3)),
        AssetEvent::Unused(AssetKey::Index(4)),
        AssetEvent::LoadedWithDependencies(AssetKey::Index(5)),
    ];
    assert_eq!(changed_handles(&events), vec![AssetKey::Index(1), AssetKey::Uuid(3)]);
}

#[test]
fn mesh_is_linked_only_for_changed_loaded_images() {
    let changed = vec![AssetKey::Index(1), AssetKey::Uuid(3)];
    assert_eq!(
        link_action(true, &changed, AssetKey::Uuid(3), true),
        LinkAction { set_material: true, set_mesh: true }
    );
    assert_eq!(
        link_action(false, &changed, AssetKey::Uuid(3), false),
        LinkAction { set_material: false, set_mesh: false }
    );
    assert_eq!(
        link_action(false, &changed, AssetKey::Index(3), true),
        LinkAction { set_material: false, set_mesh: false }
    );
}
