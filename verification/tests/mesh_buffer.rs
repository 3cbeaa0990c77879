use textmesh::mesh::{BufferUpdate, Mesh, UsageType};
use textmesh::texture::FilterMode;

#[test]
fn creation_fills_both_buffers_exactly() {
    let mesh = Mesh::from_vertices(8, 4, UsageType::Dynamic);
    assert_eq!(mesh.index_count(), 12);
    assert_eq!(mesh.get_usage_type(), UsageType::Dynamic);
}

#[test]
fn growing_data_reallocates() {
    let mut mesh = Mesh::from_vertices(8, 4, UsageType::Dynamic);
    let (vertex_action, face_action) = mesh.update_vertices(12, 6);
    assert_eq!(vertex_action, BufferUpdate::Reallocate);
    assert_eq!(face_action, BufferUpdate::Reallocate);
    assert_eq!(mesh.index_count(), 18);
}

#[test]
fn shrinking_data_updates_in_place() {
    let mut mesh = Mesh::from_vertices(8, 4, UsageType::Static);
    let (vertex_action, face_action) = mesh.update_vertices(4, 2);
    assert_eq!(vertex_action, BufferUpdate::InPlace);
    assert_eq!(face_action, BufferUpdate::InPlace);
    // The draw count follows the new data even without a reallocation.
    assert_eq!(mesh.index_count(), 6);
}

#[test]
fn capacity_never_shrinks() {
    let mut mesh = Mesh::from_vertices(8, 4, UsageType::Dynamic);
    mesh.update_vertices(2, 1);
    // Growing back within the original capacity still fits in place.
    let (vertex_action, face_action) = mesh.update_vertices(8, 4);
    assert_eq!(vertex_action, BufferUpdate::InPlace);
    assert_eq!(face_action, BufferUpdate::InPlace);
    assert_eq!(mesh.index_count(), 12);
}

#[test]
fn buffers_grow_independently() {
    let mut mesh = Mesh::from_vertices(8, 4, UsageType::Dynamic);
    let (vertex_action, face_action) = mesh.update_vertices(16, 3);
    assert_eq!(vertex_action, BufferUpdate::Reallocate);
    assert_eq!(face_action, BufferUpdate::InPlace);
}

#[test]
fn mipmap_filters_are_recognized() {
    assert!(!FilterMode::Nearest.is_mipmap());
    assert!(!FilterMode::Linear.is_mipmap());
    assert!(FilterMode::NearestMipMapNearest.is_mipmap());
    assert!(FilterMode::LinearMipMapNearest.is_mipmap());
    assert!(FilterMode::NearestMipMapLinear.is_mipmap());
    assert!(FilterMode::LinearMipMapLinear.is_mipmap());
}
