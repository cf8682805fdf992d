use ready_paint::error::Error;
use ready_paint::registry::{get_ref_and_mut, get_res, get_res_mut, return_res, Registry, Resource};

#[derive(Debug, PartialEq, Clone)]
enum Val {
    Camera { zoom: u32 },
    Mesh { verts: u32 },
}

const CAMERA: u64 = 11;
const MESH: u64 = 12;

#[test]
fn put_then_get_returns_what_was_put() {
    let mut data: Registry<Val> = Registry::new();
    return_res(&mut data, Resource::new(CAMERA, Val::Camera { zoom: 4 }));

    let v = get_res(&data, CAMERA).unwrap();
    assert_eq!(*v, Val::Camera { zoom: 4 });
}

#[test]
fn get_on_empty_registry_is_missing_resource() {
    let data: Registry<Val> = Registry::new();
    assert!(matches!(get_res(&data, CAMERA), Err(Error::MissingResource)));
}

#[test]
fn get_mut_on_empty_registry_is_missing_resource() {
    let mut data: Registry<Val> = Registry::new();
    assert!(matches!(
        get_res_mut(&mut data, CAMERA),
        Err(Error::MissingResource)
    ));
}

#[test]
fn put_replaces_previous_value() {
    let mut data: Registry<Val> = Registry::new();
    return_res(&mut data, Resource::new(CAMERA, Val::Camera { zoom: 1 }));
    return_res(&mut data, Resource::new(CAMERA, Val::Camera { zoom: 2 }));

    let v = get_res(&data, CAMERA).unwrap();
    assert_eq!(*v, Val::Camera { zoom: 2 });
}

#[test]
fn mismatched_entry_is_reported_not_assumed() {
    let mut data: Registry<Val> = Registry::new();
    // A raw insertion may file a payload under a key that is not the
    // payload's own type key; a lookup must catch that defensively.
    data.insert(CAMERA, Resource::new(MESH, Val::Mesh { verts: 9 }));

    assert!(matches!(get_res(&data, CAMERA), Err(Error::TypeMismatch)));
    assert!(matches!(
        get_res_mut(&mut data, CAMERA),
        Err(Error::TypeMismatch)
    ));
}

#[test]
fn get_mut_writes_are_visible_afterwards() {
    let mut data: Registry<Val> = Registry::new();
    return_res(&mut data, Resource::new(MESH, Val::Mesh { verts: 3 }));

    if let Val::Mesh { verts } = get_res_mut(&mut data, MESH).unwrap() {
        *verts = 30;
    }
    assert_eq!(*get_res(&data, MESH).unwrap(), Val::Mesh { verts: 30 });
}

#[test]
fn ref_and_mut_are_disjoint() {
    let mut data: Registry<Val> = Registry::new();
    return_res(&mut data, Resource::new(CAMERA, Val::Camera { zoom: 8 }));
    return_res(&mut data, Resource::new(MESH, Val::Mesh { verts: 100 }));

    let (cam, mesh) = get_ref_and_mut(&mut data, CAMERA, MESH).unwrap();
    if let Val::Mesh { verts } = mesh {
        *verts = 101;
    }
    assert_eq!(*cam, Val::Camera { zoom: 8 });
    assert_eq!(*mesh, Val::Mesh { verts: 101 });

    assert_eq!(*get_res(&data, MESH).unwrap(), Val::Mesh { verts: 101 });
    assert_eq!(*get_res(&data, CAMERA).unwrap(), Val::Camera { zoom: 8 });
}

#[test]
fn ref_and_mut_same_key_fails_loudly() {
    let mut data: Registry<Val> = Registry::new();
    return_res(&mut data, Resource::new(CAMERA, Val::Camera { zoom: 8 }));

    assert!(matches!(
        get_ref_and_mut(&mut data, CAMERA, CAMERA),
        Err(Error::DuplicateTypeInMultiAccess)
    ));
}

#[test]
fn ref_and_mut_checks_read_slot_first() {
    let mut data: Registry<Val> = Registry::new();
    return_res(&mut data, Resource::new(MESH, Val::Mesh { verts: 1 }));

    // The read slot is missing, the write slot is present: the read slot's
    // failure is the one reported.
    assert!(matches!(
        get_ref_and_mut(&mut data, CAMERA, MESH),
        Err(Error::MissingResource)
    ));
}
