use tbn_engine::Context;
use tbn_engine::Mat4;
use tbn_engine::MeshRecord;
use tbn_engine::SCALAR_ONE_BITS;

#[test]
fn handles_are_sequential() {
    let mut context = Context::new();
    assert_eq!(context.mesh_count(), 0);
    assert_eq!(context.material_count(), 0);
    assert_eq!(context.camera_count(), 0);
    assert_eq!(context.object_count(), 0);

    let mesh_a = context.create_mesh(MeshRecord { index_count: 6, has_model_view: true });
    let mesh_b = context.create_mesh(MeshRecord { index_count: 36, has_model_view: false });
    assert_eq!(mesh_a.id, 0);
    assert_eq!(mesh_b.id, 1);
    assert_eq!(context.mesh_count(), 2);

    let material_a = context.create_material();
    let material_b = context.create_material();
    assert_eq!(material_a.id, 0);
    assert_eq!(material_b.id, 1);
    assert_eq!(context.material_count(), 2);

    let camera = context.create_camera();
    assert_eq!(camera.id, 0);
    assert_eq!(context.camera_count(), 1);

    let object_a = context.create_object(camera, mesh_a, material_a);
    let object_b = context.create_object(camera, mesh_b, material_b);
    assert_eq!(object_a.id, 0);
    assert_eq!(object_b.id, 1);
    assert_eq!(context.object_count(), 2);
}

#[test]
fn mesh_records_are_kept() {
    let mut context = Context::new();
    let quad = context.create_mesh(MeshRecord { index_count: 6, has_model_view: true });
    let cube = context.create_mesh(MeshRecord { index_count: 36, has_model_view: false });
    assert_eq!(
        context.mesh_record(quad),
        MeshRecord { index_count: 6, has_model_view: true }
    );
    assert_eq!(
        context.mesh_record(cube),
        MeshRecord { index_count: 36, has_model_view: false }
    );
}

#[test]
fn new_object_is_visible_with_identity_model() {
    let mut context = Context::new();
    let camera = context.create_camera();
    let mesh = context.create_mesh(MeshRecord { index_count: 6, has_model_view: true });
    let material = context.create_material();
    let object = context.create_object(camera, mesh, material);

    assert!(!object.get_is_hidden(&context));
    let record = context.object_record(object);
    assert_eq!(record.camera, camera);
    assert_eq!(record.mesh, mesh);
    assert_eq!(record.material, material);
    assert!(!record.is_hidden);
    assert_eq!(record.model, Mat4::identity());
}

#[test]
fn hidden_flag_round_trips() {
    let mut context = Context::new();
    let camera = context.create_camera();
    let mesh = context.create_mesh(MeshRecord { index_count: 6, has_model_view: true });
    let material = context.create_material();
    let object = context.create_object(camera, mesh, material);

    object.set_is_hidden(&mut context, true);
    assert!(object.get_is_hidden(&context));
    object.set_is_hidden(&mut context, false);
    assert!(!object.get_is_hidden(&context));
}

#[test]
fn set_is_hidden_touches_only_its_object() {
    let mut context = Context::new();
    let camera = context.create_camera();
    let mesh = context.create_mesh(MeshRecord { index_count: 6, has_model_view: true });
    let material = context.create_material();
    let object_a = context.create_object(camera, mesh, material);
    let object_b = context.create_object(camera, mesh, material);

    object_a.set_is_hidden(&mut context, true);
    assert!(object_a.get_is_hidden(&context));
    assert!(!object_b.get_is_hidden(&context));
}

#[test]
fn set_model_is_stored() {
    let mut context = Context::new();
    let camera = context.create_camera();
    let mesh = context.create_mesh(MeshRecord { index_count: 6, has_model_view: true });
    let material = context.create_material();
    let object = context.create_object(camera, mesh, material);

    let mut model = Mat4::identity();
    model.c3r0 = 2.5f32.to_bits();
    model.c3r1 = (-4.0f32).to_bits();
    object.set_model(&mut context, model);

    let record = context.object_record(object);
    assert_eq!(record.model, model);
    assert_eq!(f32::from_bits(record.model.c3r0), 2.5);
    assert_eq!(f32::from_bits(record.model.c3r1), -4.0);
}

#[test]
fn identity_matrix_bits() {
    let identity = Mat4::identity();
    assert_eq!(SCALAR_ONE_BITS, 1.0f32.to_bits());
    assert_eq!(identity.c0r0, 1.0f32.to_bits());
    assert_eq!(identity.c1r1, 1.0f32.to_bits());
    assert_eq!(identity.c2r2, 1.0f32.to_bits());
    assert_eq!(identity.c3r3, 1.0f32.to_bits());
    assert_eq!(identity.c0r1, 0.0f32.to_bits());
    assert_eq!(identity.c3r0, 0.0f32.to_bits());
}
