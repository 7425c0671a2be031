use tbn_engine::Context;
use tbn_engine::DepthStencilTextureFormat;
use tbn_engine::DrawCommand;
use tbn_engine::Mat4;
use tbn_engine::MeshRecord;
use tbn_engine::Scene;
use tbn_engine::TextureFormat;

const COLOR: TextureFormat = TextureFormat::Bgra8Unorm;
const DEPTH: DepthStencilTextureFormat = DepthStencilTextureFormat::Depth32Float;

#[test]
fn empty_scene_renders_nothing() {
    let context = Context::new();
    let scene = Scene::new(COLOR, DEPTH);
    let plan = scene.render(&context, COLOR, DEPTH);
    assert!(plan.is_empty());
}

#[test]
fn objects_are_drawn_in_registration_order() {
    let mut context = Context::new();
    let camera = context.create_camera();
    let quad = context.create_mesh(MeshRecord { index_count: 6, has_model_view: true });
    let cube = context.create_mesh(MeshRecord { index_count: 36, has_model_view: false });
    let material = context.create_material();
    let first = context.create_object(camera, cube, material);
    let second = context.create_object(camera, quad, material);

    let mut scene = Scene::new(COLOR, DEPTH);
    scene.add_object(first);
    scene.add_object(second);

    let plan = scene.render(&context, COLOR, DEPTH);
    assert_eq!(plan.len(), 2);
    assert_eq!(
        plan[0],
        DrawCommand {
            object: first,
            camera,
            mesh: cube,
            material,
            model: Mat4::identity(),
            write_model_view: false,
            index_count: 36,
        }
    );
    assert_eq!(
        plan[1],
        DrawCommand {
            object: second,
            camera,
            mesh: quad,
            material,
            model: Mat4::identity(),
            write_model_view: true,
            index_count: 6,
        }
    );
}

#[test]
fn hidden_object_is_skipped() {
    let mut context = Context::new();
    let camera = context.create_camera();
    let mesh = context.create_mesh(MeshRecord { index_count: 6, has_model_view: true });
    let material = context.create_material();
    let shown = context.create_object(camera, mesh, material);
    let hidden = context.create_object(camera, mesh, material);
    let also_shown = context.create_object(camera, mesh, material);

    let mut scene = Scene::new(COLOR, DEPTH);
    scene.add_object(shown);
    scene.add_object(hidden);
    scene.add_object(also_shown);
    hidden.set_is_hidden(&mut context, true);

    let plan = scene.render(&context, COLOR, DEPTH);
    assert_eq!(plan.len(), 2);
    assert_eq!(plan[0].object, shown);
    assert_eq!(plan[1].object, also_shown);
}

#[test]
fn unhidden_object_is_drawn_again() {
    let mut context = Context::new();
    let camera = context.create_camera();
    let mesh = context.create_mesh(MeshRecord { index_count: 6, has_model_view: true });
    let material = context.create_material();
    let object = context.create_object(camera, mesh, material);

    let mut scene = Scene::new(COLOR, DEPTH);
    scene.add_object(object);

    object.set_is_hidden(&mut context, true);
    assert!(scene.render(&context, COLOR, DEPTH).is_empty());

    object.set_is_hidden(&mut context, false);
    let plan = scene.render(&context, COLOR, DEPTH);
    assert_eq!(plan.len(), 1);
    assert_eq!(plan[0].object, object);
}

#[test]
fn removed_object_is_not_drawn() {
    let mut context = Context::new();
    let camera = context.create_camera();
    let mesh = context.create_mesh(MeshRecord { index_count: 6, has_model_view: true });
    let material = context.create_material();
    let kept = context.create_object(camera, mesh, material);
    let removed = context.create_object(camera, mesh, material);
    let also_kept = context.create_object(camera, mesh, material);

    let mut scene = Scene::new(COLOR, DEPTH);
    scene.add_object(kept);
    scene.add_object(removed);
    scene.add_object(also_kept);
    scene.remove_object(&removed);

    let plan = scene.render(&context, COLOR, DEPTH);
    assert_eq!(plan.len(), 2);
    assert_eq!(plan[0].object, kept);
    assert_eq!(plan[1].object, also_kept);
}

#[test]
fn contains_object_tracks_membership() {
    let mut context = Context::new();
    let camera = context.create_camera();
    let mesh = context.create_mesh(MeshRecord { index_count: 6, has_model_view: true });
    let material = context.create_material();
    let object = context.create_object(camera, mesh, material);
    let never_added = context.create_object(camera, mesh, material);

    let mut scene = Scene::new(COLOR, DEPTH);
    assert!(!scene.contains_object(&object));
    scene.add_object(object);
    assert!(scene.contains_object(&object));
    assert!(!scene.contains_object(&never_added));

    // A removed object still counts as seen, so it cannot be added again.
    scene.remove_object(&object);
    assert!(scene.contains_object(&object));
}

#[test]
fn model_transform_reaches_the_draw_command() {
    let mut context = Context::new();
    let camera = context.create_camera();
    let mesh = context.create_mesh(MeshRecord { index_count: 6, has_model_view: true });
    let material = context.create_material();
    let object = context.create_object(camera, mesh, material);

    let mut scene = Scene::new(COLOR, DEPTH);
    scene.add_object(object);

    let mut model = Mat4::identity();
    model.c0r0 = 100.0f32.to_bits();
    model.c1r1 = 100.0f32.to_bits();
    model.c3r0 = (-50.0f32).to_bits();
    object.set_model(&mut context, model);

    let plan = scene.render(&context, COLOR, DEPTH);
    assert_eq!(plan.len(), 1);
    assert_eq!(plan[0].model, model);
    assert_eq!(f32::from_bits(plan[0].model.c0r0), 100.0);
}

#[test]
fn objects_can_be_shared_between_scenes() {
    let mut context = Context::new();
    let camera = context.create_camera();
    let mesh = context.create_mesh(MeshRecord { index_count: 6, has_model_view: true });
    let material = context.create_material();
    let object = context.create_object(camera, mesh, material);

    let mut scene_a = Scene::new(COLOR, DEPTH);
    let mut scene_b = Scene::new(TextureFormat::Rgba16Float, DEPTH);
    scene_a.add_object(object);
    scene_b.add_object(object);
    object.set_is_hidden(&mut context, true);

    assert!(scene_a.render(&context, COLOR, DEPTH).is_empty());
    assert!(scene_b.render(&context, TextureFormat::Rgba16Float, DEPTH).is_empty());
}

#[test]
fn scene_level_setters_reach_the_registry() {
    let mut context = Context::new();
    let camera = context.create_camera();
    let mesh = context.create_mesh(MeshRecord { index_count: 6, has_model_view: true });
    let material = context.create_material();
    let object = context.create_object(camera, mesh, material);

    let mut scene = Scene::new(COLOR, DEPTH);
    scene.add_object(object);

    scene.set_object_is_hidden(&mut context, &object, true);
    assert!(object.get_is_hidden(&context));
    assert!(scene.render(&context, COLOR, DEPTH).is_empty());
    scene.set_object_is_hidden(&mut context, &object, false);

    let mut model = Mat4::identity();
    model.c3r2 = 7.0f32.to_bits();
    scene.set_object_model(&mut context, &object, model);
    let plan = scene.render(&context, COLOR, DEPTH);
    assert_eq!(plan.len(), 1);
    assert_eq!(plan[0].model, model);
}

#[test]
fn format_observers() {
    assert!(!TextureFormat::Rgba8Unorm.supports_depth_stencil_view());
    assert!(TextureFormat::Rgba8Unorm.is_normalized());
    assert!(DepthStencilTextureFormat::Depth24PlusStencil8.supports_depth_stencil_view());
    assert!(!DepthStencilTextureFormat::Depth24PlusStencil8.is_normalized());
}
