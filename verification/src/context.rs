//! The resource registry: meshes, materials, cameras and objects.
//!
//! A `Context` is the owner of every renderable resource. Each resource is
//! registered once and addressed afterwards through a small copyable handle
//! (`MeshRef`, `MaterialRef`, `CameraRef`, `ObjectRef`) whose id is the
//! position of the resource in its arena. The registry keeps only the plain
//! data the render logic reads; GPU-side state lives outside the verified
//! core, in tables indexed by the same handles.

use vstd::prelude::*;

use crate::transform::Mat4;

verus! {

/// Handle to a mesh registered in a [`Context`].
#[derive(Debug, Clone, Copy, PartialEq, Eq, Hash, Structural)]
pub struct MeshRef {
    pub id: usize,
}

/// Handle to a material registered in a [`Context`].
#[derive(Debug, Clone, Copy, PartialEq, Eq, Hash, Structural)]
pub struct MaterialRef {
    pub id: usize,
}

/// Handle to a camera registered in a [`Context`].
#[derive(Debug, Clone, Copy, PartialEq, Eq, Hash, Structural)]
pub struct CameraRef {
    pub id: usize,
}

/// Handle to an object registered in a [`Context`].
#[derive(Debug, Clone, Copy, PartialEq, Eq, Hash, Structural)]
pub struct ObjectRef {
    pub id: usize,
}

/// What the render logic reads of a mesh: how many indices a draw call
/// covers, and whether the mesh carries a model-view uniform that must be
/// rewritten before each draw.
#[derive(Debug, Clone, Copy, PartialEq, Eq, Structural)]
pub struct MeshRecord {
    /// The length of the mesh's index buffer.
    pub index_count: u32,
    /// Whether the mesh uses a traditional model-view matrix.
    pub has_model_view: bool,
}

/// The per-object state needed to render an object: which camera, mesh and
/// material it uses, its model transform, and whether it is hidden.
#[derive(Debug, Clone, Copy, PartialEq, Eq, Structural)]
pub struct ObjectRecord {
    pub camera: CameraRef,
    pub mesh: MeshRef,
    pub material: MaterialRef,
    pub model: Mat4,
    pub is_hidden: bool,
}

impl ObjectRecord {
    /// The state a freshly created object starts in: identity model
    /// transform, not hidden.
    pub open spec fn created(camera: CameraRef, mesh: MeshRef, material: MaterialRef) -> ObjectRecord {
        ObjectRecord {
            camera,
            mesh,
            material,
            model: Mat4::spec_identity(),
            is_hidden: false,
        }
    }

    /// This record with its hidden flag replaced.
    pub open spec fn with_hidden(self, is_hidden: bool) -> ObjectRecord {
        ObjectRecord { is_hidden, ..self }
    }

    /// This record with its model transform replaced.
    pub open spec fn with_model(self, model: Mat4) -> ObjectRecord {
        ObjectRecord { model, ..self }
    }
}

/// The registry of renderable resources.
pub struct Context {
    meshes: Vec<MeshRecord>,
    material_count: usize,
    camera_count: usize,
    objects: Vec<ObjectRecord>,
}

impl Context {
    /// The registered meshes, in registration order.
    pub closed spec fn meshes(&self) -> Seq<MeshRecord> {
        self.meshes@
    }

    /// How many materials have been registered.
    pub closed spec fn materials(&self) -> nat {
        self.material_count as nat
    }

    /// How many cameras have been registered.
    pub closed spec fn cameras(&self) -> nat {
        self.camera_count as nat
    }

    /// The registered objects, in registration order; an object's id is its
    /// position here.
    pub closed spec fn objects(&self) -> Seq<ObjectRecord> {
        self.objects@
    }

    /// Whether a mesh handle names a registered mesh.
    pub open spec fn valid_mesh(&self, mesh: MeshRef) -> bool {
        (mesh.id as nat) < self.meshes().len()
    }

    /// Whether a material handle names a registered material.
    pub open spec fn valid_material(&self, material: MaterialRef) -> bool {
        (material.id as nat) < self.materials()
    }

    /// Whether a camera handle names a registered camera.
    pub open spec fn valid_camera(&self, camera: CameraRef) -> bool {
        (camera.id as nat) < self.cameras()
    }

    /// Whether an object handle names a registered object.
    pub open spec fn valid_object(&self, object: ObjectRef) -> bool {
        (object.id as nat) < self.objects().len()
    }

    /// Creates an empty registry.
    pub fn new() -> (r: Context)
        ensures
            r.meshes().len() == 0,
            r.materials() == 0,
            r.cameras() == 0,
            r.objects().len() == 0,
    {
        Context {
            meshes: Vec::new(),
            material_count: 0,
            camera_count: 0,
            objects: Vec::new(),
        }
    }

    /// Registers a mesh and returns its handle.
    pub fn create_mesh(&mut self, mesh: MeshRecord) -> (r: MeshRef)
        ensures
            final(self).meshes() == old(self).meshes().push(mesh),
            final(self).materials() == old(self).materials(),
            final(self).cameras() == old(self).cameras(),
            final(self).objects() == old(self).objects(),
            (r.id as nat) == old(self).meshes().len(),
            final(self).valid_mesh(r),
    {
        let id = self.meshes.len();
        self.meshes.push(mesh);
        MeshRef { id }
    }

    /// Registers a material and returns its handle.
    pub fn create_material(&mut self) -> (r: MaterialRef)
        requires
            old(self).materials() < usize::MAX,
        ensures
            final(self).materials() == old(self).materials() + 1,
            final(self).meshes() == old(self).meshes(),
            final(self).cameras() == old(self).cameras(),
            final(self).objects() == old(self).objects(),
            (r.id as nat) == old(self).materials(),
            final(self).valid_material(r),
    {
        let id = self.material_count;
        self.material_count = self.material_count + 1;
        MaterialRef { id }
    }

    /// Registers a camera and returns its handle.
    pub fn create_camera(&mut self) -> (r: CameraRef)
        requires
            old(self).cameras() < usize::MAX,
        ensures
            final(self).cameras() == old(self).cameras() + 1,
            final(self).meshes() == old(self).meshes(),
            final(self).materials() == old(self).materials(),
            final(self).objects() == old(self).objects(),
            (r.id as nat) == old(self).cameras(),
            final(self).valid_camera(r),
    {
        let id = self.camera_count;
        self.camera_count = self.camera_count + 1;
        CameraRef { id }
    }

    /// Creates an object from registered resources and returns its handle.
    /// The object starts visible, with the identity model transform.
    pub fn create_object(&mut self, camera: CameraRef, mesh: MeshRef, material: MaterialRef) -> (r:
        ObjectRef)
        requires
            old(self).valid_camera(camera),
            old(self).valid_mesh(mesh),
            old(self).valid_material(material),
        ensures
            final(self).objects() == old(self).objects().push(
                ObjectRecord::created(camera, mesh, material),
            ),
            final(self).meshes() == old(self).meshes(),
            final(self).materials() == old(self).materials(),
            final(self).cameras() == old(self).cameras(),
            (r.id as nat) == old(self).objects().len(),
            final(self).valid_object(r),
    {
        let id = self.objects.len();
        self.objects.push(
            ObjectRecord {
                camera,
                mesh,
                material,
                model: Mat4::identity(),
                is_hidden: false,
            },
        );
        ObjectRef { id }
    }

    /// The number of registered meshes.
    pub fn mesh_count(&self) -> (n: usize)
        ensures
            (n as nat) == self.meshes().len(),
    {
        self.meshes.len()
    }

    /// The number of registered materials.
    pub fn material_count(&self) -> (n: usize)
        ensures
            (n as nat) == self.materials(),
    {
        self.material_count
    }

    /// The number of registered cameras.
    pub fn camera_count(&self) -> (n: usize)
        ensures
            (n as nat) == self.cameras(),
    {
        self.camera_count
    }

    /// The number of registered objects.
    pub fn object_count(&self) -> (n: usize)
        ensures
            (n as nat) == self.objects().len(),
    {
        self.objects.len()
    }

    /// Reads the record of a registered mesh.
    pub fn mesh_record(&self, mesh: MeshRef) -> (r: MeshRecord)
        requires
            self.valid_mesh(mesh),
        ensures
            r == self.meshes()[mesh.id as int],
    {
        self.meshes[mesh.id]
    }

    /// Reads the record of a registered object.
    pub fn object_record(&self, object: ObjectRef) -> (r: ObjectRecord)
        requires
            self.valid_object(object),
        ensures
            r == self.objects()[object.id as int],
    {
        self.objects[object.id]
    }
}

impl ObjectRef {
    /// Sets whether the object is hidden. A hidden object stays registered
    /// but is skipped when a scene is rendered.
    pub fn set_is_hidden(&self, context: &mut Context, is_hidden: bool)
        requires
            old(context).valid_object(*self),
        ensures
            final(context).objects() == old(context).objects().update(
                self.id as int,
                old(context).objects()[self.id as int].with_hidden(is_hidden),
            ),
            final(context).meshes() == old(context).meshes(),
            final(context).materials() == old(context).materials(),
            final(context).cameras() == old(context).cameras(),
    {
        context.objects[self.id].is_hidden = is_hidden;
    }

    /// Returns whether the object is hidden.
    pub fn get_is_hidden(&self, context: &Context) -> (r: bool)
        requires
            context.valid_object(*self),
        ensures
            r == context.objects()[self.id as int].is_hidden,
    {
        context.objects[self.id].is_hidden
    }

    /// Sets the object's model transform.
    pub fn set_model(&self, context: &mut Context, model: Mat4)
        requires
            old(context).valid_object(*self),
        ensures
            final(context).objects() == old(context).objects().update(
                self.id as int,
                old(context).objects()[self.id as int].with_model(model),
            ),
            final(context).meshes() == old(context).meshes(),
            final(context).materials() == old(context).materials(),
            final(context).cameras() == old(context).cameras(),
    {
        context.objects[self.id].model = model;
    }
}

} // verus!
