//! The scene: an ordered render list over registered objects.
//!
//! A `Scene` keeps the objects it draws in registration order. Removing an
//! object clears its slot without disturbing the order of the others, and a
//! map from object id to slot makes removal cheap. Rendering walks the slots
//! in order, skips cleared slots and hidden objects, and emits one
//! [`DrawCommand`] per visible object; a GPU backend outside the verified
//! core executes the commands.

use std::collections::HashMap;

use vstd::prelude::*;

use crate::context::CameraRef;
use crate::context::Context;
use crate::context::MaterialRef;
use crate::context::MeshRecord;
use crate::context::MeshRef;
use crate::context::ObjectRecord;
use crate::context::ObjectRef;
use crate::format::DepthStencilTextureFormat;
use crate::format::TextureFormat;
use crate::transform::Mat4;

verus! {

broadcast use vstd::std_specs::hash::group_hash_axioms;

/// Everything a GPU backend needs to draw one object: the object and the
/// resources it was created from, its model transform, whether its mesh's
/// model-view uniform must be rewritten first, and how many indices the
/// draw call covers.
#[derive(Debug, Clone, Copy, PartialEq, Eq, Structural)]
pub struct DrawCommand {
    pub object: ObjectRef,
    pub camera: CameraRef,
    pub mesh: MeshRef,
    pub material: MaterialRef,
    pub model: Mat4,
    pub write_model_view: bool,
    pub index_count: u32,
}

/// The draw command a visible object produces.
pub open spec fn command_for(object: ObjectRef, record: ObjectRecord, mesh: MeshRecord) -> DrawCommand {
    DrawCommand {
        object,
        camera: record.camera,
        mesh: record.mesh,
        material: record.material,
        model: record.model,
        write_model_view: mesh.has_model_view,
        index_count: mesh.index_count,
    }
}

/// The draw commands a single slot of the render list produces: none if the
/// slot was cleared or its object is hidden, exactly one otherwise.
pub open spec fn slot_commands(
    slot: Option<ObjectRef>,
    objects: Seq<ObjectRecord>,
    meshes: Seq<MeshRecord>,
) -> Seq<DrawCommand> {
    match slot {
        None => Seq::empty(),
        Some(object) => {
            let record = objects[object.id as int];
            if record.is_hidden {
                Seq::empty()
            } else {
                seq![command_for(object, record, meshes[record.mesh.id as int])]
            }
        },
    }
}

/// The draw plan of a render list: the concatenation, in slot order, of each
/// slot's commands.
pub open spec fn render_plan(
    entries: Seq<Option<ObjectRef>>,
    objects: Seq<ObjectRecord>,
    meshes: Seq<MeshRecord>,
) -> Seq<DrawCommand>
    decreases entries.len(),
{
    if entries.len() == 0 {
        Seq::empty()
    } else {
        render_plan(entries.drop_last(), objects, meshes) + slot_commands(
            entries.last(),
            objects,
            meshes,
        )
    }
}

/// An ordered list of objects to render onto a surface of a fixed pair of
/// texture formats.
pub struct Scene {
    entries: Vec<Option<ObjectRef>>,
    indices: HashMap<usize, usize>,
    color_format: TextureFormat,
    depth_stencil_format: DepthStencilTextureFormat,
}

impl Scene {
    /// The render list: one slot per added object, in the order they were
    /// added; a cleared slot marks a removed object.
    pub closed spec fn entries(&self) -> Seq<Option<ObjectRef>> {
        self.entries@
    }

    /// The map from object id to its slot in the render list. An entry stays
    /// after its object is removed, so a removed object cannot be re-added.
    pub closed spec fn index_map(&self) -> Map<usize, usize> {
        self.indices@
    }

    /// The color format of the surfaces this scene renders onto.
    pub closed spec fn color_format(&self) -> TextureFormat {
        self.color_format
    }

    /// The depth-stencil format of the surfaces this scene renders onto.
    pub closed spec fn depth_stencil_format(&self) -> DepthStencilTextureFormat {
        self.depth_stencil_format
    }

    /// The scene's slot map is consistent with its render list: every mapped
    /// id points at a slot that holds that very object or was cleared, and
    /// every occupied slot is mapped back to itself.
    pub open spec fn wf(&self) -> bool {
        &&& forall|id: usize|
            #[trigger] self.index_map().dom().contains(id) ==> {
                &&& (self.index_map()[id] as int) < self.entries().len()
                &&& (self.entries()[self.index_map()[id] as int] is Some
                    ==> self.entries()[self.index_map()[id] as int]->0.id == id)
            }
        &&& forall|i: int|
            0 <= i < self.entries().len() && (#[trigger] self.entries()[i]) is Some ==> {
                &&& self.index_map().dom().contains(self.entries()[i]->0.id)
                &&& (self.index_map()[self.entries()[i]->0.id] as int) == i
            }
    }

    /// Every object in the render list is registered in `context`, as is the
    /// mesh its record names.
    pub open spec fn valid_in(&self, context: &Context) -> bool {
        forall|i: int|
            0 <= i < self.entries().len() && (#[trigger] self.entries()[i]) is Some ==> {
                &&& context.valid_object(self.entries()[i]->0)
                &&& context.valid_mesh(context.objects()[self.entries()[i]->0.id as int].mesh)
            }
    }

    /// Creates an empty scene for surfaces of the given formats.
    pub fn new(
        surface_color_format: TextureFormat,
        surface_depth_stencil_format: DepthStencilTextureFormat,
    ) -> (r: Scene)
        ensures
            r.wf(),
            r.entries().len() == 0,
            r.index_map() == Map::<usize, usize>::empty(),
            r.color_format() == surface_color_format,
            r.depth_stencil_format() == surface_depth_stencil_format,
    {
        Scene {
            entries: Vec::new(),
            indices: HashMap::new(),
            color_format: surface_color_format,
            depth_stencil_format: surface_depth_stencil_format,
        }
    }

    /// Whether the object was ever added to this scene (a removed object
    /// still counts, and cannot be added again).
    pub fn contains_object(&self, object: &ObjectRef) -> (r: bool)
        ensures
            r == self.index_map().dom().contains(object.id),
    {
        self.indices.contains_key(&object.id)
    }

    /// Adds an object at the end of the render list.
    pub fn add_object(&mut self, object: ObjectRef)
        requires
            old(self).wf(),
            !old(self).index_map().dom().contains(object.id),
        ensures
            final(self).wf(),
            final(self).entries() == old(self).entries().push(Some(object)),
            final(self).index_map() == old(self).index_map().insert(
                object.id,
                old(self).entries().len() as usize,
            ),
            final(self).color_format() == old(self).color_format(),
            final(self).depth_stencil_format() == old(self).depth_stencil_format(),
    {
        let index = self.entries.len();
        self.indices.insert(object.id, index);
        self.entries.push(Some(object));
    }

    /// Removes an object from the render list by clearing its slot. The
    /// other slots keep their positions.
    pub fn remove_object(&mut self, object: &ObjectRef)
        requires
            old(self).wf(),
            old(self).index_map().dom().contains(object.id),
        ensures
            final(self).wf(),
            final(self).entries() == old(self).entries().update(
                old(self).index_map()[object.id] as int,
                None,
            ),
            final(self).index_map() == old(self).index_map(),
            final(self).color_format() == old(self).color_format(),
            final(self).depth_stencil_format() == old(self).depth_stencil_format(),
    {
        let index: usize = match self.indices.get(&object.id) {
            Some(index) => *index,
            None => vstd::pervasive::unreached(),
        };
        self.entries[index] = None;
    }

    /// Checks executably that every object in the render list is registered
    /// in `context`, as is the mesh its record names. [`Scene::render`]
    /// requires this.
    pub fn is_valid_in(&self, context: &Context) -> (r: bool)
        ensures
            r == self.valid_in(context),
    {
        let count = self.entries.len();
        let mut i: usize = 0;
        while i < count
            invariant
                count == self.entries().len(),
                i <= count,
                forall|j: int|
                    0 <= j < i && (#[trigger] self.entries()[j]) is Some ==> {
                        &&& context.valid_object(self.entries()[j]->0)
                        &&& context.valid_mesh(context.objects()[self.entries()[j]->0.id as int].mesh)
                    },
            decreases count - i,
        {
            match self.entries[i] {
                None => {},
                Some(object) => {
                    if object.id >= context.object_count() {
                        return false;
                    }
                    let record = context.object_record(object);
                    if record.mesh.id >= context.mesh_count() {
                        return false;
                    }
                },
            }
            i = i + 1;
        }
        true
    }

    /// Renders the scene: walks the render list in order, skips cleared
    /// slots and hidden objects, and returns one draw command per visible
    /// object. The caller passes the formats of the surface it is about to
    /// draw onto; they must be the formats the scene was created for.
    pub fn render(
        &self,
        context: &Context,
        surface_color_format: TextureFormat,
        surface_depth_stencil_format: DepthStencilTextureFormat,
    ) -> (plan: Vec<DrawCommand>)
        requires
            self.valid_in(context),
            surface_color_format == self.color_format(),
            surface_depth_stencil_format == self.depth_stencil_format(),
        ensures
            plan@ == render_plan(self.entries(), context.objects(), context.meshes()),
    {
        let mut plan: Vec<DrawCommand> = Vec::new();
        let count = self.entries.len();
        let mut i: usize = 0;
        while i < count
            invariant
                count == self.entries().len(),
                i <= count,
                self.valid_in(context),
                plan@ == render_plan(
                    self.entries().take(i as int),
                    context.objects(),
                    context.meshes(),
                ),
            decreases count - i,
        {
            match self.entries[i] {
                None => {},
                Some(object) => {
                    let record = context.object_record(object);
                    if !record.is_hidden {
                        let mesh = context.mesh_record(record.mesh);
                        plan.push(
                            DrawCommand {
                                object,
                                camera: record.camera,
                                mesh: record.mesh,
                                material: record.material,
                                model: record.model,
                                write_model_view: mesh.has_model_view,
                                index_count: mesh.index_count,
                            },
                        );
                    }
                },
            }
            proof {
                lemma_render_plan_step(
                    self.entries(),
                    context.objects(),
                    context.meshes(),
                    i as int,
                );
                assert(plan@ =~= render_plan(
                    self.entries().take(i + 1),
                    context.objects(),
                    context.meshes(),
                ));
            }
            i = i + 1;
        }
        proof {
            assert(self.entries().take(count as int) =~= self.entries());
        }
        plan
    }

    /// Sets the model transform of an object. The object's state lives in
    /// the registry, so the next render of any scene that lists the object
    /// sees the new transform.
    pub fn set_object_model(&self, context: &mut Context, object: &ObjectRef, model: Mat4)
        requires
            old(context).valid_object(*object),
        ensures
            final(context).objects() == old(context).objects().update(
                object.id as int,
                old(context).objects()[object.id as int].with_model(model),
            ),
            final(context).meshes() == old(context).meshes(),
            final(context).materials() == old(context).materials(),
            final(context).cameras() == old(context).cameras(),
    {
        object.set_model(context, model);
    }

    /// Sets whether an object is hidden. A hidden object stays in the render
    /// list but produces no draw command.
    pub fn set_object_is_hidden(
        &self,
        context: &mut Context,
        object: &ObjectRef,
        is_hidden: bool,
    )
        requires
            old(context).valid_object(*object),
        ensures
            final(context).objects() == old(context).objects().update(
                object.id as int,
                old(context).objects()[object.id as int].with_hidden(is_hidden),
            ),
            final(context).meshes() == old(context).meshes(),
            final(context).materials() == old(context).materials(),
            final(context).cameras() == old(context).cameras(),
    {
        object.set_is_hidden(context, is_hidden);
    }
}

/// Extending the rendered prefix by one slot appends exactly that slot's
/// commands.
pub proof fn lemma_render_plan_step(
    entries: Seq<Option<ObjectRef>>,
    objects: Seq<ObjectRecord>,
    meshes: Seq<MeshRecord>,
    i: int,
)
    requires
        0 <= i < entries.len(),
    ensures
        render_plan(entries.take(i + 1), objects, meshes) == render_plan(
            entries.take(i),
            objects,
            meshes,
        ) + slot_commands(entries[i], objects, meshes),
{
    assert(entries.take(i + 1).drop_last() =~= entries.take(i));
    assert(entries.take(i + 1).last() == entries[i]);
}

/// Draw order follows registration order: the plan of a render list is the
/// plan of its first `i` slots followed by the plan of the rest.
pub proof fn lemma_render_plan_split(
    entries: Seq<Option<ObjectRef>>,
    objects: Seq<ObjectRecord>,
    meshes: Seq<MeshRecord>,
    i: int,
)
    requires
        0 <= i <= entries.len(),
    ensures
        render_plan(entries, objects, meshes) == render_plan(entries.take(i), objects, meshes)
            + render_plan(entries.skip(i), objects, meshes),
    decreases entries.len(),
{
    if i == entries.len() {
        assert(entries.take(i) =~= entries);
        assert(entries.skip(i) =~= Seq::<Option<ObjectRef>>::empty());
        assert(render_plan(entries, objects, meshes) =~= render_plan(entries.take(i), objects, meshes)
            + render_plan(entries.skip(i), objects, meshes));
    } else {
        lemma_render_plan_split(entries.drop_last(), objects, meshes, i);
        assert(entries.drop_last().take(i) =~= entries.take(i));
        assert(entries.skip(i).drop_last() =~= entries.drop_last().skip(i));
        assert(entries.skip(i).last() == entries.last());
        assert(render_plan(entries, objects, meshes) =~= render_plan(entries.take(i), objects, meshes)
            + render_plan(entries.skip(i), objects, meshes));
    }
}

/// Each slot's commands stand in the plan exactly between the plans of the
/// slots before and after it.
pub proof fn lemma_slot_in_plan(
    entries: Seq<Option<ObjectRef>>,
    objects: Seq<ObjectRecord>,
    meshes: Seq<MeshRecord>,
    i: int,
)
    requires
        0 <= i < entries.len(),
    ensures
        render_plan(entries, objects, meshes) == render_plan(entries.take(i), objects, meshes)
            + slot_commands(entries[i], objects, meshes) + render_plan(
            entries.skip(i + 1),
            objects,
            meshes,
        ),
{
    lemma_render_plan_split(entries, objects, meshes, i + 1);
    lemma_render_plan_step(entries, objects, meshes, i);
    assert(render_plan(entries, objects, meshes) =~= render_plan(entries.take(i), objects, meshes)
        + slot_commands(entries[i], objects, meshes) + render_plan(
        entries.skip(i + 1),
        objects,
        meshes,
    ));
}

/// An object that stands in no slot of the render list is never drawn: no
/// command of the plan names it.
pub proof fn lemma_object_not_in_plan(
    entries: Seq<Option<ObjectRef>>,
    objects: Seq<ObjectRecord>,
    meshes: Seq<MeshRecord>,
    object: ObjectRef,
)
    requires
        forall|i: int| 0 <= i < entries.len() ==> entries[i] != Some(object),
    ensures
        forall|k: int|
            0 <= k < render_plan(entries, objects, meshes).len() ==> (#[trigger] render_plan(
                entries,
                objects,
                meshes,
            )[k]).object != object,
    decreases entries.len(),
{
    if entries.len() > 0 {
        assert(forall|i: int|
            0 <= i < entries.drop_last().len() ==> entries.drop_last()[i] != Some(object));
        lemma_object_not_in_plan(entries.drop_last(), objects, meshes, object);
        let prefix = render_plan(entries.drop_last(), objects, meshes);
        let tail = slot_commands(entries.last(), objects, meshes);
        assert(entries.last() != Some(object));
        assert forall|k: int|
            0 <= k < render_plan(entries, objects, meshes).len() implies (render_plan(
            entries,
            objects,
            meshes,
        )[k]).object != object by {
            if k < prefix.len() {
                assert(render_plan(entries, objects, meshes)[k] == prefix[k]);
            } else {
                assert(render_plan(entries, objects, meshes)[k] == tail[k - prefix.len()]);
            }
        }
    }
}

/// A hidden object is skipped during rendering: no command of the plan
/// names it, whatever slots the render list holds.
pub proof fn lemma_hidden_object_not_drawn(
    entries: Seq<Option<ObjectRef>>,
    objects: Seq<ObjectRecord>,
    meshes: Seq<MeshRecord>,
    object: ObjectRef,
)
    requires
        (object.id as nat) < objects.len(),
        objects[object.id as int].is_hidden,
    ensures
        forall|k: int|
            0 <= k < render_plan(entries, objects, meshes).len() ==> (#[trigger] render_plan(
                entries,
                objects,
                meshes,
            )[k]).object != object,
    decreases entries.len(),
{
    if entries.len() > 0 {
        lemma_hidden_object_not_drawn(entries.drop_last(), objects, meshes, object);
        let prefix = render_plan(entries.drop_last(), objects, meshes);
        let tail = slot_commands(entries.last(), objects, meshes);
        assert forall|k: int|
            0 <= k < render_plan(entries, objects, meshes).len() implies (render_plan(
            entries,
            objects,
            meshes,
        )[k]).object != object by {
            if k < prefix.len() {
                assert(render_plan(entries, objects, meshes)[k] == prefix[k]);
            } else {
                assert(render_plan(entries, objects, meshes)[k] == tail[k - prefix.len()]);
            }
        }
    }
}

/// A removed object is never drawn: after clearing an object's slot in a
/// well-formed scene, no command of the plan names it.
pub proof fn lemma_removed_object_not_drawn(
    scene: Scene,
    objects: Seq<ObjectRecord>,
    meshes: Seq<MeshRecord>,
    object: ObjectRef,
)
    requires
        scene.wf(),
        scene.index_map().dom().contains(object.id),
    ensures
        forall|k: int|
            0 <= k < render_plan(
                scene.entries().update(scene.index_map()[object.id] as int, None),
                objects,
                meshes,
            ).len() ==> (#[trigger] render_plan(
                scene.entries().update(scene.index_map()[object.id] as int, None),
                objects,
                meshes,
            )[k]).object != object,
{
    let updated = scene.entries().update(scene.index_map()[object.id] as int, None);
    assert forall|i: int| 0 <= i < updated.len() implies updated[i] != Some(object) by {
        if updated[i] == Some(object) {
            assert(scene.entries()[i] == Some(object));
            assert((scene.index_map()[object.id] as int) == i);
        }
    }
    lemma_object_not_in_plan(updated, objects, meshes, object);
}

/// A visible object in a well-formed scene is drawn exactly once: its
/// command stands right after the commands of the slots before it, and no
/// other command of the plan names it.
pub proof fn lemma_visible_object_drawn_once(
    scene: Scene,
    objects: Seq<ObjectRecord>,
    meshes: Seq<MeshRecord>,
    object: ObjectRef,
)
    requires
        scene.wf(),
        scene.index_map().dom().contains(object.id),
        scene.entries()[scene.index_map()[object.id] as int] == Some(object),
        (object.id as nat) < objects.len(),
        !objects[object.id as int].is_hidden,
    ensures
        ({
            let slot = scene.index_map()[object.id] as int;
            let plan = render_plan(scene.entries(), objects, meshes);
            let position = render_plan(scene.entries().take(slot), objects, meshes).len() as int;
            &&& 0 <= position < plan.len()
            &&& plan[position] == command_for(
                object,
                objects[object.id as int],
                meshes[objects[object.id as int].mesh.id as int],
            )
            &&& forall|k: int|
                0 <= k < plan.len() && k != position ==> (#[trigger] plan[k]).object != object
        }),
{
    let slot = scene.index_map()[object.id] as int;
    let entries = scene.entries();
    let plan = render_plan(entries, objects, meshes);
    let prefix = render_plan(entries.take(slot), objects, meshes);
    let commands = slot_commands(entries[slot], objects, meshes);
    let suffix = render_plan(entries.skip(slot + 1), objects, meshes);
    lemma_slot_in_plan(entries, objects, meshes, slot);
    assert(commands == seq![
        command_for(object, objects[object.id as int], meshes[objects[object.id as int].mesh.id as int]),
    ]);
    assert(plan[prefix.len() as int] == commands[0]);

    // No other slot holds this object, so neither the prefix nor the suffix
    // of the plan names it.
    let before = entries.take(slot);
    let after = entries.skip(slot + 1);
    assert forall|j: int| 0 <= j < before.len() implies before[j] != Some(object) by {
        if before[j] == Some(object) {
            assert(entries[j] == Some(object));
            assert((scene.index_map()[object.id] as int) == j);
        }
    }
    lemma_object_not_in_plan(before, objects, meshes, object);
    assert forall|j: int| 0 <= j < after.len() implies after[j] != Some(object) by {
        if after[j] == Some(object) {
            assert(entries[j + slot + 1] == Some(object));
            assert((scene.index_map()[object.id] as int) == j + slot + 1);
        }
    }
    lemma_object_not_in_plan(after, objects, meshes, object);

    assert forall|k: int|
        0 <= k < plan.len() && k != prefix.len() as int implies (#[trigger] plan[k]).object
        != object by {
        if k < prefix.len() {
            assert(plan[k] == prefix[k]);
        } else {
            assert(plan[k] == suffix[k - prefix.len() - 1]);
        }
    }
}

/// Every command of a plan is sound: it names a registered, visible object
/// and restates exactly that object's record and its mesh's record.
pub proof fn lemma_plan_commands_sound(
    entries: Seq<Option<ObjectRef>>,
    objects: Seq<ObjectRecord>,
    meshes: Seq<MeshRecord>,
)
    requires
        forall|i: int|
            0 <= i < entries.len() && (#[trigger] entries[i]) is Some ==> (entries[i]->0.id as nat)
                < objects.len(),
    ensures
        forall|k: int|
            0 <= k < render_plan(entries, objects, meshes).len() ==> {
                let cmd = #[trigger] render_plan(entries, objects, meshes)[k];
                &&& (cmd.object.id as nat) < objects.len()
                &&& !objects[cmd.object.id as int].is_hidden
                &&& cmd == command_for(
                    cmd.object,
                    objects[cmd.object.id as int],
                    meshes[objects[cmd.object.id as int].mesh.id as int],
                )
            },
    decreases entries.len(),
{
    if entries.len() > 0 {
        assert(forall|i: int|
            0 <= i < entries.drop_last().len() && (#[trigger] entries.drop_last()[i]) is Some
                ==> (entries.drop_last()[i]->0.id as nat) < objects.len());
        lemma_plan_commands_sound(entries.drop_last(), objects, meshes);
        let prefix = render_plan(entries.drop_last(), objects, meshes);
        let tail = slot_commands(entries.last(), objects, meshes);
        assert(entries[entries.len() - 1] is Some ==> (entries[entries.len() - 1]->0.id as nat)
            < objects.len());
        assert forall|k: int|
            0 <= k < render_plan(entries, objects, meshes).len() implies {
            let cmd = #[trigger] render_plan(entries, objects, meshes)[k];
            &&& (cmd.object.id as nat) < objects.len()
            &&& !objects[cmd.object.id as int].is_hidden
            &&& cmd == command_for(
                cmd.object,
                objects[cmd.object.id as int],
                meshes[objects[cmd.object.id as int].mesh.id as int],
            )
        } by {
            if k < prefix.len() {
                assert(render_plan(entries, objects, meshes)[k] == prefix[k]);
            } else {
                assert(render_plan(entries, objects, meshes)[k] == tail[k - prefix.len()]);
            }
        }
    }
}

} // verus!
