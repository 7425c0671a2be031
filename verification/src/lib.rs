//! A thin, verified core for a scene-graph rendering layer.
//!
//! The crate keeps the bookkeeping of a renderer — which meshes, materials,
//! cameras and objects exist, which objects a scene draws and in what order —
//! as plain, verified data. Everything that talks to a GPU or a window system
//! lives outside this crate and consumes the draw plans produced here.

mod context;
mod format;
mod scene;
mod transform;

pub use context::CameraRef;
pub use context::Context;
pub use context::MaterialRef;
pub use context::MeshRecord;
pub use context::MeshRef;
pub use context::ObjectRecord;
pub use context::ObjectRef;
pub use format::DepthStencilTextureFormat;
pub use format::TextureFormat;
pub use scene::command_for;
pub use scene::lemma_hidden_object_not_drawn;
pub use scene::lemma_object_not_in_plan;
pub use scene::lemma_plan_commands_sound;
pub use scene::lemma_removed_object_not_drawn;
pub use scene::lemma_render_plan_split;
pub use scene::lemma_render_plan_step;
pub use scene::lemma_slot_in_plan;
pub use scene::lemma_visible_object_drawn_once;
pub use scene::render_plan;
pub use scene::slot_commands;
pub use scene::DrawCommand;
pub use scene::Scene;
pub use transform::Mat4;
pub use transform::SCALAR_ONE_BITS;
