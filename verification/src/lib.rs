//! An entity-component-system core: a generational entity store, token-keyed
//! per-entity component storage, a typed resource registry, and a phase-gated
//! system/service scheduler.
//!
//! Component kinds, update channels, timer events and resource tags are all
//! identified by plain `u64` tokens chosen by the application, so that every
//! rule of the core — shape subset matching, update-key gating, dispatch
//! order — is stated and proved over plain values.

pub mod arena;
pub mod debug_info;
pub mod ecs;
pub mod entity;
pub mod events;
pub mod laws;
pub mod render;
pub mod resource_registry;
pub mod shape;
pub mod system;
pub mod time;
pub mod window;

pub use crate::arena::EntityArena;
pub use crate::arena::Handle;
pub use crate::debug_info::DebugInfo;
pub use crate::debug_info::DebugKey;
pub use crate::debug_info::FPSUpdateEvent;
pub use crate::debug_info::IsDebugUITag;
pub use crate::ecs::ECS;
pub use crate::ecs::UnitRun;
pub use crate::entity::Entity;
pub use crate::events::EventChannel;
pub use crate::events::Timer;
pub use crate::render::BlendState;
pub use crate::render::BufferState;
pub use crate::render::CullFaceState;
pub use crate::render::FrontFaceState;
pub use crate::render::GLBuffer;
pub use crate::render::GLBufferBinding;
pub use crate::render::GLVertexArray;
pub use crate::render::GlCommand;
pub use crate::render::MeshFlags;
pub use crate::render::TextureFiltering;
pub use crate::render::TextureWrapping;
pub use crate::render::VertexArrayState;
pub use crate::render::ViewportState;
pub use crate::render::texture_binding;
pub use crate::resource_registry::ResourceRegistry;
pub use crate::shape::EntityShape;
pub use crate::shape::EntityShapeBuilder;
pub use crate::system::RunSystemPhase;
pub use crate::system::Service;
pub use crate::system::ServiceLogic;
pub use crate::system::ServicePhase;
pub use crate::system::System;
pub use crate::system::SystemLogic;
pub use crate::system::SystemPhase;
pub use crate::system::SystemRunner;
pub use crate::time::LogBuffer;
pub use crate::time::TimeContext;
pub use crate::time::average_delta;
pub use crate::window::TargetFPS;
pub use crate::window::ViewportSizedUITag;
