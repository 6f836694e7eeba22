//! Timers, frame timing, diagnostics and the render-state trackers.

use ecs_core::average_delta;
use ecs_core::DebugInfo;
use ecs_core::DebugKey;
use ecs_core::EventChannel;
use ecs_core::GlCommand;
use ecs_core::LogBuffer;
use ecs_core::MeshFlags;
use ecs_core::TargetFPS;
use ecs_core::TextureFiltering;
use ecs_core::TextureWrapping;
use ecs_core::TimeContext;
use ecs_core::render::GL_BLEND;
use ecs_core::render::GL_CCW;
use ecs_core::render::GL_CLAMP_TO_EDGE;
use ecs_core::render::GL_CULL_FACE;
use ecs_core::render::GL_DST_ALPHA;
use ecs_core::render::GL_FRONT_AND_BACK;
use ecs_core::render::GL_FUNC_ADD;
use ecs_core::render::GL_LINEAR;
use ecs_core::render::GL_LINES;
use ecs_core::render::GL_NEAREST;
use ecs_core::render::GL_SRC_ALPHA;
use ecs_core::render::GL_TEXTURE0;
use ecs_core::render::GL_TRIANGLES;
use ecs_core::BlendState;
use ecs_core::BufferState;
use ecs_core::CullFaceState;
use ecs_core::FrontFaceState;
use ecs_core::VertexArrayState;
use ecs_core::ViewportState;
use ecs_core::texture_binding;

const MS: u64 = 1_000_000;
const EV_REFRESH: u64 = 42;
const EV_ONCE: u64 = 43;

#[test]
fn repeating_timer_fires_once_and_catches_up_from_its_deadline() {
    // Scheduled with a 1000 ms interval at t = 0, checked once at
    // t = 1200 ms: it fires exactly once and its next deadline is 2000 ms,
    // one interval past the old deadline, not 1200 + 1000 = 2200 ms. The
    // schedule therefore never drifts under a slow loop; instead a check
    // that arrives late keeps firing one interval per check until it has
    // caught up.
    let mut channel = EventChannel::new();
    channel.schedule(EV_REFRESH, 0, 1000 * MS, true);

    let fired = channel.update_timers(1200 * MS);
    assert_eq!(fired, vec![EV_REFRESH]);
    assert_eq!(channel.timer_count(), 1);
    assert_eq!(channel.timer_at(0).deadline, 2000 * MS);
    assert_eq!(channel.timer_at(0).interval, 1000 * MS);
    assert!(channel.timer_at(0).repeat);
}

#[test]
fn timer_not_due_does_not_fire() {
    let mut channel = EventChannel::new();
    channel.schedule(EV_REFRESH, 0, 1000 * MS, true);
    let fired = channel.update_timers(500 * MS);
    assert!(fired.is_empty());
    assert_eq!(channel.timer_at(0).deadline, 1000 * MS);
    // a deadline fires only once strictly passed
    let fired_at_deadline = channel.update_timers(1000 * MS);
    assert!(fired_at_deadline.is_empty());
}

#[test]
fn one_shot_timer_is_removed_after_firing() {
    let mut channel = EventChannel::new();
    channel.issue(EV_ONCE, 10);
    assert_eq!(channel.timer_count(), 1);
    let fired = channel.update_timers(11);
    assert_eq!(fired, vec![EV_ONCE]);
    assert_eq!(channel.timer_count(), 0);
    assert!(channel.update_timers(1000).is_empty());
}

#[test]
fn timers_fire_in_schedule_order() {
    let mut channel = EventChannel::new();
    channel.schedule(1, 0, 10, false);
    channel.schedule(2, 0, 20, true);
    channel.schedule(3, 0, 30, false);
    let fired = channel.update_timers(25);
    assert_eq!(fired, vec![1, 2]);
    // the due one-shot left; the repeat re-armed; the not-due one kept
    assert_eq!(channel.timer_count(), 2);
    assert_eq!(channel.timer_at(0).event, 2);
    assert_eq!(channel.timer_at(0).deadline, 40);
    assert_eq!(channel.timer_at(1).event, 3);
}

#[test]
fn time_context_records_deltas() {
    let mut tc = TimeContext::new(0);
    assert_eq!(tc.delta(), 16 * MS);

    tc.tick(5 * MS);
    assert_eq!(tc.delta(), 5 * MS);

    tc.tick(12 * MS);
    assert_eq!(tc.delta(), 7 * MS);
}

#[test]
fn average_delta_is_the_mean_of_the_window() {
    let mut tc = TimeContext::new(0);
    // fresh: the window holds only the initial fill value
    assert_eq!(average_delta(&tc), 16 * MS);

    tc.tick(4 * MS);
    // window now holds the initial 16 ms and the recorded 4 ms
    assert_eq!(average_delta(&tc), 10 * MS);

    tc.tick(10 * MS);
    // 16 ms, 4 ms, 6 ms
    assert_eq!(average_delta(&tc), (16 * MS + 4 * MS + 6 * MS) / 3);
}

#[test]
fn log_buffer_wraps_around() {
    let mut buf: LogBuffer<u64> = LogBuffer::new(2, 0);
    assert_eq!(buf.latest(), 0);
    assert_eq!(buf.window_len(), 1);

    buf.push(10);
    assert_eq!(buf.latest(), 10);
    assert_eq!(buf.window_len(), 2);

    buf.push(20);
    assert_eq!(buf.latest(), 20);
    // wrapped: the next write lands on slot zero again
    buf.push(30);
    assert_eq!(buf.latest(), 30);
    assert_eq!(buf.window_len(), 2);
    // ring layout: slot zero was overwritten last, slot one before it
    assert_eq!(buf.window_at(0), 20);
    assert_eq!(buf.window_at(1), 30);
    assert_eq!(buf.contents(), vec![20, 30]);
}

#[test]
fn debug_info_slots_are_independent_and_overwrite() {
    let mut info = DebugInfo::new();
    assert!(info.get(DebugKey::CurrentFPS).is_none());
    info.set(DebugKey::CurrentFPS, "60".to_string());
    info.set(DebugKey::CameraPosition, "1,2,3".to_string());
    assert_eq!(info.get(DebugKey::CurrentFPS), Some(&"60".to_string()));
    assert_eq!(info.get(DebugKey::CameraPosition), Some(&"1,2,3".to_string()));
    assert!(info.get(DebugKey::CurrentBlock).is_none());
    info.set(DebugKey::CurrentFPS, "59".to_string());
    assert_eq!(info.get(DebugKey::CurrentFPS), Some(&"59".to_string()));
    assert_eq!(info.get(DebugKey::CameraPosition), Some(&"1,2,3".to_string()));
}

#[test]
fn frame_budget_follows_the_policy() {
    assert_eq!(TargetFPS::Max.frame_budget_nanos(60), 0);
    assert_eq!(TargetFPS::Absolute(60).frame_budget_nanos(144), 16_666_666);
    assert_eq!(TargetFPS::Absolute(0).frame_budget_nanos(144), 0);
    assert_eq!(TargetFPS::RefreshRate.frame_budget_nanos(144), 6_944_444);
}

#[test]
fn mesh_flags_build_fluently() {
    let flags = MeshFlags::new();
    assert!(flags.depth_write);
    assert_eq!(flags.mode, GL_TRIANGLES);
    assert_eq!(flags, MeshFlags::default());

    let lines = MeshFlags::new().no_depth().lines_mode();
    assert!(!lines.depth_write);
    assert_eq!(lines.mode, GL_LINES);
    assert_eq!(lines.opt(), Some(lines));

    let back = lines.triangles_mode();
    assert_eq!(back.mode, GL_TRIANGLES);
    assert!(!back.depth_write);
}

#[test]
fn blend_state_emits_its_commands() {
    let (mut blend, init_cmds) = BlendState::build_initialized();
    assert_eq!(
        init_cmds,
        vec![
            GlCommand::Disable(GL_BLEND),
            GlCommand::BlendEquation(GL_FUNC_ADD),
            GlCommand::BlendFunc(GL_SRC_ALPHA, GL_DST_ALPHA),
        ]
    );
    assert!(!blend.enabled);

    let on = blend.set_enabled(true);
    assert_eq!(on, vec![GlCommand::Enable(GL_BLEND)]);
    assert!(blend.enabled);

    let conf = blend.configure(GL_FUNC_ADD, GL_SRC_ALPHA, GL_SRC_ALPHA);
    assert_eq!(
        conf,
        vec![
            GlCommand::BlendEquation(GL_FUNC_ADD),
            GlCommand::BlendFunc(GL_SRC_ALPHA, GL_SRC_ALPHA),
        ]
    );
    assert_eq!(blend.blend_func_destination, GL_SRC_ALPHA);
}

#[test]
fn cull_state_tracks_and_replays() {
    let (mut cull, init_cmds) = CullFaceState::build_initialized();
    assert_eq!(
        init_cmds,
        vec![
            GlCommand::CullFace(GL_FRONT_AND_BACK),
            GlCommand::Enable(GL_CULL_FACE),
        ]
    );
    let off = cull.set_enabled(false);
    assert_eq!(off, vec![GlCommand::Disable(GL_CULL_FACE)]);
    let replay = cull.upload();
    assert_eq!(
        replay,
        vec![
            GlCommand::CullFace(GL_FRONT_AND_BACK),
            GlCommand::Disable(GL_CULL_FACE),
        ]
    );
}

#[test]
fn front_face_viewport_and_vertex_array_track() {
    let (mut front, cmds) = FrontFaceState::build_initialized();
    assert_eq!(cmds, vec![GlCommand::FrontFace(GL_CCW)]);
    let set = front.set(0x0900);
    assert_eq!(set, vec![GlCommand::FrontFace(0x0900)]);
    assert_eq!(front.0, 0x0900);

    let (mut vp, init) = ViewportState::build_initialized();
    assert_eq!(init, vec![GlCommand::Viewport(0, 0, 1, 1)]);
    let moved = vp.set(10, 20, 300, 400);
    assert_eq!(moved, vec![GlCommand::Viewport(10, 20, 300, 400)]);
    let resized = vp.resize(800, 600);
    assert_eq!(resized, vec![GlCommand::Viewport(10, 20, 800, 600)]);

    let mut vao_state = VertexArrayState::build_initialized();
    assert!(vao_state.current_bound_buffer.is_none());
    let vao = vao_state.create(7);
    let bound = vao_state.bind(&vao);
    assert_eq!(bound, vec![GlCommand::BindVertexArray(7)]);
    assert_eq!(vao_state.current_bound_buffer, Some(vao));
}

#[test]
fn buffer_state_routes_uploads_to_the_bound_target() {
    const ARRAY_BUFFER: u32 = 0x8892;
    const STATIC_DRAW: u32 = 0x88E4;
    let mut bufs = BufferState::build_initialized();
    // an upload with nothing bound issues nothing
    assert!(bufs.set_data().is_empty());

    let b = bufs.create_buffer(ARRAY_BUFFER, STATIC_DRAW, 5);
    assert_eq!(bufs.bind_buffer(&b), vec![GlCommand::BindBuffer(ARRAY_BUFFER, 5)]);
    assert_eq!(
        bufs.bind_buffer_base(2, &b),
        vec![GlCommand::BindBufferBase(ARRAY_BUFFER, 2, 5)]
    );
    assert_eq!(
        bufs.set_data(),
        vec![GlCommand::BufferData(ARRAY_BUFFER, STATIC_DRAW)]
    );
}

#[test]
fn texture_values_follow_the_api() {
    assert_eq!(texture_binding(GL_TEXTURE0 + 3), 3);
    assert_eq!(TextureWrapping::ClampToEdge.gl_value(), GL_CLAMP_TO_EDGE);
    assert_eq!(TextureFiltering::Smooth.gl_value(), GL_LINEAR);
    assert_eq!(TextureFiltering::Pixelated.gl_value(), GL_NEAREST);
}
