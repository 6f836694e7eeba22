//! The dispatch protocol, structural queries, entity storage, the arena and
//! the resource registry, exercised end to end with a small test world.

use ecs_core::EntityShapeBuilder;
use ecs_core::Entity;
use ecs_core::Handle;
use ecs_core::EntityArena;
use ecs_core::ResourceRegistry;
use ecs_core::RunSystemPhase;
use ecs_core::Service;
use ecs_core::ServiceLogic;
use ecs_core::System;
use ecs_core::SystemLogic;
use ecs_core::UnitRun;
use ecs_core::ECS;

const POSITION: u64 = 1;
const VELOCITY: u64 = 2;
const HEALTH: u64 = 3;

const LOG: u64 = 10;
const COUNTER: u64 = 11;

const KEY_PHYSICS: u64 = 100;
const KEY_AUDIO: u64 = 101;

#[derive(Clone, Copy, PartialEq, Eq, Debug)]
enum Comp {
    Position(i64, i64),
    Velocity(i64, i64),
    Health(i64),
}

#[derive(Clone, PartialEq, Eq, Debug)]
enum Res {
    Log(Vec<String>),
    Counter(u64),
}

enum TestSystem {
    MoveBy(i64, i64),
    Tag(&'static str),
    DropVelocity,
}

enum TestService {
    Note(&'static str),
    Bump,
}

impl SystemLogic<Comp, Res, u64> for TestSystem {
    fn run(
        &self,
        entity: &mut Entity<Comp>,
        resources: &mut ResourceRegistry<Res>,
        _phase: &RunSystemPhase<u64>,
    ) {
        match self {
            TestSystem::MoveBy(dx, dy) => {
                let (vx, vy) = match entity.get(VELOCITY) {
                    Some(Comp::Velocity(vx, vy)) => (*vx, *vy),
                    _ => (0, 0),
                };
                if let Some(Comp::Position(x, y)) = entity.get(POSITION) {
                    let nx = *x + vx + dx;
                    let ny = *y + vy + dy;
                    entity.set(POSITION, Comp::Position(nx, ny));
                }
            }
            TestSystem::Tag(name) => {
                if let Some(Res::Log(log)) = resources.get_mut(LOG) {
                    log.push(format!("sys:{}", name));
                }
            }
            TestSystem::DropVelocity => {
                entity.remove(VELOCITY);
            }
        }
    }
}

impl ServiceLogic<Res, u64> for TestService {
    fn run(&self, resources: &mut ResourceRegistry<Res>, _phase: &RunSystemPhase<u64>) {
        match self {
            TestService::Note(name) => {
                if let Some(Res::Log(log)) = resources.get_mut(LOG) {
                    log.push(format!("svc:{}", name));
                }
            }
            TestService::Bump => {
                if let Some(Res::Counter(c)) = resources.get_mut(COUNTER) {
                    *c += 1;
                }
            }
        }
    }
}

type World = ECS<Comp, Res, TestSystem, TestService>;

fn log_of(world: &World) -> Vec<String> {
    match world.resources.get(LOG) {
        Some(Res::Log(log)) => log.clone(),
        _ => panic!("log resource must be configured"),
    }
}

#[test]
fn entity_component_roundtrip() {
    let mut e: Entity<Comp> = Entity::new()
        .with(POSITION, Comp::Position(1, 2))
        .with(VELOCITY, Comp::Velocity(3, 4));
    assert_eq!(e.get(POSITION), Some(&Comp::Position(1, 2)));
    assert!(e.has(VELOCITY));
    assert!(!e.has(HEALTH));
    e.remove(VELOCITY);
    assert_eq!(e.get(VELOCITY), None);
    assert!(!e.has(VELOCITY));
}

#[test]
fn set_updates_shape_like_with() {
    // `set` records the kind in the shape, so shape-based matching and
    // direct lookup can never disagree.
    let mut e: Entity<Comp> = Entity::new();
    e.set(HEALTH, Comp::Health(10));
    assert!(e.has(HEALTH));
    let query = EntityShapeBuilder::new().with(HEALTH).build();
    let mut world: World = World::new();
    world.add_entity(e);
    let found = world.query_exact(&query);
    assert_eq!(found.len(), 1);
}

#[test]
fn get_mut_edits_in_place() {
    let mut e: Entity<Comp> = Entity::new().with(HEALTH, Comp::Health(5));
    if let Some(Comp::Health(hp)) = e.get_mut(HEALTH) {
        *hp = 7;
    }
    assert_eq!(e.get(HEALTH), Some(&Comp::Health(7)));
    assert_eq!(e.get_mut(POSITION), None);
}

#[test]
fn shape_builder_deduplicates() {
    let shape = EntityShapeBuilder::new()
        .with(POSITION)
        .with(POSITION)
        .with(VELOCITY)
        .build();
    assert_eq!(shape.len(), 2);
    assert!(shape.contains(POSITION));
    assert!(shape.contains(VELOCITY));
    assert!(!shape.contains(HEALTH));
}

#[test]
fn subset_match_ignores_extra_components() {
    // An entity with {Position, Velocity} matches the query {Position} and
    // not the query {Position, Health}.
    let mut world: World = World::new();
    world.add_entity(
        Entity::new()
            .with(POSITION, Comp::Position(0, 0))
            .with(VELOCITY, Comp::Velocity(1, 1)),
    );
    let just_position = EntityShapeBuilder::new().with(POSITION).build();
    let position_health = EntityShapeBuilder::new().with(POSITION).with(HEALTH).build();
    assert_eq!(world.query_exact(&just_position).len(), 1);
    assert_eq!(world.query_exact(&position_health).len(), 0);
}

#[test]
fn query_exact_returns_valid_handles_in_slot_order() {
    let mut world: World = World::new();
    world.add_entity(Entity::new().with(POSITION, Comp::Position(0, 0)));
    world.add_entity(Entity::new().with(HEALTH, Comp::Health(1)));
    world.add_entity(
        Entity::new()
            .with(POSITION, Comp::Position(5, 5))
            .with(HEALTH, Comp::Health(2)),
    );
    let query = EntityShapeBuilder::new().with(POSITION).build();
    let found = world.query_exact(&query);
    assert_eq!(
        found,
        vec![
            Handle { index: 0, generation: 0 },
            Handle { index: 2, generation: 0 },
        ]
    );
    let e = world.entities.get(found[1]).unwrap();
    assert_eq!(e.get(HEALTH), Some(&Comp::Health(2)));
}

#[test]
fn arena_handles_go_stale_on_removal() {
    let mut arena: EntityArena<Comp> = EntityArena::new();
    let h0 = arena.insert(Entity::new().with(HEALTH, Comp::Health(1)));
    assert_eq!(h0, Handle { index: 0, generation: 0 });
    assert!(arena.get(h0).is_some());

    let removed = arena.remove(h0).unwrap();
    assert_eq!(removed.get(HEALTH), Some(&Comp::Health(1)));
    assert!(arena.get(h0).is_none());
    assert!(arena.remove(h0).is_none());

    // the freed slot is reused under the bumped generation, so the old
    // handle stays invalid
    let h1 = arena.insert(Entity::new().with(HEALTH, Comp::Health(2)));
    assert_eq!(h1, Handle { index: 0, generation: 1 });
    assert!(arena.get(h0).is_none());
    assert_eq!(arena.get(h1).unwrap().get(HEALTH), Some(&Comp::Health(2)));
}

#[test]
fn arena_get_mut_respects_generations() {
    let mut arena: EntityArena<Comp> = EntityArena::new();
    let h = arena.insert(Entity::new().with(HEALTH, Comp::Health(3)));
    if let Some(e) = arena.get_mut(h) {
        e.set(HEALTH, Comp::Health(4));
    }
    assert_eq!(arena.get(h).unwrap().get(HEALTH), Some(&Comp::Health(4)));
    let stale = Handle { index: h.index, generation: h.generation + 1 };
    assert!(arena.get_mut(stale).is_none());
}

#[test]
fn registry_set_get_overwrite() {
    let mut reg: ResourceRegistry<Res> = ResourceRegistry::new();
    assert!(reg.get(COUNTER).is_none());
    reg.set(COUNTER, Res::Counter(1));
    assert_eq!(reg.get(COUNTER), Some(&Res::Counter(1)));
    reg.set(COUNTER, Res::Counter(2));
    assert_eq!(reg.get(COUNTER), Some(&Res::Counter(2)));
    if let Some(Res::Counter(c)) = reg.get_mut(COUNTER) {
        *c = 9;
    }
    assert_eq!(reg.get(COUNTER), Some(&Res::Counter(9)));
}

#[test]
fn tagged_slots_are_independent() {
    // Two singletons of the same kind under different tags are retrievable
    // independently, and neither touches the untagged slot.
    const TAG_A: u64 = 1;
    const TAG_B: u64 = 2;
    let mut reg: ResourceRegistry<Res> = ResourceRegistry::new();
    reg.tagged_set(TAG_A, COUNTER, Res::Counter(10));
    reg.tagged_set(TAG_B, COUNTER, Res::Counter(20));
    assert_eq!(reg.tagged_get(TAG_A, COUNTER), Some(&Res::Counter(10)));
    assert_eq!(reg.tagged_get(TAG_B, COUNTER), Some(&Res::Counter(20)));
    assert!(reg.get(COUNTER).is_none());
    if let Some(Res::Counter(c)) = reg.tagged_get_mut(TAG_A, COUNTER) {
        *c = 11;
    }
    assert_eq!(reg.tagged_get(TAG_A, COUNTER), Some(&Res::Counter(11)));
    assert_eq!(reg.tagged_get(TAG_B, COUNTER), Some(&Res::Counter(20)));
}

#[test]
fn registration_order_is_execution_order() {
    // Two tick systems on the same shape: the one registered first acts
    // first, on every entity.
    let mut world: World = World::new();
    world.resources.set(LOG, Res::Log(Vec::new()));
    let q = |k: u64| EntityShapeBuilder::new().with(k).build();
    world.add_system(System::at_tick(q(POSITION), TestSystem::Tag("a")));
    world.add_system(System::at_tick(q(POSITION), TestSystem::Tag("b")));
    world.add_entity(Entity::new().with(POSITION, Comp::Position(0, 0)));
    let trace = world.run_systems(RunSystemPhase::Tick);
    assert_eq!(
        trace,
        vec![
            UnitRun::SystemOnEntity { system_index: 0, entity_index: 0 },
            UnitRun::SystemOnEntity { system_index: 1, entity_index: 0 },
        ]
    );
    assert_eq!(log_of(&world), vec!["sys:a".to_string(), "sys:b".to_string()]);
}

#[test]
fn update_key_gates_all_buckets() {
    // A dispatch of one update key never invokes a unit registered with a
    // different key.
    let mut world: World = World::new();
    world.resources.set(LOG, Res::Log(Vec::new()));
    let q = |k: u64| EntityShapeBuilder::new().with(k).build();
    world.add_before_service(Service::at_update(KEY_PHYSICS, TestService::Note("phys-pre")));
    world.add_before_service(Service::at_update(KEY_AUDIO, TestService::Note("audio-pre")));
    world.add_system(System::at_update(KEY_PHYSICS, q(POSITION), TestSystem::Tag("phys")));
    world.add_system(System::at_update(KEY_AUDIO, q(POSITION), TestSystem::Tag("audio")));
    world.add_after_service(Service::at_update(KEY_PHYSICS, TestService::Note("phys-post")));
    world.add_entity(Entity::new().with(POSITION, Comp::Position(0, 0)));

    let trace = world.run_systems(RunSystemPhase::Update(KEY_PHYSICS));
    assert_eq!(
        trace,
        vec![
            UnitRun::BeforeService { index: 0 },
            UnitRun::SystemOnEntity { system_index: 0, entity_index: 0 },
            UnitRun::AfterService { index: 0 },
        ]
    );
    assert_eq!(
        log_of(&world),
        vec![
            "svc:phys-pre".to_string(),
            "sys:phys".to_string(),
            "svc:phys-post".to_string(),
        ]
    );
}

#[test]
fn tick_sweep_counts_services_once_and_systems_per_entity() {
    // One before-tick service and one tick system over three matching
    // entities: the service fires exactly once, then the system fires
    // exactly three times.
    let mut world: World = World::new();
    world.resources.set(LOG, Res::Log(Vec::new()));
    let q = EntityShapeBuilder::new().with(POSITION).build();
    world.add_before_service(Service::at_tick(TestService::Note("s")));
    world.add_system(System::at_tick(q, TestSystem::Tag("t")));
    for i in 0..3 {
        world.add_entity(Entity::new().with(POSITION, Comp::Position(i, i)));
    }
    let trace = world.run_systems(RunSystemPhase::Tick);
    assert_eq!(
        trace,
        vec![
            UnitRun::BeforeService { index: 0 },
            UnitRun::SystemOnEntity { system_index: 0, entity_index: 0 },
            UnitRun::SystemOnEntity { system_index: 0, entity_index: 1 },
            UnitRun::SystemOnEntity { system_index: 0, entity_index: 2 },
        ]
    );
    assert_eq!(
        log_of(&world),
        vec![
            "svc:s".to_string(),
            "sys:t".to_string(),
            "sys:t".to_string(),
            "sys:t".to_string(),
        ]
    );
}

#[test]
fn entity_inserted_between_dispatches_joins_the_next() {
    let mut world: World = World::new();
    let q = EntityShapeBuilder::new().with(POSITION).build();
    world.add_system(System::at_tick(q, TestSystem::MoveBy(1, 0)));
    world.add_entity(Entity::new().with(POSITION, Comp::Position(0, 0)));

    let first = world.run_systems(RunSystemPhase::Tick);
    assert_eq!(first.len(), 1);

    world.add_entity(Entity::new().with(POSITION, Comp::Position(100, 0)));
    let second = world.run_systems(RunSystemPhase::Tick);
    assert_eq!(
        second,
        vec![
            UnitRun::SystemOnEntity { system_index: 0, entity_index: 0 },
            UnitRun::SystemOnEntity { system_index: 0, entity_index: 1 },
        ]
    );
}

#[test]
fn callbacks_mutate_entities_in_place() {
    let mut world: World = World::new();
    let q = EntityShapeBuilder::new().with(POSITION).build();
    world.add_system(System::at_tick(q.clone(), TestSystem::MoveBy(0, 0)));
    world.add_entity(
        Entity::new()
            .with(POSITION, Comp::Position(1, 1))
            .with(VELOCITY, Comp::Velocity(2, 3)),
    );
    world.run_systems(RunSystemPhase::Tick);
    let found = world.query_exact(&q);
    let e = world.entities.get(found[0]).unwrap();
    assert_eq!(e.get(POSITION), Some(&Comp::Position(3, 4)));
}

#[test]
fn shape_match_is_decided_when_the_entity_sweep_begins() {
    // A system that removes the component a later system queries still lets
    // that later system fire in the same sweep: matching is settled against
    // the entity's shape at the start of its sweep.
    let mut world: World = World::new();
    world.resources.set(LOG, Res::Log(Vec::new()));
    let with_vel = EntityShapeBuilder::new().with(VELOCITY).build();
    world.add_system(System::at_tick(
        EntityShapeBuilder::new().with(POSITION).build(),
        TestSystem::DropVelocity,
    ));
    world.add_system(System::at_tick(with_vel.clone(), TestSystem::Tag("saw-velocity")));
    world.add_entity(
        Entity::new()
            .with(POSITION, Comp::Position(0, 0))
            .with(VELOCITY, Comp::Velocity(1, 1)),
    );
    let trace = world.run_systems(RunSystemPhase::Tick);
    assert_eq!(trace.len(), 2);
    assert_eq!(log_of(&world), vec!["sys:saw-velocity".to_string()]);
    // but the removal is real: the next dispatch no longer matches
    let trace2 = world.run_systems(RunSystemPhase::Tick);
    assert_eq!(
        trace2,
        vec![UnitRun::SystemOnEntity { system_index: 0, entity_index: 0 }]
    );
}

#[test]
fn phases_are_separate_buckets() {
    let mut world: World = World::new();
    world.resources.set(LOG, Res::Log(Vec::new()));
    let q = |k: u64| EntityShapeBuilder::new().with(k).build();
    world.add_system(System::at_tick(q(POSITION), TestSystem::Tag("tick")));
    world.add_system(System::at_render(q(POSITION), TestSystem::Tag("render")));
    world.add_system(System::at_event(q(POSITION), TestSystem::Tag("event")));
    world.add_entity(Entity::new().with(POSITION, Comp::Position(0, 0)));

    world.run_systems(RunSystemPhase::Render);
    assert_eq!(log_of(&world), vec!["sys:render".to_string()]);
    world.run_systems(RunSystemPhase::Event(7));
    assert_eq!(
        log_of(&world),
        vec!["sys:render".to_string(), "sys:event".to_string()]
    );
}

#[test]
fn services_run_even_with_no_entities() {
    let mut world: World = World::new();
    world.resources.set(COUNTER, Res::Counter(0));
    world.add_before_service(Service::at_render(TestService::Bump));
    world.add_after_service(Service::at_render(TestService::Bump));
    let trace = world.run_systems(RunSystemPhase::Render);
    assert_eq!(
        trace,
        vec![
            UnitRun::BeforeService { index: 0 },
            UnitRun::AfterService { index: 0 },
        ]
    );
    assert_eq!(world.resources.get(COUNTER), Some(&Res::Counter(2)));
}

#[test]
fn empty_world_dispatch_is_empty() {
    let mut world: World = World::new();
    assert!(world.run_systems(RunSystemPhase::Tick).is_empty());
    assert!(world.run_systems(RunSystemPhase::Update(KEY_PHYSICS)).is_empty());
}

#[test]
fn foreign_update_key_runs_nothing() {
    let mut world: World = World::new();
    world.resources.set(LOG, Res::Log(Vec::new()));
    let q = EntityShapeBuilder::new().with(POSITION).build();
    world.add_system(System::at_update(KEY_PHYSICS, q, TestSystem::Tag("phys")));
    world.add_before_service(Service::at_update(KEY_PHYSICS, TestService::Note("pre")));
    world.add_entity(Entity::new().with(POSITION, Comp::Position(0, 0)));
    let trace = world.run_systems(RunSystemPhase::Update(KEY_AUDIO));
    assert!(trace.is_empty());
    assert!(log_of(&world).is_empty());
}

#[test]
fn empty_query_matches_every_live_entity() {
    let mut world: World = World::new();
    world.add_entity(Entity::new().with(POSITION, Comp::Position(0, 0)));
    world.add_entity(Entity::new());
    let everything = EntityShapeBuilder::new().build();
    assert_eq!(world.query_exact(&everything).len(), 2);
}
