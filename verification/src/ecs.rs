//! The facade composing arena, registry and scheduler, and the dispatch
//! protocol itself.
//!
//! `run_systems` returns the dispatch trace: one record per unit invocation,
//! in invocation order. The contract pins the trace down as a function of
//! the registration table and of the entities' shapes when the dispatch
//! began, so which unit fired, on which entity, and in which order is fully
//! specified; what the callbacks did to entities and resources is theirs.
//!
//! A system's shape match is evaluated against the entity's shape at the
//! start of that entity's sweep: the matching systems for one entity are
//! decided together, then invoked in registration order, so a callback that
//! changes its own entity's shape does not re-gate the same sweep.

use crate::arena::EntityArena;
use crate::arena::Handle;
use crate::entity::Entity;
use crate::resource_registry::ResourceRegistry;
use crate::shape::EntityShape;
use crate::system::RunSystemPhase;
use crate::system::Service;
use crate::system::ServiceLogic;
use crate::system::ServicePhase;
use crate::system::System;
use crate::system::SystemLogic;
use crate::system::SystemPhase;
use crate::system::SystemRunner;
use vstd::prelude::*;

verus! {

/// One invocation performed by a dispatch, in invocation order.
#[derive(Clone, Copy, PartialEq, Eq, Structural, Debug)]
pub enum UnitRun {
    /// The before-service at this position of its bucket ran.
    BeforeService {
        /// Position in the phase's Before bucket.
        index: usize,
    },
    /// The system at this position of its bucket ran on the entity in this
    /// arena slot.
    SystemOnEntity {
        /// Position in the phase's system bucket.
        system_index: usize,
        /// Arena slot of the entity it ran on.
        entity_index: usize,
    },
    /// The after-service at this position of its bucket ran.
    AfterService {
        /// Position in the phase's After bucket.
        index: usize,
    },
}

/// The bucket position a record refers to.
pub open spec fn record_index(r: UnitRun) -> int {
    match r {
        UnitRun::BeforeService { index } => index as int,
        UnitRun::SystemOnEntity { system_index, entity_index } => system_index as int,
        UnitRun::AfterService { index } => index as int,
    }
}

/// The arena slot a system record refers to (meaningful for
/// `SystemOnEntity` records only).
pub open spec fn record_entity(r: UnitRun) -> int {
    match r {
        UnitRun::BeforeService { index } => -1,
        UnitRun::SystemOnEntity { system_index, entity_index } => entity_index as int,
        UnitRun::AfterService { index } => -1,
    }
}

/// Whether a service fires under the dispatched key: every service of the
/// bucket fires in an unkeyed phase, and exactly those registered with the
/// dispatched key fire in an Update dispatch.
pub open spec fn service_fires<V>(svc: Service<V>, key: Option<u64>) -> bool {
    match key {
        Some(k) => svc.update_key == Some(k),
        None => true,
    }
}

/// Whether a system fires on an entity of the given shape under the
/// dispatched key: the key must match as for services, and every kind the
/// system's query requires must be present in the shape.
pub open spec fn system_fires<S>(sys: System<S>, key: Option<u64>, shape: Set<u64>) -> bool {
    &&& match key {
        Some(k) => sys.update_key == Some(k),
        None => true,
    }
    &&& sys.query.kind_set().subset_of(shape)
}

/// The record of the service at position `i` of the `slot` bucket.
pub open spec fn service_record(slot: ServicePhase, i: int) -> UnitRun {
    match slot {
        ServicePhase::Before => UnitRun::BeforeService { index: i as usize },
        ServicePhase::After => UnitRun::AfterService { index: i as usize },
    }
}

/// The records of the services from position `i` on that fire under `key`,
/// in registration order.
pub open spec fn service_trace<V>(
    bucket: Seq<Service<V>>,
    key: Option<u64>,
    slot: ServicePhase,
    i: int,
) -> Seq<UnitRun>
    decreases bucket.len() - i,
{
    if i < 0 || i >= bucket.len() {
        Seq::empty()
    } else {
        let rest = service_trace(bucket, key, slot, i + 1);
        if service_fires(bucket[i], key) {
            seq![service_record(slot, i)] + rest
        } else {
            rest
        }
    }
}

/// The records of the systems from position `j` on that fire on an entity
/// of shape `shape` in arena slot `entity_index`, in registration order.
pub open spec fn entity_plan<S>(
    bucket: Seq<System<S>>,
    key: Option<u64>,
    shape: Set<u64>,
    entity_index: int,
    j: int,
) -> Seq<UnitRun>
    decreases bucket.len() - j,
{
    if j < 0 || j >= bucket.len() {
        Seq::empty()
    } else {
        let rest = entity_plan(bucket, key, shape, entity_index, j + 1);
        if system_fires(bucket[j], key, shape) {
            seq![
                UnitRun::SystemOnEntity {
                    system_index: j as usize,
                    entity_index: entity_index as usize,
                },
            ] + rest
        } else {
            rest
        }
    }
}

/// The records of one sweep over the arena from slot `i` on: for every live
/// slot in slot order, the fitting systems in registration order.
pub open spec fn arena_trace<C, S>(
    arena: EntityArena<C>,
    bucket: Seq<System<S>>,
    key: Option<u64>,
    i: int,
) -> Seq<UnitRun>
    decreases arena.slot_len() - i,
{
    if i < 0 || i >= arena.slot_len() {
        Seq::empty()
    } else {
        let here = if arena.live(i) {
            entity_plan(bucket, key, arena.entity_at(i).shape(), i, 0)
        } else {
            Seq::empty()
        };
        here + arena_trace(arena, bucket, key, i + 1)
    }
}

/// The dispatch category a phase value selects.
pub open spec fn phase_kind<E>(phase: RunSystemPhase<E>) -> SystemPhase {
    match phase {
        RunSystemPhase::Update(k) => SystemPhase::Update,
        RunSystemPhase::Event(e) => SystemPhase::Event,
        RunSystemPhase::Tick => SystemPhase::Tick,
        RunSystemPhase::Render => SystemPhase::Render,
    }
}

/// The update key a phase value carries, if any.
pub open spec fn phase_key<E>(phase: RunSystemPhase<E>) -> Option<u64> {
    match phase {
        RunSystemPhase::Update(k) => Some(k),
        RunSystemPhase::Event(e) => None,
        RunSystemPhase::Tick => None,
        RunSystemPhase::Render => None,
    }
}

/// Everything one `run_systems` call does, in order: the firing Before
/// services, then the arena sweep, then the firing After services.
pub open spec fn dispatch_trace<C, S, V>(
    runner: SystemRunner<S, V>,
    arena: EntityArena<C>,
    pk: SystemPhase,
    key: Option<u64>,
) -> Seq<UnitRun> {
    service_trace(runner.service_bucket(pk, ServicePhase::Before), key, ServicePhase::Before, 0)
        + arena_trace(arena, runner.system_bucket(pk), key, 0) + service_trace(
        runner.service_bucket(pk, ServicePhase::After),
        key,
        ServicePhase::After,
        0,
    )
}

/// The records of an entity's sweep, as built by the matching loop.
pub open spec fn plan_records(plan: Seq<usize>, entity_index: int) -> Seq<UnitRun> {
    plan.map_values(
        |j: usize| UnitRun::SystemOnEntity { system_index: j, entity_index: entity_index as usize },
    )
}

/// Whether the shape required by `query` is included in the entity's shape.
fn query_matches<C>(query: &EntityShape, entity: &Entity<C>) -> (r: bool)
    requires
        query.wf(),
    ensures
        r == query.kind_set().subset_of(entity.shape()),
{
    let n = query.len();
    let mut i: usize = 0;
    while i < n
        invariant
            query.wf(),
            n == query.kind_seq().len(),
            0 <= i <= n,
            forall|p: int| 0 <= p < i ==> entity.shape().contains(#[trigger] query.kind_seq()[p]),
        decreases n - i,
    {
        let kind = query.kind_at(i);
        if !entity.has(kind) {
            return false;
        }
        i += 1;
    }
    proof {
        query.lemma_kind_set_members();
        assert forall|a: u64| query.kind_set().contains(a) implies entity.shape().contains(a) by {
            assert(query.kind_seq().contains(a));
            let w = choose|w: int| 0 <= w < query.kind_seq().len() && query.kind_seq()[w] == a;
            assert(entity.shape().contains(query.kind_seq()[w]));
        }
    }
    true
}

/// Whether a service with this update key fires under the dispatched key.
fn key_admits(unit_key: &Option<u64>, key: &Option<u64>) -> (r: bool)
    ensures
        r == match *key {
            Some(k) => *unit_key == Some(k),
            None => true,
        },
{
    match key {
        Some(k) => match unit_key {
            Some(uk) => *uk == *k,
            None => false,
        },
        None => true,
    }
}

/// Runs every service of a bucket that fires under `key`, in registration
/// order, appending one record per invocation.
fn run_service_bucket<R, E, V: ServiceLogic<R, E>>(
    bucket: &Vec<Service<V>>,
    key: Option<u64>,
    slot: ServicePhase,
    resources: &mut ResourceRegistry<R>,
    phase: &RunSystemPhase<E>,
    trace: &mut Vec<UnitRun>,
)
    ensures
        final(trace)@ == old(trace)@ + service_trace(bucket@, key, slot, 0),
{
    let n = bucket.len();
    let mut i: usize = 0;
    proof {
        assert(old(trace)@ + service_trace(bucket@, key, slot, 0) =~= trace@ + service_trace(
            bucket@,
            key,
            slot,
            0,
        ));
    }
    while i < n
        invariant
            n == bucket@.len(),
            0 <= i <= n,
            trace@ + service_trace(bucket@, key, slot, i as int) == old(trace)@ + service_trace(
                bucket@,
                key,
                slot,
                0,
            ),
        decreases n - i,
    {
        let svc = &bucket[i];
        let ghost pre = trace@;
        if key_admits(&svc.update_key, &key) {
            (svc.calls).run(resources, phase);
            let rec = match slot {
                ServicePhase::Before => UnitRun::BeforeService { index: i },
                ServicePhase::After => UnitRun::AfterService { index: i },
            };
            trace.push(rec);
            proof {
                assert(service_fires(bucket@[i as int], key));
                assert(service_trace(bucket@, key, slot, i as int) == seq![
                    service_record(slot, i as int),
                ] + service_trace(bucket@, key, slot, i + 1));
                assert(rec == service_record(slot, i as int));
                assert(trace@ + service_trace(bucket@, key, slot, i + 1) =~= pre + service_trace(
                    bucket@,
                    key,
                    slot,
                    i as int,
                ));
            }
        } else {
            proof {
                assert(!service_fires(bucket@[i as int], key));
                assert(service_trace(bucket@, key, slot, i as int) == service_trace(
                    bucket@,
                    key,
                    slot,
                    i + 1,
                ));
            }
        }
        i += 1;
    }
    proof {
        assert(service_trace(bucket@, key, slot, n as int) =~= Seq::<UnitRun>::empty());
        assert(trace@ + Seq::<UnitRun>::empty() =~= trace@);
    }
}

/// Decides which systems of a bucket fire on this entity — against its
/// shape as it is now — then runs them in registration order, appending one
/// record per invocation.
fn run_systems_for_entity<C, R, E, S: SystemLogic<C, R, E>>(
    entity: &mut Entity<C>,
    entity_index: usize,
    bucket: &Vec<System<S>>,
    key: Option<u64>,
    resources: &mut ResourceRegistry<R>,
    phase: &RunSystemPhase<E>,
    trace: &mut Vec<UnitRun>,
)
    requires
        forall|j: int| 0 <= j < bucket@.len() ==> (#[trigger] bucket@[j].query).wf(),
    ensures
        final(trace)@ == old(trace)@ + entity_plan(
            bucket@,
            key,
            old(entity).shape(),
            entity_index as int,
            0,
        ),
{
    let ghost shape0 = entity.shape();
    let n = bucket.len();
    let mut plan: Vec<usize> = Vec::new();
    let mut j: usize = 0;
    proof {
        assert(plan_records(plan@, entity_index as int) + entity_plan(
            bucket@,
            key,
            shape0,
            entity_index as int,
            0,
        ) =~= entity_plan(bucket@, key, shape0, entity_index as int, 0));
    }
    while j < n
        invariant
            n == bucket@.len(),
            0 <= j <= n,
            forall|q: int| 0 <= q < bucket@.len() ==> (#[trigger] bucket@[q].query).wf(),
            *entity == *old(entity),
            shape0 == old(entity).shape(),
            forall|p: int| 0 <= p < plan@.len() ==> (#[trigger] plan@[p] as int) < n,
            plan_records(plan@, entity_index as int) + entity_plan(
                bucket@,
                key,
                shape0,
                entity_index as int,
                j as int,
            ) == entity_plan(bucket@, key, shape0, entity_index as int, 0),
        decreases n - j,
    {
        let sys = &bucket[j];
        let ghost pre_plan = plan@;
        proof {
            assert(bucket@[j as int].query.wf());
        }
        let key_ok = key_admits(&sys.update_key, &key);
        if key_ok && query_matches(&sys.query, entity) {
            plan.push(j);
            proof {
                assert(system_fires(bucket@[j as int], key, shape0));
                assert(entity_plan(bucket@, key, shape0, entity_index as int, j as int) == seq![
                    UnitRun::SystemOnEntity { system_index: j, entity_index },
                ] + entity_plan(bucket@, key, shape0, entity_index as int, j + 1));
                assert(plan_records(plan@, entity_index as int) =~= plan_records(
                    pre_plan,
                    entity_index as int,
                ).push(UnitRun::SystemOnEntity { system_index: j, entity_index }));
                assert(plan_records(plan@, entity_index as int) + entity_plan(
                    bucket@,
                    key,
                    shape0,
                    entity_index as int,
                    j + 1,
                ) =~= plan_records(pre_plan, entity_index as int) + entity_plan(
                    bucket@,
                    key,
                    shape0,
                    entity_index as int,
                    j as int,
                ));
            }
        } else {
            proof {
                assert(!system_fires(bucket@[j as int], key, shape0));
                assert(entity_plan(bucket@, key, shape0, entity_index as int, j as int)
                    == entity_plan(bucket@, key, shape0, entity_index as int, j + 1));
            }
        }
        j += 1;
    }
    proof {
        assert(entity_plan(bucket@, key, shape0, entity_index as int, n as int) =~= Seq::<
            UnitRun,
        >::empty());
        assert(plan_records(plan@, entity_index as int) + Seq::<UnitRun>::empty() =~= plan_records(
            plan@,
            entity_index as int,
        ));
        assert(plan_records(plan@, entity_index as int) == entity_plan(
            bucket@,
            key,
            shape0,
            entity_index as int,
            0,
        ));
    }
    let m = plan.len();
    let mut p: usize = 0;
    proof {
        assert(trace@ + plan_records(plan@.subrange(0, 0), entity_index as int) =~= trace@);
    }
    while p < m
        invariant
            m == plan@.len(),
            0 <= p <= m,
            n == bucket@.len(),
            forall|q: int| 0 <= q < plan@.len() ==> (#[trigger] plan@[q] as int) < n,
            plan_records(plan@, entity_index as int) == entity_plan(
                bucket@,
                key,
                shape0,
                entity_index as int,
                0,
            ),
            trace@ == old(trace)@ + plan_records(plan@.subrange(0, p as int), entity_index as int),
        decreases m - p,
    {
        let jdx = plan[p];
        let sys = &bucket[jdx];
        let ghost pre = trace@;
        (sys.calls).run(entity, resources, phase);
        trace.push(UnitRun::SystemOnEntity { system_index: jdx, entity_index });
        proof {
            assert(plan@.subrange(0, p + 1) =~= plan@.subrange(0, p as int).push(
                plan@[p as int],
            ));
            assert(plan_records(plan@.subrange(0, p + 1), entity_index as int) =~= plan_records(
                plan@.subrange(0, p as int),
                entity_index as int,
            ).push(UnitRun::SystemOnEntity { system_index: jdx, entity_index }));
            assert(trace@ =~= old(trace)@ + plan_records(
                plan@.subrange(0, p + 1),
                entity_index as int,
            ));
        }
        p += 1;
    }
    proof {
        assert(plan@.subrange(0, m as int) =~= plan@);
    }
}

/// Sweeps the arena in slot order, running every fitting system of the
/// bucket on every live entity.
fn run_arena_sweep<C, R, E, S: SystemLogic<C, R, E>>(
    arena: &mut EntityArena<C>,
    bucket: &Vec<System<S>>,
    key: Option<u64>,
    resources: &mut ResourceRegistry<R>,
    phase: &RunSystemPhase<E>,
    trace: &mut Vec<UnitRun>,
)
    requires
        forall|j: int| 0 <= j < bucket@.len() ==> (#[trigger] bucket@[j].query).wf(),
    ensures
        final(trace)@ == old(trace)@ + arena_trace(*old(arena), bucket@, key, 0),
        final(arena).same_frame(*old(arena)),
{
    let n = arena.slot_count();
    let mut i: usize = 0;
    proof {
        assert(trace@ + arena_trace(*old(arena), bucket@, key, 0) =~= old(trace)@ + arena_trace(
            *old(arena),
            bucket@,
            key,
            0,
        ));
    }
    while i < n
        invariant
            n as int == arena.slot_len(),
            0 <= i <= n,
            arena.same_frame(*old(arena)),
            forall|j: int| 0 <= j < bucket@.len() ==> (#[trigger] bucket@[j].query).wf(),
            forall|q: int|
                i <= q < n && old(arena).live(q) ==> #[trigger] arena.entity_at(q) == old(arena).entity_at(q),
            trace@ + arena_trace(*old(arena), bucket@, key, i as int) == old(trace)@ + arena_trace(
                *old(arena),
                bucket@,
                key,
                0,
            ),
        decreases n - i,
    {
        let ghost pre = trace@;
        let ghost mid = *arena;
        if arena.is_live(i) {
            proof {
                assert(old(arena).gen_of(i as int) == arena.gen_of(i as int) && old(
                    arena,
                ).live(i as int) == arena.live(i as int));
                assert(old(arena).live(i as int));
                assert(arena.entity_at(i as int) == old(arena).entity_at(i as int));
            }
            let ent = arena.entity_mut_at(i);
            run_systems_for_entity(ent, i, bucket, key, resources, phase, trace);
            proof {
                assert(arena.same_frame(mid));
                assert(arena.same_frame(*old(arena)));
                assert forall|q: int|
                    i + 1 <= q < n && old(arena).live(q) implies #[trigger] arena.entity_at(q)
                    == old(arena).entity_at(q) by {
                    assert(mid.gen_of(q) == old(arena).gen_of(q) && mid.live(q) == old(
                        arena,
                    ).live(q));
                    assert(mid.entity_at(q) == old(arena).entity_at(q));
                    assert(arena.entity_at(q) == mid.entity_at(q));
                }
                assert(mid.entity_at(i as int).shape() == old(arena).entity_at(i as int).shape());
                assert((i as int) < old(arena).slot_len());
                assert(arena_trace(*old(arena), bucket@, key, i as int) == entity_plan(
                    bucket@,
                    key,
                    old(arena).entity_at(i as int).shape(),
                    i as int,
                    0,
                ) + arena_trace(*old(arena), bucket@, key, i + 1));
                assert(trace@ + arena_trace(*old(arena), bucket@, key, i + 1) =~= pre
                    + arena_trace(*old(arena), bucket@, key, i as int));
            }
        } else {
            proof {
                assert(old(arena).gen_of(i as int) == arena.gen_of(i as int) && old(
                    arena,
                ).live(i as int) == arena.live(i as int));
                assert(!old(arena).live(i as int));
                assert(arena_trace(*old(arena), bucket@, key, i as int) =~= Seq::<
                    UnitRun,
                >::empty() + arena_trace(*old(arena), bucket@, key, i + 1));
                assert(Seq::<UnitRun>::empty() + arena_trace(*old(arena), bucket@, key, i + 1)
                    =~= arena_trace(*old(arena), bucket@, key, i + 1));
            }
        }
        i += 1;
    }
    proof {
        assert(arena_trace(*old(arena), bucket@, key, n as int) =~= Seq::<UnitRun>::empty());
        assert(trace@ + Seq::<UnitRun>::empty() =~= trace@);
    }
}

/// The composed entity-component-system: the arena of entities, the
/// registration table of systems and services, and the shared resources.
pub struct ECS<C, R, S, V> {
    /// The arena owning every entity.
    pub entities: EntityArena<C>,
    /// The registration table, fixed at startup.
    pub systems: SystemRunner<S, V>,
    /// The shared singleton resources.
    pub resources: ResourceRegistry<R>,
}

impl<C, R, S, V> ECS<C, R, S, V> {
    /// Every registered system's query is deduplicated. Registration
    /// through `add_system` keeps this.
    pub open spec fn wf(self) -> bool {
        forall|pk: SystemPhase, j: int|
            0 <= j < self.systems.system_bucket(pk).len() ==> (#[trigger] self.systems.system_bucket(
                pk,
            )[j].query).wf()
    }

    /// An empty world: no entities, no registrations, no resources.
    pub fn new() -> (r: Self)
        ensures
            r.wf(),
            r.entities.slot_len() == 0,
            forall|pk: SystemPhase| #[trigger] r.systems.system_bucket(pk) == Seq::<
                System<S>,
            >::empty(),
            forall|pk: SystemPhase, sl: ServicePhase| #[trigger] r.systems.service_bucket(pk, sl)
                == Seq::<Service<V>>::empty(),
            r.resources.plain_map() == Map::<u64, R>::empty(),
            r.resources.tagged_map() == Map::<u128, R>::empty(),
    {
        ECS {
            entities: EntityArena::new(),
            systems: SystemRunner::new(),
            resources: ResourceRegistry::new(),
        }
    }

    /// Hands an entity to the arena. It is part of every later dispatch and
    /// query until removed.
    pub fn add_entity(&mut self, entity: Entity<C>)
        requires
            old(self).entities.slot_len() < usize::MAX,
        ensures
            final(self).wf() == old(self).wf(),
            final(self).systems == old(self).systems,
            final(self).resources == old(self).resources,
            exists|h: Handle|
                (#[trigger] final(self).entities.valid_handle(h)) && final(self).entities.entity_at(h.index as int) == entity,
    {
        let h = self.entities.insert(entity);
        proof {
            assert(self.entities.valid_handle(h));
        }
    }

    /// Registers a system in its phase's bucket, after all earlier ones.
    pub fn add_system(&mut self, system: System<S>)
        requires
            system.query.wf(),
        ensures
            final(self).systems.system_bucket(system.phase) == old(self).systems.system_bucket(
                system.phase,
            ).push(system),
            final(self).systems.only_changed(
                old(self).systems,
                system.phase,
                Option::<ServicePhase>::None,
            ),
            final(self).entities == old(self).entities,
            final(self).resources == old(self).resources,
            old(self).wf() ==> final(self).wf(),
    {
        let ghost pre = self.systems;
        self.systems.add(system);
        proof {
            if old(self).wf() {
                assert forall|pk: SystemPhase, j: int|
                    0 <= j < self.systems.system_bucket(pk).len() implies (
                #[trigger] self.systems.system_bucket(pk)[j].query).wf() by {
                    if pk == system.phase && j == self.systems.system_bucket(pk).len() - 1 {
                    } else {
                        assert(self.systems.system_bucket(pk)[j] == pre.system_bucket(pk)[j]);
                    }
                }
            }
        }
    }

    /// Registers a service in the Before bucket of its phase.
    pub fn add_before_service(&mut self, system: Service<V>)
        ensures
            final(self).systems.service_bucket(system.phase, ServicePhase::Before) == old(self).systems.service_bucket(system.phase, ServicePhase::Before).push(system),
            final(self).systems.only_changed(
                old(self).systems,
                system.phase,
                Some(ServicePhase::Before),
            ),
            final(self).entities == old(self).entities,
            final(self).resources == old(self).resources,
            old(self).wf() ==> final(self).wf(),
    {
        self.systems.add_service(system, ServicePhase::Before);
        proof {
            if old(self).wf() {
                assert forall|pk: SystemPhase, j: int|
                    0 <= j < self.systems.system_bucket(pk).len() implies (
                #[trigger] self.systems.system_bucket(pk)[j].query).wf() by {
                    assert(self.systems.system_bucket(pk) == old(self).systems.system_bucket(pk));
                }
            }
        }
    }

    /// Registers a service in the After bucket of its phase.
    pub fn add_after_service(&mut self, system: Service<V>)
        ensures
            final(self).systems.service_bucket(system.phase, ServicePhase::After) == old(self).systems.service_bucket(system.phase, ServicePhase::After).push(system),
            final(self).systems.only_changed(
                old(self).systems,
                system.phase,
                Some(ServicePhase::After),
            ),
            final(self).entities == old(self).entities,
            final(self).resources == old(self).resources,
            old(self).wf() ==> final(self).wf(),
    {
        self.systems.add_service(system, ServicePhase::After);
        proof {
            if old(self).wf() {
                assert forall|pk: SystemPhase, j: int|
                    0 <= j < self.systems.system_bucket(pk).len() implies (
                #[trigger] self.systems.system_bucket(pk)[j].query).wf() by {
                    assert(self.systems.system_bucket(pk) == old(self).systems.system_bucket(pk));
                }
            }
        }
    }

    /// One dispatch: runs the firing Before services in registration order,
    /// then for every live entity in slot order the fitting systems of the
    /// phase in registration order, then the firing After services, and
    /// returns one record per invocation, in invocation order.
    ///
    /// Callbacks mutate entities and resources in place; the arena's slot
    /// frame — which slots exist, are live, and under which generation — is
    /// preserved, as is the registration table.
    pub fn run_systems<E>(&mut self, phase: RunSystemPhase<E>) -> (trace: Vec<UnitRun>) where
        S: SystemLogic<C, R, E>,
        V: ServiceLogic<R, E>,

        requires
            old(self).wf(),
        ensures
            final(self).wf(),
            final(self).systems == old(self).systems,
            final(self).entities.same_frame(old(self).entities),
            trace@ == dispatch_trace(
                old(self).systems,
                old(self).entities,
                phase_kind(phase),
                phase_key(phase),
            ),
    {
        let mut trace: Vec<UnitRun> = Vec::new();
        let ghost pk = phase_kind(phase);
        let ghost key = phase_key(phase);
        match &phase {
            RunSystemPhase::Update(k) => {
                let key_now = Some(*k);
                run_service_bucket(
                    &self.systems.before_update,
                    key_now,
                    ServicePhase::Before,
                    &mut self.resources,
                    &phase,
                    &mut trace,
                );
                proof {
                    assert forall|j: int|
                        0 <= j < self.systems.update@.len() implies (
                    #[trigger] self.systems.update@[j].query).wf() by {
                        assert(old(self).systems.system_bucket(SystemPhase::Update)[j].query.wf());
                    }
                }
                run_arena_sweep(
                    &mut self.entities,
                    &self.systems.update,
                    key_now,
                    &mut self.resources,
                    &phase,
                    &mut trace,
                );
                run_service_bucket(
                    &self.systems.after_update,
                    key_now,
                    ServicePhase::After,
                    &mut self.resources,
                    &phase,
                    &mut trace,
                );
                proof {
                    assert(trace@ =~= dispatch_trace(
                        old(self).systems,
                        old(self).entities,
                        pk,
                        key,
                    ));
                }
            },
            RunSystemPhase::Event(_e) => {
                run_service_bucket(
                    &self.systems.before_event,
                    None,
                    ServicePhase::Before,
                    &mut self.resources,
                    &phase,
                    &mut trace,
                );
                proof {
                    assert forall|j: int|
                        0 <= j < self.systems.event@.len() implies (
                    #[trigger] self.systems.event@[j].query).wf() by {
                        assert(old(self).systems.system_bucket(SystemPhase::Event)[j].query.wf());
                    }
                }
                run_arena_sweep(
                    &mut self.entities,
                    &self.systems.event,
                    None,
                    &mut self.resources,
                    &phase,
                    &mut trace,
                );
                run_service_bucket(
                    &self.systems.after_event,
                    None,
                    ServicePhase::After,
                    &mut self.resources,
                    &phase,
                    &mut trace,
                );
                proof {
                    assert(trace@ =~= dispatch_trace(
                        old(self).systems,
                        old(self).entities,
                        pk,
                        key,
                    ));
                }
            },
            RunSystemPhase::Tick => {
                run_service_bucket(
                    &self.systems.before_tick,
                    None,
                    ServicePhase::Before,
                    &mut self.resources,
                    &phase,
                    &mut trace,
                );
                proof {
                    assert forall|j: int|
                        0 <= j < self.systems.tick@.len() implies (
                    #[trigger] self.systems.tick@[j].query).wf() by {
                        assert(old(self).systems.system_bucket(SystemPhase::Tick)[j].query.wf());
                    }
                }
                run_arena_sweep(
                    &mut self.entities,
                    &self.systems.tick,
                    None,
                    &mut self.resources,
                    &phase,
                    &mut trace,
                );
                run_service_bucket(
                    &self.systems.after_tick,
                    None,
                    ServicePhase::After,
                    &mut self.resources,
                    &phase,
                    &mut trace,
                );
                proof {
                    assert(trace@ =~= dispatch_trace(
                        old(self).systems,
                        old(self).entities,
                        pk,
                        key,
                    ));
                }
            },
            RunSystemPhase::Render => {
                run_service_bucket(
                    &self.systems.before_render,
                    None,
                    ServicePhase::Before,
                    &mut self.resources,
                    &phase,
                    &mut trace,
                );
                proof {
                    assert forall|j: int|
                        0 <= j < self.systems.render@.len() implies (
                    #[trigger] self.systems.render@[j].query).wf() by {
                        assert(old(self).systems.system_bucket(SystemPhase::Render)[j].query.wf());
                    }
                }
                run_arena_sweep(
                    &mut self.entities,
                    &self.systems.render,
                    None,
                    &mut self.resources,
                    &phase,
                    &mut trace,
                );
                run_service_bucket(
                    &self.systems.after_render,
                    None,
                    ServicePhase::After,
                    &mut self.resources,
                    &phase,
                    &mut trace,
                );
                proof {
                    assert(trace@ =~= dispatch_trace(
                        old(self).systems,
                        old(self).entities,
                        pk,
                        key,
                    ));
                }
            },
        }
        trace
    }

    /// The handles of every live entity whose shape includes `shape`, in
    /// slot order — the same subset-match rule the scheduler uses, usable
    /// outside the phase protocol.
    pub fn query_exact(&self, shape: &EntityShape) -> (matching: Vec<Handle>)
        requires
            shape.wf(),
        ensures
            matching@ == matching_handles(self.entities, shape.kind_set(), 0),
    {
        let mut matching: Vec<Handle> = Vec::new();
        let n = self.entities.slot_count();
        let mut i: usize = 0;
        proof {
            assert(matching@ + matching_handles(self.entities, shape.kind_set(), 0)
                =~= matching_handles(self.entities, shape.kind_set(), 0));
        }
        while i < n
            invariant
                shape.wf(),
                n as int == self.entities.slot_len(),
                0 <= i <= n,
                matching@ + matching_handles(self.entities, shape.kind_set(), i as int)
                    == matching_handles(self.entities, shape.kind_set(), 0),
            decreases n - i,
        {
            let ghost pre = matching@;
            if self.entities.is_live(i) {
                let ent = self.entities.entity_ref(i);
                if query_matches(shape, ent) {
                    let g = self.entities.generation_of(i);
                    matching.push(Handle { index: i, generation: g });
                    proof {
                        assert(matching_handles(self.entities, shape.kind_set(), i as int) == seq![
                            Handle { index: i, generation: g },
                        ] + matching_handles(self.entities, shape.kind_set(), i + 1));
                        assert(matching@ + matching_handles(self.entities, shape.kind_set(), i + 1)
                            =~= pre + matching_handles(self.entities, shape.kind_set(), i as int));
                    }
                } else {
                    proof {
                        assert(matching_handles(self.entities, shape.kind_set(), i as int)
                            == matching_handles(self.entities, shape.kind_set(), i + 1));
                    }
                }
            } else {
                proof {
                    assert(matching_handles(self.entities, shape.kind_set(), i as int)
                        == matching_handles(self.entities, shape.kind_set(), i + 1));
                }
            }
            i += 1;
        }
        proof {
            assert(matching_handles(self.entities, shape.kind_set(), n as int) =~= Seq::<
                Handle,
            >::empty());
            assert(matching@ + Seq::<Handle>::empty() =~= matching@);
        }
        matching
    }
}

/// The handles of the live entities from slot `i` on whose shape includes
/// `q`, in slot order.
pub open spec fn matching_handles<C>(arena: EntityArena<C>, q: Set<u64>, i: int) -> Seq<Handle>
    decreases arena.slot_len() - i,
{
    if i < 0 || i >= arena.slot_len() {
        Seq::empty()
    } else {
        let rest = matching_handles(arena, q, i + 1);
        if arena.live(i) && q.subset_of(arena.entity_at(i).shape()) {
            seq![Handle { index: i as usize, generation: arena.gen_of(i) }] + rest
        } else {
            rest
        }
    }
}

} // verus!
