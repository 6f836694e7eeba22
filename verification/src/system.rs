//! Declarative units of phase-scoped logic and the table that holds them.
//!
//! A `System` is entity-targeted: it fires once per matching entity. A
//! `Service` is global: it fires once per dispatch, in a Before or After
//! sub-slot around the phase's systems. Units registered for the Update
//! phase additionally carry an update key and fire only when the dispatched
//! key equals theirs. Units are registered once at startup and never
//! mutated or removed.
//!
//! Callbacks are values of an application type implementing [`SystemLogic`]
//! or [`ServiceLogic`]; they receive only the explicit (entity, resources,
//! phase) arguments, so a unit carries no implicit cross-frame state.

use crate::entity::Entity;
use crate::resource_registry::ResourceRegistry;
use crate::shape::EntityShape;
use vstd::prelude::*;

verus! {

/// Which sub-slot a service runs in, relative to the phase's systems.
#[derive(Clone, Copy, PartialEq, Eq, Structural, Debug)]
pub enum ServicePhase {
    /// Runs before the phase's systems.
    Before,
    /// Runs after the phase's systems.
    After,
}

/// The dispatch category a unit is registered for.
#[derive(Clone, Copy, PartialEq, Eq, Structural, Debug)]
pub enum SystemPhase {
    /// A keyed logical update channel.
    Update,
    /// A platform or application event sweep.
    Event,
    /// A fixed-step simulation tick.
    Tick,
    /// A frame render sweep.
    Render,
}

/// The phase value a dispatch is invoked with. `Update` carries the update
/// key being dispatched; `Event` carries the event payload for callbacks to
/// inspect.
pub enum RunSystemPhase<E> {
    /// Dispatch the update channel with this key.
    Update(u64),
    /// Dispatch an event sweep with this payload.
    Event(E),
    /// Dispatch a simulation tick.
    Tick,
    /// Dispatch a render sweep.
    Render,
}

/// Entity-targeted callback logic, implemented by the application. A value
/// of the implementing type is stored in each registered [`System`].
pub trait SystemLogic<C, R, E> {
    /// Invoked once per matching entity per dispatch, with exclusive access
    /// to that entity and to the shared resources.
    fn run(
        &self,
        entity: &mut Entity<C>,
        resources: &mut ResourceRegistry<R>,
        phase: &RunSystemPhase<E>,
    );
}

/// Global callback logic, implemented by the application. A value of the
/// implementing type is stored in each registered [`Service`].
pub trait ServiceLogic<R, E> {
    /// Invoked once per dispatch, with exclusive access to the shared
    /// resources.
    fn run(&self, resources: &mut ResourceRegistry<R>, phase: &RunSystemPhase<E>);
}

/// An immutable record of global logic: phase, callback, and — for the
/// Update phase — the update key it fires on.
pub struct Service<V> {
    /// The phase whose dispatch runs this service.
    pub phase: SystemPhase,
    /// The callback value.
    pub calls: V,
    /// For Update services, the key this service fires on.
    pub update_key: Option<u64>,
}

impl<V> Service<V> {
    /// A service on the update channel keyed `update_key`.
    pub fn at_update(update_key: u64, calls: V) -> (s: Self)
        ensures
            s.phase == SystemPhase::Update,
            s.update_key == Some(update_key),
            s.calls == calls,
    {
        Service { phase: SystemPhase::Update, calls, update_key: Some(update_key) }
    }

    /// A service on the event phase.
    pub fn at_event(calls: V) -> (s: Self)
        ensures
            s.phase == SystemPhase::Event,
            s.update_key is None,
            s.calls == calls,
    {
        Service { phase: SystemPhase::Event, calls, update_key: None }
    }

    /// A service on the tick phase.
    pub fn at_tick(calls: V) -> (s: Self)
        ensures
            s.phase == SystemPhase::Tick,
            s.update_key is None,
            s.calls == calls,
    {
        Service { phase: SystemPhase::Tick, calls, update_key: None }
    }

    /// A service on the render phase.
    pub fn at_render(calls: V) -> (s: Self)
        ensures
            s.phase == SystemPhase::Render,
            s.update_key is None,
            s.calls == calls,
    {
        Service { phase: SystemPhase::Render, calls, update_key: None }
    }
}

/// An immutable record of entity-targeted logic: phase, shape query,
/// callback, and — for the Update phase — the update key it fires on.
pub struct System<S> {
    /// The phase whose dispatch runs this system.
    pub phase: SystemPhase,
    /// The shape an entity must include for this system to fire on it.
    pub query: EntityShape,
    /// The callback value.
    pub calls: S,
    /// For Update systems, the key this system fires on.
    pub update_key: Option<u64>,
}

impl<S> System<S> {
    /// A system on the update channel keyed `update_key`.
    pub fn at_update(update_key: u64, query: EntityShape, calls: S) -> (s: Self)
        ensures
            s.phase == SystemPhase::Update,
            s.update_key == Some(update_key),
            s.query == query,
            s.calls == calls,
    {
        System { phase: SystemPhase::Update, query, calls, update_key: Some(update_key) }
    }

    /// A system on the event phase.
    pub fn at_event(query: EntityShape, calls: S) -> (s: Self)
        ensures
            s.phase == SystemPhase::Event,
            s.update_key is None,
            s.query == query,
            s.calls == calls,
    {
        System { phase: SystemPhase::Event, query, calls, update_key: None }
    }

    /// A system on the tick phase.
    pub fn at_tick(query: EntityShape, calls: S) -> (s: Self)
        ensures
            s.phase == SystemPhase::Tick,
            s.update_key is None,
            s.query == query,
            s.calls == calls,
    {
        System { phase: SystemPhase::Tick, query, calls, update_key: None }
    }

    /// A system on the render phase.
    pub fn at_render(query: EntityShape, calls: S) -> (s: Self)
        ensures
            s.phase == SystemPhase::Render,
            s.update_key is None,
            s.query == query,
            s.calls == calls,
    {
        System { phase: SystemPhase::Render, query, calls, update_key: None }
    }
}

/// The registration table: one bucket of systems per phase, and Before and
/// After buckets of services per phase. Buckets keep registration order.
pub struct SystemRunner<S, V> {
    /// Update-phase systems.
    pub update: Vec<System<S>>,
    /// Services before the update systems.
    pub before_update: Vec<Service<V>>,
    /// Services after the update systems.
    pub after_update: Vec<Service<V>>,
    /// Tick-phase systems.
    pub tick: Vec<System<S>>,
    /// Services before the tick systems.
    pub before_tick: Vec<Service<V>>,
    /// Services after the tick systems.
    pub after_tick: Vec<Service<V>>,
    /// Render-phase systems.
    pub render: Vec<System<S>>,
    /// Services before the render systems.
    pub before_render: Vec<Service<V>>,
    /// Services after the render systems.
    pub after_render: Vec<Service<V>>,
    /// Event-phase systems.
    pub event: Vec<System<S>>,
    /// Services before the event systems.
    pub before_event: Vec<Service<V>>,
    /// Services after the event systems.
    pub after_event: Vec<Service<V>>,
}

impl<S, V> SystemRunner<S, V> {
    /// All buckets of `self` except the one named equal those of `other`.
    /// Spelled out once so every registration contract can say "and nothing
    /// else moved" without twelve clauses.
    pub open spec fn only_changed(self, other: Self, changed: SystemPhase, slot: Option<
        ServicePhase,
    >) -> bool {
        &&& (changed != SystemPhase::Update || slot != Option::<ServicePhase>::None ==> self.update
            == other.update)
        &&& (changed != SystemPhase::Event || slot != Option::<ServicePhase>::None ==> self.event
            == other.event)
        &&& (changed != SystemPhase::Tick || slot != Option::<ServicePhase>::None ==> self.tick
            == other.tick)
        &&& (changed != SystemPhase::Render || slot != Option::<ServicePhase>::None ==> self.render
            == other.render)
        &&& (changed != SystemPhase::Update || slot != Some(ServicePhase::Before)
            ==> self.before_update == other.before_update)
        &&& (changed != SystemPhase::Event || slot != Some(ServicePhase::Before)
            ==> self.before_event == other.before_event)
        &&& (changed != SystemPhase::Tick || slot != Some(ServicePhase::Before)
            ==> self.before_tick == other.before_tick)
        &&& (changed != SystemPhase::Render || slot != Some(ServicePhase::Before)
            ==> self.before_render == other.before_render)
        &&& (changed != SystemPhase::Update || slot != Some(ServicePhase::After)
            ==> self.after_update == other.after_update)
        &&& (changed != SystemPhase::Event || slot != Some(ServicePhase::After)
            ==> self.after_event == other.after_event)
        &&& (changed != SystemPhase::Tick || slot != Some(ServicePhase::After) ==> self.after_tick
            == other.after_tick)
        &&& (changed != SystemPhase::Render || slot != Some(ServicePhase::After)
            ==> self.after_render == other.after_render)
    }

    /// The system bucket of a phase.
    pub open spec fn system_bucket(self, phase: SystemPhase) -> Seq<System<S>> {
        match phase {
            SystemPhase::Update => self.update@,
            SystemPhase::Event => self.event@,
            SystemPhase::Tick => self.tick@,
            SystemPhase::Render => self.render@,
        }
    }

    /// The service bucket of a phase and sub-slot.
    pub open spec fn service_bucket(self, phase: SystemPhase, slot: ServicePhase) -> Seq<
        Service<V>,
    > {
        match slot {
            ServicePhase::Before => match phase {
                SystemPhase::Update => self.before_update@,
                SystemPhase::Event => self.before_event@,
                SystemPhase::Tick => self.before_tick@,
                SystemPhase::Render => self.before_render@,
            },
            ServicePhase::After => match phase {
                SystemPhase::Update => self.after_update@,
                SystemPhase::Event => self.after_event@,
                SystemPhase::Tick => self.after_tick@,
                SystemPhase::Render => self.after_render@,
            },
        }
    }

    /// Empty buckets everywhere.
    pub fn new() -> (r: Self)
        ensures
            forall|p: SystemPhase| #[trigger] r.system_bucket(p) == Seq::<System<S>>::empty(),
            forall|p: SystemPhase, sl: ServicePhase| #[trigger] r.service_bucket(p, sl) == Seq::<
                Service<V>,
            >::empty(),
    {
        SystemRunner {
            update: Vec::new(),
            before_update: Vec::new(),
            after_update: Vec::new(),
            tick: Vec::new(),
            before_tick: Vec::new(),
            after_tick: Vec::new(),
            render: Vec::new(),
            before_render: Vec::new(),
            after_render: Vec::new(),
            event: Vec::new(),
            before_event: Vec::new(),
            after_event: Vec::new(),
        }
    }

    /// Appends a system to its phase's bucket, keeping registration order.
    pub fn add(&mut self, system: System<S>)
        ensures
            final(self).system_bucket(system.phase) == old(self).system_bucket(
                system.phase,
            ).push(system),
            final(self).only_changed(*old(self), system.phase, Option::<ServicePhase>::None),
    {
        match system.phase {
            SystemPhase::Update => self.update.push(system),
            SystemPhase::Event => self.event.push(system),
            SystemPhase::Tick => self.tick.push(system),
            SystemPhase::Render => self.render.push(system),
        }
    }

    /// Appends a service to the Before or After bucket of its phase,
    /// keeping registration order.
    pub fn add_service(&mut self, service: Service<V>, phase: ServicePhase)
        ensures
            final(self).service_bucket(service.phase, phase) == old(self).service_bucket(
                service.phase,
                phase,
            ).push(service),
            final(self).only_changed(*old(self), service.phase, Some(phase)),
            forall|p: SystemPhase| #[trigger] final(self).system_bucket(p) == old(
                self,
            ).system_bucket(p),
    {
        match phase {
            ServicePhase::Before => match service.phase {
                SystemPhase::Update => self.before_update.push(service),
                SystemPhase::Event => self.before_event.push(service),
                SystemPhase::Tick => self.before_tick.push(service),
                SystemPhase::Render => self.before_render.push(service),
            },
            ServicePhase::After => match service.phase {
                SystemPhase::Update => self.after_update.push(service),
                SystemPhase::Event => self.after_event.push(service),
                SystemPhase::Tick => self.after_tick.push(service),
                SystemPhase::Render => self.after_render.push(service),
            },
        }
    }
}

} // verus!
