//! The laws of the dispatch protocol and of structural queries, stated over
//! the same specifications that the executable functions' contracts use and
//! proved once and for all: which units a dispatch runs, in which order, and
//! which entities a query returns.

use crate::arena::EntityArena;
use crate::arena::Handle;
use crate::ecs::arena_trace;
use crate::ecs::dispatch_trace;
use crate::ecs::entity_plan;
use crate::ecs::matching_handles;
use crate::ecs::record_entity;
use crate::ecs::record_index;
use crate::ecs::service_fires;
use crate::ecs::service_record;
use crate::ecs::service_trace;
use crate::ecs::system_fires;
use crate::ecs::UnitRun;
use crate::system::Service;
use crate::system::ServicePhase;
use crate::system::System;
use crate::system::SystemPhase;
use crate::system::SystemRunner;
use vstd::prelude::*;

verus! {

/// What holds of every record of a service bucket's trace: it is the record
/// of a service at or after `lo` that fires under `key`.
pub open spec fn service_rec_ok<V>(
    bucket: Seq<Service<V>>,
    key: Option<u64>,
    slot: ServicePhase,
    lo: int,
    r: UnitRun,
) -> bool {
    &&& r == service_record(slot, record_index(r))
    &&& lo <= record_index(r) < bucket.len()
    &&& service_fires(bucket[record_index(r)], key)
}

/// A service bucket's trace holds exactly the records of the services that
/// fire, in registration order: every record is a firing service's record,
/// positions keep bucket order, and every firing service has its record.
pub proof fn lemma_service_trace_members<V>(
    bucket: Seq<Service<V>>,
    key: Option<u64>,
    slot: ServicePhase,
    i: int,
)
    requires
        0 <= i,
        bucket.len() <= usize::MAX,
    ensures
        forall|p: int|
            0 <= p < service_trace(bucket, key, slot, i).len() ==> service_rec_ok(
                bucket,
                key,
                slot,
                i,
                #[trigger] service_trace(bucket, key, slot, i)[p],
            ),
        forall|p1: int, p2: int|
            0 <= p1 < p2 < service_trace(bucket, key, slot, i).len() ==> record_index(
                #[trigger] service_trace(bucket, key, slot, i)[p1],
            ) < record_index(#[trigger] service_trace(bucket, key, slot, i)[p2]),
        forall|idx: int|
            i <= idx < bucket.len() && service_fires(#[trigger] bucket[idx], key)
                ==> service_trace(bucket, key, slot, i).contains(service_record(slot, idx)),
    decreases bucket.len() - i,
{
    if i < bucket.len() {
        lemma_service_trace_members(bucket, key, slot, i + 1);
        let st = service_trace(bucket, key, slot, i);
        let tail = service_trace(bucket, key, slot, i + 1);
        if service_fires(bucket[i], key) {
            let head = service_record(slot, i);
            assert(st == seq![head] + tail);
            assert(record_index(head) == i);
            assert forall|p: int| 0 <= p < st.len() implies service_rec_ok(
                bucket,
                key,
                slot,
                i,
                #[trigger] st[p],
            ) by {
                if p == 0 {
                    assert(st[p] == head);
                } else {
                    assert(st[p] == tail[p - 1]);
                }
            }
            assert forall|p1: int, p2: int| 0 <= p1 < p2 < st.len() implies record_index(
                #[trigger] st[p1],
            ) < record_index(#[trigger] st[p2]) by {
                if p1 == 0 {
                    assert(st[p2] == tail[p2 - 1]);
                    assert(service_rec_ok(bucket, key, slot, i + 1, tail[p2 - 1]));
                } else {
                    assert(st[p1] == tail[p1 - 1]);
                    assert(st[p2] == tail[p2 - 1]);
                }
            }
            assert forall|idx: int|
                i <= idx < bucket.len() && service_fires(#[trigger] bucket[idx], key) implies st.contains(
                service_record(slot, idx),
            ) by {
                if idx == i {
                    assert(st[0] == service_record(slot, idx));
                } else {
                    assert(tail.contains(service_record(slot, idx)));
                    let w = choose|w: int|
                        0 <= w < tail.len() && tail[w] == service_record(slot, idx);
                    assert(st[w + 1] == service_record(slot, idx));
                }
            }
        } else {
            assert(st == tail);
            assert forall|idx: int|
                i <= idx < bucket.len() && service_fires(#[trigger] bucket[idx], key) implies st.contains(
                service_record(slot, idx),
            ) by {
                assert(idx != i);
                assert(tail.contains(service_record(slot, idx)));
            }
        }
    }
}

/// What holds of every record of one entity's sweep: it is a system record
/// for that entity, of a system at or after `lo` that fires on the shape.
pub open spec fn plan_rec_ok<S>(
    bucket: Seq<System<S>>,
    key: Option<u64>,
    shape: Set<u64>,
    entity_index: int,
    lo: int,
    r: UnitRun,
) -> bool {
    &&& r is SystemOnEntity
    &&& record_entity(r) == entity_index
    &&& lo <= record_index(r) < bucket.len()
    &&& system_fires(bucket[record_index(r)], key, shape)
    &&& r == (UnitRun::SystemOnEntity {
        system_index: record_index(r) as usize,
        entity_index: entity_index as usize,
    })
}

/// One entity's sweep holds exactly the records of the systems that fire on
/// its shape, in registration order, and every firing system is in it.
pub proof fn lemma_entity_plan_members<S>(
    bucket: Seq<System<S>>,
    key: Option<u64>,
    shape: Set<u64>,
    entity_index: int,
    j: int,
)
    requires
        0 <= j,
        bucket.len() <= usize::MAX,
        0 <= entity_index <= usize::MAX,
    ensures
        forall|p: int|
            0 <= p < entity_plan(bucket, key, shape, entity_index, j).len() ==> plan_rec_ok(
                bucket,
                key,
                shape,
                entity_index,
                j,
                #[trigger] entity_plan(bucket, key, shape, entity_index, j)[p],
            ),
        forall|p1: int, p2: int|
            0 <= p1 < p2 < entity_plan(bucket, key, shape, entity_index, j).len() ==> record_index(
                #[trigger] entity_plan(bucket, key, shape, entity_index, j)[p1],
            ) < record_index(#[trigger] entity_plan(bucket, key, shape, entity_index, j)[p2]),
        forall|idx: int|
            j <= idx < bucket.len() && system_fires(#[trigger] bucket[idx], key, shape)
                ==> entity_plan(bucket, key, shape, entity_index, j).contains(
                UnitRun::SystemOnEntity {
                    system_index: idx as usize,
                    entity_index: entity_index as usize,
                },
            ),
    decreases bucket.len() - j,
{
    if j < bucket.len() {
        lemma_entity_plan_members(bucket, key, shape, entity_index, j + 1);
        let st = entity_plan(bucket, key, shape, entity_index, j);
        let tail = entity_plan(bucket, key, shape, entity_index, j + 1);
        if system_fires(bucket[j], key, shape) {
            let head = UnitRun::SystemOnEntity {
                system_index: j as usize,
                entity_index: entity_index as usize,
            };
            assert(st == seq![head] + tail);
            assert(record_index(head) == j);
            assert forall|p: int| 0 <= p < st.len() implies plan_rec_ok(
                bucket,
                key,
                shape,
                entity_index,
                j,
                #[trigger] st[p],
            ) by {
                if p == 0 {
                    assert(st[p] == head);
                } else {
                    assert(st[p] == tail[p - 1]);
                }
            }
            assert forall|p1: int, p2: int| 0 <= p1 < p2 < st.len() implies record_index(
                #[trigger] st[p1],
            ) < record_index(#[trigger] st[p2]) by {
                if p1 == 0 {
                    assert(st[p2] == tail[p2 - 1]);
                    assert(plan_rec_ok(bucket, key, shape, entity_index, j + 1, tail[p2 - 1]));
                } else {
                    assert(st[p1] == tail[p1 - 1]);
                    assert(st[p2] == tail[p2 - 1]);
                }
            }
            assert forall|idx: int|
                j <= idx < bucket.len() && system_fires(
                    #[trigger] bucket[idx],
                    key,
                    shape,
                ) implies st.contains(
                UnitRun::SystemOnEntity {
                    system_index: idx as usize,
                    entity_index: entity_index as usize,
                },
            ) by {
                let rec = UnitRun::SystemOnEntity {
                    system_index: idx as usize,
                    entity_index: entity_index as usize,
                };
                if idx == j {
                    assert(st[0] == rec);
                } else {
                    assert(tail.contains(rec));
                    let w = choose|w: int| 0 <= w < tail.len() && tail[w] == rec;
                    assert(st[w + 1] == rec);
                }
            }
        } else {
            assert(st == tail);
            assert forall|idx: int|
                j <= idx < bucket.len() && system_fires(
                    #[trigger] bucket[idx],
                    key,
                    shape,
                ) implies st.contains(
                UnitRun::SystemOnEntity {
                    system_index: idx as usize,
                    entity_index: entity_index as usize,
                },
            ) by {
                assert(idx != j);
                assert(tail.contains(
                    UnitRun::SystemOnEntity {
                        system_index: idx as usize,
                        entity_index: entity_index as usize,
                    },
                ));
            }
        }
    }
}

/// What holds of every record of an arena sweep: it is a system record for
/// a live slot at or after `lo`, of a system that fires on that entity's
/// shape as it was when the sweep began.
pub open spec fn sweep_rec_ok<C, S>(
    arena: EntityArena<C>,
    bucket: Seq<System<S>>,
    key: Option<u64>,
    lo: int,
    r: UnitRun,
) -> bool {
    &&& r is SystemOnEntity
    &&& lo <= record_entity(r) < arena.slot_len()
    &&& arena.live(record_entity(r))
    &&& 0 <= record_index(r) < bucket.len()
    &&& system_fires(bucket[record_index(r)], key, arena.entity_at(record_entity(r)).shape())
}

/// An arena sweep holds exactly the system records of the live entities in
/// slot order — systems in registration order within one entity — and every
/// live entity a system fires on has its record.
pub proof fn lemma_arena_trace_members<C, S>(
    arena: EntityArena<C>,
    bucket: Seq<System<S>>,
    key: Option<u64>,
    i: int,
)
    requires
        0 <= i,
        bucket.len() <= usize::MAX,
        arena.slot_len() <= usize::MAX,
    ensures
        forall|p: int|
            0 <= p < arena_trace(arena, bucket, key, i).len() ==> sweep_rec_ok(
                arena,
                bucket,
                key,
                i,
                #[trigger] arena_trace(arena, bucket, key, i)[p],
            ),
        forall|p1: int, p2: int|
            0 <= p1 < p2 < arena_trace(arena, bucket, key, i).len() ==> record_entity(
                #[trigger] arena_trace(arena, bucket, key, i)[p1],
            ) <= record_entity(#[trigger] arena_trace(arena, bucket, key, i)[p2]),
        forall|p1: int, p2: int|
            0 <= p1 < p2 < arena_trace(arena, bucket, key, i).len() && record_entity(
                #[trigger] arena_trace(arena, bucket, key, i)[p1],
            ) == record_entity(#[trigger] arena_trace(arena, bucket, key, i)[p2]) ==> record_index(
                arena_trace(arena, bucket, key, i)[p1],
            ) < record_index(arena_trace(arena, bucket, key, i)[p2]),
        forall|e: int, jdx: int|
            i <= e < arena.slot_len() && arena.live(e) && 0 <= jdx < bucket.len() && system_fires(
                #[trigger] bucket[jdx],
                key,
                (#[trigger] arena.entity_at(e)).shape(),
            ) ==> arena_trace(arena, bucket, key, i).contains(
                UnitRun::SystemOnEntity { system_index: jdx as usize, entity_index: e as usize },
            ),
    decreases arena.slot_len() - i,
{
    if i < arena.slot_len() {
        lemma_arena_trace_members(arena, bucket, key, i + 1);
        let st = arena_trace(arena, bucket, key, i);
        let tail = arena_trace(arena, bucket, key, i + 1);
        let group: Seq<UnitRun> = if arena.live(i) {
            entity_plan(bucket, key, arena.entity_at(i).shape(), i, 0)
        } else {
            Seq::empty()
        };
        if arena.live(i) {
            lemma_entity_plan_members(bucket, key, arena.entity_at(i).shape(), i, 0);
        }
        assert(st == group + tail);
        assert forall|p: int| 0 <= p < st.len() implies sweep_rec_ok(
            arena,
            bucket,
            key,
            i,
            #[trigger] st[p],
        ) by {
            if p < group.len() {
                assert(st[p] == group[p]);
                assert(plan_rec_ok(bucket, key, arena.entity_at(i).shape(), i, 0, group[p]));
            } else {
                assert(st[p] == tail[p - group.len()]);
                assert(sweep_rec_ok(arena, bucket, key, i + 1, st[p]));
            }
        }
        assert forall|p1: int, p2: int| 0 <= p1 < p2 < st.len() implies record_entity(
            #[trigger] st[p1],
        ) <= record_entity(#[trigger] st[p2]) by {
            if p1 < group.len() {
                assert(record_entity(st[p1]) == i);
                if p2 < group.len() {
                } else {
                    assert(st[p2] == tail[p2 - group.len()]);
                    assert(sweep_rec_ok(arena, bucket, key, i + 1, st[p2]));
                }
            } else {
                assert(st[p1] == tail[p1 - group.len()]);
                assert(st[p2] == tail[p2 - group.len()]);
            }
        }
        assert forall|p1: int, p2: int|
            0 <= p1 < p2 < st.len() && record_entity(#[trigger] st[p1]) == record_entity(
                #[trigger] st[p2],
            ) implies record_index(st[p1]) < record_index(st[p2]) by {
            if p1 < group.len() && p2 < group.len() {
                assert(st[p1] == group[p1]);
                assert(st[p2] == group[p2]);
            } else if p1 >= group.len() && p2 >= group.len() {
                assert(st[p1] == tail[p1 - group.len()]);
                assert(st[p2] == tail[p2 - group.len()]);
            } else {
                assert(st[p1] == group[p1]);
                assert(record_entity(st[p1]) == i);
                assert(st[p2] == tail[p2 - group.len()]);
                assert(sweep_rec_ok(arena, bucket, key, i + 1, st[p2]));
                assert(record_entity(st[p2]) >= i + 1);
                assert(false);
            }
        }
        assert forall|e: int, jdx: int|
            i <= e < arena.slot_len() && arena.live(e) && 0 <= jdx < bucket.len() && system_fires(
                #[trigger] bucket[jdx],
                key,
                (#[trigger] arena.entity_at(e)).shape(),
            ) implies st.contains(
            UnitRun::SystemOnEntity { system_index: jdx as usize, entity_index: e as usize },
        ) by {
            let rec = UnitRun::SystemOnEntity {
                system_index: jdx as usize,
                entity_index: e as usize,
            };
            if e == i {
                assert(group.contains(rec));
                let w = choose|w: int| 0 <= w < group.len() && group[w] == rec;
                assert(st[w] == rec);
            } else {
                assert(tail.contains(rec));
                let w = choose|w: int| 0 <= w < tail.len() && tail[w] == rec;
                assert(st[w + group.len()] == rec);
            }
        }
    }
}

/// Dispatching the update channel with one key never invokes a unit
/// registered with a different key: every record of an Update dispatch
/// names a unit of the Update buckets whose key is exactly the dispatched
/// one.
pub proof fn lemma_update_key_gating<C, S, V>(
    runner: SystemRunner<S, V>,
    arena: EntityArena<C>,
    k: u64,
    p: int,
)
    requires
        0 <= p < dispatch_trace(runner, arena, SystemPhase::Update, Some(k)).len(),
        arena.slot_len() <= usize::MAX,
    ensures
        ({
            let r = dispatch_trace(runner, arena, SystemPhase::Update, Some(k))[p];
            match r {
                UnitRun::BeforeService { index } => (index as int) < runner.before_update@.len()
                    && runner.before_update@[index as int].update_key == Some(k),
                UnitRun::SystemOnEntity { system_index, entity_index } => (system_index as int)
                    < runner.update@.len() && runner.update@[system_index as int].update_key
                    == Some(k),
                UnitRun::AfterService { index } => (index as int) < runner.after_update@.len()
                    && runner.after_update@[index as int].update_key == Some(k),
            }
        }),
{
    broadcast use vstd::std_specs::vec::axiom_spec_len;

    let key = Some(k);
    let before = service_trace(runner.before_update@, key, ServicePhase::Before, 0);
    let sweep = arena_trace(arena, runner.update@, key, 0);
    let after = service_trace(runner.after_update@, key, ServicePhase::After, 0);
    let tr = dispatch_trace(runner, arena, SystemPhase::Update, key);
    assert(vstd::std_specs::vec::spec_vec_len(&runner.before_update)
        == runner.before_update@.len());
    assert(vstd::std_specs::vec::spec_vec_len(&runner.update) == runner.update@.len());
    assert(vstd::std_specs::vec::spec_vec_len(&runner.after_update)
        == runner.after_update@.len());
    lemma_service_trace_members(runner.before_update@, key, ServicePhase::Before, 0);
    lemma_arena_trace_members(arena, runner.update@, key, 0);
    lemma_service_trace_members(runner.after_update@, key, ServicePhase::After, 0);
    assert(tr == (before + sweep) + after);
    if p < before.len() {
        assert(tr[p] == before[p]);
        assert(service_rec_ok(runner.before_update@, key, ServicePhase::Before, 0, before[p]));
    } else if p < before.len() + sweep.len() {
        assert(tr[p] == sweep[p - before.len()]);
        assert(sweep_rec_ok(arena, runner.update@, key, 0, tr[p]));
    } else {
        assert(tr[p] == after[p - before.len() - sweep.len()]);
        assert(service_rec_ok(runner.after_update@, key, ServicePhase::After, 0, tr[p]));
    }
}

/// Units run in registration order within one dispatch: Before services
/// come first and in bucket order, then the entity sweep — entities in slot
/// order, and on one entity the systems in bucket order — then the After
/// services in bucket order.
pub proof fn lemma_registration_order<C, S, V>(
    runner: SystemRunner<S, V>,
    arena: EntityArena<C>,
    pk: SystemPhase,
    key: Option<u64>,
    p1: int,
    p2: int,
)
    requires
        0 <= p1 < p2 < dispatch_trace(runner, arena, pk, key).len(),
        arena.slot_len() <= usize::MAX,
    ensures
        ({
            let r1 = dispatch_trace(runner, arena, pk, key)[p1];
            let r2 = dispatch_trace(runner, arena, pk, key)[p2];
            &&& (r1 is AfterService ==> r2 is AfterService)
            &&& (r2 is BeforeService ==> r1 is BeforeService)
            &&& (r1 is BeforeService && r2 is BeforeService ==> record_index(r1) < record_index(
                r2,
            ))
            &&& (r1 is AfterService && r2 is AfterService ==> record_index(r1) < record_index(r2))
            &&& (r1 is SystemOnEntity && r2 is SystemOnEntity ==> record_entity(r1)
                <= record_entity(r2) && (record_entity(r1) == record_entity(r2) ==> record_index(
                r1,
            ) < record_index(r2)))
        }),
{
    broadcast use vstd::std_specs::vec::axiom_spec_len;

    let bb = runner.service_bucket(pk, ServicePhase::Before);
    let sb = runner.system_bucket(pk);
    let ab = runner.service_bucket(pk, ServicePhase::After);
    let before = service_trace(bb, key, ServicePhase::Before, 0);
    let sweep = arena_trace(arena, sb, key, 0);
    let after = service_trace(ab, key, ServicePhase::After, 0);
    let tr = dispatch_trace(runner, arena, pk, key);
    proof_bucket_len_bounds(runner, pk);
    lemma_service_trace_members(bb, key, ServicePhase::Before, 0);
    lemma_arena_trace_members(arena, sb, key, 0);
    lemma_service_trace_members(ab, key, ServicePhase::After, 0);
    assert(tr == (before + sweep) + after);
    let n1 = before.len() as int;
    let n2 = sweep.len() as int;
    assert forall|p: int| 0 <= p < tr.len() implies tr[p] == if p < n1 {
        before[p]
    } else if p < n1 + n2 {
        sweep[p - n1]
    } else {
        after[p - n1 - n2]
    } by {}
    if p1 < n1 {
        assert(service_rec_ok(bb, key, ServicePhase::Before, 0, tr[p1]));
        if p2 < n1 {
            assert(service_rec_ok(bb, key, ServicePhase::Before, 0, tr[p2]));
        } else if p2 < n1 + n2 {
            assert(sweep_rec_ok(arena, sb, key, 0, tr[p2]));
        } else {
            assert(service_rec_ok(ab, key, ServicePhase::After, 0, tr[p2]));
        }
    } else if p1 < n1 + n2 {
        assert(sweep_rec_ok(arena, sb, key, 0, tr[p1]));
        if p2 < n1 + n2 {
            assert(sweep_rec_ok(arena, sb, key, 0, tr[p2]));
        } else {
            assert(service_rec_ok(ab, key, ServicePhase::After, 0, tr[p2]));
        }
    } else {
        assert(service_rec_ok(ab, key, ServicePhase::After, 0, tr[p1]));
        assert(service_rec_ok(ab, key, ServicePhase::After, 0, tr[p2]));
    }
}

/// The buckets of a registration table always fit the machine's sizes.
proof fn proof_bucket_len_bounds<S, V>(runner: SystemRunner<S, V>, pk: SystemPhase)
    ensures
        runner.system_bucket(pk).len() <= usize::MAX,
        runner.service_bucket(pk, ServicePhase::Before).len() <= usize::MAX,
        runner.service_bucket(pk, ServicePhase::After).len() <= usize::MAX,
{
    broadcast use vstd::std_specs::vec::axiom_spec_len;

    assert(vstd::std_specs::vec::spec_vec_len(&runner.update) == runner.update@.len());
    assert(vstd::std_specs::vec::spec_vec_len(&runner.event) == runner.event@.len());
    assert(vstd::std_specs::vec::spec_vec_len(&runner.tick) == runner.tick@.len());
    assert(vstd::std_specs::vec::spec_vec_len(&runner.render) == runner.render@.len());
    assert(vstd::std_specs::vec::spec_vec_len(&runner.before_update)
        == runner.before_update@.len());
    assert(vstd::std_specs::vec::spec_vec_len(&runner.before_event) == runner.before_event@.len());
    assert(vstd::std_specs::vec::spec_vec_len(&runner.before_tick) == runner.before_tick@.len());
    assert(vstd::std_specs::vec::spec_vec_len(&runner.before_render)
        == runner.before_render@.len());
    assert(vstd::std_specs::vec::spec_vec_len(&runner.after_update) == runner.after_update@.len());
    assert(vstd::std_specs::vec::spec_vec_len(&runner.after_event) == runner.after_event@.len());
    assert(vstd::std_specs::vec::spec_vec_len(&runner.after_tick) == runner.after_tick@.len());
    assert(vstd::std_specs::vec::spec_vec_len(&runner.after_render) == runner.after_render@.len());
}

/// Every entity live when the dispatch begins is swept: if a system of the
/// dispatched phase fires on its shape, the dispatch runs that system on
/// that entity. An entity inserted before a dispatch is therefore part of
/// it; there is no snapshotting across calls.
pub proof fn lemma_dispatch_covers_live_entity<C, S, V>(
    runner: SystemRunner<S, V>,
    arena: EntityArena<C>,
    pk: SystemPhase,
    key: Option<u64>,
    e: int,
    j: int,
)
    requires
        0 <= e < arena.slot_len() <= usize::MAX,
        arena.live(e),
        0 <= j < runner.system_bucket(pk).len(),
        system_fires(runner.system_bucket(pk)[j], key, arena.entity_at(e).shape()),
    ensures
        dispatch_trace(runner, arena, pk, key).contains(
            UnitRun::SystemOnEntity { system_index: j as usize, entity_index: e as usize },
        ),
{
    let bb = runner.service_bucket(pk, ServicePhase::Before);
    let sb = runner.system_bucket(pk);
    let ab = runner.service_bucket(pk, ServicePhase::After);
    let before = service_trace(bb, key, ServicePhase::Before, 0);
    let sweep = arena_trace(arena, sb, key, 0);
    let after = service_trace(ab, key, ServicePhase::After, 0);
    let tr = dispatch_trace(runner, arena, pk, key);
    proof_bucket_len_bounds(runner, pk);
    lemma_arena_trace_members(arena, sb, key, 0);
    let rec = UnitRun::SystemOnEntity { system_index: j as usize, entity_index: e as usize };
    assert(sweep.contains(rec));
    let w = choose|w: int| 0 <= w < sweep.len() && sweep[w] == rec;
    assert(tr == (before + sweep) + after);
    assert(tr[before.len() + w] == rec);
}

/// A structural query returns exactly the live entities whose shape
/// includes the query, each by a handle that is valid now: `h` is in the
/// result of matching from slot `i` on iff its slot is at or after `i`, the
/// handle is valid, and the query's kinds are a subset of that entity's
/// shape.
pub proof fn lemma_query_exact_iff<C>(arena: EntityArena<C>, q: Set<u64>, i: int, h: Handle)
    requires
        0 <= i,
        arena.slot_len() <= usize::MAX,
    ensures
        matching_handles(arena, q, i).contains(h) <==> (i <= h.index < arena.slot_len()
            && arena.valid_handle(h) && q.subset_of(arena.entity_at(h.index as int).shape())),
    decreases arena.slot_len() - i,
{
    if i < arena.slot_len() {
        lemma_query_exact_iff(arena, q, i + 1, h);
        let st = matching_handles(arena, q, i);
        let tail = matching_handles(arena, q, i + 1);
        if arena.live(i) && q.subset_of(arena.entity_at(i).shape()) {
            let head = Handle { index: i as usize, generation: arena.gen_of(i) };
            assert(st == seq![head] + tail);
            if i <= h.index < arena.slot_len() && arena.valid_handle(h) && q.subset_of(
                arena.entity_at(h.index as int).shape(),
            ) {
                if h.index as int == i {
                    assert(h == head);
                    assert(st[0] == h);
                    assert(st.contains(h));
                } else {
                    assert(tail.contains(h));
                    let w = choose|w: int| 0 <= w < tail.len() && tail[w] == h;
                    assert(st[w + 1] == h);
                }
            }
            if st.contains(h) {
                let w = choose|w: int| 0 <= w < st.len() && st[w] == h;
                if w == 0 {
                    assert(h == head);
                } else {
                    assert(tail[w - 1] == h);
                    assert(tail.contains(h));
                }
            }
        } else {
            assert(st == tail);
            if i <= h.index < arena.slot_len() && arena.valid_handle(h) && q.subset_of(
                arena.entity_at(h.index as int).shape(),
            ) {
                assert(h.index as int != i);
            }
        }
    }
}

} // verus!
