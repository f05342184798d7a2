//! The directory of live instances: registration, lookup, removal and the
//! health sweep that evicts instances whose probe fails.
use vstd::prelude::*;
use crate::clock::current_time;
use crate::model::{
    new_record, refreshed, snapshot_of, valid_timestamp, InstanceInfo, InstanceResult,
    HealthStatus, Timestamp,
};

verus! {

/// Why a registry operation was refused.
#[derive(Clone, Copy, Debug, PartialEq, Eq, Structural)]
pub enum RegistryError {
    AlreadyExists,
    NotFound,
}

/// Whether some record in `recs` has the identifier `id`.
pub open spec fn contains_id(recs: Seq<InstanceInfo>, id: Seq<char>) -> bool {
    exists|i: int| 0 <= i < recs.len() && recs[i].identifier@ == id
}

/// No two records share an identifier.
pub open spec fn unique_ids(recs: Seq<InstanceInfo>) -> bool {
    forall|i: int, j: int|
        0 <= i < j < recs.len() ==> recs[i].identifier@ != recs[j].identifier@
}

/// Every record's timestamps are representable.
pub open spec fn all_timestamps_valid(recs: Seq<InstanceInfo>) -> bool {
    forall|i: int| 0 <= i < recs.len() ==> (#[trigger] recs[i]).timestamps_valid()
}

/// `x` is the refreshed form of a record of `recs` whose probe answered.
pub open spec fn from_answered(recs: Seq<InstanceInfo>, alive: Seq<bool>, now: i64, x: InstanceInfo) -> bool {
    exists|j: int| 0 <= j < recs.len() && alive[j] && x == refreshed(#[trigger] recs[j], now)
}

/// `x` is an element of `s`.
pub open spec fn present(s: Seq<InstanceInfo>, x: InstanceInfo) -> bool {
    exists|k: int| 0 <= k < s.len() && #[trigger] s[k] == x
}

/// Each record a sweep keeps is the refreshed form of a record whose probe
/// answered, each record whose probe answered is kept, and distinct
/// identifiers stay distinct.
pub proof fn lemma_swept_members(recs: Seq<InstanceInfo>, alive: Seq<bool>, now: i64)
    requires
        alive.len() == recs.len(),
    ensures
        forall|k: int|
            0 <= k < swept(recs, alive, now).len() ==> from_answered(
                recs,
                alive,
                now,
                #[trigger] swept(recs, alive, now)[k],
            ),
        forall|j: int|
            0 <= j < recs.len() && alive[j] ==> present(
                swept(recs, alive, now),
                refreshed(#[trigger] recs[j], now),
            ),
        unique_ids(recs) ==> unique_ids(swept(recs, alive, now)),
    decreases recs.len(),
{
    if recs.len() > 0 {
        let pr = recs.drop_last();
        let pa = alive.drop_last();
        lemma_swept_members(pr, pa, now);
        let prev = swept(pr, pa, now);
        let sw = swept(recs, alive, now);
        let n = recs.len() - 1;
        assert forall|k: int| 0 <= k < sw.len() implies from_answered(recs, alive, now, #[trigger] sw[k]) by {
            if k < prev.len() {
                assert(from_answered(pr, pa, now, prev[k]));
                let j = choose|j: int| 0 <= j < pr.len() && pa[j] && prev[k] == refreshed(#[trigger] pr[j], now);
                assert(recs[j] == pr[j] && alive[j] == pa[j]);
            } else {
                assert(sw[k] == refreshed(recs[n], now));
            }
        }
        assert forall|j: int| 0 <= j < recs.len() && alive[j] implies present(
            sw, refreshed(#[trigger] recs[j], now)) by {
            if j < n {
                assert(recs[j] == pr[j] && alive[j] == pa[j]);
                assert(present(prev, refreshed(pr[j], now)));
                let k = choose|k: int| 0 <= k < prev.len() && #[trigger] prev[k] == refreshed(pr[j], now);
                assert(sw[k] == prev[k]);
            } else {
                assert(sw[sw.len() - 1] == refreshed(recs[n], now));
            }
        }
        if unique_ids(recs) {
            assert(unique_ids(pr));
            assert forall|a: int, b: int| 0 <= a < b < sw.len() implies
                sw[a].identifier@ != sw[b].identifier@ by {
                if b < prev.len() {
                    assert(sw[a] == prev[a] && sw[b] == prev[b]);
                } else {
                    assert(from_answered(pr, pa, now, prev[a]));
                    let j = choose|j: int| 0 <= j < pr.len() && pa[j] && prev[a] == refreshed(#[trigger] pr[j], now);
                    assert(sw[a] == prev[a]);
                    assert(recs[j] == pr[j]);
                }
            }
        }
    }
}

/// A sweep keeps identifiers distinct and timestamps representable.
pub proof fn lemma_swept_wf(recs: Seq<InstanceInfo>, alive: Seq<bool>, now: i64)
    requires
        alive.len() == recs.len(),
        unique_ids(recs),
        all_timestamps_valid(recs),
        valid_timestamp(now),
    ensures
        unique_ids(swept(recs, alive, now)),
        all_timestamps_valid(swept(recs, alive, now)),
{
    lemma_swept_members(recs, alive, now);
    let sw = swept(recs, alive, now);
    assert forall|k: int| 0 <= k < sw.len() implies (#[trigger] sw[k]).timestamps_valid() by {
        assert(from_answered(recs, alive, now, sw[k]));
        let j = choose|j: int| 0 <= j < recs.len() && alive[j] && sw[k] == refreshed(#[trigger] recs[j], now);
        assert(recs[j].timestamps_valid());
    }
}

/// Once a sweep has seen the probe of a record fail, that record's
/// identifier is gone: a lookup finds nothing and no listing shows it.
pub proof fn lemma_failed_probe_evicts(
    recs: Seq<InstanceInfo>,
    alive: Seq<bool>,
    now: i64,
    j: int,
)
    requires
        alive.len() == recs.len(),
        unique_ids(recs),
        0 <= j < recs.len(),
        !alive[j],
    ensures
        !contains_id(swept(recs, alive, now), recs[j].identifier@),
        query_result(swept(recs, alive, now), recs[j].identifier@) is None,
{
    lemma_swept_members(recs, alive, now);
    let sw = swept(recs, alive, now);
    if contains_id(sw, recs[j].identifier@) {
        let k = choose|k: int| 0 <= k < sw.len() && sw[k].identifier@ == recs[j].identifier@;
        assert(from_answered(recs, alive, now, sw[k]));
        let j2 = choose|j2: int| 0 <= j2 < recs.len() && alive[j2] && sw[k] == refreshed(#[trigger] recs[j2], now);
        assert(j2 != j);
        if j2 < j {
            assert(recs[j2].identifier@ != recs[j].identifier@);
        } else {
            assert(recs[j].identifier@ != recs[j2].identifier@);
        }
    }
}

/// The result of a listing holds only the instances whose probe answered in
/// the sweep it ran, each once, healthy.
pub proof fn lemma_listing_reflects_sweep(recs: Seq<InstanceInfo>, alive: Seq<bool>, now: i64)
    requires
        alive.len() == recs.len(),
        unique_ids(recs),
    ensures
        forall|k: int|
            0 <= k < swept(recs, alive, now).len() ==> exists|j: int|
                0 <= j < recs.len() && alive[j] && (#[trigger] swept(recs, alive, now)[k]).identifier
                    == recs[j].identifier && swept(recs, alive, now)[k].health_status
                    == HealthStatus::Healthy,
        forall|j: int|
            0 <= j < recs.len() && !alive[j] ==> !contains_id(
                swept(recs, alive, now),
                #[trigger] recs[j].identifier@,
            ),
        unique_ids(swept(recs, alive, now)),
{
    lemma_swept_members(recs, alive, now);
    assert forall|j: int| 0 <= j < recs.len() && !alive[j] implies !contains_id(
        swept(recs, alive, now),
        #[trigger] recs[j].identifier@,
    ) by {
        lemma_failed_probe_evicts(recs, alive, now, j);
    }
}

/// One registration of `id` at `addr` at `now`: the records after it and
/// whether it was accepted.
pub open spec fn register_step(
    recs: Seq<InstanceInfo>,
    id: String,
    addr: String,
    now: i64,
) -> (Seq<InstanceInfo>, bool) {
    if contains_id(recs, id@) {
        (recs, false)
    } else {
        (recs.push(new_record(id, addr, now)), true)
    }
}

/// Whether each of a run of registrations of `id`, one per address in
/// `addrs`, was accepted, in the order they took hold of the registry.
pub open spec fn register_outcomes(
    recs: Seq<InstanceInfo>,
    id: String,
    addrs: Seq<String>,
    now: i64,
) -> Seq<bool>
    decreases addrs.len(),
{
    if addrs.len() == 0 {
        Seq::empty()
    } else {
        let step = register_step(recs, id, addrs[0], now);
        seq![step.1] + register_outcomes(step.0, id, addrs.drop_first(), now)
    }
}

/// Of any run of registrations of one identifier, in whatever order they
/// take hold of the registry, exactly one is accepted when the identifier
/// was absent, and none when it was present.
pub proof fn lemma_single_registration_wins(
    recs: Seq<InstanceInfo>,
    id: String,
    addrs: Seq<String>,
    now: i64,
)
    ensures
        register_outcomes(recs, id, addrs, now).len() == addrs.len(),
        contains_id(recs, id@) ==> forall|i: int|
            0 <= i < addrs.len() ==> !(#[trigger] register_outcomes(recs, id, addrs, now)[i]),
        !contains_id(recs, id@) && addrs.len() > 0 ==> exists|w: int|
            0 <= w < addrs.len() && register_outcomes(recs, id, addrs, now)[w] && forall|i: int|
                0 <= i < addrs.len() && i != w ==> !(#[trigger] register_outcomes(
                    recs,
                    id,
                    addrs,
                    now,
                )[i]),
    decreases addrs.len(),
{
    if addrs.len() > 0 {
        let step = register_step(recs, id, addrs[0], now);
        lemma_single_registration_wins(step.0, id, addrs.drop_first(), now);
        let out = register_outcomes(recs, id, addrs, now);
        let rest = register_outcomes(step.0, id, addrs.drop_first(), now);
        assert(out == seq![step.1] + rest);
        if !contains_id(recs, id@) {
            let n = recs.len() as int;
            assert(step.0[n].identifier@ == id@);
            assert(contains_id(step.0, id@));
            assert forall|i: int| 0 <= i < addrs.len() && i != 0 implies !(#[trigger] out[i]) by {
                assert(out[i] == rest[i - 1]);
            }
            assert(out[0]);
        } else {
            assert forall|i: int| 0 <= i < addrs.len() implies !(#[trigger] out[i]) by {
                if i > 0 {
                    assert(out[i] == rest[i - 1]);
                }
            }
        }
    }
}

/// After a registration of an absent identifier, a lookup of it returns the
/// given address with status `Unknown`, and does so until a sweep runs.
pub proof fn lemma_register_then_query(recs: Seq<InstanceInfo>, id: String, addr: String, now: i64)
    requires
        unique_ids(recs),
        !contains_id(recs, id@),
    ensures
        register_step(recs, id, addr, now).1,
        query_result(register_step(recs, id, addr, now).0, id@) == Some(
            InstanceResult {
                identifier: id,
                server_address: addr,
                health_status: HealthStatus::Unknown,
                last_health_check: now,
            },
        ),
{
    let after = register_step(recs, id, addr, now).0;
    let n = recs.len() as int;
    assert(after[n].identifier@ == id@);
    let i = choose|i: int| 0 <= i < after.len() && after[i].identifier@ == id@;
    if i < n {
        assert(after[i] == recs[i]);
    }
}

/// Registering another identifier leaves the lookup of `id` as it was: a
/// fresh record stays `Unknown` at its address until a sweep.
pub proof fn lemma_query_stable_under_register(
    recs: Seq<InstanceInfo>,
    id: Seq<char>,
    other: String,
    addr: String,
    now: i64,
)
    requires
        unique_ids(recs),
        other@ != id,
    ensures
        query_result(register_step(recs, other, addr, now).0, id) == query_result(recs, id),
{
    let after = register_step(recs, other, addr, now).0;
    if register_step(recs, other, addr, now).1 {
        let n = recs.len() as int;
        assert(after[n].identifier@ == other@);
        if contains_id(recs, id) {
            let j = choose|j: int| 0 <= j < recs.len() && recs[j].identifier@ == id;
            assert(after[j] == recs[j]);
            let i = choose|i: int| 0 <= i < after.len() && after[i].identifier@ == id;
            assert(i < n);
            assert(after[i] == recs[i]);
            if i < j {
                assert(recs[i].identifier@ != recs[j].identifier@);
            } else if j < i {
                assert(recs[j].identifier@ != recs[i].identifier@);
            }
        } else {
            assert forall|i: int| 0 <= i < after.len() implies after[i].identifier@ != id by {
                if i < n {
                    assert(after[i] == recs[i]);
                }
            }
        }
    }
}

/// Unregistering another identifier leaves the lookup of `id` as it was.
pub proof fn lemma_query_stable_under_unregister(recs: Seq<InstanceInfo>, id: Seq<char>, k: int)
    requires
        unique_ids(recs),
        0 <= k < recs.len(),
        recs[k].identifier@ != id,
    ensures
        query_result(recs.remove(k), id) == query_result(recs, id),
{
    let after = recs.remove(k);
    if contains_id(recs, id) {
        let j = choose|j: int| 0 <= j < recs.len() && recs[j].identifier@ == id;
        assert(j != k);
        let j1 = if j < k { j } else { j - 1 };
        assert(after[j1] == recs[j]);
        let i = choose|i: int| 0 <= i < after.len() && after[i].identifier@ == id;
        let i0 = if i < k { i } else { i + 1 };
        assert(after[i] == recs[i0]);
        if i0 < j {
            assert(recs[i0].identifier@ != recs[j].identifier@);
        } else if j < i0 {
            assert(recs[j].identifier@ != recs[i0].identifier@);
        }
    } else {
        assert forall|i: int| 0 <= i < after.len() implies after[i].identifier@ != id by {
            let i0 = if i < k { i } else { i + 1 };
            assert(after[i] == recs[i0]);
        }
    }
}

/// After an identifier is unregistered, a lookup of it returns nothing.
pub proof fn lemma_unregister_then_query(recs: Seq<InstanceInfo>, id: Seq<char>, i: int)
    requires
        unique_ids(recs),
        0 <= i < recs.len(),
        recs[i].identifier@ == id,
    ensures
        query_result(recs.remove(i), id) is None,
{
    let after = recs.remove(i);
    assert forall|k: int| 0 <= k < after.len() implies after[k].identifier@ != id by {
        let k0 = if k < i { k } else { k + 1 };
        assert(after[k] == recs[k0]);
    }
}

/// The records left by a sweep at `now` in which the probe of `recs[i]`
/// answered `alive[i]`: those that answered, refreshed, in their order.
pub open spec fn swept(recs: Seq<InstanceInfo>, alive: Seq<bool>, now: i64) -> Seq<InstanceInfo>
    decreases recs.len(),
{
    if recs.len() == 0 {
        Seq::empty()
    } else {
        let prev = swept(recs.drop_last(), alive.drop_last(), now);
        if alive.last() {
            prev.push(refreshed(recs.last(), now))
        } else {
            prev
        }
    }
}

/// What a lookup of `id` returns.
pub open spec fn query_result(recs: Seq<InstanceInfo>, id: Seq<char>) -> Option<InstanceResult> {
    if contains_id(recs, id) {
        let i = choose|i: int| 0 <= i < recs.len() && recs[i].identifier@ == id;
        Some(snapshot_of(recs[i]))
    } else {
        None
    }
}

/// `alive` holds, for each record of `recs` in order, an answer `probe` may
/// give for its address.
pub open spec fn answered_by<P: Fn(&String) -> bool>(
    probe: &P,
    recs: Seq<InstanceInfo>,
    alive: Seq<bool>,
) -> bool {
    &&& alive.len() == recs.len()
    &&& forall|i: int| 0 <= i < alive.len() ==> probe.ensures((&recs[i].server_address,), alive[i])
}

/// Asks `probe` about each address, in order.
pub fn probe_all<P: Fn(&String) -> bool>(targets: &Vec<String>, probe: &P) -> (r: Vec<bool>)
    requires
        forall|a: &String| probe.requires((a,)),
    ensures
        r@.len() == targets@.len(),
        forall|i: int| 0 <= i < targets@.len() ==> probe.ensures((&targets@[i],), r@[i]),
{
    let mut r: Vec<bool> = Vec::new();
    let mut i: usize = 0;
    while i < targets.len()
        invariant
            i <= targets@.len(),
            r@.len() == i,
            forall|a: &String| probe.requires((a,)),
            forall|k: int| 0 <= k < i ==> probe.ensures((&targets@[k],), r@[k]),
        decreases targets@.len() - i,
    {
        let ok = probe(&targets[i]);
        r.push(ok);
        i = i + 1;
    }
    r
}

/// The in-memory directory of instances. Mutations take `&mut self`, so one
/// mutation excludes every other access for its whole duration.
pub struct InstanceManager {
    records: Vec<InstanceInfo>,
}

impl View for InstanceManager {
    type V = Seq<InstanceInfo>;

    closed spec fn view(&self) -> Seq<InstanceInfo> {
        self.records@
    }
}

impl InstanceManager {
    /// Identifiers are unique and every timestamp is representable.
    pub open spec fn wf(&self) -> bool {
        &&& unique_ids(self@)
        &&& all_timestamps_valid(self@)
    }

    pub fn new() -> (r: InstanceManager)
        ensures
            r@ == Seq::<InstanceInfo>::empty(),
            r.wf(),
    {
        InstanceManager { records: Vec::new() }
    }

    pub fn len(&self) -> (r: usize)
        ensures
            r == self@.len(),
    {
        self.records.len()
    }

    /// The position of the record with identifier `id`, if there is one.
    fn find(&self, id: &String) -> (r: Option<usize>)
        ensures
            match r {
                Some(i) => i < self@.len() && self@[i as int].identifier@ == id@,
                None => !contains_id(self@, id@),
            },
    {
        let mut i: usize = 0;
        while i < self.records.len()
            invariant
                i <= self@.len(),
                self.records@ == self@,
                forall|j: int| 0 <= j < i ==> self@[j].identifier@ != id@,
            decreases self@.len() - i,
        {
            if self.records[i].identifier == *id {
                return Some(i);
            }
            i = i + 1;
        }
        None
    }

    /// Adds a record for `identifier`, unless one exists already.
    pub fn register_instance(
        &mut self,
        identifier: String,
        server_address: String,
        now: Timestamp,
    ) -> (r: Result<(), RegistryError>)
        requires
            old(self).wf(),
            valid_timestamp(now),
        ensures
            final(self).wf(),
            final(self)@ == register_step(old(self)@, identifier, server_address, now).0,
            r is Ok == register_step(old(self)@, identifier, server_address, now).1,
            r is Err ==> r == Err::<(), RegistryError>(RegistryError::AlreadyExists),
            contains_id(final(self)@, identifier@),
    {
        match self.find(&identifier) {
            Some(_) => Err(RegistryError::AlreadyExists),
            None => {
                let rec = InstanceInfo {
                    identifier,
                    server_address,
                    registered_at: now,
                    last_ping: now,
                    health_status: HealthStatus::Unknown,
                    last_health_check: now,
                };
                self.records.push(rec);
                assert(self@[self@.len() - 1].identifier@ == identifier@);
                Ok(())
            },
        }
    }

    /// Removes the record for `identifier`.
    pub fn unregister_instance(&mut self, identifier: &String) -> (r: Result<(), RegistryError>)
        requires
            old(self).wf(),
        ensures
            final(self).wf(),
            !contains_id(old(self)@, identifier@) ==> r == Err::<(), RegistryError>(
                RegistryError::NotFound,
            ) && final(self)@ == old(self)@,
            contains_id(old(self)@, identifier@) ==> r is Ok && exists|i: int|
                0 <= i < old(self)@.len() && old(self)@[i].identifier@ == identifier@
                    && final(self)@ == old(self)@.remove(i),
            !contains_id(final(self)@, identifier@),
    {
        match self.find(identifier) {
            Some(i) => {
                let ghost before = self@;
                self.records.remove(i);
                assert forall|a: int, b: int| 0 <= a < b < self@.len() implies
                    self@[a].identifier@ != self@[b].identifier@ by {
                    let a0 = if a < i { a } else { a + 1 };
                    let b0 = if b < i { b } else { b + 1 };
                    assert(self@[a] == before[a0] && self@[b] == before[b0]);
                }
                assert forall|k: int| 0 <= k < self@.len() implies
                    self@[k].identifier@ != identifier@ by {
                    let k0 = if k < i { k } else { k + 1 };
                    assert(self@[k] == before[k0]);
                }
                assert forall|k: int| 0 <= k < self@.len() implies
                    (#[trigger] self@[k]).timestamps_valid() by {
                    let k0 = if k < i { k } else { k + 1 };
                    assert(self@[k] == before[k0]);
                }
                Ok(())
            },
            None => Err(RegistryError::NotFound),
        }
    }

    /// The snapshot of the record for `identifier`; probes nothing.
    pub fn query_instance(&self, identifier: &String) -> (r: Option<InstanceResult>)
        requires
            self.wf(),
        ensures
            r == query_result(self@, identifier@),
    {
        match self.find(identifier) {
            Some(i) => {
                let ghost j = choose|j: int|
                    0 <= j < self@.len() && self@[j].identifier@ == identifier@;
                assert(j == i);
                Some(self.records[i].snapshot())
            },
            None => None,
        }
    }

    /// Applies a sweep at `now` in which the probe of the `i`-th record
    /// answered `alive[i]`: records that answered become healthy, the
    /// others are removed.
    pub fn health_check_with(&mut self, alive: &Vec<bool>, now: Timestamp)
        requires
            old(self).wf(),
            valid_timestamp(now),
            alive@.len() == old(self)@.len(),
        ensures
            final(self).wf(),
            final(self)@ == swept(old(self)@, alive@, now),
    {
        let ghost recs = self@;
        let mut kept: Vec<InstanceInfo> = Vec::new();
        let mut i: usize = 0;
        while i < self.records.len()
            invariant
                i <= recs.len(),
                self@ == recs,
                self.records@ == recs,
                alive@.len() == recs.len(),
                kept@ == swept(recs.subrange(0, i as int), alive@.subrange(0, i as int), now),
            decreases recs.len() - i,
        {
            assert(recs.subrange(0, i + 1).drop_last() =~= recs.subrange(0, i as int));
            assert(alive@.subrange(0, i + 1).drop_last() =~= alive@.subrange(0, i as int));
            if alive[i] {
                kept.push(self.records[i].refreshed_at(now));
            }
            i = i + 1;
        }
        assert(recs.subrange(0, recs.len() as int) =~= recs);
        assert(alive@.subrange(0, recs.len() as int) =~= alive@);
        proof {
            lemma_swept_wf(recs, alive@, now);
        }
        self.records = kept;
    }

    /// The address of every record, in order: what a sweep probes.
    pub fn probe_targets(&self) -> (r: Vec<String>)
        ensures
            r@.len() == self@.len(),
            forall|i: int| 0 <= i < self@.len() ==> r@[i] == self@[i].server_address,
    {
        let mut r: Vec<String> = Vec::new();
        let mut i: usize = 0;
        while i < self.records.len()
            invariant
                i <= self@.len(),
                self.records@ == self@,
                r@.len() == i,
                forall|k: int| 0 <= k < i ==> r@[k] == self@[k].server_address,
            decreases self@.len() - i,
        {
            r.push(self.records[i].server_address.clone());
            i = i + 1;
        }
        r
    }

    /// Probes every record with `probe` and applies the sweep at `now`.
    /// The probe is any liveness check; whatever it answered, the registry
    /// is the sweep of those answers.
    pub fn health_check_at<P: Fn(&String) -> bool>(&mut self, probe: &P, now: Timestamp)
        requires
            old(self).wf(),
            valid_timestamp(now),
            forall|a: &String| probe.requires((a,)),
        ensures
            final(self).wf(),
            exists|alive: Seq<bool>|
                answered_by(probe, old(self)@, alive) && final(self)@ == swept(old(self)@, alive, now),
    {
        let targets = self.probe_targets();
        let alive = probe_all(&targets, probe);
        self.health_check_with(&alive, now);
    }

    /// One run of the periodic sweep: probes every record with `probe` and
    /// applies the outcome at the current time.
    pub fn health_check_all<P: Fn(&String) -> bool>(&mut self, probe: &P)
        requires
            old(self).wf(),
            forall|a: &String| probe.requires((a,)),
        ensures
            final(self).wf(),
            exists|alive: Seq<bool>, now: i64|
                valid_timestamp(now) && answered_by(probe, old(self)@, alive) && final(self)@
                    == swept(old(self)@, alive, now),
    {
        let now = current_time();
        self.health_check_at(probe, now);
    }

    /// Sweeps with the given answers, then returns the snapshot of every
    /// record left.
    pub fn list_instances_with(&mut self, alive: &Vec<bool>, now: Timestamp) -> (r: Vec<InstanceResult>)
        requires
            old(self).wf(),
            valid_timestamp(now),
            alive@.len() == old(self)@.len(),
        ensures
            final(self).wf(),
            final(self)@ == swept(old(self)@, alive@, now),
            r@ == final(self)@.map_values(|x: InstanceInfo| snapshot_of(x)),
    {
        self.health_check_with(alive, now);
        self.snapshots()
    }

    /// Snapshots of every record, in order.
    pub fn snapshots(&self) -> (r: Vec<InstanceResult>)
        ensures
            r@ == self@.map_values(|x: InstanceInfo| snapshot_of(x)),
    {
        let mut r: Vec<InstanceResult> = Vec::new();
        let mut i: usize = 0;
        while i < self.records.len()
            invariant
                i <= self@.len(),
                self.records@ == self@,
                r@ == self@.subrange(0, i as int).map_values(|x: InstanceInfo| snapshot_of(x)),
            decreases self@.len() - i,
        {
            r.push(self.records[i].snapshot());
            assert(self@.subrange(0, i + 1).map_values(|x: InstanceInfo| snapshot_of(x))
                =~= self@.subrange(0, i as int).map_values(|x: InstanceInfo| snapshot_of(x)).push(
                snapshot_of(self@[i as int]),
            ));
            i = i + 1;
        }
        assert(self@.subrange(0, self@.len() as int) =~= self@);
        r
    }
}

} // verus!
