use vstd::prelude::*;

use crate::ble::utils::ble_error::BleError;
use crate::ble::utils::ble_id::BleId;
use crate::ble::utils::service::{find_service, Service};

verus! {

/// Whether the service at `k` has the id `id` (ids compared as 128-bit UUIDs).
pub open spec fn has_id_at(s: Seq<Service>, k: int, id: BleId) -> bool {
    0 <= k < s.len() && s[k].id.uuid128() == id.uuid128()
}

/// No two services of the sequence have equal ids.
pub open spec fn distinct_ids(s: Seq<Service>) -> bool {
    forall|i: int, j: int|
        0 <= i < s.len() && 0 <= j < s.len() && i != j ==> #[trigger] s[i].id.uuid128()
            != #[trigger] s[j].id.uuid128()
}

/// The service set under `id`, if any.
pub open spec fn lookup(s: Seq<Service>, id: BleId) -> Option<Service> {
    if exists|k: int| has_id_at(s, k, id) {
        Some(s[choose|k: int| has_id_at(s, k, id)])
    } else {
        None
    }
}

/// The services after setting `service`: it replaces the service with the
/// same id, or goes at the end when there is none.
pub open spec fn spec_set(s: Seq<Service>, service: Service) -> Seq<Service> {
    if exists|k: int| has_id_at(s, k, service.id) {
        s.update(choose|k: int| has_id_at(s, k, service.id), service)
    } else {
        s.push(service)
    }
}

/// The services after removing the one set under `id`, if any.
pub open spec fn spec_remove(s: Seq<Service>, id: BleId) -> Seq<Service> {
    if exists|k: int| has_id_at(s, k, id) {
        s.remove(choose|k: int| has_id_at(s, k, id))
    } else {
        s
    }
}

/// With distinct ids, the service with a given id sits at one place only.
proof fn lemma_unique_position(s: Seq<Service>, id: BleId, k: int)
    requires
        distinct_ids(s),
        has_id_at(s, k, id),
    ensures
        (choose|j: int| has_id_at(s, j, id)) == k,
        lookup(s, id) == Some(s[k]),
{
    let c = choose|j: int| has_id_at(s, j, id);
    assert(has_id_at(s, c, id));
    if c != k {
        assert(s[c].id.uuid128() != s[k].id.uuid128());
    }
}

/// Setting a service makes a lookup of its id give it back, leaves the
/// lookups of every other id as they were, and keeps ids distinct; the
/// services grow by one exactly when none had that id.
pub proof fn lemma_get_after_set(s: Seq<Service>, service: Service, other: BleId)
    requires
        distinct_ids(s),
    ensures
        distinct_ids(spec_set(s, service)),
        lookup(spec_set(s, service), service.id) == Some(service),
        other.uuid128() != service.id.uuid128() ==> lookup(spec_set(s, service), other) == lookup(
            s,
            other,
        ),
        spec_set(s, service).len() == if lookup(s, service.id) is Some {
            s.len()
        } else {
            s.len() + 1
        },
{
    let t = spec_set(s, service);
    if exists|k: int| has_id_at(s, k, service.id) {
        let k = choose|k: int| has_id_at(s, k, service.id);
        lemma_unique_position(s, service.id, k);
        assert(t == s.update(k, service));
        assert forall|i: int, j: int|
            0 <= i < t.len() && 0 <= j < t.len() && i != j implies #[trigger] t[i].id.uuid128()
            != #[trigger] t[j].id.uuid128() by {
            assert(s[i].id.uuid128() != s[j].id.uuid128());
        }
        assert(has_id_at(t, k, service.id));
        lemma_unique_position(t, service.id, k);
        if other.uuid128() != service.id.uuid128() {
            if exists|j: int| has_id_at(s, j, other) {
                let j = choose|j: int| has_id_at(s, j, other);
                assert(j != k);
                assert(has_id_at(t, j, other));
                lemma_unique_position(s, other, j);
                lemma_unique_position(t, other, j);
            } else {
                assert forall|j: int| !has_id_at(t, j, other) by {
                    if has_id_at(t, j, other) {
                        assert(j != k);
                        assert(has_id_at(s, j, other));
                    }
                }
            }
        }
    } else {
        let n = s.len() as int;
        assert(t == s.push(service));
        assert forall|i: int, j: int|
            0 <= i < t.len() && 0 <= j < t.len() && i != j implies #[trigger] t[i].id.uuid128()
            != #[trigger] t[j].id.uuid128() by {
            if i == n {
                assert(!has_id_at(s, j, service.id));
            } else if j == n {
                assert(!has_id_at(s, i, service.id));
            } else {
                assert(s[i].id.uuid128() != s[j].id.uuid128());
            }
        }
        assert(has_id_at(t, n, service.id));
        lemma_unique_position(t, service.id, n);
        if other.uuid128() != service.id.uuid128() {
            if exists|j: int| has_id_at(s, j, other) {
                let j = choose|j: int| has_id_at(s, j, other);
                assert(has_id_at(t, j, other));
                lemma_unique_position(s, other, j);
                lemma_unique_position(t, other, j);
            } else {
                assert forall|j: int| !has_id_at(t, j, other) by {
                    if has_id_at(t, j, other) {
                        assert(j != n);
                        assert(has_id_at(s, j, other));
                    }
                }
            }
        }
    }
}

/// Removing a service makes a lookup of its id find nothing, leaves the
/// lookups of every other id as they were, and keeps ids distinct.
pub proof fn lemma_get_after_remove(s: Seq<Service>, id: BleId, other: BleId)
    requires
        distinct_ids(s),
    ensures
        distinct_ids(spec_remove(s, id)),
        lookup(spec_remove(s, id), id) is None,
        other.uuid128() != id.uuid128() ==> lookup(spec_remove(s, id), other) == lookup(s, other),
{
    let t = spec_remove(s, id);
    if exists|k: int| has_id_at(s, k, id) {
        let k = choose|k: int| has_id_at(s, k, id);
        lemma_unique_position(s, id, k);
        assert(t == s.remove(k));
        assert forall|i: int, j: int|
            0 <= i < t.len() && 0 <= j < t.len() && i != j implies #[trigger] t[i].id.uuid128()
            != #[trigger] t[j].id.uuid128() by {
            let si = if i < k {
                i
            } else {
                i + 1
            };
            let sj = if j < k {
                j
            } else {
                j + 1
            };
            assert(t[i] == s[si]);
            assert(t[j] == s[sj]);
            assert(s[si].id.uuid128() != s[sj].id.uuid128());
        }
        assert forall|j: int| !has_id_at(t, j, id) by {
            if has_id_at(t, j, id) {
                let sj = if j < k {
                    j
                } else {
                    j + 1
                };
                assert(t[j] == s[sj]);
                assert(s[sj].id.uuid128() != s[k].id.uuid128());
            }
        }
        if other.uuid128() != id.uuid128() {
            if exists|j: int| has_id_at(s, j, other) {
                let j = choose|j: int| has_id_at(s, j, other);
                assert(j != k);
                let tj = if j < k {
                    j
                } else {
                    j - 1
                };
                assert(t[tj] == s[j]);
                assert(has_id_at(t, tj, other));
                lemma_unique_position(s, other, j);
                lemma_unique_position(t, other, tj);
            } else {
                assert forall|j: int| !has_id_at(t, j, other) by {
                    if has_id_at(t, j, other) {
                        let sj = if j < k {
                            j
                        } else {
                            j + 1
                        };
                        assert(t[j] == s[sj]);
                        assert(has_id_at(s, sj, other));
                    }
                }
            }
        }
    }
}

/// A set of services, each id at most once, in the order in which they were
/// first set: the services that a beacon advertises, or that a server holds.
pub struct ServiceSet {
    services: Vec<Service>,
}

impl View for ServiceSet {
    type V = Seq<Service>;

    closed spec fn view(&self) -> Seq<Service> {
        self.services@
    }
}

impl ServiceSet {
    /// Every id is set at most once.
    pub closed spec fn wf(self) -> bool {
        distinct_ids(self.services@)
    }

    /// No services.
    pub fn new() -> (res: ServiceSet)
        ensures
            res.wf(),
            res@ == Seq::<Service>::empty(),
    {
        ServiceSet { services: Vec::new() }
    }

    /// The number of services set.
    pub fn len(&self) -> (n: usize)
        ensures
            n == self@.len(),
    {
        self.services.len()
    }

    /// The services set, in order.
    pub fn services(&self) -> (res: &Vec<Service>)
        ensures
            res@ == self@,
    {
        &self.services
    }

    /// Sets a service: it replaces the service with the same id, or is added
    /// at the end. Returns whether a service with that id was set before (then
    /// only its data needs advertising anew).
    pub fn set_service(&mut self, service: Service) -> (was_set: bool)
        requires
            old(self).wf(),
        ensures
            final(self).wf(),
            final(self)@ == spec_set(old(self)@, service),
            was_set == lookup(old(self)@, service.id) is Some,
    {
        let ghost id = service.id;
        proof {
            lemma_get_after_set(self.services@, service, id);
        }
        match find_service(&self.services, &service.id) {
            Some(k) => {
                proof {
                    lemma_unique_position(self.services@, id, k as int);
                }
                self.services.set(k, service);
                true
            },
            None => {
                self.services.push(service);
                false
            },
        }
    }

    /// Removes the service set under `id`. Returns whether there was one.
    pub fn remove_service(&mut self, id: &BleId) -> (removed: bool)
        requires
            old(self).wf(),
        ensures
            final(self).wf(),
            final(self)@ == spec_remove(old(self)@, *id),
            removed == lookup(old(self)@, *id) is Some,
    {
        proof {
            lemma_get_after_remove(self.services@, *id, *id);
        }
        match find_service(&self.services, id) {
            Some(k) => {
                proof {
                    lemma_unique_position(self.services@, *id, k as int);
                }
                self.services.remove(k);
                true
            },
            None => false,
        }
    }

    /// The service set under `id`, or `ServiceUnknown` when there is none.
    pub fn get_service(&self, id: &BleId) -> (res: Result<&Service, BleError>)
        requires
            self.wf(),
        ensures
            match res {
                Ok(s) => lookup(self@, *id) == Some(*s),
                Err(e) => e is ServiceUnknown && lookup(self@, *id) is None,
            },
    {
        match find_service(&self.services, id) {
            Some(k) => {
                proof {
                    lemma_unique_position(self.services@, *id, k as int);
                }
                Ok(&self.services[k])
            },
            None => Err(BleError::ServiceUnknown),
        }
    }

    /// The service whose data a beacon that cycles through its services
    /// advertises at turn `turn`: the services take turns in order.
    pub fn service_for_turn(&self, turn: usize) -> (res: &Service)
        requires
            self@.len() > 0,
        ensures
            *res == self@[turn_index(turn as int, 0, self@.len() as int)],
    {
        &self.services[turn % self.services.len()]
    }

    /// Round robin: over any `n` consecutive turns of a beacon with `n`
    /// services, each service is advertised exactly once. The turns
    /// `t, ..., t + n - 1` advertise services with pairwise distinct ids, and
    /// every service is advertised at one of them.
    pub proof fn lemma_turns_advertise_each_service_once(self, t: int)
        requires
            self.wf(),
            self@.len() > 0,
            t >= 0,
        ensures
            forall|k1: int, k2: int|
                0 <= k1 < self@.len() && 0 <= k2 < self@.len() && k1 != k2 ==> self@[#[trigger] turn_index(
                    t,
                    k1,
                    self@.len() as int,
                )].id.uuid128() != self@[#[trigger] turn_index(t, k2, self@.len() as int)].id.uuid128(),
            forall|i: int|
                #![trigger self@[i]]
                0 <= i < self@.len() ==> exists|k: int|
                    0 <= k < self@.len() && #[trigger] self@[turn_index(t, k, self@.len() as int)]
                        == self@[i],
    {
        let n = self@.len() as int;
        lemma_turn_indices(n, t);
        assert forall|i: int| #![trigger self@[i]] 0 <= i < n implies exists|k: int|
            0 <= k < n && #[trigger] self@[turn_index(t, k, n)] == self@[i] by {
            let k = turn_of(t, i, n);
            assert(0 <= k < n && turn_index(t, k, n) == i);
            assert(self@[turn_index(t, k, n)] == self@[i]);
        }
    }
}

/// The index among `n` services of the service that turn `t + k` advertises.
pub open spec fn turn_index(t: int, k: int, n: int) -> int {
    (t + k) % n
}

/// The offset from turn `t` of the turn that advertises the service at `i`.
pub open spec fn turn_of(t: int, i: int, n: int) -> int {
    if i >= t % n {
        i - t % n
    } else {
        i - t % n + n
    }
}

proof fn lemma_turn_indices(n: int, t: int)
    requires
        n > 0,
        t >= 0,
    ensures
        forall|k: int| 0 <= k < n ==> 0 <= #[trigger] turn_index(t, k, n) < n,
        forall|k1: int, k2: int|
            0 <= k1 < n && 0 <= k2 < n && k1 != k2 ==> #[trigger] turn_index(t, k1, n)
                != #[trigger] turn_index(t, k2, n),
        forall|i: int|
            0 <= i < n ==> 0 <= #[trigger] turn_of(t, i, n) < n && turn_index(t, turn_of(t, i, n), n)
                == i,
{
    assert forall|k: int| 0 <= k < n implies 0 <= #[trigger] turn_index(t, k, n) < n by {
        vstd::arithmetic::div_mod::lemma_fundamental_div_mod(t + k, n);
    }
    assert forall|k1: int, k2: int|
        0 <= k1 < n && 0 <= k2 < n && k1 != k2 implies #[trigger] turn_index(t, k1, n)
        != #[trigger] turn_index(t, k2, n) by {
        if turn_index(t, k1, n) == turn_index(t, k2, n) {
            vstd::arithmetic::div_mod::lemma_fundamental_div_mod(t + k1, n);
            vstd::arithmetic::div_mod::lemma_fundamental_div_mod(t + k2, n);
            let q1 = (t + k1) / n;
            let q2 = (t + k2) / n;
            assert(k1 - k2 == (q1 - q2) * n) by (nonlinear_arith)
                requires
                    t + k1 == n * q1 + (t + k1) % n,
                    t + k2 == n * q2 + (t + k2) % n,
                    (t + k1) % n == (t + k2) % n,
            ;
            assert(false) by (nonlinear_arith)
                requires
                    k1 - k2 == (q1 - q2) * n,
                    k1 != k2,
                    -n < k1 - k2 < n,
                    n > 0,
            ;
        }
    }
    assert forall|i: int| 0 <= i < n implies 0 <= #[trigger] turn_of(t, i, n) < n && turn_index(
        t,
        turn_of(t, i, n),
        n,
    ) == i by {
        vstd::arithmetic::div_mod::lemma_fundamental_div_mod(t, n);
        let q = t / n;
        let r = t % n;
        assert(0 <= r < n);
        if i >= r {
            assert(t + (i - r) == q * n + i) by (nonlinear_arith)
                requires
                    t == n * q + r,
            ;
            vstd::arithmetic::div_mod::lemma_fundamental_div_mod_converse(t + (i - r), n, q, i);
        } else {
            assert(t + (i - r + n) == (q + 1) * n + i) by (nonlinear_arith)
                requires
                    t == n * q + r,
            ;
            vstd::arithmetic::div_mod::lemma_fundamental_div_mod_converse(
                t + (i - r + n),
                n,
                q + 1,
                i,
            );
        }
    }
}

} // verus!
