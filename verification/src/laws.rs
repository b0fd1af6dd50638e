//! What holds across calls: the laws that callers of the registrar and of the
//! handles may rely on.

use vstd::prelude::*;
use crate::calls::HostCallView;
use crate::error::ShmemError;
use crate::handles::{HandleState, PgAtomic, PgLwLock};
use crate::host::{HostView, Phase};
use crate::names::{lemma_index_of_unique, lemma_push_fresh, valid_name};
use crate::shmem::{
    atomic_attached,
    attach_atomic_refusal,
    attach_locked_refusal,
    attached_host,
    request_atomic_refusal,
    request_locked_refusal,
};

verus! {

/// After the attach phase the slot of the declaration's name exists, keeps
/// its place among the slots that were there, and holds the default value;
/// every other slot holds what it held.
pub proof fn lemma_attach_writes_default(host: HostView, name: Seq<u8>, value: Seq<u8>)
    requires
        host.wf(),
        host.slot_refusal(name, value.len()) is None,
    ensures
        attached_host(host, name, value).wf(),
        attached_host(host, name, value).has_slot(name),
        attached_host(host, name, value).slot_value(name) == value,
        forall|other: Seq<u8>|
            other != name && host.has_slot(other) ==> #[trigger] attached_host(
                host,
                name,
                value,
            ).has_slot(other) && attached_host(host, name, value).slot_value(other)
                == host.slot_value(other),
{
    let located = host.located(name, value.len());
    let after = attached_host(host, name, value);
    if host.has_slot(name) {
    } else {
        lemma_push_fresh(host.slot_names, name);
    }
    let at = located.slot_names.index_of(name);
    assert(0 <= at < located.slot_names.len() && located.slot_names[at] == name);
    assert(after.slot_names == located.slot_names);
    assert forall|other: Seq<u8>| other != name && host.has_slot(other) implies after.has_slot(
        other,
    ) && after.slot_value(other) == host.slot_value(other) by {
        let k = host.slot_names.index_of(other);
        assert(0 <= k < host.slot_names.len() && host.slot_names[k] == other);
        assert(after.slot_names[k] == other);
        lemma_index_of_unique(after.slot_names, other, k);
    }
}

/// The attach phase of one declaration leaves every handle that was bound
/// before bound to the slot it was bound to.
pub proof fn lemma_attach_keeps_bindings(
    host: HostView,
    name: Seq<u8>,
    value: Seq<u8>,
    lock: PgLwLock,
    atomic: PgAtomic,
)
    requires
        host.wf(),
        host.slot_refusal(name, value.len()) is None,
    ensures
        lock.slot_in(host) is Some ==> lock.slot_in(attached_host(host, name, value))
            == lock.slot_in(host),
        atomic.slot_in(host) is Some ==> atomic.slot_in(attached_host(host, name, value))
            == atomic.slot_in(host),
{
    let located = host.located(name, value.len());
    if host.has_slot(name) {
    } else {
        lemma_push_fresh(host.slot_names, name);
    }
    let at = located.slot_names.index_of(name);
    assert(0 <= at < located.slot_names.len() && located.slot_names[at] == name);
}

/// A slot is made once. When a second process runs the attach phase for a
/// name, the host accepts it, finds the slot that the first one made, makes
/// no other and uses no more of the region; the slot then holds what the
/// second process wrote.
pub proof fn lemma_second_attach_allocates_nothing(
    host: HostView,
    name: Seq<u8>,
    first: Seq<u8>,
    second: Seq<u8>,
)
    requires
        host.wf(),
        host.slot_refusal(name, first.len()) is None,
        second.len() == first.len(),
    ensures
        ({
            let once = attached_host(host, name, first);
            let twice = attached_host(once, name, second);
            &&& once.slot_names.len() <= host.slot_names.len() + 1
            &&& once.slot_refusal(name, second.len()) is None
            &&& once.has_slot(name)
            &&& twice.slot_names == once.slot_names
            &&& twice.used == once.used
            &&& twice.slot_value(name) == second
        }),
{
    lemma_attach_writes_default(host, name, first);
    let once = attached_host(host, name, first);
    lemma_attach_writes_default(once, name, second);
}

/// The two phases run in order on a fresh host succeed for every declaration
/// with a valid name, and the value then read through the handle is the
/// default value.
pub proof fn lemma_two_phases_give_default(lock: PgLwLock)
    requires
        valid_name(lock.name@),
        lock.state == HandleState::Declared,
        lock.default_value@.len() <= usize::MAX,
    ensures
        request_locked_refusal(HostView::empty(), lock) is None,
        ({
            let requested = HostView::empty().with_bytes(lock.default_value@.len()).with_lock(
                lock.name@,
            );
            let asked = PgLwLock { state: HandleState::Requested, ..lock };
            let after = attached_host(requested.allocated(), lock.name@, lock.default_value@);
            &&& requested.wf()
            &&& attach_locked_refusal(requested.allocated(), asked) is None
            &&& after.wf()
            &&& after.slot_value(lock.name@) == lock.default_value@
        }),
{
    let empty = HostView::empty();
    assert(!empty.lock_names.contains(lock.name@));
    assert(!empty.slot_names.contains(lock.name@));
    let requested = empty.with_bytes(lock.default_value@.len()).with_lock(lock.name@);
    lemma_push_fresh(empty.lock_names, lock.name@);
    let ready = requested.allocated();
    assert(ready.slot_names == empty.slot_names);
    assert(!ready.has_slot(lock.name@));
    assert(ready.slot_refusal(lock.name@, lock.default_value@.len()) is None);
    lemma_attach_writes_default(ready, lock.name@, lock.default_value@);
}

/// Two handles bound in one host under one name are bound to one slot: what
/// one writes, the other reads, whatever stood there before.
pub proof fn lemma_write_is_visible(
    host: HostView,
    writer: PgLwLock,
    reader: PgLwLock,
    value: Seq<u8>,
)
    requires
        host.wf(),
        writer.name@ == reader.name@,
        writer.set_refusal(host, value) is None,
        reader.slot_in(host) is Some,
    ensures
        writer.slot_in(host) == reader.slot_in(host),
        ({
            let after = host.with_value_at(writer.slot_in(host).unwrap(), value);
            &&& after.wf()
            &&& reader.slot_in(after) == reader.slot_in(host)
            &&& after.slot_values[reader.slot_in(after).unwrap()] == value
            &&& after.slot_value(reader.name@) == value
        }),
{
    let w = writer.slot_in(host).unwrap();
    let r = reader.slot_in(host).unwrap();
    assert(host.slot_names[w] == host.slot_names[r]);
    let after = host.with_value_at(w, value);
    lemma_index_of_unique(after.slot_names, reader.name@, r);
}

/// A write through one handle leaves the value of every other name alone.
pub proof fn lemma_write_leaves_others(
    host: HostView,
    writer: PgLwLock,
    other: PgLwLock,
    value: Seq<u8>,
)
    requires
        host.wf(),
        writer.name@ != other.name@,
        writer.set_refusal(host, value) is None,
        other.slot_in(host) is Some,
    ensures
        ({
            let after = host.with_value_at(writer.slot_in(host).unwrap(), value);
            &&& other.slot_in(after) == other.slot_in(host)
            &&& after.slot_values[other.slot_in(after).unwrap()] == host.slot_values[other.slot_in(
                host,
            ).unwrap()]
        }),
{
}

/// Once the request phase has run for a name, it is refused as a duplicate
/// for every declaration of that name, the same one or another.
pub proof fn lemma_second_request_is_duplicate(host: HostView, first: PgLwLock, second: PgLwLock)
    requires
        host.wf(),
        request_locked_refusal(host, first) is None,
        second.name@ == first.name@,
    ensures
        ({
            let after = host.with_bytes(first.default_value@.len()).with_lock(first.name@);
            &&& after.wf()
            &&& request_locked_refusal(after, second) == Some(ShmemError::DuplicateName)
            &&& request_locked_refusal(
                after,
                (PgLwLock { state: HandleState::Requested, ..first }),
            ) == Some(ShmemError::DuplicateName)
        }),
{
    lemma_push_fresh(host.lock_names, first.name@);
}

/// A lock-free declaration is requested once: the second request is refused
/// as a duplicate.
pub proof fn lemma_second_atomic_request_is_duplicate(host: HostView, atomic: PgAtomic)
    requires
        host.wf(),
        request_atomic_refusal(host, atomic) is None,
    ensures
        request_atomic_refusal(
            host.with_bytes(atomic.default_value@.len()),
            (PgAtomic { state: HandleState::Requested, ..atomic }),
        ) == Some(ShmemError::DuplicateName),
{
}

/// The attach phase is refused wherever the request phase did not come
/// first: for a declaration that was never requested, for a name whose lock
/// the host does not know, and while the host still takes requests.
pub proof fn lemma_attach_needs_request(host: HostView, lock: PgLwLock, atomic: PgAtomic, id: Seq<u8>)
    requires
        host.wf(),
    ensures
        lock.state == HandleState::Declared ==> attach_locked_refusal(host, lock) == Some(
            ShmemError::NotRequested,
        ),
        lock.state == HandleState::Requested && !host.init_lock_held && !host.has_lock(lock.name@)
            ==> attach_locked_refusal(host, lock) == Some(ShmemError::NotRequested),
        host.phase == Phase::Requesting ==> attach_locked_refusal(host, lock) is Some,
        atomic.state == HandleState::Declared ==> attach_atomic_refusal(host, atomic, id) == Some(
            ShmemError::NotRequested,
        ),
        host.phase == Phase::Requesting ==> attach_atomic_refusal(host, atomic, id) is Some,
{
}

/// Two lock-free declarations attached under different identifiers are bound
/// to different slots, and attaching the second leaves the value of the
/// first alone.
pub proof fn lemma_distinct_identifiers_distinct_slots(
    host: HostView,
    first: PgAtomic,
    first_id: Seq<u8>,
    first_found: bool,
    middle: HostView,
    first_after: PgAtomic,
    second: PgAtomic,
    second_id: Seq<u8>,
    second_found: bool,
    last: HostView,
    second_after: PgAtomic,
)
    requires
        host.wf(),
        first_id != second_id,
        atomic_attached(host, first, first_id, Ok(first_found), middle, first_after),
        atomic_attached(middle, second, second_id, Ok(second_found), last, second_after),
    ensures
        first_after.state != second_after.state,
        first_after.slot_in(last) == first_after.slot_in(middle),
        last.slot_values[first_after.slot_in(last).unwrap()] == first.default_value@,
{
    lemma_attach_writes_default(host, first_id, first.default_value@);
    lemma_attach_writes_default(middle, second_id, second.default_value@);
    let i = middle.slot_names.index_of(first_id);
    let j = last.slot_names.index_of(second_id);
    assert(0 <= i < middle.slot_names.len() && middle.slot_names[i] == first_id);
    assert(0 <= j < last.slot_names.len() && last.slot_names[j] == second_id);
    assert(last.slot_names[i] == first_id);
}

/// The calls of the request phase, performed in order, are accepted wherever
/// the request phase is, and do what it does.
pub proof fn lemma_request_calls_do_the_request(host: HostView, lock: PgLwLock)
    requires
        host.wf(),
        request_locked_refusal(host, lock) is None,
    ensures
        ({
            let size = lock.default_value@.len();
            let bytes = HostCallView::ReserveBytes(size);
            let named = HostCallView::ReserveNamedLock(lock.name@);
            &&& bytes.refusal(host) is None
            &&& named.refusal(bytes.effect(host)) is None
            &&& named.effect(bytes.effect(host)) == host.with_bytes(size).with_lock(lock.name@)
        }),
{
}

/// The calls of the attach phase, performed in order with the place that the
/// lookup answered, are accepted wherever the attach phase is, and do what
/// it does: the slot holds the default value, and the lock that serialises
/// the phase is free again.
pub proof fn lemma_attach_calls_do_the_attach(host: HostView, name: Seq<u8>, value: Seq<u8>)
    requires
        host.wf(),
        !host.init_lock_held,
        host.slot_refusal(name, value.len()) is None,
    ensures
        ({
            let acquire = HostCallView::AcquireInitLock;
            let locate = HostCallView::FindOrCreateNamedSlot(name, value.len());
            let opened = acquire.effect(host);
            let located = locate.effect(opened);
            let write = HostCallView::WriteSlot(locate.answer(opened).unwrap().0, value);
            let written = write.effect(located);
            &&& acquire.refusal(host) is None
            &&& locate.refusal(opened) is None
            &&& locate.answer(opened).unwrap().1 == host.has_slot(name)
            &&& write.refusal(located) is None
            &&& HostCallView::ReleaseInitLock.refusal(written) is None
            &&& HostCallView::ReleaseInitLock.effect(written) == attached_host(host, name, value)
        }),
{
    let opened = host.with_init_lock(true);
    let located = opened.located(name, value.len());
    if host.has_slot(name) {
    } else {
        lemma_push_fresh(host.slot_names, name);
    }
    let at = located.slot_names.index_of(name);
    assert(0 <= at < located.slot_names.len() && located.slot_names[at] == name);
    assert(located.slot_names == host.located(name, value.len()).slot_names);
}

} // verus!
