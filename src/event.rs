//! The native-event bridge's bookkeeping: the registry that routes a native
//! callback, identified only by the number it carries, back to the typed
//! callback registered under that number; and the decisions taken on a
//! registration's status and on each power message.
#![allow(non_camel_case_types)]
use vstd::prelude::*;

use crate::device::DeviceConnectionEvent;
use crate::error::AppError;
use crate::macos_bindings::{
    kIOMessageCanSystemSleep, kIOMessageSystemHasPoweredOn, kIOMessageSystemWillSleep,
};
use crate::power::PowerEvent;

verus! {

/// A payload that the bridge hands from a native callback to a typed one.
pub trait CallbackData {}

impl CallbackData for PowerEvent {}

impl CallbackData for DeviceConnectionEvent {}

/// The null port.
pub const MACH_PORT_NULL: u32 = 0;

/// What a native registration call returned.
#[derive(Clone, Copy, Debug, PartialEq, Eq, Structural)]
pub enum ListenResult {
    /// A connection port; the null port means failure.
    io_connect_t(u32),
    /// A kernel status; zero means success.
    kern_return_t(i32),
}

impl ListenResult {
    /// The registration succeeded.
    pub open spec fn spec_success(self) -> bool {
        match self {
            ListenResult::io_connect_t(port) => port != MACH_PORT_NULL,
            ListenResult::kern_return_t(k) => k == 0,
        }
    }

    /// Whether the registration succeeded: a port other than the null one,
    /// or a status of zero.
    pub fn success(&self) -> (r: bool)
        ensures
            r == self.spec_success(),
    {
        match self {
            ListenResult::io_connect_t(port) => *port != MACH_PORT_NULL,
            ListenResult::kern_return_t(k) => *k == 0,
        }
    }

    /// The port through which events are acknowledged: the one that
    /// registration returned, or the null port where it returned none.
    pub open spec fn spec_kernel_port(self) -> u32 {
        match self {
            ListenResult::io_connect_t(port) => port,
            ListenResult::kern_return_t(_) => MACH_PORT_NULL,
        }
    }

    /// What a listener start makes of the registration: the acknowledgment
    /// port, or `ListenerRegistrationFailed`, before any thread is started.
    pub fn registration(&self) -> (r: Result<u32, AppError>)
        ensures
            r is Ok <==> self.spec_success(),
            r matches Ok(p) ==> p == self.spec_kernel_port(),
            r matches Err(e) ==> e == AppError::ListenerRegistrationFailed,
    {
        if self.success() {
            match self {
                ListenResult::io_connect_t(port) => Ok(*port),
                ListenResult::kern_return_t(_) => Ok(MACH_PORT_NULL),
            }
        } else {
            Err(AppError::ListenerRegistrationFailed)
        }
    }
}

/// What to do with one power message.
#[derive(Clone, Copy, Debug, PartialEq, Eq, Structural)]
pub enum PowerMessageAction {
    /// Hand the event to the callback, then approve the power change through
    /// the acknowledgment port, whatever became of the callback.
    DeliverAndAcknowledge(PowerEvent),
    /// Hand the event to the callback; nothing is to be approved.
    Deliver(PowerEvent),
    /// Nothing to do.
    Ignore,
}

/// What a power message asks for: the two sleep messages must be approved
/// (a query gives `Unknown`, an announcement `Sleep`); power-on after
/// devices have power gives `Wake`; the rest need nothing.
pub open spec fn power_message_spec(message_type: u32) -> PowerMessageAction {
    if message_type == kIOMessageCanSystemSleep {
        PowerMessageAction::DeliverAndAcknowledge(PowerEvent::Unknown)
    } else if message_type == kIOMessageSystemWillSleep {
        PowerMessageAction::DeliverAndAcknowledge(PowerEvent::Sleep)
    } else if message_type == kIOMessageSystemHasPoweredOn {
        PowerMessageAction::Deliver(PowerEvent::Wake)
    } else {
        PowerMessageAction::Ignore
    }
}

/// What to do with a power message.
pub fn power_message_action(message_type: u32) -> (r: PowerMessageAction)
    ensures
        r == power_message_spec(message_type),
{
    if message_type == kIOMessageCanSystemSleep {
        PowerMessageAction::DeliverAndAcknowledge(PowerEvent::Unknown)
    } else if message_type == kIOMessageSystemWillSleep {
        PowerMessageAction::DeliverAndAcknowledge(PowerEvent::Sleep)
    } else if message_type == kIOMessageSystemHasPoweredOn {
        PowerMessageAction::Deliver(PowerEvent::Wake)
    } else {
        PowerMessageAction::Ignore
    }
}

/// A registry's contents, as (callback under each identifier, next
/// identifier to hand out), is consistent: identifiers start at 1 (0 is the
/// null user data) and every registered identifier is below the next one.
pub open spec fn registry_view_wf<C>(v: (Map<u64, C>, u64)) -> bool {
    &&& v.1 >= 1
    &&& forall|id: u64| #[trigger] v.0.contains_key(id) ==> id < v.1
}

/// One registration: the next identifier goes to the callback and the next
/// one after it is reserved; once identifiers run out, nothing changes and
/// none is handed out.
pub open spec fn register_step<C>(v: (Map<u64, C>, u64), callback: C) -> (
    (Map<u64, C>, u64),
    Option<u64>,
) {
    if v.1 == u64::MAX {
        (v, None)
    } else {
        ((v.0.insert(v.1, callback), (v.1 + 1) as u64), Some(v.1))
    }
}

/// Registrations one after another: the contents afterwards, and the
/// identifiers handed out, in order.
pub open spec fn registrations<C>(v: (Map<u64, C>, u64), callbacks: Seq<C>) -> (
    (Map<u64, C>, u64),
    Seq<u64>,
)
    decreases callbacks.len(),
{
    if callbacks.len() == 0 {
        (v, Seq::empty())
    } else {
        let (w, ids) = registrations(v, callbacks.drop_last());
        let (x, id) = register_step(w, callbacks.last());
        (
            x,
            match id {
                Some(i) => ids.push(i),
                None => ids,
            },
        )
    }
}

/// Registering callbacks one after another, as concurrent listener starts do
/// under the registry's lock, hands out distinct identifiers, in increasing
/// order, none of them registered before; each routes to its callback, and
/// while identifiers last every registration gets one.
pub proof fn lemma_registrations_distinct<C>(v: (Map<u64, C>, u64), callbacks: Seq<C>)
    requires
        registry_view_wf(v),
    ensures
        registry_view_wf(registrations(v, callbacks).0),
        registrations(v, callbacks).1.len() <= callbacks.len(),
        registrations(v, callbacks).0.1 == v.1 + registrations(v, callbacks).1.len(),
        forall|i: int|
            0 <= i < registrations(v, callbacks).1.len() ==> #[trigger] registrations(
                v,
                callbacks,
            ).1[i] == v.1 + i,
        registrations(v, callbacks).1.no_duplicates(),
        forall|i: int|
            0 <= i < registrations(v, callbacks).1.len() ==> !v.0.contains_key(
                #[trigger] registrations(v, callbacks).1[i],
            ),
        forall|i: int|
            0 <= i < registrations(v, callbacks).1.len() ==> registrations(
                v,
                callbacks,
            ).0.0.contains_key(#[trigger] registrations(v, callbacks).1[i]),
        v.1 + callbacks.len() <= u64::MAX ==> registrations(v, callbacks).1.len()
            == callbacks.len(),
        v.1 + callbacks.len() <= u64::MAX ==> forall|i: int|
            0 <= i < callbacks.len() ==> registrations(v, callbacks).0.0[#[trigger] registrations(
                v,
                callbacks,
            ).1[i]] == callbacks[i],
    decreases callbacks.len(),
{
    if callbacks.len() > 0 {
        let prev = callbacks.drop_last();
        lemma_registrations_distinct(v, prev);
        let (w, ids) = registrations(v, prev);
        let (x, id) = register_step(w, callbacks.last());
        let all = registrations(v, callbacks).1;
        if w.1 != u64::MAX {
            assert(all == ids.push(w.1));
            assert(!w.0.contains_key(w.1));
            assert forall|i: int| 0 <= i < all.len() implies #[trigger] all[i] == v.1 + i by {
                if i < ids.len() {
                    assert(all[i] == ids[i]);
                }
            }
            assert forall|i: int| 0 <= i < all.len() implies x.0.contains_key(#[trigger] all[i]) by {
                if i < ids.len() {
                    assert(all[i] == ids[i]);
                    assert(w.0.contains_key(ids[i]));
                }
            }
            if v.1 + callbacks.len() <= u64::MAX {
                assert forall|i: int| 0 <= i < callbacks.len() implies x.0[#[trigger] all[i]]
                    == callbacks[i] by {
                    if i < ids.len() {
                        assert(all[i] == ids[i]);
                        assert(prev[i] == callbacks[i]);
                        assert(ids[i] != w.1);
                    }
                }
            }
        }
    }
}

/// The callbacks of the native-event bridge, each under the identifier that
/// its native registration carries as user data.
pub struct CallbackRegistry<C> {
    entries: Vec<(u64, C)>,
    next_id: u64,
    callbacks: Ghost<Map<u64, C>>,
}

impl<C> View for CallbackRegistry<C> {
    type V = (Map<u64, C>, u64);

    closed spec fn view(&self) -> (Map<u64, C>, u64) {
        (self.callbacks@, self.next_id)
    }
}

impl<C> CallbackRegistry<C> {
    /// The entries hold exactly the registered callbacks, with identifiers
    /// in increasing order, all below the next one.
    pub closed spec fn wf(&self) -> bool {
        &&& self.next_id >= 1
        &&& forall|i: int|
            0 <= i < self.entries@.len() ==> #[trigger] self.entries@[i].0 < self.next_id
        &&& forall|i: int, j: int|
            0 <= i < j < self.entries@.len() ==> #[trigger] self.entries@[i].0
                < #[trigger] self.entries@[j].0
        &&& forall|id: u64|
            #[trigger] self.callbacks@.contains_key(id) <==> exists|i: int|
                0 <= i < self.entries@.len() && #[trigger] self.entries@[i].0 == id
        &&& forall|i: int|
            0 <= i < self.entries@.len() ==> self.callbacks@[#[trigger] self.entries@[i].0]
                == self.entries@[i].1
    }

    /// An empty registry; the first identifier it hands out is 1.
    pub fn new() -> (r: CallbackRegistry<C>)
        ensures
            r.wf(),
            r@ == (Map::<u64, C>::empty(), 1u64),
            registry_view_wf(r@),
    {
        CallbackRegistry { entries: Vec::new(), next_id: 1, callbacks: Ghost(Map::empty()) }
    }

    /// Registers a callback under a fresh identifier, which it returns; fails
    /// with `CallbackIdentifiersExhausted`, changing nothing, once the
    /// identifiers have run out.
    pub fn register(&mut self, callback: C) -> (r: Result<u64, AppError>)
        requires
            old(self).wf(),
        ensures
            final(self).wf(),
            registry_view_wf(final(self)@),
            final(self)@ == register_step(old(self)@, callback).0,
            match r {
                Ok(id) => register_step(old(self)@, callback).1 == Some(id),
                Err(e) => register_step(old(self)@, callback).1 is None && e
                    == AppError::CallbackIdentifiersExhausted,
            },
            r matches Ok(id) ==> !old(self)@.0.contains_key(id) && final(self)@.0.contains_key(id)
                && final(self)@.0[id] == callback,
    {
        assert(registry_view_wf(self@)) by {
            assert forall|id: u64| #[trigger] self.callbacks@.contains_key(id) implies id
                < self.next_id by {
                let i = choose|i: int|
                    0 <= i < self.entries@.len() && #[trigger] self.entries@[i].0 == id;
            }
        }
        if self.next_id == u64::MAX {
            return Err(AppError::CallbackIdentifiersExhausted);
        }
        let id = self.next_id;
        let ghost old_entries = self.entries@;
        self.callbacks = Ghost(self.callbacks@.insert(id, callback));
        self.entries.push((id, callback));
        self.next_id = id + 1;
        proof {
            assert(self.entries@ == old_entries.push((id, callback)));
            assert forall|k: u64| #[trigger] self.callbacks@.contains_key(k) <==> exists|i: int|
                0 <= i < self.entries@.len() && #[trigger] self.entries@[i].0 == k by {
                if self.callbacks@.contains_key(k) && k != id {
                    let i = choose|i: int| 0 <= i < old_entries.len() && #[trigger] old_entries[i].0 == k;
                    assert(self.entries@[i].0 == k);
                }
                if k == id {
                    assert(self.entries@[old_entries.len() as int].0 == k);
                }
            }
            assert forall|i: int| 0 <= i < self.entries@.len() implies self.callbacks@[
                #[trigger] self.entries@[i].0] == self.entries@[i].1 by {
                if i < old_entries.len() {
                    assert(self.entries@[i] == old_entries[i]);
                    assert(old_entries[i].0 < id);
                }
            }
            assert forall|k: u64| #[trigger] self.callbacks@.contains_key(k) implies k
                < self.next_id by {
                let i = choose|i: int| 0 <= i < self.entries@.len() && #[trigger] self.entries@[i].0 == k;
            }
        }
        Ok(id)
    }

    /// Removes the callback registered under `id`, if any. Identifiers are
    /// never handed out again, so a removed one stays unregistered.
    pub fn remove(&mut self, id: u64)
        requires
            old(self).wf(),
        ensures
            final(self).wf(),
            registry_view_wf(final(self)@),
            final(self)@ == (old(self)@.0.remove(id), old(self)@.1),
    {
        let mut i: usize = 0;
        while i < self.entries.len()
            invariant
                self.wf(),
                self@ == old(self)@,
                i <= self.entries@.len(),
                forall|j: int| 0 <= j < i ==> #[trigger] self.entries@[j].0 != id,
            decreases self.entries.len() - i,
        {
            if self.entries[i].0 == id {
                let ghost old_entries = self.entries@;
                let _ = self.entries.remove(i);
                self.callbacks = Ghost(self.callbacks@.remove(id));
                proof {
                    assert(self.entries@ == old_entries.remove(i as int));
                    assert forall|a: int, b: int|
                        0 <= a < b < self.entries@.len() implies #[trigger] self.entries@[a].0
                        < #[trigger] self.entries@[b].0 by {
                        if a >= i {
                            assert(old_entries[a + 1].0 < old_entries[b + 1].0);
                        } else if b >= i {
                            assert(old_entries[a].0 < old_entries[b + 1].0);
                        } else {
                            assert(old_entries[a].0 < old_entries[b].0);
                        }
                    }
                    assert forall|a: int| 0 <= a < self.entries@.len() implies #[trigger] self.entries@[a].0
                        < self.next_id by {
                        if a >= i {
                            assert(old_entries[a + 1].0 < self.next_id);
                        } else {
                            assert(old_entries[a].0 < self.next_id);
                        }
                    }
                    assert forall|k: u64| #[trigger] self.callbacks@.contains_key(k) <==> exists|a: int|
                        0 <= a < self.entries@.len() && #[trigger] self.entries@[a].0 == k by {
                        if self.callbacks@.contains_key(k) {
                            let a = choose|a: int|
                                0 <= a < old_entries.len() && #[trigger] old_entries[a].0 == k;
                            assert(a != i);
                            if a < i {
                                assert(self.entries@[a].0 == k);
                            } else {
                                assert(self.entries@[a - 1].0 == k);
                            }
                        }
                        if exists|a: int| 0 <= a < self.entries@.len() && #[trigger] self.entries@[a].0 == k {
                            let a = choose|a: int|
                                0 <= a < self.entries@.len() && #[trigger] self.entries@[a].0 == k;
                            if a < i {
                                assert(old_entries[a].0 == k);
                                assert(old_entries[a].0 < old_entries[i as int].0);
                            } else {
                                assert(old_entries[a + 1].0 == k);
                                assert(old_entries[i as int].0 < old_entries[a + 1].0);
                            }
                        }
                    }
                    assert forall|a: int| 0 <= a < self.entries@.len() implies self.callbacks@[
                        #[trigger] self.entries@[a].0] == self.entries@[a].1 by {
                        if a < i {
                            assert(old_entries[a].0 < old_entries[i as int].0);
                            assert(self.entries@[a] == old_entries[a]);
                        } else {
                            assert(old_entries[i as int].0 < old_entries[a + 1].0);
                            assert(self.entries@[a] == old_entries[a + 1]);
                        }
                    }
                    assert forall|k: u64| #[trigger] self.callbacks@.contains_key(k) implies k
                        < self.next_id by {
                        let a = choose|a: int|
                            0 <= a < self.entries@.len() && #[trigger] self.entries@[a].0 == k;
                    }
                }
                return;
            }
            i = i + 1;
        }
        proof {
            assert(!self.callbacks@.contains_key(id));
            assert(self.callbacks@.remove(id) =~= self.callbacks@);
            assert forall|k: u64| #[trigger] self.callbacks@.contains_key(k) implies k
                < self.next_id by {
                let a = choose|a: int|
                    0 <= a < self.entries@.len() && #[trigger] self.entries@[a].0 == k;
            }
        }
    }

    /// The callback registered under `refcon`; `CallbackNotFound` where none is.
    pub fn refcon_callback(&self, refcon: u64) -> (r: Result<&C, AppError>)
        requires
            self.wf(),
        ensures
            r is Ok <==> self@.0.contains_key(refcon),
            r matches Ok(c) ==> *c == self@.0[refcon],
            r matches Err(e) ==> e == AppError::CallbackNotFound(refcon),
    {
        let mut i: usize = 0;
        while i < self.entries.len()
            invariant
                self.wf(),
                i <= self.entries@.len(),
                forall|j: int| 0 <= j < i ==> #[trigger] self.entries@[j].0 != refcon,
            decreases self.entries.len() - i,
        {
            if self.entries[i].0 == refcon {
                assert(self.entries@[i as int].0 == refcon);
                return Ok(&self.entries[i].1);
            }
            i = i + 1;
        }
        Err(AppError::CallbackNotFound(refcon))
    }
}

} // verus!
