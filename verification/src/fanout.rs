//! The fan-out of plugin outputs: for each slot the listeners registered for
//! its outputs, in the order in which they came.
use crate::envelope::PluginOutput;
use iced::futures::channel::mpsc::UnboundedReceiver;
use iced::futures::channel::mpsc::UnboundedSender;
use std::collections::HashMap;
use std::sync::Arc;
use std::sync::Mutex;
use std::sync::MutexGuard;
use vstd::prelude::*;

verus! {

/// The sending end of an unbounded channel of the `futures` crate.
#[verifier::external_type_specification]
#[verifier::external_body]
#[verifier::reject_recursive_types(T)]
pub struct ExUnboundedSender<T>(UnboundedSender<T>);

/// The receiving end of an unbounded channel of the `futures` crate.
#[verifier::external_type_specification]
#[verifier::external_body]
#[verifier::reject_recursive_types(T)]
pub struct ExUnboundedReceiver<T>(UnboundedReceiver<T>);

/// `std::sync::Mutex`.
#[verifier::external_type_specification]
#[verifier::external_body]
#[verifier::reject_recursive_types(T)]
pub struct ExMutex<T: ?Sized>(Mutex<T>);

/// `std::sync::MutexGuard`.
#[verifier::external_type_specification]
#[verifier::external_body]
#[verifier::reject_recursive_types(T)]
pub struct ExMutexGuard<'a, T: ?Sized + 'a>(MutexGuard<'a, T>);

/// The sending end of a listener's channel.
pub type Listener = UnboundedSender<PluginOutput>;

/// Whether `listener` sends to `receiver`, as `UnboundedSender::is_connected_to`
/// tells it.
pub uninterp spec fn connected(listener: Listener, receiver: UnboundedReceiver<PluginOutput>) -> bool;

/// The table that a mutex was made with.
pub uninterp spec fn made_with(shared: Mutex<ListenerTable>) -> ListenerTable;

/// `mpsc::unbounded`: a fresh channel, whose sending end sends to its
/// receiving end.
#[verifier::external_body]
fn open_channel() -> (ends: (Listener, UnboundedReceiver<PluginOutput>))
    ensures
        connected(ends.0, ends.1),
{
    iced::futures::channel::mpsc::unbounded()
}

/// `UnboundedSender::unbounded_send`, reduced to whether the message was
/// queued. It is not when the receiving end has gone; nothing here knows
/// beforehand whether it has. (The channel gives up with a panic once
/// `usize::MAX / 2` messages wait in it, which no machine has room for.)
#[verifier::external_body]
fn try_deliver(listener: &Listener, output: PluginOutput) -> (delivered: bool) {
    listener.unbounded_send(output).is_ok()
}

/// `taken` is what sending `output` to `listener` gave: whether the
/// listener's channel took it.
pub closed spec fn answered(listener: Listener, output: PluginOutput, taken: bool) -> bool {
    call_ensures(try_deliver, (&listener, output), taken)
}

/// Whether `outcomes` are what sending `output` to each of `listeners` gave,
/// listener by listener.
pub open spec fn sent_to_each(listeners: Seq<Listener>, output: PluginOutput, outcomes: Seq<bool>) -> bool {
    &&& outcomes.len() == listeners.len()
    &&& forall|k: int|
        0 <= k < listeners.len() ==> answered(#[trigger] listeners[k], output, outcomes[k])
}

/// One attempt to hand an output to a listener.
pub struct Delivery {
    /// The listener that was tried.
    pub listener: Listener,
    /// What was sent to it.
    pub output: PluginOutput,
    /// Whether the listener's channel took it.
    pub delivered: bool,
}

/// The listeners of `listeners` whose attempt, at the same position in
/// `outcomes`, succeeded; their order is kept.
pub open spec fn kept(listeners: Seq<Listener>, outcomes: Seq<bool>) -> Seq<Listener>
    decreases listeners.len(),
{
    if listeners.len() == 0 {
        Seq::empty()
    } else if outcomes.len() > 0 && outcomes.last() {
        kept(listeners.drop_last(), outcomes.drop_last()).push(listeners.last())
    } else {
        kept(listeners.drop_last(), outcomes.drop_last())
    }
}

/// One attempt for each of `listeners`, in their order, each with `output`
/// and with the outcome at the same position in `outcomes`.
pub open spec fn attempts(listeners: Seq<Listener>, output: PluginOutput, outcomes: Seq<bool>) -> Seq<
    Delivery,
> {
    Seq::new(
        listeners.len(),
        |k: int| Delivery { listener: listeners[k], output, delivered: outcomes[k] },
    )
}

/// The listeners registered under `slot`; none where the slot is unknown.
pub open spec fn listeners_of(table: Map<usize, Seq<Listener>>, slot: usize) -> Seq<Listener> {
    if table.contains_key(slot) {
        table[slot]
    } else {
        Seq::empty()
    }
}

/// The table after an output was published for `slot` with `outcomes`: the
/// listeners of that slot that failed are gone, every other slot is as it
/// was.
pub open spec fn published(table: Map<usize, Seq<Listener>>, slot: usize, outcomes: Seq<bool>) -> Map<
    usize,
    Seq<Listener>,
> {
    if table.contains_key(slot) {
        table.insert(slot, kept(table[slot], outcomes))
    } else {
        table
    }
}

/// What one publication did to the shared table: the listeners and the
/// deliveries on record when the lock was taken, whether each listener of
/// the slot took the output, and the listeners and the deliveries on record
/// when the lock was given back.
pub struct Publication {
    /// The slot for which the output was published.
    pub slot: usize,
    /// The output.
    pub output: PluginOutput,
    /// The listeners by slot, before.
    pub before: Map<usize, Seq<Listener>>,
    /// The deliveries on record, before.
    pub recorded_before: Seq<Delivery>,
    /// Whether each listener of the slot, in registration order, took the
    /// output.
    pub outcomes: Seq<bool>,
    /// The listeners by slot, after.
    pub after: Map<usize, Seq<Listener>>,
    /// The deliveries on record, after.
    pub recorded_after: Seq<Delivery>,
}

/// Whether `publication` is a publication of `output` for `slot`: the
/// output was sent once to each listener that the slot had, in registration
/// order, the outcomes are what those sends gave, and the listeners that
/// did not take it are gone.
pub open spec fn publishes(publication: Publication, slot: usize, output: PluginOutput) -> bool {
    &&& publication.slot == slot
    &&& publication.output == output
    &&& sent_to_each(listeners_of(publication.before, slot), output, publication.outcomes)
    &&& publication.after == published(publication.before, slot, publication.outcomes)
    &&& publication.recorded_after == publication.recorded_before + attempts(
        listeners_of(publication.before, slot),
        output,
        publication.outcomes,
    )
}

/// What becomes of a listener once the send to it is over: it stays, behind
/// those that stayed before it, if its channel took the output, and is
/// dropped if not.
pub fn keep_if_taken(remaining: &mut Vec<Listener>, listener: Listener, taken: bool)
    ensures
        final(remaining)@ == if taken {
            old(remaining)@.push(listener)
        } else {
            old(remaining)@
        },
{
    if taken {
        remaining.push(listener);
    }
}

/// The listeners of every slot, and the record of every delivery attempted so
/// far.
pub struct ListenerTable {
    listeners: HashMap<usize, Vec<Listener>>,
    log: Ghost<Seq<Delivery>>,
}

impl ListenerTable {
    /// The listeners by slot, each list in registration order. The record
    /// of the deliveries stands beside them, under
    /// [`ListenerTable::deliveries`].
    pub closed spec fn view(&self) -> Map<usize, Seq<Listener>> {
        Map::new(
            |slot: usize| self.listeners@.contains_key(slot),
            |slot: usize| self.listeners@[slot]@,
        )
    }

    /// Every delivery attempted so far, oldest first.
    pub closed spec fn deliveries(&self) -> Seq<Delivery> {
        self.log@
    }

    /// A table without listeners.
    pub fn new() -> (table: Self)
        ensures
            table@ == Map::<usize, Seq<Listener>>::empty(),
            table.deliveries() == Seq::<Delivery>::empty(),
    {
        let table = ListenerTable { listeners: HashMap::new(), log: Ghost(Seq::empty()) };
        assert(table@ =~= Map::<usize, Seq<Listener>>::empty());
        table
    }

    /// Registers `listener` as the last listener of `slot`.
    pub fn add(&mut self, slot: usize, listener: Listener)
        ensures
            final(self)@ == old(self)@.insert(slot, listeners_of(old(self)@, slot).push(listener)),
            final(self).deliveries() == old(self).deliveries(),
    {
        broadcast use vstd::std_specs::hash::group_hash_axioms;

        let mut list = match self.listeners.remove(&slot) {
            Some(list) => list,
            None => Vec::new(),
        };
        list.push(listener);
        self.listeners.insert(slot, list);
        assert(self@ =~= old(self)@.insert(slot, listeners_of(old(self)@, slot).push(listener)));
    }

    /// Sends a copy of `output` to every listener of `slot`, in registration
    /// order, and drops the listeners whose channel did not take it.
    ///
    /// `outcomes` tells, listener by listener, what the send gave: whether
    /// the channel took it.
    pub fn publish(&mut self, slot: usize, output: &PluginOutput) -> (outcomes: Ghost<Seq<bool>>)
        ensures
            sent_to_each(listeners_of(old(self)@, slot), *output, outcomes@),
            final(self)@ == published(old(self)@, slot, outcomes@),
            final(self).deliveries() == old(self).deliveries() + attempts(
                listeners_of(old(self)@, slot),
                *output,
                outcomes@,
            ),
    {
        broadcast use vstd::std_specs::hash::group_hash_axioms;

        match self.listeners.remove(&slot) {
            None => {
                assert(self@ =~= old(self)@);
                assert(self.deliveries() =~= old(self).deliveries() + attempts(
                    listeners_of(old(self)@, slot),
                    *output,
                    Seq::<bool>::empty(),
                ));
                Ghost(Seq::empty())
            },
            Some(list) => {
                let ghost before = self.log@;
                let ghost all = list@;
                let ghost mut outcomes: Seq<bool> = Seq::empty();
                let mut remaining: Vec<Listener> = Vec::new();
                for listener in walk: list
                    invariant
                        walk.seq() == all,
                        outcomes.len() == walk.index(),
                        forall|k: int|
                            0 <= k < outcomes.len() ==> answered(
                                #[trigger] all[k],
                                *output,
                                outcomes[k],
                            ),
                        remaining@ == kept(all.take(walk.index() as int), outcomes),
                        self.log@ == before + attempts(
                            all.take(walk.index() as int),
                            *output,
                            outcomes,
                        ),
                        self.listeners@ == old(self).listeners@.remove(slot),
                {
                    let delivered = try_deliver(&listener, output.clone());
                    proof {
                        let k = walk.index() as int;
                        let grown = outcomes.push(delivered);
                        let attempt = Delivery { listener, output: *output, delivered };
                        assert(all.take(k + 1).drop_last() =~= all.take(k));
                        assert(grown.drop_last() =~= outcomes);
                        assert(all.take(k + 1).last() == listener);
                        self.log@ = self.log@.push(attempt);
                        outcomes = grown;
                        assert(self.log@ =~= before + attempts(all.take(k + 1), *output, grown));
                    }
                    keep_if_taken(&mut remaining, listener, delivered);
                }
                assert(all.take(all.len() as int) =~= all);
                self.listeners.insert(slot, remaining);
                assert(self@ =~= published(old(self)@, slot, outcomes));
                Ghost(outcomes)
            },
        }
    }
}

/// `Mutex::new`: a mutex that starts out protecting `table`.
#[verifier::external_body]
fn guard_table(table: ListenerTable) -> (shared: Mutex<ListenerTable>)
    ensures
        made_with(shared) == table,
{
    Mutex::new(table)
}

/// `Arc::clone`: a second handle on the same allocation.
#[verifier::external_body]
fn share_table(shared: &Arc<Mutex<ListenerTable>>) -> (again: Arc<Mutex<ListenerTable>>)
    ensures
        again == *shared,
{
    Arc::clone(shared)
}

/// `Mutex::lock`, with a poisoned mutex reported as `None`. The table behind
/// the mutex is shared with every listener, so nothing is claimed of what it
/// holds when the lock is taken.
#[verifier::external_body]
fn lock_table<'a>(shared: &'a Mutex<ListenerTable>) -> (guard: Option<
    MutexGuard<'a, ListenerTable>,
>) {
    shared.lock().ok()
}

/// `drop` of the guard, which gives the lock back. That a guard was given
/// back is spoken of through [`released`].
#[verifier::external_body]
fn unlock_table(guard: MutexGuard<ListenerTable>) {
    drop(guard)
}

/// The lock was given back with `guard`: what `guard` protects is what the
/// lock was left with.
pub closed spec fn released(guard: MutexGuard<ListenerTable>) -> bool {
    call_ensures(unlock_table, (guard,), ())
}

/// The table that a guard protects.
pub uninterp spec fn guarded(guard: MutexGuard<ListenerTable>) -> ListenerTable;

/// `MutexGuard::deref_mut`: the table that the guard protects. Whatever the
/// reference is left with is what the guard protects afterwards.
#[verifier::external_body]
fn locked_table<'a, 'b>(guard: &'a mut MutexGuard<'b, ListenerTable>) -> (table:
    &'a mut ListenerTable)
    ensures
        *table == guarded(*old(guard)),
        *final(table) == guarded(*final(guard)),
{
    &mut **guard
}

/// Registers `listener` as the last listener of `slot` in the table that
/// `guard` protects.
pub fn register_locked(guard: &mut MutexGuard<ListenerTable>, slot: usize, listener: Listener)
    ensures
        guarded(*final(guard))@ == guarded(*old(guard))@.insert(
            slot,
            listeners_of(guarded(*old(guard))@, slot).push(listener),
        ),
        guarded(*final(guard)).deliveries() == guarded(*old(guard)).deliveries(),
{
    locked_table(guard).add(slot, listener);
}

/// Publishes `output` for `slot` on the table that `guard` protects, as
/// [`ListenerTable::publish`] does.
pub fn publish_locked(guard: &mut MutexGuard<ListenerTable>, slot: usize, output: &PluginOutput) -> (told:
    Ghost<Publication>)
    ensures
        publishes(told@, slot, *output),
        told@.before == guarded(*old(guard))@,
        told@.recorded_before == guarded(*old(guard)).deliveries(),
        told@.after == guarded(*final(guard))@,
        told@.recorded_after == guarded(*final(guard)).deliveries(),
{
    let table = locked_table(guard);
    let ghost before = table@;
    let ghost recorded_before = table.deliveries();
    let outcomes = table.publish(slot, output);
    Ghost(
        Publication {
            slot,
            output: *output,
            before,
            recorded_before,
            outcomes: outcomes@,
            after: table@,
            recorded_after: table.deliveries(),
        },
    )
}

/// The listener table, shared between the plugin manager, which publishes,
/// and every handle, through which listeners register.
pub struct OutputRegistry {
    shared: Arc<Mutex<ListenerTable>>,
}

impl OutputRegistry {
    /// The table that the registry started out with. What the table holds
    /// later is for whoever takes the lock to see.
    pub closed spec fn started_with(&self) -> ListenerTable {
        made_with(*self.shared)
    }

    /// A registry without listeners: it starts out with a table that holds
    /// no listener and has recorded no delivery.
    pub fn new() -> (registry: Self)
        ensures
            registry.started_with()@ == Map::<usize, Seq<Listener>>::empty(),
            registry.started_with().deliveries() == Seq::<Delivery>::empty(),
    {
        OutputRegistry { shared: Arc::new(guard_table(ListenerTable::new())) }
    }

    /// Opens a channel, registers its sending end as the last listener of
    /// `slot`, and returns its receiving end. Dropping the receiving end is
    /// how a listener leaves: the next output published for `slot` then
    /// prunes it.
    ///
    /// Where the lock is poisoned nothing is registered, and the receiving
    /// end that comes back is already closed.
    pub fn register(&self, slot: usize) -> (receiver: UnboundedReceiver<PluginOutput>)
        ensures
            registers(*self, slot, receiver),
    {
        let (listener, receiver) = open_channel();
        assert(connected(listener, receiver));
        let locked = lock_table(&self.shared);
        assert(locks(*self, locked));
        match locked {
            Some(guard) => {
                let mut guard = guard;
                let ghost before = guard;
                register_locked(&mut guard, slot, listener);
                let ghost after = guard;
                unlock_table(guard);
                assert(added(guarded(before), slot, listener, guarded(after)) && released(after));
            },
            None => {},
        }
        receiver
    }

    /// Publishes `output` to the listeners of `slot` as
    /// [`ListenerTable::publish`] does, on the table that the lock
    /// protects, gives the lock back with the table as the publication left
    /// it, and tells what it did. Where the lock is poisoned nothing is
    /// sent, and there is nothing to tell.
    pub fn publish(&self, slot: usize, output: &PluginOutput) -> (told: Ghost<Option<Publication>>)
        ensures
            exists|locked: Option<MutexGuard<ListenerTable>>|
                {
                    &&& #[trigger] locks(*self, locked)
                    &&& match locked {
                        Some(guard) => {
                            &&& told@ matches Some(publication)
                            &&& publishes(publication, slot, *output)
                            &&& publication.before == guarded(guard)@
                            &&& publication.recorded_before == guarded(guard).deliveries()
                            &&& exists|after: MutexGuard<ListenerTable>|
                                {
                                    &&& #[trigger] released(after)
                                    &&& publication.after == guarded(after)@
                                    &&& publication.recorded_after == guarded(after).deliveries()
                                }
                        },
                        None => told@ is None,
                    }
                },
    {
        let locked = lock_table(&self.shared);
        assert(locks(*self, locked));
        match locked {
            Some(guard) => {
                let mut guard = guard;
                let told = publish_locked(&mut guard, slot, output);
                let ghost after = guard;
                unlock_table(guard);
                assert(released(after));
                Ghost(Some(told@))
            },
            None => Ghost(None),
        }
    }
}

/// `locked` is what taking the lock of `registry` gave: the guard of the
/// shared table, or nothing where the lock is poisoned.
pub closed spec fn locks(registry: OutputRegistry, locked: Option<MutexGuard<ListenerTable>>) -> bool {
    call_ensures(lock_table, (&*registry.shared,), locked)
}

/// The table `after` is the table `before` with `listener` registered as
/// the last listener of `slot`.
pub open spec fn added(before: ListenerTable, slot: usize, listener: Listener, after: ListenerTable) -> bool {
    &&& after@ == before@.insert(slot, listeners_of(before@, slot).push(listener))
    &&& after.deliveries() == before.deliveries()
}

/// Whether `receiver` is what registering a listener for `slot` with
/// `registry` gave: the receiving end of a channel whose sending end, where
/// the lock of the registry could be taken, became the last listener of
/// `slot` in the shared table; the lock was given back with the table in
/// that state.
pub open spec fn registers(
    registry: OutputRegistry,
    slot: usize,
    receiver: UnboundedReceiver<PluginOutput>,
) -> bool {
    exists|listener: Listener, locked: Option<MutexGuard<ListenerTable>>|
        #![trigger connected(listener, receiver), locks(registry, locked)]
        {
            &&& connected(listener, receiver)
            &&& locks(registry, locked)
            &&& locked matches Some(guard) ==> exists|after: MutexGuard<ListenerTable>|
                added(guarded(guard), slot, listener, guarded(after)) && #[trigger] released(after)
        }
}

/// Whether `told` is what the registry told of publishing `output` for
/// `slot`.
pub open spec fn told_by(
    registry: OutputRegistry,
    slot: usize,
    output: PluginOutput,
    told: Option<Publication>,
) -> bool {
    exists|given: Ghost<Option<Publication>>|
        given@ == told && #[trigger] call_ensures(
            OutputRegistry::publish,
            (&registry, slot, &output),
            given,
        )
}

impl Clone for OutputRegistry {
    fn clone(&self) -> (copy: Self)
        ensures
            copy == *self,
            copy.started_with() == self.started_with(),
    {
        OutputRegistry { shared: share_table(&self.shared) }
    }
}

} // verus!
