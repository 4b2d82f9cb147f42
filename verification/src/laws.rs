//! What holds of routing and of the fan-out, whatever the plugins do.
use crate::envelope::wraps;
use crate::envelope::PluginMessage;
use crate::envelope::PluginOutput;
use crate::fanout::answered;
use crate::fanout::attempts;
use crate::fanout::sent_to_each;
use crate::fanout::kept;
use crate::fanout::listeners_of;
use crate::fanout::published;
use crate::fanout::publishes;
use crate::fanout::told_by;
use crate::fanout::Publication;
use crate::fanout::Delivery;
use crate::fanout::Listener;
use crate::handle::PluginHandle;
use crate::effect::addressed_task;
use crate::effect::batched_subscriptions;
use crate::envelope::Payload;
use crate::fanout::OutputRegistry;
use crate::manager::accepts;
use crate::manager::binds;
use crate::manager::built_from;
use crate::manager::erases;
use crate::manager::holds;
use crate::manager::installs;
use crate::manager::plugin_answers;
use crate::manager::plugin_named;
use crate::manager::plugin_owns;
use crate::manager::plugin_starts;
use crate::manager::plugin_takes;
use crate::manager::records;
use crate::manager::routed;
use crate::manager::slot_listens;
use crate::manager::starts_as;
use crate::manager::subscribed;
use crate::manager::updated;
use crate::manager::Sent;
use crate::manager::ErasedPlugin;
use crate::manager::ErasedState;
use crate::manager::Recorded;
use crate::manager::SlotView;
use crate::plugin::Plugin;
use iced::Subscription;
use iced::Task;
use vstd::prelude::*;

verus! {

/// Routing correctness. A message that a handle wrapped is taken by the
/// handle's slot and is a message of that slot's plugin: routing it counts
/// its payload, which wraps the plugin's message, as taken by that slot,
/// leaves every other slot as it was, state included, and leaves the handle
/// bound to its slot. What the slot's plugin makes of the message is the
/// subject of [`lemma_answer_is_the_plugins_update`].
pub proof fn lemma_handle_message_reaches_its_slot<P: Plugin + 'static>(
    before: Seq<SlotView>,
    registry: OutputRegistry,
    handle: PluginHandle<P>,
    plugin_message: P::Message,
    message: PluginMessage,
    after: Seq<SlotView>,
)
    requires
        binds(before, registry, handle),
        message.slot() == handle.slot(),
        message.type_tag() == handle.message_tag(),
        wraps(message.payload(), plugin_message),
        routed(before, message, after),
    ensures
        accepts(before, message),
        plugin_takes::<P>(message.payload()),
        after.len() == before.len(),
        after[handle.slot() as int].handled == before[handle.slot() as int].handled.push(
            message.payload(),
        ),
        wraps(after[handle.slot() as int].handled.last(), plugin_message),
        forall|j: int| 0 <= j < before.len() && j != handle.slot() ==> after[j] == before[j],
        binds(after, registry, handle),
{
}

/// What a slot answers is what its plugin's `update` returned. Where the
/// slot holds `plugin` and the payload wraps `plugin_message`, an answer of
/// the slot on a state of the plugin comes of one call of the plugin's
/// `update`: on a clone of `plugin_message` and on the state that the slot
/// held, which ends up as the call left it; the task of the answer is the
/// returned task addressed to the slot, its output the returned output with
/// its type erased.
pub proof fn lemma_answer_is_the_plugins_update<P: Plugin + 'static>(
    erased: (Box<dyn ErasedPlugin>,),
    plugin: P,
    plugin_index: usize,
    plugin_message: P::Message,
    message: Payload,
    result: (Task<PluginMessage>, Option<Payload>),
)
    requires
        erases(erased, plugin),
        wraps(message, plugin_message),
    ensures
        erased.0.takes(message),
        forall|target: &mut ErasedState|
            #![trigger erased.0.answers(plugin_index, target, message, result)]
            erased.0.answers(plugin_index, target, message, result) && erased.0.owns(*target)
                ==> exists|
                handed: P::Message,
                typed: &mut P::State,
                returned: (Task<P::Message>, Option<P::Output>),
            |
                #![trigger call_ensures(P::update, (&plugin, typed, handed), returned)]
                {
                    &&& cloned(plugin_message, handed)
                    &&& holds(*target, *typed)
                    &&& forall|other: P::State| #[trigger] holds(*target, other) ==> other == *typed
                    &&& holds(*final(target), *final(typed))
                    &&& call_ensures(P::update, (&plugin, typed, handed), returned)
                    &&& addressed_task(returned.0, plugin_index, result.0)
                    &&& match returned.1 {
                        Some(output) => result.1 matches Some(erased) && wraps(erased, output),
                        None => result.1 is None,
                    }
                },
{
    assert(plugin_takes::<P>(message));
    assert forall|target: &mut ErasedState|
        #![trigger erased.0.answers(plugin_index, target, message, result)]
        erased.0.answers(plugin_index, target, message, result) && erased.0.owns(
            *target,
        ) implies exists|
                handed: P::Message,
                typed: &mut P::State,
                returned: (Task<P::Message>, Option<P::Output>),
            |
                #![trigger call_ensures(P::update, (&plugin, typed, handed), returned)]
                {
                    &&& cloned(plugin_message, handed)
                    &&& holds(*target, *typed)
                    &&& forall|other: P::State| #[trigger] holds(*target, other) ==> other == *typed
                    &&& holds(*final(target), *final(typed))
                    &&& call_ensures(P::update, (&plugin, typed, handed), returned)
                    &&& addressed_task(returned.0, plugin_index, result.0)
                    &&& match returned.1 {
                        Some(output) => result.1 matches Some(erased) && wraps(erased, output),
                        None => result.1 is None,
                    }
                } by {
        assert(plugin_answers::<P>(plugin, plugin_index, target, message, result));
        assert(plugin_owns::<P>(*target));
    }
}

/// Type-tag isolation. A message whose tag is not the tag of the slot it is
/// addressed to, or that is addressed to no slot, changes nothing: every
/// slot, the addressed one included, keeps its state and has handled what it
/// had handled before.
pub proof fn lemma_mismatched_message_changes_nothing(
    before: Seq<SlotView>,
    message: PluginMessage,
    after: Seq<SlotView>,
)
    requires
        message.slot() < before.len() ==> before[message.slot() as int].message_tag
            != message.type_tag(),
        routed(before, message, after),
    ensures
        !accepts(before, message),
        after == before,
{
    assert(after =~= before);
}

/// Ordering of messages. Two messages for one slot, routed one after the
/// other, are taken by that slot in that order, and every other slot stays
/// as it was.
pub proof fn lemma_messages_are_handled_in_order(
    start: Seq<SlotView>,
    first: PluginMessage,
    between: Seq<SlotView>,
    second: PluginMessage,
    end: Seq<SlotView>,
)
    requires
        accepts(start, first),
        second.slot() == first.slot(),
        second.type_tag() == first.type_tag(),
        routed(start, first, between),
        routed(between, second, end),
    ensures
        accepts(between, second),
        end[first.slot() as int].handled == start[first.slot() as int].handled.push(
            first.payload(),
        ).push(second.payload()),
        forall|j: int| 0 <= j < start.len() && j != first.slot() ==> end[j] == start[j],
{
}

/// A slot's index is assigned once. Installing another plugin leaves every
/// slot that was there in its place and as it was, and leaves every handle
/// bound to the slot it was bound to.
pub proof fn lemma_install_keeps_slots_and_handles<Q: Plugin + 'static>(
    before: Seq<SlotView>,
    record: Recorded,
    after: Seq<SlotView>,
    task: Task<PluginMessage>,
    registry: OutputRegistry,
    handle: PluginHandle<Q>,
)
    requires
        installs(before, record, after, task),
        binds(before, registry, handle),
    ensures
        forall|j: int| 0 <= j < before.len() ==> after[j] == before[j],
        binds(after, registry, handle),
{
    assert forall|j: int| 0 <= j < before.len() implies after[j] == before[j] by {
        assert(after.drop_last()[j] == before[j]);
    }
}

/// A handle that the builder handed out is good for the manager that the
/// builder makes. Where `plugin` was recorded at `position`, the built
/// manager holds it in the slot `position`, under the name that it gives
/// itself; the slot starts with the state that the plugin's `init`
/// produced, its startup task is the task that the same `init` produced,
/// addressed to that slot; and a handle with that position, the record's
/// tags and the builder's registry is bound to that slot.
pub proof fn lemma_built_slot_is_the_recorded_plugin<P: Plugin + 'static>(
    recorded: Seq<Recorded>,
    position: int,
    plugin: P,
    registry: OutputRegistry,
    handle: PluginHandle<P>,
    slots: Seq<SlotView>,
    tasks: Seq<Task<PluginMessage>>,
)
    requires
        0 <= position < recorded.len(),
        records(recorded[position], plugin),
        handle.slot() == position,
        handle.message_tag() == recorded[position].message_tag,
        handle.output_tag() == recorded[position].output_tag,
        handle.registry() == registry,
        built_from(recorded, slots, tasks),
    ensures
        binds(slots, registry, handle),
        erases(slots[position].plugin, plugin),
        plugin_named(plugin, slots[position].name),
        plugin_starts(plugin, position as usize, slots[position].state, tasks[position]),
        plugin_owns::<P>(slots[position].state),
        slots[position].handled == Seq::<Payload>::empty(),
{
    assert(starts_as(recorded[position], position as usize, slots[position], tasks[position]));
}

/// Routing never adds, removes or reorders slots, and never changes the name
/// or the tags of a slot: a slot's index and what it accepts are fixed when
/// its plugin is installed.
pub proof fn lemma_routing_keeps_slots_in_place(
    before: Seq<SlotView>,
    message: PluginMessage,
    after: Seq<SlotView>,
)
    requires
        routed(before, message, after),
    ensures
        after.len() == before.len(),
        forall|j: int|
            0 <= j < before.len() ==> {
                &&& (#[trigger] after[j]).name == before[j].name
                &&& after[j].plugin_tag == before[j].plugin_tag
                &&& after[j].message_tag == before[j].message_tag
                &&& after[j].output_tag == before[j].output_tag
            },
{
}

/// Subscription merge idempotence. Where every slot holds a state of its
/// plugin, and what a plugin subscribes to depends on the plugin, its slot
/// and its state alone, two calls of `subscriptions` on the same slots give
/// the same subscription for every slot, in the same order, and each result
/// is the batch of those same parts.
pub proof fn lemma_subscriptions_agree_from_call_to_call(
    slots: Seq<SlotView>,
    first: Seq<Subscription<PluginMessage>>,
    first_merged: Subscription<PluginMessage>,
    second: Seq<Subscription<PluginMessage>>,
    second_merged: Subscription<PluginMessage>,
)
    requires
        forall|k: int| 0 <= k < slots.len() ==> (#[trigger] slots[k]).plugin.0.owns(slots[k].state),
        forall|k: int, one: Subscription<PluginMessage>, other: Subscription<PluginMessage>|
            #![trigger
                slots[k].plugin.0.listens(k as usize, slots[k].state, one),
                slots[k].plugin.0.listens(k as usize, slots[k].state, other),
            ]
            0 <= k < slots.len() && slots[k].plugin.0.listens(k as usize, slots[k].state, one)
                && slots[k].plugin.0.listens(k as usize, slots[k].state, other) ==> one == other,
        subscribed(slots, first),
        batched_subscriptions(first, first_merged),
        subscribed(slots, second),
        batched_subscriptions(second, second_merged),
    ensures
        first == second,
        batched_subscriptions(first, second_merged),
        batched_subscriptions(second, first_merged),
{
    assert forall|k: int| 0 <= k < slots.len() implies first[k] == second[k] by {
        assert(slot_listens(slots[k], k as usize, first[k]));
        assert(slot_listens(slots[k], k as usize, second[k]));
    }
    assert(first =~= second);
}

/// Output fan-out, seen from an update. Where an update got an output
/// from its plugin and the registry told what it did, the output was sent
/// once to each listener that the message's slot had, in registration
/// order, and what is on record of each attempt is what that send gave; the
/// listeners of that slot whose send was taken stay, in their order, and
/// the listeners of every other slot are as they were.
pub proof fn lemma_update_publishes_for_the_slot(
    before: Seq<Sent>,
    registry: OutputRegistry,
    message: PluginMessage,
    output: PluginOutput,
    after: Seq<Sent>,
    publication: Publication,
)
    requires
        updated(before, registry, message, Some(output), after),
        after.last().told == Some(publication),
    ensures
        publication.recorded_after == publication.recorded_before + attempts(
            listeners_of(publication.before, message.slot()),
            output,
            publication.outcomes,
        ),
        forall|k: int|
            0 <= k < listeners_of(publication.before, message.slot()).len() ==> {
                let attempt = #[trigger] attempts(
                    listeners_of(publication.before, message.slot()),
                    output,
                    publication.outcomes,
                )[k];
                &&& attempt.listener == listeners_of(publication.before, message.slot())[k]
                &&& attempt.output == output
                &&& attempt.delivered == publication.outcomes[k]
                &&& answered(attempt.listener, attempt.output, attempt.delivered)
            },
        sent_to_each(
            listeners_of(publication.before, message.slot()),
            output,
            publication.outcomes,
        ),
        listeners_of(publication.after, message.slot()) == kept(
            listeners_of(publication.before, message.slot()),
            publication.outcomes,
        ),
        forall|other: usize|
            other != message.slot() ==> listeners_of(publication.after, other) == listeners_of(
                publication.before,
                other,
            ),
{
    assert(told_by(registry, message.slot(), output, Some(publication)));
    assert(publishes(publication, message.slot(), output));
}

/// Output fan-out. Publishing an output for a slot tries each listener of
/// that slot exactly once, in registration order and with that output, and
/// touches the listeners of no other slot.
pub proof fn lemma_publish_reaches_each_listener_once(
    table: Map<usize, Seq<Listener>>,
    slot: usize,
    output: PluginOutput,
    outcomes: Seq<bool>,
)
    requires
        outcomes.len() == listeners_of(table, slot).len(),
    ensures
        attempts(listeners_of(table, slot), output, outcomes).len() == listeners_of(
            table,
            slot,
        ).len(),
        forall|k: int|
            0 <= k < listeners_of(table, slot).len() ==> {
                let attempt = #[trigger] attempts(listeners_of(table, slot), output, outcomes)[k];
                &&& attempt.listener == listeners_of(table, slot)[k]
                &&& attempt.output == output
                &&& attempt.delivered == outcomes[k]
            },
        forall|other: usize|
            other != slot ==> listeners_of(published(table, slot, outcomes), other)
                == listeners_of(table, other),
{
}

/// What stays after pruning is a selection of what was there: no more
/// listeners than before, in their old order, each of them one whose
/// delivery succeeded.
pub proof fn lemma_kept_selects_delivered(listeners: Seq<Listener>, outcomes: Seq<bool>)
    requires
        outcomes.len() == listeners.len(),
    ensures
        kept(listeners, outcomes).len() <= listeners.len(),
        forall|p: int|
            0 <= p < kept(listeners, outcomes).len() ==> exists|k: int|
                p <= k < listeners.len() && outcomes[k] && listeners[k] == #[trigger] kept(
                    listeners,
                    outcomes,
                )[p],
    decreases listeners.len(),
{
    if listeners.len() > 0 {
        let shorter = kept(listeners.drop_last(), outcomes.drop_last());
        lemma_kept_selects_delivered(listeners.drop_last(), outcomes.drop_last());
        let last = listeners.len() - 1;
        assert forall|p: int| 0 <= p < kept(listeners, outcomes).len() implies exists|k: int|
            p <= k < listeners.len() && outcomes[k] && listeners[k] == #[trigger] kept(
                listeners,
                outcomes,
            )[p] by {
            if p < shorter.len() {
                let k = choose|k: int|
                    p <= k < listeners.drop_last().len() && outcomes.drop_last()[k]
                        && listeners.drop_last()[k] == shorter[p];
                assert(outcomes[k] && listeners[k] == kept(listeners, outcomes)[p]);
            } else {
                assert(outcomes[last] && listeners[last] == kept(listeners, outcomes)[p]);
            }
        }
    }
}

/// Listener pruning. Where no listener occurs twice, a listener whose
/// delivery failed is not among those that stay: later outputs are not sent
/// to it.
pub proof fn lemma_failed_listener_is_pruned(
    listeners: Seq<Listener>,
    outcomes: Seq<bool>,
    failed: int,
)
    requires
        outcomes.len() == listeners.len(),
        listeners.no_duplicates(),
        0 <= failed < listeners.len(),
        !outcomes[failed],
    ensures
        !kept(listeners, outcomes).contains(listeners[failed]),
{
    lemma_kept_selects_delivered(listeners, outcomes);
    if kept(listeners, outcomes).contains(listeners[failed]) {
        let p = choose|p: int|
            0 <= p < kept(listeners, outcomes).len() && kept(listeners, outcomes)[p]
                == listeners[failed];
        let k = choose|k: int|
            p <= k < listeners.len() && outcomes[k] && listeners[k] == kept(listeners, outcomes)[p];
        assert(k != failed);
        assert(listeners[k] == listeners[failed]);
    }
}

/// Where every delivery succeeds nobody is pruned, and where every delivery
/// fails nobody stays.
pub proof fn lemma_kept_all_or_none(listeners: Seq<Listener>, outcomes: Seq<bool>)
    requires
        outcomes.len() == listeners.len(),
    ensures
        (forall|k: int| 0 <= k < outcomes.len() ==> outcomes[k]) ==> kept(listeners, outcomes)
            == listeners,
        (forall|k: int| 0 <= k < outcomes.len() ==> !outcomes[k]) ==> kept(listeners, outcomes).len()
            == 0,
    decreases listeners.len(),
{
    if listeners.len() > 0 {
        lemma_kept_all_or_none(listeners.drop_last(), outcomes.drop_last());
        if forall|k: int| 0 <= k < outcomes.len() ==> outcomes[k] {
            assert(outcomes.last());
            assert forall|k: int| 0 <= k < outcomes.drop_last().len() implies outcomes.drop_last()[k] by {
                assert(outcomes[k]);
            }
            assert(kept(listeners, outcomes) =~= listeners);
        }
        if forall|k: int| 0 <= k < outcomes.len() ==> !outcomes[k] {
            assert(!outcomes.last());
            assert forall|k: int| 0 <= k < outcomes.drop_last().len() implies !outcomes.drop_last()[k] by {
                assert(!outcomes[k]);
            }
        }
    } else {
        assert(kept(listeners, outcomes) =~= listeners);
    }
}

/// Ordering of outputs. Two outputs published for one slot, one after the
/// other, are tried in that order: in the record of deliveries every attempt
/// with the first output stands before every attempt with the second, and
/// the second is tried only with the listeners that took the first.
pub proof fn lemma_outputs_are_delivered_in_order(
    log: Seq<Delivery>,
    table: Map<usize, Seq<Listener>>,
    slot: usize,
    first: PluginOutput,
    first_outcomes: Seq<bool>,
    second: PluginOutput,
    second_outcomes: Seq<bool>,
)
    requires
        first_outcomes.len() == listeners_of(table, slot).len(),
        second_outcomes.len() == listeners_of(published(table, slot, first_outcomes), slot).len(),
    ensures
        ({
            let first_round = attempts(listeners_of(table, slot), first, first_outcomes);
            let survivors = listeners_of(published(table, slot, first_outcomes), slot);
            let second_round = attempts(survivors, second, second_outcomes);
            let record = log + first_round + second_round;
            &&& survivors == kept(listeners_of(table, slot), first_outcomes)
            &&& forall|a: int|
                0 <= a < first_round.len() ==> (#[trigger] record[log.len() + a]).output == first
            &&& forall|b: int|
                0 <= b < second_round.len() ==> (#[trigger] record[log.len() + first_round.len()
                    + b]).output == second
        }),
{
    let listeners = listeners_of(table, slot);
    if !table.contains_key(slot) {
        assert(kept(listeners, first_outcomes) =~= listeners);
    }
}

/// Ordering of outputs at the listeners. Where two publications for one
/// slot follow each other on the shared table, with nothing done to the
/// table in between, the record holds the sends of the first output, then
/// the sends of the second; the second output is sent to exactly the
/// listeners that took the first, in their order, and each outcome on
/// record is what the send to that listener gave.
pub proof fn lemma_successive_publications_keep_order(
    first: Publication,
    second: Publication,
    slot: usize,
    earlier: PluginOutput,
    later: PluginOutput,
)
    requires
        publishes(first, slot, earlier),
        publishes(second, slot, later),
        second.before == first.after,
        second.recorded_before == first.recorded_after,
    ensures
        ({
            let listeners = listeners_of(first.before, slot);
            let survivors = kept(listeners, first.outcomes);
            &&& listeners_of(second.before, slot) == survivors
            &&& second.recorded_after == first.recorded_before + attempts(
                listeners,
                earlier,
                first.outcomes,
            ) + attempts(survivors, later, second.outcomes)
            &&& sent_to_each(listeners, earlier, first.outcomes)
            &&& sent_to_each(survivors, later, second.outcomes)
            &&& listeners_of(second.after, slot) == kept(survivors, second.outcomes)
        }),
{
    let listeners = listeners_of(first.before, slot);
    if !first.before.contains_key(slot) {
        assert(kept(listeners, first.outcomes) =~= listeners);
    }
}

} // verus!
