//! The plugin manager: the ordered slots of installed plugins, and the
//! routing of messages to them.
use crate::effect::address;
use crate::effect::addressed_subscription;
use crate::effect::addressed_task;
use crate::effect::batched_subscriptions;
use crate::effect::merge;
use crate::effect::subscribe_for;
use crate::effect::no_subscription;
use crate::effect::no_task;
use crate::effect::subscription_units;
use crate::effect::task_units;
use crate::effect::total_subscription_units;
use crate::envelope::wrap;
use crate::envelope::wraps;
use crate::envelope::is_tag_of;
use crate::envelope::payload_ref;
use crate::envelope::same_tag;
use crate::envelope::type_tag;
use crate::envelope::Payload;
use crate::envelope::PluginMessage;
use crate::envelope::PluginOutput;
use crate::fanout::told_by;
use crate::fanout::Listener;
use crate::fanout::OutputRegistry;
use crate::fanout::Publication;
use crate::handle::PluginHandle;
use crate::plugin::Plugin;
use crate::text::same_text;
use iced::Subscription;
use iced::Task;
use std::any::Any;
use std::any::TypeId;
use vstd::prelude::*;

verus! {

/// The state of one plugin, with its concrete type erased.
///
/// Holds a `Box<dyn Any + Send>`. The contracts treat a state as an opaque
/// value: what it holds is spoken of through [`holds`], and reached through
/// `state_ref` and `state_mut`.
#[verifier::external_body]
pub struct ErasedState {
    inner: Box<dyn Any + Send>,
}

/// `Box::new` followed by the unsizing coercion to `dyn Any`. What the state
/// holds is spoken of through [`holds`].
#[verifier::external_body]
fn erase_state<S: Send + 'static>(state: S) -> (erased: ErasedState) {
    ErasedState { inner: Box::new(state) }
}

/// `state` is what erasing `value`, as a value of type `S`, produced.
pub closed spec fn holds<S: Send + 'static>(state: ErasedState, value: S) -> bool {
    call_ensures(erase_state::<S>, (value,), state)
}

/// `<dyn Any>::downcast_ref`: a state that holds `value` as an `S` hands that
/// same `value` back when asked for an `S`, and whatever comes back is what
/// the state holds.
#[verifier::external_body]
fn state_ref<S: Send + 'static>(state: &ErasedState) -> (found: Option<&S>)
    ensures
        forall|value: S| #[trigger] holds(*state, value) ==> found == Some(&value),
        found matches Some(typed) ==> holds(*state, *typed),
{
    state.inner.downcast_ref::<S>()
}

/// `<dyn Any>::downcast_mut`: as [`state_ref`], for writing. Where the state
/// is no `S` it stays as it is; where it is one, the erased state ends up
/// holding whatever the reference is left with.
#[verifier::external_body]
fn state_mut<S: Send + 'static>(state: &mut ErasedState) -> (found: Option<&mut S>)
    ensures
        forall|value: S|
            #[trigger] holds(*old(state), value) ==> (found matches Some(typed) && *typed == value),
        found matches Some(typed) ==> holds(*old(state), *typed) && holds(
            *final(state),
            *final(typed),
        ),
        found is None ==> *final(state) == *old(state),
{
    state.inner.downcast_mut::<S>()
}

/// Whether `message` is a message of a plugin of type `P`.
pub open spec fn plugin_takes<P: Plugin + 'static>(message: Payload) -> bool {
    exists|sent: P::Message| wraps(message, sent)
}

/// Whether `state` is a state of a plugin of type `P`.
pub open spec fn plugin_owns<P: Plugin + 'static>(state: ErasedState) -> bool {
    exists|current: P::State| holds(state, current)
}

/// Hands `message` to the `update` of `plugin` if it is a message of the
/// plugin and `state` a state of the plugin, and does nothing otherwise. The
/// plugin is handed a clone of the one message that the payload wraps and
/// the one state that `state` holds, which is left as the call leaves it;
/// the task that it returns comes back addressed to `plugin_index`, the
/// output with its type erased.
pub fn answer<P: Plugin + 'static>(
    plugin: &P,
    plugin_index: usize,
    state: &mut ErasedState,
    message: &Payload,
) -> (result: (Task<PluginMessage>, Option<Payload>))
    ensures
        plugin_takes::<P>(*message) && plugin_owns::<P>(*old(state)) ==> exists|
            sent: P::Message,
            handed: P::Message,
            target: &mut P::State,
            returned: (Task<P::Message>, Option<P::Output>),
        |
            #![trigger
                wraps(*message, sent),
                call_ensures(P::update, (plugin, target, handed), returned),
            ]
            {
                &&& wraps(*message, sent)
                &&& forall|other: P::Message| #[trigger] wraps(*message, other) ==> other == sent
                &&& cloned(sent, handed)
                &&& holds(*old(state), *target)
                &&& forall|other: P::State| #[trigger] holds(*old(state), other) ==> other == *target
                &&& holds(*final(state), *final(target))
                &&& call_ensures(P::update, (plugin, target, handed), returned)
                &&& addressed_task(returned.0, plugin_index, result.0)
                &&& match returned.1 {
                    Some(output) => result.1 matches Some(erased) && wraps(erased, output),
                    None => result.1 is None,
                }
            },
        plugin_owns::<P>(*old(state)) ==> plugin_owns::<P>(*final(state)),
        !(plugin_takes::<P>(*message) && plugin_owns::<P>(*old(state))) ==> *final(state) == *old(
            state,
        ) && task_units(result.0) == 0 && result.1 is None,
{
    match payload_ref::<P::Message>(message) {
        Some(typed_message) => match state_mut::<P::State>(state) {
            Some(typed_state) => {
                let (task, output) = plugin.update(typed_state, typed_message.clone());
                let task = address(task, plugin_index);
                let output = match output {
                    Some(output) => Some(wrap(output)),
                    None => None,
                };
                (task, output)
            },
            None => (no_task(), None),
        },
        None => (no_task(), None),
    }
}

/// Whether `result` is what comes of handing `message` to the `update` of
/// `plugin` on the state behind `target`, as [`answer`] does it.
pub open spec fn plugin_answers<P: Plugin + 'static>(
    plugin: P,
    plugin_index: usize,
    target: &mut ErasedState,
    message: Payload,
    result: (Task<PluginMessage>, Option<Payload>),
) -> bool {
    call_ensures(answer::<P>, (&plugin, plugin_index, target, &message), result)
}

/// Whether `subscription` is what `plugin` subscribes to in `state`: the
/// plugin's own subscription for that state, with `plugin_index` as part of
/// its identity and its messages addressed to that slot.
pub open spec fn plugin_listens<P: Plugin + 'static>(
    plugin: P,
    plugin_index: usize,
    state: ErasedState,
    subscription: Subscription<PluginMessage>,
) -> bool {
    exists|current: P::State, own: Subscription<P::Message>|
        #![trigger holds(state, current), call_ensures(P::subscription, (&plugin, &current), own)]
        {
            &&& holds(state, current)
            &&& call_ensures(P::subscription, (&plugin, &current), own)
            &&& addressed_subscription(own, plugin_index, subscription)
        }
}

/// Whether `state` and `task` are what `plugin` starts with in the slot
/// `plugin_index`: the state that its `init` produced, and the task that its
/// `init` produced, addressed to that slot.
pub open spec fn plugin_starts<P: Plugin + 'static>(
    plugin: P,
    plugin_index: usize,
    state: ErasedState,
    task: Task<PluginMessage>,
) -> bool {
    exists|start: (P::State, Task<P::Message>)|
        {
            &&& #[trigger] call_ensures(P::init, (&plugin,), start)
            &&& holds(state, start.0)
            &&& addressed_task(start.1, plugin_index, task)
        }
}

/// Whether `name` is the name that `plugin` gives itself.
pub open spec fn plugin_named<P: Plugin + 'static>(plugin: P, name: Seq<char>) -> bool {
    exists|given: &'static str| #[trigger] call_ensures(P::name, (&plugin,), given) && given@ == name
}

/// The operations of an installed plugin, with the plugin's own types out of
/// sight.
pub trait ErasedPlugin: Send + Sync {
    /// Whether `message` is a message of the plugin.
    spec fn takes(&self, message: Payload) -> bool;

    /// Whether `state` is a state of the plugin.
    spec fn owns(&self, state: ErasedState) -> bool;

    /// Whether `result` is what comes of handing `message` to the plugin's
    /// `update` on the state behind `target`.
    spec fn answers(
        &self,
        plugin_index: usize,
        target: &mut ErasedState,
        message: Payload,
        result: (Task<PluginMessage>, Option<Payload>),
    ) -> bool;

    /// Whether `subscription` is what the plugin subscribes to in `state`.
    spec fn listens(
        &self,
        plugin_index: usize,
        state: ErasedState,
        subscription: Subscription<PluginMessage>,
    ) -> bool;

    /// Whether `state` and `task` are what the plugin starts with in the
    /// slot `plugin_index`.
    spec fn starts(&self, plugin_index: usize, state: ErasedState, task: Task<PluginMessage>) -> bool;

    /// Whether `name` is the name that the plugin gives itself.
    spec fn named(&self, name: Seq<char>) -> bool;

    /// The name that the plugin gives itself.
    fn name(&self) -> (name: &'static str)
        ensures
            self.named(name@),
    ;

    /// Calls the plugin's `init`: the state that it produced, with its type
    /// erased, and the task that it produced, addressed to `plugin_index`.
    fn start(&self, plugin_index: usize) -> (started: (ErasedState, Task<PluginMessage>))
        ensures
            self.starts(plugin_index, started.0, started.1),
            self.owns(started.0),
    ;

    /// Hands `message` to the plugin's `update` if it is a message of the
    /// plugin and `state` a state of the plugin, and does nothing otherwise.
    /// The task that comes back addresses its messages to `plugin_index`.
    fn update(&self, plugin_index: usize, state: &mut ErasedState, message: &Payload) -> (result: (
        Task<PluginMessage>,
        Option<Payload>,
    ))
        ensures
            self.takes(*message) && self.owns(*old(state)) ==> exists|target: &mut ErasedState|
                {
                    &&& *target == *old(state)
                    &&& *final(target) == *final(state)
                    &&& #[trigger] self.answers(plugin_index, target, *message, result)
                },
            self.owns(*old(state)) ==> self.owns(*final(state)),
            !(self.takes(*message) && self.owns(*old(state))) ==> *final(state) == *old(state)
                && task_units(result.0) == 0 && result.1 is None,
    ;

    /// The plugin's subscription for `state`, its messages addressed to
    /// `plugin_index`; the empty subscription where `state` is no state of
    /// the plugin.
    fn subscription(&self, plugin_index: usize, state: &ErasedState) -> (subscription:
        Subscription<PluginMessage>)
        ensures
            self.owns(*state) ==> self.listens(plugin_index, *state, subscription),
            !self.owns(*state) ==> subscription_units(subscription) == 0,
    ;
}

/// A plugin together with the knowledge of its types.
struct Installed<P: Plugin> {
    plugin: P,
}

impl<P: Plugin + 'static> ErasedPlugin for Installed<P> {
    closed spec fn takes(&self, message: Payload) -> bool {
        plugin_takes::<P>(message)
    }

    closed spec fn owns(&self, state: ErasedState) -> bool {
        plugin_owns::<P>(state)
    }

    closed spec fn answers(
        &self,
        plugin_index: usize,
        target: &mut ErasedState,
        message: Payload,
        result: (Task<PluginMessage>, Option<Payload>),
    ) -> bool {
        plugin_answers::<P>(self.plugin, plugin_index, target, message, result)
    }

    closed spec fn listens(
        &self,
        plugin_index: usize,
        state: ErasedState,
        subscription: Subscription<PluginMessage>,
    ) -> bool {
        plugin_listens::<P>(self.plugin, plugin_index, state, subscription)
    }

    closed spec fn starts(&self, plugin_index: usize, state: ErasedState, task: Task<PluginMessage>) -> bool {
        plugin_starts::<P>(self.plugin, plugin_index, state, task)
    }

    closed spec fn named(&self, name: Seq<char>) -> bool {
        plugin_named::<P>(self.plugin, name)
    }

    fn name(&self) -> (name: &'static str) {
        self.plugin.name()
    }

    fn start(&self, plugin_index: usize) -> (started: (ErasedState, Task<PluginMessage>)) {
        let (state, task) = self.plugin.init();
        let ghost first = state;
        let state = erase_state(state);
        assert(holds(state, first));
        (state, address(task, plugin_index))
    }

    fn update(&self, plugin_index: usize, state: &mut ErasedState, message: &Payload) -> (result: (
        Task<PluginMessage>,
        Option<Payload>,
    )) {
        let result = answer(&self.plugin, plugin_index, state, message);
        proof {
            let target = choose|target: &mut ErasedState|
                *target == *old(state) && *final(target) == *final(state) && #[trigger] call_ensures(
                    answer::<P>,
                    (&self.plugin, plugin_index, target, message),
                    result,
                );
            assert(self.answers(plugin_index, target, *message, result));
        }
        result
    }

    fn subscription(&self, plugin_index: usize, state: &ErasedState) -> (subscription:
        Subscription<PluginMessage>) {
        match state_ref::<P::State>(state) {
            Some(typed_state) => subscribe_for(self.plugin.subscription(typed_state), plugin_index),
            None => no_subscription(),
        }
    }
}

/// Whether `erased` is `plugin` behind the erased interface: it takes the
/// messages and owns the states of a plugin of type `P`, and is named,
/// starts, answers and listens as `plugin` does.
pub open spec fn erases<P: Plugin + 'static>(erased: (Box<dyn ErasedPlugin>,), plugin: P) -> bool {
    &&& forall|message: Payload|
        #![trigger erased.0.takes(message)]
        erased.0.takes(message) == plugin_takes::<P>(message)
    &&& forall|state: ErasedState|
        #![trigger erased.0.owns(state)]
        erased.0.owns(state) == plugin_owns::<P>(state)
    &&& forall|name: Seq<char>|
        #![trigger erased.0.named(name)]
        erased.0.named(name) == plugin_named::<P>(plugin, name)
    &&& forall|plugin_index: usize, state: ErasedState, task: Task<PluginMessage>|
        #![trigger erased.0.starts(plugin_index, state, task)]
        erased.0.starts(plugin_index, state, task) == plugin_starts::<P>(
            plugin,
            plugin_index,
            state,
            task,
        )
    &&& forall|
        plugin_index: usize,
        target: &mut ErasedState,
        message: Payload,
        result: (Task<PluginMessage>, Option<Payload>),
    |
        #![trigger erased.0.answers(plugin_index, target, message, result)]
        erased.0.answers(plugin_index, target, message, result) == plugin_answers::<P>(
            plugin,
            plugin_index,
            target,
            message,
            result,
        )
    &&& forall|plugin_index: usize, state: ErasedState, subscription: Subscription<PluginMessage>|
        #![trigger erased.0.listens(plugin_index, state, subscription)]
        erased.0.listens(plugin_index, state, subscription) == plugin_listens::<P>(
            plugin,
            plugin_index,
            state,
            subscription,
        )
}

/// Puts `plugin` behind the erased interface. The box comes in a tuple of
/// one and stays in it wherever it goes.
fn erase_plugin<P: Plugin + 'static>(plugin: P) -> (erased: (Box<dyn ErasedPlugin>,))
    ensures
        erases(erased, plugin),
{
    (Box::new(Installed { plugin }),)
}

/// Records `plugin` for installation: the identifiers of its types, and the
/// plugin behind the erased interface. Nothing of the plugin is called.
pub(crate) fn record<P: Plugin + 'static>(plugin: P) -> (record: Recorded)
    ensures
        records(record, plugin),
{
    let plugin_tag = type_tag::<P>();
    let message_tag = type_tag::<P::Message>();
    let output_tag = type_tag::<P::Output>();
    let plugin = erase_plugin(plugin);
    Recorded { plugin_tag, message_tag, output_tag, plugin }
}

/// Holds a single plugin instance with its state and behavior.
struct PluginEntry {
    name: &'static str,
    state: ErasedState,
    plugin_type: TypeId,
    message_type_id: TypeId,
    output_type_id: TypeId,
    plugin: (Box<dyn ErasedPlugin>,),
    handled: Ghost<Seq<Payload>>,
}

/// What the contracts say of one slot.
pub struct SlotView {
    /// The name that the plugin gave itself.
    pub name: Seq<char>,
    /// The tag of the plugin's own type.
    pub plugin_tag: TypeId,
    /// The tag of the plugin's message type: the slot takes messages under
    /// this tag and no other.
    pub message_tag: TypeId,
    /// The tag of the plugin's output type.
    pub output_tag: TypeId,
    /// The plugin, its types out of sight.
    pub plugin: (Box<dyn ErasedPlugin>,),
    /// The plugin's state.
    pub state: ErasedState,
    /// The payload of every message that routing took for the slot, oldest
    /// first.
    pub handled: Seq<Payload>,
}

impl PluginEntry {
    /// The entry of a plugin that has handled nothing yet.
    fn new(
        name: &'static str,
        state: ErasedState,
        plugin_type: TypeId,
        message_type_id: TypeId,
        output_type_id: TypeId,
        plugin: (Box<dyn ErasedPlugin>,),
    ) -> (entry: Self)
        ensures
            entry.view() == (SlotView {
                name: name@,
                plugin_tag: plugin_type,
                message_tag: message_type_id,
                output_tag: output_type_id,
                plugin,
                state,
                handled: Seq::empty(),
            }),
    {
        PluginEntry {
            name,
            state,
            plugin_type,
            message_type_id,
            output_type_id,
            plugin,
            handled: Ghost(Seq::empty()),
        }
    }

    spec fn view(&self) -> SlotView {
        SlotView {
            name: self.name@,
            plugin_tag: self.plugin_type,
            message_tag: self.message_type_id,
            output_tag: self.output_type_id,
            plugin: self.plugin,
            state: self.state,
            handled: self.handled@,
        }
    }
}

/// Whether the slots take `message`: it is addressed to one of them, under
/// the tag of that slot's messages.
pub open spec fn accepts(slots: Seq<SlotView>, message: PluginMessage) -> bool {
    message.slot() < slots.len() && slots[message.slot() as int].message_tag == message.type_tag()
}

/// Whether the slots take `message` and the plugin of its slot can work on
/// it: the payload is a message of the plugin, and the slot's state a state
/// of the plugin.
pub open spec fn reaches(slots: Seq<SlotView>, message: PluginMessage) -> bool {
    accepts(slots, message) && slots[message.slot() as int].plugin.0.takes(message.payload())
        && slots[message.slot() as int].plugin.0.owns(slots[message.slot() as int].state)
}

/// The payload of an output, if there is an output.
pub open spec fn output_payload(output: Option<PluginOutput>) -> Option<Payload> {
    match output {
        Some(output) => Some(output.payload()),
        None => None,
    }
}

/// How routing `message` changes the slots. A message that the slots do not
/// take changes nothing. One that they take goes to its slot and to no
/// other: that slot keeps its name, tags and plugin and has taken one more
/// payload. Its state stays a state of its plugin, and stays as it is where
/// the payload is no message of the plugin.
pub open spec fn routed(before: Seq<SlotView>, message: PluginMessage, after: Seq<SlotView>) -> bool {
    &&& after.len() == before.len()
    &&& forall|j: int|
        0 <= j < before.len() && !(accepts(before, message) && j == message.slot()) ==> after[j]
            == before[j]
    &&& accepts(before, message) ==> {
        let target = message.slot() as int;
        &&& after[target].name == before[target].name
        &&& after[target].plugin_tag == before[target].plugin_tag
        &&& after[target].message_tag == before[target].message_tag
        &&& after[target].output_tag == before[target].output_tag
        &&& after[target].plugin == before[target].plugin
        &&& after[target].handled == before[target].handled.push(message.payload())
        &&& !reaches(before, message) ==> after[target].state == before[target].state
        &&& before[target].plugin.0.owns(before[target].state) ==> after[target].plugin.0.owns(
            after[target].state,
        )
    }
}

/// How an update that got `output` from routing `message` changes the
/// record of what was sent: with an output, the output is handed to the
/// registry for the message's slot and goes on record last; without one the
/// record stays as it is.
pub open spec fn updated(
    before: Seq<Sent>,
    registry: OutputRegistry,
    message: PluginMessage,
    output: Option<PluginOutput>,
    after: Seq<Sent>,
) -> bool {
    match output {
        Some(emitted) => {
            &&& after.len() == before.len() + 1
            &&& after.drop_last() == before
            &&& after.last().output == emitted
            &&& sent_for(after.last(), registry, message.slot())
        },
        None => after == before,
    }
}

/// The slots `after` are the slots `before` but for the state of the slot
/// `index`.
pub open spec fn rewritten(before: Seq<SlotView>, index: int, after: Seq<SlotView>) -> bool {
    &&& 0 <= index < before.len()
    &&& after.len() == before.len()
    &&& forall|j: int| 0 <= j < before.len() && j != index ==> after[j] == before[j]
    &&& after[index].name == before[index].name
    &&& after[index].plugin_tag == before[index].plugin_tag
    &&& after[index].message_tag == before[index].message_tag
    &&& after[index].output_tag == before[index].output_tag
    &&& after[index].plugin == before[index].plugin
    &&& after[index].handled == before[index].handled
}

/// A plugin that was handed in for installation, with the identifiers of its
/// types.
pub struct Recorded {
    /// The identifier of the plugin's own type.
    pub plugin_tag: TypeId,
    /// The identifier of the plugin's message type.
    pub message_tag: TypeId,
    /// The identifier of the plugin's output type.
    pub output_tag: TypeId,
    /// The plugin, its types out of sight.
    pub plugin: (Box<dyn ErasedPlugin>,),
}

/// Whether `record` is the record of `plugin`: it carries the identifiers of
/// the plugin's types and holds the plugin.
pub open spec fn records<P: Plugin + 'static>(record: Recorded, plugin: P) -> bool {
    &&& is_tag_of::<P>(record.plugin_tag)
    &&& is_tag_of::<P::Message>(record.message_tag)
    &&& is_tag_of::<P::Output>(record.output_tag)
    &&& erases(record.plugin, plugin)
}

/// Whether `slot` is the slot that installing `record` at `index` makes, and
/// `task` the startup task of that installation. The slot carries the
/// record's identifiers and plugin and the name that the plugin gives
/// itself, holds the state that the plugin's `init` produced, and has
/// handled nothing yet; `task` is the task that the same `init` produced,
/// addressed to `index`.
pub open spec fn starts_as(
    record: Recorded,
    index: usize,
    slot: SlotView,
    task: Task<PluginMessage>,
) -> bool {
    &&& slot.plugin_tag == record.plugin_tag
    &&& slot.message_tag == record.message_tag
    &&& slot.output_tag == record.output_tag
    &&& slot.plugin == record.plugin
    &&& slot.handled == Seq::<Payload>::empty()
    &&& record.plugin.0.named(slot.name)
    &&& record.plugin.0.starts(index, slot.state, task)
    &&& record.plugin.0.owns(slot.state)
}

/// How installing `record` changes the slots: the slots that were there
/// stay as they are, and one slot is added after them, as [`starts_as`]
/// describes it.
pub open spec fn installs(
    before: Seq<SlotView>,
    record: Recorded,
    after: Seq<SlotView>,
    task: Task<PluginMessage>,
) -> bool {
    &&& after.len() == before.len() + 1
    &&& after.drop_last() == before
    &&& starts_as(record, before.len() as usize, after.last(), task)
}

/// Whether `slots` and `tasks` are what installing `records` in order into
/// an empty manager gives: one slot and one startup task for each record,
/// the record at position `k` in the slot `k`.
pub open spec fn built_from(
    records: Seq<Recorded>,
    slots: Seq<SlotView>,
    tasks: Seq<Task<PluginMessage>>,
) -> bool {
    &&& slots.len() == records.len()
    &&& tasks.len() == records.len()
    &&& forall|k: int|
        0 <= k < records.len() ==> starts_as(
            #[trigger] records[k],
            k as usize,
            slots[k],
            tasks[k],
        )
}

/// Whether `handle` is a handle of one of the slots of a manager with the
/// registry `registry`: it points at a slot whose plugin is of type `P`,
/// carries that slot's message and output tags, and registers listeners
/// with that registry.
pub open spec fn binds<P: Plugin + 'static>(
    slots: Seq<SlotView>,
    registry: OutputRegistry,
    handle: PluginHandle<P>,
) -> bool {
    &&& handle.slot() < slots.len()
    &&& is_tag_of::<P>(slots[handle.slot() as int].plugin_tag)
    &&& slots[handle.slot() as int].message_tag == handle.message_tag()
    &&& slots[handle.slot() as int].output_tag == handle.output_tag()
    &&& handle.registry() == registry
}

/// The first slot whose plugin has the tag `plugin_tag`, if there is one.
pub open spec fn first_with_tag(slots: Seq<SlotView>, plugin_tag: TypeId, found: Option<
    usize,
>) -> bool {
    match found {
        Some(index) => {
            &&& index < slots.len()
            &&& slots[index as int].plugin_tag == plugin_tag
            &&& forall|j: int| 0 <= j < index ==> slots[j].plugin_tag != plugin_tag
        },
        None => forall|j: int| 0 <= j < slots.len() ==> slots[j].plugin_tag != plugin_tag,
    }
}

/// The first slot whose plugin is of type `P`, if there is one.
pub open spec fn first_of<P: Plugin + 'static>(slots: Seq<SlotView>, found: Option<usize>) -> bool {
    match found {
        Some(index) => {
            &&& index < slots.len()
            &&& is_tag_of::<P>(slots[index as int].plugin_tag)
            &&& forall|j: int| 0 <= j < index ==> !is_tag_of::<P>(#[trigger] slots[j].plugin_tag)
        },
        None => forall|j: int|
            0 <= j < slots.len() ==> !is_tag_of::<P>(#[trigger] slots[j].plugin_tag),
    }
}

/// Whether `part` is the subscription of the slot `slot`, which stands at
/// `index`: what the slot's plugin subscribes to in the slot's state, or,
/// where that state is no state of the plugin, a subscription without
/// recipes.
pub open spec fn slot_listens(slot: SlotView, index: usize, part: Subscription<PluginMessage>) -> bool {
    if slot.plugin.0.owns(slot.state) {
        slot.plugin.0.listens(index, slot.state, part)
    } else {
        subscription_units(part) == 0
    }
}

/// Whether `parts` are the subscriptions of `slots`, one for each slot, in
/// slot order.
pub open spec fn subscribed(slots: Seq<SlotView>, parts: Seq<Subscription<PluginMessage>>) -> bool {
    parts.len() == slots.len() && forall|k: int|
        0 <= k < slots.len() ==> slot_listens(#[trigger] slots[k], k as usize, parts[k])
}

/// Whether `found` is the first slot whose plugin is named `name`, or `None`
/// where no plugin has that name.
pub open spec fn first_named(slots: Seq<SlotView>, name: Seq<char>, found: Option<usize>) -> bool {
    match found {
        Some(index) => {
            &&& index < slots.len()
            &&& slots[index as int].name == name
            &&& forall|j: int| 0 <= j < index ==> slots[j].name != name
        },
        None => forall|j: int| 0 <= j < slots.len() ==> slots[j].name != name,
    }
}

/// An output that the manager handed to its registry, and what the registry
/// told of the publication: nothing where its lock was poisoned.
pub struct Sent {
    /// The output.
    pub output: PluginOutput,
    /// What the registry did with it.
    pub told: Option<Publication>,
}

/// Whether `sent` is an output of `slot` handed to `registry`: what is on
/// record as told is what the registry told of publishing that output for
/// that slot.
pub open spec fn sent_for(sent: Sent, registry: OutputRegistry, slot: usize) -> bool {
    told_by(registry, slot, sent.output, sent.told)
}

/// Main plugin manager that holds all installed plugins and their states.
/// This struct should be embedded in your application state.
pub struct PluginManager {
    plugins: Vec<PluginEntry>,
    output_registry: OutputRegistry,
    sent: Ghost<Seq<Sent>>,
}

impl PluginManager {
    /// The slots, in installation order. The registry of the listeners
    /// stands beside them, under [`PluginManager::registry`].
    pub closed spec fn view(&self) -> Seq<SlotView> {
        Seq::new(self.plugins@.len(), |i: int| self.plugins@[i].view())
    }

    /// The registry to which the outputs of the plugins are published.
    pub closed spec fn registry(&self) -> OutputRegistry {
        self.output_registry
    }

    /// Every output that [`PluginManager::update`] handed to the registry,
    /// oldest first.
    pub closed spec fn sent(&self) -> Seq<Sent> {
        self.sent@
    }

    /// Create a new empty plugin manager.
    pub fn new() -> (manager: Self)
        ensures
            manager@.len() == 0,
            manager.registry().started_with()@ == Map::<usize, Seq<Listener>>::empty(),
            manager.sent() == Seq::<Sent>::empty(),
    {
        PluginManager::with_registry(OutputRegistry::new())
    }

    /// An empty plugin manager that publishes to `registry`.
    pub(crate) fn with_registry(registry: OutputRegistry) -> (manager: Self)
        ensures
            manager@.len() == 0,
            manager.registry() == registry,
            manager.sent() == Seq::<Sent>::empty(),
    {
        PluginManager { plugins: Vec::new(), output_registry: registry, sent: Ghost(Seq::empty()) }
    }

    /// Installs a recorded plugin in the next free slot: asks the plugin
    /// for its name, calls its `init`, and returns the startup task, its
    /// messages addressed to the new slot.
    pub(crate) fn install_internal(&mut self, record: Recorded) -> (task: Task<PluginMessage>)
        ensures
            installs(old(self)@, record, final(self)@, task),
            final(self).registry() == old(self).registry(),
            final(self).sent() == old(self).sent(),
    {
        let plugin_index = self.plugins.len();
        let name = record.plugin.0.name();
        let (state, task) = record.plugin.0.start(plugin_index);
        let entry = PluginEntry::new(
            name,
            state,
            record.plugin_tag,
            record.message_tag,
            record.output_tag,
            record.plugin,
        );
        self.plugins.push(entry);
        assert(self@.drop_last() =~= old(self)@);
        task
    }

    /// Routes `message` to the slot it is addressed to and hands back what
    /// the plugin returned: its task, addressed to the same slot, and its
    /// output, if any, tagged with the slot and with the slot's output tag.
    ///
    /// A message that no slot takes is dropped: nothing changes, the task
    /// does nothing, and there is no output. The same holds of a message
    /// whose payload is no message of the slot's plugin, but that it is
    /// counted as taken by the slot.
    pub fn route(&mut self, message: PluginMessage) -> (result: (
        Task<PluginMessage>,
        Option<PluginOutput>,
    ))
        ensures
            routed(old(self)@, message, final(self)@),
            final(self).registry() == old(self).registry(),
            final(self).sent() == old(self).sent(),
            reaches(old(self)@, message) ==> exists|target: &mut ErasedState|
                {
                    &&& *target == old(self)@[message.slot() as int].state
                    &&& *final(target) == final(self)@[message.slot() as int].state
                    &&& #[trigger] old(self)@[message.slot() as int].plugin.0.answers(
                        message.slot(),
                        target,
                        message.payload(),
                        (result.0, output_payload(result.1)),
                    )
                },
            !reaches(old(self)@, message) ==> task_units(result.0) == 0 && result.1 is None,
            result.1 matches Some(output) ==> output.slot() == message.slot() && output.type_tag()
                == old(self)@[message.slot() as int].output_tag,
    {
        let plugin_index = message.plugin_index();
        if plugin_index < self.plugins.len() && message.has_tag(
            &self.plugins[plugin_index].message_type_id,
        ) {
            let entry = &mut self.plugins[plugin_index];
            let (task, output) = entry.plugin.0.update(
                plugin_index,
                &mut entry.state,
                message.payload_of(),
            );
            proof {
                entry.handled@ = entry.handled@.push(message.payload());
            }
            let output = match output {
                Some(payload) => Some(
                    PluginOutput::from_parts(plugin_index, payload, entry.output_type_id),
                ),
                None => None,
            };
            (task, output)
        } else {
            (no_task(), None)
        }
    }

    /// Update the plugin manager with a plugin message.
    /// This automatically routes the message to the correct plugin and
    /// distributes outputs to subscribers.
    ///
    /// The message is routed as [`PluginManager::route`] routes it. An
    /// output that comes back is handed to the registry, which publishes it
    /// to the listeners of the message's slot, and goes on record as sent;
    /// without an output nothing is sent.
    pub fn update(&mut self, message: PluginMessage) -> (task: Task<PluginMessage>)
        ensures
            routed(old(self)@, message, final(self)@),
            final(self).registry() == old(self).registry(),
            exists|output: Option<PluginOutput>|
                {
                    &&& #[trigger] updated(
                        old(self).sent(),
                        old(self).registry(),
                        message,
                        output,
                        final(self).sent(),
                    )
                    &&& output matches Some(emitted) ==> emitted.slot() == message.slot()
                        && emitted.type_tag() == old(self)@[message.slot() as int].output_tag
                    &&& !reaches(old(self)@, message) ==> output is None
                    &&& reaches(old(self)@, message) ==> exists|target: &mut ErasedState|
                        {
                            &&& *target == old(self)@[message.slot() as int].state
                            &&& *final(target) == final(self)@[message.slot() as int].state
                            &&& #[trigger] old(self)@[message.slot() as int].plugin.0.answers(
                                message.slot(),
                                target,
                                message.payload(),
                                (task, output_payload(output)),
                            )
                        }
                },
            !reaches(old(self)@, message) ==> task_units(task) == 0,
    {
        let plugin_index = message.plugin_index();
        let (task, output) = self.route(message);
        match output {
            Some(emitted) => {
                let told = self.output_registry.publish(plugin_index, &emitted);
                let ghost before = self.sent@;
                proof {
                    self.sent@ = before.push(Sent { output: emitted, told: told@ });
                }
                assert(self.sent@.drop_last() =~= before);
                assert(told_by(self.registry(), plugin_index, emitted, told@));
                assert(updated(
                    old(self).sent(),
                    old(self).registry(),
                    message,
                    Some(emitted),
                    self.sent(),
                ));
            },
            None => {
                assert(updated(old(self).sent(), old(self).registry(), message, None, self.sent()));
            },
        }
        task
    }

    /// The subscription of every slot, its messages addressed to that slot,
    /// in slot order.
    pub fn slot_subscriptions(&self) -> (parts: Vec<Subscription<PluginMessage>>)
        ensures
            subscribed(self@, parts@),
    {
        let mut parts: Vec<Subscription<PluginMessage>> = Vec::new();
        let mut index: usize = 0;
        while index < self.plugins.len()
            invariant
                index <= self.plugins@.len(),
                parts@.len() == index,
                forall|k: int| 0 <= k < index ==> slot_listens(self@[k], k as usize, parts@[k]),
            decreases self.plugins@.len() - index,
        {
            let entry = &self.plugins[index];
            parts.push(entry.plugin.0.subscription(index, &entry.state));
            index = index + 1;
        }
        parts
    }

    /// Collect all subscriptions from installed plugins.
    /// Call this from your application's subscription method.
    ///
    /// The result holds the recipes of one subscription per slot, all live
    /// at once.
    pub fn subscriptions(&self) -> (merged: Subscription<PluginMessage>)
        ensures
            exists|parts: Seq<Subscription<PluginMessage>>|
                {
                    &&& #[trigger] subscribed(self@, parts)
                    &&& batched_subscriptions(parts, merged)
                    &&& subscription_units(merged) == total_subscription_units(parts)
                },
    {
        let parts = self.slot_subscriptions();
        let ghost witness = parts@;
        let merged = merge(parts);
        assert(subscribed(self@, witness) && batched_subscriptions(witness, merged));
        merged
    }

    /// Get the number of installed plugins.
    pub fn plugin_count(&self) -> (count: usize)
        ensures
            count == self@.len(),
    {
        self.plugins.len()
    }

    /// Get a list of all installed plugin names in order.
    pub fn plugin_names(&self) -> (names: Vec<&'static str>)
        ensures
            names@.len() == self@.len(),
            forall|i: int| 0 <= i < self@.len() ==> names@[i]@ == self@[i].name,
    {
        let mut names: Vec<&'static str> = Vec::new();
        let mut index: usize = 0;
        while index < self.plugins.len()
            invariant
                index <= self.plugins@.len(),
                names@.len() == index,
                forall|i: int| 0 <= i < index ==> names@[i]@ == self@[i].name,
            decreases self.plugins@.len() - index,
        {
            names.push(self.plugins[index].name);
            index = index + 1;
        }
        names
    }

    /// The first slot whose plugin is named `name`.
    pub fn find_by_name(&self, name: &str) -> (found: Option<usize>)
        ensures
            first_named(self@, name@, found),
    {
        let mut index: usize = 0;
        while index < self.plugins.len()
            invariant
                index <= self.plugins@.len(),
                forall|j: int| 0 <= j < index ==> self@[j].name != name@,
            decreases self.plugins@.len() - index,
        {
            if same_text(self.plugins[index].name, name) {
                return Some(index);
            }
            index = index + 1;
        }
        None
    }

    /// The first slot whose plugin has the tag `plugin_tag`.
    pub fn find_plugin(&self, plugin_tag: &TypeId) -> (found: Option<usize>)
        ensures
            first_with_tag(self@, *plugin_tag, found),
    {
        let mut index: usize = 0;
        while index < self.plugins.len()
            invariant
                index <= self.plugins@.len(),
                forall|j: int| 0 <= j < index ==> self@[j].plugin_tag != *plugin_tag,
            decreases self.plugins@.len() - index,
        {
            if same_tag(&self.plugins[index].plugin_type, plugin_tag) {
                return Some(index);
            }
            index = index + 1;
        }
        None
    }

    /// The state of the slot `index`, as an `S`: there if the slot exists
    /// and its state is an `S`.
    pub fn state_at<S: Send + 'static>(&self, index: usize) -> (found: Option<&S>)
        ensures
            index >= self@.len() ==> found is None,
            index < self@.len() ==> {
                &&& forall|value: S|
                    #[trigger] holds(self@[index as int].state, value) ==> found == Some(&value)
                &&& found matches Some(typed) ==> holds(self@[index as int].state, *typed)
            },
    {
        if index < self.plugins.len() {
            state_ref::<S>(&self.plugins[index].state)
        } else {
            None
        }
    }

    /// The state of the first installed plugin of type `P`: the state, as
    /// a `P::State`, of the first slot whose plugin is of type `P`.
    pub fn get_plugin_state<P: Plugin + 'static>(&self) -> (found: Option<&P::State>)
        ensures
            exists|slot: Option<usize>|
                {
                    &&& #[trigger] first_of::<P>(self@, slot)
                    &&& match slot {
                        Some(index) => {
                            &&& forall|value: P::State|
                                #[trigger] holds(self@[index as int].state, value) ==> found
                                    == Some(&value)
                            &&& found matches Some(typed) ==> holds(
                                self@[index as int].state,
                                *typed,
                            )
                        },
                        None => found is None,
                    }
                },
    {
        let plugin_tag = type_tag::<P>();
        let slot = self.find_plugin(&plugin_tag);
        assert(first_of::<P>(self@, slot));
        match slot {
            Some(index) => self.state_at::<P::State>(index),
            None => None,
        }
    }

    /// The state of the slot `index`, as an `S`, for writing: there if the
    /// slot exists and its state is an `S`. Whatever is written becomes the
    /// state of that slot; nothing else changes.
    pub fn state_at_mut<S: Send + 'static>(&mut self, index: usize) -> (found: Option<&mut S>)
        ensures
            index >= old(self)@.len() ==> found is None,
            index < old(self)@.len() ==> forall|value: S|
                #[trigger] holds(old(self)@[index as int].state, value) ==> (found matches Some(
                    typed,
                ) && *typed == value),
            found is None ==> final(self)@ == old(self)@,
            final(self).registry() == old(self).registry(),
            final(self).sent() == old(self).sent(),
            found matches Some(typed) ==> {
                &&& index < old(self)@.len()
                &&& holds(old(self)@[index as int].state, *typed)
                &&& rewritten(old(self)@, index as int, final(self)@)
                &&& holds(final(self)@[index as int].state, *final(typed))
            },
    {
        if index < self.plugins.len() {
            state_mut::<S>(&mut self.plugins[index].state)
        } else {
            None
        }
    }

    /// The state of the first installed plugin of type `P`, for writing:
    /// the state, as a `P::State`, of the first slot whose plugin is of type
    /// `P`. Whatever is written becomes the state of that slot; nothing else
    /// changes.
    pub fn get_plugin_state_mut<P: Plugin + 'static>(&mut self) -> (found: Option<&mut P::State>)
        ensures
            found is None ==> final(self)@ == old(self)@,
            final(self).registry() == old(self).registry(),
            final(self).sent() == old(self).sent(),
            exists|slot: Option<usize>|
                {
                    &&& #[trigger] first_of::<P>(old(self)@, slot)
                    &&& match slot {
                        Some(index) => {
                            &&& forall|value: P::State|
                                #[trigger] holds(old(self)@[index as int].state, value) ==> (
                                found matches Some(typed) && *typed == value)
                            &&& found matches Some(typed) ==> {
                                &&& holds(old(self)@[index as int].state, *typed)
                                &&& rewritten(old(self)@, index as int, final(self)@)
                                &&& holds(final(self)@[index as int].state, *final(typed))
                            }
                        },
                        None => found is None,
                    }
                },
    {
        let plugin_tag = type_tag::<P>();
        let slot = self.find_plugin(&plugin_tag);
        assert(first_of::<P>(self@, slot));
        match slot {
            Some(index) => self.state_at_mut::<P::State>(index),
            None => None,
        }
    }

    /// A handle to the plugin in the slot `index`, if there is such a slot
    /// and its plugin is of type `P`.
    pub fn handle_at<P: Plugin + 'static>(&self, index: usize) -> (found: Option<PluginHandle<P>>)
        ensures
            index >= self@.len() ==> found is None,
            index < self@.len() && !is_tag_of::<P>(self@[index as int].plugin_tag) ==> found
                is None,
            index < self@.len() && is_tag_of::<P>(self@[index as int].plugin_tag) ==> (
            found matches Some(handle) && handle.slot() == index && binds(
                self@,
                self.registry(),
                handle,
            )),
    {
        if index < self.plugins.len() {
            let entry = &self.plugins[index];
            let plugin_tag = type_tag::<P>();
            if same_tag(&entry.plugin_type, &plugin_tag) {
                Some(
                    PluginHandle::new(
                        index,
                        entry.message_type_id,
                        entry.output_type_id,
                        self.output_registry.clone(),
                    ),
                )
            } else {
                None
            }
        } else {
            None
        }
    }

    /// Get a handle to an installed plugin by its type: a handle of the
    /// first slot whose plugin is of type `P`.
    /// Returns `None` if the plugin is not installed.
    pub fn get_handle<P: Plugin + 'static>(&self) -> (found: Option<PluginHandle<P>>)
        ensures
            exists|slot: Option<usize>|
                {
                    &&& #[trigger] first_of::<P>(self@, slot)
                    &&& match slot {
                        Some(index) => found matches Some(handle) && handle.slot() == index
                            && binds(self@, self.registry(), handle),
                        None => found is None,
                    }
                },
    {
        let plugin_tag = type_tag::<P>();
        let slot = self.find_plugin(&plugin_tag);
        assert(first_of::<P>(self@, slot));
        match slot {
            Some(index) => self.handle_at::<P>(index),
            None => None,
        }
    }
}

} // verus!
