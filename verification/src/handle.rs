//! Handles: the capability that application code holds for one installed
//! plugin.
use crate::effect::produces;
use crate::effect::ready;
use crate::effect::task_units;
use crate::envelope::wraps;
use crate::envelope::PluginMessage;
use crate::envelope::PluginOutput;
use crate::fanout::registers;
use crate::fanout::OutputRegistry;
use crate::plugin::Plugin;
use iced::futures::channel::mpsc::UnboundedReceiver;
use iced::Task;
use std::any::TypeId;
use std::marker::PhantomData;
use vstd::prelude::*;

verus! {

/// A handle to a plugin that allows creating tasks for it.
///
/// A handle knows the slot of its plugin, the type tags that the slot
/// declared when the plugin was installed, and the registry through which
/// the slot's outputs are handed out. It never reaches the plugin's state.
pub struct PluginHandle<P: Plugin> {
    plugin_index: usize,
    message_tag: TypeId,
    output_tag: TypeId,
    output_registry: OutputRegistry,
    _phantom: PhantomData<P>,
}

impl<P: Plugin> PluginHandle<P> {
    /// The slot of the plugin.
    pub closed spec fn slot(&self) -> usize {
        self.plugin_index
    }

    /// The tag under which the slot takes messages.
    pub closed spec fn message_tag(&self) -> TypeId {
        self.message_tag
    }

    /// The tag under which the slot emits outputs.
    pub closed spec fn output_tag(&self) -> TypeId {
        self.output_tag
    }

    /// The registry with which this handle registers listeners.
    pub closed spec fn registry(&self) -> OutputRegistry {
        self.output_registry
    }

    pub(crate) fn new(
        plugin_index: usize,
        message_tag: TypeId,
        output_tag: TypeId,
        output_registry: OutputRegistry,
    ) -> (handle: Self)
        ensures
            handle.slot() == plugin_index,
            handle.message_tag() == message_tag,
            handle.output_tag() == output_tag,
            handle.registry() == output_registry,
    {
        PluginHandle { plugin_index, message_tag, output_tag, output_registry, _phantom: PhantomData }
    }

    /// The slot of the plugin.
    pub fn plugin_index(&self) -> (index: usize)
        ensures
            index == self.slot(),
    {
        self.plugin_index
    }

    /// Wrap a plugin message into a [`PluginMessage`] addressed to this
    /// handle's slot.
    pub fn message(&self, message: P::Message) -> (envelope: PluginMessage)
        ensures
            envelope.slot() == self.slot(),
            envelope.type_tag() == self.message_tag(),
            wraps(envelope.payload(), message),
    {
        PluginMessage::tagged(self.plugin_index, message, self.message_tag)
    }

    /// Create a task that dispatches a message to this plugin: one unit of
    /// work that at once produces the message, wrapped as
    /// [`PluginHandle::message`] wraps it.
    pub fn dispatch(&self, message: P::Message) -> (task: Task<PluginMessage>)
        ensures
            task_units(task) == 1,
            exists|envelope: PluginMessage|
                {
                    &&& #[trigger] produces(task, envelope)
                    &&& envelope.slot() == self.slot()
                    &&& envelope.type_tag() == self.message_tag()
                    &&& wraps(envelope.payload(), message)
                },
    {
        let plugin_msg = self.message(message);
        ready(plugin_msg)
    }

    /// Opens a channel on which every output of this plugin arrives from now
    /// on, until the receiving end is dropped, and returns its receiving
    /// end; the sending end is registered as a listener of this handle's
    /// slot.
    pub fn outputs(&self) -> (receiver: UnboundedReceiver<PluginOutput>)
        ensures
            registers(self.registry(), self.slot(), receiver),
    {
        self.output_registry.register(self.plugin_index)
    }

    /// What a listener of this handle takes from `output`: the typed output,
    /// if the envelope comes from this handle's slot and carries its output
    /// tag; nothing otherwise.
    pub fn accept<'a>(&self, output: &'a PluginOutput) -> (found: Option<&'a P::Output>)
        ensures
            output.slot() != self.slot() || output.type_tag() != self.output_tag() ==> found is None,
            output.slot() == self.slot() && output.type_tag() == self.output_tag() ==> forall|
                value: P::Output,
            |
                wraps(output.payload(), value) ==> found == Some(&value),
            found matches Some(typed) ==> wraps(output.payload(), *typed),
    {
        if self.plugin_index == output.plugin_index() {
            output.downcast_tagged::<P::Output>(&self.output_tag)
        } else {
            None
        }
    }
}

/// Offers `output` to a listener of `handle` that maps what it takes with
/// `filter`: an envelope that the handle does not accept gives nothing, and
/// so does one whose payload is no output of the plugin; of any other the
/// filter is handed a clone of the output, and what it returns is the
/// answer.
pub fn offer<P: Plugin, R, F: Fn(P::Output) -> Option<R>>(
    handle: &PluginHandle<P>,
    output: &PluginOutput,
    filter: &F,
) -> (answer: Option<R>)
    requires
        forall|value: P::Output| call_requires(*filter, (value,)),
    ensures
        output.slot() != handle.slot() || output.type_tag() != handle.output_tag() ==> answer
            is None,
        (forall|value: P::Output| !wraps(output.payload(), value)) ==> answer is None,
        output.slot() == handle.slot() && output.type_tag() == handle.output_tag() ==> forall|
            value: P::Output,
        |
            wraps(output.payload(), value) ==> exists|handed: P::Output|
                cloned(value, handed) && #[trigger] call_ensures(*filter, (handed,), answer),
{
    match handle.accept(output) {
        Some(typed) => filter(typed.clone()),
        None => None,
    }
}

impl<P: Plugin> Clone for PluginHandle<P> {
    fn clone(&self) -> (copy: Self)
        ensures
            copy == *self,
    {
        PluginHandle {
            plugin_index: self.plugin_index,
            message_tag: self.message_tag,
            output_tag: self.output_tag,
            output_registry: self.output_registry.clone(),
            _phantom: PhantomData,
        }
    }
}

} // verus!
