//! The builder: the recommended way to set up a plugin manager.
use crate::effect::batch;
use crate::effect::batched_tasks;
use crate::effect::task_units;
use crate::effect::total_task_units;
use crate::envelope::PluginMessage;
use crate::fanout::Listener;
use crate::fanout::OutputRegistry;
use crate::handle::PluginHandle;
use crate::manager::built_from;
use crate::manager::record;
use crate::manager::records;
use crate::manager::starts_as;
use crate::manager::PluginManager;
use crate::manager::Recorded;
use crate::plugin::Plugin;
use iced::Task;
use vstd::prelude::*;

verus! {

/// Builder pattern for constructing a [`PluginManager`].
///
/// It records plugins one by one and calls none of them. Only
/// [`PluginManagerBuilder::build`] makes the manager: it installs the
/// recorded plugins in the order in which they were handed in, and hands
/// out the manager together with all startup tasks batched into one.
pub struct PluginManagerBuilder {
    registry: OutputRegistry,
    pending: Vec<Recorded>,
}

impl PluginManagerBuilder {
    /// The plugins recorded so far, in the order in which they were handed
    /// in.
    pub closed spec fn recorded(&self) -> Seq<Recorded> {
        self.pending@
    }

    /// The registry that the manager will publish to, and with which the
    /// handles that the builder hands out register listeners.
    pub closed spec fn registry(&self) -> OutputRegistry {
        self.registry
    }

    /// Create a new builder.
    pub fn new() -> (builder: Self)
        ensures
            builder.recorded().len() == 0,
            builder.registry().started_with()@ == Map::<usize, Seq<Listener>>::empty(),
    {
        PluginManagerBuilder { registry: OutputRegistry::new(), pending: Vec::new() }
    }

    /// Add a plugin to the builder: it is recorded after those that were
    /// added before, and will be installed by
    /// [`PluginManagerBuilder::build`].
    pub fn with_plugin<P>(self, plugin: P) -> (builder: Self) where P: Plugin + 'static
        ensures
            builder.recorded().len() == self.recorded().len() + 1,
            builder.recorded().drop_last() == self.recorded(),
            records(builder.recorded().last(), plugin),
            builder.registry() == self.registry(),
    {
        let mut builder = self;
        builder.pending.push(record(plugin));
        assert(builder.pending@.drop_last() =~= self.pending@);
        builder
    }

    /// Add a plugin to the builder, as [`PluginManagerBuilder::with_plugin`]
    /// does, and return a handle to it: a handle of the slot in which the
    /// plugin will be installed, which is the number of plugins recorded
    /// before it.
    pub fn install<P>(&mut self, plugin: P) -> (handle: PluginHandle<P>) where P: Plugin + 'static
        ensures
            final(self).recorded().len() == old(self).recorded().len() + 1,
            final(self).recorded().drop_last() == old(self).recorded(),
            records(final(self).recorded().last(), plugin),
            final(self).registry() == old(self).registry(),
            handle.slot() == old(self).recorded().len(),
            handle.message_tag() == final(self).recorded().last().message_tag,
            handle.output_tag() == final(self).recorded().last().output_tag,
            handle.registry() == old(self).registry(),
    {
        let record = record(plugin);
        let handle = PluginHandle::new(
            self.pending.len(),
            record.message_tag,
            record.output_tag,
            self.registry.clone(),
        );
        self.pending.push(record);
        assert(self.pending@.drop_last() =~= old(self).pending@);
        handle
    }

    /// Build the plugin manager: install the recorded plugins in order,
    /// the plugin at position `k` in the slot `k`, and return the manager
    /// with all startup tasks batched into one task.
    pub fn build(self) -> (built: (PluginManager, Task<PluginMessage>))
        ensures
            built.0.registry() == self.registry(),
            exists|tasks: Seq<Task<PluginMessage>>|
                {
                    &&& #[trigger] built_from(self.recorded(), built.0@, tasks)
                    &&& batched_tasks(tasks, built.1)
                    &&& task_units(built.1) == total_task_units(tasks)
                },
    {
        let mut manager = PluginManager::with_registry(self.registry);
        let mut tasks: Vec<Task<PluginMessage>> = Vec::new();
        let ghost all = self.pending@;
        for record in walk: self.pending
            invariant
                walk.seq() == all,
                manager.registry() == self.registry(),
                built_from(all.take(walk.index() as int), manager@, tasks@),
        {
            let ghost before = manager@;
            let ghost started = tasks@;
            let task = manager.install_internal(record);
            tasks.push(task);
            proof {
                let k = walk.index() as int;
                assert(manager@.drop_last() == before);
                assert(tasks@.drop_last() =~= started);
                assert forall|j: int| 0 <= j < k + 1 implies starts_as(
                    #[trigger] all.take(k + 1)[j],
                    j as usize,
                    manager@[j],
                    tasks@[j],
                ) by {
                    if j < k {
                        assert(all.take(k)[j] == all[j]);
                        assert(manager@.drop_last()[j] == manager@[j]);
                        assert(tasks@.drop_last()[j] == tasks@[j]);
                    }
                }
            }
        }
        assert(all.take(all.len() as int) =~= all);
        let ghost witness = tasks@;
        let combined_task = batch(tasks);
        assert(built_from(self.recorded(), manager@, witness));
        (manager, combined_task)
    }
}

impl Default for PluginManagerBuilder {
    fn default() -> (builder: Self)
        ensures
            builder.recorded().len() == 0,
    {
        PluginManagerBuilder::new()
    }
}

impl Default for PluginManager {
    fn default() -> (manager: Self)
        ensures
            manager@.len() == 0,
    {
        PluginManager::new()
    }
}

} // verus!
