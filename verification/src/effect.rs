//! The two effect types of iced, [`Task`] and [`Subscription`], as far as the
//! runtime builds and combines them.
use crate::envelope::PluginMessage;
use iced::Subscription;
use iced::Task;
use vstd::prelude::*;

verus! {

/// `iced::Task`: a set of concurrent actions for the iced runtime.
#[verifier::external_type_specification]
#[verifier::external_body]
#[verifier::reject_recursive_types(T)]
pub struct ExTask<T>(Task<T>);

/// `iced::Subscription`: a request to listen to external events.
#[verifier::external_type_specification]
#[verifier::external_body]
#[verifier::reject_recursive_types(T)]
pub struct ExSubscription<T>(Subscription<T>);

/// The number of work units of a task, as `Task::units` reports it. A task
/// of no units does nothing.
pub uninterp spec fn task_units(task: Task<PluginMessage>) -> nat;

/// The number of recipes of a subscription, as `Subscription::units` reports
/// it. A subscription of no recipes listens to nothing.
pub uninterp spec fn subscription_units(subscription: Subscription<PluginMessage>) -> nat;

/// The work units of `tasks`, added up.
pub open spec fn total_task_units(tasks: Seq<Task<PluginMessage>>) -> nat
    decreases tasks.len(),
{
    if tasks.len() == 0 {
        0
    } else {
        total_task_units(tasks.drop_last()) + task_units(tasks.last())
    }
}

/// The recipes of `subscriptions`, added up.
pub open spec fn total_subscription_units(subscriptions: Seq<Subscription<PluginMessage>>) -> nat
    decreases subscriptions.len(),
{
    if subscriptions.len() == 0 {
        0
    } else {
        total_subscription_units(subscriptions.drop_last()) + subscription_units(
            subscriptions.last(),
        )
    }
}

/// `Task::none`: the task that does nothing. It has no units.
#[verifier::external_body]
pub(crate) fn no_task() -> (task: Task<PluginMessage>)
    ensures
        task_units(task) == 0,
{
    Task::none()
}

/// `Task::done`: one unit of work that instantly produces `message`. That a
/// task was made of a message here is spoken of through [`produces`].
#[verifier::external_body]
fn ready_task(message: PluginMessage) -> (task: Task<PluginMessage>)
    ensures
        task_units(task) == 1,
{
    Task::done(message)
}

/// `task` is the task that instantly produces `message` and does nothing
/// else.
pub closed spec fn produces(task: Task<PluginMessage>, message: PluginMessage) -> bool {
    call_ensures(ready_task, (message,), task)
}

/// The task that instantly produces `message`: one unit of work.
pub(crate) fn ready(message: PluginMessage) -> (task: Task<PluginMessage>)
    ensures
        produces(task, message),
        task_units(task) == 1,
{
    ready_task(message)
}

/// `Task::batch`: one task that runs all of `tasks` in parallel. Its units
/// are theirs, added up.
#[verifier::external_body]
fn batch_tasks(tasks: Vec<Task<PluginMessage>>) -> (task: Task<PluginMessage>)
    ensures
        task_units(task) == total_task_units(tasks@),
{
    Task::batch(tasks)
}

/// `Task::map`, with the closure that addresses each message that the task
/// produces to the plugin at `plugin_index`.
#[verifier::external_body]
fn address_task<M: Send + Sync + 'static>(task: Task<M>, plugin_index: usize) -> (addressed:
    Task<PluginMessage>) {
    task.map(move |message| PluginMessage::new(plugin_index, message))
}

/// `Subscription::none`: the subscription without recipes.
#[verifier::external_body]
pub(crate) fn no_subscription() -> (subscription: Subscription<PluginMessage>)
    ensures
        subscription_units(subscription) == 0,
{
    Subscription::none()
}

/// `Subscription::batch`: the subscription that holds the recipes of all of
/// `subscriptions`.
#[verifier::external_body]
fn batch_subscriptions(subscriptions: Vec<Subscription<PluginMessage>>) -> (merged:
    Subscription<PluginMessage>)
    ensures
        subscription_units(merged) == total_subscription_units(subscriptions@),
{
    Subscription::batch(subscriptions)
}

/// `Subscription::with`: `plugin_index` becomes part of the subscription's
/// identity and goes along with each message that it produces.
#[verifier::external_body]
fn mark_subscription<M: 'static>(subscription: Subscription<M>, plugin_index: usize) -> (marked:
    Subscription<(usize, M)>) {
    subscription.with(plugin_index)
}

/// `Subscription::map`, with the function that addresses each message to
/// the plugin whose index goes along with it.
#[verifier::external_body]
fn address_subscription<M: Send + Sync + 'static>(
    subscription: Subscription<(usize, M)>,
) -> (addressed: Subscription<PluginMessage>) {
    subscription.map(|(index, message)| PluginMessage::new(index, message))
}

/// `addressed` is `own` with each message that it produces addressed to the
/// plugin at `plugin_index`.
pub closed spec fn addressed_task<M: Send + Sync + 'static>(
    own: Task<M>,
    plugin_index: usize,
    addressed: Task<PluginMessage>,
) -> bool {
    call_ensures(address_task::<M>, (own, plugin_index), addressed)
}

/// `addressed` is `own` with `plugin_index` as part of its identity and each
/// message that it produces addressed to the plugin at that index.
pub closed spec fn addressed_subscription<M: Send + Sync + 'static>(
    own: Subscription<M>,
    plugin_index: usize,
    addressed: Subscription<PluginMessage>,
) -> bool {
    exists|marked: Subscription<(usize, M)>|
        #[trigger] call_ensures(mark_subscription::<M>, (own, plugin_index), marked)
            && call_ensures(address_subscription::<M>, (marked,), addressed)
}

/// `merged` is the task that runs all of `parts` in parallel.
pub closed spec fn batched_tasks(parts: Seq<Task<PluginMessage>>, merged: Task<PluginMessage>) -> bool {
    exists|list: Vec<Task<PluginMessage>>|
        list@ == parts && #[trigger] call_ensures(batch_tasks, (list,), merged)
}

/// `merged` is the subscription that holds the recipes of all of `parts`.
pub closed spec fn batched_subscriptions(
    parts: Seq<Subscription<PluginMessage>>,
    merged: Subscription<PluginMessage>,
) -> bool {
    exists|list: Vec<Subscription<PluginMessage>>|
        list@ == parts && #[trigger] call_ensures(batch_subscriptions, (list,), merged)
}

/// `task` with each message that it produces addressed to the plugin at
/// `plugin_index`.
pub(crate) fn address<M: Send + Sync + 'static>(task: Task<M>, plugin_index: usize) -> (addressed:
    Task<PluginMessage>)
    ensures
        addressed_task(task, plugin_index, addressed),
{
    address_task(task, plugin_index)
}

/// `subscription` with `plugin_index` as part of its identity and each
/// message that it produces addressed to the plugin at that index.
pub(crate) fn subscribe_for<M: Send + Sync + 'static>(
    subscription: Subscription<M>,
    plugin_index: usize,
) -> (addressed: Subscription<PluginMessage>)
    ensures
        addressed_subscription(subscription, plugin_index, addressed),
{
    address_subscription(mark_subscription(subscription, plugin_index))
}

/// The task that runs all of `tasks` in parallel.
pub(crate) fn batch(tasks: Vec<Task<PluginMessage>>) -> (merged: Task<PluginMessage>)
    ensures
        batched_tasks(tasks@, merged),
        task_units(merged) == total_task_units(tasks@),
{
    batch_tasks(tasks)
}

/// The subscription that holds the recipes of all of `subscriptions`.
pub(crate) fn merge(subscriptions: Vec<Subscription<PluginMessage>>) -> (merged: Subscription<
    PluginMessage,
>)
    ensures
        batched_subscriptions(subscriptions@, merged),
        subscription_units(merged) == total_subscription_units(subscriptions@),
{
    batch_subscriptions(subscriptions)
}

} // verus!
