use futures::executor::block_on;
use futures::StreamExt;
use iced::{Subscription, Task};
use iced_plugins::{Plugin, PluginHandle, PluginManager, PluginManagerBuilder, PluginMessage};
use iced_runtime::futures::subscription::{into_recipes, Hasher};
use std::hash::Hasher as StdHasher;
use std::sync::{Arc, Mutex};
use std::time::Duration;

#[derive(Clone, Debug, PartialEq)]
enum CounterMessage {
    Increment,
    Decrement,
    Add(i32),
}

#[derive(Debug)]
struct CounterState {
    value: i32,
    seen: Vec<CounterMessage>,
}

#[derive(Debug)]
struct CounterPlugin;

impl Plugin for CounterPlugin {
    type Message = CounterMessage;
    type State = CounterState;
    type Output = i32;

    fn name(&self) -> &'static str {
        "counter"
    }

    fn init(&self) -> (CounterState, Task<CounterMessage>) {
        (CounterState { value: 0, seen: Vec::new() }, Task::none())
    }

    fn update(
        &self,
        state: &mut CounterState,
        message: CounterMessage,
    ) -> (Task<CounterMessage>, Option<i32>) {
        state.seen.push(message.clone());
        match message {
            CounterMessage::Increment => state.value += 1,
            CounterMessage::Decrement => state.value -= 1,
            CounterMessage::Add(amount) => state.value += amount,
        }
        (Task::none(), Some(state.value))
    }

    fn subscription(&self, _state: &CounterState) -> Subscription<CounterMessage> {
        Subscription::none()
    }
}

#[derive(Clone, Debug)]
enum TimerMessage {
    Tick,
}

#[derive(Debug)]
struct TimerState {
    ticks: u32,
}

#[derive(Debug)]
struct TimerPlugin;

impl Plugin for TimerPlugin {
    type Message = TimerMessage;
    type State = TimerState;
    type Output = ();

    fn name(&self) -> &'static str {
        "timer"
    }

    fn init(&self) -> (TimerState, Task<TimerMessage>) {
        (TimerState { ticks: 0 }, Task::none())
    }

    fn update(&self, state: &mut TimerState, message: TimerMessage) -> (Task<TimerMessage>, Option<()>) {
        match message {
            TimerMessage::Tick => state.ticks += 1,
        }
        (Task::none(), None)
    }

    fn subscription(&self, _state: &TimerState) -> Subscription<TimerMessage> {
        iced::time::every(Duration::from_secs(1)).map(|_| TimerMessage::Tick)
    }
}

#[derive(Clone, Debug)]
enum StartupMessage {
    Loaded(u32),
}

#[derive(Debug)]
struct StartupPlugin;

impl Plugin for StartupPlugin {
    type Message = StartupMessage;
    type State = Option<u32>;
    type Output = ();

    fn name(&self) -> &'static str {
        "startup"
    }

    fn init(&self) -> (Option<u32>, Task<StartupMessage>) {
        (None, Task::done(StartupMessage::Loaded(42)))
    }

    fn update(&self, state: &mut Option<u32>, message: StartupMessage) -> (Task<StartupMessage>, Option<()>) {
        match message {
            StartupMessage::Loaded(value) => *state = Some(value),
        }
        (Task::none(), None)
    }

    fn subscription(&self, _state: &Option<u32>) -> Subscription<StartupMessage> {
        Subscription::none()
    }
}

fn run(task: Task<PluginMessage>) -> Vec<PluginMessage> {
    match iced_runtime::task::into_stream(task) {
        None => Vec::new(),
        Some(stream) => block_on(stream.collect::<Vec<_>>())
            .into_iter()
            .filter_map(|action| match action {
                iced_runtime::Action::Output(message) => Some(message),
                _ => None,
            })
            .collect(),
    }
}

fn counter_and_timer() -> (PluginManager, PluginHandle<CounterPlugin>, PluginHandle<TimerPlugin>) {
    let mut builder = PluginManagerBuilder::new();
    let counter = builder.install(CounterPlugin);
    let timer = builder.install(TimerPlugin);
    let (plugins, _startup) = builder.build();
    (plugins, counter, timer)
}

fn counter_value(plugins: &PluginManager) -> i32 {
    plugins.get_plugin_state::<CounterPlugin>().unwrap().value
}

fn timer_ticks(plugins: &PluginManager) -> u32 {
    plugins.get_plugin_state::<TimerPlugin>().unwrap().ticks
}

#[test]
fn dispatched_messages_reach_their_plugin_only() {
    let (mut plugins, counter, timer) = counter_and_timer();
    for _ in 0..3 {
        let envelopes = run(counter.dispatch(CounterMessage::Increment));
        assert_eq!(envelopes.len(), 1);
        for envelope in envelopes {
            assert_eq!(envelope.plugin_index(), 0);
            let _ = plugins.update(envelope);
        }
    }
    assert_eq!(counter_value(&plugins), 3);
    assert_eq!(timer_ticks(&plugins), 0);

    let _ = plugins.update(timer.message(TimerMessage::Tick));
    assert_eq!(timer_ticks(&plugins), 1);
    assert_eq!(counter_value(&plugins), 3);
}

#[test]
fn startup_task_is_addressed_to_the_new_slot() {
    let builder = PluginManagerBuilder::new().with_plugin(TimerPlugin).with_plugin(StartupPlugin);
    let (mut plugins, startup) = builder.build();
    assert_eq!(startup.units(), 1);
    assert_eq!(plugins.get_plugin_state::<StartupPlugin>(), Some(&None));
    let envelopes = run(startup);
    assert_eq!(envelopes.len(), 1);
    for envelope in envelopes {
        assert_eq!(envelope.plugin_index(), 1);
        let _ = plugins.update(envelope);
    }
    assert_eq!(plugins.get_plugin_state::<StartupPlugin>(), Some(&Some(42)));
    assert_eq!(timer_ticks(&plugins), 0);
}

#[test]
fn message_of_another_type_is_dropped() {
    let (mut plugins, _counter, _timer) = counter_and_timer();
    let _ = plugins.update(PluginMessage::new(0, CounterMessage::Add(5)));
    assert_eq!(counter_value(&plugins), 5);

    let task = plugins.update(PluginMessage::new(0, TimerMessage::Tick));
    assert_eq!(task.units(), 0);
    assert!(run(task).is_empty());
    let task = plugins.update(PluginMessage::new(0, 7u64));
    assert_eq!(task.units(), 0);
    assert_eq!(counter_value(&plugins), 5);
    assert_eq!(plugins.get_plugin_state::<CounterPlugin>().unwrap().seen.len(), 1);
    assert_eq!(timer_ticks(&plugins), 0);
}

#[test]
fn message_for_a_missing_slot_is_dropped() {
    let (mut plugins, _counter, _timer) = counter_and_timer();
    let task = plugins.update(PluginMessage::new(2, CounterMessage::Increment));
    assert_eq!(task.units(), 0);
    let task = plugins.update(PluginMessage::new(usize::MAX, TimerMessage::Tick));
    assert_eq!(task.units(), 0);
    assert_eq!(counter_value(&plugins), 0);
    assert_eq!(timer_ticks(&plugins), 0);

    let mut empty = PluginManager::new();
    assert_eq!(empty.plugin_count(), 0);
    let task = empty.update(PluginMessage::new(0, CounterMessage::Increment));
    assert_eq!(task.units(), 0);
}

#[test]
fn messages_are_handled_in_the_order_they_are_routed() {
    let (mut plugins, counter, _timer) = counter_and_timer();
    let first = counter.message(CounterMessage::Add(10));
    let second = counter.message(CounterMessage::Decrement);
    let _ = plugins.update(first);
    let _ = plugins.update(second);
    let state = plugins.get_plugin_state::<CounterPlugin>().unwrap();
    assert_eq!(state.seen, vec![CounterMessage::Add(10), CounterMessage::Decrement]);
    assert_eq!(state.value, 9);
}

#[test]
fn handles_and_names_follow_installation_order() {
    let mut builder = PluginManagerBuilder::new();
    let timer = builder.install(TimerPlugin);
    let counter = builder.install(CounterPlugin);
    let second_counter = builder.install(CounterPlugin);
    let (plugins, startup) = builder.build();
    assert_eq!(startup.units(), 0);
    assert_eq!(timer.plugin_index(), 0);
    assert_eq!(counter.plugin_index(), 1);
    assert_eq!(second_counter.plugin_index(), 2);
    assert_eq!(plugins.plugin_count(), 3);
    assert_eq!(plugins.plugin_names(), vec!["timer", "counter", "counter"]);
    assert_eq!(plugins.find_by_name("counter"), Some(1));
    assert_eq!(plugins.find_by_name("timer"), Some(0));
    assert_eq!(plugins.find_by_name("missing"), None);

    let found = plugins.get_handle::<CounterPlugin>().unwrap();
    assert_eq!(found.plugin_index(), 1);
    assert!(plugins.get_handle::<StartupPlugin>().is_none());
    assert!(plugins.get_plugin_state::<StartupPlugin>().is_none());
    assert!(plugins.handle_at::<CounterPlugin>(3).is_none());
    assert_eq!(plugins.handle_at::<CounterPlugin>(2).unwrap().plugin_index(), 2);
}

#[test]
fn state_can_be_written_directly() {
    let (mut plugins, counter, _timer) = counter_and_timer();
    plugins.get_plugin_state_mut::<CounterPlugin>().unwrap().value = 40;
    let _ = plugins.update(counter.message(CounterMessage::Increment));
    assert_eq!(counter_value(&plugins), 41);
    assert!(plugins.get_plugin_state_mut::<StartupPlugin>().is_none());
    assert!(plugins.state_at::<TimerState>(0).is_none());
    assert_eq!(plugins.state_at::<TimerState>(1).unwrap().ticks, 0);
    assert!(plugins.state_at_mut::<TimerState>(2).is_none());
}

#[test]
fn subscriptions_hold_one_part_per_slot() {
    let (plugins, _counter, _timer) = counter_and_timer();
    let parts = plugins.slot_subscriptions();
    assert_eq!(parts.len(), 2);
    assert_eq!(parts[0].units(), 0);
    assert_eq!(parts[1].units(), 1);
    assert_eq!(plugins.subscriptions().units(), 1);
    assert_eq!(plugins.subscriptions().units(), 1);

    let empty = PluginManager::default();
    assert_eq!(empty.subscriptions().units(), 0);
}

#[test]
fn find_plugin_returns_the_first_slot_of_a_type() {
    let mut builder = PluginManagerBuilder::default();
    let _ = builder.install(TimerPlugin);
    let _ = builder.install(CounterPlugin);
    let _ = builder.install(CounterPlugin);
    let (plugins, _) = builder.build();
    assert_eq!(plugins.find_plugin(&std::any::TypeId::of::<CounterPlugin>()), Some(1));
    assert_eq!(plugins.find_plugin(&std::any::TypeId::of::<TimerPlugin>()), Some(0));
    assert_eq!(plugins.find_plugin(&std::any::TypeId::of::<StartupPlugin>()), None);
}

#[test]
fn route_returns_the_output_of_the_slot() {
    let (mut plugins, counter, timer) = counter_and_timer();
    let (task, output) = plugins.route(counter.message(CounterMessage::Add(4)));
    assert_eq!(task.units(), 0);
    let output = output.unwrap();
    assert_eq!(output.plugin_index(), 0);
    assert_eq!(output.downcast::<i32>(), Some(&4));
    assert_eq!(output.downcast::<u32>(), None);
    assert_eq!(counter.accept(&output), Some(&4));
    assert_eq!(timer.accept(&output), None);

    let (_, output) = plugins.route(timer.message(TimerMessage::Tick));
    assert!(output.is_none());
    let (task, output) = plugins.route(PluginMessage::new(1, CounterMessage::Increment));
    assert_eq!(task.units(), 0);
    assert!(output.is_none());
}

fn recipe_hashes(subscription: Subscription<PluginMessage>) -> Vec<u64> {
    into_recipes(subscription)
        .iter()
        .map(|recipe| {
            let mut hasher = Hasher::default();
            recipe.hash(&mut hasher);
            hasher.finish()
        })
        .collect()
}

#[test]
fn subscriptions_are_the_same_from_tick_to_tick() {
    let (mut plugins, counter, _timer) = counter_and_timer();
    let first = recipe_hashes(plugins.subscriptions());
    let second = recipe_hashes(plugins.subscriptions());
    assert_eq!(first.len(), 1);
    assert_eq!(first, second);
    assert_eq!(counter_value(&plugins), 0);
    assert_eq!(timer_ticks(&plugins), 0);

    let _ = plugins.update(counter.message(CounterMessage::Increment));
    assert_eq!(recipe_hashes(plugins.subscriptions()), first);
}

#[test]
fn subscriptions_of_different_slots_are_told_apart() {
    let mut builder = PluginManagerBuilder::new();
    let _ = builder.install(TimerPlugin);
    let _ = builder.install(TimerPlugin);
    let (plugins, _) = builder.build();
    let hashes = recipe_hashes(plugins.subscriptions());
    assert_eq!(hashes.len(), 2);
    assert_ne!(hashes[0], hashes[1]);
}

#[derive(Clone, Debug)]
enum ProbeMessage {
    Started(&'static str),
}

#[derive(Debug)]
struct ProbePlugin {
    label: &'static str,
    calls: Arc<Mutex<Vec<&'static str>>>,
}

impl Plugin for ProbePlugin {
    type Message = ProbeMessage;
    type State = Vec<&'static str>;
    type Output = ();

    fn name(&self) -> &'static str {
        self.label
    }

    fn init(&self) -> (Vec<&'static str>, Task<ProbeMessage>) {
        self.calls.lock().unwrap().push(self.label);
        (Vec::new(), Task::done(ProbeMessage::Started(self.label)))
    }

    fn update(&self, state: &mut Vec<&'static str>, message: ProbeMessage) -> (Task<ProbeMessage>, Option<()>) {
        match message {
            ProbeMessage::Started(label) => state.push(label),
        }
        (Task::none(), None)
    }

    fn subscription(&self, _state: &Vec<&'static str>) -> Subscription<ProbeMessage> {
        Subscription::none()
    }
}

#[test]
fn builder_installs_nothing_before_build() {
    let calls = Arc::new(Mutex::new(Vec::new()));
    let mut builder = PluginManagerBuilder::new()
        .with_plugin(ProbePlugin { label: "first", calls: calls.clone() });
    let second = builder.install(ProbePlugin { label: "second", calls: calls.clone() });
    let builder = builder.with_plugin(ProbePlugin { label: "third", calls: calls.clone() });
    assert_eq!(second.plugin_index(), 1);
    assert!(calls.lock().unwrap().is_empty());

    let (mut plugins, startup) = builder.build();
    assert_eq!(*calls.lock().unwrap(), vec!["first", "second", "third"]);
    assert_eq!(plugins.plugin_names(), vec!["first", "second", "third"]);
    assert_eq!(startup.units(), 3);

    let mut envelopes = run(startup);
    envelopes.sort_by_key(|envelope| envelope.plugin_index());
    let slots: Vec<usize> = envelopes.iter().map(|envelope| envelope.plugin_index()).collect();
    assert_eq!(slots, vec![0, 1, 2]);
    for envelope in envelopes {
        let _ = plugins.update(envelope);
    }
    assert_eq!(plugins.state_at::<Vec<&'static str>>(0), Some(&vec!["first"]));
    assert_eq!(plugins.state_at::<Vec<&'static str>>(1), Some(&vec!["second"]));
    assert_eq!(plugins.state_at::<Vec<&'static str>>(2), Some(&vec!["third"]));
    assert_eq!(calls.lock().unwrap().len(), 3);
}

#[test]
fn handle_at_answers_only_for_the_plugin_of_the_slot() {
    let (plugins, _counter, _timer) = counter_and_timer();
    assert_eq!(plugins.handle_at::<CounterPlugin>(0).unwrap().plugin_index(), 0);
    assert_eq!(plugins.handle_at::<TimerPlugin>(1).unwrap().plugin_index(), 1);
    assert!(plugins.handle_at::<TimerPlugin>(0).is_none());
    assert!(plugins.handle_at::<CounterPlugin>(1).is_none());
    assert!(plugins.handle_at::<StartupPlugin>(0).is_none());
    assert!(plugins.handle_at::<CounterPlugin>(2).is_none());
}

#[test]
fn handle_of_the_builder_works_on_the_built_manager() {
    let mut builder = PluginManagerBuilder::new().with_plugin(TimerPlugin);
    let counter = builder.install(CounterPlugin);
    let (mut plugins, _startup) = builder.build();
    let mut receiver = counter.outputs();
    let task = plugins.update(counter.message(CounterMessage::Add(7)));
    assert_eq!(task.units(), 0);
    assert_eq!(counter_value(&plugins), 7);
    let output = receiver.try_next().unwrap().unwrap();
    assert_eq!(output.plugin_index(), 1);
    assert_eq!(counter.accept(&output), Some(&7));
    assert_eq!(iced_plugins::handle::offer(&counter, &output, &|value: i32| Some(value + 1)), Some(8));
    assert_eq!(iced_plugins::handle::offer(&counter, &output, &|_value: i32| None::<i32>), None);
    let found = plugins.get_handle::<CounterPlugin>().unwrap();
    let mut found_receiver = found.outputs();
    let _ = plugins.update(found.message(CounterMessage::Increment));
    assert_eq!(found.accept(&found_receiver.try_next().unwrap().unwrap()), Some(&8));
    assert_eq!(counter.accept(&receiver.try_next().unwrap().unwrap()), Some(&8));
}
