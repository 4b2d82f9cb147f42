use iced::futures::channel::mpsc::UnboundedReceiver;
use iced::{Subscription, Task};
use iced_plugins::fanout::{
    keep_if_taken, publish_locked, register_locked, ListenerTable, OutputRegistry,
};
use std::sync::Mutex;
use iced_plugins::{Plugin, PluginManagerBuilder, PluginOutput};

#[derive(Clone, Debug)]
struct Say(&'static str);

#[derive(Debug)]
struct EchoPlugin;

impl Plugin for EchoPlugin {
    type Message = Say;
    type State = u32;
    type Output = String;

    fn name(&self) -> &'static str {
        "echo"
    }

    fn init(&self) -> (u32, Task<Say>) {
        (0, Task::none())
    }

    fn update(&self, state: &mut u32, message: Say) -> (Task<Say>, Option<String>) {
        *state += 1;
        if message.0.is_empty() {
            (Task::none(), None)
        } else {
            (Task::none(), Some(message.0.to_string()))
        }
    }

    fn subscription(&self, _state: &u32) -> Subscription<Say> {
        Subscription::none()
    }
}

#[derive(Debug)]
struct NumberPlugin;

impl Plugin for NumberPlugin {
    type Message = u8;
    type State = ();
    type Output = u8;

    fn name(&self) -> &'static str {
        "number"
    }

    fn init(&self) -> ((), Task<u8>) {
        ((), Task::none())
    }

    fn update(&self, _state: &mut (), message: u8) -> (Task<u8>, Option<u8>) {
        (Task::none(), Some(message))
    }

    fn subscription(&self, _state: &()) -> Subscription<u8> {
        Subscription::none()
    }
}

fn drain(receiver: &mut UnboundedReceiver<PluginOutput>) -> Vec<PluginOutput> {
    let mut taken = Vec::new();
    while let Ok(Some(output)) = receiver.try_next() {
        taken.push(output);
    }
    taken
}

fn texts(outputs: &[PluginOutput]) -> Vec<String> {
    outputs.iter().map(|output| output.downcast::<String>().unwrap().clone()).collect()
}

#[test]
fn every_listener_of_a_slot_receives_each_output_once() {
    let mut builder = PluginManagerBuilder::new();
    let echo = builder.install(EchoPlugin);
    let number = builder.install(NumberPlugin);
    let (mut plugins, _) = builder.build();

    let mut first = echo.outputs();
    let mut second = echo.outputs();
    let mut third = echo.clone().outputs();
    let mut other = number.outputs();

    let _ = plugins.update(echo.message(Say("hello")));

    for receiver in [&mut first, &mut second, &mut third] {
        let taken = drain(receiver);
        assert_eq!(taken.len(), 1);
        assert_eq!(taken[0].plugin_index(), 0);
        assert_eq!(echo.accept(&taken[0]), Some(&"hello".to_string()));
        assert_eq!(number.accept(&taken[0]), None);
    }
    assert!(drain(&mut other).is_empty());

    let _ = plugins.update(number.message(9));
    let taken = drain(&mut other);
    assert_eq!(taken.len(), 1);
    assert_eq!(number.accept(&taken[0]), Some(&9));
    assert!(drain(&mut first).is_empty());
}

#[test]
fn an_update_without_output_publishes_nothing() {
    let mut builder = PluginManagerBuilder::new();
    let echo = builder.install(EchoPlugin);
    let (mut plugins, _) = builder.build();
    let mut receiver = echo.outputs();
    let _ = plugins.update(echo.message(Say("")));
    assert!(drain(&mut receiver).is_empty());
    assert_eq!(plugins.get_plugin_state::<EchoPlugin>(), Some(&1));
}

#[test]
fn outputs_arrive_in_the_order_they_were_emitted() {
    let mut builder = PluginManagerBuilder::new();
    let echo = builder.install(EchoPlugin);
    let (mut plugins, _) = builder.build();
    let mut receiver = echo.outputs();
    let _ = plugins.update(echo.message(Say("one")));
    let _ = plugins.update(echo.message(Say("two")));
    let _ = plugins.update(echo.message(Say("three")));
    assert_eq!(texts(&drain(&mut receiver)), vec!["one", "two", "three"]);
}

#[test]
fn a_listener_that_has_gone_is_pruned() {
    let mut builder = PluginManagerBuilder::new();
    let echo = builder.install(EchoPlugin);
    let (mut plugins, _) = builder.build();
    let mut staying = echo.outputs();
    let leaving = echo.outputs();
    let mut late = echo.outputs();
    drop(leaving);

    let _ = plugins.update(echo.message(Say("first")));
    let _ = plugins.update(echo.message(Say("second")));
    assert_eq!(texts(&drain(&mut staying)), vec!["first", "second"]);
    assert_eq!(texts(&drain(&mut late)), vec!["first", "second"]);
}

#[test]
fn listener_table_prunes_closed_channels() {
    let registry = OutputRegistry::new();
    let output = PluginOutput::new(3, 17u64);

    let mut kept = registry.register(3);
    let dropped = registry.register(3);
    let mut elsewhere = registry.register(4);
    drop(dropped);

    registry.publish(3, &output);
    registry.publish(3, &output);
    registry.publish(5, &output);
    assert_eq!(drain(&mut kept).len(), 2);
    assert!(drain(&mut elsewhere).is_empty());

    let mut table = ListenerTable::new();
    let _ = table.publish(0, &output);
}

#[test]
fn output_envelopes_keep_their_slot_and_value() {
    let output = PluginOutput::new(2, String::from("done"));
    assert_eq!(output.plugin_index(), 2);
    assert_eq!(output.downcast::<String>(), Some(&String::from("done")));
    assert_eq!(output.downcast::<&str>(), None);
    let copy = output.clone();
    assert_eq!(copy.plugin_index(), 2);
    assert_eq!(copy.downcast::<String>(), Some(&String::from("done")));
    assert!(copy.has_tag(&std::any::TypeId::of::<String>()));
    assert!(!copy.has_tag(&std::any::TypeId::of::<u8>()));
    assert_eq!(copy.downcast_tagged::<String>(&std::any::TypeId::of::<u8>()), None);
}

#[test]
fn publishing_on_a_locked_table_reaches_the_listeners_of_the_slot() {
    let shared = Mutex::new(ListenerTable::new());
    let (listener, mut receiver) = iced::futures::channel::mpsc::unbounded();
    let (gone, dropped) = iced::futures::channel::mpsc::unbounded();
    let (other, mut elsewhere) = iced::futures::channel::mpsc::unbounded();
    drop(dropped);
    {
        let mut guard = shared.lock().unwrap();
        register_locked(&mut guard, 2, listener);
        register_locked(&mut guard, 2, gone);
        register_locked(&mut guard, 4, other);
        let _ = publish_locked(&mut guard, 2, &PluginOutput::new(2, 5u8));
        let _ = publish_locked(&mut guard, 2, &PluginOutput::new(2, 6u8));
        let _ = publish_locked(&mut guard, 3, &PluginOutput::new(3, 7u8));
    }
    let taken = drain(&mut receiver);
    assert_eq!(taken.len(), 2);
    assert_eq!(taken[0].downcast::<u8>(), Some(&5));
    assert_eq!(taken[1].downcast::<u8>(), Some(&6));
    assert!(drain(&mut elsewhere).is_empty());
}

#[test]
fn a_listener_stays_only_if_its_channel_took_the_output() {
    let (first, mut first_end) = iced::futures::channel::mpsc::unbounded();
    let (second, _second_end) = iced::futures::channel::mpsc::unbounded::<PluginOutput>();
    let (third, mut third_end) = iced::futures::channel::mpsc::unbounded();
    let mut remaining = Vec::new();
    keep_if_taken(&mut remaining, first, true);
    keep_if_taken(&mut remaining, second, false);
    keep_if_taken(&mut remaining, third, true);
    assert_eq!(remaining.len(), 2);
    remaining[0].unbounded_send(PluginOutput::new(0, 1u8)).unwrap();
    remaining[1].unbounded_send(PluginOutput::new(0, 2u8)).unwrap();
    assert_eq!(drain(&mut first_end)[0].downcast::<u8>(), Some(&1));
    assert_eq!(drain(&mut third_end)[0].downcast::<u8>(), Some(&2));
}

#[test]
fn a_dropped_listener_is_gone_after_the_next_output() {
    let shared = Mutex::new(ListenerTable::new());
    let (stale, stale_end) = iced::futures::channel::mpsc::unbounded();
    let (live, mut live_end) = iced::futures::channel::mpsc::unbounded();
    let (late, mut late_end) = iced::futures::channel::mpsc::unbounded();
    drop(stale_end);
    {
        let mut guard = shared.lock().unwrap();
        register_locked(&mut guard, 1, stale);
        register_locked(&mut guard, 1, live);
        let _ = publish_locked(&mut guard, 1, &PluginOutput::new(1, 10u8));
        register_locked(&mut guard, 1, late);
        let _ = publish_locked(&mut guard, 1, &PluginOutput::new(1, 20u8));
    }
    let taken = drain(&mut live_end);
    assert_eq!(taken.len(), 2);
    assert_eq!(taken[0].downcast::<u8>(), Some(&10));
    assert_eq!(taken[1].downcast::<u8>(), Some(&20));
    let taken = drain(&mut late_end);
    assert_eq!(taken.len(), 1);
    assert_eq!(taken[0].downcast::<u8>(), Some(&20));
}
