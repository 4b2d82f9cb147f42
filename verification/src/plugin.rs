//! The contract every plugin fulfils.
use iced::Subscription;
use iced::Task;
use std::fmt::Debug;
use vstd::prelude::*;

verus! {

/// Core trait that all plugins must implement.
///
/// A plugin has a name, produces its initial state, folds messages into that
/// state, and describes the events it wants to listen to. What its methods
/// return is the plugin's own business: the runtime only moves the results
/// on.
pub trait Plugin: Send + Sync + Debug {
    /// The message type this plugin handles.
    type Message: Clone + Send + Sync + Debug + 'static;

    /// The state type for this plugin.
    type State: Send + Debug + 'static;

    /// The output type this plugin can emit. Application code can listen to
    /// these.
    type Output: Clone + Send + Sync + 'static;

    /// Returns the unique name of this plugin.
    fn name(&self) -> &'static str;

    /// Initializes the plugin: its initial state and a startup task.
    fn init(&self) -> (Self::State, Task<Self::Message>);

    /// Updates the plugin state with a message. Returns a task that can
    /// produce more messages and an optional output.
    fn update(&self, state: &mut Self::State, message: Self::Message) -> (
        Task<Self::Message>,
        Option<Self::Output>,
    );

    /// Subscribes to external events; the subscription may depend on the
    /// state.
    fn subscription(&self, state: &Self::State) -> Subscription<Self::Message>;
}

} // verus!
