//! The bookkeeping of the window state plugin: which window is the main
//! window, and whether its state has changed since it was last saved.
use crate::store::app_name::AppName;
use crate::store::app_name::AppNameView;
use iced::window::Id;
use std::convert::Infallible;
use vstd::prelude::*;

verus! {

/// `iced::window::Id`: the identifier of a window, carried as an opaque
/// value that can only be copied and compared.
#[verifier::external_type_specification]
#[verifier::external_body]
pub struct ExWindowId(Id);

/// `Id::eq`: two identifiers compare equal exactly when they are the same
/// identifier.
#[verifier::external_body]
fn same_window(left: &Id, right: &Id) -> (same: bool)
    ensures
        same == (*left == *right),
{
    left.eq(right)
}

/// The group under which the window state is stored.
pub const WINDOW_STATE_GROUP: &'static str = "window_state";

/// The key under which the state of the main window is stored.
pub const WINDOW_STATE_KEY: &'static str = "main";

/// Window state plugin that manages window state persistence.
#[derive(Debug)]
pub struct WindowStatePlugin {
    app_name: AppName,
    /// Auto-save interval in seconds.
    auto_save_interval: u64,
}

/// `Infallible::clone`: there is no value to copy, so nothing is said of the
/// copy.
pub assume_specification[ <Infallible as Clone>::clone ](never: &Infallible) -> (copy: Infallible);

/// Public input API of the window state plugin. There is nothing an
/// application can ask of it: the type has no value.
#[derive(Clone, Debug)]
pub struct WindowStateInput {
    never: Infallible,
}

/// What happened to a window, or to the saving of the window state.
#[derive(Debug, Clone, Copy)]
pub enum WindowChange {
    /// A window was opened.
    Opened(Id),
    /// A window was resized; `differs` tells whether its size is another
    /// than the one that is remembered.
    Resized { window: Id, differs: bool },
    /// A window was moved; `differs` tells whether its position is another
    /// than the one that is remembered.
    Moved { window: Id, differs: bool },
    /// It is time to save.
    SaveToDisk,
    /// Saving has come to an end; `saved` tells whether it succeeded.
    SaveCompleted { saved: bool },
}

/// What the window state plugin is to do about a change.
#[derive(Debug, Clone, Copy, PartialEq, Eq, Structural)]
pub enum WindowAction {
    /// Nothing.
    Ignore,
    /// Remember the new size or position and emit `StateUpdated`.
    Remember,
    /// Save the remembered state to disk.
    Save,
    /// Emit `StateSaved`.
    ReportSaved,
    /// Emit `SaveError`.
    ReportSaveError,
}

/// Which window is tracked, and whether there is anything to save.
#[derive(Debug, Clone, Copy, PartialEq, Eq)]
pub struct WindowTracker {
    /// The oldest (main) window: the first that was opened.
    pub oldest_window_id: Option<Id>,
    /// Whether the state has changed since it was last saved.
    pub dirty: bool,
}

/// The tracker after `change`. The first window that opens becomes the main
/// window and stays it. A change of the main window's size or position
/// leaves the state dirty; a successful save leaves it clean.
pub open spec fn tracker_next(tracker: WindowTracker, change: WindowChange) -> WindowTracker {
    match change {
        WindowChange::Opened(window) => if tracker.oldest_window_id is None {
            WindowTracker { oldest_window_id: Some(window), ..tracker }
        } else {
            tracker
        },
        WindowChange::Resized { window, differs } => if tracker.oldest_window_id == Some(window)
            && differs {
            WindowTracker { dirty: true, ..tracker }
        } else {
            tracker
        },
        WindowChange::Moved { window, differs } => if tracker.oldest_window_id == Some(window)
            && differs {
            WindowTracker { dirty: true, ..tracker }
        } else {
            tracker
        },
        WindowChange::SaveToDisk => tracker,
        WindowChange::SaveCompleted { saved } => if saved {
            WindowTracker { dirty: false, ..tracker }
        } else {
            tracker
        },
    }
}

/// What is to be done about `change`. Only the main window counts, and only
/// a change that makes a difference; saving happens only where there is
/// something to save.
pub open spec fn tracker_action(tracker: WindowTracker, change: WindowChange) -> WindowAction {
    match change {
        WindowChange::Opened(_) => WindowAction::Ignore,
        WindowChange::Resized { window, differs } => if tracker.oldest_window_id == Some(window)
            && differs {
            WindowAction::Remember
        } else {
            WindowAction::Ignore
        },
        WindowChange::Moved { window, differs } => if tracker.oldest_window_id == Some(window)
            && differs {
            WindowAction::Remember
        } else {
            WindowAction::Ignore
        },
        WindowChange::SaveToDisk => if tracker.dirty {
            WindowAction::Save
        } else {
            WindowAction::Ignore
        },
        WindowChange::SaveCompleted { saved } => if saved {
            WindowAction::ReportSaved
        } else {
            WindowAction::ReportSaveError
        },
    }
}

impl WindowTracker {
    /// A tracker that tracks no window yet and has nothing to save.
    pub fn new() -> (tracker: Self)
        ensures
            tracker.oldest_window_id is None,
            !tracker.dirty,
    {
        WindowTracker { oldest_window_id: None, dirty: false }
    }

    /// Whether `window` is the main window.
    pub fn tracks(&self, window: &Id) -> (is_main: bool)
        ensures
            is_main == (self.oldest_window_id == Some(*window)),
    {
        match &self.oldest_window_id {
            Some(oldest) => same_window(oldest, window),
            None => false,
        }
    }

    /// Takes in one change and says what is to be done about it.
    pub fn track(&mut self, change: WindowChange) -> (action: WindowAction)
        ensures
            *final(self) == tracker_next(*old(self), change),
            action == tracker_action(*old(self), change),
    {
        match change {
            WindowChange::Opened(window) => {
                if self.oldest_window_id.is_none() {
                    self.oldest_window_id = Some(window);
                }
                WindowAction::Ignore
            },
            WindowChange::Resized { window, differs } => {
                if self.tracks(&window) && differs {
                    self.dirty = true;
                    WindowAction::Remember
                } else {
                    WindowAction::Ignore
                }
            },
            WindowChange::Moved { window, differs } => {
                if self.tracks(&window) && differs {
                    self.dirty = true;
                    WindowAction::Remember
                } else {
                    WindowAction::Ignore
                }
            },
            WindowChange::SaveToDisk => {
                if self.dirty {
                    WindowAction::Save
                } else {
                    WindowAction::Ignore
                }
            },
            WindowChange::SaveCompleted { saved } => {
                if saved {
                    self.dirty = false;
                    WindowAction::ReportSaved
                } else {
                    WindowAction::ReportSaveError
                }
            },
        }
    }
}

impl WindowStatePlugin {
    /// The application whose window state the plugin keeps.
    pub closed spec fn app(&self) -> AppNameView {
        self.app_name@
    }

    /// The seconds between two automatic saves.
    pub closed spec fn interval(&self) -> u64 {
        self.auto_save_interval
    }

    /// Create a new window state plugin with default settings: it saves
    /// every 2 seconds.
    pub fn new(app_name: AppName) -> (plugin: Self)
        ensures
            plugin.app() == app_name@,
            plugin.interval() == 2,
    {
        WindowStatePlugin { app_name, auto_save_interval: 2 }
    }

    /// Set the auto-save interval in seconds.
    pub fn with_auto_save_interval(self, seconds: u64) -> (plugin: Self)
        ensures
            plugin.app() == self.app(),
            plugin.interval() == seconds,
    {
        let mut plugin = self;
        plugin.auto_save_interval = seconds;
        plugin
    }

    /// The application whose window state the plugin keeps.
    pub fn app_name(&self) -> (name: &AppName)
        ensures
            name@ == self.app(),
    {
        &self.app_name
    }

    /// The seconds between two automatic saves.
    pub fn auto_save_interval(&self) -> (seconds: u64)
        ensures
            seconds == self.interval(),
    {
        self.auto_save_interval
    }

    /// The name of the plugin.
    pub fn name(&self) -> (name: &'static str)
        ensures
            name@ == "window_state"@,
    {
        "window_state"
    }
}

impl Clone for WindowStatePlugin {
    fn clone(&self) -> (copy: Self)
        ensures
            copy.app() == self.app(),
            copy.interval() == self.interval(),
    {
        WindowStatePlugin {
            app_name: self.app_name.clone(),
            auto_save_interval: self.auto_save_interval,
        }
    }
}

} // verus!
