//! The decisions of the tray icon plugin.
use crate::string_map::StringMap;
use crate::text::join2;
use crate::tray_icon::menu::build_native_menu;
use crate::tray_icon::menu::changes_of;
use crate::tray_icon::menu::flatten_all;
use crate::tray_icon::menu::flattened_all;
use crate::tray_icon::menu::natives;
use crate::tray_icon::menu::refresh_all;
use crate::tray_icon::menu::refreshed;
use crate::tray_icon::menu::registered;
use crate::tray_icon::menu::shown;
use crate::tray_icon::menu::Menu;
use crate::tray_icon::menu::MenuItem;
use crate::tray_icon::menu::NativeItems;
use crate::tray_icon::menu::NativeMenuItem;
use crate::tray_icon::menu::same_items;
use vstd::prelude::*;
use vstd::string::*;

verus! {

/// Public input API that applications use.
#[derive(Debug, Clone)]
pub enum TrayIconInput {
    /// Update the tray icon.
    SetIcon(Vec<u8>),
    /// Update the tooltip.
    SetTooltip(Option<String>),
    /// Update the menu.
    UpdateMenu(Menu),
    /// Show the tray icon.
    Show,
    /// Hide the tray icon.
    Hide,
}

/// Messages that the tray icon plugin handles: the inputs, and the events
/// of the native tray icon.
#[derive(Debug, Clone)]
pub enum TrayIconMessage {
    /// Update the tray icon.
    SetIcon(Vec<u8>),
    /// Update the tooltip.
    SetTooltip(Option<String>),
    /// Update the menu.
    UpdateMenu(Menu),
    /// Menu event occurred.
    MenuEvent(String),
    /// Tray icon event occurred.
    TrayEvent(TrayIconEventKind),
    /// Show the tray icon.
    Show,
    /// Hide the tray icon.
    Hide,
}

/// Tray icon events.
#[derive(Debug, Clone, Copy, PartialEq, Eq, Structural)]
pub enum TrayIconEventKind {
    /// Left mouse button clicked.
    Click,
    /// Double clicked.
    DoubleClick,
}

/// Output messages emitted by the tray icon plugin.
#[derive(Debug, Clone, PartialEq, Eq)]
pub enum TrayIconOutput {
    /// A menu item was clicked.
    MenuItemClicked { id: String },
    /// The tray icon was clicked.
    IconClicked,
    /// The tray icon was double-clicked.
    IconDoubleClicked,
    /// An error occurred.
    Error { message: String },
}

/// A [`TrayIconOutput`] with its texts.
pub enum TrayIconOutputView {
    MenuItemClicked { id: Seq<char> },
    IconClicked,
    IconDoubleClicked,
    Error { message: Seq<char> },
}

impl View for TrayIconOutput {
    type V = TrayIconOutputView;

    open spec fn view(&self) -> TrayIconOutputView {
        match self {
            TrayIconOutput::MenuItemClicked { id } => TrayIconOutputView::MenuItemClicked {
                id: id@,
            },
            TrayIconOutput::IconClicked => TrayIconOutputView::IconClicked,
            TrayIconOutput::IconDoubleClicked => TrayIconOutputView::IconDoubleClicked,
            TrayIconOutput::Error { message } => TrayIconOutputView::Error { message: message@ },
        }
    }
}

/// An optional output with its texts.
pub open spec fn output_view(output: Option<TrayIconOutput>) -> Option<TrayIconOutputView> {
    match output {
        Some(output) => Some(output@),
        None => None,
    }
}

impl TrayIconInput {
    /// The message that asks the plugin for what this input asks.
    pub fn into_message(self) -> (message: TrayIconMessage)
        ensures
            match self {
                TrayIconInput::SetIcon(data) => message == TrayIconMessage::SetIcon(data),
                TrayIconInput::SetTooltip(tooltip) => message == TrayIconMessage::SetTooltip(
                    tooltip,
                ),
                TrayIconInput::UpdateMenu(menu) => message == TrayIconMessage::UpdateMenu(menu),
                TrayIconInput::Show => message == TrayIconMessage::Show,
                TrayIconInput::Hide => message == TrayIconMessage::Hide,
            },
    {
        match self {
            TrayIconInput::SetIcon(data) => TrayIconMessage::SetIcon(data),
            TrayIconInput::SetTooltip(tooltip) => TrayIconMessage::SetTooltip(tooltip),
            TrayIconInput::UpdateMenu(menu) => TrayIconMessage::UpdateMenu(menu),
            TrayIconInput::Show => TrayIconMessage::Show,
            TrayIconInput::Hide => TrayIconMessage::Hide,
        }
    }
}

impl From<TrayIconInput> for TrayIconMessage {
    fn from(input: TrayIconInput) -> (message: TrayIconMessage) {
        match input {
            TrayIconInput::SetIcon(data) => TrayIconMessage::SetIcon(data),
            TrayIconInput::SetTooltip(tooltip) => TrayIconMessage::SetTooltip(tooltip),
            TrayIconInput::UpdateMenu(menu) => TrayIconMessage::UpdateMenu(menu),
            TrayIconInput::Show => TrayIconMessage::Show,
            TrayIconInput::Hide => TrayIconMessage::Hide,
        }
    }
}

impl vstd::std_specs::convert::FromSpecImpl<TrayIconInput> for TrayIconMessage {
    open spec fn obeys_from_spec() -> bool {
        true
    }

    /// An input becomes the message of the same name, with what it carries.
    open spec fn from_spec(input: TrayIconInput) -> TrayIconMessage {
        match input {
            TrayIconInput::SetIcon(data) => TrayIconMessage::SetIcon(data),
            TrayIconInput::SetTooltip(tooltip) => TrayIconMessage::SetTooltip(tooltip),
            TrayIconInput::UpdateMenu(menu) => TrayIconMessage::UpdateMenu(menu),
            TrayIconInput::Show => TrayIconMessage::Show,
            TrayIconInput::Hide => TrayIconMessage::Hide,
        }
    }
}

/// What the tray icon plugin asks the native tray icon to do.
#[derive(Debug)]
pub enum TrayEffect {
    /// Nothing to do.
    Idle,
    /// Make an icon of these bytes and show it.
    SetIcon(Vec<u8>),
    /// Show this tooltip, or none.
    SetTooltip(Option<String>),
    /// Let each native menu item named show what is given for it.
    RefreshMenu(Vec<NativeMenuItem>),
    /// Show or hide the tray icon.
    SetVisible(bool),
}

/// Why the native tray icon did not do what it was asked.
#[derive(Debug)]
pub enum TrayFailure {
    /// No icon could be made of the bytes; the text says why.
    Icon(String),
    /// The native call failed; the text says why.
    Native(String),
}

/// The plugin state.
#[derive(Debug)]
pub struct TrayIconState {
    /// Whether there is a native tray icon.
    has_tray_icon: bool,
    /// Current tooltip.
    tooltip: Option<String>,
    /// Current icon bytes.
    icon_bytes: Option<Vec<u8>>,
    /// Current menu data.
    current_menu: Option<Menu>,
    /// What the native menu items show, by identifier.
    native_items: StringMap<NativeMenuItem>,
}

/// What the contracts say of a [`TrayIconState`].
pub struct TrayIconStateView {
    pub has_tray_icon: bool,
    pub tooltip: Option<Seq<char>>,
    pub icon_bytes: Option<Seq<u8>>,
    pub current_menu: Option<Seq<MenuItem>>,
    pub native_items: NativeItems,
}

/// An optional text.
pub open spec fn text_view(text: Option<String>) -> Option<Seq<char>> {
    match text {
        Some(text) => Some(text@),
        None => None,
    }
}

/// Optional bytes.
pub open spec fn bytes_view(bytes: Option<Vec<u8>>) -> Option<Seq<u8>> {
    match bytes {
        Some(bytes) => Some(bytes@),
        None => None,
    }
}

impl View for TrayIconState {
    type V = TrayIconStateView;

    closed spec fn view(&self) -> TrayIconStateView {
        TrayIconStateView {
            has_tray_icon: self.has_tray_icon,
            tooltip: text_view(self.tooltip),
            icon_bytes: bytes_view(self.icon_bytes),
            current_menu: match self.current_menu {
                Some(menu) => Some(menu@),
                None => None,
            },
            native_items: natives(self.native_items@),
        }
    }
}

impl TrayIconState {
    /// Current tooltip.
    pub fn tooltip(&self) -> (tooltip: &Option<String>)
        ensures
            text_view(*tooltip) == self@.tooltip,
    {
        &self.tooltip
    }

    /// Current icon bytes.
    pub fn icon_bytes(&self) -> (bytes: &Option<Vec<u8>>)
        ensures
            bytes_view(*bytes) == self@.icon_bytes,
    {
        &self.icon_bytes
    }

    /// Whether there is a native tray icon.
    pub fn has_tray_icon(&self) -> (present: bool)
        ensures
            present == self@.has_tray_icon,
    {
        self.has_tray_icon
    }

    /// Whether a menu is set.
    pub fn has_menu(&self) -> (present: bool)
        ensures
            present == self@.current_menu is Some,
    {
        self.current_menu.is_some()
    }
}

/// Tray icon plugin configuration.
#[derive(Debug, Clone)]
pub struct TrayIconPlugin {
    /// Tooltip text for the tray icon.
    tooltip: Option<String>,
    /// Icon data (PNG format).
    icon_data: Option<Vec<u8>>,
    /// Menu.
    menu: Option<Menu>,
}

/// What the contracts say of a [`TrayIconPlugin`].
pub struct TrayIconPluginView {
    pub tooltip: Option<Seq<char>>,
    pub icon_data: Option<Seq<u8>>,
    pub menu: Option<Seq<MenuItem>>,
}

impl View for TrayIconPlugin {
    type V = TrayIconPluginView;

    closed spec fn view(&self) -> TrayIconPluginView {
        TrayIconPluginView {
            tooltip: text_view(self.tooltip),
            icon_data: bytes_view(self.icon_data),
            menu: match self.menu {
                Some(menu) => Some(menu@),
                None => None,
            },
        }
    }
}

/// What the plugin asks of the native tray icon for `message`. Without a
/// native tray icon there is nothing to ask; clicks ask for nothing either.
pub open spec fn tray_asks(state: TrayIconStateView, message: TrayIconMessage) -> bool {
    state.has_tray_icon && (message is SetIcon || message is SetTooltip || message is Show
        || message is Hide)
}

/// The output that `message` leads to at once.
pub open spec fn tray_output(message: TrayIconMessage) -> Option<TrayIconOutputView> {
    match message {
        TrayIconMessage::MenuEvent(id) => Some(TrayIconOutputView::MenuItemClicked { id: id@ }),
        TrayIconMessage::TrayEvent(TrayIconEventKind::Click) => Some(
            TrayIconOutputView::IconClicked,
        ),
        TrayIconMessage::TrayEvent(TrayIconEventKind::DoubleClick) => Some(
            TrayIconOutputView::IconDoubleClicked,
        ),
        _ => None,
    }
}

/// The state after the plugin has handled `message`. A new menu takes the
/// place of the old one, and the native items that are registered are
/// brought up to date with its items; nothing else changes before the
/// native tray icon has answered.
pub open spec fn tray_next(state: TrayIconStateView, message: TrayIconMessage) -> TrayIconStateView {
    match message {
        TrayIconMessage::UpdateMenu(menu) => TrayIconStateView {
            current_menu: Some(menu@),
            native_items: refreshed(
                state.native_items,
                flattened_all(menu@, menu@.len()),
                flattened_all(menu@, menu@.len()).len(),
            ),
            ..state
        },
        _ => state,
    }
}

/// What is said when the native tray icon fails at `effect`.
pub open spec fn failure_text(effect: TrayEffect, failure: TrayFailure) -> Seq<char> {
    let reason = match failure {
        TrayFailure::Icon(reason) => reason@,
        TrayFailure::Native(reason) => reason@,
    };
    match effect {
        TrayEffect::SetIcon(_) => match failure {
            TrayFailure::Icon(_) => reason,
            TrayFailure::Native(_) => "Failed to set icon: "@ + reason,
        },
        TrayEffect::SetTooltip(_) => "Failed to set tooltip: "@ + reason,
        TrayEffect::SetVisible(true) => "Failed to show tray icon: "@ + reason,
        TrayEffect::SetVisible(false) => "Failed to hide tray icon: "@ + reason,
        _ => reason,
    }
}

/// The state after the native tray icon has done what `effect` asked: a new
/// icon or tooltip is remembered.
pub open spec fn tray_done(state: TrayIconStateView, effect: TrayEffect) -> TrayIconStateView {
    match effect {
        TrayEffect::SetIcon(bytes) => TrayIconStateView { icon_bytes: Some(bytes@), ..state },
        TrayEffect::SetTooltip(tooltip) => TrayIconStateView {
            tooltip: text_view(tooltip),
            ..state
        },
        _ => state,
    }
}

impl TrayIconPlugin {
    /// Create a new tray icon plugin with a tooltip.
    pub fn new(tooltip: &str) -> (plugin: Self)
        ensures
            plugin@ == (TrayIconPluginView {
                tooltip: Some(tooltip@),
                icon_data: None,
                menu: None,
            }),
    {
        TrayIconPlugin { tooltip: Some(String::from_str(tooltip)), icon_data: None, menu: None }
    }

    /// Set the icon from raw bytes (PNG format).
    pub fn with_icon(self, icon_data: Vec<u8>) -> (plugin: Self)
        ensures
            plugin@ == (TrayIconPluginView { icon_data: Some(icon_data@), ..self@ }),
    {
        let mut plugin = self;
        plugin.icon_data = Some(icon_data);
        plugin
    }

    /// Set the icon from a resource.
    pub fn with_icon_from_slice(self, bytes: &[u8]) -> (plugin: Self)
        ensures
            plugin@ == (TrayIconPluginView { icon_data: Some(bytes@), ..self@ }),
    {
        let mut plugin = self;
        plugin.icon_data = Some(vstd::slice::slice_to_vec(bytes));
        plugin
    }

    /// Set the menu.
    pub fn with_menu(self, menu: Menu) -> (plugin: Self)
        ensures
            plugin@ == (TrayIconPluginView { menu: Some(menu@), ..self@ }),
    {
        let mut plugin = self;
        plugin.menu = Some(menu);
        plugin
    }

    /// Set the tooltip.
    pub fn with_tooltip(self, tooltip: &str) -> (plugin: Self)
        ensures
            plugin@ == (TrayIconPluginView { tooltip: Some(tooltip@), ..self@ }),
    {
        let mut plugin = self;
        plugin.tooltip = Some(String::from_str(tooltip));
        plugin
    }

    /// The name of the plugin.
    pub fn name(&self) -> (name: &'static str)
        ensures
            name@ == "tray_icon"@,
    {
        "tray_icon"
    }

    /// The icon data, if any was set.
    pub fn icon_data(&self) -> (data: &Option<Vec<u8>>)
        ensures
            bytes_view(*data) == self@.icon_data,
    {
        &self.icon_data
    }

    /// The tooltip.
    pub fn tooltip(&self) -> (tooltip: &Option<String>)
        ensures
            text_view(*tooltip) == self@.tooltip,
    {
        &self.tooltip
    }

    /// The menu, if any was set.
    pub fn menu(&self) -> (menu: &Option<Menu>)
        ensures
            match *menu {
                Some(found) => self@.menu == Some(found@),
                None => self@.menu is None,
            },
    {
        &self.menu
    }

    /// The state the plugin starts with, given whether a native tray icon
    /// could be created: it remembers tooltip and icon of the configuration,
    /// holds a copy of the configured menu, item for item, and registers the
    /// native items of that menu.
    pub fn init(&self, has_tray_icon: bool) -> (state: TrayIconState)
        ensures
            state@.has_tray_icon == has_tray_icon,
            state@.tooltip == self@.tooltip,
            state@.icon_bytes == self@.icon_data,
            match self@.menu {
                Some(menu) => state@.current_menu matches Some(current) && current.len()
                    == menu.len() && same_items(menu, current, menu.len()),
                None => state@.current_menu is None,
            },
            state@.native_items == match self@.menu {
                Some(menu) => registered(
                    Map::empty(),
                    flattened_all(menu, menu.len()),
                    flattened_all(menu, menu.len()).len(),
                ),
                None => Map::empty(),
            },
    {
        let native_items = match &self.menu {
            Some(menu) => build_native_menu(menu),
            None => {
                let empty: StringMap<NativeMenuItem> = StringMap::new();
                assert(natives(empty@) =~= Map::empty());
                empty
            },
        };
        TrayIconState {
            has_tray_icon,
            tooltip: match &self.tooltip {
                Some(text) => Some(text.clone()),
                None => None,
            },
            icon_bytes: match &self.icon_data {
                Some(bytes) => Some(bytes.clone()),
                None => None,
            },
            current_menu: match &self.menu {
                Some(menu) => Some(menu.clone()),
                None => None,
            },
            native_items,
        }
    }

    /// Handles one message: says what the native tray icon is to do and
    /// which output is to be emitted at once. What the native tray icon
    /// answers goes to [`TrayIconPlugin::settle`].
    pub fn decide(&self, state: &mut TrayIconState, message: TrayIconMessage) -> (decision: (
        TrayEffect,
        Option<TrayIconOutput>,
    ))
        ensures
            final(state)@ == tray_next(old(state)@, message),
            output_view(decision.1) == tray_output(message),
            match message {
                TrayIconMessage::SetIcon(bytes) => if old(state)@.has_tray_icon {
                    decision.0 == TrayEffect::SetIcon(bytes)
                } else {
                    decision.0 is Idle
                },
                TrayIconMessage::SetTooltip(tooltip) => if old(state)@.has_tray_icon {
                    decision.0 == TrayEffect::SetTooltip(tooltip)
                } else {
                    decision.0 is Idle
                },
                TrayIconMessage::UpdateMenu(menu) => decision.0 matches TrayEffect::RefreshMenu(
                    changes,
                ) && shown(changes@) == changes_of(
                    old(state)@.native_items,
                    flattened_all(menu@, menu@.len()),
                    flattened_all(menu@, menu@.len()).len(),
                ),
                TrayIconMessage::Show => if old(state)@.has_tray_icon {
                    decision.0 == TrayEffect::SetVisible(true)
                } else {
                    decision.0 is Idle
                },
                TrayIconMessage::Hide => if old(state)@.has_tray_icon {
                    decision.0 == TrayEffect::SetVisible(false)
                } else {
                    decision.0 is Idle
                },
                _ => decision.0 is Idle,
            },
    {
        match message {
            TrayIconMessage::SetIcon(bytes) => {
                if state.has_tray_icon {
                    (TrayEffect::SetIcon(bytes), None)
                } else {
                    (TrayEffect::Idle, None)
                }
            },
            TrayIconMessage::SetTooltip(tooltip) => {
                if state.has_tray_icon {
                    (TrayEffect::SetTooltip(tooltip), None)
                } else {
                    (TrayEffect::Idle, None)
                }
            },
            TrayIconMessage::UpdateMenu(new_menu) => {
                let found = flatten_all(new_menu.items());
                let changes = refresh_all(&found, &mut state.native_items);
                state.current_menu = Some(new_menu);
                (TrayEffect::RefreshMenu(changes), None)
            },
            TrayIconMessage::MenuEvent(id) => (
                TrayEffect::Idle,
                Some(TrayIconOutput::MenuItemClicked { id }),
            ),
            TrayIconMessage::TrayEvent(kind) => {
                let output = match kind {
                    TrayIconEventKind::Click => TrayIconOutput::IconClicked,
                    TrayIconEventKind::DoubleClick => TrayIconOutput::IconDoubleClicked,
                };
                (TrayEffect::Idle, Some(output))
            },
            TrayIconMessage::Show => {
                if state.has_tray_icon {
                    (TrayEffect::SetVisible(true), None)
                } else {
                    (TrayEffect::Idle, None)
                }
            },
            TrayIconMessage::Hide => {
                if state.has_tray_icon {
                    (TrayEffect::SetVisible(false), None)
                } else {
                    (TrayEffect::Idle, None)
                }
            },
        }
    }

    /// Takes in what the native tray icon answered to `effect`. Where it
    /// did what was asked, a new icon or tooltip is remembered and nothing
    /// is emitted; where it failed, nothing changes and the failure is
    /// emitted as an error.
    pub fn settle(&self, state: &mut TrayIconState, effect: TrayEffect, failure: Option<
        TrayFailure,
    >) -> (output: Option<TrayIconOutput>)
        ensures
            match failure {
                Some(failure) => final(state)@ == old(state)@ && output_view(output) == Some(
                    TrayIconOutputView::Error { message: failure_text(effect, failure) },
                ),
                None => final(state)@ == tray_done(old(state)@, effect) && output is None,
            },
    {
        match failure {
            Some(failure) => {
                let (reason, from_icon) = match failure {
                    TrayFailure::Icon(reason) => (reason, true),
                    TrayFailure::Native(reason) => (reason, false),
                };
                let message = match effect {
                    TrayEffect::SetIcon(_) => if from_icon {
                        reason
                    } else {
                        join2("Failed to set icon: ", reason.as_str())
                    },
                    TrayEffect::SetTooltip(_) => join2("Failed to set tooltip: ", reason.as_str()),
                    TrayEffect::SetVisible(true) => join2(
                        "Failed to show tray icon: ",
                        reason.as_str(),
                    ),
                    TrayEffect::SetVisible(false) => join2(
                        "Failed to hide tray icon: ",
                        reason.as_str(),
                    ),
                    _ => reason,
                };
                Some(TrayIconOutput::Error { message })
            },
            None => {
                match effect {
                    TrayEffect::SetIcon(bytes) => {
                        state.icon_bytes = Some(bytes);
                    },
                    TrayEffect::SetTooltip(tooltip) => {
                        state.tooltip = tooltip;
                    },
                    _ => {},
                }
                None
            },
        }
    }
}

} // verus!
