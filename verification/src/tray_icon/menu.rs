//! The menu of the tray icon: what the application describes, and what the
//! native menu items show of it.
use crate::string_map::StringMap;
use vstd::prelude::*;
use vstd::string::*;

verus! {

/// Menu item types. They hold only the data; the native items are created
/// from them.
#[derive(Debug)]
pub enum MenuItem {
    /// Regular menu item.
    Item { id: String, text: String, enabled: bool },
    /// Checkable menu item.
    CheckItem { id: String, text: String, enabled: bool, checked: bool },
    /// Submenu.
    Submenu { id: String, text: String, enabled: bool, items: Vec<MenuItem> },
    /// Separator.
    Separator,
}

/// Menu builder that collects menu items.
#[derive(Debug)]
pub struct Menu {
    items: Vec<MenuItem>,
}

impl Menu {
    /// The items of the menu, in the order in which they were added.
    pub closed spec fn view(&self) -> Seq<MenuItem> {
        self.items@
    }

    /// Create a new menu, without items.
    pub fn new() -> (menu: Self)
        ensures
            menu@ == Seq::<MenuItem>::empty(),
    {
        Menu { items: Vec::new() }
    }

    /// Add a menu item after the items that are there.
    pub fn add_item(&mut self, item: MenuItem)
        ensures
            final(self)@ == old(self)@.push(item),
    {
        self.items.push(item);
    }

    /// Get all items.
    pub fn items(&self) -> (items: &[MenuItem])
        ensures
            items@ == self@,
    {
        self.items.as_slice()
    }
}

/// Whether two menu items say the same: they are of the same kind, with the
/// same texts and flags, and the items of their submenus say the same, one
/// by one.
pub open spec fn same_item(left: MenuItem, right: MenuItem) -> bool
    decreases left, 0nat,
{
    match left {
        MenuItem::Item { id, text, enabled } => right matches MenuItem::Item {
            id: right_id,
            text: right_text,
            enabled: right_enabled,
        } && id@ == right_id@ && text@ == right_text@ && enabled == right_enabled,
        MenuItem::CheckItem { id, text, enabled, checked } => right matches MenuItem::CheckItem {
            id: right_id,
            text: right_text,
            enabled: right_enabled,
            checked: right_checked,
        } && id@ == right_id@ && text@ == right_text@ && enabled == right_enabled && checked
            == right_checked,
        MenuItem::Submenu { id, text, enabled, items } => right matches MenuItem::Submenu {
            id: right_id,
            text: right_text,
            enabled: right_enabled,
            items: right_items,
        } && id@ == right_id@ && text@ == right_text@ && enabled == right_enabled && items@.len()
            == right_items@.len() && same_items(items@, right_items@, items@.len()),
        MenuItem::Separator => right is Separator,
    }
}

/// Whether the first `count` items of two lists say the same, one by one.
pub open spec fn same_items(left: Seq<MenuItem>, right: Seq<MenuItem>, count: nat) -> bool
    decreases left, count,
{
    count == 0 || (count <= left.len() && count <= right.len() && same_items(
        left,
        right,
        (count - 1) as nat,
    ) && same_item(left[count - 1], right[count - 1]))
}

/// A copy of each of `items`.
#[verifier::loop_isolation(false)]
fn duplicate_items(items: &Vec<MenuItem>) -> (copies: Vec<MenuItem>)
    ensures
        copies@.len() == items@.len(),
        same_items(items@, copies@, items@.len()),
    decreases items,
{
    let mut copies: Vec<MenuItem> = Vec::new();
    let mut index: usize = 0;
    while index < items.len()
        invariant
            index <= items@.len(),
            copies@.len() == index,
            same_items(items@, copies@, index as nat),
        decreases items@.len() - index,
    {
        let copy = items[index].duplicate();
        let ghost before = copies@;
        copies.push(copy);
        proof {
            lemma_same_items_extends(items@, before, copies@, index as nat);
        }
        index = index + 1;
    }
    copies
}

/// Whether the first items of two lists say the same does not depend on
/// what follows them in the second list.
proof fn lemma_same_items_extends(
    left: Seq<MenuItem>,
    shorter: Seq<MenuItem>,
    longer: Seq<MenuItem>,
    count: nat,
)
    requires
        same_items(left, shorter, count),
        count <= shorter.len(),
        shorter.len() <= longer.len(),
        forall|i: int| 0 <= i < shorter.len() ==> longer[i] == shorter[i],
    ensures
        same_items(left, longer, count),
    decreases count,
{
    if count > 0 {
        lemma_same_items_extends(left, shorter, longer, (count - 1) as nat);
    }
}

impl MenuItem {
    /// A copy of the item that says the same.
    pub fn duplicate(&self) -> (copy: Self)
        ensures
            same_item(*self, copy),
        decreases self,
    {
        match self {
            MenuItem::Item { id, text, enabled } => MenuItem::Item {
                id: id.clone(),
                text: text.clone(),
                enabled: *enabled,
            },
            MenuItem::CheckItem { id, text, enabled, checked } => MenuItem::CheckItem {
                id: id.clone(),
                text: text.clone(),
                enabled: *enabled,
                checked: *checked,
            },
            MenuItem::Submenu { id, text, enabled, items } => MenuItem::Submenu {
                id: id.clone(),
                text: text.clone(),
                enabled: *enabled,
                items: duplicate_items(items),
            },
            MenuItem::Separator => MenuItem::Separator,
        }
    }
}

impl Clone for MenuItem {
    fn clone(&self) -> (copy: Self)
        ensures
            same_item(*self, copy),
    {
        self.duplicate()
    }
}

impl Clone for Menu {
    fn clone(&self) -> (copy: Self)
        ensures
            copy@.len() == self@.len(),
            same_items(self@, copy@, self@.len()),
    {
        Menu { items: duplicate_items(&self.items) }
    }
}

impl Default for Menu {
    fn default() -> (menu: Self)
        ensures
            menu@ == Seq::<MenuItem>::empty(),
    {
        Menu::new()
    }
}

impl MenuItem {
    /// The text of the item's identifier; a separator has none.
    pub open spec fn id_text(&self) -> Option<Seq<char>> {
        match self {
            MenuItem::Item { id, .. } => Some(id@),
            MenuItem::CheckItem { id, .. } => Some(id@),
            MenuItem::Submenu { id, .. } => Some(id@),
            MenuItem::Separator => None,
        }
    }

    /// Create a new menu item.
    pub fn new(id: &str, text: &str, enabled: bool) -> (item: Self)
        ensures
            item matches MenuItem::Item { id: item_id, text: item_text, enabled: item_enabled }
                && item_id@ == id@ && item_text@ == text@ && item_enabled == enabled,
    {
        MenuItem::Item { id: String::from_str(id), text: String::from_str(text), enabled }
    }

    /// Create a new checkable menu item.
    pub fn new_check(id: &str, text: &str, enabled: bool, checked: bool) -> (item: Self)
        ensures
            item matches MenuItem::CheckItem {
                id: item_id,
                text: item_text,
                enabled: item_enabled,
                checked: item_checked,
            } && item_id@ == id@ && item_text@ == text@ && item_enabled == enabled && item_checked
                == checked,
    {
        MenuItem::CheckItem {
            id: String::from_str(id),
            text: String::from_str(text),
            enabled,
            checked,
        }
    }

    /// Create a new submenu.
    pub fn new_submenu(id: &str, text: &str, enabled: bool, items: Vec<MenuItem>) -> (item: Self)
        ensures
            item matches MenuItem::Submenu {
                id: item_id,
                text: item_text,
                enabled: item_enabled,
                items: item_items,
            } && item_id@ == id@ && item_text@ == text@ && item_enabled == enabled && item_items
                == items,
    {
        MenuItem::Submenu {
            id: String::from_str(id),
            text: String::from_str(text),
            enabled,
            items,
        }
    }

    /// Create a separator.
    pub fn separator() -> (item: Self)
        ensures
            item is Separator,
    {
        MenuItem::Separator
    }

    /// Get the menu item ID; a separator has none.
    pub fn id(&self) -> (id: Option<&str>)
        ensures
            match id {
                Some(text) => self.id_text() == Some(text@),
                None => self.id_text() is None,
            },
    {
        match self {
            MenuItem::Item { id, .. } => Some(id.as_str()),
            MenuItem::CheckItem { id, .. } => Some(id.as_str()),
            MenuItem::Submenu { id, .. } => Some(id.as_str()),
            MenuItem::Separator => None,
        }
    }
}

/// Which native widget stands for a menu item.
#[derive(Debug, Clone, Copy, PartialEq, Eq, Structural)]
pub enum NativeMenuItemKind {
    /// A plain native item.
    Item,
    /// A native item with a check mark.
    CheckItem,
    /// A native submenu.
    Submenu,
}

/// What a native menu item shows.
#[derive(Debug, PartialEq, Eq)]
pub struct NativeMenuItem {
    kind: NativeMenuItemKind,
    id: String,
    text: String,
    enabled: bool,
    checked: bool,
}

/// A [`NativeMenuItem`] with its texts.
pub struct NativeView {
    pub kind: NativeMenuItemKind,
    pub id: Seq<char>,
    pub text: Seq<char>,
    pub enabled: bool,
    pub checked: bool,
}

/// What the native item of a menu item shows when it is created. A
/// separator has no native item of its own; the placeholder that stands for
/// it is a disabled plain item without identifier and text.
pub open spec fn native_of(item: MenuItem) -> NativeView {
    match item {
        MenuItem::Item { id, text, enabled } => NativeView {
            kind: NativeMenuItemKind::Item,
            id: id@,
            text: text@,
            enabled,
            checked: false,
        },
        MenuItem::CheckItem { id, text, enabled, checked } => NativeView {
            kind: NativeMenuItemKind::CheckItem,
            id: id@,
            text: text@,
            enabled,
            checked,
        },
        MenuItem::Submenu { id, text, enabled, .. } => NativeView {
            kind: NativeMenuItemKind::Submenu,
            id: id@,
            text: text@,
            enabled,
            checked: false,
        },
        MenuItem::Separator => NativeView {
            kind: NativeMenuItemKind::Item,
            id: Seq::empty(),
            text: Seq::empty(),
            enabled: false,
            checked: false,
        },
    }
}

/// What a native item shows after it was brought up to date with `item`. A
/// native item takes text and state from a menu item of its own kind and
/// ignores every other.
pub open spec fn updated_from(native: NativeView, item: MenuItem) -> NativeView {
    match item {
        MenuItem::Item { text, enabled, .. } => if native.kind == NativeMenuItemKind::Item {
            NativeView { text: text@, enabled, ..native }
        } else {
            native
        },
        MenuItem::CheckItem { text, enabled, checked, .. } => if native.kind
            == NativeMenuItemKind::CheckItem {
            NativeView { text: text@, enabled, checked, ..native }
        } else {
            native
        },
        MenuItem::Submenu { text, enabled, .. } => if native.kind == NativeMenuItemKind::Submenu {
            NativeView { text: text@, enabled, ..native }
        } else {
            native
        },
        MenuItem::Separator => native,
    }
}

impl View for NativeMenuItem {
    type V = NativeView;

    closed spec fn view(&self) -> NativeView {
        NativeView {
            kind: self.kind,
            id: self.id@,
            text: self.text@,
            enabled: self.enabled,
            checked: self.checked,
        }
    }
}

impl NativeMenuItem {
    /// A plain native item.
    pub fn new_item(id: &str, text: &str, enabled: bool) -> (native: Self)
        ensures
            native@ == (NativeView {
                kind: NativeMenuItemKind::Item,
                id: id@,
                text: text@,
                enabled,
                checked: false,
            }),
    {
        NativeMenuItem {
            kind: NativeMenuItemKind::Item,
            id: String::from_str(id),
            text: String::from_str(text),
            enabled,
            checked: false,
        }
    }

    /// A native item with a check mark.
    pub fn new_check_item(id: &str, text: &str, enabled: bool, checked: bool) -> (native: Self)
        ensures
            native@ == (NativeView {
                kind: NativeMenuItemKind::CheckItem,
                id: id@,
                text: text@,
                enabled,
                checked,
            }),
    {
        NativeMenuItem {
            kind: NativeMenuItemKind::CheckItem,
            id: String::from_str(id),
            text: String::from_str(text),
            enabled,
            checked,
        }
    }

    /// A native submenu.
    pub fn new_submenu(id: &str, text: &str, enabled: bool) -> (native: Self)
        ensures
            native@ == (NativeView {
                kind: NativeMenuItemKind::Submenu,
                id: id@,
                text: text@,
                enabled,
                checked: false,
            }),
    {
        NativeMenuItem {
            kind: NativeMenuItemKind::Submenu,
            id: String::from_str(id),
            text: String::from_str(text),
            enabled,
            checked: false,
        }
    }

    /// The native item of a menu item, as it is created.
    pub fn of(item: &MenuItem) -> (native: Self)
        ensures
            native@ == native_of(*item),
    {
        match item {
            MenuItem::Item { id, text, enabled } => NativeMenuItem::new_item(
                id.as_str(),
                text.as_str(),
                *enabled,
            ),
            MenuItem::CheckItem { id, text, enabled, checked } => NativeMenuItem::new_check_item(
                id.as_str(),
                text.as_str(),
                *enabled,
                *checked,
            ),
            MenuItem::Submenu { id, text, enabled, .. } => NativeMenuItem::new_submenu(
                id.as_str(),
                text.as_str(),
                *enabled,
            ),
            MenuItem::Separator => {
                proof {
                    reveal_strlit("");
                    assert(""@ =~= Seq::<char>::empty());
                }
                NativeMenuItem::new_item("", "", false)
            },
        }
    }

    /// Which native widget this is.
    pub fn kind(&self) -> (kind: NativeMenuItemKind)
        ensures
            kind == self@.kind,
    {
        self.kind
    }

    /// The identifier of the item.
    pub fn id(&self) -> (id: &str)
        ensures
            id@ == self@.id,
    {
        self.id.as_str()
    }

    /// The text that the item shows.
    pub fn text(&self) -> (text: &str)
        ensures
            text@ == self@.text,
    {
        self.text.as_str()
    }

    /// Whether the item can be chosen.
    pub fn enabled(&self) -> (enabled: bool)
        ensures
            enabled == self@.enabled,
    {
        self.enabled
    }

    /// Whether the item is checked.
    pub fn checked(&self) -> (checked: bool)
        ensures
            checked == self@.checked,
    {
        self.checked
    }

    /// Whether this is a native submenu, to which items can be appended.
    pub fn submenu(&self) -> (is_submenu: bool)
        ensures
            is_submenu == (self@.kind == NativeMenuItemKind::Submenu),
    {
        self.kind == NativeMenuItemKind::Submenu
    }

    /// Brings the native item up to date with `item`, and tells whether
    /// there was anything to take from it.
    pub fn update_from_item(&mut self, item: &MenuItem) -> (taken: bool)
        ensures
            final(self)@ == updated_from(old(self)@, *item),
            taken == (!(item is Separator) && native_of(*item).kind == old(self)@.kind),
    {
        match item {
            MenuItem::Item { text, enabled, .. } => {
                if self.kind == NativeMenuItemKind::Item {
                    self.text = text.clone();
                    self.enabled = *enabled;
                    true
                } else {
                    false
                }
            },
            MenuItem::CheckItem { text, enabled, checked, .. } => {
                if self.kind == NativeMenuItemKind::CheckItem {
                    self.text = text.clone();
                    self.enabled = *enabled;
                    self.checked = *checked;
                    true
                } else {
                    false
                }
            },
            MenuItem::Submenu { text, enabled, .. } => {
                if self.kind == NativeMenuItemKind::Submenu {
                    self.text = text.clone();
                    self.enabled = *enabled;
                    true
                } else {
                    false
                }
            },
            MenuItem::Separator => false,
        }
    }
}

impl Clone for NativeMenuItem {
    fn clone(&self) -> (copy: Self)
        ensures
            copy@ == self@,
    {
        NativeMenuItem {
            kind: self.kind,
            id: self.id.clone(),
            text: self.text.clone(),
            enabled: self.enabled,
            checked: self.checked,
        }
    }
}

/// The items of the tree below and including `item`, separators left out,
/// each item before the items of its submenu, those in their order.
pub open spec fn flattened(item: MenuItem) -> Seq<MenuItem>
    decreases item, 0nat,
{
    match item {
        MenuItem::Separator => Seq::empty(),
        MenuItem::Submenu { items, .. } => seq![item] + flattened_all(items@, items@.len()),
        _ => seq![item],
    }
}

/// The flattened trees of the first `count` of `items`, one after the
/// other.
pub open spec fn flattened_all(items: Seq<MenuItem>, count: nat) -> Seq<MenuItem>
    decreases items, count,
{
    if count == 0 || count > items.len() {
        Seq::empty()
    } else {
        flattened_all(items, (count - 1) as nat) + flattened(items[count - 1])
    }
}

/// The native items by identifier.
pub type NativeItems = Map<Seq<char>, NativeView>;

/// The native items of a registry, by identifier.
pub open spec fn natives(registry: Map<Seq<char>, NativeMenuItem>) -> NativeItems {
    Map::new(|id: Seq<char>| registry.contains_key(id), |id: Seq<char>| registry[id]@)
}

/// The registry after the native items of the first `count` of `items` were
/// created, in that order. Each is registered under its identifier; where
/// two items share one, the later takes the place of the earlier.
pub open spec fn registered(registry: NativeItems, items: Seq<MenuItem>, count: nat) -> NativeItems
    decreases count,
{
    if count == 0 || count > items.len() {
        registry
    } else {
        let item = items[count - 1];
        registered(registry, items, (count - 1) as nat).insert(
            native_of(item).id,
            native_of(item),
        )
    }
}

/// The registry after the native items in it were brought up to date with
/// the first `count` of `items`, in that order. An item whose identifier is
/// not registered changes nothing.
pub open spec fn refreshed(registry: NativeItems, items: Seq<MenuItem>, count: nat) -> NativeItems
    decreases count,
{
    if count == 0 || count > items.len() {
        registry
    } else {
        let item = items[count - 1];
        let before = refreshed(registry, items, (count - 1) as nat);
        if before.contains_key(native_of(item).id) {
            before.insert(native_of(item).id, updated_from(before[native_of(item).id], item))
        } else {
            before
        }
    }
}

/// What the native items that took something show afterwards, when the
/// registered native items are brought up to date with the first `count` of
/// `items`, in that order.
pub open spec fn changes_of(registry: NativeItems, items: Seq<MenuItem>, count: nat) -> Seq<
    NativeView,
>
    decreases count,
{
    if count == 0 || count > items.len() {
        Seq::empty()
    } else {
        let item = items[count - 1];
        let before = refreshed(registry, items, (count - 1) as nat);
        let earlier = changes_of(registry, items, (count - 1) as nat);
        if before.contains_key(native_of(item).id) && !(item is Separator) && native_of(item).kind
            == before[native_of(item).id].kind {
            earlier.push(updated_from(before[native_of(item).id], item))
        } else {
            earlier
        }
    }
}

/// What a list of native items shows.
pub open spec fn shown(natives: Seq<NativeMenuItem>) -> Seq<NativeView> {
    Seq::new(natives.len(), |i: int| natives[i]@)
}

/// The items of the tree below and including `item`, separators left out,
/// each item before the items of its submenu.
#[verifier::loop_isolation(false)]
pub fn flatten<'a>(item: &'a MenuItem) -> (found: Vec<&'a MenuItem>)
    ensures
        items_of(found@) == flattened(*item),
    decreases item,
{
    match item {
        MenuItem::Separator => {
            let found: Vec<&'a MenuItem> = Vec::new();
            assert(items_of(found@) =~= flattened(*item));
            found
        },
        MenuItem::Submenu { items, .. } => {
            let mut found: Vec<&'a MenuItem> = Vec::new();
            found.push(item);
            let mut index: usize = 0;
            assert(items_of(found@) =~= seq![*item] + flattened_all(items@, 0));
            while index < items.len()
                invariant
                    index <= items@.len(),
                    items_of(found@) == seq![*item] + flattened_all(items@, index as nat),
                decreases items@.len() - index,
            {
                let mut below = flatten(&items[index]);
                let ghost before = items_of(found@);
                let ghost added = items_of(below@);
                found.append(&mut below);
                assert(items_of(found@) =~= before + added);
                assert(items_of(found@) =~= seq![*item] + flattened_all(
                    items@,
                    (index + 1) as nat,
                ));
                index = index + 1;
            }
            found
        },
        _ => {
            let mut found: Vec<&'a MenuItem> = Vec::new();
            found.push(item);
            assert(items_of(found@) =~= flattened(*item));
            found
        },
    }
}

/// The items of the trees below `items`, separators left out, tree by
/// tree.
pub fn flatten_all<'a>(items: &'a [MenuItem]) -> (found: Vec<&'a MenuItem>)
    ensures
        items_of(found@) == flattened_all(items@, items@.len()),
{
    let mut found: Vec<&'a MenuItem> = Vec::new();
    let mut index: usize = 0;
    assert(items_of(found@) =~= flattened_all(items@, 0));
    while index < items.len()
        invariant
            index <= items@.len(),
            items_of(found@) == flattened_all(items@, index as nat),
        decreases items@.len() - index,
    {
        let mut below = flatten(&items[index]);
        let ghost before = items_of(found@);
        let ghost added = items_of(below@);
        found.append(&mut below);
        assert(items_of(found@) =~= before + added);
        index = index + 1;
    }
    found
}

/// The items of `found`, as values.
pub open spec fn items_of(found: Seq<&MenuItem>) -> Seq<MenuItem> {
    Seq::new(found.len(), |i: int| *found[i])
}

/// Creates the native item of every item of `found`, in that order, and
/// registers each under its identifier.
fn register_all(found: &Vec<&MenuItem>, native_items: &mut StringMap<NativeMenuItem>)
    ensures
        natives(final(native_items)@) == registered(
            natives(old(native_items)@),
            items_of(found@),
            found@.len(),
        ),
{
    let mut index: usize = 0;
    while index < found.len()
        invariant
            index <= found@.len(),
            natives(native_items@) == registered(
                natives(old(native_items)@),
                items_of(found@),
                index as nat,
            ),
        decreases found@.len() - index,
    {
        let native = NativeMenuItem::of(found[index]);
        let id = native.id.clone();
        let ghost before = natives(native_items@);
        let _ = native_items.insert(id, native);
        assert(natives(native_items@) =~= before.insert(
            native_of(*found@[index as int]).id,
            native_of(*found@[index as int]),
        ));
        index = index + 1;
    }
}

/// Build native menu items from the menu structure: the native item of
/// `item` and, for a submenu, of every item below it are created and
/// registered under their identifiers, each item before the items of its
/// submenu. Returns the native item of `item` itself.
pub fn build_native_items(item: &MenuItem, native_items: &mut StringMap<NativeMenuItem>) -> (native:
    NativeMenuItem)
    ensures
        native@ == native_of(*item),
        natives(final(native_items)@) == registered(
            natives(old(native_items)@),
            flattened(*item),
            flattened(*item).len(),
        ),
{
    let found = flatten(item);
    register_all(&found, native_items);
    NativeMenuItem::of(item)
}

/// Build the native items of a menu and collect them by identifier.
pub fn build_native_menu(menu: &Menu) -> (native_items: StringMap<NativeMenuItem>)
    ensures
        natives(native_items@) == registered(
            Map::empty(),
            flattened_all(menu@, menu@.len()),
            flattened_all(menu@, menu@.len()).len(),
        ),
{
    let found = flatten_all(menu.items());
    let mut native_items: StringMap<NativeMenuItem> = StringMap::new();
    assert(natives(native_items@) =~= Map::empty());
    register_all(&found, &mut native_items);
    native_items
}

/// Brings the registered native items up to date with every item of
/// `found`, in that order, and collects what each native item that took
/// something now shows.
pub(crate) fn refresh_all(found: &Vec<&MenuItem>, native_items: &mut StringMap<NativeMenuItem>) -> (changes:
    Vec<NativeMenuItem>)
    ensures
        natives(final(native_items)@) == refreshed(
            natives(old(native_items)@),
            items_of(found@),
            found@.len(),
        ),
        shown(changes@) == changes_of(natives(old(native_items)@), items_of(found@), found@.len()),
{
    let mut changes: Vec<NativeMenuItem> = Vec::new();
    let mut index: usize = 0;
    while index < found.len()
        invariant
            index <= found@.len(),
            natives(native_items@) == refreshed(
                natives(old(native_items)@),
                items_of(found@),
                index as nat,
            ),
            shown(changes@) == changes_of(
                natives(old(native_items)@),
                items_of(found@),
                index as nat,
            ),
        decreases found@.len() - index,
    {
        let item = found[index];
        let ghost before = natives(native_items@);
        let ghost earlier = shown(changes@);
        match item.id() {
            Some(id) => {
                match native_items.remove(id) {
                    Some(native) => {
                        let mut native = native;
                        let taken = native.update_from_item(item);
                        let copy = native.clone();
                        let _ = native_items.insert(String::from_str(id), native);
                        assert(natives(native_items@) =~= before.insert(
                            id@,
                            updated_from(before[id@], *item),
                        ));
                        if taken {
                            changes.push(copy);
                            assert(shown(changes@) =~= earlier.push(
                                updated_from(before[id@], *item),
                            ));
                        }
                    },
                    None => {
                        assert(natives(native_items@) =~= before);
                    },
                }
            },
            None => {
                proof {
                    reveal_strlit("");
                }
                assert(updated_from(before[native_of(*item).id], *item) == before[native_of(
                    *item,
                ).id]);
                assert(before.contains_key(native_of(*item).id) ==> before.insert(
                    native_of(*item).id,
                    before[native_of(*item).id],
                ) =~= before);
            },
        }
        index = index + 1;
    }
    changes
}

/// Recursively update menu items: every registered native item whose
/// identifier is that of `item` or of an item below it is brought up to
/// date with that item, each item before the items of its submenu. Returns
/// what each native item that took something now shows, in that order.
pub fn update_menu_items(item: &MenuItem, native_items: &mut StringMap<NativeMenuItem>) -> (changes:
    Vec<NativeMenuItem>)
    ensures
        natives(final(native_items)@) == refreshed(
            natives(old(native_items)@),
            flattened(*item),
            flattened(*item).len(),
        ),
        shown(changes@) == changes_of(
            natives(old(native_items)@),
            flattened(*item),
            flattened(*item).len(),
        ),
{
    let found = flatten(item);
    refresh_all(&found, native_items)
}

} // verus!
