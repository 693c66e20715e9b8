//! Launcher items as plain values: what a provider lists and what an
//! activation of one of its actions reads.

use vstd::prelude::*;
use crate::text::owned;

verus! {

/// The modifier keys that select an item action.
#[derive(Clone, Copy, Debug, PartialEq, Eq, Structural)]
pub enum ActionModifier {
    Plain,
    Shift,
    Ctrl,
    Alt,
    CtrlShift,
}

/// What the launcher does after an activation.
#[derive(Clone, Copy, Debug, PartialEq, Eq, Structural)]
pub enum ActivationResult {
    Close,
    KeepOpen,
}

/// One action of an item: a name shown to the user and the command text
/// (`command`) that the owning provider interprets.
#[derive(Clone, Debug, PartialEq, Eq)]
pub struct ItemAction {
    pub name: String,
    pub command: String,
    pub modifier: ActionModifier,
    pub keep_open: bool,
}

pub struct ItemActionView {
    pub name: Seq<char>,
    pub command: Seq<char>,
    pub modifier: ActionModifier,
    pub keep_open: bool,
}

impl View for ItemAction {
    type V = ItemActionView;

    open spec fn view(&self) -> ItemActionView {
        ItemActionView {
            name: self.name@,
            command: self.command@,
            modifier: self.modifier,
            keep_open: self.keep_open,
        }
    }
}

/// A launcher entry.
#[derive(Clone, Debug, PartialEq, Eq)]
pub struct Item {
    pub id: String,
    pub label: String,
    pub provider: String,
    pub sub: String,
    pub icon: String,
    pub tags: Vec<String>,
    pub search_fields: Vec<String>,
    pub actions: Vec<ItemAction>,
}

pub struct ItemView {
    pub id: Seq<char>,
    pub label: Seq<char>,
    pub provider: Seq<char>,
    pub sub: Seq<char>,
    pub icon: Seq<char>,
    pub tags: Seq<Seq<char>>,
    pub search_fields: Seq<Seq<char>>,
    pub actions: Seq<ItemActionView>,
}

pub open spec fn texts(v: Seq<String>) -> Seq<Seq<char>> {
    v.map_values(|s: String| s@)
}

pub open spec fn action_views(v: Seq<ItemAction>) -> Seq<ItemActionView> {
    v.map_values(|a: ItemAction| a@)
}

pub open spec fn item_views(v: Seq<Item>) -> Seq<ItemView> {
    v.map_values(|i: Item| i@)
}

impl View for Item {
    type V = ItemView;

    open spec fn view(&self) -> ItemView {
        ItemView {
            id: self.id@,
            label: self.label@,
            provider: self.provider@,
            sub: self.sub@,
            icon: self.icon@,
            tags: texts(self.tags@),
            search_fields: texts(self.search_fields@),
            actions: action_views(self.actions@),
        }
    }
}

/// How a provider presents itself to the launcher.
#[derive(Clone, Debug, PartialEq, Eq)]
pub struct ProviderConfig {
    pub name: String,
    pub icon: String,
    pub prefix: Option<char>,
    pub default_tags: Vec<String>,
}

pub struct ProviderConfigView {
    pub name: Seq<char>,
    pub icon: Seq<char>,
    pub prefix: Option<char>,
    pub default_tags: Seq<Seq<char>>,
}

impl View for ProviderConfig {
    type V = ProviderConfigView;

    open spec fn view(&self) -> ProviderConfigView {
        ProviderConfigView {
            name: self.name@,
            icon: self.icon@,
            prefix: self.prefix,
            default_tags: texts(self.default_tags@),
        }
    }
}

/// The first action of `actions` named `name`.
pub open spec fn find_action(actions: Seq<ItemActionView>, name: Seq<char>) -> Option<ItemActionView>
    decreases actions.len(),
{
    if actions.len() == 0 {
        None
    } else if actions[0].name == name {
        Some(actions[0])
    } else {
        find_action(actions.drop_first(), name)
    }
}

/// The command text of the item's first action named `name`, or the empty text.
pub open spec fn action_command(item: ItemView, name: Seq<char>) -> Seq<char> {
    match find_action(item.actions, name) {
        Some(a) => a.command,
        None => Seq::empty(),
    }
}

/// Whether the item's first action named `name` keeps the launcher open.
pub open spec fn action_keeps_open(item: ItemView, name: Seq<char>) -> bool {
    match find_action(item.actions, name) {
        Some(a) => a.keep_open,
        None => false,
    }
}

/// The list holding `a`.
pub fn text_list1(a: &str) -> (r: Vec<String>)
    ensures
        texts(r@) == seq![a@],
{
    let r = vec![owned(a)];
    assert(texts(r@) =~= seq![a@]);
    r
}

/// The list holding `a` and `b`.
pub fn text_list2(a: &str, b: &str) -> (r: Vec<String>)
    ensures
        texts(r@) == seq![a@, b@],
{
    let r = vec![owned(a), owned(b)];
    assert(texts(r@) =~= seq![a@, b@]);
    r
}

/// The list holding `a`, `b` and `c`.
pub fn text_list3(a: &str, b: &str, c: &str) -> (r: Vec<String>)
    ensures
        texts(r@) == seq![a@, b@, c@],
{
    let r = vec![owned(a), owned(b), owned(c)];
    assert(texts(r@) =~= seq![a@, b@, c@]);
    r
}

/// The list holding `a`.
pub fn action_list1(a: ItemAction) -> (r: Vec<ItemAction>)
    ensures
        action_views(r@) == seq![a@],
{
    let ghost va = a@;
    let r = vec![a];
    assert(action_views(r@) =~= seq![va]);
    r
}

/// The list holding `a` and `b`.
pub fn action_list2(a: ItemAction, b: ItemAction) -> (r: Vec<ItemAction>)
    ensures
        action_views(r@) == seq![a@, b@],
{
    let ghost va = a@;
    let ghost vb = b@;
    let r = vec![a, b];
    assert(action_views(r@) =~= seq![va, vb]);
    r
}

/// A copy of `v`, element by element.
pub fn copy_texts(v: &Vec<String>) -> (r: Vec<String>)
    ensures
        texts(r@) == texts(v@),
{
    let mut r: Vec<String> = Vec::new();
    for i in 0..v.len()
        invariant
            r@.len() == i,
            forall|k: int| 0 <= k < i ==> r@[k]@ == v@[k]@,
    {
        r.push(v[i].clone());
    }
    assert(texts(r@) =~= texts(v@));
    r
}

impl ItemAction {
    /// An action with the given name, command text, modifier and keep-open flag.
    pub fn new(name: &str, command: String, modifier: ActionModifier, keep_open: bool) -> (a: ItemAction)
        ensures
            a@ == (ItemActionView { name: name@, command: command@, modifier, keep_open }),
    {
        ItemAction { name: owned(name), command, modifier, keep_open }
    }

    /// A copy of this action.
    pub fn duplicate(&self) -> (a: ItemAction)
        ensures
            a@ == self@,
    {
        ItemAction {
            name: self.name.clone(),
            command: self.command.clone(),
            modifier: self.modifier,
            keep_open: self.keep_open,
        }
    }
}

impl Item {
    /// A copy of this item.
    pub fn duplicate(&self) -> (r: Item)
        ensures
            r@ == self@,
    {
        let mut actions: Vec<ItemAction> = Vec::new();
        for i in 0..self.actions.len()
            invariant
                actions@.len() == i,
                forall|k: int| 0 <= k < i ==> actions@[k]@ == self.actions@[k]@,
        {
            actions.push(self.actions[i].duplicate());
        }
        assert(action_views(actions@) =~= action_views(self.actions@));
        Item {
            id: self.id.clone(),
            label: self.label.clone(),
            provider: self.provider.clone(),
            sub: self.sub.clone(),
            icon: self.icon.clone(),
            tags: copy_texts(&self.tags),
            search_fields: copy_texts(&self.search_fields),
            actions,
        }
    }

    /// The index of the first action named `name`, if any.
    pub fn find_action(&self, name: &str) -> (r: Option<usize>)
        ensures
            match r {
                Some(i) => i < self.actions@.len() && find_action(self@.actions, name@) == Some(
                    self@.actions[i as int],
                ),
                None => find_action(self@.actions, name@) is None,
            },
    {
        let target = owned(name);
        let ghost all = self@.actions;
        let mut i: usize = 0;
        assert(all.skip(0) =~= all);
        while i < self.actions.len()
            invariant
                i <= self.actions.len(),
                target@ == name@,
                all == action_views(self.actions@),
                find_action(all, name@) == find_action(all.skip(i as int), name@),
            decreases self.actions.len() - i,
        {
            assert(all.skip(i as int)[0] == all[i as int]);
            if self.actions[i].name == target {
                return Some(i);
            }
            assert(all.skip(i as int).drop_first() =~= all.skip(i + 1));
            i = i + 1;
        }
        None
    }

    /// The command text of the first action named `name`, or the empty text.
    pub fn command_for(&self, name: &str) -> (r: String)
        ensures
            r@ == action_command(self@, name@),
    {
        match self.find_action(name) {
            Some(i) => self.actions[i].command.clone(),
            None => String::new(),
        }
    }

    /// Whether the first action named `name` keeps the launcher open.
    pub fn keeps_open(&self, name: &str) -> (r: bool)
        ensures
            r == action_keeps_open(self@, name@),
    {
        match self.find_action(name) {
            Some(i) => self.actions[i].keep_open,
            None => false,
        }
    }
}

/// A copy of every item of `v`.
pub fn copy_items(v: &Vec<Item>) -> (r: Vec<Item>)
    ensures
        item_views(r@) == item_views(v@),
{
    let mut r: Vec<Item> = Vec::new();
    for i in 0..v.len()
        invariant
            r@.len() == i,
            forall|k: int| 0 <= k < i ==> r@[k]@ == v@[k]@,
    {
        r.push(v[i].duplicate());
    }
    assert(item_views(r@) =~= item_views(v@));
    r
}

} // verus!
