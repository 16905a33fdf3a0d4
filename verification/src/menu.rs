//! The native menu of a window.
//!
//! A menu is a tree of entries. The platform builds it from a list of
//! operations: one that creates a menu, and one for each entry that is
//! appended to a menu. An entry that runs a callback gets a command number,
//! under which the callback is filed.

use std::collections::BTreeMap;
use vstd::prelude::*;
use crate::text::{basic_plane, convert_widestring};

verus! {

broadcast use {vstd::std_specs::btree::group_btree_axioms, vstd::laws_cmp::group_laws_cmp};

/// What a menu entry runs: the identity of a function and of its data.
#[derive(Debug, Copy, Clone, PartialEq, Eq, Structural)]
pub struct MenuCallback {
    pub callback: usize,
    pub data: usize,
}

/// An entry of a menu.
#[derive(Debug)]
pub enum MenuItem {
    /// An entry with a label. With children it opens a submenu, without it
    /// runs its callback.
    String { label: String, callback: Option<MenuCallback>, children: Vec<MenuItem> },
    /// A horizontal line.
    Separator,
    /// The start of a new column.
    BreakLine,
}

/// A menu and the hash of its content.
#[derive(Debug)]
pub struct Menu {
    pub items: Vec<MenuItem>,
    pub hash: u64,
}

/// One operation on the menus of the platform. A menu is named by the
/// position, in the list of operations, of the operation that created it.
#[derive(Debug)]
pub enum MenuOp {
    CreateMenu,
    /// Append an entry that sends `command` when chosen; 0 sends nothing.
    AppendString { menu: usize, command: usize, label: Vec<u16> },
    /// Append an entry that opens the menu `submenu`.
    AppendPopup { menu: usize, submenu: usize, label: Vec<u16> },
    AppendSeparator { menu: usize },
    AppendBreak { menu: usize },
}

/// A menu operation with its label as a sequence.
pub enum MenuOpView {
    CreateMenu,
    AppendString { menu: usize, command: usize, label: Seq<u16> },
    AppendPopup { menu: usize, submenu: usize, label: Seq<u16> },
    AppendSeparator { menu: usize },
    AppendBreak { menu: usize },
}

impl View for MenuOp {
    type V = MenuOpView;

    open spec fn view(&self) -> MenuOpView {
        match self {
            MenuOp::CreateMenu => MenuOpView::CreateMenu,
            MenuOp::AppendString { menu, command, label } => MenuOpView::AppendString {
                menu: *menu,
                command: *command,
                label: label@,
            },
            MenuOp::AppendPopup { menu, submenu, label } => MenuOpView::AppendPopup {
                menu: *menu,
                submenu: *submenu,
                label: label@,
            },
            MenuOp::AppendSeparator { menu } => MenuOpView::AppendSeparator { menu: *menu },
            MenuOp::AppendBreak { menu } => MenuOpView::AppendBreak { menu: *menu },
        }
    }
}

/// The operations of a list, each with its label as a sequence.
pub open spec fn op_views(ops: Seq<MenuOp>) -> Seq<MenuOpView> {
    ops.map_values(|op: MenuOp| op@)
}

/// The largest command number.
pub const MAX_COMMAND: usize = 0xffff;

/// The command number that the generator gives in state `next`: the state
/// itself, but no more than the largest command number.
pub open spec fn command_for(next: usize) -> u16 {
    if next > MAX_COMMAND {
        MAX_COMMAND as u16
    } else {
        next as u16
    }
}

/// The state of the generator after it gave a number: one more, starting
/// over after the largest state.
pub open spec fn generator_after(next: usize) -> usize {
    if next == usize::MAX {
        0
    } else {
        (next + 1) as usize
    }
}

/// The label of an entry as the platform takes it: the characters of the
/// basic plane, with a terminating zero.
pub open spec fn wide_label(label: Seq<char>) -> Seq<u16> {
    basic_plane(label).push(0u16)
}

/// What has been built of a menu: the operations so far, the callbacks by
/// command number, and the state of the generator of command numbers.
pub struct MenuBuild {
    pub ops: Seq<MenuOpView>,
    pub callbacks: Map<u16, MenuCallback>,
    pub next_id: usize,
}

/// The build after the entries `items` were appended to the menu `menu`,
/// one after the other.
///
/// An entry with children creates a menu, appends its children to it, and
/// is then appended as the entry that opens it. An entry without children
/// is appended with the next command number if it has a callback, which is
/// filed under that number, and with command 0 if it has none.
pub open spec fn built(items: Seq<MenuItem>, menu: usize, start: MenuBuild) -> MenuBuild
    decreases items,
{
    if items.len() == 0 {
        start
    } else {
        let before = built(items.subrange(0, items.len() - 1), menu, start);
        match items[items.len() - 1] {
            MenuItem::Separator => MenuBuild {
                ops: before.ops.push(MenuOpView::AppendSeparator { menu }),
                ..before
            },
            MenuItem::BreakLine => MenuBuild {
                ops: before.ops.push(MenuOpView::AppendBreak { menu }),
                ..before
            },
            MenuItem::String { label, callback, children } => {
                if children@.len() == 0 {
                    match callback {
                        None => MenuBuild {
                            ops: before.ops.push(
                                MenuOpView::AppendString {
                                    menu,
                                    command: 0,
                                    label: wide_label(label@),
                                },
                            ),
                            ..before
                        },
                        Some(c) => MenuBuild {
                            ops: before.ops.push(
                                MenuOpView::AppendString {
                                    menu,
                                    command: command_for(before.next_id) as usize,
                                    label: wide_label(label@),
                                },
                            ),
                            callbacks: before.callbacks.insert(command_for(before.next_id), c),
                            next_id: generator_after(before.next_id),
                        },
                    }
                } else {
                    let submenu = before.ops.len() as usize;
                    let inner = built(
                        children@,
                        submenu,
                        MenuBuild { ops: before.ops.push(MenuOpView::CreateMenu), ..before },
                    );
                    MenuBuild {
                        ops: inner.ops.push(
                            MenuOpView::AppendPopup { menu, submenu, label: wide_label(label@) },
                        ),
                        ..inner
                    }
                }
            },
        }
    }
}

/// A menu as the platform builds it.
#[derive(Debug)]
pub struct WindowsMenuBar {
    /// The operations that build the menu. The first creates the menu bar.
    pub ops: Vec<MenuOp>,
    /// Command number to the callback that it runs.
    pub callbacks: BTreeMap<u16, MenuCallback>,
    /// Hash of the menu that was built.
    pub hash: u64,
}

impl WindowsMenuBar {
    /// The build of a whole menu: the menu bar is created first and the
    /// entries are appended to it.
    pub open spec fn build_of(items: Seq<MenuItem>, next_id: usize) -> MenuBuild {
        built(
            items,
            0,
            MenuBuild { ops: seq![MenuOpView::CreateMenu], callbacks: Map::empty(), next_id },
        )
    }

    /// Builds the menu bar for `menu`. `next_id` is the generator of command
    /// numbers, shared by all menus.
    pub fn new(menu: &Menu, next_id: &mut usize) -> (bar: WindowsMenuBar)
        ensures
            op_views(bar.ops@) == Self::build_of(menu.items@, *old(next_id)).ops,
            bar.callbacks@ == Self::build_of(menu.items@, *old(next_id)).callbacks,
            *final(next_id) == Self::build_of(menu.items@, *old(next_id)).next_id,
            bar.hash == menu.hash,
    {
        let mut ops: Vec<MenuOp> = Vec::new();
        ops.push(MenuOp::CreateMenu);
        let mut command_map: BTreeMap<u16, MenuCallback> = BTreeMap::new();
        proof {
            assert(op_views(ops@) == seq![MenuOpView::CreateMenu]);
        }
        Self::recursive_construct_menu(0, &menu.items, &mut ops, &mut command_map, next_id);
        WindowsMenuBar { ops, callbacks: command_map, hash: menu.hash }
    }

    /// Gives the next command number and advances the generator.
    pub fn get_new_command_id(next_id: &mut usize) -> (id: usize)
        ensures
            id == *old(next_id),
            *final(next_id) == generator_after(*old(next_id)),
    {
        let id = *next_id;
        *next_id = if id == usize::MAX {
            0
        } else {
            id + 1
        };
        id
    }

    /// Appends the entries `items` to the menu `menu`.
    pub fn recursive_construct_menu(
        menu: usize,
        items: &Vec<MenuItem>,
        ops: &mut Vec<MenuOp>,
        command_map: &mut BTreeMap<u16, MenuCallback>,
        next_id: &mut usize,
    )
        ensures
            op_views(final(ops)@) == built(
                items@,
                menu,
                MenuBuild {
                    ops: op_views(old(ops)@),
                    callbacks: old(command_map)@,
                    next_id: *old(next_id),
                },
            ).ops,
            final(command_map)@ == built(
                items@,
                menu,
                MenuBuild {
                    ops: op_views(old(ops)@),
                    callbacks: old(command_map)@,
                    next_id: *old(next_id),
                },
            ).callbacks,
            *final(next_id) == built(
                items@,
                menu,
                MenuBuild {
                    ops: op_views(old(ops)@),
                    callbacks: old(command_map)@,
                    next_id: *old(next_id),
                },
            ).next_id,
        decreases items,
    {
        let ghost start = MenuBuild {
            ops: op_views(ops@),
            callbacks: command_map@,
            next_id: *next_id,
        };
        let mut i: usize = 0;
        while i < items.len()
            invariant
                i <= items.len(),
                op_views(ops@) == built(items@.subrange(0, i as int), menu, start).ops,
                command_map@ == built(items@.subrange(0, i as int), menu, start).callbacks,
                *next_id == built(items@.subrange(0, i as int), menu, start).next_id,
            decreases items.len() - i,
        {
            let ghost before = built(items@.subrange(0, i as int), menu, start);
            let ghost old_ops = ops@;
            proof {
                let next = items@.subrange(0, i as int + 1);
                assert(next.subrange(0, next.len() - 1) == items@.subrange(0, i as int));
                assert(next[next.len() - 1] == items@[i as int]);
            }
            match &items[i] {
                MenuItem::String { label, callback, children } => {
                    if children.len() == 0 {
                        let command = match callback {
                            None => 0,
                            Some(c) => {
                                let fresh = Self::get_new_command_id(next_id);
                                let new_command_id: u16 = if fresh > MAX_COMMAND {
                                    MAX_COMMAND as u16
                                } else {
                                    fresh as u16
                                };
                                command_map.insert(new_command_id, *c);
                                new_command_id as usize
                            },
                        };
                        ops.push(
                            MenuOp::AppendString {
                                menu,
                                command,
                                label: convert_widestring(label.as_str()),
                            },
                        );
                        proof {
                            assert(op_views(ops@) == op_views(old_ops).push(ops@.last()@));
                        }
                    } else {
                        let submenu = ops.len();
                        ops.push(MenuOp::CreateMenu);
                        proof {
                            assert(op_views(ops@) == op_views(old_ops).push(MenuOpView::CreateMenu));
                            assert(op_views(old_ops).len() == old_ops.len());
                        }
                        Self::recursive_construct_menu(submenu, children, ops, command_map, next_id);
                        let ghost inner_ops = ops@;
                        ops.push(
                            MenuOp::AppendPopup {
                                menu,
                                submenu,
                                label: convert_widestring(label.as_str()),
                            },
                        );
                        proof {
                            assert(op_views(ops@) == op_views(inner_ops).push(ops@.last()@));
                        }
                    }
                },
                MenuItem::Separator => {
                    ops.push(MenuOp::AppendSeparator { menu });
                    proof {
                        assert(op_views(ops@) == op_views(old_ops).push(
                            MenuOpView::AppendSeparator { menu },
                        ));
                    }
                },
                MenuItem::BreakLine => {
                    ops.push(MenuOp::AppendBreak { menu });
                    proof {
                        assert(op_views(ops@) == op_views(old_ops).push(
                            MenuOpView::AppendBreak { menu },
                        ));
                    }
                },
            }
            i = i + 1;
        }
        proof {
            assert(items@.subrange(0, items.len() as int) == items@);
        }
    }
}

/// Building never takes back what was built: the operations so far stay
/// where they are, so that a menu keeps the name it was created under, and
/// every callback that was filed stays filed, under its number or under a
/// later entry's that took the same number.
pub proof fn lemma_built_extends(items: Seq<MenuItem>, menu: usize, start: MenuBuild)
    ensures
        start.ops.len() <= built(items, menu, start).ops.len(),
        built(items, menu, start).ops.subrange(0, start.ops.len() as int) == start.ops,
        forall|command: u16| #[trigger]
            start.callbacks.contains_key(command) ==> built(
                items,
                menu,
                start,
            ).callbacks.contains_key(command),
    decreases items,
{
    if items.len() > 0 {
        let front = items.subrange(0, items.len() - 1);
        lemma_built_extends(front, menu, start);
        let before = built(front, menu, start);
        assert forall|command: u16| #[trigger]
            start.callbacks.contains_key(command) implies built(
            items,
            menu,
            start,
        ).callbacks.contains_key(command) by {
            assert(before.callbacks.contains_key(command));
            match items[items.len() - 1] {
                MenuItem::String { label, callback, children } => {
                    if children@.len() > 0 {
                        let opened = MenuBuild {
                            ops: before.ops.push(MenuOpView::CreateMenu),
                            ..before
                        };
                        lemma_built_extends(children@, before.ops.len() as usize, opened);
                        assert(opened.callbacks.contains_key(command));
                    }
                },
                _ => {},
            }
        }
        match items[items.len() - 1] {
            MenuItem::String { label, callback, children } => {
                if children@.len() > 0 {
                    let opened = MenuBuild { ops: before.ops.push(MenuOpView::CreateMenu), ..before };
                    lemma_built_extends(children@, before.ops.len() as usize, opened);
                    let inner = built(children@, before.ops.len() as usize, opened);
                    assert(inner.ops.subrange(0, start.ops.len() as int) == opened.ops.subrange(
                        0,
                        start.ops.len() as int,
                    )) by {
                        assert(inner.ops.subrange(0, opened.ops.len() as int) == opened.ops);
                        assert forall|i: int| 0 <= i < start.ops.len() implies inner.ops[i]
                            == opened.ops[i] by {
                            assert(inner.ops.subrange(0, opened.ops.len() as int)[i]
                                == inner.ops[i]);
                        }
                    }
                    assert forall|i: int| 0 <= i < start.ops.len() implies built(
                        items,
                        menu,
                        start,
                    ).ops[i] == start.ops[i] by {
                        assert(inner.ops.subrange(0, start.ops.len() as int)[i] == inner.ops[i]);
                        assert(before.ops.subrange(0, start.ops.len() as int)[i] == before.ops[i]);
                    }
                } else {
                    assert forall|i: int| 0 <= i < start.ops.len() implies built(
                        items,
                        menu,
                        start,
                    ).ops[i] == start.ops[i] by {
                        assert(before.ops.subrange(0, start.ops.len() as int)[i] == before.ops[i]);
                    }
                }
            },
            _ => {
                assert forall|i: int| 0 <= i < start.ops.len() implies built(
                    items,
                    menu,
                    start,
                ).ops[i] == start.ops[i] by {
                    assert(before.ops.subrange(0, start.ops.len() as int)[i] == before.ops[i]);
                }
            },
        }
    }
}

/// A menu bar starts with the operation that creates it, so that the menu
/// bar is menu 0.
pub proof fn lemma_menu_bar_is_created_first(items: Seq<MenuItem>, next_id: usize)
    ensures
        WindowsMenuBar::build_of(items, next_id).ops.len() >= 1,
        WindowsMenuBar::build_of(items, next_id).ops[0] == MenuOpView::CreateMenu,
{
    let start = MenuBuild {
        ops: seq![MenuOpView::CreateMenu],
        callbacks: Map::empty(),
        next_id,
    };
    lemma_built_extends(items, 0, start);
    let ops = WindowsMenuBar::build_of(items, next_id).ops;
    assert(ops.subrange(0, 1)[0] == ops[0]);
}

/// How many entries of a menu get a command number: the entries without
/// children that have a callback, at any depth.
pub open spec fn count_commands(items: Seq<MenuItem>) -> nat
    decreases items,
{
    if items.len() == 0 {
        0
    } else {
        count_commands(items.subrange(0, items.len() - 1)) + (match items[items.len() - 1] {
            MenuItem::String { label, callback, children } => {
                if children@.len() == 0 {
                    if callback is Some {
                        1nat
                    } else {
                        0nat
                    }
                } else {
                    count_commands(children@)
                }
            },
            _ => 0nat,
        })
    }
}

/// The generator gives one number to each entry that gets a command, in the
/// order of the entries. As long as it does not start over, it advances by
/// the number of those entries, and if it starts above 0, no callback is
/// filed under 0, which stands for no command.
pub proof fn lemma_generator_advances(items: Seq<MenuItem>, menu: usize, start: MenuBuild)
    requires
        start.next_id + count_commands(items) <= usize::MAX,
    ensures
        built(items, menu, start).next_id == start.next_id + count_commands(items),
        start.next_id >= 1 && !start.callbacks.contains_key(0) ==> !built(
            items,
            menu,
            start,
        ).callbacks.contains_key(0),
    decreases items,
{
    if items.len() > 0 {
        let front = items.subrange(0, items.len() - 1);
        lemma_generator_advances(front, menu, start);
        let before = built(front, menu, start);
        match items[items.len() - 1] {
            MenuItem::String { label, callback, children } => {
                if children@.len() > 0 {
                    let opened = MenuBuild { ops: before.ops.push(MenuOpView::CreateMenu), ..before };
                    lemma_generator_advances(children@, before.ops.len() as usize, opened);
                }
            },
            _ => {},
        }
    }
}

} // verus!
