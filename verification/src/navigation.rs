//! Drill-down: a stack of grids over one store.
use crate::frame::Area;
use crate::frame::Frame;
use crate::keys::binding;
use crate::keys::command;
use crate::keys::event_key;
use crate::keys::key_of;
use crate::keys::Command;
use crate::keys::Key;
use crate::table::EditorReply;
use crate::table::Grid;
use crate::table::Outcome;
use crate::table::State;
use crate::TableView;
use crossterm::event::KeyEvent;
use vstd::prelude::*;

verus! {

/// Whether a stack of grids, root first, fits the store: every grid fits it,
/// and only the grid on top may be editing.
pub open spec fn fits<V: TableView>(grids: Seq<Grid<V>>, store: &V::State) -> bool {
    &&& grids.len() > 0
    &&& forall|i: int| 0 <= i < grids.len() ==> (#[trigger] grids[i]).wf(store)
    &&& forall|i: int| 0 <= i < grids.len() - 1 ==> !(#[trigger] grids[i]).editing()
}

/// The stack with `top` in place of its topmost grid.
pub open spec fn with_top<V>(grids: Seq<Grid<V>>, top: Grid<V>) -> Seq<Grid<V>> {
    grids.drop_last().push(top)
}

/// Whether `key` takes the stack over `store` to `after` over `store_after`.
///
/// The key goes to the grid on top. Where the grid asks for a link to be
/// opened, the child view behind the link is pushed as a fresh grid. Where
/// it asks to go back, the top grid is dropped and its parent is on top
/// again, unless the top grid is the root: then the key is not handled.
/// Grids below the top are never changed.
pub open spec fn steps<V: TableView>(
    grids: Seq<Grid<V>>,
    store: &V::State,
    key: Key,
    after: Seq<Grid<V>>,
    store_after: &V::State,
    handled: bool,
) -> bool {
    let top = grids.last();
    &&& top.store_steps(store, key, store_after)
    &&& match top.outcome(store, key) {
        Outcome::Handled => handled && after == with_top(grids, top.after(store, key)),
        Outcome::Ignored => !handled && after == grids,
        Outcome::Open { row, column } => handled && after == grids.push(
            Grid::opened(top.view.spec_open_cell(store, row as int, column as int), store),
        ),
        Outcome::Back => if grids.len() > 1 {
            handled && after == grids.drop_last()
        } else {
            !handled && after == grids
        },
    }
}

/// Whether `key`, after the editor has seen it, takes the stack to `after`.
pub open spec fn steps_edited<V: TableView>(
    grids: Seq<Grid<V>>,
    store: &V::State,
    key: Key,
    consumed: bool,
    text: Seq<char>,
    after: Seq<Grid<V>>,
    store_after: &V::State,
    handled: bool,
) -> bool {
    let typed = with_top(grids, grids.last().typed(text));
    if grids.last().editing() && consumed {
        handled && after == typed && store_after == store
    } else {
        steps(typed, store, key, after, store_after, handled)
    }
}

/// A key takes a stack that fits its store to a stack that fits the store
/// as the key left it, and leaves every grid below the top as it was:
/// whatever happens in a child, its parent comes back with the selection
/// and the scroll position that it had.
pub proof fn steps_keep_parents<V: TableView>(
    grids: Seq<Grid<V>>,
    store: &V::State,
    key: Key,
    after: Seq<Grid<V>>,
    store_after: &V::State,
    handled: bool,
)
    requires
        fits(grids, store),
        steps(grids, store, key, after, store_after, handled),
    ensures
        fits(after, store_after),
        grids.len() - 1 <= after.len() <= grids.len() + 1,
        forall|i: int| 0 <= i < grids.len() - 1 ==> after[i] == grids[i],
{
    let top = grids.last();
    let outcome = top.outcome(store, key);
    let next = top.after(store, key);
    assert(grids[grids.len() - 1].wf(store));
    top.steps_keep_wf(store, key, next, store_after, outcome);
    top.view.sizes_fit(store);
    assert forall|i: int| 0 <= i < grids.len() - 1 implies (#[trigger] grids[i]).wf(store_after) by {
        match binding(key, top.editing()) {
            Some(Command::Insert) => {
                if top.view.has_room(store) {
                    grids[i].wf_survives_row(&top.view, store, store_after);
                }
            },
            Some(Command::Commit) => {
                let cell = top.selected->Some_0;
                grids[i].wf_survives_save(
                    &top.view,
                    store,
                    store_after,
                    cell.row as int,
                    cell.column as int,
                    cell.editing->Some_0,
                );
            },
            _ => {},
        }
    }
    match outcome {
        Outcome::Handled => {
            assert forall|i: int| 0 <= i < after.len() implies (#[trigger] after[i]).wf(store_after) by {
                if i < grids.len() - 1 {
                    assert(after[i] == grids[i]);
                } else {
                    assert(after[i] == next);
                }
            }
            assert forall|i: int| 0 <= i < after.len() - 1 implies !(#[trigger] after[i]).editing() by {
                assert(after[i] == grids[i]);
            }
        },
        Outcome::Ignored => {},
        Outcome::Open { row, column } => {
            let cell = top.selected->Some_0;
            top.view.child_is_valid(store, cell.row as int, cell.column as int);
            let child = Grid::opened(top.view.spec_open_cell(store, row as int, column as int), store);
            assert(child.wf(store_after));
            assert forall|i: int| 0 <= i < after.len() implies (#[trigger] after[i]).wf(store_after) by {
                if i < grids.len() {
                    assert(after[i] == grids[i]);
                } else {
                    assert(after[i] == child);
                }
            }
            assert forall|i: int| 0 <= i < after.len() - 1 implies !(#[trigger] after[i]).editing() by {
                assert(after[i] == grids[i]);
            }
        },
        Outcome::Back => {
            if grids.len() > 1 {
                assert forall|i: int| 0 <= i < after.len() implies (#[trigger] after[i]).wf(store_after) by {
                    assert(after[i] == grids[i]);
                }
                assert forall|i: int| 0 <= i < after.len() - 1 implies !(#[trigger] after[i]).editing() by {
                    assert(after[i] == grids[i]);
                }
            }
        },
    }
}

/// The grids that are open, from the root to the one on screen.
pub struct Navigator<V> {
    /// The grids that wait for their children to be left, root first.
    parents: Vec<State<V>>,
    /// The grid on screen: the only one that gets keys.
    top: State<V>,
}

impl<V> View for Navigator<V> {
    type V = Seq<Grid<V>>;

    closed spec fn view(&self) -> Seq<Grid<V>> {
        Seq::new(self.parents@.len(), |i: int| self.parents@[i]@).push(self.top@)
    }
}

impl<V: TableView> Navigator<V> {
    /// Whether the stack fits the store.
    pub open spec fn wf(&self, store: &V::State) -> bool {
        fits(self@, store)
    }

    /// A stack that holds the root view alone.
    pub fn new(root: V, store: &V::State) -> (navigator: Self)
        requires
            root.valid(store),
        ensures
            navigator@ == seq![Grid::opened(root, store)],
            navigator.wf(store),
    {
        let navigator = Navigator { parents: Vec::new(), top: State::new(root, store) };
        assert(navigator@ =~= seq![Grid::opened(root, store)]);
        navigator
    }

    /// How deep the grid on screen lies below the root: the number of grids
    /// that wait below it.
    pub fn depth(&self) -> (depth: usize)
        ensures
            depth == self@.len() - 1,
    {
        self.parents.len()
    }

    /// The grid on screen.
    pub fn top(&self) -> (top: &State<V>)
        ensures
            top@ == self@.last(),
    {
        &self.top
    }

    /// Scrolls the grid on screen so that `offset` rows are out of sight
    /// above the first visible one.
    pub fn scroll_top(&mut self, offset: usize)
        ensures
            final(self)@ == with_top(old(self)@, (Grid { scroll_offset: offset as nat, ..old(self)@.last() })),
    {
        self.top.set_scroll_offset(offset);
        assert(self@ =~= with_top(old(self)@, (Grid { scroll_offset: offset as nat, ..old(self)@.last() })));
    }

    /// Replaces what is in the editor of the grid on screen by `text`.
    pub fn set_edit_text(&mut self, text: String)
        ensures
            final(self)@ == with_top(old(self)@, old(self)@.last().typed(text@)),
    {
        self.top.set_edit_text(text);
        assert(self@ =~= with_top(old(self)@, old(self)@.last().typed(text@)));
    }

    /// Plans a frame of the grid on screen in `bounds`.
    pub fn frame(&self, store: &V::State, bounds: Area) -> (frame: Frame)
        requires
            self.wf(store),
        ensures
            exists|areas: Seq<Area>|
                areas.len() == self@.last().header.len() && frame@ == self@.last().frame(store, areas, bounds),
    {
        assert(self@[self@.len() - 1] == self.top@);
        let frame = self.top.frame(store, bounds);
        proof {
            let areas = choose|areas: Seq<Area>|
                areas.len() == self.top@.header.len() && frame@ == self.top@.frame(store, areas, bounds);
            assert(areas.len() == self@.last().header.len() && frame@ == self@.last().frame(store, areas, bounds));
        }
        frame
    }

    /// Whether the key event, if the editor leaves it to the grid on screen,
    /// commits the edit that is going on there.
    pub fn commits(&self, event: &KeyEvent) -> (commits: bool)
        ensures
            commits == (binding(event_key(*event), self@.last().editing()) == Some(Command::Commit)),
    {
        match command(key_of(event), self.top.is_editing()) {
            Some(Command::Commit) => true,
            _ => false,
        }
    }

    /// Acts on `key`: hands it to the grid on screen, opens the link that
    /// the grid asks for, and goes back to the parent where it asks for that.
    /// Tells whether the key was handled.
    pub fn handle_key(&mut self, store: &mut V::State, key: Key) -> (handled: bool)
        requires
            old(self).wf(old(store)),
        ensures
            steps(old(self)@, old(store), key, final(self)@, final(store), handled),
            final(self).wf(final(store)),
    {
        let ghost before = self@;
        assert(before[before.len() - 1] == self.top@);
        let outcome = self.top.handle_key(store, key);
        assert(self@ =~= with_top(before, self.top@));
        let handled = match outcome {
            Outcome::Handled => true,
            Outcome::Ignored => {
                assert(self@ =~= before);
                false
            },
            Outcome::Open { row, column } => {
                let ghost parent = self.top@;
                proof {
                    parent.view.sizes_fit(store);
                }
                let mut child = State::new(self.top.open_cell(store, row, column), store);
                std::mem::swap(&mut self.top, &mut child);
                self.parents.push(child);
                assert(self@ =~= before.push(
                    Grid::opened(parent.view.spec_open_cell(store, row as int, column as int), store),
                ));
                true
            },
            Outcome::Back => {
                match self.parents.pop() {
                    Some(parent) => {
                        self.top = parent;
                        assert(self@ =~= before.drop_last());
                        true
                    },
                    None => {
                        assert(self@ =~= before);
                        false
                    },
                }
            },
        };
        proof {
            steps_keep_parents(before, old(store), key, self@, store, handled);
        }
        handled
    }

    /// Acts on `key` after the embedded editor has seen it and answered `reply`.
    pub fn handle_edited_key(&mut self, store: &mut V::State, key: Key, reply: EditorReply) -> (handled: bool)
        requires
            old(self).wf(old(store)),
        ensures
            steps_edited(
                old(self)@,
                old(store),
                key,
                reply.consumed,
                reply.text@,
                final(self)@,
                final(store),
                handled,
            ),
            final(self).wf(final(store)),
    {
        let consumed = reply.consumed && self.top.is_editing();
        self.set_edit_text(reply.text);
        if consumed {
            true
        } else {
            self.handle_key(store, key)
        }
    }

    /// Acts on a key event of the terminal. `reply` is what the embedded
    /// editor answered, if the event was handed to it. The event is read as
    /// some key, and the stack acts on that key.
    pub fn handle_key_event(&mut self, store: &mut V::State, event: &KeyEvent, reply: Option<EditorReply>) -> (handled: bool)
        requires
            old(self).wf(old(store)),
        ensures
            reply is None ==> steps(
                old(self)@,
                old(store),
                event_key(*event),
                final(self)@,
                final(store),
                handled,
            ),
            reply matches Some(reply) ==> steps_edited(
                old(self)@,
                old(store),
                event_key(*event),
                reply.consumed,
                reply.text@,
                final(self)@,
                final(store),
                handled,
            ),
            final(self).wf(final(store)),
    {
        let key = key_of(event);
        match reply {
            Some(reply) => self.handle_edited_key(store, key, reply),
            None => self.handle_key(store, key),
        }
    }
}

} // verus!
