use crate::todo::{Priority, Timestamp, TodoItem};
use std::path::PathBuf;
use vstd::prelude::*;

verus! {

#[verifier::external_type_specification]
#[verifier::external_body]
pub struct ExPathBuf(PathBuf);

/// What the keyboard currently drives.
#[derive(Debug, PartialEq, Eq, Structural)]
pub enum InputMode {
    Normal,
    Adding(AddingField),
    Editing,
    ViewingDetails,
}

/// The field of the add form that receives typed text.
#[derive(Debug, PartialEq, Eq, Structural)]
pub enum AddingField {
    Title,
    Description,
}

/// Which todos the list shows.
#[derive(Debug, PartialEq, Eq, Clone, Copy, Structural)]
pub enum Tab {
    All,
    Active,
    Completed,
}

/// The tab that follows `t` in the cycle All, Active, Completed.
pub open spec fn tab_after(t: Tab) -> Tab {
    match t {
        Tab::All => Tab::Active,
        Tab::Active => Tab::Completed,
        Tab::Completed => Tab::All,
    }
}

/// Whether a todo is listed under a tab.
pub open spec fn shown_in(tab: Tab, t: TodoItem) -> bool {
    match tab {
        Tab::All => true,
        Tab::Active => !t.completed,
        Tab::Completed => t.completed,
    }
}

pub open spec fn tab_filter(tab: Tab) -> spec_fn(TodoItem) -> bool {
    |t: TodoItem| shown_in(tab, t)
}

/// Keeps the todos whose id is not `id`.
pub open spec fn id_other_than(id: usize) -> spec_fn(TodoItem) -> bool {
    |t: TodoItem| t.id != id
}

impl Tab {
    pub fn next(self) -> (t: Tab)
        ensures
            t == tab_after(self),
    {
        match self {
            Tab::All => Tab::Active,
            Tab::Active => Tab::Completed,
            Tab::Completed => Tab::All,
        }
    }

    /// The position of the tab in the tab bar.
    pub fn index(self) -> (i: usize)
        ensures
            i == match self {
                Tab::All => 0usize,
                Tab::Active => 1usize,
                Tab::Completed => 2usize,
            },
    {
        match self {
            Tab::All => 0,
            Tab::Active => 1,
            Tab::Completed => 2,
        }
    }
}

/// The priority index that a fresh add form starts with (`Medium`).
pub const DEFAULT_PRIORITY_INDEX: usize = 1;

/// The priority chosen by a priority index; indices past the last one mean `High`.
pub open spec fn priority_at(i: usize) -> Priority {
    if i == 0 {
        Priority::Low
    } else if i == 1 {
        Priority::Medium
    } else {
        Priority::High
    }
}

/// The priority index that chooses `p`.
pub open spec fn priority_index_of(p: Priority) -> usize {
    match p {
        Priority::Low => 0,
        Priority::Medium => 1,
        Priority::High => 2,
    }
}

pub fn index_of_priority(p: Priority) -> (i: usize)
    ensures
        i == priority_index_of(p),
{
    match p {
        Priority::Low => 0,
        Priority::Medium => 1,
        Priority::High => 2,
    }
}

pub fn priority_for_index(i: usize) -> (p: Priority)
    ensures
        p == priority_at(i),
{
    let clamped = if i < 2 { i } else { 2 };
    if clamped == 0 {
        Priority::Low
    } else if clamped == 1 {
        Priority::Medium
    } else {
        Priority::High
    }
}

/// One past the largest id in `s`, or 0 for an empty list: the id the next new todo gets.
pub open spec fn next_id_after(s: Seq<TodoItem>) -> int
    decreases s.len(),
{
    if s.len() == 0 {
        0
    } else {
        let rest = next_id_after(s.drop_last());
        let here = s.last().id + 1;
        if rest < here {
            here
        } else {
            rest
        }
    }
}

/// The selection after moving down in a list of `len` entries (wrapping to the top).
pub open spec fn selection_below(sel: int, len: nat) -> int {
    (sel + 1) % (len as int)
}

/// The selection after moving up in a list of `len` entries (wrapping to the bottom).
pub open spec fn selection_above(sel: int, len: nat) -> int {
    if sel == 0 {
        len - 1
    } else {
        sel - 1
    }
}

/// The selection after the list has shrunk to `len` entries.
pub open spec fn selection_clamped(sel: usize, len: nat) -> int {
    if sel >= len && len > 0 {
        len - 1
    } else {
        sel as int
    }
}

/// `k` is the first position in `s` that holds a todo with id `id`.
pub open spec fn first_with_id(s: Seq<TodoItem>, id: usize, k: int) -> bool {
    &&& 0 <= k < s.len()
    &&& s[k].id == id
    &&& forall|j: int| 0 <= j < k ==> s[j].id != id
}

/// The first position in `s` that holds a todo with id `id`.
pub open spec fn first_index_of_id(s: Seq<TodoItem>, id: usize) -> int {
    choose|k: int| first_with_id(s, id, k)
}

/// The application state behind the terminal interface.
pub struct App {
    pub todos: Vec<TodoItem>,
    pub selected: usize,
    pub tab: Tab,
    pub input_mode: InputMode,
    pub input_buffer: String,
    pub description_buffer: String,
    pub priority_index: usize,
    pub should_quit: bool,
    /// The id that the next added todo gets.
    pub next_id: usize,
    /// Where the todo list is stored.
    pub storage_path: PathBuf,
}

impl App {
    /// The todos listed under the current tab, in list order.
    pub open spec fn shown(&self) -> Seq<TodoItem> {
        self.todos@.filter(tab_filter(self.tab))
    }

    /// The id of the selected todo, if the selection points into the shown list.
    pub open spec fn selected_id(&self) -> Option<usize> {
        if self.selected < self.shown().len() {
            Some(self.shown()[self.selected as int].id)
        } else {
            None
        }
    }

    /// Everything but the list, the tab and the selection is equal in `a` and `b`.
    pub open spec fn same_settings(a: App, b: App) -> bool {
        &&& a.input_mode == b.input_mode
        &&& a.input_buffer@ == b.input_buffer@
        &&& a.description_buffer@ == b.description_buffer@
        &&& a.priority_index == b.priority_index
        &&& a.should_quit == b.should_quit
        &&& a.next_id == b.next_id
        &&& a.storage_path == b.storage_path
    }

    /// `a` and `b` hold the same state.
    pub open spec fn same_state(a: App, b: App) -> bool {
        &&& a.todos@ == b.todos@
        &&& a.tab == b.tab
        &&& a.selected == b.selected
        &&& Self::same_settings(a, b)
    }

    /// `post` is `pre` with the selection changed to `sel`.
    pub open spec fn moved_to(pre: App, post: App, sel: int) -> bool {
        &&& post.todos@ == pre.todos@
        &&& post.tab == pre.tab
        &&& post.selected == sel
        &&& Self::same_settings(pre, post)
    }

    /// `a` and `b` hold the same state, except perhaps for the input mode.
    pub open spec fn same_except_mode(a: App, b: App) -> bool {
        &&& a.todos@ == b.todos@
        &&& a.tab == b.tab
        &&& a.selected == b.selected
        &&& a.input_buffer@ == b.input_buffer@
        &&& a.description_buffer@ == b.description_buffer@
        &&& a.priority_index == b.priority_index
        &&& a.should_quit == b.should_quit
        &&& a.next_id == b.next_id
        &&& a.storage_path == b.storage_path
    }

    /// What `add_todo` does to everything but the input mode: with an empty
    /// title nothing; otherwise the form's contents become a new todo at the end
    /// of the list, with the next id, created at `now`, and the form is reset.
    pub open spec fn add_effect(pre: App, post: App, changed: bool, now: Timestamp) -> bool {
        &&& changed == (pre.input_buffer@.len() > 0)
        &&& !changed ==> Self::same_except_mode(pre, post)
        &&& changed ==> {
            &&& post.todos@.len() == pre.todos@.len() + 1
            &&& post.todos@.drop_last() == pre.todos@
            &&& post.todos@.last().id == pre.next_id
            &&& post.todos@.last().title@ == pre.input_buffer@
            &&& post.todos@.last().description@ == pre.description_buffer@
            &&& !post.todos@.last().completed
            &&& post.todos@.last().priority == priority_at(pre.priority_index)
            &&& post.todos@.last().created_at == now
            &&& post.next_id == pre.next_id + 1
            &&& post.priority_index == DEFAULT_PRIORITY_INDEX
            &&& post.input_buffer@.len() == 0
            &&& post.description_buffer@.len() == 0
            &&& post.tab == pre.tab
            &&& post.selected == pre.selected
            &&& post.should_quit == pre.should_quit
            &&& post.storage_path == pre.storage_path
        }
    }

    /// What `add_todo` does; the input mode stays as it was.
    pub open spec fn add_step(pre: App, post: App, changed: bool, now: Timestamp) -> bool {
        &&& Self::add_effect(pre, post, changed, now)
        &&& post.input_mode == pre.input_mode
    }

    /// What `start_edit` does: with a todo selected, the form opens in editing
    /// mode holding that todo's title, description and priority; the list is
    /// left alone. Without a selected todo nothing changes.
    pub open spec fn start_edit_step(pre: App, post: App) -> bool {
        match pre.selected_id() {
            None => Self::same_state(pre, post),
            Some(_) => {
                let t = pre.shown()[pre.selected as int];
                &&& post.input_mode == InputMode::Editing
                &&& post.input_buffer@ == t.title@
                &&& post.description_buffer@ == t.description@
                &&& post.priority_index == priority_index_of(t.priority)
                &&& post.todos@ == pre.todos@
                &&& post.tab == pre.tab
                &&& post.selected == pre.selected
                &&& post.should_quit == pre.should_quit
                &&& post.next_id == pre.next_id
                &&& post.storage_path == pre.storage_path
            },
        }
    }

    /// What `save_edit` does to everything but the input mode: with an empty
    /// title, or no todo selected, nothing. Otherwise the first todo with the
    /// selected todo's id takes the form's title, description and priority,
    /// keeping its id, completion and creation time, and the form is reset.
    pub open spec fn edit_effect(pre: App, post: App, changed: bool) -> bool {
        &&& changed == (pre.input_buffer@.len() > 0 && pre.selected_id() is Some)
        &&& !changed ==> Self::same_except_mode(pre, post)
        &&& changed ==> {
            let k = first_index_of_id(pre.todos@, pre.selected_id()->0);
            &&& first_with_id(pre.todos@, pre.selected_id()->0, k)
            &&& post.todos@.len() == pre.todos@.len()
            &&& forall|j: int| 0 <= j < pre.todos@.len() && j != k ==> post.todos@[j] == pre.todos@[j]
            &&& post.todos@[k].id == pre.todos@[k].id
            &&& post.todos@[k].completed == pre.todos@[k].completed
            &&& post.todos@[k].created_at == pre.todos@[k].created_at
            &&& post.todos@[k].title@ == pre.input_buffer@
            &&& post.todos@[k].description@ == pre.description_buffer@
            &&& post.todos@[k].priority == priority_at(pre.priority_index)
            &&& post.priority_index == DEFAULT_PRIORITY_INDEX
            &&& post.input_buffer@.len() == 0
            &&& post.description_buffer@.len() == 0
            &&& post.tab == pre.tab
            &&& post.selected == pre.selected
            &&& post.should_quit == pre.should_quit
            &&& post.next_id == pre.next_id
            &&& post.storage_path == pre.storage_path
        }
    }

    /// What `save_edit` does; the input mode stays as it was.
    pub open spec fn edit_step(pre: App, post: App, changed: bool) -> bool {
        &&& Self::edit_effect(pre, post, changed)
        &&& post.input_mode == pre.input_mode
    }

    /// What `delete_selected` does: every todo with the selected todo's id leaves
    /// the list, and the selection is pulled back into the shorter list.
    pub open spec fn delete_step(pre: App, post: App, changed: bool) -> bool {
        &&& changed == pre.selected_id() is Some
        &&& match pre.selected_id() {
            None => Self::same_state(pre, post),
            Some(id) => {
                &&& post.todos@ == pre.todos@.filter(id_other_than(id))
                &&& post.tab == pre.tab
                &&& post.selected == selection_clamped(pre.selected, post.shown().len())
                &&& Self::same_settings(pre, post)
            },
        }
    }

    /// What `toggle_selected` does: the first todo with the selected todo's id
    /// flips its completion; nothing else changes.
    pub open spec fn toggle_step(pre: App, post: App, changed: bool) -> bool {
        &&& changed == pre.selected_id() is Some
        &&& match pre.selected_id() {
            None => Self::same_state(pre, post),
            Some(id) => {
                let k = first_index_of_id(pre.todos@, id);
                &&& first_with_id(pre.todos@, id, k)
                &&& post.todos@ == pre.todos@.update(k, pre.todos@[k].toggled())
                &&& post.tab == pre.tab
                &&& post.selected == pre.selected
                &&& Self::same_settings(pre, post)
            },
        }
    }

    /// What `next_item` does: the selection moves down, wrapping to the top.
    pub open spec fn next_item_step(pre: App, post: App) -> bool {
        if pre.shown().len() == 0 {
            Self::same_state(pre, post)
        } else {
            Self::moved_to(pre, post, selection_below(pre.selected as int, pre.shown().len()))
        }
    }

    /// What `previous_item` does: the selection moves up, wrapping to the bottom.
    pub open spec fn previous_item_step(pre: App, post: App) -> bool {
        if pre.shown().len() == 0 {
            Self::same_state(pre, post)
        } else {
            Self::moved_to(pre, post, selection_above(pre.selected as int, pre.shown().len()))
        }
    }

    /// What `next_tab` does: the next tab is shown, with its first entry selected.
    pub open spec fn next_tab_step(pre: App, post: App) -> bool {
        &&& post.todos@ == pre.todos@
        &&& post.tab == tab_after(pre.tab)
        &&& post.selected == 0
        &&& Self::same_settings(pre, post)
    }

    /// An empty application that stores its list at `storage_path`.
    pub fn new(storage_path: PathBuf) -> (app: App)
        ensures
            app.todos@ == Seq::<TodoItem>::empty(),
            app.selected == 0,
            app.tab == Tab::All,
            app.input_mode == InputMode::Normal,
            app.input_buffer@ == Seq::<char>::empty(),
            app.description_buffer@ == Seq::<char>::empty(),
            app.priority_index == DEFAULT_PRIORITY_INDEX,
            !app.should_quit,
            app.next_id == 0,
            app.storage_path == storage_path,
    {
        App {
            todos: Vec::new(),
            selected: 0,
            tab: Tab::All,
            input_mode: InputMode::Normal,
            input_buffer: String::new(),
            description_buffer: String::new(),
            priority_index: DEFAULT_PRIORITY_INDEX,
            should_quit: false,
            next_id: 0,
            storage_path,
        }
    }

    /// The todos listed under the current tab.
    pub fn filtered_todos(&self) -> (v: Vec<&TodoItem>)
        ensures
            v@.len() == self.shown().len(),
            forall|i: int| 0 <= i < v@.len() ==> *v@[i] == self.shown()[i],
    {
        let mut v: Vec<&TodoItem> = Vec::new();
        let n = self.todos.len();
        let ghost pred = tab_filter(self.tab);
        for i in 0..n
            invariant
                n == self.todos@.len(),
                pred == tab_filter(self.tab),
                v@.len() == self.todos@.take(i as int).filter(pred).len(),
                forall|j: int|
                    0 <= j < v@.len() ==> *v@[j] == self.todos@.take(i as int).filter(pred)[j],
        {
            let t = &self.todos[i];
            let keep = match self.tab {
                Tab::All => true,
                Tab::Active => !t.completed,
                Tab::Completed => t.completed,
            };
            proof {
                assert(self.todos@.take(i + 1).drop_last() =~= self.todos@.take(i as int));
                assert(self.todos@.take(i + 1).last() == *t);
                assert(pred(*t) == keep);
                let prefix = self.todos@.take(i + 1);
                reveal_with_fuel(Seq::<TodoItem>::filter, 1);
                assert(prefix.filter(pred) == if keep {
                    self.todos@.take(i as int).filter(pred).push(*t)
                } else {
                    self.todos@.take(i as int).filter(pred)
                });
            }
            if keep {
                v.push(t);
            }
        }
        proof {
            assert(self.todos@.take(n as int) =~= self.todos@);
        }
        v
    }

    fn selected_todo_id(&self) -> (r: Option<usize>)
        ensures
            r == self.selected_id(),
    {
        let shown = self.filtered_todos();
        if self.selected < shown.len() {
            Some(shown[self.selected].id)
        } else {
            None
        }
    }

    fn clamp_selection(&mut self)
        ensures
            Self::moved_to(
                *old(self),
                *final(self),
                selection_clamped(old(self).selected, old(self).shown().len()),
            ),
    {
        let len = self.filtered_todos().len();
        if self.selected >= len && len > 0 {
            self.selected = len - 1;
        }
    }

    fn move_selection(&mut self, delta: isize)
        requires
            delta > 0 ==> (old(self).shown().len() == 0 || old(self).selected < usize::MAX),
        ensures
            old(self).shown().len() == 0 ==> Self::same_state(*old(self), *final(self)),
            old(self).shown().len() > 0 ==> Self::moved_to(
                *old(self),
                *final(self),
                if delta > 0 {
                    selection_below(old(self).selected as int, old(self).shown().len())
                } else {
                    selection_above(old(self).selected as int, old(self).shown().len())
                },
            ),
    {
        let len = self.filtered_todos().len();
        if len == 0 {
            return;
        }
        self.selected = if delta > 0 {
            (self.selected + 1) % len
        } else {
            self.selected.checked_sub(1).unwrap_or(len - 1)
        };
    }

    /// Moves the selection one entry down, wrapping to the top.
    pub fn next_item(&mut self)
        requires
            old(self).shown().len() == 0 || old(self).selected < usize::MAX,
        ensures
            Self::next_item_step(*old(self), *final(self)),
    {
        self.move_selection(1);
    }

    /// Moves the selection one entry up, wrapping to the bottom.
    pub fn previous_item(&mut self)
        ensures
            Self::previous_item_step(*old(self), *final(self)),
    {
        self.move_selection(-1);
    }

    /// Shows the next tab and selects its first entry.
    pub fn next_tab(&mut self)
        ensures
            Self::next_tab_step(*old(self), *final(self)),
    {
        self.tab = self.tab.next();
        self.selected = 0;
    }

    /// Turns the add form into a new todo at the end of the list. Returns
    /// whether the list changed (and so should be stored).
    pub fn add_todo(&mut self, now: Timestamp) -> (changed: bool)
        requires
            old(self).input_buffer@.len() > 0 ==> old(self).next_id < usize::MAX,
        ensures
            Self::add_step(*old(self), *final(self), changed, now),
    {
        if self.input_buffer.as_str().is_empty() {
            return false;
        }
        let priority = priority_for_index(self.priority_index);
        let mut title = String::new();
        std::mem::swap(&mut title, &mut self.input_buffer);
        let mut description = String::new();
        std::mem::swap(&mut description, &mut self.description_buffer);
        let todo = TodoItem::new(self.next_id, title, description, priority, now);
        self.todos.push(todo);
        self.next_id += 1;
        self.priority_index = DEFAULT_PRIORITY_INDEX;
        assert(self.todos@.drop_last() =~= old(self).todos@);
        true
    }

    fn remove_todos_with_id(&mut self, id: usize)
        ensures
            final(self).todos@ == old(self).todos@.filter(id_other_than(id)),
            final(self).tab == old(self).tab,
            final(self).selected == old(self).selected,
            Self::same_settings(*old(self), *final(self)),
    {
        let ghost before = self.todos@;
        let ghost p = id_other_than(id);
        let mut i: usize = 0;
        let ghost mut j: int = 0;
        while i < self.todos.len()
            invariant
                0 <= j <= before.len(),
                p == id_other_than(id),
                i == before.take(j).filter(p).len(),
                self.todos@ == before.take(j).filter(p) + before.skip(j),
                self.tab == old(self).tab,
                self.selected == old(self).selected,
                Self::same_settings(*old(self), *self),
            decreases self.todos@.len() - i,
        {
            let ghost kept = before.take(j).filter(p);
            proof {
                reveal_with_fuel(Seq::<TodoItem>::filter, 1);
                assert(self.todos@[i as int] == before[j]);
                assert(before.take(j + 1).drop_last() =~= before.take(j));
                assert(before.take(j + 1).last() == before[j]);
            }
            if self.todos[i].id == id {
                self.todos.remove(i);
                proof {
                    assert(self.todos@ =~= kept + before.skip(j + 1));
                    j = j + 1;
                }
            } else {
                i += 1;
                proof {
                    assert(before.take(j + 1).filter(p) == kept.push(before[j]));
                    assert(self.todos@ =~= kept.push(before[j]) + before.skip(j + 1));
                    j = j + 1;
                }
            }
        }
        proof {
            assert(before.take(j) =~= before);
        }
    }

    /// Removes the selected todo (and every other todo with its id) and keeps the
    /// selection inside the list. Returns whether the list changed.
    pub fn delete_selected(&mut self) -> (changed: bool)
        ensures
            Self::delete_step(*old(self), *final(self), changed),
    {
        match self.selected_todo_id() {
            None => false,
            Some(id) => {
                self.remove_todos_with_id(id);
                self.clamp_selection();
                true
            },
        }
    }

    /// Flips the completion of the selected todo. Returns whether the list changed.
    pub fn toggle_selected(&mut self) -> (changed: bool)
        ensures
            Self::toggle_step(*old(self), *final(self), changed),
    {
        match self.selected_position() {
            None => false,
            Some(k) => {
                let ghost pre = self.todos@;
                self.todos[k].toggle();
                proof {
                    assert(self.todos@ =~= pre.update(k as int, pre[k as int].toggled()));
                }
                true
            },
        }
    }

    /// The position in the list of the first todo with the selected todo's id.
    fn selected_position(&self) -> (r: Option<usize>)
        ensures
            match self.selected_id() {
                None => r is None,
                Some(id) => r matches Some(k) && first_with_id(self.todos@, id, k as int),
            },
    {
        match self.selected_todo_id() {
            None => None,
            Some(id) => {
                let ghost shown_todo = self.shown()[self.selected as int];
                proof {
                    self.todos@.lemma_filter_contains_rev(tab_filter(self.tab), shown_todo);
                }
                let mut k: usize = 0;
                while k < self.todos.len()
                    invariant
                        k <= self.todos@.len(),
                        self.todos@.contains(shown_todo),
                        shown_todo.id == id,
                        self.selected_id() == Some(id),
                        forall|j: int| 0 <= j < k ==> self.todos@[j].id != id,
                    decreases self.todos@.len() - k,
                {
                    if self.todos[k].id == id {
                        return Some(k);
                    }
                    k += 1;
                }
                proof {
                    let w = choose|w: int| 0 <= w < self.todos@.len() && self.todos@[w] == shown_todo;
                    assert(self.todos@[w].id == id);
                }
                None
            },
        }
    }

    /// Opens the form on the selected todo: its title, description and
    /// priority fill the form, in editing mode.
    pub fn start_edit(&mut self)
        ensures
            Self::start_edit_step(*old(self), *final(self)),
    {
        let shown = self.filtered_todos();
        if self.selected < shown.len() {
            let t = shown[self.selected];
            let title = t.title.clone();
            let description = t.description.clone();
            let priority_index = index_of_priority(t.priority);
            self.input_buffer = title;
            self.description_buffer = description;
            self.priority_index = priority_index;
            self.input_mode = InputMode::Editing;
        }
    }

    /// Writes the form back into the todo being edited (the first todo with the
    /// selected todo's id). Returns whether the list changed.
    pub fn save_edit(&mut self) -> (changed: bool)
        ensures
            Self::edit_step(*old(self), *final(self), changed),
    {
        if self.input_buffer.as_str().is_empty() {
            return false;
        }
        match self.selected_position() {
            None => false,
            Some(k) => {
                let ghost pre = self.todos@;
                let priority = priority_for_index(self.priority_index);
                let mut title = String::new();
                std::mem::swap(&mut title, &mut self.input_buffer);
                let mut description = String::new();
                std::mem::swap(&mut description, &mut self.description_buffer);
                let mut t = self.todos.remove(k);
                t.title = title;
                t.description = description;
                t.priority = priority;
                self.todos.insert(k, t);
                self.priority_index = DEFAULT_PRIORITY_INDEX;
                proof {
                    assert forall|j: int| 0 <= j < pre.len() && j != k implies self.todos@[j]
                        == pre[j] by {
                        if j < k {
                            assert(self.todos@[j] == pre.remove(k as int)[j]);
                        } else {
                            assert(self.todos@[j] == pre.remove(k as int)[j - 1]);
                        }
                    }
                }
                true
            },
        }
    }

    /// Takes over a list read back from storage; the next new todo gets an id
    /// one past the largest id in it.
    pub fn load(&mut self, todos: Vec<TodoItem>)
        requires
            forall|i: int| 0 <= i < todos@.len() ==> todos@[i].id < usize::MAX,
        ensures
            final(self).todos@ == todos@,
            final(self).next_id == next_id_after(todos@),
            final(self).tab == old(self).tab,
            final(self).selected == old(self).selected,
            final(self).input_mode == old(self).input_mode,
            final(self).input_buffer@ == old(self).input_buffer@,
            final(self).description_buffer@ == old(self).description_buffer@,
            final(self).priority_index == old(self).priority_index,
            final(self).should_quit == old(self).should_quit,
            final(self).storage_path == old(self).storage_path,
    {
        let n = todos.len();
        let mut next: usize = 0;
        for i in 0..n
            invariant
                n == todos@.len(),
                forall|j: int| 0 <= j < todos@.len() ==> todos@[j].id < usize::MAX,
                next == next_id_after(todos@.take(i as int)),
        {
            proof {
                assert(todos@.take(i + 1).drop_last() =~= todos@.take(i as int));
            }
            let here = todos[i].id + 1;
            if next < here {
                next = here;
            }
        }
        proof {
            assert(todos@.take(n as int) =~= todos@);
        }
        self.todos = todos;
        self.next_id = next;
    }

    /// The numbers shown in the status bar: all todos, the active ones and the
    /// completed ones.
    pub fn status_counts(&self) -> (counts: (usize, usize, usize))
        ensures
            counts.0 == self.todos@.len(),
            counts.1 == self.todos@.filter(tab_filter(Tab::Active)).len(),
            counts.2 == self.todos@.filter(tab_filter(Tab::Completed)).len(),
    {
        let n = self.todos.len();
        let mut active: usize = 0;
        let mut completed: usize = 0;
        for i in 0..n
            invariant
                n == self.todos@.len(),
                active == self.todos@.take(i as int).filter(tab_filter(Tab::Active)).len(),
                completed == self.todos@.take(i as int).filter(tab_filter(Tab::Completed)).len(),
                active + completed == i,
        {
            proof {
                reveal_with_fuel(Seq::<TodoItem>::filter, 1);
                assert(self.todos@.take(i + 1).drop_last() =~= self.todos@.take(i as int));
            }
            if self.todos[i].completed {
                completed += 1;
            } else {
                active += 1;
            }
        }
        proof {
            assert(self.todos@.take(n as int) =~= self.todos@);
        }
        (n, active, completed)
    }
}

/// The key bindings shown at the bottom of the screen in each mode.
pub fn help_text(mode: &InputMode) -> (s: &'static str)
    ensures
        s@ == match *mode {
            InputMode::Normal => " a:Add   d:Delete   Space:Toggle   Enter:Details   Tab:Filter   q:Quit "@,
            InputMode::ViewingDetails => " Esc:Back "@,
            InputMode::Adding(_) => " Tab:Switch   ↑↓:Priority   Enter:Save   Esc:Cancel "@,
            InputMode::Editing => ""@,
        },
{
    match mode {
        InputMode::Normal => " a:Add   d:Delete   Space:Toggle   Enter:Details   Tab:Filter   q:Quit ",
        InputMode::ViewingDetails => " Esc:Back ",
        InputMode::Adding(_) => " Tab:Switch   ↑↓:Priority   Enter:Save   Esc:Cancel ",
        _ => "",
    }
}

} // verus!
