use crate::app::{
    first_index_of_id, first_with_id, id_other_than, next_id_after, priority_at, priority_index_of,
    selection_above,
    selection_below, tab_after, tab_filter, App, InputMode, Tab,
};
use crate::input::{key_step, Key};
use crate::todo::{Priority, Timestamp, TodoItem};
use vstd::prelude::*;

verus! {

/// Every todo in `s` has an id below `n`.
pub open spec fn ids_below(s: Seq<TodoItem>, n: int) -> bool {
    forall|i: int| 0 <= i < s.len() ==> #[trigger] s[i].id < n
}

/// No two todos in `s` share an id.
pub open spec fn ids_distinct(s: Seq<TodoItem>) -> bool {
    forall|i: int, j: int| 0 <= i < s.len() && 0 <= j < s.len() && i != j ==> #[trigger] s[i].id
        != #[trigger] s[j].id
}

/// The ids of an application's list are distinct and all below the next id.
pub open spec fn well_keyed(app: App) -> bool {
    &&& ids_below(app.todos@, app.next_id as int)
    &&& ids_distinct(app.todos@)
}

/// Pressing Tab three times brings back the tab one started on.
pub proof fn lemma_tab_cycle(t: Tab)
    ensures
        tab_after(tab_after(tab_after(t))) == t,
{
}

/// The All tab lists every todo, and the Active and Completed tabs split the
/// list between them.
pub proof fn lemma_tabs_partition(s: Seq<TodoItem>)
    ensures
        s.filter(tab_filter(Tab::All)) == s,
        s.filter(tab_filter(Tab::Active)).len() + s.filter(tab_filter(Tab::Completed)).len()
            == s.len(),
    decreases s.len(),
{
    reveal_with_fuel(Seq::<TodoItem>::filter, 1);
    if s.len() > 0 {
        lemma_tabs_partition(s.drop_last());
        assert(s.drop_last().push(s.last()) =~= s);
    }
}

/// Moving down and then up (or up and then down) within a list comes back to
/// the entry one started on.
pub proof fn lemma_selection_round_trip(sel: int, len: nat)
    requires
        0 <= sel < len,
    ensures
        selection_above(selection_below(sel, len), len) == sel,
        selection_below(selection_above(sel, len), len) == sel,
{
    if sel + 1 < len {
        assert((sel + 1) % (len as int) == sel + 1) by (nonlinear_arith)
            requires
                0 <= sel + 1 < len,
        ;
    } else {
        assert((sel + 1) % (len as int) == 0) by (nonlinear_arith)
            requires
                sel + 1 == len,
                0 <= sel,
        ;
    }
    if sel == 0 {
        assert(((len - 1) + 1) % (len as int) == 0) by (nonlinear_arith)
            requires
                len > 0,
        ;
    } else {
        assert((sel - 1 + 1) % (len as int) == sel) by (nonlinear_arith)
            requires
                0 <= sel < len,
        ;
    }
}

/// `next_item` followed by `previous_item` leaves the application as it was,
/// when the selection pointed into the list.
pub proof fn lemma_next_then_previous(a: App, b: App, c: App)
    requires
        App::next_item_step(a, b),
        App::previous_item_step(b, c),
        a.selected < a.shown().len(),
    ensures
        App::same_state(a, c),
{
    assert(b.shown() == a.shown());
    lemma_selection_round_trip(a.selected as int, a.shown().len());
}

/// After moving down, moving up, or deleting, the selection points into the
/// shown list whenever that list is not empty (moving up needs the selection
/// to have pointed into the list already).
pub proof fn lemma_selection_stays_in_list(a: App, b: App, changed: bool)
    ensures
        App::next_item_step(a, b) && b.shown().len() > 0 ==> b.selected < b.shown().len(),
        App::previous_item_step(a, b) && a.selected < a.shown().len() ==> b.selected
            < b.shown().len(),
        App::delete_step(a, b, changed) && changed && b.shown().len() > 0 ==> b.selected
            < b.shown().len(),
{
    if App::next_item_step(a, b) && b.shown().len() > 0 {
        assert(b.shown() == a.shown());
        assert(selection_below(a.selected as int, a.shown().len()) < a.shown().len()) by (nonlinear_arith)
            requires
                a.shown().len() > 0,
        ;
    }
    if App::previous_item_step(a, b) && a.selected < a.shown().len() {
        assert(b.shown() == a.shown());
    }
}

/// A list read back from storage gets a next id above every id in it.
pub proof fn lemma_loaded_ids_below_next(s: Seq<TodoItem>)
    ensures
        ids_below(s, next_id_after(s)),
        next_id_after(s) >= 0,
    decreases s.len(),
{
    if s.len() > 0 {
        lemma_loaded_ids_below_next(s.drop_last());
        assert forall|i: int| 0 <= i < s.len() implies #[trigger] s[i].id < next_id_after(s) by {
            if i < s.len() - 1 {
                assert(s[i] == s.drop_last()[i]);
            }
        }
    }
}

proof fn lemma_filter_keeps_keys(s: Seq<TodoItem>, p: spec_fn(TodoItem) -> bool, n: int)
    requires
        ids_below(s, n),
        ids_distinct(s),
    ensures
        ids_below(s.filter(p), n),
        ids_distinct(s.filter(p)),
        forall|t: TodoItem| #[trigger] s.filter(p).contains(t) ==> s.contains(t),
    decreases s.len(),
{
    reveal_with_fuel(Seq::<TodoItem>::filter, 1);
    if s.len() > 0 {
        let rest = s.drop_last();
        assert(ids_below(rest, n));
        assert(ids_distinct(rest));
        lemma_filter_keeps_keys(rest, p, n);
        let fr = rest.filter(p);
        if p(s.last()) {
            let f = fr.push(s.last());
            assert forall|i: int| 0 <= i < f.len() implies #[trigger] f[i].id < n by {
                if i < fr.len() {
                    assert(f[i] == fr[i]);
                }
            }
            assert forall|i: int, j: int|
                0 <= i < f.len() && 0 <= j < f.len() && i != j implies #[trigger] f[i].id
                != #[trigger] f[j].id by {
                if i < fr.len() && j < fr.len() {
                    assert(f[i] == fr[i] && f[j] == fr[j]);
                } else if i < fr.len() {
                    assert(fr.contains(fr[i]));
                    assert(rest.contains(fr[i]));
                    let k = choose|k: int| 0 <= k < rest.len() && rest[k] == fr[i];
                    assert(s[k] == rest[k]);
                    assert(s[s.len() - 1] == s.last());
                } else if j < fr.len() {
                    assert(fr.contains(fr[j]));
                    assert(rest.contains(fr[j]));
                    let k = choose|k: int| 0 <= k < rest.len() && rest[k] == fr[j];
                    assert(s[k] == rest[k]);
                    assert(s[s.len() - 1] == s.last());
                }
            }
            assert forall|t: TodoItem| f.contains(t) implies s.contains(t) by {
                let k = choose|k: int| 0 <= k < f.len() && f[k] == t;
                if k < fr.len() {
                    assert(f[k] == fr[k]);
                    assert(fr.contains(t));
                    let m = choose|m: int| 0 <= m < rest.len() && rest[m] == t;
                    assert(s[m] == rest[m]);
                } else {
                    assert(s[s.len() - 1] == t);
                }
            }
        } else {
            assert forall|t: TodoItem| fr.contains(t) implies s.contains(t) by {
                assert(rest.contains(t));
                let m = choose|m: int| 0 <= m < rest.len() && rest[m] == t;
                assert(s[m] == rest[m]);
            }
        }
    }
}

/// Adding, deleting and toggling keep the ids of the list distinct and below
/// the next id.
pub proof fn lemma_list_steps_keep_keys(a: App, b: App, changed: bool, now: Timestamp)
    requires
        well_keyed(a),
        App::add_effect(a, b, changed, now) || App::edit_effect(a, b, changed)
            || App::delete_step(a, b, changed) || App::toggle_step(a, b, changed),
    ensures
        well_keyed(b),
{
    if App::add_effect(a, b, changed, now) {
        if changed {
            let s = b.todos@;
            assert forall|i: int| 0 <= i < s.len() implies #[trigger] s[i].id < b.next_id by {
                if i < s.len() - 1 {
                    assert(s[i] == s.drop_last()[i]);
                }
            }
            assert forall|i: int, j: int|
                0 <= i < s.len() && 0 <= j < s.len() && i != j implies #[trigger] s[i].id
                != #[trigger] s[j].id by {
                if i < s.len() - 1 {
                    assert(s[i] == s.drop_last()[i]);
                }
                if j < s.len() - 1 {
                    assert(s[j] == s.drop_last()[j]);
                }
            }
        }
    } else if App::edit_effect(a, b, changed) {
        if changed {
            let k = first_index_of_id(a.todos@, a.selected_id()->0);
            let s = b.todos@;
            assert forall|i: int| 0 <= i < s.len() implies #[trigger] s[i].id == a.todos@[i].id by {
                if i != k {
                    assert(s[i] == a.todos@[i]);
                }
            }
        }
    } else if App::delete_step(a, b, changed) {
        match a.selected_id() {
            None => {},
            Some(id) => {
                lemma_filter_keeps_keys(a.todos@, id_other_than(id), a.next_id as int);
            },
        }
    } else {
        match a.selected_id() {
            None => {},
            Some(id) => {
                let k = first_index_of_id(a.todos@, id);
                let s = b.todos@;
                assert forall|i: int| 0 <= i < s.len() implies #[trigger] s[i].id == a.todos@[i].id by {
                    if i != k {
                        assert(s[i] == a.todos@[i]);
                    }
                }
            }
        }
    }
}

/// Every key press keeps the ids of the list distinct and below the next id.
pub proof fn lemma_keys_keep_keys(a: App, b: App, key: Key, changed: bool, now: Timestamp)
    requires
        well_keyed(a),
        key_step(a, b, key, changed, now),
    ensures
        well_keyed(b),
{
    match a.input_mode {
        InputMode::Adding(_) | InputMode::Editing => {
            if key == Key::Enter {
                lemma_list_steps_keep_keys(a, b, changed, now);
            }
        },
        InputMode::Normal => {
            match key {
                Key::Char(c) => {
                    if c == 'd' || c == ' ' {
                        lemma_list_steps_keep_keys(a, b, changed, now);
                    }
                },
                _ => {},
            }
        },
        _ => {},
    }
}

/// With distinct ids, deleting the selected todo removes exactly that entry.
pub proof fn lemma_delete_removes_one(a: App, b: App)
    requires
        ids_distinct(a.todos@),
        App::delete_step(a, b, true),
    ensures
        exists|k: int|
            0 <= k < a.todos@.len() && a.todos@[k] == a.shown()[a.selected as int]
                && b.todos@ == a.todos@.remove(k),
{
    let t = a.shown()[a.selected as int];
    a.todos@.lemma_filter_contains_rev(tab_filter(a.tab), t);
    let k = choose|k: int| 0 <= k < a.todos@.len() && a.todos@[k] == t;
    lemma_filter_removes_key(a.todos@, k);
}

proof fn lemma_filter_removes_key(s: Seq<TodoItem>, k: int)
    requires
        ids_distinct(s),
        0 <= k < s.len(),
    ensures
        s.filter(id_other_than(s[k].id)) == s.remove(k),
    decreases s.len(),
{
    reveal_with_fuel(Seq::<TodoItem>::filter, 1);
    let p = id_other_than(s[k].id);
    let rest = s.drop_last();
    if k == s.len() - 1 {
        assert(ids_distinct(rest));
        lemma_filter_keeps_all(rest, p);
        assert(s.remove(k) =~= rest);
    } else {
        assert(ids_distinct(rest));
        assert(rest[k] == s[k]);
        lemma_filter_removes_key(rest, k);
        assert(s.last().id != s[k].id);
        assert(s.remove(k) =~= rest.remove(k).push(s.last()));
    }
}

proof fn lemma_filter_keeps_all(s: Seq<TodoItem>, p: spec_fn(TodoItem) -> bool)
    requires
        forall|i: int| 0 <= i < s.len() ==> p(#[trigger] s[i]),
    ensures
        s.filter(p) == s,
    decreases s.len(),
{
    reveal_with_fuel(Seq::<TodoItem>::filter, 1);
    if s.len() > 0 {
        let rest = s.drop_last();
        assert forall|i: int| 0 <= i < rest.len() implies p(#[trigger] rest[i]) by {
            assert(rest[i] == s[i]);
        }
        lemma_filter_keeps_all(rest, p);
        assert(s.last() == s[s.len() - 1]);
        assert(rest.push(s.last()) =~= s);
    }
}

/// On the All tab, toggling the selected todo twice gives back the list one
/// started with.
pub proof fn lemma_toggle_twice_on_all(a: App, b: App, c: App)
    requires
        a.tab == Tab::All,
        App::toggle_step(a, b, true),
        App::toggle_step(b, c, true),
    ensures
        c.todos@ == a.todos@,
{
    let sa = a.todos@;
    let sb = b.todos@;
    lemma_tabs_partition(sa);
    lemma_tabs_partition(sb);
    let id = a.selected_id()->0;
    let k = first_index_of_id(sa, id);
    assert(first_with_id(sa, id, k));
    assert(sb[k] == sa[k].toggled());
    assert(b.selected_id() == Some(sb[b.selected as int].id));
    assert(sb[b.selected as int].id == sa[a.selected as int].id) by {
        if a.selected as int != k {
            assert(sb[a.selected as int] == sa[a.selected as int]);
        }
    }
    assert(first_with_id(sb, id, k)) by {
        assert forall|j: int| 0 <= j < k implies sb[j].id != id by {
            assert(sb[j] == sa[j]);
        }
    }
    let k2 = first_index_of_id(sb, id);
    assert(first_with_id(sb, id, k2));
    assert(k2 == k);
    assert(c.todos@ =~= sa);
}

/// The priority that an edit form starts with is the one the todo had.
pub proof fn lemma_priority_index_round_trip(p: Priority)
    ensures
        priority_at(priority_index_of(p)) == p,
{
}

/// With distinct ids, opening the edit form on the selected todo and saving it
/// untouched keeps every todo as it was: the edited one keeps its id, its
/// completion, its creation time, its priority, and title and description
/// with the same text; every other entry is unchanged.
pub proof fn lemma_untouched_edit_keeps_list(a: App, b: App, c: App)
    requires
        ids_distinct(a.todos@),
        a.selected_id() is Some,
        App::start_edit_step(a, b),
        App::edit_effect(b, c, true),
    ensures
        c.todos@.len() == a.todos@.len(),
        forall|j: int|
            0 <= j < a.todos@.len() ==> {
                &&& (#[trigger] c.todos@[j]).id == a.todos@[j].id
                &&& c.todos@[j].completed == a.todos@[j].completed
                &&& c.todos@[j].created_at == a.todos@[j].created_at
                &&& c.todos@[j].priority == a.todos@[j].priority
                &&& c.todos@[j].title@ == a.todos@[j].title@
                &&& c.todos@[j].description@ == a.todos@[j].description@
            },
{
    let id = a.selected_id()->0;
    let t = a.shown()[a.selected as int];
    assert(b.shown() == a.shown());
    let k = first_index_of_id(a.todos@, id);
    a.todos@.lemma_filter_contains_rev(tab_filter(a.tab), t);
    let w = choose|w: int| 0 <= w < a.todos@.len() && a.todos@[w] == t;
    assert(first_with_id(a.todos@, id, k));
    assert(w == k);
    lemma_priority_index_round_trip(t.priority);
}

/// Deleting keeps a selection that still points into the shorter list where
/// it was, and pulls one that fell off the end back to the last entry.
pub proof fn lemma_delete_keeps_selection_in_place(a: App, b: App)
    requires
        App::delete_step(a, b, true),
    ensures
        a.selected < b.shown().len() ==> b.selected == a.selected,
        a.selected >= b.shown().len() && b.shown().len() > 0 ==> b.selected == b.shown().len() - 1,
        b.shown().len() == 0 ==> b.selected == a.selected,
        b.tab == a.tab,
{
}

/// Toggling a todo flips its completion and leaves every other field alone.
pub proof fn lemma_toggle_flips_only_completion(t: TodoItem)
    ensures
        t.toggled().completed == !t.completed,
        t.toggled().id == t.id,
        t.toggled().title == t.title,
        t.toggled().description == t.description,
        t.toggled().created_at == t.created_at,
        t.toggled().priority == t.priority,
{
}

/// Toggling the selected todo flips the completion of one entry of the list,
/// the first one with the selected id, and changes nothing else in the list.
pub proof fn lemma_toggle_selected_flips_one_entry(a: App, b: App)
    requires
        App::toggle_step(a, b, true),
    ensures
        exists|k: int|
            0 <= k < a.todos@.len() && a.todos@[k].id == a.selected_id()->0 && {
                &&& b.todos@.len() == a.todos@.len()
                &&& b.todos@[k].completed == !a.todos@[k].completed
                &&& b.todos@[k].id == a.todos@[k].id
                &&& b.todos@[k].title == a.todos@[k].title
                &&& b.todos@[k].description == a.todos@[k].description
                &&& b.todos@[k].created_at == a.todos@[k].created_at
                &&& b.todos@[k].priority == a.todos@[k].priority
                &&& forall|j: int| 0 <= j < a.todos@.len() && j != k ==> b.todos@[j] == a.todos@[j]
            },
{
    let id = a.selected_id()->0;
    let k = first_index_of_id(a.todos@, id);
    assert(first_with_id(a.todos@, id, k));
    lemma_toggle_flips_only_completion(a.todos@[k]);
    assert(b.todos@[k] == a.todos@[k].toggled());
}

/// The form field that typed characters go to.
pub open spec fn active_text(app: App) -> Seq<char> {
    if app.input_mode == InputMode::Adding(crate::app::AddingField::Description) {
        app.description_buffer@
    } else {
        app.input_buffer@
    }
}

/// In the add or edit form, typing a character appends exactly that character
/// to the field being typed into and leaves the other field and the list alone.
pub proof fn lemma_typing_appends_char(a: App, b: App, c: char, changed: bool, now: Timestamp)
    requires
        a.input_mode matches InputMode::Adding(_) || a.input_mode == InputMode::Editing,
        key_step(a, b, Key::Char(c), changed, now),
    ensures
        !changed,
        b.input_mode == a.input_mode,
        active_text(b) == active_text(a).push(c),
        a.input_mode == InputMode::Adding(crate::app::AddingField::Description) ==> b.input_buffer@
            == a.input_buffer@,
        a.input_mode != InputMode::Adding(crate::app::AddingField::Description)
            ==> b.description_buffer@ == a.description_buffer@,
        b.todos@ == a.todos@,
{
}

/// Typing a string into the form, one key per character, appends the whole
/// string to the field being typed into.
pub proof fn lemma_typing_appends_text(
    states: Seq<App>,
    text: Seq<char>,
    changes: Seq<bool>,
    now: Timestamp,
)
    requires
        states.len() == text.len() + 1,
        changes.len() == text.len(),
        states[0].input_mode matches InputMode::Adding(_) || states[0].input_mode
            == InputMode::Editing,
        forall|i: int|
            0 <= i < text.len() ==> key_step(
                #[trigger] states[i],
                states[i + 1],
                Key::Char(text[i]),
                changes[i],
                now,
            ),
    ensures
        active_text(states[text.len() as int]) == active_text(states[0]) + text,
        states[text.len() as int].input_mode == states[0].input_mode,
        states[text.len() as int].todos@ == states[0].todos@,
    decreases text.len(),
{
    if text.len() == 0 {
        assert(active_text(states[0]) + text =~= active_text(states[0]));
    } else {
        let n = text.len() - 1;
        let shorter = states.take(n + 1);
        let prefix = text.take(n);
        let fewer = changes.take(n);
        assert forall|i: int| 0 <= i < prefix.len() implies key_step(
            #[trigger] shorter[i],
            shorter[i + 1],
            Key::Char(prefix[i]),
            fewer[i],
            now,
        ) by {
            assert(shorter[i] == states[i] && shorter[i + 1] == states[i + 1]);
            assert(prefix[i] == text[i] && fewer[i] == changes[i]);
        }
        lemma_typing_appends_text(shorter, prefix, fewer, now);
        assert(shorter[n] == states[n]);
        assert(key_step(states[n], states[n + 1], Key::Char(text[n]), changes[n], now));
        lemma_typing_appends_char(states[n], states[n + 1], text[n], changes[n], now);
        assert(active_text(states[0]) + text =~= (active_text(states[0]) + prefix).push(text[n]));
    }
}

/// The Active tab holds exactly the todos that are not completed and the
/// Completed tab exactly the completed ones, whatever else a todo holds.
pub proof fn lemma_tabs_filter_by_completion(s: Seq<TodoItem>)
    ensures
        s.filter(tab_filter(Tab::Active)) == s.filter(|t: TodoItem| !t.completed),
        s.filter(tab_filter(Tab::Completed)) == s.filter(|t: TodoItem| t.completed),
    decreases s.len(),
{
    reveal_with_fuel(Seq::<TodoItem>::filter, 1);
    if s.len() > 0 {
        lemma_tabs_filter_by_completion(s.drop_last());
    }
}

/// Every todo shown under Active is not completed and every todo shown under
/// Completed is completed; every todo of the list is shown under one of them.
pub proof fn lemma_shown_todos_match_tab(a: App)
    ensures
        a.tab == Tab::Active ==> forall|i: int|
            0 <= i < a.shown().len() ==> !(#[trigger] a.shown()[i]).completed,
        a.tab == Tab::Completed ==> forall|i: int|
            0 <= i < a.shown().len() ==> (#[trigger] a.shown()[i]).completed,
        a.tab == Tab::Active ==> forall|i: int|
            0 <= i < a.todos@.len() && !(#[trigger] a.todos@[i]).completed ==> a.shown().contains(
                a.todos@[i],
            ),
        a.tab == Tab::Completed ==> forall|i: int|
            0 <= i < a.todos@.len() && (#[trigger] a.todos@[i]).completed ==> a.shown().contains(
                a.todos@[i],
            ),
{
    broadcast use vstd::seq_lib::group_filter_ensures;
    let p = tab_filter(a.tab);
    assert forall|i: int| 0 <= i < a.shown().len() implies p(#[trigger] a.shown()[i]) by {
        a.todos@.lemma_filter_pred(p, i);
    }
    assert forall|i: int| 0 <= i < a.todos@.len() && p(#[trigger] a.todos@[i]) implies a.shown().contains(
        a.todos@[i],
    ) by {
        a.todos@.lemma_filter_contains(p, i);
    }
}

/// Moving down from an entry of the list goes to the next entry, or from the
/// last entry back to the first; moving up goes to the previous entry, or from
/// the first entry to the last.
pub proof fn lemma_moves_go_one_entry(a: App, b: App)
    requires
        a.selected < a.shown().len(),
    ensures
        App::next_item_step(a, b) ==> b.selected == if a.selected + 1 < a.shown().len() {
            a.selected + 1
        } else {
            0
        },
        App::previous_item_step(a, b) ==> b.selected == if a.selected == 0 {
            a.shown().len() - 1
        } else {
            a.selected - 1
        },
{
    let len = a.shown().len();
    if a.selected + 1 < len {
        assert((a.selected + 1) % (len as int) == a.selected + 1) by (nonlinear_arith)
            requires
                0 <= a.selected + 1 < len,
        ;
    } else {
        assert((a.selected + 1) % (len as int) == 0) by (nonlinear_arith)
            requires
                a.selected + 1 == len,
        ;
    }
}

/// Every Tab press moves to a different tab.
pub proof fn lemma_tab_changes(t: Tab)
    ensures
        tab_after(t) != t,
        tab_after(tab_after(t)) != t,
{
}

/// The next id after a load is one past some id of the list (the largest), or
/// 0 for an empty list.
pub proof fn lemma_loaded_next_id_is_tight(s: Seq<TodoItem>)
    ensures
        s.len() == 0 ==> next_id_after(s) == 0,
        s.len() > 0 ==> exists|i: int| 0 <= i < s.len() && #[trigger] s[i].id + 1 == next_id_after(s),
    decreases s.len(),
{
    if s.len() > 0 {
        let rest = s.drop_last();
        lemma_loaded_next_id_is_tight(rest);
        if next_id_after(s) == s.last().id + 1 {
            assert(s[s.len() - 1].id + 1 == next_id_after(s));
        } else {
            let i = choose|i: int| 0 <= i < rest.len() && #[trigger] rest[i].id + 1 == next_id_after(rest);
            assert(s[i] == rest[i]);
        }
    }
}

/// In the form, Backspace removes the last character of the field being typed
/// into (nothing when it is empty), Esc empties both fields and closes the
/// form, and Up and Down move the priority choice by one within Low..High.
pub proof fn lemma_form_keys(a: App, b: App, key: Key, changed: bool, now: Timestamp)
    requires
        a.input_mode matches InputMode::Adding(_) || a.input_mode == InputMode::Editing,
        key_step(a, b, key, changed, now),
    ensures
        key == Key::Backspace ==> {
            &&& active_text(a).len() > 0 ==> active_text(b) == active_text(a).take(
                active_text(a).len() - 1,
            )
            &&& active_text(a).len() == 0 ==> active_text(b) == active_text(a)
            &&& b.todos@ == a.todos@
        },
        key == Key::Esc ==> {
            &&& b.input_buffer@.len() == 0
            &&& b.description_buffer@.len() == 0
            &&& b.input_mode == InputMode::Normal
            &&& b.todos@ == a.todos@
            &&& b.priority_index == a.priority_index
        },
        key == Key::Up ==> b.priority_index == if a.priority_index == 0 {
            0
        } else {
            a.priority_index - 1
        },
        key == Key::Down ==> b.priority_index == if a.priority_index >= 2 {
            a.priority_index as int
        } else {
            a.priority_index + 1
        },
{
}

} // verus!
