use crate::app::{AddingField, App, InputMode};
use crate::todo::Timestamp;
use vstd::prelude::*;

verus! {

/// `String::push` appends the character to the end of the string.
pub assume_specification[ String::push ](s: &mut String, ch: char)
    ensures
        final(s)@ == old(s)@.push(ch),
;

/// `String::pop` removes the last character and returns it, or returns `None`
/// and leaves the string alone when it is empty.
pub assume_specification[ String::pop ](s: &mut String) -> (c: Option<char>)
    ensures
        old(s)@.len() == 0 ==> c is None && final(s)@ == old(s)@,
        old(s)@.len() > 0 ==> c == Some(old(s)@.last()) && final(s)@ == old(s)@.drop_last(),
;

/// `String::clear` removes all contents of the string.
pub assume_specification[ String::clear ](s: &mut String)
    ensures
        final(s)@ == Seq::<char>::empty(),
;

/// A key press, as far as the application tells keys apart.
#[derive(Debug, Clone, Copy, PartialEq, Eq, Structural)]
pub enum Key {
    Char(char),
    Enter,
    Esc,
    Backspace,
    Up,
    Down,
    Tab,
    Other,
}

/// `post` is `pre` with the input mode set to `mode`.
pub open spec fn mode_set(pre: App, post: App, mode: InputMode) -> bool {
    &&& App::same_except_mode(pre, post)
    &&& post.input_mode == mode
}

/// `post` is `pre` with the quit flag raised.
pub open spec fn quit_set(pre: App, post: App) -> bool {
    &&& post.todos@ == pre.todos@
    &&& post.tab == pre.tab
    &&& post.selected == pre.selected
    &&& post.input_mode == pre.input_mode
    &&& post.input_buffer@ == pre.input_buffer@
    &&& post.description_buffer@ == pre.description_buffer@
    &&& post.priority_index == pre.priority_index
    &&& post.should_quit
    &&& post.next_id == pre.next_id
    &&& post.storage_path == pre.storage_path
}

/// Whether typing in this mode goes to the description rather than the title.
pub open spec fn edits_description(mode: InputMode) -> bool {
    mode == InputMode::Adding(AddingField::Description)
}

/// `post` is `pre` with its text buffers replaced by `title` and `description`
/// (the input mode aside).
pub open spec fn buffers_set(pre: App, post: App, title: Seq<char>, description: Seq<char>) -> bool {
    &&& post.todos@ == pre.todos@
    &&& post.tab == pre.tab
    &&& post.selected == pre.selected
    &&& post.input_buffer@ == title
    &&& post.description_buffer@ == description
    &&& post.priority_index == pre.priority_index
    &&& post.should_quit == pre.should_quit
    &&& post.next_id == pre.next_id
    &&& post.storage_path == pre.storage_path
}

/// `post` is `pre` with the priority index set to `i`.
pub open spec fn priority_index_set(pre: App, post: App, i: int) -> bool {
    &&& post.todos@ == pre.todos@
    &&& post.tab == pre.tab
    &&& post.selected == pre.selected
    &&& post.input_mode == pre.input_mode
    &&& post.input_buffer@ == pre.input_buffer@
    &&& post.description_buffer@ == pre.description_buffer@
    &&& post.priority_index == i
    &&& post.should_quit == pre.should_quit
    &&& post.next_id == pre.next_id
    &&& post.storage_path == pre.storage_path
}

/// The text left after a backspace.
pub open spec fn without_last(s: Seq<char>) -> Seq<char> {
    if s.len() == 0 {
        s
    } else {
        s.drop_last()
    }
}

/// The mode that Tab switches to in the add form.
pub open spec fn switched_field(mode: InputMode) -> InputMode {
    match mode {
        InputMode::Adding(AddingField::Title) => InputMode::Adding(AddingField::Description),
        InputMode::Adding(AddingField::Description) => InputMode::Adding(AddingField::Title),
        _ => mode,
    }
}

/// What a key does while the list is shown.
pub open spec fn normal_step(pre: App, post: App, key: Key, changed: bool) -> bool {
    match key {
        Key::Char(c) => if c == 'q' {
            !changed && quit_set(pre, post)
        } else if c == 'a' {
            !changed && mode_set(pre, post, InputMode::Adding(AddingField::Title))
        } else if c == 'e' {
            !changed && App::start_edit_step(pre, post)
        } else if c == 'd' {
            App::delete_step(pre, post, changed)
        } else if c == ' ' {
            App::toggle_step(pre, post, changed)
        } else if c == 'j' {
            !changed && App::next_item_step(pre, post)
        } else if c == 'k' {
            !changed && App::previous_item_step(pre, post)
        } else {
            !changed && App::same_state(pre, post)
        },
        Key::Down => !changed && App::next_item_step(pre, post),
        Key::Up => !changed && App::previous_item_step(pre, post),
        Key::Tab => !changed && App::next_tab_step(pre, post),
        Key::Enter => !changed && mode_set(pre, post, InputMode::ViewingDetails),
        _ => !changed && App::same_state(pre, post),
    }
}

/// What a key does while the form is open (adding, or editing a todo); a todo
/// added now is created at `now`.
pub open spec fn adding_step(pre: App, post: App, key: Key, changed: bool, now: Timestamp) -> bool {
    match key {
        Key::Esc => {
            &&& !changed
            &&& post.input_mode == InputMode::Normal
            &&& buffers_set(pre, post, Seq::empty(), Seq::empty())
        },
        Key::Enter => {
            &&& if pre.input_mode == InputMode::Editing {
                App::edit_effect(pre, post, changed)
            } else {
                App::add_effect(pre, post, changed, now)
            }
            &&& post.input_mode == InputMode::Normal
        },
        Key::Char(c) => !changed && post.input_mode == pre.input_mode && if edits_description(pre.input_mode) {
            buffers_set(pre, post, pre.input_buffer@, pre.description_buffer@.push(c))
        } else {
            buffers_set(pre, post, pre.input_buffer@.push(c), pre.description_buffer@)
        },
        Key::Backspace => !changed && post.input_mode == pre.input_mode && if edits_description(pre.input_mode) {
            buffers_set(pre, post, pre.input_buffer@, without_last(pre.description_buffer@))
        } else {
            buffers_set(pre, post, without_last(pre.input_buffer@), pre.description_buffer@)
        },
        Key::Up => !changed && priority_index_set(
            pre,
            post,
            if pre.priority_index > 0 { pre.priority_index - 1 } else { pre.priority_index as int },
        ),
        Key::Down => !changed && priority_index_set(
            pre,
            post,
            if pre.priority_index < 2 { pre.priority_index + 1 } else { pre.priority_index as int },
        ),
        Key::Tab => !changed && mode_set(pre, post, switched_field(pre.input_mode)),
        Key::Other => !changed && App::same_state(pre, post),
    }
}

/// What a key does while a todo's details are shown.
pub open spec fn details_step(pre: App, post: App, key: Key) -> bool {
    if key == Key::Esc {
        mode_set(pre, post, InputMode::Normal)
    } else {
        App::same_state(pre, post)
    }
}

/// Handles a key while the list is shown. Returns whether the list changed
/// (and so should be stored).
pub fn handle_normal_mode(app: &mut App, key: Key) -> (changed: bool)
    requires
        key == Key::Down || key == Key::Char('j') ==> old(app).shown().len() == 0
            || old(app).selected < usize::MAX,
    ensures
        normal_step(*old(app), *final(app), key, changed),
{
    match key {
        Key::Char('q') => {
            app.should_quit = true;
            false
        },
        Key::Char('a') => {
            app.input_mode = InputMode::Adding(AddingField::Title);
            false
        },
        Key::Char('e') => {
            app.start_edit();
            false
        },
        Key::Char('d') => app.delete_selected(),
        Key::Char(' ') => app.toggle_selected(),
        Key::Down | Key::Char('j') => {
            app.next_item();
            false
        },
        Key::Up | Key::Char('k') => {
            app.previous_item();
            false
        },
        Key::Tab => {
            app.next_tab();
            false
        },
        Key::Enter => {
            app.input_mode = InputMode::ViewingDetails;
            false
        },
        _ => false,
    }
}

/// Handles a key while the form is open; a todo added now is created at
/// `now`. Returns whether the list changed.
pub fn handle_adding_mode(app: &mut App, key: Key, now: Timestamp) -> (changed: bool)
    requires
        key == Key::Enter && old(app).input_mode != InputMode::Editing
            && old(app).input_buffer@.len() > 0 ==> old(app).next_id < usize::MAX,
    ensures
        adding_step(*old(app), *final(app), key, changed, now),
{
    let to_description = app.input_mode == InputMode::Adding(AddingField::Description);
    match key {
        Key::Esc => {
            app.input_mode = InputMode::Normal;
            app.input_buffer.clear();
            app.description_buffer.clear();
            assert(app.input_buffer@ == Seq::<char>::empty());
            assert(app.description_buffer@ == Seq::<char>::empty());
            false
        },
        Key::Enter => {
            let changed = if app.input_mode == InputMode::Editing {
                app.save_edit()
            } else {
                app.add_todo(now)
            };
            app.input_mode = InputMode::Normal;
            changed
        },
        Key::Char(c) => {
            if to_description {
                app.description_buffer.push(c);
            } else {
                app.input_buffer.push(c);
            }
            false
        },
        Key::Backspace => {
            if to_description {
                app.description_buffer.pop();
            } else {
                app.input_buffer.pop();
            }
            false
        },
        Key::Up => {
            if app.priority_index > 0 {
                app.priority_index -= 1;
            }
            false
        },
        Key::Down => {
            if app.priority_index < 2 {
                app.priority_index += 1;
            }
            false
        },
        Key::Tab => {
            match app.input_mode {
                InputMode::Adding(AddingField::Title) => {
                    app.input_mode = InputMode::Adding(AddingField::Description);
                },
                InputMode::Adding(AddingField::Description) => {
                    app.input_mode = InputMode::Adding(AddingField::Title);
                },
                _ => {},
            }
            false
        },
        Key::Other => false,
    }
}

/// Handles a key while a todo's details are shown.
pub fn handle_details_mode(app: &mut App, key: Key)
    ensures
        details_step(*old(app), *final(app), key),
{
    if key == Key::Esc {
        app.input_mode = InputMode::Normal;
    }
}

/// Whether handling `key` in state `app` stays within the machine's integers:
/// it holds unless the key would move down from the largest possible selection
/// or add a todo when the ids have run out.
pub open spec fn key_within_limits(app: App, key: Key) -> bool {
    match app.input_mode {
        InputMode::Normal => key == Key::Down || key == Key::Char('j') ==> app.shown().len() == 0
            || app.selected < usize::MAX,
        InputMode::Adding(_) => key == Key::Enter && app.input_buffer@.len() > 0 ==> app.next_id
            < usize::MAX,
        InputMode::Editing => true,
        InputMode::ViewingDetails => true,
    }
}

/// What a key does in whatever mode the application is in; a todo added now
/// is created at `now`.
pub open spec fn key_step(pre: App, post: App, key: Key, changed: bool, now: Timestamp) -> bool {
    match pre.input_mode {
        InputMode::Normal => normal_step(pre, post, key, changed),
        InputMode::Adding(_) | InputMode::Editing => adding_step(pre, post, key, changed, now),
        InputMode::ViewingDetails => !changed && details_step(pre, post, key),
    }
}

/// Handles one key press according to the current input mode; a todo added
/// now is created at `now`. Returns whether the list changed (and so should be
/// stored).
pub fn handle_key(app: &mut App, key: Key, now: Timestamp) -> (changed: bool)
    requires
        key_within_limits(*old(app), key),
    ensures
        key_step(*old(app), *final(app), key, changed, now),
{
    match app.input_mode {
        InputMode::Normal => handle_normal_mode(app, key),
        InputMode::Adding(_) | InputMode::Editing => handle_adding_mode(app, key, now),
        InputMode::ViewingDetails => {
            handle_details_mode(app, key);
            false
        },
    }
}

} // verus!
