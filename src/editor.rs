//! The mode state machine that turns key presses into edits of the line,
//! the list and the collection.
use crate::colors::ColorScheme;
use crate::customer::{field_text, Customer, CustomerView};
use crate::line_buffer::{LineBuffer, LineState};
use crate::phone::PhoneKey;
use crate::scroll_buffer::{dial_outcome, dial_result_view};
use crate::scroll_buffer::{ScrollBuffer, ScrollState};
use crate::status_line::{StatusLine, StatusState};
use crate::text::char_string;
use vstd::prelude::*;

verus! {

/// What the keyboard is driving: the filter, a step of adding or editing a
/// record, the delete confirmation, or the splash screen.
#[derive(Debug, Clone, Copy, PartialEq, Eq, Structural)]
pub enum EditorMode {
    Normal,
    SplashScreen,
    AddCompanyName,
    AddContactName,
    AddPhoneNumber,
    EditCompanyName,
    EditContactName,
    EditPhoneNumber,
    Delete,
}

/// A key press, as the terminal reports it.
#[derive(Debug, Clone, Copy, PartialEq, Eq, Structural)]
pub enum Key {
    Char(char),
    /// A character typed with Control held.
    Ctrl(char),
    Esc,
    Enter,
    Insert,
    Left,
    Right,
    Up,
    Down,
    Home,
    End,
    Delete,
    Backspace,
    Other,
}

/// What is left to the caller after a key press.
#[derive(Debug, Clone, Copy, PartialEq, Eq, Structural)]
pub enum EditorAction {
    Nothing,
    /// Write the collection out, then call [`Editor::save`].
    Save,
    /// Dial the selected record; see [`Editor::call_customer`].
    Call,
    Quit,
    /// Write the collection out, then quit.
    SaveAndQuit,
}

/// The prompt the line shows in each mode.
pub open spec fn mode_prompt(mode: EditorMode) -> Seq<char> {
    match mode {
        EditorMode::SplashScreen => Seq::empty(),
        EditorMode::Normal => "Query: "@,
        EditorMode::AddCompanyName | EditorMode::EditCompanyName => "Company name: "@,
        EditorMode::AddContactName | EditorMode::EditContactName => "Contact name: "@,
        EditorMode::AddPhoneNumber | EditorMode::EditPhoneNumber => "Phone number: "@,
        EditorMode::Delete => "Delete (y/n): "@,
    }
}

/// The message the status line shows in each mode.
pub open spec fn mode_message(mode: EditorMode) -> Seq<char> {
    match mode {
        EditorMode::SplashScreen => Seq::empty(),
        EditorMode::Normal => "Normal Mode"@,
        EditorMode::AddCompanyName => "Add Company"@,
        EditorMode::AddContactName => "Add Contact"@,
        EditorMode::AddPhoneNumber => "Add Phone Number"@,
        EditorMode::EditCompanyName => "Edit Company"@,
        EditorMode::EditContactName => "Edit Contact"@,
        EditorMode::EditPhoneNumber => "Edit Phone Number"@,
        EditorMode::Delete => "DeleteMode"@,
    }
}

/// The field of `c` that an editing mode starts from.
pub open spec fn edited_field(mode: EditorMode, c: CustomerView) -> Seq<char> {
    match mode {
        EditorMode::EditCompanyName => c.name,
        EditorMode::EditContactName => field_text(c.contact_name),
        _ => field_text(c.phone),
    }
}

/// A record with no name, contact or phone.
pub open spec fn empty_record() -> CustomerView {
    CustomerView { name: Seq::empty(), contact_name: None, phone: None }
}

/// What an editor holds, as mathematical values.
pub struct EditorState {
    pub line: LineState,
    pub list: ScrollState,
    pub status: StatusState,
    pub mode: EditorMode,
    /// The record being added or edited, field by field.
    pub pending: CustomerView,
    pub sample_data: bool,
    pub no_splash: bool,
}

impl EditorState {
    /// The filtered index rebuilt for the line's text, and the count of
    /// matching rows shown.
    pub open spec fn filtered(self) -> EditorState {
        let list = self.list.refiltered(self.line.text);
        EditorState { list, status: StatusState { results: list.filtered.len(), ..self.status }, ..self }
    }

    /// The editor after it enters `mode`: the prompt and message of the mode;
    /// the line emptied, except that an editing mode starts from the selected
    /// record's field and the delete confirmation keeps it; and a fresh
    /// filter on entering the normal mode.
    pub open spec fn with_mode(self, mode: EditorMode) -> EditorState {
        let line = match mode {
            EditorMode::EditCompanyName | EditorMode::EditContactName
            | EditorMode::EditPhoneNumber => match self.list.selected() {
                Some(c) => self.line.with_text(edited_field(mode, c)),
                None => self.line,
            }.with_prompt(mode_prompt(mode)),
            EditorMode::Delete => self.line.with_prompt(mode_prompt(mode)),
            _ => self.line.with_prompt(mode_prompt(mode)).cleared(),
        };
        let next = EditorState {
            line,
            status: StatusState { message: mode_message(mode), ..self.status },
            mode,
            ..self
        };
        if mode == EditorMode::Normal {
            next.filtered()
        } else {
            next
        }
    }

    /// The editor after Enter: the normal and delete modes filter again; a
    /// step of adding or editing takes the line's text into its field of the
    /// pending record and moves to the next step; the last step adds the
    /// record to the collection, or puts it in place of the selected one, and
    /// returns to the normal mode.
    pub open spec fn entered(self) -> EditorState {
        let text = self.line.text;
        match self.mode {
            EditorMode::Normal | EditorMode::Delete => self.with_mode(EditorMode::Normal).filtered(),
            EditorMode::AddCompanyName => EditorState {
                pending: CustomerView { name: text, ..self.pending },
                ..self
            }.with_mode(EditorMode::AddContactName),
            EditorMode::AddContactName => EditorState {
                pending: CustomerView { contact_name: Some(text), ..self.pending },
                ..self
            }.with_mode(EditorMode::AddPhoneNumber),
            EditorMode::AddPhoneNumber => EditorState {
                list: self.list.with_added(CustomerView { phone: Some(text), ..self.pending }),
                pending: empty_record(),
                ..self
            }.with_mode(EditorMode::Normal).filtered(),
            EditorMode::EditCompanyName => EditorState {
                pending: CustomerView { name: text, ..self.pending },
                ..self
            }.with_mode(EditorMode::EditContactName),
            EditorMode::EditContactName => EditorState {
                pending: CustomerView { contact_name: Some(text), ..self.pending },
                ..self
            }.with_mode(EditorMode::EditPhoneNumber),
            EditorMode::EditPhoneNumber => EditorState {
                list: self.list.with_updated(CustomerView { phone: Some(text), ..self.pending }),
                pending: empty_record(),
                ..self
            }.with_mode(EditorMode::Normal).filtered(),
            EditorMode::SplashScreen => self,
        }
    }

    /// The editor after the character `c` is typed. The splash screen
    /// swallows it. The delete confirmation takes `y` (remove the selected
    /// record, if any) or `n`, and either way returns to the normal mode;
    /// it ignores other characters. Elsewhere `c` goes into the line, and in
    /// the normal mode the list is filtered again.
    pub open spec fn key_added(self, c: char) -> EditorState {
        match self.mode {
            EditorMode::SplashScreen => self,
            EditorMode::Delete => if c == 'y' {
                EditorState {
                    list: self.list.selected_removed().refiltered(self.list.filter),
                    ..self
                }.with_mode(EditorMode::Normal).filtered()
            } else if c == 'n' {
                self.with_mode(EditorMode::Normal).filtered()
            } else {
                self
            },
            _ => {
                let typed = if self.line.text.len() < usize::MAX {
                    EditorState { line: self.line.typed(seq![c]), ..self }
                } else {
                    self
                };
                if self.mode == EditorMode::Normal {
                    typed.filtered()
                } else {
                    typed
                }
            },
        }
    }

    /// The line changed to `line`, and the list filtered again in the normal
    /// mode.
    pub open spec fn line_edited(self, line: LineState) -> EditorState {
        let next = EditorState { line, ..self };
        if self.mode == EditorMode::Normal {
            next.filtered()
        } else {
            next
        }
    }

    /// The editor after a key press, and what is left to the caller.
    ///
    /// The splash screen is dismissed by the space bar, which then goes on
    /// into the line as in the normal mode; it swallows every other key.
    pub open spec fn after_key(self, key: Key) -> (EditorState, EditorAction) {
        if self.mode == EditorMode::SplashScreen {
            if key == Key::Char(' ') {
                (self.with_mode(EditorMode::Normal).key_added(' '), EditorAction::Nothing)
            } else {
                (self, EditorAction::Nothing)
            }
        } else {
            match key {
                Key::Ctrl('q') => (
                    self,
                    if self.sample_data {
                        EditorAction::Quit
                    } else {
                        EditorAction::SaveAndQuit
                    },
                ),
                Key::Ctrl('s') => (
                    self,
                    if self.sample_data {
                        EditorAction::Nothing
                    } else {
                        EditorAction::Save
                    },
                ),
                Key::Ctrl('c') => (self, EditorAction::Call),
                Key::Ctrl('a') => (self.with_mode(EditorMode::AddCompanyName), EditorAction::Nothing),
                Key::Ctrl('e') => (
                    if self.list.has_selection() {
                        self.with_mode(EditorMode::EditCompanyName)
                    } else {
                        self
                    },
                    EditorAction::Nothing,
                ),
                Key::Ctrl('d') => (self.with_mode(EditorMode::Delete), EditorAction::Nothing),
                Key::Ctrl(c) => (self.key_added(c), EditorAction::Nothing),
                Key::Char(c) => (self.key_added(c), EditorAction::Nothing),
                Key::Esc => (self.with_mode(EditorMode::Normal), EditorAction::Nothing),
                Key::Enter => (self.entered(), EditorAction::Nothing),
                Key::Insert => (EditorState { line: self.line.toggled(), ..self }, EditorAction::Nothing),
                Key::Left => (EditorState { line: self.line.moved_left(), ..self }, EditorAction::Nothing),
                Key::Right => (EditorState { line: self.line.moved_right(), ..self }, EditorAction::Nothing),
                Key::Home => (
                    EditorState { line: self.line.moved_to_start(), ..self },
                    EditorAction::Nothing,
                ),
                Key::End => (EditorState { line: self.line.moved_to_end(), ..self }, EditorAction::Nothing),
                Key::Up => (EditorState { list: self.list.moved_up(), ..self }, EditorAction::Nothing),
                Key::Down => (EditorState { list: self.list.moved_down(), ..self }, EditorAction::Nothing),
                Key::Delete => (self.line_edited(self.line.deleted()), EditorAction::Nothing),
                Key::Backspace => (self.line_edited(self.line.backspaced()), EditorAction::Nothing),
                Key::Other => (self, EditorAction::Nothing),
            }
        }
    }
}

/// The whole screen's state: the line editor, the list, the status line and
/// the mode.
pub struct Editor {
    pub line_buffer: LineBuffer,
    pub scroll_buffer: ScrollBuffer,
    pub status_line: StatusLine,
    pub mode: EditorMode,
    pub color_scheme: ColorScheme,
    temp_customer: Customer,
    no_splash: bool,
    sample_data: bool,
}

impl View for Editor {
    type V = EditorState;

    closed spec fn view(&self) -> EditorState {
        EditorState {
            line: self.line_buffer@,
            list: self.scroll_buffer@,
            status: self.status_line@,
            mode: self.mode,
            pending: self.temp_customer@,
            sample_data: self.sample_data,
            no_splash: self.no_splash,
        }
    }
}

impl Editor {
    pub closed spec fn wf(&self) -> bool {
        &&& self.line_buffer.wf()
        &&& self.scroll_buffer.wf()
    }

    /// The palettes and the phone settings are the same in both.
    pub closed spec fn same_setup(&self, other: &Editor) -> bool {
        &&& self.line_buffer.colors() == other.line_buffer.colors()
        &&& self.scroll_buffer.colors() == other.scroll_buffer.colors()
        &&& self.scroll_buffer.config_spec() == other.scroll_buffer.config_spec()
        &&& self.status_line.colors() == other.status_line.colors()
        &&& self.color_scheme == other.color_scheme
    }

    /// An editor on a terminal of `cols` columns and `lines` lines, showing
    /// the splash screen over an empty list.
    pub fn new(no_splash: bool, sample_data: bool, cols: u16, lines: u16) -> (r: Editor)
        requires
            lines >= 3,
        ensures
            r.wf(),
            r@.mode == EditorMode::SplashScreen,
            r@.line == (LineState { text: Seq::empty(), caret: 0, prompt: "Query: "@, insert: true }),
            r@.list.customers.len() == 0,
            r@.list.filter.len() == 0,
            r@.list.filtered.len() == 0,
            r@.list.scroll_pos == 0,
            r@.list.rows == lines - 2,
            r@.list.cols == cols,
            r@.status == (StatusState { message: Seq::empty(), row: (lines - 1) as nat, cols: cols as nat, results: 0 }),
            r@.pending == empty_record(),
            r@.no_splash == no_splash,
            r@.sample_data == sample_data,
    {
        let color_scheme = ColorScheme::new();
        let line_buffer = LineBuffer::new(String::from_str("Query: "), color_scheme);
        let scroll_buffer = ScrollBuffer::new(color_scheme, cols, lines);
        let status_line = StatusLine::new(color_scheme, cols, lines);
        Editor {
            line_buffer,
            scroll_buffer,
            status_line,
            mode: EditorMode::SplashScreen,
            color_scheme,
            temp_customer: Customer::new(),
            no_splash,
            sample_data,
        }
    }

    /// Whether the collection is sample data that is never saved.
    pub fn is_sample_data(&self) -> (r: bool)
        ensures
            r == self@.sample_data,
    {
        self.sample_data
    }

    /// Filters the loaded collection and leaves the splash screen at once
    /// where it is not wanted.
    pub fn init(&mut self)
        requires
            old(self).wf(),
        ensures
            final(self).wf(),
            final(self).same_setup(old(self)),
            final(self)@ == if old(self)@.no_splash {
                old(self)@.filtered().with_mode(EditorMode::Normal)
            } else {
                old(self)@.filtered()
            },
    {
        self.filter();
        if self.no_splash {
            self.set_mode(EditorMode::Normal);
        }
    }

    /// Filters the list by the line's text and shows the number of matches.
    pub fn filter(&mut self)
        requires
            old(self).wf(),
        ensures
            final(self).wf(),
            final(self).same_setup(old(self)),
            final(self)@ == old(self)@.filtered(),
    {
        let text = self.line_buffer.get_string();
        self.scroll_buffer.set_filter(text);
        let count = self.scroll_buffer.get_results_count();
        self.status_line.set_results_count(count);
    }

    /// Shows that the collection was saved.
    pub fn save(&mut self)
        requires
            old(self).wf(),
        ensures
            final(self).wf(),
            final(self).same_setup(old(self)),
            final(self)@ == (EditorState {
                status: StatusState { message: "Saved"@, ..old(self)@.status },
                ..old(self)@
            }),
    {
        self.status_line.set_message(String::from_str("Saved"));
    }

    /// Enters `mode`; see [`EditorState::with_mode`].
    pub fn set_mode(&mut self, mode: EditorMode)
        requires
            old(self).wf(),
        ensures
            final(self).wf(),
            final(self).same_setup(old(self)),
            final(self)@ == old(self)@.with_mode(mode),
    {
        self.mode = mode;
        match mode {
            EditorMode::SplashScreen => {
                self.line_buffer.set_prompt(String::new());
                self.status_line.set_message(String::new());
                self.line_buffer.clear();
            },
            EditorMode::Normal => {
                self.line_buffer.set_prompt(String::from_str("Query: "));
                self.status_line.set_message(String::from_str("Normal Mode"));
                self.line_buffer.clear();
                self.filter();
            },
            EditorMode::AddCompanyName => {
                self.line_buffer.set_prompt(String::from_str("Company name: "));
                self.status_line.set_message(String::from_str("Add Company"));
                self.line_buffer.clear();
            },
            EditorMode::AddContactName => {
                self.line_buffer.set_prompt(String::from_str("Contact name: "));
                self.status_line.set_message(String::from_str("Add Contact"));
                self.line_buffer.clear();
            },
            EditorMode::AddPhoneNumber => {
                self.line_buffer.set_prompt(String::from_str("Phone number: "));
                self.status_line.set_message(String::from_str("Add Phone Number"));
                self.line_buffer.clear();
            },
            EditorMode::EditCompanyName => {
                if let Some(customer) = self.scroll_buffer.get_selected_customer() {
                    let text = customer.get_company_name();
                    self.line_buffer.set_buffer(text);
                }
                self.line_buffer.set_prompt(String::from_str("Company name: "));
                self.status_line.set_message(String::from_str("Edit Company"));
            },
            EditorMode::EditContactName => {
                if let Some(customer) = self.scroll_buffer.get_selected_customer() {
                    let text = customer.get_contact_name();
                    self.line_buffer.set_buffer(text);
                }
                self.line_buffer.set_prompt(String::from_str("Contact name: "));
                self.status_line.set_message(String::from_str("Edit Contact"));
            },
            EditorMode::EditPhoneNumber => {
                if let Some(customer) = self.scroll_buffer.get_selected_customer() {
                    let text = customer.get_phone_number();
                    self.line_buffer.set_buffer(text);
                }
                self.line_buffer.set_prompt(String::from_str("Phone number: "));
                self.status_line.set_message(String::from_str("Edit Phone Number"));
            },
            EditorMode::Delete => {
                self.line_buffer.set_prompt(String::from_str("Delete (y/n): "));
                self.status_line.set_message(String::from_str("DeleteMode"));
            },
        }
    }

    /// Takes the pending record out, leaving an empty one in its place.
    fn take_pending(&mut self) -> (r: Customer)
        ensures
            r@ == old(self)@.pending,
            final(self)@ == (EditorState { pending: empty_record(), ..old(self)@ }),
            final(self).wf() == old(self).wf(),
            final(self).same_setup(old(self)),
    {
        let mut taken = Customer::new();
        std::mem::swap(&mut taken, &mut self.temp_customer);
        taken
    }

    /// Handles Enter; see [`EditorState::entered`].
    pub fn enter(&mut self)
        requires
            old(self).wf(),
        ensures
            final(self).wf(),
            final(self).same_setup(old(self)),
            final(self)@ == old(self)@.entered(),
    {
        match self.mode {
            EditorMode::Normal | EditorMode::Delete => {
                self.set_mode(EditorMode::Normal);
                self.filter();
            },
            EditorMode::AddCompanyName => {
                self.temp_customer.set_company_name(self.line_buffer.get_string());
                self.set_mode(EditorMode::AddContactName);
            },
            EditorMode::AddContactName => {
                self.temp_customer.set_contact_name(self.line_buffer.get_string());
                self.set_mode(EditorMode::AddPhoneNumber);
            },
            EditorMode::AddPhoneNumber => {
                self.temp_customer.set_phone_number(self.line_buffer.get_string());
                let customer = self.take_pending();
                self.scroll_buffer.add_customer(customer);
                self.set_mode(EditorMode::Normal);
                self.filter();
            },
            EditorMode::EditCompanyName => {
                self.temp_customer.set_company_name(self.line_buffer.get_string());
                self.set_mode(EditorMode::EditContactName);
            },
            EditorMode::EditContactName => {
                self.temp_customer.set_contact_name(self.line_buffer.get_string());
                self.set_mode(EditorMode::EditPhoneNumber);
            },
            EditorMode::EditPhoneNumber => {
                self.temp_customer.set_phone_number(self.line_buffer.get_string());
                let customer = self.take_pending();
                self.scroll_buffer.update_customer(customer);
                self.set_mode(EditorMode::Normal);
                self.filter();
            },
            EditorMode::SplashScreen => {},
        }
    }

    /// Handles a typed character; see [`EditorState::key_added`].
    pub fn add_key(&mut self, c: char)
        requires
            old(self).wf(),
        ensures
            final(self).wf(),
            final(self).same_setup(old(self)),
            final(self)@ == old(self)@.key_added(c),
    {
        if self.mode == EditorMode::SplashScreen {
            return;
        }
        if self.mode == EditorMode::Delete {
            if c == 'y' {
                self.scroll_buffer.delete_customer();
                self.set_mode(EditorMode::Normal);
                self.filter();
            } else if c == 'n' {
                self.set_mode(EditorMode::Normal);
                self.filter();
            }
            return;
        }
        if self.line_buffer.len() < usize::MAX {
            let s = char_string(c);
            self.line_buffer.add(s.as_str());
        }
        if self.mode == EditorMode::Normal {
            self.filter();
        }
    }

    /// Starts adding a record.
    pub fn add_customer(&mut self)
        requires
            old(self).wf(),
        ensures
            final(self).wf(),
            final(self).same_setup(old(self)),
            final(self)@ == old(self)@.with_mode(EditorMode::AddCompanyName),
    {
        self.set_mode(EditorMode::AddCompanyName);
    }

    /// Starts editing the selected record; does nothing where no row is
    /// selected.
    pub fn edit_customer(&mut self)
        requires
            old(self).wf(),
        ensures
            final(self).wf(),
            final(self).same_setup(old(self)),
            final(self)@ == if old(self)@.list.has_selection() {
                old(self)@.with_mode(EditorMode::EditCompanyName)
            } else {
                old(self)@
            },
    {
        if self.scroll_buffer.get_results_count() > 0 {
            self.set_mode(EditorMode::EditCompanyName);
        }
    }

    /// Asks whether to delete the selected record.
    pub fn delete_customer(&mut self)
        requires
            old(self).wf(),
        ensures
            final(self).wf(),
            final(self).same_setup(old(self)),
            final(self)@ == old(self)@.with_mode(EditorMode::Delete),
    {
        self.set_mode(EditorMode::Delete);
    }

    pub fn toggle_insert(&mut self)
        requires
            old(self).wf(),
        ensures
            final(self).wf(),
            final(self).same_setup(old(self)),
            final(self)@ == (EditorState { line: old(self)@.line.toggled(), ..old(self)@ }),
    {
        self.line_buffer.toggle_insert();
    }

    pub fn move_left(&mut self)
        requires
            old(self).wf(),
        ensures
            final(self).wf(),
            final(self).same_setup(old(self)),
            final(self)@ == (EditorState { line: old(self)@.line.moved_left(), ..old(self)@ }),
    {
        self.line_buffer.move_left();
    }

    pub fn move_right(&mut self)
        requires
            old(self).wf(),
        ensures
            final(self).wf(),
            final(self).same_setup(old(self)),
            final(self)@ == (EditorState { line: old(self)@.line.moved_right(), ..old(self)@ }),
    {
        self.line_buffer.move_right();
    }

    pub fn move_to_start(&mut self)
        requires
            old(self).wf(),
        ensures
            final(self).wf(),
            final(self).same_setup(old(self)),
            final(self)@ == (EditorState { line: old(self)@.line.moved_to_start(), ..old(self)@ }),
    {
        self.line_buffer.move_to_start();
    }

    pub fn move_to_end(&mut self)
        requires
            old(self).wf(),
        ensures
            final(self).wf(),
            final(self).same_setup(old(self)),
            final(self)@ == (EditorState { line: old(self)@.line.moved_to_end(), ..old(self)@ }),
    {
        self.line_buffer.move_to_end();
    }

    /// Deletes the character under the caret; the normal mode filters again.
    pub fn delete(&mut self)
        requires
            old(self).wf(),
        ensures
            final(self).wf(),
            final(self).same_setup(old(self)),
            final(self)@ == old(self)@.line_edited(old(self)@.line.deleted()),
    {
        self.line_buffer.delete();
        if self.mode == EditorMode::Normal {
            self.filter();
        }
    }

    /// Deletes the character before the caret; the normal mode filters again.
    pub fn backspace(&mut self)
        requires
            old(self).wf(),
        ensures
            final(self).wf(),
            final(self).same_setup(old(self)),
            final(self)@ == old(self)@.line_edited(old(self)@.line.backspaced()),
    {
        self.line_buffer.backspace();
        if self.mode == EditorMode::Normal {
            self.filter();
        }
    }

    pub fn move_up(&mut self)
        requires
            old(self).wf(),
        ensures
            final(self).wf(),
            final(self).same_setup(old(self)),
            final(self)@ == (EditorState { list: old(self)@.list.moved_up(), ..old(self)@ }),
    {
        self.scroll_buffer.move_up();
    }

    pub fn move_down(&mut self)
        requires
            old(self).wf(),
        ensures
            final(self).wf(),
            final(self).same_setup(old(self)),
            final(self)@ == (EditorState { list: old(self)@.list.moved_down(), ..old(self)@ }),
    {
        self.scroll_buffer.move_down();
    }

    /// Handles one key press and says what is left to the caller; see
    /// [`EditorState::after_key`].
    pub fn handle_key(&mut self, key: Key) -> (r: EditorAction)
        requires
            old(self).wf(),
        ensures
            final(self).wf(),
            final(self).same_setup(old(self)),
            (final(self)@, r) == old(self)@.after_key(key),
    {
        if self.mode == EditorMode::SplashScreen {
            if key == Key::Char(' ') {
                self.set_mode(EditorMode::Normal);
                self.add_key(' ');
            }
            return EditorAction::Nothing;
        }
        match key {
            Key::Ctrl('q') => {
                if self.sample_data {
                    return EditorAction::Quit;
                }
                return EditorAction::SaveAndQuit;
            },
            Key::Ctrl('s') => {
                if self.sample_data {
                    return EditorAction::Nothing;
                }
                return EditorAction::Save;
            },
            Key::Ctrl('c') => {
                return EditorAction::Call;
            },
            Key::Ctrl('a') => self.add_customer(),
            Key::Ctrl('e') => self.edit_customer(),
            Key::Ctrl('d') => self.delete_customer(),
            Key::Ctrl(c) => self.add_key(c),
            Key::Char(c) => self.add_key(c),
            Key::Esc => self.set_mode(EditorMode::Normal),
            Key::Enter => self.enter(),
            Key::Insert => self.toggle_insert(),
            Key::Left => self.move_left(),
            Key::Right => self.move_right(),
            Key::Home => self.move_to_start(),
            Key::End => self.move_to_end(),
            Key::Up => self.move_up(),
            Key::Down => self.move_down(),
            Key::Delete => self.delete(),
            Key::Backspace => self.backspace(),
            Key::Other => {},
        }
        EditorAction::Nothing
    }

    /// The key presses that dial the selected record: `None` where no row is
    /// selected or it has no phone number, else the keys or the character
    /// that stops them.
    pub fn call_customer(&self) -> (r: Option<Result<Vec<PhoneKey>, char>>)
        requires
            self.wf(),
        ensures
            dial_result_view(r) == dial_outcome(self@.list),
    {
        self.scroll_buffer.keys_to_dial()
    }
}

} // verus!
