//! The scrollable list: the collection, the active filter and its filtered
//! index, the selection and the screen geometry.
use crate::colors::ColorScheme;
use crate::customer::{Customer, CustomerView};
use crate::filter::{customers_view, filter_indices, filter_spec, strictly_increasing_below};
use crate::phone::{phone_keys, phone_keys_of, PhoneKey, PhoneLine};
use crate::text::lower_of;
use crate::viewport::{lemma_window_contains, thumb_row, thumb_row_spec, window, window_spec};
use vstd::prelude::*;

verus! {

/// Where the phone is and how to use it.
#[derive(Debug)]
pub struct Config {
    pub phone_ip: String,
    pub password: String,
    pub line: PhoneLine,
}

/// What a scroll buffer holds, as mathematical values.
pub struct ScrollState {
    pub customers: Seq<CustomerView>,
    pub filter: Seq<char>,
    pub filtered: Seq<usize>,
    pub scroll_pos: nat,
    pub rows: nat,
    pub cols: nat,
}

impl ScrollState {
    /// The filtered index lists positions of the collection in increasing
    /// order, the selection lies within it (or at 0 where it is empty) and
    /// the screen has a row.
    pub open spec fn wf(self) -> bool {
        &&& strictly_increasing_below(self.filtered, self.customers.len())
        &&& (self.scroll_pos < self.filtered.len() || self.scroll_pos == 0)
        &&& self.rows >= 1
    }

    /// The filtered index is the one the current filter gives.
    pub open spec fn is_current(self) -> bool {
        self.filtered == filter_spec(self.customers, lower_of(self.filter))
    }

    /// The state after the filtered index is rebuilt for `filter`: the
    /// selection goes back to the top.
    pub open spec fn refiltered(self, filter: Seq<char>) -> ScrollState {
        ScrollState {
            filter,
            filtered: filter_spec(self.customers, lower_of(filter)),
            scroll_pos: 0,
            ..self
        }
    }

    /// Whether a row is selected.
    pub open spec fn has_selection(self) -> bool {
        self.filtered.len() > 0
    }

    /// The position in the collection of the selected record.
    pub open spec fn selected_index(self) -> int {
        self.filtered[self.scroll_pos as int] as int
    }

    /// The selected record, if a row is selected.
    pub open spec fn selected(self) -> Option<CustomerView> {
        if self.has_selection() {
            Some(self.customers[self.selected_index()])
        } else {
            None
        }
    }

    /// The selected record taken out of the collection, if a row is selected.
    pub open spec fn selected_removed(self) -> ScrollState {
        ScrollState {
            customers: if self.has_selection() {
                self.customers.remove(self.selected_index())
            } else {
                self.customers
            },
            ..self
        }
    }

    /// `c` appended to the collection.
    pub open spec fn with_added(self, c: CustomerView) -> ScrollState {
        ScrollState { customers: self.customers.push(c), ..self }
    }

    /// `c` in place of the selected record, or appended where no row is
    /// selected.
    pub open spec fn with_updated(self, c: CustomerView) -> ScrollState {
        if self.has_selection() {
            ScrollState { customers: self.customers.update(self.selected_index(), c), ..self }
        } else {
            self.with_added(c)
        }
    }

    /// The selection one row up, unless it is at the top.
    pub open spec fn moved_up(self) -> ScrollState {
        if self.scroll_pos > 0 {
            ScrollState { scroll_pos: (self.scroll_pos - 1) as nat, ..self }
        } else {
            self
        }
    }

    /// The selection one row down, unless it is on the last row.
    pub open spec fn moved_down(self) -> ScrollState {
        if self.scroll_pos + 1 < self.filtered.len() {
            ScrollState { scroll_pos: self.scroll_pos + 1, ..self }
        } else {
            self
        }
    }
}

/// What dialling the selected record takes: nothing where no row is
/// selected or the record has no phone number, else the key presses for its
/// number or the character that stops them.
pub open spec fn dial_outcome(list: ScrollState) -> Option<Result<Seq<PhoneKey>, char>> {
    match list.selected() {
        Some(c) => match c.phone {
            Some(number) => Some(phone_keys_of(number)),
            None => None,
        },
        None => None,
    }
}

/// The key presses of a dialling outcome, as a sequence.
pub open spec fn dial_result_view(r: Option<Result<Vec<PhoneKey>, char>>) -> Option<
    Result<Seq<PhoneKey>, char>,
> {
    match r {
        Some(Ok(keys)) => Some(Ok(keys@)),
        Some(Err(c)) => Some(Err(c)),
        None => None,
    }
}

/// The list of records below the line editor.
pub struct ScrollBuffer {
    buffer: Vec<Customer>,
    config: Config,
    filter: String,
    filtered: Vec<usize>,
    scroll_pos: usize,
    rows: usize,
    cols: usize,
    color_scheme: ColorScheme,
}

impl View for ScrollBuffer {
    type V = ScrollState;

    closed spec fn view(&self) -> ScrollState {
        ScrollState {
            customers: customers_view(self.buffer@),
            filter: self.filter@,
            filtered: self.filtered@,
            scroll_pos: self.scroll_pos as nat,
            rows: self.rows as nat,
            cols: self.cols as nat,
        }
    }
}

impl ScrollBuffer {
    pub open spec fn wf(&self) -> bool {
        self@.wf()
    }

    /// The phone settings.
    pub closed spec fn config_spec(&self) -> Config {
        self.config
    }

    /// The palette the list is drawn with.
    pub closed spec fn colors(&self) -> ColorScheme {
        self.color_scheme
    }

    /// An empty list on a terminal of `cols` columns and `lines` lines, of
    /// which the list has all but the editor's line and the status line.
    pub fn new(color_scheme: ColorScheme, cols: u16, lines: u16) -> (r: ScrollBuffer)
        requires
            lines >= 3,
        ensures
            r.wf(),
            r@.customers.len() == 0,
            r@.filter.len() == 0,
            r@.filtered.len() == 0,
            r@.scroll_pos == 0,
            r@.rows == lines - 2,
            r@.cols == cols,
            r.colors() == color_scheme,
            r.config_spec().phone_ip@.len() == 0,
            r.config_spec().password@.len() == 0,
            r.config_spec().line == PhoneLine::Line1,
    {
        ScrollBuffer {
            buffer: Vec::new(),
            config: Config {
                phone_ip: String::new(),
                password: String::new(),
                line: PhoneLine::Line1,
            },
            filtered: Vec::new(),
            filter: String::new(),
            scroll_pos: 0,
            cols: cols as usize,
            rows: (lines - 2) as usize,
            color_scheme,
        }
    }

    /// Sets the filter and rebuilds the filtered index from the whole
    /// collection; the selection goes back to the top.
    pub fn set_filter(&mut self, filter: String)
        requires
            old(self)@.rows >= 1,
        ensures
            final(self)@ == old(self)@.refiltered(filter@),
            final(self).wf(),
            final(self)@.is_current(),
            filter@.len() == 0 ==> final(self)@.filtered == Seq::new(
                old(self)@.customers.len(),
                |i: int| i as usize,
            ),
            final(self).colors() == old(self).colors(),
            final(self).config_spec() == old(self).config_spec(),
    {
        self.filtered = filter_indices(&self.buffer, filter.as_str());
        self.filter = filter;
        self.scroll_pos = 0;
    }

    /// Removes the selected record, if a row is selected, and rebuilds the
    /// filtered index under the same filter.
    pub fn delete_customer(&mut self)
        requires
            old(self).wf(),
        ensures
            final(self)@ == old(self)@.selected_removed().refiltered(old(self)@.filter),
            final(self).wf(),
            final(self)@.is_current(),
            final(self).colors() == old(self).colors(),
            final(self).config_spec() == old(self).config_spec(),
    {
        let ghost before = customers_view(self.buffer@);
        if self.filtered.len() > 0 {
            let index = self.filtered[self.scroll_pos];
            self.buffer.remove(index);
            assert(customers_view(self.buffer@) =~= before.remove(index as int));
        }
        let filter = self.filter.clone();
        self.set_filter(filter);
    }

    /// Appends a record to the collection; the filtered index is left as it
    /// is until the next filter.
    pub fn add_customer(&mut self, customer: Customer)
        requires
            old(self).wf(),
        ensures
            final(self)@ == old(self)@.with_added(customer@),
            final(self).wf(),
            final(self).colors() == old(self).colors(),
            final(self).config_spec() == old(self).config_spec(),
    {
        let ghost before = customers_view(self.buffer@);
        self.buffer.push(customer);
        assert(customers_view(self.buffer@) =~= before.push(customer@));
    }

    /// Replaces the selected record, or appends the record where no row is
    /// selected.
    pub fn update_customer(&mut self, customer: Customer)
        requires
            old(self).wf(),
        ensures
            final(self)@ == old(self)@.with_updated(customer@),
            final(self).wf(),
            final(self).colors() == old(self).colors(),
            final(self).config_spec() == old(self).config_spec(),
    {
        let ghost before = customers_view(self.buffer@);
        let ghost item = customer@;
        if self.filtered.len() > 0 {
            let index = self.filtered[self.scroll_pos];
            self.buffer.set(index, customer);
            assert(customers_view(self.buffer@) =~= before.update(index as int, item));
        } else {
            self.buffer.push(customer);
            assert(customers_view(self.buffer@) =~= before.push(item));
        }
    }

    /// Replaces the collection and rebuilds the filtered index under the
    /// current filter.
    pub fn set_customers(&mut self, customers: Vec<Customer>)
        requires
            old(self).wf(),
        ensures
            final(self)@ == (ScrollState { customers: customers_view(customers@), ..old(self)@ }).refiltered(
                old(self)@.filter,
            ),
            final(self).wf(),
            final(self)@.is_current(),
            final(self).colors() == old(self).colors(),
            final(self).config_spec() == old(self).config_spec(),
    {
        self.buffer = customers;
        self.filtered = Vec::new();
        self.scroll_pos = 0;
        let filter = self.filter.clone();
        self.set_filter(filter);
    }

    /// Replaces the collection with 999 random records, each with a contact
    /// and a phone number.
    pub fn load_sample_data(&mut self)
        requires
            old(self).wf(),
        ensures
            final(self)@.customers.len() == 999,
            forall|i: int|
                0 <= i < 999 ==> (#[trigger] final(self)@.customers[i]).contact_name is Some
                    && final(self)@.customers[i].phone is Some,
            final(self)@ == (ScrollState { customers: final(self)@.customers, ..old(self)@ }).refiltered(
                old(self)@.filter,
            ),
            final(self).wf(),
            final(self)@.is_current(),
            final(self).colors() == old(self).colors(),
            final(self).config_spec() == old(self).config_spec(),
    {
        let customers = Customer::generate(1000);
        self.set_customers(customers);
    }

    pub fn set_config(&mut self, config: Config)
        ensures
            final(self)@ == old(self)@,
            final(self).config_spec() == config,
            final(self).colors() == old(self).colors(),
    {
        self.config = config;
    }

    pub fn get_config(&self) -> (r: &Config)
        ensures
            *r == self.config_spec(),
    {
        &self.config
    }

    /// The collection, in its order.
    pub fn customers(&self) -> (r: &Vec<Customer>)
        ensures
            customers_view(r@) == self@.customers,
    {
        &self.buffer
    }

    /// The palette the list is drawn with.
    pub fn color_scheme(&self) -> (r: ColorScheme)
        ensures
            r == self.colors(),
    {
        self.color_scheme
    }

    /// The number of rows that match the filter.
    pub fn get_results_count(&self) -> (r: usize)
        ensures
            r == self@.filtered.len(),
    {
        self.filtered.len()
    }

    /// The selection, as an offset into the filtered rows.
    pub fn get_scroll_pos(&self) -> (r: usize)
        ensures
            r == self@.scroll_pos,
    {
        self.scroll_pos
    }

    /// The number of rows the list has on screen.
    pub fn get_rows(&self) -> (r: usize)
        ensures
            r == self@.rows,
    {
        self.rows
    }

    /// The width of the screen.
    pub fn get_cols(&self) -> (r: usize)
        ensures
            r == self@.cols,
    {
        self.cols
    }

    /// The slice `[start, end)` of the filtered rows that is on screen.
    pub fn visible_window(&self) -> (r: (usize, usize))
        requires
            self.wf(),
        ensures
            (r.0 as int, r.1 as int) == window_spec(
                self@.scroll_pos as int,
                self@.filtered.len() as int,
                self@.rows as int,
            ),
            r.0 <= r.1 <= self@.filtered.len(),
    {
        proof {
            lemma_window_contains(
                self@.scroll_pos as int,
                self@.filtered.len() as int,
                self@.rows as int,
            );
        }
        window(self.scroll_pos, self.filtered.len(), self.rows)
    }

    /// The text of the filtered row `i`.
    pub fn row_text(&self, i: usize) -> (r: String)
        requires
            self.wf(),
            i < self@.filtered.len(),
        ensures
            r@ == self@.customers[self@.filtered[i as int] as int].display_text(),
    {
        self.buffer[self.filtered[i]].to_string()
    }

    /// The row of the scrollbar thumb, counted from 1.
    pub fn calculate_scrollbar_handle_position(&self) -> (r: usize)
        requires
            self.wf(),
        ensures
            r == thumb_row_spec(
                self@.scroll_pos as int,
                self@.filtered.len() as int,
                self@.rows as int,
            ),
            1 <= r <= self@.rows,
    {
        thumb_row(self.scroll_pos, self.filtered.len(), self.rows)
    }

    /// The row of the scrollbar thumb, or `None` where every row fits on the
    /// screen and no scrollbar is drawn.
    pub fn scroll_bar(&self) -> (r: Option<usize>)
        requires
            self.wf(),
        ensures
            self@.filtered.len() <= self@.rows ==> r is None,
            self@.filtered.len() > self@.rows ==> r == Some(
                thumb_row_spec(
                    self@.scroll_pos as int,
                    self@.filtered.len() as int,
                    self@.rows as int,
                ) as usize,
            ),
    {
        if self.filtered.len() > self.rows {
            Some(self.calculate_scrollbar_handle_position())
        } else {
            None
        }
    }

    /// Moves the selection up one row, unless it is at the top.
    pub fn move_up(&mut self)
        requires
            old(self).wf(),
        ensures
            final(self)@ == old(self)@.moved_up(),
            final(self).wf(),
            final(self).colors() == old(self).colors(),
            final(self).config_spec() == old(self).config_spec(),
    {
        if self.scroll_pos > 0 {
            self.scroll_pos = self.scroll_pos - 1;
        }
    }

    /// Moves the selection down one row, unless it is on the last row.
    pub fn move_down(&mut self)
        requires
            old(self).wf(),
        ensures
            final(self)@ == old(self)@.moved_down(),
            final(self).wf(),
            final(self).colors() == old(self).colors(),
            final(self).config_spec() == old(self).config_spec(),
    {
        if self.filtered.len() > 0 && self.scroll_pos < self.filtered.len() - 1 {
            self.scroll_pos = self.scroll_pos + 1;
        }
    }

    /// The selected record, if a row is selected.
    pub fn get_selected_customer(&self) -> (r: Option<&Customer>)
        requires
            self.wf(),
        ensures
            match (r, self@.selected()) {
                (Some(c), Some(expected)) => c@ == expected,
                (None, None) => true,
                _ => false,
            },
    {
        if self.filtered.len() > 0 {
            let index = self.filtered[self.scroll_pos];
            return Some(&self.buffer[index]);
        }
        None
    }

    /// The key presses that dial `number`, or the first character that no
    /// key dials.
    pub fn get_phone_keys(&self, number: &str) -> (r: Result<Vec<PhoneKey>, char>)
        ensures
            match (r, phone_keys_of(number@)) {
                (Ok(keys), Ok(expected)) => keys@ == expected,
                (Err(c), Err(expected)) => c == expected,
                _ => false,
            },
    {
        phone_keys(number)
    }

    /// What dialling the selected record takes: `None` where no row is
    /// selected or the record has no phone number, else the key presses for
    /// its number (or the character that stops them).
    pub fn keys_to_dial(&self) -> (r: Option<Result<Vec<PhoneKey>, char>>)
        requires
            self.wf(),
        ensures
            dial_result_view(r) == dial_outcome(self@),
    {
        match self.get_selected_customer() {
            Some(customer) => match &customer.phone {
                Some(number) => Some(self.get_phone_keys(number.as_str())),
                None => None,
            },
            None => None,
        }
    }
}

} // verus!
