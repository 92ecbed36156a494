//! The status line at the bottom of the screen: a message and the number of
//! matching rows.
use crate::colors::ColorScheme;
use vstd::prelude::*;

verus! {

/// What a status line holds, as mathematical values.
pub struct StatusState {
    pub message: Seq<char>,
    pub row: nat,
    pub cols: nat,
    pub results: nat,
}

pub struct StatusLine {
    message: String,
    row: usize,
    cols: usize,
    results: usize,
    color_scheme: ColorScheme,
}

impl View for StatusLine {
    type V = StatusState;

    closed spec fn view(&self) -> StatusState {
        StatusState {
            message: self.message@,
            row: self.row as nat,
            cols: self.cols as nat,
            results: self.results as nat,
        }
    }
}

impl StatusLine {
    /// The palette the line is drawn with.
    pub closed spec fn colors(&self) -> ColorScheme {
        self.color_scheme
    }

    /// An empty status line on the last of `lines` lines, `cols` wide.
    pub fn new(color_scheme: ColorScheme, cols: u16, lines: u16) -> (r: StatusLine)
        requires
            lines >= 1,
        ensures
            r@ == (StatusState { message: Seq::empty(), row: (lines - 1) as nat, cols: cols as nat, results: 0 }),
            r.colors() == color_scheme,
    {
        StatusLine {
            message: String::new(),
            cols: cols as usize,
            row: (lines - 1) as usize,
            results: 0,
            color_scheme,
        }
    }

    pub fn set_results_count(&mut self, count: usize)
        ensures
            final(self)@ == (StatusState { results: count as nat, ..old(self)@ }),
            final(self).colors() == old(self).colors(),
    {
        self.results = count;
    }

    pub fn set_message(&mut self, message: String)
        ensures
            final(self)@ == (StatusState { message: message@, ..old(self)@ }),
            final(self).colors() == old(self).colors(),
    {
        self.message = message;
    }

    pub fn get_message(&self) -> (r: String)
        ensures
            r@ == self@.message,
    {
        self.message.clone()
    }

    pub fn get_results_count(&self) -> (r: usize)
        ensures
            r == self@.results,
    {
        self.results
    }

    /// The screen row the line is drawn on.
    pub fn get_row(&self) -> (r: usize)
        ensures
            r == self@.row,
    {
        self.row
    }

    pub fn get_cols(&self) -> (r: usize)
        ensures
            r == self@.cols,
    {
        self.cols
    }

    /// The palette the line is drawn with.
    pub fn color_scheme(&self) -> (r: ColorScheme)
        ensures
            r == self.colors(),
    {
        self.color_scheme
    }
}

} // verus!
