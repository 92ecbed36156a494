//! A single-line text editor: a buffer, a caret counted in characters, a
//! prompt and an insert/overtype switch.
use crate::colors::ColorScheme;
use vstd::prelude::*;

verus! {

/// What a line buffer holds, as mathematical values.
pub struct LineState {
    pub text: Seq<char>,
    pub caret: nat,
    pub prompt: Seq<char>,
    pub insert: bool,
}

impl LineState {
    /// The caret stands on a character of the text or just past its end.
    pub open spec fn wf(self) -> bool {
        self.caret <= self.text.len()
    }

    /// The text replaced by `t`, with the caret at its end.
    pub open spec fn with_text(self, t: Seq<char>) -> LineState {
        LineState { text: t, caret: t.len(), ..self }
    }

    /// The prompt replaced by `p`.
    pub open spec fn with_prompt(self, p: Seq<char>) -> LineState {
        LineState { prompt: p, ..self }
    }

    /// The text emptied, with the caret at the start.
    pub open spec fn cleared(self) -> LineState {
        LineState { text: Seq::empty(), caret: 0, ..self }
    }

    /// `t` typed at the caret. In insert mode it is spliced in; in overtype
    /// mode it replaces as many characters as it has, running on past the end
    /// where needed. Either way the caret moves past it.
    pub open spec fn typed(self, t: Seq<char>) -> LineState {
        let c = self.caret as int;
        let n = self.text.len() as int;
        let rest = if self.insert {
            self.text.subrange(c, n)
        } else if c + t.len() < n {
            self.text.subrange(c + t.len(), n)
        } else {
            Seq::empty()
        };
        LineState { text: self.text.subrange(0, c) + t + rest, caret: self.caret + t.len(), ..self }
    }

    /// Insert and overtype mode swapped.
    pub open spec fn toggled(self) -> LineState {
        LineState { insert: !self.insert, ..self }
    }

    /// The caret one character to the left, unless it is at the start.
    pub open spec fn moved_left(self) -> LineState {
        if self.caret > 0 {
            LineState { caret: (self.caret - 1) as nat, ..self }
        } else {
            self
        }
    }

    /// The caret one character to the right, unless it is at the end.
    pub open spec fn moved_right(self) -> LineState {
        if self.caret < self.text.len() {
            LineState { caret: self.caret + 1, ..self }
        } else {
            self
        }
    }

    pub open spec fn moved_to_start(self) -> LineState {
        LineState { caret: 0, ..self }
    }

    pub open spec fn moved_to_end(self) -> LineState {
        LineState { caret: self.text.len(), ..self }
    }

    /// The character under the caret removed, if there is one; the caret stays.
    pub open spec fn deleted(self) -> LineState {
        if self.caret < self.text.len() {
            LineState { text: self.text.remove(self.caret as int), ..self }
        } else {
            self
        }
    }

    /// The character before the caret removed, if there is one; the caret
    /// moves back onto its place.
    pub open spec fn backspaced(self) -> LineState {
        if self.caret > 0 {
            LineState {
                text: self.text.remove(self.caret - 1),
                caret: (self.caret - 1) as nat,
                ..self
            }
        } else {
            self
        }
    }
}

/// One editing step on a line, as the keyboard gives them.
pub enum LineEdit {
    MoveLeft,
    MoveRight,
    MoveToStart,
    MoveToEnd,
    Type(Seq<char>),
    Delete,
    Backspace,
    ToggleInsert,
}

impl LineState {
    /// The line after one editing step.
    pub open spec fn apply(self, e: LineEdit) -> LineState {
        match e {
            LineEdit::MoveLeft => self.moved_left(),
            LineEdit::MoveRight => self.moved_right(),
            LineEdit::MoveToStart => self.moved_to_start(),
            LineEdit::MoveToEnd => self.moved_to_end(),
            LineEdit::Type(t) => self.typed(t),
            LineEdit::Delete => self.deleted(),
            LineEdit::Backspace => self.backspaced(),
            LineEdit::ToggleInsert => self.toggled(),
        }
    }

    /// The line after the editing steps `es`, first to last.
    pub open spec fn apply_all(self, es: Seq<LineEdit>) -> LineState
        decreases es.len(),
    {
        if es.len() == 0 {
            self
        } else {
            self.apply(es[0]).apply_all(es.drop_first())
        }
    }
}

/// `n` forward deletions.
pub open spec fn deletions(n: nat) -> Seq<LineEdit> {
    Seq::new(n, |i: int| LineEdit::Delete)
}

proof fn lemma_apply_keeps_wf(s: LineState, e: LineEdit)
    requires
        s.wf(),
    ensures
        s.apply(e).wf(),
{
    if let LineEdit::Type(t) = e {
        let c = s.caret as int;
        let n = s.text.len() as int;
        let rest = if s.insert {
            s.text.subrange(c, n)
        } else if c + t.len() < n {
            s.text.subrange(c + t.len(), n)
        } else {
            Seq::empty()
        };
        assert((s.text.subrange(0, c) + t + rest).len() == c + t.len() + rest.len());
    }
}

/// Editing never takes the caret out of the text: from a line whose caret
/// is within `[0, len]`, any sequence of caret moves, typing, deletions,
/// backspaces and mode switches leaves it within `[0, len]`.
pub proof fn lemma_caret_stays_in_bounds(s: LineState, es: Seq<LineEdit>)
    requires
        s.wf(),
    ensures
        s.apply_all(es).wf(),
    decreases es.len(),
{
    if es.len() > 0 {
        lemma_apply_keeps_wf(s, es[0]);
        lemma_caret_stays_in_bounds(s.apply(es[0]), es.drop_first());
    }
}

proof fn lemma_apply_all_append(s: LineState, a: Seq<LineEdit>, b: Seq<LineEdit>)
    ensures
        s.apply_all(a + b) == s.apply_all(a).apply_all(b),
    decreases a.len(),
{
    if a.len() > 0 {
        assert((a + b).drop_first() =~= a.drop_first() + b);
        lemma_apply_all_append(s.apply(a[0]), a.drop_first(), b);
    } else {
        assert(a + b =~= b);
    }
}

proof fn lemma_deletions_from_start(s: LineState, n: nat)
    requires
        s.caret == 0,
        n <= s.text.len(),
    ensures
        s.apply_all(deletions(n)).text == s.text.subrange(n as int, s.text.len() as int),
        s.apply_all(deletions(n)).caret == 0,
    decreases n,
{
    if n == 0 {
        assert(s.text.subrange(0, s.text.len() as int) =~= s.text);
    } else {
        let d = s.deleted();
        assert(deletions(n).drop_first() =~= deletions((n - 1) as nat));
        lemma_deletions_from_start(d, (n - 1) as nat);
        assert(d.text.subrange(n - 1, d.text.len() as int) =~= s.text.subrange(
            n as int,
            s.text.len() as int,
        ));
    }
}

/// Typing `t` into an empty line in insert mode, going back to the start and
/// deleting as many characters as `t` has leaves the line empty, with the
/// caret at the start.
pub proof fn lemma_type_then_delete_all(s: LineState, t: Seq<char>)
    requires
        s.text.len() == 0,
        s.caret == 0,
        s.insert,
    ensures
        s.apply_all(seq![LineEdit::Type(t), LineEdit::MoveToStart] + deletions(t.len())).text
            == Seq::<char>::empty(),
        s.apply_all(seq![LineEdit::Type(t), LineEdit::MoveToStart] + deletions(t.len())).caret
            == 0,
{
    let head = seq![LineEdit::Type(t), LineEdit::MoveToStart];
    lemma_apply_all_append(s, head, deletions(t.len()));
    let typed = s.typed(t);
    assert(typed.text =~= t);
    let at_start = typed.moved_to_start();
    let rest = head.drop_first();
    assert(head[0] == LineEdit::Type(t));
    assert(rest[0] == LineEdit::MoveToStart);
    assert(rest.drop_first() =~= Seq::<LineEdit>::empty());
    assert(at_start.apply_all(rest.drop_first()) == at_start);
    assert(typed.apply_all(rest) == at_start);
    assert(s.apply_all(head) == at_start);
    lemma_deletions_from_start(at_start, t.len());
    assert(t.subrange(t.len() as int, t.len() as int) =~= Seq::<char>::empty());
}

/// The editable line at the top of the screen.
#[derive(Debug)]
pub struct LineBuffer {
    buffer: String,
    caret_pos: usize,
    prompt: String,
    insert: bool,
    color_scheme: ColorScheme,
}

impl View for LineBuffer {
    type V = LineState;

    closed spec fn view(&self) -> LineState {
        LineState {
            text: self.buffer@,
            caret: self.caret_pos as nat,
            prompt: self.prompt@,
            insert: self.insert,
        }
    }
}

impl LineBuffer {
    pub open spec fn wf(&self) -> bool {
        self@.wf()
    }

    /// An empty line in insert mode with the given prompt.
    pub fn new(prompt: String, color_scheme: ColorScheme) -> (r: LineBuffer)
        ensures
            r.wf(),
            r@ == (LineState { text: Seq::empty(), caret: 0, prompt: prompt@, insert: true }),
            r.colors() == color_scheme,
    {
        LineBuffer { buffer: String::new(), caret_pos: 0, prompt, insert: true, color_scheme }
    }

    /// The palette the line is drawn with.
    pub closed spec fn colors(&self) -> ColorScheme {
        self.color_scheme
    }

    /// The palette the line is drawn with.
    pub fn color_scheme(&self) -> (r: ColorScheme)
        ensures
            r == self.colors(),
    {
        self.color_scheme
    }

    /// The text of the line.
    pub fn get_string(&self) -> (r: String)
        ensures
            r@ == self@.text,
    {
        self.buffer.clone()
    }

    /// The length of the text, in characters.
    pub fn len(&self) -> (r: usize)
        ensures
            r == self@.text.len(),
    {
        self.buffer.unicode_len()
    }

    /// The prompt shown before the text.
    pub fn get_prompt(&self) -> (r: String)
        ensures
            r@ == self@.prompt,
    {
        self.prompt.clone()
    }

    /// The caret, in characters from the start of the text.
    pub fn get_caret(&self) -> (r: usize)
        ensures
            r == self@.caret,
    {
        self.caret_pos
    }

    /// Whether typing inserts (rather than overwrites).
    pub fn is_insert(&self) -> (r: bool)
        ensures
            r == self@.insert,
    {
        self.insert
    }

    /// Replaces the text and puts the caret at its end.
    pub fn set_buffer(&mut self, buffer: String)
        ensures
            final(self)@ == old(self)@.with_text(buffer@),
            final(self).colors() == old(self).colors(),
            final(self).wf(),
    {
        self.caret_pos = buffer.unicode_len();
        self.buffer = buffer;
    }

    pub fn set_prompt(&mut self, prompt: String)
        requires
            old(self).wf(),
        ensures
            final(self)@ == old(self)@.with_prompt(prompt@),
            final(self).colors() == old(self).colors(),
            final(self).wf(),
    {
        self.prompt = prompt;
    }

    /// Empties the text.
    pub fn clear(&mut self)
        ensures
            final(self)@ == old(self)@.cleared(),
            final(self).colors() == old(self).colors(),
            final(self).wf(),
    {
        self.buffer = String::new();
        self.caret_pos = 0;
    }

    /// Types `text` at the caret, spliced in or written over the text as the
    /// insert switch says.
    pub fn add(&mut self, text: &str)
        requires
            old(self).wf(),
            old(self)@.text.len() + text@.len() <= usize::MAX,
        ensures
            final(self)@ == old(self)@.typed(text@),
            final(self).colors() == old(self).colors(),
            final(self).wf(),
    {
        let len = self.buffer.unicode_len();
        let tl = text.unicode_len();
        let caret = self.caret_pos;
        let mut r = String::from_str(self.buffer.as_str().substring_char(0, caret));
        r.append(text);
        if self.insert {
            r.append(self.buffer.as_str().substring_char(caret, len));
        } else if tl < len - caret {
            r.append(self.buffer.as_str().substring_char(caret + tl, len));
        }
        self.buffer = r;
        self.caret_pos = caret + tl;
    }

    pub fn toggle_insert(&mut self)
        ensures
            final(self)@ == old(self)@.toggled(),
            final(self).colors() == old(self).colors(),
            old(self).wf() ==> final(self).wf(),
    {
        self.insert = !self.insert;
    }

    pub fn move_left(&mut self)
        ensures
            final(self)@ == old(self)@.moved_left(),
            final(self).colors() == old(self).colors(),
            old(self).wf() ==> final(self).wf(),
    {
        if self.caret_pos > 0 {
            self.caret_pos = self.caret_pos - 1;
        }
    }

    pub fn move_right(&mut self)
        ensures
            final(self)@ == old(self)@.moved_right(),
            final(self).colors() == old(self).colors(),
            old(self).wf() ==> final(self).wf(),
    {
        if self.caret_pos < self.buffer.unicode_len() {
            self.caret_pos = self.caret_pos + 1;
        }
    }

    pub fn move_to_start(&mut self)
        ensures
            final(self)@ == old(self)@.moved_to_start(),
            final(self).colors() == old(self).colors(),
            final(self).wf(),
    {
        self.caret_pos = 0;
    }

    pub fn move_to_end(&mut self)
        ensures
            final(self)@ == old(self)@.moved_to_end(),
            final(self).colors() == old(self).colors(),
            final(self).wf(),
    {
        self.caret_pos = self.buffer.unicode_len();
    }

    /// Removes the character under the caret, if there is one.
    pub fn delete(&mut self)
        requires
            old(self).wf(),
        ensures
            final(self)@ == old(self)@.deleted(),
            final(self).colors() == old(self).colors(),
            final(self).wf(),
    {
        let len = self.buffer.unicode_len();
        let caret = self.caret_pos;
        if caret < len {
            let mut r = String::from_str(self.buffer.as_str().substring_char(0, caret));
            r.append(self.buffer.as_str().substring_char(caret + 1, len));
            assert(r@ =~= self.buffer@.remove(caret as int));
            self.buffer = r;
        }
    }

    /// Removes the character before the caret, if there is one, and moves the
    /// caret back by one.
    pub fn backspace(&mut self)
        requires
            old(self).wf(),
        ensures
            final(self)@ == old(self)@.backspaced(),
            final(self).colors() == old(self).colors(),
            final(self).wf(),
    {
        let len = self.buffer.unicode_len();
        let caret = self.caret_pos;
        if caret > 0 {
            let mut r = String::from_str(self.buffer.as_str().substring_char(0, caret - 1));
            r.append(self.buffer.as_str().substring_char(caret, len));
            assert(r@ =~= self.buffer@.remove(caret - 1));
            self.buffer = r;
            self.caret_pos = caret - 1;
        }
    }
}

} // verus!
