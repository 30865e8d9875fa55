//! The redraw controller: which cursor movements and erasures make a widget
//! that is drawn again and again look as if it changed in place.

use vstd::prelude::*;

verus! {

/// The columns a line-local redraw moves back, enough for any entry line.
pub const LINE_START_REACH: u16 = 100;

/// One instruction to the terminal.
#[derive(Clone, Copy, Debug, PartialEq, Eq, Structural)]
pub enum Directive {
    MoveUp(u16),
    MoveLeft(u16),
    /// Erase from the cursor to the end of the screen.
    ClearBelow,
    /// Erase the line the cursor is on.
    ClearLine,
    SavePosition,
    ShowCursor,
    HideCursor,
}

/// Remembers how many lines the last drawing took; nothing before the first.
#[derive(Clone, Copy, Debug, PartialEq, Eq, Structural)]
pub struct RedrawController {
    pub drawn: Option<u16>,
}

/// A count of lines as far as one cursor movement can express it.
pub open spec fn line_count(n: nat) -> u16 {
    if n > u16::MAX {
        u16::MAX
    } else {
        n as u16
    }
}

/// The instructions that take back a drawing of `lines` lines.
pub open spec fn erasure(lines: u16) -> Seq<Directive> {
    seq![Directive::MoveUp(lines), Directive::ClearBelow]
}

/// The instructions before a drawing: none before the first, else the
/// erasure of the last.
pub open spec fn before_drawing(drawn: Option<u16>) -> Seq<Directive> {
    match drawn {
        Some(lines) => erasure(lines),
        None => Seq::<Directive>::empty(),
    }
}

/// The lines to take back when a widget collapses: what was drawn and the
/// lines of the question above it.
pub open spec fn collapse_height(drawn: Option<u16>, header: u16) -> u16 {
    match drawn {
        Some(lines) => line_count((lines + header) as nat),
        None => header,
    }
}

/// The instructions that redraw a one-line entry.
pub open spec fn line_redraw() -> Seq<Directive> {
    seq![Directive::SavePosition, Directive::ClearLine, Directive::MoveLeft(LINE_START_REACH)]
}

/// The instructions that take a one-line entry and its question off the screen.
pub open spec fn line_collapse() -> Seq<Directive> {
    seq![
        Directive::HideCursor,
        Directive::MoveLeft(LINE_START_REACH),
        Directive::MoveUp(1),
        Directive::ClearBelow,
    ]
}

/// The lines a list of `len` options takes: one each.
pub fn list_lines(len: usize) -> (n: u16)
    ensures
        n == line_count(len as nat),
{
    if len > 65535 {
        u16::MAX
    } else {
        len as u16
    }
}

impl RedrawController {
    /// A controller that has drawn nothing yet.
    pub fn new() -> (c: RedrawController)
        ensures
            c.drawn is None,
    {
        RedrawController { drawn: None }
    }

    /// To be called before every drawing of `lines` lines: gives the
    /// instructions that erase the drawing before, and remembers this one.
    pub fn begin(&mut self, lines: u16) -> (directives: Vec<Directive>)
        ensures
            directives@ == before_drawing(old(self).drawn),
            final(self).drawn == Some(lines),
    {
        let mut directives: Vec<Directive> = Vec::new();
        match self.drawn {
            Some(last) => {
                directives.push(Directive::MoveUp(last));
                directives.push(Directive::ClearBelow);
            },
            None => {},
        }
        self.drawn = Some(lines);
        assert(directives@ =~= before_drawing(old(self).drawn));
        directives
    }

    /// To be called when the prompt has resolved: gives the instructions that
    /// erase the widget and the `header` lines of its question, so that one
    /// summary line can take their place. The controller forgets the drawing.
    pub fn collapse(&mut self, header: u16) -> (directives: Vec<Directive>)
        ensures
            directives@ == erasure(collapse_height(old(self).drawn, header)),
            final(self).drawn is None,
    {
        let up: u16 = match self.drawn {
            Some(last) => {
                if last > u16::MAX - header {
                    u16::MAX
                } else {
                    last + header
                }
            },
            None => header,
        };
        self.drawn = None;
        let mut directives: Vec<Directive> = Vec::new();
        directives.push(Directive::MoveUp(up));
        directives.push(Directive::ClearBelow);
        assert(directives@ =~= erasure(up));
        directives
    }

    /// To be called before every drawing of a one-line entry: nothing before
    /// the first, else the instructions that clear the line and go back to
    /// its start. The controller remembers one line.
    pub fn begin_line(&mut self) -> (directives: Vec<Directive>)
        ensures
            directives@ == if old(self).drawn is None {
                Seq::<Directive>::empty()
            } else {
                line_redraw()
            },
            final(self).drawn == Some(1u16),
    {
        let first = self.drawn.is_none();
        self.drawn = Some(1);
        if first {
            Vec::new()
        } else {
            entry_redraw()
        }
    }

    /// To be called when a one-line entry has resolved: gives the
    /// instructions that take the entry and its question off the screen.
    /// The controller forgets the drawing.
    pub fn collapse_line(&mut self) -> (directives: Vec<Directive>)
        ensures
            directives@ == line_collapse(),
            final(self).drawn is None,
    {
        self.drawn = None;
        entry_collapse()
    }
}

/// The instructions after each edit of a one-line entry.
pub fn entry_redraw() -> (directives: Vec<Directive>)
    ensures
        directives@ == line_redraw(),
{
    let mut directives: Vec<Directive> = Vec::new();
    directives.push(Directive::SavePosition);
    directives.push(Directive::ClearLine);
    directives.push(Directive::MoveLeft(LINE_START_REACH));
    assert(directives@ =~= line_redraw());
    directives
}

/// The instructions once a one-line entry has resolved.
pub fn entry_collapse() -> (directives: Vec<Directive>)
    ensures
        directives@ == line_collapse(),
{
    let mut directives: Vec<Directive> = Vec::new();
    directives.push(Directive::HideCursor);
    directives.push(Directive::MoveLeft(LINE_START_REACH));
    directives.push(Directive::MoveUp(1));
    directives.push(Directive::ClearBelow);
    assert(directives@ =~= line_collapse());
    directives
}

/// A second drawing moves up by exactly the lines of the first.
pub proof fn lemma_erases_what_was_drawn(lines: u16)
    ensures
        before_drawing(Some(lines)) == erasure(lines),
        before_drawing(Some(lines))[0] == Directive::MoveUp(lines),
        before_drawing(None).len() == 0,
{
}

} // verus!
