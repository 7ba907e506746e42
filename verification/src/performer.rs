//! The terminal state engine: it performs the actions that the parser
//! decodes, on the grid, the pending attributes and the visual cursor.
//!
//! The visual cursor is the pixel at which the cursor is drawn. It stands in
//! the row of the logical cursor. Along the row it moves by one character
//! width for each cell that the logical cursor moves; a carriage return
//! leaves it and a line feed sends it back to the left margin, so it need
//! not stand on the cell of the logical cursor, nor on the grid at all.
//!
//! Its horizontal position is a signed pixel count of 64 bits. A function
//! that moves it asks that the new position is such a count; the functions
//! that perform whatever the parser decoded test this before each action and
//! stop at the first that asks for more.

use crate::action::{Action, ActionView};
use crate::cell::{char_width, sgr_color, Color};
use crate::screen::{Screen, ScreenView};
use vstd::prelude::*;

verus! {

/// The attributes that the next printed character gets.
#[derive(Clone, Copy, Debug, PartialEq, Eq, Structural)]
pub struct PendingAttributes {
    pub color: Color,
}

/// The pixel at which the cursor is drawn. It may lie left or right of the
/// grid.
#[derive(Clone, Copy, Debug, PartialEq, Eq, Structural)]
pub struct CursorVisual {
    pub x: i64,
    pub y: i64,
}

/// The colour after one graphic-rendition parameter: the colour that the
/// parameter selects, or `color` if it selects none or has subparameters.
pub open spec fn select_color(color: Color, param: Seq<u16>) -> Color {
    if param.len() == 1 && sgr_color(param[0]) is Some {
        sgr_color(param[0])->0
    } else {
        color
    }
}

/// The colour after the graphic-rendition parameters `params` were applied
/// to `color` one after the other: the last that selects a colour decides.
pub open spec fn select_colors(color: Color, params: Seq<Seq<u16>>) -> Color
    decreases params.len(),
{
    if params.len() == 0 {
        color
    } else {
        select_color(select_colors(color, params.drop_last()), params.last())
    }
}

/// The number of cells that a cursor movement asks for: the value of the
/// first parameter, or 1 if there is none. The parser reports a parameter
/// that was left out as zero, so zero asks for 1 as well.
pub open spec fn cursor_count(params: Seq<Seq<u16>>) -> int {
    if params.len() > 0 && params[0].len() > 0 && params[0][0] != 0 {
        params[0][0] as int
    } else {
        1
    }
}

/// Whether `param` is the single value 2: the mode of an erase that takes
/// the whole display.
pub open spec fn is_erase_all(param: Seq<u16>) -> bool {
    param.len() == 1 && param[0] == 2
}

/// Whether one of the parameters of an erase asks for the whole display.
pub open spec fn erases_display(params: Seq<Seq<u16>>) -> bool {
    exists|i: int| 0 <= i < params.len() && is_erase_all(#[trigger] params[i])
}

/// What a [`Performer`] is, as a mathematical value.
pub struct PerformerView {
    /// The grid with the logical cursor.
    pub screen: ScreenView,
    /// The attributes of the next printed character.
    pub attributes: PendingAttributes,
    /// The horizontal pixel position of the visual cursor.
    pub cursor_x: int,
    /// The vertical pixel position of the visual cursor.
    pub cursor_y: int,
}

impl PerformerView {
    /// The horizontal position of the first column: the left margin.
    pub open spec fn left(self) -> int {
        self.screen.glyph_x(0)
    }

    /// The vertical position of the first row.
    pub open spec fn top(self) -> int {
        self.screen.glyph_y(0)
    }

    /// The grid is well formed and the visual cursor is drawn in the row of
    /// the logical cursor.
    pub open spec fn wf(self) -> bool {
        &&& self.screen.wf()
        &&& self.cursor_y == self.screen.glyph_y(self.screen.row_index)
    }

    /// The engine at its start: the visual cursor is drawn on the cell of
    /// the logical cursor.
    pub open spec fn initial(screen: ScreenView, color: Color) -> PerformerView {
        PerformerView {
            screen,
            attributes: PendingAttributes { color },
            cursor_x: screen.glyph_x(screen.column_index),
            cursor_y: screen.glyph_y(screen.row_index),
        }
    }

    /// The visual cursor `n` character widths further right.
    pub open spec fn cursor_right(self, n: int) -> PerformerView {
        PerformerView { cursor_x: self.cursor_x + n * self.screen.char_width, ..self }
    }

    /// The visual cursor `n` character widths further left.
    pub open spec fn cursor_left(self, n: int) -> PerformerView {
        PerformerView { cursor_x: self.cursor_x - n * self.screen.char_width, ..self }
    }

    /// Whether the position `n` character widths right of the visual cursor
    /// is a pixel count of 64 bits.
    pub open spec fn can_move_right(self, n: int) -> bool {
        self.cursor_x + n * self.screen.char_width <= i64::MAX
    }

    /// Whether the position `n` character widths left of the visual cursor
    /// is a pixel count of 64 bits.
    pub open spec fn can_move_left(self, n: int) -> bool {
        i64::MIN <= self.cursor_x - n * self.screen.char_width
    }

    /// The visual cursor at the left margin, in the row of the logical
    /// cursor.
    pub open spec fn cursor_line_start(self) -> PerformerView {
        PerformerView {
            cursor_x: self.left(),
            cursor_y: self.screen.glyph_y(self.screen.row_index),
            ..self
        }
    }

    /// After `c` was printed: the cell under the logical cursor shows `c` in
    /// the pending colour, the logical cursor has advanced by the width of
    /// `c`, as far as the last column, and the visual cursor has moved right
    /// by one character width for each column that the logical cursor
    /// advanced.
    pub open spec fn print(self, c: char) -> PerformerView {
        let screen = self.screen.write_char(c, self.attributes.color);
        PerformerView { screen, ..self }.cursor_right(
            screen.column_index - self.screen.column_index,
        )
    }

    /// Whether the visual cursor can follow when `c` is printed.
    pub open spec fn can_print(self, c: char) -> bool {
        let screen = self.screen.write_char(c, self.attributes.color);
        self.can_move_right(screen.column_index - self.screen.column_index)
    }

    /// After the control byte `byte` was executed. A line feed moves the
    /// logical cursor one row down, unless it is on the last row, and the
    /// visual cursor to the left margin of the row that the logical cursor is
    /// then in. A carriage return moves the logical cursor to the first
    /// column and leaves the visual cursor. A backspace, unless the logical
    /// cursor is in the first column, moves the logical cursor one cell left,
    /// empties the cell that it comes to and moves the visual cursor one
    /// character width left. Every other byte changes nothing.
    pub open spec fn execute(self, byte: u8) -> PerformerView {
        if byte == 0x0A {
            PerformerView { screen: self.screen.line_feed(), ..self }.cursor_line_start()
        } else if byte == 0x0D {
            PerformerView { screen: self.screen.carriage_return(), ..self }
        } else if byte == 0x08 {
            if self.screen.column_index > 0 {
                PerformerView { screen: self.screen.backspace(), ..self }.cursor_left(1)
            } else {
                self
            }
        } else {
            self
        }
    }

    /// Whether the visual cursor can follow when `byte` is executed.
    pub open spec fn can_execute(self, byte: u8) -> bool {
        byte == 0x08 && self.screen.column_index > 0 ==> self.can_move_left(1)
    }

    /// After the control sequence with the parameters `params` and the final
    /// character `action` was dispatched. `m` applies each parameter to the
    /// pending colour. `D` moves the logical cursor left by the count that
    /// the parameters ask for, as far as the first column, and the visual
    /// cursor left by one character width for each column that the logical
    /// cursor moved. `J` with the mode 2 among its parameters empties the
    /// grid and sends the logical cursor to the first cell and the visual
    /// cursor to the pixel of that cell; with other modes it changes nothing.
    /// Every other sequence changes nothing.
    pub open spec fn csi_dispatch(self, params: Seq<Seq<u16>>, action: char) -> PerformerView {
        if action == 'm' {
            PerformerView {
                attributes: PendingAttributes {
                    color: select_colors(self.attributes.color, params),
                },
                ..self
            }
        } else if action == 'D' {
            let screen = self.screen.move_left(cursor_count(params));
            PerformerView { screen, ..self }.cursor_left(
                self.screen.column_index - screen.column_index,
            )
        } else if action == 'J' {
            if erases_display(params) {
                PerformerView { screen: self.screen.clear(), ..self }.cursor_line_start()
            } else {
                self
            }
        } else {
            self
        }
    }

    /// Whether the visual cursor can follow when the control sequence is
    /// dispatched.
    pub open spec fn can_csi_dispatch(self, params: Seq<Seq<u16>>, action: char) -> bool {
        action == 'D' ==> self.can_move_left(
            self.screen.column_index - self.screen.move_left(cursor_count(params)).column_index,
        )
    }

    /// After `action` was performed.
    pub open spec fn step(self, action: ActionView) -> PerformerView {
        match action {
            ActionView::Print(c) => self.print(c),
            ActionView::Execute(byte) => self.execute(byte),
            ActionView::CsiDispatch { params, intermediates, ignore, action } => self.csi_dispatch(
                params,
                action,
            ),
            _ => self,
        }
    }

    /// Whether the visual cursor can follow when `action` is performed.
    pub open spec fn can_step(self, action: ActionView) -> bool {
        match action {
            ActionView::Print(c) => self.can_print(c),
            ActionView::Execute(byte) => self.can_execute(byte),
            ActionView::CsiDispatch { params, intermediates, ignore, action } => {
                self.can_csi_dispatch(params, action)
            },
            _ => true,
        }
    }

    /// After the actions `actions` were performed one after the other.
    pub open spec fn run(self, actions: Seq<ActionView>) -> PerformerView
        decreases actions.len(),
    {
        if actions.len() == 0 {
            self
        } else {
            self.run(actions.drop_last()).step(actions.last())
        }
    }

    /// Whether the visual cursor can follow through all of `actions`.
    pub open spec fn fits(self, actions: Seq<ActionView>) -> bool
        decreases actions.len(),
    {
        if actions.len() == 0 {
            true
        } else {
            self.fits(actions.drop_last()) && self.run(actions.drop_last()).can_step(
                actions.last(),
            )
        }
    }

    /// After the actions `actions` were performed one after the other, up to
    /// the first that the visual cursor cannot follow: that action and those
    /// after it are not performed.
    pub open spec fn run_fitting(self, actions: Seq<ActionView>) -> PerformerView
        decreases actions.len(),
    {
        if actions.len() == 0 {
            self
        } else if self.fits(actions) {
            self.run_fitting(actions.drop_last()).step(actions.last())
        } else {
            self.run_fitting(actions.drop_last())
        }
    }

    /// After the viewport changed its size: the grid is rebuilt, the visual
    /// cursor keeps its horizontal position and is drawn in the row that the
    /// logical cursor is then in.
    pub open spec fn resize(self, screen_width: int, screen_height: int) -> PerformerView {
        let screen = self.screen.resize(screen_width, screen_height);
        PerformerView { screen, cursor_y: screen.glyph_y(screen.row_index), ..self }
    }
}

/// As long as the visual cursor can follow, performing up to the first
/// action that it cannot follow is performing all.
pub proof fn lemma_run_fitting_is_run(p: PerformerView, actions: Seq<ActionView>)
    requires
        p.fits(actions),
    ensures
        p.run_fitting(actions) == p.run(actions),
    decreases actions.len(),
{
    if actions.len() > 0 {
        lemma_run_fitting_is_run(p, actions.drop_last());
    }
}

/// The values of a parameter are what the vector of them holds.
proof fn lemma_param_view(params: Vec<Vec<u16>>, i: int)
    requires
        0 <= i < params.len(),
    ensures
        params.deep_view()[i] == params[i]@,
{
    assert(params.deep_view()[i] =~= params[i]@);
}

/// The colour after the graphic-rendition parameters `params` were applied
/// to `color` one after the other.
fn apply_colors(color: Color, params: &Vec<Vec<u16>>) -> (selected: Color)
    ensures
        selected == select_colors(color, params.deep_view()),
{
    let mut selected = color;
    let mut i: usize = 0;
    while i < params.len()
        invariant
            i <= params.len(),
            selected == select_colors(color, params.deep_view().take(i as int)),
        decreases params.len() - i,
    {
        proof {
            lemma_param_view(*params, i as int);
            assert(params.deep_view().take(i + 1).drop_last() =~= params.deep_view().take(
                i as int,
            ));
        }
        let param = &params[i];
        if param.len() == 1 {
            match Color::from_sgr(param[0]) {
                Some(chosen) => {
                    selected = chosen;
                },
                None => {},
            }
        }
        i += 1;
    }
    assert(params.deep_view().take(params.len() as int) =~= params.deep_view());
    selected
}

/// The number of cells that the parameters of a cursor movement ask for.
fn movement_count(params: &Vec<Vec<u16>>) -> (count: u16)
    ensures
        count == cursor_count(params.deep_view()),
{
    proof {
        if params.len() > 0 {
            lemma_param_view(*params, 0);
        }
    }
    if params.len() > 0 && params[0].len() > 0 && params[0][0] != 0 {
        params[0][0]
    } else {
        1
    }
}

/// Whether one of the parameters of an erase asks for the whole display.
fn asks_erase_all(params: &Vec<Vec<u16>>) -> (asked: bool)
    ensures
        asked == erases_display(params.deep_view()),
{
    let mut i: usize = 0;
    while i < params.len()
        invariant
            i <= params.len(),
            forall|j: int| 0 <= j < i ==> !is_erase_all(#[trigger] params.deep_view()[j]),
        decreases params.len() - i,
    {
        proof {
            lemma_param_view(*params, i as int);
        }
        if params[i].len() == 1 && params[i][0] == 2 {
            assert(is_erase_all(params.deep_view()[i as int]));
            return true;
        }
        i += 1;
    }
    false
}

/// The terminal state engine: the grid, the attributes of the next printed
/// character and the visual cursor.
pub struct Performer {
    screen: Screen,
    attributes: PendingAttributes,
    cursor_x: i64,
}

impl View for Performer {
    type V = PerformerView;

    closed spec fn view(&self) -> PerformerView {
        PerformerView {
            screen: self.screen@,
            attributes: self.attributes,
            cursor_x: self.cursor_x as int,
            cursor_y: self.screen@.glyph_y(self.screen@.row_index),
        }
    }
}

impl Performer {
    /// What holds of every engine: its view is well formed.
    #[verifier::type_invariant]
    pub open spec fn inv(self) -> bool {
        self@.wf()
    }

    /// An engine on `screen` whose next printed character gets `font_color`,
    /// with the visual cursor on the cell of the logical cursor.
    pub fn new(screen: Screen, font_color: Color) -> (performer: Performer)
        ensures
            performer@ == PerformerView::initial(screen@, font_color),
            performer@.wf(),
    {
        proof {
            use_type_invariant(&screen);
        }
        let position = screen.cursor_position();
        Performer {
            screen,
            attributes: PendingAttributes { color: font_color },
            cursor_x: position.0 as i64,
        }
    }

    /// The grid.
    pub fn screen(&self) -> (screen: &Screen)
        ensures
            screen@ == self@.screen,
    {
        &self.screen
    }

    /// The attributes that the next printed character gets.
    pub fn attributes(&self) -> (attributes: PendingAttributes)
        ensures
            attributes == self@.attributes,
    {
        self.attributes
    }

    /// The pixel at which the cursor is drawn.
    pub fn cursor(&self) -> (cursor: CursorVisual)
        ensures
            cursor.x == self@.cursor_x,
            cursor.y == self@.cursor_y,
            self@.wf(),
    {
        proof {
            use_type_invariant(self);
        }
        let position = self.screen.cursor_position();
        CursorVisual { x: self.cursor_x, y: position.1 as i64 }
    }

    /// The number of pixels that `n` character widths are.
    fn widths(&self, n: u16) -> (shift: i64)
        ensures
            shift == n * self@.screen.char_width,
            0 <= shift <= 0xFFFF * 0xFFFF_FFFF,
    {
        let width = self.screen.char_width();
        assert(0 <= n * width <= 0xFFFF * 0xFFFF_FFFF) by (nonlinear_arith)
            requires
                0 <= n <= 0xFFFF,
                0 <= width <= 0xFFFF_FFFF,
        ;
        n as i64 * width as i64
    }

    /// Whether the position `n` character widths right of the visual cursor
    /// is a pixel count of 64 bits.
    pub fn can_move_right(&self, n: u16) -> (can: bool)
        ensures
            can == self@.can_move_right(n as int),
    {
        let shift = self.widths(n);
        self.cursor_x <= i64::MAX - shift
    }

    /// Whether the position `n` character widths left of the visual cursor
    /// is a pixel count of 64 bits.
    pub fn can_move_left(&self, n: u16) -> (can: bool)
        ensures
            can == self@.can_move_left(n as int),
    {
        let shift = self.widths(n);
        i64::MIN + shift <= self.cursor_x
    }

    /// Moves the visual cursor `n` character widths right.
    pub fn cursor_right(&mut self, n: u16)
        requires
            old(self)@.can_move_right(n as int),
        ensures
            final(self)@ == old(self)@.cursor_right(n as int),
    {
        proof {
            use_type_invariant(&*self);
        }
        let shift = self.widths(n);
        self.cursor_x = self.cursor_x + shift;
    }

    /// Moves the visual cursor `n` character widths left.
    pub fn cursor_left(&mut self, n: u16)
        requires
            old(self)@.can_move_left(n as int),
        ensures
            final(self)@ == old(self)@.cursor_left(n as int),
    {
        proof {
            use_type_invariant(&*self);
        }
        let shift = self.widths(n);
        self.cursor_x = self.cursor_x - shift;
    }

    /// The number of columns that the logical cursor advances when `c` is
    /// printed.
    fn advance_of(&self, c: char) -> (columns: u16)
        ensures
            columns == self@.screen.write_char(c, self@.attributes.color).column_index
                - self@.screen.column_index,
            columns <= 2,
    {
        proof {
            use_type_invariant(self);
        }
        let width = char_width(c) as usize;
        let room = self.screen.cols() - 1 - self.screen.column_index();
        if width <= room {
            width as u16
        } else {
            room as u16
        }
    }

    /// Whether the visual cursor can follow when `c` is printed.
    pub fn can_print(&self, c: char) -> (can: bool)
        ensures
            can == self@.can_print(c),
    {
        let columns = self.advance_of(c);
        self.can_move_right(columns)
    }

    /// Writes `c` in the pending colour into the cell under the logical
    /// cursor, advances the logical cursor by the width of `c`, as far as
    /// the last column, and moves the visual cursor right by one character
    /// width for each column that the logical cursor advanced.
    pub fn print(&mut self, c: char)
        requires
            old(self)@.can_print(c),
        ensures
            final(self)@ == old(self)@.print(c),
    {
        proof {
            use_type_invariant(&*self);
        }
        let columns = self.advance_of(c);
        let color = self.attributes.color;
        self.screen.write_char(c, color);
        self.cursor_right(columns);
    }

    /// Whether the visual cursor can follow when `byte` is executed.
    pub fn can_execute(&self, byte: u8) -> (can: bool)
        ensures
            can == self@.can_execute(byte),
    {
        if byte == 0x08 && self.screen.column_index() > 0 {
            self.can_move_left(1)
        } else {
            true
        }
    }

    /// Executes the control byte `byte`: a line feed, a carriage return or a
    /// backspace. Every other byte changes nothing.
    pub fn execute(&mut self, byte: u8)
        requires
            old(self)@.can_execute(byte),
        ensures
            final(self)@ == old(self)@.execute(byte),
    {
        proof {
            use_type_invariant(&*self);
        }
        if byte == 0x0A {
            self.screen.line_feed();
            self.cursor_x = self.screen.offset_from_left() as i64;
        } else if byte == 0x0D {
            self.screen.carriage_return();
        } else if byte == 0x08 {
            if self.screen.backspace() {
                self.cursor_left(1);
            }
        }
    }

    /// The number of columns that the logical cursor moves when a
    /// cursor-left sequence with the parameters `params` is dispatched.
    fn retreat_of(&self, params: &Vec<Vec<u16>>) -> (columns: u16)
        ensures
            columns == self@.screen.column_index - self@.screen.move_left(
                cursor_count(params.deep_view()),
            ).column_index,
    {
        let count = movement_count(params);
        let column = self.screen.column_index();
        if count as usize <= column {
            count
        } else {
            column as u16
        }
    }

    /// Whether the visual cursor can follow when the control sequence with
    /// the parameters `params` and the final character `action` is
    /// dispatched.
    pub fn can_csi_dispatch(&self, params: &Vec<Vec<u16>>, action: char) -> (can: bool)
        ensures
            can == self@.can_csi_dispatch(params.deep_view(), action),
    {
        if action == 'D' {
            let columns = self.retreat_of(params);
            self.can_move_left(columns)
        } else {
            true
        }
    }

    /// Dispatches the control sequence with the parameters `params` and the
    /// final character `action`: `m` sets the pending colour, `D` moves the
    /// cursors left, `J` with the mode 2 empties the grid. The intermediate
    /// bytes and the flag decide nothing, and every other sequence changes
    /// nothing.
    pub fn csi_dispatch(
        &mut self,
        params: &Vec<Vec<u16>>,
        intermediates: &[u8],
        ignore: bool,
        action: char,
    )
        requires
            old(self)@.can_csi_dispatch(params.deep_view(), action),
        ensures
            final(self)@ == old(self)@.csi_dispatch(params.deep_view(), action),
    {
        proof {
            use_type_invariant(&*self);
        }
        if action == 'm' {
            let color = apply_colors(self.attributes.color, params);
            self.attributes = PendingAttributes { color };
        } else if action == 'D' {
            let columns = self.retreat_of(params);
            let count = movement_count(params);
            self.screen.move_left(count as usize);
            self.cursor_left(columns);
        } else if action == 'J' {
            if asks_erase_all(params) {
                let cleared = self.screen.cleared();
                self.screen = cleared;
                self.cursor_x = self.screen.offset_from_left() as i64;
            }
        }
    }

    /// An escape sequence: changes nothing.
    pub fn esc_dispatch(&mut self, intermediates: &[u8], ignore: bool, byte: u8)
        ensures
            final(self)@ == old(self)@,
    {
    }

    /// The start of a device control string: changes nothing.
    pub fn hook(
        &mut self,
        params: &Vec<Vec<u16>>,
        intermediates: &[u8],
        ignore: bool,
        action: char,
    )
        ensures
            final(self)@ == old(self)@,
    {
    }

    /// The end of a device control string: changes nothing.
    pub fn unhook(&mut self)
        ensures
            final(self)@ == old(self)@,
    {
    }

    /// A byte of a device control string: changes nothing.
    pub fn put(&mut self, byte: u8)
        ensures
            final(self)@ == old(self)@,
    {
    }

    /// An operating system command: changes nothing.
    pub fn osc_dispatch(&mut self, params: &Vec<Vec<u8>>, bell_terminated: bool)
        ensures
            final(self)@ == old(self)@,
    {
    }

    /// Whether the parser should stop early: never.
    pub fn terminated(&self) -> (stop: bool)
        ensures
            !stop,
    {
        false
    }

    /// Whether the visual cursor can follow when `action` is performed.
    pub fn can_apply(&self, action: &Action) -> (can: bool)
        ensures
            can == self@.can_step(action.deep_view()),
    {
        match action {
            Action::Print(c) => self.can_print(*c),
            Action::Execute(byte) => self.can_execute(*byte),
            Action::CsiDispatch { params, intermediates, ignore, action } => self.can_csi_dispatch(
                params,
                *action,
            ),
            _ => true,
        }
    }

    /// Performs `action` if the visual cursor can follow, and says whether it
    /// did; if not, nothing changes.
    pub fn apply(&mut self, action: &Action) -> (performed: bool)
        ensures
            performed == old(self)@.can_step(action.deep_view()),
            performed ==> final(self)@ == old(self)@.step(action.deep_view()),
            !performed ==> final(self)@ == old(self)@,
    {
        if !self.can_apply(action) {
            return false;
        }
        match action {
            Action::Print(c) => self.print(*c),
            Action::Execute(byte) => self.execute(*byte),
            Action::Hook { params, intermediates, ignore, action } => self.hook(
                params,
                intermediates.as_slice(),
                *ignore,
                *action,
            ),
            Action::Put(byte) => self.put(*byte),
            Action::Unhook => self.unhook(),
            Action::OscDispatch { parts, bell_terminated } => self.osc_dispatch(
                parts,
                *bell_terminated,
            ),
            Action::CsiDispatch { params, intermediates, ignore, action } => self.csi_dispatch(
                params,
                intermediates.as_slice(),
                *ignore,
                *action,
            ),
            Action::EscDispatch { intermediates, ignore, byte } => self.esc_dispatch(
                intermediates.as_slice(),
                *ignore,
                *byte,
            ),
        }
        true
    }

    /// Performs the actions in `actions`, first to last, up to the first
    /// that the visual cursor cannot follow, and says whether it performed
    /// all.
    pub fn apply_all(&mut self, actions: &Vec<Action>) -> (complete: bool)
        ensures
            complete == old(self)@.fits(actions.deep_view()),
            final(self)@ == old(self)@.run_fitting(actions.deep_view()),
            complete ==> final(self)@ == old(self)@.run(actions.deep_view()),
    {
        let mut complete = true;
        let mut i: usize = 0;
        while i < actions.len()
            invariant
                i <= actions.len(),
                complete == old(self)@.fits(actions.deep_view().take(i as int)),
                self@ == old(self)@.run_fitting(actions.deep_view().take(i as int)),
            decreases actions.len() - i,
        {
            proof {
                assert(actions.deep_view().take(i + 1).drop_last() =~= actions.deep_view().take(
                    i as int,
                ));
                if complete {
                    lemma_run_fitting_is_run(old(self)@, actions.deep_view().take(i as int));
                }
            }
            if complete {
                complete = self.apply(&actions[i]);
            }
            i += 1;
        }
        proof {
            assert(actions.deep_view().take(actions.len() as int) =~= actions.deep_view());
            if complete {
                lemma_run_fitting_is_run(old(self)@, actions.deep_view());
            }
        }
        complete
    }

    /// Rebuilds the grid for a viewport of `screen_width × screen_height`
    /// pixels, if that holds at least one cell, and says whether it did. The
    /// visual cursor keeps its horizontal position.
    pub fn resize(&mut self, screen_width: u32, screen_height: u32) -> (resized: bool)
        ensures
            resized == old(self)@.screen.fits(screen_width as int, screen_height as int),
            resized ==> final(self)@ == old(self)@.resize(
                screen_width as int,
                screen_height as int,
            ),
            !resized ==> final(self)@ == old(self)@,
    {
        proof {
            use_type_invariant(&*self);
        }
        match self.screen.resized(screen_width, screen_height) {
            Some(screen) => {
                proof {
                    use_type_invariant(&screen);
                }
                self.screen = screen;
                true
            },
            None => false,
        }
    }
}

} // verus!
