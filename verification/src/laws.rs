//! What holds of the terminal in every state, proved over the views.

use crate::action::ActionView;
use crate::cell::{display_width, is_wide, sgr_color, Cell, Color};
use crate::performer::{
    cursor_count, erases_display, is_erase_all, lemma_run_fitting_is_run, select_colors,
    PerformerView,
};
use crate::parser::decoded;
use crate::screen::{lemma_grid_in_viewport, lemma_quotient_positive, ScreenView};
use crate::state::StateView;
use crate::utils::{deliveries, OneRead, ReadOutcome};
use vstd::prelude::*;

verus! {

/// Whether `c` is a printable character of ASCII: a blank, a letter, a digit
/// or a punctuation mark.
pub open spec fn is_printable_ascii(c: char) -> bool {
    0x20 <= c as u32 <= 0x7E
}

/// The actions that print the characters of `text`, first to last.
pub open spec fn prints(text: Seq<char>) -> Seq<ActionView>
    decreases text.len(),
{
    if text.len() == 0 {
        Seq::empty()
    } else {
        prints(text.drop_last()).push(ActionView::Print(text.last()))
    }
}

/// A character is a Unicode scalar value: a code point that is no surrogate.
proof fn lemma_char_is_scalar(c: char)
    ensures
        0 <= c as int <= 0xD7FF || 0xE000 <= c as int <= 0x10FFFF,
{
}

/// The grid stays well formed when a character is written.
pub proof fn law_write_char_keeps_grid(screen: ScreenView, c: char, color: Color)
    requires
        screen.wf(),
    ensures
        screen.write_char(c, color).wf(),
        screen.write_char(c, color).rows() == screen.rows(),
        screen.write_char(c, color).cols() == screen.cols(),
        screen.column_index <= screen.write_char(c, color).column_index,
{
    let put = screen.put(Cell::showing(c, color));
    assert(put.glyphs[0].len() == screen.glyphs[0].len());
    assert forall|r: int| 0 <= r < put.rows() implies (#[trigger] put.glyphs[r]).len()
        == put.cols() by {
        assert(screen.glyphs[r].len() == screen.cols());
    }
}

/// The grid stays well formed when a backspace is executed.
pub proof fn law_backspace_keeps_grid(screen: ScreenView)
    requires
        screen.wf(),
    ensures
        screen.backspace().wf(),
        screen.backspace().rows() == screen.rows(),
        screen.backspace().cols() == screen.cols(),
{
    if screen.column_index > 0 {
        let moved = screen.move_left(1);
        let put = moved.put(Cell::blank());
        assert(put.glyphs[0].len() == screen.glyphs[0].len());
        assert forall|r: int| 0 <= r < put.rows() implies (#[trigger] put.glyphs[r]).len()
            == put.cols() by {
            assert(screen.glyphs[r].len() == screen.cols());
        }
    }
}

/// The grid stays well formed when it is emptied.
pub proof fn law_clear_keeps_grid(screen: ScreenView)
    requires
        screen.wf(),
    ensures
        screen.clear().wf(),
        screen.clear().rows() == screen.rows(),
        screen.clear().cols() == screen.cols(),
{
}

/// A grid that is rebuilt for a viewport that holds a cell is well formed
/// again, with the rows and columns that the new viewport has room for.
pub proof fn law_resize_keeps_grid(screen: ScreenView, screen_width: int, screen_height: int)
    requires
        screen.wf(),
        screen.fits(screen_width, screen_height),
        screen_width <= u32::MAX,
        screen_height <= u32::MAX,
    ensures
        screen.resize(screen_width, screen_height).wf(),
        screen.resize(screen_width, screen_height).rows() == screen_height / screen.font_size,
        screen.resize(screen_width, screen_height).cols() == screen_width / screen.char_width,
{
    lemma_quotient_positive(screen_height, screen.font_size);
    lemma_quotient_positive(screen_width, screen.char_width);
}

/// A cell that lies on the grid before and after a resize shows the same
/// after it; every other cell of the new grid shows nothing.
pub proof fn law_resize_keeps_cells(
    screen: ScreenView,
    screen_width: int,
    screen_height: int,
    r: int,
    c: int,
)
    requires
        screen.wf(),
        screen.fits(screen_width, screen_height),
        0 <= r < screen_height / screen.font_size,
        0 <= c < screen_width / screen.char_width,
    ensures
        screen.resize(screen_width, screen_height).glyph(r, c) == if r < screen.rows() && c
            < screen.cols() {
            screen.glyph(r, c)
        } else {
            Cell::blank()
        },
{
    if r < screen.rows() {
        assert(screen.glyphs[r].len() == screen.cols());
    }
}

/// The logical cursor is on the grid, and the visual cursor is drawn in its
/// row, after every action, whatever the action is.
pub proof fn law_step_keeps_well_formed(p: PerformerView, action: ActionView)
    requires
        p.wf(),
    ensures
        p.step(action).wf(),
        p.step(action).screen.rows() == p.screen.rows(),
        p.step(action).screen.cols() == p.screen.cols(),
{
    match action {
        ActionView::Print(c) => {
            law_write_char_keeps_grid(p.screen, c, p.attributes.color);
        },
        ActionView::Execute(byte) => {
            if byte == 0x08 {
                law_backspace_keeps_grid(p.screen);
            }
        },
        ActionView::CsiDispatch { params, intermediates, ignore, action } => {
            if action == 'J' {
                law_clear_keeps_grid(p.screen);
            }
        },
        _ => {},
    }
}

/// The logical cursor is on the grid, and the visual cursor is drawn in its
/// row, after any run of actions.
pub proof fn law_run_keeps_well_formed(p: PerformerView, actions: Seq<ActionView>)
    requires
        p.wf(),
    ensures
        p.run(actions).wf(),
        p.run(actions).screen.rows() == p.screen.rows(),
        p.run(actions).screen.cols() == p.screen.cols(),
    decreases actions.len(),
{
    if actions.len() > 0 {
        law_run_keeps_well_formed(p, actions.drop_last());
        law_step_keeps_well_formed(p.run(actions.drop_last()), actions.last());
    }
}

/// The same holds when the run stops at the first action that the visual
/// cursor cannot follow.
pub proof fn law_run_fitting_keeps_well_formed(p: PerformerView, actions: Seq<ActionView>)
    requires
        p.wf(),
    ensures
        p.run_fitting(actions).wf(),
        p.run_fitting(actions).screen.rows() == p.screen.rows(),
        p.run_fitting(actions).screen.cols() == p.screen.cols(),
    decreases actions.len(),
{
    if actions.len() > 0 {
        law_run_fitting_keeps_well_formed(p, actions.drop_last());
        law_step_keeps_well_formed(p.run_fitting(actions.drop_last()), actions.last());
    }
}

/// One action moves the visual cursor by no more than two viewport widths to
/// the right and one to the left, or sends it to the left margin. So it can
/// follow every action while it is that far from the ends of the 64-bit
/// range.
pub proof fn law_can_step_away_from_limits(p: PerformerView, action: ActionView)
    requires
        p.wf(),
        i64::MIN + u32::MAX <= p.cursor_x <= i64::MAX - 2 * u32::MAX,
    ensures
        p.can_step(action),
        p.cursor_x - u32::MAX <= p.step(action).cursor_x <= p.cursor_x + 2 * u32::MAX
            || p.step(action).cursor_x == p.left(),
{
    let width = p.screen.char_width;
    let column = p.screen.column_index;
    lemma_grid_in_viewport(p.screen, p.screen.row_index, column);
    match action {
        ActionView::Print(c) => {
            law_write_char_keeps_grid(p.screen, c, p.attributes.color);
            let moved = p.screen.write_char(c, p.attributes.color).column_index - column;
            assert(0 <= moved * width <= 2 * width) by (nonlinear_arith)
                requires
                    0 <= moved <= 2,
                    0 < width,
            ;
        },
        ActionView::Execute(byte) => {
            assert(1 * width == width);
        },
        ActionView::CsiDispatch { params, intermediates, ignore, action } => {
            if action == 'D' {
                let moved = column - p.screen.move_left(cursor_count(params)).column_index;
                assert(0 <= moved * width <= column * width) by (nonlinear_arith)
                    requires
                        0 <= moved <= column,
                        0 < width,
                ;
            }
        },
        _ => {},
    }
}

/// The visual cursor can follow every run of `n` actions that starts `n`
/// viewport widths from the left end and twice as many from the right end
/// of the 64-bit range: from the start of the engine, it can follow any run
/// that a terminal will ever see.
pub proof fn law_fits_away_from_limits(p: PerformerView, actions: Seq<ActionView>)
    requires
        p.wf(),
        actions.len() <= 0x2000_0000,
        i64::MIN + actions.len() * u32::MAX <= p.cursor_x,
        p.cursor_x <= i64::MAX - 2 * actions.len() * u32::MAX,
    ensures
        p.fits(actions),
        p.run_fitting(actions) == p.run(actions),
        p.run(actions).cursor_x >= (if p.cursor_x < 0 {
            p.cursor_x
        } else {
            0
        }) - actions.len() * u32::MAX,
        p.run(actions).cursor_x <= (if p.cursor_x > u32::MAX {
            p.cursor_x
        } else {
            u32::MAX as int
        }) + 2 * actions.len() * u32::MAX,
    decreases actions.len(),
{
    if actions.len() > 0 {
        let front = actions.drop_last();
        law_fits_away_from_limits(p, front);
        law_run_keeps_well_formed(p, front);
        let before = p.run(front);
        lemma_grid_in_viewport(before.screen, before.screen.row_index, 0);
        law_can_step_away_from_limits(before, actions.last());
        lemma_run_fitting_is_run(p, actions);
    }
}

/// A run that stops at the first action that the visual cursor cannot
/// follow is the run of the actions before it; if there is no such action,
/// it is the run of all.
pub proof fn law_run_fitting_is_a_run(p: PerformerView, actions: Seq<ActionView>)
    ensures
        p.fits(actions) ==> p.run_fitting(actions) == p.run(actions),
        exists|k: int|
            0 <= k <= actions.len() && p.fits(#[trigger] actions.take(k)) && p.run_fitting(
                actions,
            ) == p.run(actions.take(k)) && (k < actions.len() ==> !p.run(
                actions.take(k),
            ).can_step(actions[k])),
    decreases actions.len(),
{
    if p.fits(actions) {
        lemma_run_fitting_is_run(p, actions);
        assert(actions.take(actions.len() as int) =~= actions);
    } else {
        let front = actions.drop_last();
        law_run_fitting_is_a_run(p, front);
        if p.fits(front) {
            lemma_run_fitting_is_run(p, front);
            assert(actions.take(actions.len() - 1) =~= front);
        } else {
            let k = choose|k: int|
                0 <= k <= front.len() && p.fits(#[trigger] front.take(k)) && p.run_fitting(front)
                    == p.run(front.take(k)) && (k < front.len() ==> !p.run(
                    front.take(k),
                ).can_step(front[k]));
            if k == front.len() {
                assert(front.take(k) =~= front);
            }
            assert(actions.take(k) =~= front.take(k));
        }
    }
}

/// Performing two runs of actions one after the other is performing their
/// concatenation.
pub proof fn law_run_concatenates(
    p: PerformerView,
    first: Seq<ActionView>,
    second: Seq<ActionView>,
)
    ensures
        p.run(first + second) == p.run(first).run(second),
    decreases second.len(),
{
    if second.len() == 0 {
        assert(first + second =~= first);
    } else {
        assert((first + second).drop_last() =~= first + second.drop_last());
        assert((first + second).last() == second.last());
        law_run_concatenates(p, first, second.drop_last());
    }
}

/// Printing a text of printable ASCII characters moves the logical cursor
/// right by the number of its characters, as far as the last column, where
/// it stays; the row of the cursor does not change.
pub proof fn law_print_ascii_advances_column(p: PerformerView, text: Seq<char>)
    requires
        p.wf(),
        forall|i: int| 0 <= i < text.len() ==> is_printable_ascii(#[trigger] text[i]),
    ensures
        p.run(prints(text)).screen.column_index == if p.screen.column_index + text.len()
            < p.screen.cols() {
            p.screen.column_index + text.len()
        } else {
            p.screen.cols() - 1
        },
        p.run(prints(text)).screen.row_index == p.screen.row_index,
    decreases text.len(),
{
    if text.len() > 0 {
        let front = text.drop_last();
        lemma_char_is_scalar(text.last());
        assert(prints(text).drop_last() =~= prints(front));
        assert(prints(text).last() == ActionView::Print(text.last()));
        law_print_ascii_advances_column(p, front);
        law_run_keeps_well_formed(p, prints(front));
        assert(is_printable_ascii(text[text.len() - 1]));
        assert(!is_wide(text.last()));
    }
}

/// A print moves the visual cursor right by one character width for each
/// column that the logical cursor advances, wherever the visual cursor
/// stands, and leaves it in its row. Away from the last column that is the
/// width of the character: one advance, or two for a wide character.
pub proof fn law_print_moves_visual_cursor(p: PerformerView, c: char)
    requires
        p.wf(),
    ensures
        p.print(c).cursor_x == p.cursor_x + (p.print(c).screen.column_index
            - p.screen.column_index) * p.screen.char_width,
        p.print(c).cursor_y == p.cursor_y,
        p.screen.column_index + display_width(c) < p.screen.cols() ==> {
            &&& p.print(c).screen.column_index == p.screen.column_index + display_width(c)
            &&& !is_wide(c) ==> p.print(c).cursor_x == p.cursor_x + p.screen.char_width
            &&& is_wide(c) ==> p.print(c).cursor_x == p.cursor_x + 2 * p.screen.char_width
        },
{
    law_write_char_keeps_grid(p.screen, c, p.attributes.color);
    assert(1 * p.screen.char_width == p.screen.char_width);
}

/// A line feed above the last row moves the logical cursor down by exactly
/// one row and leaves its column alone; the visual cursor goes to the left
/// margin and one character height down. A carriage return after it leaves
/// the logical cursor in the first column of that row.
pub proof fn law_line_feed_then_carriage_return(p: PerformerView)
    requires
        p.wf(),
        p.screen.row_index + 1 < p.screen.rows(),
    ensures
        p.execute(0x0A).screen.row_index == p.screen.row_index + 1,
        p.execute(0x0A).screen.column_index == p.screen.column_index,
        p.execute(0x0A).cursor_x == p.left(),
        p.execute(0x0A).cursor_y == p.cursor_y + p.screen.font_size,
        p.execute(0x0A).execute(0x0D).screen.row_index == p.screen.row_index + 1,
        p.execute(0x0A).execute(0x0D).screen.column_index == 0,
{
    let row = p.screen.row_index;
    let height = p.screen.font_size;
    assert((row + 1) * height == row * height + height) by (nonlinear_arith);
}

/// A line feed on the last row leaves the logical cursor where it is: the
/// grid does not scroll. The visual cursor goes to the left margin of that
/// row.
pub proof fn law_line_feed_on_last_row(p: PerformerView)
    requires
        p.wf(),
        p.screen.row_index == p.screen.rows() - 1,
    ensures
        p.execute(0x0A).screen == p.screen,
        p.execute(0x0A).cursor_x == p.left(),
        p.execute(0x0A).cursor_y == p.cursor_y,
{
}

/// A carriage return leaves the logical cursor in the first column of its
/// row, wherever it was, and changes nothing else.
pub proof fn law_carriage_return(p: PerformerView)
    ensures
        p.execute(0x0D).screen.column_index == 0,
        p.execute(0x0D) == (PerformerView {
            screen: ScreenView { column_index: 0, ..p.screen },
            ..p
        }),
{
}

/// A backspace in the first column changes nothing; elsewhere it moves the
/// logical cursor one column left, empties the cell it comes to, leaves
/// every other cell as it is and moves the visual cursor one character
/// width left, wherever that stands.
pub proof fn law_backspace(p: PerformerView)
    requires
        p.wf(),
    ensures
        p.screen.column_index == 0 ==> p.execute(0x08) == p,
        p.screen.column_index > 0 ==> {
            &&& p.execute(0x08).screen.column_index == p.screen.column_index - 1
            &&& p.execute(0x08).screen.row_index == p.screen.row_index
            &&& p.execute(0x08).screen.glyph(p.screen.row_index, p.screen.column_index - 1)
                == Cell::blank()
            &&& forall|r: int, c: int|
                0 <= r < p.screen.rows() && 0 <= c < p.screen.cols() && !(r
                    == p.screen.row_index && c == p.screen.column_index - 1)
                    ==> #[trigger] p.execute(0x08).screen.glyph(r, c) == p.screen.glyph(r, c)
            &&& p.execute(0x08).cursor_x == p.cursor_x - p.screen.char_width
            &&& p.execute(0x08).cursor_y == p.cursor_y
        },
{
    assert(1 * p.screen.char_width == p.screen.char_width);
}

/// The graphic-rendition parameter 31 makes the pending colour red, and the
/// parameter 0 after it, in the same sequence or in a later one, makes it
/// white again.
pub proof fn law_red_then_reset(p: PerformerView)
    ensures
        p.csi_dispatch(seq![seq![31u16]], 'm').attributes.color == (Color {
            red: 255,
            green: 0,
            blue: 0,
            alpha: 255,
        }),
        p.csi_dispatch(seq![seq![31u16], seq![0u16]], 'm').attributes.color == Color::white(),
        p.csi_dispatch(seq![seq![31u16]], 'm').csi_dispatch(
            seq![seq![0u16]],
            'm',
        ).attributes.color == Color::white(),
{
    let red = seq![seq![31u16]];
    let reset = seq![seq![0u16]];
    let both = seq![seq![31u16], seq![0u16]];
    assert(red.drop_last() =~= Seq::<Seq<u16>>::empty());
    assert(reset.drop_last() =~= Seq::<Seq<u16>>::empty());
    assert(both.drop_last() =~= red);
    reveal_with_fuel(select_colors, 3);
}

/// Of the graphic-rendition parameters of one sequence, the last that
/// selects a colour decides.
pub proof fn law_last_color_wins(color: Color, params: Seq<Seq<u16>>, code: u16)
    requires
        sgr_color(code) is Some,
    ensures
        select_colors(color, params.push(seq![code])) == sgr_color(code)->0,
{
    assert(params.push(seq![code]).drop_last() =~= params);
}

/// A graphic-rendition sequence changes the pending colour and nothing
/// else.
pub proof fn law_rendition_changes_color_only(p: PerformerView, params: Seq<Seq<u16>>)
    ensures
        p.csi_dispatch(params, 'm').screen == p.screen,
        p.csi_dispatch(params, 'm').cursor_x == p.cursor_x,
        p.csi_dispatch(params, 'm').cursor_y == p.cursor_y,
{
}

/// A cursor-left sequence without a parameter, which the parser reports as
/// the parameter zero, moves the logical cursor left by exactly one column
/// and the visual cursor left by exactly one character width, and changes
/// nothing else; in the first column it changes nothing at all.
pub proof fn law_cursor_left_default(p: PerformerView, params: Seq<Seq<u16>>)
    requires
        p.wf(),
        params == Seq::<Seq<u16>>::empty() || params == seq![seq![0u16]],
    ensures
        cursor_count(params) == 1,
        p.screen.column_index == 0 ==> p.csi_dispatch(params, 'D') == p,
        p.screen.column_index > 0 ==> p.csi_dispatch(params, 'D') == (PerformerView {
            screen: ScreenView { column_index: p.screen.column_index - 1, ..p.screen },
            cursor_x: p.cursor_x - p.screen.char_width,
            ..p
        }),
{
    assert(0 * p.screen.char_width == 0);
    assert(1 * p.screen.char_width == p.screen.char_width);
}

/// A cursor-left sequence never takes the logical cursor below the first
/// column: it moves it by its count, or to the first column if that is
/// nearer. The visual cursor moves left by one character width for each
/// column that the logical cursor moved, wherever it stands.
pub proof fn law_cursor_left_stops_at_first_column(p: PerformerView, params: Seq<Seq<u16>>)
    requires
        p.wf(),
    ensures
        p.csi_dispatch(params, 'D').screen.column_index == if cursor_count(params)
            <= p.screen.column_index {
            p.screen.column_index - cursor_count(params)
        } else {
            0
        },
        p.csi_dispatch(params, 'D').screen.row_index == p.screen.row_index,
        p.csi_dispatch(params, 'D').screen.glyphs == p.screen.glyphs,
        p.csi_dispatch(params, 'D').cursor_x == p.cursor_x - (p.screen.column_index
            - p.csi_dispatch(params, 'D').screen.column_index) * p.screen.char_width,
        p.csi_dispatch(params, 'D').cursor_y == p.cursor_y,
        p.csi_dispatch(params, 'D').attributes == p.attributes,
{
}

/// An erase of the whole display empties every cell and sends the logical
/// cursor to the top-left cell; the grid keeps its rows and columns.
pub proof fn law_erase_display(p: PerformerView)
    requires
        p.wf(),
    ensures
        erases_display(seq![seq![2u16]]),
        forall|r: int, c: int|
            0 <= r < p.screen.rows() && 0 <= c < p.screen.cols() ==> #[trigger] p.csi_dispatch(
                seq![seq![2u16]],
                'J',
            ).screen.glyph(r, c) == Cell::blank(),
        p.csi_dispatch(seq![seq![2u16]], 'J').screen.row_index == 0,
        p.csi_dispatch(seq![seq![2u16]], 'J').screen.column_index == 0,
        p.csi_dispatch(seq![seq![2u16]], 'J').screen.rows() == p.screen.rows(),
        p.csi_dispatch(seq![seq![2u16]], 'J').screen.cols() == p.screen.cols(),
        p.csi_dispatch(seq![seq![2u16]], 'J').cursor_x == p.left(),
        p.csi_dispatch(seq![seq![2u16]], 'J').cursor_y == p.top(),
{
    let params = seq![seq![2u16]];
    assert(is_erase_all(params[0]));
}

/// An erase with the mode 0 or 1, to the end or from the start of the
/// display, changes nothing.
pub proof fn law_partial_erase_changes_nothing(p: PerformerView, mode: u16)
    requires
        mode == 0 || mode == 1,
    ensures
        p.csi_dispatch(seq![seq![mode]], 'J') == p,
{
    let params = seq![seq![mode]];
    assert forall|i: int| 0 <= i < params.len() implies !is_erase_all(#[trigger] params[i]) by {
        assert(params[i] == seq![mode]);
    }
}

/// The engine starts well formed on a well-formed grid: the visual cursor
/// is drawn on the cell of the logical cursor.
pub proof fn law_initial_is_well_formed(screen: ScreenView, color: Color)
    requires
        screen.wf(),
    ensures
        PerformerView::initial(screen, color).wf(),
        PerformerView::initial(screen, color).cursor_x == screen.glyph_x(screen.column_index),
        PerformerView::initial(screen, color).cursor_y == screen.glyph_y(screen.row_index),
{
}

/// After a resize to a viewport that holds a cell, the logical cursor is on
/// the new grid and the visual cursor is drawn in its row, at the horizontal
/// position it had.
pub proof fn law_resize_keeps_well_formed(p: PerformerView, screen_width: int, screen_height: int)
    requires
        p.wf(),
        p.screen.fits(screen_width, screen_height),
        screen_width <= u32::MAX,
        screen_height <= u32::MAX,
    ensures
        p.resize(screen_width, screen_height).wf(),
        p.resize(screen_width, screen_height).cursor_x == p.cursor_x,
{
    law_resize_keeps_grid(p.screen, screen_width, screen_height);
}

/// Whatever the parser decodes from a chunk of bytes, the logical cursor is
/// on the grid and the visual cursor in its row after the chunk was fed to
/// the terminal, and the grid has the rows and columns it had.
pub proof fn law_feed_keeps_well_formed(state: StateView, bytes: Seq<u8>)
    requires
        state.performer.wf(),
    ensures
        state.feed(bytes).performer.wf(),
        state.feed(bytes).performer.screen.rows() == state.performer.screen.rows(),
        state.feed(bytes).performer.screen.cols() == state.performer.screen.cols(),
        state.feed(bytes).fed == state.fed.push(bytes),
{
    law_run_fitting_keeps_well_formed(state.performer, decoded(state.fed, bytes));
}

/// Chunks take effect in the order in which they are fed: after two chunks
/// that the visual cursor can follow, the engine has performed what the
/// parser decoded from the first, then what it decoded from the second in
/// the state the first left it in.
pub proof fn law_feed_in_order(state: StateView, first: Seq<u8>, second: Seq<u8>)
    requires
        state.feeds_whole(first),
        state.feed(first).feeds_whole(second),
    ensures
        state.feed(first).feed(second).performer == state.performer.run(
            decoded(state.fed, first) + decoded(state.fed.push(first), second),
        ),
        state.feed(first).feed(second).fed == state.fed.push(first).push(second),
{
    lemma_run_fitting_is_run(state.performer, decoded(state.fed, first));
    lemma_run_fitting_is_run(
        state.feed(first).performer,
        decoded(state.fed.push(first), second),
    );
    law_run_concatenates(
        state.performer,
        decoded(state.fed, first),
        decoded(state.fed.push(first), second),
    );
}

/// Whether `read` brought bytes: at least one, and no more than its buffer
/// holds.
pub open spec fn brought_bytes(read: OneRead) -> bool {
    read.outcome matches ReadOutcome::Read(n) && 0 < n <= read.buffer.len()
}

/// The bytes that `read` brought.
pub open spec fn chunk_of(read: OneRead) -> Seq<u8> {
    match read.outcome {
        ReadOutcome::Read(n) => read.buffer.take(n as int),
        _ => Seq::empty(),
    }
}

/// When every read brings bytes, the session reader delivers one chunk for
/// each read, in the order of the reads, and each chunk is what its read
/// brought: none is lost, none comes twice, none is made up.
pub proof fn law_reader_delivers_each_chunk_in_order(reads: Seq<OneRead>)
    requires
        forall|i: int| 0 <= i < reads.len() ==> brought_bytes(#[trigger] reads[i]),
    ensures
        deliveries(reads).len() == reads.len(),
        forall|i: int|
            0 <= i < reads.len() ==> #[trigger] deliveries(reads)[i] == chunk_of(reads[i]),
    decreases reads.len(),
{
    if reads.len() > 0 {
        let rest = reads.drop_first();
        assert(brought_bytes(reads[0]));
        assert forall|i: int| 0 <= i < rest.len() implies brought_bytes(#[trigger] rest[i]) by {
            assert(rest[i] == reads[i + 1]);
        }
        law_reader_delivers_each_chunk_in_order(rest);
        assert forall|i: int| 0 <= i < reads.len() implies #[trigger] deliveries(reads)[i]
            == chunk_of(reads[i]) by {
            if i > 0 {
                assert(deliveries(reads)[i] == deliveries(rest)[i - 1]);
                assert(rest[i - 1] == reads[i]);
            }
        }
    }
}

/// A read that ends the session ends the deliveries: what was read before
/// it is delivered as if it were all, and nothing that is read after it is
/// delivered.
pub proof fn law_reader_stops_at_the_end(
    before: Seq<OneRead>,
    end: OneRead,
    after: Seq<OneRead>,
)
    requires
        forall|i: int| 0 <= i < before.len() ==> brought_bytes(#[trigger] before[i]),
        end.outcome == ReadOutcome::Read(0) || end.outcome == ReadOutcome::Closed,
    ensures
        deliveries(before.push(end) + after) == deliveries(before),
    decreases before.len(),
{
    let all = before.push(end) + after;
    if before.len() == 0 {
        assert(all[0] == end);
    } else {
        let rest = before.drop_first();
        assert(brought_bytes(before[0]));
        assert(all[0] == before[0]);
        assert(all.drop_first() =~= rest.push(end) + after);
        assert forall|i: int| 0 <= i < rest.len() implies brought_bytes(#[trigger] rest[i]) by {
            assert(rest[i] == before[i + 1]);
        }
        law_reader_stops_at_the_end(rest, end, after);
    }
}

/// A read that fails for another reason is passed over: it delivers
/// nothing and does not end the deliveries.
pub proof fn law_reader_passes_over_failures(failed: OneRead, after: Seq<OneRead>)
    requires
        failed.outcome == ReadOutcome::Failed,
    ensures
        deliveries(seq![failed] + after) == deliveries(after),
{
    let all = seq![failed] + after;
    assert(all[0] == failed);
    assert(all.drop_first() =~= after);
}

} // verus!
