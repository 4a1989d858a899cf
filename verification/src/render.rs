//! Recomposition of the display: each tick the editor erases the active
//! window's live text row and cursor, then redraws every window's grid,
//! the live cursor, the four window borders with the active one
//! highlighted, and the function-key labels — as one list of plot
//! commands, in exactly that order.

use vstd::prelude::*;

use crate::document::{cell_at, DocView, WIN_HEIGHT, WIN_WIDTH};
use crate::display::{drawable, plot_at, safe_add, PlotCmd, TextColor, BUFFER_HEIGHT, BUFFER_WIDTH};
use crate::interface::{
    lemma_modify_preserves_inv, spec_event_cmds, spec_modify, KeyEvent, SwimInterface, SwimView,
};

verus! {

/// Erasure of the `n`-th text glyph of a window's live row: a blank cell
/// at the modular horizontal offset `n` from the window's origin.
pub open spec fn erase_letter_cmd(d: DocView, n: int) -> PlotCmd {
    plot_at(
        ' ',
        (n + d.origin_col) % (BUFFER_WIDTH as int),
        d.origin_row,
        TextColor::Black,
        TextColor::Black,
    )
}

/// Erasure of the live cursor glyph.
pub open spec fn erase_cursor_cmd(d: DocView) -> PlotCmd {
    plot_at(
        ' ',
        (d.cursor_col + d.origin_col) % (BUFFER_WIDTH as int),
        d.origin_row + d.cursor_row,
        TextColor::Black,
        TextColor::Black,
    )
}

/// The erase step: blank the live row's glyph cells, then the cursor cell.
pub open spec fn clear_cmds(d: DocView) -> Seq<PlotCmd> {
    Seq::new(d.cursor_col as nat, |n: int| erase_letter_cmd(d, n)).push(erase_cursor_cmd(d))
}

/// One grid cell of a window painted at its display position.
pub open spec fn content_cmd(d: DocView, r: int, c: int) -> PlotCmd {
    plot_at(cell_at(d, r, c), d.origin_col + c, d.origin_row + r, TextColor::Cyan, TextColor::Black)
}

/// One grid row of a window, left to right.
pub open spec fn row_cmds(d: DocView, r: int) -> Seq<PlotCmd> {
    Seq::new(WIN_WIDTH as nat, |c: int| content_cmd(d, r, c))
}

/// The first `nrows` grid rows of a window, top to bottom.
pub open spec fn window_cmds_upto(d: DocView, nrows: int) -> Seq<PlotCmd>
    decreases nrows,
{
    if nrows <= 0 {
        Seq::empty()
    } else {
        window_cmds_upto(d, nrows - 1) + row_cmds(d, nrows - 1)
    }
}

/// A window's whole grid painted at its origin.
pub open spec fn window_cmds(d: DocView) -> Seq<PlotCmd> {
    window_cmds_upto(d, WIN_HEIGHT as int)
}

/// All four windows' grids, in window order.
pub open spec fn content_cmds(s: SwimView) -> Seq<PlotCmd> {
    window_cmds(s.windows[0]) + window_cmds(s.windows[1]) + window_cmds(s.windows[2])
        + window_cmds(s.windows[3])
}

/// The live text cursor of the active window.
pub open spec fn cursor_cmd(d: DocView) -> PlotCmd {
    plot_at(
        '|',
        (d.cursor_col + d.origin_col) % (BUFFER_WIDTH as int),
        d.origin_row + d.cursor_row,
        TextColor::Cyan,
        TextColor::Cyan,
    )
}

/// Display column of border corner `k`: the four borders share one fixed
/// layout, independent of each window's own origin.
pub open spec fn corner_col(k: int) -> int {
    if k == 1 || k == 3 {
        WIN_WIDTH as int
    } else {
        1
    }
}

/// Display row of border corner `k`.
pub open spec fn corner_row(k: int) -> int {
    if k >= 2 {
        2 + WIN_HEIGHT as int
    } else {
        2
    }
}

/// The `i`-th column of a border's top and bottom edges.
pub open spec fn hline_pair(cx: int, cy: int, i: int, fg: TextColor, bg: TextColor) -> Seq<
    PlotCmd,
> {
    seq![
        plot_at('.', cx + i, cy, fg, bg),
        plot_at('.', cx + i, cy + WIN_HEIGHT as int, fg, bg),
    ]
}

/// The first `n` columns of a border's horizontal edges.
pub open spec fn hline_upto(cx: int, cy: int, n: int, fg: TextColor, bg: TextColor) -> Seq<PlotCmd>
    decreases n,
{
    if n <= 0 {
        Seq::empty()
    } else {
        hline_upto(cx, cy, n - 1, fg, bg) + hline_pair(cx, cy, n - 1, fg, bg)
    }
}

/// The `i`-th row of a border's left and right edges.
pub open spec fn vline_pair(cx: int, cy: int, i: int, fg: TextColor, bg: TextColor) -> Seq<
    PlotCmd,
> {
    seq![
        plot_at('.', cx, cy + i, fg, bg),
        plot_at('.', cx + WIN_WIDTH as int - 1, cy + i, fg, bg),
    ]
}

/// The first `n` rows of a border's vertical edges.
pub open spec fn vline_upto(cx: int, cy: int, n: int, fg: TextColor, bg: TextColor) -> Seq<PlotCmd>
    decreases n,
{
    if n <= 0 {
        Seq::empty()
    } else {
        vline_upto(cx, cy, n - 1, fg, bg) + vline_pair(cx, cy, n - 1, fg, bg)
    }
}

/// A dotted rectangular border with its top-left corner at `(cx, cy)`:
/// the horizontal edges, then the vertical ones.
pub open spec fn border_cmds_at(cx: int, cy: int, fg: TextColor, bg: TextColor) -> Seq<PlotCmd> {
    hline_upto(cx, cy, WIN_WIDTH as int, fg, bg) + vline_upto(cx, cy, WIN_HEIGHT as int, fg, bg)
}

/// The border of corner `k`.
pub open spec fn border_cmds(k: int, fg: TextColor, bg: TextColor) -> Seq<PlotCmd> {
    border_cmds_at(corner_col(k), corner_row(k), fg, bg)
}

/// All four borders in the neutral color.
pub open spec fn all_border_cmds() -> Seq<PlotCmd> {
    border_cmds(0, TextColor::White, TextColor::Black) + border_cmds(
        1,
        TextColor::White,
        TextColor::Black,
    ) + border_cmds(2, TextColor::White, TextColor::Black) + border_cmds(
        3,
        TextColor::White,
        TextColor::Black,
    )
}

/// The digit of window `k`'s function-key label.
pub open spec fn label_digit(k: int) -> char {
    if k == 0 {
        '1'
    } else if k == 1 {
        '2'
    } else if k == 2 {
        '3'
    } else {
        '4'
    }
}

/// Window `k`'s two-character label, centered on its border's top edge.
pub open spec fn label_cmds(k: int) -> Seq<PlotCmd> {
    seq![
        plot_at(
            'F',
            corner_col(k) + (WIN_WIDTH as int) / 2,
            corner_row(k),
            TextColor::White,
            TextColor::Black,
        ),
        plot_at(
            label_digit(k),
            corner_col(k) + (WIN_WIDTH as int) / 2 + 1,
            corner_row(k),
            TextColor::White,
            TextColor::Black,
        ),
    ]
}

/// All four labels, drawn last so no border overpaints them.
pub open spec fn all_label_cmds() -> Seq<PlotCmd> {
    label_cmds(0) + label_cmds(1) + label_cmds(2) + label_cmds(3)
}

/// The redraw step: every window's grid, the live cursor, the neutral
/// borders, the active window's highlighted border, and the labels.
pub open spec fn draw_cmds(s: SwimView) -> Seq<PlotCmd> {
    content_cmds(s) + seq![cursor_cmd(s.active_doc())] + all_border_cmds() + border_cmds(
        s.active,
        TextColor::Cyan,
        TextColor::Cyan,
    ) + all_label_cmds()
}

/// One full display refresh: erase, then redraw.
pub open spec fn tick_cmds(s: SwimView) -> Seq<PlotCmd> {
    clear_cmds(s.active_doc()) + draw_cmds(s)
}

/// The command addresses a cell that exists on the display.
pub open spec fn cmd_in_bounds(p: PlotCmd) -> bool {
    p.x < BUFFER_WIDTH && p.y < BUFFER_HEIGHT
}

/// Every command of the sequence addresses a cell on the display.
pub open spec fn cmds_in_bounds(cs: Seq<PlotCmd>) -> bool {
    forall|i: int| 0 <= i < cs.len() ==> cmd_in_bounds(#[trigger] cs[i])
}

proof fn lemma_concat_in_bounds(a: Seq<PlotCmd>, b: Seq<PlotCmd>)
    requires
        cmds_in_bounds(a),
        cmds_in_bounds(b),
    ensures
        cmds_in_bounds(a + b),
{
    assert forall|i: int| 0 <= i < (a + b).len() implies cmd_in_bounds(#[trigger] (a + b)[i]) by {
        if i < a.len() {
            assert((a + b)[i] == a[i]);
        } else {
            assert((a + b)[i] == b[i - a.len()]);
        }
    }
}

proof fn lemma_hline_in_bounds(cx: int, cy: int, n: int, fg: TextColor, bg: TextColor)
    requires
        0 <= cx,
        0 <= cy,
        cx + n <= BUFFER_WIDTH,
        cy + WIN_HEIGHT < BUFFER_HEIGHT,
    ensures
        cmds_in_bounds(hline_upto(cx, cy, n, fg, bg)),
    decreases n,
{
    if n > 0 {
        lemma_hline_in_bounds(cx, cy, n - 1, fg, bg);
        assert(cmds_in_bounds(hline_pair(cx, cy, n - 1, fg, bg)));
        lemma_concat_in_bounds(
            hline_upto(cx, cy, n - 1, fg, bg),
            hline_pair(cx, cy, n - 1, fg, bg),
        );
    }
}

proof fn lemma_vline_in_bounds(cx: int, cy: int, n: int, fg: TextColor, bg: TextColor)
    requires
        0 <= cx,
        0 <= cy,
        cx + WIN_WIDTH <= BUFFER_WIDTH,
        cy + n <= BUFFER_HEIGHT,
    ensures
        cmds_in_bounds(vline_upto(cx, cy, n, fg, bg)),
    decreases n,
{
    if n > 0 {
        lemma_vline_in_bounds(cx, cy, n - 1, fg, bg);
        assert(cmds_in_bounds(vline_pair(cx, cy, n - 1, fg, bg)));
        lemma_concat_in_bounds(
            vline_upto(cx, cy, n - 1, fg, bg),
            vline_pair(cx, cy, n - 1, fg, bg),
        );
    }
}

proof fn lemma_border_in_bounds(k: int, fg: TextColor, bg: TextColor)
    requires
        0 <= k < 4,
    ensures
        cmds_in_bounds(border_cmds(k, fg, bg)),
{
    lemma_hline_in_bounds(corner_col(k), corner_row(k), WIN_WIDTH as int, fg, bg);
    lemma_vline_in_bounds(corner_col(k), corner_row(k), WIN_HEIGHT as int, fg, bg);
    lemma_concat_in_bounds(
        hline_upto(corner_col(k), corner_row(k), WIN_WIDTH as int, fg, bg),
        vline_upto(corner_col(k), corner_row(k), WIN_HEIGHT as int, fg, bg),
    );
}

proof fn lemma_window_in_bounds(d: DocView, nrows: int)
    requires
        d.inv(),
        nrows <= WIN_HEIGHT,
    ensures
        cmds_in_bounds(window_cmds_upto(d, nrows)),
    decreases nrows,
{
    if nrows > 0 {
        lemma_window_in_bounds(d, nrows - 1);
        assert(cmds_in_bounds(row_cmds(d, nrows - 1)));
        lemma_concat_in_bounds(window_cmds_upto(d, nrows - 1), row_cmds(d, nrows - 1));
    }
}

proof fn lemma_clear_cmds_in_bounds(d: DocView)
    requires
        d.inv(),
    ensures
        cmds_in_bounds(clear_cmds(d)),
{
}

proof fn lemma_draw_cmds_in_bounds(s: SwimView)
    requires
        s.inv(),
    ensures
        cmds_in_bounds(draw_cmds(s)),
{
    let d = s.active_doc();
    lemma_window_in_bounds(s.windows[0], WIN_HEIGHT as int);
    lemma_window_in_bounds(s.windows[1], WIN_HEIGHT as int);
    lemma_window_in_bounds(s.windows[2], WIN_HEIGHT as int);
    lemma_window_in_bounds(s.windows[3], WIN_HEIGHT as int);
    lemma_concat_in_bounds(window_cmds(s.windows[0]), window_cmds(s.windows[1]));
    lemma_concat_in_bounds(
        window_cmds(s.windows[0]) + window_cmds(s.windows[1]),
        window_cmds(s.windows[2]),
    );
    lemma_concat_in_bounds(
        window_cmds(s.windows[0]) + window_cmds(s.windows[1]) + window_cmds(s.windows[2]),
        window_cmds(s.windows[3]),
    );
    assert(cmds_in_bounds(seq![cursor_cmd(d)]));
    lemma_concat_in_bounds(content_cmds(s), seq![cursor_cmd(d)]);
    lemma_border_in_bounds(0, TextColor::White, TextColor::Black);
    lemma_border_in_bounds(1, TextColor::White, TextColor::Black);
    lemma_border_in_bounds(2, TextColor::White, TextColor::Black);
    lemma_border_in_bounds(3, TextColor::White, TextColor::Black);
    lemma_concat_in_bounds(
        border_cmds(0, TextColor::White, TextColor::Black),
        border_cmds(1, TextColor::White, TextColor::Black),
    );
    lemma_concat_in_bounds(
        border_cmds(0, TextColor::White, TextColor::Black) + border_cmds(
            1,
            TextColor::White,
            TextColor::Black,
        ),
        border_cmds(2, TextColor::White, TextColor::Black),
    );
    lemma_concat_in_bounds(
        border_cmds(0, TextColor::White, TextColor::Black) + border_cmds(
            1,
            TextColor::White,
            TextColor::Black,
        ) + border_cmds(2, TextColor::White, TextColor::Black),
        border_cmds(3, TextColor::White, TextColor::Black),
    );
    lemma_concat_in_bounds(content_cmds(s) + seq![cursor_cmd(d)], all_border_cmds());
    lemma_border_in_bounds(s.active, TextColor::Cyan, TextColor::Cyan);
    lemma_concat_in_bounds(
        content_cmds(s) + seq![cursor_cmd(d)] + all_border_cmds(),
        border_cmds(s.active, TextColor::Cyan, TextColor::Cyan),
    );
    assert(cmds_in_bounds(all_label_cmds()));
    lemma_concat_in_bounds(
        content_cmds(s) + seq![cursor_cmd(d)] + all_border_cmds() + border_cmds(
            s.active,
            TextColor::Cyan,
            TextColor::Cyan,
        ),
        all_label_cmds(),
    );
}

/// Every plot command of a tick addresses a cell on the display: even the
/// modular wraparound columns, and every window's footprint, stay inside
/// the display's width and height.
pub proof fn lemma_tick_cmds_in_bounds(s: SwimView)
    requires
        s.inv(),
    ensures
        cmds_in_bounds(tick_cmds(s)),
{
    lemma_clear_cmds_in_bounds(s.active_doc());
    lemma_draw_cmds_in_bounds(s);
    lemma_concat_in_bounds(clear_cmds(s.active_doc()), draw_cmds(s));
}

/// Every plot command a keyboard event causes addresses a cell on the
/// display: a named key draws nothing, and what a committed character
/// draws stays inside the display's width and height.
pub proof fn lemma_event_cmds_in_bounds(s: SwimView, e: KeyEvent)
    requires
        s.inv(),
    ensures
        cmds_in_bounds(spec_event_cmds(s, e)),
{
    match e {
        KeyEvent::Raw(_) => {},
        KeyEvent::Unicode(c) => {
            let s1 = if c == '\n' {
                spec_modify(s, c)
            } else {
                s
            };
            if c == '\n' {
                lemma_modify_preserves_inv(s, c);
            }
            if drawable(c) && s1.active_doc().cursor_col < BUFFER_WIDTH {
                lemma_clear_cmds_in_bounds(s1.active_doc());
                lemma_modify_preserves_inv(s1, c);
                lemma_draw_cmds_in_bounds(spec_modify(s1, c));
                lemma_concat_in_bounds(
                    clear_cmds(s1.active_doc()),
                    draw_cmds(spec_modify(s1, c)),
                );
            }
        },
    }
}

impl SwimInterface {
    /// The erase step of the active window, appended to `out`.
    #[verifier::loop_isolation(false)]
    pub(crate) fn clear_current(&self, out: &mut Vec<PlotCmd>)
        requires
            self@.inv(),
        ensures
            final(out)@ == old(out)@ + clear_cmds(self@.active_doc()),
    {
        let ghost d = self@.active_doc();
        let doc = self.window(self.current_window());
        let n = doc.cursor_col();
        let oc = doc.origin_col();
        let mut i: usize = 0;
        while i < n
            invariant
                i <= n,
                out@ == old(out)@ + Seq::new(i as nat, |k: int| erase_letter_cmd(d, k)),
            decreases n - i,
        {
            let x = safe_add::<BUFFER_WIDTH>(i, oc);
            out.push(
                PlotCmd {
                    glyph: ' ',
                    x,
                    y: doc.origin_row(),
                    fg: TextColor::Black,
                    bg: TextColor::Black,
                },
            );
            i = i + 1;
            proof {
                assert(Seq::new(i as nat, |k: int| erase_letter_cmd(d, k)) =~= Seq::new(
                    (i - 1) as nat,
                    |k: int| erase_letter_cmd(d, k),
                ).push(erase_letter_cmd(d, i - 1)));
            }
        }
        let cx = safe_add::<BUFFER_WIDTH>(n, oc);
        out.push(
            PlotCmd {
                glyph: ' ',
                x: cx,
                y: doc.origin_row() + doc.cursor_row(),
                fg: TextColor::Black,
                bg: TextColor::Black,
            },
        );
        proof {
            assert(out@ =~= old(out)@ + clear_cmds(d));
        }
    }

    /// Window `w`'s whole grid painted at its origin, appended to `out`.
    #[verifier::loop_isolation(false)]
    fn draw_window(&self, w: usize, out: &mut Vec<PlotCmd>)
        requires
            self@.inv(),
            w < 4,
        ensures
            final(out)@ == old(out)@ + window_cmds(self@.windows[w as int]),
    {
        let ghost d = self@.windows[w as int];
        let doc = self.window(w);
        let mut r: usize = 0;
        while r < WIN_HEIGHT
            invariant
                r <= WIN_HEIGHT,
                out@ == old(out)@ + window_cmds_upto(d, r as int),
            decreases WIN_HEIGHT - r,
        {
            let mut c: usize = 0;
            while c < WIN_WIDTH
                invariant
                    r < WIN_HEIGHT,
                    c <= WIN_WIDTH,
                    out@ == old(out)@ + window_cmds_upto(d, r as int) + row_cmds(d, r as int).take(
                        c as int,
                    ),
                decreases WIN_WIDTH - c,
            {
                out.push(
                    PlotCmd {
                        glyph: doc.char_at(r, c),
                        x: c + doc.origin_col(),
                        y: r + doc.origin_row(),
                        fg: TextColor::Cyan,
                        bg: TextColor::Black,
                    },
                );
                c = c + 1;
                proof {
                    assert(row_cmds(d, r as int).take(c as int) =~= row_cmds(d, r as int).take(
                        c - 1,
                    ).push(content_cmd(d, r as int, c - 1)));
                    assert(out@ =~= old(out)@ + window_cmds_upto(d, r as int) + row_cmds(
                        d,
                        r as int,
                    ).take(c as int));
                }
            }
            r = r + 1;
            proof {
                assert(row_cmds(d, r - 1).take(WIN_WIDTH as int) =~= row_cmds(d, r - 1));
                assert(out@ =~= old(out)@ + window_cmds_upto(d, r as int));
            }
        }
    }

    /// A dotted border at `(cx, cy)`, appended to `out`.
    #[verifier::loop_isolation(false)]
    fn draw_border(cx: usize, cy: usize, fg: TextColor, bg: TextColor, out: &mut Vec<PlotCmd>)
        requires
            cx + WIN_WIDTH <= BUFFER_WIDTH,
            cy + WIN_HEIGHT < BUFFER_HEIGHT,
        ensures
            final(out)@ == old(out)@ + border_cmds_at(cx as int, cy as int, fg, bg),
    {
        let mut i: usize = 0;
        while i < WIN_WIDTH
            invariant
                i <= WIN_WIDTH,
                out@ == old(out)@ + hline_upto(cx as int, cy as int, i as int, fg, bg),
            decreases WIN_WIDTH - i,
        {
            out.push(PlotCmd { glyph: '.', x: cx + i, y: cy, fg, bg });
            out.push(PlotCmd { glyph: '.', x: cx + i, y: cy + WIN_HEIGHT, fg, bg });
            i = i + 1;
            proof {
                assert(out@ =~= old(out)@ + hline_upto(cx as int, cy as int, i as int, fg, bg));
            }
        }
        let mut j: usize = 0;
        while j < WIN_HEIGHT
            invariant
                j <= WIN_HEIGHT,
                out@ == old(out)@ + hline_upto(cx as int, cy as int, WIN_WIDTH as int, fg, bg)
                    + vline_upto(cx as int, cy as int, j as int, fg, bg),
            decreases WIN_HEIGHT - j,
        {
            out.push(PlotCmd { glyph: '.', x: cx, y: cy + j, fg, bg });
            out.push(PlotCmd { glyph: '.', x: cx + WIN_WIDTH - 1, y: cy + j, fg, bg });
            j = j + 1;
            proof {
                assert(out@ =~= old(out)@ + hline_upto(cx as int, cy as int, WIN_WIDTH as int, fg, bg)
                    + vline_upto(cx as int, cy as int, j as int, fg, bg));
            }
        }
        proof {
            assert(out@ =~= old(out)@ + border_cmds_at(cx as int, cy as int, fg, bg));
        }
    }

    /// The four function-key labels, appended to `out`.
    fn draw_labels(out: &mut Vec<PlotCmd>)
        ensures
            final(out)@ == old(out)@ + all_label_cmds(),
    {
        let hw = WIN_WIDTH / 2;
        let white = TextColor::White;
        let black = TextColor::Black;
        out.push(PlotCmd { glyph: 'F', x: 1 + hw, y: 2, fg: white, bg: black });
        out.push(PlotCmd { glyph: '1', x: 2 + hw, y: 2, fg: white, bg: black });
        out.push(PlotCmd { glyph: 'F', x: WIN_WIDTH + hw, y: 2, fg: white, bg: black });
        out.push(PlotCmd { glyph: '2', x: WIN_WIDTH + hw + 1, y: 2, fg: white, bg: black });
        out.push(PlotCmd { glyph: 'F', x: 1 + hw, y: 2 + WIN_HEIGHT, fg: white, bg: black });
        out.push(PlotCmd { glyph: '3', x: 2 + hw, y: 2 + WIN_HEIGHT, fg: white, bg: black });
        out.push(PlotCmd { glyph: 'F', x: WIN_WIDTH + hw, y: 2 + WIN_HEIGHT, fg: white, bg: black });
        out.push(
            PlotCmd { glyph: '4', x: WIN_WIDTH + hw + 1, y: 2 + WIN_HEIGHT, fg: white, bg: black },
        );
        proof {
            assert(out@ =~= old(out)@ + all_label_cmds());
        }
    }

    /// The redraw step: all four grids, the cursor, the borders with the
    /// active window highlighted, and the labels, appended to `out`.
    pub(crate) fn draw_current(&self, out: &mut Vec<PlotCmd>)
        requires
            self@.inv(),
        ensures
            final(out)@ == old(out)@ + draw_cmds(self@),
    {
        self.draw_window(0, out);
        self.draw_window(1, out);
        self.draw_window(2, out);
        self.draw_window(3, out);
        let active = self.window(self.current_window());
        let cx = safe_add::<BUFFER_WIDTH>(active.cursor_col(), active.origin_col());
        out.push(
            PlotCmd {
                glyph: '|',
                x: cx,
                y: active.origin_row() + active.cursor_row(),
                fg: TextColor::Cyan,
                bg: TextColor::Cyan,
            },
        );
        Self::draw_border(1, 2, TextColor::White, TextColor::Black, out);
        Self::draw_border(WIN_WIDTH, 2, TextColor::White, TextColor::Black, out);
        Self::draw_border(1, 2 + WIN_HEIGHT, TextColor::White, TextColor::Black, out);
        Self::draw_border(WIN_WIDTH, 2 + WIN_HEIGHT, TextColor::White, TextColor::Black, out);
        let hx: usize = if self.current_window() == 1 || self.current_window() == 3 {
            WIN_WIDTH
        } else {
            1
        };
        let hy: usize = if self.current_window() >= 2 {
            2 + WIN_HEIGHT
        } else {
            2
        };
        Self::draw_border(hx, hy, TextColor::Cyan, TextColor::Cyan, out);
        Self::draw_labels(out);
        proof {
            assert(out@ =~= old(out)@ + draw_cmds(self@));
        }
    }

    /// One full display refresh: the erase step, then the redraw step, as
    /// the list of plot commands to perform in order.
    pub fn tick(&self) -> (cmds: Vec<PlotCmd>)
        requires
            self@.inv(),
        ensures
            cmds@ == tick_cmds(self@),
    {
        let mut cmds: Vec<PlotCmd> = Vec::new();
        self.clear_current(&mut cmds);
        self.draw_current(&mut cmds);
        proof {
            assert(cmds@ =~= tick_cmds(self@));
        }
        cmds
    }
}

} // verus!
