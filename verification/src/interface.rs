//! The multi-window controller: four documents, one active, with the
//! routing of keyboard events to the active document and the one-time
//! origin fix-up a window receives on first focus while still empty.

use vstd::prelude::*;

use crate::display::{drawable, is_drawable, PlotCmd, BUFFER_WIDTH};
use crate::document::{default_doc, spec_append, DocView, Document};
use crate::render::{clear_cmds, draw_cmds};

verus! {

/// The keyboard decoder's event type.
///
/// Relies on `pc_keyboard::DecodedKey` only as an opaque tagged value;
/// what the editor reads of it is translated by [`decode_key`].
#[verifier::external_type_specification]
#[verifier::external_body]
pub struct ExDecodedKey(pc_keyboard::DecodedKey);

/// A named key, as far as the editor distinguishes them: one of the four
/// window-selecting function keys, or any other named key, all of which
/// the editor ignores.
#[derive(Clone, Copy, PartialEq, Eq, Structural, Debug)]
pub enum RawKey {
    F1,
    F2,
    F3,
    F4,
    Other,
}

/// A decoded keyboard event: a named key, or a decoded character.
#[derive(Clone, Copy, PartialEq, Eq, Structural, Debug)]
pub enum KeyEvent {
    Raw(RawKey),
    Unicode(char),
}

/// The mathematical state of the whole editor: the four windows'
/// documents, and which of them is active.
pub struct SwimView {
    pub windows: Seq<DocView>,
    pub active: int,
}

impl SwimView {
    /// Well-formedness: exactly four windows, each well formed, and the
    /// active index among them.
    pub open spec fn inv(self) -> bool {
        &&& self.windows.len() == 4
        &&& (forall|i: int| 0 <= i < 4 ==> (#[trigger] self.windows[i]).inv())
        &&& 0 <= self.active < 4
    }

    /// The document of the active window.
    pub open spec fn active_doc(self) -> DocView {
        self.windows[self.active]
    }
}

/// The editor as first constructed: four blank documents at the default
/// origin, window 0 active.
pub open spec fn default_swim() -> SwimView {
    SwimView { windows: Seq::new(4, |i: int| default_doc()), active: 0 }
}

/// The one-time origin fix-up of window `w` on first focus: window 0
/// keeps the default origin; window 1 moves to the right column, window 2
/// to the lower row, window 3 to both.
pub open spec fn relocated(d: DocView, w: int) -> DocView {
    if w == 1 {
        DocView { origin_col: 26, ..d }
    } else if w == 2 {
        DocView { origin_row: 13, ..d }
    } else if w == 3 {
        DocView { origin_col: 26, origin_row: 13, ..d }
    } else {
        d
    }
}

/// What selecting window `w` does: it becomes active, and — only while
/// still empty — its origin is moved to its designated place. A window
/// holding any content keeps its origin forever.
pub open spec fn spec_select(s: SwimView, w: int) -> SwimView {
    let d = s.windows[w];
    SwimView {
        active: w,
        windows: if d.is_empty() {
            s.windows.update(w, relocated(d, w))
        } else {
            s.windows
        },
    }
}

/// What a named key does: a function key selects its window; every other
/// named key is ignored.
pub open spec fn spec_handle_raw(s: SwimView, key: RawKey) -> SwimView {
    match key {
        RawKey::F1 => spec_select(s, 0),
        RawKey::F2 => spec_select(s, 1),
        RawKey::F3 => spec_select(s, 2),
        RawKey::F4 => spec_select(s, 3),
        RawKey::Other => s,
    }
}

/// What appending a character does: the active document takes it under
/// the wrap rules; the other three documents are untouched.
pub open spec fn spec_modify(s: SwimView, c: char) -> SwimView {
    SwimView { windows: s.windows.update(s.active, spec_append(s.windows[s.active], c)), ..s }
}

/// What a decoded character does: a newline is committed to the active
/// document unconditionally; any other character is committed only when
/// it is drawable and the active document's column has not reached the
/// full display width; everything else is ignored.
pub open spec fn spec_handle_unicode(s: SwimView, c: char) -> SwimView {
    let s1 = if c == '\n' {
        spec_modify(s, c)
    } else {
        s
    };
    if drawable(c) && s1.active_doc().cursor_col < BUFFER_WIDTH {
        spec_modify(s1, c)
    } else {
        s1
    }
}

/// The plot commands a decoded character causes: committing a drawable
/// character erases the stale text and cursor, then redraws the whole
/// scene from the new state; every other character draws nothing.
pub open spec fn spec_unicode_cmds(s: SwimView, c: char) -> Seq<PlotCmd> {
    let s1 = if c == '\n' {
        spec_modify(s, c)
    } else {
        s
    };
    if drawable(c) && s1.active_doc().cursor_col < BUFFER_WIDTH {
        clear_cmds(s1.active_doc()) + draw_cmds(spec_modify(s1, c))
    } else {
        Seq::empty()
    }
}

/// What one keyboard event does to the editor.
pub open spec fn spec_handle_event(s: SwimView, e: KeyEvent) -> SwimView {
    match e {
        KeyEvent::Raw(k) => spec_handle_raw(s, k),
        KeyEvent::Unicode(c) => spec_handle_unicode(s, c),
    }
}

/// The plot commands one keyboard event causes: named keys draw nothing.
pub open spec fn spec_event_cmds(s: SwimView, e: KeyEvent) -> Seq<PlotCmd> {
    match e {
        KeyEvent::Raw(_) => Seq::empty(),
        KeyEvent::Unicode(c) => spec_unicode_cmds(s, c),
    }
}

/// The multi-window controller: four documents, of which exactly one is
/// active and receives keyboard input.
pub struct SwimInterface {
    windows: Vec<Document>,
    current_window: usize,
}

impl View for SwimInterface {
    type V = SwimView;

    closed spec fn view(&self) -> SwimView {
        SwimView {
            windows: self.windows@.map_values(|d: Document| d@),
            active: self.current_window as int,
        }
    }
}

impl Default for SwimInterface {
    /// Four blank windows, window 0 active.
    fn default() -> (s: Self)
        ensures
            s@ == default_swim(),
            s@.inv(),
    {
        let mut windows: Vec<Document> = Vec::new();
        windows.push(Document::default());
        windows.push(Document::default());
        windows.push(Document::default());
        windows.push(Document::default());
        let s = SwimInterface { windows, current_window: 0 };
        proof {
            assert(s@.windows =~= default_swim().windows);
        }
        s
    }
}

impl SwimInterface {
    /// Index of the active window.
    pub fn current_window(&self) -> (w: usize)
        ensures
            w == self@.active,
    {
        self.current_window
    }

    /// A borrow of window `w`'s document.
    pub fn window(&self, w: usize) -> (d: &Document)
        requires
            self@.inv(),
            w < 4,
        ensures
            d@ == self@.windows[w as int],
    {
        &self.windows[w]
    }

    /// Append `key` to the active document under the wrap rules; no cell
    /// of any other document changes, nor does the active index.
    pub fn modify_document(&mut self, key: char)
        requires
            old(self)@.inv(),
        ensures
            final(self)@ == spec_modify(old(self)@, key),
            final(self)@.inv(),
            final(self)@.active == old(self)@.active,
            forall|j: int|
                0 <= j < 4 && j != old(self)@.active ==> final(self)@.windows[j] == old(
                    self,
                )@.windows[j],
    {
        proof {
            assert(self@.windows[self.current_window as int] == self.windows@[self.current_window as int]@);
        }
        let cur_doc = &mut self.windows[self.current_window];
        cur_doc.append(key);
        proof {
            assert(self@.windows =~= spec_modify(old(self)@, key).windows);
        }
    }

    /// Make window `w` active, applying the one-time origin fix-up when
    /// that window is still empty.
    fn select_window(&mut self, w: usize)
        requires
            old(self)@.inv(),
            w < 4,
        ensures
            final(self)@ == spec_select(old(self)@, w as int),
            final(self)@.inv(),
    {
        self.current_window = w;
        proof {
            assert(self@.windows[w as int] == self.windows@[w as int]@);
        }
        let doc = &mut self.windows[w];
        if doc.is_empty() {
            if w == 1 {
                doc.set_origin_col(26);
            } else if w == 2 {
                doc.set_origin_row(13);
            } else if w == 3 {
                doc.set_origin_col(26);
                doc.set_origin_row(13);
            }
        }
        proof {
            assert(self@.windows =~= spec_select(old(self)@, w as int).windows);
        }
    }

    /// Route a named key: F1 through F4 select their window; every other
    /// named key leaves the editor unchanged.
    pub fn handle_raw(&mut self, key: RawKey)
        requires
            old(self)@.inv(),
        ensures
            final(self)@ == spec_handle_raw(old(self)@, key),
            final(self)@.inv(),
    {
        match key {
            RawKey::F1 => self.select_window(0),
            RawKey::F2 => self.select_window(1),
            RawKey::F3 => self.select_window(2),
            RawKey::F4 => self.select_window(3),
            RawKey::Other => {},
        }
    }

    /// Route a decoded character: commit it to the active document as
    /// [`spec_handle_unicode`] says, and return the plot commands the
    /// commit causes — an erase of the stale glyphs from the old state,
    /// then a full redraw from the new one.
    pub fn handle_unicode(&mut self, key: char) -> (cmds: Vec<PlotCmd>)
        requires
            old(self)@.inv(),
        ensures
            final(self)@ == spec_handle_unicode(old(self)@, key),
            final(self)@.inv(),
            cmds@ == spec_unicode_cmds(old(self)@, key),
    {
        let mut cmds: Vec<PlotCmd> = Vec::new();
        if key == '\n' {
            self.modify_document(key);
        }
        if is_drawable(key) && self.window(self.current_window()).cursor_col() < BUFFER_WIDTH {
            self.clear_current(&mut cmds);
            self.modify_document(key);
            self.draw_current(&mut cmds);
        }
        proof {
            assert(cmds@ =~= spec_unicode_cmds(old(self)@, key));
        }
        cmds
    }

    /// Route one keyboard event, named key or character, and return the
    /// plot commands it causes.
    pub fn handle_event(&mut self, event: KeyEvent) -> (cmds: Vec<PlotCmd>)
        requires
            old(self)@.inv(),
        ensures
            final(self)@ == spec_handle_event(old(self)@, event),
            final(self)@.inv(),
            cmds@ == spec_event_cmds(old(self)@, event),
    {
        match event {
            KeyEvent::Raw(k) => {
                self.handle_raw(k);
                Vec::new()
            },
            KeyEvent::Unicode(c) => self.handle_unicode(c),
        }
    }

    /// Route one event of the keyboard decoder: the editor moves by
    /// exactly the [`spec_handle_event`] step of the key's decoded event
    /// and returns that step's plot commands.
    pub fn key(&mut self, key: pc_keyboard::DecodedKey) -> (cmds: Vec<PlotCmd>)
        requires
            old(self)@.inv(),
        ensures
            final(self)@.inv(),
            final(self)@ == spec_handle_event(old(self)@, decoded_event(key)),
            cmds@ == spec_event_cmds(old(self)@, decoded_event(key)),
    {
        let e = decode_key(key);
        self.handle_event(e)
    }
}

/// Appending a character to the active document keeps the whole editor
/// state well formed: the wrap rules never move the cursor out of the
/// writable region, and no other window is touched.
pub proof fn lemma_modify_preserves_inv(s: SwimView, c: char)
    requires
        s.inv(),
    ensures
        spec_modify(s, c).inv(),
{
    assert forall|i: int| 0 <= i < 4 implies (#[trigger] spec_modify(s, c).windows[i]).inv() by {
        assert(s.windows[i].inv());
        if i == s.active {
            let d = s.windows[s.active];
            assert(spec_modify(s, c).windows[i] == spec_append(d, c));
            crate::document::lemma_append_preserves_inv(d, c);
        } else {
            assert(spec_modify(s, c).windows[i] == s.windows[i]);
        }
    }
}

/// Switching the active window never mutates any document's text or
/// cursor: a named key changes only which window is active and, at most,
/// the selected window's origin.
pub proof fn lemma_select_preserves_content(s: SwimView, key: RawKey)
    requires
        s.inv(),
    ensures
        ({
            let t = spec_handle_raw(s, key);
            forall|j: int|
                0 <= j < 4 ==> (#[trigger] t.windows[j]).grid == s.windows[j].grid
                    && t.windows[j].cursor_col == s.windows[j].cursor_col && t.windows[j].cursor_row
                    == s.windows[j].cursor_row
        }),
{
}

/// Focus relocation fires once: selecting window F3 while it is still
/// empty moves its origin row to the designated row; typing any committed
/// character into it and then selecting away and back moves its origin no
/// further — the emptiness test, not a flag, keeps the fix-up one-time.
pub proof fn lemma_focus_relocation_once(s: SwimView, c: char)
    requires
        s.inv(),
        s.windows[2].is_empty(),
        c == '\n' || drawable(c),
    ensures
        ({
            let after_select = spec_handle_raw(s, RawKey::F3);
            let after_type = spec_handle_unicode(after_select, c);
            let after_away = spec_handle_raw(after_type, RawKey::F1);
            let back = spec_handle_raw(after_away, RawKey::F3);
            after_select.windows[2].origin_row == 13 && back.windows[2].origin_row
                == after_select.windows[2].origin_row && back.windows[2].origin_col
                == after_select.windows[2].origin_col
        }),
{
    let after_select = spec_handle_raw(s, RawKey::F3);
    let after_type = spec_handle_unicode(after_select, c);
    let after_away = spec_handle_raw(after_type, RawKey::F1);
    let back = spec_handle_raw(after_away, RawKey::F3);
    assert(!after_type.windows[2].is_empty());
    assert(after_type.windows[2].origin_row == after_select.windows[2].origin_row);
    assert(after_type.windows[2].origin_col == after_select.windows[2].origin_col);
    assert(after_away.windows[2] == after_type.windows[2]);
    assert(back.windows[2] == after_type.windows[2]);
}

/// The library's event for a key of the keyboard decoder: the name of
/// [`decode_key`]'s result, which depends on the key alone.
pub uninterp spec fn decoded_event(key: pc_keyboard::DecodedKey) -> KeyEvent;

/// Relies on `pc_keyboard::DecodedKey` as data alone: each variant is
/// translated to the library's event type arm by arm; the four function
/// keys the editor handles keep their identity, every other named key
/// becomes [`RawKey::Other`], and a decoded character passes through.
#[verifier::external_body]
fn decode_key(key: pc_keyboard::DecodedKey) -> (e: KeyEvent)
    ensures
        e == decoded_event(key),
{
    match key {
        pc_keyboard::DecodedKey::RawKey(pc_keyboard::KeyCode::F1) => KeyEvent::Raw(RawKey::F1),
        pc_keyboard::DecodedKey::RawKey(pc_keyboard::KeyCode::F2) => KeyEvent::Raw(RawKey::F2),
        pc_keyboard::DecodedKey::RawKey(pc_keyboard::KeyCode::F3) => KeyEvent::Raw(RawKey::F3),
        pc_keyboard::DecodedKey::RawKey(pc_keyboard::KeyCode::F4) => KeyEvent::Raw(RawKey::F4),
        pc_keyboard::DecodedKey::RawKey(_) => KeyEvent::Raw(RawKey::Other),
        pc_keyboard::DecodedKey::Unicode(c) => KeyEvent::Unicode(c),
    }
}

} // verus!
