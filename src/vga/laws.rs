use vstd::prelude::*;

use crate::vga::buffer::{cell, char_of, index_of, is_stop, run_len, NEWLINE};
use crate::vga::model::{
    delete_char_spec, inserted, line_end, max_offset, new_line_spec, write_bytes_spec,
    write_char_spec, EditorState,
};
use crate::vga::{VGA_HEIGHT, VGA_WIDTH};

verus! {

/// Writing a run of non-zero bytes that fits on the cursor's row (and does
/// not reach the bottom-right cell) lays the bytes out from the cursor, in
/// the current attribute, leaves every cell before the cursor alone, and
/// leaves the cursor just after them: on the same row, or at the start of
/// the next row when the run ends at the last column.
pub proof fn lemma_write_run(st: EditorState, s: Seq<u8>)
    requires
        st.valid(),
        forall|j: int| 0 <= j < s.len() ==> s[j] != 0,
        st.x + s.len() <= VGA_WIDTH,
        st.y == VGA_HEIGHT - 1 ==> st.x + s.len() < VGA_WIDTH,
    ensures
        ({
            let r = write_bytes_spec(st, s);
            &&& r.valid()
            &&& r.color == st.color
            &&& r.line_offset == st.line_offset
            &&& forall|j: int| 0 <= j < s.len() ==> r.cells[st.pos() + j] == cell(s[j], st.color)
            &&& forall|i: int| 0 <= i < st.pos() ==> r.cells[i] == st.cells[i]
            &&& st.x + s.len() < VGA_WIDTH ==> r.x == st.x + s.len() && r.y == st.y
            &&& st.x + s.len() == VGA_WIDTH ==> r.x == 0 && r.y == st.y + 1
        }),
    decreases s.len(),
{
    if s.len() > 0 {
        let st1 = write_char_spec(st, s[0]);
        let rest = s.subrange(1, s.len() as int);
        let ins = inserted(st, cell(s[0], st.color));
        assert(ins[st.pos()] == cell(s[0], st.color));
        assert(forall|i: int| 0 <= i < st.pos() ==> ins[i] == st.cells[i]);
        assert(forall|j: int| 0 <= j < rest.len() ==> rest[j] == s[j + 1]);
        lemma_write_run(st1, rest);
        let r = write_bytes_spec(st, s);
        assert(r == write_bytes_spec(st1, rest));
        if s.len() > 1 {
            assert(st1.pos() == st.pos() + 1);
            assert forall|j: int| 0 <= j < s.len() implies r.cells[st.pos() + j] == cell(
                s[j],
                st.color,
            ) by {
                if j > 0 {
                    assert(r.cells[st1.pos() + (j - 1)] == cell(rest[j - 1], st.color));
                }
            }
        }
    }
}

/// Writing a string of fewer than `VGA_WIDTH` non-zero bytes with the cursor
/// at the top-left cell of the screen puts exactly those bytes in the first
/// cells of the screen and leaves the cursor in the column after them.
pub proof fn lemma_write_at_origin(st: EditorState, s: Seq<u8>)
    requires
        st.valid(),
        st.x == 0,
        st.y == 0,
        s.len() < VGA_WIDTH,
        forall|j: int| 0 <= j < s.len() ==> s[j] != 0,
    ensures
        forall|j: int|
            0 <= j < s.len() ==> char_of(
                #[trigger] write_bytes_spec(st, s).cells[st.first_visible() + j],
            ) == s[j],
        write_bytes_spec(st, s).x == s.len(),
        write_bytes_spec(st, s).y == 0,
{
    lemma_write_run(st, s);
    assert forall|j: int| 0 <= j < s.len() implies char_of(
        #[trigger] write_bytes_spec(st, s).cells[st.first_visible() + j],
    ) == s[j] by {
        crate::vga::buffer::lemma_cell_bits(s[j], st.color);
    }
}

/// Writing `VGA_WIDTH` characters (no zero byte, no line-break byte) from
/// the start of a row above the bottom one wraps the cursor to the start of
/// the next row, and the row then holds those characters and no line break.
pub proof fn lemma_full_row_wraps(st: EditorState, s: Seq<u8>)
    requires
        st.valid(),
        st.x == 0,
        st.y < VGA_HEIGHT - 1,
        s.len() == VGA_WIDTH,
        forall|j: int| 0 <= j < s.len() ==> s[j] != 0 && s[j] != NEWLINE,
    ensures
        write_bytes_spec(st, s).x == 0,
        write_bytes_spec(st, s).y == st.y + 1,
        write_bytes_spec(st, s).line_offset == st.line_offset,
        forall|j: int|
            0 <= j < VGA_WIDTH ==> char_of(
                #[trigger] write_bytes_spec(st, s).cells[index_of(j, st.row())],
            ) != NEWLINE,
{
    lemma_write_run(st, s);
    assert forall|j: int| 0 <= j < VGA_WIDTH implies char_of(
        #[trigger] write_bytes_spec(st, s).cells[index_of(j, st.row())],
    ) != NEWLINE by {
        crate::vga::buffer::lemma_cell_bits(s[j], st.color);
        assert(index_of(j, st.row()) == st.pos() + j);
    }
}

/// Breaking the line changes no cell that holds text on the cursor's line
/// or on any line before it.
pub proof fn lemma_new_line_keeps_text(st: EditorState)
    requires
        st.valid(),
    ensures
        new_line_spec(st).valid(),
        new_line_spec(st).row() <= st.row() + 1,
        forall|i: int|
            0 <= i < index_of(0, st.row() + 1) && !is_stop(st.cells[i]) ==> #[trigger] new_line_spec(
                st,
            ).cells[i] == st.cells[i],
{
    let p = index_of(0, st.row());
    crate::vga::buffer::lemma_run_len_bounds(st.cells, p);
}

/// Breaking the line puts a line break at the end of the text of the
/// cursor's line, where no text was, provided that cell is on the screen
/// before its bottom-right cell; no text on that line or before it changes.
pub proof fn lemma_new_line_marks_end(st: EditorState)
    requires
        st.valid(),
        !(st.y == VGA_HEIGHT - 1 && st.line_offset == max_offset()),
        line_end(st) < st.corner(),
    ensures
        is_stop(st.cells[line_end(st)]),
        char_of(new_line_spec(st).cells[line_end(st)]) == NEWLINE,
        forall|i: int|
            0 <= i < index_of(0, st.row() + 1) && !is_stop(st.cells[i]) ==> #[trigger] new_line_spec(
                st,
            ).cells[i] == st.cells[i],
{
    let p = index_of(0, st.row());
    crate::vga::buffer::lemma_run_len_bounds(st.cells, p);
    crate::vga::buffer::lemma_cell_bits(NEWLINE, st.color);
    lemma_new_line_keeps_text(st);
}

/// Breaking the line twice in a row changes no cell that held text on the
/// cursor's line or before it; in particular the first character of the
/// first line stays.
pub proof fn lemma_two_new_lines_keep_text(st: EditorState)
    requires
        st.valid(),
    ensures
        forall|i: int|
            0 <= i < index_of(0, st.row() + 1) && !is_stop(st.cells[i]) ==> #[trigger] new_line_spec(
                new_line_spec(st),
            ).cells[i] == st.cells[i],
{
    let t = new_line_spec(st);
    lemma_new_line_keeps_text(st);
    lemma_new_line_keeps_text(t);
    assert forall|i: int|
        0 <= i < index_of(0, st.row() + 1) && !is_stop(st.cells[i]) implies #[trigger] new_line_spec(
            t,
        ).cells[i] == st.cells[i] by {
        assert(t.cells[i] == st.cells[i]);
        assert(t.row() >= st.row() || t.cells == st.cells);
    }
}

/// Deleting at the start of a row that has a buffer line above it moves the
/// cursor onto that line, just after its text when the text is shorter than
/// a row, and on the last column otherwise.
pub proof fn lemma_delete_at_line_start(st: EditorState)
    requires
        st.valid(),
        st.x == 0,
        st.row() > 0,
    ensures
        delete_char_spec(st).row() == st.row() - 1,
        run_len(st.cells, index_of(0, st.row() - 1)) < VGA_WIDTH ==> delete_char_spec(st).x
            == run_len(st.cells, index_of(0, st.row() - 1)),
        run_len(st.cells, index_of(0, st.row() - 1)) >= VGA_WIDTH ==> delete_char_spec(st).x
            == VGA_WIDTH - 1,
{
}

} // verus!
