use ltrait::ui::{Buffer, Position};
use ratatui::style::Style;
use vstd::prelude::*;

verus! {

/// `ratatui::style::Style`, the terminal library's display style of a piece
/// of text. It is carried from an entry to the row drawn for it and never
/// looked into.
#[verifier::external_type_specification]
#[verifier::external_body]
pub struct ExStyle(Style);

/// `ltrait::ui::Buffer`, the launcher's display buffer: the entries merged so
/// far, in the order the sorters give them, each with its identity.
#[verifier::external_type_specification]
#[verifier::external_body]
#[verifier::reject_recursive_types(T)]
pub struct ExBuffer<T>(Buffer<T>);

/// Display text with its style.
pub type StyledText = (String, Style);

/// What the picker shows of one entry. On screen the text follows a marker
/// that tells whether the entry is the selected one.
pub struct TuiEntry {
    pub text: StyledText,
}

/// The entries of a display buffer, first to last, each with its identity.
pub uninterp spec fn buffer_entries(buf: Buffer<(TuiEntry, usize)>) -> Seq<(TuiEntry, usize)>;

/// `Buffer::len`: the number of entries the buffer holds.
#[verifier::external_body]
pub(crate) fn buffer_len(buf: &Buffer<(TuiEntry, usize)>) -> (len: usize)
    ensures
        len == buffer_entries(*buf).len(),
{
    buf.len()
}

/// `Buffer::next` with the cursor set on `index`: the entry at that place, or
/// nothing when the place is past the last entry. The buffer moves the cursor
/// one place on, which is why the last representable place is left out.
#[verifier::external_body]
pub(crate) fn buffer_get(buf: &Buffer<(TuiEntry, usize)>, index: usize) -> (entry: Option<&(TuiEntry, usize)>)
    requires
        index < usize::MAX,
    ensures
        entry == (if index < buffer_entries(*buf).len() {
            Some(&buffer_entries(*buf)[index as int])
        } else {
            None
        }),
{
    let mut pos = Position(index);
    buf.next(&mut pos)
}

/// Whether some entry of `entries` has the identity `id`.
pub open spec fn holds(entries: Seq<(TuiEntry, usize)>, id: usize) -> bool {
    exists|i: int| 0 <= i < entries.len() && (#[trigger] entries[i]).1 == id
}

/// Whether `index` is the first place of `entries` whose entry has the
/// identity `id`.
pub open spec fn is_first_with(entries: Seq<(TuiEntry, usize)>, id: usize, index: int) -> bool {
    &&& 0 <= index < entries.len()
    &&& entries[index].1 == id
    &&& forall|j: int| 0 <= j < index ==> (#[trigger] entries[j]).1 != id
}

/// The place of the selected entry: where the followed identity stands, if
/// the buffer holds it, and the first place otherwise.
pub open spec fn selected_index(entries: Seq<(TuiEntry, usize)>, selecting: Option<usize>) -> int {
    match selecting {
        Some(id) => if holds(entries, id) {
            choose|i: int| is_first_with(entries, id, i)
        } else {
            0
        },
        None => 0,
    }
}

/// The first place is the only first place.
pub proof fn lemma_first_is_unique(entries: Seq<(TuiEntry, usize)>, id: usize, i: int, j: int)
    requires
        is_first_with(entries, id, i),
        is_first_with(entries, id, j),
    ensures
        i == j,
{
    if i < j {
        assert(entries[i].1 != id);
    } else if j < i {
        assert(entries[j].1 != id);
    }
}

/// Below a place that has the identity `id` there is a first such place.
proof fn lemma_first_exists(entries: Seq<(TuiEntry, usize)>, id: usize, bound: int)
    requires
        0 <= bound < entries.len(),
        entries[bound].1 == id,
    ensures
        exists|i: int| is_first_with(entries, id, i),
    decreases bound,
{
    if exists|j: int| 0 <= j < bound && (#[trigger] entries[j]).1 == id {
        let j = choose|j: int| 0 <= j < bound && (#[trigger] entries[j]).1 == id;
        lemma_first_exists(entries, id, j);
    } else {
        assert(is_first_with(entries, id, bound));
    }
}

/// The highlight follows its identity: in every buffer that holds the followed
/// identity, the selected entry is the first one that has it.
pub proof fn lemma_selection_follows_identity(entries: Seq<(TuiEntry, usize)>, id: usize)
    requires
        holds(entries, id),
    ensures
        is_first_with(entries, id, selected_index(entries, Some(id))),
{
    let at = choose|i: int| 0 <= i < entries.len() && (#[trigger] entries[i]).1 == id;
    lemma_first_exists(entries, id, at);
}

/// Where the buffer does not hold the followed identity, the first entry is
/// the selected one.
pub proof fn lemma_selection_falls_back(entries: Seq<(TuiEntry, usize)>, id: usize)
    requires
        !holds(entries, id),
    ensures
        selected_index(entries, Some(id)) == 0,
{
}

/// The place where the identity `id` first stands in the buffer, if it does.
pub(crate) fn find(buf: &Buffer<(TuiEntry, usize)>, id: usize) -> (place: Option<usize>)
    ensures
        match place {
            Some(index) => is_first_with(buffer_entries(*buf), id, index as int),
            None => !holds(buffer_entries(*buf), id),
        },
{
    let len = buffer_len(buf);
    let mut index: usize = 0;
    while index < len
        invariant
            len == buffer_entries(*buf).len(),
            index <= len,
            forall|j: int| 0 <= j < index ==> (#[trigger] buffer_entries(*buf)[j]).1 != id,
        decreases len - index,
    {
        match buffer_get(buf, index) {
            Some(entry) => {
                if entry.1 == id {
                    return Some(index);
                }
            },
            None => {},
        }
        index += 1;
    }
    None
}

} // verus!
