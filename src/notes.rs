use vstd::prelude::*;

verus! {

/// A note addressed to the holder of a view key.
#[derive(Debug)]
pub struct Note {
    pub id: u64,
    pub view_key: String,
    pub data: String,
}

/// Why a scan was refused.
#[derive(Debug, Clone, Copy, PartialEq, Eq, Structural)]
pub enum NoteError {
    InvalidViewKey,
    DuplicateNoteId,
}

/// Two notes of the list share an id.
pub open spec fn has_duplicate_ids(notes: Seq<Note>) -> bool {
    exists|a: int, b: int|
        0 <= a < b < notes.len() && #[trigger] notes[a].id == #[trigger] notes[b].id
}

/// The notes addressed to `view_key`, in list order.
pub open spec fn notes_for_key(notes: Seq<Note>, view_key: Seq<char>) -> Seq<Note>
    decreases notes.len(),
{
    if notes.len() == 0 {
        Seq::empty()
    } else {
        let rest = notes_for_key(notes.drop_last(), view_key);
        if notes.last().view_key@ == view_key {
            rest.push(notes.last())
        } else {
            rest
        }
    }
}

fn copy_note(n: &Note) -> (r: Note)
    ensures
        r == *n,
{
    Note { id: n.id, view_key: n.view_key.clone(), data: n.data.clone() }
}

/// Returns the notes addressed to `view_key`, in order. An empty key is
/// refused, and so is a list in which two notes share an id.
pub fn scan_notes(notes: &Vec<Note>, view_key: &str) -> (r: Result<Vec<Note>, NoteError>)
    ensures
        view_key@.len() == 0 ==> r == Err::<Vec<Note>, NoteError>(NoteError::InvalidViewKey),
        view_key@.len() > 0 && has_duplicate_ids(notes@) ==> r == Err::<Vec<Note>, NoteError>(
            NoteError::DuplicateNoteId,
        ),
        view_key@.len() > 0 && !has_duplicate_ids(notes@) ==> (r matches Ok(v) && v@
            == notes_for_key(notes@, view_key@)),
{
    if view_key.is_empty() {
        return Err(NoteError::InvalidViewKey);
    }
    let n = notes.len();
    let mut i: usize = 0;
    while i < n
        invariant
            n == notes@.len(),
            view_key@.len() > 0,
            0 <= i <= n,
            forall|a: int, b: int|
                0 <= a < b < i ==> #[trigger] notes@[a].id != #[trigger] notes@[b].id,
        decreases n - i,
    {
        let mut j: usize = 0;
        while j < i
            invariant
                n == notes@.len(),
                view_key@.len() > 0,
                0 <= j <= i < n,
                forall|a: int| 0 <= a < j ==> #[trigger] notes@[a].id != notes@[i as int].id,
            decreases i - j,
        {
            if notes[j].id == notes[i].id {
                assert(notes@[j as int].id == notes@[i as int].id);
                return Err(NoteError::DuplicateNoteId);
            }
            j = j + 1;
        }
        i = i + 1;
    }
    let key = String::from_str(view_key);
    let mut found: Vec<Note> = Vec::new();
    let mut k: usize = 0;
    while k < n
        invariant
            n == notes@.len(),
            0 <= k <= n,
            key@ == view_key@,
            found@ == notes_for_key(notes@.subrange(0, k as int), view_key@),
        decreases n - k,
    {
        let ghost prefix = notes@.subrange(0, k as int + 1);
        assert(prefix.drop_last() =~= notes@.subrange(0, k as int));
        if notes[k].view_key == key {
            found.push(copy_note(&notes[k]));
        }
        k = k + 1;
    }
    assert(notes@.subrange(0, n as int) =~= notes@);
    Ok(found)
}

} // verus!
