//! The list of recently opened documents: most recent first, one entry per
//! file path, at most [`HISTORY_CAP`] entries.

use vstd::prelude::*;
use vstd::string::*;
use crate::store::{load, IoError, Loaded, ReadFailure, Record};

verus! {

/// The largest number of entries that recording an open leaves in the list.
pub const HISTORY_CAP: usize = 50;

/// One opened document.
#[derive(Debug, Clone, PartialEq, Eq)]
pub struct PdfHistoryItem {
    pub id: String,
    pub name: String,
    /// Absolute path of the file; the key by which entries are told apart.
    pub path: String,
    /// When the document was last opened, in milliseconds since the epoch.
    pub open_time: u64,
    pub total_pages: Option<u32>,
}

/// What a [`PdfHistoryItem`] holds, as mathematical values.
pub ghost struct PdfHistoryItemView {
    pub id: Seq<char>,
    pub name: Seq<char>,
    pub path: Seq<char>,
    pub open_time: u64,
    pub total_pages: Option<u32>,
}

impl View for PdfHistoryItem {
    type V = PdfHistoryItemView;

    open spec fn view(&self) -> PdfHistoryItemView {
        PdfHistoryItemView {
            id: self.id@,
            name: self.name@,
            path: self.path@,
            open_time: self.open_time,
            total_pages: self.total_pages,
        }
    }
}

/// The history record. Its fields are open: a record read from disk or set
/// wholesale by a caller may hold anything, also more than [`HISTORY_CAP`]
/// entries or one path twice. Only [`add_pdf_to_history`] maintains the list:
/// of one that started empty and was changed by nothing else,
/// [`is_maintained`] holds.
#[derive(Debug, Clone, PartialEq, Eq)]
pub struct PdfHistory {
    pub items: Vec<PdfHistoryItem>,
}

impl View for PdfHistory {
    type V = Seq<PdfHistoryItemView>;

    open spec fn view(&self) -> Seq<PdfHistoryItemView> {
        item_views(self.items@)
    }
}

/// The history record under the name that the store's commands use.
pub type PdfHistoryData = PdfHistory;

/// What an operation on the history store can fail with.
#[derive(Debug, Clone, PartialEq, Eq)]
pub enum HistoryError {
    /// The history could not be written to its store.
    Write(IoError),
    /// The history could not be written after an open was recorded.
    Record(IoError),
}

/// The entries of a list, each by its view.
pub open spec fn item_views(items: Seq<PdfHistoryItem>) -> Seq<PdfHistoryItemView> {
    items.map_values(|e: PdfHistoryItem| e@)
}

/// `i` is the position of the first entry of `items` with the path `path`.
pub open spec fn is_first_with_path(items: Seq<PdfHistoryItemView>, path: Seq<char>, i: int) -> bool {
    &&& 0 <= i < items.len()
    &&& items[i].path == path
    &&& forall|j: int| 0 <= j < i ==> items[j].path != path
}

/// Some entry of `items` has the path `path`.
pub open spec fn has_path(items: Seq<PdfHistoryItemView>, path: Seq<char>) -> bool {
    exists|i: int| 0 <= i < items.len() && (#[trigger] items[i]).path == path
}

/// `items` without its first entry with the path `path`; `items` itself where
/// there is none.
pub open spec fn without_path(items: Seq<PdfHistoryItemView>, path: Seq<char>) -> Seq<
    PdfHistoryItemView,
> {
    if exists|i: int| is_first_with_path(items, path, i) {
        items.remove(choose|i: int| is_first_with_path(items, path, i))
    } else {
        items
    }
}

/// The list after `entry` was opened: `entry` in front, the earlier entry with
/// its path gone, and the tail beyond [`HISTORY_CAP`] entries cut off.
pub open spec fn record_open(items: Seq<PdfHistoryItemView>, entry: PdfHistoryItemView) -> Seq<
    PdfHistoryItemView,
> {
    let listed = seq![entry] + without_path(items, entry.path);
    if listed.len() > HISTORY_CAP {
        listed.subrange(0, HISTORY_CAP as int)
    } else {
        listed
    }
}

/// No two entries of `items` have the same path.
pub open spec fn distinct_paths(items: Seq<PdfHistoryItemView>) -> bool {
    forall|i: int, j: int|
        0 <= i < j < items.len() ==> (#[trigger] items[i]).path != (#[trigger] items[j]).path
}

/// The list is as [`add_pdf_to_history`] keeps it: no path twice, and at most
/// [`HISTORY_CAP`] entries.
pub open spec fn is_maintained(items: Seq<PdfHistoryItemView>) -> bool {
    distinct_paths(items) && items.len() <= HISTORY_CAP
}

/// The list that is left when the entries of `opened` are recorded one after
/// the other, first to last, starting from an empty history.
pub open spec fn replay(opened: Seq<PdfHistoryItemView>) -> Seq<PdfHistoryItemView>
    decreases opened.len(),
{
    if opened.len() == 0 {
        Seq::empty()
    } else {
        record_open(replay(opened.drop_last()), opened.last())
    }
}

/// The position in `opened` of the last entry with the path `path`; `-1`
/// where no entry has it.
pub open spec fn last_opened(opened: Seq<PdfHistoryItemView>, path: Seq<char>) -> int
    decreases opened.len(),
{
    if opened.len() == 0 {
        -1
    } else if opened.last().path == path {
        opened.len() - 1
    } else {
        last_opened(opened.drop_last(), path)
    }
}

impl Default for PdfHistory {
    /// The history of a fresh installation: no entries.
    fn default() -> (history: PdfHistory)
        ensures
            history@ == Seq::<PdfHistoryItemView>::empty(),
            is_maintained(history@),
    {
        let history = PdfHistory { items: Vec::new() };
        assert(history@ =~= Seq::<PdfHistoryItemView>::empty());
        history
    }
}

impl Record for PdfHistory {
    open spec fn default_view() -> Seq<PdfHistoryItemView> {
        Seq::empty()
    }

    fn default_record() -> (record: PdfHistory) {
        PdfHistory::default()
    }
}

/// Where the first entry with the path `path` stands, if there is one.
fn position_of_path(items: &Vec<PdfHistoryItem>, path: &String) -> (found: Option<usize>)
    ensures
        match found {
            Some(i) => is_first_with_path(item_views(items@), path@, i as int),
            None => forall|j: int| 0 <= j < items.len() ==> items[j].path@ != path@,
        },
{
    let mut i: usize = 0;
    while i < items.len()
        invariant
            i <= items.len(),
            forall|j: int| 0 <= j < i ==> items[j].path@ != path@,
        decreases items.len() - i,
    {
        if items[i].path == *path {
            return Some(i);
        }
        i += 1;
    }
    None
}

/// Records that `item` was opened: an earlier entry with the same path is
/// dropped, `item` goes to the front, and the list is cut to
/// [`HISTORY_CAP`] entries.
pub fn add_pdf_to_history(history: &mut PdfHistory, item: PdfHistoryItem)
    ensures
        final(history)@ == record_open(old(history)@, item@),
        final(history)@[0] == item@,
        1 <= final(history)@.len() <= HISTORY_CAP,
        distinct_paths(old(history)@) ==> is_maintained(final(history)@),
{
    let ghost before = history@;
    let ghost entry = item@;
    proof {
        law_opened_entry_is_first(before, entry);
        if distinct_paths(before) {
            law_paths_stay_distinct(before, entry);
        }
    }
    let found = position_of_path(&history.items, &item.path);
    match found {
        Some(i) => {
            proof {
                lemma_first_is_chosen(before, entry.path, i as int);
            }
            history.items.remove(i);
            assert(history@ =~= before.remove(i as int));
        },
        None => {
            assert(!exists|i: int| is_first_with_path(before, entry.path, i));
        },
    }
    assert(history@ == without_path(before, entry.path));
    history.items.insert(0, item);
    assert(history@ =~= seq![entry] + without_path(before, entry.path));
    if history.items.len() > HISTORY_CAP {
        history.items.truncate(HISTORY_CAP);
        assert(history@ =~= (seq![entry] + without_path(before, entry.path)).subrange(
            0,
            HISTORY_CAP as int,
        ));
    }
}

/// Decides what a read of the history store yields: the stored history, or
/// an empty one where none could be read.
pub fn read_pdf_history(found: Result<PdfHistory, ReadFailure>) -> (loaded: Loaded<PdfHistory>)
    ensures
        match found {
            Ok(history) => loaded == Loaded::Stored(history),
            Err(failure) => loaded matches Loaded::Fallback(history, reason) && reason == failure
                && history@ == Seq::<PdfHistoryItemView>::empty(),
        },
{
    load(found)
}

/// Reports how writing a history to its store ended. The history is written
/// as it was handed in: this replaces the record as a whole and neither cuts
/// it to [`HISTORY_CAP`] entries nor looks for paths that occur twice.
pub fn set_pdf_history(written: Result<(), IoError>) -> (result: Result<(), HistoryError>)
    ensures
        match written {
            Ok(_) => result == Ok::<(), HistoryError>(()),
            Err(error) => result == Err::<(), HistoryError>(HistoryError::Write(error)),
        },
{
    match written {
        Ok(_) => Ok(()),
        Err(error) => Err(HistoryError::Write(error)),
    }
}

/// Reports how writing the history ended after [`add_pdf_to_history`].
pub fn finish_add(written: Result<(), IoError>) -> (result: Result<(), HistoryError>)
    ensures
        match written {
            Ok(_) => result == Ok::<(), HistoryError>(()),
            Err(error) => result == Err::<(), HistoryError>(HistoryError::Record(error)),
        },
{
    match written {
        Ok(_) => Ok(()),
        Err(error) => Err(HistoryError::Record(error)),
    }
}

impl HistoryError {
    /// What the user is told: which operation failed, and the cause.
    pub open spec fn message_text(self) -> Seq<char> {
        match self {
            HistoryError::Write(error) => "Failed to write PDF history: "@ + error.cause@,
            HistoryError::Record(error) => "Failed to save history: "@ + error.cause@,
        }
    }

    /// What the user is told.
    pub fn message(&self) -> (text: String)
        ensures
            text@ == self.message_text(),
    {
        match self {
            HistoryError::Write(error) => String::from_str("Failed to write PDF history: ").concat(
                error.cause.as_str(),
            ),
            HistoryError::Record(error) => String::from_str("Failed to save history: ").concat(
                error.cause.as_str(),
            ),
        }
    }
}

/// Whatever the list held, the opened entry stands first afterwards, and the
/// list holds at most [`HISTORY_CAP`] entries and at most one more than
/// before.
pub proof fn law_opened_entry_is_first(items: Seq<PdfHistoryItemView>, entry: PdfHistoryItemView)
    ensures
        1 <= record_open(items, entry).len() <= HISTORY_CAP,
        record_open(items, entry).len() <= items.len() + 1,
        record_open(items, entry)[0] == entry,
{
}

/// Recording an open never leaves a path twice in a list that held none
/// twice, and leaves the opened entry as the only one with its path.
pub proof fn law_paths_stay_distinct(items: Seq<PdfHistoryItemView>, entry: PdfHistoryItemView)
    requires
        distinct_paths(items),
    ensures
        distinct_paths(record_open(items, entry)),
        forall|j: int|
            1 <= j < record_open(items, entry).len() ==> (#[trigger] record_open(
                items,
                entry,
            )[j]).path != entry.path,
{
    let kept = without_path(items, entry.path);
    lemma_has_path_has_first(items, entry.path);
    if exists|i: int| is_first_with_path(items, entry.path, i) {
        let i = choose|i: int| is_first_with_path(items, entry.path, i);
        assert forall|j: int| 0 <= j < kept.len() implies (#[trigger] kept[j]).path
            != entry.path by {
            if j < i {
                assert(kept[j] == items[j]);
            } else {
                assert(kept[j] == items[j + 1]);
            }
        }
        assert forall|a: int, b: int| 0 <= a < b < kept.len() implies (#[trigger] kept[a]).path != (
        #[trigger] kept[b]).path by {
            let a0 = if a < i { a } else { a + 1 };
            let b0 = if b < i { b } else { b + 1 };
            assert(kept[a] == items[a0]);
            assert(kept[b] == items[b0]);
        }
    } else {
        assert forall|j: int| 0 <= j < kept.len() implies (#[trigger] kept[j]).path
            != entry.path by {
            if kept[j].path == entry.path {
                assert(has_path(items, entry.path));
            }
        }
    }
    let listed = seq![entry] + kept;
    assert forall|a: int, b: int| 0 <= a < b < listed.len() implies (#[trigger] listed[a]).path != (
    #[trigger] listed[b]).path by {
        assert(listed[b] == kept[b - 1]);
        if a > 0 {
            assert(listed[a] == kept[a - 1]);
        }
    }
}

/// A list of [`HISTORY_CAP`] entries loses exactly its last one, the one
/// opened longest ago, when a path that it does not hold is opened.
pub proof fn law_new_path_evicts_oldest(items: Seq<PdfHistoryItemView>, entry: PdfHistoryItemView)
    requires
        items.len() == HISTORY_CAP,
        !has_path(items, entry.path),
    ensures
        record_open(items, entry) == seq![entry] + items.drop_last(),
{
    lemma_has_path_has_first(items, entry.path);
    assert(record_open(items, entry) =~= seq![entry] + items.drop_last());
}

/// Opening a path that the list already holds moves it to the front with the
/// new entry's values, keeps the others in their order, and does not make
/// the list longer.
pub proof fn law_reopened_path_moves_to_front(
    items: Seq<PdfHistoryItemView>,
    entry: PdfHistoryItemView,
    i: int,
)
    requires
        is_first_with_path(items, entry.path, i),
    ensures
        record_open(items, entry)[0] == entry,
        record_open(items, entry).len() <= items.len(),
        items.len() <= HISTORY_CAP ==> record_open(items, entry) == seq![entry] + items.remove(i),
{
    lemma_first_is_chosen(items, entry.path, i);
}

/// After any run of opens from an empty history the list holds no path
/// twice, holds at most [`HISTORY_CAP`] entries, and starts with the entry
/// opened last.
pub proof fn law_replay_is_maintained(opened: Seq<PdfHistoryItemView>)
    ensures
        is_maintained(replay(opened)),
        replay(opened).len() <= opened.len(),
        opened.len() > 0 ==> replay(opened).len() > 0 && replay(opened)[0] == opened.last(),
    decreases opened.len(),
{
    if opened.len() > 0 {
        law_replay_is_maintained(opened.drop_last());
        law_paths_stay_distinct(replay(opened.drop_last()), opened.last());
        law_opened_entry_is_first(replay(opened.drop_last()), opened.last());
    }
}

/// After any run of opens from an empty history the list is ordered by
/// recency: each entry is the last one opened with its path, and of two
/// entries the one further to the front was opened later.
pub proof fn law_replay_is_ordered_by_recency(opened: Seq<PdfHistoryItemView>)
    ensures
        forall|i: int|
            0 <= i < replay(opened).len() ==> {
                let k = last_opened(opened, (#[trigger] replay(opened)[i]).path);
                0 <= k < opened.len() && opened[k] == replay(opened)[i]
            },
        forall|i: int, j: int|
            0 <= i < j < replay(opened).len() ==> last_opened(
                opened,
                (#[trigger] replay(opened)[i]).path,
            ) > last_opened(opened, (#[trigger] replay(opened)[j]).path),
    decreases opened.len(),
{
    if opened.len() > 0 {
        let earlier = opened.drop_last();
        let entry = opened.last();
        let before = replay(earlier);
        let after = replay(opened);
        let kept = without_path(before, entry.path);
        law_replay_is_ordered_by_recency(earlier);
        law_replay_is_maintained(earlier);
        law_paths_stay_distinct(before, entry);
        // Where each entry behind the front stood before the open.
        let shift = if exists|i: int| is_first_with_path(before, entry.path, i) {
            choose|i: int| is_first_with_path(before, entry.path, i)
        } else {
            before.len() as int
        };
        assert forall|j: int| 1 <= j < after.len() implies {
            let m = if j - 1 < shift { j - 1 } else { j };
            &&& 0 <= m < before.len()
            &&& #[trigger] after[j] == before[m]
            &&& last_opened(opened, after[j].path) == last_opened(earlier, before[m].path)
        } by {
            assert(after[j] == kept[j - 1]);
            assert(after[j].path != entry.path);
        }
        assert forall|i: int| 0 <= i < after.len() implies {
            let k = last_opened(opened, (#[trigger] after[i]).path);
            0 <= k < opened.len() && opened[k] == after[i]
        } by {
            if i > 0 {
                let m = if i - 1 < shift { i - 1 } else { i };
                assert(after[i] == before[m]);
                let k = last_opened(earlier, before[m].path);
                assert(earlier[k] == before[m]);
            }
        }
        assert forall|i: int, j: int| 0 <= i < j < after.len() implies last_opened(
            opened,
            (#[trigger] after[i]).path,
        ) > last_opened(opened, (#[trigger] after[j]).path) by {
            let n = if j - 1 < shift { j - 1 } else { j };
            assert(after[j] == before[n]);
            lemma_last_opened_in_range(earlier, before[n].path);
            if i > 0 {
                let m = if i - 1 < shift { i - 1 } else { i };
                assert(after[i] == before[m]);
            }
        }
    }
}

/// The first entry with a path is the one that [`without_path`] picks.
proof fn lemma_first_is_chosen(items: Seq<PdfHistoryItemView>, path: Seq<char>, i: int)
    requires
        is_first_with_path(items, path, i),
    ensures
        (exists|k: int| is_first_with_path(items, path, k)),
        (choose|k: int| is_first_with_path(items, path, k)) == i,
{
    let k = choose|k: int| is_first_with_path(items, path, k);
    assert(is_first_with_path(items, path, k));
    if k < i {
        assert(items[k].path != path);
    } else if i < k {
        assert(items[i].path != path);
    }
}

/// Where an entry at `k` has the path, some entry is the first to have it.
proof fn lemma_first_exists(items: Seq<PdfHistoryItemView>, path: Seq<char>, k: int)
    requires
        0 <= k < items.len(),
        items[k].path == path,
    ensures
        exists|i: int| is_first_with_path(items, path, i),
    decreases k,
{
    if forall|j: int| 0 <= j < k ==> items[j].path != path {
        assert(is_first_with_path(items, path, k));
    } else {
        let j = choose|j: int| 0 <= j < k && items[j].path == path;
        lemma_first_exists(items, path, j);
    }
}

/// [`without_path`] finds an entry exactly where [`has_path`] holds.
proof fn lemma_has_path_has_first(items: Seq<PdfHistoryItemView>, path: Seq<char>)
    ensures
        has_path(items, path) <==> exists|i: int| is_first_with_path(items, path, i),
{
    if has_path(items, path) {
        let k = choose|k: int| 0 <= k < items.len() && (#[trigger] items[k]).path == path;
        lemma_first_exists(items, path, k);
    }
    if exists|i: int| is_first_with_path(items, path, i) {
        let i = choose|i: int| is_first_with_path(items, path, i);
        assert(items[i].path == path);
    }
}

/// [`last_opened`] names a position of `opened`, or `-1`.
proof fn lemma_last_opened_in_range(opened: Seq<PdfHistoryItemView>, path: Seq<char>)
    ensures
        -1 <= last_opened(opened, path) < opened.len(),
    decreases opened.len(),
{
    if opened.len() > 0 && opened.last().path != path {
        lemma_last_opened_in_range(opened.drop_last(), path);
    }
}

} // verus!
