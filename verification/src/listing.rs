//! Directory snapshot listing: from probed children of a directory to the
//! display-ready table, with graceful degradation — children whose metadata
//! could not be read are skipped, and a failed enumeration becomes a single
//! error row that is neither a file nor a directory.

use vstd::prelude::*;

use crate::sizefmt;
use crate::timefmt;

verus! {

/// What one listed entry is.
#[derive(Clone, Copy, Debug, PartialEq, Eq, Structural)]
pub enum EntryKind {
    File,
    Directory,
}

/// One filesystem child of the listed path, with its metadata. Timestamps are
/// Unix seconds.
pub struct DirectoryEntry {
    pub name: String,
    pub size_bytes: u64,
    pub modified_at: i64,
    pub created_at: i64,
    pub kind: EntryKind,
}

/// One probed child as the enumeration reported it: a regular file or
/// directory whose metadata could be read, or anything else (unreadable
/// metadata, or neither file nor directory), which the listing skips.
pub enum ChildProbe {
    Known(DirectoryEntry),
    Opaque,
}

/// The outcome of enumerating a path: its children in enumeration order, or
/// the message of the failure that ended the enumeration.
pub enum ListingResult {
    Entries(Vec<DirectoryEntry>),
    Failure(String),
}

/// One display row: the columns the presentation layer shows. `kind_label` is
/// "Directory" or "File" for a real entry and empty for the error row.
pub struct Row {
    pub name: String,
    pub size_text: String,
    pub modified_text: String,
    pub created_text: String,
    pub kind_label: String,
    pub extra_a: String,
    pub extra_b: String,
}

/// The entries of the known children, one per known child, in order.
pub open spec fn kept_entries(s: Seq<ChildProbe>) -> Seq<DirectoryEntry>
    decreases s.len(),
{
    if s.len() == 0 {
        Seq::empty()
    } else {
        let head = kept_entries(s.drop_last());
        if s.last() is Known {
            head.push(s.last()->Known_0)
        } else {
            head
        }
    }
}

/// How many children of a probe sequence are known.
pub open spec fn count_known(s: Seq<ChildProbe>) -> int
    decreases s.len(),
{
    if s.len() == 0 {
        0int
    } else {
        count_known(s.drop_last()) + if s.last() is Known {
            1int
        } else {
            0int
        }
    }
}

/// The label text of an entry kind.
pub open spec fn kind_label_text(k: EntryKind) -> Seq<char> {
    match k {
        EntryKind::Directory => "Directory"@,
        EntryKind::File => "File"@,
    }
}

/// How a display row renders an entry: same name, the human-readable size
/// text of its byte count, local-time timestamp fields, its kind's label, and
/// empty reserved columns.
pub open spec fn row_renders(e: DirectoryEntry, r: Row) -> bool {
    &&& r.name == e.name
    &&& r.size_text@ == sizefmt::human_size_text(e.size_bytes)
    &&& timefmt::timestamp_field_ok(r.modified_text@)
    &&& timefmt::timestamp_field_ok(r.created_text@)
    &&& r.kind_label@ == kind_label_text(e.kind)
    &&& r.extra_a@ == Seq::<char>::empty()
    &&& r.extra_b@ == Seq::<char>::empty()
}

/// How the single error row renders a failure message: the sentinel name
/// "Error", the message in the size column, and a kind label that is neither
/// "Directory" nor "File", so the row can never be activated as an entry.
pub open spec fn error_row_for(msg: Seq<char>, r: Row) -> bool {
    &&& r.name@ == "Error"@
    &&& r.size_text@ == msg
    &&& r.modified_text@ == Seq::<char>::empty()
    &&& r.created_text@ == Seq::<char>::empty()
    &&& r.kind_label@ == Seq::<char>::empty()
    &&& r.extra_a@ == Seq::<char>::empty()
    &&& r.extra_b@ == Seq::<char>::empty()
}

/// The snapshot of an enumeration: every known child's entry, in enumeration
/// order, each exactly once; every other child is skipped.
pub fn snapshot(children: &Vec<ChildProbe>) -> (entries: Vec<DirectoryEntry>)
    ensures
        entries@ == kept_entries(children@),
{
    let mut entries: Vec<DirectoryEntry> = Vec::new();
    let mut i: usize = 0;
    while i < children.len()
        invariant
            i <= children.len(),
            entries@ == kept_entries(children@.take(i as int)),
        decreases children.len() - i,
    {
        proof {
            assert(children@.take(i + 1 as int).drop_last() =~= children@.take(i as int));
            assert(children@.take(i + 1 as int).last() == children@[i as int]);
        }
        match &children[i] {
            ChildProbe::Known(e) => {
                entries.push(
                    DirectoryEntry {
                        name: e.name.clone(),
                        size_bytes: e.size_bytes,
                        modified_at: e.modified_at,
                        created_at: e.created_at,
                        kind: e.kind,
                    },
                );
            },
            ChildProbe::Opaque => {},
        }
        i = i + 1;
    }
    proof {
        assert(children@.take(children@.len() as int) =~= children@);
    }
    entries
}

/// Render one entry as its display row.
pub fn render_entry(e: &DirectoryEntry) -> (r: Row)
    ensures
        row_renders(*e, r),
{
    let kind_label = match e.kind {
        EntryKind::Directory => String::from_str("Directory"),
        EntryKind::File => String::from_str("File"),
    };
    Row {
        name: e.name.clone(),
        size_text: sizefmt::format_size_text(e.size_bytes),
        modified_text: timefmt::local_timestamp_text(e.modified_at),
        created_text: timefmt::local_timestamp_text(e.created_at),
        kind_label,
        extra_a: String::new(),
        extra_b: String::new(),
    }
}

/// Render every entry, one row per entry, in order.
pub fn render_rows(entries: &Vec<DirectoryEntry>) -> (rows: Vec<Row>)
    ensures
        rows@.len() == entries@.len(),
        forall|i: int| 0 <= i < entries@.len() ==> row_renders(entries@[i], #[trigger] rows@[i]),
{
    let mut rows: Vec<Row> = Vec::new();
    let mut i: usize = 0;
    while i < entries.len()
        invariant
            i <= entries.len(),
            rows@.len() == i,
            forall|j: int| 0 <= j < i ==> row_renders(entries@[j], #[trigger] rows@[j]),
        decreases entries.len() - i,
    {
        rows.push(render_entry(&entries[i]));
        i = i + 1;
    }
    rows
}

/// The single placeholder row a failed enumeration displays.
pub fn error_row(message: String) -> (r: Row)
    ensures
        error_row_for(message@, r),
{
    Row {
        name: String::from_str("Error"),
        size_text: message,
        modified_text: String::new(),
        created_text: String::new(),
        kind_label: String::new(),
        extra_a: String::new(),
        extra_b: String::new(),
    }
}

/// The snapshot has one entry per known child: the child at `i`, when known,
/// stands at position `count_known(s.take(i))` of the snapshot, unchanged.
pub proof fn lemma_snapshot_has_each_known_child(s: Seq<ChildProbe>, i: int)
    requires
        0 <= i < s.len(),
        s[i] is Known,
    ensures
        0 <= count_known(s.take(i)) < kept_entries(s).len(),
        kept_entries(s)[count_known(s.take(i))] == s[i]->Known_0,
    decreases s.len(),
{
    lemma_count_known_bounds(s.take(i));
    lemma_kept_len_is_count(s);
    if i == s.len() - 1 {
        assert(s.take(i) =~= s.drop_last());
        lemma_kept_len_is_count(s.drop_last());
    } else {
        assert(s.drop_last()[i] == s[i]);
        lemma_snapshot_has_each_known_child(s.drop_last(), i);
        assert(s.drop_last().take(i) =~= s.take(i));
        lemma_kept_len_is_count(s.drop_last());
        lemma_count_known_bounds(s.drop_last().take(i));
    }
}

/// The snapshot keeps enumeration order: two known children stand in the
/// snapshot in the order they were enumerated.
pub proof fn lemma_snapshot_keeps_order(s: Seq<ChildProbe>, i: int, j: int)
    requires
        0 <= i < j < s.len(),
        s[i] is Known,
        s[j] is Known,
    ensures
        count_known(s.take(i)) < count_known(s.take(j)),
{
    lemma_count_known_monotone(s, i, j);
}

/// The snapshot's length is the number of known children, so no child yields
/// more than one row.
pub proof fn lemma_kept_len_is_count(s: Seq<ChildProbe>)
    ensures
        kept_entries(s).len() == count_known(s),
    decreases s.len(),
{
    if s.len() > 0 {
        lemma_kept_len_is_count(s.drop_last());
    }
}

proof fn lemma_count_known_bounds(s: Seq<ChildProbe>)
    ensures
        0 <= count_known(s) <= s.len(),
    decreases s.len(),
{
    if s.len() > 0 {
        lemma_count_known_bounds(s.drop_last());
    }
}

proof fn lemma_count_known_monotone(s: Seq<ChildProbe>, i: int, j: int)
    requires
        0 <= i < j < s.len(),
        s[i] is Known,
    ensures
        count_known(s.take(i)) < count_known(s.take(j)),
    decreases j - i,
{
    assert(s.take(i + 1).drop_last() =~= s.take(i));
    assert(s.take(i + 1).last() == s[i]);
    assert(count_known(s.take(i + 1)) == count_known(s.take(i)) + 1);
    if j == i + 1 {
    } else {
        lemma_count_known_nondecreasing(s, i + 1, j);
    }
}

proof fn lemma_count_known_nondecreasing(s: Seq<ChildProbe>, i: int, j: int)
    requires
        0 <= i <= j <= s.len(),
    ensures
        count_known(s.take(i)) <= count_known(s.take(j)),
    decreases j - i,
{
    if i < j {
        assert(s.take(i + 1).drop_last() =~= s.take(i));
        assert(count_known(s.take(i + 1)) >= count_known(s.take(i)));
        lemma_count_known_nondecreasing(s, i + 1, j);
    }
}

} // verus!
