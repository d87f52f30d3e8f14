use dirbrowse::listing::{
    error_row, render_entry, render_rows, snapshot, ChildProbe, DirectoryEntry, EntryKind,
};
use dirbrowse::timefmt::{format_timestamp, local_timestamp_text, DateTimeParts};

fn entry(name: &str, size: u64, kind: EntryKind) -> DirectoryEntry {
    DirectoryEntry {
        name: name.to_string(),
        size_bytes: size,
        modified_at: 1_700_000_000,
        created_at: 1_700_000_000,
        kind,
    }
}

#[test]
fn snapshot_keeps_known_children_in_order() {
    let children = vec![
        ChildProbe::Known(entry("a.txt", 10, EntryKind::File)),
        ChildProbe::Opaque,
        ChildProbe::Known(entry("b", 0, EntryKind::Directory)),
        ChildProbe::Opaque,
    ];
    let entries = snapshot(&children);
    assert_eq!(entries.len(), 2);
    assert_eq!(entries[0].name, "a.txt");
    assert_eq!(entries[1].name, "b");
    assert_eq!(entries[0].kind, EntryKind::File);
    assert_eq!(entries[1].kind, EntryKind::Directory);
}

#[test]
fn snapshot_of_all_opaque_children_is_empty() {
    let children = vec![ChildProbe::Opaque, ChildProbe::Opaque];
    assert_eq!(snapshot(&children).len(), 0);
}

#[test]
fn snapshot_of_no_children_is_empty() {
    let children: Vec<ChildProbe> = Vec::new();
    assert_eq!(snapshot(&children).len(), 0);
}

#[test]
fn rendered_row_carries_name_size_and_kind() {
    let row = render_entry(&entry("a.txt", 1024, EntryKind::File));
    assert_eq!(row.name, "a.txt");
    assert_eq!(row.size_text, "1 kB");
    assert_eq!(row.kind_label, "File");
    assert_eq!(row.extra_a, "");
    assert_eq!(row.extra_b, "");
}

#[test]
fn small_sizes_render_in_bytes() {
    let row = render_entry(&entry("x", 500, EntryKind::File));
    assert_eq!(row.size_text, "500 B");
}

#[test]
fn largest_size_renders_without_fault() {
    let row = render_entry(&entry("big", u64::MAX, EntryKind::File));
    assert_eq!(row.size_text, "16 EB");
}

#[test]
fn directory_rows_are_labelled_directory() {
    let row = render_entry(&entry("sub", 0, EntryKind::Directory));
    assert_eq!(row.kind_label, "Directory");
}

#[test]
fn rendered_timestamps_have_the_fixed_layout() {
    let row = render_entry(&entry("a.txt", 1, EntryKind::File));
    let text: Vec<char> = row.modified_text.chars().collect();
    assert_eq!(text.len(), 19);
    assert_eq!(text[4], '-');
    assert_eq!(text[7], '-');
    assert_eq!(text[10], ' ');
    assert_eq!(text[13], ':');
    assert_eq!(text[16], ':');
    for i in [0, 1, 2, 3, 5, 6, 8, 9, 11, 12, 14, 15, 17, 18] {
        assert!(text[i].is_ascii_digit());
    }
}

#[test]
fn render_rows_gives_one_row_per_entry() {
    let entries = vec![
        entry("a", 1, EntryKind::File),
        entry("b", 2, EntryKind::Directory),
        entry("c", 3, EntryKind::File),
    ];
    let rows = render_rows(&entries);
    assert_eq!(rows.len(), 3);
    assert_eq!(rows[0].name, "a");
    assert_eq!(rows[1].name, "b");
    assert_eq!(rows[2].name, "c");
}

#[test]
fn error_row_is_neither_file_nor_directory() {
    let row = error_row("permission denied".to_string());
    assert_eq!(row.name, "Error");
    assert_eq!(row.size_text, "permission denied");
    assert_eq!(row.kind_label, "");
    assert_eq!(row.modified_text, "");
    assert_eq!(row.created_text, "");
}

#[test]
fn format_timestamp_lays_fields_out_exactly() {
    let p = DateTimeParts { year: 2026, month: 10, day: 12, hour: 8, minute: 30, second: 5 };
    assert_eq!(format_timestamp(&p), "2026-10-12 08:30:05");
}

#[test]
fn format_timestamp_pads_small_years() {
    let p = DateTimeParts { year: 33, month: 1, day: 2, hour: 3, minute: 4, second: 5 };
    assert_eq!(format_timestamp(&p), "0033-01-02 03:04:05");
}

#[test]
fn local_timestamp_text_of_epoch_is_well_formed() {
    let text = local_timestamp_text(0);
    let chars: Vec<char> = text.chars().collect();
    assert_eq!(chars.len(), 19);
    assert_eq!(chars[4], '-');
    assert_eq!(chars[10], ' ');
    // The local calendar year of the Unix epoch is 1969 or 1970.
    let year: String = chars[0..4].iter().collect();
    assert!(year == "1969" || year == "1970");
}
