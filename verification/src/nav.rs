//! Navigation controller: owns the current path, the activation detector and
//! the most recent listing, reacts to UI events, and tells its caller what
//! outside work an event calls for (re-list the current path, or open a file
//! with the default handler).

use vstd::prelude::*;

use crate::detector::ActivationState;
use crate::listing::{DirectoryEntry, EntryKind, ListingResult, Row};
use crate::listing;
use crate::pathstr;

verus! {

/// What the caller must do after an event: nothing, re-list the (possibly
/// changed) current path, or open a file with the OS default handler.
pub enum NavAction {
    Stay,
    Relist,
    OpenFile(String),
}

/// The navigation state: one instance, mutated only through its methods.
pub struct NavigationController {
    /// The path whose listing is displayed.
    pub current_path: String,
    /// The activation detector's state.
    pub detector: ActivationState,
    /// The entries of the most recent successful listing, in enumeration
    /// order; empty after a failed listing.
    pub entries: Vec<DirectoryEntry>,
}

/// What activating row `index` of `entries` under path `path` does: on a
/// directory, the current path descends into it and is re-listed; on a file,
/// the path is unchanged and the file's full path is handed out for opening;
/// an out-of-range index (the error row among them) does nothing.
pub open spec fn activation_outcome(
    path: Seq<char>,
    entries: Seq<DirectoryEntry>,
    index: int,
    new_path: Seq<char>,
    action: NavAction,
) -> bool {
    if 0 <= index < entries.len() {
        match entries[index].kind {
            EntryKind::Directory => {
                &&& new_path == pathstr::descend_path(path, entries[index].name@)
                &&& action is Relist
            },
            EntryKind::File => {
                &&& new_path == path
                &&& action matches NavAction::OpenFile(p) && p@ == pathstr::descend_path(
                    path,
                    entries[index].name@,
                )
            },
        }
    } else {
        new_path == path && action is Stay
    }
}

impl NavigationController {
    /// Well-formedness: the detector is well-formed.
    pub open spec fn wf(self) -> bool {
        self.detector.wf()
    }

    /// A controller showing `initial_path`, with a fresh detector and no
    /// listing yet. The caller performs the initial listing at once.
    pub fn new(initial_path: String) -> (c: NavigationController)
        ensures
            c.wf(),
            c.current_path == initial_path,
            c.detector == (ActivationState { last_selected_index: -1i32, burst_count: 0u32, last_event_at: 0u64 }),
            c.entries@ == Seq::<DirectoryEntry>::empty(),
    {
        NavigationController {
            current_path: initial_path,
            detector: ActivationState::new(),
            entries: Vec::new(),
        }
    }

    /// The user edited the path: it becomes the current path, and the caller
    /// must re-list it.
    pub fn path_edited(&mut self, new_path: String) -> (action: NavAction)
        requires
            old(self).wf(),
        ensures
            final(self).wf(),
            final(self).current_path == new_path,
            final(self).detector == old(self).detector,
            final(self).entries == old(self).entries,
            action is Relist,
    {
        self.current_path = new_path;
        NavAction::Relist
    }

    /// The user asked to go up: the current path becomes its parent and is
    /// re-listed, unless it has no parent (a root), in which case nothing
    /// changes.
    pub fn up_requested(&mut self) -> (action: NavAction)
        requires
            old(self).wf(),
        ensures
            final(self).wf(),
            final(self).detector == old(self).detector,
            final(self).entries == old(self).entries,
            match pathstr::parent_path(old(self).current_path@) {
                Option::None => final(self).current_path == old(self).current_path
                    && action is Stay,
                Option::Some(p) => final(self).current_path@ == p && action is Relist,
            },
    {
        match pathstr::parent(self.current_path.as_str()) {
            Option::Some(p) => {
                self.current_path = p;
                NavAction::Relist
            },
            Option::None => NavAction::Stay,
        }
    }

    /// A listing of the current path arrived: remember its entries (none on a
    /// failure) and return the display rows — one row per entry in order, or
    /// exactly one error row carrying the failure message.
    pub fn publish_listing(&mut self, result: ListingResult) -> (rows: Vec<Row>)
        requires
            old(self).wf(),
        ensures
            final(self).wf(),
            final(self).current_path == old(self).current_path,
            final(self).detector == old(self).detector,
            result matches ListingResult::Entries(es) ==> {
                &&& final(self).entries == es
                &&& rows@.len() == es@.len()
                &&& forall|i: int|
                    0 <= i < es@.len() ==> listing::row_renders(es@[i], #[trigger] rows@[i])
            },
            result matches ListingResult::Failure(msg) ==> {
                &&& final(self).entries@ == Seq::<DirectoryEntry>::empty()
                &&& rows@.len() == 1
                &&& listing::error_row_for(msg@, rows@[0])
            },
    {
        match result {
            ListingResult::Entries(es) => {
                let rows = listing::render_rows(&es);
                self.entries = es;
                rows
            },
            ListingResult::Failure(msg) => {
                self.entries = Vec::new();
                let mut rows: Vec<Row> = Vec::new();
                rows.push(listing::error_row(msg));
                rows
            },
        }
    }

    /// The user's selection changed to `index` (-1 for none) at time `now`
    /// (seconds): the detector processes the event, and an activation it
    /// emits descends into a directory entry or hands a file entry out for
    /// opening, as `activation_outcome` says.
    pub fn selection_changed(&mut self, index: i32, now: u64) -> (action: NavAction)
        requires
            old(self).wf(),
        ensures
            final(self).wf(),
            final(self).detector == old(self).detector.step_state(index, now),
            final(self).entries == old(self).entries,
            match old(self).detector.step_output(index, now) {
                Option::None => final(self).current_path == old(self).current_path
                    && action is Stay,
                Option::Some(i) => activation_outcome(
                    old(self).current_path@,
                    old(self).entries@,
                    i as int,
                    final(self).current_path@,
                    action,
                ),
            },
    {
        let out = self.detector.on_event(index, now);
        match out {
            Option::None => NavAction::Stay,
            Option::Some(i) => {
                if i < 0 {
                    return NavAction::Stay;
                }
                let iu = i as usize;
                if iu >= self.entries.len() {
                    return NavAction::Stay;
                }
                let full = pathstr::descend(
                    self.current_path.as_str(),
                    self.entries[iu].name.as_str(),
                );
                match self.entries[iu].kind {
                    EntryKind::Directory => {
                        self.current_path = full;
                        NavAction::Relist
                    },
                    EntryKind::File => NavAction::OpenFile(full),
                }
            },
        }
    }
}

} // verus!
