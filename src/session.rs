//! The state of a browsing session and how each event changes it. The work
//! that an event asks for (listing a folder, a dialog, a file write or a
//! delete) is handed back as an action for the caller to perform; its outcome
//! comes back as a later event.
use vstd::prelude::*;
use vstd::string::{StrSliceExecFns, StringExecFns};

use crate::order::sorted_by_size;
use crate::report::{shows_all, sizes_sum, sort_and_total};
use crate::scan::FileInfo;
use crate::units::size_text;
use crate::widget::{shows_line, FileTableRow};

verus! {

/// What happened: user input, or the outcome of an earlier action.
pub enum Event {
    /// The text of the path field changed.
    OnInput(String),
    /// The user asked to pick a folder.
    OpenFolder,
    /// The folder picker closed, with the folder chosen if any.
    FolderOpened(Option<String>),
    /// The user asked to export the table; with no rows there is nothing to
    /// export.
    OutputFileInfos,
    /// The user asked to scan, and whether the current folder and the path
    /// typed in exist.
    FileSearch { path_exists: bool, input_exists: bool },
    /// A scan finished with this listing.
    FileSerachedConvert(Vec<FileInfo>),
    /// The user asked to delete the entry of this row.
    Delete(usize),
}

/// What the caller is to do next.
pub enum Action {
    Nothing,
    /// List this folder and hand the listing back.
    Scan(String),
    /// Open the folder picker and hand back what was chosen.
    PickFolder,
    /// Ask where to, and write this text there.
    Export(String),
    /// Ask for confirmation, and delete the file or folder at this path.
    Remove(String),
}

/// The state of a session: the folder scanned, the text of the path field,
/// the last listing with its grand total, and the rows of the table.
pub struct AppState {
    pub path: Option<String>,
    pub path_input_value: String,
    pub total_size: String,
    pub file_info_vec: Vec<FileInfo>,
    pub rows: Vec<FileTableRow>,
}

/// `value` without one pair of double quotes around it, where it has them.
pub open spec fn unquoted(value: Seq<char>) -> Seq<char> {
    if value.len() >= 2 && value[0] == '"' && value[value.len() - 1] == '"' {
        value.subrange(1, value.len() - 1)
    } else {
        value
    }
}

/// Lines joined with a newline between each two.
pub open spec fn joined(lines: Seq<Seq<char>>) -> Seq<char>
    decreases lines.len(),
{
    if lines.len() == 0 {
        Seq::empty()
    } else if lines.len() == 1 {
        lines[0]
    } else {
        joined(lines.drop_last()) + seq!['\n'] + lines.last()
    }
}

/// `text` shows `rows`, one line each, in their order.
pub open spec fn exports(text: Seq<char>, rows: Seq<FileTableRow>) -> bool {
    exists|lines: Seq<Seq<char>>|
        {
            &&& lines.len() == rows.len()
            &&& forall|i: int| 0 <= i < lines.len() ==> shows_line(#[trigger] lines[i], rows[i])
            &&& text == joined(lines)
        }
}

/// `new` is `old` with only the listing, the rows and the total changed.
pub open spec fn same_inputs(old: AppState, new: AppState) -> bool {
    &&& new.path == old.path
    &&& new.path_input_value == old.path_input_value
}

/// `new` is `old` unchanged.
pub open spec fn unchanged(old: AppState, new: AppState) -> bool {
    &&& same_inputs(old, new)
    &&& new.total_size == old.total_size
    &&& new.file_info_vec@ == old.file_info_vec@
    &&& new.rows@ == old.rows@
}

/// The step that `event` takes from `old` to `new`, asking for `action`.
pub open spec fn stepped(old: AppState, event: Event, new: AppState, action: Action) -> bool {
    match event {
        Event::OnInput(value) => {
            &&& new.path == old.path
            &&& new.path_input_value@ == unquoted(value@)
            &&& new.total_size == old.total_size
            &&& new.file_info_vec@ == old.file_info_vec@
            &&& new.rows@ == old.rows@
            &&& action is Nothing
        },
        Event::OpenFolder => unchanged(old, new) && action is PickFolder,
        Event::FolderOpened(picked) => match picked {
            Some(p) => {
                &&& new.path == Some(p)
                &&& new.path_input_value == old.path_input_value
                &&& new.total_size == old.total_size
                &&& new.file_info_vec@ == old.file_info_vec@
                &&& new.rows@ == old.rows@
                &&& action == Action::Scan(p)
            },
            None => unchanged(old, new) && action is Nothing,
        },
        Event::OutputFileInfos => unchanged(old, new) && if old.rows@.len() == 0 {
            action is Nothing
        } else {
            action matches Action::Export(text) && exports(text@, old.rows@)
        },
        Event::FileSearch { path_exists, input_exists } => {
            &&& new.path_input_value == old.path_input_value
            &&& new.total_size == old.total_size
            &&& new.file_info_vec@.len() == 0
            &&& new.rows@ == old.rows@
            &&& if old.path is Some && path_exists {
                if old.path_input_value@.len() == 0 {
                    new.path == old.path && action == Action::Scan(old.path->Some_0)
                } else if input_exists {
                    new.path == Some(old.path_input_value) && action == Action::Scan(
                        old.path_input_value,
                    )
                } else {
                    new.path == old.path && action is Nothing
                }
            } else {
                new.path == old.path && action is Nothing
            }
        },
        Event::FileSerachedConvert(listing) => {
            &&& same_inputs(old, new)
            &&& action is Nothing
            &&& if sizes_sum(listing@) <= u64::MAX {
                &&& sorted_by_size(new.file_info_vec@)
                &&& new.file_info_vec@.to_multiset() == listing@.to_multiset()
                &&& shows_all(new.rows@, new.file_info_vec@)
                &&& new.total_size@ == size_text(sizes_sum(listing@) as u64)
            } else {
                &&& new.file_info_vec@.len() == 0
                &&& new.rows@.len() == 0
                &&& new.total_size@.len() == 0
            }
        },
        Event::Delete(index) => if index < old.rows@.len() {
            &&& same_inputs(old, new)
            &&& new.total_size == old.total_size
            &&& new.file_info_vec@ == old.file_info_vec@
            &&& new.rows@ == old.rows@.remove(index as int)
            &&& action == Action::Remove(old.rows@[index as int].filename)
        } else {
            unchanged(old, new) && action is Nothing
        },
    }
}

/// The text of the path field as typed, without one pair of double quotes
/// around it.
pub fn strip_quotes(value: String) -> (r: String)
    ensures
        r@ == unquoted(value@),
{
    let n: usize = value.as_str().unicode_len();
    if n >= 2 && value.as_str().get_char(0) == '"' && value.as_str().get_char(n - 1) == '"' {
        String::from_str(value.as_str().substring_char(1, n - 1))
    } else {
        value
    }
}

/// The rows as text, one line each, joined by newlines.
pub fn export_text(rows: &Vec<FileTableRow>) -> (r: String)
    ensures
        exports(r@, rows@),
{
    let mut text = String::new();
    let ghost mut lines: Seq<Seq<char>> = Seq::empty();
    let mut i: usize = 0;
    while i < rows.len()
        invariant
            i <= rows@.len(),
            lines.len() == i,
            forall|j: int| 0 <= j < i ==> shows_line(#[trigger] lines[j], rows@[j]),
            text@ == joined(lines),
        decreases rows@.len() - i,
    {
        let line = rows[i].to_string();
        proof { reveal_strlit("\n"); }
        if i > 0 {
            text.append("\n");
        }
        text.append(line.as_str());
        proof {
            let next = lines.push(line@);
            assert(next.drop_last() =~= lines);
            if i == 0 {
                assert(text@ =~= joined(next));
            } else {
                assert(next.last() == line@);
                assert(text@ =~= joined(lines) + seq!['\n'] + line@);
            }
            lines = next;
        }
        i = i + 1;
    }
    assert(exports(text@, rows@)) by {
        assert(lines.len() == rows@.len());
    }
    text
}

impl AppState {
    /// A session that has scanned nothing: an empty folder path, an empty
    /// path field, no listing and no rows.
    pub fn new() -> (r: Self)
        ensures
            r.path matches Some(p) && p@.len() == 0,
            r.path_input_value@.len() == 0,
            r.total_size@.len() == 0,
            r.file_info_vec@.len() == 0,
            r.rows@.len() == 0,
    {
        AppState {
            path: Some(String::new()),
            path_input_value: String::new(),
            total_size: String::new(),
            file_info_vec: Vec::new(),
            rows: Vec::new(),
        }
    }

    /// Takes the step that `event` asks for and says what to do next.
    pub fn update(&mut self, event: Event) -> (r: Action)
        ensures
            stepped(*old(self), event, *final(self), r),
    {
        match event {
            Event::OnInput(value) => {
                self.path_input_value = strip_quotes(value);
                Action::Nothing
            },
            Event::OpenFolder => Action::PickFolder,
            Event::FolderOpened(picked) => match picked {
                Some(p) => {
                    self.path = Some(p.clone());
                    Action::Scan(p)
                },
                None => Action::Nothing,
            },
            Event::OutputFileInfos => if self.rows.len() == 0 {
                Action::Nothing
            } else {
                Action::Export(export_text(&self.rows))
            },
            Event::FileSearch { path_exists, input_exists } => {
                self.file_info_vec.clear();
                match &self.path {
                    Some(p) => if path_exists {
                        if self.path_input_value.as_str().unicode_len() == 0 {
                            Action::Scan(p.clone())
                        } else if input_exists {
                            let typed = self.path_input_value.clone();
                            self.path = Some(typed.clone());
                            Action::Scan(typed)
                        } else {
                            Action::Nothing
                        }
                    } else {
                        Action::Nothing
                    },
                    None => Action::Nothing,
                }
            },
            Event::FileSerachedConvert(listing) => {
                match sort_and_total(listing) {
                    Some((sorted, rows, total)) => {
                        self.file_info_vec = sorted;
                        self.rows = rows;
                        self.total_size = total;
                    },
                    None => {
                        self.file_info_vec = Vec::new();
                        self.rows = Vec::new();
                        self.total_size = String::new();
                    },
                }
                Action::Nothing
            },
            Event::Delete(index) => {
                if index < self.rows.len() {
                    let path = self.rows[index].filename.clone();
                    self.rows.remove(index);
                    Action::Remove(path)
                } else {
                    Action::Nothing
                }
            },
        }
    }
}

} // verus!
