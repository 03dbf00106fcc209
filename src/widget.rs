//! The rows of the file table and the names of its columns.
use vstd::prelude::*;
use vstd::string::StringExecFns;

use crate::clock::{access_text, access_time_text, shows_access, stamp_text, LocalDateTime};
use crate::scan::{EntryType, Timestamp};

verus! {

/// A field that entries can be ordered or filtered by.
#[derive(Debug, Clone, Copy, PartialEq, Eq)]
pub enum Category {
    FileName,
    Size,
    DateModified,
    Perm,
}

/// The name under which a category is shown.
pub open spec fn category_label(c: Category) -> Seq<char> {
    match c {
        Category::FileName => seq!['N', 'a', 'm', 'e'],
        Category::Size => seq!['S', 'i', 'z', 'e'],
        Category::DateModified => seq!['D', 'a', 't', 'e', ' ', 'M', 'o', 'd', 'i', 'f', 'i', 'e', 'd'],
        Category::Perm => seq!['P', 'e', 'r', 'm'],
    }
}

impl Category {
    /// The name under which this category is shown.
    pub fn label(&self) -> (r: &'static str)
        ensures
            r@ == category_label(*self),
    {
        match self {
            Category::FileName => {
                proof { reveal_strlit("Name"); }
                "Name"
            },
            Category::Size => {
                proof { reveal_strlit("Size"); }
                "Size"
            },
            Category::DateModified => {
                proof { reveal_strlit("Date Modified"); }
                "Date Modified"
            },
            Category::Perm => {
                proof { reveal_strlit("Perm"); }
                "Perm"
            },
        }
    }
}

/// A column of the file table.
#[derive(Debug, Clone, Copy, PartialEq, Eq)]
pub enum ColumnKind {
    Index,
    FileName,
    Size,
    ModifiedTime,
    Delete,
}

/// The title in the header of a column.
pub open spec fn column_title(k: ColumnKind) -> Seq<char> {
    match k {
        ColumnKind::Index => seq!['I', 'n', 'd', 'e', 'x'],
        ColumnKind::FileName => seq!['N', 'a', 'm', 'e'],
        ColumnKind::Size => seq!['S', 'i', 'z', 'e'],
        ColumnKind::ModifiedTime => seq!['A', 'c', 'c', 'e', 's', 's', ' ', 'T', 'i', 'm', 'e'],
        ColumnKind::Delete => seq!['D', 'e', 'l', 'e', 't', 'e'],
    }
}

impl ColumnKind {
    /// The title in the header of this column.
    pub fn title(&self) -> (r: &'static str)
        ensures
            r@ == column_title(*self),
    {
        match self {
            ColumnKind::Index => {
                proof { reveal_strlit("Index"); }
                "Index"
            },
            ColumnKind::FileName => {
                proof { reveal_strlit("Name"); }
                "Name"
            },
            ColumnKind::Size => {
                proof { reveal_strlit("Size"); }
                "Size"
            },
            ColumnKind::ModifiedTime => {
                proof { reveal_strlit("Access Time"); }
                "Access Time"
            },
            ColumnKind::Delete => {
                proof { reveal_strlit("Delete"); }
                "Delete"
            },
        }
    }
}

/// One row of the file table: an entry's path, its size and its last access
/// as shown, and whether it is a file or a folder.
#[derive(Debug, Clone)]
pub struct FileTableRow {
    pub filename: String,
    pub size: String,
    pub time: String,
    pub entry_type: EntryType,
}

impl FileTableRow {
    /// A row whose access time has already been placed in a time zone.
    pub fn from_local_time(
        filename: String,
        size: String,
        local: Option<LocalDateTime>,
        entry_type: EntryType,
    ) -> (r: Self)
        ensures
            r.filename == filename,
            r.size == size,
            r.time@ == match local {
                Some(d) => stamp_text(d),
                None => Seq::empty(),
            },
            r.entry_type == entry_type,
    {
        FileTableRow { filename, size, time: access_text(local), entry_type }
    }

    /// A row for an entry, its access time shown in the machine's time zone.
    pub fn generate(
        filename: String,
        size: String,
        time: Option<Timestamp>,
        entry_type: EntryType,
    ) -> (r: Self)
        ensures
            r.filename == filename,
            r.size == size,
            shows_access(r.time@, time),
            r.entry_type == entry_type,
    {
        FileTableRow { filename, size, time: access_time_text(time), entry_type }
    }

    /// The path of the entry this row shows.
    pub fn get_filepath(&mut self) -> (r: String)
        ensures
            r == old(self).filename,
            *final(self) == *old(self),
    {
        self.filename.clone()
    }
}

/// Relies on std's `Path::file_name`: the last component of a path, where it
/// has one, which is never empty and holds no `/`.
#[verifier::external_body]
fn file_name_of(path: &String) -> (r: Option<String>)
    ensures
        r matches Some(n) ==> n@.len() > 0 && !n@.contains('/'),
{
    match std::path::Path::new(path).file_name() {
        Some(n) => Some(n.to_string_lossy().into_owned()),
        None => None,
    }
}

/// The line of text for a row shown under `name`: the name, the size and the
/// access time, separated by tabs.
pub open spec fn line_of(name: Seq<char>, row: FileTableRow) -> Seq<char> {
    name + seq!['\t'] + row.size@ + seq!['\t'] + row.time@
}

/// `name` may stand for `row` in its line of text: it is the last component
/// of the row's path, or the whole path where there is none.
pub open spec fn names_row(name: Seq<char>, row: FileTableRow) -> bool {
    name == row.filename@ || (name.len() > 0 && !name.contains('/'))
}

/// `line` is a line of text that shows `row`.
pub open spec fn shows_line(line: Seq<char>, row: FileTableRow) -> bool {
    exists|name: Seq<char>| names_row(name, row) && line == line_of(name, row)
}

impl FileTableRow {
    /// The row as a line of text: the entry's name, its size and its access
    /// time, separated by tabs.
    pub fn to_string(&self) -> (r: String)
        ensures
            shows_line(r@, *self),
    {
        let mut r = match file_name_of(&self.filename) {
            Some(n) => n,
            None => self.filename.clone(),
        };
        let ghost name = r@;
        proof { reveal_strlit("\t"); }
        r.append("\t");
        r.append(self.size.as_str());
        r.append("\t");
        r.append(self.time.as_str());
        assert(r@ =~= line_of(name, *self));
        r
    }
}

} // verus!
