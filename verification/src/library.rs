//! The library of named mazes: an ordered list of records and the index of
//! the one selected.

use vstd::prelude::*;
use crate::record::{spec_blank_maze, spec_default_maze, spec_records, Maze, MazeView};

verus! {

/// Why a stored library could not be loaded.
#[derive(Clone, Copy, Debug, PartialEq, Eq)]
pub enum LoadError {
    /// The file is missing or cannot be read.
    FileIo,
    /// The file does not hold a list of records.
    Parse,
}

/// The records in the order in which they were added, and the selection.
#[derive(Debug, PartialEq)]
pub struct MazeLibrary {
    records: Vec<Maze>,
    current: usize,
}

/// A library as plain values.
pub struct LibraryView {
    pub records: Seq<MazeView>,
    pub current: nat,
}

impl View for MazeLibrary {
    type V = LibraryView;

    closed spec fn view(&self) -> LibraryView {
        LibraryView { records: spec_records(self.records@), current: self.current as nat }
    }
}

impl LibraryView {
    /// The selection names a record, or the library is empty and the
    /// selection is zero.
    pub open spec fn wf(self) -> bool {
        self.current < self.records.len() || (self.records.len() == 0 && self.current == 0)
    }

    /// The record selected, if the selection names one.
    pub open spec fn current_record(self) -> Option<MazeView> {
        if self.current < self.records.len() {
            Some(self.records[self.current as int])
        } else {
            None
        }
    }

    /// The library with record `index` selected; unchanged where there is no
    /// such record.
    pub open spec fn select(self, index: nat) -> LibraryView {
        if index < self.records.len() {
            LibraryView { current: index, ..self }
        } else {
            self
        }
    }

    /// The library with a blank record added at the end and selected.
    pub open spec fn push_blank(self) -> LibraryView {
        LibraryView { records: self.records.push(spec_blank_maze()), current: self.records.len() }
    }

    /// The library without its last record, the last of those left
    /// selected. Where none is left the selection is zero.
    pub open spec fn pop_last(self) -> LibraryView {
        if self.records.len() <= 1 {
            LibraryView { records: Seq::empty(), current: 0 }
        } else {
            LibraryView {
                records: self.records.drop_last(),
                current: (self.records.len() - 2) as nat,
            }
        }
    }

    /// The library with the selected record replaced; unchanged where the
    /// selection names none.
    pub open spec fn replace_current(self, record: MazeView) -> LibraryView {
        if self.current < self.records.len() {
            LibraryView { records: self.records.update(self.current as int, record), ..self }
        } else {
            self
        }
    }

    pub open spec fn with_name(self, name: Seq<char>) -> LibraryView {
        match self.current_record() {
            Some(record) => self.replace_current(MazeView { name, ..record }),
            None => self,
        }
    }

    pub open spec fn with_size(self, size: u32) -> LibraryView {
        match self.current_record() {
            Some(record) => self.replace_current(MazeView { size, ..record }),
            None => self,
        }
    }

    pub open spec fn with_encoding(self, encoding: Seq<char>) -> LibraryView {
        match self.current_record() {
            Some(record) => self.replace_current(MazeView { encoding, ..record }),
            None => self,
        }
    }
}

/// The library that stands in when none could be loaded: the default maze
/// alone, selected.
pub open spec fn spec_fallback() -> LibraryView {
    LibraryView { records: seq![spec_default_maze()], current: 0 }
}

/// The library after an attempt to load the stored one. What was loaded
/// takes the place of the library in memory, its first record selected. A
/// file that could not be read leaves the library in memory as it was. A
/// file that does not hold a list of records has the fallback take its
/// place.
pub open spec fn spec_from_load(
    before: LibraryView,
    loaded: Result<Vec<Maze>, LoadError>,
) -> LibraryView {
    match loaded {
        Ok(records) => LibraryView { records: spec_records(records@), current: 0 },
        Err(LoadError::FileIo) => before,
        Err(LoadError::Parse) => spec_fallback(),
    }
}

/// Loading keeps what it is handed: where the records read from the store
/// are those of a library, in their order, the library loaded from them
/// has the same records in the same order, field by field, whatever was in
/// memory before. That the store hands back what it was given is not
/// stated here.
pub proof fn lemma_reload_keeps_records(
    library: LibraryView,
    before: LibraryView,
    stored: Vec<Maze>,
)
    requires
        spec_records(stored@) == library.records,
    ensures
        spec_from_load(before, Ok(stored)).records == library.records,
        spec_from_load(before, Ok(stored)).records.len() == library.records.len(),
        forall|i: int|
            0 <= i < library.records.len() ==> #[trigger] spec_from_load(
                before,
                Ok(stored),
            ).records[i] == library.records[i],
{
}

impl MazeLibrary {
    /// A library of the given records, the first selected.
    pub fn new(records: Vec<Maze>) -> (library: MazeLibrary)
        ensures
            library@ == (LibraryView { records: spec_records(records@), current: 0 }),
            library@.wf(),
    {
        MazeLibrary { records, current: 0 }
    }

    /// The library that stands in when none could be loaded.
    pub fn fallback() -> (library: MazeLibrary)
        ensures
            library@ == spec_fallback(),
            library@.wf(),
    {
        let mut records: Vec<Maze> = Vec::new();
        records.push(Maze::default());
        let library = MazeLibrary { records, current: 0 };
        assert(library@.records =~= seq![spec_default_maze()]);
        library
    }

    /// A library of the given records with record `current` selected;
    /// `None` where there is no such record, unless the library is empty
    /// and the selection zero.
    pub fn with_selection(records: Vec<Maze>, current: usize) -> (library: Option<MazeLibrary>)
        ensures
            library is Some == (LibraryView {
                records: spec_records(records@),
                current: current as nat,
            }).wf(),
            library matches Some(found) ==> found@ == (LibraryView {
                records: spec_records(records@),
                current: current as nat,
            }),
    {
        if current < records.len() || (records.len() == 0 && current == 0) {
            Some(MazeLibrary { records, current })
        } else {
            None
        }
    }

    /// Takes in the outcome of loading the stored library. Records that
    /// were loaded replace those in memory, and the first is selected.
    /// After a failure on the file the library stays as it is; after a
    /// file that is no list of records the fallback takes its place.
    pub fn reload(&mut self, loaded: Result<Vec<Maze>, LoadError>)
        ensures
            final(self)@ == spec_from_load(old(self)@, loaded),
            old(self)@.wf() ==> final(self)@.wf(),
    {
        match loaded {
            Ok(records) => {
                self.records = records;
                self.current = 0;
            },
            Err(LoadError::FileIo) => {},
            Err(LoadError::Parse) => {
                let mut records: Vec<Maze> = Vec::new();
                records.push(Maze::default());
                self.records = records;
                self.current = 0;
                assert(self@.records =~= seq![spec_default_maze()]);
            },
        }
    }

    /// The records, in the order in which they were added.
    pub fn records(&self) -> (records: &Vec<Maze>)
        ensures
            spec_records(records@) == self@.records,
    {
        &self.records
    }

    /// Index of the record selected.
    pub fn current(&self) -> (current: usize)
        ensures
            current == self@.current,
    {
        self.current
    }

    /// Number of records.
    pub fn len(&self) -> (len: usize)
        ensures
            len == self@.records.len(),
    {
        self.records.len()
    }

    /// The record selected, if the selection names one.
    pub fn current_record(&self) -> (record: Option<&Maze>)
        ensures
            crate::scene::spec_record_view(record) == self@.current_record(),
    {
        if self.current < self.records.len() {
            Some(&self.records[self.current])
        } else {
            None
        }
    }

    /// Selects record `index`. Where there is no such record nothing
    /// changes and the answer is `false`.
    pub fn select(&mut self, index: usize) -> (selected: bool)
        ensures
            selected == (index < old(self)@.records.len()),
            final(self)@ == old(self)@.select(index as nat),
            old(self)@.wf() ==> final(self)@.wf(),
    {
        if index < self.records.len() {
            self.current = index;
            true
        } else {
            false
        }
    }

    /// Adds a blank record at the end and selects it.
    pub fn push_blank(&mut self)
        ensures
            final(self)@ == old(self)@.push_blank(),
            final(self)@.wf(),
    {
        self.records.push(Maze::blank());
        self.current = self.records.len() - 1;
        assert(self@.records =~= old(self)@.records.push(spec_blank_maze()));
    }

    /// Removes the last record, whichever is selected, and selects the last
    /// of those left.
    pub fn pop_last(&mut self)
        ensures
            final(self)@ == old(self)@.pop_last(),
            final(self)@.wf(),
    {
        self.records.pop();
        self.current = if self.records.len() == 0 {
            0
        } else {
            self.records.len() - 1
        };
        assert(self@.records =~= old(self)@.pop_last().records);
    }

    /// Gives the selected record another name.
    pub fn set_name(&mut self, name: String)
        ensures
            final(self)@ == old(self)@.with_name(name@),
            old(self)@.wf() ==> final(self)@.wf(),
    {
        if self.current < self.records.len() {
            self.records[self.current].name = name;
            assert(self@.records =~= old(self)@.with_name(name@).records);
        }
    }

    /// Gives the selected record another side.
    pub fn set_size(&mut self, size: u32)
        ensures
            final(self)@ == old(self)@.with_size(size),
            old(self)@.wf() ==> final(self)@.wf(),
    {
        if self.current < self.records.len() {
            self.records[self.current].size = size;
            assert(self@.records =~= old(self)@.with_size(size).records);
        }
    }

    /// Gives the selected record another description.
    pub fn set_encoding(&mut self, encoding: String)
        ensures
            final(self)@ == old(self)@.with_encoding(encoding@),
            old(self)@.wf() ==> final(self)@.wf(),
    {
        if self.current < self.records.len() {
            self.records[self.current].encoding = encoding;
            assert(self@.records =~= old(self)@.with_encoding(encoding@).records);
        }
    }
}

} // verus!
