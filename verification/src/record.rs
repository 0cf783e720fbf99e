//! The record of one maze: its name, the side of its grid and the textual
//! description of its walls.

use vstd::prelude::*;

verus! {

/// A named maze. The side and the description are kept as they were
/// entered: nothing holds one to the other.
#[derive(Debug, PartialEq, PartialOrd)]
pub struct Maze {
    pub name: String,
    pub size: u32,
    pub encoding: String,
}

/// What a record holds, as plain values.
pub struct MazeView {
    pub name: Seq<char>,
    pub size: u32,
    pub encoding: Seq<char>,
}

impl View for Maze {
    type V = MazeView;

    open spec fn view(&self) -> MazeView {
        MazeView { name: self.name@, size: self.size, encoding: self.encoding@ }
    }
}

/// The record that a library holds when nothing could be loaded.
pub open spec fn spec_default_maze() -> MazeView {
    MazeView { name: "Default Maze"@, size: 16, encoding: "0x0"@ }
}

/// The record that a new maze starts as.
pub open spec fn spec_blank_maze() -> MazeView {
    MazeView { name: Seq::empty(), size: 0, encoding: Seq::empty() }
}

impl Maze {
    pub fn new(name: String, size: u32, encoding: String) -> (maze: Maze)
        ensures
            maze@ == (MazeView { name: name@, size, encoding: encoding@ }),
    {
        Maze { name, size, encoding }
    }

    /// The record of a maze that has not been described yet: no name, side
    /// zero, no description.
    pub fn blank() -> (maze: Maze)
        ensures
            maze@ == spec_blank_maze(),
    {
        Maze { name: String::new(), size: 0, encoding: String::new() }
    }
}

impl Default for Maze {
    /// The maze named "Default Maze": side sixteen, no walls inside.
    fn default() -> (maze: Maze)
        ensures
            maze@ == spec_default_maze(),
    {
        Maze { name: "Default Maze".to_owned(), size: 16, encoding: "0x0".to_owned() }
    }
}

impl Clone for Maze {
    fn clone(&self) -> (maze: Maze)
        ensures
            maze@ == self@,
    {
        Maze { name: self.name.clone(), size: self.size, encoding: self.encoding.clone() }
    }
}

/// The records of a list, as plain values.
pub open spec fn spec_records(records: Seq<Maze>) -> Seq<MazeView> {
    Seq::new(records.len(), |i: int| records[i]@)
}

} // verus!
