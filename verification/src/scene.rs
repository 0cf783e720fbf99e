//! Keeping the drawn scene in step with the selected maze.
//!
//! The renderer gives a handle for each element that it creates. The scene
//! keeps these handles, and every redraw begins by giving all of them back
//! for removal: the scene is rebuilt in full, never patched.

use vstd::prelude::*;
use crate::decoder::{decode, spec_decode};
use crate::layout::{generate, spec_generate, Element, LayoutParams, Origin, OriginView};
use crate::record::{Maze, MazeView};

verus! {

/// The handles of what the renderer has drawn for the maze on display, in
/// the order in which they were kept.
#[derive(Debug, PartialEq, Eq)]
pub struct SceneSync {
    handles: Vec<u64>,
}

impl View for SceneSync {
    type V = Seq<u64>;

    closed spec fn view(&self) -> Seq<u64> {
        self.handles@
    }
}

/// What a redraw asks of the renderer: first to remove every handle of
/// `remove`, then to create the elements of `create` in their order.
#[derive(Debug, PartialEq, Eq)]
pub struct RedrawPlan {
    pub remove: Vec<u64>,
    pub create: Vec<Element>,
}

/// The elements that show a record: the layout of its decoded grid. Without
/// a record nothing is shown.
pub open spec fn spec_scene(
    record: Option<MazeView>,
    params: LayoutParams,
    origin: OriginView,
) -> Seq<
    Element,
> {
    match record {
        Some(maze) => spec_generate(
            spec_decode(maze.encoding, maze.size as nat),
            params,
            origin,
        ),
        None => Seq::empty(),
    }
}

/// The view of the record behind an optional reference.
pub open spec fn spec_record_view(record: Option<&Maze>) -> Option<MazeView> {
    match record {
        Some(maze) => Some(maze@),
        None => None,
    }
}

impl SceneSync {
    /// A scene in which nothing has been drawn.
    pub fn new() -> (scene: SceneSync)
        ensures
            scene@ == Seq::<u64>::empty(),
    {
        SceneSync { handles: Vec::new() }
    }

    /// The handles kept, in the order in which they were kept.
    pub fn handles(&self) -> (handles: &Vec<u64>)
        ensures
            handles@ == self@,
    {
        &self.handles
    }

    /// Keeps the handle of an element that the renderer has created, after
    /// those kept before.
    pub fn retain(&mut self, handle: u64)
        ensures
            final(self)@ == old(self)@.push(handle),
    {
        self.handles.push(handle);
    }

    /// Gives back every handle kept, in the order in which they were kept,
    /// and keeps none.
    pub fn release_all(&mut self) -> (released: Vec<u64>)
        ensures
            released@ == old(self)@,
            final(self)@ == Seq::<u64>::empty(),
    {
        let mut released: Vec<u64> = Vec::new();
        released.append(&mut self.handles);
        assert(released@ =~= old(self)@);
        released
    }

    /// Plans the redraw of the scene for a record. Every handle kept so far
    /// is to be removed, whatever the new scene holds, and none stays kept;
    /// the elements to create depend on the record, the measures and the
    /// origin alone.
    pub fn redraw(&mut self, record: Option<&Maze>, params: &LayoutParams, origin: &Origin) -> (plan:
        RedrawPlan)
        ensures
            plan.remove@ == old(self)@,
            plan.create@ == spec_scene(spec_record_view(record), *params, origin@),
            final(self)@ == Seq::<u64>::empty(),
    {
        let remove = self.release_all();
        let create = match record {
            Some(maze) => {
                let grid = decode(maze.encoding.as_str(), maze.size);
                generate(&grid, params, origin)
            },
            None => Vec::new(),
        };
        RedrawPlan { remove, create }
    }
}

} // verus!
