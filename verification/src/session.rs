//! The editing session: the library, the scene and the two states of the
//! editor, with the transitions that the user's actions cause.
//!
//! The session decides; it neither draws nor stores. Each transition says
//! what is to be redrawn and whether the library is to be stored, and the
//! caller carries that out: it removes and creates the elements of the plan,
//! keeps the handles of what it created, and then writes the library. A
//! redraw is planned whether or not storing will succeed.
//!
//! The maze on display is centred: its middle stands on the middle of the
//! scene, at the session's scale and height, whatever the side of the
//! record selected.

use vstd::prelude::*;
use crate::layout::{spec_centred, Element, LayoutParams, Origin, OriginView};
use crate::library::{spec_from_load, LibraryView, LoadError, MazeLibrary};
use crate::record::{Maze, MazeView};
use crate::scene::{spec_scene, RedrawPlan, SceneSync};

verus! {

/// The two states of the editor.
#[derive(Clone, Copy, Debug, PartialEq, Eq)]
pub enum SessionState {
    /// A maze of the library is on display and another can be selected.
    Browsing,
    /// The selected record is being filled in.
    Editing,
}

/// The session: the measures of the maze, the scale and the height at
/// which it is shown, the library, the handles of what is drawn, and the
/// state of the editor. Its fields change through the functions of this
/// module alone.
#[derive(Debug, PartialEq)]
pub struct MazeConfig {
    params: LayoutParams,
    scale_tenths: u32,
    lift: i64,
    library: MazeLibrary,
    scene: SceneSync,
    state: SessionState,
}

/// A session as plain values.
pub struct SessionView {
    pub params: LayoutParams,
    /// Scale at which the maze is shown, in tenths.
    pub scale_tenths: u32,
    /// Height of the maze above the floor, in hundredths of the unit.
    pub lift: i64,
    pub library: LibraryView,
    pub handles: Seq<u64>,
    pub state: SessionState,
}

impl View for MazeConfig {
    type V = SessionView;

    closed spec fn view(&self) -> SessionView {
        SessionView {
            params: self.params,
            scale_tenths: self.scale_tenths,
            lift: self.lift,
            library: self.library@,
            handles: self.scene@,
            state: self.state,
        }
    }
}

/// What the user can do.
#[derive(Debug, PartialEq)]
pub enum UiEvent {
    /// Pick the record with this index.
    Select(usize),
    /// Start a new record.
    New,
    /// Type another name for the record being edited.
    EditName(String),
    /// Set another side for the record being edited.
    EditSize(u32),
    /// Type another description for the record being edited.
    EditEncoding(String),
    /// Keep the record being edited and store the library.
    Save,
    /// Give up the new record.
    Cancel,
}

/// An action of the user as plain values.
pub enum UiEventView {
    Select(nat),
    New,
    EditName(Seq<char>),
    EditSize(u32),
    EditEncoding(Seq<char>),
    Save,
    Cancel,
}

impl View for UiEvent {
    type V = UiEventView;

    open spec fn view(&self) -> UiEventView {
        match self {
            UiEvent::Select(index) => UiEventView::Select(*index as nat),
            UiEvent::New => UiEventView::New,
            UiEvent::EditName(name) => UiEventView::EditName(name@),
            UiEvent::EditSize(size) => UiEventView::EditSize(*size),
            UiEvent::EditEncoding(encoding) => UiEventView::EditEncoding(encoding@),
            UiEvent::Save => UiEventView::Save,
            UiEvent::Cancel => UiEventView::Cancel,
        }
    }
}

/// What the caller is to do after a transition.
#[derive(Debug, PartialEq)]
pub struct UiOutcome {
    /// The redraw to carry out, if the transition causes one.
    pub redraw: Option<RedrawPlan>,
    /// Whether the library is to be stored, after the redraw.
    pub persist: bool,
}

/// What the caller is to do after the session has been set up.
#[derive(Debug, PartialEq)]
pub struct SetupOutcome {
    /// The drawing of the library that was taken in; none where the stored
    /// library could not be read and the session stays as it was.
    pub redraw: Option<RedrawPlan>,
    /// The failure to report, if the stored library could not be loaded.
    pub diagnostic: Option<LoadError>,
}

impl SessionView {
    /// The selection is valid, and a record is there while one is edited.
    pub open spec fn wf(self) -> bool {
        &&& self.library.wf()
        &&& self.state is Editing ==> self.library.records.len() > 0
    }

    /// The origin of a record on display: the one that centres a maze of
    /// the record's side.
    pub open spec fn origin_of(self, record: MazeView) -> OriginView {
        spec_centred(self.params, record.size, self.scale_tenths, self.lift)
    }

    /// The elements that show the selected record, centred. Without a
    /// selected record nothing is shown.
    pub open spec fn scene(self) -> Seq<Element> {
        match self.library.current_record() {
            Some(record) => spec_scene(Some(record), self.params, self.origin_of(record)),
            None => Seq::empty(),
        }
    }

    /// The session after an attempt to load the stored library. A failure
    /// on the file leaves the session as it was, whatever its state. What
    /// was loaded, or the fallback after a file that is no list of
    /// records, becomes the library of a session that browses, with a
    /// redraw planned.
    pub open spec fn after_load(self, loaded: Result<Vec<Maze>, LoadError>) -> SessionView {
        if loaded == Err::<Vec<Maze>, LoadError>(LoadError::FileIo) {
            self
        } else {
            SessionView {
                library: spec_from_load(self.library, loaded),
                handles: Seq::empty(),
                state: SessionState::Browsing,
                ..self
            }
        }
    }

    /// The session once a redraw has been planned: no handle is kept.
    pub open spec fn redrawn(self) -> SessionView {
        SessionView { handles: Seq::empty(), ..self }
    }

    /// Whether the state offers the action. A record is selected or begun
    /// while browsing, and only a record that exists can be selected;
    /// changes, saving and giving up belong to editing.
    pub open spec fn accepts(self, event: UiEventView) -> bool {
        match event {
            UiEventView::Select(index) => self.state is Browsing && index
                < self.library.records.len(),
            UiEventView::New => self.state is Browsing,
            _ => self.state is Editing,
        }
    }

    /// Whether the action causes a redraw: selecting, saving and giving up
    /// do.
    pub open spec fn redraws(self, event: UiEventView) -> bool {
        self.accepts(event) && (event is Select || event is Save || event is Cancel)
    }

    /// Whether the action has the library stored: saving does.
    pub open spec fn persists(self, event: UiEventView) -> bool {
        self.accepts(event) && event is Save
    }

    /// The library after the action.
    pub open spec fn library_after(self, event: UiEventView) -> LibraryView {
        if !self.accepts(event) {
            self.library
        } else {
            match event {
                UiEventView::Select(index) => self.library.select(index),
                UiEventView::New => self.library.push_blank(),
                UiEventView::EditName(name) => self.library.with_name(name),
                UiEventView::EditSize(size) => self.library.with_size(size),
                UiEventView::EditEncoding(encoding) => self.library.with_encoding(encoding),
                UiEventView::Save => self.library,
                UiEventView::Cancel => self.library.pop_last(),
            }
        }
    }

    /// The state after the action.
    pub open spec fn state_after(self, event: UiEventView) -> SessionState {
        if !self.accepts(event) {
            self.state
        } else {
            match event {
                UiEventView::New => SessionState::Editing,
                UiEventView::Save => SessionState::Browsing,
                UiEventView::Cancel => SessionState::Browsing,
                _ => self.state,
            }
        }
    }

    /// The session after the action. An action that the state does not
    /// offer changes nothing.
    pub open spec fn step(self, event: UiEventView) -> SessionView {
        SessionView {
            params: self.params,
            scale_tenths: self.scale_tenths,
            lift: self.lift,
            library: self.library_after(event),
            handles: if self.redraws(event) {
                Seq::empty()
            } else {
                self.handles
            },
            state: self.state_after(event),
        }
    }
}

/// The scale at which a session shows its maze unless told otherwise:
/// one half.
pub const DEFAULT_SCALE_TENTHS: u32 = 5;

/// The height at which a session shows its maze unless told otherwise, in
/// hundredths of the unit of the usual measures: one unit of the scene.
pub const DEFAULT_LIFT: i64 = 1000;

impl MazeConfig {
    /// A session that browses the fallback library, with nothing drawn.
    pub fn new(params: LayoutParams, scale_tenths: u32, lift: i64) -> (cfg: MazeConfig)
        ensures
            cfg@ == (SessionView {
                params,
                scale_tenths,
                lift,
                library: crate::library::spec_fallback(),
                handles: Seq::empty(),
                state: SessionState::Browsing,
            }),
            cfg@.wf(),
    {
        MazeConfig {
            params,
            scale_tenths,
            lift,
            library: MazeLibrary::fallback(),
            scene: SceneSync::new(),
            state: SessionState::Browsing,
        }
    }

    /// A session on a given library, in a given state, with nothing drawn.
    pub fn with_library(
        params: LayoutParams,
        scale_tenths: u32,
        lift: i64,
        library: MazeLibrary,
        state: SessionState,
    ) -> (cfg: MazeConfig)
        ensures
            cfg@ == (SessionView {
                params,
                scale_tenths,
                lift,
                library: library@,
                handles: Seq::empty(),
                state,
            }),
    {
        MazeConfig { params, scale_tenths, lift, library, scene: SceneSync::new(), state }
    }

    /// The measures of the maze.
    pub fn params(&self) -> (params: LayoutParams)
        ensures
            params == self@.params,
    {
        self.params
    }

    /// Scale at which the maze is shown, in tenths.
    pub fn scale_tenths(&self) -> (scale_tenths: u32)
        ensures
            scale_tenths == self@.scale_tenths,
    {
        self.scale_tenths
    }

    /// Height of the maze above the floor.
    pub fn lift(&self) -> (lift: i64)
        ensures
            lift == self@.lift,
    {
        self.lift
    }

    /// The library.
    pub fn library(&self) -> (library: &MazeLibrary)
        ensures
            library@ == self@.library,
    {
        &self.library
    }

    /// The state of the editor.
    pub fn state(&self) -> (state: SessionState)
        ensures
            state == self@.state,
    {
        self.state
    }

    /// The handles of what is drawn, in the order in which they were kept.
    pub fn handles(&self) -> (handles: &Vec<u64>)
        ensures
            handles@ == self@.handles,
    {
        self.scene.handles()
    }

    /// Keeps the handle of something that the renderer has created for the
    /// maze on display, to be removed at the next redraw.
    pub fn retain(&mut self, handle: u64)
        ensures
            final(self)@ == (SessionView {
                handles: old(self)@.handles.push(handle),
                ..old(self)@
            }),
    {
        self.scene.retain(handle);
    }
}

impl Default for MazeConfig {
    /// The session at its start: the usual measures, half the size, one
    /// unit of the scene above the floor, the fallback library, nothing
    /// drawn.
    fn default() -> (cfg: MazeConfig)
        ensures
            cfg@ == (SessionView {
                params: crate::layout::spec_default_params(),
                scale_tenths: DEFAULT_SCALE_TENTHS,
                lift: DEFAULT_LIFT,
                library: crate::library::spec_fallback(),
                handles: Seq::empty(),
                state: SessionState::Browsing,
            }),
            cfg@.wf(),
    {
        MazeConfig::new(LayoutParams::default(), DEFAULT_SCALE_TENTHS, DEFAULT_LIFT)
    }
}

/// Plans the redraw of the selected record. Every handle kept is to be
/// removed and none stays kept; then the elements of the record's scene are
/// to be created, centred on the middle of the scene. Nothing else in the
/// session changes.
pub fn draw_maze(cfg: &mut MazeConfig) -> (plan: RedrawPlan)
    ensures
        plan.remove@ == old(cfg)@.handles,
        plan.create@ == old(cfg)@.scene(),
        final(cfg)@ == old(cfg)@.redrawn(),
{
    match cfg.library.current_record() {
        Some(record) => {
            let origin = Origin::centred(&cfg.params, record.size, cfg.scale_tenths, cfg.lift);
            cfg.scene.redraw(Some(record), &cfg.params, &origin)
        },
        None => {
            let origin = Origin::default();
            cfg.scene.redraw(None, &cfg.params, &origin)
        },
    }
}

/// Sets the session up from the outcome of loading the stored library.
///
/// A library that was loaded is taken as it is, its first record selected;
/// the session browses and a redraw is planned. Where the file could not be
/// read, the attempt is given up: library, selection, state and handles
/// stay as they were, no redraw is planned, and the failure is handed on to
/// be reported. Where the file holds no list of records, the fallback
/// library takes the place of the library in memory; the session browses,
/// a redraw is planned, and the failure is handed on.
pub fn maze_setup(cfg: &mut MazeConfig, loaded: Result<Vec<Maze>, LoadError>) -> (outcome:
    SetupOutcome)
    ensures
        final(cfg)@ == old(cfg)@.after_load(loaded),
        loaded == Err::<Vec<Maze>, LoadError>(LoadError::FileIo) ==> final(cfg)@ == old(cfg)@,
        old(cfg)@.wf() ==> final(cfg)@.wf(),
        (outcome.redraw is None) == (loaded == Err::<Vec<Maze>, LoadError>(LoadError::FileIo)),
        outcome.redraw matches Some(plan) ==> plan.remove@ == old(cfg)@.handles && plan.create@
            == final(cfg)@.scene(),
        outcome.diagnostic == match loaded {
            Ok(_) => None,
            Err(error) => Some(error),
        },
{
    match loaded {
        Err(LoadError::FileIo) => SetupOutcome {
            redraw: None,
            diagnostic: Some(LoadError::FileIo),
        },
        Err(LoadError::Parse) => {
            cfg.library.reload(Err(LoadError::Parse));
            cfg.state = SessionState::Browsing;
            let plan = draw_maze(cfg);
            SetupOutcome { redraw: Some(plan), diagnostic: Some(LoadError::Parse) }
        },
        Ok(records) => {
            cfg.library.reload(Ok(records));
            cfg.state = SessionState::Browsing;
            let plan = draw_maze(cfg);
            SetupOutcome { redraw: Some(plan), diagnostic: None }
        },
    }
}

/// Carries out one action of the user.
///
/// While browsing, selecting an existing record makes it the current one
/// and redraws; a new record is added blank at the end, selected, and
/// edited from then on. While editing, a change replaces one field of the
/// current record, unchecked; saving goes back to browsing, redraws, and
/// has the library stored after the redraw; giving up removes the last
/// record of the library, selects the last of those left, goes back to
/// browsing and redraws. An action that the state does not offer changes
/// nothing and asks for nothing.
pub fn maze_ui(cfg: &mut MazeConfig, event: UiEvent) -> (outcome: UiOutcome)
    ensures
        final(cfg)@ == old(cfg)@.step(event@),
        old(cfg)@.wf() ==> final(cfg)@.wf(),
        outcome.persist == old(cfg)@.persists(event@),
        (outcome.redraw is Some) == old(cfg)@.redraws(event@),
        outcome.redraw matches Some(plan) ==> plan.remove@ == old(cfg)@.handles && plan.create@
            == final(cfg)@.scene(),
{
    match cfg.state {
        SessionState::Browsing => match event {
            UiEvent::Select(index) => {
                if cfg.library.select(index) {
                    let plan = draw_maze(cfg);
                    UiOutcome { redraw: Some(plan), persist: false }
                } else {
                    UiOutcome { redraw: None, persist: false }
                }
            },
            UiEvent::New => {
                cfg.library.push_blank();
                cfg.state = SessionState::Editing;
                UiOutcome { redraw: None, persist: false }
            },
            _ => UiOutcome { redraw: None, persist: false },
        },
        SessionState::Editing => match event {
            UiEvent::EditName(name) => {
                cfg.library.set_name(name);
                UiOutcome { redraw: None, persist: false }
            },
            UiEvent::EditSize(size) => {
                cfg.library.set_size(size);
                UiOutcome { redraw: None, persist: false }
            },
            UiEvent::EditEncoding(encoding) => {
                cfg.library.set_encoding(encoding);
                UiOutcome { redraw: None, persist: false }
            },
            UiEvent::Save => {
                cfg.state = SessionState::Browsing;
                let plan = draw_maze(cfg);
                UiOutcome { redraw: Some(plan), persist: true }
            },
            UiEvent::Cancel => {
                cfg.library.pop_last();
                cfg.state = SessionState::Browsing;
                let plan = draw_maze(cfg);
                UiOutcome { redraw: Some(plan), persist: false }
            },
            _ => UiOutcome { redraw: None, persist: false },
        },
    }
}

/// Drawing twice in a row, with no change to the records in between, plans
/// the same elements both times, whatever handles were kept after the first
/// drawing, and leaves the same session.
pub proof fn lemma_redraw_idempotent(session: SessionView, kept: Seq<u64>)
    ensures
        (SessionView { handles: kept, ..session.redrawn() }).scene() == session.scene(),
        (SessionView { handles: kept, ..session.redrawn() }).redrawn() == session.redrawn(),
{
}

/// Whether an action changes a field of the record being edited.
pub open spec fn spec_is_edit(event: UiEventView) -> bool {
    event is EditName || event is EditSize || event is EditEncoding
}

/// The session after a run of actions, one after the other.
pub open spec fn spec_steps(session: SessionView, events: Seq<UiEventView>) -> SessionView
    decreases events.len(),
{
    if events.len() == 0 {
        session
    } else {
        spec_steps(session, events.drop_last()).step(events.last())
    }
}

/// While a new record is edited, the records before it stay as they were,
/// the new one is the last and the one selected.
pub proof fn lemma_edits_touch_the_new_record_only(session: SessionView, edits: Seq<UiEventView>)
    requires
        session.state is Browsing,
        forall|k: int| 0 <= k < edits.len() ==> spec_is_edit(#[trigger] edits[k]),
    ensures
        spec_steps(session.step(UiEventView::New), edits).state is Editing,
        spec_steps(session.step(UiEventView::New), edits).handles == session.handles,
        spec_steps(session.step(UiEventView::New), edits).library.current
            == session.library.records.len(),
        spec_steps(session.step(UiEventView::New), edits).library.records.len()
            == session.library.records.len() + 1,
        spec_steps(session.step(UiEventView::New), edits).library.records.drop_last()
            == session.library.records,
    decreases edits.len(),
{
    let begun = session.step(UiEventView::New);
    if edits.len() == 0 {
        assert(begun.library.records.drop_last() =~= session.library.records);
    } else {
        lemma_edits_touch_the_new_record_only(session, edits.drop_last());
        let before = spec_steps(begun, edits.drop_last());
        let after = before.step(edits.last());
        assert(spec_is_edit(edits[edits.len() - 1]));
        assert(after.library.records.drop_last() =~= before.library.records.drop_last());
    }
}

/// A new record that is given up leaves no trace: whatever was typed into
/// it, the records are those from before it was begun, and the session
/// browses again.
pub proof fn lemma_cancel_discards_the_new_record(session: SessionView, edits: Seq<UiEventView>)
    requires
        session.state is Browsing,
        forall|k: int| 0 <= k < edits.len() ==> spec_is_edit(#[trigger] edits[k]),
    ensures
        spec_steps(session.step(UiEventView::New), edits).step(
            UiEventView::Cancel,
        ).library.records == session.library.records,
        spec_steps(session.step(UiEventView::New), edits).step(UiEventView::Cancel).state
            is Browsing,
{
    lemma_edits_touch_the_new_record_only(session, edits);
    let edited = spec_steps(session.step(UiEventView::New), edits);
    assert(edited.step(UiEventView::Cancel).library.records =~= edited.library.records.drop_last());
}

/// Every action keeps a valid session valid.
pub proof fn lemma_step_keeps_valid(session: SessionView, event: UiEventView)
    requires
        session.wf(),
    ensures
        session.step(event).wf(),
{
}

} // verus!
