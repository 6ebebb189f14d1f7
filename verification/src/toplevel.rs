use crate::binary64::Binary64;
use vstd::prelude::*;

verus! {

/// Used to globally identify a session.
pub type SessionId = String;

/// Used to identify an application.
pub type AppId = String;

/// Used to identify what window is being restored, and may be used by clients to store window
/// specific state within the session.
pub type ToplevelId = String;

/// A reference to a specific toplevel session.
#[derive(Debug, Eq)]
pub struct ToplevelSessionRef {
    pub session_id: SessionId,
    pub toplevel_id: ToplevelId,
    pub app_id: Option<AppId>,
}

/// What a `ToplevelSessionRef` says.
pub struct ToplevelSessionRefView {
    pub session_id: Seq<char>,
    pub toplevel_id: Seq<char>,
    pub app_id: Option<Seq<char>>,
}

/// The text of an optional string.
pub open spec fn option_text(text: Option<String>) -> Option<Seq<char>> {
    match text {
        Some(text) => Some(text@),
        None => None,
    }
}

/// Whether two optional strings are the same.
pub(crate) fn same_option(a: &Option<String>, b: &Option<String>) -> (same: bool)
    ensures
        same == (option_text(*a) == option_text(*b)),
{
    match (a, b) {
        (Some(a), Some(b)) => *a == *b,
        (None, None) => true,
        _ => false,
    }
}

/// A copy of an optional string.
pub(crate) fn clone_option(text: &Option<String>) -> (copy: Option<String>)
    ensures
        option_text(copy) == option_text(*text),
{
    match text {
        Some(text) => Some(text.clone()),
        None => None,
    }
}

impl View for ToplevelSessionRef {
    type V = ToplevelSessionRefView;

    open spec fn view(&self) -> ToplevelSessionRefView {
        ToplevelSessionRefView {
            session_id: self.session_id@,
            toplevel_id: self.toplevel_id@,
            app_id: option_text(self.app_id),
        }
    }
}

impl PartialEq for ToplevelSessionRef {
    fn eq(&self, other: &Self) -> (same: bool) {
        self.session_id == other.session_id && self.toplevel_id == other.toplevel_id
            && same_option(&self.app_id, &other.app_id)
    }
}

impl vstd::std_specs::cmp::PartialEqSpecImpl for ToplevelSessionRef {
    open spec fn obeys_eq_spec() -> bool {
        true
    }

    open spec fn eq_spec(&self, other: &Self) -> bool {
        self@ == other@
    }
}

impl Clone for ToplevelSessionRef {
    fn clone(&self) -> (copy: Self)
        ensures
            copy@ == self@,
    {
        ToplevelSessionRef {
            session_id: self.session_id.clone(),
            toplevel_id: self.toplevel_id.clone(),
            app_id: clone_option(&self.app_id),
        }
    }
}

/// Emitted whenever a toplevel's session state is updated.
#[derive(Debug, Eq, PartialEq)]
pub struct ToplevelUpdated {
    pub session_ref: ToplevelSessionRef,
}

impl Clone for ToplevelUpdated {
    fn clone(&self) -> (copy: Self)
        ensures
            copy.session_ref@ == self.session_ref@,
    {
        ToplevelUpdated { session_ref: self.session_ref.clone() }
    }
}

/// Identifies a workspace that has no name.
#[derive(Clone, Copy, Debug, PartialEq, Eq, Structural)]
pub struct WorkspaceId {
    pub value: u64,
}

/// Identifies a workspace by name (if it has one) or an ID.
#[derive(Debug, PartialEq)]
pub enum ToplevelSessionWorkspace {
    Named(String),
    Unnamed(WorkspaceId),
}

/// What a `ToplevelSessionWorkspace` says.
pub enum ToplevelSessionWorkspaceView {
    Named(Seq<char>),
    Unnamed(WorkspaceId),
}

impl View for ToplevelSessionWorkspace {
    type V = ToplevelSessionWorkspaceView;

    open spec fn view(&self) -> ToplevelSessionWorkspaceView {
        match *self {
            ToplevelSessionWorkspace::Named(name) => ToplevelSessionWorkspaceView::Named(name@),
            ToplevelSessionWorkspace::Unnamed(id) => ToplevelSessionWorkspaceView::Unnamed(id),
        }
    }
}

impl Clone for ToplevelSessionWorkspace {
    fn clone(&self) -> (copy: Self)
        ensures
            copy@ == self@,
    {
        match self {
            ToplevelSessionWorkspace::Named(name) => ToplevelSessionWorkspace::Named(name.clone()),
            ToplevelSessionWorkspace::Unnamed(id) => ToplevelSessionWorkspace::Unnamed(*id),
        }
    }
}

/// The width of a column in a scrollable-tiling space.
#[derive(Clone, Copy, Debug, PartialEq)]
pub enum ColumnWidth {
    /// A proportion of the working area.
    Proportion(Binary64),
    /// A fixed width, in logical pixels.
    Fixed(Binary64),
}

/// The height of a window in a column.
#[derive(Clone, Copy, Debug, PartialEq)]
pub enum WindowHeight {
    /// Shares the height that the other windows leave, in proportion to the weight.
    Auto { weight: Binary64 },
    /// A fixed height, in logical pixels.
    Fixed(Binary64),
    /// One of the preset heights.
    Preset(usize),
}

/// A size that a window may be given when it opens.
#[derive(Clone, Copy, Debug, PartialEq)]
pub enum PresetSize {
    Proportion(Binary64),
    Fixed(i32),
}

/// The width that a restored window opens with.
#[derive(Clone, Copy, Debug, PartialEq)]
pub enum InitialWidth {
    /// As wide as its column was. The layout turns a column width into a preset size.
    Column(ColumnWidth),
    /// A fixed width, in logical pixels.
    Fixed(i32),
}

/// The corner that a floating position counts from.
#[derive(Clone, Copy, Debug, PartialEq, Eq, Structural)]
pub enum RelativeTo {
    TopLeft,
}

/// Where a floating window opens, in whole logical pixels.
#[derive(Clone, Copy, Debug, PartialEq, Eq, Structural)]
pub struct FloatingPosition {
    pub x: i32,
    pub y: i32,
    pub relative_to: RelativeTo,
}

/// Describes where a toplevel window is located.
#[derive(Clone, Copy, Debug, PartialEq)]
#[allow(inconsistent_fields)]
pub enum WindowAttributes {
    /// The window is in a scrollable-tiling space.
    Scrolling {
        /// Where in the scrollable-tiling space the window is located.
        column_index: usize,
        /// How wide the window should be.
        width: ColumnWidth,
        /// How tall the window should be.
        height: WindowHeight,
        /// Whether the column is full-width.
        is_full_width: bool,
    },
    /// The window is in a floating space.
    Floating {
        /// The window's width, in logical pixels.
        width: i32,
        /// The window's height, in logical pixels.
        height: i32,
        /// The window's horizontal coordinate, in logical pixels from the left side.
        x: i32,
        /// The window's vertical coordinate, in logical pixels from the top.
        y: i32,
    },
}

/// The position and size of a window, in logical pixels.
#[derive(Clone, Copy, Debug, PartialEq, Eq, Structural)]
pub struct Geometry {
    pub x: i32,
    pub y: i32,
    pub width: i32,
    pub height: i32,
}

/// What a mapped window tells about itself.
#[derive(Debug)]
pub struct MappedWindow {
    /// The toplevel session that the window is tracked by.
    pub session_ref: Option<ToplevelSessionRef>,
    pub is_floating: bool,
    pub geometry: Geometry,
}

/// What a `MappedWindow` says.
pub struct MappedWindowView {
    pub session_ref: Option<ToplevelSessionRefView>,
    pub is_floating: bool,
    pub geometry: Geometry,
}

impl View for MappedWindow {
    type V = MappedWindowView;

    open spec fn view(&self) -> MappedWindowView {
        MappedWindowView {
            session_ref: match self.session_ref {
                Some(session_ref) => Some(session_ref@),
                None => None,
            },
            is_floating: self.is_floating,
            geometry: self.geometry,
        }
    }
}

/// What the layout tells about the workspace that a window is on, and about the window's place in
/// its scrollable-tiling space.
#[derive(Debug)]
pub struct WindowWorkspace {
    pub id: WorkspaceId,
    pub name: Option<String>,
    pub column_index: Option<usize>,
    pub height: Option<WindowHeight>,
    pub column_width: Option<ColumnWidth>,
    pub is_full_width: Option<bool>,
}

/// What a `WindowWorkspace` says.
pub struct WindowWorkspaceView {
    pub id: WorkspaceId,
    pub name: Option<Seq<char>>,
    pub column_index: Option<usize>,
    pub height: Option<WindowHeight>,
    pub column_width: Option<ColumnWidth>,
    pub is_full_width: Option<bool>,
}

impl View for WindowWorkspace {
    type V = WindowWorkspaceView;

    open spec fn view(&self) -> WindowWorkspaceView {
        WindowWorkspaceView {
            id: self.id,
            name: option_text(self.name),
            column_index: self.column_index,
            height: self.height,
            column_width: self.column_width,
            is_full_width: self.is_full_width,
        }
    }
}

/// What an optional workspace says.
pub open spec fn option_workspace(workspace: Option<&WindowWorkspace>) -> Option<
    WindowWorkspaceView,
> {
    match workspace {
        Some(workspace) => Some(workspace@),
        None => None,
    }
}

impl WindowWorkspaceView {
    /// How the workspace is remembered: by its name, or by its ID where it has no name.
    pub open spec fn remembered(self) -> ToplevelSessionWorkspaceView {
        match self.name {
            Some(name) => ToplevelSessionWorkspaceView::Named(name),
            None => ToplevelSessionWorkspaceView::Unnamed(self.id),
        }
    }
}

impl MappedWindowView {
    /// How the window's location is remembered: by its geometry if it floats, else by its column,
    /// provided that the layout knows everything about the latter.
    pub open spec fn remembered(self, workspace: WindowWorkspaceView) -> Option<WindowAttributes> {
        if self.is_floating {
            Some(
                WindowAttributes::Floating {
                    width: self.geometry.width,
                    height: self.geometry.height,
                    x: self.geometry.x,
                    y: self.geometry.y,
                },
            )
        } else {
            match (
                workspace.column_index,
                workspace.height,
                workspace.column_width,
                workspace.is_full_width,
            ) {
                (Some(column_index), Some(height), Some(width), Some(is_full_width)) => Some(
                    WindowAttributes::Scrolling { column_index, width, height, is_full_width },
                ),
                _ => None,
            }
        }
    }
}

/// The session data for a single toplevel window.
#[derive(Debug, PartialEq)]
pub struct ToplevelSessionState {
    pub session_ref: ToplevelSessionRef,
    pub workspace: Option<ToplevelSessionWorkspace>,
    pub attributes: Option<WindowAttributes>,
}

/// What a `ToplevelSessionState` says.
pub struct ToplevelSessionStateView {
    pub session_ref: ToplevelSessionRefView,
    pub workspace: Option<ToplevelSessionWorkspaceView>,
    pub attributes: Option<WindowAttributes>,
}

impl ToplevelSessionStateView {
    /// The state of a toplevel of which nothing is remembered yet.
    pub open spec fn blank(session_ref: ToplevelSessionRefView) -> Self {
        ToplevelSessionStateView { session_ref, workspace: None, attributes: None }
    }

    /// The state once a mapped window has been looked at. Nothing changes while the layout does
    /// not know the window's workspace. The attributes stay as they were if the window's location
    /// cannot be told.
    pub open spec fn updated(
        self,
        mapped: MappedWindowView,
        workspace: Option<WindowWorkspaceView>,
    ) -> Self {
        match workspace {
            Some(workspace) => ToplevelSessionStateView {
                workspace: Some(workspace.remembered()),
                attributes: match mapped.remembered(workspace) {
                    Some(attributes) => Some(attributes),
                    None => self.attributes,
                },
                ..self
            },
            None => self,
        }
    }

    pub open spec fn initial_column_index(self) -> Option<usize> {
        match self.attributes {
            Some(WindowAttributes::Scrolling { column_index, .. }) => Some(column_index),
            _ => None,
        }
    }

    pub open spec fn was_full_width(self) -> Option<bool> {
        match self.attributes {
            Some(WindowAttributes::Scrolling { is_full_width, .. }) => Some(is_full_width),
            _ => None,
        }
    }

    pub open spec fn was_floating(self) -> Option<bool> {
        match self.attributes {
            Some(attributes) => Some(attributes is Floating),
            None => None,
        }
    }

    pub open spec fn initial_width(self) -> Option<InitialWidth> {
        match self.attributes {
            Some(WindowAttributes::Scrolling { width, .. }) => Some(InitialWidth::Column(width)),
            Some(WindowAttributes::Floating { width, .. }) => Some(InitialWidth::Fixed(width)),
            None => None,
        }
    }

    /// A fixed height is truncated to whole pixels. Any other height in a column becomes the full
    /// height.
    pub open spec fn initial_height(self) -> Option<PresetSize> {
        match self.attributes {
            Some(WindowAttributes::Scrolling { height: WindowHeight::Fixed(height), .. }) => Some(
                PresetSize::Fixed(height.truncated() as i32),
            ),
            Some(WindowAttributes::Scrolling { .. }) => Some(
                PresetSize::Proportion(Binary64 { bits: crate::binary64::ONE_BITS }),
            ),
            Some(WindowAttributes::Floating { height, .. }) => Some(PresetSize::Fixed(height)),
            None => None,
        }
    }

    pub open spec fn initial_floating_position(self) -> Option<FloatingPosition> {
        match self.attributes {
            Some(WindowAttributes::Floating { x, y, .. }) => Some(
                FloatingPosition { x, y, relative_to: RelativeTo::TopLeft },
            ),
            _ => None,
        }
    }
}

impl View for ToplevelSessionState {
    type V = ToplevelSessionStateView;

    open spec fn view(&self) -> ToplevelSessionStateView {
        ToplevelSessionStateView {
            session_ref: self.session_ref@,
            workspace: match self.workspace {
                Some(workspace) => Some(workspace@),
                None => None,
            },
            attributes: self.attributes,
        }
    }
}

impl Clone for ToplevelSessionState {
    fn clone(&self) -> (copy: Self)
        ensures
            copy@ == self@,
    {
        ToplevelSessionState {
            session_ref: self.session_ref.clone(),
            workspace: match &self.workspace {
                Some(workspace) => Some(workspace.clone()),
                None => None,
            },
            attributes: self.attributes,
        }
    }
}

impl ToplevelSessionState {
    /// The state of a toplevel of which nothing is remembered yet.
    pub fn new(session_ref: ToplevelSessionRef) -> (state: Self)
        ensures
            state@ == ToplevelSessionStateView::blank(session_ref@),
            state.session_ref == session_ref,
            state.workspace is None,
            state.attributes is None,
    {
        ToplevelSessionState { session_ref, workspace: None, attributes: None }
    }

    /// The reference to this toplevel session.
    pub fn get_ref(&self) -> (session_ref: ToplevelSessionRef)
        ensures
            session_ref@ == self@.session_ref,
    {
        self.session_ref.clone()
    }

    /// Remembers where a mapped window is. `workspace` is what the layout knows of the workspace
    /// that the window is on.
    pub fn update(&mut self, mapped: &MappedWindow, workspace: Option<&WindowWorkspace>)
        ensures
            final(self)@ == old(self)@.updated(mapped@, option_workspace(workspace)),
            final(self).session_ref == old(self).session_ref,
            workspace is None ==> *final(self) == *old(self),
            workspace matches Some(seen) ==> {
                &&& seen.name matches Some(text) ==> final(self).workspace matches Some(
                    ToplevelSessionWorkspace::Named(name),
                ) && name@ == text@
                &&& seen.name is None ==> final(self).workspace == Some(
                    ToplevelSessionWorkspace::Unnamed(seen.id),
                )
                &&& mapped.is_floating ==> final(self).attributes == Some(
                    (WindowAttributes::Floating {
                        width: mapped.geometry.width,
                        height: mapped.geometry.height,
                        x: mapped.geometry.x,
                        y: mapped.geometry.y,
                    }),
                )
                &&& !mapped.is_floating && seen.column_index is Some && seen.height is Some
                    && seen.column_width is Some && seen.is_full_width is Some ==> final(self).attributes == Some(
                    (WindowAttributes::Scrolling {
                        column_index: seen.column_index->0,
                        width: seen.column_width->0,
                        height: seen.height->0,
                        is_full_width: seen.is_full_width->0,
                    }),
                )
                &&& !mapped.is_floating && (seen.column_index is None || seen.height is None
                    || seen.column_width is None || seen.is_full_width is None) ==> final(self).attributes == old(self).attributes
            },
    {
        let workspace = match workspace {
            Some(workspace) => workspace,
            None => {
                return;
            },
        };

        self.workspace = Some(
            match &workspace.name {
                Some(name) => ToplevelSessionWorkspace::Named(name.clone()),
                None => ToplevelSessionWorkspace::Unnamed(workspace.id),
            },
        );

        if mapped.is_floating {
            self.attributes = Some(
                WindowAttributes::Floating {
                    width: mapped.geometry.width,
                    height: mapped.geometry.height,
                    x: mapped.geometry.x,
                    y: mapped.geometry.y,
                },
            );
            return;
        }
        let column_index: usize = match workspace.column_index {
            Some(column_index) => column_index,
            None => {
                return;
            },
        };
        let height = match workspace.height {
            Some(height) => height,
            None => {
                return;
            },
        };
        let width = match workspace.column_width {
            Some(width) => width,
            None => {
                return;
            },
        };
        let is_full_width: bool = match workspace.is_full_width {
            Some(is_full_width) => is_full_width,
            None => {
                return;
            },
        };
        self.attributes = Some(
            WindowAttributes::Scrolling { column_index, width, height, is_full_width },
        );
    }

    /// The workspace that the window was on.
    pub fn initial_workspace(&self) -> (workspace: Option<&ToplevelSessionWorkspace>)
        ensures
            match workspace {
                Some(workspace) => self@.workspace == Some(workspace@),
                None => self@.workspace is None,
            },
    {
        match &self.workspace {
            Some(workspace) => Some(workspace),
            None => None,
        }
    }

    /// The column that the window was in.
    pub fn initial_column_index(&self) -> (column_index: Option<usize>)
        ensures
            column_index == self@.initial_column_index(),
    {
        match &self.attributes {
            Some(WindowAttributes::Scrolling { column_index, .. }) => Some(*column_index),
            _ => None,
        }
    }

    /// Whether the window's column was full-width.
    pub fn was_full_width(&self) -> (full_width: Option<bool>)
        ensures
            full_width == self@.was_full_width(),
    {
        match &self.attributes {
            Some(WindowAttributes::Scrolling { is_full_width, .. }) => Some(*is_full_width),
            _ => None,
        }
    }

    /// Whether the window was in a floating space.
    pub fn was_floating(&self) -> (floating: Option<bool>)
        ensures
            floating == self@.was_floating(),
    {
        match &self.attributes {
            Some(WindowAttributes::Floating { .. }) => Some(true),
            Some(WindowAttributes::Scrolling { .. }) => Some(false),
            None => None,
        }
    }

    /// The width that the window opens with.
    pub fn initial_width(&self) -> (width: Option<InitialWidth>)
        ensures
            width == self@.initial_width(),
    {
        match &self.attributes {
            Some(WindowAttributes::Scrolling { width, .. }) => Some(InitialWidth::Column(*width)),
            Some(WindowAttributes::Floating { width, .. }) => Some(InitialWidth::Fixed(*width)),
            None => None,
        }
    }

    /// The height that the window opens with.
    pub fn initial_height(&self) -> (height: Option<PresetSize>)
        ensures
            height == self@.initial_height(),
    {
        match &self.attributes {
            Some(WindowAttributes::Scrolling { height, .. }) => match height {
                WindowHeight::Fixed(height) => Some(PresetSize::Fixed(height.truncate())),
                _ => Some(PresetSize::Proportion(Binary64::one())),
            },
            Some(WindowAttributes::Floating { height, .. }) => Some(PresetSize::Fixed(*height)),
            None => None,
        }
    }

    /// Where the window opens if it was in a floating space.
    pub fn initial_floating_position(&self) -> (position: Option<FloatingPosition>)
        ensures
            position == self@.initial_floating_position(),
    {
        match &self.attributes {
            Some(WindowAttributes::Floating { x, y, .. }) => Some(
                FloatingPosition { x: *x, y: *y, relative_to: RelativeTo::TopLeft },
            ),
            _ => None,
        }
    }
}

/// A session which may store persistent state for a toplevel.
#[derive(Debug, PartialEq)]
pub struct ToplevelSession {
    pub state: ToplevelSessionState,
    /// Whether the session was created by a request to restore the toplevel, rather than by one
    /// to add it.
    pub is_restoring: bool,
}

impl Clone for ToplevelSession {
    fn clone(&self) -> (copy: Self)
        ensures
            copy.state@ == self.state@,
            copy.is_restoring == self.is_restoring,
    {
        ToplevelSession { state: self.state.clone(), is_restoring: self.is_restoring }
    }
}

impl ToplevelSession {
    /// The reference to this toplevel session.
    pub fn get_ref(&self) -> (session_ref: ToplevelSessionRef)
        ensures
            session_ref@ == self.state@.session_ref,
    {
        self.state.get_ref()
    }

    /// Whether the toplevel is being restored. It is then to be told once it has been.
    pub fn is_restoring(&self) -> (restoring: bool)
        ensures
            restoring == self.is_restoring,
    {
        self.is_restoring
    }

    /// The workspace that the window was on.
    pub fn initial_workspace(&self) -> (workspace: Option<&ToplevelSessionWorkspace>)
        ensures
            match workspace {
                Some(workspace) => self.state@.workspace == Some(workspace@),
                None => self.state@.workspace is None,
            },
    {
        self.state.initial_workspace()
    }

    /// The column that the window was in.
    pub fn initial_column_index(&self) -> (column_index: Option<usize>)
        ensures
            column_index == self.state@.initial_column_index(),
    {
        self.state.initial_column_index()
    }

    /// Whether the window's column was full-width.
    pub fn was_full_width(&self) -> (full_width: Option<bool>)
        ensures
            full_width == self.state@.was_full_width(),
    {
        self.state.was_full_width()
    }

    /// Whether the window was in a floating space.
    pub fn was_floating(&self) -> (floating: Option<bool>)
        ensures
            floating == self.state@.was_floating(),
    {
        self.state.was_floating()
    }

    /// The width that the window opens with.
    pub fn initial_width(&self) -> (width: Option<InitialWidth>)
        ensures
            width == self.state@.initial_width(),
    {
        self.state.initial_width()
    }

    /// The height that the window opens with.
    pub fn initial_height(&self) -> (height: Option<PresetSize>)
        ensures
            height == self.state@.initial_height(),
    {
        self.state.initial_height()
    }

    /// Where the window opens if it was in a floating space.
    pub fn initial_floating_position(&self) -> (position: Option<FloatingPosition>)
        ensures
            position == self.state@.initial_floating_position(),
    {
        self.state.initial_floating_position()
    }
}

} // verus!
