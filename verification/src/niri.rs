//! What the compositor reports and what it is asked to do, as plain values,
//! and the lookups that turn its raw answers into a snapshot.
use vstd::prelude::*;

verus! {

/// A window of the compositor's live window list.
#[derive(Copy, Clone, PartialEq, Eq, Debug)]
pub struct Window {
    pub id: u64,
    pub is_focused: bool,
    pub is_floating: bool,
    pub workspace_id: Option<u64>,
    pub width: i32,
    pub height: i32,
}

/// A workspace, with the name of the output that shows it.
#[derive(Clone, PartialEq, Eq, Debug)]
pub struct Workspace {
    pub id: u64,
    pub is_focused: bool,
    pub output: Option<String>,
}

/// An output, with its logical size in pixels where the compositor reports one.
#[derive(Clone, PartialEq, Eq, Debug)]
pub struct Output {
    pub name: String,
    pub logical: Option<(u32, u32)>,
}

/// The live data of one reorder pass.
#[derive(Clone, PartialEq, Eq, Debug)]
pub struct Snapshot {
    pub windows: Vec<Window>,
    pub active_workspace: u64,
    pub display_width: i32,
    pub display_height: i32,
}

/// A request to the compositor. Positions and sizes are fixed pixel values; a
/// window moved to a workspace does not take the focus along. The two
/// coordinates are wide enough for every configuration and every height of the
/// stack, so that no position is ever cut off.
#[derive(Copy, Clone, PartialEq, Eq, Debug)]
pub enum Action {
    CloseWindow { id: u64 },
    MoveFloatingWindow { id: u64, x: i64, y: i128 },
    SetWindowWidth { id: u64, width: i32 },
    SetWindowHeight { id: u64, height: i32 },
    ToggleWindowFloating { id: u64 },
    MoveWindowToWorkspace { window_id: u64, workspace_id: u64 },
    FocusWindow { id: u64 },
}

/// An event of the compositor's event stream.
#[derive(Copy, Clone, PartialEq, Eq, Debug)]
pub enum Event {
    WindowClosed { id: u64 },
    WindowFocusChanged,
    WorkspaceActivated { id: u64, focused: bool },
    Other,
}

/// Why a command cannot go on: the live session lacks what it needs.
#[derive(Copy, Clone, PartialEq, Eq, Debug)]
pub enum Error {
    NoFocusedWindow,
    NoActiveWorkspace,
    WorkspaceWithoutOutput,
    OutputNotFound,
    NoLogicalSize,
}

impl Error {
    /// The text that tells the user what is missing.
    pub open spec fn text(self) -> Seq<char> {
        match self {
            Error::NoFocusedWindow => "No window focused"@,
            Error::NoActiveWorkspace => "No active workspace found"@,
            Error::WorkspaceWithoutOutput => "Focused workspace is not on an output"@,
            Error::OutputNotFound => "Output not found"@,
            Error::NoLogicalSize => "Output has no logical size"@,
        }
    }

    /// The message to show to the user.
    pub fn message(&self) -> (message: String)
        ensures
            message@ == self.text(),
    {
        match self {
            Error::NoFocusedWindow => "No window focused".to_string(),
            Error::NoActiveWorkspace => "No active workspace found".to_string(),
            Error::WorkspaceWithoutOutput => "Focused workspace is not on an output".to_string(),
            Error::OutputNotFound => "Output not found".to_string(),
            Error::NoLogicalSize => "Output has no logical size".to_string(),
        }
    }
}

/// Window `i` is the first focused one.
pub open spec fn is_first_focused(windows: Seq<Window>, i: int) -> bool {
    &&& 0 <= i < windows.len()
    &&& windows[i].is_focused
    &&& forall|j: int| 0 <= j < i ==> !(#[trigger] windows[j]).is_focused
}

/// The first focused window of the list, if any.
pub open spec fn focused_of(windows: Seq<Window>) -> Option<Window> {
    if exists|i: int| is_first_focused(windows, i) {
        Some(windows[choose|i: int| is_first_focused(windows, i)])
    } else {
        None
    }
}

/// Workspace `i` is the first focused one.
pub open spec fn is_first_active(workspaces: Seq<Workspace>, i: int) -> bool {
    &&& 0 <= i < workspaces.len()
    &&& workspaces[i].is_focused
    &&& forall|j: int| 0 <= j < i ==> !(#[trigger] workspaces[j]).is_focused
}

/// The first focused workspace of the list, if any.
pub open spec fn active_workspace_of(workspaces: Seq<Workspace>) -> Option<Workspace> {
    if exists|i: int| is_first_active(workspaces, i) {
        Some(workspaces[choose|i: int| is_first_active(workspaces, i)])
    } else {
        None
    }
}

/// Output `i` is the first one called `name`.
pub open spec fn is_first_named(outputs: Seq<Output>, name: Seq<char>, i: int) -> bool {
    &&& 0 <= i < outputs.len()
    &&& outputs[i].name@ == name
    &&& forall|j: int| 0 <= j < i ==> (#[trigger] outputs[j]).name@ != name
}

/// The first output called `name`, if any.
pub open spec fn output_named(outputs: Seq<Output>, name: Seq<char>) -> Option<Output> {
    if exists|i: int| is_first_named(outputs, name, i) {
        Some(outputs[choose|i: int| is_first_named(outputs, name, i)])
    } else {
        None
    }
}

/// A reported extent as a signed pixel count, `fallback` where it does not fit.
pub open spec fn extent(reported: u32, fallback: i32) -> i32 {
    if reported <= i32::MAX {
        reported as i32
    } else {
        fallback
    }
}

/// The logical size of the output that shows `workspace`, or what is missing.
pub open spec fn screen_dimensions_of(workspace: Workspace, outputs: Seq<Output>) -> Result<
    (i32, i32),
    Error,
> {
    match workspace.output {
        None => Err(Error::WorkspaceWithoutOutput),
        Some(name) => match output_named(outputs, name@) {
            None => Err(Error::OutputNotFound),
            Some(output) => match output.logical {
                None => Err(Error::NoLogicalSize),
                Some(size) => Ok((extent(size.0, 1920), extent(size.1, 1080))),
            },
        },
    }
}

/// The snapshot that the compositor's three answers amount to, or what is missing.
pub open spec fn snapshot_of(
    windows: Seq<Window>,
    workspaces: Seq<Workspace>,
    outputs: Seq<Output>,
) -> Result<(Seq<Window>, u64, i32, i32), Error> {
    match active_workspace_of(workspaces) {
        None => Err(Error::NoActiveWorkspace),
        Some(workspace) => match screen_dimensions_of(workspace, outputs) {
            Err(e) => Err(e),
            Ok(size) => Ok((windows, workspace.id, size.0, size.1)),
        },
    }
}

/// The first focused window of the live list.
pub fn focused_window(windows: &Vec<Window>) -> (found: Option<Window>)
    ensures
        found == focused_of(windows@),
{
    let mut i: usize = 0;
    while i < windows.len()
        invariant
            i <= windows@.len(),
            forall|j: int| 0 <= j < i ==> !(#[trigger] windows@[j]).is_focused,
        decreases windows@.len() - i,
    {
        if windows[i].is_focused {
            proof {
                assert(is_first_focused(windows@, i as int));
                let c = choose|c: int| is_first_focused(windows@, c);
                assert(c == i) by {
                    if c < i {
                        assert(!windows@[c].is_focused);
                    }
                    if i < c {
                        assert(!windows@[i as int].is_focused);
                    }
                }
            }
            return Some(windows[i]);
        }
        i += 1;
    }
    None
}

/// The focused workspace among the workspaces that the compositor listed.
pub fn get_active_workspace<'a>(workspaces: &'a Vec<Workspace>) -> (found: Result<
    &'a Workspace,
    Error,
>)
    ensures
        match found {
            Ok(workspace) => active_workspace_of(workspaces@) == Some(*workspace),
            Err(e) => e == Error::NoActiveWorkspace && active_workspace_of(workspaces@).is_none(),
        },
{
    let mut i: usize = 0;
    while i < workspaces.len()
        invariant
            i <= workspaces@.len(),
            forall|j: int| 0 <= j < i ==> !(#[trigger] workspaces@[j]).is_focused,
        decreases workspaces@.len() - i,
    {
        if workspaces[i].is_focused {
            proof {
                assert(is_first_active(workspaces@, i as int));
                let c = choose|c: int| is_first_active(workspaces@, c);
                assert(c == i) by {
                    if c < i {
                        assert(!workspaces@[c].is_focused);
                    }
                    if i < c {
                        assert(!workspaces@[i as int].is_focused);
                    }
                }
            }
            return Ok(&workspaces[i]);
        }
        i += 1;
    }
    Err(Error::NoActiveWorkspace)
}

/// The id of the focused workspace.
pub fn get_active_workspace_id(workspaces: &Vec<Workspace>) -> (found: Result<u64, Error>)
    ensures
        match found {
            Ok(id) => active_workspace_of(workspaces@).is_some() && id == active_workspace_of(
                workspaces@,
            ).unwrap().id,
            Err(e) => e == Error::NoActiveWorkspace && active_workspace_of(workspaces@).is_none(),
        },
{
    match get_active_workspace(workspaces) {
        Ok(workspace) => Ok(workspace.id),
        Err(e) => Err(e),
    }
}

/// A reported extent as a signed pixel count, `fallback` where it does not fit.
fn to_extent(reported: u32, fallback: i32) -> (pixels: i32)
    ensures
        pixels == extent(reported, fallback),
{
    if reported <= 0x7fff_ffff {
        reported as i32
    } else {
        fallback
    }
}

/// The first output called `name`.
fn find_output<'a>(outputs: &'a Vec<Output>, name: &String) -> (found: Option<&'a Output>)
    ensures
        match found {
            Some(output) => output_named(outputs@, name@) == Some(*output),
            None => output_named(outputs@, name@).is_none(),
        },
{
    let mut i: usize = 0;
    while i < outputs.len()
        invariant
            i <= outputs@.len(),
            forall|j: int| 0 <= j < i ==> (#[trigger] outputs@[j]).name@ != name@,
        decreases outputs@.len() - i,
    {
        if outputs[i].name == *name {
            proof {
                assert(is_first_named(outputs@, name@, i as int));
                let c = choose|c: int| is_first_named(outputs@, name@, c);
                assert(c == i) by {
                    if c < i {
                        assert(outputs@[c].name@ != name@);
                    }
                    if i < c {
                        assert(outputs@[i as int].name@ != name@);
                    }
                }
            }
            return Some(&outputs[i]);
        }
        i += 1;
    }
    None
}

/// The logical size, in pixels, of the output that shows `workspace`: 1920 for
/// a width and 1080 for a height that does not fit a signed 32-bit number.
pub fn get_screen_dimensions(workspace: &Workspace, outputs: &Vec<Output>) -> (size: Result<
    (i32, i32),
    Error,
>)
    ensures
        size == screen_dimensions_of(*workspace, outputs@),
{
    match &workspace.output {
        None => Err(Error::WorkspaceWithoutOutput),
        Some(name) => match find_output(outputs, name) {
            None => Err(Error::OutputNotFound),
            Some(output) => match output.logical {
                None => Err(Error::NoLogicalSize),
                Some(logical) => Ok((to_extent(logical.0, 1920), to_extent(logical.1, 1080))),
            },
        },
    }
}

impl Snapshot {
    /// The snapshot that the compositor's answers to the three queries amount
    /// to: all windows, the focused workspace and the size of its output.
    pub fn gather(windows: Vec<Window>, workspaces: &Vec<Workspace>, outputs: &Vec<Output>) -> (
        snapshot: Result<Snapshot, Error>)
        ensures
            match snapshot {
                Ok(s) => snapshot_of(windows@, workspaces@, outputs@) == Ok::<
                    (Seq<Window>, u64, i32, i32),
                    Error,
                >((s.windows@, s.active_workspace, s.display_width, s.display_height)),
                Err(e) => snapshot_of(windows@, workspaces@, outputs@) == Err::<
                    (Seq<Window>, u64, i32, i32),
                    Error,
                >(e),
            },
    {
        let workspace = match get_active_workspace(workspaces) {
            Ok(workspace) => workspace,
            Err(e) => { return Err(e); },
        };
        match get_screen_dimensions(workspace, outputs) {
            Err(e) => Err(e),
            Ok(size) => Ok(
                Snapshot {
                    windows,
                    active_workspace: workspace.id,
                    display_width: size.0,
                    display_height: size.1,
                },
            ),
        }
    }
}

} // verus!
