//! The panes of the workbench: which pane has the focus, what each pane
//! hosts, how a message finds the tool that it is meant for, and which
//! controls a pane offers.

use crate::block_inspector;
use crate::hashes;
use vstd::prelude::*;

verus! {

/// A tool that a pane can host.
#[derive(Debug, Clone, Copy, PartialEq, Eq, Structural)]
pub enum ToolKind {
    BlockInspector,
    Hashes,
}

/// What a pane hosts.
#[derive(Debug)]
pub enum Tool {
    /// Nothing yet: the pane offers the tools to choose from.
    Select,
    BlockInspector(block_inspector::state::State),
    Hashes(hashes::state::State),
}

/// A message to the tool in a pane.
#[derive(Debug, Clone)]
pub enum ToolMessage {
    /// Open a tool in a pane that hosts none.
    SelectTool(ToolKind),
    BlockInspector(block_inspector::update::Message),
    Hashes(hashes::update::Message),
}

/// What the caller is to do after a message was dispatched: the command of
/// the tool that took it.
#[derive(Debug, Clone)]
pub enum ToolCommand {
    Nothing,
    BlockInspector(block_inspector::update::Command),
    Hashes(hashes::update::Command),
}

/// A pane of the grid.
#[derive(Debug)]
pub struct Pane {
    /// A pinned pane cannot be closed.
    pub pinned: bool,
    pub content: Tool,
}

/// A control in the title bar of a pane, from left to right.
#[derive(Debug, Clone, Copy, PartialEq, Eq, Structural)]
pub enum Control {
    Maximize,
    Restore,
    SplitVertical,
    SplitHorizontal,
    /// The button that closes the pane; it is dead while the pane is pinned.
    Close { enabled: bool },
}

/// The line along which a pane is split.
#[derive(Debug, Clone, Copy, PartialEq, Eq, Structural)]
pub enum Axis {
    Horizontal,
    Vertical,
}

/// The side on which a neighbour of a pane lies.
#[derive(Debug, Clone, Copy, PartialEq, Eq, Structural)]
pub enum Direction {
    Up,
    Down,
    Left,
    Right,
}

/// What dragging a pane came to. `P` names a pane, `T` a place to drop one.
#[derive(Debug, Clone)]
pub enum DragEvent<P, T> {
    Picked { pane: P },
    Dropped { pane: P, target: T },
    Canceled { pane: P },
}

/// What can happen to the grid. `P` names a pane, `T` a place to drop one,
/// and `R` says how a split was moved: the grid itself, which lays the panes
/// out, is the caller's.
#[derive(Debug, Clone)]
pub enum Message<P, T, R> {
    Split(Axis, P),
    SplitFocused(Axis),
    FocusAdjacent(Direction),
    Clicked(P),
    Dragged(DragEvent<P, T>),
    Resized(R),
    TogglePin(P),
    Maximize(P),
    Restore,
    Close(P),
    CloseFocused,
    Dispatch(P, ToolMessage),
}

/// What the caller is to do with its grid after an update.
#[derive(Debug, Clone)]
pub enum Action<P, T, R> {
    Nothing,
    /// Split the pane, with an empty pane as the new one, and report the
    /// new pane to `State::landed`.
    Split(Axis, P),
    /// Look for the neighbour of the pane and report it to `State::landed`.
    Adjacent(P, Direction),
    Resize(R),
    Drop(P, T),
    TogglePin(P),
    Maximize(P),
    Restore,
    /// Empty the pane: it is the last one and stays.
    Reset(P),
    /// Close the pane and report its sibling to `State::landed`.
    Close(P),
    /// Close the pane if it is there and not pinned, and report its sibling
    /// to `State::landed`.
    CloseUnlessPinned(P),
    Dispatch(P, ToolMessage),
}

/// What the workbench knows of its grid beside the layout: which pane has
/// the focus.
#[derive(Debug, Clone)]
pub struct State<P> {
    pub focus: Option<P>,
}

/// What closing a pane does to the grid.
#[derive(Debug, Clone, Copy, PartialEq, Eq, Structural)]
pub enum Closing {
    /// The pane is the only one: it stays, and hosts no tool again.
    Reset,
    /// The pane leaves the grid, and its sibling takes the focus.
    Remove,
}

impl ToolKind {
    /// The tools that an empty pane offers, in the order in which it shows
    /// them.
    pub const ALL: [ToolKind; 2] = [ToolKind::BlockInspector, ToolKind::Hashes];

    /// The name on the button that opens the tool.
    pub fn name(&self) -> (r: &'static str)
        ensures
            r@ == match self {
                ToolKind::BlockInspector => "Block Inspector"@,
                ToolKind::Hashes => "Hashes"@,
            },
    {
        match self {
            ToolKind::BlockInspector => "Block Inspector",
            ToolKind::Hashes => "Hashes",
        }
    }

    /// The name of the icon on the button that opens the tool.
    pub fn icon(&self) -> (r: &'static str)
        ensures
            r@ == match self {
                ToolKind::BlockInspector => "cube"@,
                ToolKind::Hashes => "hashtag"@,
            },
    {
        match self {
            ToolKind::BlockInspector => "cube",
            ToolKind::Hashes => "hashtag",
        }
    }
}

impl Tool {
    /// The title of the pane that hosts the tool.
    pub open spec fn label(self) -> Seq<char> {
        match self {
            Tool::Select => "Select"@,
            Tool::BlockInspector(_) => "Block Inspector"@,
            Tool::Hashes(_) => "Hashes"@,
        }
    }

    /// Whether the tool is of the given kind, in the state in which every
    /// tool of that kind starts.
    pub open spec fn is_fresh(self, kind: ToolKind) -> bool {
        match kind {
            ToolKind::BlockInspector => {
                &&& self matches Tool::BlockInspector(state)
                &&& state.tx_cbor@.len() == 0
                &&& state.transaction is None
                &&& state.latest_request == 0
            },
            ToolKind::Hashes => {
                &&& self matches Tool::Hashes(state)
                &&& state.contents@.len() == 0
                &&& state.encoding is None
                &&& state.warning is None
                &&& state.cleared()
            },
        }
    }

    /// The title of the pane that hosts the tool.
    pub fn title(&self) -> (r: &'static str)
        ensures
            r@ == self.label(),
    {
        match self {
            Tool::Select => "Select",
            Tool::BlockInspector(_) => "Block Inspector",
            Tool::Hashes(_) => "Hashes",
        }
    }

    /// A tool of the given kind, in the state in which it starts.
    pub fn open(kind: ToolKind) -> (r: Tool)
        ensures
            r.is_fresh(kind),
    {
        match kind {
            ToolKind::BlockInspector => Tool::BlockInspector(
                block_inspector::state::State::default(),
            ),
            ToolKind::Hashes => Tool::Hashes(hashes::state::State::default()),
        }
    }
}

impl Pane {
    /// A pane that hosts `content` and is not pinned.
    pub fn new(content: Tool) -> (r: Pane)
        ensures
            r == (Pane { pinned: false, content }),
    {
        Pane { pinned: false, content }
    }

    /// Whether the pane may be closed: a pinned pane may not.
    pub fn closable(&self) -> (r: bool)
        ensures
            r == !self.pinned,
    {
        !self.pinned
    }

    /// Pins the pane, or takes the pin out.
    pub fn toggle_pin(&mut self)
        ensures
            final(self).pinned == !old(self).pinned,
            final(self).content == old(self).content,
    {
        self.pinned = !self.pinned;
    }

    /// Empties the pane: it hosts no tool again. The pin stays.
    pub fn reset(&mut self)
        ensures
            final(self).content == Tool::Select,
            final(self).pinned == old(self).pinned,
    {
        self.content = Tool::Select;
    }

    /// Whether `after` is what `dispatch` makes of this pane on `message`,
    /// with `command` for the caller.
    ///
    /// A pane that hosts no tool opens the tool that it is asked for. A tool
    /// takes the messages of its own kind. Any other pairing is dropped.
    pub open spec fn dispatched(
        self,
        message: ToolMessage,
        after: Pane,
        command: ToolCommand,
    ) -> bool {
        &&& after.pinned == self.pinned
        &&& match (self.content, message) {
            (Tool::Select, ToolMessage::SelectTool(kind)) => {
                &&& after.content.is_fresh(kind)
                &&& command is Nothing
            },
            (Tool::BlockInspector(state), ToolMessage::BlockInspector(m)) => {
                &&& after.content matches Tool::BlockInspector(next)
                &&& command matches ToolCommand::BlockInspector(c)
                &&& block_inspector::update::updated(state, m, next, c)
            },
            (Tool::Hashes(state), ToolMessage::Hashes(m)) => {
                &&& after.content matches Tool::Hashes(next)
                &&& command matches ToolCommand::Hashes(c)
                &&& hashes::update::updated(state, m, next, c)
            },
            _ => after.content == self.content && command is Nothing,
        }
    }

    /// Hands `message` to the tool in the pane, if it is meant for it.
    pub fn dispatch(&mut self, message: ToolMessage) -> (r: ToolCommand)
        ensures
            old(self).dispatched(message, *final(self), r),
    {
        match message {
            ToolMessage::SelectTool(kind) => {
                if let Tool::Select = &self.content {
                    self.content = Tool::open(kind);
                }
                ToolCommand::Nothing
            },
            ToolMessage::BlockInspector(m) => match &mut self.content {
                Tool::BlockInspector(state) => ToolCommand::BlockInspector(state.update(m)),
                _ => ToolCommand::Nothing,
            },
            ToolMessage::Hashes(m) => match &mut self.content {
                Tool::Hashes(state) => ToolCommand::Hashes(state.update(m)),
                _ => ToolCommand::Nothing,
            },
        }
    }
}

/// What `State::update` asks of the caller for `message`, with `focus` as
/// the pane that has the focus and `total_panes` panes in the grid.
///
/// A request that names a pane is handed on for that pane; one that means
/// the pane in focus is handed on for it, and dropped where none has the
/// focus. Of a drag only the drop counts. The last pane is emptied instead
/// of closed.
pub open spec fn action_for<P, T, R>(
    focus: Option<P>,
    message: Message<P, T, R>,
    total_panes: usize,
) -> Action<P, T, R> {
    match message {
        Message::Split(axis, pane) => Action::Split(axis, pane),
        Message::SplitFocused(axis) => match focus {
            Some(pane) => Action::Split(axis, pane),
            None => Action::Nothing,
        },
        Message::FocusAdjacent(direction) => match focus {
            Some(pane) => Action::Adjacent(pane, direction),
            None => Action::Nothing,
        },
        Message::Clicked(_) => Action::Nothing,
        Message::Dragged(DragEvent::Dropped { pane, target }) => Action::Drop(pane, target),
        Message::Dragged(_) => Action::Nothing,
        Message::Resized(resize) => Action::Resize(resize),
        Message::TogglePin(pane) => Action::TogglePin(pane),
        Message::Maximize(pane) => Action::Maximize(pane),
        Message::Restore => Action::Restore,
        Message::Close(pane) => if total_panes == 1 {
            Action::Reset(pane)
        } else {
            Action::Close(pane)
        },
        Message::CloseFocused => match focus {
            Some(pane) => Action::CloseUnlessPinned(pane),
            None => Action::Nothing,
        },
        Message::Dispatch(pane, message) => Action::Dispatch(pane, message),
    }
}

impl<P: Copy> State<P> {
    /// The state of a grid whose first pane is `first`: it has the focus.
    pub fn new(first: P) -> (r: State<P>)
        ensures
            r.focus == Some(first),
    {
        State { focus: Some(first) }
    }

    /// Takes in what happened and says what the caller is to do with its
    /// grid. A click moves the focus to the pane that was clicked; nothing
    /// else moves it before the grid has answered.
    pub fn update<T, R>(&mut self, message: Message<P, T, R>, total_panes: usize) -> (r: Action<
        P,
        T,
        R,
    >)
        ensures
            r == action_for(old(self).focus, message, total_panes),
            final(self).focus == match message {
                Message::Clicked(pane) => Some(pane),
                _ => old(self).focus,
            },
    {
        match message {
            Message::Split(axis, pane) => Action::Split(axis, pane),
            Message::SplitFocused(axis) => match self.focus {
                Some(pane) => Action::Split(axis, pane),
                None => Action::Nothing,
            },
            Message::FocusAdjacent(direction) => match self.focus {
                Some(pane) => Action::Adjacent(pane, direction),
                None => Action::Nothing,
            },
            Message::Clicked(pane) => {
                self.focus = Some(pane);
                Action::Nothing
            },
            Message::Dragged(DragEvent::Dropped { pane, target }) => Action::Drop(pane, target),
            Message::Dragged(_) => Action::Nothing,
            Message::Resized(resize) => Action::Resize(resize),
            Message::TogglePin(pane) => Action::TogglePin(pane),
            Message::Maximize(pane) => Action::Maximize(pane),
            Message::Restore => Action::Restore,
            Message::Close(pane) => match closing(total_panes) {
                Closing::Reset => Action::Reset(pane),
                Closing::Remove => Action::Close(pane),
            },
            Message::CloseFocused => match self.focus {
                Some(pane) => Action::CloseUnlessPinned(pane),
                None => Action::Nothing,
            },
            Message::Dispatch(pane, message) => Action::Dispatch(pane, message),
        }
    }

    /// Takes in the answer of the grid to a split, a search for a neighbour
    /// or a closing: the pane that it names gets the focus. Where the grid
    /// names none, the focus stays.
    pub fn landed(&mut self, pane: Option<P>)
        ensures
            final(self).focus == match pane {
                Some(p) => Some(p),
                None => old(self).focus,
            },
    {
        if let Some(p) = pane {
            self.focus = Some(p);
        }
    }
}

/// What closing a pane does in a grid of `total_panes` panes.
pub fn closing(total_panes: usize) -> (r: Closing)
    ensures
        r == if total_panes == 1 {
            Closing::Reset
        } else {
            Closing::Remove
        },
{
    if total_panes == 1 {
        Closing::Reset
    } else {
        Closing::Remove
    }
}

/// Whether the title bar shows the pin: only where there is more than one
/// pane.
pub fn shows_pin(total_panes: usize) -> (r: bool)
    ensures
        r == (total_panes > 1),
{
    total_panes > 1
}

/// The name of the icon on the pin button.
pub fn pin_icon(pinned: bool) -> (r: &'static str)
    ensures
        r@ == if pinned {
            "thumbtack-slash"@
        } else {
            "thumbtack"@
        },
{
    if pinned {
        "thumbtack-slash"
    } else {
        "thumbtack"
    }
}

/// The controls of a pane, from left to right.
pub open spec fn controls(total_panes: usize, is_pinned: bool, is_maximized: bool) -> Seq<Control> {
    let resize = if total_panes > 1 {
        if is_maximized {
            seq![Control::Restore]
        } else {
            seq![Control::Maximize]
        }
    } else {
        Seq::empty()
    };
    resize + seq![
        Control::SplitVertical,
        Control::SplitHorizontal,
        Control::Close { enabled: !is_pinned },
    ]
}

/// The controls of a pane, from left to right: where there is more than one
/// pane, the button that maximizes it or restores the grid; the two buttons
/// that split it; and the button that closes it.
pub fn view_controls(total_panes: usize, is_pinned: bool, is_maximized: bool) -> (r: Vec<Control>)
    ensures
        r@ == controls(total_panes, is_pinned, is_maximized),
{
    let mut row: Vec<Control> = Vec::new();
    if total_panes > 1 {
        if is_maximized {
            row.push(Control::Restore);
        } else {
            row.push(Control::Maximize);
        }
    }
    row.push(Control::SplitVertical);
    row.push(Control::SplitHorizontal);
    row.push(Control::Close { enabled: !is_pinned });
    assert(row@ =~= controls(total_panes, is_pinned, is_maximized));
    row
}

} // verus!
