use crypto_workbench::block_inspector;
use crypto_workbench::hashes;
use crypto_workbench::tabbed_pane_grid::{
    closing, pin_icon, shows_pin, view_controls, Action, Axis, Closing, Control, Direction,
    DragEvent, Message, Pane, State, Tool, ToolCommand, ToolKind, ToolMessage,
};

#[test]
fn tools_have_titles() {
    assert_eq!(Tool::Select.title(), "Select");
    assert_eq!(Tool::open(ToolKind::BlockInspector).title(), "Block Inspector");
    assert_eq!(Tool::open(ToolKind::Hashes).title(), "Hashes");
}

#[test]
fn a_tool_opens_in_its_first_state() {
    match Tool::open(ToolKind::BlockInspector) {
        Tool::BlockInspector(state) => {
            assert_eq!(state.tx_cbor, "");
            assert!(state.transaction.is_none());
            assert_eq!(state.latest_request, 0);
        }
        other => panic!("not the inspector: {other:?}"),
    }
    match Tool::open(ToolKind::Hashes) {
        Tool::Hashes(state) => {
            assert!(state.contents.is_empty());
            assert_eq!(state.encoding, None);
            assert_eq!(state.warning, None);
            assert_eq!(state.sha256, "");
        }
        other => panic!("not the calculator: {other:?}"),
    }
}

#[test]
fn a_new_pane_is_not_pinned() {
    let pane = Pane::new(Tool::Select);
    assert!(!pane.pinned);
    assert!(matches!(pane.content, Tool::Select));
    let pane = Pane::new(Tool::open(ToolKind::Hashes));
    assert!(!pane.pinned);
    assert!(matches!(pane.content, Tool::Hashes(_)));
}

#[test]
fn the_pin_toggles() {
    let mut pane = Pane::new(Tool::open(ToolKind::Hashes));
    pane.toggle_pin();
    assert!(pane.pinned);
    assert!(matches!(pane.content, Tool::Hashes(_)));
    pane.toggle_pin();
    assert!(!pane.pinned);
}

#[test]
fn a_reset_pane_hosts_no_tool() {
    let mut pane = Pane::new(Tool::open(ToolKind::BlockInspector));
    pane.toggle_pin();
    pane.reset();
    assert!(matches!(pane.content, Tool::Select));
    assert!(pane.pinned);
}

#[test]
fn an_empty_pane_opens_the_tool_asked_for() {
    let mut pane = Pane::new(Tool::Select);
    let command = pane.dispatch(ToolMessage::SelectTool(ToolKind::Hashes));
    assert!(matches!(command, ToolCommand::Nothing));
    assert!(matches!(pane.content, Tool::Hashes(_)));
    let mut pane = Pane::new(Tool::Select);
    pane.dispatch(ToolMessage::SelectTool(ToolKind::BlockInspector));
    assert!(matches!(pane.content, Tool::BlockInspector(_)));
}

#[test]
fn a_pane_with_a_tool_does_not_open_another() {
    let mut pane = Pane::new(Tool::open(ToolKind::Hashes));
    pane.dispatch(ToolMessage::Hashes(hashes::update::Message::ContentsChanged(vec![
        "abc".to_string(),
    ])));
    let command = pane.dispatch(ToolMessage::SelectTool(ToolKind::BlockInspector));
    assert!(matches!(command, ToolCommand::Nothing));
    match &pane.content {
        Tool::Hashes(state) => assert_eq!(state.contents, vec!["abc".to_string()]),
        other => panic!("not the calculator: {other:?}"),
    }
}

#[test]
fn the_calculator_takes_its_messages() {
    let mut pane = Pane::new(Tool::open(ToolKind::Hashes));
    let command = pane.dispatch(ToolMessage::Hashes(hashes::update::Message::ContentsChanged(
        vec!["abc".to_string()],
    )));
    assert!(matches!(command, ToolCommand::Hashes(hashes::update::Command::Nothing)));
    match &pane.content {
        Tool::Hashes(state) => assert_eq!(
            state.sha256,
            "ba7816bf8f01cfea414140de5dae2223b00361a396177a9cb410ff61f20015ad"
        ),
        other => panic!("not the calculator: {other:?}"),
    }
    let command =
        pane.dispatch(ToolMessage::Hashes(hashes::update::Message::CopyHash("x".to_string())));
    match command {
        ToolCommand::Hashes(hashes::update::Command::WriteClipboard(text)) => {
            assert_eq!(text, "x")
        }
        other => panic!("nothing to copy: {other:?}"),
    }
}

#[test]
fn the_inspector_takes_its_messages() {
    let mut pane = Pane::new(Tool::open(ToolKind::BlockInspector));
    pane.toggle_pin();
    let command = pane.dispatch(ToolMessage::BlockInspector(
        block_inspector::update::Message::TxCborChanged("ff".to_string()),
    ));
    match command {
        ToolCommand::BlockInspector(block_inspector::update::Command::Decode {
            request,
            cbor,
        }) => {
            assert_eq!(request, 1);
            assert_eq!(cbor, "ff");
        }
        other => panic!("no request: {other:?}"),
    }
    assert!(pane.pinned);
    match &pane.content {
        Tool::BlockInspector(state) => assert_eq!(state.tx_cbor, "ff"),
        other => panic!("not the inspector: {other:?}"),
    }
}

#[test]
fn a_message_for_another_tool_is_dropped() {
    let mut pane = Pane::new(Tool::open(ToolKind::BlockInspector));
    let command = pane.dispatch(ToolMessage::Hashes(hashes::update::Message::ContentsChanged(
        vec!["abc".to_string()],
    )));
    assert!(matches!(command, ToolCommand::Nothing));
    match &pane.content {
        Tool::BlockInspector(state) => {
            assert_eq!(state.tx_cbor, "");
            assert_eq!(state.latest_request, 0);
        }
        other => panic!("not the inspector: {other:?}"),
    }
    let mut pane = Pane::new(Tool::open(ToolKind::Hashes));
    let command = pane.dispatch(ToolMessage::BlockInspector(
        block_inspector::update::Message::TxCborChanged("ff".to_string()),
    ));
    assert!(matches!(command, ToolCommand::Nothing));
    let mut pane = Pane::new(Tool::Select);
    let command = pane.dispatch(ToolMessage::Hashes(hashes::update::Message::CopyHash(
        "x".to_string(),
    )));
    assert!(matches!(command, ToolCommand::Nothing));
    assert!(matches!(pane.content, Tool::Select));
}

#[test]
fn the_last_pane_is_reset_not_removed() {
    assert_eq!(closing(1), Closing::Reset);
    assert_eq!(closing(2), Closing::Remove);
    assert_eq!(closing(7), Closing::Remove);
    assert_eq!(closing(0), Closing::Remove);
}

#[test]
fn the_pin_shows_with_more_than_one_pane() {
    assert!(!shows_pin(0));
    assert!(!shows_pin(1));
    assert!(shows_pin(2));
    assert_eq!(pin_icon(false), "thumbtack");
    assert_eq!(pin_icon(true), "thumbtack-slash");
}

#[test]
fn a_single_pane_has_three_controls() {
    assert_eq!(
        view_controls(1, false, false),
        vec![Control::SplitVertical, Control::SplitHorizontal, Control::Close { enabled: true }]
    );
    assert_eq!(
        view_controls(1, true, true),
        vec![Control::SplitVertical, Control::SplitHorizontal, Control::Close { enabled: false }]
    );
}

#[test]
fn one_of_many_panes_can_be_maximized_or_restored() {
    assert_eq!(
        view_controls(2, false, false),
        vec![
            Control::Maximize,
            Control::SplitVertical,
            Control::SplitHorizontal,
            Control::Close { enabled: true },
        ]
    );
    assert_eq!(
        view_controls(3, true, true),
        vec![
            Control::Restore,
            Control::SplitVertical,
            Control::SplitHorizontal,
            Control::Close { enabled: false },
        ]
    );
}

type Grid = State<u32>;

type GridMessage = Message<u32, &'static str, (u32, u32)>;

type GridAction = Action<u32, &'static str, (u32, u32)>;

#[test]
fn the_first_pane_has_the_focus() {
    assert_eq!(Grid::new(7).focus, Some(7));
}

#[test]
fn a_click_moves_the_focus() {
    let mut grid = Grid::new(1);
    let action = grid.update(GridMessage::Clicked(2), 3);
    assert!(matches!(action, GridAction::Nothing));
    assert_eq!(grid.focus, Some(2));
    let mut grid = Grid { focus: None };
    grid.update(GridMessage::Clicked(5), 3);
    assert_eq!(grid.focus, Some(5));
}

#[test]
fn a_split_is_handed_on_and_the_new_pane_gets_the_focus() {
    let mut grid = Grid::new(1);
    let action = grid.update(GridMessage::Split(Axis::Vertical, 4), 2);
    assert!(matches!(action, GridAction::Split(Axis::Vertical, 4)));
    assert_eq!(grid.focus, Some(1));
    grid.landed(Some(9));
    assert_eq!(grid.focus, Some(9));
}

#[test]
fn a_split_that_fails_leaves_the_focus() {
    let mut grid = Grid::new(1);
    grid.update(GridMessage::Split(Axis::Horizontal, 4), 2);
    grid.landed(None);
    assert_eq!(grid.focus, Some(1));
}

#[test]
fn the_pane_in_focus_is_split() {
    let mut grid = Grid::new(3);
    let action = grid.update(GridMessage::SplitFocused(Axis::Horizontal), 1);
    assert!(matches!(action, GridAction::Split(Axis::Horizontal, 3)));
    let mut grid = Grid { focus: None };
    let action = grid.update(GridMessage::SplitFocused(Axis::Horizontal), 1);
    assert!(matches!(action, GridAction::Nothing));
    assert_eq!(grid.focus, None);
}

#[test]
fn the_focus_moves_to_a_neighbour() {
    let mut grid = Grid::new(3);
    let action = grid.update(GridMessage::FocusAdjacent(Direction::Left), 2);
    assert!(matches!(action, GridAction::Adjacent(3, Direction::Left)));
    grid.landed(Some(4));
    assert_eq!(grid.focus, Some(4));
    let action = grid.update(GridMessage::FocusAdjacent(Direction::Up), 2);
    assert!(matches!(action, GridAction::Adjacent(4, Direction::Up)));
    grid.landed(None);
    assert_eq!(grid.focus, Some(4));
    let mut grid = Grid { focus: None };
    let action = grid.update(GridMessage::FocusAdjacent(Direction::Down), 2);
    assert!(matches!(action, GridAction::Nothing));
}

#[test]
fn only_a_drop_counts_of_a_drag() {
    let mut grid = Grid::new(1);
    let action = grid.update(GridMessage::Dragged(DragEvent::Picked { pane: 2 }), 2);
    assert!(matches!(action, GridAction::Nothing));
    let action = grid.update(GridMessage::Dragged(DragEvent::Canceled { pane: 2 }), 2);
    assert!(matches!(action, GridAction::Nothing));
    let action =
        grid.update(GridMessage::Dragged(DragEvent::Dropped { pane: 2, target: "edge" }), 2);
    assert!(matches!(action, GridAction::Drop(2, "edge")));
    assert_eq!(grid.focus, Some(1));
}

#[test]
fn requests_for_a_pane_are_handed_on() {
    let mut grid = Grid::new(1);
    assert!(matches!(grid.update(GridMessage::Resized((3, 40)), 2), GridAction::Resize((3, 40))));
    assert!(matches!(grid.update(GridMessage::TogglePin(2), 2), GridAction::TogglePin(2)));
    assert!(matches!(grid.update(GridMessage::Maximize(2), 2), GridAction::Maximize(2)));
    assert!(matches!(grid.update(GridMessage::Restore, 2), GridAction::Restore));
    let message = ToolMessage::SelectTool(ToolKind::Hashes);
    assert!(matches!(
        grid.update(GridMessage::Dispatch(2, message), 2),
        GridAction::Dispatch(2, ToolMessage::SelectTool(ToolKind::Hashes))
    ));
    assert_eq!(grid.focus, Some(1));
}

#[test]
fn closing_the_last_pane_empties_it() {
    let mut grid = Grid::new(1);
    assert!(matches!(grid.update(GridMessage::Close(1), 1), GridAction::Reset(1)));
    assert_eq!(grid.focus, Some(1));
}

#[test]
fn closing_one_of_many_panes_gives_the_focus_to_its_sibling() {
    let mut grid = Grid::new(1);
    assert!(matches!(grid.update(GridMessage::Close(1), 2), GridAction::Close(1)));
    grid.landed(Some(2));
    assert_eq!(grid.focus, Some(2));
}

#[test]
fn the_pane_in_focus_is_closed_unless_pinned() {
    let mut grid = Grid::new(6);
    assert!(matches!(
        grid.update(GridMessage::CloseFocused, 1),
        GridAction::CloseUnlessPinned(6)
    ));
    assert!(matches!(
        grid.update(GridMessage::CloseFocused, 3),
        GridAction::CloseUnlessPinned(6)
    ));
    let mut grid = Grid { focus: None };
    assert!(matches!(grid.update(GridMessage::CloseFocused, 3), GridAction::Nothing));
    let mut pane = Pane::new(Tool::Select);
    assert!(pane.closable());
    pane.toggle_pin();
    assert!(!pane.closable());
}

#[test]
fn the_tools_on_offer_have_names_and_icons() {
    assert_eq!(ToolKind::ALL, [ToolKind::BlockInspector, ToolKind::Hashes]);
    assert_eq!(ToolKind::BlockInspector.name(), "Block Inspector");
    assert_eq!(ToolKind::BlockInspector.icon(), "cube");
    assert_eq!(ToolKind::Hashes.name(), "Hashes");
    assert_eq!(ToolKind::Hashes.icon(), "hashtag");
}
