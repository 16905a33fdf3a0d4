//! Pointer shapes and the system cursors that show them.

use vstd::prelude::*;

verus! {

/// The pointer shapes a node of the interface may ask for.
#[derive(Debug, Copy, Clone, PartialEq, Eq, Structural)]
pub enum MouseCursorType {
    Default,
    Crosshair,
    Hand,
    Arrow,
    Move,
    Text,
    Wait,
    Help,
    Progress,
    NotAllowed,
    ContextMenu,
    Cell,
    VerticalText,
    Alias,
    Copy,
    NoDrop,
    Grab,
    Grabbing,
    AllScroll,
    ZoomIn,
    ZoomOut,
    EResize,
    NResize,
    NeResize,
    NwResize,
    SResize,
    SeResize,
    SwResize,
    WResize,
    EwResize,
    NsResize,
    NeswResize,
    NwseResize,
    ColResize,
    RowResize,
}

/// Resource identifier of the arrow, the first of the predefined system
/// cursors; the others follow.
pub const IDC_ARROW: u16 = 32512;
pub const IDC_IBEAM: u16 = 32513;
pub const IDC_WAIT: u16 = 32514;
pub const IDC_CROSS: u16 = 32515;
pub const IDC_SIZENWSE: u16 = 32642;
pub const IDC_SIZENESW: u16 = 32643;
pub const IDC_SIZEWE: u16 = 32644;
pub const IDC_SIZENS: u16 = 32645;
pub const IDC_SIZEALL: u16 = 32646;
pub const IDC_NO: u16 = 32648;
pub const IDC_HAND: u16 = 32649;
pub const IDC_APPSTARTING: u16 = 32650;
pub const IDC_HELP: u16 = 32651;

/// The system cursor that stands for a pointer shape. Shapes without a
/// system cursor of their own get the arrow.
pub open spec fn system_cursor(input: MouseCursorType) -> u16 {
    match input {
        MouseCursorType::Arrow | MouseCursorType::Default => IDC_ARROW,
        MouseCursorType::Hand => IDC_HAND,
        MouseCursorType::Crosshair => IDC_CROSS,
        MouseCursorType::Text | MouseCursorType::VerticalText => IDC_IBEAM,
        MouseCursorType::NotAllowed | MouseCursorType::NoDrop => IDC_NO,
        MouseCursorType::Grab
        | MouseCursorType::Grabbing
        | MouseCursorType::Move
        | MouseCursorType::AllScroll => IDC_SIZEALL,
        MouseCursorType::EResize
        | MouseCursorType::WResize
        | MouseCursorType::EwResize
        | MouseCursorType::ColResize => IDC_SIZEWE,
        MouseCursorType::NResize
        | MouseCursorType::SResize
        | MouseCursorType::NsResize
        | MouseCursorType::RowResize => IDC_SIZENS,
        MouseCursorType::NeResize | MouseCursorType::SwResize | MouseCursorType::NeswResize => {
            IDC_SIZENESW
        },
        MouseCursorType::NwResize | MouseCursorType::SeResize | MouseCursorType::NwseResize => {
            IDC_SIZENWSE
        },
        MouseCursorType::Wait => IDC_WAIT,
        MouseCursorType::Progress => IDC_APPSTARTING,
        MouseCursorType::Help => IDC_HELP,
        _ => IDC_ARROW,
    }
}

/// Whether an identifier names one of the predefined system cursors that the
/// shell uses.
pub open spec fn is_system_cursor(id: u16) -> bool {
    ||| id == IDC_ARROW
    ||| id == IDC_IBEAM
    ||| id == IDC_WAIT
    ||| id == IDC_CROSS
    ||| id == IDC_SIZENWSE
    ||| id == IDC_SIZENESW
    ||| id == IDC_SIZEWE
    ||| id == IDC_SIZENS
    ||| id == IDC_SIZEALL
    ||| id == IDC_NO
    ||| id == IDC_HAND
    ||| id == IDC_APPSTARTING
    ||| id == IDC_HELP
}

/// Translates a pointer shape to the identifier of a system cursor.
pub fn win32_translate_cursor(input: MouseCursorType) -> (id: u16)
    ensures
        id == system_cursor(input),
        is_system_cursor(id),
{
    match input {
        MouseCursorType::Arrow | MouseCursorType::Default => IDC_ARROW,
        MouseCursorType::Hand => IDC_HAND,
        MouseCursorType::Crosshair => IDC_CROSS,
        MouseCursorType::Text | MouseCursorType::VerticalText => IDC_IBEAM,
        MouseCursorType::NotAllowed | MouseCursorType::NoDrop => IDC_NO,
        MouseCursorType::Grab
        | MouseCursorType::Grabbing
        | MouseCursorType::Move
        | MouseCursorType::AllScroll => IDC_SIZEALL,
        MouseCursorType::EResize
        | MouseCursorType::WResize
        | MouseCursorType::EwResize
        | MouseCursorType::ColResize => IDC_SIZEWE,
        MouseCursorType::NResize
        | MouseCursorType::SResize
        | MouseCursorType::NsResize
        | MouseCursorType::RowResize => IDC_SIZENS,
        MouseCursorType::NeResize | MouseCursorType::SwResize | MouseCursorType::NeswResize => {
            IDC_SIZENESW
        },
        MouseCursorType::NwResize | MouseCursorType::SeResize | MouseCursorType::NwseResize => {
            IDC_SIZENWSE
        },
        MouseCursorType::Wait => IDC_WAIT,
        MouseCursorType::Progress => IDC_APPSTARTING,
        MouseCursorType::Help => IDC_HELP,
        _ => IDC_ARROW,
    }
}

} // verus!
