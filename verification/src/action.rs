//! The discrete requests a session can receive. The engine only carries this
//! closed set of tags; decoding key events into actions and any textual form
//! of them belong to the surrounding program.

use vstd::prelude::*;

verus! {

/// One discrete request to the session.
#[derive(Clone, Debug, PartialEq, Eq)]
pub enum Action {
    Tick,
    Render,
    Resize(u16, u16),
    Suspend,
    Resume,
    Quit,
    Refresh,
    Error(String),
    Help,
    NextColor,
    PreviousColor,
    InputHEX,
    InputRGB,
    InputPrompt,
    SubmitInput,
    ChangeUndo,
    ChangeRedo,
    ShowShades,
    PreviousShade,
    NextShade,
    InvertColor,
    InvertAll,
    SwitchMarker,
    ToggleSpin,
    ToggleHSV,
    HSVPrev,
    HSVNext,
    HSVIncrease,
    HSVDecrease,
    ColorUp,
    ColorDown,
    TogglePalette,
}

} // verus!
