//! What is captured: a region, a window, or a whole display.

use vstd::prelude::*;

use crate::text::same;

verus! {

#[derive(Clone, Copy, Debug, PartialEq, Eq, Structural)]
pub enum CaptureMode {
    Region,
    Window,
    Fullscreen,
}

impl CaptureMode {
    /// The name of a mode.
    pub open spec fn text(self) -> Seq<char> {
        match self {
            CaptureMode::Region => "region"@,
            CaptureMode::Window => "window"@,
            CaptureMode::Fullscreen => "fullscreen"@,
        }
    }

    /// The mode with this name, if there is one.
    pub open spec fn named(name: Seq<char>) -> Option<CaptureMode> {
        if name == "region"@ {
            Some(CaptureMode::Region)
        } else if name == "window"@ {
            Some(CaptureMode::Window)
        } else if name == "fullscreen"@ {
            Some(CaptureMode::Fullscreen)
        } else {
            None
        }
    }

    /// The name of a mode, as the frontend and the settings write it.
    pub fn as_str(self) -> (r: &'static str)
        ensures
            r@ == self.text(),
    {
        match self {
            CaptureMode::Region => "region",
            CaptureMode::Window => "window",
            CaptureMode::Fullscreen => "fullscreen",
        }
    }

    /// The mode with this name, if there is one.
    pub fn parse(name: &str) -> (r: Option<CaptureMode>)
        ensures
            r == CaptureMode::named(name@),
    {
        if same(name, "region") {
            Some(CaptureMode::Region)
        } else if same(name, "window") {
            Some(CaptureMode::Window)
        } else if same(name, "fullscreen") {
            Some(CaptureMode::Fullscreen)
        } else {
            None
        }
    }
}

/// A mode is found again under its name.
pub proof fn law_mode_names_are_distinct(mode: CaptureMode)
    ensures
        CaptureMode::named(mode.text()) == Some(mode),
{
    reveal_strlit("region");
    reveal_strlit("window");
    reveal_strlit("fullscreen");
    assert("region"@[0] != "window"@[0]);
    assert("region"@[0] != "fullscreen"@[0]);
    assert("window"@[0] != "fullscreen"@[0]);
}

} // verus!
