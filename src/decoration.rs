use vstd::prelude::*;

verus! {

/// Which title-bar controls a window asks for.
#[derive(Clone, Copy, Debug, PartialEq, Eq, Hash, Structural)]
pub struct Controls {
    pub close: bool,
    pub maximise: bool,
    pub minimise: bool,
}

impl Controls {
    /// All three controls.
    pub fn new() -> (r: Controls)
        ensures
            r.close && r.maximise && r.minimise,
    {
        Controls { close: true, maximise: true, minimise: true }
    }

    /// The same controls with the close button set to `close`.
    pub fn close(self, close: bool) -> (r: Controls)
        ensures
            r == (Controls { close, ..self }),
    {
        Controls { close, ..self }
    }

    /// The same controls with the maximise button set to `maximise`.
    pub fn maximise(self, maximise: bool) -> (r: Controls)
        ensures
            r == (Controls { maximise, ..self }),
    {
        Controls { maximise, ..self }
    }

    /// The same controls with the minimise button set to `minimise`.
    pub fn minimise(self, minimise: bool) -> (r: Controls)
        ensures
            r == (Controls { minimise, ..self }),
    {
        Controls { minimise, ..self }
    }
}

impl Default for Controls {
    /// The same as `Controls::new`.
    fn default() -> (r: Controls)
        ensures
            r.close && r.maximise && r.minimise,
    {
        Controls::new()
    }
}

/// The decoration and visibility a window asks for.
#[derive(Clone, Copy, Debug, PartialEq, Eq, Hash, Structural)]
pub struct Style {
    pub borderless: bool,
    /// `None` asks for no window menu at all.
    pub controls: Option<Controls>,
    /// Whether the user may resize the window interactively.
    pub resizable: bool,
    pub visible: bool,
}

impl Style {
    /// Bordered, with all controls, resizable and visible.
    pub fn new() -> (r: Style)
        ensures
            !r.borderless,
            r.controls == Some(Controls { close: true, maximise: true, minimise: true }),
            r.resizable,
            r.visible,
    {
        Style { borderless: false, controls: Some(Controls::new()), resizable: true, visible: true }
    }

    /// The same style with `borderless` set.
    pub fn borderless(self, borderless: bool) -> (r: Style)
        ensures
            r == (Style { borderless, ..self }),
    {
        Style { borderless, ..self }
    }

    /// The same style with `controls` set.
    pub fn controls(self, controls: Option<Controls>) -> (r: Style)
        ensures
            r == (Style { controls, ..self }),
    {
        Style { controls, ..self }
    }

    /// The same style with `resizable` set. A window that is not resizable
    /// can still change size through requests of the program.
    pub fn resizable(self, resizable: bool) -> (r: Style)
        ensures
            r == (Style { resizable, ..self }),
    {
        Style { resizable, ..self }
    }

    /// The same style with `visible` set.
    pub fn visible(self, visible: bool) -> (r: Style)
        ensures
            r == (Style { visible, ..self }),
    {
        Style { visible, ..self }
    }
}

impl Default for Style {
    /// The same as `Style::new`.
    fn default() -> (r: Style)
        ensures
            !r.borderless,
            r.controls == Some(Controls { close: true, maximise: true, minimise: true }),
            r.resizable,
            r.visible,
    {
        Style::new()
    }
}

/// The mouse cursor shown over a window's client area.
#[derive(Clone, Copy, Debug, PartialEq, Eq, Hash, Structural)]
pub enum Cursor {
    Arrow,
    /// No cursor at all.
    Blank,
    Cross,
    Hand,
    Help,
    IBeam,
    /// Busy in the background; the window still takes input.
    Progress,
    ResizeNESW,
    ResizeNS,
    ResizeNWSE,
    ResizeWE,
    ResizeAll,
    Unavailable,
    /// Busy; the window takes no input.
    Wait,
}

} // verus!
