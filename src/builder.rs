use vstd::prelude::*;
use crate::decoration::{Controls, Style};

verus! {

/// Initial configuration of a window, with the connection `C` that will
/// create it.
pub struct Builder<C> {
    pub connection: C,
    /// The platform's window class identifier.
    pub class_name: String,
    /// Whether the window starts maximised; no effect on a hidden window.
    pub maximised: bool,
    /// Desktop position of the inner area; `None` leaves it to the system.
    pub position: Option<(i16, i16)>,
    pub size: (u16, u16),
    pub style: Style,
    pub title: String,
}

impl<C> Builder<C> {
    /// The default configuration: class "ramen_window", title "a nice
    /// window", 800 by 600, placed by the system, not maximised, and
    /// `style`, or the default style when it is `None`.
    pub fn new(connection: C, style: Option<Style>) -> (r: Builder<C>)
        ensures
            r.connection == connection,
            r.class_name@ == "ramen_window"@,
            r.title@ == "a nice window"@,
            !r.maximised,
            r.position is None,
            r.size == (800u16, 600u16),
            style matches Some(s) ==> r.style == s,
            style is None ==> r.style == (Style {
                borderless: false,
                controls: Some(Controls { close: true, maximise: true, minimise: true }),
                resizable: true,
                visible: true,
            }),
    {
        let style = match style {
            Some(s) => s,
            None => Style::new(),
        };
        Builder {
            connection,
            class_name: "ramen_window".to_owned(),
            maximised: false,
            position: None,
            size: (800, 600),
            style,
            title: "a nice window".to_owned(),
        }
    }

    /// Sets whether the window is borderless.
    pub fn borderless(self, borderless: bool) -> (r: Builder<C>)
        ensures
            r == (Builder { style: Style { borderless, ..self.style }, ..self }),
    {
        let mut b = self;
        b.style.borderless = borderless;
        b
    }

    /// Sets which controls the window asks for; `None` for no menu.
    pub fn controls(self, controls: Option<Controls>) -> (r: Builder<C>)
        ensures
            r == (Builder { style: Style { controls, ..self.style }, ..self }),
    {
        let mut b = self;
        b.style.controls = controls;
        b
    }

    /// Sets the platform's window class identifier.
    pub fn class_name(self, class_name: &str) -> (r: Builder<C>)
        ensures
            r.class_name@ == class_name@,
            r == (Builder { class_name: r.class_name, ..self }),
    {
        let mut b = self;
        b.class_name = class_name.to_owned();
        b
    }

    /// Sets whether the user may resize the window.
    pub fn resizable(self, resizable: bool) -> (r: Builder<C>)
        ensures
            r == (Builder { style: Style { resizable, ..self.style }, ..self }),
    {
        let mut b = self;
        b.style.resizable = resizable;
        b
    }

    /// Sets the initial title.
    pub fn title(self, title: &str) -> (r: Builder<C>)
        ensures
            r.title@ == title@,
            r == (Builder { title: r.title, ..self }),
    {
        let mut b = self;
        b.title = title.to_owned();
        b
    }

    /// Sets whether the window starts maximised.
    pub fn maximised(self, maximised: bool) -> (r: Builder<C>)
        ensures
            r == (Builder { maximised, ..self }),
    {
        let mut b = self;
        b.maximised = maximised;
        b
    }

    /// Sets the initial desktop position of the inner area.
    pub fn position(self, position: Option<(i16, i16)>) -> (r: Builder<C>)
        ensures
            r == (Builder { position, ..self }),
    {
        let mut b = self;
        b.position = position;
        b
    }

    /// Sets the initial size of the inner area.
    pub fn size(self, size: (u16, u16)) -> (r: Builder<C>)
        ensures
            r == (Builder { size, ..self }),
    {
        let mut b = self;
        b.size = size;
        b
    }

    /// Sets whether the window starts visible.
    pub fn visible(self, visible: bool) -> (r: Builder<C>)
        ensures
            r == (Builder { style: Style { visible, ..self.style }, ..self }),
    {
        let mut b = self;
        b.style.visible = visible;
        b
    }
}

impl<C: Clone> Clone for Builder<C> {
    /// A builder with the same configuration and a clone of the connection.
    fn clone(&self) -> (r: Builder<C>)
        ensures
            r.class_name@ == self.class_name@,
            r.title@ == self.title@,
            r.maximised == self.maximised,
            r.position == self.position,
            r.size == self.size,
            r.style == self.style,
    {
        Builder {
            connection: self.connection.clone(),
            class_name: self.class_name.clone(),
            maximised: self.maximised,
            position: self.position,
            size: self.size,
            style: self.style,
            title: self.title.clone(),
        }
    }
}

} // verus!
