//! The interaction state: iteration budget, terminal size, the redraw flag and
//! the pending status panels. Input events move it from one state to the
//! next and tell the caller what to do with the view of the plane.
use vstd::prelude::*;

verus! {

/// The iteration budget at startup and after a reset.
pub const DEFAULT_ITERATIONS: u16 = 50;

/// The terminal size assumed when the terminal cannot report its own.
pub const FALLBACK_EXTENT: usize = 80;

/// Which mouse button went down.
#[derive(Clone, Copy, Debug, PartialEq, Eq, Structural)]
pub enum Button {
    Primary,
    Secondary,
    Other,
}

/// An input event, already decoded from the terminal.
#[derive(Clone, Copy, Debug, PartialEq, Eq, Structural)]
pub enum Event {
    /// A key that carries a character.
    Key(char),
    /// A key without a character (arrows, function keys, ...).
    OtherKey,
    /// A mouse button went down on this cell.
    Press { row: u16, col: u16, button: Button },
    /// The terminal now has this many columns and rows.
    Resize { width: u16, height: u16 },
    /// Anything else: mouse moves and releases, focus changes, failed reads.
    Ignored,
}

/// How the extents of the view change after a click.
#[derive(Clone, Copy, Debug, PartialEq, Eq, Structural)]
pub enum Zoom {
    /// Multiply both extents by the zoom factor.
    In,
    /// Divide both extents by the zoom factor.
    Out,
    /// Leave the extents alone and show the help panel now.
    Keep,
}

/// What the caller does after an event.
#[derive(Clone, Copy, Debug, PartialEq, Eq, Structural)]
pub enum Action {
    /// Leave the interaction loop.
    Quit,
    /// Nothing beyond the state change.
    Nothing,
    /// Show the help panel now.
    ShowHelp,
    /// Restore the origin and the extents of the view to their defaults.
    ResetView,
    /// Move the origin to the plane point under this cell of the last
    /// render, then change the extents as `zoom` says.
    Recenter { row: u16, col: u16, zoom: Zoom },
}

/// The status panel shown after a redraw.
#[derive(Clone, Copy, Debug, PartialEq, Eq, Structural)]
pub enum Overlay {
    /// No panel.
    Hidden,
    Help,
    Iterations,
    Coordinates,
}

/// The interaction state besides the view of the plane.
#[derive(Clone, Copy, Debug, PartialEq, Eq, Structural)]
pub struct Session {
    pub iterations: u16,
    pub terminal_width: usize,
    pub terminal_height: usize,
    pub changed: bool,
    pub show_help: bool,
    pub show_iterations: bool,
    pub show_coords: bool,
}

/// Usable cells along one side of a terminal that reports `cells` of them:
/// all but the last one.
pub open spec fn usable_spec(cells: u16) -> usize {
    if cells == 0 {
        0
    } else {
        (cells - 1) as usize
    }
}

/// The step by which the budget `n` grows: it scales with the magnitude of `n`.
pub open spec fn raise_step(n: u16) -> int {
    if n >= 1000 {
        1000
    } else if n >= 100 {
        100
    } else if n >= 10 {
        10
    } else {
        1
    }
}

/// The budget after one increase from `n`, held at `u16::MAX`.
pub open spec fn raised(n: u16) -> u16 {
    if n + raise_step(n) <= u16::MAX {
        (n + raise_step(n)) as u16
    } else {
        u16::MAX
    }
}

/// The budget after one decrease from `n`; it never goes below `1`.
pub open spec fn lowered(n: u16) -> u16 {
    if n >= 2000 {
        (n - 1000) as u16
    } else if n >= 200 {
        (n - 100) as u16
    } else if n >= 20 {
        (n - 10) as u16
    } else if n >= 2 {
        (n - 1) as u16
    } else {
        1
    }
}

/// The state at startup, on a terminal of `width` by `height` usable cells.
pub open spec fn initial(width: usize, height: usize) -> Session {
    Session {
        iterations: DEFAULT_ITERATIONS,
        terminal_width: width,
        terminal_height: height,
        changed: true,
        show_help: true,
        show_iterations: false,
        show_coords: false,
    }
}

/// The state and the action that follow `s` on the character key `ch`.
pub open spec fn after_key(s: Session, ch: char) -> (Session, Action) {
    if ch == 'q' {
        (s, Action::Quit)
    } else if ch == 'r' {
        (Session { iterations: DEFAULT_ITERATIONS, changed: true, ..s }, Action::ResetView)
    } else if ch == 'c' {
        (Session { show_coords: true, changed: true, ..s }, Action::Nothing)
    } else if ch == 'i' {
        (
            Session { iterations: raised(s.iterations), show_iterations: true, changed: true, ..s },
            Action::Nothing,
        )
    } else if ch == 'j' {
        (
            Session {
                iterations: lowered(s.iterations),
                show_iterations: true,
                changed: true,
                ..s
            },
            Action::Nothing,
        )
    } else {
        (s, Action::ShowHelp)
    }
}

/// The state and the action that follow `s` on the event `e`.
pub open spec fn after_event(s: Session, e: Event) -> (Session, Action) {
    match e {
        Event::Key(ch) => after_key(s, ch),
        Event::OtherKey => (s, Action::ShowHelp),
        Event::Press { row, col, button } => match button {
            Button::Primary => (
                Session { changed: true, ..s },
                Action::Recenter { row, col, zoom: Zoom::In },
            ),
            Button::Secondary => (
                Session { changed: true, ..s },
                Action::Recenter { row, col, zoom: Zoom::Out },
            ),
            Button::Other => (s, Action::Recenter { row, col, zoom: Zoom::Keep }),
        },
        Event::Resize { width, height } => (
            Session {
                terminal_width: usable_spec(width),
                terminal_height: usable_spec(height),
                changed: true,
                show_help: true,
                ..s
            },
            Action::Nothing,
        ),
        Event::Ignored => (s, Action::Nothing),
    }
}

/// The state after a redraw of `s`, and the one panel then shown: help
/// before the iteration count, the iteration count before the coordinates.
/// Only the flag of the panel shown is cleared; the others stay pending.
pub open spec fn after_redraw(s: Session) -> (Session, Overlay) {
    if s.show_help {
        (Session { changed: false, show_help: false, ..s }, Overlay::Help)
    } else if s.show_iterations {
        (Session { changed: false, show_iterations: false, ..s }, Overlay::Iterations)
    } else if s.show_coords {
        (Session { changed: false, show_coords: false, ..s }, Overlay::Coordinates)
    } else {
        (Session { changed: false, ..s }, Overlay::Hidden)
    }
}

/// Usable cells along one side of a terminal that reports `cells` of them.
pub fn usable_extent(cells: u16) -> (r: usize)
    ensures
        r == usable_spec(cells),
{
    if cells == 0 {
        0
    } else {
        (cells - 1) as usize
    }
}

impl Session {
    /// The startup state, for the size the terminal reported (columns, rows),
    /// or for an 80 by 80 grid when it reported none.
    pub fn new(size: Option<(u16, u16)>) -> (r: Session)
        ensures
            r == (match size {
                Some((w, h)) => initial(usable_spec(w), usable_spec(h)),
                None => initial(FALLBACK_EXTENT, FALLBACK_EXTENT),
            }),
    {
        match size {
            Some((w, h)) => Session::with_extent(usable_extent(w), usable_extent(h)),
            None => Session::with_extent(FALLBACK_EXTENT, FALLBACK_EXTENT),
        }
    }

    /// The startup state on a terminal of `width` by `height` usable cells.
    pub fn with_extent(width: usize, height: usize) -> (r: Session)
        ensures
            r == initial(width, height),
    {
        Session {
            iterations: DEFAULT_ITERATIONS,
            terminal_width: width,
            terminal_height: height,
            changed: true,
            show_help: true,
            show_iterations: false,
            show_coords: false,
        }
    }

    /// Budget after one increase from `n`.
    pub fn raise_iterations(n: u16) -> (r: u16)
        ensures
            r == raised(n),
    {
        let step: u16 = if n >= 1000 {
            1000
        } else if n >= 100 {
            100
        } else if n >= 10 {
            10
        } else {
            1
        };
        n.saturating_add(step)
    }

    /// Budget after one decrease from `n`.
    pub fn lower_iterations(n: u16) -> (r: u16)
        ensures
            r == lowered(n),
    {
        if n >= 2000 {
            n - 1000
        } else if n >= 200 {
            n - 100
        } else if n >= 20 {
            n - 10
        } else if n >= 2 {
            n - 1
        } else {
            1
        }
    }

    /// Applies the event `e` and returns what the caller does next.
    pub fn handle(&mut self, e: Event) -> (r: Action)
        ensures
            (*final(self), r) == after_event(*old(self), e),
    {
        match e {
            Event::Key(ch) => {
                if ch == 'q' {
                    Action::Quit
                } else if ch == 'r' {
                    self.iterations = DEFAULT_ITERATIONS;
                    self.changed = true;
                    Action::ResetView
                } else if ch == 'c' {
                    self.show_coords = true;
                    self.changed = true;
                    Action::Nothing
                } else if ch == 'i' {
                    self.iterations = Session::raise_iterations(self.iterations);
                    self.show_iterations = true;
                    self.changed = true;
                    Action::Nothing
                } else if ch == 'j' {
                    self.iterations = Session::lower_iterations(self.iterations);
                    self.show_iterations = true;
                    self.changed = true;
                    Action::Nothing
                } else {
                    Action::ShowHelp
                }
            },
            Event::OtherKey => Action::ShowHelp,
            Event::Press { row, col, button } => match button {
                Button::Primary => {
                    self.changed = true;
                    Action::Recenter { row, col, zoom: Zoom::In }
                },
                Button::Secondary => {
                    self.changed = true;
                    Action::Recenter { row, col, zoom: Zoom::Out }
                },
                Button::Other => Action::Recenter { row, col, zoom: Zoom::Keep },
            },
            Event::Resize { width, height } => {
                self.terminal_width = usable_extent(width);
                self.terminal_height = usable_extent(height);
                self.changed = true;
                self.show_help = true;
                Action::Nothing
            },
            Event::Ignored => Action::Nothing,
        }
    }

    /// Whether the view must be rendered again.
    pub fn needs_redraw(&self) -> (r: bool)
        ensures
            r == self.changed,
    {
        self.changed
    }

    /// Records that the view was rendered and picks the panel to show.
    pub fn finish_redraw(&mut self) -> (r: Overlay)
        ensures
            (*final(self), r) == after_redraw(*old(self)),
    {
        self.changed = false;
        if self.show_help {
            self.show_help = false;
            Overlay::Help
        } else if self.show_iterations {
            self.show_iterations = false;
            Overlay::Iterations
        } else if self.show_coords {
            self.show_coords = false;
            Overlay::Coordinates
        } else {
            Overlay::Hidden
        }
    }
}

} // verus!
