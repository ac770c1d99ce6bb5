//! Window identities and the configuration each window is created with.

use vstd::prelude::*;

verus! {

/// The closed set of logical windows the application can show. Each variant
/// carries a fixed machine label, a fixed human-readable title and an
/// optional minimum size in logical pixels; the values are looked up, never
/// changed.
#[derive(Clone, Copy)]
pub enum WindowId {
    Onboarding,
    App,
    Settings,
}

impl WindowId {
    /// The machine identifier of this window, as a sequence of characters.
    pub open spec fn spec_label(self) -> Seq<char> {
        match self {
            WindowId::Onboarding => "onboarding"@,
            WindowId::App => "app"@,
            WindowId::Settings => "settings"@,
        }
    }

    /// The human-readable title of this window, as a sequence of characters.
    pub open spec fn spec_title(self) -> Seq<char> {
        match self {
            WindowId::Onboarding => "Passage Onboarding"@,
            WindowId::App => "Passage App"@,
            WindowId::Settings => "Passage Settings"@,
        }
    }

    /// The minimum (and initial) window size in whole logical pixels,
    /// width then height.
    pub open spec fn spec_min_size(self) -> Option<(u64, u64)> {
        match self {
            WindowId::Onboarding => Some((600u64, 600u64)),
            WindowId::App => Some((1400u64, 900u64)),
            WindowId::Settings => Some((600u64, 450u64)),
        }
    }

    /// The machine identifier of this window: the label the host runtime
    /// registers the window under.
    pub fn label(&self) -> (r: String)
        ensures
            r@ == self.spec_label(),
    {
        match self {
            WindowId::Onboarding => String::from_str("onboarding"),
            WindowId::App => String::from_str("app"),
            WindowId::Settings => String::from_str("settings"),
        }
    }

    /// The human-readable title shown in the window's title bar.
    pub fn title(&self) -> (r: String)
        ensures
            r@ == self.spec_title(),
    {
        match self {
            WindowId::Onboarding => String::from_str("Passage Onboarding"),
            WindowId::App => String::from_str("Passage App"),
            WindowId::Settings => String::from_str("Passage Settings"),
        }
    }

    /// The minimum (and initial) size of this window in logical pixels,
    /// width then height.
    pub fn min_size(&self) -> (r: Option<(u64, u64)>)
        ensures
            r == self.spec_min_size(),
    {
        match self {
            WindowId::Onboarding => Some((600u64, 600u64)),
            WindowId::App => Some((1400u64, 900u64)),
            WindowId::Settings => Some((600u64, 450u64)),
        }
    }
}

/// How a new window is to be built: the direct settings handed to the host
/// runtime's window builder. A `bool` field is always set; an `Option` field
/// is set only for some windows and `None` leaves the host runtime's default
/// in place.
pub struct WindowConfig {
    /// Machine identifier the window is registered under.
    pub label: String,
    /// Title shown in the window's title bar.
    pub title: String,
    /// Front-end route the window's web view is pointed at.
    pub route: String,
    /// Whether the user may resize the window.
    pub resizable: bool,
    /// Whether the window gets OS decorations.
    pub decorations: bool,
    /// Whether the window starts maximized.
    pub maximized: bool,
    /// Whether the window is centered on the screen.
    pub center: bool,
    /// Whether the window takes focus when created, if set.
    pub focused: Option<bool>,
    /// Whether the title text is hidden, if set.
    pub hidden_title: Option<bool>,
    /// Whether the window may be maximized, if set.
    pub maximizable: Option<bool>,
    /// Whether the window casts a shadow, if set.
    pub shadow: Option<bool>,
    /// Minimum and initial size in logical pixels, width then height.
    pub min_size: Option<(u64, u64)>,
}

/// A request to present one of the application's windows: the host runtime
/// focuses the window if it already exists, and otherwise builds it from the
/// configuration this type computes.
pub enum ShowWindow {
    Onboarding,
    App,
    Settings,
}

impl ShowWindow {
    /// The identity of the window this request presents.
    pub open spec fn spec_id(self) -> WindowId {
        match self {
            ShowWindow::Onboarding => WindowId::Onboarding,
            ShowWindow::App => WindowId::App,
            ShowWindow::Settings => WindowId::Settings,
        }
    }

    /// The front-end route loaded into this window's web view.
    pub open spec fn spec_route(self) -> Seq<char> {
        match self {
            ShowWindow::Onboarding => "/"@,
            ShowWindow::App => "/app"@,
            ShowWindow::Settings => "/settings"@,
        }
    }

    /// Whether the window is asked to take focus on creation; `None` for the
    /// windows that leave the host default in place.
    pub open spec fn spec_focused(self) -> Option<bool> {
        match self {
            ShowWindow::Onboarding => Some(true),
            ShowWindow::App => Some(true),
            ShowWindow::Settings => None,
        }
    }

    /// Whether the window's title text is hidden; only the main app window
    /// sets this.
    pub open spec fn spec_hidden_title(self) -> Option<bool> {
        match self {
            ShowWindow::App => Some(true),
            _ => None,
        }
    }

    /// Whether the window may be maximized; only the onboarding window sets
    /// this.
    pub open spec fn spec_maximizable(self) -> Option<bool> {
        match self {
            ShowWindow::Onboarding => Some(true),
            _ => None,
        }
    }

    /// Whether the window casts a shadow; only the onboarding window sets
    /// this.
    pub open spec fn spec_shadow(self) -> Option<bool> {
        match self {
            ShowWindow::Onboarding => Some(true),
            _ => None,
        }
    }

    /// The identity of the window this request presents.
    pub fn id(&self) -> (r: WindowId)
        ensures
            r == self.spec_id(),
    {
        match self {
            ShowWindow::Onboarding => WindowId::Onboarding,
            ShowWindow::App => WindowId::App,
            ShowWindow::Settings => WindowId::Settings,
        }
    }

    /// The full configuration a new window for this request is built with:
    /// every window is resizable, decorated, centered and not maximized;
    /// label, title, route, minimum size and the remaining flags depend on
    /// the window.
    pub fn config(&self) -> (r: WindowConfig)
        ensures
            r.label@ == self.spec_id().spec_label(),
            r.title@ == self.spec_id().spec_title(),
            r.route@ == self.spec_route(),
            r.resizable,
            r.decorations,
            !r.maximized,
            r.center,
            r.focused == self.spec_focused(),
            r.hidden_title == self.spec_hidden_title(),
            r.maximizable == self.spec_maximizable(),
            r.shadow == self.spec_shadow(),
            r.min_size == self.spec_id().spec_min_size(),
    {
        let id = self.id();
        let route = match self {
            ShowWindow::Onboarding => String::from_str("/"),
            ShowWindow::App => String::from_str("/app"),
            ShowWindow::Settings => String::from_str("/settings"),
        };
        let focused = match self {
            ShowWindow::Onboarding => Some(true),
            ShowWindow::App => Some(true),
            ShowWindow::Settings => None,
        };
        let hidden_title = match self {
            ShowWindow::App => Some(true),
            _ => None,
        };
        let maximizable = match self {
            ShowWindow::Onboarding => Some(true),
            _ => None,
        };
        let shadow = match self {
            ShowWindow::Onboarding => Some(true),
            _ => None,
        };
        let min_size = id.min_size();
        WindowConfig {
            label: id.label(),
            title: id.title(),
            route,
            resizable: true,
            decorations: true,
            maximized: false,
            center: true,
            focused,
            hidden_title,
            maximizable,
            shadow,
            min_size,
        }
    }
}

} // verus!
