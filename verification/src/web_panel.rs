//! The web panel: a double-width panel with an embedded web view, driven by
//! several menu buttons, each bound to a page.
//!
//! Pressing a button loads its page and opens the panel after a short delay;
//! pressing the button that opened the panel again blanks the page and
//! closes the panel.
use vstd::prelude::*;
use crate::panel::Place;

verus! {

/// Delay between a press that opens the panel and the panel's opening, in
/// milliseconds.
pub const OPEN_DELAY_MS: u64 = 300;

/// The page shown while the panel is closed.
pub open spec fn blank_page() -> Seq<char> {
    "about:blank"@
}

/// Whether pressing `button` closes a panel whose last pressed button is
/// `last` and which is `open`: only the button that is on display closes it.
pub open spec fn press_closes(last: Seq<char>, open: bool, button: Seq<char>) -> bool {
    last == button && open
}

/// The state (last pressed button, open) after pressing `button`.
pub open spec fn spec_press_state(
    last: Seq<char>,
    open: bool,
    button: Seq<char>,
    panel_alive: bool,
) -> (Seq<char>, bool) {
    if press_closes(last, open, button) {
        if panel_alive {
            (Seq::<char>::empty(), false)
        } else {
            (last, open)
        }
    } else {
        (button, open)
    }
}

/// Whether pressing `button` starts the delayed opening of the panel.
pub open spec fn spec_press_schedules_open(last: Seq<char>, open: bool, button: Seq<char>) -> bool {
    !press_closes(last, open, button) && !open
}

/// The state after the delayed opening has run.
pub open spec fn spec_open_timer_state(last: Seq<char>, open: bool, panel_alive: bool) -> (
    Seq<char>,
    bool,
) {
    if panel_alive {
        (last, true)
    } else {
        (last, open)
    }
}

/// What the application must do after a button press.
pub struct WebPanelStep {
    /// The page to load into the active web view, if one is to be loaded.
    pub load_url: Option<String>,
    /// Where to move the panel's window now, if anywhere.
    pub move_window: Option<Place>,
    /// Whether to (re)start the delayed opening of the panel, replacing any
    /// pending one; when it runs, [`WebPanel::open_timer_fired`] is called.
    pub schedule_open: bool,
}

/// The state of the web panel: the name of the button whose page is on
/// display (empty when none), and whether the panel is open.
pub struct WebPanel {
    last_button: String,
    open: bool,
}

impl WebPanel {
    /// The name of the last pressed button (empty when none).
    pub closed spec fn last_button(self) -> Seq<char> {
        self.last_button@
    }

    /// Whether the panel is open.
    pub closed spec fn spec_is_open(self) -> bool {
        self.open
    }

    /// A closed panel with no page on display.
    pub fn new() -> (p: WebPanel)
        ensures
            p.last_button() == Seq::<char>::empty(),
            !p.spec_is_open(),
    {
        WebPanel { last_button: String::new(), open: false }
    }

    /// Whether the panel is open.
    pub fn is_open(&self) -> (b: bool)
        ensures
            b == self.spec_is_open(),
    {
        self.open
    }

    /// Handles a press of the button named `button_name`, bound to the page
    /// `url`. `webview_active` tells whether a web view is there to load a
    /// page into, `panel_alive` whether the panel's window still exists.
    ///
    /// If the button is the one on display and the panel is open, the page
    /// is blanked and the panel closes (when its window exists). Otherwise
    /// the button's page is loaded, the panel's opening is scheduled if it is
    /// closed, and the button becomes the one on display.
    pub fn press(&mut self, button_name: &str, url: &str, webview_active: bool, panel_alive: bool) -> (step: WebPanelStep)
        ensures
            (final(self).last_button(), final(self).spec_is_open()) == spec_press_state(
                old(self).last_button(),
                old(self).spec_is_open(),
                button_name@,
                panel_alive,
            ),
            step.schedule_open == spec_press_schedules_open(
                old(self).last_button(),
                old(self).spec_is_open(),
                button_name@,
            ),
            step.load_url is Some <==> webview_active,
            step.load_url matches Some(u) ==> u@ == (if press_closes(
                old(self).last_button(),
                old(self).spec_is_open(),
                button_name@,
            ) {
                blank_page()
            } else {
                url@
            }),
            !old(self).spec_is_open() ==> final(self).last_button() == button_name@
                && !final(self).spec_is_open() && step.schedule_open && step.move_window is None
                && (step.load_url matches Some(u) ==> u@ == url@),
            old(self).spec_is_open() && old(self).last_button() != button_name@
                ==> final(self).last_button() == button_name@ && final(self).spec_is_open() && !step.schedule_open
                && step.move_window is None && (step.load_url matches Some(u) ==> u@ == url@),
            old(self).spec_is_open() && old(self).last_button() == button_name@ && panel_alive
                ==> final(self).last_button() == Seq::<char>::empty()
                && !final(self).spec_is_open() && !step.schedule_open && step.move_window == Some(Place::Closed)
                && (step.load_url matches Some(u) ==> u@ == "about:blank"@),
            step.move_window == (if press_closes(
                old(self).last_button(),
                old(self).spec_is_open(),
                button_name@,
            ) && panel_alive {
                Some(Place::Closed)
            } else {
                None
            }),
    {
        let name = button_name.to_owned();
        if self.last_button == name && self.open {
            let load_url = if webview_active {
                Some("about:blank".to_owned())
            } else {
                None
            };
            let move_window = if panel_alive {
                self.open = false;
                self.last_button = String::new();
                Some(Place::Closed)
            } else {
                None
            };
            WebPanelStep { load_url, move_window, schedule_open: false }
        } else {
            let load_url = if webview_active {
                Some(url.to_owned())
            } else {
                None
            };
            let schedule_open = !self.open;
            self.last_button = name;
            WebPanelStep { load_url, move_window: None, schedule_open }
        }
    }

    /// Handles the delayed opening: an existing window is moved to its open
    /// place and the panel counts as open. Returns where to move the window.
    pub fn open_timer_fired(&mut self, panel_alive: bool) -> (move_window: Option<Place>)
        ensures
            (final(self).last_button(), final(self).spec_is_open()) == spec_open_timer_state(
                old(self).last_button(),
                old(self).spec_is_open(),
                panel_alive,
            ),
            move_window == (if panel_alive {
                Some(Place::Open)
            } else {
                None
            }),
    {
        if panel_alive {
            self.open = true;
            Some(Place::Open)
        } else {
            None
        }
    }
}

/// Pressing a button, letting the delayed opening run (if the press started
/// it), and pressing the same button again closes the panel and clears the
/// button on display — provided the first press did not itself close the
/// panel and the window exists throughout.
pub proof fn lemma_same_button_twice_closes(last: Seq<char>, open: bool, button: Seq<char>)
    requires
        !press_closes(last, open, button),
    ensures
        ({
            let s1 = spec_press_state(last, open, button, true);
            let s2 = if spec_press_schedules_open(last, open, button) {
                spec_open_timer_state(s1.0, s1.1, true)
            } else {
                s1
            };
            &&& press_closes(s2.0, s2.1, button)
            &&& spec_press_state(s2.0, s2.1, button, true) == (Seq::<char>::empty(), false)
        }),
{
}

/// A press on a closed panel never closes it or blanks the page: it makes the
/// pressed button the one on display, leaves the panel closed and schedules
/// its opening, whatever button was on display before.
pub proof fn lemma_press_on_closed_panel(last: Seq<char>, button: Seq<char>, alive: bool)
    ensures
        !press_closes(last, false, button),
        spec_press_state(last, false, button, alive) == (button, false),
        spec_press_schedules_open(last, false, button),
{
}

/// What a press does, in terms of the button on display, the pressed
/// button and whether the panel is open: only pressing the button on
/// display of an open panel closes it (clearing the button on display, when
/// the window exists); any other press makes the pressed button the one on
/// display, keeps the panel's openness, and schedules the opening exactly
/// when the panel is closed.
pub proof fn lemma_press_outcome(last: Seq<char>, open: bool, button: Seq<char>, alive: bool)
    ensures
        press_closes(last, open, button) <==> (open && last == button),
        open && last == button && alive ==> spec_press_state(last, open, button, alive) == (
            Seq::<char>::empty(),
            false,
        ),
        open && last == button && !alive ==> spec_press_state(last, open, button, alive) == (
            last,
            open,
        ),
        !(open && last == button) ==> spec_press_state(last, open, button, alive) == (
            button,
            open,
        ),
        spec_press_schedules_open(last, open, button) <==> !open,
        spec_open_timer_state(last, open, alive) == (last, alive || open),
{
}

/// Pressing another button while the panel is open switches the page
/// without closing the panel or scheduling anything.
pub proof fn lemma_other_button_switches(last: Seq<char>, button: Seq<char>, alive: bool)
    requires
        last != button,
    ensures
        spec_press_state(last, true, button, alive) == (button, true),
        !spec_press_schedules_open(last, true, button),
{
}

/// The button on display is always either none (empty) or the button of
/// some press: a press leaves it as it was, clears it, or makes it the
/// pressed button.
pub proof fn lemma_last_button_from_presses(
    last: Seq<char>,
    open: bool,
    button: Seq<char>,
    alive: bool,
)
    ensures
        ({
            let next = spec_press_state(last, open, button, alive).0;
            next == last || next == Seq::<char>::empty() || next == button
        }),
        spec_open_timer_state(last, open, alive).0 == last,
{
}

/// A press closes the panel only when it presses the button on display while
/// the panel is open; every other press leaves the panel's openness as it
/// was.
pub proof fn lemma_press_closes_only_on_display(
    last: Seq<char>,
    open: bool,
    button: Seq<char>,
    alive: bool,
)
    ensures
        spec_press_state(last, open, button, alive).1 != open ==> press_closes(last, open, button)
            && alive,
{
}

} // verus!
