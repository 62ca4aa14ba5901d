//! The state of the application: the browser's tabs and address bar, the
//! requests the user has made, and the coordinator of the guest session.
//!
//! The host draws the widgets, fetches the pages and owns the windows. It
//! tells [`App`] what the user did and what arrived, and performs what
//! [`App`] answers.

use crate::browser::{
    home_location, opened_tab, tab_views, visit_all, visit_all_tabs, visit_first,
    visit_first_tab, visited, Tab, TabView,
};
use crate::coordinator::{
    initial_state, step, Action, Coordinator, CoordinatorState, Event, Phase, Status,
};
use crate::error::SessionError;
use crate::markdown::{is_wasm, wasm_suffix};
use vstd::prelude::*;
use vstd::string::StringExecFns;

verus! {

/// The application state that is plain data.
pub struct App {
    pub current_status: String,
    /// What the address bar holds.
    pub current_location: String,
    /// Identifier of the tab in front.
    pub current_tab: i32,
    /// The page shown in the central panel.
    pub current_page: String,
    pub tabs: Vec<Tab>,
    /// The identifier given to the tab opened last.
    pub tab_counter: i32,
    pub quit_pressed: bool,
    /// The user asked for a guest module to be started.
    pub spawn_child_window: bool,
    /// The user navigated away from the guest module.
    pub close_child_window: bool,
    pub coordinator: Coordinator,
}

/// The application state as contracts see it.
pub struct AppView {
    pub status: Seq<char>,
    pub location: Seq<char>,
    pub current_tab: i32,
    pub page: Seq<char>,
    pub tabs: Seq<TabView>,
    pub tab_counter: i32,
    pub quit_pressed: bool,
    pub spawn_child_window: bool,
    pub close_child_window: bool,
    pub coordinator: CoordinatorState,
}

impl View for App {
    type V = AppView;

    open spec fn view(&self) -> AppView {
        AppView {
            status: self.current_status@,
            location: self.current_location@,
            current_tab: self.current_tab,
            page: self.current_page@,
            tabs: tab_views(self.tabs@),
            tab_counter: self.tab_counter,
            quit_pressed: self.quit_pressed,
            spawn_child_window: self.spawn_child_window,
            close_child_window: self.close_child_window,
            coordinator: self.coordinator@,
        }
    }
}

/// A native window event, as far as the application decides on it.
#[derive(Clone, Copy, Debug, PartialEq, Eq, Structural)]
pub enum WindowEvent {
    CloseRequested,
    RedrawRequested,
    Resized { width: u32, height: u32 },
    Other,
}

/// What the host does in answer to a window event.
#[derive(Clone, Copy, Debug, PartialEq, Eq, Structural)]
pub enum Directive {
    /// Leave the event loop.
    Exit,
    /// Let the GUI layer see the event.
    FeedGui,
    /// Relay the event to the guest through the surface proxy.
    ForwardToGuest,
    /// Perform an action of the coordinator.
    Coordinate(Action),
    /// Draw the browser and ask for the next frame.
    Redraw,
    /// Draw the child window and ask for its next frame.
    RedrawChild,
    /// Give the main surface a new size.
    Resize { width: u32, height: u32 },
}

/// The state of an application that has just started.
pub open spec fn initial_app() -> AppView {
    AppView {
        status: "Loading..."@,
        location: home_location(),
        current_tab: 0,
        page: Seq::<char>::empty(),
        tabs: seq![opened_tab(0, Seq::<char>::empty())],
        tab_counter: 0,
        quit_pressed: false,
        spawn_child_window: false,
        close_child_window: false,
        coordinator: initial_state(),
    }
}

/// Whether `location` names a guest module.
pub open spec fn names_module(location: Seq<char>) -> bool {
    wasm_suffix().is_suffix_of(location)
}

/// The state after the page for the address bar's location has arrived and
/// the tab in front is to show it. A guest module is started instead of
/// shown.
pub open spec fn submitted(a: AppView, page: Seq<char>) -> AppView {
    if names_module(a.location) {
        AppView { status: "Loading..."@, page, spawn_child_window: true, ..a }
    } else {
        AppView {
            status: "Loaded"@,
            page,
            close_child_window: true,
            tabs: visit_first(a.tabs, a.current_tab, a.location, page),
            ..a
        }
    }
}

/// The state after the page for the address bar's location has arrived
/// without any tab taking note.
pub open spec fn gone(a: AppView, page: Seq<char>) -> AppView {
    if names_module(a.location) {
        AppView { status: "Loading..."@, page, spawn_child_window: true, ..a }
    } else {
        AppView { status: "Loaded"@, page, close_child_window: true, ..a }
    }
}

/// The state after the tab at `index` was brought to the front and the page
/// at its location has arrived.
pub open spec fn tab_opened(a: AppView, index: int, page: Seq<char>) -> AppView {
    if 0 <= index < a.tabs.len() {
        let tab = a.tabs[index];
        AppView {
            status: "Loaded"@,
            location: tab.location,
            current_tab: tab.identifier,
            page,
            tabs: a.tabs.update(index, visited(tab, tab.location, page)),
            spawn_child_window: a.spawn_child_window || names_module(tab.location),
            close_child_window: a.close_child_window || !names_module(tab.location),
            ..a
        }
    } else {
        a
    }
}

/// The state after a tab was added, which then is in front. Nothing
/// changes once the identifiers are used up.
pub open spec fn tab_added(a: AppView) -> AppView {
    if a.tab_counter < i32::MAX {
        let identifier = (a.tab_counter + 1) as i32;
        AppView {
            location: home_location(),
            current_tab: identifier,
            page: Seq::<char>::empty(),
            tabs: a.tabs.push(opened_tab(identifier, "New Tab"@)),
            tab_counter: identifier,
            ..a
        }
    } else {
        a
    }
}

/// The state after the user followed `link` and its page has arrived.
pub open spec fn link_followed(a: AppView, link: Seq<char>, page: Seq<char>) -> AppView {
    AppView {
        status: if names_module(link) && a.tabs.len() == 0 {
            "Loading..."@
        } else {
            "Loaded"@
        },
        location: link,
        page,
        tabs: visit_all(a.tabs, a.current_tab, link, page),
        spawn_child_window: a.spawn_child_window || names_module(link),
        close_child_window: a.close_child_window || !names_module(link),
        ..a
    }
}

/// The error that an event brings to light: the one that the coordinator's
/// status names after the event and did not name before.
pub open spec fn surfaced_error(s: CoordinatorState, event: Event) -> Option<SessionError> {
    let next = step(s, event).0;
    match next.status {
        Status::Failed(error) => if next.status != s.status {
            Some(error)
        } else {
            None
        },
        _ => None,
    }
}

/// The state after the coordinator has taken `event` in. An error that
/// comes to light becomes the text of the status bar.
pub open spec fn reported(a: AppView, event: Event) -> AppView {
    AppView {
        status: match surfaced_error(a.coordinator, event) {
            Some(error) => error.message(),
            None => a.status,
        },
        coordinator: step(a.coordinator, event).0,
        ..a
    }
}

/// The state after the user's request to start a guest module, if there
/// is one, has been passed to the coordinator.
pub open spec fn spawn_applied(a: AppView) -> AppView {
    if a.spawn_child_window {
        AppView { spawn_child_window: false, ..reported(a, Event::SpawnRequested) }
    } else {
        a
    }
}

/// The state after the user's request to close the guest module, if there
/// is one, has been passed to the coordinator.
pub open spec fn close_applied(a: AppView) -> AppView {
    if a.close_child_window {
        AppView { close_child_window: false, ..reported(a, Event::StopRequested) }
    } else {
        a
    }
}

/// What the coordinator asks for when the user's request to start a guest
/// module, if there is one, reaches it.
pub open spec fn spawn_actions(a: AppView) -> Seq<Action> {
    if a.spawn_child_window {
        step(a.coordinator, Event::SpawnRequested).1
    } else {
        Seq::<Action>::empty()
    }
}

/// What the coordinator asks for when the user's request to close the
/// guest module, if there is one, reaches it.
pub open spec fn close_actions(a: AppView) -> Seq<Action> {
    if a.close_child_window {
        step(a.coordinator, Event::StopRequested).1
    } else {
        Seq::<Action>::empty()
    }
}

/// Coordinator actions as directives.
pub open spec fn coordinated(actions: Seq<Action>) -> Seq<Directive> {
    Seq::new(actions.len(), |i: int| Directive::Coordinate(actions[i]))
}

/// What a window event asks for by its kind. `active` says whether a guest
/// session is running.
pub open spec fn event_directives(active: bool, event: WindowEvent) -> Seq<Directive> {
    match event {
        WindowEvent::CloseRequested => seq![Directive::Exit],
        WindowEvent::RedrawRequested => if active {
            seq![Directive::Redraw, Directive::RedrawChild]
        } else {
            seq![Directive::Redraw]
        },
        WindowEvent::Resized { width, height } => if width > 0 && height > 0 {
            seq![Directive::Resize { width, height }]
        } else {
            Seq::<Directive>::empty()
        },
        WindowEvent::Other => Seq::<Directive>::empty(),
    }
}

/// The state after a window event: the user's requests have reached the
/// coordinator and are no longer pending.
pub open spec fn after_window_event(a: AppView) -> AppView {
    close_applied(spawn_applied(a))
}

/// What every window event begins with: leave if the user chose to quit;
/// show the event to the GUI; relay it to a running guest.
pub open spec fn opening_directives(a: AppView) -> Seq<Directive> {
    let quit = if a.quit_pressed {
        seq![Directive::Exit]
    } else {
        Seq::<Directive>::empty()
    };
    let relay = if a.coordinator.phase == Phase::Running {
        seq![Directive::ForwardToGuest]
    } else {
        Seq::<Directive>::empty()
    };
    quit + seq![Directive::FeedGui] + relay
}

/// Everything the host does for one window event, in order: the opening;
/// what the coordinator asks for on the user's request to start a guest
/// module, then on the request to close it; then what the event itself
/// calls for.
pub open spec fn window_directives(a: AppView, event: WindowEvent) -> Seq<Directive> {
    opening_directives(a) + coordinated(spawn_actions(a)) + coordinated(
        close_actions(spawn_applied(a)),
    ) + event_directives(after_window_event(a).coordinator.phase == Phase::Running, event)
}

/// Appends `actions` to `directives`, each as a directive.
pub fn append_coordinated(directives: &mut Vec<Directive>, actions: &Vec<Action>)
    ensures
        final(directives)@ == old(directives)@ + coordinated(actions@),
{
    let mut i: usize = 0;
    while i < actions.len()
        invariant
            i <= actions.len(),
            directives@ == old(directives)@ + coordinated(actions@.take(i as int)),
        decreases actions.len() - i,
    {
        directives.push(Directive::Coordinate(actions[i]));
        assert(coordinated(actions@.take(i + 1)) =~= coordinated(actions@.take(i as int)).push(
            Directive::Coordinate(actions@[i as int]),
        ));
        i += 1;
    }
    assert(actions@.take(actions.len() as int) =~= actions@);
}

impl App {
    pub fn new() -> (app: Self)
        ensures
            app@ == initial_app(),
    {
        let mut tabs: Vec<Tab> = Vec::new();
        let first = Tab::open(0, "");
        proof {
            reveal_strlit("");
            assert(""@ =~= Seq::<char>::empty());
        }
        tabs.push(first);
        let app = App {
            current_status: String::from_str("Loading..."),
            current_location: String::from_str(
                "https://raw.githubusercontent.com/abemassry/m-browser/refs/heads/main/README.md",
            ),
            current_tab: 0,
            current_page: String::new(),
            tabs,
            tab_counter: 0,
            quit_pressed: false,
            spawn_child_window: false,
            close_child_window: false,
            coordinator: Coordinator::new(),
        };
        assert(app@.tabs =~= seq![opened_tab(0, Seq::<char>::empty())]);
        app
    }

    /// The user chose to quit.
    pub fn press_quit(&mut self)
        ensures
            final(self)@ == (AppView { quit_pressed: true, ..old(self)@ }),
    {
        self.quit_pressed = true;
    }

    /// The user asked for the guest module to be started.
    pub fn press_spawn(&mut self)
        ensures
            final(self)@ == (AppView { spawn_child_window: true, ..old(self)@ }),
    {
        self.spawn_child_window = true;
    }

    /// The user pressed the back button.
    pub fn press_back(&mut self)
        ensures
            final(self)@ == (AppView { status: "Loaded"@, ..old(self)@ }),
    {
        match back() {
            Ok(_) => {
                self.current_status = String::from_str("Loaded");
            },
            Err(message) => {
                self.current_status = message;
            },
        }
    }

    /// The user pressed the forward button.
    pub fn press_forward(&mut self)
        ensures
            final(self)@ == (AppView { status: "Loaded"@, ..old(self)@ }),
    {
        match forward() {
            Ok(_) => {
                self.current_status = String::from_str("Loaded");
            },
            Err(message) => {
                self.current_status = message;
            },
        }
    }

    /// The user confirmed the address bar and `page` is what was fetched
    /// for its location.
    pub fn submit_location(&mut self, page: String)
        ensures
            final(self)@ == submitted(old(self)@, page@),
    {
        if is_wasm(self.current_location.clone()) {
            self.current_status = String::from_str("Loading...");
            self.spawn_child_window = true;
        } else {
            self.close_child_window = true;
            visit_first_tab(&mut self.tabs, self.current_tab, &self.current_location, &page);
            self.current_status = String::from_str("Loaded");
        }
        self.current_page = page;
    }

    /// The user pressed the go button and `page` is what was fetched for
    /// the address bar's location.
    pub fn press_go(&mut self, page: String)
        ensures
            final(self)@ == gone(old(self)@, page@),
    {
        if is_wasm(self.current_location.clone()) {
            self.current_status = String::from_str("Loading...");
            self.spawn_child_window = true;
        } else {
            self.close_child_window = true;
            self.current_status = String::from_str("Loaded");
        }
        self.current_page = page;
    }

    /// The user chose the tab at `index` and `page` is what was fetched for
    /// that tab's location. Says whether there is such a tab.
    pub fn open_tab(&mut self, index: usize, page: String) -> (opened: bool)
        ensures
            opened == (index < old(self)@.tabs.len()),
            final(self)@ == tab_opened(old(self)@, index as int, page@),
    {
        if index >= self.tabs.len() {
            return false;
        }
        let tab = &mut self.tabs[index];
        let location = tab.location.clone();
        let identifier = tab.identifier;
        tab.visit(location.clone(), page.clone());
        if is_wasm(location.clone()) {
            self.spawn_child_window = true;
        } else {
            self.close_child_window = true;
        }
        self.current_tab = identifier;
        self.current_location = location;
        self.current_page = page;
        self.current_status = String::from_str("Loaded");
        assert(self@.tabs =~= tab_opened(old(self)@, index as int, page@).tabs);
        true
    }

    /// The user asked for a new tab. Says whether one was added.
    pub fn add_tab(&mut self) -> (added: bool)
        ensures
            added == (old(self)@.tab_counter < i32::MAX),
            final(self)@ == tab_added(old(self)@),
    {
        if self.tab_counter == i32::MAX {
            return false;
        }
        self.tab_counter = self.tab_counter + 1;
        let tab = Tab::open(self.tab_counter, "New Tab");
        self.current_tab = self.tab_counter;
        self.current_location = tab.location.clone();
        self.current_page = tab.contents.clone();
        self.tabs.push(tab);
        assert(self@.tabs =~= tab_added(old(self)@).tabs);
        true
    }

    /// The user followed `link` and `page` is what was fetched for it.
    pub fn follow_link(&mut self, link: String, page: String)
        ensures
            final(self)@ == link_followed(old(self)@, link@, page@),
    {
        if is_wasm(link.clone()) {
            self.spawn_child_window = true;
            if self.tabs.len() == 0 {
                self.current_status = String::from_str("Loading...");
            } else {
                self.current_status = String::from_str("Loaded");
            }
        } else {
            self.close_child_window = true;
            self.current_status = String::from_str("Loaded");
        }
        visit_all_tabs(&mut self.tabs, self.current_tab, &link, &page);
        self.current_location = link;
        self.current_page = page;
    }

    /// The text of the status bar.
    pub fn status_line(&self) -> (line: String)
        ensures
            line@ == "Status: "@ + self@.status,
    {
        let mut line = String::from_str("Status: ");
        line.append(self.current_status.as_str());
        line
    }

    /// Whether the central panel shows the page: it does unless a guest
    /// session is running.
    pub fn shows_page(&self) -> (shown: bool)
        ensures
            shown == (self@.coordinator.phase != Phase::Running),
    {
        !self.coordinator.is_active()
    }

    /// Passes `event` to the coordinator and answers with what the host
    /// must do. An error the session ends in is put into the status bar.
    pub fn report(&mut self, event: Event) -> (actions: Vec<Action>)
        ensures
            final(self)@ == reported(old(self)@, event),
            actions@ == step(old(self)@.coordinator, event).1,
    {
        let before = self.coordinator.status();
        let actions = self.coordinator.handle(event);
        let after = self.coordinator.status();
        match after {
            Status::Failed(error) => {
                if after != before {
                    self.current_status = error.describe();
                }
            },
            _ => {},
        }
        actions
    }

    /// Decides what the host does for one event of the main window, and
    /// passes the user's pending requests on to the coordinator.
    pub fn window_event(&mut self, event: WindowEvent) -> (directives: Vec<Directive>)
        ensures
            final(self)@ == after_window_event(old(self)@),
            directives@ == window_directives(old(self)@, event),
    {
        let mut directives = self.opening();
        self.apply_spawn(&mut directives);
        self.apply_close(&mut directives);
        push_event_directives(&mut directives, self.coordinator.is_active(), event);
        directives
    }

    fn opening(&self) -> (directives: Vec<Directive>)
        ensures
            directives@ == opening_directives(self@),
    {
        let mut directives: Vec<Directive> = Vec::new();
        if self.quit_pressed {
            directives.push(Directive::Exit);
        }
        directives.push(Directive::FeedGui);
        if self.coordinator.is_active() {
            directives.push(Directive::ForwardToGuest);
        }
        assert(directives@ =~= opening_directives(self@));
        directives
    }

    fn apply_spawn(&mut self, directives: &mut Vec<Directive>)
        ensures
            final(self)@ == spawn_applied(old(self)@),
            final(directives)@ == old(directives)@ + coordinated(spawn_actions(old(self)@)),
    {
        if self.spawn_child_window {
            self.spawn_child_window = false;
            let actions = self.report(Event::SpawnRequested);
            append_coordinated(directives, &actions);
        } else {
            assert(directives@ =~= directives@ + coordinated(Seq::<Action>::empty()));
        }
    }

    fn apply_close(&mut self, directives: &mut Vec<Directive>)
        ensures
            final(self)@ == close_applied(old(self)@),
            final(directives)@ == old(directives)@ + coordinated(close_actions(old(self)@)),
    {
        if self.close_child_window {
            self.close_child_window = false;
            let actions = self.report(Event::StopRequested);
            append_coordinated(directives, &actions);
        } else {
            assert(directives@ =~= directives@ + coordinated(Seq::<Action>::empty()));
        }
    }
}

/// Appends what `event` calls for by its kind.
pub fn push_event_directives(directives: &mut Vec<Directive>, active: bool, event: WindowEvent)
    ensures
        final(directives)@ == old(directives)@ + event_directives(active, event),
{
    match event {
        WindowEvent::CloseRequested => {
            directives.push(Directive::Exit);
        },
        WindowEvent::RedrawRequested => {
            directives.push(Directive::Redraw);
            if active {
                directives.push(Directive::RedrawChild);
            }
        },
        WindowEvent::Resized { width, height } => {
            if width > 0 && height > 0 {
                directives.push(Directive::Resize { width, height });
            }
        },
        WindowEvent::Other => {},
    }
    assert(directives@ =~= old(directives)@ + event_directives(active, event));
}

/// Whatever error the running session ends in, it is what the status bar
/// shows once the host has reported it.
pub proof fn lemma_session_error_reaches_the_status_bar(a: AppView, error: SessionError)
    requires
        a.coordinator.wf(),
        a.coordinator.phase == Phase::Running,
    ensures
        reported(
            a,
            Event::GuestFinished { session: a.coordinator.session, result: Err(error) },
        ).status == error.message(),
{
}

/// A window event leaves no request of the user pending.
pub proof fn lemma_window_event_consumes_requests(a: AppView)
    ensures
        !after_window_event(a).spawn_child_window,
        !after_window_event(a).close_child_window,
{
}

/// Goes back in the history of the tab in front.
pub fn back() -> (done: Result<(), String>)
    ensures
        done is Ok,
{
    Ok(())
}

/// Goes forward in the history of the tab in front.
pub fn forward() -> (done: Result<(), String>)
    ensures
        done is Ok,
{
    Ok(())
}

} // verus!
