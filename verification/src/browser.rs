//! Tabs and their history.

use crate::markdown::{
    get_heading, heading_label, is_wasm, markdown_marks, texts, wasm_suffix,
};
use vstd::prelude::*;
use vstd::string::StringExecFns;

verus! {

/// One tab of the browser.
#[derive(Clone, Debug)]
pub struct Tab {
    pub label: String,
    pub location: String,
    pub status: String,
    pub identifier: i32,
    /// The page the tab shows.
    pub contents: String,
    /// Locations visited before the current one, oldest first.
    pub back: Vec<String>,
    pub forward: Vec<String>,
}

/// A tab as contracts see it.
pub struct TabView {
    pub label: Seq<char>,
    pub location: Seq<char>,
    pub status: Seq<char>,
    pub identifier: i32,
    pub contents: Seq<char>,
    pub back: Seq<Seq<char>>,
    pub forward: Seq<Seq<char>>,
}

impl View for Tab {
    type V = TabView;

    open spec fn view(&self) -> TabView {
        TabView {
            label: self.label@,
            location: self.location@,
            status: self.status@,
            identifier: self.identifier,
            contents: self.contents@,
            back: texts(self.back@),
            forward: texts(self.forward@),
        }
    }
}

/// The location every new tab opens on.
pub open spec fn home_location() -> Seq<char> {
    "https://raw.githubusercontent.com/abemassry/m-browser/refs/heads/main/README.md"@
}

/// A tab that was just opened under `identifier`.
pub open spec fn opened_tab(identifier: i32, label: Seq<char>) -> TabView {
    TabView {
        label,
        location: home_location(),
        status: "Loaded"@,
        identifier,
        contents: Seq::<char>::empty(),
        back: Seq::<Seq<char>>::empty(),
        forward: Seq::<Seq<char>>::empty(),
    }
}

/// The tab after it has gone to the page `contents` at `location`: the
/// location it leaves is the newest entry of its back history, the forward
/// history is gone, and the label is taken from the new page.
pub open spec fn visited(tab: TabView, location: Seq<char>, contents: Seq<char>) -> TabView {
    TabView {
        label: heading_label(location, markdown_marks(contents)),
        location,
        contents,
        back: tab.back.push(tab.location),
        forward: Seq::<Seq<char>>::empty(),
        ..tab
    }
}

/// The least index at or after `from` of a tab with `identifier`, or the
/// number of tabs if there is none.
pub open spec fn position_of_tab(tabs: Seq<TabView>, from: int, identifier: i32) -> int
    decreases tabs.len() - from,
{
    if from >= tabs.len() {
        tabs.len() as int
    } else if tabs[from].identifier == identifier {
        from
    } else {
        position_of_tab(tabs, from + 1, identifier)
    }
}

/// `tabs` after the first tab with `identifier`, if there is one, has
/// visited the page.
pub open spec fn visit_first(
    tabs: Seq<TabView>,
    identifier: i32,
    location: Seq<char>,
    contents: Seq<char>,
) -> Seq<TabView> {
    let at = position_of_tab(tabs, 0, identifier);
    if at < tabs.len() {
        tabs.update(at, visited(tabs[at], location, contents))
    } else {
        tabs
    }
}

/// `tabs` after every tab with `identifier` has visited the page.
pub open spec fn visit_all(
    tabs: Seq<TabView>,
    identifier: i32,
    location: Seq<char>,
    contents: Seq<char>,
) -> Seq<TabView> {
    Seq::new(
        tabs.len(),
        |i: int|
            if tabs[i].identifier == identifier {
                visited(tabs[i], location, contents)
            } else {
                tabs[i]
            },
    )
}

/// The views of a sequence of tabs.
pub open spec fn tab_views(tabs: Seq<Tab>) -> Seq<TabView> {
    Seq::new(tabs.len(), |i: int| tabs[i]@)
}

impl Tab {
    /// A tab on the home location, with nothing loaded.
    pub fn open(identifier: i32, label: &str) -> (tab: Tab)
        ensures
            tab@ == opened_tab(identifier, label@),
    {
        let tab = Tab {
            label: String::from_str(label),
            location: String::from_str(
                "https://raw.githubusercontent.com/abemassry/m-browser/refs/heads/main/README.md",
            ),
            status: String::from_str("Loaded"),
            identifier,
            contents: String::new(),
            back: Vec::new(),
            forward: Vec::new(),
        };
        assert(texts(tab.back@) =~= Seq::<Seq<char>>::empty());
        assert(texts(tab.forward@) =~= Seq::<Seq<char>>::empty());
        tab
    }

    /// Goes to the page `contents` found at `location`.
    pub fn visit(&mut self, location: String, contents: String)
        ensures
            final(self)@ == visited(old(self)@, location@, contents@),
    {
        let ghost before = self.back@;
        let left = self.location.clone();
        self.back.push(left);
        self.forward.clear();
        self.label = get_heading(location.clone(), contents.clone());
        self.location = location;
        self.contents = contents;
        assert(texts(self.back@) =~= texts(before).push(old(self).location@));
        assert(texts(self.forward@) =~= Seq::<Seq<char>>::empty());
    }
}

/// The index of the first tab with `identifier`, or the number of tabs.
pub fn find_tab(tabs: &Vec<Tab>, identifier: i32) -> (at: usize)
    ensures
        at == position_of_tab(tab_views(tabs@), 0, identifier),
        at <= tabs.len(),
{
    let mut at: usize = 0;
    while at < tabs.len() && tabs[at].identifier != identifier
        invariant
            at <= tabs.len(),
            position_of_tab(tab_views(tabs@), 0, identifier) == position_of_tab(
                tab_views(tabs@),
                at as int,
                identifier,
            ),
        decreases tabs.len() - at,
    {
        at += 1;
    }
    at
}

/// Lets the first tab with `identifier` visit the page.
pub fn visit_first_tab(tabs: &mut Vec<Tab>, identifier: i32, location: &String, contents: &String)
    ensures
        tab_views(final(tabs)@) == visit_first(
            tab_views(old(tabs)@),
            identifier,
            location@,
            contents@,
        ),
{
    let at = find_tab(tabs, identifier);
    if at < tabs.len() {
        let tab = &mut tabs[at];
        tab.visit(location.clone(), contents.clone());
    }
    assert(tab_views(tabs@) =~= visit_first(
        tab_views(old(tabs)@),
        identifier,
        location@,
        contents@,
    ));
}

/// Lets every tab with `identifier` visit the page.
pub fn visit_all_tabs(tabs: &mut Vec<Tab>, identifier: i32, location: &String, contents: &String)
    ensures
        tab_views(final(tabs)@) == visit_all(
            tab_views(old(tabs)@),
            identifier,
            location@,
            contents@,
        ),
{
    let ghost before = tab_views(tabs@);
    let mut i: usize = 0;
    while i < tabs.len()
        invariant
            i <= tabs.len(),
            tabs.len() == before.len(),
            forall|k: int| 0 <= k < i ==> #[trigger] tabs@[k]@ == visit_all(
                before,
                identifier,
                location@,
                contents@,
            )[k],
            forall|k: int| i <= k < tabs.len() ==> #[trigger] tabs@[k]@ == before[k],
        decreases tabs.len() - i,
    {
        if tabs[i].identifier == identifier {
            let tab = &mut tabs[i];
            tab.visit(location.clone(), contents.clone());
        }
        i += 1;
    }
    assert(tab_views(tabs@) =~= visit_all(before, identifier, location@, contents@));
}

/// What the host has to fetch for a location.
#[derive(Clone, Copy, Debug, PartialEq, Eq, Structural)]
pub enum Fetch {
    /// The bytes of a guest module, to be stored under [`module_file`].
    Module,
    /// The text of a page.
    Page,
}

/// Says what is to be fetched for `location`: a guest module where the
/// location ends in `.wasm`, a page otherwise.
pub fn plan_fetch(location: String) -> (fetch: Fetch)
    ensures
        fetch == if wasm_suffix().is_suffix_of(location@) {
            Fetch::Module
        } else {
            Fetch::Page
        },
{
    if is_wasm(location) {
        Fetch::Module
    } else {
        Fetch::Page
    }
}

/// The file a fetched guest module is stored in, which is also what the
/// browser holds as the page of a module's location.
pub fn module_file() -> (path: String)
    ensures
        path@ == "downloaded.wasm"@,
{
    String::from_str("downloaded.wasm")
}

/// The page the browser shows once the fetch of a page is over: the text
/// that arrived or, after a failure, a fixed notice.
pub fn page_or_failure(response: Result<String, String>) -> (page: String)
    ensures
        response matches Ok(text) ==> page == text,
        response is Err ==> page@ == "Failed to load page"@,
{
    match response {
        Ok(text) => text,
        Err(_) => String::from_str("Failed to load page"),
    }
}

} // verus!
