//! What the browser reads out of a page: the label a tab gets and the
//! links the page offers.
//!
//! Pages are CommonMark. The parsing is `pulldown_cmark`'s; of its events
//! the browser looks at headings, text and links only.

use pulldown_cmark::{Event, Options, Parser, Tag, TagEnd};
use vstd::prelude::*;
use vstd::string::{StrSliceExecFns, StringExecFns};

verus! {

/// A parser event, as far as the browser cares about it.
pub enum Mark {
    HeadingStart,
    HeadingEnd,
    /// A text node, inside or outside of any element.
    Text(Seq<char>),
    /// The start of a link, with the link's destination.
    Link(Seq<char>),
    Other,
}

/// [`Mark`], as executable code holds it.
#[derive(Clone, Debug, PartialEq, Eq)]
pub enum MarkEvent {
    HeadingStart,
    HeadingEnd,
    Text(String),
    LinkStart(String),
    Other,
}

impl View for MarkEvent {
    type V = Mark;

    open spec fn view(&self) -> Mark {
        match self {
            MarkEvent::HeadingStart => Mark::HeadingStart,
            MarkEvent::HeadingEnd => Mark::HeadingEnd,
            MarkEvent::Text(text) => Mark::Text(text@),
            MarkEvent::LinkStart(url) => Mark::Link(url@),
            MarkEvent::Other => Mark::Other,
        }
    }
}

/// The marks that a sequence of events stands for.
pub open spec fn marks(events: Seq<MarkEvent>) -> Seq<Mark> {
    Seq::new(events.len(), |i: int| events[i]@)
}

/// The events `pulldown_cmark` yields for `text` with no extension enabled,
/// each reduced to a [`Mark`].
pub uninterp spec fn markdown_marks(text: Seq<char>) -> Seq<Mark>;

/// Runs `pulldown_cmark::Parser::new_ext` on `text` with
/// `Options::empty()` and collects the iterator's events in order. A
/// heading's start and end, a text node and a link's start keep their kind,
/// the last two with their text and destination; every other event becomes
/// [`MarkEvent::Other`]. The parser is a function of its input alone, which
/// is all the contract claims: the result is what [`markdown_marks`] names.
#[verifier::external_body]
fn parse_markdown(text: &str) -> (events: Vec<MarkEvent>)
    ensures
        marks(events@) == markdown_marks(text@),
{
    Parser::new_ext(text, Options::empty()).map(
        |event| match event {
            Event::Start(Tag::Heading { .. }) => MarkEvent::HeadingStart,
            Event::End(TagEnd::Heading(_)) => MarkEvent::HeadingEnd,
            Event::Text(text) => MarkEvent::Text(text.into_string()),
            Event::Start(Tag::Link { dest_url, .. }) => MarkEvent::LinkStart(dest_url.into_string()),
            _ => MarkEvent::Other,
        },
    ).collect()
}

/// The least index at or after `from` at which `marks` holds `target`, or
/// the length of `marks` if there is none.
pub open spec fn index_of_next(marks: Seq<Mark>, from: int, target: Mark) -> int
    decreases marks.len() - from,
{
    if from >= marks.len() {
        marks.len() as int
    } else if marks[from] == target {
        from
    } else {
        index_of_next(marks, from + 1, target)
    }
}

/// The text of a mark: what a text node holds, and nothing for any other.
pub open spec fn text_of(mark: Mark) -> Seq<char> {
    match mark {
        Mark::Text(text) => text,
        _ => Seq::<char>::empty(),
    }
}

/// The text nodes of `marks` from `lo` up to `hi`, joined.
pub open spec fn joined_text(marks: Seq<Mark>, lo: int, hi: int) -> Seq<char>
    decreases hi - lo,
{
    if lo >= hi {
        Seq::<char>::empty()
    } else {
        joined_text(marks, lo, hi - 1) + text_of(marks[hi - 1])
    }
}

/// The text of the first heading: all text between the first heading start
/// and the first heading end after it. Empty if the page has no heading.
pub open spec fn heading_text(marks: Seq<Mark>) -> Seq<char> {
    let start = index_of_next(marks, 0, Mark::HeadingStart);
    let end = index_of_next(marks, start + 1, Mark::HeadingEnd);
    joined_text(marks, start + 1, end)
}

/// The index of the last `/` in `location`, or -1 if it has none.
pub open spec fn last_slash(location: Seq<char>) -> int
    decreases location.len(),
{
    if location.len() == 0 {
        -1
    } else if location.last() == '/' {
        location.len() - 1
    } else {
        last_slash(location.drop_last())
    }
}

/// What follows the last `/` of `location`; all of it if it has none.
pub open spec fn last_segment(location: Seq<char>) -> Seq<char> {
    location.subrange(last_slash(location) + 1, location.len() as int)
}

/// The label of a tab that shows the page `marks` at `location`: the
/// page's first heading, or, where that is empty, the last segment of the
/// location.
pub open spec fn heading_label(location: Seq<char>, marks: Seq<Mark>) -> Seq<char> {
    if heading_text(marks).len() == 0 {
        last_segment(location)
    } else {
        heading_text(marks)
    }
}

/// The destinations of the links in `marks`, in the order of the page.
pub open spec fn link_targets(marks: Seq<Mark>) -> Seq<Seq<char>>
    decreases marks.len(),
{
    if marks.len() == 0 {
        Seq::<Seq<char>>::empty()
    } else {
        match marks.last() {
            Mark::Link(url) => link_targets(marks.drop_last()).push(url),
            _ => link_targets(marks.drop_last()),
        }
    }
}

/// The texts that a sequence of strings holds.
pub open spec fn texts(strings: Seq<String>) -> Seq<Seq<char>> {
    Seq::new(strings.len(), |i: int| strings[i]@)
}

/// The suffix that marks a location as a guest module.
pub open spec fn wasm_suffix() -> Seq<char> {
    seq!['.', 'w', 'a', 's', 'm']
}

/// Whether `filename` names a guest module rather than a page.
pub fn is_wasm(filename: String) -> (wasm: bool)
    ensures
        wasm == wasm_suffix().is_suffix_of(filename@),
{
    let name = filename.as_str();
    let len = name.unicode_len();
    if len < 5 {
        return false;
    }
    let wasm = name.get_char(len - 5) == '.' && name.get_char(len - 4) == 'w' && name.get_char(
        len - 3,
    ) == 'a' && name.get_char(len - 2) == 's' && name.get_char(len - 1) == 'm';
    proof {
        let tail = filename@.subrange(len - 5, len as int);
        if wasm {
            assert(tail =~= wasm_suffix());
        } else {
            assert(tail[0] == filename@[len - 5]);
            assert(tail[1] == filename@[len - 4]);
            assert(tail[2] == filename@[len - 3]);
            assert(tail[3] == filename@[len - 2]);
            assert(tail[4] == filename@[len - 1]);
        }
    }
    wasm
}

/// [`index_of_next`] finds the first occurrence: nothing before the index
/// it gives is the target, and what stands at the index is, unless the
/// index is the length.
pub proof fn lemma_index_of_next_is_first(marks: Seq<Mark>, from: int, target: Mark)
    requires
        0 <= from <= marks.len(),
    ensures
        from <= index_of_next(marks, from, target) <= marks.len(),
        index_of_next(marks, from, target) < marks.len() ==> marks[index_of_next(
            marks,
            from,
            target,
        )] == target,
        forall|k: int| from <= k < index_of_next(marks, from, target) ==> marks[k] != target,
    decreases marks.len() - from,
{
    if from < marks.len() && marks[from] != target {
        lemma_index_of_next_is_first(marks, from + 1, target);
    }
}

/// [`last_slash`] finds the last `/`: there is one at the index it gives,
/// unless that is -1, and none after it.
pub proof fn lemma_last_slash_is_last(location: Seq<char>)
    ensures
        -1 <= last_slash(location) < location.len(),
        last_slash(location) >= 0 ==> location[last_slash(location)] == '/',
        forall|k: int| last_slash(location) < k < location.len() ==> location[k] != '/',
    decreases location.len(),
{
    if location.len() > 0 && location.last() != '/' {
        let shorter = location.drop_last();
        lemma_last_slash_is_last(shorter);
        assert forall|k: int| last_slash(location) < k < location.len() implies location[k]
            != '/' by {
            if k < shorter.len() {
                assert(shorter[k] == location[k]);
            }
        }
        if last_slash(location) >= 0 {
            assert(shorter[last_slash(location)] == location[last_slash(location)]);
        }
    }
}

/// The last segment of a location holds no `/`, and a location that ends in
/// its last segment after a `/`, or has none, is put together again from
/// what stands before and the segment.
pub proof fn lemma_last_segment(location: Seq<char>)
    ensures
        !last_segment(location).contains('/'),
        location == location.subrange(0, last_slash(location) + 1) + last_segment(location),
{
    lemma_last_slash_is_last(location);
    let segment = last_segment(location);
    if segment.contains('/') {
        let k = choose|k: int| 0 <= k < segment.len() && segment[k] == '/';
        assert(location[last_slash(location) + 1 + k] == '/');
    }
    assert(location =~= location.subrange(0, last_slash(location) + 1) + segment);
}

/// A page without a heading, and a page whose first heading holds no text,
/// is labelled by the last segment of its location.
pub proof fn lemma_label_without_heading(location: Seq<char>, marks: Seq<Mark>)
    requires
        !marks.contains(Mark::HeadingStart),
    ensures
        heading_label(location, marks) == last_segment(location),
{
    lemma_index_of_next_is_first(marks, 0, Mark::HeadingStart);
    let start = index_of_next(marks, 0, Mark::HeadingStart);
    if start < marks.len() {
        assert(marks.contains(Mark::HeadingStart));
    }
}

proof fn lemma_last_slash(location: Seq<char>, start: int)
    requires
        0 <= start <= location.len(),
        forall|k: int| start <= k < location.len() ==> location[k] != '/',
        start > 0 ==> location[start - 1] == '/',
    ensures
        last_slash(location) == start - 1,
    decreases location.len(),
{
    if location.len() > start {
        lemma_last_slash(location.drop_last(), start);
    }
}

/// The part of `location` after its last `/`.
pub fn last_segment_of(location: &str) -> (segment: String)
    ensures
        segment@ == last_segment(location@),
{
    let len = location.unicode_len();
    let mut start = len;
    while start > 0 && location.get_char(start - 1) != '/'
        invariant
            start <= len,
            len == location@.len(),
            forall|k: int| start <= k < len ==> location@[k] != '/',
        decreases start,
    {
        start -= 1;
    }
    proof {
        lemma_last_slash(location@, start as int);
    }
    String::from_str(location.substring_char(start, len))
}

/// The label for a tab that shows `events` at `location`.
pub fn heading_of(location: &str, events: &Vec<MarkEvent>) -> (heading: String)
    ensures
        heading@ == heading_label(location@, marks(events@)),
{
    let ghost page = marks(events@);
    let ghost start = index_of_next(page, 0, Mark::HeadingStart);
    let mut heading = String::new();
    let mut in_heading = false;
    let mut i: usize = 0;
    while i < events.len()
        invariant_except_break
            i <= events.len(),
            !in_heading ==> start == index_of_next(page, i as int, Mark::HeadingStart)
                && heading@.len() == 0,
            in_heading ==> start < i && index_of_next(page, start + 1, Mark::HeadingEnd)
                == index_of_next(page, i as int, Mark::HeadingEnd) && heading@ == joined_text(
                page,
                start + 1,
                i as int,
            ),
        invariant
            page == marks(events@),
            start == index_of_next(page, 0, Mark::HeadingStart),
        ensures
            heading@ == heading_text(page),
        decreases events.len() - i,
    {
        assert(page[i as int] == events@[i as int]@);
        match &events[i] {
            MarkEvent::HeadingStart => {
                in_heading = true;
            },
            MarkEvent::HeadingEnd => {
                if in_heading {
                    break ;
                }
            },
            MarkEvent::Text(text) => {
                if in_heading {
                    heading.append(text.as_str());
                }
            },
            _ => {},
        }
        i += 1;
    }
    if heading.as_str().is_empty() {
        last_segment_of(location)
    } else {
        heading
    }
}

/// The label for a tab that shows the page `contents`, found at
/// `location`: the text of the page's first heading or, if that is empty,
/// the last segment of the location.
pub fn get_heading(location: String, contents: String) -> (heading: String)
    ensures
        heading@ == heading_label(location@, markdown_marks(contents@)),
{
    let events = parse_markdown(contents.as_str());
    heading_of(location.as_str(), &events)
}

/// The destinations of the links in `events`, in order.
pub fn links_of(events: &Vec<MarkEvent>) -> (links: Vec<String>)
    ensures
        texts(links@) == link_targets(marks(events@)),
{
    let ghost page = marks(events@);
    let mut links: Vec<String> = Vec::new();
    let mut i: usize = 0;
    assert(page.take(0) =~= Seq::<Mark>::empty());
    assert(texts(links@) =~= Seq::<Seq<char>>::empty());
    while i < events.len()
        invariant
            i <= events.len(),
            page == marks(events@),
            texts(links@) == link_targets(page.take(i as int)),
        decreases events.len() - i,
    {
        let ghost before = links@;
        assert(page.take(i + 1).drop_last() =~= page.take(i as int));
        assert(page.take(i + 1).last() == events@[i as int]@);
        match &events[i] {
            MarkEvent::LinkStart(url) => {
                links.push(url.clone());
                assert(texts(links@) =~= texts(before).push(url@));
            },
            _ => {},
        }
        i += 1;
    }
    assert(page.take(events.len() as int) =~= page);
    links
}

/// The destinations of the links in the page `contents`, in order.
pub fn page_links(contents: &str) -> (links: Vec<String>)
    ensures
        texts(links@) == link_targets(markdown_marks(contents@)),
{
    let events = parse_markdown(contents);
    links_of(&events)
}

} // verus!
