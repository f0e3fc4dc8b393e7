//! Choosing the target window among the windows that the desktop lists, by
//! keywords in its title (Win32) or in its owner's or own name (Quartz).
use vstd::prelude::*;
use vstd::string::*;

use crate::snap::fits_i32;
use crate::snap::WindowRect;
use crate::text::contains;
use crate::text::contains_seq;

verus! {

/// The edges of a window as Win32 reports them.
#[derive(Debug, Clone, Copy, PartialEq, Eq, Structural)]
pub struct WindowBounds {
    pub left: i32,
    pub top: i32,
    pub right: i32,
    pub bottom: i32,
}

impl WindowBounds {
    /// Width and height are `i32` values.
    pub open spec fn size_fits(self) -> bool {
        fits_i32(self.right - self.left) && fits_i32(self.bottom - self.top)
    }

    /// The rectangle with these edges.
    pub open spec fn spec_rect(self) -> WindowRect {
        WindowRect {
            x: self.left,
            y: self.top,
            width: (self.right - self.left) as i32,
            height: (self.bottom - self.top) as i32,
        }
    }

    /// The rectangle with these edges.
    pub fn to_rect(&self) -> (r: WindowRect)
        requires
            self.size_fits(),
        ensures
            r == self.spec_rect(),
    {
        WindowRect {
            x: self.left,
            y: self.top,
            width: self.right - self.left,
            height: self.bottom - self.top,
        }
    }

    /// The rectangle with these edges; `None` where its width or height is
    /// no `i32`.
    pub fn checked_rect(&self) -> (r: Option<WindowRect>)
        ensures
            r is None <==> !self.size_fits(),
            r matches Some(rect) ==> rect == self.spec_rect(),
    {
        let w = self.right as i64 - self.left as i64;
        let h = self.bottom as i64 - self.top as i64;
        if -2147483648i64 <= w && w <= 2147483647i64 && -2147483648i64 <= h && h
            <= 2147483647i64 {
            Some(self.to_rect())
        } else {
            None
        }
    }
}

/// A top-level window as Win32 lists it: whether it is visible, its title
/// (empty where it has none or it cannot be read), and its edges where they
/// can be read.
#[derive(Debug, Clone)]
pub struct Win32Window {
    pub visible: bool,
    pub title: String,
    pub bounds: Option<WindowBounds>,
}

/// An on-screen window as Quartz lists it: the name of the application that
/// owns it, its own name, and its bounds, where each is present.
#[derive(Debug, Clone)]
pub struct QuartzWindow {
    pub owner: Option<String>,
    pub name: Option<String>,
    pub bounds: Option<WindowRect>,
}

/// One of `keywords` occurs in `title`.
pub open spec fn has_keyword(title: Seq<char>, keywords: Seq<String>) -> bool {
    exists|k: int| 0 <= k < keywords.len() && contains_seq(title, #[trigger] keywords[k]@)
}

/// A Win32 window that snapping follows: visible, titled, with a keyword in
/// its title, and with readable edges.
pub open spec fn is_win32_target(w: Win32Window, keywords: Seq<String>) -> bool {
    &&& w.visible
    &&& w.title@.len() > 0
    &&& has_keyword(w.title@, keywords)
    &&& w.bounds is Some
}

/// The text of an optional string, empty where there is none.
pub open spec fn text_or_empty(o: Option<String>) -> Seq<char> {
    match o {
        Some(s) => s@,
        None => Seq::empty(),
    }
}

/// A keyword that a Quartz window answers to: it occurs in the window's own
/// name (when that is not empty) or in its owner's name.
pub open spec fn quartz_hit(owner: Seq<char>, name: Seq<char>, keyword: Seq<char>) -> bool {
    (name.len() > 0 && contains_seq(name, keyword)) || contains_seq(owner, keyword)
}

/// The Quartz window answers to one of `keywords`.
pub open spec fn quartz_matches(owner: Seq<char>, name: Seq<char>, keywords: Seq<String>) -> bool {
    exists|k: int| 0 <= k < keywords.len() && quartz_hit(owner, name, #[trigger] keywords[k]@)
}

/// A Quartz window that snapping follows: it answers to a keyword and has
/// bounds of at least 100 by 100 (smaller ones are menu-bar items and the
/// like).
pub open spec fn is_quartz_target(w: QuartzWindow, keywords: Seq<String>) -> bool {
    &&& quartz_matches(text_or_empty(w.owner), text_or_empty(w.name), keywords)
    &&& w.bounds is Some
    &&& w.bounds->0.width >= 100
    &&& w.bounds->0.height >= 100
}

/// The title shown for a Quartz window: "owner - name", or the owner alone
/// when the window has no name.
pub open spec fn quartz_title(owner: Seq<char>, name: Seq<char>) -> Seq<char> {
    if name.len() > 0 {
        owner + " - "@ + name
    } else {
        owner
    }
}

/// Whether one of `keywords` occurs in `title`.
pub fn title_has_keyword(title: &str, keywords: &[String]) -> (r: bool)
    ensures
        r == has_keyword(title@, keywords@),
{
    let n = keywords.len();
    for k in 0..n
        invariant
            n == keywords@.len(),
            forall|j: int| 0 <= j < k ==> !contains_seq(title@, #[trigger] keywords@[j]@),
    {
        if contains(title, keywords[k].as_str()) {
            return true;
        }
    }
    false
}

/// Whether a Quartz window with these names answers to one of `keywords`.
pub fn quartz_names_match(owner: &str, name: &str, keywords: &[String]) -> (r: bool)
    ensures
        r == quartz_matches(owner@, name@, keywords@),
{
    let n = keywords.len();
    for k in 0..n
        invariant
            n == keywords@.len(),
            forall|j: int| 0 <= j < k ==> !quartz_hit(owner@, name@, #[trigger] keywords@[j]@),
    {
        let kw = keywords[k].as_str();
        if (!name.is_empty() && contains(name, kw)) || contains(owner, kw) {
            return true;
        }
    }
    false
}

/// The text of an optional string, empty where there is none.
pub fn string_or_empty(o: &Option<String>) -> (r: String)
    ensures
        r@ == text_or_empty(*o),
{
    match o {
        Some(s) => s.clone(),
        None => String::new(),
    }
}

/// The title shown for a Quartz window.
pub fn quartz_display_title(owner: &str, name: &str) -> (r: String)
    ensures
        r@ == quartz_title(owner@, name@),
{
    if !name.is_empty() {
        let mut t = String::from_str(owner);
        t.append(" - ");
        t.append(name);
        t
    } else {
        String::from_str(owner)
    }
}

/// The first Win32 window that snapping follows: its index in `windows`.
pub fn find_target_window_win32(windows: &[Win32Window], keywords: &[String]) -> (r: Option<usize>)
    ensures
        match r {
            Some(i) => {
                &&& i < windows@.len()
                &&& is_win32_target(windows@[i as int], keywords@)
                &&& forall|j: int| 0 <= j < i ==> !is_win32_target(#[trigger] windows@[j], keywords@)
            },
            None => forall|j: int|
                0 <= j < windows@.len() ==> !is_win32_target(#[trigger] windows@[j], keywords@),
        },
{
    let n = windows.len();
    for i in 0..n
        invariant
            n == windows@.len(),
            forall|j: int| 0 <= j < i ==> !is_win32_target(#[trigger] windows@[j], keywords@),
    {
        let w = &windows[i];
        if w.visible && !w.title.as_str().is_empty() && title_has_keyword(w.title.as_str(), keywords)
            && w.bounds.is_some() {
            return Some(i);
        }
    }
    None
}

/// The first Quartz window that snapping follows: its bounds and its
/// display title.
pub fn find_target_window_quartz(windows: &[QuartzWindow], keywords: &[String]) -> (r: Option<
    (WindowRect, String),
>)
    ensures
        match r {
            Some((rect, title)) => exists|i: int|
                {
                    &&& 0 <= i < windows@.len()
                    &&& #[trigger] is_quartz_target(windows@[i], keywords@)
                    &&& forall|j: int|
                        0 <= j < i ==> !is_quartz_target(#[trigger] windows@[j], keywords@)
                    &&& windows@[i].bounds == Some(rect)
                    &&& title@ == quartz_title(
                        text_or_empty(windows@[i].owner),
                        text_or_empty(windows@[i].name),
                    )
                },
            None => forall|j: int|
                0 <= j < windows@.len() ==> !is_quartz_target(#[trigger] windows@[j], keywords@),
        },
{
    let n = windows.len();
    for i in 0..n
        invariant
            n == windows@.len(),
            forall|j: int| 0 <= j < i ==> !is_quartz_target(#[trigger] windows@[j], keywords@),
    {
        let w = &windows[i];
        let owner = string_or_empty(&w.owner);
        let name = string_or_empty(&w.name);
        if quartz_names_match(owner.as_str(), name.as_str(), keywords) {
            match w.bounds {
                Some(rect) => {
                    if rect.width >= 100 && rect.height >= 100 {
                        let title = quartz_display_title(owner.as_str(), name.as_str());
                        assert(is_quartz_target(windows@[i as int], keywords@));
                        return Some((rect, title));
                    }
                },
                None => {},
            }
        }
    }
    None
}

/// No title matches an empty keyword list.
pub proof fn lemma_has_keyword_empty(title: Seq<char>)
    ensures
        !has_keyword(title, Seq::<String>::empty()),
{
}

/// A title matches a keyword list as soon as any one keyword of it, at any
/// position, occurs in the title.
pub proof fn lemma_any_keyword_matches(title: Seq<char>, keywords: Seq<String>, k: int)
    requires
        0 <= k < keywords.len(),
        contains_seq(title, keywords[k]@),
    ensures
        has_keyword(title, keywords),
{
}

/// Adding a keyword: the title matches the longer list exactly when it
/// matched the shorter one or the added keyword occurs in it.
pub proof fn lemma_has_keyword_push(title: Seq<char>, keywords: Seq<String>, k: String)
    ensures
        has_keyword(title, keywords.push(k)) == (has_keyword(title, keywords) || contains_seq(
            title,
            k@,
        )),
{
    let longer = keywords.push(k);
    if has_keyword(title, keywords) {
        let j = choose|j: int| 0 <= j < keywords.len() && contains_seq(title, #[trigger] keywords[j]@);
        assert(longer[j] == keywords[j]);
    }
    if contains_seq(title, k@) {
        assert(longer[keywords.len() as int] == k);
    }
    if has_keyword(title, longer) {
        let j = choose|j: int| 0 <= j < longer.len() && contains_seq(title, #[trigger] longer[j]@);
        if j < keywords.len() {
            assert(longer[j] == keywords[j]);
        }
    }
}

/// No Quartz window answers to an empty keyword list.
pub proof fn lemma_quartz_matches_empty(owner: Seq<char>, name: Seq<char>)
    ensures
        !quartz_matches(owner, name, Seq::<String>::empty()),
{
}

/// Adding a keyword: a Quartz window answers to the longer list exactly when
/// it answered to the shorter one, or the added keyword occurs in its
/// non-empty name or in its owner's name.
pub proof fn lemma_quartz_matches_push(
    owner: Seq<char>,
    name: Seq<char>,
    keywords: Seq<String>,
    k: String,
)
    ensures
        quartz_matches(owner, name, keywords.push(k)) == (quartz_matches(owner, name, keywords) || (
        name.len() > 0 && contains_seq(name, k@)) || contains_seq(owner, k@)),
{
    let longer = keywords.push(k);
    if quartz_matches(owner, name, keywords) {
        let j = choose|j: int|
            0 <= j < keywords.len() && quartz_hit(owner, name, #[trigger] keywords[j]@);
        assert(longer[j] == keywords[j]);
    }
    if (name.len() > 0 && contains_seq(name, k@)) || contains_seq(owner, k@) {
        assert(longer[keywords.len() as int] == k);
        assert(quartz_hit(owner, name, longer[keywords.len() as int]@));
    }
    if quartz_matches(owner, name, longer) {
        let j = choose|j: int| 0 <= j < longer.len() && quartz_hit(owner, name, #[trigger] longer[j]@);
        if j < keywords.len() {
            assert(longer[j] == keywords[j]);
        }
    }
}

/// A Win32 window is followed exactly when it is visible, has a non-empty
/// title in which some keyword occurs, and its edges could be read.
pub proof fn lemma_win32_target_conditions(w: Win32Window, keywords: Seq<String>)
    ensures
        is_win32_target(w, keywords) == (w.visible && w.title@.len() > 0 && (exists|k: int|
            0 <= k < keywords.len() && contains_seq(w.title@, #[trigger] keywords[k]@))
            && w.bounds is Some),
{
}

/// A Quartz window is followed exactly when some keyword occurs in its
/// non-empty name or its owner's name (a missing name counting as empty) and
/// its bounds are known and at least 100 by 100.
pub proof fn lemma_quartz_target_conditions(w: QuartzWindow, keywords: Seq<String>)
    ensures
        is_quartz_target(w, keywords) == ((exists|k: int|
            0 <= k < keywords.len() && ({
                let owner = match w.owner {
                    Some(o) => o@,
                    None => Seq::<char>::empty(),
                };
                let name = match w.name {
                    Some(n) => n@,
                    None => Seq::<char>::empty(),
                };
                (name.len() > 0 && contains_seq(name, #[trigger] keywords[k]@)) || contains_seq(
                    owner,
                    keywords[k]@,
                )
            })) && w.bounds is Some && w.bounds->0.width >= 100 && w.bounds->0.height >= 100),
{
}

/// A Quartz window's title is "owner - name", or the owner alone when the
/// name is empty.
pub proof fn lemma_quartz_title_shape(owner: Seq<char>, name: Seq<char>)
    ensures
        name.len() > 0 ==> quartz_title(owner, name) == owner + " - "@ + name,
        name.len() == 0 ==> quartz_title(owner, name) == owner,
{
}

/// The rectangle of a window keeps its edges: it starts at the left and top
/// edges and reaches exactly to the right and bottom edges.
pub proof fn lemma_rect_keeps_edges(b: WindowBounds)
    requires
        b.size_fits(),
    ensures
        b.spec_rect().x == b.left,
        b.spec_rect().y == b.top,
        b.spec_rect().x + b.spec_rect().width == b.right,
        b.spec_rect().y + b.spec_rect().height == b.bottom,
{
}

/// Edges whose distance is no `i32` have no rectangle.
pub proof fn lemma_size_fits_conditions(b: WindowBounds)
    ensures
        b.size_fits() == (i32::MIN <= b.right - b.left <= i32::MAX && i32::MIN <= b.bottom - b.top
            <= i32::MAX),
{
}

/// A missing name counts as empty text; a present one as its own text.
pub proof fn lemma_text_or_empty(s: String)
    ensures
        text_or_empty(Some(s)) == s@,
        text_or_empty(None) == Seq::<char>::empty(),
{
}

} // verus!
