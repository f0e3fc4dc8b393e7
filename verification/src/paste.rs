//! Preparing a paste into the target application: finding its owner,
//! choosing the window to bring to the front, and the activation script.
use vstd::prelude::*;
use vstd::string::*;

use crate::target::quartz_matches;
use crate::target::quartz_names_match;
use crate::target::string_or_empty;
use crate::target::text_or_empty;
use crate::target::QuartzWindow;
use crate::target::Win32Window;
use crate::text::contains;
use crate::text::contains_seq;
use crate::text::escape_quotes;
use crate::text::escape_quotes_seq;
use crate::text::lowercase;
use crate::text::to_lowercase;

verus! {

/// The error when no keyword is given.
pub open spec fn no_keywords_message() -> Seq<char> {
    "未提供目标窗口关键词"@
}

/// The error when no window answers to the keywords.
pub open spec fn not_found_message() -> Seq<char> {
    "未找到目标窗口，请先打开闲鱼/闲管家"@
}

/// The error when no window can be brought to the front.
pub open spec fn cannot_activate_message() -> Seq<char> {
    "无法激活目标窗口"@
}

/// Refuses an empty keyword list.
pub fn check_paste_keywords(keywords: &[String]) -> (r: Result<(), String>)
    ensures
        r is Ok <==> keywords@.len() > 0,
        r matches Err(e) ==> e@ == no_keywords_message(),
{
    if keywords.len() == 0 {
        Err(String::from_str("未提供目标窗口关键词"))
    } else {
        Ok(())
    }
}

/// A Quartz window whose owner answers to the paste keywords: it has an
/// owner, and a keyword occurs in its name (when not empty) or its owner's.
pub open spec fn is_quartz_owner(w: QuartzWindow, keywords: Seq<String>) -> bool {
    &&& w.owner is Some
    &&& quartz_matches(w.owner->0@, text_or_empty(w.name), keywords)
}

/// The owner of the first Quartz window that answers to `keywords`.
pub fn find_owner_quartz(windows: &[QuartzWindow], keywords: &[String]) -> (r: Result<
    String,
    String,
>)
    ensures
        match r {
            Ok(owner) => exists|i: int|
                {
                    &&& 0 <= i < windows@.len()
                    &&& #[trigger] is_quartz_owner(windows@[i], keywords@)
                    &&& forall|j: int|
                        0 <= j < i ==> !is_quartz_owner(#[trigger] windows@[j], keywords@)
                    &&& owner@ == windows@[i].owner->0@
                },
            Err(e) => {
                &&& forall|j: int|
                    0 <= j < windows@.len() ==> !is_quartz_owner(#[trigger] windows@[j], keywords@)
                &&& e@ == not_found_message()
            },
        },
{
    let n = windows.len();
    for i in 0..n
        invariant
            n == windows@.len(),
            forall|j: int| 0 <= j < i ==> !is_quartz_owner(#[trigger] windows@[j], keywords@),
    {
        let w = &windows[i];
        match &w.owner {
            Some(owner) => {
                let name = string_or_empty(&w.name);
                if quartz_names_match(owner.as_str(), name.as_str(), keywords) {
                    assert(is_quartz_owner(windows@[i as int], keywords@));
                    return Ok(owner.clone());
                }
            },
            None => {},
        }
    }
    Err(String::from_str("未找到目标窗口，请先打开闲鱼/闲管家"))
}

/// One of `keywords`, lowercased, occurs in the lowercased `title`.
pub open spec fn has_keyword_ignoring_case(title: Seq<char>, keywords: Seq<String>) -> bool {
    exists|k: int|
        0 <= k < keywords.len() && contains_seq(lowercase(title), lowercase(#[trigger] keywords[k]@))
}

/// A Win32 window whose title answers to the paste keywords, ignoring case.
pub open spec fn is_win32_owner(w: Win32Window, keywords: Seq<String>) -> bool {
    &&& w.visible
    &&& w.title@.len() > 0
    &&& has_keyword_ignoring_case(w.title@, keywords)
}

/// Whether one of `keywords` occurs in `title`, ignoring case.
pub fn title_has_keyword_ignoring_case(title: &str, keywords: &[String]) -> (r: bool)
    ensures
        r == has_keyword_ignoring_case(title@, keywords@),
{
    let lower = to_lowercase(title);
    let n = keywords.len();
    for k in 0..n
        invariant
            n == keywords@.len(),
            lower@ == lowercase(title@),
            forall|j: int|
                0 <= j < k ==> !contains_seq(lowercase(title@), lowercase(#[trigger] keywords@[j]@)),
    {
        let kw = to_lowercase(keywords[k].as_str());
        if contains(lower.as_str(), kw.as_str()) {
            return true;
        }
    }
    false
}

/// The lowercased title of the first Win32 window that answers to
/// `keywords`, ignoring case.
pub fn find_owner_win32(windows: &[Win32Window], keywords: &[String]) -> (r: Result<
    String,
    String,
>)
    ensures
        match r {
            Ok(title) => exists|i: int|
                {
                    &&& 0 <= i < windows@.len()
                    &&& #[trigger] is_win32_owner(windows@[i], keywords@)
                    &&& forall|j: int|
                        0 <= j < i ==> !is_win32_owner(#[trigger] windows@[j], keywords@)
                    &&& title@ == lowercase(windows@[i].title@)
                },
            Err(e) => {
                &&& forall|j: int|
                    0 <= j < windows@.len() ==> !is_win32_owner(#[trigger] windows@[j], keywords@)
                &&& e@ == not_found_message()
            },
        },
{
    let n = windows.len();
    for i in 0..n
        invariant
            n == windows@.len(),
            forall|j: int| 0 <= j < i ==> !is_win32_owner(#[trigger] windows@[j], keywords@),
    {
        let w = &windows[i];
        if w.visible && !w.title.as_str().is_empty() && title_has_keyword_ignoring_case(
            w.title.as_str(),
            keywords,
        ) {
            assert(is_win32_owner(windows@[i as int], keywords@));
            return Ok(to_lowercase(w.title.as_str()));
        }
    }
    Err(String::from_str("未找到目标窗口，请先打开闲鱼/闲管家"))
}

/// A Win32 window that activation brings to the front: visible, titled, and
/// with `owner` in its title, ignoring case.
pub open spec fn is_window_to_activate(w: Win32Window, owner: Seq<char>) -> bool {
    &&& w.visible
    &&& w.title@.len() > 0
    &&& contains_seq(lowercase(w.title@), lowercase(owner))
}

/// The index of the first Win32 window that activation for `owner` brings
/// to the front.
pub fn find_window_to_activate(windows: &[Win32Window], owner: &str) -> (r: Result<usize, String>)
    ensures
        match r {
            Ok(i) => {
                &&& i < windows@.len()
                &&& is_window_to_activate(windows@[i as int], owner@)
                &&& forall|j: int|
                    0 <= j < i ==> !is_window_to_activate(#[trigger] windows@[j], owner@)
            },
            Err(e) => {
                &&& forall|j: int|
                    0 <= j < windows@.len() ==> !is_window_to_activate(
                        #[trigger] windows@[j],
                        owner@,
                    )
                &&& e@ == cannot_activate_message()
            },
        },
{
    let keyword = to_lowercase(owner);
    let n = windows.len();
    for i in 0..n
        invariant
            n == windows@.len(),
            keyword@ == lowercase(owner@),
            forall|j: int| 0 <= j < i ==> !is_window_to_activate(#[trigger] windows@[j], owner@),
    {
        let w = &windows[i];
        if w.visible && !w.title.as_str().is_empty() {
            let title = to_lowercase(w.title.as_str());
            if contains(title.as_str(), keyword.as_str()) {
                return Ok(i);
            }
        }
    }
    Err(String::from_str("无法激活目标窗口"))
}

/// The AppleScript that brings the process named `owner` to the front.
pub open spec fn activation_script_seq(owner: Seq<char>) -> Seq<char> {
    "tell application \"System Events\"\n    set targetProc to first process whose name is \""@
        + escape_quotes_seq(owner) + "\"\n    set frontmost of targetProc to true\nend tell"@
}

/// The AppleScript that brings the process named `owner` to the front, with
/// the double quotes in the name escaped.
pub fn activation_script(owner: &str) -> (r: String)
    ensures
        r@ == activation_script_seq(owner@),
{
    let mut script = String::from_str(
        "tell application \"System Events\"\n    set targetProc to first process whose name is \"",
    );
    let escaped = escape_quotes(owner);
    script.append(escaped.as_str());
    script.append("\"\n    set frontmost of targetProc to true\nend tell");
    script
}

/// No title answers to an empty keyword list.
pub proof fn lemma_ignoring_case_empty(title: Seq<char>)
    ensures
        !has_keyword_ignoring_case(title, Seq::<String>::empty()),
{
}

/// A title answers to the keywords, ignoring case, as soon as any one
/// keyword, at any position in the list, occurs in it once both are
/// lowercased.
pub proof fn lemma_ignoring_case_any_keyword(title: Seq<char>, keywords: Seq<String>, k: int)
    requires
        0 <= k < keywords.len(),
        contains_seq(lowercase(title), lowercase(keywords[k]@)),
    ensures
        has_keyword_ignoring_case(title, keywords),
{
}

/// Adding a keyword: the title answers to the longer list exactly when it
/// answered to the shorter one or the added keyword, lowercased, occurs in
/// the lowercased title.
pub proof fn lemma_ignoring_case_push(title: Seq<char>, keywords: Seq<String>, k: String)
    ensures
        has_keyword_ignoring_case(title, keywords.push(k)) == (has_keyword_ignoring_case(
            title,
            keywords,
        ) || contains_seq(lowercase(title), lowercase(k@))),
{
    let longer = keywords.push(k);
    if has_keyword_ignoring_case(title, keywords) {
        let j = choose|j: int|
            0 <= j < keywords.len() && contains_seq(
                lowercase(title),
                lowercase(#[trigger] keywords[j]@),
            );
        assert(longer[j] == keywords[j]);
    }
    if contains_seq(lowercase(title), lowercase(k@)) {
        assert(longer[keywords.len() as int] == k);
    }
    if has_keyword_ignoring_case(title, longer) {
        let j = choose|j: int|
            0 <= j < longer.len() && contains_seq(lowercase(title), lowercase(#[trigger] longer[j]@));
        if j < keywords.len() {
            assert(longer[j] == keywords[j]);
        }
    }
}

/// A Win32 window's title is the paste owner exactly when the window is
/// visible, titled, and some keyword, lowercased, occurs in its lowercased
/// title.
pub proof fn lemma_win32_owner_conditions(w: Win32Window, keywords: Seq<String>)
    ensures
        is_win32_owner(w, keywords) == (w.visible && w.title@.len() > 0 && exists|k: int|
            0 <= k < keywords.len() && contains_seq(
                lowercase(w.title@),
                lowercase(#[trigger] keywords[k]@),
            )),
{
}

/// A Quartz window gives the paste owner exactly when it has an owner and
/// some keyword occurs in its non-empty name or in its owner's name.
pub proof fn lemma_quartz_owner_conditions(w: QuartzWindow, keywords: Seq<String>)
    ensures
        is_quartz_owner(w, keywords) == (w.owner is Some && exists|k: int|
            0 <= k < keywords.len() && ({
                let name = match w.name {
                    Some(n) => n@,
                    None => Seq::<char>::empty(),
                };
                (name.len() > 0 && contains_seq(name, #[trigger] keywords[k]@)) || contains_seq(
                    w.owner->0@,
                    keywords[k]@,
                )
            })),
{
}

/// The window brought to the front is visible, titled, and has the owner in
/// its title, ignoring case; a window whose title does not hold the whole
/// owner (say, only a piece of it) is never chosen.
pub proof fn lemma_activation_conditions(w: Win32Window, owner: Seq<char>)
    ensures
        is_window_to_activate(w, owner) == (w.visible && w.title@.len() > 0 && contains_seq(
            lowercase(w.title@),
            lowercase(owner),
        )),
{
}

/// The activation script names the owner between double quotes, with its
/// own quotes escaped, and is otherwise fixed text.
pub proof fn lemma_activation_script_shape(owner: Seq<char>)
    ensures
        activation_script_seq(owner)
            == "tell application \"System Events\"\n    set targetProc to first process whose name is \""@
            + escape_quotes_seq(owner) + "\"\n    set frontmost of targetProc to true\nend tell"@,
{
}

/// The error messages are the fixed texts shown to the user.
pub proof fn lemma_messages()
    ensures
        no_keywords_message() == "未提供目标窗口关键词"@,
        not_found_message() == "未找到目标窗口，请先打开闲鱼/闲管家"@,
        cannot_activate_message() == "无法激活目标窗口"@,
{
}

} // verus!
