//! Which of the matches KWin's window runner returns are windows of the user.

use vstd::prelude::*;

use crate::text::{blank, contains, contains_seq, is_blank, occurs_at, str_chars, white_space};

verus! {

/// A window as the window runner reports it. `relevance_bits` holds the bit
/// pattern of the match's relevance.
#[derive(Debug)]
pub struct WindowInfo {
    pub id: String,
    pub title: String,
    pub app_id: String,
    pub category: i32,
    pub relevance_bits: u64,
}

/// The category of an exact, primary match.
pub const PRIMARY_MATCH_CATEGORY: i32 = 100;

/// A match is a window of the user when its title is not blank, it is not the
/// Wayland-to-X11 bridge (`xwaylandvideobridge`, neither by application nor
/// in its title), and it is an exact primary match (category 100), which
/// leaves out duplicates.
pub open spec fn is_user_window(title: Seq<char>, app_id: Seq<char>, category: i32) -> bool {
    &&& !is_blank(title)
    &&& app_id != "xwaylandvideobridge"@
    &&& !contains_seq(title, "xwaylandvideobridge"@)
    &&& category == PRIMARY_MATCH_CATEGORY
}

/// Which matches are windows of the user: none outside the primary category
/// (100), none with an empty title or one made of spaces, none of the
/// Wayland-to-X11 bridge, whether by application or by a title that names
/// it; and every primary match of another application whose title is too
/// short to name the bridge and holds a letter.
pub proof fn lemma_user_window_rules(
    title: Seq<char>,
    app_id: Seq<char>,
    category: i32,
    before: Seq<char>,
    after: Seq<char>,
)
    ensures
        category != 100 ==> !is_user_window(title, app_id, category),
        title.len() == 0 ==> !is_user_window(title, app_id, category),
        (forall|i: int| 0 <= i < title.len() ==> title[i] == ' ') ==> !is_user_window(
            title,
            app_id,
            category,
        ),
        app_id == "xwaylandvideobridge"@ ==> !is_user_window(title, app_id, category),
        !is_user_window(before + "xwaylandvideobridge"@ + after, app_id, category),
        category == 100 && app_id != "xwaylandvideobridge"@ && title.len() < 19 && (exists|i: int|
            0 <= i < title.len() && 'a' <= #[trigger] title[i] <= 'z') ==> is_user_window(
            title,
            app_id,
            category,
        ),
{
    reveal_strlit("xwaylandvideobridge");
    let bridge = "xwaylandvideobridge"@;
    let t = before + bridge + after;
    assert(t.subrange(before.len() as int, (before.len() + bridge.len()) as int) =~= bridge);
    assert(occurs_at(t, bridge, before.len() as int));
    if category == 100 && app_id != bridge && title.len() < 19 && (exists|i: int|
        0 <= i < title.len() && 'a' <= #[trigger] title[i] <= 'z') {
        let i = choose|i: int| 0 <= i < title.len() && 'a' <= #[trigger] title[i] <= 'z';
        assert(!white_space(title[i]));
        assert(!is_blank(title));
        assert forall|j: int| !occurs_at(title, bridge, j) by {}
    }
}

impl WindowInfo {
    /// Whether this match is a window of the user.
    pub fn is_user_window(&self) -> (r: bool)
        ensures r == is_user_window(self.title@, self.app_id@, self.category),
    {
        let title = str_chars(self.title.as_str());
        if blank(&title) {
            return false;
        }
        let bridge: String = "xwaylandvideobridge".to_owned();
        if self.app_id == bridge {
            return false;
        }
        let bridge_chars = str_chars("xwaylandvideobridge");
        if contains(&title, &bridge_chars) {
            return false;
        }
        self.category == PRIMARY_MATCH_CATEGORY
    }
}

/// The positions of the windows of the user among `windows`, in order.
pub fn active_window_indices(windows: &Vec<WindowInfo>) -> (r: Vec<usize>)
    ensures
        forall|a: int, b: int| 0 <= a < b < r@.len() ==> r@[a] < r@[b],
        forall|k: int|
            0 <= k < r@.len() ==> #[trigger] r@[k] < windows@.len() && is_user_window(
                windows@[r@[k] as int].title@,
                windows@[r@[k] as int].app_id@,
                windows@[r@[k] as int].category,
            ),
        forall|i: int|
            0 <= i < windows@.len() && is_user_window(
                #[trigger] windows@[i].title@,
                windows@[i].app_id@,
                windows@[i].category,
            ) ==> r@.contains(i as usize),
{
    let mut r: Vec<usize> = Vec::new();
    let n = windows.len();
    let mut i: usize = 0;
    while i < n
        invariant
            n == windows@.len(),
            i <= n,
            forall|a: int, b: int| 0 <= a < b < r@.len() ==> r@[a] < r@[b],
            forall|k: int| 0 <= k < r@.len() ==> #[trigger] r@[k] < i,
            forall|k: int|
                0 <= k < r@.len() ==> is_user_window(
                    windows@[#[trigger] r@[k] as int].title@,
                    windows@[r@[k] as int].app_id@,
                    windows@[r@[k] as int].category,
                ),
            forall|j: int|
                0 <= j < i && is_user_window(
                    #[trigger] windows@[j].title@,
                    windows@[j].app_id@,
                    windows@[j].category,
                ) ==> r@.contains(j as usize),
        decreases n - i,
    {
        if windows[i].is_user_window() {
            let ghost before = r@;
            r.push(i);
            assert(r@[r@.len() - 1] == i);
            assert forall|j: int|
                0 <= j < i + 1 && is_user_window(
                    #[trigger] windows@[j].title@,
                    windows@[j].app_id@,
                    windows@[j].category,
                ) implies r@.contains(j as usize) by {
                if j < i {
                    let k = choose|k: int| 0 <= k < before.len() && before[k] == j as usize;
                    assert(r@[k] == j as usize);
                }
            }
        }
        i = i + 1;
    }
    r
}

} // verus!
