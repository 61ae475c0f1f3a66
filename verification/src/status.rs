//! Swarm status: counting the bots that are online, finding a player's
//! UUID in the tab lists, and whether a launch may go ahead.

use vstd::prelude::*;
use crate::search::{first_in, lemma_first_in};
use crate::text::text_eq;

verus! {

/// The lower-case form of a string, as `str::to_lowercase` computes it
/// (full Unicode case mapping).
pub uninterp spec fn lowercase(s: Seq<char>) -> Seq<char>;

/// Calls `str::to_lowercase`; the contract claims only that the result is
/// `lowercase(s)`.
#[verifier::external_body]
fn to_lowercase(s: &str) -> (res: String)
    ensures
        res@ == lowercase(s@),
{
    s.to_lowercase()
}

/// A lower-cased profile status that means "online", in English or Russian.
pub open spec fn is_online_lowered(status: Seq<char>) -> bool {
    status == "online"@ || status == "онлайн"@
}

/// "online" and "онлайн" are online statuses once lower-cased, and
/// "offline" is not.
pub proof fn lemma_online_words(lowered: Seq<char>)
    ensures
        is_online_lowered("online"@),
        is_online_lowered("онлайн"@),
        !is_online_lowered("offline"@),
        is_online_lowered(lowered) ==> lowered.len() == 6,
{
    reveal_strlit("online");
    reveal_strlit("онлайн");
    reveal_strlit("offline");
    assert("offline"@.len() != "online"@.len());
    assert("offline"@[0] != "онлайн"@[0]);
}

/// A profile status means "online", whatever its case.
pub open spec fn is_online(status: Seq<char>) -> bool {
    is_online_lowered(lowercase(status))
}

/// How many of the first `n` bots have a profile whose status is online.
pub open spec fn online_count(statuses: Seq<Option<String>>, n: int) -> int
    decreases n,
{
    if n <= 0 {
        0
    } else {
        online_count(statuses, n - 1) + match statuses[n - 1] {
            Some(s) => if is_online(s@) {
                1int
            } else {
                0
            },
            None => 0,
        }
    }
}

/// The online count never exceeds the number of bots counted.
pub proof fn lemma_online_count_bounded(statuses: Seq<Option<String>>, n: int)
    requires
        0 <= n,
    ensures
        0 <= online_count(statuses, n) <= n,
    decreases n,
{
    if n > 0 {
        lemma_online_count_bounded(statuses, n - 1);
    }
}

/// One entry of a bot's tab list.
#[derive(Clone, Debug)]
pub struct TabEntry {
    pub uuid: String,
    pub name: String,
}

/// The index of the first tab entry for player `nickname`.
pub open spec fn first_entry_for(entries: Seq<TabEntry>, nickname: Seq<char>) -> Option<int> {
    first_in(0, entries.len() - 1, |i: int| entries[i].name@ == nickname)
}

/// What the launch command does.
#[derive(Clone, Copy, Debug, PartialEq, Eq, Structural)]
pub enum LaunchOutcome {
    /// There is no swarm manager: report an error.
    NoManager,
    /// Bots are already running: warn and launch nothing.
    AlreadyActive,
    /// Launch the bots.
    Launch,
}

/// Whether a lower-cased status is "online" or "онлайн".
pub fn status_is_online(lowered: &str) -> (res: bool)
    ensures
        res == is_online_lowered(lowered@),
{
    text_eq(lowered, "online") || text_eq(lowered, "онлайн")
}

/// Whether a profile status means "online", whatever its case.
pub fn is_online_status(status: &str) -> (res: bool)
    ensures
        res == is_online(status@),
{
    let lowered = to_lowercase(status);
    status_is_online(lowered.as_str())
}

/// The number of active bots: `statuses[i]` is the profile status of the
/// swarm's `i`-th bot, `None` when it has no profile; bots whose status is
/// "online" or "онлайн" in any case are counted.
pub fn get_active_bots_count(statuses: &Vec<Option<String>>) -> (res: i32)
    requires
        statuses@.len() <= i32::MAX,
    ensures
        res == online_count(statuses@, statuses@.len() as int),
        0 <= res <= statuses@.len(),
{
    let n: usize = statuses.len();
    let mut count: i32 = 0;
    let mut i: usize = 0;
    while i < n
        invariant
            n == statuses@.len(),
            n <= i32::MAX,
            i <= n,
            count == online_count(statuses@, i as int),
        decreases n - i,
    {
        proof {
            lemma_online_count_bounded(statuses@, i as int);
        }
        match &statuses[i] {
            Some(status) => {
                if is_online_status(status.as_str()) {
                    count = count + 1;
                }
            },
            None => {},
        }
        i = i + 1;
    }
    proof {
        lemma_online_count_bounded(statuses@, n as int);
    }
    count
}

/// The UUID of the first tab entry naming player `nickname`, or `None`
/// when no entry names them.
pub fn get_player_uuid(entries: &Vec<TabEntry>, nickname: &str) -> (res: Option<String>)
    ensures
        match first_entry_for(entries@, nickname@) {
            Some(i) => res is Some && res->0@ == entries@[i].uuid@,
            None => res is None,
        },
        res is None ==> forall|i: int| 0 <= i < entries@.len() ==> entries@[i].name@ != nickname@,
{
    let ghost p = |i: int| entries@[i].name@ == nickname@;
    proof {
        lemma_first_in(0, entries@.len() - 1, p);
    }
    let n: usize = entries.len();
    let mut i: usize = 0;
    while i < n
        invariant
            n == entries@.len(),
            i <= n,
            p == (|i: int| entries@[i].name@ == nickname@),
            first_entry_for(entries@, nickname@) == first_in(i as int, n - 1, p),
        decreases n - i,
    {
        if text_eq(entries[i].name.as_str(), nickname) {
            return Some(entries[i].uuid.clone());
        }
        i = i + 1;
    }
    proof {
        assert forall|j: int| 0 <= j < n implies entries@[j].name@ != nickname@ by {
            assert(!p(j));
        }
    }
    None
}

/// The launch decision: nothing without a swarm manager, a warning when
/// bots are already active, otherwise a launch.
pub fn launch_outcome(has_manager: bool, active: bool) -> (res: LaunchOutcome)
    ensures
        res == (if !has_manager {
            LaunchOutcome::NoManager
        } else if active {
            LaunchOutcome::AlreadyActive
        } else {
            LaunchOutcome::Launch
        }),
{
    if !has_manager {
        LaunchOutcome::NoManager
    } else if active {
        LaunchOutcome::AlreadyActive
    } else {
        LaunchOutcome::Launch
    }
}

} // verus!
