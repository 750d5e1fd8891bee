//! Where leaderboard entries come from: a per-category data set, the fetch
//! failure, the client interface, and a client that serves from memory.
use vstd::prelude::*;

use crate::leaderboard_entry::{LeaderboardCategory, LeaderboardEntry};

verus! {

/// The entries assigned to `category` by a list of (category, entries) pairs:
/// the last pair for the category wins, and a category without a pair has none.
pub open spec fn assigned(
    pairs: Seq<(LeaderboardCategory, Vec<LeaderboardEntry>)>,
    category: LeaderboardCategory,
) -> Seq<LeaderboardEntry>
    decreases pairs.len(),
{
    if pairs.len() == 0 {
        Seq::empty()
    } else if pairs.last().0 == category {
        pairs.last().1@
    } else {
        assigned(pairs.drop_last(), category)
    }
}

fn clone_entries(v: &Vec<LeaderboardEntry>) -> (r: Vec<LeaderboardEntry>)
    ensures
        r@ == v@,
{
    let r = v.clone();
    assert(r@ =~= v@);
    r
}

/// Entries for every category, each list in leaderboard order.
#[derive(Debug)]
pub struct LeaderboardData {
    global: Vec<LeaderboardEntry>,
    friends: Vec<LeaderboardEntry>,
    personal_best: Vec<LeaderboardEntry>,
}

impl Clone for LeaderboardData {
    fn clone(&self) -> (r: Self)
        ensures
            forall|c: LeaderboardCategory| #[trigger] r.spec_entries(c) == self.spec_entries(c),
    {
        LeaderboardData {
            global: clone_entries(&self.global),
            friends: clone_entries(&self.friends),
            personal_best: clone_entries(&self.personal_best),
        }
    }
}

impl LeaderboardData {
    /// The entries held for `category`.
    pub closed spec fn spec_entries(&self, category: LeaderboardCategory) -> Seq<LeaderboardEntry> {
        match category {
            LeaderboardCategory::Global => self.global@,
            LeaderboardCategory::Friends => self.friends@,
            LeaderboardCategory::PersonalBest => self.personal_best@,
        }
    }

    pub(crate) fn from_categories(
        global: Vec<LeaderboardEntry>,
        friends: Vec<LeaderboardEntry>,
        personal_best: Vec<LeaderboardEntry>,
    ) -> (r: Self)
        ensures
            r.spec_entries(LeaderboardCategory::Global) == global@,
            r.spec_entries(LeaderboardCategory::Friends) == friends@,
            r.spec_entries(LeaderboardCategory::PersonalBest) == personal_best@,
    {
        LeaderboardData { global, friends, personal_best }
    }

    /// Builds the data set from (category, entries) pairs; a later pair for a
    /// category replaces an earlier one.
    pub fn new(entries: Vec<(LeaderboardCategory, Vec<LeaderboardEntry>)>) -> (r: Self)
        ensures
            forall|c: LeaderboardCategory| #[trigger] r.spec_entries(c) == assigned(entries@, c),
    {
        let ghost all = entries@;
        let mut rest = entries;
        let mut global: Option<Vec<LeaderboardEntry>> = None;
        let mut friends: Option<Vec<LeaderboardEntry>> = None;
        let mut personal_best: Option<Vec<LeaderboardEntry>> = None;
        while rest.len() > 0
            invariant
                global is Some ==> global->0@ == assigned(all, LeaderboardCategory::Global),
                global is None ==> assigned(rest@, LeaderboardCategory::Global) == assigned(all, LeaderboardCategory::Global),
                friends is Some ==> friends->0@ == assigned(all, LeaderboardCategory::Friends),
                friends is None ==> assigned(rest@, LeaderboardCategory::Friends) == assigned(all, LeaderboardCategory::Friends),
                personal_best is Some ==> personal_best->0@ == assigned(all, LeaderboardCategory::PersonalBest),
                personal_best is None ==> assigned(rest@, LeaderboardCategory::PersonalBest) == assigned(all, LeaderboardCategory::PersonalBest),
            decreases rest@.len(),
        {
            let ghost before = rest@;
            let (category, list) = rest.pop().unwrap();
            proof {
                assert(before.drop_last() =~= rest@);
            }
            match category {
                LeaderboardCategory::Global => {
                    if global.is_none() {
                        global = Some(list);
                    }
                },
                LeaderboardCategory::Friends => {
                    if friends.is_none() {
                        friends = Some(list);
                    }
                },
                LeaderboardCategory::PersonalBest => {
                    if personal_best.is_none() {
                        personal_best = Some(list);
                    }
                },
            }
        }
        LeaderboardData {
            global: match global { Some(v) => v, None => Vec::new() },
            friends: match friends { Some(v) => v, None => Vec::new() },
            personal_best: match personal_best { Some(v) => v, None => Vec::new() },
        }
    }

    /// The entries for `category`; empty when the data set has none.
    pub fn entries_for(&self, category: LeaderboardCategory) -> (r: &[LeaderboardEntry])
        ensures
            r@ == self.spec_entries(category),
    {
        match category {
            LeaderboardCategory::Global => self.global.as_slice(),
            LeaderboardCategory::Friends => self.friends.as_slice(),
            LeaderboardCategory::PersonalBest => self.personal_best.as_slice(),
        }
    }
}

/// A failed fetch, with its message.
#[derive(Debug)]
pub struct LeaderboardError {
    message: String,
}

impl Clone for LeaderboardError {
    fn clone(&self) -> (r: Self)
        ensures
            r == *self,
    {
        LeaderboardError { message: self.message.clone() }
    }
}

impl LeaderboardError {
    /// The message the failure carries.
    pub closed spec fn spec_message(&self) -> Seq<char> {
        self.message@
    }

    pub fn new(message: String) -> (r: Self)
        ensures
            r.spec_message() == message@,
    {
        LeaderboardError { message }
    }

    pub fn message(&self) -> (r: &str)
        ensures
            r@ == self.spec_message(),
    {
        self.message.as_str()
    }
}

/// A fetch result with the entries seen as a sequence.
pub open spec fn fetched_view(
    r: Result<Vec<LeaderboardEntry>, LeaderboardError>,
) -> Result<Seq<LeaderboardEntry>, LeaderboardError> {
    match r {
        Ok(v) => Ok(v@),
        Err(e) => Err(e),
    }
}

/// A source of leaderboard entries, one category at a time.
pub trait LeaderboardClient {
    /// Whether `fetched` is an answer this client may give when asked for
    /// `category`. Unless a client says more, any answer may come.
    open spec fn provides(
        &self,
        category: LeaderboardCategory,
        fetched: Result<Seq<LeaderboardEntry>, LeaderboardError>,
    ) -> bool {
        true
    }

    fn fetch_category(&self, category: LeaderboardCategory) -> (r: Result<
        Vec<LeaderboardEntry>,
        LeaderboardError,
    >)
        ensures
            self.provides(category, fetched_view(r)),
    ;

    /// Fetches every category, in the order global, friends, personal best,
    /// and stops at the first failure: an error comes from a category all of
    /// whose predecessors were answered with entries.
    fn fetch_all(&self) -> (r: Result<LeaderboardData, LeaderboardError>)
        ensures
            r is Ok ==> forall|c: LeaderboardCategory|
                #[trigger] self.provides(c, Ok(r->Ok_0.spec_entries(c))),
            r is Err ==> {
                ||| self.provides(LeaderboardCategory::Global, Err(r->Err_0))
                ||| {
                    &&& exists|g: Seq<LeaderboardEntry>|
                        #[trigger] self.provides(LeaderboardCategory::Global, Ok(g))
                    &&& {
                        ||| self.provides(LeaderboardCategory::Friends, Err(r->Err_0))
                        ||| {
                            &&& exists|f: Seq<LeaderboardEntry>|
                                #[trigger] self.provides(LeaderboardCategory::Friends, Ok(f))
                            &&& self.provides(LeaderboardCategory::PersonalBest, Err(r->Err_0))
                        }
                    }
                }
            },
    {
        let global = match self.fetch_category(LeaderboardCategory::Global) {
            Ok(v) => v,
            Err(e) => return Err(e),
        };
        assert(self.provides(LeaderboardCategory::Global, Ok(global@)));
        let friends = match self.fetch_category(LeaderboardCategory::Friends) {
            Ok(v) => v,
            Err(e) => return Err(e),
        };
        assert(self.provides(LeaderboardCategory::Friends, Ok(friends@)));
        let personal_best = match self.fetch_category(LeaderboardCategory::PersonalBest) {
            Ok(v) => v,
            Err(e) => return Err(e),
        };
        let data = LeaderboardData::from_categories(global, friends, personal_best);
        assert forall|c: LeaderboardCategory| #[trigger] self.provides(c, Ok(data.spec_entries(c))) by {
            match c {
                LeaderboardCategory::Global => {},
                LeaderboardCategory::Friends => {},
                LeaderboardCategory::PersonalBest => {},
            }
        }
        Ok(data)
    }
}

/// A client that answers from a data set held in memory; it never fails.
pub struct InMemoryLeaderboardClient {
    data: LeaderboardData,
}

impl InMemoryLeaderboardClient {
    /// The data set served.
    pub closed spec fn spec_data(&self) -> LeaderboardData {
        self.data
    }

    pub fn new(data: LeaderboardData) -> (r: Self)
        ensures
            r.spec_data() == data,
    {
        InMemoryLeaderboardClient { data }
    }
}

impl LeaderboardClient for InMemoryLeaderboardClient {
    open spec fn provides(
        &self,
        category: LeaderboardCategory,
        fetched: Result<Seq<LeaderboardEntry>, LeaderboardError>,
    ) -> bool {
        fetched == Ok::<Seq<LeaderboardEntry>, LeaderboardError>(
            self.spec_data().spec_entries(category),
        )
    }

    fn fetch_category(&self, category: LeaderboardCategory) -> (r: Result<
        Vec<LeaderboardEntry>,
        LeaderboardError,
    >) {
        let entries = match category {
            LeaderboardCategory::Global => clone_entries(&self.data.global),
            LeaderboardCategory::Friends => clone_entries(&self.data.friends),
            LeaderboardCategory::PersonalBest => clone_entries(&self.data.personal_best),
        };
        Ok(entries)
    }
}

} // verus!
