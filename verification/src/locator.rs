//! Finding the runtime: the candidates are asked for their version one after
//! another, and the first that answers with one is taken.

use crate::error::LaunchError;
use crate::stage::{probe_command, Command};
use crate::text::texts;
use crate::version::{parse_version, Version};
use vstd::prelude::*;

verus! {

/// What came of asking a candidate for its version.
#[derive(Debug)]
pub enum ProbeOutcome {
    /// The candidate could not be run.
    NotStarted,
    /// It ran and reported failure.
    Failed,
    /// It ran, reported success and wrote the given text.
    Output(String),
}

/// Where the search for a runtime stands. Candidates are known by their
/// place in the list.
#[derive(Clone, Copy, Debug, PartialEq, Eq, Structural)]
pub enum Search {
    /// The candidate at this place is the next to be asked.
    Probing(usize),
    /// The candidate at this place announced the given version.
    Found(usize, Version),
    /// Every candidate was asked and none announced a version.
    Exhausted,
}

impl ProbeOutcome {
    /// The version that the candidate announced, if it ran with success and
    /// its output holds one.
    pub open spec fn announced(self) -> Option<Version> {
        match self {
            ProbeOutcome::Output(text) => parse_version(text@),
            _ => None,
        }
    }

    /// The version that the candidate announced, if it ran with success and
    /// its output holds one.
    pub fn version(&self) -> (r: Option<Version>)
        ensures
            r == self.announced(),
    {
        match self {
            ProbeOutcome::Output(text) => Version::from_str(text.as_str()),
            _ => None,
        }
    }
}

/// Where a search among `count` candidates starts.
pub open spec fn search_start(count: nat) -> Search {
    if count == 0 {
        Search::Exhausted
    } else {
        Search::Probing(0)
    }
}

/// Where the search stands once the candidate being asked has answered with
/// `outcome`: a candidate that announces a version is taken, any other makes
/// way for the next one, and after the last one the search is exhausted.
/// A search that is over takes no further outcome.
pub open spec fn search_after(count: nat, search: Search, outcome: ProbeOutcome) -> Search {
    match search {
        Search::Probing(place) => match outcome.announced() {
            Some(version) => Search::Found(place, version),
            None => if place + 1 < count {
                Search::Probing((place + 1) as usize)
            } else {
                Search::Exhausted
            },
        },
        _ => search,
    }
}

/// Where a search among `count` candidates stands after the given outcomes
/// have been reported, one after another, from the start.
pub open spec fn search_through(count: nat, outcomes: Seq<ProbeOutcome>) -> Search
    decreases outcomes.len(),
{
    if outcomes.len() == 0 {
        search_start(count)
    } else {
        search_after(count, search_through(count, outcomes.drop_last()), outcomes.last())
    }
}

/// The search points into a list of `count` candidates.
pub open spec fn search_fits(search: Search, count: nat) -> bool {
    match search {
        Search::Probing(place) => place < count,
        Search::Found(place, _) => place < count,
        Search::Exhausted => true,
    }
}

impl Search {
    /// Where a search among `count` candidates starts.
    pub fn start(count: usize) -> (r: Search)
        ensures
            r == search_start(count as nat),
            search_fits(r, count as nat),
    {
        if count == 0 {
            Search::Exhausted
        } else {
            Search::Probing(0)
        }
    }

    /// Where the search stands once the candidate being asked has answered
    /// with `outcome`.
    pub fn after(self, count: usize, outcome: &ProbeOutcome) -> (r: Search)
        ensures
            r == search_after(count as nat, self, *outcome),
            search_fits(self, count as nat) ==> search_fits(r, count as nat),
    {
        match self {
            Search::Probing(place) => match outcome.version() {
                Some(version) => Search::Found(place, version),
                None => if count > 0 && place < count - 1 {
                    Search::Probing(place + 1)
                } else {
                    Search::Exhausted
                },
            },
            _ => self,
        }
    }
}

/// The search for a runtime among an ordered list of candidates. The caller
/// runs the command that `pending` hands out and reports what came of it
/// with `record`, until `pending` has nothing more to ask.
pub struct RuntimeLocator {
    candidates: Vec<String>,
    search: Search,
}

impl RuntimeLocator {
    #[verifier::type_invariant]
    spec fn fits(self) -> bool {
        search_fits(self.search, self.candidates@.len())
    }

    /// The names of the candidates, in the order in which they are asked.
    pub closed spec fn names(&self) -> Seq<Seq<char>> {
        texts(self.candidates@)
    }

    /// Where the search stands.
    pub closed spec fn search(&self) -> Search {
        self.search
    }

    /// A search among `candidates`, with none of them asked yet.
    pub fn new(candidates: Vec<String>) -> (r: RuntimeLocator)
        ensures
            r.names() == texts(candidates@),
            r.search() == search_start(candidates@.len()),
    {
        let search = Search::start(candidates.len());
        RuntimeLocator { candidates, search }
    }

    /// Where the search stands.
    pub fn state(&self) -> (r: Search)
        ensures
            r == self.search(),
            search_fits(r, self.names().len()),
    {
        proof {
            use_type_invariant(self);
        }
        self.search
    }

    /// The command that asks the next candidate for its version; nothing
    /// once a runtime is found or the candidates are exhausted.
    pub fn pending(&self) -> (r: Option<Command>)
        ensures
            (match self.search() {
                Search::Probing(place) => ({
                    &&& place < self.names().len()
                    &&& r matches Some(command)
                    &&& command@ == probe_command(self.names()[place as int])
                }),
                _ => r is None,
            }),
    {
        proof {
            use_type_invariant(self);
        }
        match self.search {
            Search::Probing(place) => Some(Command::probe(self.candidates[place].as_str())),
            _ => None,
        }
    }

    /// Takes note of what came of asking the pending candidate.
    pub fn record(&mut self, outcome: &ProbeOutcome)
        ensures
            final(self).names() == old(self).names(),
            final(self).search() == search_after(
                old(self).names().len(),
                old(self).search(),
                *outcome,
            ),
    {
        proof {
            use_type_invariant(&*self);
        }
        self.search = self.search.after(self.candidates.len(), outcome);
    }

    /// The result of the search: nothing while a candidate is still to be
    /// asked, then either the name and version of the runtime that was found
    /// or the one error that stands for every way of not finding any.
    pub fn verdict(&self) -> (r: Option<Result<(String, Version), LaunchError>>)
        ensures
            (match self.search() {
                Search::Probing(_) => r is None,
                Search::Found(place, version) => ({
                    &&& place < self.names().len()
                    &&& r matches Some(Ok(found))
                    &&& found.0@ == self.names()[place as int]
                    &&& found.1 == version
                }),
                Search::Exhausted => r == Some(
                    Err::<(String, Version), LaunchError>(LaunchError::RuntimeNotFound),
                ),
            }),
    {
        proof {
            use_type_invariant(self);
        }
        match self.search {
            Search::Probing(_) => None,
            Search::Found(place, version) => Some(Ok((self.candidates[place].clone(), version))),
            Search::Exhausted => Some(Err(LaunchError::RuntimeNotFound)),
        }
    }
}

/// A candidate is asked exactly when every candidate before it has been
/// asked and none of them announced a version. So no candidate is asked once
/// one has answered with a version.
pub proof fn lemma_probing_only_after_failures(
    count: nat,
    outcomes: Seq<ProbeOutcome>,
    place: usize,
)
    requires
        count <= usize::MAX,
    ensures
        search_through(count, outcomes) == Search::Probing(place) <==> ({
            &&& outcomes.len() == place
            &&& place < count
            &&& forall|j: int| 0 <= j < outcomes.len() ==> outcomes[j].announced() is None
        }),
    decreases outcomes.len(),
{
    if outcomes.len() > 0 {
        let before = outcomes.drop_last();
        let earlier = (outcomes.len() - 1) as usize;
        if outcomes.len() - 1 <= usize::MAX {
            lemma_probing_only_after_failures(count, before, earlier);
        }
        match search_through(count, before) {
            Search::Probing(at) => {
                lemma_probing_only_after_failures(count, before, at);
            },
            _ => {},
        }
        if search_through(count, outcomes) == Search::Probing(place) {
            assert forall|j: int| 0 <= j < outcomes.len() implies outcomes[j].announced()
                is None by {
                if j < before.len() {
                    assert(before[j] == outcomes[j]);
                }
            }
        }
    }
}

/// The first candidate that announces a version is the one that is found,
/// with that version, whatever is reported after it.
pub proof fn lemma_first_announcement_wins(count: nat, outcomes: Seq<ProbeOutcome>, k: int)
    requires
        count <= usize::MAX,
        0 <= k < outcomes.len(),
        k < count,
        outcomes[k].announced() is Some,
        forall|j: int| 0 <= j < k ==> outcomes[j].announced() is None,
    ensures
        search_through(count, outcomes) == Search::Found(
            k as usize,
            outcomes[k].announced().unwrap(),
        ),
    decreases outcomes.len(),
{
    let before = outcomes.drop_last();
    if k == outcomes.len() - 1 {
        lemma_probing_only_after_failures(count, before, k as usize);
    } else {
        lemma_first_announcement_wins(count, before, k);
    }
}

/// When every candidate has been asked and none announced a version, the
/// search is exhausted, and stays so.
pub proof fn lemma_exhausted_when_none_announces(count: nat, outcomes: Seq<ProbeOutcome>)
    requires
        count <= usize::MAX,
        outcomes.len() >= count,
        forall|j: int| 0 <= j < count ==> outcomes[j].announced() is None,
    ensures
        search_through(count, outcomes) == Search::Exhausted,
    decreases outcomes.len(),
{
    if outcomes.len() > 0 {
        let before = outcomes.drop_last();
        if before.len() >= count {
            lemma_exhausted_when_none_announces(count, before);
        } else {
            lemma_probing_only_after_failures(count, before, before.len() as usize);
        }
    }
}

} // verus!
