//! Looking for a file in a list of places, one after the other.
//!
//! The disk is looked at from outside. A search gets the answers that are known so
//! far and says what to do next: look at one more place, or stop.

use crate::layout::{Environment, Location, LocationSpec, Platform};
use crate::places::{
    all_wf, bundled_r_candidates, bundled_r_places, rscript_candidates, rscript_places, spots,
};
use vstd::prelude::*;

verus! {

/// What a search does next.
#[derive(Debug, PartialEq, Eq)]
pub enum Probe {
    /// Find out whether there is a file in this place.
    Look(Location),
    /// The search is over: this is the place.
    Found(Location),
    /// The search is over: there is a file in none of the places.
    Missing,
}

/// What a search does next, in mathematical terms.
#[verifier::ext_equal]
pub enum ProbeSpec {
    Look(LocationSpec),
    Found(LocationSpec),
    Missing,
}

impl View for Probe {
    type V = ProbeSpec;

    open spec fn view(&self) -> ProbeSpec {
        match self {
            Probe::Look(place) => ProbeSpec::Look(place@),
            Probe::Found(place) => ProbeSpec::Found(place@),
            Probe::Missing => ProbeSpec::Missing,
        }
    }
}

impl ProbeSpec {
    /// The place of a step, if it has one, is well formed.
    pub open spec fn wf(self) -> bool {
        match self {
            ProbeSpec::Look(place) => place.wf(),
            ProbeSpec::Found(place) => place.wf(),
            ProbeSpec::Missing => true,
        }
    }
}

/// The places are looked at in order, up to the first that holds a file. The
/// answers are those for the first places, in the same order.
pub open spec fn probe(places: Seq<LocationSpec>, answers: Seq<bool>) -> ProbeSpec
    decreases places.len(),
{
    if places.len() == 0 {
        ProbeSpec::Missing
    } else if answers.len() == 0 {
        ProbeSpec::Look(places[0])
    } else if answers[0] {
        ProbeSpec::Found(places[0])
    } else {
        probe(places.drop_first(), answers.drop_first())
    }
}

/// Decides what to do next in a search through `places`, given the answers for the
/// first of them.
pub fn next_probe(places: &Vec<Location>, answers: &Vec<bool>) -> (next: Probe)
    ensures
        next@ == probe(spots(places@), answers@),
        all_wf(spots(places@)) ==> next@.wf(),
{
    let mut i: usize = 0;
    let ghost all = spots(places@);
    proof {
        assert(all.skip(0) =~= all);
        assert(answers@.skip(0) =~= answers@);
    }
    while i < places.len() && i < answers.len()
        invariant
            all == spots(places@),
            i <= places@.len(),
            i <= answers@.len(),
            probe(all, answers@) == probe(all.skip(i as int), answers@.skip(i as int)),
        decreases places@.len() - i,
    {
        if answers[i] {
            return Probe::Found(places[i].duplicate());
        }
        proof {
            assert(all.skip(i as int).drop_first() =~= all.skip(i + 1));
            assert(answers@.skip(i as int).drop_first() =~= answers@.skip(i + 1));
        }
        i = i + 1;
    }
    if i < places.len() {
        Probe::Look(places[i].duplicate())
    } else {
        Probe::Missing
    }
}

/// Looks for the R launcher inside an installed runtime.
pub fn bundled_r(platform: Platform, prefix: &Location, answers: &Vec<bool>) -> (next: Probe)
    ensures
        next@ == probe(bundled_r_places(platform, prefix@), answers@),
        prefix@.wf() ==> next@.wf(),
{
    next_probe(&bundled_r_candidates(platform, prefix), answers)
}

/// Looks for the R launcher.
pub fn rscript_path(platform: Platform, env: Environment, answers: &Vec<bool>) -> (next: Probe)
    ensures
        next@ == probe(rscript_places(platform, env), answers@),
        next@.wf(),
{
    next_probe(&rscript_candidates(platform, env), answers)
}

/// The first answers of a disk on which `holds` says where the files are.
pub open spec fn answers_of(
    places: Seq<LocationSpec>,
    holds: spec_fn(LocationSpec) -> bool,
    count: nat,
) -> Seq<bool> {
    Seq::new(count, |i: int| holds(places[i]))
}

/// A search that is asked again with one more answer each time, for as long as it
/// says to look, ends with the first place that holds a file, and says that there
/// is none only where none of the places does.
pub proof fn search_finds_the_first_file(
    places: Seq<LocationSpec>,
    holds: spec_fn(LocationSpec) -> bool,
    count: nat,
)
    requires
        count <= places.len(),
    ensures
        match probe(places, answers_of(places, holds, count)) {
            ProbeSpec::Look(place) => {
                &&& count < places.len()
                &&& place == places[count as int]
                &&& forall|i: int| 0 <= i < count ==> !holds(#[trigger] places[i])
            },
            ProbeSpec::Found(place) => exists|k: int|
                {
                    &&& 0 <= k < count
                    &&& place == #[trigger] places[k]
                    &&& holds(place)
                    &&& forall|i: int| 0 <= i < k ==> !holds(#[trigger] places[i])
                },
            ProbeSpec::Missing => {
                &&& count == places.len()
                &&& forall|i: int| 0 <= i < places.len() ==> !holds(#[trigger] places[i])
            },
        },
    decreases places.len(),
{
    let answers = answers_of(places, holds, count);
    if places.len() > 0 && count > 0 && !answers[0] {
        let rest = places.drop_first();
        let fewer = (count - 1) as nat;
        assert(!holds(places[0]));
        assert(answers.drop_first() =~= answers_of(rest, holds, fewer));
        search_finds_the_first_file(rest, holds, fewer);
        assert forall|i: int| 0 < i < places.len() implies #[trigger] places[i] == rest[i - 1] by {}
        match probe(rest, answers_of(rest, holds, fewer)) {
            ProbeSpec::Found(place) => {
                let k = choose|k: int|
                    {
                        &&& 0 <= k < fewer
                        &&& place == #[trigger] rest[k]
                        &&& holds(place)
                        &&& forall|i: int| 0 <= i < k ==> !holds(#[trigger] rest[i])
                    };
                assert(place == places[k + 1]);
            },
            _ => {},
        }
    } else if places.len() > 0 && count > 0 {
        assert(answers[0]);
        assert(places[0] == places[0]);
    }
}

/// Every search ends: after as many answers as there are places, or before.
pub proof fn search_ends(places: Seq<LocationSpec>, answers: Seq<bool>)
    requires
        answers.len() >= places.len(),
    ensures
        !(probe(places, answers) is Look),
    decreases places.len(),
{
    if places.len() > 0 && !answers[0] {
        search_ends(places.drop_first(), answers.drop_first());
    }
}

/// A search goes by position: it has found the place of the first answer that says so,
/// and as long as none does it looks at the first place without an answer, if there is
/// one. It says that there is no file only when every place was answered for.
pub proof fn search_goes_by_position(places: Seq<LocationSpec>, answers: Seq<bool>, k: int)
    requires
        0 <= k <= places.len(),
        k <= answers.len(),
        forall|i: int| 0 <= i < k ==> !#[trigger] answers[i],
    ensures
        k < places.len() && k < answers.len() && answers[k] ==> probe(places, answers)
            == ProbeSpec::Found(places[k]),
        k < places.len() && k == answers.len() ==> probe(places, answers) == ProbeSpec::Look(
            places[k],
        ),
        k == places.len() ==> probe(places, answers) == ProbeSpec::Missing,
    decreases places.len(),
{
    if k > 0 {
        let rest = places.drop_first();
        let fewer = answers.drop_first();
        assert(!answers[0]);
        assert forall|i: int| 0 <= i < k - 1 implies !#[trigger] fewer[i] by {
            assert(fewer[i] == answers[i + 1]);
        }
        search_goes_by_position(rest, fewer, k - 1);
        if k < places.len() {
            assert(rest[k - 1] == places[k]);
            if k < answers.len() {
                assert(fewer[k - 1] == answers[k]);
            }
        }
    }
}

/// An R in any place that is looked at is found when no place before it holds one.
/// `holds` says what the disk holds.
pub proof fn launcher_is_found_wherever_it_is(
    platform: Platform,
    env: Environment,
    holds: spec_fn(LocationSpec) -> bool,
    k: int,
)
    requires
        0 <= k < rscript_places(platform, env).len(),
        holds(rscript_places(platform, env)[k]),
        forall|i: int| 0 <= i < k ==> !holds(#[trigger] rscript_places(platform, env)[i]),
    ensures
        ({
            let places = rscript_places(platform, env);
            probe(places, answers_of(places, holds, places.len())) == ProbeSpec::Found(places[k])
        }),
{
    let places = rscript_places(platform, env);
    let answers = answers_of(places, holds, places.len());
    assert forall|i: int| 0 <= i < k implies !#[trigger] answers[i] by {
        assert(!holds(places[i]));
    }
    search_goes_by_position(places, answers, k);
}

} // verus!
