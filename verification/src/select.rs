//! Choosing the fittest organism among the dumps of several runs.
//!
//! Candidates are looked at in order. A later candidate takes the place of
//! the best one so far only where its fitness is strictly greater, so of
//! several candidates with the greatest fitness the first one wins. Dumps
//! that fail to read are passed over.

use vstd::prelude::*;
use crate::builder::parse_organism;
use crate::genome::{parse_lines, token_lines, OrganismModel, ParseError, ParsedOrganism};
use crate::number::Single;
use crate::token::Token;

verus! {

/// The position of the winner among candidates given by their fitness, `None`
/// standing for a candidate that is passed over.
pub open spec fn fittest(fitness: Seq<Option<Single>>) -> Option<int>
    decreases fitness.len(),
{
    if fitness.len() == 0 {
        None
    } else {
        let last = fitness.len() - 1;
        let best = fittest(fitness.drop_last());
        match fitness[last] {
            None => best,
            Some(f) => match best {
                None => Some(last),
                Some(b) => if fitness[b].unwrap().spec_less_than(f) {
                    Some(last)
                } else {
                    Some(b)
                },
            },
        }
    }
}

/// The token lines of each dump of a list.
pub open spec fn dump_lines(dumps: Seq<Vec<Vec<Token>>>) -> Seq<Seq<Seq<Token>>> {
    dumps.map_values(|d: Vec<Vec<Token>>| token_lines(d@))
}

/// The fitness that each dump's organism has, `None` for a dump that fails to
/// read.
pub open spec fn outcome_fitness(dumps: Seq<Seq<Seq<Token>>>) -> Seq<Option<Single>> {
    dumps.map_values(
        |d: Seq<Seq<Token>>|
            match parse_lines(d) {
                Ok(m) => Some(m.info.fitness),
                Err(_) => None,
            },
    )
}

/// The winner's position lies within the candidates and is not one that is
/// passed over; there is no winner exactly where every candidate is passed
/// over.
pub proof fn lemma_fittest_is_candidate(fitness: Seq<Option<Single>>)
    ensures
        match fittest(fitness) {
            Some(k) => 0 <= k < fitness.len() && fitness[k].is_some(),
            None => forall|j: int| 0 <= j < fitness.len() ==> fitness[j].is_none(),
        },
    decreases fitness.len(),
{
    if fitness.len() > 0 {
        let front = fitness.drop_last();
        lemma_fittest_is_candidate(front);
        assert(forall|j: int| 0 <= j < front.len() ==> front[j] == fitness[j]);
    }
}

/// Where every fitness is a number, the winner is the first of the
/// candidates with the greatest fitness: no candidate has a greater fitness,
/// and every candidate before the winner has a smaller one.
pub proof fn lemma_fittest_is_first_maximum(fitness: Seq<Option<Single>>)
    requires
        forall|j: int|
            0 <= j < fitness.len() && fitness[j].is_some() ==> !(#[trigger] fitness[j]).unwrap().is_nan(),
    ensures
        match fittest(fitness) {
            Some(k) => {
                &&& 0 <= k < fitness.len() && fitness[k].is_some()
                &&& forall|j: int|
                    0 <= j < fitness.len() && fitness[j].is_some() ==> !fitness[k].unwrap().spec_less_than(
                        (#[trigger] fitness[j]).unwrap(),
                    )
                &&& forall|j: int|
                    0 <= j < k && fitness[j].is_some() ==> (#[trigger] fitness[j]).unwrap().spec_less_than(
                        fitness[k].unwrap(),
                    )
            },
            None => forall|j: int| 0 <= j < fitness.len() ==> fitness[j].is_none(),
        },
    decreases fitness.len(),
{
    lemma_fittest_is_candidate(fitness);
    if fitness.len() > 0 {
        let front = fitness.drop_last();
        assert(forall|j: int| 0 <= j < front.len() ==> front[j] == fitness[j]);
        lemma_fittest_is_first_maximum(front);
        lemma_fittest_is_candidate(front);
    }
}

/// Picks the winner among candidates given by their fitness.
pub fn select_fittest(fitness: &Vec<Option<Single>>) -> (r: Option<usize>)
    ensures
        match r {
            Some(k) => fittest(fitness@) == Some(k as int) && k < fitness@.len()
                && fitness@[k as int].is_some(),
            None => fittest(fitness@).is_none(),
        },
        r.is_none() <==> forall|j: int| 0 <= j < fitness@.len() ==> fitness@[j].is_none(),
{
    let mut best: Option<usize> = None;
    let mut i: usize = 0;
    while i < fitness.len()
        invariant
            i <= fitness.len(),
            match best {
                Some(k) => fittest(fitness@.take(i as int)) == Some(k as int) && k < i
                    && fitness@[k as int].is_some(),
                None => fittest(fitness@.take(i as int)).is_none(),
            },
        decreases fitness.len() - i,
    {
        proof {
            assert(fitness@.take(i + 1).drop_last() == fitness@.take(i as int));
        }
        match fitness[i] {
            None => {},
            Some(f) => {
                match best {
                    None => {
                        best = Some(i);
                    },
                    Some(k) => {
                        let held = fitness[k];
                        match held {
                            Some(b) => {
                                if b.less_than(f) {
                                    best = Some(i);
                                }
                            },
                            None => {},
                        }
                    },
                }
            },
        }
        i = i + 1;
    }
    proof {
        assert(fitness@.take(i as int) == fitness@);
        lemma_fittest_is_candidate(fitness@);
    }
    best
}

/// Reads every dump and hands out the fittest of the organisms that read.
/// There is none exactly where no dump reads.
pub fn parse_fittest(dumps: &Vec<Vec<Vec<Token>>>) -> (r: Option<ParsedOrganism>)
    ensures
        match r {
            Some(o) => {
                let k = fittest(outcome_fitness(dump_lines(dumps@)));
                &&& k.is_some()
                &&& 0 <= k.unwrap() < dumps@.len()
                &&& parse_lines(dump_lines(dumps@)[k.unwrap()]) == Ok::<OrganismModel, ParseError>(o@)
                &&& o.well_formed()
            },
            None => fittest(outcome_fitness(dump_lines(dumps@))).is_none(),
        },
        r.is_none() <==> forall|j: int|
            0 <= j < dumps@.len() ==> parse_lines(#[trigger] dump_lines(dumps@)[j]).is_err(),
{
    let ghost all = dump_lines(dumps@);
    let ghost fitness = outcome_fitness(all);
    let mut best: Option<ParsedOrganism> = None;
    let mut i: usize = 0;
    while i < dumps.len()
        invariant
            i <= dumps.len(),
            all == dump_lines(dumps@),
            fitness == outcome_fitness(all),
            match fittest(fitness.take(i as int)) {
                Some(k) => {
                    &&& 0 <= k < i
                    &&& best.is_some()
                    &&& parse_lines(all[k]) == Ok::<OrganismModel, ParseError>(best.unwrap()@)
                    &&& best.unwrap().well_formed()
                },
                None => best.is_none(),
            },
        decreases dumps.len() - i,
    {
        proof {
            assert(fitness.take(i + 1).drop_last() == fitness.take(i as int));
            lemma_fittest_is_candidate(fitness.take(i as int));
        }
        match parse_organism(&dumps[i]) {
            Ok(o) => {
                let replace = match &best {
                    None => true,
                    Some(b) => b.info.fitness.less_than(o.info.fitness),
                };
                if replace {
                    best = Some(o);
                }
            },
            Err(_) => {},
        }
        i = i + 1;
    }
    proof {
        assert(fitness.take(i as int) == fitness);
        lemma_fittest_is_candidate(fitness);
        assert forall|j: int| 0 <= j < dumps@.len() implies (fitness[j].is_none() <==> parse_lines(
            #[trigger] all[j],
        ).is_err()) by {}
    }
    best
}

} // verus!
