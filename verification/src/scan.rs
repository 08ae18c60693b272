//! Gathering the candidate dumps of all runs.
//!
//! Under the root directory every run has a directory of its own, and every
//! file directly in a run's directory is a candidate. Listing directories is
//! left to the caller; what was listed comes in as plain values. A root that
//! does not exist has no candidates, and a run whose directory cannot be
//! listed adds none.

use vstd::prelude::*;
use crate::words::texts;

verus! {

/// The name of the root directory where none is given.
pub open spec fn default_root() -> Seq<char> {
    "experiments"@
}

/// The name of the root directory where none is given.
pub fn default_root_name() -> (r: &'static str)
    ensures
        r@ == default_root(),
{
    "experiments"
}

/// The files of all runs, run after run; `None` stands for a run whose
/// directory could not be listed.
pub open spec fn joined(runs: Seq<Option<Vec<String>>>) -> Seq<Seq<char>>
    decreases runs.len(),
{
    if runs.len() == 0 {
        Seq::empty()
    } else {
        let front = joined(runs.drop_last());
        match runs.last() {
            Some(files) => front + texts(files@),
            None => front,
        }
    }
}

/// The candidates under a root; `None` stands for a root that does not
/// exist.
pub open spec fn candidates(root: Option<Vec<Option<Vec<String>>>>) -> Seq<Seq<char>> {
    match root {
        Some(runs) => joined(runs@),
        None => Seq::empty(),
    }
}

/// Gathers the candidate files from the listings of the root's runs.
pub fn candidate_files(root: &Option<Vec<Option<Vec<String>>>>) -> (out: Vec<String>)
    ensures
        texts(out@) == candidates(*root),
{
    let mut out: Vec<String> = Vec::new();
    match root {
        None => {},
        Some(runs) => {
            let mut i: usize = 0;
            while i < runs.len()
                invariant
                    i <= runs.len(),
                    texts(out@) == joined(runs@.take(i as int)),
                decreases runs.len() - i,
            {
                proof {
                    assert(runs@.take(i + 1).drop_last() == runs@.take(i as int));
                }
                match &runs[i] {
                    None => {},
                    Some(files) => {
                        let ghost before = texts(out@);
                        let mut j: usize = 0;
                        while j < files.len()
                            invariant
                                j <= files.len(),
                                texts(out@) == before + texts(files@).take(j as int),
                            decreases files.len() - j,
                        {
                            let ghost so_far = texts(out@);
                            let file = files[j].clone();
                            out.push(file);
                            proof {
                                assert(texts(out@) =~= so_far.push(files@[j as int]@));
                            }
                            j = j + 1;
                        }
                    },
                }
                i = i + 1;
            }
            proof {
                assert(runs@.take(i as int) == runs@);
            }
        },
    }
    out
}

} // verus!
