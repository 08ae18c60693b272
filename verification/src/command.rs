//! The command line of the optimizer whose dumps this library reads, and
//! what is made of the text it prints.

use vstd::prelude::*;
use crate::words::{same_text, texts};

verus! {

/// How the optimizer searches.
#[derive(Clone, Copy, Debug, PartialEq, Eq, Structural)]
pub enum SearchType {
    Complexify,
    Phased,
    Blended,
}

/// The name given is that of no search type.
#[derive(Clone, Copy, Debug, PartialEq, Eq, Structural)]
pub struct SearchTypeParseError;

impl SearchType {
    /// The name of the search type on the command line.
    pub open spec fn spec_name(self) -> Seq<char> {
        match self {
            SearchType::Phased => "phased"@,
            SearchType::Blended => "blended"@,
            SearchType::Complexify => "complexify"@,
        }
    }

    /// The search type that a name stands for.
    pub open spec fn spec_from_name(s: Seq<char>) -> Option<SearchType> {
        if s == "phased"@ {
            Some(SearchType::Phased)
        } else if s == "blended"@ {
            Some(SearchType::Blended)
        } else if s == "complexify"@ {
            Some(SearchType::Complexify)
        } else {
            None
        }
    }

    /// The name of the search type on the command line.
    pub fn name(self) -> (r: &'static str)
        ensures
            r@ == self.spec_name(),
    {
        match self {
            SearchType::Phased => "phased",
            SearchType::Blended => "blended",
            SearchType::Complexify => "complexify",
        }
    }

    /// Reads the name of a search type.
    pub fn from_name(s: &str) -> (r: Result<SearchType, SearchTypeParseError>)
        ensures
            match r {
                Ok(t) => Self::spec_from_name(s@) == Some(t),
                Err(_) => Self::spec_from_name(s@).is_none(),
            },
    {
        if same_text(s, "phased") {
            Ok(SearchType::Phased)
        } else if same_text(s, "blended") {
            Ok(SearchType::Blended)
        } else if same_text(s, "complexify") {
            Ok(SearchType::Complexify)
        } else {
            Err(SearchTypeParseError)
        }
    }
}

impl std::str::FromStr for SearchType {
    type Err = SearchTypeParseError;

    fn from_str(s: &str) -> (r: Result<SearchType, SearchTypeParseError>)
        ensures
            match r {
                Ok(t) => SearchType::spec_from_name(s@) == Some(t),
                Err(_) => SearchType::spec_from_name(s@).is_none(),
            },
    {
        SearchType::from_name(s)
    }
}

/// Every search type is read back from its own name.
pub proof fn lemma_search_type_name_reads_back(t: SearchType)
    ensures
        SearchType::spec_from_name(t.spec_name()) == Some(t),
{
    reveal_strlit("phased");
    reveal_strlit("blended");
    reveal_strlit("complexify");
    assert("blended"@.len() == 7);
    assert("complexify"@.len() == 10);
}

/// The experiments that the optimizer knows.
#[derive(Clone, Copy, Debug, PartialEq, Eq, Structural)]
pub enum ExperimentType {
    CfgXsx,
    Maze,
    RegexXyxy,
    RegexAba,
    Seq1bit2el,
    Seq1bit3el,
    Seq1bit4el,
    Seq1bit5el,
    Xor,
}

/// The name given is that of no experiment.
#[derive(Clone, Copy, Debug, PartialEq, Eq, Structural)]
pub struct ExperimentNotSupported;

impl ExperimentType {
    /// The experiment that a name stands for.
    pub open spec fn spec_from_name(s: Seq<char>) -> Option<ExperimentType> {
        if s == "xor"@ {
            Some(ExperimentType::Xor)
        } else if s == "cfg-XSX"@ {
            Some(ExperimentType::CfgXsx)
        } else if s == "maze"@ {
            Some(ExperimentType::Maze)
        } else if s == "regex-XYXY"@ {
            Some(ExperimentType::RegexXyxy)
        } else if s == "regex-aba"@ {
            Some(ExperimentType::RegexAba)
        } else if s == "seq-1bit-2el"@ {
            Some(ExperimentType::Seq1bit2el)
        } else if s == "seq-1bit-3el"@ {
            Some(ExperimentType::Seq1bit3el)
        } else if s == "seq-1bit-4el"@ {
            Some(ExperimentType::Seq1bit4el)
        } else if s == "seq-1bit-5el"@ {
            Some(ExperimentType::Seq1bit5el)
        } else {
            None
        }
    }

    /// Reads the name of an experiment.
    pub fn from_name(s: &str) -> (r: Result<ExperimentType, ExperimentNotSupported>)
        ensures
            match r {
                Ok(t) => Self::spec_from_name(s@) == Some(t),
                Err(_) => Self::spec_from_name(s@).is_none(),
            },
    {
        if same_text(s, "xor") {
            Ok(ExperimentType::Xor)
        } else if same_text(s, "cfg-XSX") {
            Ok(ExperimentType::CfgXsx)
        } else if same_text(s, "maze") {
            Ok(ExperimentType::Maze)
        } else if same_text(s, "regex-XYXY") {
            Ok(ExperimentType::RegexXyxy)
        } else if same_text(s, "regex-aba") {
            Ok(ExperimentType::RegexAba)
        } else if same_text(s, "seq-1bit-2el") {
            Ok(ExperimentType::Seq1bit2el)
        } else if same_text(s, "seq-1bit-3el") {
            Ok(ExperimentType::Seq1bit3el)
        } else if same_text(s, "seq-1bit-4el") {
            Ok(ExperimentType::Seq1bit4el)
        } else if same_text(s, "seq-1bit-5el") {
            Ok(ExperimentType::Seq1bit5el)
        } else {
            Err(ExperimentNotSupported)
        }
    }
}

impl std::str::FromStr for ExperimentType {
    type Err = ExperimentNotSupported;

    fn from_str(s: &str) -> (r: Result<ExperimentType, ExperimentNotSupported>)
        ensures
            match r {
                Ok(t) => ExperimentType::spec_from_name(s@) == Some(t),
                Err(_) => ExperimentType::spec_from_name(s@).is_none(),
            },
    {
        ExperimentType::from_name(s)
    }
}

/// What the optimizer is asked to do.
#[derive(Debug)]
pub struct AccNeatArgs {
    pub num_experiments: usize,
    pub force_delete: bool,
    pub rng_seed: usize,
    pub pop_size: usize,
    pub maxgens: usize,
    pub search_type: SearchType,
    pub experiment: String,
}

impl Default for AccNeatArgs {
    fn default() -> (r: AccNeatArgs)
        ensures
            r.num_experiments == 1,
            !r.force_delete,
            r.rng_seed == 1,
            r.pop_size == 1000,
            r.maxgens == 10000,
            r.search_type == SearchType::Phased,
            r.experiment@ == "xor"@,
    {
        AccNeatArgs {
            num_experiments: 1,
            force_delete: false,
            rng_seed: 1,
            pop_size: 1000,
            maxgens: 10000,
            search_type: SearchType::Phased,
            experiment: "xor".to_owned(),
        }
    }
}

/// The character of a decimal digit.
pub open spec fn digit_char(d: nat) -> char
    recommends
        d < 10,
{
    if d == 0 {
        '0'
    } else if d == 1 {
        '1'
    } else if d == 2 {
        '2'
    } else if d == 3 {
        '3'
    } else if d == 4 {
        '4'
    } else if d == 5 {
        '5'
    } else if d == 6 {
        '6'
    } else if d == 7 {
        '7'
    } else if d == 8 {
        '8'
    } else {
        '9'
    }
}

/// A number written in decimal, without sign or leading zeros.
pub open spec fn decimal_text(n: nat) -> Seq<char>
    decreases n,
{
    if n < 10 {
        seq![digit_char(n)]
    } else {
        decimal_text(n / 10).push(digit_char(n % 10))
    }
}

/// Calls `to_string` on a `usize`, which writes the number in decimal.
#[verifier::external_body]
fn decimal_string(n: usize) -> (r: String)
    ensures
        r@ == decimal_text(n as nat),
{
    n.to_string()
}

/// The optimizer's arguments: `-f` where earlier results are to be deleted,
/// then the count of experiments after `-c`, the seed after `-r`, the
/// population size after `-n`, the limit of generations after `-x`, the
/// search type after `-s`, and the experiment's name.
pub open spec fn command_line(args: AccNeatArgs) -> Seq<Seq<char>> {
    let start: Seq<Seq<char>> = if args.force_delete {
        seq!["-f"@]
    } else {
        Seq::empty()
    };
    start.push("-c"@).push(decimal_text(args.num_experiments as nat)).push("-r"@).push(
        decimal_text(args.rng_seed as nat),
    ).push("-n"@).push(decimal_text(args.pop_size as nat)).push("-x"@).push(
        decimal_text(args.maxgens as nat),
    ).push("-s"@).push(args.search_type.spec_name()).push(args.experiment@)
}

/// Appends one text to a list.
fn push_text(list: &mut Vec<String>, text: String)
    ensures
        texts(final(list)@) == texts(old(list)@).push(text@),
{
    list.push(text);
}

/// Lays out the arguments with which the optimizer is to be run.
pub fn execute(args: AccNeatArgs) -> (a: Vec<String>)
    ensures
        texts(a@) == command_line(args),
{
    let mut a: Vec<String> = Vec::new();
    if args.force_delete {
        push_text(&mut a, "-f".to_owned());
    }
    push_text(&mut a, "-c".to_owned());
    push_text(&mut a, decimal_string(args.num_experiments));
    push_text(&mut a, "-r".to_owned());
    push_text(&mut a, decimal_string(args.rng_seed));
    push_text(&mut a, "-n".to_owned());
    push_text(&mut a, decimal_string(args.pop_size));
    push_text(&mut a, "-x".to_owned());
    push_text(&mut a, decimal_string(args.maxgens));
    push_text(&mut a, "-s".to_owned());
    push_text(&mut a, args.search_type.name().to_owned());
    push_text(&mut a, args.experiment);
    a
}

/// The text shown in place of an output that is no UTF-8.
pub open spec fn unreadable_output() -> Seq<char> {
    "[ERROR] String::from_utf8(o.stdout).unwrap() failed"@
}

/// What is made of the optimizer's two output streams, each given as its
/// text where it is UTF-8: an unreadable standard output becomes a
/// placeholder, an unreadable error output becomes empty.
pub fn captured_output(stdout: Option<String>, stderr: Option<String>) -> (r: (String, String))
    ensures
        r.0@ == (match stdout {
            Some(s) => s@,
            None => unreadable_output(),
        }),
        r.1@ == (match stderr {
            Some(s) => s@,
            None => Seq::<char>::empty(),
        }),
{
    let out = match stdout {
        Some(s) => s,
        None => "[ERROR] String::from_utf8(o.stdout).unwrap() failed".to_owned(),
    };
    let err = match stderr {
        Some(s) => s,
        None => String::new(),
    };
    (out, err)
}

/// An evaluator of networks, for the experiments to implement.
pub trait NetworkEvaluator {
}

} // verus!
