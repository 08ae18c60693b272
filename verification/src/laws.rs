//! What holds of every reading.
//!
//! An organism that is read or put together keeps its traits and nodes
//! without repetition, so their counts are the counts of distinct
//! identities. A dump that reads gives exactly what its lines define, up to
//! the closing marker. A line whose fields do not all read, or whose marker
//! names another organism, fails the dump. And a number written in decimal
//! is read back as itself.

use vstd::prelude::*;
use crate::genome::{
    distinct_nodes, distinct_traits, has_node, has_trait, insert_node, insert_trait, line_number,
    parse_lines, run, spec_classify, step, LineKind, OrganismModel, ParseError, RecordKind,
};
use crate::records::{gene_of, node_of, trait_of, GeneInfo, NodeInfo, TraitModel};
use crate::command::decimal_text;
use crate::token::{
    decimal_of, digits_value, fields_from, is_digits, lenient_naturals, lenient_numbers, Token,
};

verus! {

/// The ids of a list of traits.
pub open spec fn trait_ids(traits: Seq<TraitModel>) -> Seq<u64> {
    traits.map_values(|t: TraitModel| t.id)
}

/// The identities of a list of nodes: id and trait id.
pub open spec fn node_keys(nodes: Seq<NodeInfo>) -> Seq<(u64, u64)> {
    nodes.map_values(|n: NodeInfo| (n.id, n.trait_id))
}

/// The ids of a list of nodes.
pub open spec fn node_ids(nodes: Seq<NodeInfo>) -> Seq<u64> {
    nodes.map_values(|n: NodeInfo| n.id)
}

/// Whether every node id goes with one trait id only.
pub open spec fn one_trait_per_node(nodes: Seq<NodeInfo>) -> bool {
    forall|i: int, j: int|
        0 <= i < nodes.len() && 0 <= j < nodes.len() && (#[trigger] nodes[i]).id == (
        #[trigger] nodes[j]).id ==> nodes[i].trait_id == nodes[j].trait_id
}

/// A well-formed organism has as many traits as distinct trait ids and as
/// many nodes as distinct pairs of node id and trait id.
pub proof fn lemma_counts_are_distinct_counts(m: OrganismModel)
    requires
        m.well_formed(),
    ensures
        m.traits.len() == trait_ids(m.traits).to_set().len(),
        m.nodes.len() == node_keys(m.nodes).to_set().len(),
{
    let ids = trait_ids(m.traits);
    ids.unique_seq_to_set();
    let keys = node_keys(m.nodes);
    keys.unique_seq_to_set();
}

/// Where every node id goes with one trait id only, a well-formed organism
/// has as many nodes as distinct node ids.
pub proof fn lemma_node_count_is_distinct_ids(m: OrganismModel)
    requires
        m.well_formed(),
        one_trait_per_node(m.nodes),
    ensures
        m.nodes.len() == node_ids(m.nodes).to_set().len(),
{
    let ids = node_ids(m.nodes);
    ids.unique_seq_to_set();
}

/// A line that is taken leaves a well-formed organism well formed.
pub proof fn lemma_step_keeps_well_formed(m: OrganismModel, tokens: Seq<Token>, line: usize)
    requires
        m.well_formed(),
    ensures
        match step(m, tokens, line) {
            Ok((next, _)) => next.well_formed(),
            Err(_) => true,
        },
{
}

/// Reading on from a well-formed organism ends in a well-formed one.
pub proof fn lemma_run_keeps_well_formed(m: OrganismModel, lines: Seq<Seq<Token>>, from: int)
    requires
        m.well_formed(),
    ensures
        match run(m, lines, from) {
            Ok(last) => last.well_formed(),
            Err(_) => true,
        },
    decreases lines.len() - from,
{
    if 0 <= from < lines.len() {
        lemma_step_keeps_well_formed(m, lines[from], line_number(from));
        match step(m, lines[from], line_number(from)) {
            Ok((next, done)) => {
                if !done {
                    lemma_run_keeps_well_formed(next, lines, from + 1);
                }
            },
            Err(_) => {},
        }
    }
}

/// Every dump that reads gives a well-formed organism, whose traits are as
/// many as its distinct trait ids and whose nodes are as many as its distinct
/// pairs of node id and trait id.
pub proof fn lemma_parsed_counts(lines: Seq<Seq<Token>>)
    ensures
        match parse_lines(lines) {
            Ok(m) => {
                &&& m.well_formed()
                &&& m.traits.len() == trait_ids(m.traits).to_set().len()
                &&& m.nodes.len() == node_keys(m.nodes).to_set().len()
                &&& one_trait_per_node(m.nodes) ==> m.nodes.len() == node_ids(m.nodes).to_set().len()
            },
            Err(_) => true,
        },
{
    lemma_run_keeps_well_formed(OrganismModel::start(), lines, 0);
    match parse_lines(lines) {
        Ok(m) => {
            lemma_counts_are_distinct_counts(m);
            if one_trait_per_node(m.nodes) {
                lemma_node_count_is_distinct_ids(m);
            }
        },
        Err(_) => {},
    }
}

/// Traits without repetition have the ids of the list they were taken from,
/// each once: their count is the count of distinct ids in that list.
pub proof fn lemma_distinct_traits_count(all: Seq<TraitModel>)
    ensures
        forall|i: int, j: int|
            0 <= i < j < distinct_traits(all).len() ==> (#[trigger] distinct_traits(all)[i]).id != (
            #[trigger] distinct_traits(all)[j]).id,
        trait_ids(distinct_traits(all)).to_set() == trait_ids(all).to_set(),
        distinct_traits(all).len() == trait_ids(all).to_set().len(),
    decreases all.len(),
{
    let kept = distinct_traits(all);
    if all.len() > 0 {
        let front = all.drop_last();
        let before = distinct_traits(front);
        let t = all.last();
        lemma_distinct_traits_count(front);
        assert forall|x: u64| trait_ids(kept).to_set().contains(x) <==> trait_ids(all).to_set().contains(
            x,
        ) by {
            assert(trait_ids(before).to_set().contains(x) <==> trait_ids(front).to_set().contains(x));
            if trait_ids(kept).contains(x) {
                let i = choose|i: int| 0 <= i < kept.len() && trait_ids(kept)[i] == x;
                if i < before.len() {
                    assert(trait_ids(before)[i] == x);
                    let k = choose|k: int| 0 <= k < front.len() && trait_ids(front)[k] == x;
                    assert(trait_ids(all)[k] == x);
                } else {
                    assert(trait_ids(all)[all.len() - 1] == x);
                }
            }
            if trait_ids(all).contains(x) {
                let k = choose|k: int| 0 <= k < all.len() && trait_ids(all)[k] == x;
                if k < front.len() {
                    assert(trait_ids(front)[k] == x);
                    let i = choose|i: int| 0 <= i < before.len() && trait_ids(before)[i] == x;
                    assert(trait_ids(kept)[i] == x);
                } else if has_trait(before, t.id) {
                    let i = choose|i: int| 0 <= i < before.len() && before[i].id == t.id;
                    assert(trait_ids(kept)[i] == x);
                } else {
                    assert(trait_ids(kept)[kept.len() - 1] == x);
                }
            }
        }
        assert(trait_ids(kept).to_set() =~= trait_ids(all).to_set());
    }
    let ids = trait_ids(kept);
    ids.unique_seq_to_set();
}

/// Nodes without repetition have the identities of the list they were taken
/// from, each once: their count is the count of distinct pairs of node id and
/// trait id in that list.
pub proof fn lemma_distinct_nodes_count(all: Seq<NodeInfo>)
    ensures
        forall|i: int, j: int|
            0 <= i < j < distinct_nodes(all).len() ==> !(#[trigger] distinct_nodes(
                all,
            )[i]).spec_same_entity(#[trigger] distinct_nodes(all)[j]),
        node_keys(distinct_nodes(all)).to_set() == node_keys(all).to_set(),
        distinct_nodes(all).len() == node_keys(all).to_set().len(),
    decreases all.len(),
{
    let kept = distinct_nodes(all);
    if all.len() > 0 {
        let front = all.drop_last();
        let before = distinct_nodes(front);
        let n = all.last();
        lemma_distinct_nodes_count(front);
        assert forall|x: (u64, u64)|
            node_keys(kept).to_set().contains(x) <==> node_keys(all).to_set().contains(x) by {
            assert(node_keys(before).to_set().contains(x) <==> node_keys(front).to_set().contains(x));
            if node_keys(kept).contains(x) {
                let i = choose|i: int| 0 <= i < kept.len() && node_keys(kept)[i] == x;
                if i < before.len() {
                    assert(node_keys(before)[i] == x);
                    let k = choose|k: int| 0 <= k < front.len() && node_keys(front)[k] == x;
                    assert(node_keys(all)[k] == x);
                } else {
                    assert(node_keys(all)[all.len() - 1] == x);
                }
            }
            if node_keys(all).contains(x) {
                let k = choose|k: int| 0 <= k < all.len() && node_keys(all)[k] == x;
                if k < front.len() {
                    assert(node_keys(front)[k] == x);
                    let i = choose|i: int| 0 <= i < before.len() && node_keys(before)[i] == x;
                    assert(node_keys(kept)[i] == x);
                } else if has_node(before, n.id, n.trait_id) {
                    let i = choose|i: int|
                        0 <= i < before.len() && before[i].id == n.id && before[i].trait_id
                            == n.trait_id;
                    assert(node_keys(kept)[i] == x);
                } else {
                    assert(node_keys(kept)[kept.len() - 1] == x);
                }
            }
        }
        assert(node_keys(kept).to_set() =~= node_keys(all).to_set());
    }
    let keys = node_keys(kept);
    keys.unique_seq_to_set();
}

/// The trait that a line defines, if it is a trait line with all its values.
pub open spec fn trait_defined(tokens: Seq<Token>) -> Option<TraitModel> {
    let values = lenient_numbers(fields_from(tokens, 1));
    if spec_classify(tokens) == LineKind::Trait && values.len() == 9 {
        Some(trait_of(values))
    } else {
        None
    }
}

/// The node that a line defines, if it is a node line with all its values
/// and a known kind.
pub open spec fn node_defined(tokens: Seq<Token>) -> Option<NodeInfo> {
    let values = lenient_naturals(fields_from(tokens, 1));
    if spec_classify(tokens) == LineKind::Node && values.len() == 3 && values[2] <= 3 {
        Some(node_of(values))
    } else {
        None
    }
}

/// The gene that a line defines, if it is a gene line with all its values.
pub open spec fn gene_defined(tokens: Seq<Token>) -> Option<GeneInfo> {
    let values = lenient_numbers(fields_from(tokens, 1));
    if spec_classify(tokens) == LineKind::Gene && values.len() == 8 {
        Some(gene_of(values))
    } else {
        None
    }
}

/// The traits that the lines define, in order, repetitions included.
pub open spec fn traits_defined(lines: Seq<Seq<Token>>) -> Seq<TraitModel>
    decreases lines.len(),
{
    if lines.len() == 0 {
        Seq::empty()
    } else {
        let front = traits_defined(lines.drop_last());
        match trait_defined(lines.last()) {
            Some(t) => front.push(t),
            None => front,
        }
    }
}

/// The nodes that the lines define, in order, repetitions included.
pub open spec fn nodes_defined(lines: Seq<Seq<Token>>) -> Seq<NodeInfo>
    decreases lines.len(),
{
    if lines.len() == 0 {
        Seq::empty()
    } else {
        let front = nodes_defined(lines.drop_last());
        match node_defined(lines.last()) {
            Some(n) => front.push(n),
            None => front,
        }
    }
}

/// The genes that the lines define, in order.
pub open spec fn genes_defined(lines: Seq<Seq<Token>>) -> Seq<GeneInfo>
    decreases lines.len(),
{
    if lines.len() == 0 {
        Seq::empty()
    } else {
        let front = genes_defined(lines.drop_last());
        match gene_defined(lines.last()) {
            Some(g) => front.push(g),
            None => front,
        }
    }
}

/// How many lines a reading that succeeds takes in, counted from the start
/// of the dump: all of them, or those up to and including the closing marker.
pub open spec fn lines_taken(m: OrganismModel, lines: Seq<Seq<Token>>, from: int) -> int
    decreases lines.len() - from,
{
    if from < 0 || from >= lines.len() {
        from
    } else {
        match step(m, lines[from], line_number(from)) {
            Err(_) => from,
            Ok((next, done)) => if done {
                from + 1
            } else {
                lines_taken(next, lines, from + 1)
            },
        }
    }
}

/// Whether the organism holds exactly what the first `n` lines define.
pub open spec fn gathered(m: OrganismModel, lines: Seq<Seq<Token>>, n: int) -> bool {
    &&& 0 <= n <= lines.len()
    &&& m.traits == distinct_traits(traits_defined(lines.take(n)))
    &&& m.nodes == distinct_nodes(nodes_defined(lines.take(n)))
    &&& m.genes == genes_defined(lines.take(n))
}

/// Taking in one more trait is inserting it into the traits kept so far.
pub proof fn lemma_distinct_traits_push(all: Seq<TraitModel>, t: TraitModel)
    ensures
        distinct_traits(all.push(t)) == insert_trait(distinct_traits(all), t),
{
    assert(all.push(t).drop_last() == all);
}

/// Taking in one more node is inserting it into the nodes kept so far.
pub proof fn lemma_distinct_nodes_push(all: Seq<NodeInfo>, n: NodeInfo)
    ensures
        distinct_nodes(all.push(n)) == insert_node(distinct_nodes(all), n),
{
    assert(all.push(n).drop_last() == all);
}

/// Reading on from an organism that holds what the lines before `from`
/// define ends in one that holds what all the lines taken in define.
pub proof fn lemma_run_gathers(m: OrganismModel, lines: Seq<Seq<Token>>, from: int)
    requires
        gathered(m, lines, from),
    ensures
        match run(m, lines, from) {
            Ok(last) => gathered(last, lines, lines_taken(m, lines, from)),
            Err(_) => true,
        },
    decreases lines.len() - from,
{
    if from < lines.len() {
        let tokens = lines[from];
        assert(lines.take(from + 1).drop_last() == lines.take(from));
        match step(m, tokens, line_number(from)) {
            Ok((next, done)) => {
                match trait_defined(tokens) {
                    Some(t) => lemma_distinct_traits_push(traits_defined(lines.take(from)), t),
                    None => {},
                }
                match node_defined(tokens) {
                    Some(n) => lemma_distinct_nodes_push(nodes_defined(lines.take(from)), n),
                    None => {},
                }
                if !done {
                    lemma_run_gathers(next, lines, from + 1);
                }
            },
            Err(_) => {},
        }
    }
}

/// Every dump that reads gives the organism that its lines define, up to
/// and including the closing marker: the traits and the nodes of those lines
/// without repetition, first definitions kept, and their genes in order. So
/// the organism has as many traits as there are distinct trait ids in those
/// lines, and as many nodes as there are distinct pairs of node id and trait
/// id.
pub proof fn lemma_parsed_is_what_lines_define(lines: Seq<Seq<Token>>)
    ensures
        match parse_lines(lines) {
            Ok(m) => {
                let read = lines.take(lines_taken(OrganismModel::start(), lines, 0));
                &&& 0 <= lines_taken(OrganismModel::start(), lines, 0) <= lines.len()
                &&& m.traits == distinct_traits(traits_defined(read))
                &&& m.nodes == distinct_nodes(nodes_defined(read))
                &&& m.genes == genes_defined(read)
                &&& m.traits.len() == trait_ids(traits_defined(read)).to_set().len()
                &&& m.nodes.len() == node_keys(nodes_defined(read)).to_set().len()
            },
            Err(_) => true,
        },
{
    let start = OrganismModel::start();
    lemma_run_gathers(start, lines, 0);
    let read = lines.take(lines_taken(start, lines, 0));
    lemma_distinct_traits_count(traits_defined(read));
    lemma_distinct_nodes_count(nodes_defined(read));
}

/// Lenient extraction never yields more numbers than there are tokens, and
/// yields fewer as soon as one token does not read.
pub proof fn lemma_lenient_numbers_len(tokens: Seq<Token>)
    ensures
        lenient_numbers(tokens).len() <= tokens.len(),
        (exists|i: int| 0 <= i < tokens.len() && (#[trigger] tokens[i]).number.is_none())
            ==> lenient_numbers(tokens).len() < tokens.len(),
        (forall|i: int| 0 <= i < tokens.len() ==> (#[trigger] tokens[i]).number.is_some())
            ==> lenient_numbers(tokens).len() == tokens.len(),
    decreases tokens.len(),
{
    if tokens.len() > 0 {
        let front = tokens.drop_last();
        lemma_lenient_numbers_len(front);
        if exists|i: int| 0 <= i < tokens.len() && (#[trigger] tokens[i]).number.is_none() {
            let i = choose|i: int| 0 <= i < tokens.len() && (#[trigger] tokens[i]).number.is_none();
            if i < front.len() {
                assert(front[i].number.is_none());
            }
        }
    }
}

/// A trait line with a field that does not read is an arity failure: the
/// line is never taken with fewer parameters.
pub proof fn lemma_trait_line_short_of_a_value_fails(
    m: OrganismModel,
    tokens: Seq<Token>,
    line: usize,
    field: int,
)
    requires
        spec_classify(tokens) == LineKind::Trait,
        1 <= field < 10,
        tokens[field].number.is_none(),
    ensures
        step(m, tokens, line) == Err::<(OrganismModel, bool), ParseError>(
            ParseError::Arity { record: RecordKind::Trait, line },
        ),
{
    let fields = fields_from(tokens, 1);
    assert(fields[field - 1] == tokens[field]);
    lemma_lenient_numbers_len(fields);
}

/// A boundary marker whose id is not that of the header held is a boundary
/// mismatch, whether it opens or closes the genome.
pub proof fn lemma_marker_with_other_id_fails(m: OrganismModel, tokens: Seq<Token>, line: usize)
    requires
        spec_classify(tokens) == LineKind::GenomeStart || spec_classify(tokens)
            == LineKind::GenomeEnd,
        tokens[1].spec_natural() != Some(m.info.id),
    ensures
        step(m, tokens, line) == Err::<(OrganismModel, bool), ParseError>(
            ParseError::BoundaryMismatch { line },
        ),
{
}

/// Reading that comes to a line which fails ends there, with the failure of
/// that line.
pub proof fn lemma_failing_line_fails_the_dump(
    m: OrganismModel,
    lines: Seq<Seq<Token>>,
    from: int,
)
    requires
        0 <= from < lines.len(),
    ensures
        match step(m, lines[from], line_number(from)) {
            Err(e) => run(m, lines, from) == Err::<OrganismModel, ParseError>(e),
            Ok(_) => true,
        },
{
}

/// A number written in decimal is a run of digits that writes that number.
pub proof fn lemma_decimal_text_is_digits(n: nat)
    ensures
        is_digits(decimal_text(n)),
        digits_value(decimal_text(n)) == n,
        decimal_text(n)[0] != '+',
    decreases n,
{
    if n < 10 {
        let text = decimal_text(n);
        assert(digits_value(text.drop_last()) == 0);
    } else {
        lemma_decimal_text_is_digits(n / 10);
        let text = decimal_text(n);
        let front = decimal_text(n / 10);
        assert(text.drop_last() == front);
    }
}

/// Every number that fits in 64 bits is read back from its decimal text.
pub proof fn lemma_decimal_text_reads_back(n: u64)
    ensures
        decimal_of(decimal_text(n as nat)) == Some(n),
{
    lemma_decimal_text_is_digits(n as nat);
}

} // verus!
