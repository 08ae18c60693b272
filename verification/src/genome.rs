//! Building one organism out of the lines of its dump.
//!
//! A dump is read line by line. Each line is classified by its token count
//! and leading keyword, and changes the organism under construction or ends
//! the reading. The first line that fits no shape, or whose fields do not
//! read, fails the whole dump.
//!
//! Traits and nodes are kept without repetition: a trait whose id is already
//! present, or a node whose id and trait id are, is set aside, so the first
//! definition stays. Genes are kept as they come.
//!
//! A dump that runs out before its closing marker still yields the organism
//! gathered so far.

use vstd::prelude::*;
use crate::records::{
    gene_of, node_of, trait_of, GeneInfo, NodeInfo, OrganismInfo, TraitInfo, TraitModel,
};
use crate::token::{fields_from, lenient_naturals, lenient_numbers, Token};

verus! {

/// The shape of a line.
#[derive(Clone, Copy, Debug, PartialEq, Eq, Structural)]
pub enum LineKind {
    /// Eight tokens: the organism's header.
    Header,
    /// Ten tokens, the first of them `trait`.
    Trait,
    /// Four tokens, the first of them `node`.
    Node,
    /// Nine tokens, the first of them `gene`.
    Gene,
    /// Two tokens, the first of them `genomestart`.
    GenomeStart,
    /// Two tokens, the first of them `genomeend`.
    GenomeEnd,
    /// Anything else.
    Unrecognized,
}

/// The record that a line defines.
#[derive(Clone, Copy, Debug, PartialEq, Eq, Structural)]
pub enum RecordKind {
    Trait,
    Node,
    Gene,
}

/// Why a dump was given up. `line` counts from one.
#[derive(Clone, Copy, Debug, PartialEq, Eq, Structural)]
pub enum ParseError {
    /// The line fits none of the known shapes.
    UnrecognizedLine { line: usize },
    /// After lenient extraction the line holds too few values for its record.
    Arity { record: RecordKind, line: usize },
    /// A boundary marker does not carry the id of the header read so far.
    BoundaryMismatch { line: usize },
    /// A field of the header does not read.
    NumericField { line: usize },
    /// The kind code of a node is none of 0, 1, 2, 3.
    UnknownNodeKind { line: usize },
}

/// One organism as read from a dump.
#[derive(Debug)]
pub struct ParsedOrganism {
    pub info: OrganismInfo,
    pub traits: Vec<TraitInfo>,
    pub nodes: Vec<NodeInfo>,
    pub genes: Vec<GeneInfo>,
}

/// The mathematical content of a `ParsedOrganism`.
pub struct OrganismModel {
    pub info: OrganismInfo,
    pub traits: Seq<TraitModel>,
    pub nodes: Seq<NodeInfo>,
    pub genes: Seq<GeneInfo>,
}

/// The contents of a list of traits.
pub open spec fn trait_models(traits: Seq<TraitInfo>) -> Seq<TraitModel> {
    traits.map_values(|t: TraitInfo| t@)
}

/// The token sequences of a list of lines.
pub open spec fn token_lines(lines: Seq<Vec<Token>>) -> Seq<Seq<Token>> {
    lines.map_values(|l: Vec<Token>| l@)
}

/// Whether a trait with this id is among `traits`.
pub open spec fn has_trait(traits: Seq<TraitModel>, id: u64) -> bool {
    exists|i: int| 0 <= i < traits.len() && (#[trigger] traits[i]).id == id
}

/// Whether a node with this id and trait id is among `nodes`.
pub open spec fn has_node(nodes: Seq<NodeInfo>, id: u64, trait_id: u64) -> bool {
    exists|i: int|
        0 <= i < nodes.len() && (#[trigger] nodes[i]).id == id && nodes[i].trait_id == trait_id
}

/// `traits` with `t` at its end, unless a trait of that id is there already.
pub open spec fn insert_trait(traits: Seq<TraitModel>, t: TraitModel) -> Seq<TraitModel> {
    if has_trait(traits, t.id) {
        traits
    } else {
        traits.push(t)
    }
}

/// `nodes` with `n` at its end, unless a node of that id and trait id is
/// there already.
pub open spec fn insert_node(nodes: Seq<NodeInfo>, n: NodeInfo) -> Seq<NodeInfo> {
    if has_node(nodes, n.id, n.trait_id) {
        nodes
    } else {
        nodes.push(n)
    }
}

/// The traits of a list without repetition of an id, first definitions kept,
/// in order.
pub open spec fn distinct_traits(traits: Seq<TraitModel>) -> Seq<TraitModel>
    decreases traits.len(),
{
    if traits.len() == 0 {
        Seq::empty()
    } else {
        insert_trait(distinct_traits(traits.drop_last()), traits.last())
    }
}

/// The nodes of a list without repetition of an id and trait id, first
/// definitions kept, in order.
pub open spec fn distinct_nodes(nodes: Seq<NodeInfo>) -> Seq<NodeInfo>
    decreases nodes.len(),
{
    if nodes.len() == 0 {
        Seq::empty()
    } else {
        insert_node(distinct_nodes(nodes.drop_last()), nodes.last())
    }
}

impl OrganismModel {
    /// The organism before any line was read.
    pub open spec fn start() -> OrganismModel {
        OrganismModel {
            info: OrganismInfo::unset(),
            traits: Seq::empty(),
            nodes: Seq::empty(),
            genes: Seq::empty(),
        }
    }

    /// Every trait has eight parameters, no two traits share an id, and no
    /// two nodes share both id and trait id.
    pub open spec fn well_formed(self) -> bool {
        &&& forall|i: int| 0 <= i < self.traits.len() ==> (#[trigger] self.traits[i]).params.len() == 8
        &&& forall|i: int, j: int|
            0 <= i < j < self.traits.len() ==> (#[trigger] self.traits[i]).id != (
            #[trigger] self.traits[j]).id
        &&& forall|i: int, j: int|
            0 <= i < j < self.nodes.len() ==> !(#[trigger] self.nodes[i]).spec_same_entity(
                #[trigger] self.nodes[j],
            )
    }

    /// The organism with another header.
    pub open spec fn with_info(self, info: OrganismInfo) -> OrganismModel {
        OrganismModel { info, traits: self.traits, nodes: self.nodes, genes: self.genes }
    }

    /// The organism with one more trait, unless its id is taken.
    pub open spec fn with_trait(self, t: TraitModel) -> OrganismModel {
        OrganismModel {
            info: self.info,
            traits: insert_trait(self.traits, t),
            nodes: self.nodes,
            genes: self.genes,
        }
    }

    /// The organism with one more node, unless its id and trait id are taken.
    pub open spec fn with_node(self, n: NodeInfo) -> OrganismModel {
        OrganismModel {
            info: self.info,
            traits: self.traits,
            nodes: insert_node(self.nodes, n),
            genes: self.genes,
        }
    }

    /// The organism with one more gene at the end.
    pub open spec fn with_gene(self, g: GeneInfo) -> OrganismModel {
        OrganismModel {
            info: self.info,
            traits: self.traits,
            nodes: self.nodes,
            genes: self.genes.push(g),
        }
    }
}

impl View for ParsedOrganism {
    type V = OrganismModel;

    open spec fn view(&self) -> OrganismModel {
        OrganismModel {
            info: self.info,
            traits: trait_models(self.traits@),
            nodes: self.nodes@,
            genes: self.genes@,
        }
    }
}

/// The shape of a line, by token count and leading keyword.
pub open spec fn spec_classify(tokens: Seq<Token>) -> LineKind {
    if tokens.len() == 8 {
        LineKind::Header
    } else if tokens.len() == 10 && tokens[0].text@ == "trait"@ {
        LineKind::Trait
    } else if tokens.len() == 4 && tokens[0].text@ == "node"@ {
        LineKind::Node
    } else if tokens.len() == 9 && tokens[0].text@ == "gene"@ {
        LineKind::Gene
    } else if tokens.len() == 2 && tokens[0].text@ == "genomestart"@ {
        LineKind::GenomeStart
    } else if tokens.len() == 2 && tokens[0].text@ == "genomeend"@ {
        LineKind::GenomeEnd
    } else {
        LineKind::Unrecognized
    }
}

/// The header that a line of eight tokens gives: the id is the third token
/// without its leading mark, fitness and error are the fifth and the seventh
/// token. All three are read strictly: there is no header as soon as one of
/// them does not read.
pub open spec fn header_of(tokens: Seq<Token>) -> Option<OrganismInfo> {
    if tokens.len() == 8 {
        OrganismInfo::spec_from_readings(
            tokens[2].spec_tagged_natural(),
            tokens[4].number,
            tokens[6].number,
        )
    } else {
        None
    }
}

/// What one line does to the organism under construction: the organism after
/// the line and whether the line closed the genome, or the reason why the
/// dump is given up.
pub open spec fn step(m: OrganismModel, tokens: Seq<Token>, line: usize) -> Result<
    (OrganismModel, bool),
    ParseError,
> {
    match spec_classify(tokens) {
        LineKind::Header => match header_of(tokens) {
            Some(info) => Ok((m.with_info(info), false)),
            None => Err(ParseError::NumericField { line }),
        },
        LineKind::Trait => {
            let values = lenient_numbers(fields_from(tokens, 1));
            if values.len() == 9 {
                Ok((m.with_trait(trait_of(values)), false))
            } else {
                Err(ParseError::Arity { record: RecordKind::Trait, line })
            }
        },
        LineKind::Node => {
            let values = lenient_naturals(fields_from(tokens, 1));
            if values.len() != 3 {
                Err(ParseError::Arity { record: RecordKind::Node, line })
            } else if values[2] > 3 {
                Err(ParseError::UnknownNodeKind { line })
            } else {
                Ok((m.with_node(node_of(values)), false))
            }
        },
        LineKind::Gene => {
            let values = lenient_numbers(fields_from(tokens, 1));
            if values.len() == 8 {
                Ok((m.with_gene(gene_of(values)), false))
            } else {
                Err(ParseError::Arity { record: RecordKind::Gene, line })
            }
        },
        LineKind::GenomeStart => if tokens[1].spec_natural() == Some(m.info.id) {
            Ok((m, false))
        } else {
            Err(ParseError::BoundaryMismatch { line })
        },
        LineKind::GenomeEnd => if tokens[1].spec_natural() == Some(m.info.id) {
            Ok((m, true))
        } else {
            Err(ParseError::BoundaryMismatch { line })
        },
        LineKind::Unrecognized => Err(ParseError::UnrecognizedLine { line }),
    }
}

/// The number under which the line at position `at` is reported: lines are
/// counted from one.
pub open spec fn line_number(at: int) -> usize {
    (at + 1) as usize
}

/// The outcome of reading the lines from position `from` on, starting with
/// the organism `m`: reading stops at the first failing line, at the closing
/// marker, or where the lines run out.
pub open spec fn run(m: OrganismModel, lines: Seq<Seq<Token>>, from: int) -> Result<
    OrganismModel,
    ParseError,
>
    decreases lines.len() - from,
{
    if from < 0 || from >= lines.len() {
        Ok(m)
    } else {
        match step(m, lines[from], line_number(from)) {
            Err(e) => Err(e),
            Ok((next, done)) => if done {
                Ok(next)
            } else {
                run(next, lines, from + 1)
            },
        }
    }
}

/// The outcome of reading a whole dump.
pub open spec fn parse_lines(lines: Seq<Seq<Token>>) -> Result<OrganismModel, ParseError> {
    run(OrganismModel::start(), lines, 0)
}

/// Classifies a line by its token count and leading keyword.
pub fn classify(tokens: &Vec<Token>) -> (kind: LineKind)
    ensures
        kind == spec_classify(tokens@),
{
    let n = tokens.len();
    if n == 8 {
        LineKind::Header
    } else if n == 10 && tokens[0].is("trait") {
        LineKind::Trait
    } else if n == 4 && tokens[0].is("node") {
        LineKind::Node
    } else if n == 9 && tokens[0].is("gene") {
        LineKind::Gene
    } else if n == 2 && tokens[0].is("genomestart") {
        LineKind::GenomeStart
    } else if n == 2 && tokens[0].is("genomeend") {
        LineKind::GenomeEnd
    } else {
        LineKind::Unrecognized
    }
}

} // verus!
