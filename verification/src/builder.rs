//! The builder that gathers an organism line by line, and the reading of a
//! whole dump with it.

use vstd::prelude::*;
use crate::genome::{
    classify, distinct_nodes, distinct_traits, header_of, insert_trait, parse_lines, run, step,
    token_lines, trait_models, LineKind, OrganismModel, ParseError, ParsedOrganism, RecordKind,
};
use crate::records::{GeneInfo, NodeInfo, OrganismInfo, RecordError, TraitInfo};
use crate::token::{extract_naturals, extract_numbers, Token};

verus! {

/// An organism under construction.
#[derive(Debug)]
pub struct GenomeBuilder {
    pub organism: ParsedOrganism,
}

impl View for GenomeBuilder {
    type V = OrganismModel;

    open spec fn view(&self) -> OrganismModel {
        self.organism@
    }
}

impl GenomeBuilder {
    /// A builder that has read nothing: the header is unset and there are no
    /// traits, nodes or genes.
    pub fn new() -> (b: GenomeBuilder)
        ensures
            b@ == OrganismModel::start(),
            b@.well_formed(),
    {
        let b = GenomeBuilder {
            organism: ParsedOrganism {
                info: OrganismInfo::default(),
                traits: Vec::new(),
                nodes: Vec::new(),
                genes: Vec::new(),
            },
        };
        proof {
            assert(b@.traits =~= Seq::empty());
        }
        b
    }

    /// Replaces the header.
    pub fn set_info(&mut self, info: OrganismInfo)
        ensures
            final(self)@ == old(self)@.with_info(info),
            old(self)@.well_formed() ==> final(self)@.well_formed(),
    {
        self.organism.info = info;
        proof {
            assert(self@.nodes == old(self)@.nodes);
        }
    }

    /// Adds a trait unless one of its id is present.
    pub fn add_trait(&mut self, t: TraitInfo)
        ensures
            final(self)@ == old(self)@.with_trait(t@),
            old(self)@.well_formed() && t.well_formed() ==> final(self)@.well_formed(),
    {
        let ghost before = self@;
        let mut i: usize = 0;
        let mut found = false;
        while i < self.organism.traits.len()
            invariant
                self@ == before,
                i <= self.organism.traits.len(),
                found <==> exists|j: int| 0 <= j < i && (#[trigger] before.traits[j]).id == t.id,
            decreases self.organism.traits.len() - i,
        {
            if self.organism.traits[i].same_entity(&t) {
                found = true;
                assert(before.traits[i as int].id == t.id);
            }
            i = i + 1;
        }
        if !found {
            self.organism.traits.push(t);
        }
        proof {
            assert(self@.traits == insert_trait(before.traits, t@));
        }
    }

    /// Adds a node unless one of its id and trait id is present.
    pub fn add_node(&mut self, n: NodeInfo)
        ensures
            final(self)@ == old(self)@.with_node(n),
            old(self)@.well_formed() ==> final(self)@.well_formed(),
    {
        let ghost before = self@;
        let mut i: usize = 0;
        let mut found = false;
        while i < self.organism.nodes.len()
            invariant
                self@ == before,
                i <= self.organism.nodes.len(),
                found <==> exists|j: int|
                    0 <= j < i && (#[trigger] before.nodes[j]).id == n.id && before.nodes[j].trait_id
                        == n.trait_id,
            decreases self.organism.nodes.len() - i,
        {
            if self.organism.nodes[i].same_entity(&n) {
                found = true;
            }
            i = i + 1;
        }
        if !found {
            self.organism.nodes.push(n);
        }
    }

    /// Appends a gene.
    pub fn add_gene(&mut self, g: GeneInfo)
        ensures
            final(self)@ == old(self)@.with_gene(g),
            old(self)@.well_formed() ==> final(self)@.well_formed(),
    {
        self.organism.genes.push(g);
        proof {
            assert(self@.traits == old(self)@.traits);
            assert(self@.nodes == old(self)@.nodes);
        }
    }

    /// Reads one line, given as its tokens, into the organism. `line` is the
    /// number of the line, reported with a failure. The result tells whether
    /// the line closed the genome. A line that fails leaves the organism as
    /// it was.
    pub fn feed(&mut self, tokens: &Vec<Token>, line: usize) -> (r: Result<bool, ParseError>)
        ensures
            match step(old(self)@, tokens@, line) {
                Ok((m, done)) => r == Ok::<bool, ParseError>(done) && final(self)@ == m,
                Err(e) => r == Err::<bool, ParseError>(e) && final(self)@ == old(self)@,
            },
            old(self)@.well_formed() ==> final(self)@.well_formed(),
    {
        match classify(tokens) {
            LineKind::Header => {
                match read_header(tokens) {
                    Some(info) => {
                        self.set_info(info);
                        Ok(false)
                    },
                    None => Err(ParseError::NumericField { line }),
                }
            },
            LineKind::Trait => {
                let values = extract_numbers(tokens, 1);
                match TraitInfo::new(&values) {
                    Ok(t) => {
                        self.add_trait(t);
                        Ok(false)
                    },
                    Err(_) => Err(ParseError::Arity { record: RecordKind::Trait, line }),
                }
            },
            LineKind::Node => {
                let values = extract_naturals(tokens, 1);
                match NodeInfo::new(&values) {
                    Ok(n) => {
                        self.add_node(n);
                        Ok(false)
                    },
                    Err(RecordError::WrongLength) => Err(
                        ParseError::Arity { record: RecordKind::Node, line },
                    ),
                    Err(RecordError::UnknownKind) => Err(ParseError::UnknownNodeKind { line }),
                }
            },
            LineKind::Gene => {
                let values = extract_numbers(tokens, 1);
                match GeneInfo::new(&values) {
                    Ok(g) => {
                        self.add_gene(g);
                        Ok(false)
                    },
                    Err(_) => Err(ParseError::Arity { record: RecordKind::Gene, line }),
                }
            },
            LineKind::GenomeStart => {
                if Self::marks(tokens[1].natural(), self.organism.info.id) {
                    Ok(false)
                } else {
                    Err(ParseError::BoundaryMismatch { line })
                }
            },
            LineKind::GenomeEnd => {
                if Self::marks(tokens[1].natural(), self.organism.info.id) {
                    Ok(true)
                } else {
                    Err(ParseError::BoundaryMismatch { line })
                }
            },
            LineKind::Unrecognized => Err(ParseError::UnrecognizedLine { line }),
        }
    }

    /// Tells whether the reading of a boundary marker's id names the organism
    /// `id`. A marker whose id does not read names no organism.
    pub fn marks(reading: Option<u64>, id: u64) -> (r: bool)
        ensures
            r == (reading == Some(id)),
    {
        match reading {
            Some(x) => x == id,
            None => false,
        }
    }

    /// Hands out the organism gathered so far.
    pub fn finish(self) -> (o: ParsedOrganism)
        ensures
            o@ == self@,
    {
        self.organism
    }
}

/// Reads the header from a line of eight tokens, strictly: a field that does
/// not read leaves no header. A line of another length has none either.
pub fn read_header(tokens: &Vec<Token>) -> (r: Option<OrganismInfo>)
    ensures
        r == header_of(tokens@),
{
    if tokens.len() != 8 {
        return None;
    }
    let id = tokens[2].tagged_natural();
    OrganismInfo::from_readings(id, tokens[4].number, tokens[6].number)
}

/// Reads a whole dump, given line by line as tokens. Reading ends with the
/// closing marker; lines after it are not looked at. A dump without a closing
/// marker yields what was gathered up to its last line.
pub fn parse_organism(lines: &Vec<Vec<Token>>) -> (r: Result<ParsedOrganism, ParseError>)
    ensures
        match r {
            Ok(o) => parse_lines(token_lines(lines@)) == Ok::<OrganismModel, ParseError>(o@)
                && o.well_formed(),
            Err(e) => parse_lines(token_lines(lines@)) == Err::<OrganismModel, ParseError>(e),
        },
{
    let mut builder = GenomeBuilder::new();
    let mut i: usize = 0;
    while i < lines.len()
        invariant
            i <= lines.len(),
            builder@.well_formed(),
            run(builder@, token_lines(lines@), i as int) == parse_lines(token_lines(lines@)),
        decreases lines.len() - i,
    {
        match builder.feed(&lines[i], i + 1) {
            Err(e) => {
                return Err(e);
            },
            Ok(done) => {
                if done {
                    return Ok(builder.finish());
                }
            },
        }
        i = i + 1;
    }
    Ok(builder.finish())
}

impl ParsedOrganism {
    /// Whether the organism's content is well formed.
    pub open spec fn well_formed(&self) -> bool {
        self@.well_formed()
    }

    /// Puts an organism together from its parts. Of several traits with one
    /// id, and of several nodes with one id and trait id, the first stays.
    pub fn new(
        info: OrganismInfo,
        traits: Vec<TraitInfo>,
        nodes: Vec<NodeInfo>,
        genes: Vec<GeneInfo>,
    ) -> (o: ParsedOrganism)
        ensures
            o@.info == info,
            o@.traits == distinct_traits(trait_models(traits@)),
            o@.nodes == distinct_nodes(nodes@),
            o@.genes == genes@,
            (forall|i: int| 0 <= i < traits@.len() ==> (#[trigger] traits@[i]).well_formed())
                ==> o.well_formed(),
    {
        let mut builder = GenomeBuilder::new();
        builder.set_info(info);
        let ghost all = trait_models(traits@);
        let ghost sound = forall|k: int| 0 <= k < all.len() ==> (#[trigger] all[k]).params.len() == 8;
        let mut i: usize = 0;
        while i < traits.len()
            invariant
                i <= traits.len(),
                trait_models(traits@) == all,
                builder@.info == info,
                builder@.traits == distinct_traits(all.take(i as int)),
                builder@.nodes == Seq::<NodeInfo>::empty(),
                builder@.genes == Seq::<GeneInfo>::empty(),
                sound == (forall|k: int|
                    0 <= k < all.len() ==> (#[trigger] all[k]).params.len() == 8),
                sound ==> builder@.well_formed(),
            decreases traits.len() - i,
        {
            let t = traits[i].duplicate();
            proof {
                assert(all.take(i + 1).drop_last() == all.take(i as int));
                assert(all[i as int].params.len() == 8 ==> t.well_formed());
            }
            builder.add_trait(t);
            i = i + 1;
        }
        proof {
            assert(all.take(i as int) == all);
        }
        let mut j: usize = 0;
        while j < nodes.len()
            invariant
                j <= nodes.len(),
                builder@.info == info,
                builder@.traits == distinct_traits(all),
                builder@.nodes == distinct_nodes(nodes@.take(j as int)),
                builder@.genes == Seq::<GeneInfo>::empty(),
                sound ==> builder@.well_formed(),
            decreases nodes.len() - j,
        {
            proof {
                assert(nodes@.take(j + 1).drop_last() == nodes@.take(j as int));
            }
            builder.add_node(nodes[j]);
            j = j + 1;
        }
        proof {
            assert(nodes@.take(j as int) == nodes@);
        }
        let mut o = builder.finish();
        o.genes = genes;
        o
    }
}

} // verus!
