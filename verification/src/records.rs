//! The records of a genome dump: the organism's header, its traits, nodes
//! and genes. Each record is built from the numeric values extracted from one
//! line, and only from a run of exactly the right length.

use vstd::prelude::*;
use crate::number::Single;

verus! {

/// The pattern of minus one, the fitness of an organism whose header was not
/// read yet.
pub const UNSET_FITNESS_BITS: u32 = 0xBF80_0000;

/// The pattern of one hundred, the error of an organism whose header was not
/// read yet.
pub const UNSET_ERROR_BITS: u32 = 0x42C8_0000;

/// Why a record could not be built from a run of values.
#[derive(Clone, Copy, Debug, PartialEq, Eq, Structural)]
pub enum RecordError {
    /// The run does not have the length that the record asks for.
    WrongLength,
    /// The kind code of a node is none of 0, 1, 2, 3.
    UnknownKind,
}

/// Identity and quality of one organism.
#[derive(Clone, Copy, Debug, PartialEq, Eq, Structural)]
pub struct OrganismInfo {
    pub id: u64,
    pub fitness: Single,
    pub error: Single,
}

impl OrganismInfo {
    /// The value that stands for "no header read yet".
    pub open spec fn unset() -> OrganismInfo {
        OrganismInfo {
            id: u64::MAX,
            fitness: Single { bits: UNSET_FITNESS_BITS },
            error: Single { bits: UNSET_ERROR_BITS },
        }
    }

    /// The header made of three strict readings; none as soon as one of them
    /// failed.
    pub open spec fn spec_from_readings(
        id: Option<u64>,
        fitness: Option<Single>,
        error: Option<Single>,
    ) -> Option<OrganismInfo> {
        if id.is_some() && fitness.is_some() && error.is_some() {
            Some(OrganismInfo { id: id.unwrap(), fitness: fitness.unwrap(), error: error.unwrap() })
        } else {
            None
        }
    }

    /// Builds the header from the strict readings of its three fields.
    pub fn from_readings(id: Option<u64>, fitness: Option<Single>, error: Option<Single>) -> (r:
        Option<OrganismInfo>)
        ensures
            r == Self::spec_from_readings(id, fitness, error),
    {
        match (id, fitness, error) {
            (Some(id), Some(fitness), Some(error)) => Some(OrganismInfo { id, fitness, error }),
            _ => None,
        }
    }
}

impl Default for OrganismInfo {
    fn default() -> (r: OrganismInfo)
        ensures
            r == OrganismInfo::unset(),
    {
        OrganismInfo {
            id: u64::MAX,
            fitness: Single { bits: UNSET_FITNESS_BITS },
            error: Single { bits: UNSET_ERROR_BITS },
        }
    }
}

/// A bundle of eight parameters, known by its id.
#[derive(Clone, Debug)]
pub struct TraitInfo {
    pub id: u64,
    pub params: Vec<Single>,
}

/// The mathematical content of a `TraitInfo`.
pub struct TraitModel {
    pub id: u64,
    pub params: Seq<Single>,
}

impl View for TraitInfo {
    type V = TraitModel;

    open spec fn view(&self) -> TraitModel {
        TraitModel { id: self.id, params: self.params@ }
    }
}

/// The trait that nine values describe: the first, truncated, is the id; the
/// other eight are the parameters.
pub open spec fn trait_of(values: Seq<Single>) -> TraitModel
    recommends
        values.len() == 9,
{
    TraitModel { id: values[0].spec_truncate(), params: values.subrange(1, 9) }
}

impl TraitInfo {
    /// A trait carries exactly eight parameters.
    pub open spec fn well_formed(&self) -> bool {
        self.params@.len() == 8
    }

    /// Builds a trait from exactly nine values.
    pub fn new(values: &Vec<Single>) -> (r: Result<TraitInfo, RecordError>)
        ensures
            match r {
                Ok(t) => values@.len() == 9 && t@ == trait_of(values@) && t.well_formed(),
                Err(e) => values@.len() != 9 && e == RecordError::WrongLength,
            },
    {
        if values.len() != 9 {
            return Err(RecordError::WrongLength);
        }
        let mut params: Vec<Single> = Vec::new();
        let mut i: usize = 1;
        while i < 9
            invariant
                1 <= i <= 9,
                values@.len() == 9,
                params@ == values@.subrange(1, i as int),
            decreases 9 - i,
        {
            params.push(values[i]);
            i = i + 1;
        }
        Ok(TraitInfo { id: values[0].truncate(), params })
    }

    /// A copy of the trait.
    pub fn duplicate(&self) -> (r: TraitInfo)
        ensures
            r@ == self@,
    {
        let mut params: Vec<Single> = Vec::new();
        let mut i: usize = 0;
        while i < self.params.len()
            invariant
                i <= self.params.len(),
                params@ == self.params@.take(i as int),
            decreases self.params.len() - i,
        {
            params.push(self.params[i]);
            i = i + 1;
        }
        proof {
            assert(params@ =~= self.params@);
        }
        TraitInfo { id: self.id, params }
    }

    /// Two traits with one id are the same entity, whatever their
    /// parameters.
    pub fn same_entity(&self, other: &TraitInfo) -> (r: bool)
        ensures
            r == (self.id == other.id),
    {
        self.id == other.id
    }
}

/// The role of a node in the network.
#[derive(Clone, Copy, Debug, PartialEq, Eq, Structural, Hash)]
pub enum NodeType {
    Bias,
    Sensor,
    Output,
    Hidden,
}

impl NodeType {
    /// The role that a kind code stands for.
    pub open spec fn spec_from_code(code: u64) -> Option<NodeType> {
        if code == 0 {
            Some(NodeType::Bias)
        } else if code == 1 {
            Some(NodeType::Sensor)
        } else if code == 2 {
            Some(NodeType::Output)
        } else if code == 3 {
            Some(NodeType::Hidden)
        } else {
            None
        }
    }

    /// The kind code of a role.
    pub open spec fn spec_code(self) -> u64 {
        match self {
            NodeType::Bias => 0,
            NodeType::Sensor => 1,
            NodeType::Output => 2,
            NodeType::Hidden => 3,
        }
    }

    /// Reads a kind code.
    pub fn from_code(code: u64) -> (r: Option<NodeType>)
        ensures
            r == Self::spec_from_code(code),
            r.is_some() <==> code <= 3,
    {
        if code == 0 {
            Some(NodeType::Bias)
        } else if code == 1 {
            Some(NodeType::Sensor)
        } else if code == 2 {
            Some(NodeType::Output)
        } else if code == 3 {
            Some(NodeType::Hidden)
        } else {
            None
        }
    }

    /// The kind code of the role.
    pub fn code(self) -> (r: u64)
        ensures
            r == self.spec_code(),
            Self::spec_from_code(r) == Some(self),
    {
        match self {
            NodeType::Bias => 0,
            NodeType::Sensor => 1,
            NodeType::Output => 2,
            NodeType::Hidden => 3,
        }
    }
}

/// A unit of the network.
#[derive(Clone, Copy, Debug, PartialEq, Eq, Structural)]
pub struct NodeInfo {
    pub id: u64,
    pub trait_id: u64,
    pub type_: NodeType,
}

/// The node that three values describe: id, trait id, kind code.
pub open spec fn node_of(values: Seq<u64>) -> NodeInfo
    recommends
        values.len() == 3,
        values[2] <= 3,
{
    NodeInfo {
        id: values[0],
        trait_id: values[1],
        type_: NodeType::spec_from_code(values[2]).unwrap(),
    }
}

impl NodeInfo {
    /// Builds a node from exactly three values, the last of them a kind
    /// code.
    pub fn new(values: &Vec<u64>) -> (r: Result<NodeInfo, RecordError>)
        ensures
            match r {
                Ok(n) => values@.len() == 3 && values@[2] <= 3 && n == node_of(values@),
                Err(RecordError::WrongLength) => values@.len() != 3,
                Err(RecordError::UnknownKind) => values@.len() == 3 && values@[2] > 3,
            },
    {
        if values.len() != 3 {
            return Err(RecordError::WrongLength);
        }
        match NodeType::from_code(values[2]) {
            Some(type_) => Ok(NodeInfo { id: values[0], trait_id: values[1], type_ }),
            None => Err(RecordError::UnknownKind),
        }
    }

    /// Two nodes with one id and one trait id are the same entity, whatever
    /// their roles.
    pub open spec fn spec_same_entity(self, other: NodeInfo) -> bool {
        self.id == other.id && self.trait_id == other.trait_id
    }

    /// Tells whether two nodes are the same entity.
    pub fn same_entity(&self, other: &NodeInfo) -> (r: bool)
        ensures
            r == self.spec_same_entity(*other),
    {
        self.id == other.id && self.trait_id == other.trait_id
    }
}

/// A connection between two nodes.
#[derive(Clone, Copy, Debug, PartialEq, Eq, Structural)]
pub struct GeneInfo {
    pub trait_id: u64,
    pub in_node_id: u64,
    pub out_node_id: u64,
    pub weight: Single,
    pub is_recurrent: bool,
    pub innovation_num: u64,
    pub mutation_num: Single,
    pub enable: bool,
}

/// The gene that eight values describe: trait id, source node, target node,
/// weight, recurrent flag, innovation number, mutation number, enable flag.
/// Ids are truncated values; a flag is set where its value exceeds one half.
pub open spec fn gene_of(values: Seq<Single>) -> GeneInfo
    recommends
        values.len() == 8,
{
    GeneInfo {
        trait_id: values[0].spec_truncate(),
        in_node_id: values[1].spec_truncate(),
        out_node_id: values[2].spec_truncate(),
        weight: values[3],
        is_recurrent: values[4].spec_exceeds_half(),
        innovation_num: values[5].spec_truncate(),
        mutation_num: values[6],
        enable: values[7].spec_exceeds_half(),
    }
}

impl GeneInfo {
    /// Builds a gene from exactly eight values.
    pub fn new(values: &Vec<Single>) -> (r: Result<GeneInfo, RecordError>)
        ensures
            match r {
                Ok(g) => values@.len() == 8 && g == gene_of(values@),
                Err(e) => values@.len() != 8 && e == RecordError::WrongLength,
            },
    {
        if values.len() != 8 {
            return Err(RecordError::WrongLength);
        }
        Ok(
            GeneInfo {
                trait_id: values[0].truncate(),
                in_node_id: values[1].truncate(),
                out_node_id: values[2].truncate(),
                weight: values[3],
                is_recurrent: values[4].exceeds_half(),
                innovation_num: values[5].truncate(),
                mutation_num: values[6],
                enable: values[7].exceeds_half(),
            },
        )
    }
}

} // verus!
