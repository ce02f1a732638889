//! Error taxonomy of the decoder.
use vstd::prelude::*;

verus! {

/// Declared shape of a stream, as carried by its options row.
#[derive(Debug, Clone, Copy, PartialEq, Eq, Structural)]
pub enum PhysicalStreamType {
    Unspecified,
    Triples,
    Quads,
    Graphs,
}

/// Position of a term inside a triple or quad.
#[derive(Debug, Clone, Copy, PartialEq, Eq, Structural)]
pub enum TermLocation {
    Subject,
    Predicate,
    Object,
    Graph,
}

/// The three dictionaries of a stream.
#[derive(Debug, Clone, Copy, PartialEq, Eq, Structural)]
pub enum Table {
    NameTable,
    DatatypeTable,
    PrefixTable,
}

/// Row kinds whose admissibility depends on the physical stream type.
#[derive(Debug, Clone, Copy, PartialEq, Eq, Structural)]
pub enum MessageType {
    Quad,
    Triple,
    GraphStart,
    GraphEnd,
}

#[derive(Debug, Clone, Copy, PartialEq, Eq, Structural)]
pub enum LookupError {
    /// A read from a table of capacity zero.
    LookupFromEmptyTable,
    /// The resolved slot (first field) is out of range or was never written;
    /// the second field is the number of slots, slot 0 included.
    Missing(usize, usize),
    /// A write beyond the capacity (the field) of the table.
    LookupTableTooSmall(usize),
    /// Id 0 used where the lookup mode forbids it.
    InvalidLookupAction,
}

#[derive(Debug, Clone, Copy, PartialEq, Eq, Structural)]
pub enum PhysicalStreamError {
    IncorrectType { detected: PhysicalStreamType, incoming: MessageType },
    NotYetSet { detected: PhysicalStreamType, expected: MessageType },
    UnspecifiedStreamType,
}

#[derive(Debug, Clone, Copy, PartialEq, Eq, Structural)]
pub enum ConfigError {
    /// A physical type that is known but cannot be decoded (`Unspecified`).
    InvalidPhysicalType(PhysicalStreamType),
    /// A physical type number outside the enumeration.
    InvalidPhysicalNotSet(i32),
    TableToLarge { table: Table, set: u32, max: u32 },
    /// A row other than options arrived before the stream was configured.
    NotSet,
}

#[derive(Debug, Clone, Copy, PartialEq, Eq, Structural)]
pub enum DeserializeError {
    ConfigError(ConfigError),
    PhysicalStreamError(PhysicalStreamError),
    /// A position of a nested (RDF-star) triple is absent.
    MissingTermTermTriple(TermLocation),
    /// A position of a top-level triple or quad was never set.
    MissingTerm(TermLocation),
    LookupError(LookupError),
}

pub const MAX_NAME_TABLE_SIZE: u32 = 4096;
pub const MAX_PREFIX_TABLE_SIZE: u32 = 1024;
pub const MAX_DATATYPE_TABLE_SIZE: u32 = 256;

/// The error for a requested table size `set` against the cap `max`, if any.
pub open spec fn table_check(table: Table, set: u32, max: u32) -> Option<ConfigError> {
    if set > max {
        Some(ConfigError::TableToLarge { table, set, max })
    } else {
        None
    }
}

impl ConfigError {
    pub fn name_table(set: u32) -> (r: Option<ConfigError>)
        ensures
            r == table_check(Table::NameTable, set, MAX_NAME_TABLE_SIZE),
    {
        let max = MAX_NAME_TABLE_SIZE;
        if set > max {
            Some(ConfigError::TableToLarge { table: Table::NameTable, set, max })
        } else {
            None
        }
    }

    pub fn prefix_table(set: u32) -> (r: Option<ConfigError>)
        ensures
            r == table_check(Table::PrefixTable, set, MAX_PREFIX_TABLE_SIZE),
    {
        let max = MAX_PREFIX_TABLE_SIZE;
        if set > max {
            Some(ConfigError::TableToLarge { table: Table::PrefixTable, set, max })
        } else {
            None
        }
    }

    pub fn datatype_table(set: u32) -> (r: Option<ConfigError>)
        ensures
            r == table_check(Table::DatatypeTable, set, MAX_DATATYPE_TABLE_SIZE),
    {
        let max = MAX_DATATYPE_TABLE_SIZE;
        if set > max {
            Some(ConfigError::TableToLarge { table: Table::DatatypeTable, set, max })
        } else {
            None
        }
    }
}

} // verus!
