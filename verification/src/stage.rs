//! The checks of a run, in the order in which they are made.

use vstd::prelude::*;

verus! {

/// One check of a run.
#[derive(Clone, Copy, Debug, PartialEq, Eq, Structural)]
pub enum Stage {
    /// The dataset, with its Extension schemas attached, is read as JSON.
    JsonSyntax,
    /// The dataset is held against the built-in CityJSON schemas.
    Schema,
    /// The dataset is held against each attached Extension schema.
    Extensions,
    /// Parents and children among the city objects refer to one another.
    ParentChildren,
    /// Every index in a geometry refers to a vertex that exists.
    VertexIndices,
    /// No vertex is listed twice.
    DuplicateVertices,
    /// Every root property is one the schemas know.
    ExtraRootProperties,
}

/// What a message of a stage means for the run.
#[derive(Clone, Copy, Debug, PartialEq, Eq, Structural)]
pub enum Severity {
    /// The run stops at this stage and the dataset is invalid.
    Error,
    /// The run goes on; the message is kept for the verdict.
    Warning,
}

/// How many stages a run has when none of them stops it.
pub const STAGE_COUNT: usize = 7;

/// How many stages, counted from the first, stop the run when they report.
pub const BLOCKING_COUNT: usize = 5;

/// The stage made at position `i`, counted from zero. Positions past the
/// last one name the last stage.
pub open spec fn stage_at(i: int) -> Stage {
    if i <= 0 {
        Stage::JsonSyntax
    } else if i == 1 {
        Stage::Schema
    } else if i == 2 {
        Stage::Extensions
    } else if i == 3 {
        Stage::ParentChildren
    } else if i == 4 {
        Stage::VertexIndices
    } else if i == 5 {
        Stage::DuplicateVertices
    } else {
        Stage::ExtraRootProperties
    }
}

/// The line printed above the outcome of a stage.
pub open spec fn heading_text(stage: Stage) -> Seq<char> {
    match stage {
        Stage::JsonSyntax => "=== JSON syntax ==="@,
        Stage::Schema => "=== CityJSON schemas ==="@,
        Stage::Extensions => "=== Extensions schemas ==="@,
        Stage::ParentChildren => "=== parent_children_consistency ==="@,
        Stage::VertexIndices => "=== wrong_vertex_index ==="@,
        Stage::DuplicateVertices => "=== duplicate_vertices (warnings) ==="@,
        Stage::ExtraRootProperties => "=== extra_root_properties (warnings) ==="@,
    }
}

impl Stage {
    /// The position of this stage in a run, counted from zero.
    pub open spec fn rank(self) -> int {
        match self {
            Stage::JsonSyntax => 0,
            Stage::Schema => 1,
            Stage::Extensions => 2,
            Stage::ParentChildren => 3,
            Stage::VertexIndices => 4,
            Stage::DuplicateVertices => 5,
            Stage::ExtraRootProperties => 6,
        }
    }

    /// Whether a message of this stage stops the run.
    pub open spec fn blocking(self) -> bool {
        self.rank() < BLOCKING_COUNT
    }

    /// The position of this stage in a run, counted from zero.
    pub fn position(self) -> (i: usize)
        ensures
            i == self.rank(),
            i < STAGE_COUNT,
            stage_at(i as int) == self,
    {
        match self {
            Stage::JsonSyntax => 0,
            Stage::Schema => 1,
            Stage::Extensions => 2,
            Stage::ParentChildren => 3,
            Stage::VertexIndices => 4,
            Stage::DuplicateVertices => 5,
            Stage::ExtraRootProperties => 6,
        }
    }

    /// The stage at position `i`, if a run has that many.
    pub fn at(i: usize) -> (stage: Option<Stage>)
        ensures
            stage == (if i < STAGE_COUNT {
                Some(stage_at(i as int))
            } else {
                None
            }),
            stage matches Some(s) ==> s.rank() == i,
    {
        if i == 0 {
            Some(Stage::JsonSyntax)
        } else if i == 1 {
            Some(Stage::Schema)
        } else if i == 2 {
            Some(Stage::Extensions)
        } else if i == 3 {
            Some(Stage::ParentChildren)
        } else if i == 4 {
            Some(Stage::VertexIndices)
        } else if i == 5 {
            Some(Stage::DuplicateVertices)
        } else if i == 6 {
            Some(Stage::ExtraRootProperties)
        } else {
            None
        }
    }

    /// What a message of this stage means: the first five stages report
    /// errors, the last two warnings.
    pub fn severity(self) -> (severity: Severity)
        ensures
            severity == (if self.blocking() {
                Severity::Error
            } else {
                Severity::Warning
            }),
    {
        match self {
            Stage::DuplicateVertices | Stage::ExtraRootProperties => Severity::Warning,
            _ => Severity::Error,
        }
    }

    /// The line printed above the outcome of this stage.
    pub fn heading(self) -> (line: &'static str)
        ensures
            line@ == heading_text(self),
    {
        match self {
            Stage::JsonSyntax => "=== JSON syntax ===",
            Stage::Schema => "=== CityJSON schemas ===",
            Stage::Extensions => "=== Extensions schemas ===",
            Stage::ParentChildren => "=== parent_children_consistency ===",
            Stage::VertexIndices => "=== wrong_vertex_index ===",
            Stage::DuplicateVertices => "=== duplicate_vertices (warnings) ===",
            Stage::ExtraRootProperties => "=== extra_root_properties (warnings) ===",
        }
    }
}

/// Positions and stages correspond one to one.
pub proof fn lemma_stage_positions(i: int)
    requires
        0 <= i < STAGE_COUNT,
    ensures
        stage_at(i).rank() == i,
{
}

} // verus!
