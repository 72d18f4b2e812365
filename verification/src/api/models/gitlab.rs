//! Records of the downstream service.

use vstd::prelude::*;

verus! {

/// One pipeline, as the pipeline list reports it. Either member may be
/// missing.
#[derive(Debug, Clone, PartialEq, Eq)]
pub struct Pipeline {
    pub id: Option<i64>,
    pub sha: Option<String>,
}

/// What a pipeline record says, with its commit as a character sequence.
pub struct PipelineView {
    pub id: Option<i64>,
    pub sha: Option<Seq<char>>,
}

impl View for Pipeline {
    type V = PipelineView;

    open spec fn view(&self) -> PipelineView {
        PipelineView {
            id: self.id,
            sha: match self.sha {
                Some(sha) => Some(sha@),
                None => None,
            },
        }
    }
}

/// What a sequence of pipeline records says.
pub open spec fn pipeline_views(records: Seq<Pipeline>) -> Seq<PipelineView> {
    records.map_values(|p: Pipeline| p@)
}

} // verus!
