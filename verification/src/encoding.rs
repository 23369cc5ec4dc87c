//! Encoding the plan of a stage for executors, and what is trusted of the
//! `datafusion-proto` crate about it.
use datafusion::error::DataFusionError;
use datafusion_proto::protobuf::PhysicalPlanNode;
use vstd::prelude::*;

use crate::error::{of_collaborator, BallistaError};

verus! {

/// The error type of the `datafusion` crate.
#[verifier::external_type_specification]
#[verifier::external_body]
pub struct ExDataFusionError(datafusion::error::DataFusionError);

/// A physical plan in the form in which the `datafusion-proto` crate sends it.
#[verifier::external_type_specification]
#[verifier::external_body]
pub struct ExPhysicalPlanNode(datafusion_proto::protobuf::PhysicalPlanNode);

/// Whether `bytes` is an encoding of `node`. A plan may have several: its maps
/// are written in the order in which a hash map is walked.
pub uninterp spec fn encodes_node(node: PhysicalPlanNode, bytes: Seq<u8>) -> bool;

/// `AsExecutionPlan::try_encode` of the `datafusion-proto` crate for a
/// `PhysicalPlanNode`, into a buffer of its own: the bytes that it writes are
/// an encoding of the node. It fails only for want of room in the buffer, and a
/// `Vec` has room for `isize::MAX` bytes: then every encoding of the node is
/// longer than that. Which of its encodings a node gets is left open.
#[verifier::external_body]
fn encode_node(node: &PhysicalPlanNode) -> (encoded: Result<Vec<u8>, DataFusionError>)
    ensures
        encoded matches Ok(bytes) ==> encodes_node(*node, bytes@),
        encoded is Err ==> fits_nowhere(*node),
{
    let mut buffer: Vec<u8> = Vec::new();
    datafusion_proto::physical_plan::AsExecutionPlan::try_encode(node, &mut buffer)?;
    Ok(buffer)
}

/// Whether a node has no encoding that a `Vec` could hold.
pub open spec fn fits_nowhere(node: PhysicalPlanNode) -> bool {
    forall|bytes: Seq<u8>| #[trigger] encodes_node(node, bytes) ==> bytes.len() > isize::MAX
}

/// Encodes a plan that was brought into the form in which it is sent. An error
/// of doing that is the outcome; so is an error of encoding, which comes only if
/// no encoding of the plan fits in memory.
pub fn encode_plan(plan: Result<PhysicalPlanNode, DataFusionError>) -> (encoded: Result<
    Vec<u8>,
    BallistaError<DataFusionError>,
>)
    ensures
        plan matches Err(error) ==> encoded == Err::<Vec<u8>, BallistaError<DataFusionError>>(
            BallistaError::Other(error),
        ),
        plan matches Ok(node) ==> match encoded {
            Ok(bytes) => encodes_node(node, bytes@),
            Err(error) => error is Other && fits_nowhere(node),
        },
{
    match plan {
        Ok(node) => of_collaborator(encode_node(&node)),
        Err(error) => Err(BallistaError::Other(error)),
    }
}

} // verus!
