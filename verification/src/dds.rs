//! The DDS types that the action layer carries through without looking inside.

use vstd::prelude::*;

verus! {

/// `rustdds::dds::ReadError`: why a read from DDS failed.
#[verifier::external_type_specification]
#[verifier::external_body]
pub struct ExReadError(rustdds::dds::ReadError);

/// `rustdds::dds::WriteError`: why a write to DDS failed. Some of its variants
/// hand back the data that could not be written.
#[verifier::external_type_specification]
#[verifier::external_body]
#[verifier::reject_recursive_types(D)]
pub struct ExWriteError<D>(rustdds::dds::WriteError<D>);

/// `rustdds::QosPolicies`: the quality-of-service settings of one DDS endpoint.
#[verifier::external_type_specification]
#[verifier::external_body]
pub struct ExQosPolicies(rustdds::QosPolicies);

/// `QosPolicies::clone`, which the derive on the rustdds struct wrote: it
/// clones each policy, so the copy holds what `qos` holds.
pub assume_specification[ <rustdds::QosPolicies as Clone>::clone ](
    qos: &rustdds::QosPolicies,
) -> (copy: rustdds::QosPolicies)
    ensures
        copy == *qos,
;

/// `rustdds::Timestamp`: the time stamp that DDS puts on a sample.
#[verifier::external_type_specification]
#[verifier::external_body]
pub struct ExTimestamp(rustdds::Timestamp);

} // verus!
