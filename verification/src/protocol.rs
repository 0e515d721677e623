//! The four-operation external-scaler protocol.
//!
//! The transport decodes each request into the plain shapes below and hands
//! it here, together with the outcome of the query the request named (the
//! binary runs the query, since that is backend I/O). The handlers shape the
//! response exactly as the protocol demands:
//!
//! * `get_metric_spec` always returns one spec with target size 1;
//! * `get_metrics` returns one metric value: the reduced metric when the
//!   metadata carries a query, `0` when it does not;
//! * `is_active` reports activity exactly when the reduced metric is
//!   strictly positive;
//! * `stream_is_active` always fails as unimplemented.

use vstd::prelude::*;

use crate::reducer::QueryOutcome;
use crate::reducer::evaluate;
use crate::reducer::spec_evaluate;
use crate::resilience::FatalError;

verus! {

/// A scale target: its name, namespace, and caller-supplied scaler metadata
/// as ordered key/value pairs.
#[derive(Debug, PartialEq)]
pub struct ScaledObjectRef {
    pub name: String,
    pub namespace: String,
    pub scaler_metadata: Vec<(String, String)>,
}

/// A metrics-fetch request: the target plus the metric name to report under.
#[derive(Debug, PartialEq)]
pub struct GetMetricsRequest {
    pub scaled_object_ref: Option<ScaledObjectRef>,
    pub metric_name: String,
}

/// The static description of the one metric this adapter exposes.
#[derive(Debug, PartialEq)]
pub struct MetricSpec {
    pub metric_name: String,
    pub target_size: i64,
}

#[derive(Debug, PartialEq)]
pub struct GetMetricSpecResponse {
    pub metric_specs: Vec<MetricSpec>,
}

/// The sole unit of scaling information returned to the caller.
#[derive(Debug, PartialEq)]
pub struct MetricValue {
    pub metric_name: String,
    pub metric_value: i64,
}

#[derive(Debug, PartialEq)]
pub struct GetMetricsResponse {
    pub metric_values: Vec<MetricValue>,
}

#[derive(Clone, Copy, Debug, PartialEq, Eq)]
pub struct IsActiveResponse {
    pub result: bool,
}

/// The handle a streaming reply would be built from; never produced, since
/// the streaming operation is unimplemented.
#[derive(Clone, Copy, Debug, PartialEq, Eq)]
pub struct IsActiveStream {}

/// A protocol-level failure reported to the caller.
#[derive(Clone, Copy, Debug, PartialEq, Eq)]
pub enum RpcStatus {
    /// The operation is not provided by this adapter.
    Unimplemented,
}

/// Metadata as a mathematical value: a sequence of key/value pairs.
pub open spec fn metadata_view(md: Vec<(String, String)>) -> Seq<(Seq<char>, Seq<char>)> {
    md@.map_values(|pair: (String, String)| (pair.0@, pair.1@))
}

/// The value under the first pair whose key is `key`, if any.
pub open spec fn spec_lookup(md: Seq<(Seq<char>, Seq<char>)>, key: Seq<char>) -> Option<Seq<char>>
    decreases md.len(),
{
    if md.len() == 0 {
        None
    } else if md[0].0 == key {
        Some(md[0].1)
    } else {
        spec_lookup(md.drop_first(), key)
    }
}

/// The query string the target's metadata carries, if any.
pub open spec fn spec_query_of(target: ScaledObjectRef) -> Option<Seq<char>> {
    spec_lookup(metadata_view(target.scaler_metadata), "query"@)
}

/// Find the first value stored under `key` in the metadata.
pub fn lookup_metadata<'a>(md: &'a Vec<(String, String)>, key: &String) -> (r: Option<
    &'a String,
>)
    ensures
        match r {
            Some(v) => spec_lookup(metadata_view(*md), key@) == Some(v@),
            None => spec_lookup(metadata_view(*md), key@) is None,
        },
{
    let n = md.len();
    let mut i: usize = 0;
    proof {
        assert(metadata_view(*md).skip(0) =~= metadata_view(*md));
    }
    while i < n
        invariant
            0 <= i <= n,
            n == md@.len(),
            spec_lookup(metadata_view(*md), key@) == spec_lookup(
                metadata_view(*md).skip(i as int),
                key@,
            ),
        decreases n - i,
    {
        proof {
            assert(metadata_view(*md).skip(i as int)[0] == (md@[i as int].0@, md@[i as int].1@));
        }
        if md[i].0 == *key {
            return Some(&md[i].1);
        }
        proof {
            assert(metadata_view(*md).skip(i as int).drop_first() =~= metadata_view(
                *md,
            ).skip(i + 1));
        }
        i = i + 1;
    }
    proof {
        assert(metadata_view(*md).skip(n as int) =~= Seq::<(Seq<char>, Seq<char>)>::empty());
    }
    None
}

/// The query string of a scale target, read from its metadata under the key
/// `"query"`.
pub fn query_of(target: &ScaledObjectRef) -> (r: Option<&String>)
    ensures
        match r {
            Some(q) => spec_query_of(*target) == Some(q@),
            None => spec_query_of(*target) is None,
        },
{
    let key: String = "query".to_owned();
    lookup_metadata(&target.scaler_metadata, &key)
}

/// The one concrete implementation of the external-scaler protocol.
pub struct ScalerService {}

impl ScalerService {
    /// The static metric description: always exactly one spec, named after
    /// the target, with target size fixed at 1. Pure; never fails.
    pub fn get_metric_spec(&self, target: &ScaledObjectRef) -> (r: GetMetricSpecResponse)
        ensures
            r.metric_specs@.len() == 1,
            r.metric_specs@[0].metric_name@ == target.name@,
            r.metric_specs@[0].target_size == 1,
    {
        let spec = MetricSpec { metric_name: target.name.clone(), target_size: 1 };
        let mut specs: Vec<MetricSpec> = Vec::new();
        specs.push(spec);
        GetMetricSpecResponse { metric_specs: specs }
    }

    /// Report the reduced metric under the requested name. `outcome` is what
    /// running the metadata's query produced, `None` exactly when the
    /// metadata carries no query; an absent query is a soft failure that
    /// reports `0`. Only a fatal outcome makes the operation fail.
    pub fn get_metrics(&self, request: &GetMetricsRequest, outcome: Option<&QueryOutcome>) -> (r:
        Result<GetMetricsResponse, FatalError>)
        requires
            request.scaled_object_ref matches Some(target),
            (outcome is Some) <==> (request.scaled_object_ref matches Some(target)
                && spec_query_of(target) is Some),
            outcome matches Some(o) ==> (*o matches QueryOutcome::Rows(rows) ==> rows@.len()
                <= i64::MAX),
        ensures
            outcome is None ==> (r matches Ok(resp) && resp.metric_values@.len() == 1
                && resp.metric_values@[0].metric_name@ == request.metric_name@
                && resp.metric_values@[0].metric_value == 0),
            outcome matches Some(o) ==> match spec_evaluate(*o) {
                Ok(v) => r matches Ok(resp) && resp.metric_values@.len() == 1
                    && resp.metric_values@[0].metric_name@ == request.metric_name@
                    && resp.metric_values@[0].metric_value == v,
                Err(e) => r matches Err(actual) && actual == e,
            },
    {
        let metric_value: i64 = match outcome {
            None => 0,
            Some(o) => {
                match evaluate(o) {
                    Ok(v) => v,
                    Err(e) => {
                        return Err(e);
                    },
                }
            },
        };
        let mut values: Vec<MetricValue> = Vec::new();
        values.push(
            MetricValue { metric_name: request.metric_name.clone(), metric_value: metric_value },
        );
        Ok(GetMetricsResponse { metric_values: values })
    }

    /// Report whether the target is active: true exactly when the metadata
    /// carries a query and its reduced metric is strictly positive. An absent
    /// query and a soft query failure both report inactive; only a fatal
    /// outcome makes the operation fail.
    pub fn is_active(&self, target: &ScaledObjectRef, outcome: Option<&QueryOutcome>) -> (r: Result<
        IsActiveResponse,
        FatalError,
    >)
        requires
            (outcome is Some) <==> (spec_query_of(*target) is Some),
            outcome matches Some(o) ==> (*o matches QueryOutcome::Rows(rows) ==> rows@.len()
                <= i64::MAX),
        ensures
            outcome is None ==> (r matches Ok(resp) && !resp.result),
            outcome matches Some(o) ==> match spec_evaluate(*o) {
                Ok(v) => r matches Ok(resp) && (resp.result <==> v > 0),
                Err(e) => r matches Err(actual) && actual == e,
            },
    {
        let metric_value: i64 = match outcome {
            None => 0,
            Some(o) => {
                match evaluate(o) {
                    Ok(v) => v,
                    Err(e) => {
                        return Err(e);
                    },
                }
            },
        };
        Ok(IsActiveResponse { result: metric_value > 0 })
    }

    /// The streaming variant is not provided: it always fails as
    /// unimplemented and never produces a stream.
    pub fn stream_is_active(&self, _target: &ScaledObjectRef) -> (r: Result<
        IsActiveStream,
        RpcStatus,
    >)
        ensures
            r matches Err(status) && status == RpcStatus::Unimplemented,
    {
        Err(RpcStatus::Unimplemented)
    }
}

} // verus!
