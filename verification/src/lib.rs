//! Promotes an environment behind a CloudFront distribution.
//!
//! A `POST /api/promote` names a distribution, the two buckets and the load balancer of the
//! environment that the distribution is to serve. The distribution keeps its identity, its
//! domains and its certificate; its origins and its routing are replaced by those of the
//! environment, under the version of the configuration that was read.
//!
//! - [`workflow`] decides, one event at a time, what is done next and what is answered.
//! - [`promotion`] computes the configuration that is sent.
//! - [`distribution`] holds the configuration, before and after.
//! - [`response`] holds the HTTP responses, and [`json`] the JSON text in them.
//! - [`promotion_laws`], [`response_laws`] and [`workflow_laws`] state what the results of each
//!   must be, and [`laws`] what holds of all of them together.
pub mod distribution;
pub mod error;
pub mod json;
pub mod laws;
pub mod promotion;
pub mod promotion_laws;
pub mod request;
pub mod response;
pub mod response_laws;
pub mod text;
pub mod workflow;
pub mod workflow_laws;
