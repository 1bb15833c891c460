//! The request to promote an environment.
use vstd::prelude::*;

verus! {

/// What a caller asks for: the distribution, and the environment that it is to serve.
#[derive(Debug)]
pub struct DeployRequest {
    /// The distribution that is promoted.
    pub distribution_id: String,
    /// The origin access control under which the distribution reads both buckets.
    pub oac_id: String,
    /// The bucket of the host application.
    pub host_bucket_name: String,
    /// The bucket of the recipes application.
    pub recipes_bucket_name: String,
    /// The name of the load balancer in front of the services.
    pub alb_dns_name: String,
}

/// The texts of a [`DeployRequest`].
pub struct DeployRequestView {
    pub distribution_id: Seq<char>,
    pub oac_id: Seq<char>,
    pub host_bucket_name: Seq<char>,
    pub recipes_bucket_name: Seq<char>,
    pub alb_dns_name: Seq<char>,
}

impl View for DeployRequest {
    type V = DeployRequestView;

    open spec fn view(&self) -> DeployRequestView {
        DeployRequestView {
            distribution_id: self.distribution_id@,
            oac_id: self.oac_id@,
            host_bucket_name: self.host_bucket_name@,
            recipes_bucket_name: self.recipes_bucket_name@,
            alb_dns_name: self.alb_dns_name@,
        }
    }
}

} // verus!
