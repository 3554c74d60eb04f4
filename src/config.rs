//! The configuration of a node health checker: where the node under test is
//! reached, and what it is expected to report.
use vstd::prelude::*;

verus! {

/// The port a node serves its metrics on, unless told otherwise.
pub const DEFAULT_METRICS_PORT: u16 = 9101;

/// The port a node serves its API on, unless told otherwise.
pub const DEFAULT_API_PORT: u16 = 8080;

/// The port validators talk to a node over, unless told otherwise.
pub const DEFAULT_NOISE_PORT: u16 = 6180;

/// The chain ID that a node reports.
pub const REPORTED_CHAIN_ID: u16 = 16;

/// The URL type of the `url` crate, carried through as an opaque value.
#[verifier::external_type_specification]
#[verifier::external_body]
pub struct ExUrl(url::Url);

/// Where a node is reached.
#[derive(Debug)]
pub struct NodeAddress {
    /// Target URL. This should include a scheme (e.g. http://).
    pub url: url::Url,
    /// Metrics port.
    pub metrics_port: u16,
    /// API port.
    pub api_port: u16,
    /// Validator communication port.
    pub noise_port: u16,
}

impl NodeAddress {
    /// The metrics port used when none is given.
    pub fn default_metrics_port() -> (r: u16)
        ensures
            r == DEFAULT_METRICS_PORT,
    {
        DEFAULT_METRICS_PORT
    }

    /// The API port used when none is given.
    pub fn default_api_port() -> (r: u16)
        ensures
            r == DEFAULT_API_PORT,
    {
        DEFAULT_API_PORT
    }

    /// The validator communication port used when none is given.
    pub fn default_noise_port() -> (r: u16)
        ensures
            r == DEFAULT_NOISE_PORT,
    {
        DEFAULT_NOISE_PORT
    }

    /// An address for `url` on the default ports.
    pub fn with_default_ports(url: url::Url) -> (r: Self)
        ensures
            r.url == url,
            r.metrics_port == DEFAULT_METRICS_PORT,
            r.api_port == DEFAULT_API_PORT,
            r.noise_port == DEFAULT_NOISE_PORT,
    {
        NodeAddress {
            url,
            metrics_port: Self::default_metrics_port(),
            api_port: Self::default_api_port(),
            noise_port: Self::default_noise_port(),
        }
    }
}

/// The arguments of the metric evaluators; `S` holds those of the state-sync
/// evaluator.
#[derive(Clone, Debug)]
pub struct EvaluatorArgs<S> {
    pub state_sync_evaluator_args: S,
}

/// The arguments of the runner; `B` holds those of the blocking runner.
#[derive(Clone, Debug)]
pub struct RunnerArgs<B> {
    pub blocking_runner_args: B,
}

/// A named configuration to test a node against.
#[derive(Debug)]
pub struct NodeConfiguration<S, B> {
    pub node_address: NodeAddress,
    /// The name shown to users for this configuration.
    pub configuration_name: String,
    /// The chain ID expected of the node; unknown until fetched if not given.
    pub chain_id: Option<u16>,
    /// The role type expected of the node (e.g. "full_node"); unknown until
    /// fetched if not given.
    pub role_type: Option<String>,
    /// The (metric) evaluators to use, e.g. state_sync, api.
    pub evaluators: Vec<String>,
    pub evaluator_args: EvaluatorArgs<S>,
    pub runner_args: RunnerArgs<B>,
}

impl<S, B> NodeConfiguration<S, B> {
    /// The expected role type, if known, as text.
    pub open spec fn role_type_text(&self) -> Option<Seq<char>> {
        match self.role_type {
            Some(r) => Some(r@),
            None => None,
        }
    }

    /// The expected chain ID. Only known after it was given or fetched.
    pub fn get_chain_id(&self) -> (r: u16)
        requires
            self.chain_id is Some,
        ensures
            r == self.chain_id->Some_0,
    {
        self.chain_id.unwrap()
    }

    /// The expected role type. Only known after it was given or fetched.
    pub fn get_role_type(&self) -> (r: &str)
        requires
            self.role_type is Some,
        ensures
            r@ == self.role_type_text()->Some_0,
    {
        self.role_type.as_ref().unwrap().as_str()
    }

    /// Records the chain ID and role type that the node reports: chain
    /// `REPORTED_CHAIN_ID`, role "full_node". Everything else is kept.
    pub fn fetch_additional_configuration(&mut self)
        ensures
            final(self).chain_id == Some(REPORTED_CHAIN_ID),
            final(self).role_type_text() == Some("full_node"@),
            final(self).node_address == old(self).node_address,
            final(self).configuration_name == old(self).configuration_name,
            final(self).evaluators == old(self).evaluators,
            final(self).evaluator_args == old(self).evaluator_args,
            final(self).runner_args == old(self).runner_args,
    {
        self.chain_id = Some(REPORTED_CHAIN_ID);
        self.role_type = Some("full_node".to_owned());
        proof {
            reveal_strlit("full_node");
        }
    }
}

} // verus!
