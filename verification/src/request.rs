//! A request in the making, as far as its config goes.

use crate::config::{Config, ConfigBuilder, RequestLevelConfig};
use std::marker::PhantomData;
use vstd::prelude::*;

verus! {

/// The request builder of the `http` crate.
#[verifier::external_type_specification]
#[verifier::external_body]
pub struct ExHttpRequestBuilder(http::request::Builder);

/// A request in the making: the builder of the `http` crate that gathers
/// its method, URI and headers, the config of the agent that will run it,
/// and the config of its own, once it has one. `Any` marks whether the
/// request is one with a body.
pub struct RequestBuilder<Any> {
    builder: http::request::Builder,
    agent_config: Config,
    request_config: Option<RequestLevelConfig>,
    _ph: PhantomData<Any>,
}

/// The scope of a builder that changes the config of one request.
pub struct RequestScope<Any>(pub RequestBuilder<Any>);

impl<Any> RequestBuilder<Any> {
    /// The builder of the `http` crate.
    pub closed spec fn http_builder(self) -> http::request::Builder {
        self.builder
    }

    /// The config of the agent.
    pub closed spec fn agent_config(self) -> Config {
        self.agent_config
    }

    /// The config of the request's own, if it has one.
    pub closed spec fn request_config(self) -> Option<Config> {
        match self.request_config {
            Some(level) => Some(level.0),
            None => None,
        }
    }

    /// The config under which the request runs: its own where it has one,
    /// and the agent's otherwise.
    pub open spec fn effective_config(self) -> Config {
        match self.request_config() {
            Some(c) => c,
            None => self.agent_config(),
        }
    }

    /// A request in the making for an agent with `agent_config`; it has no
    /// config of its own yet.
    pub fn new(agent_config: Config, builder: http::request::Builder) -> (r: Self)
        ensures
            r.http_builder() == builder,
            r.agent_config() == agent_config,
            r.request_config() is None,
    {
        RequestBuilder { builder, agent_config, request_config: None, _ph: PhantomData }
    }

    /// The config under which the request runs.
    pub fn request_level_config(&self) -> (r: &Config)
        ensures
            *r == self.effective_config(),
    {
        match &self.request_config {
            Some(level) => &level.0,
            None => &self.agent_config,
        }
    }

    /// Takes the request apart: the builder of the `http` crate, the config
    /// of the agent, and the config of the request's own, if it has one.
    pub fn into_parts(self) -> (r: (http::request::Builder, Config, Option<Config>))
        ensures
            r.0 == self.http_builder(),
            r.1 == self.agent_config(),
            r.2 == self.request_config(),
    {
        let RequestBuilder { builder, agent_config, request_config, _ph } = self;
        match request_config {
            Some(level) => (builder, agent_config, Some(level.0)),
            None => (builder, agent_config, None),
        }
    }

    /// Puts a request together again of the parts that
    /// [`RequestBuilder::into_parts`] gives: the way in which a method, a URI
    /// or a header is set on the builder of the `http` crate.
    pub fn from_parts(
        builder: http::request::Builder,
        agent_config: Config,
        request_config: Option<Config>,
    ) -> (r: Self)
        ensures
            r.http_builder() == builder,
            r.agent_config() == agent_config,
            r.request_config() == request_config,
    {
        let request_config = match request_config {
            Some(c) => Some(RequestLevelConfig(c)),
            None => None,
        };
        RequestBuilder { builder, agent_config, request_config, _ph: PhantomData }
    }

    /// Starts to change the config of this request. The builder starts from
    /// the config under which the request runs: the first time, a copy of
    /// the agent's.
    pub fn config(self) -> (r: ConfigBuilder<RequestScope<Any>>)
        ensures
            r.config == self.effective_config(),
            r.scope.0 == self,
    {
        let config = self.request_level_config().clone();
        ConfigBuilder::new(RequestScope(self), config)
    }
}

impl<Any> ConfigBuilder<RequestScope<Any>> {
    /// Finalize the config: the request takes it as its own. The agent's
    /// config, and the request otherwise, stay as they are.
    pub fn build(self) -> (r: RequestBuilder<Any>)
        ensures
            r.request_config() == Some(self.config),
            r.effective_config() == self.config,
            r.agent_config() == self.scope.0.agent_config(),
            r.http_builder() == self.scope.0.http_builder(),
    {
        let ConfigBuilder { scope, config } = self;
        let RequestBuilder { builder, agent_config, request_config: _, _ph } = scope.0;
        RequestBuilder {
            builder,
            agent_config,
            request_config: Some(RequestLevelConfig(config)),
            _ph,
        }
    }
}

} // verus!
