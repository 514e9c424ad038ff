use vstd::prelude::*;

use crate::client::ApifyClient;
use crate::locator::Method;
use crate::request::BaseBuilder;

verus! {

/// How a run was started.
#[derive(Debug, Default)]
pub struct Meta {
    pub origin: String,
    /// Present only when the run was started through the API.
    pub client_ip: Option<String>,
    pub user_agent: String,
}

/// The options a run was started with.
#[derive(Debug, Default)]
pub struct Options {
    pub build: String,
    pub timeout_secs: u64,
    pub memory_mbytes: u32,
    pub disk_mbytes: u32,
}

/// Requests about one actor run, identified as the caller wrote it.
#[derive(Debug)]
pub struct RunClient<'a> {
    pub apify_client: &'a ApifyClient,
    pub url_segment: String,
    pub identifier: String,
}

impl<'a> RunClient<'a> {
    pub fn new(apify_client: &'a ApifyClient, identifier: &str) -> (r: Self)
        ensures
            r.apify_client == apify_client,
            r.url_segment@ == "actor-runs"@,
            r.identifier@ == identifier@,
    {
        RunClient {
            apify_client,
            url_segment: String::from_str("actor-runs"),
            identifier: String::from_str(identifier),
        }
    }

    /// Reads the run, decoded as `T`.
    pub fn get<T>(&self) -> (r: BaseBuilder<'a, T>)
        ensures
            r.client == self.apify_client,
            r.url_segment == self.url_segment,
            r.identifier == Some(self.identifier),
            r.sub_resource is None,
            r.method == Method::Get,
            r.body is None,
            r.query_string@.len() == 0,
    {
        BaseBuilder::for_resource(
            self.apify_client,
            self.url_segment.clone(),
            self.identifier.clone(),
            None,
            Method::Get,
        )
    }
}

} // verus!
