use vstd::prelude::*;

use crate::dataset::{DatasetClient, DatasetCollectionClient};
use crate::run::RunClient;

verus! {

/// The address of the platform's API.
pub open spec fn default_base_url() -> Seq<char> {
    "https://api.apify.com/v2"@
}

/// What every request of a client shares: the optional token, where the API
/// is, the base of the retry backoff, and whether to log requests.
#[derive(Debug)]
pub struct ApifyClient {
    pub optional_token: Option<String>,
    pub base_time_to_retry: u32,
    pub debug_log: bool,
    pub base_url: String,
}

impl ApifyClient {
    /// A client for the public API, retrying from a 500 ms base. Without a
    /// token, only reads of resources addressed by ID are possible.
    pub fn new(optional_token: Option<String>) -> (r: ApifyClient)
        ensures
            r.optional_token == optional_token,
            r.base_time_to_retry == 500,
            r.debug_log,
            r.base_url@ == default_base_url(),
    {
        ApifyClient {
            optional_token,
            base_time_to_retry: 500,
            debug_log: true,
            base_url: String::from_str("https://api.apify.com/v2"),
        }
    }

    /// Sets the token; nothing else changes.
    pub fn token(&mut self, token: String)
        ensures
            final(self).optional_token == Some(token),
            final(self).base_time_to_retry == old(self).base_time_to_retry,
            final(self).debug_log == old(self).debug_log,
            final(self).base_url == old(self).base_url,
    {
        self.optional_token = Some(token);
    }

    /// Requests about the run `id_or_name`.
    pub fn run(&self, id_or_name: &str) -> (r: RunClient<'_>)
        ensures
            r.apify_client == self,
            r.url_segment@ == "actor-runs"@,
            r.identifier@ == id_or_name@,
    {
        RunClient::new(self, id_or_name)
    }

    /// Requests about the dataset `id_or_name`.
    pub fn dataset(&self, id_or_name: &str) -> (r: DatasetClient<'_>)
        ensures
            r.apify_client == self,
            r.url_segment@ == "datasets"@,
            r.identifier@ == id_or_name@,
    {
        DatasetClient::new(self, id_or_name)
    }

    /// Requests about the collection of the token owner's datasets.
    pub fn datasets(&self) -> (r: DatasetCollectionClient<'_>)
        ensures
            r.apify_client == self,
            r.url_segment@ == "datasets"@,
    {
        DatasetCollectionClient::new(self)
    }
}

} // verus!
