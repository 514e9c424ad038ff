use vstd::prelude::*;

use core::marker::PhantomData;

use crate::client::ApifyClient;
use crate::error::{ApifyClientError, ClientValidationError};
use crate::locator::{
    invalid_identifier_message, parse_spec, render_spec, stringify_resource, token_required_spec,
    IdOrName, LocatorView, Method,
};
use crate::query::{append_query_param, join_query, param_text};

verus! {

/// A request ready for dispatch: sent once, and re-sent unchanged on retries.
#[derive(Debug)]
pub struct PendingRequest {
    pub method: Method,
    pub url: String,
    pub body: Option<Vec<u8>>,
    pub headers: Vec<(String, String)>,
    pub token_required: bool,
}

/// Assembles a request to `base_url/url_segment[/locator][/sub_resource]`,
/// whose answer decodes to `OutputType`.
pub struct BaseBuilder<'a, OutputType> {
    pub client: &'a ApifyClient,
    pub url_segment: String,
    /// The raw identifier of the resource, when the request is about one.
    pub identifier: Option<String>,
    pub sub_resource: Option<String>,
    pub method: Method,
    /// The serialized body, or the error serializing it gave.
    pub body: Option<Result<Vec<u8>, serde_json::Error>>,
    pub query_string: String,
    pub phantom: PhantomData<OutputType>,
}

/// Whether a request needs a token: a resource by its locator's rule, a
/// collection (no locator) always, as its list belongs to the token's owner.
pub open spec fn needs_token(locator: Option<LocatorView>, method: Method) -> bool {
    match locator {
        Some(l) => token_required_spec(l, method),
        None => true,
    }
}

/// The path of a request: `base/segment`, then `/locator` in wire form and
/// `/sub_resource` when present.
pub open spec fn request_path(
    base: Seq<char>,
    segment: Seq<char>,
    locator: Option<LocatorView>,
    sub_resource: Option<Seq<char>>,
) -> Seq<char> {
    let p = base + seq!['/'] + segment;
    let p = match locator {
        Some(l) => p + seq!['/'] + render_spec(l),
        None => p,
    };
    match sub_resource {
        Some(s) => p + seq!['/'] + s,
        None => p,
    }
}

/// The query with the token appended as the `token` parameter, when there is one.
pub open spec fn query_with_token(query: Seq<char>, token: Option<Seq<char>>) -> Seq<char> {
    match token {
        Some(t) => join_query(query, param_text("token"@, t)),
        None => query,
    }
}

/// A path with its query after a `?`, when the query is not empty.
pub open spec fn with_query(path: Seq<char>, query: Seq<char>) -> Seq<char> {
    if query.len() == 0 {
        path
    } else {
        path + seq!['?'] + query
    }
}

pub open spec fn token_view(token: Option<String>) -> Option<Seq<char>> {
    match token {
        Some(t) => Some(t@),
        None => None,
    }
}

impl<'a, OutputType> BaseBuilder<'a, OutputType> {
    /// A request about a whole collection, with no body and no query yet.
    pub fn new(client: &'a ApifyClient, url_segment: String, method: Method) -> (r: Self)
        ensures
            r.client == client,
            r.url_segment == url_segment,
            r.identifier is None,
            r.sub_resource is None,
            r.method == method,
            r.body is None,
            r.query_string@.len() == 0,
    {
        BaseBuilder {
            client,
            url_segment,
            identifier: None,
            sub_resource: None,
            method,
            body: None,
            query_string: String::new(),
            phantom: PhantomData,
        }
    }

    /// A request about one resource, identified by `identifier` as the caller
    /// wrote it (checked when the request is built), optionally about one of
    /// its parts (`items`).
    pub fn for_resource(
        client: &'a ApifyClient,
        url_segment: String,
        identifier: String,
        sub_resource: Option<String>,
        method: Method,
    ) -> (r: Self)
        ensures
            r.client == client,
            r.url_segment == url_segment,
            r.identifier == Some(identifier),
            r.sub_resource == sub_resource,
            r.method == method,
            r.body is None,
            r.query_string@.len() == 0,
    {
        BaseBuilder {
            client,
            url_segment,
            identifier: Some(identifier),
            sub_resource,
            method,
            body: None,
            query_string: String::new(),
            phantom: PhantomData,
        }
    }

    /// The locator the identifier classifies as: `None` when it is invalid,
    /// `Some(None)` when the request has no identifier.
    pub open spec fn locator_spec(&self) -> Option<Option<LocatorView>> {
        match self.identifier {
            None => Some(None),
            Some(raw) => match parse_spec(raw@) {
                Some(l) => Some(Some(l)),
                None => None,
            },
        }
    }

    /// Sets the body: bytes serialized by the caller, or the error the
    /// serialization gave, which building the request then reports.
    pub fn raw_payload(&mut self, payload: Result<Vec<u8>, serde_json::Error>) -> (r: &mut Self)
        ensures
            r.body == Some(payload),
            r.client == old(self).client,
            r.url_segment == old(self).url_segment,
            r.identifier == old(self).identifier,
            r.sub_resource == old(self).sub_resource,
            r.method == old(self).method,
            r.query_string == old(self).query_string,
            *final(self) == *final(r),
    {
        self.body = Some(payload);
        self
    }

    /// Adds parameters (`k=v&...`) to the query, after an `&` when it
    /// already holds some.
    pub fn append_query_string(&mut self, append_query_params: String) -> (r: &mut Self)
        ensures
            r.query_string@ == join_query(old(self).query_string@, append_query_params@),
            r.client == old(self).client,
            r.url_segment == old(self).url_segment,
            r.identifier == old(self).identifier,
            r.sub_resource == old(self).sub_resource,
            r.method == old(self).method,
            r.body == old(self).body,
            *final(self) == *final(r),
    {
        proof {
            reveal_strlit("&");
        }
        if append_query_params.unicode_len() > 0 {
            if self.query_string.unicode_len() > 0 {
                self.query_string.append("&");
            }
            self.query_string.append(append_query_params.as_str());
        }
        assert(self.query_string@ =~= join_query(
            old(self).query_string@,
            append_query_params@,
        ));
        self
    }

    /// Builds the request, before any network call: a body whose
    /// serialization failed is reported first, then an invalid identifier,
    /// then a missing token where one is needed. The token, when the client
    /// has one, goes into the query as `token=...`; a body is sent as JSON.
    pub fn validate(self) -> (r: Result<PendingRequest, ApifyClientError>)
        ensures
            match self.body {
                Some(Err(e)) => r matches Err(ApifyClientError::Parse(x)) && x == e,
                _ => match self.locator_spec() {
                    None => r matches Err(
                        ApifyClientError::ClientValidation(
                            ClientValidationError::InvalidResourceIdOrName(m),
                        ),
                    ) && m@ == invalid_identifier_message(self.identifier->0@),
                    Some(locator) => if needs_token(locator, self.method)
                        && self.client.optional_token is None {
                        r matches Err(
                            ApifyClientError::ClientValidation(ClientValidationError::MissingToken),
                        )
                    } else {
                        r matches Ok(p) && p.method == self.method && p.token_required
                            == needs_token(locator, self.method) && p.url@ == with_query(
                            request_path(
                                self.client.base_url@,
                                self.url_segment@,
                                locator,
                                match self.sub_resource {
                                    Some(s) => Some(s@),
                                    None => None,
                                },
                            ),
                            query_with_token(
                                self.query_string@,
                                token_view(self.client.optional_token),
                            ),
                        ) && p.body == match self.body {
                            Some(Ok(b)) => Some(b),
                            _ => None,
                        } && (p.body is Some ==> p.headers@.len() == 1 && p.headers@[0].0@
                            == "Content-Type"@ && p.headers@[0].1@ == "application/json"@) && (
                        p.body is None ==> p.headers@.len() == 0)
                    },
                },
            },
    {
        let body = match self.body {
            Some(Err(e)) => {
                return Err(ApifyClientError::Parse(e));
            },
            Some(Ok(b)) => Some(b),
            None => None,
        };
        let locator = match &self.identifier {
            None => None,
            Some(raw) => match IdOrName::new(raw.as_str()) {
                Ok(l) => Some(l),
                Err(e) => {
                    return Err(e);
                },
            },
        };
        let token_required = match &locator {
            Some(l) => l.requires_token(self.method),
            None => true,
        };
        if token_required && self.client.optional_token.is_none() {
            return Err(ApifyClientError::ClientValidation(ClientValidationError::MissingToken));
        }
        proof {
            reveal_strlit("/");
            reveal_strlit("?");
        }
        let mut url = self.client.base_url.clone();
        url.append("/");
        url.append(self.url_segment.as_str());
        match &locator {
            Some(l) => {
                url.append("/");
                url.append(stringify_resource(l).as_str());
            },
            None => {},
        }
        match &self.sub_resource {
            Some(s) => {
                url.append("/");
                url.append(s.as_str());
            },
            None => {},
        }
        let mut query = self.query_string;
        match &self.client.optional_token {
            Some(t) => append_query_param(&mut query, "token", t.as_str()),
            None => {},
        }
        if query.unicode_len() > 0 {
            url.append("?");
            url.append(query.as_str());
        }
        let mut headers: Vec<(String, String)> = Vec::new();
        match &body {
            Some(_) => headers.push(
                (String::from_str("Content-Type"), String::from_str("application/json")),
            ),
            None => {},
        }
        let ghost locator_view = match locator {
            Some(l) => Some(l@),
            None => None,
        };
        assert(url@ =~= with_query(
            request_path(
                self.client.base_url@,
                self.url_segment@,
                locator_view,
                match self.sub_resource {
                    Some(s) => Some(s@),
                    None => None,
                },
            ),
            query_with_token(self.query_string@, token_view(self.client.optional_token)),
        ));
        Ok(PendingRequest { method: self.method, url, body, headers, token_required })
    }
}

} // verus!
