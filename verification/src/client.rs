//! The client: two credentials, and for each operation of the monitoring API
//! the request that asks for it.
//!
//! The client sends nothing. An operation returns a `Request`, which names the
//! URL to GET and carries the headers to send with it, and whose type says
//! into which of the results of `crate::model` the answer is to be decoded;
//! the caller's transport does the rest.

use crate::header::{
    can_be_header_value, describe_invalid_header_value, header_map_values, header_name_key,
    insert_header, invalid_header_value_message, is_header_name,
    is_free_of_controls, is_header_value, lemma_header_value_by_chars, new_header_map, no_headers,
    parse_header_value,
};
use crate::model::{Error, Incidents, Inventory, Metrics, Status};
use core::marker::PhantomData;
use crate::path::{
    incidents_path, incidents_path_for, infrastructure_path, infrastructure_path_for,
    inventory_path, inventory_path_for, latency_path, latency_path_for, names_of,
    optional_names_of, reachability_path, reachability_path_for, status_path, status_path_for,
};
use reqwest::header::HeaderMap;
use vstd::prelude::*;
use vstd::string::*;
use vstd::utf8::*;

verus! {

/// Origin and version prefix under which every resource of the API lives.
pub open spec fn endpoint() -> Seq<char> {
    "https://status.algolia.com/1"@
}

/// Name of the header that carries the API key.
pub open spec fn api_key_header() -> Seq<char> {
    "X-Algolia-API-Key"@
}

/// Name of the header that carries the application id.
pub open spec fn app_id_header() -> Seq<char> {
    "X-Algolia-Application-Id"@
}

/// The URL of a resource: the endpoint, a slash, and the resource's path.
pub open spec fn url_of(path: Seq<char>) -> Seq<char> {
    endpoint() + seq!['/'] + path
}

/// What a client is made of.
pub struct Credentials {
    pub api_key: Seq<char>,
    pub app_id: Seq<char>,
}

/// The headers that authenticate a request: the API key and the application id,
/// each under its own name and with nothing beside it.
pub open spec fn auth_headers(credentials: Credentials) -> Map<Seq<char>, Seq<Seq<u8>>> {
    no_headers().insert(
        header_name_key(api_key_header()),
        seq![encode_utf8(credentials.api_key)],
    ).insert(header_name_key(app_id_header()), seq![encode_utf8(credentials.app_id)])
}

/// A client of the monitoring API. It holds the two credentials it was made
/// with and never changes them.
pub struct AlgoliaMonitoring {
    api_key: String,
    app_id: String,
}

/// One GET request, ready to be sent, whose answer is a JSON body that decodes
/// into a `T`.
#[derive(Debug)]
pub struct Request<T> {
    /// Path of the resource, relative to the endpoint.
    pub path: String,
    /// Full URL of the resource.
    pub url: String,
    /// Headers to send.
    pub headers: HeaderMap,
    /// Stands for the result that the answer decodes into.
    pub answer: PhantomData<T>,
}

impl View for AlgoliaMonitoring {
    type V = Credentials;

    closed spec fn view(&self) -> Credentials {
        Credentials { api_key: self.api_key@, app_id: self.app_id@ }
    }
}

impl AlgoliaMonitoring {
    /// Whether both credentials can travel in a header. A client whose
    /// credentials cannot has no request to offer.
    pub open spec fn sendable(&self) -> bool {
        is_header_value(self@.api_key) && is_header_value(self@.app_id)
    }

    /// Whether `request` asks for the resource at `path` on behalf of this
    /// client: it names that path and its URL, and carries the client's
    /// credentials and no other header.
    pub open spec fn asks_for<T>(&self, request: Request<T>, path: Seq<char>) -> bool {
        &&& request.path@ == path
        &&& request.url@ == url_of(path)
        &&& header_map_values(request.headers) == auth_headers(self@)
    }

    /// Whether `headers` is what this client has to send with a request: the
    /// two headers of its credentials, where these can travel in a header, and
    /// otherwise the failure that the transport's complaint makes.
    pub open spec fn authenticates(&self, headers: Result<HeaderMap, Error>) -> bool {
        match headers {
            Ok(held) => self.sendable() && header_map_values(held) == auth_headers(self@),
            Err(error) => !self.sendable() && error.reason@ == invalid_header_value_message(),
        }
    }

    /// Whether `offer` is what this client has to offer for the resource at
    /// `path`: the request that asks for it, where the credentials can travel
    /// in a header, and otherwise the failure that the transport's complaint
    /// makes.
    pub open spec fn offers<T>(&self, offer: Result<Request<T>, Error>, path: Seq<char>) -> bool {
        match offer {
            Ok(request) => self.sendable() && self.asks_for(request, path),
            Err(error) => !self.sendable() && error.reason@ == invalid_header_value_message(),
        }
    }

    /// Makes a client from its API key and its application id. Both are
    /// required: to leave one out is a mistake of the caller.
    pub fn new(api_key: Option<String>, app_id: Option<String>) -> (client: Self)
        requires
            api_key is Some,
            app_id is Some,
        ensures
            client@ == (Credentials { api_key: api_key->0@, app_id: app_id->0@ }),
    {
        AlgoliaMonitoring { api_key: api_key.unwrap(), app_id: app_id.unwrap() }
    }

    /// The API key that the client was made with.
    pub fn api_key(&self) -> (key: &String)
        ensures
            key@ == self@.api_key,
    {
        &self.api_key
    }

    /// The application id that the client was made with.
    pub fn app_id(&self) -> (id: &String)
        ensures
            id@ == self@.app_id,
    {
        &self.app_id
    }

    /// Tells whether both credentials can travel in a header.
    pub fn is_sendable(&self) -> (ok: bool)
        ensures
            ok == self.sendable(),
    {
        can_be_header_value(self.api_key.as_str()) && can_be_header_value(self.app_id.as_str())
    }

    /// The endpoint of the API.
    pub fn get_endpoint(&self) -> (origin: String)
        ensures
            origin@ == endpoint(),
    {
        "https://status.algolia.com/1".to_owned()
    }

    /// The headers that every request of this client carries. There are none
    /// to give where a credential cannot travel in a header.
    pub fn get_http_headers(&self) -> (headers: Result<HeaderMap, Error>)
        ensures
            self.authenticates(headers),
    {
        let api_key = match parse_header_value(self.api_key.as_str()) {
            Ok(value) => value,
            Err(complaint) => {
                return Err(Error::new(describe_invalid_header_value(&complaint)));
            },
        };
        let app_id = match parse_header_value(self.app_id.as_str()) {
            Ok(value) => value,
            Err(complaint) => {
                return Err(Error::new(describe_invalid_header_value(&complaint)));
            },
        };
        proof {
            lemma_header_names();
        }
        let mut headers = new_header_map();
        insert_header(&mut headers, "X-Algolia-API-Key", api_key);
        insert_header(&mut headers, "X-Algolia-Application-Id", app_id);
        Ok(headers)
    }

    /// The request for the resource at `path`, to be answered by a `T`.
    pub fn request<T>(&self, path: String) -> (offer: Result<Request<T>, Error>)
        ensures
            self.offers(offer, path@),
    {
        let headers = match self.get_http_headers() {
            Ok(held) => held,
            Err(error) => {
                return Err(error);
            },
        };
        let mut url = self.get_endpoint();
        url.append("/");
        proof {
            reveal_strlit("/");
            assert("/"@ == seq!['/']);
        }
        url.append(path.as_str());
        Ok(Request { path, url, headers, answer: PhantomData })
    }

    /// Asks for the status of the named servers, or of all servers where none
    /// is named.
    pub fn get_status(&self, servers: Option<Vec<String>>) -> (offer: Result<Request<Status>, Error>)
        ensures
            self.offers(offer, status_path(optional_names_of(servers))),
    {
        self.request(status_path_for(&servers))
    }

    /// Asks for the incidents of the named servers, or of all servers where
    /// none is named.
    pub fn get_incidents(
        &self,
        servers: Option<Vec<String>>,
    ) -> (offer: Result<Request<Incidents>, Error>)
        ensures
            self.offers(offer, incidents_path(optional_names_of(servers))),
    {
        self.request(incidents_path_for(&servers))
    }

    /// Asks for the inventory of servers.
    pub fn get_inventory(&self) -> (offer: Result<Request<Inventory>, Error>)
        ensures
            self.offers(offer, inventory_path()),
    {
        self.request(inventory_path_for())
    }

    /// Asks for the latency of the named servers.
    pub fn get_latency(&self, servers: Vec<String>) -> (offer: Result<Request<Metrics>, Error>)
        ensures
            self.offers(offer, latency_path(names_of(servers@))),
    {
        self.request(latency_path_for(&servers))
    }

    /// Asks for the reachability of the named servers.
    pub fn get_reachability(&self, servers: Vec<String>) -> (offer: Result<Request<Metrics>, Error>)
        ensures
            self.offers(offer, reachability_path(names_of(servers@))),
    {
        self.request(reachability_path_for(&servers))
    }

    /// Asks for one infrastructure metric over one period.
    ///
    /// The API knows the metrics `avg_build_time`, `ssd_usage`,
    /// `ram_search_usage`, `ram_indexing_usage` and `cpu_usage`, and `*` for all
    /// of them; and the periods `minute` (10 points, 10 s apart), `hour` (60
    /// points, 1 min apart), `day` (144 points, 10 min apart), `week` (168
    /// points, 1 h apart) and `month` (30 points, 1 day apart). The client
    /// passes both names on as they are.
    pub fn get_infrastructure_metrics(
        &self,
        metric: String,
        period: String,
    ) -> (offer: Result<Request<Metrics>, Error>)
        ensures
            self.offers(offer, infrastructure_path(metric@, period@)),
    {
        self.request(infrastructure_path_for(metric.as_str(), period.as_str()))
    }
}

/// Whatever a client is asked for, it offers a request exactly when both of its
/// credentials are free of control characters (the horizontal tab aside), and
/// the request it offers carries two headers and no more: the API key under
/// `X-Algolia-API-Key` and the application id under `X-Algolia-Application-Id`,
/// each name in the lower case in which headers are kept, each with one value,
/// and that value the UTF-8 form of the very credential the client was made
/// with, from which the credential can be read back.
pub proof fn lemma_offer_carries_credentials<T>(
    client: AlgoliaMonitoring,
    offer: Result<Request<T>, Error>,
    path: Seq<char>,
)
    requires
        client.offers(offer, path),
    ensures
        offer is Ok <==> client.sendable(),
        client.sendable() <==> is_free_of_controls(client@.api_key) && is_free_of_controls(
            client@.app_id,
        ),
        offer matches Ok(request) ==> {
            let held = header_map_values(request.headers);
            &&& held.dom() == set![
                header_name_key(api_key_header()),
                header_name_key(app_id_header()),
            ]
            &&& held.dom().len() == 2
            &&& held[header_name_key(api_key_header())] == seq![encode_utf8(client@.api_key)]
            &&& held[header_name_key(app_id_header())] == seq![encode_utf8(client@.app_id)]
        },
        decode_utf8(encode_utf8(client@.api_key)) == client@.api_key,
        decode_utf8(encode_utf8(client@.app_id)) == client@.app_id,
{
    lemma_header_names();
    lemma_header_value_by_chars(client@.api_key);
    lemma_header_value_by_chars(client@.app_id);
    encode_utf8_decode_utf8(client@.api_key);
    encode_utf8_decode_utf8(client@.app_id);
    if offer is Ok {
        let held = header_map_values(offer->Ok_0.headers);
        let names = set![header_name_key(api_key_header()), header_name_key(app_id_header())];
        assert(held.dom() =~= names);
    }
}

/// The two header names are header names, and differ once in lower case.
pub proof fn lemma_header_names()
    ensures
        is_header_name(api_key_header()),
        is_header_name(app_id_header()),
        header_name_key(api_key_header()) == "x-algolia-api-key"@,
        header_name_key(app_id_header()) == "x-algolia-application-id"@,
        header_name_key(api_key_header()) != header_name_key(app_id_header()),
{
    reveal_strlit("X-Algolia-API-Key");
    reveal_strlit("X-Algolia-Application-Id");
    reveal_strlit("x-algolia-api-key");
    reveal_strlit("x-algolia-application-id");
    let key = api_key_header();
    let id = app_id_header();
    assert(header_name_key(key) =~= "x-algolia-api-key"@);
    assert(header_name_key(id) =~= "x-algolia-application-id"@);
    assert(header_name_key(key).len() != header_name_key(id).len());
}

} // verus!
