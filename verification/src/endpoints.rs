//! The endpoints of an actor, and how they are read and written.

use crate::json::entries_view;
use crate::json::find;
use crate::json::lemma_entries_view;
use crate::json::lemma_lookup_concat;
use crate::json::lemma_position_none;
use crate::json::lemma_position_is;
use crate::json::lookup;
use crate::json::Json;
use crate::json::JsonView;
use crate::scalars::address_from_json;
use crate::scalars::address_is_canonical;
use crate::scalars::address_of;
use crate::scalars::address_view;
use crate::scalars::address_wf;
use crate::scalars::same_json;
use crate::text::outline;
use crate::url::Url;
use vstd::prelude::*;

verus! {

/// The endpoints of an actor: six optional URLs.
#[derive(Debug, PartialEq, Eq)]
pub struct EndpointsProperty {
    pub proxy_url: Option<Url>,
    pub oauth_authorization_endpoint: Option<Url>,
    pub oauth_token_endpoint: Option<Url>,
    pub provide_client_key: Option<Url>,
    pub sign_client_key: Option<Url>,
    pub shared_inbox: Option<Url>,
}

/// The mathematical value of an [`EndpointsProperty`].
pub ghost struct EndpointsView {
    pub proxy_url: Option<Seq<char>>,
    pub oauth_authorization_endpoint: Option<Seq<char>>,
    pub oauth_token_endpoint: Option<Seq<char>>,
    pub provide_client_key: Option<Seq<char>>,
    pub sign_client_key: Option<Seq<char>>,
    pub shared_inbox: Option<Seq<char>>,
}

impl View for EndpointsProperty {
    type V = EndpointsView;

    open spec fn view(&self) -> EndpointsView {
        EndpointsView {
            proxy_url: address_view(self.proxy_url),
            oauth_authorization_endpoint: address_view(self.oauth_authorization_endpoint),
            oauth_token_endpoint: address_view(self.oauth_token_endpoint),
            provide_client_key: address_view(self.provide_client_key),
            sign_client_key: address_view(self.sign_client_key),
            shared_inbox: address_view(self.shared_inbox),
        }
    }
}

/// The entry that an endpoint is written as: none where it is absent.
pub open spec fn endpoint_entry(key: Seq<char>, endpoint: Option<Seq<char>>) -> Seq<
    (Seq<char>, JsonView),
> {
    match endpoint {
        Some(url) => seq![(key, JsonView::String(url))],
        None => Seq::empty(),
    }
}

/// The entries that endpoints are written as, in order.
pub open spec fn endpoints_entries(endpoints: EndpointsView) -> Seq<(Seq<char>, JsonView)> {
    endpoint_entry("proxyUrl"@, endpoints.proxy_url) + endpoint_entry(
        "oauthAuthorizationEndpoint"@,
        endpoints.oauth_authorization_endpoint,
    ) + endpoint_entry("oauthTokenEndpoint"@, endpoints.oauth_token_endpoint) + endpoint_entry(
        "provideClientKey"@,
        endpoints.provide_client_key,
    ) + endpoint_entry("signClientKey"@, endpoints.sign_client_key) + endpoint_entry(
        "sharedInbox"@,
        endpoints.shared_inbox,
    )
}

/// The tree that optional endpoints are written as.
pub open spec fn endpoints_json(endpoints: Option<EndpointsView>) -> Option<JsonView> {
    match endpoints {
        Some(endpoints) => Some(JsonView::Object(endpoints_entries(endpoints))),
        None => None,
    }
}

/// The endpoint that the entries hold under `key`: nothing where the key is
/// missing; `None` where its value is no URL.
pub open spec fn endpoint_of(entries: Seq<(Seq<char>, JsonView)>, key: Seq<char>) -> Option<
    Option<Seq<char>>,
> {
    match lookup(entries, key) {
        Some(value) => address_of(value),
        None => Some(None),
    }
}

/// The optional endpoints that a tree is read as.
pub open spec fn endpoints_of(json: JsonView) -> Option<Option<EndpointsView>> {
    match json {
        JsonView::Null => Some(None),
        JsonView::Object(entries) => match (
            endpoint_of(entries, "proxyUrl"@),
            endpoint_of(entries, "oauthAuthorizationEndpoint"@),
            endpoint_of(entries, "oauthTokenEndpoint"@),
            endpoint_of(entries, "provideClientKey"@),
            endpoint_of(entries, "signClientKey"@),
            endpoint_of(entries, "sharedInbox"@),
        ) {
            (
                Some(proxy_url),
                Some(oauth_authorization_endpoint),
                Some(oauth_token_endpoint),
                Some(provide_client_key),
                Some(sign_client_key),
                Some(shared_inbox),
            ) => Some(
                Some(
                    EndpointsView {
                        proxy_url,
                        oauth_authorization_endpoint,
                        oauth_token_endpoint,
                        provide_client_key,
                        sign_client_key,
                        shared_inbox,
                    },
                ),
            ),
            _ => None,
        },
        _ => None,
    }
}

/// The value of optional endpoints.
pub open spec fn endpoints_view(endpoints: Option<EndpointsProperty>) -> Option<EndpointsView> {
    match endpoints {
        Some(endpoints) => Some(endpoints@),
        None => None,
    }
}

/// Optional endpoints are canonical when each URL among them is serialized.
pub open spec fn endpoints_wf(endpoints: Option<EndpointsView>) -> bool {
    endpoints matches Some(endpoints) ==> {
        &&& address_wf(endpoints.proxy_url)
        &&& address_wf(endpoints.oauth_authorization_endpoint)
        &&& address_wf(endpoints.oauth_token_endpoint)
        &&& address_wf(endpoints.provide_client_key)
        &&& address_wf(endpoints.sign_client_key)
        &&& address_wf(endpoints.shared_inbox)
    }
}

/// Looking up a key in the entry of an endpoint finds the URL exactly under
/// the endpoint's own key.
proof fn lemma_endpoint_entry(key: Seq<char>, endpoint: Option<Seq<char>>, wanted: Seq<char>)
    ensures
        lookup(endpoint_entry(key, endpoint), wanted) == if key == wanted && endpoint is Some {
            Some(JsonView::String(endpoint->0))
        } else {
            None
        },
{
    let entries = endpoint_entry(key, endpoint);
    if key == wanted && endpoint is Some {
        lemma_position_is(entries, wanted, 0);
    } else {
        lemma_position_none(entries, wanted);
    }
}

/// What looking up a key in the entries of endpoints finds.
proof fn lemma_endpoints_lookup(endpoints: EndpointsView, wanted: Seq<char>)
    ensures
        lookup(endpoints_entries(endpoints), wanted) == if wanted == "proxyUrl"@
            && endpoints.proxy_url is Some {
            Some(JsonView::String(endpoints.proxy_url->0))
        } else if wanted == "oauthAuthorizationEndpoint"@ && endpoints.oauth_authorization_endpoint is Some {
            Some(JsonView::String(endpoints.oauth_authorization_endpoint->0))
        } else if wanted == "oauthTokenEndpoint"@ && endpoints.oauth_token_endpoint is Some {
            Some(JsonView::String(endpoints.oauth_token_endpoint->0))
        } else if wanted == "provideClientKey"@ && endpoints.provide_client_key is Some {
            Some(JsonView::String(endpoints.provide_client_key->0))
        } else if wanted == "signClientKey"@ && endpoints.sign_client_key is Some {
            Some(JsonView::String(endpoints.sign_client_key->0))
        } else if wanted == "sharedInbox"@ && endpoints.shared_inbox is Some {
            Some(JsonView::String(endpoints.shared_inbox->0))
        } else {
            None
        },
{
    let e0 = endpoint_entry("proxyUrl"@, endpoints.proxy_url);
    let e1 = endpoint_entry("oauthAuthorizationEndpoint"@, endpoints.oauth_authorization_endpoint);
    let e2 = endpoint_entry("oauthTokenEndpoint"@, endpoints.oauth_token_endpoint);
    let e3 = endpoint_entry("provideClientKey"@, endpoints.provide_client_key);
    let e4 = endpoint_entry("signClientKey"@, endpoints.sign_client_key);
    let e5 = endpoint_entry("sharedInbox"@, endpoints.shared_inbox);
    lemma_endpoint_entry("proxyUrl"@, endpoints.proxy_url, wanted);
    lemma_endpoint_entry("oauthAuthorizationEndpoint"@, endpoints.oauth_authorization_endpoint, wanted);
    lemma_endpoint_entry("oauthTokenEndpoint"@, endpoints.oauth_token_endpoint, wanted);
    lemma_endpoint_entry("provideClientKey"@, endpoints.provide_client_key, wanted);
    lemma_endpoint_entry("signClientKey"@, endpoints.sign_client_key, wanted);
    lemma_endpoint_entry("sharedInbox"@, endpoints.shared_inbox, wanted);
    lemma_lookup_concat(e0, e1, wanted);
    lemma_lookup_concat(e0 + e1, e2, wanted);
    lemma_lookup_concat(e0 + e1 + e2, e3, wanted);
    lemma_lookup_concat(e0 + e1 + e2 + e3, e4, wanted);
    lemma_lookup_concat(e0 + e1 + e2 + e3 + e4, e5, wanted);
}

/// The six keys are six different texts.
proof fn lemma_endpoint_keys()
    ensures
        outline("proxyUrl"@) == (8nat, 'p', 'o', 'U', 'r', ' '),
        outline("oauthAuthorizationEndpoint"@) == (26nat, 'o', 'u', 'A', 'u', 'o'),
        outline("oauthTokenEndpoint"@) == (18nat, 'o', 'u', 'T', 'o', 'n'),
        outline("provideClientKey"@) == (16nat, 'p', 'o', 'd', 'e', 'i'),
        outline("signClientKey"@) == (13nat, 's', 'g', 'l', 'i', 't'),
        outline("sharedInbox"@) == (11nat, 's', 'a', 'd', 'I', 'o'),
{
    reveal_strlit("proxyUrl");
    reveal_strlit("oauthAuthorizationEndpoint");
    reveal_strlit("oauthTokenEndpoint");
    reveal_strlit("provideClientKey");
    reveal_strlit("signClientKey");
    reveal_strlit("sharedInbox");
}

/// Reading what canonical optional endpoints are written as gives them back.
pub proof fn lemma_endpoints_round_trip(endpoints: Option<EndpointsView>)
    requires
        endpoints_wf(endpoints),
    ensures
        match endpoints_json(endpoints) {
            Some(json) => endpoints_of(json) == Some(endpoints),
            None => endpoints is None,
        },
{
    if let Some(held) = endpoints {
        lemma_endpoint_keys();
        lemma_endpoints_lookup(held, "proxyUrl"@);
        lemma_endpoints_lookup(held, "oauthAuthorizationEndpoint"@);
        lemma_endpoints_lookup(held, "oauthTokenEndpoint"@);
        lemma_endpoints_lookup(held, "provideClientKey"@);
        lemma_endpoints_lookup(held, "signClientKey"@);
        lemma_endpoints_lookup(held, "sharedInbox"@);
    }
}

/// Appends the entry of one endpoint.
fn push_endpoint(entries: &mut Vec<(String, Json)>, key: &str, endpoint: &Option<Url>)
    ensures
        entries_view(final(entries)@) == entries_view(old(entries)@) + endpoint_entry(
            key@,
            address_view(*endpoint),
        ),
{
    proof {
        lemma_entries_view(entries@);
    }
    match endpoint {
        Some(url) => {
            entries.push((key.to_owned(), Json::String(url.as_str().to_owned())));
            proof {
                lemma_entries_view(entries@);
                assert(entries_view(entries@) =~= entries_view(old(entries)@) + endpoint_entry(
                    key@,
                    address_view(*endpoint),
                ));
            }
        },
        None => {
            assert(entries_view(entries@) =~= entries_view(old(entries)@) + endpoint_entry(
                key@,
                address_view(*endpoint),
            ));
        },
    }
}

/// Reads the endpoint under `key`.
fn read_endpoint(entries: &Vec<(String, Json)>, key: &str) -> (r: Option<Option<Url>>)
    ensures
        match endpoint_of(entries_view(entries@), key@) {
            Some(endpoint) => r matches Some(read) && address_view(read) == endpoint,
            None => r is None,
        },
{
    match find(entries, key) {
        Some(value) => address_from_json(value),
        None => Some(None),
    }
}

impl Default for EndpointsProperty {
    /// Endpoints of which none is known.
    fn default() -> (r: EndpointsProperty)
        ensures
            r@ == (EndpointsView {
                proxy_url: None,
                oauth_authorization_endpoint: None,
                oauth_token_endpoint: None,
                provide_client_key: None,
                sign_client_key: None,
                shared_inbox: None,
            }),
    {
        EndpointsProperty {
            proxy_url: None,
            oauth_authorization_endpoint: None,
            oauth_token_endpoint: None,
            provide_client_key: None,
            sign_client_key: None,
            shared_inbox: None,
        }
    }
}

impl EndpointsProperty {
    /// Whether every URL among these endpoints is canonical.
    pub fn is_canonical(&self) -> (r: bool)
        ensures
            r == endpoints_wf(Some(self@)),
    {
        address_is_canonical(&self.proxy_url) && address_is_canonical(&self.oauth_authorization_endpoint)
            && address_is_canonical(&self.oauth_token_endpoint) && address_is_canonical(
            &self.provide_client_key,
        ) && address_is_canonical(&self.sign_client_key) && address_is_canonical(&self.shared_inbox)
    }

    /// The tree that these endpoints are written as.
    pub fn to_json(&self) -> (r: Json)
        ensures
            r@ == JsonView::Object(endpoints_entries(self@)),
    {
        let mut entries: Vec<(String, Json)> = Vec::new();
        proof {
            lemma_entries_view(entries@);
            assert(entries_view(entries@) =~= Seq::empty());
        }
        push_endpoint(&mut entries, "proxyUrl", &self.proxy_url);
        push_endpoint(&mut entries, "oauthAuthorizationEndpoint", &self.oauth_authorization_endpoint);
        push_endpoint(&mut entries, "oauthTokenEndpoint", &self.oauth_token_endpoint);
        push_endpoint(&mut entries, "provideClientKey", &self.provide_client_key);
        push_endpoint(&mut entries, "signClientKey", &self.sign_client_key);
        push_endpoint(&mut entries, "sharedInbox", &self.shared_inbox);
        assert(entries_view(entries@) =~= endpoints_entries(self@));
        Json::Object(entries)
    }
}

/// Writes optional endpoints; `None` where there are none to write.
pub fn endpoints_to_json(endpoints: &Option<EndpointsProperty>) -> (r: Option<Json>)
    ensures
        same_json(r, endpoints_json(endpoints_view(*endpoints))),
{
    match endpoints {
        Some(endpoints) => Some(endpoints.to_json()),
        None => None,
    }
}

/// Reads optional endpoints; `None` where the tree is neither `null` nor an
/// object whose endpoints are URLs. Entries under other keys are passed
/// over.
pub fn endpoints_from_json(json: &Json) -> (r: Option<Option<EndpointsProperty>>)
    ensures
        match endpoints_of(json@) {
            Some(endpoints) => r matches Some(read) && endpoints_view(read) == endpoints,
            None => r is None,
        },
{
    match json {
        Json::Null => Some(None),
        Json::Object(entries) => {
            let proxy_url = match read_endpoint(entries, "proxyUrl") {
                Some(endpoint) => endpoint,
                None => { return None; },
            };
            let oauth_authorization_endpoint = match read_endpoint(entries, "oauthAuthorizationEndpoint") {
                Some(endpoint) => endpoint,
                None => { return None; },
            };
            let oauth_token_endpoint = match read_endpoint(entries, "oauthTokenEndpoint") {
                Some(endpoint) => endpoint,
                None => { return None; },
            };
            let provide_client_key = match read_endpoint(entries, "provideClientKey") {
                Some(endpoint) => endpoint,
                None => { return None; },
            };
            let sign_client_key = match read_endpoint(entries, "signClientKey") {
                Some(endpoint) => endpoint,
                None => { return None; },
            };
            let shared_inbox = match read_endpoint(entries, "sharedInbox") {
                Some(endpoint) => endpoint,
                None => { return None; },
            };
            Some(
                Some(
                    EndpointsProperty {
                        proxy_url,
                        oauth_authorization_endpoint,
                        oauth_token_endpoint,
                        provide_client_key,
                        sign_client_key,
                        shared_inbox,
                    },
                ),
            )
        },
        _ => None,
    }
}

/// Whether optional endpoints are canonical.
pub fn endpoints_are_canonical(endpoints: &Option<EndpointsProperty>) -> (r: bool)
    ensures
        r == endpoints_wf(endpoints_view(*endpoints)),
{
    match endpoints {
        Some(endpoints) => endpoints.is_canonical(),
        None => true,
    }
}

} // verus!
