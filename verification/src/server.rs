//! What the server offers and where a request goes: the list of all tools,
//! the routing of a call by the name of its tool, and the resources.

use vstd::prelude::*;
use vstd::string::StringExecFns;
use crate::chainlist::get_chainlist_tools;
use crate::chainlist::list_popular_chains_tool;
use crate::chainlist::search_chains_tool;
use crate::chainlist::search_rpc_url_tool;
use crate::foundry::FoundryExecutor;
use crate::handlers::get_session_tools;
use crate::handlers::session_tool_views;
use crate::json::JsonObject;
use crate::json::Member;
use crate::request::RequestError;
use crate::request::RequestFailure;
use crate::text::concat;
use crate::text::str_eq;
use crate::tokenlist::get_token_by_address_tool;
use crate::tokenlist::get_tokenlist_tools;
use crate::tokenlist::list_chain_tokens_tool;
use crate::tokenlist::list_supported_chains_tool;
use crate::tokenlist::search_tokens_tool;
use crate::tool::tool_views;
use crate::tool::Tool;
use crate::tool::ToolView;

verus! {

/// The name under which the server presents itself.
pub const SERVER_NAME: &'static str = "foundry-mcp-server";

/// The title of the server.
pub const SERVER_TITLE: &'static str = "Foundry MCP Server";

/// Where to read about the toolchain.
pub const SERVER_WEBSITE: &'static str = "https://github.com/foundry-rs/foundry";

/// What the server tells a client about itself.
pub const SERVER_INSTRUCTIONS: &'static str =
    "MCP server providing access to Foundry CLI tools (forge, cast, anvil, chisel), blockchain RPC endpoints via chainlist.org, and token information via the Optimism token list";

/// Where a call goes.
#[derive(Debug, Clone, Copy, PartialEq, Eq, Structural)]
pub enum Route {
    SearchRpcUrl,
    SearchChains,
    ListPopularChains,
    SearchTokens,
    GetTokenByAddress,
    ListChainTokens,
    ListSupportedChains,
    AnvilSessionStart,
    AnvilSessionStop,
    AnvilSessionStatus,
    ChiselSessionStart,
    ChiselSessionEval,
    ChiselSessionStop,
    ChiselSessionStatus,
    /// Any other name: a tool of the toolchain, if it is one at all.
    Foundry,
}

/// Where a call of the tool `name` goes. The tools of the directory, of the
/// token list and of the sessions go by their fixed names; every other name
/// is left to the executor of the toolchain.
pub open spec fn route_of(name: Seq<char>) -> Route {
    if name == "search_rpc_url"@ {
        Route::SearchRpcUrl
    } else if name == "search_chains"@ {
        Route::SearchChains
    } else if name == "list_popular_chains"@ {
        Route::ListPopularChains
    } else if name == "search_tokens"@ {
        Route::SearchTokens
    } else if name == "get_token_by_address"@ {
        Route::GetTokenByAddress
    } else if name == "list_chain_tokens"@ {
        Route::ListChainTokens
    } else if name == "list_supported_chains"@ {
        Route::ListSupportedChains
    } else if name == "anvil_session_start"@ {
        Route::AnvilSessionStart
    } else if name == "anvil_session_stop"@ {
        Route::AnvilSessionStop
    } else if name == "anvil_session_status"@ {
        Route::AnvilSessionStatus
    } else if name == "chisel_session_start"@ {
        Route::ChiselSessionStart
    } else if name == "chisel_session_eval"@ {
        Route::ChiselSessionEval
    } else if name == "chisel_session_stop"@ {
        Route::ChiselSessionStop
    } else if name == "chisel_session_status"@ {
        Route::ChiselSessionStatus
    } else {
        Route::Foundry
    }
}

/// Where a call of the tool `name` goes.
pub fn route(name: &str) -> (r: Route)
    ensures
        r == route_of(name@),
{
    if str_eq(name, "search_rpc_url") {
        Route::SearchRpcUrl
    } else if str_eq(name, "search_chains") {
        Route::SearchChains
    } else if str_eq(name, "list_popular_chains") {
        Route::ListPopularChains
    } else if str_eq(name, "search_tokens") {
        Route::SearchTokens
    } else if str_eq(name, "get_token_by_address") {
        Route::GetTokenByAddress
    } else if str_eq(name, "list_chain_tokens") {
        Route::ListChainTokens
    } else if str_eq(name, "list_supported_chains") {
        Route::ListSupportedChains
    } else if str_eq(name, "anvil_session_start") {
        Route::AnvilSessionStart
    } else if str_eq(name, "anvil_session_stop") {
        Route::AnvilSessionStop
    } else if str_eq(name, "anvil_session_status") {
        Route::AnvilSessionStatus
    } else if str_eq(name, "chisel_session_start") {
        Route::ChiselSessionStart
    } else if str_eq(name, "chisel_session_eval") {
        Route::ChiselSessionEval
    } else if str_eq(name, "chisel_session_stop") {
        Route::ChiselSessionStop
    } else if str_eq(name, "chisel_session_status") {
        Route::ChiselSessionStatus
    } else {
        Route::Foundry
    }
}

/// Whether a call on this route is turned down when it brings no argument
/// map at all.
pub open spec fn needs_arguments(route: Route) -> bool {
    route == Route::SearchRpcUrl || route == Route::SearchChains || route == Route::SearchTokens
        || route == Route::GetTokenByAddress || route == Route::ListChainTokens
}

/// The argument map of a call of a tool of the directory or of the token
/// list: the map that came with the call, an empty one where none came and
/// the route needs none, and a failure where none came and the route needs
/// one.
pub fn arguments_for(route: Route, arguments: Option<JsonObject>) -> (r: Result<
    JsonObject,
    RequestError,
>)
    ensures
        match r {
            Ok(map) => match arguments {
                Some(given) => map == given,
                None => !needs_arguments(route) && map@ == Seq::<Member>::empty(),
            },
            Err(e) => arguments is None && needs_arguments(route) && e@
                == RequestFailure::InvalidParams("Missing arguments"@),
        },
{
    match arguments {
        Some(given) => Ok(given),
        None => {
            let needed = match route {
                Route::SearchRpcUrl
                | Route::SearchChains
                | Route::SearchTokens
                | Route::GetTokenByAddress
                | Route::ListChainTokens => true,
                _ => false,
            };
            if needed {
                Err(RequestError::InvalidParams(String::from_str("Missing arguments")))
            } else {
                Ok(JsonObject::new())
            }
        },
    }
}

/// The tools of the directory of networks.
pub open spec fn chainlist_tool_views() -> Seq<ToolView> {
    seq![search_rpc_url_tool(), search_chains_tool(), list_popular_chains_tool()]
}

/// The tools of the token list.
pub open spec fn tokenlist_tool_views() -> Seq<ToolView> {
    seq![
        search_tokens_tool(),
        get_token_by_address_tool(),
        list_chain_tokens_tool(),
        list_supported_chains_tool(),
    ]
}

/// Everything that is offered: the tools of the toolchain that the policy
/// lets through, then the tools of the directory, of the token list and of
/// the sessions.
pub fn list_tools(foundry: &FoundryExecutor) -> (r: Vec<Tool>)
    ensures
        tool_views(r@) == foundry.listed() + chainlist_tool_views() + tokenlist_tool_views()
            + session_tool_views(),
{
    let own = foundry.tool_list();
    let mut r: Vec<Tool> = Vec::new();
    let mut i: usize = 0;
    while i < own.len()
        invariant
            i <= own.len(),
            tool_views(own@) == foundry.listed(),
            r@.len() == i,
            forall|k: int| 0 <= k < i ==> r@[k]@ == own@[k]@,
        decreases own.len() - i,
    {
        r.push(own[i].clone());
        i += 1;
    }
    let mut chainlist = get_chainlist_tools();
    let mut tokenlist = get_tokenlist_tools();
    let mut sessions = get_session_tools();
    r.append(&mut chainlist);
    r.append(&mut tokenlist);
    r.append(&mut sessions);
    r
}

/// A resource that the server offers.
#[derive(Debug, Clone, Copy, PartialEq, Eq, Structural)]
pub enum Resource {
    /// The whole directory of networks.
    Chainlist,
    /// The whole token list.
    Tokenlist,
}

/// What is known of a resource.
pub struct ResourceView {
    pub uri: Seq<char>,
    pub name: Seq<char>,
    pub description: Seq<char>,
    pub mime_type: Seq<char>,
}

/// What is known of a resource.
#[derive(Debug, PartialEq)]
pub struct ResourceInfo {
    pub uri: String,
    pub name: String,
    pub description: String,
    pub mime_type: String,
}

impl View for ResourceInfo {
    type V = ResourceView;

    open spec fn view(&self) -> ResourceView {
        ResourceView {
            uri: self.uri@,
            name: self.name@,
            description: self.description@,
            mime_type: self.mime_type@,
        }
    }
}

impl Resource {
    /// What is known of the resource.
    pub open spec fn info(self) -> ResourceView {
        match self {
            Resource::Chainlist => ResourceView {
                uri: "chainlist://all"@,
                name: "All Blockchain Networks"@,
                description: "Complete list of all blockchain networks and their RPC endpoints from chainlist.org"@,
                mime_type: "application/json"@,
            },
            Resource::Tokenlist => ResourceView {
                uri: "tokenlist://all"@,
                name: "All ERC20 Tokens"@,
                description: "Complete list of ERC20 tokens across Ethereum and L2 networks from the Optimism token list"@,
                mime_type: "application/json"@,
            },
        }
    }

    /// What is known of the resource.
    pub fn describe(&self) -> (r: ResourceInfo)
        ensures
            r@ == self.info(),
    {
        match self {
            Resource::Chainlist => ResourceInfo {
                uri: String::from_str("chainlist://all"),
                name: String::from_str("All Blockchain Networks"),
                description: String::from_str(
                    "Complete list of all blockchain networks and their RPC endpoints from chainlist.org",
                ),
                mime_type: String::from_str("application/json"),
            },
            Resource::Tokenlist => ResourceInfo {
                uri: String::from_str("tokenlist://all"),
                name: String::from_str("All ERC20 Tokens"),
                description: String::from_str(
                    "Complete list of ERC20 tokens across Ethereum and L2 networks from the Optimism token list",
                ),
                mime_type: String::from_str("application/json"),
            },
        }
    }
}

/// The resources that the server offers, in the order in which it lists them.
pub fn list_resources() -> (r: Vec<ResourceInfo>)
    ensures
        r@.len() == 2,
        r@[0]@ == Resource::Chainlist.info(),
        r@[1]@ == Resource::Tokenlist.info(),
{
    let mut r: Vec<ResourceInfo> = Vec::new();
    r.push(Resource::Chainlist.describe());
    r.push(Resource::Tokenlist.describe());
    r
}

/// The resource that a URI names, or a failure where it names none.
pub fn resource_for(uri: &str) -> (r: Result<Resource, RequestError>)
    ensures
        match r {
            Ok(resource) => uri@ == resource.info().uri,
            Err(e) => uri@ != Resource::Chainlist.info().uri && uri@
                != Resource::Tokenlist.info().uri && e@ == RequestFailure::InvalidParams(
                "Unknown resource URI: "@ + uri@,
            ),
        },
{
    if str_eq(uri, "chainlist://all") {
        Ok(Resource::Chainlist)
    } else if str_eq(uri, "tokenlist://all") {
        Ok(Resource::Tokenlist)
    } else {
        Err(RequestError::InvalidParams(concat("Unknown resource URI: ", uri)))
    }
}

} // verus!
