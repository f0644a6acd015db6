//! The list of tokens: finding tokens by address, by name or by network, and
//! writing the answer down.

use vstd::prelude::*;
use vstd::string::StringExecFns;
use crate::json::lookup;
use crate::json::members;
use crate::json::Json;
use crate::json::JsonEntry;
use crate::json::JsonObject;
use crate::json::Member;
use crate::lists::at_most;
use crate::lists::first_where;
use crate::lists::lemma_first_where_is;
use crate::lists::targets;
use crate::request::number_argument;
use crate::request::number_under;
use crate::request::text_argument;
use crate::request::text_under;
use crate::request::RequestError;
use crate::request::RequestFailure;
use crate::text::ascii_case_equal;
use crate::text::concat;
use crate::text::contains;
use crate::text::decimal;
use crate::text::eq_ignore_ascii_case;
use crate::text::has_infix;
use crate::text::is_prefix;
use crate::text::lowercase;
use crate::text::parse_u64;
use crate::text::parsed_u64;
use crate::text::slices;
use crate::text::starts_with;
use crate::text::str_eq;
use crate::text::to_lowercase;
use crate::text::u64_to_string;
use crate::tool::make_tool;
use crate::tool::parameter;
use crate::tool::parameter_entry;
use crate::tool::tool_view;
use crate::tool::tool_views;
use crate::tool::Tool;
use crate::tool::ToolView;

verus! {

/// The version of a token list.
#[derive(Debug, Clone, Copy, PartialEq, Eq, Structural)]
pub struct TokenListVersion {
    pub major: u32,
    pub minor: u32,
    pub patch: u32,
}

/// What the list holds of one token on one network.
#[derive(Debug, Clone)]
pub struct TokenInfo {
    pub chain_id: u64,
    pub address: String,
    pub name: String,
    pub symbol: String,
    pub decimals: u8,
    pub logo_uri: Option<String>,
    /// Whatever else the list says of the token.
    pub extensions: Option<JsonObject>,
}

/// A token list.
#[derive(Debug, Clone)]
pub struct TokenList {
    pub name: String,
    pub version: TokenListVersion,
    pub keywords: Vec<String>,
    pub tokens: Vec<TokenInfo>,
    pub timestamp: Option<String>,
    pub logo_uri: Option<String>,
}

/// A network that the list covers.
pub struct Network {
    pub name: Seq<char>,
    pub id: u64,
}

/// The networks that the list covers.
pub open spec fn supported_chains() -> Seq<Network> {
    seq![
        Network { name: "ethereum"@, id: 1 },
        Network { name: "optimism"@, id: 10 },
        Network { name: "sepolia"@, id: 11155111 },
        Network { name: "base"@, id: 8453 },
        Network { name: "base-sepolia"@, id: 84532 },
        Network { name: "optimism-sepolia"@, id: 11155420 },
        Network { name: "mode"@, id: 34443 },
        Network { name: "lisk"@, id: 1135 },
        Network { name: "lisk-sepolia"@, id: 4202 },
        Network { name: "redstone"@, id: 690 },
        Network { name: "metal-l2"@, id: 1750 },
        Network { name: "metal-l2-sepolia"@, id: 1740 },
        Network { name: "celo"@, id: 42220 },
        Network { name: "celo-sepolia"@, id: 44787 },
    ]
}

/// How many networks the list covers.
pub const SUPPORTED_CHAIN_COUNT: usize = 14;

/// The chain id of the first covered network that is named `name`, the case
/// of ASCII letters apart.
pub open spec fn id_of_chain(name: Seq<char>) -> Option<u64> {
    let i = first_where(
        supported_chains(),
        |e: Network| ascii_case_equal(e.name, name),
    ) as int;
    if i < supported_chains().len() {
        Some(supported_chains()[i].id)
    } else {
        None
    }
}

/// The name of the first covered network whose chain id is `id`.
pub open spec fn name_of_chain(id: u64) -> Option<Seq<char>> {
    let i = first_where(supported_chains(), |e: Network| e.id == id) as int;
    if i < supported_chains().len() {
        Some(supported_chains()[i].name)
    } else {
        None
    }
}

/// The covered network at position `i`.
fn supported_chain(i: usize) -> (r: (&'static str, u64))
    requires
        i < SUPPORTED_CHAIN_COUNT,
    ensures
        (Network { name: r.0@, id: r.1 }) == supported_chains()[i as int],
{
    if i == 0 {
        ("ethereum", 1)
    } else if i == 1 {
        ("optimism", 10)
    } else if i == 2 {
        ("sepolia", 11155111)
    } else if i == 3 {
        ("base", 8453)
    } else if i == 4 {
        ("base-sepolia", 84532)
    } else if i == 5 {
        ("optimism-sepolia", 11155420)
    } else if i == 6 {
        ("mode", 34443)
    } else if i == 7 {
        ("lisk", 1135)
    } else if i == 8 {
        ("lisk-sepolia", 4202)
    } else if i == 9 {
        ("redstone", 690)
    } else if i == 10 {
        ("metal-l2", 1750)
    } else if i == 11 {
        ("metal-l2-sepolia", 1740)
    } else if i == 12 {
        ("celo", 42220)
    } else {
        ("celo-sepolia", 44787)
    }
}

/// The chain id of the covered network named `name`.
pub fn chain_name_to_id(name: &str) -> (r: Option<u64>)
    ensures
        r == id_of_chain(name@),
{
    let ghost p = |e: Network| ascii_case_equal(e.name, name@);
    let mut i: usize = 0;
    while i < SUPPORTED_CHAIN_COUNT
        invariant
            i <= SUPPORTED_CHAIN_COUNT,
            supported_chains().len() == SUPPORTED_CHAIN_COUNT,
            p == (|e: Network| ascii_case_equal(e.name, name@)),
            forall|j: int| 0 <= j < i ==> !p(supported_chains()[j]),
        decreases SUPPORTED_CHAIN_COUNT - i,
    {
        let entry = supported_chain(i);
        if eq_ignore_ascii_case(entry.0, name) {
            proof {
                lemma_first_where_is(supported_chains(), p, i as int);
            }
            return Some(entry.1);
        }
        i += 1;
    }
    proof {
        lemma_first_where_is(supported_chains(), p, i as int);
    }
    None
}

/// The name of the covered network whose chain id is `id`.
pub fn chain_id_to_name(id: u64) -> (r: Option<&'static str>)
    ensures
        match r {
            Some(name) => name_of_chain(id) == Some(name@),
            None => name_of_chain(id) is None,
        },
{
    let ghost p = |e: Network| e.id == id;
    let mut i: usize = 0;
    while i < SUPPORTED_CHAIN_COUNT
        invariant
            i <= SUPPORTED_CHAIN_COUNT,
            supported_chains().len() == SUPPORTED_CHAIN_COUNT,
            p == (|e: Network| e.id == id),
            forall|j: int| 0 <= j < i ==> !p(supported_chains()[j]),
        decreases SUPPORTED_CHAIN_COUNT - i,
    {
        let entry = supported_chain(i);
        if entry.1 == id {
            proof {
                lemma_first_where_is(supported_chains(), p, i as int);
            }
            return Some(entry.0);
        }
        i += 1;
    }
    proof {
        lemma_first_where_is(supported_chains(), p, i as int);
    }
    None
}

/// The chain id that a parameter means: the number that it reads as, or
/// else the chain id of the covered network that it names.
pub open spec fn chain_meant(chain: Seq<char>) -> Option<u64> {
    match parsed_u64(chain) {
        Some(id) => Some(id),
        None => id_of_chain(chain),
    }
}

/// The chain id that a parameter means, given as a number or as a name.
pub fn parse_chain_param(chain_str: &str) -> (r: Option<u64>)
    ensures
        r == chain_meant(chain_str@),
{
    match parse_u64(chain_str) {
        Some(id) => Some(id),
        None => chain_name_to_id(chain_str),
    }
}

/// Forgets the cached list, so that the next request fetches it anew.
pub fn clear_cache(cache: &mut Option<TokenList>)
    ensures
        *final(cache) is None,
{
    *cache = None;
}

/// Whether a token is on the network asked for, where one is asked for.
pub open spec fn on_chain(t: TokenInfo, chain_id: Option<u64>) -> bool {
    match chain_id {
        Some(id) => t.chain_id == id,
        None => true,
    }
}

/// What a selection of tokens goes by.
pub enum Selection {
    /// The address of the token, case apart, is the text.
    Address,
    /// The symbol or the name of the token, case apart, is the text.
    Exact,
    /// The symbol or the name of the token, case apart, holds the text.
    Partial,
    /// Nothing but the network.
    Chain,
}

/// Whether a selection by the text `q`, already in lower case, and the
/// network `chain_id` takes the token.
pub open spec fn selected(t: TokenInfo, by: Selection, q: Seq<char>, chain_id: Option<u64>) -> bool {
    on_chain(t, chain_id) && (match by {
        Selection::Address => lowercase(t.address@) == q,
        Selection::Exact => lowercase(t.symbol@) == q || lowercase(t.name@) == q,
        Selection::Partial => has_infix(lowercase(t.symbol@), q) || has_infix(
            lowercase(t.name@),
            q,
        ),
        Selection::Chain => true,
    })
}

/// The tokens that a selection takes, in their order.
pub open spec fn selection(
    tokens: Seq<TokenInfo>,
    by: Selection,
    q: Seq<char>,
    chain_id: Option<u64>,
) -> Seq<TokenInfo> {
    tokens.filter(|t: TokenInfo| selected(t, by, q, chain_id))
}

/// Whether a selection takes the token.
fn takes(t: &TokenInfo, by: &Selection, q: &str, chain_id: Option<u64>) -> (r: bool)
    ensures
        r == selected(*t, *by, q@, chain_id),
{
    let here = match chain_id {
        Some(id) => t.chain_id == id,
        None => true,
    };
    if !here {
        return false;
    }
    match by {
        Selection::Address => str_eq(to_lowercase(t.address.as_str()).as_str(), q),
        Selection::Exact => str_eq(to_lowercase(t.symbol.as_str()).as_str(), q) || str_eq(
            to_lowercase(t.name.as_str()).as_str(),
            q,
        ),
        Selection::Partial => contains(to_lowercase(t.symbol.as_str()).as_str(), q) || contains(
            to_lowercase(t.name.as_str()).as_str(),
            q,
        ),
        Selection::Chain => true,
    }
}

/// The tokens that a selection takes.
fn select<'a>(tokens: &'a [TokenInfo], by: Selection, q: &str, chain_id: Option<u64>) -> (r: Vec<
    &'a TokenInfo,
>)
    ensures
        targets(r@) == selection(tokens@, by, q@, chain_id),
{
    let ghost keep = |t: TokenInfo| selected(t, by, q@, chain_id);
    let mut r: Vec<&TokenInfo> = Vec::new();
    let mut i: usize = 0;
    while i < tokens.len()
        invariant
            i <= tokens.len(),
            keep == (|t: TokenInfo| selected(t, by, q@, chain_id)),
            targets(r@) == tokens@.take(i as int).filter(keep),
        decreases tokens.len() - i,
    {
        let t = &tokens[i];
        proof {
            assert(tokens@.take(i + 1) =~= tokens@.take(i as int).push(*t));
            tokens@.take(i as int).lemma_filter_push(*t, keep);
        }
        if takes(t, &by, q, chain_id) {
            r.push(t);
        }
        i += 1;
    }
    proof {
        assert(tokens@.take(tokens.len() as int) =~= tokens@);
    }
    r
}

/// The tokens of the given address, on the given network where one is given.
/// Addresses are compared without regard to case.
pub fn find_token_by_address<'a>(
    tokens: &'a [TokenInfo],
    address: &str,
    chain_id: Option<u64>,
) -> (r: Vec<&'a TokenInfo>)
    ensures
        targets(r@) == selection(tokens@, Selection::Address, lowercase(address@), chain_id),
{
    let address_lower = to_lowercase(address);
    select(tokens, Selection::Address, address_lower.as_str(), chain_id)
}

/// How many tokens a search returns at most.
pub const TOKEN_SEARCH_LIMIT: usize = 50;

/// The tokens that a search for `query` finds: those whose symbol or name is
/// the query, case apart, and where there is none of these, those whose
/// symbol or name holds it; no more than `TOKEN_SEARCH_LIMIT` either way.
pub open spec fn tokens_found(tokens: Seq<TokenInfo>, query: Seq<char>, chain_id: Option<u64>) -> Seq<
    TokenInfo,
> {
    let exact = selection(tokens, Selection::Exact, lowercase(query), chain_id);
    if exact.len() > 0 {
        at_most(exact, TOKEN_SEARCH_LIMIT as int)
    } else {
        at_most(
            selection(tokens, Selection::Partial, lowercase(query), chain_id),
            TOKEN_SEARCH_LIMIT as int,
        )
    }
}

/// Searches the tokens by symbol and name.
pub fn search_tokens<'a>(tokens: &'a [TokenInfo], query: &str, chain_id: Option<u64>) -> (r: Vec<
    &'a TokenInfo,
>)
    ensures
        targets(r@) == tokens_found(tokens@, query@, chain_id),
{
    let query_lower = to_lowercase(query);
    let mut exact = select(tokens, Selection::Exact, query_lower.as_str(), chain_id);
    if exact.len() > 0 {
        exact.truncate(TOKEN_SEARCH_LIMIT);
        return exact;
    }
    let mut partial = select(tokens, Selection::Partial, query_lower.as_str(), chain_id);
    partial.truncate(TOKEN_SEARCH_LIMIT);
    partial
}

/// The tokens on the network `chain_id`.
pub fn get_tokens_by_chain(tokens: &[TokenInfo], chain_id: u64) -> (r: Vec<&TokenInfo>)
    ensures
        targets(r@) == selection(tokens@, Selection::Chain, Seq::empty(), Some(chain_id)),
{
    proof {
        assert(selection(tokens@, Selection::Chain, ""@, Some(chain_id)) =~= selection(
            tokens@,
            Selection::Chain,
            Seq::empty(),
            Some(chain_id),
        )) by {
            assert((|t: TokenInfo| selected(t, Selection::Chain, ""@, Some(chain_id))) =~= (|
                t: TokenInfo,
            | selected(t, Selection::Chain, Seq::empty(), Some(chain_id))));
        }
    }
    select(tokens, Selection::Chain, "", Some(chain_id))
}

/// The line on the network of a token: its name and chain id where the
/// network is covered, the chain id alone where it is not.
pub open spec fn token_chain_text(chain_id: u64) -> Seq<char> {
    match name_of_chain(chain_id) {
        Some(name) => "  Chain: "@ + name + " (ID: "@ + decimal(chain_id as nat) + ")\n"@,
        None => "  Chain ID: "@ + decimal(chain_id as nat) + "\n"@,
    }
}

/// The line of one bridged network: the network and the address of the token
/// on it, where the entry gives an address; `N/A` for an address that is no
/// string.
pub open spec fn bridge_line(entry: Member) -> Seq<char> {
    match entry.value.member("tokenAddress"@) {
        Some(address) => "    "@ + entry.key + " \u{2192} "@ + (match address {
            Json::Text(t) => t,
            _ => "N/A"@,
        }) + "\n"@,
        None => Seq::empty(),
    }
}

/// The lines of the bridged networks.
pub open spec fn bridge_lines(entries: Seq<Member>) -> Seq<char>
    decreases entries.len(),
{
    if entries.len() == 0 {
        Seq::empty()
    } else {
        bridge_lines(entries.drop_last()) + bridge_line(entries.last())
    }
}

/// What is written of the bridges of a token: a note where the token has
/// bridge information, and a line for each bridged network where that
/// information is an object.
pub open spec fn bridge_text(extensions: Option<JsonObject>) -> Seq<char> {
    match extensions {
        Some(ext) => match lookup(ext@, "bridgeInfo"@) {
            Some(info) => "  Bridge Info: Available\n"@ + (match info {
                Json::Object(entries) => bridge_lines(entries),
                _ => Seq::empty(),
            }),
            None => Seq::empty(),
        },
        None => Seq::empty(),
    }
}

/// What is written of a token.
pub open spec fn token_info_text(t: TokenInfo, show_chain: bool) -> Seq<char> {
    "\u{2022} "@ + t.name@ + " ("@ + t.symbol@ + ")\n  Address: "@ + t.address@ + "\n  Decimals: "@
        + decimal(t.decimals as nat) + "\n"@ + (if show_chain {
        token_chain_text(t.chain_id)
    } else {
        Seq::empty()
    }) + (match t.logo_uri {
        Some(uri) => "  Logo: "@ + uri@ + "\n"@,
        None => Seq::empty(),
    }) + bridge_text(t.extensions)
}

/// Appends the lines of the bridged networks to `out`.
fn push_bridge_lines(out: &mut String, info: &JsonObject)
    ensures
        final(out)@ == old(out)@ + bridge_lines(info@),
{
    let ghost head = out@;
    let mut i: usize = 0;
    while i < info.entries.len()
        invariant
            i <= info.entries.len(),
            out@ == head + bridge_lines(info@.take(i as int)),
        decreases info.entries.len() - i,
    {
        let entry = &info.entries[i];
        proof {
            assert(info@.take(i + 1).drop_last() =~= info@.take(i as int));
        }
        let ghost before = out@;
        match entry.value.get("tokenAddress") {
            Some(address) => {
                out.append("    ");
                out.append(entry.key.as_str());
                out.append(" \u{2192} ");
                match address.as_str() {
                    Some(t) => {
                        out.append(t);
                    },
                    None => {
                        out.append("N/A");
                    },
                }
                out.append("\n");
            },
            None => {
                assert(out@ =~= before + bridge_line(info@[i as int]));
            },
        }
        i += 1;
    }
    proof {
        assert(info@.take(info.entries.len() as int) =~= info@);
    }
}

/// Appends what is written of the bridges of a token to `out`.
fn push_bridges(out: &mut String, extensions: &Option<JsonObject>)
    ensures
        final(out)@ == old(out)@ + bridge_text(*extensions),
{
    match extensions {
        Some(ext) => match ext.get("bridgeInfo") {
            Some(info) => {
                out.append("  Bridge Info: Available\n");
                match info.as_object() {
                    Some(entries) => {
                        push_bridge_lines(out, entries);
                    },
                    None => {},
                }
            },
            None => {},
        },
        None => {},
    }
}

/// The line on the network of a token.
fn token_chain_line(chain_id: u64) -> (r: String)
    ensures
        r@ == token_chain_text(chain_id),
{
    match chain_id_to_name(chain_id) {
        Some(name) => {
            let mut r = String::from_str("  Chain: ");
            r.append(name);
            r.append(" (ID: ");
            r.append(u64_to_string(chain_id).as_str());
            r.append(")\n");
            r
        },
        None => {
            let mut r = String::from_str("  Chain ID: ");
            r.append(u64_to_string(chain_id).as_str());
            r.append("\n");
            r
        },
    }
}

/// What is written of a token, with its network where `show_chain` asks for it.
pub fn format_token_info(token: &TokenInfo, show_chain: bool) -> (r: String)
    ensures
        r@ == token_info_text(*token, show_chain),
{
    let mut r = String::from_str("\u{2022} ");
    r.append(token.name.as_str());
    r.append(" (");
    r.append(token.symbol.as_str());
    r.append(")\n  Address: ");
    r.append(token.address.as_str());
    r.append("\n  Decimals: ");
    r.append(u64_to_string(token.decimals as u64).as_str());
    r.append("\n");
    if show_chain {
        r.append(token_chain_line(token.chain_id).as_str());
    }
    match &token.logo_uri {
        Some(uri) => {
            r.append("  Logo: ");
            r.append(uri.as_str());
            r.append("\n");
        },
        None => {},
    }
    push_bridges(&mut r, &token.extensions);
    r
}

/// What is written of each of the tokens, with a blank line after each.
pub open spec fn token_entries_text(tokens: Seq<TokenInfo>, show_chain: bool) -> Seq<char>
    decreases tokens.len(),
{
    if tokens.len() == 0 {
        Seq::empty()
    } else {
        token_entries_text(tokens.drop_last(), show_chain) + token_info_text(
            tokens.last(),
            show_chain,
        ) + "\n"@
    }
}

/// Appends what is written of the first `n` of the tokens to `out`.
fn push_token_entries(out: &mut String, tokens: &Vec<&TokenInfo>, n: usize, show_chain: bool)
    requires
        n <= tokens@.len(),
    ensures
        final(out)@ == old(out)@ + token_entries_text(targets(tokens@).take(n as int), show_chain),
{
    let ghost head = out@;
    let ghost list = targets(tokens@).take(n as int);
    let mut k: usize = 0;
    while k < n
        invariant
            k <= n <= tokens@.len(),
            list == targets(tokens@).take(n as int),
            out@ == head + token_entries_text(list.take(k as int), show_chain),
        decreases n - k,
    {
        let t: &TokenInfo = tokens[k];
        proof {
            assert(list.take(k + 1).drop_last() =~= list.take(k as int));
        }
        out.append(format_token_info(t, show_chain).as_str());
        out.append("\n");
        k += 1;
    }
    proof {
        assert(list.take(n as int) =~= list);
    }
}

/// The network that a request restricts itself to: what the string under
/// `chain` means, where there is one that means a network.
pub open spec fn chain_under(args: Seq<Member>) -> Option<u64> {
    match text_under(args, "chain"@) {
        Some(chain) => chain_meant(chain),
        None => None,
    }
}

/// The network that a request restricts itself to.
fn chain_argument(args: &JsonObject) -> (r: Option<u64>)
    ensures
        r == chain_under(args@),
{
    match text_argument(args, "chain") {
        Some(chain) => parse_chain_param(chain),
        None => None,
    }
}

/// What a search for tokens asks for.
#[derive(Debug)]
pub struct TokenQuery {
    pub query: String,
    pub chain_id: Option<u64>,
}

/// Reads a search for tokens. The query must be a string; a network that is
/// not understood is no restriction.
pub fn token_query(args: &JsonObject) -> (r: Result<TokenQuery, RequestError>)
    ensures
        match r {
            Ok(q) => text_under(args@, "query"@) == Some(q.query@) && q.chain_id == chain_under(
                args@,
            ),
            Err(e) => text_under(args@, "query"@) is None && e@ == RequestFailure::InvalidParams(
                "Missing or invalid 'query' parameter"@,
            ),
        },
{
    let query = match text_argument(args, "query") {
        Some(t) => String::from_str(t),
        None => {
            return Err(
                RequestError::InvalidParams(String::from_str("Missing or invalid 'query' parameter")),
            );
        },
    };
    Ok(TokenQuery { query, chain_id: chain_argument(args) })
}

/// The name under which an answer mentions a network: its name where it is
/// covered, and `otherwise` where it is not.
pub open spec fn chain_label(chain_id: u64, otherwise: Seq<char>) -> Seq<char> {
    match name_of_chain(chain_id) {
        Some(name) => name,
        None => otherwise,
    }
}

/// The answer to a search for tokens: how many were found and where, and
/// what is written of each, with its network unless the search was
/// restricted to one.
pub open spec fn tokens_answer_text(tokens: Seq<TokenInfo>, q: TokenQuery) -> Seq<char> {
    let found = tokens_found(tokens, q.query@, q.chain_id);
    "Found "@ + decimal(found.len()) + " tokens matching '"@ + q.query@ + (match q.chain_id {
        Some(id) => "' on "@ + chain_label(id, "unknown"@) + "\n\n"@,
        None => "' across all chains\n\n"@,
    }) + (if found.len() == 0 {
        "No tokens found. Try a different search term or check the chain filter.\n"@
    } else {
        token_entries_text(found, q.chain_id is None)
    })
}

/// The name under which an answer mentions a network.
fn label_of(chain_id: u64, otherwise: &'static str) -> (r: &'static str)
    ensures
        r@ == chain_label(chain_id, otherwise@),
{
    match chain_id_to_name(chain_id) {
        Some(name) => name,
        None => otherwise,
    }
}

/// Answers a search for tokens from the list.
pub fn tokens_answer(tokens: &[TokenInfo], query: &TokenQuery) -> (r: String)
    ensures
        r@ == tokens_answer_text(tokens@, *query),
{
    let found = search_tokens(tokens, query.query.as_str(), query.chain_id);
    let mut r = String::from_str("Found ");
    r.append(u64_to_string(found.len() as u64).as_str());
    r.append(" tokens matching '");
    r.append(query.query.as_str());
    let ghost a = r@;
    match query.chain_id {
        Some(id) => {
            r.append("' on ");
            r.append(label_of(id, "unknown"));
            r.append("\n\n");
        },
        None => {
            r.append("' across all chains\n\n");
        },
    }
    if found.len() == 0 {
        r.append("No tokens found. Try a different search term or check the chain filter.\n");
    } else {
        proof {
            assert(targets(found@).take(found@.len() as int) =~= targets(found@));
        }
        push_token_entries(&mut r, &found, found.len(), query.chain_id.is_none());
    }
    r
}

/// What a lookup of a token by address asks for.
#[derive(Debug)]
pub struct AddressQuery {
    /// The address, with `0x` in front.
    pub address: String,
    pub chain_id: Option<u64>,
}

/// The address with `0x` in front, where it does not have it already.
pub open spec fn normalized_address(address: Seq<char>) -> Seq<char> {
    if is_prefix(address, "0x"@) {
        address
    } else {
        "0x"@ + address
    }
}

/// Reads a lookup of a token by address. The address must be a string; a
/// network that is not understood is no restriction.
pub fn address_query(args: &JsonObject) -> (r: Result<AddressQuery, RequestError>)
    ensures
        match r {
            Ok(q) => text_under(args@, "address"@) matches Some(a) && q.address@
                == normalized_address(a) && q.chain_id == chain_under(args@),
            Err(e) => text_under(args@, "address"@) is None && e@ == RequestFailure::InvalidParams(
                "Missing or invalid 'address' parameter"@,
            ),
        },
{
    let address = match text_argument(args, "address") {
        Some(t) => if starts_with(t, "0x") {
            String::from_str(t)
        } else {
            concat("0x", t)
        },
        None => {
            return Err(
                RequestError::InvalidParams(
                    String::from_str("Missing or invalid 'address' parameter"),
                ),
            );
        },
    };
    Ok(AddressQuery { address, chain_id: chain_argument(args) })
}

/// The answer to a lookup by address: the token where there is one, the
/// tokens where there are several, and a note with a tip where there is none.
pub open spec fn address_answer_text(tokens: Seq<TokenInfo>, q: AddressQuery) -> Seq<char> {
    let found = selection(tokens, Selection::Address, lowercase(q.address@), q.chain_id);
    if found.len() == 0 {
        "No token found with address "@ + q.address@ + "\n"@
            + "\nTip: Make sure the address is correct and exists in the token list.\n"@
    } else if found.len() == 1 {
        "Token found:\n\n"@ + token_info_text(found[0], true)
    } else {
        "Found "@ + decimal(found.len()) + " tokens with address "@ + q.address@
            + " on different chains:\n\n"@ + token_entries_text(found, true)
    }
}

/// Answers a lookup of a token by address from the list.
pub fn address_answer(tokens: &[TokenInfo], query: &AddressQuery) -> (r: String)
    ensures
        r@ == address_answer_text(tokens@, *query),
{
    let found = find_token_by_address(tokens, query.address.as_str(), query.chain_id);
    if found.len() == 0 {
        let mut r = String::from_str("No token found with address ");
        r.append(query.address.as_str());
        r.append("\n");
        r.append("\nTip: Make sure the address is correct and exists in the token list.\n");
        r
    } else if found.len() == 1 {
        let t: &TokenInfo = found[0];
        let mut r = String::from_str("Token found:\n\n");
        r.append(format_token_info(t, true).as_str());
        r
    } else {
        let mut r = String::from_str("Found ");
        r.append(u64_to_string(found.len() as u64).as_str());
        r.append(" tokens with address ");
        r.append(query.address.as_str());
        r.append(" on different chains:\n\n");
        proof {
            assert(targets(found@).take(found@.len() as int) =~= targets(found@));
        }
        push_token_entries(&mut r, &found, found.len(), true);
        r
    }
}

/// What a listing of the tokens of a network asks for.
#[derive(Debug)]
pub struct ChainTokensQuery {
    pub chain_id: u64,
    /// How many tokens to list at most.
    pub limit: usize,
}

/// How many tokens a listing shows where the request does not say.
pub const DEFAULT_LISTING_LIMIT: u64 = 50;

/// How many tokens a listing shows at most, whatever the request says.
pub const MAX_LISTING_LIMIT: u64 = 200;

/// How many tokens a listing shows: what the request says, `DEFAULT_LISTING_LIMIT`
/// where it says nothing, and never more than `MAX_LISTING_LIMIT`.
pub open spec fn listing_limit(args: Seq<Member>) -> int {
    let asked = match number_under(args, "limit"@) {
        Some(n) => n,
        None => DEFAULT_LISTING_LIMIT,
    };
    if asked <= MAX_LISTING_LIMIT {
        asked as int
    } else {
        MAX_LISTING_LIMIT as int
    }
}

/// Reads a listing of the tokens of a network. The network must be given as
/// a string that means one.
pub fn chain_tokens_query(args: &JsonObject) -> (r: Result<ChainTokensQuery, RequestError>)
    ensures
        match r {
            Ok(q) => chain_under(args@) == Some(q.chain_id) && q.limit == listing_limit(args@),
            Err(e) => chain_under(args@) is None && e@ == RequestFailure::InvalidParams(
                match text_under(args@, "chain"@) {
                    Some(chain) => "Invalid chain '"@ + chain
                        + "'. Use chain name (e.g., 'ethereum', 'optimism') or chain ID"@,
                    None => "Missing or invalid 'chain' parameter"@,
                },
            ),
        },
{
    let chain = match text_argument(args, "chain") {
        Some(t) => t,
        None => {
            return Err(
                RequestError::InvalidParams(String::from_str("Missing or invalid 'chain' parameter")),
            );
        },
    };
    let chain_id = match parse_chain_param(chain) {
        Some(id) => id,
        None => {
            let mut message = String::from_str("Invalid chain '");
            message.append(chain);
            message.append("'. Use chain name (e.g., 'ethereum', 'optimism') or chain ID");
            return Err(RequestError::InvalidParams(message));
        },
    };
    let asked = match number_argument(args, "limit") {
        Some(n) => n,
        None => DEFAULT_LISTING_LIMIT,
    };
    let limit: usize = if asked <= MAX_LISTING_LIMIT {
        asked as usize
    } else {
        MAX_LISTING_LIMIT as usize
    };
    Ok(ChainTokensQuery { chain_id, limit })
}

/// The answer to a listing of the tokens of a network: how many there are,
/// what is written of the first of them up to the limit, and how many were
/// left out.
pub open spec fn chain_tokens_answer_text(tokens: Seq<TokenInfo>, q: ChainTokensQuery) -> Seq<char> {
    let found = selection(tokens, Selection::Chain, Seq::empty(), Some(q.chain_id));
    "Found "@ + decimal(found.len()) + " tokens on "@ + chain_label(q.chain_id, "Unknown"@)
        + " (Chain ID: "@ + decimal(q.chain_id as nat) + ")\n\n"@ + (if found.len() == 0 {
        "No tokens found for this chain.\n"@
    } else {
        token_entries_text(at_most(found, q.limit as int), false) + (if found.len() > q.limit {
            "\n... and "@ + decimal((found.len() - q.limit) as nat)
                + " more tokens. Increase the limit parameter to see more.\n"@
        } else {
            Seq::empty()
        })
    })
}

/// Answers a listing of the tokens of a network from the list.
pub fn chain_tokens_answer(tokens: &[TokenInfo], query: &ChainTokensQuery) -> (r: String)
    ensures
        r@ == chain_tokens_answer_text(tokens@, *query),
{
    let found = get_tokens_by_chain(tokens, query.chain_id);
    let mut r = String::from_str("Found ");
    r.append(u64_to_string(found.len() as u64).as_str());
    r.append(" tokens on ");
    r.append(label_of(query.chain_id, "Unknown"));
    r.append(" (Chain ID: ");
    r.append(u64_to_string(query.chain_id).as_str());
    r.append(")\n\n");
    if found.len() == 0 {
        r.append("No tokens found for this chain.\n");
        return r;
    }
    let shown = if found.len() <= query.limit {
        found.len()
    } else {
        query.limit
    };
    proof {
        if found.len() <= query.limit {
            assert(targets(found@).take(shown as int) =~= targets(found@));
        }
    }
    push_token_entries(&mut r, &found, shown, false);
    if found.len() > query.limit {
        r.append("\n... and ");
        r.append(u64_to_string((found.len() - query.limit) as u64).as_str());
        r.append(" more tokens. Increase the limit parameter to see more.\n");
    }
    r
}

/// One line for each of the networks.
pub open spec fn network_lines(networks: Seq<Network>) -> Seq<char>
    decreases networks.len(),
{
    if networks.len() == 0 {
        Seq::empty()
    } else {
        network_lines(networks.drop_last()) + "\u{2022} "@ + networks.last().name
            + " - Chain ID: "@ + decimal(networks.last().id as nat) + "\n"@
    }
}

/// The list of the covered networks.
pub open spec fn supported_chains_text() -> Seq<char> {
    "Supported Chains:\n\n"@ + network_lines(supported_chains())
        + "\nUse these chain names or IDs with search_tokens, get_token_by_address, or list_chain_tokens.\n"@
}

/// The list of the covered networks.
pub fn supported_chains_answer() -> (r: String)
    ensures
        r@ == supported_chains_text(),
{
    let mut r = String::from_str("Supported Chains:\n\n");
    let ghost head = r@;
    let ghost all = supported_chains();
    let mut i: usize = 0;
    while i < SUPPORTED_CHAIN_COUNT
        invariant
            i <= SUPPORTED_CHAIN_COUNT,
            all == supported_chains(),
            all.len() == SUPPORTED_CHAIN_COUNT,
            r@ == head + network_lines(all.take(i as int)),
        decreases SUPPORTED_CHAIN_COUNT - i,
    {
        let entry = supported_chain(i);
        proof {
            assert(all.take(i + 1).drop_last() =~= all.take(i as int));
        }
        r.append("\u{2022} ");
        r.append(entry.0);
        r.append(" - Chain ID: ");
        r.append(u64_to_string(entry.1).as_str());
        r.append("\n");
        i += 1;
    }
    proof {
        assert(all.take(SUPPORTED_CHAIN_COUNT as int) =~= all);
    }
    r.append(
        "\nUse these chain names or IDs with search_tokens, get_token_by_address, or list_chain_tokens.\n",
    );
    r
}

/// The failure of a request that could not get the list.
pub fn fetch_failure(reason: &str) -> (e: RequestError)
    ensures
        e@ == RequestFailure::InternalError("Failed to fetch token list: "@ + reason@),
{
    RequestError::InternalError(concat("Failed to fetch token list: ", reason))
}

/// What the tool that searches tokens says of itself.
pub const SEARCH_TOKENS_ABOUT: &'static str =
    "Search for tokens by name or symbol across all supported chains. Returns token information including addresses, decimals, and bridge info.";

/// What the tool that looks a token up by address says of itself.
pub const GET_TOKEN_BY_ADDRESS_ABOUT: &'static str =
    "Get token information by contract address. Supports searching across all chains or filtering by specific chain.";

/// What the tool that lists the tokens of a network says of itself.
pub const LIST_CHAIN_TOKENS_ABOUT: &'static str =
    "List all tokens available on a specific blockchain network.";

/// What the tool that lists the covered networks says of itself.
pub const LIST_SUPPORTED_CHAINS_ABOUT: &'static str =
    "List all blockchain networks supported by the token list with their chain IDs.";

/// The tool that searches the tokens.
pub open spec fn search_tokens_tool() -> ToolView {
    tool_view(
        "search_tokens"@,
        SEARCH_TOKENS_ABOUT@,
        seq![
            parameter(
                "query"@,
                "string"@,
                "Token name or symbol to search for (e.g., 'USDC', 'Ethereum')"@,
            ),
            parameter(
                "chain"@,
                "string"@,
                "Optional: Filter by chain name or ID (e.g., 'ethereum', 'optimism', '10')"@,
            ),
        ],
        seq!["query"@],
    )
}

/// The tool that looks a token up by its address.
pub open spec fn get_token_by_address_tool() -> ToolView {
    tool_view(
        "get_token_by_address"@,
        GET_TOKEN_BY_ADDRESS_ABOUT@,
        seq![
            parameter(
                "address"@,
                "string"@,
                "Token contract address (with or without 0x prefix)"@,
            ),
            parameter(
                "chain"@,
                "string"@,
                "Optional: Chain name or ID to search on (e.g., 'ethereum', 'optimism', '10')"@,
            ),
        ],
        seq!["address"@],
    )
}

/// The tool that lists the tokens of a network.
pub open spec fn list_chain_tokens_tool() -> ToolView {
    tool_view(
        "list_chain_tokens"@,
        LIST_CHAIN_TOKENS_ABOUT@,
        seq![
            parameter(
                "chain"@,
                "string"@,
                "Chain name or ID (e.g., 'ethereum', 'optimism', '10', 'base')"@,
            ),
            parameter("limit"@, "number"@, "Maximum number of tokens to return (default: 50)"@),
        ],
        seq!["chain"@],
    )
}

/// The tool that lists the covered networks. It takes no arguments.
pub open spec fn list_supported_chains_tool() -> ToolView {
    tool_view("list_supported_chains"@, LIST_SUPPORTED_CHAINS_ABOUT@, Seq::empty(), Seq::empty())
}

/// The four tools of the token list, in the order in which they are offered.
pub fn get_tokenlist_tools() -> (r: Vec<Tool>)
    ensures
        tool_views(r@) == seq![
            search_tokens_tool(),
            get_token_by_address_tool(),
            list_chain_tokens_tool(),
            list_supported_chains_tool(),
        ],
{
    let mut search: Vec<JsonEntry> = Vec::new();
    search.push(
        parameter_entry(
            "query",
            "string",
            "Token name or symbol to search for (e.g., 'USDC', 'Ethereum')",
        ),
    );
    search.push(
        parameter_entry(
            "chain",
            "string",
            "Optional: Filter by chain name or ID (e.g., 'ethereum', 'optimism', '10')",
        ),
    );
    proof {
        assert(members(search@) =~= search_tokens_tool().input_schema[1].value->Object_0);
    }
    let search_required: [&str; 1] = ["query"];
    let first = make_tool("search_tokens", SEARCH_TOKENS_ABOUT, search, &search_required);

    let mut lookup: Vec<JsonEntry> = Vec::new();
    lookup.push(
        parameter_entry("address", "string", "Token contract address (with or without 0x prefix)"),
    );
    lookup.push(
        parameter_entry(
            "chain",
            "string",
            "Optional: Chain name or ID to search on (e.g., 'ethereum', 'optimism', '10')",
        ),
    );
    proof {
        assert(members(lookup@) =~= get_token_by_address_tool().input_schema[1].value->Object_0);
    }
    let lookup_required: [&str; 1] = ["address"];
    let second = make_tool(
        "get_token_by_address",
        GET_TOKEN_BY_ADDRESS_ABOUT,
        lookup,
        &lookup_required,
    );

    let mut listing: Vec<JsonEntry> = Vec::new();
    listing.push(
        parameter_entry(
            "chain",
            "string",
            "Chain name or ID (e.g., 'ethereum', 'optimism', '10', 'base')",
        ),
    );
    listing.push(
        parameter_entry("limit", "number", "Maximum number of tokens to return (default: 50)"),
    );
    proof {
        assert(members(listing@) =~= list_chain_tokens_tool().input_schema[1].value->Object_0);
    }
    let listing_required: [&str; 1] = ["chain"];
    let third = make_tool("list_chain_tokens", LIST_CHAIN_TOKENS_ABOUT, listing, &listing_required);

    let none: Vec<JsonEntry> = Vec::new();
    proof {
        assert(members(none@) =~= Seq::<Member>::empty());
    }
    let no_required: [&str; 0] = [];
    let fourth = make_tool("list_supported_chains", LIST_SUPPORTED_CHAINS_ABOUT, none, &no_required);

    proof {
        assert(slices(search_required@) =~= seq!["query"@]);
        assert(slices(lookup_required@) =~= seq!["address"@]);
        assert(slices(listing_required@) =~= seq!["chain"@]);
    }
    let mut r: Vec<Tool> = Vec::new();
    r.push(first);
    r.push(second);
    r.push(third);
    r.push(fourth);
    r
}

} // verus!
