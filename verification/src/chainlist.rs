//! The directory of networks and their RPC endpoints: finding a network,
//! choosing among its endpoints, and writing the answer down.

use vstd::prelude::*;
use vstd::string::StringExecFns;
use crate::json::members;
use crate::json::Json;
use crate::json::JsonEntry;
use crate::json::JsonObject;
use crate::json::JsonValue;
use crate::json::Member;
use crate::lists::at_most;
use crate::lists::first_where;
use crate::lists::lemma_first_where_is;
use crate::lists::targets;
use crate::request::flag_argument;
use crate::request::flag_under;
use crate::request::number_argument;
use crate::request::number_under;
use crate::request::text_argument;
use crate::request::text_under;
use crate::request::RequestError;
use crate::request::RequestFailure;
use crate::text::concat;
use crate::text::contains;
use crate::text::decimal;
use crate::text::has_infix;
use crate::text::is_prefix;
use crate::text::join;
use crate::text::join_with;
use crate::text::lemma_texts_push;
use crate::text::lowercase;
use crate::text::parse_u64;
use crate::text::parsed_u64;
use crate::text::slices;
use crate::text::starts_with;
use crate::text::str_eq;
use crate::text::texts;
use crate::text::to_lowercase;
use crate::text::u64_to_string;
use crate::tool::make_tool;
use crate::tool::parameter;
use crate::tool::parameter_entry;
use crate::tool::tool_view;
use crate::tool::tool_views;
use crate::tool::Tool;
use crate::tool::ToolView;

verus! {

/// An RPC endpoint of a network: a bare URL, or a URL with what is known of
/// the endpoint.
#[derive(Debug, PartialEq)]
pub enum RpcEntry {
    String(String),
    Object { url: String, tracking: Option<String>, is_open_source: Option<bool> },
}

impl Clone for RpcEntry {
    fn clone(&self) -> (r: Self)
        ensures
            r == *self,
    {
        match self {
            RpcEntry::String(s) => RpcEntry::String(s.clone()),
            RpcEntry::Object { url, tracking, is_open_source } => RpcEntry::Object {
                url: url.clone(),
                tracking: match tracking {
                    Some(t) => Some(t.clone()),
                    None => None,
                },
                is_open_source: *is_open_source,
            },
        }
    }
}

impl RpcEntry {
    /// The URL of the endpoint.
    pub open spec fn url_text(self) -> Seq<char> {
        match self {
            RpcEntry::String(s) => s@,
            RpcEntry::Object { url, .. } => url@,
        }
    }

    /// What is known of the tracking that the endpoint does.
    pub open spec fn tracking_text(self) -> Option<Seq<char>> {
        match self {
            RpcEntry::String(_) => None,
            RpcEntry::Object { tracking, .. } => match tracking {
                Some(t) => Some(t@),
                None => None,
            },
        }
    }

    /// Whether the endpoint is known to be open source, or known not to be.
    pub open spec fn open_source(self) -> Option<bool> {
        match self {
            RpcEntry::String(_) => None,
            RpcEntry::Object { is_open_source, .. } => is_open_source,
        }
    }

    /// The URL of the endpoint.
    pub fn url(&self) -> (r: &str)
        ensures
            r@ == self.url_text(),
    {
        match self {
            RpcEntry::String(s) => s.as_str(),
            RpcEntry::Object { url, .. } => url.as_str(),
        }
    }

    /// What is known of the tracking that the endpoint does.
    pub fn tracking(&self) -> (r: Option<&String>)
        ensures
            match r {
                Some(t) => self.tracking_text() == Some(t@),
                None => self.tracking_text() is None,
            },
    {
        match self {
            RpcEntry::String(_) => None,
            RpcEntry::Object { tracking, .. } => match tracking {
                Some(t) => Some(t),
                None => None,
            },
        }
    }

    /// Whether the endpoint is known to be open source, or known not to be.
    pub fn is_open_source(&self) -> (r: Option<bool>)
        ensures
            r == self.open_source(),
    {
        match self {
            RpcEntry::String(_) => None,
            RpcEntry::Object { is_open_source, .. } => *is_open_source,
        }
    }
}

/// What the directory holds of one network.
#[derive(Debug, Clone)]
pub struct ChainInfo {
    pub name: String,
    pub chain: String,
    pub chain_id: u64,
    pub network_id: Option<u64>,
    pub rpc: Vec<RpcEntry>,
    pub faucets: Vec<String>,
    pub native_currency: Option<JsonValue>,
    pub info_url: Option<String>,
    pub short_name: String,
    pub explorers: Vec<JsonValue>,
    pub icon: Option<String>,
    pub testnet: Option<bool>,
    pub features: Vec<JsonValue>,
    /// Whatever else the directory says of the network.
    pub extra: JsonObject,
}

/// Which endpoints are wanted, and whether to put the open ones first.
#[derive(Debug, Clone, Copy)]
pub struct RpcFilter {
    pub no_tracking: bool,
    pub prefer_open_source: bool,
    pub websocket_only: bool,
    pub http_only: bool,
}

impl Default for RpcFilter {
    /// The filter that lets every endpoint pass and leaves the order alone.
    fn default() -> (r: Self)
        ensures
            !r.no_tracking,
            !r.prefer_open_source,
            !r.websocket_only,
            !r.http_only,
    {
        RpcFilter {
            no_tracking: false,
            prefer_open_source: false,
            websocket_only: false,
            http_only: false,
        }
    }
}

/// Whether one of the three names of the network, in lower case, is `q`.
pub open spec fn names_equal(c: ChainInfo, q: Seq<char>) -> bool {
    lowercase(c.name@) == q || lowercase(c.short_name@) == q || lowercase(c.chain@) == q
}

/// Whether one of the three names of the network, in lower case, holds `q`.
pub open spec fn names_contain(c: ChainInfo, q: Seq<char>) -> bool {
    has_infix(lowercase(c.name@), q) || has_infix(lowercase(c.short_name@), q) || has_infix(
        lowercase(c.chain@),
        q,
    )
}

/// The position of the network that a query means, or the number of networks
/// where it means none. A query that reads as a number means the first
/// network of that chain id, if there is one. Otherwise, and for any other
/// query, it means the first network one of whose names is the query, case
/// apart, and failing that the first one of whose names holds it.
pub open spec fn chain_match(chains: Seq<ChainInfo>, query: Seq<char>) -> nat {
    let by_id = match parsed_u64(query) {
        Some(id) => first_where(chains, |c: ChainInfo| c.chain_id == id),
        None => chains.len(),
    };
    if by_id < chains.len() {
        by_id
    } else {
        let q = lowercase(query);
        let exact = first_where(chains, |c: ChainInfo| names_equal(c, q));
        if exact < chains.len() {
            exact
        } else {
            first_where(chains, |c: ChainInfo| names_contain(c, q))
        }
    }
}

/// Whether one of the three names of the network, in lower case, is `q`.
fn has_name(c: &ChainInfo, q: &str) -> (r: bool)
    ensures
        r == names_equal(*c, q@),
{
    str_eq(to_lowercase(c.name.as_str()).as_str(), q) || str_eq(
        to_lowercase(c.short_name.as_str()).as_str(),
        q,
    ) || str_eq(to_lowercase(c.chain.as_str()).as_str(), q)
}

/// Whether one of the three names of the network, in lower case, holds `q`.
fn has_name_with(c: &ChainInfo, q: &str) -> (r: bool)
    ensures
        r == names_contain(*c, q@),
{
    contains(to_lowercase(c.name.as_str()).as_str(), q) || contains(
        to_lowercase(c.short_name.as_str()).as_str(),
        q,
    ) || contains(to_lowercase(c.chain.as_str()).as_str(), q)
}

/// The position of the first network of the chain id `id`.
fn position_of_id(chains: &[ChainInfo], id: u64) -> (i: usize)
    ensures
        i == first_where(chains@, |c: ChainInfo| c.chain_id == id),
        i <= chains@.len(),
{
    let ghost p = |c: ChainInfo| c.chain_id == id;
    let mut i: usize = 0;
    while i < chains.len()
        invariant
            i <= chains.len(),
            p == (|c: ChainInfo| c.chain_id == id),
            forall|j: int| 0 <= j < i ==> !p(chains@[j]),
        decreases chains.len() - i,
    {
        if chains[i].chain_id == id {
            proof {
                lemma_first_where_is(chains@, p, i as int);
            }
            return i;
        }
        i += 1;
    }
    proof {
        lemma_first_where_is(chains@, p, i as int);
    }
    i
}

/// The position of the first network one of whose names is `q`.
fn position_of_name(chains: &[ChainInfo], q: &str) -> (i: usize)
    ensures
        i == first_where(chains@, |c: ChainInfo| names_equal(c, q@)),
        i <= chains@.len(),
{
    let ghost p = |c: ChainInfo| names_equal(c, q@);
    let mut i: usize = 0;
    while i < chains.len()
        invariant
            i <= chains.len(),
            p == (|c: ChainInfo| names_equal(c, q@)),
            forall|j: int| 0 <= j < i ==> !p(chains@[j]),
        decreases chains.len() - i,
    {
        if has_name(&chains[i], q) {
            proof {
                lemma_first_where_is(chains@, p, i as int);
            }
            return i;
        }
        i += 1;
    }
    proof {
        lemma_first_where_is(chains@, p, i as int);
    }
    i
}

/// The position of the first network one of whose names holds `q`.
fn position_of_name_with(chains: &[ChainInfo], q: &str) -> (i: usize)
    ensures
        i == first_where(chains@, |c: ChainInfo| names_contain(c, q@)),
        i <= chains@.len(),
{
    let ghost p = |c: ChainInfo| names_contain(c, q@);
    let mut i: usize = 0;
    while i < chains.len()
        invariant
            i <= chains.len(),
            p == (|c: ChainInfo| names_contain(c, q@)),
            forall|j: int| 0 <= j < i ==> !p(chains@[j]),
        decreases chains.len() - i,
    {
        if has_name_with(&chains[i], q) {
            proof {
                lemma_first_where_is(chains@, p, i as int);
            }
            return i;
        }
        i += 1;
    }
    proof {
        lemma_first_where_is(chains@, p, i as int);
    }
    i
}

/// The network that `query` means: by chain id, by name, or by part of a name.
pub fn find_chain_rpcs<'a>(chains: &'a [ChainInfo], query: &str) -> (r: Option<&'a ChainInfo>)
    ensures
        match r {
            Some(c) => chain_match(chains@, query@) < chains@.len() && *c == chains@[chain_match(
                chains@,
                query@,
            ) as int],
            None => chain_match(chains@, query@) == chains@.len(),
        },
{
    match parse_u64(query) {
        Some(id) => {
            let i = position_of_id(chains, id);
            if i < chains.len() {
                return Some(&chains[i]);
            }
        },
        None => {},
    }
    let query_lower = to_lowercase(query);
    let i = position_of_name(chains, query_lower.as_str());
    if i < chains.len() {
        return Some(&chains[i]);
    }
    let j = position_of_name_with(chains, query_lower.as_str());
    if j < chains.len() {
        Some(&chains[j])
    } else {
        None
    }
}

/// How many networks a search returns at most.
pub const SEARCH_LIMIT: usize = 50;

/// Whether a search for `q` finds the network: in one of its names, case
/// apart, or in its chain id as written in decimal.
pub open spec fn chain_found(c: ChainInfo, q: Seq<char>) -> bool {
    names_contain(c, q) || has_infix(decimal(c.chain_id as nat), q)
}

/// The networks that a search for `query` finds, in their order, and no more
/// than `SEARCH_LIMIT` of them.
pub open spec fn chains_found(chains: Seq<ChainInfo>, query: Seq<char>) -> Seq<ChainInfo> {
    at_most(chains.filter(|c: ChainInfo| chain_found(c, lowercase(query))), SEARCH_LIMIT as int)
}

/// The networks that match `query`.
pub fn search_chains<'a>(chains: &'a [ChainInfo], query: &str) -> (r: Vec<&'a ChainInfo>)
    ensures
        targets(r@) == chains_found(chains@, query@),
{
    let query_lower = to_lowercase(query);
    let ghost keep = |c: ChainInfo| chain_found(c, lowercase(query@));
    let mut r: Vec<&ChainInfo> = Vec::new();
    let mut i: usize = 0;
    while i < chains.len() && r.len() < SEARCH_LIMIT
        invariant
            i <= chains.len(),
            r@.len() <= SEARCH_LIMIT,
            query_lower@ == lowercase(query@),
            keep == (|c: ChainInfo| chain_found(c, lowercase(query@))),
            targets(r@) == chains@.take(i as int).filter(keep),
        decreases chains.len() - i,
    {
        let c = &chains[i];
        proof {
            assert(chains@.take(i + 1) =~= chains@.take(i as int).push(*c));
            chains@.take(i as int).lemma_filter_push(*c, keep);
        }
        if has_name_with(c, query_lower.as_str()) || contains(
            u64_to_string(c.chain_id).as_str(),
            query_lower.as_str(),
        ) {
            r.push(c);
        }
        i += 1;
    }
    proof {
        assert(chains@ =~= chains@.take(i as int) + chains@.skip(i as int));
    }
    r
}

/// Forgets the cached directory, so that the next request fetches it anew.
pub fn clear_cache(cache: &mut Option<Vec<ChainInfo>>)
    ensures
        *final(cache) is None,
{
    *cache = None;
}

/// Whether an endpoint passes a filter. Where no tracking is wanted, only an
/// endpoint that is known to do none passes; where one protocol is wanted,
/// only a URL of that protocol does.
pub open spec fn rpc_passes(rpc: RpcEntry, filter: RpcFilter) -> bool {
    let url = rpc.url_text();
    &&& filter.no_tracking ==> rpc.tracking_text() == Some("none"@)
    &&& filter.websocket_only ==> is_prefix(url, "wss://"@) || is_prefix(url, "ws://"@)
    &&& filter.http_only ==> is_prefix(url, "https://"@) || is_prefix(url, "http://"@)
}

/// The rank of an endpoint where open ones are preferred, from 0 for the
/// most wanted to 5: open source comes before everything else, and within
/// either group no tracking, or none known, comes before limited tracking,
/// and that before any other.
pub open spec fn preference(rpc: RpcEntry) -> int {
    (if rpc.open_source() == Some(true) {
        0int
    } else {
        3int
    }) + (match rpc.tracking_text() {
        None => 0int,
        Some(t) => if t == "none"@ {
            0int
        } else if t == "limited"@ {
            1int
        } else {
            2int
        },
    })
}

/// The endpoints of rank `rank`, in their order.
pub open spec fn of_rank(rpcs: Seq<RpcEntry>, rank: int) -> Seq<RpcEntry> {
    rpcs.filter(|rpc: RpcEntry| preference(rpc) == rank)
}

/// The endpoints of the ranks below `rank`, by ascending rank; those of
/// equal rank stay in their order.
pub open spec fn ranks_below(rpcs: Seq<RpcEntry>, rank: int) -> Seq<RpcEntry>
    decreases rank,
{
    if rank <= 0 {
        Seq::empty()
    } else {
        ranks_below(rpcs, rank - 1) + of_rank(rpcs, rank - 1)
    }
}

/// The endpoints by ascending rank; those of equal rank stay in their order.
pub open spec fn by_preference(rpcs: Seq<RpcEntry>) -> Seq<RpcEntry> {
    ranks_below(rpcs, 6)
}

/// The endpoints that pass the filter, by preference where the filter asks
/// for it and in their order where it does not.
pub open spec fn rpcs_chosen(rpcs: Seq<RpcEntry>, filter: RpcFilter) -> Seq<RpcEntry> {
    let passing = rpcs.filter(|rpc: RpcEntry| rpc_passes(rpc, filter));
    if filter.prefer_open_source {
        by_preference(passing)
    } else {
        passing
    }
}

/// Filtering what was filtered by the same predicate changes nothing.
proof fn lemma_filter_again(s: Seq<RpcEntry>, pred: spec_fn(RpcEntry) -> bool)
    ensures
        s.filter(pred).filter(pred) == s.filter(pred),
    decreases s.len(),
{
    reveal(Seq::filter);
    if s.len() > 0 {
        lemma_filter_again(s.drop_last(), pred);
        if pred(s.last()) {
            s.drop_last().filter(pred).lemma_filter_push(s.last(), pred);
        }
    }
}

/// The endpoints of one rank hold none of another.
proof fn lemma_other_rank_empty(rpcs: Seq<RpcEntry>, a: int, b: int)
    requires
        a != b,
    ensures
        of_rank(of_rank(rpcs, a), b) == Seq::<RpcEntry>::empty(),
    decreases rpcs.len(),
{
    reveal(Seq::filter);
    if rpcs.len() > 0 {
        lemma_other_rank_empty(rpcs.drop_last(), a, b);
        if preference(rpcs.last()) == a {
            of_rank(rpcs.drop_last(), a).lemma_filter_push(
                rpcs.last(),
                |rpc: RpcEntry| preference(rpc) == b,
            );
        }
    }
}

/// Among the endpoints of the ranks below `n`, those of a rank below `n` are
/// the endpoints of that rank, and there are none of any other rank.
proof fn lemma_ranks_below(rpcs: Seq<RpcEntry>, n: int, r: int)
    ensures
        of_rank(ranks_below(rpcs, n), r) == if 0 <= r < n {
            of_rank(rpcs, r)
        } else {
            Seq::<RpcEntry>::empty()
        },
        forall|i: int|
            0 <= i < ranks_below(rpcs, n).len() ==> 0 <= preference(
                #[trigger] ranks_below(rpcs, n)[i],
            ) < n,
        forall|i: int, j: int|
            0 <= i < j < ranks_below(rpcs, n).len() ==> preference(ranks_below(rpcs, n)[i])
                <= preference(ranks_below(rpcs, n)[j]),
    decreases n,
{
    reveal(Seq::filter);
    if n > 0 {
        let below = ranks_below(rpcs, n - 1);
        let last = of_rank(rpcs, n - 1);
        let at = |rpc: RpcEntry| preference(rpc) == r;
        lemma_ranks_below(rpcs, n - 1, r);
        Seq::filter_distributes_over_add(below, last, at);
        if r == n - 1 {
            lemma_filter_again(rpcs, at);
        } else {
            lemma_other_rank_empty(rpcs, n - 1, r);
        }
        assert forall|i: int| 0 <= i < last.len() implies preference(#[trigger] last[i]) == n
            - 1 by {
            rpcs.lemma_filter_pred(|rpc: RpcEntry| preference(rpc) == n - 1, i);
        }
        assert(of_rank(below + last, r) =~= if 0 <= r < n {
            of_rank(rpcs, r)
        } else {
            Seq::<RpcEntry>::empty()
        });
    }
}

/// Sorting by preference is a stable sort: the ranks ascend in the result,
/// and for every rank the endpoints of that rank stand in it as they stood
/// before, none added and none lost.
pub proof fn lemma_by_preference(rpcs: Seq<RpcEntry>, r: int)
    ensures
        forall|i: int, j: int|
            0 <= i < j < by_preference(rpcs).len() ==> preference(by_preference(rpcs)[i])
                <= preference(by_preference(rpcs)[j]),
        of_rank(by_preference(rpcs), r) == of_rank(rpcs, r),
{
    lemma_ranks_below(rpcs, 6, r);
    if !(0 <= r < 6) {
        assert forall|i: int| 0 <= i < rpcs.len() implies preference(#[trigger] rpcs[i]) != r by {}
        rpcs.lemma_all_neg_filter_empty(|rpc: RpcEntry| preference(rpc) == r);
        assert(of_rank(rpcs, r) =~= Seq::<RpcEntry>::empty());
    }
}

/// Whether an endpoint passes a filter.
fn passes(rpc: &RpcEntry, filter: &RpcFilter) -> (r: bool)
    ensures
        r == rpc_passes(*rpc, *filter),
{
    if filter.no_tracking {
        let untracked = match rpc.tracking() {
            Some(t) => str_eq(t.as_str(), "none"),
            None => false,
        };
        if !untracked {
            return false;
        }
    }
    let url = rpc.url();
    if filter.websocket_only && !starts_with(url, "wss://") && !starts_with(url, "ws://") {
        return false;
    }
    if filter.http_only && !starts_with(url, "https://") && !starts_with(url, "http://") {
        return false;
    }
    true
}

/// The rank of an endpoint where open ones are preferred.
fn rank_of(rpc: &RpcEntry) -> (r: u8)
    ensures
        r == preference(*rpc),
        r <= 5,
{
    let open: u8 = match rpc.is_open_source() {
        Some(true) => 0,
        _ => 3,
    };
    let tracking: u8 = match rpc.tracking() {
        None => 0,
        Some(t) => if str_eq(t.as_str(), "none") {
            0
        } else if str_eq(t.as_str(), "limited") {
            1
        } else {
            2
        },
    };
    open + tracking
}

/// Appends to `out` the endpoints of `rpcs` that are of rank `rank`.
fn push_of_rank(out: &mut Vec<RpcEntry>, rpcs: &Vec<RpcEntry>, rank: u8)
    ensures
        final(out)@ == old(out)@ + of_rank(rpcs@, rank as int),
{
    let ghost before = out@;
    let ghost keep = |rpc: RpcEntry| preference(rpc) == rank as int;
    let mut i: usize = 0;
    proof {
        reveal(Seq::filter);
    }
    while i < rpcs.len()
        invariant
            i <= rpcs.len(),
            keep == (|rpc: RpcEntry| preference(rpc) == rank as int),
            out@ == before + rpcs@.take(i as int).filter(keep),
        decreases rpcs.len() - i,
    {
        proof {
            assert(rpcs@.take(i + 1) =~= rpcs@.take(i as int).push(rpcs@[i as int]));
            rpcs@.take(i as int).lemma_filter_push(rpcs@[i as int], keep);
        }
        if rank_of(&rpcs[i]) == rank {
            let copy = rpcs[i].clone();
            out.push(copy);
        }
        i += 1;
    }
    proof {
        assert(rpcs@.take(rpcs.len() as int) =~= rpcs@);
    }
}

/// The endpoints that pass `filter`, the preferred ones first where it asks
/// for that.
pub fn filter_and_sort_rpcs(rpcs: &[RpcEntry], filter: &RpcFilter) -> (r: Vec<RpcEntry>)
    ensures
        r@ == rpcs_chosen(rpcs@, *filter),
{
    let ghost keep = |rpc: RpcEntry| rpc_passes(rpc, *filter);
    let mut passing: Vec<RpcEntry> = Vec::new();
    let mut i: usize = 0;
    proof {
        assert(rpcs@.take(0) =~= Seq::<RpcEntry>::empty());
    }
    while i < rpcs.len()
        invariant
            i <= rpcs.len(),
            keep == (|rpc: RpcEntry| rpc_passes(rpc, *filter)),
            passing@ == rpcs@.take(i as int).filter(keep),
        decreases rpcs.len() - i,
    {
        proof {
            assert(rpcs@.take(i + 1) =~= rpcs@.take(i as int).push(rpcs@[i as int]));
            rpcs@.take(i as int).lemma_filter_push(rpcs@[i as int], keep);
        }
        if passes(&rpcs[i], filter) {
            let copy = rpcs[i].clone();
            passing.push(copy);
        }
        i += 1;
    }
    proof {
        assert(rpcs@.take(rpcs.len() as int) =~= rpcs@);
    }
    if !filter.prefer_open_source {
        return passing;
    }
    let mut sorted: Vec<RpcEntry> = Vec::new();
    let mut rank: u8 = 0;
    while rank <= 5
        invariant
            rank <= 6,
            sorted@ == ranks_below(passing@, rank as int),
        decreases 6 - rank,
    {
        push_of_rank(&mut sorted, &passing, rank);
        rank += 1;
    }
    sorted
}

/// What is said of an endpoint beside its URL: its tracking where that is
/// known, and that it is open source where it is.
pub open spec fn rpc_details(rpc: RpcEntry) -> Seq<Seq<char>> {
    (match rpc.tracking_text() {
        Some(t) => seq!["tracking: "@ + t],
        None => Seq::empty(),
    }) + (if rpc.open_source() == Some(true) {
        seq!["open-source"@]
    } else {
        Seq::empty()
    })
}

/// The entry of one endpoint in a list: its number and URL on one line, and
/// what else is said of it, in brackets, on the next.
pub open spec fn rpc_entry_text(number: nat, rpc: RpcEntry) -> Seq<char> {
    decimal(number) + ". "@ + rpc.url_text() + "\n"@ + (if rpc_details(rpc).len() > 0 {
        "   ["@ + join(rpc_details(rpc), ", "@) + "]\n"@
    } else {
        Seq::empty()
    })
}

/// The entries of the endpoints, numbered from one.
pub open spec fn rpc_list_text(rpcs: Seq<RpcEntry>) -> Seq<char>
    decreases rpcs.len(),
{
    if rpcs.len() == 0 {
        Seq::empty()
    } else {
        rpc_list_text(rpcs.drop_last()) + rpc_entry_text(rpcs.len(), rpcs.last())
    }
}

/// The section on the endpoints: a note where there are none, and otherwise
/// the list, cut at the limit where one is given, with a count of what was
/// cut.
pub open spec fn rpc_section_text(rpcs: Seq<RpcEntry>, limit: Option<usize>) -> Seq<char> {
    if rpcs.len() == 0 {
        "  No RPC endpoints found matching the criteria.\n"@
    } else {
        match limit {
            Some(lim) => rpc_list_text(at_most(rpcs, lim as int)) + (if rpcs.len() > lim {
                "\n... and "@ + decimal((rpcs.len() - lim) as nat) + " more\n"@
            } else {
                Seq::empty()
            }),
            None => rpc_list_text(rpcs),
        }
    }
}

/// One line for each faucet.
pub open spec fn faucet_lines(faucets: Seq<String>) -> Seq<char>
    decreases faucets.len(),
{
    if faucets.len() == 0 {
        Seq::empty()
    } else {
        faucet_lines(faucets.drop_last()) + "  - "@ + faucets.last()@ + "\n"@
    }
}

/// The line of an explorer: its name and its URL, where it is an object that
/// has both. A name that is no string reads `Unknown`, a URL that is none
/// reads as nothing.
pub open spec fn explorer_line(explorer: Json) -> Seq<char> {
    match (explorer.member("name"@), explorer.member("url"@)) {
        (Some(name), Some(url)) => "  - "@ + (match name {
            Json::Text(t) => t,
            _ => "Unknown"@,
        }) + ": "@ + (match url {
            Json::Text(t) => t,
            _ => Seq::empty(),
        }) + "\n"@,
        _ => Seq::empty(),
    }
}

/// The lines of the explorers.
pub open spec fn explorer_lines(explorers: Seq<JsonValue>) -> Seq<char>
    decreases explorers.len(),
{
    if explorers.len() == 0 {
        Seq::empty()
    } else {
        explorer_lines(explorers.drop_last()) + explorer_line(explorers.last()@)
    }
}

/// The head of what is written of a network: its names and chain id, whether
/// it is a testnet and where to read about it, as far as that is known, and
/// the title of the section on the endpoints.
pub open spec fn chain_head_text(chain: ChainInfo) -> Seq<char> {
    "Chain: "@ + chain.name@ + " ("@ + chain.chain@ + ")\nChain ID: "@ + decimal(
        chain.chain_id as nat,
    ) + "\nShort Name: "@ + chain.short_name@ + "\n"@ + (match chain.testnet {
        Some(true) => "Testnet: true\n"@,
        Some(false) => "Testnet: false\n"@,
        None => Seq::empty(),
    }) + (match chain.info_url {
        Some(url) => "Info: "@ + url@ + "\n"@,
        None => Seq::empty(),
    }) + "\n"@ + "RPC Endpoints:\n"@
}

/// The section on the faucets, where there are any.
pub open spec fn faucet_section_text(faucets: Seq<String>) -> Seq<char> {
    if faucets.len() > 0 {
        "\nFaucets:\n"@ + faucet_lines(faucets)
    } else {
        Seq::empty()
    }
}

/// The section on the explorers, where there are any.
pub open spec fn explorer_section_text(explorers: Seq<JsonValue>) -> Seq<char> {
    if explorers.len() > 0 {
        "\nExplorers:\n"@ + explorer_lines(explorers)
    } else {
        Seq::empty()
    }
}

/// What is written of a network and the endpoints chosen for it.
pub open spec fn chain_info_text(chain: ChainInfo, rpcs: Seq<RpcEntry>, limit: Option<usize>) -> Seq<
    char,
> {
    chain_head_text(chain) + rpc_section_text(rpcs, limit) + faucet_section_text(chain.faucets@)
        + explorer_section_text(chain.explorers@)
}

/// Appends the entry of one endpoint to `out`.
fn push_rpc_entry(out: &mut String, number: usize, rpc: &RpcEntry)
    ensures
        final(out)@ == old(out)@ + rpc_entry_text(number as nat, *rpc),
{
    let ghost before = out@;
    out.append(u64_to_string(number as u64).as_str());
    out.append(". ");
    out.append(rpc.url());
    out.append("\n");
    let mut details: Vec<String> = Vec::new();
    match rpc.tracking() {
        Some(t) => {
            let d = concat("tracking: ", t.as_str());
            details.push(d);
        },
        None => {},
    }
    match rpc.is_open_source() {
        Some(true) => {
            let d = String::from_str("open-source");
            proof {
                lemma_texts_push(details@, d);
            }
            details.push(d);
        },
        _ => {},
    }
    proof {
        assert(texts(details@) =~= rpc_details(*rpc));
    }
    if details.len() > 0 {
        out.append("   [");
        out.append(join_with(&details, ", ").as_str());
        out.append("]\n");
        assert(out@ =~= before + rpc_entry_text(number as nat, *rpc));
    }
}

/// Appends the line of an explorer to `out`.
fn push_explorer(out: &mut String, explorer: &JsonValue)
    ensures
        final(out)@ == old(out)@ + explorer_line(explorer@),
{
    let ghost before = out@;
    match (explorer.get("name"), explorer.get("url")) {
        (Some(name), Some(url)) => {
            out.append("  - ");
            match name.as_str() {
                Some(t) => {
                    out.append(t);
                },
                None => {
                    out.append("Unknown");
                },
            }
            out.append(": ");
            match url.as_str() {
                Some(t) => {
                    out.append(t);
                },
                None => {},
            }
            out.append("\n");
        },
        _ => {
            assert(out@ =~= before + explorer_line(explorer@));
        },
    }
}

/// The head of what is written of a network.
fn chain_head(chain: &ChainInfo) -> (r: String)
    ensures
        r@ == chain_head_text(*chain),
{
    let mut r = String::from_str("Chain: ");
    r.append(chain.name.as_str());
    r.append(" (");
    r.append(chain.chain.as_str());
    r.append(")\nChain ID: ");
    r.append(u64_to_string(chain.chain_id).as_str());
    r.append("\nShort Name: ");
    r.append(chain.short_name.as_str());
    r.append("\n");
    match chain.testnet {
        Some(true) => {
            r.append("Testnet: true\n");
        },
        Some(false) => {
            r.append("Testnet: false\n");
        },
        None => {},
    }
    match &chain.info_url {
        Some(url) => {
            r.append("Info: ");
            r.append(url.as_str());
            r.append("\n");
        },
        None => {},
    }
    r.append("\n");
    r.append("RPC Endpoints:\n");
    r
}

/// Appends the section on the endpoints to `out`.
fn push_rpc_section(out: &mut String, rpcs: &[RpcEntry], limit: Option<usize>)
    ensures
        final(out)@ == old(out)@ + rpc_section_text(rpcs@, limit),
{
    let ghost head = out@;
    if rpcs.len() == 0 {
        out.append("  No RPC endpoints found matching the criteria.\n");
        return ;
    }
    let shown: usize = match limit {
        Some(lim) => if rpcs.len() <= lim {
            rpcs.len()
        } else {
            lim
        },
        None => rpcs.len(),
    };
    let ghost display = rpcs@.take(shown as int);
    let mut i: usize = 0;
    while i < shown
        invariant
            i <= shown <= rpcs.len(),
            display == rpcs@.take(shown as int),
            out@ == head + rpc_list_text(display.take(i as int)),
        decreases shown - i,
    {
        proof {
            assert(display.take(i + 1).drop_last() =~= display.take(i as int));
        }
        push_rpc_entry(out, i + 1, &rpcs[i]);
        i += 1;
    }
    proof {
        assert(display.take(shown as int) =~= display);
        if shown == rpcs.len() {
            assert(display =~= rpcs@);
        }
    }
    match limit {
        Some(lim) => {
            if rpcs.len() > lim {
                out.append("\n... and ");
                out.append(u64_to_string((rpcs.len() - lim) as u64).as_str());
                out.append(" more\n");
            }
        },
        None => {},
    }
}

/// Appends the section on the faucets to `out`.
fn push_faucet_section(out: &mut String, faucets: &Vec<String>)
    ensures
        final(out)@ == old(out)@ + faucet_section_text(faucets@),
{
    if faucets.len() == 0 {
        return ;
    }
    out.append("\nFaucets:\n");
    let ghost start = out@;
    let mut i: usize = 0;
    while i < faucets.len()
        invariant
            i <= faucets.len(),
            out@ == start + faucet_lines(faucets@.take(i as int)),
        decreases faucets.len() - i,
    {
        proof {
            assert(faucets@.take(i + 1).drop_last() =~= faucets@.take(i as int));
        }
        out.append("  - ");
        out.append(faucets[i].as_str());
        out.append("\n");
        i += 1;
    }
    proof {
        assert(faucets@.take(faucets.len() as int) =~= faucets@);
    }
}

/// Appends the section on the explorers to `out`.
fn push_explorer_section(out: &mut String, explorers: &Vec<JsonValue>)
    ensures
        final(out)@ == old(out)@ + explorer_section_text(explorers@),
{
    let ghost head = out@;
    if explorers.len() == 0 {
        assert(out@ =~= head + Seq::<char>::empty());
        return ;
    }
    out.append("\nExplorers:\n");
    let ghost start = out@;
    let mut i: usize = 0;
    while i < explorers.len()
        invariant
            i <= explorers.len(),
            out@ == start + explorer_lines(explorers@.take(i as int)),
        decreases explorers.len() - i,
    {
        proof {
            assert(explorers@.take(i + 1).drop_last() =~= explorers@.take(i as int));
        }
        push_explorer(out, &explorers[i]);
        i += 1;
    }
    proof {
        assert(explorers@.take(explorers.len() as int) =~= explorers@);
    }
}

/// What is written of a network and the endpoints chosen for it.
pub fn format_chain_info(chain: &ChainInfo, rpcs: &[RpcEntry], limit: Option<usize>) -> (r: String)
    ensures
        r@ == chain_info_text(*chain, rpcs@, limit),
{
    let mut r = chain_head(chain);
    push_rpc_section(&mut r, rpcs, limit);
    push_faucet_section(&mut r, &chain.faucets);
    push_explorer_section(&mut r, &chain.explorers);
    r
}

/// What a request for the endpoints of a network asks for.
#[derive(Debug)]
pub struct RpcQuery {
    /// The network, by chain id or by name.
    pub chain: String,
    pub filter: RpcFilter,
    /// How many endpoints to list at most.
    pub limit: Option<usize>,
}

/// What a search for networks asks for.
#[derive(Debug)]
pub struct ChainQuery {
    pub query: String,
    pub testnet_only: bool,
    pub mainnet_only: bool,
}

/// The number as a size of this machine.
fn to_size(n: u64) -> (r: usize)
    ensures
        r == n as usize,
{
    #[verifier::truncate]
    (n as usize)
}

/// Reads a request for the endpoints of a network. The network must be named
/// by a string. Open endpoints are preferred unless the request says
/// otherwise; every other choice is off unless the request turns it on.
pub fn rpc_query(args: &JsonObject) -> (r: Result<RpcQuery, RequestError>)
    ensures
        match r {
            Ok(q) => text_under(args@, "chain"@) == Some(q.chain@) && q.filter.prefer_open_source
                == flag_under(args@, "prefer_open_source"@, true) && q.filter.no_tracking
                == flag_under(args@, "no_tracking"@, false) && q.filter.websocket_only
                == flag_under(args@, "websocket_only"@, false) && q.filter.http_only == flag_under(
                args@,
                "http_only"@,
                false,
            ) && q.limit == (match number_under(args@, "limit"@) {
                Some(n) => Some(n as usize),
                None => None,
            }),
            Err(e) => text_under(args@, "chain"@) is None && e@ == RequestFailure::InvalidParams(
                "Missing or invalid 'chain' parameter"@,
            ),
        },
{
    let chain = match text_argument(args, "chain") {
        Some(t) => String::from_str(t),
        None => {
            return Err(
                RequestError::InvalidParams(String::from_str("Missing or invalid 'chain' parameter")),
            );
        },
    };
    let filter = RpcFilter {
        prefer_open_source: flag_argument(args, "prefer_open_source", true),
        no_tracking: flag_argument(args, "no_tracking", false),
        websocket_only: flag_argument(args, "websocket_only", false),
        http_only: flag_argument(args, "http_only", false),
    };
    let limit = match number_argument(args, "limit") {
        Some(n) => Some(to_size(n)),
        None => None,
    };
    Ok(RpcQuery { chain, filter, limit })
}

/// The answer to a request for the endpoints of a network: what is written
/// of the network that the request means and of its chosen endpoints, or a
/// failure where it means none.
pub open spec fn rpc_answer_text(chains: Seq<ChainInfo>, q: RpcQuery) -> Result<
    Seq<char>,
    RequestFailure,
> {
    let i = chain_match(chains, q.chain@) as int;
    if i < chains.len() {
        Ok(chain_info_text(chains[i], rpcs_chosen(chains[i].rpc@, q.filter), q.limit))
    } else {
        Err(
            RequestFailure::InvalidParams(
                "Chain '"@ + q.chain@
                    + "' not found. Try using chain ID (e.g., '1' for Ethereum) or common names like 'ethereum', 'polygon', 'arbitrum'"@,
            ),
        )
    }
}

/// The view of the text in a result.
pub open spec fn answer_view(r: Result<String, RequestError>) -> Result<Seq<char>, RequestFailure> {
    match r {
        Ok(text) => Ok(text@),
        Err(e) => Err(e@),
    }
}

/// Answers a request for the endpoints of a network from the directory.
pub fn rpc_answer(chains: &[ChainInfo], query: &RpcQuery) -> (r: Result<String, RequestError>)
    ensures
        answer_view(r) == rpc_answer_text(chains@, *query),
{
    match find_chain_rpcs(chains, query.chain.as_str()) {
        Some(chain) => {
            let rpcs = filter_and_sort_rpcs(chain.rpc.as_slice(), &query.filter);
            Ok(format_chain_info(chain, rpcs.as_slice(), query.limit))
        },
        None => {
            let mut message = String::from_str("Chain '");
            message.append(query.chain.as_str());
            message.append(
                "' not found. Try using chain ID (e.g., '1' for Ethereum) or common names like 'ethereum', 'polygon', 'arbitrum'",
            );
            Err(RequestError::InvalidParams(message))
        },
    }
}

/// The failure of a request that could not get the directory.
pub fn fetch_failure(reason: &str) -> (e: RequestError)
    ensures
        e@ == RequestFailure::InternalError("Failed to fetch chainlist data: "@ + reason@),
{
    RequestError::InternalError(concat("Failed to fetch chainlist data: ", reason))
}

/// Reads a search for networks. The query must be a string; both
/// restrictions are off unless the request turns them on.
pub fn chain_query(args: &JsonObject) -> (r: Result<ChainQuery, RequestError>)
    ensures
        match r {
            Ok(q) => text_under(args@, "query"@) == Some(q.query@) && q.testnet_only == flag_under(
                args@,
                "testnet_only"@,
                false,
            ) && q.mainnet_only == flag_under(args@, "mainnet_only"@, false),
            Err(e) => text_under(args@, "query"@) is None && e@ == RequestFailure::InvalidParams(
                "Missing or invalid 'query' parameter"@,
            ),
        },
{
    let query = match text_argument(args, "query") {
        Some(t) => String::from_str(t),
        None => {
            return Err(
                RequestError::InvalidParams(String::from_str("Missing or invalid 'query' parameter")),
            );
        },
    };
    Ok(
        ChainQuery {
            query,
            testnet_only: flag_argument(args, "testnet_only", false),
            mainnet_only: flag_argument(args, "mainnet_only", false),
        },
    )
}

/// Whether a network that was found stays in the answer: a testnet where
/// only testnets are wanted, anything but a testnet where only mainnets are.
pub open spec fn wanted(c: ChainInfo, q: ChainQuery) -> bool {
    (q.testnet_only ==> c.testnet == Some(true)) && (q.mainnet_only ==> c.testnet != Some(true))
}

/// The entry of a network in an answer that lists several.
pub open spec fn chain_entry_text(c: ChainInfo, with_kind: bool) -> Seq<char> {
    "\u{2022} "@ + c.name@ + " ("@ + c.chain@ + ")\n  Chain ID: "@ + decimal(c.chain_id as nat)
        + "\n  Short Name: "@ + c.short_name@ + "\n"@ + (if with_kind && c.testnet == Some(true) {
        "  Type: Testnet\n"@
    } else {
        Seq::empty()
    }) + "  RPCs: "@ + decimal(c.rpc@.len()) + "\n\n"@
}

/// The entries of the networks.
pub open spec fn chain_entries_text(chains: Seq<ChainInfo>) -> Seq<char>
    decreases chains.len(),
{
    if chains.len() == 0 {
        Seq::empty()
    } else {
        chain_entries_text(chains.drop_last()) + chain_entry_text(chains.last(), true)
    }
}

/// The answer to a search for networks: how many were found, and an entry
/// for each.
pub open spec fn chains_answer_text(chains: Seq<ChainInfo>, q: ChainQuery) -> Seq<char> {
    let found = chains_found(chains, q.query@).filter(|c: ChainInfo| wanted(c, q));
    "Found "@ + decimal(found.len()) + " chains matching '"@ + q.query@ + "'\n\n"@
        + chain_entries_text(found)
}

/// Appends the entry of a network to `out`.
fn push_chain_entry(out: &mut String, c: &ChainInfo, with_kind: bool)
    ensures
        final(out)@ == old(out)@ + chain_entry_text(*c, with_kind),
{
    out.append("\u{2022} ");
    out.append(c.name.as_str());
    out.append(" (");
    out.append(c.chain.as_str());
    out.append(")\n  Chain ID: ");
    out.append(u64_to_string(c.chain_id).as_str());
    out.append("\n  Short Name: ");
    out.append(c.short_name.as_str());
    out.append("\n");
    let is_testnet = match c.testnet {
        Some(true) => true,
        _ => false,
    };
    if with_kind && is_testnet {
        out.append("  Type: Testnet\n");
    }
    out.append("  RPCs: ");
    out.append(u64_to_string(c.rpc.len() as u64).as_str());
    out.append("\n\n");
}

/// Answers a search for networks from the directory.
pub fn chains_answer(chains: &[ChainInfo], query: &ChainQuery) -> (r: String)
    ensures
        r@ == chains_answer_text(chains@, *query),
{
    let found = search_chains(chains, query.query.as_str());
    let ghost keep = |c: ChainInfo| wanted(c, *query);
    let ghost all = chains_found(chains@, query.query@);
    let mut kept: Vec<&ChainInfo> = Vec::new();
    let mut i: usize = 0;
    proof {
        reveal(Seq::filter);
    }
    while i < found.len()
        invariant
            i <= found.len(),
            all == targets(found@),
            keep == (|c: ChainInfo| wanted(c, *query)),
            targets(kept@) == all.take(i as int).filter(keep),
        decreases found.len() - i,
    {
        let c: &ChainInfo = found[i];
        proof {
            assert(all.take(i + 1) =~= all.take(i as int).push(*c));
            all.take(i as int).lemma_filter_push(*c, keep);
        }
        let is_testnet = match c.testnet {
            Some(true) => true,
            _ => false,
        };
        if (!query.testnet_only || is_testnet) && (!query.mainnet_only || !is_testnet) {
            kept.push(c);
        }
        i += 1;
    }
    proof {
        assert(all.take(found.len() as int) =~= all);
    }
    let ghost list = targets(kept@);
    let mut r = String::from_str("Found ");
    r.append(u64_to_string(kept.len() as u64).as_str());
    r.append(" chains matching '");
    r.append(query.query.as_str());
    r.append("'\n\n");
    let ghost head = r@;
    let mut k: usize = 0;
    while k < kept.len()
        invariant
            k <= kept.len(),
            list == targets(kept@),
            r@ == head + chain_entries_text(list.take(k as int)),
        decreases kept.len() - k,
    {
        let c: &ChainInfo = kept[k];
        proof {
            assert(list.take(k + 1).drop_last() =~= list.take(k as int));
        }
        push_chain_entry(&mut r, c, true);
        k += 1;
    }
    proof {
        assert(list.take(kept.len() as int) =~= list);
    }
    r
}

/// The chain ids of the networks that an overview lists, in its order.
pub open spec fn popular_ids() -> Seq<u64> {
    seq![1u64, 10, 137, 42161, 8453, 43114, 56, 250, 100, 324, 1101, 59144, 534352]
}

/// The entries of the first network of each of the chain ids `ids` that the
/// directory holds.
pub open spec fn popular_entries_text(chains: Seq<ChainInfo>, ids: Seq<u64>) -> Seq<char>
    decreases ids.len(),
{
    if ids.len() == 0 {
        Seq::empty()
    } else {
        let i = first_where(chains, |c: ChainInfo| c.chain_id == ids.last()) as int;
        popular_entries_text(chains, ids.drop_last()) + (if i < chains.len() {
            chain_entry_text(chains[i], false)
        } else {
            Seq::empty()
        })
    }
}

/// The overview of the popular networks.
pub open spec fn popular_chains_text(chains: Seq<ChainInfo>) -> Seq<char> {
    "Popular Blockchain Networks:\n\n"@ + popular_entries_text(chains, popular_ids())
        + "Use 'search_chains' to find more networks or 'search_rpc_url' to get RPC endpoints for a specific chain.\n"@
}

/// The overview of the popular networks, as far as the directory holds them.
pub fn popular_chains_answer(chains: &[ChainInfo]) -> (r: String)
    ensures
        r@ == popular_chains_text(chains@),
{
    let ids: [u64; 13] = [1, 10, 137, 42161, 8453, 43114, 56, 250, 100, 324, 1101, 59144, 534352];
    let mut r = String::from_str("Popular Blockchain Networks:\n\n");
    let ghost head = r@;
    let mut k: usize = 0;
    while k < 13
        invariant
            k <= 13,
            ids@.len() == 13,
            r@ == head + popular_entries_text(chains@, ids@.take(k as int)),
        decreases 13 - k,
    {
        proof {
            assert(ids@.take(k + 1).drop_last() =~= ids@.take(k as int));
        }
        let i = position_of_id(chains, ids[k]);
        if i < chains.len() {
            push_chain_entry(&mut r, &chains[i], false);
        }
        k += 1;
    }
    proof {
        assert(ids@.take(13) =~= ids@);
    }
    r.append(
        "Use 'search_chains' to find more networks or 'search_rpc_url' to get RPC endpoints for a specific chain.\n",
    );
    r
}

/// What the tool that looks up endpoints says of itself.
pub const SEARCH_RPC_URL_ABOUT: &'static str =
    "Search for RPC endpoints for a specific network. Query by chain ID (e.g., '1' for Ethereum) or name (e.g., 'ethereum', 'polygon', 'arbitrum'). Returns available RPC URLs with tracking and open-source information.";

/// What the tool that searches networks says of itself.
pub const SEARCH_CHAINS_ABOUT: &'static str =
    "Search for blockchain networks by name, symbol, or chain ID. Returns a list of matching chains with their basic information.";

/// What the tool that lists the popular networks says of itself.
pub const LIST_POPULAR_CHAINS_ABOUT: &'static str =
    "List popular blockchain networks with their chain IDs and basic information. Useful for discovering available networks.";

/// The tool that looks up the endpoints of a network.
pub open spec fn search_rpc_url_tool() -> ToolView {
    tool_view(
        "search_rpc_url"@,
        SEARCH_RPC_URL_ABOUT@,
        seq![
            parameter("chain"@, "string"@, "Chain ID or name (e.g., '1', 'ethereum', 'polygon')"@),
            parameter(
                "prefer_open_source"@,
                "boolean"@,
                "Prefer open-source RPC endpoints (default: true)"@,
            ),
            parameter(
                "no_tracking"@,
                "boolean"@,
                "Only return RPC endpoints with no tracking (default: false)"@,
            ),
            parameter(
                "websocket_only"@,
                "boolean"@,
                "Only return WebSocket RPC endpoints (default: false)"@,
            ),
            parameter(
                "http_only"@,
                "boolean"@,
                "Only return HTTP/HTTPS RPC endpoints (default: false)"@,
            ),
            parameter("limit"@, "number"@, "Maximum number of RPC endpoints to return"@),
        ],
        seq!["chain"@],
    )
}

/// The tool that searches the networks.
pub open spec fn search_chains_tool() -> ToolView {
    tool_view(
        "search_chains"@,
        SEARCH_CHAINS_ABOUT@,
        seq![
            parameter("query"@, "string"@, "Search query (name, symbol, or chain ID)"@),
            parameter("testnet_only"@, "boolean"@, "Only return testnets (default: false)"@),
            parameter("mainnet_only"@, "boolean"@, "Only return mainnets (default: false)"@),
        ],
        seq!["query"@],
    )
}

/// The tool that lists the popular networks. It takes no arguments.
pub open spec fn list_popular_chains_tool() -> ToolView {
    tool_view("list_popular_chains"@, LIST_POPULAR_CHAINS_ABOUT@, Seq::empty(), Seq::empty())
}

/// The three tools of the directory of networks, in the order in which they
/// are offered.
pub fn get_chainlist_tools() -> (r: Vec<Tool>)
    ensures
        tool_views(r@) == seq![
            search_rpc_url_tool(),
            search_chains_tool(),
            list_popular_chains_tool(),
        ],
{
    let mut rpc: Vec<JsonEntry> = Vec::new();
    rpc.push(parameter_entry("chain", "string", "Chain ID or name (e.g., '1', 'ethereum', 'polygon')"));
    rpc.push(
        parameter_entry(
            "prefer_open_source",
            "boolean",
            "Prefer open-source RPC endpoints (default: true)",
        ),
    );
    rpc.push(
        parameter_entry(
            "no_tracking",
            "boolean",
            "Only return RPC endpoints with no tracking (default: false)",
        ),
    );
    rpc.push(
        parameter_entry(
            "websocket_only",
            "boolean",
            "Only return WebSocket RPC endpoints (default: false)",
        ),
    );
    rpc.push(
        parameter_entry(
            "http_only",
            "boolean",
            "Only return HTTP/HTTPS RPC endpoints (default: false)",
        ),
    );
    rpc.push(parameter_entry("limit", "number", "Maximum number of RPC endpoints to return"));
    proof {
        assert(members(rpc@) =~= search_rpc_url_tool().input_schema[1].value->Object_0);
    }
    let rpc_required: [&str; 1] = ["chain"];
    let first = make_tool("search_rpc_url", SEARCH_RPC_URL_ABOUT, rpc, &rpc_required);

    let mut search: Vec<JsonEntry> = Vec::new();
    search.push(parameter_entry("query", "string", "Search query (name, symbol, or chain ID)"));
    search.push(parameter_entry("testnet_only", "boolean", "Only return testnets (default: false)"));
    search.push(parameter_entry("mainnet_only", "boolean", "Only return mainnets (default: false)"));
    proof {
        assert(members(search@) =~= search_chains_tool().input_schema[1].value->Object_0);
    }
    let search_required: [&str; 1] = ["query"];
    let second = make_tool("search_chains", SEARCH_CHAINS_ABOUT, search, &search_required);

    let none: Vec<JsonEntry> = Vec::new();
    proof {
        assert(members(none@) =~= Seq::<Member>::empty());
    }
    let no_required: [&str; 0] = [];
    let third = make_tool("list_popular_chains", LIST_POPULAR_CHAINS_ABOUT, none, &no_required);

    proof {
        assert(slices(rpc_required@) =~= seq!["chain"@]);
        assert(slices(search_required@) =~= seq!["query"@]);
    }
    let mut r: Vec<Tool> = Vec::new();
    r.push(first);
    r.push(second);
    r.push(third);
    r
}

} // verus!
