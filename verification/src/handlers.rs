//! The tools that manage the two sessions, and how a request to start the
//! local node is read.

use vstd::prelude::*;
use vstd::string::StringExecFns;
use crate::json::members;
use crate::json::supplied;
use crate::json::Json;
use crate::json::JsonEntry;
use crate::json::JsonObject;
use crate::json::JsonValue;
use crate::json::Member;
use crate::request::number_argument;
use crate::request::number_under;
use crate::request::text_argument;
use crate::request::text_under;
use crate::request::RequestError;
use crate::request::RequestFailure;
use crate::sessions::DEFAULT_PORT;
use crate::text::concat;
use crate::text::opt_text;
use crate::text::slices;
use crate::tool::make_tool;
use crate::tool::parameter;
use crate::tool::parameter_entry;
use crate::tool::parameter_entry_with_default;
use crate::tool::property;
use crate::tool::tool_view;
use crate::tool::tool_views;
use crate::tool::Tool;
use crate::tool::ToolView;

verus! {

/// What the tool that starts the local node says of itself.
pub const ANVIL_SESSION_START_ABOUT: &'static str =
    "Start an Anvil instance (local Ethereum node) as a background process. Supports forking, custom ports, accounts, and block time. Use Cast tools with rpc-url=http://localhost:<port> to interact.";

/// What the tool that stops the local node says of itself.
pub const ANVIL_SESSION_STOP_ABOUT: &'static str = "Stop the running Anvil instance";

/// What the tool that reports on the local node says of itself.
pub const ANVIL_SESSION_STATUS_ABOUT: &'static str = "Check if Anvil is running and get its status";

/// What the tool that opens a REPL session says of itself.
pub const CHISEL_SESSION_START_ABOUT: &'static str =
    "Start a Chisel session (validates chisel is available). State persists across eval calls via Chisel's built-in cache system. Use chisel_session_eval to execute code.";

/// What the tool that evaluates code in the REPL says of itself.
pub const CHISEL_SESSION_EVAL_ABOUT: &'static str =
    "Execute Solidity code in a Chisel session. Spawns a fresh chisel process with piped input/output. Returns all chisel output including welcome message and prompts. State persists via Chisel's cache system. 10-second timeout.";

/// What the tool that closes the REPL session says of itself.
pub const CHISEL_SESSION_STOP_ABOUT: &'static str = "Stop the running Chisel REPL session";

/// What the tool that reports on the REPL session says of itself.
pub const CHISEL_SESSION_STATUS_ABOUT: &'static str =
    "Check if a Chisel REPL session is running and get its status";

/// The tool that starts the local node. Every setting is optional.
pub open spec fn anvil_session_start_view() -> ToolView {
    tool_view(
        "anvil_session_start"@,
        ANVIL_SESSION_START_ABOUT@,
        seq![
            Member {
                key: "port"@,
                value: property(
                    "number"@,
                    "Port to listen on (default: 8545)"@,
                    Some(Json::Int(8545)),
                ),
            },
            parameter(
                "fork_url"@,
                "string"@,
                "URL of the JSON-RPC endpoint to fork from (optional)"@,
            ),
            parameter("fork_block_number"@, "number"@, "Block number to fork from (optional)"@),
            parameter("accounts"@, "number"@, "Number of accounts to generate (default: 10)"@),
            parameter(
                "block_time"@,
                "number"@,
                "Block time in seconds (0 = mine on demand, default: 0)"@,
            ),
        ],
        Seq::empty(),
    )
}

/// The tool that evaluates code in the REPL. The code must be supplied.
pub open spec fn chisel_session_eval_view() -> ToolView {
    tool_view(
        "chisel_session_eval"@,
        CHISEL_SESSION_EVAL_ABOUT@,
        seq![
            parameter(
                "code"@,
                "string"@,
                "Solidity code to execute in the running Chisel session"@,
            ),
        ],
        seq!["code"@],
    )
}

/// A tool that takes no arguments.
pub open spec fn plain_tool_view(name: Seq<char>, description: Seq<char>) -> ToolView {
    tool_view(name, description, Seq::empty(), Seq::empty())
}

/// The tools that manage the sessions, in the order in which they are
/// offered: three for the local node, then four for the REPL.
pub open spec fn session_tool_views() -> Seq<ToolView> {
    seq![
        anvil_session_start_view(),
        plain_tool_view("anvil_session_stop"@, ANVIL_SESSION_STOP_ABOUT@),
        plain_tool_view("anvil_session_status"@, ANVIL_SESSION_STATUS_ABOUT@),
        plain_tool_view("chisel_session_start"@, CHISEL_SESSION_START_ABOUT@),
        chisel_session_eval_view(),
        plain_tool_view("chisel_session_stop"@, CHISEL_SESSION_STOP_ABOUT@),
        plain_tool_view("chisel_session_status"@, CHISEL_SESSION_STATUS_ABOUT@),
    ]
}

/// A tool that takes no arguments.
fn plain_tool(name: &str, description: &str) -> (r: Tool)
    ensures
        r@ == plain_tool_view(name@, description@),
{
    let none: Vec<JsonEntry> = Vec::new();
    let no_required: [&str; 0] = [];
    proof {
        assert(members(none@) =~= Seq::<Member>::empty());
    }
    make_tool(name, description, none, &no_required)
}

fn anvil_session_start_tool() -> (r: Tool)
    ensures
        r@ == anvil_session_start_view(),
{
    let mut settings: Vec<JsonEntry> = Vec::new();
    settings.push(
        parameter_entry_with_default(
            "port",
            "number",
            "Port to listen on (default: 8545)",
            JsonValue::Int(8545),
        ),
    );
    settings.push(
        parameter_entry("fork_url", "string", "URL of the JSON-RPC endpoint to fork from (optional)"),
    );
    settings.push(
        parameter_entry("fork_block_number", "number", "Block number to fork from (optional)"),
    );
    settings.push(
        parameter_entry("accounts", "number", "Number of accounts to generate (default: 10)"),
    );
    settings.push(
        parameter_entry(
            "block_time",
            "number",
            "Block time in seconds (0 = mine on demand, default: 0)",
        ),
    );
    let no_required: [&str; 0] = [];
    proof {
        assert(members(settings@) =~= anvil_session_start_view().input_schema[1].value->Object_0);
        assert(slices(no_required@) =~= Seq::<Seq<char>>::empty());
    }
    make_tool("anvil_session_start", ANVIL_SESSION_START_ABOUT, settings, &no_required)
}

fn anvil_session_stop_tool() -> (r: Tool)
    ensures
        r@ == plain_tool_view("anvil_session_stop"@, ANVIL_SESSION_STOP_ABOUT@),
{
    plain_tool("anvil_session_stop", ANVIL_SESSION_STOP_ABOUT)
}

fn anvil_session_status_tool() -> (r: Tool)
    ensures
        r@ == plain_tool_view("anvil_session_status"@, ANVIL_SESSION_STATUS_ABOUT@),
{
    plain_tool("anvil_session_status", ANVIL_SESSION_STATUS_ABOUT)
}

fn chisel_session_start_tool() -> (r: Tool)
    ensures
        r@ == plain_tool_view("chisel_session_start"@, CHISEL_SESSION_START_ABOUT@),
{
    plain_tool("chisel_session_start", CHISEL_SESSION_START_ABOUT)
}

fn chisel_session_eval_tool() -> (r: Tool)
    ensures
        r@ == chisel_session_eval_view(),
{
    let mut code: Vec<JsonEntry> = Vec::new();
    code.push(
        parameter_entry("code", "string", "Solidity code to execute in the running Chisel session"),
    );
    let required: [&str; 1] = ["code"];
    proof {
        assert(members(code@) =~= chisel_session_eval_view().input_schema[1].value->Object_0);
        assert(slices(required@) =~= seq!["code"@]);
    }
    make_tool("chisel_session_eval", CHISEL_SESSION_EVAL_ABOUT, code, &required)
}

fn chisel_session_stop_tool() -> (r: Tool)
    ensures
        r@ == plain_tool_view("chisel_session_stop"@, CHISEL_SESSION_STOP_ABOUT@),
{
    plain_tool("chisel_session_stop", CHISEL_SESSION_STOP_ABOUT)
}

fn chisel_session_status_tool() -> (r: Tool)
    ensures
        r@ == plain_tool_view("chisel_session_status"@, CHISEL_SESSION_STATUS_ABOUT@),
{
    plain_tool("chisel_session_status", CHISEL_SESSION_STATUS_ABOUT)
}

/// The tools that manage the sessions.
pub fn get_session_tools() -> (r: Vec<Tool>)
    ensures
        tool_views(r@) == session_tool_views(),
{
    let mut r: Vec<Tool> = Vec::new();
    r.push(anvil_session_start_tool());
    r.push(anvil_session_stop_tool());
    r.push(anvil_session_status_tool());
    r.push(chisel_session_start_tool());
    r.push(chisel_session_eval_tool());
    r.push(chisel_session_stop_tool());
    r.push(chisel_session_status_tool());
    r
}

/// What a request to start the local node asks for.
#[derive(Debug, PartialEq)]
pub struct AnvilStart {
    pub port: u16,
    pub fork_url: Option<String>,
    pub fork_block_number: Option<u64>,
    pub accounts: Option<u32>,
    pub block_time: Option<u64>,
}

/// The port that a request asks for: the number under `port`, or
/// `DEFAULT_PORT` where there is none; of a number that is no port, the low
/// sixteen bits.
pub open spec fn port_asked(args: Seq<Member>) -> u16 {
    match number_under(args, "port"@) {
        Some(n) => n as u16,
        None => DEFAULT_PORT,
    }
}

/// The number of accounts that a request asks for; of a number beyond 32
/// bits, the low 32 bits.
pub open spec fn accounts_asked(args: Seq<Member>) -> Option<u32> {
    match number_under(args, "accounts"@) {
        Some(n) => Some(n as u32),
        None => None,
    }
}

/// The low sixteen bits of a number.
fn low_u16(n: u64) -> (r: u16)
    ensures
        r == n as u16,
{
    #[verifier::truncate]
    (n as u16)
}

/// The low 32 bits of a number.
fn low_u32(n: u64) -> (r: u32)
    ensures
        r == n as u32,
{
    #[verifier::truncate]
    (n as u32)
}

/// Reads a request to start the local node. Nothing is required: whatever is
/// missing, or is not of the kind expected, counts as not given.
pub fn anvil_start_request(args: &Option<JsonObject>) -> (r: AnvilStart)
    ensures
        r.port == port_asked(supplied(*args)),
        opt_text(r.fork_url) == text_under(supplied(*args), "fork_url"@),
        r.fork_block_number == number_under(supplied(*args), "fork_block_number"@),
        r.accounts == accounts_asked(supplied(*args)),
        r.block_time == number_under(supplied(*args), "block_time"@),
{
    let empty = JsonObject::new();
    let map = match args {
        Some(map) => map,
        None => &empty,
    };
    let port = match number_argument(map, "port") {
        Some(n) => low_u16(n),
        None => DEFAULT_PORT,
    };
    let fork_url = match text_argument(map, "fork_url") {
        Some(t) => Some(String::from_str(t)),
        None => None,
    };
    let accounts = match number_argument(map, "accounts") {
        Some(n) => Some(low_u32(n)),
        None => None,
    };
    AnvilStart {
        port,
        fork_url,
        fork_block_number: number_argument(map, "fork_block_number"),
        accounts,
        block_time: number_argument(map, "block_time"),
    }
}

/// Reads the code of a request to evaluate: the string under `code`.
pub fn eval_request(args: &Option<JsonObject>) -> (r: Result<String, RequestError>)
    ensures
        match r {
            Ok(code) => text_under(supplied(*args), "code"@) == Some(code@),
            Err(e) => text_under(supplied(*args), "code"@) is None && e@
                == RequestFailure::InvalidParams("Missing 'code' parameter"@),
        },
{
    let found = match args {
        Some(map) => text_argument(map, "code"),
        None => None,
    };
    match found {
        Some(code) => Ok(String::from_str(code)),
        None => Err(RequestError::InvalidParams(String::from_str("Missing 'code' parameter"))),
    }
}

/// The failure of a request whose work was given to a task that did not
/// finish it.
pub fn task_failure(reason: &str) -> (e: RequestError)
    ensures
        e@ == RequestFailure::InternalError("Task error: "@ + reason@),
{
    RequestError::InternalError(concat("Task error: ", reason))
}

} // verus!
