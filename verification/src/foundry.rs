//! The catalog of the tools that a policy lets through, and the executor
//! that resolves a call of one of them.

use vstd::prelude::*;
use vstd::string::StringExecFns;
use crate::advertise::advertise;
use crate::advertise::advertised;
use crate::command::argument_tokens;
use crate::command::base_command;
use crate::command::command_path;
use crate::command::concat3;
use crate::command::decode_name;
use crate::command::decode_segments;
use crate::command::lemma_split_first;
use crate::command::push_arguments;
use crate::command::CommandSpec;
use crate::command::Invocation;
use crate::command::ToolError;
use crate::command::ToolFailure;
use crate::config::dangerous_commands;
use crate::config::dangerous_flags;
use crate::config::lemma_built_ins_in_force;
use crate::config::lemma_merge_missing_into_empty;
use crate::config::list_contains;
use crate::config::Config;
use crate::context::ContextConfig;
use crate::json::supplied;
use crate::json::JsonObject;
use crate::json::Member;
use crate::schema::SchemaFile;
use crate::schema::ToolSchema;
use crate::text::opt_text;
use crate::text::split;
use crate::text::split_char;
use crate::text::str_eq;
use crate::text::texts;
use crate::tool::tool_views;
use crate::tool::Tool;
use crate::tool::ToolView;

verus! {

/// Whether the policy lets a tool of this name be offered: neither the name
/// nor its base command is among the forbidden commands.
pub open spec fn tool_allowed(name: Seq<char>, forbidden: Seq<Seq<char>>) -> bool {
    !forbidden.contains(name) && !forbidden.contains(base_command(name))
}

/// The definitions that a policy retains: those whose name is allowed.
pub open spec fn catalog(defs: Seq<ToolSchema>, forbidden: Seq<Seq<char>>) -> Seq<ToolSchema> {
    defs.filter(|t: ToolSchema| tool_allowed(t.name@, forbidden))
}

/// What is advertised of each of `tools`.
pub open spec fn advertised_all(
    tools: Seq<ToolSchema>,
    forbidden: Seq<Seq<char>>,
    ctx: ContextConfig,
) -> Seq<ToolView> {
    tools.map_values(|t: ToolSchema| advertised(t, forbidden, ctx))
}

/// The last of `tools` that is named `name`.
pub open spec fn find_tool(tools: Seq<ToolSchema>, name: Seq<char>) -> Option<ToolSchema>
    decreases tools.len(),
{
    if tools.len() == 0 {
        None
    } else if tools.last().name@ == name {
        Some(tools.last())
    } else {
        find_tool(tools.drop_last(), name)
    }
}

/// The invocation that a call of the tool `name` with `args` resolves to
/// among `tools`: the program of its base command, then the tokens of its
/// name, then the tokens of its arguments.
pub open spec fn invocation(
    tools: Seq<ToolSchema>,
    bin: Option<Seq<char>>,
    name: Seq<char>,
    args: Seq<Member>,
) -> Result<Invocation, ToolFailure> {
    match find_tool(tools, name) {
        None => Err(ToolFailure::ToolNotFound(name)),
        Some(tool) => match argument_tokens(tool, args) {
            Err(failure) => Err(failure),
            Ok(tokens) => Ok(
                Invocation {
                    command: base_command(name),
                    program: command_path(bin, base_command(name)),
                    args: decode_name(split(name, '_')).0 + tokens,
                },
            ),
        },
    }
}

/// The tools that are offered under a policy, and what is needed to resolve a
/// call of one of them. The catalog is computed when the executor is made and
/// does not change afterwards.
pub struct FoundryExecutor {
    tools: Vec<ToolSchema>,
    tool_list: Vec<Tool>,
    foundry_bin_path: Option<String>,
}

/// The last of `tools` that is named `name`.
fn find<'a>(tools: &'a Vec<ToolSchema>, name: &str) -> (r: Option<&'a ToolSchema>)
    ensures
        match r {
            Some(tool) => find_tool(tools@, name@) == Some(*tool),
            None => find_tool(tools@, name@) is None,
        },
{
    let mut i: usize = tools.len();
    proof {
        assert(tools@.take(i as int) =~= tools@);
    }
    while i > 0
        invariant
            i <= tools.len(),
            find_tool(tools@, name@) == find_tool(tools@.take(i as int), name@),
        decreases i,
    {
        proof {
            assert(tools@.take(i as int).drop_last() =~= tools@.take(i - 1));
        }
        if str_eq(tools[i - 1].name.as_str(), name) {
            return Some(&tools[i - 1]);
        }
        i -= 1;
    }
    None
}

/// Whether a tool of this name may be offered where the commands `forbidden`
/// are forbidden.
fn allowed_under(name: &str, forbidden: &Vec<String>) -> (r: bool)
    ensures
        r == tool_allowed(name@, texts(forbidden@)),
{
    if list_contains(forbidden, name) {
        return false;
    }
    let parts = split_char(name, '_');
    proof {
        lemma_split_first(name@, '_');
    }
    !list_contains(forbidden, parts[0].as_str())
}

impl FoundryExecutor {
    /// The definitions of the offered tools, as they were declared.
    pub closed spec fn retained(&self) -> Seq<ToolSchema> {
        self.tools@
    }

    /// What is advertised of the offered tools.
    pub closed spec fn listed(&self) -> Seq<ToolView> {
        tool_views(self.tool_list@)
    }

    /// The install directory of the toolchain, where one is known.
    pub closed spec fn bin(&self) -> Option<Seq<char>> {
        opt_text(self.foundry_bin_path)
    }

    /// The executor for `schema_file` under the policy that names nothing and
    /// does not allow dangerous commands: the built-in restrictions, and
    /// nothing else, are in force.
    pub fn new(
        schema_file: SchemaFile,
        context: ContextConfig,
        foundry_bin_path: Option<String>,
    ) -> (r: Self)
        ensures
            r.retained() == catalog(schema_file.tools@, dangerous_commands()),
            r.listed() == advertised_all(r.retained(), dangerous_flags(), context),
            r.bin() == opt_text(foundry_bin_path),
    {
        let config = Config::default();
        proof {
            assert(config.commands() =~= Seq::<Seq<char>>::empty());
            assert(config.flags() =~= Seq::<Seq<char>>::empty());
            lemma_merge_missing_into_empty(dangerous_commands());
            lemma_merge_missing_into_empty(dangerous_flags());
        }
        Self::with_config(schema_file, config, context, foundry_bin_path)
    }

    /// The executor for `schema_file` under the policy `config`.
    ///
    /// The policy counts as it is in force: with the built-in restrictions,
    /// unless it allows dangerous commands, whether or not its lists name
    /// them. A definition is dropped if and only if its name or its base
    /// command is in force as a forbidden command. What is kept is kept as
    /// declared: the flags in force as forbidden are left out of what is
    /// advertised, not out of the definition.
    pub fn with_config(
        schema_file: SchemaFile,
        config: Config,
        context: ContextConfig,
        foundry_bin_path: Option<String>,
    ) -> (r: Self)
        ensures
            r.retained() == catalog(schema_file.tools@, config.effective_commands()),
            r.listed() == advertised_all(r.retained(), config.effective_flags(), context),
            r.bin() == opt_text(foundry_bin_path),
            forall|k: int|
                0 <= k < r.listed().len() ==> tool_allowed(
                    (#[trigger] r.listed()[k]).name,
                    config.effective_commands(),
                ),
    {
        let policy = config.effective();
        let ghost defs = schema_file.tools@;
        let ghost forbidden = config.effective_commands();
        let ghost allowed = |t: ToolSchema| tool_allowed(t.name@, forbidden);
        let mut tools: Vec<ToolSchema> = Vec::new();
        for tool in it: schema_file.tools
            invariant
                it.seq() == defs,
                forbidden == texts(policy.forbidden_commands@),
                allowed == (|t: ToolSchema| tool_allowed(t.name@, forbidden)),
                tools@ == defs.take(it.index() as int).filter(allowed),
        {
            proof {
                assert(defs.take(it.index() + 1) =~= defs.take(it.index() as int).push(tool));
                defs.take(it.index() as int).lemma_filter_push(tool, allowed);
            }
            if allowed_under(tool.name.as_str(), &policy.forbidden_commands) {
                tools.push(tool);
            }
        }
        proof {
            assert(defs.take(defs.len() as int) =~= defs);
        }
        let mut tool_list: Vec<Tool> = Vec::new();
        let mut i: usize = 0;
        while i < tools.len()
            invariant
                i <= tools.len(),
                tool_list@.len() == i,
                forall|k: int|
                    0 <= k < i ==> tool_list@[k]@ == advertised(
                        tools@[k],
                        texts(policy.forbidden_flags@),
                        context,
                    ),
            decreases tools.len() - i,
        {
            let tool = advertise(&tools[i], &policy.forbidden_flags, &context);
            tool_list.push(tool);
            i += 1;
        }
        proof {
            assert(tool_views(tool_list@) =~= advertised_all(
                tools@,
                config.effective_flags(),
                context,
            ));
            assert forall|k: int| 0 <= k < tool_list@.len() implies tool_allowed(
                (#[trigger] tool_views(tool_list@)[k]).name,
                forbidden,
            ) by {
                lemma_catalog_keeps_definitions(defs, forbidden, k);
            }
        }
        FoundryExecutor { tools, tool_list, foundry_bin_path }
    }

    /// The definition that a call of `name` resolves to: the last retained
    /// one of that name.
    pub fn tool(&self, name: &str) -> (r: Option<&ToolSchema>)
        ensures
            match r {
                Some(tool) => find_tool(self.retained(), name@) == Some(*tool),
                None => find_tool(self.retained(), name@) is None,
            },
    {
        find(&self.tools, name)
    }

    /// What is advertised of the offered tools.
    pub fn tool_list(&self) -> (r: &[Tool])
        ensures
            tool_views(r@) == self.listed(),
    {
        self.tool_list.as_slice()
    }

    /// Whether the policy lets `tool` be offered: neither its name nor its
    /// base command is in force as a forbidden command.
    pub fn is_tool_allowed(tool: &ToolSchema, config: &Config) -> (r: bool)
        ensures
            r == tool_allowed(tool.name@, config.effective_commands()),
    {
        let policy = config.effective();
        allowed_under(tool.name.as_str(), &policy.forbidden_commands)
    }

    /// The install directory of the toolchain, where one is known.
    pub fn foundry_bin_path(&self) -> (r: &Option<String>)
        ensures
            opt_text(*r) == self.bin(),
    {
        &self.foundry_bin_path
    }

    /// The path of the program for `command_name`.
    pub fn get_command_path(&self, command_name: &str) -> (r: String)
        ensures
            r@ == command_path(self.bin(), command_name@),
    {
        match &self.foundry_bin_path {
            Some(dir) => concat3(dir.as_str(), "/", command_name),
            None => String::from_str(command_name),
        }
    }

    /// Resolves a call of the tool `name` with `arguments` into the invocation
    /// that carries it out. Nothing is started here: the caller runs the
    /// invocation and hands what came of it to `tool_result`.
    ///
    /// An absent argument map counts as an empty one.
    pub fn execute_tool(&self, name: &str, arguments: &Option<JsonObject>) -> (r: Result<
        CommandSpec,
        ToolError,
    >)
        ensures
            match r {
                Ok(spec) => invocation(self.retained(), self.bin(), name@, supplied(*arguments))
                    == Ok::<Invocation, ToolFailure>(spec@),
                Err(e) => invocation(self.retained(), self.bin(), name@, supplied(*arguments))
                    == Err::<Invocation, ToolFailure>(e@),
            },
    {
        let tool = match find(&self.tools, name) {
            Some(tool) => tool,
            None => {
                return Err(ToolError::ToolNotFound(String::from_str(name)));
            },
        };
        let parts = split_char(name, '_');
        proof {
            lemma_split_first(name@, '_');
            assert(texts(parts@)[0] == parts@[0]@);
        }
        let command = parts[0].clone();
        let program = self.get_command_path(command.as_str());
        let (mut args, _) = decode_segments(&parts);
        let outcome = match arguments {
            Some(map) => push_arguments(&mut args, tool, map),
            None => {
                let empty = JsonObject::new();
                push_arguments(&mut args, tool, &empty)
            },
        };
        match outcome {
            Ok(_) => Ok(CommandSpec { command, program, args }),
            Err(e) => Err(e),
        }
    }

    /// The error for an invocation whose program could not be started.
    pub fn spawn_failure(&self, spec: &CommandSpec) -> (e: ToolError)
        ensures
            e@ == (ToolFailure::SpawnFailure {
                command: spec.command@,
                path: match self.bin() {
                    Some(_) => Some(spec.program@),
                    None => None,
                },
            }),
    {
        let path = match &self.foundry_bin_path {
            Some(_) => Some(spec.program.clone()),
            None => None,
        };
        ToolError::SpawnFailure { command: spec.command.clone(), path }
    }
}

/// Filtering a sequence whose elements all pass leaves it as it is.
proof fn lemma_filter_all_pass(s: Seq<ToolSchema>, pred: spec_fn(ToolSchema) -> bool)
    requires
        forall|i: int| 0 <= i < s.len() ==> pred(s[i]),
    ensures
        s.filter(pred) == s,
    decreases s.len(),
{
    reveal(Seq::filter);
    if s.len() > 0 {
        lemma_filter_all_pass(s.drop_last(), pred);
    }
}

/// No tool is found under a name that none of the tools bears.
proof fn lemma_find_tool_none(tools: Seq<ToolSchema>, name: Seq<char>)
    requires
        forall|k: int| 0 <= k < tools.len() ==> tools[k].name@ != name,
    ensures
        find_tool(tools, name) is None,
    decreases tools.len(),
{
    if tools.len() > 0 {
        lemma_find_tool_none(tools.drop_last(), name);
    }
}

/// A tool whose name or base command is forbidden is absent from the
/// catalog: no retained definition bears its name, nothing is advertised under
/// it, and a call of it finds no tool.
pub proof fn lemma_forbidden_tool_absent(
    defs: Seq<ToolSchema>,
    forbidden: Seq<Seq<char>>,
    flags: Seq<Seq<char>>,
    ctx: ContextConfig,
    name: Seq<char>,
)
    requires
        forbidden.contains(name) || forbidden.contains(base_command(name)),
    ensures
        forall|k: int|
            0 <= k < catalog(defs, forbidden).len() ==> (#[trigger] catalog(
                defs,
                forbidden,
            )[k]).name@ != name,
        forall|k: int|
            0 <= k < advertised_all(catalog(defs, forbidden), flags, ctx).len()
                ==> (#[trigger] advertised_all(catalog(defs, forbidden), flags, ctx)[k]).name
                != name,
        find_tool(catalog(defs, forbidden), name) is None,
{
    let kept = catalog(defs, forbidden);
    lemma_find_tool_none(kept, name);
}

/// Unless the policy allows dangerous commands, a tool whose name or base
/// command is a built-in dangerous command is never offered, whatever the
/// policy names: no retained definition bears its name, nothing is
/// advertised under it, and a call of it finds no tool.
pub proof fn lemma_dangerous_tool_absent(
    defs: Seq<ToolSchema>,
    config: Config,
    ctx: ContextConfig,
    name: Seq<char>,
)
    requires
        !config.allow_dangerous,
        dangerous_commands().contains(name) || dangerous_commands().contains(base_command(name)),
    ensures
        !tool_allowed(name, config.effective_commands()),
        forall|k: int|
            0 <= k < catalog(defs, config.effective_commands()).len() ==> (#[trigger] catalog(
                defs,
                config.effective_commands(),
            )[k]).name@ != name,
        forall|k: int|
            0 <= k < advertised_all(
                catalog(defs, config.effective_commands()),
                config.effective_flags(),
                ctx,
            ).len() ==> (#[trigger] advertised_all(
                catalog(defs, config.effective_commands()),
                config.effective_flags(),
                ctx,
            )[k]).name != name,
        find_tool(catalog(defs, config.effective_commands()), name) is None,
{
    lemma_built_ins_in_force(config);
    let forbidden = config.effective_commands();
    if dangerous_commands().contains(name) {
        let i = choose|i: int| 0 <= i < dangerous_commands().len() && dangerous_commands()[i] == name;
        assert(forbidden.contains(dangerous_commands()[i]));
    } else {
        let i = choose|i: int|
            0 <= i < dangerous_commands().len() && dangerous_commands()[i] == base_command(name);
        assert(forbidden.contains(dangerous_commands()[i]));
    }
    lemma_forbidden_tool_absent(defs, forbidden, config.effective_flags(), ctx, name);
}

/// Every retained definition is one of the declared definitions, unchanged,
/// and its name is allowed.
pub proof fn lemma_catalog_keeps_definitions(defs: Seq<ToolSchema>, forbidden: Seq<Seq<char>>, k: int)
    requires
        0 <= k < catalog(defs, forbidden).len(),
    ensures
        defs.contains(catalog(defs, forbidden)[k]),
        tool_allowed(catalog(defs, forbidden)[k].name@, forbidden),
{
    let allowed = |t: ToolSchema| tool_allowed(t.name@, forbidden);
    let kept = catalog(defs, forbidden);
    defs.lemma_filter_contains_rev(allowed, kept[k]);
}

/// Every declared definition whose name is allowed is retained.
pub proof fn lemma_catalog_keeps_allowed(defs: Seq<ToolSchema>, forbidden: Seq<Seq<char>>, i: int)
    requires
        0 <= i < defs.len(),
        tool_allowed(defs[i].name@, forbidden),
    ensures
        catalog(defs, forbidden).contains(defs[i]),
{
}

/// Applying a policy to what it retained retains all of it: the catalog of a
/// catalog is that catalog, and so is what is advertised of it.
pub proof fn lemma_catalog_idempotent(
    defs: Seq<ToolSchema>,
    forbidden: Seq<Seq<char>>,
    flags: Seq<Seq<char>>,
    ctx: ContextConfig,
)
    ensures
        catalog(catalog(defs, forbidden), forbidden) == catalog(defs, forbidden),
        advertised_all(catalog(catalog(defs, forbidden), forbidden), flags, ctx) == advertised_all(
            catalog(defs, forbidden),
            flags,
            ctx,
        ),
{
    let allowed = |t: ToolSchema| tool_allowed(t.name@, forbidden);
    let kept = catalog(defs, forbidden);
    lemma_filter_all_pass(kept, allowed);
}

} // verus!
