//! What is advertised of a tool under a policy: every parameter but the
//! options and flags that the policy forbids.

use vstd::prelude::*;
use crate::config::dangerous_flags;
use crate::config::lemma_built_ins_in_force;
use crate::config::list_contains;
use crate::config::Config;
use crate::context::described;
use crate::context::ContextConfig;
use crate::foundry::FoundryExecutor;
use crate::json::lemma_views_push;
use crate::json::lemma_with_member;
use crate::json::lookup;
use crate::json::views;
use crate::json::with_member;
use crate::json::JsonObject;
use crate::json::JsonValue;
use crate::json::Member;
use crate::schema::FlagSchema;
use crate::schema::OptionSchema;
use crate::schema::PositionalSchema;
use crate::schema::ToolSchema;
use crate::text::str_eq;
use crate::text::texts;
use crate::tool::copy_default;
use crate::tool::object_schema;
use crate::tool::opt_json;
use crate::tool::property;
use crate::tool::property_schema;
use crate::tool::schema_object;
use crate::tool::text_values;
use crate::tool::Tool;
use crate::tool::ToolView;

verus! {

/// The JSON type under which a parameter of the declared type is advertised.
pub open spec fn json_type(param_type: Seq<char>) -> Seq<char> {
    if param_type == "boolean"@ {
        "boolean"@
    } else if param_type == "number"@ {
        "number"@
    } else if param_type == "array"@ {
        "array"@
    } else {
        "string"@
    }
}

/// `acc` with a property for each positional parameter.
pub open spec fn positional_properties(
    ps: Seq<PositionalSchema>,
    ctx: ContextConfig,
    acc: Seq<Member>,
) -> Seq<Member>
    decreases ps.len(),
{
    if ps.len() == 0 {
        acc
    } else {
        let p = ps.last();
        with_member(
            positional_properties(ps.drop_last(), ctx, acc),
            p.name@,
            property(
                json_type(p.param_type@),
                described(ctx.positionals@, p.name@, p.description@),
                None,
            ),
        )
    }
}

/// `acc` with a property for each option whose name is not forbidden.
pub open spec fn option_properties(
    os: Seq<OptionSchema>,
    forbidden: Seq<Seq<char>>,
    ctx: ContextConfig,
    acc: Seq<Member>,
) -> Seq<Member>
    decreases os.len(),
{
    if os.len() == 0 {
        acc
    } else {
        let o = os.last();
        let before = option_properties(os.drop_last(), forbidden, ctx, acc);
        if forbidden.contains(o.name@) {
            before
        } else {
            with_member(
                before,
                o.name@,
                property(
                    json_type(o.param_type@),
                    described(ctx.flags@, o.name@, o.description@),
                    opt_json(o.default),
                ),
            )
        }
    }
}

/// `acc` with a boolean property for each flag whose name is not forbidden.
pub open spec fn flag_properties(
    fs: Seq<FlagSchema>,
    forbidden: Seq<Seq<char>>,
    ctx: ContextConfig,
    acc: Seq<Member>,
) -> Seq<Member>
    decreases fs.len(),
{
    if fs.len() == 0 {
        acc
    } else {
        let f = fs.last();
        let before = flag_properties(fs.drop_last(), forbidden, ctx, acc);
        if forbidden.contains(f.name@) {
            before
        } else {
            with_member(
                before,
                f.name@,
                property("boolean"@, described(ctx.flags@, f.name@, f.description@), None),
            )
        }
    }
}

/// The advertised parameters of a tool: its positionals, then those of its
/// options and flags whose names are not forbidden. A later parameter takes
/// the place of an earlier one of the same name.
pub open spec fn advertised_properties(
    tool: ToolSchema,
    forbidden: Seq<Seq<char>>,
    ctx: ContextConfig,
) -> Seq<Member> {
    flag_properties(
        tool.flags@,
        forbidden,
        ctx,
        option_properties(
            tool.options@,
            forbidden,
            ctx,
            positional_properties(tool.positionals@, ctx, Seq::empty()),
        ),
    )
}

/// The names of the required positional parameters.
pub open spec fn required_positionals(ps: Seq<PositionalSchema>) -> Seq<Seq<char>>
    decreases ps.len(),
{
    if ps.len() == 0 {
        Seq::empty()
    } else if ps.last().required {
        required_positionals(ps.drop_last()).push(ps.last().name@)
    } else {
        required_positionals(ps.drop_last())
    }
}

/// The names of the required options that are not forbidden.
pub open spec fn required_options(os: Seq<OptionSchema>, forbidden: Seq<Seq<char>>) -> Seq<
    Seq<char>,
>
    decreases os.len(),
{
    if os.len() == 0 {
        Seq::empty()
    } else if os.last().required && !forbidden.contains(os.last().name@) {
        required_options(os.drop_last(), forbidden).push(os.last().name@)
    } else {
        required_options(os.drop_last(), forbidden)
    }
}

/// The names of the required flags that are not forbidden.
pub open spec fn required_flags(fs: Seq<FlagSchema>, forbidden: Seq<Seq<char>>) -> Seq<Seq<char>>
    decreases fs.len(),
{
    if fs.len() == 0 {
        Seq::empty()
    } else if fs.last().required && !forbidden.contains(fs.last().name@) {
        required_flags(fs.drop_last(), forbidden).push(fs.last().name@)
    } else {
        required_flags(fs.drop_last(), forbidden)
    }
}

/// The names that the advertised schema lists as required.
pub open spec fn required_names(tool: ToolSchema, forbidden: Seq<Seq<char>>) -> Seq<Seq<char>> {
    required_positionals(tool.positionals@) + required_options(tool.options@, forbidden)
        + required_flags(tool.flags@, forbidden)
}

/// What is advertised of a tool under a policy that forbids the flags
/// `forbidden`, with the local context `ctx`.
pub open spec fn advertised(tool: ToolSchema, forbidden: Seq<Seq<char>>, ctx: ContextConfig) -> ToolView {
    ToolView {
        name: tool.name@,
        description: described(ctx.tools@, tool.name@, tool.description@),
        input_schema: object_schema(
            advertised_properties(tool, forbidden, ctx),
            required_names(tool, forbidden),
        ),
    }
}

/// What is advertised of `tool` where the flags `forbidden_flags` are
/// forbidden: everything but the options and flags of those names. The
/// definition itself is left as it is.
pub(crate) fn advertise(tool: &ToolSchema, forbidden_flags: &Vec<String>, context: &ContextConfig) -> (r:
    Tool)
    ensures
        r@ == advertised(*tool, texts(forbidden_flags@), *context),
{
    let ghost forbidden = texts(forbidden_flags@);
    let mut properties = JsonObject::new();
    let mut required: Vec<JsonValue> = Vec::new();
    let ghost mut names: Seq<Seq<char>> = Seq::empty();
    let mut i: usize = 0;
    while i < tool.positionals.len()
        invariant
            i <= tool.positionals.len(),
            properties@ == positional_properties(
                tool.positionals@.take(i as int),
                *context,
                Seq::empty(),
            ),
            names == required_positionals(tool.positionals@.take(i as int)),
            views(required@) == text_values(names),
        decreases tool.positionals.len() - i,
    {
        let p = &tool.positionals[i];
        proof {
            assert(tool.positionals@.take(i + 1).drop_last() =~= tool.positionals@.take(i as int));
        }
        let description = context.positional_description(p.name.as_str(), p.description.as_str());
        let schema = property_schema(FoundryExecutor::map_type(p.param_type.as_str()), description, None);
        properties.insert(p.name.clone(), schema);
        if p.required {
            let name = JsonValue::Text(p.name.clone());
            proof {
                lemma_views_push(required@, name);
                names = names.push(p.name@);
            }
            required.push(name);
        }
        i += 1;
    }
    proof {
        assert(tool.positionals@.take(tool.positionals.len() as int) =~= tool.positionals@);
    }
    let ghost base = properties@;
    let ghost first = names;
    let mut j: usize = 0;
    while j < tool.options.len()
        invariant
            j <= tool.options.len(),
            forbidden == texts(forbidden_flags@),
            properties@ == option_properties(tool.options@.take(j as int), forbidden, *context, base),
            names == first + required_options(tool.options@.take(j as int), forbidden),
            views(required@) == text_values(names),
        decreases tool.options.len() - j,
    {
        let o = &tool.options[j];
        proof {
            assert(tool.options@.take(j + 1).drop_last() =~= tool.options@.take(j as int));
        }
        if !list_contains(forbidden_flags, o.name.as_str()) {
            let description = context.flag_description(o.name.as_str(), o.description.as_str());
            let schema = property_schema(
                FoundryExecutor::map_type(o.param_type.as_str()),
                description,
                copy_default(&o.default),
            );
            properties.insert(o.name.clone(), schema);
            if o.required {
                let name = JsonValue::Text(o.name.clone());
                proof {
                lemma_views_push(required@, name);
                    names = names.push(o.name@);
                }
                required.push(name);
            }
        }
        j += 1;
    }
    proof {
        assert(tool.options@.take(tool.options.len() as int) =~= tool.options@);
        assert(names + Seq::<Seq<char>>::empty() =~= names);
    }
    let ghost base2 = properties@;
    let ghost second = names;
    let mut k: usize = 0;
    while k < tool.flags.len()
        invariant
            k <= tool.flags.len(),
            forbidden == texts(forbidden_flags@),
            properties@ == flag_properties(tool.flags@.take(k as int), forbidden, *context, base2),
            names == second + required_flags(tool.flags@.take(k as int), forbidden),
            views(required@) == text_values(names),
        decreases tool.flags.len() - k,
    {
        let f = &tool.flags[k];
        proof {
            assert(tool.flags@.take(k + 1).drop_last() =~= tool.flags@.take(k as int));
        }
        if !list_contains(forbidden_flags, f.name.as_str()) {
            let description = context.flag_description(f.name.as_str(), f.description.as_str());
            let schema = property_schema("boolean", description, None);
            properties.insert(f.name.clone(), schema);
            if f.required {
                let name = JsonValue::Text(f.name.clone());
                proof {
                lemma_views_push(required@, name);
                    names = names.push(f.name@);
                }
                required.push(name);
            }
        }
        k += 1;
    }
    proof {
        assert(tool.flags@.take(tool.flags.len() as int) =~= tool.flags@);
    }
    let input_schema = schema_object(properties, required, Ghost(names));
    Tool {
        name: tool.name.clone(),
        description: context.tool_description(tool.name.as_str(), tool.description.as_str()),
        input_schema,
    }
}

impl FoundryExecutor {
    /// The JSON type under which a parameter of the declared type is advertised.
    pub fn map_type(param_type: &str) -> (r: &'static str)
        ensures
            r@ == json_type(param_type@),
    {
        if str_eq(param_type, "boolean") {
            "boolean"
        } else if str_eq(param_type, "number") {
            "number"
        } else if str_eq(param_type, "array") {
            "array"
        } else {
            "string"
        }
    }

    /// What is advertised of `tool` under the policy `config`: everything but
    /// the options and flags that are in force as forbidden. The definition
    /// itself is left as it is.
    pub fn schema_to_tool(tool: &ToolSchema, config: &Config, context: &ContextConfig) -> (r: Tool)
        ensures
            r@ == advertised(*tool, config.effective_flags(), *context),
    {
        let policy = config.effective();
        advertise(tool, &policy.forbidden_flags, context)
    }
}

proof fn lemma_positional_properties_skip(
    ps: Seq<PositionalSchema>,
    ctx: ContextConfig,
    acc: Seq<Member>,
    name: Seq<char>,
)
    requires
        forall|i: int| 0 <= i < ps.len() ==> ps[i].name@ != name,
    ensures
        lookup(positional_properties(ps, ctx, acc), name) == lookup(acc, name),
    decreases ps.len(),
{
    if ps.len() > 0 {
        let p = ps.last();
        lemma_positional_properties_skip(ps.drop_last(), ctx, acc, name);
        lemma_with_member(
            positional_properties(ps.drop_last(), ctx, acc),
            p.name@,
            property(
                json_type(p.param_type@),
                described(ctx.positionals@, p.name@, p.description@),
                None,
            ),
            name,
        );
    }
}

proof fn lemma_option_properties_skip(
    os: Seq<OptionSchema>,
    forbidden: Seq<Seq<char>>,
    ctx: ContextConfig,
    acc: Seq<Member>,
    name: Seq<char>,
)
    requires
        forbidden.contains(name),
    ensures
        lookup(option_properties(os, forbidden, ctx, acc), name) == lookup(acc, name),
    decreases os.len(),
{
    if os.len() > 0 {
        let o = os.last();
        lemma_option_properties_skip(os.drop_last(), forbidden, ctx, acc, name);
        if !forbidden.contains(o.name@) {
            lemma_with_member(
                option_properties(os.drop_last(), forbidden, ctx, acc),
                o.name@,
                property(
                    json_type(o.param_type@),
                    described(ctx.flags@, o.name@, o.description@),
                    opt_json(o.default),
                ),
                name,
            );
        }
    }
}

proof fn lemma_flag_properties_skip(
    fs: Seq<FlagSchema>,
    forbidden: Seq<Seq<char>>,
    ctx: ContextConfig,
    acc: Seq<Member>,
    name: Seq<char>,
)
    requires
        forbidden.contains(name),
    ensures
        lookup(flag_properties(fs, forbidden, ctx, acc), name) == lookup(acc, name),
    decreases fs.len(),
{
    if fs.len() > 0 {
        let f = fs.last();
        lemma_flag_properties_skip(fs.drop_last(), forbidden, ctx, acc, name);
        if !forbidden.contains(f.name@) {
            lemma_with_member(
                flag_properties(fs.drop_last(), forbidden, ctx, acc),
                f.name@,
                property("boolean"@, described(ctx.flags@, f.name@, f.description@), None),
                name,
            );
        }
    }
}

/// A forbidden flag is not advertised: the properties of a tool hold nothing
/// under the name of a forbidden flag, unless the tool has a positional
/// parameter of that name.
pub proof fn lemma_forbidden_flag_hidden(
    tool: ToolSchema,
    forbidden: Seq<Seq<char>>,
    ctx: ContextConfig,
    flag: Seq<char>,
)
    requires
        forbidden.contains(flag),
        forall|i: int| 0 <= i < tool.positionals@.len() ==> tool.positionals@[i].name@ != flag,
    ensures
        lookup(advertised_properties(tool, forbidden, ctx), flag) is None,
{
    let a = positional_properties(tool.positionals@, ctx, Seq::empty());
    let b = option_properties(tool.options@, forbidden, ctx, a);
    lemma_positional_properties_skip(tool.positionals@, ctx, Seq::empty(), flag);
    lemma_option_properties_skip(tool.options@, forbidden, ctx, a, flag);
    lemma_flag_properties_skip(tool.flags@, forbidden, ctx, b, flag);
}

/// Unless the policy allows dangerous commands, a built-in dangerous flag is
/// never advertised, whatever the policy names: the properties of a tool
/// hold nothing under its name, unless the tool has a positional parameter of
/// that name.
pub proof fn lemma_dangerous_flag_hidden(
    tool: ToolSchema,
    config: Config,
    ctx: ContextConfig,
    flag: Seq<char>,
)
    requires
        !config.allow_dangerous,
        dangerous_flags().contains(flag),
        forall|i: int| 0 <= i < tool.positionals@.len() ==> tool.positionals@[i].name@ != flag,
    ensures
        lookup(advertised_properties(tool, config.effective_flags(), ctx), flag) is None,
{
    lemma_built_ins_in_force(config);
    let i = choose|i: int| 0 <= i < dangerous_flags().len() && dangerous_flags()[i] == flag;
    assert(config.effective_flags().contains(dangerous_flags()[i]));
    lemma_forbidden_flag_hidden(tool, config.effective_flags(), ctx, flag);
}

} // verus!
