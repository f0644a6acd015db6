//! From the name of a tool and the arguments of a call to the tokens of a
//! command line.

use vstd::prelude::*;
use vstd::string::StringExecFns;
use crate::foundry::FoundryExecutor;
use crate::json::lookup;
use crate::json::views;
use crate::json::Json;
use crate::json::JsonObject;
use crate::json::JsonValue;
use crate::json::Member;
use crate::schema::FlagSchema;
use crate::schema::OptionSchema;
use crate::schema::PositionalSchema;
use crate::schema::ToolSchema;
use crate::text::concat;
use crate::text::first_index;
use crate::text::i64_to_string;
use crate::text::join;
use crate::text::join_with;
use crate::text::lemma_first_index;
use crate::text::lemma_texts_push;
use crate::text::opt_text;
use crate::text::slices;
use crate::text::split;
use crate::text::str_eq;
use crate::text::texts;
use crate::text::u64_to_string;

verus! {

/// `done`, with the words of `pending` joined by hyphens as one more token
/// where there are any.
pub open spec fn flush(done: Seq<Seq<char>>, pending: Seq<Seq<char>>) -> Seq<Seq<char>> {
    if pending.len() > 0 {
        done.push(join(pending, "-"@))
    } else {
        done
    }
}

/// The tokens that the segments of a tool name from position `i` on stand
/// for, and whether a long flag is among them.
///
/// An empty segment that is followed by another empty segment and by at least
/// one more segment is a marker: the segment after the two names a long flag.
/// The words collected before it become one hyphenated token in front of the
/// flag. Any other segment that is not empty is a word. Words that are still
/// pending at the end become a token only where no flag was found.
pub open spec fn decode_from(
    parts: Seq<Seq<char>>,
    i: int,
    pending: Seq<Seq<char>>,
    done: Seq<Seq<char>>,
    found: bool,
) -> (Seq<Seq<char>>, bool)
    decreases parts.len() - i,
{
    if i >= parts.len() {
        (
            if found {
                done
            } else {
                flush(done, pending)
            },
            found,
        )
    } else if parts[i].len() == 0 && i + 2 < parts.len() && parts[i + 1].len() == 0 {
        if parts[i + 2].len() > 0 {
            decode_from(
                parts,
                i + 3,
                Seq::empty(),
                flush(done, pending).push("--"@ + parts[i + 2]),
                true,
            )
        } else {
            decode_from(parts, i + 3, pending, done, found)
        }
    } else if parts[i].len() > 0 {
        decode_from(parts, i + 1, pending.push(parts[i]), done, found)
    } else {
        decode_from(parts, i + 1, pending, done, found)
    }
}

/// The subcommand tokens that the segments of a tool name stand for, and
/// whether a long flag is among them. The first segment is the base command
/// and yields no token.
pub open spec fn decode_name(parts: Seq<Seq<char>>) -> (Seq<Seq<char>>, bool) {
    decode_from(parts, 1, Seq::empty(), Seq::empty(), false)
}

/// Decodes the segments of a tool name into subcommand tokens.
pub fn parse_subcommand_parts(parts: &[&str]) -> (r: (Vec<String>, bool))
    ensures
        (texts(r.0@), r.1) == decode_name(slices(parts@)),
{
    let ghost all = slices(parts@);
    let mut pending: Vec<String> = Vec::new();
    let mut done: Vec<String> = Vec::new();
    let mut found = false;
    let mut i: usize = 1;
    let n = parts.len();
    proof {
        assert(texts(done@) =~= Seq::<Seq<char>>::empty());
    }
    while i < n
        invariant
            1 <= i,
            n == parts@.len(),
            all == slices(parts@),
            decode_from(all, i as int, texts(pending@), texts(done@), found) == decode_name(all),
        decreases n - i,
    {
        let part: &str = parts[i];
        if part.is_empty() && n - i > 2 && parts[i + 1].is_empty() {
            let name: &str = parts[i + 2];
            if !name.is_empty() {
                if pending.len() > 0 {
                    let word = join_with(&pending, "-");
                    proof {
                        lemma_texts_push(done@, word);
                    }
                    done.push(word);
                    pending = Vec::new();
                }
                let flag = concat("--", name);
                proof {
                    lemma_texts_push(done@, flag);
                    assert(texts(pending@) =~= Seq::<Seq<char>>::empty());
                }
                done.push(flag);
                found = true;
            }
            i += 3;
        } else if !part.is_empty() {
            let word = String::from_str(part);
            proof {
                lemma_texts_push(pending@, word);
            }
            pending.push(word);
            i += 1;
        } else {
            i += 1;
        }
    }
    if pending.len() > 0 && !found {
        let word = join_with(&pending, "-");
        done.push(word);
    }
    (done, found)
}

/// The base command of a tool name: what stands before its first underscore.
pub open spec fn base_command(name: Seq<char>) -> Seq<char> {
    name.take(first_index(name, '_') as int)
}

/// The first piece of a split is what stands before the first separator.
pub proof fn lemma_split_first(s: Seq<char>, sep: char)
    ensures
        split(s, sep).len() >= 1,
        split(s, sep)[0] == s.take(first_index(s, sep) as int),
{
    lemma_first_index(s, sep);
}

/// The path of the program for `command`: inside the install directory where
/// one is known, the bare name where none is.
pub open spec fn command_path(bin: Option<Seq<char>>, command: Seq<char>) -> Seq<char> {
    match bin {
        Some(dir) => dir + "/"@ + command,
        None => command,
    }
}

/// The texts of those of `items` that are scalars, in their order.
pub open spec fn scalar_texts(items: Seq<Json>) -> Seq<Seq<char>> {
    items.filter_map(|v: Json| v.scalar_text())
}

/// Each of `values` with `flag` in front of it.
pub open spec fn flagged(flag: Seq<char>, values: Seq<Seq<char>>) -> Seq<Seq<char>>
    decreases values.len(),
{
    if values.len() == 0 {
        Seq::empty()
    } else {
        flagged(flag, values.drop_last()).push(flag).push(values.last())
    }
}

/// The tokens of a positional argument. One declared as an array gives a
/// token for each scalar element of an array value, and nothing for any other
/// value; any other gives the text of a scalar value, and nothing for a value
/// that is no scalar.
pub open spec fn positional_tokens(value: Json, param_type: Seq<char>) -> Seq<Seq<char>> {
    if param_type == "array"@ {
        match value {
            Json::Array(items) => scalar_texts(items),
            _ => Seq::empty(),
        }
    } else {
        match value.scalar_text() {
            Some(t) => seq![t],
            None => Seq::empty(),
        }
    }
}

/// The tokens of an option: `--name` and the value, once for a scalar and
/// once for each scalar element where the option is declared as an array.
pub open spec fn option_tokens(name: Seq<char>, value: Json, param_type: Seq<char>) -> Seq<
    Seq<char>,
> {
    flagged("--"@ + name, positional_tokens(value, param_type))
}

/// What went wrong with a tool call, as mathematics sees it.
pub enum ToolFailure {
    ToolNotFound(Seq<char>),
    MissingRequiredArgument { positional: bool, name: Seq<char> },
    SpawnFailure { command: Seq<char>, path: Option<Seq<char>> },
    NonZeroExit(Seq<char>),
}

/// What went wrong with a tool call.
#[derive(Debug, PartialEq)]
pub enum ToolError {
    /// No offered tool has this name.
    ToolNotFound(String),
    /// A required positional argument or option was not supplied.
    MissingRequiredArgument { positional: bool, name: String },
    /// The program could not be started. `path` is the resolved path where an
    /// install directory was known.
    SpawnFailure { command: String, path: Option<String> },
    /// The program ran and failed; this is everything it printed.
    NonZeroExit(String),
}

impl View for ToolError {
    type V = ToolFailure;

    open spec fn view(&self) -> ToolFailure {
        match self {
            ToolError::ToolNotFound(name) => ToolFailure::ToolNotFound(name@),
            ToolError::MissingRequiredArgument { positional, name } => {
                ToolFailure::MissingRequiredArgument { positional: *positional, name: name@ }
            },
            ToolError::SpawnFailure { command, path } => ToolFailure::SpawnFailure {
                command: command@,
                path: opt_text(*path),
            },
            ToolError::NonZeroExit(output) => ToolFailure::NonZeroExit(output@),
        }
    }
}

impl ToolFailure {
    /// The message that the caller is shown.
    pub open spec fn message(self) -> Seq<char> {
        match self {
            ToolFailure::ToolNotFound(name) => "Tool '"@ + name + "' not found"@,
            ToolFailure::MissingRequiredArgument { positional, name } => if positional {
                "Required positional argument '"@ + name + "' not provided"@
            } else {
                "Required option '"@ + name + "' not provided"@
            },
            ToolFailure::SpawnFailure { command, path } => match path {
                Some(p) => "Failed to execute '"@ + command + "' at '"@ + p + "'. Try running '"@
                    + p + " --version'"@,
                None => "Failed to execute '"@ + command
                    + "'. Install Foundry from https://getfoundry.sh/"@,
            },
            ToolFailure::NonZeroExit(output) => output,
        }
    }
}

/// The concatenation of three texts.
pub(crate) fn concat3(a: &str, b: &str, c: &str) -> (r: String)
    ensures
        r@ == a@ + b@ + c@,
{
    let mut r = String::from_str(a);
    r.append(b);
    r.append(c);
    r
}

impl ToolError {
    /// The message that the caller is shown.
    pub fn to_string(&self) -> (r: String)
        ensures
            r@ == self@.message(),
    {
        match self {
            ToolError::ToolNotFound(name) => concat3("Tool '", name.as_str(), "' not found"),
            ToolError::MissingRequiredArgument { positional, name } => {
                if *positional {
                    concat3("Required positional argument '", name.as_str(), "' not provided")
                } else {
                    concat3("Required option '", name.as_str(), "' not provided")
                }
            },
            ToolError::SpawnFailure { command, path } => match path {
                Some(p) => {
                    let mut r = concat3("Failed to execute '", command.as_str(), "' at '");
                    r.append(p.as_str());
                    r.append("'. Try running '");
                    r.append(p.as_str());
                    r.append(" --version'");
                    r
                },
                None => concat3(
                    "Failed to execute '",
                    command.as_str(),
                    "'. Install Foundry from https://getfoundry.sh/",
                ),
            },
            ToolError::NonZeroExit(output) => output.clone(),
        }
    }
}

/// A resolved invocation, as mathematics sees it.
pub struct Invocation {
    pub command: Seq<char>,
    pub program: Seq<char>,
    pub args: Seq<Seq<char>>,
}

/// A resolved invocation: the program to start and the arguments to hand it.
#[derive(Debug, PartialEq)]
pub struct CommandSpec {
    /// The base command, as the tool name gives it.
    pub command: String,
    /// The path of the program.
    pub program: String,
    /// The arguments, in order.
    pub args: Vec<String>,
}

impl View for CommandSpec {
    type V = Invocation;

    open spec fn view(&self) -> Invocation {
        Invocation { command: self.command@, program: self.program@, args: texts(self.args@) }
    }
}

impl FoundryExecutor {
    /// The text of a scalar value: a string as it is, a number in decimal.
    pub fn value_to_string(value: &JsonValue) -> (r: Option<String>)
        ensures
            opt_text(r) == value@.scalar_text(),
    {
        match value {
            JsonValue::Text(t) => Some(t.clone()),
            JsonValue::Int(n) => Some(i64_to_string(*n)),
            JsonValue::UInt(n) => Some(u64_to_string(*n)),
            JsonValue::Decimal(t) => Some(t.clone()),
            _ => None,
        }
    }

    /// Appends to `argv` the tokens of a positional argument.
    pub fn add_positional_argument(argv: &mut Vec<String>, value: &JsonValue, param_type: &str)
        ensures
            texts(final(argv)@) == texts(old(argv)@) + positional_tokens(value@, param_type@),
    {
        let ghost before = texts(argv@);
        if str_eq(param_type, "array") {
            match value.as_array() {
                Some(items) => {
                    push_scalars(argv, items);
                },
                None => {},
            }
        } else {
            match Self::value_to_string(value) {
                Some(t) => {
                    argv.push(t);
                },
                None => {
                    assert(before + Seq::<Seq<char>>::empty() =~= before);
                },
            }
        }
    }

    /// Appends to `argv` the tokens of an option: the flag before each value.
    pub fn add_option_argument(argv: &mut Vec<String>, name: &str, value: &JsonValue, param_type: &str)
        ensures
            texts(final(argv)@) == texts(old(argv)@) + option_tokens(name@, value@, param_type@),
    {
        let ghost before = texts(argv@);
        let flag = concat("--", name);
        let mut values: Vec<String> = Vec::new();
        Self::add_positional_argument(&mut values, value, param_type);
        let ghost all = texts(values@);
        let mut i: usize = 0;
        while i < values.len()
            invariant
                i <= values.len(),
                all == texts(values@),
                texts(argv@) == before + flagged(flag@, all.take(i as int)),
            decreases values.len() - i,
        {
            let f = flag.clone();
            let v = values[i].clone();
            proof {
                assert(all.take(i + 1).drop_last() =~= all.take(i as int));
                lemma_texts_push(argv@, f);
                lemma_texts_push(argv@.push(f), v);
            }
            argv.push(f);
            argv.push(v);
            i += 1;
        }
        proof {
            assert(all.take(values.len() as int) =~= all);
        }
    }
}

/// Appends to `argv` the texts of the scalars among `items`.
fn push_scalars(argv: &mut Vec<String>, items: &Vec<JsonValue>)
    ensures
        texts(final(argv)@) == texts(old(argv)@) + scalar_texts(views(items@)),
{
    let ghost before = texts(argv@);
    let ghost all = views(items@);
    let ghost f = |v: Json| v.scalar_text();
    let mut i: usize = 0;
    while i < items.len()
        invariant
            i <= items.len(),
            all == views(items@),
            f == (|v: Json| v.scalar_text()),
            texts(argv@) == before + all.take(i as int).filter_map(f),
        decreases items.len() - i,
    {
        proof {
            assert(all.take(i + 1).drop_last() =~= all.take(i as int));
        }
        match FoundryExecutor::value_to_string(&items[i]) {
            Some(t) => {
                proof {
                    lemma_texts_push(argv@, t);
                }
                argv.push(t);
            },
            None => {},
        }
        i += 1;
    }
    proof {
        assert(all.take(items.len() as int) =~= all);
    }
}

/// The place of a positional parameter: its declared index, or zero where it
/// declares none.
pub open spec fn index_key(p: PositionalSchema) -> nat {
    match p.index {
        Some(i) => i as nat,
        None => 0,
    }
}

/// `sorted` with `p` put behind the last element whose place is not larger
/// than that of `p`.
pub open spec fn insert_by_index(sorted: Seq<PositionalSchema>, p: PositionalSchema) -> Seq<
    PositionalSchema,
>
    decreases sorted.len(),
{
    if sorted.len() > 0 && index_key(sorted.last()) > index_key(p) {
        insert_by_index(sorted.drop_last(), p).push(sorted.last())
    } else {
        sorted.push(p)
    }
}

/// The positional parameters by ascending place; those of equal place stay in
/// the order of their declaration.
pub open spec fn sort_by_index(ps: Seq<PositionalSchema>) -> Seq<PositionalSchema>
    decreases ps.len(),
{
    if ps.len() == 0 {
        ps
    } else {
        insert_by_index(sort_by_index(ps.drop_last()), ps.last())
    }
}

/// The parameters that the positions `order` pick from `ps`.
pub open spec fn picked(ps: Seq<PositionalSchema>, order: Seq<usize>) -> Seq<PositionalSchema> {
    Seq::new(order.len(), |k: int| ps[order[k] as int])
}

proof fn lemma_insert_at(sorted: Seq<PositionalSchema>, p: PositionalSchema, j: int)
    requires
        0 <= j <= sorted.len(),
        forall|m: int| j <= m < sorted.len() ==> index_key(sorted[m]) > index_key(p),
        j > 0 ==> index_key(sorted[j - 1]) <= index_key(p),
    ensures
        insert_by_index(sorted, p) == sorted.insert(j, p),
    decreases sorted.len() - j,
{
    if j < sorted.len() {
        lemma_insert_at(sorted.drop_last(), p, j);
    }
}

/// The parameters of `ps` whose place is `k`, in their order.
pub open spec fn of_place(ps: Seq<PositionalSchema>, k: nat) -> Seq<PositionalSchema> {
    ps.filter(|p: PositionalSchema| index_key(p) == k)
}

/// Whether the places of `ps` ascend.
pub open spec fn ascending(ps: Seq<PositionalSchema>) -> bool {
    forall|i: int, j: int| 0 <= i < j < ps.len() ==> index_key(ps[i]) <= index_key(ps[j])
}

proof fn lemma_insert_keeps_places(sorted: Seq<PositionalSchema>, p: PositionalSchema, k: nat)
    ensures
        of_place(insert_by_index(sorted, p), k) == if index_key(p) == k {
            of_place(sorted, k).push(p)
        } else {
            of_place(sorted, k)
        },
    decreases sorted.len(),
{
    let at = |q: PositionalSchema| index_key(q) == k;
    if sorted.len() > 0 && index_key(sorted.last()) > index_key(p) {
        let rest = sorted.drop_last();
        lemma_insert_keeps_places(rest, p, k);
        insert_by_index(rest, p).lemma_filter_push(sorted.last(), at);
        rest.lemma_filter_push(sorted.last(), at);
        assert(rest.push(sorted.last()) =~= sorted);
    } else {
        sorted.lemma_filter_push(p, at);
    }
}

proof fn lemma_insert_keeps_ascending(sorted: Seq<PositionalSchema>, p: PositionalSchema)
    requires
        ascending(sorted),
    ensures
        ascending(insert_by_index(sorted, p)),
        insert_by_index(sorted, p).len() == sorted.len() + 1,
        forall|i: int|
            0 <= i < insert_by_index(sorted, p).len() ==> insert_by_index(sorted, p)[i] == p
                || sorted.contains(#[trigger] insert_by_index(sorted, p)[i]),
    decreases sorted.len(),
{
    if sorted.len() > 0 && index_key(sorted.last()) > index_key(p) {
        lemma_insert_keeps_ascending(sorted.drop_last(), p);
    }
}

/// Sorting by place is a stable sort: the places ascend in the result, and
/// for every place the parameters of that place stand in it as they were
/// declared, none added and none lost.
pub proof fn lemma_sort_by_index(ps: Seq<PositionalSchema>, k: nat)
    ensures
        ascending(sort_by_index(ps)),
        sort_by_index(ps).len() == ps.len(),
        of_place(sort_by_index(ps), k) == of_place(ps, k),
    decreases ps.len(),
{
    if ps.len() > 0 {
        let rest = ps.drop_last();
        lemma_sort_by_index(rest, k);
        lemma_insert_keeps_ascending(sort_by_index(rest), ps.last());
        lemma_insert_keeps_places(sort_by_index(rest), ps.last(), k);
        rest.lemma_filter_push(ps.last(), |p: PositionalSchema| index_key(p) == k);
        assert(rest.push(ps.last()) =~= ps);
    }
}

/// The place of a positional parameter.
fn place(p: &PositionalSchema) -> (r: usize)
    ensures
        r == index_key(*p),
{
    match p.index {
        Some(i) => i,
        None => 0,
    }
}

/// The positions of `ps` in the order in which their arguments are appended.
fn positional_order(ps: &Vec<PositionalSchema>) -> (order: Vec<usize>)
    ensures
        order@.len() == ps@.len(),
        forall|k: int| 0 <= k < order@.len() ==> order@[k] < ps@.len(),
        picked(ps@, order@) == sort_by_index(ps@),
{
    let mut order: Vec<usize> = Vec::new();
    let mut k: usize = 0;
    while k < ps.len()
        invariant
            k <= ps.len(),
            order@.len() == k,
            forall|m: int| 0 <= m < order@.len() ==> order@[m] < ps@.len(),
            picked(ps@, order@) == sort_by_index(ps@.take(k as int)),
        decreases ps.len() - k,
    {
        let key = place(&ps[k]);
        let mut j: usize = order.len();
        while j > 0 && place(&ps[order[j - 1]]) > key
            invariant
                j <= order@.len(),
                k < ps.len(),
                key == index_key(ps@[k as int]),
                forall|m: int| 0 <= m < order@.len() ==> order@[m] < ps@.len(),
                forall|m: int|
                    j <= m < order@.len() ==> index_key(picked(ps@, order@)[m]) > index_key(
                        ps@[k as int],
                    ),
            decreases j,
        {
            j -= 1;
        }
        proof {
            let before = picked(ps@, order@);
            lemma_insert_at(before, ps@[k as int], j as int);
            assert(ps@.take(k + 1).drop_last() =~= ps@.take(k as int));
        }
        order.insert(j, k);
        k += 1;
    }
    proof {
        assert(ps@.take(ps.len() as int) =~= ps@);
    }
    order
}

/// The tokens of the positional arguments for the parameters `ps`, taken in
/// the order given, or the name of the first required one that `args` lacks.
pub open spec fn positionals_part(ps: Seq<PositionalSchema>, args: Seq<Member>) -> Result<
    Seq<Seq<char>>,
    Seq<char>,
>
    decreases ps.len(),
{
    if ps.len() == 0 {
        Ok(Seq::empty())
    } else {
        match positionals_part(ps.drop_last(), args) {
            Err(name) => Err(name),
            Ok(before) => {
                let p = ps.last();
                match lookup(args, p.name@) {
                    Some(value) => Ok(before + positional_tokens(value, p.param_type@)),
                    None => if p.required {
                        Err(p.name@)
                    } else {
                        Ok(before)
                    },
                }
            },
        }
    }
}

/// The tokens of the flags: `--name` for each flag whose argument is the
/// boolean true, in the order of declaration.
pub open spec fn flags_part(fs: Seq<FlagSchema>, args: Seq<Member>) -> Seq<Seq<char>>
    decreases fs.len(),
{
    if fs.len() == 0 {
        Seq::empty()
    } else {
        let before = flags_part(fs.drop_last(), args);
        if lookup(args, fs.last().name@) == Some(Json::Bool(true)) {
            before.push("--"@ + fs.last().name@)
        } else {
            before
        }
    }
}

/// The tokens of the options, in the order of declaration, or the name of
/// the first required one that `args` lacks.
pub open spec fn options_part(os: Seq<OptionSchema>, args: Seq<Member>) -> Result<
    Seq<Seq<char>>,
    Seq<char>,
>
    decreases os.len(),
{
    if os.len() == 0 {
        Ok(Seq::empty())
    } else {
        match options_part(os.drop_last(), args) {
            Err(name) => Err(name),
            Ok(before) => {
                let o = os.last();
                match lookup(args, o.name@) {
                    Some(value) => Ok(before + option_tokens(o.name@, value, o.param_type@)),
                    None => if o.required {
                        Err(o.name@)
                    } else {
                        Ok(before)
                    },
                }
            },
        }
    }
}

/// The argument tokens of a call: positionals by place, then flags, then
/// options. A required positional that is missing is reported before a
/// required option that is missing.
pub open spec fn argument_tokens(tool: ToolSchema, args: Seq<Member>) -> Result<
    Seq<Seq<char>>,
    ToolFailure,
> {
    match positionals_part(sort_by_index(tool.positionals@), args) {
        Err(name) => Err(ToolFailure::MissingRequiredArgument { positional: true, name }),
        Ok(positionals) => match options_part(tool.options@, args) {
            Err(name) => Err(ToolFailure::MissingRequiredArgument { positional: false, name }),
            Ok(options) => Ok(positionals + flags_part(tool.flags@, args) + options),
        },
    }
}

/// Appends the positional tokens to `argv`, or names the first required
/// positional parameter that is missing.
fn push_positionals(argv: &mut Vec<String>, ps: &Vec<PositionalSchema>, args: &JsonObject) -> (r:
    Result<(), String>)
    ensures
        match r {
            Ok(_) => positionals_part(sort_by_index(ps@), args@) matches Ok(tokens) && texts(
                final(argv)@,
            ) == texts(old(argv)@) + tokens,
            Err(name) => positionals_part(sort_by_index(ps@), args@) == Err::<
                Seq<Seq<char>>,
                Seq<char>,
            >(name@),
        },
{
    let order = positional_order(ps);
    let ghost before = texts(argv@);
    let ghost sorted = sort_by_index(ps@);
    let mut k: usize = 0;
    while k < order.len()
        invariant
            k <= order.len(),
            order@.len() == ps@.len(),
            forall|m: int| 0 <= m < order@.len() ==> order@[m] < ps@.len(),
            sorted == picked(ps@, order@),
            sorted == sort_by_index(ps@),
            positionals_part(sorted.take(k as int), args@) matches Ok(tokens) && texts(argv@)
                == before + tokens,
        decreases order.len() - k,
    {
        let p = &ps[order[k]];
        proof {
            assert(sorted.take(k + 1).drop_last() =~= sorted.take(k as int));
        }
        match args.get(p.name.as_str()) {
            Some(value) => {
                FoundryExecutor::add_positional_argument(argv, value, p.param_type.as_str());
            },
            None => {
                if p.required {
                    proof {
                        lemma_positionals_error(sorted, args@, k + 1);
                    }
                    return Err(p.name.clone());
                }
            },
        }
        k += 1;
    }
    proof {
        assert(sorted.take(order.len() as int) =~= sorted);
    }
    Ok(())
}

/// Once a prefix of the positional parameters fails, the whole list fails in
/// the same way.
proof fn lemma_positionals_error(ps: Seq<PositionalSchema>, args: Seq<Member>, k: int)
    requires
        0 <= k <= ps.len(),
        positionals_part(ps.take(k), args) is Err,
    ensures
        positionals_part(ps, args) == positionals_part(ps.take(k), args),
    decreases ps.len() - k,
{
    if k == ps.len() {
        assert(ps.take(k) =~= ps);
    } else {
        assert(ps.drop_last().take(k) =~= ps.take(k));
        lemma_positionals_error(ps.drop_last(), args, k);
    }
}

/// Once a prefix of the options fails, the whole list fails in the same way.
proof fn lemma_options_error(os: Seq<OptionSchema>, args: Seq<Member>, k: int)
    requires
        0 <= k <= os.len(),
        options_part(os.take(k), args) is Err,
    ensures
        options_part(os, args) == options_part(os.take(k), args),
    decreases os.len() - k,
{
    if k == os.len() {
        assert(os.take(k) =~= os);
    } else {
        assert(os.drop_last().take(k) =~= os.take(k));
        lemma_options_error(os.drop_last(), args, k);
    }
}

/// Appends the flag tokens to `argv`.
fn push_flags(argv: &mut Vec<String>, fs: &Vec<FlagSchema>, args: &JsonObject)
    ensures
        texts(final(argv)@) == texts(old(argv)@) + flags_part(fs@, args@),
{
    let ghost before = texts(argv@);
    let mut k: usize = 0;
    proof {
        assert(before + Seq::<Seq<char>>::empty() =~= before);
    }
    while k < fs.len()
        invariant
            k <= fs.len(),
            texts(argv@) == before + flags_part(fs@.take(k as int), args@),
        decreases fs.len() - k,
    {
        let f = &fs[k];
        proof {
            assert(fs@.take(k + 1).drop_last() =~= fs@.take(k as int));
        }
        let set = match args.get(f.name.as_str()) {
            Some(value) => match value.as_bool() {
                Some(b) => b,
                None => false,
            },
            None => false,
        };
        if set {
            let token = concat("--", f.name.as_str());
            proof {
                lemma_texts_push(argv@, token);
            }
            argv.push(token);
        }
        k += 1;
    }
    proof {
        assert(fs@.take(fs.len() as int) =~= fs@);
    }
}

/// Appends the option tokens to `argv`, or names the first required option
/// that is missing.
fn push_options(argv: &mut Vec<String>, os: &Vec<OptionSchema>, args: &JsonObject) -> (r: Result<
    (),
    String,
>)
    ensures
        match r {
            Ok(_) => options_part(os@, args@) matches Ok(tokens) && texts(final(argv)@) == texts(
                old(argv)@,
            ) + tokens,
            Err(name) => options_part(os@, args@) == Err::<Seq<Seq<char>>, Seq<char>>(name@),
        },
{
    let ghost before = texts(argv@);
    let mut k: usize = 0;
    while k < os.len()
        invariant
            k <= os.len(),
            options_part(os@.take(k as int), args@) matches Ok(tokens) && texts(argv@) == before
                + tokens,
        decreases os.len() - k,
    {
        let o = &os[k];
        proof {
            assert(os@.take(k + 1).drop_last() =~= os@.take(k as int));
        }
        match args.get(o.name.as_str()) {
            Some(value) => {
                FoundryExecutor::add_option_argument(
                    argv,
                    o.name.as_str(),
                    value,
                    o.param_type.as_str(),
                );
            },
            None => {
                if o.required {
                    proof {
                        lemma_options_error(os@, args@, k + 1);
                    }
                    return Err(o.name.clone());
                }
            },
        }
        k += 1;
    }
    proof {
        assert(os@.take(os.len() as int) =~= os@);
    }
    Ok(())
}

/// Appends the argument tokens of a call to `argv`.
pub(crate) fn push_arguments(argv: &mut Vec<String>, tool: &ToolSchema, args: &JsonObject) -> (r: Result<
    (),
    ToolError,
>)
    ensures
        match r {
            Ok(_) => argument_tokens(*tool, args@) matches Ok(tokens) && texts(final(argv)@)
                == texts(old(argv)@) + tokens,
            Err(e) => argument_tokens(*tool, args@) == Err::<Seq<Seq<char>>, ToolFailure>(e@),
        },
{
    let ghost before = texts(argv@);
    match push_positionals(argv, &tool.positionals, args) {
        Err(name) => {
            return Err(ToolError::MissingRequiredArgument { positional: true, name });
        },
        Ok(_) => {},
    }
    let mut rest: Vec<String> = Vec::new();
    push_flags(&mut rest, &tool.flags, args);
    match push_options(&mut rest, &tool.options, args) {
        Err(name) => {
            return Err(ToolError::MissingRequiredArgument { positional: false, name });
        },
        Ok(_) => {},
    }
    argv.append(&mut rest);
    proof {
        let p = positionals_part(sort_by_index(tool.positionals@), args@)->Ok_0;
        let o = options_part(tool.options@, args@)->Ok_0;
        let f = flags_part(tool.flags@, args@);
        assert(before + p + (f + o) =~= before + (p + f + o));
    }
    Ok(())
}

/// The tokens of the segments of a tool name, held as owned strings.
pub(crate) fn decode_segments(parts: &Vec<String>) -> (r: (Vec<String>, bool))
    ensures
        (texts(r.0@), r.1) == decode_name(texts(parts@)),
{
    let mut borrowed: Vec<&str> = Vec::new();
    let mut i: usize = 0;
    while i < parts.len()
        invariant
            i <= parts.len(),
            borrowed@.len() == i,
            forall|k: int| 0 <= k < i ==> borrowed@[k]@ == parts@[k]@,
        decreases parts.len() - i,
    {
        borrowed.push(parts[i].as_str());
        i += 1;
    }
    proof {
        assert(slices(borrowed@) =~= texts(parts@));
    }
    parse_subcommand_parts(borrowed.as_slice())
}

/// What a finished run amounts to: standard output followed by standard
/// error, as the result where the program succeeded and as the error where it
/// did not.
pub fn tool_result(stdout: &str, stderr: &str, success: bool) -> (r: Result<String, ToolError>)
    ensures
        match r {
            Ok(text) => success && text@ == stdout@ + stderr@,
            Err(e) => !success && e@ == ToolFailure::NonZeroExit(stdout@ + stderr@),
        },
{
    let combined = concat(stdout, stderr);
    if success {
        Ok(combined)
    } else {
        Err(ToolError::NonZeroExit(combined))
    }
}

} // verus!
