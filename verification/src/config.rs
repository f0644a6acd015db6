//! The security policy: which commands and flags are withheld.

use vstd::prelude::*;
use vstd::string::StringExecFns;
use crate::lists::first_where;
use crate::lists::lemma_first_where_is;
use crate::text::str_eq;
use crate::text::texts;

verus! {

/// The security policy. Its lists say what it names. What is in force is
/// what it names and, unless it allows dangerous commands, the built-in
/// restrictions, whether or not the lists name them: every function that
/// goes by the policy goes by what is in force.
#[derive(Debug, Clone)]
pub struct Config {
    /// Commands that the policy names as not offered, by full tool name or by
    /// base command.
    pub forbidden_commands: Vec<String>,
    /// Flags and options that the policy names as not advertised.
    pub forbidden_flags: Vec<String>,
    /// Whether the built-in restrictions are left out.
    pub allow_dangerous: bool,
}

/// The commands that are withheld unless the policy allows dangerous ones:
/// the one that starts a local node and the one that opens a REPL.
pub open spec fn dangerous_commands() -> Seq<Seq<char>> {
    seq!["anvil"@, "chisel"@]
}

/// The flags that are withheld unless the policy allows dangerous ones.
pub open spec fn dangerous_flags() -> Seq<Seq<char>> {
    seq!["broadcast"@, "private-key"@, "mnemonic"@, "legacy"@, "unlock"@]
}

/// `have`, followed by those of `extra` that `have` lacks.
pub open spec fn merge_missing(have: Seq<Seq<char>>, extra: Seq<Seq<char>>) -> Seq<Seq<char>> {
    have + extra.filter(|e: Seq<char>| !have.contains(e))
}

/// What is in force of a list of the policy: the list as it stands where
/// dangerous commands are allowed, and the list with the built-ins merged in
/// where they are not.
pub open spec fn in_force(
    list: Seq<Seq<char>>,
    built_in: Seq<Seq<char>>,
    allow_dangerous: bool,
) -> Seq<Seq<char>> {
    if allow_dangerous {
        list
    } else {
        merge_missing(list, built_in)
    }
}

/// The position of the first element of `wanted` that `among` holds, or the
/// length of `wanted` where it holds none of them.
pub open spec fn first_held(wanted: Seq<Seq<char>>, among: Seq<Seq<char>>) -> nat {
    first_where(wanted, |w: Seq<char>| among.contains(w))
}

/// Whether `list` holds every element of `wanted`.
pub open spec fn holds_all(list: Seq<Seq<char>>, wanted: Seq<Seq<char>>) -> bool {
    forall|i: int| 0 <= i < wanted.len() ==> list.contains(#[trigger] wanted[i])
}

/// What was merged holds everything that was there and every extra.
pub proof fn lemma_merge_missing_holds(have: Seq<Seq<char>>, extra: Seq<Seq<char>>)
    ensures
        holds_all(merge_missing(have, extra), have),
        holds_all(merge_missing(have, extra), extra),
{
    let merged = merge_missing(have, extra);
    let lacking = |e: Seq<char>| !have.contains(e);
    assert forall|i: int| 0 <= i < have.len() implies merged.contains(#[trigger] have[i]) by {
        assert(merged[i] == have[i]);
    }
    assert forall|i: int| 0 <= i < extra.len() implies merged.contains(#[trigger] extra[i]) by {
        if have.contains(extra[i]) {
            let j = choose|j: int| 0 <= j < have.len() && have[j] == extra[i];
            assert(merged[j] == extra[i]);
        } else {
            extra.lemma_filter_contains(lacking, i);
            let added = extra.filter(lacking);
            let j = choose|j: int| 0 <= j < added.len() && added[j] == extra[i];
            assert(merged[have.len() + j] == extra[i]);
        }
    }
}

/// Merging the same extras a second time changes nothing.
pub proof fn lemma_merge_missing_idempotent(have: Seq<Seq<char>>, extra: Seq<Seq<char>>)
    ensures
        merge_missing(merge_missing(have, extra), extra) == merge_missing(have, extra),
{
    let once = merge_missing(have, extra);
    let still_lacking = |e: Seq<char>| !once.contains(e);
    lemma_merge_missing_holds(have, extra);
    assert forall|i: int| 0 <= i < extra.len() implies !still_lacking(#[trigger] extra[i]) by {}
    extra.lemma_all_neg_filter_empty(still_lacking);
}

/// Merging into a list that holds every extra changes nothing.
pub proof fn lemma_merge_missing_nothing(have: Seq<Seq<char>>, extra: Seq<Seq<char>>)
    requires
        holds_all(have, extra),
    ensures
        merge_missing(have, extra) == have,
{
    let lacking = |e: Seq<char>| !have.contains(e);
    assert forall|i: int| 0 <= i < extra.len() implies !lacking(#[trigger] extra[i]) by {}
    extra.lemma_all_neg_filter_empty(lacking);
    assert(have + extra.filter(lacking) =~= have);
}

/// Merging into the empty list gives the extras.
pub proof fn lemma_merge_missing_into_empty(extra: Seq<Seq<char>>)
    ensures
        merge_missing(Seq::empty(), extra) == extra,
    decreases extra.len(),
{
    let none = Seq::<Seq<char>>::empty();
    let lacking = |e: Seq<char>| !none.contains(e);
    reveal(Seq::filter);
    if extra.len() > 0 {
        lemma_merge_missing_into_empty(extra.drop_last());
        assert(lacking(extra.last()));
        assert(extra.drop_last().push(extra.last()) =~= extra);
        assert(none + extra.drop_last().filter(lacking) =~= extra.drop_last().filter(lacking));
    }
    assert(none + extra.filter(lacking) =~= extra.filter(lacking));
}

/// Merging adds no element twice: where neither list repeats an element,
/// neither does the merged one.
pub proof fn lemma_merge_missing_no_duplicates(have: Seq<Seq<char>>, extra: Seq<Seq<char>>)
    requires
        have.no_duplicates(),
        extra.no_duplicates(),
    ensures
        merge_missing(have, extra).no_duplicates(),
{
    lemma_filter_no_duplicates(extra, |e: Seq<char>| !have.contains(e));
}

/// Filtering keeps a list free of repeats.
pub proof fn lemma_filter_no_duplicates(s: Seq<Seq<char>>, pred: spec_fn(Seq<char>) -> bool)
    requires
        s.no_duplicates(),
    ensures
        s.filter(pred).no_duplicates(),
    decreases s.len(),
{
    reveal(Seq::filter);
    if s.len() > 0 {
        let rest = s.drop_last();
        lemma_filter_no_duplicates(rest, pred);
        if pred(s.last()) {
            let kept = rest.filter(pred);
            assert forall|i: int| 0 <= i < kept.len() implies kept[i] != s.last() by {
                if kept[i] == s.last() {
                    rest.lemma_filter_contains_rev(pred, s.last());
                }
            }
        }
    }
}

/// Whether some element of `list` is `item`.
pub fn list_contains(list: &Vec<String>, item: &str) -> (r: bool)
    ensures
        r == texts(list@).contains(item@),
{
    let mut i: usize = 0;
    while i < list.len()
        invariant
            i <= list.len(),
            forall|j: int| 0 <= j < i ==> texts(list@)[j] != item@,
        decreases list.len() - i,
    {
        if str_eq(list[i].as_str(), item) {
            assert(texts(list@)[i as int] == item@);
            return true;
        }
        i += 1;
    }
    false
}

/// Appends to `list` those of `extra` that it lacks, in their order.
fn merge_into(list: &mut Vec<String>, extra: &Vec<String>)
    ensures
        texts(final(list)@) == merge_missing(texts(old(list)@), texts(extra@)),
{
    let ghost have = texts(list@);
    let ghost lacking = |e: Seq<char>| !have.contains(e);
    let mut additions: Vec<String> = Vec::new();
    let mut i: usize = 0;
    while i < extra.len()
        invariant
            i <= extra.len(),
            have == texts(list@),
            lacking == (|e: Seq<char>| !have.contains(e)),
            texts(additions@) == texts(extra@).take(i as int).filter(lacking),
        decreases extra.len() - i,
    {
        proof {
            let all = texts(extra@);
            assert(all.take(i + 1) =~= all.take(i as int).push(all[i as int]));
            all.take(i as int).lemma_filter_push(all[i as int], lacking);
        }
        if !list_contains(list, extra[i].as_str()) {
            let item = extra[i].clone();
            additions.push(item);
        }
        i += 1;
    }
    proof {
        assert(texts(extra@).take(extra.len() as int) =~= texts(extra@));
    }
    list.append(&mut additions);
}

/// A copy of `list`.
fn copy_list(list: &Vec<String>) -> (r: Vec<String>)
    ensures
        texts(r@) == texts(list@),
{
    let mut r: Vec<String> = Vec::new();
    let mut i: usize = 0;
    while i < list.len()
        invariant
            i <= list.len(),
            r@.len() == i,
            forall|j: int| 0 <= j < i ==> r@[j]@ == list@[j]@,
        decreases list.len() - i,
    {
        r.push(list[i].clone());
        i += 1;
    }
    assert(texts(r@) =~= texts(list@));
    r
}

/// The default of `allow_dangerous` where a policy does not say: dangerous
/// commands are not allowed.
pub fn default_allow_dangerous() -> (r: bool)
    ensures
        !r,
{
    false
}

impl Default for Config {
    /// The policy that names nothing and does not allow dangerous commands:
    /// the built-ins, and nothing else, are in force.
    fn default() -> (r: Self)
        ensures
            r.forbidden_commands@.len() == 0,
            r.forbidden_flags@.len() == 0,
            !r.allow_dangerous,
    {
        Config {
            forbidden_commands: Vec::new(),
            forbidden_flags: Vec::new(),
            allow_dangerous: default_allow_dangerous(),
        }
    }
}

impl Config {
    /// The forbidden commands as texts.
    pub open spec fn commands(&self) -> Seq<Seq<char>> {
        texts(self.forbidden_commands@)
    }

    /// The forbidden flags as texts.
    pub open spec fn flags(&self) -> Seq<Seq<char>> {
        texts(self.forbidden_flags@)
    }

    /// The commands that are in force as forbidden: those that the policy
    /// names and, unless it allows dangerous commands, the built-in ones.
    pub open spec fn effective_commands(&self) -> Seq<Seq<char>> {
        in_force(self.commands(), dangerous_commands(), self.allow_dangerous)
    }

    /// The flags that are in force as forbidden: those that the policy names
    /// and, unless it allows dangerous commands, the built-in ones.
    pub open spec fn effective_flags(&self) -> Seq<Seq<char>> {
        in_force(self.flags(), dangerous_flags(), self.allow_dangerous)
    }

    /// Whether the lists of the policy hold all that is in force: the policy
    /// allows dangerous commands, or it names every built-in dangerous
    /// command and flag itself.
    pub open spec fn restricted(&self) -> bool {
        self.allow_dangerous || (holds_all(self.commands(), dangerous_commands()) && holds_all(
            self.flags(),
            dangerous_flags(),
        ))
    }

    /// Merges the built-in restrictions into the policy unless it allows
    /// dangerous commands, so that its lists hold all that is in force. An
    /// entry that the policy already names is not added again; what the
    /// policy named stays, in its order.
    pub fn apply_dangerous_restrictions(&mut self)
        ensures
            final(self).allow_dangerous == old(self).allow_dangerous,
            final(self).commands() == old(self).effective_commands(),
            final(self).flags() == old(self).effective_flags(),
            final(self).restricted(),
    {
        if self.allow_dangerous {
            return ;
        }
        proof {
            lemma_merge_missing_holds(self.commands(), dangerous_commands());
            lemma_merge_missing_holds(self.flags(), dangerous_flags());
        }
        let commands = Self::get_default_dangerous_commands();
        merge_into(&mut self.forbidden_commands, &commands);
        let flags = Self::get_default_dangerous_flags();
        merge_into(&mut self.forbidden_flags, &flags);
    }

    /// The policy in force: a copy whose lists hold what this policy names
    /// and, unless it allows dangerous commands, the built-in restrictions.
    pub fn effective(&self) -> (r: Config)
        ensures
            r.allow_dangerous == self.allow_dangerous,
            r.commands() == self.effective_commands(),
            r.flags() == self.effective_flags(),
            r.restricted(),
    {
        let mut r = Config {
            forbidden_commands: copy_list(&self.forbidden_commands),
            forbidden_flags: copy_list(&self.forbidden_flags),
            allow_dangerous: self.allow_dangerous,
        };
        r.apply_dangerous_restrictions();
        r
    }

    /// Whether `command` is forbidden by what is in force of the policy.
    pub fn is_command_forbidden(&self, command: &str) -> (r: bool)
        ensures
            r == self.effective_commands().contains(command@),
    {
        let policy = self.effective();
        list_contains(&policy.forbidden_commands, command)
    }

    /// The first flag in force as forbidden that `flags` holds: the flags
    /// that the policy names go first, in its order, then the built-in ones.
    pub fn has_forbidden_flags(&self, flags: &Vec<String>) -> (r: Option<String>)
        ensures
            match r {
                Some(flag) => {
                    let i = first_held(self.effective_flags(), texts(flags@)) as int;
                    i < self.effective_flags().len() && flag@ == self.effective_flags()[i]
                },
                None => first_held(self.effective_flags(), texts(flags@))
                    == self.effective_flags().len(),
            },
    {
        let policy = self.effective();
        let ghost forbidden = self.effective_flags();
        let mut i: usize = 0;
        while i < policy.forbidden_flags.len()
            invariant
                i <= policy.forbidden_flags.len(),
                forbidden == texts(policy.forbidden_flags@),
                forbidden == self.effective_flags(),
                forall|j: int| 0 <= j < i ==> !texts(flags@).contains(forbidden[j]),
            decreases policy.forbidden_flags.len() - i,
        {
            if list_contains(flags, policy.forbidden_flags[i].as_str()) {
                proof {
                    lemma_first_where_is(
                        forbidden,
                        |w: Seq<char>| texts(flags@).contains(w),
                        i as int,
                    );
                }
                return Some(policy.forbidden_flags[i].clone());
            }
            i += 1;
        }
        proof {
            lemma_first_where_is(forbidden, |w: Seq<char>| texts(flags@).contains(w), i as int);
        }
        None
    }

    /// The commands that are forbidden unless the policy allows dangerous ones.
    pub fn get_default_dangerous_commands() -> (r: Vec<String>)
        ensures
            texts(r@) == dangerous_commands(),
    {
        let mut r: Vec<String> = Vec::new();
        r.push(String::from_str("anvil"));
        r.push(String::from_str("chisel"));
        r
    }

    /// The flags that are forbidden unless the policy allows dangerous ones.
    pub fn get_default_dangerous_flags() -> (r: Vec<String>)
        ensures
            texts(r@) == dangerous_flags(),
    {
        let mut r: Vec<String> = Vec::new();
        r.push(String::from_str("broadcast"));
        r.push(String::from_str("private-key"));
        r.push(String::from_str("mnemonic"));
        r.push(String::from_str("legacy"));
        r.push(String::from_str("unlock"));
        r
    }

    /// The policy that forbids exactly the built-in dangerous commands and flags.
    pub fn safe_default() -> (r: Self)
        ensures
            r.commands() == dangerous_commands(),
            r.flags() == dangerous_flags(),
            !r.allow_dangerous,
            r.restricted(),
    {
        Config {
            forbidden_commands: Self::get_default_dangerous_commands(),
            forbidden_flags: Self::get_default_dangerous_flags(),
            allow_dangerous: false,
        }
    }
}

/// Applying the built-in restrictions a second time leaves the policy as the
/// first application made it.
pub proof fn lemma_restrictions_idempotent(
    list: Seq<Seq<char>>,
    built_in: Seq<Seq<char>>,
    allow_dangerous: bool,
)
    ensures
        in_force(in_force(list, built_in, allow_dangerous), built_in, allow_dangerous) == in_force(
            list,
            built_in,
            allow_dangerous,
        ),
{
    lemma_merge_missing_idempotent(list, built_in);
}

/// Of a policy whose lists hold all that is in force, what is in force is
/// what the lists say.
pub proof fn lemma_restricted_as_named(config: Config)
    requires
        config.restricted(),
    ensures
        config.effective_commands() == config.commands(),
        config.effective_flags() == config.flags(),
{
    if !config.allow_dangerous {
        lemma_merge_missing_nothing(config.commands(), dangerous_commands());
        lemma_merge_missing_nothing(config.flags(), dangerous_flags());
    }
}

/// Unless the policy allows dangerous commands, every built-in dangerous
/// command and flag is in force, whatever the policy names.
pub proof fn lemma_built_ins_in_force(config: Config)
    requires
        !config.allow_dangerous,
    ensures
        holds_all(config.effective_commands(), dangerous_commands()),
        holds_all(config.effective_flags(), dangerous_flags()),
        holds_all(config.effective_commands(), config.commands()),
        holds_all(config.effective_flags(), config.flags()),
{
    lemma_merge_missing_holds(config.commands(), dangerous_commands());
    lemma_merge_missing_holds(config.flags(), dangerous_flags());
}

} // verus!
