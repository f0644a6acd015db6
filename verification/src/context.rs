//! Local context that is appended to the descriptions of tools and parameters.

use vstd::prelude::*;
use vstd::string::StringExecFns;
use crate::text::concat;
use crate::text::str_eq;
use crate::text::texts;

verus! {

/// One entry of a `TextMap`.
#[derive(Debug)]
struct TextEntry {
    key: String,
    value: String,
}

/// A finite map from names to texts. No name occurs twice.
#[derive(Debug)]
pub struct TextMap {
    entries: Vec<TextEntry>,
}

/// The map that a list of entries with distinct keys stands for.
spec fn entries_map(entries: Seq<TextEntry>) -> Map<Seq<char>, Seq<char>> {
    Map::new(
        |k: Seq<char>| exists|i: int| 0 <= i < entries.len() && entries[i].key@ == k,
        |k: Seq<char>| entries[choose|i: int| 0 <= i < entries.len() && entries[i].key@ == k].value@,
    )
}

/// Whether no key occurs twice among `entries`.
spec fn distinct(entries: Seq<TextEntry>) -> bool {
    forall|i: int, j: int|
        0 <= i < entries.len() && 0 <= j < entries.len() && i != j ==> entries[i].key@
            != entries[j].key@
}

/// Each entry of a list with distinct keys is found in its map.
proof fn lemma_entries_map(entries: Seq<TextEntry>, i: int)
    requires
        distinct(entries),
        0 <= i < entries.len(),
    ensures
        entries_map(entries).dom().contains(entries[i].key@),
        entries_map(entries)[entries[i].key@] == entries[i].value@,
{
}

impl View for TextMap {
    type V = Map<Seq<char>, Seq<char>>;

    closed spec fn view(&self) -> Map<Seq<char>, Seq<char>> {
        entries_map(self.entries@)
    }
}

impl Clone for TextMap {
    fn clone(&self) -> (r: Self)
        ensures
            r@ == self@,
    {
        proof {
            use_type_invariant(self);
        }
        let mut entries: Vec<TextEntry> = Vec::new();
        let mut i: usize = 0;
        while i < self.entries.len()
            invariant
                i <= self.entries.len(),
                entries@.len() == i,
                forall|j: int|
                    0 <= j < i ==> entries@[j].key@ == self.entries@[j].key@ && entries@[j].value@
                        == self.entries@[j].value@,
            decreases self.entries.len() - i,
        {
            entries.push(
                TextEntry { key: self.entries[i].key.clone(), value: self.entries[i].value.clone() },
            );
            i += 1;
        }
        proof {
            assert forall|k: Seq<char>|
                entries_map(entries@).dom().contains(k) == entries_map(self.entries@).dom().contains(
                    k,
                ) by {
                if entries_map(self.entries@).dom().contains(k) {
                    let c = choose|c: int| 0 <= c < self.entries@.len() && self.entries@[c].key@ == k;
                    assert(entries@[c].key@ == k);
                }
            }
        }
        TextMap { entries }
    }
}

impl TextMap {
    #[verifier::type_invariant]
    spec fn distinct_keys(&self) -> bool {
        distinct(self.entries@)
    }

    /// The map without entries.
    pub fn new() -> (r: TextMap)
        ensures
            r@ == Map::<Seq<char>, Seq<char>>::empty(),
    {
        let r = TextMap { entries: Vec::new() };
        r
    }

    /// The position of `key` among the entries, or their number where the
    /// map does not hold it.
    fn position(&self, key: &str) -> (i: usize)
        ensures
            i <= self.entries@.len(),
            i < self.entries@.len() ==> self.entries@[i as int].key@ == key@,
            i == self.entries@.len() ==> forall|j: int|
                0 <= j < self.entries@.len() ==> self.entries@[j].key@ != key@,
    {
        let mut i: usize = 0;
        while i < self.entries.len()
            invariant
                i <= self.entries.len(),
                forall|j: int| 0 <= j < i ==> self.entries@[j].key@ != key@,
            decreases self.entries.len() - i,
        {
            if str_eq(self.entries[i].key.as_str(), key) {
                return i;
            }
            i += 1;
        }
        i
    }

    /// The text under `key`.
    pub fn get(&self, key: &str) -> (r: Option<&String>)
        ensures
            match r {
                Some(v) => self@.dom().contains(key@) && self@[key@] == v@,
                None => !self@.dom().contains(key@),
            },
    {
        let i = self.position(key);
        if i < self.entries.len() {
            proof {
                use_type_invariant(self);
            }
            Some(&self.entries[i].value)
        } else {
            None
        }
    }

    /// Whether the map holds `key`.
    pub fn contains_key(&self, key: &str) -> (r: bool)
        ensures
            r == self@.dom().contains(key@),
    {
        self.get(key).is_some()
    }

    /// Puts `value` under `key` and returns the text that was there before.
    pub fn insert(&mut self, key: String, value: String) -> (r: Option<String>)
        ensures
            final(self)@ == old(self)@.insert(key@, value@),
            match r {
                Some(v) => old(self)@.dom().contains(key@) && old(self)@[key@] == v@,
                None => !old(self)@.dom().contains(key@),
            },
    {
        let i = self.position(key.as_str());
        proof {
            use_type_invariant(&*self);
        }
        let ghost before = self.entries@;
        let ghost entry = TextEntry { key, value };
        let mut entries: Vec<TextEntry> = Vec::new();
        core::mem::swap(&mut entries, &mut self.entries);
        let r = if i < entries.len() {
            let previous = entries[i].value.clone();
            entries.set(i, TextEntry { key, value });
            Some(previous)
        } else {
            entries.push(TextEntry { key, value });
            None
        };
        proof {
            let after = entries@;
            assert forall|k: Seq<char>|
                entries_map(after).dom().contains(k) == entries_map(before).insert(
                    entry.key@,
                    entry.value@,
                ).dom().contains(k) by {
                if entries_map(before).dom().contains(k) {
                    let c = choose|c: int| 0 <= c < before.len() && before[c].key@ == k;
                    assert(after[c].key@ == k);
                }
                if k == entry.key@ {
                    let at = if i < before.len() {
                        i as int
                    } else {
                        before.len() as int
                    };
                    assert(after[at].key@ == k);
                }
            }
        }
        self.entries = entries;
        r
    }

    /// The names that the map holds, each of them once.
    pub fn keys(&self) -> (r: Vec<String>)
        ensures
            texts(r@).no_duplicates(),
            forall|k: Seq<char>| texts(r@).contains(k) <==> self@.dom().contains(k),
    {
        proof {
            use_type_invariant(self);
        }
        let mut r: Vec<String> = Vec::new();
        let mut i: usize = 0;
        while i < self.entries.len()
            invariant
                i <= self.entries.len(),
                r@.len() == i,
                forall|j: int| 0 <= j < i ==> r@[j]@ == self.entries@[j].key@,
            decreases self.entries.len() - i,
        {
            r.push(self.entries[i].key.clone());
            i += 1;
        }
        proof {
            let names = texts(r@);
            assert forall|k: Seq<char>| names.contains(k) <==> self@.dom().contains(k) by {
                if self@.dom().contains(k) {
                    let j = choose|j: int|
                        0 <= j < self.entries@.len() && self.entries@[j].key@ == k;
                    assert(names[j] == k);
                }
            }
        }
        r
    }

    /// The number of entries.
    pub fn len(&self) -> (n: usize)
        ensures
            self@.dom().finite(),
            n == self@.len(),
    {
        proof {
            use_type_invariant(self);
            lemma_entries_count(self.entries@);
        }
        self.entries.len()
    }

    /// Whether the map has no entries.
    pub fn is_empty(&self) -> (r: bool)
        ensures
            r == (self@ == Map::<Seq<char>, Seq<char>>::empty()),
    {
        proof {
            use_type_invariant(self);
            if self.entries@.len() > 0 {
                lemma_entries_map(self.entries@, 0);
            } else {
                assert(self@ =~= Map::<Seq<char>, Seq<char>>::empty());
            }
        }
        self.entries.len() == 0
    }
}

/// A list of entries with distinct keys stands for a map of as many entries.
proof fn lemma_entries_count(entries: Seq<TextEntry>)
    requires
        distinct(entries),
    ensures
        entries_map(entries).dom().finite(),
        entries_map(entries).dom().len() == entries.len(),
    decreases entries.len(),
{
    if entries.len() == 0 {
        assert(entries_map(entries).dom() =~= Set::<Seq<char>>::empty());
    } else {
        let rest = entries.drop_last();
        let last = entries.last();
        lemma_entries_count(rest);
        assert forall|k: Seq<char>|
            entries_map(entries).dom().contains(k) == entries_map(rest).dom().insert(
                last.key@,
            ).contains(k) by {
            if entries_map(entries).dom().contains(k) {
                let c = choose|c: int| 0 <= c < entries.len() && entries[c].key@ == k;
                if c < rest.len() {
                    assert(rest[c].key@ == k);
                }
            }
        }
        assert(entries_map(entries).dom() =~= entries_map(rest).dom().insert(last.key@));
    }
}

/// The context of one working directory: a text for each tool, flag and
/// positional parameter that has something to add to its description.
#[derive(Debug, Clone)]
pub struct ContextConfig {
    pub tools: TextMap,
    pub flags: TextMap,
    pub positionals: TextMap,
}

/// `original`, followed by a blank line and the text that `extra` holds for
/// `name`; `original` alone where it holds none.
pub open spec fn described(
    extra: Map<Seq<char>, Seq<char>>,
    name: Seq<char>,
    original: Seq<char>,
) -> Seq<char> {
    if extra.dom().contains(name) {
        original + "\n\n"@ + extra[name]
    } else {
        original
    }
}

/// `original` with the text that `extra` holds for `name`.
fn describe(extra: &TextMap, name: &str, original: &str) -> (r: String)
    ensures
        r@ == described(extra@, name@, original@),
{
    match extra.get(name) {
        Some(context) => {
            let head = concat(original, "\n\n");
            concat(head.as_str(), context.as_str())
        },
        None => String::from_str(original),
    }
}

impl Default for ContextConfig {
    /// The context that adds nothing.
    fn default() -> (r: Self)
        ensures
            r.tools@ == Map::<Seq<char>, Seq<char>>::empty(),
            r.flags@ == Map::<Seq<char>, Seq<char>>::empty(),
            r.positionals@ == Map::<Seq<char>, Seq<char>>::empty(),
    {
        ContextConfig { tools: TextMap::new(), flags: TextMap::new(), positionals: TextMap::new() }
    }
}

impl ContextConfig {
    /// The description of the tool `name`, with its local context.
    pub fn tool_description(&self, name: &str, original: &str) -> (r: String)
        ensures
            r@ == described(self.tools@, name@, original@),
    {
        describe(&self.tools, name, original)
    }

    /// The description of the flag or option `name`, with its local context.
    pub fn flag_description(&self, name: &str, original: &str) -> (r: String)
        ensures
            r@ == described(self.flags@, name@, original@),
    {
        describe(&self.flags, name, original)
    }

    /// The description of the positional parameter `name`, with its local context.
    pub fn positional_description(&self, name: &str, original: &str) -> (r: String)
        ensures
            r@ == described(self.positionals@, name@, original@),
    {
        describe(&self.positionals, name, original)
    }
}

} // verus!
