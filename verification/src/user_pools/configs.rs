//! The store of configured overrides: forced outcomes for an action, keyed by
//! the action's name and, where the entry is scoped, by a target identifier.

use crate::common::str_eq;
use crate::http::status_number;
use hyper::StatusCode;
use vstd::prelude::*;

verus! {

/// A forced outcome for an action.
#[derive(Debug, PartialEq, Eq)]
pub enum OverrideEntry {
    /// Fail with the error kind called `name` and with `message`.
    Error { name: String, message: String },
    /// Answer with `body` and `status` as they stand.
    Literal { status: StatusCode, body: String },
}

pub enum OverrideView {
    Error { name: Seq<char>, message: Seq<char> },
    Literal { status: u16, body: Seq<char> },
}

impl View for OverrideEntry {
    type V = OverrideView;

    open spec fn view(&self) -> OverrideView {
        match self {
            OverrideEntry::Error { name, message } => OverrideView::Error {
                name: name@,
                message: message@,
            },
            OverrideEntry::Literal { status, body } => OverrideView::Literal {
                status: status_number(*status),
                body: body@,
            },
        }
    }
}

/// What an entry is configured for: an action, and a target such as a user
/// pool where the entry holds for that target only.
#[derive(Debug, PartialEq, Eq)]
pub struct OverrideKey {
    pub action: String,
    pub target: Option<String>,
}

pub struct KeyView {
    pub action: Seq<char>,
    pub target: Option<Seq<char>>,
}

impl View for OverrideKey {
    type V = KeyView;

    open spec fn view(&self) -> KeyView {
        KeyView {
            action: self.action@,
            target: match self.target {
                Some(target) => Some(target@),
                None => None,
            },
        }
    }
}

/// An entry applies to a call of `action` on `target` where it names that
/// action and is either unscoped or scoped to that very target.
pub open spec fn applies(key: KeyView, action: Seq<char>, target: Option<Seq<char>>) -> bool {
    key.action == action && (key.target is None || key.target == target)
}

/// The first applicable entry from position `from` on.
pub open spec fn lookup_from(
    entries: Seq<(KeyView, OverrideView)>,
    action: Seq<char>,
    target: Option<Seq<char>>,
    from: int,
) -> Option<OverrideView>
    decreases entries.len() - from,
{
    if from < 0 || from >= entries.len() {
        None
    } else if applies(entries[from].0, action, target) {
        Some(entries[from].1)
    } else {
        lookup_from(entries, action, target, from + 1)
    }
}

/// The override for a call of `action` on `target`: the first entry of the
/// store that applies, or none.
pub open spec fn lookup_spec(
    entries: Seq<(KeyView, OverrideView)>,
    action: Seq<char>,
    target: Option<Seq<char>>,
) -> Option<OverrideView> {
    lookup_from(entries, action, target, 0)
}

/// The override store. It is filled before any call is handled and only read
/// while calls are handled.
#[derive(Debug)]
pub struct Config {
    pub entries: Vec<(OverrideKey, OverrideEntry)>,
}

impl View for Config {
    type V = Seq<(KeyView, OverrideView)>;

    open spec fn view(&self) -> Seq<(KeyView, OverrideView)> {
        Seq::new(self.entries@.len(), |i: int| (self.entries@[i].0@, self.entries@[i].1@))
    }
}

/// Whether the entry under `key` applies to a call of `action` on `target`.
pub fn key_applies(key: &OverrideKey, action: &str, target: Option<&String>) -> (b: bool)
    ensures
        b == applies(
            key@,
            action@,
            match target {
                Some(text) => Some(text@),
                None => None,
            },
        ),
{
    if !str_eq(key.action.as_str(), action) {
        return false;
    }
    match &key.target {
        None => true,
        Some(scope) => match target {
            Some(text) => str_eq(scope.as_str(), text.as_str()),
            None => false,
        },
    }
}

impl Config {
    /// A store without overrides.
    pub fn new() -> (config: Config)
        ensures
            config@.len() == 0,
    {
        Config { entries: Vec::new() }
    }

    /// Adds an override at the end of the store. Entries added earlier keep
    /// their precedence.
    pub fn insert(&mut self, key: OverrideKey, entry: OverrideEntry)
        ensures
            final(self)@ == old(self)@.push((key@, entry@)),
    {
        self.entries.push((key, entry));
        assert(self@ =~= old(self)@.push((key@, entry@)));
    }

    /// The override for a call of `action` on `target`, if one is configured.
    pub fn lookup(&self, action: &str, target: Option<&String>) -> (entry: Option<&OverrideEntry>)
        ensures
            match entry {
                Some(found) => lookup_spec(
                    self@,
                    action@,
                    match target {
                        Some(text) => Some(text@),
                        None => None,
                    },
                ) == Some(found@),
                None => lookup_spec(
                    self@,
                    action@,
                    match target {
                        Some(text) => Some(text@),
                        None => None,
                    },
                ) is None,
            },
    {
        let ghost wanted: Option<Seq<char>> = match target {
            Some(text) => Some(text@),
            None => None,
        };
        let mut i: usize = 0;
        while i < self.entries.len()
            invariant
                i <= self.entries.len(),
                self@.len() == self.entries@.len(),
                wanted == match target {
                    Some(text) => Some(text@),
                    None => None,
                },
                lookup_spec(self@, action@, wanted) == lookup_from(
                    self@,
                    action@,
                    wanted,
                    i as int,
                ),
            decreases self.entries.len() - i,
        {
            assert(self@[i as int] == (self.entries@[i as int].0@, self.entries@[i as int].1@));
            if key_applies(&self.entries[i].0, action, target) {
                return Some(&self.entries[i].1);
            }
            i += 1;
        }
        None
    }
}

/// An entry that applies and stands before every other applicable entry is
/// the one that a lookup finds.
pub proof fn lemma_first_applicable_found(
    entries: Seq<(KeyView, OverrideView)>,
    action: Seq<char>,
    target: Option<Seq<char>>,
    at: int,
)
    requires
        0 <= at < entries.len(),
        applies(entries[at].0, action, target),
        forall|j: int| 0 <= j < at ==> !applies(#[trigger] entries[j].0, action, target),
    ensures
        lookup_spec(entries, action, target) == Some(entries[at].1),
{
    lemma_lookup_skips(entries, action, target, 0, at);
}

/// Where no entry applies, a lookup finds none.
pub proof fn lemma_none_applicable(
    entries: Seq<(KeyView, OverrideView)>,
    action: Seq<char>,
    target: Option<Seq<char>>,
)
    requires
        forall|j: int| 0 <= j < entries.len() ==> !applies(#[trigger] entries[j].0, action, target),
    ensures
        lookup_spec(entries, action, target) is None,
{
    lemma_lookup_skips(entries, action, target, 0, entries.len() as int);
}

/// Adding an entry at the end leaves every call that had an override with
/// the one it had; a call that had none gets the new entry where it applies.
pub proof fn lemma_insert_keeps_precedence(
    entries: Seq<(KeyView, OverrideView)>,
    key: KeyView,
    entry: OverrideView,
    action: Seq<char>,
    target: Option<Seq<char>>,
)
    ensures
        lookup_spec(entries.push((key, entry)), action, target) == match lookup_spec(
            entries,
            action,
            target,
        ) {
            Some(found) => Some(found),
            None => if applies(key, action, target) {
                Some(entry)
            } else {
                None
            },
        },
{
    lemma_insert_from(entries, key, entry, action, target, 0);
}

proof fn lemma_insert_from(
    entries: Seq<(KeyView, OverrideView)>,
    key: KeyView,
    entry: OverrideView,
    action: Seq<char>,
    target: Option<Seq<char>>,
    from: int,
)
    requires
        0 <= from <= entries.len(),
    ensures
        lookup_from(entries.push((key, entry)), action, target, from) == match lookup_from(
            entries,
            action,
            target,
            from,
        ) {
            Some(found) => Some(found),
            None => if applies(key, action, target) {
                Some(entry)
            } else {
                None
            },
        },
    decreases entries.len() - from,
{
    let longer = entries.push((key, entry));
    if from < entries.len() {
        assert(longer[from] == entries[from]);
        lemma_insert_from(entries, key, entry, action, target, from + 1);
    } else {
        assert(longer[from] == (key, entry));
        assert(lookup_from(longer, action, target, from + 1) is None);
    }
}

proof fn lemma_lookup_skips(
    entries: Seq<(KeyView, OverrideView)>,
    action: Seq<char>,
    target: Option<Seq<char>>,
    from: int,
    to: int,
)
    requires
        0 <= from <= to <= entries.len(),
        forall|j: int| from <= j < to ==> !applies(#[trigger] entries[j].0, action, target),
    ensures
        lookup_from(entries, action, target, from) == lookup_from(entries, action, target, to),
    decreases to - from,
{
    if from < to {
        lemma_lookup_skips(entries, action, target, from + 1, to);
    }
}

} // verus!
