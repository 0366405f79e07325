//! The command registry: a map from stable command names to capability
//! functions, built once during startup composition and read-only afterwards.
//!
//! A capability function is identified by a [`CommandId`]: the set of
//! commands a build exposes is closed, so dispatch needs no runtime type
//! inspection, only a name lookup. Registration of a name that is already
//! taken fails and leaves the registry unchanged; there is no way to remove
//! or replace an entry, so a resolved command stays resolvable for the life
//! of the process.

use vstd::prelude::*;

use crate::args::{ArgField, ArgType, Schema, SchemaField};
use crate::args::{field_matches, lookup_spec, matches_schema_spec, type_of};

verus! {

/// The closed set of capability functions a build can expose. Today there is
/// one: open a URL in the user's default external browser.
#[derive(Clone, Copy, PartialEq, Eq, Structural, Debug)]
pub enum CommandId {
    OpenBrowser,
}

/// Registering a capability function under a name that is already taken.
#[derive(Clone, Copy, PartialEq, Eq, Structural, Debug)]
pub struct DuplicateCommandError;

struct RegistryEntry {
    name: String,
    command: CommandId,
}

/// The mapping from command name to capability function.
pub struct CommandRegistry {
    entries: Vec<RegistryEntry>,
}

spec fn entries_map(s: Seq<RegistryEntry>) -> Map<Seq<char>, CommandId>
    decreases s.len(),
{
    if s.len() == 0 {
        Map::empty()
    } else {
        entries_map(s.drop_last()).insert(s.last().name@, s.last().command)
    }
}

spec fn names_unique(s: Seq<RegistryEntry>) -> bool {
    forall|i: int, j: int|
        0 <= i < j < s.len() ==> (#[trigger] s[i]).name@ != (#[trigger] s[j]).name@
}

proof fn lemma_entries_map_contains(s: Seq<RegistryEntry>, n: Seq<char>)
    ensures
        entries_map(s).contains_key(n) <==> exists|i: int|
            0 <= i < s.len() && (#[trigger] s[i]).name@ == n,
    decreases s.len(),
{
    if s.len() > 0 {
        lemma_entries_map_contains(s.drop_last(), n);
        if entries_map(s).contains_key(n) {
            if s.last().name@ == n {
                assert(s[s.len() - 1].name@ == n);
            } else {
                let i = choose|i: int| 0 <= i < s.drop_last().len() && (#[trigger] s.drop_last()[i]).name@
                    == n;
                assert(s[i].name@ == n);
            }
        }
        if exists|i: int| 0 <= i < s.len() && (#[trigger] s[i]).name@ == n {
            let i = choose|i: int| 0 <= i < s.len() && (#[trigger] s[i]).name@ == n;
            if i < s.len() - 1 {
                assert(s.drop_last()[i].name@ == n);
            }
        }
    }
}

proof fn lemma_entries_map_value(s: Seq<RegistryEntry>, i: int)
    requires
        names_unique(s),
        0 <= i < s.len(),
    ensures
        entries_map(s).contains_key(s[i].name@),
        entries_map(s)[s[i].name@] == s[i].command,
    decreases s.len(),
{
    if i == s.len() - 1 {
    } else {
        assert(s[i].name@ != s[s.len() - 1].name@);
        assert(names_unique(s.drop_last())) by {
            assert forall|a: int, b: int| 0 <= a < b < s.drop_last().len() implies (
            #[trigger] s.drop_last()[a]).name@ != (#[trigger] s.drop_last()[b]).name@ by {
                assert(s[a].name@ != s[b].name@);
            }
        }
        assert(s.drop_last()[i] == s[i]);
        lemma_entries_map_value(s.drop_last(), i);
    }
}

impl View for CommandRegistry {
    type V = Map<Seq<char>, CommandId>;

    closed spec fn view(&self) -> Map<Seq<char>, CommandId> {
        entries_map(self.entries@)
    }
}

impl CommandRegistry {
    /// Every name is bound at most once: lookup is unambiguous.
    pub closed spec fn wf(&self) -> bool {
        names_unique(self.entries@)
    }

    /// An empty registry, the starting point of startup composition.
    pub fn new() -> (r: CommandRegistry)
        ensures
            r.wf(),
            r@ == Map::<Seq<char>, CommandId>::empty(),
    {
        let r = CommandRegistry { entries: Vec::new() };
        proof {
            assert(r@ =~= Map::<Seq<char>, CommandId>::empty());
        }
        r
    }

    /// Pure lookup of a command name. Returns the capability function bound
    /// to `name`, and nothing for a name that was never registered.
    pub fn resolve(&self, name: &str) -> (r: Option<CommandId>)
        requires
            self.wf(),
        ensures
            match r {
                Some(c) => self@.contains_key(name@) && self@[name@] == c,
                None => !self@.contains_key(name@),
            },
    {
        let key: String = name.to_owned();
        let n = self.entries.len();
        let mut i: usize = 0;
        while i < n
            invariant
                self.wf(),
                n == self.entries.len(),
                i <= n,
                key@ == name@,
                forall|j: int| 0 <= j < i ==> (#[trigger] self.entries@[j]).name@ != name@,
            decreases n - i,
        {
            if self.entries[i].name == key {
                proof {
                    lemma_entries_map_value(self.entries@, i as int);
                }
                return Some(self.entries[i].command);
            }
            i += 1;
        }
        proof {
            lemma_entries_map_contains(self.entries@, name@);
        }
        None
    }

    /// Binds `name` to `command`. Fails with [`DuplicateCommandError`] when
    /// `name` is already bound, and then leaves the registry unchanged;
    /// otherwise the registry afterwards holds exactly the old bindings plus
    /// the new one.
    pub fn register(&mut self, name: String, command: CommandId) -> (r: Result<
        (),
        DuplicateCommandError,
    >)
        requires
            old(self).wf(),
        ensures
            final (self).wf(),
            r is Err <==> old(self)@.contains_key(name@),
            r is Err ==> *final (self) == *old(self),
            r is Ok ==> final (self)@ == old(self)@.insert(name@, command),
    {
        match self.resolve(name.as_str()) {
            Some(_) => Err(DuplicateCommandError),
            None => {
                proof {
                    lemma_entries_map_contains(self.entries@, name@);
                }
                let ghost s0 = self.entries@;
                let entry = RegistryEntry { name, command };
                let ghost e = entry;
                self.entries.push(entry);
                proof {
                    assert(self.entries@ =~= s0.push(e));
                    assert(self.entries@.drop_last() =~= s0);
                    assert(names_unique(self.entries@)) by {
                        assert forall|a: int, b: int|
                            0 <= a < b < self.entries@.len() implies (
                        #[trigger] self.entries@[a]).name@ != (#[trigger] self.entries@[b]).name@ by {
                            if b < s0.len() {
                                assert(s0[a].name@ != s0[b].name@);
                            } else {
                                assert(self.entries@[b] == e);
                                assert(s0[a].name@ != e.name@);
                            }
                        }
                    }
                }
                Ok(())
            },
        }
    }
}

/// The argument payloads command `c` accepts: the shape its schema demands.
/// The browser-opening command takes a single string argument named `url`.
pub open spec fn command_args_ok(c: CommandId, args: Seq<ArgField>) -> bool {
    match c {
        CommandId::OpenBrowser => match lookup_spec(args, "url"@) {
            Some(v) => type_of(v) == ArgType::Str,
            None => false,
        },
    }
}

/// The argument schema of command `c`: a payload matches it exactly when the
/// payload is one the command accepts.
pub fn schema_of(c: CommandId) -> (r: Schema)
    ensures
        forall|args: Seq<ArgField>| #[trigger]
            matches_schema_spec(args, r.fields@) == command_args_ok(c, args),
{
    match c {
        CommandId::OpenBrowser => {
            let mut fields: Vec<SchemaField> = Vec::new();
            fields.push(SchemaField { name: "url".to_owned(), kind: ArgType::Str });
            let r = Schema { fields };
            proof {
                assert forall|args: Seq<ArgField>| #[trigger]
                    matches_schema_spec(args, r.fields@) == command_args_ok(c, args) by {
                    if matches_schema_spec(args, r.fields@) {
                        assert(field_matches(args, r.fields@[0]));
                    }
                    if command_args_ok(c, args) {
                        assert forall|i: int|
                            0 <= i < r.fields@.len() implies field_matches(
                            args,
                            #[trigger] r.fields@[i],
                        ) by {
                            assert(field_matches(args, r.fields@[0]));
                        }
                    }
                }
            }
            r
        },
    }
}

/// Startup composition of the command set: every capability function this
/// build exposes, each under its stable name. Today that is `open_browser`.
pub fn startup_registry() -> (r: CommandRegistry)
    ensures
        r.wf(),
        r@ == Map::<Seq<char>, CommandId>::empty().insert("open_browser"@, CommandId::OpenBrowser),
{
    let mut r = CommandRegistry::new();
    let registered = r.register("open_browser".to_owned(), CommandId::OpenBrowser);
    proof {
        assert(registered is Ok);
    }
    r
}

} // verus!
