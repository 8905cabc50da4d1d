//! The registry: a mapping from command name to command.
use vstd::prelude::*;

use crate::command::{Command, CommandView};

verus! {

/// What the registry holds for `name`, if anything.
pub open spec fn resolve(m: Map<Seq<char>, CommandView>, name: Seq<char>) -> Option<CommandView> {
    if m.contains_key(name) {
        Some(m[name])
    } else {
        None
    }
}

/// The mapping after `c` is registered: it is found under its name, and
/// replaces whatever was registered there before.
pub open spec fn registered(m: Map<Seq<char>, CommandView>, c: CommandView) -> Map<
    Seq<char>,
    CommandView,
> {
    m.insert(c.name, c)
}

/// Lookup sees the most recent registration under a name, and a
/// registration under one name leaves every other name as it was.
pub proof fn law_lookup_sees_last_registration(
    m: Map<Seq<char>, CommandView>,
    c: CommandView,
    name: Seq<char>,
)
    ensures
        resolve(registered(m, c), c.name) == Some(c),
        name != c.name ==> resolve(registered(m, c), name) == resolve(m, name),
{
}

/// The commands, held in a vector with one entry per name.
pub struct Registry {
    commands: Vec<Command>,
    model: Ghost<Map<Seq<char>, CommandView>>,
}

impl View for Registry {
    type V = Map<Seq<char>, CommandView>;

    closed spec fn view(&self) -> Map<Seq<char>, CommandView> {
        self.model@
    }
}

impl Registry {
    #[verifier::type_invariant]
    spec fn inv(self) -> bool {
        &&& forall|i: int|
            0 <= i < self.commands@.len() ==> #[trigger] self.model@.contains_key(
                self.commands@[i]@.name,
            ) && self.model@[self.commands@[i]@.name] == self.commands@[i]@
        &&& forall|k: Seq<char>|
            #[trigger] self.model@.contains_key(k) ==> exists|i: int|
                0 <= i < self.commands@.len() && #[trigger] self.commands@[i]@.name == k
        &&& forall|i: int, j: int|
            0 <= i < self.commands@.len() && 0 <= j < self.commands@.len() && i != j
                ==> #[trigger] self.commands@[i]@.name != #[trigger] self.commands@[j]@.name
    }

    /// An empty registry.
    pub fn new() -> (r: Registry)
        ensures
            r@ == Map::<Seq<char>, CommandView>::empty(),
    {
        Registry { commands: Vec::new(), model: Ghost(Map::empty()) }
    }

    /// The position of the command named `name`, if there is one.
    fn position(&self, name: &String) -> (r: Option<usize>)
        ensures
            match r {
                Some(i) => i < self.commands@.len() && self.commands@[i as int]@.name == name@,
                None => forall|i: int|
                    0 <= i < self.commands@.len() ==> #[trigger] self.commands@[i]@.name
                        != name@,
            },
    {
        let mut i: usize = 0;
        while i < self.commands.len()
            invariant
                i <= self.commands@.len(),
                forall|j: int| 0 <= j < i ==> #[trigger] self.commands@[j]@.name != name@,
            decreases self.commands@.len() - i,
        {
            if self.commands[i].name().eq(name) {
                return Some(i);
            }
            i = i + 1;
        }
        None
    }

    /// The command registered under `name`, compared exactly, if any.
    pub fn lookup(&self, name: &String) -> (r: Option<&Command>)
        ensures
            match r {
                Some(c) => resolve(self@, name@) == Some(c@),
                None => resolve(self@, name@) is None,
            },
    {
        proof {
            use_type_invariant(self);
        }
        match self.position(name) {
            Some(i) => Some(&self.commands[i]),
            None => None,
        }
    }

    /// Registers `command` under its name, replacing any command registered
    /// there before.
    pub fn register(&mut self, command: Command)
        ensures
            final(self)@ == registered(old(self)@, command@),
    {
        proof {
            use_type_invariant(&*self);
        }
        let ghost m = self@;
        let ghost c = command@;
        let found = self.position(command.name());
        let mut taken = Registry::new();
        std::mem::swap(self, &mut taken);
        let Registry { mut commands, model: _ } = taken;
        let ghost before = commands@;
        match found {
            Some(i) => {
                commands[i] = command;
                proof {
                    assert forall|k: Seq<char>| #[trigger]
                        registered(m, c).contains_key(k) implies exists|j: int|
                        0 <= j < commands@.len() && #[trigger] commands@[j]@.name == k by {
                        if k != c.name {
                            let j = choose|j: int|
                                0 <= j < before.len() && #[trigger] before[j]@.name == k;
                            assert(commands@[j] == before[j]);
                        } else {
                            assert(commands@[i as int]@.name == k);
                        }
                    }
                }
            },
            None => {
                commands.push(command);
                proof {
                    assert forall|k: Seq<char>| #[trigger]
                        registered(m, c).contains_key(k) implies exists|j: int|
                        0 <= j < commands@.len() && #[trigger] commands@[j]@.name == k by {
                        if k != c.name {
                            let j = choose|j: int|
                                0 <= j < before.len() && #[trigger] before[j]@.name == k;
                            assert(commands@[j] == before[j]);
                        } else {
                            assert(commands@[before.len() as int]@.name == k);
                        }
                    }
                }
            },
        }
        *self = Registry { commands, model: Ghost(registered(m, c)) };
    }
}

} // verus!
