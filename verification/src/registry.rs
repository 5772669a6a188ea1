//! The command registry and dispatcher: a mapping from unique command names to
//! commands, and the routing of invocation requests to them.

use vstd::prelude::*;

use crate::error::DispatchError;
use crate::greet::greet;
use crate::greet::greeting;
use crate::value::kind_of;
use crate::value::models_of;
use crate::value::ValKind;
use crate::value::Value;
use crate::value::ValueModel;

verus! {

/// A command that the dispatcher can route an invocation to.
#[derive(Debug, Clone, Copy)]
pub enum Command {
    /// Takes one string `name` and returns the greeting for it.
    Greet,
}

/// True when the argument models match the expected kinds, position by position.
pub open spec fn args_match(sig: Seq<ValKind>, args: Seq<ValueModel>) -> bool {
    args.len() == sig.len() && (forall|i: int|
        0 <= i < sig.len() ==> kind_of(#[trigger] args[i]) == sig[i])
}

impl Command {
    /// The argument kinds the command expects, in order.
    pub open spec fn spec_signature(self) -> Seq<ValKind> {
        match self {
            Command::Greet => seq![ValKind::Str],
        }
    }

    /// What the command returns on an argument list that matches its signature.
    pub open spec fn spec_run(self, args: Seq<ValueModel>) -> ValueModel
        recommends
            args_match(self.spec_signature(), args),
    {
        match self {
            Command::Greet => ValueModel::Str(greeting(args[0]->Str_0)),
        }
    }

    /// Executable form of `spec_signature`.
    pub fn signature(&self) -> (sig: Vec<ValKind>)
        ensures
            sig@ == self.spec_signature(),
    {
        match self {
            Command::Greet => {
                let mut sig: Vec<ValKind> = Vec::new();
                sig.push(ValKind::Str);
                proof {
                    assert(sig@ =~= self.spec_signature());
                }
                sig
            },
        }
    }

    /// Executes the command on arguments that match its signature.
    pub fn run(&self, args: &Vec<Value>) -> (r: Value)
        requires
            args_match(self.spec_signature(), models_of(args@)),
        ensures
            r@ == self.spec_run(models_of(args@)),
    {
        match self {
            Command::Greet => {
                proof {
                    assert(kind_of(models_of(args@)[0]) == ValKind::Str);
                }
                match &args[0] {
                    Value::Str(s) => Value::Str(greet(s.as_str())),
                    _ => unreached(),
                }
            },
        }
    }
}

/// What an invocation returns, as a function of the registry model, the
/// command name and the argument models: an unknown name is rejected with
/// `CommandNotFound`, a mismatched argument list with `InvalidArguments`, and
/// otherwise the command's result is returned.
pub open spec fn spec_invoke(
    reg: Map<Seq<char>, Command>,
    name: Seq<char>,
    args: Seq<ValueModel>,
) -> Result<ValueModel, DispatchError> {
    if !reg.contains_key(name) {
        Err(DispatchError::CommandNotFound)
    } else if !args_match(reg[name].spec_signature(), args) {
        Err(DispatchError::InvalidArguments)
    } else {
        Ok(reg[name].spec_run(args))
    }
}

/// The map model of a sequence of (name, command) entries; a later entry for
/// the same name would win, which the registry's uniqueness invariant rules out.
spec fn map_of(entries: Seq<(String, Command)>) -> Map<Seq<char>, Command>
    decreases entries.len(),
{
    if entries.len() == 0 {
        Map::empty()
    } else {
        map_of(entries.drop_last()).insert(entries.last().0@, entries.last().1)
    }
}

/// No two entries of the sequence share a name.
spec fn names_unique(entries: Seq<(String, Command)>) -> bool {
    forall|i: int, j: int|
        0 <= i < j < entries.len() ==> (#[trigger] entries[i]).0@ != (#[trigger] entries[j]).0@
}

proof fn lemma_map_of_contains(entries: Seq<(String, Command)>, name: Seq<char>)
    ensures
        map_of(entries).contains_key(name) <==> (exists|i: int|
            0 <= i < entries.len() && (#[trigger] entries[i]).0@ == name),
    decreases entries.len(),
{
    if entries.len() > 0 {
        lemma_map_of_contains(entries.drop_last(), name);
        let last: int = entries.len() - 1;
        if entries[last].0@ == name {
            assert(map_of(entries).contains_key(name));
        } else if map_of(entries).contains_key(name) {
            let i = choose|i: int|
                0 <= i < entries.drop_last().len() && (#[trigger] entries.drop_last()[i]).0@
                    == name;
            assert(entries[i].0@ == name);
        } else {
            assert forall|i: int| 0 <= i < entries.len() implies (#[trigger] entries[i]).0@
                != name by {
                if i < last {
                    assert(entries.drop_last()[i].0@ != name);
                }
            }
        }
    }
}

proof fn lemma_map_of_index(entries: Seq<(String, Command)>, i: int)
    requires
        0 <= i < entries.len(),
        names_unique(entries),
    ensures
        map_of(entries).contains_key(entries[i].0@),
        map_of(entries)[entries[i].0@] == entries[i].1,
    decreases entries.len(),
{
    let last: int = entries.len() - 1;
    if i < last {
        assert(names_unique(entries.drop_last())) by {
            assert forall|p: int, q: int|
                0 <= p < q < entries.drop_last().len() implies (#[trigger] entries.drop_last()[p]).0@
                != (#[trigger] entries.drop_last()[q]).0@ by {
                assert(entries[p].0@ != entries[q].0@);
            }
        }
        lemma_map_of_index(entries.drop_last(), i);
        assert(entries[last].0@ != entries[i].0@);
    }
}

/// The command registry: maps unique names to commands. Built once at startup
/// by `register` calls and read-only thereafter; `invoke` never changes it.
pub struct Registry {
    entries: Vec<(String, Command)>,
}

impl View for Registry {
    type V = Map<Seq<char>, Command>;

    closed spec fn view(&self) -> Map<Seq<char>, Command> {
        map_of(self.entries@)
    }
}

impl Registry {
    /// The registry's invariant: registered names are unique.
    pub closed spec fn wf(self) -> bool {
        names_unique(self.entries@)
    }

    /// An empty registry.
    pub fn new() -> (r: Registry)
        ensures
            r.wf(),
            r@ == Map::<Seq<char>, Command>::empty(),
    {
        Registry { entries: Vec::new() }
    }

    /// The index of the entry registered under `name`, if any.
    fn find_index(&self, name: &str) -> (r: Option<usize>)
        ensures
            match r {
                Some(i) => i < self.entries@.len() && self.entries@[i as int].0@ == name@,
                None => forall|j: int|
                    0 <= j < self.entries@.len() ==> (#[trigger] self.entries@[j]).0@ != name@,
            },
    {
        let key = String::from_str(name);
        let n: usize = self.entries.len();
        let mut i: usize = 0;
        while i < n
            invariant
                i <= n,
                n == self.entries@.len(),
                key@ == name@,
                forall|j: int| 0 <= j < i ==> (#[trigger] self.entries@[j]).0@ != name@,
            decreases n - i,
        {
            if self.entries[i].0 == key {
                return Some(i);
            }
            i = i + 1;
        }
        None
    }

    /// Adds `command` under `name`. Fails with `DuplicateRegistration`, and
    /// leaves the registry exactly as it was, when `name` is already taken.
    pub fn register(&mut self, name: String, command: Command) -> (r: Result<
        (),
        DispatchError,
    >)
        requires
            old(self).wf(),
        ensures
            final(self).wf(),
            match r {
                Ok(()) => !old(self)@.contains_key(name@) && final(self)@ == old(self)@.insert(
                    name@,
                    command,
                ),
                Err(e) => e == DispatchError::DuplicateRegistration && old(self)@.contains_key(
                    name@,
                ) && *final(self) == *old(self),
            },
    {
        proof {
            lemma_map_of_contains(self.entries@, name@);
        }
        match self.find_index(name.as_str()) {
            Some(_) => Err(DispatchError::DuplicateRegistration),
            None => {
                let ghost old_entries = self.entries@;
                let ghost name_model = name@;
                self.entries.push((name, command));
                proof {
                    assert(self.entries@.drop_last() =~= old_entries);
                    assert(names_unique(self.entries@)) by {
                        assert forall|p: int, q: int|
                            0 <= p < q < self.entries@.len() implies (#[trigger] self.entries@[p]).0@
                            != (#[trigger] self.entries@[q]).0@ by {
                            if q < self.entries@.len() - 1 {
                                assert(old_entries[p].0@ != old_entries[q].0@);
                            } else {
                                assert(old_entries[p].0@ != name_model);
                            }
                        }
                    }
                }
                Ok(())
            },
        }
    }

    /// Checks `args` against the command's expected arity and kinds.
    fn args_check(command: &Command, args: &Vec<Value>) -> (ok: bool)
        ensures
            ok == args_match(command.spec_signature(), models_of(args@)),
    {
        let sig = command.signature();
        if args.len() != sig.len() {
            return false;
        }
        let n: usize = sig.len();
        let mut i: usize = 0;
        while i < n
            invariant
                i <= n,
                n == sig@.len(),
                sig@ == command.spec_signature(),
                args@.len() == sig@.len(),
                forall|j: int| 0 <= j < i ==> kind_of(#[trigger] models_of(args@)[j]) == sig@[j],
            decreases n - i,
        {
            if args[i].kind() != sig[i] {
                proof {
                    assert(kind_of(models_of(args@)[i as int]) != sig@[i as int]);
                }
                return false;
            }
            i = i + 1;
        }
        true
    }

    /// Routes an invocation request: looks `name` up, validates `args` against
    /// the command's signature, and runs the command. The result is exactly
    /// `spec_invoke` of the registry model, the name and the argument models.
    pub fn invoke(&self, name: &str, args: &Vec<Value>) -> (r: Result<Value, DispatchError>)
        requires
            self.wf(),
        ensures
            match r {
                Ok(v) => spec_invoke(self@, name@, models_of(args@)) == Ok::<
                    ValueModel,
                    DispatchError,
                >(v@),
                Err(e) => spec_invoke(self@, name@, models_of(args@)) == Err::<
                    ValueModel,
                    DispatchError,
                >(e),
            },
    {
        proof {
            lemma_map_of_contains(self.entries@, name@);
        }
        match self.find_index(name) {
            None => Err(DispatchError::CommandNotFound),
            Some(i) => {
                proof {
                    lemma_map_of_index(self.entries@, i as int);
                }
                let command = self.entries[i].1;
                if Self::args_check(&command, args) {
                    Ok(command.run(args))
                } else {
                    Err(DispatchError::InvalidArguments)
                }
            },
        }
    }
}

/// For every string `s`, invoking a registry whose `name` entry is the greet
/// command with the single argument `s` succeeds, and the returned string
/// contains `s` as a contiguous substring.
pub proof fn lemma_greet_invocation_succeeds(
    reg: Map<Seq<char>, Command>,
    name: Seq<char>,
    s: Seq<char>,
)
    requires
        reg.contains_key(name),
        reg[name] == Command::Greet,
    ensures
        spec_invoke(reg, name, seq![ValueModel::Str(s)]) matches Ok(v) && v matches ValueModel::Str(
            out,
        ) && crate::greet::contains_seq(out, s),
{
    let args = seq![ValueModel::Str(s)];
    assert(args_match(Command::Greet.spec_signature(), args)) by {
        assert(kind_of(args[0]) == ValKind::Str);
    }
    crate::greet::lemma_greeting_contains_name(s);
}

/// Invocation is deterministic: the result is a function of the registry
/// contents, the command name and the arguments alone, so repeating the same
/// invocation always yields the identical outcome.
pub proof fn lemma_invoke_deterministic(
    reg: Map<Seq<char>, Command>,
    name: Seq<char>,
    args: Seq<ValueModel>,
    r1: Result<ValueModel, DispatchError>,
    r2: Result<ValueModel, DispatchError>,
)
    requires
        r1 == spec_invoke(reg, name, args),
        r2 == spec_invoke(reg, name, args),
    ensures
        r1 == r2,
{
}

} // verus!
