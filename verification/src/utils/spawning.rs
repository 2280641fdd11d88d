//! Starting other programs.
use vstd::prelude::*;

use crate::config::misc::{texts, Environment, VariableView};

verus! {

/// A program to be started, and its arguments.
#[derive(Debug)]
pub struct SpawnRequest {
    pub program: String,
    pub args: Vec<String>,
}

/// A change of the environment of a program.
#[derive(Debug)]
pub enum EnvChange {
    Remove(String),
    Put(String, String),
}

/// A change of the environment in the abstract.
pub enum EnvChangeView {
    Remove(Seq<char>),
    Put(Seq<char>, Seq<char>),
}

impl View for EnvChange {
    type V = EnvChangeView;

    open spec fn view(&self) -> EnvChangeView {
        match self {
            EnvChange::Remove(name) => EnvChangeView::Remove(name@),
            EnvChange::Put(name, value) => EnvChangeView::Put(name@, value@),
        }
    }
}

/// Changes in the abstract.
pub open spec fn changes(list: Seq<EnvChange>) -> Seq<EnvChangeView> {
    list.map_values(|c: EnvChange| c@)
}

/// The environment that the changes leave of another.
pub open spec fn changed_env(
    env: Map<Seq<char>, Seq<char>>,
    list: Seq<EnvChangeView>,
) -> Map<Seq<char>, Seq<char>>
    decreases list.len(),
{
    if list.len() == 0 {
        env
    } else {
        let before = changed_env(env, list.drop_last());
        match list.last() {
            EnvChangeView::Remove(name) => before.remove(name),
            EnvChangeView::Put(name, value) => before.insert(name, value),
        }
    }
}

/// What a variable of the configuration does to the environment.
pub open spec fn variable_change(variable: VariableView) -> EnvChangeView {
    match variable.value {
        Some(value) => EnvChangeView::Put(variable.name, value),
        None => EnvChangeView::Remove(variable.name),
    }
}

/// What the configured variables do to the environment.
pub open spec fn variable_changes(variables: Seq<VariableView>) -> Seq<EnvChangeView> {
    variables.map_values(|v: VariableView| variable_change(v))
}

/// What is taken out of the environment of every program.
pub open spec fn fixed_changes(remove_backtrace: bool, remove_lib_backtrace: bool) -> Seq<EnvChangeView> {
    (if remove_backtrace {
        seq![EnvChangeView::Remove("RUST_BACKTRACE"@)]
    } else {
        Seq::empty()
    }) + (if remove_lib_backtrace {
        seq![EnvChangeView::Remove("RUST_LIB_BACKTRACE"@)]
    } else {
        Seq::empty()
    }) + seq![EnvChangeView::Remove("NOTIFY_SOCKET"@), EnvChangeView::Remove("DISPLAY"@)]
}

/// What is done to the environment of a program.
pub open spec fn env_changes(
    variables: Seq<VariableView>,
    remove_backtrace: bool,
    remove_lib_backtrace: bool,
) -> Seq<EnvChangeView> {
    fixed_changes(remove_backtrace, remove_lib_backtrace) + variable_changes(variables)
}

/// The program and the arguments of a command. An empty command starts nothing.
pub fn spawn(command: Vec<String>) -> (r: Option<SpawnRequest>)
    ensures
        match r {
            Some(request) => {
                &&& command@.len() > 0
                &&& request.program@ == command@[0]@
                &&& request.args@ == command@.skip(1)
            },
            None => command@.len() == 0,
        },
{
    if command.len() == 0 {
        return None;
    }
    let mut args = command;
    let program = args.remove(0);
    assert(args@ =~= command@.skip(1));
    Some(SpawnRequest { program, args })
}

/// The program and the arguments that run a command by a shell.
pub fn spawn_sh(command: String) -> (r: Option<SpawnRequest>)
    ensures
        r matches Some(request) && {
            &&& request.program@ == "sh"@
            &&& texts(request.args@) == seq!["-c"@, command@]
        },
{
    let mut list: Vec<String> = Vec::new();
    list.push("sh".to_owned());
    list.push("-c".to_owned());
    list.push(command);
    let r = spawn(list);
    assert(texts(r->0.args@) =~= seq!["-c"@, command@]);
    r
}

/// What is done to the environment of a program, in this order: nothing of the compositor's own is
/// left to it, and then comes what is configured.
pub fn child_env(
    environment: &Environment,
    remove_backtrace: bool,
    remove_lib_backtrace: bool,
) -> (r: Vec<EnvChange>)
    ensures
        changes(r@) == env_changes(environment@, remove_backtrace, remove_lib_backtrace),
{
    let mut list: Vec<EnvChange> = Vec::new();
    if remove_backtrace {
        list.push(EnvChange::Remove("RUST_BACKTRACE".to_owned()));
    }
    if remove_lib_backtrace {
        list.push(EnvChange::Remove("RUST_LIB_BACKTRACE".to_owned()));
    }
    list.push(EnvChange::Remove("NOTIFY_SOCKET".to_owned()));
    list.push(EnvChange::Remove("DISPLAY".to_owned()));
    let ghost fixed = fixed_changes(remove_backtrace, remove_lib_backtrace);
    assert(changes(list@) =~= fixed);
    let ghost all = environment@;
    let mut i: usize = 0;
    assert(changes(list@) =~= fixed + variable_changes(all.take(0)));
    while i < environment.0.len()
        invariant
            i <= environment.0@.len(),
            all == environment@,
            changes(list@) == fixed + variable_changes(all.take(i as int)),
        decreases environment.0@.len() - i,
    {
        let ghost before = list@;
        let variable = &environment.0[i];
        assert(all[i as int] == variable@);
        if let Some(value) = &variable.value {
            list.push(EnvChange::Put(variable.name.clone(), value.clone()));
        } else {
            list.push(EnvChange::Remove(variable.name.clone()));
        }
        assert(changes(list@) =~= changes(before).push(variable_change(variable@)));
        assert(variable_changes(all.take(i + 1)) =~= variable_changes(all.take(i as int)).push(
            variable_change(variable@),
        ));
        assert(changes(list@) =~= fixed + variable_changes(all.take(i + 1)));
        i = i + 1;
    }
    assert(all.take(i as int) =~= all);
    list
}

/// The limit of open files as it was at the start, if it was raised.
#[derive(Clone, Copy, Debug, PartialEq, Eq, Structural)]
pub struct NofileLimit {
    pub cur: u64,
    pub max: u64,
}

impl NofileLimit {
    /// As much as the limit may be.
    pub open spec fn at_most(self) -> NofileLimit {
        NofileLimit { cur: self.max, max: self.max }
    }

    /// What a program gets if this is the limit from the start.
    pub open spec fn given_back(self) -> Option<NofileLimit> {
        if self.cur == 0 {
            None
        } else {
            Some(self)
        }
    }

    /// The limit that the compositor sets for itself: as much as it may.
    pub fn raised(&self) -> (r: NofileLimit)
        ensures
            r == self.at_most(),
    {
        NofileLimit { cur: self.max, max: self.max }
    }

    /// The limit that a program gets: the one from the start, if that is known.
    pub fn restored(&self) -> (r: Option<NofileLimit>)
        ensures
            r == self.given_back(),
    {
        if self.cur == 0 {
            return None;
        }
        Some(*self)
    }
}

/// Raising the limit leaves how far it can be raised, so that a program can be given back the limit from
/// the start. If that was never stored, there is nothing to give back and the program keeps the limit
/// that it has.
pub proof fn law_limit_is_given_back(limit: NofileLimit)
    ensures
        limit.at_most().max == limit.max,
        limit.at_most().at_most() == limit.at_most(),
        limit.cur != 0 ==> limit.given_back() == Some(limit),
        limit.cur == 0 ==> limit.given_back() is None,
{
}

/// A program does not get the compositor's own socket for reporting that it is ready, nor the display
/// of the session around it, unless the configuration sets them.
pub proof fn law_nothing_leaks(
    env: Map<Seq<char>, Seq<char>>,
    variables: Seq<VariableView>,
    remove_backtrace: bool,
    remove_lib_backtrace: bool,
    name: Seq<char>,
)
    requires
        name == "DISPLAY"@ || name == "NOTIFY_SOCKET"@,
        forall|i: int| 0 <= i < variables.len() ==> (#[trigger] variables[i]).name != name,
    ensures
        !changed_env(
            env,
            env_changes(variables, remove_backtrace, remove_lib_backtrace),
        ).contains_key(name),
    decreases variables.len(),
{
    let list = env_changes(variables, remove_backtrace, remove_lib_backtrace);
    if variables.len() == 0 {
        let fixed = fixed_changes(remove_backtrace, remove_lib_backtrace);
        assert(list =~= fixed);
        assert(list.last() == EnvChangeView::Remove("DISPLAY"@));
        let shorter = list.drop_last();
        assert(shorter.last() == EnvChangeView::Remove("NOTIFY_SOCKET"@));
        reveal_with_fuel(changed_env, 3);
    } else {
        let shorter = variables.drop_last();
        law_nothing_leaks(env, shorter, remove_backtrace, remove_lib_backtrace, name);
        assert(list.drop_last() =~= env_changes(shorter, remove_backtrace, remove_lib_backtrace));
        assert(list.last() == variable_change(variables.last()));
        assert(variables[variables.len() - 1].name != name);
    }
}

/// The last word on a variable counts: a program finds the value that the configuration gives it there, and
/// finds none if the configuration takes it out. All that the configuration does not name, and that is not
/// kept from programs, is as it was.
pub proof fn law_configured_variables_count(
    env: Map<Seq<char>, Seq<char>>,
    variables: Seq<VariableView>,
    last: VariableView,
    remove_backtrace: bool,
    remove_lib_backtrace: bool,
    name: Seq<char>,
)
    ensures
        ({
            let before = changed_env(
                env,
                env_changes(variables, remove_backtrace, remove_lib_backtrace),
            );
            let after = changed_env(
                env,
                env_changes(variables.push(last), remove_backtrace, remove_lib_backtrace),
            );
            &&& last.value matches Some(value) ==> after.contains_key(last.name) && after[last.name]
                == value
            &&& last.value is None ==> !after.contains_key(last.name)
            &&& name != last.name ==> after.contains_key(name) == before.contains_key(name) && (
            before.contains_key(name) ==> after[name] == before[name])
        }),
{
    let list = env_changes(variables.push(last), remove_backtrace, remove_lib_backtrace);
    assert(list.drop_last() =~= env_changes(variables, remove_backtrace, remove_lib_backtrace));
    assert(list.last() == variable_change(last));
}

/// Without a configuration, a program finds the environment as it was, but for what is kept from programs.
pub proof fn law_other_variables_stay(
    env: Map<Seq<char>, Seq<char>>,
    remove_backtrace: bool,
    remove_lib_backtrace: bool,
    name: Seq<char>,
)
    requires
        name != "DISPLAY"@,
        name != "NOTIFY_SOCKET"@,
        name != "RUST_BACKTRACE"@,
        name != "RUST_LIB_BACKTRACE"@,
    ensures
        ({
            let after = changed_env(
                env,
                env_changes(Seq::empty(), remove_backtrace, remove_lib_backtrace),
            );
            after.contains_key(name) == env.contains_key(name) && (env.contains_key(name)
                ==> after[name] == env[name])
        }),
{
    let list = env_changes(Seq::empty(), remove_backtrace, remove_lib_backtrace);
    let fixed = fixed_changes(remove_backtrace, remove_lib_backtrace);
    assert(list =~= fixed);
    lemma_fixed_stay(env, fixed, name);
}

/// Taking out other variables leaves one as it is.
proof fn lemma_fixed_stay(env: Map<Seq<char>, Seq<char>>, list: Seq<EnvChangeView>, name: Seq<char>)
    requires
        forall|i: int|
            0 <= i < list.len() ==> (#[trigger] list[i] matches EnvChangeView::Remove(other) && other
                != name),
    ensures
        changed_env(env, list).contains_key(name) == env.contains_key(name),
        env.contains_key(name) ==> changed_env(env, list)[name] == env[name],
    decreases list.len(),
{
    if list.len() > 0 {
        let shorter = list.drop_last();
        assert(list[list.len() - 1] == list.last());
        assert forall|i: int| 0 <= i < shorter.len() implies (#[trigger] shorter[i] matches
            EnvChangeView::Remove(other) && other != name) by {
            assert(shorter[i] == list[i]);
        }
        lemma_fixed_stay(env, shorter, name);
    }
}

} // verus!
