//! The variables that a custom command line sets.

use crate::env_map::{set_all, EnvMap};
use crate::steam::launcher::{CommandPlan, CommandPlanView};
use vstd::prelude::*;

verus! {

/// Sets the variables of a custom command line.
#[derive(Debug)]
pub struct EnvironmentVariablesModifier {
    vars: EnvMap,
}

impl EnvironmentVariablesModifier {
    /// The variables that the modifier sets, in order.
    pub closed spec fn variables(&self) -> Seq<(Seq<char>, Seq<char>)> {
        self.vars.pairs()
    }

    pub fn new(vars: EnvMap) -> (m: EnvironmentVariablesModifier)
        ensures
            m.variables() == vars.pairs(),
    {
        EnvironmentVariablesModifier { vars }
    }

    /// Sets each of the variables in the command's environment.
    pub fn apply(&self, command: &mut CommandPlan)
        ensures
            final(command)@ == (CommandPlanView {
                envs: set_all(old(command)@.envs, self.variables()),
                ..old(command)@
            }),
    {
        command.envs.merge(&self.vars);
    }
}

} // verus!
