//! A record and the builder that generation yields for it.
use vstd::prelude::*;
use crate::staging::missing_message;

verus! {

/// A program to run: its path, arguments, environment and, optionally, the
/// directory to run it in.
#[derive(Debug, Clone)]
pub struct Command {
    pub executable: String,
    pub args: Vec<String>,
    pub env: Vec<String>,
    pub current_dir: Option<String>,
}

/// The staging structure for `Command`: every field starts absent.
#[derive(Debug, Clone)]
pub struct CommandBuilder {
    pub executable: Option<String>,
    pub args: Option<Vec<String>>,
    pub env: Option<Vec<String>>,
    pub current_dir: Option<String>,
}

impl Command {
    /// A builder with every field absent.
    pub fn builder() -> (r: CommandBuilder)
        ensures
            r.executable is None,
            r.args is None,
            r.env is None,
            r.current_dir is None,
    {
        CommandBuilder { executable: None, args: None, env: None, current_dir: None }
    }
}

fn clone_strings(v: &Vec<String>) -> (r: Vec<String>)
    ensures
        r@ == v@,
{
    let r = v.clone();
    assert(r@ =~= v@);
    r
}

fn clone_opt_string(v: &Option<String>) -> (r: Option<String>)
    ensures
        r == *v,
{
    match v {
        Some(s) => Some(s.clone()),
        None => None,
    }
}

impl CommandBuilder {
    /// Stores `executable`, replacing an earlier value; returns the builder
    /// for further calls, whose final state is that of `self`.
    pub fn executable(&mut self, executable: String) -> (r: &mut Self)
        ensures
            r.executable == Some(executable),
            r.args == old(self).args,
            r.env == old(self).env,
            r.current_dir == old(self).current_dir,
            *final(self) == *final(r),
    {
        self.executable = Some(executable);
        self
    }

    /// Stores `args`, replacing an earlier value; returns the builder
    /// for further calls, whose final state is that of `self`.
    pub fn args(&mut self, args: Vec<String>) -> (r: &mut Self)
        ensures
            r.args == Some(args),
            r.executable == old(self).executable,
            r.env == old(self).env,
            r.current_dir == old(self).current_dir,
            *final(self) == *final(r),
    {
        self.args = Some(args);
        self
    }

    /// Stores `env`, replacing an earlier value; returns the builder
    /// for further calls, whose final state is that of `self`.
    pub fn env(&mut self, env: Vec<String>) -> (r: &mut Self)
        ensures
            r.env == Some(env),
            r.executable == old(self).executable,
            r.args == old(self).args,
            r.current_dir == old(self).current_dir,
            *final(self) == *final(r),
    {
        self.env = Some(env);
        self
    }

    /// Stores `current_dir` as present, replacing an earlier value; returns the builder
    /// for further calls, whose final state is that of `self`.
    pub fn current_dir(&mut self, current_dir: String) -> (r: &mut Self)
        ensures
            r.current_dir == Some(current_dir),
            r.executable == old(self).executable,
            r.args == old(self).args,
            r.env == old(self).env,
            *final(self) == *final(r),
    {
        self.current_dir = Some(current_dir);
        self
    }

    /// Checks `executable`, `args` and `env` in that order and fails on the
    /// first one absent, naming it; else builds the record from copies of the
    /// stored values, `current_dir` as it stands. The builder is left as it
    /// was.
    pub fn build(&self) -> (r: Result<Command, String>)
        ensures
            self.executable is None ==> (r matches Err(e) && e@ == missing_message(
                "executable"@,
            )),
            self.executable is Some && self.args is None ==> (r matches Err(e) && e@
                == missing_message("args"@)),
            self.executable is Some && self.args is Some && self.env is None ==> (r matches Err(
                e,
            ) && e@ == missing_message("env"@)),
            self.executable is Some && self.args is Some && self.env is Some ==> (r matches Ok(
                c,
            ) && c.executable == self.executable->0 && c.args@ == self.args->0@ && c.env@
                == self.env->0@ && c.current_dir == self.current_dir),
    {
        proof {
            reveal_strlit("executable");
            reveal_strlit("args");
            reveal_strlit("env");
            reveal_strlit(" field missing");
        }
        let executable = match &self.executable {
            Some(x) => x.clone(),
            None => {
                return Err("executable".to_owned().concat(" field missing"));
            },
        };
        let args = match &self.args {
            Some(x) => clone_strings(x),
            None => {
                return Err("args".to_owned().concat(" field missing"));
            },
        };
        let env = match &self.env {
            Some(x) => clone_strings(x),
            None => {
                return Err("env".to_owned().concat(" field missing"));
            },
        };
        let current_dir = clone_opt_string(&self.current_dir);
        Ok(Command { executable, args, env, current_dir })
    }
}

} // verus!
