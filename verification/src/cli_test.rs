//! A builder that describes an external command invocation for tests: the
//! program, its arguments, its environment, and its working directory.
//! Running the command is process work the caller performs; the builder
//! itself is verified bookkeeping.

use vstd::prelude::*;

verus! {

/// Describes one command invocation.
#[derive(Clone, Debug, PartialEq)]
pub struct CliTestRunner {
    command: String,
    args: Vec<String>,
    env: Vec<(String, String)>,
    current_dir: Option<String>,
}

/// The mathematical shape of a `CliTestRunner`.
pub ghost struct CliTestRunnerView {
    pub command: Seq<char>,
    pub args: Seq<Seq<char>>,
    pub env: Seq<(Seq<char>, Seq<char>)>,
    pub current_dir: Option<Seq<char>>,
}

impl View for CliTestRunner {
    type V = CliTestRunnerView;

    closed spec fn view(&self) -> CliTestRunnerView {
        CliTestRunnerView {
            command: self.command@,
            args: self.args@.map_values(|a: String| a@),
            env: self.env@.map_values(|p: (String, String)| (p.0@, p.1@)),
            current_dir: match self.current_dir {
                Some(d) => Some(d@),
                None => None,
            },
        }
    }
}

impl CliTestRunner {
    /// A runner for the given command, with no arguments yet.
    pub fn new(command: String) -> (r: CliTestRunner)
        ensures
            r@.command == command@,
            r@.args == Seq::<Seq<char>>::empty(),
            r@.env == Seq::<(Seq<char>, Seq<char>)>::empty(),
            r@.current_dir is None,
    {
        let r = CliTestRunner { command, args: Vec::new(), env: Vec::new(), current_dir: None };
        proof {
            assert(r@.args =~= Seq::<Seq<char>>::empty());
            assert(r@.env =~= Seq::<(Seq<char>, Seq<char>)>::empty());
        }
        r
    }

    /// Adds one argument.
    pub fn arg(self, arg: String) -> (r: CliTestRunner)
        ensures
            r@.command == self@.command,
            r@.args == self@.args.push(arg@),
            r@.env == self@.env,
            r@.current_dir == self@.current_dir,
    {
        let CliTestRunner { command, mut args, env, current_dir } = self;
        args.push(arg);
        let r = CliTestRunner { command, args, env, current_dir };
        proof {
            assert(r@.args =~= self@.args.push(arg@));
        }
        r
    }

    /// Adds several arguments, in order.
    pub fn args(self, extra: Vec<String>) -> (r: CliTestRunner)
        ensures
            r@.command == self@.command,
            r@.args == self@.args + extra@.map_values(|a: String| a@),
            r@.env == self@.env,
            r@.current_dir == self@.current_dir,
    {
        let CliTestRunner { command, mut args, env, current_dir } = self;
        let ghost old_views = args@.map_values(|a: String| a@);
        let ghost extra_views = extra@.map_values(|a: String| a@);
        let n = extra.len();
        let mut i: usize = 0;
        while i < n
            invariant
                i <= n,
                n == extra@.len(),
                extra_views == extra@.map_values(|a: String| a@),
                args@.map_values(|a: String| a@) == old_views + extra_views.subrange(0, i as int),
            decreases n - i,
        {
            let ghost before = args@;
            let item = extra[i].clone();
            proof {
                assert(extra_views[i as int] == extra@[i as int]@);
                assert(item@ == extra_views[i as int]);
            }
            args.push(item);
            proof {
                before.lemma_push_map_commute(|a: String| a@, item);
                assert(args@.map_values(|a: String| a@) == before.map_values(|a: String| a@).push(
                    item@,
                ));
                assert(args@.map_values(|a: String| a@) =~= old_views + extra_views.subrange(
                    0,
                    i + 1 as int,
                ));
            }
            i = i + 1;
        }
        let r = CliTestRunner { command, args, env, current_dir };
        proof {
            assert(extra_views.subrange(0, n as int) =~= extra_views);
        }
        r
    }

    /// Sets one environment variable.
    pub fn env(self, key: String, value: String) -> (r: CliTestRunner)
        ensures
            r@.command == self@.command,
            r@.args == self@.args,
            r@.env == self@.env.push((key@, value@)),
            r@.current_dir == self@.current_dir,
    {
        let CliTestRunner { command, args, mut env, current_dir } = self;
        env.push((key, value));
        let r = CliTestRunner { command, args, env, current_dir };
        proof {
            assert(r@.env =~= self@.env.push((key@, value@)));
        }
        r
    }

    /// Sets the working directory for the command.
    pub fn current_dir(self, dir: String) -> (r: CliTestRunner)
        ensures
            r@.command == self@.command,
            r@.args == self@.args,
            r@.env == self@.env,
            r@.current_dir == Some(dir@),
    {
        CliTestRunner { current_dir: Some(dir), ..self }
    }

    /// The program to run.
    pub fn command_str(&self) -> (r: &String)
        ensures
            r@ == self@.command,
    {
        &self.command
    }

    /// The arguments, in order.
    pub fn args_list(&self) -> (r: &Vec<String>)
        ensures
            r@.map_values(|a: String| a@) == self@.args,
    {
        &self.args
    }

    /// The environment variables, in order.
    pub fn env_list(&self) -> (r: &Vec<(String, String)>)
        ensures
            r@.map_values(|p: (String, String)| (p.0@, p.1@)) == self@.env,
    {
        &self.env
    }

    /// The working directory, if one was set.
    pub fn current_dir_opt(&self) -> (r: &Option<String>)
        ensures
            ({
                match r {
                    Some(d) => self@.current_dir == Some(d@),
                    None => self@.current_dir is None,
                }
            }),
    {
        &self.current_dir
    }
}

} // verus!
