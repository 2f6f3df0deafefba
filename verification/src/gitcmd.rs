//! Assembly of external version-control command invocations: the program,
//! its arguments, environment entries and working directory, as plain data.
//! Running a command is outside this crate; callers read the fields.

use vstd::prelude::*;
use crate::strutil::lemma_deep_view_push;

verus! {

/// A failed external command: its message and the arguments it ran with.
#[derive(Debug)]
pub struct GitError {
    pub message: String,
    pub command_args: Option<Vec<String>>,
}

/// One external command invocation, assembled field by field.
#[derive(Debug, Clone)]
pub struct GitCommand {
    pub program: String,
    pub args: Vec<String>,
    pub env: Vec<(String, String)>,
    pub dir: Option<String>,
}

impl GitCommand {
    /// A command for the given program, with nothing else set.
    pub fn new(program: &str) -> (r: GitCommand)
        ensures
            r.program@ == program@,
            r.args.deep_view() == Seq::<Seq<char>>::empty(),
            r.env.deep_view() == Seq::<(Seq<char>, Seq<char>)>::empty(),
            r.dir is None,
    {
        let r = GitCommand { program: program.to_owned(), args: Vec::new(), env: Vec::new(), dir: None };
        proof {
            assert(r.args.deep_view() =~= Seq::<Seq<char>>::empty());
            assert(r.env.deep_view() =~= Seq::<(Seq<char>, Seq<char>)>::empty());
        }
        r
    }

    /// Appends one argument.
    pub fn arg(self, arg: &str) -> (r: GitCommand)
        ensures
            r.args.deep_view() == self.args.deep_view().push(arg@),
            r.program == self.program,
            r.env == self.env,
            r.dir == self.dir,
    {
        let mut c = self;
        let ghost pre = c.args;
        c.args.push(arg.to_owned());
        proof {
            lemma_deep_view_push(pre, c.args, arg@);
        }
        c
    }

    /// Appends every argument of the slice, in order.
    pub fn args(self, args: &[&str]) -> (r: GitCommand)
        ensures
            r.args.deep_view() == self.args.deep_view() + args.deep_view(),
            r.program == self.program,
            r.env == self.env,
            r.dir == self.dir,
    {
        let mut c = self;
        let mut i: usize = 0;
        proof {
            assert(c.args.deep_view() =~= self.args.deep_view() + args.deep_view().take(0));
        }
        while i < args.len()
            invariant
                i <= args@.len(),
                c.args.deep_view() == self.args.deep_view() + args.deep_view().take(i as int),
                c.program == self.program,
                c.env == self.env,
                c.dir == self.dir,
            decreases args@.len() - i,
        {
            let ghost pre = c.args;
            c.args.push(args[i].to_owned());
            proof {
                lemma_deep_view_push(pre, c.args, args.deep_view()[i as int]);
                assert(self.args.deep_view() + args.deep_view().take(i as int + 1) =~= (self.args.deep_view()
                    + args.deep_view().take(i as int)).push(args.deep_view()[i as int]));
            }
            i = i + 1;
        }
        proof {
            assert(args.deep_view().take(args@.len() as int) =~= args.deep_view());
        }
        c
    }

    /// Adds one environment entry.
    pub fn env(self, key: &str, value: &str) -> (r: GitCommand)
        ensures
            r.env.deep_view() == self.env.deep_view().push((key@, value@)),
            r.program == self.program,
            r.args == self.args,
            r.dir == self.dir,
    {
        let mut c = self;
        let ghost pre = c.env;
        c.env.push((key.to_owned(), value.to_owned()));
        proof {
            lemma_deep_view_push(pre, c.env, (key@, value@));
        }
        c
    }

    /// Sets the working directory the command runs in.
    pub fn dir(self, dir: &str) -> (r: GitCommand)
        ensures
            r.dir.deep_view() == Some(dir@),
            r.program == self.program,
            r.args == self.args,
            r.env == self.env,
    {
        let mut c = self;
        c.dir = Some(dir.to_owned());
        c
    }
}

/// Ready-made git invocations for the operations the sync paths use.
pub struct GitCommandBuilder {}

impl GitCommandBuilder {
    pub fn git_version(self) -> (r: GitCommand)
        ensures
            r.program@ == "git"@,
            r.args.deep_view() == seq!["--version"@],
            r.env.deep_view() == Seq::<(Seq<char>, Seq<char>)>::empty(),
            r.dir is None,
    {
        GitCommand::new("git").arg("--version")
    }

    pub fn git_config_get(key: &str) -> (r: GitCommand)
        ensures
            r.program@ == "git"@,
            r.args.deep_view() == seq!["config"@, "--get"@, key@],
            r.env.deep_view() == Seq::<(Seq<char>, Seq<char>)>::empty(),
            r.dir is None,
    {
        GitCommand::new("git").arg("config").arg("--get").arg(key)
    }

    pub fn git_config_set(key: &str, value: &str) -> (r: GitCommand)
        ensures
            r.program@ == "git"@,
            r.args.deep_view() == seq!["config"@, "--add"@, key@, value@],
            r.env.deep_view() == Seq::<(Seq<char>, Seq<char>)>::empty(),
            r.dir is None,
    {
        GitCommand::new("git").arg("config").arg("--add").arg(key).arg(value)
    }

    pub fn git_config_unset(key: &str) -> (r: GitCommand)
        ensures
            r.program@ == "git"@,
            r.args.deep_view() == seq!["config"@, "--unset"@, key@],
            r.env.deep_view() == Seq::<(Seq<char>, Seq<char>)>::empty(),
            r.dir is None,
    {
        GitCommand::new("git").arg("config").arg("--unset").arg(key)
    }

    pub fn git_clone(repo_url: &str, dest: &str) -> (r: GitCommand)
        ensures
            r.program@ == "git"@,
            r.args.deep_view() == seq!["clone"@, repo_url@, dest@],
            r.env.deep_view() == Seq::<(Seq<char>, Seq<char>)>::empty(),
            r.dir is None,
    {
        GitCommand::new("git").arg("clone").arg(repo_url).arg(dest)
    }

    pub fn git_checkout(branch: &str) -> (r: GitCommand)
        ensures
            r.program@ == "git"@,
            r.args.deep_view() == seq!["checkout"@, branch@],
            r.env.deep_view() == Seq::<(Seq<char>, Seq<char>)>::empty(),
            r.dir is None,
    {
        GitCommand::new("git").arg("checkout").arg(branch)
    }

    pub fn git_pull() -> (r: GitCommand)
        ensures
            r.program@ == "git"@,
            r.args.deep_view() == seq!["pull"@],
            r.env.deep_view() == Seq::<(Seq<char>, Seq<char>)>::empty(),
            r.dir is None,
    {
        GitCommand::new("git").arg("pull")
    }

    pub fn git_push(remote: &str, branch: &str) -> (r: GitCommand)
        ensures
            r.program@ == "git"@,
            r.args.deep_view() == seq!["push"@, remote@, branch@],
            r.env.deep_view() == Seq::<(Seq<char>, Seq<char>)>::empty(),
            r.dir is None,
    {
        GitCommand::new("git").arg("push").arg(remote).arg(branch)
    }
}

} // verus!
