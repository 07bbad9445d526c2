//! Building the options of a child step by step.
use crate::text::{clone_strings, string_views};
use crate::{
    ChildProcessOptions, InputSpecification, InputSpecificationData, OutputSpecification,
    OutputSpecificationData, StdioSpecification,
};
use vstd::prelude::*;

verus! {

/// Child process builder.
#[derive(Debug)]
pub struct Command {
    exe: Option<String>,
    argv: Vec<String>,
    env: Vec<String>,
    stdin: Option<InputSpecification>,
    stdout: Option<OutputSpecification>,
    stderr: Option<OutputSpecification>,
    current_dir: Option<String>,
}

/// What a `Command` holds, as mathematical values.
pub ghost struct CommandView {
    pub exe: Option<Seq<char>>,
    pub argv: Seq<Seq<char>>,
    pub env: Seq<Seq<char>>,
    pub stdin: Option<InputSpecificationData>,
    pub stdout: Option<OutputSpecificationData>,
    pub stderr: Option<OutputSpecificationData>,
    pub current_dir: Option<Seq<char>>,
}

impl View for Command {
    type V = CommandView;

    closed spec fn view(&self) -> CommandView {
        CommandView {
            exe: match self.exe {
                Some(s) => Some(s@),
                None => None,
            },
            argv: string_views(self.argv@),
            env: string_views(self.env@),
            stdin: match self.stdin {
                Some(s) => Some(s.data()),
                None => None,
            },
            stdout: match self.stdout {
                Some(s) => Some(s.data()),
                None => None,
            },
            stderr: match self.stderr {
                Some(s) => Some(s.data()),
                None => None,
            },
            current_dir: match self.current_dir {
                Some(s) => Some(s@),
                None => None,
            },
        }
    }
}

impl Default for Command {
    fn default() -> (r: Command)
        ensures
            r@ == (CommandView {
                exe: None,
                argv: Seq::<Seq<char>>::empty(),
                env: Seq::<Seq<char>>::empty(),
                stdin: None,
                stdout: None,
                stderr: None,
                current_dir: None,
            }),
    {
        Command::new()
    }
}

/// The standard input of a child for which nothing was asked: an empty
/// stream.
pub open spec fn stdin_or_default(asked: Option<InputSpecificationData>) -> InputSpecificationData {
    match asked {
        Some(data) => data,
        None => InputSpecificationData::Empty,
    }
}

/// The standard output or error of a child for which nothing was asked:
/// thrown away.
pub open spec fn output_or_default(
    asked: Option<OutputSpecificationData>,
) -> OutputSpecificationData {
    match asked {
        Some(data) => data,
        None => OutputSpecificationData::Ignore,
    }
}

/// The working directory of a child for which none was asked: the root
/// of the sandbox.
pub open spec fn dir_or_default(asked: Option<Seq<char>>) -> Seq<char> {
    match asked {
        Some(dir) => dir,
        None => "/"@,
    }
}

impl Command {
    /// A builder in which nothing is set.
    pub fn new() -> (r: Command)
        ensures
            r@ == (CommandView {
                exe: None,
                argv: Seq::<Seq<char>>::empty(),
                env: Seq::<Seq<char>>::empty(),
                stdin: None,
                stdout: None,
                stderr: None,
                current_dir: None,
            }),
    {
        let r = Command {
            exe: None,
            argv: Vec::new(),
            env: Vec::new(),
            stdin: None,
            stdout: None,
            stderr: None,
            current_dir: None,
        };
        assert(string_views(r.argv@) =~= Seq::<Seq<char>>::empty());
        assert(string_views(r.env@) =~= Seq::<Seq<char>>::empty());
        r
    }

    /// The options of the child, if the executable was set. What was not
    /// set takes its default: an empty standard input, output and error
    /// thrown away, the root of the sandbox as working directory. No
    /// extra descriptor is handed down.
    pub fn build(self) -> (r: Option<ChildProcessOptions>)
        ensures
            match self@.exe {
                Some(exe) => {
                    &&& r matches Some(options)
                    &&& options.path@ == exe
                    &&& string_views(options.arguments@) == self@.argv
                    &&& string_views(options.environment@) == self@.env
                    &&& options.extra_inherit@.len() == 0
                    &&& options.stdio.stdin.data() == stdin_or_default(self@.stdin)
                    &&& options.stdio.stdout.data() == output_or_default(self@.stdout)
                    &&& options.stdio.stderr.data() == output_or_default(self@.stderr)
                    &&& options.pwd@ == dir_or_default(self@.current_dir)
                },
                None => r is None,
            },
    {
        let path = match self.exe {
            Some(exe) => exe,
            None => {
                return None;
            },
        };
        let stdin = match self.stdin {
            Some(s) => s,
            None => InputSpecification::empty(),
        };
        let stdout = match self.stdout {
            Some(s) => s,
            None => OutputSpecification::ignore(),
        };
        let stderr = match self.stderr {
            Some(s) => s,
            None => OutputSpecification::ignore(),
        };
        let pwd = match self.current_dir {
            Some(dir) => dir,
            None => "/".to_owned(),
        };
        Some(
            ChildProcessOptions {
                path,
                arguments: self.argv,
                environment: self.env,
                extra_inherit: Vec::new(),
                stdio: StdioSpecification { stdin, stdout, stderr },
                pwd,
            },
        )
    }

    /// Sets the executable.
    pub fn path(&mut self, path: &str)
        ensures
            final(self)@ == (CommandView { exe: Some(path@), ..old(self)@ }),
    {
        self.exe = Some(path.to_owned());
    }

    /// Adds an argument.
    pub fn arg(&mut self, a: &str)
        ensures
            final(self)@ == (CommandView { argv: old(self)@.argv.push(a@), ..old(self)@ }),
    {
        let s = a.to_owned();
        self.argv.push(s);
        assert(string_views(self.argv@) =~= string_views(old(self).argv@).push(a@));
    }

    /// Adds arguments, in order.
    pub fn args(&mut self, args: &Vec<String>)
        ensures
            final(self)@ == (CommandView {
                argv: old(self)@.argv + string_views(args@),
                ..old(self)@
            }),
    {
        let mut more = clone_strings(args);
        let ghost tail = string_views(more@);
        self.argv.append(&mut more);
        assert(string_views(self.argv@) =~= string_views(old(self).argv@) + tail);
    }

    /// Adds a variable to the environment, written as `KEY=VAL`.
    pub fn env(&mut self, var: &str)
        ensures
            final(self)@ == (CommandView { env: old(self)@.env.push(var@), ..old(self)@ }),
    {
        let s = var.to_owned();
        self.env.push(s);
        assert(string_views(self.env@) =~= string_views(old(self).env@).push(var@));
    }

    /// Adds variables to the environment, in order.
    pub fn envs(&mut self, items: &Vec<String>)
        ensures
            final(self)@ == (CommandView {
                env: old(self)@.env + string_views(items@),
                ..old(self)@
            }),
    {
        let mut more = clone_strings(items);
        let ghost tail = string_views(more@);
        self.env.append(&mut more);
        assert(string_views(self.env@) =~= string_views(old(self).env@) + tail);
    }

    /// Sets the working directory, named from the root of the sandbox.
    pub fn current_dir(&mut self, a: &str)
        ensures
            final(self)@ == (CommandView { current_dir: Some(a@), ..old(self)@ }),
    {
        self.current_dir = Some(a.to_owned());
    }

    /// Sets the standard input.
    pub fn stdin(&mut self, stdin: InputSpecification)
        ensures
            final(self)@ == (CommandView { stdin: Some(stdin.data()), ..old(self)@ }),
    {
        self.stdin = Some(stdin);
    }

    /// Sets the standard output.
    pub fn stdout(&mut self, stdout: OutputSpecification)
        ensures
            final(self)@ == (CommandView { stdout: Some(stdout.data()), ..old(self)@ }),
    {
        self.stdout = Some(stdout);
    }

    /// Sets the standard error.
    pub fn stderr(&mut self, stderr: OutputSpecification)
        ensures
            final(self)@ == (CommandView { stderr: Some(stderr.data()), ..old(self)@ }),
    {
        self.stderr = Some(stderr);
    }
}

} // verus!
