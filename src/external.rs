//! Launching external subcommands named `PREFIX-NAME`.
use vstd::prelude::*;

use crate::error::DurandalError;
use crate::text::views;

verus! {

/// Relies on `which::which`: whether an executable of that name is found on
/// the search path. What it finds depends on the machine, so nothing is
/// promised of the answer.
#[verifier::external_body]
fn on_path(name: &str) -> (r: bool) {
    which::which(name).is_ok()
}

/// An external command that was found on the search path, with its arguments.
#[derive(Clone, Debug)]
pub struct ExternalCommand {
    executable: String,
    args: Vec<String>,
}

/// Collects the parts of an external command's name, and its arguments.
#[derive(Clone, Debug)]
pub struct ExternalCommandBuilder {
    prefix: String,
    name: String,
    args: Vec<String>,
}

impl ExternalCommand {
    pub closed spec fn executable_spec(self) -> Seq<char> {
        self.executable@
    }

    pub closed spec fn args_spec(self) -> Seq<Seq<char>> {
        views(self.args@)
    }

    /// An empty builder.
    pub fn new() -> (r: ExternalCommandBuilder)
        ensures
            r.prefix_spec() == Seq::<char>::empty(),
            r.name_spec() == Seq::<char>::empty(),
            r.args_spec() == Seq::<Seq<char>>::empty(),
    {
        ExternalCommandBuilder::default()
    }

    pub fn executable(&self) -> (r: &str)
        ensures
            r@ == self.executable_spec(),
    {
        self.executable.as_str()
    }

    pub fn args(&self) -> (r: &Vec<String>)
        ensures
            views(r@) == self.args_spec(),
    {
        &self.args
    }
}

impl Default for ExternalCommandBuilder {
    fn default() -> (r: ExternalCommandBuilder)
        ensures
            r.prefix_spec() == Seq::<char>::empty(),
            r.name_spec() == Seq::<char>::empty(),
            r.args_spec() == Seq::<Seq<char>>::empty(),
    {
        let r = ExternalCommandBuilder { prefix: String::new(), name: String::new(), args: Vec::new() };
        assert(views(r.args@) =~= Seq::<Seq<char>>::empty());
        r
    }
}

/// The executable of an external command: `PREFIX-NAME`.
pub open spec fn executable_name(prefix: Seq<char>, name: Seq<char>) -> Seq<char> {
    prefix + "-"@ + name
}

impl ExternalCommandBuilder {
    pub closed spec fn prefix_spec(self) -> Seq<char> {
        self.prefix@
    }

    pub closed spec fn name_spec(self) -> Seq<char> {
        self.name@
    }

    pub closed spec fn args_spec(self) -> Seq<Seq<char>> {
        views(self.args@)
    }

    pub fn prefix(self, prefix: &str) -> (r: Self)
        ensures
            r.prefix_spec() == prefix@,
            r.name_spec() == self.name_spec(),
            r.args_spec() == self.args_spec(),
    {
        ExternalCommandBuilder { prefix: String::from_str(prefix), ..self }
    }

    pub fn name(self, name: &str) -> (r: Self)
        ensures
            r.prefix_spec() == self.prefix_spec(),
            r.name_spec() == name@,
            r.args_spec() == self.args_spec(),
    {
        ExternalCommandBuilder { name: String::from_str(name), ..self }
    }

    pub fn args(self, args: &[String]) -> (r: Self)
        ensures
            r.prefix_spec() == self.prefix_spec(),
            r.name_spec() == self.name_spec(),
            r.args_spec() == views(args@),
    {
        let mut v: Vec<String> = Vec::new();
        let mut i: usize = 0;
        while i < args.len()
            invariant
                i <= args@.len(),
                views(v@) == views(args@.subrange(0, i as int)),
            decreases args@.len() - i,
        {
            let ghost before = views(v@);
            let c = args[i].clone();
            v.push(c);
            assert(views(v@) =~= before.push(args@[i as int]@));
            assert(args@.subrange(0, i + 1) =~= args@.subrange(0, i as int).push(args@[i as int]));
            assert(views(v@) =~= views(args@.subrange(0, i + 1)));
            i = i + 1;
        }
        assert(args@.subrange(0, i as int) =~= args@);
        ExternalCommandBuilder { args: v, ..self }
    }

    /// The command, given whether its executable was found: the command when
    /// it was, the unknown command error naming the executable when not.
    pub fn resolve(&self, found: bool) -> (r: Result<ExternalCommand, DurandalError>)
        ensures
            found ==> r is Ok && r->Ok_0.executable_spec() == executable_name(self.prefix_spec(), self.name_spec())
                && r->Ok_0.args_spec() == self.args_spec(),
            !found ==> r is Err && r->Err_0 is UnknownExternalCommand
                && r->Err_0->UnknownExternalCommand_0@ == executable_name(self.prefix_spec(), self.name_spec()),
    {
        let mut executable = self.prefix.clone();
        executable.append("-");
        executable.append(self.name.as_str());
        if !found {
            return Err(DurandalError::UnknownExternalCommand(executable));
        }
        let mut args: Vec<String> = Vec::new();
        let mut i: usize = 0;
        while i < self.args.len()
            invariant
                i <= self.args@.len(),
                views(args@) == views(self.args@.subrange(0, i as int)),
            decreases self.args@.len() - i,
        {
            let ghost before = views(args@);
            let c = self.args[i].clone();
            args.push(c);
            assert(views(args@) =~= before.push(self.args@[i as int]@));
            assert(self.args@.subrange(0, i + 1) =~= self.args@.subrange(0, i as int).push(self.args@[i as int]));
            assert(views(args@) =~= views(self.args@.subrange(0, i + 1)));
            i = i + 1;
        }
        assert(self.args@.subrange(0, i as int) =~= self.args@);
        Ok(ExternalCommand { executable, args })
    }

    /// The command, if its executable is on the search path; the unknown
    /// command error naming the executable otherwise.
    pub fn build(&self) -> (r: Result<ExternalCommand, DurandalError>)
        ensures
            r is Ok ==> r->Ok_0.executable_spec() == executable_name(self.prefix_spec(), self.name_spec())
                && r->Ok_0.args_spec() == self.args_spec(),
            r is Err ==> r->Err_0 is UnknownExternalCommand
                && r->Err_0->UnknownExternalCommand_0@ == executable_name(self.prefix_spec(), self.name_spec()),
    {
        let mut executable = self.prefix.clone();
        executable.append("-");
        executable.append(self.name.as_str());
        let found = on_path(executable.as_str());
        self.resolve(found)
    }
}

} // verus!
