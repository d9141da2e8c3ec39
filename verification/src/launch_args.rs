//! The arguments of a launch on the command line.

use crate::failure::{outcome, plain, Chain, Failure};
use crate::text::{cat2, has_char, opt_text, quote, quoted, same, strip_prefix, texts};
use vstd::prelude::*;

verus! {

/// What the next argument is read as.
#[derive(Debug, Clone, Copy, PartialEq, Eq, Structural)]
pub enum LaunchRunArgRole {
    Name,
    Argument,
    SessionId,
    Variable,
}

/// The arguments of a launch.
#[derive(Debug, Clone, PartialEq, Eq)]
pub struct LaunchRunArgs {
    pub name: String,
    pub session_id: Option<String>,
    pub vars: Vec<String>,
}

pub struct LaunchRunModel {
    pub name: Seq<char>,
    pub session_id: Option<Seq<char>>,
    pub vars: Seq<Seq<char>>,
}

impl View for LaunchRunArgs {
    type V = LaunchRunModel;

    open spec fn view(&self) -> LaunchRunModel {
        LaunchRunModel {
            name: self.name@,
            session_id: opt_text(self.session_id),
            vars: texts(self.vars@),
        }
    }
}

/// Arguments that were partly read.
#[derive(Debug, Clone, PartialEq, Eq)]
pub struct LaunchRunParser {
    pub role: LaunchRunArgRole,
    pub args: LaunchRunArgs,
}

pub struct ParserModel {
    pub role: LaunchRunArgRole,
    pub args: LaunchRunModel,
}

impl View for LaunchRunParser {
    type V = ParserModel;

    open spec fn view(&self) -> ParserModel {
        ParserModel { role: self.role, args: self.args@ }
    }
}

pub open spec fn nothing_read() -> ParserModel {
    ParserModel {
        role: LaunchRunArgRole::Name,
        args: LaunchRunModel { name: Seq::empty(), session_id: None, vars: Seq::empty() },
    }
}

pub open spec fn with_session_id(p: ParserModel, value: Seq<char>) -> Result<ParserModel, Chain> {
    if p.args.session_id is Some {
        Err(plain("--session-id may only be specified once"@))
    } else {
        Ok(
            ParserModel {
                role: LaunchRunArgRole::Argument,
                args: LaunchRunModel { session_id: Some(value), ..p.args },
            },
        )
    }
}

pub open spec fn with_variable(p: ParserModel, value: Seq<char>) -> Result<ParserModel, Chain> {
    if !value.contains('=') {
        Err(plain("--var must be key=value"@))
    } else {
        Ok(
            ParserModel {
                role: LaunchRunArgRole::Argument,
                args: LaunchRunModel { vars: p.args.vars.push(value), ..p.args },
            },
        )
    }
}

pub open spec fn awaiting(p: ParserModel, role: LaunchRunArgRole) -> ParserModel {
    ParserModel { role, args: p.args }
}

/// What one more argument makes of what was read.
pub open spec fn fed(p: ParserModel, arg: Seq<char>) -> Result<ParserModel, Chain> {
    match p.role {
        LaunchRunArgRole::Name => Ok(
            ParserModel {
                role: LaunchRunArgRole::Argument,
                args: LaunchRunModel { name: arg, ..p.args },
            },
        ),
        LaunchRunArgRole::SessionId => with_session_id(p, arg),
        LaunchRunArgRole::Variable => with_variable(p, arg),
        LaunchRunArgRole::Argument => if arg == "--json"@ {
            Err(plain("launch execution does not support --json"@))
        } else if "--session-id="@.is_prefix_of(arg) {
            with_session_id(p, arg.skip("--session-id="@.len() as int))
        } else if arg == "--session-id"@ {
            Ok(awaiting(p, LaunchRunArgRole::SessionId))
        } else if "--var="@.is_prefix_of(arg) {
            with_variable(p, arg.skip("--var="@.len() as int))
        } else if arg == "--var"@ {
            Ok(awaiting(p, LaunchRunArgRole::Variable))
        } else {
            Err(plain("unexpected extra launch argument "@ + quoted(arg)))
        },
    }
}

/// What was read when no more arguments come.
pub open spec fn finished(p: ParserModel) -> Result<LaunchRunModel, Chain> {
    match p.role {
        LaunchRunArgRole::Name => Err(plain("launch requires a launch name"@)),
        LaunchRunArgRole::SessionId => Err(plain("--session-id requires a value"@)),
        LaunchRunArgRole::Variable => Err(plain("--var must be key=value"@)),
        LaunchRunArgRole::Argument => Ok(p.args),
    }
}

/// What a list of arguments says.
pub open spec fn parsed(p: ParserModel, args: Seq<Seq<char>>) -> Result<LaunchRunModel, Chain>
    decreases args.len(),
{
    if args.len() == 0 {
        finished(p)
    } else {
        match fed(p, args[0]) {
            Ok(next) => parsed(next, args.skip(1)),
            Err(chain) => Err(chain),
        }
    }
}

impl LaunchRunParser {
    /// Nothing was read yet.
    pub fn new() -> (r: LaunchRunParser)
        ensures
            r@ == nothing_read(),
    {
        let r = LaunchRunParser {
            role: LaunchRunArgRole::Name,
            args: LaunchRunArgs { name: String::new(), session_id: None, vars: Vec::new() },
        };
        proof {
            reveal_strlit("");
            assert(r@.args.name =~= Seq::<char>::empty());
            assert(r@.args.vars =~= Seq::<Seq<char>>::empty());
        }
        r
    }

    /// What the next argument is read as.
    pub fn role(&self) -> (r: LaunchRunArgRole)
        ensures
            r == self@.role,
    {
        self.role
    }

    fn set_session_id(&mut self, value: &str) -> (r: Result<(), Failure>)
        ensures
            match r {
                Ok(_) => with_session_id(old(self)@, value@) == Ok::<ParserModel, Chain>(
                    final(self)@,
                ),
                Err(failure) => with_session_id(old(self)@, value@) == Err::<ParserModel, Chain>(
                    failure@,
                ) && final(self)@ == old(self)@,
            },
    {
        if self.args.session_id.is_some() {
            return Err(Failure::msg("--session-id may only be specified once"));
        }
        self.args.session_id = Some(value.to_owned());
        self.role = LaunchRunArgRole::Argument;
        Ok(())
    }

    fn add_variable(&mut self, value: &str) -> (r: Result<(), Failure>)
        ensures
            match r {
                Ok(_) => with_variable(old(self)@, value@) == Ok::<ParserModel, Chain>(
                    final(self)@,
                ),
                Err(failure) => with_variable(old(self)@, value@) == Err::<ParserModel, Chain>(
                    failure@,
                ) && final(self)@ == old(self)@,
            },
    {
        if !has_char(value, '=') {
            return Err(Failure::msg("--var must be key=value"));
        }
        let ghost before = self.args.vars@;
        self.args.vars.push(value.to_owned());
        self.role = LaunchRunArgRole::Argument;
        assert(texts(self.args.vars@) =~= texts(before).push(value@));
        Ok(())
    }

    /// Reads one more argument.
    pub fn feed(&mut self, arg: &str) -> (r: Result<(), Failure>)
        ensures
            match r {
                Ok(_) => fed(old(self)@, arg@) == Ok::<ParserModel, Chain>(final(self)@),
                Err(failure) => fed(old(self)@, arg@) == Err::<ParserModel, Chain>(failure@)
                    && final(self)@ == old(self)@,
            },
    {
        match self.role {
            LaunchRunArgRole::Name => {
                self.args.name = arg.to_owned();
                self.role = LaunchRunArgRole::Argument;
                Ok(())
            },
            LaunchRunArgRole::SessionId => self.set_session_id(arg),
            LaunchRunArgRole::Variable => self.add_variable(arg),
            LaunchRunArgRole::Argument => {
                if same(arg, "--json") {
                    return Err(Failure::msg("launch execution does not support --json"));
                }
                if let Some(value) = strip_prefix(arg, "--session-id=") {
                    return self.set_session_id(value);
                }
                if same(arg, "--session-id") {
                    self.role = LaunchRunArgRole::SessionId;
                    return Ok(());
                }
                if let Some(value) = strip_prefix(arg, "--var=") {
                    return self.add_variable(value);
                }
                if same(arg, "--var") {
                    self.role = LaunchRunArgRole::Variable;
                    return Ok(());
                }
                Err(
                    Failure::msg(
                        cat2("unexpected extra launch argument ", quote(arg).as_str()).as_str(),
                    ),
                )
            },
        }
    }

    /// What was read, when no more arguments come.
    pub fn finish(self) -> (r: Result<LaunchRunArgs, Failure>)
        ensures
            outcome(r) == finished(self@),
    {
        match self.role {
            LaunchRunArgRole::Name => Err(Failure::msg("launch requires a launch name")),
            LaunchRunArgRole::SessionId => Err(Failure::msg("--session-id requires a value")),
            LaunchRunArgRole::Variable => Err(Failure::msg("--var must be key=value")),
            LaunchRunArgRole::Argument => Ok(self.args),
        }
    }
}

/// Reads the arguments of a launch: its name, then options.
pub fn parse_launch_run_strings(args: &Vec<String>) -> (r: Result<LaunchRunArgs, Failure>)
    ensures
        outcome(r) == parsed(nothing_read(), texts(args@)),
{
    let mut parser = LaunchRunParser::new();
    let ghost all = texts(args@);
    let mut i: usize = 0;
    assert(all.skip(0) =~= all);
    while i < args.len()
        invariant
            i <= args.len(),
            all == texts(args@),
            parsed(parser@, all.skip(i as int)) == parsed(nothing_read(), all),
        decreases args.len() - i,
    {
        assert(all.skip(i as int).skip(1) =~= all.skip(i + 1));
        assert(all.skip(i as int)[0] == args@[i as int]@);
        if let Err(failure) = parser.feed(args[i].as_str()) {
            return Err(failure);
        }
        i += 1;
    }
    parser.finish()
}

/// Reading keeps what was read: the variables that are there stay, and so does
/// a session id.
proof fn reading_keeps(p: ParserModel, args: Seq<Seq<char>>)
    requires
        p.role != LaunchRunArgRole::Name,
    ensures
        parsed(p, args) matches Ok(r) ==> {
            &&& r.name == p.args.name
            &&& p.args.vars.is_prefix_of(r.vars)
            &&& p.args.session_id is Some ==> r.session_id == p.args.session_id
            &&& forall|i: int|
                p.args.vars.len() <= i < r.vars.len() ==> (#[trigger] r.vars[i]).contains('=')
        },
    decreases args.len(),
{
    let n = p.args.vars.len() as int;
    if args.len() > 0 {
        if let Ok(next) = fed(p, args[0]) {
            reading_keeps(next, args.skip(1));
            if let Ok(r) = parsed(next, args.skip(1)) {
                let m = next.args.vars.len() as int;
                assert(next.args.vars =~= r.vars.take(m));
                assert(p.args.vars =~= next.args.vars.take(n));
                assert(p.args.vars =~= r.vars.take(n));
                if m > n {
                    assert(r.vars[n] == r.vars.take(m)[n]);
                    assert(r.vars[n].contains('='));
                }
            }
        }
    } else {
        assert(p.args.vars =~= p.args.vars.take(n));
    }
}

/// The first argument is the name, whatever it looks like, and every variable
/// that is accepted has a key and a value.
pub proof fn accepted_arguments(args: Seq<Seq<char>>)
    ensures
        parsed(nothing_read(), args) matches Ok(r) ==> {
            &&& args.len() > 0 && r.name == args[0]
            &&& forall|i: int| 0 <= i < r.vars.len() ==> (#[trigger] r.vars[i]).contains('=')
        },
{
    if args.len() > 0 {
        if let Ok(next) = fed(nothing_read(), args[0]) {
            reading_keeps(next, args.skip(1));
        }
    }
}

/// An option means the same whether its value follows it or stands behind an equals
/// sign.
pub proof fn options_are_written_either_way(
    p: ParserModel,
    value: Seq<char>,
    rest: Seq<Seq<char>>,
)
    requires
        p.role == LaunchRunArgRole::Argument,
    ensures
        parsed(p, seq!["--session-id"@, value] + rest) == parsed(
            p,
            seq!["--session-id="@ + value] + rest,
        ),
        parsed(p, seq!["--var"@, value] + rest) == parsed(p, seq!["--var="@ + value] + rest),
{
    reveal_strlit("--json");
    reveal_strlit("--session-id=");
    reveal_strlit("--session-id");
    reveal_strlit("--var=");
    reveal_strlit("--var");
    assert("--json"@.len() == 6 && "--json"@[2] == 'j');
    assert("--session-id"@.len() == 12 && "--session-id"@[2] == 's');
    assert("--session-id="@.len() == 13 && "--session-id="@[2] == 's');
    assert("--var"@.len() == 5 && "--var"@[2] == 'v');
    assert("--var="@.len() == 6 && "--var="@[2] == 'v');
    let id = "--session-id="@ + value;
    assert(id[2] == 's');
    assert(id.subrange(0, 13) =~= "--session-id="@);
    assert(id.skip(13) =~= value);
    let var = "--var="@ + value;
    assert(var[2] == 'v');
    assert(var.subrange(0, 6) =~= "--var="@);
    assert(var.skip(6) =~= value);
    if "--session-id="@.is_prefix_of(var) {
        assert(var.subrange(0, 13)[2] == "--session-id="@[2]);
    }
    if "--session-id="@.is_prefix_of("--var"@) {
        assert("--var"@.subrange(0, 13)[2] == "--session-id="@[2]);
    }
    let a = seq!["--session-id"@, value] + rest;
    assert(a.skip(1)[0] == value);
    assert(a.skip(1).skip(1) =~= rest);
    let b = seq![id] + rest;
    assert(b.skip(1) =~= rest);
    let c = seq!["--var"@, value] + rest;
    assert(c.skip(1)[0] == value);
    assert(c.skip(1).skip(1) =~= rest);
    let d = seq![var] + rest;
    assert(d.skip(1) =~= rest);
    let waiting = awaiting(p, LaunchRunArgRole::SessionId);
    assert(fed(p, a[0]) == Ok::<ParserModel, Chain>(waiting));
    assert(with_session_id(waiting, value) == with_session_id(p, value));
    let asking = awaiting(p, LaunchRunArgRole::Variable);
    assert(fed(p, c[0]) == Ok::<ParserModel, Chain>(asking));
    assert(with_variable(asking, value) == with_variable(p, value));
    assert(parsed(p, a) == parsed(waiting, a.skip(1)));
    assert(parsed(p, c) == parsed(asking, c.skip(1)));
}

/// A session id is kept once given and cannot be given again; a variable is added
/// behind those before it, and must have a key. Neither changes anything else, and
/// nothing is complete that still awaits a name or a value.
pub proof fn options_are_kept(p: ParserModel, value: Seq<char>)
    ensures
        with_session_id(p, value) is Ok <==> p.args.session_id is None,
        with_session_id(p, value) matches Ok(next) ==> next.args.session_id == Some(value)
            && next.args.name == p.args.name && next.args.vars == p.args.vars && next.role
            == LaunchRunArgRole::Argument,
        with_variable(p, value) is Ok <==> value.contains('='),
        with_variable(p, value) matches Ok(next) ==> next.args.vars == p.args.vars.push(value)
            && next.args.name == p.args.name && next.args.session_id == p.args.session_id
            && next.role == LaunchRunArgRole::Argument,
        finished(p) is Ok <==> p.role == LaunchRunArgRole::Argument,
        finished(p) matches Ok(args) ==> args == p.args,
        nothing_read().role == LaunchRunArgRole::Name,
        nothing_read().args.session_id is None && nothing_read().args.vars.len() == 0,
{
}

/// Behind the name nothing but the two options is accepted.
pub proof fn only_options_follow_the_name(p: ParserModel, arg: Seq<char>)
    requires
        p.role == LaunchRunArgRole::Argument,
        fed(p, arg) is Ok,
    ensures
        arg == "--session-id"@ || arg == "--var"@ || "--session-id="@.is_prefix_of(arg)
            || "--var="@.is_prefix_of(arg),
{
}

} // verus!
