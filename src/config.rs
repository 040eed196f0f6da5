//! Reading the command line into a request: help, version, or a run.
use vstd::prelude::*;
use vstd::string::*;
use crate::text::chars_of;

verus! {

/// What a run needs: the input file, the placeholder token, the command
/// template and whether narration is silenced.
pub struct RunConfig {
    pub file_path: String,
    pub token: String,
    pub template: Vec<String>,
    pub quiet: bool,
}

impl RunConfig {
    /// A template always names at least a program.
    pub open spec fn wf(&self) -> bool {
        self.template@.len() > 0
    }
}

/// What the command line asks for.
pub enum CliRequest {
    Help,
    Version,
    /// Fewer words than a file, a token and a program.
    MissingArguments,
    Run(RunConfig),
}

/// Whether `w` is one of the two spellings of an option.
pub open spec fn is_flag(w: Seq<char>, short: &str, long: &str) -> bool {
    w == short@ || w == long@
}

/// Whether the first argument after the program name is the given option.
pub open spec fn first_is(args: Seq<Seq<char>>, short: &str, long: &str) -> bool {
    args.len() >= 2 && is_flag(args[1], short, long)
}

/// Whether the command line selects quiet mode.
pub open spec fn asks_quiet(args: Seq<Seq<char>>) -> bool {
    first_is(args, "-q", "--quiet")
}

/// Where the file argument stands.
pub open spec fn first_operand(args: Seq<Seq<char>>) -> int {
    if asks_quiet(args) { 2 } else { 1 }
}

/// Whether the two strings hold the same characters.
pub fn text_equals(a: &str, b: &str) -> (r: bool)
    ensures
        r == (a@ == b@),
{
    let x = chars_of(a);
    let y = chars_of(b);
    if x.len() != y.len() {
        return false;
    }
    let mut i: usize = 0;
    while i < x.len()
        invariant
            x@ == a@,
            y@ == b@,
            x@.len() == y@.len(),
            i <= x@.len(),
            forall|k: int| 0 <= k < i ==> x@[k] == y@[k],
        decreases x@.len() - i,
    {
        if x[i] != y[i] {
            return false;
        }
        i = i + 1;
    }
    assert(x@ =~= y@);
    true
}

fn first_matches(args: &Vec<String>, short: &str, long: &str) -> (r: bool)
    ensures
        r == first_is(args.deep_view(), short, long),
{
    if args.len() < 2 {
        return false;
    }
    let w = args[1].as_str();
    text_equals(w, short) || text_equals(w, long)
}

/// Reads the words of a command line, the program name first.
///
/// Help and version win when they are the first argument; a quiet flag may
/// stand only there. After it come the file, the token and the command with
/// its arguments: with fewer words the arguments are missing.
pub fn parse_args(args: &Vec<String>) -> (r: CliRequest)
    ensures
        r is Help <==> first_is(args.deep_view(), "-h", "--help"),
        r is Version <==> !first_is(args.deep_view(), "-h", "--help") && first_is(
            args.deep_view(),
            "-v",
            "--version",
        ),
        r is MissingArguments <==> !first_is(args.deep_view(), "-h", "--help") && !first_is(
            args.deep_view(),
            "-v",
            "--version",
        ) && args@.len() < first_operand(args.deep_view()) + 3,
        r matches CliRequest::Run(c) ==> {
            let at = first_operand(args.deep_view());
            &&& c.wf()
            &&& c.quiet == asks_quiet(args.deep_view())
            &&& c.file_path@ == args.deep_view()[at]
            &&& c.token@ == args.deep_view()[at + 1]
            &&& c.template.deep_view() == args.deep_view().subrange(at + 2, args@.len() as int)
        },
{
    if first_matches(args, "-h", "--help") {
        return CliRequest::Help;
    }
    if first_matches(args, "-v", "--version") {
        return CliRequest::Version;
    }
    let quiet = first_matches(args, "-q", "--quiet");
    let at: usize = if quiet { 2 } else { 1 };
    if args.len() < at + 3 {
        return CliRequest::MissingArguments;
    }
    let file_path = args[at].clone();
    let token = args[at + 1].clone();
    let mut template: Vec<String> = Vec::new();
    let mut i: usize = at + 2;
    while i < args.len()
        invariant
            at + 2 <= i <= args@.len(),
            template.deep_view() == args.deep_view().subrange(at + 2, i as int),
        decreases args@.len() - i,
    {
        let ghost prev = template.deep_view();
        template.push(args[i].clone());
        i = i + 1;
        assert(template.deep_view() =~= prev.push(args.deep_view()[i - 1]));
        assert(template.deep_view() =~= args.deep_view().subrange(at + 2, i as int));
    }
    CliRequest::Run(RunConfig { file_path, token, template, quiet })
}

} // verus!
