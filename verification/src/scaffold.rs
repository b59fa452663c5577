//! Scaffolding a new Torus project: the command line of the project
//! generator and the manifest it writes. Creating the files is left to the
//! embedding program.
use vstd::prelude::*;

verus! {

/// What the project generator is asked to do.
#[derive(Debug)]
pub enum ScaffoldCommand {
    /// Show the usage text.
    Help,
    /// Create project `name` under the directory `dir`.
    Create { name: String, dir: String },
}

/// The outcome of reading the arguments from position `i` on, with the
/// project name and directory found so far: `Ok(None)` asks for help,
/// `Ok(Some((name, dir)))` names what to create (the first free-standing
/// argument is the name; `--path` takes the next argument as the
/// directory), `Err` carries the message of a malformed command line.
pub open spec fn parse_from(
    args: Seq<Seq<char>>,
    i: int,
    name: Option<Seq<char>>,
    dir: Seq<char>,
) -> Result<Option<(Seq<char>, Seq<char>)>, Seq<char>>
    decreases args.len() - i,
{
    if i < 0 || i >= args.len() {
        match name {
            None => Err("missing project name\nusage: cargo-torus-new <project-name> [--path <dir>]"@),
            Some(n) => if n.len() == 0 {
                Err("project name must not be empty"@)
            } else {
                Ok(Some((n, dir)))
            },
        }
    } else if args[i] == "--path"@ {
        if i + 1 >= args.len() {
            Err("--path requires a directory argument"@)
        } else {
            parse_from(args, i + 2, name, args[i + 1])
        }
    } else if args[i] == "--help"@ || args[i] == "-h"@ {
        Ok(None)
    } else {
        parse_from(
            args,
            i + 1,
            if name is None {
                Some(args[i])
            } else {
                name
            },
            dir,
        )
    }
}

/// The view of a name found so far.
pub open spec fn name_view(name: Option<String>) -> Option<Seq<char>> {
    match name {
        Some(n) => Some(n@),
        None => None,
    }
}

/// The views of the arguments.
pub open spec fn arg_views(args: Seq<String>) -> Seq<Seq<char>> {
    args.map_values(|a: String| a@)
}

/// Read the generator's arguments (the program name excluded); the
/// directory is `.` unless `--path` gives one.
pub fn parse_args(args: &Vec<String>) -> (r: Result<ScaffoldCommand, String>)
    ensures
        match parse_from(arg_views(args@), 0, None, "."@) {
            Ok(None) => r matches Ok(ScaffoldCommand::Help),
            Ok(Some((n, d))) => r matches Ok(ScaffoldCommand::Create { name, dir }) && name@ == n
                && dir@ == d,
            Err(m) => r matches Err(e) && e@ == m,
        },
{
    let ghost views = arg_views(args@);
    let path_flag = String::from_str("--path");
    let help_flag = String::from_str("--help");
    let short_help_flag = String::from_str("-h");
    let mut name: Option<String> = None;
    let mut dir = String::from_str(".");
    let mut i: usize = 0;
    while i < args.len()
        invariant
            i <= args@.len(),
            views == arg_views(args@),
            path_flag@ == "--path"@,
            help_flag@ == "--help"@,
            short_help_flag@ == "-h"@,
            parse_from(views, i as int, name_view(name), dir@) == parse_from(
                views,
                0,
                None,
                "."@,
            ),
        decreases args.len() - i,
    {
        assert(views[i as int] == args@[i as int]@);
        if args[i] == path_flag {
            if i + 1 >= args.len() {
                return Err(String::from_str("--path requires a directory argument"));
            }
            assert(views[i + 1] == args@[i + 1]@);
            dir = args[i + 1].clone();
            i = i + 2;
        } else if args[i] == help_flag || args[i] == short_help_flag {
            return Ok(ScaffoldCommand::Help);
        } else {
            if name.is_none() {
                name = Some(args[i].clone());
            }
            i = i + 1;
        }
    }
    match name {
        None => Err(
            String::from_str(
                "missing project name\nusage: cargo-torus-new <project-name> [--path <dir>]",
            ),
        ),
        Some(n) => if n.as_str().unicode_len() == 0 {
            Err(String::from_str("project name must not be empty"))
        } else {
            Ok(ScaffoldCommand::Create { name: n, dir })
        },
    }
}

/// The manifest of a new project named `name`, depending on the `torus`
/// facade.
pub open spec fn manifest_text(name: Seq<char>) -> Seq<char> {
    "[package]\nname = \""@ + name
        + "\"\nversion = \"0.1.0\"\nedition = \"2021\"\nlicense = \"MIT OR Apache-2.0\"\n\n[dependencies]\ntorus = \"0.1.0\"\n"@
}

/// The manifest of a new project named `name`.
pub fn cargo_toml(name: &str) -> (s: String)
    ensures
        s@ == manifest_text(name@),
{
    let mut s = String::from_str("[package]\nname = \"");
    s.append(name);
    s.append(
        "\"\nversion = \"0.1.0\"\nedition = \"2021\"\nlicense = \"MIT OR Apache-2.0\"\n\n[dependencies]\ntorus = \"0.1.0\"\n",
    );
    s
}

} // verus!
