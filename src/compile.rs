//! Compiling the user's project: choosing the build command, and judging it.
use vstd::prelude::*;
use crate::go_docker::{first_lines, first_n};
use crate::http::{join, join_strings, lines_of};
use crate::json::strings_view;
use crate::protocol::case_is;
use crate::results::TestCase;
use crate::text::{chars_of, lit, fold, same, fold_chars};

verus! {

/// Which project files a workspace holds.
pub struct WorkspaceProbe {
    pub has_cargo_toml: bool,
    pub has_go_mod: bool,
    /// Some `*.go` file directly in the workspace.
    pub has_go_files: bool,
    pub has_package_json: bool,
    pub has_tsconfig: bool,
    /// `requirements.txt`, `pyproject.toml` or `setup.py`.
    pub has_python_manifest: bool,
    /// `Makefile` or `makefile`.
    pub has_makefile: bool,
}

/// A command and its arguments, mathematically.
pub type CommandView = (Seq<char>, Seq<Seq<char>>);

pub open spec fn no_go_files() -> Seq<char> {
    "no .go source files found in project directory"@
}

/// The build command for an explicitly chosen runtime (compared in lower case).
pub open spec fn command_for_runtime(rt: Seq<char>, probe: WorkspaceProbe) -> Result<CommandView, Seq<char>> {
    let l = fold(rt);
    if l == "go"@ {
        if probe.has_go_files { Ok(("go"@, seq!["build"@, "."@])) } else { Err(no_go_files()) }
    } else if l == "rust"@ {
        Ok(("cargo"@, seq!["check"@]))
    } else if l == "c"@ || l == "cpp"@ || l == "c++"@ {
        Ok(("make"@, Seq::empty()))
    } else if l == "python"@ || l == "py"@ {
        Ok(("python"@, seq!["-m"@, "py_compile"@, "*.py"@]))
    } else {
        Err("unsupported runtime: "@ + rt)
    }
}

/// The build command detected from the workspace's files.
pub open spec fn command_from_files(probe: WorkspaceProbe) -> Result<CommandView, Seq<char>> {
    if probe.has_cargo_toml {
        Ok(("cargo"@, seq!["check"@]))
    } else if probe.has_go_mod {
        if probe.has_go_files { Ok(("go"@, seq!["build"@, "."@])) } else { Err(no_go_files()) }
    } else if probe.has_package_json {
        if probe.has_tsconfig {
            Ok(("npx"@, seq!["tsc"@, "--noEmit"@]))
        } else {
            Ok(("echo"@, seq!["no compile step for js"@]))
        }
    } else if probe.has_python_manifest {
        Ok(("python"@, seq!["-m"@, "py_compile"@, "*.py"@]))
    } else if probe.has_makefile {
        Ok(("make"@, seq!["-n"@]))
    } else {
        Err("unable to detect project type. expected Cargo.toml, go.mod, package.json, or Makefile"@)
    }
}

fn command(cmd: &str, args: Vec<String>) -> (r: Result<(String, Vec<String>), String>)
    ensures
        r is Ok && r->Ok_0.0@ == cmd@ && strings_view(r->Ok_0.1@) == strings_view(args@),
{
    Ok((lit(cmd), args))
}

fn is_word(l: &Vec<char>, w: &str) -> (r: bool)
    ensures
        r == (l@ == w@),
{
    same(l, &chars_of(w))
}

/// The build command: the runtime's when one is given, else detected from
/// the workspace's files.
pub fn detect_build_command(runtime: Option<&str>, probe: &WorkspaceProbe) -> (r: Result<(String, Vec<String>), String>)
    ensures
        match (match runtime {
            Some(rt) => command_for_runtime(rt@, *probe),
            None => command_from_files(*probe),
        }) {
            Ok((c, a)) => r is Ok && r->Ok_0.0@ == c && strings_view(r->Ok_0.1@) == a,
            Err(e) => r is Err && r->Err_0@ == e,
        },
{
    let go_build = vec![lit("build"), lit(".")];
    assert(strings_view(go_build@) =~= seq!["build"@, "."@]);
    let check = vec![lit("check")];
    assert(strings_view(check@) =~= seq!["check"@]);
    let py = vec![lit("-m"), lit("py_compile"), lit("*.py")];
    assert(strings_view(py@) =~= seq!["-m"@, "py_compile"@, "*.py"@]);
    match runtime {
        Some(rt) => {
            let l = fold_chars(&chars_of(rt));
            if is_word(&l, "go") {
                if probe.has_go_files {
                    command("go", go_build)
                } else {
                    Err(lit("no .go source files found in project directory"))
                }
            } else if is_word(&l, "rust") {
                command("cargo", check)
            } else if is_word(&l, "c") || is_word(&l, "cpp") || is_word(&l, "c++") {
                let none: Vec<String> = Vec::new();
                assert(strings_view(none@) =~= Seq::<Seq<char>>::empty());
                command("make", none)
            } else if is_word(&l, "python") || is_word(&l, "py") {
                command("python", py)
            } else {
                let mut m = lit("unsupported runtime: ");
                m.append(rt);
                Err(m)
            }
        },
        None => {
            if probe.has_cargo_toml {
                command("cargo", check)
            } else if probe.has_go_mod {
                if probe.has_go_files {
                    command("go", go_build)
                } else {
                    Err(lit("no .go source files found in project directory"))
                }
            } else if probe.has_package_json {
                if probe.has_tsconfig {
                    let a = vec![lit("tsc"), lit("--noEmit")];
                    assert(strings_view(a@) =~= seq!["tsc"@, "--noEmit"@]);
                    command("npx", a)
                } else {
                    let a = vec![lit("no compile step for js")];
                    assert(strings_view(a@) =~= seq!["no compile step for js"@]);
                    command("echo", a)
                }
            } else if probe.has_python_manifest {
                command("python", py)
            } else if probe.has_makefile {
                let a = vec![lit("-n")];
                assert(strings_view(a@) =~= seq!["-n"@]);
                command("make", a)
            } else {
                Err(lit("unable to detect project type. expected Cargo.toml, go.mod, package.json, or Makefile"))
            }
        },
    }
}

/// Builds the project and expects the build to succeed, or to fail.
pub struct CanCompileValidator {
    pub expected_success: bool,
}

impl CanCompileValidator {
    pub fn new(expected_success: bool) -> (r: Self)
        ensures
            r.expected_success == expected_success,
    {
        CanCompileValidator { expected_success }
    }

    pub open spec fn name(&self) -> Seq<char> {
        "project compiles"@ + if self.expected_success { Seq::empty() } else { " (expected failure)"@ }
    }

    pub open spec fn judged(&self, cmd: Seq<char>, args: Seq<Seq<char>>, compiled: bool, stderr: Seq<char>) -> Result<Seq<char>, Seq<char>> {
        if compiled && self.expected_success {
            Ok(cmd + " "@ + join(args, " "@) + " succeeded"@)
        } else if !compiled && !self.expected_success {
            Ok("compilation failed as expected"@)
        } else if compiled {
            Err("expected compilation to fail, but it succeeded"@)
        } else {
            Err("compilation failed:\n"@ + join(first_n(lines_of(stderr), 5), "\n"@))
        }
    }

    /// The case for a build run with `cmd args`.
    pub fn verdict(&self, cmd: &str, args: &Vec<String>, compiled: bool, stderr: &str) -> (r: TestCase)
        ensures
            case_is(r, self.name(), self.judged(cmd@, strings_view(args@), compiled, stderr@)),
    {
        let result = if compiled && self.expected_success {
            let mut m = lit(cmd);
            m.append(" ");
            m.append(join_strings(args, " ").as_str());
            m.append(" succeeded");
            Ok(m)
        } else if !compiled && !self.expected_success {
            Ok(lit("compilation failed as expected"))
        } else if compiled {
            Err(lit("expected compilation to fail, but it succeeded"))
        } else {
            let mut m = lit("compilation failed:\n");
            m.append(first_lines(stderr, 5).as_str());
            Err(m)
        };
        let mut name = lit("project compiles");
        if !self.expected_success {
            name.append(" (expected failure)");
        } else {
            assert(name@ + Seq::<char>::empty() =~= name@);
        }
        TestCase { name, result }
    }
}

} // verus!
