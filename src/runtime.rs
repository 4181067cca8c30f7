//! The runtimes a workspace can be validated for, and how each is recognised.
use vstd::prelude::*;
use crate::compile::WorkspaceProbe;
use crate::text::{chars_of, lit, fold, same, fold_chars};

verus! {

/// A supported language runtime.
#[derive(Debug, Clone, Copy, PartialEq, Eq, Structural)]
pub enum SupportedRuntime {
    Go,
    Rust,
}

impl SupportedRuntime {
    /// File extension of source files, without the dot.
    pub fn extension(&self) -> (r: &'static str)
        ensures
            r@ == if *self == SupportedRuntime::Go { "go"@ } else { "rs"@ },
    {
        match self {
            SupportedRuntime::Go => "go",
            SupportedRuntime::Rust => "rs",
        }
    }

    /// The manifest file that marks a project of this runtime.
    pub fn module_file(&self) -> (r: &'static str)
        ensures
            r@ == if *self == SupportedRuntime::Go { "go.mod"@ } else { "Cargo.toml"@ },
    {
        match self {
            SupportedRuntime::Go => "go.mod",
            SupportedRuntime::Rust => "Cargo.toml",
        }
    }

    /// The build tool.
    pub fn build_command(&self) -> (r: &'static str)
        ensures
            r@ == if *self == SupportedRuntime::Go { "go"@ } else { "cargo"@ },
    {
        match self {
            SupportedRuntime::Go => "go",
            SupportedRuntime::Rust => "cargo",
        }
    }

    /// The build tool's arguments.
    pub fn build_args(&self) -> (r: Vec<&'static str>)
        ensures
            r@.map_values(|s: &'static str| s@) == if *self == SupportedRuntime::Go {
                seq!["build"@, "."@]
            } else {
                seq!["check"@]
            },
    {
        match self {
            SupportedRuntime::Go => {
                let v = vec!["build", "."];
                assert(v@.map_values(|s: &'static str| s@) =~= seq!["build"@, "."@]);
                v
            },
            SupportedRuntime::Rust => {
                let v = vec!["check"];
                assert(v@.map_values(|s: &'static str| s@) =~= seq!["check"@]);
                v
            },
        }
    }

    /// The runtime's name in lower case.
    pub fn as_str(&self) -> (r: &'static str)
        ensures
            r@ == if *self == SupportedRuntime::Go { "go"@ } else { "rust"@ },
    {
        match self {
            SupportedRuntime::Go => "go",
            SupportedRuntime::Rust => "rust",
        }
    }

    /// Every supported runtime, in detection order.
    pub fn all() -> (r: Vec<SupportedRuntime>)
        ensures
            r@ == seq![SupportedRuntime::Go, SupportedRuntime::Rust],
    {
        let v = vec![SupportedRuntime::Go, SupportedRuntime::Rust];
        assert(v@ =~= seq![SupportedRuntime::Go, SupportedRuntime::Rust]);
        v
    }

    /// The first runtime whose manifest the workspace holds.
    pub fn detect(probe: &WorkspaceProbe) -> (r: Option<SupportedRuntime>)
        ensures
            r == if probe.has_go_mod {
                Some(SupportedRuntime::Go)
            } else if probe.has_cargo_toml {
                Some(SupportedRuntime::Rust)
            } else {
                None::<SupportedRuntime>
            },
    {
        if probe.has_go_mod {
            Some(SupportedRuntime::Go)
        } else if probe.has_cargo_toml {
            Some(SupportedRuntime::Rust)
        } else {
            None
        }
    }
}

/// The runtime a name denotes (`go`/`golang`, `rust`/`rs`, any case).
pub open spec fn runtime_named(s: Seq<char>) -> Result<SupportedRuntime, Seq<char>> {
    let l = fold(s);
    if l == "go"@ || l == "golang"@ {
        Ok(SupportedRuntime::Go)
    } else if l == "rust"@ || l == "rs"@ {
        Ok(SupportedRuntime::Rust)
    } else {
        Err("unsupported runtime '"@ + s + "'. supported: go, rust"@)
    }
}

pub fn parse_runtime(s: &str) -> (r: Result<SupportedRuntime, String>)
    ensures
        match runtime_named(s@) {
            Ok(x) => r == Ok::<SupportedRuntime, String>(x),
            Err(e) => r is Err && r->Err_0@ == e,
        },
{
    let l = fold_chars(&chars_of(s));
    if same(&l, &chars_of("go")) || same(&l, &chars_of("golang")) {
        Ok(SupportedRuntime::Go)
    } else if same(&l, &chars_of("rust")) || same(&l, &chars_of("rs")) {
        Ok(SupportedRuntime::Rust)
    } else {
        let mut m = lit("unsupported runtime '");
        m.append(s);
        m.append("'. supported: go, rust");
        Err(m)
    }
}

impl std::str::FromStr for SupportedRuntime {
    type Err = String;

    fn from_str(s: &str) -> Result<SupportedRuntime, String> {
        parse_runtime(s)
    }
}

} // verus!
