//! Paths under the working directory, the server's launch command and its
//! initialization options.

use vstd::prelude::*;
use vstd::string::*;

verus! {

/// The package that holds the language server.
pub const PACKAGE_NAME: &'static str = "@angular/language-server";

/// `base` followed by `part`, as a Unix path push: an absolute `part` replaces `base`,
/// and one separator stands between the two unless `base` is empty or already ends in one.
pub open spec fn joined(base: Seq<char>, part: Seq<char>) -> Seq<char> {
    if part.len() > 0 && part[0] == '/' {
        part
    } else if base.len() == 0 || base.last() == '/' {
        base + part
    } else {
        base + seq!['/'] + part
    }
}

/// Joins `part` onto the path `base`.
pub fn join_path(base: &str, part: &str) -> (r: String)
    ensures
        r@ == joined(base@, part@),
{
    let part_len = part.unicode_len();
    if part_len > 0 && part.get_char(0) == '/' {
        return part.to_owned();
    }
    let base_len = base.unicode_len();
    let mut r = base.to_owned();
    if base_len > 0 && base.get_char(base_len - 1) != '/' {
        r.append("/");
        proof {
            reveal_strlit("/");
        }
    }
    r.append(part);
    proof {
        if base_len > 0 && base@.last() != '/' {
            assert(r@ =~= base@ + seq!['/'] + part@);
        } else {
            assert(r@ =~= base@ + part@);
        }
    }
    r
}

/// `<cwd>/node_modules/<package>`: where a package is installed.
pub open spec fn package_dir(cwd: Seq<char>, package: Seq<char>) -> Seq<char> {
    joined(joined(cwd, "node_modules"@), package)
}

/// `<cwd>/node_modules/typescript/lib`: the TypeScript library the server probes.
pub open spec fn typescript_lib_dir(cwd: Seq<char>) -> Seq<char> {
    joined(joined(joined(cwd, "node_modules"@), "typescript"@), "lib"@)
}

/// `<package dir>/bin`: the directory of the server's executables.
pub open spec fn server_bin_dir(cwd: Seq<char>) -> Seq<char> {
    joined(package_dir(cwd, PACKAGE_NAME@), "bin"@)
}

/// The arguments that start the server over standard input and output, with the
/// locations where it looks for TypeScript and for Angular.
pub open spec fn server_args_of(cwd: Seq<char>) -> Seq<Seq<char>> {
    seq![
        joined(server_bin_dir(cwd), "ngserver"@),
        "--stdio"@,
        "--tsProbeLocations"@,
        typescript_lib_dir(cwd),
        "--ngProbeLocations"@,
        server_bin_dir(cwd),
    ]
}

/// The directory where `package_name` is installed under the working directory `cwd`.
pub fn get_package_path(cwd: &str, package_name: &str) -> (r: String)
    ensures
        r@ == package_dir(cwd@, package_name@),
{
    let modules = join_path(cwd, "node_modules");
    join_path(modules.as_str(), package_name)
}

/// The TypeScript library under the working directory `cwd`.
pub fn typescript_lib_path(cwd: &str) -> (r: String)
    ensures
        r@ == typescript_lib_dir(cwd@),
{
    let modules = join_path(cwd, "node_modules");
    let typescript = join_path(modules.as_str(), "typescript");
    join_path(typescript.as_str(), "lib")
}

/// The arguments that start the server from the working directory `cwd`.
pub fn server_args(cwd: &str) -> (r: Vec<String>)
    ensures
        r@.len() == 6,
        forall|i: int| 0 <= i < 6 ==> #[trigger] r@[i]@ == server_args_of(cwd@)[i],
{
    let package = get_package_path(cwd, PACKAGE_NAME);
    let bin = join_path(package.as_str(), "bin");
    let server = join_path(bin.as_str(), "ngserver");
    let typescript = typescript_lib_path(cwd);
    let mut r: Vec<String> = Vec::new();
    r.push(server);
    r.push("--stdio".to_owned());
    r.push("--tsProbeLocations".to_owned());
    r.push(typescript);
    r.push("--ngProbeLocations".to_owned());
    r.push(bin);
    r
}

/// How the host starts the server: a program, its arguments and extra environment
/// variables.
pub struct LaunchCommand {
    pub command: String,
    pub args: Vec<String>,
    pub env: Vec<(String, String)>,
}

/// The command that runs the server with the runtime at `runtime_path`, from the working
/// directory `cwd`, with no extra environment.
pub fn launch_command(runtime_path: String, cwd: &str) -> (r: LaunchCommand)
    ensures
        r.command@ == runtime_path@,
        r.args@.len() == 6,
        forall|i: int| 0 <= i < 6 ==> #[trigger] r.args@[i]@ == server_args_of(cwd@)[i],
        r.env@.len() == 0,
{
    LaunchCommand { command: runtime_path, args: server_args(cwd), env: Vec::new() }
}

/// The options the server starts with: where TypeScript is, if known, and Angular support
/// on, without experimental diagnostics.
pub struct InitializationOptions {
    pub tsdk: Option<String>,
    pub angular_enable: bool,
    pub enable_experimental_diagnostics: bool,
}

/// The initialization options, given the working directory where it could be read.
pub fn initialization_options(cwd: Option<&str>) -> (r: InitializationOptions)
    ensures
        cwd is None ==> r.tsdk is None,
        cwd is Some ==> r.tsdk is Some && r.tsdk->Some_0@ == typescript_lib_dir(cwd->Some_0@),
        r.angular_enable,
        !r.enable_experimental_diagnostics,
{
    let tsdk = match cwd {
        Some(d) => Some(typescript_lib_path(d)),
        None => None,
    };
    InitializationOptions { tsdk, angular_enable: true, enable_experimental_diagnostics: false }
}

/// Joining a relative, non-empty `part` onto a non-empty `base` that does not end in a
/// separator puts one separator between them.
proof fn lemma_joined_relative(base: Seq<char>, part: Seq<char>)
    requires
        base.len() > 0,
        base.last() != '/',
        part.len() > 0,
        part[0] != '/',
    ensures
        joined(base, part) == base + seq!['/'] + part,
        joined(base, part).len() > 0,
        joined(base, part).last() == part.last(),
{
}

/// From a working directory `d` that is not empty and does not end in a separator, the
/// server's arguments are, in this order: `d/node_modules/@angular/language-server/bin/ngserver`,
/// `--stdio`, `--tsProbeLocations`, `d/node_modules/typescript/lib`, `--ngProbeLocations`
/// and `d/node_modules/@angular/language-server/bin`.
pub proof fn lemma_server_args_layout(d: Seq<char>)
    requires
        d.len() > 0,
        d.last() != '/',
    ensures
        server_args_of(d) == seq![
            d + "/node_modules/@angular/language-server/bin/ngserver"@,
            "--stdio"@,
            "--tsProbeLocations"@,
            d + "/node_modules/typescript/lib"@,
            "--ngProbeLocations"@,
            d + "/node_modules/@angular/language-server/bin"@,
        ],
{
    let sep = seq!['/'];
    assert("node_modules"@.len() > 0 && "node_modules"@[0] != '/' && "node_modules"@.last() != '/')
        by {
        reveal_strlit("node_modules");
    }
    assert(PACKAGE_NAME@.len() > 0 && PACKAGE_NAME@[0] != '/' && PACKAGE_NAME@.last() != '/') by {
        reveal_strlit("@angular/language-server");
    }
    assert("typescript"@.len() > 0 && "typescript"@[0] != '/' && "typescript"@.last() != '/') by {
        reveal_strlit("typescript");
    }
    assert("bin"@.len() > 0 && "bin"@[0] != '/' && "bin"@.last() != '/') by {
        reveal_strlit("bin");
    }
    assert("lib"@.len() > 0 && "lib"@[0] != '/') by {
        reveal_strlit("lib");
    }
    assert("ngserver"@.len() > 0 && "ngserver"@[0] != '/') by {
        reveal_strlit("ngserver");
    }
    lemma_joined_relative(d, "node_modules"@);
    let modules = joined(d, "node_modules"@);
    lemma_joined_relative(modules, PACKAGE_NAME@);
    let package = joined(modules, PACKAGE_NAME@);
    lemma_joined_relative(package, "bin"@);
    let bin = joined(package, "bin"@);
    lemma_joined_relative(bin, "ngserver"@);
    lemma_joined_relative(modules, "typescript"@);
    let typescript = joined(modules, "typescript"@);
    lemma_joined_relative(typescript, "lib"@);
    assert(bin =~= d + "/node_modules/@angular/language-server/bin"@) by {
        assert(sep + "node_modules"@ + sep + PACKAGE_NAME@ + sep + "bin"@
            =~= "/node_modules/@angular/language-server/bin"@) by {
            reveal_strlit("node_modules");
            reveal_strlit("@angular/language-server");
            reveal_strlit("bin");
            reveal_strlit("/node_modules/@angular/language-server/bin");
        }
    }
    assert(joined(bin, "ngserver"@) =~= d + "/node_modules/@angular/language-server/bin/ngserver"@)
        by {
        assert("/node_modules/@angular/language-server/bin"@ + sep + "ngserver"@
            =~= "/node_modules/@angular/language-server/bin/ngserver"@) by {
            reveal_strlit("ngserver");
            reveal_strlit("/node_modules/@angular/language-server/bin");
            reveal_strlit("/node_modules/@angular/language-server/bin/ngserver");
        }
    }
    assert(joined(typescript, "lib"@) =~= d + "/node_modules/typescript/lib"@) by {
        assert(sep + "node_modules"@ + sep + "typescript"@ + sep + "lib"@
            =~= "/node_modules/typescript/lib"@) by {
            reveal_strlit("node_modules");
            reveal_strlit("typescript");
            reveal_strlit("lib");
            reveal_strlit("/node_modules/typescript/lib");
        }
    }
}

} // verus!
