//! Cargo invocations and the command lines that run them.

use crate::text::string_of;
use vstd::prelude::*;

verus! {

/// A target to build for with cargo.
#[derive(Clone, Copy, Debug, PartialEq, Eq, Structural)]
pub enum Triple {
    /// The host's target.
    Default,
    /// 64-bit ARM UEFI.
    AArch64UnknownUefi,
    /// 32-bit x86 UEFI.
    I686UnknownUefi,
    /// 64-bit x86 UEFI.
    X86_64UnknownUefi,
}

/// The name of a UEFI target triple.
pub open spec fn triple_name(t: Triple) -> Seq<char> {
    match t {
        Triple::AArch64UnknownUefi => "aarch64-unknown-uefi"@,
        Triple::I686UnknownUefi => "i686-unknown-uefi"@,
        _ => "x86_64-unknown-uefi"@,
    }
}

/// A package of the workspace.
#[derive(Clone, Copy, Debug, PartialEq, Eq, Structural)]
pub enum Package {
    Uefi,
    UefiApp,
    UefiMacros,
    UefiServices,
    UefiTestRunner,
    Xtask,
}

/// The name of a package.
pub open spec fn package_name(p: Package) -> Seq<char> {
    match p {
        Package::Uefi => "uefi"@,
        Package::UefiApp => "uefi_app"@,
        Package::UefiMacros => "uefi-macros"@,
        Package::UefiServices => "uefi-services"@,
        Package::UefiTestRunner => "uefi-test-runner"@,
        Package::Xtask => "xtask"@,
    }
}

impl Package {
    /// The name of the package.
    pub fn as_str(self) -> (s: &'static str)
        ensures
            s@ == package_name(self),
    {
        match self {
            Package::Uefi => "uefi",
            Package::UefiApp => "uefi_app",
            Package::UefiMacros => "uefi-macros",
            Package::UefiServices => "uefi-services",
            Package::UefiTestRunner => "uefi-test-runner",
            Package::Xtask => "xtask",
        }
    }

    /// All published packages.
    pub fn published() -> (v: Vec<Package>)
        ensures
            v@ == seq![Package::Uefi, Package::UefiMacros, Package::UefiServices],
    {
        let mut v = Vec::new();
        v.push(Package::Uefi);
        v.push(Package::UefiMacros);
        v.push(Package::UefiServices);
        v
    }

    /// All the packages except for xtask.
    pub fn all_except_xtask() -> (v: Vec<Package>)
        ensures
            v@ == seq![
                Package::Uefi,
                Package::UefiApp,
                Package::UefiMacros,
                Package::UefiServices,
                Package::UefiTestRunner,
            ],
    {
        let mut v = Vec::new();
        v.push(Package::Uefi);
        v.push(Package::UefiApp);
        v.push(Package::UefiMacros);
        v.push(Package::UefiServices);
        v.push(Package::UefiTestRunner);
        v
    }
}

/// Which features of the packages to enable.
#[derive(Clone, Copy, Debug, PartialEq, Eq, Structural)]
pub enum Features {
    /// Don't enable any extra features.
    NoFeatures,
    /// Just the exts feature.
    Exts,
    /// All the features in the uefi package that enable more code.
    MoreCode,
    /// The test runner's feature for running in QEMU.
    Qemu,
    /// The test runner's features for running in QEMU in CI.
    QemuCi,
}

/// The comma-separated features to pass to cargo, if any.
pub open spec fn features_text(f: Features) -> Option<Seq<char>> {
    match f {
        Features::NoFeatures => Option::None,
        Features::Exts => Some("exts"@),
        Features::MoreCode => Some("alloc,exts,logger"@),
        Features::Qemu => Some("qemu"@),
        Features::QemuCi => Some("qemu,ci"@),
    }
}

impl Features {
    /// The comma-separated features to pass to cargo, if any.
    pub fn as_comma_separated_str(&self) -> (r: Option<&'static str>)
        ensures
            match r {
                Some(s) => features_text(*self) == Some(s@),
                Option::None => features_text(*self) is None,
            },
    {
        match self {
            Features::NoFeatures => Option::None,
            Features::Exts => Some("exts"),
            Features::MoreCode => Some("alloc,exts,logger"),
            Features::Qemu => Some("qemu"),
            Features::QemuCi => Some("qemu,ci"),
        }
    }
}

/// What cargo is asked to do.
#[derive(Clone, Copy, Debug, PartialEq, Eq, Structural)]
pub enum CargoAction {
    Build,
    Clippy,
    Doc { open: bool },
    Test,
}

/// A cargo invocation.
#[derive(Debug)]
pub struct Cargo {
    pub action: CargoAction,
    pub features: Features,
    pub nightly: bool,
    pub packages: Vec<Package>,
    pub target: Triple,
    pub warnings_as_errors: bool,
}

/// A command to run: a program, an environment variable to set, and the
/// arguments.
#[derive(Debug)]
pub struct CommandLine {
    /// The program.
    pub program: String,
    /// An environment variable to set, if any.
    pub env: Option<(String, String)>,
    /// The arguments, in order.
    pub args: Vec<String>,
}

/// The views of some strings.
pub open spec fn views(v: Seq<String>) -> Seq<Seq<char>> {
    v.map_values(|s: String| s@)
}

/// The cargo subcommand of an action.
pub open spec fn action_name(a: CargoAction) -> Seq<char> {
    match a {
        CargoAction::Build => "build"@,
        CargoAction::Clippy => "clippy"@,
        CargoAction::Doc { .. } => "doc"@,
        CargoAction::Test => "test"@,
    }
}

/// The arguments that a cargo invocation passes after its package and
/// feature arguments.
pub open spec fn extra_args(c: Cargo) -> Seq<Seq<char>> {
    match c.action {
        CargoAction::Build => if c.warnings_as_errors {
            seq!["-D"@, "warnings"@]
        } else {
            Seq::empty()
        },
        CargoAction::Doc { open } => if open {
            seq!["--open"@]
        } else {
            Seq::empty()
        },
        _ => Seq::empty(),
    }
}

/// The arguments that a cargo invocation passes to the tool it runs.
pub open spec fn tool_args(c: Cargo) -> Seq<Seq<char>> {
    match c.action {
        CargoAction::Clippy => if c.warnings_as_errors {
            seq!["-D"@, "warnings"@]
        } else {
            Seq::empty()
        },
        _ => Seq::empty(),
    }
}

/// The arguments that select a target.
pub open spec fn target_args(t: Triple) -> Seq<Seq<char>> {
    match t {
        Triple::Default => Seq::empty(),
        _ => seq![
            "--target"@,
            triple_name(t),
            "-Zbuild-std=core,compiler_builtins,alloc"@,
            "-Zbuild-std-features=compiler-builtins-mem"@,
        ],
    }
}

/// `--package` and the name of each package, in order.
pub open spec fn package_args(ps: Seq<Package>) -> Seq<Seq<char>>
    decreases ps.len(),
{
    if ps.len() == 0 {
        Seq::empty()
    } else {
        package_args(ps.drop_last()) + seq!["--package"@, package_name(ps.last())]
    }
}

/// All the arguments of a cargo invocation.
pub open spec fn cargo_args(c: Cargo) -> Seq<Seq<char>> {
    (if c.nightly {
        seq!["+nightly"@]
    } else {
        Seq::empty()
    }) + seq![action_name(c.action)] + target_args(c.target) + package_args(c.packages@) + (
    match features_text(c.features) {
        Some(f) => seq!["--features"@, f],
        Option::None => Seq::empty(),
    }) + extra_args(c) + (if tool_args(c).len() > 0 {
        seq!["--"@] + tool_args(c)
    } else {
        Seq::empty()
    })
}

fn push_arg(args: &mut Vec<String>, a: &str)
    ensures
        views(final(args)@) == views(old(args)@).push(a@),
{
    let ghost before = args@;
    args.push(string_of(a));
    assert(views(args@) =~= views(before).push(a@));
}

fn append_args(args: &mut Vec<String>, more: Vec<String>)
    ensures
        views(final(args)@) == views(old(args)@) + views(more@),
{
    let ghost before = args@;
    let mut more = more;
    let ghost added = more@;
    args.append(&mut more);
    assert(views(args@) =~= views(before) + views(added));
}

fn target_part(t: Triple) -> (v: Vec<String>)
    ensures
        views(v@) == target_args(t),
{
    let mut v = Vec::new();
    match t {
        Triple::Default => {},
        _ => {
            let name = match t {
                Triple::AArch64UnknownUefi => "aarch64-unknown-uefi",
                Triple::I686UnknownUefi => "i686-unknown-uefi",
                _ => "x86_64-unknown-uefi",
            };
            push_arg(&mut v, "--target");
            push_arg(&mut v, name);
            push_arg(&mut v, "-Zbuild-std=core,compiler_builtins,alloc");
            push_arg(&mut v, "-Zbuild-std-features=compiler-builtins-mem");
        },
    }
    assert(views(v@) =~= target_args(t));
    v
}

fn packages_part(packages: &Vec<Package>) -> (v: Vec<String>)
    ensures
        views(v@) == package_args(packages@),
{
    let mut v: Vec<String> = Vec::new();
    let mut i: usize = 0;
    while i < packages.len()
        invariant
            i <= packages@.len(),
            views(v@) == package_args(packages@.subrange(0, i as int)),
        decreases packages@.len() - i,
    {
        push_arg(&mut v, "--package");
        push_arg(&mut v, packages[i].as_str());
        i = i + 1;
        assert(packages@.subrange(0, i as int).drop_last() =~= packages@.subrange(0, i - 1));
        assert(views(v@) =~= package_args(packages@.subrange(0, i as int)));
    }
    assert(packages@.subrange(0, packages@.len() as int) =~= packages@);
    v
}

fn features_part(f: Features) -> (v: Vec<String>)
    ensures
        views(v@) == match features_text(f) {
            Some(t) => seq!["--features"@, t],
            Option::None => Seq::<Seq<char>>::empty(),
        },
{
    let mut v = Vec::new();
    match f.as_comma_separated_str() {
        Some(features) => {
            push_arg(&mut v, "--features");
            push_arg(&mut v, features);
        },
        Option::None => {},
    }
    assert(views(v@) =~= match features_text(f) {
        Some(t) => seq!["--features"@, t],
        Option::None => Seq::<Seq<char>>::empty(),
    });
    v
}

impl Cargo {
    fn extra_part(&self) -> (v: Vec<String>)
        ensures
            views(v@) == extra_args(*self),
    {
        let mut v = Vec::new();
        match self.action {
            CargoAction::Build => {
                if self.warnings_as_errors {
                    push_arg(&mut v, "-D");
                    push_arg(&mut v, "warnings");
                }
            },
            CargoAction::Doc { open } => {
                if open {
                    push_arg(&mut v, "--open");
                }
            },
            _ => {},
        }
        assert(views(v@) =~= extra_args(*self));
        v
    }

    fn tool_part(&self) -> (v: Vec<String>)
        ensures
            views(v@) == if tool_args(*self).len() > 0 {
                seq!["--"@] + tool_args(*self)
            } else {
                Seq::empty()
            },
    {
        let mut v = Vec::new();
        match self.action {
            CargoAction::Clippy => {
                if self.warnings_as_errors {
                    push_arg(&mut v, "--");
                    push_arg(&mut v, "-D");
                    push_arg(&mut v, "warnings");
                }
            },
            _ => {},
        }
        assert(views(v@) =~= if tool_args(*self).len() > 0 {
            seq!["--"@] + tool_args(*self)
        } else {
            Seq::empty()
        });
        v
    }

    /// The command that runs this cargo invocation.
    ///
    /// Tests cannot treat warnings as errors, and there must be at least one
    /// package.
    pub fn command(&self) -> (cmd: CommandLine)
        requires
            !(self.action == CargoAction::Test && self.warnings_as_errors),
            self.packages@.len() > 0,
        ensures
            cmd.program@ == "cargo"@,
            views(cmd.args@) == cargo_args(*self),
            match cmd.env {
                Some((k, v)) => k@ == "RUSTDOCFLAGS"@ && v@ == "-Dwarnings"@ && self.action is Doc
                    && self.warnings_as_errors,
                Option::None => !(self.action is Doc && self.warnings_as_errors),
            },
    {
        let mut args: Vec<String> = Vec::new();
        let mut env: Option<(String, String)> = Option::None;
        if self.nightly {
            push_arg(&mut args, "+nightly");
        }
        let action = match self.action {
            CargoAction::Build => "build",
            CargoAction::Clippy => "clippy",
            CargoAction::Doc { open } => {
                if self.warnings_as_errors {
                    env = Some((string_of("RUSTDOCFLAGS"), string_of("-Dwarnings")));
                }
                "doc"
            },
            CargoAction::Test => "test",
        };
        push_arg(&mut args, action);
        let ghost head = views(args@);
        assert(head =~= (if self.nightly {
            seq!["+nightly"@]
        } else {
            Seq::empty()
        }) + seq![action_name(self.action)]);
        append_args(&mut args, target_part(self.target));
        append_args(&mut args, packages_part(&self.packages));
        append_args(&mut args, features_part(self.features));
        append_args(&mut args, self.extra_part());
        append_args(&mut args, self.tool_part());
        assert(views(args@) =~= cargo_args(*self));
        CommandLine { program: string_of("cargo"), env, args }
    }
}


/// Distinct UEFI targets have distinct names: the 64-bit ARM, 32-bit x86
/// and 64-bit x86 targets are named "aarch64-unknown-uefi",
/// "i686-unknown-uefi" and "x86_64-unknown-uefi".
pub proof fn lemma_triple_names(t1: Triple, t2: Triple)
    requires
        t1 != Triple::Default,
        t2 != Triple::Default,
    ensures
        t1 != t2 ==> triple_name(t1) != triple_name(t2),
        t1 == Triple::AArch64UnknownUefi ==> triple_name(t1) == "aarch64-unknown-uefi"@,
        t1 == Triple::I686UnknownUefi ==> triple_name(t1) == "i686-unknown-uefi"@,
        t1 == Triple::X86_64UnknownUefi ==> triple_name(t1) == "x86_64-unknown-uefi"@,
{
    reveal_strlit("aarch64-unknown-uefi");
    reveal_strlit("i686-unknown-uefi");
    reveal_strlit("x86_64-unknown-uefi");
    assert("aarch64-unknown-uefi"@.len() == 20);
    assert("i686-unknown-uefi"@.len() == 17);
    assert("x86_64-unknown-uefi"@.len() == 19);
}

/// A cargo invocation for a UEFI target names it right after `--target`,
/// which follows the subcommand (and the toolchain, when nightly).
pub proof fn lemma_target_follows_flag(c: Cargo)
    requires
        c.target != Triple::Default,
    ensures
        ({
            let k: int = if c.nightly { 2 } else { 1 };
            &&& cargo_args(c)[k] == "--target"@
            &&& cargo_args(c)[k + 1] == triple_name(c.target)
        }),
{
    let pre = (if c.nightly {
        seq!["+nightly"@]
    } else {
        Seq::<Seq<char>>::empty()
    }) + seq![action_name(c.action)];
    assert(target_args(c.target).len() == 4);
    assert(pre.len() == if c.nightly { 2int } else { 1int });
}

proof fn lemma_package_args_lack(ps: Seq<Package>, x: Seq<char>)
    requires
        x.len() == 6 || x.len() == 12,
    ensures
        forall|i: int| 0 <= i < package_args(ps).len() ==> package_args(ps)[i] != x,
    decreases ps.len(),
{
    reveal_strlit("--package");
    reveal_strlit("uefi");
    reveal_strlit("uefi_app");
    reveal_strlit("uefi-macros");
    reveal_strlit("uefi-services");
    reveal_strlit("uefi-test-runner");
    reveal_strlit("xtask");
    if ps.len() > 0 {
        lemma_package_args_lack(ps.drop_last(), x);
        let p = ps.last();
        assert(package_name(p).len() != 6 && package_name(p).len() != 12);
        assert("--package"@.len() == 9);
        let front = package_args(ps.drop_last());
        let back = seq!["--package"@, package_name(p)];
        assert(package_args(ps) == front + back);
        assert forall|i: int| 0 <= i < package_args(ps).len() implies package_args(ps)[i] != x by {
            if i < front.len() {
                assert(package_args(ps)[i] == front[i]);
            } else {
                assert(package_args(ps)[i] == back[i - front.len()]);
            }
        }
    }
}

/// A cargo invocation passes `--open` exactly when it builds the docs and
/// opens them.
pub proof fn lemma_open_flag(c: Cargo)
    ensures
        cargo_args(c).contains("--open"@) <==> c.action == (CargoAction::Doc { open: true }),
{
    let x = "--open"@;
    reveal_strlit("--open");
    reveal_strlit("+nightly");
    reveal_strlit("build");
    reveal_strlit("clippy");
    reveal_strlit("doc");
    reveal_strlit("test");
    reveal_strlit("--target");
    reveal_strlit("aarch64-unknown-uefi");
    reveal_strlit("i686-unknown-uefi");
    reveal_strlit("x86_64-unknown-uefi");
    reveal_strlit("-Zbuild-std=core,compiler_builtins,alloc");
    reveal_strlit("-Zbuild-std-features=compiler-builtins-mem");
    reveal_strlit("--features");
    reveal_strlit("exts");
    reveal_strlit("alloc,exts,logger");
    reveal_strlit("qemu");
    reveal_strlit("qemu,ci");
    reveal_strlit("-D");
    reveal_strlit("warnings");
    reveal_strlit("--");
    assert(x.len() == 6);
    assert("clippy"@[0] != x[0]);
    lemma_package_args_lack(c.packages@, x);
    let nightly = if c.nightly {
        seq!["+nightly"@]
    } else {
        Seq::<Seq<char>>::empty()
    };
    let features = match features_text(c.features) {
        Some(f) => seq!["--features"@, f],
        Option::None => Seq::<Seq<char>>::empty(),
    };
    let tool = if tool_args(c).len() > 0 {
        seq!["--"@] + tool_args(c)
    } else {
        Seq::<Seq<char>>::empty()
    };
    let before = nightly + seq![action_name(c.action)] + target_args(c.target) + package_args(c.packages@)
        + features;
    assert(forall|i: int| 0 <= i < before.len() ==> before[i] != x);
    assert(forall|i: int| 0 <= i < tool.len() ==> tool[i] != x);
    assert(cargo_args(c) == before + extra_args(c) + tool);
    if c.action == (CargoAction::Doc { open: true }) {
        assert(cargo_args(c)[before.len() as int] == x);
    } else {
        assert(forall|i: int| 0 <= i < extra_args(c).len() ==> extra_args(c)[i] != x);
        assert(forall|i: int| 0 <= i < cargo_args(c).len() ==> cargo_args(c)[i] != x);
    }
}

} // verus!
