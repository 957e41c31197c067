//! The tool's tasks as the commands they run: building, linting, building
//! the docs, testing on the host and in a VM, and the CI jobs made of them.

use crate::text::{push_char, push_str, string_of};
use crate::xtask::arch::UefiArch;
use crate::xtask::cargo::{
    views, Cargo, CargoAction, CommandLine, Features, Package, Triple,
};
use crate::xtask::opt::{BuildOpt, CiJob, ClippyOpt, DocOpt, QemuOpt};
use crate::xtask::qemu::{join, join_path};
use vstd::prelude::*;

verus! {

/// The cargo target that builds for an architecture.
pub open spec fn arch_target(arch: UefiArch) -> Triple {
    match arch {
        UefiArch::AArch64 => Triple::AArch64UnknownUefi,
        UefiArch::IA32 => Triple::I686UnknownUefi,
        UefiArch::X86_64 => Triple::X86_64UnknownUefi,
    }
}

/// The cargo target that builds for an architecture.
pub fn cargo_target(arch: UefiArch) -> (t: Triple)
    ensures
        t == arch_target(arch),
{
    match arch {
        UefiArch::AArch64 => Triple::AArch64UnknownUefi,
        UefiArch::IA32 => Triple::I686UnknownUefi,
        UefiArch::X86_64 => Triple::X86_64UnknownUefi,
    }
}

/// A named list of packages.
#[derive(Clone, Copy, Debug, PartialEq, Eq, Structural)]
pub enum PackageSet {
    /// All the packages except for xtask.
    AllExceptXtask,
    /// The published packages.
    Published,
    /// The packages whose tests run on the host.
    HostTested,
    /// The tool itself.
    Xtask,
    /// The test runner.
    TestRunner,
}

/// The packages of a set, in order.
pub open spec fn package_set(s: PackageSet) -> Seq<Package> {
    match s {
        PackageSet::AllExceptXtask => seq![
            Package::Uefi,
            Package::UefiApp,
            Package::UefiMacros,
            Package::UefiServices,
            Package::UefiTestRunner,
        ],
        PackageSet::Published => seq![Package::Uefi, Package::UefiMacros, Package::UefiServices],
        PackageSet::HostTested => seq![Package::Uefi, Package::UefiMacros, Package::Xtask],
        PackageSet::Xtask => seq![Package::Xtask],
        PackageSet::TestRunner => seq![Package::UefiTestRunner],
    }
}

/// What a cargo invocation is, with its packages named by their set.
#[derive(Clone, Copy, Debug, PartialEq, Eq, Structural)]
pub struct CargoDesc {
    pub action: CargoAction,
    pub features: Features,
    pub nightly: bool,
    pub packages: PackageSet,
    pub target: Triple,
    pub warnings_as_errors: bool,
}

/// Whether a cargo invocation is the one described.
pub open spec fn cargo_is(c: Cargo, d: CargoDesc) -> bool {
    &&& c.action == d.action
    &&& c.features == d.features
    &&& c.nightly == d.nightly
    &&& c.packages@ == package_set(d.packages)
    &&& c.target == d.target
    &&& c.warnings_as_errors == d.warnings_as_errors
}

fn make_cargo(d: CargoDesc) -> (c: Cargo)
    ensures
        cargo_is(c, d),
{
    let packages = match d.packages {
        PackageSet::AllExceptXtask => Package::all_except_xtask(),
        PackageSet::Published => Package::published(),
        PackageSet::HostTested => {
            let mut v = Vec::new();
            v.push(Package::Uefi);
            v.push(Package::UefiMacros);
            v.push(Package::Xtask);
            assert(v@ =~= package_set(PackageSet::HostTested));
            v
        },
        PackageSet::Xtask => {
            let mut v = Vec::new();
            v.push(Package::Xtask);
            assert(v@ =~= package_set(PackageSet::Xtask));
            v
        },
        PackageSet::TestRunner => {
            let mut v = Vec::new();
            v.push(Package::UefiTestRunner);
            assert(v@ =~= package_set(PackageSet::TestRunner));
            v
        },
    };
    Cargo {
        action: d.action,
        features: d.features,
        nightly: d.nightly,
        packages,
        target: d.target,
        warnings_as_errors: d.warnings_as_errors,
    }
}

/// The invocation that builds all the packages but xtask for a target.
pub open spec fn build_desc(t: Triple) -> CargoDesc {
    CargoDesc {
        action: CargoAction::Build,
        features: Features::MoreCode,
        nightly: true,
        packages: PackageSet::AllExceptXtask,
        target: t,
        warnings_as_errors: false,
    }
}

/// The two clippy invocations: on the UEFI packages for a target, then on
/// the tool itself for the host.
pub open spec fn clippy_descs(t: Triple, warnings_as_errors: bool) -> (CargoDesc, CargoDesc) {
    (
        CargoDesc {
            action: CargoAction::Clippy,
            features: Features::MoreCode,
            nightly: true,
            packages: PackageSet::AllExceptXtask,
            target: t,
            warnings_as_errors,
        },
        CargoDesc {
            action: CargoAction::Clippy,
            features: Features::NoFeatures,
            nightly: false,
            packages: PackageSet::Xtask,
            target: Triple::Default,
            warnings_as_errors,
        },
    )
}

/// The invocation that builds the docs of the published packages.
pub open spec fn doc_desc(opt: DocOpt) -> CargoDesc {
    CargoDesc {
        action: CargoAction::Doc { open: opt.open },
        features: Features::MoreCode,
        nightly: true,
        packages: PackageSet::Published,
        target: Triple::Default,
        warnings_as_errors: opt.warnings_as_errors,
    }
}

/// The invocation that runs the unit tests and doctests on the host.
pub open spec fn host_test_desc() -> CargoDesc {
    CargoDesc {
        action: CargoAction::Test,
        features: Features::Exts,
        nightly: false,
        packages: PackageSet::HostTested,
        target: Triple::Default,
        warnings_as_errors: false,
    }
}

/// The cargo invocation that builds all the packages but xtask.
pub fn build(opt: &BuildOpt) -> (c: Cargo)
    ensures
        cargo_is(c, build_desc(arch_target(opt.target))),
{
    make_cargo(
        CargoDesc {
            action: CargoAction::Build,
            features: Features::MoreCode,
            nightly: true,
            packages: PackageSet::AllExceptXtask,
            target: cargo_target(opt.target),
            warnings_as_errors: false,
        },
    )
}

/// The cargo invocations that run clippy: on all the UEFI packages, then on
/// xtask.
pub fn clippy(opt: &ClippyOpt) -> (r: (Cargo, Cargo))
    ensures
        cargo_is(r.0, clippy_descs(arch_target(opt.target), opt.warnings_as_errors).0),
        cargo_is(r.1, clippy_descs(arch_target(opt.target), opt.warnings_as_errors).1),
{
    let uefi = make_cargo(
        CargoDesc {
            action: CargoAction::Clippy,
            features: Features::MoreCode,
            nightly: true,
            packages: PackageSet::AllExceptXtask,
            target: cargo_target(opt.target),
            warnings_as_errors: opt.warnings_as_errors,
        },
    );
    let xtask = make_cargo(
        CargoDesc {
            action: CargoAction::Clippy,
            features: Features::NoFeatures,
            nightly: false,
            packages: PackageSet::Xtask,
            target: Triple::Default,
            warnings_as_errors: opt.warnings_as_errors,
        },
    );
    (uefi, xtask)
}

/// The cargo invocation that builds the docs.
pub fn doc(opt: &DocOpt) -> (c: Cargo)
    ensures
        cargo_is(c, doc_desc(*opt)),
{
    make_cargo(
        CargoDesc {
            action: CargoAction::Doc { open: opt.open },
            features: Features::MoreCode,
            nightly: true,
            packages: PackageSet::Published,
            target: Triple::Default,
            warnings_as_errors: opt.warnings_as_errors,
        },
    )
}

/// The cargo invocation that runs the unit tests and doctests on the host.
///
/// Most of the library is tested in a VM, but a few things like macros and
/// data types can be tested with regular tests. The packages that have lang
/// items conflicting with `std` are left out, and the host's target is used
/// so that the tests run without a VM.
pub fn run_host_tests() -> (c: Cargo)
    ensures
        cargo_is(c, host_test_desc()),
{
    make_cargo(
        CargoDesc {
            action: CargoAction::Test,
            features: Features::Exts,
            nightly: false,
            packages: PackageSet::HostTested,
            target: Triple::Default,
            warnings_as_errors: false,
        },
    )
}

/// The command that checks the formatting of all the packages.
pub fn check_formatting() -> (cmd: CommandLine)
    ensures
        cmd.program@ == "cargo"@,
        cmd.env is None,
        views(cmd.args@) == seq!["fmt"@, "--check"@, "--all"@],
{
    let mut args: Vec<String> = Vec::new();
    args.push(string_of("fmt"));
    args.push(string_of("--check"));
    args.push(string_of("--all"));
    assert(views(args@) =~= seq!["fmt"@, "--check"@, "--all"@]);
    CommandLine { program: string_of("cargo"), env: None, args }
}

/// A step of a task.
#[derive(Debug)]
pub enum Step {
    /// Run cargo.
    Cargo(Cargo),
    /// Check the formatting.
    CheckFormatting,
    /// Build the test runner and run it in QEMU.
    VmTest(QemuOpt),
}

/// What a step is.
#[derive(Clone, Copy, Debug, PartialEq, Eq, Structural)]
pub enum StepDesc {
    Cargo(CargoDesc),
    CheckFormatting,
    /// A VM test with these options and no OVMF directory.
    VmTest { target: UefiArch, release: bool, disable_kvm: bool, ci: bool, headless: bool },
}

/// Whether a step is the one described.
pub open spec fn step_is(s: Step, d: StepDesc) -> bool {
    match (s, d) {
        (Step::Cargo(c), StepDesc::Cargo(cd)) => cargo_is(c, cd),
        (Step::CheckFormatting, StepDesc::CheckFormatting) => true,
        (Step::VmTest(o), StepDesc::VmTest { target, release, disable_kvm, ci, headless }) => {
            &&& o.target == target
            &&& o.release == release
            &&& o.disable_kvm == disable_kvm
            &&& o.ci == ci
            &&& o.headless == headless
            &&& o.ovmf_dir is None
        },
        _ => false,
    }
}

/// Whether each step is the one described, in order.
pub open spec fn steps_are(s: Seq<Step>, d: Seq<StepDesc>) -> bool {
    s.len() == d.len() && forall|i: int| 0 <= i < s.len() ==> step_is(#[trigger] s[i], d[i])
}

/// The steps of the lint job: the formatting, clippy with warnings as errors
/// for 64-bit x86, and the docs with warnings as errors.
pub open spec fn lint_plan() -> Seq<StepDesc> {
    seq![
        StepDesc::CheckFormatting,
        StepDesc::Cargo(clippy_descs(Triple::X86_64UnknownUefi, true).0),
        StepDesc::Cargo(clippy_descs(Triple::X86_64UnknownUefi, true).1),
        StepDesc::Cargo(doc_desc(DocOpt { open: false, warnings_as_errors: true })),
    ]
}

/// The steps of the VM test job.
pub open spec fn vm_test_plan() -> Seq<StepDesc> {
    seq![
        StepDesc::VmTest {
            target: UefiArch::X86_64,
            release: false,
            disable_kvm: true,
            ci: true,
            headless: true,
        },
    ]
}

/// The steps of a CI job. `All` runs the 64-bit ARM build, the VM test,
/// the host tests and the lint job in turn.
pub open spec fn ci_plan(job: CiJob) -> Seq<StepDesc> {
    match job {
        CiJob::BuildAArch64 => seq![StepDesc::Cargo(build_desc(Triple::AArch64UnknownUefi))],
        CiJob::VmTestX86_64 => vm_test_plan(),
        CiJob::HostTest => seq![StepDesc::Cargo(host_test_desc())],
        CiJob::Lint => lint_plan(),
        CiJob::All => seq![StepDesc::Cargo(build_desc(Triple::AArch64UnknownUefi))] + vm_test_plan()
            + seq![StepDesc::Cargo(host_test_desc())] + lint_plan(),
    }
}

fn push_step(steps: &mut Vec<Step>, s: Step, Ghost(descs): Ghost<Seq<StepDesc>>, Ghost(d): Ghost<StepDesc>)
    requires
        steps_are(old(steps)@, descs),
        step_is(s, d),
    ensures
        steps_are(final(steps)@, descs.push(d)),
{
    steps.push(s);
    assert forall|i: int| 0 <= i < steps@.len() implies step_is(#[trigger] steps@[i], descs.push(d)[i]) by {
        if i < descs.len() {
            assert(steps@[i] == old(steps)@[i]);
        }
    }
}

fn push_job_steps(steps: &mut Vec<Step>, job: CiJob, Ghost(descs): Ghost<Seq<StepDesc>>)
    requires
        steps_are(old(steps)@, descs),
        job != CiJob::All,
    ensures
        steps_are(final(steps)@, descs + ci_plan(job)),
{
    match job {
        CiJob::BuildAArch64 => {
            let ghost d = StepDesc::Cargo(build_desc(Triple::AArch64UnknownUefi));
            push_step(
                steps,
                Step::Cargo(build(&BuildOpt { release: false, target: UefiArch::AArch64 })),
                Ghost(descs),
                Ghost(d),
            );
            assert(descs.push(d) =~= descs + seq![d]);
        },
        CiJob::VmTestX86_64 => {
            let ghost d = vm_test_plan()[0];
            push_step(
                steps,
                Step::VmTest(
                    QemuOpt {
                        target: UefiArch::X86_64,
                        release: false,
                        disable_kvm: true,
                        ci: true,
                        headless: true,
                        ovmf_dir: None,
                    },
                ),
                Ghost(descs),
                Ghost(d),
            );
            assert(descs.push(d) =~= descs + vm_test_plan());
        },
        CiJob::HostTest => {
            let ghost d = StepDesc::Cargo(host_test_desc());
            push_step(steps, Step::Cargo(run_host_tests()), Ghost(descs), Ghost(d));
            assert(descs.push(d) =~= descs + seq![d]);
        },
        _ => {
            let ghost p = lint_plan();
            push_step(steps, Step::CheckFormatting, Ghost(descs), Ghost(p[0]));
            let (a, b) = clippy(&ClippyOpt { target: UefiArch::X86_64, warnings_as_errors: true });
            push_step(steps, Step::Cargo(a), Ghost(descs.push(p[0])), Ghost(p[1]));
            push_step(steps, Step::Cargo(b), Ghost(descs.push(p[0]).push(p[1])), Ghost(p[2]));
            push_step(
                steps,
                Step::Cargo(doc(&DocOpt { open: false, warnings_as_errors: true })),
                Ghost(descs.push(p[0]).push(p[1]).push(p[2])),
                Ghost(p[3]),
            );
            assert(descs.push(p[0]).push(p[1]).push(p[2]).push(p[3]) =~= descs + p);
        },
    }
}

/// The steps of a CI job, in the order they run; running them stops at
/// the first that fails.
pub fn run_ci_job(job: CiJob) -> (r: Vec<Step>)
    ensures
        steps_are(r@, ci_plan(job)),
{
    let mut steps: Vec<Step> = Vec::new();
    assert(steps_are(steps@, Seq::<StepDesc>::empty()));
    match job {
        CiJob::All => {
            let ghost e = Seq::<StepDesc>::empty();
            push_job_steps(&mut steps, CiJob::BuildAArch64, Ghost(e));
            let ghost d1 = e + ci_plan(CiJob::BuildAArch64);
            push_job_steps(&mut steps, CiJob::VmTestX86_64, Ghost(d1));
            let ghost d2 = d1 + ci_plan(CiJob::VmTestX86_64);
            push_job_steps(&mut steps, CiJob::HostTest, Ghost(d2));
            let ghost d3 = d2 + ci_plan(CiJob::HostTest);
            push_job_steps(&mut steps, CiJob::Lint, Ghost(d3));
            assert(d3 + ci_plan(CiJob::Lint) =~= ci_plan(CiJob::All));
        },
        _ => {
            push_job_steps(&mut steps, job, Ghost(Seq::empty()));
            assert(Seq::<StepDesc>::empty() + ci_plan(job) =~= ci_plan(job));
        },
    }
    steps
}

/// The cargo target of an architecture is named by the architecture's
/// triple: "aarch64-unknown-uefi", "i686-unknown-uefi" or
/// "x86_64-unknown-uefi".
pub proof fn lemma_arch_target_name(arch: UefiArch)
    ensures
        arch_target(arch) != Triple::Default,
        crate::xtask::cargo::triple_name(arch_target(arch)) == crate::xtask::arch::arch_triple(arch),
        arch == UefiArch::IA32 ==> crate::xtask::cargo::triple_name(arch_target(arch)) == "i686-unknown-uefi"@,
        arch == UefiArch::AArch64 ==> crate::xtask::cargo::triple_name(arch_target(arch))
            == "aarch64-unknown-uefi"@,
        arch == UefiArch::X86_64 ==> crate::xtask::cargo::triple_name(arch_target(arch))
            == "x86_64-unknown-uefi"@,
{
}

/// The doc task passes `--open` to cargo exactly when its options ask for
/// the docs to be opened.
pub proof fn lemma_doc_opens_when_asked(opt: DocOpt, c: Cargo)
    requires
        cargo_is(c, doc_desc(opt)),
    ensures
        c.action is Doc,
        crate::xtask::cargo::cargo_args(c).contains("--open"@) <==> opt.open,
{
    crate::xtask::cargo::lemma_open_flag(c);
}

/// What running a list of steps does next: run the step at an index, or
/// finish with a result.
#[derive(Debug)]
pub enum JobNext<E> {
    RunStep(usize),
    Finish(Result<(), E>),
}

/// What follows the step at `index` of `len` steps, given how it went: its
/// failure ends the run with that failure; its success runs the next step,
/// or ends the run with success after the last one.
pub open spec fn job_next<E>(len: nat, index: nat, result: Result<(), E>) -> JobNext<E> {
    match result {
        Err(e) => JobNext::Finish(Err(e)),
        Ok(()) => if index + 1 < len {
            JobNext::RunStep((index + 1) as usize)
        } else {
            JobNext::Finish(Ok(()))
        },
    }
}

/// How a run of `len` steps begins: with the first step, or at once with
/// success when there are none.
pub fn first_step<E>(len: usize) -> (r: JobNext<E>)
    ensures
        len == 0 ==> r == JobNext::<E>::Finish(Ok(())),
        len > 0 ==> r == JobNext::<E>::RunStep(0),
{
    if len == 0 {
        JobNext::Finish(Ok(()))
    } else {
        JobNext::RunStep(0)
    }
}

/// What follows the step at `index` of `len` steps, given how it went.
pub fn after_step<E>(len: usize, index: usize, result: Result<(), E>) -> (r: JobNext<E>)
    requires
        index < len,
    ensures
        r == job_next(len as nat, index as nat, result),
{
    match result {
        Err(e) => JobNext::Finish(Err(e)),
        Ok(()) => if index + 1 < len {
            JobNext::RunStep(index + 1)
        } else {
            JobNext::Finish(Ok(()))
        },
    }
}

/// The result of running steps that give `results`, from the step at `i`
/// on, each next step chosen by `job_next` (which always names the step
/// after the one that ran).
pub open spec fn run_from<E>(results: Seq<Result<(), E>>, i: nat) -> Result<(), E>
    decreases results.len() - i,
{
    if i < results.len() {
        match job_next(results.len(), i, results[i as int]) {
            JobNext::Finish(r) => r,
            JobNext::RunStep(_) => run_from(results, i + 1),
        }
    } else {
        Ok(())
    }
}

proof fn lemma_run_from<E>(results: Seq<Result<(), E>>, i: nat)
    requires
        i < results.len(),
    ensures
        run_from(results, i) is Ok <==> forall|k: int| i <= k < results.len() ==> results[k] is Ok,
        run_from(results, i) is Err ==> exists|k: int|
            i <= k < results.len() && results[k] == run_from(results, i) && forall|j: int|
                i <= j < k ==> results[j] is Ok,
    decreases results.len() - i,
{
    if results[i as int] is Ok && i + 1 < results.len() {
        lemma_run_from(results, i + 1);
        if run_from(results, i) is Err {
            let k = choose|k: int|
                i + 1 <= k < results.len() && results[k] == run_from(results, i + 1) && forall|j: int|
                    i + 1 <= j < k ==> results[j] is Ok;
            assert(forall|j: int| i <= j < k ==> results[j] is Ok);
        }
    }
}

/// Running steps one after another, each next one chosen by `first_step`
/// and `after_step`, succeeds exactly when every step succeeds; when it
/// fails, it fails with the failure of the first step that failed, and
/// every step before that one succeeded.
pub proof fn lemma_run_stops_at_first_failure<E>(results: Seq<Result<(), E>>)
    ensures
        run_from(results, 0) is Ok <==> forall|k: int| 0 <= k < results.len() ==> results[k] is Ok,
        run_from(results, 0) is Err ==> exists|k: int|
            0 <= k < results.len() && results[k] == run_from(results, 0) && forall|j: int|
                0 <= j < k ==> results[j] is Ok,
{
    if results.len() > 0 {
        lemma_run_from(results, 0);
    }
}

/// Where the VM test puts and finds its files, for a build mode and target
/// triple: the build directory, the EFI system partition in it, the boot
/// directory in that, the built runner, and the name it boots under.
pub struct VmTestPaths {
    pub build_dir: String,
    pub esp_dir: String,
    pub boot_dir: String,
    pub built_file: String,
    pub boot_file: String,
}

/// The name of the default boot file of an architecture.
pub open spec fn boot_file_name(arch: UefiArch) -> Seq<char> {
    match arch {
        UefiArch::AArch64 => "BootAA64.efi"@,
        UefiArch::IA32 => "BootIA32.efi"@,
        UefiArch::X86_64 => "BootX64.efi"@,
    }
}

/// The build directory of a target and mode: `target/<triple>/<mode>`.
pub open spec fn build_dir_path(triple: Seq<char>, release: bool) -> Seq<char> {
    join_path(join_path("target"@, triple), if release { "release"@ } else { "debug"@ })
}

/// The files of the VM test: the runner is built under
/// `target/<triple>/<mode>`, and copied into `esp/EFI/Boot` there under the
/// architecture's default boot file name.
pub fn vm_test_paths(opt: &QemuOpt) -> (p: VmTestPaths)
    ensures
        p.build_dir@ == build_dir_path(crate::xtask::arch::arch_triple(opt.target), opt.release),
        p.esp_dir@ == join_path(p.build_dir@, "esp"@),
        p.boot_dir@ == join_path(join_path(p.esp_dir@, "EFI"@), "Boot"@),
        p.built_file@ == join_path(p.build_dir@, "uefi-test-runner.efi"@),
        p.boot_file@ == join_path(p.boot_dir@, boot_file_name(opt.target)),
{
    let mode = if opt.release {
        "release"
    } else {
        "debug"
    };
    let target_dir = join("target", opt.target.as_triple());
    let build_dir = join(target_dir.as_str(), mode);
    let esp_dir = join(build_dir.as_str(), "esp");
    let efi_dir = join(esp_dir.as_str(), "EFI");
    let boot_dir = join(efi_dir.as_str(), "Boot");
    let built_file = join(build_dir.as_str(), "uefi-test-runner.efi");
    let name = match opt.target {
        UefiArch::AArch64 => "BootAA64.efi",
        UefiArch::IA32 => "BootIA32.efi",
        UefiArch::X86_64 => "BootX64.efi",
    };
    let boot_file = join(boot_dir.as_str(), name);
    VmTestPaths { build_dir, esp_dir, boot_dir, built_file, boot_file }
}

/// The cargo invocation that builds the test runner for the VM test: with
/// the QEMU feature, and the CI one where asked for.
pub fn vm_test_build(opt: &QemuOpt, ci: bool) -> (c: Cargo)
    ensures
        cargo_is(
            c,
            CargoDesc {
                action: CargoAction::Build,
                features: if ci {
                    Features::QemuCi
                } else {
                    Features::Qemu
                },
                nightly: true,
                packages: PackageSet::TestRunner,
                target: arch_target(opt.target),
                warnings_as_errors: false,
            },
        ),
{
    make_cargo(
        CargoDesc {
            action: CargoAction::Build,
            features: if ci {
                Features::QemuCi
            } else {
                Features::Qemu
            },
            nightly: true,
            packages: PackageSet::TestRunner,
            target: cargo_target(opt.target),
            warnings_as_errors: false,
        },
    )
}

/// The text of a command as it is shown before it runs: the program, then
/// each argument after a space.
pub open spec fn command_text(program: Seq<char>, args: Seq<Seq<char>>) -> Seq<char>
    decreases args.len(),
{
    if args.len() == 0 {
        program
    } else {
        command_text(program, args.drop_last()) + seq![' '] + args.last()
    }
}

impl CommandLine {
    /// The command as it is shown before it runs.
    pub fn display_text(&self) -> (s: String)
        ensures
            s@ == command_text(self.program@, views(self.args@)),
    {
        let mut s = string_of(self.program.as_str());
        let mut i: usize = 0;
        while i < self.args.len()
            invariant
                i <= self.args@.len(),
                s@ == command_text(self.program@, views(self.args@.subrange(0, i as int))),
            decreases self.args@.len() - i,
        {
            push_char(&mut s, ' ');
            push_str(&mut s, self.args[i].as_str());
            i = i + 1;
            assert(views(self.args@.subrange(0, i as int)).drop_last() =~= views(
                self.args@.subrange(0, i - 1),
            ));
        }
        assert(self.args@.subrange(0, self.args@.len() as int) =~= self.args@);
        s
    }
}

} // verus!
