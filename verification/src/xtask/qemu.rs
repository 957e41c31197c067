//! Running the test runner in QEMU: finding the OVMF firmware files and the
//! QEMU command line.

use crate::text::{push_char, push_str, string_of};
use crate::xtask::arch::UefiArch;
use crate::xtask::cargo::{views, CommandLine};
use vstd::prelude::*;
use vstd::string::StrSliceExecFns;

verus! {

/// Options for running QEMU.
#[derive(Debug)]
pub struct QemuOpt {
    pub disable_kvm: bool,
    pub ci: bool,
    pub ovmf_dir: Option<String>,
}

/// The paths of the OVMF code and variable files.
#[derive(Debug)]
pub struct OvmfPaths {
    pub code: String,
    pub vars: String,
}

/// `file` joined to the directory `dir` as a relative path: with a `/`
/// between them unless `dir` is empty or already ends with one.
pub open spec fn join_path(dir: Seq<char>, file: Seq<char>) -> Seq<char> {
    if dir.len() == 0 || dir.last() == '/' {
        dir + file
    } else {
        dir + seq!['/'] + file
    }
}

/// Joins a relative file name to a directory.
pub fn join(dir: &str, file: &str) -> (p: String)
    ensures
        p@ == join_path(dir@, file@),
{
    let n = dir.unicode_len();
    let mut p = string_of(dir);
    if n > 0 && dir.get_char(n - 1) != '/' {
        push_char(&mut p, '/');
    }
    push_str(&mut p, file);
    p
}

/// The OVMF file names of an architecture: code first, then variables.
pub open spec fn ovmf_files(arch: UefiArch) -> (Seq<char>, Seq<char>) {
    match arch {
        UefiArch::AArch64 => ("QEMU_EFI-pflash.raw"@, "vars-template-pflash.raw"@),
        _ => ("OVMF_CODE.fd"@, "OVMF_VARS.fd"@),
    }
}

/// The candidate directories for OVMF files when none is given: the test
/// runner's directory, then, on Linux, the usual system directories.
pub open spec fn default_ovmf_dirs(linux: bool) -> Seq<Seq<char>> {
    if linux {
        seq!["uefi-test-runner"@, "/usr/share/OVMF"@, "/usr/share/ovmf/x64"@]
    } else {
        seq!["uefi-test-runner"@]
    }
}

/// Whether `p` holds the OVMF files of `arch` in `dir`.
pub open spec fn paths_in(p: OvmfPaths, dir: Seq<char>, arch: UefiArch) -> bool {
    p.code@ == join_path(dir, ovmf_files(arch).0) && p.vars@ == join_path(dir, ovmf_files(arch).1)
}

/// Whether `files_exist` was asked about the OVMF files of `arch` in `dir`
/// and answered `answer`.
pub open spec fn answered<F: Fn(&OvmfPaths) -> bool>(
    files_exist: F,
    dir: Seq<char>,
    arch: UefiArch,
    answer: bool,
) -> bool {
    exists|q: OvmfPaths| #[trigger] paths_in(q, dir, arch) && call_ensures(files_exist, (&q,), answer)
}

/// What a search of the default directories gives: the files of the first
/// directory, in order, whose files exist (every earlier one asked and
/// answered no), or, when every directory was asked and answered no, the
/// error that says so.
pub open spec fn found_in_defaults<F: Fn(&OvmfPaths) -> bool>(
    files_exist: F,
    arch: UefiArch,
    linux: bool,
    r: Result<OvmfPaths, String>,
) -> bool {
    match r {
        Ok(p) => exists|i: int|
            0 <= i < default_ovmf_dirs(linux).len() && paths_in(
                p,
                #[trigger] default_ovmf_dirs(linux)[i],
                arch,
            ) && call_ensures(files_exist, (&p,), true) && forall|j: int|
                0 <= j < i ==> answered(files_exist, default_ovmf_dirs(linux)[j], arch, false),
        Err(e) => e@ == "OVMF files not found anywhere"@ && forall|j: int|
            0 <= j < default_ovmf_dirs(linux).len() ==> answered(
                files_exist,
                #[trigger] default_ovmf_dirs(linux)[j],
                arch,
                false,
            ),
    }
}

/// With no directory given, the search looks in "uefi-test-runner", then,
/// on Linux, in "/usr/share/OVMF" and then "/usr/share/ovmf/x64". It gives
/// the files of the first of these where they exist, and fails only when
/// each of them was asked and none has them.
pub proof fn lemma_default_search_order<F: Fn(&OvmfPaths) -> bool>(
    files_exist: F,
    arch: UefiArch,
    linux: bool,
    r: Result<OvmfPaths, String>,
)
    requires
        found_in_defaults(files_exist, arch, linux, r),
    ensures
        r matches Ok(p) ==> call_ensures(files_exist, (&p,), true) && {
            ||| paths_in(p, "uefi-test-runner"@, arch)
            ||| linux && answered(files_exist, "uefi-test-runner"@, arch, false) && paths_in(
                p,
                "/usr/share/OVMF"@,
                arch,
            )
            ||| linux && answered(files_exist, "uefi-test-runner"@, arch, false) && answered(
                files_exist,
                "/usr/share/OVMF"@,
                arch,
                false,
            ) && paths_in(p, "/usr/share/ovmf/x64"@, arch)
        },
        r is Err ==> answered(files_exist, "uefi-test-runner"@, arch, false),
        r is Err && linux ==> answered(files_exist, "/usr/share/OVMF"@, arch, false) && answered(
            files_exist,
            "/usr/share/ovmf/x64"@,
            arch,
            false,
        ),
{
    let dirs = default_ovmf_dirs(linux);
    if linux {
        assert(dirs.len() == 3);
        assert(dirs[0] == "uefi-test-runner"@);
        assert(dirs[1] == "/usr/share/OVMF"@);
        assert(dirs[2] == "/usr/share/ovmf/x64"@);
    } else {
        assert(dirs.len() == 1);
        assert(dirs[0] == "uefi-test-runner"@);
    }
}

impl OvmfPaths {
    /// The OVMF files of `arch` in `dir`.
    pub fn from_dir(dir: &str, arch: UefiArch) -> (p: OvmfPaths)
        requires
            arch != UefiArch::IA32,
        ensures
            p.code@ == join_path(dir@, ovmf_files(arch).0),
            p.vars@ == join_path(dir@, ovmf_files(arch).1),
    {
        match arch {
            UefiArch::AArch64 => OvmfPaths {
                code: join(dir, "QEMU_EFI-pflash.raw"),
                vars: join(dir, "vars-template-pflash.raw"),
            },
            _ => OvmfPaths { code: join(dir, "OVMF_CODE.fd"), vars: join(dir, "OVMF_VARS.fd") },
        }
    }

    /// Asks whether the OVMF files of `arch` are in `dir`, and gives them
    /// if they are.
    fn try_dir<F: Fn(&OvmfPaths) -> bool>(dir: &str, arch: UefiArch, files_exist: &F) -> (r: Option<
        OvmfPaths,
    >)
        requires
            arch != UefiArch::IA32,
            forall|p: &OvmfPaths| #[trigger] call_requires(*files_exist, (p,)),
        ensures
            match r {
                Some(p) => paths_in(p, dir@, arch) && call_ensures(*files_exist, (&p,), true),
                None => answered(*files_exist, dir@, arch, false),
            },
    {
        let paths = OvmfPaths::from_dir(dir, arch);
        if files_exist(&paths) {
            Some(paths)
        } else {
            assert(paths_in(paths, dir@, arch));
            None
        }
    }

    /// Finds the OVMF files. A directory given in the options is the only
    /// one looked in; otherwise the default directories are tried in order
    /// and the first whose files exist is taken. `files_exist` tells
    /// whether both files are there; `linux` whether the system
    /// directories are candidates.
    pub fn find<F: Fn(&OvmfPaths) -> bool>(opt: &QemuOpt, arch: UefiArch, linux: bool, files_exist: F) -> (r: Result<
        OvmfPaths,
        String,
    >)
        requires
            arch != UefiArch::IA32,
            forall|p: &OvmfPaths| #[trigger] call_requires(files_exist, (p,)),
        ensures
            match opt.ovmf_dir {
                Some(d) => match r {
                    Ok(p) => paths_in(p, d@, arch) && call_ensures(files_exist, (&p,), true),
                    Err(e) => e@ == "OVMF files not found in "@ + d@ && answered(files_exist, d@, arch, false),
                },
                Option::None => found_in_defaults(files_exist, arch, linux, r),
            },
    {
        match &opt.ovmf_dir {
            Some(dir) => {
                match OvmfPaths::try_dir(dir.as_str(), arch, &files_exist) {
                    Some(p) => Ok(p),
                    None => {
                        let mut e = string_of("OVMF files not found in ");
                        push_str(&mut e, dir.as_str());
                        Err(e)
                    },
                }
            },
            Option::None => {
                proof {
                    reveal_strlit("uefi-test-runner");
                    reveal_strlit("/usr/share/OVMF");
                    reveal_strlit("/usr/share/ovmf/x64");
                }
                let ghost dirs = default_ovmf_dirs(linux);
                assert(dirs[0] == "uefi-test-runner"@);
                match OvmfPaths::try_dir("uefi-test-runner", arch, &files_exist) {
                    Some(p) => {
                        return Ok(p);
                    },
                    None => {},
                }
                if linux {
                    assert(dirs[1] == "/usr/share/OVMF"@);
                    assert(dirs[2] == "/usr/share/ovmf/x64"@);
                    match OvmfPaths::try_dir("/usr/share/OVMF", arch, &files_exist) {
                        Some(p) => {
                            return Ok(p);
                        },
                        None => {},
                    }
                    match OvmfPaths::try_dir("/usr/share/ovmf/x64", arch, &files_exist) {
                        Some(p) => {
                            return Ok(p);
                        },
                        None => {},
                    }
                }
                Err(string_of("OVMF files not found anywhere"))
            },
        }
    }
}

/// The QEMU arguments for 64-bit x86 with the given OVMF files.
pub open spec fn qemu_args(opt: QemuOpt, code: Seq<char>, vars: Seq<char>) -> Seq<Seq<char>> {
    seq!["-nodefaults"@, "-machine"@, "q35"@, "-smp"@, "4"@, "-m"@, "256M"@] + (if !opt.disable_kvm
        && !opt.ci {
        seq!["--enable-kvm"@]
    } else {
        Seq::empty()
    }) + (if opt.ci {
        seq!["-no-reboot"@]
    } else {
        Seq::empty()
    }) + seq![
        "-drive"@,
        "if=pflash,format=raw,readonly=on,file="@ + code,
        "-drive"@,
        "if=pflash,format=raw,readonly=on,file="@ + vars,
    ]
}

fn push_arg(args: &mut Vec<String>, a: String)
    ensures
        views(final(args)@) == views(old(args)@).push(a@),
{
    let ghost before = args@;
    let ghost v = a@;
    args.push(a);
    assert(views(args@) =~= views(before).push(v));
}

/// The command that runs QEMU for 64-bit x86 with the given OVMF files:
/// the machine, its processors and memory, hardware acceleration unless
/// disabled or in CI, no reboot in CI, and the OVMF code and (read-only)
/// variable files as flash drives.
pub fn run_qemu(arch: UefiArch, opt: &QemuOpt, ovmf_paths: &OvmfPaths) -> (cmd: CommandLine)
    requires
        arch == UefiArch::X86_64,
    ensures
        cmd.program@ == "qemu-system-x86_64"@,
        cmd.env is None,
        views(cmd.args@) == qemu_args(*opt, ovmf_paths.code@, ovmf_paths.vars@),
{
    let mut args: Vec<String> = Vec::new();
    push_arg(&mut args, string_of("-nodefaults"));
    push_arg(&mut args, string_of("-machine"));
    push_arg(&mut args, string_of("q35"));
    push_arg(&mut args, string_of("-smp"));
    push_arg(&mut args, string_of("4"));
    push_arg(&mut args, string_of("-m"));
    push_arg(&mut args, string_of("256M"));
    if !opt.disable_kvm && !opt.ci {
        push_arg(&mut args, string_of("--enable-kvm"));
    }
    if opt.ci {
        push_arg(&mut args, string_of("-no-reboot"));
    }
    let mut code_drive = string_of("if=pflash,format=raw,readonly=on,file=");
    push_str(&mut code_drive, ovmf_paths.code.as_str());
    let mut vars_drive = string_of("if=pflash,format=raw,readonly=");
    push_str(&mut vars_drive, "on");
    push_str(&mut vars_drive, ",file=");
    push_str(&mut vars_drive, ovmf_paths.vars.as_str());
    proof {
        reveal_strlit("if=pflash,format=raw,readonly=");
        reveal_strlit("on");
        reveal_strlit(",file=");
        reveal_strlit("if=pflash,format=raw,readonly=on,file=");
    }
    assert(vars_drive@ =~= "if=pflash,format=raw,readonly=on,file="@ + ovmf_paths.vars@);
    push_arg(&mut args, string_of("-drive"));
    push_arg(&mut args, code_drive);
    push_arg(&mut args, string_of("-drive"));
    push_arg(&mut args, vars_drive);
    assert(views(args@) =~= qemu_args(*opt, ovmf_paths.code@, ovmf_paths.vars@));
    CommandLine { program: string_of("qemu-system-x86_64"), env: Option::None, args }
}


/// QEMU gets `--enable-kvm` exactly when hardware acceleration is neither
/// disabled nor left out for CI; in particular never when it is disabled.
pub proof fn lemma_kvm_only_when_allowed(opt: QemuOpt, code: Seq<char>, vars: Seq<char>)
    ensures
        qemu_args(opt, code, vars).contains("--enable-kvm"@) <==> (!opt.disable_kvm && !opt.ci),
        opt.disable_kvm ==> !qemu_args(opt, code, vars).contains("--enable-kvm"@),
{
    let x = "--enable-kvm"@;
    let drive = "if=pflash,format=raw,readonly=on,file="@;
    reveal_strlit("--enable-kvm");
    reveal_strlit("-nodefaults");
    reveal_strlit("-machine");
    reveal_strlit("q35");
    reveal_strlit("-smp");
    reveal_strlit("4");
    reveal_strlit("-m");
    reveal_strlit("256M");
    reveal_strlit("-no-reboot");
    reveal_strlit("-drive");
    reveal_strlit("if=pflash,format=raw,readonly=on,file=");
    assert(x.len() == 12);
    assert(x[0] == '-');
    assert(drive[0] == 'i');
    assert((drive + code)[0] != x[0]);
    assert((drive + vars)[0] != x[0]);
    let head = seq!["-nodefaults"@, "-machine"@, "q35"@, "-smp"@, "4"@, "-m"@, "256M"@];
    let kvm = if !opt.disable_kvm && !opt.ci {
        seq![x]
    } else {
        Seq::<Seq<char>>::empty()
    };
    let reboot = if opt.ci {
        seq!["-no-reboot"@]
    } else {
        Seq::<Seq<char>>::empty()
    };
    let tail = seq!["-drive"@, drive + code, "-drive"@, drive + vars];
    let args = qemu_args(opt, code, vars);
    assert(args == head + kvm + reboot + tail);
    assert(forall|i: int| 0 <= i < head.len() ==> head[i] != x);
    assert(forall|i: int| 0 <= i < reboot.len() ==> reboot[i] != x);
    assert(forall|i: int| 0 <= i < tail.len() ==> tail[i] != x);
    if !opt.disable_kvm && !opt.ci {
        assert(args[7] == x);
    } else {
        assert(forall|i: int| 0 <= i < args.len() ==> args[i] != x);
    }
}

} // verus!
