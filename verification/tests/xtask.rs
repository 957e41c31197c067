use uefi_model::xtask::arch::UefiArch;
use uefi_model::xtask::cargo::{Cargo, CargoAction, CommandLine, Features, Package, Triple};
use uefi_model::xtask::ci::{
    after_step, build, check_formatting, clippy, doc, first_step, run_ci_job, run_host_tests, vm_test_build,
    vm_test_paths, JobNext, Step,
};
use uefi_model::xtask::opt::{BuildOpt, CiJob, ClippyOpt, DocOpt, QemuOpt};
use uefi_model::xtask::qemu::{self, join, OvmfPaths};
use uefi_model::xtask::target::{self, UefiTarget};

fn args(cmd: &CommandLine) -> Vec<&str> {
    cmd.args.iter().map(|s| s.as_str()).collect()
}

#[test]
fn arch_names_and_triples() {
    assert_eq!(UefiArch::AArch64.as_str(), "aarch64");
    assert_eq!(UefiArch::IA32.as_triple(), "i686-unknown-uefi");
    assert_eq!(UefiArch::X86_64.as_triple(), "x86_64-unknown-uefi");
    assert_eq!(UefiArch::default(), UefiArch::X86_64);
}

#[test]
fn package_lists() {
    assert_eq!(Package::published(), vec![Package::Uefi, Package::UefiMacros, Package::UefiServices]);
    assert_eq!(
        Package::all_except_xtask(),
        vec![Package::Uefi, Package::UefiApp, Package::UefiMacros, Package::UefiServices, Package::UefiTestRunner]
    );
    assert_eq!(Package::UefiMacros.as_str(), "uefi-macros");
    assert_eq!(Features::MoreCode.as_comma_separated_str(), Some("alloc,exts,logger"));
    assert_eq!(Features::NoFeatures.as_comma_separated_str(), None);
}

#[test]
fn build_command_for_uefi_target() {
    let cargo = Cargo {
        action: CargoAction::Build,
        features: Features::MoreCode,
        nightly: true,
        packages: vec![Package::Uefi, Package::UefiApp],
        target: Triple::X86_64UnknownUefi,
        warnings_as_errors: true,
    };
    let cmd = cargo.command();
    assert_eq!(cmd.program, "cargo");
    assert!(cmd.env.is_none());
    assert_eq!(
        args(&cmd),
        vec![
            "+nightly",
            "build",
            "--target",
            "x86_64-unknown-uefi",
            "-Zbuild-std=core,compiler_builtins,alloc",
            "-Zbuild-std-features=compiler-builtins-mem",
            "--package",
            "uefi",
            "--package",
            "uefi_app",
            "--features",
            "alloc,exts,logger",
            "-D",
            "warnings",
        ]
    );
}

#[test]
fn clippy_and_doc_commands() {
    let cargo = Cargo {
        action: CargoAction::Clippy,
        features: Features::NoFeatures,
        nightly: false,
        packages: vec![Package::Xtask],
        target: Triple::Default,
        warnings_as_errors: true,
    };
    assert_eq!(args(&cargo.command()), vec!["clippy", "--package", "xtask", "--", "-D", "warnings"]);

    let cargo = Cargo {
        action: CargoAction::Doc { open: true },
        features: Features::Exts,
        nightly: false,
        packages: vec![Package::Uefi],
        target: Triple::Default,
        warnings_as_errors: true,
    };
    let cmd = cargo.command();
    assert_eq!(args(&cmd), vec!["doc", "--package", "uefi", "--features", "exts", "--open"]);
    let (k, v) = cmd.env.unwrap();
    assert_eq!((k.as_str(), v.as_str()), ("RUSTDOCFLAGS", "-Dwarnings"));
}

#[test]
fn command_display_text() {
    let cmd = check_formatting();
    assert_eq!(cmd.display_text(), "cargo fmt --check --all");
}

#[test]
fn task_invocations() {
    let arm = build(&BuildOpt { target: UefiArch::AArch64, release: false });
    assert_eq!(arm.target, Triple::AArch64UnknownUefi);
    assert_eq!(&args(&arm.command())[..4], &["+nightly", "build", "--target", "aarch64-unknown-uefi"]);
    let c = build(&BuildOpt { target: UefiArch::X86_64, release: false });
    assert_eq!(c.action, CargoAction::Build);
    assert_eq!(c.packages, Package::all_except_xtask());
    assert_eq!(c.target, Triple::X86_64UnknownUefi);

    let (a, b) = clippy(&ClippyOpt { target: UefiArch::X86_64, warnings_as_errors: true });
    let (arm, _) = clippy(&ClippyOpt { target: UefiArch::AArch64, warnings_as_errors: false });
    assert_eq!(arm.target, Triple::AArch64UnknownUefi);
    assert_eq!(a.packages, Package::all_except_xtask());
    assert_eq!(b.packages, vec![Package::Xtask]);
    assert!(!b.nightly && b.warnings_as_errors);

    let d = doc(&DocOpt { open: false, warnings_as_errors: true });
    assert_eq!(d.action, CargoAction::Doc { open: false });
    assert_eq!(d.packages, Package::published());

    let t = run_host_tests();
    assert_eq!(t.action, CargoAction::Test);
    assert_eq!(t.features, Features::Exts);
    assert_eq!(t.packages, vec![Package::Uefi, Package::UefiMacros, Package::Xtask]);
    assert_eq!(args(&t.command()), vec!["test", "--package", "uefi", "--package", "uefi-macros", "--package", "xtask", "--features", "exts"]);
}

#[test]
fn ci_jobs() {
    let arm = run_ci_job(CiJob::BuildAArch64);
    assert_eq!(arm.len(), 1);
    let all = run_ci_job(CiJob::All);
    assert_eq!(all.len(), 7);
    match &all[0] {
        Step::Cargo(c) => assert_eq!(c.target, Triple::AArch64UnknownUefi),
        _ => panic!("the ARM build comes first"),
    }
    assert!(matches!(all[1], Step::VmTest(_)));
    assert!(matches!(all[3], Step::CheckFormatting));
    let lint = run_ci_job(CiJob::Lint);
    assert_eq!(lint.len(), 4);
    assert!(matches!(lint[0], Step::CheckFormatting));
    match &lint[3] {
        Step::Cargo(c) => assert_eq!(c.action, CargoAction::Doc { open: false }),
        _ => panic!("the docs come last"),
    }
    let vm = run_ci_job(CiJob::VmTestX86_64);
    match &vm[0] {
        Step::VmTest(o) => assert!(o.ci && o.disable_kvm && o.headless && o.ovmf_dir.is_none()),
        _ => panic!("a VM test"),
    }
    let host = run_ci_job(CiJob::HostTest);
    assert_eq!(host.len(), 1);
}

#[test]
fn vm_test_files() {
    let opt = QemuOpt {
        target: UefiArch::X86_64,
        release: true,
        disable_kvm: false,
        ci: false,
        headless: false,
        ovmf_dir: None,
    };
    let p = vm_test_paths(&opt);
    assert_eq!(p.build_dir, "target/x86_64-unknown-uefi/release");
    assert_eq!(p.esp_dir, "target/x86_64-unknown-uefi/release/esp");
    assert_eq!(p.boot_dir, "target/x86_64-unknown-uefi/release/esp/EFI/Boot");
    assert_eq!(p.built_file, "target/x86_64-unknown-uefi/release/uefi-test-runner.efi");
    assert_eq!(p.boot_file, "target/x86_64-unknown-uefi/release/esp/EFI/Boot/BootX64.efi");
    let c = vm_test_build(&opt, true);
    assert_eq!(c.features, Features::QemuCi);
    assert_eq!(c.packages, vec![Package::UefiTestRunner]);
}

#[test]
fn joining_paths() {
    assert_eq!(join("a", "b"), "a/b");
    assert_eq!(join("a/", "b"), "a/b");
    assert_eq!(join("", "b"), "b");
}

#[test]
fn ovmf_lookup() {
    let p = OvmfPaths::from_dir("/fw", UefiArch::AArch64);
    assert_eq!((p.code.as_str(), p.vars.as_str()), ("/fw/QEMU_EFI-pflash.raw", "/fw/vars-template-pflash.raw"));

    let opt = qemu::QemuOpt { disable_kvm: false, ci: false, ovmf_dir: Some("/x".to_string()) };
    let e = OvmfPaths::find(&opt, UefiArch::X86_64, true, |_p: &OvmfPaths| false).err().unwrap();
    assert_eq!(e, "OVMF files not found in /x");

    let opt = qemu::QemuOpt { disable_kvm: false, ci: false, ovmf_dir: None };
    let e = OvmfPaths::find(&opt, UefiArch::X86_64, true, |_p: &OvmfPaths| false).err().unwrap();
    assert_eq!(e, "OVMF files not found anywhere");
    let p = OvmfPaths::find(&opt, UefiArch::X86_64, true, |p: &OvmfPaths| p.code.starts_with("/usr/share/OVMF")).unwrap();
    assert_eq!(p.code, "/usr/share/OVMF/OVMF_CODE.fd");
    assert_eq!(p.vars, "/usr/share/OVMF/OVMF_VARS.fd");
}

#[test]
fn qemu_command() {
    let paths = OvmfPaths { code: "c.fd".to_string(), vars: "v.fd".to_string() };
    let opt = qemu::QemuOpt { disable_kvm: false, ci: false, ovmf_dir: None };
    let cmd = qemu::run_qemu(UefiArch::X86_64, &opt, &paths);
    assert_eq!(cmd.program, "qemu-system-x86_64");
    assert_eq!(
        args(&cmd),
        vec![
            "-nodefaults", "-machine", "q35", "-smp", "4", "-m", "256M", "--enable-kvm", "-drive",
            "if=pflash,format=raw,readonly=on,file=c.fd", "-drive", "if=pflash,format=raw,readonly=on,file=v.fd",
        ]
    );
    let opt = qemu::QemuOpt { disable_kvm: false, ci: true, ovmf_dir: None };
    let cmd = qemu::run_qemu(UefiArch::X86_64, &opt, &paths);
    assert!(args(&cmd).contains(&"-no-reboot"));
    assert!(!args(&cmd).contains(&"--enable-kvm"));
}

#[test]
fn targets_and_triples_parse() {
    assert_eq!(UefiTarget::from_str("aarch64"), Ok(UefiTarget::Aarch64));
    assert_eq!(UefiTarget::from_str("riscv").err().unwrap(), "invalid target: riscv");
    assert_eq!(UefiTarget::default().target_triple(), "x86_64-unknown-uefi");
    assert_eq!(UefiTarget::Aarch64.name(), "aarch64");
    assert!(matches!(target::Triple::from_str("x86_64"), Ok(target::Triple::X86_64UnknownUefi)));
    assert_eq!(target::Triple::from_str("arm").err().unwrap(), "invalid triple: arm");
}

#[test]
fn ovmf_lookup_off_linux_tries_only_the_runner_directory() {
    let opt = qemu::QemuOpt { disable_kvm: false, ci: false, ovmf_dir: None };
    let asked = std::cell::Cell::new(0);
    let e = OvmfPaths::find(&opt, UefiArch::X86_64, false, |p: &OvmfPaths| {
        asked.set(asked.get() + 1);
        p.code.starts_with("/usr/share/OVMF")
    })
    .err()
    .unwrap();
    assert_eq!(e, "OVMF files not found anywhere");
    assert_eq!(asked.get(), 1);
    let p = OvmfPaths::find(&opt, UefiArch::X86_64, false, |p: &OvmfPaths| p.code.starts_with("uefi-test-runner")).unwrap();
    assert_eq!(p.code, "uefi-test-runner/OVMF_CODE.fd");
}

/// Runs steps whose outcomes are given, as the tool does: each next step
/// decided by the library. Gives the result and the steps that ran.
fn drive(outcomes: &[Result<(), u32>]) -> (Result<(), u32>, Vec<usize>) {
    let mut ran = Vec::new();
    let mut next = first_step(outcomes.len());
    loop {
        match next {
            JobNext::Finish(r) => return (r, ran),
            JobNext::RunStep(i) => {
                ran.push(i);
                next = after_step(outcomes.len(), i, outcomes[i]);
            }
        }
    }
}

#[test]
fn job_runs_every_step_when_all_succeed() {
    assert_eq!(drive(&[Ok(()), Ok(()), Ok(())]), (Ok(()), vec![0, 1, 2]));
    assert_eq!(drive(&[]), (Ok(()), vec![]));
}

#[test]
fn job_stops_at_the_first_failure() {
    assert_eq!(drive(&[Ok(()), Err(7), Err(9), Ok(())]), (Err(7), vec![0, 1]));
    assert_eq!(drive(&[Err(3)]), (Err(3), vec![0]));
}

#[test]
fn step_decisions() {
    assert!(matches!(first_step::<u32>(0), JobNext::Finish(Ok(()))));
    assert!(matches!(first_step::<u32>(2), JobNext::RunStep(0)));
    assert!(matches!(after_step::<u32>(2, 0, Ok(())), JobNext::RunStep(1)));
    assert!(matches!(after_step::<u32>(2, 1, Ok(())), JobNext::Finish(Ok(()))));
    assert!(matches!(after_step::<u32>(2, 0, Err(5)), JobNext::Finish(Err(5))));
}
