use boringssl_src::Build;
use boringssl_src::BuildError;
use boringssl_src::Step;

#[test]
fn missing_out_dir_fails_before_anything() {
    let b = Build::new();
    let r = b.build("/src/boringssl", "Release");
    assert!(matches!(r, Err(BuildError::MissingOutputDir)));
}

#[test]
fn out_dir_setter_makes_build_succeed() {
    let mut b = Build::new();
    b.out_dir("/out");
    assert!(b.build("/src/boringssl", "Release").is_ok());
}

#[test]
fn plan_steps_in_order_without_msvc() {
    let mut b = Build::new();
    b.out_dir("/out");
    b.target("x86_64-unknown-linux-gnu");
    let plan = b.build("/vendored", "Release").unwrap();
    let steps = &plan.steps;
    assert_eq!(steps.len(), 7);
    assert!(matches!(&steps[0], Step::ResetDir { path } if path == "/out/build"));
    assert!(matches!(&steps[1], Step::RunBuildTool { target } if target == "ssl"));
    assert!(matches!(&steps[2], Step::RunBuildTool { target } if target == "crypto"));
    assert!(matches!(&steps[3], Step::ResetDir { path } if path == "/out/include"));
    assert!(matches!(
        &steps[4],
        Step::CopyHeaders { from, to } if from == "/vendored/src/include" && to == "/out/include"
    ));
    assert!(matches!(&steps[5], Step::RemoveDir { path } if path == "/out/lib"));
    assert!(matches!(
        &steps[6],
        Step::RenameDir { from, to } if from == "/out/build" && to == "/out/lib"
    ));
}

#[test]
fn plan_renames_profile_subdir_on_msvc() {
    let mut b = Build::new();
    b.out_dir("/out");
    b.target("x86_64-pc-windows-msvc");
    let plan = b.build("/vendored", "Release").unwrap();
    assert!(matches!(
        &plan.steps[6],
        Step::RenameDir { from, to } if from == "/out/build/Release" && to == "/out/lib"
    ));
}

#[test]
fn libs_are_ssl_then_crypto_on_every_platform() {
    for target in ["x86_64-unknown-linux-gnu", "x86_64-pc-windows-msvc", "aarch64-apple-darwin"] {
        let mut b = Build::new();
        b.out_dir("/out");
        b.target(target);
        let plan = b.build("/vendored", "Debug").unwrap();
        let libs = plan.artifacts.libs();
        assert_eq!(libs.len(), 2);
        assert_eq!(libs[0], "ssl");
        assert_eq!(libs[1], "crypto");
    }
}

#[test]
fn target_decides_asm_probe() {
    let mut b = Build::new();
    b.target("i686-pc-windows-msvc");
    assert!(b.needs_asm_probe());
    b.target("i686-pc-windows-gnu");
    assert!(!b.needs_asm_probe());
    let fresh = Build::new();
    assert!(!fresh.needs_asm_probe());
}
