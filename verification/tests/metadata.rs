use boringssl_src::Artifacts;
use boringssl_src::Build;

fn artifacts_at(root: &str) -> Artifacts {
    let mut b = Build::new();
    b.out_dir(root);
    b.build("/vendored", "Release").unwrap().artifacts
}

#[test]
fn metadata_lines_in_fixed_order() {
    let a = artifacts_at("/x");
    let lines = a.cargo_metadata_lines();
    assert_eq!(
        lines,
        vec![
            "cargo:rustc-link-search=native=/x/lib",
            "cargo:rustc-link-lib=static=ssl",
            "cargo:rustc-link-lib=static=crypto",
            "cargo:include=/x/include",
            "cargo:lib=/x/lib",
        ]
    );
}

#[test]
fn derived_dirs_join_fixed_suffixes() {
    let a = artifacts_at("/some/root");
    assert_eq!(a.root_dir(), "/some/root");
    assert_eq!(a.include_dir(), "/some/root/include");
    assert_eq!(a.lib_dir(), "/some/root/lib");
}

#[test]
fn printing_metadata_does_not_panic() {
    let a = artifacts_at("/x");
    a.print_cargo_metadata();
}
