use boringssl_src::headers::keep_entry;
use boringssl_src::headers::plan_header_copy;

fn path(components: &[&str]) -> Vec<String> {
    components.iter().map(|c| c.to_string()).collect()
}

#[test]
fn vcs_entries_are_skipped_recursively() {
    let entries = vec![
        path(&["openssl"]),
        path(&["openssl", "ssl.h"]),
        path(&[".git"]),
        path(&[".git", "config"]),
        path(&[".git", "objects", "aa"]),
        path(&["openssl", "crypto.h"]),
    ];
    let kept = plan_header_copy(&entries);
    assert_eq!(
        kept,
        vec![path(&["openssl"]), path(&["openssl", "ssl.h"]), path(&["openssl", "crypto.h"])]
    );
}

#[test]
fn only_exact_vcs_names_are_skipped() {
    let entries = vec![
        path(&[".gitignore"]),
        path(&["git"]),
        path(&["sub", ".git"]),
        path(&["sub", ".github", "workflow.yml"]),
    ];
    let kept = plan_header_copy(&entries);
    assert_eq!(
        kept,
        vec![path(&[".gitignore"]), path(&["git"]), path(&["sub", ".github", "workflow.yml"])]
    );
}

#[test]
fn copy_plan_keeps_order_and_contents() {
    let entries = vec![path(&["b.h"]), path(&["a"]), path(&["a", "z.h"]), path(&["a.h"])];
    let kept = plan_header_copy(&entries);
    assert_eq!(kept, entries);
}

#[test]
fn replayed_copy_plan_is_identical() {
    let entries = vec![
        path(&["include"]),
        path(&[".git", "HEAD"]),
        path(&["include", "openssl", "base.h"]),
    ];
    let once = plan_header_copy(&entries);
    let twice = plan_header_copy(&once);
    assert_eq!(once, twice);
}

#[test]
fn keep_entry_checks_every_component() {
    assert!(keep_entry(&path(&["openssl", "ssl.h"])));
    assert!(!keep_entry(&path(&[".git"])));
    assert!(!keep_entry(&path(&["a", ".git", "b"])));
    assert!(keep_entry(&path(&[])));
}
