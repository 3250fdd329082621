use std::io::Write;
use vstd::prelude::*;
use vstd::seq_lib::*;
use vstd::string::*;

use crate::paths::join;
use crate::paths::joined;

verus! {

/// The two libraries a successful build yields, in link order: the TLS
/// library first, the cryptographic-primitives library second — the
/// same pair on every platform.
pub open spec fn lib_names() -> Seq<Seq<char>> {
    seq!["ssl"@, "crypto"@]
}

/// A static-link line for one library.
pub open spec fn link_line(lib: Seq<char>) -> Seq<char> {
    "cargo:rustc-link-lib=static="@ + lib
}

/// The metadata lines that tell a downstream build how to link the
/// artifacts, in emission order: a native search-path line for `lib/`,
/// one static-link line per library in stored order, an
/// include-directory line, and a library-directory line.
pub open spec fn metadata_lines(root: Seq<char>, libs: Seq<Seq<char>>) -> Seq<Seq<char>> {
    seq!["cargo:rustc-link-search=native="@ + joined(root, "lib"@)] + libs.map_values(
        |l: Seq<char>| link_line(l),
    ) + seq![
        "cargo:include="@ + joined(root, "include"@),
        "cargo:lib="@ + joined(root, "lib"@),
    ]
}

/// What a successful build produced: the output root under which the
/// stable `include/` and `lib/` trees stand, and the ordered library
/// names. Purely descriptive — the value owns no filesystem state.
pub struct Artifacts {
    root_dir: String,
    libs: Vec<String>,
}

impl Artifacts {
    /// The output root, as the configuration gave it.
    pub closed spec fn spec_root(&self) -> Seq<char> {
        self.root_dir@
    }

    /// The library names, in link order.
    pub closed spec fn spec_libs(&self) -> Seq<Seq<char>> {
        self.libs.deep_view()
    }

    /// Constructed by a successful build alone: `root` holds the fixed
    /// pair of libraries.
    pub(crate) fn from_build(root: String) -> (a: Artifacts)
        ensures
            a.spec_root() == root@,
            a.spec_libs() == lib_names(),
    {
        let mut libs: Vec<String> = Vec::new();
        libs.push("ssl".to_owned());
        libs.push("crypto".to_owned());
        proof {
            assert(libs.deep_view() =~= lib_names());
        }
        Artifacts { root_dir: root, libs }
    }

    /// The stable header tree under the root.
    pub fn include_dir(&self) -> (r: String)
        ensures
            r@ == joined(self.spec_root(), "include"@),
    {
        join(self.root_dir.as_str(), "include")
    }

    /// The stable library tree under the root.
    pub fn lib_dir(&self) -> (r: String)
        ensures
            r@ == joined(self.spec_root(), "lib"@),
    {
        join(self.root_dir.as_str(), "lib")
    }

    /// The output root itself.
    pub fn root_dir(&self) -> (r: &str)
        ensures
            r@ == self.spec_root(),
    {
        self.root_dir.as_str()
    }

    /// The library names, in link order.
    pub fn libs(&self) -> (r: &[String])
        ensures
            r.deep_view() == self.spec_libs(),
    {
        let r = self.libs.as_slice();
        proof {
            assert(r.deep_view() =~= self.libs.deep_view());
        }
        r
    }

    /// The metadata lines for this artifact set, in emission order.
    pub fn cargo_metadata_lines(&self) -> (lines: Vec<String>)
        ensures
            lines.deep_view() == metadata_lines(self.spec_root(), self.spec_libs()),
    {
        let mut lines: Vec<String> = Vec::new();
        let mut search = "cargo:rustc-link-search=native=".to_owned();
        let lib_dir = self.lib_dir();
        search.append(lib_dir.as_str());
        lines.push(search);
        let ghost head = seq!["cargo:rustc-link-search=native="@ + joined(self.spec_root(), "lib"@)];
        proof {
            assert(lines.deep_view() =~= head);
        }
        let mut i: usize = 0;
        while i < self.libs.len()
            invariant
                i <= self.libs.len(),
                lines.deep_view() =~= head + self.spec_libs().take(i as int).map_values(
                    |l: Seq<char>| link_line(l),
                ),
            decreases self.libs.len() - i,
        {
            let mut line = "cargo:rustc-link-lib=static=".to_owned();
            line.append(self.libs[i].as_str());
            let ghost prev = lines.deep_view();
            lines.push(line);
            proof {
                self.spec_libs().lemma_take_succ_push(i as int);
                self.spec_libs().take(i as int).lemma_push_map_commute(
                    |l: Seq<char>| link_line(l),
                    self.spec_libs()[i as int],
                );
                assert(lines.deep_view() =~= prev.push(link_line(self.spec_libs()[i as int])));
            }
            i += 1;
        }
        let mut inc = "cargo:include=".to_owned();
        let include_dir = self.include_dir();
        inc.append(include_dir.as_str());
        let ghost prev1 = lines.deep_view();
        lines.push(inc);
        let mut lib = "cargo:lib=".to_owned();
        lib.append(lib_dir.as_str());
        let ghost prev2 = lines.deep_view();
        lines.push(lib);
        proof {
            assert(self.spec_libs().take(self.libs.len() as int) =~= self.spec_libs());
            assert(prev2 =~= prev1.push("cargo:include="@ + joined(self.spec_root(), "include"@)));
            assert(lines.deep_view() =~= prev2.push("cargo:lib="@ + joined(self.spec_root(), "lib"@)));
            assert(lines.deep_view() =~= metadata_lines(self.spec_root(), self.spec_libs()));
        }
        lines
    }

    /// Writes the metadata lines, in order, to the build tool's
    /// standard-output channel.
    pub fn print_cargo_metadata(&self) {
        let lines = self.cargo_metadata_lines();
        let mut i: usize = 0;
        while i < lines.len()
            decreases lines.len() - i,
        {
            emit_line(lines[i].as_str());
            i += 1;
        }
    }
}

/// Relies on std::io::stdout and std::io::Write::write_fmt: writes one
/// line to standard output, the channel the outer build orchestrator
/// reads directives from.
#[verifier::external_body]
fn emit_line(line: &str) {
    let mut out = std::io::stdout();
    let _ = writeln!(out, "{}", line);
}

} // verus!
