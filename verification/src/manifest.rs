use vstd::prelude::*;

verus! {

/// Every occurrence of a non-empty pattern in `s` replaced by
/// `replacement`, scanning left to right without re-examining replaced
/// text.
pub open spec fn spec_replace(
    s: Seq<char>,
    pattern: Seq<char>,
    replacement: Seq<char>,
) -> Seq<char>
    decreases s.len(),
{
    if s.len() == 0 {
        s
    } else if pattern.len() > 0 && s.len() >= pattern.len() && s.take(pattern.len() as int)
        == pattern {
        replacement + spec_replace(s.skip(pattern.len() as int), pattern, replacement)
    } else {
        seq![s[0]] + spec_replace(s.skip(1), pattern, replacement)
    }
}

/// Whether `pattern` occurs in `s` at position `i`.
fn matches_at(s: &str, i: usize, pattern: &str) -> (r: bool)
    requires
        i + pattern@.len() <= s@.len(),
    ensures
        r == (s@.subrange(i as int, i as int + pattern@.len() as int) == pattern@),
{
    let n = s.unicode_len();
    let m = pattern.unicode_len();
    let mut j: usize = 0;
    while j < m
        invariant
            0 <= j <= m,
            m == pattern@.len(),
            n == s@.len(),
            i + m <= n,
            forall|t: int| 0 <= t < j ==> s@[i + t] == pattern@[t],
        decreases m - j,
    {
        if s.get_char(i + j) != pattern.get_char(j) {
            proof {
                assert(s@.subrange(i as int, i as int + m as int)[j as int] == s@[i + j]);
            }
            return false;
        }
        j += 1;
    }
    proof {
        assert(s@.subrange(i as int, i as int + m as int) =~= pattern@);
    }
    true
}

/// Replace every occurrence of a non-empty pattern, scanning left to right.
pub fn replace_all(s: &str, pattern: &str, replacement: &str) -> (r: String)
    requires
        pattern@.len() > 0,
    ensures
        r@ == spec_replace(s@, pattern@, replacement@),
{
    let n = s.unicode_len();
    let m = pattern.unicode_len();
    let mut result = String::new();
    let mut i: usize = 0;
    proof {
        assert(s@.skip(0) =~= s@);
    }
    while i < n
        invariant
            0 <= i <= n,
            n == s@.len(),
            m == pattern@.len(),
            m > 0,
            result@ + spec_replace(s@.skip(i as int), pattern@, replacement@) == spec_replace(
                s@,
                pattern@,
                replacement@,
            ),
        decreases n - i,
    {
        let ghost remaining = s@.skip(i as int);
        let matched = if n - i >= m {
            matches_at(s, i, pattern)
        } else {
            false
        };
        if matched {
            result.append(replacement);
            proof {
                assert(remaining.take(m as int) =~= s@.subrange(i as int, i as int + m as int));
                assert(spec_replace(remaining, pattern@, replacement@) == replacement@
                    + spec_replace(remaining.skip(m as int), pattern@, replacement@));
                assert(remaining.skip(m as int) =~= s@.skip(i as int + m as int));
            }
            i += m;
        } else {
            proof {
                if n - i >= m {
                    assert(remaining.take(m as int) =~= s@.subrange(
                        i as int,
                        i as int + m as int,
                    ));
                    assert(remaining.take(m as int) != pattern@);
                } else {
                    assert(remaining.len() < pattern@.len());
                }
                assert(remaining[0] == s@[i as int]);
                assert(remaining.skip(1) =~= s@.skip(i as int + 1));
            }
            let piece = s.substring_char(i, i + 1);
            result.append(piece);
            proof {
                assert(piece@ =~= seq![remaining[0]]);
            }
            i += 1;
        }
    }
    proof {
        assert(s@.skip(n as int) =~= Seq::<char>::empty());
        assert(result@ + spec_replace(s@.skip(n as int), pattern@, replacement@) =~= result@);
    }
    result
}

/// The manifest template of a scaffolded library project.
pub open spec fn spec_library_manifest_template() -> Seq<char> {
    r#"
[package]
name = "{{ name }}"
version = "0.1.0"
authors = ["Parity Technologies <admin@parity.io>", "CJDNS SASU"]
edition = "2018"

[dependencies]
verification-annotations = { path="{{ rust_verification_tools }}/verification-annotations" }
ink_primitives = { version = "2.1.0", path = "../../primitives", default-features = false }
ink_abi = { version = "2.1.0", path = "../../abi", default-features = false, features = ["derive"], optional = true }
ink_core = { version = "2.1.0", path = "../../core", default-features = false }
ink_lang = { version = "2.1.0", path = "../../lang", default-features = false }
ink_prelude = { version = "2.1.0", path = "../../prelude", default-features = false }

scale = { package = "parity-scale-codec", version = "1.2", default-features = false, features = ["derive"] }

[dependencies.type-metadata]
git = "https://github.com/type-metadata/type-metadata.git"
rev = "02eae9f35c40c943b56af5b60616219f2b72b47d"
default-features = false
features = ["derive"]
optional = true

[lib]
name = "{{ name }}"
path = "lib.rs"
crate-type = [
	# Used for normal contract Wasm blobs.
	"cdylib",
	# Used for ABI generation.
	"rlib",
]

[features]
verifier-klee = ["verification-annotations/verifier-klee"]
default = ["test-env"]
std = [
    "ink_abi/std",
    "ink_core/std",
    "ink_primitives/std",
    "ink_prelude/std",
    "scale/std",
    "type-metadata/std",
]
test-env = [
    "std",
    "ink_lang/test-env",
]
ink-generate-abi = [
    "std",
    "ink_abi",
    "type-metadata",
    "ink_core/ink-generate-abi",
    "ink_lang/ink-generate-abi",
]
ink-as-dependency = []

[profile.release]
panic = "abort"
lto = true
opt-level = "z"
overflow-checks = true

[workspace]
members = [
	".ink/abi_gen"
]
exclude = [
	".ink"
]

[target.'cfg(not(verify))'.dependencies]
proptest = { version = "0.10" }

[target.'cfg(verify)'.dependencies]
propverify = { path="{{ rust_verification_tools }}/propverify" }
"#@
}

/// The manifest template of a scaffolded binary project.
pub open spec fn spec_binary_manifest_template() -> Seq<char> {
    r#"
[package]
name = "{{ name }}"
version = "0.1.0"
authors = [""]
edition = "2018"

[[bin]]
name = "{{ name }}"
path = "src/main.rs"

[dependencies]
verification-annotations = { path="/home/rust-verification-tools/verification-annotations" }

[features]
verifier-klee = ["verification-annotations/verifier-klee"]

[target.'cfg(not(verify))'.dependencies]
proptest = { version = "0.10" }

[target.'cfg(verify)'.dependencies]
propverify = { path="/home/rust-verification-tools/propverify" }
"#@
}

/// Make a manifest for a scaffolded library project from a package name and
/// a path to the verification-tools checkout.
pub fn make_manifest(package_name: &str, rvt_dir_path: &str) -> (r: String)
    ensures
        r@ == spec_replace(
            spec_replace(spec_library_manifest_template(), "{{ name }}"@, package_name@),
            "{{ rust_verification_tools }}"@,
            rvt_dir_path@,
        ),
{
    let template = r#"
[package]
name = "{{ name }}"
version = "0.1.0"
authors = ["Parity Technologies <admin@parity.io>", "CJDNS SASU"]
edition = "2018"

[dependencies]
verification-annotations = { path="{{ rust_verification_tools }}/verification-annotations" }
ink_primitives = { version = "2.1.0", path = "../../primitives", default-features = false }
ink_abi = { version = "2.1.0", path = "../../abi", default-features = false, features = ["derive"], optional = true }
ink_core = { version = "2.1.0", path = "../../core", default-features = false }
ink_lang = { version = "2.1.0", path = "../../lang", default-features = false }
ink_prelude = { version = "2.1.0", path = "../../prelude", default-features = false }

scale = { package = "parity-scale-codec", version = "1.2", default-features = false, features = ["derive"] }

[dependencies.type-metadata]
git = "https://github.com/type-metadata/type-metadata.git"
rev = "02eae9f35c40c943b56af5b60616219f2b72b47d"
default-features = false
features = ["derive"]
optional = true

[lib]
name = "{{ name }}"
path = "lib.rs"
crate-type = [
	# Used for normal contract Wasm blobs.
	"cdylib",
	# Used for ABI generation.
	"rlib",
]

[features]
verifier-klee = ["verification-annotations/verifier-klee"]
default = ["test-env"]
std = [
    "ink_abi/std",
    "ink_core/std",
    "ink_primitives/std",
    "ink_prelude/std",
    "scale/std",
    "type-metadata/std",
]
test-env = [
    "std",
    "ink_lang/test-env",
]
ink-generate-abi = [
    "std",
    "ink_abi",
    "type-metadata",
    "ink_core/ink-generate-abi",
    "ink_lang/ink-generate-abi",
]
ink-as-dependency = []

[profile.release]
panic = "abort"
lto = true
opt-level = "z"
overflow-checks = true

[workspace]
members = [
	".ink/abi_gen"
]
exclude = [
	".ink"
]

[target.'cfg(not(verify))'.dependencies]
proptest = { version = "0.10" }

[target.'cfg(verify)'.dependencies]
propverify = { path="{{ rust_verification_tools }}/propverify" }
"#;
    proof {
        reveal_strlit("{{ name }}");
        reveal_strlit("{{ rust_verification_tools }}");
    }
    let named = replace_all(template, "{{ name }}", package_name);
    replace_all(named.as_str(), "{{ rust_verification_tools }}", rvt_dir_path)
}

/// Make a manifest for a scaffolded binary project from a package name.
pub fn get_manifest(package_name: &str) -> (r: String)
    ensures
        r@ == spec_replace(spec_binary_manifest_template(), "{{ name }}"@, package_name@),
{
    let template = r#"
[package]
name = "{{ name }}"
version = "0.1.0"
authors = [""]
edition = "2018"

[[bin]]
name = "{{ name }}"
path = "src/main.rs"

[dependencies]
verification-annotations = { path="/home/rust-verification-tools/verification-annotations" }

[features]
verifier-klee = ["verification-annotations/verifier-klee"]

[target.'cfg(not(verify))'.dependencies]
proptest = { version = "0.10" }

[target.'cfg(verify)'.dependencies]
propverify = { path="/home/rust-verification-tools/propverify" }
"#;
    proof {
        reveal_strlit("{{ name }}");
    }
    replace_all(template, "{{ name }}", package_name)
}

} // verus!
