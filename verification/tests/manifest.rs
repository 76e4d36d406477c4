use safepkt_backend::manifest::{get_manifest, make_manifest, replace_all};

#[test]
fn it_makes_a_manifest() {
    let expected_manifest = r#"
[package]
name = "test"
version = "0.1.0"
authors = ["Parity Technologies <admin@parity.io>", "CJDNS SASU"]
edition = "2018"

[dependencies]
verification-annotations = { path="/rvt/verification-annotations" }
ink_primitives = { version = "2.1.0", path = "../../primitives", default-features = false }
ink_abi = { version = "2.1.0", path = "../../abi", default-features = false, features = ["derive"], optional = true }
ink_core = { version = "2.1.0", path = "../../core", default-features = false }
ink_lang = { version = "2.1.0", path = "../../lang", default-features = false }
ink_prelude = { version = "2.1.0", path = "../../prelude", default-features = false }

scale = { package = "parity-scale-codec", version = "1.2", default-features = false, features = ["derive"] }

[dependencies.type-metadata]
git = "https://github.com/type-metadata/type-metadata.git"
rev = "02eae9f35c40c943b56af5b60616219f2b72b47d"
default-features = false
features = ["derive"]
optional = true

[lib]
name = "test"
path = "lib.rs"
crate-type = [
	# Used for normal contract Wasm blobs.
	"cdylib",
	# Used for ABI generation.
	"rlib",
]

[features]
verifier-klee = ["verification-annotations/verifier-klee"]
default = ["test-env"]
std = [
    "ink_abi/std",
    "ink_core/std",
    "ink_primitives/std",
    "ink_prelude/std",
    "scale/std",
    "type-metadata/std",
]
test-env = [
    "std",
    "ink_lang/test-env",
]
ink-generate-abi = [
    "std",
    "ink_abi",
    "type-metadata",
    "ink_core/ink-generate-abi",
    "ink_lang/ink-generate-abi",
]
ink-as-dependency = []

[profile.release]
panic = "abort"
lto = true
opt-level = "z"
overflow-checks = true

[workspace]
members = [
	".ink/abi_gen"
]
exclude = [
	".ink"
]

[target.'cfg(not(verify))'.dependencies]
proptest = { version = "0.10" }

[target.'cfg(verify)'.dependencies]
propverify = { path="/rvt/propverify" }
"#;

    assert_eq!(expected_manifest, make_manifest("test", "/rvt"))
}

#[test]
fn it_makes_a_binary_manifest() {
    let manifest = get_manifest("safepkt_abc123");
    assert!(manifest.contains("name = \"safepkt_abc123\""));
    assert!(manifest.contains("[[bin]]"));
    assert!(!manifest.contains("{{ name }}"));
}

#[test]
fn it_replaces_every_occurrence_of_a_pattern() {
    assert_eq!("b.b.", replace_all("a.a.", "a", "b"));
    assert_eq!("unchanged", replace_all("unchanged", "zz", "y"));
    assert_eq!("xyx", replace_all("xaax", "aa", "y"));
    assert_eq!("", replace_all("", "a", "b"));
    // Replacement scans left to right without re-examining replaced text.
    assert_eq!("aba", replace_all("aabaa", "aa", "a"));
}
