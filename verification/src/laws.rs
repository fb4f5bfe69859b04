//! What holds of the pipeline as a whole.

use crate::metadata::{lemma_first_bindgen, MetadataView};
use crate::options::Opt;
use crate::package::{discovered, info_of, takes_part, BindgenPackages, PackageInfoView};
use crate::text::{ascending, lemma_precedes_one_way};
use vstd::prelude::*;

verus! {

/// A project in which no package of its own has the binding-generation
/// library in its dependency graph has no package that takes part in a build.
pub proof fn lemma_nothing_to_build_without_the_library(metadata: MetadataView, upto: int)
    requires
        forall|a: int, b: int| metadata.is_member(a) ==> !metadata.binds(a, b),
    ensures
        discovered(metadata, upto).len() == 0,
    decreases upto,
{
    if upto > 0 {
        lemma_nothing_to_build_without_the_library(metadata, upto - 1);
        lemma_first_bindgen(metadata, upto - 1, 0);
    }
}

/// Each package of a build is one of the project's own with the library in its
/// dependency graph, and carries the version of that library.
pub proof fn lemma_discovered_take_part(metadata: MetadataView, upto: int, i: int)
    requires
        0 <= i < discovered(metadata, upto).len(),
    ensures
        exists|a: int|
            0 <= a < upto && takes_part(metadata, a) && discovered(metadata, upto)[i] == info_of(
                metadata,
                a,
                metadata.bindgen_version(a)->0,
            ),
    decreases upto,
{
    if upto > 0 {
        let a = upto - 1;
        if takes_part(metadata, a) && i == discovered(metadata, upto - 1).len() {
            assert(discovered(metadata, upto)[i] == info_of(
                metadata,
                a,
                metadata.bindgen_version(a)->0,
            ));
        } else {
            lemma_discovered_take_part(metadata, upto - 1, i);
            let shorter = discovered(metadata, upto - 1);
            let found = choose|found: int|
                0 <= found < upto - 1 && takes_part(metadata, found) && shorter[i] == info_of(
                    metadata,
                    found,
                    metadata.bindgen_version(found)->0,
                );
            assert(0 <= found < upto && discovered(metadata, upto)[i] == info_of(
                metadata,
                found,
                metadata.bindgen_version(found)->0,
            ));
        }
    }
}

/// No package of the project's own with the library in its dependency graph
/// is left out of a build.
pub proof fn lemma_taking_part_is_discovered(metadata: MetadataView, upto: int, a: int)
    requires
        0 <= a < upto,
        takes_part(metadata, a),
    ensures
        discovered(metadata, upto).contains(
            info_of(metadata, a, metadata.bindgen_version(a)->0),
        ),
    decreases upto,
{
    let wanted = info_of(metadata, a, metadata.bindgen_version(a)->0);
    if a == upto - 1 {
        let last = discovered(metadata, upto - 1).len() as int;
        assert(discovered(metadata, upto)[last] == wanted);
    } else {
        lemma_taking_part_is_discovered(metadata, upto - 1, a);
        let shorter = discovered(metadata, upto - 1);
        let at = choose|at: int| 0 <= at < shorter.len() && shorter[at] == wanted;
        assert(discovered(metadata, upto)[at] == wanted);
    }
}

/// An ascending list holds no text twice.
pub proof fn lemma_ascending_holds_each_once(list: Seq<Seq<char>>, i: int, j: int)
    requires
        ascending(list),
        0 <= i < list.len(),
        0 <= j < list.len(),
        list[i] == list[j],
    ensures
        i == j,
{
    if i < j {
        lemma_precedes_one_way(list[i], list[j]);
    } else if j < i {
        lemma_precedes_one_way(list[j], list[i]);
    }
}

/// The helper CLI is installed once for each version that is needed, however
/// many packages need it: the list of installations holds the version of each
/// package at exactly one place, and nothing that no package needs.
pub proof fn lemma_one_installation_for_each_version(
    packages: BindgenPackages,
    installs: Seq<Seq<char>>,
    i: int,
)
    requires
        packages.installs_with(installs),
        0 <= i < packages.packages@.len(),
    ensures
        exists|k: int|
            0 <= k < installs.len() && installs[k] == packages.packages@[i]@.wasm_bindgen_version
                && forall|m: int|
                0 <= m < installs.len() && installs[m] == installs[k] ==> m == k,
        forall|k: int|
            0 <= k < installs.len() ==> exists|p: int|
                0 <= p < packages.packages@.len() && packages.packages@[p]@.wasm_bindgen_version
                    == #[trigger] installs[k],
{
    let version = packages.packages@[i]@.wasm_bindgen_version;
    assert(packages.versions()[i] == version);
    assert(installs.contains(version));
    let k = choose|k: int| 0 <= k < installs.len() && installs[k] == version;
    assert forall|m: int| 0 <= m < installs.len() && installs[m] == installs[k] implies m == k by {
        lemma_ascending_holds_each_once(installs, m, k);
    }
    assert forall|k: int| 0 <= k < installs.len() implies exists|p: int|
        0 <= p < packages.packages@.len() && packages.packages@[p]@.wasm_bindgen_version
            == #[trigger] installs[k] by {
        assert(installs.contains(installs[k]));
        let p = choose|p: int|
            0 <= p < packages.versions().len() && packages.versions()[p] == installs[k];
        assert(packages.packages@[p]@.wasm_bindgen_version == installs[k]);
    }
}

/// The helper CLI is told to write no TypeScript exactly where the build does
/// not ask for it.
pub proof fn lemma_typescript_only_on_request(opt: Opt)
    ensures
        PackageInfoView::glue_switches(opt).contains("--no-typescript"@) <==> !opt.typescript,
{
    reveal_strlit("--no-typescript");
    reveal_strlit("--weak-refs");
    reveal_strlit("--reference-types");
    reveal_strlit("--no-demangle");
    let switches = PackageInfoView::glue_switches(opt);
    if !opt.typescript {
        assert(switches[0] == "--no-typescript"@);
    } else {
        assert forall|i: int| 0 <= i < switches.len() implies switches[i]
            != "--no-typescript"@ by {
            assert(switches[i] == "--weak-refs"@ || switches[i] == "--reference-types"@
                || switches[i] == "--no-demangle"@);
            assert("--no-typescript"@.len() == 15);
            assert("--weak-refs"@.len() == 11);
            assert("--reference-types"@.len() == 17);
            assert("--no-demangle"@.len() == 13);
        }
    }
}

} // verus!
