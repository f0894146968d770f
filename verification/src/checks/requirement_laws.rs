//! What each list of requirements asks of the files, in order.

use crate::checks::check_laws::{law_texts_are_missed_or_found, stands_in};
use crate::checks::ensure::or_else;
use crate::checks::requirements::{
    Document, Documents, Requirement, Rule, all_requirements, build_routes, change_detection,
    documents_problem, release_commands, release_notes, requirement_problem, requirements_problem,
    text_of, website_checks, website_deploy,
};
use crate::checks::workflow::{
    container_problem, crate_tests_problem, dispatch_problem, dispatch_release_jobs,
    windows_cache_problem,
};
use crate::scan::{joined, lines_of, words};
use vstd::prelude::*;

verus! {

/// What is said of the first point that does not hold.
pub open spec fn first_unmet(points: Seq<(bool, Seq<char>)>) -> Option<Seq<char>>
    decreases points.len(),
{
    if points.len() == 0 {
        None
    } else {
        match first_unmet(points.drop_last()) {
            Some(problem) => Some(problem),
            None => if points.last().0 {
                None
            } else {
                Some(points.last().1)
            },
        }
    }
}

/// A text has to stand in another.
pub open spec fn has(text: Seq<char>, part: Seq<char>, context: Seq<char>) -> (bool, Seq<char>) {
    (stands_in(text, part), context + ": missing `"@ + part + "`"@)
}

/// A text has to stand in another, whatever the white space between the words.
pub open spec fn has_words(text: Seq<char>, part: Seq<char>, context: Seq<char>) -> (
    bool,
    Seq<char>,
) {
    (
        stands_in(joined(words(text), " "@), joined(words(part), " "@)),
        context + ": missing `"@ + part + "`"@,
    )
}

/// A text must not stand in another.
pub open spec fn lacks(text: Seq<char>, part: Seq<char>, context: Seq<char>) -> (bool, Seq<char>) {
    (!stands_in(text, part), context + ": unexpected `"@ + part + "`"@)
}

/// The point that a requirement is.
spec fn point_of(documents: Documents, requirement: Requirement) -> (bool, Seq<char>) {
    let problem = requirement_problem(documents, requirement);
    (
        problem is None,
        match problem {
            Some(problem) => problem,
            None => Seq::empty(),
        },
    )
}

spec fn same_point(one: (bool, Seq<char>), other: (bool, Seq<char>)) -> bool {
    one.0 == other.0 && (!one.0 ==> one.1 == other.1)
}

proof fn lemma_first_unmet(
    documents: Documents,
    requirements: Seq<Requirement>,
    points: Seq<(bool, Seq<char>)>,
)
    requires
        requirements.len() == points.len(),
        forall|i: int|
            0 <= i < points.len() ==> same_point(
                point_of(documents, requirements[i]),
                #[trigger] points[i],
            ),
    ensures
        requirements_problem(documents, requirements) == first_unmet(points),
    decreases points.len(),
{
    if points.len() > 0 {
        let earlier = points.drop_last();
        assert forall|i: int| 0 <= i < earlier.len() implies same_point(
            point_of(documents, requirements.drop_last()[i]),
            #[trigger] earlier[i],
        ) by {
            assert(same_point(point_of(documents, requirements[i]), points[i]));
        }
        lemma_first_unmet(documents, requirements.drop_last(), earlier);
        let last = points.len() - 1;
        assert(same_point(point_of(documents, requirements[last]), points[last]));
    }
}

proof fn lemma_point(documents: Documents, requirement: Requirement)
    ensures
        same_point(
            point_of(documents, requirement),
            match requirement.rule {
                Rule::Contains => has(
                    text_of(documents, requirement.document),
                    requirement.needle@,
                    requirement.context@,
                ),
                Rule::ContainsWords => has_words(
                    text_of(documents, requirement.document),
                    requirement.needle@,
                    requirement.context@,
                ),
                Rule::Lacks => lacks(
                    text_of(documents, requirement.document),
                    requirement.needle@,
                    requirement.context@,
                ),
            },
        ),
{
    law_texts_are_missed_or_found(
        text_of(documents, requirement.document),
        requirement.needle@,
        requirement.context@,
    );
}

/// Every file is asked for by its own text.
pub proof fn law_files_have_their_texts(documents: Documents, document: Document)
    ensures
        text_of(documents, document) == match document {
            Document::Readme => documents.readme@,
            Document::Contributing => documents.contributing@,
            Document::Release => documents.release@,
            Document::Justfile => documents.justfile@,
            Document::ReleaseWorkflow => documents.release_workflow@,
            Document::CiWorkflow => documents.ci_workflow@,
            Document::PrBuildsWorkflow => documents.pr_builds_workflow@,
            Document::PrQualityWorkflow => documents.pr_quality_workflow@,
            Document::PrWebsiteWorkflow => documents.pr_website_workflow@,
            Document::WebsitePagesWorkflow => documents.website_pages_workflow@,
            Document::ComputeChangesAction => documents.compute_changes_action@,
            Document::ConfigureSccacheAction => documents.configure_sccache_action@,
            Document::AffectedCratesScript => documents.affected_crates_script@,
            Document::CiDocs => documents.ci_docs@,
            Document::PrCleanupWorkflow => documents.pr_cleanup_workflow@,
            Document::WindowsWarmCachesWorkflow => documents.windows_warm_caches_workflow@,
        },
{
}

/// The notes on a release, and the workflow that makes it, name what is released.
pub proof fn law_release_notes_are_complete(documents: Documents)
    ensures
        requirements_problem(documents, release_notes()) == first_unmet(
            seq![
                has(
                    documents.readme@,
                    "mesh-llm-aarch64-unknown-linux-gnu.tar.gz"@,
                    "README Linux ARM64 asset note"@,
                ),
                has(
                    documents.readme@,
                    "mesh-llm-aarch64-unknown-linux-gnu-cuda.tar.gz"@,
                    "README Linux ARM64 CUDA asset note"@,
                ),
                has(
                    documents.release@,
                    "mesh-llm-aarch64-unknown-linux-gnu.tar.gz"@,
                    "RELEASE Linux ARM64 asset note"@,
                ),
                has(
                    documents.release@,
                    "mesh-llm-aarch64-unknown-linux-gnu-cuda.tar.gz"@,
                    "RELEASE Linux ARM64 CUDA asset note"@,
                ),
                has_words(
                    documents.readme@,
                    "Windows CPU, Windows CUDA, Windows ROCm, and Windows Vulkan bundles"@,
                    "README Windows publish note"@,
                ),
                has(
                    documents.release@,
                    "Windows release artifacts use the `x86_64-pc-windows-msvc` target triple"@,
                    "RELEASE Windows publish note"@,
                ),
                has(
                    documents.release_workflow@,
                    "runs-on: ubuntu-24.04-arm"@,
                    "release workflow ARM64 runner"@,
                ),
                has(
                    documents.release_workflow@,
                    "name: release-linux-arm64"@,
                    "release workflow ARM64 artifact"@,
                ),
                has(
                    documents.release_workflow@,
                    "name: release-linux-aarch64-cuda-${{ matrix.cuda_version }}"@,
                    "release workflow aarch64 CUDA artifact (matrix)"@,
                ),
                has(
                    documents.release_workflow@,
                    "- build_linux_aarch64_cuda"@,
                    "release workflow aarch64 CUDA publish need"@,
                ),
                has(
                    documents.release_workflow@,
                    "build_windows_cpu:"@,
                    "release workflow Windows CPU build"@,
                ),
                has(
                    documents.release_workflow@,
                    "build_windows_gpu:"@,
                    "release workflow Windows GPU build"@,
                ),
                has(
                    documents.release_workflow@,
                    "- build_windows_cpu"@,
                    "release workflow Windows CPU publish need"@,
                ),
                has(
                    documents.release_workflow@,
                    "- build_windows_gpu"@,
                    "release workflow Windows GPU publish need"@,
                ),
            ],
        ),
{
    let list = release_notes();
    let points = seq![
        has(
            documents.readme@,
            "mesh-llm-aarch64-unknown-linux-gnu.tar.gz"@,
            "README Linux ARM64 asset note"@,
        ),
        has(
            documents.readme@,
            "mesh-llm-aarch64-unknown-linux-gnu-cuda.tar.gz"@,
            "README Linux ARM64 CUDA asset note"@,
        ),
        has(
            documents.release@,
            "mesh-llm-aarch64-unknown-linux-gnu.tar.gz"@,
            "RELEASE Linux ARM64 asset note"@,
        ),
        has(
            documents.release@,
            "mesh-llm-aarch64-unknown-linux-gnu-cuda.tar.gz"@,
            "RELEASE Linux ARM64 CUDA asset note"@,
        ),
        has_words(
            documents.readme@,
            "Windows CPU, Windows CUDA, Windows ROCm, and Windows Vulkan bundles"@,
            "README Windows publish note"@,
        ),
        has(
            documents.release@,
            "Windows release artifacts use the `x86_64-pc-windows-msvc` target triple"@,
            "RELEASE Windows publish note"@,
        ),
        has(
            documents.release_workflow@,
            "runs-on: ubuntu-24.04-arm"@,
            "release workflow ARM64 runner"@,
        ),
        has(
            documents.release_workflow@,
            "name: release-linux-arm64"@,
            "release workflow ARM64 artifact"@,
        ),
        has(
            documents.release_workflow@,
            "name: release-linux-aarch64-cuda-${{ matrix.cuda_version }}"@,
            "release workflow aarch64 CUDA artifact (matrix)"@,
        ),
        has(
            documents.release_workflow@,
            "- build_linux_aarch64_cuda"@,
            "release workflow aarch64 CUDA publish need"@,
        ),
        has(
            documents.release_workflow@,
            "build_windows_cpu:"@,
            "release workflow Windows CPU build"@,
        ),
        has(
            documents.release_workflow@,
            "build_windows_gpu:"@,
            "release workflow Windows GPU build"@,
        ),
        has(
            documents.release_workflow@,
            "- build_windows_cpu"@,
            "release workflow Windows CPU publish need"@,
        ),
        has(
            documents.release_workflow@,
            "- build_windows_gpu"@,
            "release workflow Windows GPU publish need"@,
        ),
    ];
    assert(list.len() == 14);
    assert(points.len() == 14);
    assert forall|i: int| 0 <= i < points.len() implies same_point(
        point_of(documents, list[i]),
        #[trigger] points[i],
    ) by {
        lemma_point(documents, list[i]);
        assert(
            i == 0 || i == 1 || i == 2 || i == 3 || i == 4 || i == 5 || i == 6 || i == 7 || i == 8
            || i == 9 || i == 10 || i == 11 || i == 12 || i == 13
        );
    }
    lemma_first_unmet(documents, list, points);
}

/// The commands that make a release are there.
pub proof fn law_release_commands_are_there(documents: Documents)
    ensures
        requirements_problem(documents, release_commands()) == first_unmet(
            seq![
                has(
                    documents.justfile@,
                    "check-release:"@,
                    "Justfile release consistency wrapper"@,
                ),
                has(
                    documents.justfile@,
                    "release-build-aarch64-cuda"@,
                    "Justfile aarch64 CUDA build recipe"@,
                ),
                has(
                    documents.justfile@,
                    "release-bundle-aarch64-cuda"@,
                    "Justfile aarch64 CUDA bundle recipe"@,
                ),
                has(
                    documents.justfile@,
                    "cargo run -p xtask -- repo-consistency release-targets"@,
                    "Justfile xtask command"@,
                ),
                has(
                    documents.contributing@,
                    "just check-release"@,
                    "CONTRIBUTING release consistency command"@,
                ),
                has(
                    documents.contributing@,
                    "On native Windows, `just check-release` runs the host-safe Rust/doc invariant subset and skips the Bash-only `install.sh` / `package-release.sh` parity checks"@,
                    "CONTRIBUTING Windows check-release note"@,
                ),
                has(
                    documents.release@,
                    "On native Windows, `just check-release` still runs the Rust/docs/workflow invariant checks, but it skips the Bash-only `install.sh` and `scripts/package-release.sh` parity checks"@,
                    "RELEASE Windows check-release note"@,
                ),
                has(
                    documents.pr_builds_workflow@,
                    "cargo run -p xtask -- repo-consistency release-targets"@,
                    "PR Builds xtask release-target check"@,
                ),
                has(
                    documents.pr_quality_workflow@,
                    "name: PR Quality Checks"@,
                    "PR quality workflow display name"@,
                ),
                has(
                    documents.pr_quality_workflow@,
                    "cargo run -p xtask -- repo-consistency ci-crate-lists"@,
                    "PR quality CI crate-list drift check"@,
                ),
                lacks(
                    documents.pr_quality_workflow@,
                    "website-build:"@,
                    "PR quality should not own public website builds"@,
                ),
            ],
        ),
{
    let list = release_commands();
    let points = seq![
        has(
            documents.justfile@,
            "check-release:"@,
            "Justfile release consistency wrapper"@,
        ),
        has(
            documents.justfile@,
            "release-build-aarch64-cuda"@,
            "Justfile aarch64 CUDA build recipe"@,
        ),
        has(
            documents.justfile@,
            "release-bundle-aarch64-cuda"@,
            "Justfile aarch64 CUDA bundle recipe"@,
        ),
        has(
            documents.justfile@,
            "cargo run -p xtask -- repo-consistency release-targets"@,
            "Justfile xtask command"@,
        ),
        has(
            documents.contributing@,
            "just check-release"@,
            "CONTRIBUTING release consistency command"@,
        ),
        has(
            documents.contributing@,
            "On native Windows, `just check-release` runs the host-safe Rust/doc invariant subset and skips the Bash-only `install.sh` / `package-release.sh` parity checks"@,
            "CONTRIBUTING Windows check-release note"@,
        ),
        has(
            documents.release@,
            "On native Windows, `just check-release` still runs the Rust/docs/workflow invariant checks, but it skips the Bash-only `install.sh` and `scripts/package-release.sh` parity checks"@,
            "RELEASE Windows check-release note"@,
        ),
        has(
            documents.pr_builds_workflow@,
            "cargo run -p xtask -- repo-consistency release-targets"@,
            "PR Builds xtask release-target check"@,
        ),
        has(
            documents.pr_quality_workflow@,
            "name: PR Quality Checks"@,
            "PR quality workflow display name"@,
        ),
        has(
            documents.pr_quality_workflow@,
            "cargo run -p xtask -- repo-consistency ci-crate-lists"@,
            "PR quality CI crate-list drift check"@,
        ),
        lacks(
            documents.pr_quality_workflow@,
            "website-build:"@,
            "PR quality should not own public website builds"@,
        ),
    ];
    assert(list.len() == 11);
    assert(points.len() == 11);
    assert forall|i: int| 0 <= i < points.len() implies same_point(
        point_of(documents, list[i]),
        #[trigger] points[i],
    ) by {
        lemma_point(documents, list[i]);
        assert(
            i == 0 || i == 1 || i == 2 || i == 3 || i == 4 || i == 5 || i == 6 || i == 7 || i == 8
            || i == 9 || i == 10
        );
    }
    lemma_first_unmet(documents, list, points);
}

/// Changes are detected by what they touch.
pub proof fn law_changes_are_detected(documents: Documents)
    ensures
        requirements_problem(documents, change_detection()) == first_unmet(
            seq![
                has(
                    documents.compute_changes_action@,
                    "website_changed"@,
                    "compute-changes public website change output"@,
                ),
                has(
                    documents.compute_changes_action@,
                    "website_docs_changed"@,
                    "compute-changes public website docs output"@,
                ),
                has(
                    documents.compute_changes_action@,
                    "cli_surface_changed"@,
                    "compute-changes CLI surface output"@,
                ),
                has(
                    documents.compute_changes_action@,
                    "inference_artifact_required"@,
                    "compute-changes inference artifact output"@,
                ),
                has(
                    documents.compute_changes_action@,
                    "backend_recipe_changed"@,
                    "compute-changes backend Justfile recipe output"@,
                ),
                has(
                    documents.compute_changes_action@,
                    "windows_cpu_build_required"@,
                    "compute-changes Windows CPU build output"@,
                ),
                has(
                    documents.compute_changes_action@,
                    "windows_gpu_build_required"@,
                    "compute-changes Windows GPU build output"@,
                ),
                has(
                    documents.compute_changes_action@,
                    "build-linux-rocm"@,
                    "compute-changes Linux ROCm build script route"@,
                ),
                has(
                    documents.affected_crates_script@,
                    "is_website_input"@,
                    "affected-crates public website input classifier"@,
                ),
            ],
        ),
{
    let list = change_detection();
    let points = seq![
        has(
            documents.compute_changes_action@,
            "website_changed"@,
            "compute-changes public website change output"@,
        ),
        has(
            documents.compute_changes_action@,
            "website_docs_changed"@,
            "compute-changes public website docs output"@,
        ),
        has(
            documents.compute_changes_action@,
            "cli_surface_changed"@,
            "compute-changes CLI surface output"@,
        ),
        has(
            documents.compute_changes_action@,
            "inference_artifact_required"@,
            "compute-changes inference artifact output"@,
        ),
        has(
            documents.compute_changes_action@,
            "backend_recipe_changed"@,
            "compute-changes backend Justfile recipe output"@,
        ),
        has(
            documents.compute_changes_action@,
            "windows_cpu_build_required"@,
            "compute-changes Windows CPU build output"@,
        ),
        has(
            documents.compute_changes_action@,
            "windows_gpu_build_required"@,
            "compute-changes Windows GPU build output"@,
        ),
        has(
            documents.compute_changes_action@,
            "build-linux-rocm"@,
            "compute-changes Linux ROCm build script route"@,
        ),
        has(
            documents.affected_crates_script@,
            "is_website_input"@,
            "affected-crates public website input classifier"@,
        ),
    ];
    assert(list.len() == 9);
    assert(points.len() == 9);
    assert forall|i: int| 0 <= i < points.len() implies same_point(
        point_of(documents, list[i]),
        #[trigger] points[i],
    ) by {
        lemma_point(documents, list[i]);
        assert(
            i == 0 || i == 1 || i == 2 || i == 3 || i == 4 || i == 5 || i == 6 || i == 7 || i == 8
        );
    }
    lemma_first_unmet(documents, list, points);
}

/// The website is checked where it changes.
pub proof fn law_website_is_checked(documents: Documents)
    ensures
        requirements_problem(documents, website_checks()) == first_unmet(
            seq![
                has(
                    documents.pr_website_workflow@,
                    "name: PR Website Checks"@,
                    "PR website workflow display name"@,
                ),
                has(
                    documents.pr_website_workflow@,
                    "./.github/actions/compute-changes"@,
                    "PR website compute-changes route"@,
                ),
                has(
                    documents.pr_website_workflow@,
                    "website_changed"@,
                    "PR website public website change gate"@,
                ),
                has(
                    documents.pr_website_workflow@,
                    "website-build:"@,
                    "PR website public website build gate"@,
                ),
                has(
                    documents.pr_website_workflow@,
                    "npm run build"@,
                    "PR website public website build command"@,
                ),
                has(
                    documents.pr_website_workflow@,
                    "PR Website Checks"@,
                    "PR website Markdown summary output"@,
                ),
            ],
        ),
{
    let list = website_checks();
    let points = seq![
        has(
            documents.pr_website_workflow@,
            "name: PR Website Checks"@,
            "PR website workflow display name"@,
        ),
        has(
            documents.pr_website_workflow@,
            "./.github/actions/compute-changes"@,
            "PR website compute-changes route"@,
        ),
        has(
            documents.pr_website_workflow@,
            "website_changed"@,
            "PR website public website change gate"@,
        ),
        has(
            documents.pr_website_workflow@,
            "website-build:"@,
            "PR website public website build gate"@,
        ),
        has(
            documents.pr_website_workflow@,
            "npm run build"@,
            "PR website public website build command"@,
        ),
        has(
            documents.pr_website_workflow@,
            "PR Website Checks"@,
            "PR website Markdown summary output"@,
        ),
    ];
    assert(list.len() == 6);
    assert(points.len() == 6);
    assert forall|i: int| 0 <= i < points.len() implies same_point(
        point_of(documents, list[i]),
        #[trigger] points[i],
    ) by {
        lemma_point(documents, list[i]);
        assert(
            i == 0 || i == 1 || i == 2 || i == 3 || i == 4 || i == 5
        );
    }
    lemma_first_unmet(documents, list, points);
}

/// Builds take the routes that the changes ask for.
pub proof fn law_builds_take_their_routes(documents: Documents)
    ensures
        requirements_problem(documents, build_routes()) == first_unmet(
            seq![
                has(
                    documents.pr_quality_workflow@,
                    "cli-docs-sync:"@,
                    "PR quality CLI docs sync gate"@,
                ),
                has(
                    documents.pr_quality_workflow@,
                    "GITHUB_STEP_SUMMARY"@,
                    "PR quality Markdown summary output"@,
                ),
                has(
                    documents.pr_builds_workflow@,
                    "website_changed"@,
                    "PR Builds public website change output"@,
                ),
                has(
                    documents.pr_builds_workflow@,
                    "inference_artifact_required"@,
                    "PR Builds inference artifact gate"@,
                ),
                has(
                    documents.pr_builds_workflow@,
                    "backend_recipe_changed"@,
                    "PR Builds backend recipe route"@,
                ),
                has(
                    documents.pr_builds_workflow@,
                    "steps.compute.outputs.windows_cpu_build_required"@,
                    "PR Builds Windows CPU compute route"@,
                ),
                has(
                    documents.pr_builds_workflow@,
                    "steps.compute.outputs.windows_gpu_build_required"@,
                    "PR Builds Windows GPU compute route"@,
                ),
                has(
                    documents.ci_docs@,
                    "website_changed?"@,
                    "CI topology public website route"@,
                ),
                has(
                    documents.ci_docs@,
                    "inference_artifact_required?"@,
                    "CI topology inference artifact route"@,
                ),
                has(
                    documents.ci_docs@,
                    "backend_recipe_changed?"@,
                    "CI topology backend Justfile recipe route"@,
                ),
                has(
                    documents.ci_docs@,
                    "windows_cpu_build_required?"@,
                    "CI topology Windows CPU compute route"@,
                ),
                has(
                    documents.ci_docs@,
                    "windows_gpu_build_required?"@,
                    "CI topology Windows GPU compute route"@,
                ),
                has(
                    documents.ci_docs@,
                    "cli-docs-sync"@,
                    "CI topology CLI docs sync gate"@,
                ),
                has(
                    documents.ci_docs@,
                    "pr_website.yml"@,
                    "CI topology PR website workflow"@,
                ),
            ],
        ),
{
    let list = build_routes();
    let points = seq![
        has(
            documents.pr_quality_workflow@,
            "cli-docs-sync:"@,
            "PR quality CLI docs sync gate"@,
        ),
        has(
            documents.pr_quality_workflow@,
            "GITHUB_STEP_SUMMARY"@,
            "PR quality Markdown summary output"@,
        ),
        has(
            documents.pr_builds_workflow@,
            "website_changed"@,
            "PR Builds public website change output"@,
        ),
        has(
            documents.pr_builds_workflow@,
            "inference_artifact_required"@,
            "PR Builds inference artifact gate"@,
        ),
        has(
            documents.pr_builds_workflow@,
            "backend_recipe_changed"@,
            "PR Builds backend recipe route"@,
        ),
        has(
            documents.pr_builds_workflow@,
            "steps.compute.outputs.windows_cpu_build_required"@,
            "PR Builds Windows CPU compute route"@,
        ),
        has(
            documents.pr_builds_workflow@,
            "steps.compute.outputs.windows_gpu_build_required"@,
            "PR Builds Windows GPU compute route"@,
        ),
        has(
            documents.ci_docs@,
            "website_changed?"@,
            "CI topology public website route"@,
        ),
        has(
            documents.ci_docs@,
            "inference_artifact_required?"@,
            "CI topology inference artifact route"@,
        ),
        has(
            documents.ci_docs@,
            "backend_recipe_changed?"@,
            "CI topology backend Justfile recipe route"@,
        ),
        has(
            documents.ci_docs@,
            "windows_cpu_build_required?"@,
            "CI topology Windows CPU compute route"@,
        ),
        has(
            documents.ci_docs@,
            "windows_gpu_build_required?"@,
            "CI topology Windows GPU compute route"@,
        ),
        has(
            documents.ci_docs@,
            "cli-docs-sync"@,
            "CI topology CLI docs sync gate"@,
        ),
        has(
            documents.ci_docs@,
            "pr_website.yml"@,
            "CI topology PR website workflow"@,
        ),
    ];
    assert(list.len() == 14);
    assert(points.len() == 14);
    assert forall|i: int| 0 <= i < points.len() implies same_point(
        point_of(documents, list[i]),
        #[trigger] points[i],
    ) by {
        lemma_point(documents, list[i]);
        assert(
            i == 0 || i == 1 || i == 2 || i == 3 || i == 4 || i == 5 || i == 6 || i == 7 || i == 8
            || i == 9 || i == 10 || i == 11 || i == 12 || i == 13
        );
    }
    lemma_first_unmet(documents, list, points);
}

/// The website is deployed as it was built.
pub proof fn law_website_is_deployed(documents: Documents)
    ensures
        requirements_problem(documents, website_deploy()) == first_unmet(
            seq![
                has(
                    documents.website_pages_workflow@,
                    "name: Public Website Deploy"@,
                    "public website deploy workflow name"@,
                ),
                has(
                    documents.website_pages_workflow@,
                    "branches: [main]"@,
                    "public website deploy main trigger"@,
                ),
                has(
                    documents.website_pages_workflow@,
                    "workflow_dispatch:"@,
                    "public website manual deploy trigger"@,
                ),
                has(
                    documents.website_pages_workflow@,
                    "github.event_name != 'workflow_dispatch' || github.ref == 'refs/heads/main'"@,
                    "public website manual deploy main-ref guard"@,
                ),
                has(
                    documents.website_pages_workflow@,
                    "npm run clean"@,
                    "public website clean generated output step"@,
                ),
                has(
                    documents.website_pages_workflow@,
                    "public-website-artifact"@,
                    "public website staged artifact directory"@,
                ),
                has(
                    documents.website_pages_workflow@,
                    "path: public-website-artifact"@,
                    "public website staged Pages artifact upload"@,
                ),
                has(
                    documents.website_pages_workflow@,
                    "actions/upload-pages-artifact@v3"@,
                    "public website Pages artifact upload"@,
                ),
                has(
                    documents.website_pages_workflow@,
                    "actions/deploy-pages@v4"@,
                    "public website Pages deploy action"@,
                ),
                has(
                    documents.website_pages_workflow@,
                    "pages: write"@,
                    "public website deploy Pages permission"@,
                ),
                has(
                    documents.website_pages_workflow@,
                    "id-token: write"@,
                    "public website deploy OIDC permission"@,
                ),
                has(
                    documents.website_pages_workflow@,
                    "name: Public Website"@,
                    "public website custom environment"@,
                ),
                has(
                    documents.ci_docs@,
                    "website-pages.yml"@,
                    "CI topology public website deploy workflow"@,
                ),
                has(
                    documents.pr_cleanup_workflow@,
                    "pull_request_target:"@,
                    "PR cache cleanup trigger"@,
                ),
                has(
                    documents.ci_workflow@,
                    "push:\n    branches: [main]"@,
                    "main CI push trigger"@,
                ),
            ],
        ),
{
    let list = website_deploy();
    let points = seq![
        has(
            documents.website_pages_workflow@,
            "name: Public Website Deploy"@,
            "public website deploy workflow name"@,
        ),
        has(
            documents.website_pages_workflow@,
            "branches: [main]"@,
            "public website deploy main trigger"@,
        ),
        has(
            documents.website_pages_workflow@,
            "workflow_dispatch:"@,
            "public website manual deploy trigger"@,
        ),
        has(
            documents.website_pages_workflow@,
            "github.event_name != 'workflow_dispatch' || github.ref == 'refs/heads/main'"@,
            "public website manual deploy main-ref guard"@,
        ),
        has(
            documents.website_pages_workflow@,
            "npm run clean"@,
            "public website clean generated output step"@,
        ),
        has(
            documents.website_pages_workflow@,
            "public-website-artifact"@,
            "public website staged artifact directory"@,
        ),
        has(
            documents.website_pages_workflow@,
            "path: public-website-artifact"@,
            "public website staged Pages artifact upload"@,
        ),
        has(
            documents.website_pages_workflow@,
            "actions/upload-pages-artifact@v3"@,
            "public website Pages artifact upload"@,
        ),
        has(
            documents.website_pages_workflow@,
            "actions/deploy-pages@v4"@,
            "public website Pages deploy action"@,
        ),
        has(
            documents.website_pages_workflow@,
            "pages: write"@,
            "public website deploy Pages permission"@,
        ),
        has(
            documents.website_pages_workflow@,
            "id-token: write"@,
            "public website deploy OIDC permission"@,
        ),
        has(
            documents.website_pages_workflow@,
            "name: Public Website"@,
            "public website custom environment"@,
        ),
        has(
            documents.ci_docs@,
            "website-pages.yml"@,
            "CI topology public website deploy workflow"@,
        ),
        has(
            documents.pr_cleanup_workflow@,
            "pull_request_target:"@,
            "PR cache cleanup trigger"@,
        ),
        has(
            documents.ci_workflow@,
            "push:\n    branches: [main]"@,
            "main CI push trigger"@,
        ),
    ];
    assert(list.len() == 15);
    assert(points.len() == 15);
    assert forall|i: int| 0 <= i < points.len() implies same_point(
        point_of(documents, list[i]),
        #[trigger] points[i],
    ) by {
        lemma_point(documents, list[i]);
        assert(
            i == 0 || i == 1 || i == 2 || i == 3 || i == 4 || i == 5 || i == 6 || i == 7 || i == 8
            || i == 9 || i == 10 || i == 11 || i == 12 || i == 13 || i == 14
        );
    }
    lemma_first_unmet(documents, list, points);
}

proof fn lemma_lists_follow(
    documents: Documents,
    first: Seq<Requirement>,
    second: Seq<Requirement>,
)
    ensures
        requirements_problem(documents, first + second) == or_else(
            requirements_problem(documents, first),
            requirements_problem(documents, second),
        ),
    decreases second.len(),
{
    if second.len() == 0 {
        assert(first + second =~= first);
    } else {
        assert((first + second).drop_last() =~= first + second.drop_last());
        lemma_lists_follow(documents, first, second.drop_last());
    }
}

/// What is told is the first problem, in this order: with the notes on releases,
/// their commands, how changes are detected, how the website is checked, the
/// routes of the builds, how the website is deployed, the Windows caches, the
/// jobs of a release, its containers, and the tests of the crates.
pub proof fn law_documents_are_checked_in_order(documents: Documents)
    ensures
        documents_problem(documents) == first_problem(
            seq![
                requirements_problem(documents, release_notes()),
                requirements_problem(documents, release_commands()),
                requirements_problem(documents, change_detection()),
                requirements_problem(documents, website_checks()),
                requirements_problem(documents, build_routes()),
                requirements_problem(documents, website_deploy()),
                windows_cache_problem(
                    documents.ci_workflow@,
                    documents.pr_builds_workflow@,
                    documents.windows_warm_caches_workflow@,
                ),
                dispatch_problem(
                    lines_of(documents.release_workflow@),
                    dispatch_release_jobs(),
                ),
                container_problem(
                    documents.release_workflow@,
                    documents.configure_sccache_action@,
                ),
                crate_tests_problem(
                    documents.ci_workflow@,
                    documents.pr_builds_workflow@,
                    documents.compute_changes_action@,
                ),
            ],
        ),
{
    let notes = release_notes();
    let commands = notes + release_commands();
    let changes = commands + change_detection();
    let website = changes + website_checks();
    let routes = website + build_routes();
    lemma_lists_follow(documents, notes, release_commands());
    lemma_lists_follow(documents, commands, change_detection());
    lemma_lists_follow(documents, changes, website_checks());
    lemma_lists_follow(documents, website, build_routes());
    lemma_lists_follow(documents, routes, website_deploy());
    assert(all_requirements() == routes + website_deploy());
    reveal_with_fuel(first_problem, 11);
}

/// The first problem of a list.
pub open spec fn first_problem(problems: Seq<Option<Seq<char>>>) -> Option<Seq<char>>
    decreases problems.len(),
{
    if problems.len() == 0 {
        None
    } else if problems[0] is Some {
        problems[0]
    } else {
        first_problem(problems.drop_first())
    }
}

} // verus!
