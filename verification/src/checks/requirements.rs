//! What the documents and workflows have to say.

use crate::checks::ensure::{
    absent_problem, absent_words_problem, ensure_contains, ensure_contains_normalized,
    ensure_not_contains, or_else, present_problem, reports,
};
use crate::checks::workflow::{
    check_ci_crate_test_coverage, check_release_container_contracts,
    check_release_dispatch_version_preparation, check_windows_abi_cache_key_alignment,
    container_problem, crate_tests_problem, dispatch_problem, dispatch_release_jobs,
    windows_cache_problem,
};
use crate::scan::lines_of;
use vstd::prelude::*;

verus! {

/// A file of the repository.
#[derive(Debug, Clone, Copy, PartialEq, Eq, Structural)]
pub enum Document {
    /// `README.md`
    Readme,
    /// `CONTRIBUTING.md`
    Contributing,
    /// `RELEASE.md`
    Release,
    /// `Justfile`
    Justfile,
    /// `.github/workflows/release.yml`
    ReleaseWorkflow,
    /// `.github/workflows/ci.yml`
    CiWorkflow,
    /// `.github/workflows/pr_builds.yml`
    PrBuildsWorkflow,
    /// `.github/workflows/pr_quality.yml`
    PrQualityWorkflow,
    /// `.github/workflows/pr_website.yml`
    PrWebsiteWorkflow,
    /// `.github/workflows/website-pages.yml`
    WebsitePagesWorkflow,
    /// `.github/actions/compute-changes/action.yml`
    ComputeChangesAction,
    /// `.github/actions/configure-sccache-gha/action.yml`
    ConfigureSccacheAction,
    /// `scripts/affected-crates.sh`
    AffectedCratesScript,
    /// `ci/ci.md`
    CiDocs,
    /// `.github/workflows/pr_cleanup.yml`
    PrCleanupWorkflow,
    /// `.github/workflows/windows-warm-caches.yml`
    WindowsWarmCachesWorkflow,
}

/// The texts of the files.
#[derive(Debug)]
pub struct Documents {
    pub readme: String,
    pub contributing: String,
    pub release: String,
    pub justfile: String,
    pub release_workflow: String,
    pub ci_workflow: String,
    pub pr_builds_workflow: String,
    pub pr_quality_workflow: String,
    pub pr_website_workflow: String,
    pub website_pages_workflow: String,
    pub compute_changes_action: String,
    pub configure_sccache_action: String,
    pub affected_crates_script: String,
    pub ci_docs: String,
    pub pr_cleanup_workflow: String,
    pub windows_warm_caches_workflow: String,
}

/// The text of a file.
pub open spec fn text_of(documents: Documents, document: Document) -> Seq<char> {
    match document {
        Document::Readme => documents.readme@,
        Document::Contributing => documents.contributing@,
        Document::Release => documents.release@,
        Document::Justfile => documents.justfile@,
        Document::ReleaseWorkflow => documents.release_workflow@,
        Document::CiWorkflow => documents.ci_workflow@,
        Document::PrBuildsWorkflow => documents.pr_builds_workflow@,
        Document::PrQualityWorkflow => documents.pr_quality_workflow@,
        Document::PrWebsiteWorkflow => documents.pr_website_workflow@,
        Document::WebsitePagesWorkflow => documents.website_pages_workflow@,
        Document::ComputeChangesAction => documents.compute_changes_action@,
        Document::ConfigureSccacheAction => documents.configure_sccache_action@,
        Document::AffectedCratesScript => documents.affected_crates_script@,
        Document::CiDocs => documents.ci_docs@,
        Document::PrCleanupWorkflow => documents.pr_cleanup_workflow@,
        Document::WindowsWarmCachesWorkflow => documents.windows_warm_caches_workflow@,
    }
}

impl Document {
    /// Where the file is in the repository.
    pub fn path(self) -> (path: &'static str)
        ensures
            path@ == match self {
                Document::Readme => "README.md"@,
                Document::Contributing => "CONTRIBUTING.md"@,
                Document::Release => "RELEASE.md"@,
                Document::Justfile => "Justfile"@,
                Document::ReleaseWorkflow => ".github/workflows/release.yml"@,
                Document::CiWorkflow => ".github/workflows/ci.yml"@,
                Document::PrBuildsWorkflow => ".github/workflows/pr_builds.yml"@,
                Document::PrQualityWorkflow => ".github/workflows/pr_quality.yml"@,
                Document::PrWebsiteWorkflow => ".github/workflows/pr_website.yml"@,
                Document::WebsitePagesWorkflow => ".github/workflows/website-pages.yml"@,
                Document::ComputeChangesAction => ".github/actions/compute-changes/action.yml"@,
                Document::ConfigureSccacheAction => ".github/actions/configure-sccache-gha/action.yml"@,
                Document::AffectedCratesScript => "scripts/affected-crates.sh"@,
                Document::CiDocs => "ci/ci.md"@,
                Document::PrCleanupWorkflow => ".github/workflows/pr_cleanup.yml"@,
                Document::WindowsWarmCachesWorkflow => ".github/workflows/windows-warm-caches.yml"@,
            },
    {
        match self {
            Document::Readme => "README.md",
            Document::Contributing => "CONTRIBUTING.md",
            Document::Release => "RELEASE.md",
            Document::Justfile => "Justfile",
            Document::ReleaseWorkflow => ".github/workflows/release.yml",
            Document::CiWorkflow => ".github/workflows/ci.yml",
            Document::PrBuildsWorkflow => ".github/workflows/pr_builds.yml",
            Document::PrQualityWorkflow => ".github/workflows/pr_quality.yml",
            Document::PrWebsiteWorkflow => ".github/workflows/pr_website.yml",
            Document::WebsitePagesWorkflow => ".github/workflows/website-pages.yml",
            Document::ComputeChangesAction => ".github/actions/compute-changes/action.yml",
            Document::ConfigureSccacheAction => ".github/actions/configure-sccache-gha/action.yml",
            Document::AffectedCratesScript => "scripts/affected-crates.sh",
            Document::CiDocs => "ci/ci.md",
            Document::PrCleanupWorkflow => ".github/workflows/pr_cleanup.yml",
            Document::WindowsWarmCachesWorkflow => ".github/workflows/windows-warm-caches.yml",
        }
    }
}

impl Documents {
    /// The text of a file.
    pub fn text(&self, document: Document) -> (text: &str)
        ensures
            text@ == text_of(*self, document),
    {
        match document {
            Document::Readme => self.readme.as_str(),
            Document::Contributing => self.contributing.as_str(),
            Document::Release => self.release.as_str(),
            Document::Justfile => self.justfile.as_str(),
            Document::ReleaseWorkflow => self.release_workflow.as_str(),
            Document::CiWorkflow => self.ci_workflow.as_str(),
            Document::PrBuildsWorkflow => self.pr_builds_workflow.as_str(),
            Document::PrQualityWorkflow => self.pr_quality_workflow.as_str(),
            Document::PrWebsiteWorkflow => self.pr_website_workflow.as_str(),
            Document::WebsitePagesWorkflow => self.website_pages_workflow.as_str(),
            Document::ComputeChangesAction => self.compute_changes_action.as_str(),
            Document::ConfigureSccacheAction => self.configure_sccache_action.as_str(),
            Document::AffectedCratesScript => self.affected_crates_script.as_str(),
            Document::CiDocs => self.ci_docs.as_str(),
            Document::PrCleanupWorkflow => self.pr_cleanup_workflow.as_str(),
            Document::WindowsWarmCachesWorkflow => self.windows_warm_caches_workflow.as_str(),
        }
    }
}

/// What is asked of a text.
#[derive(Debug, Clone, Copy, PartialEq, Eq, Structural)]
pub enum Rule {
    /// The file contains it.
    Contains,
    /// The file contains it, whatever the white space between the words.
    ContainsWords,
    /// The file does not contain it.
    Lacks,
}

/// Something that a file has to say, or not to say.
#[derive(Debug, Clone, Copy)]
pub struct Requirement {
    pub document: Document,
    pub rule: Rule,
    pub needle: &'static str,
    /// What is at stake, in words.
    pub context: &'static str,
}

/// The problem where a requirement is not met.
pub open spec fn requirement_problem(documents: Documents, requirement: Requirement) -> Option<
    Seq<char>,
> {
    let text = text_of(documents, requirement.document);
    match requirement.rule {
        Rule::Contains => absent_problem(text, requirement.needle@, requirement.context@),
        Rule::ContainsWords => absent_words_problem(
            text,
            requirement.needle@,
            requirement.context@,
        ),
        Rule::Lacks => present_problem(text, requirement.needle@, requirement.context@),
    }
}

impl Requirement {
    /// Checks the requirement.
    pub fn check(&self, documents: &Documents) -> (result: Result<(), String>)
        ensures
            reports(result, requirement_problem(*documents, *self)),
    {
        let text = documents.text(self.document);
        match self.rule {
            Rule::Contains => ensure_contains(text, self.needle, self.context),
            Rule::ContainsWords => ensure_contains_normalized(text, self.needle, self.context),
            Rule::Lacks => ensure_not_contains(text, self.needle, self.context),
        }
    }
}

/// The first problem among some requirements.
pub open spec fn requirements_problem(
    documents: Documents,
    requirements: Seq<Requirement>,
) -> Option<Seq<char>>
    decreases requirements.len(),
{
    if requirements.len() == 0 {
        None
    } else {
        or_else(
            requirements_problem(documents, requirements.drop_last()),
            requirement_problem(documents, requirements.last()),
        )
    }
}

proof fn lemma_problem_stays(documents: Documents, requirements: Seq<Requirement>, count: int)
    requires
        0 <= count <= requirements.len(),
        requirements_problem(documents, requirements.take(count)) is Some,
    ensures
        requirements_problem(documents, requirements) == requirements_problem(
            documents,
            requirements.take(count),
        ),
    decreases requirements.len(),
{
    if count == requirements.len() {
        assert(requirements.take(count) =~= requirements);
    } else {
        assert(requirements.drop_last().take(count) =~= requirements.take(count));
        lemma_problem_stays(documents, requirements.drop_last(), count);
    }
}

/// Checks some requirements, and reports the first that is not met.
pub fn check_requirements(documents: &Documents, requirements: &Vec<Requirement>) -> (result: Result<
    (),
    String,
>)
    ensures
        reports(result, requirements_problem(*documents, requirements@)),
{
    let ghost all = requirements@;
    let mut i: usize = 0;
    while i < requirements.len()
        invariant
            i <= requirements@.len(),
            all == requirements@,
            requirements_problem(*documents, all.take(i as int)) is None,
        decreases requirements@.len() - i,
    {
        assert(all.take(i + 1).drop_last() =~= all.take(i as int));
        assert(all.take(i + 1).last() == all[i as int]);
        if let Err(problem) = requirements[i].check(documents) {
            proof {
                lemma_problem_stays(*documents, all, i + 1);
            }
            return Err(problem);
        }
        i += 1;
    }
    assert(all.take(i as int) =~= all);
    Ok(())
}

/// What the release notes and the release workflow say.
pub open spec fn release_notes() -> Seq<Requirement> {
    Seq::empty()
        .push(
            Requirement {
                document: Document::Readme,
                rule: Rule::Contains,
                needle: "mesh-llm-aarch64-unknown-linux-gnu.tar.gz",
                context: "README Linux ARM64 asset note",
            },
        )
        .push(
            Requirement {
                document: Document::Readme,
                rule: Rule::Contains,
                needle: "mesh-llm-aarch64-unknown-linux-gnu-cuda.tar.gz",
                context: "README Linux ARM64 CUDA asset note",
            },
        )
        .push(
            Requirement {
                document: Document::Release,
                rule: Rule::Contains,
                needle: "mesh-llm-aarch64-unknown-linux-gnu.tar.gz",
                context: "RELEASE Linux ARM64 asset note",
            },
        )
        .push(
            Requirement {
                document: Document::Release,
                rule: Rule::Contains,
                needle: "mesh-llm-aarch64-unknown-linux-gnu-cuda.tar.gz",
                context: "RELEASE Linux ARM64 CUDA asset note",
            },
        )
        .push(
            Requirement {
                document: Document::Readme,
                rule: Rule::ContainsWords,
                needle: "Windows CPU, Windows CUDA, Windows ROCm, and Windows Vulkan bundles",
                context: "README Windows publish note",
            },
        )
        .push(
            Requirement {
                document: Document::Release,
                rule: Rule::Contains,
                needle: "Windows release artifacts use the `x86_64-pc-windows-msvc` target triple",
                context: "RELEASE Windows publish note",
            },
        )
        .push(
            Requirement {
                document: Document::ReleaseWorkflow,
                rule: Rule::Contains,
                needle: "runs-on: ubuntu-24.04-arm",
                context: "release workflow ARM64 runner",
            },
        )
        .push(
            Requirement {
                document: Document::ReleaseWorkflow,
                rule: Rule::Contains,
                needle: "name: release-linux-arm64",
                context: "release workflow ARM64 artifact",
            },
        )
        .push(
            Requirement {
                document: Document::ReleaseWorkflow,
                rule: Rule::Contains,
                needle: "name: release-linux-aarch64-cuda-${{ matrix.cuda_version }}",
                context: "release workflow aarch64 CUDA artifact (matrix)",
            },
        )
        .push(
            Requirement {
                document: Document::ReleaseWorkflow,
                rule: Rule::Contains,
                needle: "- build_linux_aarch64_cuda",
                context: "release workflow aarch64 CUDA publish need",
            },
        )
        .push(
            Requirement {
                document: Document::ReleaseWorkflow,
                rule: Rule::Contains,
                needle: "build_windows_cpu:",
                context: "release workflow Windows CPU build",
            },
        )
        .push(
            Requirement {
                document: Document::ReleaseWorkflow,
                rule: Rule::Contains,
                needle: "build_windows_gpu:",
                context: "release workflow Windows GPU build",
            },
        )
        .push(
            Requirement {
                document: Document::ReleaseWorkflow,
                rule: Rule::Contains,
                needle: "- build_windows_cpu",
                context: "release workflow Windows CPU publish need",
            },
        )
        .push(
            Requirement {
                document: Document::ReleaseWorkflow,
                rule: Rule::Contains,
                needle: "- build_windows_gpu",
                context: "release workflow Windows GPU publish need",
            },
        )
}

fn push_release_notes(list: &mut Vec<Requirement>)
    ensures
        final(list)@ == old(list)@ + release_notes(),
{
    list.push(
        Requirement {
            document: Document::Readme,
            rule: Rule::Contains,
            needle: "mesh-llm-aarch64-unknown-linux-gnu.tar.gz",
            context: "README Linux ARM64 asset note",
        },
    );
    list.push(
        Requirement {
            document: Document::Readme,
            rule: Rule::Contains,
            needle: "mesh-llm-aarch64-unknown-linux-gnu-cuda.tar.gz",
            context: "README Linux ARM64 CUDA asset note",
        },
    );
    list.push(
        Requirement {
            document: Document::Release,
            rule: Rule::Contains,
            needle: "mesh-llm-aarch64-unknown-linux-gnu.tar.gz",
            context: "RELEASE Linux ARM64 asset note",
        },
    );
    list.push(
        Requirement {
            document: Document::Release,
            rule: Rule::Contains,
            needle: "mesh-llm-aarch64-unknown-linux-gnu-cuda.tar.gz",
            context: "RELEASE Linux ARM64 CUDA asset note",
        },
    );
    list.push(
        Requirement {
            document: Document::Readme,
            rule: Rule::ContainsWords,
            needle: "Windows CPU, Windows CUDA, Windows ROCm, and Windows Vulkan bundles",
            context: "README Windows publish note",
        },
    );
    list.push(
        Requirement {
            document: Document::Release,
            rule: Rule::Contains,
            needle: "Windows release artifacts use the `x86_64-pc-windows-msvc` target triple",
            context: "RELEASE Windows publish note",
        },
    );
    list.push(
        Requirement {
            document: Document::ReleaseWorkflow,
            rule: Rule::Contains,
            needle: "runs-on: ubuntu-24.04-arm",
            context: "release workflow ARM64 runner",
        },
    );
    list.push(
        Requirement {
            document: Document::ReleaseWorkflow,
            rule: Rule::Contains,
            needle: "name: release-linux-arm64",
            context: "release workflow ARM64 artifact",
        },
    );
    list.push(
        Requirement {
            document: Document::ReleaseWorkflow,
            rule: Rule::Contains,
            needle: "name: release-linux-aarch64-cuda-${{ matrix.cuda_version }}",
            context: "release workflow aarch64 CUDA artifact (matrix)",
        },
    );
    list.push(
        Requirement {
            document: Document::ReleaseWorkflow,
            rule: Rule::Contains,
            needle: "- build_linux_aarch64_cuda",
            context: "release workflow aarch64 CUDA publish need",
        },
    );
    list.push(
        Requirement {
            document: Document::ReleaseWorkflow,
            rule: Rule::Contains,
            needle: "build_windows_cpu:",
            context: "release workflow Windows CPU build",
        },
    );
    list.push(
        Requirement {
            document: Document::ReleaseWorkflow,
            rule: Rule::Contains,
            needle: "build_windows_gpu:",
            context: "release workflow Windows GPU build",
        },
    );
    list.push(
        Requirement {
            document: Document::ReleaseWorkflow,
            rule: Rule::Contains,
            needle: "- build_windows_cpu",
            context: "release workflow Windows CPU publish need",
        },
    );
    list.push(
        Requirement {
            document: Document::ReleaseWorkflow,
            rule: Rule::Contains,
            needle: "- build_windows_gpu",
            context: "release workflow Windows GPU publish need",
        },
    );
    assert(list@ =~= old(list)@ + release_notes());
}

/// How the release checks are run.
pub open spec fn release_commands() -> Seq<Requirement> {
    Seq::empty()
        .push(
            Requirement {
                document: Document::Justfile,
                rule: Rule::Contains,
                needle: "check-release:",
                context: "Justfile release consistency wrapper",
            },
        )
        .push(
            Requirement {
                document: Document::Justfile,
                rule: Rule::Contains,
                needle: "release-build-aarch64-cuda",
                context: "Justfile aarch64 CUDA build recipe",
            },
        )
        .push(
            Requirement {
                document: Document::Justfile,
                rule: Rule::Contains,
                needle: "release-bundle-aarch64-cuda",
                context: "Justfile aarch64 CUDA bundle recipe",
            },
        )
        .push(
            Requirement {
                document: Document::Justfile,
                rule: Rule::Contains,
                needle: "cargo run -p xtask -- repo-consistency release-targets",
                context: "Justfile xtask command",
            },
        )
        .push(
            Requirement {
                document: Document::Contributing,
                rule: Rule::Contains,
                needle: "just check-release",
                context: "CONTRIBUTING release consistency command",
            },
        )
        .push(
            Requirement {
                document: Document::Contributing,
                rule: Rule::Contains,
                needle: "On native Windows, `just check-release` runs the host-safe Rust/doc invariant subset and skips the Bash-only `install.sh` / `package-release.sh` parity checks",
                context: "CONTRIBUTING Windows check-release note",
            },
        )
        .push(
            Requirement {
                document: Document::Release,
                rule: Rule::Contains,
                needle: "On native Windows, `just check-release` still runs the Rust/docs/workflow invariant checks, but it skips the Bash-only `install.sh` and `scripts/package-release.sh` parity checks",
                context: "RELEASE Windows check-release note",
            },
        )
        .push(
            Requirement {
                document: Document::PrBuildsWorkflow,
                rule: Rule::Contains,
                needle: "cargo run -p xtask -- repo-consistency release-targets",
                context: "PR Builds xtask release-target check",
            },
        )
        .push(
            Requirement {
                document: Document::PrQualityWorkflow,
                rule: Rule::Contains,
                needle: "name: PR Quality Checks",
                context: "PR quality workflow display name",
            },
        )
        .push(
            Requirement {
                document: Document::PrQualityWorkflow,
                rule: Rule::Contains,
                needle: "cargo run -p xtask -- repo-consistency ci-crate-lists",
                context: "PR quality CI crate-list drift check",
            },
        )
        .push(
            Requirement {
                document: Document::PrQualityWorkflow,
                rule: Rule::Lacks,
                needle: "website-build:",
                context: "PR quality should not own public website builds",
            },
        )
}

fn push_release_commands(list: &mut Vec<Requirement>)
    ensures
        final(list)@ == old(list)@ + release_commands(),
{
    list.push(
        Requirement {
            document: Document::Justfile,
            rule: Rule::Contains,
            needle: "check-release:",
            context: "Justfile release consistency wrapper",
        },
    );
    list.push(
        Requirement {
            document: Document::Justfile,
            rule: Rule::Contains,
            needle: "release-build-aarch64-cuda",
            context: "Justfile aarch64 CUDA build recipe",
        },
    );
    list.push(
        Requirement {
            document: Document::Justfile,
            rule: Rule::Contains,
            needle: "release-bundle-aarch64-cuda",
            context: "Justfile aarch64 CUDA bundle recipe",
        },
    );
    list.push(
        Requirement {
            document: Document::Justfile,
            rule: Rule::Contains,
            needle: "cargo run -p xtask -- repo-consistency release-targets",
            context: "Justfile xtask command",
        },
    );
    list.push(
        Requirement {
            document: Document::Contributing,
            rule: Rule::Contains,
            needle: "just check-release",
            context: "CONTRIBUTING release consistency command",
        },
    );
    list.push(
        Requirement {
            document: Document::Contributing,
            rule: Rule::Contains,
            needle: "On native Windows, `just check-release` runs the host-safe Rust/doc invariant subset and skips the Bash-only `install.sh` / `package-release.sh` parity checks",
            context: "CONTRIBUTING Windows check-release note",
        },
    );
    list.push(
        Requirement {
            document: Document::Release,
            rule: Rule::Contains,
            needle: "On native Windows, `just check-release` still runs the Rust/docs/workflow invariant checks, but it skips the Bash-only `install.sh` and `scripts/package-release.sh` parity checks",
            context: "RELEASE Windows check-release note",
        },
    );
    list.push(
        Requirement {
            document: Document::PrBuildsWorkflow,
            rule: Rule::Contains,
            needle: "cargo run -p xtask -- repo-consistency release-targets",
            context: "PR Builds xtask release-target check",
        },
    );
    list.push(
        Requirement {
            document: Document::PrQualityWorkflow,
            rule: Rule::Contains,
            needle: "name: PR Quality Checks",
            context: "PR quality workflow display name",
        },
    );
    list.push(
        Requirement {
            document: Document::PrQualityWorkflow,
            rule: Rule::Contains,
            needle: "cargo run -p xtask -- repo-consistency ci-crate-lists",
            context: "PR quality CI crate-list drift check",
        },
    );
    list.push(
        Requirement {
            document: Document::PrQualityWorkflow,
            rule: Rule::Lacks,
            needle: "website-build:",
            context: "PR quality should not own public website builds",
        },
    );
    assert(list@ =~= old(list)@ + release_commands());
}

/// What the computation of changes tells the other workflows.
pub open spec fn change_detection() -> Seq<Requirement> {
    Seq::empty()
        .push(
            Requirement {
                document: Document::ComputeChangesAction,
                rule: Rule::Contains,
                needle: "website_changed",
                context: "compute-changes public website change output",
            },
        )
        .push(
            Requirement {
                document: Document::ComputeChangesAction,
                rule: Rule::Contains,
                needle: "website_docs_changed",
                context: "compute-changes public website docs output",
            },
        )
        .push(
            Requirement {
                document: Document::ComputeChangesAction,
                rule: Rule::Contains,
                needle: "cli_surface_changed",
                context: "compute-changes CLI surface output",
            },
        )
        .push(
            Requirement {
                document: Document::ComputeChangesAction,
                rule: Rule::Contains,
                needle: "inference_artifact_required",
                context: "compute-changes inference artifact output",
            },
        )
        .push(
            Requirement {
                document: Document::ComputeChangesAction,
                rule: Rule::Contains,
                needle: "backend_recipe_changed",
                context: "compute-changes backend Justfile recipe output",
            },
        )
        .push(
            Requirement {
                document: Document::ComputeChangesAction,
                rule: Rule::Contains,
                needle: "windows_cpu_build_required",
                context: "compute-changes Windows CPU build output",
            },
        )
        .push(
            Requirement {
                document: Document::ComputeChangesAction,
                rule: Rule::Contains,
                needle: "windows_gpu_build_required",
                context: "compute-changes Windows GPU build output",
            },
        )
        .push(
            Requirement {
                document: Document::ComputeChangesAction,
                rule: Rule::Contains,
                needle: "build-linux-rocm",
                context: "compute-changes Linux ROCm build script route",
            },
        )
        .push(
            Requirement {
                document: Document::AffectedCratesScript,
                rule: Rule::Contains,
                needle: "is_website_input",
                context: "affected-crates public website input classifier",
            },
        )
}

fn push_change_detection(list: &mut Vec<Requirement>)
    ensures
        final(list)@ == old(list)@ + change_detection(),
{
    list.push(
        Requirement {
            document: Document::ComputeChangesAction,
            rule: Rule::Contains,
            needle: "website_changed",
            context: "compute-changes public website change output",
        },
    );
    list.push(
        Requirement {
            document: Document::ComputeChangesAction,
            rule: Rule::Contains,
            needle: "website_docs_changed",
            context: "compute-changes public website docs output",
        },
    );
    list.push(
        Requirement {
            document: Document::ComputeChangesAction,
            rule: Rule::Contains,
            needle: "cli_surface_changed",
            context: "compute-changes CLI surface output",
        },
    );
    list.push(
        Requirement {
            document: Document::ComputeChangesAction,
            rule: Rule::Contains,
            needle: "inference_artifact_required",
            context: "compute-changes inference artifact output",
        },
    );
    list.push(
        Requirement {
            document: Document::ComputeChangesAction,
            rule: Rule::Contains,
            needle: "backend_recipe_changed",
            context: "compute-changes backend Justfile recipe output",
        },
    );
    list.push(
        Requirement {
            document: Document::ComputeChangesAction,
            rule: Rule::Contains,
            needle: "windows_cpu_build_required",
            context: "compute-changes Windows CPU build output",
        },
    );
    list.push(
        Requirement {
            document: Document::ComputeChangesAction,
            rule: Rule::Contains,
            needle: "windows_gpu_build_required",
            context: "compute-changes Windows GPU build output",
        },
    );
    list.push(
        Requirement {
            document: Document::ComputeChangesAction,
            rule: Rule::Contains,
            needle: "build-linux-rocm",
            context: "compute-changes Linux ROCm build script route",
        },
    );
    list.push(
        Requirement {
            document: Document::AffectedCratesScript,
            rule: Rule::Contains,
            needle: "is_website_input",
            context: "affected-crates public website input classifier",
        },
    );
    assert(list@ =~= old(list)@ + change_detection());
}

/// How changes to the public website are checked.
pub open spec fn website_checks() -> Seq<Requirement> {
    Seq::empty()
        .push(
            Requirement {
                document: Document::PrWebsiteWorkflow,
                rule: Rule::Contains,
                needle: "name: PR Website Checks",
                context: "PR website workflow display name",
            },
        )
        .push(
            Requirement {
                document: Document::PrWebsiteWorkflow,
                rule: Rule::Contains,
                needle: "./.github/actions/compute-changes",
                context: "PR website compute-changes route",
            },
        )
        .push(
            Requirement {
                document: Document::PrWebsiteWorkflow,
                rule: Rule::Contains,
                needle: "website_changed",
                context: "PR website public website change gate",
            },
        )
        .push(
            Requirement {
                document: Document::PrWebsiteWorkflow,
                rule: Rule::Contains,
                needle: "website-build:",
                context: "PR website public website build gate",
            },
        )
        .push(
            Requirement {
                document: Document::PrWebsiteWorkflow,
                rule: Rule::Contains,
                needle: "npm run build",
                context: "PR website public website build command",
            },
        )
        .push(
            Requirement {
                document: Document::PrWebsiteWorkflow,
                rule: Rule::Contains,
                needle: "PR Website Checks",
                context: "PR website Markdown summary output",
            },
        )
}

fn push_website_checks(list: &mut Vec<Requirement>)
    ensures
        final(list)@ == old(list)@ + website_checks(),
{
    list.push(
        Requirement {
            document: Document::PrWebsiteWorkflow,
            rule: Rule::Contains,
            needle: "name: PR Website Checks",
            context: "PR website workflow display name",
        },
    );
    list.push(
        Requirement {
            document: Document::PrWebsiteWorkflow,
            rule: Rule::Contains,
            needle: "./.github/actions/compute-changes",
            context: "PR website compute-changes route",
        },
    );
    list.push(
        Requirement {
            document: Document::PrWebsiteWorkflow,
            rule: Rule::Contains,
            needle: "website_changed",
            context: "PR website public website change gate",
        },
    );
    list.push(
        Requirement {
            document: Document::PrWebsiteWorkflow,
            rule: Rule::Contains,
            needle: "website-build:",
            context: "PR website public website build gate",
        },
    );
    list.push(
        Requirement {
            document: Document::PrWebsiteWorkflow,
            rule: Rule::Contains,
            needle: "npm run build",
            context: "PR website public website build command",
        },
    );
    list.push(
        Requirement {
            document: Document::PrWebsiteWorkflow,
            rule: Rule::Contains,
            needle: "PR Website Checks",
            context: "PR website Markdown summary output",
        },
    );
    assert(list@ =~= old(list)@ + website_checks());
}

/// Which outputs the builds are routed by.
pub open spec fn build_routes() -> Seq<Requirement> {
    Seq::empty()
        .push(
            Requirement {
                document: Document::PrQualityWorkflow,
                rule: Rule::Contains,
                needle: "cli-docs-sync:",
                context: "PR quality CLI docs sync gate",
            },
        )
        .push(
            Requirement {
                document: Document::PrQualityWorkflow,
                rule: Rule::Contains,
                needle: "GITHUB_STEP_SUMMARY",
                context: "PR quality Markdown summary output",
            },
        )
        .push(
            Requirement {
                document: Document::PrBuildsWorkflow,
                rule: Rule::Contains,
                needle: "website_changed",
                context: "PR Builds public website change output",
            },
        )
        .push(
            Requirement {
                document: Document::PrBuildsWorkflow,
                rule: Rule::Contains,
                needle: "inference_artifact_required",
                context: "PR Builds inference artifact gate",
            },
        )
        .push(
            Requirement {
                document: Document::PrBuildsWorkflow,
                rule: Rule::Contains,
                needle: "backend_recipe_changed",
                context: "PR Builds backend recipe route",
            },
        )
        .push(
            Requirement {
                document: Document::PrBuildsWorkflow,
                rule: Rule::Contains,
                needle: "steps.compute.outputs.windows_cpu_build_required",
                context: "PR Builds Windows CPU compute route",
            },
        )
        .push(
            Requirement {
                document: Document::PrBuildsWorkflow,
                rule: Rule::Contains,
                needle: "steps.compute.outputs.windows_gpu_build_required",
                context: "PR Builds Windows GPU compute route",
            },
        )
        .push(
            Requirement {
                document: Document::CiDocs,
                rule: Rule::Contains,
                needle: "website_changed?",
                context: "CI topology public website route",
            },
        )
        .push(
            Requirement {
                document: Document::CiDocs,
                rule: Rule::Contains,
                needle: "inference_artifact_required?",
                context: "CI topology inference artifact route",
            },
        )
        .push(
            Requirement {
                document: Document::CiDocs,
                rule: Rule::Contains,
                needle: "backend_recipe_changed?",
                context: "CI topology backend Justfile recipe route",
            },
        )
        .push(
            Requirement {
                document: Document::CiDocs,
                rule: Rule::Contains,
                needle: "windows_cpu_build_required?",
                context: "CI topology Windows CPU compute route",
            },
        )
        .push(
            Requirement {
                document: Document::CiDocs,
                rule: Rule::Contains,
                needle: "windows_gpu_build_required?",
                context: "CI topology Windows GPU compute route",
            },
        )
        .push(
            Requirement {
                document: Document::CiDocs,
                rule: Rule::Contains,
                needle: "cli-docs-sync",
                context: "CI topology CLI docs sync gate",
            },
        )
        .push(
            Requirement {
                document: Document::CiDocs,
                rule: Rule::Contains,
                needle: "pr_website.yml",
                context: "CI topology PR website workflow",
            },
        )
}

fn push_build_routes(list: &mut Vec<Requirement>)
    ensures
        final(list)@ == old(list)@ + build_routes(),
{
    list.push(
        Requirement {
            document: Document::PrQualityWorkflow,
            rule: Rule::Contains,
            needle: "cli-docs-sync:",
            context: "PR quality CLI docs sync gate",
        },
    );
    list.push(
        Requirement {
            document: Document::PrQualityWorkflow,
            rule: Rule::Contains,
            needle: "GITHUB_STEP_SUMMARY",
            context: "PR quality Markdown summary output",
        },
    );
    list.push(
        Requirement {
            document: Document::PrBuildsWorkflow,
            rule: Rule::Contains,
            needle: "website_changed",
            context: "PR Builds public website change output",
        },
    );
    list.push(
        Requirement {
            document: Document::PrBuildsWorkflow,
            rule: Rule::Contains,
            needle: "inference_artifact_required",
            context: "PR Builds inference artifact gate",
        },
    );
    list.push(
        Requirement {
            document: Document::PrBuildsWorkflow,
            rule: Rule::Contains,
            needle: "backend_recipe_changed",
            context: "PR Builds backend recipe route",
        },
    );
    list.push(
        Requirement {
            document: Document::PrBuildsWorkflow,
            rule: Rule::Contains,
            needle: "steps.compute.outputs.windows_cpu_build_required",
            context: "PR Builds Windows CPU compute route",
        },
    );
    list.push(
        Requirement {
            document: Document::PrBuildsWorkflow,
            rule: Rule::Contains,
            needle: "steps.compute.outputs.windows_gpu_build_required",
            context: "PR Builds Windows GPU compute route",
        },
    );
    list.push(
        Requirement {
            document: Document::CiDocs,
            rule: Rule::Contains,
            needle: "website_changed?",
            context: "CI topology public website route",
        },
    );
    list.push(
        Requirement {
            document: Document::CiDocs,
            rule: Rule::Contains,
            needle: "inference_artifact_required?",
            context: "CI topology inference artifact route",
        },
    );
    list.push(
        Requirement {
            document: Document::CiDocs,
            rule: Rule::Contains,
            needle: "backend_recipe_changed?",
            context: "CI topology backend Justfile recipe route",
        },
    );
    list.push(
        Requirement {
            document: Document::CiDocs,
            rule: Rule::Contains,
            needle: "windows_cpu_build_required?",
            context: "CI topology Windows CPU compute route",
        },
    );
    list.push(
        Requirement {
            document: Document::CiDocs,
            rule: Rule::Contains,
            needle: "windows_gpu_build_required?",
            context: "CI topology Windows GPU compute route",
        },
    );
    list.push(
        Requirement {
            document: Document::CiDocs,
            rule: Rule::Contains,
            needle: "cli-docs-sync",
            context: "CI topology CLI docs sync gate",
        },
    );
    list.push(
        Requirement {
            document: Document::CiDocs,
            rule: Rule::Contains,
            needle: "pr_website.yml",
            context: "CI topology PR website workflow",
        },
    );
    assert(list@ =~= old(list)@ + build_routes());
}

/// How the public website is deployed, and when the remaining workflows run.
pub open spec fn website_deploy() -> Seq<Requirement> {
    Seq::empty()
        .push(
            Requirement {
                document: Document::WebsitePagesWorkflow,
                rule: Rule::Contains,
                needle: "name: Public Website Deploy",
                context: "public website deploy workflow name",
            },
        )
        .push(
            Requirement {
                document: Document::WebsitePagesWorkflow,
                rule: Rule::Contains,
                needle: "branches: [main]",
                context: "public website deploy main trigger",
            },
        )
        .push(
            Requirement {
                document: Document::WebsitePagesWorkflow,
                rule: Rule::Contains,
                needle: "workflow_dispatch:",
                context: "public website manual deploy trigger",
            },
        )
        .push(
            Requirement {
                document: Document::WebsitePagesWorkflow,
                rule: Rule::Contains,
                needle: "github.event_name != 'workflow_dispatch' || github.ref == 'refs/heads/main'",
                context: "public website manual deploy main-ref guard",
            },
        )
        .push(
            Requirement {
                document: Document::WebsitePagesWorkflow,
                rule: Rule::Contains,
                needle: "npm run clean",
                context: "public website clean generated output step",
            },
        )
        .push(
            Requirement {
                document: Document::WebsitePagesWorkflow,
                rule: Rule::Contains,
                needle: "public-website-artifact",
                context: "public website staged artifact directory",
            },
        )
        .push(
            Requirement {
                document: Document::WebsitePagesWorkflow,
                rule: Rule::Contains,
                needle: "path: public-website-artifact",
                context: "public website staged Pages artifact upload",
            },
        )
        .push(
            Requirement {
                document: Document::WebsitePagesWorkflow,
                rule: Rule::Contains,
                needle: "actions/upload-pages-artifact@v3",
                context: "public website Pages artifact upload",
            },
        )
        .push(
            Requirement {
                document: Document::WebsitePagesWorkflow,
                rule: Rule::Contains,
                needle: "actions/deploy-pages@v4",
                context: "public website Pages deploy action",
            },
        )
        .push(
            Requirement {
                document: Document::WebsitePagesWorkflow,
                rule: Rule::Contains,
                needle: "pages: write",
                context: "public website deploy Pages permission",
            },
        )
        .push(
            Requirement {
                document: Document::WebsitePagesWorkflow,
                rule: Rule::Contains,
                needle: "id-token: write",
                context: "public website deploy OIDC permission",
            },
        )
        .push(
            Requirement {
                document: Document::WebsitePagesWorkflow,
                rule: Rule::Contains,
                needle: "name: Public Website",
                context: "public website custom environment",
            },
        )
        .push(
            Requirement {
                document: Document::CiDocs,
                rule: Rule::Contains,
                needle: "website-pages.yml",
                context: "CI topology public website deploy workflow",
            },
        )
        .push(
            Requirement {
                document: Document::PrCleanupWorkflow,
                rule: Rule::Contains,
                needle: "pull_request_target:",
                context: "PR cache cleanup trigger",
            },
        )
        .push(
            Requirement {
                document: Document::CiWorkflow,
                rule: Rule::Contains,
                needle: "push:\n    branches: [main]",
                context: "main CI push trigger",
            },
        )
}

fn push_website_deploy(list: &mut Vec<Requirement>)
    ensures
        final(list)@ == old(list)@ + website_deploy(),
{
    list.push(
        Requirement {
            document: Document::WebsitePagesWorkflow,
            rule: Rule::Contains,
            needle: "name: Public Website Deploy",
            context: "public website deploy workflow name",
        },
    );
    list.push(
        Requirement {
            document: Document::WebsitePagesWorkflow,
            rule: Rule::Contains,
            needle: "branches: [main]",
            context: "public website deploy main trigger",
        },
    );
    list.push(
        Requirement {
            document: Document::WebsitePagesWorkflow,
            rule: Rule::Contains,
            needle: "workflow_dispatch:",
            context: "public website manual deploy trigger",
        },
    );
    list.push(
        Requirement {
            document: Document::WebsitePagesWorkflow,
            rule: Rule::Contains,
            needle: "github.event_name != 'workflow_dispatch' || github.ref == 'refs/heads/main'",
            context: "public website manual deploy main-ref guard",
        },
    );
    list.push(
        Requirement {
            document: Document::WebsitePagesWorkflow,
            rule: Rule::Contains,
            needle: "npm run clean",
            context: "public website clean generated output step",
        },
    );
    list.push(
        Requirement {
            document: Document::WebsitePagesWorkflow,
            rule: Rule::Contains,
            needle: "public-website-artifact",
            context: "public website staged artifact directory",
        },
    );
    list.push(
        Requirement {
            document: Document::WebsitePagesWorkflow,
            rule: Rule::Contains,
            needle: "path: public-website-artifact",
            context: "public website staged Pages artifact upload",
        },
    );
    list.push(
        Requirement {
            document: Document::WebsitePagesWorkflow,
            rule: Rule::Contains,
            needle: "actions/upload-pages-artifact@v3",
            context: "public website Pages artifact upload",
        },
    );
    list.push(
        Requirement {
            document: Document::WebsitePagesWorkflow,
            rule: Rule::Contains,
            needle: "actions/deploy-pages@v4",
            context: "public website Pages deploy action",
        },
    );
    list.push(
        Requirement {
            document: Document::WebsitePagesWorkflow,
            rule: Rule::Contains,
            needle: "pages: write",
            context: "public website deploy Pages permission",
        },
    );
    list.push(
        Requirement {
            document: Document::WebsitePagesWorkflow,
            rule: Rule::Contains,
            needle: "id-token: write",
            context: "public website deploy OIDC permission",
        },
    );
    list.push(
        Requirement {
            document: Document::WebsitePagesWorkflow,
            rule: Rule::Contains,
            needle: "name: Public Website",
            context: "public website custom environment",
        },
    );
    list.push(
        Requirement {
            document: Document::CiDocs,
            rule: Rule::Contains,
            needle: "website-pages.yml",
            context: "CI topology public website deploy workflow",
        },
    );
    list.push(
        Requirement {
            document: Document::PrCleanupWorkflow,
            rule: Rule::Contains,
            needle: "pull_request_target:",
            context: "PR cache cleanup trigger",
        },
    );
    list.push(
        Requirement {
            document: Document::CiWorkflow,
            rule: Rule::Contains,
            needle: "push:\n    branches: [main]",
            context: "main CI push trigger",
        },
    );
    assert(list@ =~= old(list)@ + website_deploy());
}

/// Everything that is asked of single files, in the order in which it is
/// checked.
pub open spec fn all_requirements() -> Seq<Requirement> {
    release_notes() + release_commands() + change_detection() + website_checks() + build_routes() + website_deploy()
}

/// Everything that is asked of single files, in the order in which it is
/// checked.
pub fn document_requirements() -> (list: Vec<Requirement>)
    ensures
        list@ == all_requirements(),
{
    let mut list: Vec<Requirement> = Vec::new();
    push_release_notes(&mut list);
    push_release_commands(&mut list);
    push_change_detection(&mut list);
    push_website_checks(&mut list);
    push_build_routes(&mut list);
    push_website_deploy(&mut list);
    assert(list@ =~= all_requirements());
    list
}

/// The first problem with the documents and the workflows.
pub open spec fn documents_problem(documents: Documents) -> Option<Seq<char>> {
    or_else(
        requirements_problem(documents, all_requirements()),
        or_else(
            windows_cache_problem(
                documents.ci_workflow@,
                documents.pr_builds_workflow@,
                documents.windows_warm_caches_workflow@,
            ),
            or_else(
                dispatch_problem(
                    lines_of(documents.release_workflow@),
                    dispatch_release_jobs(),
                ),
                or_else(
                    container_problem(
                        documents.release_workflow@,
                        documents.configure_sccache_action@,
                    ),
                    crate_tests_problem(
                        documents.ci_workflow@,
                        documents.pr_builds_workflow@,
                        documents.compute_changes_action@,
                    ),
                ),
            ),
        ),
    )
}

/// Checks the documents and the workflows, and reports the first problem.
pub fn check_docs_and_workflow_invariants(documents: &Documents) -> (result: Result<(), String>)
    ensures
        reports(result, documents_problem(*documents)),
{
    if let Err(problem) = check_requirements(documents, &document_requirements()) {
        return Err(problem);
    }
    if let Err(problem) = check_windows_abi_cache_key_alignment(
        documents.ci_workflow.as_str(),
        documents.pr_builds_workflow.as_str(),
        documents.windows_warm_caches_workflow.as_str(),
    ) {
        return Err(problem);
    }
    if let Err(problem) = check_release_dispatch_version_preparation(
        documents.release_workflow.as_str(),
    ) {
        return Err(problem);
    }
    if let Err(problem) = check_release_container_contracts(
        documents.release_workflow.as_str(),
        documents.configure_sccache_action.as_str(),
    ) {
        return Err(problem);
    }
    check_ci_crate_test_coverage(
        documents.ci_workflow.as_str(),
        documents.pr_builds_workflow.as_str(),
        documents.compute_changes_action.as_str(),
    )
}

/// Whether a requirement is met.
pub open spec fn is_met(documents: Documents, requirement: Requirement) -> bool {
    requirement_problem(documents, requirement) is None
}

/// No problem is reported exactly where every requirement is met.
pub proof fn law_no_problem_means_all_is_met(documents: Documents, requirements: Seq<Requirement>)
    ensures
        requirements_problem(documents, requirements) is None <==> forall|i: int|
            0 <= i < requirements.len() ==> is_met(documents, #[trigger] requirements[i]),
    decreases requirements.len(),
{
    if requirements.len() > 0 {
        let earlier = requirements.drop_last();
        law_no_problem_means_all_is_met(documents, earlier);
        if requirements_problem(documents, requirements) is None {
            assert forall|i: int| 0 <= i < requirements.len() implies is_met(
                documents,
                #[trigger] requirements[i],
            ) by {
                if i < earlier.len() {
                    assert(requirements[i] == earlier[i]);
                    assert(is_met(documents, earlier[i]));
                }
            }
        }
        if forall|i: int|
            0 <= i < requirements.len() ==> is_met(documents, #[trigger] requirements[i]) {
            assert forall|i: int| 0 <= i < earlier.len() implies is_met(
                documents,
                #[trigger] earlier[i],
            ) by {
                assert(is_met(documents, requirements[i]));
            }
            assert(is_met(documents, requirements[requirements.len() - 1]));
        }
    }
}

/// The problem that is reported is that of the first requirement that is not
/// met: all before it are.
pub proof fn law_first_problem_is_reported(
    documents: Documents,
    requirements: Seq<Requirement>,
    at: int,
)
    requires
        0 <= at < requirements.len(),
        !is_met(documents, requirements[at]),
        forall|i: int| 0 <= i < at ==> is_met(documents, #[trigger] requirements[i]),
    ensures
        requirements_problem(documents, requirements) == requirement_problem(
            documents,
            requirements[at],
        ),
{
    let earlier = requirements.take(at);
    let seen = requirements.take(at + 1);
    assert forall|i: int| 0 <= i < earlier.len() implies is_met(documents, #[trigger] earlier[i]) by {
        assert(is_met(documents, requirements[i]));
    }
    law_no_problem_means_all_is_met(documents, earlier);
    assert(seen.drop_last() =~= earlier);
    assert(seen.last() == requirements[at]);
    lemma_problem_stays(documents, requirements, at + 1);
}

} // verus!
