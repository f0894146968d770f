use mesh_llm::checks::ensure::{
    ensure_contains, ensure_contains_normalized, ensure_eq, ensure_not_contains, ensure_set_eq,
};
use mesh_llm::checks::manifest::{
    check_attestation_default_version, extract_manifest_string, extract_runtime_version,
    has_manifest_bool, package_version, workspace_version, PackageVersion, RuntimeVersion,
};
use mesh_llm::checks::members::{
    check_ci_script_workspace_members, check_planned_batches,
    check_test_batch_planner_covers_workspace, metadata_failure, planned_crates, planner_failure,
    read_plan, script_workspace_members, workspace_package_names, CargoPackage, TestBatch,
};
use mesh_llm::checks::requirements::{
    check_docs_and_workflow_invariants, document_requirements, Document, Documents, Rule,
};
use mesh_llm::checks::workflow::{
    check_ci_crate_test_coverage, check_release_container_contracts,
    check_release_dispatch_version_preparation, check_windows_abi_cache_key_alignment,
    release_container_job_names, workflow_job_section, WINDOWS_ABI_CACHE_HASH_INPUTS,
    WINDOWS_CPU_ABI_CACHE_KEY,
};
use mesh_llm::text_set::TextSet;

const VALID_SCCACHE_ACTION: &str = r#"
uses: actions/github-script@ed597411d8f924073f98dfc5c65a23a2325f34cd
core.exportVariable('ACTIONS_RESULTS_URL'
core.exportVariable('ACTIONS_RUNTIME_TOKEN'
core.exportVariable('SCCACHE_GHA_ENABLED', 'true')
core.exportVariable('SCCACHE_GHA_ENABLED', 'false')
['--start-server']
['--stop-server']
"#;

const VALID_CONTAINER_WORKFLOW: &str = r#"jobs:
  build_linux_cuda:
    container:
      image: example.invalid/runner@sha256:digest
    env:
      SCCACHE_GHA_ENABLED: "false"
    steps:
      - uses: actions/checkout@v5
      - name: Trust checkout directory
        run: git config --global --add safe.directory "$GITHUB_WORKSPACE"
      - uses: ./.github/actions/configure-sccache-gha
  publish:
    runs-on: ubuntu-24.04
"#;

#[test]
fn release_container_contract_accepts_remote_sccache_with_local_fallback() {
    check_release_container_contracts(VALID_CONTAINER_WORKFLOW, VALID_SCCACHE_ACTION).unwrap();
}

#[test]
fn release_container_contract_requires_safe_checkout() {
    let workflow = VALID_CONTAINER_WORKFLOW.replace(
        "      - name: Trust checkout directory\n        run: git config --global --add safe.directory \"$GITHUB_WORKSPACE\"\n",
        "",
    );

    let error = check_release_container_contracts(&workflow, VALID_SCCACHE_ACTION).unwrap_err();
    assert!(error.to_string().contains("safe-directory"));
}

#[test]
fn release_container_contract_requires_job_local_sccache() {
    let workflow = VALID_CONTAINER_WORKFLOW.replace("      SCCACHE_GHA_ENABLED: \"false\"\n", "");

    let error = check_release_container_contracts(&workflow, VALID_SCCACHE_ACTION).unwrap_err();
    assert!(error.to_string().contains("SCCACHE_GHA_ENABLED"));
    assert_eq!(
        error,
        "release workflow `build_linux_cuda`: missing job-level `SCCACHE_GHA_ENABLED: \"false\"`"
    );
}

#[test]
fn release_container_contract_requires_sccache_gha_configuration() {
    let workflow = VALID_CONTAINER_WORKFLOW.replace(
        "      - uses: ./.github/actions/configure-sccache-gha\n",
        "",
    );

    let error = check_release_container_contracts(&workflow, VALID_SCCACHE_ACTION).unwrap_err();
    assert!(error.to_string().contains("configure-sccache-gha"));
}

#[test]
fn release_container_contract_requires_sccache_job_local_fallback() {
    let action =
        VALID_SCCACHE_ACTION.replace("core.exportVariable('SCCACHE_GHA_ENABLED', 'false')", "");

    let error = check_release_container_contracts(VALID_CONTAINER_WORKFLOW, &action).unwrap_err();
    assert!(error.to_string().contains("job-local fallback"));
}

#[test]
fn release_container_contract_requires_a_container_job() {
    let workflow = VALID_CONTAINER_WORKFLOW.replace("    container:\n", "");
    assert_eq!(
        check_release_container_contracts(&workflow, VALID_SCCACHE_ACTION).unwrap_err(),
        "release workflow: expected at least one container job"
    );
    let action = format!("{VALID_SCCACHE_ACTION}uses: mozilla-actions/sccache-action\n");
    assert!(check_release_container_contracts(VALID_CONTAINER_WORKFLOW, &action)
        .unwrap_err()
        .contains("must use the baked binary"));
}

#[test]
fn jobs_end_where_the_next_begins() {
    let section = workflow_job_section(VALID_CONTAINER_WORKFLOW, "build_linux_cuda").unwrap();
    assert_eq!(section.len(), 9);
    assert_eq!(section[0], "    container:");
    assert_eq!(section[8], "      - uses: ./.github/actions/configure-sccache-gha");
    let section = workflow_job_section(VALID_CONTAINER_WORKFLOW, "publish").unwrap();
    assert_eq!(section, vec!["    runs-on: ubuntu-24.04"]);
    assert!(workflow_job_section(VALID_CONTAINER_WORKFLOW, "missing").is_none());
    assert_eq!(release_container_job_names(VALID_CONTAINER_WORKFLOW), vec!["build_linux_cuda"]);
}

const DISPATCH_JOBS: [&str; 10] = [
    "build",
    "build_native_sdk_runtime",
    "build_swift_sdk_artifact",
    "build_linux_arm64",
    "build_linux_aarch64_cuda",
    "build_linux_cuda",
    "build_linux_rocm",
    "build_linux_vulkan",
    "build_windows_cpu",
    "build_windows_gpu",
];

fn dispatch_workflow() -> String {
    let mut workflow = String::from("jobs:\n");
    for job in DISPATCH_JOBS {
        workflow.push_str(&format!(
            "  {job}:\n    steps:\n      - name: Prepare dispatched release version\n        if: github.event_name == 'workflow_dispatch'\n        run: scripts/release-version.sh \"$RELEASE_TAG\"\n"
        ));
    }
    workflow
}

#[test]
fn dispatched_releases_prepare_their_version() {
    let workflow = dispatch_workflow();
    check_release_dispatch_version_preparation(&workflow).unwrap();
    let without = workflow.replace("  build_linux_rocm:\n", "  build_linux_other:\n");
    assert_eq!(
        check_release_dispatch_version_preparation(&without).unwrap_err(),
        "release workflow: missing `build_linux_rocm` job for dispatched version check"
    );
    let without = workflow.replacen("        if: github.event_name == 'workflow_dispatch'\n", "", 1);
    assert!(check_release_dispatch_version_preparation(&without)
        .unwrap_err()
        .starts_with("release workflow `build` dispatch version condition"));
}

#[test]
fn windows_caches_share_their_keys() {
    let key = format!("windows-2022-skippy-abi-cpu--cpu-${{{{ {WINDOWS_ABI_CACHE_HASH_INPUTS} }}}}");
    assert_eq!(WINDOWS_CPU_ABI_CACHE_KEY, key);
    let pr_builds = format!(
        "windows-2022-skippy-abi-${{{{ matrix.backend }}}}-${{{{ matrix.build_args }}}}- || 'cpu' }}}}-${{{{ hashFiles( {WINDOWS_ABI_CACHE_HASH_INPUTS}"
    );
    check_windows_abi_cache_key_alignment(&key, &pr_builds, &key).unwrap();
    assert!(check_windows_abi_cache_key_alignment(&key, &pr_builds, "")
        .unwrap_err()
        .starts_with("Windows warm-cache CPU ABI cache key"));
    assert!(check_windows_abi_cache_key_alignment("", &pr_builds, &key)
        .unwrap_err()
        .starts_with("main CI Windows CPU ABI cache key"));
}

#[test]
fn all_crates_are_tested() {
    let changes = "TEST_BATCHES=$(bash scripts/plan-test-batches.sh --all --bins 4)
if [[ \"${{ inputs.event_name }}\" != \"pull_request\" ]] || [[ \"$ALL_RUST\" == \"true\" ]]; then
TEST_BATCHES=$(bash scripts/plan-test-batches.sh --crates-json \"$AFFECTED_CRATES\" --bins 4)
echo \"test_batches_json=$TEST_BATCHES\"";
    let workflow = "test_batches_json: ${{ steps.compute.outputs.test_batches_json }}
rust_crate_tests:
batch: ${{ fromJson(needs.changes.outputs.test_batches_json) }}
cargo test -p \"$crate\"";
    check_ci_crate_test_coverage(workflow, workflow, changes).unwrap();
    let partial = workflow.replace("rust_crate_tests:", "");
    assert!(check_ci_crate_test_coverage(workflow, &partial, changes)
        .unwrap_err()
        .starts_with("PR Builds Rust crate test job"));
    assert!(check_ci_crate_test_coverage(workflow, workflow, "")
        .unwrap_err()
        .starts_with("all-workspace Cargo test batch planning"));
}

#[test]
fn single_checks_say_what_is_wrong() {
    assert_eq!(ensure_contains("abc", "b", "ctx"), Ok(()));
    assert_eq!(ensure_contains("abc", "x", "ctx"), Err("ctx: missing `x`".to_string()));
    assert_eq!(ensure_not_contains("abc", "x", "ctx"), Ok(()));
    assert_eq!(ensure_not_contains("abc", "b", "ctx"), Err("ctx: unexpected `b`".to_string()));
    assert_eq!(ensure_contains_normalized("a\n  b\tc", "a b c", "ctx"), Ok(()));
    assert_eq!(ensure_contains("a\n  b\tc", "a b c", "ctx").is_ok(), false);
    assert!(ensure_contains_normalized("a b", "b a", "ctx").is_err());
    assert_eq!(ensure_eq("1", "1", "ctx"), Ok(()));
    assert_eq!(ensure_eq("1", "2", "ctx"), Err("ctx: expected `1`, got `2`".to_string()));
}

fn set_of(names: &[&str]) -> TextSet {
    let mut set = TextSet::new();
    for name in names {
        set.insert(name);
    }
    set
}

#[test]
fn sets_are_compared_both_ways() {
    assert_eq!(ensure_set_eq(&set_of(&["b", "a"]), &set_of(&["a", "b"]), "ctx"), Ok(()));
    assert_eq!(
        ensure_set_eq(&set_of(&["c", "b", "a"]), &set_of(&["b", "e", "d"]), "ctx"),
        Err("ctx: missing [a, c], unexpected [d, e]".to_string())
    );
}

#[test]
fn manifests_are_read_line_by_line() {
    let manifest = "[package]\nname = \"x\"\n  version = \"1.2.3\"\nversion = \"9\"\n";
    assert_eq!(extract_manifest_string(manifest, "version"), Ok(Some("1.2.3".to_string())));
    assert_eq!(extract_manifest_string(manifest, "edition"), Ok(None));
    assert_eq!(
        extract_manifest_string("version = \"1", "version"),
        Err("malformed manifest version value".to_string())
    );
    assert!(has_manifest_bool("version.workspace = true", "version.workspace", true));
    assert!(!has_manifest_bool("version.workspace = true", "version.workspace", false));
    assert_eq!(package_version(manifest), Ok(PackageVersion::Own("1.2.3".to_string())));
    assert_eq!(package_version(" version.workspace = true "), Ok(PackageVersion::Workspace));
    assert_eq!(
        package_version("name = \"x\""),
        Err("missing mesh-llm-host-runtime package version".to_string())
    );
    assert_eq!(workspace_version(manifest), Ok("1.2.3".to_string()));
    assert_eq!(workspace_version(""), Err("missing workspace package version".to_string()));
}

#[test]
fn runtime_version_has_three_forms() {
    assert_eq!(
        extract_runtime_version("x\n  pub const VERSION: &str = env!(\"CARGO_PKG_VERSION\");\n"),
        Ok(RuntimeVersion::Package)
    );
    assert_eq!(
        extract_runtime_version("pub const VERSION: &str = RELEASE_VERSION;"),
        Ok(RuntimeVersion::Package)
    );
    assert_eq!(
        extract_runtime_version("pub const VERSION: &str = \"0.5\";"),
        Ok(RuntimeVersion::Literal("0.5".to_string()))
    );
    assert_eq!(
        extract_runtime_version("pub const VERSION: &str = \"0.5"),
        Err("malformed mesh-llm-host-runtime VERSION constant".to_string())
    );
    assert_eq!(
        extract_runtime_version(""),
        Err("missing mesh-llm-host-runtime VERSION constant".to_string())
    );
    assert_eq!(check_attestation_default_version(&RuntimeVersion::Package, "1"), Ok(()));
    assert!(check_attestation_default_version(&RuntimeVersion::Literal("2".to_string()), "1")
        .unwrap_err()
        .contains("expected `2`, got `1`"));
}

fn packages() -> Vec<CargoPackage> {
    let package = |id: &str, name: &str| CargoPackage { id: id.to_string(), name: name.to_string() };
    vec![package("1", "b"), package("2", "a"), package("3", "outside")]
}

#[test]
fn workspace_names_are_those_of_members() {
    let members = vec!["1".to_string(), "2".to_string()];
    let names = workspace_package_names(&packages(), &members).unwrap();
    assert_eq!(names.sorted(), &vec!["a", "b"]);
    assert_eq!(
        workspace_package_names(&packages(), &vec!["9".to_string()]).unwrap_err(),
        "cargo metadata returned no workspace package names"
    );
}

#[test]
fn scripts_list_quoted_crates() {
    let script = "#!/bin/bash\nWORKSPACE_MEMBERS=(\n  \"b\"\n  \"a\"\n)\necho \"c\"\n";
    assert_eq!(script_workspace_members(script, "s.sh").unwrap().sorted(), &vec!["a", "b"]);
    assert_eq!(
        script_workspace_members("WORKSPACE_MEMBERS=(\n\"a\"\n\"a\"\n)", "s.sh").unwrap_err(),
        "s.sh WORKSPACE_MEMBERS: duplicate crate name `a`"
    );
    assert_eq!(
        script_workspace_members("WORKSPACE_MEMBERS=(\n  a\n)", "s.sh").unwrap_err(),
        "s.sh WORKSPACE_MEMBERS: expected quoted crate name, got `a`"
    );
    assert_eq!(
        script_workspace_members("WORKSPACE_MEMBERS=(\n\"a\"\n", "s.sh").unwrap_err(),
        "s.sh: missing WORKSPACE_MEMBERS array"
    );
    assert_eq!(
        script_workspace_members("", "s.sh").unwrap_err(),
        "s.sh: missing WORKSPACE_MEMBERS array"
    );
    let members = vec!["1".to_string(), "2".to_string()];
    assert_eq!(check_ci_script_workspace_members(&packages(), &members, script, script), Ok(()));
    assert!(check_ci_script_workspace_members(&packages(), &members, script, "")
        .unwrap_err()
        .starts_with("scripts/plan-clippy-batches.sh"));
    let partial = "WORKSPACE_MEMBERS=(\n\"a\"\n)";
    assert_eq!(
        check_ci_script_workspace_members(&packages(), &members, partial, script).unwrap_err(),
        "scripts/affected-crates.sh WORKSPACE_MEMBERS: missing [b], unexpected []"
    );
}

fn batch(names: &[&str]) -> TestBatch {
    TestBatch { crates: names.iter().map(|name| Some(name.to_string())).collect() }
}

#[test]
fn plans_name_each_crate_once() {
    let plan = Some(vec![batch(&["b"]), batch(&[]), batch(&["a"])]);
    assert_eq!(planned_crates(&plan).unwrap().sorted(), &vec!["a", "b"]);
    let twice = Some(vec![batch(&["a"]), batch(&["a"])]);
    assert_eq!(
        planned_crates(&twice).unwrap_err(),
        "test batch planner duplicated crate `a`"
    );
    let nameless = Some(vec![TestBatch { crates: vec![Some("a".to_string()), None] }]);
    assert_eq!(
        planned_crates(&nameless).unwrap_err(),
        "test batch planner crate names must be strings"
    );
    assert_eq!(
        planned_crates(&None).unwrap_err(),
        "test batch planner output must be an array"
    );
    let members = vec!["1".to_string(), "2".to_string()];
    assert_eq!(check_test_batch_planner_covers_workspace(&plan, &packages(), &members), Ok(()));
    let partial = Some(vec![batch(&["a", "x"])]);
    assert_eq!(
        check_test_batch_planner_covers_workspace(&partial, &packages(), &members).unwrap_err(),
        "Cargo test batch workspace coverage: missing [b], unexpected [x]"
    );
}

#[test]
fn documents_are_read_as_plans() {
    let read = |text: &str| {
        let document: serde_json::Value = serde_json::from_str(text).unwrap();
        read_plan(&document)
            .map(|plan| plan.into_iter().map(|batch| batch.crates).collect::<Vec<_>>())
    };
    assert_eq!(
        read(r#"[{"crates": ["a", 1, "\u0062"]}, null, {"crates": "c"}, {"name": 0}, ["d"]]"#),
        Some(vec![
            vec![Some("a".to_string()), None, Some("b".to_string())],
            vec![],
            vec![],
            vec![],
            vec![],
        ])
    );
    assert_eq!(read("[]"), Some(vec![]));
    assert_eq!(read(r#"{"crates": ["a"]}"#), None);
}

#[test]
fn planner_output_is_checked() {
    let members = vec!["1".to_string(), "2".to_string()];
    let check = |stdout: &[u8]| check_planned_batches(stdout, &packages(), &members);
    assert_eq!(check(br#"[{"crates": ["b"]}, {"name": "x"}, {"crates": ["a"]}]"#), Ok(()));
    assert_eq!(
        check(br#"[{"crates": ["a", "x"]}]"#).unwrap_err(),
        "Cargo test batch workspace coverage: missing [b], unexpected [x]"
    );
    assert_eq!(
        check(br#"[{"crates": ["a"]}, {"crates": ["a"]}]"#).unwrap_err(),
        "test batch planner duplicated crate `a`"
    );
    assert_eq!(
        check(br#"[{"crates": [null]}]"#).unwrap_err(),
        "test batch planner crate names must be strings"
    );
    assert_eq!(check(b"{}").unwrap_err(), "test batch planner output must be an array");
    assert_eq!(
        check(b"").unwrap_err(),
        "EOF while parsing a value at line 1 column 0"
    );
}

#[test]
fn failures_of_commands_are_told() {
    assert_eq!(planner_failure(" no bash \n"), "test batch planner failed: no bash");
    assert_eq!(
        metadata_failure("CI crate lists", " e \n", "o"),
        "cargo metadata failed while checking CI crate lists: e"
    );
    assert_eq!(
        metadata_failure("CI crate lists", " \n", " o "),
        "cargo metadata failed while checking CI crate lists: o"
    );
}

fn complete_documents() -> Documents {
    let mut texts: Vec<(Document, String)> = Vec::new();
    for requirement in document_requirements() {
        if requirement.rule != Rule::Lacks {
            match texts.iter_mut().find(|(document, _)| *document == requirement.document) {
                Some((_, text)) => {
                    text.push_str(requirement.needle);
                    text.push('\n');
                }
                None => texts.push((requirement.document, format!("{}\n", requirement.needle))),
            }
        }
    }
    let text = |wanted: Document| {
        texts
            .iter()
            .find(|(document, _)| *document == wanted)
            .map(|(_, text)| text.clone())
            .unwrap_or_default()
    };
    let windows = format!(
        "{WINDOWS_CPU_ABI_CACHE_KEY}\nwindows-2022-skippy-abi-${{{{ matrix.backend }}}}-${{{{ matrix.build_args }}}}-\n|| 'cpu' }}}}-${{{{ hashFiles(\n"
    );
    let tests = "test_batches_json: ${{ steps.compute.outputs.test_batches_json }}
rust_crate_tests:
batch: ${{ fromJson(needs.changes.outputs.test_batches_json) }}
cargo test -p \"$crate\"
";
    let changes = "TEST_BATCHES=$(bash scripts/plan-test-batches.sh --all --bins 4)
if [[ \"${{ inputs.event_name }}\" != \"pull_request\" ]] || [[ \"$ALL_RUST\" == \"true\" ]]; then
TEST_BATCHES=$(bash scripts/plan-test-batches.sh --crates-json \"$AFFECTED_CRATES\" --bins 4)
echo \"test_batches_json=$TEST_BATCHES\"
";
    let container = "  container_job:
    container:
    env:
      SCCACHE_GHA_ENABLED: \"false\"
      - name: Trust checkout directory
        run: git config --global --add safe.directory \"$GITHUB_WORKSPACE\"
      - uses: ./.github/actions/configure-sccache-gha
";
    Documents {
        readme: text(Document::Readme),
        contributing: text(Document::Contributing),
        release: text(Document::Release),
        justfile: text(Document::Justfile),
        release_workflow: format!(
            "{}{}{container}",
            text(Document::ReleaseWorkflow),
            dispatch_workflow()
        ),
        ci_workflow: format!("{}{windows}{tests}", text(Document::CiWorkflow)),
        pr_builds_workflow: format!("{}{windows}{tests}", text(Document::PrBuildsWorkflow)),
        pr_quality_workflow: text(Document::PrQualityWorkflow),
        pr_website_workflow: text(Document::PrWebsiteWorkflow),
        website_pages_workflow: text(Document::WebsitePagesWorkflow),
        compute_changes_action: format!("{}{changes}", text(Document::ComputeChangesAction)),
        configure_sccache_action: VALID_SCCACHE_ACTION.to_string(),
        affected_crates_script: text(Document::AffectedCratesScript),
        ci_docs: text(Document::CiDocs),
        pr_cleanup_workflow: text(Document::PrCleanupWorkflow),
        windows_warm_caches_workflow: windows.clone(),
    }
}

#[test]
fn complete_documents_are_accepted() {
    assert_eq!(check_docs_and_workflow_invariants(&complete_documents()), Ok(()));
}

#[test]
fn first_problem_with_the_documents_is_reported() {
    let mut documents = complete_documents();
    documents.ci_docs = String::new();
    documents.justfile = String::new();
    assert_eq!(
        check_docs_and_workflow_invariants(&documents).unwrap_err(),
        "Justfile release consistency wrapper: missing `check-release:`"
    );
    let mut documents = complete_documents();
    documents.pr_quality_workflow.push_str("website-build:");
    assert_eq!(
        check_docs_and_workflow_invariants(&documents).unwrap_err(),
        "PR quality should not own public website builds: unexpected `website-build:`"
    );
    let mut documents = complete_documents();
    documents.configure_sccache_action = String::new();
    documents.windows_warm_caches_workflow = String::new();
    assert!(check_docs_and_workflow_invariants(&documents)
        .unwrap_err()
        .starts_with("Windows warm-cache CPU ABI cache key"));
    let mut documents = complete_documents();
    documents.readme = documents.readme.replace(
        "Windows CPU, Windows CUDA, Windows ROCm, and Windows Vulkan bundles",
        "Windows CPU, Windows CUDA,\n  Windows ROCm, and Windows Vulkan\nbundles",
    );
    assert_eq!(check_docs_and_workflow_invariants(&documents), Ok(()));
}

#[test]
fn every_requirement_counts() {
    let requirements = document_requirements();
    assert_eq!(requirements.len(), 69);
    for requirement in requirements {
        let mut documents = complete_documents();
        assert_eq!(requirement.check(&documents), Ok(()));
        if requirement.document == Document::Readme && requirement.rule == Rule::Contains {
            documents.readme = String::new();
            assert!(requirement.check(&documents).unwrap_err().starts_with(requirement.context));
        }
        assert!(!requirement.document.path().is_empty());
    }
    assert_eq!(Document::ReleaseWorkflow.path(), ".github/workflows/release.yml");
}
