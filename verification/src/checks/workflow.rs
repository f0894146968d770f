//! What the workflows have to hold.

use crate::checks::ensure::{
    absent_problem, ensure_contains, ensure_not_contains, or_else, present_problem, reports,
};
use crate::scan::{
    after_prefix, before_suffix, begins, contains, is_blank, join, joined, lines, lines_of, occurs,
    starts_with, strip_prefix, strip_suffix, trim, trimmed,
};
use crate::text::{concat, same_text, texts};
use vstd::prelude::*;

verus! {

/// The line that a job of a workflow begins with.
pub open spec fn job_header(name: Seq<char>) -> Seq<char> {
    "  "@ + name + ":"@
}

/// Whether a job's lines end before this one: it is not blank, and not
/// indented by more than a job's own name.
pub open spec fn ends_job(line: Seq<char>) -> bool {
    trimmed(line).len() > 0 && !begins(line, "   "@)
}

/// The lines up to the one that ends the job.
pub open spec fn until_end(lines: Seq<Seq<char>>) -> Seq<Seq<char>>
    decreases lines.len(),
{
    if lines.len() == 0 || ends_job(lines[0]) {
        Seq::empty()
    } else {
        seq![lines[0]] + until_end(lines.drop_first())
    }
}

/// The lines of the first job with this name, without the line that names it.
pub open spec fn job_lines(lines: Seq<Seq<char>>, name: Seq<char>) -> Option<Seq<Seq<char>>>
    decreases lines.len(),
{
    if lines.len() == 0 {
        None
    } else if lines[0] == job_header(name) {
        Some(until_end(lines.drop_first()))
    } else {
        job_lines(lines.drop_first(), name)
    }
}

/// A job's lines as one text.
pub open spec fn job_text(lines: Seq<Seq<char>>) -> Seq<char> {
    joined(lines, "\n"@)
}

fn lines_until_end(all: &Vec<String>, from: usize) -> (result: Vec<String>)
    requires
        from <= all@.len(),
    ensures
        texts(result@) == until_end(texts(all@).skip(from as int)),
{
    let ghost whole = texts(all@);
    let mut result: Vec<String> = Vec::new();
    let mut i: usize = from;
    let count: usize = all.len();
    assert(texts(result@) =~= Seq::<Seq<char>>::empty());
    while i < count && (is_blank(all[i].as_str()) || starts_with(all[i].as_str(), "   "))
        invariant
            from <= i <= count,
            count == all@.len(),
            whole == texts(all@),
            texts(result@) + until_end(whole.skip(i as int)) == until_end(
                whole.skip(from as int),
            ),
        decreases count - i,
    {
        let ghost rest = whole.skip(i as int);
        let ghost before = texts(result@);
        assert(rest[0] == all@[i as int]@);
        assert(rest.drop_first() =~= whole.skip(i + 1));
        result.push(all[i].clone());
        assert(texts(result@) =~= before.push(rest[0]));
        assert(before + until_end(rest) =~= before.push(rest[0]) + until_end(whole.skip(i + 1)));
        i += 1;
    }
    proof {
        let rest = whole.skip(i as int);
        if i < count {
            assert(rest[0] == all@[i as int]@);
        }
        assert(until_end(rest) =~= Seq::<Seq<char>>::empty());
        assert(texts(result@) + until_end(rest) =~= texts(result@));
    }
    result
}

/// Whether an optional list of lines is this.
pub open spec fn are_lines(found: Option<Vec<String>>, lines: Option<Seq<Seq<char>>>) -> bool {
    match (found, lines) {
        (Some(found), Some(lines)) => texts(found@) == lines,
        (None, None) => true,
        _ => false,
    }
}

/// The lines of the first job with this name, without the line that names it.
pub fn workflow_job_section(workflow: &str, job_name: &str) -> (section: Option<Vec<String>>)
    ensures
        are_lines(section, job_lines(lines_of(workflow@), job_name@)),
{
    let all: Vec<String> = lines(workflow);
    let header = concat(concat("  ".to_owned(), job_name), ":");
    let ghost whole = texts(all@);
    let count: usize = all.len();
    let mut i: usize = 0;
    assert(whole.skip(0) =~= whole);
    while i < count
        invariant
            i <= count,
            count == all@.len(),
            whole == texts(all@),
            whole == lines_of(workflow@),
            header@ == job_header(job_name@),
            job_lines(whole.skip(i as int), job_name@) == job_lines(whole, job_name@),
        decreases count - i,
    {
        let ghost rest = whole.skip(i as int);
        assert(rest[0] == all@[i as int]@);
        assert(rest.drop_first() =~= whole.skip(i + 1));
        if same_text(all[i].as_str(), header.as_str()) {
            return Some(lines_until_end(&all, i + 1));
        }
        i += 1;
    }
    None
}

fn has_line(list: &Vec<String>, line: &str) -> (found: bool)
    ensures
        found == texts(list@).contains(line@),
{
    let mut i: usize = 0;
    while i < list.len()
        invariant
            i <= list@.len(),
            forall|k: int| 0 <= k < i ==> #[trigger] texts(list@)[k] != line@,
        decreases list@.len() - i,
    {
        assert(texts(list@)[i as int] == list@[i as int]@);
        if same_text(list[i].as_str(), line) {
            return true;
        }
        i += 1;
    }
    false
}

/// The name of the job that a line begins, if it does.
pub open spec fn job_name_of(line: Seq<char>) -> Option<Seq<char>> {
    match after_prefix(line, "  "@) {
        None => None,
        Some(rest) => match before_suffix(rest, ":"@) {
            None => None,
            Some(name) => if name.len() == 0 || occurs(name, " "@) {
                None
            } else {
                Some(name)
            },
        },
    }
}

fn parse_job_name(line: &str) -> (name: Option<String>)
    ensures
        match name {
            Some(name) => job_name_of(line@) == Some(name@),
            None => job_name_of(line@) is None,
        },
{
    match strip_prefix(line, "  ") {
        None => None,
        Some(rest) => match strip_suffix(rest.as_str(), ":") {
            None => None,
            Some(name) => {
                if name.as_str().is_empty() || contains(name.as_str(), " ") {
                    None
                } else {
                    Some(name)
                }
            },
        },
    }
}

/// Whether a job runs in a container.
pub open spec fn runs_in_container(workflow: Seq<Seq<char>>, name: Seq<char>) -> bool {
    job_lines(workflow, name) matches Some(lines) && lines.contains("    container:"@)
}

/// The jobs that lines of a workflow begin and that run in a container, in
/// order.
pub open spec fn container_jobs(workflow: Seq<Seq<char>>, lines: Seq<Seq<char>>) -> Seq<Seq<char>>
    decreases lines.len(),
{
    if lines.len() == 0 {
        Seq::empty()
    } else {
        let earlier = container_jobs(workflow, lines.drop_last());
        match job_name_of(lines.last()) {
            Some(name) => if runs_in_container(workflow, name) {
                earlier.push(name)
            } else {
                earlier
            },
            None => earlier,
        }
    }
}

/// The jobs of a workflow that run in a container, in order.
pub fn release_container_job_names(release_workflow: &str) -> (names: Vec<String>)
    ensures
        texts(names@) == container_jobs(lines_of(release_workflow@), lines_of(release_workflow@)),
{
    let all: Vec<String> = lines(release_workflow);
    let ghost whole = texts(all@);
    let mut names: Vec<String> = Vec::new();
    let mut i: usize = 0;
    assert(texts(names@) =~= Seq::<Seq<char>>::empty());
    while i < all.len()
        invariant
            i <= all@.len(),
            whole == texts(all@),
            whole == lines_of(release_workflow@),
            texts(names@) == container_jobs(whole, whole.take(i as int)),
        decreases all@.len() - i,
    {
        let ghost before = texts(names@);
        let ghost seen = whole.take(i + 1);
        assert(seen.drop_last() =~= whole.take(i as int));
        assert(seen.last() == all@[i as int]@);
        if let Some(name) = parse_job_name(all[i].as_str()) {
            if let Some(section) = workflow_job_section(release_workflow, name.as_str()) {
                if has_line(&section, "    container:") {
                    names.push(name);
                    assert(texts(names@) =~= before.push(name@));
                }
            }
        }
        i += 1;
    }
    assert(whole.take(i as int) =~= whole);
    names
}

fn about_job(start: &str, job_name: &str, end: &str) -> (context: String)
    ensures
        context@ == start@ + job_name@ + end@,
{
    concat(concat(start.to_owned(), job_name), end)
}

/// The jobs that build under the version of a dispatched release.
pub open spec fn dispatch_release_jobs() -> Seq<Seq<char>> {
    Seq::empty().push("build"@)
        .push("build_native_sdk_runtime"@)
        .push("build_swift_sdk_artifact"@)
        .push("build_linux_arm64"@)
        .push("build_linux_aarch64_cuda"@)
        .push("build_linux_cuda"@)
        .push("build_linux_rocm"@)
        .push("build_linux_vulkan"@)
        .push("build_windows_cpu"@)
        .push("build_windows_gpu"@)
}

fn dispatch_release_job_names() -> (names: Vec<String>)
    ensures
        texts(names@) == dispatch_release_jobs(),
{
    let mut names: Vec<String> = Vec::new();
    names.push("build".to_owned());
    names.push("build_native_sdk_runtime".to_owned());
    names.push("build_swift_sdk_artifact".to_owned());
    names.push("build_linux_arm64".to_owned());
    names.push("build_linux_aarch64_cuda".to_owned());
    names.push("build_linux_cuda".to_owned());
    names.push("build_linux_rocm".to_owned());
    names.push("build_linux_vulkan".to_owned());
    names.push("build_windows_cpu".to_owned());
    names.push("build_windows_gpu".to_owned());
    assert(texts(names@) =~= dispatch_release_jobs());
    names
}

/// The name of the step that prepares the version.
pub const VERSION_STEP: &'static str = "Prepare dispatched release version";

/// The condition on that step.
pub const VERSION_CONDITION: &'static str = "if: github.event_name == 'workflow_dispatch'";

/// The command of that step.
pub const VERSION_COMMAND: &'static str = "scripts/release-version.sh \"$RELEASE_TAG\"";

/// The problem with the version step of one job.
pub open spec fn dispatch_job_problem(workflow: Seq<Seq<char>>, name: Seq<char>) -> Option<
    Seq<char>,
> {
    match job_lines(workflow, name) {
        None => Some(
            "release workflow: missing `"@ + name + "` job for dispatched version check"@,
        ),
        Some(lines) => or_else(
            absent_problem(
                job_text(lines),
                VERSION_STEP@,
                "release workflow `"@ + name + "` dispatch version step"@,
            ),
            or_else(
                absent_problem(
                    job_text(lines),
                    VERSION_CONDITION@,
                    "release workflow `"@ + name + "` dispatch version condition"@,
                ),
                absent_problem(
                    job_text(lines),
                    VERSION_COMMAND@,
                    "release workflow `"@ + name + "` dispatch version command"@,
                ),
            ),
        ),
    }
}

fn check_dispatch_job(release_workflow: &str, job_name: &str) -> (result: Result<(), String>)
    ensures
        reports(result, dispatch_job_problem(lines_of(release_workflow@), job_name@)),
{
    match workflow_job_section(release_workflow, job_name) {
        None => Err(
            about_job(
                "release workflow: missing `",
                job_name,
                "` job for dispatched version check",
            ),
        ),
        Some(section) => {
            let job = join(&section, "\n");
            if let Err(problem) = ensure_contains(
                job.as_str(),
                VERSION_STEP,
                about_job("release workflow `", job_name, "` dispatch version step").as_str(),
            ) {
                return Err(problem);
            }
            if let Err(problem) = ensure_contains(
                job.as_str(),
                VERSION_CONDITION,
                about_job("release workflow `", job_name, "` dispatch version condition").as_str(),
            ) {
                return Err(problem);
            }
            ensure_contains(
                job.as_str(),
                VERSION_COMMAND,
                about_job("release workflow `", job_name, "` dispatch version command").as_str(),
            )
        },
    }
}

/// The first problem with the version steps of some jobs.
pub open spec fn dispatch_problem(workflow: Seq<Seq<char>>, names: Seq<Seq<char>>) -> Option<
    Seq<char>,
>
    decreases names.len(),
{
    if names.len() == 0 {
        None
    } else {
        or_else(
            dispatch_problem(workflow, names.drop_last()),
            dispatch_job_problem(workflow, names.last()),
        )
    }
}

proof fn lemma_dispatch_problem_stays(workflow: Seq<Seq<char>>, names: Seq<Seq<char>>, count: int)
    requires
        0 <= count <= names.len(),
        dispatch_problem(workflow, names.take(count)) is Some,
    ensures
        dispatch_problem(workflow, names) == dispatch_problem(workflow, names.take(count)),
    decreases names.len(),
{
    if count == names.len() {
        assert(names.take(count) =~= names);
    } else {
        assert(names.drop_last().take(count) =~= names.take(count));
        lemma_dispatch_problem_stays(workflow, names.drop_last(), count);
    }
}

/// Checks that each job of a dispatched release prepares its version.
pub fn check_release_dispatch_version_preparation(release_workflow: &str) -> (result: Result<
    (),
    String,
>)
    ensures
        reports(
            result,
            dispatch_problem(lines_of(release_workflow@), dispatch_release_jobs()),
        ),
{
    let names: Vec<String> = dispatch_release_job_names();
    let ghost all = dispatch_release_jobs();
    let mut i: usize = 0;
    while i < names.len()
        invariant
            i <= names@.len(),
            texts(names@) == all,
            all == dispatch_release_jobs(),
            dispatch_problem(lines_of(release_workflow@), all.take(i as int)) is None,
        decreases names@.len() - i,
    {
        assert(all[i as int] == names@[i as int]@);
        assert(all.take(i + 1).drop_last() =~= all.take(i as int));
        assert(all.take(i + 1).last() == all[i as int]);
        if let Err(problem) = check_dispatch_job(release_workflow, names[i].as_str()) {
            proof {
                lemma_dispatch_problem_stays(lines_of(release_workflow@), all, i + 1);
            }
            return Err(problem);
        }
        i += 1;
    }
    assert(all.take(i as int) =~= all);
    Ok(())
}

/// The name of the step that trusts the checkout.
pub const TRUST_STEP: &'static str = "Trust checkout directory";

/// The command of that step.
pub const TRUST_COMMAND: &'static str = "git config --global --add safe.directory \"$GITHUB_WORKSPACE\"";

/// The line that keeps the compiler cache local to a job.
pub const LOCAL_SCCACHE_ENV: &'static str = "      SCCACHE_GHA_ENABLED: \"false\"";

/// The line that configures the compiler cache of a job.
pub const CONFIGURE_SCCACHE_ACTION: &'static str = "      - uses: ./.github/actions/configure-sccache-gha";

/// The action that exports the cache's credentials, at its pinned version.
pub const PINNED_GITHUB_SCRIPT: &'static str =
    "uses: actions/github-script@ed597411d8f924073f98dfc5c65a23a2325f34cd";

/// The first problem with the action that configures the compiler cache.
pub open spec fn sccache_action_problem(action: Seq<char>) -> Option<Seq<char>> {
    or_else(
        absent_problem(action, PINNED_GITHUB_SCRIPT@, "sccache GHA action pinned credential exporter"@),
        or_else(
            present_problem(action, "mozilla-actions/sccache-action"@, "sccache GHA action must use the baked binary"@),
            or_else(
                absent_problem(action, "core.exportVariable('ACTIONS_RESULTS_URL'"@, "sccache GHA action cache URL export"@),
                or_else(
                    absent_problem(action, "core.exportVariable('ACTIONS_RUNTIME_TOKEN'"@, "sccache GHA action runtime token export"@),
                    or_else(
                        absent_problem(action, "core.exportVariable('SCCACHE_GHA_ENABLED', 'true')"@, "sccache GHA action remote enable"@),
                        or_else(
                            absent_problem(action, "core.exportVariable('SCCACHE_GHA_ENABLED', 'false')"@, "sccache GHA action job-local fallback"@),
                            or_else(
                                absent_problem(action, "['--start-server']"@, "sccache GHA action server start"@),
                                absent_problem(action, "['--stop-server']"@, "sccache GHA action server stop"@),
                            ),
                        ),
                    ),
                ),
            ),
        ),
    )
}

/// Checks the action that configures the compiler cache.
pub fn check_sccache_action(action: &str) -> (result: Result<(), String>)
    ensures
        reports(result, sccache_action_problem(action@)),
{
    if let Err(problem) = ensure_contains(
        action,
        PINNED_GITHUB_SCRIPT,
        "sccache GHA action pinned credential exporter",
    ) {
        return Err(problem);
    }
    if let Err(problem) = ensure_not_contains(
        action,
        "mozilla-actions/sccache-action",
        "sccache GHA action must use the baked binary",
    ) {
        return Err(problem);
    }
    if let Err(problem) = ensure_contains(
        action,
        "core.exportVariable('ACTIONS_RESULTS_URL'",
        "sccache GHA action cache URL export",
    ) {
        return Err(problem);
    }
    if let Err(problem) = ensure_contains(
        action,
        "core.exportVariable('ACTIONS_RUNTIME_TOKEN'",
        "sccache GHA action runtime token export",
    ) {
        return Err(problem);
    }
    if let Err(problem) = ensure_contains(
        action,
        "core.exportVariable('SCCACHE_GHA_ENABLED', 'true')",
        "sccache GHA action remote enable",
    ) {
        return Err(problem);
    }
    if let Err(problem) = ensure_contains(
        action,
        "core.exportVariable('SCCACHE_GHA_ENABLED', 'false')",
        "sccache GHA action job-local fallback",
    ) {
        return Err(problem);
    }
    if let Err(problem) = ensure_contains(
        action,
        "['--start-server']",
        "sccache GHA action server start",
    ) {
        return Err(problem);
    }
    ensure_contains(action, "['--stop-server']", "sccache GHA action server stop")
}

/// The problem where a job lacks a whole line.
pub open spec fn lacking_line_problem(
    lines: Seq<Seq<char>>,
    line: Seq<char>,
    start: Seq<char>,
) -> Option<Seq<char>> {
    if lines.contains(line) {
        None
    } else {
        Some(start + trimmed(line) + "`"@)
    }
}

/// The first problem with one job that runs in a container.
pub open spec fn container_job_problem(workflow: Seq<Seq<char>>, name: Seq<char>) -> Option<
    Seq<char>,
> {
    match job_lines(workflow, name) {
        None => Some(
            "release workflow: missing `"@ + name + "` job for container contract check"@,
        ),
        Some(lines) => or_else(
            absent_problem(
                job_text(lines),
                TRUST_STEP@,
                "release workflow `"@ + name + "` safe-directory step"@,
            ),
            or_else(
                absent_problem(
                    job_text(lines),
                    TRUST_COMMAND@,
                    "release workflow `"@ + name + "` safe-directory command"@,
                ),
                or_else(
                    lacking_line_problem(
                        lines,
                        LOCAL_SCCACHE_ENV@,
                        "release workflow `"@ + name + "`: missing job-level `"@,
                    ),
                    lacking_line_problem(
                        lines,
                        CONFIGURE_SCCACHE_ACTION@,
                        "release workflow `"@ + name + "`: missing `"@,
                    ),
                ),
            ),
        ),
    }
}

fn check_container_job(release_workflow: &str, job_name: &str) -> (result: Result<(), String>)
    ensures
        reports(result, container_job_problem(lines_of(release_workflow@), job_name@)),
{
    match workflow_job_section(release_workflow, job_name) {
        None => Err(
            about_job(
                "release workflow: missing `",
                job_name,
                "` job for container contract check",
            ),
        ),
        Some(section) => {
            let job = join(&section, "\n");
            if let Err(problem) = ensure_contains(
                job.as_str(),
                TRUST_STEP,
                about_job("release workflow `", job_name, "` safe-directory step").as_str(),
            ) {
                return Err(problem);
            }
            if let Err(problem) = ensure_contains(
                job.as_str(),
                TRUST_COMMAND,
                about_job("release workflow `", job_name, "` safe-directory command").as_str(),
            ) {
                return Err(problem);
            }
            if !has_line(&section, LOCAL_SCCACHE_ENV) {
                let start = about_job("release workflow `", job_name, "`: missing job-level `");
                return Err(concat(concat(start, trim(LOCAL_SCCACHE_ENV).as_str()), "`"));
            }
            if !has_line(&section, CONFIGURE_SCCACHE_ACTION) {
                let start = about_job("release workflow `", job_name, "`: missing `");
                return Err(concat(concat(start, trim(CONFIGURE_SCCACHE_ACTION).as_str()), "`"));
            }
            Ok(())
        },
    }
}

/// The first problem with some jobs that run in a container.
pub open spec fn container_jobs_problem(workflow: Seq<Seq<char>>, names: Seq<Seq<char>>) -> Option<
    Seq<char>,
>
    decreases names.len(),
{
    if names.len() == 0 {
        None
    } else {
        or_else(
            container_jobs_problem(workflow, names.drop_last()),
            container_job_problem(workflow, names.last()),
        )
    }
}

proof fn lemma_container_problem_stays(workflow: Seq<Seq<char>>, names: Seq<Seq<char>>, count: int)
    requires
        0 <= count <= names.len(),
        container_jobs_problem(workflow, names.take(count)) is Some,
    ensures
        container_jobs_problem(workflow, names) == container_jobs_problem(
            workflow,
            names.take(count),
        ),
    decreases names.len(),
{
    if count == names.len() {
        assert(names.take(count) =~= names);
    } else {
        assert(names.drop_last().take(count) =~= names.take(count));
        lemma_container_problem_stays(workflow, names.drop_last(), count);
    }
}

/// The first problem with the compiler cache or with the jobs that run in a
/// container, of which there has to be one.
pub open spec fn container_problem(workflow: Seq<char>, action: Seq<char>) -> Option<Seq<char>> {
    let all = lines_of(workflow);
    let names = container_jobs(all, all);
    or_else(
        sccache_action_problem(action),
        if names.len() == 0 {
            Some("release workflow: expected at least one container job"@)
        } else {
            container_jobs_problem(all, names)
        },
    )
}

/// Checks the compiler cache and the jobs that run in a container.
pub fn check_release_container_contracts(
    release_workflow: &str,
    configure_sccache_action: &str,
) -> (result: Result<(), String>)
    ensures
        reports(result, container_problem(release_workflow@, configure_sccache_action@)),
{
    if let Err(problem) = check_sccache_action(configure_sccache_action) {
        return Err(problem);
    }
    let names: Vec<String> = release_container_job_names(release_workflow);
    let ghost workflow = lines_of(release_workflow@);
    let ghost all = container_jobs(workflow, workflow);
    if names.len() == 0 {
        return Err("release workflow: expected at least one container job".to_owned());
    }
    let mut i: usize = 0;
    while i < names.len()
        invariant
            i <= names@.len(),
            names@.len() > 0,
            texts(names@) == all,
            workflow == lines_of(release_workflow@),
            all == container_jobs(workflow, workflow),
            sccache_action_problem(configure_sccache_action@) is None,
            container_jobs_problem(workflow, all.take(i as int)) is None,
        decreases names@.len() - i,
    {
        assert(all[i as int] == names@[i as int]@);
        assert(all.take(i + 1).drop_last() =~= all.take(i as int));
        assert(all.take(i + 1).last() == all[i as int]);
        if let Err(problem) = check_container_job(release_workflow, names[i].as_str()) {
            proof {
                lemma_container_problem_stays(workflow, all, i + 1);
            }
            return Err(problem);
        }
        i += 1;
    }
    assert(all.take(i as int) =~= all);
    Ok(())
}

/// What the keys of the Windows caches are computed from.
pub const WINDOWS_ABI_CACHE_HASH_INPUTS: &'static str =
    "hashFiles('scripts/build-windows.ps1', 'scripts/install-windows-sdk.ps1', '.github/actions/setup-windows-rocm-sdk/action.yml', 'third_party/llama.cpp/upstream.txt', 'third_party/llama.cpp/patches/**', 'Justfile', '.github/cache-version.txt')";

/// The key of the Windows cache for builds without a graphics card.
pub const WINDOWS_CPU_ABI_CACHE_KEY: &'static str =
    "windows-2022-skippy-abi-cpu--cpu-${{ hashFiles('scripts/build-windows.ps1', 'scripts/install-windows-sdk.ps1', '.github/actions/setup-windows-rocm-sdk/action.yml', 'third_party/llama.cpp/upstream.txt', 'third_party/llama.cpp/patches/**', 'Justfile', '.github/cache-version.txt') }}";

/// The first difference between the keys of the Windows caches.
pub open spec fn windows_cache_problem(ci: Seq<char>, pr_builds: Seq<char>, warm_caches: Seq<char>) -> Option<Seq<char>> {
    or_else(
        absent_problem(ci, WINDOWS_CPU_ABI_CACHE_KEY@, "main CI Windows CPU ABI cache key"@),
        or_else(
            absent_problem(warm_caches, WINDOWS_CPU_ABI_CACHE_KEY@, "Windows warm-cache CPU ABI cache key"@),
            or_else(
                absent_problem(pr_builds, "windows-2022-skippy-abi-${{ matrix.backend }}-${{ matrix.build_args }}-"@, "PR Builds Windows ABI cache key template"@),
                or_else(
                    absent_problem(pr_builds, "|| 'cpu' }}-${{ hashFiles("@, "PR Builds Windows CPU ABI cache discriminator"@),
                    absent_problem(pr_builds, WINDOWS_ABI_CACHE_HASH_INPUTS@, "PR Builds Windows ABI cache hash inputs"@),
                ),
            ),
        ),
    )
}

/// Checks that the workflows agree on the keys of the Windows caches.
pub fn check_windows_abi_cache_key_alignment(ci: &str, pr_builds: &str, warm_caches: &str) -> (result: Result<(), String>)
    ensures
        reports(result, windows_cache_problem(ci@, pr_builds@, warm_caches@)),
{
    if let Err(problem) = ensure_contains(
        ci,
        WINDOWS_CPU_ABI_CACHE_KEY,
        "main CI Windows CPU ABI cache key",
    ) {
        return Err(problem);
    }
    if let Err(problem) = ensure_contains(
        warm_caches,
        WINDOWS_CPU_ABI_CACHE_KEY,
        "Windows warm-cache CPU ABI cache key",
    ) {
        return Err(problem);
    }
    if let Err(problem) = ensure_contains(
        pr_builds,
        "windows-2022-skippy-abi-${{ matrix.backend }}-${{ matrix.build_args }}-",
        "PR Builds Windows ABI cache key template",
    ) {
        return Err(problem);
    }
    if let Err(problem) = ensure_contains(
        pr_builds,
        "|| 'cpu' }}-${{ hashFiles(",
        "PR Builds Windows CPU ABI cache discriminator",
    ) {
        return Err(problem);
    }
    ensure_contains(pr_builds, WINDOWS_ABI_CACHE_HASH_INPUTS, "PR Builds Windows ABI cache hash inputs")
}

/// The first gap in how the workflows run the tests of all crates.
pub open spec fn crate_tests_problem(ci: Seq<char>, pr_builds: Seq<char>, changes: Seq<char>) -> Option<Seq<char>> {
    or_else(
        absent_problem(changes, "TEST_BATCHES=$(bash scripts/plan-test-batches.sh --all --bins 4)"@, "all-workspace Cargo test batch planning"@),
        or_else(
            absent_problem(changes, "if [[ \"${{ inputs.event_name }}\" != \"pull_request\" ]] || [[ \"$ALL_RUST\" == \"true\" ]]; then"@, "main and dispatch exhaustive Cargo test routing"@),
            or_else(
                absent_problem(changes, "TEST_BATCHES=$(bash scripts/plan-test-batches.sh --crates-json \"$AFFECTED_CRATES\" --bins 4)"@, "affected-crate Cargo test batch planning"@),
                or_else(
                    absent_problem(changes, "echo \"test_batches_json=$TEST_BATCHES\""@, "Cargo test batch output"@),
                    or_else(
                        absent_problem(ci, "test_batches_json: ${{ steps.compute.outputs.test_batches_json }}"@, "main CI test batch output"@),
                        or_else(
                            absent_problem(ci, "rust_crate_tests:"@, "main CI Rust crate test job"@),
                            or_else(
                                absent_problem(ci, "batch: ${{ fromJson(needs.changes.outputs.test_batches_json) }}"@, "main CI Rust crate test matrix"@),
                                or_else(
                                    absent_problem(ci, "cargo test -p \"$crate\""@, "main CI per-crate test command"@),
                                    or_else(
                                        absent_problem(pr_builds, "test_batches_json: ${{ steps.compute.outputs.test_batches_json }}"@, "PR Builds test batch output"@),
                                        or_else(
                                            absent_problem(pr_builds, "rust_crate_tests:"@, "PR Builds Rust crate test job"@),
                                            or_else(
                                                absent_problem(pr_builds, "batch: ${{ fromJson(needs.changes.outputs.test_batches_json) }}"@, "PR Builds Rust crate test matrix"@),
                                                absent_problem(pr_builds, "cargo test -p \"$crate\""@, "PR Builds per-crate test command"@),
                                            ),
                                        ),
                                    ),
                                ),
                            ),
                        ),
                    ),
                ),
            ),
        ),
    )
}

/// Checks that the workflows run the tests of all crates.
pub fn check_ci_crate_test_coverage(ci: &str, pr_builds: &str, changes: &str) -> (result: Result<(), String>)
    ensures
        reports(result, crate_tests_problem(ci@, pr_builds@, changes@)),
{
    if let Err(problem) = ensure_contains(
        changes,
        "TEST_BATCHES=$(bash scripts/plan-test-batches.sh --all --bins 4)",
        "all-workspace Cargo test batch planning",
    ) {
        return Err(problem);
    }
    if let Err(problem) = ensure_contains(
        changes,
        "if [[ \"${{ inputs.event_name }}\" != \"pull_request\" ]] || [[ \"$ALL_RUST\" == \"true\" ]]; then",
        "main and dispatch exhaustive Cargo test routing",
    ) {
        return Err(problem);
    }
    if let Err(problem) = ensure_contains(
        changes,
        "TEST_BATCHES=$(bash scripts/plan-test-batches.sh --crates-json \"$AFFECTED_CRATES\" --bins 4)",
        "affected-crate Cargo test batch planning",
    ) {
        return Err(problem);
    }
    if let Err(problem) = ensure_contains(
        changes,
        "echo \"test_batches_json=$TEST_BATCHES\"",
        "Cargo test batch output",
    ) {
        return Err(problem);
    }
    if let Err(problem) = ensure_contains(
        ci,
        "test_batches_json: ${{ steps.compute.outputs.test_batches_json }}",
        "main CI test batch output",
    ) {
        return Err(problem);
    }
    if let Err(problem) = ensure_contains(
        ci,
        "rust_crate_tests:",
        "main CI Rust crate test job",
    ) {
        return Err(problem);
    }
    if let Err(problem) = ensure_contains(
        ci,
        "batch: ${{ fromJson(needs.changes.outputs.test_batches_json) }}",
        "main CI Rust crate test matrix",
    ) {
        return Err(problem);
    }
    if let Err(problem) = ensure_contains(
        ci,
        "cargo test -p \"$crate\"",
        "main CI per-crate test command",
    ) {
        return Err(problem);
    }
    if let Err(problem) = ensure_contains(
        pr_builds,
        "test_batches_json: ${{ steps.compute.outputs.test_batches_json }}",
        "PR Builds test batch output",
    ) {
        return Err(problem);
    }
    if let Err(problem) = ensure_contains(
        pr_builds,
        "rust_crate_tests:",
        "PR Builds Rust crate test job",
    ) {
        return Err(problem);
    }
    if let Err(problem) = ensure_contains(
        pr_builds,
        "batch: ${{ fromJson(needs.changes.outputs.test_batches_json) }}",
        "PR Builds Rust crate test matrix",
    ) {
        return Err(problem);
    }
    ensure_contains(pr_builds, "cargo test -p \"$crate\"", "PR Builds per-crate test command")
}

proof fn lemma_container_jobs_hold(workflow: Seq<Seq<char>>, names: Seq<Seq<char>>, at: int)
    requires
        0 <= at < names.len(),
        container_jobs_problem(workflow, names) is None,
    ensures
        container_job_problem(workflow, names[at]) is None,
    decreases names.len(),
{
    if at < names.len() - 1 {
        assert(names.drop_last()[at] == names[at]);
        lemma_container_jobs_hold(workflow, names.drop_last(), at);
    }
}

proof fn lemma_line_is_container_job(workflow: Seq<Seq<char>>, lines: Seq<Seq<char>>, at: int)
    requires
        0 <= at < lines.len(),
        job_name_of(lines[at]) matches Some(name) && runs_in_container(workflow, name),
    ensures
        container_jobs(workflow, lines).contains(job_name_of(lines[at])->0),
    decreases lines.len(),
{
    let name = job_name_of(lines[at])->0;
    let found = container_jobs(workflow, lines);
    if at < lines.len() - 1 {
        let earlier = container_jobs(workflow, lines.drop_last());
        assert(lines.drop_last()[at] == lines[at]);
        lemma_line_is_container_job(workflow, lines.drop_last(), at);
        let k = choose|k: int| 0 <= k < earlier.len() && earlier[k] == name;
        assert(found[k] == name);
    } else {
        assert(found.last() == name);
    }
}

/// In a release that is accepted, each job that runs in a container trusts its
/// checkout, keeps its compiler cache local and configures it.
pub proof fn law_accepted_container_jobs_are_safe(
    workflow: Seq<char>,
    action: Seq<char>,
    at: int,
)
    requires
        container_problem(workflow, action) is None,
        0 <= at < lines_of(workflow).len(),
        job_name_of(lines_of(workflow)[at]) matches Some(name) && runs_in_container(
            lines_of(workflow),
            name,
        ),
    ensures
        job_lines(lines_of(workflow), job_name_of(lines_of(workflow)[at])->0) matches Some(lines)
            && occurs(job_text(lines), TRUST_STEP@) && occurs(job_text(lines), TRUST_COMMAND@)
            && lines.contains(LOCAL_SCCACHE_ENV@) && lines.contains(CONFIGURE_SCCACHE_ACTION@),
{
    let all = lines_of(workflow);
    let name = job_name_of(all[at])->0;
    let names = container_jobs(all, all);
    lemma_line_is_container_job(all, all, at);
    let k = choose|k: int| 0 <= k < names.len() && names[k] == name;
    lemma_container_jobs_hold(all, names, k);
}

/// A release without a job that runs in a container is not accepted.
pub proof fn law_release_has_a_container_job(workflow: Seq<char>, action: Seq<char>)
    requires
        container_problem(workflow, action) is None,
    ensures
        container_jobs(lines_of(workflow), lines_of(workflow)).len() > 0,
{
}

/// In a release that is accepted, each of the jobs that build it prepares the
/// dispatched version.
pub proof fn law_accepted_builds_prepare_their_version(
    workflow: Seq<Seq<char>>,
    names: Seq<Seq<char>>,
    at: int,
)
    requires
        0 <= at < names.len(),
        dispatch_problem(workflow, names) is None,
    ensures
        job_lines(workflow, names[at]) matches Some(lines) && occurs(job_text(lines), VERSION_STEP@)
            && occurs(job_text(lines), VERSION_CONDITION@) && occurs(
            job_text(lines),
            VERSION_COMMAND@,
        ),
    decreases names.len(),
{
    if at < names.len() - 1 {
        assert(names.drop_last()[at] == names[at]);
        law_accepted_builds_prepare_their_version(workflow, names.drop_last(), at);
    }
}

} // verus!
