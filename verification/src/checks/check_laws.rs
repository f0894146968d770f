//! When the checks on the repository find something wrong.

use crate::checks::ensure::{
    absent_problem, absent_words_problem, differing_problem, lists, normalized, or_else,
    present_problem, reports, reports_sets,
};
use crate::checks::manifest::{
    first_quoted, manifest_string, sets_bool, trimmed_lines, version_line,
};
use crate::checks::members::{
    CargoPackage, all_crates, between_quotes, distinct_names, listed_members, member_names,
    planned, script_members, workspace_names,
};
use crate::checks::workflow::{
    container_job_problem, container_jobs, container_jobs_problem, container_problem,
    crate_tests_problem, dispatch_job_problem, dispatch_problem, dispatch_release_jobs, ends_job,
    job_lines, job_name_of, job_text, runs_in_container, sccache_action_problem, until_end,
    windows_cache_problem,
};
use crate::scan::{after_prefix, before_suffix, joined, lines_of, occurs, trimmed, words};
use crate::scan_laws::{law_first_occurrence_is_found, law_prefix_and_suffix_come_off};
use vstd::prelude::*;

verus! {

/// Whether a text stands somewhere in another.
pub open spec fn stands_in(text: Seq<char>, part: Seq<char>) -> bool {
    exists|k: int|
        0 <= k && k + part.len() <= text.len() && #[trigger] text.subrange(k, k + part.len())
            == part
}

proof fn lemma_occurs_stands(text: Seq<char>, part: Seq<char>)
    ensures
        occurs(text, part) <==> stands_in(text, part),
{
    law_first_occurrence_is_found(text, part);
    if let Some(at) = crate::scan::position(text, part) {
        assert(text.subrange(at, at + part.len()) == part);
    }
}

/// A check reports a problem exactly if there is one, in its words.
pub proof fn law_checks_report_their_problem(message: String, problem: Option<Seq<char>>)
    ensures
        reports(Ok(()), problem) <==> problem is None,
        reports(Err(message), problem) <==> problem == Some(message@),
{
}

/// Of two problems the first is told, and none where there is none.
pub proof fn law_first_problem_is_told(first: Option<Seq<char>>, second: Option<Seq<char>>)
    ensures
        first is Some ==> or_else(first, second) == first,
        first is None ==> or_else(first, second) == second,
{
}

/// A text that has to stand somewhere is missed exactly where it does not, and
/// one that must not is found exactly where it does. The problem names it, behind
/// what is checked.
pub proof fn law_texts_are_missed_or_found(
    text: Seq<char>,
    part: Seq<char>,
    context: Seq<char>,
)
    ensures
        stands_in(text, part) ==> absent_problem(text, part, context) is None,
        !stands_in(text, part) ==> absent_problem(text, part, context) == Some(
            context + ": missing `"@ + part + "`"@,
        ),
        stands_in(text, part) ==> present_problem(text, part, context) == Some(
            context + ": unexpected `"@ + part + "`"@,
        ),
        !stands_in(text, part) ==> present_problem(text, part, context) is None,
        normalized(text) == joined(words(text), " "@),
        stands_in(joined(words(text), " "@), joined(words(part), " "@)) ==> absent_words_problem(
            text,
            part,
            context,
        ) is None,
        !stands_in(joined(words(text), " "@), joined(words(part), " "@)) ==> absent_words_problem(
            text,
            part,
            context,
        ) == Some(context + ": missing `"@ + part + "`"@),
{
    lemma_occurs_stands(text, part);
    lemma_occurs_stands(normalized(text), normalized(part));
}

/// Two texts that are to be the same are told exactly where they are not, the
/// expected one first.
pub proof fn law_different_texts_are_told(
    expected: Seq<char>,
    actual: Seq<char>,
    context: Seq<char>,
)
    ensures
        expected == actual ==> differing_problem(expected, actual, context) is None,
        expected != actual ==> differing_problem(expected, actual, context) == Some(
            context + ": expected `"@ + expected + "`, got `"@ + actual + "`"@,
        ),
{
}

/// Two sets are accepted exactly if they are the same. Otherwise it is told, in
/// order, what the second lacks and what it has too much.
pub proof fn law_different_sets_are_told(
    result: Result<(), String>,
    expected: Set<Seq<char>>,
    actual: Set<Seq<char>>,
    context: Seq<char>,
    lacking: Seq<Seq<char>>,
    surplus: Seq<Seq<char>>,
)
    requires
        reports_sets(result, expected, actual, context),
        lists(lacking, expected.difference(actual)),
        lists(surplus, actual.difference(expected)),
    ensures
        result is Ok <==> expected == actual,
        result matches Err(message) ==> message@ == context + ": missing ["@ + joined(
            lacking,
            ", "@,
        ) + "], unexpected ["@ + joined(surplus, ", "@) + "]"@,
{
    if let Err(message) = result {
        let (less, more) = choose|less: Seq<Seq<char>>, more: Seq<Seq<char>>|
            #![trigger crate::checks::ensure::set_difference_message(less, more, context)]
            lists(less, expected.difference(actual)) && lists(more, actual.difference(expected))
                && message@ == crate::checks::ensure::set_difference_message(less, more, context);
        crate::text_set::law_sorted_list_is_determined(less, lacking);
        crate::text_set::law_sorted_list_is_determined(more, surplus);
    }
}

/// The lines of a text are compared without the white space around them.
pub proof fn law_lines_are_trimmed(text: Seq<char>, i: int)
    ensures
        trimmed_lines(text).len() == lines_of(text).len(),
        0 <= i < lines_of(text).len() ==> trimmed_lines(text)[i] == trimmed(lines_of(text)[i]),
{
}

/// Whether no line of a list begins with a prefix.
pub open spec fn none_begins(lines: Seq<Seq<char>>, prefix: Seq<char>) -> bool {
    forall|i: int| 0 <= i < lines.len() ==> after_prefix(#[trigger] lines[i], prefix) is None
}

/// The first line with the prefix gives the value: what stands between prefix
/// and suffix. Where the suffix is missing there, the line is malformed, and
/// without such a line there is no value.
pub proof fn law_first_line_gives_the_value(
    before: Seq<Seq<char>>,
    prefix: Seq<char>,
    value: Seq<char>,
    suffix: Seq<char>,
    rest: Seq<Seq<char>>,
    malformed: Seq<char>,
)
    requires
        none_begins(before, prefix),
    ensures
        first_quoted(before, prefix, suffix, malformed) == Ok::<Option<Seq<char>>, Seq<char>>(None),
        first_quoted(before.push(prefix + value + suffix) + rest, prefix, suffix, malformed) == Ok::<
            Option<Seq<char>>,
            Seq<char>,
        >(Some(value)),
        before_suffix(value, suffix) is None ==> first_quoted(
            before.push(prefix + value) + rest,
            prefix,
            suffix,
            malformed,
        ) == Err::<Option<Seq<char>>, Seq<char>>(malformed),
    decreases before.len(),
{
    let good = before.push(prefix + value + suffix) + rest;
    let bad = before.push(prefix + value) + rest;
    if before.len() > 0 {
        let fewer = before.drop_first();
        assert(after_prefix(before[0], prefix) is None);
        assert forall|i: int| 0 <= i < fewer.len() implies after_prefix(
            #[trigger] fewer[i],
            prefix,
        ) is None by {
            assert(fewer[i] == before[i + 1]);
        }
        law_first_line_gives_the_value(fewer, prefix, value, suffix, rest, malformed);
        assert(good.drop_first() =~= fewer.push(prefix + value + suffix) + rest);
        assert(bad.drop_first() =~= fewer.push(prefix + value) + rest);
        assert(good[0] == before[0]);
        assert(bad[0] == before[0]);
    } else {
        assert(prefix + value + suffix =~= prefix + (value + suffix));
        law_prefix_and_suffix_come_off(prefix + value + suffix, prefix, value + suffix);
        law_prefix_and_suffix_come_off(value + suffix, suffix, value);
        law_prefix_and_suffix_come_off(prefix + value, prefix, value);
        assert(good[0] == prefix + value + suffix);
        assert(bad[0] == prefix + value);
    }
}

/// A manifest sets a key to a text in quotes, and to a truth value as a line of
/// its own.
pub proof fn law_manifests_set_keys(contents: Seq<char>, key: Seq<char>)
    ensures
        manifest_string(contents, key) == first_quoted(
            trimmed_lines(contents),
            key + " = \""@,
            "\""@,
            "malformed manifest "@ + key + " value"@,
        ),
        sets_bool(contents, key, true) <==> trimmed_lines(contents).contains(key + " = true"@),
        sets_bool(contents, key, false) <==> trimmed_lines(contents).contains(key + " = false"@),
{
    reveal_strlit(" = ");
    reveal_strlit("true");
    reveal_strlit("false");
    reveal_strlit(" = true");
    reveal_strlit(" = false");
    assert(key + " = "@ + "true"@ =~= key + " = true"@);
    assert(key + " = "@ + "false"@ =~= key + " = false"@);
}

/// The first line that sets the runtime's version tells what it is: that of the
/// package, or a text of its own. Lines that set no version do not matter.
pub proof fn law_first_version_line_counts(
    line: Seq<char>,
    version: Seq<char>,
    rest: Seq<Seq<char>>,
)
    ensures
        line == "pub const VERSION: &str = env!(\"CARGO_PKG_VERSION\");"@ || line
            == "pub const VERSION: &str = RELEASE_VERSION;"@ ==> version_line(
            seq![line] + rest,
        ) == Ok::<Option<Seq<char>>, Seq<char>>(None),
        line == "pub const VERSION: &str = \""@ + version + "\";"@ ==> version_line(
            seq![line] + rest,
        ) == Ok::<Option<Seq<char>>, Seq<char>>(Some(version)),
        line != "pub const VERSION: &str = env!(\"CARGO_PKG_VERSION\");"@ && line
            != "pub const VERSION: &str = RELEASE_VERSION;"@ && after_prefix(
            line,
            "pub const VERSION: &str = \""@,
        ) is None ==> version_line(seq![line] + rest) == version_line(rest),
        version_line(Seq::<Seq<char>>::empty()) is Err,
{
    reveal_strlit("pub const VERSION: &str = env!(\"CARGO_PKG_VERSION\");");
    reveal_strlit("pub const VERSION: &str = RELEASE_VERSION;");
    reveal_strlit("pub const VERSION: &str = \"");
    let lines = seq![line] + rest;
    assert(lines[0] == line);
    assert(lines.drop_first() =~= rest);
    let start = "pub const VERSION: &str = \""@;
    if line == start + version + "\";"@ {
        assert(line =~= start + (version + "\";"@));
        law_prefix_and_suffix_come_off(line, start, version + "\";"@);
        law_prefix_and_suffix_come_off(version + "\";"@, "\";"@, version);
        assert(line[26] == '"');
    }
}

/// A job of a workflow holds the lines behind the first that names it, up to the
/// first that is neither blank nor indented by three spaces.
pub proof fn law_jobs_end_where_indentation_does(
    before: Seq<Seq<char>>,
    name: Seq<char>,
    body: Seq<Seq<char>>,
    rest: Seq<Seq<char>>,
)
    requires
        forall|i: int| 0 <= i < before.len() ==> #[trigger] before[i] != "  "@ + name + ":"@,
        forall|i: int|
            0 <= i < body.len() ==> trimmed(#[trigger] body[i]).len() == 0 || after_prefix(
                body[i],
                "   "@,
            ) is Some,
        rest.len() > 0 ==> trimmed(rest[0]).len() > 0 && after_prefix(rest[0], "   "@) is None,
    ensures
        job_lines(before, name) is None,
        job_lines(before.push("  "@ + name + ":"@) + body + rest, name) == Some(body),
    decreases before.len(),
{
    let header = "  "@ + name + ":"@;
    let lines = before.push(header) + body + rest;
    if before.len() > 0 {
        let fewer = before.drop_first();
        assert(before[0] != header);
        assert forall|i: int| 0 <= i < fewer.len() implies #[trigger] fewer[i] != header by {
            assert(fewer[i] == before[i + 1]);
        }
        law_jobs_end_where_indentation_does(fewer, name, body, rest);
        assert(lines.drop_first() =~= fewer.push(header) + body + rest);
        assert(lines[0] == before[0]);
    } else {
        assert(lines[0] == header);
        assert(lines.drop_first() =~= body + rest);
        lemma_body_ends(body, rest);
    }
}

proof fn lemma_body_ends(body: Seq<Seq<char>>, rest: Seq<Seq<char>>)
    requires
        forall|i: int|
            0 <= i < body.len() ==> trimmed(#[trigger] body[i]).len() == 0 || after_prefix(
                body[i],
                "   "@,
            ) is Some,
        rest.len() > 0 ==> trimmed(rest[0]).len() > 0 && after_prefix(rest[0], "   "@) is None,
    ensures
        until_end(body + rest) == body,
    decreases body.len(),
{
    let lines = body + rest;
    if body.len() > 0 {
        let fewer = body.drop_first();
        assert(trimmed(body[0]).len() == 0 || after_prefix(body[0], "   "@) is Some);
        assert forall|i: int| 0 <= i < fewer.len() implies trimmed(#[trigger] fewer[i]).len() == 0
            || after_prefix(fewer[i], "   "@) is Some by {
            assert(fewer[i] == body[i + 1]);
        }
        lemma_body_ends(fewer, rest);
        assert(lines.drop_first() =~= fewer + rest);
        assert(lines[0] == body[0]);
        assert(!ends_job(lines[0]));
        assert(seq![body[0]] + fewer =~= body);
    } else {
        assert(lines =~= rest);
        if rest.len() > 0 {
            assert(ends_job(rest[0]));
        }
        assert(until_end(lines) =~= body);
    }
}

/// A line names a job by two spaces, a name without spaces, and a colon.
pub proof fn law_job_names_stand_between_spaces_and_colon(line: Seq<char>, name: Seq<char>)
    ensures
        job_name_of(line) == Some(name) <==> (line == "  "@ + name + ":"@ && name.len() > 0
            && !stands_in(name, " "@)),
{
    lemma_occurs_stands(name, " "@);
    law_prefix_and_suffix_come_off(line, "  "@, name + ":"@);
    law_prefix_and_suffix_come_off(name + ":"@, ":"@, name);
    if line == "  "@ + name + ":"@ {
        assert(line =~= "  "@ + (name + ":"@));
    }
    if let Some(rest) = after_prefix(line, "  "@) {
        law_prefix_and_suffix_come_off(line, "  "@, rest);
        law_prefix_and_suffix_come_off(rest, ":"@, name);
        if rest == name + ":"@ {
            assert(line =~= "  "@ + name + ":"@);
        }
    }
}

/// The container jobs are those of the lines that name a job with a line
/// `container:` of its own, in order.
pub proof fn law_container_jobs_are_listed(
    workflow: Seq<Seq<char>>,
    lines: Seq<Seq<char>>,
    line: Seq<char>,
)
    ensures
        container_jobs(workflow, Seq::<Seq<char>>::empty()) == Seq::<Seq<char>>::empty(),
        job_name_of(line) matches Some(name) ==> (job_lines(workflow, name) matches Some(job)
            && job.contains("    container:"@) ==> container_jobs(workflow, lines.push(line))
            == container_jobs(workflow, lines).push(name)),
        job_name_of(line) matches Some(name) ==> (!(job_lines(workflow, name) matches Some(job)
            && job.contains("    container:"@)) ==> container_jobs(workflow, lines.push(line))
            == container_jobs(workflow, lines)),
        job_name_of(line) is None ==> container_jobs(workflow, lines.push(line)) == container_jobs(
            workflow,
            lines,
        ),
{
    assert(lines.push(line).drop_last() =~= lines);
    if let Some(name) = job_name_of(line) {
        assert(runs_in_container(workflow, name) <==> (job_lines(workflow, name) matches Some(job)
            && job.contains("    container:"@)));
    }
}

/// Ten jobs build a dispatched release.
pub proof fn law_ten_jobs_build_a_release()
    ensures
        dispatch_release_jobs() == seq![
            "build"@,
            "build_native_sdk_runtime"@,
            "build_swift_sdk_artifact"@,
            "build_linux_arm64"@,
            "build_linux_aarch64_cuda"@,
            "build_linux_cuda"@,
            "build_linux_rocm"@,
            "build_linux_vulkan"@,
            "build_windows_cpu"@,
            "build_windows_gpu"@,
        ],
{
    assert(dispatch_release_jobs() =~= seq![
        "build"@,
        "build_native_sdk_runtime"@,
        "build_swift_sdk_artifact"@,
        "build_linux_arm64"@,
        "build_linux_aarch64_cuda"@,
        "build_linux_cuda"@,
        "build_linux_rocm"@,
        "build_linux_vulkan"@,
        "build_windows_cpu"@,
        "build_windows_gpu"@,
    ]);
}

/// A job that builds a release is accepted exactly if it is there and prepares
/// the version, by name, condition and command.
pub proof fn law_release_jobs_prepare_their_version(
    workflow: Seq<Seq<char>>,
    name: Seq<char>,
)
    ensures
        dispatch_job_problem(workflow, name) is None <==> (job_lines(workflow, name) matches Some(
            lines,
        ) && stands_in(job_text(lines), "Prepare dispatched release version"@) && stands_in(
            job_text(lines),
            "if: github.event_name == 'workflow_dispatch'"@,
        ) && stands_in(job_text(lines), "scripts/release-version.sh \"$RELEASE_TAG\""@)),
{
    if let Some(lines) = job_lines(workflow, name) {
        lemma_occurs_stands(job_text(lines), "Prepare dispatched release version"@);
        lemma_occurs_stands(job_text(lines), "if: github.event_name == 'workflow_dispatch'"@);
        lemma_occurs_stands(job_text(lines), "scripts/release-version.sh \"$RELEASE_TAG\""@);
    }
}

/// A list of jobs is accepted exactly if each of them is, and the first that is
/// not is told.
pub proof fn law_first_bad_job_is_told(
    workflow: Seq<Seq<char>>,
    names: Seq<Seq<char>>,
    name: Seq<char>,
)
    ensures
        dispatch_problem(workflow, Seq::<Seq<char>>::empty()) is None,
        dispatch_problem(workflow, names) is Some ==> dispatch_problem(workflow, names.push(name))
            == dispatch_problem(workflow, names),
        dispatch_problem(workflow, names) is None ==> dispatch_problem(workflow, names.push(name))
            == dispatch_job_problem(workflow, name),
        container_jobs_problem(workflow, Seq::<Seq<char>>::empty()) is None,
        container_jobs_problem(workflow, names) is Some ==> container_jobs_problem(
            workflow,
            names.push(name),
        ) == container_jobs_problem(workflow, names),
        container_jobs_problem(workflow, names) is None ==> container_jobs_problem(
            workflow,
            names.push(name),
        ) == container_job_problem(workflow, name),
{
    assert(names.push(name).drop_last() =~= names);
}

/// A container job is accepted exactly if it is there, trusts its checkout by
/// name and command, keeps the compiler cache local and configures it, the last
/// two as lines of their own.
pub proof fn law_container_jobs_are_accepted(workflow: Seq<Seq<char>>, name: Seq<char>)
    ensures
        container_job_problem(workflow, name) is None <==> (job_lines(workflow, name) matches Some(
            lines,
        ) && stands_in(job_text(lines), "Trust checkout directory"@) && stands_in(
            job_text(lines),
            "git config --global --add safe.directory \"$GITHUB_WORKSPACE\""@,
        ) && lines.contains("      SCCACHE_GHA_ENABLED: \"false\""@) && lines.contains(
            "      - uses: ./.github/actions/configure-sccache-gha"@,
        )),
{
    if let Some(lines) = job_lines(workflow, name) {
        lemma_occurs_stands(job_text(lines), "Trust checkout directory"@);
        lemma_occurs_stands(
            job_text(lines),
            "git config --global --add safe.directory \"$GITHUB_WORKSPACE\""@,
        );
    }
}

/// The action for the compiler cache is accepted exactly if it exports the
/// credentials by the pinned script, uses the cache that is baked in, can be
/// turned on and off, and starts and stops the server.
pub proof fn law_cache_action_is_accepted(action: Seq<char>)
    ensures
        sccache_action_problem(action) is None <==> {
            &&& stands_in(
                action,
                "uses: actions/github-script@ed597411d8f924073f98dfc5c65a23a2325f34cd"@,
            )
            &&& !stands_in(action, "mozilla-actions/sccache-action"@)
            &&& stands_in(action, "core.exportVariable('ACTIONS_RESULTS_URL'"@)
            &&& stands_in(action, "core.exportVariable('ACTIONS_RUNTIME_TOKEN'"@)
            &&& stands_in(action, "core.exportVariable('SCCACHE_GHA_ENABLED', 'true')"@)
            &&& stands_in(action, "core.exportVariable('SCCACHE_GHA_ENABLED', 'false')"@)
            &&& stands_in(action, "['--start-server']"@)
            &&& stands_in(action, "['--stop-server']"@)
        },
{
    lemma_occurs_stands(
        action,
        "uses: actions/github-script@ed597411d8f924073f98dfc5c65a23a2325f34cd"@,
    );
    lemma_occurs_stands(action, "mozilla-actions/sccache-action"@);
    lemma_occurs_stands(action, "core.exportVariable('ACTIONS_RESULTS_URL'"@);
    lemma_occurs_stands(action, "core.exportVariable('ACTIONS_RUNTIME_TOKEN'"@);
    lemma_occurs_stands(action, "core.exportVariable('SCCACHE_GHA_ENABLED', 'true')"@);
    lemma_occurs_stands(action, "core.exportVariable('SCCACHE_GHA_ENABLED', 'false')"@);
    lemma_occurs_stands(action, "['--start-server']"@);
    lemma_occurs_stands(action, "['--stop-server']"@);
}

/// A release is accepted exactly if its action for the compiler cache is, it has
/// a container job, and each of its container jobs is accepted.
pub proof fn law_release_containers_are_accepted(workflow: Seq<char>, action: Seq<char>)
    ensures
        container_problem(workflow, action) is None <==> {
            let names = container_jobs(lines_of(workflow), lines_of(workflow));
            &&& sccache_action_problem(action) is None
            &&& names.len() > 0
            &&& container_jobs_problem(lines_of(workflow), names) is None
        },
{
}

/// The keys of the Windows caches are accepted exactly if all workflows have
/// them: the one for builds without a graphics card in two, its template and what
/// it is computed from in the third.
pub proof fn law_windows_caches_have_one_key(
    ci: Seq<char>,
    pr_builds: Seq<char>,
    warm_caches: Seq<char>,
)
    ensures
        windows_cache_problem(ci, pr_builds, warm_caches) is None <==> {
            let key =
                "windows-2022-skippy-abi-cpu--cpu-${{ hashFiles('scripts/build-windows.ps1', 'scripts/install-windows-sdk.ps1', '.github/actions/setup-windows-rocm-sdk/action.yml', 'third_party/llama.cpp/upstream.txt', 'third_party/llama.cpp/patches/**', 'Justfile', '.github/cache-version.txt') }}"@;
            let inputs =
                "hashFiles('scripts/build-windows.ps1', 'scripts/install-windows-sdk.ps1', '.github/actions/setup-windows-rocm-sdk/action.yml', 'third_party/llama.cpp/upstream.txt', 'third_party/llama.cpp/patches/**', 'Justfile', '.github/cache-version.txt')"@;
            let template =
                "windows-2022-skippy-abi-${{ matrix.backend }}-${{ matrix.build_args }}-"@;
            &&& stands_in(ci, key)
            &&& stands_in(warm_caches, key)
            &&& stands_in(pr_builds, template)
            &&& stands_in(pr_builds, "|| 'cpu' }}-${{ hashFiles("@)
            &&& stands_in(pr_builds, inputs)
        },
{
    let key =
        "windows-2022-skippy-abi-cpu--cpu-${{ hashFiles('scripts/build-windows.ps1', 'scripts/install-windows-sdk.ps1', '.github/actions/setup-windows-rocm-sdk/action.yml', 'third_party/llama.cpp/upstream.txt', 'third_party/llama.cpp/patches/**', 'Justfile', '.github/cache-version.txt') }}"@;
    let inputs =
        "hashFiles('scripts/build-windows.ps1', 'scripts/install-windows-sdk.ps1', '.github/actions/setup-windows-rocm-sdk/action.yml', 'third_party/llama.cpp/upstream.txt', 'third_party/llama.cpp/patches/**', 'Justfile', '.github/cache-version.txt')"@;
    lemma_occurs_stands(ci, key);
    lemma_occurs_stands(warm_caches, key);
    lemma_occurs_stands(
        pr_builds,
        "windows-2022-skippy-abi-${{ matrix.backend }}-${{ matrix.build_args }}-"@,
    );
    lemma_occurs_stands(pr_builds, "|| 'cpu' }}-${{ hashFiles("@);
    lemma_occurs_stands(pr_builds, inputs);
}

/// Whether a workflow runs the tests of the crates of each batch.
pub open spec fn runs_batches(workflow: Seq<char>) -> bool {
    &&& stands_in(
        workflow,
        "test_batches_json: ${{ steps.compute.outputs.test_batches_json }}"@,
    )
    &&& stands_in(workflow, "rust_crate_tests:"@)
    &&& stands_in(
        workflow,
        "batch: ${{ fromJson(needs.changes.outputs.test_batches_json) }}"@,
    )
    &&& stands_in(workflow, "cargo test -p \"$crate\""@)
}

proof fn lemma_runs_batches(workflow: Seq<char>)
    ensures
        runs_batches(workflow) <==> {
            &&& occurs(
                workflow,
                "test_batches_json: ${{ steps.compute.outputs.test_batches_json }}"@,
            )
            &&& occurs(workflow, "rust_crate_tests:"@)
            &&& occurs(
                workflow,
                "batch: ${{ fromJson(needs.changes.outputs.test_batches_json) }}"@,
            )
            &&& occurs(workflow, "cargo test -p \"$crate\""@)
        },
{
    lemma_occurs_stands(
        workflow,
        "test_batches_json: ${{ steps.compute.outputs.test_batches_json }}"@,
    );
    lemma_occurs_stands(workflow, "rust_crate_tests:"@);
    lemma_occurs_stands(
        workflow,
        "batch: ${{ fromJson(needs.changes.outputs.test_batches_json) }}"@,
    );
    lemma_occurs_stands(workflow, "cargo test -p \"$crate\""@);
}

/// The tests of all crates are run exactly if both workflows run every batch, and
/// the batches are planned for all crates or for the affected ones, as the event
/// asks, and handed on.
pub proof fn law_every_crate_is_tested(
    ci: Seq<char>,
    pr_builds: Seq<char>,
    changes: Seq<char>,
)
    ensures
        crate_tests_problem(ci, pr_builds, changes) is None <==> {
            &&& runs_batches(ci)
            &&& runs_batches(pr_builds)
            &&& stands_in(
                changes,
                "TEST_BATCHES=$(bash scripts/plan-test-batches.sh --all --bins 4)"@,
            )
            &&& stands_in(
                changes,
                "if [[ \"${{ inputs.event_name }}\" != \"pull_request\" ]] || [[ \"$ALL_RUST\" == \"true\" ]]; then"@,
            )
            &&& stands_in(
                changes,
                "TEST_BATCHES=$(bash scripts/plan-test-batches.sh --crates-json \"$AFFECTED_CRATES\" --bins 4)"@,
            )
            &&& stands_in(changes, "echo \"test_batches_json=$TEST_BATCHES\""@)
        },
{
    lemma_runs_batches(ci);
    lemma_runs_batches(pr_builds);
    lemma_occurs_stands(
        changes,
        "TEST_BATCHES=$(bash scripts/plan-test-batches.sh --all --bins 4)"@,
    );
    lemma_occurs_stands(
        changes,
        "if [[ \"${{ inputs.event_name }}\" != \"pull_request\" ]] || [[ \"$ALL_RUST\" == \"true\" ]]; then"@,
    );
    lemma_occurs_stands(
        changes,
        "TEST_BATCHES=$(bash scripts/plan-test-batches.sh --crates-json \"$AFFECTED_CRATES\" --bins 4)"@,
    );
    lemma_occurs_stands(changes, "echo \"test_batches_json=$TEST_BATCHES\""@);
}

/// The crates of the workspace are the packages whose id is a member's, and there
/// has to be one.
pub proof fn law_workspace_crates_are_members(
    packages: Seq<CargoPackage>,
    members: Seq<Seq<char>>,
    name: Seq<char>,
)
    ensures
        member_names(packages, members).contains(name) <==> exists|i: int|
            0 <= i < packages.len() && (#[trigger] packages[i]).name@ == name && members.contains(
                packages[i].id@,
            ),
        workspace_names(packages, members) is Ok <==> exists|found: Seq<char>|
            member_names(packages, members).contains(found),
        workspace_names(packages, members) matches Ok(names) ==> names == member_names(
            packages,
            members,
        ),
{
    let names = member_names(packages, members);
    if !(exists|found: Seq<char>| names.contains(found)) {
        assert(names =~= Set::<Seq<char>>::empty());
    }
}

/// A script lists crates behind the line that opens the list, one in quotes on
/// each line, none of them twice, up to the line that closes it.
pub proof fn law_scripts_list_crates_line_by_line(
    line: Seq<char>,
    rest: Seq<Seq<char>>,
    known: Set<Seq<char>>,
    path: Seq<char>,
    name: Seq<char>,
)
    ensures
        script_members(Seq::<Seq<char>>::empty(), path) == Err::<Set<Seq<char>>, Seq<char>>(
            path + ": missing WORKSPACE_MEMBERS array"@,
        ),
        line == "WORKSPACE_MEMBERS=("@ ==> script_members(seq![line] + rest, path)
            == listed_members(rest, Set::empty(), path),
        line != "WORKSPACE_MEMBERS=("@ ==> script_members(seq![line] + rest, path)
            == script_members(rest, path),
        listed_members(Seq::<Seq<char>>::empty(), known, path) == Err::<Set<Seq<char>>, Seq<char>>(
            path + ": missing WORKSPACE_MEMBERS array"@,
        ),
        listed_members(seq![")"@] + rest, known, path) == Ok::<Set<Seq<char>>, Seq<char>>(known),
        line == "\""@ + name + "\""@ && !known.contains(name) ==> listed_members(
            seq![line] + rest,
            known,
            path,
        ) == listed_members(rest, known.insert(name), path),
        line == "\""@ + name + "\""@ && known.contains(name) ==> listed_members(
            seq![line] + rest,
            known,
            path,
        ) == Err::<Set<Seq<char>>, Seq<char>>(
            path + " WORKSPACE_MEMBERS: duplicate crate name `"@ + name + "`"@,
        ),
        line != ")"@ && (forall|inner: Seq<char>| line != #[trigger] ("\""@ + inner + "\""@))
            ==> listed_members(seq![line] + rest, known, path) == Err::<
            Set<Seq<char>>,
            Seq<char>,
        >(path + " WORKSPACE_MEMBERS: expected quoted crate name, got `"@ + line + "`"@),
{
    let lines = seq![line] + rest;
    assert(lines[0] == line);
    assert(lines.drop_first() =~= rest);
    let closed = seq![")"@] + rest;
    assert(closed[0] == ")"@);
    reveal_strlit(")");
    reveal_strlit("\"");
    if line == "\""@ + name + "\""@ {
        assert(line =~= "\""@ + (name + "\""@));
        law_prefix_and_suffix_come_off(line, "\""@, name + "\""@);
        law_prefix_and_suffix_come_off(name + "\""@, "\""@, name);
        assert(line[0] == '"');
        assert(")"@[0] == ')');
    }
    if let Some(inner) = between_quotes(line) {
        let tail = after_prefix(line, "\""@)->0;
        law_prefix_and_suffix_come_off(line, "\""@, tail);
        law_prefix_and_suffix_come_off(tail, "\""@, inner);
        assert(line =~= "\""@ + inner + "\""@);
    }
}

/// A plan is taken batch by batch and entry by entry. Each entry has to be a
/// name that was not there before, and all of them together are what is planned.
pub proof fn law_plans_are_taken_entry_by_entry(
    batches: Seq<Seq<Option<Seq<char>>>>,
    batch: Seq<Option<Seq<char>>>,
    rest: Seq<Option<Seq<char>>>,
    known: Set<Seq<char>>,
    name: Seq<char>,
)
    ensures
        planned(None) == Err::<Set<Seq<char>>, Seq<char>>(
            "test batch planner output must be an array"@,
        ),
        planned(Some(batches)) == distinct_names(all_crates(batches), Set::empty()),
        all_crates(Seq::<Seq<Option<Seq<char>>>>::empty()) == Seq::<Option<Seq<char>>>::empty(),
        all_crates(seq![batch] + batches) == batch + all_crates(batches),
        distinct_names(Seq::<Option<Seq<char>>>::empty(), known) == Ok::<
            Set<Seq<char>>,
            Seq<char>,
        >(known),
        distinct_names(seq![None::<Seq<char>>] + rest, known) == Err::<
            Set<Seq<char>>,
            Seq<char>,
        >("test batch planner crate names must be strings"@),
        known.contains(name) ==> distinct_names(seq![Some(name)] + rest, known) == Err::<
            Set<Seq<char>>,
            Seq<char>,
        >("test batch planner duplicated crate `"@ + name + "`"@),
        !known.contains(name) ==> distinct_names(seq![Some(name)] + rest, known) == distinct_names(
            rest,
            known.insert(name),
        ),
{
    assert((seq![batch] + batches).drop_first() =~= batches);
    assert((seq![Some(name)] + rest).drop_first() =~= rest);
    assert((seq![Some(name)] + rest)[0] == Some(name));
    assert((seq![None::<Seq<char>>] + rest)[0] == None::<Seq<char>>);
}

} // verus!
