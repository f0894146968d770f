//! Lists of the workspace's crates.

use crate::checks::ensure::{ensure_set_eq, reports_sets};
use crate::checks::manifest::{lines_trimmed, trimmed_lines};
use crate::document::{
    as_array, as_text, bytes_document, document_items, document_member, document_text, member_of,
    parse_json_bytes,
};
use crate::scan::{after_prefix, before_suffix, strip_prefix, strip_suffix, trim, trimmed};
use crate::text::{concat, same_text, texts};
use crate::text_set::TextSet;
use vstd::prelude::*;

verus! {

/// A package that Cargo knows.
#[derive(Debug)]
pub struct CargoPackage {
    pub id: String,
    pub name: String,
}

/// Whether one of the packages is a member of the workspace under this name.
pub open spec fn is_member_name(
    packages: Seq<CargoPackage>,
    members: Seq<Seq<char>>,
    name: Seq<char>,
) -> bool {
    exists|i: int|
        0 <= i < packages.len() && (#[trigger] packages[i]).name@ == name && members.contains(
            packages[i].id@,
        )
}

/// The names of the packages that are members of the workspace.
pub open spec fn member_names(packages: Seq<CargoPackage>, members: Seq<Seq<char>>) -> Set<
    Seq<char>,
> {
    Set::new(|name: Seq<char>| is_member_name(packages, members, name))
}

fn text_set_of(list: &Vec<String>) -> (set: TextSet)
    ensures
        set@ == texts(list@).to_set(),
{
    let mut set: TextSet = TextSet::new();
    let ghost all = texts(list@);
    let mut i: usize = 0;
    assert(set@ =~= all.take(0).to_set());
    while i < list.len()
        invariant
            i <= list@.len(),
            all == texts(list@),
            set@ == all.take(i as int).to_set(),
        decreases list@.len() - i,
    {
        let ghost before = set@;
        set.insert(list[i].as_str());
        proof {
            assert(all[i as int] == list@[i as int]@);
            let past = all.take(i as int);
            let seen = all.take(i + 1);
            assert(seen =~= past.push(all[i as int]));
            assert forall|text: Seq<char>|
                #![trigger seen.contains(text)]
                seen.contains(text) <==> past.contains(text) || text == all[i as int] by {
                if past.contains(text) {
                    let k = choose|k: int| 0 <= k < past.len() && past[k] == text;
                    assert(seen[k] == text);
                }
                if text == all[i as int] {
                    assert(seen[i as int] == text);
                }
                if seen.contains(text) {
                    let k = choose|k: int| 0 <= k < seen.len() && seen[k] == text;
                    if k < i {
                        assert(past[k] == text);
                    }
                }
            }
            assert(set@ =~= seen.to_set());
        }
        i += 1;
    }
    assert(all.take(i as int) =~= all);
    set
}

/// Whether a result holds this set, or this problem.
pub open spec fn is_text_set(
    result: Result<TextSet, String>,
    wanted: Result<Set<Seq<char>>, Seq<char>>,
) -> bool {
    match (result, wanted) {
        (Ok(set), Ok(wanted)) => set@ == wanted,
        (Err(problem), Err(wanted)) => problem@ == wanted,
        _ => false,
    }
}

/// The names of the workspace's packages, of which there has to be one.
pub open spec fn workspace_names(packages: Seq<CargoPackage>, members: Seq<Seq<char>>) -> Result<
    Set<Seq<char>>,
    Seq<char>,
> {
    if member_names(packages, members) == Set::<Seq<char>>::empty() {
        Err("cargo metadata returned no workspace package names"@)
    } else {
        Ok(member_names(packages, members))
    }
}

/// The names of the workspace's packages, of which there has to be one.
pub fn workspace_package_names(
    packages: &Vec<CargoPackage>,
    workspace_members: &Vec<String>,
) -> (names: Result<TextSet, String>)
    ensures
        is_text_set(names, workspace_names(packages@, texts(workspace_members@))),
{
    let members: TextSet = text_set_of(workspace_members);
    let ghost ids = texts(workspace_members@);
    let mut names: TextSet = TextSet::new();
    let mut i: usize = 0;
    assert(names@ =~= member_names(packages@.take(0), ids));
    while i < packages.len()
        invariant
            i <= packages@.len(),
            members@ == ids.to_set(),
            names@ == member_names(packages@.take(i as int), ids),
        decreases packages@.len() - i,
    {
        let ghost so_far = names@;
        let known = members.contains(packages[i].id.as_str());
        if known {
            names.insert(packages[i].name.as_str());
        }
        proof {
            let package = packages@[i as int];
            let past = packages@.take(i as int);
            let seen = packages@.take(i + 1);
            assert(known == ids.contains(package.id@));
            assert forall|name: Seq<char>|
                #![trigger names@.contains(name)]
                names@.contains(name) <==> is_member_name(seen, ids, name) by {
                assert(so_far.contains(name) <==> is_member_name(past, ids, name));
                if is_member_name(past, ids, name) {
                    let k = choose|k: int|
                        0 <= k < past.len() && (#[trigger] past[k]).name@ == name && ids.contains(
                            past[k].id@,
                        );
                    assert(seen[k] == past[k]);
                }
                if known && name == package.name@ {
                    assert(seen[i as int].name@ == name);
                }
                if is_member_name(seen, ids, name) {
                    let k = choose|k: int|
                        0 <= k < seen.len() && (#[trigger] seen[k]).name@ == name && ids.contains(
                            seen[k].id@,
                        );
                    if k < i {
                        assert(past[k] == seen[k]);
                    }
                }
            }
            assert(names@ =~= member_names(seen, ids));
        }
        i += 1;
    }
    assert(packages@.take(i as int) =~= packages@);
    if names.is_empty() {
        Err("cargo metadata returned no workspace package names".to_owned())
    } else {
        Ok(names)
    }
}

/// The text between two quotes.
pub open spec fn between_quotes(line: Seq<char>) -> Option<Seq<char>> {
    match after_prefix(line, "\""@) {
        Some(rest) => before_suffix(rest, "\""@),
        None => None,
    }
}

fn unquote(line: &str) -> (inner: Option<String>)
    ensures
        match inner {
            Some(inner) => between_quotes(line@) == Some(inner@),
            None => between_quotes(line@) is None,
        },
{
    match strip_prefix(line, "\"") {
        Some(rest) => strip_suffix(rest.as_str(), "\""),
        None => None,
    }
}

/// What is said of a script without the list.
pub open spec fn no_list(path: Seq<char>) -> Seq<char> {
    path + ": missing WORKSPACE_MEMBERS array"@
}

/// The crates on the lines up to the one that closes the list: one in quotes
/// on each line, none twice.
pub open spec fn listed_members(
    lines: Seq<Seq<char>>,
    members: Set<Seq<char>>,
    path: Seq<char>,
) -> Result<Set<Seq<char>>, Seq<char>>
    decreases lines.len(),
{
    if lines.len() == 0 {
        Err(no_list(path))
    } else if lines[0] == ")"@ {
        Ok(members)
    } else {
        match between_quotes(lines[0]) {
            None => Err(
                path + " WORKSPACE_MEMBERS: expected quoted crate name, got `"@ + lines[0] + "`"@,
            ),
            Some(name) => if members.contains(name) {
                Err(path + " WORKSPACE_MEMBERS: duplicate crate name `"@ + name + "`"@)
            } else {
                listed_members(lines.drop_first(), members.insert(name), path)
            },
        }
    }
}

/// The crates that a script lists behind the first line that opens the list.
pub open spec fn script_members(lines: Seq<Seq<char>>, path: Seq<char>) -> Result<
    Set<Seq<char>>,
    Seq<char>,
>
    decreases lines.len(),
{
    if lines.len() == 0 {
        Err(no_list(path))
    } else if lines[0] == "WORKSPACE_MEMBERS=("@ {
        listed_members(lines.drop_first(), Set::empty(), path)
    } else {
        script_members(lines.drop_first(), path)
    }
}

/// The crates that a script lists. `relative_path` is where the script is.
pub fn script_workspace_members(contents: &str, relative_path: &str) -> (members: Result<
    TextSet,
    String,
>)
    ensures
        is_text_set(members, script_members(trimmed_lines(contents@), relative_path@)),
{
    let all: Vec<String> = lines_trimmed(contents);
    let ghost whole = texts(all@);
    let ghost wanted = script_members(whole, relative_path@);
    let count: usize = all.len();
    let mut members: TextSet = TextSet::new();
    let mut in_array = false;
    let mut i: usize = 0;
    assert(whole.skip(0) =~= whole);
    while i < count
        invariant
            i <= count,
            count == all@.len(),
            whole == texts(all@),
            whole == trimmed_lines(contents@),
            wanted == script_members(whole, relative_path@),
            !in_array ==> members@ == Set::<Seq<char>>::empty() && script_members(
                whole.skip(i as int),
                relative_path@,
            ) == wanted,
            in_array ==> listed_members(whole.skip(i as int), members@, relative_path@) == wanted,
        decreases count - i,
    {
        let ghost rest = whole.skip(i as int);
        assert(rest[0] == all@[i as int]@);
        assert(rest.drop_first() =~= whole.skip(i + 1));
        let line = all[i].as_str();
        if !in_array {
            if same_text(line, "WORKSPACE_MEMBERS=(") {
                in_array = true;
            }
        } else if same_text(line, ")") {
            return Ok(members);
        } else {
            match unquote(line) {
                None => {
                    let start = concat(
                        relative_path.to_owned(),
                        " WORKSPACE_MEMBERS: expected quoted crate name, got `",
                    );
                    return Err(concat(concat(start, line), "`"));
                },
                Some(member) => {
                    if !members.insert(member.as_str()) {
                        let start = concat(
                            relative_path.to_owned(),
                            " WORKSPACE_MEMBERS: duplicate crate name `",
                        );
                        return Err(concat(concat(start, member.as_str()), "`"));
                    }
                },
            }
        }
        i += 1;
    }
    Err(concat(relative_path.to_owned(), ": missing WORKSPACE_MEMBERS array"))
}

/// One batch of tests: what it lists as crates, each by its name, or nothing
/// where an entry is no text.
#[derive(Debug)]
pub struct TestBatch {
    pub crates: Vec<Option<String>>,
}

/// The name in an entry, if it is a text.
pub open spec fn entry_name(entry: Option<String>) -> Option<Seq<char>> {
    match entry {
        Some(name) => Some(name@),
        None => None,
    }
}

impl View for TestBatch {
    type V = Seq<Option<Seq<char>>>;

    open spec fn view(&self) -> Seq<Option<Seq<char>>> {
        self.crates@.map_values(|entry: Option<String>| entry_name(entry))
    }
}

/// The entries of each batch of a plan, if the plan is an array.
pub open spec fn plan_entries(plan: Option<Vec<TestBatch>>) -> Option<
    Seq<Seq<Option<Seq<char>>>>,
> {
    match plan {
        Some(batches) => Some(batches@.map_values(|batch: TestBatch| batch@)),
        None => None,
    }
}

/// What a document lists as the crates of one batch.
pub open spec fn document_crates(batch: serde_json::Value) -> Seq<Option<Seq<char>>> {
    match document_items(document_member(batch, "crates"@)) {
        Some(items) => items.map_values(|item: serde_json::Value| document_text(item)),
        None => Seq::empty(),
    }
}

/// What a document lists as the crates of each batch, if it is an array.
pub open spec fn document_plan(document: serde_json::Value) -> Option<
    Seq<Seq<Option<Seq<char>>>>,
> {
    match document_items(document) {
        Some(batches) => Some(
            batches.map_values(|batch: serde_json::Value| document_crates(batch)),
        ),
        None => None,
    }
}

fn read_batch(batch: &serde_json::Value) -> (read: TestBatch)
    ensures
        read@ == document_crates(*batch),
{
    let mut crates: Vec<Option<String>> = Vec::new();
    if let Some(items) = as_array(member_of(batch, "crates")) {
        let ghost wanted = items@.map_values(|item: serde_json::Value| document_text(item));
        let count: usize = items.len();
        let mut i: usize = 0;
        while i < count
            invariant
                i <= count,
                count == items@.len(),
                wanted == items@.map_values(|item: serde_json::Value| document_text(item)),
                crates@.len() == i,
                forall|k: int| 0 <= k < i ==> entry_name(#[trigger] crates@[k]) == wanted[k],
            decreases count - i,
        {
            crates.push(as_text(&items[i]));
            i += 1;
        }
        let read = TestBatch { crates };
        assert(read@ =~= wanted);
        return read;
    }
    let read = TestBatch { crates };
    assert(read@ =~= Seq::empty());
    read
}

/// The batches that a document lists, if it is an array.
pub fn read_plan(document: &serde_json::Value) -> (plan: Option<Vec<TestBatch>>)
    ensures
        plan_entries(plan) == document_plan(*document),
{
    match as_array(document) {
        None => None,
        Some(items) => {
            let ghost wanted = items@.map_values(
                |batch: serde_json::Value| document_crates(batch),
            );
            let count: usize = items.len();
            let mut batches: Vec<TestBatch> = Vec::new();
            let mut i: usize = 0;
            while i < count
                invariant
                    i <= count,
                    count == items@.len(),
                    wanted == items@.map_values(
                        |batch: serde_json::Value| document_crates(batch),
                    ),
                    batches@.len() == i,
                    forall|k: int| 0 <= k < i ==> (#[trigger] batches@[k])@ == wanted[k],
                decreases count - i,
            {
                batches.push(read_batch(&items[i]));
                i += 1;
            }
            assert(batches@.map_values(|batch: TestBatch| batch@) =~= wanted);
            Some(batches)
        },
    }
}

/// The entries of some batches, in order.
pub open spec fn all_crates(batches: Seq<Seq<Option<Seq<char>>>>) -> Seq<Option<Seq<char>>>
    decreases batches.len(),
{
    if batches.len() == 0 {
        Seq::empty()
    } else {
        batches[0] + all_crates(batches.drop_first())
    }
}

/// The names in a list of which each has to be a text, and none may occur
/// twice, nor among those that are known.
pub open spec fn distinct_names(
    crates: Seq<Option<Seq<char>>>,
    known: Set<Seq<char>>,
) -> Result<Set<Seq<char>>, Seq<char>>
    decreases crates.len(),
{
    if crates.len() == 0 {
        Ok(known)
    } else {
        match crates[0] {
            Some(name) => if known.contains(name) {
                Err("test batch planner duplicated crate `"@ + name + "`"@)
            } else {
                distinct_names(crates.drop_first(), known.insert(name))
            },
            None => Err("test batch planner crate names must be strings"@),
        }
    }
}

/// The crates that a plan of test batches names.
pub open spec fn planned(plan: Option<Seq<Seq<Option<Seq<char>>>>>) -> Result<
    Set<Seq<char>>,
    Seq<char>,
> {
    match plan {
        Some(batches) => distinct_names(all_crates(batches), Set::empty()),
        None => Err("test batch planner output must be an array"@),
    }
}

/// The crates that a plan of test batches names.
pub fn planned_crates(plan: &Option<Vec<TestBatch>>) -> (crates: Result<TextSet, String>)
    ensures
        is_text_set(crates, planned(plan_entries(*plan))),
{
    match plan {
        Some(batches) => collect_names(batches),
        None => Err("test batch planner output must be an array".to_owned()),
    }
}

fn collect_names(batches: &Vec<TestBatch>) -> (crates: Result<TextSet, String>)
    ensures
        is_text_set(
            crates,
            distinct_names(
                all_crates(batches@.map_values(|batch: TestBatch| batch@)),
                Set::empty(),
            ),
        ),
{
    let ghost whole = batches@.map_values(|batch: TestBatch| batch@);
    let ghost wanted = distinct_names(all_crates(whole), Set::empty());
    let count: usize = batches.len();
    let mut names: TextSet = TextSet::new();
    let mut i: usize = 0;
    assert(whole.skip(0) =~= whole);
    while i < count
        invariant
            i <= count,
            whole == batches@.map_values(|batch: TestBatch| batch@),
            count == whole.len(),
            wanted == distinct_names(all_crates(whole), Set::empty()),
            distinct_names(all_crates(whole.skip(i as int)), names@) == wanted,
        decreases count - i,
    {
        let ghost later = all_crates(whole.skip(i + 1));
        assert(whole.skip(i as int).drop_first() =~= whole.skip(i + 1));
        let crates = &batches[i].crates;
        let ghost entries = whole[i as int];
        let len: usize = crates.len();
        let mut j: usize = 0;
        assert(entries.skip(0) + later =~= all_crates(whole.skip(i as int)));
        while j < len
            invariant
                j <= len,
                len == crates@.len(),
                whole == batches@.map_values(|batch: TestBatch| batch@),
                entries == crates@.map_values(|entry: Option<String>| entry_name(entry)),
                wanted == distinct_names(all_crates(whole), Set::empty()),
                distinct_names(entries.skip(j as int) + later, names@) == wanted,
            decreases len - j,
        {
            let ghost rest = entries.skip(j as int) + later;
            assert(rest[0] == entry_name(crates@[j as int]));
            assert(rest.drop_first() =~= entries.skip(j + 1) + later);
            match &crates[j] {
                Some(name) => {
                    if !names.insert(name.as_str()) {
                        return Err(
                            concat(
                                concat(
                                    "test batch planner duplicated crate `".to_owned(),
                                    name.as_str(),
                                ),
                                "`",
                            ),
                        );
                    }
                },
                None => {
                    return Err("test batch planner crate names must be strings".to_owned());
                },
            }
            j += 1;
        }
        assert(entries.skip(j as int) + later =~= later);
        i += 1;
    }
    assert(whole.skip(i as int) =~= Seq::empty());
    Ok(names)
}

/// Whether a check reports the first problem with two sets, in the order in
/// which they are found, or that they differ.
pub open spec fn reports_first(
    result: Result<(), String>,
    expected: Result<Set<Seq<char>>, Seq<char>>,
    actual: Result<Set<Seq<char>>, Seq<char>>,
    context: Seq<char>,
) -> bool {
    match (expected, actual) {
        (Err(problem), _) => result matches Err(message) && message@ == problem,
        (Ok(_), Err(problem)) => result matches Err(message) && message@ == problem,
        (Ok(expected), Ok(actual)) => reports_sets(result, expected, actual, context),
    }
}

/// Whether a check reports the first problem with a plan of test batches, with
/// the workspace, or that the plan does not name just the workspace's crates.
pub open spec fn reports_plan(
    result: Result<(), String>,
    plan: Option<Seq<Seq<Option<Seq<char>>>>>,
    packages: Seq<CargoPackage>,
    members: Seq<Seq<char>>,
) -> bool {
    match (planned(plan), workspace_names(packages, members)) {
        (Err(problem), _) => result matches Err(message) && message@ == problem,
        (Ok(_), Err(problem)) => result matches Err(message) && message@ == problem,
        (Ok(actual), Ok(expected)) => reports_sets(
            result,
            expected,
            actual,
            "Cargo test batch workspace coverage"@,
        ),
    }
}

/// Checks that a plan of test batches names each crate of the workspace.
pub fn check_test_batch_planner_covers_workspace(
    plan: &Option<Vec<TestBatch>>,
    packages: &Vec<CargoPackage>,
    workspace_members: &Vec<String>,
) -> (result: Result<(), String>)
    ensures
        reports_plan(result, plan_entries(*plan), packages@, texts(workspace_members@)),
{
    match planned_crates(plan) {
        Err(problem) => Err(problem),
        Ok(actual) => match workspace_package_names(packages, workspace_members) {
            Err(problem) => Err(problem),
            Ok(expected) => ensure_set_eq(
                &expected,
                &actual,
                "Cargo test batch workspace coverage",
            ),
        },
    }
}

/// Checks what the planner of test batches wrote to standard output: a JSON
/// document that names each crate of the workspace.
pub fn check_planned_batches(
    stdout: &[u8],
    packages: &Vec<CargoPackage>,
    workspace_members: &Vec<String>,
) -> (result: Result<(), String>)
    ensures
        match bytes_document(stdout@) {
            Err(problem) => result matches Err(message) && message@ == problem,
            Ok(document) => reports_plan(
                result,
                document_plan(document),
                packages@,
                texts(workspace_members@),
            ),
        },
{
    match parse_json_bytes(stdout) {
        Err(problem) => Err(problem),
        Ok(document) => check_test_batch_planner_covers_workspace(
            &read_plan(&document),
            packages,
            workspace_members,
        ),
    }
}

/// Checks that a script lists each crate of the workspace.
pub fn check_script_members(
    expected: &TextSet,
    contents: &str,
    relative_path: &str,
) -> (result: Result<(), String>)
    ensures
        reports_first(
            result,
            Ok(expected@),
            script_members(trimmed_lines(contents@), relative_path@),
            relative_path@ + " WORKSPACE_MEMBERS"@,
        ),
{
    match script_workspace_members(contents, relative_path) {
        Err(problem) => Err(problem),
        Ok(actual) => ensure_set_eq(
            expected,
            &actual,
            concat(relative_path.to_owned(), " WORKSPACE_MEMBERS").as_str(),
        ),
    }
}

/// The script that finds the crates that a change affects.
pub const AFFECTED_CRATES_SCRIPT: &'static str = "scripts/affected-crates.sh";

/// The script that plans the batches of lints.
pub const CLIPPY_BATCHES_SCRIPT: &'static str = "scripts/plan-clippy-batches.sh";

/// Checks that both scripts list each crate of the workspace.
pub fn check_ci_script_workspace_members(
    packages: &Vec<CargoPackage>,
    workspace_members: &Vec<String>,
    affected_crates: &str,
    clippy_batches: &str,
) -> (result: Result<(), String>)
    ensures
        match workspace_names(packages@, texts(workspace_members@)) {
            Err(problem) => result matches Err(message) && message@ == problem,
            Ok(expected) => if script_members(
                trimmed_lines(affected_crates@),
                AFFECTED_CRATES_SCRIPT@,
            ) == Ok::<Set<Seq<char>>, Seq<char>>(expected) {
                reports_first(
                    result,
                    Ok(expected),
                    script_members(trimmed_lines(clippy_batches@), CLIPPY_BATCHES_SCRIPT@),
                    CLIPPY_BATCHES_SCRIPT@ + " WORKSPACE_MEMBERS"@,
                )
            } else {
                reports_first(
                    result,
                    Ok(expected),
                    script_members(trimmed_lines(affected_crates@), AFFECTED_CRATES_SCRIPT@),
                    AFFECTED_CRATES_SCRIPT@ + " WORKSPACE_MEMBERS"@,
                )
            },
        },
{
    match workspace_package_names(packages, workspace_members) {
        Err(problem) => Err(problem),
        Ok(expected) => {
            match check_script_members(&expected, affected_crates, AFFECTED_CRATES_SCRIPT) {
                Err(problem) => Err(problem),
                Ok(_) => check_script_members(&expected, clippy_batches, CLIPPY_BATCHES_SCRIPT),
            }
        },
    }
}

/// What is said where the planner of test batches fails.
pub fn planner_failure(stderr: &str) -> (message: String)
    ensures
        message@ == "test batch planner failed: "@ + trimmed(stderr@),
{
    concat("test batch planner failed: ".to_owned(), trim(stderr).as_str())
}

/// What is said where Cargo does not describe the workspace: what it wrote to
/// standard error, or to standard output where that is blank.
pub fn metadata_failure(context: &str, stderr: &str, stdout: &str) -> (message: String)
    ensures
        message@ == "cargo metadata failed while checking "@ + context@ + ": "@ + (if trimmed(
            stderr@,
        ).len() > 0 {
            trimmed(stderr@)
        } else {
            trimmed(stdout@)
        }),
{
    let start = concat(
        concat("cargo metadata failed while checking ".to_owned(), context),
        ": ",
    );
    let said = trim(stderr);
    if said.as_str().is_empty() {
        concat(start, trim(stdout).as_str())
    } else {
        concat(start, said.as_str())
    }
}

proof fn lemma_distinct_names_keep_known(crates: Seq<Option<Seq<char>>>, known: Set<Seq<char>>)
    requires
        distinct_names(crates, known) is Ok,
    ensures
        known.subset_of(distinct_names(crates, known)->Ok_0),
        forall|i: int| 0 <= i < crates.len() ==> (#[trigger] crates[i]) is Some,
        forall|i: int|
            0 <= i < crates.len() ==> distinct_names(crates, known)->Ok_0.contains(
                (#[trigger] crates[i])->0,
            ) && !known.contains(crates[i]->0),
    decreases crates.len(),
{
    if crates.len() > 0 {
        let name = crates[0]->0;
        let rest = crates.drop_first();
        lemma_distinct_names_keep_known(rest, known.insert(name));
        assert forall|i: int| 0 <= i < crates.len() implies (#[trigger] crates[i]) is Some
            && distinct_names(crates, known)->Ok_0.contains(crates[i]->0) && !known.contains(
            crates[i]->0,
        ) by {
            if i > 0 {
                assert(crates[i] == rest[i - 1]);
            }
        }
    }
}

/// A plan that is accepted names no crate twice.
pub proof fn law_accepted_plan_names_each_crate_once(crates: Seq<Option<Seq<char>>>, i: int, j: int)
    requires
        distinct_names(crates, Set::empty()) is Ok,
        0 <= i < j < crates.len(),
    ensures
        crates[i] is Some,
        crates[j] is Some,
        crates[i]->0 != crates[j]->0,
{
    lemma_names_differ(crates, Set::empty(), i, j);
}

proof fn lemma_names_differ(crates: Seq<Option<Seq<char>>>, known: Set<Seq<char>>, i: int, j: int)
    requires
        distinct_names(crates, known) is Ok,
        0 <= i < j < crates.len(),
    ensures
        crates[i] is Some,
        crates[j] is Some,
        crates[i]->0 != crates[j]->0,
    decreases crates.len(),
{
    let name = crates[0]->0;
    let rest = crates.drop_first();
    assert(crates[j] == rest[j - 1]);
    if i == 0 {
        lemma_distinct_names_keep_known(rest, known.insert(name));
    } else {
        assert(crates[i] == rest[i - 1]);
        lemma_names_differ(rest, known.insert(name), i - 1, j - 1);
    }
}

} // verus!
