//! Versions in manifests and sources.

use crate::checks::ensure::{differing_problem, ensure_eq, reports};
use crate::scan::{
    after_prefix, before_suffix, lines, lines_of, strip_prefix, strip_suffix, trim, trimmed,
};
use crate::text::{concat, same_text, texts};
use vstd::prelude::*;

verus! {

/// The lines of a text without the white space around them.
pub open spec fn trimmed_lines(text: Seq<char>) -> Seq<Seq<char>> {
    lines_of(text).map_values(|line: Seq<char>| trimmed(line))
}

/// The lines of a text without the white space around them.
pub fn lines_trimmed(text: &str) -> (result: Vec<String>)
    ensures
        texts(result@) == trimmed_lines(text@),
{
    let all: Vec<String> = lines(text);
    let mut result: Vec<String> = Vec::new();
    let mut i: usize = 0;
    while i < all.len()
        invariant
            i <= all@.len(),
            texts(all@) == lines_of(text@),
            result@.len() == i,
            forall|k: int| 0 <= k < i ==> #[trigger] result@[k]@ == trimmed(all@[k]@),
        decreases all@.len() - i,
    {
        result.push(trim(all[i].as_str()));
        i += 1;
    }
    proof {
        assert forall|k: int| 0 <= k < result@.len() implies texts(result@)[k] == trimmed_lines(
            text@,
        )[k] by {
            assert(texts(all@)[k] == all@[k]@);
            assert(result@[k]@ == trimmed(all@[k]@));
        }
        assert(texts(result@) =~= trimmed_lines(text@));
    }
    result
}

/// The text in quotes behind the first line that begins so, with the problem
/// where the quotes are not closed.
pub open spec fn first_quoted(
    lines: Seq<Seq<char>>,
    prefix: Seq<char>,
    suffix: Seq<char>,
    malformed: Seq<char>,
) -> Result<Option<Seq<char>>, Seq<char>>
    decreases lines.len(),
{
    if lines.len() == 0 {
        Ok(None)
    } else {
        match after_prefix(lines[0], prefix) {
            Some(rest) => match before_suffix(rest, suffix) {
                Some(value) => Ok(Some(value)),
                None => Err(malformed),
            },
            None => first_quoted(lines.drop_first(), prefix, suffix, malformed),
        }
    }
}

/// The value of a key in a manifest.
pub open spec fn manifest_string(contents: Seq<char>, key: Seq<char>) -> Result<
    Option<Seq<char>>,
    Seq<char>,
> {
    first_quoted(
        trimmed_lines(contents),
        key + " = \""@,
        "\""@,
        "malformed manifest "@ + key + " value"@,
    )
}

/// Whether a result holds these texts.
pub open spec fn is_optional_text(
    result: Result<Option<String>, String>,
    wanted: Result<Option<Seq<char>>, Seq<char>>,
) -> bool {
    match (result, wanted) {
        (Ok(Some(value)), Ok(Some(wanted))) => value@ == wanted,
        (Ok(None), Ok(None)) => true,
        (Err(problem), Err(wanted)) => problem@ == wanted,
        _ => false,
    }
}

/// The value of a key in a manifest: what stands in quotes on the first line
/// that sets it.
pub fn extract_manifest_string(contents: &str, key: &str) -> (value: Result<Option<String>, String>)
    ensures
        is_optional_text(value, manifest_string(contents@, key@)),
{
    let prefix = concat(key.to_owned(), " = \"");
    let all: Vec<String> = lines_trimmed(contents);
    let ghost whole = texts(all@);
    let ghost malformed = "malformed manifest "@ + key@ + " value"@;
    let count: usize = all.len();
    let mut i: usize = 0;
    assert(whole.skip(0) =~= whole);
    while i < count
        invariant
            i <= count,
            count == all@.len(),
            whole == texts(all@),
            whole == trimmed_lines(contents@),
            prefix@ == key@ + " = \""@,
            malformed == "malformed manifest "@ + key@ + " value"@,
            first_quoted(whole.skip(i as int), prefix@, "\""@, malformed) == first_quoted(
                whole,
                prefix@,
                "\""@,
                malformed,
            ),
        decreases count - i,
    {
        let ghost rest_lines = whole.skip(i as int);
        assert(rest_lines[0] == all@[i as int]@);
        assert(rest_lines.drop_first() =~= whole.skip(i + 1));
        if let Some(rest) = strip_prefix(all[i].as_str(), prefix.as_str()) {
            return match strip_suffix(rest.as_str(), "\"") {
                Some(value) => Ok(Some(value)),
                None => Err(concat(concat("malformed manifest ".to_owned(), key), " value")),
            };
        }
        i += 1;
    }
    Ok(None)
}

/// Whether a line of a manifest gives a key this value.
pub open spec fn sets_bool(contents: Seq<char>, key: Seq<char>, expected: bool) -> bool {
    trimmed_lines(contents).contains(
        key + " = "@ + (if expected {
            "true"@
        } else {
            "false"@
        }),
    )
}

/// Whether a line of a manifest gives a key this value.
pub fn has_manifest_bool(contents: &str, key: &str, expected: bool) -> (found: bool)
    ensures
        found == sets_bool(contents@, key@, expected),
{
    let value = if expected {
        "true"
    } else {
        "false"
    };
    let wanted = concat(concat(key.to_owned(), " = "), value);
    let all: Vec<String> = lines_trimmed(contents);
    let mut i: usize = 0;
    while i < all.len()
        invariant
            i <= all@.len(),
            texts(all@) == trimmed_lines(contents@),
            wanted@ == key@ + " = "@ + (if expected {
                "true"@
            } else {
                "false"@
            }),
            forall|k: int| 0 <= k < i ==> #[trigger] texts(all@)[k] != wanted@,
        decreases all@.len() - i,
    {
        assert(texts(all@)[i as int] == all@[i as int]@);
        if same_text(all[i].as_str(), wanted.as_str()) {
            return true;
        }
        i += 1;
    }
    false
}

/// Where a package has its version from.
#[derive(Debug, PartialEq, Eq)]
pub enum PackageVersion {
    /// From its own manifest.
    Own(String),
    /// From the workspace's manifest.
    Workspace,
}

/// Where the host runtime has its version from: its manifest sets one, or
/// refers to the workspace's.
pub fn package_version(runtime_manifest: &str) -> (version: Result<PackageVersion, String>)
    ensures
        match manifest_string(runtime_manifest@, "version"@) {
            Ok(Some(own)) => version matches Ok(PackageVersion::Own(text)) && text@ == own,
            Ok(None) => if sets_bool(runtime_manifest@, "version.workspace"@, true) {
                version == Ok::<PackageVersion, String>(PackageVersion::Workspace)
            } else {
                version matches Err(problem) && problem@
                    == "missing mesh-llm-host-runtime package version"@
            },
            Err(malformed) => version matches Err(problem) && problem@ == malformed,
        },
{
    match extract_manifest_string(runtime_manifest, "version") {
        Err(problem) => Err(problem),
        Ok(Some(version)) => Ok(PackageVersion::Own(version)),
        Ok(None) => {
            if has_manifest_bool(runtime_manifest, "version.workspace", true) {
                Ok(PackageVersion::Workspace)
            } else {
                Err("missing mesh-llm-host-runtime package version".to_owned())
            }
        },
    }
}

/// The version that the workspace's manifest sets.
pub fn workspace_version(workspace_manifest: &str) -> (version: Result<String, String>)
    ensures
        match manifest_string(workspace_manifest@, "version"@) {
            Ok(Some(own)) => version matches Ok(text) && text@ == own,
            Ok(None) => version matches Err(problem) && problem@
                == "missing workspace package version"@,
            Err(malformed) => version matches Err(problem) && problem@ == malformed,
        },
{
    match extract_manifest_string(workspace_manifest, "version") {
        Err(problem) => Err(problem),
        Ok(Some(version)) => Ok(version),
        Ok(None) => Err("missing workspace package version".to_owned()),
    }
}

/// What the constant of the runtime's version is.
#[derive(Debug, PartialEq, Eq)]
pub enum RuntimeVersion {
    /// The version of the package.
    Package,
    /// A text of its own.
    Literal(String),
}

/// The line for the version that the package was built with.
pub const CARGO_PKG_VERSION: &'static str =
    "pub const VERSION: &str = env!(\"CARGO_PKG_VERSION\");";

/// The line for the version of the release.
pub const RELEASE_VERSION_ALIAS: &'static str = "pub const VERSION: &str = RELEASE_VERSION;";

/// How a line with a text of its own begins.
pub const LITERAL_PREFIX: &'static str = "pub const VERSION: &str = \"";

/// What is said of the first line that sets the version: the package's
/// version, a text of its own, or a problem.
pub open spec fn version_line(lines: Seq<Seq<char>>) -> Result<Option<Seq<char>>, Seq<char>>
    decreases lines.len(),
{
    if lines.len() == 0 {
        Err("missing mesh-llm-host-runtime VERSION constant"@)
    } else if lines[0] == CARGO_PKG_VERSION@ || lines[0] == RELEASE_VERSION_ALIAS@ {
        Ok(None)
    } else {
        match after_prefix(lines[0], LITERAL_PREFIX@) {
            Some(rest) => match before_suffix(rest, "\";"@) {
                Some(version) => Ok(Some(version)),
                None => Err("malformed mesh-llm-host-runtime VERSION constant"@),
            },
            None => version_line(lines.drop_first()),
        }
    }
}

/// What the first line of a source that sets the runtime's version sets it to.
pub fn extract_runtime_version(contents: &str) -> (version: Result<RuntimeVersion, String>)
    ensures
        match version_line(trimmed_lines(contents@)) {
            Ok(Some(literal)) => version matches Ok(RuntimeVersion::Literal(text)) && text@
                == literal,
            Ok(None) => version == Ok::<RuntimeVersion, String>(RuntimeVersion::Package),
            Err(wanted) => version matches Err(problem) && problem@ == wanted,
        },
{
    let all: Vec<String> = lines_trimmed(contents);
    let ghost whole = texts(all@);
    let count: usize = all.len();
    let mut i: usize = 0;
    assert(whole.skip(0) =~= whole);
    while i < count
        invariant
            i <= count,
            count == all@.len(),
            whole == texts(all@),
            whole == trimmed_lines(contents@),
            version_line(whole.skip(i as int)) == version_line(whole),
        decreases count - i,
    {
        let ghost rest_lines = whole.skip(i as int);
        assert(rest_lines[0] == all@[i as int]@);
        assert(rest_lines.drop_first() =~= whole.skip(i + 1));
        let line = all[i].as_str();
        if same_text(line, CARGO_PKG_VERSION) || same_text(line, RELEASE_VERSION_ALIAS) {
            return Ok(RuntimeVersion::Package);
        }
        if let Some(rest) = strip_prefix(line, LITERAL_PREFIX) {
            return match strip_suffix(rest.as_str(), "\";") {
                Some(version) => Ok(RuntimeVersion::Literal(version)),
                None => Err("malformed mesh-llm-host-runtime VERSION constant".to_owned()),
            };
        }
        i += 1;
    }
    Err("missing mesh-llm-host-runtime VERSION constant".to_owned())
}

/// Checks that releases are attested for the version that the runtime reports.
/// `package` is the version of the runtime's package.
pub fn check_attestation_default_version(runtime: &RuntimeVersion, package: &str) -> (result: Result<
    (),
    String,
>)
    ensures
        reports(
            result,
            differing_problem(
                match *runtime {
                    RuntimeVersion::Package => package@,
                    RuntimeVersion::Literal(text) => text@,
                },
                package@,
                "xtask release-attestation default node version"@,
            ),
        ),
{
    let runtime_version = match runtime {
        RuntimeVersion::Package => package,
        RuntimeVersion::Literal(text) => text.as_str(),
    };
    ensure_eq(runtime_version, package, "xtask release-attestation default node version")
}

} // verus!
