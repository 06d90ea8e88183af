use vstd::prelude::*;
use vstd::string::StringExecFns;

verus! {

/// The run's output directory: `<cwd>/data/<organization>`. Keyed by the
/// organization alone, so a re-run overwrites the previous run's files.
pub open spec fn output_dir_spec(cwd: Seq<char>, organization: Seq<char>) -> Seq<char> {
    cwd + "/data/"@ + organization
}

/// The repository listing file inside the output directory.
pub open spec fn repos_file_spec(dir: Seq<char>) -> Seq<char> {
    dir + "/orgrepos.json"@
}

/// The issue file of one repository inside the output directory:
/// `<dir>/<name>.issues.json`.
pub open spec fn issues_file_spec(dir: Seq<char>, name: Seq<char>) -> Seq<char> {
    dir + "/"@ + name + ".issues.json"@
}

/// Builds the output directory's path for this organization.
pub fn output_dir(cwd: &str, organization: &str) -> (r: String)
    ensures
        r@ == output_dir_spec(cwd@, organization@),
{
    let mut s = cwd.to_owned();
    s.append("/data/");
    s.append(organization);
    s
}

/// Builds the path of the repository listing file.
pub fn repos_file(dir: &str) -> (r: String)
    ensures
        r@ == repos_file_spec(dir@),
{
    let mut s = dir.to_owned();
    s.append("/orgrepos.json");
    s
}

/// Builds the path of one repository's issue file.
pub fn issues_file(dir: &str, name: &str) -> (r: String)
    ensures
        r@ == issues_file_spec(dir@, name@),
{
    let mut s = dir.to_owned();
    s.append("/");
    s.append(name);
    s.append(".issues.json");
    s
}

} // verus!
