use vstd::prelude::*;
use crate::error::StepError;

verus! {

/// The configuration a run needs: an access token for the platform API and
/// the organization whose repositories are fetched. Loaded once at startup
/// and never changed for the rest of the run.
pub struct Config {
    pub token: String,
    pub organization: String,
}

/// Builds the run's configuration from the two environment values, or reports
/// which required variable is absent. Succeeds exactly when both values are
/// present; the token is checked first. Callers must not touch the network or
/// the filesystem before this has returned `Ok`.
pub fn load(token: Option<String>, organization: Option<String>) -> (r: Result<Config, StepError>)
    ensures
        r is Ok <==> (token is Some && organization is Some),
        r matches Ok(c) ==> token matches Some(t) && c.token == t,
        r matches Ok(c) ==> organization matches Some(o) && c.organization == o,
        token is None ==> (r matches Err(e) && e matches StepError::MissingConfig { variable }
            && variable@ == "GITHUB_ACCESS_TOKEN"@),
        (token is Some && organization is None) ==> (r matches Err(e)
            && e matches StepError::MissingConfig { variable } && variable@ == "ORGANIZATION"@),
{
    match (token, organization) {
        (Some(t), Some(o)) => Ok(Config { token: t, organization: o }),
        (None, _) => Err(StepError::MissingConfig { variable: "GITHUB_ACCESS_TOKEN".to_owned() }),
        (Some(_), None) => Err(StepError::MissingConfig { variable: "ORGANIZATION".to_owned() }),
    }
}

} // verus!
