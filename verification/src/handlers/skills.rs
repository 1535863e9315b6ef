//! Skills: listing them and switching them on and off.

use crate::text::string_eq;
use crate::text::words;
use vstd::prelude::*;

verus! {

pub struct ListSkillsParams {
    pub cwds: Vec<String>,
    pub force_reload: bool,
}

pub struct UpdateSkillConfigRequest {
    pub enabled: bool,
}

pub struct UpdateSkillConfigResponse {
    pub effective_enabled: bool,
}

/// The directories whose skills are listed: those that the request names,
/// or the configured working directory if it names none.
pub fn skill_cwds(params: ListSkillsParams, config_cwd: String) -> (cwds: Vec<String>)
    ensures
        params.cwds@.len() == 0 ==> cwds@ == seq![config_cwd],
        params.cwds@.len() > 0 ==> cwds == params.cwds,
{
    if params.cwds.len() == 0 {
        let mut cwds: Vec<String> = Vec::new();
        cwds.push(config_cwd);
        assert(cwds@ =~= seq![config_cwd]);
        cwds
    } else {
        params.cwds
    }
}

/// A skill is enabled unless its path is among the disabled ones.
pub fn skill_enabled(path: &String, disabled_paths: &Vec<String>) -> (r: bool)
    ensures
        r == !words(disabled_paths@).contains(path@),
{
    let mut i: usize = 0;
    while i < disabled_paths.len()
        invariant
            i <= disabled_paths.len(),
            forall|j: int| 0 <= j < i ==> words(disabled_paths@)[j] != path@,
        decreases disabled_paths.len() - i,
    {
        if string_eq(&disabled_paths[i], path) {
            assert(words(disabled_paths@)[i as int] == path@);
            return false;
        }
        i += 1;
    }
    true
}

/// The answer to a request that switched a skill: the setting as it now is.
pub fn update_skill_config(req: &UpdateSkillConfigRequest) -> (r: UpdateSkillConfigResponse)
    ensures
        r.effective_enabled == req.enabled,
{
    UpdateSkillConfigResponse { effective_enabled: req.enabled }
}

} // verus!
