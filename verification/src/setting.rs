use vstd::prelude::*;
use vstd::string::StringExecFns;

use crate::errors::SettingError;
use crate::filesys::local_data_dir_path;
use crate::ids::new_session_id;
use crate::openai::ModelTurbo;

verus! {

/// One named summarization instruction a user can pick.
#[derive(Clone, Debug)]
pub struct Prompt {
    pub name: String,
    pub prompt: String,
}

/// The application's persisted configuration.
#[derive(Clone, Debug)]
pub struct Setting {
    pub uuid: String,
    pub assemblyai_api_token: String,
    pub openai_api_token: String,
    pub affinity_api_token: String,
    pub affinity_crm_list_id: Option<String>,
    pub prompts: Option<Vec<Prompt>>,
    pub default_model: Option<ModelTurbo>,
}

/// The configuration a fresh install starts from: no tokens, no CRM
/// list, the two stock prompts, and the larger model.
pub open spec fn spec_is_default_setting(s: Setting) -> bool {
    &&& s.assemblyai_api_token@ == Seq::<char>::empty()
    &&& s.openai_api_token@ == Seq::<char>::empty()
    &&& s.affinity_api_token@ == Seq::<char>::empty()
    &&& s.affinity_crm_list_id is None
    &&& s.prompts matches Some(ps) && ps@.len() == 2 && ps@[0].name@ == "VC Intro Call"@
        && ps@[0].prompt@
        == "Extract key details from your introductory call, ensuring accuracy and conciseness. Ignore the information about our fund, focus on the startup:\n- General discussion points\n- Team overview\n- Company's core activities\n- Problem addressed by the company\n- Target market and sales approach\n- Competitive advantages\n- Business model overview\n- Current status of the company\n- Funding status or recent fundraising efforts\n- Action items, if assigned"@
        && ps@[1].name@ == "Q&A Call"@ && ps@[1].prompt@
        == "Extract and organize questions and answers from the call in a structured format. Be accurate and use 'N/A' if information is not applicable or unknown."@
    &&& s.default_model == Some(ModelTurbo::GPT4)
}

impl Setting {
    /// The default configuration, under a fresh id.
    pub fn new() -> (s: Setting)
        ensures
            spec_is_default_setting(s),
            s.uuid@.len() == 36,
    {
        let mut prompts: Vec<Prompt> = Vec::new();
        prompts.push(
            Prompt {
                name: String::from_str("VC Intro Call"),
                prompt: String::from_str(
                    "Extract key details from your introductory call, ensuring accuracy and conciseness. Ignore the information about our fund, focus on the startup:\n- General discussion points\n- Team overview\n- Company's core activities\n- Problem addressed by the company\n- Target market and sales approach\n- Competitive advantages\n- Business model overview\n- Current status of the company\n- Funding status or recent fundraising efforts\n- Action items, if assigned",
                ),
            },
        );
        prompts.push(
            Prompt {
                name: String::from_str("Q&A Call"),
                prompt: String::from_str(
                    "Extract and organize questions and answers from the call in a structured format. Be accurate and use 'N/A' if information is not applicable or unknown.",
                ),
            },
        );
        Setting {
            uuid: new_session_id(),
            assemblyai_api_token: String::new(),
            openai_api_token: String::new(),
            affinity_api_token: String::new(),
            affinity_crm_list_id: None,
            prompts: Some(prompts),
            default_model: Some(ModelTurbo::GPT4),
        }
    }
}

/// Copies a prompt list, value for value.
fn clone_prompts(ps: &Vec<Prompt>) -> (r: Vec<Prompt>)
    ensures
        r@ == ps@,
{
    let n = ps.len();
    let mut r: Vec<Prompt> = Vec::new();
    let mut i: usize = 0;
    while i < n
        invariant
            0 <= i <= n,
            n == ps@.len(),
            r@ == ps@.subrange(0, i as int),
        decreases n - i,
    {
        r.push(Prompt { name: ps[i].name.clone(), prompt: ps[i].prompt.clone() });
        proof {
            assert(ps@.subrange(0, i as int).push(ps@[i as int]) =~= ps@.subrange(0, i + 1));
        }
        i = i + 1;
    }
    proof {
        assert(ps@.subrange(0, n as int) =~= ps@);
    }
    r
}

/// Copies an optional prompt list, value for value.
fn clone_opt_prompts(ps: &Option<Vec<Prompt>>) -> (r: Option<Vec<Prompt>>)
    ensures
        r is None <==> *ps is None,
        r matches Some(v) ==> (ps matches Some(p) && v@ == p@),
{
    match ps {
        Some(v) => Some(clone_prompts(v)),
        None => None,
    }
}

/// Two configurations that hold the same values; the prompt lists are
/// compared entry by entry.
pub open spec fn spec_same_setting(a: Setting, b: Setting) -> bool {
    &&& a.uuid == b.uuid
    &&& a.assemblyai_api_token == b.assemblyai_api_token
    &&& a.openai_api_token == b.openai_api_token
    &&& a.affinity_api_token == b.affinity_api_token
    &&& a.affinity_crm_list_id == b.affinity_crm_list_id
    &&& a.default_model == b.default_model
    &&& (a.prompts is None <==> b.prompts is None)
    &&& (a.prompts matches Some(x) ==> (b.prompts matches Some(y) && x@ == y@))
}

/// Copies the whole configuration, value for value.
fn clone_setting(s: &Setting) -> (r: Setting)
    ensures
        spec_same_setting(r, *s),
{
    Setting {
        uuid: s.uuid.clone(),
        assemblyai_api_token: s.assemblyai_api_token.clone(),
        openai_api_token: s.openai_api_token.clone(),
        affinity_api_token: s.affinity_api_token.clone(),
        affinity_crm_list_id: match &s.affinity_crm_list_id {
            Some(id) => Some(id.clone()),
            None => None,
        },
        prompts: clone_opt_prompts(&s.prompts),
        default_model: s.default_model,
    }
}

/// Where the configuration is stored.
pub enum SettingPath {
    /// The conventional location under the platform's data directory.
    Default,
    /// A caller-chosen file.
    Custom(String),
}

/// Holds the configuration and where it is persisted; reading and
/// writing the file is the caller's part.
pub struct SettingController {
    pub settings: Setting,
    pub local_data_path: String,
}

impl SettingController {
    /// A controller over the default configuration, bound to the given
    /// location. The default location needs the platform's data
    /// directory; when the platform reports none, the controller cannot
    /// be placed and the call fails.
    pub fn new(local_data_path: SettingPath) -> (r: Result<SettingController, SettingError>)
        ensures
            r matches Ok(c) ==> spec_is_default_setting(c.settings) && c.settings.uuid@.len()
                == 36,
            local_data_path matches SettingPath::Custom(p) ==> r matches Ok(c)
                && c.local_data_path == p,
            local_data_path is Default ==> (r matches Ok(c) ==> exists|d: Seq<char>|
                c.local_data_path@ == d + "/watson_data"@ + "/settings.json"@),
    {
        let path = match local_data_path {
            SettingPath::Custom(p) => p,
            SettingPath::Default => {
                match local_data_dir_path() {
                    Ok(d) => {
                        let ghost dir = d@;
                        let p = d.concat("/settings.json");
                        proof {
                            let base = choose|b: Seq<char>| dir == b + "/watson_data"@;
                            assert(p@ == base + "/watson_data"@ + "/settings.json"@);
                        }
                        p
                    },
                    Err(e) => {
                        return Err(e);
                    },
                }
            },
        };
        Ok(SettingController { settings: Setting::new(), local_data_path: path })
    }

    /// Takes over a configuration read from disk. A file saved without a
    /// prompt list keeps the stock prompts; everything else is taken as
    /// read.
    pub fn apply_loaded(&mut self, loaded: Setting)
        ensures
            final(self).local_data_path == old(self).local_data_path,
            loaded.prompts is Some ==> final(self).settings == loaded,
            loaded.prompts is None ==> spec_same_setting(final(self).settings, (Setting {
                prompts: old(self).settings.prompts,
                ..loaded
            })),
    {
        let keep = match &loaded.prompts {
            Some(_) => false,
            None => true,
        };
        if keep {
            let prompts = clone_opt_prompts(&self.settings.prompts);
            self.settings = Setting { prompts, ..loaded };
        } else {
            self.settings = loaded;
        }
    }

    /// The current configuration; never fails.
    pub fn get_setting(&self) -> (r: Result<Setting, SettingError>)
        ensures
            r matches Ok(s) && spec_same_setting(s, self.settings),
    {
        Ok(clone_setting(&self.settings))
    }

    /// Replaces the configuration; persisting it is the caller's part.
    /// Never fails.
    pub fn set_setting(&mut self, setting: Setting) -> (r: Result<(), SettingError>)
        ensures
            r is Ok,
            final(self).settings == setting,
            final(self).local_data_path == old(self).local_data_path,
    {
        self.settings = setting;
        Ok(())
    }
}

} // verus!
