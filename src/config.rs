use vstd::prelude::*;

verus! {

/// The deployment mode the service runs in, resolved once at start-up.
#[derive(Debug, Clone)]
pub struct AppMode {
    pub app_env: String,
    pub is_development: bool,
    pub is_staging: bool,
    pub is_production: bool,
}

/// Why a deployment mode could not be resolved.
#[derive(Debug, Clone, PartialEq, Eq)]
pub enum ModeError {
    /// The mode variable is not set.
    Missing,
    /// The mode variable holds something other than the three recognised names.
    Invalid(String),
}

pub open spec fn development_name() -> Seq<char> {
    "development"@
}

pub open spec fn staging_name() -> Seq<char> {
    "staging"@
}

pub open spec fn production_name() -> Seq<char> {
    "production"@
}

/// The raw value names one of the three recognised modes.
pub open spec fn is_known_mode(v: Seq<char>) -> bool {
    v == development_name() || v == staging_name() || v == production_name()
}

/// Exactly one of three booleans holds.
pub open spec fn exactly_one(a: bool, b: bool, c: bool) -> bool {
    (a && !b && !c) || (!a && b && !c) || (!a && !b && c)
}

impl AppMode {
    /// Each flag says whether the raw value is its mode's name, and one of them holds.
    pub open spec fn wf(&self) -> bool {
        &&& self.is_development == (self.app_env@ == development_name())
        &&& self.is_staging == (self.app_env@ == staging_name())
        &&& self.is_production == (self.app_env@ == production_name())
        &&& is_known_mode(self.app_env@)
    }

    /// Resolves the mode from the raw value of the mode variable (`None` when unset).
    pub fn from_env(value: Option<String>) -> (r: Result<AppMode, ModeError>)
        ensures
            value is None ==> r == Err::<AppMode, ModeError>(ModeError::Missing),
            value matches Some(v) ==> (r is Ok <==> is_known_mode(v@)),
            value matches Some(v) ==> (!is_known_mode(v@) ==> (r matches Err(ModeError::Invalid(s))
                && s@ == v@)),
            r matches Ok(m) ==> m.wf() && value is Some && m.app_env@ == value->0@,
            r matches Err(ModeError::Invalid(s)) ==> value is Some && s@ == value->0@,
    {
        let app_env = match value {
            None => {
                return Err(ModeError::Missing);
            },
            Some(v) => v,
        };
        let development = String::from_str("development");
        let staging = String::from_str("staging");
        let production = String::from_str("production");
        let is_development = app_env == development;
        let is_staging = app_env == staging;
        let is_production = app_env == production;
        if !is_development && !is_staging && !is_production {
            return Err(ModeError::Invalid(app_env));
        }
        Ok(AppMode { app_env, is_development, is_staging, is_production })
    }
}

/// A well-formed mode has exactly one of its three flags set.
pub proof fn lemma_exactly_one_flag(m: AppMode)
    requires
        m.wf(),
    ensures
        exactly_one(m.is_development, m.is_staging, m.is_production),
{
    reveal_strlit("development");
    reveal_strlit("staging");
    reveal_strlit("production");
    assert(development_name().len() != staging_name().len());
    assert(development_name().len() != production_name().len());
    assert(staging_name().len() != production_name().len());
}

/// Any raw value that names none of the three modes is refused.
pub proof fn lemma_unknown_mode_refused(v: Seq<char>)
    requires
        !is_known_mode(v),
    ensures
        !exists|m: AppMode| m.wf() && m.app_env@ == v,
{
}

} // verus!
