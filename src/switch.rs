//! Switching to a profile, as a sequence of steps: set the base-URL
//! variable, set the auth-token variable, locate the mirror file, write it.
//! Each step's outside work is done by the caller, which hands back what
//! came of it; a failed step ends the switch, and nothing is rolled back.

use vstd::pervasive::unreached;
use vstd::prelude::*;
use crate::app_config::{mirror_of, mirrors};
use crate::error::{Persisted, StoreError, persist_result, persist_result_spec};
use crate::profile::{AppConfig, Profile};

verus! {

/// Name of the variable that holds the service's base URL.
pub open spec fn base_url_var() -> Seq<char> {
    "ANTHROPIC_BASE_URL"@
}

/// Name of the variable that holds the service's auth token.
pub open spec fn auth_token_var() -> Seq<char> {
    "ANTHROPIC_AUTH_TOKEN"@
}

/// Where a switch stands: the step whose outcome it waits for.
#[derive(Debug, Clone, Copy, PartialEq, Eq, Structural)]
pub enum SwitchStage {
    SettingBaseUrl,
    SettingAuthToken,
    LocatingMirror,
    WritingMirror,
    Finished,
}

/// Why a switch failed.
#[derive(Debug, Clone, PartialEq, Eq)]
pub enum SwitchError {
    /// Setting the named variable failed, with the tool's diagnostic.
    Variable { name: String, diagnostic: String },
    /// Writing the mirror file failed.
    Mirror(StoreError),
}

/// What came of the step that a switch waited for.
#[derive(Debug, Clone, PartialEq, Eq)]
pub enum SwitchEvent {
    VariableSet,
    VariableFailed(String),
    MirrorLocated(String),
    MirrorPersisted(Persisted),
}

/// What the caller is to do next.
#[derive(Debug, PartialEq, Eq)]
pub enum SwitchAction {
    /// Set a user-scoped, durable environment variable.
    SetVariable { name: String, value: String },
    /// Find (or prepare) the application config file and report its path.
    LocateMirror,
    /// Write `config` to the file at `path`, replacing its content.
    WriteMirror { path: String, config: AppConfig },
    /// The switch is over: the mirror file's path, or why it failed.
    Report(Result<String, SwitchError>),
}

/// One switch to a profile in progress.
#[derive(Debug, Clone, PartialEq, Eq)]
pub struct Switch {
    pub profile_name: String,
    pub profile: Profile,
    pub mirror_path: String,
    pub stage: SwitchStage,
}

/// `a` sets the variable `name` to `value`.
pub open spec fn sets_variable(a: SwitchAction, name: Seq<char>, value: Seq<char>) -> bool {
    match a {
        SwitchAction::SetVariable { name: n, value: v } => n@ == name && v@ == value,
        _ => false,
    }
}

/// `a` reports that setting the variable `name` failed with `diagnostic`.
pub open spec fn reports_variable_failure(a: SwitchAction, name: Seq<char>, diagnostic: String) -> bool {
    match a {
        SwitchAction::Report(Err(SwitchError::Variable { name: n, diagnostic: d })) => n@ == name
            && d == diagnostic,
        _ => false,
    }
}

/// `a` writes the mirror of `p` to the file at `path`.
pub open spec fn writes_mirror(a: SwitchAction, path: Seq<char>, p: Profile) -> bool {
    match a {
        SwitchAction::WriteMirror { path: w, config } => w@ == path && mirrors(config, p),
        _ => false,
    }
}

/// `a` ends the switch as the outcome `o` of the mirror write at `path` says.
pub open spec fn reports_mirror_outcome(a: SwitchAction, path: Seq<char>, o: Persisted) -> bool {
    match a {
        SwitchAction::Report(Ok(r)) => o is Written && r@ == path,
        SwitchAction::Report(Err(SwitchError::Mirror(e))) => !(o is Written)
            && persist_result_spec(o) == Err::<(), StoreError>(e),
        _ => false,
    }
}

/// Whether a switch at `stage` takes the outcome `e`: the one of the step
/// it waits for. A finished switch takes none.
pub open spec fn takes(stage: SwitchStage, e: SwitchEvent) -> bool {
    match stage {
        SwitchStage::SettingBaseUrl | SwitchStage::SettingAuthToken => e is VariableSet
            || e is VariableFailed,
        SwitchStage::LocatingMirror => e is MirrorLocated,
        SwitchStage::WritingMirror => e is MirrorPersisted,
        SwitchStage::Finished => false,
    }
}

/// One step: from `pre`, on the outcome `e`, to `post` with the action `a`.
pub open spec fn transition(pre: Switch, e: SwitchEvent, post: Switch, a: SwitchAction) -> bool {
    &&& post.profile_name == pre.profile_name
    &&& post.profile == pre.profile
    &&& match pre.stage {
        SwitchStage::SettingBaseUrl => match e {
            SwitchEvent::VariableSet => post.stage == SwitchStage::SettingAuthToken
                && post.mirror_path == pre.mirror_path
                && sets_variable(a, auth_token_var(), pre.profile.api_key@),
            SwitchEvent::VariableFailed(d) => post.stage == SwitchStage::Finished
                && post.mirror_path == pre.mirror_path
                && reports_variable_failure(a, base_url_var(), d),
            _ => false,
        },
        SwitchStage::SettingAuthToken => match e {
            SwitchEvent::VariableSet => post.stage == SwitchStage::LocatingMirror
                && post.mirror_path == pre.mirror_path && a is LocateMirror,
            SwitchEvent::VariableFailed(d) => post.stage == SwitchStage::Finished
                && post.mirror_path == pre.mirror_path
                && reports_variable_failure(a, auth_token_var(), d),
            _ => false,
        },
        SwitchStage::LocatingMirror => match e {
            SwitchEvent::MirrorLocated(p) => post.stage == SwitchStage::WritingMirror
                && post.mirror_path == p && writes_mirror(a, p@, pre.profile),
            _ => false,
        },
        SwitchStage::WritingMirror => match e {
            SwitchEvent::MirrorPersisted(o) => post.stage == SwitchStage::Finished
                && post.mirror_path == pre.mirror_path
                && reports_mirror_outcome(a, pre.mirror_path@, o),
            _ => false,
        },
        SwitchStage::Finished => false,
    }
}

/// Starts a switch to `profile`: its first action sets the base-URL
/// variable to the profile's base URL.
pub fn switch_config(profile_name: String, profile: Profile) -> (r: (Switch, SwitchAction))
    ensures
        r.0.profile_name == profile_name,
        r.0.profile == profile,
        r.0.stage == SwitchStage::SettingBaseUrl,
        sets_variable(r.1, base_url_var(), profile.base_url@),
{
    let action = SwitchAction::SetVariable {
        name: String::from_str("ANTHROPIC_BASE_URL"),
        value: profile.base_url.clone(),
    };
    (Switch { profile_name, profile, mirror_path: String::new(), stage: SwitchStage::SettingBaseUrl }, action)
}

impl Switch {
    /// Whether this switch takes the outcome `e` now.
    pub fn takes(&self, e: &SwitchEvent) -> (r: bool)
        ensures
            r == takes(self.stage, *e),
    {
        match self.stage {
            SwitchStage::SettingBaseUrl | SwitchStage::SettingAuthToken => match e {
                SwitchEvent::VariableSet | SwitchEvent::VariableFailed(_) => true,
                _ => false,
            },
            SwitchStage::LocatingMirror => match e {
                SwitchEvent::MirrorLocated(_) => true,
                _ => false,
            },
            SwitchStage::WritingMirror => match e {
                SwitchEvent::MirrorPersisted(_) => true,
                _ => false,
            },
            SwitchStage::Finished => false,
        }
    }

    /// Whether the switch is over.
    pub fn is_finished(&self) -> (r: bool)
        ensures
            r == (self.stage == SwitchStage::Finished),
    {
        self.stage == SwitchStage::Finished
    }

    /// Takes the outcome of the awaited step and gives the next action.
    pub fn step(&mut self, e: SwitchEvent) -> (a: SwitchAction)
        requires
            takes(old(self).stage, e),
        ensures
            transition(*old(self), e, *final(self), a),
    {
        match self.stage {
            SwitchStage::SettingBaseUrl => match e {
                SwitchEvent::VariableFailed(d) => {
                    self.stage = SwitchStage::Finished;
                    SwitchAction::Report(
                        Err(
                            SwitchError::Variable {
                                name: String::from_str("ANTHROPIC_BASE_URL"),
                                diagnostic: d,
                            },
                        ),
                    )
                },
                _ => {
                    self.stage = SwitchStage::SettingAuthToken;
                    SwitchAction::SetVariable {
                        name: String::from_str("ANTHROPIC_AUTH_TOKEN"),
                        value: self.profile.api_key.clone(),
                    }
                },
            },
            SwitchStage::SettingAuthToken => match e {
                SwitchEvent::VariableFailed(d) => {
                    self.stage = SwitchStage::Finished;
                    SwitchAction::Report(
                        Err(
                            SwitchError::Variable {
                                name: String::from_str("ANTHROPIC_AUTH_TOKEN"),
                                diagnostic: d,
                            },
                        ),
                    )
                },
                _ => {
                    self.stage = SwitchStage::LocatingMirror;
                    SwitchAction::LocateMirror
                },
            },
            SwitchStage::LocatingMirror => match e {
                SwitchEvent::MirrorLocated(p) => {
                    let config = mirror_of(&self.profile);
                    let path = p.clone();
                    self.mirror_path = p;
                    self.stage = SwitchStage::WritingMirror;
                    SwitchAction::WriteMirror { path, config }
                },
                _ => unreached(),
            },
            SwitchStage::WritingMirror => match e {
                SwitchEvent::MirrorPersisted(o) => {
                    self.stage = SwitchStage::Finished;
                    match persist_result(o) {
                        Ok(()) => SwitchAction::Report(Ok(self.mirror_path.clone())),
                        Err(err) => SwitchAction::Report(Err(SwitchError::Mirror(err))),
                    }
                },
                _ => unreached(),
            },
            SwitchStage::Finished => unreached(),
        }
    }
}

/// When setting the base-URL variable fails, the switch ends there and
/// reports that failure: the auth-token variable is never set and the mirror
/// file is never written, since a finished switch takes no further outcome.
pub proof fn lemma_base_url_failure_stops(pre: Switch, diagnostic: String, post: Switch, a: SwitchAction)
    requires
        pre.stage == SwitchStage::SettingBaseUrl,
        transition(pre, SwitchEvent::VariableFailed(diagnostic), post, a),
    ensures
        post.stage == SwitchStage::Finished,
        reports_variable_failure(a, base_url_var(), diagnostic),
        !(a is SetVariable) && !(a is LocateMirror) && !(a is WriteMirror),
        forall|e: SwitchEvent| !takes(post.stage, e),
{
}

/// A switch whose steps all succeed sets the auth-token variable to the
/// profile's key (after the base-URL variable, see `switch_config`), writes
/// exactly the profile's endpoint and key to the mirror file that was
/// located, and reports that file's path.
pub proof fn lemma_switch_success(
    s0: Switch,
    s1: Switch,
    a1: SwitchAction,
    s2: Switch,
    a2: SwitchAction,
    path: String,
    s3: Switch,
    a3: SwitchAction,
    s4: Switch,
    a4: SwitchAction,
)
    requires
        s0.stage == SwitchStage::SettingBaseUrl,
        transition(s0, SwitchEvent::VariableSet, s1, a1),
        transition(s1, SwitchEvent::VariableSet, s2, a2),
        transition(s2, SwitchEvent::MirrorLocated(path), s3, a3),
        transition(s3, SwitchEvent::MirrorPersisted(Persisted::Written), s4, a4),
    ensures
        sets_variable(a1, auth_token_var(), s0.profile.api_key@),
        a2 is LocateMirror,
        writes_mirror(a3, path@, s0.profile),
        a4 is Report && a4->Report_0 is Ok && a4->Report_0->Ok_0@ == path@,
        s4.stage == SwitchStage::Finished,
        s4.profile == s0.profile,
{
}

} // verus!
