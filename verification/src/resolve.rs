//! Request resolution: given a decoded command and the configuration
//! snapshot, determine the effective application, authenticate the secret,
//! and produce the playbook path, host, and connection mode for the run.
//! Each step fails fast with a specific, user-reportable error before any
//! subprocess is spawned.

use vstd::prelude::*;

use crate::config::{Config, ConfigModel};
use crate::message::{CommandModel, RemoteCommand};

verus! {

/// Why a request could not be resolved; one variant per failing stage.
#[derive(PartialEq, Eq, Debug)]
pub enum ResolveError {
    /// Neither the request nor the configuration names a target.
    MissingTarget,
    /// The effective target matches no configured application.
    UnknownApplication { target: String },
    /// The presented secret does not exactly equal the application's.
    AuthenticationFailed,
    /// Neither the request nor the application names a playbook.
    MissingPlaybook,
    /// The effective playbook name is not in the application's playbook set.
    UnknownPlaybook,
}

/// Mathematical model of a [`ResolveError`].
#[verifier::ext_equal]
pub enum ResolveErrorModel {
    MissingTarget,
    UnknownApplication { target: Seq<char> },
    AuthenticationFailed,
    MissingPlaybook,
    UnknownPlaybook,
}

impl View for ResolveError {
    type V = ResolveErrorModel;

    open spec fn view(&self) -> ResolveErrorModel {
        match self {
            ResolveError::MissingTarget => ResolveErrorModel::MissingTarget,
            ResolveError::UnknownApplication { target } => ResolveErrorModel::UnknownApplication {
                target: target@,
            },
            ResolveError::AuthenticationFailed => ResolveErrorModel::AuthenticationFailed,
            ResolveError::MissingPlaybook => ResolveErrorModel::MissingPlaybook,
            ResolveError::UnknownPlaybook => ResolveErrorModel::UnknownPlaybook,
        }
    }
}

/// A fully resolved, authenticated request, ready to hand to the process
/// runner.
#[derive(PartialEq, Eq, Debug)]
pub struct ResolvedRequest {
    /// Filesystem path of the playbook to run.
    pub playbook_path: String,
    /// Host the automation tool is pointed at.
    pub host: String,
    /// Extra-variables payload, passed through verbatim.
    pub extra_vars: String,
    /// Connection-mode hint: local execution rather than remote ("smart").
    pub local: bool,
}

/// Mathematical model of a [`ResolvedRequest`].
#[verifier::ext_equal]
pub struct ResolvedModel {
    pub playbook_path: Seq<char>,
    pub host: Seq<char>,
    pub extra_vars: Seq<char>,
    pub local: bool,
}

impl View for ResolvedRequest {
    type V = ResolvedModel;

    open spec fn view(&self) -> ResolvedModel {
        ResolvedModel {
            playbook_path: self.playbook_path@,
            host: self.host@,
            extra_vars: self.extra_vars@,
            local: self.local,
        }
    }
}

/// True when `host` names the local machine, so the automation tool should
/// run with its local connection mode rather than the generic remote one.
pub open spec fn spec_is_local_host(host: Seq<char>) -> bool {
    host == "localhost"@ || host == "127.0.0.1"@
}

/// Selects the connection mode for a resolved host: local execution for
/// `localhost`/`127.0.0.1`, remote ("smart") for anything else. The choice is
/// purely string-based, not a reachability check.
pub fn is_local_host(host: &String) -> (r: bool)
    ensures
        r == spec_is_local_host(host@),
{
    let localhost: String = "localhost".to_owned();
    let loopback: String = "127.0.0.1".to_owned();
    *host == localhost || *host == loopback
}

/// The effective target name: the request's, else the configuration's
/// default.
pub open spec fn spec_target(cmd: CommandModel, cfg: ConfigModel) -> Option<Seq<char>> {
    match cmd.target {
        Some(t) => Some(t),
        None => cfg.default_target,
    }
}

/// The effective playbook name for an application with default `dflt`: the
/// request's, else the default.
pub open spec fn spec_playbook(cmd: CommandModel, dflt: Option<Seq<char>>) -> Option<Seq<char>> {
    match cmd.playbook {
        Some(p) => Some(p),
        None => dflt,
    }
}

/// What resolution returns, stated over the models: target and playbook
/// precedence, exact-match authentication, playbook lookup, host fallback,
/// and the connection-mode hint.
pub open spec fn spec_resolve(cmd: CommandModel, cfg: ConfigModel) -> Result<
    ResolvedModel,
    ResolveErrorModel,
> {
    match spec_target(cmd, cfg) {
        None => Err(ResolveErrorModel::MissingTarget),
        Some(t) => if !cfg.applications.contains_key(t) {
            Err(ResolveErrorModel::UnknownApplication { target: t })
        } else {
            let app = cfg.applications[t];
            if cmd.secret != app.secret {
                Err(ResolveErrorModel::AuthenticationFailed)
            } else {
                match spec_playbook(cmd, app.default_playbook) {
                    None => Err(ResolveErrorModel::MissingPlaybook),
                    Some(p) => if !app.playbooks.contains_key(p) {
                        Err(ResolveErrorModel::UnknownPlaybook)
                    } else {
                        let host = match cmd.host {
                            Some(h) => h,
                            None => app.default_host,
                        };
                        Ok(
                            ResolvedModel {
                                playbook_path: app.playbooks[p],
                                host: host,
                                extra_vars: cmd.extra_vars,
                                local: spec_is_local_host(host),
                            },
                        )
                    },
                }
            }
        },
    }
}

/// Secret comparison is exact-match only: once a target resolves to a
/// configured application, resolution fails with `AuthenticationFailed`
/// exactly when the presented secret differs from the application's — by
/// even one character — and never otherwise.
pub proof fn lemma_secret_exact_match(cmd: CommandModel, cfg: ConfigModel, t: Seq<char>)
    requires
        spec_target(cmd, cfg) == Some(t),
        cfg.applications.contains_key(t),
    ensures
        spec_resolve(cmd, cfg) == Err::<ResolvedModel, ResolveErrorModel>(ResolveErrorModel::AuthenticationFailed) <==> cmd.secret
            != cfg.applications[t].secret,
{
}

/// Target precedence: an explicit `target` in the request always overrides
/// the configuration's default; omission falls back to the default; and
/// with neither, resolution fails with `MissingTarget`.
pub proof fn lemma_target_precedence(cmd: CommandModel, cfg: ConfigModel)
    ensures
        cmd.target matches Some(t) ==> spec_target(cmd, cfg) == Some(t),
        cmd.target is None ==> spec_target(cmd, cfg) == cfg.default_target,
        cmd.target is None && cfg.default_target is None ==> spec_resolve(cmd, cfg) == Err::<ResolvedModel, ResolveErrorModel>(
            ResolveErrorModel::MissingTarget,
        ),
{
}

/// Playbook and host precedence for an authenticated request: an explicit
/// `playbook` or `host` in the request always overrides the application's
/// default; omission falls back to the default; a missing playbook with no
/// default fails with `MissingPlaybook`, an unknown one with
/// `UnknownPlaybook`; and on success the resolved request carries the
/// playbook's path, the effective host, its connection mode, and the
/// extra-variables payload verbatim.
pub proof fn lemma_resolution_precedence(cmd: CommandModel, cfg: ConfigModel, t: Seq<char>)
    requires
        spec_target(cmd, cfg) == Some(t),
        cfg.applications.contains_key(t),
        cmd.secret == cfg.applications[t].secret,
    ensures
        cmd.playbook matches Some(p) ==> spec_playbook(cmd, cfg.applications[t].default_playbook)
            == Some(p),
        cmd.playbook is None ==> spec_playbook(cmd, cfg.applications[t].default_playbook)
            == cfg.applications[t].default_playbook,
        spec_playbook(cmd, cfg.applications[t].default_playbook) is None ==> spec_resolve(cmd, cfg)
            == Err::<ResolvedModel, ResolveErrorModel>(ResolveErrorModel::MissingPlaybook),
        spec_playbook(cmd, cfg.applications[t].default_playbook) matches Some(p) ==> (
        !cfg.applications[t].playbooks.contains_key(p) ==> spec_resolve(cmd, cfg) == Err::<
            ResolvedModel,
            ResolveErrorModel,
        >(ResolveErrorModel::UnknownPlaybook)),
        spec_playbook(cmd, cfg.applications[t].default_playbook) matches Some(p) ==> (
        cfg.applications[t].playbooks.contains_key(p) ==> spec_resolve(cmd, cfg) == Ok::<ResolvedModel, ResolveErrorModel>(
            ResolvedModel {
                playbook_path: cfg.applications[t].playbooks[p],
                host: (match cmd.host {
                    Some(h) => h,
                    None => cfg.applications[t].default_host,
                }),
                extra_vars: cmd.extra_vars,
                local: spec_is_local_host(
                    match cmd.host {
                        Some(h) => h,
                        None => cfg.applications[t].default_host,
                    },
                ),
            },
        )),
{
}

/// The model of a resolution outcome.
pub open spec fn outcome_model(r: Result<ResolvedRequest, ResolveError>) -> Result<
    ResolvedModel,
    ResolveErrorModel,
> {
    match r {
        Ok(res) => Ok(res@),
        Err(e) => Err(e@),
    }
}

/// Resolve and authenticate one request against the configuration snapshot.
pub fn resolve(cmd: &RemoteCommand, config: &Config) -> (r: Result<ResolvedRequest, ResolveError>)
    requires
        config.wf(),
    ensures
        outcome_model(r) == spec_resolve(cmd@, config@),
{
    let target: String = match &cmd.target {
        Some(t) => t.clone(),
        None => match &config.default_target {
            Some(t) => t.clone(),
            None => {
                return Err(ResolveError::MissingTarget);
            },
        },
    };
    let app = match config.app(&target) {
        Some(app) => app,
        None => {
            return Err(ResolveError::UnknownApplication { target });
        },
    };
    if cmd.secret != app.secret {
        return Err(ResolveError::AuthenticationFailed);
    }
    let playbook: String = match &cmd.playbook {
        Some(p) => p.clone(),
        None => match &app.default_playbook {
            Some(p) => p.clone(),
            None => {
                return Err(ResolveError::MissingPlaybook);
            },
        },
    };
    let playbook_path: String = match crate::config::lookup(&app.playbooks, &playbook) {
        Some(path) => path.clone(),
        None => {
            return Err(ResolveError::UnknownPlaybook);
        },
    };
    let host: String = match &cmd.host {
        Some(h) => h.clone(),
        None => app.default_host.clone(),
    };
    let local = is_local_host(&host);
    let resolved = ResolvedRequest { playbook_path, host, extra_vars: cmd.extra_vars.clone(), local };
    proof {
        assert(outcome_model(Ok(resolved)) =~= spec_resolve(cmd@, config@));
    }
    Ok(resolved)
}

} // verus!

