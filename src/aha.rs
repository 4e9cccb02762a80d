//! Synchronising one pull request with its tracker record.
//!
//! The work alternates between decisions, made here, and outside work done by
//! the caller: fetching the record, showing a notification and writing the
//! patch. [`Aha::sync_pr`] starts a pull request's synchronisation and
//! [`Aha::sync_step`] takes the outcome of each piece of outside work; both
//! return the next state and the action the caller is to perform. The
//! synchronisation is over when the action is `Finish`.
use vstd::prelude::*;
use crate::github::PullRequest;
use crate::keys::{key_of, title_key, trim_of, TrackerItemRef, TrackerKind};
use crate::labels::{mapped_status, overrides_view, status_for_labels, texts, LabelOverrides};
use crate::options::Opt;
use crate::patch::{build_patch, is_empty_patch, patch_for, FeatureUpdate, PatchModel, TrackerItemSnapshot};

verus! {

/// How a synchronisation that did not fail ended.
#[derive(Clone, Copy, Debug, PartialEq, Eq, Structural)]
pub enum SyncOutcome {
    /// The title names no tracker record.
    Unmatched,
    /// The record needs no change.
    Unchanged,
    /// The patch was written.
    Updated,
    /// A patch was computed and, in dry-run mode, not written.
    DryRun,
}

/// How a synchronisation failed; the batch goes on with the next pull request.
#[derive(Clone, Debug)]
pub enum SyncError {
    /// The record could not be fetched or read.
    FetchFailure(TrackerItemRef),
    /// The patch could not be written, or the answer was no record.
    ApplyFailure(TrackerItemRef),
}

/// Where a synchronisation stands.
#[derive(Debug)]
pub enum SyncState {
    /// The record is being fetched.
    Fetching(TrackerItemRef),
    /// A notification about the coming patch is being shown.
    Notifying { item: TrackerItemRef, patch: FeatureUpdate, summary: String, body: String },
    /// The patch is being written.
    Applying(TrackerItemRef, FeatureUpdate),
    /// Over.
    Done(Result<SyncOutcome, SyncError>),
}

/// The outcome of the outside work last asked for.
#[derive(Clone, Debug)]
pub enum SyncEvent {
    /// The record was fetched and read.
    Fetched(TrackerItemSnapshot),
    /// The record could not be fetched or read.
    FetchFailed,
    /// The notification was shown, or showing it failed.
    Notified,
    /// The patch was sent and the tracker answered with this text.
    Answered(String),
    /// The patch could not be sent, or no answer came.
    ApplyFailed,
}

/// The outside work the caller is to do next.
#[derive(Debug)]
pub enum SyncAction {
    /// Fetch the record.
    Fetch(TrackerItemRef),
    /// Show a notification.
    Notify { summary: String, body: String },
    /// Write the patch to the record.
    Apply(TrackerItemRef, FeatureUpdate),
    /// Nothing more: the synchronisation ended so.
    Finish(Result<SyncOutcome, SyncError>),
}

/// The tracker account that pull requests are synchronised into.
#[derive(Clone, Debug)]
pub struct Aha {
    /// The tracker's sub-domain, `<domain>.aha.io`.
    pub domain: String,
    /// The acting user, who becomes the owner of unowned records.
    pub user_email: String,
    pub opt: Opt,
}

/// The path segment under which the tracker's API reads a record of a kind.
pub open spec fn fetch_segment(kind: TrackerKind) -> Seq<char> {
    match kind {
        TrackerKind::Feature => "feature"@,
        TrackerKind::Requirement => "requirement"@,
    }
}

/// The path segment under which the tracker's API writes a record of a kind.
pub open spec fn update_segment(kind: TrackerKind) -> Seq<char> {
    match kind {
        TrackerKind::Feature => "features"@,
        TrackerKind::Requirement => "requirements"@,
    }
}

/// The address of a record in the tracker's API, under `segment`.
pub open spec fn api_url(domain: Seq<char>, segment: Seq<char>, key: Seq<char>) -> Seq<char> {
    "https://"@ + domain + ".aha.io/api/v1/"@ + segment + "/"@ + key
}

/// What follows a non-empty patch once any notification is over: the write,
/// or in dry-run mode the end.
pub open spec fn after_notice(
    opt: Opt,
    item: TrackerItemRef,
    patch: PatchModel,
    next: SyncState,
    action: SyncAction,
) -> bool {
    if opt.dry_run {
        &&& next == SyncState::Done(Ok(SyncOutcome::DryRun))
        &&& action == SyncAction::Finish(Ok(SyncOutcome::DryRun))
    } else {
        &&& next matches SyncState::Applying(i, p) && i == item && p@ == patch
        &&& action matches SyncAction::Apply(i, p) && i == item && p@ == patch
    }
}

/// What follows the fetch of `snapshot`: the end when the patch is empty,
/// else a notification unless the run is silent, else what follows it.
pub open spec fn after_fetch(
    aha: Aha,
    item: TrackerItemRef,
    pr: PullRequest,
    labels: Option<LabelOverrides>,
    snapshot: TrackerItemSnapshot,
    next: SyncState,
    action: SyncAction,
) -> bool {
    let patch = patch_for(
        snapshot@,
        pr.url@,
        mapped_status(texts(pr.labels@), overrides_view(labels)),
        aha.user_email@,
    );
    if is_empty_patch(patch) {
        &&& next == SyncState::Done(Ok(SyncOutcome::Unchanged))
        &&& action == SyncAction::Finish(Ok(SyncOutcome::Unchanged))
    } else if !aha.opt.silent {
        &&& next matches SyncState::Notifying { item: i, patch: p, summary: s, body: b } && i == item
            && p@ == patch && s@ == item.key@ && b@ == snapshot.url@ + "\n"@ + pr.url@
        &&& action matches SyncAction::Notify { summary: s, body: b } && s@ == item.key@ && b@
            == snapshot.url@ + "\n"@ + pr.url@
    } else {
        after_notice(aha.opt, item, patch, next, action)
    }
}

/// What follows the tracker's answer to a write of `item`: the write
/// succeeded when the answer is a JSON document, and failed otherwise.
pub open spec fn after_answer(
    item: TrackerItemRef,
    answer_is_json: bool,
    next: SyncState,
    action: SyncAction,
) -> bool {
    if answer_is_json {
        &&& next == SyncState::Done(Ok(SyncOutcome::Updated))
        &&& action == SyncAction::Finish(Ok(SyncOutcome::Updated))
    } else {
        &&& next == SyncState::Done(Err(SyncError::ApplyFailure(item)))
        &&& action == SyncAction::Finish(Err(SyncError::ApplyFailure(item)))
    }
}

/// The action that a state waits on; an event that the state does not wait
/// for leaves the state as it is and asks for this action again.
pub open spec fn pending(state: SyncState, action: SyncAction) -> bool {
    match state {
        SyncState::Fetching(item) => action == SyncAction::Fetch(item),
        SyncState::Notifying { item: _, patch: _, summary, body } => action matches SyncAction::Notify {
            summary: s,
            body: b,
        } && s@ == summary@ && b@ == body@,
        SyncState::Applying(item, patch) => action matches SyncAction::Apply(i, p) && i == item
            && p@ == patch@,
        SyncState::Done(r) => action == SyncAction::Finish(r),
    }
}

/// The start of a synchronisation of `pr`: the record its title names is to
/// be fetched, and a title that names none ends it.
pub open spec fn is_start(pr: PullRequest, state: SyncState, action: SyncAction) -> bool {
    match key_of(trim_of(pr.name@)) {
        Some(k) => state matches SyncState::Fetching(i) && i@ == k && action == SyncAction::Fetch(i),
        None => state == SyncState::Done(Ok(SyncOutcome::Unmatched)) && action == SyncAction::Finish(
            Ok(SyncOutcome::Unmatched),
        ),
    }
}

/// One step of a synchronisation: from `state`, on `event`, to `next`, asking
/// for `action`.
pub open spec fn is_step(
    aha: Aha,
    pr: PullRequest,
    labels: Option<LabelOverrides>,
    state: SyncState,
    event: SyncEvent,
    next: SyncState,
    action: SyncAction,
) -> bool {
    match (state, event) {
        (SyncState::Fetching(item), SyncEvent::Fetched(snapshot)) => after_fetch(
            aha,
            item,
            pr,
            labels,
            snapshot,
            next,
            action,
        ),
        (SyncState::Fetching(item), SyncEvent::FetchFailed) => {
            &&& next == SyncState::Done(Err(SyncError::FetchFailure(item)))
            &&& action == SyncAction::Finish(Err(SyncError::FetchFailure(item)))
        },
        (SyncState::Notifying { item, patch, summary: _, body: _ }, SyncEvent::Notified) => after_notice(
            aha.opt,
            item,
            patch@,
            next,
            action,
        ),
        (SyncState::Applying(item, _), SyncEvent::Answered(text)) => after_answer(
            item,
            parses_as_json(text@),
            next,
            action,
        ),
        (SyncState::Applying(item, _), SyncEvent::ApplyFailed) => {
            &&& next == SyncState::Done(Err(SyncError::ApplyFailure(item)))
            &&& action == SyncAction::Finish(Err(SyncError::ApplyFailure(item)))
        },
        _ => next == state && pending(state, action),
    }
}

/// A synchronisation never starts by writing: its first state is not
/// `Applying` and its first action is no write.
pub proof fn law_start_never_applies(pr: PullRequest, state: SyncState, action: SyncAction)
    requires
        is_start(pr, state, action),
    ensures
        !(state is Applying),
        !(action is Apply),
{
}

/// In dry-run mode, from any state but `Applying`, a step neither asks for a
/// write nor enters `Applying`; together with the start, nothing is ever
/// written.
pub proof fn law_dry_run_never_applies(
    aha: Aha,
    pr: PullRequest,
    labels: Option<LabelOverrides>,
    state: SyncState,
    event: SyncEvent,
    next: SyncState,
    action: SyncAction,
)
    requires
        aha.opt.dry_run,
        !(state is Applying),
        is_step(aha, pr, labels, state, event, next, action),
    ensures
        !(next is Applying),
        !(action is Apply),
{
}

/// A dry run computes the same patch as a run that writes: with the same
/// acting user, pull request, labels and record, both runs, when not silent,
/// go on to a notification about patches with the same fields, or both end.
pub proof fn law_dry_run_computes_same_patch(
    dry: Aha,
    live: Aha,
    item: TrackerItemRef,
    pr: PullRequest,
    labels: Option<LabelOverrides>,
    snapshot: TrackerItemSnapshot,
    dry_next: SyncState,
    dry_action: SyncAction,
    live_next: SyncState,
    live_action: SyncAction,
)
    requires
        dry.opt.dry_run,
        !live.opt.dry_run,
        !dry.opt.silent,
        !live.opt.silent,
        dry.user_email == live.user_email,
        after_fetch(dry, item, pr, labels, snapshot, dry_next, dry_action),
        after_fetch(live, item, pr, labels, snapshot, live_next, live_action),
    ensures
        (dry_next is Notifying) == (live_next is Notifying),
        dry_next matches SyncState::Notifying { patch: p, .. } ==> (live_next matches SyncState::Notifying {
            patch: q,
            ..
        } && p@ == q@),
        !(dry_next is Notifying) ==> dry_next == live_next,
{
}

impl SyncError {
    /// A copy of this error.
    pub fn copy(&self) -> (r: SyncError)
        ensures
            r == *self,
    {
        match self {
            SyncError::FetchFailure(item) => SyncError::FetchFailure(item.copy()),
            SyncError::ApplyFailure(item) => SyncError::ApplyFailure(item.copy()),
        }
    }
}

/// Whether `serde_json` reads a text as one JSON document.
pub uninterp spec fn parses_as_json(text: Seq<char>) -> bool;

/// Relies on `serde_json::from_str` into a `serde_json::Value`: whether the
/// text parses depends on the text alone.
#[verifier::external_body]
fn is_json(text: &str) -> (r: bool)
    ensures
        r == parses_as_json(text@),
{
    serde_json::from_str::<serde_json::Value>(text).is_ok()
}

/// The end of a write of `item`, given whether the tracker's answer was a
/// JSON document.
pub fn apply_outcome(item: TrackerItemRef, answer_is_json: bool) -> (r: (SyncState, SyncAction))
    ensures
        after_answer(item, answer_is_json, r.0, r.1),
{
    if answer_is_json {
        (SyncState::Done(Ok(SyncOutcome::Updated)), SyncAction::Finish(Ok(SyncOutcome::Updated)))
    } else {
        let action = SyncAction::Finish(Err(SyncError::ApplyFailure(item.copy())));
        (SyncState::Done(Err(SyncError::ApplyFailure(item))), action)
    }
}

fn copy_result(r: &Result<SyncOutcome, SyncError>) -> (c: Result<SyncOutcome, SyncError>)
    ensures
        c == *r,
{
    match r {
        Ok(o) => Ok(*o),
        Err(e) => Err(e.copy()),
    }
}

/// The action that `state` waits on.
fn pending_action(state: &SyncState) -> (a: SyncAction)
    ensures
        pending(*state, a),
{
    match state {
        SyncState::Fetching(item) => SyncAction::Fetch(item.copy()),
        SyncState::Notifying { item: _, patch: _, summary, body } => SyncAction::Notify {
            summary: summary.clone(),
            body: body.clone(),
        },
        SyncState::Applying(item, patch) => SyncAction::Apply(item.copy(), patch.copy()),
        SyncState::Done(r) => SyncAction::Finish(copy_result(r)),
    }
}

impl Aha {
    /// The account on sub-domain `domain`, acting as `email`, run with `opt`.
    pub fn new(domain: String, email: String, opt: Opt) -> (r: Aha)
        ensures
            r.domain == domain,
            r.user_email == email,
            r.opt == opt,
    {
        Aha { domain, user_email: email, opt }
    }

    fn api_url(&self, segment: &str, key: &String) -> (r: String)
        ensures
            r@ == api_url(self.domain@, segment@, key@),
    {
        let mut url = String::from_str("https://");
        url.append(self.domain.as_str());
        url.append(".aha.io/api/v1/");
        url.append(segment);
        url.append("/");
        url.append(key.as_str());
        url
    }

    /// The address from which the record `item` is read.
    pub fn fetch_url(&self, item: &TrackerItemRef) -> (r: String)
        ensures
            r@ == api_url(self.domain@, fetch_segment(item.kind), item.key@),
    {
        match item.kind {
            TrackerKind::Feature => self.api_url("feature", &item.key),
            TrackerKind::Requirement => self.api_url("requirement", &item.key),
        }
    }

    /// The address to which a patch of the record `item` is written.
    pub fn update_url(&self, item: &TrackerItemRef) -> (r: String)
        ensures
            r@ == api_url(self.domain@, update_segment(item.kind), item.key@),
    {
        match item.kind {
            TrackerKind::Feature => self.api_url("features", &item.key),
            TrackerKind::Requirement => self.api_url("requirements", &item.key),
        }
    }

    /// The name under which the tracker's answer holds a record of `kind`.
    pub fn record_field(&self, kind: TrackerKind) -> (r: &'static str)
        ensures
            r@ == fetch_segment(kind),
    {
        match kind {
            TrackerKind::Feature => "feature",
            TrackerKind::Requirement => "requirement",
        }
    }

    /// The record that a pull-request title names.
    pub fn type_from_name(&self, name: &str) -> (r: Option<TrackerItemRef>)
        ensures
            match key_of(trim_of(name@)) {
                Some(k) => r is Some && r->0@ == k,
                None => r is None,
            },
    {
        title_key(name)
    }

    /// The workflow status that a pull request's labels ask for.
    pub fn status_for_labels(
        &self,
        labels: &Vec<String>,
        config_labels: &Option<LabelOverrides>,
    ) -> (r: Option<String>)
        ensures
            crate::labels::opt_text(r) == mapped_status(texts(labels@), overrides_view(*config_labels)),
    {
        status_for_labels(labels, config_labels)
    }

    fn after_notice_step(&self, item: TrackerItemRef, patch: FeatureUpdate) -> (r: (
        SyncState,
        SyncAction,
    ))
        ensures
            after_notice(self.opt, item, patch@, r.0, r.1),
    {
        if self.opt.dry_run {
            (SyncState::Done(Ok(SyncOutcome::DryRun)), SyncAction::Finish(Ok(SyncOutcome::DryRun)))
        } else {
            let action = SyncAction::Apply(item.copy(), patch.copy());
            (SyncState::Applying(item, patch), action)
        }
    }

    fn after_fetch_step(
        &self,
        item: TrackerItemRef,
        pr: &PullRequest,
        labels: &Option<LabelOverrides>,
        current: &TrackerItemSnapshot,
    ) -> (r: (SyncState, SyncAction))
        ensures
            after_fetch(*self, item, *pr, *labels, *current, r.0, r.1),
    {
        let mapped = status_for_labels(&pr.labels, labels);
        let patch = build_patch(current, pr, mapped, &self.user_email);
        if patch.is_empty() {
            (
                SyncState::Done(Ok(SyncOutcome::Unchanged)),
                SyncAction::Finish(Ok(SyncOutcome::Unchanged)),
            )
        } else if !self.opt.silent {
            let mut body = current.url.clone();
            body.append("\n");
            body.append(pr.url.as_str());
            let action = SyncAction::Notify { summary: item.key.clone(), body: body.clone() };
            let summary = item.key.clone();
            (SyncState::Notifying { item, patch, summary, body }, action)
        } else {
            self.after_notice_step(item, patch)
        }
    }

    /// The step after requirement `key` has been fetched as `current`.
    pub fn update_requirement(
        &self,
        key: String,
        pr: &PullRequest,
        current: &TrackerItemSnapshot,
        labels: &Option<LabelOverrides>,
    ) -> (r: (SyncState, SyncAction))
        ensures
            after_fetch(
                *self,
                (TrackerItemRef { kind: TrackerKind::Requirement, key }),
                *pr,
                *labels,
                *current,
                r.0,
                r.1,
            ),
    {
        self.after_fetch_step(TrackerItemRef { kind: TrackerKind::Requirement, key }, pr, labels, current)
    }

    /// The step after feature `key` has been fetched as `current`.
    pub fn update_feature(
        &self,
        key: String,
        pr: &PullRequest,
        current: &TrackerItemSnapshot,
        labels: &Option<LabelOverrides>,
    ) -> (r: (SyncState, SyncAction))
        ensures
            after_fetch(
                *self,
                (TrackerItemRef { kind: TrackerKind::Feature, key }),
                *pr,
                *labels,
                *current,
                r.0,
                r.1,
            ),
    {
        self.after_fetch_step(TrackerItemRef { kind: TrackerKind::Feature, key }, pr, labels, current)
    }

    /// Starts synchronising `pr`: the record its title names is to be
    /// fetched, and a title that names none ends the synchronisation.
    pub fn sync_pr(&self, pr: &PullRequest) -> (r: (SyncState, SyncAction))
        ensures
            is_start(*pr, r.0, r.1),
    {
        match self.type_from_name(pr.name.as_str()) {
            Some(item) => {
                let action = SyncAction::Fetch(item.copy());
                (SyncState::Fetching(item), action)
            },
            None => (
                SyncState::Done(Ok(SyncOutcome::Unmatched)),
                SyncAction::Finish(Ok(SyncOutcome::Unmatched)),
            ),
        }
    }

    /// Takes the outcome `event` of the action that `state` asked for and
    /// returns the next state and action.
    pub fn sync_step(
        &self,
        state: SyncState,
        event: SyncEvent,
        pr: &PullRequest,
        labels: &Option<LabelOverrides>,
    ) -> (r: (SyncState, SyncAction))
        ensures
            is_step(*self, *pr, *labels, state, event, r.0, r.1),
    {
        match (state, event) {
            (SyncState::Fetching(item), SyncEvent::Fetched(current)) => match item.kind {
                TrackerKind::Feature => self.update_feature(item.key, pr, &current, labels),
                TrackerKind::Requirement => self.update_requirement(item.key, pr, &current, labels),
            },
            (SyncState::Fetching(item), SyncEvent::FetchFailed) => {
                let action = SyncAction::Finish(Err(SyncError::FetchFailure(item.copy())));
                (SyncState::Done(Err(SyncError::FetchFailure(item))), action)
            },
            (SyncState::Notifying { item, patch, summary: _, body: _ }, SyncEvent::Notified) => {
                self.after_notice_step(item, patch)
            },
            (SyncState::Applying(item, _), SyncEvent::Answered(text)) => {
                apply_outcome(item, is_json(text.as_str()))
            },
            (SyncState::Applying(item, _), SyncEvent::ApplyFailed) => {
                let action = SyncAction::Finish(Err(SyncError::ApplyFailure(item.copy())));
                (SyncState::Done(Err(SyncError::ApplyFailure(item))), action)
            },
            (state, _) => {
                let action = pending_action(&state);
                (state, action)
            },
        }
    }
}

} // verus!
