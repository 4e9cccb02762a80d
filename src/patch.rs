//! The fields of a tracker record that a pull request asks to change.
//!
//! A patch assigns the record to the acting user when nobody owns it, links
//! the pull request when no link is there yet, and sets the workflow status
//! that the labels ask for, or promotes a record that has not started to
//! "In code review". A patch with no field set asks for no write.
use vstd::prelude::*;
use crate::github::PullRequest;
use crate::labels::opt_text;

verus! {

/// A custom field of a tracker record, its value as text; an empty value
/// means the field holds nothing.
#[derive(Clone, Debug)]
pub struct CustomField {
    pub name: String,
    pub value: String,
}

/// A tracker record as fetched: its address, its owner if it has one, the
/// name of its workflow status and its custom fields.
#[derive(Clone, Debug)]
pub struct TrackerItemSnapshot {
    pub url: String,
    pub assignee: Option<String>,
    pub workflow_status: String,
    pub custom_fields: Vec<CustomField>,
}

/// What a snapshot holds, as values.
pub struct SnapshotModel {
    pub url: Seq<char>,
    pub assignee: Option<Seq<char>>,
    pub workflow_status: Seq<char>,
    pub custom_fields: Seq<(Seq<char>, Seq<char>)>,
}

impl View for TrackerItemSnapshot {
    type V = SnapshotModel;

    open spec fn view(&self) -> SnapshotModel {
        SnapshotModel {
            url: self.url@,
            assignee: opt_text(self.assignee),
            workflow_status: self.workflow_status@,
            custom_fields: self.custom_fields@.map_values(|f: CustomField| (f.name@, f.value@)),
        }
    }
}

/// The workflow status a patch sets.
#[derive(Clone, Debug)]
pub struct WorkflowStatusUpdate {
    pub name: String,
}

/// The pull-request link a patch sets.
#[derive(Clone, Debug)]
pub struct CustomFieldGithub {
    pub github_url: String,
}

/// The fields to write to a tracker record; a field left `None` is not
/// written.
#[derive(Clone, Debug)]
pub struct FeatureUpdate {
    pub assigned_to_user: Option<String>,
    pub custom_fields: Option<CustomFieldGithub>,
    pub workflow_status: Option<WorkflowStatusUpdate>,
}

/// What a patch sets, as values: owner, pull-request link, workflow status.
pub struct PatchModel {
    pub assignee: Option<Seq<char>>,
    pub linked_pr: Option<Seq<char>>,
    pub workflow_status: Option<Seq<char>>,
}

impl View for FeatureUpdate {
    type V = PatchModel;

    open spec fn view(&self) -> PatchModel {
        PatchModel {
            assignee: opt_text(self.assigned_to_user),
            linked_pr: match self.custom_fields {
                Some(c) => Some(c.github_url@),
                None => None,
            },
            workflow_status: match self.workflow_status {
                Some(w) => Some(w.name@),
                None => None,
            },
        }
    }
}

/// A patch that sets nothing.
pub open spec fn is_empty_patch(p: PatchModel) -> bool {
    p.assignee is None && p.linked_pr is None && p.workflow_status is None
}

/// The name of the custom field that links a record to its pull request.
pub open spec fn link_field_name() -> Seq<char> {
    "Pull Request"@
}

/// The status a record is promoted to when a pull request for it appears.
pub open spec fn promoted_status() -> Seq<char> {
    "In code review"@
}

/// The record already carries a non-empty pull-request link.
pub open spec fn has_linked_pr(s: SnapshotModel) -> bool {
    exists|i: int|
        0 <= i < s.custom_fields.len() && (#[trigger] s.custom_fields[i]).0 == link_field_name()
            && s.custom_fields[i].1.len() > 0
}

/// A status from which a new pull request promotes the record.
pub open spec fn is_promotable(status: Seq<char>) -> bool {
    status == "Ready to develop"@ || status == "Under consideration"@
}

/// The patch for record `s`, given the pull request's address, the status its
/// labels ask for, and the acting user.
pub open spec fn patch_for(
    s: SnapshotModel,
    pr_url: Seq<char>,
    mapped: Option<Seq<char>>,
    actor: Seq<char>,
) -> PatchModel {
    PatchModel {
        assignee: if s.assignee is None {
            Some(actor)
        } else {
            None
        },
        linked_pr: if has_linked_pr(s) {
            None
        } else {
            Some(pr_url)
        },
        workflow_status: match mapped {
            Some(m) => Some(m),
            None => if is_promotable(s.workflow_status) {
                Some(promoted_status())
            } else {
                None
            },
        },
    }
}

impl FeatureUpdate {
    /// Whether the patch sets nothing, so that nothing is to be written.
    pub fn is_empty(&self) -> (r: bool)
        ensures
            r == is_empty_patch(self@),
    {
        self.assigned_to_user.is_none() && self.custom_fields.is_none()
            && self.workflow_status.is_none()
    }

    /// A copy of this patch.
    pub fn copy(&self) -> (r: FeatureUpdate)
        ensures
            r@ == self@,
    {
        FeatureUpdate {
            assigned_to_user: match &self.assigned_to_user {
                Some(a) => Some(a.clone()),
                None => None,
            },
            custom_fields: match &self.custom_fields {
                Some(c) => Some(CustomFieldGithub { github_url: c.github_url.clone() }),
                None => None,
            },
            workflow_status: match &self.workflow_status {
                Some(w) => Some(WorkflowStatusUpdate { name: w.name.clone() }),
                None => None,
            },
        }
    }
}

/// Whether `snapshot` carries a non-empty "Pull Request" field.
fn linked_pr_present(snapshot: &TrackerItemSnapshot) -> (r: bool)
    ensures
        r == has_linked_pr(snapshot@),
{
    let link_name = String::from_str("Pull Request");
    let fields = &snapshot.custom_fields;
    let mut i: usize = 0;
    while i < fields.len()
        invariant
            i <= fields@.len(),
            fields == &snapshot.custom_fields,
            link_name@ == link_field_name(),
            forall|j: int|
                0 <= j < i ==> !((#[trigger] snapshot@.custom_fields[j]).0 == link_field_name()
                    && snapshot@.custom_fields[j].1.len() > 0),
        decreases fields@.len() - i,
    {
        let field = &fields[i];
        assert(snapshot@.custom_fields[i as int] == (field.name@, field.value@));
        if field.name == link_name && field.value.unicode_len() > 0 {
            return true;
        }
        i = i + 1;
    }
    false
}

/// Whether `status` is one that a new pull request promotes.
fn promotable(status: &String) -> (r: bool)
    ensures
        r == is_promotable(status@),
{
    *status == String::from_str("Ready to develop") || *status == String::from_str(
        "Under consideration",
    )
}

/// The patch that pull request `pr` asks for on record `snapshot`, given the
/// status its labels map to and the acting user's address.
pub fn build_patch(
    snapshot: &TrackerItemSnapshot,
    pr: &PullRequest,
    mapped_status: Option<String>,
    actor_email: &String,
) -> (r: FeatureUpdate)
    ensures
        r@ == patch_for(snapshot@, pr.url@, opt_text(mapped_status), actor_email@),
{
    let assigned_to_user = if snapshot.assignee.is_none() {
        Some(actor_email.clone())
    } else {
        None
    };
    let custom_fields = if linked_pr_present(snapshot) {
        None
    } else {
        Some(CustomFieldGithub { github_url: pr.url.clone() })
    };
    let workflow_status = match mapped_status {
        Some(name) => Some(WorkflowStatusUpdate { name }),
        None => if promotable(&snapshot.workflow_status) {
            Some(WorkflowStatusUpdate { name: String::from_str("In code review") })
        } else {
            None
        },
    };
    FeatureUpdate { assigned_to_user, custom_fields, workflow_status }
}

/// The record as the tracker holds it once patch `p` has been written to `s`:
/// each field the patch sets takes the patch's value, and a link is added as
/// a "Pull Request" field.
pub open spec fn apply_patch(s: SnapshotModel, p: PatchModel) -> SnapshotModel {
    SnapshotModel {
        url: s.url,
        assignee: match p.assignee {
            Some(a) => Some(a),
            None => s.assignee,
        },
        workflow_status: match p.workflow_status {
            Some(w) => w,
            None => s.workflow_status,
        },
        custom_fields: match p.linked_pr {
            Some(u) => s.custom_fields.push((link_field_name(), u)),
            None => s.custom_fields,
        },
    }
}

/// A record that is owned, already linked, and past the statuses that a new
/// pull request promotes gets an empty patch when no status is asked for,
/// however often the patch is built.
pub proof fn law_settled_record_gets_empty_patch(
    s: SnapshotModel,
    pr_url: Seq<char>,
    actor: Seq<char>,
)
    requires
        s.assignee is Some,
        has_linked_pr(s),
        !is_promotable(s.workflow_status),
    ensures
        is_empty_patch(patch_for(s, pr_url, None, actor)),
        is_empty_patch(patch_for(apply_patch(s, patch_for(s, pr_url, None, actor)), pr_url, None, actor)),
{
}

/// Building the patch again on the record that the first patch produced asks
/// for no new owner and no new link, and for no status change unless the
/// labels ask for one; so with no status asked for, the second patch is empty.
pub proof fn law_patch_is_idempotent(
    s: SnapshotModel,
    pr_url: Seq<char>,
    mapped: Option<Seq<char>>,
    actor: Seq<char>,
)
    requires
        pr_url.len() > 0,
    ensures
        ({
            let again = patch_for(apply_patch(s, patch_for(s, pr_url, mapped, actor)), pr_url, mapped, actor);
            &&& again.assignee is None
            &&& again.linked_pr is None
            &&& again.workflow_status == mapped
            &&& mapped is None ==> is_empty_patch(again)
        }),
{
    let first = patch_for(s, pr_url, mapped, actor);
    let after = apply_patch(s, first);
    if first.linked_pr is Some {
        let n = s.custom_fields.len() as int;
        assert(after.custom_fields[n] == (link_field_name(), pr_url));
    } else {
        let i = choose|i: int|
            0 <= i < s.custom_fields.len() && (#[trigger] s.custom_fields[i]).0 == link_field_name()
                && s.custom_fields[i].1.len() > 0;
        assert(after.custom_fields[i] == s.custom_fields[i]);
    }
    if mapped is None && first.workflow_status is Some {
        reveal_strlit("In code review");
        reveal_strlit("Ready to develop");
        reveal_strlit("Under consideration");
        assert(promoted_status()[0] == 'I');
        assert("Ready to develop"@[0] == 'R');
        assert("Under consideration"@[0] == 'U');
        assert(!is_promotable(promoted_status()));
    }
}

/// A record that has an owner keeps it: the patch never sets an owner,
/// whatever status the labels ask for.
pub proof fn law_owner_is_never_replaced(
    s: SnapshotModel,
    pr_url: Seq<char>,
    mapped: Option<Seq<char>>,
    actor: Seq<char>,
)
    requires
        s.assignee is Some,
    ensures
        patch_for(s, pr_url, mapped, actor).assignee is None,
{
}

} // verus!
