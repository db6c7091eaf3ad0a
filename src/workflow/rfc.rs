//! Filing a review task for an RFC whose Jira description links to a Notion
//! document.
use vstd::prelude::*;

use crate::commands::CommandError;
use crate::error::WorkflowError;
use crate::links::{jira_url, notion_link, notion_link_spec, rfc_builder_spec, rfc_review};
use crate::parser::created_id;
use crate::table::lookup;
use crate::task::{add_args, strs, task_command, Task, UdaValue};
use crate::text::{join2, views};
use crate::workflow::{run, run_of, Ask, Creation, Reply, Request, StatefulEnum};

verus! {

#[derive(Clone, Debug)]
pub enum RfcReview {
    /// Creating the review task.
    Creating { rfc: Task, notion: String, creation: Creation },
    /// Taking the RFC out of the RFC inbox.
    Untagging { rfc: Task, notion: String, review: Task },
    /// Noting the Jira URL on the review task.
    LinkingJira { notion: String, review: Task, jira: String },
    /// Noting the Notion link on the review task.
    LinkingNotion { notion: String, review: Task },
    /// Telling that the review task was added.
    Announcing { review: Task },
    Done,
}

#[derive(Clone, Copy, Debug, PartialEq, Eq, Structural)]
pub enum Phase {
    Create,
    Untag,
    LinkJira,
    LinkNotion,
    Announce,
    Done,
}

pub open spec fn untag_args() -> Seq<Seq<char>> {
    seq!["modify"@, "-rfc_inbox"@]
}

impl RfcReview {
    /// The review of an RFC, filed in `project`: nothing when its Jira
    /// description links to no Notion document; refused when it lacks its
    /// Jira summary.
    pub fn new(rfc: Task, project: &str) -> (r: Result<Option<RfcReview>, CommandError>)
        ensures
            notion_link_spec(rfc) is None ==> r == Ok::<Option<RfcReview>, CommandError>(None),
            notion_link_spec(rfc) is Some ==> match lookup(rfc.udas@, "jirasummary"@) {
                Some(UdaValue::Str(s)) => r is Ok && r->Ok_0 is Some && {
                    let w = r->Ok_0->Some_0;
                    &&& w.phase() == Phase::Create
                    &&& w.rfc() == rfc
                    &&& w.notion() == notion_link_spec(rfc)->Some_0
                    &&& w.creation() is Some
                    &&& w.creation()->Some_0 is Submitting
                    &&& views(w.creation()->Some_0->Submitting_args@) == add_args(rfc_builder_spec(s@, project@))
                },
                _ => r == Err::<Option<RfcReview>, CommandError>(CommandError::MissingSummary),
            },
    {
        let notion = match notion_link(&rfc) {
            Some(l) => l,
            None => {
                return Ok(None);
            },
        };
        let builder = match rfc_review(&rfc, project) {
            Ok(b) => b,
            Err(e) => {
                return Err(e);
            },
        };
        let creation = Creation::new(&builder);
        Ok(Some(RfcReview::Creating { rfc, notion, creation }))
    }

    pub open spec fn phase(self) -> Phase {
        match self {
            RfcReview::Creating { .. } => Phase::Create,
            RfcReview::Untagging { .. } => Phase::Untag,
            RfcReview::LinkingJira { .. } => Phase::LinkJira,
            RfcReview::LinkingNotion { .. } => Phase::LinkNotion,
            RfcReview::Announcing { .. } => Phase::Announce,
            RfcReview::Done => Phase::Done,
        }
    }

    pub open spec fn rfc(self) -> Task {
        match self {
            RfcReview::Creating { rfc, .. } => rfc,
            RfcReview::Untagging { rfc, .. } => rfc,
            _ => arbitrary(),
        }
    }

    pub open spec fn notion(self) -> Seq<char> {
        match self {
            RfcReview::Creating { notion, .. } => notion@,
            RfcReview::Untagging { notion, .. } => notion@,
            RfcReview::LinkingJira { notion, .. } => notion@,
            RfcReview::LinkingNotion { notion, .. } => notion@,
            _ => Seq::empty(),
        }
    }

    pub open spec fn creation(self) -> Option<Creation> {
        match self {
            RfcReview::Creating { creation, .. } => Some(creation),
            _ => None,
        }
    }

    /// The review task, once created.
    pub open spec fn review(self) -> Task {
        match self {
            RfcReview::Untagging { review, .. } => review,
            RfcReview::LinkingJira { review, .. } => review,
            RfcReview::LinkingNotion { review, .. } => review,
            RfcReview::Announcing { review } => review,
            _ => arbitrary(),
        }
    }

    pub open spec fn jira(self) -> Seq<char> {
        match self {
            RfcReview::LinkingJira { jira, .. } => jira@,
            _ => Seq::empty(),
        }
    }
}

impl StatefulEnum for RfcReview {
    open spec fn is_terminal(&self) -> bool {
        self is Done
    }

    open spec fn pending(&self) -> Result<Option<Ask>, WorkflowError> {
        match self.phase() {
            Phase::Create => match self.creation()->Some_0.pending() {
                Some(a) => Ok(Some(a)),
                None => Err(WorkflowError::Terminated),
            },
            Phase::Untag => run_of(task_command(self.rfc(), untag_args())),
            Phase::LinkJira => run_of(task_command(self.review(), seq!["annotate"@, self.jira()])),
            Phase::LinkNotion => run_of(task_command(self.review(), seq!["annotate"@, self.notion()])),
            Phase::Announce => Ok(Some(Ask::Show("Added rnr task for '"@ + self.review().description@ + "'"@))),
            Phase::Done => Ok(None),
        }
    }

    open spec fn steps_to(&self, reply: Reply, r: Result<RfcReview, WorkflowError>) -> bool {
        let ok = r is Ok;
        let n = r->Ok_0;
        let fits = match self.phase() {
            Phase::Untag | Phase::LinkJira | Phase::LinkNotion => reply is Output,
            Phase::Announce => reply is Ack,
            _ => true,
        };
        let to = |p: Phase| ok && n.phase() == p;
        &&& (!fits ==> r == Err::<RfcReview, WorkflowError>(WorkflowError::UnexpectedReply))
        &&& (fits ==> match self.phase() {
            Phase::Create => match self.creation()->Some_0 {
                Creation::Submitting { .. } => match reply {
                    Reply::Output(out) => match created_id(out@) {
                        Some(id) => to(Phase::Create) && n.rfc() == self.rfc() && n.notion() == self.notion()
                            && n.creation() == Some(Creation::Fetching { id }),
                        None => r == Err::<RfcReview, WorkflowError>(WorkflowError::UnreadableConfirmation),
                    },
                    _ => r == Err::<RfcReview, WorkflowError>(WorkflowError::UnexpectedReply),
                },
                Creation::Fetching { .. } => match reply {
                    Reply::Tasks(ts) => if ts@.len() > 0 {
                        to(Phase::Untag) && n.rfc() == self.rfc() && n.notion() == self.notion()
                            && n.review() == ts@[0]
                    } else {
                        r == Err::<RfcReview, WorkflowError>(WorkflowError::TaskNotFound)
                    },
                    _ => r == Err::<RfcReview, WorkflowError>(WorkflowError::UnexpectedReply),
                },
                Creation::Created { .. } => r == Err::<RfcReview, WorkflowError>(WorkflowError::Terminated),
            },
            Phase::Untag => match lookup(self.rfc().udas@, "jiraurl"@) {
                Some(UdaValue::Str(s)) => to(Phase::LinkJira) && n.review() == self.review()
                    && n.notion() == self.notion() && n.jira() == s@,
                _ => r == Err::<RfcReview, WorkflowError>(WorkflowError::MissingJiraUrl),
            },
            Phase::LinkJira => to(Phase::LinkNotion) && n.review() == self.review() && n.notion() == self.notion(),
            Phase::LinkNotion => to(Phase::Announce) && n.review() == self.review(),
            Phase::Announce => to(Phase::Done),
            Phase::Done => r == Err::<RfcReview, WorkflowError>(WorkflowError::Terminated),
        })
    }

    fn terminated(&self) -> (r: bool) {
        match self {
            RfcReview::Done => true,
            _ => false,
        }
    }

    fn request(&self) -> (r: Result<Option<Request>, WorkflowError>) {
        match self {
            RfcReview::Creating { creation, .. } => match creation.request() {
                Some(q) => Ok(Some(q)),
                None => Err(WorkflowError::Terminated),
            },
            RfcReview::Untagging { rfc, .. } => {
                let tags: [&str; 1] = ["rfc_inbox"];
                let cmd = rfc.remove_tags(tags.as_slice());
                assert(seq!["modify"@] + strs(tags@).map_values(|t: Seq<char>| "-"@ + t) =~= untag_args()) by {
                    reveal_strlit("-rfc_inbox");
                    reveal_strlit("-");
                    reveal_strlit("rfc_inbox");
                    assert("-"@ + "rfc_inbox"@ =~= "-rfc_inbox"@);
                    assert(strs(tags@) =~= seq!["rfc_inbox"@]);
                }
                match run(cmd) {
                    Ok(q) => Ok(Some(q)),
                    Err(e) => Err(e),
                }
            },
            RfcReview::LinkingJira { review, jira, .. } => match run(review.annotate(jira.as_str())) {
                Ok(q) => Ok(Some(q)),
                Err(e) => Err(e),
            },
            RfcReview::LinkingNotion { review, notion } => match run(review.annotate(notion.as_str())) {
                Ok(q) => Ok(Some(q)),
                Err(e) => Err(e),
            },
            RfcReview::Announcing { review } => {
                let mut text = join2("Added rnr task for '", review.description.as_str());
                text.append("'");
                Ok(Some(Request::Show { text }))
            },
            RfcReview::Done => Ok(None),
        }
    }

    fn step(self, reply: Reply) -> (r: Result<RfcReview, WorkflowError>) {
        match self {
            RfcReview::Creating { rfc, notion, creation } => {
                let creation = creation.step(reply)?;
                match creation {
                    Creation::Created { task } => Ok(RfcReview::Untagging { rfc, notion, review: task }),
                    _ => Ok(RfcReview::Creating { rfc, notion, creation }),
                }
            },
            RfcReview::Untagging { rfc, notion, review } => match reply {
                Reply::Output(_) => match jira_url(&rfc) {
                    Ok(jira) => Ok(RfcReview::LinkingJira { notion, review, jira }),
                    Err(_) => Err(WorkflowError::MissingJiraUrl),
                },
                _ => Err(WorkflowError::UnexpectedReply),
            },
            RfcReview::LinkingJira { notion, review, .. } => match reply {
                Reply::Output(_) => Ok(RfcReview::LinkingNotion { notion, review }),
                _ => Err(WorkflowError::UnexpectedReply),
            },
            RfcReview::LinkingNotion { review, .. } => match reply {
                Reply::Output(_) => Ok(RfcReview::Announcing { review }),
                _ => Err(WorkflowError::UnexpectedReply),
            },
            RfcReview::Announcing { .. } => match reply {
                Reply::Ack => Ok(RfcReview::Done),
                _ => Err(WorkflowError::UnexpectedReply),
            },
            RfcReview::Done => Err(WorkflowError::Terminated),
        }
    }
}

} // verus!
