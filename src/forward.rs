use vstd::prelude::*;
use crate::workflow::{targets, WorkflowInfo, WorkflowTarget};

verus! {

/// The message that one workflow receives for one delivery.
#[derive(Clone, Debug)]
pub struct TriggerWorkflowMessage {
    pub trigger_status: String,
    pub trigger_type: String,
    pub trigger_name: String,
    pub workflow_name: String,
    pub source: String,
    pub data: String,
}

/// One outbound call: `message` posted to `workflow_url`, carrying `workflow_state`.
#[derive(Clone, Debug)]
pub struct WorkflowPost {
    pub workflow_url: String,
    pub workflow_state: String,
    pub message: TriggerWorkflowMessage,
}

impl WorkflowPost {
    pub fn clone_post(&self) -> (r: WorkflowPost)
        ensures
            r@ == self@,
    {
        WorkflowPost {
            workflow_url: self.workflow_url.clone(),
            workflow_state: self.workflow_state.clone(),
            message: TriggerWorkflowMessage {
                trigger_status: self.message.trigger_status.clone(),
                trigger_type: self.message.trigger_type.clone(),
                trigger_name: self.message.trigger_name.clone(),
                workflow_name: self.message.workflow_name.clone(),
                source: self.message.source.clone(),
                data: self.message.data.clone(),
            },
        }
    }
}

pub ghost struct PostView {
    pub url: Seq<char>,
    pub state: Seq<char>,
    pub trigger_status: Seq<char>,
    pub trigger_type: Seq<char>,
    pub trigger_name: Seq<char>,
    pub workflow_name: Seq<char>,
    pub source: Seq<char>,
    pub data: Seq<char>,
}

impl View for WorkflowPost {
    type V = PostView;

    open spec fn view(&self) -> PostView {
        PostView {
            url: self.workflow_url@,
            state: self.workflow_state@,
            trigger_status: self.message.trigger_status@,
            trigger_type: self.message.trigger_type@,
            trigger_name: self.message.trigger_name@,
            workflow_name: self.message.workflow_name@,
            source: self.message.source@,
            data: self.message.data@,
        }
    }
}

/// The text that a byte string decodes to as UTF-8, or `None` where it is not valid UTF-8.
pub uninterp spec fn utf8_text(b: Seq<u8>) -> Option<Seq<char>>;

/// Relies on `String::from_utf8`: `Ok` with the decoded text exactly when the bytes are valid
/// UTF-8.
#[verifier::external_body]
fn decode_utf8(b: Vec<u8>) -> (r: Option<String>)
    ensures
        r is Some <==> utf8_text(b@) is Some,
        r matches Some(s) ==> utf8_text(b@) == Some(s@),
{
    String::from_utf8(b).ok()
}

/// The call that forwarding a text to target `w` makes.
pub open spec fn post_for(
    w: WorkflowTarget,
    trigger_name: Seq<char>,
    source: Seq<char>,
    text: Seq<char>,
) -> PostView {
    PostView {
        url: w.url,
        state: w.state,
        trigger_status: "ready"@,
        trigger_type: "amqp"@,
        trigger_name,
        workflow_name: w.name,
        source,
        data: text,
    }
}

/// The calls that forwarding `text` to `ws` makes: one per target, in registration order.
pub open spec fn posts_for(
    ws: Seq<WorkflowTarget>,
    trigger_name: Seq<char>,
    source: Seq<char>,
    text: Seq<char>,
) -> Seq<PostView> {
    ws.map_values(|w: WorkflowTarget| post_for(w, trigger_name, source, text))
}

/// The calls that forwarding a raw payload makes: none where it is not valid UTF-8.
pub open spec fn posts_for_payload(
    ws: Seq<WorkflowTarget>,
    trigger_name: Seq<char>,
    source: Seq<char>,
    payload: Seq<u8>,
) -> Seq<PostView> {
    match utf8_text(payload) {
        Some(text) => posts_for(ws, trigger_name, source, text),
        None => Seq::empty(),
    }
}

pub open spec fn post_views(v: Seq<WorkflowPost>) -> Seq<PostView> {
    v.map_values(|p: WorkflowPost| p@)
}

/// Builds the calls that forward an already decoded `text` to every workflow, in order.
pub fn build_workflow_posts(
    workflows: &Vec<WorkflowInfo>,
    trigger_name: &String,
    source: &String,
    text: &String,
) -> (r: Vec<WorkflowPost>)
    ensures
        post_views(r@) == posts_for(targets(workflows@), trigger_name@, source@, text@),
{
    let ghost want = posts_for(targets(workflows@), trigger_name@, source@, text@);
    let mut out: Vec<WorkflowPost> = Vec::new();
    let mut i: usize = 0;
    while i < workflows.len()
        invariant
            i <= workflows@.len(),
            want == posts_for(targets(workflows@), trigger_name@, source@, text@),
            post_views(out@) == want.take(i as int),
        decreases workflows@.len() - i,
    {
        let w = &workflows[i];
        let post = WorkflowPost {
            workflow_url: w.workflow_url.clone(),
            workflow_state: w.workflow_state.clone(),
            message: TriggerWorkflowMessage {
                trigger_status: "ready".to_owned(),
                trigger_type: "amqp".to_owned(),
                trigger_name: trigger_name.clone(),
                workflow_name: w.workflow_name.clone(),
                source: source.clone(),
                data: text.clone(),
            },
        };
        let ghost prev = out@;
        out.push(post);
        assert(post@ == want[i as int]);
        assert(post_views(out@) =~= post_views(prev).push(post@));
        assert(want.take(i + 1) =~= want.take(i as int).push(want[i as int]));
        i = i + 1;
    }
    assert(want.take(i as int) =~= want);
    out
}

/// Decodes a delivery's payload and builds the calls that forward it; `None` where the payload
/// is not valid UTF-8, in which case nothing is forwarded.
pub fn send_amqp_data(
    workflows: &Vec<WorkflowInfo>,
    amqp_data: Vec<u8>,
    trigger_name: &String,
    source: &String,
) -> (r: Option<Vec<WorkflowPost>>)
    ensures
        r is Some <==> utf8_text(amqp_data@) is Some,
        r matches Some(v) ==> post_views(v@) == posts_for_payload(
            targets(workflows@),
            trigger_name@,
            source@,
            amqp_data@,
        ),
{
    match decode_utf8(amqp_data) {
        Some(text) => Some(build_workflow_posts(workflows, trigger_name, source, &text)),
        None => None,
    }
}

} // verus!
