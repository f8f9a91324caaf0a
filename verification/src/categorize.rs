//! Partitioning of a message's tool requests into frontend-handled and
//! agent-handled ones, with a filtered copy of the message that frontend
//! requests have been removed from.

use vstd::prelude::*;

use crate::text::str_eq;
use crate::types::{Message, MessageContent, ToolRequest};

verus! {

/// The injected classification: a name is frontend when the frontend tool
/// registry holds a tool of that name.
pub open spec fn spec_is_frontend(names: Seq<String>, name: Seq<char>) -> bool {
    exists|i: int| 0 <= i < names.len() && names[i]@ == name
}

/// A request is handled by the frontend only when its call parsed and the
/// parsed name classifies as frontend; a failed parse never does.
pub open spec fn spec_is_frontend_request(req: ToolRequest, names: Seq<String>) -> bool {
    match req.tool_call {
        Ok(call) => spec_is_frontend(names, call.name@),
        Err(_) => false,
    }
}

/// Every tool request of the content, in content order.
pub open spec fn spec_tool_requests(content: Seq<MessageContent>) -> Seq<ToolRequest>
    decreases content.len(),
{
    if content.len() == 0 {
        Seq::empty()
    } else {
        spec_tool_requests(content.drop_last()) + (match content.last() {
            MessageContent::ToolRequest(req) => seq![req],
            _ => Seq::<ToolRequest>::empty(),
        })
    }
}

/// The requests classified frontend, in order.
pub open spec fn spec_frontend_requests(reqs: Seq<ToolRequest>, names: Seq<String>) -> Seq<
    ToolRequest,
>
    decreases reqs.len(),
{
    if reqs.len() == 0 {
        Seq::empty()
    } else {
        spec_frontend_requests(reqs.drop_last(), names) + (if spec_is_frontend_request(
            reqs.last(),
            names,
        ) {
            seq![reqs.last()]
        } else {
            Seq::<ToolRequest>::empty()
        })
    }
}

/// The remaining requests — failed parses included — in order.
pub open spec fn spec_other_requests(reqs: Seq<ToolRequest>, names: Seq<String>) -> Seq<ToolRequest>
    decreases reqs.len(),
{
    if reqs.len() == 0 {
        Seq::empty()
    } else {
        spec_other_requests(reqs.drop_last(), names) + (if spec_is_frontend_request(
            reqs.last(),
            names,
        ) {
            Seq::<ToolRequest>::empty()
        } else {
            seq![reqs.last()]
        })
    }
}

/// A content item stays in the filtered message unless it is a tool request
/// that parsed and classified frontend.
pub open spec fn spec_keep_in_filtered(c: MessageContent, names: Seq<String>) -> bool {
    match c {
        MessageContent::ToolRequest(req) => !spec_is_frontend_request(req, names),
        _ => true,
    }
}

/// The content with frontend tool requests removed, order preserved.
pub open spec fn spec_filtered_content(content: Seq<MessageContent>, names: Seq<String>) -> Seq<
    MessageContent,
>
    decreases content.len(),
{
    if content.len() == 0 {
        Seq::empty()
    } else {
        spec_filtered_content(content.drop_last(), names) + (if spec_keep_in_filtered(
            content.last(),
            names,
        ) {
            seq![content.last()]
        } else {
            Seq::<MessageContent>::empty()
        })
    }
}

/// Membership test against the copied-out frontend tool names.
pub fn is_frontend_tool(frontend_names: &Vec<String>, name: &str) -> (r: bool)
    ensures
        r == spec_is_frontend(frontend_names@, name@),
{
    let mut i: usize = 0;
    while i < frontend_names.len()
        invariant
            i <= frontend_names@.len(),
            forall|j: int| 0 <= j < i ==> frontend_names@[j]@ != name@,
        decreases frontend_names@.len() - i,
    {
        if str_eq(frontend_names[i].as_str(), name) {
            return true;
        }
        i += 1;
    }
    false
}

/// Splits a message's tool requests into frontend-handled and agent-handled
/// ones and builds the message that remains once the frontend requests are
/// taken out. Content order is preserved everywhere; a request whose call
/// failed to parse always counts as agent-handled and is always retained.
pub fn categorize_tool_requests(response: &Message, frontend_names: &Vec<String>) -> (r: (
    Vec<ToolRequest>,
    Vec<ToolRequest>,
    Message,
))
    ensures
        r.0@ == spec_frontend_requests(spec_tool_requests(response.content@), frontend_names@),
        r.1@ == spec_other_requests(spec_tool_requests(response.content@), frontend_names@),
        r.2.role == response.role,
        r.2.created == response.created,
        r.2.id == response.id,
        r.2.content@ == spec_filtered_content(response.content@, frontend_names@),
{
    let mut frontend_requests: Vec<ToolRequest> = Vec::new();
    let mut other_requests: Vec<ToolRequest> = Vec::new();
    let mut filtered_content: Vec<MessageContent> = Vec::new();

    let n = response.content.len();
    let mut i: usize = 0;
    while i < n
        invariant
            n == response.content@.len(),
            i <= n,
            frontend_requests@ == spec_frontend_requests(
                spec_tool_requests(response.content@.take(i as int)),
                frontend_names@,
            ),
            other_requests@ == spec_other_requests(
                spec_tool_requests(response.content@.take(i as int)),
                frontend_names@,
            ),
            filtered_content@ == spec_filtered_content(
                response.content@.take(i as int),
                frontend_names@,
            ),
        decreases n - i,
    {
        let ghost pre = response.content@.take(i as int);
        let ghost post = response.content@.take(i as int + 1);
        let ghost reqs_pre = spec_tool_requests(pre);
        proof {
            assert(post.drop_last() =~= pre);
            assert(post.last() == response.content@[i as int]);
        }
        match &response.content[i] {
            MessageContent::ToolRequest(req) => {
                proof {
                    assert(spec_tool_requests(post) =~= reqs_pre.push(*req));
                    assert(reqs_pre.push(*req).drop_last() =~= reqs_pre);
                }
                let is_frontend = match &req.tool_call {
                    Ok(call) => is_frontend_tool(frontend_names, call.name.as_str()),
                    Err(_) => false,
                };
                proof {
                    assert(is_frontend == spec_is_frontend_request(*req, frontend_names@));
                }
                if is_frontend {
                    frontend_requests.push(req.clone());
                } else {
                    other_requests.push(req.clone());
                    filtered_content.push(MessageContent::ToolRequest(req.clone()));
                }
            },
            other => {
                proof {
                    assert(spec_tool_requests(post) =~= reqs_pre);
                }
                filtered_content.push(other.clone());
            },
        }
        i += 1;
    }
    proof {
        assert(response.content@.take(n as int) =~= response.content@);
    }

    let id = match &response.id {
        Some(s) => Some(s.clone()),
        None => None,
    };
    let filtered_message = Message {
        role: response.role,
        created: response.created,
        content: filtered_content,
        id,
    };
    (frontend_requests, other_requests, filtered_message)
}

/// Every request placed in `frontend_requests` parsed successfully and its
/// name classified frontend.
pub proof fn lemma_frontend_requests_are_frontend(reqs: Seq<ToolRequest>, names: Seq<String>)
    ensures
        forall|j: int|
            0 <= j < spec_frontend_requests(reqs, names).len() ==> spec_is_frontend_request(
                #[trigger] spec_frontend_requests(reqs, names)[j],
                names,
            ),
    decreases reqs.len(),
{
    if reqs.len() > 0 {
        lemma_frontend_requests_are_frontend(reqs.drop_last(), names);
        let fr = spec_frontend_requests(reqs, names);
        let fr_pre = spec_frontend_requests(reqs.drop_last(), names);
        assert forall|j: int| 0 <= j < fr.len() implies spec_is_frontend_request(
            fr[j],
            names,
        ) by {
            if j < fr_pre.len() {
                assert(fr[j] == fr_pre[j]);
            } else {
                assert(fr[j] == reqs.last());
            }
        }
    }
}

/// Every request placed in `other_requests` did not classify frontend.
pub proof fn lemma_other_requests_are_not_frontend(reqs: Seq<ToolRequest>, names: Seq<String>)
    ensures
        forall|j: int|
            0 <= j < spec_other_requests(reqs, names).len() ==> !spec_is_frontend_request(
                #[trigger] spec_other_requests(reqs, names)[j],
                names,
            ),
    decreases reqs.len(),
{
    if reqs.len() > 0 {
        lemma_other_requests_are_not_frontend(reqs.drop_last(), names);
        let ot = spec_other_requests(reqs, names);
        let ot_pre = spec_other_requests(reqs.drop_last(), names);
        assert forall|j: int| 0 <= j < ot.len() implies !spec_is_frontend_request(
            ot[j],
            names,
        ) by {
            if j < ot_pre.len() {
                assert(ot[j] == ot_pre[j]);
            } else {
                assert(ot[j] == reqs.last());
            }
        }
    }
}

/// A tool request whose call failed to parse is always placed among the
/// agent-handled requests and always retained in the filtered content,
/// whatever the classifier holds.
pub proof fn lemma_unparsed_request_stays(
    content: Seq<MessageContent>,
    names: Seq<String>,
    i: int,
    req: ToolRequest,
)
    requires
        0 <= i < content.len(),
        content[i] == MessageContent::ToolRequest(req),
        req.tool_call matches Err(_),
    ensures
        !spec_is_frontend_request(req, names),
        spec_other_requests(spec_tool_requests(content), names).contains(req),
        spec_filtered_content(content, names).contains(content[i]),
    decreases content.len(),
{
    let pre = content.drop_last();
    let reqs = spec_tool_requests(content);
    let reqs_pre = spec_tool_requests(pre);
    if i == content.len() - 1 {
        assert(reqs =~= reqs_pre.push(req));
        assert(reqs_pre.push(req).drop_last() =~= reqs_pre);
        let others = spec_other_requests(reqs, names);
        assert(others.last() == req);
        assert(others.contains(req));
        let filtered = spec_filtered_content(content, names);
        assert(filtered.last() == content[i]);
        assert(filtered.contains(content[i]));
    } else {
        lemma_unparsed_request_stays(pre, names, i, req);
        let others_pre = spec_other_requests(reqs_pre, names);
        let others = spec_other_requests(reqs, names);
        let k = choose|k: int| 0 <= k < others_pre.len() && others_pre[k] == req;
        match content.last() {
            MessageContent::ToolRequest(last_req) => {
                assert(reqs =~= reqs_pre.push(last_req));
                assert(reqs_pre.push(last_req).drop_last() =~= reqs_pre);
            },
            _ => {
                assert(reqs =~= reqs_pre);
            },
        }
        assert(others[k] == req);
        assert(others.contains(req));
        let filtered_pre = spec_filtered_content(pre, names);
        let filtered = spec_filtered_content(content, names);
        let m = choose|m: int| 0 <= m < filtered_pre.len() && filtered_pre[m] == content[i];
        assert(filtered[m] == content[i]);
        assert(filtered.contains(content[i]));
    }
}

/// Categorization partitions: the two request lists together hold exactly the
/// message's tool requests.
pub proof fn lemma_categorize_partitions(reqs: Seq<ToolRequest>, names: Seq<String>)
    ensures
        spec_frontend_requests(reqs, names).len() + spec_other_requests(reqs, names).len()
            == reqs.len(),
        spec_frontend_requests(reqs, names).to_multiset().add(
            spec_other_requests(reqs, names).to_multiset(),
        ) =~= reqs.to_multiset(),
    decreases reqs.len(),
{
    broadcast use vstd::seq_lib::group_to_multiset_ensures;

    if reqs.len() > 0 {
        let pre = reqs.drop_last();
        lemma_categorize_partitions(pre, names);
        assert(pre.push(reqs.last()) =~= reqs);
        let fr_pre = spec_frontend_requests(pre, names);
        let ot_pre = spec_other_requests(pre, names);
        if spec_is_frontend_request(reqs.last(), names) {
            assert(spec_frontend_requests(reqs, names) =~= fr_pre.push(reqs.last()));
            assert(spec_other_requests(reqs, names) =~= ot_pre);
        } else {
            assert(spec_frontend_requests(reqs, names) =~= fr_pre);
            assert(spec_other_requests(reqs, names) =~= ot_pre.push(reqs.last()));
        }
    }
}

/// Re-running categorization on its own filtered message finds no frontend
/// request and leaves the content unchanged.
pub proof fn lemma_categorize_idempotent(content: Seq<MessageContent>, names: Seq<String>)
    ensures
        spec_frontend_requests(spec_tool_requests(spec_filtered_content(content, names)), names)
            =~= Seq::<ToolRequest>::empty(),
        spec_other_requests(spec_tool_requests(spec_filtered_content(content, names)), names)
            =~= spec_tool_requests(spec_filtered_content(content, names)),
        spec_filtered_content(spec_filtered_content(content, names), names) =~= spec_filtered_content(
            content,
            names,
        ),
    decreases content.len(),
{
    if content.len() > 0 {
        let pre = content.drop_last();
        lemma_categorize_idempotent(pre, names);
        let f_pre = spec_filtered_content(pre, names);
        let f = spec_filtered_content(content, names);
        if spec_keep_in_filtered(content.last(), names) {
            assert(f =~= f_pre.push(content.last()));
            assert(f_pre.push(content.last()).drop_last() =~= f_pre);
            match content.last() {
                MessageContent::ToolRequest(req) => {
                    assert(spec_tool_requests(f) =~= spec_tool_requests(f_pre).push(req));
                    assert(spec_tool_requests(f_pre).push(req).drop_last() =~= spec_tool_requests(
                        f_pre,
                    ));
                },
                _ => {
                    assert(spec_tool_requests(f) =~= spec_tool_requests(f_pre));
                },
            }
        } else {
            assert(f =~= f_pre);
        }
    }
}

} // verus!
