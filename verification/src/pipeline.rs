use vstd::prelude::*;
use vstd::string::StringExecFns;

use crate::discord::{CreateMessageRequest, Embed, EmbedV, ReqV};
use crate::models::Post;
use crate::rule::{first_sel, Rule, Rules, Subject};
use crate::text::{dec_str, u64_to_dec};
use crate::title::{spec_parse_title, view_opt_title, Title, TitleV};

verus! {

// The pipeline's stages run as independently scheduled tasks connected by
// bounded channels, outside this library. Every decision a stage makes —
// which listings to discard, which rule wins, what one batched notification
// holds — is a function here, verified for every value its task may hand in.

/// An accepted match: the rule that won, the listing, and its parsed title.
#[derive(Debug)]
pub struct MatchingPost {
    pub matching_rule: Rule,
    pub post: Post,
    pub title: Title,
}

/// What the notify stage receives on its single inbound channel: a fresh
/// match, or the batching clock's tick.
#[derive(Debug)]
pub enum NotifyMessage {
    NewMatch(MatchingPost),
    TimerFired,
}

/// The match stage's decision once storage has answered whether the raw
/// listing was new: a duplicate is discarded; a fresh listing has its title
/// parsed, and a title without the expected shape is discarded too. Every
/// discard is a silent skip, not an error.
pub fn screen_new_post(post: &Post, inserted_new: bool) -> (r: Option<Title>)
    ensures
        view_opt_title(&r) == (if inserted_new {
            spec_parse_title(post.title@, post.id@)
        } else {
            None::<TitleV>
        }),
{
    if !inserted_new {
        return None;
    }
    Title::parse(post.title.as_str(), post.id.as_str())
}

/// The match stage's decision once storage has answered whether the parsed
/// title was new: a duplicate is discarded; otherwise the first rule in
/// declaration order that accepts the listing and title produces the match to
/// persist and forward, and no rule at all means another silent skip.
pub fn screen_parsed_title(post: &Post, title: Title, inserted_new: bool, rules: &Rules) -> (r:
    Option<MatchingPost>)
    ensures
        match r {
            Some(mp) => {
                &&& inserted_new
                &&& first_sel(rules.rules@, post@, title@, 0) matches Some(i) && mp.matching_rule@
                    == rules.rules@[i]@
                &&& mp.post == *post
                &&& mp.title == title
            },
            None => !inserted_new || first_sel(rules.rules@, post@, title@, 0) is None,
        },
{
    if !inserted_new {
        return None;
    }
    match rules.get_matching_rule(post, &title) {
        Some(matching_rule) => Some(MatchingPost { matching_rule, post: post.clone(), title }),
        None => None,
    }
}

/// The embed one accepted match renders to: the rule's display name, the raw
/// listing title, and the listing's discussion link.
pub open spec fn spec_embed(m: MatchingPost) -> EmbedV {
    EmbedV {
        title: Some(
            match m.matching_rule@.name {
                Some(n) => n,
                None => "(unnamed rule)"@,
            },
        ),
        description: Some(m.post.title@),
        url: Some("https://www.reddit.com/r/buildapcsales/comments/"@ + m.post.id@),
    }
}

pub fn match_to_embed(m: &MatchingPost) -> (r: Embed)
    ensures
        r@ == spec_embed(*m),
{
    Embed {
        title: Some(m.matching_rule.name()),
        description: Some(m.post.title.clone()),
        url: Some(m.post.get_comments_url()),
    }
}

/// The one batched notification a queue of matches renders to: a count line
/// and one embed per match, in arrival order.
pub open spec fn spec_request(ms: Seq<MatchingPost>) -> ReqV {
    ReqV {
        content: Some("Found "@ + dec_str(ms.len()) + " matches:"@),
        embeds: Some(ms.map_values(|m: MatchingPost| spec_embed(m))),
    }
}

#[verifier::loop_isolation(false)]
pub fn matches_to_message_request(matches: &Vec<MatchingPost>) -> (r: CreateMessageRequest)
    ensures
        r@ == spec_request(matches@),
{
    let mut embeds: Vec<Embed> = Vec::new();
    let mut i: usize = 0;
    while i < matches.len()
        invariant
            i <= matches@.len(),
            embeds@.len() == i,
            forall|k: int| 0 <= k < i ==> embeds@[k]@ == spec_embed(#[trigger] matches@[k]),
        decreases matches@.len() - i,
    {
        let e = match_to_embed(&matches[i]);
        embeds.push(e);
        i += 1;
    }
    let mut content = "Found ".to_owned();
    let count = u64_to_dec(matches.len() as u64);
    content.append(count.as_str());
    content.append(" matches:");
    proof {
        assert(embeds@.map_values(|e: Embed| e@) =~= matches@.map_values(
            |m: MatchingPost| spec_embed(m),
        ));
    }
    CreateMessageRequest { content: Some(content), embeds: Some(embeds) }
}

/// What one step of the notify stage does to its queue, and what it flushes:
/// a fresh match is appended and nothing is sent; a tick on a non-empty queue
/// flushes the whole queue as one batched notification and clears it; a tick
/// on an empty queue sends nothing at all.
pub open spec fn spec_on_message(q: Seq<MatchingPost>, msg: NotifyMessage) -> (
    Seq<MatchingPost>,
    Option<ReqV>,
) {
    match msg {
        NotifyMessage::NewMatch(m) => (q.push(m), None),
        NotifyMessage::TimerFired => if q.len() == 0 {
            (q, None)
        } else {
            (Seq::empty(), Some(spec_request(q)))
        },
    }
}

pub open spec fn view_opt_req(r: &Option<CreateMessageRequest>) -> Option<ReqV> {
    match r {
        Some(x) => Some(x@),
        None => None,
    }
}

/// The notify stage's state: the matches accumulated since the last flush.
pub struct NotifyState {
    pub queued: Vec<MatchingPost>,
}

impl NotifyState {
    pub fn new() -> (r: NotifyState)
        ensures
            r.queued@ == Seq::<MatchingPost>::empty(),
    {
        NotifyState { queued: Vec::new() }
    }

    /// One step of the notify stage's single-consumer loop; the returned
    /// request, if any, is the one batched notification for its task to send.
    pub fn on_message(&mut self, msg: NotifyMessage) -> (r: Option<CreateMessageRequest>)
        ensures
            final(self).queued@ == spec_on_message(old(self).queued@, msg).0,
            view_opt_req(&r) == spec_on_message(old(self).queued@, msg).1,
    {
        match msg {
            NotifyMessage::NewMatch(m) => {
                self.queued.push(m);
                None
            },
            NotifyMessage::TimerFired => {
                if self.queued.len() == 0 {
                    None
                } else {
                    let req = matches_to_message_request(&self.queued);
                    self.queued = Vec::new();
                    Some(req)
                }
            },
        }
    }
}

/// Law: batching. From any queue, two matches received between ticks are
/// flushed by the next tick as one notification holding the whole queue with
/// both appended, in arrival order — and the two receipts themselves send
/// nothing. A tick on an empty queue sends nothing at all.
pub proof fn lemma_notify_batching(q: Seq<MatchingPost>, m1: MatchingPost, m2: MatchingPost)
    ensures
        spec_on_message(q, NotifyMessage::NewMatch(m1)).1 is None,
        spec_on_message(
            spec_on_message(q, NotifyMessage::NewMatch(m1)).0,
            NotifyMessage::NewMatch(m2),
        ).1 is None,
        spec_on_message(
            spec_on_message(
                spec_on_message(q, NotifyMessage::NewMatch(m1)).0,
                NotifyMessage::NewMatch(m2),
            ).0,
            NotifyMessage::TimerFired,
        ).1 == Some(spec_request(q.push(m1).push(m2))),
        spec_on_message(
            spec_on_message(
                spec_on_message(q, NotifyMessage::NewMatch(m1)).0,
                NotifyMessage::NewMatch(m2),
            ).0,
            NotifyMessage::TimerFired,
        ).0 == Seq::<MatchingPost>::empty(),
        spec_on_message(Seq::<MatchingPost>::empty(), NotifyMessage::TimerFired).1 is None,
{
    assert(q.push(m1).push(m2).len() > 0);
}

} // verus!
