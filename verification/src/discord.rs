use vstd::prelude::*;

use crate::error::Error;

verus! {

/// Credentials, endpoint and batching cadence of the chat-notification sink.
#[derive(Debug, PartialEq)]
pub struct Config {
    pub token: String,
    pub user_agent: String,
    pub api_url: String,
    pub channel_id: String,
    pub sending_interval_secs: u64,
}

/// One message to post: optional text content plus optional embeds.
#[derive(Debug, PartialEq)]
pub struct CreateMessageRequest {
    pub content: Option<String>,
    pub embeds: Option<Vec<Embed>>,
}

/// One embedded card of a message.
#[derive(Debug, PartialEq)]
pub struct Embed {
    pub title: Option<String>,
    pub description: Option<String>,
    pub url: Option<String>,
}

/// One named field of an embed.
#[derive(Debug, PartialEq)]
pub struct Field {
    pub name: String,
    pub value: String,
    pub inline: bool,
}

/// The shape of an embed.
pub struct EmbedV {
    pub title: Option<Seq<char>>,
    pub description: Option<Seq<char>>,
    pub url: Option<Seq<char>>,
}

/// The shape of a message request.
pub struct ReqV {
    pub content: Option<Seq<char>>,
    pub embeds: Option<Seq<EmbedV>>,
}

impl View for Embed {
    type V = EmbedV;

    open spec fn view(&self) -> EmbedV {
        EmbedV {
            title: match &self.title {
                Some(x) => Some(x@),
                None => None,
            },
            description: match &self.description {
                Some(x) => Some(x@),
                None => None,
            },
            url: match &self.url {
                Some(x) => Some(x@),
                None => None,
            },
        }
    }
}

impl View for CreateMessageRequest {
    type V = ReqV;

    open spec fn view(&self) -> ReqV {
        ReqV {
            content: match &self.content {
                Some(x) => Some(x@),
                None => None,
            },
            embeds: match &self.embeds {
                Some(v) => Some(v@.map_values(|e: Embed| e@)),
                None => None,
            },
        }
    }
}

/// The notification sink's client state: configuration plus the remaining
/// remote quota last reported. The HTTP call itself happens outside this
/// library; the quota decision is made here.
pub struct Client {
    pub config: Config,
    pub ratelimit_remaining: u32,
}

impl Client {
    /// A fresh client assumes one call may be made until the sink reports
    /// otherwise.
    pub fn new(config: Config) -> (r: Self)
        ensures
            r.config == config,
            r.ratelimit_remaining == 1,
    {
        Self { config, ratelimit_remaining: 1 }
    }

    /// Fail fast when the sink's quota is exhausted: no retry, no backoff, a
    /// distinct error instead.
    pub fn check_ratelimit(&self) -> (r: Result<(), Error>)
        ensures
            self.ratelimit_remaining == 0 ==> r == Err::<(), Error>(Error::OutOfRequests),
            self.ratelimit_remaining != 0 ==> r is Ok,
    {
        if self.ratelimit_remaining == 0 {
            return Err(Error::OutOfRequests);
        }
        Ok(())
    }

    /// Applies the remaining-quota feedback the sink reported after a call.
    pub fn update_ratelimits(&mut self, remaining: u32)
        ensures
            final(self).config == old(self).config,
            final(self).ratelimit_remaining == remaining,
    {
        self.ratelimit_remaining = remaining;
    }
}

} // verus!
