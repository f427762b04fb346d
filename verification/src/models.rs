use vstd::prelude::*;
use vstd::string::StringExecFns;

use crate::rule::{post_matches_rule, Rule, Subject};

verus! {

/// One raw listing as the matcher reads it: its identifier, its title, its
/// optional category flair, and its link.
#[derive(Debug, PartialEq, Eq)]
pub struct Post {
    pub id: String,
    pub title: String,
    pub link_flair_text: Option<String>,
    pub url: String,
}

/// The shape of a listing.
pub struct PostV {
    pub id: Seq<char>,
    pub title: Seq<char>,
    pub link_flair_text: Option<Seq<char>>,
    pub url: Seq<char>,
}

impl View for Post {
    type V = PostV;

    open spec fn view(&self) -> PostV {
        PostV {
            id: self.id@,
            title: self.title@,
            link_flair_text: match &self.link_flair_text {
                Some(x) => Some(x@),
                None => None,
            },
            url: self.url@,
        }
    }
}

impl Clone for Post {
    fn clone(&self) -> (r: Self)
        ensures
            r == *self,
    {
        Post {
            id: self.id.clone(),
            title: self.title.clone(),
            link_flair_text: match &self.link_flair_text {
                Some(x) => Some(x.clone()),
                None => None,
            },
            url: self.url.clone(),
        }
    }
}

impl Post {
    /// The discussion page of this listing.
    pub fn get_comments_url(&self) -> (r: String)
        ensures
            r@ == "https://www.reddit.com/r/buildapcsales/comments/"@ + self.id@,
    {
        let mut s = "https://www.reddit.com/r/buildapcsales/comments/".to_owned();
        s.append(self.id.as_str());
        s
    }
}

impl Subject for Post {
    open spec fn matches_rule(&self, rule: &Rule) -> bool {
        post_matches_rule(self@, rule@)
    }

    /// The listing-level predicate: the rule's category-flair pattern against
    /// this listing's flair, vacuously true without such a pattern.
    fn is_match(&self, rule: &Rule) -> (r: bool) {
        match &rule.link_flair_pattern {
            Some(link_flair_pattern) => link_flair_pattern.pattern.does_string_option_match(
                &self.link_flair_text,
            ),
            None => true,
        }
    }
}

} // verus!
