//! The envelope of the messages that Okx pushes.

use crate::exchange::{subscription_id, subscription_key};
use crate::subscription::SubscriptionId;
use crate::text::same_text;
use vstd::prelude::*;
use vstd::string::*;

verus! {

/// A message that Okx pushed on a channel: the identifier of the
/// subscription that it belongs to, and the items that it carries.
#[derive(Debug)]
pub struct OkxMessage<T> {
    pub subscription_id: SubscriptionId,
    pub data: Vec<T>,
}

/// The `arg` object of a message of Okx: the channel, and what names the
/// subject on it.
#[derive(Debug)]
pub struct OkxArg<'a> {
    pub channel: &'a str,
    pub inst_id: Option<&'a str>,
    pub inst_family: Option<&'a str>,
    pub uid: Option<&'a str>,
}

/// The characters of an optional text.
pub open spec fn optional_str(text: Option<&str>) -> Option<Seq<char>> {
    match text {
        Some(text) => Some(text@),
        None => None,
    }
}

/// What names the subject of a message on a channel: the account's uid on
/// the channels of an account, the instrument family on the channel of
/// option summaries, and the instrument's id on every other channel.
pub open spec fn subject(
    channel: Seq<char>,
    inst_id: Option<Seq<char>>,
    inst_family: Option<Seq<char>>,
    uid: Option<Seq<char>>,
) -> Option<Seq<char>> {
    if channel == "balance_and_position"@ || channel == "account"@ || channel == "positions"@ {
        uid
    } else if channel == "opt-summary"@ {
        inst_family
    } else {
        inst_id
    }
}

impl<'a> OkxArg<'a> {
    /// What names the subject of the message.
    pub open spec fn subject(&self) -> Option<Seq<char>> {
        subject(
            self.channel@,
            optional_str(self.inst_id),
            optional_str(self.inst_family),
            optional_str(self.uid),
        )
    }

    /// The identifier of the subscription that the message belongs to, or
    /// `None` where the message lacks the field that names its subject.
    pub fn subscription_id(&self) -> (id: Option<SubscriptionId>)
        ensures
            match self.subject() {
                Some(subject) => id matches Some(id) && id@ == subscription_key(
                    self.channel@,
                    subject,
                ),
                None => id.is_none(),
            },
    {
        let subject = if same_text(self.channel, "balance_and_position") || same_text(
            self.channel,
            "account",
        ) || same_text(self.channel, "positions") {
            self.uid
        } else if same_text(self.channel, "opt-summary") {
            self.inst_family
        } else {
            self.inst_id
        };
        match subject {
            Some(subject) => Some(subscription_id(self.channel, subject)),
            None => None,
        }
    }
}

} // verus!
