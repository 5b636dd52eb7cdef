//! The outbound channel of one connection.

use tokio::sync::mpsc::UnboundedSender;
use vstd::prelude::*;

verus! {

/// `tokio::sync::mpsc::UnboundedSender`, the sending half of a channel
/// without bound. Nothing inside it is looked at.
#[verifier::external_type_specification]
#[verifier::external_body]
#[verifier::reject_recursive_types(T)]
pub struct ExUnboundedSender<T>(UnboundedSender<T>);

/// Hands one text to `tokio::sync::mpsc::UnboundedSender::send` and reports
/// whether the channel took it. Nothing is claimed of the answer: the channel
/// refuses exactly when its receiving half is closed or gone, which only the
/// holder of that half decides. The call returns at once in either case.
#[verifier::external_body]
fn channel_send(channel: &UnboundedSender<String>, text: String) -> (accepted: bool) {
    channel.send(text).is_ok()
}

/// What a mailbox is to a contract: the channel it writes to, and the texts
/// that channel has accepted from it, oldest first.
pub struct MailboxView {
    pub channel: UnboundedSender<String>,
    pub delivered: Seq<Seq<char>>,
}

/// The sending side of a participant's channel, with a record of what went in.
pub struct Mailbox {
    channel: UnboundedSender<String>,
    delivered: Ghost<Seq<Seq<char>>>,
}

impl View for Mailbox {
    type V = MailboxView;

    closed spec fn view(&self) -> MailboxView {
        MailboxView { channel: self.channel, delivered: self.delivered@ }
    }
}

impl Mailbox {
    /// A mailbox over `channel` into which nothing has been delivered yet.
    pub fn new(channel: UnboundedSender<String>) -> (mailbox: Mailbox)
        ensures
            mailbox@.channel == channel,
            mailbox@.delivered == Seq::<Seq<char>>::empty(),
    {
        Mailbox { channel, delivered: Ghost(Seq::empty()) }
    }

    /// Offers `text` to the channel without waiting. An accepted text is
    /// appended to the record; a refused one leaves the mailbox as it was.
    pub fn push(&mut self, text: String) -> (accepted: bool)
        ensures
            final(self)@.channel == old(self)@.channel,
            final(self)@.delivered == if accepted {
                old(self)@.delivered.push(text@)
            } else {
                old(self)@.delivered
            },
    {
        let ghost sent = text@;
        let accepted = channel_send(&self.channel, text);
        if accepted {
            proof {
                self.delivered@ = self.delivered@.push(sent);
            }
        }
        accepted
    }
}

} // verus!
