use crate::message_content::{same_content_type, MessageContentType};
use vstd::prelude::*;

verus! {

/// A counter kept for each chat.
#[derive(Clone, Copy, Debug, PartialEq, Eq, Structural)]
pub enum MetricKey {
    TextMessages,
    ImageMessages,
    VideoMessages,
    AudioMessages,
    FileMessages,
    Polls,
    CryptoMessages,
    GiphyMessages,
    Proposals,
    PrizeMessages,
    PrizeWinnerMessages,
    MessageReminders,
    P2pSwaps,
    VideoCalls,
    CustomTypeMessages,
    Replies,
}

/// The counter that a message of a kind adds to; none for tombstones, reminder
/// notices and reports.
pub open spec fn content_metric_key(t: MessageContentType) -> Option<MetricKey> {
    match t {
        MessageContentType::Text => Some(MetricKey::TextMessages),
        MessageContentType::Image => Some(MetricKey::ImageMessages),
        MessageContentType::Video => Some(MetricKey::VideoMessages),
        MessageContentType::Audio => Some(MetricKey::AudioMessages),
        MessageContentType::File => Some(MetricKey::FileMessages),
        MessageContentType::Poll => Some(MetricKey::Polls),
        MessageContentType::Crypto => Some(MetricKey::CryptoMessages),
        MessageContentType::Deleted => None,
        MessageContentType::Giphy => Some(MetricKey::GiphyMessages),
        MessageContentType::GovernanceProposal => Some(MetricKey::Proposals),
        MessageContentType::Prize => Some(MetricKey::PrizeMessages),
        MessageContentType::PrizeWinner => Some(MetricKey::PrizeWinnerMessages),
        MessageContentType::MessageReminderCreated => None,
        MessageContentType::MessageReminder => Some(MetricKey::MessageReminders),
        MessageContentType::ReportedMessage => None,
        MessageContentType::P2PSwap => Some(MetricKey::P2pSwaps),
        MessageContentType::VideoCall => Some(MetricKey::VideoCalls),
        MessageContentType::Custom(_) => Some(MetricKey::CustomTypeMessages),
    }
}

/// The counter that a message of a kind adds to.
pub fn metric_key_for(t: &MessageContentType) -> (r: Option<MetricKey>)
    ensures
        r == content_metric_key(*t),
{
    match t {
        MessageContentType::Text => Some(MetricKey::TextMessages),
        MessageContentType::Image => Some(MetricKey::ImageMessages),
        MessageContentType::Video => Some(MetricKey::VideoMessages),
        MessageContentType::Audio => Some(MetricKey::AudioMessages),
        MessageContentType::File => Some(MetricKey::FileMessages),
        MessageContentType::Poll => Some(MetricKey::Polls),
        MessageContentType::Crypto => Some(MetricKey::CryptoMessages),
        MessageContentType::Deleted => None,
        MessageContentType::Giphy => Some(MetricKey::GiphyMessages),
        MessageContentType::GovernanceProposal => Some(MetricKey::Proposals),
        MessageContentType::Prize => Some(MetricKey::PrizeMessages),
        MessageContentType::PrizeWinner => Some(MetricKey::PrizeWinnerMessages),
        MessageContentType::MessageReminderCreated => None,
        MessageContentType::MessageReminder => Some(MetricKey::MessageReminders),
        MessageContentType::ReportedMessage => None,
        MessageContentType::P2PSwap => Some(MetricKey::P2pSwaps),
        MessageContentType::VideoCall => Some(MetricKey::VideoCalls),
        MessageContentType::Custom(_) => Some(MetricKey::CustomTypeMessages),
    }
}

/// Two content types of the same kind add to the same counter.
pub proof fn lemma_same_type_same_key(a: MessageContentType, b: MessageContentType)
    requires
        same_content_type(a, b),
    ensures
        content_metric_key(a) == content_metric_key(b),
{
}

/// The counters of one chat.
#[derive(Clone, Copy, Debug, Default, PartialEq, Eq)]
pub struct ChatMetricsInternal {
    pub text_messages: u64,
    pub image_messages: u64,
    pub video_messages: u64,
    pub audio_messages: u64,
    pub file_messages: u64,
    pub polls: u64,
    pub crypto_messages: u64,
    pub giphy_messages: u64,
    pub proposals: u64,
    pub prize_messages: u64,
    pub prize_winner_messages: u64,
    pub message_reminders: u64,
    pub p2p_swaps: u64,
    pub video_calls: u64,
    pub custom_type_messages: u64,
    pub replies: u64,
}

impl ChatMetricsInternal {
    /// The value of one counter.
    pub open spec fn value(self, k: MetricKey) -> u64 {
        match k {
            MetricKey::TextMessages => self.text_messages,
            MetricKey::ImageMessages => self.image_messages,
            MetricKey::VideoMessages => self.video_messages,
            MetricKey::AudioMessages => self.audio_messages,
            MetricKey::FileMessages => self.file_messages,
            MetricKey::Polls => self.polls,
            MetricKey::CryptoMessages => self.crypto_messages,
            MetricKey::GiphyMessages => self.giphy_messages,
            MetricKey::Proposals => self.proposals,
            MetricKey::PrizeMessages => self.prize_messages,
            MetricKey::PrizeWinnerMessages => self.prize_winner_messages,
            MetricKey::MessageReminders => self.message_reminders,
            MetricKey::P2pSwaps => self.p2p_swaps,
            MetricKey::VideoCalls => self.video_calls,
            MetricKey::CustomTypeMessages => self.custom_type_messages,
            MetricKey::Replies => self.replies,
        }
    }

    /// All counters at zero.
    pub fn new() -> (r: ChatMetricsInternal)
        ensures
            forall|k: MetricKey| r.value(k) == 0,
    {
        ChatMetricsInternal {
            text_messages: 0,
            image_messages: 0,
            video_messages: 0,
            audio_messages: 0,
            file_messages: 0,
            polls: 0,
            crypto_messages: 0,
            giphy_messages: 0,
            proposals: 0,
            prize_messages: 0,
            prize_winner_messages: 0,
            message_reminders: 0,
            p2p_swaps: 0,
            video_calls: 0,
            custom_type_messages: 0,
            replies: 0,
        }
    }

    pub fn get(&self, k: MetricKey) -> (r: u64)
        ensures
            r == self.value(k),
    {
        match k {
            MetricKey::TextMessages => self.text_messages,
            MetricKey::ImageMessages => self.image_messages,
            MetricKey::VideoMessages => self.video_messages,
            MetricKey::AudioMessages => self.audio_messages,
            MetricKey::FileMessages => self.file_messages,
            MetricKey::Polls => self.polls,
            MetricKey::CryptoMessages => self.crypto_messages,
            MetricKey::GiphyMessages => self.giphy_messages,
            MetricKey::Proposals => self.proposals,
            MetricKey::PrizeMessages => self.prize_messages,
            MetricKey::PrizeWinnerMessages => self.prize_winner_messages,
            MetricKey::MessageReminders => self.message_reminders,
            MetricKey::P2pSwaps => self.p2p_swaps,
            MetricKey::VideoCalls => self.video_calls,
            MetricKey::CustomTypeMessages => self.custom_type_messages,
            MetricKey::Replies => self.replies,
        }
    }

    /// Sets one counter, leaving the others.
    pub fn set(&mut self, k: MetricKey, v: u64)
        ensures
            final(self).value(k) == v,
            forall|o: MetricKey| o != k ==> final(self).value(o) == old(self).value(o),
    {
        match k {
            MetricKey::TextMessages => self.text_messages = v,
            MetricKey::ImageMessages => self.image_messages = v,
            MetricKey::VideoMessages => self.video_messages = v,
            MetricKey::AudioMessages => self.audio_messages = v,
            MetricKey::FileMessages => self.file_messages = v,
            MetricKey::Polls => self.polls = v,
            MetricKey::CryptoMessages => self.crypto_messages = v,
            MetricKey::GiphyMessages => self.giphy_messages = v,
            MetricKey::Proposals => self.proposals = v,
            MetricKey::PrizeMessages => self.prize_messages = v,
            MetricKey::PrizeWinnerMessages => self.prize_winner_messages = v,
            MetricKey::MessageReminders => self.message_reminders = v,
            MetricKey::P2pSwaps => self.p2p_swaps = v,
            MetricKey::VideoCalls => self.video_calls = v,
            MetricKey::CustomTypeMessages => self.custom_type_messages = v,
            MetricKey::Replies => self.replies = v,
        }
    }

    /// Adds to one counter.
    pub fn incr(&mut self, k: MetricKey, by: u64)
        requires
            old(self).value(k) + by <= u64::MAX,
        ensures
            final(self).value(k) == old(self).value(k) + by,
            forall|o: MetricKey| o != k ==> final(self).value(o) == old(self).value(o),
    {
        let v = self.get(k);
        self.set(k, v + by);
    }

    /// Takes from one counter.
    pub fn decr(&mut self, k: MetricKey, by: u64)
        requires
            old(self).value(k) >= by,
        ensures
            final(self).value(k) == old(self).value(k) - by,
            forall|o: MetricKey| o != k ==> final(self).value(o) == old(self).value(o),
    {
        let v = self.get(k);
        self.set(k, v - by);
    }
}

} // verus!
