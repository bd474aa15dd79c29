use crate::ids::{CanisterId, MessageIndex, Milliseconds, TimestampMillis, UserId};
use vstd::prelude::*;
use vstd::string::StrSliceExecFns;

verus! {

/// The longest text, in characters, that a message may hold.
pub const MAX_TEXT_LENGTH: u32 = 10000;

/// The longest notification text, in characters.
pub const MAX_NOTIFICATION_CHARS: usize = 200;

/// Content as submitted by the sender of a message.
#[derive(Clone, Debug)]
pub enum MessageContentInitial {
    Text(TextContent),
    Image(ImageContent),
    Video(VideoContent),
    Audio(AudioContent),
    File(FileContent),
    Poll(PollContent),
    Crypto(CryptoContent),
    Deleted(DeletedBy),
    Giphy(GiphyContent),
    GovernanceProposal(ProposalContent),
    Prize(PrizeContentInitial),
    MessageReminderCreated(MessageReminderCreatedContent),
    MessageReminder(MessageReminderContent),
    P2PSwap(P2PSwapContentInitial),
    Encrypted(EncryptedContent),
    Custom(CustomContent),
}

/// Content of a message as it is shown to readers.
#[derive(Clone, Debug)]
pub enum MessageContent {
    Text(TextContent),
    Image(ImageContent),
    Video(VideoContent),
    Audio(AudioContent),
    File(FileContent),
    Poll(PollContent),
    Crypto(CryptoContent),
    Deleted(DeletedBy),
    Giphy(GiphyContent),
    GovernanceProposal(ProposalContent),
    Prize(PrizeContent),
    PrizeWinner(PrizeWinnerContent),
    MessageReminderCreated(MessageReminderCreatedContent),
    MessageReminder(MessageReminderContent),
    ReportedMessage(ReportedMessage),
    P2PSwap(P2PSwapContent),
    VideoCall(VideoCallContent),
    Encrypted(EncryptedContent),
    Custom(CustomContent),
}

/// The kind of a message's content, stable across every stored encoding.
#[derive(Clone, Debug, PartialEq, Eq)]
pub enum MessageContentType {
    Text,
    Image,
    Video,
    Audio,
    File,
    Poll,
    Crypto,
    Deleted,
    Giphy,
    GovernanceProposal,
    Prize,
    PrizeWinner,
    MessageReminderCreated,
    MessageReminder,
    ReportedMessage,
    P2PSwap,
    VideoCall,
    Custom(String),
}

/// The kind of content that an encrypted message carries.
#[derive(Clone, Debug, PartialEq, Eq)]
pub enum EncryptedMessageContentType {
    Text,
    Image,
    Video,
    Audio,
    File,
    Crypto,
    Giphy,
    Custom(String),
}

#[derive(Clone, Copy, Debug, PartialEq, Eq)]
pub enum InvalidPollReason {
    TooFewOptions,
    TooManyOptions,
    OptionTooLong,
    DuplicateOptions,
    EndDateInThePast,
}

/// Why submitted content was refused.
#[derive(Clone, Copy, Debug, PartialEq, Eq)]
pub enum ContentValidationError {
    Empty,
    TextTooLong(u32),
    InvalidPoll(InvalidPollReason),
    TransferCannotBeZero,
    TransferMustBePending,
    InvalidTypeForForwarding,
    PrizeEndDateInThePast,
    Unauthorized,
}

/// Two content types are the same kind; custom kinds compare by their name.
pub open spec fn same_content_type(a: MessageContentType, b: MessageContentType) -> bool {
    match (a, b) {
        (MessageContentType::Custom(x), MessageContentType::Custom(y)) => x@ == y@,
        (MessageContentType::Custom(_), _) => false,
        (_, MessageContentType::Custom(_)) => false,
        _ => a == b,
    }
}

pub open spec fn encrypted_type_as_content_type(e: EncryptedMessageContentType) -> MessageContentType {
    match e {
        EncryptedMessageContentType::Text => MessageContentType::Text,
        EncryptedMessageContentType::Image => MessageContentType::Image,
        EncryptedMessageContentType::Video => MessageContentType::Video,
        EncryptedMessageContentType::Audio => MessageContentType::Audio,
        EncryptedMessageContentType::File => MessageContentType::File,
        EncryptedMessageContentType::Crypto => MessageContentType::Crypto,
        EncryptedMessageContentType::Giphy => MessageContentType::Giphy,
        EncryptedMessageContentType::Custom(c) => MessageContentType::Custom(c),
    }
}

/// The kind of a content value.
pub open spec fn content_type_of(c: MessageContent) -> MessageContentType {
    match c {
        MessageContent::Text(_) => MessageContentType::Text,
        MessageContent::Image(_) => MessageContentType::Image,
        MessageContent::Video(_) => MessageContentType::Video,
        MessageContent::Audio(_) => MessageContentType::Audio,
        MessageContent::File(_) => MessageContentType::File,
        MessageContent::Poll(_) => MessageContentType::Poll,
        MessageContent::Crypto(_) => MessageContentType::Crypto,
        MessageContent::Deleted(_) => MessageContentType::Deleted,
        MessageContent::Giphy(_) => MessageContentType::Giphy,
        MessageContent::GovernanceProposal(_) => MessageContentType::GovernanceProposal,
        MessageContent::Prize(_) => MessageContentType::Prize,
        MessageContent::PrizeWinner(_) => MessageContentType::PrizeWinner,
        MessageContent::MessageReminderCreated(_) => MessageContentType::MessageReminderCreated,
        MessageContent::MessageReminder(_) => MessageContentType::MessageReminder,
        MessageContent::ReportedMessage(_) => MessageContentType::ReportedMessage,
        MessageContent::P2PSwap(_) => MessageContentType::P2PSwap,
        MessageContent::VideoCall(_) => MessageContentType::VideoCall,
        MessageContent::Encrypted(e) => encrypted_type_as_content_type(e.content_type),
        MessageContent::Custom(c) => MessageContentType::Custom(c.kind),
    }
}

pub open spec fn opt_text(s: Option<String>) -> Option<Seq<char>> {
    match s {
        Some(t) => Some(t@),
        None => None,
    }
}

/// The caption or body of a content value, if it has one.
pub open spec fn content_text(c: MessageContent) -> Option<Seq<char>> {
    match c {
        MessageContent::Text(t) => Some(t.text@),
        MessageContent::Image(i) => opt_text(i.caption),
        MessageContent::Video(v) => opt_text(v.caption),
        MessageContent::Audio(a) => opt_text(a.caption),
        MessageContent::File(f) => opt_text(f.caption),
        MessageContent::Poll(p) => opt_text(p.config.text),
        MessageContent::Crypto(c) => opt_text(c.caption),
        MessageContent::Giphy(g) => opt_text(g.caption),
        MessageContent::GovernanceProposal(gp) => Some(gp.proposal.title@),
        MessageContent::Prize(p) => opt_text(p.caption),
        MessageContent::P2PSwap(p) => opt_text(p.caption),
        _ => None,
    }
}

/// The caption or body of submitted content, if it has one.
pub open spec fn initial_content_text(c: MessageContentInitial) -> Option<Seq<char>> {
    match c {
        MessageContentInitial::Text(t) => Some(t.text@),
        MessageContentInitial::Image(i) => opt_text(i.caption),
        MessageContentInitial::Video(v) => opt_text(v.caption),
        MessageContentInitial::Audio(a) => opt_text(a.caption),
        MessageContentInitial::File(f) => opt_text(f.caption),
        MessageContentInitial::Poll(p) => opt_text(p.config.text),
        MessageContentInitial::Crypto(c) => opt_text(c.caption),
        MessageContentInitial::Giphy(g) => opt_text(g.caption),
        MessageContentInitial::GovernanceProposal(p) => Some(p.proposal.title@),
        MessageContentInitial::Prize(p) => opt_text(p.caption),
        MessageContentInitial::MessageReminderCreated(r) => opt_text(r.notes),
        MessageContentInitial::MessageReminder(r) => opt_text(r.notes),
        MessageContentInitial::P2PSwap(p) => opt_text(p.caption),
        _ => None,
    }
}

pub open spec fn opt_blob(b: Option<BlobReference>) -> Seq<BlobReference> {
    match b {
        Some(r) => seq![r],
        None => Seq::empty(),
    }
}

/// The stored files that a content value points to, video before its thumbnail.
pub open spec fn content_blobs(c: MessageContent) -> Seq<BlobReference> {
    match c {
        MessageContent::Image(i) => opt_blob(i.blob_reference),
        MessageContent::Video(v) => opt_blob(v.video_blob_reference) + opt_blob(v.image_blob_reference),
        MessageContent::Audio(a) => opt_blob(a.blob_reference),
        MessageContent::File(f) => opt_blob(f.blob_reference),
        _ => Seq::empty(),
    }
}

fn str_of<'a>(s: &'a Option<String>) -> (r: Option<&'a str>)
    ensures
        match (r, *s) {
            (Some(a), Some(b)) => a@ == b@,
            (None, None) => true,
            _ => false,
        },
{
    match s {
        Some(t) => Some(t.as_str()),
        None => None,
    }
}

fn push_blob(refs: &mut Vec<BlobReference>, b: &Option<BlobReference>)
    ensures
        final(refs)@ == old(refs)@ + opt_blob(*b),
{
    if let Some(br) = b {
        refs.push(*br);
    }
    proof {
        assert(final(refs)@ =~= old(refs)@ + opt_blob(*b));
    }
}

/// The name of the first mentioned user with the given id.
fn username_of(mentioned: &Vec<User>, user: UserId) -> (r: Option<String>)
    ensures
        match r {
            Some(name) => exists|i: int|
                0 <= i < mentioned@.len() && mentioned@[i].user_id == user
                    && mentioned@[i].username@ == name@ && (forall|j: int|
                    0 <= j < i ==> mentioned@[j].user_id != user),
            None => forall|j: int| 0 <= j < mentioned@.len() ==> mentioned@[j].user_id != user,
        },
{
    let mut i: usize = 0;
    while i < mentioned.len()
        invariant
            0 <= i <= mentioned@.len(),
            forall|j: int| 0 <= j < i ==> mentioned@[j].user_id != user,
        decreases mentioned@.len() - i,
    {
        if mentioned[i].user_id == user {
            let name = mentioned[i].username.clone();
            assert(mentioned@[i as int].username@ == name@);
            return Some(name);
        }
        i = i + 1;
    }
    None
}

impl MessageContent {
    /// Every stored file that this content points to.
    pub fn blob_references(&self) -> (r: Vec<BlobReference>)
        ensures
            r@ == content_blobs(*self),
    {
        let mut references: Vec<BlobReference> = Vec::new();
        match self {
            MessageContent::Image(i) => {
                push_blob(&mut references, &i.blob_reference);
            },
            MessageContent::Video(v) => {
                push_blob(&mut references, &v.video_blob_reference);
                push_blob(&mut references, &v.image_blob_reference);
            },
            MessageContent::Audio(a) => {
                push_blob(&mut references, &a.blob_reference);
            },
            MessageContent::File(f) => {
                push_blob(&mut references, &f.blob_reference);
            },
            _ => {},
        }
        proof {
            assert(references@ =~= content_blobs(*self));
        }
        references
    }

    /// The caption or body, for search and previews.
    pub fn text(&self) -> (r: Option<&str>)
        ensures
            match (r, content_text(*self)) {
                (Some(a), Some(b)) => a@ == b,
                (None, None) => true,
                _ => false,
            },
    {
        match self {
            MessageContent::Text(t) => Some(t.text.as_str()),
            MessageContent::Image(i) => str_of(&i.caption),
            MessageContent::Video(v) => str_of(&v.caption),
            MessageContent::Audio(a) => str_of(&a.caption),
            MessageContent::File(f) => str_of(&f.caption),
            MessageContent::Poll(p) => str_of(&p.config.text),
            MessageContent::Crypto(c) => str_of(&c.caption),
            MessageContent::Giphy(g) => str_of(&g.caption),
            MessageContent::GovernanceProposal(gp) => Some(gp.proposal.title.as_str()),
            MessageContent::Prize(p) => str_of(&p.caption),
            MessageContent::P2PSwap(p) => str_of(&p.caption),
            _ => None,
        }
    }

    /// The address of the image shown beside a notification: an image's file, or a
    /// video's thumbnail.
    pub fn notification_image_url(&self) -> (r: Option<String>)
        ensures
            match *self {
                MessageContent::Image(i) => match i.blob_reference {
                    Some(b) => r is Some && r->0@ == blob_url_of(b.canister_id, b.blob_id),
                    None => r is None,
                },
                MessageContent::Video(v) => match v.image_blob_reference {
                    Some(b) => r is Some && r->0@ == blob_url_of(b.canister_id, b.blob_id),
                    None => r is None,
                },
                _ => r is None,
            },
    {
        match self {
            MessageContent::Image(i) => match &i.blob_reference {
                Some(b) => Some(b.url()),
                None => None,
            },
            MessageContent::Video(v) => match &v.image_blob_reference {
                Some(b) => Some(b.url()),
                None => None,
            },
            _ => None,
        }
    }

    /// The kind of this content.
    pub fn content_type(&self) -> (r: MessageContentType)
        ensures
            same_content_type(r, content_type_of(*self)),
    {
        match self {
            MessageContent::Text(_) => MessageContentType::Text,
            MessageContent::Image(_) => MessageContentType::Image,
            MessageContent::Video(_) => MessageContentType::Video,
            MessageContent::Audio(_) => MessageContentType::Audio,
            MessageContent::File(_) => MessageContentType::File,
            MessageContent::Poll(_) => MessageContentType::Poll,
            MessageContent::Crypto(_) => MessageContentType::Crypto,
            MessageContent::Deleted(_) => MessageContentType::Deleted,
            MessageContent::Giphy(_) => MessageContentType::Giphy,
            MessageContent::GovernanceProposal(_) => MessageContentType::GovernanceProposal,
            MessageContent::Prize(_) => MessageContentType::Prize,
            MessageContent::PrizeWinner(_) => MessageContentType::PrizeWinner,
            MessageContent::MessageReminderCreated(_) => MessageContentType::MessageReminderCreated,
            MessageContent::MessageReminder(_) => MessageContentType::MessageReminder,
            MessageContent::ReportedMessage(_) => MessageContentType::ReportedMessage,
            MessageContent::P2PSwap(_) => MessageContentType::P2PSwap,
            MessageContent::VideoCall(_) => MessageContentType::VideoCall,
            MessageContent::Encrypted(e) => e.content_type.to_content_type(),
            MessageContent::Custom(c) => MessageContentType::Custom(c.kind.clone()),
        }
    }

    /// What a notification says of a crypto transfer: its recipient, with the
    /// recipient's name where the mentioned users hold it, and the transfer.
    pub fn notification_crypto_transfer_details(&self, mentioned: &Vec<User>) -> (r: Option<CryptoTransferDetails>)
        ensures
            match *self {
                MessageContent::Crypto(c) => r is Some && {
                    let d = r->0;
                    &&& d.recipient == c.recipient
                    &&& d.ledger == c.transfer.ledger()
                    &&& d.symbol@ == c.transfer.token_symbol()@
                    &&& d.amount == c.transfer.units()
                    &&& match d.recipient_username {
                        Some(name) => exists|i: int|
                            0 <= i < mentioned@.len() && mentioned@[i].user_id == c.recipient
                                && mentioned@[i].username@ == name@ && (forall|j: int|
                                0 <= j < i ==> mentioned@[j].user_id != c.recipient),
                        None => forall|j: int|
                            0 <= j < mentioned@.len() ==> mentioned@[j].user_id != c.recipient,
                    }
                },
                _ => r is None,
            },
    {
        match self {
            MessageContent::Crypto(c) => {
                let recipient_username = username_of(mentioned, c.recipient);
                Some(
                    CryptoTransferDetails {
                        recipient: c.recipient,
                        recipient_username,
                        ledger: c.transfer.ledger_canister_id(),
                        symbol: c.transfer.token_symbol_string(),
                        amount: c.transfer.amount(),
                    },
                )
            },
            _ => None,
        }
    }
}

impl EncryptedMessageContentType {
    pub fn to_content_type(&self) -> (r: MessageContentType)
        ensures
            same_content_type(r, encrypted_type_as_content_type(*self)),
    {
        match self {
            EncryptedMessageContentType::Text => MessageContentType::Text,
            EncryptedMessageContentType::Image => MessageContentType::Image,
            EncryptedMessageContentType::Video => MessageContentType::Video,
            EncryptedMessageContentType::Audio => MessageContentType::Audio,
            EncryptedMessageContentType::File => MessageContentType::File,
            EncryptedMessageContentType::Crypto => MessageContentType::Crypto,
            EncryptedMessageContentType::Giphy => MessageContentType::Giphy,
            EncryptedMessageContentType::Custom(c) => MessageContentType::Custom(c.clone()),
        }
    }
}

impl MessageContentInitial {
    /// The number of characters of the caption or body; zero where there is none.
    pub fn text_length(&self) -> (r: usize)
        ensures
            r == match initial_content_text(*self) {
                Some(t) => t.len(),
                None => 0,
            },
    {
        match self.text() {
            Some(t) => t.unicode_len(),
            None => 0,
        }
    }

    /// The caption or body of the submitted content.
    pub fn text(&self) -> (r: Option<&str>)
        ensures
            match (r, initial_content_text(*self)) {
                (Some(a), Some(b)) => a@ == b,
                (None, None) => true,
                _ => false,
            },
    {
        match self {
            MessageContentInitial::Text(t) => Some(t.text.as_str()),
            MessageContentInitial::Image(i) => str_of(&i.caption),
            MessageContentInitial::Video(v) => str_of(&v.caption),
            MessageContentInitial::Audio(a) => str_of(&a.caption),
            MessageContentInitial::File(f) => str_of(&f.caption),
            MessageContentInitial::Poll(p) => str_of(&p.config.text),
            MessageContentInitial::Crypto(c) => str_of(&c.caption),
            MessageContentInitial::Giphy(g) => str_of(&g.caption),
            MessageContentInitial::GovernanceProposal(p) => Some(p.proposal.title.as_str()),
            MessageContentInitial::Prize(p) => str_of(&p.caption),
            MessageContentInitial::MessageReminderCreated(r) => str_of(&r.notes),
            MessageContentInitial::MessageReminder(r) => str_of(&r.notes),
            MessageContentInitial::P2PSwap(p) => str_of(&p.caption),
            _ => None,
        }
    }

    /// Whether sending this content moves funds.
    pub fn contains_crypto_transfer(&self) -> (r: bool)
        ensures
            r == (self is Crypto || self is Prize || self is P2PSwap),
    {
        match self {
            MessageContentInitial::Crypto(_) | MessageContentInitial::Prize(_) | MessageContentInitial::P2PSwap(
                _,
            ) => true,
            _ => false,
        }
    }

    /// The transfer that a crypto or prize message still has to make.
    pub fn pending_crypto_transfer(&self) -> (r: Option<&PendingCryptoTransaction>)
        ensures
            r == match *self {
                MessageContentInitial::Crypto(c) => match c.transfer {
                    CryptoTransaction::Pending(p) => Some(&p),
                    _ => None,
                },
                MessageContentInitial::Prize(c) => match c.transfer {
                    CryptoTransaction::Pending(p) => Some(&p),
                    _ => None,
                },
                _ => None,
            },
    {
        let transfer = match self {
            MessageContentInitial::Crypto(c) => &c.transfer,
            MessageContentInitial::Prize(c) => &c.transfer,
            _ => {
                return None;
            },
        };
        match transfer {
            CryptoTransaction::Pending(pending) => Some(pending),
            _ => None,
        }
    }
}

/// The content that submitted content becomes once sent: the same value, but a
/// prize, which starts with all its prizes remaining and no winners.
pub open spec fn sent_content(i: MessageContentInitial, r: MessageContent) -> bool {
    match i {
        MessageContentInitial::Text(c) => r == MessageContent::Text(c),
        MessageContentInitial::Image(c) => r == MessageContent::Image(c),
        MessageContentInitial::Video(c) => r == MessageContent::Video(c),
        MessageContentInitial::Audio(c) => r == MessageContent::Audio(c),
        MessageContentInitial::File(c) => r == MessageContent::File(c),
        MessageContentInitial::Poll(c) => r == MessageContent::Poll(c),
        MessageContentInitial::Crypto(c) => r == MessageContent::Crypto(c),
        MessageContentInitial::Deleted(c) => r == MessageContent::Deleted(c),
        MessageContentInitial::Giphy(c) => r == MessageContent::Giphy(c),
        MessageContentInitial::GovernanceProposal(c) => r == MessageContent::GovernanceProposal(c),
        MessageContentInitial::MessageReminderCreated(c) => r == MessageContent::MessageReminderCreated(c),
        MessageContentInitial::MessageReminder(c) => r == MessageContent::MessageReminder(c),
        MessageContentInitial::Encrypted(c) => r == MessageContent::Encrypted(c),
        MessageContentInitial::Custom(c) => r == MessageContent::Custom(c),
        MessageContentInitial::Prize(p) => match r {
            MessageContent::Prize(q) => {
                &&& q.prizes_remaining == p.prizes_v2@.len() as u32
                &&& q.prizes_pending == 0
                &&& q.winners@.len() == 0
                &&& q.winner_count == 0
                &&& !q.user_is_winner
                &&& q.token_symbol@ == p.transfer.token_symbol()@
                &&& q.ledger == p.transfer.ledger()
                &&& q.end_date == p.end_date
                &&& q.caption == p.caption
                &&& q.diamond_only == p.diamond_only
                &&& q.lifetime_diamond_only == p.lifetime_diamond_only
                &&& q.unique_person_only == p.unique_person_only
                &&& q.streak_only == p.streak_only
                &&& q.requires_captcha == p.requires_captcha
            },
            _ => false,
        },
        MessageContentInitial::P2PSwap(_) => false,
    }
}

impl MessageContentInitial {
    /// The content as it is stored once sent. A swap offer is not converted
    /// here: it gets its swap id and deadline when it is opened.
    pub fn into_content(self) -> (r: MessageContent)
        requires
            !(self is P2PSwap),
        ensures
            sent_content(self, r),
    {
        match self {
            MessageContentInitial::Text(c) => MessageContent::Text(c),
            MessageContentInitial::Image(c) => MessageContent::Image(c),
            MessageContentInitial::Video(c) => MessageContent::Video(c),
            MessageContentInitial::Audio(c) => MessageContent::Audio(c),
            MessageContentInitial::File(c) => MessageContent::File(c),
            MessageContentInitial::Poll(c) => MessageContent::Poll(c),
            MessageContentInitial::Crypto(c) => MessageContent::Crypto(c),
            MessageContentInitial::Deleted(c) => MessageContent::Deleted(c),
            MessageContentInitial::Giphy(c) => MessageContent::Giphy(c),
            MessageContentInitial::GovernanceProposal(c) => MessageContent::GovernanceProposal(c),
            MessageContentInitial::MessageReminderCreated(c) => MessageContent::MessageReminderCreated(c),
            MessageContentInitial::MessageReminder(c) => MessageContent::MessageReminder(c),
            MessageContentInitial::Encrypted(c) => MessageContent::Encrypted(c),
            MessageContentInitial::Custom(c) => MessageContent::Custom(c),
            MessageContentInitial::Prize(c) => {
                let prizes_remaining = c.prizes_v2.len() as u32;
                let token_symbol = c.transfer.token_symbol_string();
                let ledger = c.transfer.ledger_canister_id();
                MessageContent::Prize(
                    PrizeContent {
                        prizes_remaining,
                        prizes_pending: 0,
                        winners: Vec::new(),
                        winner_count: 0,
                        user_is_winner: false,
                        token_symbol,
                        ledger,
                        end_date: c.end_date,
                        caption: c.caption,
                        diamond_only: c.diamond_only,
                        lifetime_diamond_only: c.lifetime_diamond_only,
                        unique_person_only: c.unique_person_only,
                        streak_only: c.streak_only,
                        requires_captcha: c.requires_captcha,
                    },
                )
            },
            MessageContentInitial::P2PSwap(_) => {
                proof {
                    assert(false);
                }
                MessageContent::Custom(CustomContent { kind: String::new(), data: Vec::new() })
            },
        }
    }
}

/// The name of a kind, as it is written out; a custom kind by its own name.
pub open spec fn content_type_name(t: MessageContentType) -> Seq<char> {
    match t {
        MessageContentType::Text => "Text"@,
        MessageContentType::Image => "Image"@,
        MessageContentType::Video => "Video"@,
        MessageContentType::Audio => "Audio"@,
        MessageContentType::File => "File"@,
        MessageContentType::Poll => "Poll"@,
        MessageContentType::Crypto => "Crypto"@,
        MessageContentType::Deleted => "Deleted"@,
        MessageContentType::Giphy => "Giphy"@,
        MessageContentType::GovernanceProposal => "GovernanceProposal"@,
        MessageContentType::Prize => "Prize"@,
        MessageContentType::PrizeWinner => "PrizeWinner"@,
        MessageContentType::MessageReminderCreated => "MessageReminderCreated"@,
        MessageContentType::MessageReminder => "MessageReminder"@,
        MessageContentType::ReportedMessage => "ReportedMessage"@,
        MessageContentType::P2PSwap => "P2PSwap"@,
        MessageContentType::VideoCall => "VideoCall"@,
        MessageContentType::Custom(c) => c@,
    }
}

impl MessageContentType {
    /// The name of the kind.
    pub fn name(&self) -> (r: &str)
        ensures
            r@ == content_type_name(*self),
    {
        match self {
            MessageContentType::Text => "Text",
            MessageContentType::Image => "Image",
            MessageContentType::Video => "Video",
            MessageContentType::Audio => "Audio",
            MessageContentType::File => "File",
            MessageContentType::Poll => "Poll",
            MessageContentType::Crypto => "Crypto",
            MessageContentType::Deleted => "Deleted",
            MessageContentType::Giphy => "Giphy",
            MessageContentType::GovernanceProposal => "GovernanceProposal",
            MessageContentType::Prize => "Prize",
            MessageContentType::PrizeWinner => "PrizeWinner",
            MessageContentType::MessageReminderCreated => "MessageReminderCreated",
            MessageContentType::MessageReminder => "MessageReminder",
            MessageContentType::ReportedMessage => "ReportedMessage",
            MessageContentType::P2PSwap => "P2PSwap",
            MessageContentType::VideoCall => "VideoCall",
            MessageContentType::Custom(c) => c.as_str(),
        }
    }
}

/// The achievement that sending a message of a kind earns.
pub open spec fn achievement_of(t: MessageContentType) -> Option<Achievement> {
    match t {
        MessageContentType::Text => Some(Achievement::SentText),
        MessageContentType::Image => Some(Achievement::SentImage),
        MessageContentType::Video => Some(Achievement::SentVideo),
        MessageContentType::Audio => Some(Achievement::SentAudio),
        MessageContentType::File => Some(Achievement::SentFile),
        MessageContentType::Poll => Some(Achievement::SentPoll),
        MessageContentType::Crypto => Some(Achievement::SentCrypto),
        MessageContentType::Deleted => Some(Achievement::DeletedMessage),
        MessageContentType::Giphy => Some(Achievement::SentGiphy),
        MessageContentType::GovernanceProposal => None,
        MessageContentType::Prize => Some(Achievement::SentPrize),
        MessageContentType::PrizeWinner => None,
        MessageContentType::MessageReminderCreated => Some(Achievement::SentReminder),
        MessageContentType::MessageReminder => Some(Achievement::SentReminder),
        MessageContentType::ReportedMessage => None,
        MessageContentType::P2PSwap => Some(Achievement::SentP2PSwapOffer),
        MessageContentType::VideoCall => Some(Achievement::StartedCall),
        MessageContentType::Custom(c) => if c@ == MEME_KIND@ {
            Some(Achievement::SentMeme)
        } else {
            None
        },
    }
}

/// The custom kind of a meme message.
pub const MEME_KIND: &'static str = "meme_fighter";

fn is_meme_kind(s: &String) -> (r: bool)
    ensures
        r == (s@ == MEME_KIND@),
{
    proof {
        reveal_strlit("meme_fighter");
    }
    let b = s.as_str();
    let m = MEME_KIND;
    if b.unicode_len() != m.unicode_len() {
        return false;
    }
    let n = b.unicode_len();
    let mut i: usize = 0;
    while i < n
        invariant
            0 <= i <= n,
            n == b@.len(),
            n == m@.len(),
            b@ == s@,
            m@ == MEME_KIND@,
            forall|j: int| 0 <= j < i ==> b@[j] == m@[j],
        decreases n - i,
    {
        if b.get_char(i) != m.get_char(i) {
            return false;
        }
        i = i + 1;
    }
    proof {
        assert(b@ =~= m@);
    }
    true
}

impl MessageContentType {
    pub fn achievement(&self) -> (r: Option<Achievement>)
        ensures
            r == achievement_of(*self),
    {
        match self {
            MessageContentType::Text => Some(Achievement::SentText),
            MessageContentType::Image => Some(Achievement::SentImage),
            MessageContentType::Video => Some(Achievement::SentVideo),
            MessageContentType::Audio => Some(Achievement::SentAudio),
            MessageContentType::File => Some(Achievement::SentFile),
            MessageContentType::Poll => Some(Achievement::SentPoll),
            MessageContentType::Crypto => Some(Achievement::SentCrypto),
            MessageContentType::Deleted => Some(Achievement::DeletedMessage),
            MessageContentType::Giphy => Some(Achievement::SentGiphy),
            MessageContentType::GovernanceProposal => None,
            MessageContentType::Prize => Some(Achievement::SentPrize),
            MessageContentType::PrizeWinner => None,
            MessageContentType::MessageReminderCreated => Some(Achievement::SentReminder),
            MessageContentType::MessageReminder => Some(Achievement::SentReminder),
            MessageContentType::ReportedMessage => None,
            MessageContentType::P2PSwap => Some(Achievement::SentP2PSwapOffer),
            MessageContentType::VideoCall => Some(Achievement::StartedCall),
            MessageContentType::Custom(c) => {
                if is_meme_kind(c) {
                    Some(Achievement::SentMeme)
                } else {
                    None
                }
            },
        }
    }
}

#[derive(Clone, Copy, Debug, PartialEq, Eq, Structural)]
pub enum Achievement {
    SentText,
    SentImage,
    SentVideo,
    SentAudio,
    SentFile,
    SentPoll,
    SentCrypto,
    DeletedMessage,
    SentGiphy,
    SentPrize,
    SentReminder,
    SentP2PSwapOffer,
    StartedCall,
    SentMeme,
}

#[derive(Clone, Debug)]
pub struct User {
    pub user_id: UserId,
    pub username: String,
}

#[derive(Clone, Debug)]
pub struct CryptoTransferDetails {
    pub recipient: UserId,
    pub recipient_username: Option<String>,
    pub ledger: CanisterId,
    pub symbol: String,
    pub amount: u128,
}

#[derive(Clone, Debug)]
pub struct TextContent {
    pub text: String,
}

#[derive(Clone, Debug)]
pub struct ImageContent {
    pub width: u32,
    pub height: u32,
    pub thumbnail_data: ThumbnailData,
    pub caption: Option<String>,
    pub mime_type: String,
    pub blob_reference: Option<BlobReference>,
}

#[derive(Clone, Debug)]
pub struct GiphyImageVariant {
    pub width: u32,
    pub height: u32,
    pub url: String,
    pub mime_type: String,
}

#[derive(Clone, Debug)]
pub struct GiphyContent {
    pub caption: Option<String>,
    pub title: String,
    pub desktop: GiphyImageVariant,
    pub mobile: GiphyImageVariant,
}

#[derive(Clone, Debug)]
pub struct VideoContent {
    pub width: u32,
    pub height: u32,
    pub thumbnail_data: ThumbnailData,
    pub caption: Option<String>,
    pub mime_type: String,
    pub image_blob_reference: Option<BlobReference>,
    pub video_blob_reference: Option<BlobReference>,
}

#[derive(Clone, Debug)]
pub struct AudioContent {
    pub caption: Option<String>,
    pub mime_type: String,
    pub blob_reference: Option<BlobReference>,
}

#[derive(Clone, Debug)]
pub struct FileContent {
    pub name: String,
    pub caption: Option<String>,
    pub mime_type: String,
    pub file_size: u32,
    pub blob_reference: Option<BlobReference>,
}

#[derive(Clone, Debug)]
pub struct PollConfig {
    pub text: Option<String>,
    pub options: Vec<String>,
    pub end_date: Option<TimestampMillis>,
    pub anonymous: bool,
    pub show_votes_before_end_date: bool,
    pub allow_multiple_votes_per_user: bool,
    pub allow_user_to_change_vote: bool,
}

/// Votes per option, in the form that the poll's settings allow readers to see.
#[derive(Clone, Debug)]
pub enum TotalVotes {
    Visible(Vec<(u32, Vec<UserId>)>),
    Anonymous(Vec<(u32, u32)>),
    Hidden(u32),
}

#[derive(Clone, Debug)]
pub struct PollVotes {
    pub total: TotalVotes,
    pub user: Vec<u32>,
}

#[derive(Clone, Debug)]
pub struct PollContent {
    pub config: PollConfig,
    pub votes: PollVotes,
    pub ended: bool,
}

impl PollContent {
    /// Clears the votes, choosing how totals are kept from the poll's settings:
    /// hidden until the end date if one is set and votes are not shown before it,
    /// else anonymous or visible.
    pub fn initialize_votes(&mut self)
        ensures
            final(self).config == old(self).config,
            final(self).ended == old(self).ended,
            final(self).votes.user@.len() == 0,
            match final(self).votes.total {
                TotalVotes::Hidden(n) => n == 0 && old(self).config.end_date is Some
                    && !old(self).config.show_votes_before_end_date,
                TotalVotes::Anonymous(v) => v@.len() == 0 && !(old(self).config.end_date is Some
                    && !old(self).config.show_votes_before_end_date) && old(self).config.anonymous,
                TotalVotes::Visible(v) => v@.len() == 0 && !(old(self).config.end_date is Some
                    && !old(self).config.show_votes_before_end_date) && !old(self).config.anonymous,
            },
    {
        let total_votes: TotalVotes;
        if self.config.end_date.is_some() && !self.config.show_votes_before_end_date {
            total_votes = TotalVotes::Hidden(0);
        } else if self.config.anonymous {
            total_votes = TotalVotes::Anonymous(Vec::new());
        } else {
            total_votes = TotalVotes::Visible(Vec::new());
        }
        self.votes = PollVotes { total: total_votes, user: Vec::new() };
    }
}

#[derive(Clone, Copy, Debug, PartialEq, Eq)]
pub enum RegisterVoteResult {
    Success(bool),
    SuccessNoChange,
    PollEnded,
    UserCannotChangeVote,
    OptionIndexOutOfRange,
}

#[derive(Clone, Debug)]
pub struct PendingCryptoTransaction {
    pub ledger: CanisterId,
    pub token_symbol: String,
    pub amount: u128,
    pub to: UserId,
    pub memo: Option<Vec<u8>>,
    pub created: TimestampMillis,
}

#[derive(Clone, Debug)]
pub struct CompletedCryptoTransaction {
    pub ledger: CanisterId,
    pub token_symbol: String,
    pub amount: u128,
    pub to: UserId,
    pub block_index: u64,
}

#[derive(Clone, Debug)]
pub struct FailedCryptoTransaction {
    pub ledger: CanisterId,
    pub token_symbol: String,
    pub amount: u128,
    pub to: UserId,
    pub error_message: String,
}

/// A transfer of tokens, before or after it was made.
#[derive(Clone, Debug)]
pub enum CryptoTransaction {
    Pending(PendingCryptoTransaction),
    Completed(CompletedCryptoTransaction),
    Failed(FailedCryptoTransaction),
}

impl CryptoTransaction {
    pub open spec fn ledger(self) -> CanisterId {
        match self {
            CryptoTransaction::Pending(t) => t.ledger,
            CryptoTransaction::Completed(t) => t.ledger,
            CryptoTransaction::Failed(t) => t.ledger,
        }
    }

    pub open spec fn token_symbol(self) -> String {
        match self {
            CryptoTransaction::Pending(t) => t.token_symbol,
            CryptoTransaction::Completed(t) => t.token_symbol,
            CryptoTransaction::Failed(t) => t.token_symbol,
        }
    }

    pub open spec fn units(self) -> u128 {
        match self {
            CryptoTransaction::Pending(t) => t.amount,
            CryptoTransaction::Completed(t) => t.amount,
            CryptoTransaction::Failed(t) => t.amount,
        }
    }

    pub fn ledger_canister_id(&self) -> (r: CanisterId)
        ensures
            r == self.ledger(),
    {
        match self {
            CryptoTransaction::Pending(t) => t.ledger,
            CryptoTransaction::Completed(t) => t.ledger,
            CryptoTransaction::Failed(t) => t.ledger,
        }
    }

    pub fn token_symbol_string(&self) -> (r: String)
        ensures
            r@ == self.token_symbol()@,
    {
        match self {
            CryptoTransaction::Pending(t) => t.token_symbol.clone(),
            CryptoTransaction::Completed(t) => t.token_symbol.clone(),
            CryptoTransaction::Failed(t) => t.token_symbol.clone(),
        }
    }

    pub fn amount(&self) -> (r: u128)
        ensures
            r == self.units(),
    {
        match self {
            CryptoTransaction::Pending(t) => t.amount,
            CryptoTransaction::Completed(t) => t.amount,
            CryptoTransaction::Failed(t) => t.amount,
        }
    }

    pub fn is_pending(&self) -> (r: bool)
        ensures
            r == self is Pending,
    {
        match self {
            CryptoTransaction::Pending(_) => true,
            _ => false,
        }
    }
}

#[derive(Clone, Debug)]
pub struct CryptoContent {
    pub recipient: UserId,
    pub transfer: CryptoTransaction,
    pub caption: Option<String>,
}

#[derive(Clone, Debug)]
pub struct ProposalSummary {
    pub id: u64,
    pub title: String,
    pub summary: String,
}

#[derive(Clone, Debug)]
pub struct ProposalContent {
    pub governance_canister_id: CanisterId,
    pub proposal: ProposalSummary,
    pub my_vote: Option<bool>,
}

#[derive(Clone, Debug)]
pub struct PrizeContentInitial {
    pub prizes_v2: Vec<u128>,
    pub transfer: CryptoTransaction,
    pub end_date: TimestampMillis,
    pub caption: Option<String>,
    pub diamond_only: bool,
    pub lifetime_diamond_only: bool,
    pub unique_person_only: bool,
    pub streak_only: u16,
    pub requires_captcha: bool,
}

#[derive(Clone, Debug)]
pub struct PrizeContent {
    pub prizes_remaining: u32,
    pub prizes_pending: u32,
    pub winners: Vec<UserId>,
    pub winner_count: u32,
    pub user_is_winner: bool,
    pub token_symbol: String,
    pub ledger: CanisterId,
    pub end_date: TimestampMillis,
    pub caption: Option<String>,
    pub diamond_only: bool,
    pub lifetime_diamond_only: bool,
    pub unique_person_only: bool,
    pub streak_only: u16,
    pub requires_captcha: bool,
}

#[derive(Clone, Debug)]
pub struct PrizeWinnerContent {
    pub winner: UserId,
    pub transaction: CompletedCryptoTransaction,
    pub prize_message: MessageIndex,
}

#[derive(Clone, Debug)]
pub struct MessageReminderCreatedContent {
    pub reminder_id: u64,
    pub remind_at: TimestampMillis,
    pub notes: Option<String>,
    pub hidden: bool,
}

#[derive(Clone, Debug)]
pub struct MessageReminderContent {
    pub reminder_id: u64,
    pub notes: Option<String>,
}

#[derive(Clone, Debug)]
pub struct ReportedMessage {
    pub reports: Vec<MessageReport>,
    pub count: u32,
}

#[derive(Clone, Debug)]
pub struct MessageReport {
    pub reported_by: UserId,
    pub timestamp: TimestampMillis,
    pub reason_code: u32,
    pub notes: Option<String>,
}

#[derive(Clone, Debug)]
pub struct TokenInfo {
    pub symbol: String,
    pub ledger: CanisterId,
    pub decimals: u8,
    pub fee: u128,
}

#[derive(Clone, Debug)]
pub struct P2PSwapContentInitial {
    pub token0: TokenInfo,
    pub token0_amount: u128,
    pub token1: TokenInfo,
    pub token1_amount: u128,
    pub expires_in: Milliseconds,
    pub caption: Option<String>,
}

/// Where a swap offer stands.
#[derive(Clone, Copy, Debug, PartialEq, Eq, Structural)]
pub enum P2PSwapStatus {
    Open,
    Reserved(UserId),
    Completed(UserId),
    Cancelled,
    Expired,
}

#[derive(Clone, Debug)]
pub struct P2PSwapContent {
    pub swap_id: u32,
    pub token0: TokenInfo,
    pub token0_amount: u128,
    pub token1: TokenInfo,
    pub token1_amount: u128,
    pub expires_at: TimestampMillis,
    pub caption: Option<String>,
    pub token0_txn_in: u64,
    pub status: P2PSwapStatus,
}

#[derive(Clone, Copy, Debug, PartialEq, Eq)]
pub enum VideoCallType {
    Broadcast,
    Default,
}

#[derive(Clone, Debug)]
pub struct VideoCallContentInitial {
    pub initiator: UserId,
}

#[derive(Clone, Debug)]
pub struct VideoCallContent {
    pub call_type: VideoCallType,
    pub ended: Option<TimestampMillis>,
    pub participants: Vec<CallParticipant>,
    pub hidden_participants: u32,
}

#[derive(Clone, Copy, Debug, PartialEq, Eq)]
pub struct CallParticipant {
    pub user_id: UserId,
    pub joined: TimestampMillis,
}

#[derive(Clone, Debug)]
pub struct EncryptedContent {
    pub content_type: EncryptedMessageContentType,
    pub version: u32,
    pub encrypted_message_key: Vec<u8>,
    pub public_key: Vec<u8>,
    pub encrypted_data: Vec<u8>,
}

#[derive(Clone, Debug)]
pub struct CustomContent {
    pub kind: String,
    pub data: Vec<u8>,
}

#[derive(Clone, Copy, Debug, PartialEq, Eq, Structural)]
pub struct DeletedBy {
    pub deleted_by: UserId,
    pub timestamp: TimestampMillis,
}

/// A file held by a storage canister.
#[derive(Clone, Copy, Debug, PartialEq, Eq, Structural)]
pub struct BlobReference {
    pub canister_id: CanisterId,
    pub blob_id: u128,
}

/// The decimal digit with the given value.
pub open spec fn digit_char(d: int) -> char {
    seq!['0', '1', '2', '3', '4', '5', '6', '7', '8', '9'][d]
}

/// A number written in decimal, without leading zeros.
pub open spec fn decimal(n: nat) -> Seq<char>
    decreases n,
{
    if n < 10 {
        seq![digit_char(n as int)]
    } else {
        decimal(n / 10).push(digit_char((n % 10) as int))
    }
}

/// The public address of a stored file: the storage canister's id and the
/// file's id, in decimal, in a fixed frame.
pub open spec fn blob_url_of(canister_id: CanisterId, blob_id: u128) -> Seq<char> {
    "https://"@ + decimal(canister_id as nat) + ".raw.icp0.io/files/"@ + decimal(blob_id as nat)
}

fn push_decimal(s: &mut String, n: u128)
    ensures
        final(s)@ == old(s)@ + decimal(n as nat),
    decreases n,
{
    if n >= 10 {
        push_decimal(s, n / 10);
    }
    let digits = "0123456789";
    proof {
        reveal_strlit("0123456789");
    }
    let c = digits.get_char((n % 10) as usize);
    assert(c == digit_char((n % 10) as int));
    crate::codec::push_char(s, c);
    proof {
        if n >= 10 {
            assert(decimal(n as nat) == decimal((n / 10) as nat).push(digit_char((n % 10) as int)));
        }
        assert(final(s)@ =~= old(s)@ + decimal(n as nat));
    }
}

fn push_text(s: &mut String, t: &str)
    ensures
        final(s)@ == old(s)@ + t@,
{
    let n = t.unicode_len();
    let mut i: usize = 0;
    while i < n
        invariant
            0 <= i <= n,
            n == t@.len(),
            s@ == old(s)@ + t@.subrange(0, i as int),
        decreases n - i,
    {
        crate::codec::push_char(s, t.get_char(i));
        proof {
            assert(s@ =~= old(s)@ + t@.subrange(0, i + 1));
        }
        i = i + 1;
    }
    proof {
        assert(t@.subrange(0, n as int) =~= t@);
    }
}

impl BlobReference {
    /// The public address of the file.
    pub fn url(&self) -> (r: String)
        ensures
            r@ == blob_url_of(self.canister_id, self.blob_id),
    {
        let mut s = String::new();
        push_text(&mut s, "https://");
        push_decimal(&mut s, self.canister_id as u128);
        push_text(&mut s, ".raw.icp0.io/files/");
        push_decimal(&mut s, self.blob_id);
        proof {
            assert(s@ =~= blob_url_of(self.canister_id, self.blob_id));
        }
        s
    }
}

#[derive(Clone, Debug)]
pub struct ThumbnailData(pub String);

} // verus!
