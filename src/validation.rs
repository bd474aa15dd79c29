use crate::ids::TimestampMillis;
use crate::message_content::{
    initial_content_text, ContentValidationError, CryptoTransaction, InvalidPollReason, MessageContentInitial,
    PollConfig, MAX_TEXT_LENGTH,
};
use vstd::prelude::*;
use vstd::string::StrSliceExecFns;

verus! {

/// The fewest options a poll may offer.
pub const MIN_POLL_OPTIONS: usize = 2;

/// The most options a poll may offer.
pub const MAX_POLL_OPTIONS: usize = 10;

/// The longest poll option, in characters.
pub const MAX_POLL_OPTION_LENGTH: usize = 200;

/// Content that may be forwarded from another chat: plain media and text.
pub open spec fn forwardable(c: MessageContentInitial) -> bool {
    c is Text || c is Image || c is Video || c is Audio || c is File || c is Giphy
}

pub open spec fn has_duplicate_options(options: Seq<String>) -> bool {
    exists|i: int, j: int| 0 <= i < j < options.len() && #[trigger] options[i]@ == #[trigger] options[j]@
}

/// What is wrong with a poll's settings, checked in this order.
pub open spec fn poll_problem(config: PollConfig, now: TimestampMillis) -> Option<InvalidPollReason> {
    if config.options@.len() < MIN_POLL_OPTIONS {
        Some(InvalidPollReason::TooFewOptions)
    } else if config.options@.len() > MAX_POLL_OPTIONS {
        Some(InvalidPollReason::TooManyOptions)
    } else if exists|i: int|
        0 <= i < config.options@.len() && #[trigger] config.options@[i]@.len() > MAX_POLL_OPTION_LENGTH {
        Some(InvalidPollReason::OptionTooLong)
    } else if has_duplicate_options(config.options@) {
        Some(InvalidPollReason::DuplicateOptions)
    } else if config.end_date is Some && config.end_date->0 < now {
        Some(InvalidPollReason::EndDateInThePast)
    } else {
        None
    }
}

/// What is wrong with a transfer to be made with a message.
pub open spec fn transfer_problem(t: CryptoTransaction) -> Option<ContentValidationError> {
    match t {
        CryptoTransaction::Pending(p) => if p.amount == 0 {
            Some(ContentValidationError::TransferCannotBeZero)
        } else {
            None
        },
        _ => Some(ContentValidationError::TransferMustBePending),
    }
}

/// The content has nothing to show: empty text, or media without its file.
pub open spec fn content_is_empty(c: MessageContentInitial) -> bool {
    match c {
        MessageContentInitial::Text(t) => t.text@.len() == 0,
        MessageContentInitial::Image(i) => i.blob_reference is None,
        MessageContentInitial::Video(v) => v.video_blob_reference is None,
        MessageContentInitial::Audio(a) => a.blob_reference is None,
        MessageContentInitial::File(f) => f.blob_reference is None,
        _ => false,
    }
}

/// The outcome of validating submitted content at `now`: forwarding first, then
/// the rules of the content's kind, then emptiness, then the length of its text.
pub open spec fn validation_result(c: MessageContentInitial, forwarding: bool, now: TimestampMillis) -> Result<
    (),
    ContentValidationError,
> {
    if forwarding && !forwardable(c) {
        Err(ContentValidationError::InvalidTypeForForwarding)
    } else {
        let kind_problem: Option<ContentValidationError> = match c {
            MessageContentInitial::Deleted(_) => Some(ContentValidationError::Unauthorized),
            MessageContentInitial::Poll(p) => match poll_problem(p.config, now) {
                Some(r) => Some(ContentValidationError::InvalidPoll(r)),
                None => None,
            },
            MessageContentInitial::Crypto(cc) => transfer_problem(cc.transfer),
            MessageContentInitial::Prize(p) => match transfer_problem(p.transfer) {
                Some(e) => Some(e),
                None => if p.end_date <= now {
                    Some(ContentValidationError::PrizeEndDateInThePast)
                } else {
                    None
                },
            },
            _ => None,
        };
        match kind_problem {
            Some(e) => Err(e),
            None => if content_is_empty(c) {
                Err(ContentValidationError::Empty)
            } else if match initial_content_text(c) {
                Some(t) => t.len() > MAX_TEXT_LENGTH,
                None => false,
            } {
                Err(ContentValidationError::TextTooLong(MAX_TEXT_LENGTH))
            } else {
                Ok(())
            },
        }
    }
}

fn check_poll(config: &PollConfig, now: TimestampMillis) -> (r: Option<InvalidPollReason>)
    ensures
        r == poll_problem(*config, now),
{
    let n = config.options.len();
    if n < MIN_POLL_OPTIONS {
        return Some(InvalidPollReason::TooFewOptions);
    }
    if n > MAX_POLL_OPTIONS {
        return Some(InvalidPollReason::TooManyOptions);
    }
    let mut i: usize = 0;
    while i < n
        invariant
            0 <= i <= n,
            n == config.options@.len(),
            MIN_POLL_OPTIONS <= n <= MAX_POLL_OPTIONS,
            forall|k: int| 0 <= k < i ==> #[trigger] config.options@[k]@.len() <= MAX_POLL_OPTION_LENGTH,
        decreases n - i,
    {
        let option_length = config.options[i].as_str().unicode_len();
        if option_length > MAX_POLL_OPTION_LENGTH {
            assert(config.options@[i as int]@.len() > MAX_POLL_OPTION_LENGTH);
            assert(exists|k: int|
                0 <= k < config.options@.len() && #[trigger] config.options@[k]@.len() > MAX_POLL_OPTION_LENGTH);
            return Some(InvalidPollReason::OptionTooLong);
        }
        i = i + 1;
    }
    assert(!(exists|k: int|
        0 <= k < config.options@.len() && #[trigger] config.options@[k]@.len() > MAX_POLL_OPTION_LENGTH));
    let mut a: usize = 0;
    while a < n
        invariant
            0 <= a <= n,
            n == config.options@.len(),
            MIN_POLL_OPTIONS <= n <= MAX_POLL_OPTIONS,
            forall|x: int, y: int| 0 <= x < y < config.options@.len() && x < a ==> #[trigger] config.options@[x]@ != #[trigger] config.options@[y]@,
            !(exists|k: int|
                0 <= k < config.options@.len() && #[trigger] config.options@[k]@.len() > MAX_POLL_OPTION_LENGTH),
        decreases n - a,
    {
        let mut b: usize = a + 1;
        while b < n
            invariant
                a < b <= n,
                n == config.options@.len(),
                MIN_POLL_OPTIONS <= n <= MAX_POLL_OPTIONS,
            MIN_POLL_OPTIONS <= n <= MAX_POLL_OPTIONS,
                forall|x: int, y: int| 0 <= x < y < config.options@.len() && x < a ==> #[trigger] config.options@[x]@ != #[trigger] config.options@[y]@,
                forall|y: int| a < y < b ==> config.options@[a as int]@ != #[trigger] config.options@[y]@,
                !(exists|k: int|
                    0 <= k < config.options@.len() && #[trigger] config.options@[k]@.len() > MAX_POLL_OPTION_LENGTH),
            decreases n - b,
        {
            if config.options[a] == config.options[b] {
                assert(config.options@[a as int]@ == config.options@[b as int]@);
                assert(has_duplicate_options(config.options@));
                return Some(InvalidPollReason::DuplicateOptions);
            }
            b = b + 1;
        }
        a = a + 1;
    }
    match config.end_date {
        Some(d) => {
            if d < now {
                return Some(InvalidPollReason::EndDateInThePast);
            }
        },
        None => {},
    }
    None
}

fn check_transfer(t: &CryptoTransaction) -> (r: Option<ContentValidationError>)
    ensures
        r == transfer_problem(*t),
{
    match t {
        CryptoTransaction::Pending(p) => {
            if p.amount == 0 {
                Some(ContentValidationError::TransferCannotBeZero)
            } else {
                None
            }
        },
        _ => Some(ContentValidationError::TransferMustBePending),
    }
}

fn is_empty_content(c: &MessageContentInitial) -> (r: bool)
    ensures
        r == content_is_empty(*c),
{
    match c {
        MessageContentInitial::Text(t) => t.text.as_str().unicode_len() == 0,
        MessageContentInitial::Image(i) => i.blob_reference.is_none(),
        MessageContentInitial::Video(v) => v.video_blob_reference.is_none(),
        MessageContentInitial::Audio(a) => a.blob_reference.is_none(),
        MessageContentInitial::File(f) => f.blob_reference.is_none(),
        _ => false,
    }
}

impl MessageContentInitial {
    /// Checks content submitted at `now` before it is sent; `forwarding` where it
    /// is forwarded from another chat.
    pub fn validate_for_new_message(&self, forwarding: bool, now: TimestampMillis) -> (r: Result<
        (),
        ContentValidationError,
    >)
        ensures
            r == validation_result(*self, forwarding, now),
    {
        let can_forward = match self {
            MessageContentInitial::Text(_)
            | MessageContentInitial::Image(_)
            | MessageContentInitial::Video(_)
            | MessageContentInitial::Audio(_)
            | MessageContentInitial::File(_)
            | MessageContentInitial::Giphy(_) => true,
            _ => false,
        };
        if forwarding && !can_forward {
            return Err(ContentValidationError::InvalidTypeForForwarding);
        }
        let kind_problem = match self {
            MessageContentInitial::Deleted(_) => Some(ContentValidationError::Unauthorized),
            MessageContentInitial::Poll(p) => match check_poll(&p.config, now) {
                Some(r) => Some(ContentValidationError::InvalidPoll(r)),
                None => None,
            },
            MessageContentInitial::Crypto(c) => check_transfer(&c.transfer),
            MessageContentInitial::Prize(p) => match check_transfer(&p.transfer) {
                Some(e) => Some(e),
                None => {
                    if p.end_date <= now {
                        Some(ContentValidationError::PrizeEndDateInThePast)
                    } else {
                        None
                    }
                },
            },
            _ => None,
        };
        if let Some(e) = kind_problem {
            return Err(e);
        }
        if is_empty_content(self) {
            return Err(ContentValidationError::Empty);
        }
        if self.text_length() > MAX_TEXT_LENGTH as usize {
            return Err(ContentValidationError::TextTooLong(MAX_TEXT_LENGTH));
        }
        Ok(())
    }
}

} // verus!
