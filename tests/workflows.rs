use chat_events::queries::{add_community_members_to_channel_if_public, check_replica_up_to_date};
use chat_events::codec::{decode_content_type, encode_content_type};
use chat_events::group_import::{
    next_batch, GroupBeingImported, GroupToImport, GroupToImportAction, ImportOutcome, ImportPhase, ImportStep,
};
use chat_events::message_content::{
    ContentValidationError, CryptoContent, CryptoTransaction, CompletedCryptoTransaction, FileContent,
    InvalidPollReason, MessageContent, MessageContentInitial, MessageContentType, PendingCryptoTransaction,
    PollConfig, PollContent, PollVotes, PrizeContentInitial, TextContent, TotalVotes, DeletedBy, ProposalContent,
    ProposalSummary, P2PSwapContent, P2PSwapStatus, TokenInfo, BlobReference,
};
use chat_events::jobs::{CancelP2PSwapInEscrowCanisterJob, HardDeleteMessageContentJob};

fn pending(amount: u128) -> CryptoTransaction {
    CryptoTransaction::Pending(PendingCryptoTransaction {
        ledger: 5,
        token_symbol: "CHAT".to_string(),
        amount,
        to: 8,
        memo: None,
        created: 1,
    })
}

fn poll(options: &[&str], end_date: Option<u64>) -> MessageContentInitial {
    MessageContentInitial::Poll(PollContent {
        config: PollConfig {
            text: Some("q".to_string()),
            options: options.iter().map(|o| o.to_string()).collect(),
            end_date,
            anonymous: false,
            show_votes_before_end_date: true,
            allow_multiple_votes_per_user: false,
            allow_user_to_change_vote: true,
        },
        votes: PollVotes { total: TotalVotes::Hidden(0), user: Vec::new() },
        ended: false,
    })
}

fn prize(amount: u128, end_date: u64) -> MessageContentInitial {
    MessageContentInitial::Prize(PrizeContentInitial {
        prizes_v2: vec![1, 2, 3],
        transfer: pending(amount),
        end_date,
        caption: Some("win".to_string()),
        diamond_only: false,
        lifetime_diamond_only: false,
        unique_person_only: false,
        streak_only: 0,
        requires_captcha: true,
    })
}

#[test]
fn text_validation() {
    let ok = MessageContentInitial::Text(TextContent { text: "hi".to_string() });
    assert_eq!(ok.validate_for_new_message(false, 0), Ok(()));
    assert_eq!(ok.validate_for_new_message(true, 0), Ok(()));
    let empty = MessageContentInitial::Text(TextContent { text: String::new() });
    assert_eq!(empty.validate_for_new_message(false, 0), Err(ContentValidationError::Empty));
    let at_limit = MessageContentInitial::Text(TextContent { text: "a".repeat(10000) });
    assert_eq!(at_limit.validate_for_new_message(false, 0), Ok(()));
    let long = MessageContentInitial::Text(TextContent { text: "a".repeat(10001) });
    assert_eq!(long.validate_for_new_message(false, 0), Err(ContentValidationError::TextTooLong(10000)));
}

#[test]
fn file_without_blob_is_empty() {
    let f = MessageContentInitial::File(FileContent {
        name: "f".to_string(),
        caption: None,
        mime_type: String::new(),
        file_size: 1,
        blob_reference: None,
    });
    assert_eq!(f.validate_for_new_message(false, 0), Err(ContentValidationError::Empty));
}

#[test]
fn poll_validation() {
    assert_eq!(poll(&["a", "b"], None).validate_for_new_message(false, 10), Ok(()));
    assert_eq!(
        poll(&["a"], None).validate_for_new_message(false, 10),
        Err(ContentValidationError::InvalidPoll(InvalidPollReason::TooFewOptions))
    );
    let eleven = ["1", "2", "3", "4", "5", "6", "7", "8", "9", "10", "11"];
    assert_eq!(
        poll(&eleven, None).validate_for_new_message(false, 10),
        Err(ContentValidationError::InvalidPoll(InvalidPollReason::TooManyOptions))
    );
    let long = "x".repeat(201);
    assert_eq!(
        poll(&["a", &long], None).validate_for_new_message(false, 10),
        Err(ContentValidationError::InvalidPoll(InvalidPollReason::OptionTooLong))
    );
    assert_eq!(
        poll(&["a", "b", "a"], None).validate_for_new_message(false, 10),
        Err(ContentValidationError::InvalidPoll(InvalidPollReason::DuplicateOptions))
    );
    assert_eq!(
        poll(&["a", "b"], Some(5)).validate_for_new_message(false, 10),
        Err(ContentValidationError::InvalidPoll(InvalidPollReason::EndDateInThePast))
    );
    assert_eq!(
        poll(&["a", "b"], None).validate_for_new_message(true, 10),
        Err(ContentValidationError::InvalidTypeForForwarding)
    );
}

#[test]
fn transfer_validation() {
    let zero = MessageContentInitial::Crypto(CryptoContent { recipient: 1, transfer: pending(0), caption: None });
    assert_eq!(zero.validate_for_new_message(false, 0), Err(ContentValidationError::TransferCannotBeZero));
    let done = MessageContentInitial::Crypto(CryptoContent {
        recipient: 1,
        transfer: CryptoTransaction::Completed(CompletedCryptoTransaction {
            ledger: 5,
            token_symbol: "CHAT".to_string(),
            amount: 4,
            to: 1,
            block_index: 3,
        }),
        caption: None,
    });
    assert_eq!(done.validate_for_new_message(false, 0), Err(ContentValidationError::TransferMustBePending));
    assert_eq!(prize(10, 100).validate_for_new_message(false, 50), Ok(()));
    assert_eq!(prize(10, 100).validate_for_new_message(false, 100), Err(ContentValidationError::PrizeEndDateInThePast));
    assert_eq!(prize(0, 100).validate_for_new_message(false, 50), Err(ContentValidationError::TransferCannotBeZero));
    let deleted = MessageContentInitial::Deleted(DeletedBy { deleted_by: 1, timestamp: 2 });
    assert_eq!(deleted.validate_for_new_message(false, 0), Err(ContentValidationError::Unauthorized));
}

#[test]
fn prize_becomes_open_prize_content() {
    match prize(10, 100).into_content() {
        MessageContent::Prize(p) => {
            assert_eq!(p.prizes_remaining, 3);
            assert_eq!(p.winner_count, 0);
            assert!(p.winners.is_empty());
            assert_eq!(p.token_symbol, "CHAT");
            assert_eq!(p.ledger, 5);
            assert_eq!(p.end_date, 100);
            assert!(p.requires_captcha);
        }
        other => panic!("unexpected {other:?}"),
    }
    let t = MessageContentInitial::Text(TextContent { text: "x".to_string() }).into_content();
    assert!(matches!(t, MessageContent::Text(TextContent { ref text }) if text == "x"));
}

#[test]
fn kind_names() {
    assert_eq!(MessageContentType::GovernanceProposal.name(), "GovernanceProposal");
    assert_eq!(MessageContentType::Custom("meme".to_string()).name(), "meme");
}

#[test]
fn codec_round_trip_current_encoding() {
    for t in [MessageContentType::Text, MessageContentType::P2PSwap, MessageContentType::VideoCall] {
        let bytes = encode_content_type(&t);
        assert_eq!(bytes.len(), 1);
        assert_eq!(decode_content_type(&bytes), Some(t));
    }
    let custom = MessageContentType::Custom("héllo".to_string());
    let bytes = encode_content_type(&custom);
    assert_eq!(bytes.len(), 5 + 4 * 5);
    assert_eq!(&bytes[0..5], &[17, 5, 0, 0, 0]);
    assert_eq!(decode_content_type(&bytes), Some(custom));
    let empty = MessageContentType::Custom(String::new());
    assert_eq!(decode_content_type(&encode_content_type(&empty)), Some(empty));
}

#[test]
fn codec_refuses_bytes_it_does_not_write() {
    assert_eq!(decode_content_type(&vec![2]), Some(MessageContentType::Video));
    assert_eq!(decode_content_type(&vec![130]), None);
    assert_eq!(decode_content_type(&vec![0, 2]), None);
    assert_eq!(decode_content_type(&vec![17]), None);
    assert_eq!(decode_content_type(&vec![17, 1, 0, 0, 0, 0, 0xD8, 0, 0]), None);
    assert_eq!(decode_content_type(&vec![17, 2, 0, 0, 0, 65, 0, 0, 0]), None);
    assert_eq!(decode_content_type(&vec![]), None);
}

#[test]
fn proposal_text_is_its_title() {
    let p = MessageContentInitial::GovernanceProposal(ProposalContent {
        governance_canister_id: 1,
        proposal: ProposalSummary { id: 2, title: "Title".to_string(), summary: "Long summary".to_string() },
        my_vote: None,
    });
    assert_eq!(p.text(), Some("Title"));
    assert_eq!(p.text_length(), 5);
}

#[test]
fn hard_delete_follow_ups() {
    let swap = |status| {
        MessageContent::P2PSwap(P2PSwapContent {
            swap_id: 42,
            token0: token(),
            token0_amount: 1,
            token1: token(),
            token1_amount: 2,
            expires_at: 100,
            caption: None,
            token0_txn_in: 0,
            status,
        })
    };
    let open = HardDeleteMessageContentJob::follow_ups(&swap(P2PSwapStatus::Open), vec![7], true);
    assert_eq!(open.cancel_swap, Some(CancelP2PSwapInEscrowCanisterJob { swap_id: 42, attempt: 0 }));
    assert!(open.prize_refunds.is_empty());
    assert!(open.delete_files.is_none());
    let done = HardDeleteMessageContentJob::follow_ups(&swap(P2PSwapStatus::Completed(3)), vec![], false);
    assert_eq!(done.cancel_swap, None);
    let prize = match prize(10, 100).into_content() {
        c @ MessageContent::Prize(_) => c,
        _ => unreachable!(),
    };
    assert_eq!(HardDeleteMessageContentJob::follow_ups(&prize, vec![1, 2], true).prize_refunds, vec![1, 2]);
    assert!(HardDeleteMessageContentJob::follow_ups(&prize, vec![1, 2], false).prize_refunds.is_empty());
    let file = MessageContent::File(FileContent {
        name: "f".to_string(),
        caption: None,
        mime_type: String::new(),
        file_size: 1,
        blob_reference: Some(BlobReference { canister_id: 3, blob_id: 9 }),
    });
    let f = HardDeleteMessageContentJob::follow_ups(&file, vec![5], true);
    assert_eq!(f.delete_files.unwrap().files, vec![BlobReference { canister_id: 3, blob_id: 9 }]);
    assert!(f.prize_refunds.is_empty());
}

fn token() -> TokenInfo {
    TokenInfo { symbol: "CHAT".to_string(), ledger: 1, decimals: 8, fee: 0 }
}

#[test]
fn group_import_moves_through_its_stages() {
    let mut groups = vec![GroupBeingImported::new(1, 10), GroupBeingImported::new(2, 20)];
    let batch = next_batch(&mut groups, 0);
    assert_eq!(
        batch,
        vec![
            GroupToImport { group_id: 1, action: GroupToImportAction::Core(0) },
            GroupToImport { group_id: 2, action: GroupToImportAction::Core(0) },
        ]
    );
    assert!(next_batch(&mut groups, 0).is_empty());
    assert_eq!(groups[0].apply(ImportOutcome::CoreBatch(100, 150), 1), ImportStep::Continue);
    assert_eq!(groups[0].next_action(), Some(GroupToImportAction::Core(100)));
    assert_eq!(groups[0].apply(ImportOutcome::CoreBatch(50, 150), 2), ImportStep::FinalizeCore);
    assert_eq!(groups[0].phase, ImportPhase::Events);
    assert_eq!(groups[0].apply(ImportOutcome::EventsBatch(Some(40), true), 3), ImportStep::Continue);
    assert_eq!(groups[0].next_action(), Some(GroupToImportAction::Members(10, None)));
    assert_eq!(groups[0].apply(ImportOutcome::MembersBatch(Some(7), true), 4), ImportStep::Complete);
    assert_eq!(groups[0].next_action(), None);
    assert_eq!(groups[1].apply(ImportOutcome::Failed, 1000), ImportStep::RetryAt(11000));
    assert_eq!(groups[1].error_count, 1);
    assert!(next_batch(&mut groups, 5000).is_empty());
    assert_eq!(next_batch(&mut groups, 11000), vec![GroupToImport { group_id: 2, action: GroupToImportAction::Core(0) }]);
    assert_eq!(groups[1].apply(ImportOutcome::ContractViolated, 12000), ImportStep::Abandon);
}

#[test]
fn replica_must_have_caught_up() {
    assert_eq!(check_replica_up_to_date(None, 5), Ok(()));
    assert_eq!(check_replica_up_to_date(Some(5), 5), Ok(()));
    assert_eq!(check_replica_up_to_date(Some(9), 5), Err(5));
}

#[test]
fn public_channel_gets_all_members() {
    let job = add_community_members_to_channel_if_public(3, true, false, vec![1, 2]).unwrap();
    assert_eq!(job.channel_id, 3);
    assert_eq!(job.members, vec![1, 2]);
    assert!(add_community_members_to_channel_if_public(3, true, true, vec![1]).is_none());
    assert!(add_community_members_to_channel_if_public(3, false, false, vec![1]).is_none());
}
