use arguflow_core::billing::{
    checkout_urls, classify_plan, webhook_step, PlanTier, StripeCustomer, WebhookError,
    WebhookEvent, WebhookStep,
};
use arguflow_core::cards::{
    card_content_long_enough, duplicate_score_threshold_percent, pair_results_with_metadata,
    word_segment_count, CardMetadata,
};
use arguflow_core::files::{check_file_ownership, validate_upload, FileError, UploadFileData};
use arguflow_core::invites::{is_plausible_email, plan_invitation, Invitation, InviteError};
use arguflow_core::uid::{id_chars, parse_id};
use arguflow_core::users::{
    aggregate_user_cards, count_votes, join_scores_with_users, normalize_profile_field,
    require_found, tally_votes, username_conflict, visible_email_of, CardVote, SlimUser, User,
    UserScore,
};

const DOCX: &str = "application/vnd.openxmlformats-officedocument.wordprocessingml.document";

fn card(id: u128, point: u128) -> CardMetadata {
    let mut c = CardMetadata::from_details("content".to_string(), None, None, None, 1, point);
    c.id = id;
    c
}

fn account(id: u128, email: &str, visible: bool) -> User {
    let mut u = User::from_details(email.to_string(), "hash".to_string());
    u.id = id;
    u.visible_email = visible;
    u
}

#[test]
fn word_segments_split_on_spaces() {
    assert_eq!(word_segment_count("a b c"), 3);
    assert_eq!(word_segment_count(""), 1);
    assert_eq!(word_segment_count("  "), 3);
    assert_eq!(word_segment_count("one"), 1);
}

#[test]
fn card_content_needs_seventy_words() {
    let enough = vec!["w"; 70].join(" ");
    let short = vec!["w"; 69].join(" ");
    assert!(card_content_long_enough(&enough));
    assert!(!card_content_long_enough(&short));
}

#[test]
fn duplicate_threshold_depends_on_length() {
    assert_eq!(duplicate_score_threshold_percent(199), 90);
    assert_eq!(duplicate_score_threshold_percent(200), 95);
    assert_eq!(duplicate_score_threshold_percent(0), 90);
}

#[test]
fn search_results_pair_with_their_cards() {
    let metas = vec![card(1, 100), card(2, 200), card(3, 100)];
    let pairing = pair_results_with_metadata(&vec![200, 100], &metas).expect("all points known");
    assert_eq!(pairing, vec![1, 0]);
    assert!(pair_results_with_metadata(&vec![300], &metas).is_none());
}

#[test]
fn upload_decodes_urlsafe_base64() {
    let data = UploadFileData {
        base64_docx_file: "aGVsbG8".to_string(),
        file_name: "f.docx".to_string(),
        file_mime_type: DOCX.to_string(),
        private: false,
    };
    assert_eq!(validate_upload(&data).expect("valid upload"), b"hello".to_vec());
}

#[test]
fn upload_with_bad_base64_is_refused() {
    let data = UploadFileData {
        base64_docx_file: "!!!".to_string(),
        file_name: "f.docx".to_string(),
        file_mime_type: DOCX.to_string(),
        private: false,
    };
    assert_eq!(validate_upload(&data), Err(FileError::InvalidBase64));
}

#[test]
fn upload_with_wrong_media_type_is_refused() {
    let data = UploadFileData {
        base64_docx_file: "aGVsbG8".to_string(),
        file_name: "f.pdf".to_string(),
        file_mime_type: "application/pdf".to_string(),
        private: false,
    };
    assert_eq!(validate_upload(&data), Err(FileError::NotDocx));
    assert_eq!(FileError::NotDocx.text(), "Must upload a docx file");
}

#[test]
fn only_the_author_owns_a_file() {
    assert_eq!(check_file_ownership(4, 4), Ok(()));
    assert_eq!(check_file_ownership(4, 5), Err(FileError::NotOwner));
}

#[test]
fn email_plausibility() {
    assert!(is_plausible_email("a@b.c"));
    assert!(is_plausible_email("someone@example.org"));
    assert!(!is_plausible_email("someone"));
    assert!(!is_plausible_email("@example.org"));
    assert!(!is_plausible_email("a@b"));
    assert!(!is_plausible_email("a@b."));
    assert!(!is_plausible_email("a@@b.c"));
    assert!(!is_plausible_email(""));
}

#[test]
fn invitations_require_new_plausible_addresses() {
    assert_eq!(plan_invitation("someone@example.org", false), Ok(()));
    assert_eq!(
        plan_invitation("someone@example.org", true),
        Err(InviteError::AccountExists)
    );
    assert_eq!(plan_invitation("nope", false), Err(InviteError::InvalidEmail));
    assert_eq!(InviteError::InvalidEmail.text(), "Invalid email");
    assert_eq!(
        InviteError::AccountExists.text(),
        "An account with this email already exists."
    );
}

#[test]
fn invitations_expire_one_lifetime_after_creation() {
    let inv = Invitation::from_email("someone@example.org".to_string());
    assert_eq!(inv.email, "someone@example.org");
    assert_eq!(inv.expires_at, inv.created_at + 300000);
    assert_eq!(inv.referral_tokens, None);
}

#[test]
fn votes_are_counted_per_card_and_direction() {
    let votes = vec![
        CardVote { card_metadata_id: 1, voted_user_id: 7, vote: true },
        CardVote { card_metadata_id: 1, voted_user_id: 8, vote: false },
        CardVote { card_metadata_id: 2, voted_user_id: 7, vote: true },
        CardVote { card_metadata_id: 1, voted_user_id: 9, vote: true },
    ];
    assert_eq!(count_votes(&votes, 1, true), 2);
    assert_eq!(count_votes(&votes, 1, false), 1);
    assert_eq!(count_votes(&votes, 2, false), 0);
    assert_eq!(tally_votes(&votes), (3, 1));
}

#[test]
fn cards_aggregate_their_votes() {
    let metas = vec![card(1, 100), card(2, 200)];
    let votes = vec![
        CardVote { card_metadata_id: 1, voted_user_id: 7, vote: true },
        CardVote { card_metadata_id: 2, voted_user_id: 7, vote: false },
        CardVote { card_metadata_id: 1, voted_user_id: 8, vote: true },
    ];
    let cards = aggregate_user_cards(&metas, &votes);
    assert_eq!(cards.len(), 2);
    assert_eq!(cards[0].total_upvotes, 2);
    assert_eq!(cards[0].total_downvotes, 0);
    assert_eq!(cards[1].total_upvotes, 0);
    assert_eq!(cards[1].total_downvotes, 1);
}

#[test]
fn emails_stay_hidden_unless_visible() {
    let shown = account(1, "a@b.c", true);
    let hidden = account(2, "x@y.z", false);
    assert_eq!(visible_email_of(&shown), Some("a@b.c".to_string()));
    assert_eq!(visible_email_of(&hidden), None);
}

#[test]
fn top_users_join_scores_with_accounts() {
    let users = vec![account(1, "a@b.c", true), account(2, "x@y.z", false)];
    let scores = vec![
        UserScore { author_id: 2, score: 9 },
        UserScore { author_id: 1, score: 4 },
    ];
    let listed = join_scores_with_users(&scores, &users).expect("all users known");
    assert_eq!(listed.len(), 2);
    assert_eq!(listed[0].id, 2);
    assert_eq!(listed[0].score, 9);
    assert_eq!(listed[0].email, None);
    assert_eq!(listed[1].id, 1);
    assert_eq!(listed[1].email, Some("a@b.c".to_string()));
    let missing = vec![UserScore { author_id: 5, score: 1 }];
    assert!(join_scores_with_users(&missing, &users).is_none());
}

#[test]
fn profile_fields_normalize_empty_to_none() {
    assert_eq!(normalize_profile_field(None), None);
    assert_eq!(normalize_profile_field(Some(String::new())), None);
    assert_eq!(
        normalize_profile_field(Some("site".to_string())),
        Some("site".to_string())
    );
}

#[test]
fn username_conflicts_unless_already_held() {
    let mut holder = account(1, "a@b.c", false);
    holder.username = Some("taken".to_string());
    assert!(!username_conflict(&"taken".to_string(), &Some(holder.clone())));
    assert!(username_conflict(&"other".to_string(), &Some(holder)));
    assert!(!username_conflict(&"fresh".to_string(), &None));
}

#[test]
fn slim_user_projects_the_email() {
    let user = account(1, "a@b.c", false);
    let slim = SlimUser::from(user);
    assert_eq!(slim.email, "a@b.c");
}

#[test]
fn plans_classify_by_price_id() {
    assert_eq!(classify_plan("g1", "s1", "g1"), Some(PlanTier::Gold));
    assert_eq!(classify_plan("s1", "s1", "g1"), Some(PlanTier::Silver));
    assert_eq!(classify_plan("z9", "s1", "g1"), None);
    assert_eq!(PlanTier::Gold.text(), "gold");
    assert_eq!(PlanTier::Silver.text(), "silver");
}

#[test]
fn checkout_webhook_demands_a_well_formed_session() {
    let step = webhook_step(
        WebhookEvent::CheckoutCompleted {
            customer_id: None,
            line_item_prices: vec![Some("g1".to_string())],
            customer_email: None,
        },
        "s1",
        "g1",
    );
    assert_eq!(step, WebhookStep::Reject(WebhookError::MissingCustomer));
    let step = webhook_step(
        WebhookEvent::CheckoutCompleted {
            customer_id: Some("cus_1".to_string()),
            line_item_prices: vec![],
            customer_email: None,
        },
        "s1",
        "g1",
    );
    assert_eq!(step, WebhookStep::Reject(WebhookError::WrongLineItemCount));
    let step = webhook_step(
        WebhookEvent::CheckoutCompleted {
            customer_id: Some("cus_1".to_string()),
            line_item_prices: vec![None],
            customer_email: None,
        },
        "s1",
        "g1",
    );
    assert_eq!(step, WebhookStep::Reject(WebhookError::MissingPrice));
    let step = webhook_step(
        WebhookEvent::CheckoutCompleted {
            customer_id: Some("cus_1".to_string()),
            line_item_prices: vec![Some("z9".to_string())],
            customer_email: None,
        },
        "s1",
        "g1",
    );
    assert_eq!(step, WebhookStep::Reject(WebhookError::UnknownPlan));
    assert_eq!(
        WebhookError::UnknownPlan.text(),
        "Plan id is not silver or gold"
    );
}

#[test]
fn completed_checkout_records_the_plan() {
    let step = webhook_step(
        WebhookEvent::CheckoutCompleted {
            customer_id: Some("cus_1".to_string()),
            line_item_prices: vec![Some("g1".to_string())],
            customer_email: Some("a@b.c".to_string()),
        },
        "s1",
        "g1",
    );
    assert_eq!(
        step,
        WebhookStep::CreatePlan {
            customer_id: "cus_1".to_string(),
            plan: PlanTier::Gold,
            email: Some("a@b.c".to_string()),
        }
    );
}

#[test]
fn created_customers_are_considered_for_invitation() {
    let step = webhook_step(
        WebhookEvent::CustomerCreated { email: Some("a@b.c".to_string()) },
        "s1",
        "g1",
    );
    assert_eq!(step, WebhookStep::ConsiderInvite { email: "a@b.c".to_string() });
    let step = webhook_step(WebhookEvent::CustomerCreated { email: None }, "s1", "g1");
    assert_eq!(step, WebhookStep::Ignore);
    assert_eq!(webhook_step(WebhookEvent::Other, "s1", "g1"), WebhookStep::Ignore);
}

#[test]
fn checkout_urls_extend_the_application_address() {
    let (success, cancel) = checkout_urls("http://localhost:3000");
    assert_eq!(success, "http://localhost:3000/payment/success");
    assert_eq!(cancel, "http://localhost:3000/payment/cancel");
}

#[test]
fn stripe_customer_rows_carry_their_details() {
    let c = StripeCustomer::from_details("cus_1".to_string(), Some("a@b.c".to_string()));
    assert_eq!(c.stripe_id, "cus_1");
    assert_eq!(c.email, Some("a@b.c".to_string()));
    assert_eq!(c.created_at, c.updated_at);
}

#[test]
fn identifier_text_round_trips() {
    let text: String = id_chars(0xff00000000000000000000000000002a).into_iter().collect();
    assert_eq!(text, "ff000000-0000-0000-0000-00000000002a");
    let chars: Vec<char> = text.chars().collect();
    assert_eq!(parse_id(&chars), Some(0xff00000000000000000000000000002a));
    let simple: Vec<char> = "ff000000000000000000000000000000".chars().collect();
    assert_eq!(parse_id(&simple), Some(0xff000000000000000000000000000000));
    let bad: Vec<char> = "zz000000-0000-0000-0000-00000000002a".chars().collect();
    assert_eq!(parse_id(&bad), None);
}

#[test]
fn missing_users_are_reported_as_not_found() {
    let user = account(1, "a@b.c", false);
    assert_eq!(require_found(Some(user.clone())), Ok(user));
    assert_eq!(require_found(None), Err("User not found".to_string()));
}
