use nearshield::{
    CampaignType, Contract, CreateCampaignInput, Effects, Entity, Error, Event, SeverityConfigInput,
    SubmissionStatus, SubmitBugInput,
};

fn s(x: &str) -> String {
    x.to_string()
}

fn tiers(pcts: &[u8]) -> Vec<SeverityConfigInput> {
    let mut v = Vec::new();
    for (i, p) in pcts.iter().enumerate() {
        let name = if pcts.len() == 1 { s("crit") } else { format!("tier{}", i) };
        v.push(SeverityConfigInput { name, max_reward_pct: *p });
    }
    v
}

fn campaign_input(pcts: &[u8], end_time: Option<u64>) -> CreateCampaignInput {
    CreateCampaignInput {
        name: s("Bridge audit"),
        description: s("Find bugs in the bridge"),
        repo_link: Some(s("https://example.org/repo")),
        scope: None,
        rules: None,
        contact: Some(s("sec@example.org")),
        severity_levels: tiers(pcts),
        campaign_type: CampaignType::Public,
        end_time,
    }
}

fn bug(claim: u8) -> SubmitBugInput {
    SubmitBugInput {
        title: s("Reentrancy"),
        description_hash: s("bafy123"),
        poc_link: s("https://example.org/poc"),
        severity_claim: claim,
    }
}

/// Admin `a`, treasury `t`; `p` has funded campaign 1 with 1000 and one tier
/// of 50 percent; `r` has submitted finding 1 with claim 0.
fn funded_with_submission() -> Contract {
    let mut c = Contract::new(s("a"), s("t"));
    let mut fx = Effects::new();
    assert_eq!(c.create_campaign_near(s("p"), 1000, 10, campaign_input(&[50], None), &mut fx), Ok(1));
    assert_eq!(c.submit_bug(s("r"), 1, 20, bug(0), &mut fx), Ok(1));
    c
}

#[test]
fn native_happy_path() {
    let mut c = funded_with_submission();
    let mut fx = Effects::new();
    assert!(c.review_has_room(&s("p"), 1, SubmissionStatus::Accepted, Some(400)));
    let r = c.review_submission(&s("p"), 1, SubmissionStatus::Accepted, Some(400), Some(s("good")), 30, &mut fx);
    assert_eq!(r, Ok(()));

    assert_eq!(fx.transfers.len(), 2);
    assert_eq!(fx.transfers[0].token, None);
    assert_eq!(fx.transfers[0].receiver, "r");
    assert_eq!(fx.transfers[0].amount, 396);
    assert_eq!(fx.transfers[0].gas_tgas, 10);
    assert_eq!(fx.transfers[1].token, None);
    assert_eq!(fx.transfers[1].receiver, "t");
    assert_eq!(fx.transfers[1].amount, 4);
    assert_eq!(fx.transfers[1].gas_tgas, 5);

    let camp = c.get_campaign(1).unwrap();
    assert_eq!(camp.remaining_pool, 600);
    assert_eq!(camp.total_pool, 1000);
    assert!(!camp.cancelled);

    let f = c.finder_stats_for(&s("r"));
    assert_eq!(f.total_rewards_earned, 396);
    assert_eq!(f.total_bugs_found, 1);
    assert_eq!(f.total_severity_score, 0);
    let p = c.project_stats_for(&s("p"));
    assert_eq!(p.total_rewards_paid, 400);
    assert_eq!(p.total_campaigns_created, 1);
    assert_eq!(p.total_bugs_fixed, 1);

    assert_eq!(fx.events.len(), 1);
    match &fx.events[0] {
        Event::Payout { campaign_id, submission_id, receiver, gross_reward, platform_fee } => {
            assert_eq!(*campaign_id, 1);
            assert_eq!(*submission_id, 1);
            assert_eq!(receiver, "r");
            assert_eq!(*gross_reward, 400);
            assert_eq!(*platform_fee, 4);
            assert_eq!(gross_reward.to_string(), "400");
            assert_eq!(platform_fee.to_string(), "4");
        }
        other => panic!("unexpected event {:?}", other),
    }
    assert_eq!(fx.events[0].name(), "payout");

    let sub = c.get_submission(1).unwrap();
    assert_eq!(sub.status, SubmissionStatus::Accepted);
    assert_eq!(sub.reward_amount, Some(400));
    assert_eq!(sub.reviewer, Some(s("p")));
    assert_eq!(sub.review_comments, Some(s("good")));
    assert_eq!(sub.created_at, 20);
    assert_eq!(sub.updated_at, 30);
}

#[test]
fn reward_exceeds_cap() {
    let mut c = funded_with_submission();
    let mut fx = Effects::new();
    let r = c.review_submission(&s("p"), 1, SubmissionStatus::Accepted, Some(600), None, 30, &mut fx);
    assert_eq!(r, Err(Error::RewardExceedsMax));
    assert_eq!(c.get_campaign(1).unwrap().remaining_pool, 1000);
    assert_eq!(c.get_submission(1).unwrap().status, SubmissionStatus::Pending);
    assert!(fx.events.is_empty());
    assert!(fx.transfers.is_empty());
    // the cap itself is still granted, one more is not
    let r = c.review_submission(&s("p"), 1, SubmissionStatus::Accepted, Some(501), None, 30, &mut fx);
    assert_eq!(r, Err(Error::RewardExceedsMax));
    let r = c.review_submission(&s("p"), 1, SubmissionStatus::Accepted, Some(500), None, 30, &mut fx);
    assert_eq!(r, Ok(()));
    assert_eq!(c.get_campaign(1).unwrap().remaining_pool, 500);
}

#[test]
fn cancellation_refund() {
    let mut c = funded_with_submission();
    let mut fx = Effects::new();
    assert_eq!(c.review_submission(&s("p"), 1, SubmissionStatus::Accepted, Some(400), None, 30, &mut fx), Ok(()));
    let mut fx = Effects::new();
    assert_eq!(c.cancel_campaign(&s("p"), 1, &mut fx), Ok(600));
    assert_eq!(fx.transfers.len(), 1);
    assert_eq!(fx.transfers[0].receiver, "p");
    assert_eq!(fx.transfers[0].amount, 600);
    assert_eq!(fx.transfers[0].token, None);
    let camp = c.get_campaign(1).unwrap();
    assert_eq!(camp.remaining_pool, 0);
    assert!(camp.cancelled);
    assert_eq!(fx.events.len(), 1);
    match &fx.events[0] {
        Event::CampaignCancelled { campaign_id, refund_amount } => {
            assert_eq!(*campaign_id, 1);
            assert_eq!(refund_amount.to_string(), "600");
        }
        other => panic!("unexpected event {:?}", other),
    }
    assert_eq!(fx.events[0].name(), "campaign_cancelled");
    // the figures are not taken back
    assert_eq!(c.finder_stats_for(&s("r")).total_rewards_earned, 396);
    assert_eq!(c.project_stats_for(&s("p")).total_rewards_paid, 400);
}

#[test]
fn ended() {
    let mut c = Contract::new(s("a"), s("t"));
    let mut fx = Effects::new();
    let t: u64 = 5000;
    assert_eq!(c.create_campaign_near(s("p"), 1000, 10, campaign_input(&[50], Some(t)), &mut fx), Ok(1));
    let mut fx = Effects::new();
    assert_eq!(c.submit_bug(s("r"), 1, t, bug(0), &mut fx), Err(Error::Ended));
    assert_eq!(c.submit_bug(s("r"), 1, t + 1, bug(0), &mut fx), Err(Error::Ended));
    assert!(fx.events.is_empty());
    assert_eq!(c.next_submission_id, 1);
    assert_eq!(c.submit_bug(s("r"), 1, t - 1, bug(0), &mut fx), Ok(1));
    assert_eq!(fx.events.len(), 1);
}

#[test]
fn deposit_callback() {
    let mut c = Contract::new(s("a"), s("t"));
    let mut fx = Effects::new();
    let r = c.ft_on_transfer(s("tok"), s("p"), 1000, Some(campaign_input(&[50], None)), 77, &mut fx);
    assert_eq!(r, Ok(0));
    let camp = c.get_campaign(1).unwrap();
    assert_eq!(camp.owner, "p");
    assert_eq!(camp.token, Some(s("tok")));
    assert_eq!(camp.total_pool, 1000);
    assert_eq!(camp.remaining_pool, 1000);
    assert_eq!(camp.start_time, 77);
    assert_eq!(camp.platform_fee_percent, 1);
    assert_eq!(fx.events.len(), 1);
    match &fx.events[0] {
        Event::CampaignCreated { campaign_id, owner, total_pool, token, name } => {
            assert_eq!(*campaign_id, 1);
            assert_eq!(owner, "p");
            assert_eq!(*total_pool, 1000);
            assert_eq!(token, &Some(s("tok")));
            assert_eq!(name, "Bridge audit");
        }
        other => panic!("unexpected event {:?}", other),
    }
    assert_eq!(c.project_stats_for(&s("p")).total_campaigns_created, 1);
}

#[test]
fn deposit_callback_unreadable_message_refunds_all() {
    let mut c = Contract::new(s("a"), s("t"));
    let mut fx = Effects::new();
    assert_eq!(c.ft_on_transfer(s("tok"), s("p"), 1000, None, 77, &mut fx), Ok(1000));
    assert!(c.get_campaign(1).is_none());
    assert!(fx.events.is_empty());
    assert_eq!(c.process_ft_deposit(s("tok"), s("p"), 1000, None, 77, &mut fx), Err(Error::BadMessage));
    assert_eq!(
        c.ft_on_transfer(s("tok"), s("p"), 1000, Some(campaign_input(&[], None)), 77, &mut fx),
        Err(Error::BadConfig)
    );
    assert_eq!(c.next_campaign_id, 1);
}

#[test]
fn paused_writes_blocked() {
    let mut c = funded_with_submission();
    let mut fx = Effects::new();
    assert_eq!(c.set_paused(&s("a"), true, &mut fx), Ok(()));
    assert!(c.paused);
    assert_eq!(fx.events.len(), 1);
    match &fx.events[0] {
        Event::PauseToggle { paused } => assert!(*paused),
        other => panic!("unexpected event {:?}", other),
    }
    let mut fx = Effects::new();
    assert_eq!(
        c.create_campaign_near(s("p"), 5, 1, campaign_input(&[50], None), &mut fx),
        Err(Error::Paused)
    );
    assert_eq!(c.cancel_campaign(&s("p"), 1, &mut fx), Err(Error::Paused));
    assert_eq!(c.submit_bug(s("r"), 1, 1, bug(0), &mut fx), Err(Error::Paused));
    assert_eq!(
        c.review_submission(&s("p"), 1, SubmissionStatus::Rejected, None, None, 1, &mut fx),
        Err(Error::Paused)
    );
    assert_eq!(
        c.ft_on_transfer(s("tok"), s("p"), 9, Some(campaign_input(&[50], None)), 1, &mut fx),
        Err(Error::Paused)
    );
    assert_eq!(c.withdraw_fees(&s("a"), Some(1), None, 100, &mut fx), Err(Error::Paused));
    assert!(fx.events.is_empty());
    assert!(fx.transfers.is_empty());
    // views still answer
    assert!(c.get_campaign(1).is_some());
    assert!(c.get_submission(1).is_some());
    assert_eq!(c.get_campaigns(None, None).len(), 1);
    assert_eq!(c.get_campaign_submissions(1, None, None).len(), 1);
    assert_eq!(c.get_top_projects(10).len(), 1);
    assert_eq!(c.get_top_finders(10).len(), 0);
    // and the switch can be set back
    assert_eq!(c.set_paused(&s("a"), false, &mut fx), Ok(()));
    assert_eq!(c.submit_bug(s("r"), 1, 1, bug(0), &mut fx), Ok(2));
}

#[test]
fn not_found_is_told_by_entity() {
    let mut c = funded_with_submission();
    let mut fx = Effects::new();
    assert_eq!(c.submit_bug(s("r"), 2, 1, bug(0), &mut fx), Err(Error::NotFound(Entity::Campaign)));
    assert_eq!(c.submit_bug(s("r"), 0, 1, bug(0), &mut fx), Err(Error::NotFound(Entity::Campaign)));
    assert_eq!(c.cancel_campaign(&s("p"), 7, &mut fx), Err(Error::NotFound(Entity::Campaign)));
    assert_eq!(
        c.review_submission(&s("p"), 2, SubmissionStatus::Rejected, None, None, 1, &mut fx),
        Err(Error::NotFound(Entity::Submission))
    );
    assert_eq!(
        c.review_submission(&s("p"), 0, SubmissionStatus::Rejected, None, None, 1, &mut fx),
        Err(Error::NotFound(Entity::Submission))
    );
    assert_eq!(Error::NotFound(Entity::Submission).tag(), "NotFound(submission)");
    assert_eq!(Error::NotFound(Entity::Campaign).tag(), "NotFound(campaign)");
    assert_eq!(Error::RewardExceedsMax.tag(), "RewardExceedsMax");
}

#[test]
fn payout_line_is_canonical() {
    let mut c = funded_with_submission();
    let mut fx = Effects::new();
    assert_eq!(c.review_submission(&s("p"), 1, SubmissionStatus::Accepted, Some(400), None, 30, &mut fx), Ok(()));
    let line = fx.events[0].log_line();
    assert_eq!(
        line,
        "EVENT_JSON:{\"data\":{\"campaign_id\":1,\"gross_reward\":\"400\",\"platform_fee\":\"4\",\"receiver\":\"r\",\"submission_id\":1},\"event\":\"payout\",\"standard\":\"nearshield\",\"version\":\"1.0.0\"}"
    );
    let v: serde_json::Value = serde_json::from_str(&line["EVENT_JSON:".len()..]).unwrap();
    assert_eq!(v["standard"], "nearshield");
    assert_eq!(v["version"], "1.0.0");
    assert_eq!(v["event"], "payout");
    assert_eq!(v["data"]["gross_reward"], "400");
    assert_eq!(v["data"]["platform_fee"], "4");
    assert_eq!(v["data"]["campaign_id"], 1);
}

#[test]
fn lines_of_the_other_records() {
    let mut c = Contract::new(s("a"), s("t"));
    let mut fx = Effects::new();
    let mut input = campaign_input(&[50], None);
    input.name = s("say \"hi\"\n");
    c.create_campaign_near(s("p.near"), u128::MAX, 1, input, &mut fx).unwrap();
    c.ft_on_transfer(s("tok"), s("p"), 1000, Some(campaign_input(&[50], None)), 77, &mut fx).unwrap();
    c.submit_bug(s("r"), 2, 2, bug(7), &mut fx).unwrap();
    c.cancel_campaign(&s("p"), 2, &mut fx).unwrap();
    c.set_paused(&s("a"), true, &mut fx).unwrap();
    c.set_paused(&s("a"), false, &mut fx).unwrap();
    let lines: Vec<String> = fx.events.iter().map(|e| e.log_line()).collect();
    assert_eq!(
        lines[0],
        "EVENT_JSON:{\"data\":{\"campaign_id\":1,\"name\":\"say \\\"hi\\\"\\n\",\"owner\":\"p.near\",\"token\":null,\"total_pool\":\"340282366920938463463374607431768211455\"},\"event\":\"campaign_created\",\"standard\":\"nearshield\",\"version\":\"1.0.0\"}"
    );
    assert_eq!(
        lines[1],
        "EVENT_JSON:{\"data\":{\"campaign_id\":2,\"name\":\"Bridge audit\",\"owner\":\"p\",\"token\":\"tok\",\"total_pool\":\"1000\"},\"event\":\"campaign_created\",\"standard\":\"nearshield\",\"version\":\"1.0.0\"}"
    );
    assert_eq!(
        lines[2],
        "EVENT_JSON:{\"data\":{\"campaign_id\":2,\"severity_claim\":7,\"submission_id\":1,\"submitter\":\"r\"},\"event\":\"submission_created\",\"standard\":\"nearshield\",\"version\":\"1.0.0\"}"
    );
    assert_eq!(
        lines[3],
        "EVENT_JSON:{\"data\":{\"campaign_id\":2,\"refund_amount\":\"1000\"},\"event\":\"campaign_cancelled\",\"standard\":\"nearshield\",\"version\":\"1.0.0\"}"
    );
    assert_eq!(
        lines[4],
        "EVENT_JSON:{\"data\":{\"paused\":true},\"event\":\"pause_toggle\",\"standard\":\"nearshield\",\"version\":\"1.0.0\"}"
    );
    assert_eq!(
        lines[5],
        "EVENT_JSON:{\"data\":{\"paused\":false},\"event\":\"pause_toggle\",\"standard\":\"nearshield\",\"version\":\"1.0.0\"}"
    );
    for line in &lines {
        assert!(!line.contains('\n'));
        let v: serde_json::Value = serde_json::from_str(&line["EVENT_JSON:".len()..]).unwrap();
        assert!(v["data"].is_object());
    }
    let v: serde_json::Value = serde_json::from_str(&lines[0]["EVENT_JSON:".len()..]).unwrap();
    assert_eq!(v["data"]["name"], "say \"hi\"\n");
    assert_eq!(fx.events[3].data_text(), "{\"campaign_id\":2,\"refund_amount\":\"1000\"}");
    assert_eq!(nearshield::wire::assemble_line("x", "{}"), "EVENT_JSON:{\"data\":{},\"event\":\"x\",\"standard\":\"nearshield\",\"version\":\"1.0.0\"}");
}

#[test]
fn payout_record_of_the_largest_reward() {
    let mut fx = Effects::new();
    nearshield::emit_payout(1, 1, s("r"), u128::MAX, u128::MAX / 100, &mut fx);
    nearshield::emit_payout(1, 1, s("r"), 400, 4, &mut fx);
    let lines = fx.log_lines();
    assert_eq!(lines.len(), 2);
    assert_eq!(
        lines[0],
        "EVENT_JSON:{\"data\":{\"campaign_id\":1,\"gross_reward\":\"340282366920938463463374607431768211455\",\"platform_fee\":\"3402823669209384634633746074317682114\",\"receiver\":\"r\",\"submission_id\":1},\"event\":\"payout\",\"standard\":\"nearshield\",\"version\":\"1.0.0\"}"
    );
    let v: serde_json::Value = serde_json::from_str(&lines[1]["EVENT_JSON:".len()..]).unwrap();
    assert_eq!(v["data"]["gross_reward"], "400");
    assert_eq!(v["data"]["platform_fee"], "4");
    assert_eq!(v["data"]["receiver"], "r");
    assert_eq!(v["data"]["submission_id"], 1);
    assert_eq!(nearshield::wire::quoted("a\"b\\c\u{1}"), "\"a\\\"b\\\\c\\u0001\"");
}

#[test]
fn checks_tell_what_the_calls_will_answer() {
    let mut c = funded_with_submission();
    assert_eq!(c.check_create(0, &campaign_input(&[50], None)), Some(Error::DepositTooSmall));
    assert_eq!(c.check_create(5, &campaign_input(&[], None)), Some(Error::BadConfig));
    assert_eq!(c.check_create(5, &campaign_input(&[100, 101], None)), Some(Error::BadConfig));
    assert_eq!(c.check_create(5, &campaign_input(&[100, 0], None)), None);
    assert_eq!(c.check_submit(1, 5), None);
    assert_eq!(c.check_submit(2, 5), Some(Error::NotFound(Entity::Campaign)));
    assert!(c.room_for_campaign(&s("p")));
    assert!(c.check_deposit(&Some(campaign_input(&[1], None))));
    assert!(!c.check_deposit(&Some(campaign_input(&[], None))));
    assert!(!c.check_deposit(&None));
    c.update_project_stats(&s("p"), 0, u32::MAX - 1, 0);
    assert!(!c.room_for_campaign(&s("p")));
    assert!(c.room_for_campaign(&s("other")));
    let mut fx = Effects::new();
    c.set_paused(&s("a"), true, &mut fx).unwrap();
    assert_eq!(c.check_create(5, &campaign_input(&[50], None)), Some(Error::Paused));
    assert_eq!(c.check_submit(1, 5), Some(Error::Paused));
    assert!(!c.check_deposit(&Some(campaign_input(&[1], None))));
    // a paused escrow refuses the deposit whatever the counters hold
    assert_eq!(
        c.ft_on_transfer(s("tok"), s("p"), 9, Some(campaign_input(&[50], None)), 1, &mut fx),
        Err(Error::Paused)
    );
}
