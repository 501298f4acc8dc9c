use truelayer_payments::account::Beneficiary;
use truelayer_payments::flow::{
    AuthorizationFlow, AuthorizationFlowActions, AuthorizationFlowNextAction,
};
use truelayer_payments::money::Currency;
use truelayer_payments::payment::{
    CreatePaymentRequest, CreatePaymentResponse, CreatePaymentUserRequest,
    CreatePaymentUserResponse, FailureStage, Payment, PaymentMethod, PaymentStatus, Token, User,
};
use truelayer_payments::polling::{
    replay, resolve, start, step, Error, IsInTerminalState, Observation, PollAction, PollConfig,
    PollOutcome, PollState, Pollable,
};
use truelayer_payments::account::PaymentSource;
use truelayer_payments::provider::{Provider, ProviderSelection};
use truelayer_payments::submission::{
    AuthorizationFlowResponseStatus, SubmitProviderSelectionActionRequest,
    SubmitProviderSelectionActionResponse,
};
use truelayer_payments::time::Timestamp;
use truelayer_payments::wire::{DecodeError, Value, Wire};

fn s(text: &str) -> String {
    text.to_string()
}

fn at(text: &str) -> Timestamp {
    Timestamp::parse(text).unwrap()
}

fn payment(status: PaymentStatus) -> Payment {
    Payment {
        id: s("pay_1"),
        amount_in_minor: 100,
        currency: Currency::Gbp,
        user: User { id: s("u_1"), name: None, email: None, phone: None },
        payment_method: PaymentMethod::BankTransfer {
            provider_selection: ProviderSelection::UserSelected {
                filter: None,
                preferred_scheme_ids: None,
            },
            beneficiary: Beneficiary::MerchantAccount {
                merchant_account_id: s("m_1"),
                account_holder_name: None,
            },
        },
        created_at: at("2022-01-01T00:00:00Z"),
        metadata: None,
        status,
    }
}

fn flow_with(next: AuthorizationFlowNextAction) -> AuthorizationFlow {
    AuthorizationFlow { actions: Some(AuthorizationFlowActions { next }), configuration: None }
}

fn authorizing() -> Payment {
    payment(PaymentStatus::Authorizing {
        authorization_flow: flow_with(AuthorizationFlowNextAction::Wait),
    })
}

fn executed() -> Payment {
    payment(PaymentStatus::Executed {
        executed_at: at("2022-01-01T00:00:09Z"),
        authorization_flow: None,
        settlement_risk: None,
    })
}

fn config() -> PollConfig {
    PollConfig { interval_ms: 1_000, max_wait_ms: 5_000, retry_not_found: true }
}

fn seen(elapsed_ms: u64, snapshot: Payment) -> Observation<Payment> {
    Observation { elapsed_ms, fetched: Ok(snapshot) }
}

/// Drives a session as a caller would: fetches from the script, one
/// snapshot per fetch, a fetch taking no time and each wait as long as told.
fn drive(
    config: &PollConfig,
    resource: &CreatePaymentResponse,
    mut script: Vec<Result<Option<Payment>, Error>>,
) -> (PollOutcome<Payment>, usize, u64) {
    script.reverse();
    let (mut state, mut action) = start::<Payment>();
    let mut fetches = 0;
    let mut elapsed_ms = 0;
    loop {
        match action {
            PollAction::Stop => match state {
                PollState::Done(outcome) => return (outcome, fetches, elapsed_ms),
                PollState::Polling { .. } => panic!("stopped while polling"),
            },
            PollAction::Fetch { delay_ms } => {
                elapsed_ms += delay_ms;
                assert_eq!(resource.poll_target(), "pay_1");
                let fetched = script.pop().expect("the driver fetched more than was scripted");
                fetches += 1;
                let polled = resource.poll_once(fetched);
                let (next_state, next_action) = step(config, state, elapsed_ms, polled);
                state = next_state;
                action = next_action;
            }
        }
    }
}

fn acknowledgment() -> CreatePaymentResponse {
    CreatePaymentResponse {
        id: s("pay_1"),
        resource_token: Token::new(s("SECRET-REDACTED")),
        user: CreatePaymentUserResponse { id: s("u_1") },
    }
}

#[test]
fn terminal_states_are_executed_settled_and_failed() {
    let required = PaymentStatus::AuthorizationRequired;
    let authorizing = PaymentStatus::Authorizing {
        authorization_flow: flow_with(AuthorizationFlowNextAction::Wait),
    };
    let authorized = PaymentStatus::Authorized { authorization_flow: None };
    let executed = PaymentStatus::Executed {
        executed_at: at("2022-01-01T00:00:09Z"),
        authorization_flow: None,
        settlement_risk: None,
    };
    let settled = PaymentStatus::Settled {
        payment_source: PaymentSource {
            id: s("src_1"),
            user_id: None,
            account_identifiers: vec![],
            account_holder_name: None,
        },
        executed_at: at("2022-01-01T00:00:09Z"),
        settled_at: at("2022-01-01T00:00:10Z"),
        authorization_flow: None,
        settlement_risk: None,
    };
    let failed = PaymentStatus::Failed {
        failed_at: at("2022-01-01T00:00:09Z"),
        failure_stage: FailureStage::Authorizing,
        failure_reason: s("canceled"),
        authorization_flow: None,
    };
    assert!(!required.is_in_terminal_state());
    assert!(!authorizing.is_in_terminal_state());
    assert!(!authorized.is_in_terminal_state());
    assert!(executed.is_in_terminal_state());
    assert!(settled.is_in_terminal_state());
    assert!(failed.is_in_terminal_state());
    assert!(!payment(required).is_in_terminal_state());
    assert!(!payment(authorizing).is_in_terminal_state());
    assert!(!payment(authorized).is_in_terminal_state());
    assert!(payment(executed).is_in_terminal_state());
    assert!(payment(settled).is_in_terminal_state());
    assert!(payment(failed.clone()).is_in_terminal_state());
    assert!(PaymentStatus::AuthorizationRequired.may_become(&failed));
    assert!(!failed.may_become(&PaymentStatus::AuthorizationRequired));
}

#[test]
fn a_status_hands_out_its_flow() {
    let flow = flow_with(AuthorizationFlowNextAction::Wait);
    let authorizing = PaymentStatus::Authorizing { authorization_flow: flow.clone() };
    assert_eq!(authorizing.authorization_flow(), Some(&flow));
    assert_eq!(PaymentStatus::AuthorizationRequired.authorization_flow(), None);
    let authorized = PaymentStatus::Authorized { authorization_flow: None };
    assert_eq!(authorized.authorization_flow(), None);
    let authorized = PaymentStatus::Authorized { authorization_flow: Some(flow.clone()) };
    assert_eq!(authorized.authorization_flow(), Some(&flow));
}

#[test]
fn a_payment_waits_for_the_action_that_its_flow_names() {
    let providers = AuthorizationFlowNextAction::ProviderSelection { providers: vec![] };
    let selecting = payment(PaymentStatus::Authorizing {
        authorization_flow: flow_with(AuthorizationFlowNextAction::ProviderSelection {
            providers: vec![],
        }),
    });
    assert_eq!(selecting.pending_action(), Some(&providers));
    assert_eq!(authorizing().pending_action(), None);
    assert_eq!(payment(PaymentStatus::AuthorizationRequired).pending_action(), None);
    let bare = payment(PaymentStatus::Authorizing {
        authorization_flow: AuthorizationFlow { actions: None, configuration: None },
    });
    assert_eq!(bare.pending_action(), None);
    let redirect = AuthorizationFlowNextAction::Redirect { uri: s("https://bank"), metadata: None };
    let authorized = payment(PaymentStatus::Authorized {
        authorization_flow: Some(flow_with(AuthorizationFlowNextAction::Redirect {
            uri: s("https://bank"),
            metadata: None,
        })),
    });
    assert_eq!(authorized.pending_action(), Some(&redirect));
    let over = payment(PaymentStatus::Failed {
        failed_at: at("2022-01-01T00:00:09Z"),
        failure_stage: FailureStage::Authorizing,
        failure_reason: s("canceled"),
        authorization_flow: Some(flow_with(AuthorizationFlowNextAction::Form { inputs: vec![] })),
    });
    assert_eq!(over.pending_action(), None);
    assert!(providers.needs_submission());
    assert!(redirect.needs_submission());
    assert!(AuthorizationFlowNextAction::Form { inputs: vec![] }.needs_submission());
    assert!(!AuthorizationFlowNextAction::Wait.needs_submission());
    assert_eq!(flow_with(AuthorizationFlowNextAction::Wait).next_action(), Some(&AuthorizationFlowNextAction::Wait));
    assert_eq!(AuthorizationFlow { actions: None, configuration: None }.next_action(), None);
}

#[test]
fn statuses_move_forward_only() {
    let required = PaymentStatus::AuthorizationRequired;
    let authorizing = PaymentStatus::Authorizing {
        authorization_flow: flow_with(AuthorizationFlowNextAction::Wait),
    };
    let authorized = PaymentStatus::Authorized { authorization_flow: None };
    let executed = PaymentStatus::Executed {
        executed_at: at("2022-01-01T00:00:09Z"),
        authorization_flow: None,
        settlement_risk: None,
    };
    let failed = PaymentStatus::Failed {
        failed_at: at("2022-01-01T00:00:09Z"),
        failure_stage: FailureStage::Authorized,
        failure_reason: s("canceled"),
        authorization_flow: None,
    };
    assert!(required.may_become(&authorizing));
    assert!(required.may_become(&executed));
    assert!(required.may_become(&failed));
    assert!(!required.may_become(&required));
    assert!(authorizing.may_become(&authorized));
    assert!(authorizing.may_become(&failed));
    assert!(!authorizing.may_become(&required));
    assert!(!authorizing.may_become(&authorizing));
    assert!(authorized.may_become(&executed));
    assert!(authorized.may_become(&failed));
    assert!(!authorized.may_become(&authorizing));
    assert!(!authorized.may_become(&authorized));
    assert!(!executed.may_become(&failed));
    assert!(!executed.may_become(&executed));
    assert!(!failed.may_become(&executed));
    assert!(!failed.may_become(&failed));
}

#[test]
fn the_driver_returns_the_terminal_snapshot_after_one_fetch_each() {
    let script = vec![
        Ok(Some(payment(PaymentStatus::AuthorizationRequired))),
        Ok(Some(authorizing())),
        Ok(Some(payment(PaymentStatus::Authorized { authorization_flow: None }))),
        Ok(Some(executed())),
    ];
    let (outcome, fetches, elapsed_ms) = drive(&config(), &acknowledgment(), script);
    assert_eq!(outcome, PollOutcome::Terminal(executed()));
    assert_eq!(fetches, 4);
    assert_eq!(elapsed_ms, 3_000);
}

#[test]
fn a_record_is_replayed_up_to_the_terminal_snapshot() {
    let record = vec![
        seen(0, authorizing()),
        seen(1_000, authorizing()),
        seen(2_000, executed()),
        seen(3_000, authorizing()),
        seen(4_000, executed()),
    ];
    let (state, fetches) = replay(&config(), record);
    assert_eq!(state, PollState::Done(PollOutcome::Terminal(executed())));
    assert_eq!(fetches, 3);

    let (state, fetches) = replay(&config(), vec![seen(0, executed())]);
    assert_eq!(state, PollState::Done(PollOutcome::Terminal(executed())));
    assert_eq!(fetches, 1);

    let (state, fetches) = replay(&config(), vec![seen(0, authorizing()), seen(1_000, authorizing())]);
    assert_eq!(state, PollState::Polling { last: Some(authorizing()) });
    assert_eq!(fetches, 2);

    let (state, fetches) = replay::<Payment>(&config(), vec![]);
    assert_eq!(state, PollState::Polling { last: None });
    assert_eq!(fetches, 0);
}

#[test]
fn the_driver_times_out_with_the_last_snapshot() {
    let last = payment(PaymentStatus::Authorized { authorization_flow: None });
    let mut script: Vec<Result<Option<Payment>, Error>> = Vec::new();
    for _ in 0..5 {
        script.push(Ok(Some(authorizing())));
    }
    script.push(Ok(Some(last.clone())));
    for _ in 0..100 {
        script.push(Ok(Some(authorizing())));
    }
    let config = config();
    let (outcome, fetches, elapsed_ms) = drive(&config, &acknowledgment(), script);
    assert_eq!(outcome, PollOutcome::TimedOut { last });
    assert_eq!(fetches, 6);
    assert_eq!(elapsed_ms, 5_000);
    assert!(elapsed_ms <= config.max_wait_ms + config.interval_ms);
}

#[test]
fn the_bound_is_measured_from_the_start() {
    let config = PollConfig { interval_ms: 2_000, max_wait_ms: 5_000, retry_not_found: true };
    let script = (0..10).map(|_| Ok(Some(authorizing()))).collect();
    let (outcome, fetches, elapsed_ms) = drive(&config, &acknowledgment(), script);
    assert_eq!(outcome, PollOutcome::TimedOut { last: authorizing() });
    assert_eq!(fetches, 4);
    assert_eq!(elapsed_ms, 6_000);
    assert!(elapsed_ms <= config.max_wait_ms + config.interval_ms);

    let (state, action) = step(&config, PollState::Polling { last: None }, 4_999, Ok(authorizing()));
    assert_eq!(state, PollState::Polling { last: Some(authorizing()) });
    assert_eq!(action, PollAction::Fetch { delay_ms: 2_000 });
    let (state, action) = step(&config, PollState::Polling { last: None }, 5_000, Ok(authorizing()));
    assert_eq!(state, PollState::Done(PollOutcome::TimedOut { last: authorizing() }));
    assert_eq!(action, PollAction::Stop);
    let (state, action) = step(&config, PollState::Polling { last: None }, 9_000, Ok(executed()));
    assert_eq!(state, PollState::Done(PollOutcome::Terminal(executed())));
    assert_eq!(action, PollAction::Stop);
}

#[test]
fn not_found_is_retried_until_the_payment_is_there() {
    let script = vec![Ok(None), Ok(None), Ok(Some(executed()))];
    let (outcome, fetches, _) = drive(&config(), &acknowledgment(), script);
    assert_eq!(outcome, PollOutcome::Terminal(executed()));
    assert_eq!(fetches, 3);
}

#[test]
fn not_found_is_an_error_of_its_own_when_time_runs_out() {
    let script = (0..20).map(|_| Ok(None)).collect();
    let (outcome, fetches, elapsed_ms) = drive(&config(), &acknowledgment(), script);
    assert_eq!(outcome, PollOutcome::Failed(Error::NotFound));
    assert_eq!(fetches, 6);
    assert_eq!(elapsed_ms, 5_000);

    let script = vec![Ok(Some(authorizing())), Ok(None), Ok(None), Ok(None), Ok(None), Ok(None)];
    let (outcome, _, _) = drive(&config(), &acknowledgment(), script);
    assert_eq!(outcome, PollOutcome::TimedOut { last: authorizing() });
}

#[test]
fn not_found_ends_a_session_that_does_not_retry() {
    let config = PollConfig { interval_ms: 1_000, max_wait_ms: 5_000, retry_not_found: false };
    let script = vec![Ok(None), Ok(Some(executed()))];
    let (outcome, fetches, _) = drive(&config, &acknowledgment(), script);
    assert_eq!(outcome, PollOutcome::Failed(Error::NotFound));
    assert_eq!(fetches, 1);
}

#[test]
fn other_errors_end_the_session_at_once() {
    let script = vec![
        Ok(Some(authorizing())),
        Err(Error::Transport(s("connection reset"))),
        Ok(Some(executed())),
    ];
    let (outcome, fetches, _) = drive(&config(), &acknowledgment(), script);
    assert_eq!(outcome, PollOutcome::Failed(Error::Transport(s("connection reset"))));
    assert_eq!(fetches, 2);

    let script = vec![Err(Error::Decoding(DecodeError::UnknownVariant))];
    let (outcome, fetches, _) = drive(&config(), &acknowledgment(), script);
    assert_eq!(outcome, PollOutcome::Failed(Error::Decoding(DecodeError::UnknownVariant)));
    assert_eq!(fetches, 1);
}

#[test]
fn a_session_that_is_over_stays_over() {
    let done = PollState::Done(PollOutcome::Terminal(executed()));
    let (state, action) = step(&config(), done.clone(), 10, Ok(authorizing()));
    assert_eq!(state, done);
    assert_eq!(action, PollAction::Stop);
    let failed: PollState<Payment> = PollState::Done(PollOutcome::Failed(Error::NotFound));
    let (state, action) = step(&config(), failed.clone(), 10, Ok(executed()));
    assert_eq!(state, failed);
    assert_eq!(action, PollAction::Stop);
}

#[test]
fn a_session_starts_with_a_fetch_at_once() {
    let (state, action) = start::<Payment>();
    assert_eq!(state, PollState::Polling { last: None });
    assert_eq!(action, PollAction::Fetch { delay_ms: 0 });
}

#[test]
fn a_poll_resolves_what_was_fetched() {
    assert_eq!(resolve(Ok(Some(executed()))), Ok(executed()));
    assert_eq!(resolve::<Payment>(Ok(None)), Err(Error::NotFound));
    assert_eq!(
        resolve::<Payment>(Err(Error::Transport(s("timeout")))),
        Err(Error::Transport(s("timeout")))
    );
    let snapshot = authorizing();
    assert_eq!(snapshot.poll_target(), "pay_1");
    assert_eq!(snapshot.poll_once(Ok(Some(executed()))), Ok(executed()));
    assert_eq!(snapshot.poll_once(Ok(None)), Err(Error::NotFound));
    assert_eq!(acknowledgment().poll_once(Ok(None)), Err(Error::NotFound));
    assert_eq!(
        acknowledgment().poll_once(Err(Error::Decoding(DecodeError::MissingField))),
        Err(Error::Decoding(DecodeError::MissingField))
    );
}

#[test]
fn errors_say_what_they_are() {
    assert!(Error::NotFound.is_retryable());
    assert!(!Error::Transport(s("x")).is_retryable());
    assert!(!Error::Decoding(DecodeError::MissingField).is_retryable());
    assert_eq!(Error::NotFound.to_string(), "Payment returned 404 while polling");
    assert_eq!(Error::Transport(s("connection reset")).to_string(), "connection reset");
    assert_eq!(
        Error::Decoding(DecodeError::MissingField).to_string(),
        "Payload could not be decoded"
    );
}

#[test]
fn the_default_is_a_second_between_fetches_for_a_minute() {
    let config = PollConfig::default();
    assert_eq!(config.interval_ms, 1_000);
    assert_eq!(config.max_wait_ms, 60_000);
    assert!(config.retry_not_found);
}

#[test]
fn a_payment_is_created_authorized_and_executed() {
    let request = CreatePaymentRequest {
        amount_in_minor: 100,
        currency: Currency::Gbp,
        payment_method: PaymentMethod::BankTransfer {
            provider_selection: ProviderSelection::UserSelected {
                filter: None,
                preferred_scheme_ids: None,
            },
            beneficiary: Beneficiary::MerchantAccount {
                merchant_account_id: s("m_1"),
                account_holder_name: None,
            },
        },
        user: CreatePaymentUserRequest::NewUser { name: Some(s("A")), email: None, phone: None },
        metadata: None,
    };
    let sent = request.encode();
    assert_eq!(CreatePaymentRequest::decode(&sent), Ok(request));

    let created = acknowledgment();
    let config = config();
    let selecting = payment(PaymentStatus::Authorizing {
        authorization_flow: flow_with(AuthorizationFlowNextAction::ProviderSelection {
            providers: vec![Provider {
                id: s("ob-mock"),
                display_name: None,
                icon_uri: None,
                logo_uri: None,
                bg_color: None,
                country_code: None,
            }],
        }),
    });

    // The first snapshot: authorization is required.
    let (state, action) = start::<Payment>();
    assert_eq!(action, PollAction::Fetch { delay_ms: 0 });
    let first = created.poll_once(Ok(Some(payment(PaymentStatus::AuthorizationRequired))));
    let (state, action) = step(&config, state, 0, first);
    assert_eq!(
        state,
        PollState::Polling { last: Some(payment(PaymentStatus::AuthorizationRequired)) }
    );
    assert_eq!(action, PollAction::Fetch { delay_ms: 1_000 });

    // The next poll offers the providers to select from.
    let second = created.poll_once(Ok(Some(selecting.clone())));
    let (state, action) = step(&config, state, 1_000, second);
    assert_eq!(action, PollAction::Fetch { delay_ms: 1_000 });
    let offered = match &state {
        PollState::Polling { last: Some(snapshot) } => {
            match snapshot.status.authorization_flow().and_then(|flow| flow.actions.as_ref()) {
                Some(AuthorizationFlowActions {
                    next: AuthorizationFlowNextAction::ProviderSelection { providers },
                }) => providers[0].id.clone(),
                other => panic!("no provider selection in {:?}", other),
            }
        }
        other => panic!("the session is not polling: {:?}", other),
    };
    assert_eq!(offered, "ob-mock");

    // The selection is submitted, and answered with success.
    let submission = SubmitProviderSelectionActionRequest { provider_id: offered };
    assert_eq!(
        submission.encode(),
        Value::Object(vec![(s("provider_id"), Value::Text(s("ob-mock")))])
    );
    let answer = Value::Object(vec![(s("status"), Value::Text(s("authorizing")))]);
    let answer = SubmitProviderSelectionActionResponse::decode(&answer).unwrap();
    assert_eq!(answer.status, AuthorizationFlowResponseStatus::Authorizing);

    // Polling goes on until the payment is executed.
    let third = selecting.poll_once(Ok(Some(authorizing())));
    let (state, action) = step(&config, state, 2_000, third);
    assert_eq!(action, PollAction::Fetch { delay_ms: 1_000 });
    let fourth = selecting.poll_once(Ok(Some(executed())));
    let (state, action) = step(&config, state, 3_000, fourth);
    assert_eq!(action, PollAction::Stop);
    match state {
        PollState::Done(PollOutcome::Terminal(snapshot)) => {
            assert!(snapshot.is_in_terminal_state());
            assert_eq!(snapshot, executed());
        }
        other => panic!("the session did not end with a snapshot: {:?}", other),
    }
}
