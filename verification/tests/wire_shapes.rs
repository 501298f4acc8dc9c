use truelayer_payments::account::{AccountIdentifier, Beneficiary, PaymentSource};
use truelayer_payments::flow::{
    AdditionalInput, AdditionalInputDisplayText, AdditionalInputFormat, AuthorizationFlow,
    AuthorizationFlowActions, AuthorizationFlowNextAction, ProviderSelectionSupported,
};
use truelayer_payments::money::{CountryCode, Currency};
use truelayer_payments::payment::{
    CreatePaymentUserRequest, FailureStage, Payment, PaymentMethod, PaymentStatus, User,
};
use truelayer_payments::provider::{CustomerSegment, ProviderSelection, ReleaseChannel};
use truelayer_payments::string_map::StringMap;
use truelayer_payments::submission::{
    AuthorizationFlowResponseStatus, SubmitProviderReturnParametersResponse,
    SubmitProviderReturnParametersResponseResource, SubmitProviderSelectionActionResponse,
};
use truelayer_payments::time::Timestamp;
use truelayer_payments::wire::{DecodeError, Value, Wire};

fn text(s: &str) -> Value {
    Value::Text(s.to_string())
}

fn object(members: Vec<(&str, Value)>) -> Value {
    Value::Object(members.into_iter().map(|(k, v)| (k.to_string(), v)).collect())
}

fn sample_payment(status: PaymentStatus) -> Payment {
    Payment {
        id: "pay_1".to_string(),
        amount_in_minor: 100,
        currency: Currency::Gbp,
        user: User { id: "u_1".to_string(), name: None, email: None, phone: None },
        payment_method: PaymentMethod::BankTransfer {
            provider_selection: ProviderSelection::UserSelected {
                filter: None,
                preferred_scheme_ids: None,
            },
            beneficiary: Beneficiary::MerchantAccount {
                merchant_account_id: "m_1".to_string(),
                account_holder_name: None,
            },
        },
        created_at: Timestamp::parse("2022-01-01T00:00:00Z").unwrap(),
        metadata: None,
        status,
    }
}

#[test]
fn existing_user_is_decoded_from_an_id() {
    let payload = object(vec![("id", text("u_1"))]);
    assert_eq!(
        CreatePaymentUserRequest::decode(&payload),
        Ok(CreatePaymentUserRequest::ExistingUser { id: "u_1".to_string() })
    );
}

#[test]
fn new_user_is_decoded_from_a_name() {
    let payload = object(vec![("name", text("A"))]);
    assert_eq!(
        CreatePaymentUserRequest::decode(&payload),
        Ok(CreatePaymentUserRequest::NewUser {
            name: Some("A".to_string()),
            email: None,
            phone: None
        })
    );
}

#[test]
fn new_user_is_decoded_from_an_empty_object() {
    let payload = object(vec![]);
    assert_eq!(
        CreatePaymentUserRequest::decode(&payload),
        Ok(CreatePaymentUserRequest::NewUser { name: None, email: None, phone: None })
    );
}

#[test]
fn an_id_makes_the_payload_an_existing_user_whatever_else_it_holds() {
    let payload = object(vec![("name", text("A")), ("id", text("u_9"))]);
    assert_eq!(
        CreatePaymentUserRequest::decode(&payload),
        Ok(CreatePaymentUserRequest::ExistingUser { id: "u_9".to_string() })
    );
    let not_text = object(vec![("id", Value::Integer(5)), ("name", text("A"))]);
    assert_eq!(CreatePaymentUserRequest::decode(&not_text), Err(DecodeError::ExpectedText));
}

#[test]
fn user_requests_are_encoded_by_their_members_alone() {
    let existing = CreatePaymentUserRequest::ExistingUser { id: "u_1".to_string() };
    assert_eq!(existing.encode(), object(vec![("id", text("u_1"))]));
    let new = CreatePaymentUserRequest::NewUser {
        name: Some("A".to_string()),
        email: None,
        phone: None,
    };
    assert_eq!(
        new.encode(),
        object(vec![("name", text("A")), ("email", Value::Null), ("phone", Value::Null)])
    );
}

#[test]
fn codes_are_upper_case() {
    assert_eq!(Currency::Gbp.to_string(), "GBP");
    assert_eq!(Currency::Eur.to_string(), "EUR");
    assert_eq!(Currency::Gbp.as_str(), "GBP");
    assert_eq!(Currency::Gbp.encode(), text("GBP"));
    assert_eq!(Currency::Eur.encode(), text("EUR"));
    assert_eq!(CountryCode::GB.encode(), text("GB"));
    assert_eq!(CountryCode::decode(&text("PT")), Ok(CountryCode::PT));
    assert_eq!(Currency::from_code("GBP"), Some(Currency::Gbp));
    assert_eq!(Currency::from_code("EUR"), Some(Currency::Eur));
    assert_eq!(Currency::from_code("gbp"), None);
    assert_eq!(Currency::from_code(""), None);
    assert_eq!(Currency::decode(&text("gbp")), Err(DecodeError::UnknownVariant));
    assert_eq!(Currency::decode(&Value::Integer(1)), Err(DecodeError::ExpectedText));
}

#[test]
fn plain_variants_are_named_in_snake_case() {
    assert_eq!(FailureStage::AuthorizationRequired.encode(), text("authorization_required"));
    assert_eq!(FailureStage::Authorizing.encode(), text("authorizing"));
    assert_eq!(FailureStage::Authorized.encode(), text("authorized"));
    assert_eq!(ReleaseChannel::GeneralAvailability.encode(), text("general_availability"));
    assert_eq!(ReleaseChannel::PublicBeta.encode(), text("public_beta"));
    assert_eq!(CustomerSegment::Corporate.encode(), text("corporate"));
    assert_eq!(AdditionalInputFormat::SortCode.encode(), text("sort_code"));
    assert_eq!(AdditionalInputFormat::decode(&text("iban")), Ok(AdditionalInputFormat::Iban));
    assert_eq!(AdditionalInputFormat::from_code("SortCode"), None);
}

#[test]
fn status_is_told_by_its_discriminator() {
    let required = object(vec![("status", text("authorization_required"))]);
    assert_eq!(PaymentStatus::decode(&required), Ok(PaymentStatus::AuthorizationRequired));

    let authorized = object(vec![("status", text("authorized"))]);
    assert_eq!(
        PaymentStatus::decode(&authorized),
        Ok(PaymentStatus::Authorized { authorization_flow: None })
    );

    let executed = object(vec![
        ("status", text("executed")),
        ("executed_at", text("2022-01-01T00:00:05Z")),
    ]);
    assert_eq!(
        PaymentStatus::decode(&executed),
        Ok(PaymentStatus::Executed {
            executed_at: Timestamp::parse("2022-01-01T00:00:05Z").unwrap(),
            authorization_flow: None,
            settlement_risk: None,
        })
    );

    let failed = object(vec![
        ("status", text("failed")),
        ("failed_at", text("2022-01-01T00:00:05Z")),
        ("failure_stage", text("authorizing")),
        ("failure_reason", text("provider_rejected")),
    ]);
    assert_eq!(
        PaymentStatus::decode(&failed),
        Ok(PaymentStatus::Failed {
            failed_at: Timestamp::parse("2022-01-01T00:00:05Z").unwrap(),
            failure_stage: FailureStage::Authorizing,
            failure_reason: "provider_rejected".to_string(),
            authorization_flow: None,
        })
    );
}

#[test]
fn unknown_and_missing_discriminators_fail() {
    let unknown = object(vec![("status", text("pending"))]);
    assert_eq!(PaymentStatus::decode(&unknown), Err(DecodeError::UnknownVariant));
    let missing = object(vec![("executed_at", text("2022-01-01T00:00:05Z"))]);
    assert_eq!(PaymentStatus::decode(&missing), Err(DecodeError::MissingField));
    let not_text = object(vec![("status", Value::Integer(3))]);
    assert_eq!(PaymentStatus::decode(&not_text), Err(DecodeError::ExpectedText));
    let camel = object(vec![("status", text("AuthorizationRequired"))]);
    assert_eq!(PaymentStatus::decode(&camel), Err(DecodeError::UnknownVariant));
    assert_eq!(PaymentStatus::decode(&text("executed")), Err(DecodeError::ExpectedObject));
    let account = object(vec![("type", text("swift")), ("iban", text("x"))]);
    assert_eq!(AccountIdentifier::decode(&account), Err(DecodeError::UnknownVariant));
}

#[test]
fn authorizing_needs_its_flow() {
    let bare = object(vec![("status", text("authorizing"))]);
    assert_eq!(PaymentStatus::decode(&bare), Err(DecodeError::MissingField));
    let with_flow = object(vec![
        ("status", text("authorizing")),
        ("authorization_flow", object(vec![])),
    ]);
    assert_eq!(
        PaymentStatus::decode(&with_flow),
        Ok(PaymentStatus::Authorizing {
            authorization_flow: AuthorizationFlow { actions: None, configuration: None },
        })
    );
}

#[test]
fn absent_and_null_members_are_both_absent_values() {
    let absent = object(vec![("id", text("u_1"))]);
    let null = object(vec![
        ("id", text("u_1")),
        ("name", Value::Null),
        ("email", Value::Null),
        ("phone", Value::Null),
    ]);
    let user = User { id: "u_1".to_string(), name: None, email: None, phone: None };
    assert_eq!(User::decode(&absent), Ok(user.clone()));
    assert_eq!(User::decode(&null), Ok(user.clone()));
    assert_eq!(user.encode(), null);
}

#[test]
fn members_that_are_not_known_are_passed_over() {
    let payload = object(vec![
        ("colour", text("blue")),
        ("id", text("u_1")),
        ("age", Value::Integer(30)),
    ]);
    assert_eq!(
        User::decode(&payload),
        Ok(User { id: "u_1".to_string(), name: None, email: None, phone: None })
    );
}

#[test]
fn account_identifiers_default_to_none() {
    let payload = object(vec![("id", text("src_1"))]);
    assert_eq!(
        PaymentSource::decode(&payload),
        Ok(PaymentSource {
            id: "src_1".to_string(),
            user_id: None,
            account_identifiers: vec![],
            account_holder_name: None,
        })
    );
    let null = object(vec![("id", text("src_1")), ("account_identifiers", Value::Null)]);
    assert_eq!(PaymentSource::decode(&null), Err(DecodeError::ExpectedArray));
}

#[test]
fn a_payment_holds_the_members_of_its_status_beside_its_own() {
    let payment = sample_payment(PaymentStatus::Executed {
        executed_at: Timestamp::parse("2022-01-01T00:00:05Z").unwrap(),
        authorization_flow: None,
        settlement_risk: None,
    });
    let encoded = payment.encode();
    let expected = object(vec![
        ("id", text("pay_1")),
        ("amount_in_minor", Value::Integer(100)),
        ("currency", text("GBP")),
        (
            "user",
            object(vec![
                ("id", text("u_1")),
                ("name", Value::Null),
                ("email", Value::Null),
                ("phone", Value::Null),
            ]),
        ),
        (
            "payment_method",
            object(vec![
                ("type", text("bank_transfer")),
                (
                    "provider_selection",
                    object(vec![
                        ("type", text("user_selected")),
                        ("filter", Value::Null),
                        ("preferred_scheme_ids", Value::Null),
                    ]),
                ),
                (
                    "beneficiary",
                    object(vec![
                        ("type", text("merchant_account")),
                        ("merchant_account_id", text("m_1")),
                        ("account_holder_name", Value::Null),
                    ]),
                ),
            ]),
        ),
        ("created_at", text("2022-01-01T00:00:00Z")),
        ("metadata", Value::Null),
        ("status", text("executed")),
        ("executed_at", text("2022-01-01T00:00:05Z")),
        ("authorization_flow", Value::Null),
        ("settlement_risk", Value::Null),
    ]);
    assert_eq!(encoded, expected);
    assert_eq!(Payment::decode(&expected), Ok(payment));
}

#[test]
fn a_payment_without_a_status_fails() {
    let payment = sample_payment(PaymentStatus::AuthorizationRequired);
    let members = match payment.encode() {
        Value::Object(members) => members,
        other => panic!("a payment is an object, not {:?}", other),
    };
    let stripped: Vec<(String, Value)> =
        members.into_iter().filter(|(key, _)| key.as_str() != "status").collect();
    assert_eq!(Payment::decode(&Value::Object(stripped)), Err(DecodeError::MissingField));
}

#[test]
fn the_first_fault_in_the_order_of_the_members_is_reported() {
    let payload = object(vec![("id", Value::Integer(1)), ("amount_in_minor", text("x"))]);
    assert_eq!(Payment::decode(&payload), Err(DecodeError::ExpectedText));
    let payload = object(vec![("id", text("p")), ("amount_in_minor", text("x"))]);
    assert_eq!(Payment::decode(&payload), Err(DecodeError::ExpectedInteger));
    let payload = object(vec![("id", text("p")), ("amount_in_minor", Value::Integer(-1))]);
    assert_eq!(Payment::decode(&payload), Err(DecodeError::IntegerOutOfRange));
    let payload = object(vec![("id", text("p")), ("amount_in_minor", Value::Integer(1))]);
    assert_eq!(Payment::decode(&payload), Err(DecodeError::MissingField));
}

#[test]
fn each_kind_of_fault_has_its_error() {
    assert_eq!(User::decode(&Value::Null), Err(DecodeError::ExpectedObject));
    assert_eq!(Vec::<String>::decode(&text("x")), Err(DecodeError::ExpectedArray));
    assert_eq!(String::decode(&Value::Integer(1)), Err(DecodeError::ExpectedText));
    assert_eq!(u64::decode(&text("1")), Err(DecodeError::ExpectedInteger));
    assert_eq!(u64::decode(&Value::Decimal("1.5".to_string())), Err(DecodeError::ExpectedInteger));
    assert_eq!(bool::decode(&Value::Integer(1)), Err(DecodeError::ExpectedBoolean));
    assert_eq!(u64::decode(&Value::Integer(-1)), Err(DecodeError::IntegerOutOfRange));
    assert_eq!(
        u64::decode(&Value::Integer(u64::MAX as i128 + 1)),
        Err(DecodeError::IntegerOutOfRange)
    );
    assert_eq!(i32::decode(&Value::Integer(i32::MAX as i128 + 1)), Err(DecodeError::IntegerOutOfRange));
    assert_eq!(User::decode(&object(vec![])), Err(DecodeError::MissingField));
    assert_eq!(Currency::decode(&text("USD")), Err(DecodeError::UnknownVariant));
    assert_eq!(Timestamp::decode(&text("yesterday")), Err(DecodeError::InvalidTimestamp));
    let twice = object(vec![("a", text("1")), ("a", text("2"))]);
    assert_eq!(StringMap::decode(&twice), Err(DecodeError::DuplicateKey));
}

#[test]
fn integers_are_decoded_within_their_range() {
    assert_eq!(u64::decode(&Value::Integer(0)), Ok(0));
    assert_eq!(u64::decode(&Value::Integer(u64::MAX as i128)), Ok(u64::MAX));
    assert_eq!(i32::decode(&Value::Integer(i32::MIN as i128)), Ok(i32::MIN));
    assert_eq!(i32::decode(&Value::Integer(-7)), Ok(-7));
    assert_eq!(100u64.encode(), Value::Integer(100));
    assert_eq!((-3i32).encode(), Value::Integer(-3));
    assert_eq!(true.encode(), Value::Boolean(true));
    assert_eq!(bool::decode(&Value::Boolean(false)), Ok(false));
}

#[test]
fn sequences_report_the_first_item_that_fails() {
    let items = Value::Array(vec![text("a"), Value::Integer(1), Value::Boolean(true)]);
    assert_eq!(Vec::<String>::decode(&items), Err(DecodeError::ExpectedText));
    let codes = Value::Array(vec![text("GB"), text("XX"), Value::Integer(1)]);
    assert_eq!(Vec::<CountryCode>::decode(&codes), Err(DecodeError::UnknownVariant));
    let good = Value::Array(vec![text("GB"), text("FR")]);
    assert_eq!(Vec::<CountryCode>::decode(&good), Ok(vec![CountryCode::GB, CountryCode::FR]));
    assert_eq!(vec![CountryCode::GB, CountryCode::FR].encode(), good);
}

#[test]
fn a_failed_step_is_an_answer_that_decodes() {
    let payload = object(vec![
        ("status", text("failed")),
        ("failure_stage", text("authorizing")),
        ("failure_reason", text("provider_not_offered")),
    ]);
    assert_eq!(
        SubmitProviderSelectionActionResponse::decode(&payload),
        Ok(SubmitProviderSelectionActionResponse {
            authorization_flow: None,
            status: AuthorizationFlowResponseStatus::Failed {
                failure_stage: FailureStage::Authorizing,
                failure_reason: "provider_not_offered".to_string(),
            },
        })
    );
    let succeeded = object(vec![("status", text("authorizing"))]);
    assert_eq!(
        SubmitProviderSelectionActionResponse::decode(&succeeded),
        Ok(SubmitProviderSelectionActionResponse {
            authorization_flow: None,
            status: AuthorizationFlowResponseStatus::Authorizing,
        })
    );
}

#[test]
fn return_parameters_resolve_to_the_payment() {
    let payload = object(vec![(
        "resource",
        object(vec![("type", text("payment")), ("payment_id", text("pay_1"))]),
    )]);
    let response = SubmitProviderReturnParametersResponse {
        resource: SubmitProviderReturnParametersResponseResource::Payment {
            payment_id: "pay_1".to_string(),
        },
    };
    assert_eq!(SubmitProviderReturnParametersResponse::decode(&payload), Ok(response.clone()));
    assert_eq!(response.encode(), payload);
}

#[test]
fn a_form_action_carries_its_inputs() {
    let display = || object(vec![("key", text("k")), ("default", text("Name"))]);
    let input = object(vec![
        ("type", text("select")),
        ("id", text("branch")),
        ("mandatory", Value::Boolean(true)),
        ("display_text", display()),
        ("options", Value::Array(vec![object(vec![("id", text("o1")), ("display_text", display())])])),
    ]);
    let flow = object(vec![(
        "actions",
        object(vec![(
            "next",
            object(vec![("type", text("form")), ("inputs", Value::Array(vec![input]))]),
        )]),
    )]);
    let decoded = AuthorizationFlow::decode(&flow).unwrap();
    let text_of = AdditionalInputDisplayText { key: "k".to_string(), default: "Name".to_string() };
    assert_eq!(
        decoded.actions,
        Some(AuthorizationFlowActions {
            next: AuthorizationFlowNextAction::Form {
                inputs: vec![AdditionalInput::Select {
                    id: "branch".to_string(),
                    mandatory: true,
                    display_text: text_of.clone(),
                    description: None,
                    options: vec![truelayer_payments::flow::AdditionalInputOption {
                        id: "o1".to_string(),
                        display_text: text_of,
                    }],
                }],
            },
        })
    );
    assert_eq!(decoded.configuration, None);
}

#[test]
fn a_capability_without_members_is_an_empty_object() {
    assert_eq!(ProviderSelectionSupported {}.encode(), object(vec![]));
    assert_eq!(
        ProviderSelectionSupported::decode(&object(vec![("x", Value::Null)])),
        Ok(ProviderSelectionSupported {})
    );
    assert_eq!(ProviderSelectionSupported::decode(&Value::Null), Err(DecodeError::ExpectedObject));
}
