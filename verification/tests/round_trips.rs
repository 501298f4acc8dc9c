use truelayer_payments::account::{AccountIdentifier, Beneficiary, PaymentSource, Remitter};
use truelayer_payments::flow::{
    AdditionalInput, AdditionalInputDisplayText, AdditionalInputFormat, AdditionalInputImage,
    AdditionalInputOption, AdditionalInputRegex, AdditionalInputType, AuthorizationFlow,
    AuthorizationFlowActions, AuthorizationFlowConfiguration, AuthorizationFlowNextAction,
    FormSupported, ProviderSelectionSupported, RedirectActionMetadata, RedirectSupported,
};
use truelayer_payments::money::{CountryCode, Currency};
use truelayer_payments::payment::{
    CreatePaymentRequest, CreatePaymentResponse, CreatePaymentUserRequest,
    CreatePaymentUserResponse, FailureStage, Payment, PaymentMethod, PaymentStatus,
    SettlementRisk, Token, User,
};
use truelayer_payments::provider::{
    CustomerSegment, Provider, ProviderFilter, ProviderFilterExcludes, ProviderSelection,
    ReleaseChannel,
};
use truelayer_payments::string_map::StringMap;
use truelayer_payments::submission::{
    AuthorizationFlowResponseStatus, StartAuthorizationFlowRequest,
    StartAuthorizationFlowResponse, SubmitFormActionRequest, SubmitFormActionResponse,
    SubmitProviderReturnParametersRequest, SubmitProviderSelectionActionRequest,
};
use truelayer_payments::time::Timestamp;
use truelayer_payments::wire::Wire;

fn s(text: &str) -> String {
    text.to_string()
}

fn at(text: &str) -> Timestamp {
    Timestamp::parse(text).unwrap()
}

fn display(key: &str) -> AdditionalInputDisplayText {
    AdditionalInputDisplayText { key: s(key), default: s("Shown") }
}

fn full_provider() -> Provider {
    Provider {
        id: s("ob-mock"),
        display_name: Some(s("Mock Bank")),
        icon_uri: Some(s("https://icons/mock")),
        logo_uri: Some(s("https://logos/mock")),
        bg_color: Some(s("#FFFFFF")),
        country_code: Some(CountryCode::GB),
    }
}

fn bare_provider() -> Provider {
    Provider {
        id: s("ob-bare"),
        display_name: None,
        icon_uri: None,
        logo_uri: None,
        bg_color: None,
        country_code: None,
    }
}

fn full_flow() -> AuthorizationFlow {
    AuthorizationFlow {
        actions: Some(AuthorizationFlowActions {
            next: AuthorizationFlowNextAction::ProviderSelection {
                providers: vec![full_provider(), bare_provider()],
            },
        }),
        configuration: Some(AuthorizationFlowConfiguration {
            provider_selection: Some(ProviderSelectionSupported {}),
            redirect: Some(RedirectSupported {
                return_uri: s("https://return"),
                direct_return_uri: Some(s("https://direct")),
            }),
            form: Some(FormSupported {
                input_types: vec![
                    AdditionalInputType::Text,
                    AdditionalInputType::Select,
                    AdditionalInputType::TextWithImage,
                ],
            }),
        }),
    }
}

fn empty_flow() -> AuthorizationFlow {
    AuthorizationFlow { actions: None, configuration: None }
}

fn metadata() -> StringMap {
    let mut map = StringMap::new();
    map.insert(s("order"), s("42"));
    map.insert(s("channel"), s("web"));
    map
}

fn round_trips<T: Wire + PartialEq + std::fmt::Debug>(value: T) {
    let encoded = value.encode();
    assert_eq!(T::decode(&encoded), Ok(value));
}

#[test]
fn payment_status_round_trips_in_every_variant() {
    round_trips(PaymentStatus::AuthorizationRequired);
    round_trips(PaymentStatus::Authorizing { authorization_flow: full_flow() });
    round_trips(PaymentStatus::Authorizing { authorization_flow: empty_flow() });
    round_trips(PaymentStatus::Authorized { authorization_flow: None });
    round_trips(PaymentStatus::Authorized { authorization_flow: Some(full_flow()) });
    round_trips(PaymentStatus::Executed {
        executed_at: at("2022-03-04T05:06:07Z"),
        authorization_flow: None,
        settlement_risk: None,
    });
    round_trips(PaymentStatus::Executed {
        executed_at: at("2022-03-04T05:06:07.123456Z"),
        authorization_flow: Some(full_flow()),
        settlement_risk: Some(SettlementRisk { category: s("low_risk") }),
    });
    round_trips(PaymentStatus::Settled {
        payment_source: PaymentSource {
            id: s("src_1"),
            user_id: None,
            account_identifiers: vec![],
            account_holder_name: None,
        },
        executed_at: at("2022-03-04T05:06:07Z"),
        settled_at: at("2022-03-04T05:06:09Z"),
        authorization_flow: None,
        settlement_risk: None,
    });
    round_trips(PaymentStatus::Settled {
        payment_source: PaymentSource {
            id: s("src_1"),
            user_id: Some(s("u_1")),
            account_identifiers: vec![
                AccountIdentifier::Iban { iban: s("GB33BUKB20201555555555") },
                AccountIdentifier::SortCodeAccountNumber {
                    sort_code: s("040668"),
                    account_number: s("00000871"),
                },
            ],
            account_holder_name: Some(s("A. Payer")),
        },
        executed_at: at("2022-03-04T05:06:07Z"),
        settled_at: at("2022-03-04T05:06:09Z"),
        authorization_flow: Some(empty_flow()),
        settlement_risk: Some(SettlementRisk { category: s("high_risk") }),
    });
    round_trips(PaymentStatus::Failed {
        failed_at: at("2022-03-04T05:06:07Z"),
        failure_stage: FailureStage::AuthorizationRequired,
        failure_reason: s("canceled"),
        authorization_flow: None,
    });
    round_trips(PaymentStatus::Failed {
        failed_at: at("2022-03-04T05:06:07Z"),
        failure_stage: FailureStage::Authorized,
        failure_reason: s("provider_rejected"),
        authorization_flow: Some(full_flow()),
    });
}

#[test]
fn next_action_round_trips_in_every_variant() {
    round_trips(AuthorizationFlowNextAction::ProviderSelection { providers: vec![] });
    round_trips(AuthorizationFlowNextAction::ProviderSelection {
        providers: vec![full_provider(), bare_provider()],
    });
    round_trips(AuthorizationFlowNextAction::Redirect { uri: s("https://bank"), metadata: None });
    round_trips(AuthorizationFlowNextAction::Redirect {
        uri: s("https://bank"),
        metadata: Some(RedirectActionMetadata::Provider(full_provider())),
    });
    round_trips(AuthorizationFlowNextAction::Redirect {
        uri: s("https://bank"),
        metadata: Some(RedirectActionMetadata::Provider(bare_provider())),
    });
    round_trips(AuthorizationFlowNextAction::Form { inputs: vec![] });
    round_trips(AuthorizationFlowNextAction::Wait);
}

#[test]
fn account_identifier_round_trips_in_every_variant() {
    round_trips(AccountIdentifier::SortCodeAccountNumber {
        sort_code: s("040668"),
        account_number: s("00000871"),
    });
    round_trips(AccountIdentifier::Iban { iban: s("GB33BUKB20201555555555") });
    round_trips(AccountIdentifier::Bban { bban: s("BUKB20201555555555") });
    round_trips(AccountIdentifier::Nrb { nrb: s("61109010140000071219812874") });
    round_trips(AccountIdentifier::Iban { iban: s("") });
}

#[test]
fn additional_input_round_trips_in_every_variant() {
    round_trips(AdditionalInput::Text {
        id: s("name"),
        mandatory: true,
        display_text: display("name"),
        description: None,
        format: AdditionalInputFormat::Alphabetical,
        sensitive: false,
        min_length: 1,
        max_length: 40,
        regexes: vec![],
    });
    round_trips(AdditionalInput::Text {
        id: s("pin"),
        mandatory: false,
        display_text: display("pin"),
        description: Some(display("pin.help")),
        format: AdditionalInputFormat::Numerical,
        sensitive: true,
        min_length: -1,
        max_length: i32::MAX,
        regexes: vec![AdditionalInputRegex { regex: s("^[0-9]+$"), message: display("pin.bad") }],
    });
    round_trips(AdditionalInput::Select {
        id: s("branch"),
        mandatory: true,
        display_text: display("branch"),
        description: None,
        options: vec![],
    });
    round_trips(AdditionalInput::Select {
        id: s("branch"),
        mandatory: false,
        display_text: display("branch"),
        description: Some(display("branch.help")),
        options: vec![
            AdditionalInputOption { id: s("north"), display_text: display("north") },
            AdditionalInputOption { id: s("south"), display_text: display("south") },
        ],
    });
    round_trips(AdditionalInput::TextWithImage {
        id: s("captcha"),
        mandatory: true,
        display_text: display("captcha"),
        description: None,
        format: AdditionalInputFormat::Any,
        sensitive: false,
        min_length: 4,
        max_length: 8,
        regexes: vec![],
        image: AdditionalInputImage::Uri { uri: s("https://image") },
    });
    round_trips(AdditionalInput::TextWithImage {
        id: s("captcha"),
        mandatory: true,
        display_text: display("captcha"),
        description: Some(display("captcha.help")),
        format: AdditionalInputFormat::Alphanumerical,
        sensitive: true,
        min_length: 4,
        max_length: 8,
        regexes: vec![AdditionalInputRegex { regex: s(".*"), message: display("any") }],
        image: AdditionalInputImage::Base64 { data: s("AAAA"), media_type: s("image/png") },
    });
}

#[test]
fn beneficiary_round_trips_in_every_variant() {
    round_trips(Beneficiary::MerchantAccount {
        merchant_account_id: s("m_1"),
        account_holder_name: None,
    });
    round_trips(Beneficiary::MerchantAccount {
        merchant_account_id: s("m_1"),
        account_holder_name: Some(s("Merchant Ltd")),
    });
    round_trips(Beneficiary::ExternalAccount {
        account_holder_name: s("Supplier Ltd"),
        account_identifier: AccountIdentifier::Iban { iban: s("GB33BUKB20201555555555") },
        reference: s("invoice 7"),
    });
}

#[test]
fn provider_selection_round_trips_in_every_variant() {
    round_trips(ProviderSelection::UserSelected { filter: None, preferred_scheme_ids: None });
    round_trips(ProviderSelection::UserSelected {
        filter: Some(ProviderFilter {
            countries: None,
            release_channel: None,
            customer_segments: None,
            provider_ids: None,
            excludes: None,
        }),
        preferred_scheme_ids: Some(vec![]),
    });
    round_trips(ProviderSelection::UserSelected {
        filter: Some(ProviderFilter {
            countries: Some(vec![CountryCode::GB, CountryCode::IE, CountryCode::LT]),
            release_channel: Some(ReleaseChannel::PrivateBeta),
            customer_segments: Some(vec![CustomerSegment::Retail, CustomerSegment::Business]),
            provider_ids: Some(vec![s("ob-mock")]),
            excludes: Some(ProviderFilterExcludes { provider_ids: Some(vec![s("ob-other")]) }),
        }),
        preferred_scheme_ids: Some(vec![s("faster_payments_service")]),
    });
    round_trips(ProviderSelection::Preselected {
        provider_id: s("ob-mock"),
        scheme_id: s("faster_payments_service"),
        remitter: None,
    });
    round_trips(ProviderSelection::Preselected {
        provider_id: s("ob-mock"),
        scheme_id: s("faster_payments_service"),
        remitter: Some(Remitter {
            account_holder_name: Some(s("A. Payer")),
            account_identifier: Some(AccountIdentifier::Nrb { nrb: s("61109010140000071219812874") }),
        }),
    });
    round_trips(ProviderSelection::Preselected {
        provider_id: s("ob-mock"),
        scheme_id: s("sepa"),
        remitter: Some(Remitter { account_holder_name: None, account_identifier: None }),
    });
}

#[test]
fn payments_and_requests_round_trip() {
    let method = PaymentMethod::BankTransfer {
        provider_selection: ProviderSelection::UserSelected {
            filter: None,
            preferred_scheme_ids: None,
        },
        beneficiary: Beneficiary::MerchantAccount {
            merchant_account_id: s("m_1"),
            account_holder_name: None,
        },
    };
    round_trips(Payment {
        id: s("pay_1"),
        amount_in_minor: u64::MAX,
        currency: Currency::Eur,
        user: User {
            id: s("u_1"),
            name: Some(s("A")),
            email: Some(s("a@example.com")),
            phone: Some(s("+44")),
        },
        payment_method: method.clone(),
        created_at: at("2022-01-01T00:00:00+01:00"),
        metadata: Some(metadata()),
        status: PaymentStatus::Authorizing { authorization_flow: full_flow() },
    });
    round_trips(CreatePaymentRequest {
        amount_in_minor: 100,
        currency: Currency::Gbp,
        payment_method: method.clone(),
        user: CreatePaymentUserRequest::ExistingUser { id: s("u_1") },
        metadata: None,
    });
    round_trips(CreatePaymentRequest {
        amount_in_minor: 0,
        currency: Currency::Gbp,
        payment_method: method,
        user: CreatePaymentUserRequest::NewUser { name: None, email: None, phone: None },
        metadata: Some(metadata()),
    });
    round_trips(CreatePaymentResponse {
        id: s("pay_1"),
        resource_token: Token::new(s("SECRET-REDACTED")),
        user: CreatePaymentUserResponse { id: s("u_1") },
    });
}

#[test]
fn submissions_round_trip() {
    round_trips(StartAuthorizationFlowRequest { provider_selection: None, redirect: None, form: None });
    round_trips(StartAuthorizationFlowRequest {
        provider_selection: Some(ProviderSelectionSupported {}),
        redirect: Some(RedirectSupported { return_uri: s("https://return"), direct_return_uri: None }),
        form: Some(FormSupported { input_types: vec![] }),
    });
    round_trips(StartAuthorizationFlowResponse {
        authorization_flow: Some(full_flow()),
        status: AuthorizationFlowResponseStatus::Authorizing,
    });
    round_trips(SubmitFormActionResponse {
        authorization_flow: None,
        status: AuthorizationFlowResponseStatus::Failed {
            failure_stage: FailureStage::Authorizing,
            failure_reason: s("invalid_input"),
        },
    });
    round_trips(SubmitProviderSelectionActionRequest { provider_id: s("ob-mock") });
    round_trips(SubmitFormActionRequest { inputs: metadata() });
    round_trips(SubmitFormActionRequest { inputs: StringMap::new() });
    round_trips(SubmitProviderReturnParametersRequest { query: s("code=1&state=2"), fragment: s("") });
}
