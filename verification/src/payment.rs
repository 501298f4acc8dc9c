//! Payments: what is sent to create one, and the snapshots of its life.

use crate::account::{Beneficiary, BeneficiaryView, PaymentSource, PaymentSourceView};
use crate::flow::{AuthorizationFlow, AuthorizationFlowNextAction, AuthorizationFlowView};
use crate::money::Currency;
use crate::polling::{resolve, Error, IsInTerminalState, Pollable};
use crate::provider::{ProviderSelection, ProviderSelectionView};
use crate::string_map::StringMap;
use crate::time::{Timestamp, TimestampView};
use crate::wire::{
    encode_optional, encoded_optional, find, get_optional, get_required, lemma_lookup_concat,
    lemma_object_view, lemma_optional_round_trip, lookup, lookup_from, members, new_object,
    optional, put, put_all, required, str_eq, text, valid_optional, DecodeError, Value, ValueView,
    Wire,
};
use vstd::prelude::*;

verus! {

/// The stage at which a payment failed.
#[derive(Debug, Clone, Copy, PartialEq, Eq, Hash, Structural)]
pub enum FailureStage {
    AuthorizationRequired,
    Authorizing,
    Authorized,
}

impl FailureStage {
    /// The name that stands for the variant in a payload.
    pub open spec fn code(self) -> Seq<char> {
        match self {
            FailureStage::AuthorizationRequired => "authorization_required"@,
            FailureStage::Authorizing => "authorizing"@,
            FailureStage::Authorized => "authorized"@,
        }
    }

    /// The variant that a name stands for, if it stands for one.
    pub open spec fn named(code: Seq<char>) -> Option<FailureStage> {
        if code == "authorization_required"@ {
            Some(FailureStage::AuthorizationRequired)
        } else if code == "authorizing"@ {
            Some(FailureStage::Authorizing)
        } else if code == "authorized"@ {
            Some(FailureStage::Authorized)
        } else {
            None
        }
    }

    /// The name that stands for the variant in a payload.
    pub fn as_str(&self) -> (s: &'static str)
        ensures
            s@ == self.code(),
    {
        match self {
            FailureStage::AuthorizationRequired => "authorization_required",
            FailureStage::Authorizing => "authorizing",
            FailureStage::Authorized => "authorized",
        }
    }

    /// The variant that `code` stands for; `None` for any other text.
    pub fn from_code(code: &str) -> (r: Option<FailureStage>)
        ensures
            r == Self::named(code@),
    {
        if str_eq(code, "authorization_required") {
            Some(FailureStage::AuthorizationRequired)
        } else if str_eq(code, "authorizing") {
            Some(FailureStage::Authorizing)
        } else if str_eq(code, "authorized") {
            Some(FailureStage::Authorized)
        } else {
            None
        }
    }
}

impl DeepView for FailureStage {
    type V = FailureStage;

    open spec fn deep_view(&self) -> FailureStage {
        *self
    }
}

impl Wire for FailureStage {
    open spec fn valid(m: FailureStage) -> bool {
        true
    }

    open spec fn encoded(m: FailureStage) -> ValueView {
        ValueView::Text(m.code())
    }

    open spec fn decoded(v: ValueView) -> Result<FailureStage, DecodeError> {
        match v {
            ValueView::Text(code) => match Self::named(code) {
                Some(x) => Ok(x),
                None => Err(DecodeError::UnknownVariant),
            },
            _ => Err(DecodeError::ExpectedText),
        }
    }

    fn encode(&self) -> (v: Value) {
        proof {
            Self::round_trip(*self);
        }
        text(self.as_str())
    }

    fn decode(v: &Value) -> (r: Result<FailureStage, DecodeError>) {
        match v {
            Value::Text(code) => match FailureStage::from_code(code.as_str()) {
                Some(x) => Ok(x),
                None => Err(DecodeError::UnknownVariant),
            },
            _ => Err(DecodeError::ExpectedText),
        }
    }

    proof fn round_trip(m: FailureStage) {
        lemma_names();
    }
}

/// The risk category that the backend gave an executed payment.
#[derive(Debug, Clone, PartialEq, Eq)]
pub struct SettlementRisk {
    pub category: String,
}

/// The mathematical content of a [`SettlementRisk`].
pub struct SettlementRiskView {
    pub category: Seq<char>,
}

impl DeepView for SettlementRisk {
    type V = SettlementRiskView;

    open spec fn deep_view(&self) -> SettlementRiskView {
        SettlementRiskView {
            category: self.category.deep_view(),
        }
    }
}

impl Wire for SettlementRisk {
    open spec fn valid(m: SettlementRiskView) -> bool {
        true
    }

    open spec fn encoded(m: SettlementRiskView) -> ValueView {
        ValueView::Object(
            Seq::empty()
                .push(("category"@, String::encoded(m.category))),
        )
    }

    open spec fn decoded(v: ValueView) -> Result<SettlementRiskView, DecodeError> {
        match v {
            ValueView::Object(fields) => {
                let category = required::<String>(fields, "category"@);
                if category is Err {
                    Err(category->Err_0)
                } else {
                    Ok(
                        SettlementRiskView {
                            category: category->Ok_0,
                        },
                    )
                }
            },
            _ => Err(DecodeError::ExpectedObject),
        }
    }

    fn encode(&self) -> (v: Value) {
        let mut fields = new_object();
        put(&mut fields, "category", self.category.encode());
        proof {
            lemma_object_view(fields);
            Self::round_trip(self.deep_view());
        }
        Value::Object(fields)
    }

    fn decode(v: &Value) -> (r: Result<SettlementRisk, DecodeError>) {
        match v {
            Value::Object(fields) => {
                proof {
                    lemma_object_view(*fields);
                }
                let category = get_required::<String>(fields, "category")?;
                Ok(SettlementRisk { category })
            },
            _ => Err(DecodeError::ExpectedObject),
        }
    }

    proof fn round_trip(m: SettlementRiskView) {
        lemma_names();
        reveal_with_fuel(lookup_from, 2);
    }
}

/// How a payment is made.
#[derive(Debug, Clone, PartialEq, Eq)]
pub enum PaymentMethod {
    BankTransfer {
        provider_selection: ProviderSelection,
        beneficiary: Beneficiary,
    },
}

/// The mathematical content of a [`PaymentMethod`].
pub enum PaymentMethodView {
    BankTransfer {
        provider_selection: ProviderSelectionView,
        beneficiary: BeneficiaryView,
    },
}

impl DeepView for PaymentMethod {
    type V = PaymentMethodView;

    open spec fn deep_view(&self) -> PaymentMethodView {
        match self {
            PaymentMethod::BankTransfer { provider_selection, beneficiary } => PaymentMethodView::BankTransfer {
                provider_selection: provider_selection.deep_view(),
                beneficiary: beneficiary.deep_view(),
            },
        }
    }
}

impl Wire for PaymentMethod {
    open spec fn valid(m: PaymentMethodView) -> bool {
        true
    }

    open spec fn encoded(m: PaymentMethodView) -> ValueView {
        match m {
            PaymentMethodView::BankTransfer { provider_selection, beneficiary } => ValueView::Object(
                Seq::empty()
                    .push(("type"@, ValueView::Text("bank_transfer"@)))
                    .push(("provider_selection"@, ProviderSelection::encoded(provider_selection)))
                    .push(("beneficiary"@, Beneficiary::encoded(beneficiary))),
            ),
        }
    }

    open spec fn decoded(v: ValueView) -> Result<PaymentMethodView, DecodeError> {
        match v {
            ValueView::Object(fields) => match required::<String>(fields, "type"@) {
                Err(e) => Err(e),
                Ok(tag) => if tag == "bank_transfer"@ {
                    let provider_selection = required::<ProviderSelection>(fields, "provider_selection"@);
                    let beneficiary = required::<Beneficiary>(fields, "beneficiary"@);
                    if provider_selection is Err {
                        Err(provider_selection->Err_0)
                    } else if beneficiary is Err {
                        Err(beneficiary->Err_0)
                    } else {
                        Ok(
                            PaymentMethodView::BankTransfer {
                                provider_selection: provider_selection->Ok_0,
                                beneficiary: beneficiary->Ok_0,
                            },
                        )
                    }
                } else {
                    Err(DecodeError::UnknownVariant)
                },
            },
            _ => Err(DecodeError::ExpectedObject),
        }
    }

    fn encode(&self) -> (v: Value) {
        let mut fields = new_object();
        match self {
            PaymentMethod::BankTransfer { provider_selection, beneficiary } => {
                put(&mut fields, "type", text("bank_transfer"));
                put(&mut fields, "provider_selection", provider_selection.encode());
                put(&mut fields, "beneficiary", beneficiary.encode());
            },
        }
        proof {
            lemma_object_view(fields);
            Self::round_trip(self.deep_view());
        }
        Value::Object(fields)
    }

    fn decode(v: &Value) -> (r: Result<PaymentMethod, DecodeError>) {
        match v {
            Value::Object(fields) => {
                proof {
                    lemma_object_view(*fields);
                }
                let tag = get_required::<String>(fields, "type")?;
                if str_eq(tag.as_str(), "bank_transfer") {
                    let provider_selection = get_required::<ProviderSelection>(fields, "provider_selection")?;
                    let beneficiary = get_required::<Beneficiary>(fields, "beneficiary")?;
                    Ok(PaymentMethod::BankTransfer { provider_selection, beneficiary })
                } else {
                    Err(DecodeError::UnknownVariant)
                }
            },
            _ => Err(DecodeError::ExpectedObject),
        }
    }

    proof fn round_trip(m: PaymentMethodView) {
        lemma_names();
        reveal_with_fuel(lookup_from, 4);
        match m {
            PaymentMethodView::BankTransfer { provider_selection, beneficiary } => {
                ProviderSelection::round_trip(provider_selection);
                Beneficiary::round_trip(beneficiary);
            },
        }
    }
}

/// The user who pays.
#[derive(Debug, Clone, PartialEq, Eq)]
pub struct User {
    pub id: String,
    pub name: Option<String>,
    pub email: Option<String>,
    pub phone: Option<String>,
}

/// The mathematical content of a [`User`].
pub struct UserView {
    pub id: Seq<char>,
    pub name: Option<Seq<char>>,
    pub email: Option<Seq<char>>,
    pub phone: Option<Seq<char>>,
}

impl DeepView for User {
    type V = UserView;

    open spec fn deep_view(&self) -> UserView {
        UserView {
            id: self.id.deep_view(),
            name: self.name.deep_view(),
            email: self.email.deep_view(),
            phone: self.phone.deep_view(),
        }
    }
}

impl Wire for User {
    open spec fn valid(m: UserView) -> bool {
        true
    }

    open spec fn encoded(m: UserView) -> ValueView {
        ValueView::Object(
            Seq::empty()
                .push(("id"@, String::encoded(m.id)))
                .push(("name"@, encoded_optional::<String>(m.name)))
                .push(("email"@, encoded_optional::<String>(m.email)))
                .push(("phone"@, encoded_optional::<String>(m.phone))),
        )
    }

    open spec fn decoded(v: ValueView) -> Result<UserView, DecodeError> {
        match v {
            ValueView::Object(fields) => {
                let id = required::<String>(fields, "id"@);
                let name = optional::<String>(fields, "name"@);
                let email = optional::<String>(fields, "email"@);
                let phone = optional::<String>(fields, "phone"@);
                if id is Err {
                    Err(id->Err_0)
                } else if name is Err {
                    Err(name->Err_0)
                } else if email is Err {
                    Err(email->Err_0)
                } else if phone is Err {
                    Err(phone->Err_0)
                } else {
                    Ok(
                        UserView {
                            id: id->Ok_0,
                            name: name->Ok_0,
                            email: email->Ok_0,
                            phone: phone->Ok_0,
                        },
                    )
                }
            },
            _ => Err(DecodeError::ExpectedObject),
        }
    }

    fn encode(&self) -> (v: Value) {
        let mut fields = new_object();
        put(&mut fields, "id", self.id.encode());
        put(&mut fields, "name", encode_optional::<String>(&self.name));
        put(&mut fields, "email", encode_optional::<String>(&self.email));
        put(&mut fields, "phone", encode_optional::<String>(&self.phone));
        proof {
            lemma_object_view(fields);
            Self::round_trip(self.deep_view());
        }
        Value::Object(fields)
    }

    fn decode(v: &Value) -> (r: Result<User, DecodeError>) {
        match v {
            Value::Object(fields) => {
                proof {
                    lemma_object_view(*fields);
                }
                let id = get_required::<String>(fields, "id")?;
                let name = get_optional::<String>(fields, "name")?;
                let email = get_optional::<String>(fields, "email")?;
                let phone = get_optional::<String>(fields, "phone")?;
                Ok(User { id, name, email, phone })
            },
            _ => Err(DecodeError::ExpectedObject),
        }
    }

    proof fn round_trip(m: UserView) {
        lemma_names();
        reveal_with_fuel(lookup_from, 5);
    }
}

/// The stage of its life that a payment is in, with what is known at that
/// stage.
#[derive(Debug, Clone, PartialEq, Eq)]
pub enum PaymentStatus {
    /// Created; no authorization flow has started.
    AuthorizationRequired,
    /// The authorization flow is under way.
    Authorizing {
        authorization_flow: AuthorizationFlow,
    },
    /// Authorized, and not yet executed: the payment may still fail.
    Authorized {
        authorization_flow: Option<AuthorizationFlow>,
    },
    /// Sent to the bank.
    Executed {
        executed_at: Timestamp,
        authorization_flow: Option<AuthorizationFlow>,
        settlement_risk: Option<SettlementRisk>,
    },
    /// The funds have arrived.
    Settled {
        payment_source: PaymentSource,
        executed_at: Timestamp,
        settled_at: Timestamp,
        authorization_flow: Option<AuthorizationFlow>,
        settlement_risk: Option<SettlementRisk>,
    },
    /// Failed, at the stage and for the reason given.
    Failed {
        failed_at: Timestamp,
        failure_stage: FailureStage,
        failure_reason: String,
        authorization_flow: Option<AuthorizationFlow>,
    },
}

/// The mathematical content of a [`PaymentStatus`].
pub enum PaymentStatusView {
    AuthorizationRequired,
    Authorizing {
        authorization_flow: AuthorizationFlowView,
    },
    Authorized {
        authorization_flow: Option<AuthorizationFlowView>,
    },
    Executed {
        executed_at: TimestampView,
        authorization_flow: Option<AuthorizationFlowView>,
        settlement_risk: Option<SettlementRiskView>,
    },
    Settled {
        payment_source: PaymentSourceView,
        executed_at: TimestampView,
        settled_at: TimestampView,
        authorization_flow: Option<AuthorizationFlowView>,
        settlement_risk: Option<SettlementRiskView>,
    },
    Failed {
        failed_at: TimestampView,
        failure_stage: FailureStage,
        failure_reason: Seq<char>,
        authorization_flow: Option<AuthorizationFlowView>,
    },
}

impl DeepView for PaymentStatus {
    type V = PaymentStatusView;

    open spec fn deep_view(&self) -> PaymentStatusView {
        match self {
            PaymentStatus::AuthorizationRequired => PaymentStatusView::AuthorizationRequired,
            PaymentStatus::Authorizing { authorization_flow } => PaymentStatusView::Authorizing {
                authorization_flow: authorization_flow.deep_view(),
            },
            PaymentStatus::Authorized { authorization_flow } => PaymentStatusView::Authorized {
                authorization_flow: authorization_flow.deep_view(),
            },
            PaymentStatus::Executed { executed_at, authorization_flow, settlement_risk } => PaymentStatusView::Executed {
                executed_at: executed_at.deep_view(),
                authorization_flow: authorization_flow.deep_view(),
                settlement_risk: settlement_risk.deep_view(),
            },
            PaymentStatus::Settled { payment_source, executed_at, settled_at, authorization_flow, settlement_risk } => PaymentStatusView::Settled {
                payment_source: payment_source.deep_view(),
                executed_at: executed_at.deep_view(),
                settled_at: settled_at.deep_view(),
                authorization_flow: authorization_flow.deep_view(),
                settlement_risk: settlement_risk.deep_view(),
            },
            PaymentStatus::Failed { failed_at, failure_stage, failure_reason, authorization_flow } => PaymentStatusView::Failed {
                failed_at: failed_at.deep_view(),
                failure_stage: failure_stage.deep_view(),
                failure_reason: failure_reason.deep_view(),
                authorization_flow: authorization_flow.deep_view(),
            },
        }
    }
}

impl Wire for PaymentStatus {
    open spec fn valid(m: PaymentStatusView) -> bool {
        match m {
            PaymentStatusView::Executed { executed_at, .. } => {
                &&& Timestamp::valid(executed_at)
            },
            PaymentStatusView::Settled { executed_at, settled_at, .. } => {
                &&& Timestamp::valid(executed_at)
                &&& Timestamp::valid(settled_at)
            },
            PaymentStatusView::Failed { failed_at, .. } => {
                &&& Timestamp::valid(failed_at)
            },
            _ => true,
        }
    }

    open spec fn encoded(m: PaymentStatusView) -> ValueView {
        match m {
            PaymentStatusView::AuthorizationRequired => ValueView::Object(
                Seq::empty()
                    .push(("status"@, ValueView::Text("authorization_required"@))),
            ),
            PaymentStatusView::Authorizing { authorization_flow } => ValueView::Object(
                Seq::empty()
                    .push(("status"@, ValueView::Text("authorizing"@)))
                    .push(("authorization_flow"@, AuthorizationFlow::encoded(authorization_flow))),
            ),
            PaymentStatusView::Authorized { authorization_flow } => ValueView::Object(
                Seq::empty()
                    .push(("status"@, ValueView::Text("authorized"@)))
                    .push(("authorization_flow"@, encoded_optional::<AuthorizationFlow>(authorization_flow))),
            ),
            PaymentStatusView::Executed { executed_at, authorization_flow, settlement_risk } => ValueView::Object(
                Seq::empty()
                    .push(("status"@, ValueView::Text("executed"@)))
                    .push(("executed_at"@, Timestamp::encoded(executed_at)))
                    .push(("authorization_flow"@, encoded_optional::<AuthorizationFlow>(authorization_flow)))
                    .push(("settlement_risk"@, encoded_optional::<SettlementRisk>(settlement_risk))),
            ),
            PaymentStatusView::Settled { payment_source, executed_at, settled_at, authorization_flow, settlement_risk } => ValueView::Object(
                Seq::empty()
                    .push(("status"@, ValueView::Text("settled"@)))
                    .push(("payment_source"@, PaymentSource::encoded(payment_source)))
                    .push(("executed_at"@, Timestamp::encoded(executed_at)))
                    .push(("settled_at"@, Timestamp::encoded(settled_at)))
                    .push(("authorization_flow"@, encoded_optional::<AuthorizationFlow>(authorization_flow)))
                    .push(("settlement_risk"@, encoded_optional::<SettlementRisk>(settlement_risk))),
            ),
            PaymentStatusView::Failed { failed_at, failure_stage, failure_reason, authorization_flow } => ValueView::Object(
                Seq::empty()
                    .push(("status"@, ValueView::Text("failed"@)))
                    .push(("failed_at"@, Timestamp::encoded(failed_at)))
                    .push(("failure_stage"@, FailureStage::encoded(failure_stage)))
                    .push(("failure_reason"@, String::encoded(failure_reason)))
                    .push(("authorization_flow"@, encoded_optional::<AuthorizationFlow>(authorization_flow))),
            ),
        }
    }

    open spec fn decoded(v: ValueView) -> Result<PaymentStatusView, DecodeError> {
        match v {
            ValueView::Object(fields) => match required::<String>(fields, "status"@) {
                Err(e) => Err(e),
                Ok(tag) => if tag == "authorization_required"@ {
                    Ok(PaymentStatusView::AuthorizationRequired)
                } else if tag == "authorizing"@ {
                    let authorization_flow = required::<AuthorizationFlow>(fields, "authorization_flow"@);
                    if authorization_flow is Err {
                        Err(authorization_flow->Err_0)
                    } else {
                        Ok(
                            PaymentStatusView::Authorizing {
                                authorization_flow: authorization_flow->Ok_0,
                            },
                        )
                    }
                } else if tag == "authorized"@ {
                    let authorization_flow = optional::<AuthorizationFlow>(fields, "authorization_flow"@);
                    if authorization_flow is Err {
                        Err(authorization_flow->Err_0)
                    } else {
                        Ok(
                            PaymentStatusView::Authorized {
                                authorization_flow: authorization_flow->Ok_0,
                            },
                        )
                    }
                } else if tag == "executed"@ {
                    let executed_at = required::<Timestamp>(fields, "executed_at"@);
                    let authorization_flow = optional::<AuthorizationFlow>(fields, "authorization_flow"@);
                    let settlement_risk = optional::<SettlementRisk>(fields, "settlement_risk"@);
                    if executed_at is Err {
                        Err(executed_at->Err_0)
                    } else if authorization_flow is Err {
                        Err(authorization_flow->Err_0)
                    } else if settlement_risk is Err {
                        Err(settlement_risk->Err_0)
                    } else {
                        Ok(
                            PaymentStatusView::Executed {
                                executed_at: executed_at->Ok_0,
                                authorization_flow: authorization_flow->Ok_0,
                                settlement_risk: settlement_risk->Ok_0,
                            },
                        )
                    }
                } else if tag == "settled"@ {
                    let payment_source = required::<PaymentSource>(fields, "payment_source"@);
                    let executed_at = required::<Timestamp>(fields, "executed_at"@);
                    let settled_at = required::<Timestamp>(fields, "settled_at"@);
                    let authorization_flow = optional::<AuthorizationFlow>(fields, "authorization_flow"@);
                    let settlement_risk = optional::<SettlementRisk>(fields, "settlement_risk"@);
                    if payment_source is Err {
                        Err(payment_source->Err_0)
                    } else if executed_at is Err {
                        Err(executed_at->Err_0)
                    } else if settled_at is Err {
                        Err(settled_at->Err_0)
                    } else if authorization_flow is Err {
                        Err(authorization_flow->Err_0)
                    } else if settlement_risk is Err {
                        Err(settlement_risk->Err_0)
                    } else {
                        Ok(
                            PaymentStatusView::Settled {
                                payment_source: payment_source->Ok_0,
                                executed_at: executed_at->Ok_0,
                                settled_at: settled_at->Ok_0,
                                authorization_flow: authorization_flow->Ok_0,
                                settlement_risk: settlement_risk->Ok_0,
                            },
                        )
                    }
                } else if tag == "failed"@ {
                    let failed_at = required::<Timestamp>(fields, "failed_at"@);
                    let failure_stage = required::<FailureStage>(fields, "failure_stage"@);
                    let failure_reason = required::<String>(fields, "failure_reason"@);
                    let authorization_flow = optional::<AuthorizationFlow>(fields, "authorization_flow"@);
                    if failed_at is Err {
                        Err(failed_at->Err_0)
                    } else if failure_stage is Err {
                        Err(failure_stage->Err_0)
                    } else if failure_reason is Err {
                        Err(failure_reason->Err_0)
                    } else if authorization_flow is Err {
                        Err(authorization_flow->Err_0)
                    } else {
                        Ok(
                            PaymentStatusView::Failed {
                                failed_at: failed_at->Ok_0,
                                failure_stage: failure_stage->Ok_0,
                                failure_reason: failure_reason->Ok_0,
                                authorization_flow: authorization_flow->Ok_0,
                            },
                        )
                    }
                } else {
                    Err(DecodeError::UnknownVariant)
                },
            },
            _ => Err(DecodeError::ExpectedObject),
        }
    }

    fn encode(&self) -> (v: Value) {
        let mut fields = new_object();
        match self {
            PaymentStatus::AuthorizationRequired => {
                put(&mut fields, "status", text("authorization_required"));
            },
            PaymentStatus::Authorizing { authorization_flow } => {
                put(&mut fields, "status", text("authorizing"));
                put(&mut fields, "authorization_flow", authorization_flow.encode());
            },
            PaymentStatus::Authorized { authorization_flow } => {
                put(&mut fields, "status", text("authorized"));
                put(&mut fields, "authorization_flow", encode_optional::<AuthorizationFlow>(authorization_flow));
            },
            PaymentStatus::Executed { executed_at, authorization_flow, settlement_risk } => {
                put(&mut fields, "status", text("executed"));
                put(&mut fields, "executed_at", executed_at.encode());
                put(&mut fields, "authorization_flow", encode_optional::<AuthorizationFlow>(authorization_flow));
                put(&mut fields, "settlement_risk", encode_optional::<SettlementRisk>(settlement_risk));
            },
            PaymentStatus::Settled { payment_source, executed_at, settled_at, authorization_flow, settlement_risk } => {
                put(&mut fields, "status", text("settled"));
                put(&mut fields, "payment_source", payment_source.encode());
                put(&mut fields, "executed_at", executed_at.encode());
                put(&mut fields, "settled_at", settled_at.encode());
                put(&mut fields, "authorization_flow", encode_optional::<AuthorizationFlow>(authorization_flow));
                put(&mut fields, "settlement_risk", encode_optional::<SettlementRisk>(settlement_risk));
            },
            PaymentStatus::Failed { failed_at, failure_stage, failure_reason, authorization_flow } => {
                put(&mut fields, "status", text("failed"));
                put(&mut fields, "failed_at", failed_at.encode());
                put(&mut fields, "failure_stage", failure_stage.encode());
                put(&mut fields, "failure_reason", failure_reason.encode());
                put(&mut fields, "authorization_flow", encode_optional::<AuthorizationFlow>(authorization_flow));
            },
        }
        proof {
            lemma_object_view(fields);
            Self::round_trip(self.deep_view());
        }
        Value::Object(fields)
    }

    fn decode(v: &Value) -> (r: Result<PaymentStatus, DecodeError>) {
        match v {
            Value::Object(fields) => {
                proof {
                    lemma_object_view(*fields);
                }
                let tag = get_required::<String>(fields, "status")?;
                if str_eq(tag.as_str(), "authorization_required") {
                    Ok(PaymentStatus::AuthorizationRequired)
                } else if str_eq(tag.as_str(), "authorizing") {
                    let authorization_flow = get_required::<AuthorizationFlow>(fields, "authorization_flow")?;
                    Ok(PaymentStatus::Authorizing { authorization_flow })
                } else if str_eq(tag.as_str(), "authorized") {
                    let authorization_flow = get_optional::<AuthorizationFlow>(fields, "authorization_flow")?;
                    Ok(PaymentStatus::Authorized { authorization_flow })
                } else if str_eq(tag.as_str(), "executed") {
                    let executed_at = get_required::<Timestamp>(fields, "executed_at")?;
                    let authorization_flow = get_optional::<AuthorizationFlow>(fields, "authorization_flow")?;
                    let settlement_risk = get_optional::<SettlementRisk>(fields, "settlement_risk")?;
                    Ok(PaymentStatus::Executed { executed_at, authorization_flow, settlement_risk })
                } else if str_eq(tag.as_str(), "settled") {
                    let payment_source = get_required::<PaymentSource>(fields, "payment_source")?;
                    let executed_at = get_required::<Timestamp>(fields, "executed_at")?;
                    let settled_at = get_required::<Timestamp>(fields, "settled_at")?;
                    let authorization_flow = get_optional::<AuthorizationFlow>(fields, "authorization_flow")?;
                    let settlement_risk = get_optional::<SettlementRisk>(fields, "settlement_risk")?;
                    Ok(PaymentStatus::Settled { payment_source, executed_at, settled_at, authorization_flow, settlement_risk })
                } else if str_eq(tag.as_str(), "failed") {
                    let failed_at = get_required::<Timestamp>(fields, "failed_at")?;
                    let failure_stage = get_required::<FailureStage>(fields, "failure_stage")?;
                    let failure_reason = get_required::<String>(fields, "failure_reason")?;
                    let authorization_flow = get_optional::<AuthorizationFlow>(fields, "authorization_flow")?;
                    Ok(PaymentStatus::Failed { failed_at, failure_stage, failure_reason, authorization_flow })
                } else {
                    Err(DecodeError::UnknownVariant)
                }
            },
            _ => Err(DecodeError::ExpectedObject),
        }
    }

    #[verifier::rlimit(50)]
    proof fn round_trip(m: PaymentStatusView) {
        lemma_names();
        reveal_with_fuel(lookup_from, 7);
        match m {
            PaymentStatusView::Authorizing { authorization_flow } => {
                AuthorizationFlow::round_trip(authorization_flow);
            },
            PaymentStatusView::Authorized { authorization_flow } => {
                lemma_optional_round_trip::<AuthorizationFlow>(authorization_flow);
            },
            PaymentStatusView::Executed { executed_at, authorization_flow, settlement_risk } => {
                Timestamp::round_trip(executed_at);
                lemma_optional_round_trip::<AuthorizationFlow>(authorization_flow);
                lemma_optional_round_trip::<SettlementRisk>(settlement_risk);
            },
            PaymentStatusView::Settled { payment_source, executed_at, settled_at, authorization_flow, settlement_risk } => {
                PaymentSource::round_trip(payment_source);
                Timestamp::round_trip(executed_at);
                Timestamp::round_trip(settled_at);
                lemma_optional_round_trip::<AuthorizationFlow>(authorization_flow);
                lemma_optional_round_trip::<SettlementRisk>(settlement_risk);
            },
            PaymentStatusView::Failed { failed_at, failure_stage, authorization_flow, .. } => {
                Timestamp::round_trip(failed_at);
                FailureStage::round_trip(failure_stage);
                lemma_optional_round_trip::<AuthorizationFlow>(authorization_flow);
            },
            _ => {},
        }
    }
}

/// A snapshot of a payment.
#[derive(Debug, Clone, PartialEq, Eq)]
pub struct Payment {
    pub id: String,
    /// The amount, in the currency's minor unit.
    pub amount_in_minor: u64,
    pub currency: Currency,
    pub user: User,
    pub payment_method: PaymentMethod,
    pub created_at: Timestamp,
    pub metadata: Option<StringMap>,
    /// The status; its members stand beside the others in the payload.
    pub status: PaymentStatus,
}

/// The mathematical content of a [`Payment`].
pub struct PaymentView {
    pub id: Seq<char>,
    pub amount_in_minor: u64,
    pub currency: Currency,
    pub user: UserView,
    pub payment_method: PaymentMethodView,
    pub created_at: TimestampView,
    pub metadata: Option<Seq<(Seq<char>, Seq<char>)>>,
    pub status: PaymentStatusView,
}

impl DeepView for Payment {
    type V = PaymentView;

    open spec fn deep_view(&self) -> PaymentView {
        PaymentView {
            id: self.id.deep_view(),
            amount_in_minor: self.amount_in_minor.deep_view(),
            currency: self.currency.deep_view(),
            user: self.user.deep_view(),
            payment_method: self.payment_method.deep_view(),
            created_at: self.created_at.deep_view(),
            metadata: self.metadata.deep_view(),
            status: self.status.deep_view(),
        }
    }
}

impl Wire for Payment {
    open spec fn valid(m: PaymentView) -> bool {
        &&& Timestamp::valid(m.created_at)
        &&& valid_optional::<StringMap>(m.metadata)
        &&& PaymentStatus::valid(m.status)
    }

    open spec fn encoded(m: PaymentView) -> ValueView {
        ValueView::Object(
            (Seq::empty()
                .push(("id"@, String::encoded(m.id)))
                .push(("amount_in_minor"@, u64::encoded(m.amount_in_minor)))
                .push(("currency"@, Currency::encoded(m.currency)))
                .push(("user"@, User::encoded(m.user)))
                .push(("payment_method"@, PaymentMethod::encoded(m.payment_method)))
                .push(("created_at"@, Timestamp::encoded(m.created_at)))
                .push(("metadata"@, encoded_optional::<StringMap>(m.metadata))))
                + PaymentStatus::encoded(m.status)->Object_0,
        )
    }

    open spec fn decoded(v: ValueView) -> Result<PaymentView, DecodeError> {
        match v {
            ValueView::Object(fields) => {
                let id = required::<String>(fields, "id"@);
                let amount_in_minor = required::<u64>(fields, "amount_in_minor"@);
                let currency = required::<Currency>(fields, "currency"@);
                let user = required::<User>(fields, "user"@);
                let payment_method = required::<PaymentMethod>(fields, "payment_method"@);
                let created_at = required::<Timestamp>(fields, "created_at"@);
                let metadata = optional::<StringMap>(fields, "metadata"@);
                let status = PaymentStatus::decoded(ValueView::Object(fields));
                if id is Err {
                    Err(id->Err_0)
                } else if amount_in_minor is Err {
                    Err(amount_in_minor->Err_0)
                } else if currency is Err {
                    Err(currency->Err_0)
                } else if user is Err {
                    Err(user->Err_0)
                } else if payment_method is Err {
                    Err(payment_method->Err_0)
                } else if created_at is Err {
                    Err(created_at->Err_0)
                } else if metadata is Err {
                    Err(metadata->Err_0)
                } else if status is Err {
                    Err(status->Err_0)
                } else {
                    Ok(
                        PaymentView {
                            id: id->Ok_0,
                            amount_in_minor: amount_in_minor->Ok_0,
                            currency: currency->Ok_0,
                            user: user->Ok_0,
                            payment_method: payment_method->Ok_0,
                            created_at: created_at->Ok_0,
                            metadata: metadata->Ok_0,
                            status: status->Ok_0,
                        },
                    )
                }
            },
            _ => Err(DecodeError::ExpectedObject),
        }
    }

    fn encode(&self) -> (v: Value) {
        let mut fields = new_object();
        put(&mut fields, "id", self.id.encode());
        put(&mut fields, "amount_in_minor", self.amount_in_minor.encode());
        put(&mut fields, "currency", self.currency.encode());
        put(&mut fields, "user", self.user.encode());
        put(&mut fields, "payment_method", self.payment_method.encode());
        put(&mut fields, "created_at", self.created_at.encode());
        put(&mut fields, "metadata", encode_optional::<StringMap>(&self.metadata));
        match self.status.encode() {
            Value::Object(more) => {
                proof {
                    lemma_object_view(more);
                }
                put_all(&mut fields, more);
            },
            _ => {},
        }
        proof {
            lemma_object_view(fields);
            Self::round_trip(self.deep_view());
        }
        Value::Object(fields)
    }

    fn decode(v: &Value) -> (r: Result<Payment, DecodeError>) {
        match v {
            Value::Object(fields) => {
                proof {
                    lemma_object_view(*fields);
                }
                let id = get_required::<String>(fields, "id")?;
                let amount_in_minor = get_required::<u64>(fields, "amount_in_minor")?;
                let currency = get_required::<Currency>(fields, "currency")?;
                let user = get_required::<User>(fields, "user")?;
                let payment_method = get_required::<PaymentMethod>(fields, "payment_method")?;
                let created_at = get_required::<Timestamp>(fields, "created_at")?;
                let metadata = get_optional::<StringMap>(fields, "metadata")?;
                let status = PaymentStatus::decode(v)?;
                Ok(Payment { id, amount_in_minor, currency, user, payment_method, created_at, metadata, status })
            },
            _ => Err(DecodeError::ExpectedObject),
        }
    }

    #[verifier::rlimit(50)]
    proof fn round_trip(m: PaymentView) {
        lemma_names();
        reveal_with_fuel(lookup_from, 8);
        Currency::round_trip(m.currency);
        User::round_trip(m.user);
        PaymentMethod::round_trip(m.payment_method);
        Timestamp::round_trip(m.created_at);
        lemma_optional_round_trip::<StringMap>(m.metadata);
        let own = Seq::empty()
            .push(("id"@, String::encoded(m.id)))
            .push(("amount_in_minor"@, u64::encoded(m.amount_in_minor)))
            .push(("currency"@, Currency::encoded(m.currency)))
            .push(("user"@, User::encoded(m.user)))
            .push(("payment_method"@, PaymentMethod::encoded(m.payment_method)))
            .push(("created_at"@, Timestamp::encoded(m.created_at)))
            .push(("metadata"@, encoded_optional::<StringMap>(m.metadata)));
        let rest = PaymentStatus::encoded(m.status)->Object_0;
        PaymentStatus::round_trip(m.status);
        lemma_lookup_concat(own, rest, "id"@);
        lemma_lookup_concat(own, rest, "amount_in_minor"@);
        lemma_lookup_concat(own, rest, "currency"@);
        lemma_lookup_concat(own, rest, "user"@);
        lemma_lookup_concat(own, rest, "payment_method"@);
        lemma_lookup_concat(own, rest, "created_at"@);
        lemma_lookup_concat(own, rest, "metadata"@);
        lemma_lookup_concat(own, rest, "status"@);
        lemma_lookup_concat(own, rest, "authorization_flow"@);
        lemma_lookup_concat(own, rest, "executed_at"@);
        lemma_lookup_concat(own, rest, "settlement_risk"@);
        lemma_lookup_concat(own, rest, "payment_source"@);
        lemma_lookup_concat(own, rest, "settled_at"@);
        lemma_lookup_concat(own, rest, "failed_at"@);
        lemma_lookup_concat(own, rest, "failure_stage"@);
        lemma_lookup_concat(own, rest, "failure_reason"@);
    }
}

/// The user that a new payment is for: one that exists, by its identifier,
/// or a new one, by what is known of it.
///
/// A payload does not say which of the two it holds: one with a member `id`
/// is an existing user, and any other a new one.
#[derive(Debug, Clone, PartialEq, Eq)]
pub enum CreatePaymentUserRequest {
    ExistingUser { id: String },
    NewUser { name: Option<String>, email: Option<String>, phone: Option<String> },
}

/// The mathematical content of a [`CreatePaymentUserRequest`].
pub enum CreatePaymentUserRequestView {
    ExistingUser { id: Seq<char> },
    NewUser { name: Option<Seq<char>>, email: Option<Seq<char>>, phone: Option<Seq<char>> },
}

impl DeepView for CreatePaymentUserRequest {
    type V = CreatePaymentUserRequestView;

    open spec fn deep_view(&self) -> CreatePaymentUserRequestView {
        match self {
            CreatePaymentUserRequest::ExistingUser { id } => CreatePaymentUserRequestView::ExistingUser {
                id: id.deep_view(),
            },
            CreatePaymentUserRequest::NewUser {
                name,
                email,
                phone,
            } => CreatePaymentUserRequestView::NewUser {
                name: name.deep_view(),
                email: email.deep_view(),
                phone: phone.deep_view(),
            },
        }
    }
}

impl Wire for CreatePaymentUserRequest {
    open spec fn valid(m: CreatePaymentUserRequestView) -> bool {
        true
    }

    open spec fn encoded(m: CreatePaymentUserRequestView) -> ValueView {
        match m {
            CreatePaymentUserRequestView::ExistingUser { id } => ValueView::Object(
                Seq::empty().push(("id"@, String::encoded(id))),
            ),
            CreatePaymentUserRequestView::NewUser { name, email, phone } => ValueView::Object(
                Seq::empty()
                    .push(("name"@, encoded_optional::<String>(name)))
                    .push(("email"@, encoded_optional::<String>(email)))
                    .push(("phone"@, encoded_optional::<String>(phone))),
            ),
        }
    }

    open spec fn decoded(v: ValueView) -> Result<CreatePaymentUserRequestView, DecodeError> {
        match v {
            ValueView::Object(fields) => if lookup(fields, "id"@) is Some {
                match required::<String>(fields, "id"@) {
                    Ok(id) => Ok(CreatePaymentUserRequestView::ExistingUser { id }),
                    Err(e) => Err(e),
                }
            } else {
                let name = optional::<String>(fields, "name"@);
                let email = optional::<String>(fields, "email"@);
                let phone = optional::<String>(fields, "phone"@);
                if name is Err {
                    Err(name->Err_0)
                } else if email is Err {
                    Err(email->Err_0)
                } else if phone is Err {
                    Err(phone->Err_0)
                } else {
                    Ok(
                        CreatePaymentUserRequestView::NewUser {
                            name: name->Ok_0,
                            email: email->Ok_0,
                            phone: phone->Ok_0,
                        },
                    )
                }
            },
            _ => Err(DecodeError::ExpectedObject),
        }
    }

    fn encode(&self) -> (v: Value) {
        let mut fields = new_object();
        match self {
            CreatePaymentUserRequest::ExistingUser { id } => {
                put(&mut fields, "id", id.encode());
            },
            CreatePaymentUserRequest::NewUser { name, email, phone } => {
                put(&mut fields, "name", encode_optional::<String>(name));
                put(&mut fields, "email", encode_optional::<String>(email));
                put(&mut fields, "phone", encode_optional::<String>(phone));
            },
        }
        proof {
            lemma_object_view(fields);
            Self::round_trip(self.deep_view());
        }
        Value::Object(fields)
    }

    fn decode(v: &Value) -> (r: Result<CreatePaymentUserRequest, DecodeError>) {
        match v {
            Value::Object(fields) => {
                proof {
                    lemma_object_view(*fields);
                }
                if find(fields, "id").is_some() {
                    let id = get_required::<String>(fields, "id")?;
                    Ok(CreatePaymentUserRequest::ExistingUser { id })
                } else {
                    let name = get_optional::<String>(fields, "name")?;
                    let email = get_optional::<String>(fields, "email")?;
                    let phone = get_optional::<String>(fields, "phone")?;
                    Ok(CreatePaymentUserRequest::NewUser { name, email, phone })
                }
            },
            _ => Err(DecodeError::ExpectedObject),
        }
    }

    proof fn round_trip(m: CreatePaymentUserRequestView) {
        lemma_names();
        reveal_with_fuel(lookup_from, 4);
    }
}

/// What is sent to create a payment.
#[derive(Debug, Clone, PartialEq, Eq)]
pub struct CreatePaymentRequest {
    pub amount_in_minor: u64,
    pub currency: Currency,
    pub payment_method: PaymentMethod,
    pub user: CreatePaymentUserRequest,
    pub metadata: Option<StringMap>,
}

/// The mathematical content of a [`CreatePaymentRequest`].
pub struct CreatePaymentRequestView {
    pub amount_in_minor: u64,
    pub currency: Currency,
    pub payment_method: PaymentMethodView,
    pub user: CreatePaymentUserRequestView,
    pub metadata: Option<Seq<(Seq<char>, Seq<char>)>>,
}

impl DeepView for CreatePaymentRequest {
    type V = CreatePaymentRequestView;

    open spec fn deep_view(&self) -> CreatePaymentRequestView {
        CreatePaymentRequestView {
            amount_in_minor: self.amount_in_minor.deep_view(),
            currency: self.currency.deep_view(),
            payment_method: self.payment_method.deep_view(),
            user: self.user.deep_view(),
            metadata: self.metadata.deep_view(),
        }
    }
}

impl Wire for CreatePaymentRequest {
    open spec fn valid(m: CreatePaymentRequestView) -> bool {
        &&& valid_optional::<StringMap>(m.metadata)
    }

    open spec fn encoded(m: CreatePaymentRequestView) -> ValueView {
        ValueView::Object(
            Seq::empty()
                .push(("amount_in_minor"@, u64::encoded(m.amount_in_minor)))
                .push(("currency"@, Currency::encoded(m.currency)))
                .push(("payment_method"@, PaymentMethod::encoded(m.payment_method)))
                .push(("user"@, CreatePaymentUserRequest::encoded(m.user)))
                .push(("metadata"@, encoded_optional::<StringMap>(m.metadata))),
        )
    }

    open spec fn decoded(v: ValueView) -> Result<CreatePaymentRequestView, DecodeError> {
        match v {
            ValueView::Object(fields) => {
                let amount_in_minor = required::<u64>(fields, "amount_in_minor"@);
                let currency = required::<Currency>(fields, "currency"@);
                let payment_method = required::<PaymentMethod>(fields, "payment_method"@);
                let user = required::<CreatePaymentUserRequest>(fields, "user"@);
                let metadata = optional::<StringMap>(fields, "metadata"@);
                if amount_in_minor is Err {
                    Err(amount_in_minor->Err_0)
                } else if currency is Err {
                    Err(currency->Err_0)
                } else if payment_method is Err {
                    Err(payment_method->Err_0)
                } else if user is Err {
                    Err(user->Err_0)
                } else if metadata is Err {
                    Err(metadata->Err_0)
                } else {
                    Ok(
                        CreatePaymentRequestView {
                            amount_in_minor: amount_in_minor->Ok_0,
                            currency: currency->Ok_0,
                            payment_method: payment_method->Ok_0,
                            user: user->Ok_0,
                            metadata: metadata->Ok_0,
                        },
                    )
                }
            },
            _ => Err(DecodeError::ExpectedObject),
        }
    }

    fn encode(&self) -> (v: Value) {
        let mut fields = new_object();
        put(&mut fields, "amount_in_minor", self.amount_in_minor.encode());
        put(&mut fields, "currency", self.currency.encode());
        put(&mut fields, "payment_method", self.payment_method.encode());
        put(&mut fields, "user", self.user.encode());
        put(&mut fields, "metadata", encode_optional::<StringMap>(&self.metadata));
        proof {
            lemma_object_view(fields);
            Self::round_trip(self.deep_view());
        }
        Value::Object(fields)
    }

    fn decode(v: &Value) -> (r: Result<CreatePaymentRequest, DecodeError>) {
        match v {
            Value::Object(fields) => {
                proof {
                    lemma_object_view(*fields);
                }
                let amount_in_minor = get_required::<u64>(fields, "amount_in_minor")?;
                let currency = get_required::<Currency>(fields, "currency")?;
                let payment_method = get_required::<PaymentMethod>(fields, "payment_method")?;
                let user = get_required::<CreatePaymentUserRequest>(fields, "user")?;
                let metadata = get_optional::<StringMap>(fields, "metadata")?;
                Ok(CreatePaymentRequest { amount_in_minor, currency, payment_method, user, metadata })
            },
            _ => Err(DecodeError::ExpectedObject),
        }
    }

    proof fn round_trip(m: CreatePaymentRequestView) {
        lemma_names();
        reveal_with_fuel(lookup_from, 6);
        Currency::round_trip(m.currency);
        PaymentMethod::round_trip(m.payment_method);
        CreatePaymentUserRequest::round_trip(m.user);
        lemma_optional_round_trip::<StringMap>(m.metadata);
    }
}

/// The user of a payment that was created.
#[derive(Debug, Clone, PartialEq, Eq)]
pub struct CreatePaymentUserResponse {
    pub id: String,
}

/// The mathematical content of a [`CreatePaymentUserResponse`].
pub struct CreatePaymentUserResponseView {
    pub id: Seq<char>,
}

impl DeepView for CreatePaymentUserResponse {
    type V = CreatePaymentUserResponseView;

    open spec fn deep_view(&self) -> CreatePaymentUserResponseView {
        CreatePaymentUserResponseView {
            id: self.id.deep_view(),
        }
    }
}

impl Wire for CreatePaymentUserResponse {
    open spec fn valid(m: CreatePaymentUserResponseView) -> bool {
        true
    }

    open spec fn encoded(m: CreatePaymentUserResponseView) -> ValueView {
        ValueView::Object(
            Seq::empty()
                .push(("id"@, String::encoded(m.id))),
        )
    }

    open spec fn decoded(v: ValueView) -> Result<CreatePaymentUserResponseView, DecodeError> {
        match v {
            ValueView::Object(fields) => {
                let id = required::<String>(fields, "id"@);
                if id is Err {
                    Err(id->Err_0)
                } else {
                    Ok(
                        CreatePaymentUserResponseView {
                            id: id->Ok_0,
                        },
                    )
                }
            },
            _ => Err(DecodeError::ExpectedObject),
        }
    }

    fn encode(&self) -> (v: Value) {
        let mut fields = new_object();
        put(&mut fields, "id", self.id.encode());
        proof {
            lemma_object_view(fields);
            Self::round_trip(self.deep_view());
        }
        Value::Object(fields)
    }

    fn decode(v: &Value) -> (r: Result<CreatePaymentUserResponse, DecodeError>) {
        match v {
            Value::Object(fields) => {
                proof {
                    lemma_object_view(*fields);
                }
                let id = get_required::<String>(fields, "id")?;
                Ok(CreatePaymentUserResponse { id })
            },
            _ => Err(DecodeError::ExpectedObject),
        }
    }

    proof fn round_trip(m: CreatePaymentUserResponseView) {
        lemma_names();
        reveal_with_fuel(lookup_from, 2);
    }
}

/// A short-lived token that gives access to the resource it came with.
#[derive(Debug, Clone, PartialEq, Eq)]
pub struct Token {
    secret: String,
}

impl DeepView for Token {
    type V = Seq<char>;

    closed spec fn deep_view(&self) -> Seq<char> {
        self.secret@
    }
}

impl Token {
    /// The token that `secret` is.
    pub fn new(secret: String) -> (token: Token)
        ensures
            token.deep_view() == secret@,
    {
        Token { secret }
    }

    /// The token itself. Keep it out of logs.
    pub fn expose_secret(&self) -> (secret: &str)
        ensures
            secret@ == self.deep_view(),
    {
        self.secret.as_str()
    }
}

impl Wire for Token {
    open spec fn valid(m: Seq<char>) -> bool {
        true
    }

    open spec fn encoded(m: Seq<char>) -> ValueView {
        ValueView::Text(m)
    }

    open spec fn decoded(v: ValueView) -> Result<Seq<char>, DecodeError> {
        String::decoded(v)
    }

    fn encode(&self) -> (v: Value) {
        self.secret.encode()
    }

    fn decode(v: &Value) -> (r: Result<Token, DecodeError>) {
        match String::decode(v) {
            Ok(secret) => Ok(Token { secret }),
            Err(e) => Err(e),
        }
    }

    proof fn round_trip(m: Seq<char>) {
    }
}

/// The acknowledgment that a payment was created. The payment itself has to be
/// polled for.
#[derive(Debug, Clone, PartialEq, Eq)]
pub struct CreatePaymentResponse {
    pub id: String,
    pub resource_token: Token,
    pub user: CreatePaymentUserResponse,
}

/// The mathematical content of a [`CreatePaymentResponse`].
pub struct CreatePaymentResponseView {
    pub id: Seq<char>,
    pub resource_token: Seq<char>,
    pub user: CreatePaymentUserResponseView,
}

impl DeepView for CreatePaymentResponse {
    type V = CreatePaymentResponseView;

    open spec fn deep_view(&self) -> CreatePaymentResponseView {
        CreatePaymentResponseView {
            id: self.id.deep_view(),
            resource_token: self.resource_token.deep_view(),
            user: self.user.deep_view(),
        }
    }
}

impl Wire for CreatePaymentResponse {
    open spec fn valid(m: CreatePaymentResponseView) -> bool {
        true
    }

    open spec fn encoded(m: CreatePaymentResponseView) -> ValueView {
        ValueView::Object(
            Seq::empty()
                .push(("id"@, String::encoded(m.id)))
                .push(("resource_token"@, Token::encoded(m.resource_token)))
                .push(("user"@, CreatePaymentUserResponse::encoded(m.user))),
        )
    }

    open spec fn decoded(v: ValueView) -> Result<CreatePaymentResponseView, DecodeError> {
        match v {
            ValueView::Object(fields) => {
                let id = required::<String>(fields, "id"@);
                let resource_token = required::<Token>(fields, "resource_token"@);
                let user = required::<CreatePaymentUserResponse>(fields, "user"@);
                if id is Err {
                    Err(id->Err_0)
                } else if resource_token is Err {
                    Err(resource_token->Err_0)
                } else if user is Err {
                    Err(user->Err_0)
                } else {
                    Ok(
                        CreatePaymentResponseView {
                            id: id->Ok_0,
                            resource_token: resource_token->Ok_0,
                            user: user->Ok_0,
                        },
                    )
                }
            },
            _ => Err(DecodeError::ExpectedObject),
        }
    }

    fn encode(&self) -> (v: Value) {
        let mut fields = new_object();
        put(&mut fields, "id", self.id.encode());
        put(&mut fields, "resource_token", self.resource_token.encode());
        put(&mut fields, "user", self.user.encode());
        proof {
            lemma_object_view(fields);
            Self::round_trip(self.deep_view());
        }
        Value::Object(fields)
    }

    fn decode(v: &Value) -> (r: Result<CreatePaymentResponse, DecodeError>) {
        match v {
            Value::Object(fields) => {
                proof {
                    lemma_object_view(*fields);
                }
                let id = get_required::<String>(fields, "id")?;
                let resource_token = get_required::<Token>(fields, "resource_token")?;
                let user = get_required::<CreatePaymentUserResponse>(fields, "user")?;
                Ok(CreatePaymentResponse { id, resource_token, user })
            },
            _ => Err(DecodeError::ExpectedObject),
        }
    }

    proof fn round_trip(m: CreatePaymentResponseView) {
        lemma_names();
        reveal_with_fuel(lookup_from, 4);
        Token::round_trip(m.resource_token);
        CreatePaymentUserResponse::round_trip(m.user);
    }
}

impl PaymentStatus {
    /// Whether the status is one that a payment does not leave: executed,
    /// settled or failed. An authorized payment is not there yet: it has
    /// still to execute, and may fail.
    pub open spec fn terminal(&self) -> bool {
        self is Executed || self is Settled || self is Failed
    }

    /// Whether a payment of this status may come to have the status `later`
    /// at a later time. A payment moves forward from authorization required
    /// over authorizing and authorized to executed and settled, and may skip
    /// stages; it may fail while it is not yet executed; and what is
    /// settled or failed stays so.
    pub open spec fn precedes(&self, later: &PaymentStatus) -> bool {
        match self {
            PaymentStatus::AuthorizationRequired => !(later is AuthorizationRequired),
            PaymentStatus::Authorizing { .. } => !(later is AuthorizationRequired || later is Authorizing),
            PaymentStatus::Authorized { .. } => later is Executed || later is Settled || later is Failed,
            PaymentStatus::Executed { .. } => later is Settled,
            PaymentStatus::Settled { .. } => false,
            PaymentStatus::Failed { .. } => false,
        }
    }

    /// Whether a payment of this status may come to have the status `later`.
    pub fn may_become(&self, later: &PaymentStatus) -> (r: bool)
        ensures
            r == self.precedes(later),
    {
        match self {
            PaymentStatus::AuthorizationRequired => match later {
                PaymentStatus::AuthorizationRequired => false,
                _ => true,
            },
            PaymentStatus::Authorizing { .. } => match later {
                PaymentStatus::AuthorizationRequired => false,
                PaymentStatus::Authorizing { .. } => false,
                _ => true,
            },
            PaymentStatus::Authorized { .. } => later.is_in_terminal_state(),
            PaymentStatus::Executed { .. } => match later {
                PaymentStatus::Settled { .. } => true,
                _ => false,
            },
            PaymentStatus::Settled { .. } => false,
            PaymentStatus::Failed { .. } => false,
        }
    }

    /// The authorization flow that came with the status, if one did.
    pub open spec fn flow(&self) -> Option<AuthorizationFlow> {
        match self {
            PaymentStatus::AuthorizationRequired => None,
            PaymentStatus::Authorizing { authorization_flow } => Some(*authorization_flow),
            PaymentStatus::Authorized { authorization_flow } => *authorization_flow,
            PaymentStatus::Executed { authorization_flow, .. } => *authorization_flow,
            PaymentStatus::Settled { authorization_flow, .. } => *authorization_flow,
            PaymentStatus::Failed { authorization_flow, .. } => *authorization_flow,
        }
    }

    /// The authorization flow that came with the status, if one did. While
    /// a payment is authorizing there always is one.
    pub fn authorization_flow(&self) -> (r: Option<&AuthorizationFlow>)
        ensures
            r.is_some() == self.flow().is_some(),
            r matches Some(flow) ==> self.flow() == Some(*flow),
            self is Authorizing ==> r is Some,
    {
        match self {
            PaymentStatus::AuthorizationRequired => None,
            PaymentStatus::Authorizing { authorization_flow } => Some(authorization_flow),
            PaymentStatus::Authorized { authorization_flow } => authorization_flow.as_ref(),
            PaymentStatus::Executed { authorization_flow, .. } => authorization_flow.as_ref(),
            PaymentStatus::Settled { authorization_flow, .. } => authorization_flow.as_ref(),
            PaymentStatus::Failed { authorization_flow, .. } => authorization_flow.as_ref(),
        }
    }
}

impl IsInTerminalState for PaymentStatus {
    open spec fn terminal(&self) -> bool {
        PaymentStatus::terminal(self)
    }

    fn is_in_terminal_state(&self) -> (r: bool) {
        match self {
            PaymentStatus::Executed { .. } => true,
            PaymentStatus::Settled { .. } => true,
            PaymentStatus::Failed { .. } => true,
            _ => false,
        }
    }
}

/// Of the terminal statuses only executed precedes another, which is
/// settled; and a payment of any status that is not terminal may still fail.
pub proof fn lemma_terminal_is_final(status: PaymentStatus, later: PaymentStatus)
    ensures
        status.terminal() && status.precedes(&later) ==> status is Executed && later is Settled,
        !status.terminal() && later is Failed ==> status.precedes(&later),
{
}

/// The order of statuses has no cycle: what comes later never precedes
/// what came before.
pub proof fn lemma_precedes_is_acyclic(a: PaymentStatus, b: PaymentStatus, c: PaymentStatus)
    ensures
        !a.precedes(&a),
        a.precedes(&b) ==> !b.precedes(&a),
        a.precedes(&b) && b.precedes(&c) ==> a.precedes(&c),
{
}

impl Payment {
    /// The action that the payment waits for its caller to take: the next
    /// action of its authorization flow, where the payment is not in a
    /// terminal state and the action asks for a submission.
    pub open spec fn awaited(&self) -> Option<AuthorizationFlowNextAction> {
        if self.status.terminal() {
            None
        } else {
            match self.status.flow() {
                Some(flow) => match flow.next() {
                    Some(action) => if action.asks_submission() {
                        Some(action)
                    } else {
                        None
                    },
                    None => None,
                },
                None => None,
            }
        }
    }

    /// The action that the payment waits for its caller to take, if there is
    /// one. Where there is none the caller has only to keep polling.
    pub fn pending_action(&self) -> (r: Option<&AuthorizationFlowNextAction>)
        ensures
            r is Some <==> self.awaited() is Some,
            r matches Some(action) ==> self.awaited() == Some(*action),
    {
        if self.status.is_in_terminal_state() {
            return None;
        }
        match self.status.authorization_flow() {
            Some(flow) => match flow.next_action() {
                Some(action) => if action.needs_submission() {
                    Some(action)
                } else {
                    None
                },
                None => None,
            },
            None => None,
        }
    }
}

impl IsInTerminalState for Payment {
    /// A payment is in a terminal state when its status is executed, settled
    /// or failed.
    open spec fn terminal(&self) -> bool {
        self.status.terminal()
    }

    fn is_in_terminal_state(&self) -> (r: bool) {
        self.status.is_in_terminal_state()
    }
}

impl Pollable for Payment {
    type Output = Payment;

    open spec fn target(&self) -> Seq<char> {
        self.id@
    }

    fn poll_target(&self) -> (id: &str) {
        self.id.as_str()
    }

    fn poll_once(&self, fetched: Result<Option<Payment>, Error>) -> (r: Result<Payment, Error>) {
        resolve(fetched)
    }
}

impl Pollable for CreatePaymentResponse {
    type Output = Payment;

    open spec fn target(&self) -> Seq<char> {
        self.id@
    }

    fn poll_target(&self) -> (id: &str) {
        self.id.as_str()
    }

    fn poll_once(&self, fetched: Result<Option<Payment>, Error>) -> (r: Result<Payment, Error>) {
        resolve(fetched)
    }
}

/// The lengths of the names that this module reads and writes, and the
/// characters that tell names of one length apart.
pub proof fn lemma_names()
    ensures
        "authorization_required"@.len() == 22,
        "authorizing"@.len() == 11,
        "authorizing"@[7] == 'z',
        "authorized"@.len() == 10,
        "authorized"@[1] == 'u',
        "authorized"@[3] == 'h',
        "category"@.len() == 8,
        "category"@[0] == 'c',
        "category"@[2] == 't',
        "type"@.len() == 4,
        "type"@[0] == 't',
        "type"@[1] == 'y',
        "bank_transfer"@.len() == 13,
        "bank_transfer"@[0] == 'b',
        "provider_selection"@.len() == 18,
        "provider_selection"@[1] == 'r',
        "beneficiary"@.len() == 11,
        "beneficiary"@[7] == 'i',
        "id"@.len() == 2,
        "id"@[0] == 'i',
        "id"@[1] == 'd',
        "name"@.len() == 4,
        "name"@[0] == 'n',
        "name"@[1] == 'a',
        "email"@.len() == 5,
        "email"@[0] == 'e',
        "phone"@.len() == 5,
        "phone"@[0] == 'p',
        "status"@.len() == 6,
        "status"@[0] == 's',
        "status"@[2] == 'a',
        "authorization_flow"@.len() == 18,
        "authorization_flow"@[1] == 'u',
        "executed"@.len() == 8,
        "executed"@[0] == 'e',
        "executed"@[2] == 'e',
        "executed_at"@.len() == 11,
        "executed_at"@[7] == 'd',
        "settlement_risk"@.len() == 15,
        "settlement_risk"@[0] == 's',
        "settled"@.len() == 7,
        "settled"@[0] == 's',
        "payment_source"@.len() == 14,
        "payment_source"@[8] == 's',
        "settled_at"@.len() == 10,
        "settled_at"@[1] == 'e',
        "settled_at"@[3] == 't',
        "failed"@.len() == 6,
        "failed"@[0] == 'f',
        "failed"@[2] == 'i',
        "failed_at"@.len() == 9,
        "failed_at"@[0] == 'f',
        "failed_at"@[2] == 'i',
        "failure_stage"@.len() == 13,
        "failure_stage"@[0] == 'f',
        "failure_reason"@.len() == 14,
        "failure_reason"@[8] == 'r',
        "amount_in_minor"@.len() == 15,
        "amount_in_minor"@[0] == 'a',
        "currency"@.len() == 8,
        "currency"@[0] == 'c',
        "currency"@[2] == 'r',
        "user"@.len() == 4,
        "user"@[0] == 'u',
        "user"@[1] == 's',
        "payment_method"@.len() == 14,
        "payment_method"@[8] == 'm',
        "created_at"@.len() == 10,
        "created_at"@[1] == 'r',
        "created_at"@[3] == 'a',
        "metadata"@.len() == 8,
        "metadata"@[0] == 'm',
        "metadata"@[2] == 't',
        "resource_token"@.len() == 14,
        "resource_token"@[8] == '_',
{
    reveal_strlit("authorization_required");
    reveal_strlit("authorizing");
    reveal_strlit("authorized");
    reveal_strlit("category");
    reveal_strlit("type");
    reveal_strlit("bank_transfer");
    reveal_strlit("provider_selection");
    reveal_strlit("beneficiary");
    reveal_strlit("id");
    reveal_strlit("name");
    reveal_strlit("email");
    reveal_strlit("phone");
    reveal_strlit("status");
    reveal_strlit("authorization_flow");
    reveal_strlit("executed");
    reveal_strlit("executed_at");
    reveal_strlit("settlement_risk");
    reveal_strlit("settled");
    reveal_strlit("payment_source");
    reveal_strlit("settled_at");
    reveal_strlit("failed");
    reveal_strlit("failed_at");
    reveal_strlit("failure_stage");
    reveal_strlit("failure_reason");
    reveal_strlit("amount_in_minor");
    reveal_strlit("currency");
    reveal_strlit("user");
    reveal_strlit("payment_method");
    reveal_strlit("created_at");
    reveal_strlit("metadata");
    reveal_strlit("resource_token");
}

} // verus!
