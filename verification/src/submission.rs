//! The steps of an authorization flow that a caller submits, and their answers.

use crate::flow::{
    AdditionalInput, AdditionalInputView, AuthorizationFlow, AuthorizationFlowView, FormSupported,
    FormSupportedView, ProviderSelectionSupported, ProviderSelectionSupportedView,
    RedirectSupported, RedirectSupportedView,
};
use crate::payment::FailureStage;
use crate::string_map::{has_key, StringMap};
use crate::wire::{
    encode_optional, encoded_optional, get_optional, get_required, lemma_lookup_concat,
    lemma_object_view, lemma_optional_round_trip, lookup_from, members, new_object, optional, put,
    put_all, required, str_eq, text, DecodeError, Value, ValueView, Wire,
};
use vstd::prelude::*;

verus! {

/// Whether a step of an authorization flow succeeded. A failure here is an
/// answer, not an error of the transport.
#[derive(Debug, Clone, PartialEq, Eq)]
pub enum AuthorizationFlowResponseStatus {
    /// The step succeeded; the payment is to be polled for what follows.
    Authorizing,
    /// The step failed.
    Failed {
        failure_stage: FailureStage,
        failure_reason: String,
    },
}

/// The mathematical content of a [`AuthorizationFlowResponseStatus`].
pub enum AuthorizationFlowResponseStatusView {
    Authorizing,
    Failed {
        failure_stage: FailureStage,
        failure_reason: Seq<char>,
    },
}

impl DeepView for AuthorizationFlowResponseStatus {
    type V = AuthorizationFlowResponseStatusView;

    open spec fn deep_view(&self) -> AuthorizationFlowResponseStatusView {
        match self {
            AuthorizationFlowResponseStatus::Authorizing => AuthorizationFlowResponseStatusView::Authorizing,
            AuthorizationFlowResponseStatus::Failed { failure_stage, failure_reason } => AuthorizationFlowResponseStatusView::Failed {
                failure_stage: failure_stage.deep_view(),
                failure_reason: failure_reason.deep_view(),
            },
        }
    }
}

impl Wire for AuthorizationFlowResponseStatus {
    open spec fn valid(m: AuthorizationFlowResponseStatusView) -> bool {
        true
    }

    open spec fn encoded(m: AuthorizationFlowResponseStatusView) -> ValueView {
        match m {
            AuthorizationFlowResponseStatusView::Authorizing => ValueView::Object(
                Seq::empty()
                    .push(("status"@, ValueView::Text("authorizing"@))),
            ),
            AuthorizationFlowResponseStatusView::Failed { failure_stage, failure_reason } => ValueView::Object(
                Seq::empty()
                    .push(("status"@, ValueView::Text("failed"@)))
                    .push(("failure_stage"@, FailureStage::encoded(failure_stage)))
                    .push(("failure_reason"@, String::encoded(failure_reason))),
            ),
        }
    }

    open spec fn decoded(v: ValueView) -> Result<AuthorizationFlowResponseStatusView, DecodeError> {
        match v {
            ValueView::Object(fields) => match required::<String>(fields, "status"@) {
                Err(e) => Err(e),
                Ok(tag) => if tag == "authorizing"@ {
                    Ok(AuthorizationFlowResponseStatusView::Authorizing)
                } else if tag == "failed"@ {
                    let failure_stage = required::<FailureStage>(fields, "failure_stage"@);
                    let failure_reason = required::<String>(fields, "failure_reason"@);
                    if failure_stage is Err {
                        Err(failure_stage->Err_0)
                    } else if failure_reason is Err {
                        Err(failure_reason->Err_0)
                    } else {
                        Ok(
                            AuthorizationFlowResponseStatusView::Failed {
                                failure_stage: failure_stage->Ok_0,
                                failure_reason: failure_reason->Ok_0,
                            },
                        )
                    }
                } else {
                    Err(DecodeError::UnknownVariant)
                },
            },
            _ => Err(DecodeError::ExpectedObject),
        }
    }

    fn encode(&self) -> (v: Value) {
        let mut fields = new_object();
        match self {
            AuthorizationFlowResponseStatus::Authorizing => {
                put(&mut fields, "status", text("authorizing"));
            },
            AuthorizationFlowResponseStatus::Failed { failure_stage, failure_reason } => {
                put(&mut fields, "status", text("failed"));
                put(&mut fields, "failure_stage", failure_stage.encode());
                put(&mut fields, "failure_reason", failure_reason.encode());
            },
        }
        proof {
            lemma_object_view(fields);
            Self::round_trip(self.deep_view());
        }
        Value::Object(fields)
    }

    fn decode(v: &Value) -> (r: Result<AuthorizationFlowResponseStatus, DecodeError>) {
        match v {
            Value::Object(fields) => {
                proof {
                    lemma_object_view(*fields);
                }
                let tag = get_required::<String>(fields, "status")?;
                if str_eq(tag.as_str(), "authorizing") {
                    Ok(AuthorizationFlowResponseStatus::Authorizing)
                } else if str_eq(tag.as_str(), "failed") {
                    let failure_stage = get_required::<FailureStage>(fields, "failure_stage")?;
                    let failure_reason = get_required::<String>(fields, "failure_reason")?;
                    Ok(AuthorizationFlowResponseStatus::Failed { failure_stage, failure_reason })
                } else {
                    Err(DecodeError::UnknownVariant)
                }
            },
            _ => Err(DecodeError::ExpectedObject),
        }
    }

    proof fn round_trip(m: AuthorizationFlowResponseStatusView) {
        lemma_names();
        reveal_with_fuel(lookup_from, 4);
        match m {
            AuthorizationFlowResponseStatusView::Failed { failure_stage, .. } => {
                FailureStage::round_trip(failure_stage);
            },
            _ => {},
        }
    }
}

/// Starts an authorization flow, and says which kinds of action the caller
/// supports.
#[derive(Debug, Clone, PartialEq, Eq)]
pub struct StartAuthorizationFlowRequest {
    pub provider_selection: Option<ProviderSelectionSupported>,
    pub redirect: Option<RedirectSupported>,
    pub form: Option<FormSupported>,
}

/// The mathematical content of a [`StartAuthorizationFlowRequest`].
pub struct StartAuthorizationFlowRequestView {
    pub provider_selection: Option<ProviderSelectionSupportedView>,
    pub redirect: Option<RedirectSupportedView>,
    pub form: Option<FormSupportedView>,
}

impl DeepView for StartAuthorizationFlowRequest {
    type V = StartAuthorizationFlowRequestView;

    open spec fn deep_view(&self) -> StartAuthorizationFlowRequestView {
        StartAuthorizationFlowRequestView {
            provider_selection: self.provider_selection.deep_view(),
            redirect: self.redirect.deep_view(),
            form: self.form.deep_view(),
        }
    }
}

impl Wire for StartAuthorizationFlowRequest {
    open spec fn valid(m: StartAuthorizationFlowRequestView) -> bool {
        true
    }

    open spec fn encoded(m: StartAuthorizationFlowRequestView) -> ValueView {
        ValueView::Object(
            Seq::empty()
                .push(("provider_selection"@, encoded_optional::<ProviderSelectionSupported>(m.provider_selection)))
                .push(("redirect"@, encoded_optional::<RedirectSupported>(m.redirect)))
                .push(("form"@, encoded_optional::<FormSupported>(m.form))),
        )
    }

    open spec fn decoded(v: ValueView) -> Result<StartAuthorizationFlowRequestView, DecodeError> {
        match v {
            ValueView::Object(fields) => {
                let provider_selection = optional::<ProviderSelectionSupported>(fields, "provider_selection"@);
                let redirect = optional::<RedirectSupported>(fields, "redirect"@);
                let form = optional::<FormSupported>(fields, "form"@);
                if provider_selection is Err {
                    Err(provider_selection->Err_0)
                } else if redirect is Err {
                    Err(redirect->Err_0)
                } else if form is Err {
                    Err(form->Err_0)
                } else {
                    Ok(
                        StartAuthorizationFlowRequestView {
                            provider_selection: provider_selection->Ok_0,
                            redirect: redirect->Ok_0,
                            form: form->Ok_0,
                        },
                    )
                }
            },
            _ => Err(DecodeError::ExpectedObject),
        }
    }

    fn encode(&self) -> (v: Value) {
        let mut fields = new_object();
        put(&mut fields, "provider_selection", encode_optional::<ProviderSelectionSupported>(&self.provider_selection));
        put(&mut fields, "redirect", encode_optional::<RedirectSupported>(&self.redirect));
        put(&mut fields, "form", encode_optional::<FormSupported>(&self.form));
        proof {
            lemma_object_view(fields);
            Self::round_trip(self.deep_view());
        }
        Value::Object(fields)
    }

    fn decode(v: &Value) -> (r: Result<StartAuthorizationFlowRequest, DecodeError>) {
        match v {
            Value::Object(fields) => {
                proof {
                    lemma_object_view(*fields);
                }
                let provider_selection = get_optional::<ProviderSelectionSupported>(fields, "provider_selection")?;
                let redirect = get_optional::<RedirectSupported>(fields, "redirect")?;
                let form = get_optional::<FormSupported>(fields, "form")?;
                Ok(StartAuthorizationFlowRequest { provider_selection, redirect, form })
            },
            _ => Err(DecodeError::ExpectedObject),
        }
    }

    proof fn round_trip(m: StartAuthorizationFlowRequestView) {
        lemma_names();
        reveal_with_fuel(lookup_from, 4);
        lemma_optional_round_trip::<ProviderSelectionSupported>(m.provider_selection);
        lemma_optional_round_trip::<RedirectSupported>(m.redirect);
        lemma_optional_round_trip::<FormSupported>(m.form);
    }
}

/// The answer to the start of an authorization flow.
#[derive(Debug, Clone, PartialEq, Eq)]
pub struct StartAuthorizationFlowResponse {
    pub authorization_flow: Option<AuthorizationFlow>,
    /// Whether the step succeeded; its members stand beside the others in the
    /// payload.
    pub status: AuthorizationFlowResponseStatus,
}

/// The mathematical content of a [`StartAuthorizationFlowResponse`].
pub struct StartAuthorizationFlowResponseView {
    pub authorization_flow: Option<AuthorizationFlowView>,
    pub status: AuthorizationFlowResponseStatusView,
}

impl DeepView for StartAuthorizationFlowResponse {
    type V = StartAuthorizationFlowResponseView;

    open spec fn deep_view(&self) -> StartAuthorizationFlowResponseView {
        StartAuthorizationFlowResponseView {
            authorization_flow: self.authorization_flow.deep_view(),
            status: self.status.deep_view(),
        }
    }
}

impl Wire for StartAuthorizationFlowResponse {
    open spec fn valid(m: StartAuthorizationFlowResponseView) -> bool {
        true
    }

    open spec fn encoded(m: StartAuthorizationFlowResponseView) -> ValueView {
        ValueView::Object(
            (Seq::empty()
                .push(("authorization_flow"@, encoded_optional::<AuthorizationFlow>(m.authorization_flow))))
                + AuthorizationFlowResponseStatus::encoded(m.status)->Object_0,
        )
    }

    open spec fn decoded(v: ValueView) -> Result<StartAuthorizationFlowResponseView, DecodeError> {
        match v {
            ValueView::Object(fields) => {
                let authorization_flow = optional::<AuthorizationFlow>(fields, "authorization_flow"@);
                let status = AuthorizationFlowResponseStatus::decoded(ValueView::Object(fields));
                if authorization_flow is Err {
                    Err(authorization_flow->Err_0)
                } else if status is Err {
                    Err(status->Err_0)
                } else {
                    Ok(
                        StartAuthorizationFlowResponseView {
                            authorization_flow: authorization_flow->Ok_0,
                            status: status->Ok_0,
                        },
                    )
                }
            },
            _ => Err(DecodeError::ExpectedObject),
        }
    }

    fn encode(&self) -> (v: Value) {
        let mut fields = new_object();
        put(&mut fields, "authorization_flow", encode_optional::<AuthorizationFlow>(&self.authorization_flow));
        match self.status.encode() {
            Value::Object(more) => {
                proof {
                    lemma_object_view(more);
                }
                put_all(&mut fields, more);
            },
            _ => {},
        }
        proof {
            lemma_object_view(fields);
            Self::round_trip(self.deep_view());
        }
        Value::Object(fields)
    }

    fn decode(v: &Value) -> (r: Result<StartAuthorizationFlowResponse, DecodeError>) {
        match v {
            Value::Object(fields) => {
                proof {
                    lemma_object_view(*fields);
                }
                let authorization_flow = get_optional::<AuthorizationFlow>(fields, "authorization_flow")?;
                let status = AuthorizationFlowResponseStatus::decode(v)?;
                Ok(StartAuthorizationFlowResponse { authorization_flow, status })
            },
            _ => Err(DecodeError::ExpectedObject),
        }
    }

    proof fn round_trip(m: StartAuthorizationFlowResponseView) {
        lemma_names();
        reveal_with_fuel(lookup_from, 2);
        lemma_optional_round_trip::<AuthorizationFlow>(m.authorization_flow);
        let own = Seq::empty()
            .push(("authorization_flow"@, encoded_optional::<AuthorizationFlow>(m.authorization_flow)));
        let rest = AuthorizationFlowResponseStatus::encoded(m.status)->Object_0;
        AuthorizationFlowResponseStatus::round_trip(m.status);
        lemma_lookup_concat(own, rest, "authorization_flow"@);
        lemma_lookup_concat(own, rest, "status"@);
        lemma_lookup_concat(own, rest, "failure_stage"@);
        lemma_lookup_concat(own, rest, "failure_reason"@);
    }
}

/// Submits the provider that the user selected.
#[derive(Debug, Clone, PartialEq, Eq)]
pub struct SubmitProviderSelectionActionRequest {
    pub provider_id: String,
}

/// The mathematical content of a [`SubmitProviderSelectionActionRequest`].
pub struct SubmitProviderSelectionActionRequestView {
    pub provider_id: Seq<char>,
}

impl DeepView for SubmitProviderSelectionActionRequest {
    type V = SubmitProviderSelectionActionRequestView;

    open spec fn deep_view(&self) -> SubmitProviderSelectionActionRequestView {
        SubmitProviderSelectionActionRequestView {
            provider_id: self.provider_id.deep_view(),
        }
    }
}

impl Wire for SubmitProviderSelectionActionRequest {
    open spec fn valid(m: SubmitProviderSelectionActionRequestView) -> bool {
        true
    }

    open spec fn encoded(m: SubmitProviderSelectionActionRequestView) -> ValueView {
        ValueView::Object(
            Seq::empty()
                .push(("provider_id"@, String::encoded(m.provider_id))),
        )
    }

    open spec fn decoded(v: ValueView) -> Result<SubmitProviderSelectionActionRequestView, DecodeError> {
        match v {
            ValueView::Object(fields) => {
                let provider_id = required::<String>(fields, "provider_id"@);
                if provider_id is Err {
                    Err(provider_id->Err_0)
                } else {
                    Ok(
                        SubmitProviderSelectionActionRequestView {
                            provider_id: provider_id->Ok_0,
                        },
                    )
                }
            },
            _ => Err(DecodeError::ExpectedObject),
        }
    }

    fn encode(&self) -> (v: Value) {
        let mut fields = new_object();
        put(&mut fields, "provider_id", self.provider_id.encode());
        proof {
            lemma_object_view(fields);
            Self::round_trip(self.deep_view());
        }
        Value::Object(fields)
    }

    fn decode(v: &Value) -> (r: Result<SubmitProviderSelectionActionRequest, DecodeError>) {
        match v {
            Value::Object(fields) => {
                proof {
                    lemma_object_view(*fields);
                }
                let provider_id = get_required::<String>(fields, "provider_id")?;
                Ok(SubmitProviderSelectionActionRequest { provider_id })
            },
            _ => Err(DecodeError::ExpectedObject),
        }
    }

    proof fn round_trip(m: SubmitProviderSelectionActionRequestView) {
        lemma_names();
        reveal_with_fuel(lookup_from, 2);
    }
}

/// The answer to a provider selection.
#[derive(Debug, Clone, PartialEq, Eq)]
pub struct SubmitProviderSelectionActionResponse {
    pub authorization_flow: Option<AuthorizationFlow>,
    /// Whether the step succeeded; its members stand beside the others in the
    /// payload.
    pub status: AuthorizationFlowResponseStatus,
}

/// The mathematical content of a [`SubmitProviderSelectionActionResponse`].
pub struct SubmitProviderSelectionActionResponseView {
    pub authorization_flow: Option<AuthorizationFlowView>,
    pub status: AuthorizationFlowResponseStatusView,
}

impl DeepView for SubmitProviderSelectionActionResponse {
    type V = SubmitProviderSelectionActionResponseView;

    open spec fn deep_view(&self) -> SubmitProviderSelectionActionResponseView {
        SubmitProviderSelectionActionResponseView {
            authorization_flow: self.authorization_flow.deep_view(),
            status: self.status.deep_view(),
        }
    }
}

impl Wire for SubmitProviderSelectionActionResponse {
    open spec fn valid(m: SubmitProviderSelectionActionResponseView) -> bool {
        true
    }

    open spec fn encoded(m: SubmitProviderSelectionActionResponseView) -> ValueView {
        ValueView::Object(
            (Seq::empty()
                .push(("authorization_flow"@, encoded_optional::<AuthorizationFlow>(m.authorization_flow))))
                + AuthorizationFlowResponseStatus::encoded(m.status)->Object_0,
        )
    }

    open spec fn decoded(v: ValueView) -> Result<SubmitProviderSelectionActionResponseView, DecodeError> {
        match v {
            ValueView::Object(fields) => {
                let authorization_flow = optional::<AuthorizationFlow>(fields, "authorization_flow"@);
                let status = AuthorizationFlowResponseStatus::decoded(ValueView::Object(fields));
                if authorization_flow is Err {
                    Err(authorization_flow->Err_0)
                } else if status is Err {
                    Err(status->Err_0)
                } else {
                    Ok(
                        SubmitProviderSelectionActionResponseView {
                            authorization_flow: authorization_flow->Ok_0,
                            status: status->Ok_0,
                        },
                    )
                }
            },
            _ => Err(DecodeError::ExpectedObject),
        }
    }

    fn encode(&self) -> (v: Value) {
        let mut fields = new_object();
        put(&mut fields, "authorization_flow", encode_optional::<AuthorizationFlow>(&self.authorization_flow));
        match self.status.encode() {
            Value::Object(more) => {
                proof {
                    lemma_object_view(more);
                }
                put_all(&mut fields, more);
            },
            _ => {},
        }
        proof {
            lemma_object_view(fields);
            Self::round_trip(self.deep_view());
        }
        Value::Object(fields)
    }

    fn decode(v: &Value) -> (r: Result<SubmitProviderSelectionActionResponse, DecodeError>) {
        match v {
            Value::Object(fields) => {
                proof {
                    lemma_object_view(*fields);
                }
                let authorization_flow = get_optional::<AuthorizationFlow>(fields, "authorization_flow")?;
                let status = AuthorizationFlowResponseStatus::decode(v)?;
                Ok(SubmitProviderSelectionActionResponse { authorization_flow, status })
            },
            _ => Err(DecodeError::ExpectedObject),
        }
    }

    proof fn round_trip(m: SubmitProviderSelectionActionResponseView) {
        lemma_names();
        reveal_with_fuel(lookup_from, 2);
        lemma_optional_round_trip::<AuthorizationFlow>(m.authorization_flow);
        let own = Seq::empty()
            .push(("authorization_flow"@, encoded_optional::<AuthorizationFlow>(m.authorization_flow)));
        let rest = AuthorizationFlowResponseStatus::encoded(m.status)->Object_0;
        AuthorizationFlowResponseStatus::round_trip(m.status);
        lemma_lookup_concat(own, rest, "authorization_flow"@);
        lemma_lookup_concat(own, rest, "status"@);
        lemma_lookup_concat(own, rest, "failure_stage"@);
        lemma_lookup_concat(own, rest, "failure_reason"@);
    }
}

/// Submits the user's answers to a form: under the identifier of each input,
/// its answer.
#[derive(Debug, Clone, PartialEq, Eq)]
pub struct SubmitFormActionRequest {
    pub inputs: StringMap,
}

/// The mathematical content of a [`SubmitFormActionRequest`].
pub struct SubmitFormActionRequestView {
    pub inputs: Seq<(Seq<char>, Seq<char>)>,
}

impl DeepView for SubmitFormActionRequest {
    type V = SubmitFormActionRequestView;

    open spec fn deep_view(&self) -> SubmitFormActionRequestView {
        SubmitFormActionRequestView {
            inputs: self.inputs.deep_view(),
        }
    }
}

impl Wire for SubmitFormActionRequest {
    open spec fn valid(m: SubmitFormActionRequestView) -> bool {
        &&& StringMap::valid(m.inputs)
    }

    open spec fn encoded(m: SubmitFormActionRequestView) -> ValueView {
        ValueView::Object(
            Seq::empty()
                .push(("inputs"@, StringMap::encoded(m.inputs))),
        )
    }

    open spec fn decoded(v: ValueView) -> Result<SubmitFormActionRequestView, DecodeError> {
        match v {
            ValueView::Object(fields) => {
                let inputs = required::<StringMap>(fields, "inputs"@);
                if inputs is Err {
                    Err(inputs->Err_0)
                } else {
                    Ok(
                        SubmitFormActionRequestView {
                            inputs: inputs->Ok_0,
                        },
                    )
                }
            },
            _ => Err(DecodeError::ExpectedObject),
        }
    }

    fn encode(&self) -> (v: Value) {
        let mut fields = new_object();
        put(&mut fields, "inputs", self.inputs.encode());
        proof {
            lemma_object_view(fields);
            Self::round_trip(self.deep_view());
        }
        Value::Object(fields)
    }

    fn decode(v: &Value) -> (r: Result<SubmitFormActionRequest, DecodeError>) {
        match v {
            Value::Object(fields) => {
                proof {
                    lemma_object_view(*fields);
                }
                let inputs = get_required::<StringMap>(fields, "inputs")?;
                Ok(SubmitFormActionRequest { inputs })
            },
            _ => Err(DecodeError::ExpectedObject),
        }
    }

    proof fn round_trip(m: SubmitFormActionRequestView) {
        lemma_names();
        reveal_with_fuel(lookup_from, 2);
        StringMap::round_trip(m.inputs);
    }
}

/// The answer to a form.
#[derive(Debug, Clone, PartialEq, Eq)]
pub struct SubmitFormActionResponse {
    pub authorization_flow: Option<AuthorizationFlow>,
    /// Whether the step succeeded; its members stand beside the others in the
    /// payload.
    pub status: AuthorizationFlowResponseStatus,
}

/// The mathematical content of a [`SubmitFormActionResponse`].
pub struct SubmitFormActionResponseView {
    pub authorization_flow: Option<AuthorizationFlowView>,
    pub status: AuthorizationFlowResponseStatusView,
}

impl DeepView for SubmitFormActionResponse {
    type V = SubmitFormActionResponseView;

    open spec fn deep_view(&self) -> SubmitFormActionResponseView {
        SubmitFormActionResponseView {
            authorization_flow: self.authorization_flow.deep_view(),
            status: self.status.deep_view(),
        }
    }
}

impl Wire for SubmitFormActionResponse {
    open spec fn valid(m: SubmitFormActionResponseView) -> bool {
        true
    }

    open spec fn encoded(m: SubmitFormActionResponseView) -> ValueView {
        ValueView::Object(
            (Seq::empty()
                .push(("authorization_flow"@, encoded_optional::<AuthorizationFlow>(m.authorization_flow))))
                + AuthorizationFlowResponseStatus::encoded(m.status)->Object_0,
        )
    }

    open spec fn decoded(v: ValueView) -> Result<SubmitFormActionResponseView, DecodeError> {
        match v {
            ValueView::Object(fields) => {
                let authorization_flow = optional::<AuthorizationFlow>(fields, "authorization_flow"@);
                let status = AuthorizationFlowResponseStatus::decoded(ValueView::Object(fields));
                if authorization_flow is Err {
                    Err(authorization_flow->Err_0)
                } else if status is Err {
                    Err(status->Err_0)
                } else {
                    Ok(
                        SubmitFormActionResponseView {
                            authorization_flow: authorization_flow->Ok_0,
                            status: status->Ok_0,
                        },
                    )
                }
            },
            _ => Err(DecodeError::ExpectedObject),
        }
    }

    fn encode(&self) -> (v: Value) {
        let mut fields = new_object();
        put(&mut fields, "authorization_flow", encode_optional::<AuthorizationFlow>(&self.authorization_flow));
        match self.status.encode() {
            Value::Object(more) => {
                proof {
                    lemma_object_view(more);
                }
                put_all(&mut fields, more);
            },
            _ => {},
        }
        proof {
            lemma_object_view(fields);
            Self::round_trip(self.deep_view());
        }
        Value::Object(fields)
    }

    fn decode(v: &Value) -> (r: Result<SubmitFormActionResponse, DecodeError>) {
        match v {
            Value::Object(fields) => {
                proof {
                    lemma_object_view(*fields);
                }
                let authorization_flow = get_optional::<AuthorizationFlow>(fields, "authorization_flow")?;
                let status = AuthorizationFlowResponseStatus::decode(v)?;
                Ok(SubmitFormActionResponse { authorization_flow, status })
            },
            _ => Err(DecodeError::ExpectedObject),
        }
    }

    proof fn round_trip(m: SubmitFormActionResponseView) {
        lemma_names();
        reveal_with_fuel(lookup_from, 2);
        lemma_optional_round_trip::<AuthorizationFlow>(m.authorization_flow);
        let own = Seq::empty()
            .push(("authorization_flow"@, encoded_optional::<AuthorizationFlow>(m.authorization_flow)));
        let rest = AuthorizationFlowResponseStatus::encoded(m.status)->Object_0;
        AuthorizationFlowResponseStatus::round_trip(m.status);
        lemma_lookup_concat(own, rest, "authorization_flow"@);
        lemma_lookup_concat(own, rest, "status"@);
        lemma_lookup_concat(own, rest, "failure_stage"@);
        lemma_lookup_concat(own, rest, "failure_reason"@);
    }
}

/// Submits the parameters that the user came back from a redirect with, as they
/// were received.
#[derive(Debug, Clone, PartialEq, Eq)]
pub struct SubmitProviderReturnParametersRequest {
    pub query: String,
    pub fragment: String,
}

/// The mathematical content of a [`SubmitProviderReturnParametersRequest`].
pub struct SubmitProviderReturnParametersRequestView {
    pub query: Seq<char>,
    pub fragment: Seq<char>,
}

impl DeepView for SubmitProviderReturnParametersRequest {
    type V = SubmitProviderReturnParametersRequestView;

    open spec fn deep_view(&self) -> SubmitProviderReturnParametersRequestView {
        SubmitProviderReturnParametersRequestView {
            query: self.query.deep_view(),
            fragment: self.fragment.deep_view(),
        }
    }
}

impl Wire for SubmitProviderReturnParametersRequest {
    open spec fn valid(m: SubmitProviderReturnParametersRequestView) -> bool {
        true
    }

    open spec fn encoded(m: SubmitProviderReturnParametersRequestView) -> ValueView {
        ValueView::Object(
            Seq::empty()
                .push(("query"@, String::encoded(m.query)))
                .push(("fragment"@, String::encoded(m.fragment))),
        )
    }

    open spec fn decoded(v: ValueView) -> Result<SubmitProviderReturnParametersRequestView, DecodeError> {
        match v {
            ValueView::Object(fields) => {
                let query = required::<String>(fields, "query"@);
                let fragment = required::<String>(fields, "fragment"@);
                if query is Err {
                    Err(query->Err_0)
                } else if fragment is Err {
                    Err(fragment->Err_0)
                } else {
                    Ok(
                        SubmitProviderReturnParametersRequestView {
                            query: query->Ok_0,
                            fragment: fragment->Ok_0,
                        },
                    )
                }
            },
            _ => Err(DecodeError::ExpectedObject),
        }
    }

    fn encode(&self) -> (v: Value) {
        let mut fields = new_object();
        put(&mut fields, "query", self.query.encode());
        put(&mut fields, "fragment", self.fragment.encode());
        proof {
            lemma_object_view(fields);
            Self::round_trip(self.deep_view());
        }
        Value::Object(fields)
    }

    fn decode(v: &Value) -> (r: Result<SubmitProviderReturnParametersRequest, DecodeError>) {
        match v {
            Value::Object(fields) => {
                proof {
                    lemma_object_view(*fields);
                }
                let query = get_required::<String>(fields, "query")?;
                let fragment = get_required::<String>(fields, "fragment")?;
                Ok(SubmitProviderReturnParametersRequest { query, fragment })
            },
            _ => Err(DecodeError::ExpectedObject),
        }
    }

    proof fn round_trip(m: SubmitProviderReturnParametersRequestView) {
        lemma_names();
        reveal_with_fuel(lookup_from, 3);
    }
}

/// The resource that a redirect was made for.
#[derive(Debug, Clone, PartialEq, Eq)]
pub enum SubmitProviderReturnParametersResponseResource {
    Payment {
        payment_id: String,
    },
}

/// The mathematical content of a [`SubmitProviderReturnParametersResponseResource`].
pub enum SubmitProviderReturnParametersResponseResourceView {
    Payment {
        payment_id: Seq<char>,
    },
}

impl DeepView for SubmitProviderReturnParametersResponseResource {
    type V = SubmitProviderReturnParametersResponseResourceView;

    open spec fn deep_view(&self) -> SubmitProviderReturnParametersResponseResourceView {
        match self {
            SubmitProviderReturnParametersResponseResource::Payment { payment_id } => SubmitProviderReturnParametersResponseResourceView::Payment {
                payment_id: payment_id.deep_view(),
            },
        }
    }
}

impl Wire for SubmitProviderReturnParametersResponseResource {
    open spec fn valid(m: SubmitProviderReturnParametersResponseResourceView) -> bool {
        true
    }

    open spec fn encoded(m: SubmitProviderReturnParametersResponseResourceView) -> ValueView {
        match m {
            SubmitProviderReturnParametersResponseResourceView::Payment { payment_id } => ValueView::Object(
                Seq::empty()
                    .push(("type"@, ValueView::Text("payment"@)))
                    .push(("payment_id"@, String::encoded(payment_id))),
            ),
        }
    }

    open spec fn decoded(v: ValueView) -> Result<SubmitProviderReturnParametersResponseResourceView, DecodeError> {
        match v {
            ValueView::Object(fields) => match required::<String>(fields, "type"@) {
                Err(e) => Err(e),
                Ok(tag) => if tag == "payment"@ {
                    let payment_id = required::<String>(fields, "payment_id"@);
                    if payment_id is Err {
                        Err(payment_id->Err_0)
                    } else {
                        Ok(
                            SubmitProviderReturnParametersResponseResourceView::Payment {
                                payment_id: payment_id->Ok_0,
                            },
                        )
                    }
                } else {
                    Err(DecodeError::UnknownVariant)
                },
            },
            _ => Err(DecodeError::ExpectedObject),
        }
    }

    fn encode(&self) -> (v: Value) {
        let mut fields = new_object();
        match self {
            SubmitProviderReturnParametersResponseResource::Payment { payment_id } => {
                put(&mut fields, "type", text("payment"));
                put(&mut fields, "payment_id", payment_id.encode());
            },
        }
        proof {
            lemma_object_view(fields);
            Self::round_trip(self.deep_view());
        }
        Value::Object(fields)
    }

    fn decode(v: &Value) -> (r: Result<SubmitProviderReturnParametersResponseResource, DecodeError>) {
        match v {
            Value::Object(fields) => {
                proof {
                    lemma_object_view(*fields);
                }
                let tag = get_required::<String>(fields, "type")?;
                if str_eq(tag.as_str(), "payment") {
                    let payment_id = get_required::<String>(fields, "payment_id")?;
                    Ok(SubmitProviderReturnParametersResponseResource::Payment { payment_id })
                } else {
                    Err(DecodeError::UnknownVariant)
                }
            },
            _ => Err(DecodeError::ExpectedObject),
        }
    }

    proof fn round_trip(m: SubmitProviderReturnParametersResponseResourceView) {
        lemma_names();
        reveal_with_fuel(lookup_from, 3);
    }
}

/// The answer to return parameters: the resource that the redirect was made
/// for.
#[derive(Debug, Clone, PartialEq, Eq)]
pub struct SubmitProviderReturnParametersResponse {
    pub resource: SubmitProviderReturnParametersResponseResource,
}

/// The mathematical content of a [`SubmitProviderReturnParametersResponse`].
pub struct SubmitProviderReturnParametersResponseView {
    pub resource: SubmitProviderReturnParametersResponseResourceView,
}

impl DeepView for SubmitProviderReturnParametersResponse {
    type V = SubmitProviderReturnParametersResponseView;

    open spec fn deep_view(&self) -> SubmitProviderReturnParametersResponseView {
        SubmitProviderReturnParametersResponseView {
            resource: self.resource.deep_view(),
        }
    }
}

impl Wire for SubmitProviderReturnParametersResponse {
    open spec fn valid(m: SubmitProviderReturnParametersResponseView) -> bool {
        true
    }

    open spec fn encoded(m: SubmitProviderReturnParametersResponseView) -> ValueView {
        ValueView::Object(
            Seq::empty()
                .push(("resource"@, SubmitProviderReturnParametersResponseResource::encoded(m.resource))),
        )
    }

    open spec fn decoded(v: ValueView) -> Result<SubmitProviderReturnParametersResponseView, DecodeError> {
        match v {
            ValueView::Object(fields) => {
                let resource = required::<SubmitProviderReturnParametersResponseResource>(fields, "resource"@);
                if resource is Err {
                    Err(resource->Err_0)
                } else {
                    Ok(
                        SubmitProviderReturnParametersResponseView {
                            resource: resource->Ok_0,
                        },
                    )
                }
            },
            _ => Err(DecodeError::ExpectedObject),
        }
    }

    fn encode(&self) -> (v: Value) {
        let mut fields = new_object();
        put(&mut fields, "resource", self.resource.encode());
        proof {
            lemma_object_view(fields);
            Self::round_trip(self.deep_view());
        }
        Value::Object(fields)
    }

    fn decode(v: &Value) -> (r: Result<SubmitProviderReturnParametersResponse, DecodeError>) {
        match v {
            Value::Object(fields) => {
                proof {
                    lemma_object_view(*fields);
                }
                let resource = get_required::<SubmitProviderReturnParametersResponseResource>(fields, "resource")?;
                Ok(SubmitProviderReturnParametersResponse { resource })
            },
            _ => Err(DecodeError::ExpectedObject),
        }
    }

    proof fn round_trip(m: SubmitProviderReturnParametersResponseView) {
        lemma_names();
        reveal_with_fuel(lookup_from, 2);
        SubmitProviderReturnParametersResponseResource::round_trip(m.resource);
    }
}

impl SubmitFormActionRequest {
    /// Whether the answers leave out none of the form's mandatory inputs.
    pub open spec fn complete(
        answers: Seq<(Seq<char>, Seq<char>)>,
        form: Seq<AdditionalInputView>,
    ) -> bool {
        forall|i: int|
            0 <= i < form.len() && (#[trigger] form[i]).mandatory() ==> has_key(
                answers,
                form[i].id(),
            )
    }

    /// The position in `form` of the first mandatory input that the request
    /// has no answer for; `None` where it answers them all. The backend
    /// decides whether the answers are valid; this only tells beforehand
    /// that one is missing.
    pub fn first_unanswered(&self, form: &Vec<AdditionalInput>) -> (r: Option<usize>)
        ensures
            r is None <==> Self::complete(self.deep_view().inputs, form.deep_view()),
            r matches Some(i) ==> {
                &&& i < form.len()
                &&& form.deep_view()[i as int].mandatory()
                &&& !has_key(self.deep_view().inputs, form.deep_view()[i as int].id())
                &&& Self::complete(self.deep_view().inputs, form.deep_view().take(i as int))
            },
    {
        let mut i: usize = 0;
        while i < form.len()
            invariant
                i <= form.len(),
                Self::complete(self.deep_view().inputs, form.deep_view().take(i as int)),
            decreases form.len() - i,
        {
            if form[i].is_mandatory() && self.inputs.get(form[i].id()).is_none() {
                assert(form.deep_view()[i as int] == form[i as int].deep_view());
                return Some(i);
            }
            assert(form.deep_view()[i as int] == form[i as int].deep_view());
            proof {
                let done = form.deep_view().take(i + 1);
                assert forall|j: int| 0 <= j < done.len() && (#[trigger] done[j]).mandatory() implies has_key(
                    self.deep_view().inputs,
                    done[j].id(),
                ) by {
                    if j < i {
                        assert(form.deep_view().take(i as int)[j] == done[j]);
                    }
                }
            }
            i += 1;
        }
        assert(form.deep_view().take(i as int) =~= form.deep_view());
        None
    }
}

/// The lengths of the names that this module reads and writes, and the
/// characters that tell names of one length apart.
pub proof fn lemma_names()
    ensures
        "status"@.len() == 6,
        "status"@[0] == 's',
        "status"@[2] == 'a',
        "authorizing"@.len() == 11,
        "authorizing"@[7] == 'z',
        "failed"@.len() == 6,
        "failed"@[0] == 'f',
        "failed"@[2] == 'i',
        "failure_stage"@.len() == 13,
        "failure_stage"@[0] == 'f',
        "failure_reason"@.len() == 14,
        "failure_reason"@[8] == 'r',
        "provider_selection"@.len() == 18,
        "provider_selection"@[1] == 'r',
        "redirect"@.len() == 8,
        "redirect"@[0] == 'r',
        "redirect"@[2] == 'd',
        "form"@.len() == 4,
        "form"@[0] == 'f',
        "form"@[1] == 'o',
        "authorization_flow"@.len() == 18,
        "authorization_flow"@[1] == 'u',
        "provider_id"@.len() == 11,
        "provider_id"@[7] == 'r',
        "inputs"@.len() == 6,
        "inputs"@[0] == 'i',
        "inputs"@[2] == 'p',
        "query"@.len() == 5,
        "query"@[0] == 'q',
        "fragment"@.len() == 8,
        "fragment"@[0] == 'f',
        "fragment"@[2] == 'a',
        "type"@.len() == 4,
        "type"@[0] == 't',
        "type"@[1] == 'y',
        "payment"@.len() == 7,
        "payment"@[0] == 'p',
        "payment_id"@.len() == 10,
        "payment_id"@[1] == 'a',
        "payment_id"@[3] == 'm',
        "resource"@.len() == 8,
        "resource"@[0] == 'r',
        "resource"@[2] == 's',
{
    reveal_strlit("status");
    reveal_strlit("authorizing");
    reveal_strlit("failed");
    reveal_strlit("failure_stage");
    reveal_strlit("failure_reason");
    reveal_strlit("provider_selection");
    reveal_strlit("redirect");
    reveal_strlit("form");
    reveal_strlit("authorization_flow");
    reveal_strlit("provider_id");
    reveal_strlit("inputs");
    reveal_strlit("query");
    reveal_strlit("fragment");
    reveal_strlit("type");
    reveal_strlit("payment");
    reveal_strlit("payment_id");
    reveal_strlit("resource");
}

} // verus!
