//! Providers, the banks that authorize payments, and how one is selected.

use crate::account::{Remitter, RemitterView};
use crate::money::CountryCode;
use crate::wire::{
    encode_optional, encoded_optional, get_optional, get_required, lemma_object_view,
    lemma_optional_round_trip, lookup_from, new_object, optional, put, required, str_eq, text,
    DecodeError, Value, ValueView, Wire,
};
use vstd::prelude::*;

verus! {

/// How far the release of a provider has come.
#[derive(Debug, Clone, Copy, PartialEq, Eq, Hash, Structural)]
pub enum ReleaseChannel {
    GeneralAvailability,
    PublicBeta,
    PrivateBeta,
}

impl ReleaseChannel {
    /// The name that stands for the variant in a payload.
    pub open spec fn code(self) -> Seq<char> {
        match self {
            ReleaseChannel::GeneralAvailability => "general_availability"@,
            ReleaseChannel::PublicBeta => "public_beta"@,
            ReleaseChannel::PrivateBeta => "private_beta"@,
        }
    }

    /// The variant that a name stands for, if it stands for one.
    pub open spec fn named(code: Seq<char>) -> Option<ReleaseChannel> {
        if code == "general_availability"@ {
            Some(ReleaseChannel::GeneralAvailability)
        } else if code == "public_beta"@ {
            Some(ReleaseChannel::PublicBeta)
        } else if code == "private_beta"@ {
            Some(ReleaseChannel::PrivateBeta)
        } else {
            None
        }
    }

    /// The name that stands for the variant in a payload.
    pub fn as_str(&self) -> (s: &'static str)
        ensures
            s@ == self.code(),
    {
        match self {
            ReleaseChannel::GeneralAvailability => "general_availability",
            ReleaseChannel::PublicBeta => "public_beta",
            ReleaseChannel::PrivateBeta => "private_beta",
        }
    }

    /// The variant that `code` stands for; `None` for any other text.
    pub fn from_code(code: &str) -> (r: Option<ReleaseChannel>)
        ensures
            r == Self::named(code@),
    {
        if str_eq(code, "general_availability") {
            Some(ReleaseChannel::GeneralAvailability)
        } else if str_eq(code, "public_beta") {
            Some(ReleaseChannel::PublicBeta)
        } else if str_eq(code, "private_beta") {
            Some(ReleaseChannel::PrivateBeta)
        } else {
            None
        }
    }
}

impl DeepView for ReleaseChannel {
    type V = ReleaseChannel;

    open spec fn deep_view(&self) -> ReleaseChannel {
        *self
    }
}

impl Wire for ReleaseChannel {
    open spec fn valid(m: ReleaseChannel) -> bool {
        true
    }

    open spec fn encoded(m: ReleaseChannel) -> ValueView {
        ValueView::Text(m.code())
    }

    open spec fn decoded(v: ValueView) -> Result<ReleaseChannel, DecodeError> {
        match v {
            ValueView::Text(code) => match Self::named(code) {
                Some(x) => Ok(x),
                None => Err(DecodeError::UnknownVariant),
            },
            _ => Err(DecodeError::ExpectedText),
        }
    }

    fn encode(&self) -> (v: Value) {
        proof {
            Self::round_trip(*self);
        }
        text(self.as_str())
    }

    fn decode(v: &Value) -> (r: Result<ReleaseChannel, DecodeError>) {
        match v {
            Value::Text(code) => match ReleaseChannel::from_code(code.as_str()) {
                Some(x) => Ok(x),
                None => Err(DecodeError::UnknownVariant),
            },
            _ => Err(DecodeError::ExpectedText),
        }
    }

    proof fn round_trip(m: ReleaseChannel) {
        lemma_names();
    }
}

/// Kind of customer that a provider serves.
#[derive(Debug, Clone, Copy, PartialEq, Eq, Hash, Structural)]
pub enum CustomerSegment {
    Retail,
    Business,
    Corporate,
}

impl CustomerSegment {
    /// The name that stands for the variant in a payload.
    pub open spec fn code(self) -> Seq<char> {
        match self {
            CustomerSegment::Retail => "retail"@,
            CustomerSegment::Business => "business"@,
            CustomerSegment::Corporate => "corporate"@,
        }
    }

    /// The variant that a name stands for, if it stands for one.
    pub open spec fn named(code: Seq<char>) -> Option<CustomerSegment> {
        if code == "retail"@ {
            Some(CustomerSegment::Retail)
        } else if code == "business"@ {
            Some(CustomerSegment::Business)
        } else if code == "corporate"@ {
            Some(CustomerSegment::Corporate)
        } else {
            None
        }
    }

    /// The name that stands for the variant in a payload.
    pub fn as_str(&self) -> (s: &'static str)
        ensures
            s@ == self.code(),
    {
        match self {
            CustomerSegment::Retail => "retail",
            CustomerSegment::Business => "business",
            CustomerSegment::Corporate => "corporate",
        }
    }

    /// The variant that `code` stands for; `None` for any other text.
    pub fn from_code(code: &str) -> (r: Option<CustomerSegment>)
        ensures
            r == Self::named(code@),
    {
        if str_eq(code, "retail") {
            Some(CustomerSegment::Retail)
        } else if str_eq(code, "business") {
            Some(CustomerSegment::Business)
        } else if str_eq(code, "corporate") {
            Some(CustomerSegment::Corporate)
        } else {
            None
        }
    }
}

impl DeepView for CustomerSegment {
    type V = CustomerSegment;

    open spec fn deep_view(&self) -> CustomerSegment {
        *self
    }
}

impl Wire for CustomerSegment {
    open spec fn valid(m: CustomerSegment) -> bool {
        true
    }

    open spec fn encoded(m: CustomerSegment) -> ValueView {
        ValueView::Text(m.code())
    }

    open spec fn decoded(v: ValueView) -> Result<CustomerSegment, DecodeError> {
        match v {
            ValueView::Text(code) => match Self::named(code) {
                Some(x) => Ok(x),
                None => Err(DecodeError::UnknownVariant),
            },
            _ => Err(DecodeError::ExpectedText),
        }
    }

    fn encode(&self) -> (v: Value) {
        proof {
            Self::round_trip(*self);
        }
        text(self.as_str())
    }

    fn decode(v: &Value) -> (r: Result<CustomerSegment, DecodeError>) {
        match v {
            Value::Text(code) => match CustomerSegment::from_code(code.as_str()) {
                Some(x) => Ok(x),
                None => Err(DecodeError::UnknownVariant),
            },
            _ => Err(DecodeError::ExpectedText),
        }
    }

    proof fn round_trip(m: CustomerSegment) {
        lemma_names();
    }
}

/// Providers to leave out of a selection.
#[derive(Debug, Clone, PartialEq, Eq)]
pub struct ProviderFilterExcludes {
    pub provider_ids: Option<Vec<String>>,
}

/// The mathematical content of a [`ProviderFilterExcludes`].
pub struct ProviderFilterExcludesView {
    pub provider_ids: Option<Seq<Seq<char>>>,
}

impl DeepView for ProviderFilterExcludes {
    type V = ProviderFilterExcludesView;

    open spec fn deep_view(&self) -> ProviderFilterExcludesView {
        ProviderFilterExcludesView {
            provider_ids: self.provider_ids.deep_view(),
        }
    }
}

impl Wire for ProviderFilterExcludes {
    open spec fn valid(m: ProviderFilterExcludesView) -> bool {
        true
    }

    open spec fn encoded(m: ProviderFilterExcludesView) -> ValueView {
        ValueView::Object(
            Seq::empty()
                .push(("provider_ids"@, encoded_optional::<Vec<String>>(m.provider_ids))),
        )
    }

    open spec fn decoded(v: ValueView) -> Result<ProviderFilterExcludesView, DecodeError> {
        match v {
            ValueView::Object(fields) => {
                let provider_ids = optional::<Vec<String>>(fields, "provider_ids"@);
                if provider_ids is Err {
                    Err(provider_ids->Err_0)
                } else {
                    Ok(
                        ProviderFilterExcludesView {
                            provider_ids: provider_ids->Ok_0,
                        },
                    )
                }
            },
            _ => Err(DecodeError::ExpectedObject),
        }
    }

    fn encode(&self) -> (v: Value) {
        let mut fields = new_object();
        put(&mut fields, "provider_ids", encode_optional::<Vec<String>>(&self.provider_ids));
        proof {
            lemma_object_view(fields);
            Self::round_trip(self.deep_view());
        }
        Value::Object(fields)
    }

    fn decode(v: &Value) -> (r: Result<ProviderFilterExcludes, DecodeError>) {
        match v {
            Value::Object(fields) => {
                proof {
                    lemma_object_view(*fields);
                }
                let provider_ids = get_optional::<Vec<String>>(fields, "provider_ids")?;
                Ok(ProviderFilterExcludes { provider_ids })
            },
            _ => Err(DecodeError::ExpectedObject),
        }
    }

    proof fn round_trip(m: ProviderFilterExcludesView) {
        lemma_names();
        reveal_with_fuel(lookup_from, 2);
        lemma_optional_round_trip::<Vec<String>>(m.provider_ids);
    }
}

/// Narrows the providers that a user may select from.
#[derive(Debug, Clone, PartialEq, Eq)]
pub struct ProviderFilter {
    pub countries: Option<Vec<CountryCode>>,
    pub release_channel: Option<ReleaseChannel>,
    pub customer_segments: Option<Vec<CustomerSegment>>,
    pub provider_ids: Option<Vec<String>>,
    pub excludes: Option<ProviderFilterExcludes>,
}

/// The mathematical content of a [`ProviderFilter`].
pub struct ProviderFilterView {
    pub countries: Option<Seq<CountryCode>>,
    pub release_channel: Option<ReleaseChannel>,
    pub customer_segments: Option<Seq<CustomerSegment>>,
    pub provider_ids: Option<Seq<Seq<char>>>,
    pub excludes: Option<ProviderFilterExcludesView>,
}

impl DeepView for ProviderFilter {
    type V = ProviderFilterView;

    open spec fn deep_view(&self) -> ProviderFilterView {
        ProviderFilterView {
            countries: self.countries.deep_view(),
            release_channel: self.release_channel.deep_view(),
            customer_segments: self.customer_segments.deep_view(),
            provider_ids: self.provider_ids.deep_view(),
            excludes: self.excludes.deep_view(),
        }
    }
}

impl Wire for ProviderFilter {
    open spec fn valid(m: ProviderFilterView) -> bool {
        true
    }

    open spec fn encoded(m: ProviderFilterView) -> ValueView {
        ValueView::Object(
            Seq::empty()
                .push(("countries"@, encoded_optional::<Vec<CountryCode>>(m.countries)))
                .push(("release_channel"@, encoded_optional::<ReleaseChannel>(m.release_channel)))
                .push(("customer_segments"@, encoded_optional::<Vec<CustomerSegment>>(m.customer_segments)))
                .push(("provider_ids"@, encoded_optional::<Vec<String>>(m.provider_ids)))
                .push(("excludes"@, encoded_optional::<ProviderFilterExcludes>(m.excludes))),
        )
    }

    open spec fn decoded(v: ValueView) -> Result<ProviderFilterView, DecodeError> {
        match v {
            ValueView::Object(fields) => {
                let countries = optional::<Vec<CountryCode>>(fields, "countries"@);
                let release_channel = optional::<ReleaseChannel>(fields, "release_channel"@);
                let customer_segments = optional::<Vec<CustomerSegment>>(fields, "customer_segments"@);
                let provider_ids = optional::<Vec<String>>(fields, "provider_ids"@);
                let excludes = optional::<ProviderFilterExcludes>(fields, "excludes"@);
                if countries is Err {
                    Err(countries->Err_0)
                } else if release_channel is Err {
                    Err(release_channel->Err_0)
                } else if customer_segments is Err {
                    Err(customer_segments->Err_0)
                } else if provider_ids is Err {
                    Err(provider_ids->Err_0)
                } else if excludes is Err {
                    Err(excludes->Err_0)
                } else {
                    Ok(
                        ProviderFilterView {
                            countries: countries->Ok_0,
                            release_channel: release_channel->Ok_0,
                            customer_segments: customer_segments->Ok_0,
                            provider_ids: provider_ids->Ok_0,
                            excludes: excludes->Ok_0,
                        },
                    )
                }
            },
            _ => Err(DecodeError::ExpectedObject),
        }
    }

    fn encode(&self) -> (v: Value) {
        let mut fields = new_object();
        put(&mut fields, "countries", encode_optional::<Vec<CountryCode>>(&self.countries));
        put(&mut fields, "release_channel", encode_optional::<ReleaseChannel>(&self.release_channel));
        put(&mut fields, "customer_segments", encode_optional::<Vec<CustomerSegment>>(&self.customer_segments));
        put(&mut fields, "provider_ids", encode_optional::<Vec<String>>(&self.provider_ids));
        put(&mut fields, "excludes", encode_optional::<ProviderFilterExcludes>(&self.excludes));
        proof {
            lemma_object_view(fields);
            Self::round_trip(self.deep_view());
        }
        Value::Object(fields)
    }

    fn decode(v: &Value) -> (r: Result<ProviderFilter, DecodeError>) {
        match v {
            Value::Object(fields) => {
                proof {
                    lemma_object_view(*fields);
                }
                let countries = get_optional::<Vec<CountryCode>>(fields, "countries")?;
                let release_channel = get_optional::<ReleaseChannel>(fields, "release_channel")?;
                let customer_segments = get_optional::<Vec<CustomerSegment>>(fields, "customer_segments")?;
                let provider_ids = get_optional::<Vec<String>>(fields, "provider_ids")?;
                let excludes = get_optional::<ProviderFilterExcludes>(fields, "excludes")?;
                Ok(ProviderFilter { countries, release_channel, customer_segments, provider_ids, excludes })
            },
            _ => Err(DecodeError::ExpectedObject),
        }
    }

    proof fn round_trip(m: ProviderFilterView) {
        lemma_names();
        reveal_with_fuel(lookup_from, 6);
        lemma_optional_round_trip::<Vec<CountryCode>>(m.countries);
        lemma_optional_round_trip::<ReleaseChannel>(m.release_channel);
        lemma_optional_round_trip::<Vec<CustomerSegment>>(m.customer_segments);
        lemma_optional_round_trip::<Vec<String>>(m.provider_ids);
        lemma_optional_round_trip::<ProviderFilterExcludes>(m.excludes);
    }
}

/// How the paying bank of a payment is chosen.
#[derive(Debug, Clone, PartialEq, Eq)]
pub enum ProviderSelection {
    /// The user picks, among the providers that pass the filter.
    UserSelected {
        filter: Option<ProviderFilter>,
        preferred_scheme_ids: Option<Vec<String>>,
    },
    /// Provider and scheme are known beforehand.
    Preselected {
        provider_id: String,
        scheme_id: String,
        remitter: Option<Remitter>,
    },
}

/// The mathematical content of a [`ProviderSelection`].
pub enum ProviderSelectionView {
    UserSelected {
        filter: Option<ProviderFilterView>,
        preferred_scheme_ids: Option<Seq<Seq<char>>>,
    },
    Preselected {
        provider_id: Seq<char>,
        scheme_id: Seq<char>,
        remitter: Option<RemitterView>,
    },
}

impl DeepView for ProviderSelection {
    type V = ProviderSelectionView;

    open spec fn deep_view(&self) -> ProviderSelectionView {
        match self {
            ProviderSelection::UserSelected { filter, preferred_scheme_ids } => ProviderSelectionView::UserSelected {
                filter: filter.deep_view(),
                preferred_scheme_ids: preferred_scheme_ids.deep_view(),
            },
            ProviderSelection::Preselected { provider_id, scheme_id, remitter } => ProviderSelectionView::Preselected {
                provider_id: provider_id.deep_view(),
                scheme_id: scheme_id.deep_view(),
                remitter: remitter.deep_view(),
            },
        }
    }
}

impl Wire for ProviderSelection {
    open spec fn valid(m: ProviderSelectionView) -> bool {
        true
    }

    open spec fn encoded(m: ProviderSelectionView) -> ValueView {
        match m {
            ProviderSelectionView::UserSelected { filter, preferred_scheme_ids } => ValueView::Object(
                Seq::empty()
                    .push(("type"@, ValueView::Text("user_selected"@)))
                    .push(("filter"@, encoded_optional::<ProviderFilter>(filter)))
                    .push(("preferred_scheme_ids"@, encoded_optional::<Vec<String>>(preferred_scheme_ids))),
            ),
            ProviderSelectionView::Preselected { provider_id, scheme_id, remitter } => ValueView::Object(
                Seq::empty()
                    .push(("type"@, ValueView::Text("preselected"@)))
                    .push(("provider_id"@, String::encoded(provider_id)))
                    .push(("scheme_id"@, String::encoded(scheme_id)))
                    .push(("remitter"@, encoded_optional::<Remitter>(remitter))),
            ),
        }
    }

    open spec fn decoded(v: ValueView) -> Result<ProviderSelectionView, DecodeError> {
        match v {
            ValueView::Object(fields) => match required::<String>(fields, "type"@) {
                Err(e) => Err(e),
                Ok(tag) => if tag == "user_selected"@ {
                    let filter = optional::<ProviderFilter>(fields, "filter"@);
                    let preferred_scheme_ids = optional::<Vec<String>>(fields, "preferred_scheme_ids"@);
                    if filter is Err {
                        Err(filter->Err_0)
                    } else if preferred_scheme_ids is Err {
                        Err(preferred_scheme_ids->Err_0)
                    } else {
                        Ok(
                            ProviderSelectionView::UserSelected {
                                filter: filter->Ok_0,
                                preferred_scheme_ids: preferred_scheme_ids->Ok_0,
                            },
                        )
                    }
                } else if tag == "preselected"@ {
                    let provider_id = required::<String>(fields, "provider_id"@);
                    let scheme_id = required::<String>(fields, "scheme_id"@);
                    let remitter = optional::<Remitter>(fields, "remitter"@);
                    if provider_id is Err {
                        Err(provider_id->Err_0)
                    } else if scheme_id is Err {
                        Err(scheme_id->Err_0)
                    } else if remitter is Err {
                        Err(remitter->Err_0)
                    } else {
                        Ok(
                            ProviderSelectionView::Preselected {
                                provider_id: provider_id->Ok_0,
                                scheme_id: scheme_id->Ok_0,
                                remitter: remitter->Ok_0,
                            },
                        )
                    }
                } else {
                    Err(DecodeError::UnknownVariant)
                },
            },
            _ => Err(DecodeError::ExpectedObject),
        }
    }

    fn encode(&self) -> (v: Value) {
        let mut fields = new_object();
        match self {
            ProviderSelection::UserSelected { filter, preferred_scheme_ids } => {
                put(&mut fields, "type", text("user_selected"));
                put(&mut fields, "filter", encode_optional::<ProviderFilter>(filter));
                put(&mut fields, "preferred_scheme_ids", encode_optional::<Vec<String>>(preferred_scheme_ids));
            },
            ProviderSelection::Preselected { provider_id, scheme_id, remitter } => {
                put(&mut fields, "type", text("preselected"));
                put(&mut fields, "provider_id", provider_id.encode());
                put(&mut fields, "scheme_id", scheme_id.encode());
                put(&mut fields, "remitter", encode_optional::<Remitter>(remitter));
            },
        }
        proof {
            lemma_object_view(fields);
            Self::round_trip(self.deep_view());
        }
        Value::Object(fields)
    }

    fn decode(v: &Value) -> (r: Result<ProviderSelection, DecodeError>) {
        match v {
            Value::Object(fields) => {
                proof {
                    lemma_object_view(*fields);
                }
                let tag = get_required::<String>(fields, "type")?;
                if str_eq(tag.as_str(), "user_selected") {
                    let filter = get_optional::<ProviderFilter>(fields, "filter")?;
                    let preferred_scheme_ids = get_optional::<Vec<String>>(fields, "preferred_scheme_ids")?;
                    Ok(ProviderSelection::UserSelected { filter, preferred_scheme_ids })
                } else if str_eq(tag.as_str(), "preselected") {
                    let provider_id = get_required::<String>(fields, "provider_id")?;
                    let scheme_id = get_required::<String>(fields, "scheme_id")?;
                    let remitter = get_optional::<Remitter>(fields, "remitter")?;
                    Ok(ProviderSelection::Preselected { provider_id, scheme_id, remitter })
                } else {
                    Err(DecodeError::UnknownVariant)
                }
            },
            _ => Err(DecodeError::ExpectedObject),
        }
    }

    proof fn round_trip(m: ProviderSelectionView) {
        lemma_names();
        reveal_with_fuel(lookup_from, 5);
        match m {
            ProviderSelectionView::UserSelected { filter, preferred_scheme_ids } => {
                lemma_optional_round_trip::<ProviderFilter>(filter);
                lemma_optional_round_trip::<Vec<String>>(preferred_scheme_ids);
            },
            ProviderSelectionView::Preselected { remitter, .. } => {
                lemma_optional_round_trip::<Remitter>(remitter);
            },
        }
    }
}

/// A bank that can authorize a payment, as shown to the user.
#[derive(Debug, Clone, PartialEq, Eq)]
pub struct Provider {
    pub id: String,
    pub display_name: Option<String>,
    pub icon_uri: Option<String>,
    pub logo_uri: Option<String>,
    pub bg_color: Option<String>,
    pub country_code: Option<CountryCode>,
}

/// The mathematical content of a [`Provider`].
pub struct ProviderView {
    pub id: Seq<char>,
    pub display_name: Option<Seq<char>>,
    pub icon_uri: Option<Seq<char>>,
    pub logo_uri: Option<Seq<char>>,
    pub bg_color: Option<Seq<char>>,
    pub country_code: Option<CountryCode>,
}

impl DeepView for Provider {
    type V = ProviderView;

    open spec fn deep_view(&self) -> ProviderView {
        ProviderView {
            id: self.id.deep_view(),
            display_name: self.display_name.deep_view(),
            icon_uri: self.icon_uri.deep_view(),
            logo_uri: self.logo_uri.deep_view(),
            bg_color: self.bg_color.deep_view(),
            country_code: self.country_code.deep_view(),
        }
    }
}

impl Wire for Provider {
    open spec fn valid(m: ProviderView) -> bool {
        true
    }

    open spec fn encoded(m: ProviderView) -> ValueView {
        ValueView::Object(
            Seq::empty()
                .push(("id"@, String::encoded(m.id)))
                .push(("display_name"@, encoded_optional::<String>(m.display_name)))
                .push(("icon_uri"@, encoded_optional::<String>(m.icon_uri)))
                .push(("logo_uri"@, encoded_optional::<String>(m.logo_uri)))
                .push(("bg_color"@, encoded_optional::<String>(m.bg_color)))
                .push(("country_code"@, encoded_optional::<CountryCode>(m.country_code))),
        )
    }

    open spec fn decoded(v: ValueView) -> Result<ProviderView, DecodeError> {
        match v {
            ValueView::Object(fields) => {
                let id = required::<String>(fields, "id"@);
                let display_name = optional::<String>(fields, "display_name"@);
                let icon_uri = optional::<String>(fields, "icon_uri"@);
                let logo_uri = optional::<String>(fields, "logo_uri"@);
                let bg_color = optional::<String>(fields, "bg_color"@);
                let country_code = optional::<CountryCode>(fields, "country_code"@);
                if id is Err {
                    Err(id->Err_0)
                } else if display_name is Err {
                    Err(display_name->Err_0)
                } else if icon_uri is Err {
                    Err(icon_uri->Err_0)
                } else if logo_uri is Err {
                    Err(logo_uri->Err_0)
                } else if bg_color is Err {
                    Err(bg_color->Err_0)
                } else if country_code is Err {
                    Err(country_code->Err_0)
                } else {
                    Ok(
                        ProviderView {
                            id: id->Ok_0,
                            display_name: display_name->Ok_0,
                            icon_uri: icon_uri->Ok_0,
                            logo_uri: logo_uri->Ok_0,
                            bg_color: bg_color->Ok_0,
                            country_code: country_code->Ok_0,
                        },
                    )
                }
            },
            _ => Err(DecodeError::ExpectedObject),
        }
    }

    fn encode(&self) -> (v: Value) {
        let mut fields = new_object();
        put(&mut fields, "id", self.id.encode());
        put(&mut fields, "display_name", encode_optional::<String>(&self.display_name));
        put(&mut fields, "icon_uri", encode_optional::<String>(&self.icon_uri));
        put(&mut fields, "logo_uri", encode_optional::<String>(&self.logo_uri));
        put(&mut fields, "bg_color", encode_optional::<String>(&self.bg_color));
        put(&mut fields, "country_code", encode_optional::<CountryCode>(&self.country_code));
        proof {
            lemma_object_view(fields);
            Self::round_trip(self.deep_view());
        }
        Value::Object(fields)
    }

    fn decode(v: &Value) -> (r: Result<Provider, DecodeError>) {
        match v {
            Value::Object(fields) => {
                proof {
                    lemma_object_view(*fields);
                }
                let id = get_required::<String>(fields, "id")?;
                let display_name = get_optional::<String>(fields, "display_name")?;
                let icon_uri = get_optional::<String>(fields, "icon_uri")?;
                let logo_uri = get_optional::<String>(fields, "logo_uri")?;
                let bg_color = get_optional::<String>(fields, "bg_color")?;
                let country_code = get_optional::<CountryCode>(fields, "country_code")?;
                Ok(Provider { id, display_name, icon_uri, logo_uri, bg_color, country_code })
            },
            _ => Err(DecodeError::ExpectedObject),
        }
    }

    proof fn round_trip(m: ProviderView) {
        lemma_names();
        reveal_with_fuel(lookup_from, 7);
        lemma_optional_round_trip::<CountryCode>(m.country_code);
    }
}

/// The lengths of the names that this module reads and writes, and the
/// characters that tell names of one length apart.
pub proof fn lemma_names()
    ensures
        "general_availability"@.len() == 20,
        "general_availability"@[0] == 'g',
        "public_beta"@.len() == 11,
        "public_beta"@[7] == 'b',
        "private_beta"@.len() == 12,
        "private_beta"@[8] == 'b',
        "retail"@.len() == 6,
        "retail"@[0] == 'r',
        "retail"@[2] == 't',
        "business"@.len() == 8,
        "business"@[0] == 'b',
        "business"@[2] == 's',
        "corporate"@.len() == 9,
        "corporate"@[0] == 'c',
        "corporate"@[2] == 'r',
        "provider_ids"@.len() == 12,
        "provider_ids"@[8] == '_',
        "countries"@.len() == 9,
        "countries"@[0] == 'c',
        "countries"@[2] == 'u',
        "release_channel"@.len() == 15,
        "release_channel"@[0] == 'r',
        "customer_segments"@.len() == 17,
        "customer_segments"@[0] == 'c',
        "excludes"@.len() == 8,
        "excludes"@[0] == 'e',
        "excludes"@[2] == 'c',
        "type"@.len() == 4,
        "type"@[0] == 't',
        "type"@[1] == 'y',
        "user_selected"@.len() == 13,
        "user_selected"@[0] == 'u',
        "filter"@.len() == 6,
        "filter"@[0] == 'f',
        "filter"@[2] == 'l',
        "preferred_scheme_ids"@.len() == 20,
        "preferred_scheme_ids"@[0] == 'p',
        "preselected"@.len() == 11,
        "preselected"@[7] == 'c',
        "provider_id"@.len() == 11,
        "provider_id"@[7] == 'r',
        "scheme_id"@.len() == 9,
        "scheme_id"@[0] == 's',
        "scheme_id"@[2] == 'h',
        "remitter"@.len() == 8,
        "remitter"@[0] == 'r',
        "remitter"@[2] == 'm',
        "id"@.len() == 2,
        "id"@[0] == 'i',
        "id"@[1] == 'd',
        "display_name"@.len() == 12,
        "display_name"@[8] == 'n',
        "icon_uri"@.len() == 8,
        "icon_uri"@[0] == 'i',
        "icon_uri"@[2] == 'o',
        "logo_uri"@.len() == 8,
        "logo_uri"@[0] == 'l',
        "logo_uri"@[2] == 'g',
        "bg_color"@.len() == 8,
        "bg_color"@[0] == 'b',
        "bg_color"@[2] == '_',
        "country_code"@.len() == 12,
        "country_code"@[8] == 'c',
{
    reveal_strlit("general_availability");
    reveal_strlit("public_beta");
    reveal_strlit("private_beta");
    reveal_strlit("retail");
    reveal_strlit("business");
    reveal_strlit("corporate");
    reveal_strlit("provider_ids");
    reveal_strlit("countries");
    reveal_strlit("release_channel");
    reveal_strlit("customer_segments");
    reveal_strlit("excludes");
    reveal_strlit("type");
    reveal_strlit("user_selected");
    reveal_strlit("filter");
    reveal_strlit("preferred_scheme_ids");
    reveal_strlit("preselected");
    reveal_strlit("provider_id");
    reveal_strlit("scheme_id");
    reveal_strlit("remitter");
    reveal_strlit("id");
    reveal_strlit("display_name");
    reveal_strlit("icon_uri");
    reveal_strlit("logo_uri");
    reveal_strlit("bg_color");
    reveal_strlit("country_code");
}

} // verus!
