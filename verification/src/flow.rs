//! Authorization flows: the steps a user is taken through before a payment can execute.

use crate::provider::{Provider, ProviderView};
use crate::wire::{
    encode_optional, encoded_optional, get_optional, get_required, lemma_lookup_concat,
    lemma_object_view, lemma_optional_round_trip, lookup_from, new_object, optional, put, put_all,
    required, str_eq, text, DecodeError, Value, ValueView, Wire,
};
use vstd::prelude::*;

verus! {

/// A text shown to the user: the key of its translation and the text to fall
/// back on.
#[derive(Debug, Clone, PartialEq, Eq)]
pub struct AdditionalInputDisplayText {
    pub key: String,
    pub default: String,
}

/// The mathematical content of a [`AdditionalInputDisplayText`].
pub struct AdditionalInputDisplayTextView {
    pub key: Seq<char>,
    pub default: Seq<char>,
}

impl DeepView for AdditionalInputDisplayText {
    type V = AdditionalInputDisplayTextView;

    open spec fn deep_view(&self) -> AdditionalInputDisplayTextView {
        AdditionalInputDisplayTextView {
            key: self.key.deep_view(),
            default: self.default.deep_view(),
        }
    }
}

impl Wire for AdditionalInputDisplayText {
    open spec fn valid(m: AdditionalInputDisplayTextView) -> bool {
        true
    }

    open spec fn encoded(m: AdditionalInputDisplayTextView) -> ValueView {
        ValueView::Object(
            Seq::empty()
                .push(("key"@, String::encoded(m.key)))
                .push(("default"@, String::encoded(m.default))),
        )
    }

    open spec fn decoded(v: ValueView) -> Result<AdditionalInputDisplayTextView, DecodeError> {
        match v {
            ValueView::Object(fields) => {
                let key = required::<String>(fields, "key"@);
                let default = required::<String>(fields, "default"@);
                if key is Err {
                    Err(key->Err_0)
                } else if default is Err {
                    Err(default->Err_0)
                } else {
                    Ok(
                        AdditionalInputDisplayTextView {
                            key: key->Ok_0,
                            default: default->Ok_0,
                        },
                    )
                }
            },
            _ => Err(DecodeError::ExpectedObject),
        }
    }

    fn encode(&self) -> (v: Value) {
        let mut fields = new_object();
        put(&mut fields, "key", self.key.encode());
        put(&mut fields, "default", self.default.encode());
        proof {
            lemma_object_view(fields);
            Self::round_trip(self.deep_view());
        }
        Value::Object(fields)
    }

    fn decode(v: &Value) -> (r: Result<AdditionalInputDisplayText, DecodeError>) {
        match v {
            Value::Object(fields) => {
                proof {
                    lemma_object_view(*fields);
                }
                let key = get_required::<String>(fields, "key")?;
                let default = get_required::<String>(fields, "default")?;
                Ok(AdditionalInputDisplayText { key, default })
            },
            _ => Err(DecodeError::ExpectedObject),
        }
    }

    proof fn round_trip(m: AdditionalInputDisplayTextView) {
        lemma_names();
        reveal_with_fuel(lookup_from, 3);
    }
}

/// What a text input may hold.
#[derive(Debug, Clone, Copy, PartialEq, Eq, Hash, Structural)]
pub enum AdditionalInputFormat {
    AccountNumber,
    Alphabetical,
    Alphanumerical,
    Any,
    Email,
    Iban,
    Numerical,
    SortCode,
}

impl AdditionalInputFormat {
    /// The name that stands for the variant in a payload.
    pub open spec fn code(self) -> Seq<char> {
        match self {
            AdditionalInputFormat::AccountNumber => "account_number"@,
            AdditionalInputFormat::Alphabetical => "alphabetical"@,
            AdditionalInputFormat::Alphanumerical => "alphanumerical"@,
            AdditionalInputFormat::Any => "any"@,
            AdditionalInputFormat::Email => "email"@,
            AdditionalInputFormat::Iban => "iban"@,
            AdditionalInputFormat::Numerical => "numerical"@,
            AdditionalInputFormat::SortCode => "sort_code"@,
        }
    }

    /// The variant that a name stands for, if it stands for one.
    pub open spec fn named(code: Seq<char>) -> Option<AdditionalInputFormat> {
        if code == "account_number"@ {
            Some(AdditionalInputFormat::AccountNumber)
        } else if code == "alphabetical"@ {
            Some(AdditionalInputFormat::Alphabetical)
        } else if code == "alphanumerical"@ {
            Some(AdditionalInputFormat::Alphanumerical)
        } else if code == "any"@ {
            Some(AdditionalInputFormat::Any)
        } else if code == "email"@ {
            Some(AdditionalInputFormat::Email)
        } else if code == "iban"@ {
            Some(AdditionalInputFormat::Iban)
        } else if code == "numerical"@ {
            Some(AdditionalInputFormat::Numerical)
        } else if code == "sort_code"@ {
            Some(AdditionalInputFormat::SortCode)
        } else {
            None
        }
    }

    /// The name that stands for the variant in a payload.
    pub fn as_str(&self) -> (s: &'static str)
        ensures
            s@ == self.code(),
    {
        match self {
            AdditionalInputFormat::AccountNumber => "account_number",
            AdditionalInputFormat::Alphabetical => "alphabetical",
            AdditionalInputFormat::Alphanumerical => "alphanumerical",
            AdditionalInputFormat::Any => "any",
            AdditionalInputFormat::Email => "email",
            AdditionalInputFormat::Iban => "iban",
            AdditionalInputFormat::Numerical => "numerical",
            AdditionalInputFormat::SortCode => "sort_code",
        }
    }

    /// The variant that `code` stands for; `None` for any other text.
    pub fn from_code(code: &str) -> (r: Option<AdditionalInputFormat>)
        ensures
            r == Self::named(code@),
    {
        if str_eq(code, "account_number") {
            Some(AdditionalInputFormat::AccountNumber)
        } else if str_eq(code, "alphabetical") {
            Some(AdditionalInputFormat::Alphabetical)
        } else if str_eq(code, "alphanumerical") {
            Some(AdditionalInputFormat::Alphanumerical)
        } else if str_eq(code, "any") {
            Some(AdditionalInputFormat::Any)
        } else if str_eq(code, "email") {
            Some(AdditionalInputFormat::Email)
        } else if str_eq(code, "iban") {
            Some(AdditionalInputFormat::Iban)
        } else if str_eq(code, "numerical") {
            Some(AdditionalInputFormat::Numerical)
        } else if str_eq(code, "sort_code") {
            Some(AdditionalInputFormat::SortCode)
        } else {
            None
        }
    }
}

impl DeepView for AdditionalInputFormat {
    type V = AdditionalInputFormat;

    open spec fn deep_view(&self) -> AdditionalInputFormat {
        *self
    }
}

impl Wire for AdditionalInputFormat {
    open spec fn valid(m: AdditionalInputFormat) -> bool {
        true
    }

    open spec fn encoded(m: AdditionalInputFormat) -> ValueView {
        ValueView::Text(m.code())
    }

    open spec fn decoded(v: ValueView) -> Result<AdditionalInputFormat, DecodeError> {
        match v {
            ValueView::Text(code) => match Self::named(code) {
                Some(x) => Ok(x),
                None => Err(DecodeError::UnknownVariant),
            },
            _ => Err(DecodeError::ExpectedText),
        }
    }

    fn encode(&self) -> (v: Value) {
        proof {
            Self::round_trip(*self);
        }
        text(self.as_str())
    }

    fn decode(v: &Value) -> (r: Result<AdditionalInputFormat, DecodeError>) {
        match v {
            Value::Text(code) => match AdditionalInputFormat::from_code(code.as_str()) {
                Some(x) => Ok(x),
                None => Err(DecodeError::UnknownVariant),
            },
            _ => Err(DecodeError::ExpectedText),
        }
    }

    proof fn round_trip(m: AdditionalInputFormat) {
        lemma_names();
    }
}

/// A pattern that an answer has to match, with the message shown when it does
/// not.
#[derive(Debug, Clone, PartialEq, Eq)]
pub struct AdditionalInputRegex {
    pub regex: String,
    pub message: AdditionalInputDisplayText,
}

/// The mathematical content of a [`AdditionalInputRegex`].
pub struct AdditionalInputRegexView {
    pub regex: Seq<char>,
    pub message: AdditionalInputDisplayTextView,
}

impl DeepView for AdditionalInputRegex {
    type V = AdditionalInputRegexView;

    open spec fn deep_view(&self) -> AdditionalInputRegexView {
        AdditionalInputRegexView {
            regex: self.regex.deep_view(),
            message: self.message.deep_view(),
        }
    }
}

impl Wire for AdditionalInputRegex {
    open spec fn valid(m: AdditionalInputRegexView) -> bool {
        true
    }

    open spec fn encoded(m: AdditionalInputRegexView) -> ValueView {
        ValueView::Object(
            Seq::empty()
                .push(("regex"@, String::encoded(m.regex)))
                .push(("message"@, AdditionalInputDisplayText::encoded(m.message))),
        )
    }

    open spec fn decoded(v: ValueView) -> Result<AdditionalInputRegexView, DecodeError> {
        match v {
            ValueView::Object(fields) => {
                let regex = required::<String>(fields, "regex"@);
                let message = required::<AdditionalInputDisplayText>(fields, "message"@);
                if regex is Err {
                    Err(regex->Err_0)
                } else if message is Err {
                    Err(message->Err_0)
                } else {
                    Ok(
                        AdditionalInputRegexView {
                            regex: regex->Ok_0,
                            message: message->Ok_0,
                        },
                    )
                }
            },
            _ => Err(DecodeError::ExpectedObject),
        }
    }

    fn encode(&self) -> (v: Value) {
        let mut fields = new_object();
        put(&mut fields, "regex", self.regex.encode());
        put(&mut fields, "message", self.message.encode());
        proof {
            lemma_object_view(fields);
            Self::round_trip(self.deep_view());
        }
        Value::Object(fields)
    }

    fn decode(v: &Value) -> (r: Result<AdditionalInputRegex, DecodeError>) {
        match v {
            Value::Object(fields) => {
                proof {
                    lemma_object_view(*fields);
                }
                let regex = get_required::<String>(fields, "regex")?;
                let message = get_required::<AdditionalInputDisplayText>(fields, "message")?;
                Ok(AdditionalInputRegex { regex, message })
            },
            _ => Err(DecodeError::ExpectedObject),
        }
    }

    proof fn round_trip(m: AdditionalInputRegexView) {
        lemma_names();
        reveal_with_fuel(lookup_from, 3);
        AdditionalInputDisplayText::round_trip(m.message);
    }
}

/// One of the answers that a select input offers.
#[derive(Debug, Clone, PartialEq, Eq)]
pub struct AdditionalInputOption {
    pub id: String,
    pub display_text: AdditionalInputDisplayText,
}

/// The mathematical content of a [`AdditionalInputOption`].
pub struct AdditionalInputOptionView {
    pub id: Seq<char>,
    pub display_text: AdditionalInputDisplayTextView,
}

impl DeepView for AdditionalInputOption {
    type V = AdditionalInputOptionView;

    open spec fn deep_view(&self) -> AdditionalInputOptionView {
        AdditionalInputOptionView {
            id: self.id.deep_view(),
            display_text: self.display_text.deep_view(),
        }
    }
}

impl Wire for AdditionalInputOption {
    open spec fn valid(m: AdditionalInputOptionView) -> bool {
        true
    }

    open spec fn encoded(m: AdditionalInputOptionView) -> ValueView {
        ValueView::Object(
            Seq::empty()
                .push(("id"@, String::encoded(m.id)))
                .push(("display_text"@, AdditionalInputDisplayText::encoded(m.display_text))),
        )
    }

    open spec fn decoded(v: ValueView) -> Result<AdditionalInputOptionView, DecodeError> {
        match v {
            ValueView::Object(fields) => {
                let id = required::<String>(fields, "id"@);
                let display_text = required::<AdditionalInputDisplayText>(fields, "display_text"@);
                if id is Err {
                    Err(id->Err_0)
                } else if display_text is Err {
                    Err(display_text->Err_0)
                } else {
                    Ok(
                        AdditionalInputOptionView {
                            id: id->Ok_0,
                            display_text: display_text->Ok_0,
                        },
                    )
                }
            },
            _ => Err(DecodeError::ExpectedObject),
        }
    }

    fn encode(&self) -> (v: Value) {
        let mut fields = new_object();
        put(&mut fields, "id", self.id.encode());
        put(&mut fields, "display_text", self.display_text.encode());
        proof {
            lemma_object_view(fields);
            Self::round_trip(self.deep_view());
        }
        Value::Object(fields)
    }

    fn decode(v: &Value) -> (r: Result<AdditionalInputOption, DecodeError>) {
        match v {
            Value::Object(fields) => {
                proof {
                    lemma_object_view(*fields);
                }
                let id = get_required::<String>(fields, "id")?;
                let display_text = get_required::<AdditionalInputDisplayText>(fields, "display_text")?;
                Ok(AdditionalInputOption { id, display_text })
            },
            _ => Err(DecodeError::ExpectedObject),
        }
    }

    proof fn round_trip(m: AdditionalInputOptionView) {
        lemma_names();
        reveal_with_fuel(lookup_from, 3);
        AdditionalInputDisplayText::round_trip(m.display_text);
    }
}

/// The image of an input: where it is, or what it is.
#[derive(Debug, Clone, PartialEq, Eq)]
pub enum AdditionalInputImage {
    Uri {
        uri: String,
    },
    Base64 {
        data: String,
        media_type: String,
    },
}

/// The mathematical content of a [`AdditionalInputImage`].
pub enum AdditionalInputImageView {
    Uri {
        uri: Seq<char>,
    },
    Base64 {
        data: Seq<char>,
        media_type: Seq<char>,
    },
}

impl DeepView for AdditionalInputImage {
    type V = AdditionalInputImageView;

    open spec fn deep_view(&self) -> AdditionalInputImageView {
        match self {
            AdditionalInputImage::Uri { uri } => AdditionalInputImageView::Uri {
                uri: uri.deep_view(),
            },
            AdditionalInputImage::Base64 { data, media_type } => AdditionalInputImageView::Base64 {
                data: data.deep_view(),
                media_type: media_type.deep_view(),
            },
        }
    }
}

impl Wire for AdditionalInputImage {
    open spec fn valid(m: AdditionalInputImageView) -> bool {
        true
    }

    open spec fn encoded(m: AdditionalInputImageView) -> ValueView {
        match m {
            AdditionalInputImageView::Uri { uri } => ValueView::Object(
                Seq::empty()
                    .push(("type"@, ValueView::Text("uri"@)))
                    .push(("uri"@, String::encoded(uri))),
            ),
            AdditionalInputImageView::Base64 { data, media_type } => ValueView::Object(
                Seq::empty()
                    .push(("type"@, ValueView::Text("base64"@)))
                    .push(("data"@, String::encoded(data)))
                    .push(("media_type"@, String::encoded(media_type))),
            ),
        }
    }

    open spec fn decoded(v: ValueView) -> Result<AdditionalInputImageView, DecodeError> {
        match v {
            ValueView::Object(fields) => match required::<String>(fields, "type"@) {
                Err(e) => Err(e),
                Ok(tag) => if tag == "uri"@ {
                    let uri = required::<String>(fields, "uri"@);
                    if uri is Err {
                        Err(uri->Err_0)
                    } else {
                        Ok(
                            AdditionalInputImageView::Uri {
                                uri: uri->Ok_0,
                            },
                        )
                    }
                } else if tag == "base64"@ {
                    let data = required::<String>(fields, "data"@);
                    let media_type = required::<String>(fields, "media_type"@);
                    if data is Err {
                        Err(data->Err_0)
                    } else if media_type is Err {
                        Err(media_type->Err_0)
                    } else {
                        Ok(
                            AdditionalInputImageView::Base64 {
                                data: data->Ok_0,
                                media_type: media_type->Ok_0,
                            },
                        )
                    }
                } else {
                    Err(DecodeError::UnknownVariant)
                },
            },
            _ => Err(DecodeError::ExpectedObject),
        }
    }

    fn encode(&self) -> (v: Value) {
        let mut fields = new_object();
        match self {
            AdditionalInputImage::Uri { uri } => {
                put(&mut fields, "type", text("uri"));
                put(&mut fields, "uri", uri.encode());
            },
            AdditionalInputImage::Base64 { data, media_type } => {
                put(&mut fields, "type", text("base64"));
                put(&mut fields, "data", data.encode());
                put(&mut fields, "media_type", media_type.encode());
            },
        }
        proof {
            lemma_object_view(fields);
            Self::round_trip(self.deep_view());
        }
        Value::Object(fields)
    }

    fn decode(v: &Value) -> (r: Result<AdditionalInputImage, DecodeError>) {
        match v {
            Value::Object(fields) => {
                proof {
                    lemma_object_view(*fields);
                }
                let tag = get_required::<String>(fields, "type")?;
                if str_eq(tag.as_str(), "uri") {
                    let uri = get_required::<String>(fields, "uri")?;
                    Ok(AdditionalInputImage::Uri { uri })
                } else if str_eq(tag.as_str(), "base64") {
                    let data = get_required::<String>(fields, "data")?;
                    let media_type = get_required::<String>(fields, "media_type")?;
                    Ok(AdditionalInputImage::Base64 { data, media_type })
                } else {
                    Err(DecodeError::UnknownVariant)
                }
            },
            _ => Err(DecodeError::ExpectedObject),
        }
    }

    proof fn round_trip(m: AdditionalInputImageView) {
        lemma_names();
        reveal_with_fuel(lookup_from, 4);
    }
}

/// A form field that the user is asked to fill in.
#[derive(Debug, Clone, PartialEq, Eq)]
pub enum AdditionalInput {
    Text {
        id: String,
        mandatory: bool,
        display_text: AdditionalInputDisplayText,
        description: Option<AdditionalInputDisplayText>,
        format: AdditionalInputFormat,
        sensitive: bool,
        min_length: i32,
        max_length: i32,
        regexes: Vec<AdditionalInputRegex>,
    },
    Select {
        id: String,
        mandatory: bool,
        display_text: AdditionalInputDisplayText,
        description: Option<AdditionalInputDisplayText>,
        options: Vec<AdditionalInputOption>,
    },
    TextWithImage {
        id: String,
        mandatory: bool,
        display_text: AdditionalInputDisplayText,
        description: Option<AdditionalInputDisplayText>,
        format: AdditionalInputFormat,
        sensitive: bool,
        min_length: i32,
        max_length: i32,
        regexes: Vec<AdditionalInputRegex>,
        image: AdditionalInputImage,
    },
}

/// The mathematical content of a [`AdditionalInput`].
pub enum AdditionalInputView {
    Text {
        id: Seq<char>,
        mandatory: bool,
        display_text: AdditionalInputDisplayTextView,
        description: Option<AdditionalInputDisplayTextView>,
        format: AdditionalInputFormat,
        sensitive: bool,
        min_length: i32,
        max_length: i32,
        regexes: Seq<AdditionalInputRegexView>,
    },
    Select {
        id: Seq<char>,
        mandatory: bool,
        display_text: AdditionalInputDisplayTextView,
        description: Option<AdditionalInputDisplayTextView>,
        options: Seq<AdditionalInputOptionView>,
    },
    TextWithImage {
        id: Seq<char>,
        mandatory: bool,
        display_text: AdditionalInputDisplayTextView,
        description: Option<AdditionalInputDisplayTextView>,
        format: AdditionalInputFormat,
        sensitive: bool,
        min_length: i32,
        max_length: i32,
        regexes: Seq<AdditionalInputRegexView>,
        image: AdditionalInputImageView,
    },
}

impl DeepView for AdditionalInput {
    type V = AdditionalInputView;

    open spec fn deep_view(&self) -> AdditionalInputView {
        match self {
            AdditionalInput::Text { id, mandatory, display_text, description, format, sensitive, min_length, max_length, regexes } => AdditionalInputView::Text {
                id: id.deep_view(),
                mandatory: mandatory.deep_view(),
                display_text: display_text.deep_view(),
                description: description.deep_view(),
                format: format.deep_view(),
                sensitive: sensitive.deep_view(),
                min_length: min_length.deep_view(),
                max_length: max_length.deep_view(),
                regexes: regexes.deep_view(),
            },
            AdditionalInput::Select { id, mandatory, display_text, description, options } => AdditionalInputView::Select {
                id: id.deep_view(),
                mandatory: mandatory.deep_view(),
                display_text: display_text.deep_view(),
                description: description.deep_view(),
                options: options.deep_view(),
            },
            AdditionalInput::TextWithImage { id, mandatory, display_text, description, format, sensitive, min_length, max_length, regexes, image } => AdditionalInputView::TextWithImage {
                id: id.deep_view(),
                mandatory: mandatory.deep_view(),
                display_text: display_text.deep_view(),
                description: description.deep_view(),
                format: format.deep_view(),
                sensitive: sensitive.deep_view(),
                min_length: min_length.deep_view(),
                max_length: max_length.deep_view(),
                regexes: regexes.deep_view(),
                image: image.deep_view(),
            },
        }
    }
}

impl Wire for AdditionalInput {
    open spec fn valid(m: AdditionalInputView) -> bool {
        true
    }

    open spec fn encoded(m: AdditionalInputView) -> ValueView {
        match m {
            AdditionalInputView::Text { id, mandatory, display_text, description, format, sensitive, min_length, max_length, regexes } => ValueView::Object(
                Seq::empty()
                    .push(("type"@, ValueView::Text("text"@)))
                    .push(("id"@, String::encoded(id)))
                    .push(("mandatory"@, bool::encoded(mandatory)))
                    .push(("display_text"@, AdditionalInputDisplayText::encoded(display_text)))
                    .push(("description"@, encoded_optional::<AdditionalInputDisplayText>(description)))
                    .push(("format"@, AdditionalInputFormat::encoded(format)))
                    .push(("sensitive"@, bool::encoded(sensitive)))
                    .push(("min_length"@, i32::encoded(min_length)))
                    .push(("max_length"@, i32::encoded(max_length)))
                    .push(("regexes"@, Vec::<AdditionalInputRegex>::encoded(regexes))),
            ),
            AdditionalInputView::Select { id, mandatory, display_text, description, options } => ValueView::Object(
                Seq::empty()
                    .push(("type"@, ValueView::Text("select"@)))
                    .push(("id"@, String::encoded(id)))
                    .push(("mandatory"@, bool::encoded(mandatory)))
                    .push(("display_text"@, AdditionalInputDisplayText::encoded(display_text)))
                    .push(("description"@, encoded_optional::<AdditionalInputDisplayText>(description)))
                    .push(("options"@, Vec::<AdditionalInputOption>::encoded(options))),
            ),
            AdditionalInputView::TextWithImage { id, mandatory, display_text, description, format, sensitive, min_length, max_length, regexes, image } => ValueView::Object(
                Seq::empty()
                    .push(("type"@, ValueView::Text("text_with_image"@)))
                    .push(("id"@, String::encoded(id)))
                    .push(("mandatory"@, bool::encoded(mandatory)))
                    .push(("display_text"@, AdditionalInputDisplayText::encoded(display_text)))
                    .push(("description"@, encoded_optional::<AdditionalInputDisplayText>(description)))
                    .push(("format"@, AdditionalInputFormat::encoded(format)))
                    .push(("sensitive"@, bool::encoded(sensitive)))
                    .push(("min_length"@, i32::encoded(min_length)))
                    .push(("max_length"@, i32::encoded(max_length)))
                    .push(("regexes"@, Vec::<AdditionalInputRegex>::encoded(regexes)))
                    .push(("image"@, AdditionalInputImage::encoded(image))),
            ),
        }
    }

    open spec fn decoded(v: ValueView) -> Result<AdditionalInputView, DecodeError> {
        match v {
            ValueView::Object(fields) => match required::<String>(fields, "type"@) {
                Err(e) => Err(e),
                Ok(tag) => if tag == "text"@ {
                    let id = required::<String>(fields, "id"@);
                    let mandatory = required::<bool>(fields, "mandatory"@);
                    let display_text = required::<AdditionalInputDisplayText>(fields, "display_text"@);
                    let description = optional::<AdditionalInputDisplayText>(fields, "description"@);
                    let format = required::<AdditionalInputFormat>(fields, "format"@);
                    let sensitive = required::<bool>(fields, "sensitive"@);
                    let min_length = required::<i32>(fields, "min_length"@);
                    let max_length = required::<i32>(fields, "max_length"@);
                    let regexes = required::<Vec<AdditionalInputRegex>>(fields, "regexes"@);
                    if id is Err {
                        Err(id->Err_0)
                    } else if mandatory is Err {
                        Err(mandatory->Err_0)
                    } else if display_text is Err {
                        Err(display_text->Err_0)
                    } else if description is Err {
                        Err(description->Err_0)
                    } else if format is Err {
                        Err(format->Err_0)
                    } else if sensitive is Err {
                        Err(sensitive->Err_0)
                    } else if min_length is Err {
                        Err(min_length->Err_0)
                    } else if max_length is Err {
                        Err(max_length->Err_0)
                    } else if regexes is Err {
                        Err(regexes->Err_0)
                    } else {
                        Ok(
                            AdditionalInputView::Text {
                                id: id->Ok_0,
                                mandatory: mandatory->Ok_0,
                                display_text: display_text->Ok_0,
                                description: description->Ok_0,
                                format: format->Ok_0,
                                sensitive: sensitive->Ok_0,
                                min_length: min_length->Ok_0,
                                max_length: max_length->Ok_0,
                                regexes: regexes->Ok_0,
                            },
                        )
                    }
                } else if tag == "select"@ {
                    let id = required::<String>(fields, "id"@);
                    let mandatory = required::<bool>(fields, "mandatory"@);
                    let display_text = required::<AdditionalInputDisplayText>(fields, "display_text"@);
                    let description = optional::<AdditionalInputDisplayText>(fields, "description"@);
                    let options = required::<Vec<AdditionalInputOption>>(fields, "options"@);
                    if id is Err {
                        Err(id->Err_0)
                    } else if mandatory is Err {
                        Err(mandatory->Err_0)
                    } else if display_text is Err {
                        Err(display_text->Err_0)
                    } else if description is Err {
                        Err(description->Err_0)
                    } else if options is Err {
                        Err(options->Err_0)
                    } else {
                        Ok(
                            AdditionalInputView::Select {
                                id: id->Ok_0,
                                mandatory: mandatory->Ok_0,
                                display_text: display_text->Ok_0,
                                description: description->Ok_0,
                                options: options->Ok_0,
                            },
                        )
                    }
                } else if tag == "text_with_image"@ {
                    let id = required::<String>(fields, "id"@);
                    let mandatory = required::<bool>(fields, "mandatory"@);
                    let display_text = required::<AdditionalInputDisplayText>(fields, "display_text"@);
                    let description = optional::<AdditionalInputDisplayText>(fields, "description"@);
                    let format = required::<AdditionalInputFormat>(fields, "format"@);
                    let sensitive = required::<bool>(fields, "sensitive"@);
                    let min_length = required::<i32>(fields, "min_length"@);
                    let max_length = required::<i32>(fields, "max_length"@);
                    let regexes = required::<Vec<AdditionalInputRegex>>(fields, "regexes"@);
                    let image = required::<AdditionalInputImage>(fields, "image"@);
                    if id is Err {
                        Err(id->Err_0)
                    } else if mandatory is Err {
                        Err(mandatory->Err_0)
                    } else if display_text is Err {
                        Err(display_text->Err_0)
                    } else if description is Err {
                        Err(description->Err_0)
                    } else if format is Err {
                        Err(format->Err_0)
                    } else if sensitive is Err {
                        Err(sensitive->Err_0)
                    } else if min_length is Err {
                        Err(min_length->Err_0)
                    } else if max_length is Err {
                        Err(max_length->Err_0)
                    } else if regexes is Err {
                        Err(regexes->Err_0)
                    } else if image is Err {
                        Err(image->Err_0)
                    } else {
                        Ok(
                            AdditionalInputView::TextWithImage {
                                id: id->Ok_0,
                                mandatory: mandatory->Ok_0,
                                display_text: display_text->Ok_0,
                                description: description->Ok_0,
                                format: format->Ok_0,
                                sensitive: sensitive->Ok_0,
                                min_length: min_length->Ok_0,
                                max_length: max_length->Ok_0,
                                regexes: regexes->Ok_0,
                                image: image->Ok_0,
                            },
                        )
                    }
                } else {
                    Err(DecodeError::UnknownVariant)
                },
            },
            _ => Err(DecodeError::ExpectedObject),
        }
    }

    fn encode(&self) -> (v: Value) {
        let mut fields = new_object();
        match self {
            AdditionalInput::Text { id, mandatory, display_text, description, format, sensitive, min_length, max_length, regexes } => {
                put(&mut fields, "type", text("text"));
                put(&mut fields, "id", id.encode());
                put(&mut fields, "mandatory", mandatory.encode());
                put(&mut fields, "display_text", display_text.encode());
                put(&mut fields, "description", encode_optional::<AdditionalInputDisplayText>(description));
                put(&mut fields, "format", format.encode());
                put(&mut fields, "sensitive", sensitive.encode());
                put(&mut fields, "min_length", min_length.encode());
                put(&mut fields, "max_length", max_length.encode());
                put(&mut fields, "regexes", regexes.encode());
            },
            AdditionalInput::Select { id, mandatory, display_text, description, options } => {
                put(&mut fields, "type", text("select"));
                put(&mut fields, "id", id.encode());
                put(&mut fields, "mandatory", mandatory.encode());
                put(&mut fields, "display_text", display_text.encode());
                put(&mut fields, "description", encode_optional::<AdditionalInputDisplayText>(description));
                put(&mut fields, "options", options.encode());
            },
            AdditionalInput::TextWithImage { id, mandatory, display_text, description, format, sensitive, min_length, max_length, regexes, image } => {
                put(&mut fields, "type", text("text_with_image"));
                put(&mut fields, "id", id.encode());
                put(&mut fields, "mandatory", mandatory.encode());
                put(&mut fields, "display_text", display_text.encode());
                put(&mut fields, "description", encode_optional::<AdditionalInputDisplayText>(description));
                put(&mut fields, "format", format.encode());
                put(&mut fields, "sensitive", sensitive.encode());
                put(&mut fields, "min_length", min_length.encode());
                put(&mut fields, "max_length", max_length.encode());
                put(&mut fields, "regexes", regexes.encode());
                put(&mut fields, "image", image.encode());
            },
        }
        proof {
            lemma_object_view(fields);
            Self::round_trip(self.deep_view());
        }
        Value::Object(fields)
    }

    fn decode(v: &Value) -> (r: Result<AdditionalInput, DecodeError>) {
        match v {
            Value::Object(fields) => {
                proof {
                    lemma_object_view(*fields);
                }
                let tag = get_required::<String>(fields, "type")?;
                if str_eq(tag.as_str(), "text") {
                    let id = get_required::<String>(fields, "id")?;
                    let mandatory = get_required::<bool>(fields, "mandatory")?;
                    let display_text = get_required::<AdditionalInputDisplayText>(fields, "display_text")?;
                    let description = get_optional::<AdditionalInputDisplayText>(fields, "description")?;
                    let format = get_required::<AdditionalInputFormat>(fields, "format")?;
                    let sensitive = get_required::<bool>(fields, "sensitive")?;
                    let min_length = get_required::<i32>(fields, "min_length")?;
                    let max_length = get_required::<i32>(fields, "max_length")?;
                    let regexes = get_required::<Vec<AdditionalInputRegex>>(fields, "regexes")?;
                    Ok(AdditionalInput::Text { id, mandatory, display_text, description, format, sensitive, min_length, max_length, regexes })
                } else if str_eq(tag.as_str(), "select") {
                    let id = get_required::<String>(fields, "id")?;
                    let mandatory = get_required::<bool>(fields, "mandatory")?;
                    let display_text = get_required::<AdditionalInputDisplayText>(fields, "display_text")?;
                    let description = get_optional::<AdditionalInputDisplayText>(fields, "description")?;
                    let options = get_required::<Vec<AdditionalInputOption>>(fields, "options")?;
                    Ok(AdditionalInput::Select { id, mandatory, display_text, description, options })
                } else if str_eq(tag.as_str(), "text_with_image") {
                    let id = get_required::<String>(fields, "id")?;
                    let mandatory = get_required::<bool>(fields, "mandatory")?;
                    let display_text = get_required::<AdditionalInputDisplayText>(fields, "display_text")?;
                    let description = get_optional::<AdditionalInputDisplayText>(fields, "description")?;
                    let format = get_required::<AdditionalInputFormat>(fields, "format")?;
                    let sensitive = get_required::<bool>(fields, "sensitive")?;
                    let min_length = get_required::<i32>(fields, "min_length")?;
                    let max_length = get_required::<i32>(fields, "max_length")?;
                    let regexes = get_required::<Vec<AdditionalInputRegex>>(fields, "regexes")?;
                    let image = get_required::<AdditionalInputImage>(fields, "image")?;
                    Ok(AdditionalInput::TextWithImage { id, mandatory, display_text, description, format, sensitive, min_length, max_length, regexes, image })
                } else {
                    Err(DecodeError::UnknownVariant)
                }
            },
            _ => Err(DecodeError::ExpectedObject),
        }
    }

    #[verifier::rlimit(50)]
    proof fn round_trip(m: AdditionalInputView) {
        lemma_names();
        reveal_with_fuel(lookup_from, 12);
        match m {
            AdditionalInputView::Text { display_text, description, format, regexes, .. } => {
                AdditionalInputDisplayText::round_trip(display_text);
                lemma_optional_round_trip::<AdditionalInputDisplayText>(description);
                AdditionalInputFormat::round_trip(format);
                Vec::<AdditionalInputRegex>::round_trip(regexes);
            },
            AdditionalInputView::Select { display_text, description, options, .. } => {
                AdditionalInputDisplayText::round_trip(display_text);
                lemma_optional_round_trip::<AdditionalInputDisplayText>(description);
                Vec::<AdditionalInputOption>::round_trip(options);
            },
            AdditionalInputView::TextWithImage { display_text, description, format, regexes, image, .. } => {
                AdditionalInputDisplayText::round_trip(display_text);
                lemma_optional_round_trip::<AdditionalInputDisplayText>(description);
                AdditionalInputFormat::round_trip(format);
                Vec::<AdditionalInputRegex>::round_trip(regexes);
                AdditionalInputImage::round_trip(image);
            },
        }
    }
}

/// What is known of the target of a redirect.
#[derive(Debug, Clone, PartialEq, Eq)]
pub enum RedirectActionMetadata {
    Provider(Provider),
}

/// The mathematical content of a [`RedirectActionMetadata`].
pub enum RedirectActionMetadataView {
    Provider(ProviderView),
}

impl DeepView for RedirectActionMetadata {
    type V = RedirectActionMetadataView;

    open spec fn deep_view(&self) -> RedirectActionMetadataView {
        match self {
            RedirectActionMetadata::Provider(inner) => RedirectActionMetadataView::Provider(inner.deep_view()),
        }
    }
}

impl Wire for RedirectActionMetadata {
    open spec fn valid(m: RedirectActionMetadataView) -> bool {
        true
    }

    open spec fn encoded(m: RedirectActionMetadataView) -> ValueView {
        match m {
            RedirectActionMetadataView::Provider(inner) => ValueView::Object(
                Seq::empty().push(("type"@, ValueView::Text("provider"@))) + Provider::encoded(inner)->Object_0,
            ),
        }
    }

    open spec fn decoded(v: ValueView) -> Result<RedirectActionMetadataView, DecodeError> {
        match v {
            ValueView::Object(fields) => match required::<String>(fields, "type"@) {
                Err(e) => Err(e),
                Ok(tag) => if tag == "provider"@ {
                    match Provider::decoded(ValueView::Object(fields)) {
                        Ok(inner) => Ok(RedirectActionMetadataView::Provider(inner)),
                        Err(e) => Err(e),
                    }
                } else {
                    Err(DecodeError::UnknownVariant)
                },
            },
            _ => Err(DecodeError::ExpectedObject),
        }
    }

    fn encode(&self) -> (v: Value) {
        let mut fields = new_object();
        match self {
            RedirectActionMetadata::Provider(inner) => {
                put(&mut fields, "type", text("provider"));
                match inner.encode() {
                    Value::Object(more) => {
                        proof {
                            lemma_object_view(more);
                        }
                        put_all(&mut fields, more);
                    },
                    _ => {},
                }
            },
        }
        proof {
            lemma_object_view(fields);
            Self::round_trip(self.deep_view());
        }
        Value::Object(fields)
    }

    fn decode(v: &Value) -> (r: Result<RedirectActionMetadata, DecodeError>) {
        match v {
            Value::Object(fields) => {
                proof {
                    lemma_object_view(*fields);
                }
                let tag = get_required::<String>(fields, "type")?;
                if str_eq(tag.as_str(), "provider") {
                    let inner = Provider::decode(v)?;
                    Ok(RedirectActionMetadata::Provider(inner))
                } else {
                    Err(DecodeError::UnknownVariant)
                }
            },
            _ => Err(DecodeError::ExpectedObject),
        }
    }

    proof fn round_trip(m: RedirectActionMetadataView) {
        lemma_names();
        reveal_with_fuel(lookup_from, 2);
        match m {
            RedirectActionMetadataView::Provider(inner) => {
                crate::provider::lemma_names();
                let own = Seq::empty().push(("type"@, ValueView::Text("provider"@)));
                let rest = Provider::encoded(inner)->Object_0;
                Provider::round_trip(inner);
                lemma_lookup_concat(own, rest, "type"@);
                lemma_lookup_concat(own, rest, "id"@);
                lemma_lookup_concat(own, rest, "display_name"@);
                lemma_lookup_concat(own, rest, "icon_uri"@);
                lemma_lookup_concat(own, rest, "logo_uri"@);
                lemma_lookup_concat(own, rest, "bg_color"@);
                lemma_lookup_concat(own, rest, "country_code"@);
            },
        }
    }
}

/// What the caller has to do next to advance an authorization flow.
#[derive(Debug, Clone, PartialEq, Eq)]
pub enum AuthorizationFlowNextAction {
    /// Show the providers, and submit the one that the user selects.
    ProviderSelection {
        providers: Vec<Provider>,
    },
    /// Send the user to `uri`, and submit the parameters that the user returns
    /// with.
    Redirect {
        uri: String,
        metadata: Option<RedirectActionMetadata>,
    },
    /// Show a form of `inputs`, and submit the user's answers.
    Form {
        inputs: Vec<AdditionalInput>,
    },
    /// Nothing to do but to keep polling.
    Wait,
}

/// The mathematical content of a [`AuthorizationFlowNextAction`].
pub enum AuthorizationFlowNextActionView {
    ProviderSelection {
        providers: Seq<ProviderView>,
    },
    Redirect {
        uri: Seq<char>,
        metadata: Option<RedirectActionMetadataView>,
    },
    Form {
        inputs: Seq<AdditionalInputView>,
    },
    Wait,
}

impl DeepView for AuthorizationFlowNextAction {
    type V = AuthorizationFlowNextActionView;

    open spec fn deep_view(&self) -> AuthorizationFlowNextActionView {
        match self {
            AuthorizationFlowNextAction::ProviderSelection { providers } => AuthorizationFlowNextActionView::ProviderSelection {
                providers: providers.deep_view(),
            },
            AuthorizationFlowNextAction::Redirect { uri, metadata } => AuthorizationFlowNextActionView::Redirect {
                uri: uri.deep_view(),
                metadata: metadata.deep_view(),
            },
            AuthorizationFlowNextAction::Form { inputs } => AuthorizationFlowNextActionView::Form {
                inputs: inputs.deep_view(),
            },
            AuthorizationFlowNextAction::Wait => AuthorizationFlowNextActionView::Wait,
        }
    }
}

impl Wire for AuthorizationFlowNextAction {
    open spec fn valid(m: AuthorizationFlowNextActionView) -> bool {
        true
    }

    open spec fn encoded(m: AuthorizationFlowNextActionView) -> ValueView {
        match m {
            AuthorizationFlowNextActionView::ProviderSelection { providers } => ValueView::Object(
                Seq::empty()
                    .push(("type"@, ValueView::Text("provider_selection"@)))
                    .push(("providers"@, Vec::<Provider>::encoded(providers))),
            ),
            AuthorizationFlowNextActionView::Redirect { uri, metadata } => ValueView::Object(
                Seq::empty()
                    .push(("type"@, ValueView::Text("redirect"@)))
                    .push(("uri"@, String::encoded(uri)))
                    .push(("metadata"@, encoded_optional::<RedirectActionMetadata>(metadata))),
            ),
            AuthorizationFlowNextActionView::Form { inputs } => ValueView::Object(
                Seq::empty()
                    .push(("type"@, ValueView::Text("form"@)))
                    .push(("inputs"@, Vec::<AdditionalInput>::encoded(inputs))),
            ),
            AuthorizationFlowNextActionView::Wait => ValueView::Object(
                Seq::empty()
                    .push(("type"@, ValueView::Text("wait"@))),
            ),
        }
    }

    open spec fn decoded(v: ValueView) -> Result<AuthorizationFlowNextActionView, DecodeError> {
        match v {
            ValueView::Object(fields) => match required::<String>(fields, "type"@) {
                Err(e) => Err(e),
                Ok(tag) => if tag == "provider_selection"@ {
                    let providers = required::<Vec<Provider>>(fields, "providers"@);
                    if providers is Err {
                        Err(providers->Err_0)
                    } else {
                        Ok(
                            AuthorizationFlowNextActionView::ProviderSelection {
                                providers: providers->Ok_0,
                            },
                        )
                    }
                } else if tag == "redirect"@ {
                    let uri = required::<String>(fields, "uri"@);
                    let metadata = optional::<RedirectActionMetadata>(fields, "metadata"@);
                    if uri is Err {
                        Err(uri->Err_0)
                    } else if metadata is Err {
                        Err(metadata->Err_0)
                    } else {
                        Ok(
                            AuthorizationFlowNextActionView::Redirect {
                                uri: uri->Ok_0,
                                metadata: metadata->Ok_0,
                            },
                        )
                    }
                } else if tag == "form"@ {
                    let inputs = required::<Vec<AdditionalInput>>(fields, "inputs"@);
                    if inputs is Err {
                        Err(inputs->Err_0)
                    } else {
                        Ok(
                            AuthorizationFlowNextActionView::Form {
                                inputs: inputs->Ok_0,
                            },
                        )
                    }
                } else if tag == "wait"@ {
                    Ok(AuthorizationFlowNextActionView::Wait)
                } else {
                    Err(DecodeError::UnknownVariant)
                },
            },
            _ => Err(DecodeError::ExpectedObject),
        }
    }

    fn encode(&self) -> (v: Value) {
        let mut fields = new_object();
        match self {
            AuthorizationFlowNextAction::ProviderSelection { providers } => {
                put(&mut fields, "type", text("provider_selection"));
                put(&mut fields, "providers", providers.encode());
            },
            AuthorizationFlowNextAction::Redirect { uri, metadata } => {
                put(&mut fields, "type", text("redirect"));
                put(&mut fields, "uri", uri.encode());
                put(&mut fields, "metadata", encode_optional::<RedirectActionMetadata>(metadata));
            },
            AuthorizationFlowNextAction::Form { inputs } => {
                put(&mut fields, "type", text("form"));
                put(&mut fields, "inputs", inputs.encode());
            },
            AuthorizationFlowNextAction::Wait => {
                put(&mut fields, "type", text("wait"));
            },
        }
        proof {
            lemma_object_view(fields);
            Self::round_trip(self.deep_view());
        }
        Value::Object(fields)
    }

    fn decode(v: &Value) -> (r: Result<AuthorizationFlowNextAction, DecodeError>) {
        match v {
            Value::Object(fields) => {
                proof {
                    lemma_object_view(*fields);
                }
                let tag = get_required::<String>(fields, "type")?;
                if str_eq(tag.as_str(), "provider_selection") {
                    let providers = get_required::<Vec<Provider>>(fields, "providers")?;
                    Ok(AuthorizationFlowNextAction::ProviderSelection { providers })
                } else if str_eq(tag.as_str(), "redirect") {
                    let uri = get_required::<String>(fields, "uri")?;
                    let metadata = get_optional::<RedirectActionMetadata>(fields, "metadata")?;
                    Ok(AuthorizationFlowNextAction::Redirect { uri, metadata })
                } else if str_eq(tag.as_str(), "form") {
                    let inputs = get_required::<Vec<AdditionalInput>>(fields, "inputs")?;
                    Ok(AuthorizationFlowNextAction::Form { inputs })
                } else if str_eq(tag.as_str(), "wait") {
                    Ok(AuthorizationFlowNextAction::Wait)
                } else {
                    Err(DecodeError::UnknownVariant)
                }
            },
            _ => Err(DecodeError::ExpectedObject),
        }
    }

    proof fn round_trip(m: AuthorizationFlowNextActionView) {
        lemma_names();
        reveal_with_fuel(lookup_from, 4);
        match m {
            AuthorizationFlowNextActionView::ProviderSelection { providers } => {
                Vec::<Provider>::round_trip(providers);
            },
            AuthorizationFlowNextActionView::Redirect { metadata, .. } => {
                lemma_optional_round_trip::<RedirectActionMetadata>(metadata);
            },
            AuthorizationFlowNextActionView::Form { inputs } => {
                Vec::<AdditionalInput>::round_trip(inputs);
            },
            _ => {},
        }
    }
}

/// The actions of an authorization flow: the one to take next.
#[derive(Debug, Clone, PartialEq, Eq)]
pub struct AuthorizationFlowActions {
    pub next: AuthorizationFlowNextAction,
}

/// The mathematical content of a [`AuthorizationFlowActions`].
pub struct AuthorizationFlowActionsView {
    pub next: AuthorizationFlowNextActionView,
}

impl DeepView for AuthorizationFlowActions {
    type V = AuthorizationFlowActionsView;

    open spec fn deep_view(&self) -> AuthorizationFlowActionsView {
        AuthorizationFlowActionsView {
            next: self.next.deep_view(),
        }
    }
}

impl Wire for AuthorizationFlowActions {
    open spec fn valid(m: AuthorizationFlowActionsView) -> bool {
        true
    }

    open spec fn encoded(m: AuthorizationFlowActionsView) -> ValueView {
        ValueView::Object(
            Seq::empty()
                .push(("next"@, AuthorizationFlowNextAction::encoded(m.next))),
        )
    }

    open spec fn decoded(v: ValueView) -> Result<AuthorizationFlowActionsView, DecodeError> {
        match v {
            ValueView::Object(fields) => {
                let next = required::<AuthorizationFlowNextAction>(fields, "next"@);
                if next is Err {
                    Err(next->Err_0)
                } else {
                    Ok(
                        AuthorizationFlowActionsView {
                            next: next->Ok_0,
                        },
                    )
                }
            },
            _ => Err(DecodeError::ExpectedObject),
        }
    }

    fn encode(&self) -> (v: Value) {
        let mut fields = new_object();
        put(&mut fields, "next", self.next.encode());
        proof {
            lemma_object_view(fields);
            Self::round_trip(self.deep_view());
        }
        Value::Object(fields)
    }

    fn decode(v: &Value) -> (r: Result<AuthorizationFlowActions, DecodeError>) {
        match v {
            Value::Object(fields) => {
                proof {
                    lemma_object_view(*fields);
                }
                let next = get_required::<AuthorizationFlowNextAction>(fields, "next")?;
                Ok(AuthorizationFlowActions { next })
            },
            _ => Err(DecodeError::ExpectedObject),
        }
    }

    proof fn round_trip(m: AuthorizationFlowActionsView) {
        lemma_names();
        reveal_with_fuel(lookup_from, 2);
        AuthorizationFlowNextAction::round_trip(m.next);
    }
}

/// Says that the caller can show a provider selection.
#[derive(Debug, Clone, PartialEq, Eq)]
pub struct ProviderSelectionSupported {}

/// The mathematical content of a [`ProviderSelectionSupported`].
pub struct ProviderSelectionSupportedView {}

impl DeepView for ProviderSelectionSupported {
    type V = ProviderSelectionSupportedView;

    open spec fn deep_view(&self) -> ProviderSelectionSupportedView {
        ProviderSelectionSupportedView {}
    }
}

impl Wire for ProviderSelectionSupported {
    open spec fn valid(m: ProviderSelectionSupportedView) -> bool {
        true
    }

    open spec fn encoded(m: ProviderSelectionSupportedView) -> ValueView {
        ValueView::Object(
            Seq::empty(),
        )
    }

    open spec fn decoded(v: ValueView) -> Result<ProviderSelectionSupportedView, DecodeError> {
        match v {
            ValueView::Object(fields) => {
                Ok(ProviderSelectionSupportedView {})
            },
            _ => Err(DecodeError::ExpectedObject),
        }
    }

    fn encode(&self) -> (v: Value) {
        let mut fields = new_object();
        proof {
            lemma_object_view(fields);
            Self::round_trip(self.deep_view());
        }
        Value::Object(fields)
    }

    fn decode(v: &Value) -> (r: Result<ProviderSelectionSupported, DecodeError>) {
        match v {
            Value::Object(fields) => {
                proof {
                    lemma_object_view(*fields);
                }
                Ok(ProviderSelectionSupported {})
            },
            _ => Err(DecodeError::ExpectedObject),
        }
    }

    proof fn round_trip(m: ProviderSelectionSupportedView) {
    }
}

/// Says that the caller can redirect the user, and where the user is to return
/// to.
#[derive(Debug, Clone, PartialEq, Eq)]
pub struct RedirectSupported {
    pub return_uri: String,
    pub direct_return_uri: Option<String>,
}

/// The mathematical content of a [`RedirectSupported`].
pub struct RedirectSupportedView {
    pub return_uri: Seq<char>,
    pub direct_return_uri: Option<Seq<char>>,
}

impl DeepView for RedirectSupported {
    type V = RedirectSupportedView;

    open spec fn deep_view(&self) -> RedirectSupportedView {
        RedirectSupportedView {
            return_uri: self.return_uri.deep_view(),
            direct_return_uri: self.direct_return_uri.deep_view(),
        }
    }
}

impl Wire for RedirectSupported {
    open spec fn valid(m: RedirectSupportedView) -> bool {
        true
    }

    open spec fn encoded(m: RedirectSupportedView) -> ValueView {
        ValueView::Object(
            Seq::empty()
                .push(("return_uri"@, String::encoded(m.return_uri)))
                .push(("direct_return_uri"@, encoded_optional::<String>(m.direct_return_uri))),
        )
    }

    open spec fn decoded(v: ValueView) -> Result<RedirectSupportedView, DecodeError> {
        match v {
            ValueView::Object(fields) => {
                let return_uri = required::<String>(fields, "return_uri"@);
                let direct_return_uri = optional::<String>(fields, "direct_return_uri"@);
                if return_uri is Err {
                    Err(return_uri->Err_0)
                } else if direct_return_uri is Err {
                    Err(direct_return_uri->Err_0)
                } else {
                    Ok(
                        RedirectSupportedView {
                            return_uri: return_uri->Ok_0,
                            direct_return_uri: direct_return_uri->Ok_0,
                        },
                    )
                }
            },
            _ => Err(DecodeError::ExpectedObject),
        }
    }

    fn encode(&self) -> (v: Value) {
        let mut fields = new_object();
        put(&mut fields, "return_uri", self.return_uri.encode());
        put(&mut fields, "direct_return_uri", encode_optional::<String>(&self.direct_return_uri));
        proof {
            lemma_object_view(fields);
            Self::round_trip(self.deep_view());
        }
        Value::Object(fields)
    }

    fn decode(v: &Value) -> (r: Result<RedirectSupported, DecodeError>) {
        match v {
            Value::Object(fields) => {
                proof {
                    lemma_object_view(*fields);
                }
                let return_uri = get_required::<String>(fields, "return_uri")?;
                let direct_return_uri = get_optional::<String>(fields, "direct_return_uri")?;
                Ok(RedirectSupported { return_uri, direct_return_uri })
            },
            _ => Err(DecodeError::ExpectedObject),
        }
    }

    proof fn round_trip(m: RedirectSupportedView) {
        lemma_names();
        reveal_with_fuel(lookup_from, 3);
    }
}

/// Kind of form field.
#[derive(Debug, Clone, Copy, PartialEq, Eq, Hash, Structural)]
pub enum AdditionalInputType {
    Text,
    Select,
    TextWithImage,
}

impl AdditionalInputType {
    /// The name that stands for the variant in a payload.
    pub open spec fn code(self) -> Seq<char> {
        match self {
            AdditionalInputType::Text => "text"@,
            AdditionalInputType::Select => "select"@,
            AdditionalInputType::TextWithImage => "text_with_image"@,
        }
    }

    /// The variant that a name stands for, if it stands for one.
    pub open spec fn named(code: Seq<char>) -> Option<AdditionalInputType> {
        if code == "text"@ {
            Some(AdditionalInputType::Text)
        } else if code == "select"@ {
            Some(AdditionalInputType::Select)
        } else if code == "text_with_image"@ {
            Some(AdditionalInputType::TextWithImage)
        } else {
            None
        }
    }

    /// The name that stands for the variant in a payload.
    pub fn as_str(&self) -> (s: &'static str)
        ensures
            s@ == self.code(),
    {
        match self {
            AdditionalInputType::Text => "text",
            AdditionalInputType::Select => "select",
            AdditionalInputType::TextWithImage => "text_with_image",
        }
    }

    /// The variant that `code` stands for; `None` for any other text.
    pub fn from_code(code: &str) -> (r: Option<AdditionalInputType>)
        ensures
            r == Self::named(code@),
    {
        if str_eq(code, "text") {
            Some(AdditionalInputType::Text)
        } else if str_eq(code, "select") {
            Some(AdditionalInputType::Select)
        } else if str_eq(code, "text_with_image") {
            Some(AdditionalInputType::TextWithImage)
        } else {
            None
        }
    }
}

impl DeepView for AdditionalInputType {
    type V = AdditionalInputType;

    open spec fn deep_view(&self) -> AdditionalInputType {
        *self
    }
}

impl Wire for AdditionalInputType {
    open spec fn valid(m: AdditionalInputType) -> bool {
        true
    }

    open spec fn encoded(m: AdditionalInputType) -> ValueView {
        ValueView::Text(m.code())
    }

    open spec fn decoded(v: ValueView) -> Result<AdditionalInputType, DecodeError> {
        match v {
            ValueView::Text(code) => match Self::named(code) {
                Some(x) => Ok(x),
                None => Err(DecodeError::UnknownVariant),
            },
            _ => Err(DecodeError::ExpectedText),
        }
    }

    fn encode(&self) -> (v: Value) {
        proof {
            Self::round_trip(*self);
        }
        text(self.as_str())
    }

    fn decode(v: &Value) -> (r: Result<AdditionalInputType, DecodeError>) {
        match v {
            Value::Text(code) => match AdditionalInputType::from_code(code.as_str()) {
                Some(x) => Ok(x),
                None => Err(DecodeError::UnknownVariant),
            },
            _ => Err(DecodeError::ExpectedText),
        }
    }

    proof fn round_trip(m: AdditionalInputType) {
        lemma_names();
    }
}

/// Says that the caller can show forms, and of which kinds of field.
#[derive(Debug, Clone, PartialEq, Eq)]
pub struct FormSupported {
    pub input_types: Vec<AdditionalInputType>,
}

/// The mathematical content of a [`FormSupported`].
pub struct FormSupportedView {
    pub input_types: Seq<AdditionalInputType>,
}

impl DeepView for FormSupported {
    type V = FormSupportedView;

    open spec fn deep_view(&self) -> FormSupportedView {
        FormSupportedView {
            input_types: self.input_types.deep_view(),
        }
    }
}

impl Wire for FormSupported {
    open spec fn valid(m: FormSupportedView) -> bool {
        true
    }

    open spec fn encoded(m: FormSupportedView) -> ValueView {
        ValueView::Object(
            Seq::empty()
                .push(("input_types"@, Vec::<AdditionalInputType>::encoded(m.input_types))),
        )
    }

    open spec fn decoded(v: ValueView) -> Result<FormSupportedView, DecodeError> {
        match v {
            ValueView::Object(fields) => {
                let input_types = required::<Vec<AdditionalInputType>>(fields, "input_types"@);
                if input_types is Err {
                    Err(input_types->Err_0)
                } else {
                    Ok(
                        FormSupportedView {
                            input_types: input_types->Ok_0,
                        },
                    )
                }
            },
            _ => Err(DecodeError::ExpectedObject),
        }
    }

    fn encode(&self) -> (v: Value) {
        let mut fields = new_object();
        put(&mut fields, "input_types", self.input_types.encode());
        proof {
            lemma_object_view(fields);
            Self::round_trip(self.deep_view());
        }
        Value::Object(fields)
    }

    fn decode(v: &Value) -> (r: Result<FormSupported, DecodeError>) {
        match v {
            Value::Object(fields) => {
                proof {
                    lemma_object_view(*fields);
                }
                let input_types = get_required::<Vec<AdditionalInputType>>(fields, "input_types")?;
                Ok(FormSupported { input_types })
            },
            _ => Err(DecodeError::ExpectedObject),
        }
    }

    proof fn round_trip(m: FormSupportedView) {
        lemma_names();
        reveal_with_fuel(lookup_from, 2);
        Vec::<AdditionalInputType>::round_trip(m.input_types);
    }
}

/// Which kinds of action an authorization flow supports. It implies no action.
#[derive(Debug, Clone, PartialEq, Eq)]
pub struct AuthorizationFlowConfiguration {
    pub provider_selection: Option<ProviderSelectionSupported>,
    pub redirect: Option<RedirectSupported>,
    pub form: Option<FormSupported>,
}

/// The mathematical content of a [`AuthorizationFlowConfiguration`].
pub struct AuthorizationFlowConfigurationView {
    pub provider_selection: Option<ProviderSelectionSupportedView>,
    pub redirect: Option<RedirectSupportedView>,
    pub form: Option<FormSupportedView>,
}

impl DeepView for AuthorizationFlowConfiguration {
    type V = AuthorizationFlowConfigurationView;

    open spec fn deep_view(&self) -> AuthorizationFlowConfigurationView {
        AuthorizationFlowConfigurationView {
            provider_selection: self.provider_selection.deep_view(),
            redirect: self.redirect.deep_view(),
            form: self.form.deep_view(),
        }
    }
}

impl Wire for AuthorizationFlowConfiguration {
    open spec fn valid(m: AuthorizationFlowConfigurationView) -> bool {
        true
    }

    open spec fn encoded(m: AuthorizationFlowConfigurationView) -> ValueView {
        ValueView::Object(
            Seq::empty()
                .push(("provider_selection"@, encoded_optional::<ProviderSelectionSupported>(m.provider_selection)))
                .push(("redirect"@, encoded_optional::<RedirectSupported>(m.redirect)))
                .push(("form"@, encoded_optional::<FormSupported>(m.form))),
        )
    }

    open spec fn decoded(v: ValueView) -> Result<AuthorizationFlowConfigurationView, DecodeError> {
        match v {
            ValueView::Object(fields) => {
                let provider_selection = optional::<ProviderSelectionSupported>(fields, "provider_selection"@);
                let redirect = optional::<RedirectSupported>(fields, "redirect"@);
                let form = optional::<FormSupported>(fields, "form"@);
                if provider_selection is Err {
                    Err(provider_selection->Err_0)
                } else if redirect is Err {
                    Err(redirect->Err_0)
                } else if form is Err {
                    Err(form->Err_0)
                } else {
                    Ok(
                        AuthorizationFlowConfigurationView {
                            provider_selection: provider_selection->Ok_0,
                            redirect: redirect->Ok_0,
                            form: form->Ok_0,
                        },
                    )
                }
            },
            _ => Err(DecodeError::ExpectedObject),
        }
    }

    fn encode(&self) -> (v: Value) {
        let mut fields = new_object();
        put(&mut fields, "provider_selection", encode_optional::<ProviderSelectionSupported>(&self.provider_selection));
        put(&mut fields, "redirect", encode_optional::<RedirectSupported>(&self.redirect));
        put(&mut fields, "form", encode_optional::<FormSupported>(&self.form));
        proof {
            lemma_object_view(fields);
            Self::round_trip(self.deep_view());
        }
        Value::Object(fields)
    }

    fn decode(v: &Value) -> (r: Result<AuthorizationFlowConfiguration, DecodeError>) {
        match v {
            Value::Object(fields) => {
                proof {
                    lemma_object_view(*fields);
                }
                let provider_selection = get_optional::<ProviderSelectionSupported>(fields, "provider_selection")?;
                let redirect = get_optional::<RedirectSupported>(fields, "redirect")?;
                let form = get_optional::<FormSupported>(fields, "form")?;
                Ok(AuthorizationFlowConfiguration { provider_selection, redirect, form })
            },
            _ => Err(DecodeError::ExpectedObject),
        }
    }

    proof fn round_trip(m: AuthorizationFlowConfigurationView) {
        lemma_names();
        reveal_with_fuel(lookup_from, 4);
        lemma_optional_round_trip::<ProviderSelectionSupported>(m.provider_selection);
        lemma_optional_round_trip::<RedirectSupported>(m.redirect);
        lemma_optional_round_trip::<FormSupported>(m.form);
    }
}

/// An authorization flow: the action to take next, if there is one, and what
/// the flow supports.
#[derive(Debug, Clone, PartialEq, Eq)]
pub struct AuthorizationFlow {
    pub actions: Option<AuthorizationFlowActions>,
    pub configuration: Option<AuthorizationFlowConfiguration>,
}

/// The mathematical content of a [`AuthorizationFlow`].
pub struct AuthorizationFlowView {
    pub actions: Option<AuthorizationFlowActionsView>,
    pub configuration: Option<AuthorizationFlowConfigurationView>,
}

impl DeepView for AuthorizationFlow {
    type V = AuthorizationFlowView;

    open spec fn deep_view(&self) -> AuthorizationFlowView {
        AuthorizationFlowView {
            actions: self.actions.deep_view(),
            configuration: self.configuration.deep_view(),
        }
    }
}

impl Wire for AuthorizationFlow {
    open spec fn valid(m: AuthorizationFlowView) -> bool {
        true
    }

    open spec fn encoded(m: AuthorizationFlowView) -> ValueView {
        ValueView::Object(
            Seq::empty()
                .push(("actions"@, encoded_optional::<AuthorizationFlowActions>(m.actions)))
                .push(("configuration"@, encoded_optional::<AuthorizationFlowConfiguration>(m.configuration))),
        )
    }

    open spec fn decoded(v: ValueView) -> Result<AuthorizationFlowView, DecodeError> {
        match v {
            ValueView::Object(fields) => {
                let actions = optional::<AuthorizationFlowActions>(fields, "actions"@);
                let configuration = optional::<AuthorizationFlowConfiguration>(fields, "configuration"@);
                if actions is Err {
                    Err(actions->Err_0)
                } else if configuration is Err {
                    Err(configuration->Err_0)
                } else {
                    Ok(
                        AuthorizationFlowView {
                            actions: actions->Ok_0,
                            configuration: configuration->Ok_0,
                        },
                    )
                }
            },
            _ => Err(DecodeError::ExpectedObject),
        }
    }

    fn encode(&self) -> (v: Value) {
        let mut fields = new_object();
        put(&mut fields, "actions", encode_optional::<AuthorizationFlowActions>(&self.actions));
        put(&mut fields, "configuration", encode_optional::<AuthorizationFlowConfiguration>(&self.configuration));
        proof {
            lemma_object_view(fields);
            Self::round_trip(self.deep_view());
        }
        Value::Object(fields)
    }

    fn decode(v: &Value) -> (r: Result<AuthorizationFlow, DecodeError>) {
        match v {
            Value::Object(fields) => {
                proof {
                    lemma_object_view(*fields);
                }
                let actions = get_optional::<AuthorizationFlowActions>(fields, "actions")?;
                let configuration = get_optional::<AuthorizationFlowConfiguration>(fields, "configuration")?;
                Ok(AuthorizationFlow { actions, configuration })
            },
            _ => Err(DecodeError::ExpectedObject),
        }
    }

    proof fn round_trip(m: AuthorizationFlowView) {
        lemma_names();
        reveal_with_fuel(lookup_from, 3);
        lemma_optional_round_trip::<AuthorizationFlowActions>(m.actions);
        lemma_optional_round_trip::<AuthorizationFlowConfiguration>(m.configuration);
    }
}

impl AdditionalInputView {
    /// The identifier under which the input is answered.
    pub open spec fn id(self) -> Seq<char> {
        match self {
            AdditionalInputView::Text { id, .. } => id,
            AdditionalInputView::Select { id, .. } => id,
            AdditionalInputView::TextWithImage { id, .. } => id,
        }
    }

    /// Whether the input has to be answered.
    pub open spec fn mandatory(self) -> bool {
        match self {
            AdditionalInputView::Text { mandatory, .. } => mandatory,
            AdditionalInputView::Select { mandatory, .. } => mandatory,
            AdditionalInputView::TextWithImage { mandatory, .. } => mandatory,
        }
    }
}

impl AuthorizationFlowNextAction {
    /// Whether the action asks the caller to submit something. Waiting asks
    /// for nothing but to keep polling.
    pub open spec fn asks_submission(&self) -> bool {
        !(self is Wait)
    }

    /// Whether the action asks the caller to submit something.
    pub fn needs_submission(&self) -> (r: bool)
        ensures
            r == self.asks_submission(),
    {
        match self {
            AuthorizationFlowNextAction::Wait => false,
            _ => true,
        }
    }
}

impl AuthorizationFlow {
    /// The action to take next, if the flow names one. What the flow
    /// supports implies none.
    pub open spec fn next(&self) -> Option<AuthorizationFlowNextAction> {
        match self.actions {
            Some(actions) => Some(actions.next),
            None => None,
        }
    }

    /// The action to take next, if the flow names one.
    pub fn next_action(&self) -> (r: Option<&AuthorizationFlowNextAction>)
        ensures
            r is Some <==> self.next() is Some,
            r matches Some(action) ==> self.next() == Some(*action),
    {
        match &self.actions {
            Some(actions) => Some(&actions.next),
            None => None,
        }
    }
}

impl AdditionalInput {
    /// The identifier under which the input is answered.
    pub fn id(&self) -> (id: &str)
        ensures
            id@ == self.deep_view().id(),
    {
        match self {
            AdditionalInput::Text { id, .. } => id.as_str(),
            AdditionalInput::Select { id, .. } => id.as_str(),
            AdditionalInput::TextWithImage { id, .. } => id.as_str(),
        }
    }

    /// Whether the input has to be answered.
    pub fn is_mandatory(&self) -> (r: bool)
        ensures
            r == self.deep_view().mandatory(),
    {
        match self {
            AdditionalInput::Text { mandatory, .. } => *mandatory,
            AdditionalInput::Select { mandatory, .. } => *mandatory,
            AdditionalInput::TextWithImage { mandatory, .. } => *mandatory,
        }
    }
}

/// The lengths of the names that this module reads and writes, and the
/// characters that tell names of one length apart.
pub proof fn lemma_names()
    ensures
        "key"@.len() == 3,
        "key"@[0] == 'k',
        "default"@.len() == 7,
        "default"@[0] == 'd',
        "account_number"@.len() == 14,
        "account_number"@[8] == 'n',
        "alphabetical"@.len() == 12,
        "alphabetical"@[8] == 'i',
        "alphanumerical"@.len() == 14,
        "alphanumerical"@[8] == 'e',
        "any"@.len() == 3,
        "any"@[0] == 'a',
        "email"@.len() == 5,
        "email"@[0] == 'e',
        "iban"@.len() == 4,
        "iban"@[0] == 'i',
        "iban"@[1] == 'b',
        "numerical"@.len() == 9,
        "numerical"@[0] == 'n',
        "numerical"@[2] == 'm',
        "sort_code"@.len() == 9,
        "sort_code"@[0] == 's',
        "sort_code"@[2] == 'r',
        "regex"@.len() == 5,
        "regex"@[0] == 'r',
        "message"@.len() == 7,
        "message"@[0] == 'm',
        "id"@.len() == 2,
        "id"@[0] == 'i',
        "id"@[1] == 'd',
        "display_text"@.len() == 12,
        "display_text"@[8] == 't',
        "type"@.len() == 4,
        "type"@[0] == 't',
        "type"@[1] == 'y',
        "uri"@.len() == 3,
        "uri"@[0] == 'u',
        "base64"@.len() == 6,
        "base64"@[0] == 'b',
        "base64"@[2] == 's',
        "data"@.len() == 4,
        "data"@[0] == 'd',
        "data"@[1] == 'a',
        "media_type"@.len() == 10,
        "media_type"@[1] == 'e',
        "media_type"@[3] == 'i',
        "text"@.len() == 4,
        "text"@[0] == 't',
        "text"@[1] == 'e',
        "mandatory"@.len() == 9,
        "mandatory"@[0] == 'm',
        "mandatory"@[2] == 'n',
        "description"@.len() == 11,
        "description"@[7] == 't',
        "format"@.len() == 6,
        "format"@[0] == 'f',
        "format"@[2] == 'r',
        "sensitive"@.len() == 9,
        "sensitive"@[0] == 's',
        "sensitive"@[2] == 'n',
        "min_length"@.len() == 10,
        "min_length"@[1] == 'i',
        "min_length"@[3] == '_',
        "max_length"@.len() == 10,
        "max_length"@[1] == 'a',
        "max_length"@[3] == '_',
        "regexes"@.len() == 7,
        "regexes"@[0] == 'r',
        "select"@.len() == 6,
        "select"@[0] == 's',
        "select"@[2] == 'l',
        "options"@.len() == 7,
        "options"@[0] == 'o',
        "text_with_image"@.len() == 15,
        "text_with_image"@[0] == 't',
        "image"@.len() == 5,
        "image"@[0] == 'i',
        "provider"@.len() == 8,
        "provider"@[0] == 'p',
        "provider"@[2] == 'o',
        "provider_selection"@.len() == 18,
        "provider_selection"@[1] == 'r',
        "providers"@.len() == 9,
        "providers"@[0] == 'p',
        "providers"@[2] == 'o',
        "redirect"@.len() == 8,
        "redirect"@[0] == 'r',
        "redirect"@[2] == 'd',
        "metadata"@.len() == 8,
        "metadata"@[0] == 'm',
        "metadata"@[2] == 't',
        "form"@.len() == 4,
        "form"@[0] == 'f',
        "form"@[1] == 'o',
        "inputs"@.len() == 6,
        "inputs"@[0] == 'i',
        "inputs"@[2] == 'p',
        "wait"@.len() == 4,
        "wait"@[0] == 'w',
        "wait"@[1] == 'a',
        "next"@.len() == 4,
        "next"@[0] == 'n',
        "next"@[1] == 'e',
        "return_uri"@.len() == 10,
        "return_uri"@[1] == 'e',
        "return_uri"@[3] == 'u',
        "direct_return_uri"@.len() == 17,
        "direct_return_uri"@[0] == 'd',
        "input_types"@.len() == 11,
        "input_types"@[7] == 'y',
        "actions"@.len() == 7,
        "actions"@[0] == 'a',
        "configuration"@.len() == 13,
        "configuration"@[0] == 'c',
{
    reveal_strlit("key");
    reveal_strlit("default");
    reveal_strlit("account_number");
    reveal_strlit("alphabetical");
    reveal_strlit("alphanumerical");
    reveal_strlit("any");
    reveal_strlit("email");
    reveal_strlit("iban");
    reveal_strlit("numerical");
    reveal_strlit("sort_code");
    reveal_strlit("regex");
    reveal_strlit("message");
    reveal_strlit("id");
    reveal_strlit("display_text");
    reveal_strlit("type");
    reveal_strlit("uri");
    reveal_strlit("base64");
    reveal_strlit("data");
    reveal_strlit("media_type");
    reveal_strlit("text");
    reveal_strlit("mandatory");
    reveal_strlit("description");
    reveal_strlit("format");
    reveal_strlit("sensitive");
    reveal_strlit("min_length");
    reveal_strlit("max_length");
    reveal_strlit("regexes");
    reveal_strlit("select");
    reveal_strlit("options");
    reveal_strlit("text_with_image");
    reveal_strlit("image");
    reveal_strlit("provider");
    reveal_strlit("provider_selection");
    reveal_strlit("providers");
    reveal_strlit("redirect");
    reveal_strlit("metadata");
    reveal_strlit("form");
    reveal_strlit("inputs");
    reveal_strlit("wait");
    reveal_strlit("next");
    reveal_strlit("return_uri");
    reveal_strlit("direct_return_uri");
    reveal_strlit("input_types");
    reveal_strlit("actions");
    reveal_strlit("configuration");
}

} // verus!
