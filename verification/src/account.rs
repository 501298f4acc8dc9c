//! Bank accounts: how one is addressed, who is paid, and where settled funds came from.

use crate::wire::{
    defaulted, encode_optional, encoded_optional, get_defaulted, get_optional, get_required,
    lemma_object_view, lemma_optional_round_trip, lookup_from, new_object, optional, put,
    required, str_eq, text, DecodeError, Value, ValueView, Wire,
};
use vstd::prelude::*;

verus! {

/// How a bank account is addressed.
#[derive(Debug, Clone, PartialEq, Eq)]
pub enum AccountIdentifier {
    SortCodeAccountNumber {
        sort_code: String,
        account_number: String,
    },
    Iban {
        iban: String,
    },
    Bban {
        bban: String,
    },
    Nrb {
        nrb: String,
    },
}

/// The mathematical content of a [`AccountIdentifier`].
pub enum AccountIdentifierView {
    SortCodeAccountNumber {
        sort_code: Seq<char>,
        account_number: Seq<char>,
    },
    Iban {
        iban: Seq<char>,
    },
    Bban {
        bban: Seq<char>,
    },
    Nrb {
        nrb: Seq<char>,
    },
}

impl DeepView for AccountIdentifier {
    type V = AccountIdentifierView;

    open spec fn deep_view(&self) -> AccountIdentifierView {
        match self {
            AccountIdentifier::SortCodeAccountNumber { sort_code, account_number } => AccountIdentifierView::SortCodeAccountNumber {
                sort_code: sort_code.deep_view(),
                account_number: account_number.deep_view(),
            },
            AccountIdentifier::Iban { iban } => AccountIdentifierView::Iban {
                iban: iban.deep_view(),
            },
            AccountIdentifier::Bban { bban } => AccountIdentifierView::Bban {
                bban: bban.deep_view(),
            },
            AccountIdentifier::Nrb { nrb } => AccountIdentifierView::Nrb {
                nrb: nrb.deep_view(),
            },
        }
    }
}

impl Wire for AccountIdentifier {
    open spec fn valid(m: AccountIdentifierView) -> bool {
        true
    }

    open spec fn encoded(m: AccountIdentifierView) -> ValueView {
        match m {
            AccountIdentifierView::SortCodeAccountNumber { sort_code, account_number } => ValueView::Object(
                Seq::empty()
                    .push(("type"@, ValueView::Text("sort_code_account_number"@)))
                    .push(("sort_code"@, String::encoded(sort_code)))
                    .push(("account_number"@, String::encoded(account_number))),
            ),
            AccountIdentifierView::Iban { iban } => ValueView::Object(
                Seq::empty()
                    .push(("type"@, ValueView::Text("iban"@)))
                    .push(("iban"@, String::encoded(iban))),
            ),
            AccountIdentifierView::Bban { bban } => ValueView::Object(
                Seq::empty()
                    .push(("type"@, ValueView::Text("bban"@)))
                    .push(("bban"@, String::encoded(bban))),
            ),
            AccountIdentifierView::Nrb { nrb } => ValueView::Object(
                Seq::empty()
                    .push(("type"@, ValueView::Text("nrb"@)))
                    .push(("nrb"@, String::encoded(nrb))),
            ),
        }
    }

    open spec fn decoded(v: ValueView) -> Result<AccountIdentifierView, DecodeError> {
        match v {
            ValueView::Object(fields) => match required::<String>(fields, "type"@) {
                Err(e) => Err(e),
                Ok(tag) => if tag == "sort_code_account_number"@ {
                    let sort_code = required::<String>(fields, "sort_code"@);
                    let account_number = required::<String>(fields, "account_number"@);
                    if sort_code is Err {
                        Err(sort_code->Err_0)
                    } else if account_number is Err {
                        Err(account_number->Err_0)
                    } else {
                        Ok(
                            AccountIdentifierView::SortCodeAccountNumber {
                                sort_code: sort_code->Ok_0,
                                account_number: account_number->Ok_0,
                            },
                        )
                    }
                } else if tag == "iban"@ {
                    let iban = required::<String>(fields, "iban"@);
                    if iban is Err {
                        Err(iban->Err_0)
                    } else {
                        Ok(
                            AccountIdentifierView::Iban {
                                iban: iban->Ok_0,
                            },
                        )
                    }
                } else if tag == "bban"@ {
                    let bban = required::<String>(fields, "bban"@);
                    if bban is Err {
                        Err(bban->Err_0)
                    } else {
                        Ok(
                            AccountIdentifierView::Bban {
                                bban: bban->Ok_0,
                            },
                        )
                    }
                } else if tag == "nrb"@ {
                    let nrb = required::<String>(fields, "nrb"@);
                    if nrb is Err {
                        Err(nrb->Err_0)
                    } else {
                        Ok(
                            AccountIdentifierView::Nrb {
                                nrb: nrb->Ok_0,
                            },
                        )
                    }
                } else {
                    Err(DecodeError::UnknownVariant)
                },
            },
            _ => Err(DecodeError::ExpectedObject),
        }
    }

    fn encode(&self) -> (v: Value) {
        let mut fields = new_object();
        match self {
            AccountIdentifier::SortCodeAccountNumber { sort_code, account_number } => {
                put(&mut fields, "type", text("sort_code_account_number"));
                put(&mut fields, "sort_code", sort_code.encode());
                put(&mut fields, "account_number", account_number.encode());
            },
            AccountIdentifier::Iban { iban } => {
                put(&mut fields, "type", text("iban"));
                put(&mut fields, "iban", iban.encode());
            },
            AccountIdentifier::Bban { bban } => {
                put(&mut fields, "type", text("bban"));
                put(&mut fields, "bban", bban.encode());
            },
            AccountIdentifier::Nrb { nrb } => {
                put(&mut fields, "type", text("nrb"));
                put(&mut fields, "nrb", nrb.encode());
            },
        }
        proof {
            lemma_object_view(fields);
            Self::round_trip(self.deep_view());
        }
        Value::Object(fields)
    }

    fn decode(v: &Value) -> (r: Result<AccountIdentifier, DecodeError>) {
        match v {
            Value::Object(fields) => {
                proof {
                    lemma_object_view(*fields);
                }
                let tag = get_required::<String>(fields, "type")?;
                if str_eq(tag.as_str(), "sort_code_account_number") {
                    let sort_code = get_required::<String>(fields, "sort_code")?;
                    let account_number = get_required::<String>(fields, "account_number")?;
                    Ok(AccountIdentifier::SortCodeAccountNumber { sort_code, account_number })
                } else if str_eq(tag.as_str(), "iban") {
                    let iban = get_required::<String>(fields, "iban")?;
                    Ok(AccountIdentifier::Iban { iban })
                } else if str_eq(tag.as_str(), "bban") {
                    let bban = get_required::<String>(fields, "bban")?;
                    Ok(AccountIdentifier::Bban { bban })
                } else if str_eq(tag.as_str(), "nrb") {
                    let nrb = get_required::<String>(fields, "nrb")?;
                    Ok(AccountIdentifier::Nrb { nrb })
                } else {
                    Err(DecodeError::UnknownVariant)
                }
            },
            _ => Err(DecodeError::ExpectedObject),
        }
    }

    proof fn round_trip(m: AccountIdentifierView) {
        lemma_names();
        reveal_with_fuel(lookup_from, 4);
    }
}

/// Who receives the funds of a payment.
#[derive(Debug, Clone, PartialEq, Eq)]
pub enum Beneficiary {
    /// One of the merchant's own accounts.
    MerchantAccount {
        merchant_account_id: String,
        account_holder_name: Option<String>,
    },
    /// An account elsewhere, with the reference to pay under.
    ExternalAccount {
        account_holder_name: String,
        account_identifier: AccountIdentifier,
        reference: String,
    },
}

/// The mathematical content of a [`Beneficiary`].
pub enum BeneficiaryView {
    MerchantAccount {
        merchant_account_id: Seq<char>,
        account_holder_name: Option<Seq<char>>,
    },
    ExternalAccount {
        account_holder_name: Seq<char>,
        account_identifier: AccountIdentifierView,
        reference: Seq<char>,
    },
}

impl DeepView for Beneficiary {
    type V = BeneficiaryView;

    open spec fn deep_view(&self) -> BeneficiaryView {
        match self {
            Beneficiary::MerchantAccount { merchant_account_id, account_holder_name } => BeneficiaryView::MerchantAccount {
                merchant_account_id: merchant_account_id.deep_view(),
                account_holder_name: account_holder_name.deep_view(),
            },
            Beneficiary::ExternalAccount { account_holder_name, account_identifier, reference } => BeneficiaryView::ExternalAccount {
                account_holder_name: account_holder_name.deep_view(),
                account_identifier: account_identifier.deep_view(),
                reference: reference.deep_view(),
            },
        }
    }
}

impl Wire for Beneficiary {
    open spec fn valid(m: BeneficiaryView) -> bool {
        true
    }

    open spec fn encoded(m: BeneficiaryView) -> ValueView {
        match m {
            BeneficiaryView::MerchantAccount { merchant_account_id, account_holder_name } => ValueView::Object(
                Seq::empty()
                    .push(("type"@, ValueView::Text("merchant_account"@)))
                    .push(("merchant_account_id"@, String::encoded(merchant_account_id)))
                    .push(("account_holder_name"@, encoded_optional::<String>(account_holder_name))),
            ),
            BeneficiaryView::ExternalAccount { account_holder_name, account_identifier, reference } => ValueView::Object(
                Seq::empty()
                    .push(("type"@, ValueView::Text("external_account"@)))
                    .push(("account_holder_name"@, String::encoded(account_holder_name)))
                    .push(("account_identifier"@, AccountIdentifier::encoded(account_identifier)))
                    .push(("reference"@, String::encoded(reference))),
            ),
        }
    }

    open spec fn decoded(v: ValueView) -> Result<BeneficiaryView, DecodeError> {
        match v {
            ValueView::Object(fields) => match required::<String>(fields, "type"@) {
                Err(e) => Err(e),
                Ok(tag) => if tag == "merchant_account"@ {
                    let merchant_account_id = required::<String>(fields, "merchant_account_id"@);
                    let account_holder_name = optional::<String>(fields, "account_holder_name"@);
                    if merchant_account_id is Err {
                        Err(merchant_account_id->Err_0)
                    } else if account_holder_name is Err {
                        Err(account_holder_name->Err_0)
                    } else {
                        Ok(
                            BeneficiaryView::MerchantAccount {
                                merchant_account_id: merchant_account_id->Ok_0,
                                account_holder_name: account_holder_name->Ok_0,
                            },
                        )
                    }
                } else if tag == "external_account"@ {
                    let account_holder_name = required::<String>(fields, "account_holder_name"@);
                    let account_identifier = required::<AccountIdentifier>(fields, "account_identifier"@);
                    let reference = required::<String>(fields, "reference"@);
                    if account_holder_name is Err {
                        Err(account_holder_name->Err_0)
                    } else if account_identifier is Err {
                        Err(account_identifier->Err_0)
                    } else if reference is Err {
                        Err(reference->Err_0)
                    } else {
                        Ok(
                            BeneficiaryView::ExternalAccount {
                                account_holder_name: account_holder_name->Ok_0,
                                account_identifier: account_identifier->Ok_0,
                                reference: reference->Ok_0,
                            },
                        )
                    }
                } else {
                    Err(DecodeError::UnknownVariant)
                },
            },
            _ => Err(DecodeError::ExpectedObject),
        }
    }

    fn encode(&self) -> (v: Value) {
        let mut fields = new_object();
        match self {
            Beneficiary::MerchantAccount { merchant_account_id, account_holder_name } => {
                put(&mut fields, "type", text("merchant_account"));
                put(&mut fields, "merchant_account_id", merchant_account_id.encode());
                put(&mut fields, "account_holder_name", encode_optional::<String>(account_holder_name));
            },
            Beneficiary::ExternalAccount { account_holder_name, account_identifier, reference } => {
                put(&mut fields, "type", text("external_account"));
                put(&mut fields, "account_holder_name", account_holder_name.encode());
                put(&mut fields, "account_identifier", account_identifier.encode());
                put(&mut fields, "reference", reference.encode());
            },
        }
        proof {
            lemma_object_view(fields);
            Self::round_trip(self.deep_view());
        }
        Value::Object(fields)
    }

    fn decode(v: &Value) -> (r: Result<Beneficiary, DecodeError>) {
        match v {
            Value::Object(fields) => {
                proof {
                    lemma_object_view(*fields);
                }
                let tag = get_required::<String>(fields, "type")?;
                if str_eq(tag.as_str(), "merchant_account") {
                    let merchant_account_id = get_required::<String>(fields, "merchant_account_id")?;
                    let account_holder_name = get_optional::<String>(fields, "account_holder_name")?;
                    Ok(Beneficiary::MerchantAccount { merchant_account_id, account_holder_name })
                } else if str_eq(tag.as_str(), "external_account") {
                    let account_holder_name = get_required::<String>(fields, "account_holder_name")?;
                    let account_identifier = get_required::<AccountIdentifier>(fields, "account_identifier")?;
                    let reference = get_required::<String>(fields, "reference")?;
                    Ok(Beneficiary::ExternalAccount { account_holder_name, account_identifier, reference })
                } else {
                    Err(DecodeError::UnknownVariant)
                }
            },
            _ => Err(DecodeError::ExpectedObject),
        }
    }

    proof fn round_trip(m: BeneficiaryView) {
        lemma_names();
        reveal_with_fuel(lookup_from, 5);
        match m {
            BeneficiaryView::ExternalAccount { account_identifier, .. } => {
                AccountIdentifier::round_trip(account_identifier);
            },
            _ => {},
        }
    }
}

/// The account that a payment is to be made from.
#[derive(Debug, Clone, PartialEq, Eq)]
pub struct Remitter {
    pub account_holder_name: Option<String>,
    pub account_identifier: Option<AccountIdentifier>,
}

/// The mathematical content of a [`Remitter`].
pub struct RemitterView {
    pub account_holder_name: Option<Seq<char>>,
    pub account_identifier: Option<AccountIdentifierView>,
}

impl DeepView for Remitter {
    type V = RemitterView;

    open spec fn deep_view(&self) -> RemitterView {
        RemitterView {
            account_holder_name: self.account_holder_name.deep_view(),
            account_identifier: self.account_identifier.deep_view(),
        }
    }
}

impl Wire for Remitter {
    open spec fn valid(m: RemitterView) -> bool {
        true
    }

    open spec fn encoded(m: RemitterView) -> ValueView {
        ValueView::Object(
            Seq::empty()
                .push(("account_holder_name"@, encoded_optional::<String>(m.account_holder_name)))
                .push(("account_identifier"@, encoded_optional::<AccountIdentifier>(m.account_identifier))),
        )
    }

    open spec fn decoded(v: ValueView) -> Result<RemitterView, DecodeError> {
        match v {
            ValueView::Object(fields) => {
                let account_holder_name = optional::<String>(fields, "account_holder_name"@);
                let account_identifier = optional::<AccountIdentifier>(fields, "account_identifier"@);
                if account_holder_name is Err {
                    Err(account_holder_name->Err_0)
                } else if account_identifier is Err {
                    Err(account_identifier->Err_0)
                } else {
                    Ok(
                        RemitterView {
                            account_holder_name: account_holder_name->Ok_0,
                            account_identifier: account_identifier->Ok_0,
                        },
                    )
                }
            },
            _ => Err(DecodeError::ExpectedObject),
        }
    }

    fn encode(&self) -> (v: Value) {
        let mut fields = new_object();
        put(&mut fields, "account_holder_name", encode_optional::<String>(&self.account_holder_name));
        put(&mut fields, "account_identifier", encode_optional::<AccountIdentifier>(&self.account_identifier));
        proof {
            lemma_object_view(fields);
            Self::round_trip(self.deep_view());
        }
        Value::Object(fields)
    }

    fn decode(v: &Value) -> (r: Result<Remitter, DecodeError>) {
        match v {
            Value::Object(fields) => {
                proof {
                    lemma_object_view(*fields);
                }
                let account_holder_name = get_optional::<String>(fields, "account_holder_name")?;
                let account_identifier = get_optional::<AccountIdentifier>(fields, "account_identifier")?;
                Ok(Remitter { account_holder_name, account_identifier })
            },
            _ => Err(DecodeError::ExpectedObject),
        }
    }

    proof fn round_trip(m: RemitterView) {
        lemma_names();
        reveal_with_fuel(lookup_from, 3);
        lemma_optional_round_trip::<AccountIdentifier>(m.account_identifier);
    }
}

/// The account that settled funds came from.
#[derive(Debug, Clone, PartialEq, Eq)]
pub struct PaymentSource {
    pub id: String,
    pub user_id: Option<String>,
    /// Empty when the payload has no such member.
    pub account_identifiers: Vec<AccountIdentifier>,
    pub account_holder_name: Option<String>,
}

/// The mathematical content of a [`PaymentSource`].
pub struct PaymentSourceView {
    pub id: Seq<char>,
    pub user_id: Option<Seq<char>>,
    pub account_identifiers: Seq<AccountIdentifierView>,
    pub account_holder_name: Option<Seq<char>>,
}

impl DeepView for PaymentSource {
    type V = PaymentSourceView;

    open spec fn deep_view(&self) -> PaymentSourceView {
        PaymentSourceView {
            id: self.id.deep_view(),
            user_id: self.user_id.deep_view(),
            account_identifiers: self.account_identifiers.deep_view(),
            account_holder_name: self.account_holder_name.deep_view(),
        }
    }
}

impl Wire for PaymentSource {
    open spec fn valid(m: PaymentSourceView) -> bool {
        true
    }

    open spec fn encoded(m: PaymentSourceView) -> ValueView {
        ValueView::Object(
            Seq::empty()
                .push(("id"@, String::encoded(m.id)))
                .push(("user_id"@, encoded_optional::<String>(m.user_id)))
                .push(("account_identifiers"@, Vec::<AccountIdentifier>::encoded(m.account_identifiers)))
                .push(("account_holder_name"@, encoded_optional::<String>(m.account_holder_name))),
        )
    }

    open spec fn decoded(v: ValueView) -> Result<PaymentSourceView, DecodeError> {
        match v {
            ValueView::Object(fields) => {
                let id = required::<String>(fields, "id"@);
                let user_id = optional::<String>(fields, "user_id"@);
                let account_identifiers = defaulted::<AccountIdentifier>(fields, "account_identifiers"@);
                let account_holder_name = optional::<String>(fields, "account_holder_name"@);
                if id is Err {
                    Err(id->Err_0)
                } else if user_id is Err {
                    Err(user_id->Err_0)
                } else if account_identifiers is Err {
                    Err(account_identifiers->Err_0)
                } else if account_holder_name is Err {
                    Err(account_holder_name->Err_0)
                } else {
                    Ok(
                        PaymentSourceView {
                            id: id->Ok_0,
                            user_id: user_id->Ok_0,
                            account_identifiers: account_identifiers->Ok_0,
                            account_holder_name: account_holder_name->Ok_0,
                        },
                    )
                }
            },
            _ => Err(DecodeError::ExpectedObject),
        }
    }

    fn encode(&self) -> (v: Value) {
        let mut fields = new_object();
        put(&mut fields, "id", self.id.encode());
        put(&mut fields, "user_id", encode_optional::<String>(&self.user_id));
        put(&mut fields, "account_identifiers", self.account_identifiers.encode());
        put(&mut fields, "account_holder_name", encode_optional::<String>(&self.account_holder_name));
        proof {
            lemma_object_view(fields);
            Self::round_trip(self.deep_view());
        }
        Value::Object(fields)
    }

    fn decode(v: &Value) -> (r: Result<PaymentSource, DecodeError>) {
        match v {
            Value::Object(fields) => {
                proof {
                    lemma_object_view(*fields);
                }
                let id = get_required::<String>(fields, "id")?;
                let user_id = get_optional::<String>(fields, "user_id")?;
                let account_identifiers = get_defaulted::<AccountIdentifier>(fields, "account_identifiers")?;
                let account_holder_name = get_optional::<String>(fields, "account_holder_name")?;
                Ok(PaymentSource { id, user_id, account_identifiers, account_holder_name })
            },
            _ => Err(DecodeError::ExpectedObject),
        }
    }

    proof fn round_trip(m: PaymentSourceView) {
        lemma_names();
        reveal_with_fuel(lookup_from, 5);
        Vec::<AccountIdentifier>::round_trip(m.account_identifiers);
    }
}

/// The lengths of the names that this module reads and writes, and the
/// characters that tell names of one length apart.
pub proof fn lemma_names()
    ensures
        "type"@.len() == 4,
        "type"@[0] == 't',
        "type"@[1] == 'y',
        "sort_code_account_number"@.len() == 24,
        "sort_code"@.len() == 9,
        "sort_code"@[0] == 's',
        "sort_code"@[2] == 'r',
        "account_number"@.len() == 14,
        "account_number"@[8] == 'n',
        "iban"@.len() == 4,
        "iban"@[0] == 'i',
        "iban"@[1] == 'b',
        "bban"@.len() == 4,
        "bban"@[0] == 'b',
        "bban"@[1] == 'b',
        "nrb"@.len() == 3,
        "nrb"@[0] == 'n',
        "merchant_account"@.len() == 16,
        "merchant_account"@[0] == 'm',
        "merchant_account_id"@.len() == 19,
        "merchant_account_id"@[8] == '_',
        "account_holder_name"@.len() == 19,
        "account_holder_name"@[8] == 'h',
        "external_account"@.len() == 16,
        "external_account"@[0] == 'e',
        "account_identifier"@.len() == 18,
        "account_identifier"@[1] == 'c',
        "reference"@.len() == 9,
        "reference"@[0] == 'r',
        "reference"@[2] == 'f',
        "id"@.len() == 2,
        "id"@[0] == 'i',
        "id"@[1] == 'd',
        "user_id"@.len() == 7,
        "user_id"@[0] == 'u',
        "account_identifiers"@.len() == 19,
        "account_identifiers"@[8] == 'i',
{
    reveal_strlit("type");
    reveal_strlit("sort_code_account_number");
    reveal_strlit("sort_code");
    reveal_strlit("account_number");
    reveal_strlit("iban");
    reveal_strlit("bban");
    reveal_strlit("nrb");
    reveal_strlit("merchant_account");
    reveal_strlit("merchant_account_id");
    reveal_strlit("account_holder_name");
    reveal_strlit("external_account");
    reveal_strlit("account_identifier");
    reveal_strlit("reference");
    reveal_strlit("id");
    reveal_strlit("user_id");
    reveal_strlit("account_identifiers");
}

} // verus!
