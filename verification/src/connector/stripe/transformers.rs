//! The shapes in which Stripe takes requests and gives responses, and how
//! they map onto the neutral types.

use crate::errors::ConnectorError;
use crate::types::api::PaymentMethod;
use crate::types::storage::enums::{AttemptStatus, CaptureMethod, Currency, RefundStatus};
use crate::types::{
    ConnectorAuthType, PaymentsAuthorizeData, PaymentsCancelData, PaymentsCaptureData,
    RefundsData, VerifyRequestData,
};
use crate::utils::decimal::{
    decimal_text, decimal_text_reads_back, parse_decimal, parsed_decimal, to_decimal,
};
use crate::utils::text::{copy_text, pairs_view, text_is, text_of};
use vstd::prelude::*;

verus! {

/// The fields of a form: names and values as texts.
pub type Form = Seq<(Seq<char>, Seq<char>)>;

/// The value of the first field called `name`.
pub open spec fn field(form: Form, name: Seq<char>) -> Option<Seq<char>>
    decreases form.len(),
{
    if form.len() == 0 {
        None
    } else if form[0].0 == name {
        Some(form[0].1)
    } else {
        field(form.drop_first(), name)
    }
}

/// The field called `name` with the given value, where there is a value.
pub open spec fn optional_field(name: Seq<char>, value: Option<Seq<char>>) -> Form {
    match value {
        Some(value) => seq![(name, value)],
        None => Seq::empty(),
    }
}

/// A field of a form made of two parts is looked up in the first part, then
/// in the second.
pub proof fn field_of_joined_forms(first: Form, second: Form, name: Seq<char>)
    ensures
        field(first + second, name) == if field(first, name) is Some {
            field(first, name)
        } else {
            field(second, name)
        },
    decreases first.len(),
{
    if first.len() == 0 {
        assert(first + second == second);
    } else {
        assert((first + second).drop_first() == first.drop_first() + second);
        field_of_joined_forms(first.drop_first(), second, name);
    }
}

/// Looks the first field called `name` up.
pub fn get_field<'a>(form: &'a Vec<(String, String)>, name: &str) -> (r: Option<&'a String>)
    ensures
        match r {
            Some(value) => field(pairs_view(form@), name@) == Some(value@),
            None => field(pairs_view(form@), name@) is None,
        },
{
    let ghost all = pairs_view(form@);
    let wanted = String::from_str(name);
    let mut index: usize = 0;
    assert(all.skip(0) == all);
    while index < form.len()
        invariant
            index <= form.len(),
            wanted@ == name@,
            all == pairs_view(form@),
            field(all, name@) == field(all.skip(index as int), name@),
        decreases form.len() - index,
    {
        let ghost rest = all.skip(index as int);
        assert(rest[0] == (form@[index as int].0@, form@[index as int].1@));
        assert(rest.drop_first() == all.skip(index as int + 1));
        if form[index].0 == wanted {
            return Some(&form[index].1);
        }
        index = index + 1;
    }
    None
}

/// Adds the field called `name` to the form.
pub fn push_field(form: &mut Vec<(String, String)>, name: &str, value: String)
    ensures
        pairs_view(final(form)@) == pairs_view(old(form)@) + seq![(name@, value@)],
{
    let ghost before = form@;
    let pair = (String::from_str(name), value);
    form.push(pair);
    assert(pairs_view(before.push(pair)) == pairs_view(before) + seq![(name@, value@)]);
}

/// Adds the field called `name` to the form, where there is a value for it.
pub fn push_optional_field(form: &mut Vec<(String, String)>, name: &str, value: &Option<String>)
    ensures
        pairs_view(final(form)@) == pairs_view(old(form)@) + optional_field(name@, text_of(*value)),
{
    match value {
        Some(value) => push_field(form, name, value.clone()),
        None => {
            assert(pairs_view(form@) + Seq::<(Seq<char>, Seq<char>)>::empty() == pairs_view(
                form@,
            ));
        },
    }
}

/// The key that a merchant holds with Stripe.
#[derive(Clone, Debug, PartialEq, Eq)]
pub struct StripeAuthType {
    pub api_key: String,
}

impl StripeAuthType {
    /// Stripe takes a key in a header and nothing else.
    pub fn try_from(auth_type: &ConnectorAuthType) -> (r: Result<StripeAuthType, ConnectorError>)
        ensures
            match *auth_type {
                ConnectorAuthType::HeaderKey { api_key } => r == Ok::<
                    StripeAuthType,
                    ConnectorError,
                >(StripeAuthType { api_key }),
                _ => r == Err::<StripeAuthType, ConnectorError>(
                    ConnectorError::FailedToObtainAuthType,
                ),
            },
    {
        match auth_type {
            ConnectorAuthType::HeaderKey { api_key } => Ok(
                StripeAuthType { api_key: api_key.clone() },
            ),
            _ => Err(ConnectorError::FailedToObtainAuthType),
        }
    }
}

/// The name by which Stripe knows a currency.
pub open spec fn currency_text(currency: Currency) -> Seq<char> {
    match currency {
        Currency::AUD => "AUD"@,
        Currency::CAD => "CAD"@,
        Currency::CHF => "CHF"@,
        Currency::EUR => "EUR"@,
        Currency::GBP => "GBP"@,
        Currency::INR => "INR"@,
        Currency::JPY => "JPY"@,
        Currency::SGD => "SGD"@,
        Currency::USD => "USD"@,
    }
}

/// The currency that a name stands for.
pub open spec fn currency_of(text: Seq<char>) -> Option<Currency> {
    if text == "AUD"@ {
        Some(Currency::AUD)
    } else if text == "CAD"@ {
        Some(Currency::CAD)
    } else if text == "CHF"@ {
        Some(Currency::CHF)
    } else if text == "EUR"@ {
        Some(Currency::EUR)
    } else if text == "GBP"@ {
        Some(Currency::GBP)
    } else if text == "INR"@ {
        Some(Currency::INR)
    } else if text == "JPY"@ {
        Some(Currency::JPY)
    } else if text == "SGD"@ {
        Some(Currency::SGD)
    } else if text == "USD"@ {
        Some(Currency::USD)
    } else {
        None
    }
}

/// Writes a currency by its name.
pub fn currency_name(currency: Currency) -> (r: &'static str)
    ensures
        r@ == currency_text(currency),
{
    match currency {
        Currency::AUD => "AUD",
        Currency::CAD => "CAD",
        Currency::CHF => "CHF",
        Currency::EUR => "EUR",
        Currency::GBP => "GBP",
        Currency::INR => "INR",
        Currency::JPY => "JPY",
        Currency::SGD => "SGD",
        Currency::USD => "USD",
    }
}

/// Reads a currency from its name.
pub fn parse_currency(text: &String) -> (r: Option<Currency>)
    ensures
        r == currency_of(text@),
{
    if text_is(text, "AUD") {
        Some(Currency::AUD)
    } else if text_is(text, "CAD") {
        Some(Currency::CAD)
    } else if text_is(text, "CHF") {
        Some(Currency::CHF)
    } else if text_is(text, "EUR") {
        Some(Currency::EUR)
    } else if text_is(text, "GBP") {
        Some(Currency::GBP)
    } else if text_is(text, "INR") {
        Some(Currency::INR)
    } else if text_is(text, "JPY") {
        Some(Currency::JPY)
    } else if text_is(text, "SGD") {
        Some(Currency::SGD)
    } else if text_is(text, "USD") {
        Some(Currency::USD)
    } else {
        None
    }
}

/// A currency name read back gives the currency again.
pub proof fn currency_text_reads_back(currency: Currency)
    ensures
        currency_of(currency_text(currency)) == Some(currency),
{
    reveal_strlit("AUD");
    reveal_strlit("CAD");
    reveal_strlit("CHF");
    reveal_strlit("EUR");
    reveal_strlit("GBP");
    reveal_strlit("INR");
    reveal_strlit("JPY");
    reveal_strlit("SGD");
    reveal_strlit("USD");
    assert("AUD"@[0] == 'A' && "CAD"@[0] == 'C' && "CHF"@[1] == 'H' && "CAD"@[1] == 'A');
    assert("EUR"@[0] == 'E' && "GBP"@[0] == 'G' && "INR"@[0] == 'I' && "JPY"@[0] == 'J');
    assert("SGD"@[0] == 'S' && "USD"@[0] == 'U');
}

/// The text of a truth value.
pub open spec fn bool_text(flag: bool) -> Seq<char> {
    if flag {
        "true"@
    } else {
        "false"@
    }
}

/// The truth value that a text stands for.
pub open spec fn bool_of(text: Seq<char>) -> Option<bool> {
    if text == "true"@ {
        Some(true)
    } else if text == "false"@ {
        Some(false)
    } else {
        None
    }
}

/// Stripe's own capture methods.
#[derive(Clone, Copy, Debug, PartialEq, Eq, Structural)]
pub enum StripeCaptureMethod {
    Automatic,
    Manual,
}

impl StripeCaptureMethod {
    /// Stripe captures on request for the two manual methods, and by itself
    /// for every other and where none is named.
    pub open spec fn of(capture_method: Option<CaptureMethod>) -> StripeCaptureMethod {
        match capture_method {
            Some(CaptureMethod::Manual) => StripeCaptureMethod::Manual,
            Some(CaptureMethod::ManualMultiple) => StripeCaptureMethod::Manual,
            _ => StripeCaptureMethod::Automatic,
        }
    }

    /// The name of the capture method.
    pub open spec fn text(self) -> Seq<char> {
        match self {
            StripeCaptureMethod::Automatic => "automatic"@,
            StripeCaptureMethod::Manual => "manual"@,
        }
    }

    /// The capture method that a name stands for.
    pub open spec fn of_text(text: Seq<char>) -> Option<StripeCaptureMethod> {
        if text == "automatic"@ {
            Some(StripeCaptureMethod::Automatic)
        } else if text == "manual"@ {
            Some(StripeCaptureMethod::Manual)
        } else {
            None
        }
    }

    /// Maps the neutral capture method onto Stripe's.
    pub fn from_capture_method(capture_method: Option<CaptureMethod>) -> (r: StripeCaptureMethod)
        ensures
            r == Self::of(capture_method),
    {
        match capture_method {
            Some(CaptureMethod::Manual) => StripeCaptureMethod::Manual,
            Some(CaptureMethod::ManualMultiple) => StripeCaptureMethod::Manual,
            _ => StripeCaptureMethod::Automatic,
        }
    }

    /// Writes the capture method by its name.
    pub fn name(self) -> (r: &'static str)
        ensures
            r@ == self.text(),
    {
        match self {
            StripeCaptureMethod::Automatic => "automatic",
            StripeCaptureMethod::Manual => "manual",
        }
    }
}

/// Writes a truth value.
pub fn bool_name(flag: bool) -> (r: &'static str)
    ensures
        r@ == bool_text(flag),
{
    if flag {
        "true"
    } else {
        "false"
    }
}

/// The body of a capture.
#[derive(Clone, Copy, Debug, PartialEq, Eq)]
pub struct CaptureRequest {
    pub amount_to_capture: Option<i64>,
}

impl CaptureRequest {
    /// The fields of the body: the amount to capture, where there is one.
    pub open spec fn form(self) -> Form {
        optional_field(
            "amount_to_capture"@,
            match self.amount_to_capture {
                Some(amount) => Some(decimal_text(amount as int)),
                None => None,
            },
        )
    }

    /// The body that a form stands for: an amount that is no number makes the
    /// form stand for none.
    pub open spec fn of_form(form: Form) -> Option<CaptureRequest> {
        match field(form, "amount_to_capture"@) {
            None => Some(CaptureRequest { amount_to_capture: None }),
            Some(text) => match parsed_decimal(text) {
                Some(amount) => Some(CaptureRequest { amount_to_capture: Some(amount) }),
                None => None,
            },
        }
    }

    /// The body of the capture that the request data asks for.
    pub fn from_request(request: &PaymentsCaptureData) -> (r: CaptureRequest)
        ensures
            r == (CaptureRequest { amount_to_capture: request.amount_to_capture }),
    {
        CaptureRequest { amount_to_capture: request.amount_to_capture }
    }

    /// Writes the body as the fields of a form.
    pub fn to_form(&self) -> (r: Vec<(String, String)>)
        ensures
            pairs_view(r@) == self.form(),
    {
        let mut form: Vec<(String, String)> = Vec::new();
        assert(pairs_view(form@) == Seq::<(Seq<char>, Seq<char>)>::empty());
        if let Some(amount) = self.amount_to_capture {
            push_field(&mut form, "amount_to_capture", to_decimal(amount));
        }
        assert(pairs_view(form@) == self.form());
        form
    }

    /// Reads the body back from the fields of a form.
    pub fn from_form(form: &Vec<(String, String)>) -> (r: Option<CaptureRequest>)
        ensures
            r == Self::of_form(pairs_view(form@)),
    {
        match get_field(form, "amount_to_capture") {
            None => Some(CaptureRequest { amount_to_capture: None }),
            Some(text) => match parse_decimal(text.as_str()) {
                Some(amount) => Some(CaptureRequest { amount_to_capture: Some(amount) }),
                None => None,
            },
        }
    }
}

/// The body of a refund.
#[derive(Clone, Debug, PartialEq, Eq)]
pub struct RefundRequest {
    /// In minor units.
    pub amount: Option<i64>,
    /// Stripe's id of the payment that is refunded.
    pub payment_intent: String,
}

/// The mathematical value of a [`RefundRequest`].
pub struct RefundRequestView {
    pub amount: Option<i64>,
    pub payment_intent: Seq<char>,
}

impl View for RefundRequest {
    type V = RefundRequestView;

    open spec fn view(&self) -> RefundRequestView {
        RefundRequestView { amount: self.amount, payment_intent: self.payment_intent@ }
    }
}

impl RefundRequestView {
    /// The fields of the body: the amount, where there is one, and the
    /// payment.
    pub open spec fn form(self) -> Form {
        optional_field(
            "amount"@,
            match self.amount {
                Some(amount) => Some(decimal_text(amount as int)),
                None => None,
            },
        ) + seq![("payment_intent"@, self.payment_intent)]
    }

    /// The body that a form stands for: it names the payment, and its amount,
    /// if it has one, is a number.
    pub open spec fn of_form(form: Form) -> Option<RefundRequestView> {
        match (field(form, "payment_intent"@), field(form, "amount"@)) {
            (Some(payment_intent), None) => Some(
                RefundRequestView { amount: None, payment_intent },
            ),
            (Some(payment_intent), Some(text)) => match parsed_decimal(text) {
                Some(amount) => Some(RefundRequestView { amount: Some(amount), payment_intent }),
                None => None,
            },
            (None, _) => None,
        }
    }
}

impl RefundRequest {
    /// The body of the refund that the request data asks for.
    pub fn from_request(request: &RefundsData) -> (r: RefundRequest)
        ensures
            r == (RefundRequest {
                amount: Some(request.refund_amount),
                payment_intent: request.connector_transaction_id,
            }),
    {
        RefundRequest {
            amount: Some(request.refund_amount),
            payment_intent: request.connector_transaction_id.clone(),
        }
    }

    /// Writes the body as the fields of a form.
    pub fn to_form(&self) -> (r: Vec<(String, String)>)
        ensures
            pairs_view(r@) == self@.form(),
    {
        let mut form: Vec<(String, String)> = Vec::new();
        assert(pairs_view(form@) == Seq::<(Seq<char>, Seq<char>)>::empty());
        if let Some(amount) = self.amount {
            push_field(&mut form, "amount", to_decimal(amount));
        }
        push_field(&mut form, "payment_intent", self.payment_intent.clone());
        assert(pairs_view(form@) == self@.form());
        form
    }

    /// Reads the body back from the fields of a form.
    pub fn from_form(form: &Vec<(String, String)>) -> (r: Option<RefundRequest>)
        ensures
            match r {
                Some(request) => RefundRequestView::of_form(pairs_view(form@)) == Some(request@),
                None => RefundRequestView::of_form(pairs_view(form@)) is None,
            },
    {
        let payment_intent = match get_field(form, "payment_intent") {
            Some(payment_intent) => payment_intent.clone(),
            None => {
                return None;
            },
        };
        match get_field(form, "amount") {
            None => Some(RefundRequest { amount: None, payment_intent }),
            Some(text) => match parse_decimal(text.as_str()) {
                Some(amount) => Some(RefundRequest { amount: Some(amount), payment_intent }),
                None => None,
            },
        }
    }
}

/// The body of a void.
#[derive(Clone, Debug, PartialEq, Eq)]
pub struct CancelRequest {
    pub cancellation_reason: Option<String>,
}

impl CancelRequest {
    /// The fields of the body: the reason, where there is one.
    pub open spec fn form(self) -> Form {
        optional_field("cancellation_reason"@, text_of(self.cancellation_reason))
    }

    /// The body of the void that the request data asks for.
    pub fn from_request(request: &PaymentsCancelData) -> (r: CancelRequest)
        ensures
            r == (CancelRequest { cancellation_reason: request.cancellation_reason }),
    {
        CancelRequest { cancellation_reason: copy_text(&request.cancellation_reason) }
    }

    /// Writes the body as the fields of a form.
    pub fn to_form(&self) -> (r: Vec<(String, String)>)
        ensures
            pairs_view(r@) == self.form(),
    {
        let mut form: Vec<(String, String)> = Vec::new();
        assert(pairs_view(form@) == Seq::<(Seq<char>, Seq<char>)>::empty());
        push_optional_field(&mut form, "cancellation_reason", &self.cancellation_reason);
        assert(pairs_view(form@) == self.form());
        form
    }
}

/// A card as Stripe takes it.
#[derive(Clone, Debug, PartialEq, Eq)]
pub struct StripeCard {
    pub number: String,
    pub exp_month: String,
    pub exp_year: String,
    pub cvc: String,
}

/// The mathematical value of a [`StripeCard`].
pub struct StripeCardView {
    pub number: Seq<char>,
    pub exp_month: Seq<char>,
    pub exp_year: Seq<char>,
    pub cvc: Seq<char>,
}

impl View for StripeCard {
    type V = StripeCardView;

    open spec fn view(&self) -> StripeCardView {
        StripeCardView {
            number: self.number@,
            exp_month: self.exp_month@,
            exp_year: self.exp_year@,
            cvc: self.cvc@,
        }
    }
}

impl StripeCardView {
    /// The fields of a card.
    pub open spec fn form(self) -> Form {
        seq![
            ("payment_method_data[type]"@, "card"@),
            ("payment_method_data[card][number]"@, self.number),
            ("payment_method_data[card][exp_month]"@, self.exp_month),
            ("payment_method_data[card][exp_year]"@, self.exp_year),
            ("payment_method_data[card][cvc]"@, self.cvc),
        ]
    }

    /// The card that a form names: one where the payment method is a card and
    /// every field of the card is there.
    pub open spec fn of_form(form: Form) -> Option<StripeCardView> {
        match (
            field(form, "payment_method_data[type]"@),
            field(form, "payment_method_data[card][number]"@),
            field(form, "payment_method_data[card][exp_month]"@),
            field(form, "payment_method_data[card][exp_year]"@),
            field(form, "payment_method_data[card][cvc]"@),
        ) {
            (Some(kind), Some(number), Some(exp_month), Some(exp_year), Some(cvc)) => if kind
                == "card"@ {
                Some(StripeCardView { number, exp_month, exp_year, cvc })
            } else {
                None
            },
            _ => None,
        }
    }
}

impl StripeCard {
    /// The card of a payment method; `None` for a method that is no card.
    pub fn from_payment_method(payment_method: &PaymentMethod) -> (r: Option<StripeCard>)
        ensures
            match *payment_method {
                PaymentMethod::Card(card) => r == Some(
                    StripeCard {
                        number: card.card_number,
                        exp_month: card.card_exp_month,
                        exp_year: card.card_exp_year,
                        cvc: card.card_cvc,
                    },
                ),
                _ => r is None,
            },
    {
        match payment_method {
            PaymentMethod::Card(card) => Some(
                StripeCard {
                    number: card.card_number.clone(),
                    exp_month: card.card_exp_month.clone(),
                    exp_year: card.card_exp_year.clone(),
                    cvc: card.card_cvc.clone(),
                },
            ),
            _ => None,
        }
    }

    /// Adds the fields of the card to a form.
    pub fn push_to(&self, form: &mut Vec<(String, String)>)
        ensures
            pairs_view(final(form)@) == pairs_view(old(form)@) + self@.form(),
    {
        let ghost before = pairs_view(form@);
        push_field(form, "payment_method_data[type]", String::from_str("card"));
        push_field(form, "payment_method_data[card][number]", self.number.clone());
        push_field(form, "payment_method_data[card][exp_month]", self.exp_month.clone());
        push_field(form, "payment_method_data[card][exp_year]", self.exp_year.clone());
        push_field(form, "payment_method_data[card][cvc]", self.cvc.clone());
        assert(pairs_view(form@) == before + self@.form());
    }

    /// Reads a card back from the fields of a form.
    pub fn from_form(form: &Vec<(String, String)>) -> (r: Option<StripeCard>)
        ensures
            match r {
                Some(card) => StripeCardView::of_form(pairs_view(form@)) == Some(card@),
                None => StripeCardView::of_form(pairs_view(form@)) is None,
            },
    {
        let kind = get_field(form, "payment_method_data[type]");
        let number = get_field(form, "payment_method_data[card][number]");
        let exp_month = get_field(form, "payment_method_data[card][exp_month]");
        let exp_year = get_field(form, "payment_method_data[card][exp_year]");
        let cvc = get_field(form, "payment_method_data[card][cvc]");
        match (kind, number, exp_month, exp_year, cvc) {
            (Some(kind), Some(number), Some(exp_month), Some(exp_year), Some(cvc)) => if text_is(
                kind,
                "card",
            ) {
                Some(
                    StripeCard {
                        number: number.clone(),
                        exp_month: exp_month.clone(),
                        exp_year: exp_year.clone(),
                        cvc: cvc.clone(),
                    },
                )
            } else {
                None
            },
            _ => None,
        }
    }
}

/// The body of an authorization.
#[derive(Clone, Debug, PartialEq, Eq)]
pub struct PaymentIntentRequest {
    /// In minor units.
    pub amount: i64,
    pub currency: Currency,
    pub confirm: bool,
    pub capture_method: StripeCaptureMethod,
    pub description: Option<String>,
    pub statement_descriptor_suffix: Option<String>,
    pub card: StripeCard,
}

/// The mathematical value of a [`PaymentIntentRequest`].
pub struct PaymentIntentRequestView {
    pub amount: i64,
    pub currency: Currency,
    pub confirm: bool,
    pub capture_method: StripeCaptureMethod,
    pub description: Option<Seq<char>>,
    pub statement_descriptor_suffix: Option<Seq<char>>,
    pub card: StripeCardView,
}

impl View for PaymentIntentRequest {
    type V = PaymentIntentRequestView;

    open spec fn view(&self) -> PaymentIntentRequestView {
        PaymentIntentRequestView {
            amount: self.amount,
            currency: self.currency,
            confirm: self.confirm,
            capture_method: self.capture_method,
            description: text_of(self.description),
            statement_descriptor_suffix: text_of(self.statement_descriptor_suffix),
            card: self.card@,
        }
    }
}

impl PaymentIntentRequestView {
    /// The fields that every authorization has.
    pub open spec fn required_form(self) -> Form {
        seq![
            ("amount"@, decimal_text(self.amount as int)),
            ("currency"@, currency_text(self.currency)),
            ("confirm"@, bool_text(self.confirm)),
            ("capture_method"@, self.capture_method.text()),
        ]
    }

    /// The fields of the body.
    pub open spec fn form(self) -> Form {
        self.required_form() + optional_field("description"@, self.description) + optional_field(
            "statement_descriptor_suffix"@,
            self.statement_descriptor_suffix,
        ) + self.card.form()
    }

    /// The body that a form stands for: the four required fields are there
    /// and well written, and the form names a card.
    pub open spec fn of_form(form: Form) -> Option<PaymentIntentRequestView> {
        match (
            field(form, "amount"@),
            field(form, "currency"@),
            field(form, "confirm"@),
            field(form, "capture_method"@),
            StripeCardView::of_form(form),
        ) {
            (Some(amount), Some(currency), Some(confirm), Some(capture_method), Some(card)) => {
                match (
                    parsed_decimal(amount),
                    currency_of(currency),
                    bool_of(confirm),
                    StripeCaptureMethod::of_text(capture_method),
                ) {
                    (Some(amount), Some(currency), Some(confirm), Some(capture_method)) => Some(
                        PaymentIntentRequestView {
                            amount,
                            currency,
                            confirm,
                            capture_method,
                            description: field(form, "description"@),
                            statement_descriptor_suffix: field(
                                form,
                                "statement_descriptor_suffix"@,
                            ),
                            card,
                        },
                    ),
                    _ => None,
                }
            },
            _ => None,
        }
    }
}

impl PaymentIntentRequest {
    /// The body of the authorization that the request data asks for. Stripe is
    /// given cards only: any other payment method gives
    /// `RequestEncodingFailed`.
    pub fn from_request(request: &PaymentsAuthorizeData, description: &Option<String>) -> (r:
        Result<PaymentIntentRequest, ConnectorError>)
        ensures
            match request.payment_method_data {
                PaymentMethod::Card(card) => r == Ok::<PaymentIntentRequest, ConnectorError>(
                    PaymentIntentRequest {
                        amount: request.amount,
                        currency: request.currency,
                        confirm: request.confirm,
                        capture_method: StripeCaptureMethod::of(request.capture_method),
                        description: *description,
                        statement_descriptor_suffix: request.statement_descriptor_suffix,
                        card: StripeCard {
                            number: card.card_number,
                            exp_month: card.card_exp_month,
                            exp_year: card.card_exp_year,
                            cvc: card.card_cvc,
                        },
                    },
                ),
                _ => r == Err::<PaymentIntentRequest, ConnectorError>(
                    ConnectorError::RequestEncodingFailed,
                ),
            },
    {
        let card = match StripeCard::from_payment_method(&request.payment_method_data) {
            Some(card) => card,
            None => {
                return Err(ConnectorError::RequestEncodingFailed);
            },
        };
        Ok(
            PaymentIntentRequest {
                amount: request.amount,
                currency: request.currency,
                confirm: request.confirm,
                capture_method: StripeCaptureMethod::from_capture_method(request.capture_method),
                description: copy_text(description),
                statement_descriptor_suffix: copy_text(&request.statement_descriptor_suffix),
                card,
            },
        )
    }

    /// Writes the body as the fields of a form.
    pub fn to_form(&self) -> (r: Vec<(String, String)>)
        ensures
            pairs_view(r@) == self@.form(),
    {
        let mut form: Vec<(String, String)> = Vec::new();
        assert(pairs_view(form@) == Seq::<(Seq<char>, Seq<char>)>::empty());
        push_field(&mut form, "amount", to_decimal(self.amount));
        push_field(&mut form, "currency", String::from_str(currency_name(self.currency)));
        push_field(&mut form, "confirm", String::from_str(bool_name(self.confirm)));
        push_field(&mut form, "capture_method", String::from_str(self.capture_method.name()));
        assert(pairs_view(form@) == self@.required_form());
        push_optional_field(&mut form, "description", &self.description);
        push_optional_field(
            &mut form,
            "statement_descriptor_suffix",
            &self.statement_descriptor_suffix,
        );
        self.card.push_to(&mut form);
        form
    }

    /// Reads the body back from the fields of a form.
    pub fn from_form(form: &Vec<(String, String)>) -> (r: Option<PaymentIntentRequest>)
        ensures
            match r {
                Some(request) => PaymentIntentRequestView::of_form(pairs_view(form@)) == Some(
                    request@,
                ),
                None => PaymentIntentRequestView::of_form(pairs_view(form@)) is None,
            },
    {
        let amount = get_field(form, "amount");
        let currency = get_field(form, "currency");
        let confirm = get_field(form, "confirm");
        let capture_method = get_field(form, "capture_method");
        let card = StripeCard::from_form(form);
        let (amount, currency, confirm, capture_method, card) = match (
            amount,
            currency,
            confirm,
            capture_method,
            card,
        ) {
            (Some(amount), Some(currency), Some(confirm), Some(capture_method), Some(card)) => (
                amount,
                currency,
                confirm,
                capture_method,
                card,
            ),
            _ => {
                return None;
            },
        };
        let confirm = if text_is(confirm, "true") {
            Some(true)
        } else if text_is(confirm, "false") {
            Some(false)
        } else {
            None
        };
        let capture_method = if text_is(capture_method, "automatic") {
            Some(StripeCaptureMethod::Automatic)
        } else if text_is(capture_method, "manual") {
            Some(StripeCaptureMethod::Manual)
        } else {
            None
        };
        match (parse_decimal(amount.as_str()), parse_currency(currency), confirm, capture_method) {
            (Some(amount), Some(currency), Some(confirm), Some(capture_method)) => {
                let description = match get_field(form, "description") {
                    Some(text) => Some(text.clone()),
                    None => None,
                };
                let statement_descriptor_suffix = match get_field(
                    form,
                    "statement_descriptor_suffix",
                ) {
                    Some(text) => Some(text.clone()),
                    None => None,
                };
                Some(
                    PaymentIntentRequest {
                        amount,
                        currency,
                        confirm,
                        capture_method,
                        description,
                        statement_descriptor_suffix,
                        card,
                    },
                )
            },
            _ => None,
        }
    }
}

/// The body of the verification of a payment method.
#[derive(Clone, Debug, PartialEq, Eq)]
pub struct SetupIntentRequest {
    pub confirm: bool,
    pub card: StripeCard,
}

impl SetupIntentRequest {
    /// The fields of the body.
    pub open spec fn form(self) -> Form {
        seq![("confirm"@, bool_text(self.confirm))] + self.card@.form()
    }

    /// The body of the verification that the request data asks for. Stripe is
    /// given cards only: any other payment method gives
    /// `RequestEncodingFailed`.
    pub fn from_request(request: &VerifyRequestData) -> (r: Result<
        SetupIntentRequest,
        ConnectorError,
    >)
        ensures
            match request.payment_method_data {
                PaymentMethod::Card(card) => r == Ok::<SetupIntentRequest, ConnectorError>(
                    SetupIntentRequest {
                        confirm: request.confirm,
                        card: StripeCard {
                            number: card.card_number,
                            exp_month: card.card_exp_month,
                            exp_year: card.card_exp_year,
                            cvc: card.card_cvc,
                        },
                    },
                ),
                _ => r == Err::<SetupIntentRequest, ConnectorError>(
                    ConnectorError::RequestEncodingFailed,
                ),
            },
    {
        match StripeCard::from_payment_method(&request.payment_method_data) {
            Some(card) => Ok(SetupIntentRequest { confirm: request.confirm, card }),
            None => Err(ConnectorError::RequestEncodingFailed),
        }
    }

    /// Writes the body as the fields of a form.
    pub fn to_form(&self) -> (r: Vec<(String, String)>)
        ensures
            pairs_view(r@) == self.form(),
    {
        let mut form: Vec<(String, String)> = Vec::new();
        assert(pairs_view(form@) == Seq::<(Seq<char>, Seq<char>)>::empty());
        push_field(&mut form, "confirm", String::from_str(bool_name(self.confirm)));
        assert(pairs_view(form@) == seq![("confirm"@, bool_text(self.confirm))]);
        self.card.push_to(&mut form);
        form
    }
}

/// The attempt status that Stripe's status of a payment stands for.
pub open spec fn attempt_status_of(status: Seq<char>) -> Option<AttemptStatus> {
    if status == "succeeded"@ {
        Some(AttemptStatus::Charged)
    } else if status == "failed"@ {
        Some(AttemptStatus::Failure)
    } else if status == "processing"@ {
        Some(AttemptStatus::Pending)
    } else if status == "requires_action"@ {
        Some(AttemptStatus::AuthenticationPending)
    } else if status == "requires_payment_method"@ {
        Some(AttemptStatus::Failure)
    } else if status == "requires_confirmation"@ {
        Some(AttemptStatus::Started)
    } else if status == "canceled"@ {
        Some(AttemptStatus::Voided)
    } else if status == "requires_capture"@ {
        Some(AttemptStatus::Authorized)
    } else {
        None
    }
}

/// The refund status that Stripe's status of a refund stands for.
pub open spec fn refund_status_of(status: Seq<char>) -> Option<RefundStatus> {
    if status == "succeeded"@ {
        Some(RefundStatus::Success)
    } else if status == "failed"@ {
        Some(RefundStatus::Failure)
    } else if status == "pending"@ {
        Some(RefundStatus::Pending)
    } else if status == "requires_action"@ {
        Some(RefundStatus::ManualReview)
    } else {
        None
    }
}

/// Maps Stripe's status of a payment onto the neutral status of an attempt.
pub fn attempt_status(status: &String) -> (r: Option<AttemptStatus>)
    ensures
        r == attempt_status_of(status@),
{
    if text_is(status, "succeeded") {
        Some(AttemptStatus::Charged)
    } else if text_is(status, "failed") {
        Some(AttemptStatus::Failure)
    } else if text_is(status, "processing") {
        Some(AttemptStatus::Pending)
    } else if text_is(status, "requires_action") {
        Some(AttemptStatus::AuthenticationPending)
    } else if text_is(status, "requires_payment_method") {
        Some(AttemptStatus::Failure)
    } else if text_is(status, "requires_confirmation") {
        Some(AttemptStatus::Started)
    } else if text_is(status, "canceled") {
        Some(AttemptStatus::Voided)
    } else if text_is(status, "requires_capture") {
        Some(AttemptStatus::Authorized)
    } else {
        None
    }
}

/// Maps Stripe's status of a refund onto the neutral status of a refund.
pub fn refund_status(status: &String) -> (r: Option<RefundStatus>)
    ensures
        r == refund_status_of(status@),
{
    if text_is(status, "succeeded") {
        Some(RefundStatus::Success)
    } else if text_is(status, "failed") {
        Some(RefundStatus::Failure)
    } else if text_is(status, "pending") {
        Some(RefundStatus::Pending)
    } else if text_is(status, "requires_action") {
        Some(RefundStatus::ManualReview)
    } else {
        None
    }
}

/// The names of the fields are what the texts say, so that two of them are
/// told apart by their length or by a character.
proof fn field_names_are_known()
    ensures
        "amount"@.len() == 6,
        "currency"@.len() == 8,
        "confirm"@.len() == 7,
        "capture_method"@.len() == 14,
        "description"@.len() == 11,
        "statement_descriptor_suffix"@.len() == 27,
        "payment_intent"@.len() == 14,
        "amount_to_capture"@.len() == 17,
        "payment_method_data[type]"@.len() == 25,
        "payment_method_data[card][number]"@.len() == 33,
        "payment_method_data[card][exp_month]"@.len() == 36,
        "payment_method_data[card][exp_year]"@.len() == 35,
        "payment_method_data[card][cvc]"@.len() == 30,
        "capture_method"@[0] == 'c',
        "payment_intent"@[0] == 'p',
        "true"@.len() == 4,
        "false"@.len() == 5,
        "automatic"@.len() == 9,
        "manual"@.len() == 6,
{
    reveal_strlit("amount");
    reveal_strlit("currency");
    reveal_strlit("confirm");
    reveal_strlit("capture_method");
    reveal_strlit("description");
    reveal_strlit("statement_descriptor_suffix");
    reveal_strlit("payment_intent");
    reveal_strlit("amount_to_capture");
    reveal_strlit("payment_method_data[type]");
    reveal_strlit("payment_method_data[card][number]");
    reveal_strlit("payment_method_data[card][exp_month]");
    reveal_strlit("payment_method_data[card][exp_year]");
    reveal_strlit("payment_method_data[card][cvc]");
    reveal_strlit("true");
    reveal_strlit("false");
    reveal_strlit("automatic");
    reveal_strlit("manual");
}

/// The body of a capture, written as a form and read back, is the body
/// again.
pub proof fn capture_request_reads_back(request: CaptureRequest)
    ensures
        CaptureRequest::of_form(request.form()) == Some(request),
{
    if let Some(amount) = request.amount_to_capture {
        decimal_text_reads_back(amount);
        reveal_with_fuel(field, 2);
    }
}

/// The body of a refund, written as a form and read back, is the body again.
pub proof fn refund_request_reads_back(request: RefundRequestView)
    ensures
        RefundRequestView::of_form(request.form()) == Some(request),
{
    field_names_are_known();
    reveal_with_fuel(field, 3);
    let amount = optional_field(
        "amount"@,
        match request.amount {
            Some(amount) => Some(decimal_text(amount as int)),
            None => None,
        },
    );
    let payment = seq![("payment_intent"@, request.payment_intent)];
    field_of_joined_forms(amount, payment, "amount"@);
    field_of_joined_forms(amount, payment, "payment_intent"@);
    if let Some(amount) = request.amount {
        decimal_text_reads_back(amount);
    }
}

/// The length of the name of a field of a card.
spec fn is_card_name_length(length: nat) -> bool {
    length == 25 || length == 30 || length == 33 || length == 35 || length == 36
}

/// The fields of a card are found in a form that ends with them, whatever
/// fields of an authorization come before.
proof fn card_reads_back(before: Form, card: StripeCardView)
    requires
        forall|i: int| 0 <= i < before.len() ==> !is_card_name_length((#[trigger] before[i]).0.len()),
    ensures
        StripeCardView::of_form(before + card.form()) == Some(card),
        forall|name: Seq<char>|
            !is_card_name_length(name.len()) ==> #[trigger] field(before + card.form(), name)
                == field(before, name),
{
    field_names_are_known();
    reveal_with_fuel(field, 6);
    assert forall|name: Seq<char>| is_card_name_length(name.len()) implies #[trigger] field(
        before,
        name,
    ) is None by {
        names_of_another_length_are_absent(before, name);
    }
    assert forall|name: Seq<char>| true implies #[trigger] field(before + card.form(), name) == if field(
        before,
        name,
    ) is Some {
        field(before, name)
    } else {
        field(card.form(), name)
    } by {
        field_of_joined_forms(before, card.form(), name);
    }
    assert forall|name: Seq<char>| !is_card_name_length(name.len()) implies field(
        card.form(),
        name,
    ) is None by {}
}

proof fn names_of_another_length_are_absent(form: Form, name: Seq<char>)
    requires
        forall|i: int| 0 <= i < form.len() ==> (#[trigger] form[i]).0.len() != name.len(),
    ensures
        field(form, name) is None,
    decreases form.len(),
{
    if form.len() > 0 {
        let rest = form.drop_first();
        assert forall|i: int| 0 <= i < rest.len() implies (#[trigger] rest[i]).0.len()
            != name.len() by {
            assert(rest[i] == form[i + 1]);
        }
        assert(form[0].0.len() != name.len());
        names_of_another_length_are_absent(rest, name);
    }
}

/// The body of an authorization, written as a form and read back, is the
/// body again.
pub proof fn payment_intent_request_reads_back(request: PaymentIntentRequestView)
    ensures
        PaymentIntentRequestView::of_form(request.form()) == Some(request),
{
    field_names_are_known();
    decimal_text_reads_back(request.amount);
    currency_text_reads_back(request.currency);
    let required = request.required_form();
    let description = optional_field("description"@, request.description);
    let suffix = optional_field(
        "statement_descriptor_suffix"@,
        request.statement_descriptor_suffix,
    );
    let before = required + description + suffix;
    assert(request.form() == before + request.card.form());
    assert forall|i: int| 0 <= i < before.len() implies !is_card_name_length(
        (#[trigger] before[i]).0.len(),
    ) by {
        if i < 4 {
            assert(before[i] == required[i]);
        } else if i < 4 + description.len() {
            assert(before[i] == description[i - 4]);
        } else {
            assert(before[i] == suffix[i - 4 - description.len()]);
        }
    }
    card_reads_back(before, request.card);
    reveal_with_fuel(field, 5);
    assert forall|name: Seq<char>| true implies #[trigger] field(before, name) == if field(
        required + description,
        name,
    ) is Some {
        field(required + description, name)
    } else {
        field(suffix, name)
    } by {
        field_of_joined_forms(required + description, suffix, name);
    }
    assert forall|name: Seq<char>| true implies #[trigger] field(required + description, name)
        == if field(required, name) is Some {
        field(required, name)
    } else {
        field(description, name)
    } by {
        field_of_joined_forms(required, description, name);
    }
    assert(field(before, "amount"@) == Some(decimal_text(request.amount as int)));
    assert(field(before, "currency"@) == Some(currency_text(request.currency)));
    assert(field(before, "confirm"@) == Some(bool_text(request.confirm)));
    assert(field(before, "capture_method"@) == Some(request.capture_method.text()));
    assert(field(before, "description"@) == request.description);
    assert(field(before, "statement_descriptor_suffix"@) == request.statement_descriptor_suffix);
    assert(bool_of(bool_text(request.confirm)) == Some(request.confirm));
    assert(StripeCaptureMethod::of_text(request.capture_method.text()) == Some(
        request.capture_method,
    ));
}

} // verus!
