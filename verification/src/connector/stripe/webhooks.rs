//! Stripe's webhooks: the signature header, the signed message, and what an
//! event says.

use crate::connector::stripe::Stripe;
use crate::errors::{ConnectorError, StorageError};
use crate::headers::{get_first, header_value};
use crate::types::api::webhooks::{
    found_bytes, source_verdict, IncomingWebhook, IncomingWebhookEvent,
};
use crate::utils::crypto::{hmac_sha256, verifies, SignatureAlgorithm, MAX_INPUT_LEN};
use crate::utils::hexadecimal;
use crate::utils::json::{json_document, Json};
use crate::utils::text::text_is;
use actix_web::http::header::HeaderMap;
use vstd::prelude::*;

verus! {

/// The index of the first `byte` in `bytes`, or the length of `bytes` where
/// it holds none.
pub open spec fn first_position(bytes: Seq<u8>, byte: u8) -> int
    decreases bytes.len(),
{
    if bytes.len() == 0 {
        0
    } else if bytes[0] == byte {
        0
    } else {
        1 + first_position(bytes.drop_first(), byte)
    }
}

/// `first_position` is the least index that holds the byte.
pub proof fn first_position_is_first(bytes: Seq<u8>, byte: u8)
    ensures
        0 <= first_position(bytes, byte) <= bytes.len(),
        first_position(bytes, byte) < bytes.len() ==> bytes[first_position(bytes, byte)] == byte,
        forall|i: int| 0 <= i < first_position(bytes, byte) ==> bytes[i] != byte,
    decreases bytes.len(),
{
    if bytes.len() > 0 && bytes[0] != byte {
        let rest = bytes.drop_first();
        first_position_is_first(rest, byte);
        assert forall|i: int| 0 <= i < first_position(bytes, byte) implies bytes[i] != byte by {
            if i > 0 {
                assert(bytes[i] == rest[i - 1]);
            }
        }
    }
}

/// An index that holds the byte, with none before it, is the first position.
pub proof fn first_position_is_unique(bytes: Seq<u8>, byte: u8, index: int)
    requires
        0 <= index <= bytes.len(),
        index < bytes.len() ==> bytes[index] == byte,
        forall|i: int| 0 <= i < index ==> bytes[i] != byte,
    ensures
        first_position(bytes, byte) == index,
{
    first_position_is_first(bytes, byte);
}

/// The parts of `bytes` between the occurrences of `separator`. There is one
/// part more than there are separators, and a part may be empty.
pub open spec fn split(bytes: Seq<u8>, separator: u8) -> Seq<Seq<u8>>
    decreases bytes.len(),
{
    let position = first_position(bytes, separator);
    if 0 <= position < bytes.len() {
        seq![bytes.take(position)] + split(bytes.skip(position + 1), separator)
    } else {
        seq![bytes]
    }
}

/// The key and the value of a part `key=value`, cut at the first `=`; `None`
/// for a part with no `=`.
pub open spec fn key_value(part: Seq<u8>) -> Option<(Seq<u8>, Seq<u8>)> {
    let position = first_position(part, 0x3d);
    if 0 <= position < part.len() {
        Some((part.take(position), part.skip(position + 1)))
    } else {
        None
    }
}

/// A header value is text where each byte is a visible ASCII character, a
/// space or a tab.
pub open spec fn is_text(bytes: Seq<u8>) -> bool {
    forall|i: int| 0 <= i < bytes.len() ==> 32 <= #[trigger] bytes[i] < 127 || bytes[i] == 9
}

/// The elements are well formed where no value is empty and no key occurs
/// twice.
pub open spec fn well_formed(elements: Seq<(Seq<u8>, Seq<u8>)>) -> bool {
    &&& forall|i: int| 0 <= i < elements.len() ==> (#[trigger] elements[i]).1.len() > 0
    &&& forall|i: int, j: int|
        0 <= i < j < elements.len() ==> (#[trigger] elements[i]).0 != (#[trigger] elements[j]).0
}

/// The elements of a signature header `key=value,key=value,...`. A header
/// that is no text gives `WebhookSignatureNotFound`. A part without `=`, an
/// empty value and a key that occurs twice each give
/// `WebhookSourceVerificationFailed`.
pub open spec fn signature_elements(header: Seq<u8>) -> Result<
    Seq<(Seq<u8>, Seq<u8>)>,
    ConnectorError,
> {
    let parts = split(header, 0x2c);
    let elements = parts.map_values(|part: Seq<u8>| key_value(part)->0);
    if !is_text(header) {
        Err(ConnectorError::WebhookSignatureNotFound)
    } else if (forall|i: int| 0 <= i < parts.len() ==> key_value(#[trigger] parts[i]) is Some)
        && well_formed(elements) {
        Ok(elements)
    } else {
        Err(ConnectorError::WebhookSourceVerificationFailed)
    }
}

/// The value that the elements hold for `key`: that of the first element with
/// the key.
pub open spec fn value_of(elements: Seq<(Seq<u8>, Seq<u8>)>, key: Seq<u8>) -> Option<Seq<u8>>
    decreases elements.len(),
{
    if elements.len() == 0 {
        None
    } else if elements[0].0 == key {
        Some(elements[0].1)
    } else {
        value_of(elements.drop_first(), key)
    }
}

/// The view of the parsed elements.
pub open spec fn elements_view(elements: Seq<(Vec<u8>, Vec<u8>)>) -> Seq<(Seq<u8>, Seq<u8>)> {
    elements.map_values(|element: (Vec<u8>, Vec<u8>)| (element.0@, element.1@))
}

/// The view of a list of byte strings.
pub open spec fn parts_view(parts: Seq<Vec<u8>>) -> Seq<Seq<u8>> {
    parts.map_values(|part: Vec<u8>| part@)
}

/// The first index from `from` on that holds `byte`, or the length of
/// `bytes`.
fn find_from(bytes: &Vec<u8>, from: usize, byte: u8) -> (r: usize)
    requires
        from <= bytes.len(),
    ensures
        from <= r <= bytes.len(),
        r - from == first_position(bytes@.skip(from as int), byte),
{
    let mut index = from;
    while index < bytes.len() && bytes[index] != byte
        invariant
            from <= index <= bytes.len(),
            forall|i: int| from <= i < index ==> bytes@[i] != byte,
        decreases bytes.len() - index,
    {
        index = index + 1;
    }
    proof {
        first_position_is_unique(bytes@.skip(from as int), byte, index - from);
    }
    index
}

/// Copies the bytes from `from` up to `to`.
fn copy_range(bytes: &Vec<u8>, from: usize, to: usize) -> (r: Vec<u8>)
    requires
        from <= to <= bytes.len(),
    ensures
        r@ == bytes@.subrange(from as int, to as int),
{
    let mut copy: Vec<u8> = Vec::new();
    let mut index = from;
    while index < to
        invariant
            from <= index <= to <= bytes.len(),
            copy@ == bytes@.subrange(from as int, index as int),
        decreases to - index,
    {
        copy.push(bytes[index]);
        index = index + 1;
    }
    copy
}

/// Splits `bytes` at each `separator`.
pub fn split_bytes(bytes: &Vec<u8>, separator: u8) -> (r: Vec<Vec<u8>>)
    ensures
        parts_view(r@) == split(bytes@, separator),
{
    let mut parts: Vec<Vec<u8>> = Vec::new();
    let mut start: usize = 0;
    assert(bytes@.skip(0) == bytes@);
    loop
        invariant
            start <= bytes.len(),
            split(bytes@, separator) == parts_view(parts@) + split(
                bytes@.skip(start as int),
                separator,
            ),
        decreases bytes.len() - start,
    {
        let end = find_from(bytes, start, separator);
        let part = copy_range(bytes, start, end);
        let ghost rest = bytes@.skip(start as int);
        let ghost before = parts_view(parts@);
        assert(rest.take(end - start) == part@);
        parts.push(part);
        assert(parts_view(parts@) == before.push(part@));
        if end == bytes.len() {
            assert(rest.take(rest.len() as int) == rest);
            assert(split(rest, separator) == seq![rest]);
            return parts;
        }
        assert(rest.skip(end - start + 1) == bytes@.skip(end as int + 1));
        assert(split(rest, separator) == seq![part@] + split(
            bytes@.skip(end as int + 1),
            separator,
        ));
        start = end + 1;
    }
}

/// Cuts a part `key=value` at its first `=`.
pub fn split_key_value(part: &Vec<u8>) -> (r: Option<(Vec<u8>, Vec<u8>)>)
    ensures
        match r {
            Some((key, value)) => key_value(part@) == Some((key@, value@)),
            None => key_value(part@) is None,
        },
{
    assert(part@.skip(0) == part@);
    let position = find_from(part, 0, 0x3d);
    if position < part.len() {
        let key = copy_range(part, 0, position);
        let value = copy_range(part, position + 1, part.len());
        Some((key, value))
    } else {
        None
    }
}

/// Tells whether two byte strings are equal.
pub fn bytes_equal(left: &Vec<u8>, right: &Vec<u8>) -> (r: bool)
    ensures
        r == (left@ == right@),
{
    if left.len() != right.len() {
        return false;
    }
    let mut index: usize = 0;
    while index < left.len()
        invariant
            index <= left.len() == right.len(),
            forall|i: int| 0 <= i < index ==> left@[i] == right@[i],
        decreases left.len() - index,
    {
        if left[index] != right[index] {
            return false;
        }
        index = index + 1;
    }
    assert(left@ =~= right@);
    true
}

/// Tells whether a header value is text.
pub fn is_header_text(bytes: &Vec<u8>) -> (r: bool)
    ensures
        r == is_text(bytes@),
{
    let mut index: usize = 0;
    while index < bytes.len()
        invariant
            index <= bytes.len(),
            forall|i: int| 0 <= i < index ==> 32 <= #[trigger] bytes@[i] < 127 || bytes@[i] == 9,
        decreases bytes.len() - index,
    {
        let byte = bytes[index];
        if !((32 <= byte && byte < 127) || byte == 9) {
            return false;
        }
        index = index + 1;
    }
    true
}

/// Looks a key up among the elements.
pub fn find_value<'a>(elements: &'a Vec<(Vec<u8>, Vec<u8>)>, key: &Vec<u8>) -> (r: Option<
    &'a Vec<u8>,
>)
    ensures
        match r {
            Some(value) => value_of(elements_view(elements@), key@) == Some(value@),
            None => value_of(elements_view(elements@), key@) is None,
        },
{
    let ghost all = elements_view(elements@);
    let mut index: usize = 0;
    assert(all.skip(0) == all);
    while index < elements.len()
        invariant
            index <= elements.len(),
            all == elements_view(elements@),
            value_of(all, key@) == value_of(all.skip(index as int), key@),
        decreases elements.len() - index,
    {
        let ghost rest = all.skip(index as int);
        assert(rest[0] == (elements@[index as int].0@, elements@[index as int].1@));
        assert(rest.drop_first() == all.skip(index as int + 1));
        if bytes_equal(&elements[index].0, key) {
            return Some(&elements[index].1);
        }
        index = index + 1;
    }
    None
}

/// A key has a value among the elements exactly where some element holds
/// the key.
pub proof fn value_of_finds_the_key(elements: Seq<(Seq<u8>, Seq<u8>)>, key: Seq<u8>)
    ensures
        value_of(elements, key) is Some <==> exists|i: int|
            0 <= i < elements.len() && (#[trigger] elements[i]).0 == key,
    decreases elements.len(),
{
    if elements.len() > 0 {
        let rest = elements.drop_first();
        value_of_finds_the_key(rest, key);
        if elements[0].0 != key {
            if value_of(rest, key) is Some {
                let i = choose|i: int| 0 <= i < rest.len() && (#[trigger] rest[i]).0 == key;
                assert(elements[i + 1] == rest[i]);
            }
            if exists|i: int| 0 <= i < elements.len() && (#[trigger] elements[i]).0 == key {
                let i = choose|i: int| 0 <= i < elements.len() && (#[trigger] elements[i]).0 == key;
                assert(rest[i - 1] == elements[i]);
            }
        }
    }
}

/// The name of the header in which Stripe signs a webhook.
pub const SIGNATURE_HEADER: &'static str = "Stripe-Signature";

/// The key of the signature among the elements: `v1`.
pub open spec fn signature_key() -> Seq<u8> {
    seq![0x76u8, 0x31u8]
}

/// The key of the timestamp among the elements: `t`.
pub open spec fn timestamp_key() -> Seq<u8> {
    seq![0x74u8]
}

/// The elements of the signature header of a request; a request without the
/// header gives `WebhookSignatureNotFound`.
pub open spec fn header_elements(header: Option<Seq<u8>>) -> Result<
    Seq<(Seq<u8>, Seq<u8>)>,
    ConnectorError,
> {
    match header {
        Some(value) => signature_elements(value),
        None => Err(ConnectorError::WebhookSignatureNotFound),
    }
}

/// The signature that a request carries: the bytes that the element `v1` of
/// its signature header stands for in hexadecimal. A header without `v1`
/// gives `WebhookSignatureNotFound`. A `v1` that is no hexadecimal text is
/// the signature of nothing, and gives `WebhookSourceVerificationFailed`.
pub open spec fn source_signature(header: Option<Seq<u8>>) -> Result<Seq<u8>, ConnectorError> {
    match header_elements(header) {
        Err(error) => Err(error),
        Ok(elements) => match value_of(elements, signature_key()) {
            None => Err(ConnectorError::WebhookSignatureNotFound),
            Some(text) => match hexadecimal::decoded(text) {
                None => Err(ConnectorError::WebhookSourceVerificationFailed),
                Some(signature) => Ok(signature),
            },
        },
    }
}

/// The message that Stripe signed: the element `t` of the signature header, a
/// period, and the body of the request as it came. A header without `t`
/// gives `WebhookSignatureNotFound`.
pub open spec fn source_message(header: Option<Seq<u8>>, body: Seq<u8>) -> Result<
    Seq<u8>,
    ConnectorError,
> {
    match header_elements(header) {
        Err(error) => Err(error),
        Ok(elements) => match value_of(elements, timestamp_key()) {
            None => Err(ConnectorError::WebhookSignatureNotFound),
            Some(timestamp) => Ok(timestamp + seq![0x2eu8] + body),
        },
    }
}

/// Whether a webhook is accepted as sent by Stripe: its signature and its
/// message are found, and the signature is the HMAC-SHA256 of the message
/// under the secret of the merchant.
pub open spec fn stripe_verdict(header: Option<Seq<u8>>, body: Seq<u8>, secret: Seq<u8>) -> Result<
    (),
    ConnectorError,
> {
    source_verdict(
        Ok(SignatureAlgorithm::HmacSha256),
        source_signature(header),
        source_message(header, body),
        secret,
    )
}

/// The view of elements that were parsed or not.
pub open spec fn found_elements(r: Result<Vec<(Vec<u8>, Vec<u8>)>, ConnectorError>) -> Result<
    Seq<(Seq<u8>, Seq<u8>)>,
    ConnectorError,
> {
    match r {
        Ok(elements) => Ok(elements_view(elements@)),
        Err(error) => Err(error),
    }
}

/// Parses the value of a signature header into its elements.
pub fn parse_signature_elements(header: &Vec<u8>) -> (r: Result<
    Vec<(Vec<u8>, Vec<u8>)>,
    ConnectorError,
>)
    ensures
        found_elements(r) == signature_elements(header@),
{
    if !is_header_text(header) {
        return Err(ConnectorError::WebhookSignatureNotFound);
    }
    let parts = split_bytes(header, 0x2c);
    let ghost all = split(header@, 0x2c).map_values(|part: Seq<u8>| key_value(part)->0);
    let mut elements: Vec<(Vec<u8>, Vec<u8>)> = Vec::new();
    let mut index: usize = 0;
    while index < parts.len()
        invariant
            index <= parts.len(),
            is_text(header@),
            parts_view(parts@) == split(header@, 0x2c),
            all == split(header@, 0x2c).map_values(|part: Seq<u8>| key_value(part)->0),
            elements_view(elements@) == all.take(index as int),
            forall|i: int| 0 <= i < index ==> key_value(#[trigger] split(header@, 0x2c)[i]) is Some,
            well_formed(all.take(index as int)),
        decreases parts.len() - index,
    {
        let ghost part = split(header@, 0x2c)[index as int];
        assert(parts_view(parts@)[index as int] == parts@[index as int]@);
        let (key, value) = match split_key_value(&parts[index]) {
            Some(element) => element,
            None => {
                assert(key_value(part) is None);
                return Err(ConnectorError::WebhookSourceVerificationFailed);
            },
        };
        assert(all[index as int] == (key@, value@));
        if value.len() == 0 {
            assert(!well_formed(all));
            return Err(ConnectorError::WebhookSourceVerificationFailed);
        }
        proof {
            value_of_finds_the_key(all.take(index as int), key@);
        }
        if find_value(&elements, &key).is_some() {
            proof {
                let j = choose|j: int|
                    0 <= j < index && (#[trigger] all.take(index as int)[j]).0 == key@;
                assert(all[j].0 == all[index as int].0);
                assert(!well_formed(all));
            }
            return Err(ConnectorError::WebhookSourceVerificationFailed);
        }
        let ghost before = elements_view(elements@);
        elements.push((key, value));
        proof {
            let seen = all.take(index as int + 1);
            assert(elements_view(elements@) == before.push((key@, value@)));
            assert(seen == all.take(index as int).push(all[index as int]));
            assert forall|i: int, j: int| 0 <= i < j < seen.len() implies (#[trigger] seen[i]).0 != (
            #[trigger] seen[j]).0 by {
                if j == index {
                    assert(all.take(index as int)[i].0 != key@);
                } else {
                    assert(all.take(index as int)[i].0 != all.take(index as int)[j].0);
                }
            }
            assert forall|i: int| 0 <= i < seen.len() implies (#[trigger] seen[i]).1.len() > 0 by {
                if i < index {
                    assert(all.take(index as int)[i].1.len() > 0);
                }
            }
        }
        index = index + 1;
    }
    assert(all.take(index as int) == all);
    Ok(elements)
}

/// Reads the signature header of a request and parses it into its elements.
pub fn get_signature_elements_from_header(headers: &HeaderMap) -> (r: Result<
    Vec<(Vec<u8>, Vec<u8>)>,
    ConnectorError,
>)
    ensures
        found_elements(r) == header_elements(header_value(*headers, SIGNATURE_HEADER@)),
{
    match get_first(headers, SIGNATURE_HEADER) {
        Some(value) => parse_signature_elements(&value),
        None => Err(ConnectorError::WebhookSignatureNotFound),
    }
}

/// What the event called `name` means; `refund_status` is the status of the
/// refund that the event is about, where its object names one.
pub open spec fn event_of(name: Seq<char>, refund_status: Option<Seq<char>>) -> Option<
    IncomingWebhookEvent,
> {
    if name == "payment_intent.succeeded"@ {
        Some(IncomingWebhookEvent::PaymentIntentSuccess)
    } else if name == "payment_intent.payment_failed"@ {
        Some(IncomingWebhookEvent::PaymentIntentFailure)
    } else if name == "charge.refunded"@ {
        Some(IncomingWebhookEvent::RefundSuccess)
    } else if name == "charge.refund.updated"@ {
        if refund_status == Some("succeeded"@) {
            Some(IncomingWebhookEvent::RefundSuccess)
        } else if refund_status == Some("failed"@) {
            Some(IncomingWebhookEvent::RefundFailure)
        } else {
            None
        }
    } else {
        None
    }
}

/// The object that an event is about: the member `object` of the member
/// `data` of the event.
pub open spec fn event_object(event: Json) -> Option<Json> {
    match event.member("data"@) {
        Some(data) => data.member("object"@),
        None => None,
    }
}

/// The text of the member called `name`, where the value has a member of that
/// name that is a string.
pub open spec fn text_member(value: Option<Json>, name: Seq<char>) -> Option<Seq<char>> {
    match value {
        Some(value) => match value.member(name) {
            Some(member) => member.text(),
            None => None,
        },
        None => None,
    }
}

/// The kind of event that the body of a webhook announces: read from its
/// member `type`. A body that is no JSON, has no such text, or names an event
/// that the library does not know gives `WebhookEventTypeNotFound`.
pub open spec fn event_type(event: Option<Json>) -> Result<IncomingWebhookEvent, ConnectorError> {
    match text_member(event, "type"@) {
        Some(name) => match event_of(name, text_member(event_object(event->0), "status"@)) {
            Some(kind) => Ok(kind),
            None => Err(ConnectorError::WebhookEventTypeNotFound),
        },
        None => Err(ConnectorError::WebhookEventTypeNotFound),
    }
}

/// The acquirer's id of what an event is about: the text of the member `id`
/// of its object; `WebhookReferenceIdNotFound` where there is none.
pub open spec fn object_reference_id(event: Option<Json>) -> Result<Seq<char>, ConnectorError> {
    match event {
        Some(event) => match text_member(event_object(event), "id"@) {
            Some(id) => Ok(id),
            None => Err(ConnectorError::WebhookReferenceIdNotFound),
        },
        None => Err(ConnectorError::WebhookReferenceIdNotFound),
    }
}

/// The object of an event; `WebhookResourceObjectNotFound` where there is
/// none.
pub open spec fn resource_object(event: Option<Json>) -> Result<Json, ConnectorError> {
    match event {
        Some(event) => match event_object(event) {
            Some(object) => Ok(object),
            None => Err(ConnectorError::WebhookResourceObjectNotFound),
        },
        None => Err(ConnectorError::WebhookResourceObjectNotFound),
    }
}

/// The text of a member that is a string.
fn get_text<'a>(value: Option<&'a Json>, name: &str) -> (r: Option<&'a String>)
    ensures
        match r {
            Some(text) => value is Some && text_member(Some(*value->0), name@) == Some(text@),
            None => value matches Some(value) ==> text_member(Some(*value), name@) is None,
        },
{
    match value {
        Some(value) => match value.get(name) {
            Some(member) => member.as_str(),
            None => None,
        },
        None => None,
    }
}

/// The object of an event.
fn get_object(event: &Json) -> (r: Option<&Json>)
    ensures
        match r {
            Some(object) => event_object(*event) == Some(*object),
            None => event_object(*event) is None,
        },
{
    match event.get("data") {
        Some(data) => data.get("object"),
        None => None,
    }
}

/// Classifies an event that was read from the body of a webhook.
pub fn classify_event(event: &Json) -> (r: Result<IncomingWebhookEvent, ConnectorError>)
    ensures
        r == event_type(Some(*event)),
{
    let name = match get_text(Some(event), "type") {
        Some(name) => name,
        None => {
            return Err(ConnectorError::WebhookEventTypeNotFound);
        },
    };
    if text_is(name, "payment_intent.succeeded") {
        Ok(IncomingWebhookEvent::PaymentIntentSuccess)
    } else if text_is(name, "payment_intent.payment_failed") {
        Ok(IncomingWebhookEvent::PaymentIntentFailure)
    } else if text_is(name, "charge.refunded") {
        Ok(IncomingWebhookEvent::RefundSuccess)
    } else if text_is(name, "charge.refund.updated") {
        let object = get_object(event);
        match get_text(object, "status") {
            Some(status) => if text_is(status, "succeeded") {
                Ok(IncomingWebhookEvent::RefundSuccess)
            } else if text_is(status, "failed") {
                Ok(IncomingWebhookEvent::RefundFailure)
            } else {
                Err(ConnectorError::WebhookEventTypeNotFound)
            },
            None => Err(ConnectorError::WebhookEventTypeNotFound),
        }
    } else {
        Err(ConnectorError::WebhookEventTypeNotFound)
    }
}

impl IncomingWebhook for Stripe {
    /// Stripe signs with HMAC-SHA256, whatever the request holds.
    open spec fn source_verification_algorithm(&self, headers: HeaderMap, body: Seq<u8>) -> Result<
        SignatureAlgorithm,
        ConnectorError,
    > {
        Ok(SignatureAlgorithm::HmacSha256)
    }

    open spec fn source_verification_signature(&self, headers: HeaderMap, body: Seq<u8>) -> Result<
        Seq<u8>,
        ConnectorError,
    > {
        source_signature(header_value(headers, SIGNATURE_HEADER@))
    }

    open spec fn source_verification_message(&self, headers: HeaderMap, body: Seq<u8>) -> Result<
        Seq<u8>,
        ConnectorError,
    > {
        source_message(header_value(headers, SIGNATURE_HEADER@), body)
    }

    /// The secret is kept under the names of the adapter and of the merchant.
    open spec fn merchant_secret_key(&self, merchant_id: Seq<char>) -> Seq<char> {
        "whsec_verification_"@ + "stripe"@ + "_"@ + merchant_id
    }

    open spec fn object_reference_id(&self, body: Seq<u8>) -> Result<Seq<char>, ConnectorError> {
        object_reference_id(json_document(body))
    }

    open spec fn event_type(&self, body: Seq<u8>) -> Result<IncomingWebhookEvent, ConnectorError> {
        event_type(json_document(body))
    }

    open spec fn resource_object(&self, body: Seq<u8>) -> Result<Json, ConnectorError> {
        resource_object(json_document(body))
    }

    fn get_webhook_source_verification_algorithm(&self, _headers: &HeaderMap, _body: &[u8]) -> (r:
        Result<SignatureAlgorithm, ConnectorError>) {
        Ok(SignatureAlgorithm::HmacSha256)
    }

    fn get_webhook_source_verification_signature(&self, headers: &HeaderMap, _body: &[u8]) -> (r:
        Result<Vec<u8>, ConnectorError>) {
        let elements = get_signature_elements_from_header(headers)?;
        let mut key: Vec<u8> = Vec::new();
        key.push(0x76);
        key.push(0x31);
        assert(key@ == signature_key());
        let text = match find_value(&elements, &key) {
            Some(text) => text,
            None => {
                return Err(ConnectorError::WebhookSignatureNotFound);
            },
        };
        match hexadecimal::decode(text) {
            Some(signature) => Ok(signature),
            None => Err(ConnectorError::WebhookSourceVerificationFailed),
        }
    }

    fn get_webhook_source_verification_message(&self, headers: &HeaderMap, body: &[u8]) -> (r:
        Result<Vec<u8>, ConnectorError>) {
        let elements = get_signature_elements_from_header(headers)?;
        let mut key: Vec<u8> = Vec::new();
        key.push(0x74);
        assert(key@ == timestamp_key());
        let timestamp = match find_value(&elements, &key) {
            Some(timestamp) => timestamp,
            None => {
                return Err(ConnectorError::WebhookSignatureNotFound);
            },
        };
        let mut message: Vec<u8> = Vec::new();
        let mut index: usize = 0;
        while index < timestamp.len()
            invariant
                index <= timestamp.len(),
                message@ == timestamp@.take(index as int),
            decreases timestamp.len() - index,
        {
            message.push(timestamp[index]);
            index = index + 1;
        }
        assert(timestamp@.take(index as int) == timestamp@);
        message.push(0x2e);
        let mut index: usize = 0;
        while index < body.len()
            invariant
                index <= body.len(),
                message@ == timestamp@ + seq![0x2eu8] + body@.take(index as int),
            decreases body.len() - index,
        {
            message.push(body[index]);
            index = index + 1;
        }
        assert(body@.take(index as int) == body@);
        Ok(message)
    }

    fn get_webhook_source_verification_merchant_secret_key(&self, merchant_id: &str) -> (r: String) {
        let mut key = String::from_str("whsec_verification_");
        key.append("stripe");
        key.append("_");
        key.append(merchant_id);
        key
    }

    fn get_webhook_source_verification_merchant_secret(
        &self,
        found: Result<Vec<u8>, StorageError>,
    ) -> (r: Result<Vec<u8>, ConnectorError>) {
        match found {
            Ok(secret) => Ok(secret),
            Err(_) => Err(ConnectorError::WebhookVerificationSecretNotFound),
        }
    }

    fn get_webhook_object_reference_id(&self, body: &[u8]) -> (r: Result<String, ConnectorError>) {
        let event = match Json::parse(body) {
            Some(event) => event,
            None => {
                return Err(ConnectorError::WebhookReferenceIdNotFound);
            },
        };
        let object = get_object(&event);
        match get_text(object, "id") {
            Some(id) => Ok(id.clone()),
            None => Err(ConnectorError::WebhookReferenceIdNotFound),
        }
    }

    fn get_webhook_event_type(&self, body: &[u8]) -> (r: Result<
        IncomingWebhookEvent,
        ConnectorError,
    >) {
        match Json::parse(body) {
            Some(event) => classify_event(&event),
            None => Err(ConnectorError::WebhookEventTypeNotFound),
        }
    }

    fn get_webhook_resource_object(&self, body: &[u8]) -> (r: Result<Json, ConnectorError>) {
        let event = match Json::parse(body) {
            Some(event) => event,
            None => {
                return Err(ConnectorError::WebhookResourceObjectNotFound);
            },
        };
        let data = match event.take("data") {
            Some(data) => data,
            None => {
                return Err(ConnectorError::WebhookResourceObjectNotFound);
            },
        };
        match data.take("object") {
            Some(object) => Ok(object),
            None => Err(ConnectorError::WebhookResourceObjectNotFound),
        }
    }
}

/// Webhook verification is sound: for a request whose signature header gives
/// the timestamp `timestamp` and the signature `signature`, the verifier
/// accepts exactly where `signature` is the HMAC-SHA256, under the secret, of
/// the timestamp, a period and the body.
pub proof fn verification_accepts_the_code_of_the_message(
    header: Option<Seq<u8>>,
    body: Seq<u8>,
    secret: Seq<u8>,
    timestamp: Seq<u8>,
    signature: Seq<u8>,
)
    requires
        source_signature(header) == Ok::<Seq<u8>, ConnectorError>(signature),
        header_elements(header) is Ok,
        value_of(header_elements(header)->Ok_0, timestamp_key()) == Some(timestamp),
    ensures
        stripe_verdict(header, body, secret) is Ok <==> verifies(
            secret,
            signature,
            timestamp + seq![0x2eu8] + body,
        ),
        stripe_verdict(header, body, secret) is Err ==> stripe_verdict(header, body, secret) == Err::<
            (),
            ConnectorError,
        >(ConnectorError::WebhookSourceVerificationFailed),
{
}

/// A webhook is accepted under one signature at most: of two requests that
/// agree in timestamp, body and secret and differ in the signature they
/// carry, one at least is refused.
pub proof fn verification_refuses_a_changed_signature(
    header: Option<Seq<u8>>,
    changed: Option<Seq<u8>>,
    body: Seq<u8>,
    secret: Seq<u8>,
)
    requires
        source_message(header, body) == source_message(changed, body),
        source_signature(header) != source_signature(changed),
        stripe_verdict(header, body, secret) is Ok,
    ensures
        stripe_verdict(changed, body, secret) is Err,
{
}

/// The verdict on a webhook of Stripe is the verdict on what its signature
/// header and its body give.
pub proof fn stripe_verdict_is_the_verdict_on_the_request(
    headers: HeaderMap,
    body: Seq<u8>,
    secret: Seq<u8>,
)
    ensures
        source_verdict(
            Stripe.source_verification_algorithm(headers, body),
            Stripe.source_verification_signature(headers, body),
            Stripe.source_verification_message(headers, body),
            secret,
        ) == stripe_verdict(header_value(headers, SIGNATURE_HEADER@), body, secret),
{
}

/// A webhook whose timestamp or body was changed is refused, unless the
/// changed message has the same HMAC-SHA256 under the secret as the message
/// that was signed.
pub proof fn verification_refuses_a_changed_message(
    header: Option<Seq<u8>>,
    body: Seq<u8>,
    changed_header: Option<Seq<u8>>,
    changed_body: Seq<u8>,
    secret: Seq<u8>,
)
    requires
        stripe_verdict(header, body, secret) is Ok,
        source_signature(changed_header) == source_signature(header),
        source_message(changed_header, changed_body) is Ok,
        hmac_sha256(secret, source_message(changed_header, changed_body)->Ok_0) != hmac_sha256(
            secret,
            source_message(header, body)->Ok_0,
        ),
    ensures
        stripe_verdict(changed_header, changed_body, secret) == Err::<(), ConnectorError>(
            ConnectorError::WebhookSourceVerificationFailed,
        ),
{
}

/// Two parts that hold no separator, joined by one, are split into the two.
proof fn two_parts_are_split_apart(first: Seq<u8>, second: Seq<u8>, separator: u8)
    requires
        forall|i: int| 0 <= i < first.len() ==> first[i] != separator,
        forall|i: int| 0 <= i < second.len() ==> second[i] != separator,
    ensures
        split(first + seq![separator] + second, separator) == seq![first, second],
{
    let joined = first + seq![separator] + second;
    first_position_is_unique(joined, separator, first.len() as int);
    first_position_is_unique(second, separator, second.len() as int);
    assert(joined.take(first.len() as int) == first);
    assert(joined.skip(first.len() as int + 1) == second);
    assert(split(second, separator) == seq![second]);
    assert(seq![first] + seq![second] == seq![first, second]);
}

/// A timestamp is a text that is not empty and holds no comma.
pub open spec fn is_timestamp(timestamp: Seq<u8>) -> bool {
    &&& timestamp.len() > 0
    &&& is_text(timestamp)
    &&& forall|i: int| 0 <= i < timestamp.len() ==> timestamp[i] != 0x2c
}

/// The signature header that carries a timestamp and a signature:
/// `t=<timestamp>,v1=<signature in hexadecimal>`.
pub open spec fn signature_header(timestamp: Seq<u8>, signature: Seq<u8>) -> Seq<u8> {
    (seq![0x74u8, 0x3du8] + timestamp) + seq![0x2cu8] + (seq![0x76u8, 0x31u8, 0x3du8]
        + hexadecimal::encoded(signature))
}

/// A signature header is read as it was written: it gives its timestamp and
/// its signature again.
pub proof fn a_signature_header_is_read_as_written(
    timestamp: Seq<u8>,
    signature: Seq<u8>,
    body: Seq<u8>,
)
    requires
        is_timestamp(timestamp),
        signature.len() > 0,
    ensures
        source_signature(Some(signature_header(timestamp, signature))) == Ok::<
            Seq<u8>,
            ConnectorError,
        >(signature),
        source_message(Some(signature_header(timestamp, signature)), body) == Ok::<
            Seq<u8>,
            ConnectorError,
        >(timestamp + seq![0x2eu8] + body),
{
    let text = hexadecimal::encoded(signature);
    hexadecimal::encoded_text_stands_for_the_bytes(signature);
    let first = seq![0x74u8, 0x3du8] + timestamp;
    let second = seq![0x76u8, 0x31u8, 0x3du8] + text;
    let header = signature_header(timestamp, signature);
    assert forall|i: int| 0 <= i < text.len() implies 0x30 <= #[trigger] text[i] <= 0x66 by {
        assert(hexadecimal::digit_value(text[i]) is Some);
    }
    assert forall|i: int| 0 <= i < first.len() implies first[i] != 0x2c by {
        if i >= 2 {
            assert(first[i] == timestamp[i - 2]);
        }
    }
    assert forall|i: int| 0 <= i < second.len() implies second[i] != 0x2c by {
        if i >= 3 {
            assert(second[i] == text[i - 3]);
        }
    }
    two_parts_are_split_apart(first, second, 0x2c);
    assert(header == first + seq![0x2cu8] + second);
    assert forall|i: int| 0 <= i < header.len() implies 32 <= #[trigger] header[i] < 127
        || header[i] == 9 by {
        if i < first.len() {
            if i >= 2 {
                assert(header[i] == timestamp[i - 2]);
            }
        } else if i > first.len() {
            let j = i - first.len() - 1;
            assert(header[i] == second[j]);
            if j >= 3 {
                assert(second[j] == text[j - 3]);
            }
        }
    }
    first_position_is_unique(first, 0x3d, 1);
    assert(first.take(1) == timestamp_key());
    assert(first.skip(2) == timestamp);
    assert(key_value(first) == Some((timestamp_key(), timestamp)));
    first_position_is_unique(second, 0x3d, 2);
    assert(second.take(2) == signature_key());
    assert(second.skip(3) == text);
    assert(key_value(second) == Some((signature_key(), text)));
    let parts = split(header, 0x2c);
    let elements = parts.map_values(|part: Seq<u8>| key_value(part)->0);
    assert(elements == seq![(timestamp_key(), timestamp), (signature_key(), text)]);
    assert(timestamp_key().len() != signature_key().len());
    assert(well_formed(elements));
    assert(signature_elements(header) == Ok::<Seq<(Seq<u8>, Seq<u8>)>, ConnectorError>(elements));
    reveal_with_fuel(value_of, 3);
    assert(elements.drop_first() == seq![(signature_key(), text)]);
    assert(value_of(elements, timestamp_key()) == Some(timestamp));
    assert(value_of(elements, signature_key()) == Some(text));
}

/// Webhook verification is sound, for every secret, timestamp, body and
/// signature: the webhook that carries the timestamp and the signature in
/// its header is accepted exactly where the signature verifies for the
/// message made of the timestamp, a period and the body; and, within what the
/// digest takes, that is exactly where the signature is the HMAC-SHA256 of
/// that message under the secret.
pub proof fn verification_is_sound(
    secret: Seq<u8>,
    timestamp: Seq<u8>,
    body: Seq<u8>,
    signature: Seq<u8>,
)
    requires
        is_timestamp(timestamp),
        signature.len() > 0,
    ensures
        stripe_verdict(Some(signature_header(timestamp, signature)), body, secret) is Ok
            <==> verifies(secret, signature, timestamp + seq![0x2eu8] + body),
        secret.len() <= MAX_INPUT_LEN && (timestamp + seq![0x2eu8] + body).len() <= MAX_INPUT_LEN
            ==> (stripe_verdict(Some(signature_header(timestamp, signature)), body, secret) is Ok
            <==> hmac_sha256(secret, timestamp + seq![0x2eu8] + body) == signature),
        stripe_verdict(Some(signature_header(timestamp, signature)), body, secret) is Err
            ==> stripe_verdict(Some(signature_header(timestamp, signature)), body, secret) == Err::<
            (),
            ConnectorError,
        >(ConnectorError::WebhookSourceVerificationFailed),
{
    a_signature_header_is_read_as_written(timestamp, signature, body);
}

/// Stripe's algorithm does not depend on the request: whatever the headers
/// and the body hold, it is HMAC-SHA256, so that no header can have a weaker
/// one chosen.
pub proof fn the_algorithm_does_not_depend_on_the_request(headers: HeaderMap, body: Seq<u8>)
    ensures
        Stripe.source_verification_algorithm(headers, body) == Ok::<
            SignatureAlgorithm,
            ConnectorError,
        >(SignatureAlgorithm::HmacSha256),
{
}

} // verus!
