//! The two forms in which a signed response is stored and exchanged: a record
//! with the ciphersuite under an old and a new name, and a map of strings.

use vstd::prelude::*;
use vstd::slice::slice_to_vec;
use crate::ciphersuite::Ciphersuite;
use crate::decimal::{
    decimal_digits, format_u64, lemma_decimal_round_trip, parse_numeral, parse_u64,
};
use crate::epoch::Epoch;
use crate::error::{ErrorView, PlexiError};
use crate::fields::Fields;
use crate::hexcode::{
    decode_hex, encode_hex, hex_decoded, hex_encoded, is_hex_text, lemma_hex_round_trip,
};
use crate::response::{optional_bytes, ResponseView, SignatureResponse};

verus! {

/// The one ciphersuite of a record that may name it twice: the value under
/// the current name if there is one, else the value under the old name.
pub open spec fn merged_suite(current: Option<Ciphersuite>, old: Option<Ciphersuite>) -> Option<
    Ciphersuite,
> {
    match current {
        Some(c) => Some(c),
        None => old,
    }
}

/// Resolves the two names of a ciphersuite into one value.
pub fn merge_suite(current: Option<Ciphersuite>, old: Option<Ciphersuite>) -> (suite: Option<
    Ciphersuite,
>)
    ensures
        suite == merged_suite(current, old),
{
    match current {
        Some(c) => Some(c),
        None => old,
    }
}

/// A signed response as it is exchanged. `version` is the old name of
/// `ciphersuite`; either may be absent. The bytes that were signed, if the
/// record holds them, are hexadecimal text.
pub struct SignatureResponseRecord {
    pub version: Option<Ciphersuite>,
    pub ciphersuite: Option<Ciphersuite>,
    pub namespace: String,
    pub timestamp: u64,
    pub epoch: Epoch,
    pub digest: Vec<u8>,
    pub signature: Vec<u8>,
    pub key_id: Option<u8>,
    pub serialized_message: Option<String>,
}

/// The response that a record stands for, or why it stands for none: a
/// record without a ciphersuite under either name misses that parameter; one
/// whose signed bytes are no hexadecimal text has a bad one.
pub open spec fn response_of_record(record: SignatureResponseRecord) -> Result<
    ResponseView,
    ErrorView,
> {
    match merged_suite(record.ciphersuite, record.version) {
        None => Err(ErrorView::MissingParameter("ciphersuite"@)),
        Some(suite) => {
            if record.serialized_message is Some && !is_hex_text(
                record.serialized_message->Some_0@,
            ) {
                Err(ErrorView::BadParameter("serialized_message"@))
            } else {
                Ok(
                    ResponseView {
                        version: suite,
                        ciphersuite: suite,
                        namespace: record.namespace@,
                        timestamp: record.timestamp,
                        epoch: record.epoch@,
                        digest: record.digest@,
                        signature: record.signature@,
                        key_id: record.key_id,
                        serialized_message: match record.serialized_message {
                            Some(text) => Some(hex_decoded(text@)),
                            None => None,
                        },
                    },
                )
            }
        },
    }
}

/// Reads a response from a record.
pub fn response_from_record(record: SignatureResponseRecord) -> (r: Result<
    SignatureResponse,
    PlexiError,
>)
    ensures
        match response_of_record(record) {
            Ok(view) => r is Ok && r->Ok_0@ == view,
            Err(e) => r is Err && r->Err_0@ == e,
        },
{
    let suite = match merge_suite(record.ciphersuite, record.version) {
        Some(suite) => suite,
        None => {
            return Err(PlexiError::missing_parameter("ciphersuite"));
        },
    };
    let serialized_message = match &record.serialized_message {
        Some(text) => match decode_hex(text.as_str()) {
            Some(bytes) => Some(bytes),
            None => {
                return Err(PlexiError::bad_parameter("serialized_message"));
            },
        },
        None => None,
    };
    Ok(
        SignatureResponse::new(
            &suite,
            &suite,
            record.namespace,
            record.timestamp,
            &record.epoch,
            record.digest,
            record.signature,
            record.key_id,
            serialized_message,
        ),
    )
}

/// Writes a response as a record. The ciphersuite goes under its current
/// name only.
pub fn response_to_record(response: &SignatureResponse) -> (record: SignatureResponseRecord)
    ensures
        record.version is None,
        record.ciphersuite == Some(response@.ciphersuite),
        record.namespace@ == response@.namespace,
        record.timestamp == response@.timestamp,
        record.epoch@ == response@.epoch,
        record.digest@ == response@.digest,
        record.signature@ == response@.signature,
        record.key_id == response@.key_id,
        record.serialized_message is Some <==> response@.serialized_message is Some,
        record.serialized_message is Some ==> record.serialized_message->Some_0@ == hex_encoded(
            response@.serialized_message->Some_0,
        ),
        response_of_record(record) == Ok::<ResponseView, ErrorView>(
            ResponseView { version: response@.ciphersuite, ..response@ },
        ),
{
    let serialized_message = match response.serialized_message() {
        Some(bytes) => Some(encode_hex(bytes.as_slice())),
        None => None,
    };
    SignatureResponseRecord {
        version: None,
        ciphersuite: Some(*response.ciphersuite()),
        namespace: String::from_str(response.namespace()),
        timestamp: response.timestamp(),
        epoch: *response.epoch(),
        digest: response.digest(),
        signature: slice_to_vec(response.signature_bytes()),
        key_id: response.key_id(),
        serialized_message,
    }
}

/// The value of a parameter that must be present. Its absence is reported
/// under the name `reported`.
pub open spec fn required_text(
    fields: Map<Seq<char>, Seq<char>>,
    name: Seq<char>,
    reported: Seq<char>,
) -> Result<Seq<char>, ErrorView> {
    if fields.contains_key(name) {
        Ok(fields[name])
    } else {
        Err(ErrorView::MissingParameter(reported))
    }
}

/// The value of a parameter that must be present and a numeral of at most
/// `max`. Its absence, and a value that is no such numeral, are reported
/// under the name `reported`.
pub open spec fn required_number(
    fields: Map<Seq<char>, Seq<char>>,
    name: Seq<char>,
    reported: Seq<char>,
    max: nat,
) -> Result<nat, ErrorView> {
    if !fields.contains_key(name) {
        Err(ErrorView::MissingParameter(reported))
    } else {
        match parse_numeral(fields[name], max) {
            Some(n) => Ok(n),
            None => Err(ErrorView::BadParameter(reported)),
        }
    }
}

/// The value of a parameter that must be present and hexadecimal text.
pub open spec fn required_bytes(fields: Map<Seq<char>, Seq<char>>, name: Seq<char>) -> Result<
    Seq<u8>,
    ErrorView,
> {
    if !fields.contains_key(name) {
        Err(ErrorView::MissingParameter(name))
    } else if !is_hex_text(fields[name]) {
        Err(ErrorView::BadParameter(name))
    } else {
        Ok(hex_decoded(fields[name]))
    }
}

/// The value of a parameter that, if present, must be a numeral of at most
/// 255.
pub open spec fn optional_byte(fields: Map<Seq<char>, Seq<char>>, name: Seq<char>) -> Result<
    Option<u8>,
    ErrorView,
> {
    if !fields.contains_key(name) {
        Ok(None)
    } else {
        match parse_numeral(fields[name], u8::MAX as nat) {
            Some(n) => Ok(Some(n as u8)),
            None => Err(ErrorView::BadParameter(name)),
        }
    }
}

/// The value of a parameter that, if present, must be hexadecimal text.
pub open spec fn optional_hex(fields: Map<Seq<char>, Seq<char>>, name: Seq<char>) -> Result<
    Option<Seq<u8>>,
    ErrorView,
> {
    if !fields.contains_key(name) {
        Ok(None)
    } else if !is_hex_text(fields[name]) {
        Err(ErrorView::BadParameter(name))
    } else {
        Ok(Some(hex_decoded(fields[name])))
    }
}

/// The report that a map of strings stands for, or the first thing wrong
/// with the map, its parameters taken in the order version, ciphersuite,
/// namespace, timestamp, epoch, digest, signature, key_id,
/// serialized_message. A fault of the ciphersuite is reported under the name
/// `version`.
pub open spec fn report_of_fields(fields: Map<Seq<char>, Seq<char>>) -> Result<
    ResponseView,
    ErrorView,
> {
    let version = required_number(fields, "version"@, "version"@, u32::MAX as nat);
    let ciphersuite = required_number(fields, "ciphersuite"@, "version"@, u32::MAX as nat);
    let namespace = required_text(fields, "namespace"@, "namespace"@);
    let timestamp = required_number(fields, "timestamp"@, "timestamp"@, u64::MAX as nat);
    let epoch = required_number(fields, "epoch"@, "epoch"@, u64::MAX as nat);
    let digest = required_bytes(fields, "digest"@);
    let signature = required_bytes(fields, "signature"@);
    let key_id = optional_byte(fields, "key_id"@);
    let serialized_message = optional_hex(fields, "serialized_message"@);
    if version is Err {
        Err(version->Err_0)
    } else if ciphersuite is Err {
        Err(ciphersuite->Err_0)
    } else if namespace is Err {
        Err(namespace->Err_0)
    } else if timestamp is Err {
        Err(timestamp->Err_0)
    } else if epoch is Err {
        Err(epoch->Err_0)
    } else if digest is Err {
        Err(digest->Err_0)
    } else if signature is Err {
        Err(signature->Err_0)
    } else if key_id is Err {
        Err(key_id->Err_0)
    } else if serialized_message is Err {
        Err(serialized_message->Err_0)
    } else {
        Ok(
            ResponseView {
                version: Ciphersuite::of_code(version->Ok_0 as u32),
                ciphersuite: Ciphersuite::of_code(ciphersuite->Ok_0 as u32),
                namespace: namespace->Ok_0,
                timestamp: timestamp->Ok_0 as u64,
                epoch: epoch->Ok_0 as u64,
                digest: digest->Ok_0,
                signature: signature->Ok_0,
                key_id: key_id->Ok_0,
                serialized_message: serialized_message->Ok_0,
            },
        )
    }
}

/// Reads a parameter that must be present.
fn get_text<'a>(fields: &'a Fields, name: &str, reported: &str) -> (r: Result<
    &'a String,
    PlexiError,
>)
    ensures
        match required_text(fields@, name@, reported@) {
            Ok(text) => r is Ok && r->Ok_0@ == text,
            Err(e) => r is Err && r->Err_0@ == e,
        },
{
    match fields.get(name) {
        Some(text) => Ok(text),
        None => Err(PlexiError::missing_parameter(reported)),
    }
}

/// Reads a parameter that must be present and a numeral of at most `max`.
fn get_number(fields: &Fields, name: &str, reported: &str, max: u64) -> (r: Result<
    u64,
    PlexiError,
>)
    ensures
        match required_number(fields@, name@, reported@, max as nat) {
            Ok(n) => r is Ok && r->Ok_0 == n,
            Err(e) => r is Err && r->Err_0@ == e,
        },
{
    match fields.get(name) {
        None => Err(PlexiError::missing_parameter(reported)),
        Some(text) => match parse_u64(text.as_str()) {
            Some(n) => {
                if n <= max {
                    Ok(n)
                } else {
                    Err(PlexiError::bad_parameter(reported))
                }
            },
            None => Err(PlexiError::bad_parameter(reported)),
        },
    }
}

/// Reads a parameter that must be present and hexadecimal text.
fn get_bytes(fields: &Fields, name: &str) -> (r: Result<Vec<u8>, PlexiError>)
    ensures
        match required_bytes(fields@, name@) {
            Ok(bytes) => r is Ok && r->Ok_0@ == bytes,
            Err(e) => r is Err && r->Err_0@ == e,
        },
{
    match fields.get(name) {
        None => Err(PlexiError::missing_parameter(name)),
        Some(text) => match decode_hex(text.as_str()) {
            Some(bytes) => Ok(bytes),
            None => Err(PlexiError::bad_parameter(name)),
        },
    }
}

/// Reads a parameter that, if present, must be a numeral of at most 255.
fn get_optional_byte(fields: &Fields, name: &str) -> (r: Result<Option<u8>, PlexiError>)
    ensures
        match optional_byte(fields@, name@) {
            Ok(b) => r is Ok && r->Ok_0 == b,
            Err(e) => r is Err && r->Err_0@ == e,
        },
{
    match fields.get(name) {
        None => Ok(None),
        Some(text) => match parse_u64(text.as_str()) {
            Some(n) => {
                if n <= 255 {
                    Ok(Some(n as u8))
                } else {
                    Err(PlexiError::bad_parameter(name))
                }
            },
            None => Err(PlexiError::bad_parameter(name)),
        },
    }
}

/// Reads a parameter that, if present, must be hexadecimal text.
fn get_optional_hex(fields: &Fields, name: &str) -> (r: Result<Option<Vec<u8>>, PlexiError>)
    ensures
        match optional_hex(fields@, name@) {
            Ok(b) => r is Ok && optional_bytes(r->Ok_0) == b,
            Err(e) => r is Err && r->Err_0@ == e,
        },
{
    match fields.get(name) {
        None => Ok(None),
        Some(text) => match decode_hex(text.as_str()) {
            Some(bytes) => Ok(Some(bytes)),
            None => Err(PlexiError::bad_parameter(name)),
        },
    }
}

/// Reads a report from a map of strings.
pub fn report_from_fields(fields: &Fields) -> (r: Result<SignatureResponse, PlexiError>)
    ensures
        match report_of_fields(fields@) {
            Ok(view) => r is Ok && r->Ok_0@ == view,
            Err(e) => r is Err && r->Err_0@ == e,
        },
{
    let version = match get_number(fields, "version", "version", 0xffff_ffff) {
        Ok(n) => Ciphersuite::from(n as u32),
        Err(e) => {
            return Err(e);
        },
    };
    let ciphersuite = match get_number(fields, "ciphersuite", "version", 0xffff_ffff) {
        Ok(n) => Ciphersuite::from(n as u32),
        Err(e) => {
            return Err(e);
        },
    };
    let namespace = match get_text(fields, "namespace", "namespace") {
        Ok(text) => text.clone(),
        Err(e) => {
            return Err(e);
        },
    };
    let timestamp = match get_number(fields, "timestamp", "timestamp", 0xffff_ffff_ffff_ffff) {
        Ok(n) => n,
        Err(e) => {
            return Err(e);
        },
    };
    let epoch = match get_number(fields, "epoch", "epoch", 0xffff_ffff_ffff_ffff) {
        Ok(n) => Epoch::new(n),
        Err(e) => {
            return Err(e);
        },
    };
    let digest = match get_bytes(fields, "digest") {
        Ok(bytes) => bytes,
        Err(e) => {
            return Err(e);
        },
    };
    let signature = match get_bytes(fields, "signature") {
        Ok(bytes) => bytes,
        Err(e) => {
            return Err(e);
        },
    };
    let key_id = match get_optional_byte(fields, "key_id") {
        Ok(id) => id,
        Err(e) => {
            return Err(e);
        },
    };
    let serialized_message = match get_optional_hex(fields, "serialized_message") {
        Ok(bytes) => bytes,
        Err(e) => {
            return Err(e);
        },
    };
    Ok(
        SignatureResponse::new(
            &version,
            &ciphersuite,
            namespace,
            timestamp,
            &epoch,
            digest,
            signature,
            key_id,
            serialized_message,
        ),
    )
}

/// The map of strings in which a report is kept: numbers as decimal
/// numerals, byte strings as hexadecimal text, and the two optional
/// parameters only where the report has them.
pub open spec fn fields_of_report(r: ResponseView) -> Map<Seq<char>, Seq<char>> {
    let required = Map::<Seq<char>, Seq<char>>::empty().insert(
        "version"@,
        decimal_digits(r.version.code() as nat),
    ).insert("ciphersuite"@, decimal_digits(r.ciphersuite.code() as nat)).insert(
        "namespace"@,
        r.namespace,
    ).insert("timestamp"@, decimal_digits(r.timestamp as nat)).insert(
        "epoch"@,
        decimal_digits(r.epoch as nat),
    ).insert("digest"@, hex_encoded(r.digest)).insert("signature"@, hex_encoded(r.signature));
    let with_key = match r.key_id {
        Some(id) => required.insert("key_id"@, decimal_digits(id as nat)),
        None => required,
    };
    match r.serialized_message {
        Some(bytes) => with_key.insert("serialized_message"@, hex_encoded(bytes)),
        None => with_key,
    }
}

/// The nine names under which a report is kept differ from one another.
pub proof fn lemma_report_names_differ()
    ensures
        "version"@ != "ciphersuite"@,
        "version"@ != "namespace"@,
        "version"@ != "timestamp"@,
        "version"@ != "epoch"@,
        "version"@ != "digest"@,
        "version"@ != "signature"@,
        "version"@ != "key_id"@,
        "version"@ != "serialized_message"@,
        "ciphersuite"@ != "namespace"@,
        "ciphersuite"@ != "timestamp"@,
        "ciphersuite"@ != "epoch"@,
        "ciphersuite"@ != "digest"@,
        "ciphersuite"@ != "signature"@,
        "ciphersuite"@ != "key_id"@,
        "ciphersuite"@ != "serialized_message"@,
        "namespace"@ != "timestamp"@,
        "namespace"@ != "epoch"@,
        "namespace"@ != "digest"@,
        "namespace"@ != "signature"@,
        "namespace"@ != "key_id"@,
        "namespace"@ != "serialized_message"@,
        "timestamp"@ != "epoch"@,
        "timestamp"@ != "digest"@,
        "timestamp"@ != "signature"@,
        "timestamp"@ != "key_id"@,
        "timestamp"@ != "serialized_message"@,
        "epoch"@ != "digest"@,
        "epoch"@ != "signature"@,
        "epoch"@ != "key_id"@,
        "epoch"@ != "serialized_message"@,
        "digest"@ != "signature"@,
        "digest"@ != "key_id"@,
        "digest"@ != "serialized_message"@,
        "signature"@ != "key_id"@,
        "signature"@ != "serialized_message"@,
        "key_id"@ != "serialized_message"@,
{
    reveal_strlit("version");
    reveal_strlit("ciphersuite");
    reveal_strlit("namespace");
    reveal_strlit("timestamp");
    reveal_strlit("epoch");
    reveal_strlit("digest");
    reveal_strlit("signature");
    reveal_strlit("key_id");
    reveal_strlit("serialized_message");
    assert("version"@.len() == 7);
    assert("ciphersuite"@.len() == 11);
    assert("namespace"@.len() == 9);
    assert("timestamp"@.len() == 9);
    assert("epoch"@.len() == 5);
    assert("digest"@.len() == 6);
    assert("signature"@.len() == 9);
    assert("key_id"@.len() == 6);
    assert("serialized_message"@.len() == 18);
    assert("namespace"@[0] != "timestamp"@[0]);
    assert("namespace"@[0] != "signature"@[0]);
    assert("timestamp"@[0] != "signature"@[0]);
    assert("digest"@[0] != "key_id"@[0]);
}

/// A report that is written as a map of strings and read again is
/// unchanged, provided that neither of its ciphersuites is an `Unknown`
/// with the code of a known one.
pub proof fn lemma_report_fields_round_trip(r: ResponseView)
    requires
        r.version.is_canonical(),
        r.ciphersuite.is_canonical(),
    ensures
        report_of_fields(fields_of_report(r)) == Ok::<ResponseView, ErrorView>(r),
{
    lemma_report_names_differ();
    lemma_decimal_round_trip(r.version.code() as nat);
    lemma_decimal_round_trip(r.ciphersuite.code() as nat);
    lemma_decimal_round_trip(r.timestamp as nat);
    lemma_decimal_round_trip(r.epoch as nat);
    lemma_hex_round_trip(r.digest);
    lemma_hex_round_trip(r.signature);
    let fields = fields_of_report(r);
    assert(required_number(fields, "version"@, "version"@, u32::MAX as nat) == Ok::<
        nat,
        ErrorView,
    >(r.version.code() as nat));
    assert(required_number(fields, "ciphersuite"@, "version"@, u32::MAX as nat) == Ok::<
        nat,
        ErrorView,
    >(r.ciphersuite.code() as nat));
    assert(required_text(fields, "namespace"@, "namespace"@) == Ok::<Seq<char>, ErrorView>(
        r.namespace,
    ));
    assert(required_number(fields, "timestamp"@, "timestamp"@, u64::MAX as nat) == Ok::<
        nat,
        ErrorView,
    >(r.timestamp as nat));
    assert(required_number(fields, "epoch"@, "epoch"@, u64::MAX as nat) == Ok::<nat, ErrorView>(
        r.epoch as nat,
    ));
    assert(required_bytes(fields, "digest"@) == Ok::<Seq<u8>, ErrorView>(r.digest));
    assert(required_bytes(fields, "signature"@) == Ok::<Seq<u8>, ErrorView>(r.signature));
    match r.key_id {
        Some(id) => {
            lemma_decimal_round_trip(id as nat);
        },
        None => {},
    }
    assert(optional_byte(fields, "key_id"@) == Ok::<Option<u8>, ErrorView>(r.key_id));
    match r.serialized_message {
        Some(bytes) => {
            lemma_hex_round_trip(bytes);
        },
        None => {},
    }
    assert(optional_hex(fields, "serialized_message"@) == Ok::<Option<Seq<u8>>, ErrorView>(
        r.serialized_message,
    ));
}

/// Writes a report as a map of strings.
pub fn report_to_fields(report: &SignatureResponse) -> (fields: Fields)
    ensures
        fields@ == fields_of_report(report@),
{
    let mut fields = Fields::new();
    let version: u32 = u32::from(*report.version());
    let ciphersuite: u32 = u32::from(*report.ciphersuite());
    fields.insert(String::from_str("version"), format_u64(version as u64));
    fields.insert(String::from_str("ciphersuite"), format_u64(ciphersuite as u64));
    fields.insert(String::from_str("namespace"), String::from_str(report.namespace()));
    fields.insert(String::from_str("timestamp"), format_u64(report.timestamp()));
    fields.insert(String::from_str("epoch"), report.epoch().to_string());
    fields.insert(String::from_str("digest"), encode_hex(report.digest().as_slice()));
    fields.insert(String::from_str("signature"), encode_hex(report.signature_bytes()));
    match report.key_id() {
        Some(id) => {
            fields.insert(String::from_str("key_id"), format_u64(id as u64));
        },
        None => {},
    }
    match report.serialized_message() {
        Some(bytes) => {
            fields.insert(String::from_str("serialized_message"), encode_hex(bytes.as_slice()));
        },
        None => {},
    }
    fields
}

} // verus!
