//! What an auditor publishes of itself: its keys and the logs it follows; and
//! the name under which an append-only proof is found.

use vstd::prelude::*;
use crate::decimal::{decimal_digits, format_u64, parse_numeral, parse_u64};
use crate::error::{ErrorView, PlexiError};
use crate::fields::Fields;
use crate::hexcode::{decode_hex, encode_hex, hex_decoded, hex_encoded, is_hex_text};

verus! {

/// The number of bytes of a digest of a log.
pub const DIGEST_LENGTH: usize = 32;

/// A public key of an auditor, as hexadecimal text, and the time from which
/// it is in use.
#[derive(Debug, PartialEq, Eq, PartialOrd, Ord)]
pub struct KeyInfo {
    public_key: String,
    not_before: u64,
}

impl View for KeyInfo {
    type V = (Seq<char>, u64);

    closed spec fn view(&self) -> (Seq<char>, u64) {
        (self.public_key@, self.not_before)
    }
}

impl DeepView for KeyInfo {
    type V = (Seq<char>, u64);

    open spec fn deep_view(&self) -> (Seq<char>, u64) {
        self@
    }
}

impl Clone for KeyInfo {
    fn clone(&self) -> (copy: Self)
        ensures
            copy@ == self@,
    {
        Self { public_key: self.public_key.clone(), not_before: self.not_before }
    }
}

/// The identifier of the key that `public_key` is the hexadecimal text of:
/// the last byte of the key. Text that is no hexadecimal text, and the empty
/// text, have none.
pub open spec fn key_id_of(public_key: Seq<char>) -> Option<u8> {
    if is_hex_text(public_key) && public_key.len() > 0 {
        Some(hex_decoded(public_key).last())
    } else {
        None
    }
}

impl KeyInfo {
    pub fn new(public_key: &str, not_before: u64) -> (key: Self)
        ensures
            key@ == (public_key@, not_before),
    {
        Self { public_key: String::from_str(public_key), not_before }
    }

    pub fn public_key(&self) -> (s: &String)
        ensures
            s@ == self@.0,
    {
        &self.public_key
    }

    pub fn not_before(&self) -> (t: u64)
        ensures
            t == self@.1,
    {
        self.not_before
    }

    /// The identifier of the key, where the key has one.
    pub fn try_key_id(&self) -> (id: Option<u8>)
        ensures
            id == key_id_of(self@.0),
    {
        match decode_hex(self.public_key.as_str()) {
            Some(bytes) => {
                if bytes.len() > 0 {
                    Some(bytes[bytes.len() - 1])
                } else {
                    None
                }
            },
            None => None,
        }
    }

    /// The identifier of a key that is stored as hexadecimal text and is not
    /// empty.
    pub fn key_id(&self) -> (id: u8)
        requires
            key_id_of(self@.0) is Some,
        ensures
            Some(id) == key_id_of(self@.0),
    {
        match self.try_key_id() {
            Some(id) => id,
            None => unreached(),
        }
    }

    /// The map of strings in which the key is kept.
    pub fn to_fields(&self) -> (fields: Fields)
        ensures
            fields@ == Map::<Seq<char>, Seq<char>>::empty().insert(
                "public_key"@,
                self@.0,
            ).insert("not_before"@, decimal_digits(self@.1 as nat)),
    {
        let mut fields = Fields::new();
        fields.insert(String::from_str("public_key"), self.public_key.clone());
        fields.insert(String::from_str("not_before"), format_u64(self.not_before));
        fields
    }

    /// Reads a key from a map of strings. The key's text is taken as it is;
    /// the time must be a numeral.
    pub fn from_fields(fields: &Fields) -> (r: Result<Self, PlexiError>)
        ensures
            match key_of_fields(fields@) {
                Ok(key) => r is Ok && r->Ok_0@ == key,
                Err(e) => r is Err && r->Err_0@ == e,
            },
    {
        let public_key = match fields.get("public_key") {
            Some(text) => text.clone(),
            None => {
                return Err(PlexiError::missing_parameter("public_key"));
            },
        };
        let not_before = match fields.get("not_before") {
            Some(text) => match parse_u64(text.as_str()) {
                Some(n) => n,
                None => {
                    return Err(PlexiError::bad_parameter("not_before"));
                },
            },
            None => {
                return Err(PlexiError::missing_parameter("not_before"));
            },
        };
        Ok(Self { public_key, not_before })
    }
}

/// The key that a map of strings stands for, or the first thing wrong with
/// the map.
pub open spec fn key_of_fields(fields: Map<Seq<char>, Seq<char>>) -> Result<
    (Seq<char>, u64),
    ErrorView,
> {
    if !fields.contains_key("public_key"@) {
        Err(ErrorView::MissingParameter("public_key"@))
    } else if !fields.contains_key("not_before"@) {
        Err(ErrorView::MissingParameter("not_before"@))
    } else {
        match parse_numeral(fields["not_before"@], u64::MAX as nat) {
            Some(n) => Ok((fields["public_key"@], n as u64)),
            None => Err(ErrorView::BadParameter("not_before"@)),
        }
    }
}

/// What an auditor publishes of itself.
#[derive(Debug)]
pub struct Configuration {
    keys: Vec<KeyInfo>,
    logs: Vec<String>,
}

/// The first place in `keys` whose key has the identifier `key_id`, if any
/// has.
pub open spec fn first_key_with_id(keys: Seq<(Seq<char>, u64)>, key_id: u8) -> Option<int>
    decreases keys.len(),
{
    if keys.len() == 0 {
        None
    } else if key_id_of(keys[0].0) == Some(key_id) {
        Some(0)
    } else {
        match first_key_with_id(keys.drop_first(), key_id) {
            Some(i) => Some(i + 1),
            None => None,
        }
    }
}

/// The place that `first_key_with_id` gives is the first one whose key has
/// the identifier; where it gives none, no key has it.
pub proof fn lemma_first_key_with_id(keys: Seq<(Seq<char>, u64)>, key_id: u8)
    ensures
        match first_key_with_id(keys, key_id) {
            Some(i) => 0 <= i < keys.len() && key_id_of(keys[i].0) == Some(key_id) && forall|
                j: int,
            |
                0 <= j < i ==> key_id_of(#[trigger] keys[j].0) != Some(key_id),
            None => forall|j: int|
                0 <= j < keys.len() ==> key_id_of(#[trigger] keys[j].0) != Some(key_id),
        },
    decreases keys.len(),
{
    if keys.len() > 0 && key_id_of(keys[0].0) != Some(key_id) {
        let rest = keys.drop_first();
        lemma_first_key_with_id(rest, key_id);
        match first_key_with_id(rest, key_id) {
            Some(i) => {
                assert forall|j: int| 0 <= j < i + 1 implies key_id_of(#[trigger] keys[j].0)
                    != Some(key_id) by {
                    if j > 0 {
                        assert(keys[j] == rest[j - 1]);
                    }
                }
            },
            None => {
                assert forall|j: int| 0 <= j < keys.len() implies key_id_of(
                    #[trigger] keys[j].0,
                ) != Some(key_id) by {
                    if j > 0 {
                        assert(keys[j] == rest[j - 1]);
                    }
                }
            },
        }
    }
}

impl Configuration {
    /// The keys of the configuration, in their order.
    pub closed spec fn spec_keys(&self) -> Seq<(Seq<char>, u64)> {
        self.keys.deep_view()
    }

    /// The logs of the configuration, in their order.
    pub closed spec fn spec_logs(&self) -> Seq<Seq<char>> {
        self.logs.deep_view()
    }

    pub fn new(keys: &[KeyInfo], logs: &[String]) -> (config: Self)
        ensures
            config.spec_keys() == keys.deep_view(),
            config.spec_logs() == logs.deep_view(),
    {
        let mut own_keys: Vec<KeyInfo> = Vec::new();
        let mut i: usize = 0;
        while i < keys.len()
            invariant
                i <= keys.len(),
                own_keys.len() == i,
                forall|k: int| 0 <= k < i ==> own_keys[k]@ == keys[k]@,
            decreases keys.len() - i,
        {
            own_keys.push(keys[i].clone());
            i += 1;
        }
        assert(own_keys.deep_view() =~= keys.deep_view());
        let mut own_logs: Vec<String> = Vec::new();
        let mut j: usize = 0;
        while j < logs.len()
            invariant
                j <= logs.len(),
                own_logs.len() == j,
                forall|k: int| 0 <= k < j ==> own_logs[k]@ == logs[k]@,
            decreases logs.len() - j,
        {
            own_logs.push(logs[j].clone());
            j += 1;
        }
        assert(own_logs.deep_view() =~= logs.deep_view());
        Self { keys: own_keys, logs: own_logs }
    }

    pub fn keys(&self) -> (keys: &Vec<KeyInfo>)
        ensures
            keys.deep_view() == self.spec_keys(),
    {
        &self.keys
    }

    pub fn logs(&self) -> (logs: &Vec<String>)
        ensures
            logs.deep_view() == self.spec_logs(),
    {
        &self.logs
    }

    /// The first key with the identifier `key_id`. A key whose text is no
    /// hexadecimal text has no identifier and is passed over.
    pub fn find_key(&self, key_id: u8) -> (key: Option<&KeyInfo>)
        ensures
            match first_key_with_id(self.spec_keys(), key_id) {
                Some(i) => key is Some && key->Some_0@ == self.spec_keys()[i],
                None => key is None,
            },
    {
        let ghost all = self.keys.deep_view();
        let mut i: usize = 0;
        assert(all.subrange(0, all.len() as int) =~= all);
        while i < self.keys.len()
            invariant
                i <= self.keys.len(),
                all == self.keys.deep_view(),
                match first_key_with_id(all.subrange(i as int, all.len() as int), key_id) {
                    Some(k) => first_key_with_id(all, key_id) == Some(k + i),
                    None => first_key_with_id(all, key_id) is None,
                },
            decreases self.keys.len() - i,
        {
            let key = &self.keys[i];
            let ghost rest = all.subrange(i as int, all.len() as int);
            assert(rest[0] == key@);
            assert(rest.drop_first() =~= all.subrange(i + 1, all.len() as int));
            match key.try_key_id() {
                Some(id) => {
                    if id == key_id {
                        return Some(key);
                    }
                },
                None => {},
            }
            i += 1;
        }
        None
    }
}

/// The name under which an append-only proof is found: the epoch that it
/// leads to, the digest before and the digest at that epoch.
#[derive(Clone, Copy, Debug)]
pub struct AuditBlobIdentifier {
    pub epoch: u64,
    pub previous_hash: [u8; 32],
    pub current_hash: [u8; 32],
}

/// The text of a blob's name: the epoch and the two digests in hexadecimal,
/// with slashes between.
pub open spec fn blob_name(epoch: u64, previous_hash: Seq<u8>, current_hash: Seq<u8>) -> Seq<
    char,
> {
    decimal_digits(epoch as nat) + seq!['/'] + hex_encoded(previous_hash) + seq!['/']
        + hex_encoded(current_hash)
}

/// A digest as an array, where it has the length of one.
pub fn digest_array(digest: &[u8]) -> (r: Option<[u8; 32]>)
    ensures
        r is Some <==> digest@.len() == DIGEST_LENGTH,
        r is Some ==> r->Some_0@ == digest@,
{
    if digest.len() != DIGEST_LENGTH {
        return None;
    }
    let mut a: [u8; 32] = [0u8; 32];
    let mut i: usize = 0;
    while i < 32
        invariant
            i <= 32,
            digest@.len() == 32,
            forall|j: int| 0 <= j < i ==> a@[j] == digest@[j],
        decreases 32 - i,
    {
        a[i] = digest[i];
        i += 1;
    }
    assert(a@ =~= digest@);
    Some(a)
}

impl AuditBlobIdentifier {
    /// The identifier of the proof that leads from `previous_hash` to
    /// `current_hash` at `epoch`. A digest of another length than 32 bytes is
    /// a bad parameter, reported under the name `digest`.
    pub fn new(epoch: u64, previous_hash: &[u8], current_hash: &[u8]) -> (r: Result<
        Self,
        PlexiError,
    >)
        ensures
            previous_hash@.len() == DIGEST_LENGTH && current_hash@.len() == DIGEST_LENGTH ==> r is Ok
                && r->Ok_0.epoch == epoch && r->Ok_0.previous_hash@ == previous_hash@
                && r->Ok_0.current_hash@ == current_hash@,
            previous_hash@.len() != DIGEST_LENGTH || current_hash@.len() != DIGEST_LENGTH ==> r is Err
                && r->Err_0@ == ErrorView::BadParameter("digest"@),
    {
        let current = match digest_array(current_hash) {
            Some(a) => a,
            None => {
                return Err(PlexiError::bad_parameter("digest"));
            },
        };
        let previous = match digest_array(previous_hash) {
            Some(a) => a,
            None => {
                return Err(PlexiError::bad_parameter("digest"));
            },
        };
        Ok(AuditBlobIdentifier { epoch, previous_hash: previous, current_hash: current })
    }

    /// The text of the name.
    pub fn to_string(&self) -> (s: String)
        ensures
            s@ == blob_name(self.epoch, self.previous_hash@, self.current_hash@),
    {
        proof {
            reveal_strlit("/");
            assert("/"@ =~= seq!['/']);
        }
        let previous = encode_hex(self.previous_hash.as_slice());
        let current = encode_hex(self.current_hash.as_slice());
        format_u64(self.epoch).concat("/").concat(previous.as_str()).concat("/").concat(
            current.as_str(),
        )
    }
}

} // verus!
