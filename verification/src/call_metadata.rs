//! gRPC request metadata: what its keys and values may be, and how entries get in.
use crate::model;
use vstd::prelude::*;

verus! {

#[verifier::external_type_specification]
#[verifier::external_body]
pub struct ExMetadataMap(tonic::metadata::MetadataMap);

#[verifier::external_type_specification]
#[verifier::external_body]
#[verifier::reject_recursive_types(T)]
pub struct ExHeaderMap<T>(http::HeaderMap<T>);

#[verifier::external_type_specification]
#[verifier::external_body]
pub struct ExHeaderValue(http::HeaderValue);

/// The metadata of a request: the values under each key, in bytes.
pub type Entries = Map<Seq<char>, Seq<Seq<u8>>>;

/// What a `MetadataMap` holds.
pub uninterp spec fn metadata_entries(metadata: tonic::metadata::MetadataMap) -> Entries;

/// How many keys there is always room for in metadata, however they happen to be spread.
pub const KEY_ROOM: usize = 6554;

/// Whether `c` may stand in a metadata value: any printable character, and the tab.
pub open spec fn is_value_char(c: char) -> bool {
    c == '\t' || (c >= ' ' && c != '\u{7f}')
}

/// Whether a text can be a metadata value.
pub open spec fn is_value_text(text: Seq<char>) -> bool {
    forall|i: int| 0 <= i < text.len() ==> is_value_char(#[trigger] text[i])
}

/// `MetadataValue::try_from` of the `tonic` crate, for an ASCII value: whether it takes the text.
/// It refuses the text exactly where one of its bytes is a control character other than the tab.
#[verifier::external_body]
fn is_metadata_value(text: &str) -> (r: bool)
    ensures
        r == is_value_text(text@),
{
    tonic::metadata::MetadataValue::try_from(text).is_ok()
}

/// The letters, digits and symbols of which header names are made.
pub open spec fn is_token_char(c: char) -> bool {
    ||| 'A' <= c <= 'Z'
    ||| 'a' <= c <= 'z'
    ||| '0' <= c <= '9'
    ||| c == '!' || c == '#' || c == '$' || c == '%' || c == '&' || c == '\''
    ||| c == '*' || c == '+' || c == '-' || c == '.' || c == '^' || c == '_'
    ||| c == '`' || c == '|' || c == '~'
}

/// `c` in lower case, for an ASCII letter.
pub open spec fn lowered(c: char) -> char {
    if 'A' <= c <= 'Z' {
        (c as int + 32) as char
    } else {
        c
    }
}

/// The key that a header name is for ASCII metadata: the name in lower case. Names that are not
/// made of header name characters, that are too long, or that end in `-bin`, are none.
pub open spec fn key_of(name: Seq<char>) -> Option<Seq<char>> {
    let key = name.map_values(|c: char| lowered(c));
    if {
        &&& 0 < name.len() <= 65535
        &&& forall|i: int| 0 <= i < name.len() ==> is_token_char(#[trigger] name[i])
        &&& !"-bin"@.is_suffix_of(key)
    } {
        Some(key)
    } else {
        None
    }
}

/// `MetadataKey::from_bytes` of the `tonic` crate, for an ASCII key: the key that a header name
/// is, in lower case, or none.
#[verifier::external_body]
fn parse_key(name: &str) -> (r: Option<String>)
    ensures
        model::opt_view(r) == key_of(name@),
{
    let key = tonic::metadata::MetadataKey::<tonic::metadata::Ascii>::from_bytes(name.as_bytes());
    key.ok().map(|key| key.as_str().to_string())
}

/// A key is the key of itself.
pub proof fn lemma_key_of_key(name: Seq<char>)
    requires
        key_of(name) is Some,
    ensures
        key_of(key_of(name)->0) == key_of(name),
{
    let key = key_of(name)->0;
    assert forall|i: int| 0 <= i < key.len() implies is_token_char(#[trigger] key[i]) && lowered(
        key[i],
    ) == key[i] by {
        assert(is_token_char(name[i]));
    }
    assert(key.map_values(|c: char| lowered(c)) =~= key);
}

/// The metadata with the one value `text` under `key`.
pub open spec fn with_entry(entries: Entries, key: Seq<char>, text: Seq<char>) -> Entries {
    entries.insert(key, seq![vstd::utf8::encode_utf8(text)])
}

/// Whether metadata has room for some more keys.
pub open spec fn room_for(metadata: tonic::metadata::MetadataMap, keys: nat) -> bool {
    let held = metadata_entries(metadata).dom();
    held.finite() && held.len() + keys <= KEY_ROOM
}

/// `MetadataMap::insert` of the `tonic` crate: afterwards the value is the only one under the
/// key, and nothing else has changed. It panics where the map has no room for another key.
#[verifier::external_body]
fn insert_entry(metadata: &mut tonic::metadata::MetadataMap, key: &str, text: &str)
    requires
        key_of(key@) == Some(key@),
        is_value_text(text@),
        room_for(*old(metadata), 1),
    ensures
        metadata_entries(*final(metadata)) == with_entry(
            metadata_entries(*old(metadata)),
            key@,
            text@,
        ),
{
    let key = tonic::metadata::MetadataKey::<tonic::metadata::Ascii>::from_bytes(key.as_bytes());
    metadata.insert(key.unwrap(), tonic::metadata::MetadataValue::try_from(text).unwrap());
}

/// Whether metadata holds so many keys.
pub open spec fn holds_keys(entries: Entries, keys: nat) -> bool {
    entries.dom().finite() && entries.dom().len() == keys
}

/// `MetadataMap::keys_len` of the `tonic` crate: how many keys the map holds.
#[verifier::external_body]
fn count_keys(metadata: &tonic::metadata::MetadataMap) -> (r: usize)
    ensures
        holds_keys(metadata_entries(*metadata), r as nat),
{
    metadata.keys_len()
}

/// Whether metadata has room for some more keys.
pub fn has_room_for(metadata: &tonic::metadata::MetadataMap, keys: usize) -> (r: bool)
    ensures
        r == room_for(*metadata, keys as nat),
{
    let held: usize = count_keys(metadata);
    held <= KEY_ROOM && keys <= KEY_ROOM - held
}

/// A text that can be a metadata value.
#[derive(Debug)]
pub struct MetadataText {
    text: String,
}

impl MetadataText {
    #[verifier::type_invariant]
    spec fn is_valid(self) -> bool {
        is_value_text(self.text@)
    }

    /// The text.
    pub closed spec fn shown(&self) -> Seq<char> {
        self.text@
    }

    /// Takes a text, unless it cannot be a metadata value.
    pub fn parse(text: &str) -> (r: Option<MetadataText>)
        ensures
            r is Some <==> is_value_text(text@),
            r matches Some(value) ==> value@ == text@,
    {
        if is_metadata_value(text) {
            Some(MetadataText { text: text.to_string() })
        } else {
            None
        }
    }

    /// The text.
    pub fn as_str(&self) -> (r: &str)
        ensures
            r@ == self@,
    {
        self.text.as_str()
    }
}

impl View for MetadataText {
    type V = Seq<char>;

    open spec fn view(&self) -> Seq<char> {
        self.shown()
    }
}

impl Clone for MetadataText {
    fn clone(&self) -> (r: MetadataText)
        ensures
            r@ == self@,
    {
        proof {
            use_type_invariant(self);
        }
        MetadataText { text: self.text.clone() }
    }
}

/// Whether a string can serve as a key without change.
pub open spec fn is_key(key: Seq<char>) -> bool {
    key_of(key) == Some(key)
}

/// Puts `text` under `key`, in place of what was there.
pub fn set_entry(metadata: &mut tonic::metadata::MetadataMap, key: &str, text: &MetadataText)
    requires
        is_key(key@),
        room_for(*old(metadata), 1),
    ensures
        metadata_entries(*final(metadata)) == with_entry(
            metadata_entries(*old(metadata)),
            key@,
            text@,
        ),
{
    proof {
        use_type_invariant(text);
    }
    insert_entry(metadata, key, text.text.as_str());
}

/// The headers in a `HeaderMap`, in the order in which it hands them out: name, and value where
/// it is visible ASCII.
pub uninterp spec fn header_entries(headers: http::HeaderMap<http::HeaderValue>) -> Headers;

/// Headers: name, and value where it is visible ASCII.
pub type Headers = Seq<(Seq<char>, Option<Seq<char>>)>;

/// What a list of headers stands for.
pub open spec fn header_views(headers: Seq<(String, Option<String>)>) -> Headers {
    headers.map_values(|h: (String, Option<String>)| (h.0@, model::opt_view(h.1)))
}

/// `HeaderMap::iter` of the `http` crate, with each name as its text and each value as what
/// `HeaderValue::to_str` makes of it.
#[verifier::external_body]
fn list_headers(headers: &http::HeaderMap<http::HeaderValue>) -> (r: Vec<(String, Option<String>)>)
    ensures
        header_views(r@) == header_entries(*headers),
{
    headers.iter().map(
        |(name, value)| (name.as_str().to_string(), value.to_str().ok().map(|s| s.to_string())),
    ).collect()
}

/// How many headers there are.
pub fn count_headers(headers: &http::HeaderMap<http::HeaderValue>) -> (r: usize)
    ensures
        r == header_entries(*headers).len(),
{
    list_headers(headers).len()
}

/// `HeaderMap::clone` of the `http` crate: the same headers in the same order.
#[verifier::external_body]
pub(crate) fn copy_headers(headers: &http::HeaderMap<http::HeaderValue>) -> (r: http::HeaderMap<
    http::HeaderValue,
>)
    ensures
        header_entries(r) == header_entries(*headers),
{
    headers.clone()
}

/// Why a header cannot go into the metadata of a request.
#[derive(Clone, Copy, Debug, PartialEq, Eq, Structural)]
pub enum HeaderError {
    /// Its name is no key.
    InvalidKey,
    /// Its value is not visible ASCII.
    InvalidText,
    /// Its value is no metadata value.
    InvalidValue,
}

/// Why a header cannot go into the metadata of a request, if it cannot.
pub open spec fn header_fault(header: (Seq<char>, Option<Seq<char>>)) -> Option<HeaderError> {
    if key_of(header.0) is None {
        Some(HeaderError::InvalidKey)
    } else {
        match header.1 {
            None => Some(HeaderError::InvalidText),
            Some(text) => if is_value_text(text) {
                None
            } else {
                Some(HeaderError::InvalidValue)
            },
        }
    }
}

/// Why not every header can go into the metadata of a request: the fault of the first one that
/// cannot.
pub open spec fn headers_fault(headers: Headers) -> Option<HeaderError>
    decreases headers.len(),
{
    if headers.len() == 0 {
        None
    } else {
        match headers_fault(headers.drop_last()) {
            Some(fault) => Some(fault),
            None => header_fault(headers.last()),
        }
    }
}

/// The metadata after headers were put in one by one, up to the first one that cannot go in.
pub open spec fn with_headers(entries: Entries, headers: Headers) -> Entries
    decreases headers.len(),
{
    if headers.len() == 0 {
        entries
    } else {
        let before = with_headers(entries, headers.drop_last());
        if headers_fault(headers) is Some {
            before
        } else {
            with_entry(before, key_of(headers.last().0)->0, headers.last().1->0)
        }
    }
}

proof fn lemma_fault_stays(headers: Headers, entries: Entries, i: int)
    requires
        0 <= i <= headers.len(),
        headers_fault(headers.take(i)) is Some,
    ensures
        headers_fault(headers) == headers_fault(headers.take(i)),
        with_headers(entries, headers) == with_headers(entries, headers.take(i)),
    decreases headers.len() - i,
{
    if i < headers.len() {
        assert(headers.take(i + 1).drop_last() =~= headers.take(i));
        lemma_fault_stays(headers, entries, i + 1);
    } else {
        assert(headers.take(i) =~= headers);
    }
}

/// Puts headers into the metadata of a request one by one, up to the first one that cannot go
/// in.
pub fn set_headers(
    metadata: &mut tonic::metadata::MetadataMap,
    headers: &http::HeaderMap<http::HeaderValue>,
) -> (r: Result<(), HeaderError>)
    requires
        room_for(*old(metadata), header_entries(*headers).len()),
    ensures
        (match r {
            Ok(_) => None,
            Err(fault) => Some(fault),
        }) == headers_fault(header_entries(*headers)),
        metadata_entries(*final(metadata)) == with_headers(
            metadata_entries(*old(metadata)),
            header_entries(*headers),
        ),
        forall|keys: nat|
            room_for(*old(metadata), header_entries(*headers).len() + keys) ==> room_for(
                *final(metadata),
                keys,
            ),
{
    let list = list_headers(headers);
    let ghost all = header_entries(*headers);
    let ghost start = metadata_entries(*metadata);
    let mut i: usize = 0;
    assert(all.take(0) =~= Seq::empty());
    while i < list.len()
        invariant
            i <= list@.len(),
            header_views(list@) == all,
            room_for(*old(metadata), all.len()),
            headers_fault(all.take(i as int)) is None,
            metadata_entries(*metadata) == with_headers(start, all.take(i as int)),
            metadata_entries(*metadata).dom().finite(),
            metadata_entries(*metadata).dom().len() <= metadata_entries(*old(metadata)).dom().len()
                + i,
            all == header_entries(*headers),
            start == metadata_entries(*old(metadata)),
        decreases list@.len() - i,
    {
        proof {
            assert(all.take(i + 1).drop_last() =~= all.take(i as int));
            assert(all.take(i + 1).last() == all[i as int]);
            assert(all[i as int] == (list@[i as int].0@, model::opt_view(list@[i as int].1)));
            if header_fault(all[i as int]) is Some {
                lemma_fault_stays(all, start, i + 1);
            }
        }
        let key = match parse_key(list[i].0.as_str()) {
            Some(key) => key,
            None => {
                return Err(HeaderError::InvalidKey);
            },
        };
        let text = match &list[i].1 {
            Some(text) => text,
            None => {
                return Err(HeaderError::InvalidText);
            },
        };
        let text = match MetadataText::parse(text.as_str()) {
            Some(text) => text,
            None => {
                return Err(HeaderError::InvalidValue);
            },
        };
        proof {
            lemma_key_of_key(list@[i as int].0@);
        }
        set_entry(metadata, key.as_str(), &text);
        i += 1;
    }
    assert(all.take(i as int) =~= all);
    Ok(())
}

/// The text that headers leave under a key, if they put any there.
pub open spec fn header_text(headers: Headers, key: Seq<char>) -> Option<Seq<char>>
    decreases headers.len(),
{
    if headers.len() == 0 {
        None
    } else if headers_fault(headers) is None && key_of(headers.last().0) == Some(key) {
        headers.last().1
    } else {
        header_text(headers.drop_last(), key)
    }
}

/// Under each key, metadata holds what the headers leave there, or else what it held before.
pub proof fn lemma_with_headers_at(entries: Entries, headers: Headers, key: Seq<char>)
    ensures
        with_headers(entries, headers).contains_key(key) <==> header_text(headers, key) is Some
            || entries.contains_key(key),
        header_text(headers, key) matches Some(text) ==> with_headers(entries, headers)[key]
            == seq![vstd::utf8::encode_utf8(text)],
        header_text(headers, key) is None ==> with_headers(entries, headers)[key] == entries[key],
    decreases headers.len(),
{
    if headers.len() > 0 {
        lemma_with_headers_at(entries, headers.drop_last(), key);
    }
}

/// Headers that are put into metadata change nothing but what stands under their keys.
pub proof fn lemma_headers_leave_the_rest(entries: Entries, headers: Headers, key: Seq<char>)
    requires
        forall|i: int|
            0 <= i < headers.len() ==> key_of((#[trigger] headers[i]).0) != Some(key),
    ensures
        with_headers(entries, headers).contains_key(key) <==> entries.contains_key(key),
        with_headers(entries, headers)[key] == entries[key],
    decreases headers.len(),
{
    if headers.len() > 0 {
        let rest = headers.drop_last();
        assert forall|i: int| 0 <= i < rest.len() implies key_of((#[trigger] rest[i]).0) != Some(
            key,
        ) by {
            assert(rest[i] == headers[i]);
        }
        lemma_headers_leave_the_rest(entries, rest, key);
        assert(headers[headers.len() - 1] == headers.last());
    }
}

/// The metadata key of an API key.
pub const API_KEY_HEADER: &'static str = "x-goog-api-key";

/// The metadata key of the client's name.
pub const API_CLIENT_HEADER: &'static str = "x-goog-api-client";

/// The metadata with a client's API key and name.
pub open spec fn with_key_and_client(
    entries: Entries,
    api_key: Seq<char>,
    client: Seq<char>,
) -> Entries {
    with_entry(
        with_entry(entries, API_KEY_HEADER@, api_key),
        API_CLIENT_HEADER@,
        client,
    )
}

/// What a client says of itself can go into metadata.
pub proof fn lemma_client_entries()
    ensures
        is_key(API_KEY_HEADER@),
        is_key(API_CLIENT_HEADER@),
        is_value_text("rig-grpc/0.1.0"@),
{
    reveal_strlit("x-goog-api-key");
    reveal_strlit("x-goog-api-client");
    reveal_strlit("rig-grpc/0.1.0");
    reveal_strlit("-bin");
    let key = API_KEY_HEADER@;
    let client = API_CLIENT_HEADER@;
    assert(key.map_values(|c: char| lowered(c)) =~= key);
    assert(client.map_values(|c: char| lowered(c)) =~= client);
    assert(key.subrange(key.len() - 4, key.len() as int)[3] == 'y');
    assert(client.subrange(client.len() - 4, client.len() as int)[3] == 't');
}

} // verus!
