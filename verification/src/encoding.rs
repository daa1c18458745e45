//! Base64 as it occurs in messages: image data and thought signatures.
use crate::error::{CompletionError, CompletionErrorView};
use crate::model;
use crate::text;
use base64::Engine;
use vstd::prelude::*;

verus! {

/// The base64 variants that incoming data may be in, in the order in which they are tried.
#[derive(Clone, Copy, Debug, PartialEq, Eq, Structural)]
pub enum Variant {
    /// The standard alphabet, padded.
    Standard,
    /// The URL-safe alphabet, padded.
    UrlSafe,
    /// The standard alphabet, unpadded.
    StandardNoPad,
    /// The URL-safe alphabet, unpadded.
    UrlSafeNoPad,
}

/// What one attempt at decoding comes to: the bytes, or the text of the error.
pub type Attempt = Result<Seq<u8>, Seq<char>>;

/// What decoding comes to: the bytes, or the error that is reported.
pub type Decoded = Result<Seq<u8>, CompletionErrorView>;

/// What `Engine::decode` makes of a text: the bytes, or the text of its error.
pub uninterp spec fn base64_decoded(variant: Variant, text: Seq<char>) -> Attempt;

/// `Engine::decode` of the `base64` crate, with the engine for `variant`: the bytes or the text
/// of the error are a function of the engine and the text alone. Which texts decode to which
/// bytes is left unsaid here.
#[verifier::external_body]
fn decode_as(variant: Variant, text: &str) -> (r: Result<Vec<u8>, String>)
    ensures
        model::result_view(r) == base64_decoded(variant, text@),
{
    let engine = match variant {
        Variant::Standard => &base64::engine::general_purpose::STANDARD,
        Variant::UrlSafe => &base64::engine::general_purpose::URL_SAFE,
        Variant::StandardNoPad => &base64::engine::general_purpose::STANDARD_NO_PAD,
        Variant::UrlSafeNoPad => &base64::engine::general_purpose::URL_SAFE_NO_PAD,
    };
    engine.decode(text).map_err(|e| e.to_string())
}

/// The base64 form of some bytes in a variant.
pub uninterp spec fn base64_encoded(variant: Variant, bytes: Seq<u8>) -> Seq<char>;

/// The characters of the base64 variants.
pub open spec fn is_base64_char(c: char) -> bool {
    ||| 'A' <= c <= 'Z'
    ||| 'a' <= c <= 'z'
    ||| '0' <= c <= '9'
    ||| c == '+'
    ||| c == '/'
    ||| c == '-'
    ||| c == '_'
    ||| c == '='
}

/// Whether the base64 form of `len` bytes fits in memory.
pub open spec fn encodable(len: nat) -> bool {
    (len + 2) / 3 * 4 <= isize::MAX
}

/// Whether the base64 form of `len` bytes fits in memory.
pub fn is_encodable(len: usize) -> (r: bool)
    ensures
        r == encodable(len as nat),
{
    len <= usize::MAX - 2 && (len + 2) / 3 <= (isize::MAX as usize) / 4
}

/// `Engine::encode` of the `base64` crate, with the engine for `variant`: a function of the
/// engine and the bytes alone, in the characters of the two alphabets and `=`. The same engine's
/// `decode` gives the bytes back, and so does that of every other engine that takes the text: the
/// alphabets agree on all characters that they share, and an engine takes padding or leaves it
/// out but reads nothing else from it. The text itself is left unsaid. It panics where the text
/// does not fit in memory.
#[verifier::external_body]
fn encode_as(variant: Variant, bytes: &[u8]) -> (r: String)
    requires
        encodable(bytes@.len()),
    ensures
        r@ == base64_encoded(variant, bytes@),
        forall|i: int| 0 <= i < r@.len() ==> is_base64_char(#[trigger] r@[i]),
        base64_decoded(variant, r@) == Attempt::Ok(bytes@),
        forall|other: Variant|
            base64_decoded(other, r@) is Ok ==> #[trigger] base64_decoded(other, r@)
                == Attempt::Ok(bytes@),
{
    let engine = match variant {
        Variant::Standard => &base64::engine::general_purpose::STANDARD,
        Variant::UrlSafe => &base64::engine::general_purpose::URL_SAFE,
        Variant::StandardNoPad => &base64::engine::general_purpose::STANDARD_NO_PAD,
        Variant::UrlSafeNoPad => &base64::engine::general_purpose::URL_SAFE_NO_PAD,
    };
    engine.encode(bytes)
}

/// The base64 form of some bytes in a variant. Decoding gives the bytes back, whichever variant
/// it is and whatever white space is around it.
pub fn encode_base64(variant: Variant, bytes: &[u8]) -> (r: String)
    requires
        encodable(bytes@.len()),
    ensures
        r@ == base64_encoded(variant, bytes@),
        decoded_bytes(r@) == Decoded::Ok(bytes@),
        forall|before: Seq<char>, after: Seq<char>|
            text::is_blank(before) && text::is_blank(after) ==> #[trigger] decoded_bytes(
                before + r@ + after,
            ) == Decoded::Ok(bytes@),
{
    let r = encode_as(variant, bytes);
    proof {
        lemma_payload_of_encoded(r@);
        let attempts = base64_attempts(r@);
        let k: int = match variant {
            Variant::Standard => 0,
            Variant::UrlSafe => 1,
            Variant::StandardNoPad => 2,
            Variant::UrlSafeNoPad => 3,
        };
        assert(attempts[k] == base64_decoded(variant, r@));
        lemma_agreeing_attempts(attempts, k, bytes@);
        assert forall|before: Seq<char>, after: Seq<char>|
            text::is_blank(before) && text::is_blank(after) implies #[trigger] decoded_bytes(
            before + r@ + after,
        ) == Decoded::Ok(bytes@) by {
            law_white_space_around_does_not_matter(before, r@, after);
        }
    }
    r
}

/// The base64 text inside `input`: surrounding white space goes, and so does a `data:` header up
/// to its first comma. Text with a `data:` header but no comma stays whole.
pub open spec fn base64_payload(input: Seq<char>) -> Seq<char> {
    let data = text::trimmed(input);
    if "data:"@.is_prefix_of(data) {
        let rest = data.skip("data:"@.len() as int);
        if rest.contains(',') {
            rest.skip(rest.index_of_first(',')->0 + 1)
        } else {
            data
        }
    } else {
        data
    }
}

proof fn lemma_payload_of_encoded(encoded: Seq<char>)
    requires
        forall|i: int| 0 <= i < encoded.len() ==> is_base64_char(#[trigger] encoded[i]),
    ensures
        base64_payload(encoded) == encoded,
{
    assert forall|i: int| 0 <= i < encoded.len() implies !text::is_whitespace(
        #[trigger] encoded[i],
    ) by {
        assert(is_base64_char(encoded[i]));
    }
    text::lemma_trimmed_without_whitespace(encoded);
    reveal_strlit("data:");
    if "data:"@.is_prefix_of(encoded) {
        assert(encoded.subrange(0, 5)[4] == ':');
        assert(is_base64_char(encoded[4]));
    }
}

/// The base64 text inside `input`: surrounding white space goes, and so does a `data:` header up
/// to its first comma.
pub fn strip_data_header(input: &str) -> (r: &str)
    ensures
        r@ == base64_payload(input@),
{
    let data = input.trim();
    if text::has_prefix(data, "data:") {
        proof {
            reveal_strlit("data:");
        }
        let len: usize = data.unicode_len();
        let rest = data.substring_char(5, len);
        assert(rest@ == data@.skip(5));
        match text::find_char(rest, ',') {
            Some(i) => {
                let rest_len: usize = rest.unicode_len();
                proof {
                    assert(rest@[i as int] == ',');
                    rest@.index_of_first_ensures(',');
                    let first = rest@.index_of_first(',')->0;
                    if first < i {
                        assert(rest@.take(i as int)[first] == ',');
                    }
                    assert(first == i);
                }
                let payload = rest.substring_char(i + 1, rest_len);
                assert(payload@ =~= rest@.skip(i + 1));
                payload
            },
            None => data,
        }
    } else {
        data
    }
}

/// What each base64 variant makes of a text, in the order in which they are tried.
pub open spec fn base64_attempts(text: Seq<char>) -> Seq<Attempt> {
    seq![
        base64_decoded(Variant::Standard, text),
        base64_decoded(Variant::UrlSafe, text),
        base64_decoded(Variant::StandardNoPad, text),
        base64_decoded(Variant::UrlSafeNoPad, text),
    ]
}

/// The first attempt that succeeded, or an error with the text of the last one that did not.
pub open spec fn first_success(attempts: Seq<Attempt>) -> Decoded
    decreases attempts.len(),
{
    if attempts.len() == 0 {
        Err(
            CompletionErrorView::RequestError(
                "Invalid base64 data: "@ + "unknown base64 decode error"@,
            ),
        )
    } else {
        match attempts[0] {
            Ok(bytes) => Ok(bytes),
            Err(error) => if attempts.len() == 1 {
                Err(CompletionErrorView::RequestError("Invalid base64 data: "@ + error))
            } else {
                first_success(attempts.skip(1))
            },
        }
    }
}

/// The bytes that base64 text stands for, whichever variant it is in.
pub open spec fn decoded_bytes(input: Seq<char>) -> Decoded {
    first_success(base64_attempts(base64_payload(input)))
}

/// A `data:` URL stands for what its payload stands for, whatever its header says.
pub proof fn law_data_url_decodes_as_payload(header: Seq<char>, payload: Seq<char>)
    requires
        !header.contains(','),
        text::trimmed(payload) == payload,
        !"data:"@.is_prefix_of(payload),
    ensures
        base64_payload("data:"@ + header + seq![','] + payload) == payload,
        decoded_bytes("data:"@ + header + seq![','] + payload) == decoded_bytes(payload),
{
    reveal_strlit("data:");
    let url = "data:"@ + header + seq![','] + payload;
    assert(url[0] == 'd');
    if payload.len() > 0 {
        text::lemma_trimmed_ends(payload);
        assert(url.last() == payload.last());
    } else {
        assert(url.last() == ',');
    }
    assert(text::trimmed(url) == url);
    assert("data:"@ =~= url.subrange(0, 5));
    let rest = url.skip(5);
    assert(rest =~= header + seq![','] + payload);
    assert(rest[header.len() as int] == ',');
    rest.index_of_first_ensures(',');
    let first = rest.index_of_first(',')->0;
    if first < header.len() {
        assert(header[first] == ',');
    }
    assert(rest.skip(header.len() as int + 1) =~= payload);
}

/// White space around base64 text does not matter.
pub proof fn law_white_space_around_does_not_matter(
    before: Seq<char>,
    data: Seq<char>,
    after: Seq<char>,
)
    requires
        text::is_blank(before),
        text::is_blank(after),
    ensures
        decoded_bytes(before + data + after) == decoded_bytes(data),
{
    text::lemma_trimmed_of_surrounded(before, data, after);
}

/// Text is refused exactly where no variant takes what is inside it, and then as a request that
/// cannot be built, with the error of the last variant.
pub proof fn law_only_undecodable_text_is_refused(input: Seq<char>)
    ensures
        decoded_bytes(input) is Err <==> forall|variant: Variant|
            (#[trigger] base64_decoded(variant, base64_payload(input))) is Err,
        decoded_bytes(input) is Err ==> decoded_bytes(input) == Decoded::Err(
            CompletionErrorView::RequestError(
                "Invalid base64 data: "@ + base64_decoded(
                    Variant::UrlSafeNoPad,
                    base64_payload(input),
                )->Err_0,
            ),
        ),
{
    let data = base64_payload(input);
    let attempts = base64_attempts(data);
    reveal_with_fuel(first_success, 4);
    assert(attempts.skip(1).skip(1) =~= attempts.skip(2));
    assert(attempts.skip(2).skip(1) =~= attempts.skip(3));
    assert(attempts[0] == base64_decoded(Variant::Standard, data));
    assert(attempts.skip(1)[0] == base64_decoded(Variant::UrlSafe, data));
    assert(attempts.skip(2)[0] == base64_decoded(Variant::StandardNoPad, data));
    assert(attempts.skip(3)[0] == base64_decoded(Variant::UrlSafeNoPad, data));
}

/// Attempts of which one comes to some bytes, and none to others, come to these bytes.
proof fn lemma_agreeing_attempts(attempts: Seq<Attempt>, k: int, bytes: Seq<u8>)
    requires
        0 <= k < attempts.len(),
        attempts[k] == Attempt::Ok(bytes),
        forall|i: int|
            0 <= i < attempts.len() ==> (#[trigger] attempts[i]) is Err || attempts[i]
                == Attempt::Ok(bytes),
    ensures
        first_success(attempts) == Decoded::Ok(bytes),
    decreases k,
{
    if k > 0 && attempts[0] is Err {
        lemma_agreeing_attempts(attempts.skip(1), k - 1, bytes);
    }
}

/// What attempts at decoding came to.
pub open spec fn attempt_views(attempts: Seq<Result<Vec<u8>, String>>) -> Seq<Attempt> {
    attempts.map_values(|a: Result<Vec<u8>, String>| model::result_view(a))
}

/// The first of the attempts that succeeded, or an error with the text of the last one.
pub fn choose_decoding(attempts: Vec<Result<Vec<u8>, String>>) -> (r: Result<
    Vec<u8>,
    CompletionError,
>)
    ensures
        model::result_view(r) == first_success(attempt_views(attempts@)),
{
    let ghost all = attempt_views(attempts@);
    let mut last_error: Option<String> = None;
    proof {
        assert(all.skip(0) =~= all);
    }
    for attempt in it: attempts
        invariant
            it.seq() == attempts@,
            all == attempt_views(attempts@),
            it.index() == 0 ==> last_error is None,
            it.index() > 0 ==> last_error is Some && all[it.index() - 1] == Attempt::Err(last_error->0@),
            it.index() < all.len() ==> first_success(all) == first_success(
                all.skip(it.index() as int),
            ),
            it.index() == all.len() ==> first_success(all) == Decoded::Err(
                CompletionErrorView::RequestError(
                    "Invalid base64 data: "@ + (match last_error {
                        Some(e) => e@,
                        None => "unknown base64 decode error"@,
                    }),
                ),
            ),
    {
        let ghost k = it.index() as int;
        assert(all[k] == model::result_view(attempt));
        assert(all.skip(k)[0] == all[k]);
        match attempt {
            Ok(bytes) => {
                return Ok(bytes);
            },
            Err(error) => {
                assert(all.skip(k).skip(1) =~= all.skip(k + 1));
                last_error = Some(error);
            },
        }
    }
    let error = match last_error {
        Some(error) => error,
        None => "unknown base64 decode error".to_string(),
    };
    Err(CompletionError::RequestError(text::append_to("Invalid base64 data: ", error.as_str())))
}

/// Decodes base64 data that may carry a `data:` header, in whichever variant it comes.
pub fn decode_base64_bytes(input: &str) -> (r: Result<Vec<u8>, CompletionError>)
    ensures
        model::result_view(r) == decoded_bytes(input@),
{
    let data = strip_data_header(input);
    let variants = [
        Variant::Standard,
        Variant::UrlSafe,
        Variant::StandardNoPad,
        Variant::UrlSafeNoPad,
    ];
    let mut attempts: Vec<Result<Vec<u8>, String>> = Vec::new();
    let ghost all = base64_attempts(data@);
    let mut i: usize = 0;
    while i < 4
        invariant
            i <= 4,
            variants@ == seq![
                Variant::Standard,
                Variant::UrlSafe,
                Variant::StandardNoPad,
                Variant::UrlSafeNoPad,
            ],
            data@ == base64_payload(input@),
            all == base64_attempts(data@),
            attempts@.len() == i,
            forall|k: int|
                0 <= k < i ==> model::result_view(#[trigger] attempts@[k]) == all[k] && all[k] is Err,
        decreases 4 - i,
    {
        let attempt = decode_as(variants[i], data);
        let done = attempt.is_ok();
        attempts.push(attempt);
        if done {
            proof {
                lemma_first_success(attempt_views(attempts@), all);
            }
            return choose_decoding(attempts);
        }
        i += 1;
    }
    assert(attempt_views(attempts@) =~= all);
    choose_decoding(attempts)
}

/// Attempts after the first success do not matter.
proof fn lemma_first_success(
    prefix: Seq<Attempt>,
    all: Seq<Attempt>,
)
    requires
        0 < prefix.len() <= all.len(),
        prefix.last() is Ok,
        forall|k: int| 0 <= k < prefix.len() ==> prefix[k] == #[trigger] all[k],
    ensures
        first_success(prefix) == first_success(all),
    decreases prefix.len(),
{
    if prefix.len() > 1 && prefix[0] is Err {
        assert(prefix.skip(1).last() == prefix.last());
        lemma_first_success(prefix.skip(1), all.skip(1));
    }
    assert(prefix[0] == all[0]);
}

/// The bytes of an optional signature: none where there is no signature.
pub open spec fn signature_bytes(signature: Option<Seq<char>>) -> Decoded {
    match signature {
        None => Ok(Seq::empty()),
        Some(text) => decoded_bytes(text),
    }
}

/// Decodes an optional base64 signature: no bytes where there is none.
pub fn decode_optional_base64(sig: Option<String>) -> (r: Result<Vec<u8>, CompletionError>)
    ensures
        model::result_view(r) == signature_bytes(model::opt_view(sig)),
{
    match sig {
        None => Ok(Vec::new()),
        Some(text) => decode_base64_bytes(text.as_str()),
    }
}

/// The base64 form of a signature: none where there are no bytes.
pub open spec fn signature_text(bytes: Seq<u8>) -> Option<Seq<char>> {
    if bytes.len() == 0 {
        None
    } else {
        Some(base64_encoded(Variant::Standard, bytes))
    }
}

/// Encodes a signature: `None` where there are no bytes. Decoding gives the bytes back.
pub fn encode_optional_base64(bytes: &[u8]) -> (r: Option<String>)
    requires
        encodable(bytes@.len()),
    ensures
        model::opt_view(r) == signature_text(bytes@),
        signature_bytes(model::opt_view(r)) == Decoded::Ok(bytes@),
{
    if bytes.len() == 0 {
        assert(bytes@ =~= Seq::empty());
        None
    } else {
        Some(encode_base64(Variant::Standard, bytes))
    }
}

} // verus!
