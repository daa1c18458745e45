//! Laws of text, base64, JSON and protobuf values.
use crate::encoding;
use crate::encoding::{Decoded, Variant};
use crate::error::CompletionErrorView;
use crate::json;
use crate::json::{JsonView, Number};
use crate::message;
use crate::message::{ImageMediaType, ReasoningContentView};
use crate::proto::{StructView, ValueView};
use crate::text;
use crate::vertex::completion;
use crate::vertex::value;
use vstd::prelude::*;

verus! {

/// A JSON value and its protobuf value have the same shape: null is null, a Boolean and a string
/// stay what they are, a number is a number, and an array and an object keep their items and
/// members one for one, in order, under the same keys.
pub proof fn law_protobuf_mirrors_json(j: JsonView)
    ensures
        ({
            let v = value::json_to_value(j);
            &&& j is Null <==> v == ValueView::Null(0)
            &&& j is Bool <==> v is Bool
            &&& j is Bool ==> v->Bool_0 == j->Bool_0
            &&& j is String <==> v is String
            &&& j is String ==> v->String_0 == j->String_0
            &&& j is Number <==> v is Number
            &&& j matches JsonView::Number(Number::Float(bits)) ==> v == ValueView::Number(bits)
            &&& j matches JsonView::Number(Number::PosInt(n)) ==> v == ValueView::Number(
                value::integer_bits(n as int),
            )
            &&& j matches JsonView::Number(Number::NegInt(n)) ==> v == ValueView::Number(
                value::integer_bits(n as int),
            )
            &&& j is Array <==> v is List
            &&& j is Array ==> v->List_0.len() == j->Array_0.len()
            &&& j is Object <==> v is Struct
            &&& j is Object ==> v->Struct_0.len() == j->Object_0.len()
            &&& !(v is Unset)
        }),
        forall|i: int|
            j is Array && 0 <= i < j->Array_0.len() ==> #[trigger] value::json_to_value(
                j,
            )->List_0[i] == value::json_to_value(j->Array_0[i]),
        forall|i: int|
            j is Object && 0 <= i < j->Object_0.len() ==> (#[trigger] value::json_to_value(
                j,
            )->Struct_0[i]).0 == j->Object_0[i].0 && value::json_to_value(j)->Struct_0[i].1
                == value::json_to_value(j->Object_0[i].1),
{
}

/// A protobuf value and its JSON value have the same shape, but that what is unset, and a number
/// that is not finite, is null.
pub proof fn law_json_mirrors_protobuf(v: ValueView)
    ensures
        ({
            let j = value::value_to_json(v);
            &&& v is Bool <==> j is Bool
            &&& v is Bool ==> j->Bool_0 == v->Bool_0
            &&& v is String <==> j is String
            &&& v is String ==> j->String_0 == v->String_0
            &&& v is Unset ==> j is Null
            &&& v is Null ==> j is Null
            &&& v is Number ==> j == (if json::is_finite_bits(v->Number_0) {
                JsonView::Number(Number::Float(v->Number_0))
            } else {
                JsonView::Null
            })
            &&& v is List <==> j is Array
            &&& v is List ==> j->Array_0.len() == v->List_0.len()
            &&& v is Struct <==> j is Object
            &&& v is Struct ==> j->Object_0.len() == v->Struct_0.len()
        }),
        forall|i: int|
            v is List && 0 <= i < v->List_0.len() ==> #[trigger] value::value_to_json(v)->Array_0[i]
                == value::value_to_json(v->List_0[i]),
        forall|i: int|
            v is Struct && 0 <= i < v->Struct_0.len() ==> (#[trigger] value::value_to_json(
                v,
            )->Object_0[i]).0 == v->Struct_0[i].0 && value::value_to_json(v)->Object_0[i].1
                == value::value_to_json(v->Struct_0[i].1),
{
}

/// An object, and nothing else, is a struct: with as many fields as it has members, in order,
/// under the same names.
pub proof fn law_objects_are_structs(j: JsonView)
    ensures
        value::json_to_struct(j) is Ok <==> j is Object,
        !(j is Object) ==> value::json_to_struct(j) == value::StructResult::Err(
            CompletionErrorView::RequestError("Expected a JSON object for google.protobuf.Struct"@),
        ),
        j is Object ==> value::json_to_struct(j)->Ok_0.len() == j->Object_0.len(),
        forall|i: int|
            j is Object && 0 <= i < j->Object_0.len() ==> (#[trigger] value::json_to_struct(
                j,
            )->Ok_0[i]).0 == j->Object_0[i].0 && value::json_to_struct(j)->Ok_0[i].1
                == value::json_to_value(j->Object_0[i].1),
{
}

/// A struct as JSON is an object with as many members, in order, under the same keys.
pub proof fn law_structs_are_objects(fields: StructView)
    ensures
        value::struct_to_json(fields) is Object,
        value::struct_to_json(fields)->Object_0.len() == fields.len(),
        forall|i: int|
            0 <= i < fields.len() ==> (#[trigger] value::struct_to_json(fields)->Object_0[i]).0
                == fields[i].0 && value::struct_to_json(fields)->Object_0[i].1
                == value::value_to_json(fields[i].1),
{
}

/// Putting a JSON value's numbers into binary64 form leaves everything else as it is: JSON that
/// goes to protobuf and comes back, with finite numbers, is the same but for that.
pub proof fn law_float_numbers_change_only_numbers(j: JsonView)
    ensures
        j is Number ==> value::with_float_numbers(j) == JsonView::Number(
            Number::Float(value::number_bits(j->Number_0)),
        ),
        !(j is Number) && !(j is Array) && !(j is Object) ==> value::with_float_numbers(j) == j,
        j is Array ==> value::with_float_numbers(j) is Array && value::with_float_numbers(
            j,
        )->Array_0.len() == j->Array_0.len(),
        j is Object ==> value::with_float_numbers(j) is Object && value::with_float_numbers(
            j,
        )->Object_0.len() == j->Object_0.len(),
        forall|i: int|
            j is Array && 0 <= i < j->Array_0.len() ==> #[trigger] value::with_float_numbers(
                j,
            )->Array_0[i] == value::with_float_numbers(j->Array_0[i]),
        forall|i: int|
            j is Object && 0 <= i < j->Object_0.len() ==> (#[trigger] value::with_float_numbers(
                j,
            )->Object_0[i]).0 == j->Object_0[i].0 && value::with_float_numbers(j)->Object_0[i].1
                == value::with_float_numbers(j->Object_0[i].1),
{
}

/// A bit pattern is that of a finite number exactly where its eleven exponent bits are not all
/// ones.
pub proof fn law_finite_numbers(bits: u64)
    ensures
        json::is_finite_bits(bits) <==> (bits >> 52) % 2048 != 2047,
{
    assert((bits & 0x7ff0_0000_0000_0000 != 0x7ff0_0000_0000_0000) == ((bits >> 52) % 2048 != 2047))
        by (bit_vector);
}

/// The signed form of a count is the count itself where that fits, and otherwise the signed
/// number that is the same in its low 32 bits.
pub proof fn law_signed_counts(n: u64)
    ensures
        n <= i32::MAX ==> completion::low_signed(n) == n,
        (n - completion::low_signed(n)) % 0x1_0000_0000 == 0,
{
}

/// The unsigned form of a count is the count itself where it is not negative, and otherwise the
/// count that is the same modulo the size of the type.
pub proof fn law_unsigned_counts(n: i32)
    ensures
        n >= 0 ==> completion::token_count(n) == n,
        n < 0 ==> completion::token_count(n) == n + u64::MAX + 1,
{
}

/// Joining texts in two lots and the lots with each other is joining them all.
pub proof fn law_joining_in_lots(first: Seq<Seq<char>>, second: Seq<Seq<char>>, sep: Seq<char>)
    ensures
        text::joined(Seq::empty(), sep) == Seq::<char>::empty(),
        forall|t: Seq<char>| #[trigger] text::joined(seq![t], sep) == t,
        first.len() > 0 && second.len() > 0 ==> text::joined(first + second, sep) == text::joined(
            first,
            sep,
        ) + sep + text::joined(second, sep),
    decreases second.len(),
{
    if first.len() > 0 && second.len() > 0 {
        assert((first + second).drop_last() =~= first + second.drop_last());
        if second.len() == 1 {
            assert(first + second.drop_last() =~= first);
        } else {
            law_joining_in_lots(first, second.drop_last(), sep);
            assert(text::joined(first + second, sep) =~= text::joined(first, sep) + sep
                + text::joined(second, sep));
        }
    }
}

/// The number that decimal digits stand for.
pub open spec fn digits_value(digits: Seq<char>) -> int
    decreases digits.len(),
{
    if digits.len() == 0 {
        0
    } else {
        10 * digits_value(digits.drop_last()) + (digits.last() as int - '0' as int)
    }
}

/// A number in decimal is made of digits that stand for the number, without a leading zero. A
/// negative number is that of its magnitude after a minus sign.
pub proof fn law_decimal_reads_back(n: nat)
    ensures
        digits_value(text::decimal_nat(n)) == n,
        text::decimal_nat(n).len() > 0,
        n > 0 ==> text::decimal_nat(n)[0] != '0',
        n == 0 ==> text::decimal_nat(n).len() == 1,
        forall|i: int|
            0 <= i < text::decimal_nat(n).len() ==> '0' <= #[trigger] text::decimal_nat(n)[i]
                <= '9',
        text::decimal(n as int) == text::decimal_nat(n),
        n > 0 ==> text::decimal(-(n as int)) == seq!['-'] + text::decimal_nat(n),
    decreases n,
{
    reveal_with_fuel(digits_value, 2);
    if n >= 10 {
        law_decimal_reads_back(n / 10);
        let rest = text::decimal_nat(n / 10);
        assert(text::decimal_nat(n).drop_last() =~= rest);
        assert(text::decimal_nat(n)[0] == rest[0]);
    } else {
        assert(text::decimal_nat(n).drop_last() =~= Seq::empty());
    }
}

/// Text without a `data:` header is base64 text as it is, white space at either end aside. So is
/// text with such a header and no comma.
pub proof fn law_payload_without_header(input: Seq<char>)
    requires
        !"data:"@.is_prefix_of(text::trimmed(input)) || !text::trimmed(input).contains(','),
    ensures
        encoding::base64_payload(input) == text::trimmed(input),
{
    let data = text::trimmed(input);
    let rest = data.skip("data:"@.len() as int);
    if "data:"@.is_prefix_of(data) && rest.contains(',') {
        let i = choose|i: int| 0 <= i < rest.len() && rest[i] == ',';
        assert(data["data:"@.len() + i] == ',');
    }
}

/// Base64 text stands for what the first of the variants that takes it makes of it, in the order
/// standard, URL-safe, standard without padding, URL-safe without padding.
pub proof fn law_first_variant_that_takes_the_text_counts(input: Seq<char>, bytes: Seq<u8>)
    ensures
        ({
            let data = encoding::base64_payload(input);
            let standard = encoding::base64_decoded(Variant::Standard, data);
            let url_safe = encoding::base64_decoded(Variant::UrlSafe, data);
            let standard_no_pad = encoding::base64_decoded(Variant::StandardNoPad, data);
            let url_safe_no_pad = encoding::base64_decoded(Variant::UrlSafeNoPad, data);
            encoding::decoded_bytes(input) == Decoded::Ok(bytes) <==> {
                ||| standard == encoding::Attempt::Ok(bytes)
                ||| standard is Err && url_safe == encoding::Attempt::Ok(bytes)
                ||| standard is Err && url_safe is Err && standard_no_pad
                    == encoding::Attempt::Ok(bytes)
                ||| standard is Err && url_safe is Err && standard_no_pad is Err
                    && url_safe_no_pad == encoding::Attempt::Ok(bytes)
            }
        }),
{
    let data = encoding::base64_payload(input);
    let attempts = encoding::base64_attempts(data);
    reveal_with_fuel(encoding::first_success, 4);
    assert(attempts.skip(1).skip(1) =~= attempts.skip(2));
    assert(attempts.skip(2).skip(1) =~= attempts.skip(3));
    assert(attempts[0] == encoding::base64_decoded(Variant::Standard, data));
    assert(attempts.skip(1)[0] == encoding::base64_decoded(Variant::UrlSafe, data));
    assert(attempts.skip(2)[0] == encoding::base64_decoded(Variant::StandardNoPad, data));
    assert(attempts.skip(3)[0] == encoding::base64_decoded(Variant::UrlSafeNoPad, data));
}

/// No signature is no bytes, and no bytes are no signature. Any other signature is base64 text
/// of its bytes.
pub proof fn law_signatures(signature: Option<Seq<char>>, bytes: Seq<u8>)
    ensures
        signature is None ==> encoding::signature_bytes(signature) == Decoded::Ok(Seq::empty()),
        signature is Some ==> encoding::signature_bytes(signature) == encoding::decoded_bytes(
            signature->0,
        ),
        encoding::signature_text(bytes) is None <==> bytes.len() == 0,
        bytes.len() > 0 ==> encoding::signature_text(bytes) == Some(
            encoding::base64_encoded(Variant::Standard, bytes),
        ),
{
}

/// The MIME types and the names of the media types of images.
pub proof fn law_image_types(media_type: ImageMediaType)
    ensures
        ({
            let mime_type = message::image_mime_type(media_type);
            let name = message::image_type_name(media_type);
            &&& media_type is JPEG <==> mime_type == "image/jpeg"@
            &&& media_type is PNG <==> mime_type == "image/png"@
            &&& media_type is GIF <==> mime_type == "image/gif"@
            &&& media_type is WEBP <==> mime_type == "image/webp"@
            &&& media_type is HEIC <==> mime_type == "image/heic"@
            &&& media_type is HEIF <==> mime_type == "image/heif"@
            &&& media_type is SVG <==> mime_type == "image/svg+xml"@
            &&& media_type is JPEG ==> name == "JPEG"@
            &&& media_type is PNG ==> name == "PNG"@
            &&& media_type is GIF ==> name == "GIF"@
            &&& media_type is WEBP ==> name == "WEBP"@
            &&& media_type is HEIC ==> name == "HEIC"@
            &&& media_type is HEIF ==> name == "HEIF"@
            &&& media_type is SVG ==> name == "SVG"@
        }),
{
    reveal_strlit("image/jpeg");
    reveal_strlit("image/png");
    reveal_strlit("image/gif");
    reveal_strlit("image/webp");
    reveal_strlit("image/heic");
    reveal_strlit("image/heif");
    reveal_strlit("image/svg+xml");
    assert("image/jpeg"@[6] == 'j');
    assert("image/png"@[6] == 'p');
    assert("image/gif"@[6] == 'g');
    assert("image/webp"@[6] == 'w');
    assert("image/heic"@[9] == 'c');
    assert("image/heif"@[9] == 'f');
    assert("image/svg+xml"@[6] == 's');
    assert("image/heic"@[6] == 'h');
    assert("image/heif"@[6] == 'h');
}

/// What can be shown of two lots of reasoning is what can be shown of the first, then of the
/// second. Everything can be shown but what is encrypted.
pub proof fn law_reasoning_is_shown(
    first: Seq<ReasoningContentView>,
    second: Seq<ReasoningContentView>,
)
    ensures
        message::shown_texts(first + second) == message::shown_texts(first) + message::shown_texts(
            second,
        ),
        forall|block: ReasoningContentView|
            (#[trigger] message::shown_texts(seq![block])) == (match block {
                ReasoningContentView::Text { text, .. } => seq![text],
                ReasoningContentView::Redacted { data } => seq![data],
                ReasoningContentView::Summary(summary) => seq![summary],
                ReasoningContentView::Encrypted(_) => Seq::empty(),
            }),
    decreases second.len(),
{
    if second.len() > 0 {
        assert((first + second).drop_last() =~= first + second.drop_last());
        law_reasoning_is_shown(first, second.drop_last());
        assert(message::shown_texts(first + second) =~= message::shown_texts(first)
            + message::shown_texts(second));
    } else {
        assert(first + second =~= first);
        assert(message::shown_texts(first + second) =~= message::shown_texts(first)
            + message::shown_texts(second));
    }
    assert forall|block: ReasoningContentView|
        (#[trigger] message::shown_texts(seq![block])) == (match block {
            ReasoningContentView::Text { text, .. } => seq![text],
            ReasoningContentView::Redacted { data } => seq![data],
            ReasoningContentView::Summary(summary) => seq![summary],
            ReasoningContentView::Encrypted(_) => Seq::empty(),
        }) by {
        let blocks = seq![block];
        assert(blocks.drop_last() =~= Seq::empty());
        assert(message::shown_texts(blocks.drop_last()) =~= Seq::empty());
        assert(message::shown_texts(blocks) =~= (match block {
            ReasoningContentView::Text { text, .. } => seq![text],
            ReasoningContentView::Redacted { data } => seq![data],
            ReasoningContentView::Summary(summary) => seq![summary],
            ReasoningContentView::Encrypted(_) => Seq::empty(),
        }));
    }
}

/// Whether a block of reasoning is signed plain text.
pub open spec fn is_signed(block: ReasoningContentView) -> bool {
    block is Text && block->Text_signature is Some
}

/// The signature of reasoning is that of its first signed block. Reasoning without a signed block
/// has none.
pub proof fn law_first_signature_counts(blocks: Seq<ReasoningContentView>, k: int)
    ensures
        0 <= k < blocks.len() && is_signed(blocks[k]) && (forall|i: int|
            0 <= i < k ==> !is_signed(#[trigger] blocks[i])) ==> message::first_signature_of(blocks)
            == blocks[k]->Text_signature,
        (forall|i: int| 0 <= i < blocks.len() ==> !is_signed(#[trigger] blocks[i]))
            ==> message::first_signature_of(blocks) is None,
    decreases blocks.len(),
{
    if blocks.len() > 0 && !is_signed(blocks[0]) {
        let rest = blocks.skip(1);
        law_first_signature_counts(rest, k - 1);
        if forall|i: int| 0 <= i < blocks.len() ==> !is_signed(#[trigger] blocks[i]) {
            assert forall|i: int| 0 <= i < rest.len() implies !is_signed(#[trigger] rest[i]) by {
                assert(rest[i] == blocks[i + 1]);
            }
        }
        if 0 <= k < blocks.len() && is_signed(blocks[k]) && (forall|i: int|
            0 <= i < k ==> !is_signed(#[trigger] blocks[i])) {
            assert(rest[k - 1] == blocks[k]);
            assert forall|i: int| 0 <= i < k - 1 implies !is_signed(#[trigger] rest[i]) by {
                assert(rest[i] == blocks[i + 1]);
            }
        }
    } else if blocks.len() > 0 && k > 0 {
        assert(is_signed(blocks[0]));
    }
}

/// JSON can express every protobuf value but one that is unset, a null that is not the one null,
/// or a number that is not finite, and every list and struct of what it can express.
pub proof fn law_what_json_can_express(v: ValueView)
    ensures
        v is Unset ==> !value::expressible(v),
        v is Null ==> (value::expressible(v) <==> v->Null_0 == 0),
        v is Number ==> (value::expressible(v) <==> json::is_finite_bits(v->Number_0)),
        v is String || v is Bool ==> value::expressible(v),
        v is List ==> (value::expressible(v) <==> forall|i: int|
            0 <= i < v->List_0.len() ==> value::expressible(#[trigger] v->List_0[i])),
        v is Struct ==> (value::expressible(v) <==> forall|i: int|
            0 <= i < v->Struct_0.len() ==> value::expressible((#[trigger] v->Struct_0[i]).1)),
{
}

/// The base64 form of bytes fits in memory exactly where there are at most three bytes for each
/// four characters that do.
pub proof fn law_what_can_be_encoded(len: nat)
    ensures
        encoding::encodable(len) <==> len <= isize::MAX / 4 * 3,
{
}

} // verus!
