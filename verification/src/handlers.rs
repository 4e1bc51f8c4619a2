//! The two handlers of `/image`: what `GET` and `HEAD` answer.

use crate::decimal::{decimal_digits, decimal_string, lemma_decimal_512};
use crate::payload::{image_bytes, image_payload, lemma_image_pattern, IMAGE_SIZE};
use crate::response::{
    content_length_name, content_length_name_spec, declared_content_length, header_value,
    status_ok, Header, HeaderView, ImageResponse, ResponseView,
};
use vstd::prelude::*;

verus! {

/// The answer to `GET /image`: status 200, no explicit header, and the image
/// as the body.
pub open spec fn get_response() -> ResponseView {
    ResponseView { status: 200, headers: Seq::empty(), body: image_payload() }
}

/// The answer to `HEAD /image`: status 200, the image's size as an explicit
/// content length, and no body.
pub open spec fn head_response() -> ResponseView {
    ResponseView {
        status: 200,
        headers: seq![
            HeaderView {
                name: content_length_name_spec(),
                value: decimal_digits(IMAGE_SIZE as nat),
            },
        ],
        body: Seq::empty(),
    }
}

/// Fetch the contents of a made-up image.
pub fn do_get() -> (response: ImageResponse)
    ensures
        response@ == get_response(),
        response@.status == 200,
        response@.headers.len() == 0,
        response@.body.len() == 512,
        forall|i: int|
            0 <= i < 512 ==> #[trigger] response@.body[i] == "secret data\n"@[i % 12] as u8,
{
    let response = ImageResponse { status: status_ok(), headers: Vec::new(), body: image_bytes() };
    proof {
        lemma_image_pattern();
        assert(response@.headers =~= Seq::empty());
    }
    response
}

/// Tell the size of the made-up image without sending it.
pub fn do_head() -> (response: ImageResponse)
    ensures
        response@ == head_response(),
        response@.status == 200,
        response@.body.len() == 0,
        response@.headers.len() == 1,
        response@.headers[0].name == "content-length"@,
        response@.headers[0].value == "512"@,
{
    let mut headers: Vec<Header> = Vec::new();
    headers.push(Header { name: content_length_name(), value: decimal_string(IMAGE_SIZE) });
    let response = ImageResponse { status: status_ok(), headers, body: Vec::new() };
    proof {
        lemma_decimal_512();
        assert(response@.headers =~= head_response().headers);
        assert(response@.body =~= Seq::empty());
    }
    response
}

/// The image is 512 bytes long, and its byte at `i` is the character of
/// `secret data\n` at `i` modulo twelve.
pub proof fn lemma_payload_follows_text(i: int)
    requires
        0 <= i < 512,
    ensures
        image_payload().len() == 512,
        get_response().body.len() == 512,
        get_response().body[i] == "secret data\n"@[i % 12] as u8,
{
    lemma_image_pattern();
}

/// Two answers to `GET /image` carry the same body, byte for byte, and it is
/// 512 bytes long.
pub proof fn lemma_get_is_repeatable(first: ImageResponse, second: ImageResponse)
    requires
        first@ == get_response(),
        second@ == get_response(),
    ensures
        first@.body == second@.body,
        first.body@.len() == 512,
        second.body@.len() == 512,
        first@ == second@,
{
}

/// The answer to `HEAD /image` has an empty body, and its content length
/// header holds the string `512`.
pub proof fn lemma_head_declares_size()
    ensures
        head_response().body.len() == 0,
        header_value(head_response().headers, "content-length"@) == Some("512"@),
{
    lemma_decimal_512();
}

/// `GET` and `HEAD` answer with the same status, 200, and tell the client the
/// same content length, `512`, though only `GET` sends a body.
pub proof fn lemma_get_and_head_agree()
    ensures
        get_response().status == 200,
        head_response().status == get_response().status,
        declared_content_length(get_response()) == "512"@,
        declared_content_length(head_response()) == declared_content_length(get_response()),
        get_response().body.len() == 512,
        head_response().body.len() == 0,
{
    lemma_decimal_512();
    assert(header_value(get_response().headers, content_length_name_spec()).is_none());
}

} // verus!
