//! What a caller reads in the responses.
//!
//! The bodies are judged by a reader of JSON, which knows nothing of how they are written.
use vstd::prelude::*;

use crate::error::{MissingPart, PromoteError};
use crate::json::{escaped, escaped_char, json_string, text_to_json};
use crate::laws::lemma_escaped_from_the_front;
use crate::response::{
    json_response, new_bad_request, new_json_response, new_not_found, new_preflight,
    new_promotion_failed, new_stack_promoted, DeployResponse, ErrorResponse, Header, Response,
};

verus! {

/// The value of a hexadecimal digit.
pub open spec fn hex_value(c: char) -> Option<int> {
    if '0' as int <= c as int <= '9' as int {
        Some(c as int - '0' as int)
    } else if 'a' as int <= c as int <= 'f' as int {
        Some(c as int - 'a' as int + 10)
    } else if 'A' as int <= c as int <= 'F' as int {
        Some(c as int - 'A' as int + 10)
    } else {
        None
    }
}

/// The character of four hexadecimal digits, if they are that of one below the surrogates.
pub open spec fn read_code(digits: Seq<char>) -> Option<char> {
    match (
        hex_value(digits[0]),
        hex_value(digits[1]),
        hex_value(digits[2]),
        hex_value(digits[3]),
    ) {
        (Some(a), Some(b), Some(c), Some(d)) => {
            let code = 4096 * a + 256 * b + 16 * c + d;
            if code < 0xD800 {
                Some(code as char)
            } else {
                None
            }
        },
        _ => None,
    }
}

/// The character that a letter after a backslash stands for.
pub open spec fn read_escape(letter: char) -> Option<char> {
    if letter == '"' || letter == '\\' || letter == '/' {
        Some(letter)
    } else if letter == 'b' {
        Some('\u{8}')
    } else if letter == 'f' {
        Some('\u{c}')
    } else if letter == 'n' {
        Some('\n')
    } else if letter == 'r' {
        Some('\r')
    } else if letter == 't' {
        Some('\t')
    } else {
        None
    }
}

/// A character before a text, where both could be read.
pub open spec fn before(first: Option<char>, rest: Option<Seq<char>>) -> Option<Seq<char>> {
    match (first, rest) {
        (Some(c), Some(text)) => Some(seq![c] + text),
        _ => None,
    }
}

/// The text between the quotes of a JSON string, or nothing where it is none.
pub open spec fn read_chars(json: Seq<char>) -> Option<Seq<char>>
    decreases json.len(),
{
    if json.len() == 0 {
        Some(Seq::empty())
    } else if json[0] == '\\' {
        if json.len() >= 6 && json[1] == 'u' {
            before(read_code(json.subrange(2, 6)), read_chars(json.skip(6)))
        } else if json.len() >= 2 {
            before(read_escape(json[1]), read_chars(json.skip(2)))
        } else {
            None
        }
    } else if json[0] == '"' || (json[0] as int) < 0x20 {
        None
    } else {
        before(Some(json[0]), read_chars(json.skip(1)))
    }
}

/// The text of a JSON string, or nothing where it is none.
pub open spec fn read_string(json: Seq<char>) -> Option<Seq<char>> {
    if json.len() >= 2 && json[0] == '"' && json.last() == '"' {
        read_chars(json.subrange(1, json.len() - 1))
    } else {
        None
    }
}

/// The text of the one member of a JSON object, or nothing where it is no such object.
pub open spec fn read_member(json: Seq<char>, name: Seq<char>) -> Option<Seq<char>> {
    let head = seq!['{', '"'] + name + seq!['"', ':'];
    if json.len() > head.len() && json.take(head.len() as int) == head && json.last() == '}' {
        read_string(json.subrange(head.len() as int, json.len() - 1))
    } else {
        None
    }
}

/// The digits of a control character are read as that character.
proof fn lemma_code_is_read(c: char, digits: Seq<char>)
    requires
        escaped_char(c).len() == 6,
        digits == escaped_char(c).subrange(2, 6),
    ensures
        read_code(digits) == Some(c),
{
    assert(digits[0] == '0' && digits[1] == '0');
    assert(digits[2] == escaped_char(c)[4] && digits[3] == escaped_char(c)[5]);
    assert(hex_value(digits[0]) == Some(0int));
    assert(hex_value(digits[2]) == Some(c as int / 16));
    assert(hex_value(digits[3]) == Some(c as int % 16));
}

/// What stands for a character is read as that character.
proof fn lemma_char_is_read(c: char, rest: Seq<char>)
    ensures
        read_chars(escaped_char(c) + rest) == before(Some(c), read_chars(rest)),
{
    let json = escaped_char(c) + rest;
    let length = escaped_char(c).len();
    assert(json.skip(length as int) =~= rest);
    assert(json[0] == escaped_char(c)[0]);
    if length == 6 {
        assert(json[1] == escaped_char(c)[1]);
        assert(json.subrange(2, 6) =~= escaped_char(c).subrange(2, 6));
        lemma_code_is_read(c, json.subrange(2, 6));
    } else if length == 2 {
        assert(json[1] == escaped_char(c)[1]);
    }
}

/// What stands for a text is read as that text.
proof fn lemma_text_is_read(text: Seq<char>)
    ensures
        read_chars(escaped(text)) == Some(text),
    decreases text.len(),
{
    if text.len() == 0 {
        assert(escaped(text) =~= Seq::empty());
        assert(text =~= Seq::empty());
    } else {
        lemma_escaped_from_the_front(text);
        lemma_char_is_read(text[0], escaped(text.skip(1)));
        lemma_text_is_read(text.skip(1));
        assert(seq![text[0]] + text.skip(1) =~= text);
    }
}

/// What is written for a text as a JSON string is read as that text.
pub(crate) proof fn lemma_string_is_read(text: Seq<char>)
    ensures
        read_string(json_string(text)) == Some(text),
        json_string(text).len() >= 2,
{
    let json = json_string(text);
    assert(json.subrange(1, json.len() - 1) =~= escaped(text));
    lemma_text_is_read(text);
}

proof fn lemma_member_is_read(json: Seq<char>, head: Seq<char>, name: Seq<char>, text: Seq<char>)
    requires
        head == seq!['{', '"'] + name + seq!['"', ':'],
        json == head + json_string(text) + seq!['}'],
    ensures
        read_member(json, name) == Some(text),
{
    lemma_string_is_read(text);
    assert(json.take(head.len() as int) =~= head);
    assert(json.subrange(head.len() as int, json.len() - 1) =~= json_string(text));
}

proof fn lemma_error_is_read(text: Seq<char>)
    ensures
        read_member(crate::response::error_json(text), "error"@) == Some(text),
        crate::response::error_json(text) == "{\"error\":"@ + json_string(text) + "}"@,
{
    reveal_strlit("{\"error\":");
    reveal_strlit("error");
    reveal_strlit("}");
    assert("}"@ =~= seq!['}']);
    assert("{\"error\":"@ =~= seq!['{', '"'] + "error"@ + seq!['"', ':']);
    lemma_member_is_read(
        crate::response::error_json(text),
        "{\"error\":"@,
        "error"@,
        text,
    );
}

proof fn lemma_message_is_read(text: Seq<char>)
    ensures
        read_member(crate::response::message_json(text), "message"@) == Some(text),
        crate::response::message_json(text) == "{\"message\":"@ + json_string(text) + "}"@,
{
    reveal_strlit("{\"message\":");
    reveal_strlit("message");
    reveal_strlit("}");
    assert("}"@ =~= seq!['}']);
    assert("{\"message\":"@ =~= seq!['{', '"'] + "message"@ + seq!['"', ':']);
    lemma_member_is_read(
        crate::response::message_json(text),
        "{\"message\":"@,
        "message"@,
        text,
    );
}

/// A text that is written as a JSON string is read back from it.
pub proof fn law_json_strings_are_read_back(text: &str, json: String)
    requires
        call_ensures(text_to_json, (text,), json),
    ensures
        read_string(json@) == Some(text@),
{
    lemma_string_is_read(text@);
}

proof fn lemma_escaped_joins(one: Seq<char>, other: Seq<char>)
    ensures
        escaped(one + other) == escaped(one) + escaped(other),
    decreases other.len(),
{
    if other.len() == 0 {
        assert(one + other =~= one);
        assert(escaped(other) =~= Seq::empty());
        assert(escaped(one) + escaped(other) =~= escaped(one));
    } else {
        lemma_escaped_joins(one, other.drop_last());
        assert((one + other).drop_last() =~= one + other.drop_last());
        assert((one + other).last() == other.last());
        assert(escaped(one) + escaped(other) =~= (escaped(one) + escaped(other.drop_last()))
            + escaped_char(other.last()));
    }
}

/// The JSON string of two texts in a row is that of the first followed by that of the second,
/// but for the quotes where they meet: each character is written for itself.
pub proof fn law_json_strings_are_written_char_by_char(
    one: &str,
    other: &str,
    both: &str,
    json_of_one: String,
    json_of_other: String,
    json_of_both: String,
)
    requires
        both@ == one@ + other@,
        call_ensures(text_to_json, (one,), json_of_one),
        call_ensures(text_to_json, (other,), json_of_other),
        call_ensures(text_to_json, (both,), json_of_both),
    ensures
        json_of_both@ == json_of_one@.drop_last() + json_of_other@.drop_first(),
{
    lemma_escaped_joins(one@, other@);
    assert(json_of_both@ =~= json_of_one@.drop_last() + json_of_other@.drop_first());
}

/// A character is written as it is, unless JSON forbids that or reserves it; then it takes
/// two characters where JSON has a letter for it, and six where it has none.
pub proof fn law_a_character_is_written_as_short_as_it_can_be(text: &str, json: String)
    requires
        text@.len() == 1,
        call_ensures(text_to_json, (text,), json),
    ensures
        ({
            let c = text@[0];
            let reserved = c == '"' || c == '\\' || (c as int) < 0x20;
            let has_letter = c == '"' || c == '\\' || c == '\u{8}' || c == '\t' || c == '\n' || c
                == '\u{c}' || c == '\r';
            &&& !reserved ==> json@ == seq!['"', c, '"']
            &&& has_letter ==> json@.len() == 4 && json@[1] == '\\' && read_escape(json@[2])
                == Some(c)
            &&& reserved && !has_letter ==> {
                &&& json@.len() == 8
                &&& json@[1] == '\\'
                &&& json@[2] == 'u'
                &&& read_code(json@.subrange(3, 7)) == Some(c)
                &&& !('A' as int <= json@[6] as int <= 'F' as int)
            }
        }),
{
    let c = text@[0];
    assert(text@.drop_last() =~= Seq::empty());
    assert(escaped(text@.drop_last()) =~= Seq::empty());
    assert(escaped(text@) =~= escaped_char(c));
    if escaped_char(c).len() == 1 {
        assert(json@ =~= seq!['"', c, '"']);
    } else if escaped_char(c).len() == 2 {
        assert(json@[1] == escaped_char(c)[0] && json@[2] == escaped_char(c)[1]);
        assert(json@.len() == 4);
        assert(read_escape(json@[2]) == Some(c));
    } else {
        assert(escaped_char(c).len() == 6);
        assert(json@[1] == escaped_char(c)[0] && json@[2] == escaped_char(c)[1]);
        assert(json@[6] == escaped_char(c)[5]);
        assert(json@.subrange(3, 7) =~= escaped_char(c).subrange(2, 6));
        lemma_code_is_read(c, json@.subrange(3, 7));
        assert(json@.len() == 8);
        assert(!('A' as int <= json@[6] as int <= 'F' as int));
    }
}

/// Whether a header has a name and a value.
pub open spec fn is_header(header: Header, name: Seq<char>, value: Seq<char>) -> bool {
    header.name@ == name && header.value@ == value
}

/// Whether a response has a status and says that its body is JSON, and nothing more.
pub open spec fn is_json(response: Response, status: int) -> bool {
    &&& response.status == status
    &&& response.headers@.len() == 1
    &&& is_header(response.headers@[0], "content-type"@, "application/json"@)
}

/// Whether a body is the JSON object whose one member is a text, as short as it can be
/// written.
pub open spec fn is_object(body: Seq<char>, name: Seq<char>, text: Seq<char>) -> bool {
    &&& read_member(body, name) == Some(text)
    &&& body == seq!['{', '"'] + name + seq!['"', ':'] + json_string(text) + seq!['}']
}

/// Whether a response reports an error under a status.
pub open spec fn reports(response: Response, status: int, error: Seq<char>) -> bool {
    is_json(response, status) && is_object(response.body@, "error"@, error)
}

/// Whether a response allows a browser to send a `POST` with a content type.
pub open spec fn is_preflight(response: Response) -> bool {
    &&& response.status == 200
    &&& response.headers@.len() == 3
    &&& is_header(response.headers@[0], "allow"@, "POST, OPTIONS"@)
    &&& is_header(response.headers@[1], "access-control-allow-methods"@, "POST, OPTIONS"@)
    &&& is_header(response.headers@[2], "access-control-allow-headers"@, "content-type"@)
    &&& response.body@.len() == 0
}

/// Whether a response says that a route is not known.
pub open spec fn is_not_found(response: Response, method: Seq<char>, path: Seq<char>) -> bool {
    reports(response, 404, "Ruta no encontrada: "@ + method + " "@ + path)
}

/// Whether a response says, as a JSON string, why a body could not be read.
pub open spec fn is_bad_request(response: Response, reason: Seq<char>) -> bool {
    &&& is_json(response, 400)
    &&& read_string(response.body@) == Some(reason)
    &&& response.body@ == json_string(reason)
}

/// Whether a response says that the promotion succeeded.
pub open spec fn is_success(response: Response) -> bool {
    &&& is_json(response, 200)
    &&& is_object(response.body@, "message"@, "Stack promovido"@)
    &&& response.body@ == "{\"message\":\"Stack promovido\"}"@
}

/// Whether a response says that the promotion failed, and why.
pub open spec fn is_failure(response: Response, reason: Seq<char>) -> bool {
    reports(response, 500, "Error al crear el stack de CloudFormation: "@ + reason)
}

/// Whether a text is the message that a part is missing.
pub open spec fn names_part(message: Seq<char>, part: MissingPart) -> bool {
    match part {
        MissingPart::ETag => message == "No se pudo obtener el ETag"@,
        MissingPart::Config => message
            == "No se pudo obtener la configuración de la distribución"@,
        MissingPart::DefaultCacheBehavior => message == "Falta el DefaultCacheBehavior"@,
        MissingPart::Aliases => message == "Faltan los Aliases en la distribución actual"@,
        MissingPart::ViewerCertificate => message
            == "Falta el ViewerCertificate en la distribución actual"@,
        MissingPart::CacheBehaviors => message == "Faltan los CacheBehaviors"@,
    }
}

/// Whether a text is the reason that an error gives: the quoted message of the missing part,
/// or what the service said, unchanged.
pub open spec fn is_reason(reason: Seq<char>, error: PromoteError) -> bool {
    match error {
        PromoteError::Missing(part) => {
            &&& reason.len() >= 2
            &&& reason[0] == '"'
            &&& reason.last() == '"'
            &&& names_part(reason.subrange(1, reason.len() - 1), part)
        },
        PromoteError::Service(text) => reason == text@,
    }
}

/// Each missing part is named by its own message.
pub proof fn law_missing_parts_are_named(part: MissingPart, message: &'static str)
    requires
        call_ensures(MissingPart::message, (part,), message),
    ensures
        names_part(message@, part),
{
}

pub(crate) proof fn lemma_reason(error: PromoteError)
    ensures
        is_reason(error@.debug_text(), error),
{
    reveal_strlit("\"");
    match error {
        PromoteError::Missing(part) => {
            let reason = error@.debug_text();
            assert("\""@.len() == 1);
            assert(reason.subrange(1, reason.len() - 1) =~= part.spec_message());
        },
        _ => {},
    }
}

/// An error gives the quoted message of the missing part, or what the service said,
/// unchanged.
pub proof fn law_errors_give_their_reason(error: &PromoteError, reason: String)
    requires
        call_ensures(PromoteError::debug_text, (error,), reason),
    ensures
        is_reason(reason@, *error),
{
    lemma_reason(*error);
}

/// A header has the name and the value that it was made with.
pub proof fn law_headers(name: &str, value: &str, header: Header)
    requires
        call_ensures(Header::new, (name, value), header),
    ensures
        is_header(header, name@, value@),
{
}

pub(crate) proof fn lemma_json_response(response: Response, status: int, body: Seq<char>)
    requires
        response@ == json_response(status, body),
    ensures
        is_json(response, status),
        response.body@ == body,
{
    assert(response@.headers.len() == 1);
    assert(response@.headers[0] == response.headers@[0]@);
}

pub(crate) proof fn lemma_error_response(response: Response, status: int, error: Seq<char>)
    requires
        response@ == json_response(status, crate::response::error_json(error)),
    ensures
        reports(response, status, error),
{
    lemma_json_response(response, status, crate::response::error_json(error));
    lemma_error_is_read(error);
    reveal_strlit("{\"error\":");
    reveal_strlit("error");
    reveal_strlit("}");
    assert(response.body@ =~= seq!['{', '"'] + "error"@ + seq!['"', ':'] + json_string(error)
        + seq!['}']);
}

pub(crate) proof fn lemma_preflight(response: Response)
    requires
        response@ == crate::response::preflight(),
    ensures
        is_preflight(response),
{
    reveal_strlit("");
    assert(response@.headers.len() == 3);
    assert(response@.headers[0] == response.headers@[0]@);
    assert(response@.headers[1] == response.headers@[1]@);
    assert(response@.headers[2] == response.headers@[2]@);
}

pub(crate) proof fn lemma_bad_request(response: Response, reason: Seq<char>)
    requires
        response@ == crate::response::bad_request(reason),
    ensures
        is_bad_request(response, reason),
{
    lemma_json_response(response, 400, json_string(reason));
    lemma_string_is_read(reason);
}

pub(crate) proof fn lemma_success(response: Response)
    requires
        response@ == crate::response::stack_promoted(),
    ensures
        is_success(response),
{
    lemma_json_response(response, 200, crate::response::message_json("Stack promovido"@));
    lemma_message_is_read("Stack promovido"@);
    reveal_strlit("{\"message\":");
    reveal_strlit("message");
    reveal_strlit("}");
    reveal_strlit("Stack promovido");
    reveal_strlit("{\"message\":\"Stack promovido\"}");
    crate::laws::law_plain_text_stands_as_it_is("Stack promovido"@);
    assert(response.body@ =~= seq!['{', '"'] + "message"@ + seq!['"', ':'] + json_string(
        "Stack promovido"@,
    ) + seq!['}']);
    assert(response.body@ =~= "{\"message\":\"Stack promovido\"}"@);
}

/// The body of a success is an object whose `message` is read back.
pub proof fn law_messages_are_read_back(body: &DeployResponse, json: String)
    requires
        call_ensures(DeployResponse::to_json, (body,), json),
    ensures
        is_object(json@, "message"@, body.message@),
{
    lemma_message_is_read(body.message@);
    reveal_strlit("{\"message\":");
    reveal_strlit("message");
    reveal_strlit("}");
    assert(json@ =~= seq!['{', '"'] + "message"@ + seq!['"', ':'] + json_string(body.message@)
        + seq!['}']);
}

/// The body of an error is an object whose `error` is read back.
pub proof fn law_errors_are_read_back(body: &ErrorResponse, json: String)
    requires
        call_ensures(ErrorResponse::to_json, (body,), json),
    ensures
        is_object(json@, "error"@, body.error@),
{
    lemma_error_is_read(body.error@);
    reveal_strlit("{\"error\":");
    reveal_strlit("error");
    reveal_strlit("}");
    assert(json@ =~= seq!['{', '"'] + "error"@ + seq!['"', ':'] + json_string(body.error@)
        + seq!['}']);
}

/// A JSON response has the status and the body that it was made with.
pub proof fn law_json_responses(status: u16, body: String, response: Response)
    requires
        call_ensures(new_json_response, (status, body), response),
    ensures
        is_json(response, status as int),
        response.body@ == body@,
{
    lemma_json_response(response, status as int, body@);
}

/// A preflight is allowed a `POST` with a content type.
pub proof fn law_preflights_are_allowed(response: Response)
    requires
        call_ensures(new_preflight, (), response),
    ensures
        is_preflight(response),
{
    lemma_preflight(response);
}

/// What is not found is answered under status 404, with the method and the path.
pub proof fn law_unknown_routes_are_reported(method: &str, path: &str, response: Response)
    requires
        call_ensures(new_not_found, (method, path), response),
    ensures
        is_not_found(response, method@, path@),
{
    lemma_error_response(response, 404, "Ruta no encontrada: "@ + method@ + " "@ + path@);
}

/// What is wrong with a body is answered under status 400, and read back as it was said.
pub proof fn law_bad_bodies_are_reported(reason: &str, response: Response)
    requires
        call_ensures(new_bad_request, (reason,), response),
    ensures
        is_bad_request(response, reason@),
{
    lemma_bad_request(response, reason@);
}

/// A promotion that succeeded is answered under status 200.
pub proof fn law_successes_are_reported(response: Response)
    requires
        call_ensures(new_stack_promoted, (), response),
    ensures
        is_success(response),
{
    lemma_success(response);
}

/// Whatever the error, a promotion that failed is answered under status 500 with the reason
/// that the error gives.
pub proof fn law_failures_are_reported_under_status_500(error: &PromoteError, response: Response)
    requires
        call_ensures(new_promotion_failed, (error,), response),
    ensures
        response.status == 500,
        exists|reason: Seq<char>|
            #[trigger] is_reason(reason, *error) && is_failure(response, reason),
{
    lemma_failure(response, *error);
}

pub(crate) proof fn lemma_failure(response: Response, error: PromoteError)
    requires
        response@ == crate::response::promotion_failed(error@),
    ensures
        response.status == 500,
        is_reason(error@.debug_text(), error),
        is_failure(response, error@.debug_text()),
{
    lemma_reason(error);
    lemma_error_response(
        response,
        500,
        "Error al crear el stack de CloudFormation: "@ + error@.debug_text(),
    );
}

} // verus!
