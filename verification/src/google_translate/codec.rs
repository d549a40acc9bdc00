//! What goes over the wire: the session token in the start page, the body of
//! the batch request, and the translation inside the reply.

use vstd::prelude::*;
use vstd::string::StringExecFns;
use crate::error::TranslateError;
use crate::escape::{escaped, lemma_read_escaped, push_escaped, read_literal};
use crate::form::{form_urlencoded, pairs_view, urlencode};
use crate::json::{json_document, parse, Json, JsonTree};
use crate::text::{between, chars_of, contains, cut_between, find_from, first_occurrence};

verus! {

/// What stands in the start page right before the session token.
pub const FSID_ANCHOR: &'static str = "FdrFJe\":\"";

/// The session token of a start page: what stands between the anchor and the
/// next double quote.
pub open spec fn token_of(page: Seq<char>) -> Option<Seq<char>> {
    between(page, FSID_ANCHOR@, "\""@)
}

/// Takes the session token out of the start page.
pub fn acquire_fsid_from_html<'a>(html: &'a String) -> (r: Result<&'a str, TranslateError>)
    ensures
        match r {
            Ok(token) => token_of(html@) == Some(token@),
            Err(e) => e == TranslateError::TokenNotFound && token_of(html@) is None,
        },
        !contains(html@, FSID_ANCHOR@) ==> r == Err::<&str, TranslateError>(
            TranslateError::TokenNotFound,
        ),
{
    match cut_between(html.as_str(), FSID_ANCHOR, "\"") {
        Some(token) => Ok(token),
        None => Err(TranslateError::TokenNotFound),
    }
}

/// The request as the service reads it: a JSON array that holds the text with
/// its two languages, written out as text.
pub open spec fn request_document(text: Seq<char>, source: Seq<char>, target: Seq<char>) -> Seq<
    char,
> {
    "[[\""@ + escaped(text) + "\",\""@ + escaped(source) + "\",\""@ + escaped(target)
        + "\",true],[null]]"@
}

/// The envelope round the request: a JSON array that holds the name of the
/// call and, as a string, the request document.
pub open spec fn envelope(
    rpc: Seq<char>,
    text: Seq<char>,
    source: Seq<char>,
    target: Seq<char>,
) -> Seq<char> {
    "[[[\""@ + escaped(rpc) + "\",\""@ + escaped(request_document(text, source, target))
        + "\",null,\"generic\"]]]"@
}

/// Writes the request document for `text` and its two languages.
pub fn build_request_document(text: &str, source: &str, target: &str) -> (r: String)
    ensures
        r@ == request_document(text@, source@, target@),
{
    let mut out = String::new();
    out.append("[[\"");
    push_escaped(&mut out, text);
    out.append("\",\"");
    push_escaped(&mut out, source);
    out.append("\",\"");
    push_escaped(&mut out, target);
    out.append("\",true],[null]]");
    assert(out@ =~= request_document(text@, source@, target@));
    out
}

/// Writes the envelope for the call `rpc` with `text` and its two languages.
pub fn build_envelope(rpc: &str, text: &str, source: &str, target: &str) -> (r: String)
    ensures
        r@ == envelope(rpc@, text@, source@, target@),
{
    let document = build_request_document(text, source, target);
    let mut out = String::new();
    out.append("[[[\"");
    push_escaped(&mut out, rpc);
    out.append("\",\"");
    push_escaped(&mut out, document.as_str());
    out.append("\",null,\"generic\"]]]");
    assert(out@ =~= envelope(rpc@, text@, source@, target@));
    out
}

/// The body of the batch request: the envelope as the value of the one form
/// field `f.req`.
pub open spec fn payload(
    rpc: Seq<char>,
    text: Seq<char>,
    source: Seq<char>,
    target: Seq<char>,
) -> Seq<char> {
    form_urlencoded(seq![("f.req"@, envelope(rpc, text, source, target))])
}

/// Writes the body of the batch request.
pub fn create_payload_string(
    rpc: &str,
    untranslated_text: &String,
    source_lang: &str,
    destination_lang: &str,
) -> (r: String)
    ensures
        r@ == payload(rpc@, untranslated_text@, source_lang@, destination_lang@),
{
    let envelope = build_envelope(rpc, untranslated_text.as_str(), source_lang, destination_lang);
    let mut fields: Vec<(String, String)> = Vec::new();
    fields.push(("f.req".to_owned(), envelope));
    assert(pairs_view(fields@) =~= seq![
        ("f.req"@, self::envelope(rpc@, untranslated_text@, source_lang@, destination_lang@)),
    ]);
    urlencode(&fields)
}

/// The first chunk of a reply: what starts at the first `[` and ends before
/// the next line break, or at the end where no line break follows. `None`
/// where the reply holds no `[`.
pub open spec fn first_chunk(body: Seq<char>) -> Option<Seq<char>> {
    match first_occurrence(body, "["@) {
        None => None,
        Some(at) => {
            let rest = body.skip(at);
            match first_occurrence(rest, "\n"@) {
                Some(end) => Some(rest.take(end)),
                None => Some(rest),
            }
        },
    }
}

/// The way from the outer document down to the string that holds the inner
/// document.
pub open spec fn outer_path() -> Seq<usize> {
    seq![0, 2]
}

/// The way from the inner document down to the first candidate.
pub open spec fn candidate_path() -> Seq<usize> {
    seq![1, 0, 0, 5, 0, 0]
}

/// The string at the end of `path`, where the way leads through arrays only
/// and ends at a string.
pub open spec fn text_at(doc: JsonTree, path: Seq<usize>) -> Option<Seq<char>> {
    match doc.descend(path) {
        Some(node) => node.text(),
        None => None,
    }
}

/// What a reply to the request for `text` says: the first candidate of the
/// inner document, which the outer document of the first chunk holds as a
/// string. A reply that does not repeat `text` is an error page; one that
/// does and is built otherwise does not follow the protocol.
pub open spec fn decoded(body: Seq<char>, text: Seq<char>) -> Result<Seq<char>, TranslateError> {
    if !contains(body, text) {
        Err(TranslateError::UpstreamError)
    } else {
        match first_chunk(body) {
            None => Err(TranslateError::ProtocolSchemaMismatch),
            Some(chunk) => match json_document(chunk) {
                None => Err(TranslateError::ProtocolSchemaMismatch),
                Some(outer) => match text_at(outer, outer_path()) {
                    None => Err(TranslateError::ProtocolSchemaMismatch),
                    Some(inner_text) => match json_document(inner_text) {
                        None => Err(TranslateError::ProtocolSchemaMismatch),
                        Some(inner) => match text_at(inner, candidate_path()) {
                            None => Err(TranslateError::ProtocolSchemaMismatch),
                            Some(candidate) => Ok(candidate),
                        },
                    },
                },
            },
        }
    }
}

/// An inner document with fewer than six levels of arrays holds no
/// candidate: reading it fails as a break of the protocol.
pub proof fn lemma_shallow_document_has_no_candidate(inner: JsonTree)
    requires
        !inner.nested(6),
    ensures
        text_at(inner, candidate_path()) is None,
{
    if inner.descend(candidate_path()) is Some {
        inner.lemma_descend_needs_depth(candidate_path());
    }
}

/// Whether the reply repeats the text that was sent.
pub fn check_response_ok(response: &String, untranslated_text: &String) -> (r: bool)
    ensures
        r == contains(response@, untranslated_text@),
{
    let body = chars_of(response.as_str());
    let text = chars_of(untranslated_text.as_str());
    assert(body@.skip(0) =~= body@);
    find_from(&body, &text, 0).is_some()
}

/// Cuts the first chunk out of a reply.
pub fn cut_first_chunk<'a>(response: &'a str) -> (r: Option<&'a str>)
    ensures
        match r {
            Some(chunk) => first_chunk(response@) == Some(chunk@),
            None => first_chunk(response@) is None,
        },
{
    let body = chars_of(response);
    let bracket = chars_of("[");
    let line_break = chars_of("\n");
    assert(body@.skip(0) =~= body@);
    match find_from(&body, &bracket, 0) {
        None => None,
        Some(at) => {
            let chunk = match find_from(&body, &line_break, at) {
                Some(end) => response.substring_char(at, end),
                None => response.substring_char(at, body.len()),
            };
            assert(chunk@ =~= first_chunk(response@)->Some_0);
            Some(chunk)
        },
    }
}

/// The text of the inner document, which the outer document holds as a
/// string in the third place of its first element.
pub fn inner_document<'a>(outer: &'a Json) -> (r: Result<&'a str, TranslateError>)
    ensures
        match r {
            Ok(inner_text) => text_at(outer@, outer_path()) == Some(inner_text@),
            Err(e) => e == TranslateError::ProtocolSchemaMismatch && text_at(
                outer@,
                outer_path(),
            ) is None,
        },
{
    let path: [usize; 2] = [0, 2];
    assert(path@ =~= outer_path());
    match outer.descend(path.as_slice()) {
        None => Err(TranslateError::ProtocolSchemaMismatch),
        Some(node) => match node.text() {
            None => Err(TranslateError::ProtocolSchemaMismatch),
            Some(inner_text) => Ok(inner_text),
        },
    }
}

/// The first candidate of the inner document. The candidates beside it are
/// not looked at.
pub fn first_candidate<'a>(inner: &'a Json) -> (r: Result<&'a str, TranslateError>)
    ensures
        match r {
            Ok(candidate) => text_at(inner@, candidate_path()) == Some(candidate@),
            Err(e) => e == TranslateError::ProtocolSchemaMismatch && text_at(
                inner@,
                candidate_path(),
            ) is None,
        },
{
    let path: [usize; 6] = [1, 0, 0, 5, 0, 0];
    assert(path@ =~= candidate_path());
    match inner.descend(path.as_slice()) {
        None => Err(TranslateError::ProtocolSchemaMismatch),
        Some(node) => match node.text() {
            None => Err(TranslateError::ProtocolSchemaMismatch),
            Some(candidate) => Ok(candidate),
        },
    }
}

/// Reads the translation out of the reply to the request for
/// `untranslated_text`.
pub fn unwrap_response(untranslated_text: &String, response: &String) -> (r: Result<
    String,
    TranslateError,
>)
    ensures
        match r {
            Ok(translation) => decoded(response@, untranslated_text@) == Ok::<
                Seq<char>,
                TranslateError,
            >(translation@),
            Err(e) => decoded(response@, untranslated_text@) == Err::<Seq<char>, TranslateError>(e),
        },
        !contains(response@, untranslated_text@) ==> r == Err::<String, TranslateError>(
            TranslateError::UpstreamError,
        ),
{
    if !check_response_ok(response, untranslated_text) {
        return Err(TranslateError::UpstreamError);
    }
    let chunk = match cut_first_chunk(response.as_str()) {
        Some(chunk) => chunk,
        None => {
            return Err(TranslateError::ProtocolSchemaMismatch);
        },
    };
    let outer = match parse(chunk) {
        Some(outer) => outer,
        None => {
            return Err(TranslateError::ProtocolSchemaMismatch);
        },
    };
    let inner_text = match inner_document(&outer) {
        Ok(inner_text) => inner_text,
        Err(e) => {
            return Err(e);
        },
    };
    let inner = match parse(inner_text) {
        Some(inner) => inner,
        None => {
            return Err(TranslateError::ProtocolSchemaMismatch);
        },
    };
    match first_candidate(&inner) {
        Ok(candidate) => Ok(candidate.to_owned()),
        Err(e) => Err(e),
    }
}

/// What is left of `input` behind `prefix`; `None` where `input` does not
/// begin with it.
pub open spec fn after_prefix(input: Seq<char>, prefix: Seq<char>) -> Option<Seq<char>> {
    if prefix.len() <= input.len() && input.take(prefix.len() as int) == prefix {
        Some(input.skip(prefix.len() as int))
    } else {
        None
    }
}

/// Reads one string literal from behind its opening quote: what it says, and
/// the text that follows its closing quote.
pub open spec fn read_string(input: Seq<char>) -> Option<(Seq<char>, Seq<char>)> {
    match read_literal(input) {
        Some((said, read)) => Some((said, input.skip(read))),
        None => None,
    }
}

/// Reads a request document back: the text and its two languages. `None`
/// for anything that is not built as `request_document` builds it.
pub open spec fn read_request_document(document: Seq<char>) -> Option<
    (Seq<char>, Seq<char>, Seq<char>),
> {
    match after_prefix(document, "[[\""@) {
        None => None,
        Some(at_text) => match read_string(at_text) {
            None => None,
            Some((text, after_text)) => match after_prefix(after_text, ",\""@) {
                None => None,
                Some(at_source) => match read_string(at_source) {
                    None => None,
                    Some((source, after_source)) => match after_prefix(after_source, ",\""@) {
                        None => None,
                        Some(at_target) => match read_string(at_target) {
                            None => None,
                            Some((target, end)) => if end == ",true],[null]]"@ {
                                Some((text, source, target))
                            } else {
                                None
                            },
                        },
                    },
                },
            },
        },
    }
}

/// Reads an envelope back: the name of the call and the request document.
/// `None` for anything that is not built as `envelope` builds it.
pub open spec fn read_envelope(envelope: Seq<char>) -> Option<(Seq<char>, Seq<char>)> {
    match after_prefix(envelope, "[[[\""@) {
        None => None,
        Some(at_rpc) => match read_string(at_rpc) {
            None => None,
            Some((rpc, after_rpc)) => match after_prefix(after_rpc, ",\""@) {
                None => None,
                Some(at_document) => match read_string(at_document) {
                    None => None,
                    Some((document, end)) => if end == ",null,\"generic\"]]]"@ {
                        Some((rpc, document))
                    } else {
                        None
                    },
                },
            },
        },
    }
}

/// Behind a prefix stands what was put behind it.
pub proof fn lemma_after_prefix(prefix: Seq<char>, rest: Seq<char>)
    ensures
        after_prefix(prefix + rest, prefix) == Some(rest),
{
    assert((prefix + rest).take(prefix.len() as int) =~= prefix);
    assert((prefix + rest).skip(prefix.len() as int) =~= rest);
}

/// A literal that holds the escaped form of `s` is read back as `s`, and
/// what follows the literal is left over.
pub proof fn lemma_read_string(s: Seq<char>, rest: Seq<char>)
    ensures
        read_string(escaped(s) + seq!['"'] + rest) == Some((s, rest)),
{
    lemma_read_escaped(s, rest);
    assert((escaped(s) + seq!['"'] + rest).skip(escaped(s).len() as int + 1) =~= rest);
}

/// The request document gives back what it was made of, whatever the text
/// and the languages hold: quotes, backslashes, control characters, nothing
/// at all.
pub proof fn lemma_request_document_round_trip(
    text: Seq<char>,
    source: Seq<char>,
    target: Seq<char>,
)
    ensures
        read_request_document(request_document(text, source, target)) == Some(
            (text, source, target),
        ),
{
    reveal_strlit("\",\"");
    reveal_strlit(",\"");
    reveal_strlit("\",true],[null]]");
    reveal_strlit(",true],[null]]");
    let quote = seq!['"'];
    let end = ",true],[null]]"@;
    assert("\",\""@ =~= quote + ",\""@);
    assert("\",true],[null]]"@ =~= quote + end);
    let at_target = escaped(target) + quote + end;
    let after_source = ",\""@ + at_target;
    let at_source = escaped(source) + quote + after_source;
    let after_text = ",\""@ + at_source;
    let at_text = escaped(text) + quote + after_text;
    assert(request_document(text, source, target) =~= "[[\""@ + at_text);
    lemma_after_prefix("[[\""@, at_text);
    lemma_read_string(text, after_text);
    lemma_after_prefix(",\""@, at_source);
    lemma_read_string(source, after_source);
    lemma_after_prefix(",\""@, at_target);
    lemma_read_string(target, end);
}

/// The envelope gives back the name of the call and the request document,
/// and the request document the text and its languages: nothing that the
/// text holds can break the envelope or change what it carries.
pub proof fn lemma_envelope_round_trip(
    rpc: Seq<char>,
    text: Seq<char>,
    source: Seq<char>,
    target: Seq<char>,
)
    ensures
        read_envelope(envelope(rpc, text, source, target)) == Some(
            (rpc, request_document(text, source, target)),
        ),
        read_request_document(request_document(text, source, target)) == Some(
            (text, source, target),
        ),
{
    reveal_strlit("\",\"");
    reveal_strlit(",\"");
    reveal_strlit("\",null,\"generic\"]]]");
    reveal_strlit(",null,\"generic\"]]]");
    let quote = seq!['"'];
    let end = ",null,\"generic\"]]]"@;
    let document = request_document(text, source, target);
    assert("\",\""@ =~= quote + ",\""@);
    assert("\",null,\"generic\"]]]"@ =~= quote + end);
    let at_document = escaped(document) + quote + end;
    let after_rpc = ",\""@ + at_document;
    let at_rpc = escaped(rpc) + quote + after_rpc;
    assert(envelope(rpc, text, source, target) =~= "[[[\""@ + at_rpc);
    lemma_after_prefix("[[[\""@, at_rpc);
    lemma_read_string(rpc, after_rpc);
    lemma_after_prefix(",\""@, at_document);
    lemma_read_string(document, end);
    lemma_request_document_round_trip(text, source, target);
}

} // verus!
