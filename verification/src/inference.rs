//! Inference requests: checking the request, describing its input, building
//! the call, and reading the answer.

use vstd::prelude::*;
use vstd::utf8::{
    decode_utf8, decode_utf8_encode_utf8, encode_utf8, encode_utf8_valid_utf8, is_char_boundary,
    valid_utf8_split,
};
use vstd::string::StringSliceAdditionalSpecFns;
use crate::json::{Json, JsonNumber, JsonValue, Num, lemma_lookup_finds, object, put, singleton};
use crate::report::{RpcRequest, member, request};
use crate::text::{chars_of, concat2, opt_chars, owned, starts_with, str_starts_with};
use crate::node::find_char;

verus! {

broadcast use {vstd::string::group_string_axioms, vstd::utf8::encode_utf8_decode_utf8};

/// `c` with ASCII capitals made small.
pub open spec fn ascii_lower(c: char) -> char {
    if 'A' <= c <= 'Z' {
        ((c as u32) + 32) as char
    } else {
        c
    }
}

/// Every character is a decimal digit.
pub open spec fn all_digits(s: Seq<char>) -> bool {
    forall|i: int| 0 <= i < s.len() ==> '0' <= #[trigger] s[i] <= '9'
}

/// `s` without one leading `+` or `-`.
pub open spec fn unsigned_part(s: Seq<char>) -> Seq<char> {
    if s.len() > 0 && (s[0] == '+' || s[0] == '-') {
        s.skip(1)
    } else {
        s
    }
}

/// `Digit+ | Digit+ '.' Digit* | Digit* '.' Digit+`.
pub open spec fn is_mantissa(m: Seq<char>) -> bool {
    let d = find_char(m, '.');
    if d == m.len() {
        m.len() > 0 && all_digits(m)
    } else {
        all_digits(m.take(d)) && all_digits(m.skip(d + 1)) && (d > 0 || m.len() - d - 1 > 0)
    }
}

/// `Number ::= Mantissa ('e' Sign? Digit+)?` over lowercased text.
pub open spec fn is_number(t: Seq<char>) -> bool {
    let e = find_char(t, 'e');
    is_mantissa(t.take(e)) && (e == t.len() || ({
        let x = unsigned_part(t.skip(e + 1));
        x.len() > 0 && all_digits(x)
    }))
}

/// Text that `f64::from_str` accepts: after lowercasing, an optional sign
/// followed by `inf`, `infinity`, `nan` or a decimal number with an optional
/// exponent; no surrounding whitespace.
pub open spec fn is_float_text(s: Seq<char>) -> bool {
    let t = unsigned_part(s).map_values(|c: char| ascii_lower(c));
    t == "inf"@ || t == "infinity"@ || t == "nan"@ || is_number(t)
}

fn lower(c: char) -> (r: char)
    ensures
        r == ascii_lower(c),
{
    if 'A' <= c && c <= 'Z' {
        let b: u8 = (c as u32 + 32) as u8;
        b as char
    } else {
        c
    }
}

fn digits_between(cs: &Vec<char>, lo: usize, hi: usize) -> (r: bool)
    requires
        lo <= hi <= cs@.len(),
    ensures
        r == all_digits(cs@.subrange(lo as int, hi as int)),
{
    let mut i = lo;
    while i < hi
        invariant
            lo <= i <= hi <= cs@.len(),
            forall|k: int| lo <= k < i ==> '0' <= #[trigger] cs@[k] <= '9',
        decreases hi - i,
    {
        if !('0' <= cs[i] && cs[i] <= '9') {
            assert(cs@.subrange(lo as int, hi as int)[i - lo] == cs@[i as int]);
            return false;
        }
        i = i + 1;
    }
    assert forall|k: int| 0 <= k < hi - lo implies '0' <= #[trigger] cs@.subrange(lo as int, hi as int)[k]
        <= '9' by {
        assert(cs@.subrange(lo as int, hi as int)[k] == cs@[lo + k]);
    }
    true
}

fn first_from(cs: &Vec<char>, lo: usize, hi: usize, c: char) -> (r: usize)
    requires
        lo <= hi <= cs@.len(),
    ensures
        lo <= r <= hi,
        r - lo == find_char(cs@.subrange(lo as int, hi as int), c),
{
    let mut i = lo;
    while i < hi && cs[i] != c
        invariant
            lo <= i <= hi <= cs@.len(),
            forall|k: int| lo <= k < i ==> cs@[k] != c,
        decreases hi - i,
    {
        i = i + 1;
    }
    proof {
        crate::node::lemma_find_char(cs@.subrange(lo as int, hi as int), c, i - lo);
    }
    i
}

fn mantissa_between(cs: &Vec<char>, lo: usize, hi: usize) -> (r: bool)
    requires
        lo <= hi <= cs@.len(),
    ensures
        r == is_mantissa(cs@.subrange(lo as int, hi as int)),
{
    let ghost m = cs@.subrange(lo as int, hi as int);
    let d = first_from(cs, lo, hi, '.');
    if d == hi {
        hi > lo && digits_between(cs, lo, hi)
    } else {
        assert(m.take(d - lo) =~= cs@.subrange(lo as int, d as int));
        assert(m.skip(d - lo + 1) =~= cs@.subrange(d + 1, hi as int));
        digits_between(cs, lo, d) && digits_between(cs, d + 1, hi) && (d > lo || hi - d - 1 > 0)
    }
}

/// Whether `f64::from_str` accepts the text (the value itself is not kept).
pub fn is_float(s: &str) -> (r: bool)
    ensures
        r == is_float_text(s@),
{
    let raw = chars_of(s);
    let start: usize = if raw.len() > 0 && (raw[0] == '+' || raw[0] == '-') {
        1
    } else {
        0
    };
    let ghost u = unsigned_part(s@);
    assert(u =~= raw@.skip(start as int));
    let mut t: Vec<char> = Vec::new();
    let mut i = start;
    while i < raw.len()
        invariant
            start <= i <= raw@.len(),
            u =~= raw@.skip(start as int),
            t@ =~= u.take(i - start).map_values(|c: char| ascii_lower(c)),
        decreases raw@.len() - i,
    {
        t.push(lower(raw[i]));
        i = i + 1;
    }
    let ghost tl = u.map_values(|c: char| ascii_lower(c));
    assert(t@ =~= tl) by {
        assert(u.take(raw@.len() - start) =~= u);
    }
    let ts = crate::text::string_from_chars(t.as_slice());
    if ts == owned("inf") || ts == owned("infinity") || ts == owned("nan") {
        return true;
    }
    let n = t.len();
    assert(t@.subrange(0, n as int) =~= t@);
    let e = first_from(&t, 0, n, 'e');
    assert(t@.take(e as int) =~= t@.subrange(0, e as int));
    if !mantissa_between(&t, 0, e) {
        return false;
    }
    if e == n {
        return true;
    }
    let xs: usize = if e + 1 < n && (t[e + 1] == '+' || t[e + 1] == '-') {
        e + 2
    } else {
        e + 1
    };
    assert(unsigned_part(t@.skip(e + 1)) =~= t@.subrange(xs as int, n as int));
    xs < n && digits_between(&t, xs, n)
}

/// How the request's input is described: a file, a URL, or the text itself,
/// shortened to its first 97 bytes and `...` when longer than 100 bytes.
pub open spec fn input_preview(input: Seq<char>, is_file: bool) -> Seq<char> {
    if is_file {
        "File: "@ + input
    } else if starts_with(input, "http://"@) || starts_with(input, "https://"@) {
        "URL: "@ + input
    } else if encode_utf8(input).len() > 100 {
        decode_utf8(encode_utf8(input).take(97)) + "..."@
    } else {
        input
    }
}

/// The description of the input shown before the request is sent; `is_file`
/// says whether the input names an existing path.
pub fn preview(input: &str, is_file: bool) -> (r: String)
    requires
        !is_file && !starts_with(input@, "http://"@) && !starts_with(input@, "https://"@)
            && encode_utf8(input@).len() > 100 ==> is_char_boundary(encode_utf8(input@), 97),
    ensures
        r@ == input_preview(input@, is_file),
{
    if is_file {
        concat2("File: ", input)
    } else if str_starts_with(input, "http://") || str_starts_with(input, "https://") {
        concat2("URL: ", input)
    } else if input.as_bytes().len() > 100 {
        let (head, _) = input.split_at(97);
        assert(head.spec_bytes() =~= encode_utf8(input@).take(97));
        assert(decode_utf8(encode_utf8(input@).take(97)) == head@);
        concat2(head, "...")
    } else {
        owned(input)
    }
}

/// The parameters of an inference request: one object in an array. The
/// temperature is given as the JSON value it becomes (a number or `null`).
pub open spec fn spec_inference_params(
    model_id: Seq<char>,
    input: Seq<char>,
    max_price: Seq<char>,
    require_tee: bool,
    temperature: Json,
    max_tokens: Option<u32>,
) -> Json {
    Json::Arr(
        seq![
            Json::Obj(
                seq![
                    ("model_id"@, Json::Str(model_id)),
                    ("input"@, Json::Str(input)),
                    ("max_price"@, Json::Str(max_price)),
                    ("require_tee"@, Json::Bool(require_tee)),
                    ("temperature"@, temperature),
                    ("max_tokens"@, match max_tokens {
                        Some(n) => Json::Number(Num::PosInt(n as u64)),
                        None => Json::Null,
                    }),
                ],
            ),
        ],
    )
}

/// The `tenzro_inferenceRequest` call.
pub fn inference_request(
    model_id: &str,
    input: &str,
    max_price: &str,
    require_tee: bool,
    temperature: JsonValue,
    max_tokens: Option<u32>,
) -> (r: RpcRequest)
    ensures
        r.method@ == "tenzro_inferenceRequest"@,
        r.params@ == spec_inference_params(
            model_id@,
            input@,
            max_price@,
            require_tee,
            temperature@,
            max_tokens,
        ),
        r.params@.param("model_id"@) == Some(Json::Str(model_id@)),
        r.params@.param("input"@) == Some(Json::Str(input@)),
        r.params@.param("max_price"@) == Some(Json::Str(max_price@)),
        r.params@.param("require_tee"@) == Some(Json::Bool(require_tee)),
        r.params@.param("temperature"@) == Some(temperature@),
        max_tokens matches Some(n) ==> r.params@.param("max_tokens"@) == Some(
            Json::Number(Num::PosInt(n as u64)),
        ),
        max_tokens is None ==> r.params@.param("max_tokens"@) == Some(Json::Null),
{
    proof {
        lemma_inference_params(model_id@, input@, max_price@, require_tee, temperature@, max_tokens);
    }
    let ghost t = temperature@;
    let mut es: Vec<(String, JsonValue)> = Vec::new();
    put(&mut es, "model_id", JsonValue::Str(owned(model_id)));
    put(&mut es, "input", JsonValue::Str(owned(input)));
    put(&mut es, "max_price", JsonValue::Str(owned(max_price)));
    put(&mut es, "require_tee", JsonValue::Bool(require_tee));
    put(&mut es, "temperature", temperature);
    let tokens = match max_tokens {
        Some(n) => JsonValue::Number(JsonNumber::PosInt(n as u64)),
        None => JsonValue::Null,
    };
    put(&mut es, "max_tokens", tokens);
    let o = object(es);
    let ghost want = spec_inference_params(model_id@, input@, max_price@, require_tee, t, max_tokens);
    assert(o@->Obj_0 =~= want->Arr_0[0]->Obj_0);
    let params = singleton(o);
    assert(params@->Arr_0 =~= want->Arr_0);
    request("tenzro_inferenceRequest", params)
}

/// What is shown as the model's response.
#[derive(Debug, PartialEq)]
pub enum ResponseBody<'a> {
    /// The `response` text.
    Text(String),
    /// No response text: the `output` value, shown as JSON.
    Output(&'a JsonValue),
    /// Neither.
    Nothing,
}

/// The answer's `response` text, else its `output`, else nothing.
pub fn response_body<'a>(result: &'a JsonValue) -> (r: ResponseBody<'a>)
    ensures
        match r {
            ResponseBody::Text(t) => result@.str_at("response"@) == Some(t@),
            ResponseBody::Output(o) => result@.str_at("response"@) is None && result@.get("output"@)
                == Some(o@),
            ResponseBody::Nothing => result@.str_at("response"@) is None && result@.get("output"@) is None,
        },
{
    match result.str_at("response") {
        Some(t) => ResponseBody::Text(t),
        None => match result.get("output") {
            Some(o) => ResponseBody::Output(o),
            None => ResponseBody::Nothing,
        },
    }
}

/// The facts about an answered request that are shown after the response.
#[derive(Debug, PartialEq)]
pub struct InferenceMetadata {
    pub request_id: Option<String>,
    pub provider: Option<String>,
    pub input_tokens: Option<u64>,
    pub output_tokens: Option<u64>,
    pub actual_price: Option<String>,
}

/// The answer's metadata.
pub fn metadata(result: &JsonValue) -> (r: InferenceMetadata)
    ensures
        opt_chars(r.request_id) == result@.str_at("request_id"@),
        opt_chars(r.provider) == result@.str_at("provider"@),
        r.input_tokens == result@.u64_at("input_tokens"@),
        r.output_tokens == result@.u64_at("output_tokens"@),
        opt_chars(r.actual_price) == result@.str_at("actual_price"@),
{
    InferenceMetadata {
        request_id: result.str_at("request_id"),
        provider: result.str_at("provider"),
        input_tokens: result.u64_at("input_tokens"),
        output_tokens: result.u64_at("output_tokens"),
        actual_price: result.str_at("actual_price"),
    }
}

/// A TEE attestation that came with an answer.
#[derive(Debug, PartialEq)]
pub struct Attestation {
    pub vendor: Option<String>,
    pub enclave_id: Option<String>,
}

/// The attestation to show: only when TEE execution was required and the
/// answer carries one.
pub fn attestation(result: &JsonValue, require_tee: bool) -> (r: Option<Attestation>)
    ensures
        r is Some <==> require_tee && result@.get("attestation"@) is Some,
        r matches Some(a) ==> opt_chars(a.vendor) == member(result@.get("attestation"@), "vendor"@)
            && opt_chars(a.enclave_id) == member(result@.get("attestation"@), "enclave_id"@),
{
    if !require_tee {
        return None;
    }
    match result.get("attestation") {
        Some(a) => Some(Attestation { vendor: a.str_at("vendor"), enclave_id: a.str_at("enclave_id") }),
        None => None,
    }
}

/// The text saved to the output file: the response text, when an output
/// file was asked for and the answer has one.
pub fn saved_text(result: &JsonValue, wants_file: bool) -> (r: Option<String>)
    ensures
        opt_chars(r) == (if wants_file {
            result@.str_at("response"@)
        } else {
            None
        }),
{
    if wants_file {
        result.str_at("response")
    } else {
        None
    }
}

/// UTF-8 encoding of a concatenation.
pub proof fn lemma_encode_utf8_concat(a: Seq<char>, b: Seq<char>)
    ensures
        encode_utf8(a + b) == encode_utf8(a) + encode_utf8(b),
    decreases a.len(),
{
    if a.len() == 0 {
        assert(a + b =~= b);
        assert(encode_utf8(a) + encode_utf8(b) =~= encode_utf8(b));
    } else {
        assert((a + b).drop_first() =~= a.drop_first() + b);
        assert((a + b)[0] == a[0]);
        lemma_encode_utf8_concat(a.drop_first(), b);
        assert(encode_utf8(a + b) =~= encode_utf8(a) + encode_utf8(b));
    }
}

/// An input that names a file is described as that file, whatever it holds;
/// any other input that starts with `http://` or `https://` as a URL; any
/// other input of at most 100 bytes as itself.
pub proof fn lemma_preview_kinds(input: Seq<char>)
    ensures
        input_preview(input, true) == "File: "@ + input,
        starts_with(input, "http://"@) || starts_with(input, "https://"@) ==> input_preview(input, false)
            == "URL: "@ + input,
        !starts_with(input, "http://"@) && !starts_with(input, "https://"@) && encode_utf8(input).len()
            <= 100 ==> input_preview(input, false) == input,
{
}

/// A text input is never described with more than 100 bytes.
pub proof fn lemma_preview_fits(input: Seq<char>)
    requires
        !starts_with(input, "http://"@),
        !starts_with(input, "https://"@),
        encode_utf8(input).len() > 100 ==> is_char_boundary(encode_utf8(input), 97),
    ensures
        encode_utf8(input_preview(input, false)).len() <= 100,
{
    let t = encode_utf8(input);
    if t.len() > 100 {
        encode_utf8_valid_utf8(input);
        valid_utf8_split(t, 97);
        let head = t.subrange(0, 97);
        assert(t.take(97) == head);
        decode_utf8_encode_utf8(head);
        lemma_encode_utf8_concat(decode_utf8(head), "..."@);
        reveal_strlit("...");
        assert(encode_utf8("..."@).len() == 3) by {
            reveal_with_fuel(encode_utf8, 4);
        }
    }
}

/// An inference request sends one object that holds each of its arguments
/// under its own key: the model, the input, the price limit, whether a TEE is
/// demanded, the temperature, and the token limit (`null` when none is set).
pub proof fn lemma_inference_params(
    model_id: Seq<char>,
    input: Seq<char>,
    max_price: Seq<char>,
    require_tee: bool,
    temperature: Json,
    max_tokens: Option<u32>,
)
    ensures
        ({
            let p = spec_inference_params(model_id, input, max_price, require_tee, temperature, max_tokens);
            &&& p.param("model_id"@) == Some(Json::Str(model_id))
            &&& p.param("input"@) == Some(Json::Str(input))
            &&& p.param("max_price"@) == Some(Json::Str(max_price))
            &&& p.param("require_tee"@) == Some(Json::Bool(require_tee))
            &&& p.param("temperature"@) == Some(temperature)
            &&& max_tokens matches Some(n) ==> p.param("max_tokens"@) == Some(
                Json::Number(Num::PosInt(n as u64)),
            )
            &&& max_tokens is None ==> p.param("max_tokens"@) == Some(Json::Null)
        }),
{
    reveal_strlit("model_id");
    reveal_strlit("input");
    reveal_strlit("max_price");
    reveal_strlit("require_tee");
    reveal_strlit("temperature");
    reveal_strlit("max_tokens");
    let p = spec_inference_params(model_id, input, max_price, require_tee, temperature, max_tokens);
    let es = p->Arr_0[0]->Obj_0;
    lemma_lookup_finds(es, 0);
    assert(es[0].0[0] != es[1].0[0]);
    lemma_lookup_finds(es, 1);
    assert(es[0].0[1] != es[2].0[1] && es[1].0[0] != es[2].0[0]);
    lemma_lookup_finds(es, 2);
    assert(es[0].0[0] != es[3].0[0] && es[1].0[0] != es[3].0[0] && es[2].0[0] != es[3].0[0]);
    lemma_lookup_finds(es, 3);
    assert(es[0].0[0] != es[4].0[0] && es[1].0[0] != es[4].0[0] && es[2].0[0] != es[4].0[0]
        && es[3].0[0] != es[4].0[0]);
    lemma_lookup_finds(es, 4);
    assert(es[0].0[1] != es[5].0[1] && es[1].0[0] != es[5].0[0] && es[2].0[4] != es[5].0[4]
        && es[3].0[0] != es[5].0[0] && es[4].0[0] != es[5].0[0]);
    lemma_lookup_finds(es, 5);
}

/// A sign in front of a number does not change whether it reads as one.
pub proof fn lemma_float_sign(sign: char, s: Seq<char>)
    requires
        sign == '+' || sign == '-',
        s.len() == 0 || (s[0] != '+' && s[0] != '-'),
    ensures
        is_float_text(seq![sign] + s) == is_float_text(s),
{
    assert((seq![sign] + s).skip(1) =~= s);
}

/// The empty text is no number.
pub proof fn lemma_float_empty()
    ensures
        !is_float_text(Seq::empty()),
{
    reveal_strlit("inf");
    reveal_strlit("infinity");
    reveal_strlit("nan");
    let t = unsigned_part(Seq::<char>::empty()).map_values(|c: char| ascii_lower(c));
    assert(t =~= Seq::<char>::empty());
    assert(find_char(t, 'e') == 0);
    assert(t.take(0) =~= t);
    assert(find_char(t.take(0), '.') == 0);
}

/// A text of one or more decimal digits reads as a number.
pub proof fn lemma_float_digits(s: Seq<char>)
    requires
        s.len() > 0,
        all_digits(s),
    ensures
        is_float_text(s),
{
    assert('0' <= s[0] <= '9');
    let t = unsigned_part(s).map_values(|c: char| ascii_lower(c));
    assert(t =~= s);
    crate::node::lemma_find_char(t, 'e', t.len() as int);
    assert(t.take(t.len() as int) =~= t);
    crate::node::lemma_find_char(t, '.', t.len() as int);
}

} // verus!
