use vstd::prelude::*;
use vstd::string::StringExecFns;
use crate::json::{JsonValue, json_parse, json_render, member_of, text_of, flag_of, parse_json, render_json};
use crate::text::{texts, nonempty_lines, utf8_lossy, decode_lossy, split_nonempty_lines};

verus! {

/// Token budget sent to the server when the request names none.
pub const DEFAULT_MAX_TOKENS: u32 = 512;

/// The server address used when none is configured.
pub open spec fn default_base_url() -> Seq<char> {
    "http://localhost:11434"@
}

/// The server address: the configured one, else the default.
pub fn base_url(configured: Option<String>) -> (r: String)
    ensures
        r@ == match configured {
            Some(u) => u@,
            None => default_base_url(),
        },
{
    match configured {
        Some(u) => u,
        None => "http://localhost:11434".to_owned(),
    }
}

/// The generation endpoint of the server at `base`.
pub fn generate_url(base: &str) -> (r: String)
    ensures
        r@ == base@ + "/api/generate"@,
{
    let mut u = base.to_owned();
    u.append("/api/generate");
    u
}

/// The model listing endpoint of the server at `base`.
pub fn tags_url(base: &str) -> (r: String)
    ensures
        r@ == base@ + "/api/tags"@,
{
    let mut u = base.to_owned();
    u.append("/api/tags");
    u
}

/// The token budget of a request: the requested one, else 512.
pub fn max_tokens_or_default(requested: Option<u32>) -> (r: u32)
    ensures
        r == match requested {
            Some(n) => n,
            None => 512,
        },
{
    match requested {
        Some(n) => n,
        None => DEFAULT_MAX_TOKENS,
    }
}

/// The string member `response` of a parsed document.
pub open spec fn response_member(doc: Option<JsonValue>) -> Option<Seq<char>> {
    match doc {
        Some(d) => text_of(member_of(d, "response"@)),
        None => None,
    }
}

/// The generated text of a successful reply body, given what it parsed as:
/// its `response` member where the document is an object with a string
/// there, else the whole body.
pub open spec fn reply_text_of(doc: Option<JsonValue>, body: Seq<char>) -> Seq<char> {
    match response_member(doc) {
        Some(t) => t,
        None => body,
    }
}

/// The generated text of a successful reply body.
pub open spec fn reply_text(body: Seq<char>) -> Seq<char> {
    reply_text_of(json_parse(body), body)
}

/// The generated text of a successful reply body that parsed as `doc`.
pub fn reply_text_from(doc: &Option<JsonValue>, body: &str) -> (r: String)
    ensures
        r@ == reply_text_of(*doc, body@),
{
    match doc {
        Some(d) => match d.member("response") {
            Some(v) => match v.as_text() {
                Some(t) => t.clone(),
                None => body.to_owned(),
            },
            None => body.to_owned(),
        },
        None => body.to_owned(),
    }
}

/// `prefix`, the status, `": "` and the body.
pub open spec fn failure_message(prefix: Seq<char>, status: Seq<char>, body: Seq<char>) -> Seq<char> {
    prefix + status + ": "@ + body
}

fn failure_text(prefix: &str, status: &str, body: &str) -> (r: String)
    ensures
        r@ == failure_message(prefix@, status@, body@),
{
    let mut m = prefix.to_owned();
    m.append(status);
    m.append(": ");
    m.append(body);
    m
}

/// The generated text of a reply to a generation request, or the error
/// reported for a reply whose status is not a success.
pub fn generate_reply(success: bool, status: &str, body: &str) -> (r: Result<String, String>)
    ensures
        success <==> r is Ok,
        match r {
            Ok(t) => t@ == reply_text(body@),
            Err(e) => e@ == failure_message("Ollama error "@, status@, body@),
        },
{
    if success {
        let doc = parse_json(body);
        Ok(reply_text_from(&doc, body))
    } else {
        Err(failure_text("Ollama error ", status, body))
    }
}

/// Whether a streaming reply may be read, or the error reported for it.
pub fn stream_start(success: bool, status: &str, body: &str) -> (r: Result<(), String>)
    ensures
        success <==> r is Ok,
        match r {
            Ok(_) => true,
            Err(e) => e@ == failure_message("Ollama stream error "@, status@, body@),
        },
{
    if success {
        Ok(())
    } else {
        Err(failure_text("Ollama stream error ", status, body))
    }
}

/// What one line of a streamed reply is forwarded as: its `response` member
/// where it has a string there; else, where its `done` member is `true`, the
/// whole line written compactly by serde_json; else the line itself.
pub open spec fn stream_message_text(line: Seq<char>) -> Seq<char> {
    forwarded_text_of(json_parse(line), line)
}

/// What a line of a streamed reply that parsed as `doc` is forwarded as.
pub open spec fn forwarded_text_of(doc: Option<JsonValue>, line: Seq<char>) -> Seq<char> {
    match doc {
        None => line,
        Some(doc) => match text_of(member_of(doc, "response"@)) {
            Some(t) => t,
            None => if flag_of(member_of(doc, "done"@)) == Some(true) {
                json_render(doc)
            } else {
                line
            },
        },
    }
}

/// A line that carries a string `response` member yields that text whether
/// it arrives as a whole synchronous reply or as a line of a stream.
pub proof fn sync_and_stream_agree_on_response(line: Seq<char>)
    ensures
        response_member(json_parse(line)) is Some ==> reply_text(line) == stream_message_text(line),
        json_parse(line) is None ==> reply_text(line) == line && stream_message_text(line) == line,
{
}

/// Forwarded text of a line of a streamed reply that parsed as `doc`.
pub fn forwarded_text(doc: &Option<JsonValue>, line: &str) -> (r: String)
    ensures
        r@ == forwarded_text_of(*doc, line@),
{
    match doc {
        None => line.to_owned(),
        Some(d) => {
            match d.member("response") {
                Some(v) => match v.as_text() {
                    Some(t) => return t.clone(),
                    None => {},
                },
                None => {},
            }
            let done = match d.member("done") {
                Some(v) => v.as_flag(),
                None => None,
            };
            match done {
                Some(true) => render_json(d),
                _ => line.to_owned(),
            }
        },
    }
}

/// Forwarded text of one line of a streamed reply.
pub fn stream_message(line: &str) -> (r: String)
    ensures
        r@ == stream_message_text(line@),
{
    let doc = parse_json(line);
    forwarded_text(&doc, line)
}

/// The messages forwarded for one chunk of a streamed reply: the chunk is
/// decoded lossily, split into non-empty lines, and each line forwarded.
pub open spec fn chunk_message_texts(chunk: Seq<u8>) -> Seq<Seq<char>> {
    nonempty_lines(utf8_lossy(chunk)).map_values(|l: Seq<char>| stream_message_text(l))
}

/// Messages forwarded for one chunk of a streamed reply, in order.
pub fn chunk_messages(chunk: &[u8]) -> (r: Vec<String>)
    ensures
        texts(r@) == chunk_message_texts(chunk@),
{
    let decoded = decode_lossy(chunk);
    let lines = split_nonempty_lines(decoded.as_str());
    let ghost ls = texts(lines@);
    let mut out: Vec<String> = Vec::new();
    let n = lines.len();
    for i in 0..n
        invariant
            n == lines@.len(),
            ls == texts(lines@),
            ls == nonempty_lines(utf8_lossy(chunk@)),
            texts(out@) == ls.take(i as int).map_values(|l: Seq<char>| stream_message_text(l)),
    {
        let m = stream_message(lines[i].as_str());
        let ghost before = out@;
        out.push(m);
        assert(texts(out@) =~= texts(before).push(m@));
        assert(ls[i as int] == lines@[i as int]@);
        assert(ls.take(i + 1) =~= ls.take(i as int).push(ls[i as int]));
        assert(texts(out@) =~= ls.take(i + 1).map_values(|l: Seq<char>| stream_message_text(l)));
    }
    assert(ls.take(n as int) =~= ls);
    out
}

/// The string `name` members of the listed entries, in order, skipping
/// entries without one.
pub open spec fn names_in(entries: Seq<JsonValue>) -> Seq<Seq<char>>
    decreases entries.len(),
{
    if entries.len() == 0 {
        seq![]
    } else {
        let rest = names_in(entries.drop_last());
        match text_of(member_of(entries.last(), "name"@)) {
            Some(n) => rest.push(n),
            None => rest,
        }
    }
}

/// The model names of a listing body: the names of the entries of its
/// `models` array where the body is a JSON object with an array there, else
/// none.
pub open spec fn listed_models(body: Seq<char>) -> Seq<Seq<char>> {
    listing_names_of(json_parse(body))
}

/// The model names of a listing that parsed as `doc`.
pub open spec fn listing_names_of(doc: Option<JsonValue>) -> Seq<Seq<char>> {
    match doc {
        Some(doc) => match member_of(doc, "models"@) {
            Some(JsonValue::Array(entries)) => names_in(entries@),
            _ => seq![],
        },
        None => seq![],
    }
}

/// The names of the entries of a `models` array.
fn names_of(entries: &Vec<JsonValue>) -> (r: Vec<String>)
    ensures
        texts(r@) == names_in(entries@),
{
    let mut out: Vec<String> = Vec::new();
    let n = entries.len();
    for i in 0..n
        invariant
            n == entries@.len(),
            texts(out@) == names_in(entries@.take(i as int)),
    {
        let ghost before = out@;
        assert(entries@.take(i + 1).drop_last() =~= entries@.take(i as int));
        assert(entries@.take(i + 1).last() == entries@[i as int]);
        match entries[i].member("name") {
            Some(v) => match v.as_text() {
                Some(t) => {
                    out.push(t.clone());
                    assert(texts(out@) =~= texts(before).push(t@));
                },
                None => {},
            },
            None => {},
        }
    }
    assert(entries@.take(n as int) =~= entries@);
    out
}

/// The model names of a listing that parsed as `doc`.
pub fn listing_names(doc: &Option<JsonValue>) -> (r: Vec<String>)
    ensures
        texts(r@) == listing_names_of(*doc),
{
    match doc {
        Some(d) => match d.member("models") {
            Some(JsonValue::Array(entries)) => return names_of(entries),
            _ => {},
        },
        None => {},
    }
    let r: Vec<String> = Vec::new();
    assert(texts(r@) =~= seq![]);
    r
}

/// The model names of a reply to a listing request: none where the status is
/// not a success.
pub fn model_names(success: bool, body: &str) -> (r: Vec<String>)
    ensures
        texts(r@) == if success {
            listed_models(body@)
        } else {
            seq![]
        },
{
    if success {
        let doc = parse_json(body);
        listing_names(&doc)
    } else {
        let r: Vec<String> = Vec::new();
        assert(texts(r@) =~= seq![]);
        r
    }
}

/// An event of the task that reads a streamed reply.
pub enum ChunkEvent {
    /// A chunk of the reply arrived.
    Chunk(Vec<u8>),
    /// The reply ended.
    Ended,
    /// Reading failed; the detail describes the failure.
    ReadFailed(String),
}

/// What the reading task does on an event: the items to hand on, in order,
/// and whether it stops afterwards.
pub struct RelayStep {
    pub deliver: Vec<Result<String, String>>,
    pub stop: bool,
}

/// The texts of a sequence of delivered items, errors included.
pub open spec fn item_texts(v: Seq<Result<String, String>>) -> Seq<Result<Seq<char>, Seq<char>>> {
    v.map_values(|x: Result<String, String>| match x {
        Ok(t) => Ok(t@),
        Err(e) => Err(e@),
    })
}

/// The step the reading task takes: a chunk's messages are handed on and
/// reading goes on; the end stops it; a failure hands on one error and stops.
pub fn relay_step(event: ChunkEvent) -> (r: RelayStep)
    ensures
        match event {
            ChunkEvent::Chunk(bytes) => !r.stop && item_texts(r.deliver@)
                == chunk_message_texts(bytes@).map_values(|t: Seq<char>| Ok::<Seq<char>, Seq<char>>(t)),
            ChunkEvent::Ended => r.stop && r.deliver@.len() == 0,
            ChunkEvent::ReadFailed(detail) => r.stop && item_texts(r.deliver@)
                == seq![Err::<Seq<char>, Seq<char>>("error reading stream chunk: "@ + detail@)],
        },
{
    match event {
        ChunkEvent::Chunk(bytes) => {
            let msgs = chunk_messages(bytes.as_slice());
            let ghost ms = texts(msgs@);
            let mut deliver: Vec<Result<String, String>> = Vec::new();
            let n = msgs.len();
            for i in 0..n
                invariant
                    n == ms.len(),
                    ms == texts(msgs@),
                    item_texts(deliver@) == ms.take(i as int).map_values(|t: Seq<char>| Ok::<Seq<char>, Seq<char>>(t)),
            {
                let ghost before = deliver@;
                deliver.push(Ok(msgs[i].clone()));
                assert(ms[i as int] == msgs@[i as int]@);
                assert(ms.take(i + 1) =~= ms.take(i as int).push(ms[i as int]));
                assert(item_texts(deliver@) =~= item_texts(before).push(Ok::<Seq<char>, Seq<char>>(ms[i as int])));
            }
            assert(ms.take(n as int) =~= ms);
            RelayStep { deliver, stop: false }
        },
        ChunkEvent::Ended => RelayStep { deliver: Vec::new(), stop: true },
        ChunkEvent::ReadFailed(detail) => {
            let mut e = "error reading stream chunk: ".to_owned();
            e.append(detail.as_str());
            let mut deliver: Vec<Result<String, String>> = Vec::new();
            deliver.push(Err(e));
            RelayStep { deliver, stop: true }
        },
    }
}

/// A successful reply body, or a streamed line, that parses as an object
/// whose `response` member is a string is answered with exactly that string,
/// character for character (empty or not, newlines included), whatever its
/// `done` member holds.
pub proof fn response_string_is_forwarded_exactly(line: Seq<char>, d: JsonValue, s: String)
    requires
        json_parse(line) == Some(d),
        member_of(d, "response"@) == Some(JsonValue::Str(s)),
    ensures
        reply_text(line) == s@,
        reply_text_of(Some(d), line) == s@,
        stream_message_text(line) == s@,
        forwarded_text_of(Some(d), line) == s@,
{
}

/// A line without a string `response` member is rewritten compactly only
/// where its `done` member is `true`; otherwise it is forwarded as it is, and
/// a reply body without one is answered with the whole body.
pub proof fn lines_without_response_string(line: Seq<char>, d: JsonValue)
    requires
        json_parse(line) == Some(d),
        !(member_of(d, "response"@) matches Some(JsonValue::Str(_))),
    ensures
        stream_message_text(line) == (if member_of(d, "done"@) == Some(JsonValue::Bool(true)) {
            json_render(d)
        } else {
            line
        }),
        reply_text(line) == line,
{
}

/// The names of two runs of entries are the names of the first followed by
/// those of the second.
pub proof fn names_of_concatenated_entries(a: Seq<JsonValue>, b: Seq<JsonValue>)
    ensures
        names_in(a + b) == names_in(a) + names_in(b),
    decreases b.len(),
{
    if b.len() == 0 {
        assert(a + b =~= a);
        assert(names_in(a) + names_in(b) =~= names_in(a));
    } else {
        names_of_concatenated_entries(a, b.drop_last());
        assert((a + b).drop_last() =~= a + b.drop_last());
        assert((a + b).last() == b.last());
        match text_of(member_of(b.last(), "name"@)) {
            Some(n) => {
                assert(names_in(a) + names_in(b.drop_last()).push(n) =~= (names_in(a) + names_in(b.drop_last())).push(n));
            },
            None => {},
        }
    }
}

/// Every entry whose `name` member is a string contributes exactly that
/// string, whatever characters it holds, and any other entry contributes
/// nothing.
pub proof fn one_entry_names(e: JsonValue, n: String)
    ensures
        member_of(e, "name"@) == Some(JsonValue::Str(n)) ==> names_in(seq![e]) == seq![n@],
        !(member_of(e, "name"@) matches Some(JsonValue::Str(_))) ==> names_in(seq![e]).len() == 0,
{
    assert(seq![e].drop_last() =~= Seq::<JsonValue>::empty());
    assert(seq![e].last() == e);
    assert(names_in(Seq::<JsonValue>::empty()) =~= Seq::<Seq<char>>::empty());
    assert(Seq::<Seq<char>>::empty().push(n@) =~= seq![n@]);
}

/// Where every entry of a listing's `models` array has a string name, the
/// listed models are those names, one per entry, in order.
pub proof fn every_named_entry_is_listed(body: Seq<char>, d: JsonValue, entries: Vec<JsonValue>, names: Seq<String>)
    requires
        json_parse(body) == Some(d),
        member_of(d, "models"@) == Some(JsonValue::Array(entries)),
        entries@.len() == names.len(),
        forall|i: int| 0 <= i < names.len() ==> member_of(#[trigger] entries@[i], "name"@) == Some(JsonValue::Str(names[i])),
    ensures
        listed_models(body) == texts(names),
{
    all_named(entries@, names);
}

proof fn all_named(entries: Seq<JsonValue>, names: Seq<String>)
    requires
        entries.len() == names.len(),
        forall|i: int| 0 <= i < names.len() ==> member_of(#[trigger] entries[i], "name"@) == Some(JsonValue::Str(names[i])),
    ensures
        names_in(entries) == texts(names),
    decreases entries.len(),
{
    if entries.len() == 0 {
        assert(texts(names) =~= Seq::<Seq<char>>::empty());
    } else {
        let k = entries.len() - 1;
        let e2 = entries.drop_last();
        let n2 = names.drop_last();
        assert forall|i: int| 0 <= i < n2.len() implies member_of(#[trigger] e2[i], "name"@) == Some(JsonValue::Str(n2[i])) by {
            assert(e2[i] == entries[i]);
            assert(n2[i] == names[i]);
        }
        all_named(e2, n2);
        assert(member_of(entries[k], "name"@) == Some(JsonValue::Str(names[k])));
        assert(texts(names) =~= texts(n2).push(names[k]@));
    }
}

} // verus!
