use vstd::prelude::*;

verus! {

/// The uniform shape of every endpoint's output.
///
/// `data` comes only with success, `error` only with failure; a field that
/// holds `None` is left out of the wire form entirely.
#[derive(Debug)]
pub struct Response<OkType, ErrType> {
    pub success: bool,
    pub message: Option<String>,
    pub data: Option<OkType>,
    pub error: Option<ErrType>,
}

/// An envelope whose payloads are already rendered as JSON text, for callers
/// that declare no schema of their own.
pub type UntypedResponse = Response<String, String>;

impl<OkType, ErrType> Response<OkType, ErrType> {
    /// `data` and `error` never come together, and each agrees with `success`.
    pub open spec fn wf(&self) -> bool {
        &&& !(self.data is Some && self.error is Some)
        &&& self.data is Some ==> self.success
        &&& self.error is Some ==> !self.success
    }

    /// A successful envelope, with an optional payload and message.
    pub fn ok(data: Option<OkType>, message: Option<String>) -> (r: Self)
        ensures
            r.success,
            r.data == data,
            r.error is None,
            r.message == message,
            r.wf(),
    {
        Response { success: true, message, data, error: None }
    }

    /// A failed envelope, with an optional error payload and message.
    pub fn err(error: Option<ErrType>, message: Option<String>) -> (r: Self)
        ensures
            !r.success,
            r.data is None,
            r.error == error,
            r.message == message,
            r.wf(),
    {
        Response { success: false, message, data: None, error }
    }
}

impl<OkType, ErrType> Default for Response<OkType, ErrType> {
    fn default() -> (r: Self)
        ensures
            !r.success,
            r.message is None,
            r.data is None,
            r.error is None,
            r.wf(),
    {
        Response { success: false, message: None, data: None, error: None }
    }
}

/// Every well-formed envelope carries at most one of a payload and an error payload.
pub proof fn lemma_payloads_exclusive<OkType, ErrType>(r: Response<OkType, ErrType>)
    requires
        r.wf(),
    ensures
        r.data is None || r.error is None,
{
}

pub open spec fn opt_view(o: Option<String>) -> Option<Seq<char>> {
    match o {
        Some(s) => Some(s@),
        None => None,
    }
}

pub open spec fn json_bool(b: bool) -> Seq<char> {
    if b {
        "true"@
    } else {
        "false"@
    }
}

/// The optional members of the wire object, in order, as (key, JSON value) pairs;
/// an absent field contributes no member.
pub open spec fn optional_members(
    message: Option<Seq<char>>,
    data: Option<Seq<char>>,
    error: Option<Seq<char>>,
) -> Seq<(Seq<char>, Seq<char>)> {
    let m = match message {
        Some(v) => seq![("message"@, v)],
        None => Seq::empty(),
    };
    let d = match data {
        Some(v) => seq![("data"@, v)],
        None => Seq::empty(),
    };
    let e = match error {
        Some(v) => seq![("error"@, v)],
        None => Seq::empty(),
    };
    m + d + e
}

/// `,"key":value`.
pub open spec fn member_text(key: Seq<char>, value: Seq<char>) -> Seq<char> {
    ",\""@ + key + "\":"@ + value
}

/// The members, each written as `,"key":value`, in order.
pub open spec fn members_text(ms: Seq<(Seq<char>, Seq<char>)>) -> Seq<char>
    decreases ms.len(),
{
    if ms.len() == 0 {
        Seq::empty()
    } else {
        members_text(ms.drop_last()) + member_text(ms.last().0, ms.last().1)
    }
}

proof fn lemma_members_push(ms: Seq<(Seq<char>, Seq<char>)>, key: Seq<char>, value: Seq<char>)
    ensures
        members_text(ms.push((key, value))) == members_text(ms) + member_text(key, value),
{
    assert(ms.push((key, value)).drop_last() =~= ms);
}

/// The JSON object for an envelope, given its message already as a JSON string.
pub open spec fn envelope_text(
    success: bool,
    message: Option<Seq<char>>,
    data: Option<Seq<char>>,
    error: Option<Seq<char>>,
) -> Seq<char> {
    "{\"success\":"@ + json_bool(success) + members_text(optional_members(message, data, error))
        + "}"@
}

/// The keys of the wire object, in order.
pub open spec fn envelope_keys(
    message: Option<Seq<char>>,
    data: Option<Seq<char>>,
    error: Option<Seq<char>>,
) -> Seq<Seq<char>> {
    seq!["success"@] + optional_members(message, data, error).map_values(
        |m: (Seq<char>, Seq<char>)| m.0,
    )
}

/// The smallest failure envelope, sent when a handler fails without one.
pub open spec fn minimal_failure_text() -> Seq<char> {
    "{\"success\":false}"@
}

/// Names what `serde_json` renders a string as: a quoted, escaped JSON string.
pub uninterp spec fn json_quoted(s: Seq<char>) -> Seq<char>;

/// The text has no quote, no backslash and no control character, so JSON
/// writes it between quotes unchanged.
pub open spec fn needs_no_escape(s: Seq<char>) -> bool {
    forall|i: int| 0 <= i < s.len() ==> #[trigger] s[i] != '"' && s[i] != '\\' && (s[i] as u32)
        >= 32
}

/// Relies on serde_json::to_string on a `str`: it writes into a `Vec`, which
/// cannot fail, and returns the JSON string literal for `s`, which depends on
/// `s` alone; only a quote, a backslash and the control characters are escaped.
#[verifier::external_body]
fn json_string(s: &str) -> (r: Option<String>)
    ensures
        r is Some,
        r matches Some(q) ==> q@ == json_quoted(s@),
        r is Some && needs_no_escape(s@) ==> r->0@ == seq!['"'] + s@ + seq!['"'],
{
    serde_json::to_string(s).ok()
}

fn push_member(out: &mut String, key: &str, value: &str)
    ensures
        final(out)@ == old(out)@ + member_text(key@, value@),
{
    out.append(",\"");
    out.append(key);
    out.append("\":");
    out.append(value);
    assert(out@ =~= old(out)@ + member_text(key@, value@));
}

/// Writes the wire object of an envelope whose message is already a JSON
/// string and whose payloads are already JSON text.
pub fn frame_envelope(
    success: bool,
    message_json: &Option<String>,
    data_json: &Option<String>,
    error_json: &Option<String>,
) -> (out: String)
    ensures
        out@ == envelope_text(
            success,
            opt_view(*message_json),
            opt_view(*data_json),
            opt_view(*error_json),
        ),
{
    let ghost m = opt_view(*message_json);
    let ghost d = opt_view(*data_json);
    let ghost e = opt_view(*error_json);
    let mut out = String::from_str("{\"success\":");
    if success {
        out.append("true");
    } else {
        out.append("false");
    }
    let ghost base = out@;
    let ghost ms: Seq<(Seq<char>, Seq<char>)> = Seq::empty();
    proof {
        assert(members_text(ms) =~= Seq::<char>::empty());
        assert(out@ =~= base + members_text(ms));
    }
    if let Some(v) = message_json {
        proof {
            lemma_members_push(ms, "message"@, v@);
            ms = ms.push(("message"@, v@));
        }
        push_member(&mut out, "message", v.as_str());
        assert(out@ =~= base + members_text(ms));
    }
    if let Some(v) = data_json {
        proof {
            lemma_members_push(ms, "data"@, v@);
            ms = ms.push(("data"@, v@));
        }
        push_member(&mut out, "data", v.as_str());
        assert(out@ =~= base + members_text(ms));
    }
    if let Some(v) = error_json {
        proof {
            lemma_members_push(ms, "error"@, v@);
            ms = ms.push(("error"@, v@));
        }
        push_member(&mut out, "error", v.as_str());
        assert(out@ =~= base + members_text(ms));
    }
    assert(ms =~= optional_members(m, d, e));
    out.append("}");
    assert(out@ =~= envelope_text(success, m, d, e));
    out
}

/// The wire form of an envelope whose payloads are JSON text.
pub open spec fn wire_text(r: &UntypedResponse) -> Seq<char> {
    envelope_text(
        r.success,
        match r.message {
            Some(m) => Some(json_quoted(m@)),
            None => None,
        },
        opt_view(r.data),
        opt_view(r.error),
    )
}

impl Response<String, String> {
    /// The wire form of this envelope.
    pub fn to_json(&self) -> (out: String)
        ensures
            out@ == wire_text(self),
            self.message is Some && needs_no_escape(self.message->0@) ==> out@ == envelope_text(
                self.success,
                Some(seq!['"'] + self.message->0@ + seq!['"']),
                opt_view(self.data),
                opt_view(self.error),
            ),
    {
        match &self.message {
            None => frame_envelope(self.success, &None, &self.data, &self.error),
            Some(m) => {
                let q = json_string(m.as_str()).unwrap();
                frame_envelope(self.success, &Some(q), &self.data, &self.error)
            },
        }
    }
}

/// The wire object has a key for `success` always, and one for each other
/// field exactly when that field is present.
pub proof fn lemma_absent_fields_have_no_key(
    message: Option<Seq<char>>,
    data: Option<Seq<char>>,
    error: Option<Seq<char>>,
)
    ensures
        envelope_keys(message, data, error).contains("success"@),
        envelope_keys(message, data, error).contains("message"@) <==> message is Some,
        envelope_keys(message, data, error).contains("data"@) <==> data is Some,
        envelope_keys(message, data, error).contains("error"@) <==> error is Some,
{
    reveal_strlit("success");
    reveal_strlit("message");
    reveal_strlit("data");
    reveal_strlit("error");
    let keys = envelope_keys(message, data, error);
    assert(keys[0] == "success"@);
    assert("success"@.len() == 7 && "message"@.len() == 7 && "data"@.len() == 4
        && "error"@.len() == 5);
    assert("success"@[0] != "message"@[0]);
    if message is Some {
        assert(keys[1] == "message"@);
    }
    if data is Some {
        let i = if message is Some { 2int } else { 1int };
        assert(keys[i] == "data"@);
    }
    if error is Some {
        let i = keys.len() - 1;
        assert(keys[i] == "error"@);
    }
}

} // verus!
