//! The producer-side event filter and emitter.
//!
//! A producer announces a state change by emitting one event record
//! carrying the reserved classification tag and a single field named
//! `state`. The filter watches a generic stream of such records and,
//! for each one, extracts at most one state string: nothing for a
//! record under any other tag, nothing for a tagged record without the
//! field, and otherwise the field's value made literal again. The
//! event framework hands an observer only a debug rendering of the
//! value, so the surrounding quote pair that rendering adds is
//! dropped and the escapes inside it undone; the delivered state
//! string equals the value the producer passed, embedded quote
//! characters and all.

use vstd::prelude::*;
use vstd::string::*;

verus! {

/// The reserved classification tag that marks a record as a state
/// change.
pub open spec fn state_tag() -> Seq<char> {
    "bertrand_state"@
}

/// The name of the field that carries the state payload.
pub open spec fn state_key() -> Seq<char> {
    "state"@
}

/// The reserved classification tag, for callers that compare against
/// an event stream's own tags.
pub fn state_tag_name() -> (r: &'static str)
    ensures
        r@ == state_tag(),
{
    "bertrand_state"
}

/// One named field of an event record, its value as the filter
/// receives it: already rendered to text by the event framework.
pub struct RecordField {
    pub name: String,
    pub value: String,
}

impl View for RecordField {
    type V = (Seq<char>, Seq<char>);

    open spec fn view(&self) -> (Seq<char>, Seq<char>) {
        (self.name@, self.value@)
    }
}

/// A structured event record: a classification tag and named fields.
pub struct EventRecord {
    pub target: String,
    pub fields: Vec<RecordField>,
}

/// The name/value views of a sequence of record fields.
pub open spec fn fields_view(fields: Seq<RecordField>) -> Seq<(Seq<char>, Seq<char>)> {
    fields.map_values(|f: RecordField| f@)
}

/// The escapes a debug rendering applies inside the quote pair: a
/// backslash before every quote character and every backslash.
pub open spec fn escape_spec(s: Seq<char>) -> Seq<char>
    decreases s.len(),
{
    if s.len() == 0 {
        Seq::empty()
    } else if s[0] == '"' || s[0] == '\\' {
        seq!['\\', s[0]] + escape_spec(s.skip(1))
    } else {
        seq![s[0]] + escape_spec(s.skip(1))
    }
}

/// The debug rendering of a string value: the value, escaped, wrapped
/// in a quote pair.
pub open spec fn quoted(s: Seq<char>) -> Seq<char> {
    seq!['"'] + escape_spec(s) + seq!['"']
}

/// The escapes undone: `\"` back to `"` and `\\` back to `\`; every
/// other character stands for itself.
pub open spec fn unescape_spec(s: Seq<char>) -> Seq<char>
    decreases s.len(),
{
    if s.len() == 0 {
        Seq::empty()
    } else if s.len() >= 2 && s[0] == '\\' && (s[1] == '"' || s[1] == '\\') {
        seq![s[1]] + unescape_spec(s.skip(2))
    } else {
        seq![s[0]] + unescape_spec(s.skip(1))
    }
}

/// The literal value behind a rendered one: if the text is wrapped in
/// the quote pair a debug rendering adds, drop exactly that pair and
/// undo the escapes between them; any other text already is the
/// literal value and passes through unchanged.
pub open spec fn unquote_spec(s: Seq<char>) -> Seq<char> {
    if s.len() >= 2 && s[0] == '"' && s.last() == '"' {
        unescape_spec(s.subrange(1, s.len() - 1))
    } else {
        s
    }
}

/// The value of the last field named `state`, if any.
pub open spec fn last_state_of(fields: Seq<(Seq<char>, Seq<char>)>) -> Option<Seq<char>>
    decreases fields.len(),
{
    if fields.len() == 0 {
        None
    } else if fields.last().0 == state_key() {
        Some(fields.last().1)
    } else {
        last_state_of(fields.drop_last())
    }
}

/// What the filter extracts from one record: at most one state string,
/// and only from a record under the reserved tag.
pub open spec fn extract_spec(target: Seq<char>, fields: Seq<(Seq<char>, Seq<char>)>) -> Option<
    Seq<char>,
> {
    if target == state_tag() {
        match last_state_of(fields) {
            Some(v) => Some(unquote_spec(v)),
            None => None,
        }
    } else {
        None
    }
}

/// Character-for-character equality of two string slices.
pub fn str_eq(a: &str, b: &str) -> (r: bool)
    ensures
        r == (a@ == b@),
{
    let an = a.unicode_len();
    let bn = b.unicode_len();
    if an != bn {
        return false;
    }
    let mut i: usize = 0;
    while i < an
        invariant
            an == a@.len(),
            an == b@.len(),
            i <= an,
            forall|j: int| 0 <= j < i ==> a@[j] == b@[j],
        decreases an - i,
    {
        if a.get_char(i) != b.get_char(i) {
            return false;
        }
        i += 1;
    }
    proof {
        assert(a@ =~= b@);
    }
    true
}

/// `t` with the debug escapes undone.
fn unescape(t: &str) -> (r: String)
    ensures
        r@ == unescape_spec(t@),
{
    let n = t.unicode_len();
    let mut r = String::new();
    let mut i: usize = 0;
    proof {
        assert(t@.skip(0) =~= t@);
        assert(r@ + unescape_spec(t@) =~= unescape_spec(t@));
    }
    while i < n
        invariant
            n == t@.len(),
            i <= n,
            unescape_spec(t@) == r@ + unescape_spec(t@.skip(i as int)),
        decreases n - i,
    {
        let ghost r0 = r@;
        let ghost u = t@.skip(i as int);
        let c = t.get_char(i);
        if c == '\\' && i + 1 < n && (t.get_char(i + 1) == '"' || t.get_char(i + 1) == '\\') {
            r.append(t.substring_char(i + 1, i + 2));
            proof {
                assert(u[0] == c);
                assert(u[1] == t@[i + 1]);
                assert(u.skip(2) =~= t@.skip(i + 2));
                assert(t@.subrange(i + 1, i + 2) =~= seq![t@[i + 1]]);
                assert((r0 + seq![t@[i + 1]]) + unescape_spec(t@.skip(i + 2)) =~= r0
                    + unescape_spec(u));
            }
            i += 2;
        } else {
            r.append(t.substring_char(i, i + 1));
            proof {
                assert(u[0] == c);
                if u.len() >= 2 {
                    assert(u[1] == t@[i + 1]);
                }
                assert(u.skip(1) =~= t@.skip(i + 1));
                assert(t@.subrange(i as int, i + 1) =~= seq![c]);
                assert((r0 + seq![c]) + unescape_spec(t@.skip(i + 1)) =~= r0 + unescape_spec(u));
            }
            i += 1;
        }
    }
    proof {
        assert(unescape_spec(t@.skip(n as int)) =~= Seq::<char>::empty());
        assert(r@ + Seq::<char>::empty() =~= r@);
    }
    r
}

/// The literal value behind a rendered one: drop a surrounding quote
/// pair and undo the escapes, or pass bare text through unchanged.
pub fn unquote(s: &str) -> (r: String)
    ensures
        r@ == unquote_spec(s@),
{
    let n = s.unicode_len();
    if n >= 2 && s.get_char(0) == '"' && s.get_char(n - 1) == '"' {
        let inner = s.substring_char(1, n - 1);
        unescape(inner)
    } else {
        s.to_owned()
    }
}

/// The event filter: for a record under the reserved state-change tag,
/// take the last field named `state` and recover the literal value
/// from its rendering; every other record yields nothing.
pub fn extract_state(target: &str, fields: &Vec<RecordField>) -> (r: Option<String>)
    ensures
        (match r {
            Some(s) => extract_spec(target@, fields_view(fields@)) == Some(s@),
            None => extract_spec(target@, fields_view(fields@)) is None,
        }),
{
    if !str_eq(target, "bertrand_state") {
        return None;
    }
    let ghost fv = fields_view(fields@);
    let mut found: Option<String> = None;
    let n = fields.len();
    let mut i: usize = 0;
    while i < n
        invariant
            n == fields@.len(),
            i <= n,
            fv == fields_view(fields@),
            (match found {
                Some(s) => last_state_of(fv.subrange(0, i as int)) == Some(s@),
                None => last_state_of(fv.subrange(0, i as int)) is None,
            }),
        decreases n - i,
    {
        let f = &fields[i];
        if str_eq(f.name.as_str(), "state") {
            found = Some(f.value.clone());
        }
        proof {
            assert(fv.subrange(0, i + 1).drop_last() =~= fv.subrange(0, i as int));
            assert(fv.subrange(0, i + 1).last() == fv[i as int]);
            assert(fv[i as int] == fields@[i as int]@);
        }
        i += 1;
    }
    proof {
        assert(fv.subrange(0, n as int) =~= fv);
    }
    match found {
        Some(v) => Some(unquote(v.as_str())),
        None => None,
    }
}

/// The emitter half: synthesize the one tagged record by which a
/// producer announces `value` as its current state — the reserved tag
/// and exactly one field, named `state`, holding the value.
pub fn make_state_event(value: &str) -> (r: EventRecord)
    ensures
        r.target@ == state_tag(),
        fields_view(r.fields@) == seq![(state_key(), value@)],
{
    let f = RecordField { name: String::from_str("state"), value: value.to_owned() };
    let mut fs: Vec<RecordField> = Vec::new();
    fs.push(f);
    let r = EventRecord { target: String::from_str("bertrand_state"), fields: fs };
    proof {
        assert(fields_view(r.fields@) =~= seq![(state_key(), value@)]);
    }
    r
}

/// Undoing the escapes inverts applying them: for every string, not
/// just escape-free ones.
pub proof fn lemma_unescape_escape(s: Seq<char>)
    ensures
        unescape_spec(escape_spec(s)) == s,
    decreases s.len(),
{
    if s.len() == 0 {
        assert(escape_spec(s) =~= Seq::<char>::empty());
    } else if s[0] == '"' || s[0] == '\\' {
        let e = escape_spec(s);
        assert(e == seq!['\\', s[0]] + escape_spec(s.skip(1)));
        assert(e[0] == '\\');
        assert(e[1] == s[0]);
        assert(e.skip(2) =~= escape_spec(s.skip(1)));
        lemma_unescape_escape(s.skip(1));
        assert(unescape_spec(e) == seq![s[0]] + s.skip(1));
        assert(seq![s[0]] + s.skip(1) =~= s);
    } else {
        let e = escape_spec(s);
        assert(e == seq![s[0]] + escape_spec(s.skip(1)));
        assert(e[0] == s[0]);
        assert(e.skip(1) =~= escape_spec(s.skip(1)));
        lemma_unescape_escape(s.skip(1));
        assert(unescape_spec(e) == seq![s[0]] + s.skip(1));
        assert(seq![s[0]] + s.skip(1) =~= s);
    }
}

/// Round trip from emitter to filter, exact for every string: the
/// record synthesized for a value `s` — embedded quote characters and
/// all — yields exactly `s` back once the filter undoes the debug
/// rendering; and a bare value that carries no surrounding quote pair
/// passes through the filter verbatim too.
pub proof fn lemma_emit_extract_roundtrip(s: Seq<char>)
    ensures
        extract_spec(state_tag(), seq![(state_key(), quoted(s))]) == Some(s),
        !(s.len() >= 2 && s[0] == '"' && s.last() == '"') ==> extract_spec(
            state_tag(),
            seq![(state_key(), s)],
        ) == Some(s),
{
    let q = quoted(s);
    let e = escape_spec(s);
    assert(q.len() == e.len() + 2);
    assert(q[0] == '"');
    assert(q.last() == '"');
    assert(q.subrange(1, q.len() - 1) =~= e);
    lemma_unescape_escape(s);
    let wrapped = seq![(state_key(), q)];
    assert(wrapped.last() == (state_key(), q));
    let bare = seq![(state_key(), s)];
    assert(bare.last() == (state_key(), s));
}

/// A record without any field named `state` yields no state string,
/// whatever its tag — in particular a record under the reserved tag
/// that lacks the field is a silent no-op.
pub proof fn lemma_no_state_field(target: Seq<char>, fields: Seq<(Seq<char>, Seq<char>)>)
    requires
        forall|i: int| 0 <= i < fields.len() ==> fields[i].0 != state_key(),
    ensures
        extract_spec(target, fields) is None,
{
    lemma_no_state_value(fields);
}

proof fn lemma_no_state_value(fields: Seq<(Seq<char>, Seq<char>)>)
    requires
        forall|i: int| 0 <= i < fields.len() ==> fields[i].0 != state_key(),
    ensures
        last_state_of(fields) is None,
    decreases fields.len(),
{
    if fields.len() > 0 {
        assert(fields.last() == fields[fields.len() - 1]);
        lemma_no_state_value(fields.drop_last());
    }
}

/// A record under any tag other than the reserved one yields no state
/// string, even if it carries a field named `state`.
pub proof fn lemma_other_tag(target: Seq<char>, fields: Seq<(Seq<char>, Seq<char>)>)
    requires
        target != state_tag(),
    ensures
        extract_spec(target, fields) is None,
{
}

} // verus!
