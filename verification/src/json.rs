//! JSON objects of texts and unsigned numbers, as `serde_json` writes them.
use vstd::prelude::*;
use vstd::utf8::encode_utf8;

verus! {

/// An object of `serde_json`, which keeps its members in the order of their insertion.
#[verifier::external_type_specification]
#[verifier::external_body]
#[verifier::reject_recursive_types(K)]
#[verifier::reject_recursive_types(V)]
pub struct ExMap<K, V>(serde_json::Map<K, V>);

/// Any JSON value of `serde_json`.
#[verifier::external_type_specification]
#[verifier::external_body]
pub struct ExValue(serde_json::Value);

/// The error of a failed JSON serialization.
#[verifier::external_type_specification]
#[verifier::external_body]
pub struct ExJsonError(serde_json::Error);

/// The value of an object's member.
pub enum JsonScalar {
    /// A text.
    Text(String),
    /// An unsigned number.
    Number(u64),
}

/// What a [`JsonScalar`] holds.
pub enum ScalarView {
    /// A text.
    Text(Seq<char>),
    /// An unsigned number.
    Number(u64),
}

impl View for JsonScalar {
    type V = ScalarView;

    open spec fn view(&self) -> ScalarView {
        match self {
            JsonScalar::Text(text) => ScalarView::Text(text@),
            JsonScalar::Number(n) => ScalarView::Number(*n),
        }
    }
}

/// The members of an object, in their order: name and value.
pub type Members = Seq<(Seq<char>, ScalarView)>;

/// A lower case hexadecimal digit.
pub open spec fn hex_digit(v: int) -> char {
    if v < 10 {
        ('0' as int + v) as char
    } else {
        ('a' as int + (v - 10)) as char
    }
}

/// What stands for `c` inside a JSON string.
pub open spec fn escaped_char(c: char) -> Seq<char> {
    if c == '"' {
        seq!['\\', '"']
    } else if c == '\\' {
        seq!['\\', '\\']
    } else if c as int == 0x08 {
        seq!['\\', 'b']
    } else if c as int == 0x09 {
        seq!['\\', 't']
    } else if c as int == 0x0a {
        seq!['\\', 'n']
    } else if c as int == 0x0c {
        seq!['\\', 'f']
    } else if c as int == 0x0d {
        seq!['\\', 'r']
    } else if (c as int) < 0x20 {
        seq!['\\', 'u', '0', '0', hex_digit(c as int / 16), hex_digit(c as int % 16)]
    } else {
        seq![c]
    }
}

/// The characters of `text`, each as it stands inside a JSON string.
pub open spec fn escaped(text: Seq<char>) -> Seq<char>
    decreases text.len(),
{
    if text.len() == 0 {
        Seq::empty()
    } else {
        escaped_char(text[0]) + escaped(text.drop_first())
    }
}

/// `text` as a JSON string.
pub open spec fn json_string(text: Seq<char>) -> Seq<char> {
    seq!['"'] + escaped(text) + seq!['"']
}

/// `n` in decimal digits, without leading zeros.
pub open spec fn decimal(n: nat) -> Seq<char>
    decreases n,
{
    let last = ('0' as int + n % 10) as char;
    if n < 10 {
        seq![last]
    } else {
        decimal(n / 10).push(last)
    }
}

/// A member's value as JSON.
pub open spec fn json_scalar(value: ScalarView) -> Seq<char> {
    match value {
        ScalarView::Text(text) => json_string(text),
        ScalarView::Number(n) => decimal(n as nat),
    }
}

/// One member: on a line of its own, indented, where `pretty`.
pub open spec fn json_member(member: (Seq<char>, ScalarView), pretty: bool) -> Seq<char> {
    if pretty {
        seq!['\n', ' ', ' '] + json_string(member.0) + seq![':', ' '] + json_scalar(member.1)
    } else {
        json_string(member.0) + seq![':'] + json_scalar(member.1)
    }
}

/// The members, with commas between them.
pub open spec fn json_members(members: Members, pretty: bool) -> Seq<char>
    decreases members.len(),
{
    if members.len() == 0 {
        Seq::empty()
    } else if members.len() == 1 {
        json_member(members[0], pretty)
    } else {
        json_member(members[0], pretty) + seq![','] + json_members(members.drop_first(), pretty)
    }
}

/// The object with `members`, on one line without spaces.
pub open spec fn json_compact(members: Members) -> Seq<char> {
    seq!['{'] + json_members(members, false) + seq!['}']
}

/// The object with `members`, each on a line of its own, indented by two spaces.
pub open spec fn json_pretty(members: Members) -> Seq<char> {
    if members.len() == 0 {
        seq!['{', '}']
    } else {
        seq!['{'] + json_members(members, true) + seq!['\n', '}']
    }
}

/// `name` is the name of one of `members`.
pub open spec fn has_member(members: Members, name: Seq<char>) -> bool {
    exists|i: int| 0 <= i < members.len() && (#[trigger] members[i]).0 == name
}

/// The members of an object whose values are all texts or unsigned numbers; `None` for
/// any other object.
pub uninterp spec fn object_members(
    object: serde_json::Map<String, serde_json::Value>,
) -> Option<Members>;

/// Calls `serde_json::Map::new`.
/// Trusted: the new object has no members.
#[verifier::external_body]
pub(crate) fn new_object() -> (object: serde_json::Map<String, serde_json::Value>)
    ensures
        object_members(object) == Some(Members::empty()),
{
    serde_json::Map::new()
}

/// Calls `serde_json::Map::insert`.
/// Trusted: with a name that the object does not have yet, the new member becomes the
/// last one (`preserve_order` is on).
#[verifier::external_body]
pub(crate) fn insert_member(
    object: &mut serde_json::Map<String, serde_json::Value>,
    name: &str,
    value: JsonScalar,
)
    requires
        object_members(*old(object)) is Some,
        !has_member(object_members(*old(object))->0, name@),
    ensures
        object_members(*final(object)) == Some(
            object_members(*old(object))->0.push((name@, value@)),
        ),
{
    let value = match value {
        JsonScalar::Text(text) => serde_json::Value::from(text),
        JsonScalar::Number(n) => serde_json::Value::from(n),
    };
    object.insert(name.to_owned(), value);
}

/// Calls `serde_json::to_vec`.
/// Trusted: an object of texts and numbers is always written, as its compact JSON in UTF-8.
#[verifier::external_body]
pub(crate) fn object_to_vec(
    object: &serde_json::Map<String, serde_json::Value>,
) -> (r: Result<Vec<u8>, serde_json::Error>)
    requires
        object_members(*object) is Some,
    ensures
        r is Ok,
        r->Ok_0@ == encode_utf8(json_compact(object_members(*object)->0)),
{
    serde_json::to_vec(object)
}

/// Calls `serde_json::to_string_pretty`.
/// Trusted: an object of texts and numbers is always written, as its indented JSON.
#[verifier::external_body]
pub(crate) fn object_to_string_pretty(
    object: &serde_json::Map<String, serde_json::Value>,
) -> (r: Result<String, serde_json::Error>)
    requires
        object_members(*object) is Some,
    ensures
        r is Ok,
        r->Ok_0@ == json_pretty(object_members(*object)->0),
{
    serde_json::to_string_pretty(object)
}

/// Equal texts with heads of equal length have equal heads and equal tails.
proof fn lemma_split(a: Seq<char>, x: Seq<char>, b: Seq<char>, y: Seq<char>)
    requires
        a + x == b + y,
        a.len() == b.len(),
    ensures
        a == b,
        x == y,
{
    assert(a =~= (a + x).take(a.len() as int));
    assert(b =~= (b + y).take(b.len() as int));
    assert(x =~= (a + x).skip(a.len() as int));
    assert(y =~= (b + y).skip(b.len() as int));
}

proof fn lemma_escaped_char_prefix(c: char, x: Seq<char>, d: char, y: Seq<char>)
    requires
        escaped_char(c) + x == escaped_char(d) + y,
    ensures
        c == d,
        x == y,
{
    let l = escaped_char(c) + x;
    let r = escaped_char(d) + y;
    assert(l[0] == escaped_char(c)[0]);
    assert(r[0] == escaped_char(d)[0]);
    if l[0] == '\\' {
        assert(escaped_char(c).len() > 1);
        assert(escaped_char(d).len() > 1);
        assert(l[1] == escaped_char(c)[1]);
        assert(r[1] == escaped_char(d)[1]);
        if l[1] == 'u' {
            assert(l[4] == hex_digit(c as int / 16) && l[5] == hex_digit(c as int % 16));
            assert(r[4] == hex_digit(d as int / 16) && r[5] == hex_digit(d as int % 16));
        }
    }
    lemma_split(escaped_char(c), x, escaped_char(d), y);
}

/// The first closing quote ends a JSON string: what is inside and what follows are determined.
proof fn lemma_escaped_prefix(s: Seq<char>, x: Seq<char>, t: Seq<char>, y: Seq<char>)
    requires
        escaped(s) + seq!['"'] + x == escaped(t) + seq!['"'] + y,
    ensures
        s == t,
        x == y,
    decreases s.len(),
{
    let q = seq!['"'];
    let l = escaped(s) + q + x;
    let r = escaped(t) + q + y;
    if s.len() == 0 && t.len() == 0 {
        lemma_split(escaped(s) + q, x, escaped(t) + q, y);
        assert(s =~= t);
    } else if s.len() == 0 {
        assert(l[0] == '"');
        assert(r[0] == escaped_char(t[0])[0]);
    } else if t.len() == 0 {
        assert(r[0] == '"');
        assert(l[0] == escaped_char(s[0])[0]);
    } else {
        let s1 = s.drop_first();
        let t1 = t.drop_first();
        assert(l =~= escaped_char(s[0]) + (escaped(s1) + q + x));
        assert(r =~= escaped_char(t[0]) + (escaped(t1) + q + y));
        lemma_escaped_char_prefix(s[0], escaped(s1) + q + x, t[0], escaped(t1) + q + y);
        lemma_escaped_prefix(s1, x, t1, y);
        assert(s =~= seq![s[0]] + s1);
        assert(t =~= seq![t[0]] + t1);
    }
}

proof fn lemma_json_string_prefix(s: Seq<char>, x: Seq<char>, t: Seq<char>, y: Seq<char>)
    requires
        json_string(s) + x == json_string(t) + y,
    ensures
        s == t,
        x == y,
{
    let q = seq!['"'];
    assert(json_string(s) + x =~= q + (escaped(s) + q + x));
    assert(json_string(t) + y =~= q + (escaped(t) + q + y));
    lemma_split(q, escaped(s) + q + x, q, escaped(t) + q + y);
    lemma_escaped_prefix(s, x, t, y);
}

/// `c` is a decimal digit.
spec fn is_digit(c: char) -> bool {
    '0' as int <= c as int <= '9' as int
}

proof fn lemma_decimal_digits(n: nat)
    ensures
        decimal(n).len() > 0,
        forall|i: int| 0 <= i < decimal(n).len() ==> is_digit(#[trigger] decimal(n)[i]),
    decreases n,
{
    if n >= 10 {
        lemma_decimal_digits(n / 10);
    }
}

proof fn lemma_decimal_injective(n: nat, m: nat)
    requires
        decimal(n) == decimal(m),
    ensures
        n == m,
    decreases n,
{
    lemma_decimal_digits(n / 10);
    lemma_decimal_digits(m / 10);
    assert(decimal(n).last() == ('0' as int + n % 10) as char);
    assert(decimal(m).last() == ('0' as int + m % 10) as char);
    assert(('0' as int + n % 10) as char as int == ('0' as int + m % 10) as char as int);
    if n >= 10 && m >= 10 {
        assert(decimal(n).drop_last() =~= decimal(n / 10));
        assert(decimal(m).drop_last() =~= decimal(m / 10));
        lemma_decimal_injective(n / 10, m / 10);
    } else if n >= 10 {
        assert(decimal(n).len() >= 2);
    } else if m >= 10 {
        assert(decimal(m).len() >= 2);
    }
}

/// A number ends where the first other character stands.
proof fn lemma_decimal_prefix(n: nat, x: Seq<char>, m: nat, y: Seq<char>)
    requires
        decimal(n) + x == decimal(m) + y,
        x.len() > 0,
        !is_digit(x[0]),
        y.len() > 0,
        !is_digit(y[0]),
    ensures
        n == m,
        x == y,
{
    let l = decimal(n) + x;
    let r = decimal(m) + y;
    let i = decimal(n).len() as int;
    let j = decimal(m).len() as int;
    lemma_decimal_digits(n);
    lemma_decimal_digits(m);
    assert(l[i] == x[0]);
    assert(r[j] == y[0]);
    if i < j {
        assert(is_digit(decimal(m)[i]));
        assert(r[i] == decimal(m)[i]);
    } else if j < i {
        assert(is_digit(decimal(n)[j]));
        assert(l[j] == decimal(n)[j]);
    }
    lemma_split(decimal(n), x, decimal(m), y);
    lemma_decimal_injective(n, m);
}

proof fn lemma_scalar_prefix(v: ScalarView, x: Seq<char>, w: ScalarView, y: Seq<char>)
    requires
        json_scalar(v) + x == json_scalar(w) + y,
        x.len() > 0,
        !is_digit(x[0]),
        y.len() > 0,
        !is_digit(y[0]),
    ensures
        v == w,
        x == y,
{
    let l = json_scalar(v) + x;
    let r = json_scalar(w) + y;
    match (v, w) {
        (ScalarView::Text(s), ScalarView::Text(t)) => {
            lemma_json_string_prefix(s, x, t, y);
        },
        (ScalarView::Number(n), ScalarView::Number(m)) => {
            lemma_decimal_prefix(n as nat, x, m as nat, y);
        },
        (ScalarView::Text(s), ScalarView::Number(m)) => {
            lemma_decimal_digits(m as nat);
            assert(l[0] == '"');
            assert(r[0] == decimal(m as nat)[0]);
        },
        (ScalarView::Number(n), ScalarView::Text(t)) => {
            lemma_decimal_digits(n as nat);
            assert(r[0] == '"');
            assert(l[0] == decimal(n as nat)[0]);
        },
    }
}

proof fn lemma_member_prefix(
    a: (Seq<char>, ScalarView),
    x: Seq<char>,
    b: (Seq<char>, ScalarView),
    y: Seq<char>,
    pretty: bool,
)
    requires
        json_member(a, pretty) + x == json_member(b, pretty) + y,
        x.len() > 0,
        !is_digit(x[0]),
        y.len() > 0,
        !is_digit(y[0]),
    ensures
        a == b,
        x == y,
{
    let head = if pretty {
        seq!['\n', ' ', ' ']
    } else {
        Seq::empty()
    };
    let colon = if pretty {
        seq![':', ' ']
    } else {
        seq![':']
    };
    let ax = colon + (json_scalar(a.1) + x);
    let by = colon + (json_scalar(b.1) + y);
    assert(json_member(a, pretty) + x =~= head + (json_string(a.0) + ax));
    assert(json_member(b, pretty) + y =~= head + (json_string(b.0) + by));
    lemma_split(head, json_string(a.0) + ax, head, json_string(b.0) + by);
    lemma_json_string_prefix(a.0, ax, b.0, by);
    lemma_split(colon, json_scalar(a.1) + x, colon, json_scalar(b.1) + y);
    lemma_scalar_prefix(a.1, x, b.1, y);
}

/// Members followed by an object's end are determined by their text.
proof fn lemma_members_determined(a: Members, b: Members, end: Seq<char>, pretty: bool)
    requires
        json_members(a, pretty) + end == json_members(b, pretty) + end,
        a.len() > 0,
        b.len() > 0,
        end.len() > 0,
        !is_digit(end[0]),
        end[0] != ',',
    ensures
        a == b,
    decreases a.len(),
{
    let comma = seq![','];
    let a1 = a.drop_first();
    let b1 = b.drop_first();
    let ax = if a.len() == 1 {
        end
    } else {
        comma + (json_members(a1, pretty) + end)
    };
    let by = if b.len() == 1 {
        end
    } else {
        comma + (json_members(b1, pretty) + end)
    };
    assert(json_members(a, pretty) + end =~= json_member(a[0], pretty) + ax);
    assert(json_members(b, pretty) + end =~= json_member(b[0], pretty) + by);
    lemma_member_prefix(a[0], ax, b[0], by, pretty);
    assert(a.len() > 1 ==> ax[0] == ',');
    assert(b.len() > 1 ==> by[0] == ',');
    if a.len() > 1 {
        lemma_split(comma, json_members(a1, pretty) + end, comma, json_members(b1, pretty) + end);
        lemma_members_determined(a1, b1, end, pretty);
    }
    assert(a =~= seq![a[0]] + a1);
    assert(b =~= seq![b[0]] + b1);
}

/// The JSON text of an object, in either layout, determines its members.
pub proof fn law_json_determines_members(a: Members, b: Members)
    ensures
        json_compact(a) == json_compact(b) ==> a == b,
        json_pretty(a) == json_pretty(b) ==> a == b,
{
    if json_compact(a) == json_compact(b) {
        lemma_object_determined(a, b, seq!['}'], false);
    }
    if json_pretty(a) == json_pretty(b) {
        if a.len() > 0 && b.len() > 0 {
            lemma_object_determined(a, b, seq!['\n', '}'], true);
        } else {
            lemma_member_starts(a, true);
            lemma_member_starts(b, true);
            assert(a =~= b);
        }
    }
}

/// The first character of an object's members.
proof fn lemma_member_starts(a: Members, pretty: bool)
    ensures
        a.len() > 0 ==> json_members(a, pretty).len() > 0 && json_members(a, pretty)[0] == (
        if pretty {
            '\n'
        } else {
            '"'
        }),
{
}

proof fn lemma_object_determined(a: Members, b: Members, end: Seq<char>, pretty: bool)
    requires
        seq!['{'] + json_members(a, pretty) + end == seq!['{'] + json_members(b, pretty) + end,
        end == (if pretty {
            seq!['\n', '}']
        } else {
            seq!['}']
        }),
        pretty ==> a.len() > 0 && b.len() > 0,
    ensures
        a == b,
{
    let open = seq!['{'];
    assert(open + json_members(a, pretty) + end =~= open + (json_members(a, pretty) + end));
    assert(open + json_members(b, pretty) + end =~= open + (json_members(b, pretty) + end));
    lemma_split(open, json_members(a, pretty) + end, open, json_members(b, pretty) + end);
    lemma_member_starts(a, pretty);
    lemma_member_starts(b, pretty);
    if a.len() > 0 && b.len() > 0 {
        lemma_members_determined(a, b, end, pretty);
    } else if a.len() > 0 {
        assert((json_members(a, pretty) + end)[0] == '"');
        assert((json_members(b, pretty) + end)[0] == '}');
    } else if b.len() > 0 {
        assert((json_members(b, pretty) + end)[0] == '"');
        assert((json_members(a, pretty) + end)[0] == '}');
    } else {
        assert(a =~= b);
    }
}

} // verus!
