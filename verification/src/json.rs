//! JSON documents as the connector exchanges them: a small document model,
//! and its compact text.

use vstd::prelude::*;
use vstd::string::*;

verus! {

/// A JSON document: `null`, a truth value, a whole number that is not
/// negative, a text, or an object. The members of an object keep the order
/// in which they were given.
#[derive(Debug)]
pub enum JsonValue {
    Null,
    Bool(bool),
    Number(u64),
    String(String),
    Object(Vec<(String, JsonValue)>),
}

/// The mathematical value of a [`JsonValue`].
pub enum Json {
    Null,
    Bool(bool),
    Number(nat),
    String(Seq<char>),
    Object(Seq<(Seq<char>, Json)>),
}

/// The values of the first `n` members of an object.
pub open spec fn member_views(members: Seq<(String, JsonValue)>, n: nat) -> Seq<(Seq<char>, Json)>
    decreases members, n,
{
    if n == 0 || n > members.len() {
        Seq::empty()
    } else {
        member_views(members, (n - 1) as nat).push(
            (members[n - 1].0@, members[n - 1].1.view()),
        )
    }
}

impl View for JsonValue {
    type V = Json;

    open spec fn view(&self) -> Json
        decreases self, 0nat,
    {
        match self {
            JsonValue::Null => Json::Null,
            JsonValue::Bool(b) => Json::Bool(*b),
            JsonValue::Number(n) => Json::Number(*n as nat),
            JsonValue::String(text) => Json::String(text@),
            JsonValue::Object(members) => Json::Object(member_views(members@, members@.len())),
        }
    }
}

/// The members of the object that `members` holds: as many as `members`, each
/// with the value of its key and of its document.
pub proof fn lemma_member_views(members: Seq<(String, JsonValue)>, n: nat)
    requires
        n <= members.len(),
    ensures
        member_views(members, n).len() == n,
        forall|i: int|
            0 <= i < n ==> (#[trigger] member_views(members, n)[i]) == (
                members[i].0@,
                members[i].1@,
            ),
    decreases n,
{
    reveal_with_fuel(member_views, 2);
    if n > 0 {
        lemma_member_views(members, (n - 1) as nat);
    }
}

/// The text of a JSON string for `text`: quotes around it, and escapes
/// within. It stands for what `serde_json::to_string` returns for a `str`.
pub uninterp spec fn json_quoted(text: Seq<char>) -> Seq<char>;

/// The decimal digit of a number below ten.
pub open spec fn digit(d: nat) -> char {
    if d == 0 {
        '0'
    } else if d == 1 {
        '1'
    } else if d == 2 {
        '2'
    } else if d == 3 {
        '3'
    } else if d == 4 {
        '4'
    } else if d == 5 {
        '5'
    } else if d == 6 {
        '6'
    } else if d == 7 {
        '7'
    } else if d == 8 {
        '8'
    } else {
        '9'
    }
}

/// A number in decimal digits, without leading zeros.
pub open spec fn decimal(n: nat) -> Seq<char>
    decreases n,
{
    if n < 10 {
        seq![digit(n)]
    } else {
        decimal(n / 10).push(digit(n % 10))
    }
}

/// Texts in a row, with a comma between neighbours.
pub open spec fn joined(parts: Seq<Seq<char>>) -> Seq<char>
    decreases parts.len(),
{
    if parts.len() == 0 {
        Seq::empty()
    } else if parts.len() == 1 {
        parts[0]
    } else {
        joined(parts.drop_last()) + ","@ + parts.last()
    }
}

/// The text of one member of an object, from the text of its key and the
/// text of its value.
pub open spec fn member_text(quoted_key: Seq<char>, value: Seq<char>) -> Seq<char> {
    quoted_key + ":"@ + value
}

/// The text of an object, from the texts of its members.
pub open spec fn object_text(members: Seq<Seq<char>>) -> Seq<char> {
    "{"@ + joined(members) + "}"@
}

/// The texts of the first `n` members of an object.
pub open spec fn member_texts(members: Seq<(Seq<char>, Json)>, n: nat) -> Seq<Seq<char>>
    decreases members, n,
{
    if n == 0 || n > members.len() {
        Seq::empty()
    } else {
        member_texts(members, (n - 1) as nat).push(
            member_text(json_quoted(members[n - 1].0), members[n - 1].1.rendered()),
        )
    }
}

impl Json {
    /// The compact text of the document: no white space, the members of an
    /// object in their order.
    pub open spec fn rendered(self) -> Seq<char>
        decreases self, 0nat,
    {
        match self {
            Json::Null => "null"@,
            Json::Bool(b) => if b {
                "true"@
            } else {
                "false"@
            },
            Json::Number(n) => decimal(n),
            Json::String(text) => json_quoted(text),
            Json::Object(members) => object_text(member_texts(members, members.len())),
        }
    }

    /// The value of the first member of an object that is named `key`, if
    /// the document is an object and has one.
    pub open spec fn field(self, key: Seq<char>) -> Option<Json> {
        match self {
            Json::Object(members) => first_named(members, key, 0),
            _ => None,
        }
    }
}

/// The value of the first member named `key` among those from index `from` on.
pub open spec fn first_named(members: Seq<(Seq<char>, Json)>, key: Seq<char>, from: nat) -> Option<
    Json,
>
    decreases members.len() - from,
{
    if from >= members.len() {
        None
    } else if members[from as int].0 == key {
        Some(members[from as int].1)
    } else {
        first_named(members, key, from + 1)
    }
}

/// The values of a sequence of texts.
pub open spec fn text_views(texts: Seq<String>) -> Seq<Seq<char>> {
    texts.map_values(|text: String| text@)
}

fn digit_text(d: u64) -> (text: &'static str)
    requires
        d < 10,
    ensures
        text@ == seq![digit(d as nat)],
{
    proof {
        reveal_strlit("0");
        reveal_strlit("1");
        reveal_strlit("2");
        reveal_strlit("3");
        reveal_strlit("4");
        reveal_strlit("5");
        reveal_strlit("6");
        reveal_strlit("7");
        reveal_strlit("8");
        reveal_strlit("9");
    }
    let text = if d == 0 {
        "0"
    } else if d == 1 {
        "1"
    } else if d == 2 {
        "2"
    } else if d == 3 {
        "3"
    } else if d == 4 {
        "4"
    } else if d == 5 {
        "5"
    } else if d == 6 {
        "6"
    } else if d == 7 {
        "7"
    } else if d == 8 {
        "8"
    } else {
        "9"
    };
    assert(text@ =~= seq![digit(d as nat)]);
    text
}

/// Writes a number in decimal digits.
pub fn decimal_text(n: u64) -> (text: String)
    ensures
        text@ == decimal(n as nat),
    decreases n,
{
    if n < 10 {
        String::from_str(digit_text(n))
    } else {
        let text = decimal_text(n / 10).concat(digit_text(n % 10));
        assert(text@ =~= decimal(n as nat));
        text
    }
}

/// The error type of `serde_json`. Nothing here looks inside it.
#[verifier::external_type_specification]
#[verifier::external_body]
pub struct ExJsonError(serde_json::Error);

/// Calls `serde_json::to_string` on a `str`, which writes the text as a JSON
/// string into a byte buffer that grows as needed. Neither the writing of a
/// `str` nor the buffer can fail, so the call returns `Ok`; its text is
/// what [`json_quoted`] names. Nothing here is proved: the contract is taken
/// on trust.
#[verifier::external_body]
fn quote(text: &str) -> (quoted: Result<String, serde_json::Error>)
    ensures
        quoted is Ok,
        quoted->Ok_0@ == json_quoted(text@),
{
    serde_json::to_string(text)
}

/// The text of a JSON string for `text`.
pub fn quoted_text(text: &str) -> (quoted: String)
    ensures
        quoted@ == json_quoted(text@),
{
    match quote(text) {
        Ok(quoted) => quoted,
        Err(_) => vstd::pervasive::unreached(),
    }
}

/// Puts a member together from the text of its key, already quoted, and the
/// text of its value.
pub fn frame_member(quoted_key: &str, value: &str) -> (text: String)
    ensures
        text@ == member_text(quoted_key@, value@),
{
    String::from_str(quoted_key).concat(":").concat(value)
}

/// Puts an object together from the texts of its members.
pub fn frame_object(members: &Vec<String>) -> (text: String)
    ensures
        text@ == object_text(text_views(members@)),
{
    let ghost parts = text_views(members@);
    let mut text = String::from_str("{");
    let mut i: usize = 0;
    assert(parts.take(0) =~= Seq::<Seq<char>>::empty());
    assert(text@ =~= "{"@ + joined(parts.take(0)));
    while i < members.len()
        invariant
            0 <= i <= members.len(),
            parts == text_views(members@),
            text@ == "{"@ + joined(parts.take(i as int)),
        decreases members.len() - i,
    {
        proof {
            let upto = parts.take(i + 1);
            assert(upto.drop_last() =~= parts.take(i as int));
            assert(upto.last() == members@[i as int]@);
        }
        if i > 0 {
            text.append(",");
        }
        text.append(members[i].as_str());
        assert(text@ =~= "{"@ + joined(parts.take(i + 1)));
        i = i + 1;
    }
    assert(parts.take(i as int) =~= parts);
    text.append("}");
    text
}

impl JsonValue {
    /// The value of the first member named `key`, if the document is an
    /// object and has one.
    pub fn get(&self, key: &str) -> (value: Option<&JsonValue>)
        ensures
            match value {
                Some(value) => self@.field(key@) == Some(value@),
                None => self@.field(key@) is None,
            },
    {
        match self {
            JsonValue::Object(members) => {
                let ghost views = member_views(members@, members@.len());
                proof {
                    lemma_member_views(members@, members@.len());
                }
                let wanted = key.to_owned();
                let mut i: usize = 0;
                while i < members.len()
                    invariant
                        0 <= i <= members.len(),
                        wanted@ == key@,
                        self@ == Json::Object(views),
                        views.len() == members@.len(),
                        forall|j: int|
                            0 <= j < views.len() ==> (#[trigger] views[j]) == (
                                members@[j].0@,
                                members@[j].1@,
                            ),
                        first_named(views, key@, 0) == first_named(views, key@, i as nat),
                    decreases members.len() - i,
                {
                    if members[i].0 == wanted {
                        return Some(&members[i].1);
                    }
                    i = i + 1;
                }
                None
            },
            _ => None,
        }
    }

    /// The compact text of the document.
    pub fn render(&self) -> (text: String)
        ensures
            text@ == self@.rendered(),
        decreases self,
    {
        match self {
            JsonValue::Null => String::from_str("null"),
            JsonValue::Bool(b) => if *b {
                String::from_str("true")
            } else {
                String::from_str("false")
            },
            JsonValue::Number(n) => decimal_text(*n),
            JsonValue::String(text) => quoted_text(text.as_str()),
            JsonValue::Object(members) => {
                let ghost views = member_views(members@, members@.len());
                let mut texts: Vec<String> = Vec::new();
                let mut i: usize = 0;
                proof {
                    lemma_member_views(members@, members@.len());
                }
                while i < members.len()
                    invariant
                        0 <= i <= members.len(),
                        *self == JsonValue::Object(*members),
                        views == member_views(members@, members@.len()),
                        views.len() == members@.len(),
                        forall|j: int|
                            0 <= j < views.len() ==> (#[trigger] views[j]) == (
                                members@[j].0@,
                                members@[j].1@,
                            ),
                        text_views(texts@) == member_texts(views, i as nat),
                    decreases members.len() - i,
                {
                    let key = quoted_text(members[i].0.as_str());
                    assert(decreases_to!(*self => self->Object_0@[i as int].1));
                    let value = members[i].1.render();
                    let member = frame_member(key.as_str(), value.as_str());
                    let ghost earlier = texts@;
                    texts.push(member);
                    assert(text_views(texts@) =~= text_views(earlier).push(member@));
                    i = i + 1;
                }
                frame_object(&texts)
            },
        }
    }
}

} // verus!
