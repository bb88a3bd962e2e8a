use vstd::prelude::*;

verus! {

/// The mathematical model of a JSON document.
///
/// Numbers are kept as their decimal text. The members of an object are kept
/// in order, as pairs of name and value.
pub enum JsonView {
    Null,
    Bool(bool),
    Number(Seq<char>),
    String(Seq<char>),
    Array(Seq<JsonView>),
    Object(Seq<(Seq<char>, JsonView)>),
}

/// A JSON document held in memory.
#[derive(Debug, PartialEq, Eq)]
pub enum Json {
    Null,
    Bool(bool),
    Number(String),
    String(String),
    Array(Vec<Json>),
    Object(Vec<(String, Json)>),
}

/// The models of the first `n` documents of `items`, in order.
pub open spec fn items_view(items: Vec<Json>, n: nat) -> Seq<JsonView>
    decreases items, n,
{
    if n == 0 || n > items.len() {
        Seq::empty()
    } else {
        items_view(items, (n - 1) as nat).push(json_view(items[n - 1]))
    }
}

/// The models of the first `n` members of `members`, in order.
pub open spec fn members_view(members: Vec<(String, Json)>, n: nat) -> Seq<(Seq<char>, JsonView)>
    decreases members, n,
{
    if n == 0 || n > members.len() {
        Seq::empty()
    } else {
        members_view(members, (n - 1) as nat).push(
            (members[n - 1].0@, json_view(members[n - 1].1)),
        )
    }
}

/// The model of a document.
pub open spec fn json_view(value: Json) -> JsonView
    decreases value, 0nat,
{
    match value {
        Json::Null => JsonView::Null,
        Json::Bool(b) => JsonView::Bool(b),
        Json::Number(text) => JsonView::Number(text@),
        Json::String(text) => JsonView::String(text@),
        Json::Array(items) => JsonView::Array(items_view(items, items.len() as nat)),
        Json::Object(members) => JsonView::Object(members_view(members, members.len() as nat)),
    }
}

impl View for Json {
    type V = JsonView;

    open spec fn view(&self) -> JsonView {
        json_view(*self)
    }
}

/// The value of the first member called `name` in `members`, if there is one.
pub open spec fn first_member(members: Seq<(Seq<char>, JsonView)>, name: Seq<char>) -> Option<
    JsonView,
>
    decreases members.len(),
{
    if members.len() == 0 {
        None
    } else if members[0].0 == name {
        Some(members[0].1)
    } else {
        first_member(members.drop_first(), name)
    }
}

impl JsonView {
    /// Whether the value is an object.
    pub open spec fn is_object(self) -> bool {
        self is Object
    }

    /// Whether the value is an array.
    pub open spec fn is_array(self) -> bool {
        self is Array
    }

    /// The text of a JSON string; `None` for every other kind of value.
    pub open spec fn as_str(self) -> Option<Seq<char>> {
        match self {
            JsonView::String(text) => Some(text),
            _ => None,
        }
    }

    /// The member called `name` of an object; `None` where the value is no
    /// object or has no such member.
    pub open spec fn member(self, name: Seq<char>) -> Option<JsonView> {
        match self {
            JsonView::Object(members) => first_member(members, name),
            _ => None,
        }
    }

    /// The element at `index` of an array; `None` where the value is no
    /// array or is shorter.
    pub open spec fn element(self, index: int) -> Option<JsonView> {
        match self {
            JsonView::Array(items) => if 0 <= index < items.len() {
                Some(items[index])
            } else {
                None
            },
            _ => None,
        }
    }
}

/// The model of a document that a lookup may have found.
pub open spec fn found_view(found: Option<&Json>) -> Option<JsonView> {
    match found {
        Some(value) => Some(value@),
        None => None,
    }
}

/// `items_view` keeps the length and the order of the documents.
proof fn lemma_items_view(items: Vec<Json>, n: nat)
    requires
        n <= items.len(),
    ensures
        items_view(items, n).len() == n,
        forall|i: int| 0 <= i < n ==> #[trigger] items_view(items, n)[i] == items[i]@,
    decreases n,
{
    if n > 0 {
        lemma_items_view(items, (n - 1) as nat);
    }
}

/// `members_view` keeps the length and the order of the members.
proof fn lemma_members_view(members: Vec<(String, Json)>, n: nat)
    requires
        n <= members.len(),
    ensures
        members_view(members, n).len() == n,
        forall|i: int|
            0 <= i < n ==> #[trigger] members_view(members, n)[i] == (
                members[i].0@,
                members[i].1@,
            ),
    decreases n,
{
    if n > 0 {
        lemma_members_view(members, (n - 1) as nat);
    }
}

/// The model of an array holds the models of its elements, one for one.
pub proof fn lemma_array_view(items: Vec<Json>)
    ensures
        Json::Array(items)@ matches JsonView::Array(all) && all.len() == items.len() && forall|
            i: int,
        |
            0 <= i < items.len() ==> #[trigger] all[i] == items[i]@,
{
    lemma_items_view(items, items.len() as nat);
}

/// The model of an object holds the names of its members and the models of
/// their values, one for one.
pub proof fn lemma_object_view(members: Vec<(String, Json)>)
    ensures
        Json::Object(members)@ matches JsonView::Object(all) && all.len() == members.len()
            && forall|i: int|
            0 <= i < members.len() ==> #[trigger] all[i] == (members[i].0@, members[i].1@),
{
    lemma_members_view(members, members.len() as nat);
}

/// `first_member` only looks at the members before the first match.
proof fn lemma_first_member_skip(members: Seq<(Seq<char>, JsonView)>, name: Seq<char>, n: int)
    requires
        0 <= n <= members.len(),
        forall|j: int| 0 <= j < n ==> members[j].0 != name,
    ensures
        first_member(members, name) == first_member(members.skip(n), name),
    decreases n,
{
    if n > 0 {
        assert(members.drop_first().skip(n - 1) =~= members.skip(n));
        lemma_first_member_skip(members.drop_first(), name, n - 1);
    } else {
        assert(members.skip(0) =~= members);
    }
}

impl Json {
    /// Tells whether the document is an object.
    pub fn is_object(&self) -> (yes: bool)
        ensures
            yes == self@.is_object(),
    {
        match self {
            Json::Object(_) => true,
            _ => false,
        }
    }

    /// Tells whether the document is an array.
    pub fn is_array(&self) -> (yes: bool)
        ensures
            yes == self@.is_array(),
    {
        match self {
            Json::Array(_) => true,
            _ => false,
        }
    }

    /// The text of a document that is a string.
    pub fn as_str(&self) -> (text: Option<&str>)
        ensures
            match text {
                Some(t) => self@.as_str() == Some(t@),
                None => self@.as_str() is None,
            },
    {
        match self {
            Json::String(text) => Some(text.as_str()),
            _ => None,
        }
    }

    /// Looks a member of an object up by its name. Of two members with one
    /// name the first is found.
    pub fn member(&self, name: &str) -> (found: Option<&Json>)
        ensures
            found_view(found) == self@.member(name@),
    {
        match self {
            Json::Object(members) => {
                let wanted = name.to_owned();
                let mut i: usize = 0;
                proof {
                    lemma_object_view(*members);
                }
                while i < members.len()
                    invariant
                        i <= members.len(),
                        wanted@ == name@,
                        self@ matches JsonView::Object(all) && all.len() == members.len() && (
                        forall|j: int|
                            0 <= j < members.len() ==> #[trigger] all[j] == (
                                members[j].0@,
                                members[j].1@,
                            )),
                        forall|j: int| 0 <= j < i ==> members[j].0@ != name@,
                    decreases members.len() - i,
                {
                    if members[i].0 == wanted {
                        proof {
                            let all = self@->Object_0;
                            lemma_first_member_skip(all, name@, i as int);
                        }
                        return Some(&members[i].1);
                    }
                    i += 1;
                }
                proof {
                    let all = self@->Object_0;
                    lemma_first_member_skip(all, name@, all.len() as int);
                }
                None
            },
            _ => None,
        }
    }

    /// Looks an element of an array up by its position.
    pub fn element(&self, index: usize) -> (found: Option<&Json>)
        ensures
            found_view(found) == self@.element(index as int),
    {
        match self {
            Json::Array(items) => {
                proof {
                    lemma_array_view(*items);
                }
                if index < items.len() {
                    Some(&items[index])
                } else {
                    None
                }
            },
            _ => None,
        }
    }
}

} // verus!
