use vstd::prelude::*;

use crate::error::{ApifyClientError, ClientValidationError};

verus! {

/// HTTP methods the platform's API is called with.
#[derive(Debug, Clone, Copy, PartialEq, Eq, Structural)]
pub enum Method {
    Get,
    Post,
    Put,
    Delete,
}

#[derive(Debug, Clone, Copy, PartialEq, Eq, Structural)]
pub enum ResourceType {
    Dataset,
}

/// An owner (user name or user ID) and a resource name.
#[derive(Debug)]
pub struct ResourceName {
    pub user_name_or_user_id: String,
    pub resource_name: String,
}

/// A resource, addressed by its opaque ID or by owner and name.
#[derive(Debug)]
pub enum IdOrName {
    Id(String),
    Name(ResourceName),
}

/// What an `IdOrName` denotes: an ID, or an owner and a name.
pub ghost enum LocatorView {
    Id(Seq<char>),
    Name(Seq<char>, Seq<char>),
}

impl View for IdOrName {
    type V = LocatorView;

    open spec fn view(&self) -> LocatorView {
        match self {
            IdOrName::Id(id) => LocatorView::Id(id@),
            IdOrName::Name(n) => LocatorView::Name(n.user_name_or_user_id@, n.resource_name@),
        }
    }
}

impl Clone for ResourceName {
    fn clone(&self) -> (r: Self)
        ensures
            r == *self,
    {
        ResourceName {
            user_name_or_user_id: self.user_name_or_user_id.clone(),
            resource_name: self.resource_name.clone(),
        }
    }
}

impl Clone for IdOrName {
    fn clone(&self) -> (r: Self)
        ensures
            r == *self,
    {
        match self {
            IdOrName::Id(id) => IdOrName::Id(id.clone()),
            IdOrName::Name(n) => IdOrName::Name(n.clone()),
        }
    }
}

/// A character allowed in a resource ID: an ASCII letter or digit.
pub open spec fn is_id_char(c: char) -> bool {
    ('a' <= c && c <= 'z') || ('A' <= c && c <= 'Z') || ('0' <= c && c <= '9')
}

/// A character allowed in an owner or a resource name.
pub open spec fn is_name_char(c: char) -> bool {
    is_id_char(c) || c == '-' || c == '_' || c == '.'
}

/// Exactly 17 ASCII letters and digits.
pub open spec fn is_resource_id(s: Seq<char>) -> bool {
    s.len() == 17 && forall|i: int| 0 <= i < s.len() ==> is_id_char(#[trigger] s[i])
}

/// A non-empty run of name characters.
pub open spec fn is_name_part(s: Seq<char>) -> bool {
    s.len() > 0 && forall|i: int| 0 <= i < s.len() ==> is_name_char(#[trigger] s[i])
}

/// `s` is `owner/name`, with its one slash at index `k`.
pub open spec fn splits_at(s: Seq<char>, k: int) -> bool {
    &&& 0 <= k < s.len()
    &&& s[k] == '/'
    &&& is_name_part(s.take(k))
    &&& is_name_part(s.skip(k + 1))
}

/// `s` has the form `owner/name`.
pub open spec fn is_resource_name(s: Seq<char>) -> bool {
    exists|k: int| splits_at(s, k)
}

/// The index of the slash of an `owner/name` identifier.
pub open spec fn slash_index(s: Seq<char>) -> int {
    choose|k: int| splits_at(s, k)
}

/// How a raw identifier is classified: an ID, an owner/name pair, or neither.
pub open spec fn parse_spec(s: Seq<char>) -> Option<LocatorView> {
    if is_resource_id(s) {
        Some(LocatorView::Id(s))
    } else if is_resource_name(s) {
        let k = slash_index(s);
        Some(LocatorView::Name(s.take(k), s.skip(k + 1)))
    } else {
        None
    }
}

/// The wire form of a locator: the ID as is, or `owner~name`.
pub open spec fn render_spec(l: LocatorView) -> Seq<char> {
    match l {
        LocatorView::Id(id) => id,
        LocatorView::Name(owner, name) => owner + seq!['~'] + name,
    }
}

/// The form a user writes a locator in: the ID as is, or `owner/name`.
pub open spec fn slash_form(l: LocatorView) -> Seq<char> {
    match l {
        LocatorView::Id(id) => id,
        LocatorView::Name(owner, name) => owner + seq!['/'] + name,
    }
}

pub open spec fn invalid_identifier_message(s: Seq<char>) -> Seq<char> {
    "Resource needs to be either an ID with 17 chars or a name with a slash. Got: "@ + s
}

/// Whether a call with `method` on `l` must carry a token.
pub open spec fn token_required_spec(l: LocatorView, method: Method) -> bool {
    method != Method::Get || l is Name
}

fn is_id_char_exec(c: char) -> (r: bool)
    ensures
        r == is_id_char(c),
{
    ('a' <= c && c <= 'z') || ('A' <= c && c <= 'Z') || ('0' <= c && c <= '9')
}

fn is_name_char_exec(c: char) -> (r: bool)
    ensures
        r == is_name_char(c),
{
    is_id_char_exec(c) || c == '-' || c == '_' || c == '.'
}

/// Whether every character of `s` in `[from, to)` is a name character.
fn name_chars_between(s: &str, from: usize, to: usize) -> (r: bool)
    requires
        from <= to <= s@.len(),
    ensures
        r == forall|i: int| from <= i < to ==> is_name_char(#[trigger] s@[i]),
{
    let mut i = from;
    while i < to
        invariant
            from <= i <= to <= s@.len(),
            forall|j: int| from <= j < i ==> is_name_char(#[trigger] s@[j]),
        decreases to - i,
    {
        if !is_name_char_exec(s.get_char(i)) {
            return false;
        }
        i = i + 1;
    }
    true
}

/// Whether `s` is a resource ID.
fn is_resource_id_exec(s: &str, len: usize) -> (r: bool)
    requires
        len == s@.len(),
    ensures
        r == is_resource_id(s@),
{
    if len != 17 {
        return false;
    }
    let mut i: usize = 0;
    while i < len
        invariant
            len == s@.len(),
            i <= len,
            forall|j: int| 0 <= j < i ==> is_id_char(#[trigger] s@[j]),
        decreases len - i,
    {
        if !is_id_char_exec(s.get_char(i)) {
            return false;
        }
        i = i + 1;
    }
    true
}

/// The index of the first slash in `s`, if any.
fn first_slash(s: &str, len: usize) -> (r: Option<usize>)
    requires
        len == s@.len(),
    ensures
        match r {
            Some(k) => k < len && s@[k as int] == '/' && forall|j: int| 0 <= j < k ==> s@[j] != '/',
            None => forall|j: int| 0 <= j < len ==> s@[j] != '/',
        },
{
    let mut i: usize = 0;
    while i < len
        invariant
            len == s@.len(),
            i <= len,
            forall|j: int| 0 <= j < i ==> s@[j] != '/',
        decreases len - i,
    {
        if s.get_char(i) == '/' {
            return Some(i);
        }
        i = i + 1;
    }
    None
}

/// An `owner/name` identifier has exactly one slash, so it splits only at its first one.
proof fn lemma_split_is_first_slash(s: Seq<char>, k: int)
    requires
        0 <= k < s.len(),
        s[k] == '/',
        forall|j: int| 0 <= j < k ==> s[j] != '/',
    ensures
        is_resource_name(s) <==> splits_at(s, k),
        is_resource_name(s) ==> slash_index(s) == k,
{
    if is_resource_name(s) {
        let j = choose|j: int| splits_at(s, j);
        if j < k {
            assert(s.skip(j + 1)[k - j - 1] == s[k]);
        } else if k < j {
            assert(s.take(j)[k] == s[k]);
        }
    }
}

/// The position of the slash of `s` when it has the form `owner/name`.
fn name_split(s: &str, len: usize) -> (r: Option<usize>)
    requires
        len == s@.len(),
    ensures
        r is Some <==> is_resource_name(s@),
        r is Some ==> r->0 == slash_index(s@) && splits_at(s@, r->0 as int),
{
    match first_slash(s, len) {
        None => {
            assert(!is_resource_name(s@)) by {
                if is_resource_name(s@) {
                    let k = choose|k: int| splits_at(s@, k);
                    assert(s@[k] == '/');
                }
            }
            None
        },
        Some(k) => {
            proof {
                lemma_split_is_first_slash(s@, k as int);
            }
            let owner_ok = 0 < k && name_chars_between(s, 0, k);
            let name_ok = k + 1 < len && name_chars_between(s, k + 1, len);
            assert(owner_ok == is_name_part(s@.take(k as int))) by {
                if is_name_part(s@.take(k as int)) {
                    assert forall|i: int| 0 <= i < k implies is_name_char(#[trigger] s@[i]) by {
                        assert(s@.take(k as int)[i] == s@[i]);
                    }
                }
                if owner_ok {
                    assert forall|i: int| 0 <= i < k implies is_name_char(
                        #[trigger] s@.take(k as int)[i],
                    ) by {
                        assert(s@.take(k as int)[i] == s@[i]);
                    }
                }
            }
            assert(name_ok == is_name_part(s@.skip(k + 1))) by {
                if is_name_part(s@.skip(k + 1)) {
                    assert forall|i: int| k + 1 <= i < len implies is_name_char(
                        #[trigger] s@[i],
                    ) by {
                        assert(s@.skip(k + 1)[i - k - 1] == s@[i]);
                    }
                }
                if name_ok {
                    assert forall|i: int| 0 <= i < s@.skip(k + 1).len() implies is_name_char(
                        #[trigger] s@.skip(k + 1)[i],
                    ) by {
                        assert(s@.skip(k + 1)[i] == s@[i + k + 1]);
                    }
                }
            }
            if owner_ok && name_ok {
                Some(k)
            } else {
                None
            }
        },
    }
}

impl IdOrName {
    /// Classifies a raw identifier: 17 ASCII letters and digits make an ID,
    /// `owner/name` (letters, digits, `-`, `_`, `.` on each side of one slash)
    /// makes a name; anything else is rejected.
    pub fn new(id_or_name: &str) -> (r: Result<IdOrName, ApifyClientError>)
        ensures
            match parse_spec(id_or_name@) {
                Some(l) => r is Ok && r->Ok_0@ == l,
                None => r matches Err(
                    ApifyClientError::ClientValidation(
                        ClientValidationError::InvalidResourceIdOrName(m),
                    ),
                ) && m@ == invalid_identifier_message(id_or_name@),
            },
    {
        let len = id_or_name.unicode_len();
        if is_resource_id_exec(id_or_name, len) {
            return Ok(IdOrName::Id(id_or_name.to_owned()));
        }
        match name_split(id_or_name, len) {
            Some(k) => {
                let owner = id_or_name.substring_char(0, k).to_owned();
                let name = id_or_name.substring_char(k + 1, len).to_owned();
                Ok(IdOrName::Name(ResourceName { user_name_or_user_id: owner, resource_name: name }))
            },
            None => {
                let message = String::from_str(
                    "Resource needs to be either an ID with 17 chars or a name with a slash. Got: ",
                ).concat(id_or_name);
                Err(
                    ApifyClientError::ClientValidation(
                        ClientValidationError::InvalidResourceIdOrName(message),
                    ),
                )
            },
        }
    }

    /// The locator as a user writes it: the ID, or `owner/name`.
    pub fn to_string(self) -> (r: String)
        ensures
            r@ == slash_form(self@),
    {
        match self {
            IdOrName::Id(id) => id,
            IdOrName::Name(n) => {
                proof {
                    reveal_strlit("/");
                }
                n.user_name_or_user_id.concat("/").concat(n.resource_name.as_str())
            },
        }
    }

    /// Whether an operation with `method` on this resource must carry a token:
    /// reads by ID need none, reads by name and every write need one.
    pub fn requires_token(&self, method: Method) -> (r: bool)
        ensures
            r == token_required_spec(self@, method),
    {
        match method {
            Method::Get => is_resource_by_name(self),
            _ => true,
        }
    }
}

/// The wire form of a resource: the ID as is, or `owner~name`.
pub fn stringify_resource(id_or_name: &IdOrName) -> (r: String)
    ensures
        r@ == render_spec(id_or_name@),
{
    match id_or_name {
        IdOrName::Id(id) => id.clone(),
        IdOrName::Name(n) => {
            proof {
                reveal_strlit("~");
            }
            n.user_name_or_user_id.clone().concat("~").concat(n.resource_name.as_str())
        },
    }
}

/// Whether the resource is addressed by owner and name (rather than by ID).
pub fn is_resource_by_name(id_or_name: &IdOrName) -> (r: bool)
    ensures
        r == (id_or_name is Name),
{
    match id_or_name {
        IdOrName::Name(_) => true,
        IdOrName::Id(_) => false,
    }
}

/// Rendering a parsed identifier for the wire gives the identifier itself for
/// an ID, and the identifier with its slash turned into a tilde for an
/// owner/name pair; writing it back in slash form gives the identifier itself.
pub proof fn lemma_render_parsed(s: Seq<char>)
    requires
        parse_spec(s) is Some,
    ensures
        is_resource_id(s) ==> render_spec(parse_spec(s)->0) == s,
        !is_resource_id(s) ==> render_spec(parse_spec(s)->0) == s.update(slash_index(s), '~'),
        slash_form(parse_spec(s)->0) == s,
{
    if !is_resource_id(s) {
        let k = slash_index(s);
        assert(splits_at(s, k));
        assert(render_spec(parse_spec(s)->0) =~= s.update(k, '~'));
        assert(slash_form(parse_spec(s)->0) =~= s);
    }
}

/// Reads by ID never need a token, reads by name always do, and so does every
/// write whatever the locator.
pub proof fn lemma_token_rules(l: LocatorView, method: Method)
    ensures
        method == Method::Get && l is Id ==> !token_required_spec(l, method),
        method == Method::Get && l is Name ==> token_required_spec(l, method),
        method != Method::Get ==> token_required_spec(l, method),
{
}

} // verus!
