//! Device identity resolution: deriving the filename stem for a device,
//! either from a field of its configuration document or from its
//! advertised hostname.

use vstd::prelude::*;
use crate::text::{all_space, is_blank};

verus! {

/// Which identity the backup uses for file naming: a field read from the
/// device's configuration document, or the advertised hostname.
#[derive(PartialEq, Eq, Structural, Clone, Copy, Debug)]
pub enum IdentityPolicy {
    ConfigDerived,
    HostnameDerived,
}

/// Why identity resolution from a configuration document failed.
#[derive(PartialEq, Eq, Structural, Clone, Copy, Debug)]
pub enum IdentityError {
    /// The document is not syntactically valid JSON.
    NotJson,
    /// The document has no top-level `id` member.
    MissingId,
    /// The `id` member has no `name` member.
    MissingName,
    /// The value at `id`.`name` is not a string.
    NameNotString,
    /// The value at `id`.`name` trims to the empty string.
    BlankName,
}

impl IdentityError {
    /// The user-visible diagnostic for this error.
    pub open spec fn message_spec(&self) -> Seq<char> {
        match self {
            IdentityError::NotJson => "Failed to parse cfg.json"@,
            IdentityError::MissingId => "Missing 'id' field in cfg.json"@,
            IdentityError::MissingName => "Missing 'name' field in cfg.json"@,
            IdentityError::NameNotString => "Expected 'name' to be a string in cfg.json"@,
            IdentityError::BlankName => "Hostname is empty or contains only whitespace"@,
        }
    }

    /// Renders the diagnostic.
    pub fn message(&self) -> (r: String)
        ensures
            r@ == self.message_spec(),
    {
        match self {
            IdentityError::NotJson => String::from_str("Failed to parse cfg.json"),
            IdentityError::MissingId => String::from_str("Missing 'id' field in cfg.json"),
            IdentityError::MissingName => String::from_str("Missing 'name' field in cfg.json"),
            IdentityError::NameNotString => String::from_str(
                "Expected 'name' to be a string in cfg.json",
            ),
            IdentityError::BlankName => String::from_str(
                "Hostname is empty or contains only whitespace",
            ),
        }
    }
}

/// What a two-level lookup finds in a JSON document.
pub enum FieldQuery {
    /// The bytes are not a valid JSON document.
    NotJson,
    /// The document has no member under the outer key.
    MissingOuter,
    /// The outer member has no member under the inner key.
    MissingInner,
    /// The nested member is present but not a JSON string.
    NotText,
    /// The nested member is this string.
    Text(String),
}

/// The mathematical value of a [`FieldQuery`].
pub enum FieldQueryModel {
    NotJson,
    MissingOuter,
    MissingInner,
    NotText,
    Text(Seq<char>),
}

impl FieldQuery {
    /// The model of this query result.
    pub open spec fn model(&self) -> FieldQueryModel {
        match self {
            FieldQuery::NotJson => FieldQueryModel::NotJson,
            FieldQuery::MissingOuter => FieldQueryModel::MissingOuter,
            FieldQuery::MissingInner => FieldQueryModel::MissingInner,
            FieldQuery::NotText => FieldQueryModel::NotText,
            FieldQuery::Text(s) => FieldQueryModel::Text(s@),
        }
    }
}

/// What parsing `doc` as JSON and looking up the member `inner` inside the
/// member `outer` yields; a function of the bytes and the two keys alone.
pub uninterp spec fn json_nested_lookup(
    doc: Seq<u8>,
    outer: Seq<char>,
    inner: Seq<char>,
) -> FieldQueryModel;

/// Relies on `serde_json::from_slice`, `serde_json::Value::get` and
/// `serde_json::Value::as_str`: parsing and member lookup depend on the
/// document bytes and the keys alone; `get` returns the member under a key
/// (`None` on a non-object or an absent key) and `as_str` returns the
/// string content exactly of a JSON string.
#[verifier::external_body]
fn json_nested_lookup_exec(doc: &Vec<u8>, outer: &str, inner: &str) -> (r: FieldQuery)
    ensures
        r.model() == json_nested_lookup(doc@, outer@, inner@),
{
    match serde_json::from_slice::<serde_json::Value>(doc) {
        Err(_) => FieldQuery::NotJson,
        Ok(v) => match v.get(outer) {
            None => FieldQuery::MissingOuter,
            Some(o) => match o.get(inner) {
                None => FieldQuery::MissingInner,
                Some(f) => match f.as_str() {
                    None => FieldQuery::NotText,
                    Some(s) => FieldQuery::Text(s.to_owned()),
                },
            },
        },
    }
}

/// The identity a query result resolves to: the text verbatim when it is
/// present, a string, and does not trim to nothing; otherwise the
/// distinct error for the first condition that fails.
pub open spec fn identity_of_query(q: FieldQueryModel) -> Result<Seq<char>, IdentityError> {
    match q {
        FieldQueryModel::NotJson => Err(IdentityError::NotJson),
        FieldQueryModel::MissingOuter => Err(IdentityError::MissingId),
        FieldQueryModel::MissingInner => Err(IdentityError::MissingName),
        FieldQueryModel::NotText => Err(IdentityError::NameNotString),
        FieldQueryModel::Text(s) => if all_space(s) {
            Err(IdentityError::BlankName)
        } else {
            Ok(s)
        },
    }
}

/// Resolves an identity from a lookup result, exactly as
/// [`identity_of_query`] states: the untrimmed text on success, each error
/// on exactly the inputs it names.
pub fn identity_from_query(q: FieldQuery) -> (r: Result<String, IdentityError>)
    ensures
        match identity_of_query(q.model()) {
            Ok(s) => r matches Ok(h) && h@ == s,
            Err(e) => r == Result::<String, IdentityError>::Err(e),
        },
        r matches Ok(h) ==> h@.len() > 0,
{
    match q {
        FieldQuery::NotJson => Err(IdentityError::NotJson),
        FieldQuery::MissingOuter => Err(IdentityError::MissingId),
        FieldQuery::MissingInner => Err(IdentityError::MissingName),
        FieldQuery::NotText => Err(IdentityError::NameNotString),
        FieldQuery::Text(s) => {
            if is_blank(s.as_str()) {
                Err(IdentityError::BlankName)
            } else {
                Ok(s)
            }
        },
    }
}

/// The config-derived identity: reads the configuration document and
/// resolves the `id`.`name` field per [`identity_of_query`].
pub fn get_hostname_from_cfg(cfg: &Vec<u8>) -> (r: Result<String, IdentityError>)
    ensures
        match identity_of_query(json_nested_lookup(cfg@, "id"@, "name"@)) {
            Ok(s) => r matches Ok(h) && h@ == s,
            Err(e) => r == Result::<String, IdentityError>::Err(e),
        },
        r matches Ok(h) ==> h@.len() > 0,
{
    let q = json_nested_lookup_exec(cfg, "id", "name");
    identity_from_query(q)
}

/// True when `i` is the position of the first `.` in `h`.
pub open spec fn is_first_dot(h: Seq<char>, i: int) -> bool {
    0 <= i < h.len() && h[i] == '.' && (forall|j: int| 0 <= j < i ==> h[j] != '.')
}

/// The text before the first `.` of `h`; all of `h` when it has no `.`.
pub open spec fn stem_of(h: Seq<char>) -> Seq<char> {
    if exists|i: int| is_first_dot(h, i) {
        h.subrange(0, choose|i: int| is_first_dot(h, i))
    } else {
        h
    }
}

/// The hostname-derived identity: the text before the first `.`, or the
/// default token when that text is empty.
pub open spec fn stem_or_default(h: Seq<char>) -> Seq<char> {
    if stem_of(h).len() == 0 {
        "wled"@
    } else {
        stem_of(h)
    }
}

/// Derives the filename stem from an advertised hostname: the prefix
/// before the first `.`, falling back to `"wled"` when that prefix is
/// empty.
pub fn hostname_stem(hostname: &str) -> (r: String)
    ensures
        r@ == stem_or_default(hostname@),
        r@.len() > 0,
{
    proof {
        reveal_strlit("wled");
    }
    let n = hostname.unicode_len();
    let mut i: usize = 0;
    while i < n
        invariant
            0 <= i <= n,
            n == hostname@.len(),
            forall|j: int| 0 <= j < i ==> hostname@[j] != '.',
        decreases n - i,
    {
        if hostname.get_char(i) == '.' {
            proof {
                assert(is_first_dot(hostname@, i as int));
                let k = choose|k: int| is_first_dot(hostname@, k);
                assert(k == i as int) by {
                    if k < i as int {
                        assert(hostname@[k] != '.');
                    }
                    if k > i as int {
                        assert(hostname@[i as int] != '.');
                    }
                }
            }
            if i == 0 {
                proof {
                    reveal_strlit("wled");
                }
                return String::from_str("wled");
            }
            let s = hostname.substring_char(0, i);
            return s.to_owned();
        }
        i = i + 1;
    }
    proof {
        assert(!exists|k: int| is_first_dot(hostname@, k)) by {
            if exists|k: int| is_first_dot(hostname@, k) {
                let k = choose|k: int| is_first_dot(hostname@, k);
                assert(hostname@[k] != '.');
            }
        }
    }
    if n == 0 {
        return String::from_str("wled");
    }
    hostname.to_owned()
}

} // verus!
