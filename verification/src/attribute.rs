use vstd::prelude::*;
use vstd::string::StringExecFns;

use crate::error::XmlError;
use crate::namespace::{contains_kind, spec_lookup, Namespace};
use crate::node::RawAttribute;

verus! {

/// First-match lookup of an alias for a kind in a list of table entries.
pub open spec fn spec_table_get(entries: Seq<(Namespace, String)>, k: Namespace) -> Option<
    Seq<char>,
>
    decreases entries.len(),
{
    if entries.len() == 0 {
        None
    } else if entries[0].0 == k {
        Some(entries[0].1@)
    } else {
        spec_table_get(entries.drop_first(), k)
    }
}

/// The table assigning each namespace kind the alias it is rendered with;
/// built once per document, so every reference shares one prefix.
pub struct AliasTable {
    pub entries: Vec<(Namespace, String)>,
}

impl AliasTable {
    /// Whether the table holds an alias for a kind, and which.
    pub open spec fn spec_get(self, k: Namespace) -> Option<Seq<char>> {
        spec_table_get(self.entries@, k)
    }

    /// An empty table.
    pub fn new() -> (r: Self)
        ensures
            r.entries@ == Seq::<(Namespace, String)>::empty(),
    {
        AliasTable { entries: Vec::new() }
    }

    /// Append an alias for a kind; an earlier entry for the same kind wins.
    pub fn insert(&mut self, k: Namespace, alias: &str)
        ensures
            final(self).entries@ == old(self).entries@.push(final(self).entries@.last()),
            final(self).entries@.len() == old(self).entries@.len() + 1,
            final(self).entries@.last().0 == k,
            final(self).entries@.last().1@ == alias@,
    {
        self.entries.push((k, alias.to_owned()));
    }

    /// Look the alias for a kind up.
    pub fn get(&self, k: Namespace) -> (r: Option<&String>)
        ensures
            match r {
                Some(s) => self.spec_get(k) == Some(s@),
                None => self.spec_get(k) is None,
            },
    {
        let n = self.entries.len();
        proof {
            assert(self.entries@.subrange(0, n as int) =~= self.entries@);
        }
        let mut i: usize = 0;
        while i < n
            invariant
                i <= n,
                n == self.entries@.len(),
                spec_table_get(self.entries@, k) == spec_table_get(
                    self.entries@.subrange(i as int, n as int),
                    k,
                ),
            decreases n - i,
        {
            let ghost tail = self.entries@.subrange(i as int, n as int);
            let pair = &self.entries[i];
            if pair.0 == k {
                proof {
                    assert(tail[0] == self.entries@[i as int]);
                }
                return Some(&pair.1);
            }
            proof {
                assert(tail[0] == self.entries@[i as int]);
                assert(tail.drop_first() =~= self.entries@.subrange(i as int + 1, n as int));
            }
            i += 1;
        }
        proof {
            assert(self.entries@.subrange(n as int, n as int) =~= Seq::<(
                Namespace,
                String,
            )>::empty());
        }
        None
    }
}

/// Whether a raw attribute parses to a given typed attribute: name and value
/// are carried over, and a namespace URI, if any, resolves in the registry.
pub open spec fn spec_raw_parses_to(raw: RawAttribute, a: Attribute) -> bool {
    &&& a.name@ == raw.name@
    &&& a.value@ == raw.value@
    &&& match raw.namespace_uri {
        None => a.namespace is None,
        Some(u) => spec_lookup(u@) is Some && a.namespace == spec_lookup(u@),
    }
}

/// Whether a raw attribute is malformed: it names a namespace URI outside
/// the closed set.
pub open spec fn spec_raw_malformed(raw: RawAttribute) -> bool {
    raw.namespace_uri matches Some(u) && spec_lookup(u@) is None
}

/// What rendering an attribute against a table yields: a leading space, the
/// alias-prefixed or plain name, and the quoted value; `None` when the
/// attribute's namespace has no alias in the table.
pub open spec fn spec_attr_render(a: Attribute, entries: Seq<(Namespace, String)>) -> Option<
    Seq<char>,
> {
    match a.namespace {
        None => Some(" "@ + a.name@ + "=\""@ + a.value@ + "\""@),
        Some(k) => match spec_table_get(entries, k) {
            None => None,
            Some(al) => Some(" "@ + al + ":"@ + a.name@ + "=\""@ + a.value@ + "\""@),
        },
    }
}

/// An XML attribute: a name/value pair, optionally qualified by a namespace
/// of the closed registry.
#[derive(Debug, PartialEq, Eq)]
pub struct Attribute {
    pub name: String,
    pub value: String,
    pub namespace: Option<Namespace>,
}

impl Attribute {
    /// An unqualified attribute.
    pub fn new(name: &str, value: &str) -> (r: Self)
        ensures
            r.name@ == name@,
            r.value@ == value@,
            r.namespace is None,
    {
        Attribute { name: name.to_owned(), value: value.to_owned(), namespace: None }
    }

    /// An attribute, qualified when a namespace is given.
    pub fn new_with_namespace(name: &str, value: &str, namespace: Option<Namespace>) -> (r: Self)
        ensures
            r.name@ == name@,
            r.value@ == value@,
            r.namespace == namespace,
    {
        Attribute { name: name.to_owned(), value: value.to_owned(), namespace }
    }

    /// The same attribute, qualified by the given namespace.
    pub fn set_namespace(self, namespace: Namespace) -> (r: Self)
        ensures
            r.name == self.name,
            r.value == self.value,
            r.namespace == Some(namespace),
    {
        Attribute { name: self.name, value: self.value, namespace: Some(namespace) }
    }

    /// Add this attribute's namespace, if any, to a set of kinds unless it is
    /// already present.
    pub fn get_namespaces(&self, namespaces_set: &mut Vec<Namespace>)
        ensures
            match self.namespace {
                Some(k) => if old(namespaces_set)@.contains(k) {
                    final(namespaces_set)@ == old(namespaces_set)@
                } else {
                    final(namespaces_set)@ == old(namespaces_set)@.push(k)
                },
                None => final(namespaces_set)@ == old(namespaces_set)@,
            },
    {
        if let Some(k) = self.namespace {
            if !contains_kind(namespaces_set.as_slice(), k) {
                namespaces_set.push(k);
            }
        }
    }

    /// Parse one raw attribute; a namespace URI outside the closed set makes
    /// the attribute malformed, which callers recover from by skipping it.
    pub fn from_raw(raw: &RawAttribute) -> (r: Result<Self, XmlError>)
        ensures
            match r {
                Ok(a) => spec_raw_parses_to(*raw, a),
                Err(e) => {
                    &&& spec_raw_malformed(*raw)
                    &&& e matches XmlError::MalformedAttribute(s)
                    &&& raw.namespace_uri matches Some(u) && s@ == u@
                },
            },
    {
        let namespace = match &raw.namespace_uri {
            None => None,
            Some(u) => match Namespace::lookup_by_uri(u.as_str()) {
                Ok(k) => Some(k),
                Err(_) => {
                    return Err(XmlError::MalformedAttribute(u.clone()));
                },
            },
        };
        Ok(
            Attribute {
                name: raw.name.clone(),
                value: raw.value.clone(),
                namespace,
            },
        )
    }

    /// Render this attribute as the ` name="value"` fragment of an opening
    /// tag, resolving its namespace through the shared alias table; a
    /// namespace absent from the table fails rather than emitting an
    /// unprefixed qualified attribute.
    pub fn ns_fmt(&self, alias_map: &AliasTable) -> (r: Result<String, XmlError>)
        ensures
            match r {
                Ok(s) => spec_attr_render(*self, alias_map.entries@) == Some(s@),
                Err(e) => {
                    &&& spec_attr_render(*self, alias_map.entries@) is None
                    &&& self.namespace matches Some(k)
                        && alias_map.spec_get(k) is None
                        && e == XmlError::MissingAliasForNamespace(k)
                },
            },
    {
        let mut s = String::new();
        s.append(" ");
        match &self.namespace {
            Some(k) => match alias_map.get(*k) {
                Some(al) => {
                    s.append(al.as_str());
                    s.append(":");
                },
                None => {
                    return Err(XmlError::MissingAliasForNamespace(*k));
                },
            },
            None => {},
        }
        s.append(self.name.as_str());
        s.append("=\"");
        s.append(self.value.as_str());
        s.append("\"");
        proof {
            match self.namespace {
                None => {
                    assert(s@ =~= " "@ + self.name@ + "=\""@ + self.value@ + "\""@);
                },
                Some(k) => {
                    let al = spec_table_get(alias_map.entries@, k)->Some_0;
                    assert(s@ =~= " "@ + al + ":"@ + self.name@ + "=\""@ + self.value@ + "\""@);
                },
            }
        }
        Ok(s)
    }
}

} // verus!
