use vstd::prelude::*;

use crate::deserialize::{NodeDeserializer, XmlDeserialize, XmlVisitor};
use crate::error::XmlError;
use crate::node::{spec_decl_uris, spec_name_uri, XmlNode};
use crate::text::str_eq;

verus! {

pub const PWSH_NAMESPACE: &'static str = "http://schemas.microsoft.com/wbem/wsman/1/windows/shell";

pub const PWSH_NAMESPACE_ALIAS: &'static str = "rsp";

pub const POWERSHELL_NAMESPACE: &'static str =
    "http://schemas.microsoft.com/powershell/Microsoft.PowerShell";

pub const POWERSHELL_NAMESPACE_ALIAS: &'static str = "psh";

pub const WSA_NAMESPACE: &'static str = "http://schemas.xmlsoap.org/ws/2004/08/addressing";

pub const WSA_NAMESPACE_ALIAS: &'static str = "a";

pub const SOAP_NAMESPACE: &'static str = "http://www.w3.org/2003/05/soap-envelope";

pub const SOAP_NAMESPACE_ALIAS: &'static str = "s";

pub const MS_WSMAN_NAMESPACE: &'static str =
    "http://schemas.microsoft.com/wbem/wsman/1/wsman.xsd";

pub const MS_WSMAN_NAMESPACE_ALIAS: &'static str = "w";

pub const WS_MANAGEMENT_NAMESPACE: &'static str =
    "http://schemas.dmtf.org/wbem/wsman/1/wsman.xsd";

pub const WS_MANAGEMENT_NAMESPACE_ALIAS: &'static str = "wsman";

pub const WS_TRANSFER_NAMESPACE: &'static str = "http://schemas.xmlsoap.org/ws/2004/09/transfer";

pub const WS_TRANSFER_NAMESPACE_ALIAS: &'static str = "x";

/// The closed set of protocol namespaces. Each variant maps to exactly one
/// canonical URI and one default alias; the URI-to-variant mapping is total
/// and injective over this set.
#[derive(Debug, Clone, Copy, PartialEq, Eq, Structural)]
pub enum Namespace {
    PowerShell,
    RspShell,
    WsAddressing,
    MsWsManagement,
    WsManagement,
    Soap,
    WsTrasfer,
}

/// The canonical URI of a namespace kind.
pub open spec fn spec_url(k: Namespace) -> Seq<char> {
    match k {
        Namespace::PowerShell => POWERSHELL_NAMESPACE@,
        Namespace::RspShell => PWSH_NAMESPACE@,
        Namespace::WsAddressing => WSA_NAMESPACE@,
        Namespace::MsWsManagement => MS_WSMAN_NAMESPACE@,
        Namespace::WsManagement => WS_MANAGEMENT_NAMESPACE@,
        Namespace::Soap => SOAP_NAMESPACE@,
        Namespace::WsTrasfer => WS_TRANSFER_NAMESPACE@,
    }
}

/// The default alias of a namespace kind.
pub open spec fn spec_alias(k: Namespace) -> Seq<char> {
    match k {
        Namespace::PowerShell => POWERSHELL_NAMESPACE_ALIAS@,
        Namespace::RspShell => PWSH_NAMESPACE_ALIAS@,
        Namespace::WsAddressing => WSA_NAMESPACE_ALIAS@,
        Namespace::MsWsManagement => MS_WSMAN_NAMESPACE_ALIAS@,
        Namespace::WsManagement => WS_MANAGEMENT_NAMESPACE_ALIAS@,
        Namespace::Soap => SOAP_NAMESPACE_ALIAS@,
        Namespace::WsTrasfer => WS_TRANSFER_NAMESPACE_ALIAS@,
    }
}

/// Which namespace kind, if any, a URI denotes. Total over all URIs; `None`
/// exactly for URIs outside the closed set.
pub open spec fn spec_lookup(uri: Seq<char>) -> Option<Namespace> {
    if uri == POWERSHELL_NAMESPACE@ {
        Some(Namespace::PowerShell)
    } else if uri == PWSH_NAMESPACE@ {
        Some(Namespace::RspShell)
    } else if uri == WSA_NAMESPACE@ {
        Some(Namespace::WsAddressing)
    } else if uri == MS_WSMAN_NAMESPACE@ {
        Some(Namespace::MsWsManagement)
    } else if uri == WS_MANAGEMENT_NAMESPACE@ {
        Some(Namespace::WsManagement)
    } else if uri == SOAP_NAMESPACE@ {
        Some(Namespace::Soap)
    } else if uri == WS_TRANSFER_NAMESPACE@ {
        Some(Namespace::WsTrasfer)
    } else {
        None
    }
}

impl Namespace {
    /// The canonical URI and default alias of this kind.
    pub fn as_tuple(&self) -> (r: (&'static str, &'static str))
        ensures
            r.0@ == spec_url(*self),
            r.1@ == spec_alias(*self),
    {
        match self {
            Namespace::PowerShell => (POWERSHELL_NAMESPACE, POWERSHELL_NAMESPACE_ALIAS),
            Namespace::RspShell => (PWSH_NAMESPACE, PWSH_NAMESPACE_ALIAS),
            Namespace::WsAddressing => (WSA_NAMESPACE, WSA_NAMESPACE_ALIAS),
            Namespace::MsWsManagement => (MS_WSMAN_NAMESPACE, MS_WSMAN_NAMESPACE_ALIAS),
            Namespace::WsManagement => (WS_MANAGEMENT_NAMESPACE, WS_MANAGEMENT_NAMESPACE_ALIAS),
            Namespace::Soap => (SOAP_NAMESPACE, SOAP_NAMESPACE_ALIAS),
            Namespace::WsTrasfer => (WS_TRANSFER_NAMESPACE, WS_TRANSFER_NAMESPACE_ALIAS),
        }
    }

    /// The canonical URI of this kind.
    pub fn url(&self) -> (r: &'static str)
        ensures
            r@ == spec_url(*self),
    {
        self.as_tuple().0
    }

    /// The default alias of this kind.
    pub fn alias(&self) -> (r: &'static str)
        ensures
            r@ == spec_alias(*self),
    {
        self.as_tuple().1
    }

    /// Map a URI to its namespace kind; a URI outside the closed set is
    /// rejected as `UnknownNamespace`, never silently coerced.
    pub fn lookup_by_uri(uri: &str) -> (r: Result<Namespace, XmlError>)
        ensures
            match r {
                Ok(k) => spec_lookup(uri@) == Some(k),
                Err(e) => {
                    &&& spec_lookup(uri@) is None
                    &&& e matches XmlError::UnknownNamespace(u) && u@ == uri@
                },
            },
    {
        if str_eq(uri, POWERSHELL_NAMESPACE) {
            Ok(Namespace::PowerShell)
        } else if str_eq(uri, PWSH_NAMESPACE) {
            Ok(Namespace::RspShell)
        } else if str_eq(uri, WSA_NAMESPACE) {
            Ok(Namespace::WsAddressing)
        } else if str_eq(uri, MS_WSMAN_NAMESPACE) {
            Ok(Namespace::MsWsManagement)
        } else if str_eq(uri, WS_MANAGEMENT_NAMESPACE) {
            Ok(Namespace::WsManagement)
        } else if str_eq(uri, SOAP_NAMESPACE) {
            Ok(Namespace::Soap)
        } else if str_eq(uri, WS_TRANSFER_NAMESPACE) {
            Ok(Namespace::WsTrasfer)
        } else {
            Err(XmlError::UnknownNamespace(uri.to_owned()))
        }
    }
}

/// Registry round-trip: looking the canonical URI of any kind back up yields
/// that same kind, so the URI-to-kind mapping is injective over the closed set.
pub proof fn lemma_lookup_canonical(k: Namespace)
    ensures
        spec_lookup(spec_url(k)) == Some(k),
{
    reveal_strlit("http://schemas.microsoft.com/wbem/wsman/1/windows/shell");
    reveal_strlit("http://schemas.microsoft.com/powershell/Microsoft.PowerShell");
    reveal_strlit("http://schemas.xmlsoap.org/ws/2004/08/addressing");
    reveal_strlit("http://www.w3.org/2003/05/soap-envelope");
    reveal_strlit("http://schemas.microsoft.com/wbem/wsman/1/wsman.xsd");
    reveal_strlit("http://schemas.dmtf.org/wbem/wsman/1/wsman.xsd");
    reveal_strlit("http://schemas.xmlsoap.org/ws/2004/09/transfer");
    assert(POWERSHELL_NAMESPACE@.len() == 60);
    assert(PWSH_NAMESPACE@.len() == 55);
    assert(WSA_NAMESPACE@.len() == 48);
    assert(SOAP_NAMESPACE@.len() == 39);
    assert(MS_WSMAN_NAMESPACE@.len() == 51);
    assert(WS_MANAGEMENT_NAMESPACE@.len() == 46);
    assert(WS_TRANSFER_NAMESPACE@.len() == 46);
    assert(WS_TRANSFER_NAMESPACE@[15] != WS_MANAGEMENT_NAMESPACE@[15]);
    assert(WS_TRANSFER_NAMESPACE@ != WS_MANAGEMENT_NAMESPACE@);
}

/// No two kinds share a default alias: the registry's aliases are injective,
/// so a document-wide alias table can never map two namespaces to one prefix.
pub proof fn lemma_alias_injective(k1: Namespace, k2: Namespace)
    ensures
        spec_alias(k1) == spec_alias(k2) ==> k1 == k2,
{
    reveal_strlit("rsp");
    reveal_strlit("psh");
    reveal_strlit("a");
    reveal_strlit("s");
    reveal_strlit("w");
    reveal_strlit("wsman");
    reveal_strlit("x");
    assert(PWSH_NAMESPACE_ALIAS@.len() == 3);
    assert(POWERSHELL_NAMESPACE_ALIAS@.len() == 3);
    assert(WSA_NAMESPACE_ALIAS@.len() == 1);
    assert(SOAP_NAMESPACE_ALIAS@.len() == 1);
    assert(MS_WSMAN_NAMESPACE_ALIAS@.len() == 1);
    assert(WS_MANAGEMENT_NAMESPACE_ALIAS@.len() == 5);
    assert(WS_TRANSFER_NAMESPACE_ALIAS@.len() == 1);
    assert(PWSH_NAMESPACE_ALIAS@[0] != POWERSHELL_NAMESPACE_ALIAS@[0]);
    assert(WSA_NAMESPACE_ALIAS@[0] == 'a' && SOAP_NAMESPACE_ALIAS@[0] == 's'
        && MS_WSMAN_NAMESPACE_ALIAS@[0] == 'w' && WS_TRANSFER_NAMESPACE_ALIAS@[0] == 'x');
}

/// Whether every namespace URI in a declaration list is in the closed set.
pub open spec fn all_decls_known(uris: Seq<String>) -> bool {
    forall|i: int| 0 <= i < uris.len() ==> (#[trigger] spec_lookup(uris[i]@)) is Some
}

/// The namespace kinds a list of known URIs denotes, in order.
pub open spec fn spec_decl_kinds(uris: Seq<String>) -> Seq<Namespace> {
    uris.map_values(|u: String| spec_lookup(u@)->Some_0)
}

/// Whether `s` is the first URI in the list that lies outside the closed set.
pub open spec fn first_unknown_decl(uris: Seq<String>, s: Seq<char>) -> bool {
    exists|i: int|
        0 <= i < uris.len() && (#[trigger] spec_lookup(uris[i]@)) is None && uris[i]@ == s
            && (forall|j: int| 0 <= j < i ==> (#[trigger] spec_lookup(uris[j]@)) is Some)
}

/// Builds a `Namespace` from the namespace URI an element's own name
/// resolved to.
pub struct NamespaceVisitor {
    pub namespace: Option<Namespace>,
}

impl XmlVisitor for NamespaceVisitor {
    type Value = Namespace;

    open spec fn node_ok(pre: Self, node: XmlNode, post: Self) -> bool {
        &&& spec_name_uri(node) matches Some(u)
        &&& spec_lookup(u@) matches Some(k) && post.namespace == Some(k)
    }

    open spec fn node_err(pre: Self, node: XmlNode, post: Self, e: XmlError) -> bool {
        &&& post == pre
        &&& {
            ||| spec_name_uri(node) is None && e == XmlError::MissingNamespace
            ||| {
                &&& spec_name_uri(node) matches Some(u)
                &&& spec_lookup(u@) is None
                &&& e matches XmlError::UnknownNamespace(s) && s@ == u@
            }
        }
    }

    open spec fn children_ok(pre: Self, children: Seq<XmlNode>, post: Self) -> bool {
        post == pre
    }

    open spec fn children_err(pre: Self, children: Seq<XmlNode>, post: Self, e: XmlError) -> bool {
        false
    }

    open spec fn finish_ok(pre: Self, value: Namespace) -> bool {
        pre.namespace == Some(value)
    }

    open spec fn finish_err(pre: Self, e: XmlError) -> bool {
        pre.namespace is None && e == XmlError::MissingNamespace
    }

    fn visit_node(&mut self, node: &XmlNode) -> (r: Result<(), XmlError>) {
        match node {
            XmlNode::Element(en) => match &en.namespace_uri {
                Some(u) => match Namespace::lookup_by_uri(u.as_str()) {
                    Ok(k) => {
                        self.namespace = Some(k);
                        Ok(())
                    },
                    Err(e) => Err(e),
                },
                None => Err(XmlError::MissingNamespace),
            },
            _ => Err(XmlError::MissingNamespace),
        }
    }

    fn visit_children(&mut self, children: &[XmlNode]) -> (r: Result<(), XmlError>) {
        Ok(())
    }

    fn finish(self) -> (r: Result<Namespace, XmlError>) {
        match self.namespace {
            Some(k) => Ok(k),
            None => Err(XmlError::MissingNamespace),
        }
    }
}

impl XmlDeserialize for Namespace {
    type Visitor = NamespaceVisitor;

    open spec fn initial(v: NamespaceVisitor) -> bool {
        v.namespace is None
    }

    open spec fn node_result_ok(node: XmlNode, v: Self) -> bool {
        &&& spec_name_uri(node) matches Some(u)
        &&& spec_lookup(u@) == Some(v)
    }

    open spec fn node_result_err(node: XmlNode, e: XmlError) -> bool {
        ||| spec_name_uri(node) is None && e == XmlError::MissingNamespace
        ||| {
            &&& spec_name_uri(node) matches Some(u)
            &&& spec_lookup(u@) is None
            &&& e matches XmlError::UnknownNamespace(s) && s@ == u@
        }
    }

    open spec fn children_result_ok(children: Seq<XmlNode>, v: Self) -> bool {
        false
    }

    open spec fn children_result_err(children: Seq<XmlNode>, e: XmlError) -> bool {
        e == XmlError::MissingNamespace
    }

    fn visitor() -> (r: NamespaceVisitor) {
        NamespaceVisitor { namespace: None }
    }

    fn from_node(node: &XmlNode) -> (r: Result<Self, XmlError>) {
        let v0 = Self::visitor();
        let ghost g0 = v0;
        let r = NodeDeserializer::new(node).deserialize(v0);
        proof {
            match &r {
                Ok(k) => {
                    let mid = choose|mid: NamespaceVisitor|
                        #[trigger] NamespaceVisitor::node_ok(g0, *node, mid)
                            && NamespaceVisitor::finish_ok(mid, *k);
                },
                Err(e) => {
                    if exists|vpost: NamespaceVisitor|
                        #[trigger] NamespaceVisitor::node_err(g0, *node, vpost, *e) {
                        let vpost = choose|vpost: NamespaceVisitor|
                            #[trigger] NamespaceVisitor::node_err(g0, *node, vpost, *e);
                    } else {
                        let mid = choose|mid: NamespaceVisitor|
                            #[trigger] NamespaceVisitor::node_ok(g0, *node, mid)
                                && NamespaceVisitor::finish_err(mid, *e);
                        assert(false);
                    }
                },
            }
        }
        r
    }

    fn from_children(children: &[XmlNode]) -> (r: Result<Self, XmlError>) {
        let mut v0 = Self::visitor();
        match v0.visit_children(children) {
            Ok(_) => v0.finish(),
            Err(e) => Err(e),
        }
    }
}

/// The ordered namespace declarations of one element: one entry per
/// `xmlns` binding, in document order, duplicates kept.
#[derive(Debug, PartialEq, Eq)]
pub struct NamespaceDeclaration(pub Vec<Namespace>);

impl View for NamespaceDeclaration {
    type V = Seq<Namespace>;

    open spec fn view(&self) -> Seq<Namespace> {
        self.0@
    }
}

impl NamespaceDeclaration {
    /// An empty declaration list.
    pub fn new() -> (r: Self)
        ensures
            r@ == Seq::<Namespace>::empty(),
    {
        NamespaceDeclaration(Vec::new())
    }

    /// The declared kinds, in document order.
    pub fn namespaces(&self) -> (r: &[Namespace])
        ensures
            r@ == self@,
    {
        self.0.as_slice()
    }

    /// Append one declaration; no deduplication is performed.
    pub fn push(&mut self, namespace: Namespace)
        ensures
            final(self)@ == old(self)@.push(namespace),
    {
        self.0.push(namespace);
    }

    /// Read the declarations of one parsed element; fails on the first URI
    /// outside the closed set, so declaration parsing is all-or-nothing.
    pub fn from_node(node: &XmlNode) -> (r: Result<Self, XmlError>)
        ensures
            match r {
                Ok(d) => Self::node_result_ok(*node, d),
                Err(e) => Self::node_result_err(*node, e),
            },
    {
        <Self as XmlDeserialize>::from_node(node)
    }
}

impl Default for NamespaceDeclaration {
    fn default() -> (r: Self)
        ensures
            r@ == Seq::<Namespace>::empty(),
    {
        NamespaceDeclaration::new()
    }
}

/// Declaration order is preserved exactly, duplicates included: declaring
/// kind `a` twice and then kind `b` yields the sequence [a, a, b].
pub proof fn lemma_declaration_order(d: NamespaceDeclaration, a: Namespace, b: Namespace)
    requires
        d@ == Seq::<Namespace>::empty(),
    ensures
        d@.push(a).push(a).push(b) =~= seq![a, a, b],
{
}

/// Whether a list of kinds contains the given kind.
pub fn contains_kind(set: &[Namespace], k: Namespace) -> (r: bool)
    ensures
        r == set@.contains(k),
{
    let n = set.len();
    let mut i: usize = 0;
    while i < n
        invariant
            i <= n,
            n == set@.len(),
            forall|j: int| 0 <= j < i ==> set@[j] != k,
        decreases n - i,
    {
        if set[i] == k {
            return true;
        }
        i += 1;
    }
    false
}

/// Accumulates the namespace kinds an element declares, in document order.
pub struct NamespaceDeclarationVisitor {
    pub namespaces: Vec<Namespace>,
}

impl XmlVisitor for NamespaceDeclarationVisitor {
    type Value = NamespaceDeclaration;

    open spec fn node_ok(pre: Self, node: XmlNode, post: Self) -> bool {
        &&& all_decls_known(spec_decl_uris(node))
        &&& post.namespaces@ == pre.namespaces@ + spec_decl_kinds(spec_decl_uris(node))
    }

    open spec fn node_err(pre: Self, node: XmlNode, post: Self, e: XmlError) -> bool {
        exists|i: int|
            {
                &&& 0 <= i < spec_decl_uris(node).len()
                &&& (#[trigger] spec_lookup(spec_decl_uris(node)[i]@)) is None
                &&& e matches XmlError::UnknownNamespace(s) && s@ == spec_decl_uris(node)[i]@
                &&& (forall|j: int|
                    0 <= j < i ==> (#[trigger] spec_lookup(spec_decl_uris(node)[j]@)) is Some)
                &&& post.namespaces@ == pre.namespaces@ + spec_decl_kinds(
                    spec_decl_uris(node).subrange(0, i),
                )
            }
    }

    open spec fn children_ok(pre: Self, children: Seq<XmlNode>, post: Self) -> bool {
        post == pre
    }

    open spec fn children_err(pre: Self, children: Seq<XmlNode>, post: Self, e: XmlError) -> bool {
        false
    }

    open spec fn finish_ok(pre: Self, value: NamespaceDeclaration) -> bool {
        value@ == pre.namespaces@
    }

    open spec fn finish_err(pre: Self, e: XmlError) -> bool {
        false
    }

    fn visit_node(&mut self, node: &XmlNode) -> (r: Result<(), XmlError>) {
        match node {
            XmlNode::Element(en) => {
                let ghost uris = en.namespace_decls@;
                let ghost pre_ns = self.namespaces@;
                let n = en.namespace_decls.len();
                let mut i: usize = 0;
                while i < n
                    invariant
                        i <= n,
                        n == uris.len(),
                        uris == en.namespace_decls@,
                        spec_decl_uris(*node) == uris,
                        pre_ns == old(self).namespaces@,
                        all_decls_known(uris.subrange(0, i as int)),
                        self.namespaces@ == pre_ns + spec_decl_kinds(uris.subrange(0, i as int)),
                    decreases n - i,
                {
                    let u = &en.namespace_decls[i];
                    match Namespace::lookup_by_uri(u.as_str()) {
                        Ok(k) => {
                            self.namespaces.push(k);
                            proof {
                                let pfx = uris.subrange(0, i as int);
                                let pfx1 = uris.subrange(0, i as int + 1);
                                assert(pfx1 =~= pfx.push(uris[i as int]));
                                assert(spec_decl_kinds(pfx1) =~= spec_decl_kinds(pfx).push(k));
                            }
                        },
                        Err(e) => {
                            proof {
                                assert(spec_decl_uris(*node) == uris);
                                assert(spec_lookup(spec_decl_uris(*node)[i as int]@) is None);
                                assert forall|j: int| 0 <= j < i implies (#[trigger] spec_lookup(
                                    spec_decl_uris(*node)[j]@,
                                )) is Some by {
                                    assert(uris.subrange(0, i as int)[j] == uris[j]);
                                }
                                assert(self.namespaces@ == pre_ns + spec_decl_kinds(
                                    spec_decl_uris(*node).subrange(0, i as int),
                                ));
                                assert(first_unknown_decl(uris, uris[i as int]@));
                            }
                            return Err(e);
                        },
                    }
                    i += 1;
                }
                proof {
                    assert(uris.subrange(0, n as int) =~= uris);
                }
                Ok(())
            },
            _ => {
                proof {
                    assert(spec_decl_uris(*node) =~= Seq::<String>::empty());
                    assert(spec_decl_kinds(spec_decl_uris(*node)) =~= Seq::<Namespace>::empty());
                    assert(self.namespaces@ =~= self.namespaces@ + spec_decl_kinds(
                        spec_decl_uris(*node),
                    ));
                }
                Ok(())
            },
        }
    }

    fn visit_children(&mut self, children: &[XmlNode]) -> (r: Result<(), XmlError>) {
        Ok(())
    }

    fn finish(self) -> (r: Result<NamespaceDeclaration, XmlError>) {
        Ok(NamespaceDeclaration(self.namespaces))
    }
}

impl XmlDeserialize for NamespaceDeclaration {
    type Visitor = NamespaceDeclarationVisitor;

    open spec fn initial(v: NamespaceDeclarationVisitor) -> bool {
        v.namespaces@ == Seq::<Namespace>::empty()
    }

    open spec fn node_result_ok(node: XmlNode, v: Self) -> bool {
        &&& all_decls_known(spec_decl_uris(node))
        &&& v@ == spec_decl_kinds(spec_decl_uris(node))
    }

    open spec fn node_result_err(node: XmlNode, e: XmlError) -> bool {
        e matches XmlError::UnknownNamespace(s) && first_unknown_decl(spec_decl_uris(node), s@)
    }

    open spec fn children_result_ok(children: Seq<XmlNode>, v: Self) -> bool {
        v@ == Seq::<Namespace>::empty()
    }

    open spec fn children_result_err(children: Seq<XmlNode>, e: XmlError) -> bool {
        false
    }

    fn visitor() -> (r: NamespaceDeclarationVisitor) {
        NamespaceDeclarationVisitor { namespaces: Vec::new() }
    }

    fn from_node(node: &XmlNode) -> (r: Result<Self, XmlError>) {
        let v0 = Self::visitor();
        let ghost g0 = v0;
        let r = NodeDeserializer::new(node).deserialize(v0);
        proof {
            match &r {
                Ok(d) => {
                    let mid = choose|mid: NamespaceDeclarationVisitor|
                        #[trigger] NamespaceDeclarationVisitor::node_ok(g0, *node, mid)
                            && NamespaceDeclarationVisitor::finish_ok(mid, *d);
                    assert(d@ =~= spec_decl_kinds(spec_decl_uris(*node)));
                },
                Err(e) => {
                    if exists|vpost: NamespaceDeclarationVisitor|
                        #[trigger] NamespaceDeclarationVisitor::node_err(g0, *node, vpost, *e) {
                        let vpost = choose|vpost: NamespaceDeclarationVisitor|
                            #[trigger] NamespaceDeclarationVisitor::node_err(g0, *node, vpost, *e);
                        let uris = spec_decl_uris(*node);
                        let i = choose|i: int|
                            {
                                &&& 0 <= i < uris.len()
                                &&& (#[trigger] spec_lookup(uris[i]@)) is None
                                &&& *e matches XmlError::UnknownNamespace(s) && s@ == uris[i]@
                                &&& (forall|j: int|
                                    0 <= j < i ==> (#[trigger] spec_lookup(uris[j]@)) is Some)
                                &&& vpost.namespaces@ == g0.namespaces@ + spec_decl_kinds(
                                    uris.subrange(0, i),
                                )
                            };
                        assert(first_unknown_decl(uris, uris[i]@));
                    } else {
                        let mid = choose|mid: NamespaceDeclarationVisitor|
                            #[trigger] NamespaceDeclarationVisitor::node_ok(g0, *node, mid)
                                && NamespaceDeclarationVisitor::finish_err(mid, *e);
                        assert(false);
                    }
                },
            }
        }
        r
    }

    fn from_children(children: &[XmlNode]) -> (r: Result<Self, XmlError>) {
        let mut v0 = Self::visitor();
        match v0.visit_children(children) {
            Ok(_) => v0.finish(),
            Err(e) => Err(e),
        }
    }
}

} // verus!
