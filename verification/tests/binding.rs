use wsxml::attribute::{AliasTable, Attribute};
use wsxml::deserialize::XmlDeserialize;
use wsxml::element::{format_document, Element};
use wsxml::error::XmlError;
use wsxml::namespace::{Namespace, NamespaceDeclaration};
use wsxml::node::{ElementNode, RawAttribute, XmlNode};
use wsxml::parser::parse;
use wsxml::tag::{ActionTagName, EnvelopeTagName, Tag, Text, ToTagName};

const ALL_KINDS: [Namespace; 7] = [
    Namespace::PowerShell,
    Namespace::RspShell,
    Namespace::WsAddressing,
    Namespace::MsWsManagement,
    Namespace::WsManagement,
    Namespace::Soap,
    Namespace::WsTrasfer,
];

#[test]
fn registry_round_trip_all_kinds() {
    for k in ALL_KINDS {
        let (url, _alias) = k.as_tuple();
        assert_eq!(Namespace::lookup_by_uri(url), Ok(k));
        assert_eq!(k.url(), url);
    }
}

#[test]
fn registry_urls_and_aliases_are_distinct() {
    for (i, a) in ALL_KINDS.iter().enumerate() {
        for (j, b) in ALL_KINDS.iter().enumerate() {
            if i != j {
                assert_ne!(a.url(), b.url());
                assert_ne!(a.alias(), b.alias());
            }
        }
    }
}

#[test]
fn registry_canonical_pairs() {
    assert_eq!(
        Namespace::WsAddressing.as_tuple(),
        ("http://schemas.xmlsoap.org/ws/2004/08/addressing", "a")
    );
    assert_eq!(
        Namespace::Soap.as_tuple(),
        ("http://www.w3.org/2003/05/soap-envelope", "s")
    );
    assert_eq!(
        Namespace::RspShell.as_tuple(),
        ("http://schemas.microsoft.com/wbem/wsman/1/windows/shell", "rsp")
    );
    assert_eq!(Namespace::WsManagement.alias(), "wsman");
    assert_eq!(Namespace::MsWsManagement.alias(), "w");
    assert_eq!(Namespace::WsTrasfer.alias(), "x");
}

#[test]
fn unknown_uri_is_rejected() {
    let r = Namespace::lookup_by_uri("urn:unknown");
    assert_eq!(r, Err(XmlError::UnknownNamespace("urn:unknown".to_string())));
    let r2 = Namespace::lookup_by_uri("");
    assert_eq!(r2, Err(XmlError::UnknownNamespace(String::new())));
}

#[test]
fn declaration_order_is_preserved_with_duplicates() {
    let mut d = NamespaceDeclaration::new();
    d.push(Namespace::WsAddressing);
    d.push(Namespace::WsAddressing);
    d.push(Namespace::Soap);
    assert_eq!(
        d.namespaces(),
        &[Namespace::WsAddressing, Namespace::WsAddressing, Namespace::Soap]
    );
}

#[test]
fn attribute_plain_formats_back_to_identical_text() {
    let raw = RawAttribute {
        name: "Name".to_string(),
        value: "OptimizeEnumeration".to_string(),
        namespace_uri: None,
    };
    let a = Attribute::from_raw(&raw).expect("attribute should parse");
    assert_eq!(a.name, "Name");
    assert_eq!(a.value, "OptimizeEnumeration");
    assert_eq!(a.namespace, None);
    let table = AliasTable::new();
    let text = a.ns_fmt(&table).expect("no namespace, no alias needed");
    assert_eq!(text, " Name=\"OptimizeEnumeration\"");
}

#[test]
fn attribute_missing_alias_fails() {
    let a = Attribute::new("Action", "value").set_namespace(Namespace::WsAddressing);
    let table = AliasTable::new();
    assert_eq!(
        a.ns_fmt(&table),
        Err(XmlError::MissingAliasForNamespace(Namespace::WsAddressing))
    );
}

#[test]
fn attribute_with_alias_formats_prefixed() {
    let a = Attribute::new("mustUnderstand", "true").set_namespace(Namespace::Soap);
    let mut table = AliasTable::new();
    table.insert(Namespace::Soap, "s");
    assert_eq!(a.ns_fmt(&table).unwrap(), " s:mustUnderstand=\"true\"");
}

#[test]
fn malformed_attribute_reports_its_uri() {
    let raw = RawAttribute {
        name: "Name".to_string(),
        value: "v".to_string(),
        namespace_uri: Some("urn:unknown".to_string()),
    };
    assert_eq!(
        Attribute::from_raw(&raw),
        Err(XmlError::MalformedAttribute("urn:unknown".to_string()))
    );
}

#[test]
fn empty_element_formats_self_closing() {
    let e = Element::new("Empty");
    let text = format_document(&e).unwrap();
    assert_eq!(text, "<Empty/>");
}

#[test]
fn element_declarations_render_in_order() {
    let e = Element::new("Header")
        .set_namespace(Namespace::Soap)
        .add_namespace_declaration("http://www.w3.org/2003/05/soap-envelope", "s")
        .add_namespace_declaration("http://schemas.xmlsoap.org/ws/2004/08/addressing", "a");
    let text = format_document(&e).unwrap();
    assert_eq!(
        text,
        "<s:Header xmlns:s=\"http://www.w3.org/2003/05/soap-envelope\" \
         xmlns:a=\"http://schemas.xmlsoap.org/ws/2004/08/addressing\"/>"
    );
}

#[test]
fn serialized_tag_renders_with_declarations_and_attributes() {
    let tag = Tag::new(Text::new("http://schemas.xmlsoap.org/ws/2004/09/transfer/Get"))
        .with_name(ActionTagName)
        .with_declaration(Namespace::WsAddressing)
        .with_attribute(Attribute::new("Id", "1"));
    assert_eq!(tag.name(), "Action");
    let e = tag.into_element();
    let text = format_document(&e).unwrap();
    assert_eq!(
        text,
        "<a:Action xmlns:a=\"http://schemas.xmlsoap.org/ws/2004/08/addressing\" Id=\"1\">\
         http://schemas.xmlsoap.org/ws/2004/09/transfer/Get</a:Action>"
    );
}

#[test]
fn one_alias_per_namespace_across_a_document() {
    let first = Tag::new(Text::new("one")).with_name(ActionTagName).into_element();
    let second = Tag::new(Text::new("two")).with_name(ActionTagName).into_element();
    let root = Element::new("Envelope")
        .set_namespace(Namespace::Soap)
        .add_child(first)
        .add_child(second);
    let text = format_document(&root).unwrap();
    assert_eq!(
        text,
        "<s:Envelope><a:Action>one</a:Action><a:Action>two</a:Action></s:Envelope>"
    );
    assert_eq!(text.matches("<a:Action>").count(), 2);
    assert_eq!(text.matches("</a:Action>").count(), 2);
}

#[test]
fn action_scenario_parses_to_typed_tag() {
    let xml = "<wsa:Action xmlns:wsa=\"http://schemas.xmlsoap.org/ws/2004/08/addressing\">\
               http://schemas.xmlsoap.org/ws/2004/09/transfer/Get</wsa:Action>";
    let node = parse(xml).expect("well-formed XML");
    let tag = Tag::<Text, ActionTagName>::from_node(&node).expect("Action tag should bind");
    assert_eq!(
        tag.value.content,
        "http://schemas.xmlsoap.org/ws/2004/09/transfer/Get"
    );
    assert!(tag
        .namespaces_declaration
        .namespaces()
        .contains(&Namespace::WsAddressing));
}

#[test]
fn wrong_expected_name_fails_with_tag_not_found() {
    let xml = "<wsa:Action xmlns:wsa=\"http://schemas.xmlsoap.org/ws/2004/08/addressing\">\
               http://schemas.xmlsoap.org/ws/2004/09/transfer/Get</wsa:Action>";
    let node = parse(xml).expect("well-formed XML");
    let r = Tag::<Text, ToTagName>::from_node(&node);
    assert_eq!(r, Err(XmlError::TagNotFound("To".to_string())));
}

#[test]
fn unknown_declaration_fails_whole_node() {
    let node = XmlNode::Element(ElementNode {
        local_name: "Action".to_string(),
        namespace_uri: Some("http://schemas.xmlsoap.org/ws/2004/08/addressing".to_string()),
        attributes: vec![],
        namespace_decls: vec!["urn:unknown".to_string()],
        children: vec![XmlNode::Text("content that would parse".to_string())],
    });
    assert_eq!(
        NamespaceDeclaration::from_node(&node),
        Err(XmlError::UnknownNamespace("urn:unknown".to_string()))
    );
    let r = Tag::<Text, ActionTagName>::from_node(&node);
    assert_eq!(r, Err(XmlError::UnknownNamespace("urn:unknown".to_string())));
}

#[test]
fn malformed_attribute_is_skipped_not_fatal() {
    let node = XmlNode::Element(ElementNode {
        local_name: "Action".to_string(),
        namespace_uri: None,
        attributes: vec![
            RawAttribute {
                name: "Bad".to_string(),
                value: "v".to_string(),
                namespace_uri: Some("urn:unknown".to_string()),
            },
            RawAttribute {
                name: "Good".to_string(),
                value: "w".to_string(),
                namespace_uri: None,
            },
        ],
        namespace_decls: vec![],
        children: vec![XmlNode::Text("t".to_string())],
    });
    let tag = Tag::<Text, ActionTagName>::from_node(&node).expect("attributes are not gating");
    assert_eq!(tag.attributes.len(), 1);
    assert_eq!(tag.attributes[0].name, "Good");
    assert_eq!(tag.attributes[0].value, "w");
}

#[test]
fn comments_are_excluded_from_content() {
    let node = XmlNode::Element(ElementNode {
        local_name: "Action".to_string(),
        namespace_uri: None,
        attributes: vec![],
        namespace_decls: vec![],
        children: vec![
            XmlNode::Text("first".to_string()),
            XmlNode::Other,
            XmlNode::Text(" second".to_string()),
        ],
    });
    let tag = Tag::<Text, ActionTagName>::from_node(&node).unwrap();
    assert_eq!(tag.value.content, "first second");
}

#[test]
fn tag_refuses_a_flat_children_visit() {
    let children = vec![XmlNode::Text("t".to_string())];
    let r = Tag::<Text, ActionTagName>::from_children(&children);
    assert_eq!(r, Err(XmlError::StructuralMismatch));
}

#[test]
fn round_trip_serialize_then_parse() {
    let tag = Tag::new(Text::new("http://schemas.xmlsoap.org/ws/2004/09/transfer/Get"))
        .with_name(ActionTagName)
        .with_declaration(Namespace::WsAddressing)
        .with_declaration(Namespace::Soap)
        .with_attribute(Attribute::new("Id", "1"));
    let text = format_document(&tag.into_element()).unwrap();
    let node = parse(&text).expect("rendered document parses back");
    let again = Tag::<Text, ActionTagName>::from_node(&node).expect("round trip binds");
    assert_eq!(
        again.value.content,
        "http://schemas.xmlsoap.org/ws/2004/09/transfer/Get"
    );
    assert_eq!(again.attributes.len(), 1);
    assert_eq!(again.attributes[0].name, "Id");
    assert_eq!(again.attributes[0].value, "1");
    assert_eq!(again.attributes[0].namespace, None);
    assert_eq!(
        again.namespaces_declaration.namespaces(),
        &[Namespace::WsAddressing, Namespace::Soap]
    );
}

#[test]
fn envelope_tag_binds_soap_namespace() {
    let tag = Tag::new(Text::new("")).with_name(EnvelopeTagName);
    assert_eq!(tag.name(), "Envelope");
    let text = format_document(&tag.into_element()).unwrap();
    assert_eq!(text, "<s:Envelope></s:Envelope>");
}

#[test]
fn unparseable_text_reports_parse_failure() {
    match parse("this is not xml <<<") {
        Err(XmlError::ParseFailure(_)) => {},
        other => panic!("expected a parse failure, got {:?}", other),
    }
}

#[test]
fn alias_table_first_entry_wins() {
    let mut table = AliasTable::new();
    table.insert(Namespace::Soap, "s");
    table.insert(Namespace::Soap, "t");
    assert_eq!(table.get(Namespace::Soap), Some(&"s".to_string()));
    assert_eq!(table.get(Namespace::WsAddressing), None);
}

#[test]
fn namespace_getters_collect_without_duplicates() {
    let a = Attribute::new("x", "1").set_namespace(Namespace::Soap);
    let b = Attribute::new("y", "2").set_namespace(Namespace::Soap);
    let mut set = Vec::new();
    a.get_namespaces(&mut set);
    b.get_namespaces(&mut set);
    assert_eq!(set, vec![Namespace::Soap]);
}

fn first_element_child(node: &XmlNode) -> &XmlNode {
    match node {
        XmlNode::Element(en) => en
            .children
            .iter()
            .find(|c| matches!(c, XmlNode::Element(_)))
            .expect("an element child"),
        _ => panic!("expected an element"),
    }
}

#[test]
fn deeply_nested_document_parses() {
    let mut xml = String::new();
    for _ in 0..70 {
        xml.push_str("<a>");
    }
    for _ in 0..70 {
        xml.push_str("</a>");
    }
    assert!(parse(&xml).is_ok());
}

#[test]
fn nested_element_inherits_no_declarations() {
    let xml = "<s:Envelope xmlns:s=\"http://www.w3.org/2003/05/soap-envelope\">\
               <s:Header/></s:Envelope>";
    let node = parse(xml).expect("well-formed XML");
    let root_decls = NamespaceDeclaration::from_node(&node).unwrap();
    assert_eq!(root_decls.namespaces(), &[Namespace::Soap]);
    let child = first_element_child(&node);
    let child_decls = NamespaceDeclaration::from_node(child).unwrap();
    assert_eq!(child_decls.namespaces(), &[] as &[Namespace]);
}

#[test]
fn nested_element_reports_only_its_own_declarations() {
    let xml = "<s:Envelope xmlns:s=\"http://www.w3.org/2003/05/soap-envelope\">\
               <a:Action xmlns:a=\"http://schemas.xmlsoap.org/ws/2004/08/addressing\">go\
               </a:Action></s:Envelope>";
    let node = parse(xml).expect("well-formed XML");
    let child = first_element_child(&node);
    let child_decls = NamespaceDeclaration::from_node(child).unwrap();
    assert_eq!(child_decls.namespaces(), &[Namespace::WsAddressing]);
}

#[test]
fn unknown_declaration_on_ancestor_does_not_abort_child() {
    let xml = "<e xmlns:z=\"urn:unknown\"><f/></e>";
    let node = parse(xml).expect("well-formed XML");
    assert_eq!(
        NamespaceDeclaration::from_node(&node),
        Err(XmlError::UnknownNamespace("urn:unknown".to_string()))
    );
    let child = first_element_child(&node);
    let child_decls = NamespaceDeclaration::from_node(child).unwrap();
    assert_eq!(child_decls.namespaces(), &[] as &[Namespace]);
}

#[test]
fn prefix_of_a_known_uri_is_still_unknown() {
    let r = Namespace::lookup_by_uri("http://www.w3.org/2003/05/soap");
    assert_eq!(
        r,
        Err(XmlError::UnknownNamespace(
            "http://www.w3.org/2003/05/soap".to_string()
        ))
    );
}

#[test]
fn element_children_contribute_no_text() {
    let node = XmlNode::Element(ElementNode {
        local_name: "Action".to_string(),
        namespace_uri: None,
        attributes: vec![],
        namespace_decls: vec![],
        children: vec![
            XmlNode::Text("a".to_string()),
            XmlNode::Element(ElementNode {
                local_name: "Inner".to_string(),
                namespace_uri: None,
                attributes: vec![],
                namespace_decls: vec![],
                children: vec![XmlNode::Text("ignored".to_string())],
            }),
            XmlNode::Text("b".to_string()),
        ],
    });
    let tag = Tag::<Text, ActionTagName>::from_node(&node).unwrap();
    assert_eq!(tag.value.content, "ab");
}
