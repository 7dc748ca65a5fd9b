use libstrophe::XMPP_STANZA_NAME_IN_NS;

#[test]
fn tests_examples() {}

#[test]
fn mod_examples() {}

#[test]
fn name_in_ns_path_element() {
    assert_eq!(XMPP_STANZA_NAME_IN_NS("iq", "iq_namespace"), "iq[@ns='iq_namespace']");
    assert_eq!(XMPP_STANZA_NAME_IN_NS("", ""), "[@ns='']");
}
