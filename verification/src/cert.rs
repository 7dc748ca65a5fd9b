//! What the debug output of a TLS certificate shows.
use vstd::prelude::*;

use crate::types::xmpp_cert_element_t;

verus! {

/// The certificate elements the debug output shows, in order.
pub open spec fn cert_debug_element_seq() -> Seq<xmpp_cert_element_t> {
    seq![
        xmpp_cert_element_t::XMPP_CERT_VERSION,
        xmpp_cert_element_t::XMPP_CERT_SERIALNUMBER,
        xmpp_cert_element_t::XMPP_CERT_SUBJECT,
        xmpp_cert_element_t::XMPP_CERT_ISSUER,
        xmpp_cert_element_t::XMPP_CERT_NOTBEFORE,
        xmpp_cert_element_t::XMPP_CERT_NOTAFTER,
        xmpp_cert_element_t::XMPP_CERT_KEYALG,
        xmpp_cert_element_t::XMPP_CERT_SIGALG,
        xmpp_cert_element_t::XMPP_CERT_FINGERPRINT_SHA1,
        xmpp_cert_element_t::XMPP_CERT_FINGERPRINT_SHA256,
    ]
}

/// The certificate elements the debug output shows, in order.
pub fn cert_debug_elements() -> (r: Vec<xmpp_cert_element_t>)
    ensures
        r@ == cert_debug_element_seq(),
{
    let r = vec![
        xmpp_cert_element_t::XMPP_CERT_VERSION,
        xmpp_cert_element_t::XMPP_CERT_SERIALNUMBER,
        xmpp_cert_element_t::XMPP_CERT_SUBJECT,
        xmpp_cert_element_t::XMPP_CERT_ISSUER,
        xmpp_cert_element_t::XMPP_CERT_NOTBEFORE,
        xmpp_cert_element_t::XMPP_CERT_NOTAFTER,
        xmpp_cert_element_t::XMPP_CERT_KEYALG,
        xmpp_cert_element_t::XMPP_CERT_SIGALG,
        xmpp_cert_element_t::XMPP_CERT_FINGERPRINT_SHA1,
        xmpp_cert_element_t::XMPP_CERT_FINGERPRINT_SHA256,
    ];
    assert(r@ =~= cert_debug_element_seq());
    r
}

/// The text shown for an element's value: the value, or a note when it cannot be read.
pub open spec fn cert_value_text<'a>(value: Option<&'a str>) -> &'a str {
    match value {
        Some(v) => v,
        None => "<unreadable value or non-utf8>",
    }
}

/// The debug fields for the elements, given each element's description and value: an element
/// without a description is left out.
pub open spec fn cert_field_entries<'a>(fields: Seq<(Option<&'a str>, Option<&'a str>)>) -> Seq<(&'a str, &'a str)>
    decreases fields.len(),
{
    if fields.len() == 0 {
        Seq::empty()
    } else {
        let rest = cert_field_entries(fields.drop_last());
        match fields.last().0 {
            Some(name) => rest.push((name, cert_value_text(fields.last().1))),
            None => rest,
        }
    }
}

/// The debug fields for the certificate's DNS names, one `DNS Name` field each.
pub open spec fn dns_entries<'a>(names: Seq<&'a str>) -> Seq<(&'a str, &'a str)> {
    Seq::new(names.len(), |i: int| ("DNS Name", names[i]))
}

/// The fields of a certificate's debug output: for each element with a description, the
/// description and the value (or a note when it cannot be read), then one field per DNS name.
pub fn cert_debug_entries<'a>(
    fields: &Vec<(Option<&'a str>, Option<&'a str>)>,
    dns_names: &Vec<&'a str>,
) -> (r: Vec<(&'a str, &'a str)>)
    ensures
        r@ == cert_field_entries(fields@) + dns_entries(dns_names@),
{
    let mut out: Vec<(&'a str, &'a str)> = Vec::new();
    let mut i: usize = 0;
    while i < fields.len()
        invariant
            i <= fields@.len(),
            out@ == cert_field_entries(fields@.take(i as int)),
        decreases fields@.len() - i,
    {
        let (name, value) = fields[i];
        proof {
            assert(fields@.take(i as int + 1).drop_last() =~= fields@.take(i as int));
        }
        match name {
            Some(n) => {
                let v = match value {
                    Some(v) => v,
                    None => "<unreadable value or non-utf8>",
                };
                out.push((n, v));
            },
            None => {},
        }
        i = i + 1;
    }
    assert(fields@.take(i as int) =~= fields@);
    let ghost head = out@;
    let mut j: usize = 0;
    while j < dns_names.len()
        invariant
            j <= dns_names@.len(),
            out@ == head + dns_entries(dns_names@.take(j as int)),
        decreases dns_names@.len() - j,
    {
        out.push(("DNS Name", dns_names[j]));
        proof {
            assert(dns_entries(dns_names@.take(j as int + 1)) =~= dns_entries(dns_names@.take(j as int)).push(
                ("DNS Name", dns_names@[j as int]),
            ));
        }
        j = j + 1;
    }
    assert(dns_names@.take(j as int) =~= dns_names@);
    out
}

} // verus!
